use lcd_agent::ws::{
    after_command, classify, config_command, decode_deploy, deploy_command, on_input,
    query_command, route, scan_command, step_for, ChannelInput, Command, CommandKind,
    InboundEnvelope, OutboundEnvelope, ReceiveStep,
};

fn text(s: &str) -> ChannelInput {
    ChannelInput::Text(s.to_string())
}

#[test]
fn command_names_match_exactly() {
    assert_eq!(classify("scan"), CommandKind::Scan);
    assert_eq!(classify("query"), CommandKind::Query);
    assert_eq!(classify("config"), CommandKind::Config);
    assert_eq!(classify("deploy"), CommandKind::Deploy);
}

#[test]
fn other_names_are_unrecognized() {
    assert_eq!(classify(""), CommandKind::Unrecognized);
    assert_eq!(classify("Scan"), CommandKind::Unrecognized);
    assert_eq!(classify("scan "), CommandKind::Unrecognized);
    assert_eq!(classify("scanner"), CommandKind::Unrecognized);
    assert_eq!(classify("update"), CommandKind::Unrecognized);
    assert_eq!(classify("scan_result"), CommandKind::Unrecognized);
}

#[test]
fn envelope_is_read_from_json() {
    let envelope =
        InboundEnvelope::decode("{\"name\":\"scan\",\"data\":\"10.0.0.1\",\"pwd\":\"123456.\"}");
    assert_eq!(envelope.name.as_deref(), Some("scan"));
    assert_eq!(envelope.data, "10.0.0.1");
    assert_eq!(envelope.pwd, "123456.");
    assert_eq!(envelope.kind(), CommandKind::Scan);
}

#[test]
fn envelope_unescapes_its_strings() {
    let envelope = InboundEnvelope::decode(
        " { \"data\" : \"{\\\"ip\\\":\\\"10.0.0.1\\\"}\", \"name\" : \"de\\u0070loy\" } ",
    );
    assert_eq!(envelope.name.as_deref(), Some("deploy"));
    assert_eq!(envelope.data, "{\"ip\":\"10.0.0.1\"}");
    assert_eq!(envelope.pwd, "");
}

#[test]
fn missing_members_read_as_empty() {
    let envelope = InboundEnvelope::decode("{\"name\":\"scan\"}");
    assert_eq!(envelope.name.as_deref(), Some("scan"));
    assert_eq!(envelope.data, "");
    assert_eq!(envelope.pwd, "");
    let envelope = InboundEnvelope::decode("{}");
    assert!(envelope.name.is_none());
    assert_eq!(envelope.kind(), CommandKind::Unrecognized);
}

#[test]
fn members_that_are_not_strings_read_as_empty() {
    let envelope =
        InboundEnvelope::decode("{\"name\":7,\"data\":[\"10.0.0.1\"],\"pwd\":{\"a\":\"b\"}}");
    assert!(envelope.name.is_none());
    assert_eq!(envelope.data, "");
    assert_eq!(envelope.pwd, "");
    let envelope = InboundEnvelope::decode("{\"name\":null,\"data\":true,\"pwd\":1.5}");
    assert!(envelope.name.is_none());
    assert_eq!(envelope.data, "");
    assert_eq!(envelope.pwd, "");
}

#[test]
fn text_that_is_not_json_reads_as_empty() {
    for bad in ["", "scan", "{\"name\":\"scan\"", "{\"name\":\"scan\"} x", "{name:scan}"] {
        let envelope = InboundEnvelope::decode(bad);
        assert!(envelope.name.is_none(), "{:?}", bad);
        assert_eq!(envelope.data, "");
        assert_eq!(envelope.pwd, "");
    }
}

#[test]
fn json_that_is_not_an_object_reads_as_empty() {
    for other in ["[]", "\"scan\"", "17", "null", "[{\"name\":\"scan\"}]"] {
        let envelope = InboundEnvelope::decode(other);
        assert!(envelope.name.is_none(), "{:?}", other);
        assert_eq!(envelope.data, "");
    }
}

#[test]
fn envelope_from_a_parsed_value() {
    let mut members = serde_json::Map::new();
    members.insert("name".to_string(), serde_json::Value::String("query".to_string()));
    members.insert("data".to_string(), serde_json::Value::String("10.0.0.9".to_string()));
    members.insert("pwd".to_string(), serde_json::Value::Bool(true));
    let envelope = InboundEnvelope::from_value(&serde_json::Value::Object(members));
    assert_eq!(envelope.name.as_deref(), Some("query"));
    assert_eq!(envelope.data, "10.0.0.9");
    assert_eq!(envelope.pwd, "");
    let envelope = InboundEnvelope::from_value(&serde_json::Value::Null);
    assert!(envelope.name.is_none());
}

#[test]
fn empty_envelope_has_nothing() {
    let envelope = InboundEnvelope::empty();
    assert!(envelope.name.is_none());
    assert_eq!(envelope.data, "");
    assert_eq!(envelope.pwd, "");
    assert!(matches!(route(envelope), Command::Nothing));
}

#[test]
fn scan_is_routed_with_its_credential() {
    let envelope =
        InboundEnvelope::decode("{\"name\":\"scan\",\"data\":\"192.168.11.1\",\"pwd\":\"pw\"}");
    match route(envelope) {
        Command::Scan { ip, pwd } => {
            assert_eq!(ip, "192.168.11.1");
            assert_eq!(pwd, "pw");
        }
        other => panic!("routed to {:?}", other),
    }
}

#[test]
fn scan_without_credential_has_an_empty_one() {
    match route(InboundEnvelope::decode("{\"name\":\"scan\",\"data\":\"10.0.0.1\"}")) {
        Command::Scan { ip, pwd } => {
            assert_eq!(ip, "10.0.0.1");
            assert_eq!(pwd, "");
        }
        other => panic!("routed to {:?}", other),
    }
}

#[test]
fn query_and_config_are_routed() {
    match route(InboundEnvelope::decode("{\"name\":\"query\",\"data\":\"10.0.0.9\"}")) {
        Command::Query { ip } => assert_eq!(ip, "10.0.0.9"),
        other => panic!("routed to {:?}", other),
    }
    match route(InboundEnvelope::decode("{\"name\":\"config\",\"data\":\"{\\\"mode\\\":\\\"a\\\"}\"}"))
    {
        Command::Config { settings } => assert_eq!(settings, "{\"mode\":\"a\"}"),
        other => panic!("routed to {:?}", other),
    }
}

#[test]
fn deploy_reads_its_payload() {
    let message = "{\"name\":\"deploy\",\"pwd\":\"pw\",\"data\":\"{\\\"ip\\\":\\\"10.0.0.1\\\",\\\"version\\\":\\\"0.2.3\\\",\\\"address\\\":\\\"aleo1xyz\\\"}\"}";
    match route(InboundEnvelope::decode(message)) {
        Command::Deploy { ip, pwd, version, address } => {
            assert_eq!(ip, "10.0.0.1");
            assert_eq!(pwd, "pw");
            assert_eq!(version, "0.2.3");
            assert_eq!(address, "aleo1xyz");
        }
        other => panic!("routed to {:?}", other),
    }
}

#[test]
fn deploy_with_partial_payload_has_empty_fields() {
    match decode_deploy("{\"ip\":\"10.0.0.1\",\"version\":3}", "pw".to_string()) {
        Command::Deploy { ip, pwd, version, address } => {
            assert_eq!(ip, "10.0.0.1");
            assert_eq!(pwd, "pw");
            assert_eq!(version, "");
            assert_eq!(address, "");
        }
        other => panic!("decoded to {:?}", other),
    }
}

#[test]
fn deploy_without_host_does_nothing() {
    assert!(matches!(decode_deploy("{\"version\":\"1\"}", String::new()), Command::Nothing));
    assert!(matches!(decode_deploy("{\"ip\":\"\"}", String::new()), Command::Nothing));
    assert!(matches!(decode_deploy("not json", String::new()), Command::Nothing));
    assert!(matches!(decode_deploy("", String::new()), Command::Nothing));
    assert!(matches!(
        route(InboundEnvelope::decode("{\"name\":\"deploy\",\"data\":\"10.0.0.1\"}")),
        Command::Nothing
    ));
    assert!(matches!(
        route(InboundEnvelope::decode("{\"name\":\"deploy\",\"data\":\"\"}")),
        Command::Nothing
    ));
}

#[test]
fn commands_without_data_do_nothing() {
    for name in ["scan", "query", "config", "deploy"] {
        let missing = format!("{{\"name\":\"{}\"}}", name);
        assert!(matches!(route(InboundEnvelope::decode(&missing)), Command::Nothing));
        let empty = format!("{{\"name\":\"{}\",\"data\":\"\",\"pwd\":\"pw\"}}", name);
        assert!(matches!(route(InboundEnvelope::decode(&empty)), Command::Nothing));
        let wrong = format!("{{\"name\":\"{}\",\"data\":17}}", name);
        assert!(matches!(route(InboundEnvelope::decode(&wrong)), Command::Nothing));
    }
}

#[test]
fn unknown_commands_do_nothing() {
    let envelope = InboundEnvelope::decode("{\"name\":\"update\",\"data\":\"10.0.0.1\"}");
    assert!(matches!(route(envelope), Command::Nothing));
    let envelope = InboundEnvelope::decode("{\"data\":\"10.0.0.1\"}");
    assert!(matches!(route(envelope), Command::Nothing));
}

#[test]
fn command_builders_refuse_empty_targets() {
    assert!(matches!(scan_command(String::new(), "pw".to_string()), Command::Nothing));
    assert!(matches!(query_command(String::new()), Command::Nothing));
    assert!(matches!(config_command(String::new()), Command::Nothing));
    assert!(matches!(
        deploy_command(String::new(), "pw".to_string(), "1".to_string(), "a".to_string()),
        Command::Nothing
    ));
    assert!(matches!(scan_command("10.0.0.1".to_string(), String::new()), Command::Scan { .. }));
    assert!(matches!(query_command("10.0.0.1".to_string()), Command::Query { .. }));
    assert!(matches!(config_command("{}".to_string()), Command::Config { .. }));
    assert!(matches!(
        deploy_command("10.0.0.1".to_string(), String::new(), String::new(), String::new()),
        Command::Deploy { .. }
    ));
}

#[test]
fn receive_loop_carries_out_commands() {
    match on_input(text("{\"name\":\"scan\",\"data\":\"10.0.0.1\"}")) {
        ReceiveStep::Execute(Command::Scan { ip, pwd }) => {
            assert_eq!(ip, "10.0.0.1");
            assert_eq!(pwd, "");
        }
        other => panic!("the step is {:?}", other),
    }
}

#[test]
fn receive_loop_passes_over_what_asks_nothing() {
    assert!(matches!(on_input(text("not json")), ReceiveStep::Continue));
    assert!(matches!(on_input(text("")), ReceiveStep::Continue));
    assert!(matches!(on_input(text("{\"name\":\"scan\"}")), ReceiveStep::Continue));
    assert!(matches!(on_input(text("{\"name\":\"reboot\",\"data\":\"x\"}")), ReceiveStep::Continue));
    assert!(matches!(on_input(ChannelInput::Other), ReceiveStep::Continue));
}

#[test]
fn receive_loop_stops_when_the_channel_ends() {
    assert!(matches!(on_input(ChannelInput::Close), ReceiveStep::Stop));
    assert!(matches!(on_input(ChannelInput::ReadError), ReceiveStep::Stop));
    assert!(matches!(on_input(ChannelInput::End), ReceiveStep::Stop));
}

#[test]
fn receive_loop_stops_after_a_failed_command() {
    assert!(matches!(after_command(true), ReceiveStep::Continue));
    assert!(matches!(after_command(false), ReceiveStep::Stop));
}

#[test]
fn step_for_a_command() {
    assert!(matches!(step_for(Command::Nothing), ReceiveStep::Continue));
    assert!(matches!(
        step_for(Command::Query { ip: "10.0.0.1".to_string() }),
        ReceiveStep::Execute(Command::Query { .. })
    ));
}

#[test]
fn scan_result_is_written_as_json() {
    let envelope = OutboundEnvelope::scan_result("[]".to_string(), 3);
    assert_eq!(envelope.name, "scan_result");
    assert_eq!(envelope.data, "[]");
    assert_eq!(envelope.progress, Some(3));
    assert_eq!(envelope.encode(), "{\"data\":\"[]\",\"name\":\"scan_result\",\"progress\":3}");
}

#[test]
fn data_is_escaped_inside_the_envelope() {
    let envelope = OutboundEnvelope::scan_result("[{\"ip\":\"10.0.0.5\"}]".to_string(), 100);
    assert_eq!(
        envelope.encode(),
        "{\"data\":\"[{\\\"ip\\\":\\\"10.0.0.5\\\"}]\",\"name\":\"scan_result\",\"progress\":100}"
    );
}

#[test]
fn results_without_progress() {
    let query = OutboundEnvelope::query_result("{}".to_string());
    assert_eq!(query.progress, None);
    assert_eq!(query.encode(), "{\"data\":\"{}\",\"name\":\"query_result\"}");
    let config = OutboundEnvelope::config_result("line\nbreak".to_string());
    assert_eq!(config.encode(), "{\"data\":\"line\\nbreak\",\"name\":\"config_result\"}");
}

#[test]
fn query_answer_of_a_silent_host_is_an_empty_object() {
    let silent = OutboundEnvelope::query_answer(None);
    assert_eq!(silent.name, "query_result");
    assert_eq!(silent.data, "{}");
    assert_eq!(silent.progress, None);
    let found = OutboundEnvelope::query_answer(Some("{\"ip\":\"10.0.0.9\"}".to_string()));
    assert_eq!(found.data, "{\"ip\":\"10.0.0.9\"}");
    assert_eq!(found.encode(), "{\"data\":\"{\\\"ip\\\":\\\"10.0.0.9\\\"}\",\"name\":\"query_result\"}");
}

#[test]
fn encoded_envelope_reads_back() {
    let data = "[{\"ip\":\"10.0.0.5\",\"gpu_info\":[],\"prover_info\":[]}]";
    let text = OutboundEnvelope::scan_result(data.to_string(), 42).encode();
    let value: serde_json::Value = serde_json::from_str(&text).unwrap();
    assert_eq!(value["name"].as_str(), Some("scan_result"));
    assert_eq!(value["data"].as_str(), Some(data));
    assert_eq!(value["progress"].as_u64(), Some(42));
    assert_eq!(value.as_object().unwrap().len(), 3);
}
