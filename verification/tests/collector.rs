use lcd_agent::collector::{
    collect, control_outcome, probe_outcome, FleetResult, GpuInfo, HostOutcome, MachineInfo,
    ProverInfo,
};
use lcd_agent::error::AgentError;

fn gpu(index: &str) -> GpuInfo {
    GpuInfo {
        index: index.to_string(),
        name: "NVIDIA GeForce RTX 3070".to_string(),
        power: "172.27".to_string(),
        temperature: "89".to_string(),
    }
}

fn prover(gpu_index: &str) -> ProverInfo {
    ProverInfo {
        timestamp: "2024-10-13T10:22:57".to_string(),
        gpu_index: gpu_index.to_string(),
        one_min: "445925".to_string(),
        five_min: "445325".to_string(),
        fifteen_min: "332917".to_string(),
        thirty_min: "306742".to_string(),
        sixty_min: "309270".to_string(),
    }
}

fn failure() -> AgentError {
    AgentError::CommandError("timed out".to_string())
}

fn hosts_of<T>(fleet: &FleetResult<T>) -> Vec<String> {
    fleet.successes.iter().map(|s| s.host.clone()).collect()
}

#[test]
fn default_records_are_empty() {
    let machine = MachineInfo::default();
    assert_eq!(machine.ip, "");
    assert!(machine.gpu_info.is_empty());
    assert!(machine.prover_info.is_empty());
    let gpu = GpuInfo::default();
    assert_eq!(gpu.index, "");
    assert_eq!(gpu.name, "");
    assert_eq!(gpu.power, "");
    assert_eq!(gpu.temperature, "");
    let prover = ProverInfo::default();
    assert_eq!(prover.timestamp, "");
    assert_eq!(prover.gpu_index, "");
    assert_eq!(prover.one_min, "");
    assert_eq!(prover.five_min, "");
    assert_eq!(prover.fifteen_min, "");
    assert_eq!(prover.thirty_min, "");
    assert_eq!(prover.sixty_min, "");
}

#[test]
fn located_record_takes_the_address_of_the_host() {
    let report = MachineInfo {
        ip: "1.2.3.4".to_string(),
        gpu_info: vec![gpu("0"), gpu("1")],
        prover_info: vec![prover("0")],
    };
    let record = MachineInfo::located("192.168.187.73", Some(report));
    assert_eq!(record.ip, "192.168.187.73");
    assert_eq!(record.gpu_info.len(), 2);
    assert_eq!(record.gpu_info[0].index, "0");
    assert_eq!(record.gpu_info[1].index, "1");
    assert_eq!(record.gpu_info[1].temperature, "89");
    assert_eq!(record.prover_info.len(), 1);
    assert_eq!(record.prover_info[0].sixty_min, "309270");
}

#[test]
fn unreadable_report_gives_an_empty_record() {
    let record = MachineInfo::located("192.168.187.73", None);
    assert_eq!(record.ip, "192.168.187.73");
    assert!(record.gpu_info.is_empty());
    assert!(record.prover_info.is_empty());
}

#[test]
fn probe_outcome_of_a_reachable_host() {
    let report =
        MachineInfo { ip: String::new(), gpu_info: vec![gpu("0")], prover_info: vec![] };
    let outcome = probe_outcome("10.0.0.5", Ok(Some(report)));
    assert_eq!(outcome.host, "10.0.0.5");
    let record = outcome.result.expect("the probe ran");
    assert_eq!(record.ip, "10.0.0.5");
    assert_eq!(record.gpu_info.len(), 1);
}

#[test]
fn probe_outcome_of_an_unreadable_report() {
    let outcome = probe_outcome("10.0.0.5", Ok(None));
    let record = outcome.result.expect("the probe ran");
    assert_eq!(record.ip, "10.0.0.5");
    assert!(record.gpu_info.is_empty());
    assert!(record.prover_info.is_empty());
}

#[test]
fn probe_outcome_of_an_unreachable_host() {
    let outcome = probe_outcome("10.0.0.6", Err(failure()));
    assert_eq!(outcome.host, "10.0.0.6");
    match outcome.result {
        Err(AgentError::CommandError(message)) => assert_eq!(message, "timed out"),
        other => panic!("the outcome is {:?}", other),
    }
}

#[test]
fn control_outcome_keeps_the_result() {
    let done = control_outcome("10.0.0.7", Ok(()));
    assert_eq!(done.host, "10.0.0.7");
    assert!(done.result.is_ok());
    let failed = control_outcome("10.0.0.8", Err(AgentError::WebSocketError("x".to_string())));
    assert_eq!(failed.host, "10.0.0.8");
    assert!(matches!(failed.result, Err(AgentError::WebSocketError(_))));
}

#[test]
fn collect_drops_failed_hosts() {
    let outcomes = vec![
        HostOutcome { host: "10.0.0.3".to_string(), result: Err(failure()) },
        HostOutcome { host: "10.0.0.9".to_string(), result: Ok(9u32) },
        HostOutcome { host: "10.0.0.1".to_string(), result: Err(failure()) },
        HostOutcome { host: "10.0.0.5".to_string(), result: Ok(5u32) },
        HostOutcome { host: "10.0.0.2".to_string(), result: Err(failure()) },
    ];
    let fleet = collect(outcomes);
    assert_eq!(hosts_of(&fleet), vec!["10.0.0.9", "10.0.0.5"]);
    assert_eq!(fleet.successes[0].payload, 9);
    assert_eq!(fleet.successes[1].payload, 5);
    assert_eq!(fleet.dropped, vec!["10.0.0.3", "10.0.0.1", "10.0.0.2"]);
}

#[test]
fn collect_keeps_arrival_order() {
    let outcomes = vec![
        HostOutcome { host: "10.0.0.200".to_string(), result: Ok(()) },
        HostOutcome { host: "10.0.0.1".to_string(), result: Ok(()) },
        HostOutcome { host: "10.0.0.77".to_string(), result: Ok(()) },
    ];
    let fleet = collect(outcomes);
    assert_eq!(hosts_of(&fleet), vec!["10.0.0.200", "10.0.0.1", "10.0.0.77"]);
    assert!(fleet.dropped.is_empty());
}

#[test]
fn collect_of_nothing_is_empty() {
    let fleet = collect(Vec::<HostOutcome<()>>::new());
    assert!(fleet.successes.is_empty());
    assert!(fleet.dropped.is_empty());
}

#[test]
fn collect_of_failures_only_reports_nobody() {
    let outcomes = vec![
        HostOutcome::<()> { host: "10.0.0.1".to_string(), result: Err(failure()) },
        HostOutcome::<()> { host: "10.0.0.2".to_string(), result: Err(failure()) },
    ];
    let fleet = collect(outcomes);
    assert!(fleet.successes.is_empty());
    assert_eq!(fleet.dropped.len(), 2);
}

#[test]
fn sweep_counts_reachable_and_unreachable_hosts() {
    let mut outcomes = Vec::new();
    for suffix in 1..=255u32 {
        let host = format!("10.0.0.{}", suffix);
        let result = if suffix % 3 == 0 { Ok(suffix) } else { Err(failure()) };
        outcomes.push(HostOutcome { host, result });
    }
    let fleet = collect(outcomes);
    assert_eq!(fleet.successes.len(), 85);
    assert_eq!(fleet.dropped.len(), 170);
    for success in &fleet.successes {
        assert_eq!(success.payload % 3, 0);
        assert_eq!(success.host, format!("10.0.0.{}", success.payload));
    }
    let mut hosts = hosts_of(&fleet);
    hosts.sort();
    hosts.dedup();
    assert_eq!(hosts.len(), 85);
}

#[test]
fn repeated_sweep_reports_the_same_hosts() {
    let first = collect(vec![
        HostOutcome { host: "10.0.0.5".to_string(), result: Ok(()) },
        HostOutcome { host: "10.0.0.6".to_string(), result: Err(failure()) },
        HostOutcome { host: "10.0.0.9".to_string(), result: Ok(()) },
    ]);
    let second = collect(vec![
        HostOutcome { host: "10.0.0.9".to_string(), result: Ok(()) },
        HostOutcome { host: "10.0.0.6".to_string(), result: Err(failure()) },
        HostOutcome { host: "10.0.0.5".to_string(), result: Ok(()) },
    ]);
    assert_eq!(first.successes.len(), second.successes.len());
    let mut a = hosts_of(&first);
    let mut b = hosts_of(&second);
    a.sort();
    b.sort();
    assert_eq!(a, b);
    assert_eq!(a, vec!["10.0.0.5", "10.0.0.9"]);
}
