//! The command dispatcher of the control channel: what an inbound message
//! asks for, and what the receive loop does next.

use vstd::prelude::*;
use vstd::string::*;
use crate::json::{
    document_members, empty_object, number_value, object_text, parse_value, render_object,
    set_member, string_literal, string_member, text_value, value_members,
};
use crate::text::{decimal_text, same_text};

verus! {

/// An inbound message of the control channel, as far as the agent reads it.
/// A member that is missing, or is not a string, reads as absent (`name`) or
/// empty (`data`, `pwd`).
#[derive(Debug)]
pub struct InboundEnvelope {
    pub name: Option<String>,
    pub data: String,
    pub pwd: String,
}

/// The mathematical content of an [`InboundEnvelope`].
pub ghost struct EnvelopeModel {
    pub name: Option<Seq<char>>,
    pub data: Seq<char>,
    pub pwd: Seq<char>,
}

impl View for InboundEnvelope {
    type V = EnvelopeModel;

    open spec fn view(&self) -> EnvelopeModel {
        EnvelopeModel {
            name: match self.name {
                Some(s) => Some(s@),
                None => None,
            },
            data: self.data@,
            pwd: self.pwd@,
        }
    }
}

/// The command names of the wire protocol, decoded once.
#[derive(Clone, Copy, Debug, PartialEq, Eq, Structural)]
pub enum CommandKind {
    Scan,
    Query,
    Config,
    Deploy,
    Unrecognized,
}

/// What an inbound message asks the agent to do.
#[derive(Debug)]
pub enum Command {
    /// Probe every host of the subnet of `ip`.
    Scan { ip: String, pwd: String },
    /// Probe the single host `ip`.
    Query { ip: String },
    /// Reconfigure hosts as `settings`, a JSON text, describes.
    Config { settings: String },
    /// Install `version` for `address` on every host of the subnet of `ip`.
    Deploy { ip: String, pwd: String, version: String, address: String },
    /// Nothing to do.
    Nothing,
}

/// The mathematical content of a [`Command`].
pub ghost enum CommandModel {
    Scan { ip: Seq<char>, pwd: Seq<char> },
    Query { ip: Seq<char> },
    Config { settings: Seq<char> },
    Deploy { ip: Seq<char>, pwd: Seq<char>, version: Seq<char>, address: Seq<char> },
    Nothing,
}

impl View for Command {
    type V = CommandModel;

    open spec fn view(&self) -> CommandModel {
        match self {
            Command::Scan { ip, pwd } => CommandModel::Scan { ip: ip@, pwd: pwd@ },
            Command::Query { ip } => CommandModel::Query { ip: ip@ },
            Command::Config { settings } => CommandModel::Config { settings: settings@ },
            Command::Deploy { ip, pwd, version, address } => CommandModel::Deploy {
                ip: ip@,
                pwd: pwd@,
                version: version@,
                address: address@,
            },
            Command::Nothing => CommandModel::Nothing,
        }
    }
}

/// The string member at `key`, or the empty string.
pub open spec fn member_or_empty(members: Map<Seq<char>, Seq<char>>, key: Seq<char>) -> Seq<char> {
    if members.contains_key(key) {
        members[key]
    } else {
        Seq::empty()
    }
}

/// The envelope that a parsed message holds. A text that is not JSON reads as
/// an object without members.
pub open spec fn envelope_of(members: Option<Map<Seq<char>, Seq<char>>>) -> EnvelopeModel {
    let m = match members {
        Some(m) => m,
        None => Map::empty(),
    };
    EnvelopeModel {
        name: if m.contains_key("name"@) {
            Some(m["name"@])
        } else {
            None
        },
        data: member_or_empty(m, "data"@),
        pwd: member_or_empty(m, "pwd"@),
    }
}

/// The command kind that a name stands for: an exact match, or none.
pub open spec fn kind_of(name: Seq<char>) -> CommandKind {
    if name == "scan"@ {
        CommandKind::Scan
    } else if name == "query"@ {
        CommandKind::Query
    } else if name == "config"@ {
        CommandKind::Config
    } else if name == "deploy"@ {
        CommandKind::Deploy
    } else {
        CommandKind::Unrecognized
    }
}

/// The kind of an envelope: that of its name, if it has one.
pub open spec fn envelope_kind(name: Option<Seq<char>>) -> CommandKind {
    match name {
        Some(n) => kind_of(n),
        None => CommandKind::Unrecognized,
    }
}

/// A scan of the subnet of `ip`; nothing where `ip` is empty.
pub open spec fn scan_of(ip: Seq<char>, pwd: Seq<char>) -> CommandModel {
    if ip.len() == 0 {
        CommandModel::Nothing
    } else {
        CommandModel::Scan { ip, pwd }
    }
}

/// A query of the host `ip`; nothing where `ip` is empty.
pub open spec fn query_of(ip: Seq<char>) -> CommandModel {
    if ip.len() == 0 {
        CommandModel::Nothing
    } else {
        CommandModel::Query { ip }
    }
}

/// A reconfiguration; nothing where `settings` is empty.
pub open spec fn config_of(settings: Seq<char>) -> CommandModel {
    if settings.len() == 0 {
        CommandModel::Nothing
    } else {
        CommandModel::Config { settings }
    }
}

/// A deployment described by the members of its payload, `ip`, `version`
/// and `address`; nothing where `ip` is missing or empty.
pub open spec fn deploy_of(payload: Option<Map<Seq<char>, Seq<char>>>, pwd: Seq<char>)
    -> CommandModel {
    let m = match payload {
        Some(m) => m,
        None => Map::empty(),
    };
    let ip = member_or_empty(m, "ip"@);
    if ip.len() == 0 {
        CommandModel::Nothing
    } else {
        CommandModel::Deploy {
            ip,
            pwd,
            version: member_or_empty(m, "version"@),
            address: member_or_empty(m, "address"@),
        }
    }
}

/// The command that an envelope stands for. `payload` is what the envelope's
/// `data`, read as JSON once more, holds; only a deployment looks at it.
pub open spec fn route_of(envelope: EnvelopeModel, payload: Option<Map<Seq<char>, Seq<char>>>)
    -> CommandModel {
    match envelope_kind(envelope.name) {
        CommandKind::Scan => scan_of(envelope.data, envelope.pwd),
        CommandKind::Query => query_of(envelope.data),
        CommandKind::Config => config_of(envelope.data),
        CommandKind::Deploy => if envelope.data.len() == 0 {
            CommandModel::Nothing
        } else {
            deploy_of(payload, envelope.pwd)
        },
        CommandKind::Unrecognized => CommandModel::Nothing,
    }
}

/// Decodes a command name.
pub fn classify(name: &str) -> (kind: CommandKind)
    ensures
        kind == kind_of(name@),
{
    if same_text(name, "scan") {
        CommandKind::Scan
    } else if same_text(name, "query") {
        CommandKind::Query
    } else if same_text(name, "config") {
        CommandKind::Config
    } else if same_text(name, "deploy") {
        CommandKind::Deploy
    } else {
        CommandKind::Unrecognized
    }
}

fn member_or_default(value: &serde_json::Value, key: &str) -> (r: String)
    ensures
        r@ == member_or_empty(value_members(*value), key@),
{
    match string_member(value, key) {
        Some(s) => s,
        None => String::new(),
    }
}

impl InboundEnvelope {
    /// The envelope without a name and with empty fields.
    pub fn empty() -> (e: InboundEnvelope)
        ensures
            e@ == envelope_of(None),
    {
        InboundEnvelope { name: None, data: String::new(), pwd: String::new() }
    }

    /// Reads the envelope out of a parsed message.
    pub fn from_value(value: &serde_json::Value) -> (e: InboundEnvelope)
        ensures
            e@ == envelope_of(Some(value_members(*value))),
    {
        InboundEnvelope {
            name: string_member(value, "name"),
            data: member_or_default(value, "data"),
            pwd: member_or_default(value, "pwd"),
        }
    }

    /// Reads the envelope out of a message text. A text that is not JSON
    /// gives the empty envelope.
    pub fn decode(text: &str) -> (e: InboundEnvelope)
        ensures
            e@ == envelope_of(document_members(text@)),
    {
        match parse_value(text) {
            Ok(value) => InboundEnvelope::from_value(&value),
            Err(_) => InboundEnvelope::empty(),
        }
    }

    /// The kind of command that the envelope names.
    pub fn kind(&self) -> (kind: CommandKind)
        ensures
            kind == envelope_kind(self@.name),
    {
        match &self.name {
            Some(name) => classify(name.as_str()),
            None => CommandKind::Unrecognized,
        }
    }
}

/// A scan of the subnet of `ip`, or nothing where `ip` is empty.
pub fn scan_command(ip: String, pwd: String) -> (c: Command)
    ensures
        c@ == scan_of(ip@, pwd@),
{
    if ip.as_str().is_empty() {
        Command::Nothing
    } else {
        Command::Scan { ip, pwd }
    }
}

/// A query of the host `ip`, or nothing where `ip` is empty.
pub fn query_command(ip: String) -> (c: Command)
    ensures
        c@ == query_of(ip@),
{
    if ip.as_str().is_empty() {
        Command::Nothing
    } else {
        Command::Query { ip }
    }
}

/// A reconfiguration, or nothing where `settings` is empty.
pub fn config_command(settings: String) -> (c: Command)
    ensures
        c@ == config_of(settings@),
{
    if settings.as_str().is_empty() {
        Command::Nothing
    } else {
        Command::Config { settings }
    }
}

/// A deployment to the subnet of `ip`, or nothing where `ip` is empty.
pub fn deploy_command(ip: String, pwd: String, version: String, address: String) -> (c: Command)
    ensures
        ip@.len() == 0 ==> c@ == CommandModel::Nothing,
        ip@.len() != 0 ==> c@ == (CommandModel::Deploy {
            ip: ip@,
            pwd: pwd@,
            version: version@,
            address: address@,
        }),
{
    if ip.as_str().is_empty() {
        Command::Nothing
    } else {
        Command::Deploy { ip, pwd, version, address }
    }
}

/// Reads a deployment out of its payload, a JSON text with the string
/// members `ip`, `version` and `address`. A payload that is not JSON reads as
/// one without members.
pub fn decode_deploy(payload: &str, pwd: String) -> (c: Command)
    ensures
        c@ == deploy_of(document_members(payload@), pwd@),
{
    match parse_value(payload) {
        Ok(value) => {
            let ip = member_or_default(&value, "ip");
            let version = member_or_default(&value, "version");
            let address = member_or_default(&value, "address");
            deploy_command(ip, pwd, version, address)
        },
        Err(_) => Command::Nothing,
    }
}

/// Turns an envelope into the command it stands for.
pub fn route(envelope: InboundEnvelope) -> (c: Command)
    ensures
        c@ == route_of(envelope@, document_members(envelope.data@)),
{
    let kind = envelope.kind();
    let InboundEnvelope { name: _, data, pwd } = envelope;
    match kind {
        CommandKind::Scan => scan_command(data, pwd),
        CommandKind::Query => query_command(data),
        CommandKind::Config => config_command(data),
        CommandKind::Deploy => {
            if data.as_str().is_empty() {
                Command::Nothing
            } else {
                decode_deploy(data.as_str(), pwd)
            }
        },
        CommandKind::Unrecognized => Command::Nothing,
    }
}

/// What the receive loop got from the channel.
#[derive(Debug)]
pub enum ChannelInput {
    /// A text message.
    Text(String),
    /// The peer closed the channel.
    Close,
    /// A message of another kind.
    Other,
    /// Reading failed.
    ReadError,
    /// The channel ended.
    End,
}

/// What the receive loop does next.
#[derive(Debug)]
pub enum ReceiveStep {
    /// Carry out the command, then report with [`after_command`].
    Execute(Command),
    /// Wait for the next message.
    Continue,
    /// Leave the loop; the supervisor reconnects.
    Stop,
}

/// The command that a message text stands for.
pub open spec fn command_of_text(text: Seq<char>) -> CommandModel {
    let envelope = envelope_of(document_members(text));
    route_of(envelope, document_members(envelope.data))
}

/// Whether `step` is the step for `command`: to carry it out, or to go on
/// where there is nothing to do.
pub open spec fn step_runs(step: ReceiveStep, command: CommandModel) -> bool {
    if command is Nothing {
        step is Continue
    } else {
        step matches ReceiveStep::Execute(c) && c@ == command
    }
}

/// The step that follows the decoding of a command.
pub fn step_for(command: Command) -> (step: ReceiveStep)
    ensures
        step_runs(step, command@),
{
    match command {
        Command::Nothing => ReceiveStep::Continue,
        other => ReceiveStep::Execute(other),
    }
}

/// Decides what the receive loop does with what it got. A text message is
/// decoded and routed; a close, a read error or the end of the channel stops
/// the loop; anything else is passed over.
pub fn on_input(input: ChannelInput) -> (step: ReceiveStep)
    ensures
        match input {
            ChannelInput::Text(text) => step_runs(step, command_of_text(text@)),
            ChannelInput::Other => step is Continue,
            ChannelInput::Close => step is Stop,
            ChannelInput::ReadError => step is Stop,
            ChannelInput::End => step is Stop,
        },
{
    match input {
        ChannelInput::Text(text) => step_for(route(InboundEnvelope::decode(text.as_str()))),
        ChannelInput::Other => ReceiveStep::Continue,
        ChannelInput::Close => ReceiveStep::Stop,
        ChannelInput::ReadError => ReceiveStep::Stop,
        ChannelInput::End => ReceiveStep::Stop,
    }
}

/// Decides what the receive loop does once a command was carried out: a
/// command that failed has lost the channel, so the loop stops.
pub fn after_command(succeeded: bool) -> (step: ReceiveStep)
    ensures
        succeeded ==> step is Continue,
        !succeeded ==> step is Stop,
{
    if succeeded {
        ReceiveStep::Continue
    } else {
        ReceiveStep::Stop
    }
}

/// A message whose `data` is missing, is not a string or is empty asks for
/// nothing, whatever its name and its other members are; so does a text that
/// is not JSON.
pub proof fn message_without_data_asks_nothing(
    members: Option<Map<Seq<char>, Seq<char>>>,
    payload: Option<Map<Seq<char>, Seq<char>>>,
)
    requires
        members matches Some(m) ==> member_or_empty(m, "data"@).len() == 0,
    ensures
        route_of(envelope_of(members), payload) is Nothing,
{
}

/// A message whose name is missing or is none of the four command names asks
/// for nothing.
pub proof fn message_without_command_asks_nothing(
    envelope: EnvelopeModel,
    payload: Option<Map<Seq<char>, Seq<char>>>,
)
    requires
        envelope_kind(envelope.name) is Unrecognized,
    ensures
        route_of(envelope, payload) is Nothing,
{
}

/// A deployment whose payload is not JSON, or names no host, asks for
/// nothing.
pub proof fn deployment_without_host_asks_nothing(
    payload: Option<Map<Seq<char>, Seq<char>>>,
    pwd: Seq<char>,
)
    requires
        payload matches Some(m) ==> member_or_empty(m, "ip"@).len() == 0,
    ensures
        deploy_of(payload, pwd) is Nothing,
{
}

/// Whatever arrives, the receive loop has a next step, and it carries out a
/// command only for a text message that asks for one.
pub proof fn only_commands_are_carried_out(text: Seq<char>, step: ReceiveStep)
    requires
        step_runs(step, command_of_text(text)),
    ensures
        step is Execute <==> !(command_of_text(text) is Nothing),
        !(step is Stop),
{
}

/// An outbound message of the control channel. `data` is a JSON text in its
/// own right; `progress`, where present, is a percentage.
#[derive(Debug)]
pub struct OutboundEnvelope {
    pub name: String,
    pub data: String,
    pub progress: Option<u8>,
}

/// The mathematical content of an [`OutboundEnvelope`].
pub ghost struct OutboundModel {
    pub name: Seq<char>,
    pub data: Seq<char>,
    pub progress: Option<u8>,
}

impl View for OutboundEnvelope {
    type V = OutboundModel;

    open spec fn view(&self) -> OutboundModel {
        OutboundModel { name: self.name@, data: self.data@, progress: self.progress }
    }
}

/// The members of the JSON object that carries an envelope: `name` and
/// `data` as strings, and `progress` as a number where there is one.
pub open spec fn outbound_members(envelope: OutboundModel) -> Map<Seq<char>, Seq<char>> {
    let always = Map::<Seq<char>, Seq<char>>::empty().insert(
        "name"@,
        string_literal(envelope.name),
    ).insert("data"@, string_literal(envelope.data));
    match envelope.progress {
        Some(p) => always.insert("progress"@, decimal_text(p as nat)),
        None => always,
    }
}

/// The text that carries an envelope over the channel.
pub open spec fn outbound_text(envelope: OutboundModel) -> Seq<char> {
    object_text(outbound_members(envelope))
}

impl OutboundEnvelope {
    /// The envelope for one window of a scan, with the percentage of the
    /// sweep that is covered.
    pub fn scan_result(data: String, progress: u8) -> (e: OutboundEnvelope)
        requires
            progress <= 100,
        ensures
            e@ == (OutboundModel { name: "scan_result"@, data: data@, progress: Some(progress) }),
    {
        OutboundEnvelope { name: String::from_str("scan_result"), data, progress: Some(progress) }
    }

    /// The envelope for the answer to a query.
    pub fn query_result(data: String) -> (e: OutboundEnvelope)
        ensures
            e@ == (OutboundModel { name: "query_result"@, data: data@, progress: None }),
    {
        OutboundEnvelope { name: String::from_str("query_result"), data, progress: None }
    }

    /// The envelope for the answer to a query of one host: its encoded
    /// record, or an empty object where the host gave none.
    pub fn query_answer(record: Option<String>) -> (e: OutboundEnvelope)
        ensures
            e@ == (OutboundModel {
                name: "query_result"@,
                data: match record {
                    Some(r) => r@,
                    None => "{}"@,
                },
                progress: None,
            }),
    {
        match record {
            Some(r) => OutboundEnvelope::query_result(r),
            None => OutboundEnvelope::query_result(String::from_str("{}")),
        }
    }

    /// The envelope for the answer to a reconfiguration.
    pub fn config_result(data: String) -> (e: OutboundEnvelope)
        ensures
            e@ == (OutboundModel { name: "config_result"@, data: data@, progress: None }),
    {
        OutboundEnvelope { name: String::from_str("config_result"), data, progress: None }
    }

    /// Writes the envelope as the JSON text that goes over the channel.
    pub fn encode(&self) -> (text: String)
        ensures
            text@ == outbound_text(self@),
    {
        let mut object = empty_object();
        set_member(&mut object, "name", text_value(self.name.as_str()));
        set_member(&mut object, "data", text_value(self.data.as_str()));
        match self.progress {
            Some(p) => {
                set_member(&mut object, "progress", number_value(p as u64));
            },
            None => {},
        }
        render_object(object)
    }
}

} // verus!
