//! The remote-shell transport, as far as it is computed: the command lines
//! that reach a host, and what their exit and output mean.

use vstd::prelude::*;
use vstd::string::*;
use vstd::utf8::*;
use crate::error::AgentError;
use crate::text::{decimal, decimal_text};

verus! {

/// The program that every remote operation starts: it bounds the run time of
/// the command line that follows.
pub open spec fn program_of() -> Seq<char> {
    "timeout"@
}

/// The arguments that run `command` in the shell of `user` on the host `ip`.
pub open spec fn ssh_arguments_of(
    ip: Seq<char>,
    port: u16,
    user: Seq<char>,
    password: Seq<char>,
    command: Seq<char>,
    timeout_seconds: u64,
) -> Seq<Seq<char>> {
    seq![
        decimal_text(timeout_seconds as nat),
        "sshpass"@,
        "-p"@,
        password,
        "ssh"@,
        "-o"@,
        "StrictHostKeyChecking=no"@,
        "-p"@,
        decimal_text(port as nat),
        user + "@"@ + ip,
        command,
    ]
}

/// The arguments that copy `local_file` to `remote_file` on the host `ip`.
pub open spec fn scp_arguments_of(
    ip: Seq<char>,
    port: u16,
    user: Seq<char>,
    password: Seq<char>,
    local_file: Seq<char>,
    remote_file: Seq<char>,
    timeout_seconds: u64,
) -> Seq<Seq<char>> {
    seq![
        decimal_text(timeout_seconds as nat),
        "sshpass"@,
        "-p"@,
        password,
        "scp"@,
        "-P"@,
        decimal_text(port as nat),
        "-o"@,
        "StrictHostKeyChecking=no"@,
        local_file,
        user + "@"@ + ip + ":"@ + remote_file,
    ]
}

/// The texts of a list of strings.
pub open spec fn texts(list: Seq<String>) -> Seq<Seq<char>> {
    list.map_values(|s: String| s@)
}

/// The program that every remote operation starts.
pub fn program() -> (name: &'static str)
    ensures
        name@ == program_of(),
{
    "timeout"
}

fn login(user: &str, ip: &str) -> (r: String)
    ensures
        r@ == user@ + "@"@ + ip@,
{
    let mut r = String::from_str(user);
    r.append("@");
    r.append(ip);
    r
}

/// Builds the arguments that run `command` on the host `ip`.
pub fn ssh_arguments(
    ip: &str,
    port: u16,
    user: &str,
    password: &str,
    command: &str,
    timeout_seconds: u64,
) -> (arguments: Vec<String>)
    ensures
        texts(arguments@) == ssh_arguments_of(
            ip@,
            port,
            user@,
            password@,
            command@,
            timeout_seconds,
        ),
{
    let mut arguments: Vec<String> = Vec::new();
    arguments.push(decimal(timeout_seconds));
    arguments.push(String::from_str("sshpass"));
    arguments.push(String::from_str("-p"));
    arguments.push(String::from_str(password));
    arguments.push(String::from_str("ssh"));
    arguments.push(String::from_str("-o"));
    arguments.push(String::from_str("StrictHostKeyChecking=no"));
    arguments.push(String::from_str("-p"));
    arguments.push(decimal(port as u64));
    arguments.push(login(user, ip));
    arguments.push(String::from_str(command));
    assert(texts(arguments@) =~= ssh_arguments_of(
        ip@,
        port,
        user@,
        password@,
        command@,
        timeout_seconds,
    ));
    arguments
}

/// Builds the arguments that copy `local_file` to `remote_file` on the host
/// `ip`.
pub fn scp_arguments(
    ip: &str,
    port: u16,
    user: &str,
    password: &str,
    local_file: &str,
    remote_file: &str,
    timeout_seconds: u64,
) -> (arguments: Vec<String>)
    ensures
        texts(arguments@) == scp_arguments_of(
            ip@,
            port,
            user@,
            password@,
            local_file@,
            remote_file@,
            timeout_seconds,
        ),
{
    let mut target = login(user, ip);
    target.append(":");
    target.append(remote_file);
    let mut arguments: Vec<String> = Vec::new();
    arguments.push(decimal(timeout_seconds));
    arguments.push(String::from_str("sshpass"));
    arguments.push(String::from_str("-p"));
    arguments.push(String::from_str(password));
    arguments.push(String::from_str("scp"));
    arguments.push(String::from_str("-P"));
    arguments.push(decimal(port as u64));
    arguments.push(String::from_str("-o"));
    arguments.push(String::from_str("StrictHostKeyChecking=no"));
    arguments.push(String::from_str(local_file));
    arguments.push(target);
    assert(texts(arguments@) =~= scp_arguments_of(
        ip@,
        port,
        user@,
        password@,
        local_file@,
        remote_file@,
        timeout_seconds,
    ));
    arguments
}

/// Calls `std::str::from_utf8`, which accepts exactly the byte strings that
/// are UTF-8 and hands back the same bytes as a string.
#[verifier::external_body]
fn utf8_text<'a>(bytes: &'a [u8]) -> (r: Result<&'a str, std::str::Utf8Error>)
    ensures
        r is Ok <==> valid_utf8(bytes@),
        r matches Ok(s) ==> s.spec_bytes() == bytes@,
{
    std::str::from_utf8(bytes)
}

/// Reads the output of a remote command as text.
fn output_text(bytes: &[u8]) -> (r: Result<String, AgentError>)
    ensures
        valid_utf8(bytes@) ==> (r matches Ok(s) && s@ == decode_utf8(bytes@)),
        !valid_utf8(bytes@) ==> r matches Err(AgentError::Utf8Error(_)),
{
    match utf8_text(bytes) {
        Ok(s) => {
            proof {
                encode_utf8_decode_utf8(s@);
            }
            Ok(s.to_owned())
        },
        Err(e) => Err(AgentError::Utf8Error(e)),
    }
}

/// What a finished remote command amounts to. Where it exited with success
/// the result is what it wrote to its output; else the error holds what it
/// wrote to its error stream. Output that is not UTF-8 is an error of its
/// own.
pub fn command_outcome(success: bool, stdout: &[u8], stderr: &[u8]) -> (r: Result<
    String,
    AgentError,
>)
    ensures
        success && valid_utf8(stdout@) ==> (r matches Ok(s) && s@ == decode_utf8(stdout@)),
        success && !valid_utf8(stdout@) ==> r matches Err(AgentError::Utf8Error(_)),
        !success && valid_utf8(stderr@) ==> (r matches Err(AgentError::CommandError(m)) && m@
            == decode_utf8(stderr@)),
        !success && !valid_utf8(stderr@) ==> r matches Err(AgentError::Utf8Error(_)),
{
    if success {
        output_text(stdout)
    } else {
        match output_text(stderr) {
            Ok(message) => Err(AgentError::CommandError(message)),
            Err(e) => Err(e),
        }
    }
}

/// What a finished file transfer amounts to: success, or the error that
/// holds what the transfer wrote to its error stream.
pub fn transfer_outcome(success: bool, stderr: &[u8]) -> (r: Result<(), AgentError>)
    ensures
        success ==> r is Ok,
        !success && valid_utf8(stderr@) ==> (r matches Err(AgentError::CommandError(m)) && m@
            == decode_utf8(stderr@)),
        !success && !valid_utf8(stderr@) ==> r matches Err(AgentError::Utf8Error(_)),
{
    if success {
        Ok(())
    } else {
        match output_text(stderr) {
            Ok(message) => Err(AgentError::CommandError(message)),
            Err(e) => Err(e),
        }
    }
}

} // verus!
