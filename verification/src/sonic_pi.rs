//! The OSC datagrams that drive Sonic Pi. They are built and encoded here;
//! sending them is left to the caller.

use vstd::prelude::*;

verus! {

/// Where Sonic Pi listens for the messages that drive it.
pub const SONIC_PI_SERVER: &'static str = "127.0.0.1:4560";

/// Where the user interface of Sonic Pi listens.
pub const SONIC_PI_GUI: &'static str = "127.0.0.1:4559";

/// The error that `rosc` reports for a packet it cannot encode or decode.
#[verifier::external_type_specification]
#[verifier::external_body]
pub struct ExOscError(rosc::OscError);

/// The bytes that `rosc::encoder::encode` returns for the OSC message with
/// address `addr` whose arguments are the strings `args`, in that order.
pub uninterp spec fn osc_message_bytes(addr: Seq<char>, args: Seq<Seq<char>>) -> Seq<u8>;

/// Calls `rosc::encoder::encode` on the message with address `addr` and the
/// string arguments `args`. The encoder writes into a vector, which cannot
/// fail, so it always returns bytes; they depend on the message alone and are
/// `osc_message_bytes` of it.
#[verifier::external_body]
fn encode_message(addr: &str, args: &Vec<String>) -> (r: Result<Vec<u8>, rosc::OscError>)
    ensures
        r is Ok,
        r matches Ok(bytes) ==> bytes@ == osc_message_bytes(addr@, args.deep_view()),
{
    let args = args.iter().map(|arg| rosc::OscType::String(arg.clone())).collect();
    let message = rosc::OscMessage { addr: addr.to_string(), args };
    rosc::encoder::encode(&rosc::OscPacket::Message(message))
}

/// Renders an error of `rosc` as text, through its `Display` implementation.
/// Nothing is claimed of the text.
#[verifier::external_body]
fn error_text(error: &rosc::OscError) -> (text: String) {
    format!("{}", error)
}

/// The name under which this application speaks to Sonic Pi.
pub open spec fn client_id() -> Seq<char> {
    "SONICMIX"@
}

/// The datagram for the message with address `addr` and the string arguments
/// `args`, or what to tell the user where it cannot be encoded.
fn datagram(addr: &str, args: &Vec<String>) -> (r: Result<Vec<u8>, String>)
    ensures
        r is Ok,
        r->Ok_0@ == osc_message_bytes(addr@, args.deep_view()),
{
    match encode_message(addr, args) {
        Ok(bytes) => Ok(bytes),
        Err(error) => {
            let reason = error_text(&error);
            Err(String::from_str("Failed to encode OSC message: ").concat(reason.as_str()))
        },
    }
}

/// The datagram that has Sonic Pi run `code`: the message `/run-code` with
/// the client's name and the code.
pub fn run_code(code: &str) -> (r: Result<Vec<u8>, String>)
    ensures
        r is Ok,
        r->Ok_0@ == osc_message_bytes("/run-code"@, seq![client_id(), code@]),
{
    let mut args: Vec<String> = Vec::new();
    args.push(String::from_str("SONICMIX"));
    args.push(String::from_str(code));
    assert(args.deep_view() =~= seq![client_id(), code@]);
    datagram("/run-code", &args)
}

/// The datagram that has Sonic Pi stop all sounds: the message
/// `/stop-all-jobs` with the client's name.
pub fn stop() -> (r: Result<Vec<u8>, String>)
    ensures
        r is Ok,
        r->Ok_0@ == osc_message_bytes("/stop-all-jobs"@, seq![client_id()]),
{
    let mut args: Vec<String> = Vec::new();
    args.push(String::from_str("SONICMIX"));
    assert(args.deep_view() =~= seq![client_id()]);
    datagram("/stop-all-jobs", &args)
}

/// The datagram to probe Sonic Pi with: the message `/ping` with the client's
/// name. Sonic Pi counts as connected where this can be sent.
pub fn check_connection() -> (r: Result<Vec<u8>, String>)
    ensures
        r is Ok,
        r->Ok_0@ == osc_message_bytes("/ping"@, seq![client_id()]),
{
    let mut args: Vec<String> = Vec::new();
    args.push(String::from_str("SONICMIX"));
    assert(args.deep_view() =~= seq![client_id()]);
    datagram("/ping", &args)
}

} // verus!
