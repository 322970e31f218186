//! The remote watchdog's protocol logic: the authentication frame and the
//! handling of server frames.
//!
//! The WebSocket transport runs outside the library; it sends the frame
//! [`auth_frame`] builds, hands every incoming text frame to
//! [`handle_frame`], and performs the [`FrameAction`] that comes back.

use crate::api_comms::ConnectionRequest;
use crate::config::Config;
use vstd::prelude::*;
use vstd::string::StringExecFns;

verus! {

/// The first frame sent on the WebSocket:
/// `"<connection_token>:<client_name>"`.
pub fn auth_frame(connection: &ConnectionRequest, cfg: &Config) -> (r: String)
    ensures
        r@ == connection.connection_token@ + ":"@ + cfg.client_name@,
{
    String::from_str(connection.connection_token.as_str()).concat(":").concat(
        cfg.get_client_name(),
    )
}

/// What the JSON parser finds in a text: `None` when the text is not
/// JSON; otherwise the named field of the parsed value, which is `None`
/// when that field is missing or not a string.
pub uninterp spec fn json_string_field(s: Seq<char>, field: Seq<char>) -> Option<
    Option<Seq<char>>,
>;

/// What the parser finds in an incoming frame: `None` when the text is
/// not JSON; otherwise the frame's `opcode` field, which is `None` when
/// the field is missing or not a string.
pub open spec fn json_frame_opcode(s: Seq<char>) -> Option<Option<Seq<char>>> {
    json_string_field(s, "opcode"@)
}

/// Relies on `serde_json::from_str::<Value>`, `Value::get` and
/// `Value::as_str`: whether a text parses as JSON, and what its fields
/// hold, depend on the characters alone.  Returns `None` for non-JSON
/// text, `Some(None)` for JSON without a string field of the given name,
/// and `Some(Some(value))` otherwise.
#[verifier::external_body]
fn parse_json_string_field(text: &str, field: &str) -> (r: Option<Option<String>>)
    ensures
        r.deep_view() == json_string_field(text@, field@),
{
    match serde_json::from_str::<serde_json::Value>(text) {
        Ok(v) => Some(v.get(field).and_then(serde_json::Value::as_str).map(str::to_string)),
        Err(_) => None,
    }
}

/// What the remote watchdog does with one incoming frame.  `Close` ends
/// the session (with close code `Error` and the given reason); `Reply`
/// sends the given text and keeps the session open; `NoReply` keeps the
/// session open silently.
#[derive(Debug)]
pub enum FrameAction {
    Close { reason: String },
    Reply { message: String },
    NoReply,
}

/// Whether a parsed frame carries the `ABORT` opcode.
pub open spec fn spec_is_abort_frame(parsed: Option<Option<Seq<char>>>) -> bool {
    match parsed {
        Some(Some(op)) => op == "ABORT"@,
        _ => false,
    }
}

fn str_eq(a: &str, b: &str) -> (r: bool)
    ensures
        r == (a@ == b@),
{
    let sa = String::from_str(a);
    let sb = String::from_str(b);
    sa == sb
}

/// The reply table of the opcode dispatcher: `ABORT` is a no-op at this
/// layer and draws no reply; every other opcode draws `"invalid opcode"`.
pub fn opcode_reply(opcode: &str) -> (r: Option<String>)
    ensures
        opcode@ == "ABORT"@ ==> r is None,
        opcode@ != "ABORT"@ ==> (r matches Some(m) && m@ == "invalid opcode"@),
{
    if str_eq(opcode, "ABORT") {
        None
    } else {
        Some(String::from_str("invalid opcode"))
    }
}

/// Decides the action for one incoming text frame, given the parse result
/// the JSON parser handed back for it: the literal `"invalid token"`
/// closes the session with reason `"authentication error"`; non-JSON text
/// draws the reply `"invalid json"`; a frame whose opcode is missing, not
/// a string, or any value other than `ABORT` draws `"invalid opcode"`;
/// `ABORT` draws no reply.  Only the `"invalid token"` frame ends the
/// session.
pub fn frame_action_for(text: &str, parsed: Option<Option<String>>) -> (r: FrameAction)
    ensures
        text@ == "invalid token"@ ==> (r matches FrameAction::Close { reason } && reason@
            == "authentication error"@),
        text@ != "invalid token"@ && parsed is None ==> (r matches FrameAction::Reply { message }
            && message@ == "invalid json"@),
        text@ != "invalid token"@ && parsed is Some && spec_is_abort_frame(parsed.deep_view())
            ==> r is NoReply,
        text@ != "invalid token"@ && parsed is Some && !spec_is_abort_frame(parsed.deep_view())
            ==> (r matches FrameAction::Reply { message } && message@ == "invalid opcode"@),
{
    if str_eq(text, "invalid token") {
        FrameAction::Close { reason: String::from_str("authentication error") }
    } else {
        let ghost pd = parsed.deep_view();
        match parsed {
            None => FrameAction::Reply { message: String::from_str("invalid json") },
            Some(op) => {
                let ghost opd = op.deep_view();
                match op {
                    Some(o) => {
                        proof {
                            assert(pd == Some(opd));
                            assert(spec_is_abort_frame(pd) <==> o@ == "ABORT"@);
                        }
                        match opcode_reply(o.as_str()) {
                            None => FrameAction::NoReply,
                            Some(m) => FrameAction::Reply { message: m },
                        }
                    },
                    None => {
                        let opcode = String::from_str("INVALID");
                        proof {
                            reveal_strlit("INVALID");
                            reveal_strlit("ABORT");
                            assert("INVALID"@.len() == 7);
                            assert("ABORT"@.len() == 5);
                            assert(pd == Some(opd));
                            assert(!spec_is_abort_frame(pd));
                        }
                        match opcode_reply(opcode.as_str()) {
                            None => FrameAction::NoReply,
                            Some(m) => FrameAction::Reply { message: m },
                        }
                    },
                }
            },
        }
    }
}

/// Handles one incoming text frame: parses it and decides the action, as
/// [`frame_action_for`] does.
pub fn handle_frame(text: &str) -> (r: FrameAction)
    ensures
        text@ == "invalid token"@ ==> (r matches FrameAction::Close { reason } && reason@
            == "authentication error"@),
        text@ != "invalid token"@ && json_frame_opcode(text@) is None ==> (r matches
        FrameAction::Reply { message } && message@ == "invalid json"@),
        text@ != "invalid token"@ && json_frame_opcode(text@) is Some && spec_is_abort_frame(
            json_frame_opcode(text@),
        ) ==> r is NoReply,
        text@ != "invalid token"@ && json_frame_opcode(text@) is Some && !spec_is_abort_frame(
            json_frame_opcode(text@),
        ) ==> (r matches FrameAction::Reply { message } && message@ == "invalid opcode"@),
{
    let parsed = parse_json_string_field(text, "opcode");
    frame_action_for(text, parsed)
}

} // verus!
