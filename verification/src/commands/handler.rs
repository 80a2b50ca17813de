//! Command routing and top-level request handling.

use crate::ffi::{ActionResult, ActionResultView};
use crate::text::{has_nul, lemma_terminated_is_c_string, to_c_string};
use vstd::prelude::*;
use vstd::string::StringSliceAdditionalSpecFns;
use vstd::utf8::{encode_utf8, is_ascii_chars, is_ascii_chars_encode_utf8};

verus! {

/// Errors returned by command processing.
#[derive(Debug)]
pub enum CommandError {
    /// The payload could not be parsed or contained invalid data.
    InvalidPayload,
}

/// The bytes of the text that answers a request.
pub open spec fn response_bytes() -> Seq<u8> {
    encode_utf8("Response placeholder."@)
}

/// The result record that answers the request `payload`.
///
/// Routing is not in place yet: every request gets the same text, and no chat
/// is named.
pub open spec fn telegram_reply(payload: Seq<char>) -> ActionResultView {
    ActionResultView::success(0, response_bytes())
}

/// The answer text, byte by byte. It holds no zero byte.
pub proof fn lemma_response_bytes()
    ensures
        response_bytes() == seq![
            82u8, 101, 115, 112, 111, 110, 115, 101, 32,
            112, 108, 97, 99, 101, 104, 111, 108, 100, 101, 114, 46,
        ],
        !has_nul(response_bytes()),
{
    reveal_strlit("Response placeholder.");
    let chars = "Response placeholder."@;
    assert(is_ascii_chars(chars));
    is_ascii_chars_encode_utf8(chars);
    assert(response_bytes() =~= seq![
        82u8, 101, 115, 112, 111, 110, 115, 101, 32,
        112, 108, 97, 99, 101, 104, 111, 108, 100, 101, 114, 46,
    ]);
}

/// Packs an answer for the host: status 200, the chat it belongs to, and the
/// text as an owned null-terminated string.
///
/// A text with a zero byte in it cannot be handed over in that form; it is
/// reported as an invalid payload, and no record is built.
pub fn respond(chat_id: i64, text: &str) -> (result: Result<ActionResult, CommandError>)
    ensures
        match result {
            Ok(record) => {
                &&& !has_nul(text.spec_bytes())
                &&& record@ == ActionResultView::success(chat_id as int, text.spec_bytes())
                &&& record@.wf()
            },
            Err(error) => has_nul(text.spec_bytes()) && error == CommandError::InvalidPayload,
        },
{
    proof {
        if !has_nul(text.spec_bytes()) {
            lemma_terminated_is_c_string(text.spec_bytes());
        }
    }
    match to_c_string(text.as_bytes()) {
        Some(response_text) => Ok(
            ActionResult { status_code: 200, chat_id, response_text: Some(response_text) },
        ),
        None => Err(CommandError::InvalidPayload),
    }
}

/// Parses and processes an incoming Telegram payload.
///
/// This function is the main entry point for command handling.
pub fn process_telegram_message(_payload: &str) -> (result: Result<ActionResult, CommandError>)
    ensures
        result matches Ok(record) && record@ == telegram_reply(_payload@),
{
    proof {
        lemma_response_bytes();
    }
    respond(0, "Response placeholder.")
}

} // verus!
