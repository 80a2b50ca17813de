//! The boundary towards the host: the result record and the two entry points.
//!
//! A null pointer of the host is `None` here, and a string of the host is its
//! bytes. Whoever holds an [`ActionResult`] owns its answer text and gives it
//! up again through [`free_string`].

use crate::commands::handler::{
    lemma_response_bytes, process_telegram_message, response_bytes, telegram_reply,
};
use crate::text::{is_c_string, lemma_terminated_is_c_string, terminated};
use vstd::prelude::*;
use vstd::utf8::{decode_utf8, encode_utf8_decode_utf8, valid_utf8};

verus! {

/// Response payload returned to the host.
///
/// `response_text` is the answer as a null-terminated string, or `None` where
/// there is no answer. It is released with [`free_string`].
pub struct ActionResult {
    pub status_code: i32,
    pub chat_id: i64,
    pub response_text: Option<Vec<u8>>,
}

/// An [`ActionResult`] as plain mathematical values.
#[verifier::ext_equal]
pub struct ActionResultView {
    pub status_code: int,
    pub chat_id: int,
    pub response_text: Option<Seq<u8>>,
}

impl View for ActionResult {
    type V = ActionResultView;

    open spec fn view(&self) -> ActionResultView {
        ActionResultView {
            status_code: self.status_code as int,
            chat_id: self.chat_id as int,
            response_text: match self.response_text {
                Some(bytes) => Some(bytes@),
                None => None,
            },
        }
    }
}

impl ActionResultView {
    /// The one record that stands for every failure: status 500, no chat, no
    /// answer text.
    pub open spec fn error() -> ActionResultView {
        ActionResultView { status_code: 500, chat_id: 0, response_text: None }
    }

    /// The record of a request answered with `text` for the chat `chat_id`:
    /// status 200 and the text with its terminator.
    pub open spec fn success(chat_id: int, text: Seq<u8>) -> ActionResultView {
        ActionResultView {
            status_code: 200,
            chat_id,
            response_text: Some(terminated(text)),
        }
    }

    /// A record is either the failure record or a success that carries a
    /// well-formed null-terminated string; nothing in between.
    pub open spec fn wf(self) -> bool {
        ||| self == ActionResultView::error()
        ||| {
            &&& self.status_code == 200
            &&& self.response_text matches Some(bytes)
            &&& is_c_string(bytes)
        }
    }
}

impl ActionResult {
    /// The failure record.
    pub fn error() -> (result: ActionResult)
        ensures
            result@ == ActionResultView::error(),
            result@.wf(),
        no_unwind
    {
        ActionResult {
            status_code: 500,
            chat_id: 0,
            // No answer text.
            response_text: None,
        }
    }
}

/// The bytes of a request as the host passed them, `None` for a null pointer.
pub open spec fn request_bytes(payload: Option<&[u8]>) -> Option<Seq<u8>> {
    match payload {
        Some(bytes) => Some(bytes@),
        None => None,
    }
}

/// The record that answers a request.
///
/// A request that is missing or is not valid UTF-8 gets the failure record;
/// any other is decoded and gets the handler's reply.
pub open spec fn webhook_response(payload: Option<Seq<u8>>) -> ActionResultView {
    match payload {
        Some(bytes) => if valid_utf8(bytes) {
            telegram_reply(decode_utf8(bytes))
        } else {
            ActionResultView::error()
        },
        None => ActionResultView::error(),
    }
}

/// No request gets a half-filled record: the answer is the failure record or
/// a success with a well-formed null-terminated text.
pub proof fn lemma_webhook_response_wf(payload: Option<Seq<u8>>)
    ensures
        webhook_response(payload).wf(),
{
    lemma_response_bytes();
    lemma_terminated_is_c_string(response_bytes());
}

/// Two records that answer the same request agree in status and chat, and
/// their answer texts hold the same bytes.
pub proof fn lemma_same_request_same_response(
    payload: Option<Seq<u8>>,
    first: ActionResult,
    second: ActionResult,
)
    requires
        first@ == webhook_response(payload),
        second@ == webhook_response(payload),
    ensures
        first.status_code == second.status_code,
        first.chat_id == second.chat_id,
        first.response_text is Some <==> second.response_text is Some,
        first.response_text matches Some(bytes) ==> second.response_text->0@ == bytes@,
{
}

/// Processes a webhook payload from Telegram.
///
/// `payload` holds the bytes of the request up to its terminator, or `None`
/// where the host passed a null pointer.
pub fn process_webhook(payload: Option<&[u8]>) -> (result: ActionResult)
    ensures
        result@ == webhook_response(request_bytes(payload)),
        result@.wf(),
        payload is None ==> result@ == ActionResultView::error(),
        payload matches Some(bytes) && !valid_utf8(bytes@) ==> result@ == ActionResultView::error(),
        payload matches Some(bytes) && valid_utf8(bytes@) ==> {
            &&& result@ == ActionResultView::success(0, response_bytes())
            &&& result.status_code == 200
            &&& result.chat_id == 0
            &&& result.response_text is Some
        },
{
    proof {
        lemma_webhook_response_wf(request_bytes(payload));
    }
    let bytes = match payload {
        Some(bytes) => bytes,
        None => {
            return ActionResult::error();
        },
    };

    let payload_str = match core::str::from_utf8(bytes) {
        Ok(s) => s,
        Err(_) => {
            return ActionResult::error();
        },
    };
    assert(payload_str@ == decode_utf8(bytes@)) by {
        encode_utf8_decode_utf8(payload_str@);
    }

    match process_telegram_message(payload_str) {
        Ok(result) => result,
        Err(_) => ActionResult::error(),
    }
}

/// Releases an answer text that [`process_webhook`] handed out.
///
/// Afterwards the slot holds nothing, so the text cannot be read or released
/// again. Releasing an empty slot does nothing.
pub fn free_string(s: &mut Option<Vec<u8>>)
    ensures
        *final(s) is None,
    no_unwind
{
    *s = None;
}

} // verus!
