//! Classification of responses by their `{code, msg, data}` envelope.
//!
//! The transport hands over the HTTP status and the raw body; the envelope's
//! head, when the body decodes as one, comes alongside. This module decides
//! whether the response is a success or which error it is.
use vstd::prelude::*;

use crate::error::{is_api_error, Error};

verus! {

/// The decoded head of an envelope: its code, its message, and whether it
/// carried a `data` payload.
#[derive(Debug, Clone)]
pub struct EnvelopeHead {
    pub code: i32,
    pub msg: String,
    pub has_data: bool,
}

/// What `str::trim` leaves of a string.
pub uninterp spec fn trim_of(s: Seq<char>) -> Seq<char>;

/// Relies on `str::trim`: the string without leading and trailing white
/// space, which depends on the string alone.
#[verifier::external_body]
pub(crate) fn trim_text(s: &str) -> (r: String)
    ensures
        r@ == trim_of(s@),
{
    s.trim().to_string()
}

/// An HTTP status in the 2xx range.
pub open spec fn is_success(status: u16) -> bool {
    200 <= status < 300
}

/// The head is present and reports a failure.
pub open spec fn reports_failure(head: Option<EnvelopeHead>) -> bool {
    head is Some && head->Some_0.code != 0
}

/// Classifies a response. A non-2xx status takes the envelope's code and
/// message when it decoded and reports a failure, and otherwise the status
/// with the trimmed body. A 2xx status needs a decoded envelope; a non-zero
/// code is a server error; a zero code without data is an empty response
/// when a payload was expected.
pub fn check_response(status: u16, head: Option<EnvelopeHead>, body: &str, expects_payload: bool) -> (r:
    Result<(), Error>)
    ensures
        reports_failure(head) ==> is_api_error(r, head->Some_0.code as int, head->Some_0.msg@),
        !is_success(status) && !reports_failure(head) ==> is_api_error(
            r,
            status as int,
            trim_of(body@),
        ),
        is_success(status) && head is None ==> r matches Err(Error::Json(_)),
        is_success(status) && head is Some && !reports_failure(head) ==> (r is Ok <==> (
        head->Some_0.has_data || !expects_payload)),
        is_success(status) && head is Some && !reports_failure(head) && r is Err ==> r matches Err(
            Error::InvalidResponse(_),
        ),
{
    match head {
        Some(h) => {
            if h.code != 0 {
                return Err(Error::Api { code: h.code, message: h.msg });
            }
            if !(200 <= status && status < 300) {
                return Err(Error::Api { code: status as i32, message: trim_text(body) });
            }
            if !h.has_data && expects_payload {
                return Err(Error::InvalidResponse(String::from_str("Empty response")));
            }
            Ok(())
        },
        None => {
            if !(200 <= status && status < 300) {
                Err(Error::Api { code: status as i32, message: trim_text(body) })
            } else {
                Err(Error::Json(String::from_str("response is not a valid envelope")))
            }
        },
    }
}

} // verus!
