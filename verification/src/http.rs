//! HTTP status codes as the torrent clients' protocols read them.

use vstd::prelude::*;
use vstd::string::*;
use crate::engine::opt_view;
use crate::text::{decimal, u64_to_decimal};

verus! {

/// What `http::StatusCode::canonical_reason` returns for a status code, as
/// characters (`None` for codes without a registered reason phrase).
pub uninterp spec fn canonical_reason(code: u16) -> Option<Seq<char>>;

/// `http::StatusCode::from_u16(code)` then `canonical_reason`: the reason
/// phrase of a code in 100..=999, named `canonical_reason`.
#[verifier::external_body]
fn reason_phrase(code: u16) -> (res: Option<String>)
    requires
        100 <= code <= 999,
    ensures
        opt_view(res) == canonical_reason(code),
{
    reqwest::StatusCode::from_u16(code).ok().and_then(|s| s.canonical_reason()).map(String::from)
}

/// An HTTP status code, always within 100..=999.
#[derive(Debug, Clone, Copy, PartialEq, Eq, Structural)]
pub struct HttpStatus {
    code: u16,
}

impl View for HttpStatus {
    type V = u16;

    closed spec fn view(&self) -> u16 {
        self.code
    }
}

/// A status code within 100..=999 is representable.
pub open spec fn valid_status(code: u16) -> bool {
    100 <= code <= 999
}

/// `StatusCode`'s `Display`: the code, a space, and the reason phrase or
/// `<unknown status code>`.
pub open spec fn status_text(code: u16) -> Seq<char> {
    decimal(code as nat) + " "@ + match canonical_reason(code) {
        Some(r) => r,
        None => "<unknown status code>"@,
    }
}

/// The status is in the 2xx range.
pub open spec fn is_success(code: u16) -> bool {
    200 <= code <= 299
}

impl HttpStatus {
    #[verifier::type_invariant]
    spec fn inv(self) -> bool {
        valid_status(self.code)
    }

    /// The status for `code`, when it lies in 100..=999.
    pub fn from_code(code: u16) -> (res: Option<HttpStatus>)
        ensures
            res is Some <==> valid_status(code),
            res matches Some(s) ==> s@ == code,
    {
        if 100 <= code && code <= 999 {
            Some(HttpStatus { code })
        } else {
            None
        }
    }

    /// The numeric code.
    pub fn code(&self) -> (res: u16)
        ensures
            res == self@,
            valid_status(res),
    {
        proof {
            use_type_invariant(self);
        }
        self.code
    }

    /// Whether the status is in the 2xx range.
    pub fn is_success(&self) -> (res: bool)
        ensures
            res == is_success(self@),
    {
        200 <= self.code && self.code <= 299
    }

    /// The status as `StatusCode` displays it, e.g. `409 Conflict`.
    pub fn text(&self) -> (res: String)
        ensures
            res@ == status_text(self@),
    {
        let code = self.code();
        let mut s = u64_to_decimal(code as u64);
        s.append(" ");
        match reason_phrase(code) {
            Some(r) => s.append(r.as_str()),
            None => s.append("<unknown status code>"),
        }
        s
    }
}

} // verus!
