use vstd::prelude::*;
use vstd::string::StringExecFns;

use crate::status::StatusCode;
use crate::{BaseError, HttpError};

verus! {

/// A formatting facade: renders only the reason text of a
/// contract-implementing error, decoupled from the error's full diagnostic
/// message.  It wraps concrete errors, boxed errors and type-erased errors
/// alike, since an owning indirection satisfies the contract itself.
pub struct Reason<E>(pub E);

impl<E: HttpError> Reason<E> {
    /// Render the wrapped error's reason text.
    pub fn render(&self) -> (s: String)
        ensures
            s@ == self.0.reason_spec(),
    {
        let mut out = String::new();
        self.0.reason(&mut out);
        proof {
            assert(Seq::<char>::empty() + self.0.reason_spec() =~= self.0.reason_spec());
        }
        out
    }
}

/// An error whose reason is overridden: it renders its own phrase in place
/// of the canonical one, while its diagnostic message stays a separate text.
#[derive(Debug)]
pub struct CustomError {
    status: StatusCode,
    message: &'static str,
    reason: &'static str,
}

impl CustomError {
    /// The status code the error carries.
    pub closed spec fn spec_status(&self) -> StatusCode {
        self.status
    }

    /// The diagnostic message text.
    pub closed spec fn spec_message(&self) -> Seq<char> {
        self.message@
    }

    /// The overriding reason text.
    pub closed spec fn spec_reason(&self) -> Seq<char> {
        self.reason@
    }

    /// Build an error carrying `status` whose message and reason are the
    /// two given texts, chosen independently of each other and of the
    /// canonical phrase.
    pub fn new(status: StatusCode, message: &'static str, reason: &'static str) -> (r:
        CustomError)
        ensures
            r.spec_status() == status,
            r.spec_message() == message@,
            r.spec_reason() == reason@,
    {
        CustomError { status, message, reason }
    }
}

impl BaseError for CustomError {
    open spec fn message_spec(&self) -> Seq<char> {
        self.spec_message()
    }

    open spec fn source_spec(&self) -> Option<Seq<char>> {
        None
    }

    fn message(&self) -> (m: String) {
        self.message.to_owned()
    }

    fn source_message(&self) -> (r: Option<String>) {
        None
    }
}

impl HttpError for CustomError {
    open spec fn status_spec(&self) -> StatusCode {
        self.spec_status()
    }

    open spec fn reason_spec(&self) -> Seq<char> {
        self.spec_reason()
    }

    open spec fn headers_spec(&self) -> Option<Seq<(Seq<char>, Seq<char>)>> {
        None
    }

    open spec fn has_span_spec(&self) -> bool {
        false
    }

    fn status_code(&self) -> (s: StatusCode) {
        self.status
    }

    fn reason(&self, out: &mut String) {
        out.append(self.reason)
    }

    fn headers(&self) -> (h: Option<Vec<(String, String)>>) {
        None
    }

    fn span(&self) -> (s: Option<&tracing::Span>) {
        None
    }
}

/// An overridden reason is independent of the canonical table: for every
/// choice of status, message and reason text there is an error that carries
/// that status, keeps that message, and renders exactly that reason.
pub proof fn lemma_reason_override_independent(
    status: StatusCode,
    message: &'static str,
    reason: &'static str,
)
    ensures
        exists|e: CustomError|
            #![auto]
            e.status_spec() == status && e.message_spec() == message@ && e.reason_spec()
                == reason@,
{
    let e = CustomError { status, message, reason };
    assert(e.status_spec() == status && e.message_spec() == message@ && e.reason_spec()
        == reason@);
}

} // verus!
