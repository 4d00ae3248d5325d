//! Classifies application errors under HTTP status codes.  One contract —
//! status code, reason text, optional headers, optional tracing span —
//! unifies disparate error types; around it stand a type-erased owned box
//! for call sites that cannot name a concrete type, a display adapter that
//! renders only the reason, and adapters that tag missing values and
//! existing errors with a fixed status.  Every operation carries a contract
//! the verifier checks.

use vstd::prelude::*;

pub mod any_http_error;
pub mod error;
pub mod option_ext;
pub mod reason;
pub mod result_ext;
pub mod status;

pub use any_http_error::AnyHttpError;
pub use option_ext::OptionExt;
pub use reason::Reason;
pub use result_ext::ResultExt;
pub use status::StatusCode;

verus! {

use crate::status::default_reason_spec;

/// Declares `tracing::Span` so that contract-implementing errors can carry a
/// handle to the observability context that was active when they were built.
/// The handle is opaque: nothing is assumed of its value.
#[verifier::external_type_specification]
#[verifier::external_body]
pub struct ExSpan(tracing::Span);

/// Relies on `tracing::Span::current`: the handle to the span the calling
/// thread is in.  Which span that is depends on the thread's state, so
/// nothing is assumed of the result.
pub assume_specification[ tracing::Span::current ]() -> tracing::Span;

/// Relies on `tracing::Span`'s `Clone`: a second handle to the same span.
/// The handle is opaque, so nothing is assumed of the result.
pub assume_specification[ <tracing::Span as Clone>::clone ](s: &tracing::Span) -> tracing::Span;

/// The generic error capability: a renderable diagnostic message and an
/// optional causal predecessor, exposed through its own rendered message.
pub trait BaseError: Sized {
    /// The diagnostic message the error renders for itself.
    spec fn message_spec(&self) -> Seq<char>;

    /// The rendered message of the causal predecessor, if the error has one.
    spec fn source_spec(&self) -> Option<Seq<char>>;

    /// Render the diagnostic message.
    fn message(&self) -> (m: String)
        ensures
            m@ == self.message_spec(),
    ;

    /// Look up the causal predecessor, rendered as its message.
    fn source_message(&self) -> (r: Option<String>)
        ensures
            r is Some <==> self.source_spec() is Some,
            r matches Some(m) ==> self.source_spec() == Some(m@),
    ;
}

/// The views of a list of header pairs.
pub open spec fn header_views(v: Seq<(String, String)>) -> Seq<(Seq<char>, Seq<char>)> {
    v.map_values(|p: (String, String)| (p.0@, p.1@))
}

/// The status-classified error contract: the uniform surface a boundary
/// layer needs to turn an arbitrary error into an HTTP response.  Every
/// operation is read-only introspection over the already-built error and is
/// pinned to a spec function of the value, so repeated calls agree.
pub trait HttpError: BaseError {
    /// The status code the error is classified under.
    spec fn status_spec(&self) -> StatusCode;

    /// The text `reason` renders.  An implementation that does not override
    /// it leaves the default: the canonical phrase of the status code.
    spec fn reason_spec(&self) -> Seq<char>;

    /// The response headers the error asks to attach, if any.
    spec fn headers_spec(&self) -> Option<Seq<(Seq<char>, Seq<char>)>>;

    /// Whether a tracing span was captured when the error was built.
    spec fn has_span_spec(&self) -> bool;

    /// The status code to respond with.
    fn status_code(&self) -> (s: StatusCode)
        ensures
            s == self.status_spec(),
    ;

    /// Append the reason text to `out`: a short phrase saying why, fit for a
    /// response, rather than the full diagnostic message.
    fn reason(&self, out: &mut String)
        ensures
            final(out)@ == old(out)@ + self.reason_spec(),
    ;

    /// The headers to attach to the response, if any.
    fn headers(&self) -> (h: Option<Vec<(String, String)>>)
        ensures
            h is Some <==> self.headers_spec() is Some,
            h matches Some(v) ==> self.headers_spec() == Some(header_views(v@)),
    ;

    /// The observability context captured at construction time, if any.
    fn span(&self) -> (s: Option<&tracing::Span>)
        ensures
            s is Some <==> self.has_span_spec(),
    ;
}

/// An owning indirection over a contract-implementing error satisfies the
/// contract itself: every operation forwards to the owned value.
impl<E: BaseError> BaseError for Box<E> {
    open spec fn message_spec(&self) -> Seq<char> {
        (**self).message_spec()
    }

    open spec fn source_spec(&self) -> Option<Seq<char>> {
        (**self).source_spec()
    }

    fn message(&self) -> (m: String) {
        (**self).message()
    }

    fn source_message(&self) -> (r: Option<String>) {
        (**self).source_message()
    }
}

impl<E: HttpError> HttpError for Box<E> {
    open spec fn status_spec(&self) -> StatusCode {
        (**self).status_spec()
    }

    open spec fn reason_spec(&self) -> Seq<char> {
        (**self).reason_spec()
    }

    open spec fn headers_spec(&self) -> Option<Seq<(Seq<char>, Seq<char>)>> {
        (**self).headers_spec()
    }

    open spec fn has_span_spec(&self) -> bool {
        (**self).has_span_spec()
    }

    fn status_code(&self) -> (s: StatusCode) {
        (**self).status_code()
    }

    fn reason(&self, out: &mut String) {
        (**self).reason(out)
    }

    fn headers(&self) -> (h: Option<Vec<(String, String)>>) {
        (**self).headers()
    }

    fn span(&self) -> (s: Option<&tracing::Span>) {
        (**self).span()
    }
}

/// Status classification is pure: the contract pins every result of
/// `status_code` to `status_spec`, so any two results are the same value.
pub proof fn lemma_status_code_pure<E: HttpError>(e: &E, s1: StatusCode, s2: StatusCode)
    requires
        s1 == e.status_spec(),
        s2 == e.status_spec(),
    ensures
        s1 == s2,
{
}

/// Delegation through an owning indirection: every observation of a boxed
/// error equals the corresponding observation of the value it owns.
pub proof fn lemma_box_delegation<E: HttpError>(b: &Box<E>)
    ensures
        b.status_spec() == (**b).status_spec(),
        b.reason_spec() == (**b).reason_spec(),
        b.headers_spec() == (**b).headers_spec(),
        b.has_span_spec() == (**b).has_span_spec(),
        b.message_spec() == (**b).message_spec(),
        b.source_spec() == (**b).source_spec(),
{
}

/// An error whose reason is not overridden renders the canonical phrase of
/// its status code whenever one is registered.
pub proof fn lemma_default_reason_canonical<E: HttpError>(e: &E)
    requires
        e.reason_spec() == default_reason_spec(e.status_spec()),
        crate::status::canonical_reason_spec(e.status_spec().spec_code()) is Some,
    ensures
        Some(e.reason_spec()) == crate::status::canonical_reason_spec(e.status_spec().spec_code()),
{
}

} // verus!
