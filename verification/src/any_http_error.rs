use vstd::prelude::*;
use vstd::string::StringExecFns;

use crate::status::StatusCode;
use crate::{header_views, BaseError, HttpError};

verus! {

/// The record of every observation the contract can make of one error
/// value: its status code, rendered message, rendered reason, headers, the
/// rendered message of its causal predecessor, and the captured span, if
/// one was there.
///
/// Trait objects are outside what the verifier handles, so the type-erased
/// box erases by capture: building it records the full observable surface
/// of the concrete error, and the record then satisfies the contract with
/// exactly those observations.
#[derive(Debug)]
pub struct ErasedError {
    status: StatusCode,
    message: String,
    reason: String,
    headers: Option<Vec<(String, String)>>,
    source: Option<String>,
    span: Option<tracing::Span>,
}

/// `a` records exactly the observations of `e`.
pub open spec fn erases<E: HttpError>(a: ErasedError, e: E) -> bool {
    &&& a.spec_status() == e.status_spec()
    &&& a.spec_message() == e.message_spec()
    &&& a.spec_reason() == e.reason_spec()
    &&& a.spec_headers() == e.headers_spec()
    &&& a.spec_source() == e.source_spec()
    &&& a.spec_has_span() == e.has_span_spec()
}

/// Clone the span handle out of a borrowed optional span.
fn clone_span_opt(s: Option<&tracing::Span>) -> (r: Option<tracing::Span>)
    ensures
        r is Some <==> s is Some,
{
    match s {
        Some(span) => Some(span.clone()),
        None => None,
    }
}

/// Clone an optional string, keeping its content.
fn clone_opt_string(o: &Option<String>) -> (r: Option<String>)
    ensures
        r == *o,
{
    match o {
        Some(s) => Some(s.clone()),
        None => None,
    }
}

/// Clone a list of header pairs, keeping its content.
fn clone_headers(h: &Option<Vec<(String, String)>>) -> (r: Option<Vec<(String, String)>>)
    ensures
        r is Some <==> h is Some,
        r matches Some(v) ==> (*h matches Some(w) && v@ == w@),
{
    match h {
        Some(w) => {
            let mut v: Vec<(String, String)> = Vec::new();
            let mut i: usize = 0;
            while i < w.len()
                invariant
                    i <= w.len(),
                    v@.len() == i,
                    forall|j: int| 0 <= j < i ==> v@[j] == w@[j],
                decreases w.len() - i,
            {
                let name = w[i].0.clone();
                let value = w[i].1.clone();
                v.push((name, value));
                i = i + 1;
            }
            proof {
                assert(v@ =~= w@);
            }
            Some(v)
        }
        None => None,
    }
}

impl ErasedError {
    /// The recorded status code.
    pub closed spec fn spec_status(&self) -> StatusCode {
        self.status
    }

    /// The recorded diagnostic message.
    pub closed spec fn spec_message(&self) -> Seq<char> {
        self.message@
    }

    /// The recorded reason text.
    pub closed spec fn spec_reason(&self) -> Seq<char> {
        self.reason@
    }

    /// The recorded headers.
    pub closed spec fn spec_headers(&self) -> Option<Seq<(Seq<char>, Seq<char>)>> {
        match self.headers {
            Some(v) => Some(header_views(v@)),
            None => None,
        }
    }

    /// The recorded message of the causal predecessor.
    pub closed spec fn spec_source(&self) -> Option<Seq<char>> {
        match self.source {
            Some(s) => Some(s@),
            None => None,
        }
    }

    /// Whether a span was recorded.
    pub closed spec fn spec_has_span(&self) -> bool {
        self.span is Some
    }

    /// Record every contract observation of `e`.  Ownership of `e` ends
    /// here; the record stands for it from now on.
    pub fn capture<E: HttpError>(e: E) -> (r: ErasedError)
        ensures
            erases(r, e),
    {
        let status = e.status_code();
        let message = e.message();
        let mut reason = String::new();
        e.reason(&mut reason);
        proof {
            assert(Seq::<char>::empty() + e.reason_spec() =~= e.reason_spec());
        }
        let headers = e.headers();
        let source = e.source_message();
        let span = clone_span_opt(e.span());
        ErasedError { status, message, reason, headers, source, span }
    }
}

impl BaseError for ErasedError {
    open spec fn message_spec(&self) -> Seq<char> {
        self.spec_message()
    }

    open spec fn source_spec(&self) -> Option<Seq<char>> {
        self.spec_source()
    }

    fn message(&self) -> (m: String) {
        self.message.clone()
    }

    fn source_message(&self) -> (r: Option<String>) {
        clone_opt_string(&self.source)
    }
}

impl HttpError for ErasedError {
    open spec fn status_spec(&self) -> StatusCode {
        self.spec_status()
    }

    open spec fn reason_spec(&self) -> Seq<char> {
        self.spec_reason()
    }

    open spec fn headers_spec(&self) -> Option<Seq<(Seq<char>, Seq<char>)>> {
        self.spec_headers()
    }

    open spec fn has_span_spec(&self) -> bool {
        self.spec_has_span()
    }

    fn status_code(&self) -> (s: StatusCode) {
        self.status
    }

    fn reason(&self, out: &mut String) {
        out.append(self.reason.as_str())
    }

    fn headers(&self) -> (h: Option<Vec<(String, String)>>) {
        clone_headers(&self.headers)
    }

    fn span(&self) -> (s: Option<&tracing::Span>) {
        self.span.as_ref()
    }
}

/// An owned, type-erased, status-classified error: holds the record of one
/// concrete contract-implementing error on the heap.  It always holds
/// exactly one record — there is no empty state — and every contract
/// operation forwards to that record.  All its parts are owned plain
/// values, so the box transfers freely across threads.
#[derive(Debug)]
pub struct AnyHttpError {
    inner: Box<ErasedError>,
}

impl AnyHttpError {
    /// The record the box holds.
    pub closed spec fn spec_inner(&self) -> ErasedError {
        *self.inner
    }

    /// Erase `e`: ownership moves into the box, which records every
    /// observation the contract can make of it.  Never fails.
    pub fn new<E: HttpError>(e: E) -> (r: AnyHttpError)
        ensures
            erases(r.spec_inner(), e),
    {
        AnyHttpError { inner: Box::new(ErasedError::capture(e)) }
    }

    /// Wrap an already-boxed record.
    pub fn from_inner(inner: Box<ErasedError>) -> (r: AnyHttpError)
        ensures
            r.spec_inner() == *inner,
    {
        AnyHttpError { inner }
    }

    /// The escape hatch: give the underlying boxed record back, for callers
    /// that need the raw erased value.  A pure representation change that
    /// never fails.
    pub fn into_inner(self) -> (r: Box<ErasedError>)
        ensures
            *r == self.spec_inner(),
    {
        self.inner
    }

    /// Borrow the underlying record, for interfaces that expect the record
    /// type rather than this wrapper.
    pub fn as_inner(&self) -> (r: &ErasedError)
        ensures
            *r == self.spec_inner(),
    {
        &self.inner
    }
}

impl BaseError for AnyHttpError {
    open spec fn message_spec(&self) -> Seq<char> {
        self.spec_inner().spec_message()
    }

    open spec fn source_spec(&self) -> Option<Seq<char>> {
        self.spec_inner().spec_source()
    }

    fn message(&self) -> (m: String) {
        self.inner.message()
    }

    fn source_message(&self) -> (r: Option<String>) {
        self.inner.source_message()
    }
}

impl HttpError for AnyHttpError {
    open spec fn status_spec(&self) -> StatusCode {
        self.spec_inner().spec_status()
    }

    open spec fn reason_spec(&self) -> Seq<char> {
        self.spec_inner().spec_reason()
    }

    open spec fn headers_spec(&self) -> Option<Seq<(Seq<char>, Seq<char>)>> {
        self.spec_inner().spec_headers()
    }

    open spec fn has_span_spec(&self) -> bool {
        self.spec_inner().spec_has_span()
    }

    fn status_code(&self) -> (s: StatusCode) {
        self.inner.status_code()
    }

    fn reason(&self, out: &mut String) {
        self.inner.reason(out)
    }

    fn headers(&self) -> (h: Option<Vec<(String, String)>>) {
        self.inner.headers()
    }

    fn span(&self) -> (s: Option<&tracing::Span>) {
        self.inner.span()
    }
}

/// Erasure keeps the contract: every observation of a box that erased `e`
/// equals the corresponding observation of `e` itself.
pub proof fn lemma_erasure_preserves_contract<E: HttpError>(a: &AnyHttpError, e: &E)
    requires
        erases(a.spec_inner(), *e),
    ensures
        a.status_spec() == e.status_spec(),
        a.reason_spec() == e.reason_spec(),
        a.message_spec() == e.message_spec(),
        a.headers_spec() == e.headers_spec(),
        a.source_spec() == e.source_spec(),
        a.has_span_spec() == e.has_span_spec(),
{
}

/// The causal chain survives erasure: when the erased error had a
/// predecessor, the box reports one with the same rendered content.
pub proof fn lemma_erasure_preserves_source<E: HttpError>(a: &AnyHttpError, e: &E)
    requires
        erases(a.spec_inner(), *e),
        e.source_spec() is Some,
    ensures
        a.source_spec() is Some,
        a.source_spec() == e.source_spec(),
{
}

} // verus!
