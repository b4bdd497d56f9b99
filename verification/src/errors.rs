use vstd::prelude::*;

verus! {

/// An error value that can produce a human-readable description of itself.
///
/// This is the only capability the boundary layer asks of a failure: every
/// native error is reduced to its full diagnostic text before it crosses to
/// the host. `text` is the specification-level view of that description, and
/// `diagnostic` is its executable counterpart.
pub trait Diagnostic {
    spec fn text(&self) -> Seq<char>;

    fn diagnostic(&self) -> (r: String)
        ensures
            r@ == self.text(),
    ;
}

/// Failure of the value codec, in either direction: the host object held a
/// type outside the JSON-compatible set, a cyclic reference, or a value the
/// host refused to accept back. Carries the full diagnostic text.
pub struct ConversionError {
    pub message: String,
}

impl ConversionError {
    /// Wraps a diagnostic text as a conversion failure.
    pub fn new(message: String) -> (r: ConversionError)
        ensures
            r.message == message,
    {
        ConversionError { message }
    }
}

impl Diagnostic for ConversionError {
    open spec fn text(&self) -> Seq<char> {
        self.message@
    }

    fn diagnostic(&self) -> (r: String)
        ensures
            r@ == self.text(),
    {
        self.message.clone()
    }
}

/// Things that can go wrong while processing the per-invocation context
/// object.
#[derive(Clone, Copy, Debug, PartialEq, Eq, Structural)]
pub enum ContextError {
    /// One of the seven named context attributes was absent or could not be
    /// coerced to a string, so no context view was constructed at all.
    AttributeExtractionFailed,
    /// The remaining-time query on the underlying context object could not
    /// be made, or its result could not be coerced to a `u64`. All causes
    /// collapse into this single outcome.
    GetRemainingTimeFailed,
}

impl Diagnostic for ContextError {
    open spec fn text(&self) -> Seq<char> {
        match *self {
            ContextError::AttributeExtractionFailed => "failed to extract context attribute"@,
            ContextError::GetRemainingTimeFailed => "failed to call get_remaining_time_in_millis"@,
        }
    }

    fn diagnostic(&self) -> (r: String)
        ensures
            r@ == self.text(),
    {
        match *self {
            ContextError::AttributeExtractionFailed => "failed to extract context attribute".to_owned(),
            ContextError::GetRemainingTimeFailed => "failed to call get_remaining_time_in_millis".to_owned(),
        }
    }
}

/// An opaque failure returned by user handler code: nothing is kept of it
/// but its full diagnostic text.
pub struct HandlerError {
    pub message: String,
}

impl HandlerError {
    /// Wraps any concrete error, already reduced to its diagnostic text.
    pub fn wrap(message: String) -> (r: HandlerError)
        ensures
            r.message == message,
    {
        HandlerError { message }
    }
}

impl Diagnostic for HandlerError {
    open spec fn text(&self) -> Seq<char> {
        self.message@
    }

    fn diagnostic(&self) -> (r: String)
        ensures
            r@ == self.text(),
    {
        self.message.clone()
    }
}

/// The one host-visible exception shape: a generic runtime-error category
/// whose message is the full diagnostic text of the underlying failure. The
/// host distinguishes failures by message text alone.
pub struct HostException {
    pub message: String,
}

impl HostException {
    /// The exception's message text.
    pub fn message(&self) -> (r: &str)
        ensures
            r@ == self.message@,
    {
        self.message.as_str()
    }
}

/// Maps an arbitrary native failure into the single host-visible exception
/// kind. The message is the input's full diagnostic text, verbatim; no
/// classification by error kind happens at this layer.
pub fn translate<E: Diagnostic>(e: &E) -> (x: HostException)
    ensures
        x.message@ == e.text(),
{
    HostException { message: e.diagnostic() }
}

} // verus!
