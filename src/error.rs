//! Errors reported while turning a name into an offer.
use vstd::prelude::*;
use vstd::string::*;

verus! {

/// The ways in which resolving a name into an offer can fail.
#[derive(Debug, Clone, PartialEq, Eq)]
pub enum OfferError {
    /// The input is not a well-formed human-readable name; carries the input.
    ParseHrnFailure(String),
    /// The resolver could not complete the lookup; carries the name and the
    /// resolver's message.
    HrnResolutionFailure(String, String),
    /// The resolution succeeded but gave no usable offer; carries the reason.
    ResolveUriError(String),
}

/// The mathematical value of an [`OfferError`].
pub enum OfferErrorView {
    ParseHrnFailure(Seq<char>),
    HrnResolutionFailure(Seq<char>, Seq<char>),
    ResolveUriError(Seq<char>),
}

impl View for OfferError {
    type V = OfferErrorView;

    open spec fn view(&self) -> OfferErrorView {
        match self {
            OfferError::ParseHrnFailure(n) => OfferErrorView::ParseHrnFailure(n@),
            OfferError::HrnResolutionFailure(n, m) => OfferErrorView::HrnResolutionFailure(n@, m@),
            OfferError::ResolveUriError(m) => OfferErrorView::ResolveUriError(m@),
        }
    }
}

/// The value of a result that yields a string or an [`OfferError`].
pub open spec fn result_view(r: Result<String, OfferError>) -> Result<Seq<char>, OfferErrorView> {
    match r {
        Ok(s) => Ok(s@),
        Err(e) => Err(e@),
    }
}

/// Reason given when a URI cannot be parsed.
pub open spec fn invalid_uri_message() -> Seq<char> {
    "invalid URI format"@
}

/// Reason given when a URI carries no `lno` parameter.
pub open spec fn missing_lno_message() -> Seq<char> {
    "URI does not contain 'lno' parameter with BOLT12 offer"@
}

/// Reason given when the resolver redirects to another payment service.
pub open spec fn alternate_service_message() -> Seq<char> {
    "alternate-service resolution not supported in this flow"@
}

/// The text that describes an error.
pub open spec fn describe(e: OfferErrorView) -> Seq<char> {
    match e {
        OfferErrorView::ParseHrnFailure(n) => "failed to parse human-readable name: "@ + n,
        OfferErrorView::HrnResolutionFailure(n, m) => "failed to resolve human-readable name "@ + n
            + ": "@ + m,
        OfferErrorView::ResolveUriError(m) => "failed to resolve URI: "@ + m,
    }
}

/// The error for a URI that does not parse.
pub fn invalid_uri_error() -> (e: OfferError)
    ensures
        e@ == OfferErrorView::ResolveUriError(invalid_uri_message()),
{
    OfferError::ResolveUriError(String::from_str("invalid URI format"))
}

/// The error for a URI without an `lno` parameter.
pub fn missing_lno_error() -> (e: OfferError)
    ensures
        e@ == OfferErrorView::ResolveUriError(missing_lno_message()),
{
    OfferError::ResolveUriError(
        String::from_str("URI does not contain 'lno' parameter with BOLT12 offer"),
    )
}

/// The error for a redirect to another payment service.
pub fn alternate_service_error() -> (e: OfferError)
    ensures
        e@ == OfferErrorView::ResolveUriError(alternate_service_message()),
{
    OfferError::ResolveUriError(
        String::from_str("alternate-service resolution not supported in this flow"),
    )
}

impl OfferError {
    /// The human-readable description of this error.
    pub fn to_string(&self) -> (s: String)
        ensures
            s@ == describe(self@),
    {
        match self {
            OfferError::ParseHrnFailure(n) => {
                String::from_str("failed to parse human-readable name: ").concat(n.as_str())
            },
            OfferError::HrnResolutionFailure(n, m) => {
                String::from_str("failed to resolve human-readable name ").concat(
                    n.as_str(),
                ).concat(": ").concat(m.as_str())
            },
            OfferError::ResolveUriError(m) => {
                String::from_str("failed to resolve URI: ").concat(m.as_str())
            },
        }
    }
}

} // verus!
