//! The resolution handler: from a name, through a resolver's answer, to an offer.
use vstd::prelude::*;
use vstd::string::*;
use std::sync::Arc;
use bitcoin_payment_instructions::hrn_resolution::HumanReadableName;
use crate::error::{
    OfferError,
    OfferErrorView,
    alternate_service_error,
    alternate_service_message,
    result_view,
};
use crate::name::{is_encoded_name, parse_name};
use crate::uri::{
    is_lno_key,
    lemma_first_lno_pair_is_offer,
    offer_from_uri,
    offer_of_uri,
    uri_parses,
    uri_query_pairs,
};

verus! {

/// What a resolver found for a name.
#[derive(Debug, Clone, PartialEq, Eq)]
pub enum ResolutionOutcome {
    /// A payment URI backed by a signed DNS answer.
    SignedResult { uri: String },
    /// A redirect to another payment service; its details are not used here.
    AlternateService,
}

/// The URI that a resolver's answer yields for `name`, or the error it causes.
pub open spec fn uri_of_resolution(
    name: Seq<char>,
    resolution: Result<ResolutionOutcome, String>,
) -> Result<Seq<char>, OfferErrorView> {
    match resolution {
        Err(m) => Err(OfferErrorView::HrnResolutionFailure(name, m@)),
        Ok(ResolutionOutcome::SignedResult { uri }) => Ok(uri@),
        Ok(ResolutionOutcome::AlternateService) => Err(
            OfferErrorView::ResolveUriError(alternate_service_message()),
        ),
    }
}

/// The offer that a resolver's answer yields for `name`, or the error it causes.
pub open spec fn offer_of_resolution(
    name: Seq<char>,
    resolution: Result<ResolutionOutcome, String>,
) -> Result<Seq<char>, OfferErrorView> {
    match uri_of_resolution(name, resolution) {
        Ok(uri) => offer_of_uri(uri),
        Err(e) => Err(e),
    }
}

/// A signed result whose URI parses and carries, at some position, a first
/// query parameter keyed `lno` in any ASCII case yields exactly that
/// parameter's decoded value.
pub proof fn lemma_signed_result_yields_offer(name: Seq<char>, uri: String, i: int)
    requires
        uri_parses(uri@),
        0 <= i < uri_query_pairs(uri@).len(),
        is_lno_key(uri_query_pairs(uri@)[i].0),
        forall|j: int| 0 <= j < i ==> !is_lno_key(#[trigger] uri_query_pairs(uri@)[j].0),
    ensures
        offer_of_resolution(name, Ok((ResolutionOutcome::SignedResult { uri })))
            == Ok::<Seq<char>, OfferErrorView>(uri_query_pairs(uri@)[i].1),
{
    lemma_first_lno_pair_is_offer(uri_query_pairs(uri@), i);
}

/// A redirect to another payment service is always refused with the URI
/// error that says so; no URI is looked at.
pub proof fn lemma_alternate_service_refused(name: Seq<char>)
    ensures
        offer_of_resolution(name, Ok(ResolutionOutcome::AlternateService)) == Err::<
            Seq<char>,
            OfferErrorView,
        >(OfferErrorView::ResolveUriError(alternate_service_message())),
{
}

/// Turns human-readable names into BOLT12 offers with the help of a resolver.
///
/// The resolver is shared and never changed once the handler is built; the
/// lookup itself is made by the caller with [`Self::resolver`], and the
/// handler decides what its answer means.
pub struct LndkDNSResolverMessageHandler<R> {
    resolver: Arc<R>,
}

impl<R> Clone for LndkDNSResolverMessageHandler<R> {
    /// Another handle on the same shared resolver.
    fn clone(&self) -> Self {
        LndkDNSResolverMessageHandler { resolver: Arc::clone(&self.resolver) }
    }
}

impl<R> LndkDNSResolverMessageHandler<R> {
    /// The resolver this handler uses.
    pub closed spec fn spec_resolver(&self) -> R {
        *self.resolver
    }

    /// Builds a handler around the given resolver.
    pub fn with_resolver(resolver: R) -> (h: Self)
        ensures
            h.spec_resolver() == resolver,
    {
        LndkDNSResolverMessageHandler { resolver: Arc::new(resolver) }
    }

    /// The resolver this handler uses.
    pub fn resolver(&self) -> (r: &R)
        ensures
            *r == self.spec_resolver(),
    {
        &*self.resolver
    }

    /// Validates a name before it is handed to the resolver; an invalid name
    /// is reported with the input.
    pub fn parse_name(&self, name: &str) -> (r: Result<HumanReadableName, OfferError>)
        ensures
            r is Ok <==> is_encoded_name(name@),
            r matches Err(e) ==> e@ == OfferErrorView::ParseHrnFailure(name@),
    {
        parse_name(name)
    }

    /// Interprets the resolver's answer for `name`: a signed result gives its
    /// URI, a redirect to another payment service is refused, and a resolver
    /// failure is reported with the name and the resolver's message.
    pub fn uri_from_resolution(
        &self,
        name: &str,
        resolution: Result<ResolutionOutcome, String>,
    ) -> (r: Result<String, OfferError>)
        ensures
            result_view(r) == uri_of_resolution(name@, resolution),
    {
        match resolution {
            Err(m) => Err(OfferError::HrnResolutionFailure(String::from_str(name), m)),
            Ok(ResolutionOutcome::SignedResult { uri }) => Ok(uri),
            Ok(ResolutionOutcome::AlternateService) => Err(alternate_service_error()),
        }
    }

    /// Returns the percent-decoded value of the first `lno` query parameter
    /// of a payment URI, the key matched ignoring ASCII case. A URI that does
    /// not parse, and one without that parameter, give distinct errors.
    pub fn extract_offer_from_uri(&self, uri: &str) -> (r: Result<String, OfferError>)
        ensures
            result_view(r) == offer_of_uri(uri@),
    {
        offer_from_uri(uri)
    }

    /// The offer that the resolver's answer for `name` yields: the URI of a
    /// signed result is searched for its offer; any other answer is an error.
    pub fn offer_from_resolution(
        &self,
        name: &str,
        resolution: Result<ResolutionOutcome, String>,
    ) -> (r: Result<String, OfferError>)
        ensures
            result_view(r) == offer_of_resolution(name@, resolution),
    {
        match self.uri_from_resolution(name, resolution) {
            Ok(uri) => self.extract_offer_from_uri(uri.as_str()),
            Err(e) => Err(e),
        }
    }
}

} // verus!
