//! Extraction of the BOLT12 offer from a payment URI's query.
use vstd::prelude::*;
use vstd::string::*;
use crate::error::{OfferError, OfferErrorView, invalid_uri_error, missing_lno_error, invalid_uri_message, missing_lno_message, result_view};

verus! {

/// Whether `url::Url::parse` accepts the text as an absolute URL.
pub uninterp spec fn uri_parses(uri: Seq<char>) -> bool;

/// The decoded query pairs that `url::Url::query_pairs` yields, in order, for
/// the URL that `url::Url::parse` makes of the text.
pub uninterp spec fn uri_query_pairs(uri: Seq<char>) -> Seq<(Seq<char>, Seq<char>)>;

/// Relies on `url::Url::parse` to parse the text as an absolute URL, and on
/// `url::Url::query_pairs` to split its query into percent-decoded pairs.
#[verifier::external_body]
fn parse_query_pairs(uri: &str) -> (r: Result<Vec<(String, String)>, url::ParseError>)
    ensures
        r is Ok <==> uri_parses(uri@),
        r matches Ok(p) ==> pairs_view(p@) == uri_query_pairs(uri@),
{
    let url = url::Url::parse(uri)?;
    Ok(url.query_pairs().map(|(k, v)| (k.into_owned(), v.into_owned())).collect())
}

#[verifier::external_type_specification]
#[verifier::external_body]
pub struct ExParseError(url::ParseError);

/// The values of a sequence of string pairs.
pub open spec fn pairs_view(p: Seq<(String, String)>) -> Seq<(Seq<char>, Seq<char>)> {
    p.map_values(|q: (String, String)| (q.0@, q.1@))
}

/// Whether a query key names the offer parameter, ignoring ASCII case.
pub open spec fn is_lno_key(k: Seq<char>) -> bool {
    &&& k.len() == 3
    &&& (k[0] == 'l' || k[0] == 'L')
    &&& (k[1] == 'n' || k[1] == 'N')
    &&& (k[2] == 'o' || k[2] == 'O')
}

/// The value of the first pair whose key names the offer parameter.
pub open spec fn lno_value(pairs: Seq<(Seq<char>, Seq<char>)>) -> Option<Seq<char>>
    decreases pairs.len(),
{
    if pairs.len() == 0 {
        None
    } else if is_lno_key(pairs[0].0) {
        Some(pairs[0].1)
    } else {
        lno_value(pairs.drop_first())
    }
}

/// The offer carried by a list of query pairs, or the missing-parameter error.
pub open spec fn offer_of_pairs(pairs: Seq<(Seq<char>, Seq<char>)>) -> Result<Seq<char>, OfferErrorView> {
    match lno_value(pairs) {
        Some(v) => Ok(v),
        None => Err(OfferErrorView::ResolveUriError(missing_lno_message())),
    }
}

/// The offer carried by a URI, or the error that extraction reports.
pub open spec fn offer_of_uri(uri: Seq<char>) -> Result<Seq<char>, OfferErrorView> {
    if uri_parses(uri) {
        offer_of_pairs(uri_query_pairs(uri))
    } else {
        Err(OfferErrorView::ResolveUriError(invalid_uri_message()))
    }
}

proof fn lemma_lno_value_skip(pairs: Seq<(Seq<char>, Seq<char>)>, i: int)
    requires
        0 <= i < pairs.len(),
    ensures
        lno_value(pairs.skip(i)) == if is_lno_key(pairs[i].0) {
            Some(pairs[i].1)
        } else {
            lno_value(pairs.skip(i + 1))
        },
{
    assert(pairs.skip(i).drop_first() =~= pairs.skip(i + 1));
}

/// When the first pair keyed `lno` (in any ASCII case) stands at position
/// `i`, its value is the offer, whatever pairs come before or after it.
pub proof fn lemma_first_lno_pair_is_offer(pairs: Seq<(Seq<char>, Seq<char>)>, i: int)
    requires
        0 <= i < pairs.len(),
        is_lno_key(pairs[i].0),
        forall|j: int| 0 <= j < i ==> !is_lno_key(#[trigger] pairs[j].0),
    ensures
        lno_value(pairs) == Some(pairs[i].1),
        offer_of_pairs(pairs) == Ok::<Seq<char>, OfferErrorView>(pairs[i].1),
    decreases i,
{
    if i > 0 {
        let rest = pairs.drop_first();
        assert(!is_lno_key(pairs[0].0));
        assert forall|j: int| 0 <= j < i - 1 implies !is_lno_key(#[trigger] rest[j].0) by {
            assert(rest[j] == pairs[j + 1]);
        }
        lemma_first_lno_pair_is_offer(rest, i - 1);
    }
}

/// Extracting the offer is a function of the URI alone: two extractions from
/// the same URI give the same result.
pub proof fn lemma_extraction_deterministic(
    uri: Seq<char>,
    r1: Result<String, OfferError>,
    r2: Result<String, OfferError>,
)
    requires
        result_view(r1) == offer_of_uri(uri),
        result_view(r2) == offer_of_uri(uri),
    ensures
        result_view(r1) == result_view(r2),
{
}

/// Whether a query key is `lno`, ignoring ASCII case.
pub fn key_is_lno(key: &str) -> (b: bool)
    ensures
        b == is_lno_key(key@),
{
    if key.unicode_len() != 3 {
        return false;
    }
    let c0 = key.get_char(0);
    let c1 = key.get_char(1);
    let c2 = key.get_char(2);
    (c0 == 'l' || c0 == 'L') && (c1 == 'n' || c1 == 'N') && (c2 == 'o' || c2 == 'O')
}

/// Returns the value of the first query pair whose key is `lno` (in any ASCII
/// case), or the missing-parameter error when there is none.
pub fn offer_from_query_pairs(pairs: &Vec<(String, String)>) -> (r: Result<String, OfferError>)
    ensures
        result_view(r) == offer_of_pairs(pairs_view(pairs@)),
{
    let ghost pv = pairs_view(pairs@);
    let mut i: usize = 0;
    assert(pv.skip(0) =~= pv);
    while i < pairs.len()
        invariant
            0 <= i <= pairs.len(),
            pv == pairs_view(pairs@),
            lno_value(pv) == lno_value(pv.skip(i as int)),
        decreases pairs.len() - i,
    {
        proof {
            lemma_lno_value_skip(pv, i as int);
        }
        if key_is_lno(pairs[i].0.as_str()) {
            return Ok(pairs[i].1.clone());
        }
        i = i + 1;
    }
    assert(pv.skip(i as int).len() == 0);
    Err(missing_lno_error())
}

/// Returns the percent-decoded value of the first `lno` query parameter of a
/// payment URI; the key is matched ignoring ASCII case.
pub fn offer_from_uri(uri: &str) -> (r: Result<String, OfferError>)
    ensures
        result_view(r) == offer_of_uri(uri@),
{
    match parse_query_pairs(uri) {
        Ok(pairs) => offer_from_query_pairs(&pairs),
        Err(_) => Err(invalid_uri_error()),
    }
}

} // verus!
