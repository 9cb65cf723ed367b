//! Validation of human-readable payment names (`user@domain`).
use vstd::prelude::*;
use vstd::string::*;
use bitcoin_payment_instructions::hrn_resolution::HumanReadableName;
use crate::error::{OfferError, OfferErrorView};

verus! {

#[verifier::external_type_specification]
#[verifier::external_body]
pub struct ExHumanReadableName(HumanReadableName);

/// The longest combined length of the user and domain parts.
pub open spec fn max_parts_len() -> int {
    231
}

/// A character that may appear in the user or domain part.
pub open spec fn is_name_char(c: char) -> bool {
    ('a' <= c && c <= 'z') || ('A' <= c && c <= 'Z') || ('0' <= c && c <= '9') || c == '.'
        || c == '_' || c == '-'
}

/// A non-empty part made only of name characters.
pub open spec fn is_name_part(s: Seq<char>) -> bool {
    s.len() > 0 && forall|i: int| 0 <= i < s.len() ==> is_name_char(#[trigger] s[i])
}

/// A user and domain that together form a valid name.
pub open spec fn is_valid_parts(user: Seq<char>, domain: Seq<char>) -> bool {
    is_name_part(user) && is_name_part(domain) && user.len() + domain.len() <= max_parts_len()
}

/// The text without one leading bitcoin sign.
pub open spec fn strip_bitcoin_sign(s: Seq<char>) -> Seq<char> {
    if s.len() > 0 && s[0] == '₿' {
        s.drop_first()
    } else {
        s
    }
}

/// The domain without one trailing dot.
pub open spec fn strip_trailing_dot(d: Seq<char>) -> Seq<char> {
    if d.len() > 0 && d.last() == '.' {
        d.drop_last()
    } else {
        d
    }
}

/// The text, once its bitcoin sign is removed, is `user@domain`, optionally
/// followed by one dot, and the two parts are valid.
pub open spec fn encodes_name(encoded: Seq<char>, user: Seq<char>, domain: Seq<char>) -> bool {
    let s = strip_bitcoin_sign(encoded);
    &&& is_valid_parts(user, domain)
    &&& exists|i: int|
        0 <= i < s.len() && s[i] == '@' && user == s.take(i) && domain == strip_trailing_dot(
            #[trigger] s.skip(i + 1),
        )
}

/// Whether the text is a well-formed human-readable name.
pub open spec fn is_encoded_name(encoded: Seq<char>) -> bool {
    exists|user: Seq<char>, domain: Seq<char>| encodes_name(encoded, user, domain)
}

/// A text names at most one user and domain.
pub proof fn lemma_name_parts_unique(
    encoded: Seq<char>,
    u1: Seq<char>,
    d1: Seq<char>,
    u2: Seq<char>,
    d2: Seq<char>,
)
    requires
        encodes_name(encoded, u1, d1),
        encodes_name(encoded, u2, d2),
    ensures
        u1 == u2,
        d1 == d2,
{
    let s = strip_bitcoin_sign(encoded);
    let i1 = choose|i: int|
        0 <= i < s.len() && s[i] == '@' && u1 == s.take(i) && d1 == strip_trailing_dot(
            #[trigger] s.skip(i + 1),
        );
    let i2 = choose|i: int|
        0 <= i < s.len() && s[i] == '@' && u2 == s.take(i) && d2 == strip_trailing_dot(
            #[trigger] s.skip(i + 1),
        );
    if i1 < i2 {
        assert(u2[i1] == '@');
    } else if i2 < i1 {
        assert(u1[i2] == '@');
    }
}

/// Writing valid parts as `user@domain`, with or without the leading `₿`,
/// gives a well-formed name that parses back to exactly those parts. The
/// domain is taken without a trailing dot, which parsing would drop.
pub proof fn lemma_name_round_trip(user: Seq<char>, domain: Seq<char>)
    requires
        is_valid_parts(user, domain),
        domain.last() != '.',
    ensures
        is_encoded_name(user + seq!['@'] + domain),
        is_encoded_name(seq!['₿'] + user + seq!['@'] + domain),
        encodes_name(user + seq!['@'] + domain, user, domain),
        encodes_name(seq!['₿'] + user + seq!['@'] + domain, user, domain),
        forall|u: Seq<char>, d: Seq<char>|
            encodes_name(user + seq!['@'] + domain, u, d) ==> u == user && d == domain,
        forall|u: Seq<char>, d: Seq<char>|
            encodes_name(seq!['₿'] + user + seq!['@'] + domain, u, d) ==> u == user && d
                == domain,
{
    let plain = user + seq!['@'] + domain;
    let signed = seq!['₿'] + user + seq!['@'] + domain;
    let i = user.len() as int;
    assert(is_name_char(user[0]));
    assert(strip_bitcoin_sign(plain) == plain);
    assert(strip_bitcoin_sign(signed) =~= plain);
    assert(plain.take(i) =~= user);
    assert(plain.skip(i + 1) =~= domain);
    assert(plain[i] == '@');
    assert(encodes_name(plain, user, domain));
    assert(encodes_name(signed, user, domain));
    assert forall|u: Seq<char>, d: Seq<char>| encodes_name(plain, u, d) implies u == user && d
        == domain by {
        lemma_name_parts_unique(plain, u, d, user, domain);
    }
    assert forall|u: Seq<char>, d: Seq<char>| encodes_name(signed, u, d) implies u == user && d
        == domain by {
        lemma_name_parts_unique(signed, u, d, user, domain);
    }
}

/// Relies on `HumanReadableName::from_encoded`, which removes one leading `₿`,
/// splits at the first `@`, drops one trailing `.` of the domain, and accepts
/// non-empty ASCII parts of `[A-Za-z0-9._-]` of at most 231 bytes together.
pub assume_specification[ HumanReadableName::from_encoded ](encoded: &str) -> (r: Result<
    HumanReadableName,
    (),
>)
    ensures
        r is Ok <==> is_encoded_name(encoded@),
;

/// Parses a human-readable name, reporting the input on failure.
pub fn parse_name(name: &str) -> (r: Result<HumanReadableName, OfferError>)
    ensures
        r is Ok <==> is_encoded_name(name@),
        r matches Err(e) ==> e@ == OfferErrorView::ParseHrnFailure(name@),
{
    match HumanReadableName::from_encoded(name) {
        Ok(n) => Ok(n),
        Err(()) => Err(OfferError::ParseHrnFailure(String::from_str(name))),
    }
}

} // verus!
