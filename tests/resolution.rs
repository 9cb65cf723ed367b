use bitcoin_payment_instructions::http_resolver::HTTPHrnResolver;
use lndk_dns_resolver::name::parse_name;
use lndk_dns_resolver::uri::{key_is_lno, offer_from_query_pairs, offer_from_uri};
use lndk_dns_resolver::{LndkDNSResolverMessageHandler, OfferError, ResolutionOutcome};

fn handler() -> LndkDNSResolverMessageHandler<HTTPHrnResolver> {
    LndkDNSResolverMessageHandler::with_resolver(HTTPHrnResolver::new())
}

fn uri_error(m: &str) -> OfferError {
    OfferError::ResolveUriError(m.to_string())
}

const MISSING: &str = "URI does not contain 'lno' parameter with BOLT12 offer";
const INVALID: &str = "invalid URI format";
const ALTERNATE: &str = "alternate-service resolution not supported in this flow";

#[test]
fn malformed_uri_is_invalid_format() {
    let r = handler().extract_offer_from_uri("not a uri");
    assert_eq!(r, Err(uri_error(INVALID)));
    let e = r.unwrap_err();
    assert!(e.to_string().contains("invalid URI format"));
    assert!(!e.to_string().contains("does not contain"));
}

#[test]
fn empty_uri_is_invalid_format() {
    assert_eq!(offer_from_uri(""), Err(uri_error(INVALID)));
}

#[test]
fn scheme_only_uri_is_missing_parameter() {
    assert_eq!(offer_from_uri("bitcoin:"), Err(uri_error(MISSING)));
    assert_eq!(offer_from_uri("bitcoin:?"), Err(uri_error(MISSING)));
}

#[test]
fn key_matched_in_any_case_and_position() {
    let h = handler();
    assert_eq!(h.extract_offer_from_uri("bitcoin:?amount=50&LNO=abc"), Ok("abc".to_string()));
    assert_eq!(h.extract_offer_from_uri("bitcoin:?label=x&LnO=q&amount=1"), Ok("q".to_string()));
    assert_eq!(
        h.extract_offer_from_uri("bitcoin:bc1qxyz?amount=0.1&lno=lno1zz"),
        Ok("lno1zz".to_string())
    );
}

#[test]
fn first_lno_parameter_wins() {
    assert_eq!(offer_from_uri("bitcoin:?lno=first&LNO=second"), Ok("first".to_string()));
}

#[test]
fn similar_keys_are_not_lno() {
    assert_eq!(offer_from_uri("bitcoin:?lnoo=a&ln=b&xlno=c"), Err(uri_error(MISSING)));
}

#[test]
fn form_plus_decodes_to_space() {
    assert_eq!(offer_from_uri("bitcoin:?lno=a+b"), Ok("a b".to_string()));
}

#[test]
fn extraction_is_repeatable() {
    let h = handler();
    for uri in ["bitcoin:?lno=lno1abc", "bitcoin:?amount=5", "::"] {
        assert_eq!(h.extract_offer_from_uri(uri), h.extract_offer_from_uri(uri));
    }
}

#[test]
fn query_pairs_first_match() {
    let pairs = vec![
        ("amount".to_string(), "50".to_string()),
        ("Lno".to_string(), "x".to_string()),
        ("lno".to_string(), "y".to_string()),
    ];
    assert_eq!(offer_from_query_pairs(&pairs), Ok("x".to_string()));
    assert_eq!(offer_from_query_pairs(&Vec::new()), Err(uri_error(MISSING)));
}

#[test]
fn lno_key_matching() {
    assert!(key_is_lno("lno"));
    assert!(key_is_lno("LNO"));
    assert!(key_is_lno("lNo"));
    assert!(!key_is_lno("lno "));
    assert!(!key_is_lno("ln"));
    assert!(!key_is_lno(""));
    assert!(!key_is_lno("lmo"));
}

#[test]
fn valid_names_parse() {
    assert!(parse_name("alice@example.com").is_ok());
    assert!(parse_name("\u{20bf}alice@example.com").is_ok());
    assert!(parse_name("alice@example.com.").is_ok());
    assert!(parse_name("a_b-c.d@x-y.z").is_ok());
    assert!(handler().parse_name("bob@example.org").is_ok());
}

#[test]
fn invalid_names_are_reported_with_input() {
    for name in [
        "alice",
        "@example.com",
        "alice@",
        "alice@.",
        "a@b@c",
        "ali ce@example.com",
        "alice@exa!mple.com",
        "\u{20bf}\u{20bf}alice@example.com",
        "",
    ] {
        assert_eq!(
            parse_name(name).unwrap_err(),
            OfferError::ParseHrnFailure(name.to_string())
        );
    }
}

#[test]
fn name_length_limit() {
    let at_limit = format!("{}@{}", "a".repeat(115), "b".repeat(116));
    assert!(parse_name(&at_limit).is_ok());
    let over = format!("{}@{}", "a".repeat(116), "b".repeat(116));
    assert!(parse_name(&over).is_err());
}

#[test]
fn signed_result_gives_offer() {
    let h = handler();
    let outcome = Ok(ResolutionOutcome::SignedResult {
        uri: "bitcoin:?amount=50&lno=lno1qgsqvgnwgcg35z".to_string(),
    });
    assert_eq!(
        h.offer_from_resolution("alice@example.com", outcome.clone()),
        Ok("lno1qgsqvgnwgcg35z".to_string())
    );
    assert_eq!(
        h.uri_from_resolution("alice@example.com", outcome),
        Ok("bitcoin:?amount=50&lno=lno1qgsqvgnwgcg35z".to_string())
    );
}

#[test]
fn signed_result_without_offer_is_missing_parameter() {
    let outcome = Ok(ResolutionOutcome::SignedResult { uri: "bitcoin:?amount=50".to_string() });
    assert_eq!(handler().offer_from_resolution("a@b.c", outcome), Err(uri_error(MISSING)));
}

#[test]
fn alternate_service_is_refused() {
    let h = handler();
    let r = h.offer_from_resolution("alice@example.com", Ok(ResolutionOutcome::AlternateService));
    assert_eq!(r, Err(uri_error(ALTERNATE)));
    assert!(r.unwrap_err().to_string().contains("not supported"));
    assert_eq!(
        h.uri_from_resolution("alice@example.com", Ok(ResolutionOutcome::AlternateService)),
        Err(uri_error(ALTERNATE))
    );
}

#[test]
fn resolver_failure_carries_name_and_message() {
    let h = handler();
    let r = h.offer_from_resolution("alice@example.com", Err("timed out".to_string()));
    assert_eq!(
        r,
        Err(OfferError::HrnResolutionFailure(
            "alice@example.com".to_string(),
            "timed out".to_string()
        ))
    );
    assert_eq!(
        r.unwrap_err().to_string(),
        "failed to resolve human-readable name alice@example.com: timed out"
    );
}

#[test]
fn error_descriptions() {
    assert_eq!(
        OfferError::ParseHrnFailure("x".to_string()).to_string(),
        "failed to parse human-readable name: x"
    );
    assert_eq!(uri_error(INVALID).to_string(), "failed to resolve URI: invalid URI format");
}

#[test]
fn cloned_handler_shares_resolver() {
    let h = LndkDNSResolverMessageHandler::with_resolver(7u32);
    let c = h.clone();
    assert_eq!(*c.resolver(), 7);
    assert_eq!(c.extract_offer_from_uri("bitcoin:?lno=z"), Ok("z".to_string()));
}
