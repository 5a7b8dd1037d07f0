use liege_gateway::middleware::ratelimit::{
    api_group, auth_group, ExtractionError, IpAddress, JwtKeyExtractor, RateLimitGroup, UserIpKey,
};
use liege_gateway::models::auth::Claims;
use liege_gateway::signature::HeaderValue;

fn claims(sub: u64) -> Claims {
    Claims {
        sub,
        exp: 1700000000,
        username: "ferris".to_string(),
        display_name: "Ferris".to_string(),
        avatar: "https://cdn.example/a.png".to_string(),
        discord_access_token: "access".to_string(),
    }
}

fn header(text: &str) -> HeaderValue {
    HeaderValue::Text(text.to_string())
}

const PEER: IpAddress = IpAddress::V4(0x7f000001);

#[test]
fn bearer_token_is_what_follows_the_word() {
    assert_eq!(
        JwtKeyExtractor::get_token_from_response(&header("Bearer abc.def.ghi")),
        Some("abc.def.ghi".to_string())
    );
    assert_eq!(
        JwtKeyExtractor::get_token_from_response(&header("Bearer ")),
        Some(String::new())
    );
    assert_eq!(
        JwtKeyExtractor::get_token_from_response(&header("Bearer  two")),
        Some(" two".to_string())
    );
    assert_eq!(
        JwtKeyExtractor::get_token_from_response(&header("Bearer tökén")),
        Some("tökén".to_string())
    );
}

#[test]
fn other_headers_carry_no_bearer_token() {
    for text in ["", "Bearer", "bearer abc", "Basic abc", " Bearer abc", "Bearerabc"] {
        assert_eq!(JwtKeyExtractor::get_token_from_response(&header(text)), None);
    }
    assert_eq!(
        JwtKeyExtractor::get_token_from_response(&HeaderValue::Missing),
        None
    );
    assert_eq!(
        JwtKeyExtractor::get_token_from_response(&HeaderValue::NotText),
        None
    );
}

#[test]
fn good_credential_is_counted_under_its_user() {
    let held = claims(42);
    assert_eq!(
        JwtKeyExtractor.extract(&header("Bearer token"), Some(&held), Some(PEER)),
        Ok(UserIpKey {
            user_id: Some(42),
            ip_addr: None
        })
    );
    // also where the network address is not known
    assert_eq!(
        JwtKeyExtractor.extract(&header("Bearer token"), Some(&held), None),
        Ok(UserIpKey::from(42u64))
    );
}

#[test]
fn bad_or_absent_credential_is_counted_under_the_address() {
    let expected = Ok(UserIpKey {
        user_id: None,
        ip_addr: Some(PEER),
    });
    // ended, forged or malformed: the credential was good for no claims
    assert_eq!(
        JwtKeyExtractor.extract(&header("Bearer token"), None, Some(PEER)),
        expected
    );
    // no header
    assert_eq!(
        JwtKeyExtractor.extract(&HeaderValue::Missing, None, Some(PEER)),
        expected
    );
    // a header that carries no bearer credential, whatever claims are handed in
    let held = claims(42);
    assert_eq!(
        JwtKeyExtractor.extract(&header("Basic abc"), Some(&held), Some(PEER)),
        expected
    );
    assert_eq!(
        JwtKeyExtractor.extract(&HeaderValue::NotText, None, Some(IpAddress::V6(1))),
        Ok(UserIpKey::from(IpAddress::V6(1)))
    );
}

#[test]
fn no_credential_and_no_address_is_no_key() {
    assert_eq!(
        JwtKeyExtractor.extract(&HeaderValue::Missing, None, None),
        Err(ExtractionError::UnableToExtractKey)
    );
    assert_eq!(
        JwtKeyExtractor.extract(&header("Bearer token"), None, None),
        Err(ExtractionError::UnableToExtractKey)
    );
}

#[test]
fn keys_are_equal_by_what_they_hold() {
    assert_eq!(UserIpKey::from(7u64), UserIpKey::from(7u64));
    assert_ne!(UserIpKey::from(7u64), UserIpKey::from(8u64));
    assert_ne!(UserIpKey::from(7u64), UserIpKey::from(IpAddress::V4(7)));
    assert_ne!(
        UserIpKey::from(IpAddress::V4(7)),
        UserIpKey::from(IpAddress::V6(7))
    );
    assert_eq!(
        UserIpKey::from(7u64),
        UserIpKey {
            user_id: Some(7),
            ip_addr: None
        }
    );
    assert_eq!(
        UserIpKey::from(PEER),
        UserIpKey {
            user_id: None,
            ip_addr: Some(PEER)
        }
    );
}

#[test]
fn groups() {
    // one a second, eight at once
    assert_eq!(
        api_group(),
        RateLimitGroup {
            period_milliseconds: 1000,
            burst_size: 8
        }
    );
    // four a second, two at once
    assert_eq!(
        auth_group(),
        RateLimitGroup {
            period_milliseconds: 250,
            burst_size: 2
        }
    );
    assert_eq!(1000 / auth_group().period_milliseconds, 4);
}
