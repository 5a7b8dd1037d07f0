//! The key under which a request is counted against the rate limit: the
//! signed-in user where the request carries a good bearer credential, the
//! network address it came from otherwise. A bad credential is no failure;
//! the request is then counted by its address like any anonymous one.

use vstd::prelude::*;
use vstd::std_specs::convert::FromSpecImpl;
use crate::models::auth::Claims;
use crate::signature::HeaderValue;
use crate::text::{starts_with, strip_prefix};

verus! {

/// Derives rate-limit keys from requests.
#[derive(Debug, Clone, Copy)]
pub struct JwtKeyExtractor;

/// A network address.
#[derive(Debug, Clone, Copy, PartialEq, Eq, Hash, Structural)]
pub enum IpAddress {
    /// The four bytes of a version 4 address, first byte highest.
    V4(u32),
    /// The sixteen bytes of a version 6 address, first byte highest.
    V6(u128),
}

/// A rate-limit key: a user or a network address, never both.
#[derive(Debug, Clone, Copy, PartialEq, Eq, Hash)]
pub struct UserIpKey {
    pub user_id: Option<u64>,
    pub ip_addr: Option<IpAddress>,
}

impl FromSpecImpl<u64> for UserIpKey {
    open spec fn obeys_from_spec() -> bool {
        true
    }

    open spec fn from_spec(user_id: u64) -> UserIpKey {
        UserIpKey { user_id: Some(user_id), ip_addr: None }
    }
}

impl From<u64> for UserIpKey {
    /// The key of a signed-in user.
    fn from(user_id: u64) -> (key: UserIpKey) {
        UserIpKey { user_id: Some(user_id), ip_addr: None }
    }
}

impl FromSpecImpl<IpAddress> for UserIpKey {
    open spec fn obeys_from_spec() -> bool {
        true
    }

    open spec fn from_spec(ip_addr: IpAddress) -> UserIpKey {
        UserIpKey { user_id: None, ip_addr: Some(ip_addr) }
    }
}

impl From<IpAddress> for UserIpKey {
    /// The key of a network address.
    fn from(ip_addr: IpAddress) -> (key: UserIpKey) {
        UserIpKey { user_id: None, ip_addr: Some(ip_addr) }
    }
}

/// Why a request has no rate-limit key.
#[derive(Debug, Clone, Copy, PartialEq, Eq, Structural)]
pub enum ExtractionError {
    /// The request carries no good credential and its network address is
    /// not known.
    UnableToExtractKey,
}

/// What an authorization header begins with when it carries a bearer credential.
pub const BEARER: &'static str = "Bearer ";

/// The bearer credential that an authorization header carries, if any.
pub open spec fn bearer_token(authorization: HeaderValue) -> Option<Seq<char>> {
    match authorization {
        HeaderValue::Text(text) => if starts_with(text@, BEARER@) {
            Some(text@.skip(BEARER@.len() as int))
        } else {
            None
        },
        _ => None,
    }
}

/// The key of a request: the subject of its claims if it carries a bearer
/// credential and the credential was good for these claims; otherwise its
/// network address, and without one no key.
pub open spec fn key_of(
    authorization: HeaderValue,
    claims: Option<Claims>,
    peer: Option<IpAddress>,
) -> Result<UserIpKey, ExtractionError> {
    if bearer_token(authorization) is Some && claims is Some {
        Ok(UserIpKey { user_id: Some(claims->0.sub), ip_addr: None })
    } else {
        match peer {
            Some(ip_addr) => Ok(UserIpKey { user_id: None, ip_addr: Some(ip_addr) }),
            None => Err(ExtractionError::UnableToExtractKey),
        }
    }
}

impl JwtKeyExtractor {
    /// The bearer credential that a request's authorization header carries,
    /// if any.
    pub fn get_token_from_response(authorization: &HeaderValue) -> (token: Option<String>)
        ensures
            match token {
                Some(text) => bearer_token(*authorization) == Some(text@),
                None => bearer_token(*authorization) is None,
            },
    {
        match authorization {
            HeaderValue::Text(text) => strip_prefix(text.as_str(), BEARER),
            _ => None,
        }
    }

    /// The key of a request, from its authorization header, the claims that
    /// its bearer credential was good for (`None` where it carries none, or
    /// one that is forged, malformed or ended), and the network address that
    /// it came from, if that is known.
    pub fn extract(
        &self,
        authorization: &HeaderValue,
        claims: Option<&Claims>,
        peer: Option<IpAddress>,
    ) -> (key: Result<UserIpKey, ExtractionError>)
        ensures
            key == key_of(
                *authorization,
                match claims {
                    Some(held) => Some(*held),
                    None => None,
                },
                peer,
            ),
    {
        let token = JwtKeyExtractor::get_token_from_response(authorization);
        match (token, claims) {
            (Some(_), Some(held)) => Ok(UserIpKey::from(held.sub)),
            _ => match peer {
                Some(ip_addr) => Ok(UserIpKey::from(ip_addr)),
                None => Err(ExtractionError::UnableToExtractKey),
            },
        }
    }
}

/// A request with a bearer credential that is good for a user is counted
/// under that user, whatever its network address; a request without a good
/// credential is counted under its network address.
pub proof fn lemma_key_prefers_identity(
    authorization: HeaderValue,
    claims: Option<Claims>,
    peer: Option<IpAddress>,
)
    ensures
        bearer_token(authorization) is Some && claims is Some ==> key_of(
            authorization,
            claims,
            peer,
        ) == Ok::<UserIpKey, ExtractionError>(
            UserIpKey { user_id: Some(claims->0.sub), ip_addr: None },
        ),
        (bearer_token(authorization) is None || claims is None) && peer is Some ==> key_of(
            authorization,
            claims,
            peer,
        ) == Ok::<UserIpKey, ExtractionError>(UserIpKey { user_id: None, ip_addr: peer }),
        key_of(authorization, claims, peer) is Err <==> (bearer_token(authorization) is None
            || claims is None) && peer is None,
{
}

/// The limit of a group of routes: every key may make `burst_size` requests
/// at once, and gets one more after every `period_milliseconds` milliseconds.
#[derive(Debug, Clone, Copy, PartialEq, Eq, Structural)]
pub struct RateLimitGroup {
    pub period_milliseconds: u64,
    pub burst_size: u32,
}

impl RateLimitGroup {
    /// The number of requests a second that the group sustains for a key.
    pub open spec fn per_second(self) -> int
        recommends
            self.period_milliseconds > 0,
    {
        1000int / (self.period_milliseconds as int)
    }
}

/// The limit of the general endpoints: eight at once, and one a second.
pub fn api_group() -> (group: RateLimitGroup)
    ensures
        group == (RateLimitGroup { period_milliseconds: 1000, burst_size: 8 }),
        group.per_second() == 1,
{
    RateLimitGroup { period_milliseconds: 1000, burst_size: 8 }
}

/// The limit of the sign-in endpoints: two at once, and four a second.
pub fn auth_group() -> (group: RateLimitGroup)
    ensures
        group == (RateLimitGroup { period_milliseconds: 250, burst_size: 2 }),
        group.per_second() == 4,
{
    RateLimitGroup { period_milliseconds: 250, burst_size: 2 }
}

} // verus!
