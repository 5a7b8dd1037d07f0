//! Sign-in: the exchange with the identity provider and the claims that a
//! bearer credential carries.

use vstd::prelude::*;

verus! {

/// What a client sends to sign in: the authorization code that the identity
/// provider gave it.
#[derive(Debug, Clone, PartialEq, Eq)]
pub struct TokenRequest {
    pub code: String,
}

/// What a client gets back when it has signed in.
#[derive(Debug, Clone, PartialEq, Eq)]
pub struct TokenResponse {
    /// The bearer credential.
    pub token: String,
    /// The identity provider's own access token.
    pub discord_access_token: String,
    /// How the credential is presented.
    pub token_type: String,
}

impl TokenResponse {
    /// The answer that carries a bearer credential and the identity
    /// provider's access token.
    pub fn new(token: &str, discord_access_token: &str) -> (response: TokenResponse)
        ensures
            response.token@ == token@,
            response.discord_access_token@ == discord_access_token@,
            response.token_type@ == "Bearer"@,
    {
        TokenResponse {
            token: token.to_owned(),
            token_type: "Bearer".to_owned(),
            discord_access_token: discord_access_token.to_owned(),
        }
    }
}

/// What the identity provider answers to an authorization code.
#[derive(Debug, Clone, PartialEq, Eq)]
pub struct DiscordTokenResponse {
    pub access_token: String,
    pub token_type: String,
    /// The number of seconds for which the access token is good.
    pub expires_in: i64,
    pub refresh_token: String,
    pub scope: String,
}

/// A user, as the identity provider describes them.
#[derive(Debug, Clone, PartialEq, Eq)]
pub struct User {
    pub id: u64,
    pub name: String,
    /// The name that the user chose to be shown under, if any.
    pub global_name: Option<String>,
    /// Where the user's own picture is, if they have one.
    pub avatar_url: Option<String>,
    /// Where the picture is that stands in for a missing one.
    pub default_avatar_url: String,
}

/// What a bearer credential says about its holder.
#[derive(Debug, Clone, PartialEq, Eq)]
pub struct Claims {
    /// The number of the user.
    pub sub: u64,
    /// The second, counted from the epoch, at which the credential ends.
    pub exp: i64,
    pub username: String,
    pub display_name: String,
    pub avatar: String,
    pub discord_access_token: String,
}

/// The second, counted from the epoch, that the clock shows, from
/// `chrono::Utc::now` and `timestamp`. Trusted: the clock is read as seconds
/// since the epoch and the count is never negative. Nothing else is claimed:
/// two readings may differ in any way.
#[verifier::external_body]
fn unix_now() -> (now: i64)
    ensures
        now >= 0,
{
    chrono::Utc::now().timestamp()
}

/// Whether `claims` are those of `user`, good until `expires_in` seconds
/// after `now`: the shown name is the chosen one or else the user name, the
/// picture the user's own or else the stand-in.
pub open spec fn claims_for(
    claims: Claims,
    user: User,
    token_response: DiscordTokenResponse,
    now: i64,
) -> bool {
    &&& claims.sub == user.id
    &&& claims.exp == token_response.expires_in + now
    &&& claims.username@ == user.name@
    &&& claims.display_name@ == (match user.global_name {
        Some(chosen) => chosen@,
        None => user.name@,
    })
    &&& claims.avatar@ == (match user.avatar_url {
        Some(own) => own@,
        None => user.default_avatar_url@,
    })
    &&& claims.discord_access_token@ == token_response.access_token@
}

impl Claims {
    /// The claims of a user who signed in at second `now`, unless the second
    /// at which they end cannot be counted.
    pub fn issued_at(user: &User, token_response: &DiscordTokenResponse, now: i64) -> (claims:
        Option<Claims>)
        ensures
            claims is Some <==> i64::MIN <= token_response.expires_in + now <= i64::MAX,
            claims is Some ==> claims_for(claims->0, *user, *token_response, now),
    {
        let exp = match token_response.expires_in.checked_add(now) {
            Some(exp) => exp,
            None => {
                return None;
            },
        };
        let display_name = match &user.global_name {
            Some(chosen) => chosen.clone(),
            None => user.name.clone(),
        };
        let avatar = match &user.avatar_url {
            Some(own) => own.clone(),
            None => user.default_avatar_url.clone(),
        };
        Some(
            Claims {
                sub: user.id,
                exp,
                username: user.name.clone(),
                display_name,
                avatar,
                discord_access_token: token_response.access_token.clone(),
            },
        )
    }

    /// The claims of a user who signs in now, unless the second at which they
    /// end cannot be counted. They end `expires_in` seconds after some second
    /// that is not before the epoch.
    pub fn new(user: &User, token_response: &DiscordTokenResponse) -> (claims: Option<Claims>)
        ensures
            claims is Some ==> exists|now: i64|
                now >= 0 && #[trigger] claims_for(claims->0, *user, *token_response, now),
            token_response.expires_in <= 0 ==> claims is Some,
    {
        let now = unix_now();
        Claims::issued_at(user, token_response, now)
    }
}

} // verus!
