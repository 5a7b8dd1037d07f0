//! The sign-in endpoint: exchanges an authorization code for a bearer
//! credential, in three steps that each may fail.

use vstd::prelude::*;

verus! {

/// Where the identity provider exchanges authorization codes.
pub const TOKEN_ENDPOINT: &'static str = "https://discord.com/api/oauth2/token";

/// Where the identity provider describes the holder of an access token.
pub const USER_ENDPOINT: &'static str = "https://discord.com/api/users/@me";

/// The step of signing in that failed.
#[derive(Debug, Clone, Copy, PartialEq, Eq, Structural)]
pub enum TokenFailure {
    /// The identity provider gave no access token for the code.
    Exchange,
    /// The identity provider did not say whose access token it is.
    User,
    /// The bearer credential could not be made.
    Credential,
}

impl TokenFailure {
    /// What the client is told.
    pub fn text(&self) -> (text: &'static str)
        ensures
            text@ == (match *self {
                TokenFailure::Exchange => "failed to get token"@,
                TokenFailure::User => "failed to get user"@,
                TokenFailure::Credential => "failed to create token"@,
            }),
    {
        match self {
            TokenFailure::Exchange => "failed to get token",
            TokenFailure::User => "failed to get user",
            TokenFailure::Credential => "failed to create token",
        }
    }
}

/// A field of the form that is sent to the identity provider.
#[derive(Debug, Clone, PartialEq, Eq)]
pub struct FormField {
    pub name: String,
    pub value: String,
}

/// Whether `form` asks to exchange `code` on behalf of the application.
pub open spec fn exchanges(
    form: Seq<FormField>,
    client_id: Seq<char>,
    client_secret: Seq<char>,
    code: Seq<char>,
) -> bool {
    &&& form.len() == 4
    &&& form[0].name@ == "client_id"@ && form[0].value@ == client_id
    &&& form[1].name@ == "client_secret"@ && form[1].value@ == client_secret
    &&& form[2].name@ == "grant_type"@ && form[2].value@ == "authorization_code"@
    &&& form[3].name@ == "code"@ && form[3].value@ == code
}

/// The form that exchanges an authorization code for an access token.
pub fn get_discord_oauth_token(client_id: &str, client_secret: &str, code: &str) -> (form: Vec<
    FormField,
>)
    ensures
        exchanges(form@, client_id@, client_secret@, code@),
{
    let mut form: Vec<FormField> = Vec::new();
    form.push(FormField { name: "client_id".to_owned(), value: client_id.to_owned() });
    form.push(FormField { name: "client_secret".to_owned(), value: client_secret.to_owned() });
    form.push(
        FormField { name: "grant_type".to_owned(), value: "authorization_code".to_owned() },
    );
    form.push(FormField { name: "code".to_owned(), value: code.to_owned() });
    form
}

} // verus!
