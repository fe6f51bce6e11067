//! The bridge's configuration: where ntfy is, how to authenticate to it,
//! and how the bridge itself is served.

use vstd::prelude::*;
use crate::text::{debug_quoted, str_debug_repr};

verus! {

/// How the bridge authenticates to the ntfy server.
#[derive(Clone)]
pub enum NtfyCredentials {
    NoCredentials,
    AuthToken(String),
    UsernamePassword(String, String),
}

/// The mathematical model of [`NtfyCredentials`].
pub enum CredentialsView {
    NoCredentials,
    AuthToken(Seq<char>),
    UsernamePassword(Seq<char>, Seq<char>),
}

impl View for NtfyCredentials {
    type V = CredentialsView;

    open spec fn view(&self) -> CredentialsView {
        match self {
            NtfyCredentials::NoCredentials => CredentialsView::NoCredentials,
            NtfyCredentials::AuthToken(t) => CredentialsView::AuthToken(t@),
            NtfyCredentials::UsernamePassword(u, p) => CredentialsView::UsernamePassword(u@, p@),
        }
    }
}

/// Username and password for ntfy, each given or not.
#[derive(Clone)]
pub struct Credentials {
    pub ntfy_username: Option<String>,
    pub ntfy_password: Option<String>,
}

/// Everything the bridge may be told about authenticating to ntfy.
#[derive(Clone)]
pub struct AuthConfig {
    pub credentials: Credentials,
    pub ntfy_token: Option<String>,
}

/// The bridge's configuration.
#[derive(Clone)]
pub struct Config {
    pub ntfy_url: String,
    pub ntfy_auth: AuthConfig,
    pub api_token: Option<String>,
    pub listen_addr: String,
    pub base_path: String,
    pub log_level: String,
}

/// The mathematical model of a [`Config`].
pub struct ConfigView {
    pub ntfy_url: Seq<char>,
    pub ntfy_username: Option<Seq<char>>,
    pub ntfy_password: Option<Seq<char>>,
    pub ntfy_token: Option<Seq<char>>,
    pub api_token: Option<Seq<char>>,
    pub listen_addr: Seq<char>,
    pub base_path: Seq<char>,
    pub log_level: Seq<char>,
}

impl View for Config {
    type V = ConfigView;

    open spec fn view(&self) -> ConfigView {
        ConfigView {
            ntfy_url: self.ntfy_url@,
            ntfy_username: self.ntfy_auth.credentials.ntfy_username.deep_view(),
            ntfy_password: self.ntfy_auth.credentials.ntfy_password.deep_view(),
            ntfy_token: self.ntfy_auth.ntfy_token.deep_view(),
            api_token: self.api_token.deep_view(),
            listen_addr: self.listen_addr@,
            base_path: self.base_path@,
            log_level: self.log_level@,
        }
    }
}

/// The credentials that an authentication configuration selects: the access
/// token where one is given; else username and password where both are
/// given; else none.
pub open spec fn credentials_of(auth: AuthConfig) -> CredentialsView {
    if auth.ntfy_token is Some {
        CredentialsView::AuthToken(auth.ntfy_token->Some_0@)
    } else if auth.credentials.ntfy_username is Some && auth.credentials.ntfy_password is Some {
        CredentialsView::UsernamePassword(
            auth.credentials.ntfy_username->Some_0@,
            auth.credentials.ntfy_password->Some_0@,
        )
    } else {
        CredentialsView::NoCredentials
    }
}

/// How credentials are shown: secrets are replaced by `***`.
pub open spec fn credentials_display(c: CredentialsView) -> Seq<char> {
    match c {
        CredentialsView::NoCredentials => "None"@,
        CredentialsView::AuthToken(_) => "AuthToken(***)"@,
        CredentialsView::UsernamePassword(u, _) => "UsernamePassword("@ + u + ", ***)"@,
    }
}

/// How an optional text is shown in debug form.
pub open spec fn option_debug(o: Option<Seq<char>>) -> Seq<char> {
    match o {
        Some(s) => "Some("@ + str_debug_repr(s) + ")"@,
        None => "None"@,
    }
}

/// How an optional secret is shown in debug form: whether it is there, never
/// what it is.
pub open spec fn masked_debug(o: Option<Seq<char>>) -> Seq<char> {
    match o {
        Some(_) => "Some(\"***\")"@,
        None => "None"@,
    }
}

pub open spec fn credentials_debug(c: Credentials) -> Seq<char> {
    "Credentials { ntfy_username: "@ + option_debug(c.ntfy_username.deep_view())
        + ", ntfy_password: "@ + masked_debug(c.ntfy_password.deep_view()) + " }"@
}

pub open spec fn auth_config_debug(a: AuthConfig) -> Seq<char> {
    "AuthConfig { credentials: "@ + credentials_debug(a.credentials)
        + ", ntfy_token: "@ + masked_debug(a.ntfy_token.deep_view()) + " }"@
}

pub open spec fn config_display(c: Config) -> Seq<char> {
    "Config { ntfy_url: "@ + str_debug_repr(c.ntfy_url@)
        + ", ntfy_auth: "@ + credentials_display(credentials_of(c.ntfy_auth))
        + ", api_token: "@ + masked_debug(c.api_token.deep_view())
        + ", listen_addr: "@ + str_debug_repr(c.listen_addr@)
        + ", base_path: "@ + str_debug_repr(c.base_path@)
        + ", log_level: "@ + str_debug_repr(c.log_level@) + " }"@
}

fn option_debug_string(o: &Option<String>) -> (r: String)
    ensures
        r@ == option_debug(o.deep_view()),
{
    match o {
        Some(s) => String::from_str("Some(").concat(debug_quoted(s.as_str()).as_str()).concat(")"),
        None => String::from_str("None"),
    }
}

fn masked_debug_string(o: &Option<String>) -> (r: String)
    ensures
        r@ == masked_debug(o.deep_view()),
{
    match o {
        Some(_) => String::from_str("Some(\"***\")"),
        None => String::from_str("None"),
    }
}

impl NtfyCredentials {
    /// The credentials as they are shown to people, secrets masked.
    pub fn to_display_string(&self) -> (r: String)
        ensures
            r@ == credentials_display(self@),
    {
        match self {
            NtfyCredentials::NoCredentials => String::from_str("None"),
            NtfyCredentials::AuthToken(_) => String::from_str("AuthToken(***)"),
            NtfyCredentials::UsernamePassword(username, _) => {
                String::from_str("UsernamePassword(").concat(username.as_str()).concat(", ***)")
            },
        }
    }
}

impl Credentials {
    /// The debug rendering, password masked.
    pub fn to_debug_string(&self) -> (r: String)
        ensures
            r@ == credentials_debug(*self),
    {
        let mut r = String::from_str("Credentials { ntfy_username: ");
        r.append(option_debug_string(&self.ntfy_username).as_str());
        r.append(", ntfy_password: ");
        r.append(masked_debug_string(&self.ntfy_password).as_str());
        r.append(" }");
        r
    }
}

impl AuthConfig {
    /// The debug rendering, password and token masked.
    pub fn to_debug_string(&self) -> (r: String)
        ensures
            r@ == auth_config_debug(*self),
    {
        let mut r = String::from_str("AuthConfig { credentials: ");
        r.append(self.credentials.to_debug_string().as_str());
        r.append(", ntfy_token: ");
        r.append(masked_debug_string(&self.ntfy_token).as_str());
        r.append(" }");
        r
    }
}

impl Config {
    pub fn ntfy_url(&self) -> (r: &str)
        ensures
            r@ == self.ntfy_url@,
    {
        self.ntfy_url.as_str()
    }

    /// The credentials to authenticate to ntfy with: the access token where
    /// one is configured, else username and password where both are, else
    /// none.
    pub fn ntfy_credentials(&self) -> (r: NtfyCredentials)
        ensures
            r@ == credentials_of(self.ntfy_auth),
            self.ntfy_auth.ntfy_token matches Some(t) ==> r@ == CredentialsView::AuthToken(t@),
            self.ntfy_auth.ntfy_token is None && self.ntfy_auth.credentials.ntfy_username is Some
                && self.ntfy_auth.credentials.ntfy_password is Some ==> r@ == CredentialsView::UsernamePassword(
                self.ntfy_auth.credentials.ntfy_username->Some_0@,
                self.ntfy_auth.credentials.ntfy_password->Some_0@,
            ),
            self.ntfy_auth.ntfy_token is None && (self.ntfy_auth.credentials.ntfy_username is None
                || self.ntfy_auth.credentials.ntfy_password is None) ==> r@ == CredentialsView::NoCredentials,
    {
        if let Some(token) = &self.ntfy_auth.ntfy_token {
            return NtfyCredentials::AuthToken(token.clone());
        }
        match (&self.ntfy_auth.credentials.ntfy_username, &self.ntfy_auth.credentials.ntfy_password) {
            (Some(username), Some(password)) => {
                NtfyCredentials::UsernamePassword(username.clone(), password.clone())
            },
            _ => NtfyCredentials::NoCredentials,
        }
    }

    pub fn listen_addr(&self) -> (r: &str)
        ensures
            r@ == self.listen_addr@,
    {
        self.listen_addr.as_str()
    }

    pub fn api_token(&self) -> (r: Option<&str>)
        ensures
            r.deep_view() == self.api_token.deep_view(),
    {
        match &self.api_token {
            Some(t) => Some(t.as_str()),
            None => None,
        }
    }

    pub fn base_path(&self) -> (r: &str)
        ensures
            r@ == self.base_path@,
    {
        self.base_path.as_str()
    }

    pub fn log_level(&self) -> (r: &str)
        ensures
            r@ == self.log_level@,
    {
        self.log_level.as_str()
    }

    /// The configuration as it is shown to people: every field, with the
    /// API token and the ntfy secrets masked.
    pub fn to_display_string(&self) -> (r: String)
        ensures
            r@ == config_display(*self),
    {
        let mut r = String::from_str("Config { ntfy_url: ");
        r.append(debug_quoted(self.ntfy_url.as_str()).as_str());
        r.append(", ntfy_auth: ");
        r.append(self.ntfy_credentials().to_display_string().as_str());
        r.append(", api_token: ");
        r.append(masked_debug_string(&self.api_token).as_str());
        r.append(", listen_addr: ");
        r.append(debug_quoted(self.listen_addr.as_str()).as_str());
        r.append(", base_path: ");
        r.append(debug_quoted(self.base_path.as_str()).as_str());
        r.append(", log_level: ");
        r.append(debug_quoted(self.log_level.as_str()).as_str());
        r.append(" }");
        r
    }
}

/// Showing a configuration never shows a secret: two configurations that
/// differ only in the values of the ntfy password, the ntfy access token and
/// the API token (not in which of them are set) are shown alike, in the
/// display form and in the debug form of their ntfy authentication.
pub proof fn lemma_display_hides_secrets(a: Config, b: Config)
    requires
        a.ntfy_url@ == b.ntfy_url@,
        a.listen_addr@ == b.listen_addr@,
        a.base_path@ == b.base_path@,
        a.log_level@ == b.log_level@,
        a.ntfy_auth.credentials.ntfy_username.deep_view() == b.ntfy_auth.credentials.ntfy_username.deep_view(),
        a.ntfy_auth.credentials.ntfy_password is Some <==> b.ntfy_auth.credentials.ntfy_password is Some,
        a.ntfy_auth.ntfy_token is Some <==> b.ntfy_auth.ntfy_token is Some,
        a.api_token is Some <==> b.api_token is Some,
    ensures
        config_display(a) == config_display(b),
        auth_config_debug(a.ntfy_auth) == auth_config_debug(b.ntfy_auth),
{
}

/// Which credentials a configuration selects: an access token, where one is
/// configured, wins whatever the username and password; without a token,
/// username and password are used when both are set; otherwise none. The
/// shown configuration names the same kind of credentials.
pub proof fn lemma_token_wins_over_username_and_password(auth: AuthConfig, c: Config)
    ensures
        auth.ntfy_token matches Some(t) ==> credentials_of(auth) == CredentialsView::AuthToken(t@),
        auth.ntfy_token is None && auth.credentials.ntfy_username is Some && auth.credentials.ntfy_password is Some
            ==> credentials_of(auth) == CredentialsView::UsernamePassword(
            auth.credentials.ntfy_username->Some_0@,
            auth.credentials.ntfy_password->Some_0@,
        ),
        auth.ntfy_token is None && (auth.credentials.ntfy_username is None || auth.credentials.ntfy_password is None)
            ==> credentials_of(auth) == CredentialsView::NoCredentials,
        c.ntfy_auth.ntfy_token is Some ==> config_display(c) == "Config { ntfy_url: "@ + str_debug_repr(c.ntfy_url@)
            + ", ntfy_auth: "@ + "AuthToken(***)"@ + ", api_token: "@ + masked_debug(c.api_token.deep_view())
            + ", listen_addr: "@ + str_debug_repr(c.listen_addr@) + ", base_path: "@ + str_debug_repr(c.base_path@)
            + ", log_level: "@ + str_debug_repr(c.log_level@) + " }"@,
{
}

} // verus!
