//! Where the access token comes from: the decisions between the places at
//! which credentials are kept.

use vstd::prelude::*;

verus! {

/// What one place holds.
#[derive(Debug)]
pub enum Credentials {
    /// What is kept there is no credentials document.
    Invalid,
    /// A credentials document without an OAuth entry.
    NoToken,
    /// A credentials document with this access token.
    Token(String),
}

/// What a [`Credentials`] holds.
pub enum CredentialsView {
    Invalid,
    NoToken,
    Token(Seq<char>),
}

impl View for Credentials {
    type V = CredentialsView;

    open spec fn view(&self) -> CredentialsView {
        match self {
            Credentials::Invalid => CredentialsView::Invalid,
            Credentials::NoToken => CredentialsView::NoToken,
            Credentials::Token(t) => CredentialsView::Token(t@),
        }
    }
}

/// What was found at the places where credentials are kept.
pub struct CredentialSources {
    /// Whether the system keeps credentials in a keychain.
    pub macos: bool,
    /// What the keychain answered; `None` where it could not be asked or
    /// refused.
    pub keychain: Option<Credentials>,
    /// The credentials file in the configured directory; `None` where no
    /// directory is configured or the file cannot be read.
    pub config_dir: Option<Credentials>,
    /// The credentials file in the home directory; `None` where it cannot
    /// be read.
    pub home: Option<Credentials>,
}

/// What an optional place holds.
pub open spec fn place_view(place: Option<Credentials>) -> Option<CredentialsView> {
    match place {
        Some(c) => Some(c@),
        None => None,
    }
}

/// The token that a place holds.
pub open spec fn token_at(place: Option<CredentialsView>) -> Option<Seq<char>> {
    match place {
        Some(CredentialsView::Token(t)) => Some(t),
        _ => None,
    }
}

/// The token by the files: that of the configured directory, else that of
/// the home directory.
pub open spec fn file_token(
    config_dir: Option<CredentialsView>,
    home: Option<CredentialsView>,
) -> Option<Seq<char>> {
    match token_at(config_dir) {
        Some(t) => Some(t),
        None => token_at(home),
    }
}

/// The token by the keychain: what it answered decides, also where that
/// holds no token; the files are asked only where the keychain did not
/// answer.
pub open spec fn keychain_token(
    keychain: Option<CredentialsView>,
    config_dir: Option<CredentialsView>,
    home: Option<CredentialsView>,
) -> Option<Seq<char>> {
    match keychain {
        Some(_) => token_at(keychain),
        None => file_token(config_dir, home),
    }
}

/// The access token: by the keychain where the system has one, else by the
/// files.
pub open spec fn oauth_token(
    macos: bool,
    keychain: Option<CredentialsView>,
    config_dir: Option<CredentialsView>,
    home: Option<CredentialsView>,
) -> Option<Seq<char>> {
    if macos {
        keychain_token(keychain, config_dir, home)
    } else {
        file_token(config_dir, home)
    }
}

/// What an optional text holds.
pub open spec fn text_view(text: Option<String>) -> Option<Seq<char>> {
    match text {
        Some(t) => Some(t@),
        None => None,
    }
}

fn token_of(place: &Option<Credentials>) -> (r: Option<String>)
    ensures
        text_view(r) == token_at(place_view(*place)),
{
    match place {
        Some(Credentials::Token(t)) => Some(t.clone()),
        _ => None,
    }
}

/// The token by the files.
pub fn get_oauth_token_file(sources: &CredentialSources) -> (r: Option<String>)
    ensures
        text_view(r) == file_token(place_view(sources.config_dir), place_view(sources.home)),
{
    match token_of(&sources.config_dir) {
        Some(t) => Some(t),
        None => token_of(&sources.home),
    }
}

/// The token by the keychain, with the files behind it.
pub fn get_oauth_token_macos(sources: &CredentialSources) -> (r: Option<String>)
    ensures
        text_view(r) == keychain_token(
            place_view(sources.keychain),
            place_view(sources.config_dir),
            place_view(sources.home),
        ),
{
    match &sources.keychain {
        Some(_) => token_of(&sources.keychain),
        None => get_oauth_token_file(sources),
    }
}

/// The access token.
pub fn get_oauth_token(sources: &CredentialSources) -> (r: Option<String>)
    ensures
        text_view(r) == oauth_token(
            sources.macos,
            place_view(sources.keychain),
            place_view(sources.config_dir),
            place_view(sources.home),
        ),
{
    if sources.macos {
        get_oauth_token_macos(sources)
    } else {
        get_oauth_token_file(sources)
    }
}

} // verus!
