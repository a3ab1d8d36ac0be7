//! How the CLI ends on an error: its exit status and the hint it shows.
//! The messages and hints themselves are looked up in the message catalog by the caller from
//! the keys given here.
use vstd::prelude::*;

verus! {

/// The exit status of a cancelled command.
pub const EXIT_CANCELLED: u8 = 2;

/// The exit status when the platform cannot be reached.
pub const EXIT_NETWORK: u8 = 3;

/// The exit status when the user must log in again.
pub const EXIT_NOT_LOGGED_IN: u8 = 4;

/// The exit status of any other failure.
pub const EXIT_FAILURE: u8 = 1;

/// What kind of error ended a command.
#[derive(Debug, Clone, Copy, PartialEq, Eq)]
pub enum FailureKind {
    NotLoggedIn,
    TokenExpired,
    Cancelled,
    /// An error of the platform client: whether it is a network error, a
    /// timeout, or a bad URL.
    Api { network: bool, timeout: bool, bad_url: bool },
    Config,
    Token,
    Io,
    Other,
}

pub open spec fn exit_status(k: FailureKind) -> u8 {
    match k {
        FailureKind::NotLoggedIn | FailureKind::TokenExpired => EXIT_NOT_LOGGED_IN,
        FailureKind::Cancelled => EXIT_CANCELLED,
        FailureKind::Api { network: true, .. } => EXIT_NETWORK,
        _ => EXIT_FAILURE,
    }
}

/// The exit status: needing a login, a cancellation and a network error
/// each have their own.
pub fn exit_code(k: FailureKind) -> (r: u8)
    ensures
        r == exit_status(k),
{
    match k {
        FailureKind::NotLoggedIn | FailureKind::TokenExpired => EXIT_NOT_LOGGED_IN,
        FailureKind::Cancelled => EXIT_CANCELLED,
        FailureKind::Api { network: true, .. } => EXIT_NETWORK,
        _ => EXIT_FAILURE,
    }
}

/// The key of the hint shown after an error, if any: a timeout before a
/// network error, a bad URL and a configuration error alike.
pub open spec fn hint_key_spec(k: FailureKind) -> Option<Seq<char>> {
    match k {
        FailureKind::NotLoggedIn => Some("hint-not-logged-in"@),
        FailureKind::TokenExpired => Some("hint-token-expired"@),
        FailureKind::Api { timeout: true, .. } => Some("hint-timeout"@),
        FailureKind::Api { network: true, .. } => Some("hint-network"@),
        FailureKind::Api { bad_url: true, .. } => Some("hint-config"@),
        FailureKind::Config => Some("hint-config"@),
        FailureKind::Token => Some("hint-token-storage"@),
        _ => None,
    }
}

pub fn hint_key(k: FailureKind) -> (r: Option<&'static str>)
    ensures
        match r {
            Some(s) => hint_key_spec(k) == Some(s@),
            None => hint_key_spec(k) is None,
        },
{
    match k {
        FailureKind::NotLoggedIn => Some("hint-not-logged-in"),
        FailureKind::TokenExpired => Some("hint-token-expired"),
        FailureKind::Api { timeout: true, .. } => Some("hint-timeout"),
        FailureKind::Api { network: true, .. } => Some("hint-network"),
        FailureKind::Api { bad_url: true, .. } => Some("hint-config"),
        FailureKind::Config => Some("hint-config"),
        FailureKind::Token => Some("hint-token-storage"),
        _ => None,
    }
}

/// A cancellation is reported as such, not as an error.
pub fn is_cancelled(k: FailureKind) -> (r: bool)
    ensures
        r == (k == FailureKind::Cancelled),
{
    matches!(k, FailureKind::Cancelled)
}

} // verus!
