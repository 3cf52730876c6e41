//! The error type shared by every fallible operation of the crate.
use vstd::prelude::*;
use vstd::string::*;

verus! {

/// The error that the HTTP client reports; carried through untouched.
#[verifier::external_type_specification]
#[verifier::external_body]
pub struct ExReqwestError(reqwest::Error);

/// What can go wrong: a bad configuration, a bad token, a failed transfer,
/// or an answer from GitHub that cannot be used.
pub enum AppError {
    Config(String),
    Auth(String),
    Network(reqwest::Error),
    GitHub(String),
}

/// An error as the contracts see it: its kind and its message.
pub enum AppErrorView {
    Config(Seq<char>),
    Auth(Seq<char>),
    Network(reqwest::Error),
    GitHub(Seq<char>),
}

impl View for AppError {
    type V = AppErrorView;

    open spec fn view(&self) -> AppErrorView {
        match self {
            AppError::Config(m) => AppErrorView::Config(m@),
            AppError::Auth(m) => AppErrorView::Auth(m@),
            AppError::Network(e) => AppErrorView::Network(*e),
            AppError::GitHub(m) => AppErrorView::GitHub(m@),
        }
    }
}

/// The words that open the message of each kind of error.
pub open spec fn error_prefix(v: AppErrorView) -> Seq<char> {
    match v {
        AppErrorView::Config(_) => "Configuration error: "@,
        AppErrorView::Auth(_) => "Authentication error: "@,
        AppErrorView::Network(_) => "Network error: "@,
        AppErrorView::GitHub(_) => "GitHub API error: "@,
    }
}

/// The text of a transfer error: "Network error: ", then what the HTTP
/// client's `Display` writes for it.
pub open spec fn network_text(e: reqwest::Error, t: Seq<char>) -> bool {
    exists|d: String| #[trigger] to_string_from_display_ensures::<reqwest::Error>(&e, d) && t == "Network error: "@ + d@
}

impl AppError {
    /// Builds a configuration error with the given message.
    pub fn config(msg: &str) -> (e: AppError)
        ensures
            e@ == AppErrorView::Config(msg@),
    {
        AppError::Config(String::from_str(msg))
    }

    /// Builds an authentication error with the given message.
    pub fn auth(msg: &str) -> (e: AppError)
        ensures
            e@ == AppErrorView::Auth(msg@),
    {
        AppError::Auth(String::from_str(msg))
    }

    /// Builds an error about GitHub's answer with the given message.
    pub fn github(msg: &str) -> (e: AppError)
        ensures
            e@ == AppErrorView::GitHub(msg@),
    {
        AppError::GitHub(String::from_str(msg))
    }

    /// The text shown to the user: the kind's prefix, then the message
    /// (for a transfer error, the HTTP client's own description of it).
    pub fn message(&self) -> (s: String)
        ensures
            s@.len() >= error_prefix(self@).len(),
            s@.subrange(0, error_prefix(self@).len() as int) == error_prefix(self@),
            match self@ {
                AppErrorView::Config(m) => s@ == error_prefix(self@) + m,
                AppErrorView::Auth(m) => s@ == error_prefix(self@) + m,
                AppErrorView::GitHub(m) => s@ == error_prefix(self@) + m,
                AppErrorView::Network(e) => network_text(e, s@),
            },
    {
        proof {
            reveal_strlit("Configuration error: ");
            reveal_strlit("Authentication error: ");
            reveal_strlit("Network error: ");
            reveal_strlit("GitHub API error: ");
        }
        match self {
            AppError::Config(m) => {
                let s = String::from_str("Configuration error: ").concat(m.as_str());
                assert(s@.subrange(0, error_prefix(self@).len() as int) =~= error_prefix(self@));
                s
            },
            AppError::Auth(m) => {
                let s = String::from_str("Authentication error: ").concat(m.as_str());
                assert(s@.subrange(0, error_prefix(self@).len() as int) =~= error_prefix(self@));
                s
            },
            AppError::Network(e) => {
                let detail = e.to_string();
                let s = String::from_str("Network error: ").concat(detail.as_str());
                assert(s@.subrange(0, error_prefix(self@).len() as int) =~= error_prefix(self@));
                assert(to_string_from_display_ensures::<reqwest::Error>(e, detail));
                s
            },
            AppError::GitHub(m) => {
                let s = String::from_str("GitHub API error: ").concat(m.as_str());
                assert(s@.subrange(0, error_prefix(self@).len() as int) =~= error_prefix(self@));
                s
            },
        }
    }
}

} // verus!
