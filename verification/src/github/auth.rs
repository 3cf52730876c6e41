//! The personal access token and its format check.
use vstd::prelude::*;
use vstd::string::*;

use crate::error::{AppError, AppErrorView};
use crate::text::str_starts_with;

verus! {

/// A GitHub personal access token.
pub struct Auth {
    token: String,
}

/// A token that GitHub issues begins with one of these two prefixes.
pub open spec fn has_token_prefix(t: Seq<char>) -> bool {
    ||| t.len() >= 4 && t.subrange(0, 4) == "ghp_"@
    ||| t.len() >= 11 && t.subrange(0, 11) == "github_pat_"@
}

/// What `validate` answers for a token: nothing for a well-formed one,
/// else the authentication error that names the fault.
pub open spec fn validation_result(t: Seq<char>) -> Option<AppErrorView> {
    if t.len() == 0 {
        Some(AppErrorView::Auth("Token is empty"@))
    } else if !has_token_prefix(t) {
        Some(
            AppErrorView::Auth(
                "Invalid token format. Expected token starting with 'ghp_' or 'github_pat_'"@,
            ),
        )
    } else {
        None
    }
}

impl View for Auth {
    type V = Seq<char>;

    closed spec fn view(&self) -> Seq<char> {
        self.token@
    }
}

impl Auth {
    /// Wraps a token; nothing is checked here.
    pub fn new(token: String) -> (a: Auth)
        ensures
            a@ == token@,
    {
        Auth { token }
    }

    /// The token as it was given.
    pub fn token(&self) -> (t: &str)
        ensures
            t@ == self@,
    {
        self.token.as_str()
    }

    /// Accepts a non-empty token that begins with `ghp_` or `github_pat_`.
    pub fn validate(&self) -> (r: Result<(), AppError>)
        ensures
            r is Ok <==> validation_result(self@) is None,
            r matches Err(e) ==> Some(e@) == validation_result(self@),
    {
        let t = self.token.as_str();
        proof {
            reveal_strlit("ghp_");
            reveal_strlit("github_pat_");
        }
        if t.is_empty() {
            return Err(AppError::auth("Token is empty"));
        }
        if !str_starts_with(t, "ghp_") && !str_starts_with(t, "github_pat_") {
            return Err(
                AppError::auth(
                    "Invalid token format. Expected token starting with 'ghp_' or 'github_pat_'",
                ),
            );
        }
        Ok(())
    }
}

} // verus!
