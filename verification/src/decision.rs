//! From a policy and the credentials of a request to a decision.

use vstd::prelude::*;
use crate::credentials::{credentials_in, read_authorization, Credentials, CredentialsView};
use crate::error::AuthError;
use crate::policy::CheckAuth;

verus! {

/// The status of every denial: 401, Unauthorized.
pub const UNAUTHORIZED: u16 = 401;

/// The name of the header that carries a challenge.
pub const CHALLENGE_HEADER: &'static str = "WWW-Authenticate";

/// The challenge for a caller who offered no credentials: the scheme and the
/// realm to offer them for.
pub const CHALLENGE: &'static str = "Basic realm=\"main\"";

/// What is decided for one request.
#[derive(Debug, Clone, Copy, PartialEq, Eq)]
pub enum Decision {
    /// The request may go on.
    Allow,
    /// The request is answered with `status`, with `message` as its body and,
    /// where there is one, a `WWW-Authenticate` header that holds `challenge`.
    Deny { status: u16, message: &'static str, challenge: Option<&'static str> },
}

/// A [`Decision`] with its texts as sequences of characters.
pub enum DecisionView {
    Allow,
    Deny { status: u16, message: Seq<char>, challenge: Option<Seq<char>> },
}

impl View for Decision {
    type V = DecisionView;

    open spec fn view(&self) -> DecisionView {
        match *self {
            Decision::Allow => DecisionView::Allow,
            Decision::Deny { status, message, challenge } => DecisionView::Deny {
                status,
                message: message@,
                challenge: match challenge {
                    Some(text) => Some(text@),
                    None => None,
                },
            },
        }
    }
}

/// A denial without a challenge.
pub open spec fn refusal(message: Seq<char>) -> DecisionView {
    DecisionView::Deny { status: UNAUTHORIZED, message, challenge: None }
}

/// The denial for a request without credentials: it carries the challenge.
pub open spec fn challenge() -> DecisionView {
    DecisionView::Deny {
        status: UNAUTHORIZED,
        message: AuthError::text(),
        challenge: Some(CHALLENGE@),
    }
}

/// What is decided under `policy` for a request with these credentials.
///
/// Without credentials the caller is challenged. Credentials without a
/// password, or with an empty one, are refused with the policy's message for
/// that. Any others go to the policy, which lets them pass or has them refused
/// with its message for wrong credentials.
pub open spec fn decision_for<P: CheckAuth + ?Sized>(
    policy: &P,
    credentials: Option<CredentialsView>,
) -> DecisionView {
    match credentials {
        None => challenge(),
        Some(c) => if !c.has_password() {
            refusal(policy.no_password_text())
        } else if policy.accepts(c.username, c.password->0) {
            DecisionView::Allow
        } else {
            refusal(policy.wrong_credentials_text(c.username, c.password->0))
        },
    }
}

/// Decides under `policy` on a request with these credentials.
pub fn decide<P: CheckAuth + ?Sized>(
    policy: &P,
    credentials: Option<&Credentials>,
) -> (decision: Decision)
    ensures
        decision@ == decision_for(policy, credentials.deep_view()),
{
    match credentials {
        None => Decision::Deny {
            status: UNAUTHORIZED,
            message: AuthError.description(),
            challenge: Some(CHALLENGE),
        },
        Some(c) => match &c.password {
            Some(password) if !password.as_str().is_empty() => {
                let user = c.username.as_str();
                let pass = password.as_str();
                if policy.authorize(user, pass) {
                    Decision::Allow
                } else {
                    Decision::Deny {
                        status: UNAUTHORIZED,
                        message: policy.wrong_credentials_error(user, pass),
                        challenge: None,
                    }
                }
            },
            _ => Decision::Deny {
                status: UNAUTHORIZED,
                message: policy.no_password_error(),
                challenge: None,
            },
        },
    }
}

/// What is decided under `policy` for a request whose `Authorization`
/// header has these lines, or has none.
pub open spec fn decision_on_lines<P: CheckAuth + ?Sized>(
    policy: &P,
    lines: Option<Seq<Seq<u8>>>,
) -> DecisionView {
    match lines {
        None => challenge(),
        Some(lines) => decision_for(policy, credentials_in(lines)),
    }
}

/// Decides under `policy` on a request before it is handled, from the lines
/// of its `Authorization` header, `None` where the request has no such header.
///
/// Lines that are not a well-formed header of the Basic scheme count as no
/// credentials at all.
pub fn before<P: CheckAuth + ?Sized>(
    policy: &P,
    lines: Option<&[Vec<u8>]>,
) -> (decision: Decision)
    ensures
        decision@ == decision_on_lines(policy, lines.deep_view()),
{
    match lines {
        None => decide(policy, None),
        Some(lines) => {
            let credentials = read_authorization(lines);
            decide(policy, credentials.as_ref())
        },
    }
}

} // verus!
