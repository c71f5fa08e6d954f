//! What holds of every decision, whatever the policy and the request.

use vstd::prelude::*;
use crate::credentials::{parser_takes, CredentialsView};
use crate::decision::{challenge, decision_for, decision_on_lines, DecisionView, UNAUTHORIZED};
use crate::error::AuthError;
use crate::policy::CheckAuth;

verus! {

/// A request without an `Authorization` header, and so without credentials, is
/// denied with status 401, a message that is not empty and the challenge
/// `Basic realm="main"`.
pub proof fn lemma_no_credentials_are_challenged<P: CheckAuth + ?Sized>(policy: &P)
    ensures
        decision_on_lines(policy, None) == challenge(),
        decision_for(policy, None) == challenge(),
        challenge() matches DecisionView::Deny { status, message, challenge }
            && status == UNAUTHORIZED && message.len() > 0 && challenge == Some(
            "Basic realm=\"main\""@,
        ),
{
    reveal_strlit("authentication error");
    assert(AuthError::text().len() > 0);
}

/// A request whose header lines the parser cannot be given is treated as one
/// without credentials: it is challenged.
pub proof fn lemma_unreadable_lines_are_challenged<P: CheckAuth + ?Sized>(
    policy: &P,
    lines: Seq<Seq<u8>>,
)
    requires
        !parser_takes(lines),
    ensures
        decision_on_lines(policy, Some(lines)) == challenge(),
{
}

/// Credentials without a password, or with an empty one, are denied with the
/// policy's message for a missing password and without a challenge, whoever
/// the user is.
pub proof fn lemma_missing_password_is_refused<P: CheckAuth + ?Sized>(
    policy: &P,
    credentials: CredentialsView,
)
    requires
        !credentials.has_password(),
    ensures
        decision_for(policy, Some(credentials)) == (DecisionView::Deny {
            status: UNAUTHORIZED,
            message: policy.no_password_text(),
            challenge: None,
        }),
{
}

/// Credentials with a password that the policy does not accept are denied
/// with the policy's message for these very credentials and without a
/// challenge.
pub proof fn lemma_wrong_credentials_are_refused<P: CheckAuth + ?Sized>(
    policy: &P,
    user: Seq<char>,
    pass: Seq<char>,
)
    requires
        pass.len() > 0,
        !policy.accepts(user, pass),
    ensures
        decision_for(policy, Some(CredentialsView { username: user, password: Some(pass) }))
            == (DecisionView::Deny {
            status: UNAUTHORIZED,
            message: policy.wrong_credentials_text(user, pass),
            challenge: None,
        }),
{
}

/// Credentials with a password that the policy accepts pass, and nothing else
/// does.
pub proof fn lemma_allowed_iff_accepted<P: CheckAuth + ?Sized>(
    policy: &P,
    credentials: Option<CredentialsView>,
)
    ensures
        decision_for(policy, credentials) == DecisionView::Allow <==> (credentials matches Some(c)
            && c.has_password() && policy.accepts(c.username, c.password->0)),
{
}

/// No state is kept: two decisions under one policy on the same credentials
/// are the same decision.
pub proof fn lemma_same_request_same_decision<P: CheckAuth + ?Sized>(
    policy: &P,
    credentials: Option<CredentialsView>,
    first: DecisionView,
    second: DecisionView,
)
    requires
        first == decision_for(policy, credentials),
        second == decision_for(policy, credentials),
    ensures
        first == second,
{
}

/// The same holds from the header's lines on: two decisions under one policy
/// on the same lines are the same decision.
pub proof fn lemma_same_lines_same_decision<P: CheckAuth + ?Sized>(
    policy: &P,
    lines: Option<Seq<Seq<u8>>>,
    first: DecisionView,
    second: DecisionView,
)
    requires
        first == decision_on_lines(policy, lines),
        second == decision_on_lines(policy, lines),
    ensures
        first == second,
{
}

} // verus!
