//! Credential policies: who may pass, and what a denied caller is told.

use vstd::prelude::*;
use crate::text::str_eq;

verus! {

/// What a policy tells a caller with the wrong credentials unless it has a
/// message of its own.
pub const WRONG_CREDENTIALS: &'static str = "Wrong username or password.";

/// What a policy tells a caller who sent no password unless it has a message
/// of its own.
pub const NO_PASSWORD: &'static str = "No password found.";

/// A credential policy.
///
/// A policy is a pure judge: what it answers depends on the policy and on the
/// texts it is asked about, and on nothing else. The three spec functions say
/// what it answers; the three methods compute exactly that. A policy without
/// messages of its own returns [`WRONG_CREDENTIALS`] and [`NO_PASSWORD`].
///
/// For an implementation in verified code Verus proves that the methods
/// compute what the spec functions say. One in ordinary Rust writes the three
/// methods only, and whoever relies on a decision under it relies on their
/// being pure.
pub trait CheckAuth {
    /// Whether the policy lets `user` in with `pass`. A policy that does not
    /// say whom it accepts accepts nobody.
    open spec fn accepts(&self, user: Seq<char>, pass: Seq<char>) -> bool {
        false
    }

    /// What a caller with the wrong credentials is told.
    open spec fn wrong_credentials_text(&self, user: Seq<char>, pass: Seq<char>) -> Seq<char> {
        WRONG_CREDENTIALS@
    }

    /// What a caller who sent no password is told.
    open spec fn no_password_text(&self) -> Seq<char> {
        NO_PASSWORD@
    }

    /// Judges a username and a password.
    fn authorize(&self, user: &str, pass: &str) -> (ok: bool)
        ensures
            ok == self.accepts(user@, pass@),
    ;

    /// The message for a caller whose credentials were refused.
    fn wrong_credentials_error(&self, user: &str, pass: &str) -> (message: &'static str)
        ensures
            message@ == self.wrong_credentials_text(user@, pass@),
    ;

    /// The message for a caller who named a user and sent no password.
    fn no_password_error(&self) -> (message: &'static str)
        ensures
            message@ == self.no_password_text(),
    ;
}

/// Whether `policy` gives the usual two messages.
pub open spec fn gives_default_messages<P: CheckAuth + ?Sized>(policy: &P) -> bool {
    &&& forall|user: Seq<char>, pass: Seq<char>| #[trigger]
        policy.wrong_credentials_text(user, pass) == WRONG_CREDENTIALS@
    &&& policy.no_password_text() == NO_PASSWORD@
}

/// The policy of one fixed user: a username and a password, both of which must
/// match exactly.
pub struct SingleUser {
    username: String,
    password: String,
}

impl SingleUser {
    /// The username this policy lets in.
    pub closed spec fn username(&self) -> Seq<char> {
        self.username@
    }

    /// The password this policy asks for.
    pub closed spec fn password(&self) -> Seq<char> {
        self.password@
    }

    /// The policy that lets in `username` with `password` and nobody else.
    pub fn new(username: String, password: String) -> (policy: Self)
        ensures
            policy.username() == username@,
            policy.password() == password@,
            gives_default_messages(&policy),
    {
        SingleUser { username, password }
    }
}

impl CheckAuth for SingleUser {
    open spec fn accepts(&self, user: Seq<char>, pass: Seq<char>) -> bool {
        user == self.username() && pass == self.password()
    }

    fn authorize(&self, user: &str, pass: &str) -> (ok: bool)
        ensures
            ok <==> user@ == self.username() && pass@ == self.password(),
    {
        str_eq(user, self.username.as_str()) && str_eq(pass, self.password.as_str())
    }

    fn wrong_credentials_error(&self, user: &str, pass: &str) -> (message: &'static str) {
        WRONG_CREDENTIALS
    }

    fn no_password_error(&self) -> (message: &'static str) {
        NO_PASSWORD
    }
}

/// A judgement on a username and a password, as a function of the two texts.
pub type Judgement = spec_fn(Seq<char>, Seq<char>) -> bool;

/// Whether `predicate` answers as `judgement` says: it may be called on any two
/// texts, and whatever it returns for them is what `judgement` holds of them.
pub open spec fn answers_as<F: Fn(&str, &str) -> bool>(predicate: F, judgement: Judgement) -> bool {
    &&& forall|user: &str, pass: &str| call_requires(predicate, (user, pass))
    &&& forall|user: &str, pass: &str, ok: bool| #[trigger]
        call_ensures(predicate, (user, pass), ok) ==> ok == judgement(user@, pass@)
}

/// Whether `predicate` is a pure predicate on two texts: some judgement says
/// what it answers.
pub open spec fn is_pure_predicate<F: Fn(&str, &str) -> bool>(predicate: F) -> bool {
    exists|judgement: Judgement| answers_as(predicate, judgement)
}

/// The judgement that holds of two texts where `predicate` can return `true`
/// for them. A pure predicate answers as this judgement says.
pub open spec fn judgement_of<F: Fn(&str, &str) -> bool>(predicate: F) -> Judgement {
    |user: Seq<char>, pass: Seq<char>|
        exists|u: &str, p: &str|
            u@ == user && p@ == pass && #[trigger] call_ensures(predicate, (u, p), true)
}

/// A pure predicate answers as its own judgement says.
pub proof fn lemma_pure_predicate_answers<F: Fn(&str, &str) -> bool>(predicate: F)
    requires
        is_pure_predicate(predicate),
    ensures
        answers_as(predicate, judgement_of(predicate)),
{
    let judgement = choose|judgement: Judgement| answers_as(predicate, judgement);
    let derived = judgement_of(predicate);
    assert forall|user: &str, pass: &str, ok: bool| #[trigger]
        call_ensures(predicate, (user, pass), ok) implies ok == derived(user@, pass@) by {
        if derived(user@, pass@) {
            let (u, p) = choose|u: &str, p: &str|
                u@ == user@ && p@ == pass@ && #[trigger] call_ensures(predicate, (u, p), true);
            assert(judgement(u@, p@));
        }
    }
}

/// A policy made of a predicate: whoever the predicate accepts may pass.
pub struct ClosurePolicy<F: Fn(&str, &str) -> bool> {
    predicate: F,
    judgement: Ghost<Judgement>,
}

impl<F: Fn(&str, &str) -> bool> ClosurePolicy<F> {
    #[verifier::type_invariant]
    spec fn wf(self) -> bool {
        answers_as(self.predicate, self.judgement@)
    }

    /// The policy that lets in whom `predicate` accepts. The predicate must
    /// be pure: what it answers depends on the two texts alone.
    pub fn new(predicate: F) -> (policy: Self)
        requires
            is_pure_predicate(predicate),
        ensures
            forall|user: Seq<char>, pass: Seq<char>| #[trigger]
                policy.accepts(user, pass) == judgement_of(predicate)(user, pass),
            gives_default_messages(&policy),
    {
        proof {
            lemma_pure_predicate_answers(predicate);
        }
        ClosurePolicy { predicate, judgement: Ghost(judgement_of(predicate)) }
    }

    /// The policy that lets in whom `predicate` accepts, where the caller knows
    /// the judgement that `predicate` computes.
    pub fn with_judgement(predicate: F, judgement: Ghost<Judgement>) -> (policy: Self)
        requires
            answers_as(predicate, judgement@),
        ensures
            forall|user: Seq<char>, pass: Seq<char>| #[trigger]
                policy.accepts(user, pass) == judgement@(user, pass),
            gives_default_messages(&policy),
    {
        ClosurePolicy { predicate, judgement }
    }
}

impl<F: Fn(&str, &str) -> bool> CheckAuth for ClosurePolicy<F> {
    closed spec fn accepts(&self, user: Seq<char>, pass: Seq<char>) -> bool {
        (self.judgement@)(user, pass)
    }

    fn authorize(&self, user: &str, pass: &str) -> (ok: bool) {
        proof {
            use_type_invariant(self);
        }
        (self.predicate)(user, pass)
    }

    fn wrong_credentials_error(&self, user: &str, pass: &str) -> (message: &'static str) {
        WRONG_CREDENTIALS
    }

    fn no_password_error(&self) -> (message: &'static str) {
        NO_PASSWORD
    }
}

} // verus!
