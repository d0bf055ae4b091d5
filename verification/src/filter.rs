//! Who may ask for a benchmark, and how.
//!
//! An event asks for a benchmark if it is a new comment, written by an account
//! on the allow-list, that holds the trigger. An account is on the list only
//! if both its login and its numeric id are those of one entry: a login that
//! changed hands does not pass.

use crate::event::{User, UserView, WebhookEvent, WebhookEventView};
use crate::text::{contains, occurs_in};
use vstd::prelude::*;
use vstd::string::*;

verus! {

/// The rule that decides whether an event asks for a benchmark.
#[derive(Clone, Debug, PartialEq, Eq)]
pub struct Policy {
    /// The accounts that may ask.
    pub allowed: Vec<User>,
    /// The text that a comment must hold to ask.
    pub trigger: String,
}

/// The mathematical content of a [`Policy`].
pub struct PolicyView {
    pub allowed: Seq<UserView>,
    pub trigger: Seq<char>,
}

impl View for Policy {
    type V = PolicyView;

    open spec fn view(&self) -> PolicyView {
        PolicyView { allowed: self.allowed@.map_values(|u: User| u@), trigger: self.trigger@ }
    }
}

/// The action of an event that tells of a new comment.
pub open spec fn created() -> Seq<char> {
    "created"@
}

impl PolicyView {
    /// Whether an account is on the allow-list: one entry has both its login
    /// and its id.
    pub open spec fn admits(self, user: UserView) -> bool {
        exists|i: int|
            0 <= i < self.allowed.len() && (#[trigger] self.allowed[i]).login == user.login
                && self.allowed[i].id == user.id
    }

    /// Whether an event asks for a benchmark: it tells of a new comment, its
    /// author is on the allow-list, and its text holds the trigger.
    pub open spec fn permits(self, event: WebhookEventView) -> bool {
        &&& event.action == created()
        &&& self.admits(event.comment.user)
        &&& occurs_in(event.comment.body, self.trigger)
    }
}

/// An event that tells of anything but a new comment asks for nothing,
/// whoever wrote the comment and whatever it says.
pub proof fn lemma_only_new_comments_ask(policy: PolicyView, event: WebhookEventView)
    requires
        event.action != created(),
    ensures
        !policy.permits(event),
{
}

/// An author who shares only the login, or only the id, with entries of the
/// allow-list asks for nothing, whatever the comment says: no entry that has
/// the author's login has the author's id.
pub proof fn lemma_half_an_identity_is_none(policy: PolicyView, event: WebhookEventView)
    requires
        forall|i: int|
            0 <= i < policy.allowed.len() && (#[trigger] policy.allowed[i]).login
                == event.comment.user.login ==> policy.allowed[i].id != event.comment.user.id,
    ensures
        !policy.admits(event.comment.user),
        !policy.permits(event),
{
}

/// A comment without the trigger asks for nothing, whoever wrote it.
pub proof fn lemma_no_trigger_no_benchmark(policy: PolicyView, event: WebhookEventView)
    requires
        !occurs_in(event.comment.body, policy.trigger),
    ensures
        !policy.permits(event),
{
}

/// What the policy says of one event. The event is handed back with the
/// answer.
#[derive(Clone, Debug, PartialEq, Eq)]
pub struct AuthorizationDecision {
    pub authorized: bool,
    pub event: WebhookEvent,
}

impl Policy {
    /// The policy with one account on the allow-list.
    pub fn single(login: &str, id: u64, trigger: &str) -> (policy: Policy)
        ensures
            policy@.allowed == seq![UserView { login: login@, id }],
            policy@.trigger == trigger@,
    {
        let mut allowed: Vec<User> = Vec::new();
        allowed.push(User { login: String::from_str(login), id });
        let policy = Policy { allowed, trigger: String::from_str(trigger) };
        assert(policy@.allowed =~= seq![UserView { login: login@, id }]);
        policy
    }

    /// The policy of the bot's own deployment: its maintainer alone may ask,
    /// by mentioning the bot.
    pub fn maintainer() -> (policy: Policy)
        ensures
            policy@.allowed == seq![UserView { login: "KonaeAkira"@, id: 31180380 }],
            policy@.trigger == "@RaphaelBencher"@,
    {
        Policy::single("KonaeAkira", 31180380, "@RaphaelBencher")
    }

    /// Whether an account is on the allow-list.
    pub fn admits(&self, user: &User) -> (admitted: bool)
        ensures
            admitted == self@.admits(user@),
    {
        let mut i: usize = 0;
        while i < self.allowed.len()
            invariant
                i <= self.allowed.len(),
                forall|k: int|
                    0 <= k < i ==> !((#[trigger] self@.allowed[k]).login == user@.login
                        && self@.allowed[k].id == user@.id),
            decreases self.allowed.len() - i,
        {
            let entry = &self.allowed[i];
            if entry.id == user.id && entry.login == user.login {
                assert(self@.allowed[i as int] == entry@);
                return true;
            }
            assert(self@.allowed[i as int] == entry@);
            i += 1;
        }
        false
    }

    /// Decides whether an event asks for a benchmark. Nothing is run and
    /// nothing is changed.
    pub fn authorize(&self, event: WebhookEvent) -> (decision: AuthorizationDecision)
        ensures
            decision.authorized == self@.permits(event@),
            decision.event == event,
            event@.action != created() ==> !decision.authorized,
            !self@.admits(event@.comment.user) ==> !decision.authorized,
            !occurs_in(event@.comment.body, self@.trigger) ==> !decision.authorized,
    {
        let created = String::from_str("created");
        let authorized = event.action == created && self.admits(&event.comment.user) && contains(
            event.comment.body.as_str(),
            self.trigger.as_str(),
        );
        AuthorizationDecision { authorized, event }
    }
}

} // verus!
