use raphael_bencher::event::{Comment, Issue, Repository, User, WebhookEvent};
use raphael_bencher::filter::Policy;

fn filter_event(action: &str, login: &str, id: u64, body: &str) -> WebhookEvent {
    WebhookEvent {
        action: action.to_string(),
        issue: Issue { number: 42 },
        comment: Comment { user: User { login: login.to_string(), id }, body: body.to_string() },
        repository: Repository {
            name: "r".to_string(),
            owner: User { login: "o".to_string(), id: 7 },
            default_branch: "main".to_string(),
        },
    }
}

#[test]
fn a_new_comment_of_the_maintainer_with_the_trigger_is_authorized() {
    let policy = Policy::single("X", 1, "@RaphaelBencher");
    let event = filter_event("created", "X", 1, "hey @RaphaelBencher please check");
    let decision = policy.authorize(event.clone());
    assert!(decision.authorized);
    assert_eq!(decision.event, event);
}

#[test]
fn an_edited_comment_is_not_authorized() {
    let policy = Policy::single("X", 1, "@RaphaelBencher");
    let decision = policy.authorize(filter_event("edited", "X", 1, "hey @RaphaelBencher"));
    assert!(!decision.authorized);
}

#[test]
fn no_action_but_created_is_authorized() {
    let policy = Policy::single("X", 1, "@RaphaelBencher");
    let actions: Vec<&str> =
        vec!["deleted", "edited", "", "Created", "created ", "CREATED", "create"];
    for action in actions {
        let decision = policy.authorize(filter_event(action, "X", 1, "@RaphaelBencher"));
        assert!(!decision.authorized);
    }
}

#[test]
fn a_matching_login_with_another_id_is_not_authorized() {
    let policy = Policy::single("X", 1, "@RaphaelBencher");
    let decision = policy.authorize(filter_event("created", "X", 2, "hey @RaphaelBencher"));
    assert!(!decision.authorized);
}

#[test]
fn a_matching_id_with_another_login_is_not_authorized() {
    let policy = Policy::single("X", 1, "@RaphaelBencher");
    let decision = policy.authorize(filter_event("created", "Y", 1, "hey @RaphaelBencher"));
    assert!(!decision.authorized);
}

#[test]
fn a_comment_without_the_trigger_is_not_authorized() {
    let policy = Policy::single("X", 1, "@RaphaelBencher");
    let decision = policy.authorize(filter_event("created", "X", 1, "please benchmark this"));
    assert!(!decision.authorized);
}

#[test]
fn the_decision_hands_the_event_back() {
    let policy = Policy::single("X", 1, "@RaphaelBencher");
    let event = filter_event("edited", "someone", 99, "nothing");
    let decision = policy.authorize(event.clone());
    assert_eq!(decision.event, event);
}

#[test]
fn login_and_id_must_belong_to_one_entry() {
    let policy = Policy {
        allowed: vec![
            User { login: "alice".to_string(), id: 1 },
            User { login: "bob".to_string(), id: 2 },
        ],
        trigger: "!bench".to_string(),
    };
    assert!(policy.authorize(filter_event("created", "alice", 1, "!bench")).authorized);
    assert!(policy.authorize(filter_event("created", "bob", 2, "!bench")).authorized);
    assert!(!policy.authorize(filter_event("created", "alice", 2, "!bench")).authorized);
    assert!(!policy.authorize(filter_event("created", "bob", 1, "!bench")).authorized);
}

#[test]
fn an_empty_allow_list_admits_nobody() {
    let policy = Policy { allowed: vec![], trigger: "".to_string() };
    assert!(!policy.admits(&User { login: "X".to_string(), id: 1 }));
    assert!(!policy.authorize(filter_event("created", "X", 1, "anything")).authorized);
}

#[test]
fn admits_checks_login_and_id() {
    let policy = Policy::single("X", 1, "t");
    assert!(policy.admits(&User { login: "X".to_string(), id: 1 }));
    assert!(!policy.admits(&User { login: "X".to_string(), id: 0 }));
    assert!(!policy.admits(&User { login: "x".to_string(), id: 1 }));
}

#[test]
fn the_maintainer_policy_names_one_account_and_the_mention() {
    let policy = Policy::maintainer();
    assert_eq!(policy.allowed, vec![User { login: "KonaeAkira".to_string(), id: 31180380 }]);
    assert_eq!(policy.trigger, "@RaphaelBencher");
    let asked = filter_event("created", "KonaeAkira", 31180380, "@RaphaelBencher run");
    assert!(policy.authorize(asked).authorized);
    let renamed = filter_event("created", "KonaeAkira", 31180381, "@RaphaelBencher run");
    assert!(!policy.authorize(renamed).authorized);
}
