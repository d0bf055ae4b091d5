//! The decoded issue-comment event, as far as the bot reads it.

use vstd::prelude::*;

verus! {

/// An account of the forge: its login name and its numeric id. A login can be
/// given away and taken by someone else; the id stays with the account.
#[derive(Clone, Debug, PartialEq, Eq)]
pub struct User {
    pub login: String,
    pub id: u64,
}

/// The mathematical content of a [`User`].
pub struct UserView {
    pub login: Seq<char>,
    pub id: u64,
}

impl View for User {
    type V = UserView;

    open spec fn view(&self) -> UserView {
        UserView { login: self.login@, id: self.id }
    }
}

/// The issue or pull request that was commented on.
#[derive(Clone, Debug, PartialEq, Eq)]
pub struct Issue {
    pub number: u64,
}

/// The comment: who wrote it, and its text.
#[derive(Clone, Debug, PartialEq, Eq)]
pub struct Comment {
    pub user: User,
    pub body: String,
}

/// The mathematical content of a [`Comment`].
pub struct CommentView {
    pub user: UserView,
    pub body: Seq<char>,
}

impl View for Comment {
    type V = CommentView;

    open spec fn view(&self) -> CommentView {
        CommentView { user: self.user@, body: self.body@ }
    }
}

/// The repository that the issue belongs to.
#[derive(Clone, Debug, PartialEq, Eq)]
pub struct Repository {
    pub name: String,
    pub owner: User,
    pub default_branch: String,
}

/// The mathematical content of a [`Repository`].
pub struct RepositoryView {
    pub name: Seq<char>,
    pub owner: UserView,
    pub default_branch: Seq<char>,
}

impl View for Repository {
    type V = RepositoryView;

    open spec fn view(&self) -> RepositoryView {
        RepositoryView {
            name: self.name@,
            owner: self.owner@,
            default_branch: self.default_branch@,
        }
    }
}

/// One delivery of the forge: something happened to a comment on an issue.
/// `action` says what (`"created"` for a new comment).
#[derive(Clone, Debug, PartialEq, Eq)]
pub struct WebhookEvent {
    pub action: String,
    pub issue: Issue,
    pub comment: Comment,
    pub repository: Repository,
}

/// The mathematical content of a [`WebhookEvent`].
pub struct WebhookEventView {
    pub action: Seq<char>,
    pub issue_number: u64,
    pub comment: CommentView,
    pub repository: RepositoryView,
}

impl View for WebhookEvent {
    type V = WebhookEventView;

    open spec fn view(&self) -> WebhookEventView {
        WebhookEventView {
            action: self.action@,
            issue_number: self.issue.number,
            comment: self.comment@,
            repository: self.repository@,
        }
    }
}

} // verus!
