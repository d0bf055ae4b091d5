//! Posting a report as a comment on the issue that asked for it.

use crate::command::{Invocation, InvocationView};
use crate::text::{decimal, decimal_digits, texts};
use vstd::prelude::*;
use vstd::string::*;

verus! {

/// The path of the forge's interface under which the comments of an issue
/// live.
pub open spec fn comments_path(owner: Seq<char>, repo: Seq<char>, issue_number: u64) -> Seq<char> {
    "/repos/"@ + owner + "/"@ + repo + "/issues/"@ + decimal_digits(issue_number as nat)
        + "/comments"@
}

/// The call of the forge's command-line client that creates a comment with the
/// text `body` on an issue. The client signs in with what the host holds for
/// it; nothing of the webhook's secret goes into the call.
pub open spec fn post_comment_step(
    owner: Seq<char>,
    repo: Seq<char>,
    issue_number: u64,
    body: Seq<char>,
) -> InvocationView {
    InvocationView {
        program: "gh"@,
        args: seq![
            "api"@,
            "--method"@,
            "POST"@,
            "-H"@,
            "Accept: application/vnd.github+json"@,
            "-H"@,
            "X-GitHub-Api-Version: 2022-11-28"@,
            comments_path(owner, repo, issue_number),
            "-f"@,
            "body="@ + body,
        ],
        dir: None,
    }
}

/// The call that posts `body` as a new comment on issue `issue_number` of the
/// repository `owner`/`repo`. One call posts one comment.
pub fn post_comment(owner: &str, repo: &str, issue_number: u64, body: &str) -> (step: Invocation)
    ensures
        step@ == post_comment_step(owner@, repo@, issue_number, body@),
{
    let mut path = String::from_str("/repos/");
    path.append(owner);
    path.append("/");
    path.append(repo);
    path.append("/issues/");
    let number = decimal(issue_number);
    path.append(number.as_str());
    path.append("/comments");
    let mut field = String::from_str("body=");
    field.append(body);

    let mut args: Vec<String> = Vec::new();
    args.push(String::from_str("api"));
    args.push(String::from_str("--method"));
    args.push(String::from_str("POST"));
    args.push(String::from_str("-H"));
    args.push(String::from_str("Accept: application/vnd.github+json"));
    args.push(String::from_str("-H"));
    args.push(String::from_str("X-GitHub-Api-Version: 2022-11-28"));
    args.push(path);
    args.push(String::from_str("-f"));
    args.push(field);
    assert(texts(args@) =~= post_comment_step(owner@, repo@, issue_number, body@).args);
    Invocation { program: String::from_str("gh"), args, dir: None }
}

} // verus!
