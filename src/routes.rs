//! The inbound request bodies of the two flows.

use vstd::prelude::*;

use crate::github::{Issue, PullRequest};

verus! {

/// The decoded form body of a slash command: the free text after the command.
pub struct SlashCommandRequest {
    pub text: String,
}

/// The decoded body of a webhook notification.
pub struct GithubWebhookRequest {
    pub action: String,
    pub issue: Option<Issue>,
    pub pull_request: Option<PullRequest>,
    pub repository: ReqRepo,
}

/// The repository that a webhook notification is about.
pub struct ReqRepo {
    pub name: String,
    pub owner: ReqOwner,
}

/// The owner of that repository.
pub struct ReqOwner {
    pub login: String,
}

/// The label of the record that a notification carries: `issue` when it
/// carries only an issue, `Pull request` when it carries only a pull request,
/// and the empty text otherwise.
pub open spec fn label_of(has_issue: bool, has_pull_request: bool) -> Seq<char> {
    if has_issue && !has_pull_request {
        "issue"@
    } else if !has_issue && has_pull_request {
        "Pull request"@
    } else {
        Seq::empty()
    }
}

impl GithubWebhookRequest {
    /// The label of the record that this notification carries.
    pub fn label(&self) -> (r: &str)
        ensures
            r@ == label_of(self.issue.is_some(), self.pull_request.is_some()),
    {
        match (&self.issue, &self.pull_request) {
            (Some(_), None) => "issue",
            (None, Some(_)) => "Pull request",
            _ => {
                proof {
                    reveal_strlit("");
                }
                ""
            },
        }
    }
}

} // verus!
