//! The decisions of the two request flows. The caller reads the request,
//! makes the network call and writes the reply; these functions decide what
//! is fetched, sent and answered.

use vstd::prelude::*;

use crate::github::{Issue, PayloadRepository, TrackedView};
use crate::routes::GithubWebhookRequest;
use crate::slack::{is_envelope, text_lines_of, webhook_prefix, webhook_reference, Message, Slack};
use crate::timestamp::DateParseError;

verus! {

/// An HTTP-style reply: a status code and a text body.
#[derive(Clone, Debug, PartialEq)]
pub struct Reply {
    pub status: u16,
    pub body: String,
}

/// A reply with the given status and body.
pub open spec fn is_reply(r: Reply, status: u16, body: Seq<char>) -> bool {
    r.status == status && r.body@ == body
}

/// The text that describes an unreadable creation date.
pub open spec fn date_error_text(input: Seq<char>) -> Seq<char> {
    "invalid creation timestamp: "@ + input
}

impl DateParseError {
    /// Describes the error: `invalid creation timestamp: {input}`.
    pub fn describe(&self) -> (r: String)
        ensures
            r@ == date_error_text(self.input@),
    {
        let mut r = String::from_str("invalid creation timestamp: ");
        r.append(self.input.as_str());
        r
    }
}

/// Why a webhook notification yields no message.
#[derive(Clone, Debug, PartialEq)]
pub enum WebhookError {
    /// The notification carries neither an issue nor a pull request, or both.
    UnknownPayload,
    /// The record's creation date cannot be read.
    InvalidDate(DateParseError),
}

impl WebhookError {
    /// The reply for this error: 400 `Unknown payload`, or 500 with the date
    /// error's description.
    pub fn reply(&self) -> (r: Reply)
        ensures
            match self {
                WebhookError::UnknownPayload => is_reply(r, 400, "Unknown payload"@),
                WebhookError::InvalidDate(e) => is_reply(r, 500, date_error_text(e.input@)),
            },
    {
        match self {
            WebhookError::UnknownPayload => Reply {
                status: 400,
                body: String::from_str("Unknown payload"),
            },
            WebhookError::InvalidDate(e) => Reply { status: 500, body: e.describe() },
        }
    }
}

/// Checks the raw body of a lookup request before anything is decoded: an
/// empty body is answered 404 `Not found` at once; any other goes on.
pub fn lookup_precheck(body: &str) -> (r: Option<Reply>)
    ensures
        r.is_some() == (body@.len() == 0),
        r matches Some(reply) ==> is_reply(reply, 404, "Not found"@),
{
    if body.is_empty() {
        Some(Reply { status: 404, body: String::from_str("Not found") })
    } else {
        None
    }
}

/// The message that a lookup answers for `item`, fetched for the raw request
/// body `body`, when the item's creation date can be read.
pub open spec fn lookup_text(item: TrackedView, body: Seq<char>) -> Option<Seq<char>> {
    text_lines_of(item, body, Seq::empty())
}

/// Answers a lookup once the fetch is over. A fetched issue gives the message
/// whose text shows the reference extracted from the raw body, with an empty
/// first line; an issue whose creation date cannot be read gives 500 with the
/// date error's description; a failed fetch gives 500 with its description.
pub fn lookup_response(body: &str, fetched: Result<Issue, String>) -> (r: Result<Message, Reply>)
    ensures
        match fetched {
            Ok(issue) => match lookup_text(issue@, body@) {
                Some(t) => r matches Ok(m) && is_envelope(m, issue@, t),
                None => r matches Err(reply) && is_reply(
                    reply,
                    500,
                    date_error_text(issue.created_at@),
                ),
            },
            Err(e) => r matches Err(reply) && is_reply(reply, 500, e@),
        },
{
    match fetched {
        Ok(issue) => {
            proof {
                reveal_strlit("");
            }
            match Slack.text_lines(&issue, body, "") {
                Ok(text_lines) => {
                    assert(""@ =~= Seq::<char>::empty());
                    Ok(Message {
                        blocks: Slack.construct_message(&issue, &text_lines),
                        response_type: String::from_str("in_channel"),
                    })
                },
                Err(e) => Err(Reply { status: 500, body: e.describe() }),
            }
        },
        Err(e) => Err(Reply { status: 500, body: e }),
    }
}

/// The message for a webhook notification about `item`, when its creation
/// date can be read.
pub open spec fn webhook_text(body: &GithubWebhookRequest, item: TrackedView) -> Option<
    Seq<char>,
> {
    text_lines_of(item, webhook_reference(body, item.number), webhook_prefix(body))
}

/// What a webhook notification yields for the record `item` that it carries.
pub open spec fn webhook_outcome(
    body: &GithubWebhookRequest,
    item: TrackedView,
    r: Result<Message, WebhookError>,
) -> bool {
    match webhook_text(body, item) {
        Some(t) => r matches Ok(m) && is_envelope(m, item, t),
        None => r matches Err(WebhookError::InvalidDate(e)) && e.input@ == item.created_at,
    }
}

/// Builds the message for a webhook notification. The notification must
/// carry exactly one record, an issue or a pull request, and its message
/// starts with `An issue was {action}` or `An Pull request was {action}`
/// accordingly; otherwise it is an unknown payload.
pub fn webhook_message(body: &GithubWebhookRequest) -> (r: Result<Message, WebhookError>)
    ensures
        match (body.issue, body.pull_request) {
            (Some(issue), None) => webhook_outcome(body, issue@, r),
            (None, Some(pull_request)) => webhook_outcome(body, pull_request@, r),
            _ => r == Err::<Message, WebhookError>(WebhookError::UnknownPayload),
        },
{
    let made = match (&body.issue, &body.pull_request) {
        (Some(issue), None) => Slack.create_message(issue, body),
        (None, Some(pull_request)) => Slack.create_message(pull_request, body),
        _ => {
            return Err(WebhookError::UnknownPayload);
        },
    };
    match made {
        Ok(m) => Ok(m),
        Err(e) => Err(WebhookError::InvalidDate(e)),
    }
}

/// Answers a webhook notification once the message was sent: 200 `OK`, or
/// 500 `Unable to handle webhook, message:{description}` when sending failed.
pub fn webhook_response(sent: Result<(), String>) -> (r: Reply)
    ensures
        match sent {
            Ok(()) => is_reply(r, 200, "OK"@),
            Err(e) => is_reply(r, 500, "Unable to handle webhook, message:"@ + e@),
        },
{
    match sent {
        Ok(()) => Reply { status: 200, body: String::from_str("OK") },
        Err(e) => {
            let mut text = String::from_str("Unable to handle webhook, message:");
            text.append(e.as_str());
            Reply { status: 500, body: text }
        },
    }
}

} // verus!
