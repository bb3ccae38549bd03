use slack_bot::flows::{
    lookup_precheck, lookup_response, webhook_message, webhook_response, Reply, WebhookError,
};
use slack_bot::github::{Issue, PullRequest, User};
use slack_bot::routes::{GithubWebhookRequest, ReqOwner, ReqRepo};
use slack_bot::slack::{Accessory, Blocks, Message, Slack, Text};

fn issue_of(body: Option<&str>) -> Issue {
    Issue {
        html_url: "https://github.com/cloudflare/wrangler-legacy/issues/1".to_string(),
        title: "test".to_string(),
        body: body.map(|b| b.to_string()),
        state: "open".to_string(),
        created_at: "2024-07-07T20:09:31Z".to_string(),
        number: 1,
        user: User {
            html_url: "https://github.com/signalnerve".to_string(),
            login: "test".to_string(),
            avatar_url: "https://github.com/images/error/octocat_happy.gif".to_string(),
        },
    }
}

fn pull_request_of(body: Option<&str>) -> PullRequest {
    PullRequest {
        html_url: "https://github.com/reo0306/rust-todo-di-app/pull/1".to_string(),
        title: "test pull_request".to_string(),
        body: body.map(|b| b.to_string()),
        state: "open".to_string(),
        created_at: "2024-07-07T20:09:31Z".to_string(),
        number: 2,
        user: User {
            html_url: "https://github.com/reo0306/".to_string(),
            login: "test2".to_string(),
            avatar_url: "https://github.com/images/error/octocat_happy.gif".to_string(),
        },
    }
}

fn request(issue: Option<Issue>, pull_request: Option<PullRequest>, repo: &str) -> GithubWebhookRequest {
    GithubWebhookRequest {
        action: "opened".to_string(),
        issue,
        pull_request,
        repository: ReqRepo {
            name: repo.to_string(),
            owner: ReqOwner { login: "test".to_string() },
        },
    }
}

fn expected_blocks(text: String, avatar_url: String, login: String) -> Vec<Blocks> {
    vec![Blocks {
        kind: "section".to_string(),
        text: Text { kind: "mrkdwn".to_string(), text },
        accessory: Accessory { kind: "image".to_string(), image_url: avatar_url, alt_text: login },
    }]
}

#[test]
fn test_lookup() {
    let issue = issue_of(Some("body"));

    let body = "token=gIkuvaNzQIHg97ATvDxqgjtO&team_id=T0001&team_domain=example&enterprise_id=E0001&enterprise_name=Globular%2520Construct%2520Inc&channel_id=C2147483705&channel_name=test&user_id=U2147483697&user_name=Steve&command=%2Fissue&text=cloudflare%2Fwrangler%231&response_url=https%3A%2F%2Fhooks.slack.com%2Fcommands%2F1234%2F5678&trigger_id=13345224609.738474920.8088930838d88f008e0root@d1cdcb320e3f".to_string();

    let result = lookup_response(&body, Ok(issue)).unwrap();

    // The empty first line is kept, so the text starts with a newline.
    let slack_message = Message {
        blocks: expected_blocks(
            "\n*test - <https://github.com/cloudflare/wrangler-legacy/issues/1|>*\nbody\n*open* - Created by <https://github.com/signalnerve|test> on 2024-07-07 20:09:31".to_string(),
            "https://github.com/images/error/octocat_happy.gif".to_string(),
            "test".to_string(),
        ),
        response_type: "in_channel".to_string(),
    };

    assert_eq!(slack_message, result);
}

fn check_blocks(text_lines: String, result: Vec<Blocks>, user: &User) {
    assert_eq!(expected_blocks(text_lines, user.avatar_url.clone(), user.login.clone()), result);
}

#[test]
fn test_issue() {
    let body = request(Some(issue_of(Some("body"))), None, "test_repo");
    let issue = body.issue.clone().unwrap();

    let text_lines = Slack
        .text_lines(
            &issue,
            &format!("{}/{}#{}", body.repository.owner.login, body.repository.name, issue.number),
            &format!("An {} was {}", body.label(), body.action),
        )
        .unwrap();

    let result = Slack.construct_message(&issue, &text_lines);

    check_blocks(text_lines, result, &issue.user);
}

#[test]
fn test_issue_is_body_none() {
    let body = request(Some(issue_of(None)), None, "test_repo");
    let issue = body.issue.clone().unwrap();

    let text_lines = Slack
        .text_lines(
            &issue,
            &format!("{}/{}#{}", body.repository.owner.login, body.repository.name, issue.number),
            &format!("An {} was {}", body.label(), body.action),
        )
        .unwrap();

    let result = Slack.construct_message(&issue, &text_lines);

    check_blocks(text_lines, result, &issue.user);
}

#[test]
fn test_pull_request() {
    let body = request(None, Some(pull_request_of(Some("pull_request body"))), "test_repo2");
    let pull_request = body.pull_request.clone().unwrap();

    let text_lines = Slack
        .text_lines(
            &pull_request,
            &format!("{}/{}#{}", body.repository.owner.login, body.repository.name, pull_request.number),
            &format!("An {} was {}", body.label(), body.action),
        )
        .unwrap();

    let result = Slack.construct_message(&pull_request, &text_lines);

    check_blocks(text_lines, result, &pull_request.user);
}

#[test]
fn test_pull_request_is_body_none() {
    let body = request(None, Some(pull_request_of(None)), "test_repo2");
    let pull_request = body.pull_request.clone().unwrap();

    let text_lines = Slack
        .text_lines(
            &pull_request,
            &format!("{}/{}#{}", body.repository.owner.login, body.repository.name, pull_request.number),
            &format!("An {} was {}", body.label(), body.action),
        )
        .unwrap();

    let result = Slack.construct_message(&pull_request, &text_lines);

    check_blocks(text_lines, result, &pull_request.user);
}

#[test]
fn lookup_scenario_shows_reference_from_body() {
    let result = lookup_response("text=cloudflare/wrangler-legacy#1", Ok(issue_of(Some("body")))).unwrap();
    let text = &result.blocks[0].text.text;
    let lines: Vec<&str> = text.split('\n').collect();
    assert_eq!(
        lines[1],
        "*test - <https://github.com/cloudflare/wrangler-legacy/issues/1|cloudflare/wrangler-legacy#1>*"
    );
    assert_eq!(result.response_type, "in_channel");
}

#[test]
fn empty_lookup_body_is_not_found() {
    assert_eq!(
        lookup_precheck(""),
        Some(Reply { status: 404, body: "Not found".to_string() })
    );
    assert_eq!(lookup_precheck("text=a/b#1"), None);
}

#[test]
fn failed_fetch_is_a_server_error() {
    assert_eq!(
        lookup_response("text=a/b#1", Err("connection refused".to_string())),
        Err(Reply { status: 500, body: "connection refused".to_string() })
    );
}

#[test]
fn lookup_with_malformed_date_is_a_server_error() {
    let mut issue = issue_of(None);
    issue.created_at = "yesterday".to_string();
    assert_eq!(
        lookup_response("text=a/b#1", Ok(issue)),
        Err(Reply { status: 500, body: "invalid creation timestamp: yesterday".to_string() })
    );
}

#[test]
fn labels_follow_the_record_present() {
    assert_eq!(request(Some(issue_of(None)), None, "r").label(), "issue");
    assert_eq!(request(None, Some(pull_request_of(None)), "r").label(), "Pull request");
    assert_eq!(request(None, None, "r").label(), "");
    assert_eq!(request(Some(issue_of(None)), Some(pull_request_of(None)), "r").label(), "");
}

#[test]
fn webhook_issue_message() {
    let body = request(Some(issue_of(Some("body"))), None, "test_repo");
    let message = webhook_message(&body).unwrap();
    assert_eq!(message.response_type, "in_channel");
    assert_eq!(
        message.blocks,
        expected_blocks(
            "An issue was opened\n*test - <https://github.com/cloudflare/wrangler-legacy/issues/1|test/test_repo#1>*\nbody\n*open* - Created by <https://github.com/signalnerve|test> on 2024-07-07 20:09:31".to_string(),
            "https://github.com/images/error/octocat_happy.gif".to_string(),
            "test".to_string(),
        )
    );
}

#[test]
fn webhook_pull_request_message() {
    let body = request(None, Some(pull_request_of(None)), "test_repo2");
    let message = webhook_message(&body).unwrap();
    assert_eq!(
        message.blocks[0].text.text,
        "An Pull request was opened\n*test pull_request - <https://github.com/reo0306/rust-todo-di-app/pull/1|test/test_repo2#2>*\n\n*open* - Created by <https://github.com/reo0306/|test2> on 2024-07-07 20:09:31"
    );
    assert_eq!(message.blocks[0].accessory.alt_text, "test2");
}

#[test]
fn webhook_without_record_is_unknown_payload() {
    let err = webhook_message(&request(None, None, "r")).unwrap_err();
    assert_eq!(err, WebhookError::UnknownPayload);
    assert_eq!(err.reply(), Reply { status: 400, body: "Unknown payload".to_string() });
    let both = request(Some(issue_of(None)), Some(pull_request_of(None)), "r");
    assert_eq!(webhook_message(&both).unwrap_err(), WebhookError::UnknownPayload);
}

#[test]
fn webhook_with_malformed_date_is_a_server_error() {
    let mut issue = issue_of(None);
    issue.created_at = "2024-07-07".to_string();
    let err = webhook_message(&request(Some(issue), None, "r")).unwrap_err();
    assert_eq!(err.reply(), Reply { status: 500, body: "invalid creation timestamp: 2024-07-07".to_string() });
}

#[test]
fn webhook_replies() {
    assert_eq!(webhook_response(Ok(())), Reply { status: 200, body: "OK".to_string() });
    assert_eq!(
        webhook_response(Err("timeout".to_string())),
        Reply { status: 500, body: "Unable to handle webhook, message:timeout".to_string() }
    );
}
