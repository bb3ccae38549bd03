//! The message formatter: the four-line message text and the chat envelope
//! around it.

use vstd::prelude::*;

use crate::github::{PayloadRepository, TrackedView};
use crate::reference::{extract_reference, extracted_reference};
use crate::routes::{label_of, GithubWebhookRequest};
use crate::text::{count_char, decimal, decimal_string, lemma_count_absent, lemma_count_concat};
use crate::timestamp::{reformat_timestamp, reformatted_timestamp, DateParseError};

verus! {

/// The message sent to, or returned for, the chat endpoint.
#[derive(Clone, Debug, PartialEq)]
pub struct Message {
    pub blocks: Vec<Blocks>,
    pub response_type: String,
}

/// One renderable unit of a message: a text and an image beside it.
#[derive(Clone, Debug, PartialEq)]
pub struct Blocks {
    pub kind: String,
    pub text: Text,
    pub accessory: Accessory,
}

/// The text of a block.
#[derive(Clone, Debug, PartialEq)]
pub struct Text {
    pub kind: String,
    pub text: String,
}

/// The image of a block.
#[derive(Clone, Debug, PartialEq)]
pub struct Accessory {
    pub kind: String,
    pub image_url: String,
    pub alt_text: String,
}

/// The two lines of a message text that are built from several fields.
pub struct TextLine {
    pub title: String,
    pub state: String,
}

/// `*{title} - <{html_url}|{reference}>*`
pub open spec fn title_line(item: TrackedView, reference: Seq<char>) -> Seq<char> {
    "*"@ + item.title + " - <"@ + item.html_url + "|"@ + reference + ">*"@
}

/// `*{state}* - Created by <{user html_url}|{user login}> on {date}`
pub open spec fn state_line(item: TrackedView, date: Seq<char>) -> Seq<char> {
    "*"@ + item.state + "* - Created by <"@ + item.user.html_url + "|"@ + item.user.login
        + "> on "@ + date
}

/// The body of the record, or the empty line when it has none.
pub open spec fn body_line(item: TrackedView) -> Seq<char> {
    match item.body {
        Some(b) => b,
        None => Seq::empty(),
    }
}

/// Four lines joined by newlines.
pub open spec fn join_four(a: Seq<char>, b: Seq<char>, c: Seq<char>, d: Seq<char>) -> Seq<char> {
    a + seq!['\n'] + b + seq!['\n'] + c + seq!['\n'] + d
}

/// The message text for `item`, given the reference to show, the first line,
/// and the creation date as it is to be shown.
pub open spec fn rendered_text(
    item: TrackedView,
    reference: Seq<char>,
    prefix: Seq<char>,
    date: Seq<char>,
) -> Seq<char> {
    join_four(prefix, title_line(item, reference), body_line(item), state_line(item, date))
}

/// The message text for `item` when its creation date can be read: the
/// reference shown is the one extracted from `source`.
pub open spec fn text_lines_of(item: TrackedView, source: Seq<char>, prefix: Seq<char>) -> Option<
    Seq<char>,
> {
    match reformatted_timestamp(item.created_at) {
        Some(date) => Some(rendered_text(item, extracted_reference(source), prefix, date)),
        None => None,
    }
}

/// The reference source of a webhook notification: `{owner}/{repo}#{number}`.
pub open spec fn webhook_reference(body: &GithubWebhookRequest, number: u32) -> Seq<char> {
    body.repository.owner.login@ + seq!['/'] + body.repository.name@ + seq!['#'] + decimal(
        number as nat,
    )
}

/// The first line of a webhook message: `An {label} was {action}`.
pub open spec fn webhook_prefix(body: &GithubWebhookRequest) -> Seq<char> {
    "An "@ + label_of(body.issue.is_some(), body.pull_request.is_some()) + " was "@
        + body.action@
}

/// The single block of a message about `item` with the text `text`.
pub open spec fn is_envelope_block(b: Blocks, item: TrackedView, text: Seq<char>) -> bool {
    &&& b.kind@ == "section"@
    &&& b.text.kind@ == "mrkdwn"@
    &&& b.text.text@ == text
    &&& b.accessory.kind@ == "image"@
    &&& b.accessory.image_url@ == item.user.avatar_url
    &&& b.accessory.alt_text@ == item.user.login
}

/// A whole message about `item` with the text `text`, sent to the channel.
pub open spec fn is_envelope(m: Message, item: TrackedView, text: Seq<char>) -> bool {
    &&& m.blocks@.len() == 1
    &&& is_envelope_block(m.blocks@[0], item, text)
    &&& m.response_type@ == "in_channel"@
}

/// `s` holds no newline.
pub open spec fn single_line(s: Seq<char>) -> bool {
    forall|i: int| 0 <= i < s.len() ==> s[i] != '\n'
}

/// Every field of `item` that the message text shows is a single line.
pub open spec fn single_line_fields(item: TrackedView) -> bool {
    &&& single_line(item.title)
    &&& single_line(item.html_url)
    &&& single_line(body_line(item))
    &&& single_line(item.state)
    &&& single_line(item.user.html_url)
    &&& single_line(item.user.login)
}

proof fn lemma_count_single_line(s: Seq<char>)
    requires
        single_line(s),
    ensures
        count_char(s, '\n') == 0,
{
    lemma_count_absent(s, '\n');
}

/// The title line of single-line fields is a single line.
proof fn lemma_title_line_single(item: TrackedView, reference: Seq<char>)
    requires
        single_line(item.title),
        single_line(item.html_url),
        single_line(reference),
    ensures
        count_char(title_line(item, reference), '\n') == 0,
{
    reveal_strlit("*");
    reveal_strlit(" - <");
    reveal_strlit("|");
    reveal_strlit(">*");
    let a = "*"@;
    let b = " - <"@;
    let c = "|"@;
    let d = ">*"@;
    lemma_count_single_line(a);
    lemma_count_single_line(b);
    lemma_count_single_line(c);
    lemma_count_single_line(d);
    lemma_count_single_line(item.title);
    lemma_count_single_line(item.html_url);
    lemma_count_single_line(reference);
    lemma_count_concat(a, item.title, '\n');
    lemma_count_concat(a + item.title, b, '\n');
    lemma_count_concat(a + item.title + b, item.html_url, '\n');
    lemma_count_concat(a + item.title + b + item.html_url, c, '\n');
    lemma_count_concat(a + item.title + b + item.html_url + c, reference, '\n');
    lemma_count_concat(a + item.title + b + item.html_url + c + reference, d, '\n');
}

/// The state line of single-line fields is a single line.
proof fn lemma_state_line_single(item: TrackedView, date: Seq<char>)
    requires
        single_line(item.state),
        single_line(item.user.html_url),
        single_line(item.user.login),
        single_line(date),
    ensures
        count_char(state_line(item, date), '\n') == 0,
{
    reveal_strlit("*");
    reveal_strlit("* - Created by <");
    reveal_strlit("|");
    reveal_strlit("> on ");
    let a = "*"@;
    let b = "* - Created by <"@;
    let c = "|"@;
    let d = "> on "@;
    lemma_count_single_line(a);
    lemma_count_single_line(b);
    lemma_count_single_line(c);
    lemma_count_single_line(d);
    lemma_count_single_line(item.state);
    lemma_count_single_line(item.user.html_url);
    lemma_count_single_line(item.user.login);
    lemma_count_single_line(date);
    let u = item.user.html_url;
    let l = item.user.login;
    lemma_count_concat(a, item.state, '\n');
    lemma_count_concat(a + item.state, b, '\n');
    lemma_count_concat(a + item.state + b, u, '\n');
    lemma_count_concat(a + item.state + b + u, c, '\n');
    lemma_count_concat(a + item.state + b + u + c, l, '\n');
    lemma_count_concat(a + item.state + b + u + c + l, d, '\n');
    lemma_count_concat(a + item.state + b + u + c + l + d, date, '\n');
}

/// The message text is always four lines joined by newlines, whether or not
/// the record has a body and whether or not the first line is empty: where
/// no shown field holds a newline of its own, the text holds exactly three.
pub proof fn lemma_four_lines(
    item: TrackedView,
    reference: Seq<char>,
    prefix: Seq<char>,
    date: Seq<char>,
)
    requires
        single_line_fields(item),
        single_line(reference),
        single_line(prefix),
        single_line(date),
    ensures
        rendered_text(item, reference, prefix, date) == join_four(
            prefix,
            title_line(item, reference),
            body_line(item),
            state_line(item, date),
        ),
        count_char(rendered_text(item, reference, prefix, date), '\n') == 3,
{
    let t = title_line(item, reference);
    let b = body_line(item);
    let s = state_line(item, date);
    let nl = seq!['\n'];
    lemma_title_line_single(item, reference);
    lemma_state_line_single(item, date);
    lemma_count_single_line(prefix);
    lemma_count_single_line(b);
    assert(count_char(nl, '\n') == 1) by {
        assert(nl.drop_last() =~= Seq::<char>::empty());
    }
    lemma_count_concat(prefix, nl, '\n');
    lemma_count_concat(prefix + nl, t, '\n');
    lemma_count_concat(prefix + nl + t, nl, '\n');
    lemma_count_concat(prefix + nl + t + nl, b, '\n');
    lemma_count_concat(prefix + nl + t + nl + b, nl, '\n');
    lemma_count_concat(prefix + nl + t + nl + b + nl, s, '\n');
}

/// The message formatter.
pub struct Slack;

impl Slack {
    /// Builds the message text from its parts: `prefix_text`, the title line
    /// showing `reference`, the body (an empty line when there is none), and
    /// the state line showing `date`, joined by newlines.
    pub fn render_text<T: PayloadRepository>(
        &self,
        payload: &T,
        reference: &str,
        prefix_text: &str,
        date: &str,
    ) -> (r: String)
        ensures
            r@ == rendered_text(payload.payload(), reference@, prefix_text@, date@),
    {
        let item = Ghost(payload.payload());
        let mut title = String::from_str("*");
        title.append(payload.title());
        title.append(" - <");
        title.append(payload.html_url());
        title.append("|");
        title.append(reference);
        title.append(">*");
        let user = payload.user();
        let mut state = String::from_str("*");
        state.append(payload.state());
        state.append("* - Created by <");
        state.append(user.html_url.as_str());
        state.append("|");
        state.append(user.login.as_str());
        state.append("> on ");
        state.append(date);
        let text_line = TextLine { title, state };
        assert(text_line.title@ =~= title_line(item@, reference@));
        assert(text_line.state@ =~= state_line(item@, date@));

        let body = match payload.body() {
            Some(b) => b,
            None => {
                proof {
                    reveal_strlit("");
                }
                ""
            },
        };
        assert(body@ =~= body_line(item@));
        proof {
            reveal_strlit("\n");
        }
        let mut r = String::from_str(prefix_text);
        r.append("\n");
        r.append(text_line.title.as_str());
        r.append("\n");
        r.append(body);
        r.append("\n");
        r.append(text_line.state.as_str());
        assert(r@ =~= rendered_text(item@, reference@, prefix_text@, date@));
        r
    }

    /// The message text for `payload`: `prefix_text`, the title line showing
    /// the reference extracted from `body`, the record's body, and the state
    /// line with the creation date rewritten as `YYYY-MM-DD HH:MM:SS`. Fails
    /// exactly when the creation date cannot be read.
    pub fn text_lines<T: PayloadRepository>(
        &self,
        payload: &T,
        body: &str,
        prefix_text: &str,
    ) -> (r: Result<String, DateParseError>)
        ensures
            match (r, text_lines_of(payload.payload(), body@, prefix_text@)) {
                (Ok(t), Some(u)) => t@ == u,
                (Err(e), None) => e.input@ == payload.payload().created_at,
                _ => false,
            },
    {
        let reference = extract_reference(body);
        let date = reformat_timestamp(payload.created_at())?;
        Ok(self.render_text(payload, reference.as_str(), prefix_text, date.as_str()))
    }

    /// The blocks of a message about `payload` with the text `text_lines`:
    /// one section block whose image is the author's avatar.
    pub fn construct_message<T: PayloadRepository>(&self, payload: &T, text_lines: &String) -> (r:
        Vec<Blocks>)
        ensures
            r@.len() == 1,
            is_envelope_block(r@[0], payload.payload(), text_lines@),
    {
        let user = payload.user();
        vec![
            Blocks {
                kind: String::from_str("section"),
                text: Text { kind: String::from_str("mrkdwn"), text: text_lines.clone() },
                accessory: Accessory {
                    kind: String::from_str("image"),
                    image_url: user.avatar_url.clone(),
                    alt_text: user.login.clone(),
                },
            },
        ]
    }

    /// The message for a webhook notification about `payload`: its text
    /// starts with `An {label} was {action}` and shows the reference
    /// `{owner}/{repo}#{number}`; it goes to the channel. Fails exactly when
    /// the creation date cannot be read.
    pub fn create_message<T: PayloadRepository>(
        &self,
        payload: &T,
        body: &GithubWebhookRequest,
    ) -> (r: Result<Message, DateParseError>)
        ensures
            match (
                r,
                text_lines_of(
                    payload.payload(),
                    webhook_reference(body, payload.payload().number),
                    webhook_prefix(body),
                ),
            ) {
                (Ok(m), Some(t)) => is_envelope(m, payload.payload(), t),
                (Err(e), None) => e.input@ == payload.payload().created_at,
                _ => false,
            },
    {
        let mut source = body.repository.owner.login.clone();
        proof {
            reveal_strlit("/");
            reveal_strlit("#");
        }
        source.append("/");
        source.append(body.repository.name.as_str());
        source.append("#");
        let number = decimal_string(payload.number());
        source.append(number.as_str());
        assert(source@ =~= webhook_reference(body, payload.payload().number));

        let mut prefix = String::from_str("An ");
        prefix.append(body.label());
        prefix.append(" was ");
        prefix.append(body.action.as_str());
        assert(prefix@ =~= webhook_prefix(body));

        let text_lines = self.text_lines(payload, source.as_str(), prefix.as_str())?;
        Ok(Message {
            blocks: self.construct_message(payload, &text_lines),
            response_type: String::from_str("in_channel"),
        })
    }
}

} // verus!
