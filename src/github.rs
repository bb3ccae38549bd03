//! The issue-tracker records: issues and pull requests, seen through one
//! accessor contract.

use vstd::prelude::*;

use crate::reference::{reference_captures, reference_matches, Reference};

verus! {

/// The author of a record.
#[derive(Clone, Debug, PartialEq)]
pub struct User {
    pub html_url: String,
    pub login: String,
    pub avatar_url: String,
}

/// The abstract value of a [`User`].
pub struct UserView {
    pub html_url: Seq<char>,
    pub login: Seq<char>,
    pub avatar_url: Seq<char>,
}

impl View for User {
    type V = UserView;

    open spec fn view(&self) -> UserView {
        UserView { html_url: self.html_url@, login: self.login@, avatar_url: self.avatar_url@ }
    }
}

/// The abstract value shared by every record variant: what the seven
/// accessors of [`PayloadRepository`] return.
pub struct TrackedView {
    pub html_url: Seq<char>,
    pub title: Seq<char>,
    pub body: Option<Seq<char>>,
    pub state: Seq<char>,
    pub created_at: Seq<char>,
    pub number: u32,
    pub user: UserView,
}

/// The view of an optional string.
pub open spec fn opt_view(o: Option<String>) -> Option<Seq<char>> {
    match o {
        Some(s) => Some(s@),
        None => None,
    }
}

/// The view of an optional string slice.
pub open spec fn opt_str_view(o: Option<&str>) -> Option<Seq<char>> {
    match o {
        Some(s) => Some(s@),
        None => None,
    }
}

/// The capability contract of a tracked record. The formatter is written
/// against this trait alone, whatever the variant.
pub trait PayloadRepository {
    /// The record's abstract value.
    spec fn payload(&self) -> TrackedView;

    fn html_url(&self) -> (r: &str)
        ensures
            r@ == self.payload().html_url,
    ;

    fn title(&self) -> (r: &str)
        ensures
            r@ == self.payload().title,
    ;

    fn body(&self) -> (r: Option<&str>)
        ensures
            opt_str_view(r) == self.payload().body,
    ;

    fn state(&self) -> (r: &str)
        ensures
            r@ == self.payload().state,
    ;

    fn created_at(&self) -> (r: &str)
        ensures
            r@ == self.payload().created_at,
    ;

    fn number(&self) -> (r: u32)
        ensures
            r == self.payload().number,
    ;

    fn user(&self) -> (r: &User)
        ensures
            r@ == self.payload().user,
    ;
}

/// An issue as the tracker reports it.
#[derive(Clone, Debug, PartialEq)]
pub struct Issue {
    pub html_url: String,
    pub title: String,
    pub body: Option<String>,
    pub state: String,
    pub created_at: String,
    pub number: u32,
    pub user: User,
}

/// A pull request as the tracker reports it.
#[derive(Clone, Debug, PartialEq)]
pub struct PullRequest {
    pub html_url: String,
    pub title: String,
    pub body: Option<String>,
    pub state: String,
    pub created_at: String,
    pub number: u32,
    pub user: User,
}

impl View for Issue {
    type V = TrackedView;

    open spec fn view(&self) -> TrackedView {
        TrackedView {
            html_url: self.html_url@,
            title: self.title@,
            body: opt_view(self.body),
            state: self.state@,
            created_at: self.created_at@,
            number: self.number,
            user: self.user@,
        }
    }
}

impl View for PullRequest {
    type V = TrackedView;

    open spec fn view(&self) -> TrackedView {
        TrackedView {
            html_url: self.html_url@,
            title: self.title@,
            body: opt_view(self.body),
            state: self.state@,
            created_at: self.created_at@,
            number: self.number,
            user: self.user@,
        }
    }
}

/// Borrows the text of an optional string.
fn as_opt_str(o: &Option<String>) -> (r: Option<&str>)
    ensures
        opt_str_view(r) == opt_view(*o),
{
    match o {
        Some(s) => Some(s.as_str()),
        None => None,
    }
}

impl PayloadRepository for Issue {
    open spec fn payload(&self) -> TrackedView {
        self@
    }

    fn html_url(&self) -> (r: &str) {
        self.html_url.as_str()
    }

    fn title(&self) -> (r: &str) {
        self.title.as_str()
    }

    fn body(&self) -> (r: Option<&str>) {
        as_opt_str(&self.body)
    }

    fn state(&self) -> (r: &str) {
        self.state.as_str()
    }

    fn created_at(&self) -> (r: &str) {
        self.created_at.as_str()
    }

    fn number(&self) -> (r: u32) {
        self.number
    }

    fn user(&self) -> (r: &User) {
        &self.user
    }
}

impl PayloadRepository for PullRequest {
    open spec fn payload(&self) -> TrackedView {
        self@
    }

    fn html_url(&self) -> (r: &str) {
        self.html_url.as_str()
    }

    fn title(&self) -> (r: &str) {
        self.title.as_str()
    }

    fn body(&self) -> (r: Option<&str>) {
        as_opt_str(&self.body)
    }

    fn state(&self) -> (r: &str) {
        self.state.as_str()
    }

    fn created_at(&self) -> (r: &str) {
        self.created_at.as_str()
    }

    fn number(&self) -> (r: u32) {
        self.number
    }

    fn user(&self) -> (r: &User) {
        &self.user
    }
}

/// The issue tracker's REST address of the record that one match names.
pub open spec fn issue_api_url_of(parts: (Seq<char>, Seq<char>, Seq<char>)) -> Seq<char> {
    "https://api.github.com/repos/"@ + parts.0 + seq!['/'] + parts.1 + "/issues/"@ + parts.2
}

/// The address fetched for a list of matches: that of the last one, or the
/// empty text when there is none.
pub open spec fn issue_url_of_matches(matches: Seq<(Seq<char>, Seq<char>, Seq<char>)>) -> Seq<
    char,
> {
    if matches.len() == 0 {
        Seq::empty()
    } else {
        issue_api_url_of(matches.last())
    }
}

/// The issue tracker client. The fetch itself is made by the caller, on the
/// address that [`Github::issue_url`] computes.
pub struct Github;

impl Github {
    /// The REST address of the issue named by the last of `matches`; the
    /// empty text when there is none.
    pub fn url_from_matches(&self, matches: &Vec<Reference>) -> (r: String)
        ensures
            r@ == issue_url_of_matches(matches@.map_values(|m: Reference| m@)),
    {
        if matches.len() == 0 {
            String::new()
        } else {
            let parts = &matches[matches.len() - 1];
            let mut url = String::from_str("https://api.github.com/repos/");
            url.append(parts.owner.as_str());
            proof {
                reveal_strlit("/");
            }
            url.append("/");
            url.append(parts.repo.as_str());
            url.append("/issues/");
            url.append(parts.number.as_str());
            assert(url@ =~= issue_api_url_of(parts@));
            url
        }
    }

    /// The REST address of the issue that `text` refers to, taken from the
    /// last `owner/repo#number` reference in it; the empty text when there is
    /// none.
    pub fn issue_url(&self, text: &str) -> (r: String)
        ensures
            r@ == issue_url_of_matches(reference_matches(text@)),
    {
        let found = reference_captures(text);
        assert(found@.map_values(|m: Reference| m@) =~= reference_matches(text@));
        self.url_from_matches(&found)
    }
}

} // verus!
