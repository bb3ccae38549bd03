//! The reference extractor: finds `owner/repo#number` references in free text.

use vstd::prelude::*;

verus! {

/// The three captured parts of one `owner/repo#number` match.
pub struct Reference {
    pub owner: String,
    pub repo: String,
    pub number: String,
}

impl View for Reference {
    type V = (Seq<char>, Seq<char>, Seq<char>);

    open spec fn view(&self) -> Self::V {
        (self.owner@, self.repo@, self.number@)
    }
}

/// The successive non-overlapping matches of the reference pattern
/// `(?P<owner>[\w.-]*)/(?P<repo>[\w.-]*)#(?P<issue_number>\d*)` in `text`,
/// from left to right, each as its (owner, repo, number) captures.
pub uninterp spec fn reference_matches(text: Seq<char>) -> Seq<(Seq<char>, Seq<char>, Seq<char>)>;

/// One match written back as `owner/repo#number`.
pub open spec fn joined_reference(parts: (Seq<char>, Seq<char>, Seq<char>)) -> Seq<char> {
    parts.0 + seq!['/'] + parts.1 + seq!['#'] + parts.2
}

/// The reference kept from a list of matches: the last one, joined, or the
/// empty text when there is none.
pub open spec fn kept_reference(matches: Seq<(Seq<char>, Seq<char>, Seq<char>)>) -> Seq<char> {
    if matches.len() == 0 {
        Seq::empty()
    } else {
        joined_reference(matches.last())
    }
}

/// What the extractor returns for `text`.
pub open spec fn extracted_reference(text: Seq<char>) -> Seq<char> {
    kept_reference(reference_matches(text))
}

/// Relies on regex::Regex::new and Regex::captures_iter: the successive
/// matches of the reference pattern, each with its three named groups (which
/// always take part in a match, so indexing them does not panic).
#[verifier::external_body]
pub(crate) fn reference_captures(text: &str) -> (r: Vec<Reference>)
    ensures
        r@.len() == reference_matches(text@).len(),
        forall|i: int| 0 <= i < r@.len() ==> r@[i]@ == reference_matches(text@)[i],
{
    let re = regex::Regex::new(r"(?P<owner>[\w.-]*)\/(?P<repo>[\w.-]*)\#(?P<issue_number>\d*)").unwrap();
    let mut found = Vec::new();
    for caps in re.captures_iter(text) {
        found.push(Reference {
            owner: caps["owner"].to_string(),
            repo: caps["repo"].to_string(),
            number: caps["issue_number"].to_string(),
        });
    }
    found
}

/// Writes one match back as `owner/repo#number`.
pub fn join_reference(parts: &Reference) -> (r: String)
    ensures
        r@ == joined_reference(parts@),
{
    let mut s = parts.owner.clone();
    proof {
        reveal_strlit("/");
        reveal_strlit("#");
    }
    s.append("/");
    s.append(parts.repo.as_str());
    s.append("#");
    s.append(parts.number.as_str());
    assert(s@ =~= joined_reference(parts@));
    s
}

/// Picks the reference to keep from the matches found, in order: each match
/// overwrites the one before it, so the last one wins, and no match gives the
/// empty text.
pub fn last_reference(matches: &Vec<Reference>) -> (r: String)
    ensures
        r@ == kept_reference(matches@.map_values(|m: Reference| m@)),
{
    let ghost views = matches@.map_values(|m: Reference| m@);
    let mut kept = String::new();
    let mut i: usize = 0;
    while i < matches.len()
        invariant
            i <= matches@.len(),
            views == matches@.map_values(|m: Reference| m@),
            kept@ == kept_reference(views.take(i as int)),
        decreases matches@.len() - i,
    {
        kept = join_reference(&matches[i]);
        i = i + 1;
        assert(views.take(i as int).last() == views[i - 1]);
    }
    assert(views.take(i as int) =~= views);
    kept
}

/// Finds every `owner/repo#number` reference in `text` and returns the last
/// one, written back as `owner/repo#number`; the empty text when there is
/// none.
pub fn extract_reference(text: &str) -> (r: String)
    ensures
        r@ == extracted_reference(text@),
        reference_matches(text@).len() == 0 ==> r@ == Seq::<char>::empty(),
        reference_matches(text@).len() > 0 ==> r@ == joined_reference(reference_matches(text@).last()),
{
    let found = reference_captures(text);
    let r = last_reference(&found);
    assert(found@.map_values(|m: Reference| m@) =~= reference_matches(text@));
    r
}

} // verus!
