//! Structured commits and their changelog projections.
//!
//! The conventional-commit text parser, the omission policy and the
//! username resolution all live outside this library; the classifier
//! here receives their outcomes as plain values and decides whether a
//! commit appears in the changelog at all.

use vstd::prelude::*;

use crate::date::NaiveDateTime;

verus! {

/// The conventional category of a commit.
#[derive(Debug)]
pub enum CommitType {
    Feature,
    BugFix,
    Chore,
    Revert,
    Performances,
    Documentation,
    Style,
    Refactor,
    Test,
    Build,
    Ci,
    Custom(String),
}

impl Clone for CommitType {
    fn clone(&self) -> (r: Self)
        ensures
            r == *self,
    {
        match self {
            CommitType::Feature => CommitType::Feature,
            CommitType::BugFix => CommitType::BugFix,
            CommitType::Chore => CommitType::Chore,
            CommitType::Revert => CommitType::Revert,
            CommitType::Performances => CommitType::Performances,
            CommitType::Documentation => CommitType::Documentation,
            CommitType::Style => CommitType::Style,
            CommitType::Refactor => CommitType::Refactor,
            CommitType::Test => CommitType::Test,
            CommitType::Build => CommitType::Build,
            CommitType::Ci => CommitType::Ci,
            CommitType::Custom(s) => CommitType::Custom(s.clone()),
        }
    }
}

/// A trailer line of a conventional commit message.
#[derive(Debug)]
pub struct Footer {
    pub token: String,
    pub content: String,
}

impl Clone for Footer {
    fn clone(&self) -> (r: Self)
        ensures
            r == *self,
    {
        Footer { token: self.token.clone(), content: self.content.clone() }
    }
}

/// A footer reduced to the two fields the changelog shows.
#[derive(Debug)]
pub struct ChangelogFooter {
    pub token: String,
    pub content: String,
}

impl From<&Footer> for ChangelogFooter {
    fn from(footer: &Footer) -> (r: Self) {
        ChangelogFooter { token: footer.token.clone(), content: footer.content.clone() }
    }
}

impl vstd::std_specs::convert::FromSpecImpl<&Footer> for ChangelogFooter {
    open spec fn obeys_from_spec() -> bool {
        true
    }

    open spec fn from_spec(footer: &Footer) -> Self {
        ChangelogFooter { token: footer.token, content: footer.content }
    }
}

/// The parsed body of a conventional commit message.
#[derive(Debug)]
pub struct ConventionalCommit {
    pub commit_type: CommitType,
    pub scope: Option<String>,
    pub summary: String,
    pub body: Option<String>,
    pub footers: Vec<Footer>,
    pub is_breaking_change: bool,
}

/// A commit with its repository metadata.
#[derive(Debug)]
pub struct Commit {
    /// The full commit hash.
    pub oid: String,
    pub conventional: ConventionalCommit,
    /// The author name recorded in the repository.
    pub author: String,
    pub date: NaiveDateTime,
}

/// A rendering-ready projection of one classified commit.
#[derive(Debug)]
pub struct ChangelogCommit {
    /// The category heading this commit is grouped under, e.g. `Features`.
    pub changelog_title: String,
    /// The resolved display handle of the author, when one is known.
    pub author_username: Option<String>,
    pub commit: Commit,
}

impl ChangelogCommit {
    pub fn from_commit(
        commit: Commit,
        author_username: Option<String>,
        changelog_title: String,
    ) -> (r: Self)
        ensures
            r == (ChangelogCommit { changelog_title, author_username, commit }),
    {
        ChangelogCommit { changelog_title, author_username, commit }
    }
}

/// The externally computed facts about one raw commit: whether the
/// conventional-commit parser accepted it, and, if so, the policy and
/// lookup results that configuration supplies for its type.
#[derive(Debug)]
pub enum CommitClassification {
    /// The message was not a well-formed conventional commit.
    Malformed,
    /// The message parsed; configuration decided the rest.
    Conventional {
        commit: Commit,
        /// Whether the commit's type is configured out of changelogs.
        omit: bool,
        /// The display handle resolved for the author, if any.
        author_username: Option<String>,
        /// The category heading configured for the commit's type.
        changelog_title: String,
    },
}

/// What `classify` keeps: a malformed or omitted commit is dropped,
/// anything else becomes a changelog entry.
pub open spec fn spec_classify(c: CommitClassification) -> Option<ChangelogCommit> {
    match c {
        CommitClassification::Malformed => None,
        CommitClassification::Conventional { commit, omit, author_username, changelog_title } => {
            if omit {
                None
            } else {
                Some(ChangelogCommit { changelog_title, author_username, commit })
            }
        },
    }
}

/// Turns one classification outcome into a changelog entry, or drops it.
///
/// Failures never propagate upward: a malformed message or an omitted
/// type yields `None`, nothing more.
pub fn classify(c: CommitClassification) -> (r: Option<ChangelogCommit>)
    ensures
        r == spec_classify(c),
{
    match c {
        CommitClassification::Malformed => None,
        CommitClassification::Conventional { commit, omit, author_username, changelog_title } => {
            if omit {
                None
            } else {
                Some(ChangelogCommit::from_commit(commit, author_username, changelog_title))
            }
        },
    }
}

} // verus!
