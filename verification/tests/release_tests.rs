use cocogitto_changelog::commit::{
    Commit, CommitClassification, CommitType, ConventionalCommit,
};
use cocogitto_changelog::date::NaiveDateTime;
use cocogitto_changelog::oid::{OidOf, Tag};
use cocogitto_changelog::release::{release_from_commits_at, CommitEntry};
use cocogitto_changelog::ChangelogError;

fn entry_date() -> NaiveDateTime {
    NaiveDateTime::new(2015, 9, 5, 23, 56, 4)
}

fn conventional(kind: CommitType, summary: &str) -> ConventionalCommit {
    ConventionalCommit {
        commit_type: kind,
        scope: None,
        summary: summary.to_string(),
        body: None,
        footers: vec![],
        is_breaking_change: false,
    }
}

fn plain_entry(oid: &str, summary: &str, title: &str) -> CommitEntry {
    CommitEntry {
        oid: OidOf::FirstCommit(oid.to_string()),
        classification: CommitClassification::Conventional {
            commit: Commit {
                oid: oid.to_string(),
                conventional: conventional(CommitType::Feature, summary),
                author: "oknozor".to_string(),
                date: entry_date(),
            },
            omit: false,
            author_username: None,
            changelog_title: title.to_string(),
        },
    }
}

fn tagged_entry(tag: &str, oid: &str, summary: &str, title: &str) -> CommitEntry {
    CommitEntry {
        oid: OidOf::Tag(Tag::new(tag.to_string(), oid.to_string())),
        classification: CommitClassification::Conventional {
            commit: Commit {
                oid: oid.to_string(),
                conventional: conventional(CommitType::Feature, summary),
                author: "oknozor".to_string(),
                date: entry_date(),
            },
            omit: false,
            author_username: None,
            changelog_title: title.to_string(),
        },
    }
}

fn oid_display(oid: &OidOf) -> String {
    oid.display()
}

#[test]
fn empty_range_is_an_error() {
    let result = release_from_commits_at(vec![], entry_date());
    assert!(matches!(result, Err(ChangelogError::EmptyRelease)));
}

#[test]
fn untagged_range_yields_one_release() {
    // Newest first, as a revision walk hands them over.
    let entries = vec![
        plain_entry("ccc", "feature 2", "Features"),
        plain_entry("bbb", "feature 1", "Features"),
        plain_entry("aaa", "first commit", "Miscellaneous Chores"),
    ];

    let release = release_from_commits_at(entries, entry_date()).unwrap();

    assert!(release.previous.is_none());
    assert_eq!(oid_display(&release.version), "ccc");
    assert_eq!(oid_display(&release.from), "aaa");
    let oids: Vec<String> = release
        .commits
        .iter()
        .map(|commit| commit.commit.oid.clone())
        .collect();
    assert_eq!(oids, vec!["ccc".to_string(), "bbb".to_string(), "aaa".to_string()]);
}

#[test]
fn range_closed_by_a_tag_yields_one_release() {
    let entries = vec![
        tagged_entry("0.1.0", "ccc", "feature 2", "Features"),
        plain_entry("bbb", "feature 1", "Features"),
        plain_entry("aaa", "first commit", "Miscellaneous Chores"),
    ];

    let release = release_from_commits_at(entries, entry_date()).unwrap();

    assert!(release.previous.is_none());
    assert_eq!(oid_display(&release.version), "0.1.0");
    assert_eq!(oid_display(&release.from), "aaa");
    let oids: Vec<String> = release
        .commits
        .iter()
        .map(|commit| commit.commit.oid.clone())
        .collect();
    assert_eq!(oids, vec!["ccc".to_string(), "bbb".to_string(), "aaa".to_string()]);
}

#[test]
fn shoud_get_range_for_a_multiple_release() {
    let entries = vec![
        tagged_entry("0.2.0", "eee", "feature 4", "Features"),
        plain_entry("ddd", "feature 3", "Features"),
        tagged_entry("0.1.0", "ccc", "feature 2", "Features"),
        plain_entry("bbb", "feature 1", "Features"),
        plain_entry("aaa", "first commit", "Miscellaneous Chores"),
    ];

    let release = release_from_commits_at(entries, entry_date()).unwrap();

    assert_eq!(oid_display(&release.version), "0.2.0");
    assert_eq!(oid_display(&release.from), "0.1.0");
    let oids: Vec<String> = release
        .commits
        .iter()
        .map(|commit| commit.commit.oid.clone())
        .collect();
    assert_eq!(oids, vec!["eee".to_string(), "ddd".to_string()]);

    let previous = release.previous.unwrap();
    assert_eq!(oid_display(&previous.version), "0.1.0");
    assert_eq!(oid_display(&previous.from), "aaa");
    let oids: Vec<String> = previous
        .commits
        .iter()
        .map(|commit| commit.commit.oid.clone())
        .collect();
    assert_eq!(oids, vec!["ccc".to_string(), "bbb".to_string(), "aaa".to_string()]);
    assert!(previous.previous.is_none());
}

#[test]
fn commits_after_the_last_tag_form_a_pending_release() {
    let entries = vec![
        plain_entry("ddd", "the bug", "Bug Fixes"),
        tagged_entry("1.0.0", "ccc", "release", "Miscellaneous Chores"),
        plain_entry("bbb", "a feature", "Features"),
        plain_entry("aaa", "another commit", "Miscellaneous Chores"),
    ];

    let release = release_from_commits_at(entries, entry_date()).unwrap();

    let head_oids: Vec<String> = release
        .commits
        .iter()
        .map(|commit| commit.commit.oid.clone())
        .collect();
    assert_eq!(head_oids, vec!["ddd".to_string()]);
    assert_eq!(oid_display(&release.version), "ddd");
    assert_eq!(oid_display(&release.from), "1.0.0");

    let previous = release.previous.unwrap();
    let older_oids: Vec<String> = previous
        .commits
        .iter()
        .map(|commit| commit.commit.oid.clone())
        .collect();
    assert_eq!(older_oids, vec!["ccc".to_string(), "bbb".to_string(), "aaa".to_string()]);
    assert!(previous.previous.is_none());
}

#[test]
fn malformed_and_omitted_commits_are_dropped() {
    let mut omitted = plain_entry("bbb", "noise", "Miscellaneous Chores");
    omitted.classification = match omitted.classification {
        CommitClassification::Conventional {
            commit,
            author_username,
            changelog_title,
            ..
        } => CommitClassification::Conventional {
            commit,
            omit: true,
            author_username,
            changelog_title,
        },
        other => other,
    };
    let entries = vec![
        plain_entry("ccc", "kept", "Features"),
        omitted,
        CommitEntry {
            oid: OidOf::FirstCommit("aaa".to_string()),
            classification: CommitClassification::Malformed,
        },
    ];

    let release = release_from_commits_at(entries, entry_date()).unwrap();

    let oids: Vec<String> = release
        .commits
        .iter()
        .map(|commit| commit.commit.oid.clone())
        .collect();
    assert_eq!(oids, vec!["ccc".to_string()]);
    // The boundaries still come from the full range, dropped commits included.
    assert_eq!(oid_display(&release.version), "ccc");
    assert_eq!(oid_display(&release.from), "aaa");
}

#[test]
fn tag_as_first_processed_commit_yields_a_single_commit_release() {
    let entries = vec![
        plain_entry("bbb", "the bug", "Bug Fixes"),
        tagged_entry("1.0.0", "aaa", "release", "Miscellaneous Chores"),
    ];

    let release = release_from_commits_at(entries, entry_date()).unwrap();

    let previous = release.previous.unwrap();
    let older_oids: Vec<String> = previous
        .commits
        .iter()
        .map(|commit| commit.commit.oid.clone())
        .collect();
    assert_eq!(older_oids, vec!["aaa".to_string()]);
    assert_eq!(oid_display(&previous.version), "1.0.0");
    // The group holds the tagged commit alone, so both boundaries are the tag.
    assert_eq!(oid_display(&previous.from), "1.0.0");
}

#[test]
fn get_release_range_integration_test() {
    // The walked range between two tags, newest first.
    let entries = vec![
        tagged_entry("0.32.3", "fff", "feature 6", "Features"),
        plain_entry("eee", "feature 5", "Features"),
        tagged_entry("0.32.2", "ddd", "feature 4", "Features"),
        plain_entry("ccc", "feature 3", "Features"),
    ];

    let release = release_from_commits_at(entries, entry_date()).unwrap();

    assert_eq!(oid_display(&release.version), "0.32.3");

    let release = *release.previous.unwrap();
    assert_eq!(oid_display(&release.version), "0.32.2");

    assert!(release.previous.is_none());
}

#[test]
fn recursive_from_origin_to_head() {
    // A whole history with three tags and untagged work at the head:
    // the chain holds one release per tag, plus the pending one.
    let tag_count = 3;
    let entries = vec![
        plain_entry("hhh", "pending work", "Features"),
        tagged_entry("0.3.0", "ggg", "feature 6", "Features"),
        plain_entry("fff", "feature 5", "Features"),
        tagged_entry("0.2.0", "eee", "feature 4", "Features"),
        plain_entry("ddd", "feature 3", "Features"),
        tagged_entry("0.1.0", "ccc", "feature 2", "Features"),
        plain_entry("bbb", "feature 1", "Features"),
        plain_entry("aaa", "first commit", "Miscellaneous Chores"),
    ];

    let mut release = release_from_commits_at(entries, entry_date()).unwrap();
    let mut count = 0;

    while let Some(previous) = release.previous {
        release = *previous;
        count += 1;
    }

    assert_eq!(count, tag_count);
}

#[test]
fn release_date_is_the_given_generation_date() {
    let date = NaiveDateTime::new(2020, 1, 2, 3, 4, 5);
    let entries = vec![plain_entry("aaa", "first commit", "Features")];

    let release = release_from_commits_at(entries, date).unwrap();

    assert_eq!(release.date.year, 2020);
    assert_eq!(release.date.month, 1);
    assert_eq!(release.date.day, 2);
}
