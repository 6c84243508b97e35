use cocogitto_changelog::commit::{Commit, CommitClassification, CommitType, ConventionalCommit};
use cocogitto_changelog::date::NaiveDateTime;
use cocogitto_changelog::oid::{OidOf, Tag};
use cocogitto_changelog::release::CommitEntry;
use cocogitto_changelog::template::{Template, TemplateKind};
use cocogitto_changelog::{ChangelogError, CocoGitto};

fn entry(tag: Option<&str>, oid: &str, summary: &str) -> CommitEntry {
    let identifier = match tag {
        Some(name) => OidOf::Tag(Tag::new(name.to_string(), oid.to_string())),
        None => OidOf::FirstCommit(oid.to_string()),
    };
    CommitEntry {
        oid: identifier,
        classification: CommitClassification::Conventional {
            commit: Commit {
                oid: oid.to_string(),
                conventional: ConventionalCommit {
                    commit_type: CommitType::Feature,
                    scope: None,
                    summary: summary.to_string(),
                    body: None,
                    footers: vec![],
                    is_breaking_change: false,
                },
                author: "oknozor".to_string(),
                date: NaiveDateTime::new(2015, 9, 5, 23, 56, 4),
            },
            omit: false,
            author_username: Some("oknozor".to_string()),
            changelog_title: "Features".to_string(),
        },
    }
}

#[test]
fn should_get_a_release() {
    let cog = CocoGitto::new(vec![
        entry(Some("0.1.0"), "ccc", "feature 2"),
        entry(None, "bbb", "feature 1"),
        entry(None, "aaa", "first commit"),
    ]);

    let release = cog.get_changelog();

    assert!(release.is_ok());
    assert!(!release.unwrap().commits.is_empty());
}

#[test]
fn get_changelog_of_empty_range_fails() {
    let cog = CocoGitto::new(vec![]);
    let release = cog.get_changelog();
    assert!(matches!(release, Err(ChangelogError::EmptyRelease)));
}

#[test]
fn get_changelog_at_tag_renders_the_whole_range() {
    let cog = CocoGitto::new(vec![
        entry(Some("0.1.0"), "ccc", "feature 2"),
        entry(None, "bbb", "feature 1"),
        entry(None, "aaa", "first commit"),
    ]);
    let template = Template {
        remote_context: None,
        kind: TemplateKind::FullHash,
    };

    let changelog = cog.get_changelog_at_tag(template).unwrap();

    // The full-hash template shows no heading and no date, so the
    // clock-dependent part of the release never reaches the output.
    assert_eq!(
        changelog,
        "#### Features\n\
         - ccc - feature 2 - @oknozor\n\
         - bbb - feature 1 - @oknozor\n\
         - aaa - first commit - @oknozor\n\
         \n"
    );
}

#[test]
fn get_changelog_at_tag_reports_a_missing_template() {
    let cog = CocoGitto::new(vec![entry(None, "aaa", "first commit")]);
    let template = Template {
        remote_context: None,
        kind: TemplateKind::Custom("nowhere".to_string()),
    };

    let result = cog.get_changelog_at_tag(template);

    assert!(matches!(result, Err(ChangelogError::TemplateNotFound(_))));
}
