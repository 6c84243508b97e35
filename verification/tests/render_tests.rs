use cocogitto_changelog::commit::{
    ChangelogCommit, Commit, CommitType, ConventionalCommit, Footer,
};
use cocogitto_changelog::date::NaiveDateTime;
use cocogitto_changelog::oid::{OidOf, Tag};
use cocogitto_changelog::release::Release;
use cocogitto_changelog::render::Renderer;
use cocogitto_changelog::template::{
    MonoRepoContext, PackageBumpContext, PackageContext, RemoteContext, Template, TemplateKind,
};

fn fixture_date() -> NaiveDateTime {
    NaiveDateTime::new(2015, 9, 5, 23, 56, 4)
}

fn fixture_release() -> Release {
    let date = fixture_date();
    let paul_delafosse = "Paul Delafosse";
    let a_commit_hash = "17f7e23081db15e9318aeb37529b1d473cf41cbe";
    let version = OidOf::Tag(Tag::new(
        "1.0.0".to_string(),
        "9bb5facac5724bc81385fdd740fedbb49056da00".to_string(),
    ));
    let from = OidOf::Tag(Tag::new(
        "0.1.0".to_string(),
        "fae3a288a1bc69b14f85a1d5fe57cee1964acd60".to_string(),
    ));
    Release {
        version,
        from,
        date,
        commits: vec![
            ChangelogCommit {
                changelog_title: "Bug Fixes".to_string(),
                author_username: Some("oknozor".to_string()),
                commit: Commit {
                    oid: a_commit_hash.to_string(),
                    conventional: ConventionalCommit {
                        commit_type: CommitType::BugFix,
                        scope: Some("parser".to_string()),
                        summary: "fix parser implementation".to_string(),
                        body: Some("the body".to_string()),
                        footers: vec![Footer {
                            token: "token".to_string(),
                            content: "content".to_string(),
                        }],
                        is_breaking_change: false,
                    },
                    author: paul_delafosse.to_string(),
                    date,
                },
            },
            ChangelogCommit {
                changelog_title: "Features".to_string(),
                author_username: None,
                commit: Commit {
                    oid: a_commit_hash.to_string(),
                    conventional: ConventionalCommit {
                        commit_type: CommitType::Feature,
                        scope: None,
                        summary: "awesome feature".to_string(),
                        body: Some("the body".to_string()),
                        footers: vec![Footer {
                            token: "token".to_string(),
                            content: "content".to_string(),
                        }],
                        is_breaking_change: false,
                    },
                    author: paul_delafosse.to_string(),
                    date,
                },
            },
            ChangelogCommit {
                changelog_title: "Features".to_string(),
                author_username: Some("oknozor".to_string()),
                commit: Commit {
                    oid: a_commit_hash.to_string(),
                    conventional: ConventionalCommit {
                        commit_type: CommitType::Feature,
                        scope: Some("parser".to_string()),
                        summary: "implement the changelog generator".to_string(),
                        body: Some("the body".to_string()),
                        footers: vec![Footer {
                            token: "token".to_string(),
                            content: "content".to_string(),
                        }],
                        is_breaking_change: false,
                    },
                    author: "James Delleck".to_string(),
                    date,
                },
            },
        ],
        previous: None,
    }
}

fn package_tag(name: &str) -> OidOf {
    OidOf::Tag(Tag::new(
        name.to_string(),
        "fae3a288a1bc69b14f85a1d5fe57cee1964acd60".to_string(),
    ))
}

fn monorepo_renderer(renderer: Renderer) -> Renderer {
    renderer.with_monorepo_context(MonoRepoContext {
        package_lock: false,
        packages: vec![
            PackageBumpContext {
                package_name: "one".to_string(),
                package_path: "crates/one".to_string(),
                version: package_tag("0.1.0"),
                from: Some(package_tag("0.2.0")),
            },
            PackageBumpContext {
                package_name: "two".to_string(),
                package_path: "crates/two".to_string(),
                version: package_tag("0.2.0"),
                from: Some(package_tag("0.3.0")),
            },
        ],
    })
}

fn monorepo_manual_bump_rendered(renderer: Renderer) -> Renderer {
    renderer.with_monorepo_context(MonoRepoContext {
        package_lock: true,
        packages: vec![
            PackageBumpContext {
                package_name: "one".to_string(),
                package_path: "crates/one".to_string(),
                version: package_tag("0.1.0"),
                from: None,
            },
            PackageBumpContext {
                package_name: "two".to_string(),
                package_path: "crates/two".to_string(),
                version: package_tag("0.2.0"),
                from: None,
            },
        ],
    })
}

fn package_renderer(renderer: Renderer) -> Renderer {
    renderer.with_package_context(PackageContext {
        package_name: "one".to_string(),
    })
}

fn github_context() -> Option<RemoteContext> {
    RemoteContext::try_new(
        Some("github.com".to_string()),
        Some("cocogitto".to_string()),
        Some("cocogitto".to_string()),
    )
}

#[test]
fn should_render_default_template() {
    let release = fixture_release();
    let renderer = Renderer::default();

    let changelog = renderer.render(&release).unwrap();

    assert_eq!(
        changelog,
        "## 1.0.0 - 2015-09-05\n\
         #### Bug Fixes\n\
         - **(parser)** fix parser implementation - (17f7e23) - *oknozor*\n\
         #### Features\n\
         - **(parser)** implement the changelog generator - (17f7e23) - *oknozor*\n\
         - awesome feature - (17f7e23) - Paul Delafosse\n"
    );
}

#[test]
fn should_render_full_hash_template() {
    let release = fixture_release();
    let renderer = Renderer::try_new(Template {
        remote_context: None,
        kind: TemplateKind::FullHash,
    })
    .unwrap();

    let changelog = renderer.render(&release).unwrap();

    assert_eq!(
        changelog,
        "#### Bug Fixes\n\
         - 17f7e23081db15e9318aeb37529b1d473cf41cbe - **(parser)** fix parser implementation - @oknozor\n\
         #### Features\n\
         - 17f7e23081db15e9318aeb37529b1d473cf41cbe - **(parser)** implement the changelog generator - @oknozor\n\
         - 17f7e23081db15e9318aeb37529b1d473cf41cbe - awesome feature - Paul Delafosse\n\
         \n"
    );
}

#[test]
fn should_render_github_template() {
    let release = fixture_release();
    let renderer = Renderer::try_new(Template {
        remote_context: github_context(),
        kind: TemplateKind::Remote,
    })
    .unwrap();

    let changelog = renderer.render(&release).unwrap();

    assert_eq!(
        changelog,
        "## [1.0.0](https://github.com/cocogitto/cocogitto/compare/0.1.0..1.0.0) - 2015-09-05\n\
         #### Bug Fixes\n\
         - **(parser)** fix parser implementation - ([17f7e23](https://github.com/cocogitto/cocogitto/commit/17f7e23081db15e9318aeb37529b1d473cf41cbe)) - [@oknozor](https://github.com/oknozor)\n\
         #### Features\n\
         - **(parser)** implement the changelog generator - ([17f7e23](https://github.com/cocogitto/cocogitto/commit/17f7e23081db15e9318aeb37529b1d473cf41cbe)) - [@oknozor](https://github.com/oknozor)\n\
         - awesome feature - ([17f7e23](https://github.com/cocogitto/cocogitto/commit/17f7e23081db15e9318aeb37529b1d473cf41cbe)) - Paul Delafosse\n"
    );
}

#[test]
fn should_render_template_monorepo() {
    let release = fixture_release();
    let renderer = Renderer::try_new(Template {
        remote_context: None,
        kind: TemplateKind::MonorepoDefault,
    })
    .unwrap();

    let renderer = monorepo_renderer(renderer);

    let changelog = renderer.render(&release).unwrap();

    assert_eq!(
        changelog,
        "## 1.0.0 - 2015-09-05\n\
         ### Package updates\n\
         - one bumped to 0.1.0\n\
         - two bumped to 0.2.0\n\
         ### Global changes\n\
         #### Bug Fixes\n\
         - **(parser)** fix parser implementation - (17f7e23) - *oknozor*\n\
         #### Features\n\
         - **(parser)** implement the changelog generator - (17f7e23) - *oknozor*\n\
         - awesome feature - (17f7e23) - Paul Delafosse\n"
    );
}

#[test]
fn should_render_template_monorepo_for_manual_bump() {
    let release = fixture_release();
    let renderer = Renderer::try_new(Template {
        remote_context: None,
        kind: TemplateKind::MonorepoDefault,
    })
    .unwrap();

    let renderer = monorepo_manual_bump_rendered(renderer);

    let changelog = renderer.render(&release).unwrap();

    assert_eq!(
        changelog,
        "## 1.0.0 - 2015-09-05\n\
         ### Packages\n\
         - one locked to 0.1.0\n\
         - two locked to 0.2.0\n\
         ### Global changes\n\
         #### Bug Fixes\n\
         - **(parser)** fix parser implementation - (17f7e23) - *oknozor*\n\
         #### Features\n\
         - **(parser)** implement the changelog generator - (17f7e23) - *oknozor*\n\
         - awesome feature - (17f7e23) - Paul Delafosse\n"
    );
}

#[test]
fn should_render_full_hash_template_monorepo() {
    let release = fixture_release();
    let renderer = Renderer::try_new(Template {
        remote_context: None,
        kind: TemplateKind::MonorepoFullHash,
    })
    .unwrap();

    let renderer = monorepo_renderer(renderer);

    let changelog = renderer.render(&release).unwrap();

    assert_eq!(
        changelog,
        "### Package updates\n\
         - one bumped to 0.1.0\n\
         - two bumped to 0.2.0\n\
         ### Global changes\n\
         #### Bug Fixes\n\
         - 17f7e23081db15e9318aeb37529b1d473cf41cbe - **(parser)** fix parser implementation - @oknozor\n\
         #### Features\n\
         - 17f7e23081db15e9318aeb37529b1d473cf41cbe - **(parser)** implement the changelog generator - @oknozor\n\
         - 17f7e23081db15e9318aeb37529b1d473cf41cbe - awesome feature - Paul Delafosse\n\
         \n"
    );
}

#[test]
fn should_render_full_hash_template_manual_monorepo() {
    let release = fixture_release();
    let renderer = Renderer::try_new(Template {
        remote_context: None,
        kind: TemplateKind::MonorepoFullHash,
    })
    .unwrap();

    let renderer = monorepo_manual_bump_rendered(renderer);

    let changelog = renderer.render(&release).unwrap();

    assert_eq!(
        changelog,
        "### Packages\n\
         - one locked to 0.1.0\n\
         - two locked to 0.2.0\n\
         ### Global changes\n\
         #### Bug Fixes\n\
         - 17f7e23081db15e9318aeb37529b1d473cf41cbe - **(parser)** fix parser implementation - @oknozor\n\
         #### Features\n\
         - 17f7e23081db15e9318aeb37529b1d473cf41cbe - **(parser)** implement the changelog generator - @oknozor\n\
         - 17f7e23081db15e9318aeb37529b1d473cf41cbe - awesome feature - Paul Delafosse\n\
         \n"
    );
}

#[test]
fn should_render_remote_template_monorepo() {
    let release = fixture_release();
    let renderer = Renderer::try_new(Template {
        remote_context: github_context(),
        kind: TemplateKind::MonorepoRemote,
    })
    .unwrap();

    let renderer = monorepo_renderer(renderer);

    let changelog = renderer.render(&release).unwrap();

    assert_eq!(
        changelog,
        "## [1.0.0](https://github.com/cocogitto/cocogitto/compare/0.1.0..1.0.0) - 2015-09-05\n\
         ### Package updates\n\
         - [0.1.0](crates/one) bumped to [0.1.0](https://github.com/cocogitto/cocogitto/compare/0.2.0..0.1.0)\n\
         - [0.2.0](crates/two) bumped to [0.2.0](https://github.com/cocogitto/cocogitto/compare/0.3.0..0.2.0)\n\
         ### Global changes\n\
         #### Bug Fixes\n\
         - **(parser)** fix parser implementation - ([17f7e23](https://github.com/cocogitto/cocogitto/commit/17f7e23081db15e9318aeb37529b1d473cf41cbe)) - [@oknozor](https://github.com/oknozor)\n\
         #### Features\n\
         - **(parser)** implement the changelog generator - ([17f7e23](https://github.com/cocogitto/cocogitto/commit/17f7e23081db15e9318aeb37529b1d473cf41cbe)) - [@oknozor](https://github.com/oknozor)\n\
         - awesome feature - ([17f7e23](https://github.com/cocogitto/cocogitto/commit/17f7e23081db15e9318aeb37529b1d473cf41cbe)) - Paul Delafosse\n"
    );
}

#[test]
fn should_render_template_package() {
    let release = fixture_release();
    let renderer = Renderer::try_new(Template {
        remote_context: None,
        kind: TemplateKind::PackageDefault,
    })
    .unwrap();

    let renderer = package_renderer(renderer);

    let changelog = renderer.render(&release).unwrap();

    assert_eq!(
        changelog,
        "## 1.0.0 - 2015-09-05\n\
         #### Bug Fixes\n\
         - **(parser)** fix parser implementation - (17f7e23) - *oknozor*\n\
         #### Features\n\
         - **(parser)** implement the changelog generator - (17f7e23) - *oknozor*\n\
         - awesome feature - (17f7e23) - Paul Delafosse\n"
    );
}

#[test]
fn should_render_full_hash_template_package() {
    let release = fixture_release();
    let renderer = Renderer::try_new(Template {
        remote_context: None,
        kind: TemplateKind::PackageFullHash,
    })
    .unwrap();

    let renderer = package_renderer(renderer);

    let changelog = renderer.render(&release).unwrap();

    assert_eq!(
        changelog,
        "#### Bug Fixes\n\
         - 17f7e23081db15e9318aeb37529b1d473cf41cbe - **(parser)** fix parser implementation - @oknozor\n\
         #### Features\n\
         - 17f7e23081db15e9318aeb37529b1d473cf41cbe - **(parser)** implement the changelog generator - @oknozor\n\
         - 17f7e23081db15e9318aeb37529b1d473cf41cbe - awesome feature - Paul Delafosse\n\
         \n"
    );
}

#[test]
fn should_render_remote_template_package() {
    let release = fixture_release();
    let renderer = Renderer::try_new(Template {
        remote_context: github_context(),
        kind: TemplateKind::PackageRemote,
    })
    .unwrap();

    let renderer = package_renderer(renderer);

    let changelog = renderer.render(&release).unwrap();

    assert_eq!(
        changelog,
        "## [1.0.0](https://github.com/cocogitto/cocogitto/compare/0.1.0..1.0.0) - 2015-09-05\n\
         #### Bug Fixes\n\
         - **(parser)** fix parser implementation - ([17f7e23](https://github.com/cocogitto/cocogitto/commit/17f7e23081db15e9318aeb37529b1d473cf41cbe)) - [@oknozor](https://github.com/oknozor)\n\
         #### Features\n\
         - **(parser)** implement the changelog generator - ([17f7e23](https://github.com/cocogitto/cocogitto/commit/17f7e23081db15e9318aeb37529b1d473cf41cbe)) - [@oknozor](https://github.com/oknozor)\n\
         - awesome feature - ([17f7e23](https://github.com/cocogitto/cocogitto/commit/17f7e23081db15e9318aeb37529b1d473cf41cbe)) - Paul Delafosse\n"
    );
}

#[test]
fn should_render_remote_template_monorepo_for_manual_bump() {
    let release = fixture_release();
    let renderer = Renderer::try_new(Template {
        remote_context: github_context(),
        kind: TemplateKind::MonorepoRemote,
    })
    .unwrap();

    let renderer = monorepo_manual_bump_rendered(renderer);

    let changelog = renderer.render(&release).unwrap();

    assert_eq!(
        changelog,
        "## [1.0.0](https://github.com/cocogitto/cocogitto/compare/0.1.0..1.0.0) - 2015-09-05\n\
         ### Packages\n\
         - [0.1.0](crates/one) locked to [0.1.0](https://github.com/cocogitto/cocogitto/tree/0.1.0)\n\
         - [0.2.0](crates/two) locked to [0.2.0](https://github.com/cocogitto/cocogitto/tree/0.2.0)\n\
         ### Global changes\n\
         #### Bug Fixes\n\
         - **(parser)** fix parser implementation - ([17f7e23](https://github.com/cocogitto/cocogitto/commit/17f7e23081db15e9318aeb37529b1d473cf41cbe)) - [@oknozor](https://github.com/oknozor)\n\
         #### Features\n\
         - **(parser)** implement the changelog generator - ([17f7e23](https://github.com/cocogitto/cocogitto/commit/17f7e23081db15e9318aeb37529b1d473cf41cbe)) - [@oknozor](https://github.com/oknozor)\n\
         - awesome feature - ([17f7e23](https://github.com/cocogitto/cocogitto/commit/17f7e23081db15e9318aeb37529b1d473cf41cbe)) - Paul Delafosse\n"
    );
}

#[test]
fn rendering_twice_is_identical() {
    let release = fixture_release();
    let renderer = Renderer::default();

    let first = renderer.render(&release).unwrap();
    let second = renderer.render(&release).unwrap();

    assert_eq!(first, second);
}

#[test]
fn group_titles_follow_first_appearance_order() {
    let mut release = fixture_release();
    // Titles appear in the order Features, Bug Fixes, Features.
    release.commits.swap(0, 1);
    let renderer = Renderer::default();

    let changelog = renderer.render(&release).unwrap();

    let features_at = changelog.find("#### Features").unwrap();
    let bug_fixes_at = changelog.find("#### Bug Fixes").unwrap();
    assert!(features_at < bug_fixes_at);
}

#[test]
fn render_rejects_remote_template_without_context() {
    let release = fixture_release();
    let renderer = Renderer {
        template: Template {
            remote_context: None,
            kind: TemplateKind::Remote,
        },
        monorepo_context: None,
        package_context: None,
    };

    let result = renderer.render(&release);

    assert!(matches!(
        result,
        Err(cocogitto_changelog::ChangelogError::MissingRemoteContext)
    ));
}

#[test]
fn try_new_rejects_custom_template() {
    let result = Renderer::try_new(Template {
        remote_context: None,
        kind: TemplateKind::Custom("my_template".to_string()),
    });

    match result {
        Err(cocogitto_changelog::ChangelogError::TemplateNotFound(name)) => {
            assert_eq!(name, "my_template");
        }
        _ => panic!("expected a template-not-found error"),
    }
}

#[test]
fn renders_untagged_release_without_heading() {
    let mut release = fixture_release();
    release.version = OidOf::FirstCommit("17f7e23081db15e9318aeb37529b1d473cf41cbe".to_string());
    let renderer = Renderer::default();

    let changelog = renderer.render(&release).unwrap();

    assert!(changelog.starts_with("#### Bug Fixes\n"));
}

#[test]
fn renders_release_chain_newest_first() {
    let mut older = fixture_release();
    older.version = OidOf::Tag(Tag::new(
        "0.1.0".to_string(),
        "fae3a288a1bc69b14f85a1d5fe57cee1964acd60".to_string(),
    ));
    let mut newer = fixture_release();
    newer.previous = Some(Box::new(older));
    let renderer = Renderer::default();

    let changelog = renderer.render(&newer).unwrap();

    let first = changelog.find("## 1.0.0 - 2015-09-05").unwrap();
    let second = changelog.find("## 0.1.0 - 2015-09-05").unwrap();
    assert!(first < second);
}
