//! Changelog generation for a linear commit history.
//!
//! The library slices an ordered sequence of commits into tag-bounded
//! releases and renders the resulting release chain as markdown text
//! under one of nine built-in template variants.

use vstd::prelude::*;

pub mod commit;
pub mod date;
pub mod numfmt;
pub mod oid;
pub mod release;
pub mod render;
pub mod strutil;
pub mod template;

verus! {

/// A commit range handed over by the repository layer, ready to be
/// partitioned and rendered.
///
/// The repository walk itself — resolving a revision pattern to the
/// commits it covers — happens outside this library; what arrives here
/// is the walked range, newest commit first, with each message already
/// run through the conventional-commit parser and the configuration
/// lookups.
#[derive(Debug)]
pub struct CocoGitto {
    /// The commits of the requested range, newest first.
    pub entries: Vec<release::CommitEntry>,
}

impl CocoGitto {
    pub fn new(entries: Vec<release::CommitEntry>) -> (r: Self)
        ensures
            r.entries == entries,
    {
        CocoGitto { entries }
    }

    /// The release chain of the whole range, dated with the current
    /// wall-clock time; an empty range is the single failure mode.
    pub fn get_changelog(self) -> (r: Result<release::Release, ChangelogError>)
        ensures
            self.entries@.len() == 0 ==> (r matches Err(ChangelogError::EmptyRelease)),
            self.entries@.len() > 0 ==> r is Ok && exists|d: date::NaiveDateTime|
                d.wf() && release::chain_matches(
                    r.unwrap(),
                    release::spec_groups_all(self.entries@.reverse()),
                    d,
                ),
    {
        release::release_from_commits(self.entries)
    }

    /// Partitions the range and renders it under the given template in
    /// one step: the changelog text for the tag the range was walked
    /// for.
    pub fn get_changelog_at_tag(self, template: template::Template) -> (r: Result<
        String,
        ChangelogError,
    >)
        ensures
            self.entries@.len() == 0 ==> (r matches Err(ChangelogError::EmptyRelease)),
            self.entries@.len() > 0 && !render::spec_template_ok(template) ==> r is Err && !(
            r matches Err(ChangelogError::EmptyRelease)),
            self.entries@.len() > 0 && render::spec_template_ok(template) ==> (r matches Ok(text)
                && exists|rel: release::Release, d: date::NaiveDateTime|
                d.wf() && release::chain_matches(
                    rel,
                    release::spec_groups_all(self.entries@.reverse()),
                    d,
                ) && text@ == render::spec_rendered(
                    render::Renderer {
                        template,
                        monorepo_context: None::<template::MonoRepoContext>,
                        package_context: None::<template::PackageContext>,
                    },
                    rel,
                )),
    {
        let ghost ev = self.entries@;
        let ghost t = template;
        match self.get_changelog() {
            Ok(changelog) => {
                let ghost rel = changelog;
                let r = changelog.into_markdown(template);
                proof {
                    if ev.len() > 0 && render::spec_template_ok(t) {
                        let d = choose|d: date::NaiveDateTime|
                            d.wf() && release::chain_matches(
                                rel,
                                release::spec_groups_all(ev.reverse()),
                                d,
                            );
                        assert(d.wf() && release::chain_matches(
                            rel,
                            release::spec_groups_all(ev.reverse()),
                            d,
                        ) && r.unwrap()@ == render::spec_rendered(
                            render::Renderer {
                                template: t,
                                monorepo_context: None::<template::MonoRepoContext>,
                                package_context: None::<template::PackageContext>,
                            },
                            rel,
                        ));
                    }
                }
                r
            },
            Err(e) => Err(e),
        }
    }
}

/// The structural failures a changelog operation can report.
///
/// Per-commit classification failures are never fatal: they drop the
/// commit from its release instead of surfacing here.
#[derive(Debug)]
pub enum ChangelogError {
    /// The requested commit range held no commits at all.
    EmptyRelease,
    /// A remote-linked template was requested without a usable
    /// remote context (host, repository and owner).
    MissingRemoteContext,
    /// A named custom template could not be located; the name is kept
    /// so that the caller can report it.
    TemplateNotFound(String),
}

impl ChangelogError {
    /// A short stable message for each error kind.
    pub fn message(&self) -> (r: &'static str)
        ensures
            r@ == self.spec_message(),
    {
        match self {
            ChangelogError::EmptyRelease => "no commit found to generate changelog",
            ChangelogError::MissingRemoteContext => "missing remote context to generate changelog",
            ChangelogError::TemplateNotFound(_) => "changelog template not found",
        }
    }

    /// What `message` returns for each variant.
    pub open spec fn spec_message(&self) -> Seq<char> {
        match self {
            ChangelogError::EmptyRelease => "no commit found to generate changelog"@,
            ChangelogError::MissingRemoteContext => "missing remote context to generate changelog"@,
            ChangelogError::TemplateNotFound(_) => "changelog template not found"@,
        }
    }
}

} // verus!
