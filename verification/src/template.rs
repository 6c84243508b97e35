//! Template selection: nine built-in variants and the custom escape hatch.
//!
//! A template is a family (plain, full-hash, remote-linked) in one of
//! three flavors (simple, monorepo, package). The remote-linked family
//! needs a remote context; selecting it without one is a hard error.

use vstd::prelude::*;

use crate::oid::OidOf;
use crate::strutil::str_eq;
use crate::ChangelogError;

verus! {

/// The coordinates for hyperlinked rendering: host, repository and owner.
#[derive(Debug)]
pub struct RemoteContext {
    /// The host name, e.g. `github.com`.
    pub remote: String,
    /// The repository name.
    pub repository: String,
    /// The owner or organisation name.
    pub owner: String,
}

impl Clone for RemoteContext {
    fn clone(&self) -> (r: Self)
        ensures
            r == *self,
    {
        RemoteContext {
            remote: self.remote.clone(),
            repository: self.repository.clone(),
            owner: self.owner.clone(),
        }
    }
}

impl RemoteContext {
    /// A context is usable only with all three coordinates present; a
    /// partly configured remote is treated as absent.
    pub fn try_new(remote: Option<String>, repository: Option<String>, owner: Option<String>) -> (r:
        Option<RemoteContext>)
        ensures
            match (remote, repository, owner) {
                (Some(rm), Some(rp), Some(ow)) => r == Some(
                    RemoteContext { remote: rm, repository: rp, owner: ow },
                ),
                _ => r is None,
            },
    {
        match (remote, repository, owner) {
            (Some(rm), Some(rp), Some(ow)) => Some(
                RemoteContext { remote: rm, repository: rp, owner: ow },
            ),
            _ => None,
        }
    }
}

/// One of the nine built-in template variants, or a user-named custom
/// template to be looked up elsewhere.
#[derive(Debug)]
pub enum TemplateKind {
    Default,
    FullHash,
    Remote,
    MonorepoDefault,
    MonorepoFullHash,
    MonorepoRemote,
    PackageDefault,
    PackageFullHash,
    PackageRemote,
    /// A user-supplied template identifier, passed through for external lookup.
    Custom(String),
}

impl Clone for TemplateKind {
    fn clone(&self) -> (r: Self)
        ensures
            r == *self,
    {
        match self {
            TemplateKind::Default => TemplateKind::Default,
            TemplateKind::FullHash => TemplateKind::FullHash,
            TemplateKind::Remote => TemplateKind::Remote,
            TemplateKind::MonorepoDefault => TemplateKind::MonorepoDefault,
            TemplateKind::MonorepoFullHash => TemplateKind::MonorepoFullHash,
            TemplateKind::MonorepoRemote => TemplateKind::MonorepoRemote,
            TemplateKind::PackageDefault => TemplateKind::PackageDefault,
            TemplateKind::PackageFullHash => TemplateKind::PackageFullHash,
            TemplateKind::PackageRemote => TemplateKind::PackageRemote,
            TemplateKind::Custom(s) => TemplateKind::Custom(s.clone()),
        }
    }
}

impl TemplateKind {
    /// The remote-linked family, which cannot render without a context.
    pub open spec fn is_remote_family(&self) -> bool {
        self is Remote || self is MonorepoRemote || self is PackageRemote
    }

    /// The full-hash family, which renders no release heading.
    pub open spec fn is_full_hash_family(&self) -> bool {
        self is FullHash || self is MonorepoFullHash || self is PackageFullHash
    }

    /// The monorepo flavor, which prepends a per-package block.
    pub open spec fn is_monorepo_flavor(&self) -> bool {
        self is MonorepoDefault || self is MonorepoFullHash || self is MonorepoRemote
    }

    /// Whether this kind belongs to the remote-linked family.
    pub fn remote_family(&self) -> (r: bool)
        ensures
            r == self.is_remote_family(),
    {
        match self {
            TemplateKind::Remote => true,
            TemplateKind::MonorepoRemote => true,
            TemplateKind::PackageRemote => true,
            _ => false,
        }
    }

    /// Whether this kind belongs to the full-hash family.
    pub fn full_hash_family(&self) -> (r: bool)
        ensures
            r == self.is_full_hash_family(),
    {
        match self {
            TemplateKind::FullHash => true,
            TemplateKind::MonorepoFullHash => true,
            TemplateKind::PackageFullHash => true,
            _ => false,
        }
    }

    /// Whether this kind is a monorepo flavor.
    pub fn monorepo_flavor(&self) -> (r: bool)
        ensures
            r == self.is_monorepo_flavor(),
    {
        match self {
            TemplateKind::MonorepoDefault => true,
            TemplateKind::MonorepoFullHash => true,
            TemplateKind::MonorepoRemote => true,
            _ => false,
        }
    }
}

/// A selected template kind plus the optional remote coordinates.
#[derive(Debug)]
pub struct Template {
    pub remote_context: Option<RemoteContext>,
    pub kind: TemplateKind,
}

/// The names that select the remote-linked family.
pub open spec fn spec_remote_name(n: Seq<char>) -> bool {
    n == "remote"@ || n == "monorepo_remote"@ || n == "package_remote"@
}

/// The names of the nine built-in variants.
pub open spec fn spec_builtin_name(n: Seq<char>) -> bool {
    ||| n == "default"@
    ||| n == "full_hash"@
    ||| n == "remote"@
    ||| n == "monorepo_default"@
    ||| n == "monorepo_full_hash"@
    ||| n == "monorepo_remote"@
    ||| n == "package_default"@
    ||| n == "package_full_hash"@
    ||| n == "package_remote"@
}

/// Which kind each template name selects; an unrecognized name becomes
/// a custom template carrying that name.
pub open spec fn spec_kind_for_name(n: Seq<char>, k: TemplateKind) -> bool {
    match k {
        TemplateKind::Default => n == "default"@,
        TemplateKind::FullHash => n == "full_hash"@,
        TemplateKind::Remote => n == "remote"@,
        TemplateKind::MonorepoDefault => n == "monorepo_default"@,
        TemplateKind::MonorepoFullHash => n == "monorepo_full_hash"@,
        TemplateKind::MonorepoRemote => n == "monorepo_remote"@,
        TemplateKind::PackageDefault => n == "package_default"@,
        TemplateKind::PackageFullHash => n == "package_full_hash"@,
        TemplateKind::PackageRemote => n == "package_remote"@,
        TemplateKind::Custom(s) => !spec_builtin_name(n) && s@ == n,
    }
}

/// What selecting the template named `n` with context `c` must return.
pub open spec fn spec_selected(
    n: Seq<char>,
    c: Option<RemoteContext>,
    r: Result<Template, ChangelogError>,
) -> bool {
    &&& (r is Err <==> spec_remote_name(n) && c is None)
    &&& r is Err ==> (r matches Err(ChangelogError::MissingRemoteContext))
    &&& r is Ok ==> spec_kind_for_name(n, r.unwrap().kind) && r.unwrap().remote_context == c
}

impl Template {
    /// Resolves a requested template name.
    ///
    /// A recognized name maps to its built-in variant; any other name
    /// is kept as a custom template identifier. Selecting a
    /// remote-linked variant without a context fails loudly instead of
    /// degrading to plain rendering.
    pub fn from_arg(name: &str, context: Option<RemoteContext>) -> (r: Result<
        Template,
        ChangelogError,
    >)
        ensures
            spec_selected(name@, context, r),
    {
        proof {
            reveal_strlit("default");
            reveal_strlit("full_hash");
            reveal_strlit("remote");
            reveal_strlit("monorepo_default");
            reveal_strlit("monorepo_full_hash");
            reveal_strlit("monorepo_remote");
            reveal_strlit("package_default");
            reveal_strlit("package_full_hash");
            reveal_strlit("package_remote");
        }
        if context.is_none() && (str_eq(name, "remote") || str_eq(name, "monorepo_remote")
            || str_eq(name, "package_remote")) {
            return Err(ChangelogError::MissingRemoteContext);
        }
        let kind = if str_eq(name, "default") {
            TemplateKind::Default
        } else if str_eq(name, "full_hash") {
            TemplateKind::FullHash
        } else if str_eq(name, "remote") {
            TemplateKind::Remote
        } else if str_eq(name, "monorepo_default") {
            TemplateKind::MonorepoDefault
        } else if str_eq(name, "monorepo_full_hash") {
            TemplateKind::MonorepoFullHash
        } else if str_eq(name, "monorepo_remote") {
            TemplateKind::MonorepoRemote
        } else if str_eq(name, "package_default") {
            TemplateKind::PackageDefault
        } else if str_eq(name, "package_full_hash") {
            TemplateKind::PackageFullHash
        } else if str_eq(name, "package_remote") {
            TemplateKind::PackageRemote
        } else {
            TemplateKind::Custom(String::from_str(name))
        };
        Ok(Template { remote_context: context, kind })
    }
}

/// Builds the remote coordinates from the configured values, all three
/// required for a usable context.
pub fn get_template_context(
    remote: Option<String>,
    repository: Option<String>,
    owner: Option<String>,
) -> (r: Option<RemoteContext>)
    ensures
        match (remote, repository, owner) {
            (Some(rm), Some(rp), Some(ow)) => r == Some(
                RemoteContext { remote: rm, repository: rp, owner: ow },
            ),
            _ => r is None,
        },
{
    RemoteContext::try_new(remote, repository, owner)
}

/// The name `get_changelog_template` selects: the configured one, or `default`.
pub open spec fn spec_simple_template_name(configured: Option<&str>) -> Seq<char> {
    match configured {
        Some(n) => n@,
        None => "default"@,
    }
}

/// Selects the changelog template from the configured name, falling
/// back to the plain default.
pub fn get_changelog_template(configured: Option<&str>, context: Option<RemoteContext>) -> (r:
    Result<Template, ChangelogError>)
    ensures
        spec_selected(spec_simple_template_name(configured), context, r),
{
    let name = match configured {
        Some(n) => n,
        None => "default",
    };
    Template::from_arg(name, context)
}

/// The name `get_package_changelog_template` selects: the bare family
/// keywords are steered to their package variants.
pub open spec fn spec_package_template_name(configured: Option<&str>) -> Seq<char> {
    let n = match configured {
        Some(n) => n@,
        None => "package_default"@,
    };
    if n == "remote"@ {
        "package_remote"@
    } else if n == "full_hash"@ {
        "package_full_hash"@
    } else {
        n
    }
}

/// Selects the per-package changelog template; the bare names `remote`
/// and `full_hash` map to the package variants of those families.
pub fn get_package_changelog_template(configured: Option<&str>, context: Option<RemoteContext>) -> (
    r: Result<Template, ChangelogError>)
    ensures
        spec_selected(spec_package_template_name(configured), context, r),
{
    let name = match configured {
        Some(n) => n,
        None => "package_default",
    };
    let name = if str_eq(name, "remote") {
        "package_remote"
    } else if str_eq(name, "full_hash") {
        "package_full_hash"
    } else {
        name
    };
    Template::from_arg(name, context)
}

/// The name `get_monorepo_changelog_template` selects: the bare family
/// keywords are steered to their monorepo variants.
pub open spec fn spec_monorepo_template_name(configured: Option<&str>) -> Seq<char> {
    let n = match configured {
        Some(n) => n@,
        None => "monorepo_default"@,
    };
    if n == "remote"@ {
        "monorepo_remote"@
    } else if n == "full_hash"@ {
        "monorepo_full_hash"@
    } else {
        n
    }
}

/// Selects the monorepo changelog template; the bare names `remote`
/// and `full_hash` map to the monorepo variants of those families.
pub fn get_monorepo_changelog_template(configured: Option<&str>, context: Option<RemoteContext>) -> (
    r: Result<Template, ChangelogError>)
    ensures
        spec_selected(spec_monorepo_template_name(configured), context, r),
{
    let name = match configured {
        Some(n) => n,
        None => "monorepo_default",
    };
    let name = if str_eq(name, "remote") {
        "monorepo_remote"
    } else if str_eq(name, "full_hash") {
        "monorepo_full_hash"
    } else {
        name
    };
    Template::from_arg(name, context)
}

/// One package's version movement, shown by the monorepo templates.
#[derive(Debug)]
pub struct PackageBumpContext {
    pub package_name: String,
    pub package_path: String,
    /// The version the package moves to.
    pub version: OidOf,
    /// The version it moves from, when an automatic comparison exists.
    pub from: Option<OidOf>,
}

/// The auxiliary input of the monorepo templates.
#[derive(Debug)]
pub struct MonoRepoContext {
    /// True when the versions were locked by hand rather than bumped
    /// automatically; this flag alone decides the wording.
    pub package_lock: bool,
    pub packages: Vec<PackageBumpContext>,
}

/// The auxiliary input of the package templates.
#[derive(Debug)]
pub struct PackageContext {
    pub package_name: String,
}

} // verus!
