//! The renderer: from a release chain and a template to markdown text.
//!
//! Each release renders as one self-contained block; the chain is
//! emitted newest release first, following `previous`. Within a block,
//! commits are grouped under their changelog title in first-appearance
//! order; within a group, scoped commits come first, then unscoped
//! ones, each keeping their sequence order. The monorepo flavor
//! prepends a per-package block to the newest release.

use vstd::prelude::*;

use crate::commit::ChangelogCommit;
use crate::oid::OidOf;
use crate::release::Release;
use crate::strutil::{spec_short, str_eq, short_hash};
use crate::template::{
    MonoRepoContext, PackageBumpContext, PackageContext, RemoteContext, Template, TemplateKind,
};
use crate::ChangelogError;

verus! {

/// The root URL of the remote repository.
pub open spec fn spec_base_url(rc: RemoteContext) -> Seq<char> {
    "https://"@ + rc.remote@ + "/"@ + rc.owner@ + "/"@ + rc.repository@
}

/// The bold scope prefix of a commit line, empty for unscoped commits.
pub open spec fn spec_scope_part(c: ChangelogCommit) -> Seq<char> {
    match c.commit.conventional.scope {
        Some(sc) => "**("@ + sc@ + ")** "@,
        None => Seq::empty(),
    }
}

/// The author trailer of the plain family: an emphasised handle, or
/// the recorded author name.
pub open spec fn spec_author_plain(c: ChangelogCommit) -> Seq<char> {
    match c.author_username {
        Some(u) => "*"@ + u@ + "*"@,
        None => c.commit.author@,
    }
}

/// The author trailer of the full-hash family: an `@` handle, or the
/// recorded author name.
pub open spec fn spec_author_full_hash(c: ChangelogCommit) -> Seq<char> {
    match c.author_username {
        Some(u) => "@"@ + u@,
        None => c.commit.author@,
    }
}

/// The author trailer of the remote family: a linked `@` handle, or
/// the recorded author name.
pub open spec fn spec_author_remote(c: ChangelogCommit, rc: RemoteContext) -> Seq<char> {
    match c.author_username {
        Some(u) => "[@"@ + u@ + "](https://"@ + rc.remote@ + "/"@ + u@ + ")"@,
        None => c.commit.author@,
    }
}

/// One commit line under the given template.
pub open spec fn spec_line(c: ChangelogCommit, t: Template) -> Seq<char> {
    if t.kind.is_full_hash_family() {
        "- "@ + c.commit.oid@ + " - "@ + spec_scope_part(c) + c.commit.conventional.summary@
            + " - "@ + spec_author_full_hash(c) + "\n"@
    } else if t.kind.is_remote_family() {
        "- "@ + spec_scope_part(c) + c.commit.conventional.summary@ + " - (["@ + spec_short(
            c.commit.oid@,
        ) + "]("@ + spec_base_url(t.remote_context.unwrap()) + "/commit/"@ + c.commit.oid@
            + ")) - "@ + spec_author_remote(c, t.remote_context.unwrap()) + "\n"@
    } else {
        "- "@ + spec_scope_part(c) + c.commit.conventional.summary@ + " - ("@ + spec_short(
            c.commit.oid@,
        ) + ") - "@ + spec_author_plain(c) + "\n"@
    }
}

/// The heading of one release block. The full-hash family renders no
/// heading, and an untagged (pending) release never gets one.
pub open spec fn spec_heading(r: Release, t: Template) -> Seq<char> {
    if t.kind.is_full_hash_family() || !(r.version is Tag) {
        Seq::empty()
    } else if t.kind.is_remote_family() {
        "## ["@ + r.version.spec_display() + "]("@ + spec_base_url(t.remote_context.unwrap())
            + "/compare/"@ + r.from.spec_display() + ".."@ + r.version.spec_display() + ") - "@
            + r.date.spec_ymd() + "\n"@
    } else {
        "## "@ + r.version.spec_display() + " - "@ + r.date.spec_ymd() + "\n"@
    }
}

/// One line of the per-package block. The wording — `locked to` versus
/// `bumped to` — follows the lock flag alone; only the link target of
/// the remote family looks at the prior version.
pub open spec fn spec_package_line(lock: bool, p: PackageBumpContext, t: Template) -> Seq<char> {
    if t.kind.is_remote_family() {
        let base = spec_base_url(t.remote_context.unwrap());
        let v = p.version.spec_display();
        "- ["@ + v + "]("@ + p.package_path@ + (if lock {
            ") locked to ["@
        } else {
            ") bumped to ["@
        }) + v + "]("@ + (if lock {
            base + "/tree/"@ + v
        } else {
            match p.from {
                Some(f) => base + "/compare/"@ + f.spec_display() + ".."@ + v,
                None => base + "/tree/"@ + v,
            }
        }) + ")\n"@
    } else {
        "- "@ + p.package_name@ + (if lock {
            " locked to "@
        } else {
            " bumped to "@
        }) + p.version.spec_display() + "\n"@
    }
}

/// The per-package lines, in their given order.
pub open spec fn spec_package_lines(lock: bool, ps: Seq<PackageBumpContext>, t: Template) -> Seq<
    char,
>
    decreases ps.len(),
{
    if ps.len() == 0 {
        Seq::empty()
    } else {
        spec_package_lines(lock, ps.drop_last(), t) + spec_package_line(lock, ps.last(), t)
    }
}

/// The whole per-package block of a monorepo release: its section
/// heading, one line per package, and the `Global changes` divider.
pub open spec fn spec_package_block(m: MonoRepoContext, t: Template) -> Seq<char> {
    (if m.package_lock {
        "### Packages\n"@
    } else {
        "### Package updates\n"@
    }) + spec_package_lines(m.package_lock, m.packages@, t) + "### Global changes\n"@
}

/// The distinct changelog titles of `cs` in first-appearance order.
pub open spec fn titles_in_order(cs: Seq<ChangelogCommit>) -> Seq<Seq<char>>
    decreases cs.len(),
{
    if cs.len() == 0 {
        Seq::empty()
    } else {
        let ts = titles_in_order(cs.drop_last());
        if ts.contains(cs.last().changelog_title@) {
            ts
        } else {
            ts.push(cs.last().changelog_title@)
        }
    }
}

/// The commits of `cs` carrying title `t` and the requested scope
/// presence, in their given order.
pub open spec fn spec_selected(cs: Seq<ChangelogCommit>, t: Seq<char>, scoped: bool) -> Seq<
    ChangelogCommit,
>
    decreases cs.len(),
{
    if cs.len() == 0 {
        Seq::empty()
    } else {
        spec_selected(cs.drop_last(), t, scoped) + if cs.last().changelog_title@ == t && (
        cs.last().commit.conventional.scope is Some) == scoped {
            seq![cs.last()]
        } else {
            Seq::empty()
        }
    }
}

/// The lines of the given commits, in order.
pub open spec fn spec_lines(cs: Seq<ChangelogCommit>, t: Template) -> Seq<char>
    decreases cs.len(),
{
    if cs.len() == 0 {
        Seq::empty()
    } else {
        spec_lines(cs.drop_last(), t) + spec_line(cs.last(), t)
    }
}

/// One title group: its heading, the scoped lines, then the unscoped ones.
pub open spec fn spec_group_block(cs: Seq<ChangelogCommit>, title: Seq<char>, t: Template) -> Seq<
    char,
> {
    "#### "@ + title + "\n"@ + spec_lines(spec_selected(cs, title, true), t) + spec_lines(
        spec_selected(cs, title, false),
        t,
    )
}

/// The group blocks for the given titles, in order.
pub open spec fn spec_group_blocks(
    cs: Seq<ChangelogCommit>,
    titles: Seq<Seq<char>>,
    t: Template,
) -> Seq<char>
    decreases titles.len(),
{
    if titles.len() == 0 {
        Seq::empty()
    } else {
        spec_group_blocks(cs, titles.drop_last(), t) + spec_group_block(cs, titles.last(), t)
    }
}

/// The grouped commit section of one release.
pub open spec fn spec_groups_section(cs: Seq<ChangelogCommit>, t: Template) -> Seq<char> {
    spec_group_blocks(cs, titles_in_order(cs), t)
}

/// One release block: heading, the per-package block on the newest
/// release of a monorepo rendering, the grouped commits, and the blank
/// line the full-hash family ends with.
pub open spec fn spec_release_block(
    r: Release,
    t: Template,
    mono: Option<MonoRepoContext>,
    head: bool,
) -> Seq<char> {
    spec_heading(r, t) + (if head && t.kind.is_monorepo_flavor() {
        match mono {
            Some(m) => spec_package_block(m, t),
            None => Seq::empty(),
        }
    } else {
        Seq::empty()
    }) + spec_groups_section(r.commits@, t) + (if t.kind.is_full_hash_family() {
        "\n"@
    } else {
        Seq::empty()
    })
}

/// The whole chain, newest release first.
pub open spec fn spec_chain(
    r: Release,
    t: Template,
    mono: Option<MonoRepoContext>,
    head: bool,
) -> Seq<char>
    decreases r,
{
    spec_release_block(r, t, mono, head) + match r.previous {
        Some(p) => spec_chain(*p, t, mono, false),
        None => Seq::empty(),
    }
}

/// A template the renderer can work from: one of the nine built-ins,
/// with a context wherever links are owed.
pub open spec fn spec_template_ok(t: Template) -> bool {
    &&& !(t.kind is Custom)
    &&& t.kind.is_remote_family() ==> t.remote_context is Some
}

fn push_scope_part(out: &mut String, c: &ChangelogCommit)
    ensures
        final(out)@ == old(out)@ + spec_scope_part(*c),
{
    match &c.commit.conventional.scope {
        Some(sc) => {
            out.append("**(");
            out.append(sc.as_str());
            out.append(")** ");
            proof {
                assert(out@ =~= old(out)@ + spec_scope_part(*c));
            }
        },
        None => {
            proof {
                assert(out@ =~= old(out)@ + spec_scope_part(*c));
            }
        },
    }
}

fn push_author_plain(out: &mut String, c: &ChangelogCommit)
    ensures
        final(out)@ == old(out)@ + spec_author_plain(*c),
{
    match &c.author_username {
        Some(u) => {
            out.append("*");
            out.append(u.as_str());
            out.append("*");
            proof {
                assert(out@ =~= old(out)@ + spec_author_plain(*c));
            }
        },
        None => {
            out.append(c.commit.author.as_str());
        },
    }
}

fn push_author_full_hash(out: &mut String, c: &ChangelogCommit)
    ensures
        final(out)@ == old(out)@ + spec_author_full_hash(*c),
{
    match &c.author_username {
        Some(u) => {
            out.append("@");
            out.append(u.as_str());
            proof {
                assert(out@ =~= old(out)@ + spec_author_full_hash(*c));
            }
        },
        None => {
            out.append(c.commit.author.as_str());
        },
    }
}

fn push_author_remote(out: &mut String, c: &ChangelogCommit, rc: &RemoteContext)
    ensures
        final(out)@ == old(out)@ + spec_author_remote(*c, *rc),
{
    match &c.author_username {
        Some(u) => {
            out.append("[@");
            out.append(u.as_str());
            out.append("](https://");
            out.append(rc.remote.as_str());
            out.append("/");
            out.append(u.as_str());
            out.append(")");
            proof {
                assert(out@ =~= old(out)@ + spec_author_remote(*c, *rc));
            }
        },
        None => {
            out.append(c.commit.author.as_str());
        },
    }
}

fn push_base_url(out: &mut String, rc: &RemoteContext)
    ensures
        final(out)@ == old(out)@ + spec_base_url(*rc),
{
    out.append("https://");
    out.append(rc.remote.as_str());
    out.append("/");
    out.append(rc.owner.as_str());
    out.append("/");
    out.append(rc.repository.as_str());
    proof {
        assert(out@ =~= old(out)@ + spec_base_url(*rc));
    }
}

/// Appends one commit line under the selected template.
fn push_line(out: &mut String, c: &ChangelogCommit, t: &Template)
    requires
        spec_template_ok(*t),
    ensures
        final(out)@ == old(out)@ + spec_line(*c, *t),
{
    if t.kind.full_hash_family() {
        out.append("- ");
        out.append(c.commit.oid.as_str());
        out.append(" - ");
        push_scope_part(out, c);
        out.append(c.commit.conventional.summary.as_str());
        out.append(" - ");
        push_author_full_hash(out, c);
        out.append("\n");
        proof {
            assert(out@ =~= old(out)@ + spec_line(*c, *t));
        }
    } else if t.kind.remote_family() {
        let rc = match &t.remote_context {
            Some(rc) => rc,
            None => {
                proof {
                    assert(false);
                }
                unreached()
            },
        };
        out.append("- ");
        push_scope_part(out, c);
        out.append(c.commit.conventional.summary.as_str());
        out.append(" - ([");
        let sh = short_hash(c.commit.oid.as_str());
        out.append(sh.as_str());
        out.append("](");
        push_base_url(out, rc);
        out.append("/commit/");
        out.append(c.commit.oid.as_str());
        out.append(")) - ");
        push_author_remote(out, c, rc);
        out.append("\n");
        proof {
            assert(out@ =~= old(out)@ + spec_line(*c, *t));
        }
    } else {
        out.append("- ");
        push_scope_part(out, c);
        out.append(c.commit.conventional.summary.as_str());
        out.append(" - (");
        let sh = short_hash(c.commit.oid.as_str());
        out.append(sh.as_str());
        out.append(") - ");
        push_author_plain(out, c);
        out.append("\n");
        proof {
            assert(out@ =~= old(out)@ + spec_line(*c, *t));
        }
    }
}

/// Appends the release heading, where the template family shows one.
fn push_heading(out: &mut String, r: &Release, t: &Template)
    requires
        spec_template_ok(*t),
    ensures
        final(out)@ == old(out)@ + spec_heading(*r, *t),
{
    if t.kind.full_hash_family() {
        proof {
            assert(out@ =~= old(out)@ + spec_heading(*r, *t));
        }
        return ;
    }
    match &r.version {
        OidOf::FirstCommit(_) => {
            proof {
                assert(out@ =~= old(out)@ + spec_heading(*r, *t));
            }
        },
        OidOf::Tag(_) => {
            let vdisp = r.version.display();
            let ymd = r.date.format_ymd();
            if t.kind.remote_family() {
                let rc = match &t.remote_context {
                    Some(rc) => rc,
                    None => {
                        proof {
                            assert(false);
                        }
                        unreached()
                    },
                };
                let fdisp = r.from.display();
                out.append("## [");
                out.append(vdisp.as_str());
                out.append("](");
                push_base_url(out, rc);
                out.append("/compare/");
                out.append(fdisp.as_str());
                out.append("..");
                out.append(vdisp.as_str());
                out.append(") - ");
                out.append(ymd.as_str());
                out.append("\n");
                proof {
                    assert(out@ =~= old(out)@ + spec_heading(*r, *t));
                }
            } else {
                out.append("## ");
                out.append(vdisp.as_str());
                out.append(" - ");
                out.append(ymd.as_str());
                out.append("\n");
                proof {
                    assert(out@ =~= old(out)@ + spec_heading(*r, *t));
                }
            }
        },
    }
}

/// Appends one per-package line.
fn push_package_line(out: &mut String, lock: bool, p: &PackageBumpContext, t: &Template)
    requires
        spec_template_ok(*t),
    ensures
        final(out)@ == old(out)@ + spec_package_line(lock, *p, *t),
{
    let vdisp = p.version.display();
    if t.kind.remote_family() {
        let rc = match &t.remote_context {
            Some(rc) => rc,
            None => {
                proof {
                    assert(false);
                }
                unreached()
            },
        };
        out.append("- [");
        out.append(vdisp.as_str());
        out.append("](");
        out.append(p.package_path.as_str());
        if lock {
            out.append(") locked to [");
        } else {
            out.append(") bumped to [");
        }
        out.append(vdisp.as_str());
        out.append("](");
        if lock {
            push_base_url(out, rc);
            out.append("/tree/");
            out.append(vdisp.as_str());
        } else {
            match &p.from {
                Some(f) => {
                    let fdisp = f.display();
                    push_base_url(out, rc);
                    out.append("/compare/");
                    out.append(fdisp.as_str());
                    out.append("..");
                    out.append(vdisp.as_str());
                },
                None => {
                    push_base_url(out, rc);
                    out.append("/tree/");
                    out.append(vdisp.as_str());
                },
            }
        }
        out.append(")\n");
        proof {
            assert(out@ =~= old(out)@ + spec_package_line(lock, *p, *t));
        }
    } else {
        out.append("- ");
        out.append(p.package_name.as_str());
        if lock {
            out.append(" locked to ");
        } else {
            out.append(" bumped to ");
        }
        out.append(vdisp.as_str());
        out.append("\n");
        proof {
            assert(out@ =~= old(out)@ + spec_package_line(lock, *p, *t));
        }
    }
}

/// Appends the whole per-package block of a monorepo release.
fn push_package_block(out: &mut String, m: &MonoRepoContext, t: &Template)
    requires
        spec_template_ok(*t),
    ensures
        final(out)@ == old(out)@ + spec_package_block(*m, *t),
{
    if m.package_lock {
        out.append("### Packages\n");
    } else {
        out.append("### Package updates\n");
    }
    let ghost base = out@;
    let mut i: usize = 0;
    while i < m.packages.len()
        invariant
            i <= m.packages@.len(),
            spec_template_ok(*t),
            out@ == base + spec_package_lines(m.package_lock, m.packages@.take(i as int), *t),
        decreases m.packages@.len() - i,
    {
        let ghost pre = out@;
        push_package_line(out, m.package_lock, &m.packages[i], t);
        proof {
            let ps = m.packages@;
            assert(ps.take(i + 1).drop_last() =~= ps.take(i as int));
            assert(ps.take(i + 1).last() == ps[i as int]);
            assert(out@ =~= base + spec_package_lines(m.package_lock, ps.take(i + 1), *t));
        }
        i = i + 1;
    }
    proof {
        assert(m.packages@.take(m.packages@.len() as int) =~= m.packages@);
    }
    out.append("### Global changes\n");
    proof {
        assert(out@ =~= old(out)@ + spec_package_block(*m, *t));
    }
}

/// The views of a vector of title strings.
pub open spec fn string_views(ss: Seq<String>) -> Seq<Seq<char>> {
    ss.map_values(|s: String| s@)
}

/// Collects the distinct changelog titles in first-appearance order.
fn titles_of(cs: &Vec<ChangelogCommit>) -> (r: Vec<String>)
    ensures
        string_views(r@) == titles_in_order(cs@),
{
    let mut ts: Vec<String> = Vec::new();
    proof {
        assert(string_views(ts@) =~= titles_in_order(cs@.take(0)));
    }
    let mut i: usize = 0;
    while i < cs.len()
        invariant
            i <= cs@.len(),
            string_views(ts@) == titles_in_order(cs@.take(i as int)),
        decreases cs@.len() - i,
    {
        let title = &cs[i].changelog_title;
        let mut found = false;
        let mut j: usize = 0;
        while j < ts.len()
            invariant
                j <= ts@.len(),
                found <==> exists|k: int|
                    0 <= k < j && #[trigger] string_views(ts@)[k] == title@,
            decreases ts@.len() - j,
        {
            if str_eq(ts[j].as_str(), title.as_str()) {
                found = true;
                proof {
                    assert(string_views(ts@)[j as int] == title@);
                }
            }
            j = j + 1;
        }
        proof {
            if found {
                let k = choose|k: int| 0 <= k < ts@.len() && #[trigger] string_views(ts@)[k]
                    == title@;
                assert(titles_in_order(cs@.take(i as int)).contains(title@));
            } else {
                assert forall|k: int| 0 <= k < ts@.len() implies #[trigger] string_views(ts@)[k]
                    != title@ by {}
                assert(!titles_in_order(cs@.take(i as int)).contains(title@));
            }
            assert(cs@.take(i + 1).drop_last() =~= cs@.take(i as int));
            assert(cs@.take(i + 1).last() == cs@[i as int]);
        }
        if !found {
            let ghost pre = ts@;
            ts.push(title.clone());
            proof {
                assert(string_views(ts@) =~= string_views(pre).push(title@));
            }
        }
        i = i + 1;
    }
    proof {
        assert(cs@.take(cs@.len() as int) =~= cs@);
    }
    ts
}

/// Appends the lines of the commits under `title` with the requested
/// scope presence, in sequence order.
fn push_selected(out: &mut String, cs: &Vec<ChangelogCommit>, title: &String, scoped: bool, t:
    &Template)
    requires
        spec_template_ok(*t),
    ensures
        final(out)@ == old(out)@ + spec_lines(spec_selected(cs@, title@, scoped), *t),
{
    let ghost base = out@;
    proof {
        assert(base + spec_lines(spec_selected(cs@.take(0), title@, scoped), *t) =~= base);
    }
    let mut i: usize = 0;
    while i < cs.len()
        invariant
            i <= cs@.len(),
            spec_template_ok(*t),
            out@ == base + spec_lines(spec_selected(cs@.take(i as int), title@, scoped), *t),
        decreases cs@.len() - i,
    {
        let c = &cs[i];
        let ghost pre_sel = spec_selected(cs@.take(i as int), title@, scoped);
        let matches_title = str_eq(c.changelog_title.as_str(), title.as_str());
        let is_scoped = c.commit.conventional.scope.is_some();
        proof {
            assert(cs@.take(i + 1).drop_last() =~= cs@.take(i as int));
            assert(cs@.take(i + 1).last() == cs@[i as int]);
        }
        if matches_title && is_scoped == scoped {
            push_line(out, c, t);
            proof {
                assert(spec_selected(cs@.take(i + 1), title@, scoped) =~= pre_sel.push(
                    cs@[i as int],
                ));
                assert(pre_sel.push(cs@[i as int]).drop_last() =~= pre_sel);
                assert(out@ =~= base + spec_lines(
                    spec_selected(cs@.take(i + 1), title@, scoped),
                    *t,
                ));
            }
        } else {
            proof {
                assert(spec_selected(cs@.take(i + 1), title@, scoped) =~= pre_sel);
            }
        }
        i = i + 1;
    }
    proof {
        assert(cs@.take(cs@.len() as int) =~= cs@);
    }
}

/// Appends the grouped commit section of one release.
fn push_groups(out: &mut String, cs: &Vec<ChangelogCommit>, t: &Template)
    requires
        spec_template_ok(*t),
    ensures
        final(out)@ == old(out)@ + spec_groups_section(cs@, *t),
{
    let titles = titles_of(cs);
    let ghost base = out@;
    let ghost tviews = string_views(titles@);
    proof {
        assert(base + spec_group_blocks(cs@, tviews.take(0), *t) =~= base);
    }
    let mut ti: usize = 0;
    while ti < titles.len()
        invariant
            ti <= titles@.len(),
            spec_template_ok(*t),
            tviews == string_views(titles@),
            tviews == titles_in_order(cs@),
            out@ == base + spec_group_blocks(cs@, tviews.take(ti as int), *t),
        decreases titles@.len() - ti,
    {
        let ghost pre = out@;
        let title = &titles[ti];
        out.append("#### ");
        out.append(title.as_str());
        out.append("\n");
        push_selected(out, cs, title, true, t);
        push_selected(out, cs, title, false, t);
        proof {
            assert(title@ == tviews[ti as int]);
            assert(tviews.take(ti + 1).drop_last() =~= tviews.take(ti as int));
            assert(tviews.take(ti + 1).last() == tviews[ti as int]);
            assert(out@ =~= pre + spec_group_block(cs@, tviews[ti as int], *t));
            assert(out@ =~= base + spec_group_blocks(cs@, tviews.take(ti + 1), *t));
        }
        ti = ti + 1;
    }
    proof {
        assert(tviews.take(tviews.len() as int) =~= tviews);
    }
}

/// Appends one release block.
fn push_release_block(
    out: &mut String,
    r: &Release,
    t: &Template,
    mono: &Option<MonoRepoContext>,
    head: bool,
)
    requires
        spec_template_ok(*t),
    ensures
        final(out)@ == old(out)@ + spec_release_block(*r, *t, *mono, head),
{
    push_heading(out, r, t);
    if head && t.kind.monorepo_flavor() {
        match mono {
            Some(m) => push_package_block(out, m, t),
            None => {},
        }
    }
    push_groups(out, &r.commits, t);
    if t.kind.full_hash_family() {
        out.append("\n");
    }
    proof {
        assert(out@ =~= old(out)@ + spec_release_block(*r, *t, *mono, head));
    }
}

/// A configured renderer: the selected template plus the optional
/// monorepo and package inputs.
#[derive(Debug)]
pub struct Renderer {
    pub template: Template,
    pub monorepo_context: Option<MonoRepoContext>,
    pub package_context: Option<PackageContext>,
}

/// What `Renderer::render` produces: the chain under this renderer's
/// template and monorepo context, the newest release treated as head.
pub open spec fn spec_rendered(renderer: Renderer, release: Release) -> Seq<char> {
    spec_chain(release, renderer.template, renderer.monorepo_context, true)
}

impl Renderer {
    /// The renderer holds a workable template.
    pub open spec fn wf(&self) -> bool {
        spec_template_ok(self.template)
    }

    /// Accepts one of the nine built-in templates; rejects a custom
    /// template name (no external lookup exists here) and a
    /// remote-linked template without its context.
    pub fn try_new(template: Template) -> (r: Result<Renderer, ChangelogError>)
        ensures
            (template.kind matches TemplateKind::Custom(name) ==> (r matches Err(
                ChangelogError::TemplateNotFound(m),
            ) && m == name)),
            !(template.kind is Custom) && template.kind.is_remote_family()
                && template.remote_context is None ==> (r matches Err(
                ChangelogError::MissingRemoteContext,
            )),
            spec_template_ok(template) ==> (r matches Ok(renderer) && renderer == (Renderer {
                template,
                monorepo_context: None::<MonoRepoContext>,
                package_context: None::<PackageContext>,
            })),
            r is Ok <==> spec_template_ok(template),
    {
        let Template { remote_context, kind } = template;
        match kind {
            TemplateKind::Custom(name) => Err(ChangelogError::TemplateNotFound(name)),
            kind => {
                if kind.remote_family() && remote_context.is_none() {
                    Err(ChangelogError::MissingRemoteContext)
                } else {
                    Ok(
                        Renderer {
                            template: Template { remote_context, kind },
                            monorepo_context: None,
                            package_context: None,
                        },
                    )
                }
            },
        }
    }

    /// Attaches the per-package input used by the monorepo templates.
    pub fn with_monorepo_context(self, context: MonoRepoContext) -> (r: Self)
        ensures
            r.template == self.template,
            r.monorepo_context == Some(context),
            r.package_context == self.package_context,
    {
        Renderer {
            template: self.template,
            monorepo_context: Some(context),
            package_context: self.package_context,
        }
    }

    /// Attaches the package name used by the package templates.
    pub fn with_package_context(self, context: PackageContext) -> (r: Self)
        ensures
            r.template == self.template,
            r.monorepo_context == self.monorepo_context,
            r.package_context == Some(context),
    {
        Renderer {
            template: self.template,
            monorepo_context: self.monorepo_context,
            package_context: Some(context),
        }
    }

    /// Renders the whole chain to markdown.
    ///
    /// Succeeds exactly on a workable template; a custom template is
    /// reported as not found, a remote-linked one without context as a
    /// missing remote context.
    pub fn render(&self, release: &Release) -> (r: Result<String, ChangelogError>)
        ensures
            self.wf() ==> (r matches Ok(text) && text@ == spec_rendered(*self, *release)),
            (self.template.kind matches TemplateKind::Custom(name) ==> (r matches Err(
                ChangelogError::TemplateNotFound(m),
            ) && m@ == name@)),
            !(self.template.kind is Custom) && self.template.kind.is_remote_family()
                && self.template.remote_context is None ==> (r matches Err(
                ChangelogError::MissingRemoteContext,
            )),
            r is Ok <==> self.wf(),
    {
        match &self.template.kind {
            TemplateKind::Custom(name) => {
                return Err(ChangelogError::TemplateNotFound(name.clone()));
            },
            _ => {},
        }
        if self.template.kind.remote_family() && self.template.remote_context.is_none() {
            return Err(ChangelogError::MissingRemoteContext);
        }
        let mut out = String::new();
        push_chain(&mut out, release, &self.template, &self.monorepo_context, true);
        Ok(out)
    }
}

impl Default for Renderer {
    /// The plain simple template, with no remote coordinates and no
    /// monorepo or package input.
    fn default() -> (r: Self)
        ensures
            r == (Renderer {
                template: Template {
                    remote_context: None::<RemoteContext>,
                    kind: TemplateKind::Default,
                },
                monorepo_context: None::<MonoRepoContext>,
                package_context: None::<PackageContext>,
            }),
    {
        Renderer {
            template: Template { remote_context: None, kind: TemplateKind::Default },
            monorepo_context: None,
            package_context: None,
        }
    }
}

impl Release {
    /// Renders this release chain under the given template, with no
    /// monorepo or package input.
    pub fn into_markdown(self, template: Template) -> (r: Result<String, ChangelogError>)
        ensures
            spec_template_ok(template) ==> (r matches Ok(text) && text@ == spec_rendered(
                Renderer {
                    template,
                    monorepo_context: None::<MonoRepoContext>,
                    package_context: None::<PackageContext>,
                },
                self,
            )),
            (template.kind matches TemplateKind::Custom(name) ==> (r matches Err(
                ChangelogError::TemplateNotFound(m),
            ) && m == name)),
            !(template.kind is Custom) && template.kind.is_remote_family()
                && template.remote_context is None ==> (r matches Err(
                ChangelogError::MissingRemoteContext,
            )),
            r is Ok <==> spec_template_ok(template),
    {
        match Renderer::try_new(template) {
            Ok(renderer) => renderer.render(&self),
            Err(e) => Err(e),
        }
    }
}

/// Rendering is a pure function of the renderer and the chain: two
/// renderings of the same chain under the same renderer are identical,
/// byte for byte.
pub proof fn lemma_render_deterministic(
    renderer: Renderer,
    release: Release,
    first: Seq<char>,
    second: Seq<char>,
)
    requires
        first == spec_rendered(renderer, release),
        second == spec_rendered(renderer, release),
    ensures
        first == second,
{
}

/// In the plain families the per-package wording follows the lock flag
/// alone: whether a prior version is present changes nothing, and the
/// line reads `locked to` exactly when the flag is set, `bumped to`
/// otherwise.
pub proof fn lemma_package_line_wording(
    lock: bool,
    p: PackageBumpContext,
    q: PackageBumpContext,
    t: Template,
)
    requires
        !t.kind.is_remote_family(),
        p.package_name == q.package_name,
        p.version == q.version,
    ensures
        spec_package_line(lock, p, t) == spec_package_line(lock, q, t),
        spec_package_line(lock, p, t) == "- "@ + p.package_name@ + (if lock {
            " locked to "@
        } else {
            " bumped to "@
        }) + p.version.spec_display() + "\n"@,
{
}

/// The index of the first commit of `cs` whose title is `t`, or
/// `cs.len()` when no commit carries it.
pub open spec fn first_at(cs: Seq<ChangelogCommit>, t: Seq<char>) -> int
    decreases cs.len(),
{
    if cs.len() == 0 {
        0
    } else {
        let p = first_at(cs.drop_last(), t);
        if p < cs.len() - 1 {
            p
        } else if cs.last().changelog_title@ == t {
            cs.len() - 1
        } else {
            cs.len() as int
        }
    }
}

/// The group headings stand in first-appearance order: the title list
/// holds exactly the titles that occur in `cs`, each once, and a title
/// precedes another exactly when its first occurrence comes earlier in
/// the commit sequence — not alphabetically.
pub proof fn lemma_titles_first_appearance(cs: Seq<ChangelogCommit>)
    ensures
        forall|t: Seq<char>| 0 <= #[trigger] first_at(cs, t) <= cs.len(),
        forall|t: Seq<char>| titles_in_order(cs).contains(t) <==> #[trigger] first_at(cs, t)
            < cs.len(),
        forall|t: Seq<char>| #[trigger] first_at(cs, t) < cs.len()
            ==> cs[first_at(cs, t)].changelog_title@ == t,
        forall|i: int, j: int|
            0 <= i < j < titles_in_order(cs).len() ==> first_at(
                cs,
                #[trigger] titles_in_order(cs)[i],
            ) < first_at(cs, #[trigger] titles_in_order(cs)[j]),
        forall|i: int, j: int|
            0 <= i < j < titles_in_order(cs).len() ==> #[trigger] titles_in_order(cs)[i]
                != #[trigger] titles_in_order(cs)[j],
    decreases cs.len(),
{
    if cs.len() == 0 {
        assert forall|t: Seq<char>| !titles_in_order(cs).contains(t) by {}
    } else {
        let prefix = cs.drop_last();
        let n = cs.len() as int;
        lemma_titles_first_appearance(prefix);
        let ts_prefix = titles_in_order(prefix);
        let ts = titles_in_order(cs);
        let t0 = cs.last().changelog_title@;

        assert forall|t: Seq<char>| #[trigger] first_at(cs, t) < n implies cs[first_at(
            cs,
            t,
        )].changelog_title@ == t by {
            let p = first_at(prefix, t);
            if p < n - 1 {
                assert(prefix[p] == cs[p]);
            }
        }

        if ts_prefix.contains(t0) {
            assert(first_at(prefix, t0) < n - 1);
            assert(ts == ts_prefix);
            assert forall|t: Seq<char>| titles_in_order(cs).contains(t) implies #[trigger] first_at(
                cs,
                t,
            ) < n by {}
            assert forall|t: Seq<char>| #[trigger] first_at(cs, t) < n implies titles_in_order(
                cs,
            ).contains(t) by {
                if first_at(prefix, t) >= n - 1 {
                    assert(t == t0);
                }
            }
            assert forall|i: int, j: int| 0 <= i < j < ts.len() implies first_at(
                cs,
                #[trigger] ts[i],
            ) < first_at(cs, #[trigger] ts[j]) by {
                assert(ts_prefix.contains(ts[i]));
                assert(ts_prefix.contains(ts[j]));
                assert(first_at(prefix, ts[i]) < n - 1);
                assert(first_at(prefix, ts[j]) < n - 1);
            }
        } else {
            assert(first_at(prefix, t0) == n - 1);
            assert(ts == ts_prefix.push(t0));
            assert(first_at(cs, t0) == n - 1);
            assert forall|t: Seq<char>| titles_in_order(cs).contains(t) implies #[trigger] first_at(
                cs,
                t,
            ) < n by {
                let k = choose|k: int| 0 <= k < ts.len() && ts[k] == t;
                if k < ts_prefix.len() {
                    assert(ts_prefix.contains(t));
                } else {
                    assert(t == t0);
                }
            }
            assert forall|t: Seq<char>| #[trigger] first_at(cs, t) < n implies titles_in_order(
                cs,
            ).contains(t) by {
                if first_at(prefix, t) < n - 1 {
                    assert(ts_prefix.contains(t));
                    let k = choose|k: int| 0 <= k < ts_prefix.len() && ts_prefix[k] == t;
                    assert(ts[k] == t);
                } else {
                    assert(t == t0);
                    assert(ts[ts.len() - 1] == t0);
                }
            }
            assert forall|i: int, j: int| 0 <= i < j < ts.len() implies first_at(
                cs,
                #[trigger] ts[i],
            ) < first_at(cs, #[trigger] ts[j]) by {
                assert(ts[i] == ts_prefix[i]);
                assert(ts_prefix.contains(ts_prefix[i]));
                assert(first_at(prefix, ts[i]) < n - 1);
                if j < ts_prefix.len() {
                    assert(ts[j] == ts_prefix[j]);
                    assert(ts_prefix.contains(ts_prefix[j]));
                    assert(first_at(prefix, ts[j]) < n - 1);
                } else {
                    assert(ts[j] == t0);
                    assert(first_at(cs, ts[j]) == n - 1);
                }
            }
        }
        assert forall|i: int, j: int| 0 <= i < j < ts.len() implies #[trigger] ts[i]
            != #[trigger] ts[j] by {
            assert(first_at(cs, ts[i]) < first_at(cs, ts[j]));
        }
    }
}

/// Appends the blocks of the whole chain, newest release first.
fn push_chain(
    out: &mut String,
    r: &Release,
    t: &Template,
    mono: &Option<MonoRepoContext>,
    head: bool,
)
    requires
        spec_template_ok(*t),
    ensures
        final(out)@ == old(out)@ + spec_chain(*r, *t, *mono, head),
    decreases *r,
{
    push_release_block(out, r, t, mono, head);
    match &r.previous {
        Some(p) => {
            push_chain(out, p, t, mono, false);
            proof {
                assert(out@ =~= old(out)@ + spec_chain(*r, *t, *mono, head));
            }
        },
        None => {
            proof {
                assert(out@ =~= old(out)@ + spec_chain(*r, *t, *mono, head));
            }
        },
    }
}

} // verus!

