//! The release partitioner.
//!
//! A release is a contiguous span of commits bounded above by a tag
//! (or the head of the range) and below by the prior tag (or the start
//! of the range). Partitioning walks the range oldest to newest,
//! closes a group at every tagged commit, and folds the groups into a
//! backward-linked chain whose head is the most recent release.

use vstd::prelude::*;

use crate::commit::{classify, spec_classify, ChangelogCommit, CommitClassification};
use crate::date::NaiveDateTime;
use crate::oid::OidOf;
use crate::ChangelogError;

verus! {

/// One commit of the requested range: its identifier and the
/// externally computed classification of its message.
#[derive(Debug)]
pub struct CommitEntry {
    pub oid: OidOf,
    pub classification: CommitClassification,
}

/// One published or pending version and, through `previous`, the whole
/// older history of the requested range.
#[derive(Debug)]
pub struct Release {
    /// The identifier marking the newest boundary of this release.
    pub version: OidOf,
    /// The identifier marking the oldest boundary: the previous
    /// release's version, or, for the oldest release, its own oldest
    /// commit.
    pub from: OidOf,
    /// The generation timestamp, the same for every release of one run.
    pub date: NaiveDateTime,
    /// The commits of this release, newest first.
    pub commits: Vec<ChangelogCommit>,
    /// The next-older release, if the range holds one.
    pub previous: Option<Box<Release>>,
}

/// Splits `s` (oldest to newest) into the closed groups, each ending
/// with its tag, and the trailing untagged remainder.
pub open spec fn spec_groups(s: Seq<CommitEntry>) -> (Seq<Seq<CommitEntry>>, Seq<CommitEntry>)
    decreases s.len(),
{
    if s.len() == 0 {
        (Seq::empty(), Seq::empty())
    } else {
        let r = spec_groups(s.drop_last());
        let e = s.last();
        if e.oid is Tag {
            (r.0.push(r.1.push(e)), Seq::empty())
        } else {
            (r.0, r.1.push(e))
        }
    }
}

/// All groups of `s`, the pending untagged remainder included.
pub open spec fn spec_groups_all(s: Seq<CommitEntry>) -> Seq<Seq<CommitEntry>> {
    let r = spec_groups(s);
    if r.1.len() == 0 {
        r.0
    } else {
        r.0.push(r.1)
    }
}

/// The views of a vector of groups.
pub open spec fn views_of(gs: Seq<Vec<CommitEntry>>) -> Seq<Seq<CommitEntry>> {
    gs.map_values(|g: Vec<CommitEntry>| g@)
}

/// The zero- or one-element sequence a classification contributes.
pub open spec fn spec_opt_entry(c: Option<ChangelogCommit>) -> Seq<ChangelogCommit> {
    match c {
        Some(cc) => seq![cc],
        None => Seq::empty(),
    }
}

/// The kept commits of one group, newest first.
pub open spec fn spec_kept_newest_first(g: Seq<CommitEntry>) -> Seq<ChangelogCommit>
    decreases g.len(),
{
    if g.len() == 0 {
        Seq::empty()
    } else {
        spec_opt_entry(spec_classify(g.last().classification)) + spec_kept_newest_first(
            g.drop_last(),
        )
    }
}

/// The release chain `r` is exactly the fold of `groups` (oldest group
/// first): each link takes its version from its group's newest entry,
/// its commits from that group, its lower bound from the link below,
/// and the oldest link reaches down to its own oldest entry.
pub open spec fn chain_matches(
    r: Release,
    groups: Seq<Seq<CommitEntry>>,
    date: NaiveDateTime,
) -> bool
    decreases groups.len(),
{
    &&& groups.len() > 0
    &&& r.version == groups.last().last().oid
    &&& r.date == date
    &&& r.commits@ == spec_kept_newest_first(groups.last())
    &&& match r.previous {
        Some(p) => {
            &&& groups.len() >= 2
            &&& r.from == (*p).version
            &&& chain_matches(*p, groups.drop_last(), date)
        },
        None => {
            &&& groups.len() == 1
            &&& r.from == groups.last().first().oid
        },
    }
}

/// Every group the splitter produces holds at least one entry.
pub proof fn lemma_groups_nonempty(s: Seq<CommitEntry>)
    ensures
        forall|i: int|
            0 <= i < spec_groups(s).0.len() ==> #[trigger] spec_groups(s).0[i].len() > 0,
        forall|i: int|
            0 <= i < spec_groups_all(s).len() ==> #[trigger] spec_groups_all(s)[i].len() > 0,
    decreases s.len(),
{
    if s.len() > 0 {
        lemma_groups_nonempty(s.drop_last());
        let r = spec_groups(s.drop_last());
        let e = s.last();
        assert forall|i: int| 0 <= i < spec_groups(s).0.len() implies #[trigger] spec_groups(
            s,
        ).0[i].len() > 0 by {
            if e.oid is Tag {
                if i < r.0.len() {
                    assert(spec_groups(s).0[i] == r.0[i]);
                } else {
                    assert(spec_groups(s).0[i] == r.1.push(e));
                }
            } else {
                assert(spec_groups(s).0[i] == r.0[i]);
            }
        }
    }
    assert forall|i: int| 0 <= i < spec_groups_all(s).len() implies #[trigger] spec_groups_all(
        s,
    )[i].len() > 0 by {
        let r = spec_groups(s);
        if r.1.len() == 0 {
            assert(spec_groups_all(s)[i] == r.0[i]);
        } else {
            if i < r.0.len() {
                assert(spec_groups_all(s)[i] == r.0[i]);
            } else {
                assert(spec_groups_all(s)[i] == r.1);
            }
        }
    }
}

/// The number of tagged entries in `s`.
pub open spec fn count_tags(s: Seq<CommitEntry>) -> int
    decreases s.len(),
{
    if s.len() == 0 {
        0
    } else {
        count_tags(s.drop_last()) + if s.last().oid is Tag {
            1int
        } else {
            0int
        }
    }
}

/// The number of releases in the chain headed by `r`.
pub open spec fn chain_len(r: Release) -> int
    decreases r,
{
    1 + match r.previous {
        Some(p) => chain_len(*p),
        None => 0,
    }
}

/// All commits of the chain, oldest release first and oldest commit
/// first within each release.
pub open spec fn chain_commits_oldest_first(r: Release) -> Seq<ChangelogCommit>
    decreases r,
{
    (match r.previous {
        Some(p) => chain_commits_oldest_first(*p),
        None => Seq::empty(),
    }) + r.commits@.reverse()
}

/// The kept commits of `s` in their original oldest-to-newest order.
pub open spec fn kept_oldest_first(s: Seq<CommitEntry>) -> Seq<ChangelogCommit>
    decreases s.len(),
{
    if s.len() == 0 {
        Seq::empty()
    } else {
        kept_oldest_first(s.drop_last()) + spec_opt_entry(spec_classify(s.last().classification))
    }
}

/// The groups of `s` laid end to end, oldest first.
pub open spec fn concat_groups(gs: Seq<Seq<CommitEntry>>) -> Seq<CommitEntry>
    decreases gs.len(),
{
    if gs.len() == 0 {
        Seq::empty()
    } else {
        concat_groups(gs.drop_last()) + gs.last()
    }
}

/// With no tags anywhere, everything stays in the pending group.
proof fn lemma_groups_no_tags(s: Seq<CommitEntry>)
    requires
        forall|i: int| 0 <= i < s.len() ==> !(#[trigger] s[i].oid is Tag),
    ensures
        spec_groups(s).0 == Seq::<Seq<CommitEntry>>::empty(),
        spec_groups(s).1 == s,
    decreases s.len(),
{
    if s.len() > 0 {
        assert(forall|i: int| 0 <= i < s.drop_last().len() ==> s.drop_last()[i] == s[i]);
        lemma_groups_no_tags(s.drop_last());
        assert(!(s.last().oid is Tag));
        assert(s.drop_last().push(s.last()) =~= s);
    }
}

/// A non-empty commit range without a single tag partitions into
/// exactly one release: its lower bound is the oldest commit of the
/// whole range, its version the newest, and nothing precedes it.
pub proof fn lemma_untagged_range_single_release(r: Release, s: Seq<CommitEntry>, date: NaiveDateTime)
    requires
        s.len() > 0,
        forall|i: int| 0 <= i < s.len() ==> !(#[trigger] s[i].oid is Tag),
        chain_matches(r, spec_groups_all(s), date),
    ensures
        r.previous is None,
        r.from == s.first().oid,
        r.version == s.last().oid,
        r.commits@ == spec_kept_newest_first(s),
{
    lemma_groups_no_tags(s);
    assert(spec_groups_all(s) =~= seq![s]);
    assert(spec_groups_all(s).last() == s);
}

/// How many groups the splitter yields: one per tag, plus one for a
/// trailing untagged remainder.
proof fn lemma_groups_count(s: Seq<CommitEntry>)
    ensures
        spec_groups(s).0.len() == count_tags(s),
        spec_groups(s).1.len() > 0 <==> s.len() > 0 && !(s.last().oid is Tag),
    decreases s.len(),
{
    if s.len() > 0 {
        lemma_groups_count(s.drop_last());
    }
}

/// The chain is exactly as long as the group sequence it was folded from.
proof fn lemma_chain_len(r: Release, groups: Seq<Seq<CommitEntry>>, date: NaiveDateTime)
    requires
        chain_matches(r, groups, date),
    ensures
        chain_len(r) == groups.len(),
    decreases groups.len(),
{
    match r.previous {
        Some(p) => {
            lemma_chain_len(*p, groups.drop_last(), date);
        },
        None => {},
    }
}

/// Reversing the newest-first projection of a group gives its kept
/// commits in original order.
proof fn lemma_kept_reverse(g: Seq<CommitEntry>)
    ensures
        spec_kept_newest_first(g).reverse() == kept_oldest_first(g),
    decreases g.len(),
{
    if g.len() == 0 {
        assert(spec_kept_newest_first(g).reverse() =~= kept_oldest_first(g));
    } else {
        lemma_kept_reverse(g.drop_last());
        let head = spec_opt_entry(spec_classify(g.last().classification));
        let tail = spec_kept_newest_first(g.drop_last());
        assert((head + tail).reverse() =~= tail.reverse() + head.reverse());
        assert(head.reverse() =~= head);
    }
}

/// The kept commits of a concatenation are the concatenations of the
/// kept commits.
proof fn lemma_kept_concat(a: Seq<CommitEntry>, b: Seq<CommitEntry>)
    ensures
        kept_oldest_first(a + b) == kept_oldest_first(a) + kept_oldest_first(b),
    decreases b.len(),
{
    if b.len() == 0 {
        assert(a + b =~= a);
        assert(kept_oldest_first(a) + kept_oldest_first(b) =~= kept_oldest_first(a));
    } else {
        lemma_kept_concat(a, b.drop_last());
        assert((a + b).drop_last() =~= a + b.drop_last());
        assert((a + b).last() == b.last());
        assert(kept_oldest_first(a) + (kept_oldest_first(b.drop_last()) + spec_opt_entry(
            spec_classify(b.last().classification),
        )) =~= (kept_oldest_first(a) + kept_oldest_first(b.drop_last())) + spec_opt_entry(
            spec_classify(b.last().classification),
        ));
    }
}

/// Laying the groups of `s` end to end restores `s` itself.
proof fn lemma_concat_groups(s: Seq<CommitEntry>)
    ensures
        concat_groups(spec_groups(s).0) + spec_groups(s).1 == s,
        concat_groups(spec_groups_all(s)) == s,
    decreases s.len(),
{
    if s.len() == 0 {
        assert(concat_groups(spec_groups(s).0) + spec_groups(s).1 =~= s);
        assert(concat_groups(spec_groups_all(s)) =~= s);
    } else {
        lemma_concat_groups(s.drop_last());
        let r = spec_groups(s.drop_last());
        let e = s.last();
        if e.oid is Tag {
            let closed = r.1.push(e);
            assert(r.0.push(closed).drop_last() =~= r.0);
            assert(concat_groups(r.0.push(closed)) == concat_groups(r.0) + closed);
            assert((concat_groups(r.0) + r.1).push(e) =~= concat_groups(r.0) + r.1.push(e));
            assert(s.drop_last().push(e) =~= s);
            assert(concat_groups(spec_groups(s).0) + spec_groups(s).1 =~= s);
        } else {
            assert((concat_groups(r.0) + r.1).push(e) =~= concat_groups(r.0) + r.1.push(e));
            assert(s.drop_last().push(e) =~= s);
        }
        let q = spec_groups(s);
        if q.1.len() == 0 {
            assert(concat_groups(q.0) =~= s);
        } else {
            assert(q.0.push(q.1).drop_last() =~= q.0);
            assert(concat_groups(q.0.push(q.1)) == concat_groups(q.0) + q.1);
        }
    }
}

/// A chain folded from `groups` carries, oldest first, exactly the
/// kept commits of the groups laid end to end.
proof fn lemma_chain_commits(r: Release, groups: Seq<Seq<CommitEntry>>, date: NaiveDateTime)
    requires
        chain_matches(r, groups, date),
    ensures
        chain_commits_oldest_first(r) == kept_oldest_first(concat_groups(groups)),
    decreases groups.len(),
{
    let g = groups.last();
    lemma_kept_reverse(g);
    match r.previous {
        Some(p) => {
            lemma_chain_commits(*p, groups.drop_last(), date);
            lemma_kept_concat(concat_groups(groups.drop_last()), g);
        },
        None => {
            assert(concat_groups(groups.drop_last()) =~= Seq::<CommitEntry>::empty());
            assert(Seq::<CommitEntry>::empty() + g =~= g);
            assert(Seq::<ChangelogCommit>::empty() + r.commits@.reverse() =~= r.commits@.reverse());
        },
    }
}

/// The partition is complete and faithful: a range with `k` tags folds
/// into `k` releases, plus one more when untagged commits follow the
/// last tag; and walking the chain oldest release first, oldest commit
/// first within each, reproduces the kept commits of the range in
/// their original order — every kept commit lands in exactly one
/// release.
pub proof fn lemma_partition_complete(r: Release, s: Seq<CommitEntry>, date: NaiveDateTime)
    requires
        s.len() > 0,
        chain_matches(r, spec_groups_all(s), date),
    ensures
        chain_len(r) == count_tags(s) + if s.last().oid is Tag {
            0int
        } else {
            1int
        },
        chain_commits_oldest_first(r) == kept_oldest_first(s),
{
    lemma_groups_count(s);
    lemma_chain_len(r, spec_groups_all(s), date);
    lemma_concat_groups(s);
    lemma_chain_commits(r, spec_groups_all(s), date);
}

/// Partitions an already-dated commit range into its release chain.
///
/// `commits` arrives in traversal order, newest first; the partitioner
/// reverses it so that grouping proceeds oldest to newest. An empty
/// range is the single failure mode.
#[verifier::loop_isolation(false)]
pub fn release_from_commits_at(commits: Vec<CommitEntry>, date: NaiveDateTime) -> (r: Result<
    Release,
    ChangelogError,
>)
    ensures
        commits@.len() == 0 ==> (r matches Err(ChangelogError::EmptyRelease)),
        commits@.len() > 0 ==> r is Ok && chain_matches(
            r.unwrap(),
            spec_groups_all(commits@.reverse()),
            date,
        ),
{
    let ghost orig = commits@;
    let ghost n = commits@.len() as int;
    let ghost s = commits@.reverse();
    let mut rest = commits;
    let mut groups: Vec<Vec<CommitEntry>> = Vec::new();
    let mut pending: Vec<CommitEntry> = Vec::new();
    proof {
        assert(s.take(0) =~= Seq::<CommitEntry>::empty());
        assert(orig.subrange(0, n) =~= orig);
    }
    while rest.len() > 0
        invariant
            rest@.len() <= n,
            rest@ == orig.subrange(0, rest@.len() as int),
            (views_of(groups@), pending@) == spec_groups(
                s.take(n - rest@.len()),
            ),
        decreases rest@.len(),
    {
        let ghost j = n - rest@.len();
        let e = match rest.pop() {
            Some(e) => e,
            None => {
                proof {
                    assert(false);
                }
                unreached()
            },
        };
        proof {
            assert(rest@ =~= orig.subrange(0, rest@.len() as int));
            assert(e == orig[n - 1 - j]);
            assert(e == s[j]);
            assert(s.take(j + 1).drop_last() =~= s.take(j));
            assert(s.take(j + 1).last() == s[j]);
        }
        let tagged = matches!(&e.oid, OidOf::Tag(_));
        pending.push(e);
        if tagged {
            let ghost old_groups = views_of(groups@);
            let ghost full = pending@;
            groups.push(pending);
            pending = Vec::new();
            proof {
                assert(views_of(groups@) =~= old_groups.push(full));
            }
        }
        proof {
            assert((views_of(groups@), pending@) == spec_groups(
                s.take(j + 1),
            ));
        }
    }
    proof {
        assert(s.take(n) =~= s);
    }
    if pending.len() > 0 {
        let ghost old_groups = views_of(groups@);
        let ghost full = pending@;
        groups.push(pending);
        proof {
            assert(views_of(groups@) =~= old_groups.push(full));
        }
    }
    let ghost gall = spec_groups_all(s);
    proof {
        assert(views_of(groups@) == gall);
        lemma_groups_nonempty(s);
    }

    let mut current: Option<Release> = None;
    let ghost total = gall.len() as int;
    let ghost mut done: int = 0;
    while groups.len() > 0
        invariant
            0 <= done <= total,
            views_of(groups@) =~= gall.skip(done),
            done == 0 ==> current is None,
            done > 0 ==> current is Some && chain_matches(current.unwrap(), gall.take(done), date),
        decreases groups@.len(),
    {
        let ghost pre_groups = groups@;
        let g = groups.remove(0);
        let ghost gval = g@;
        proof {
            assert(g == pre_groups[0]);
            assert(views_of(pre_groups)[0] == pre_groups[0]@);
            assert(gall.skip(done)[0] == gall[done]);
            assert(gval == gall[done]);
            assert(gval.len() > 0);
            assert(groups@ =~= pre_groups.skip(1));
            assert forall|i: int| 0 <= i < groups@.len() implies #[trigger] views_of(groups@)[i]
                == gall.skip(done + 1)[i] by {
                assert(views_of(groups@)[i] == groups@[i]@);
                assert(groups@[i] == pre_groups[i + 1]);
                assert(views_of(pre_groups)[i + 1] == pre_groups[i + 1]@);
                assert(views_of(pre_groups)[i + 1] == gall.skip(done)[i + 1]);
                assert(gall.skip(done)[i + 1] == gall[done + 1 + i]);
                assert(gall.skip(done + 1)[i] == gall[done + 1 + i]);
            }
            assert(views_of(groups@) =~= gall.skip(done + 1));
        }
        let version = g[g.len() - 1].oid.clone();
        let from = match &current {
            Some(c) => c.version.clone(),
            None => g[0].oid.clone(),
        };
        let mut cs: Vec<ChangelogCommit> = Vec::new();
        let mut gg = g;
        while gg.len() > 0
            invariant
                cs@ + spec_kept_newest_first(gg@) == spec_kept_newest_first(gval),
            decreases gg@.len(),
        {
            let ghost pre_cs = cs@;
            let ghost pre_gg = gg@;
            let e = match gg.pop() {
                Some(e) => e,
                None => {
                    proof {
                        assert(false);
                    }
                    unreached()
                },
            };
            let ghost kept = spec_opt_entry(spec_classify(e.classification));
            match classify(e.classification) {
                Some(cc) => {
                    cs.push(cc);
                },
                None => {},
            }
            proof {
                assert(cs@ =~= pre_cs + kept);
                assert(pre_cs + (kept + spec_kept_newest_first(gg@)) =~= (pre_cs + kept)
                    + spec_kept_newest_first(gg@));
            }
        }
        proof {
            assert(cs@ + spec_kept_newest_first(Seq::<CommitEntry>::empty()) =~= cs@);
        }
        let previous = match current {
            Some(c) => Some(Box::new(c)),
            None => None,
        };
        let next = Release { version, from, date, commits: cs, previous };
        proof {
            assert(gall.take(done + 1).last() == gall[done]);
            assert(gall.take(done + 1).drop_last() =~= gall.take(done));
            assert(chain_matches(next, gall.take(done + 1), date));
        }
        current = Some(next);
        proof {
            done = done + 1;
        }
    }
    proof {
        assert(gall.skip(done) =~= Seq::<Seq<CommitEntry>>::empty());
        assert(done == total);
        assert(gall.take(done) =~= gall);
        if orig.len() > 0 {
            assert(s.len() > 0);
            assert(gall.len() > 0);
        }
    }
    match current {
        Some(release) => Ok(release),
        None => Err(ChangelogError::EmptyRelease),
    }
}

/// Partitions a commit range into its release chain, stamping every
/// release with the current wall-clock time — the generation
/// timestamp, not each tag's historical date.
pub fn release_from_commits(commits: Vec<CommitEntry>) -> (r: Result<Release, ChangelogError>)
    ensures
        commits@.len() == 0 ==> (r matches Err(ChangelogError::EmptyRelease)),
        commits@.len() > 0 ==> r is Ok && exists|d: NaiveDateTime|
            d.wf() && chain_matches(r.unwrap(), spec_groups_all(commits@.reverse()), d),
{
    let ghost cv = commits@;
    let date = NaiveDateTime::now();
    let r = release_from_commits_at(commits, date);
    proof {
        if cv.len() > 0 {
            assert(date.wf() && chain_matches(r.unwrap(), spec_groups_all(cv.reverse()), date));
        }
    }
    r
}

} // verus!
