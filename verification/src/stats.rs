//! The dashboard's figures: how the hosts and clouds of a server divide up,
//! and how wide each part of a bar chart is drawn.
use crate::models::{is_set, CloudSummary, Host};
use vstd::prelude::*;

verus! {

/// How many items of `s` satisfy `p`.
pub open spec fn count_of<A>(s: Seq<A>, p: spec_fn(A) -> bool) -> nat
    decreases s.len(),
{
    if s.len() == 0 {
        0
    } else {
        count_of(s.drop_last(), p) + if p(s.last()) {
            1nat
        } else {
            0nat
        }
    }
}

/// Counting the first `i + 1` items adds the `i`-th to the first `i`.
proof fn lemma_count_step<A>(s: Seq<A>, p: spec_fn(A) -> bool, i: int)
    requires
        0 <= i < s.len(),
    ensures
        count_of(s.take(i + 1), p) == count_of(s.take(i), p) + if p(s[i]) {
            1nat
        } else {
            0nat
        },
{
    assert(s.take(i + 1).drop_last() =~= s.take(i));
}

/// A count is at most the length.
proof fn lemma_count_bound<A>(s: Seq<A>, p: spec_fn(A) -> bool)
    ensures
        count_of(s, p) <= s.len(),
    decreases s.len(),
{
    if s.len() > 0 {
        lemma_count_bound(s.drop_last(), p);
    }
}

/// Counts under predicates that split every item into exactly one of six
/// classes add up to the length.
proof fn lemma_count_split<A>(
    s: Seq<A>,
    p1: spec_fn(A) -> bool,
    p2: spec_fn(A) -> bool,
    p3: spec_fn(A) -> bool,
    p4: spec_fn(A) -> bool,
    p5: spec_fn(A) -> bool,
    p6: spec_fn(A) -> bool,
)
    requires
        forall|x: A|
            #![trigger p1(x)]
            (if p1(x) {
                1int
            } else {
                0int
            }) + (if p2(x) {
                1int
            } else {
                0int
            }) + (if p3(x) {
                1int
            } else {
                0int
            }) + (if p4(x) {
                1int
            } else {
                0int
            }) + (if p5(x) {
                1int
            } else {
                0int
            }) + (if p6(x) {
                1int
            } else {
                0int
            }) == 1,
    ensures
        count_of(s, p1) + count_of(s, p2) + count_of(s, p3) + count_of(s, p4) + count_of(s, p5)
            + count_of(s, p6) == s.len(),
    decreases s.len(),
{
    if s.len() > 0 {
        lemma_count_split(s.drop_last(), p1, p2, p3, p4, p5, p6);
        let x = s.last();
        assert(p1(x) || !p1(x));
    }
}

/// Broken hosts.
pub open spec fn host_broken(h: Host) -> bool {
    is_set(h.broken)
}

/// Retired hosts that are not broken.
pub open spec fn host_retired(h: Host) -> bool {
    is_set(h.retired) && !is_set(h.broken)
}

/// Hosts in use: neither broken nor retired.
pub open spec fn host_active(h: Host) -> bool {
    !is_set(h.broken) && !is_set(h.retired)
}

/// Hosts in use away from their default cloud, scheduled by an admin.
pub open spec fn host_scheduled(h: Host) -> bool {
    host_active(h) && !h.at_home() && !is_set(h.can_self_schedule)
}

/// Hosts in use away from their default cloud, scheduled by their users.
pub open spec fn host_self_scheduled(h: Host) -> bool {
    host_active(h) && !h.at_home() && is_set(h.can_self_schedule)
}

/// Hosts in use at home that users may schedule themselves.
pub open spec fn host_self_schedulable(h: Host) -> bool {
    host_active(h) && h.at_home() && is_set(h.can_self_schedule)
}

/// Hosts in use at home that only admins schedule.
pub open spec fn host_unassigned(h: Host) -> bool {
    host_active(h) && h.at_home() && !is_set(h.can_self_schedule)
}

/// How the hosts of a server divide up on the dashboard.
#[derive(Debug, Clone, Copy)]
pub struct HostCounts {
    pub total: usize,
    pub broken: usize,
    pub retired: usize,
    pub scheduled: usize,
    pub self_scheduled: usize,
    pub self_schedulable: usize,
    pub unassigned: usize,
}

impl HostCounts {
    /// The counts of `hosts`.
    pub open spec fn of(self, hosts: Seq<Host>) -> bool {
        &&& self.total == hosts.len()
        &&& self.broken == count_of(hosts, |h: Host| host_broken(h))
        &&& self.retired == count_of(hosts, |h: Host| host_retired(h))
        &&& self.scheduled == count_of(hosts, |h: Host| host_scheduled(h))
        &&& self.self_scheduled == count_of(hosts, |h: Host| host_self_scheduled(h))
        &&& self.self_schedulable == count_of(hosts, |h: Host| host_self_schedulable(h))
        &&& self.unassigned == count_of(hosts, |h: Host| host_unassigned(h))
    }

    /// Hosts in use: all but the broken and retired ones.
    pub fn active(&self) -> (r: usize)
        requires
            self.broken + self.retired <= self.total,
        ensures
            r == self.total - self.broken - self.retired,
    {
        self.total - self.broken - self.retired
    }

    /// The hosts the bar chart shows: all but the retired ones.
    pub fn graph_total(&self) -> (r: usize)
        requires
            self.retired <= self.total,
        ensures
            r == self.total - self.retired,
    {
        self.total - self.retired
    }
}

/// Every host falls in exactly one of the dashboard's classes: scheduled,
/// self-scheduled, self-schedulable, unassigned, broken or retired.
pub proof fn law_host_classes_partition(hosts: Seq<Host>, c: HostCounts)
    requires
        c.of(hosts),
    ensures
        c.scheduled + c.self_scheduled + c.self_schedulable + c.unassigned + c.broken + c.retired
            == c.total,
        c.broken + c.retired <= c.total,
{
    lemma_count_split(
        hosts,
        |h: Host| host_scheduled(h),
        |h: Host| host_self_scheduled(h),
        |h: Host| host_self_schedulable(h),
        |h: Host| host_unassigned(h),
        |h: Host| host_broken(h),
        |h: Host| host_retired(h),
    );
}

/// The dashboard's host figures for `hosts`.
pub fn host_counts(hosts: &Vec<Host>) -> (r: HostCounts)
    ensures
        r.of(hosts@),
{
    let ghost s = hosts@;
    let mut r = HostCounts {
        total: 0,
        broken: 0,
        retired: 0,
        scheduled: 0,
        self_scheduled: 0,
        self_schedulable: 0,
        unassigned: 0,
    };
    let mut i: usize = 0;
    while i < hosts.len()
        invariant
            i <= s.len(),
            s == hosts@,
            r.of(s.take(i as int)),
        decreases s.len() - i,
    {
        proof {
            lemma_count_step(s, |h: Host| host_broken(h), i as int);
            lemma_count_step(s, |h: Host| host_retired(h), i as int);
            lemma_count_step(s, |h: Host| host_scheduled(h), i as int);
            lemma_count_step(s, |h: Host| host_self_scheduled(h), i as int);
            lemma_count_step(s, |h: Host| host_self_schedulable(h), i as int);
            lemma_count_step(s, |h: Host| host_unassigned(h), i as int);
            law_host_classes_partition(s.take(i as int), r);
        }
        let h = &hosts[i];
        if h.broken == Some(true) {
            r.broken = r.broken + 1;
        } else if h.retired == Some(true) {
            r.retired = r.retired + 1;
        } else if h.in_default_cloud() {
            if h.can_self_schedule == Some(true) {
                r.self_schedulable = r.self_schedulable + 1;
            } else {
                r.unassigned = r.unassigned + 1;
            }
        } else if h.can_self_schedule == Some(true) {
            r.self_scheduled = r.self_scheduled + 1;
        } else {
            r.scheduled = r.scheduled + 1;
        }
        r.total = r.total + 1;
        i = i + 1;
    }
    proof {
        assert(s.take(s.len() as int) =~= s);
    }
    r
}

/// Counts under two predicates that split every item add up to the length.
proof fn lemma_count_split2<A>(s: Seq<A>, p1: spec_fn(A) -> bool, p2: spec_fn(A) -> bool, p3: spec_fn(A) -> bool)
    requires
        forall|x: A|
            #![trigger p1(x)]
            (if p1(x) {
                1int
            } else {
                0int
            }) + (if p2(x) {
                1int
            } else {
                0int
            }) + (if p3(x) {
                1int
            } else {
                0int
            }) == 1,
    ensures
        count_of(s, p1) + count_of(s, p2) + count_of(s, p3) == s.len(),
    decreases s.len(),
{
    if s.len() > 0 {
        lemma_count_split2(s.drop_last(), p1, p2, p3);
        let x = s.last();
        assert(p1(x) || !p1(x));
    }
}

/// A cloud in use: it has an owner (a non-empty one) and hosts.
pub open spec fn cloud_in_use(c: CloudSummary) -> bool {
    &&& c.owner matches Some(o) && o@.len() > 0
    &&& c.count matches Some(n) && n > 0
}

/// Clouds in use, provisioned by an admin.
pub open spec fn cloud_provisioned(c: CloudSummary) -> bool {
    cloud_in_use(c) && !is_set(c.is_self_schedule)
}

/// Clouds in use, self-scheduled by their owner.
pub open spec fn cloud_self_scheduled(c: CloudSummary) -> bool {
    cloud_in_use(c) && is_set(c.is_self_schedule)
}

/// Clouds not in use.
pub open spec fn cloud_free(c: CloudSummary) -> bool {
    !cloud_in_use(c)
}

/// How the clouds of a server divide up on the dashboard.
#[derive(Debug, Clone, Copy)]
pub struct CloudCounts {
    pub total: usize,
    pub provisioned: usize,
    pub self_scheduled: usize,
    pub free: usize,
}

impl CloudCounts {
    /// The counts of `clouds`.
    pub open spec fn of(self, clouds: Seq<CloudSummary>) -> bool {
        &&& self.total == clouds.len()
        &&& self.provisioned == count_of(clouds, |c: CloudSummary| cloud_provisioned(c))
        &&& self.self_scheduled == count_of(clouds, |c: CloudSummary| cloud_self_scheduled(c))
        &&& self.free == count_of(clouds, |c: CloudSummary| cloud_free(c))
    }
}

/// Every cloud is provisioned, self-scheduled or free, and only one of
/// them.
pub proof fn law_cloud_classes_partition(clouds: Seq<CloudSummary>, c: CloudCounts)
    requires
        c.of(clouds),
    ensures
        c.provisioned + c.self_scheduled + c.free == c.total,
{
    lemma_count_split2(
        clouds,
        |x: CloudSummary| cloud_provisioned(x),
        |x: CloudSummary| cloud_self_scheduled(x),
        |x: CloudSummary| cloud_free(x),
    );
}

/// Whether a cloud summary counts as in use.
fn in_use(c: &CloudSummary) -> (r: bool)
    ensures
        r == cloud_in_use(*c),
{
    let has_owner = match &c.owner {
        Some(o) => !o.as_str().is_empty(),
        None => false,
    };
    let has_hosts = match c.count {
        Some(n) => n > 0,
        None => false,
    };
    has_owner && has_hosts
}

/// The dashboard's cloud figures for `clouds`.
pub fn cloud_counts(clouds: &Vec<CloudSummary>) -> (r: CloudCounts)
    ensures
        r.of(clouds@),
{
    let ghost s = clouds@;
    let mut r = CloudCounts { total: 0, provisioned: 0, self_scheduled: 0, free: 0 };
    let mut i: usize = 0;
    while i < clouds.len()
        invariant
            i <= s.len(),
            s == clouds@,
            r.of(s.take(i as int)),
        decreases s.len() - i,
    {
        proof {
            lemma_count_step(s, |x: CloudSummary| cloud_provisioned(x), i as int);
            lemma_count_step(s, |x: CloudSummary| cloud_self_scheduled(x), i as int);
            lemma_count_step(s, |x: CloudSummary| cloud_free(x), i as int);
            law_cloud_classes_partition(s.take(i as int), r);
        }
        let c = &clouds[i];
        if in_use(c) {
            if c.is_self_schedule == Some(true) {
                r.self_scheduled = r.self_scheduled + 1;
            } else {
                r.provisioned = r.provisioned + 1;
            }
        } else {
            r.free = r.free + 1;
        }
        r.total = r.total + 1;
        i = i + 1;
    }
    proof {
        assert(s.take(s.len() as int) =~= s);
    }
    r
}

/// The position of the last non-zero count, or -1 when all are zero.
pub open spec fn last_nonzero(c: Seq<usize>) -> int
    decreases c.len(),
{
    if c.len() == 0 {
        -1
    } else if c.last() > 0 {
        c.len() - 1
    } else {
        last_nonzero(c.drop_last())
    }
}

proof fn lemma_last_nonzero(c: Seq<usize>)
    ensures
        -1 <= last_nonzero(c) < c.len(),
        last_nonzero(c) >= 0 ==> c[last_nonzero(c)] > 0,
        forall|j: int| last_nonzero(c) < j < c.len() ==> c[j] == 0,
    decreases c.len(),
{
    if c.len() > 0 {
        lemma_last_nonzero(c.drop_last());
        if c.last() == 0 {
            assert forall|j: int| last_nonzero(c) < j < c.len() implies c[j] == 0 by {
                if j < c.len() - 1 {
                    assert(c[j] == c.drop_last()[j]);
                }
            }
        }
    }
}

/// A segment's share of a bar `bw` cells wide: its part of `total`,
/// rounded up.
pub open spec fn share(count: int, bw: int, total: int) -> int {
    (count * bw + total - 1) / total
}

/// The widths of the segments from the `i`-th on, `used` cells being
/// taken: a segment with no items gets none; the last segment with items
/// gets what is left; any other gets its share, but no more than is left.
pub open spec fn widths_from(c: Seq<usize>, total: int, bw: int, i: int, used: int) -> Seq<int>
    decreases c.len() - i,
{
    if i < 0 || i >= c.len() {
        Seq::empty()
    } else {
        let w = if c[i] == 0 {
            0
        } else if i == last_nonzero(c) {
            bw - used
        } else if share(c[i] as int, bw, total) < bw - used {
            share(c[i] as int, bw, total)
        } else {
            bw - used
        };
        seq![w] + widths_from(c, total, bw, i + 1, used + w)
    }
}

/// The sum of a sequence of widths.
pub open spec fn sum_of(s: Seq<int>) -> int
    decreases s.len(),
{
    if s.len() == 0 {
        0
    } else {
        s[0] + sum_of(s.skip(1))
    }
}

proof fn lemma_widths_from(c: Seq<usize>, total: int, bw: int, i: int, used: int)
    requires
        total > 0,
        bw >= 0,
        0 <= i <= c.len(),
        0 <= used <= bw,
    ensures
        widths_from(c, total, bw, i, used).len() == c.len() - i,
        forall|k: int|
            0 <= k < c.len() - i ==> #[trigger] widths_from(c, total, bw, i, used)[k] >= 0,
        forall|k: int|
            0 <= k < c.len() - i && c[i + k] == 0 ==> #[trigger] widths_from(
                c,
                total,
                bw,
                i,
                used,
            )[k] == 0,
        sum_of(widths_from(c, total, bw, i, used)) == if last_nonzero(c) >= i {
            bw - used
        } else {
            0
        },
    decreases c.len() - i,
{
    lemma_last_nonzero(c);
    if i < c.len() {
        let w = if c[i] == 0 {
            0
        } else if i == last_nonzero(c) {
            bw - used
        } else if share(c[i] as int, bw, total) < bw - used {
            share(c[i] as int, bw, total)
        } else {
            bw - used
        };
        if c[i] > 0 && i != last_nonzero(c) {
            assert(c[i] * bw >= 0) by (nonlinear_arith)
                requires
                    c[i] >= 0,
                    bw >= 0,
            ;
            assert(share(c[i] as int, bw, total) >= 0) by (nonlinear_arith)
                requires
                    c[i] * bw >= 0,
                    total > 0,
            ;
        }
        lemma_widths_from(c, total, bw, i + 1, used + w);
        let rest = widths_from(c, total, bw, i + 1, used + w);
        let all = widths_from(c, total, bw, i, used);
        assert(all == seq![w] + rest);
        assert(all.skip(1) =~= rest);
        assert forall|k: int| 0 <= k < c.len() - i implies #[trigger] all[k] >= 0 by {
            if k > 0 {
                assert(all[k] == rest[k - 1]);
            }
        }
        assert forall|k: int| 0 <= k < c.len() - i && c[i + k] == 0 implies #[trigger] all[k]
            == 0 by {
            if k > 0 {
                assert(all[k] == rest[k - 1]);
                assert(c[(i + 1) + (k - 1)] == 0);
            }
        }
    }
}

/// A bar chart fills its width exactly: when some segment has items, the
/// segments' widths add up to the bar's width; a segment without items gets
/// no width, and none gets a negative one.
pub proof fn law_bar_fills_width(counts: Seq<usize>, total: usize, bar_width: usize)
    requires
        total > 0,
    ensures
        widths_from(counts, total as int, bar_width as int, 0, 0).len() == counts.len(),
        forall|k: int|
            0 <= k < counts.len() ==> #[trigger] widths_from(
                counts,
                total as int,
                bar_width as int,
                0,
                0,
            )[k] >= 0,
        forall|k: int|
            0 <= k < counts.len() && counts[k] == 0 ==> #[trigger] widths_from(
                counts,
                total as int,
                bar_width as int,
                0,
                0,
            )[k] == 0,
        (exists|k: int| 0 <= k < counts.len() && counts[k] > 0) ==> sum_of(
            widths_from(counts, total as int, bar_width as int, 0, 0),
        ) == bar_width,
{
    lemma_widths_from(counts, total as int, bar_width as int, 0, 0);
    lemma_last_nonzero(counts);
    if exists|k: int| 0 <= k < counts.len() && counts[k] > 0 {
        let k = choose|k: int| 0 <= k < counts.len() && counts[k] > 0;
        assert(last_nonzero(counts) >= k);
    }
}

/// The values of a vector of widths.
pub open spec fn as_ints(v: Seq<usize>) -> Seq<int> {
    v.map_values(|x: usize| x as int)
}

/// The position of the last non-zero count.
fn last_nonzero_of(counts: &Vec<usize>) -> (r: Option<usize>)
    ensures
        match r {
            Some(k) => k == last_nonzero(counts@),
            None => last_nonzero(counts@) == -1,
        },
{
    let ghost c = counts@;
    let mut last: Option<usize> = None;
    let mut j: usize = 0;
    while j < counts.len()
        invariant
            j <= c.len(),
            c == counts@,
            match last {
                Some(k) => k == last_nonzero(c.take(j as int)),
                None => last_nonzero(c.take(j as int)) == -1,
            },
        decreases c.len() - j,
    {
        proof {
            assert(c.take(j + 1).drop_last() =~= c.take(j as int));
        }
        if counts[j] > 0 {
            last = Some(j);
        }
        j = j + 1;
    }
    proof {
        assert(c.take(c.len() as int) =~= c);
    }
    last
}

/// The widths of a bar chart's segments with `counts` items each, out of
/// `total`, on a bar `bar_width` cells wide (`widths_from`); none when
/// there is nothing to draw.
pub fn bar_widths(counts: &Vec<usize>, total: usize, bar_width: usize) -> (r: Option<Vec<usize>>)
    requires
        forall|k: int|
            0 <= k < counts@.len() ==> #[trigger] counts@[k] * bar_width + total <= usize::MAX,
    ensures
        total == 0 || bar_width == 0 ==> r is None,
        total > 0 && bar_width > 0 ==> (r matches Some(v) && as_ints(v@) == widths_from(
            counts@,
            total as int,
            bar_width as int,
            0,
            0,
        )),
{
    if total == 0 || bar_width == 0 {
        return None;
    }
    let ghost c = counts@;
    let ghost all = widths_from(c, total as int, bar_width as int, 0, 0);
    let last = last_nonzero_of(counts);
    let mut out: Vec<usize> = Vec::new();
    let mut used: usize = 0;
    let mut i: usize = 0;
    proof {
        assert(as_ints(out@) =~= Seq::<int>::empty());
        assert(as_ints(out@) + widths_from(c, total as int, bar_width as int, 0, 0) =~= all);
    }
    while i < counts.len()
        invariant
            i <= c.len(),
            c == counts@,
            total > 0,
            used <= bar_width,
            forall|k: int| 0 <= k < c.len() ==> #[trigger] c[k] * bar_width + total <= usize::MAX,
            match last {
                Some(k) => k == last_nonzero(c),
                None => last_nonzero(c) == -1,
            },
            as_ints(out@) + widths_from(c, total as int, bar_width as int, i as int, used as int)
                == all,
        decreases c.len() - i,
    {
        let n = counts[i];
        let is_last = match last {
            Some(k) => k == i,
            None => false,
        };
        let w: usize = if n == 0 {
            0
        } else if is_last {
            bar_width - used
        } else {
            assert(n * bar_width + total <= usize::MAX);
            let s = (n * bar_width + total - 1) / total;
            if s < bar_width - used {
                s
            } else {
                bar_width - used
            }
        };
        proof {
            let rest = widths_from(c, total as int, bar_width as int, i + 1, used + w);
            assert(widths_from(c, total as int, bar_width as int, i as int, used as int) == seq![
                w as int,
            ] + rest);
            assert(as_ints(out@.push(w)) =~= as_ints(out@).push(w as int));
            assert(as_ints(out@).push(w as int) + rest =~= as_ints(out@) + (seq![w as int]
                + rest));
        }
        out.push(w);
        used = used + w;
        i = i + 1;
    }
    proof {
        assert(widths_from(c, total as int, bar_width as int, i as int, used as int)
            =~= Seq::<int>::empty());
        assert(as_ints(out@) + Seq::<int>::empty() =~= as_ints(out@));
    }
    Some(out)
}

} // verus!
