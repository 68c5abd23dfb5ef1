//! Dependency resolution: from one app to an install plan in which every
//! dependency comes before the apps that need it.
use vstd::prelude::*;

use crate::bucket_app::{lookup, BucketAppName, BucketAppV, BucketsAppsRepository};
use crate::manifest::Manifest;

verus! {

/// The dependency names in a loaded manifest; none when it is not loaded.
pub open spec fn manifest_deps(m: Option<Manifest>) -> Seq<(Option<Seq<char>>, Seq<char>)> {
    match m {
        Some(m) => match m.depends.deep_view() {
            Some(d) => d,
            None => Seq::empty(),
        },
        None => Seq::empty(),
    }
}

/// The dependency names of app `i`; an app whose manifest is not loaded has none yet.
pub open spec fn deps_of(loaded: Seq<Option<Manifest>>, i: int) -> Seq<(Option<Seq<char>>, Seq<char>)> {
    manifest_deps(loaded[i])
}

/// The app that the `k`-th dependency of app `i` refers to.
pub open spec fn target(apps: Seq<BucketAppV>, loaded: Seq<Option<Manifest>>, i: int, k: int) -> Option<
    int,
> {
    lookup(apps, deps_of(loaded, i)[k])
}

/// App `u` depends on app `v`.
pub open spec fn edge(apps: Seq<BucketAppV>, loaded: Seq<Option<Manifest>>, u: int, v: int) -> bool {
    &&& loaded[u] is Some
    &&& exists|k: int| 0 <= k < deps_of(loaded, u).len() && #[trigger] target(apps, loaded, u, k) == Some(v)
}

/// A non-empty sequence of apps, each depending on the next.
pub open spec fn is_walk(apps: Seq<BucketAppV>, loaded: Seq<Option<Manifest>>, p: Seq<usize>) -> bool {
    &&& p.len() > 0
    &&& forall|q: int| 0 < q < p.len() ==> edge(apps, loaded, p[q - 1] as int, #[trigger] p[q] as int)
}

/// App `v` is a transitive dependency of `root`, or `root` itself.
pub open spec fn reachable(apps: Seq<BucketAppV>, loaded: Seq<Option<Manifest>>, root: int, v: int) -> bool {
    exists|p: Seq<usize>|
        #[trigger] is_walk(apps, loaded, p) && p[0] == root && p.last() == v
}

/// A walk whose last app depends on its first.
pub open spec fn is_cycle(apps: Seq<BucketAppV>, loaded: Seq<Option<Manifest>>, c: Seq<usize>) -> bool {
    is_walk(apps, loaded, c) && edge(apps, loaded, c.last() as int, c[0] as int)
}

/// A plan under construction: distinct apps, each reachable from `root`, each
/// with its manifest loaded, each dependency resolving to an earlier app.
pub open spec fn is_partial_plan(
    apps: Seq<BucketAppV>,
    loaded: Seq<Option<Manifest>>,
    root: int,
    p: Seq<usize>,
) -> bool {
    &&& p.no_duplicates()
    &&& forall|a: int| 0 <= a < p.len() ==> (#[trigger] p[a]) < apps.len()
    &&& forall|a: int| 0 <= a < p.len() ==> reachable(apps, loaded, root, #[trigger] p[a] as int)
    &&& forall|a: int| 0 <= a < p.len() ==> loaded[#[trigger] p[a] as int] is Some
    &&& forall|a: int, k: int|
        0 <= a < p.len() && 0 <= k < deps_of(loaded, p[a] as int).len() ==> #[trigger] resolved_before(
            apps,
            loaded,
            p,
            a,
            k,
        )
}

/// An install plan for `root`: distinct apps, each reachable from `root`,
/// `root` among them, each with its manifest loaded, and each dependency of
/// each app resolving to an app that comes earlier in the plan.
pub open spec fn is_plan(
    apps: Seq<BucketAppV>,
    loaded: Seq<Option<Manifest>>,
    root: int,
    p: Seq<usize>,
) -> bool {
    &&& p.no_duplicates()
    &&& p.contains(root as usize)
    &&& p.len() > 0 && p.last() == root as usize
    &&& forall|a: int| 0 <= a < p.len() ==> (#[trigger] p[a]) < apps.len()
    &&& forall|a: int| 0 <= a < p.len() ==> reachable(apps, loaded, root, #[trigger] p[a] as int)
    &&& forall|a: int| 0 <= a < p.len() ==> loaded[#[trigger] p[a] as int] is Some
    &&& forall|a: int, k: int|
        0 <= a < p.len() && 0 <= k < deps_of(loaded, p[a] as int).len() ==> #[trigger] resolved_before(
            apps,
            loaded,
            p,
            a,
            k,
        )
}

/// The `k`-th dependency of `p[a]` refers to an app that stands before it in `p`.
pub open spec fn resolved_before(
    apps: Seq<BucketAppV>,
    loaded: Seq<Option<Manifest>>,
    p: Seq<usize>,
    a: int,
    k: int,
) -> bool {
    exists|b: int| 0 <= b < a && target(apps, loaded, p[a] as int, k) == Some(#[trigger] p[b] as int)
}

/// What resolution gives.
#[derive(Debug)]
pub enum Resolution {
    /// The apps to install, dependencies first.
    Plan(Vec<usize>),
    /// The manifest of this reachable app must be loaded before going on.
    NeedManifest(usize),
    /// A dependency of `app` refers to no app of the repository.
    DependencyNotFound { app: usize, dependency: BucketAppName },
    /// These apps depend on each other in a circle, each on the next and the
    /// last on the first.
    Cycle(Vec<usize>),
}

/// What each outcome of [`resolve`] tells of the dependency graph of `root`.
pub open spec fn resolution_holds(
    apps: Seq<BucketAppV>,
    loaded: Seq<Option<Manifest>>,
    root: int,
    r: Resolution,
) -> bool {
    match r {
        Resolution::Plan(p) => is_plan(apps, loaded, root, p@),
        Resolution::NeedManifest(i) => {
            &&& i < apps.len()
            &&& reachable(apps, loaded, root, i as int)
            &&& loaded[i as int] is None
        },
        Resolution::DependencyNotFound { app, dependency } => {
            &&& app < apps.len()
            &&& reachable(apps, loaded, root, app as int)
            &&& loaded[app as int] is Some
            &&& exists|k: int|
                0 <= k < deps_of(loaded, app as int).len() && deps_of(loaded, app as int)[k]
                    == dependency@ && #[trigger] target(apps, loaded, app as int, k) is None
        },
        Resolution::Cycle(c) => {
            &&& is_cycle(apps, loaded, c@)
            &&& reachable(apps, loaded, root, c@[0] as int)
        },
    }
}

/// Every app reachable from `root` has its manifest loaded, and each of its
/// dependencies refers to an app of the repository.
pub open spec fn graph_complete(apps: Seq<BucketAppV>, loaded: Seq<Option<Manifest>>, root: int) -> bool {
    forall|v: int|
        #![trigger reachable(apps, loaded, root, v)]
        reachable(apps, loaded, root, v) ==> 0 <= v < loaded.len() && loaded[v] is Some && forall|k: int|
            0 <= k < deps_of(loaded, v).len() ==> (#[trigger] target(apps, loaded, v, k)) is Some
}

/// No circle of dependencies is reachable from `root`.
pub open spec fn acyclic_from(apps: Seq<BucketAppV>, loaded: Seq<Option<Manifest>>, root: int) -> bool {
    forall|c: Seq<usize>|
        #![trigger is_cycle(apps, loaded, c)]
        !(is_cycle(apps, loaded, c) && reachable(apps, loaded, root, c[0] as int))
}

/// Every walk from `root` stays inside a plan for `root`.
pub proof fn lemma_plan_covers_reachable(
    apps: Seq<BucketAppV>,
    loaded: Seq<Option<Manifest>>,
    root: int,
    p: Seq<usize>,
    v: int,
)
    requires
        is_plan(apps, loaded, root, p),
        reachable(apps, loaded, root, v),
    ensures
        p.contains(v as usize),
{
    let w = choose|w: Seq<usize>| #[trigger] is_walk(apps, loaded, w) && w[0] == root && w.last() == v;
    lemma_walk_in_plan(apps, loaded, root, p, w, w.len() - 1);
}

proof fn lemma_walk_in_plan(
    apps: Seq<BucketAppV>,
    loaded: Seq<Option<Manifest>>,
    root: int,
    p: Seq<usize>,
    w: Seq<usize>,
    i: int,
)
    requires
        is_plan(apps, loaded, root, p),
        is_walk(apps, loaded, w),
        w[0] == root,
        0 <= i < w.len(),
    ensures
        p.contains(w[i]),
    decreases i,
{
    if i == 0 {
    } else {
        lemma_walk_in_plan(apps, loaded, root, p, w, i - 1);
        let a = choose|a: int| 0 <= a < p.len() && p[a] == w[i - 1];
        assert(edge(apps, loaded, w[i - 1] as int, w[i] as int));
        let k = choose|k: int|
            0 <= k < deps_of(loaded, w[i - 1] as int).len() && #[trigger] target(apps, loaded, w[i - 1] as int, k)
                == Some(w[i] as int);
        assert(resolved_before(apps, loaded, p, a, k));
        let b = choose|b: int| 0 <= b < a && target(apps, loaded, p[a] as int, k) == Some(p[b] as int);
        assert(p[b] == w[i]);
    }
}

/// A plan for `root` holds exactly `root` and its transitive dependencies,
/// each once, with `root` last.
pub proof fn lemma_plan_is_reachable_set(
    apps: Seq<BucketAppV>,
    loaded: Seq<Option<Manifest>>,
    root: int,
    p: Seq<usize>,
)
    requires
        is_plan(apps, loaded, root, p),
    ensures
        forall|v: usize| #[trigger] p.contains(v) <==> reachable(apps, loaded, root, v as int),
        p.no_duplicates(),
        p.last() == root as usize,
{
    assert forall|v: usize| #[trigger] p.contains(v) <==> reachable(apps, loaded, root, v as int) by {
        if reachable(apps, loaded, root, v as int) {
            lemma_plan_covers_reachable(apps, loaded, root, p, v as int);
        }
        if p.contains(v) {
            let a = choose|a: int| 0 <= a < p.len() && p[a] == v;
            assert(reachable(apps, loaded, root, p[a] as int));
        }
    }
}

/// In a plan, an app that another app of the plan depends on comes strictly
/// before it.
pub proof fn lemma_plan_dependency_first(
    apps: Seq<BucketAppV>,
    loaded: Seq<Option<Manifest>>,
    root: int,
    p: Seq<usize>,
    a: int,
    v: int,
)
    requires
        is_plan(apps, loaded, root, p),
        0 <= a < p.len(),
        edge(apps, loaded, p[a] as int, v),
    ensures
        exists|b: int| 0 <= b < a && p[b] == v,
{
    let k = choose|k: int|
        0 <= k < deps_of(loaded, p[a] as int).len() && #[trigger] target(apps, loaded, p[a] as int, k)
            == Some(v);
    assert(resolved_before(apps, loaded, p, a, k));
    let b = choose|b: int| 0 <= b < a && target(apps, loaded, p[a] as int, k) == Some(p[b] as int);
    assert(p[b] == v);
}

/// Where a plan exists, no circle of dependencies is reachable from its root.
pub proof fn lemma_plan_acyclic(
    apps: Seq<BucketAppV>,
    loaded: Seq<Option<Manifest>>,
    root: int,
    p: Seq<usize>,
    c: Seq<usize>,
)
    requires
        is_plan(apps, loaded, root, p),
    ensures
        !(is_cycle(apps, loaded, c) && reachable(apps, loaded, root, c[0] as int)),
{
    if is_cycle(apps, loaded, c) && reachable(apps, loaded, root, c[0] as int) {
        lemma_plan_covers_reachable(apps, loaded, root, p, c[0] as int);
        let a0 = choose|a0: int| 0 <= a0 < p.len() && p[a0] == c[0];
        lemma_cycle_positions(apps, loaded, root, p, c, a0, c.len() - 1);
        let x = choose|x: int| 0 <= x <= a0 - (c.len() - 1) && p[x] == c[c.len() - 1];
        lemma_plan_dependency_first(apps, loaded, root, p, x, c[0] as int);
        let b = choose|b: int| 0 <= b < x && p[b] == c[0];
        assert(p[b] == p[a0]);
    }
}

/// Along a walk, positions in a plan fall by at least one at each step.
proof fn lemma_cycle_positions(
    apps: Seq<BucketAppV>,
    loaded: Seq<Option<Manifest>>,
    root: int,
    p: Seq<usize>,
    c: Seq<usize>,
    a0: int,
    i: int,
)
    requires
        is_plan(apps, loaded, root, p),
        is_walk(apps, loaded, c),
        0 <= a0 < p.len(),
        p[a0] == c[0],
        0 <= i < c.len(),
    ensures
        exists|x: int| 0 <= x <= a0 - i && p[x] == c[i],
    decreases i,
{
    if i > 0 {
        lemma_cycle_positions(apps, loaded, root, p, c, a0, i - 1);
        let x = choose|x: int| 0 <= x <= a0 - (i - 1) && p[x] == c[i - 1];
        assert(edge(apps, loaded, c[i - 1] as int, c[i] as int));
        lemma_plan_dependency_first(apps, loaded, root, p, x, c[i] as int);
    }
}

/// The number of dependencies in a loaded manifest.
fn dep_count(m: &Option<Manifest>) -> (r: usize)
    ensures
        r == manifest_deps(*m).len(),
{
    match m {
        Some(m) => match &m.depends {
            Some(d) => d.len(),
            None => 0,
        },
        None => 0,
    }
}

/// The `c`-th dependency in a loaded manifest.
fn dep_at(m: &Option<Manifest>, c: usize) -> (r: &BucketAppName)
    requires
        c < manifest_deps(*m).len(),
    ensures
        r@ == manifest_deps(*m)[c as int],
{
    let manifest = m.as_ref().unwrap();
    let d = manifest.depends.as_ref().unwrap();
    &d[c]
}

/// A sequence without repeats, all of whose items are below `n`, has at most
/// `n` items.
proof fn lemma_distinct_bound(s: Seq<usize>, n: int)
    requires
        s.no_duplicates(),
        forall|i: int| 0 <= i < s.len() ==> (s[i] as int) < n,
        0 <= n <= usize::MAX as int + 1,
    ensures
        s.len() <= n,
    decreases n,
{
    if s.len() > 0 {
        if n <= 0 {
            assert((s[0] as int) < n);
        } else {
            let m = (n - 1) as usize;
            if s.contains(m) {
                let i = choose|i: int| 0 <= i < s.len() && s[i] == m;
                let t = s.remove(i);
                assert(t.len() == s.len() - 1);
                assert forall|k: int| 0 <= k < t.len() implies (t[k] as int) < n - 1 by {
                    if k < i {
                        assert(t[k] == s[k]);
                    } else {
                        assert(t[k] == s[k + 1]);
                    }
                }
                assert forall|a: int, b: int| 0 <= a < t.len() && 0 <= b < t.len() && a != b implies t[a]
                    != t[b] by {
                    let sa = if a < i { a } else { a + 1 };
                    let sb = if b < i { b } else { b + 1 };
                    assert(t[a] == s[sa] && t[b] == s[sb]);
                }
                lemma_distinct_bound(t, n - 1);
            } else {
                assert forall|k: int| 0 <= k < s.len() implies (s[k] as int) < n - 1 by {
                    assert(s[k] != m);
                }
                lemma_distinct_bound(s, n - 1);
            }
        }
    }
}

/// The stack of the walk: each app depends, through the dependency it is
/// being worked on, on the app above it.
pub open spec fn linked(
    apps: Seq<BucketAppV>,
    loaded: Seq<Option<Manifest>>,
    stack: Seq<usize>,
    next: Seq<usize>,
    s: int,
) -> bool {
    &&& loaded[stack[s] as int] is Some
    &&& next[s] < deps_of(loaded, stack[s] as int).len()
    &&& target(apps, loaded, stack[s] as int, next[s] as int) == Some(stack[s + 1] as int)
}

/// The dependencies of a stacked app before the one being worked on are done.
pub open spec fn settled(
    apps: Seq<BucketAppV>,
    loaded: Seq<Option<Manifest>>,
    state: Seq<u8>,
    stack: Seq<usize>,
    next: Seq<usize>,
    s: int,
) -> bool {
    &&& loaded[stack[s] as int] is Some
    &&& next[s] <= deps_of(loaded, stack[s] as int).len()
    &&& forall|k: int| 0 <= k < next[s] ==> #[trigger] done_target(apps, loaded, state, stack[s] as int, k)
}

/// The `k`-th dependency of `u` refers to an app that is done.
pub open spec fn done_target(
    apps: Seq<BucketAppV>,
    loaded: Seq<Option<Manifest>>,
    state: Seq<u8>,
    u: int,
    k: int,
) -> bool {
    match target(apps, loaded, u, k) {
        Some(j) => 0 <= j < state.len() && state[j] == 2,
        None => false,
    }
}

proof fn lemma_stack_walk(
    apps: Seq<BucketAppV>,
    loaded: Seq<Option<Manifest>>,
    root: int,
    stack: Seq<usize>,
    next: Seq<usize>,
    q: int,
)
    requires
        stack.len() > 0,
        stack[0] == root,
        next.len() == stack.len(),
        forall|s: int| 0 <= s < stack.len() - 1 ==> #[trigger] linked(apps, loaded, stack, next, s),
        0 <= q < stack.len(),
    ensures
        is_walk(apps, loaded, stack.take(q + 1)),
        reachable(apps, loaded, root, stack[q] as int),
{
    let w = stack.take(q + 1);
    assert forall|r: int| 0 < r < w.len() implies edge(apps, loaded, w[r - 1] as int, #[trigger] w[r] as int) by {
        assert(linked(apps, loaded, stack, next, r - 1));
        assert(w[r - 1] == stack[r - 1] && w[r] == stack[r]);
        let k = next[r - 1] as int;
        assert(0 <= k < deps_of(loaded, w[r - 1] as int).len() && target(apps, loaded, w[r - 1] as int, k) == Some(w[r] as int));
    }
    assert(is_walk(apps, loaded, w));
    assert(w[0] == root && w.last() == stack[q]);
}

/// The state of the walk: `state` marks each app new (0), on the stack (1)
/// or done (2); the done apps form a partial plan in `order`.
#[verifier::opaque]
pub open spec fn walk_state(
    apps: Seq<BucketAppV>,
    ld: Seq<Option<Manifest>>,
    root: int,
    state: Seq<u8>,
    stack: Seq<usize>,
    next: Seq<usize>,
    order: Seq<usize>,
) -> bool {
    let n = state.len();
    &&& n <= usize::MAX as int
    &&& apps.len() == n
    &&& ld.len() == n
    &&& 0 <= root < n
    &&& next.len() == stack.len()
    &&& stack.len() > 0 ==> stack[0] == root
    &&& state[root] != 0
    &&& forall|v: int| 0 <= v < n ==> #[trigger] state[v] <= 2
    &&& forall|v: int| 0 <= v < n ==> (#[trigger] state[v] == 1) == stack.contains(v as usize)
    &&& forall|v: int| 0 <= v < n ==> (#[trigger] state[v] == 2) == order.contains(v as usize)
    &&& forall|q: int| 0 <= q < stack.len() ==> (#[trigger] stack[q]) < n
    &&& stack.no_duplicates()
    &&& is_partial_plan(apps, ld, root, order)
    &&& forall|s: int| 0 <= s < stack.len() - 1 ==> #[trigger] linked(apps, ld, stack, next, s)
    &&& forall|s: int| 0 <= s < stack.len() ==> #[trigger] settled(apps, ld, state, stack, next, s)
    &&& order.len() + stack.len() <= n
    &&& stack.len() == 0 ==> order.len() > 0 && order.last() == root as usize
}

/// What a step of the walk reads from its state.
proof fn lemma_walk_facts(
    apps: Seq<BucketAppV>,
    ld: Seq<Option<Manifest>>,
    root: int,
    state: Seq<u8>,
    stack: Seq<usize>,
    next: Seq<usize>,
    order: Seq<usize>,
)
    requires
        walk_state(apps, ld, root, state, stack, next, order),
        stack.len() > 0,
    ensures
        next.len() == stack.len(),
        stack.last() < state.len(),
        settled(apps, ld, state, stack, next, stack.len() - 1),
        order.len() + stack.len() <= state.len(),
        forall|v: int| 0 <= v < state.len() ==> (#[trigger] state[v] == 1) == stack.contains(v as usize),
        forall|v: int| 0 <= v < state.len() ==> #[trigger] state[v] <= 2,
        is_walk(apps, ld, stack),
        reachable(apps, ld, root, stack.last() as int),
        forall|s: int| 0 <= s < stack.len() - 1 ==> #[trigger] linked(apps, ld, stack, next, s),
        stack[0] == root,
{
    reveal(walk_state);
    lemma_stack_walk(apps, ld, root, stack, next, stack.len() - 1);
    assert(stack.take(stack.len() as int) =~= stack);
}

/// Done with the dependency being worked on, whose app is done: go on to the next.
proof fn lemma_walk_advance(
    apps: Seq<BucketAppV>,
    ld: Seq<Option<Manifest>>,
    root: int,
    state: Seq<u8>,
    stack: Seq<usize>,
    next: Seq<usize>,
    order: Seq<usize>,
    j: int,
)
    requires
        walk_state(apps, ld, root, state, stack, next, order),
        stack.len() > 0,
        next.last() < deps_of(ld, stack.last() as int).len(),
        target(apps, ld, stack.last() as int, next.last() as int) == Some(j),
        0 <= j < state.len(),
        state[j] == 2,
    ensures
        walk_state(
            apps,
            ld,
            root,
            state,
            stack,
            next.update(stack.len() - 1, (next.last() + 1) as usize),
            order,
        ),
{
    reveal(walk_state);
    let t = stack.len() - 1;
    let next2 = next.update(t, (next.last() + 1) as usize);
    assert forall|s: int| 0 <= s < stack.len() - 1 implies #[trigger] linked(apps, ld, stack, next2, s) by {
        assert(linked(apps, ld, stack, next, s));
    }
    assert forall|s: int| 0 <= s < stack.len() implies #[trigger] settled(apps, ld, state, stack, next2, s) by {
        assert(settled(apps, ld, state, stack, next, s));
        if s == t {
            assert forall|k: int| 0 <= k < next2[s] implies #[trigger] done_target(apps, ld, state, stack[s] as int, k) by {
                if k < next[s] {
                    assert(done_target(apps, ld, state, stack[s] as int, k));
                }
            }
        }
    }
}

/// The dependency being worked on refers to a new app: put it on the stack.
proof fn lemma_walk_push(
    apps: Seq<BucketAppV>,
    ld: Seq<Option<Manifest>>,
    root: int,
    state: Seq<u8>,
    stack: Seq<usize>,
    next: Seq<usize>,
    order: Seq<usize>,
    j: usize,
)
    requires
        walk_state(apps, ld, root, state, stack, next, order),
        stack.len() > 0,
        next.last() < deps_of(ld, stack.last() as int).len(),
        target(apps, ld, stack.last() as int, next.last() as int) == Some(j as int),
        j < state.len(),
        state[j as int] == 0,
        ld[j as int] is Some,
    ensures
        walk_state(apps, ld, root, state.update(j as int, 1), stack.push(j), next.push(0), order),
{
    reveal(walk_state);
    let n = state.len();
    let t = stack.len() - 1;
    let state2 = state.update(j as int, 1);
    let stack2 = stack.push(j);
    let next2 = next.push(0);
    assert(!stack.contains(j));
    assert forall|v: int| 0 <= v < n implies (#[trigger] state2[v] == 1) == stack2.contains(v as usize) by {
        if v != j {
            if stack.contains(v as usize) {
                let q = choose|q: int| 0 <= q < stack.len() && stack[q] == v;
                assert(stack2[q] == v);
            }
            if stack2.contains(v as usize) {
                let q = choose|q: int| 0 <= q < stack2.len() && stack2[q] == v;
                assert(q < stack.len());
                assert(stack[q] == v);
            }
        } else {
            assert(stack2[stack2.len() - 1] == j);
        }
    }
    assert forall|v: int| 0 <= v < n implies (#[trigger] state2[v] == 2) == order.contains(v as usize) by {
        assert(state[v] == 2 <==> order.contains(v as usize));
    }
    assert forall|v: int| 0 <= v < n implies #[trigger] state2[v] <= 2 by {
        assert(state[v] <= 2);
    }
    assert forall|q: int| 0 <= q < stack2.len() implies (#[trigger] stack2[q]) < n by {
        if q < stack.len() {
            assert(stack[q] < n);
        }
    }
    assert forall|s: int| 0 <= s < stack2.len() - 1 implies #[trigger] linked(apps, ld, stack2, next2, s) by {
        if s < t {
            assert(linked(apps, ld, stack, next, s));
        }
    }
    assert forall|s: int| 0 <= s < stack2.len() implies #[trigger] settled(apps, ld, state2, stack2, next2, s) by {
        if s < stack.len() {
            assert(settled(apps, ld, state, stack, next, s));
            assert forall|k: int| 0 <= k < next2[s] implies #[trigger] done_target(apps, ld, state2, stack2[s] as int, k) by {
                assert(done_target(apps, ld, state, stack[s] as int, k));
            }
        }
    }
    assert(stack2.no_duplicates());
    let os = order + stack2;
    assert forall|a: int, b: int| 0 <= a < os.len() && 0 <= b < os.len() && a != b implies os[a] != os[b] by {
        if a < order.len() && b < order.len() {
        } else if a >= order.len() && b >= order.len() {
            assert(os[a] == stack2[a - order.len()] && os[b] == stack2[b - order.len()]);
        } else {
            let (x, y) = if a < order.len() { (a, b) } else { (b, a) };
            assert(order.contains(os[x]));
            assert(os[y] == stack2[y - order.len()]);
            assert(stack2.contains(os[y]));
            assert(os[x] < n);
            if os[x] == os[y] {
                assert(state2[os[x] as int] == 2);
            }
        }
    }
    assert forall|i: int| 0 <= i < os.len() implies (os[i] as int) < n by {
        if i < order.len() {
            assert(order[i] < apps.len());
        } else {
            assert(os[i] == stack2[i - order.len()]);
        }
    }
    lemma_distinct_bound(os, n as int);
}

/// All dependencies of the app on top are done: it is done too.
proof fn lemma_walk_pop(
    apps: Seq<BucketAppV>,
    ld: Seq<Option<Manifest>>,
    root: int,
    state: Seq<u8>,
    stack: Seq<usize>,
    next: Seq<usize>,
    order: Seq<usize>,
)
    requires
        walk_state(apps, ld, root, state, stack, next, order),
        stack.len() > 0,
        next.last() >= deps_of(ld, stack.last() as int).len(),
    ensures
        walk_state(
            apps,
            ld,
            root,
            state.update(stack.last() as int, 2),
            stack.drop_last(),
            next.drop_last(),
            order.push(stack.last()),
        ),
{
    reveal(walk_state);
    let n = state.len();
    let t = stack.len() - 1;
    let u = stack.last();
    let state2 = state.update(u as int, 2);
    let stack2 = stack.drop_last();
    let next2 = next.drop_last();
    let order2 = order.push(u);
    lemma_stack_walk(apps, ld, root, stack, next, t);
    assert(u < n);
    assert(settled(apps, ld, state, stack, next, t));
    assert(state[u as int] == 1);
    assert(!order.contains(u));
    assert forall|a: int, k: int| 0 <= a < order2.len() && 0 <= k < deps_of(ld, order2[a] as int).len() implies #[trigger] resolved_before(apps, ld, order2, a, k) by {
        if a < order.len() {
            assert(resolved_before(apps, ld, order, a, k));
            let b = choose|b: int| 0 <= b < a && target(apps, ld, order[a] as int, k) == Some(#[trigger] order[b] as int);
            assert(order2[b] == order[b]);
        } else {
            assert(order2[a] == u);
            assert(done_target(apps, ld, state, stack[t] as int, k));
            let x = target(apps, ld, u as int, k)->Some_0;
            assert(0 <= x < n && state[x] == 2);
            assert(order.contains(x as usize));
            let b = choose|b: int| 0 <= b < order.len() && order[b] == x as usize;
            assert(order2[b] == order[b]);
            assert(target(apps, ld, order2[a] as int, k) == Some(order2[b] as int));
        }
    }
    assert forall|a: int| 0 <= a < order2.len() implies reachable(apps, ld, root, #[trigger] order2[a] as int) by {
        if a < order.len() {
            assert(order2[a] == order[a]);
        }
    }
    assert forall|a: int| 0 <= a < order2.len() implies (#[trigger] order2[a]) < apps.len() by {
        if a < order.len() {
            assert(order2[a] == order[a]);
        }
    }
    assert forall|a: int| 0 <= a < order2.len() implies ld[#[trigger] order2[a] as int] is Some by {
        if a < order.len() {
            assert(order2[a] == order[a]);
        }
    }
    assert(order2.no_duplicates());
    assert forall|v: int| 0 <= v < n implies (#[trigger] state2[v] == 1) == stack2.contains(v as usize) by {
        if v != u {
            if stack.contains(v as usize) {
                let q = choose|q: int| 0 <= q < stack.len() && stack[q] == v as usize;
                assert(stack[t] == u);
                assert(q != t);
                assert(stack2[q] == v);
            }
            if stack2.contains(v as usize) {
                let q = choose|q: int| 0 <= q < stack2.len() && stack2[q] == v;
                assert(stack[q] == v);
            }
        } else {
            if stack2.contains(v as usize) {
                let q = choose|q: int| 0 <= q < stack2.len() && stack2[q] == v;
                assert(stack[q] == stack[t]);
            }
        }
    }
    assert forall|v: int| 0 <= v < n implies (#[trigger] state2[v] == 2) == order2.contains(v as usize) by {
        if v != u {
            assert(state[v] == 2 <==> order.contains(v as usize));
            if order.contains(v as usize) {
                let q = choose|q: int| 0 <= q < order.len() && order[q] == v;
                assert(order2[q] == v);
            }
            if order2.contains(v as usize) {
                let q = choose|q: int| 0 <= q < order2.len() && order2[q] == v;
                assert(q < order.len());
                assert(order[q] == v);
            }
        } else {
            assert(order2[order2.len() - 1] == u);
        }
    }
    assert forall|v: int| 0 <= v < n implies #[trigger] state2[v] <= 2 by {
        assert(state[v] <= 2);
    }
    assert forall|q: int| 0 <= q < stack2.len() implies (#[trigger] stack2[q]) < n by {
        assert(stack[q] < n);
    }
    assert forall|s: int| 0 <= s < stack2.len() - 1 implies #[trigger] linked(apps, ld, stack2, next2, s) by {
        assert(linked(apps, ld, stack, next, s));
    }
    assert forall|s: int| 0 <= s < stack2.len() implies #[trigger] settled(apps, ld, state2, stack2, next2, s) by {
        assert(settled(apps, ld, state, stack, next, s));
        assert forall|k: int| 0 <= k < next2[s] implies #[trigger] done_target(apps, ld, state2, stack2[s] as int, k) by {
            assert(done_target(apps, ld, state, stack[s] as int, k));
        }
    }
    assert(stack2.no_duplicates());
    if stack2.len() > 0 {
        assert(stack2[0] == root);
    } else {
        assert(u == stack[0]);
        assert(order2.last() == u);
        assert(state2[root] != 0) by {
            if root != u {
                assert(state[root] != 0);
            }
        }
    }
}

/// The walk starts with `root` alone on the stack.
proof fn lemma_walk_start(
    apps: Seq<BucketAppV>,
    ld: Seq<Option<Manifest>>,
    root: int,
    state: Seq<u8>,
)
    requires
        apps.len() == state.len(),
        ld.len() == state.len(),
        0 <= root < state.len(),
        state.len() <= usize::MAX as int,
        ld[root] is Some,
        forall|v: int| 0 <= v < state.len() ==> state[v] == 0,
    ensures
        walk_state(
            apps,
            ld,
            root,
            state.update(root, 1),
            seq![root as usize],
            seq![0usize],
            Seq::empty(),
        ),
{
    reveal(walk_state);
    let state2 = state.update(root, 1);
    let stack = seq![root as usize];
    assert forall|v: int| 0 <= v < state.len() implies (#[trigger] state2[v] == 1) == stack.contains(v as usize) by {
        if v == root {
            assert(stack[0] == root);
        }
    }
    assert forall|v: int| 0 <= v < state.len() implies (#[trigger] state2[v] == 2) == Seq::<usize>::empty().contains(v as usize) by {
    }
    assert(settled(apps, ld, state2, stack, seq![0usize], 0));
    assert(Seq::<usize>::empty() + stack =~= stack);
    lemma_distinct_bound(Seq::<usize>::empty() + stack, state.len() as int);
}

/// An empty stack leaves a plan behind.
proof fn lemma_walk_done(
    apps: Seq<BucketAppV>,
    ld: Seq<Option<Manifest>>,
    root: int,
    state: Seq<u8>,
    stack: Seq<usize>,
    next: Seq<usize>,
    order: Seq<usize>,
)
    requires
        walk_state(apps, ld, root, state, stack, next, order),
        stack.len() == 0,
    ensures
        is_plan(apps, ld, root, order),
{
    reveal(walk_state);
    assert(state[root] != 1);
    assert(state[root] <= 2);
}

/// Resolves the dependencies of `root` against the apps of `repo`, whose
/// manifests, where loaded, stand at the same positions in `loaded`.
///
/// Walks depth first with an explicit stack: an app is added to the plan once
/// all its dependencies are in it, so dependencies come first; an app met
/// again while it is still on the stack closes a circle. Where the walk meets
/// an app whose manifest is not loaded, it asks for it: load it and resolve
/// again.
pub fn resolve(repo: &BucketsAppsRepository, loaded: &Vec<Option<Manifest>>, root: usize) -> (r:
    Resolution)
    requires
        loaded.len() == repo.apps.len(),
        root < repo.apps.len(),
    ensures
        resolution_holds(repo.apps.deep_view(), loaded@, root as int, r),
        graph_complete(repo.apps.deep_view(), loaded@, root as int) && acyclic_from(
            repo.apps.deep_view(),
            loaded@,
            root as int,
        ) ==> r is Plan,
{
    let r = resolve_walk(repo, loaded, root);
    proof {
        let apps = repo.apps.deep_view();
        match &r {
            Resolution::NeedManifest(i) => {
                assert(reachable(apps, loaded@, root as int, *i as int));
            },
            Resolution::DependencyNotFound { app, dependency } => {
                assert(reachable(apps, loaded@, root as int, *app as int));
            },
            Resolution::Cycle(c) => {
                assert(is_cycle(apps, loaded@, c@));
            },
            Resolution::Plan(_) => {},
        }
    }
    r
}

fn resolve_walk(repo: &BucketsAppsRepository, loaded: &Vec<Option<Manifest>>, root: usize) -> (r:
    Resolution)
    requires
        loaded.len() == repo.apps.len(),
        root < repo.apps.len(),
    ensures
        resolution_holds(repo.apps.deep_view(), loaded@, root as int, r),
{
    let ghost apps = repo.apps.deep_view();
    let ghost ld = loaded@;
    let n = loaded.len();
    proof {
        let w = seq![root];
        assert(is_walk(apps, ld, w));
        assert(reachable(apps, ld, root as int, root as int));
    }
    if loaded[root].is_none() {
        return Resolution::NeedManifest(root);
    }
    let mut state: Vec<u8> = Vec::new();
    let mut i: usize = 0;
    while i < n
        invariant
            i <= n,
            state.len() == i,
            forall|v: int| 0 <= v < i ==> state@[v] == 0,
        decreases n - i,
    {
        state.push(0);
        i = i + 1;
    }
    proof {
        lemma_walk_start(apps, ld, root as int, state@);
    }
    state[root] = 1;
    let mut stack: Vec<usize> = Vec::new();
    stack.push(root);
    let mut next: Vec<usize> = Vec::new();
    next.push(0);
    let mut order: Vec<usize> = Vec::new();
    proof {
        assert(stack@ =~= seq![root]);
        assert(next@ =~= seq![0usize]);
        assert(order@ =~= Seq::<usize>::empty());
    }
    while stack.len() > 0
        invariant
            n == loaded.len(),
            n == repo.apps.len(),
            n == state.len(),
            apps == repo.apps.deep_view(),
            ld == loaded@,
            walk_state(apps, ld, root as int, state@, stack@, next@, order@),
        decreases 2 * n - 2 * order.len() - stack.len(), if stack.len() > 0 {
            deps_of(ld, stack@.last() as int).len() - next@.last()
        } else {
            0
        },
    {
        proof {
            lemma_walk_facts(apps, ld, root as int, state@, stack@, next@, order@);
        }
        let t = stack.len() - 1;
        let u = stack[t];
        let c = next[t];
        let ndeps = dep_count(&loaded[u]);
        if c < ndeps {
            let d = dep_at(&loaded[u], c);
            match repo.position(d) {
                None => {
                    let dependency = d.duplicate();
                    return Resolution::DependencyNotFound { app: u, dependency };
                },
                Some(j) => {
                    if state[j] == 2 {
                        proof {
                            lemma_walk_advance(apps, ld, root as int, state@, stack@, next@, order@, j as int);
                        }
                        next[t] = c + 1;
                    } else if state[j] == 1 {
                        let cycle = cycle_from(&stack, j);
                        proof {
                            let s0 = choose|s0: int| 0 <= s0 < stack.len() && stack@[s0] == j && cycle@ == stack@.subrange(s0, stack.len() as int);
                            lemma_stack_walk(apps, ld, root as int, stack@, next@, s0);
                            assert forall|r: int| 0 < r < cycle@.len() implies edge(apps, ld, cycle@[r - 1] as int, #[trigger] cycle@[r] as int) by {
                                assert(linked(apps, ld, stack@, next@, s0 + r - 1));
                                let k = next@[s0 + r - 1] as int;
                                assert(0 <= k < deps_of(ld, cycle@[r - 1] as int).len() && target(apps, ld, cycle@[r - 1] as int, k) == Some(cycle@[r] as int));
                            }
                            assert(0 <= c < deps_of(ld, cycle@.last() as int).len() && target(apps, ld, cycle@.last() as int, c as int) == Some(cycle@[0] as int));
                        }
                        return Resolution::Cycle(cycle);
                    } else {
                        if loaded[j].is_none() {
                            proof {
                                let w = stack@.push(j);
                                assert(0 <= c < deps_of(ld, u as int).len() && target(apps, ld, u as int, c as int) == Some(j as int));
                                assert forall|r: int| 0 < r < w.len() implies edge(apps, ld, w[r - 1] as int, #[trigger] w[r] as int) by {
                                    if r < w.len() - 1 {
                                        assert(w[r - 1] == stack@[r - 1] && w[r] == stack@[r]);
                                    }
                                }
                                assert(is_walk(apps, ld, w) && w[0] == root && w.last() == j);
                            }
                            return Resolution::NeedManifest(j);
                        }
                        proof {
                            lemma_walk_push(apps, ld, root as int, state@, stack@, next@, order@, j);
                        }
                        state[j] = 1;
                        stack.push(j);
                        next.push(0);
                    }
                },
            }
        } else {
            proof {
                lemma_walk_pop(apps, ld, root as int, state@, stack@, next@, order@);
            }
            stack.pop();
            next.pop();
            state[u] = 2;
            order.push(u);
        }
    }
    proof {
        lemma_walk_done(apps, ld, root as int, state@, stack@, next@, order@);
    }
    Resolution::Plan(order)
}

/// The apps of `stack` from `j` on.
fn cycle_from(stack: &Vec<usize>, j: usize) -> (r: Vec<usize>)
    requires
        stack@.contains(j),
    ensures
        exists|s0: int| 0 <= s0 < stack.len() && stack@[s0] == j && r@ == stack@.subrange(s0, stack.len() as int),
{
    let mut s0: usize = 0;
    while s0 < stack.len() && stack[s0] != j
        invariant
            s0 <= stack.len(),
            stack@.contains(j),
            forall|q: int| 0 <= q < s0 ==> stack@[q] != j,
        decreases stack.len() - s0,
    {
        s0 = s0 + 1;
    }
    let mut r: Vec<usize> = Vec::new();
    let mut q: usize = s0;
    while q < stack.len()
        invariant
            s0 < stack.len(),
            stack@[s0 as int] == j,
            s0 <= q <= stack.len(),
            r@ == stack@.subrange(s0 as int, q as int),
        decreases stack.len() - q,
    {
        r.push(stack[q]);
        q = q + 1;
    }
    r
}

} // verus!
