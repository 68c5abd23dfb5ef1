//! The bounded pool of fetches, and the accounting of one transfer. The
//! fetches themselves run outside the library; this decides which may start
//! and collects one result per fetch, whatever order they finish in.
use vstd::prelude::*;

verus! {

/// Why a fetch failed.
#[derive(Debug, Clone)]
pub enum FetchError {
    /// The request or the response stream failed.
    Network(String),
    /// The cache file could not be written.
    Storage(String),
    /// The origin declared one length and sent another.
    LengthMismatch { declared: u64, written: u64 },
    /// More bytes arrived than a 64-bit count holds.
    TooLarge,
}

/// The bytes written so far by one fetch, against the length that the origin
/// declared, if it declared one.
#[derive(Debug, Clone, Copy, PartialEq, Eq)]
pub struct Transfer {
    pub written: u64,
    pub declared: Option<u64>,
}

impl Transfer {
    pub fn new(declared: Option<u64>) -> (r: Transfer)
        ensures
            r.written == 0,
            r.declared == declared,
    {
        Transfer { written: 0, declared }
    }

    /// Counts a chunk of `len` bytes; fails, counting nothing, when the count
    /// would overflow.
    pub fn on_chunk(&mut self, len: u64) -> (r: Result<(), FetchError>)
        ensures
            old(self).written + len <= u64::MAX ==> r is Ok && final(self).written == old(self).written
                + len,
            old(self).written + len > u64::MAX ==> r is Err && r->Err_0 is TooLarge && *final(self)
                == *old(self),
            final(self).declared == old(self).declared,
    {
        match self.written.checked_add(len) {
            Some(w) => {
                self.written = w;
                Ok(())
            },
            None => Err(FetchError::TooLarge),
        }
    }

    /// The denominator of the progress shown: the declared length, or zero
    /// for progress without a known end.
    pub fn progress_total(&self) -> (r: u64)
        ensures
            r == match self.declared {
                Some(d) => d,
                None => 0,
            },
    {
        match self.declared {
            Some(d) => d,
            None => 0,
        }
    }

    /// The result of a finished transfer: the bytes written, which must be
    /// the declared length where the origin declared one.
    pub fn finish(&self) -> (r: Result<u64, FetchError>)
        ensures
            r matches Ok(w) ==> w == self.written,
            r is Ok <==> (self.declared matches Some(d) ==> d == self.written),
            r is Err ==> self.declared is Some && r->Err_0 == (FetchError::LengthMismatch {
                declared: self.declared->Some_0,
                written: self.written,
            }),
    {
        match self.declared {
            Some(d) => if d == self.written {
                Ok(self.written)
            } else {
                Err(FetchError::LengthMismatch { declared: d, written: self.written })
            },
            None => Ok(self.written),
        }
    }
}

/// A batch of fetches run at most `limit` at a time. Jobs start in order;
/// each result is kept at the position of its job.
#[derive(Debug)]
pub struct FetchBatch {
    limit: usize,
    started: usize,
    running: Vec<usize>,
    results: Vec<Option<Result<u64, FetchError>>>,
}

impl FetchBatch {
    pub closed spec fn limit(&self) -> nat {
        self.limit as nat
    }

    /// How many jobs have started.
    pub closed spec fn started(&self) -> nat {
        self.started as nat
    }

    /// The jobs that started and have not finished.
    pub closed spec fn running(&self) -> Seq<usize> {
        self.running@
    }

    /// The result of each job, where it finished.
    pub closed spec fn results(&self) -> Seq<Option<Result<u64, FetchError>>> {
        self.results@
    }

    pub closed spec fn wf(&self) -> bool {
        &&& self.limit > 0
        &&& self.started <= self.results.len()
        &&& self.running.len() <= self.limit
        &&& self.running@.no_duplicates()
        &&& forall|q: int| 0 <= q < self.running.len() ==> (#[trigger] self.running@[q]) < self.started
        &&& forall|i: int|
            0 <= i < self.results.len() ==> ((#[trigger] self.results@[i]) is Some <==> (i
                < self.started && !self.running@.contains(i as usize)))
    }

    /// A batch of `total` jobs, at most `limit` of them running at once.
    pub fn new(total: usize, limit: usize) -> (r: FetchBatch)
        requires
            limit > 0,
        ensures
            r.wf(),
            r.limit() == limit,
            r.started() == 0,
            r.running().len() == 0,
            r.results().len() == total,
            forall|i: int| 0 <= i < total ==> (#[trigger] r.results()[i]) is None,
    {
        let mut results: Vec<Option<Result<u64, FetchError>>> = Vec::new();
        let mut i: usize = 0;
        while i < total
            invariant
                i <= total,
                results.len() == i,
                forall|q: int| 0 <= q < i ==> (#[trigger] results@[q]) is None,
            decreases total - i,
        {
            results.push(None);
            i = i + 1;
        }
        FetchBatch { limit, started: 0, running: Vec::new(), results }
    }

    /// The next job to start: the first not yet started, when fewer than
    /// `limit` are running.
    pub fn start_next(&mut self) -> (r: Option<usize>)
        requires
            old(self).wf(),
        ensures
            final(self).wf(),
            final(self).limit() == old(self).limit(),
            final(self).results() == old(self).results(),
            old(self).running().len() < old(self).limit() && old(self).started() < old(
                self,
            ).results().len() ==> r == Some(old(self).started() as usize) && final(self).started()
                == old(self).started() + 1 && final(self).running() == old(self).running().push(
                old(self).started() as usize,
            ),
            !(old(self).running().len() < old(self).limit() && old(self).started() < old(
                self,
            ).results().len()) ==> r is None && final(self).started() == old(self).started()
                && final(self).running() == old(self).running(),
    {
        if self.running.len() < self.limit && self.started < self.results.len() {
            let job = self.started;
            let ghost before = self.running@;
            self.running.push(job);
            self.started = self.started + 1;
            proof {
                assert(!before.contains(job)) by {
                    if before.contains(job) {
                        let q = choose|q: int| 0 <= q < before.len() && before[q] == job;
                        assert(before[q] < job);
                    }
                }
                assert forall|i: int| 0 <= i < self.results.len() implies ((#[trigger] self.results@[i]) is Some <==> (i
                    < self.started && !self.running@.contains(i as usize))) by {
                    if self.running@.contains(i as usize) && i != job {
                        let q = choose|q: int| 0 <= q < self.running@.len() && self.running@[q] == i as usize;
                        assert(before[q] == i);
                    }
                    if before.contains(i as usize) {
                        let q = choose|q: int| 0 <= q < before.len() && before[q] == i as usize;
                        assert(self.running@[q] == i);
                    }
                    if i == job {
                        assert(self.running@[before.len() as int] == job);
                    }
                }
            }
            Some(job)
        } else {
            None
        }
    }

    /// Records the result of a running job.
    pub fn complete(&mut self, job: usize, result: Result<u64, FetchError>)
        requires
            old(self).wf(),
            old(self).running().contains(job),
        ensures
            final(self).wf(),
            final(self).limit() == old(self).limit(),
            final(self).started() == old(self).started(),
            final(self).results() == old(self).results().update(job as int, Some(result)),
            final(self).running().len() == old(self).running().len() - 1,
            !final(self).running().contains(job),
            forall|j: usize|
                j != job ==> (final(self).running().contains(j) <==> old(self).running().contains(j)),
    {
        let ghost before = self.running@;
        let mut q: usize = 0;
        while q < self.running.len() && self.running[q] != job
            invariant
                q <= self.running.len(),
                self.running@ == before,
                before.contains(job),
                forall|p: int| 0 <= p < q ==> before[p] != job,
            decreases self.running.len() - q,
        {
            q = q + 1;
        }
        self.running.remove(q);
        self.results.set(job, Some(result));
        proof {
            let after = self.running@;
            assert(after =~= before.remove(q as int));
            assert forall|a: int, b: int| 0 <= a < after.len() && 0 <= b < after.len() && a != b implies after[a] != after[b] by {
                let sa = if a < q { a } else { a + 1 };
                let sb = if b < q { b } else { b + 1 };
                assert(after[a] == before[sa] && after[b] == before[sb]);
            }
            assert forall|p: int| 0 <= p < after.len() implies (#[trigger] after[p]) < self.started by {
                let sp = if p < q { p } else { p + 1 };
                assert(after[p] == before[sp]);
            }
            assert(!after.contains(job)) by {
                if after.contains(job) {
                    let p = choose|p: int| 0 <= p < after.len() && after[p] == job;
                    let sp = if p < q { p } else { p + 1 };
                    assert(after[p] == before[sp]);
                }
            }
            assert forall|j: usize| j != job implies (after.contains(j) <==> before.contains(j)) by {
                if after.contains(j) {
                    let p = choose|p: int| 0 <= p < after.len() && after[p] == j;
                    let sp = if p < q { p } else { p + 1 };
                    assert(after[p] == before[sp]);
                }
                if before.contains(j) {
                    let p = choose|p: int| 0 <= p < before.len() && before[p] == j;
                    assert(p != q);
                    let ap = if p < q { p } else { p - 1 };
                    assert(after[ap] == before[p]);
                }
            }
            assert forall|i: int| 0 <= i < self.results.len() implies ((#[trigger] self.results@[i]) is Some <==> (i
                < self.started && !self.running@.contains(i as usize))) by {
                if i != job {
                    if after.contains(i as usize) {
                        let p = choose|p: int| 0 <= p < after.len() && after[p] == i as usize;
                        let sp = if p < q { p } else { p + 1 };
                        assert(after[p] == before[sp]);
                    }
                    if before.contains(i as usize) {
                        let p = choose|p: int| 0 <= p < before.len() && before[p] == i as usize;
                        assert(p != q);
                        let ap = if p < q { p } else { p - 1 };
                        assert(after[ap] == before[p]);
                    }
                }
            }
        }
    }

    /// Whether every job has started and finished.
    pub fn is_finished(&self) -> (r: bool)
        requires
            self.wf(),
        ensures
            r == (self.started() == self.results().len() && self.running().len() == 0),
            r ==> forall|i: int| 0 <= i < self.results().len() ==> (#[trigger] self.results()[i]) is Some,
    {
        self.started == self.results.len() && self.running.len() == 0
    }

    /// The results of a finished batch, one per job, in the order of the jobs.
    pub fn into_results(self) -> (r: Vec<Result<u64, FetchError>>)
        requires
            self.wf(),
            self.started() == self.results().len(),
            self.running().len() == 0,
        ensures
            r.len() == self.results().len(),
            forall|i: int| 0 <= i < r.len() ==> Some(#[trigger] r@[i]) == self.results()[i],
    {
        let ghost all = self.results@;
        let mut results = self.results;
        let mut out: Vec<Result<u64, FetchError>> = Vec::new();
        while results.len() > 0
            invariant
                all.len() == out.len() + results.len(),
                results@ == all.skip(out.len() as int),
                forall|i: int| 0 <= i < all.len() ==> (#[trigger] all[i]) is Some,
                forall|i: int| 0 <= i < out.len() ==> Some(#[trigger] out@[i]) == all[i],
            decreases results.len(),
        {
            let ghost k = out.len() as int;
            let first = results.remove(0);
            assert(all.skip(k).drop_first() =~= all.skip(k + 1));
            assert(first == all[k]);
            match first {
                Some(res) => out.push(res),
                None => {
                    assert(false);
                },
            }
        }
        out
    }
}

/// None of the fetches that belong to `app` failed; `owners[j]` is the app
/// that fetch `j` belongs to.
pub open spec fn fetched_ok(owners: Seq<usize>, results: Seq<Result<u64, FetchError>>, app: usize) -> bool {
    forall|j: int| 0 <= j < owners.len() && owners[j] == app ==> (#[trigger] results[j]) is Ok
}

/// Which entries of an install plan go on to be installed: those none of
/// whose fetches failed. A failed fetch stops only the app it belongs to.
pub fn installable(plan: &Vec<usize>, owners: &Vec<usize>, results: &Vec<Result<u64, FetchError>>) -> (r:
    Vec<bool>)
    requires
        owners.len() == results.len(),
    ensures
        r.len() == plan.len(),
        forall|k: int| 0 <= k < plan.len() ==> #[trigger] r@[k] == fetched_ok(owners@, results@, plan@[k]),
{
    let mut r: Vec<bool> = Vec::new();
    let mut k: usize = 0;
    while k < plan.len()
        invariant
            owners.len() == results.len(),
            k <= plan.len(),
            r.len() == k,
            forall|q: int| 0 <= q < k ==> #[trigger] r@[q] == fetched_ok(owners@, results@, plan@[q]),
        decreases plan.len() - k,
    {
        let app = plan[k];
        let mut ok = true;
        let mut j: usize = 0;
        while j < owners.len()
            invariant
                owners.len() == results.len(),
                j <= owners.len(),
                ok == forall|p: int| 0 <= p < j && owners@[p] == app ==> (#[trigger] results@[p]) is Ok,
            decreases owners.len() - j,
        {
            if owners[j] == app && results[j].is_err() {
                ok = false;
            }
            j = j + 1;
        }
        r.push(ok);
        k = k + 1;
    }
    r
}

} // verus!
