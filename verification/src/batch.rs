//! The bookkeeping of a migration batch: a fixed list of files, numbered
//! from 0, that a pool of bounded size works through. The batch says when
//! a file may start, takes note of how each file ended, and keeps the
//! tally. A file that fails is recorded; it never stops the others.

use crate::migrate::{Cause, ItemResult};
use vstd::prelude::*;

verus! {

/// A file that failed, by its number in the batch.
#[derive(Clone, Copy, Debug, PartialEq, Eq, Structural)]
pub struct Failure {
    pub item: usize,
    pub cause: Cause,
}

/// The first place of `item` in `items`, or their number if it is not
/// among them.
pub open spec fn position(items: Seq<usize>, item: usize) -> int
    decreases items.len(),
{
    if items.len() == 0 {
        0
    } else if items[0] == item {
        0
    } else {
        1 + position(items.skip(1), item)
    }
}

/// The state of a batch, as numbers, sequences and a map.
pub struct BatchView {
    /// Number of files in the batch.
    pub total: nat,
    /// Most files that may be in work at once.
    pub ceiling: nat,
    /// Files handed out so far: those numbered below `next`.
    pub next: nat,
    /// Files handed out and not yet settled, in the order handed out.
    pub running: Seq<usize>,
    /// How each settled file ended.
    pub results: Map<usize, ItemResult>,
    /// Number of files settled as stored.
    pub stored: nat,
    /// Files settled as failed, in the order settled.
    pub failures: Seq<Failure>,
}

impl BatchView {
    /// Whether `item` is in work.
    pub open spec fn in_work(self, item: usize) -> bool {
        self.running.contains(item)
    }

    /// Whether `item` is among the recorded failures.
    pub open spec fn recorded(self, item: usize) -> bool {
        exists|i: int| 0 <= i < self.failures.len() && (#[trigger] self.failures[i]).item == item
    }

    /// The pool is never over its ceiling, and the counts add up.
    pub open spec fn counts_hold(self) -> bool {
        &&& self.ceiling >= 1
        &&& self.next <= self.total
        &&& self.running.len() <= self.ceiling
        &&& self.stored + self.failures.len() + self.running.len() == self.next
    }

    /// Every file handed out is either in work, once, or settled; no
    /// other file is.
    pub open spec fn files_hold(self) -> bool {
        &&& forall|i: int|
            0 <= i < self.running.len() ==> (#[trigger] self.running[i]) < self.next
                && !self.results.contains_key(self.running[i])
        &&& forall|i: int, j: int|
            0 <= i < j < self.running.len() ==> self.running[i] != self.running[j]
        &&& forall|item: usize| #[trigger] self.results.contains_key(item) ==> item < self.next
        &&& forall|item: usize|
            item < self.next ==> self.in_work(item) || #[trigger] self.results.contains_key(item)
    }

    /// The recorded failures are the files that were settled as failed,
    /// each once and with its cause.
    pub open spec fn failures_hold(self) -> bool {
        &&& forall|i: int|
            0 <= i < self.failures.len() ==> self.results.contains_key(
                (#[trigger] self.failures[i]).item,
            ) && self.results[self.failures[i].item] == ItemResult::Failed(self.failures[i].cause)
        &&& forall|i: int, j: int|
            0 <= i < j < self.failures.len()
                ==> (#[trigger] self.failures[i]).item != (#[trigger] self.failures[j]).item
        &&& forall|item: usize|
            (#[trigger] self.results.contains_key(item)) && self.results[item] is Failed
                ==> self.recorded(item)
    }

    /// What holds of every batch.
    pub open spec fn wf(self) -> bool {
        &&& self.counts_hold()
        &&& self.files_hold()
        &&& self.failures_hold()
    }

    /// Whether a file may be handed out now.
    pub open spec fn can_launch(self) -> bool {
        self.next < self.total && self.running.len() < self.ceiling
    }

    /// Whether every file was handed out and settled.
    pub open spec fn finished(self) -> bool {
        self.next == self.total && self.running.len() == 0
    }

    /// The batch after the next file was handed out.
    pub open spec fn launched(self) -> BatchView {
        BatchView {
            next: self.next + 1,
            running: self.running.push(self.next as usize),
            ..self
        }
    }

    /// The batch after `item`, which was in work, ended with `result`.
    pub open spec fn settled(self, item: usize, result: ItemResult) -> BatchView {
        let running = self.running.remove(position(self.running, item));
        let results = self.results.insert(item, result);
        match result {
            ItemResult::Stored => BatchView { running, results, stored: self.stored + 1, ..self },
            ItemResult::Failed(cause) => BatchView {
                running,
                results,
                failures: self.failures.push(Failure { item, cause }),
                ..self
            },
        }
    }
}

/// The bookkeeping of one batch.
pub struct Batch {
    total: usize,
    ceiling: usize,
    next: usize,
    running: Vec<usize>,
    results: Ghost<Map<usize, ItemResult>>,
    stored: usize,
    failures: Vec<Failure>,
}

impl View for Batch {
    type V = BatchView;

    closed spec fn view(&self) -> BatchView {
        BatchView {
            total: self.total as nat,
            ceiling: self.ceiling as nat,
            next: self.next as nat,
            running: self.running@,
            results: self.results@,
            stored: self.stored as nat,
            failures: self.failures@,
        }
    }
}

/// `position` finds the first place of an item.
pub proof fn lemma_position(items: Seq<usize>, item: usize, at: int)
    requires
        0 <= at <= items.len(),
        forall|i: int| 0 <= i < at ==> items[i] != item,
        at < items.len() ==> items[at] == item,
    ensures
        position(items, item) == at,
    decreases at,
{
    if at > 0 {
        let rest = items.skip(1);
        assert forall|i: int| 0 <= i < at - 1 implies rest[i] != item by {
            assert(rest[i] == items[i + 1]);
        }
        lemma_position(rest, item, at - 1);
    }
}

/// Handing out the next file keeps a batch well formed.
pub proof fn lemma_launched_wf(batch: BatchView)
    requires
        batch.wf(),
        batch.can_launch(),
        batch.next <= usize::MAX,
    ensures
        batch.launched().wf(),
{
    let after = batch.launched();
    let fresh = batch.next as usize;
    assert(after.running[batch.running.len() as int] == fresh);
    assert forall|item: usize| item < after.next implies after.in_work(item)
        || #[trigger] after.results.contains_key(item) by {
        if item != fresh && !batch.results.contains_key(item) {
            assert(batch.in_work(item));
            let i = choose|i: int| 0 <= i < batch.running.len() && batch.running[i] == item;
            assert(after.running[i] == item);
        }
    }
    assert forall|i: int| 0 <= i < after.running.len() implies (#[trigger] after.running[i])
        < after.next && !after.results.contains_key(after.running[i]) by {
        if i < batch.running.len() {
            assert(after.running[i] == batch.running[i]);
        }
    }
    assert forall|i: int, j: int| 0 <= i < j < after.running.len() implies after.running[i]
        != after.running[j] by {
        assert(after.running[i] == batch.running[i]);
        if j < batch.running.len() {
            assert(after.running[j] == batch.running[j]);
        }
    }
}

/// Settling a file that is in work keeps a batch well formed.
pub proof fn lemma_settled_wf(batch: BatchView, item: usize, result: ItemResult)
    requires
        batch.wf(),
        batch.in_work(item),
    ensures
        batch.settled(item, result).wf(),
{
    let after = batch.settled(item, result);
    let at = choose|i: int| 0 <= i < batch.running.len() && batch.running[i] == item;
    assert(batch.running[at] == item);
    assert forall|i: int| 0 <= i < at implies batch.running[i] != item by {}
    lemma_position(batch.running, item, at);
    assert(after.running == batch.running.remove(at));
    assert(!batch.results.contains_key(item));

    assert forall|i: int| 0 <= i < after.running.len() implies (#[trigger] after.running[i])
        < after.next && !after.results.contains_key(after.running[i]) by {
        if i < at {
            assert(after.running[i] == batch.running[i]);
        } else {
            assert(after.running[i] == batch.running[i + 1]);
        }
    }
    assert forall|i: int, j: int| 0 <= i < j < after.running.len() implies after.running[i]
        != after.running[j] by {
        let before_i = if i < at { i } else { i + 1 };
        let before_j = if j < at { j } else { j + 1 };
        assert(after.running[i] == batch.running[before_i]);
        assert(after.running[j] == batch.running[before_j]);
    }
    assert forall|other: usize| other < after.next implies after.in_work(other)
        || #[trigger] after.results.contains_key(other) by {
        if other != item && !batch.results.contains_key(other) {
            assert(batch.in_work(other));
            let i = choose|i: int| 0 <= i < batch.running.len() && batch.running[i] == other;
            if i < at {
                assert(after.running[i] == other);
            } else {
                assert(after.running[i - 1] == other);
            }
        }
    }
    assert forall|i: int| 0 <= i < after.failures.len() implies after.results.contains_key(
        (#[trigger] after.failures[i]).item,
    ) && after.results[after.failures[i].item] == ItemResult::Failed(after.failures[i].cause) by {
        if i < batch.failures.len() {
            assert(after.failures[i] == batch.failures[i]);
            assert(batch.results.contains_key(batch.failures[i].item));
        }
    }
    assert forall|i: int, j: int| 0 <= i < j < after.failures.len() implies
        (#[trigger] after.failures[i]).item != (#[trigger] after.failures[j]).item by {
        assert(after.failures[i] == batch.failures[i]);
        assert(batch.results.contains_key(batch.failures[i].item));
        if j < batch.failures.len() {
            assert(after.failures[j] == batch.failures[j]);
        }
    }
    assert forall|other: usize|
        (#[trigger] after.results.contains_key(other)) && after.results[other] is Failed
        implies after.recorded(other) by {
        if other == item {
            assert(after.failures[batch.failures.len() as int].item == item);
        } else {
            assert(batch.results.contains_key(other));
            assert(batch.recorded(other));
            let i = choose|i: int|
                0 <= i < batch.failures.len() && (#[trigger] batch.failures[i]).item == other;
            assert(after.failures[i].item == other);
        }
    }
}

impl Batch {
    /// A batch of `total` files for a pool of `ceiling` workers. A pool
    /// without workers would never finish, so there is at least one.
    pub fn new(total: usize, ceiling: usize) -> (batch: Batch)
        requires
            ceiling >= 1,
        ensures
            batch@.wf(),
            batch@ == (BatchView {
                total: total as nat,
                ceiling: ceiling as nat,
                next: 0,
                running: Seq::empty(),
                results: Map::empty(),
                stored: 0,
                failures: Seq::empty(),
            }),
    {
        Batch {
            total,
            ceiling,
            next: 0,
            running: Vec::new(),
            results: Ghost(Map::empty()),
            stored: 0,
            failures: Vec::new(),
        }
    }

    /// Hands out the next file if there is one left and the pool has a
    /// free worker. Failures of other files have no part in this.
    pub fn launch(&mut self) -> (item: Option<usize>)
        requires
            old(self)@.wf(),
        ensures
            final(self)@.wf(),
            old(self)@.can_launch() ==> item == Some(old(self)@.next as usize) && final(self)@
                == old(self)@.launched(),
            !old(self)@.can_launch() ==> item is None && final(self)@ == old(self)@,
    {
        if self.next < self.total && self.running.len() < self.ceiling {
            proof {
                lemma_launched_wf(self@);
            }
            let item = self.next;
            self.running.push(item);
            self.next = self.next + 1;
            Some(item)
        } else {
            None
        }
    }

    /// Records how the work on `item` ended and frees its worker. Returns
    /// whether `item` was in work; if it was not, nothing changes.
    pub fn settle(&mut self, item: usize, result: ItemResult) -> (known: bool)
        requires
            old(self)@.wf(),
        ensures
            final(self)@.wf(),
            known == old(self)@.in_work(item),
            known ==> final(self)@ == old(self)@.settled(item, result),
            !known ==> final(self)@ == old(self)@,
    {
        let mut at: usize = 0;
        while at < self.running.len() && self.running[at] != item
            invariant
                *self == *old(self),
                at <= self.running.len(),
                forall|i: int| 0 <= i < at ==> self.running@[i] != item,
            decreases self.running.len() - at,
        {
            at += 1;
        }
        if at == self.running.len() {
            return false;
        }
        proof {
            assert(self.running@[at as int] == item);
            lemma_position(self.running@, item, at as int);
            lemma_settled_wf(self@, item, result);
        }
        self.running.remove(at);
        self.results = Ghost(self.results@.insert(item, result));
        match result {
            ItemResult::Stored => {
                self.stored = self.stored + 1;
            },
            ItemResult::Failed(cause) => {
                self.failures.push(Failure { item, cause });
            },
        }
        true
    }

    /// Whether every file was handed out and settled.
    pub fn is_finished(&self) -> (done: bool)
        ensures
            done == self@.finished(),
    {
        self.next == self.total && self.running.len() == 0
    }

    /// Number of files in the batch.
    pub fn total(&self) -> (n: usize)
        ensures
            n == self@.total,
    {
        self.total
    }

    /// Number of files in work.
    pub fn in_flight(&self) -> (n: usize)
        ensures
            n == self@.running.len(),
    {
        self.running.len()
    }

    /// Number of files stored.
    pub fn stored(&self) -> (n: usize)
        ensures
            n == self@.stored,
    {
        self.stored
    }

    /// The files that failed, in the order in which they were settled.
    pub fn failures(&self) -> (list: &Vec<Failure>)
        ensures
            list@ == self@.failures,
    {
        &self.failures
    }
}

/// A finished batch accounts for every file: each was settled, and each
/// is counted as stored or recorded as failed, whatever failed on the way.
pub proof fn law_finished_batch_is_complete(batch: BatchView)
    requires
        batch.wf(),
        batch.finished(),
    ensures
        batch.stored + batch.failures.len() == batch.total,
        forall|item: usize| item < batch.total ==> batch.results.contains_key(item),
{
    assert forall|item: usize| item < batch.total implies batch.results.contains_key(item) by {
        if !batch.results.contains_key(item) {
            assert(batch.in_work(item));
        }
    }
}

/// A batch that is not finished can always go on: a file can be handed
/// out, or one is in work and will be settled. No failure stops it.
pub proof fn law_batch_never_stalls(batch: BatchView)
    requires
        batch.wf(),
        !batch.finished(),
    ensures
        batch.can_launch() || batch.running.len() > 0,
{
}

/// A file is among the recorded failures exactly if it was settled as
/// failed.
pub proof fn law_failures_are_the_failed_files(batch: BatchView, item: usize)
    requires
        batch.wf(),
    ensures
        batch.recorded(item) <==> batch.results.contains_key(item) && batch.results[item] is Failed,
{
    if batch.recorded(item) {
        let i = choose|i: int|
            0 <= i < batch.failures.len() && (#[trigger] batch.failures[i]).item == item;
        assert(batch.results.contains_key(batch.failures[i].item));
    }
}

/// Where one file of a finished batch failed and every other was stored,
/// the batch has stored all files but one and recorded one failure, for
/// that file and with its cause.
pub proof fn law_one_failure_is_isolated(batch: BatchView, failed: usize, cause: Cause)
    requires
        batch.wf(),
        batch.finished(),
        failed < batch.total,
        batch.results[failed] == ItemResult::Failed(cause),
        forall|other: usize|
            other < batch.total && other != failed ==> batch.results[other] == ItemResult::Stored,
    ensures
        batch.stored == batch.total - 1,
        batch.failures == seq![Failure { item: failed, cause }],
{
    law_finished_batch_is_complete(batch);
    assert(batch.results.contains_key(failed));
    assert(batch.recorded(failed));
    assert forall|i: int| 0 <= i < batch.failures.len() implies (#[trigger] batch.failures[i])
        == (Failure { item: failed, cause }) by {
        let entry = batch.failures[i];
        assert(batch.results.contains_key(entry.item));
        assert(entry.item < batch.total);
    }
    if batch.failures.len() >= 2 {
        assert(batch.failures[0].item != batch.failures[1].item);
    }
    assert(batch.failures.len() == 1);
    assert(batch.failures =~= seq![Failure { item: failed, cause }]);
}

} // verus!
