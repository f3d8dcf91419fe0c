//! The durable counter service: a keyed state machine.
//!
//! The durable runtime persists one `count` slot per instance key and
//! admits invocations so that Exclusive ones are serialized per key while
//! Shared ones only ever see committed state. `CounterStore` models that
//! per-key slot storage, and `CounterServiceServer` implements the
//! service's read-modify-write methods against it. Rust's borrow rules
//! mirror the admission policy: Exclusive methods take the store by `&mut`
//! (at most one at a time), the Shared `get_count` takes it by `&`.

use vstd::prelude::*;

verus! {

/// One Exclusive operation of the counter service.
#[derive(Clone, Copy, Debug, PartialEq, Eq, Structural)]
pub enum CounterOp {
    Increment,
    Decrement,
    Add(i64),
    Reset,
}

/// What one Exclusive operation commits, given the count it read.
pub open spec fn counter_step(count: int, op: CounterOp) -> int {
    match op {
        CounterOp::Increment => count + 1,
        CounterOp::Decrement => count - 1,
        CounterOp::Add(v) => count + v as int,
        CounterOp::Reset => 0,
    }
}

/// The count committed after a sequence of Exclusive operations has run
/// one at a time, in completion order.
pub open spec fn apply_ops(count: int, ops: Seq<CounterOp>) -> int
    decreases ops.len(),
{
    if ops.len() == 0 {
        count
    } else {
        apply_ops(counter_step(count, ops[0]), ops.drop_first())
    }
}

/// The algebraic contribution of one operation: +1, -1, the added value,
/// and 0 for a reset (a reset discards what came before it instead).
pub open spec fn op_delta(op: CounterOp) -> int {
    match op {
        CounterOp::Increment => 1,
        CounterOp::Decrement => -1,
        CounterOp::Add(v) => v as int,
        CounterOp::Reset => 0,
    }
}

/// The algebraic sum of the operations' contributions.
pub open spec fn delta_sum(ops: Seq<CounterOp>) -> int
    decreases ops.len(),
{
    if ops.len() == 0 {
        0
    } else {
        op_delta(ops[0]) + delta_sum(ops.drop_first())
    }
}

/// The first entry at or after position `i` whose key matches, if any.
spec fn lookup_from(entries: Seq<(String, i64)>, i: int, key: Seq<char>) -> Option<i64>
    decreases entries.len() - i,
{
    if i < 0 || i >= entries.len() {
        None
    } else if entries[i].0@ == key {
        Some(entries[i].1)
    } else {
        lookup_from(entries, i + 1, key)
    }
}

/// Per-key persisted storage of the counter's single `count` slot, as the
/// durable runtime presents it to an invocation: each instance key owns an
/// independent slot, and a slot that was never written is absent.
pub struct CounterStore {
    entries: Vec<(String, i64)>,
}

impl CounterStore {
    /// The raw `count` slot of one key: `None` until first written.
    pub closed spec fn slot_of(&self, key: Seq<char>) -> Option<i64> {
        lookup_from(self.entries@, 0, key)
    }

    /// The count a handler observes for one key: the slot's value, with
    /// the default 0 where the slot is absent.
    pub open spec fn count_of(&self, key: Seq<char>) -> int {
        match self.slot_of(key) {
            Some(v) => v as int,
            None => 0,
        }
    }

    /// A store in which no key has ever been written.
    pub fn new() -> (r: Self)
        ensures
            forall|k: Seq<char>| r.slot_of(k) is None,
    {
        CounterStore { entries: Vec::new() }
    }

    /// Reads one key's `count` slot, as the runtime's `get` does.
    pub fn get(&self, key: &String) -> (r: Option<i64>)
        ensures
            r == self.slot_of(key@),
    {
        let n = self.entries.len();
        let mut i: usize = 0;
        while i < n
            invariant
                n == self.entries@.len(),
                0 <= i <= n,
                lookup_from(self.entries@, 0, key@) == lookup_from(self.entries@, i as int, key@),
            decreases n - i,
        {
            if self.entries[i].0 == *key {
                return Some(self.entries[i].1);
            }
            i = i + 1;
        }
        None
    }

    /// Writes one key's `count` slot, as the runtime's `set` does: the
    /// written key now holds exactly `v`, and no other key's slot moves.
    pub fn set(&mut self, key: &String, v: i64)
        ensures
            final(self).slot_of(key@) == Some(v),
            forall|k2: Seq<char>|
                k2 != key@ ==> final(self).slot_of(k2) == old(self).slot_of(k2),
    {
        let n = self.entries.len();
        let mut i: usize = 0;
        while i < n
            invariant
                n == self.entries@.len(),
                0 <= i <= n,
                *self == *old(self),
                forall|m: int| 0 <= m < i ==> old(self).entries@[m].0@ != key@,
            decreases n - i,
        {
            if self.entries[i].0 == *key {
                let entry = (key.clone(), v);
                let ghost before = self.entries@;
                self.entries[i] = entry;
                proof {
                    let p = self.entries@[i as int];
                    assert(self.entries@ == before.update(i as int, p));
                    lemma_lookup_update_first(before, i as int, p, 0, key@);
                    assert forall|k2: Seq<char>| k2 != key@ implies lookup_from(
                        self.entries@,
                        0,
                        k2,
                    ) == lookup_from(before, 0, k2) by {
                        lemma_lookup_update_other(before, i as int, p, 0, k2);
                    }
                }
                return;
            }
            i = i + 1;
        }
        let entry = (key.clone(), v);
        let ghost before = self.entries@;
        self.entries.push(entry);
        proof {
            let p = self.entries@[self.entries@.len() - 1];
            assert(self.entries@ == before.push(p));
            assert(lookup_from(before, 0, key@) == lookup_from(before, n as int, key@)) by {
                lemma_lookup_skipped(before, 0, n as int, key@);
            }
            lemma_lookup_push(before, p, 0, key@);
            assert forall|k2: Seq<char>| k2 != key@ implies lookup_from(self.entries@, 0, k2)
                == lookup_from(before, 0, k2) by {
                lemma_lookup_push(before, p, 0, k2);
            }
        }
    }
}

/// The counter service's handler. Each method is one invocation body:
/// it reads the key's committed count (0 where the slot is absent),
/// computes, writes, and returns, exactly as the service's contract
/// states. The runtime commits the write atomically with the response,
/// so the ensures below describe the state any later invocation reads.
pub struct CounterServiceServer;

impl CounterServiceServer {
    /// Exclusive: `count <- count + 1`, returning the new count.
    pub fn increment(&self, store: &mut CounterStore, key: &String) -> (r: i64)
        requires
            old(store).count_of(key@) < i64::MAX,
        ensures
            final(store).count_of(key@) == counter_step(
                old(store).count_of(key@),
                CounterOp::Increment,
            ),
            r as int == final(store).count_of(key@),
            forall|k2: Seq<char>|
                k2 != key@ ==> final(store).count_of(k2) == old(store).count_of(k2),
    {
        let current = match store.get(key) {
            Some(v) => v,
            None => 0,
        };
        let new_count = current + 1;
        store.set(key, new_count);
        new_count
    }

    /// Exclusive: `count <- count - 1`, returning the new count.
    pub fn decrement(&self, store: &mut CounterStore, key: &String) -> (r: i64)
        requires
            old(store).count_of(key@) > i64::MIN,
        ensures
            final(store).count_of(key@) == counter_step(
                old(store).count_of(key@),
                CounterOp::Decrement,
            ),
            r as int == final(store).count_of(key@),
            forall|k2: Seq<char>|
                k2 != key@ ==> final(store).count_of(k2) == old(store).count_of(k2),
    {
        let current = match store.get(key) {
            Some(v) => v,
            None => 0,
        };
        let new_count = current - 1;
        store.set(key, new_count);
        new_count
    }

    /// Shared: returns the committed count, touching nothing. A Shared
    /// invocation runs only while no Exclusive one is in flight on the
    /// key, so what it reads is never older than the most recently
    /// committed Exclusive write.
    pub fn get_count(&self, store: &CounterStore, key: &String) -> (r: i64)
        ensures
            r as int == store.count_of(key@),
    {
        match store.get(key) {
            Some(v) => v,
            None => 0,
        }
    }

    /// Exclusive: `count <- 0`.
    pub fn reset(&self, store: &mut CounterStore, key: &String)
        ensures
            final(store).count_of(key@) == counter_step(
                old(store).count_of(key@),
                CounterOp::Reset,
            ),
            forall|k2: Seq<char>|
                k2 != key@ ==> final(store).count_of(k2) == old(store).count_of(k2),
    {
        store.set(key, 0);
    }

    /// Exclusive: `count <- count + value`, returning the new count.
    pub fn add(&self, store: &mut CounterStore, key: &String, value: i64) -> (r: i64)
        requires
            i64::MIN <= old(store).count_of(key@) + value <= i64::MAX,
        ensures
            final(store).count_of(key@) == counter_step(
                old(store).count_of(key@),
                CounterOp::Add(value),
            ),
            r as int == final(store).count_of(key@),
            forall|k2: Seq<char>|
                k2 != key@ ==> final(store).count_of(k2) == old(store).count_of(k2),
    {
        let current = match store.get(key) {
            Some(v) => v,
            None => 0,
        };
        let new_count = current + value;
        store.set(key, new_count);
        new_count
    }

    /// Exclusive dispatch: runs one operation against one key and returns
    /// the count it committed. This single entry point ties every method
    /// to `counter_step`, the step function the sequence laws fold.
    pub fn apply(&self, store: &mut CounterStore, key: &String, op: CounterOp) -> (r: i64)
        requires
            i64::MIN <= counter_step(old(store).count_of(key@), op) <= i64::MAX,
        ensures
            final(store).count_of(key@) == counter_step(old(store).count_of(key@), op),
            r as int == final(store).count_of(key@),
            forall|k2: Seq<char>|
                k2 != key@ ==> final(store).count_of(k2) == old(store).count_of(k2),
    {
        match op {
            CounterOp::Increment => self.increment(store, key),
            CounterOp::Decrement => self.decrement(store, key),
            CounterOp::Add(v) => self.add(store, key, v),
            CounterOp::Reset => {
                self.reset(store, key);
                0
            },
        }
    }
}

/// Folding one more operation onto a prefix steps the fold once.
proof fn lemma_apply_ops_snoc(c: int, ops: Seq<CounterOp>, j: int)
    requires
        0 <= j < ops.len(),
    ensures
        apply_ops(c, ops.take(j + 1)) == counter_step(apply_ops(c, ops.take(j)), ops[j]),
    decreases j,
{
    if j == 0 {
        assert(ops.take(1).drop_first() =~= Seq::<CounterOp>::empty());
        assert(ops.take(0) =~= Seq::<CounterOp>::empty());
        assert(ops.take(1)[0] == ops[0]);
        assert(apply_ops(c, ops.take(1)) == apply_ops(
            counter_step(c, ops[0]),
            Seq::<CounterOp>::empty(),
        ));
    } else {
        let t = ops.drop_first();
        assert(ops.take(j + 1).drop_first() =~= t.take(j));
        assert(ops.take(j).drop_first() =~= t.take(j - 1));
        assert(ops.take(j + 1)[0] == ops[0]);
        assert(ops.take(j)[0] == ops[0]);
        assert(t[j - 1] == ops[j]);
        lemma_apply_ops_snoc(counter_step(c, ops[0]), t, j - 1);
        assert(apply_ops(c, ops.take(j + 1)) == apply_ops(counter_step(c, ops[0]), t.take(j)));
        assert(apply_ops(c, ops.take(j)) == apply_ops(counter_step(c, ops[0]), t.take(j - 1)));
    }
}

impl CounterServiceServer {
    /// Runs a sequence of Exclusive operations against one key, one at a
    /// time, as the runtime admits them: the final committed count is the
    /// fold of their effects in completion order, and no other key moves.
    /// The caller keeps every intermediate count representable.
    pub fn run_exclusive(&self, store: &mut CounterStore, key: &String, ops: &Vec<CounterOp>)
        requires
            forall|j: int|
                0 <= j <= ops@.len() ==> i64::MIN <= #[trigger] apply_ops(
                    old(store).count_of(key@),
                    ops@.take(j),
                ) <= i64::MAX,
        ensures
            final(store).count_of(key@) == apply_ops(old(store).count_of(key@), ops@),
            forall|k2: Seq<char>|
                k2 != key@ ==> final(store).count_of(k2) == old(store).count_of(k2),
    {
        let n = ops.len();
        let mut i: usize = 0;
        while i < n
            invariant
                n == ops@.len(),
                0 <= i <= n,
                store.count_of(key@) == apply_ops(old(store).count_of(key@), ops@.take(i as int)),
                forall|k2: Seq<char>|
                    k2 != key@ ==> store.count_of(k2) == old(store).count_of(k2),
                forall|j: int|
                    0 <= j <= n ==> i64::MIN <= #[trigger] apply_ops(
                        old(store).count_of(key@),
                        ops@.take(j),
                    ) <= i64::MAX,
            decreases n - i,
        {
            proof {
                lemma_apply_ops_snoc(old(store).count_of(key@), ops@, i as int);
            }
            self.apply(store, key, ops[i]);
            i = i + 1;
        }
        proof {
            assert(ops@.take(n as int) =~= ops@);
        }
    }
}

/// A run of Exclusive operations without a reset moves the count by
/// exactly the algebraic sum of their contributions, whatever order the
/// runtime completed them in.
pub proof fn lemma_exclusive_sum(count: int, ops: Seq<CounterOp>)
    requires
        forall|i: int| 0 <= i < ops.len() ==> !(#[trigger] ops[i] is Reset),
    ensures
        apply_ops(count, ops) == count + delta_sum(ops),
    decreases ops.len(),
{
    if ops.len() > 0 {
        assert(forall|i: int|
            0 <= i < ops.drop_first().len() ==> #[trigger] ops.drop_first()[i] == ops[i + 1]);
        lemma_exclusive_sum(counter_step(count, ops[0]), ops.drop_first());
    }
}

/// With a reset in the run, the final count is the algebraic sum of the
/// contributions that completed after the last reset: starting from 0,
/// every completed sequence of Exclusive operations lands on the sum of
/// its effects in completion order.
pub proof fn lemma_sum_since_last_reset(count: int, ops: Seq<CounterOp>, j: int)
    requires
        0 <= j < ops.len(),
        ops[j] is Reset,
        forall|i: int| j < i < ops.len() ==> !(#[trigger] ops[i] is Reset),
    ensures
        apply_ops(count, ops) == delta_sum(ops.skip(j + 1)),
    decreases j + 1,
{
    if j == 0 {
        assert(forall|i: int|
            0 <= i < ops.drop_first().len() ==> #[trigger] ops.drop_first()[i] == ops[i + 1]);
        lemma_exclusive_sum(0, ops.drop_first());
        assert(ops.skip(1) == ops.drop_first());
    } else {
        assert(forall|i: int|
            0 <= i < ops.drop_first().len() ==> #[trigger] ops.drop_first()[i] == ops[i + 1]);
        lemma_sum_since_last_reset(counter_step(count, ops[0]), ops.drop_first(), j - 1);
        assert(ops.drop_first().skip(j) =~= ops.skip(j + 1));
    }
}

/// The sum of the contributions of increments alone is their number.
proof fn lemma_delta_sum_increments(ops: Seq<CounterOp>)
    requires
        forall|i: int| 0 <= i < ops.len() ==> #[trigger] ops[i] is Increment,
    ensures
        delta_sum(ops) == ops.len(),
    decreases ops.len(),
{
    if ops.len() > 0 {
        assert(forall|i: int|
            0 <= i < ops.drop_first().len() ==> #[trigger] ops.drop_first()[i] == ops[i + 1]);
        lemma_delta_sum_increments(ops.drop_first());
    }
}

/// N callers each committing exactly one increment against the same key
/// leave a final count of exactly N, whatever order the runtime
/// serialized them in: no update is lost.
pub proof fn lemma_concurrent_increments(ops: Seq<CounterOp>)
    requires
        forall|i: int| 0 <= i < ops.len() ==> #[trigger] ops[i] is Increment,
    ensures
        apply_ops(0, ops) == ops.len(),
{
    assert(forall|i: int| 0 <= i < ops.len() ==> !(#[trigger] ops[i] is Reset));
    lemma_exclusive_sum(0, ops);
    lemma_delta_sum_increments(ops);
}

/// Positions that hold no match for a key can be skipped without
/// changing what the key resolves to.
proof fn lemma_lookup_skipped(e: Seq<(String, i64)>, i: int, j: int, k: Seq<char>)
    requires
        0 <= i <= j <= e.len(),
        forall|m: int| i <= m < j ==> e[m].0@ != k,
    ensures
        lookup_from(e, i, k) == lookup_from(e, j, k),
    decreases j - i,
{
    if i < j {
        lemma_lookup_skipped(e, i + 1, j, k);
    }
}

/// Appending an entry leaves every earlier match in place and only
/// resolves keys that were absent, to the appended entry's value.
proof fn lemma_lookup_push(e: Seq<(String, i64)>, p: (String, i64), i: int, k: Seq<char>)
    requires
        0 <= i <= e.len(),
    ensures
        lookup_from(e.push(p), i, k) == (match lookup_from(e, i, k) {
            Some(v) => Some(v),
            None => if p.0@ == k {
                Some(p.1)
            } else {
                None
            },
        }),
    decreases e.len() - i,
{
    if i == e.len() {
        assert(e.push(p)[i] == p);
        if p.0@ != k {
            assert(lookup_from(e.push(p), i + 1, k) is None);
        }
    } else {
        assert(e.push(p)[i] == e[i]);
        lemma_lookup_push(e, p, i + 1, k);
    }
}

/// Overwriting an entry in place does not change what any other key
/// resolves to, provided the overwritten entry keeps its key.
proof fn lemma_lookup_update_other(
    e: Seq<(String, i64)>,
    j: int,
    p: (String, i64),
    i: int,
    k: Seq<char>,
)
    requires
        0 <= j < e.len(),
        e[j].0@ == p.0@,
        p.0@ != k,
        0 <= i <= e.len(),
    ensures
        lookup_from(e.update(j, p), i, k) == lookup_from(e, i, k),
    decreases e.len() - i,
{
    if i < e.len() {
        lemma_lookup_update_other(e, j, p, i + 1, k);
    }
}

/// Overwriting the first matching entry makes its key resolve to the new
/// value.
proof fn lemma_lookup_update_first(
    e: Seq<(String, i64)>,
    j: int,
    p: (String, i64),
    i: int,
    k: Seq<char>,
)
    requires
        0 <= i <= j < e.len(),
        e[j].0@ == k,
        p.0@ == k,
        forall|m: int| i <= m < j ==> e[m].0@ != k,
    ensures
        lookup_from(e.update(j, p), i, k) == Some(p.1),
    decreases j - i,
{
    if i < j {
        lemma_lookup_update_first(e, j, p, i + 1, k);
    }
}

} // verus!
