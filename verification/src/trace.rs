//! The instruction trace: the last instructions that ran, oldest first,
//! kept in a first-in first-out queue.

use vstd::prelude::*;
use queues::IsQueue;
use queues::Queue;

verus! {

/// One traced instruction: the address it was fetched from, its opcode,
/// the two bytes after the opcode, and the cycles that the frame had used
/// before it ran.
#[derive(Clone, Copy, Debug, PartialEq, Eq, Structural)]
pub struct TraceEntry {
    pub pc: u16,
    pub opcode: u8,
    pub lo: u8,
    pub hi: u8,
    pub frame_cycles: u16,
}

/// The most entries that a trace keeps.
pub const TRACE_LIMIT: usize = 1000;

/// `queues::Queue`, a first-in first-out queue without a capacity. Nothing
/// is known of a queue but what `queue_items` names.
#[verifier::external_type_specification]
#[verifier::external_body]
#[verifier::reject_recursive_types(T)]
pub struct ExQueue<T: Clone>(queues::Queue<T>);

/// The items that a `queues::Queue` holds, the oldest first.
pub uninterp spec fn queue_items(q: Queue<u64>) -> Seq<u64>;

/// `Queue::new`: a queue without items.
#[verifier::external_body]
fn queue_new() -> (q: Queue<u64>)
    ensures
        queue_items(q) == Seq::<u64>::empty(),
{
    Queue::new()
}

/// `Queue::add`: the item is appended behind the others. The call cannot
/// fail on this kind of queue, which has no capacity.
#[verifier::external_body]
fn queue_add(q: &mut Queue<u64>, item: u64)
    ensures
        queue_items(*final(q)) == queue_items(*old(q)).push(item),
{
    let _ = q.add(item);
}

/// `Queue::remove`: the oldest item leaves the queue and is returned; an
/// empty queue stays empty and gives nothing.
#[verifier::external_body]
fn queue_remove(q: &mut Queue<u64>) -> (item: Option<u64>)
    ensures
        queue_items(*old(q)).len() == 0 ==> item.is_none() && queue_items(*final(q)) == queue_items(
            *old(q),
        ),
        queue_items(*old(q)).len() > 0 ==> item == Some(queue_items(*old(q))[0]) && queue_items(
            *final(q),
        ) == queue_items(*old(q)).drop_first(),
{
    match q.remove() {
        Ok(item) => Some(item),
        Err(_) => None,
    }
}

/// `Queue::size`: the number of items.
#[verifier::external_body]
fn queue_size(q: &Queue<u64>) -> (n: usize)
    ensures
        n == queue_items(*q).len(),
{
    q.size()
}

/// The queue item that stands for an entry: its fields side by side, 16
/// bits for each word and 8 for each byte.
pub open spec fn item_of(entry: TraceEntry) -> u64 {
    (entry.pc * 0x100_0000_0000 + entry.opcode * 0x1_0000_0000 + entry.lo * 0x100_0000 + entry.hi
        * 0x1_0000 + entry.frame_cycles) as u64
}

/// The entry that a queue item stands for.
pub open spec fn entry_of(item: u64) -> TraceEntry {
    TraceEntry {
        pc: (item / 0x100_0000_0000 % 0x1_0000) as u16,
        opcode: (item / 0x1_0000_0000 % 0x100) as u8,
        lo: (item / 0x100_0000 % 0x100) as u8,
        hi: (item / 0x1_0000 % 0x100) as u8,
        frame_cycles: (item % 0x1_0000) as u16,
    }
}

proof fn lemma_fields_side_by_side(pc: u16, opcode: u8, lo: u8, hi: u8, cycles: u16, item: u64)
    by (bit_vector)
    requires
        item == (pc as u64) * 0x100_0000_0000u64 + (opcode as u64) * 0x1_0000_0000u64 + (lo as u64)
            * 0x100_0000u64 + (hi as u64) * 0x1_0000u64 + (cycles as u64),
    ensures
        item / 0x100_0000_0000u64 % 0x1_0000u64 == pc as u64,
        item / 0x1_0000_0000u64 % 0x100u64 == opcode as u64,
        item / 0x100_0000u64 % 0x100u64 == lo as u64,
        item / 0x1_0000u64 % 0x100u64 == hi as u64,
        item % 0x1_0000u64 == cycles as u64,
{
}

/// An entry is read back from the item that stands for it.
pub proof fn lemma_item_round_trip(entry: TraceEntry)
    ensures
        entry_of(item_of(entry)) == entry,
{
    lemma_fields_side_by_side(
        entry.pc,
        entry.opcode,
        entry.lo,
        entry.hi,
        entry.frame_cycles,
        item_of(entry),
    );
}

/// Packs an entry into a queue item.
fn pack_entry(entry: TraceEntry) -> (item: u64)
    ensures
        item == item_of(entry),
{
    entry.pc as u64 * 0x100_0000_0000 + entry.opcode as u64 * 0x1_0000_0000 + entry.lo as u64
        * 0x100_0000 + entry.hi as u64 * 0x1_0000 + entry.frame_cycles as u64
}

/// Unpacks a queue item into an entry.
fn unpack_entry(item: u64) -> (entry: TraceEntry)
    ensures
        entry == entry_of(item),
{
    TraceEntry {
        pc: (item / 0x100_0000_0000 % 0x1_0000) as u16,
        opcode: (item / 0x1_0000_0000 % 0x100) as u8,
        lo: (item / 0x100_0000 % 0x100) as u8,
        hi: (item / 0x1_0000 % 0x100) as u8,
        frame_cycles: (item % 0x1_0000) as u16,
    }
}

/// The last `TRACE_LIMIT` entries of `entries`, or all of them if there
/// are fewer.
pub open spec fn keep_last(entries: Seq<TraceEntry>) -> Seq<TraceEntry> {
    if entries.len() > TRACE_LIMIT {
        entries.subrange(entries.len() - TRACE_LIMIT, entries.len() as int)
    } else {
        entries
    }
}

/// The last instructions that ran, at most `TRACE_LIMIT` of them.
pub struct Trace {
    queue: Queue<u64>,
}

impl View for Trace {
    type V = Seq<TraceEntry>;

    closed spec fn view(&self) -> Seq<TraceEntry> {
        queue_items(self.queue).map_values(|item: u64| entry_of(item))
    }
}

impl Trace {
    /// The trace holds no more than `TRACE_LIMIT` entries.
    pub open spec fn wf(&self) -> bool {
        self@.len() <= TRACE_LIMIT
    }

    /// An empty trace.
    pub fn new() -> (trace: Trace)
        ensures
            trace.wf(),
            trace@ == Seq::<TraceEntry>::empty(),
    {
        let trace = Trace { queue: queue_new() };
        assert(trace@ =~= Seq::<TraceEntry>::empty());
        trace
    }

    /// The number of entries.
    pub fn len(&self) -> (n: usize)
        ensures
            n == self@.len(),
    {
        queue_size(&self.queue)
    }

    /// Appends an entry; if the trace then holds more than `TRACE_LIMIT`,
    /// the oldest entry leaves.
    pub fn record(&mut self, entry: TraceEntry)
        requires
            old(self).wf(),
        ensures
            final(self).wf(),
            final(self)@ == keep_last(old(self)@.push(entry)),
    {
        proof {
            lemma_item_round_trip(entry);
        }
        queue_add(&mut self.queue, pack_entry(entry));
        assert(self@ =~= old(self)@.push(entry));
        if queue_size(&self.queue) > TRACE_LIMIT {
            let _ = queue_remove(&mut self.queue);
            assert(self@ =~= keep_last(old(self)@.push(entry)));
        }
    }

    /// Takes every entry out of the trace, the oldest first.
    pub fn take_all(&mut self) -> (entries: Vec<TraceEntry>)
        ensures
            entries@ == old(self)@,
            final(self)@ == Seq::<TraceEntry>::empty(),
            final(self).wf(),
    {
        let mut entries: Vec<TraceEntry> = Vec::new();
        let mut remaining: usize = queue_size(&self.queue);
        while remaining > 0
            invariant
                remaining == self@.len(),
                entries@ + self@ == old(self)@,
            decreases remaining,
        {
            let ghost before = self@;
            match queue_remove(&mut self.queue) {
                Some(item) => {
                    entries.push(unpack_entry(item));
                    assert(self@ =~= before.drop_first());
                    assert(entries@ + self@ =~= old(self)@);
                },
                None => {},
            }
            remaining = remaining - 1;
        }
        assert(entries@ =~= old(self)@);
        assert(self@ =~= Seq::<TraceEntry>::empty());
        entries
    }
}

} // verus!
