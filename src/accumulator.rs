use vstd::prelude::*;
use crate::row::{ChannelRow, SubMessage, msg_to_vec, rows_at, rows_of};

verus! {

/// Number of buffered rows that triggers a flush, and the size of each
/// flushed batch.
pub const SIZE: usize = 1000;

/// The outcome of receiving `rows` while `buf` is buffered: the batch that is
/// written out (empty when no flush is due) and what stays buffered once that
/// batch has been committed.
pub open spec fn step(buf: Seq<ChannelRow>, rows: Seq<ChannelRow>) -> (Seq<ChannelRow>, Seq<ChannelRow>) {
    let grown = buf + rows;
    if grown.len() >= SIZE {
        (grown.take(SIZE as int), grown.skip(SIZE as int))
    } else {
        (Seq::empty(), grown)
    }
}

/// Receives the messages' rows in order, starting from `buf`, with every
/// flush committed: all rows written out, in write order, and what remains
/// buffered at the end.
pub open spec fn run(buf: Seq<ChannelRow>, msgs: Seq<Seq<ChannelRow>>) -> (Seq<ChannelRow>, Seq<ChannelRow>)
    decreases msgs.len(),
{
    if msgs.len() == 0 {
        (Seq::empty(), buf)
    } else {
        let prev = run(buf, msgs.drop_last());
        let next = step(prev.1, msgs.last());
        (prev.0 + next.0, next.1)
    }
}

/// All rows of the messages, message after message.
pub open spec fn concat(msgs: Seq<Seq<ChannelRow>>) -> Seq<ChannelRow>
    decreases msgs.len(),
{
    if msgs.len() == 0 {
        Seq::empty()
    } else {
        concat(msgs.drop_last()) + msgs.last()
    }
}

/// Rows are never lost, duplicated or reordered: what has been written out,
/// followed by what is still buffered, is exactly the initial buffer followed
/// by the rows of every received message in the order they were received.
pub proof fn lemma_order_preserved(buf: Seq<ChannelRow>, msgs: Seq<Seq<ChannelRow>>)
    ensures
        run(buf, msgs).0 + run(buf, msgs).1 == buf + concat(msgs),
    decreases msgs.len(),
{
    if msgs.len() > 0 {
        lemma_order_preserved(buf, msgs.drop_last());
        let prev = run(buf, msgs.drop_last());
        let grown = prev.1 + msgs.last();
        if grown.len() >= SIZE {
            assert(grown.take(SIZE as int) + grown.skip(SIZE as int) =~= grown);
        }
        assert(prev.0 + step(prev.1, msgs.last()).0 + step(prev.1, msgs.last()).1 =~= prev.0 + prev.1
            + msgs.last());
        assert(buf + concat(msgs.drop_last()) + msgs.last() =~= buf + concat(msgs));
        assert(run(buf, msgs).0 + run(buf, msgs).1 =~= prev.0 + step(prev.1, msgs.last()).0 + step(
            prev.1,
            msgs.last(),
        ).1);
    } else {
        assert(run(buf, msgs).0 + run(buf, msgs).1 =~= buf + concat(msgs));
    }
}

/// When the buffer reaches the threshold for the first time, exactly the
/// earliest `SIZE` rows are written out, and the rest stay buffered in order.
pub proof fn lemma_threshold(buf: Seq<ChannelRow>, rows: Seq<ChannelRow>)
    requires
        buf.len() < SIZE,
        buf.len() + rows.len() >= SIZE,
    ensures
        step(buf, rows).0 == (buf + rows).take(SIZE as int),
        step(buf, rows).0.len() == SIZE,
        step(buf, rows).1 == (buf + rows).skip(SIZE as int),
        step(buf, rows).1.len() == buf.len() + rows.len() - SIZE,
        step(buf, rows).0.take(buf.len() as int) == buf,
{
    assert((buf + rows).take(SIZE as int).take(buf.len() as int) =~= buf);
}

/// Below the threshold nothing is written out and the rows are simply added.
pub proof fn lemma_below_threshold(buf: Seq<ChannelRow>, rows: Seq<ChannelRow>)
    requires
        buf.len() + rows.len() < SIZE,
    ensures
        step(buf, rows).0.len() == 0,
        step(buf, rows).1 == buf + rows,
{
}

/// The first `SIZE` rows of `store`, in order.
pub fn flush_batch(store: &Vec<ChannelRow>) -> (r: Vec<ChannelRow>)
    requires
        store@.len() >= SIZE,
    ensures
        r@ == store@.take(SIZE as int),
{
    let mut out: Vec<ChannelRow> = Vec::new();
    let mut i: usize = 0;
    while i < SIZE
        invariant
            store@.len() >= SIZE,
            i <= SIZE,
            out@ == store@.take(i as int),
        decreases SIZE - i,
    {
        out.push(store[i]);
        i = i + 1;
        proof {
            assert(out@ =~= store@.take(i as int));
        }
    }
    out
}

/// The rows of `store` from position `start` on, in order.
fn rows_from(store: &Vec<ChannelRow>, start: usize) -> (r: Vec<ChannelRow>)
    requires
        start <= store@.len(),
    ensures
        r@ == store@.skip(start as int),
{
    let mut out: Vec<ChannelRow> = Vec::new();
    let mut i: usize = start;
    while i < store.len()
        invariant
            start <= i <= store@.len(),
            out@ == store@.subrange(start as int, i as int),
        decreases store@.len() - i,
    {
        out.push(store[i]);
        i = i + 1;
        proof {
            assert(out@ =~= store@.subrange(start as int, i as int));
        }
    }
    proof {
        assert(out@ =~= store@.skip(start as int));
    }
    out
}

/// The in-memory buffer of rows awaiting persistence, in arrival order.
pub struct Accumulator {
    store: Vec<ChannelRow>,
}

impl View for Accumulator {
    type V = Seq<ChannelRow>;

    closed spec fn view(&self) -> Seq<ChannelRow> {
        self.store@
    }
}

impl Accumulator {
    /// An empty buffer.
    pub fn new() -> (r: Accumulator)
        ensures
            r@ == Seq::<ChannelRow>::empty(),
    {
        Accumulator { store: Vec::new() }
    }

    /// Number of buffered rows.
    pub fn len(&self) -> (r: usize)
        ensures
            r == self@.len(),
    {
        self.store.len()
    }

    /// A copy of the buffered rows, in order.
    pub fn rows(&self) -> (r: Vec<ChannelRow>)
        ensures
            r@ == self@,
    {
        let r = rows_from(&self.store, 0);
        proof {
            assert(self.store@.skip(0) =~= self.store@);
        }
        r
    }

    /// Appends the rows of one message after those already buffered, then
    /// checks the flush policy once: when the buffer holds at least `SIZE`
    /// rows, returns the first `SIZE` of them, which stay buffered until
    /// `complete_flush` reports the write.
    pub fn append(&mut self, rows: Vec<ChannelRow>) -> (r: Option<Vec<ChannelRow>>)
        ensures
            final(self)@ == old(self)@ + rows@,
            r.is_some() == (final(self)@.len() >= SIZE),
            r.is_some() ==> r.unwrap()@ == final(self)@.take(SIZE as int),
            r.is_some() ==> r.unwrap()@ == step(old(self)@, rows@).0,
            r.is_some() ==> final(self)@.skip(SIZE as int) == step(old(self)@, rows@).1,
            r.is_none() ==> final(self)@ == step(old(self)@, rows@).1,
    {
        let mut i: usize = 0;
        while i < rows.len()
            invariant
                i <= rows@.len(),
                self@ == old(self)@ + rows@.take(i as int),
            decreases rows@.len() - i,
        {
            self.store.push(rows[i]);
            i = i + 1;
            proof {
                assert(self@ =~= old(self)@ + rows@.take(i as int));
            }
        }
        proof {
            assert(rows@.take(rows@.len() as int) =~= rows@);
        }
        if self.store.len() >= SIZE {
            Some(flush_batch(&self.store))
        } else {
            None
        }
    }

    /// Receives one message stamped with `time`: appends its rows, in list
    /// order, and checks the flush policy as `append` does.
    pub fn receive_at(&mut self, msg: &SubMessage, time: i64) -> (r: Option<Vec<ChannelRow>>)
        requires
            msg.subs@.len() <= msg.ids@.len(),
        ensures
            final(self)@ == old(self)@ + rows_of(msg.ids@, msg.subs@, time),
            r.is_some() == (final(self)@.len() >= SIZE),
            r.is_some() ==> r.unwrap()@ == final(self)@.take(SIZE as int),
    {
        let rows = rows_at(msg, time);
        self.append(rows)
    }

    /// Receives one message at the current wall-clock time: its rows share
    /// one timestamp and are appended in list order, then the flush policy is
    /// checked as `append` does.
    pub fn receive(&mut self, msg: SubMessage) -> (r: Option<Vec<ChannelRow>>)
        requires
            msg.subs@.len() <= msg.ids@.len(),
        ensures
            exists|t: i64| final(self)@ == old(self)@ + #[trigger] rows_of(msg.ids@, msg.subs@, t),
            r.is_some() == (final(self)@.len() >= SIZE),
            r.is_some() ==> r.unwrap()@ == final(self)@.take(SIZE as int),
    {
        let rows = msg_to_vec(msg);
        self.append(rows)
    }

    /// Reports the outcome of writing the batch that `append` returned.
    /// After a committed write the batch leaves the front of the buffer and
    /// the remaining rows keep their order; after a failed one the buffer is
    /// left as it was and `false` says that the worker must stop.
    pub fn complete_flush(&mut self, committed: bool) -> (cont: bool)
        requires
            old(self)@.len() >= SIZE,
        ensures
            cont == committed,
            committed ==> final(self)@ == old(self)@.skip(SIZE as int),
            !committed ==> final(self)@ == old(self)@,
    {
        if committed {
            self.store = rows_from(&self.store, SIZE);
            true
        } else {
            false
        }
    }
}

} // verus!
