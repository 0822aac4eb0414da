//! A fixed-capacity single-producer/single-consumer queue.
//!
//! A shared pair of indices with modulo arithmetic stands in for a count
//! field: the buffer holds at most `N - 1` values, and a push that lands the
//! write index on the read index reports overflow instead of losing data
//! silently — the caller must surface the `false` return as data loss.

use vstd::prelude::*;

verus! {

/// Whether a push into a buffer holding `contents` out of capacity `cap`
/// succeeds: there is room while fewer than `cap - 1` values are queued.
pub open spec fn push_fits<Data>(contents: Seq<Data>, cap: int) -> bool {
    contents.len() < cap - 1
}

/// The queue contents after pushing `data` into a buffer holding `contents`
/// out of capacity `cap`: the value is appended while there is room; the
/// push that fills the last free slot makes the write index meet the read
/// index, after which every queued value is unreadable.
pub open spec fn push_contents<Data>(contents: Seq<Data>, data: Data, cap: int) -> Seq<Data> {
    if push_fits(contents, cap) {
        contents.push(data)
    } else {
        Seq::empty()
    }
}

/// The queue contents after pushing each value of `values`, in order, into
/// a capacity-`cap` buffer that started empty.
pub open spec fn pushed_contents<Data>(values: Seq<Data>, cap: int) -> Seq<Data>
    decreases values.len(),
{
    if values.len() == 0 {
        Seq::empty()
    } else {
        push_contents(pushed_contents(values.drop_last(), cap), values.last(), cap)
    }
}

/// While at most `cap - 1` values have been pushed into a buffer that
/// started empty, every one of them is still queued, in order.
proof fn lemma_pushes_fill<Data>(values: Seq<Data>, cap: int, k: int)
    requires
        0 <= k <= values.len(),
        k <= cap - 1,
    ensures
        pushed_contents(values.take(k), cap) == values.take(k),
    decreases k,
{
    if k > 0 {
        lemma_pushes_fill(values, cap, k - 1);
        assert(values.take(k).drop_last() =~= values.take(k - 1));
        assert(values.take(k).last() == values[k - 1]);
        assert(pushed_contents(values.take(k), cap) =~= values.take(k));
    } else {
        assert(values.take(0) =~= Seq::<Data>::empty());
    }
}

/// Pushing `cap` values into an empty capacity-`cap` buffer finds room for
/// the first `cap - 1` of them; the final push reports overflow, and a pop
/// that follows it finds nothing queued — in particular not the value the
/// overflowing push displaced.
pub proof fn lemma_overflow_policy<Data>(values: Seq<Data>, cap: int)
    requires
        values.len() == cap,
        cap >= 1,
    ensures
        forall|k: int|
            0 <= k < cap - 1 ==> push_fits(#[trigger] pushed_contents(values.take(k), cap), cap),
        !push_fits(pushed_contents(values.take(cap - 1), cap), cap),
        pushed_contents(values, cap) == Seq::<Data>::empty(),
{
    assert forall|k: int|
        0 <= k < cap - 1 implies push_fits(#[trigger] pushed_contents(values.take(k), cap), cap) by {
        lemma_pushes_fill(values, cap, k);
    }
    lemma_pushes_fill(values, cap, cap - 1);
    assert(values.drop_last() =~= values.take(cap - 1));
    assert(pushed_contents(values, cap) =~= Seq::<Data>::empty());
}

/// A fixed-capacity FIFO queue of `N - 1` slots over a circular array.
pub struct MinCircularBuffer<Data, const N: usize> where Data: Copy {
    data: [Data; N],
    start_index: usize,
    end_index: usize,
}

impl<Data, const N: usize> View for MinCircularBuffer<Data, N> where Data: Copy {
    type V = Seq<Data>;

    /// The queued values in FIFO order, oldest first.
    closed spec fn view(&self) -> Seq<Data> {
        if self.end_index >= self.start_index {
            self.data@.subrange(self.start_index as int, self.end_index as int)
        } else {
            self.data@.subrange(self.start_index as int, N as int)
                + self.data@.subrange(0, self.end_index as int)
        }
    }
}

impl<Data, const N: usize> MinCircularBuffer<Data, N> where Data: Copy {
    /// Both indices stay inside the array.
    pub closed spec fn wf(&self) -> bool {
        &&& N >= 1
        &&& self.start_index < N
        &&& self.end_index < N
    }

    /// At least one slot is always free: the indices meet only when the
    /// buffer reads as empty.
    pub proof fn lemma_len_bound(&self)
        requires
            self.wf(),
        ensures
            self@.len() < N,
    {
    }

    /// An empty buffer; `default_value` fills the backing array.
    pub fn new(default_value: Data) -> (buf: Self)
        requires
            N >= 1,
        ensures
            buf.wf(),
            buf@ == Seq::<Data>::empty(),
    {
        let buf = Self { data: [default_value; N], start_index: 0, end_index: 0 };
        proof {
            assert(buf@ =~= Seq::<Data>::empty());
        }
        buf
    }

    /// Write `data` at the write index and advance it; `false` means the
    /// write index caught up with the read index (overflow), after which
    /// the buffer reads as empty until new values arrive.
    pub fn push(&mut self, data: Data) -> (ok: bool)
        requires
            old(self).wf(),
        ensures
            final(self).wf(),
            ok == push_fits(old(self)@, N as int),
            final(self)@ == push_contents(old(self)@, data, N as int),
    {
        proof {
            self.lemma_len_bound();
        }
        self.data[self.end_index] = data;
        self.end_index += 1;
        if self.end_index == N {
            self.end_index = 0;
        }
        proof {
            if self.end_index != self.start_index {
                assert(self@ =~= old(self)@.push(data));
            } else {
                assert(self@ =~= Seq::<Data>::empty());
            }
        }
        self.end_index != self.start_index
    }

    /// Read the oldest queued value and advance the read index; `None`
    /// means the indices meet and nothing is queued.
    pub fn pop(&mut self) -> (r: Option<Data>)
        requires
            old(self).wf(),
        ensures
            final(self).wf(),
            old(self)@.len() == 0 ==> r is None && final(self)@ == old(self)@,
            old(self)@.len() > 0 ==> r == Some(old(self)@[0])
                && final(self)@ == old(self)@.drop_first(),
    {
        if self.start_index == self.end_index {
            None
        } else {
            let res = Some(self.data[self.start_index]);
            self.start_index += 1;
            if self.start_index == N {
                self.start_index = 0;
            }
            proof {
                assert(self@ =~= old(self)@.drop_first());
            }
            res
        }
    }
}

} // verus!
