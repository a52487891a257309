//! The fixed-capacity circular window that every windowed indicator owns.

use vstd::prelude::*;

verus! {

/// The window `w` of capacity `capacity` after `x` arrives: `x` is appended,
/// and once the window is full the oldest value leaves.
pub open spec fn slide(w: Seq<i64>, x: i64, capacity: nat) -> Seq<i64> {
    if w.len() < capacity {
        w.push(x)
    } else {
        w.drop_first().push(x)
    }
}

/// The last `capacity` values of `stream`, or all of it while it is shorter.
pub open spec fn latest(stream: Seq<i64>, capacity: nat) -> Seq<i64> {
    if stream.len() <= capacity {
        stream
    } else {
        stream.subrange(stream.len() - capacity, stream.len() as int)
    }
}

/// The window of capacity `capacity` after every value of `stream` has
/// arrived in order, starting from an empty window.
pub open spec fn replay(stream: Seq<i64>, capacity: nat) -> Seq<i64>
    decreases stream.len(),
{
    if stream.len() == 0 {
        Seq::<i64>::empty()
    } else {
        slide(replay(stream.drop_last(), capacity), stream.last(), capacity)
    }
}

/// One more arrival keeps the window equal to the latest values.
pub proof fn lemma_slide_keeps_latest(stream: Seq<i64>, x: i64, capacity: nat)
    requires
        capacity >= 1,
    ensures
        slide(latest(stream, capacity), x, capacity) == latest(stream.push(x), capacity),
{
    let before = latest(stream, capacity);
    let after = latest(stream.push(x), capacity);
    assert(slide(before, x, capacity) =~= after);
}

/// Whatever the stream, a window that started empty holds exactly its
/// latest `capacity` values, oldest first.
pub proof fn lemma_replay_is_latest(stream: Seq<i64>, capacity: nat)
    requires
        capacity >= 1,
    ensures
        replay(stream, capacity) == latest(stream, capacity),
    decreases stream.len(),
{
    if stream.len() > 0 {
        lemma_replay_is_latest(stream.drop_last(), capacity);
        lemma_slide_keeps_latest(stream.drop_last(), stream.last(), capacity);
        assert(stream.drop_last().push(stream.last()) =~= stream);
    }
}

/// A ring buffer of the last `N` values pushed into it.
///
/// Its view is the sequence of live values, oldest first. Slots that no
/// push has reached yet hold the placeholder given at construction.
#[derive(Debug, Clone)]
pub struct CircularWindow<const N: usize> {
    slots: [i64; N],
    cursor: usize,
    count: usize,
    fill: i64,
}

impl<const N: usize> View for CircularWindow<N> {
    type V = Seq<i64>;

    closed spec fn view(&self) -> Seq<i64> {
        self.slots@.subrange(self.cursor as int, self.count as int) + self.slots@.subrange(
            0,
            self.cursor as int,
        )
    }
}

impl<const N: usize> CircularWindow<N> {
    /// The cursor is in range, the fill counter saturates at `N`, the live
    /// slots during warm-up are the first `count`, and every other slot
    /// holds the placeholder.
    pub closed spec fn wf(&self) -> bool {
        &&& N >= 1
        &&& self.cursor < N
        &&& self.count <= N
        &&& self.count < N ==> self.cursor == self.count
        &&& forall|j: int| self.count <= j < N ==> self.slots@[j] == self.fill
    }

    /// The slots in buffer order.
    pub closed spec fn buffer(&self) -> Seq<i64> {
        self.slots@
    }

    /// The index of the slot that the next push overwrites.
    pub closed spec fn next_slot(&self) -> int {
        self.cursor as int
    }

    /// The value held by slots that no push has reached.
    pub closed spec fn placeholder(&self) -> i64 {
        self.fill
    }

    /// How the live values lie in the buffer: the oldest sits at the
    /// cursor once the window is full, at slot 0 before.
    pub proof fn lemma_layout(&self)
        requires
            self.wf(),
        ensures
            self.buffer().len() == N,
            0 <= self.next_slot() < N,
            self@.len() <= N,
            self@.len() < N ==> self.next_slot() == self@.len(),
            forall|j: int| self@.len() <= j < N ==> self.buffer()[j] == self.placeholder(),
            forall|i: int|
                0 <= i < self@.len() ==> #[trigger] self@[i] == self.buffer()[if self.next_slot()
                    + i < self@.len() {
                    self.next_slot() + i
                } else {
                    self.next_slot() + i - self@.len()
                }],
    {
    }

    /// An empty window whose slots all hold `fill`.
    pub fn new(fill: i64) -> (w: Self)
        requires
            N >= 1,
        ensures
            w.wf(),
            w@ == Seq::<i64>::empty(),
            w.placeholder() == fill,
            w.next_slot() == 0,
            forall|j: int| 0 <= j < N ==> w.buffer()[j] == fill,
    {
        let w = CircularWindow { slots: [fill;N], cursor: 0, count: 0, fill };
        assert(w@ =~= Seq::<i64>::empty());
        w
    }

    /// Writes `x` over the slot at the cursor and returns what that slot
    /// held: the oldest live value once the window is full, the
    /// placeholder before.
    pub fn push(&mut self, x: i64) -> (evicted: i64)
        requires
            old(self).wf(),
        ensures
            final(self).wf(),
            final(self)@ == slide(old(self)@, x, N as nat),
            final(self).placeholder() == old(self).placeholder(),
            evicted == if old(self)@.len() == N {
                old(self)@[0]
            } else {
                old(self).placeholder()
            },
            evicted == old(self).buffer()[old(self).next_slot()],
            final(self).buffer() == old(self).buffer().update(old(self).next_slot(), x),
            final(self).next_slot() == if old(self).next_slot() + 1 < N {
                old(self).next_slot() + 1
            } else {
                0
            },
    {
        let evicted: i64 = self.slots[self.cursor];
        self.slots[self.cursor] = x;
        self.cursor = if self.cursor + 1 < N {
            self.cursor + 1
        } else {
            0
        };
        if self.count < N {
            self.count = self.count + 1;
        }
        assert(self@ =~= slide(old(self)@, x, N as nat));
        evicted
    }

    /// The number of live values.
    pub fn len(&self) -> (n: usize)
        requires
            self.wf(),
        ensures
            n == self@.len(),
            n <= N,
    {
        self.count
    }

    /// Whether `N` values are live.
    pub fn is_full(&self) -> (full: bool)
        requires
            self.wf(),
        ensures
            full == (self@.len() == N),
    {
        self.count == N
    }

    /// The `i`-th live value, counted from the oldest.
    pub fn get(&self, i: usize) -> (x: i64)
        requires
            self.wf(),
            i < self@.len(),
        ensures
            x == self@[i as int],
    {
        let ahead: usize = self.count - self.cursor;
        if i < ahead {
            self.slots[self.cursor + i]
        } else {
            self.slots[i - ahead]
        }
    }

    /// The value in slot `j` of the buffer.
    pub fn slot(&self, j: usize) -> (x: i64)
        requires
            self.wf(),
            j < N,
        ensures
            x == self.buffer()[j as int],
    {
        self.slots[j]
    }

    /// The index of the slot that the next push overwrites.
    pub fn cursor(&self) -> (c: usize)
        requires
            self.wf(),
        ensures
            c == self.next_slot(),
            c < N,
    {
        self.cursor
    }

    /// Empties the window: every slot holds the placeholder again.
    pub fn reset(&mut self)
        requires
            old(self).wf(),
        ensures
            final(self).wf(),
            final(self)@ == Seq::<i64>::empty(),
            final(self).placeholder() == old(self).placeholder(),
            final(self).next_slot() == 0,
            forall|j: int| 0 <= j < N ==> final(self).buffer()[j] == old(self).placeholder(),
    {
        self.slots = [self.fill;N];
        self.cursor = 0;
        self.count = 0;
        assert(self@ =~= Seq::<i64>::empty());
    }
}

} // verus!
