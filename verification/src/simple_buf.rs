use vstd::prelude::*;

verus! {

/// Why a [`SimpleBuf`] refused an operation.
#[derive(Debug, PartialEq, Eq, Structural)]
pub enum SimpleBufError {
    /// `push_slice` was given more bytes than the vacant area holds.
    VacantTooSmall { usable: usize, need: usize },
    /// `free` was asked to release bytes beyond the occupied area.
    FreeBeyondVacant { occupied: usize, requested: usize, vacant: usize },
}

/// A fixed-capacity byte buffer with an occupied window `[occupied_idx, vacant_idx)`.
///
/// Bytes are appended at `vacant_idx` and released from `occupied_idx`; `reuse`
/// moves the occupied window back to the front of the storage.
pub struct SimpleBuf {
    data_vec: Vec<u8>,
    capacity: usize,
    vacant_idx: usize,
    occupied_idx: usize,
}

impl SimpleBuf {
    /// The whole backing storage.
    pub closed spec fn data(&self) -> Seq<u8> {
        self.data_vec@
    }

    /// The fixed number of bytes the buffer can hold.
    pub closed spec fn capacity(&self) -> nat {
        self.capacity as nat
    }

    /// Start of the occupied window.
    pub closed spec fn occupied_idx(&self) -> nat {
        self.occupied_idx as nat
    }

    /// End of the occupied window, start of the vacant area.
    pub closed spec fn vacant_idx(&self) -> nat {
        self.vacant_idx as nat
    }

    /// Well-formedness: the storage has exactly `capacity` bytes and the window lies inside it.
    pub closed spec fn wf(&self) -> bool {
        &&& self.data_vec@.len() == self.capacity
        &&& self.occupied_idx <= self.vacant_idx
        &&& self.vacant_idx <= self.capacity
    }

    /// The bytes currently held, oldest first.
    pub open spec fn content(&self) -> Seq<u8> {
        self.data().subrange(self.occupied_idx() as int, self.vacant_idx() as int)
    }

    /// Facts that hold of every well-formed buffer.
    pub proof fn lemma_wf(&self)
        requires
            self.wf(),
        ensures
            self.data().len() == self.capacity(),
            self.occupied_idx() <= self.vacant_idx() <= self.capacity(),
            self.capacity() <= usize::MAX,
            self.content().len() == self.vacant_idx() - self.occupied_idx(),
    {
    }

    /// A buffer of `capacity` zero bytes with an empty window at the front.
    pub fn new(capacity: usize) -> (buf: Self)
        ensures
            buf.wf(),
            buf.capacity() == capacity,
            buf.occupied_idx() == 0,
            buf.vacant_idx() == 0,
            buf.data() == Seq::new(capacity as nat, |i: int| 0u8),
    {
        let data_vec = vec![0u8; capacity];
        assert(data_vec@ =~= Seq::new(capacity as nat, |i: int| 0u8));
        SimpleBuf { data_vec, capacity, vacant_idx: 0, occupied_idx: 0 }
    }

    /// True when the window holds no bytes.
    pub fn is_empty(&self) -> (r: bool)
        requires
            self.wf(),
        ensures
            r == (self.content().len() == 0),
    {
        self.len() == 0
    }

    /// Number of bytes in the window.
    pub fn len(&self) -> (r: usize)
        requires
            self.wf(),
        ensures
            r == self.vacant_idx() - self.occupied_idx(),
            r == self.content().len(),
    {
        self.vacant_idx - self.occupied_idx
    }

    /// Number of bytes that could be held in addition to the current window once it is moved to the front.
    pub fn max_len(&self) -> (r: usize)
        requires
            self.wf(),
        ensures
            r == self.capacity() - (self.vacant_idx() - self.occupied_idx()),
    {
        self.capacity - (self.vacant_idx - self.occupied_idx)
    }

    /// Appends `b` at the vacant index, or refuses when the vacant area is shorter than `b`.
    pub fn push_slice(&mut self, b: &[u8]) -> (r: Result<(), SimpleBufError>)
        requires
            old(self).wf(),
        ensures
            final(self).wf(),
            final(self).capacity() == old(self).capacity(),
            final(self).occupied_idx() == old(self).occupied_idx(),
            (b@.len() <= old(self).capacity() - old(self).vacant_idx()) <==> r is Ok,
            r is Ok ==> {
                &&& final(self).vacant_idx() == old(self).vacant_idx() + b@.len()
                &&& final(self).data() == old(self).data().subrange(0, old(self).vacant_idx() as int)
                    + b@ + old(self).data().subrange(
                    (old(self).vacant_idx() + b@.len()) as int,
                    old(self).capacity() as int,
                )
                &&& final(self).content() == old(self).content() + b@
                &&& fifo_step(*old(self), b@, 0, *final(self))
            },
            r matches Err(e) ==> {
                &&& *final(self) == *old(self)
                &&& e == SimpleBufError::VacantTooSmall {
                    usable: (old(self).capacity() - old(self).vacant_idx()) as usize,
                    need: b@.len() as usize,
                }
            },
    {
        let usable = self.vacant_slice().len();
        if usable < b.len() {
            return Err(SimpleBufError::VacantTooSmall { usable, need: b.len() });
        }
        let start = self.vacant_idx;
        let ghost old_data = self.data_vec@;
        let mut i: usize = 0;
        while i < b.len()
            invariant
                0 <= i <= b@.len(),
                start == self.vacant_idx,
                start + b@.len() <= self.capacity,
                self.data_vec@.len() == old_data.len(),
                self.wf(),
                self.capacity == old(self).capacity,
                self.vacant_idx == old(self).vacant_idx,
                self.occupied_idx == old(self).occupied_idx,
                old_data == old(self).data_vec@,
                forall|k: int|
                    0 <= k < self.data_vec@.len() ==> #[trigger] self.data_vec@[k] == if start <= k
                        < start + i {
                        b@[k - start]
                    } else {
                        old_data[k]
                    },
            decreases b@.len() - i,
        {
            self.data_vec.set(start + i, b[i]);
            i = i + 1;
        }
        self.vacant_idx = start + b.len();
        assert(self.data_vec@ =~= old_data.subrange(0, start as int) + b@ + old_data.subrange(
            start + b@.len(),
            self.capacity as int,
        ));
        assert(self.data_vec@.subrange(self.occupied_idx as int, self.vacant_idx as int)
            =~= old_data.subrange(self.occupied_idx as int, start as int) + b@);
        proof {
            lemma_append_step(*old(self), b@, *self);
        }
        Ok(())
    }

    /// The vacant area `[vacant_idx, capacity)`.
    pub fn vacant_slice(&self) -> (s: &[u8])
        requires
            self.wf(),
        ensures
            s@ == self.data().subrange(self.vacant_idx() as int, self.capacity() as int),
    {
        vstd::slice::slice_subrange(self.data_vec.as_slice(), self.vacant_idx, self.capacity)
    }

    /// The occupied window `[occupied_idx, vacant_idx)`.
    pub fn occupied_slice(&self) -> (s: &[u8])
        requires
            self.wf(),
        ensures
            s@ == self.content(),
    {
        vstd::slice::slice_subrange(self.data_vec.as_slice(), self.occupied_idx, self.vacant_idx)
    }

    /// Moves the occupied window to the front of the storage, keeping its bytes.
    pub fn reuse(&mut self)
        requires
            old(self).wf(),
        ensures
            final(self).wf(),
            final(self).capacity() == old(self).capacity(),
            final(self).occupied_idx() == 0,
            final(self).vacant_idx() == old(self).vacant_idx() - old(self).occupied_idx(),
            final(self).data() == old(self).content() + old(self).data().subrange(
                old(self).vacant_idx() - old(self).occupied_idx(),
                old(self).capacity() as int,
            ),
            final(self).content() == old(self).content(),
            fifo_step(*old(self), Seq::empty(), 0, *final(self)),
    {
        let occ = self.occupied_idx;
        let vac = self.vacant_idx;
        let n = vac - occ;
        let ghost old_data = self.data_vec@;
        let mut i: usize = 0;
        while i < n
            invariant
                0 <= i <= n,
                n == vac - occ,
                occ <= vac <= self.capacity,
                self.data_vec@.len() == old_data.len(),
                old_data.len() == self.capacity,
                self.capacity == old(self).capacity,
                occ == old(self).occupied_idx,
                vac == old(self).vacant_idx,
                self.occupied_idx == occ,
                self.vacant_idx == vac,
                old_data == old(self).data_vec@,
                forall|k: int|
                    0 <= k < self.data_vec@.len() ==> #[trigger] self.data_vec@[k] == if k < i {
                        old_data[occ + k]
                    } else {
                        old_data[k]
                    },
            decreases n - i,
        {
            let x = self.data_vec[occ + i];
            self.data_vec.set(i, x);
            i = i + 1;
        }
        self.occupied_idx = 0;
        self.vacant_idx = n;
        assert(self.data_vec@ =~= old_data.subrange(occ as int, vac as int) + old_data.subrange(
            n as int,
            self.capacity as int,
        ));
        assert(self.data_vec@.subrange(0, n as int) =~= old_data.subrange(occ as int, vac as int));
        proof {
            assert(old(self).content() + Seq::<u8>::empty() =~= old(self).content());
            lemma_append_step(*old(self), Seq::empty(), *self);
        }
    }

    /// Calls `reuse` when the vacant area is exhausted; says whether it did.
    pub fn reuse_if(&mut self) -> (r: bool)
        requires
            old(self).wf(),
        ensures
            final(self).wf(),
            final(self).capacity() == old(self).capacity(),
            r == (old(self).vacant_idx() == old(self).capacity()),
            final(self).content() == old(self).content(),
            r ==> {
                &&& final(self).occupied_idx() == 0
                &&& final(self).vacant_idx() == old(self).vacant_idx() - old(self).occupied_idx()
            },
            !r ==> *final(self) == *old(self),
            fifo_step(*old(self), Seq::empty(), 0, *final(self)),
    {
        if self.vacant_idx == self.capacity {
            self.reuse();
            return true;
        }
        proof {
            assert(self.content() =~= old(self).content() + Seq::<u8>::empty());
            lemma_append_step(*old(self), Seq::empty(), *self);
        }
        false
    }

    /// Releases the first `consumed` bytes of the window, or refuses when that passes the vacant index.
    pub fn free(&mut self, consumed: usize) -> (r: Result<(), SimpleBufError>)
        requires
            old(self).wf(),
            old(self).occupied_idx() + consumed <= usize::MAX,
        ensures
            final(self).wf(),
            final(self).capacity() == old(self).capacity(),
            final(self).data() == old(self).data(),
            final(self).vacant_idx() == old(self).vacant_idx(),
            (old(self).occupied_idx() + consumed <= old(self).vacant_idx()) <==> r is Ok,
            r is Ok ==> {
                &&& final(self).occupied_idx() == old(self).occupied_idx() + consumed
                &&& final(self).content() == old(self).content().subrange(
                    consumed as int,
                    old(self).content().len() as int,
                )
                &&& fifo_step(*old(self), Seq::empty(), consumed as nat, *final(self))
            },
            r matches Err(e) ==> {
                &&& *final(self) == *old(self)
                &&& e == SimpleBufError::FreeBeyondVacant {
                    occupied: old(self).occupied_idx() as usize,
                    requested: (old(self).occupied_idx() + consumed) as usize,
                    vacant: old(self).vacant_idx() as usize,
                }
            },
    {
        let new_occupied_idx = self.occupied_idx + consumed;
        if new_occupied_idx > self.vacant_idx {
            return Err(
                SimpleBufError::FreeBeyondVacant {
                    occupied: self.occupied_idx,
                    requested: new_occupied_idx,
                    vacant: self.vacant_idx,
                },
            );
        }
        self.occupied_idx = new_occupied_idx;
        assert(self.data_vec@.subrange(self.occupied_idx as int, self.vacant_idx as int)
            =~= old(self).content().subrange(consumed as int, old(self).content().len() as int));
        Ok(())
    }

    /// The buffer in text form: `SimpleBuf([0..<occupied>..<vacant>..<capacity>] = <len>)`,
    /// with the numbers in decimal.
    pub fn to_string(&self) -> (s: String)
        requires
            self.wf(),
        ensures
            s@ == "SimpleBuf([0.."@ + decimal(self.occupied_idx()) + ".."@ + decimal(
                self.vacant_idx(),
            ) + ".."@ + decimal(self.capacity()) + "] = "@ + decimal(self.content().len()) + ")"@,
    {
        let mut s = String::from_str("SimpleBuf([0..");
        append_decimal(&mut s, self.occupied_idx);
        s.append("..");
        append_decimal(&mut s, self.vacant_idx);
        s.append("..");
        append_decimal(&mut s, self.capacity);
        s.append("] = ");
        append_decimal(&mut s, self.vacant_idx - self.occupied_idx);
        s.append(")");
        s
    }

    /// Makes the room check that precedes appending `incoming` bytes: when the window is
    /// shorter than `incoming`, the window is moved to the front if the buffer could then
    /// hold `incoming` more bytes, and `false` is returned if it could not.
    pub fn make_room(&mut self, incoming: usize) -> (ok: bool)
        requires
            old(self).wf(),
        ensures
            final(self).wf(),
            final(self).capacity() == old(self).capacity(),
            final(self).content() == old(self).content(),
            ok == room_ok(*old(self), incoming as nat),
            ok ==> {
                &&& final(self).occupied_idx() == occupied_after_room(*old(self), incoming as nat)
                &&& final(self).vacant_idx() == vacant_after_room(*old(self), incoming as nat)
            },
            !(room_moves(*old(self), incoming as nat) && ok) ==> *final(self) == *old(self),
    {
        if self.len() < incoming {
            if self.max_len() < incoming {
                return false;
            } else {
                self.reuse();
            }
        }
        true
    }
}

/// Whether the room check of [`SimpleBuf::make_room`] passes for `incoming` bytes.
pub open spec fn room_ok(buf: SimpleBuf, incoming: nat) -> bool {
    !(buf.content().len() < incoming && buf.capacity() - buf.content().len() < incoming)
}

/// Whether the room check moves the window to the front.
pub open spec fn room_moves(buf: SimpleBuf, incoming: nat) -> bool {
    buf.content().len() < incoming
}

/// Start of the window after the room check.
pub open spec fn occupied_after_room(buf: SimpleBuf, incoming: nat) -> nat {
    if room_moves(buf, incoming) {
        0
    } else {
        buf.occupied_idx()
    }
}

/// End of the window after the room check.
pub open spec fn vacant_after_room(buf: SimpleBuf, incoming: nat) -> nat {
    if room_moves(buf, incoming) {
        buf.content().len()
    } else {
        buf.vacant_idx()
    }
}


/// The decimal digit `d`.
pub open spec fn digit(d: nat) -> char {
    if d == 0 {
        '0'
    } else if d == 1 {
        '1'
    } else if d == 2 {
        '2'
    } else if d == 3 {
        '3'
    } else if d == 4 {
        '4'
    } else if d == 5 {
        '5'
    } else if d == 6 {
        '6'
    } else if d == 7 {
        '7'
    } else if d == 8 {
        '8'
    } else {
        '9'
    }
}

/// `n` written in decimal, without leading zeros.
pub open spec fn decimal(n: nat) -> Seq<char>
    decreases n,
{
    if n < 10 {
        seq![digit(n)]
    } else {
        decimal(n / 10).push(digit(n % 10))
    }
}

fn digit_str(d: usize) -> (s: &'static str)
    requires
        d < 10,
    ensures
        s@ == seq![digit(d as nat)],
{
    if d == 0 {
        proof { reveal_strlit("0"); }
        "0"
    } else if d == 1 {
        proof { reveal_strlit("1"); }
        "1"
    } else if d == 2 {
        proof { reveal_strlit("2"); }
        "2"
    } else if d == 3 {
        proof { reveal_strlit("3"); }
        "3"
    } else if d == 4 {
        proof { reveal_strlit("4"); }
        "4"
    } else if d == 5 {
        proof { reveal_strlit("5"); }
        "5"
    } else if d == 6 {
        proof { reveal_strlit("6"); }
        "6"
    } else if d == 7 {
        proof { reveal_strlit("7"); }
        "7"
    } else if d == 8 {
        proof { reveal_strlit("8"); }
        "8"
    } else {
        proof { reveal_strlit("9"); }
        "9"
    }
}

fn append_decimal(out: &mut String, n: usize)
    ensures
        final(out)@ == old(out)@ + decimal(n as nat),
    decreases n,
{
    if n >= 10 {
        append_decimal(out, n / 10);
    }
    out.append(digit_str(n % 10));
    proof {
        if n >= 10 {
            assert(decimal(n as nat) == decimal((n / 10) as nat).push(digit((n % 10) as nat)));
        }
    }
    assert(out@ =~= old(out)@ + decimal(n as nat));
}

/// Several chunks of bytes, one after the other.
pub open spec fn concat_chunks(chunks: Seq<Seq<u8>>) -> Seq<u8>
    decreases chunks.len(),
{
    if chunks.len() == 0 {
        seq![]
    } else {
        concat_chunks(chunks.drop_last()) + chunks.last()
    }
}

/// The sum of a sequence of counts.
pub open spec fn total(counts: Seq<nat>) -> nat
    decreases counts.len(),
{
    if counts.len() == 0 {
        0
    } else {
        total(counts.drop_last()) + counts.last()
    }
}

/// Whether `after` holds what is left of `before` once `pushed` is appended and then the first
/// `freed` bytes are released. A successful `push_slice(b)` is a step with `pushed == b` and
/// `freed == 0`, a successful `free(n)` one with nothing pushed and `freed == n`, and `reuse`
/// and `reuse_if` ones with neither.
pub open spec fn fifo_step(before: SimpleBuf, pushed: Seq<u8>, freed: nat, after: SimpleBuf) -> bool {
    &&& freed <= before.content().len() + pushed.len()
    &&& after.content() == (before.content() + pushed).subrange(
        freed as int,
        (before.content().len() + pushed.len()) as int,
    )
}

proof fn lemma_append_step(before: SimpleBuf, pushed: Seq<u8>, after: SimpleBuf)
    requires
        after.content() == before.content() + pushed,
    ensures
        fifo_step(before, pushed, 0, after),
{
    assert((before.content() + pushed).subrange(0, (before.content().len() + pushed.len()) as int)
        =~= before.content() + pushed);
}

/// First in, first out: over any run of steps from an empty buffer, the buffer holds exactly
/// the bytes pushed, in the order pushed, less as many of the oldest as were released; no
/// byte is lost, repeated or reordered, whatever moves of the window happened in between.
pub proof fn law_fifo(bufs: Seq<SimpleBuf>, pushed: Seq<Seq<u8>>, freed: Seq<nat>)
    requires
        bufs.len() == pushed.len() + 1,
        freed.len() == pushed.len(),
        bufs[0].content().len() == 0,
        forall|i: int|
            0 <= i < pushed.len() ==> fifo_step(
                bufs[i],
                #[trigger] pushed[i],
                freed[i],
                bufs[i + 1],
            ),
    ensures
        total(freed) <= concat_chunks(pushed).len(),
        bufs.last().content() == concat_chunks(pushed).subrange(
            total(freed) as int,
            concat_chunks(pushed).len() as int,
        ),
    decreases pushed.len(),
{
    if pushed.len() == 0 {
        assert(bufs.last().content() =~= concat_chunks(pushed).subrange(0, 0));
    } else {
        let k = pushed.len() - 1;
        let bs = bufs.take(k + 1);
        let ps = pushed.take(k);
        let fs = freed.take(k);
        assert forall|i: int| 0 <= i < ps.len() implies fifo_step(
            bs[i],
            #[trigger] ps[i],
            fs[i],
            bs[i + 1],
        ) by {
            assert(ps[i] == pushed[i]);
            assert(bs[i] == bufs[i]);
            assert(bs[i + 1] == bufs[i + 1]);
            assert(fs[i] == freed[i]);
        }
        law_fifo(bs, ps, fs);
        assert(pushed.drop_last() =~= ps);
        assert(freed.drop_last() =~= fs);
        assert(bs.last() == bufs[k]);
        assert(fifo_step(bufs[k], pushed[k], freed[k], bufs[k + 1]));
        let p = concat_chunks(ps);
        let f = total(fs);
        let b = pushed[k];
        let c = bufs[k].content();
        assert(c == p.subrange(f as int, p.len() as int));
        assert(concat_chunks(pushed) == p + b);
        assert(total(freed) == f + freed[k]);
        assert((c + b).subrange(freed[k] as int, (c.len() + b.len()) as int) =~= (p + b).subrange(
            (f + freed[k]) as int,
            (p.len() + b.len()) as int,
        ));
    }
}

/// The window length and `max_len` always add up to the capacity.
pub proof fn law_len_plus_max_len(buf: SimpleBuf)
    requires
        buf.wf(),
    ensures
        buf.content().len() + (buf.capacity() - (buf.vacant_idx() - buf.occupied_idx()))
            == buf.capacity(),
{
}

} // verus!
