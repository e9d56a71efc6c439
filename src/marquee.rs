//! Scrolling text: the ring-buffer status ticker and the back-and-forth
//! scroll of the highlighted title.

use vstd::prelude::*;
use vstd::string::*;

verus! {

/// How far the highlighted title scrolls before it turns back.
pub const TITLE_SCROLL_LIMIT: usize = 20;

/// `width` characters of `buf` read cyclically from `offset`; empty when
/// `buf` is.
pub open spec fn ring_read(buf: Seq<char>, offset: nat, width: nat) -> Seq<char> {
    if buf.len() == 0 {
        Seq::empty()
    } else {
        Seq::new(width, |k: int| buf[(offset + k) % (buf.len() as int)])
    }
}

/// The offset after one step on a ring of `len` characters.
pub open spec fn advanced(offset: nat, len: nat) -> nat {
    if len == 0 { 0 } else { (offset + 1) % len }
}

/// The offset after `n` steps.
pub open spec fn advanced_times(offset: nat, len: nat, n: nat) -> nat
    decreases n,
{
    if n == 0 { offset } else { advanced(advanced_times(offset, len, (n - 1) as nat), len) }
}

/// A banner shown as a ring: each step moves the visible window one
/// character on, wrapping at the end.
pub struct MarqueeCache {
    chars: Vec<char>,
    offset: usize,
}

impl MarqueeCache {
    pub closed spec fn buffer(&self) -> Seq<char> {
        self.chars@
    }

    pub closed spec fn offset(&self) -> nat {
        self.offset as nat
    }

    /// The offset stays inside a non-empty buffer and is 0 otherwise.
    pub open spec fn wf(&self) -> bool {
        if self.buffer().len() == 0 { self.offset() == 0 } else { self.offset() < self.buffer().len() }
    }

    pub fn new(text: &str) -> (r: Self)
        ensures
            r.wf(),
            r.buffer() == text@,
            r.offset() == 0,
    {
        let n = text.unicode_len();
        let mut chars: Vec<char> = Vec::new();
        let mut i: usize = 0;
        while i < n
            invariant
                n == text@.len(),
                i <= n,
                chars@ == text@.take(i as int),
            decreases n - i,
        {
            chars.push(text.get_char(i));
            i = i + 1;
            assert(chars@ =~= text@.take(i as int));
        }
        assert(chars@ =~= text@);
        MarqueeCache { chars, offset: 0 }
    }

    /// Moves the window one character on; does nothing on an empty banner.
    pub fn advance(&mut self)
        requires
            old(self).wf(),
        ensures
            final(self).wf(),
            final(self).buffer() == old(self).buffer(),
            final(self).offset() == advanced(old(self).offset(), old(self).buffer().len()),
    {
        if self.chars.len() > 0 {
            self.offset = (self.offset + 1) % self.chars.len();
        }
    }

    /// The visible window: `width` characters from the offset, cyclically.
    pub fn render(&self, width: usize) -> (r: String)
        requires
            self.wf(),
        ensures
            r@ == ring_read(self.buffer(), self.offset(), width as nat),
    {
        let mut s = String::new();
        let len = self.chars.len();
        if len == 0 {
            return s;
        }
        let mut pos = self.offset;
        let mut k: usize = 0;
        proof {
            vstd::arithmetic::div_mod::lemma_small_mod(self.offset as nat, len as nat);
        }
        while k < width
            invariant
                len == self.chars@.len(),
                len > 0,
                k <= width,
                pos < len,
                pos == (self.offset + k) % (len as int),
                s@ == ring_read(self.buffer(), self.offset(), width as nat).take(k as int),
            decreases width - k,
        {
            s.push(self.chars[pos]);
            proof {
                lemma_mod_step(self.offset + k, len as int);
            }
            pos = if pos + 1 == len { 0 } else { pos + 1 };
            k = k + 1;
            assert(s@ =~= ring_read(self.buffer(), self.offset(), width as nat).take(k as int));
        }
        assert(s@ =~= ring_read(self.buffer(), self.offset(), width as nat));
        s
    }
}

proof fn lemma_mod_step(a: int, m: int)
    requires
        a >= 0,
        m > 0,
    ensures
        (a + 1) % m == if a % m + 1 == m { 0 } else { a % m + 1 },
{
    vstd::arithmetic::div_mod::lemma_add_mod_noop(a, 1, m);
    if m == 1 {
        vstd::arithmetic::div_mod::lemma_mod_self_0(1);
        assert((a + 1) % m == 0);
    } else {
        vstd::arithmetic::div_mod::lemma_small_mod(1, m as nat);
        if a % m + 1 < m {
            vstd::arithmetic::div_mod::lemma_small_mod((a % m + 1) as nat, m as nat);
        } else {
            vstd::arithmetic::div_mod::lemma_mod_self_0(m);
        }
    }
}

/// Stepping a ring `len` times brings every offset back to itself.
pub proof fn lemma_advance_full_period(offset: nat, len: nat)
    requires
        len > 0,
        offset < len,
    ensures
        advanced_times(offset, len, len) == offset,
{
    assert forall|n: nat| n <= len implies #[trigger] advanced_times(offset, len, n) == ((offset + n) as int) % (len as int) by {
        lemma_advanced_times_mod(offset, len, n);
    }
    vstd::arithmetic::div_mod::lemma_mod_add_multiples_vanish(offset as int, len as int);
    vstd::arithmetic::div_mod::lemma_small_mod(offset, len);
}

proof fn lemma_advanced_times_mod(offset: nat, len: nat, n: nat)
    requires
        len > 0,
        offset < len,
    ensures
        advanced_times(offset, len, n) == ((offset + n) as int) % (len as int),
    decreases n,
{
    if n == 0 {
        vstd::arithmetic::div_mod::lemma_small_mod(offset, len);
    } else {
        lemma_advanced_times_mod(offset, len, (n - 1) as nat);
        vstd::arithmetic::div_mod::lemma_add_mod_noop(offset + n - 1, 1, len as int);
        vstd::arithmetic::div_mod::lemma_mod_twice(offset + n - 1, len as int);
        vstd::arithmetic::div_mod::lemma_add_mod_noop((offset + n - 1) % (len as int), 1, len as int);
    }
}

/// A ring read of a non-empty buffer is `width` characters long, which is
/// `min(width, period)` whenever the window is no wider than the buffer;
/// the read of an empty buffer is empty.
pub proof fn lemma_ring_read_len(buf: Seq<char>, offset: nat, width: nat)
    ensures
        buf.len() == 0 ==> ring_read(buf, offset, width).len() == 0,
        buf.len() > 0 ==> ring_read(buf, offset, width).len() == width,
        0 < buf.len() && width <= buf.len() ==> ring_read(buf, offset, width).len() == vstd::math::min(
            width as int,
            buf.len() as int,
        ),
{
}

/// One step of the highlighted-title scroll: forward until the limit, then
/// back to the start, then forward again.
pub open spec fn title_scroll_step(offset: nat, forward: bool) -> (nat, bool) {
    if forward {
        if offset + 1 >= TITLE_SCROLL_LIMIT { ((offset + 1) as nat, false) } else { ((offset + 1) as nat, true) }
    } else {
        if offset > 0 { ((offset - 1) as nat, false) } else { (0, true) }
    }
}

/// The title-scroll step on machine integers; the offset never passes the
/// limit.
pub fn next_title_scroll(offset: usize, forward: bool) -> (r: (usize, bool))
    requires
        offset <= TITLE_SCROLL_LIMIT,
        forward ==> offset < TITLE_SCROLL_LIMIT,
    ensures
        (r.0 as nat, r.1) == title_scroll_step(offset as nat, forward),
        r.0 <= TITLE_SCROLL_LIMIT,
        r.1 ==> r.0 < TITLE_SCROLL_LIMIT,
{
    if forward {
        let next = offset + 1;
        (next, next < TITLE_SCROLL_LIMIT)
    } else if offset > 0 {
        (offset - 1, false)
    } else {
        (0, true)
    }
}

} // verus!
