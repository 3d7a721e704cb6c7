//! Frame buffer: accumulates the bytes of a response body and cuts them into
//! frames, either at blank lines or around whole JSON values.
use vstd::prelude::*;

verus! {

/// How a response body is cut into frames.
#[derive(Clone, Copy, PartialEq, Eq, Structural, Debug)]
pub enum Framing {
    /// Frames end at a blank line (`"\n\n"`).
    EventStream,
    /// Each frame is one JSON object or array, possibly preceded by whitespace.
    ObjectStream,
}

/// Whether `b` is JSON whitespace.
pub open spec fn is_ws(b: u8) -> bool {
    b == 0x20 || b == 0x09 || b == 0x0a || b == 0x0d
}

/// The first position at or after `i` where `"\n\n"` starts.
pub open spec fn delim_from(s: Seq<u8>, i: int) -> Option<int>
    decreases s.len() - i,
{
    if i < 0 || i + 1 >= s.len() {
        None
    } else if s[i] == 0x0a && s[i + 1] == 0x0a {
        Some(i)
    } else {
        delim_from(s, i + 1)
    }
}

/// The first position at or after `i` that is not whitespace.
pub open spec fn non_ws_from(s: Seq<u8>, i: int) -> Option<int>
    decreases s.len() - i,
{
    if i < 0 || i >= s.len() {
        None
    } else if !is_ws(s[i]) {
        Some(i)
    } else {
        non_ws_from(s, i + 1)
    }
}

/// Where a JSON scan stands: bracket depth, inside a string, after a backslash.
pub struct ScanState {
    pub depth: nat,
    pub in_string: bool,
    pub escaped: bool,
}

/// The scan state after one more byte.
pub open spec fn scan_step(st: ScanState, b: u8) -> ScanState {
    if st.in_string {
        if st.escaped {
            ScanState { escaped: false, ..st }
        } else if b == 0x5c {
            ScanState { escaped: true, ..st }
        } else if b == 0x22 {
            ScanState { in_string: false, ..st }
        } else {
            st
        }
    } else if b == 0x22 {
        ScanState { in_string: true, ..st }
    } else if b == 0x7b || b == 0x5b {
        ScanState { depth: st.depth + 1, ..st }
    } else if (b == 0x7d || b == 0x5d) && st.depth > 0 {
        ScanState { depth: (st.depth - 1) as nat, ..st }
    } else {
        st
    }
}

/// The end (exclusive) of the value whose scan is in state `st` before
/// position `i`: just after the first byte that brings the depth to zero.
pub open spec fn value_end_from(s: Seq<u8>, i: int, st: ScanState) -> Option<int>
    decreases s.len() - i,
{
    if i < 0 || i >= s.len() {
        None
    } else if scan_step(st, s[i]).depth == 0 {
        Some(i + 1)
    } else {
        value_end_from(s, i + 1, scan_step(st, s[i]))
    }
}

/// The scan state at the start of a value.
pub open spec fn scan_start() -> ScanState {
    ScanState { depth: 0, in_string: false, escaped: false }
}

/// The next complete frame of `s`: its start, its end (exclusive) and how many
/// bytes it uses up, delimiter included. For object streams a first byte that
/// opens no object or array is a frame of its own, which holds no response.
pub open spec fn next_split(f: Framing, s: Seq<u8>) -> Option<(int, int, int)> {
    match f {
        Framing::EventStream => match delim_from(s, 0) {
            Some(i) => Some((0, i, i + 2)),
            None => None,
        },
        Framing::ObjectStream => match non_ws_from(s, 0) {
            None => None,
            Some(i) => if s[i] != 0x7b && s[i] != 0x5b {
                Some((i, i + 1, i + 1))
            } else {
                match value_end_from(s, i, scan_start()) {
                    Some(e) => Some((i, e, e)),
                    None => None,
                }
            },
        },
    }
}

proof fn lemma_delim_from_bounds(s: Seq<u8>, i: int)
    ensures
        delim_from(s, i) matches Some(k) ==> i <= k && k + 1 < s.len() && s[k] == 0x0a && s[k + 1] == 0x0a,
    decreases s.len() - i,
{
    if !(i < 0 || i + 1 >= s.len()) && !(s[i] == 0x0a && s[i + 1] == 0x0a) {
        lemma_delim_from_bounds(s, i + 1);
    }
}

proof fn lemma_delim_from_extend(s: Seq<u8>, t: Seq<u8>, i: int)
    requires
        delim_from(s, i) is Some,
    ensures
        delim_from(s + t, i) == delim_from(s, i),
    decreases s.len() - i,
{
    if !(i < 0 || i + 1 >= s.len()) && !(s[i] == 0x0a && s[i + 1] == 0x0a) {
        lemma_delim_from_extend(s, t, i + 1);
    }
}

proof fn lemma_non_ws_from_bounds(s: Seq<u8>, i: int)
    ensures
        non_ws_from(s, i) matches Some(k) ==> i <= k < s.len() && !is_ws(s[k]),
    decreases s.len() - i,
{
    if 0 <= i < s.len() && is_ws(s[i]) {
        lemma_non_ws_from_bounds(s, i + 1);
    }
}

proof fn lemma_non_ws_from_extend(s: Seq<u8>, t: Seq<u8>, i: int)
    requires
        non_ws_from(s, i) is Some,
    ensures
        non_ws_from(s + t, i) == non_ws_from(s, i),
    decreases s.len() - i,
{
    if 0 <= i < s.len() && is_ws(s[i]) {
        lemma_non_ws_from_extend(s, t, i + 1);
    }
}

proof fn lemma_value_end_from_bounds(s: Seq<u8>, i: int, st: ScanState)
    ensures
        value_end_from(s, i, st) matches Some(e) ==> i < e <= s.len(),
    decreases s.len() - i,
{
    if 0 <= i < s.len() && scan_step(st, s[i]).depth != 0 {
        lemma_value_end_from_bounds(s, i + 1, scan_step(st, s[i]));
    }
}

proof fn lemma_value_end_from_extend(s: Seq<u8>, t: Seq<u8>, i: int, st: ScanState)
    requires
        value_end_from(s, i, st) is Some,
    ensures
        value_end_from(s + t, i, st) == value_end_from(s, i, st),
    decreases s.len() - i,
{
    if 0 <= i < s.len() && scan_step(st, s[i]).depth != 0 {
        lemma_value_end_from_extend(s, t, i + 1, scan_step(st, s[i]));
    }
}

/// The positions that `next_split` gives lie within the bytes, in order.
pub proof fn lemma_next_split_bounds(f: Framing, s: Seq<u8>)
    ensures
        next_split(f, s) matches Some((a, e, c)) ==> 0 <= a <= e <= c <= s.len() && a < c,
{
    lemma_delim_from_bounds(s, 0);
    lemma_non_ws_from_bounds(s, 0);
    if let Some(i) = non_ws_from(s, 0) {
        lemma_value_end_from_bounds(s, i, scan_start());
    }
}

/// A frame found in some bytes is found, the same, once more bytes follow.
pub proof fn lemma_next_split_extend(f: Framing, s: Seq<u8>, t: Seq<u8>)
    requires
        next_split(f, s) is Some,
    ensures
        next_split(f, s + t) == next_split(f, s),
{
    lemma_next_split_bounds(f, s);
    match f {
        Framing::EventStream => lemma_delim_from_extend(s, t, 0),
        Framing::ObjectStream => {
            lemma_non_ws_from_extend(s, t, 0);
            let i = non_ws_from(s, 0)->0;
            lemma_non_ws_from_bounds(s, 0);
            assert((s + t)[i] == s[i]);
            if s[i] == 0x7b || s[i] == 0x5b {
                lemma_value_end_from_extend(s, t, i, scan_start());
            }
        },
    }
}

fn find_delim(s: &Vec<u8>) -> (r: Option<usize>)
    ensures
        r is None <==> delim_from(s@, 0) is None,
        r matches Some(i) ==> i == delim_from(s@, 0)->0 && i + 1 < s@.len() <= usize::MAX,
{
    let mut i: usize = 0;
    while i < s.len() && i + 1 < s.len()
        invariant
            i <= s.len(),
            delim_from(s@, 0) == delim_from(s@, i as int),
        decreases s.len() - i,
    {
        if s[i] == 0x0a && s[i + 1] == 0x0a {
            return Some(i);
        }
        i = i + 1;
    }
    None
}

fn find_non_ws(s: &Vec<u8>) -> (r: Option<usize>)
    ensures
        r is None <==> non_ws_from(s@, 0) is None,
        r matches Some(i) ==> i == non_ws_from(s@, 0)->0 && i < s@.len() <= usize::MAX,
{
    let mut i: usize = 0;
    while i < s.len()
        invariant
            non_ws_from(s@, 0) == non_ws_from(s@, i as int),
        decreases s.len() - i,
    {
        let b = s[i];
        if !(b == 0x20 || b == 0x09 || b == 0x0a || b == 0x0d) {
            return Some(i);
        }
        i = i + 1;
    }
    None
}

fn find_value_end(s: &Vec<u8>, start: usize) -> (r: Option<usize>)
    requires
        start < s.len(),
    ensures
        r is None <==> value_end_from(s@, start as int, scan_start()) is None,
        r matches Some(e) ==> e == value_end_from(s@, start as int, scan_start())->0,
{
    let mut i: usize = start;
    let mut depth: usize = 0;
    let mut in_string = false;
    let mut escaped = false;
    while i < s.len()
        invariant
            start <= i <= s.len(),
            depth <= i - start,
            value_end_from(s@, start as int, scan_start()) == value_end_from(
                s@,
                i as int,
                ScanState { depth: depth as nat, in_string, escaped },
            ),
        decreases s.len() - i,
    {
        let b = s[i];
        if in_string {
            if escaped {
                escaped = false;
            } else if b == 0x5c {
                escaped = true;
            } else if b == 0x22 {
                in_string = false;
            }
        } else if b == 0x22 {
            in_string = true;
        } else if b == 0x7b || b == 0x5b {
            depth = depth + 1;
        } else if (b == 0x7d || b == 0x5d) && depth > 0 {
            depth = depth - 1;
        }
        if depth == 0 {
            return Some(i + 1);
        }
        i = i + 1;
    }
    None
}

/// The next complete frame of `s`, as `next_split` gives it.
pub fn find_split(f: Framing, s: &Vec<u8>) -> (r: Option<(usize, usize, usize)>)
    ensures
        match r {
            Some((a, e, c)) => next_split(f, s@) == Some((a as int, e as int, c as int)),
            None => next_split(f, s@) is None,
        },
{
    proof {
        lemma_delim_from_bounds(s@, 0);
        lemma_non_ws_from_bounds(s@, 0);
    }
    match f {
        Framing::EventStream => match find_delim(s) {
            Some(i) => Some((0, i, i + 2)),
            None => None,
        },
        Framing::ObjectStream => match find_non_ws(s) {
            None => None,
            Some(i) => {
                if s[i] != 0x7b && s[i] != 0x5b {
                    Some((i, i + 1, i + 1))
                } else {
                    proof {
                        lemma_value_end_from_bounds(s@, i as int, scan_start());
                    }
                    match find_value_end(s, i) {
                        Some(e) => Some((i, e, e)),
                        None => None,
                    }
                }
            },
        },
    }
}

/// Copies `s[a..b]`.
pub fn copy_range(s: &Vec<u8>, a: usize, b: usize) -> (r: Vec<u8>)
    requires
        a <= b <= s.len(),
    ensures
        r@ == s@.subrange(a as int, b as int),
{
    let mut r: Vec<u8> = Vec::new();
    let mut i: usize = a;
    while i < b
        invariant
            a <= i <= b <= s.len(),
            r@ == s@.subrange(a as int, i as int),
        decreases b - i,
    {
        r.push(s[i]);
        i = i + 1;
    }
    r
}

/// Bytes received but not yet cut into frames.
pub struct FrameBuffer {
    framing: Framing,
    buf: Vec<u8>,
}

impl FrameBuffer {
    /// How the buffer cuts frames.
    pub closed spec fn framing_spec(&self) -> Framing {
        self.framing
    }

    /// The bytes held.
    pub closed spec fn pending(&self) -> Seq<u8> {
        self.buf@
    }

    /// How the buffer cuts frames.
    pub fn framing(&self) -> (r: Framing)
        ensures
            r == self.framing_spec(),
    {
        self.framing
    }

    /// An empty buffer.
    pub fn new(framing: Framing) -> (r: FrameBuffer)
        ensures
            r.framing_spec() == framing,
            r.pending() == Seq::<u8>::empty(),
    {
        FrameBuffer { framing, buf: Vec::new() }
    }

    /// Adds the bytes of one read.
    pub fn append(&mut self, bytes: &[u8])
        ensures
            final(self).framing_spec() == old(self).framing_spec(),
            final(self).pending() == old(self).pending() + bytes@,
    {
        let mut i: usize = 0;
        let ghost before = self.buf@;
        while i < bytes.len()
            invariant
                i <= bytes@.len(),
                self.framing == old(self).framing,
                self.buf@ == before + bytes@.subrange(0, i as int),
            decreases bytes@.len() - i,
        {
            self.buf.push(bytes[i]);
            i = i + 1;
        }
        assert(bytes@.subrange(0, bytes@.len() as int) == bytes@);
    }

    /// Takes the next complete frame out of the buffer, with the bytes before
    /// it and its delimiter; `None`, with the buffer unchanged, where no frame
    /// is complete yet.
    pub fn next_frame(&mut self) -> (r: Option<Vec<u8>>)
        ensures
            final(self).framing_spec() == old(self).framing_spec(),
            match next_split(old(self).framing_spec(), old(self).pending()) {
                Some((a, e, c)) => r matches Some(fr) && fr@ == old(self).pending().subrange(a, e)
                    && final(self).pending() == old(self).pending().subrange(c, old(self).pending().len() as int),
                None => r is None && final(self).pending() == old(self).pending(),
            },
    {
        proof {
            lemma_next_split_bounds(self.framing, self.buf@);
        }
        match find_split(self.framing, &self.buf) {
            None => None,
            Some((a, e, c)) => {
                let frame = copy_range(&self.buf, a, e);
                let n = self.buf.len();
                let rest = copy_range(&self.buf, c, n);
                self.buf = rest;
                Some(frame)
            },
        }
    }

    /// Empties the buffer, handing back what it held.
    pub fn take_rest(&mut self) -> (r: Vec<u8>)
        ensures
            final(self).framing_spec() == old(self).framing_spec(),
            r@ == old(self).pending(),
            final(self).pending() == Seq::<u8>::empty(),
    {
        let mut out: Vec<u8> = Vec::new();
        std::mem::swap(&mut out, &mut self.buf);
        out
    }
}

} // verus!
