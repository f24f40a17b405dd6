use vstd::prelude::*;

verus! {

/// Which output stream of the supervised process a chunk came from.
#[derive(Debug, Clone, Copy, PartialEq, Eq, Structural)]
pub enum StreamTag {
    Stdout,
    Stderr,
}

/// One chunk of output, numbered within its own stream.
#[derive(Debug, Clone)]
pub struct OutputEvent {
    pub stream: StreamTag,
    pub seq: u64,
    pub payload: Vec<u8>,
}

pub open spec fn is_continuation(b: u8) -> bool {
    0x80 <= b && b < 0xC0
}

/// How many bytes the UTF-8 sequence led by `b` occupies (1 for bytes that
/// cannot lead a longer sequence).
pub open spec fn sequence_width(b: u8) -> nat {
    if b < 0xC0 {
        1
    } else if b < 0xE0 {
        2
    } else if b < 0xF0 {
        3
    } else if b < 0xF8 {
        4
    } else {
        1
    }
}

/// Looking back `j` bytes from the end of `s` (and further over continuation
/// bytes, at most three in all), the length of a character that has begun
/// but not yet ended; 0 if there is none.
pub open spec fn open_tail_from(s: Seq<u8>, j: nat) -> nat
    decreases 4 - j,
{
    if j == 0 || j > 3 || j > s.len() {
        0
    } else if is_continuation(s[s.len() - j]) {
        open_tail_from(s, j + 1)
    } else if sequence_width(s[s.len() - j]) > j {
        j
    } else {
        0
    }
}

/// Length of the unfinished character at the end of `s`.
pub open spec fn open_tail_len(s: Seq<u8>) -> nat {
    open_tail_from(s, 1)
}

/// Where `s` is cut so that no character is split: everything before the
/// unfinished tail.
pub open spec fn cut_point(s: Seq<u8>) -> int {
    s.len() - open_tail_len(s)
}

proof fn lemma_open_tail_bounded(s: Seq<u8>, j: nat)
    requires
        j >= 1,
    ensures
        open_tail_from(s, j) <= s.len(),
    decreases 4 - j,
{
    if j <= 3 && j <= s.len() && is_continuation(s[s.len() - j]) {
        lemma_open_tail_bounded(s, j + 1);
    }
}

fn width_of(b: u8) -> (r: usize)
    ensures
        r == sequence_width(b),
{
    if b < 0xC0 {
        1
    } else if b < 0xE0 {
        2
    } else if b < 0xF0 {
        3
    } else if b < 0xF8 {
        4
    } else {
        1
    }
}

/// Number of bytes at the end of `s` that belong to a character still
/// being written.
pub fn open_tail(s: &Vec<u8>) -> (r: usize)
    ensures
        r == open_tail_len(s@),
{
    let n = s.len();
    let mut j: usize = 1;
    while j <= 3 && j <= n
        invariant
            1 <= j <= 4,
            n == s@.len(),
            open_tail_from(s@, 1) == open_tail_from(s@, j as nat),
        decreases 4 - j,
    {
        let b = s[n - j];
        if b >= 0x80 && b < 0xC0 {
            j = j + 1;
        } else if width_of(b) > j {
            return j;
        } else {
            return 0;
        }
    }
    0
}

/// Forwards one output stream as a series of numbered events. Bytes are
/// passed on in the order they were read; only an unfinished multi-byte
/// character is held back until its remaining bytes arrive or the stream
/// ends, so that every event can be decoded on its own.
pub struct Relay {
    stream: StreamTag,
    pending: Vec<u8>,
    next_seq: u64,
    closed: bool,
    received: Ghost<Seq<u8>>,
    delivered: Ghost<Seq<u8>>,
}

impl Relay {
    pub closed spec fn stream_spec(&self) -> StreamTag {
        self.stream
    }

    pub closed spec fn pending_spec(&self) -> Seq<u8> {
        self.pending@
    }

    pub closed spec fn next_seq_spec(&self) -> u64 {
        self.next_seq
    }

    pub closed spec fn is_closed(&self) -> bool {
        self.closed
    }

    /// Every byte read from the stream so far, in order.
    pub closed spec fn received(&self) -> Seq<u8> {
        self.received@
    }

    /// The payloads of all events handed out so far, concatenated in order.
    pub closed spec fn delivered(&self) -> Seq<u8> {
        self.delivered@
    }

    pub closed spec fn wf(&self) -> bool {
        &&& self.delivered@ + self.pending@ == self.received@
        &&& self.closed ==> self.pending@.len() == 0
    }

    pub fn new(stream: StreamTag) -> (r: Relay)
        ensures
            r.wf(),
            r.stream_spec() == stream,
            !r.is_closed(),
            r.next_seq_spec() == 0,
            r.pending_spec() == Seq::<u8>::empty(),
            r.received() == Seq::<u8>::empty(),
            r.delivered() == Seq::<u8>::empty(),
    {
        let r = Relay {
            stream,
            pending: Vec::new(),
            next_seq: 0,
            closed: false,
            received: Ghost(Seq::empty()),
            delivered: Ghost(Seq::empty()),
        };
        assert(r.delivered@ + r.pending@ =~= r.received@);
        r
    }

    pub fn stream(&self) -> (r: StreamTag)
        ensures
            r == self.stream_spec(),
    {
        self.stream
    }

    pub fn next_seq(&self) -> (r: u64)
        ensures
            r == self.next_seq_spec(),
    {
        self.next_seq
    }

    /// Bytes held back because they end in an unfinished character.
    pub fn pending(&self) -> (r: &Vec<u8>)
        ensures
            r@ == self.pending_spec(),
    {
        &self.pending
    }

    /// Takes a chunk read from the stream. The held-back bytes followed by
    /// the chunk are cut before any unfinished trailing character; what
    /// precedes the cut is handed out as the next event, the rest is held.
    pub fn push(&mut self, chunk: &[u8]) -> (r: Option<OutputEvent>)
        requires
            old(self).wf(),
            !old(self).is_closed(),
            old(self).next_seq_spec() < u64::MAX,
        ensures
            final(self).wf(),
            !final(self).is_closed(),
            final(self).stream_spec() == old(self).stream_spec(),
            final(self).received() == old(self).received() + chunk@,
            ({
                let all = old(self).pending_spec() + chunk@;
                let cut = cut_point(all);
                if cut > 0 {
                    &&& r.is_some()
                    &&& r.unwrap().stream == old(self).stream_spec()
                    &&& r.unwrap().seq == old(self).next_seq_spec()
                    &&& r.unwrap().payload@ == all.subrange(0, cut)
                    &&& final(self).next_seq_spec() == old(self).next_seq_spec() + 1
                    &&& final(self).pending_spec() == all.subrange(cut, all.len() as int)
                    &&& final(self).delivered() == old(self).delivered() + r.unwrap().payload@
                } else {
                    &&& r.is_none()
                    &&& final(self).next_seq_spec() == old(self).next_seq_spec()
                    &&& final(self).pending_spec() == all
                    &&& final(self).delivered() == old(self).delivered()
                }
            }),
    {
        let ghost all = self.pending@ + chunk@;
        let mut i: usize = 0;
        while i < chunk.len()
            invariant
                0 <= i <= chunk@.len(),
                self.pending@ == old(self).pending@ + chunk@.subrange(0, i as int),
                self.stream == old(self).stream,
                self.next_seq == old(self).next_seq,
                self.closed == old(self).closed,
                self.received == old(self).received,
                self.delivered == old(self).delivered,
            decreases chunk@.len() - i,
        {
            self.pending.push(chunk[i]);
            i = i + 1;
            assert(chunk@.subrange(0, i as int) =~= chunk@.subrange(0, i - 1) + seq![chunk@[i - 1]]);
        }
        assert(chunk@.subrange(0, i as int) =~= chunk@);
        assert(self.pending@ =~= all);
        self.received = Ghost(self.received@ + chunk@);
        proof {
            lemma_open_tail_bounded(all, 1);
        }
        let tail = open_tail(&self.pending);
        let cut = self.pending.len() - tail;
        if cut == 0 {
            assert(self.delivered@ + self.pending@ =~= self.received@);
            return None;
        }
        let mut payload: Vec<u8> = Vec::new();
        let mut rest: Vec<u8> = Vec::new();
        let mut k: usize = 0;
        while k < self.pending.len()
            invariant
                0 <= k <= all.len(),
                self.pending@ == all,
                cut == cut_point(all),
                0 < cut <= all.len(),
                k <= cut ==> payload@ == all.subrange(0, k as int) && rest@.len() == 0,
                k > cut ==> payload@ == all.subrange(0, cut as int) && rest@ == all.subrange(
                    cut as int,
                    k as int,
                ),
            decreases all.len() - k,
        {
            if k < cut {
                payload.push(self.pending[k]);
                assert(all.subrange(0, k + 1) =~= all.subrange(0, k as int) + seq![all[k as int]]);
            } else {
                rest.push(self.pending[k]);
                assert(all.subrange(cut as int, k + 1) =~= all.subrange(cut as int, k as int)
                    + seq![all[k as int]]);
            }
            k = k + 1;
        }
        if k == cut {
            assert(all.subrange(cut as int, k as int) =~= Seq::<u8>::empty());
        }
        self.pending = rest;
        self.delivered = Ghost(self.delivered@ + payload@);
        assert(all =~= all.subrange(0, cut as int) + all.subrange(cut as int, all.len() as int));
        assert(self.delivered@ + self.pending@ =~= self.received@);
        let seq = self.next_seq;
        self.next_seq = self.next_seq + 1;
        Some(OutputEvent { stream: self.stream, seq, payload })
    }

    /// Ends the stream: whatever is still held back is handed out as a last
    /// event, so no trailing bytes are lost.
    pub fn finish(&mut self) -> (r: Option<OutputEvent>)
        requires
            old(self).wf(),
            !old(self).is_closed(),
            old(self).next_seq_spec() < u64::MAX,
        ensures
            final(self).wf(),
            final(self).is_closed(),
            final(self).stream_spec() == old(self).stream_spec(),
            final(self).received() == old(self).received(),
            final(self).delivered() == final(self).received(),
            old(self).pending_spec().len() > 0 ==> {
                &&& r.is_some()
                &&& r.unwrap().stream == old(self).stream_spec()
                &&& r.unwrap().seq == old(self).next_seq_spec()
                &&& r.unwrap().payload@ == old(self).pending_spec()
                &&& final(self).next_seq_spec() == old(self).next_seq_spec() + 1
            },
            old(self).pending_spec().len() == 0 ==> {
                &&& r.is_none()
                &&& final(self).next_seq_spec() == old(self).next_seq_spec()
            },
    {
        self.closed = true;
        if self.pending.len() == 0 {
            assert(self.delivered@ =~= self.delivered@ + self.pending@);
            return None;
        }
        let mut payload: Vec<u8> = Vec::new();
        std::mem::swap(&mut self.pending, &mut payload);
        self.delivered = Ghost(self.delivered@ + payload@);
        assert(self.delivered@ + self.pending@ =~= self.received@);
        let seq = self.next_seq;
        self.next_seq = self.next_seq + 1;
        Some(OutputEvent { stream: self.stream, seq, payload })
    }
}

/// Once a relay has seen the end of its stream, the events it handed out,
/// concatenated in sequence order, are exactly the bytes read from the
/// stream, however the reads happened to chunk them.
pub proof fn lemma_closed_relay_reproduces_stream(r: Relay)
    requires
        r.wf(),
        r.is_closed(),
    ensures
        r.delivered() == r.received(),
{
    assert(r.delivered() + r.pending_spec() =~= r.delivered());
}

} // verus!
