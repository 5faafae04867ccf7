//! Newline-delimited framing of messages on a persistent connection: every message is
//! written followed by a newline, and read back line by line.
use vstd::prelude::*;

verus! {

/// The byte that ends a frame: a newline.
pub open spec fn newline() -> u8 {
    10u8
}

/// The frame of a message: the message followed by a newline.
pub open spec fn frame(message: Seq<u8>) -> Seq<u8> {
    message.push(newline())
}

/// Whether `message` holds no newline, so that its frame ends at its own newline.
pub open spec fn single_line(message: Seq<u8>) -> bool {
    forall|i: int| 0 <= i < message.len() ==> message[i] != newline()
}

/// `k` is the position of the first newline in `b`.
pub open spec fn first_newline_at(b: Seq<u8>, k: int) -> bool {
    &&& 0 <= k < b.len()
    &&& b[k] == newline()
    &&& single_line(b.take(k))
}

/// The first complete line of `b` (through its newline) and what follows it, if `b`
/// holds a newline.
pub open spec fn split_first_line(b: Seq<u8>) -> Option<(Seq<u8>, Seq<u8>)> {
    if exists|k: int| first_newline_at(b, k) {
        let k = choose|k: int| first_newline_at(b, k);
        Some((b.take(k + 1), b.skip(k + 1)))
    } else {
        None
    }
}

/// The complete lines of `b`, in order; bytes after the last newline are left out.
pub open spec fn complete_lines(b: Seq<u8>) -> Seq<Seq<u8>>
    decreases b.len(),
{
    match split_first_line(b) {
        Some((line, rest)) => if rest.len() < b.len() {
            seq![line] + complete_lines(rest)
        } else {
            seq![line]
        },
        None => Seq::empty(),
    }
}

/// The frames of `messages`, one after another.
pub open spec fn frames(messages: Seq<Seq<u8>>) -> Seq<u8>
    decreases messages.len(),
{
    if messages.len() == 0 {
        Seq::empty()
    } else {
        frame(messages[0]) + frames(messages.drop_first())
    }
}

/// The frame of `message`: the bytes to write for it on the connection.
pub fn encode_line(message: &[u8]) -> (r: Vec<u8>)
    ensures
        r@ == frame(message@),
{
    let mut out: Vec<u8> = Vec::new();
    let mut i: usize = 0;
    while i < message.len()
        invariant
            i <= message.len(),
            out@ == message@.take(i as int),
        decreases message.len() - i,
    {
        out.push(message[i]);
        i = i + 1;
        assert(out@ =~= message@.take(i as int));
    }
    assert(message@.take(message.len() as int) =~= message@);
    out.push(10u8);
    out
}

/// The first newline of `b` is at one place only.
proof fn lemma_first_newline_unique(b: Seq<u8>, k1: int, k2: int)
    requires
        first_newline_at(b, k1),
        first_newline_at(b, k2),
    ensures
        k1 == k2,
{
    if k1 < k2 {
        assert(b.take(k2)[k1] == b[k1]);
    } else if k2 < k1 {
        assert(b.take(k1)[k2] == b[k2]);
    }
}

/// Reading the first line of a frame followed by more bytes gives the frame, and leaves
/// the bytes that follow it.
pub proof fn lemma_frame_reads_back(message: Seq<u8>, rest: Seq<u8>)
    requires
        single_line(message),
    ensures
        split_first_line(frame(message) + rest) == Some((frame(message), rest)),
{
    let b = frame(message) + rest;
    let k = message.len() as int;
    assert(b.take(k) =~= message);
    assert(first_newline_at(b, k));
    let c = choose|c: int| first_newline_at(b, c);
    lemma_first_newline_unique(b, c, k);
    assert(b.take(k + 1) =~= frame(message));
    assert(b.skip(k + 1) =~= rest);
}

/// The complete lines of a stream of frames are the frames, in the order they were written.
pub proof fn lemma_frames_read_back(messages: Seq<Seq<u8>>)
    requires
        forall|i: int| 0 <= i < messages.len() ==> single_line(#[trigger] messages[i]),
    ensures
        complete_lines(frames(messages)) == messages.map_values(|m: Seq<u8>| frame(m)),
    decreases messages.len(),
{
    if messages.len() == 0 {
        let b = frames(messages);
        assert(b =~= Seq::<u8>::empty());
        assert(!(exists|k: int| first_newline_at(b, k)));
        assert(messages.map_values(|m: Seq<u8>| frame(m)) =~= Seq::<Seq<u8>>::empty());
    } else {
        let rest = frames(messages.drop_first());
        assert(single_line(messages[0]));
        lemma_frame_reads_back(messages[0], rest);
        assert forall|i: int| 0 <= i < messages.drop_first().len() implies single_line(#[trigger] messages.drop_first()[i]) by {
            assert(messages.drop_first()[i] == messages[i + 1]);
        }
        lemma_frames_read_back(messages.drop_first());
        assert(messages.map_values(|m: Seq<u8>| frame(m)) =~= seq![frame(messages[0])] + messages.drop_first().map_values(|m: Seq<u8>| frame(m)));
    }
}

/// Bytes received on a connection that are not yet handed out as lines.
pub struct LineReader {
    buffer: Vec<u8>,
}

impl View for LineReader {
    type V = Seq<u8>;

    closed spec fn view(&self) -> Seq<u8> {
        self.buffer@
    }
}

impl LineReader {
    /// A reader that holds no bytes.
    pub fn new() -> (r: LineReader)
        ensures
            r@ == Seq::<u8>::empty(),
    {
        LineReader { buffer: Vec::new() }
    }

    /// Adds bytes received from the connection.
    pub fn feed(&mut self, bytes: &[u8])
        ensures
            final(self)@ == old(self)@ + bytes@,
    {
        let ghost before = self.buffer@;
        let mut i: usize = 0;
        while i < bytes.len()
            invariant
                i <= bytes.len(),
                self.buffer@ == before + bytes@.take(i as int),
            decreases bytes.len() - i,
        {
            self.buffer.push(bytes[i]);
            i = i + 1;
            assert(self.buffer@ =~= before + bytes@.take(i as int));
        }
        assert(bytes@.take(bytes.len() as int) =~= bytes@);
    }

    /// The next complete line, newline included, if one has been received.
    pub fn next_line(&mut self) -> (r: Option<Vec<u8>>)
        ensures
            match split_first_line(old(self)@) {
                Some((line, rest)) => r matches Some(l) && l@ == line && final(self)@ == rest,
                None => r is None && final(self)@ == old(self)@,
            },
    {
        let ghost b = self.buffer@;
        let mut k: usize = 0;
        while k < self.buffer.len() && self.buffer[k] != 10u8
            invariant
                self.buffer@ == b,
                k <= b.len(),
                single_line(b.take(k as int)),
            decreases b.len() - k,
        {
            assert(b.take(k + 1) =~= b.take(k as int).push(b[k as int]));
            k = k + 1;
        }
        if k == self.buffer.len() {
            assert(b.take(k as int) =~= b);
            assert(!(exists|c: int| first_newline_at(b, c)));
            return None;
        }
        assert(first_newline_at(b, k as int));
        proof {
            let c = choose|c: int| first_newline_at(b, c);
            lemma_first_newline_unique(b, c, k as int);
        }
        let mut line: Vec<u8> = Vec::new();
        let mut rest: Vec<u8> = Vec::new();
        let mut i: usize = 0;
        while i < self.buffer.len()
            invariant
                self.buffer@ == b,
                k < b.len(),
                i <= b.len(),
                i <= k + 1 ==> line@ == b.take(i as int) && rest@ == Seq::<u8>::empty(),
                i > k + 1 ==> line@ == b.take(k + 1) && rest@ == b.subrange(k + 1, i as int),
            decreases b.len() - i,
        {
            if i <= k {
                line.push(self.buffer[i]);
            } else {
                rest.push(self.buffer[i]);
            }
            i = i + 1;
            assert(line@ =~= b.take(if i <= k + 1 { i as int } else { k + 1 }));
            if i > k + 1 {
                assert(rest@ =~= b.subrange(k + 1, i as int));
            }
        }
        assert(rest@ =~= b.skip(k + 1));
        self.buffer = rest;
        Some(line)
    }

    /// At the end of the input: the bytes after the last newline, if there are any.
    pub fn finish(&mut self) -> (r: Option<Vec<u8>>)
        ensures
            final(self)@ == Seq::<u8>::empty(),
            old(self)@.len() == 0 ==> r is None,
            old(self)@.len() > 0 ==> (r matches Some(l) && l@ == old(self)@),
    {
        if self.buffer.len() == 0 {
            None
        } else {
            let mut taken: Vec<u8> = Vec::new();
            std::mem::swap(&mut taken, &mut self.buffer);
            Some(taken)
        }
    }
}

} // verus!
