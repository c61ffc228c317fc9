//! Server-Sent Events: framing of an event stream into event payloads.
use vstd::prelude::*;

use crate::text::{chars_of, push_char};
use vstd::utf8::{
    decode_utf8, encode_scalar, encode_utf8, has_width_1_encoding, last_continuation_byte,
    leading_byte_width_1, leading_byte_width_2, leading_byte_width_3, leading_byte_width_4,
    second_last_continuation_byte, third_last_continuation_byte, valid_utf8,
};

verus! {

/// The lines of `s`, split at each `'\n'` (a trailing `'\n'` leaves an empty
/// last line; the empty text is one empty line).
pub open spec fn lines(s: Seq<char>) -> Seq<Seq<char>>
    decreases s.len(),
{
    if s.len() == 0 {
        seq![Seq::empty()]
    } else {
        let prev = lines(s.drop_last());
        if s.last() == '\n' {
            prev.push(Seq::empty())
        } else {
            prev.update(prev.len() - 1, prev.last().push(s.last()))
        }
    }
}

/// Whether line `l` is a `data:` field.
pub open spec fn is_data_line(l: Seq<char>) -> bool {
    l.len() >= 5 && l[0] == 'd' && l[1] == 'a' && l[2] == 't' && l[3] == 'a' && l[4] == ':'
}

/// The value of a `data:` line: what follows the colon, less one leading space.
pub open spec fn data_value(l: Seq<char>) -> Seq<char> {
    let rest = l.skip(5);
    if rest.len() > 0 && rest[0] == ' ' {
        rest.skip(1)
    } else {
        rest
    }
}

/// The values of the `data:` lines among `ls`, in order.
pub open spec fn data_values(ls: Seq<Seq<char>>) -> Seq<Seq<char>>
    decreases ls.len(),
{
    if ls.len() == 0 {
        Seq::empty()
    } else {
        let prev = data_values(ls.drop_last());
        if is_data_line(ls.last()) {
            prev.push(data_value(ls.last()))
        } else {
            prev
        }
    }
}

/// The parts joined with `'\n'` between them.
pub open spec fn join_lines(parts: Seq<Seq<char>>) -> Seq<char>
    decreases parts.len(),
{
    if parts.len() == 0 {
        Seq::empty()
    } else if parts.len() == 1 {
        parts[0]
    } else {
        join_lines(parts.drop_last()) + seq!['\n'] + parts.last()
    }
}

/// The payload of one event block: its `data:` values joined with `'\n'`,
/// or nothing when it has no `data:` line (comments and other fields are
/// ignored).
pub open spec fn block_payload(raw: Seq<char>) -> Option<Seq<char>> {
    let values = data_values(lines(raw));
    if values.len() == 0 {
        None
    } else {
        Some(join_lines(values))
    }
}

pub proof fn lemma_join_push(parts: Seq<Seq<char>>, x: Seq<char>)
    ensures
        join_lines(parts.push(x)) == if parts.len() == 0 {
            x
        } else {
            join_lines(parts) + seq!['\n'] + x
        },
{
    assert(parts.push(x).drop_last() =~= parts);
    if parts.len() == 0 {
        assert(parts.push(x).len() == 1);
    }
}

pub proof fn lemma_lines_nonempty(s: Seq<char>)
    ensures
        lines(s).len() >= 1,
    decreases s.len(),
{
    if s.len() > 0 {
        lemma_lines_nonempty(s.drop_last());
    }
}

fn push_range(out: &mut String, raw: &Vec<char>, a: usize, b: usize)
    requires
        a <= b <= raw@.len(),
    ensures
        final(out)@ == old(out)@ + raw@.subrange(a as int, b as int),
{
    let mut k = a;
    while k < b
        invariant
            a <= k <= b <= raw@.len(),
            out@ == old(out)@ + raw@.subrange(a as int, k as int),
        decreases b - k,
    {
        assert(raw@.subrange(a as int, k + 1) =~= raw@.subrange(a as int, k as int).push(raw@[k as int]));
        push_char(out, raw[k]);
        k = k + 1;
    }
}

/// Where the value of line `raw[a..b]` starts, when it is a `data:` line.
fn data_start(raw: &Vec<char>, a: usize, b: usize) -> (r: Option<usize>)
    requires
        a <= b <= raw@.len(),
    ensures
        match r {
            Some(p) => is_data_line(raw@.subrange(a as int, b as int)) && a <= p <= b
                && raw@.subrange(p as int, b as int) == data_value(raw@.subrange(a as int, b as int)),
            None => !is_data_line(raw@.subrange(a as int, b as int)),
        },
{
    let ghost l = raw@.subrange(a as int, b as int);
    if b - a >= 5 && raw[a] == 'd' && raw[a + 1] == 'a' && raw[a + 2] == 't' && raw[a + 3] == 'a'
        && raw[a + 4] == ':' {
        let p = a + 5;
        assert(l.skip(5) =~= raw@.subrange(p as int, b as int));
        if p < b && raw[p] == ' ' {
            assert(l.skip(5).skip(1) =~= raw@.subrange(p + 1, b as int));
            Some(p + 1)
        } else {
            Some(p)
        }
    } else {
        None
    }
}

/// The payload of the block `raw[start..end]`.
fn block_payload_in(raw: &Vec<char>, start: usize, end: usize) -> (r: Option<String>)
    requires
        start <= end <= raw@.len(),
    ensures
        match r {
            Some(s) => block_payload(raw@.subrange(start as int, end as int)) == Some(s@),
            None => block_payload(raw@.subrange(start as int, end as int)) is None,
        },
{
    let mut out = String::new();
    let mut found = false;
    let mut line_start = start;
    let mut i = start;
    let ghost mut done: Seq<Seq<char>> = Seq::empty();
    proof {
        assert(raw@.subrange(start as int, start as int) =~= Seq::<char>::empty());
        assert(lines(Seq::<char>::empty()) =~= done.push(raw@.subrange(line_start as int, i as int)));
    }
    while i < end
        invariant
            start <= line_start <= i <= end <= raw@.len(),
            lines(raw@.subrange(start as int, i as int)) == done.push(
                raw@.subrange(line_start as int, i as int),
            ),
            found == (data_values(done).len() > 0),
            found ==> out@ == join_lines(data_values(done)),
            !found ==> out@ == Seq::<char>::empty(),
        decreases end - i,
    {
        let c = raw[i];
        let ghost pre = raw@.subrange(start as int, i as int);
        let ghost cur = raw@.subrange(line_start as int, i as int);
        assert(raw@.subrange(start as int, i + 1) =~= pre.push(c));
        assert(raw@.subrange(start as int, i + 1).drop_last() =~= pre);
        if c == '\n' {
            let ghost old_values = data_values(done);
            match data_start(raw, line_start, i) {
                Some(p) => {
                    let ghost before = out@;
                    if found {
                        push_char(&mut out, '\n');
                    }
                    push_range(&mut out, raw, p, i);
                    proof {
                        if found {
                            assert(out@ =~= before + seq!['\n'] + data_value(cur));
                        } else {
                            assert(out@ =~= data_value(cur));
                        }
                    }
                    found = true;
                },
                None => {},
            }
            proof {
                assert(done.push(cur).drop_last() =~= done);
                lemma_join_push(old_values, data_value(cur));
                done = done.push(cur);
                assert(raw@.subrange((i + 1) as int, (i + 1) as int) =~= Seq::<char>::empty());
            }
            line_start = i + 1;
        } else {
            proof {
                lemma_lines_nonempty(pre);
                assert(raw@.subrange(line_start as int, i + 1) =~= cur.push(c));
                assert(done.push(cur).update(done.len() as int, cur.push(c)) =~= done.push(cur.push(c)));
            }
        }
        i = i + 1;
    }
    let ghost cur = raw@.subrange(line_start as int, end as int);
    proof {
        lemma_join_push(data_values(done), data_value(cur));
    }
    match data_start(raw, line_start, end) {
        Some(p) => {
            let ghost before = out@;
            if found {
                push_char(&mut out, '\n');
            }
            push_range(&mut out, raw, p, end);
            proof {
                if found {
                    assert(out@ =~= before + seq!['\n'] + data_value(cur));
                } else {
                    assert(out@ =~= data_value(cur));
                }
            }
            found = true;
        },
        None => {},
    }
    proof {
        assert(done.push(cur).drop_last() =~= done);
    }
    if found {
        Some(out)
    } else {
        None
    }
}

/// Extract the joined `data:` payload from one SSE block (ignoring comments).
pub fn parse_block(raw: &str) -> (r: Option<String>)
    ensures
        match r {
            Some(s) => block_payload(raw@) == Some(s@),
            None => block_payload(raw@) is None,
        },
{
    let chars = chars_of(raw);
    assert(chars@.subrange(0, chars@.len() as int) =~= chars@);
    block_payload_in(&chars, 0, chars.len())
}

} // verus!

verus! {

/// The byte `'\n'`.
pub const LF: u8 = 10u8;

/// The byte `'\r'`.
pub const CR: u8 = 13u8;

/// Names what lossy UTF-8 decoding makes of `bytes`: their text, each
/// invalid sequence replaced by U+FFFD.
pub uninterp spec fn utf8_lossy(bytes: Seq<u8>) -> Seq<char>;

/// The text of `bytes`: exactly what they encode when they are valid UTF-8,
/// else their lossy decoding.
pub open spec fn decoded_text(bytes: Seq<u8>) -> Seq<char> {
    if valid_utf8(bytes) {
        decode_utf8(bytes)
    } else {
        utf8_lossy(bytes)
    }
}

/// `String::from_utf8_lossy` (std): the text of `bytes`, each invalid
/// sequence replaced by U+FFFD; on valid UTF-8 it is exactly the encoded
/// text.
#[verifier::external_body]
fn text_of_bytes(bytes: &[u8]) -> (s: String)
    ensures
        s@ == utf8_lossy(bytes@),
        valid_utf8(bytes@) ==> s@ == decode_utf8(bytes@),
{
    String::from_utf8_lossy(bytes).into_owned()
}

/// Whether a blank line (two `'\n'` in a row) starts at index `i` of `b`.
pub open spec fn blank_at(b: Seq<u8>, i: int) -> bool {
    0 <= i && i + 1 < b.len() && b[i] == LF && b[i + 1] == LF
}

/// The first index at or after `k` where a blank line starts in `b`.
pub open spec fn blank_from(b: Seq<u8>, k: nat) -> Option<int>
    decreases b.len() - k,
{
    if k + 1 >= b.len() {
        None
    } else if b[k as int] == LF && b[k + 1int] == LF {
        Some(k as int)
    } else {
        blank_from(b, k + 1)
    }
}

pub proof fn lemma_blank_from_bounds(b: Seq<u8>, k: nat)
    ensures
        blank_from(b, k) matches Some(i) ==> k <= i && blank_at(b, i) && forall|j: int|
            k <= j < i ==> !blank_at(b, j),
    decreases b.len() - k,
{
    if k + 1 < b.len() && !(b[k as int] == LF && b[k + 1int] == LF) {
        lemma_blank_from_bounds(b, k + 1);
    }
}

/// What the decoder yields next.
pub enum Polled {
    /// The payload of an event.
    Event(Seq<char>),
    /// The `[DONE]` marker: the stream is over.
    Done,
    /// No complete event is buffered yet.
    Pending,
}

/// Decoding buffered bytes: the first complete block (up to and including
/// its blank line) that carries data is consumed and yields its payload, or
/// the end of the stream when the payload is `[DONE]`; blocks without data
/// are skipped. Returns what is yielded and what stays buffered.
pub open spec fn poll(b: Seq<u8>) -> (Polled, Seq<u8>)
    decreases b.len(),
{
    match blank_from(b, 0) {
        Some(i) => if 0 <= i && i + 2 <= b.len() {
            let rest = b.skip(i + 2);
            match block_payload(decoded_text(b.take(i + 2))) {
                None => poll(rest),
                Some(d) => if d == "[DONE]"@ {
                    (Polled::Done, rest)
                } else {
                    (Polled::Event(d), rest)
                },
            }
        } else {
            (Polled::Pending, b)
        },
        None => (Polled::Pending, b),
    }
}

/// `t` with each `"\r\n"` turned into `"\n"`.
pub open spec fn crlf_to_lf(t: Seq<u8>) -> Seq<u8>
    decreases t.len(),
{
    if t.len() == 0 {
        Seq::empty()
    } else if t.len() >= 2 && t[0] == CR && t[1] == LF {
        seq![LF] + crlf_to_lf(t.skip(2))
    } else {
        seq![t[0]] + crlf_to_lf(t.skip(1))
    }
}

/// The state of a decoder: the bytes received and not yet consumed, with
/// line ends normalized, and whether a `'\r'` that ended the bytes so far
/// is held back.
#[verifier::ext_equal]
pub struct StreamView {
    pub text: Seq<u8>,
    pub held_cr: bool,
}

/// Taking in `chunk`: each `"\r\n"` becomes `"\n"`, also one whose `'\r'`
/// ended the previous chunk; a `'\r'` that ends what has arrived is held
/// back until the next byte shows whether a `'\n'` follows it.
pub open spec fn absorb(v: StreamView, chunk: Seq<u8>) -> StreamView {
    let full = if v.held_cr {
        seq![CR] + chunk
    } else {
        chunk
    };
    if full.len() > 0 && full.last() == CR {
        StreamView { text: v.text + crlf_to_lf(full.drop_last()), held_cr: true }
    } else {
        StreamView { text: v.text + crlf_to_lf(full), held_cr: false }
    }
}

/// Taking in each of `chunks`, in order.
pub open spec fn absorb_all(v: StreamView, chunks: Seq<Seq<u8>>) -> StreamView
    decreases chunks.len(),
{
    if chunks.len() == 0 {
        v
    } else {
        absorb_all(absorb(v, chunks[0]), chunks.drop_first())
    }
}

/// What is still pending at the end of the stream: the buffered bytes and a
/// held `'\r'`, if any.
pub open spec fn remaining(v: StreamView) -> Seq<u8> {
    if v.held_cr {
        v.text.push(CR)
    } else {
        v.text
    }
}

/// What the end of the stream yields from what is still pending: the
/// payload of the unterminated last block, unless it is `[DONE]` or has none.
pub open spec fn final_event(b: Seq<u8>) -> Option<Seq<char>> {
    if b.len() == 0 {
        None
    } else {
        match block_payload(decoded_text(b)) {
            Some(d) => if d == "[DONE]"@ {
                None
            } else {
                Some(d)
            },
            None => None,
        }
    }
}

/// One step of decoding buffered text.
#[derive(Debug)]
pub enum SseStep {
    /// The payload of the next event.
    Event(String),
    /// The `[DONE]` marker arrived: the stream is over.
    Done,
    /// More bytes must arrive before another event is complete.
    NeedMore,
}

/// Whether step `r` is what `p` describes.
pub open spec fn step_is(r: SseStep, p: Polled) -> bool {
    match (r, p) {
        (SseStep::Event(s), Polled::Event(d)) => s@ == d,
        (SseStep::Done, Polled::Done) => true,
        (SseStep::NeedMore, Polled::Pending) => true,
        _ => false,
    }
}

/// The decoding state of a live Server-Sent Events stream.
pub struct Stream {
    buffer: Vec<u8>,
    held_cr: bool,
}

impl View for Stream {
    type V = StreamView;

    closed spec fn view(&self) -> StreamView {
        StreamView { text: self.buffer@, held_cr: self.held_cr }
    }
}

fn find_blank(b: &Vec<u8>) -> (r: Option<usize>)
    ensures
        match r {
            Some(i) => blank_from(b@, 0) == Some(i as int),
            None => blank_from(b@, 0) is None,
        },
{
    let mut k: usize = 0;
    while k < b.len() && k + 1 < b.len()
        invariant
            blank_from(b@, 0) == blank_from(b@, k as nat),
        decreases b@.len() - k,
    {
        if b[k] == LF && b[k + 1] == LF {
            return Some(k);
        }
        k = k + 1;
    }
    None
}

/// What taking in one byte does.
proof fn lemma_absorb_byte(v: StreamView, c: u8)
    ensures
        absorb(v, seq![c]) == if v.held_cr {
            if c == LF {
                StreamView { text: v.text.push(LF), held_cr: false }
            } else if c == CR {
                StreamView { text: v.text.push(CR), held_cr: true }
            } else {
                StreamView { text: v.text.push(CR).push(c), held_cr: false }
            }
        } else {
            if c == CR {
                StreamView { text: v.text, held_cr: true }
            } else {
                StreamView { text: v.text.push(c), held_cr: false }
            }
        },
{
    let e = Seq::<u8>::empty();
    assert(crlf_to_lf(e) == e);
    assert(seq![c].skip(1) =~= e);
    if v.held_cr {
        let full = seq![CR] + seq![c];
        assert(full =~= seq![CR, c]);
        assert(full.drop_last() =~= seq![CR]);
        assert(seq![CR].skip(1) =~= e);
        assert(crlf_to_lf(seq![CR]) =~= seq![CR]);
        if c == LF {
            assert(full.skip(2) =~= e);
            assert(crlf_to_lf(full) =~= seq![LF]);
        } else if c == CR {
        } else {
            assert(full.skip(1) =~= seq![c]);
            assert(crlf_to_lf(seq![c]) =~= seq![c]);
            assert(crlf_to_lf(full) =~= seq![CR, c]);
        }
    } else {
        assert(seq![c].drop_last() =~= e);
        assert(crlf_to_lf(seq![c]) =~= seq![c]);
    }
}

impl Stream {
    /// A decoder with nothing buffered.
    pub fn new() -> (s: Stream)
        ensures
            s@ == (StreamView { text: Seq::<u8>::empty(), held_cr: false }),
    {
        Stream { buffer: Vec::new(), held_cr: false }
    }

    /// Take in a chunk of the received bytes, with `"\r\n"` normalized to
    /// `"\n"` wherever the chunks were cut.
    pub fn push_chunk(&mut self, chunk: &[u8])
        ensures
            final(self)@ == absorb(old(self)@, chunk@),
    {
        let mut i: usize = 0;
        proof {
            lemma_absorb_empty(self@);
            assert(chunk@.take(0) =~= Seq::<u8>::empty());
        }
        while i < chunk.len()
            invariant
                i <= chunk@.len(),
                self@ == absorb(old(self)@, chunk@.take(i as int)),
            decreases chunk@.len() - i,
        {
            let c = chunk[i];
            let ghost before = self@;
            proof {
                chunk_boundaries_do_not_matter(old(self)@, chunk@.take(i as int), seq![c]);
                assert(chunk@.take(i as int) + seq![c] =~= chunk@.take(i + 1));
                lemma_absorb_byte(before, c);
            }
            if self.held_cr {
                if c == LF {
                    self.buffer.push(LF);
                    self.held_cr = false;
                } else if c == CR {
                    self.buffer.push(CR);
                } else {
                    self.buffer.push(CR);
                    self.buffer.push(c);
                    self.held_cr = false;
                }
            } else {
                if c == CR {
                    self.held_cr = true;
                } else {
                    self.buffer.push(c);
                }
            }
            assert(self@ =~= absorb(before, seq![c]));
            i = i + 1;
        }
        assert(chunk@.take(i as int) =~= chunk@);
    }

    /// Consume buffered blocks up to the next event, the `[DONE]` marker, or
    /// the end of the complete blocks.
    pub fn next_buffered(&mut self) -> (r: SseStep)
        ensures
            step_is(r, poll(old(self)@.text).0),
            final(self)@ == (StreamView { text: poll(old(self)@.text).1, held_cr: old(self)@.held_cr }),
    {
        let done_marker = "[DONE]".to_owned();
        loop
            invariant
                poll(old(self)@.text) == poll(self@.text),
                self@.held_cr == old(self)@.held_cr,
                done_marker@ == "[DONE]"@,
            decreases self@.text.len(),
        {
            match find_blank(&self.buffer) {
                None => {
                    return SseStep::NeedMore;
                },
                Some(i) => {
                    proof {
                        lemma_blank_from_bounds(self.buffer@, 0);
                    }
                    assert(i + 1 < self.buffer.len());
                    let ghost whole = self.buffer@;
                    let rest = self.buffer.split_off(i + 2);
                    assert(self.buffer@ =~= whole.take(i + 2));
                    assert(rest@ =~= whole.skip(i + 2));
                    let text = text_of_bytes(self.buffer.as_slice());
                    assert(text@ == decoded_text(whole.take(i + 2)));
                    self.buffer = rest;
                    match parse_block(text.as_str()) {
                        None => {},
                        Some(d) => {
                            if d == done_marker {
                                return SseStep::Done;
                            } else {
                                return SseStep::Event(d);
                            }
                        },
                    }
                },
            }
        }
    }

    /// At the end of the stream: the event still pending, if any, leaving
    /// nothing buffered.
    pub fn finish(&mut self) -> (r: Option<String>)
        ensures
            match r {
                Some(s) => final_event(remaining(old(self)@)) == Some(s@),
                None => final_event(remaining(old(self)@)) is None,
            },
            final(self)@ == (StreamView { text: Seq::<u8>::empty(), held_cr: false }),
    {
        if self.held_cr {
            self.buffer.push(CR);
            self.held_cr = false;
        }
        if self.buffer.len() == 0 {
            return None;
        }
        let mut block: Vec<u8> = Vec::new();
        std::mem::swap(&mut block, &mut self.buffer);
        let text = text_of_bytes(block.as_slice());
        match parse_block(text.as_str()) {
            Some(d) => {
                if d == "[DONE]".to_owned() {
                    None
                } else {
                    Some(d)
                }
            },
            None => None,
        }
    }
}

/// Taking in nothing changes nothing.
pub proof fn lemma_absorb_empty(v: StreamView)
    ensures
        absorb(v, Seq::empty()) == v,
{
    let e = Seq::<u8>::empty();
    assert(crlf_to_lf(e) == e);
    assert(v.text + e =~= v.text);
    if v.held_cr {
        assert(seq![CR] + e =~= seq![CR]);
        assert(seq![CR].drop_last() =~= e);
    }
}

/// Normalizing two pieces apart is normalizing them together, unless the
/// first ends with the `'\r'` and the second starts with the `'\n'` of one
/// `"\r\n"`.
pub proof fn lemma_crlf_concat(x: Seq<u8>, y: Seq<u8>)
    requires
        x.len() == 0 || x.last() != CR || y.len() == 0 || y[0] != LF,
    ensures
        crlf_to_lf(x + y) == crlf_to_lf(x) + crlf_to_lf(y),
    decreases x.len(),
{
    let xy = x + y;
    if x.len() == 0 {
        assert(xy =~= y);
        assert(crlf_to_lf(x) + crlf_to_lf(y) =~= crlf_to_lf(y));
    } else if x.len() >= 2 && x[0] == CR && x[1] == LF {
        assert(xy.skip(2) =~= x.skip(2) + y);
        lemma_crlf_concat(x.skip(2), y);
        assert(crlf_to_lf(xy) =~= crlf_to_lf(x) + crlf_to_lf(y));
    } else {
        assert(xy.skip(1) =~= x.skip(1) + y);
        if x.len() == 1 {
            assert(x.skip(1) =~= Seq::<u8>::empty());
        }
        lemma_crlf_concat(x.skip(1), y);
        assert(crlf_to_lf(xy) =~= crlf_to_lf(x) + crlf_to_lf(y));
    }
}

/// Law: where the transport cuts the body does not matter: taking in `a`
/// and then `b` is taking in `a + b` at once.
pub proof fn chunk_boundaries_do_not_matter(v: StreamView, a: Seq<u8>, b: Seq<u8>)
    ensures
        absorb(absorb(v, a), b) == absorb(v, a + b),
{
    let fa = if v.held_cr {
        seq![CR] + a
    } else {
        a
    };
    let full = if v.held_cr {
        seq![CR] + (a + b)
    } else {
        a + b
    };
    assert(full =~= fa + b);
    let w = absorb(v, a);
    let fb = if w.held_cr {
        seq![CR] + b
    } else {
        b
    };
    if fa.len() > 0 && fa.last() == CR {
        let x = fa.drop_last();
        assert(fa =~= x.push(CR));
        if fb.len() > 0 && fb.last() == CR {
            assert(full.drop_last() =~= x + fb.drop_last());
            lemma_crlf_concat(x, fb.drop_last());
        } else {
            assert(full =~= x + fb);
            lemma_crlf_concat(x, fb);
        }
    } else {
        if fb.len() > 0 && fb.last() == CR {
            assert(full.drop_last() =~= fa + fb.drop_last());
            lemma_crlf_concat(fa, fb.drop_last());
        } else {
            lemma_crlf_concat(fa, fb);
        }
    }
    assert(absorb(absorb(v, a), b) =~= absorb(v, a + b));
}

/// Law: a body taken in chunk by chunk leaves the decoder as the whole body
/// taken in at once.
pub proof fn chunked_body_reads_as_whole(v: StreamView, chunks: Seq<Seq<u8>>)
    ensures
        absorb_all(v, chunks) == absorb(v, chunks.flatten()),
    decreases chunks.len(),
{
    if chunks.len() == 0 {
        lemma_absorb_empty(v);
    } else {
        chunked_body_reads_as_whole(absorb(v, chunks[0]), chunks.drop_first());
        chunk_boundaries_do_not_matter(v, chunks[0], chunks.drop_first().flatten());
    }
}

proof fn lemma_blank_from_extend(x: Seq<u8>, y: Seq<u8>, k: nat)
    requires
        blank_from(x, k) is Some,
    ensures
        blank_from(x + y, k) == blank_from(x, k),
    decreases x.len() - k,
{
    let xy = x + y;
    assert(xy[k as int] == x[k as int]);
    assert(xy[k + 1int] == x[k + 1int]);
    if !(x[k as int] == LF && x[k + 1int] == LF) {
        lemma_blank_from_extend(x, y, k + 1);
    }
}

/// Law: once buffered bytes decide the next step, bytes that arrive later
/// do not change it: they are only buffered after what stays.
pub proof fn later_bytes_do_not_change_a_decided_step(x: Seq<u8>, y: Seq<u8>)
    requires
        !(poll(x).0 is Pending),
    ensures
        poll(x + y) == (poll(x).0, poll(x).1 + y),
    decreases x.len(),
{
    let i = blank_from(x, 0)->0;
    lemma_blank_from_extend(x, y, 0);
    lemma_blank_from_bounds(x, 0);
    let xy = x + y;
    assert(xy.take(i + 2) =~= x.take(i + 2));
    assert(xy.skip(i + 2) =~= x.skip(i + 2) + y);
    if block_payload(decoded_text(x.take(i + 2))) is None {
        later_bytes_do_not_change_a_decided_step(x.skip(i + 2), y);
    }
}

/// Draining buffered bytes: the events they yield, in order, until more
/// bytes are needed or `[DONE]` ends the stream; whether `[DONE]` came; and
/// what stays buffered.
pub open spec fn drain(b: Seq<u8>) -> (Seq<Seq<char>>, bool, Seq<u8>)
    decreases b.len(),
{
    match poll(b) {
        (Polled::Event(d), rest) => if rest.len() < b.len() {
            let (es, done, r) = drain(rest);
            (seq![d] + es, done, r)
        } else {
            (seq![d], false, rest)
        },
        (Polled::Done, rest) => (Seq::empty(), true, rest),
        (Polled::Pending, rest) => (Seq::empty(), false, rest),
    }
}

/// Reading a body that arrives as `chunks`, as a client of the decoder
/// does: each chunk is taken in and the buffer drained, until `[DONE]`.
/// Returns the events, whether `[DONE]` came, and the decoder's state after.
pub open spec fn read_chunks(v: StreamView, chunks: Seq<Seq<u8>>) -> (Seq<Seq<char>>, bool, StreamView)
    decreases chunks.len(),
{
    if chunks.len() == 0 {
        (Seq::empty(), false, v)
    } else {
        let w = absorb(v, chunks[0]);
        let (es, done, rest) = drain(w.text);
        let u = StreamView { text: rest, held_cr: w.held_cr };
        if done {
            (es, true, u)
        } else {
            let (more, end, last) = read_chunks(u, chunks.drop_first());
            (es + more, end, last)
        }
    }
}

proof fn lemma_poll_rest_shorter(b: Seq<u8>)
    ensures
        !(poll(b).0 is Pending) ==> poll(b).1.len() < b.len(),
    decreases b.len(),
{
    lemma_blank_from_bounds(b, 0);
    if let Some(i) = blank_from(b, 0) {
        if 0 <= i && i + 2 <= b.len() && block_payload(decoded_text(b.take(i + 2))) is None {
            lemma_poll_rest_shorter(b.skip(i + 2));
        }
    }
}

/// When nothing is decided, what stays holds no complete block.
proof fn lemma_pending_rest(b: Seq<u8>)
    ensures
        poll(b).0 is Pending ==> blank_from(poll(b).1, 0) is None,
    decreases b.len(),
{
    lemma_blank_from_bounds(b, 0);
    if let Some(i) = blank_from(b, 0) {
        if block_payload(decoded_text(b.take(i + 2))) is None {
            lemma_pending_rest(b.skip(i + 2));
        }
    }
}

/// When nothing is decided, bytes that arrive later meet what stayed.
proof fn lemma_pending_append(x: Seq<u8>, y: Seq<u8>)
    requires
        poll(x).0 is Pending,
    ensures
        poll(x + y) == poll(poll(x).1 + y),
    decreases x.len(),
{
    lemma_blank_from_bounds(x, 0);
    if let Some(i) = blank_from(x, 0) {
        lemma_blank_from_extend(x, y, 0);
        let xy = x + y;
        assert(xy.take(i + 2) =~= x.take(i + 2));
        assert(xy.skip(i + 2) =~= x.skip(i + 2) + y);
        lemma_pending_append(x.skip(i + 2), y);
    }
}

/// What stays after draining, unless `[DONE]` came, holds no complete block.
proof fn lemma_drain_leaves_pending(b: Seq<u8>)
    ensures
        !drain(b).1 ==> blank_from(drain(b).2, 0) is None,
    decreases b.len(),
{
    lemma_poll_rest_shorter(b);
    lemma_pending_rest(b);
    if poll(b).0 is Event {
        lemma_drain_leaves_pending(poll(b).1);
    }
}

/// Draining a buffer with no complete block yields nothing and keeps it.
proof fn lemma_drain_nothing(b: Seq<u8>)
    requires
        blank_from(b, 0) is None,
    ensures
        drain(b) == (Seq::<Seq<char>>::empty(), false, b),
{
}

/// Draining `x + y` is draining `x`, then, unless `[DONE]` came, draining
/// what stayed with `y` after it.
proof fn lemma_drain_append(x: Seq<u8>, y: Seq<u8>)
    ensures
        ({
            let (es, done, r) = drain(x);
            if done {
                drain(x + y) == (es, true, r + y)
            } else {
                drain(x + y) == (es + drain(r + y).0, drain(r + y).1, drain(r + y).2)
            }
        }),
    decreases x.len(),
{
    lemma_poll_rest_shorter(x);
    let xy = x + y;
    if poll(x).0 is Pending {
        let r = poll(x).1;
        lemma_pending_append(x, y);
        lemma_poll_rest_shorter(xy);
        lemma_poll_rest_shorter(r + y);
        assert(drain(xy) == drain(r + y));
        assert(Seq::<Seq<char>>::empty() + drain(r + y).0 =~= drain(r + y).0);
    } else {
        later_bytes_do_not_change_a_decided_step(x, y);
        let rest = poll(x).1;
        assert(xy.len() == x.len() + y.len());
        assert((rest + y).len() < xy.len());
        if poll(x).0 is Event {
            lemma_drain_append(rest, y);
            let d = poll(x).0->Event_0;
            let (es, done, r) = drain(rest);
            if !done {
                assert(seq![d] + (es + drain(r + y).0) =~= (seq![d] + es) + drain(r + y).0);
            }
        }
    }
}

/// Reading a body that arrives as one chunk.
proof fn lemma_read_single(v: StreamView, c: Seq<u8>)
    ensures
        read_chunks(v, seq![c]) == ({
            let w = absorb(v, c);
            let (es, done, rest) = drain(w.text);
            (es, done, StreamView { text: rest, held_cr: w.held_cr })
        }),
{
    let one = seq![c];
    assert(one.drop_first() =~= Seq::<Seq<u8>>::empty());
    assert(one[0] == c);
    let w = absorb(v, c);
    let d = drain(w.text);
    let u = StreamView { text: d.2, held_cr: w.held_cr };
    let none = Seq::<Seq<u8>>::empty();
    assert(read_chunks(u, none) == (Seq::<Seq<char>>::empty(), false, u));
    assert(d.0 + Seq::<Seq<char>>::empty() =~= d.0);
    assert(read_chunks(v, one) == if d.1 {
        (d.0, true, u)
    } else {
        (d.0 + read_chunks(u, none).0, read_chunks(u, none).1, read_chunks(u, none).2)
    });
}

/// Taking in the same bytes after two texts, with the same `'\r'` held,
/// appends the same normalized bytes to each.
proof fn lemma_absorb_same_tail(w: StreamView, r: Seq<u8>, f: Seq<u8>)
    ensures
        absorb(StreamView { text: r, held_cr: w.held_cr }, f) == (StreamView {
            text: r + absorb(w, f).text.skip(w.text.len() as int),
            held_cr: absorb(w, f).held_cr,
        }),
        absorb(w, f).text == w.text + absorb(w, f).text.skip(w.text.len() as int),
{
    let u = StreamView { text: r, held_cr: w.held_cr };
    let full = if w.held_cr {
        seq![CR] + f
    } else {
        f
    };
    let x = if full.len() > 0 && full.last() == CR {
        crlf_to_lf(full.drop_last())
    } else {
        crlf_to_lf(full)
    };
    assert(absorb(w, f).text == w.text + x);
    assert((w.text + x).skip(w.text.len() as int) =~= x);
    assert(absorb(u, f) =~= StreamView { text: r + x, held_cr: absorb(w, f).held_cr });
}

/// Law: the events a body yields do not depend on how the transport cuts
/// it into chunks: reading it chunk by chunk yields the same events, stops
/// at `[DONE]` alike, and otherwise leaves the decoder as reading it whole
/// does (so the end of the stream yields the same last event).
pub proof fn events_do_not_depend_on_chunking(v: StreamView, chunks: Seq<Seq<u8>>)
    requires
        blank_from(v.text, 0) is None,
    ensures
        ({
            let (es1, d1, v1) = read_chunks(v, chunks);
            let (es2, d2, v2) = read_chunks(v, seq![chunks.flatten()]);
            es1 == es2 && d1 == d2 && (!d1 ==> v1 == v2)
        }),
    decreases chunks.len(),
{
    lemma_read_single(v, chunks.flatten());
    if chunks.len() == 0 {
        lemma_absorb_empty(v);
        assert(chunks.flatten() =~= Seq::<u8>::empty());
        lemma_drain_nothing(v.text);
    } else {
        let c0 = chunks[0];
        let cs = chunks.drop_first();
        let f = cs.flatten();
        assert(chunks.flatten() == c0 + f);
        chunk_boundaries_do_not_matter(v, c0, f);
        let w = absorb(v, c0);
        let whole = absorb(w, f);
        assert(absorb(v, chunks.flatten()) == whole);
        let d = drain(w.text);
        let u = StreamView { text: d.2, held_cr: w.held_cr };
        lemma_absorb_same_tail(w, d.2, f);
        let delta = whole.text.skip(w.text.len() as int);
        lemma_drain_append(w.text, delta);
        assert(read_chunks(v, chunks) == if d.1 {
            (d.0, true, u)
        } else {
            (d.0 + read_chunks(u, cs).0, read_chunks(u, cs).1, read_chunks(u, cs).2)
        });
        if !d.1 {
            lemma_drain_leaves_pending(w.text);
            events_do_not_depend_on_chunking(u, cs);
            lemma_read_single(u, f);
            assert(absorb(u, f).text == d.2 + delta);
        }
    }
}

} // verus!

verus! {

/// Whether `s` holds no line break.
pub open spec fn single_line(s: Seq<char>) -> bool {
    forall|i: int| 0 <= i < s.len() ==> s[i] != '\n'
}

proof fn lemma_lines_single(s: Seq<char>)
    requires
        single_line(s),
    ensures
        lines(s) == seq![s],
    decreases s.len(),
{
    if s.len() > 0 {
        lemma_lines_single(s.drop_last());
        assert(s.drop_last().push(s.last()) =~= s);
        assert(seq![s.drop_last()].update(0, s.drop_last().push(s.last())) =~= seq![s]);
    } else {
        assert(s =~= Seq::<char>::empty());
    }
}

proof fn lemma_lines_newline(s: Seq<char>)
    ensures
        lines(s.push('\n')) == lines(s).push(Seq::empty()),
{
    assert(s.push('\n').drop_last() =~= s);
}

proof fn lemma_blank_after_line(b: Seq<u8>, n: nat, k: nat)
    requires
        k <= n,
        n + 1 < b.len(),
        b[n as int] == LF,
        b[n + 1int] == LF,
        forall|i: int| 0 <= i < n ==> b[i] != LF,
    ensures
        blank_from(b, k) == Some(n as int),
    decreases n - k,
{
    if k < n {
        lemma_blank_after_line(b, n, k + 1);
    }
}

/// The payload of the single-line event block `data: p`.
proof fn lemma_single_data_line(p: Seq<char>)
    requires
        single_line(p),
    ensures
        single_line("data: "@ + p),
        block_payload("data: "@ + p) == Some(p),
        block_payload(("data: "@ + p).push('\n').push('\n')) == Some(p),
{
    reveal_strlit("data: ");
    let s = "data: "@ + p;
    assert(single_line(s)) by {
        assert forall|i: int| 0 <= i < s.len() implies s[i] != '\n' by {
            if i >= 6 {
                assert(s[i] == p[i - 6]);
            }
        }
    }
    lemma_lines_single(s);
    assert(is_data_line(s));
    assert(s.skip(5) =~= seq![' '] + p);
    assert(data_value(s) =~= p);
    assert(seq![s].drop_last() =~= Seq::<Seq<char>>::empty());
    assert(data_values(Seq::<Seq<char>>::empty()) == Seq::<Seq<char>>::empty());
    assert(seq![s].last() == s);
    assert(data_values(seq![s]) =~= seq![p]);
    lemma_lines_newline(s);
    lemma_lines_newline(s.push('\n'));
    let ls = seq![s, Seq::<char>::empty(), Seq::<char>::empty()];
    assert(lines(s.push('\n').push('\n')) =~= ls);
    assert(ls.drop_last() =~= seq![s, Seq::<char>::empty()]);
    assert(ls.drop_last().drop_last() =~= seq![s]);
    assert(!is_data_line(Seq::<char>::empty()));
    assert(ls.last() == Seq::<char>::empty());
    assert(data_values(ls) == data_values(ls.drop_last()));
    assert(ls.drop_last().last() == Seq::<char>::empty());
    assert(data_values(ls.drop_last()) == data_values(ls.drop_last().drop_last()));
    assert(data_values(ls) == data_values(seq![s]));
}

/// The UTF-8 encoding of a character other than `'\n'` holds no `'\n'` byte.
proof fn lemma_encoded_char_has_no_lf(c: char)
    requires
        c != '\n',
    ensures
        forall|j: int|
            0 <= j < encode_scalar(c as u32).len() ==> #[trigger] encode_scalar(c as u32)[j] != LF,
{
    let v = c as u32;
    assert(v != 10u32);
    if has_width_1_encoding(v) {
        assert(leading_byte_width_1(v) != 10u8) by (bit_vector)
            requires
                v <= 0x7F,
                v != 10u32,
        ;
    } else {
        assert(last_continuation_byte(v) != 10u8) by (bit_vector);
        assert(second_last_continuation_byte(v) != 10u8) by (bit_vector);
        assert(third_last_continuation_byte(v) != 10u8) by (bit_vector);
        assert(leading_byte_width_2(v) != 10u8) by (bit_vector);
        assert(leading_byte_width_3(v) != 10u8) by (bit_vector);
        assert(leading_byte_width_4(v) != 10u8) by (bit_vector);
    }
}

/// The UTF-8 encoding of a single line holds no `'\n'` byte.
proof fn lemma_encoded_line_has_no_lf(s: Seq<char>)
    requires
        single_line(s),
    ensures
        forall|j: int| 0 <= j < encode_utf8(s).len() ==> #[trigger] encode_utf8(s)[j] != LF,
    decreases s.len(),
{
    if s.len() > 0 {
        let head = encode_scalar(s[0] as u32);
        let tail = s.drop_first();
        assert(single_line(tail)) by {
            assert forall|i: int| 0 <= i < tail.len() implies tail[i] != '\n' by {
                assert(tail[i] == s[i + 1]);
            }
        }
        lemma_encoded_char_has_no_lf(s[0]);
        lemma_encoded_line_has_no_lf(tail);
        assert forall|j: int| 0 <= j < encode_utf8(s).len() implies encode_utf8(s)[j] != LF by {
            if j >= head.len() {
                assert(encode_utf8(s)[j] == encode_utf8(tail)[j - head.len()]);
            } else {
                assert(encode_utf8(s)[j] == head[j]);
            }
        }
    }
}

/// Encoding two texts one after the other encodes their concatenation.
proof fn lemma_encode_concat(a: Seq<char>, b: Seq<char>)
    ensures
        encode_utf8(a + b) == encode_utf8(a) + encode_utf8(b),
    decreases a.len(),
{
    if a.len() == 0 {
        assert(a + b =~= b);
        assert(encode_utf8(a) + encode_utf8(b) =~= encode_utf8(b));
    } else {
        assert((a + b)[0] == a[0]);
        assert((a + b).drop_first() =~= a.drop_first() + b);
        lemma_encode_concat(a.drop_first(), b);
        assert(encode_utf8(a + b) =~= encode_utf8(a) + encode_utf8(b));
    }
}

/// The event block `data: p` followed by a blank line, as bytes.
proof fn lemma_encoded_event(p: Seq<char>)
    requires
        single_line(p),
    ensures
        encode_utf8("data: "@ + p) + seq![LF, LF] == encode_utf8(("data: "@ + p).push('\n').push('\n')),
        decoded_text(encode_utf8("data: "@ + p)) == "data: "@ + p,
        decoded_text(encode_utf8(("data: "@ + p).push('\n').push('\n'))) == ("data: "@ + p).push('\n').push('\n'),
{
    broadcast use vstd::utf8::group_utf8_lib;

    let s = "data: "@ + p;
    let nl = seq!['\n', '\n'];
    assert(s.push('\n').push('\n') =~= s + nl);
    lemma_encode_concat(s, nl);
    let lf = 10u32;
    assert(leading_byte_width_1(lf) == 10u8) by (bit_vector)
        requires
            lf == 10u32,
    ;
    assert(nl.drop_first() =~= seq!['\n']);
    assert(seq!['\n'].drop_first() =~= Seq::<char>::empty());
    assert(('\n' as u32) == lf);
    assert(encode_scalar(lf) =~= seq![LF]);
    assert(seq!['\n'][0] == '\n');
    assert(encode_utf8(seq!['\n']) =~= encode_scalar(lf) + encode_utf8(Seq::<char>::empty()));
    assert(encode_utf8(seq!['\n']) =~= seq![LF]);
    assert(encode_utf8(nl) =~= seq![LF, LF]);
}

/// Law: an event written as one `data:` line followed by a blank line is
/// read back whole: its payload is yielded (or the end of the stream, for
/// `[DONE]`), and what follows it stays buffered.
pub proof fn single_line_events_round_trip(p: Seq<char>, rest: Seq<u8>)
    requires
        single_line(p),
    ensures
        poll(encode_utf8("data: "@ + p) + seq![LF, LF] + rest) == if p == "[DONE]"@ {
            (Polled::Done, rest)
        } else {
            (Polled::Event(p), rest)
        },
{
    lemma_single_data_line(p);
    lemma_encoded_event(p);
    let s = "data: "@ + p;
    let e = encode_utf8(s);
    lemma_encoded_line_has_no_lf(s);
    let b = e + seq![LF, LF] + rest;
    let n = e.len();
    assert(b[n as int] == LF);
    assert(b[n + 1int] == LF);
    assert forall|i: int| 0 <= i < n implies b[i] != LF by {
        assert(b[i] == e[i]);
    }
    lemma_blank_after_line(b, n, 0);
    assert(b.take(n + 2int) =~= e + seq![LF, LF]);
    assert(b.skip(n + 2int) =~= rest);
}

/// Law: at the end of the stream, an unterminated last `data:` line is still
/// yielded, unless it is the `[DONE]` marker.
pub proof fn last_event_needs_no_blank_line(p: Seq<char>)
    requires
        single_line(p),
    ensures
        final_event(encode_utf8("data: "@ + p)) == if p == "[DONE]"@ {
            None
        } else {
            Some(p)
        },
{
    lemma_single_data_line(p);
    lemma_encoded_event(p);
    reveal_strlit("data: ");
    let s = "data: "@ + p;
    if encode_utf8(s).len() == 0 {
        assert(encode_utf8(s) =~= Seq::<u8>::empty());
        assert(decode_utf8(Seq::<u8>::empty()) =~= Seq::<char>::empty());
        assert(s.len() >= 6);
    }
}

proof fn lemma_lines_split(x: Seq<char>, y: Seq<char>)
    ensures
        lines(x + seq!['\n'] + y) == lines(x) + lines(y),
    decreases y.len(),
{
    let xy = x + seq!['\n'] + y;
    if y.len() == 0 {
        assert(xy =~= x.push('\n'));
        lemma_lines_newline(x);
        assert(lines(y) == seq![Seq::<char>::empty()]);
    } else {
        let y2 = y.drop_last();
        let c = y.last();
        lemma_lines_split(x, y2);
        assert(xy.drop_last() =~= x + seq!['\n'] + y2);
        assert(xy.last() == c);
        assert(y.drop_last() == y2);
        lemma_lines_nonempty(y2);
        lemma_lines_nonempty(x);
        let a = lines(x);
        let b = lines(y2);
        if c == '\n' {
            assert((a + b).push(Seq::empty()) =~= a + b.push(Seq::empty()));
        } else {
            assert((a + b).update((a + b).len() - 1, (a + b).last().push(c)) =~= a + b.update(
                b.len() - 1,
                b.last().push(c),
            ));
        }
    }
}

proof fn lemma_data_values_concat(a: Seq<Seq<char>>, b: Seq<Seq<char>>)
    ensures
        data_values(a + b) == data_values(a) + data_values(b),
    decreases b.len(),
{
    if b.len() == 0 {
        assert(a + b =~= a);
        assert(data_values(a) + Seq::<Seq<char>>::empty() =~= data_values(a));
    } else {
        lemma_data_values_concat(a, b.drop_last());
        assert((a + b).drop_last() =~= a + b.drop_last());
        assert((a + b).last() == b.last());
        if is_data_line(b.last()) {
            assert((data_values(a) + data_values(b.drop_last())).push(data_value(b.last()))
                =~= data_values(a) + data_values(b.drop_last()).push(data_value(b.last())));
        }
    }
}

proof fn lemma_data_line_value(p: Seq<char>)
    requires
        single_line(p),
    ensures
        lines("data: "@ + p) == seq!["data: "@ + p],
        data_values(seq!["data: "@ + p]) == seq![p],
{
    lemma_single_data_line(p);
    let a = "data: "@ + p;
    lemma_lines_single(a);
    assert(seq![a].drop_last() =~= Seq::<Seq<char>>::empty());
    assert(data_values(Seq::<Seq<char>>::empty()) == Seq::<Seq<char>>::empty());
    assert(seq![a].last() == a);
    assert(data_values(seq![a]).len() > 0);
    assert(data_values(seq![a]) =~= seq![data_value(a)]);
    assert(join_lines(seq![data_value(a)]) == data_value(a));
}

proof fn lemma_unspaced_data_line(p: Seq<char>)
    requires
        single_line(p),
        p.len() == 0 || p[0] != ' ',
    ensures
        block_payload("data:"@ + p) == Some(p),
{
    reveal_strlit("data:");
    let c = "data:"@ + p;
    assert(single_line(c)) by {
        assert forall|i: int| 0 <= i < c.len() implies c[i] != '\n' by {
            if i >= 5 {
                assert(c[i] == p[i - 5]);
            }
        }
    }
    lemma_lines_single(c);
    assert(is_data_line(c));
    assert(c.skip(5) =~= p);
    assert(seq![c].drop_last() =~= Seq::<Seq<char>>::empty());
    assert(data_values(Seq::<Seq<char>>::empty()) == Seq::<Seq<char>>::empty());
    assert(seq![c].last() == c);
    assert(data_values(seq![c]) =~= seq![data_value(c)]);
}

/// Law: an event written over two `data:` lines is read as their values
/// joined by a line break; a value written right after `data:`, with no
/// space, is read whole.
pub proof fn data_lines_are_joined_by_line_breaks(p: Seq<char>, q: Seq<char>)
    requires
        single_line(p),
        single_line(q),
    ensures
        block_payload("data: "@ + p + seq!['\n'] + "data: "@ + q) == Some(p + seq!['\n'] + q),
        p.len() == 0 || p[0] != ' ' ==> block_payload("data:"@ + p) == Some(p),
{
    let a = "data: "@ + p;
    let b = "data: "@ + q;
    lemma_data_line_value(p);
    lemma_data_line_value(q);
    assert(a + seq!['\n'] + b =~= "data: "@ + p + seq!['\n'] + "data: "@ + q);
    lemma_lines_split(a, b);
    lemma_data_values_concat(seq![a], seq![b]);
    assert(seq![a] + seq![b] =~= seq![a, b]);
    assert(seq![p] + seq![q] =~= seq![p, q]);
    lemma_join_push(seq![p], q);
    assert(seq![p].push(q) =~= seq![p, q]);
    assert(join_lines(seq![p]) == p);
    if p.len() == 0 || p[0] != ' ' {
        lemma_unspaced_data_line(p);
    }
}

/// Law: lines that are not `data:` fields (comments, `event:`, `id:`) add
/// nothing to a block's payload.
pub proof fn other_fields_are_ignored(ls: Seq<Seq<char>>, l: Seq<char>)
    requires
        !is_data_line(l),
    ensures
        data_values(ls.push(l)) == data_values(ls),
{
    assert(ls.push(l).drop_last() =~= ls);
}

} // verus!
