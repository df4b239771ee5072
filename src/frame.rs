//! Splitting an incremental byte source into complete JSON frames.
//!
//! The reader keeps one buffer across reads. A frame is the bytes of one
//! top-level JSON value; values may be separated by whitespace or follow each
//! other directly, and may arrive cut anywhere. Whether the buffer starts
//! with a whole value, with part of one, or with bytes that are not JSON is
//! decided by serde_json's stream deserializer.

use vstd::prelude::*;
use crate::error::ClaudeAgentError;
use crate::json::{check_json, json_lead, json_well_formed, lead_value, lossy_text, seq_of_bytes, utf8_lossy, LeadParse};
use vstd::string::{StrSliceExecFns, StringExecFns};

verus! {

/// The buffer bound used when none is given: 64 KiB.
pub const DEFAULT_MAX_BUFFER_SIZE: usize = 65536;

/// How many leading buffer characters an error message quotes.
pub const PREVIEW_LEN: usize = 100;

/// JSON whitespace: space, tab, line feed, carriage return.
pub open spec fn is_ws(b: u8) -> bool {
    b == 0x20u8 || b == 0x09u8 || b == 0x0au8 || b == 0x0du8
}

/// The index of the first non-whitespace byte of `s` at or after `i`, or the
/// length of `s` when there is none.
pub open spec fn first_non_ws(s: Seq<u8>, i: int) -> int
    decreases s.len() - i,
{
    if i < 0 || i >= s.len() {
        s.len() as int
    } else if is_ws(s[i]) {
        first_non_ws(s, i + 1)
    } else {
        i
    }
}

/// `s` without its leading whitespace.
pub open spec fn trim_start(s: Seq<u8>) -> Seq<u8> {
    s.subrange(first_non_ws(s, 0), s.len() as int)
}

/// Where the first value of the buffer `b` ends, when the parser found a
/// whole one.
pub open spec fn lead_end(b: Seq<u8>) -> Option<int> {
    match json_lead(b) {
        Some(n) => if 0 < n <= b.len() { Some(n) } else { None },
        None => None,
    }
}

/// The bytes of the first value of `b`, which ends after byte `n`.
pub open spec fn frame_of(b: Seq<u8>, n: int) -> Seq<u8> {
    trim_start(b.take(n))
}

/// Why a frame sequence stopped early.
#[derive(PartialEq, Eq)]
pub enum FrameFault {
    /// A complete value was not well-formed JSON.
    Malformed,
    /// The source ended inside a value, or with bytes that are not JSON.
    Truncated,
    /// The buffer would have grown past its bound.
    Overflow,
}

/// The frames a reader emits from buffer `buf` when the source still holds
/// `chunks`, read one at a time, with buffer bound `max`; and the fault that
/// ended them, if any.
pub open spec fn run(buf: Seq<u8>, chunks: Seq<Seq<u8>>, max: nat) -> (Seq<Seq<u8>>, Option<FrameFault>)
    decreases chunks.len(), buf.len(),
{
    let t = trim_start(buf);
    if t.len() > 0 && lead_end(buf) is Some {
        let n = lead_end(buf).unwrap();
        let rest = run(buf.skip(n), chunks, max);
        (seq![frame_of(buf, n)] + rest.0, rest.1)
    } else if t.len() > 0 && json_lead(buf) is None {
        (Seq::empty(), Some(FrameFault::Malformed))
    } else if chunks.len() == 0 {
        if t.len() == 0 {
            (Seq::empty(), None)
        } else if json_well_formed(t) {
            (seq![t], None)
        } else {
            (Seq::empty(), Some(FrameFault::Truncated))
        }
    } else {
        let kept = if t.len() == 0 { Seq::empty() } else { buf };
        if kept.len() + chunks[0].len() > max {
            (Seq::empty(), Some(FrameFault::Overflow))
        } else {
            run(kept + chunks[0], chunks.drop_first(), max)
        }
    }
}

/// `first_non_ws` stays within `i ..= s.len()`.
pub proof fn lemma_first_non_ws_bounds(s: Seq<u8>, i: int)
    requires
        0 <= i <= s.len(),
    ensures
        i <= first_non_ws(s, i) <= s.len(),
        first_non_ws(s, i) < s.len() ==> !is_ws(s[first_non_ws(s, i)]),
        forall|k: int| i <= k < first_non_ws(s, i) ==> is_ws(#[trigger] s[k]),
    decreases s.len() - i,
{
    if i < s.len() && is_ws(s[i]) {
        lemma_first_non_ws_bounds(s, i + 1);
    }
}

/// The error reported for bytes that are not JSON: serde_json's reason and
/// the first characters of the buffer.
pub open spec fn parse_error_detail(reason: Seq<char>, buf: Seq<u8>) -> Seq<char> {
    "Parse error: "@ + reason + ". Buffer preview: "@ + preview_of(utf8_lossy(buf))
}

/// The first characters of a text, at most `PREVIEW_LEN` of them.
pub open spec fn preview_of(text: Seq<char>) -> Seq<char> {
    if text.len() < PREVIEW_LEN { text } else { text.take(PREVIEW_LEN as int) }
}

/// What one attempt to take a frame from the buffer yields.
pub enum FramePoll {
    /// The bytes of one complete, well-formed value.
    Frame(Vec<u8>),
    /// No complete value is buffered yet: more bytes are needed.
    NeedMore,
    /// A complete value is not well-formed: a fatal decode error.
    Failed(ClaudeAgentError),
}

/// A frame reader: the buffer of not yet consumed bytes and its bound.
pub struct MessageReader {
    buffer: Vec<u8>,
    max_buffer_size: usize,
}

/// A copy of `v[from..to]`.
fn copy_range(v: &Vec<u8>, from: usize, to: usize) -> (r: Vec<u8>)
    requires
        from <= to <= v@.len(),
    ensures
        r@ == v@.subrange(from as int, to as int),
{
    let mut out: Vec<u8> = Vec::new();
    let mut i = from;
    while i < to
        invariant
            from <= i <= to <= v@.len(),
            out@ == v@.subrange(from as int, i as int),
        decreases to - i,
    {
        out.push(v[i]);
        proof {
            assert(out@ =~= v@.subrange(from as int, i + 1));
        }
        i = i + 1;
    }
    out
}

/// The error reported when the buffer would grow past its bound.
pub open spec fn is_overflow_error(e: ClaudeAgentError) -> bool {
    e matches ClaudeAgentError::Transport(d) && d@ == "Buffer overflow"@
}

/// `e` is the error that reports `fault`.
pub open spec fn reports(e: ClaudeAgentError, fault: FrameFault) -> bool {
    match fault {
        FrameFault::Overflow => is_overflow_error(e),
        FrameFault::Malformed => e is JSONDecode,
        FrameFault::Truncated => e is JSONDecode,
    }
}

impl MessageReader {
    /// The bytes received and not yet consumed.
    pub closed spec fn buffered(&self) -> Seq<u8> {
        self.buffer@
    }

    /// The most bytes the buffer may hold.
    pub closed spec fn max_size(&self) -> nat {
        self.max_buffer_size as nat
    }

    /// A reader with an empty buffer bounded by 64 KiB.
    pub fn new() -> (r: Self)
        ensures
            r.buffered() == Seq::<u8>::empty(),
            r.max_size() == DEFAULT_MAX_BUFFER_SIZE,
    {
        MessageReader { buffer: Vec::new(), max_buffer_size: DEFAULT_MAX_BUFFER_SIZE }
    }

    /// A reader with an empty buffer bounded by `max_size` bytes.
    pub fn with_capacity(max_size: usize) -> (r: Self)
        ensures
            r.buffered() == Seq::<u8>::empty(),
            r.max_size() == max_size,
    {
        MessageReader { buffer: Vec::new(), max_buffer_size: max_size }
    }

    /// Appends bytes read from the source. Fails, keeping the buffer as it
    /// was, when the buffer would grow past its bound.
    pub fn feed(&mut self, chunk: &[u8]) -> (r: Result<(), ClaudeAgentError>)
        ensures
            final(self).max_size() == old(self).max_size(),
            old(self).buffered().len() + chunk@.len() > old(self).max_size() ==> {
                &&& r matches Err(e) && is_overflow_error(e)
                &&& final(self).buffered() == old(self).buffered()
            },
            old(self).buffered().len() + chunk@.len() <= old(self).max_size() ==> {
                &&& r is Ok
                &&& final(self).buffered() == old(self).buffered() + chunk@
            },
    {
        let n = chunk.len();
        if n > self.max_buffer_size || self.buffer.len() > self.max_buffer_size - n {
            return Err(ClaudeAgentError::Transport(String::from_str("Buffer overflow")));
        }
        let ghost before = self.buffer@;
        let mut i: usize = 0;
        while i < n
            invariant
                0 <= i <= n == chunk@.len(),
                self.buffer@ == before + chunk@.subrange(0, i as int),
                self.max_buffer_size == old(self).max_buffer_size,
            decreases n - i,
        {
            self.buffer.push(chunk[i]);
            proof {
                assert(self.buffer@ =~= before + chunk@.subrange(0, i + 1));
            }
            i = i + 1;
        }
        proof {
            assert(chunk@.subrange(0, n as int) =~= chunk@);
        }
        Ok(())
    }

    /// Takes the first complete value out of the buffer, if there is one.
    ///
    /// A buffer of whitespace only is cleared. Otherwise serde_json reads a
    /// first value: a whole one is removed with the whitespace before it and
    /// returned; bytes that end inside a value are kept for more input; bytes
    /// that are not JSON are reported, with a preview of the buffer, and
    /// left in place.
    pub fn next_frame(&mut self) -> (r: FramePoll)
        ensures
            final(self).max_size() == old(self).max_size(),
            ({
                let b = old(self).buffered();
                if trim_start(b).len() == 0 {
                    &&& r is NeedMore
                    &&& final(self).buffered() == Seq::<u8>::empty()
                } else if lead_end(b) is Some {
                    &&& r matches FramePoll::Frame(f) && f@ == frame_of(b, lead_end(b).unwrap())
                    &&& final(self).buffered() == b.skip(lead_end(b).unwrap())
                } else if json_lead(b) is None {
                    &&& r matches FramePoll::Failed(err) && (err matches ClaudeAgentError::JSONDecode(d)
                        && exists|reason: Seq<char>| d@ == parse_error_detail(reason, b))
                    &&& final(self).buffered() == b
                } else {
                    &&& r is NeedMore
                    &&& final(self).buffered() == b
                }
            }),
    {
        let ghost b = self.buffer@;
        let len = self.buffer.len();
        let mut start: usize = 0;
        while start < len && (self.buffer[start] == 0x20u8 || self.buffer[start] == 0x09u8
            || self.buffer[start] == 0x0au8 || self.buffer[start] == 0x0du8)
            invariant
                0 <= start <= len == b.len(),
                self.buffer@ == b,
                first_non_ws(b, 0) == first_non_ws(b, start as int),
            decreases len - start,
        {
            start = start + 1;
        }
        assert(trim_start(b) == b.subrange(start as int, len as int));
        if start == len {
            self.buffer.clear();
            return FramePoll::NeedMore;
        }
        match lead_value(self.buffer.as_slice()) {
            LeadParse::Incomplete => FramePoll::NeedMore,
            LeadParse::Complete(end) => {
                let frame = copy_range(&self.buffer, start, end);
                proof {
                    lemma_first_non_ws_prefix(b, end as int, 0);
                    assert(frame@ =~= frame_of(b, end as int));
                }
                self.buffer = copy_range(&self.buffer, end, len);
                assert(self.buffer@ =~= b.skip(end as int));
                FramePoll::Frame(frame)
            },
            LeadParse::Malformed(reason) => {
                let text = lossy_text(self.buffer.as_slice());
                let count = text.as_str().unicode_len();
                let shown = if count < PREVIEW_LEN { count } else { PREVIEW_LEN };
                let preview = text.as_str().substring_char(0, shown);
                proof {
                    assert(text@.subrange(0, count as int) =~= text@);
                }
                let mut detail = String::from_str("Parse error: ");
                detail.append(reason.as_str());
                detail.append(". Buffer preview: ");
                detail.append(preview);
                assert(detail@ =~= parse_error_detail(reason@, b));
                FramePoll::Failed(ClaudeAgentError::JSONDecode(detail))
            },
        }
    }

    /// At the end of the source: the rest of the buffer, which must then be
    /// one well-formed value or whitespace. The buffer is left empty.
    pub fn finish(&mut self) -> (r: Option<Result<Vec<u8>, ClaudeAgentError>>)
        ensures
            final(self).max_size() == old(self).max_size(),
            final(self).buffered() == Seq::<u8>::empty(),
            ({
                let t = trim_start(old(self).buffered());
                if t.len() == 0 {
                    r is None
                } else if json_well_formed(t) {
                    r matches Some(Ok(f)) && f@ == t
                } else {
                    r matches Some(Err(e)) && (e matches ClaudeAgentError::JSONDecode(d)
                        && exists|reason: Seq<char>| d@ == "EOF with invalid json: "@ + reason)
                }
            }),
    {
        let ghost b = self.buffer@;
        let len = self.buffer.len();
        let mut start: usize = 0;
        while start < len && (self.buffer[start] == 0x20u8 || self.buffer[start] == 0x09u8
            || self.buffer[start] == 0x0au8 || self.buffer[start] == 0x0du8)
            invariant
                0 <= start <= len == b.len(),
                self.buffer@ == b,
                first_non_ws(b, 0) == first_non_ws(b, start as int),
            decreases len - start,
        {
            start = start + 1;
        }
        let rest = copy_range(&self.buffer, start, len);
        assert(rest@ == trim_start(b));
        self.buffer.clear();
        if start == len {
            return None;
        }
        match check_json(rest.as_slice()) {
            Ok(()) => Some(Ok(rest)),
            Err(reason) => {
                let mut detail = String::from_str("EOF with invalid json: ");
                detail.append(reason.as_str());
                Some(Err(ClaudeAgentError::JSONDecode(detail)))
            },
        }
    }
}

/// Runs a reader bounded by `max_buffer_size` over a source that delivers
/// `chunks` one read at a time and then ends. Returns the frames emitted, in
/// order, and the fatal error that stopped the sequence, if any.
pub fn read_frames(chunks: &Vec<Vec<u8>>, max_buffer_size: usize) -> (r: (Vec<Vec<u8>>, Option<ClaudeAgentError>))
    ensures
        seq_of_bytes(r.0@) == run(Seq::empty(), seq_of_bytes(chunks@), max_buffer_size as nat).0,
        match run(Seq::empty(), seq_of_bytes(chunks@), max_buffer_size as nat).1 {
            None => r.1.is_none(),
            Some(fault) => r.1 matches Some(e) && reports(e, fault),
        },
{
    let ghost c = seq_of_bytes(chunks@);
    let ghost whole = run(Seq::empty(), c, max_buffer_size as nat);
    let mut reader = MessageReader::with_capacity(max_buffer_size);
    let mut out: Vec<Vec<u8>> = Vec::new();
    let mut k: usize = 0;
    assert(c.skip(0) =~= c);
    assert(seq_of_bytes(out@) + whole.0 =~= whole.0);
    loop
        invariant
            0 <= k <= chunks@.len(),
            c == seq_of_bytes(chunks@),
            whole == run(Seq::empty(), c, max_buffer_size as nat),
            reader.max_size() == max_buffer_size,
            whole.0 == seq_of_bytes(out@) + run(reader.buffered(), c.skip(k as int), max_buffer_size as nat).0,
            whole.1 == run(reader.buffered(), c.skip(k as int), max_buffer_size as nat).1,
        decreases chunks@.len() - k, reader.buffered().len(),
    {
        let ghost buf = reader.buffered();
        let ghost rest = run(buf, c.skip(k as int), max_buffer_size as nat);
        proof {
            lemma_first_non_ws_bounds(buf, 0);
        }
        match reader.next_frame() {
            FramePoll::Frame(f) => {
                let ghost old_out = out@;
                out.push(f);
                proof {
                    assert(seq_of_bytes(out@) =~= seq_of_bytes(old_out).push(f@));
                    assert(whole.0 =~= seq_of_bytes(out@) + run(reader.buffered(), c.skip(k as int), max_buffer_size as nat).0);
                }
            },
            FramePoll::Failed(e) => {
                assert(whole.0 =~= seq_of_bytes(out@));
                return (out, Some(e));
            },
            FramePoll::NeedMore => {
                if k == chunks.len() {
                    assert(c.skip(k as int).len() == 0);
                    match reader.finish() {
                        None => {
                            assert(whole.0 =~= seq_of_bytes(out@));
                            return (out, None);
                        },
                        Some(Ok(f)) => {
                            let ghost old_out = out@;
                            out.push(f);
                            assert(seq_of_bytes(out@) =~= seq_of_bytes(old_out).push(f@));
                            assert(whole.0 =~= seq_of_bytes(out@));
                            return (out, None);
                        },
                        Some(Err(e)) => {
                            assert(whole.0 =~= seq_of_bytes(out@));
                            return (out, Some(e));
                        },
                    }
                }
                assert(c.skip(k as int)[0] == chunks@[k as int]@);
                assert(c.skip(k as int).drop_first() =~= c.skip(k + 1));
                match reader.feed(chunks[k].as_slice()) {
                    Err(e) => {
                        assert(whole.0 =~= seq_of_bytes(out@));
                        return (out, Some(e));
                    },
                    Ok(()) => {
                        k = k + 1;
                    },
                }
            },
        }
    }
}

/// Within the first `k` bytes of `s`, which reach past its first
/// non-whitespace byte, that byte is found at the same place.
proof fn lemma_first_non_ws_prefix(s: Seq<u8>, k: int, i: int)
    requires
        0 <= i <= k <= s.len(),
        first_non_ws(s, i) < k,
    ensures
        first_non_ws(s.take(k), i) == first_non_ws(s, i),
    decreases k - i,
{
    lemma_first_non_ws_bounds(s, i);
    if i < k {
        assert(s.take(k)[i] == s[i]);
        if is_ws(s[i]) {
            lemma_first_non_ws_prefix(s, k, i + 1);
        }
    }
}

} // verus!
