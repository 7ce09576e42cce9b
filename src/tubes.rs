//! The decisions of a buffered, timeout-bounded byte channel. The transport
//! itself (a child process, a TCP stream) lives outside this library: it
//! hands bytes in and carries bytes out, and the functions here decide what
//! is returned, what stays buffered, and when to ask the transport again.
use vstd::prelude::*;
use crate::context::Context;
use crate::timer::TimeoutVal;
use crate::tubes::buffer::{BufData, Buffer, remaining, taken};

pub mod buffer;
pub mod process;

verus! {

/// The timeout that the context configures.
pub fn context_timeout(ctx: &Context) -> (r: TimeoutVal)
    ensures
        r == ctx.timeout,
{
    ctx.timeout
}

/// `needle` occurs in `data` starting at `i`.
pub open spec fn matches_at(data: Seq<u8>, needle: Seq<u8>, i: int) -> bool {
    0 <= i && i + needle.len() <= data.len() && data.subrange(i, i + needle.len()) == needle
}

/// The first position at which `needle` occurs in `data`, if any.
pub fn find_needle(data: &[u8], needle: &[u8]) -> (r: Option<usize>)
    requires
        needle@.len() >= 1,
    ensures
        match r {
            Some(i) => matches_at(data@, needle@, i as int) && forall|j: int|
                0 <= j < i ==> !matches_at(data@, needle@, j),
            None => forall|j: int| !matches_at(data@, needle@, j),
        },
{
    let n = needle.len();
    if data.len() < n {
        return None;
    }
    let mut i: usize = 0;
    let dlen = data.len();
    let last = dlen - n;
    while i <= last
        invariant
            n == needle@.len(),
            n >= 1,
            n <= data@.len(),
            last == data@.len() - n,
            dlen == data@.len(),
            i <= last + 1,
            forall|j: int| 0 <= j < i ==> !matches_at(data@, needle@, j),
        decreases data@.len() - i,
    {
        let mut k: usize = 0;
        while k < n && data[i + k] == needle[k]
            invariant
                0 <= k <= n,
                n == needle@.len(),
                i + n <= data@.len(),
                dlen == data@.len(),
                forall|t: int| 0 <= t < k ==> data@[i + t] == needle@[t],
            decreases n - k,
        {
            k = k + 1;
        }
        if k == n {
            assert(data@.subrange(i as int, i + n) =~= needle@);
            return Some(i);
        }
        assert(data@.subrange(i as int, i + n)[k as int] != needle@[k as int]);
        i = i + 1;
    }
    None
}

/// Whether `recv(numb)` must ask the transport before answering: the
/// buffer holds less than the amount asked.
pub fn needs_fill(buffer: &Buffer, numb: Option<usize>) -> (r: bool)
    requires
        buffer.wf(),
    ensures
        r == (fill_request(buffer, numb) > buffer@.len()),
{
    buffer.get_fill_size(numb) > buffer.len()
}

/// The amount that `recv(numb)` hands out at most.
pub open spec fn fill_request(buffer: &Buffer, numb: Option<usize>) -> usize {
    match numb {
        Some(s) => s,
        None => match buffer.fill_size() {
            Some(f) => f,
            None => 4096,
        },
    }
}

/// Ends `recv(numb)`: the bytes that the transport gave (none when it was
/// not asked, or when it timed out) join the buffer, and up to the amount
/// asked is handed out from the front.
pub fn finish_recv(buffer: &mut Buffer, numb: Option<usize>, received: Vec<u8>) -> (r: Vec<u8>)
    requires
        old(buffer).wf(),
        old(buffer)@.len() + received@.len() <= usize::MAX,
    ensures
        final(buffer).wf(),
        final(buffer).fill_size() == old(buffer).fill_size(),
        r@ == taken(old(buffer)@ + received@, fill_request(old(buffer), numb) as nat),
        final(buffer)@ == remaining(old(buffer)@ + received@, fill_request(old(buffer), numb) as nat),
{
    let want = buffer.get_fill_size(numb);
    let mut data = BufData::ByteVec(received);
    buffer.add(&mut data);
    buffer.get(want)
}

/// The bytes of `data` followed by a newline.
pub fn line_of(data: &[u8]) -> (r: Vec<u8>)
    ensures
        r@ == data@.push(10u8),
{
    let mut v: Vec<u8> = Vec::new();
    v.extend_from_slice(data);
    v.push(10u8);
    proof {
        assert forall|i: int| 0 <= i < data@.len() implies v@[i] == data@[i] by {
            assert(cloned::<u8>(data@[i], v@[i]));
        }
        assert(v@ =~= data@.push(10u8));
    }
    v
}

/// A received line without its last byte, the newline that ended it.
pub fn strip_line(line: Vec<u8>) -> (r: Vec<u8>)
    ensures
        r@ == if line@.len() > 0 {
            line@.drop_last()
        } else {
            line@
        },
{
    let mut line = line;
    line.pop();
    line
}

/// What a wait for a needle does next.
pub enum UntilStep {
    /// The needle was found: the bytes up to and with it.
    Found(Vec<u8>),
    /// The deadline passed first: everything received was pushed back.
    TimedOut,
    /// More bytes are needed.
    Pending,
}

/// A receive that waits for a needle: the bytes gathered so far, and the
/// needle.
pub struct RecvUntil {
    data: Vec<u8>,
    needle: Vec<u8>,
}

impl RecvUntil {
    /// The bytes gathered so far.
    pub closed spec fn gathered(&self) -> Seq<u8> {
        self.data@
    }

    /// The needle waited for.
    pub closed spec fn needle_spec(&self) -> Seq<u8> {
        self.needle@
    }

    /// Begins the wait: everything buffered is gathered first.
    pub fn start(buffer: &mut Buffer, needle: &[u8]) -> (r: RecvUntil)
        requires
            old(buffer).wf(),
            needle@.len() >= 1,
        ensures
            final(buffer).wf(),
            final(buffer)@ == Seq::<u8>::empty(),
            final(buffer).fill_size() == old(buffer).fill_size(),
            r.gathered() == old(buffer)@,
            r.needle_spec() == needle@,
            r.needle_spec().len() >= 1,
    {
        let n = buffer.len();
        let data = buffer.get(n);
        let mut nv: Vec<u8> = Vec::new();
        nv.extend_from_slice(needle);
        proof {
            assert forall|i: int| 0 <= i < needle@.len() implies nv@[i] == needle@[i] by {
                assert(cloned::<u8>(needle@[i], nv@[i]));
            }
            assert(nv@ =~= needle@);
        }
        RecvUntil { data, needle: nv }
    }

    /// Adds bytes that the transport gave.
    pub fn feed(&mut self, bytes: Vec<u8>)
        requires
            old(self).gathered().len() + bytes@.len() <= usize::MAX,
        ensures
            final(self).gathered() == old(self).gathered() + bytes@,
            final(self).needle_spec() == old(self).needle_spec(),
    {
        let mut bytes = bytes;
        self.data.append(&mut bytes);
    }

    /// Decides the wait. When the needle occurs in what was gathered, the
    /// bytes up to the end of its first occurrence are handed out and the
    /// rest is pushed back into `buffer`. Otherwise, once `expired`, all that
    /// was gathered is pushed back and the wait has timed out; before that,
    /// more bytes are needed.
    pub fn step(&mut self, buffer: &mut Buffer, expired: bool) -> (r: UntilStep)
        requires
            old(buffer).wf(),
            old(self).needle_spec().len() >= 1,
            old(self).gathered().len() + old(buffer)@.len() <= usize::MAX,
        ensures
            final(buffer).wf(),
            final(buffer).fill_size() == old(buffer).fill_size(),
            final(self).needle_spec() == old(self).needle_spec(),
            ({
                let d = old(self).gathered();
                let n = old(self).needle_spec();
                match r {
                    UntilStep::Found(p) => {
                        &&& n.len() <= p@.len() <= d.len()
                        &&& matches_at(d, n, p@.len() - n.len())
                        &&& forall|j: int| 0 <= j < p@.len() - n.len() ==> !matches_at(d, n, j)
                        &&& p@ == d.subrange(0, p@.len() as int)
                        &&& final(buffer)@ == d.subrange(p@.len() as int, d.len() as int) + old(buffer)@
                        &&& final(self).gathered() == Seq::<u8>::empty()
                    },
                    UntilStep::TimedOut => {
                        &&& expired
                        &&& forall|j: int| !matches_at(d, n, j)
                        &&& final(buffer)@ == d + old(buffer)@
                        &&& final(self).gathered() == Seq::<u8>::empty()
                    },
                    UntilStep::Pending => {
                        &&& !expired
                        &&& forall|j: int| !matches_at(d, n, j)
                        &&& final(buffer)@ == old(buffer)@
                        &&& final(self).gathered() == d
                    },
                }
            }),
    {
        match find_needle(self.data.as_slice(), self.needle.as_slice()) {
            Some(idx) => {
                let end = idx + self.needle.len();
                let rest = self.data.split_off(end);
                let mut found: Vec<u8> = Vec::new();
                std::mem::swap(&mut found, &mut self.data);
                buffer.unget(BufData::ByteVec(rest));
                UntilStep::Found(found)
            },
            None => {
                if expired {
                    let mut all: Vec<u8> = Vec::new();
                    std::mem::swap(&mut all, &mut self.data);
                    buffer.unget(BufData::ByteVec(all));
                    UntilStep::TimedOut
                } else {
                    UntilStep::Pending
                }
            },
        }
    }
}

/// How a timed read of the transport ended.
pub enum ReadOutcome {
    /// The deadline passed first.
    TimedOut,
    /// The read returned.
    Returned,
    /// The read failed.
    Failed(std::io::Error),
}

/// What a raw receive reports.
pub enum RawRecv {
    /// These bytes arrived; none when the deadline passed.
    Bytes(Vec<u8>),
    /// The stream has ended and nothing remains: the peer is gone.
    Exited,
    /// The read failed.
    Failed(std::io::Error),
}

/// Decides a raw receive from how the read ended and the bytes it gathered:
/// a deadline is no error, an ended stream with nothing read means the
/// peer is gone, and a failure is passed on.
pub fn raw_recv_result(outcome: ReadOutcome, got: Vec<u8>) -> (r: RawRecv)
    ensures
        match outcome {
            ReadOutcome::TimedOut => r matches RawRecv::Bytes(b) && b@ == got@,
            ReadOutcome::Returned => if got@.len() == 0 {
                r is Exited
            } else {
                r matches RawRecv::Bytes(b) && b@ == got@
            },
            ReadOutcome::Failed(e) => r matches RawRecv::Failed(f) && f == e,
        },
{
    match outcome {
        ReadOutcome::TimedOut => RawRecv::Bytes(got),
        ReadOutcome::Returned => {
            if got.len() == 0 {
                RawRecv::Exited
            } else {
                RawRecv::Bytes(got)
            }
        },
        ReadOutcome::Failed(e) => RawRecv::Failed(e),
    }
}

/// How a poll of the transport for the interactive session ended.
pub enum PollOutcome {
    /// Bytes arrived (possibly none).
    Data(Vec<u8>),
    /// The peer is gone.
    Closed(String),
    /// Another error, which the session rides out.
    Failed,
}

/// What the output side of an interactive session does next.
pub enum PumpAction {
    /// Show the bytes and poll again.
    Continue(Vec<u8>),
    /// The input side has ended: stop quietly.
    Stop,
    /// The peer is gone: stop the session with this error.
    Fail(String),
}

/// Decides the output side of an interactive session after one poll, while
/// the input side reports `cont`.
pub fn pump_step(outcome: PollOutcome, cont: bool) -> (r: PumpAction)
    ensures
        match outcome {
            PollOutcome::Closed(m) => r matches PumpAction::Fail(e) && e@ == m@,
            PollOutcome::Data(d) => if cont {
                r matches PumpAction::Continue(e) && e@ == d@
            } else {
                r == PumpAction::Stop
            },
            PollOutcome::Failed => if cont {
                r matches PumpAction::Continue(d) && d@.len() == 0
            } else {
                r == PumpAction::Stop
            },
        },
{
    match outcome {
        PollOutcome::Closed(m) => PumpAction::Fail(m),
        PollOutcome::Data(d) => {
            if cont {
                PumpAction::Continue(d)
            } else {
                PumpAction::Stop
            }
        },
        PollOutcome::Failed => {
            if cont {
                PumpAction::Continue(Vec::new())
            } else {
                PumpAction::Stop
            }
        },
    }
}

} // verus!
