//! The receive buffer of a tube: a FIFO of bytes that can also be pushed
//! back at its front.
use vstd::prelude::*;

verus! {

/// The bytes that `take(n)` hands out of the sequence `s`.
pub open spec fn taken(s: Seq<u8>, n: nat) -> Seq<u8> {
    if n >= s.len() {
        s
    } else {
        s.subrange(0, n as int)
    }
}

/// The bytes that stay in the sequence `s` after `take(n)`.
pub open spec fn remaining(s: Seq<u8>, n: nat) -> Seq<u8> {
    if n >= s.len() {
        Seq::empty()
    } else {
        s.subrange(n as int, s.len() as int)
    }
}

/// Data handed to a buffer: loose bytes, or the contents of another buffer.
pub enum BufData {
    ByteVec(Vec<u8>),
    Buffer(Buffer),
}

impl BufData {
    /// The bytes this value carries.
    pub open spec fn bytes(&self) -> Seq<u8> {
        match self {
            BufData::ByteVec(v) => v@,
            BufData::Buffer(b) => b@,
        }
    }

    /// A carried buffer is well formed.
    pub open spec fn wf(&self) -> bool {
        match self {
            BufData::ByteVec(_) => true,
            BufData::Buffer(b) => b.wf(),
        }
    }
}

/// An ordered byte queue: bytes in order of arrival, after all pushes to
/// the front.
#[derive(Clone, Debug)]
pub struct Buffer {
    pub data: Vec<u8>,
    size: usize,
    buffer_fill_size: Option<usize>,
}

impl View for Buffer {
    type V = Seq<u8>;

    closed spec fn view(&self) -> Seq<u8> {
        self.data@
    }
}

impl Default for Buffer {
    fn default() -> (r: Buffer)
        ensures
            r.wf(),
            r@ == Seq::<u8>::empty(),
            r.fill_size() == None::<usize>,
    {
        Buffer { data: Vec::new(), size: 0, buffer_fill_size: None }
    }
}

impl Buffer {
    /// The recorded length agrees with the stored bytes.
    pub closed spec fn wf(&self) -> bool {
        self.size == self.data@.len()
    }

    /// The fill size configured for this buffer, if any.
    pub closed spec fn fill_size(&self) -> Option<usize> {
        self.buffer_fill_size
    }

    /// The number of bytes held.
    pub fn len(&self) -> (r: usize)
        requires
            self.wf(),
        ensures
            r == self@.len(),
    {
        self.size
    }

    /// Whether no byte is held.
    pub fn is_empty(&self) -> (r: bool)
        requires
            self.wf(),
        ensures
            r == (self@.len() == 0),
    {
        self.size == 0
    }

    /// The amount to read: the request if given, else the configured fill
    /// size, else 4096.
    pub fn get_fill_size(&self, size: Option<usize>) -> (r: usize)
        ensures
            r == match size {
                Some(s) => s,
                None => match self.fill_size() {
                    Some(f) => f,
                    None => 4096,
                },
            },
    {
        if let Some(size) = size {
            size
        } else if let Some(size) = self.buffer_fill_size {
            size
        } else {
            4096
        }
    }

    /// Appends the bytes of `data` at the back, leaving `data` empty.
    pub fn add(&mut self, data: &mut BufData)
        requires
            old(self).wf(),
            old(data).wf(),
            old(self)@.len() + old(data).bytes().len() <= usize::MAX,
        ensures
            final(self).wf(),
            final(self)@ == old(self)@ + old(data).bytes(),
            final(self).fill_size() == old(self).fill_size(),
            final(data).wf(),
            final(data).bytes() == Seq::<u8>::empty(),
    {
        match data {
            BufData::ByteVec(data) => {
                self.size = self.size + data.len();
                self.data.append(data);
            },
            BufData::Buffer(buf) => {
                self.size = self.size + buf.len();
                self.data.append(&mut buf.data);
                buf.size = 0;
            },
        }
    }

    /// Pushes the bytes of `data` back at the front, keeping their order.
    pub fn unget(&mut self, data: BufData)
        requires
            old(self).wf(),
            data.wf(),
            old(self)@.len() + data.bytes().len() <= usize::MAX,
        ensures
            final(self).wf(),
            final(self)@ == data.bytes() + old(self)@,
            final(self).fill_size() == old(self).fill_size(),
    {
        let mut front = match data {
            BufData::ByteVec(v) => v,
            BufData::Buffer(b) => b.data,
        };
        self.size = self.size + front.len();
        front.append(&mut self.data);
        self.data = front;
    }

    /// Takes up to `want` bytes from the front: all of them when `want` is at
    /// least the length.
    pub fn get(&mut self, want: usize) -> (r: Vec<u8>)
        requires
            old(self).wf(),
        ensures
            final(self).wf(),
            r@ == taken(old(self)@, want as nat),
            final(self)@ == remaining(old(self)@, want as nat),
            final(self).fill_size() == old(self).fill_size(),
    {
        if want >= self.size {
            self.size = 0;
            let mut out = Vec::new();
            std::mem::swap(&mut out, &mut self.data);
            return out;
        }
        self.size = self.size - want;
        let mut out = self.data.split_off(want);
        std::mem::swap(&mut out, &mut self.data);
        out
    }
}

/// Adding `a` then `b` to an empty buffer and taking `n` bytes leaves
/// `(a ++ b)[n..]`, or nothing when `n` reaches past the end.
pub proof fn lemma_add_add_take(a: Seq<u8>, b: Seq<u8>, n: nat)
    ensures
        remaining(Seq::<u8>::empty() + a + b, n) == if n <= a.len() + b.len() {
            (a + b).subrange(n as int, (a + b).len() as int)
        } else {
            Seq::<u8>::empty()
        },
{
    assert(Seq::<u8>::empty() + a + b =~= a + b);
    if n == a.len() + b.len() {
        assert((a + b).subrange(n as int, (a + b).len() as int) =~= Seq::<u8>::empty());
    }
}

/// Pushing `x` back and then taking `|x|` bytes hands out exactly `x`.
pub proof fn lemma_unget_take(x: Seq<u8>, s: Seq<u8>)
    ensures
        taken(x + s, x.len()) == x,
        remaining(x + s, x.len()) == s,
{
    if s.len() == 0 {
        assert(x + s =~= x);
    } else {
        assert((x + s).subrange(0, x.len() as int) =~= x);
        assert((x + s).subrange(x.len() as int, (x + s).len() as int) =~= s);
    }
}

} // verus!
