use vstd::prelude::*;

verus! {

/// Growable in-memory sink for the bytes that the engine produces when it
/// serialises a context. The engine hands it one chunk at a time.
pub struct VectorWriter {
    buf: Vec<u8>,
}

impl View for VectorWriter {
    type V = Seq<u8>;

    closed spec fn view(&self) -> Seq<u8> {
        self.buf@
    }
}

impl VectorWriter {
    /// A writer that holds nothing yet.
    pub fn new() -> (r: VectorWriter)
        ensures
            r@ == Seq::<u8>::empty(),
    {
        VectorWriter { buf: Vec::new() }
    }

    /// Appends one chunk: the buffer grows by exactly the chunk's length and
    /// ends with the chunk. Always succeeds, so the status handed back to the
    /// engine is the success code.
    pub fn write(&mut self, data: &[u8]) -> (status: u32)
        ensures
            final(self)@ == old(self)@ + data@,
            status == crate::error::NATIVE_OK,
    {
        let ghost start = self.buf@;
        let mut i: usize = 0;
        while i < data.len()
            invariant
                i <= data@.len(),
                self.buf@ == start + data@.subrange(0, i as int),
            decreases data@.len() - i,
        {
            self.buf.push(data[i]);
            proof {
                assert(data@.subrange(0, i + 1) == data@.subrange(0, i as int).push(data@[i as int]));
            }
            i = i + 1;
        }
        proof {
            assert(data@.subrange(0, data@.len() as int) == data@);
        }
        crate::error::NATIVE_OK
    }

    /// Number of bytes held so far.
    pub fn len(&self) -> (r: usize)
        ensures
            r == self@.len(),
    {
        self.buf.len()
    }

    /// Hands over the bytes written so far.
    pub fn into_bytes(self) -> (r: Vec<u8>)
        ensures
            r@ == self@,
    {
        self.buf
    }
}

} // verus!
