use vstd::prelude::*;

verus! {

/// The bytes a program sent through the serial port, kept until they are
/// handed out.
#[derive(Debug)]
pub struct SerialOutput {
    buffer: Vec<u8>,
}

impl SerialOutput {
    pub closed spec fn bytes(&self) -> Seq<u8> {
        self.buffer@
    }

    pub fn new() -> (s: SerialOutput)
        ensures
            s.bytes() == Seq::<u8>::empty(),
    {
        SerialOutput { buffer: Vec::new() }
    }

    /// Appends a byte.
    pub fn write_byte(&mut self, data: u8)
        ensures
            final(self).bytes() == old(self).bytes().push(data),
    {
        self.buffer.push(data);
    }

    /// The bytes held, in the order they were written.
    pub fn read_bytes(&self) -> (r: Vec<u8>)
        ensures
            r@ == self.bytes(),
    {
        self.buffer.clone()
    }

    /// Hands out the bytes held, in order, and empties the buffer.
    pub fn output(&mut self) -> (r: Vec<u8>)
        ensures
            r@ == old(self).bytes(),
            final(self).bytes() == Seq::<u8>::empty(),
    {
        let r: Vec<u8> = self.buffer.clone();
        self.buffer.clear();
        r
    }
}

} // verus!
