//! Buffers that collect the body of a response as it arrives in pieces.
use vstd::prelude::*;

verus! {

/// Collects the bytes of a body.
#[derive(Debug)]
pub struct Collector(pub Vec<u8>);

impl View for Collector {
    type V = Seq<u8>;

    open spec fn view(&self) -> Seq<u8> {
        self.0@
    }
}

impl Default for Collector {
    fn default() -> (collector: Self)
        ensures
            collector@ == Seq::<u8>::empty(),
    {
        Collector(Vec::new())
    }
}

impl Collector {
    /// Takes one piece of the body and says how many bytes it took: all of
    /// them.
    pub fn write(&mut self, data: &[u8]) -> (taken: usize)
        ensures
            final(self)@ == old(self)@ + data@,
            taken == data@.len(),
    {
        self.0.extend_from_slice(data);
        data.len()
    }

    /// The bytes collected so far.
    pub fn as_slice(&self) -> (bytes: &[u8])
        ensures
            bytes@ == self@,
    {
        self.0.as_slice()
    }
}

/// Collects the bytes of a body that is read as text afterwards.
#[derive(Debug)]
pub struct ResponseHandler {
    data: Vec<u8>,
}

impl View for ResponseHandler {
    type V = Seq<u8>;

    closed spec fn view(&self) -> Seq<u8> {
        self.data@
    }
}

impl Default for ResponseHandler {
    fn default() -> (handler: Self)
        ensures
            handler@ == Seq::<u8>::empty(),
    {
        ResponseHandler { data: Vec::new() }
    }
}

impl Clone for ResponseHandler {
    fn clone(&self) -> (copy: Self)
        ensures
            copy@ == self@,
    {
        ResponseHandler { data: self.data.clone() }
    }
}

impl ResponseHandler {
    /// Takes one piece of the body and says how many bytes it took: all of
    /// them.
    pub fn write(&mut self, data: &[u8]) -> (taken: usize)
        ensures
            final(self)@ == old(self)@ + data@,
            taken == data@.len(),
    {
        self.data.extend_from_slice(data);
        data.len()
    }

    /// The bytes collected so far.
    pub fn as_ref(&self) -> (bytes: &[u8])
        ensures
            bytes@ == self@,
    {
        self.data.as_slice()
    }

    /// The number of bytes collected so far.
    pub fn len(&self) -> (n: usize)
        ensures
            n == self@.len(),
    {
        self.data.len()
    }
}

/// Why a body could not be read as a value.
#[derive(Debug, Clone, Copy, PartialEq, Eq, Structural)]
pub enum ResponseJsonError {
    /// The bytes are not UTF-8.
    Utf8Error,
    /// The text is not JSON of the expected shape.
    JsonError,
}

} // verus!
