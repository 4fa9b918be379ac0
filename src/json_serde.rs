use vstd::prelude::*;

verus! {

/// A value that crosses the boundary by way of the canonical document
/// encoding rather than a converter of its own.
#[derive(Debug, PartialEq)]
pub struct JsonSerdeWrap<T>(T);

impl<T> View for JsonSerdeWrap<T> {
    type V = T;

    closed spec fn view(&self) -> T {
        self.0
    }
}

impl<T> JsonSerdeWrap<T> {
    pub fn new(value: T) -> (r: Self)
        ensures
            r@ == value,
    {
        JsonSerdeWrap(value)
    }

    /// The wrapped value.
    pub fn get(&self) -> (r: &T)
        ensures
            *r == self@,
    {
        &self.0
    }

    pub fn into_inner(self) -> (r: T)
        ensures
            r == self@,
    {
        self.0
    }
}

/// The SCTP stream counts of a transport, as the host runtime sends them.
#[derive(Debug, Clone, Copy, PartialEq, Eq, Structural)]
pub struct SerNumSctpStreams {
    pub os: u16,
    pub mis: u16,
}

/// The SCTP stream counts the native library takes: outgoing streams and
/// the most incoming streams accepted.
#[derive(Debug, Clone, Copy, PartialEq, Eq, Structural)]
pub struct NumSctpStreams {
    pub os: u16,
    pub mis: u16,
}

impl SerNumSctpStreams {
    pub fn as_streams(&self) -> (r: NumSctpStreams)
        ensures
            r.os == self.os,
            r.mis == self.mis,
    {
        NumSctpStreams { os: self.os, mis: self.mis }
    }
}

} // verus!
