//! A transport: a sending half and a receiving half, used together.
use vstd::prelude::*;

verus! {

/// A transport made of a sending half and a receiving half.
pub struct Transport<Tx, Rx> {
    pub rx: Rx,
    pub tx: Tx,
}

impl<Tx, Rx> Transport<Tx, Rx> {
    /// The transport that sends through `tx` and receives through `rx`.
    pub fn new(tx: Tx, rx: Rx) -> (r: Self)
        ensures
            r.tx == tx,
            r.rx == rx,
    {
        Transport { tx, rx }
    }
}

} // verus!
