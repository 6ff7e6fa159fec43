//! Transports: a sink of outgoing messages joined to a stream of incoming
//! ones.
//!
//! For a client the sink takes client messages and the stream yields
//! server messages; for a server, the other way round.
use vstd::prelude::*;

verus! {

/// A sending half and a receiving half, taken together as one transport.
pub struct Transport<Tx, Rx> {
    rx: Rx,
    tx: Tx,
}

impl<Tx, Rx> Transport<Tx, Rx> {
    pub fn new(tx: Tx, rx: Rx) -> (r: Self)
        ensures
            r.sending_half() == tx,
            r.receiving_half() == rx,
    {
        Self { tx, rx }
    }

    pub closed spec fn sending_half(self) -> Tx {
        self.tx
    }

    pub closed spec fn receiving_half(self) -> Rx {
        self.rx
    }

    /// The two halves again.
    pub fn into_parts(self) -> (r: (Tx, Rx))
        ensures
            r == (self.sending_half(), self.receiving_half()),
    {
        (self.tx, self.rx)
    }
}

/// Marks transports made from a `tower` service; no value of it is ever
/// needed.
pub struct TransportAdapterTower;

/// Whether a child process can serve as a transport: both its standard
/// input and its standard output must still be there to be taken. The
/// error names the first one missing.
pub fn child_pipes_check(has_stdin: bool, has_stdout: bool) -> (r: Result<(), &'static str>)
    ensures
        has_stdin && has_stdout ==> r is Ok,
        !has_stdin ==> (r matches Err(m) && m@ == "std in was taken"@),
        has_stdin && !has_stdout ==> (r matches Err(m) && m@ == "std out was taken"@),
{
    proof {
        reveal_strlit("std in was taken");
        reveal_strlit("std out was taken");
    }
    if !has_stdin {
        return Err("std in was taken");
    }
    if !has_stdout {
        return Err("std out was taken");
    }
    Ok(())
}

} // verus!
