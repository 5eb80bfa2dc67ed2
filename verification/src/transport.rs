//! The serial transport boundary: an opaque synchronous channel that carries
//! single-register write transactions and can fail, plus an in-memory
//! implementation for exercising the driver without hardware.

use vstd::prelude::*;

verus! {

/// A synchronous channel to the chip, carrying two-byte (address, data)
/// write transactions.
///
/// `writes()` abstracts the channel as the sequence of transactions that
/// have completed successfully, in order. A failed transaction is not
/// recorded: the driver surfaces the failure to its caller instead.
pub trait Transport {
    /// The transport's own failure detail.
    type Failure;

    /// The (address, data) pairs of the transactions completed so far, in
    /// order.
    spec fn writes(&self) -> Seq<(u8, u8)>;

    /// Issues one two-byte write transaction.
    ///
    /// On success exactly this transaction is appended to the channel's
    /// history; on failure the history is unchanged.
    fn write(&mut self, address: u8, data: u8) -> (r: Result<(), Self::Failure>)
        ensures
            r is Ok ==> final(self).writes() == old(self).writes().push((address, data)),
            r is Err ==> final(self).writes() == old(self).writes(),
    ;
}

/// Failure value of [`MockSpi`].
#[derive(Clone, Copy, Debug, PartialEq, Eq, Structural)]
pub struct MockSpiError;

/// An in-memory transport that records every transaction and can be told to
/// start failing after a chosen number of successes.
pub struct MockSpi {
    log: Vec<(u8, u8)>,
    fail_at: Option<usize>,
}

impl MockSpi {
    /// The number of transactions this transport accepts before it starts
    /// failing; `None` for a transport that never fails.
    pub closed spec fn spec_fail_at(&self) -> Option<usize> {
        self.fail_at
    }

    /// A transport that accepts every transaction.
    pub fn new() -> (r: MockSpi)
        ensures
            r.writes() == Seq::<(u8, u8)>::empty(),
            r.spec_fail_at() is None,
    {
        MockSpi { log: Vec::new(), fail_at: None }
    }

    /// A transport that accepts `successes` transactions and fails from then
    /// on.
    pub fn failing_after(successes: usize) -> (r: MockSpi)
        ensures
            r.writes() == Seq::<(u8, u8)>::empty(),
            r.spec_fail_at() == Some(successes),
    {
        MockSpi { log: Vec::new(), fail_at: Some(successes) }
    }

    /// How many transactions have completed.
    pub fn write_count(&self) -> (n: usize)
        ensures
            n == self.writes().len(),
    {
        self.log.len()
    }

    /// The `i`-th completed transaction.
    pub fn write_at(&self, i: usize) -> (w: (u8, u8))
        requires
            i < self.writes().len(),
        ensures
            w == self.writes()[i as int],
    {
        self.log[i]
    }
}

impl Transport for MockSpi {
    type Failure = MockSpiError;

    closed spec fn writes(&self) -> Seq<(u8, u8)> {
        self.log@
    }

    fn write(&mut self, address: u8, data: u8) -> (r: Result<(), MockSpiError>)
        ensures
            r is Ok <==> !(old(self).spec_fail_at() matches Some(n) && old(self).writes().len()
                >= n),
            final(self).spec_fail_at() == old(self).spec_fail_at(),
    {
        let failed = match self.fail_at {
            Some(n) => self.log.len() >= n,
            None => false,
        };
        if failed {
            Err(MockSpiError)
        } else {
            self.log.push((address, data));
            Ok(())
        }
    }
}

} // verus!
