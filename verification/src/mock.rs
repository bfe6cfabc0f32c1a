//! A scripted bus transport for tests.
//!
//! A [`MockBus`] is built from a list of expected transactions. Each bus
//! operation is checked against the next entry of the script: a matching
//! transaction is fulfilled (and, for write-read entries, answered with the
//! scripted response bytes), any deviation is answered with an error and
//! leaves the script position unchanged. This gives tests a transport whose
//! recorded history is exactly the fulfilled prefix of the script.

use vstd::prelude::*;

use crate::bus::{I2cBus, Transaction};

verus! {

/// One scripted transaction: what the driver is expected to put on the bus,
/// and for write-read transactions the bytes handed back to it.
pub enum Expectation {
    /// Expect a plain write of exactly these bytes to this address.
    Write { address: u8, bytes: Vec<u8> },
    /// Expect a write of exactly these bytes to this address, followed by a
    /// read answered with `response`.
    WriteRead { address: u8, bytes: Vec<u8>, response: Vec<u8> },
}

/// The transaction a fulfilled expectation records in the history.
pub open spec fn expected_transaction(expectation: Expectation) -> Transaction {
    match expectation {
        Expectation::Write { address, bytes } => Transaction::Write {
            address,
            bytes: bytes@,
        },
        Expectation::WriteRead { address, bytes, response } => Transaction::WriteRead {
            address,
            bytes: bytes@,
            response: response@,
        },
    }
}

/// Error answered by [`MockBus`] for a transaction that deviates from the
/// script or arrives after the script is exhausted.
#[derive(Debug, Clone, Copy, PartialEq, Eq)]
pub struct ScriptMismatch;

/// A bus transport driven by a fixed script of expected transactions.
pub struct MockBus {
    script: Vec<Expectation>,
    fulfilled: usize,
}

impl MockBus {
    /// The whole script, as the transactions it would record.
    pub closed spec fn script_transactions(&self) -> Seq<Transaction> {
        self.script@.map_values(|expectation: Expectation| expected_transaction(expectation))
    }

    /// How many script entries have been fulfilled so far.
    pub closed spec fn fulfilled_count(&self) -> int {
        self.fulfilled as int
    }

    /// Create a bus that expects exactly the scripted transactions, in order.
    pub fn new(script: Vec<Expectation>) -> (bus: MockBus)
        ensures
            bus.log() == Seq::<Transaction>::empty(),
            bus.script_transactions() == script@.map_values(
                |expectation: Expectation| expected_transaction(expectation),
            ),
            bus.fulfilled_count() == 0,
    {
        let bus = MockBus { script, fulfilled: 0 };
        proof {
            assert(bus.log() =~= Seq::<Transaction>::empty());
        }
        bus
    }

    /// Whether every scripted transaction has been fulfilled.
    pub fn done(&self) -> (r: bool)
        ensures
            r == (self.fulfilled_count() == self.script_transactions().len()),
    {
        self.fulfilled == self.script.len()
    }
}

/// Byte-for-byte equality of two byte slices.
fn bytes_equal(a: &[u8], b: &[u8]) -> (r: bool)
    ensures
        r == (a@ == b@),
{
    if a.len() != b.len() {
        return false;
    }
    let mut i: usize = 0;
    while i < a.len()
        invariant
            i <= a@.len(),
            a@.len() == b@.len(),
            forall|j: int| 0 <= j < i ==> a@[j] == b@[j],
        decreases a@.len() - i,
    {
        if a[i] != b[i] {
            return false;
        }
        i = i + 1;
    }
    proof {
        assert(a@ =~= b@);
    }
    true
}

/// Copy a byte vector.
fn copy_bytes(source: &Vec<u8>) -> (r: Vec<u8>)
    ensures
        r@ == source@,
{
    let mut r: Vec<u8> = Vec::new();
    let mut i: usize = 0;
    while i < source.len()
        invariant
            i <= source@.len(),
            r@ == source@.take(i as int),
        decreases source@.len() - i,
    {
        r.push(source[i]);
        proof {
            assert(r@ =~= source@.take(i + 1));
        }
        i = i + 1;
    }
    proof {
        assert(source@.take(source@.len() as int) =~= source@);
    }
    r
}

impl I2cBus for MockBus {
    type BusError = ScriptMismatch;

    /// The fulfilled prefix of the script.
    closed spec fn log(&self) -> Seq<Transaction> {
        self.script_transactions().take(self.fulfilled as int)
    }

    fn bus_write(&mut self, address: u8, bytes: &[u8]) -> (result: Result<(), ScriptMismatch>)
        ensures
            result is Ok <==> (old(self).fulfilled_count() < old(
                self,
            ).script_transactions().len() && old(self).script_transactions()[old(
                self,
            ).fulfilled_count()] == (Transaction::Write { address, bytes: bytes@ })),
            result is Ok ==> final(self).fulfilled_count() == old(self).fulfilled_count() + 1
                && final(self).script_transactions() == old(self).script_transactions(),
            result is Err ==> *final(self) == *old(self),
    {
        if self.fulfilled >= self.script.len() {
            return Err(ScriptMismatch);
        }
        let index = self.fulfilled;
        let matched = match &self.script[index] {
            Expectation::Write { address: expected_address, bytes: expected_bytes } => {
                *expected_address == address && bytes_equal(expected_bytes.as_slice(), bytes)
            },
            Expectation::WriteRead { .. } => false,
        };
        if !matched {
            return Err(ScriptMismatch);
        }
        self.fulfilled = index + 1;
        proof {
            assert(self.script_transactions().take(index + 1) =~= self.script_transactions().take(
                index as int,
            ).push(expected_transaction(self.script@[index as int])));
        }
        Ok(())
    }

    fn bus_write_read(&mut self, address: u8, bytes: &[u8], read_len: usize) -> (result: Result<
        Vec<u8>,
        ScriptMismatch,
    >)
        ensures
            result is Ok <==> (old(self).fulfilled_count() < old(
                self,
            ).script_transactions().len() && (old(self).script_transactions()[old(
                self,
            ).fulfilled_count()] matches Transaction::WriteRead {
                address: expected_address,
                bytes: expected_bytes,
                response,
            } && expected_address == address && expected_bytes == bytes@ && response.len()
                == read_len)),
            result is Ok ==> final(self).fulfilled_count() == old(self).fulfilled_count() + 1
                && final(self).script_transactions() == old(self).script_transactions(),
            result is Err ==> *final(self) == *old(self),
    {
        if self.fulfilled >= self.script.len() {
            return Err(ScriptMismatch);
        }
        let index = self.fulfilled;
        let response = match &self.script[index] {
            Expectation::WriteRead {
                address: expected_address,
                bytes: expected_bytes,
                response,
            } => {
                if *expected_address == address && bytes_equal(expected_bytes.as_slice(), bytes)
                    && response.len() == read_len {
                    Some(copy_bytes(response))
                } else {
                    None
                }
            },
            Expectation::Write { .. } => None,
        };
        match response {
            Some(response) => {
                self.fulfilled = index + 1;
                proof {
                    assert(self.script_transactions().take(index + 1)
                        =~= self.script_transactions().take(index as int).push(
                        expected_transaction(self.script@[index as int]),
                    ));
                }
                Ok(response)
            },
            None => Err(ScriptMismatch),
        }
    }
}

} // verus!
