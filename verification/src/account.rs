//! Ledger account records: 32-byte addresses and native-currency balances.

use vstd::prelude::*;

verus! {

/// A 32-byte ledger address.
pub struct Address {
    pub bytes: Vec<u8>,
}

impl Address {
    /// A well-formed address is exactly 32 bytes long.
    pub open spec fn wf(self) -> bool {
        self.bytes@.len() == 32
    }

    /// Byte-for-byte copy of this address.
    pub fn duplicate(&self) -> (r: Address)
        ensures
            r@ == self@,
    {
        let mut out: Vec<u8> = Vec::new();
        let mut i: usize = 0;
        while i < self.bytes.len()
            invariant
                i <= self.bytes@.len(),
                out@ == self.bytes@.subrange(0, i as int),
            decreases self.bytes@.len() - i,
        {
            out.push(self.bytes[i]);
            i += 1;
            proof {
                assert(out@ =~= self.bytes@.subrange(0, i as int));
            }
        }
        proof {
            assert(out@ =~= self.bytes@);
        }
        Address { bytes: out }
    }
}

impl View for Address {
    type V = Seq<u8>;

    open spec fn view(&self) -> Seq<u8> {
        self.bytes@
    }
}

/// Byte-for-byte equality of two addresses.
pub fn address_eq(a: &Address, b: &Address) -> (r: bool)
    ensures
        r == (a@ == b@),
{
    if a.bytes.len() != b.bytes.len() {
        return false;
    }
    let mut i: usize = 0;
    while i < a.bytes.len()
        invariant
            i <= a.bytes@.len(),
            a.bytes@.len() == b.bytes@.len(),
            forall|j: int| 0 <= j < i ==> a.bytes@[j] == b.bytes@[j],
        decreases a.bytes@.len() - i,
    {
        if a.bytes[i] != b.bytes[i] {
            return false;
        }
        i += 1;
    }
    proof {
        assert(a@ =~= b@);
    }
    true
}

/// One ledger account record: its address and its native balance.
pub struct Account {
    pub address: Address,
    pub balance: u64,
}

impl Account {
    /// A well-formed account carries a well-formed address.
    pub open spec fn wf(self) -> bool {
        self.address.wf()
    }
}

} // verus!
