use crate::types::Principal;
use vstd::prelude::*;

verus! {

/// What the ledger host says of the transaction in which an operation runs:
/// the ledger time, and the principals whose signature it has confirmed.
#[derive(Debug)]
pub struct Transaction {
    pub now: u64,
    pub signers: Vec<Principal>,
}

/// Whether `who` is among `signers`.
pub open spec fn signed_by(signers: Seq<Principal>, who: Seq<char>) -> bool {
    exists|i: int| 0 <= i < signers.len() && (#[trigger] signers[i])@ == who
}

impl Transaction {
    pub fn new(now: u64, signers: Vec<Principal>) -> (tx: Transaction)
        ensures
            tx.now == now,
            tx.signers == signers,
    {
        Transaction { now, signers }
    }

    /// Whether the host has confirmed the signature of `who`.
    pub open spec fn authorizes(&self, who: Seq<char>) -> bool {
        signed_by(self.signers@, who)
    }

    /// Looks `who` up among the signers.
    pub fn require_auth(&self, who: &Principal) -> (r: bool)
        ensures
            r == self.authorizes(who@),
    {
        let mut k: usize = 0;
        while k < self.signers.len()
            invariant
                k <= self.signers@.len(),
                forall|i: int| 0 <= i < k ==> (#[trigger] self.signers@[i])@ != who@,
            decreases self.signers@.len() - k,
        {
            if self.signers[k].same(who) {
                return true;
            }
            k = k + 1;
        }
        false
    }
}

} // verus!
