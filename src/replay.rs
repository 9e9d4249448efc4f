//! Replay guard: the set of consumed nullifiers. A nullifier is recorded
//! once and never removed.

use vstd::prelude::*;
use crate::errors::DarkFlowError;
use crate::keys::bytes32_eq;

verus! {

/// A consumed nullifier and when it was consumed.
#[derive(Debug, Clone, Copy)]
pub struct NullifierAccount {
    pub nullifier: [u8; 32],
    pub used_at: i64,
}

/// Every nullifier consumed so far, in the order consumed.
#[derive(Debug, Clone)]
pub struct NullifierSet {
    pub records: Vec<NullifierAccount>,
}

impl NullifierSet {
    /// Whether `nullifier` has been consumed.
    pub open spec fn contains(&self, nullifier: Seq<u8>) -> bool {
        exists|i: int| 0 <= i < self.records@.len() && (#[trigger] self.records@[i]).nullifier@ == nullifier
    }

    /// The set after consuming `nullifier` at `now`.
    pub open spec fn with_record(&self, nullifier: [u8; 32], now: i64) -> Seq<NullifierAccount> {
        self.records@.push(NullifierAccount { nullifier, used_at: now })
    }

    pub fn new() -> (r: NullifierSet)
        ensures
            r.records@.len() == 0,
            forall|n: Seq<u8>| !r.contains(n),
    {
        NullifierSet { records: Vec::new() }
    }

    pub fn len(&self) -> (r: usize)
        ensures
            r == self.records@.len(),
    {
        self.records.len()
    }

    pub fn is_nullifier_used(&self, nullifier: &[u8; 32]) -> (r: bool)
        ensures
            r == self.contains(nullifier@),
    {
        let mut i: usize = 0;
        while i < self.records.len()
            invariant
                0 <= i <= self.records@.len(),
                forall|j: int| 0 <= j < i ==> (#[trigger] self.records@[j]).nullifier@ != nullifier@,
            decreases self.records@.len() - i,
        {
            if bytes32_eq(&self.records[i].nullifier, nullifier) {
                assert(self.records@[i as int].nullifier@ == nullifier@);
                return true;
            }
            i += 1;
        }
        false
    }

    /// Consumes `nullifier` at `now`: an atomic check and insert that fails,
    /// changing nothing, when it was consumed before.
    pub fn mark_nullifier_used(&mut self, nullifier: [u8; 32], now: i64) -> (r: Result<(), DarkFlowError>)
        ensures
            old(self).contains(nullifier@) ==> r == Err::<(), DarkFlowError>(
                DarkFlowError::NullifierAlreadyUsed,
            ) && *final(self) == *old(self),
            !old(self).contains(nullifier@) ==> r is Ok && final(self).records@ == old(
                self,
            ).with_record(nullifier, now),
    {
        if self.is_nullifier_used(&nullifier) {
            return Err(DarkFlowError::NullifierAlreadyUsed);
        }
        self.records.push(NullifierAccount { nullifier, used_at: now });
        Ok(())
    }
}

/// Recording a nullifier consumes exactly it: afterwards it is present, so
/// a second recording fails, and every other value is present just when it
/// was before.
pub proof fn lemma_nullifier_consumed(set: NullifierSet, after: NullifierSet, nullifier: [u8; 32], now: i64)
    requires
        after.records@ == set.with_record(nullifier, now),
    ensures
        after.contains(nullifier@),
        forall|other: Seq<u8>| other != nullifier@ ==> (after.contains(other) <==> set.contains(other)),
{
    let last = set.records@.len() as int;
    assert(after.records@[last].nullifier@ == nullifier@);
    assert forall|other: Seq<u8>| other != nullifier@ implies (after.contains(other)
        <==> set.contains(other)) by {
        if set.contains(other) {
            let i = choose|i: int| 0 <= i < set.records@.len() && (#[trigger] set.records@[i]).nullifier@ == other;
            assert(after.records@[i] == set.records@[i]);
        }
        if after.contains(other) {
            let i = choose|i: int| 0 <= i < after.records@.len() && (#[trigger] after.records@[i]).nullifier@ == other;
            assert(i != last);
            assert(after.records@[i] == set.records@[i]);
        }
    }
}

} // verus!
