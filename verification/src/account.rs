//! Service identities and the access guard for self-only entrypoints.

use vstd::prelude::*;

verus! {

use crate::error::WorkflowError;

/// The identity of a service, held as its raw UTF-8 name bytes. The
/// orchestrator never interprets an identity: it only compares identities
/// and threads them through call arguments.
#[derive(Debug, PartialEq, Eq)]
pub struct AccountId {
    bytes: Vec<u8>,
}

impl View for AccountId {
    type V = Seq<u8>;

    closed spec fn view(&self) -> Seq<u8> {
        self.bytes@
    }
}

impl Clone for AccountId {
    fn clone(&self) -> (r: Self)
        ensures
            r@ == self@,
    {
        AccountId { bytes: clone_bytes(&self.bytes) }
    }
}

/// Copies a byte vector element by element.
fn clone_bytes(v: &Vec<u8>) -> (r: Vec<u8>)
    ensures
        r@ == v@,
{
    let mut r: Vec<u8> = Vec::new();
    let n = v.len();
    let mut i: usize = 0;
    while i < n
        invariant
            0 <= i <= n,
            n == v@.len(),
            r@ == v@.take(i as int),
        decreases n - i,
    {
        r.push(v[i]);
        proof {
            assert(v@.take(i as int).push(v@[i as int]) =~= v@.take(i as int + 1));
        }
        i = i + 1;
    }
    proof {
        assert(v@.take(n as int) =~= v@);
    }
    r
}

impl AccountId {
    /// Wraps raw name bytes as an identity.
    pub fn new(bytes: Vec<u8>) -> (r: Self)
        ensures
            r@ == bytes@,
    {
        AccountId { bytes }
    }

    /// The raw name bytes of this identity.
    pub fn bytes(&self) -> (r: &Vec<u8>)
        ensures
            r@ == self@,
    {
        &self.bytes
    }

    /// True exactly when the two identities are the same name.
    pub fn same_as(&self, other: &AccountId) -> (r: bool)
        ensures
            r == (self@ == other@),
    {
        let n = self.bytes.len();
        if n != other.bytes.len() {
            return false;
        }
        let mut i: usize = 0;
        while i < n
            invariant
                0 <= i <= n,
                n == self@.len(),
                n == other@.len(),
                forall|j: int| 0 <= j < i ==> self@[j] == other@[j],
            decreases n - i,
        {
            if self.bytes[i] != other.bytes[i] {
                return false;
            }
            i = i + 1;
        }
        proof {
            assert(self@ =~= other@);
        }
        true
    }
}

/// The identities a continuation entrypoint sees when it is invoked: the
/// immediate caller, the orchestrator's own identity, the identity that
/// signed the original transaction, and the compute budget attached to
/// the call.
#[derive(Debug)]
pub struct CallContext {
    /// The immediate caller of the current entrypoint.
    pub predecessor_account_id: AccountId,
    /// The orchestrator's own identity.
    pub current_account_id: AccountId,
    /// The identity that signed the transaction that started the chain.
    pub signer_account_id: AccountId,
    /// The compute budget attached to the current call.
    pub prepaid_gas: u64,
}

impl CallContext {
    /// True when the current entrypoint is being invoked by the
    /// orchestrator itself.
    pub open spec fn caller_is_self(&self) -> bool {
        self.predecessor_account_id@ == self.current_account_id@
    }
}

/// The only authorization mechanism in the system: a self-only entrypoint
/// may run only when its immediate caller is the orchestrator's own
/// identity. Anything else fails with `Unauthorized` before any other
/// effect.
pub fn require_self(caller: &AccountId, self_identity: &AccountId) -> (r: Result<
    (),
    WorkflowError,
>)
    ensures
        r is Ok <==> caller@ == self_identity@,
        r is Err ==> r == Err::<(), WorkflowError>(WorkflowError::Unauthorized),
{
    if caller.same_as(self_identity) {
        Ok(())
    } else {
        Err(WorkflowError::Unauthorized)
    }
}

} // verus!
