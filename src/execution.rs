//! Proposal payloads (the outbound calls) and their execution results.
use vstd::prelude::*;

use crate::types::{Index, StablePrincipal};

verus! {

/// Most messages a payload may carry: their index must fit a `u8` step.
pub const MAX_MESSAGES: usize = 256;

/// A call made before a message, which must answer `true` for the message to run.
#[derive(Clone, Debug)]
pub struct PreValidateTarget {
    /// Canister that validates.
    pub canister_id: StablePrincipal,
    /// Method to call.
    pub method: String,
    /// Argument bytes of the call.
    pub payload: Vec<u8>,
    /// Cycles attached to the call.
    pub payment: u128,
}

/// A call made after a message with its request and response, which must
/// answer `true` for the message to count as succeeded.
#[derive(Clone, Debug)]
pub struct PostValidateTarget {
    /// Canister that validates.
    pub canister_id: StablePrincipal,
    /// Method to call.
    pub method: String,
    /// Cycles attached to the call.
    pub payment: u128,
}

/// The argument handed to a post-validation call.
#[derive(Clone, Debug)]
pub struct PostValidatePayload {
    /// Canister of the executed message.
    pub canister_id: StablePrincipal,
    /// Method of the executed message.
    pub method: String,
    /// Argument bytes of the executed message.
    pub message: Vec<u8>,
    /// Response bytes of the executed message.
    pub response: Vec<u8>,
}

/// One outbound call of a proposal, with optional validation around it.
#[derive(Clone, Debug)]
pub struct CanisterMessage {
    /// Canister to call.
    pub canister_id: StablePrincipal,
    /// Method to call.
    pub method: String,
    /// Argument bytes of the call.
    pub message: Vec<u8>,
    /// Cycles attached to the call.
    pub payment: u128,
    pub pre_validate: Option<PreValidateTarget>,
    pub post_validate: Option<PostValidateTarget>,
}

/// What a proposal does once accepted: calls made in order, after the
/// proposals it depends on have succeeded.
#[derive(Clone, Debug)]
pub struct ProposalPayload {
    /// Ids of earlier proposals that must have succeeded first.
    pub depends_on: Vec<Index>,
    /// Calls to make, in order.
    pub messages: Vec<CanisterMessage>,
}

impl ProposalPayload {
    pub open spec fn valid(&self) -> bool {
        &&& self.messages@.len() <= MAX_MESSAGES
        &&& forall|i: int|
            0 <= i < self.messages@.len() ==> #[trigger] self.messages@[i].method@.len() > 0
    }

    /// Every method is non-empty and the messages can be counted by a `u8` step.
    pub fn is_valid(&self) -> (r: bool)
        ensures
            r == self.valid(),
    {
        if self.messages.len() > MAX_MESSAGES {
            return false;
        }
        let mut i: usize = 0;
        while i < self.messages.len()
            invariant
                i <= self.messages@.len(),
                forall|j: int| 0 <= j < i ==> #[trigger] self.messages@[j].method@.len() > 0,
            decreases self.messages@.len() - i,
        {
            if self.messages[i].method.as_str().is_empty() {
                return false;
            }
            i = i + 1;
        }
        true
    }

    /// The largest id among the dependencies, if any.
    pub fn max_dependency_index(&self) -> (r: Option<Index>)
        ensures
            r is None <==> self.depends_on@.len() == 0,
            r matches Some(m) ==> self.depends_on@.contains(m) && forall|i: int|
                0 <= i < self.depends_on@.len() ==> #[trigger] self.depends_on@[i] <= m,
    {
        if self.depends_on.len() == 0 {
            return None;
        }
        let mut best: Index = self.depends_on[0];
        let mut i: usize = 1;
        while i < self.depends_on.len()
            invariant
                1 <= i <= self.depends_on@.len(),
                self.depends_on@.contains(best),
                forall|j: int| 0 <= j < i ==> #[trigger] self.depends_on@[j] <= best,
            decreases self.depends_on@.len() - i,
        {
            if self.depends_on[i] > best {
                best = self.depends_on[i];
            }
            i = i + 1;
        }
        Some(best)
    }
}

/// Outcome of one message call: the response bytes, or a reject code with
/// its message.
#[derive(Debug)]
pub struct ExecResult(pub Result<Vec<u8>, (i32, String)>);

impl Clone for ExecResult {
    fn clone(&self) -> (r: Self)
        ensures
            r.0 is Ok <==> self.0 is Ok,
            r.0 matches Ok(b) ==> b@ == self.0->Ok_0@,
            r.0 matches Err(e) ==> e.0 == self.0->Err_0.0 && e.1@ == self.0->Err_0.1@,
    {
        match &self.0 {
            Ok(bytes) => {
                let b = bytes.clone();
                assert(b@ =~= bytes@);
                ExecResult(Ok(b))
            },
            Err((code, message)) => ExecResult(Err((*code, message.clone()))),
        }
    }
}

/// Outcomes of the messages of a proposal, one per message call made.
#[derive(Clone, Debug)]
pub struct ProposalExec {
    pub execution_result: Vec<ExecResult>,
}

} // verus!
