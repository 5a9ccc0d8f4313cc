//! The authorization context a transfer invocation is made with, and the
//! declarative constraints the host evaluates before the handler body runs.

use vstd::prelude::*;

verus! {

/// Identity of the native system-level program that performs balance
/// transfers; the delegated call must name it as its target.
pub const SYSTEM_PROGRAM_ID: u64 = 0;

/// A host-managed account reference, reduced to what the authorization and
/// transfer rules read of it: its balance, the floor the ledger makes it
/// retain, and the capability flags the host granted for this invocation.
#[derive(Clone, Copy, PartialEq, Eq, Structural, Debug)]
pub struct AccountState {
    /// Balance, in the ledger's smallest unit.
    pub balance: u64,
    /// Ledger-enforced minimum the account must keep to remain valid.
    pub min_retained: u64,
    /// The controlling key has cryptographically authorized this invocation.
    pub is_signer: bool,
    /// The host allows this invocation to change the balance.
    pub is_mutable: bool,
}

/// The capability flags an account must carry, stated as data rather than as
/// checks inside the handler body, so that the authorization surface can be
/// audited independently of control flow.
#[derive(Clone, Copy, PartialEq, Eq, Structural, Debug)]
pub struct AccountConstraint {
    /// The account must have signed the invocation.
    pub must_sign: bool,
    /// The account must be flagged mutable for the invocation.
    pub must_be_mutable: bool,
}

impl AccountConstraint {
    /// Whether an account carries every capability this constraint demands.
    pub open spec fn spec_met_by(self, account: AccountState) -> bool {
        &&& (self.must_sign ==> account.is_signer)
        &&& (self.must_be_mutable ==> account.is_mutable)
    }

    /// Evaluate the constraint against one account reference.
    pub fn met_by(&self, account: &AccountState) -> (ok: bool)
        ensures
            ok == self.spec_met_by(*account),
    {
        (!self.must_sign || account.is_signer) && (!self.must_be_mutable || account.is_mutable)
    }
}

/// The constraint declared on the sending account: it pays, so it must have
/// signed and must be mutable.
pub fn sender_constraint() -> (c: AccountConstraint)
    ensures
        c == (AccountConstraint { must_sign: true, must_be_mutable: true }),
{
    AccountConstraint { must_sign: true, must_be_mutable: true }
}

/// The constraint declared on the receiving account: it only takes a credit,
/// so it must be mutable but need not sign.
pub fn receiver_constraint() -> (c: AccountConstraint)
    ensures
        c == (AccountConstraint { must_sign: false, must_be_mutable: true }),
{
    AccountConstraint { must_sign: false, must_be_mutable: true }
}

/// The bundle of participant references one transfer invocation is made
/// with; the host builds it from the transaction's declared account list and
/// drops it after the invocation.
#[derive(Clone, Copy, PartialEq, Eq, Structural, Debug)]
pub struct TransferSol {
    /// The account the value leaves.
    pub sender: AccountState,
    /// The account the value reaches.
    pub receiver: AccountState,
    /// Identity of the delegated-call target.
    pub transfer_authority: u64,
}

impl TransferSol {
    /// Everything the host must have established before the handler body is
    /// entered: the sender signed and is mutable, the receiver is mutable,
    /// and the delegated-call target is the native transfer program.
    pub open spec fn spec_authorized(self) -> bool {
        &&& sender_constraint_spec().spec_met_by(self.sender)
        &&& receiver_constraint_spec().spec_met_by(self.receiver)
        &&& self.transfer_authority == SYSTEM_PROGRAM_ID
    }

    /// The pre-invocation gate: evaluate each declared account constraint
    /// and the delegated-call target's identity.
    pub fn authorized(&self) -> (ok: bool)
        ensures
            ok == self.spec_authorized(),
    {
        sender_constraint().met_by(&self.sender) && receiver_constraint().met_by(&self.receiver)
            && self.transfer_authority == SYSTEM_PROGRAM_ID
    }
}

/// The sender's declared constraint, as the contracts state it.
pub open spec fn sender_constraint_spec() -> AccountConstraint {
    AccountConstraint { must_sign: true, must_be_mutable: true }
}

/// The receiver's declared constraint, as the contracts state it.
pub open spec fn receiver_constraint_spec() -> AccountConstraint {
    AccountConstraint { must_sign: false, must_be_mutable: true }
}

} // verus!
