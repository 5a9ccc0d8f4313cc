//! The transfer handler and the model of the native primitive it delegates
//! to: one debit and one credit per invocation, applied in full or not at
//! all.

use vstd::prelude::*;

use crate::context::AccountState;
use crate::context::TransferSol;

verus! {

/// Why an invocation moved no value.
#[derive(Clone, Copy, PartialEq, Eq, Structural, Debug)]
pub enum TransferError {
    /// The host rejected the context before the handler body ran: a missing
    /// signature, a missing mutability flag, or a delegated-call target that
    /// is not the native transfer program.
    AuthorizationRejected,
    /// The native primitive refused: the sender cannot cover the amount on
    /// top of the balance it must retain.
    InsufficientBalance,
    /// The native primitive refused the delegated call for another reason;
    /// in this model, a credit that would leave the receiver's balance
    /// outside the ledger unit's range.
    NativeCallFailure,
}

/// What an account can part with: its balance above the retained floor.
/// Negative when the account already sits below the floor.
pub open spec fn spec_available(account: AccountState) -> int {
    account.balance - account.min_retained
}

/// One applied movement of `amount` between the context's two accounts: the
/// sender is debited and the receiver credited by exactly `amount`, and
/// nothing else about the context changes.
pub open spec fn spec_transfer_applied(pre: TransferSol, post: TransferSol, amount: u64) -> bool {
    &&& post.sender.balance == pre.sender.balance - amount
    &&& post.receiver.balance == pre.receiver.balance + amount
    &&& post.sender == (AccountState { balance: post.sender.balance, ..pre.sender })
    &&& post.receiver == (AccountState { balance: post.receiver.balance, ..pre.receiver })
    &&& post.transfer_authority == pre.transfer_authority
}

/// The handler's terminal state for one invocation: success exactly when the
/// sender can cover the amount above its retained floor and the credit stays
/// within the ledger unit's range; on success the transfer is applied, on
/// failure nothing changes and the error names the reason.
pub open spec fn spec_handler_outcome(
    pre: TransferSol,
    post: TransferSol,
    amount: u64,
    outcome: Result<(), TransferError>,
) -> bool {
    &&& (outcome is Ok <==> amount <= spec_available(pre.sender) && pre.receiver.balance + amount
        <= u64::MAX)
    &&& (outcome is Ok ==> spec_transfer_applied(pre, post, amount))
    &&& (outcome is Err ==> post == pre)
    &&& (amount > spec_available(pre.sender) ==> outcome == Err::<(), TransferError>(
        TransferError::InsufficientBalance,
    ))
    &&& (amount <= spec_available(pre.sender) && pre.receiver.balance + amount > u64::MAX
        ==> outcome == Err::<(), TransferError>(TransferError::NativeCallFailure))
}

/// The model of the native system-level transfer primitive: debit `from` and
/// credit `to` by `amount`, atomically. It refuses with
/// `InsufficientBalance` when `from` cannot cover `amount` above the floor
/// it must retain, and with `NativeCallFailure` when the credit would
/// overflow the ledger unit's range; on refusal it returns the two accounts
/// unchanged.
pub fn native_transfer(from: AccountState, to: AccountState, amount: u64) -> (outcome: Result<
    (AccountState, AccountState),
    TransferError,
>)
    ensures
        outcome is Ok <==> amount <= spec_available(from) && to.balance + amount <= u64::MAX,
        outcome matches Ok((new_from, new_to)) ==> {
            &&& new_from.balance == from.balance - amount
            &&& new_to.balance == to.balance + amount
            &&& new_from == (AccountState { balance: new_from.balance, ..from })
            &&& new_to == (AccountState { balance: new_to.balance, ..to })
        },
        amount > spec_available(from) ==> outcome == Err::<
            (AccountState, AccountState),
            TransferError,
        >(TransferError::InsufficientBalance),
        amount <= spec_available(from) && to.balance + amount > u64::MAX ==> outcome == Err::<
            (AccountState, AccountState),
            TransferError,
        >(TransferError::NativeCallFailure),
{
    if amount > from.balance || from.balance - amount < from.min_retained {
        return Err(TransferError::InsufficientBalance);
    }
    if to.balance > u64::MAX - amount {
        return Err(TransferError::NativeCallFailure);
    }
    let new_from = AccountState { balance: from.balance - amount, ..from };
    let new_to = AccountState { balance: to.balance + amount, ..to };
    Ok((new_from, new_to))
}

/// The instruction handler: delegate exactly one value transfer of `amount`
/// from the context's sender to its receiver, naming the transfer authority
/// as the call target, and surface the primitive's refusal verbatim. The
/// body performs no authorization checks of its own: the host's gate must
/// have accepted the context before entry, which the precondition records.
/// Whatever the outcome, the two balances' sum is conserved.
pub fn transfer_sol(ctx: &mut TransferSol, amount: u64) -> (outcome: Result<(), TransferError>)
    requires
        old(ctx).spec_authorized(),
    ensures
        spec_handler_outcome(*old(ctx), *final(ctx), amount, outcome),
        final(ctx).sender.balance + final(ctx).receiver.balance == old(ctx).sender.balance + old(
            ctx,
        ).receiver.balance,
{
    match native_transfer(ctx.sender, ctx.receiver, amount) {
        Ok((new_sender, new_receiver)) => {
            ctx.sender = new_sender;
            ctx.receiver = new_receiver;
            Ok(())
        },
        Err(reason) => Err(reason),
    }
}

/// One whole invocation as the host performs it: evaluate the declared
/// account constraints and the call target's identity, and only when they
/// all hold enter the handler. A context that misses a declared capability
/// never reaches the handler body, so `AuthorizationRejected` is returned
/// exactly then, and no balance changes. The two balances' sum is conserved
/// in every case.
pub fn invoke_transfer_sol(ctx: &mut TransferSol, amount: u64) -> (outcome: Result<
    (),
    TransferError,
>)
    ensures
        outcome == Err::<(), TransferError>(TransferError::AuthorizationRejected) <==> !old(
            ctx,
        ).spec_authorized(),
        !old(ctx).spec_authorized() ==> *final(ctx) == *old(ctx),
        old(ctx).spec_authorized() ==> spec_handler_outcome(*old(ctx), *final(ctx), amount, outcome),
        final(ctx).sender.balance + final(ctx).receiver.balance == old(ctx).sender.balance + old(
            ctx,
        ).receiver.balance,
{
    if !ctx.authorized() {
        return Err(TransferError::AuthorizationRejected);
    }
    transfer_sol(ctx, amount)
}

/// Two sequential successful transfers of `amount` accumulate: the sender
/// ends exactly `2 * amount` below and the receiver exactly `2 * amount`
/// above where they started. Invocations do not coalesce or deduplicate.
pub proof fn lemma_sequential_transfers_accumulate(
    first: TransferSol,
    mid: TransferSol,
    last: TransferSol,
    amount: u64,
)
    requires
        spec_transfer_applied(first, mid, amount),
        spec_transfer_applied(mid, last, amount),
    ensures
        last.sender.balance == first.sender.balance - 2 * amount,
        last.receiver.balance == first.receiver.balance + 2 * amount,
{
}

/// Conservation: an applied transfer moves value, it neither mints nor
/// burns. The two balances' sum after equals the sum before.
pub proof fn lemma_transfer_conserves_supply(pre: TransferSol, post: TransferSol, amount: u64)
    requires
        spec_transfer_applied(pre, post, amount),
    ensures
        post.sender.balance + post.receiver.balance == pre.sender.balance + pre.receiver.balance,
{
}

} // verus!

