//! The operations that both trackers share, by natural key.
//!
//! Each operation names the accounts it touches by what identifies them: the
//! state by nothing, a run by its identifier, a record by its wallet and
//! external address. It derives the address and works on the account there.

use vstd::prelude::*;
use crate::error::ErrorCode;
use crate::ledger::AirdropRun;
use crate::ledger::Ledger;
use crate::ledger::LedgerView;
use crate::pda::address_of;
use crate::pda::record_address;
use crate::pda::record_address_spec;
use crate::pda::run_address;
use crate::pda::run_address_spec;
use crate::pda::state_address;
use crate::pda::state_address_spec;
use crate::pubkey::Pubkey;

verus! {

/// Creating the singleton state: the caller becomes the authority.
#[derive(Clone, Copy, Debug, PartialEq, Eq)]
pub struct InitializeState {
    pub authority: Pubkey,
}

/// Creating the next run.
#[derive(Clone, Copy, Debug, PartialEq, Eq)]
pub struct CreateRun {
    /// The caller.
    pub authority: Pubkey,
}

/// Setting the totals of a run.
#[derive(Clone, Copy, Debug, PartialEq, Eq)]
pub struct UpdateRunTotals {
    /// The caller.
    pub authority: Pubkey,
    /// The run whose totals are set.
    pub run_id: u64,
}

/// Creating the record of a wallet. The external address comes with the call.
#[derive(Clone, Copy, Debug, PartialEq, Eq)]
pub struct InitializeRecord {
    /// The caller.
    pub authority: Pubkey,
    /// The wallet that receives the airdrops.
    pub sol_wallet: Pubkey,
}

/// Adding to the record of a wallet and an external address.
#[derive(Clone, Copy, Debug, PartialEq, Eq)]
pub struct UpdateRecord {
    /// The caller.
    pub authority: Pubkey,
    /// The wallet of the record.
    pub sol_wallet: Pubkey,
    /// The external address of the record.
    pub eth_address: [u8; 42],
}

/// Destroying the record of a wallet and an external address.
#[derive(Clone, Copy, Debug, PartialEq, Eq)]
pub struct CloseRecord {
    /// The caller.
    pub authority: Pubkey,
    /// The wallet of the record.
    pub sol_wallet: Pubkey,
    /// The external address of the record.
    pub eth_address: [u8; 42],
}

/// Where the next run of `ledger` will live, if the counter can still advance.
pub open spec fn next_run_address<R>(ledger: LedgerView<R>) -> Option<(Seq<u8>, u8)> {
    match ledger.state {
        Some(state) => if state.run_counter < u64::MAX {
            run_address_spec(ledger.program_id, (state.run_counter + 1) as u64)
        } else {
            None
        },
        None => None,
    }
}

/// What `initialize_state` does: the ledger afterwards and the result.
pub open spec fn initialize_state_spec<R>(ledger: LedgerView<R>, ctx: InitializeState) -> (
    LedgerView<R>,
    Result<(), ErrorCode>,
) {
    let derived = state_address_spec(ledger.program_id);
    match ledger.initialize_state_error(derived) {
        Some(error) => (ledger, Err(error)),
        None => (ledger.initialize_state_done(ctx.authority, derived), Ok(())),
    }
}

/// What `create_run` does: the ledger afterwards and the result.
pub open spec fn create_run_spec<R>(ledger: LedgerView<R>, ctx: CreateRun, dry_run: bool, now: i64)
    -> (LedgerView<R>, Result<u64, ErrorCode>) {
    let derived = next_run_address(ledger);
    match ledger.create_run_error(ctx.authority@, derived) {
        Some(error) => (ledger, Err(error)),
        None => (
            ledger.create_run_done(dry_run, now, derived),
            Ok((ledger.run_counter() + 1) as u64),
        ),
    }
}

/// What `update_run_totals` does: the ledger afterwards and the result.
pub open spec fn update_run_totals_spec<R>(
    ledger: LedgerView<R>,
    ctx: UpdateRunTotals,
    total_recipients: u32,
    total_amount: u64,
) -> (LedgerView<R>, Result<(), ErrorCode>) {
    let derived = run_address_spec(ledger.program_id, ctx.run_id);
    match ledger.update_run_totals_error(ctx.authority@, derived) {
        Some(error) => (ledger, Err(error)),
        None => (ledger.update_run_totals_done(total_recipients, total_amount, derived), Ok(())),
    }
}

/// What `close_record` does: the ledger afterwards and the result.
pub open spec fn close_record_spec<R>(ledger: LedgerView<R>, ctx: CloseRecord) -> (
    LedgerView<R>,
    Result<(), ErrorCode>,
) {
    let derived = record_address_spec(ledger.program_id, ctx.sol_wallet@, ctx.eth_address@);
    match ledger.find_record_error(ctx.authority@, derived) {
        Some(error) => (ledger, Err(error)),
        None => (ledger.close_record_done(derived), Ok(())),
    }
}

/// The run with identifier `run_id`, as far as `ledger` holds it.
pub open spec fn run_of_spec<R>(ledger: LedgerView<R>, run_id: u64) -> Option<AirdropRun> {
    let derived = run_address_spec(ledger.program_id, run_id);
    if derived is Some && ledger.runs.dom().contains(address_of(derived)) {
        Some(ledger.runs[address_of(derived)])
    } else {
        None
    }
}

/// The record of a wallet and an external address, as far as `ledger` holds
/// it.
pub open spec fn record_of_spec<R>(ledger: LedgerView<R>, sol_wallet: Seq<u8>, eth_address: Seq<u8>)
    -> Option<R> {
    let derived = record_address_spec(ledger.program_id, sol_wallet, eth_address);
    if derived is Some && ledger.records.dom().contains(address_of(derived)) {
        Some(ledger.records[address_of(derived)])
    } else {
        None
    }
}

/// Creates the singleton state: `ctx.authority` becomes the authority and the
/// run counter starts at 0. Fails with `AlreadyInitialized` where the state
/// exists.
pub fn initialize_state<R: Copy>(ledger: &mut Ledger<R>, ctx: &InitializeState) -> (r: Result<
    (),
    ErrorCode,
>)
    ensures
        (final(ledger)@, r) == initialize_state_spec(old(ledger)@, *ctx),
        old(ledger)@.wf() ==> final(ledger)@.wf(),
{
    let derived = state_address(&ledger.program_id());
    ledger.initialize_state_at(ctx.authority, derived)
}

/// Creates the next run and returns its identifier, which is the new value
/// of the run counter. Only the authority may do so.
pub fn create_run<R: Copy>(ledger: &mut Ledger<R>, ctx: &CreateRun, dry_run: bool, now: i64) -> (r:
    Result<u64, ErrorCode>)
    ensures
        (final(ledger)@, r) == create_run_spec(old(ledger)@, *ctx, dry_run, now),
        old(ledger)@.wf() ==> final(ledger)@.wf(),
{
    let next = match ledger.state() {
        Some(state) => state.next_run_id(),
        None => None,
    };
    let derived = match next {
        Some(run_id) => run_address(&ledger.program_id(), run_id),
        None => None,
    };
    ledger.create_run_at(&ctx.authority, dry_run, now, derived)
}

/// Overwrites the totals of run `ctx.run_id`. Only the authority may do so;
/// calling it again corrects the values.
pub fn update_run_totals<R: Copy>(
    ledger: &mut Ledger<R>,
    ctx: &UpdateRunTotals,
    total_recipients: u32,
    total_amount: u64,
) -> (r: Result<(), ErrorCode>)
    ensures
        (final(ledger)@, r) == update_run_totals_spec(
            old(ledger)@,
            *ctx,
            total_recipients,
            total_amount,
        ),
        old(ledger)@.wf() ==> final(ledger)@.wf(),
{
    let derived = run_address(&ledger.program_id(), ctx.run_id);
    ledger.update_run_totals_at(&ctx.authority, total_recipients, total_amount, derived)
}

/// Destroys the record of `ctx.sol_wallet` and `ctx.eth_address`. Only the
/// authority may do so.
pub fn close_record<R: Copy>(ledger: &mut Ledger<R>, ctx: &CloseRecord) -> (r: Result<
    (),
    ErrorCode,
>)
    ensures
        (final(ledger)@, r) == close_record_spec(old(ledger)@, *ctx),
        old(ledger)@.wf() ==> final(ledger)@.wf(),
{
    let derived = record_address(&ledger.program_id(), &ctx.sol_wallet, &ctx.eth_address);
    ledger.close_record_at(&ctx.authority, derived)
}

/// Looks up the run with identifier `run_id`.
pub fn run_of<R: Copy>(ledger: &Ledger<R>, run_id: u64) -> (run: Option<AirdropRun>)
    ensures
        run == run_of_spec(ledger@, run_id),
{
    match run_address(&ledger.program_id(), run_id) {
        Some(pda) => ledger.run_at(&pda.address),
        None => None,
    }
}

/// Looks up the record of a wallet and an external address.
pub fn record_of<R: Copy>(ledger: &Ledger<R>, sol_wallet: &Pubkey, eth_address: &[u8; 42]) -> (record:
    Option<R>)
    ensures
        record == record_of_spec(ledger@, sol_wallet@, eth_address@),
{
    match record_address(&ledger.program_id(), sol_wallet, eth_address) {
        Some(pda) => ledger.record_at(&pda.address),
        None => None,
    }
}

} // verus!
