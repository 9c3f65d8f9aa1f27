//! The tracker of three tokens and the native token.
//!
//! A record counts, for one wallet and one external address, what has been
//! airdropped of XNM, XBLK, XUNI and of the native token. An update adds to
//! all four counters at once, or to none of them.

use vstd::prelude::*;
pub use crate::error::ErrorCode;
pub use crate::instructions::close_record;
pub use crate::instructions::create_run;
pub use crate::instructions::initialize_state;
pub use crate::instructions::update_run_totals;
pub use crate::instructions::CloseRecord;
pub use crate::instructions::CreateRun;
pub use crate::instructions::InitializeRecord;
pub use crate::instructions::InitializeState;
pub use crate::instructions::UpdateRecord;
pub use crate::instructions::UpdateRunTotals;
pub use crate::ledger::AirdropRun;
pub use crate::ledger::GlobalState;
use crate::pda::found_view;
use crate::ledger::Ledger;
use crate::ledger::LedgerView;
use crate::pda::address_of;
use crate::pda::bump_of;
use crate::pda::record_address;
use crate::pda::record_address_spec;
use crate::pda::ProgramAddress;
use crate::pubkey::Pubkey;

verus! {

/// What was airdropped to one wallet and external address, per token.
#[derive(Clone, Copy, Debug, PartialEq, Eq)]
pub struct AirdropRecord {
    /// The wallet that receives the airdrops.
    pub sol_wallet: Pubkey,
    /// The external address, as the 42 bytes of its text.
    pub eth_address: [u8; 42],
    /// Cumulative amount of XNM, in base units.
    pub xnm_airdropped: u64,
    /// Cumulative amount of XBLK, in base units.
    pub xblk_airdropped: u64,
    /// Cumulative amount of XUNI, in base units.
    pub xuni_airdropped: u64,
    /// Cumulative amount of the native token, in base units.
    pub native_airdropped: u64,
    /// When the record was last written.
    pub last_updated: i64,
    /// Bump seed of the record's address.
    pub bump: u8,
}

/// Amounts of the four tokens, in the order XNM, XBLK, XUNI, native.
#[derive(Clone, Copy, Debug, PartialEq, Eq)]
pub struct Amounts {
    pub xnm: u64,
    pub xblk: u64,
    pub xuni: u64,
    pub native: u64,
}

impl AirdropRecord {
    /// The record that counts `amounts`.
    pub open spec fn with_amounts_spec(
        sol_wallet: Pubkey,
        eth_address: [u8; 42],
        amounts: Amounts,
        now: i64,
        bump: u8,
    ) -> AirdropRecord {
        AirdropRecord {
            sol_wallet,
            eth_address,
            xnm_airdropped: amounts.xnm,
            xblk_airdropped: amounts.xblk,
            xuni_airdropped: amounts.xuni,
            native_airdropped: amounts.native,
            last_updated: now,
            bump,
        }
    }

    /// The record that counts nothing yet.
    pub open spec fn new_spec(sol_wallet: Pubkey, eth_address: [u8; 42], now: i64, bump: u8)
        -> AirdropRecord {
        Self::with_amounts_spec(
            sol_wallet,
            eth_address,
            Amounts { xnm: 0, xblk: 0, xuni: 0, native: 0 },
            now,
            bump,
        )
    }

    /// Whether all four counters can take `amounts` on top.
    pub open spec fn fits(self, amounts: Amounts) -> bool {
        &&& self.xnm_airdropped + amounts.xnm <= u64::MAX
        &&& self.xblk_airdropped + amounts.xblk <= u64::MAX
        &&& self.xuni_airdropped + amounts.xuni <= u64::MAX
        &&& self.native_airdropped + amounts.native <= u64::MAX
    }

    /// The record after `amounts` were added at time `now`, or `Overflow`
    /// where one of the counters cannot take its amount.
    pub open spec fn add_spec(self, amounts: Amounts, now: i64) -> Result<AirdropRecord, ErrorCode> {
        if self.fits(amounts) {
            Ok(
                AirdropRecord {
                    xnm_airdropped: (self.xnm_airdropped + amounts.xnm) as u64,
                    xblk_airdropped: (self.xblk_airdropped + amounts.xblk) as u64,
                    xuni_airdropped: (self.xuni_airdropped + amounts.xuni) as u64,
                    native_airdropped: (self.native_airdropped + amounts.native) as u64,
                    last_updated: now,
                    ..self
                },
            )
        } else {
            Err(ErrorCode::Overflow)
        }
    }

    /// A record with all counters at 0.
    pub fn new(sol_wallet: Pubkey, eth_address: [u8; 42], now: i64, bump: u8) -> (record:
        AirdropRecord)
        ensures
            record == Self::new_spec(sol_wallet, eth_address, now, bump),
    {
        AirdropRecord {
            sol_wallet,
            eth_address,
            xnm_airdropped: 0,
            xblk_airdropped: 0,
            xuni_airdropped: 0,
            native_airdropped: 0,
            last_updated: now,
            bump,
        }
    }

    /// A record whose counters start at the given amounts.
    pub fn with_amounts(
        sol_wallet: Pubkey,
        eth_address: [u8; 42],
        amounts: Amounts,
        now: i64,
        bump: u8,
    ) -> (record: AirdropRecord)
        ensures
            record == Self::with_amounts_spec(sol_wallet, eth_address, amounts, now, bump),
    {
        AirdropRecord {
            sol_wallet,
            eth_address,
            xnm_airdropped: amounts.xnm,
            xblk_airdropped: amounts.xblk,
            xuni_airdropped: amounts.xuni,
            native_airdropped: amounts.native,
            last_updated: now,
            bump,
        }
    }

    /// Adds `amounts` to the four counters and notes the time. Where one
    /// addition would overflow, none is made.
    pub fn add(&self, amounts: Amounts, now: i64) -> (r: Result<AirdropRecord, ErrorCode>)
        ensures
            r == self.add_spec(amounts, now),
    {
        let xnm = match self.xnm_airdropped.checked_add(amounts.xnm) {
            Some(total) => total,
            None => {
                return Err(ErrorCode::Overflow);
            },
        };
        let xblk = match self.xblk_airdropped.checked_add(amounts.xblk) {
            Some(total) => total,
            None => {
                return Err(ErrorCode::Overflow);
            },
        };
        let xuni = match self.xuni_airdropped.checked_add(amounts.xuni) {
            Some(total) => total,
            None => {
                return Err(ErrorCode::Overflow);
            },
        };
        let native = match self.native_airdropped.checked_add(amounts.native) {
            Some(total) => total,
            None => {
                return Err(ErrorCode::Overflow);
            },
        };
        Ok(
            AirdropRecord {
                sol_wallet: self.sol_wallet,
                eth_address: self.eth_address,
                xnm_airdropped: xnm,
                xblk_airdropped: xblk,
                xuni_airdropped: xuni,
                native_airdropped: native,
                last_updated: now,
                bump: self.bump,
            },
        )
    }
}

/// What `initialize_and_update_at` does: the ledger afterwards and the
/// result.
pub open spec fn initialize_and_update_at_spec(
    ledger: LedgerView<AirdropRecord>,
    caller: Seq<u8>,
    sol_wallet: Pubkey,
    eth_address: [u8; 42],
    amounts: Amounts,
    now: i64,
    derived: Option<(Seq<u8>, u8)>,
) -> (LedgerView<AirdropRecord>, Result<(), ErrorCode>) {
    match ledger.create_record_error(caller, derived) {
        Some(error) => (ledger, Err(error)),
        None => (
            ledger.with_record(
                address_of(derived),
                AirdropRecord::with_amounts_spec(
                    sol_wallet,
                    eth_address,
                    amounts,
                    now,
                    bump_of(derived),
                ),
            ),
            Ok(()),
        ),
    }
}

/// What `initialize_record_at` does: the ledger afterwards and the result.
pub open spec fn initialize_record_at_spec(
    ledger: LedgerView<AirdropRecord>,
    caller: Seq<u8>,
    sol_wallet: Pubkey,
    eth_address: [u8; 42],
    now: i64,
    derived: Option<(Seq<u8>, u8)>,
) -> (LedgerView<AirdropRecord>, Result<(), ErrorCode>) {
    initialize_and_update_at_spec(
        ledger,
        caller,
        sol_wallet,
        eth_address,
        Amounts { xnm: 0, xblk: 0, xuni: 0, native: 0 },
        now,
        derived,
    )
}

/// What `update_record_at` does: the ledger afterwards and the result.
pub open spec fn update_record_at_spec(
    ledger: LedgerView<AirdropRecord>,
    caller: Seq<u8>,
    amounts: Amounts,
    now: i64,
    derived: Option<(Seq<u8>, u8)>,
) -> (LedgerView<AirdropRecord>, Result<(), ErrorCode>) {
    match ledger.find_record_error(caller, derived) {
        Some(error) => (ledger, Err(error)),
        None => match ledger.records[address_of(derived)].add_spec(amounts, now) {
            Err(error) => (ledger, Err(error)),
            Ok(record) => (ledger.with_record(address_of(derived), record), Ok(())),
        },
    }
}

impl Ledger<AirdropRecord> {
    /// Creates, at the address `derived`, the record of `sol_wallet` and
    /// `eth_address` with all counters at 0.
    pub fn initialize_record_at(
        &mut self,
        caller: &Pubkey,
        sol_wallet: Pubkey,
        eth_address: [u8; 42],
        now: i64,
        derived: Option<ProgramAddress>,
    ) -> (r: Result<(), ErrorCode>)
        ensures
            (final(self)@, r) == initialize_record_at_spec(
                old(self)@,
                caller@,
                sol_wallet,
                eth_address,
                now,
                found_view(derived),
            ),
            old(self)@.wf() ==> final(self)@.wf(),
    {
        let bump = match derived {
            Some(pda) => pda.bump,
            None => 0,
        };
        let record = AirdropRecord::new(sol_wallet, eth_address, now, bump);
        self.create_record_at(caller, record, derived)
    }

    /// Adds `amounts` to the record at the address `derived`. Where one
    /// counter would overflow, the call fails and the record stays as it is.
    pub fn update_record_at(
        &mut self,
        caller: &Pubkey,
        amounts: Amounts,
        now: i64,
        derived: Option<ProgramAddress>,
    ) -> (r: Result<(), ErrorCode>)
        ensures
            (final(self)@, r) == update_record_at_spec(
                old(self)@,
                caller@,
                amounts,
                now,
                found_view(derived),
            ),
            old(self)@.wf() ==> final(self)@.wf(),
    {
        let record = match self.find_record_at(caller, derived) {
            Ok(record) => record,
            Err(error) => {
                return Err(error);
            },
        };
        match record.add(amounts, now) {
            Err(error) => Err(error),
            Ok(updated) => self.replace_record_at(caller, updated, derived),
        }
    }

    /// Creates, at the address `derived`, the record of `sol_wallet` and
    /// `eth_address` with its counters at `amounts`: creation and first
    /// update in one step.
    pub fn initialize_and_update_at(
        &mut self,
        caller: &Pubkey,
        sol_wallet: Pubkey,
        eth_address: [u8; 42],
        amounts: Amounts,
        now: i64,
        derived: Option<ProgramAddress>,
    ) -> (r: Result<(), ErrorCode>)
        ensures
            (final(self)@, r) == initialize_and_update_at_spec(
                old(self)@,
                caller@,
                sol_wallet,
                eth_address,
                amounts,
                now,
                found_view(derived),
            ),
            old(self)@.wf() ==> final(self)@.wf(),
    {
        let bump = match derived {
            Some(pda) => pda.bump,
            None => 0,
        };
        let record = AirdropRecord::with_amounts(sol_wallet, eth_address, amounts, now, bump);
        self.create_record_at(caller, record, derived)
    }
}

/// What `initialize_record` does: the ledger afterwards and the result.
pub open spec fn initialize_record_spec(
    ledger: LedgerView<AirdropRecord>,
    ctx: InitializeRecord,
    eth_address: [u8; 42],
    now: i64,
) -> (LedgerView<AirdropRecord>, Result<(), ErrorCode>) {
    initialize_record_at_spec(
        ledger,
        ctx.authority@,
        ctx.sol_wallet,
        eth_address,
        now,
        record_address_spec(ledger.program_id, ctx.sol_wallet@, eth_address@),
    )
}

/// What `update_record` does: the ledger afterwards and the result.
pub open spec fn update_record_spec(
    ledger: LedgerView<AirdropRecord>,
    ctx: UpdateRecord,
    amounts: Amounts,
    now: i64,
) -> (LedgerView<AirdropRecord>, Result<(), ErrorCode>) {
    update_record_at_spec(
        ledger,
        ctx.authority@,
        amounts,
        now,
        record_address_spec(ledger.program_id, ctx.sol_wallet@, ctx.eth_address@),
    )
}

/// What `initialize_and_update` does: the ledger afterwards and the result.
pub open spec fn initialize_and_update_spec(
    ledger: LedgerView<AirdropRecord>,
    ctx: InitializeRecord,
    eth_address: [u8; 42],
    amounts: Amounts,
    now: i64,
) -> (LedgerView<AirdropRecord>, Result<(), ErrorCode>) {
    initialize_and_update_at_spec(
        ledger,
        ctx.authority@,
        ctx.sol_wallet,
        eth_address,
        amounts,
        now,
        record_address_spec(ledger.program_id, ctx.sol_wallet@, eth_address@),
    )
}

/// Creates the record of `ctx.sol_wallet` and `eth_address` with all counters
/// at 0. Fails with `DuplicateKey` where that record exists, and leaves it as
/// it is.
pub fn initialize_record(
    ledger: &mut Ledger<AirdropRecord>,
    ctx: &InitializeRecord,
    eth_address: [u8; 42],
    now: i64,
) -> (r: Result<(), ErrorCode>)
    ensures
        (final(ledger)@, r) == initialize_record_spec(old(ledger)@, *ctx, eth_address, now),
        old(ledger)@.wf() ==> final(ledger)@.wf(),
{
    let derived = record_address(&ledger.program_id(), &ctx.sol_wallet, &eth_address);
    ledger.initialize_record_at(&ctx.authority, ctx.sol_wallet, eth_address, now, derived)
}

/// Adds the four amounts to the counters of the record of `ctx.sol_wallet` and
/// `ctx.eth_address`. Fails with `Overflow`, changing nothing, where one
/// counter would exceed its maximum.
pub fn update_record(
    ledger: &mut Ledger<AirdropRecord>,
    ctx: &UpdateRecord,
    xnm_amount: u64,
    xblk_amount: u64,
    xuni_amount: u64,
    native_amount: u64,
    now: i64,
) -> (r: Result<(), ErrorCode>)
    ensures
        (final(ledger)@, r) == update_record_spec(
            old(ledger)@,
            *ctx,
            Amounts { xnm: xnm_amount, xblk: xblk_amount, xuni: xuni_amount, native: native_amount },
            now,
        ),
        old(ledger)@.wf() ==> final(ledger)@.wf(),
{
    let derived = record_address(&ledger.program_id(), &ctx.sol_wallet, &ctx.eth_address);
    let amounts = Amounts {
        xnm: xnm_amount,
        xblk: xblk_amount,
        xuni: xuni_amount,
        native: native_amount,
    };
    ledger.update_record_at(&ctx.authority, amounts, now, derived)
}

/// Creates the record of `ctx.sol_wallet` and `eth_address` with its counters
/// at the four amounts.
pub fn initialize_and_update(
    ledger: &mut Ledger<AirdropRecord>,
    ctx: &InitializeRecord,
    eth_address: [u8; 42],
    xnm_amount: u64,
    xblk_amount: u64,
    xuni_amount: u64,
    native_amount: u64,
    now: i64,
) -> (r: Result<(), ErrorCode>)
    ensures
        (final(ledger)@, r) == initialize_and_update_spec(
            old(ledger)@,
            *ctx,
            eth_address,
            Amounts { xnm: xnm_amount, xblk: xblk_amount, xuni: xuni_amount, native: native_amount },
            now,
        ),
        old(ledger)@.wf() ==> final(ledger)@.wf(),
{
    let derived = record_address(&ledger.program_id(), &ctx.sol_wallet, &eth_address);
    let amounts = Amounts {
        xnm: xnm_amount,
        xblk: xblk_amount,
        xuni: xuni_amount,
        native: native_amount,
    };
    ledger.initialize_and_update_at(
        &ctx.authority,
        ctx.sol_wallet,
        eth_address,
        amounts,
        now,
        derived,
    )
}

/// One call of an operation, with what the caller supplies.
#[allow(inconsistent_fields)]
#[derive(Clone, Copy, Debug, PartialEq, Eq)]
pub enum Instruction {
    InitializeState { ctx: InitializeState },
    CreateRun { ctx: CreateRun, dry_run: bool },
    UpdateRunTotals { ctx: UpdateRunTotals, total_recipients: u32, total_amount: u64 },
    InitializeRecord { ctx: InitializeRecord, eth_address: [u8; 42] },
    UpdateRecord { ctx: UpdateRecord, amounts: Amounts },
    InitializeAndUpdate { ctx: InitializeRecord, eth_address: [u8; 42], amounts: Amounts },
    CloseRecord { ctx: CloseRecord },
}

impl Instruction {
    /// Who makes the call.
    pub open spec fn caller(self) -> Pubkey {
        match self {
            Instruction::InitializeState { ctx } => ctx.authority,
            Instruction::CreateRun { ctx, .. } => ctx.authority,
            Instruction::UpdateRunTotals { ctx, .. } => ctx.authority,
            Instruction::InitializeRecord { ctx, .. } => ctx.authority,
            Instruction::UpdateRecord { ctx, .. } => ctx.authority,
            Instruction::InitializeAndUpdate { ctx, .. } => ctx.authority,
            Instruction::CloseRecord { ctx } => ctx.authority,
        }
    }
}

/// `Ok(None)` for a call that succeeded and returns nothing.
pub open spec fn done(r: Result<(), ErrorCode>) -> Result<Option<u64>, ErrorCode> {
    match r {
        Ok(_) => Ok(None),
        Err(error) => Err(error),
    }
}

/// What `process` does: the ledger afterwards and the result, which holds
/// the identifier of the run that a `CreateRun` created.
pub open spec fn process_spec(ledger: LedgerView<AirdropRecord>, instruction: Instruction, now: i64)
    -> (LedgerView<AirdropRecord>, Result<Option<u64>, ErrorCode>) {
    match instruction {
        Instruction::InitializeState { ctx } => {
            let (after, r) = crate::instructions::initialize_state_spec(ledger, ctx);
            (after, done(r))
        },
        Instruction::CreateRun { ctx, dry_run } => {
            let (after, r) = crate::instructions::create_run_spec(ledger, ctx, dry_run, now);
            (
                after,
                match r {
                    Ok(run_id) => Ok(Some(run_id)),
                    Err(error) => Err(error),
                },
            )
        },
        Instruction::UpdateRunTotals { ctx, total_recipients, total_amount } => {
            let (after, r) = crate::instructions::update_run_totals_spec(
                ledger,
                ctx,
                total_recipients,
                total_amount,
            );
            (after, done(r))
        },
        Instruction::InitializeRecord { ctx, eth_address } => {
            let (after, r) = initialize_record_spec(ledger, ctx, eth_address, now);
            (after, done(r))
        },
        Instruction::UpdateRecord { ctx, amounts } => {
            let (after, r) = update_record_spec(ledger, ctx, amounts, now);
            (after, done(r))
        },
        Instruction::InitializeAndUpdate { ctx, eth_address, amounts } => {
            let (after, r) = initialize_and_update_spec(ledger, ctx, eth_address, amounts, now);
            (after, done(r))
        },
        Instruction::CloseRecord { ctx } => {
            let (after, r) = crate::instructions::close_record_spec(ledger, ctx);
            (after, done(r))
        },
    }
}

/// Carries out one call at time `now`. A call that fails changes nothing.
pub fn process(ledger: &mut Ledger<AirdropRecord>, instruction: &Instruction, now: i64) -> (r:
    Result<Option<u64>, ErrorCode>)
    ensures
        (final(ledger)@, r) == process_spec(old(ledger)@, *instruction, now),
        r is Err ==> final(ledger)@ == old(ledger)@,
        old(ledger)@.wf() ==> final(ledger)@.wf(),
{
    match instruction {
        Instruction::InitializeState { ctx } => match initialize_state(ledger, ctx) {
            Ok(_) => Ok(None),
            Err(error) => Err(error),
        },
        Instruction::CreateRun { ctx, dry_run } => match create_run(ledger, ctx, *dry_run, now) {
            Ok(run_id) => Ok(Some(run_id)),
            Err(error) => Err(error),
        },
        Instruction::UpdateRunTotals {
            ctx,
            total_recipients,
            total_amount,
        } => match update_run_totals(ledger, ctx, *total_recipients, *total_amount) {
            Ok(_) => Ok(None),
            Err(error) => Err(error),
        },
        Instruction::InitializeRecord {
            ctx,
            eth_address,
        } => match initialize_record(ledger, ctx, *eth_address, now) {
            Ok(_) => Ok(None),
            Err(error) => Err(error),
        },
        Instruction::UpdateRecord { ctx, amounts } => match update_record(
            ledger,
            ctx,
            amounts.xnm,
            amounts.xblk,
            amounts.xuni,
            amounts.native,
            now,
        ) {
            Ok(_) => Ok(None),
            Err(error) => Err(error),
        },
        Instruction::InitializeAndUpdate {
            ctx,
            eth_address,
            amounts,
        } => match initialize_and_update(
            ledger,
            ctx,
            *eth_address,
            amounts.xnm,
            amounts.xblk,
            amounts.xuni,
            amounts.native,
            now,
        ) {
            Ok(_) => Ok(None),
            Err(error) => Err(error),
        },
        Instruction::CloseRecord { ctx } => match close_record(ledger, ctx) {
            Ok(_) => Ok(None),
            Err(error) => Err(error),
        },
    }
}

} // verus!
