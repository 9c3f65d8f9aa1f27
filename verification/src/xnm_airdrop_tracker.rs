//! The tracker of two tokens.
//!
//! A record counts, for one wallet and one external address, what has been
//! airdropped of XNM and of XBLK. An update names one of the two by a
//! selector and adds to its counter alone.

use vstd::prelude::*;
pub use crate::error::ErrorCode;
pub use crate::instructions::close_record;
pub use crate::instructions::create_run;
pub use crate::instructions::initialize_state;
pub use crate::instructions::update_run_totals;
pub use crate::instructions::CloseRecord;
pub use crate::instructions::CreateRun;
pub use crate::instructions::InitializeRecord;
pub use crate::instructions::InitializeState;
pub use crate::instructions::UpdateRecord;
pub use crate::instructions::UpdateRunTotals;
pub use crate::ledger::AirdropRun;
pub use crate::ledger::GlobalState;
use crate::pda::found_view;
use crate::ledger::Ledger;
use crate::ledger::LedgerView;
use crate::pda::address_of;
use crate::pda::bump_of;
use crate::pda::record_address;
use crate::pda::record_address_spec;
use crate::pda::ProgramAddress;
use crate::pubkey::Pubkey;

verus! {

/// Selector of the token XNM.
pub const TOKEN_XNM: u8 = 0;

/// Selector of the token XBLK.
pub const TOKEN_XBLK: u8 = 1;

/// What was airdropped to one wallet and external address, per token.
#[derive(Clone, Copy, Debug, PartialEq, Eq)]
pub struct AirdropRecord {
    /// The wallet that receives the airdrops.
    pub sol_wallet: Pubkey,
    /// The external address, as the 42 bytes of its text.
    pub eth_address: [u8; 42],
    /// Cumulative amount of XNM, in base units.
    pub xnm_airdropped: u64,
    /// Cumulative amount of XBLK, in base units.
    pub xblk_airdropped: u64,
    /// When the record was last written.
    pub last_updated: i64,
    /// Bump seed of the record's address.
    pub bump: u8,
}

impl AirdropRecord {
    /// The record that counts nothing yet.
    pub open spec fn new_spec(sol_wallet: Pubkey, eth_address: [u8; 42], now: i64, bump: u8)
        -> AirdropRecord {
        AirdropRecord {
            sol_wallet,
            eth_address,
            xnm_airdropped: 0,
            xblk_airdropped: 0,
            last_updated: now,
            bump,
        }
    }

    /// The counter that `token_type` selects; 0 where it selects none.
    pub open spec fn counter(self, token_type: u8) -> u64 {
        if token_type == TOKEN_XNM {
            self.xnm_airdropped
        } else if token_type == TOKEN_XBLK {
            self.xblk_airdropped
        } else {
            0
        }
    }

    /// The record after `amount` was added, at time `now`, to the counter
    /// that `token_type` selects: `InvalidTokenType` where it selects none,
    /// `Overflow` where the counter cannot take the amount.
    pub open spec fn add_spec(self, token_type: u8, amount: u64, now: i64) -> Result<
        AirdropRecord,
        ErrorCode,
    > {
        if token_type != TOKEN_XNM && token_type != TOKEN_XBLK {
            Err(ErrorCode::InvalidTokenType)
        } else if self.counter(token_type) + amount > u64::MAX {
            Err(ErrorCode::Overflow)
        } else if token_type == TOKEN_XNM {
            Ok(
                AirdropRecord {
                    xnm_airdropped: (self.xnm_airdropped + amount) as u64,
                    last_updated: now,
                    ..self
                },
            )
        } else {
            Ok(
                AirdropRecord {
                    xblk_airdropped: (self.xblk_airdropped + amount) as u64,
                    last_updated: now,
                    ..self
                },
            )
        }
    }

    /// The record whose selected counter starts at `initial_amount`.
    pub open spec fn with_amount_spec(
        sol_wallet: Pubkey,
        eth_address: [u8; 42],
        token_type: u8,
        initial_amount: u64,
        now: i64,
        bump: u8,
    ) -> Result<AirdropRecord, ErrorCode> {
        Self::new_spec(sol_wallet, eth_address, now, bump).add_spec(
            token_type,
            initial_amount,
            now,
        )
    }

    /// A record with both counters at 0.
    pub fn new(sol_wallet: Pubkey, eth_address: [u8; 42], now: i64, bump: u8) -> (record:
        AirdropRecord)
        ensures
            record == Self::new_spec(sol_wallet, eth_address, now, bump),
    {
        AirdropRecord {
            sol_wallet,
            eth_address,
            xnm_airdropped: 0,
            xblk_airdropped: 0,
            last_updated: now,
            bump,
        }
    }

    /// A record whose selected counter starts at `initial_amount` and whose
    /// other counter is 0. Starting from 0, the amount always fits.
    pub fn with_amount(
        sol_wallet: Pubkey,
        eth_address: [u8; 42],
        token_type: u8,
        initial_amount: u64,
        now: i64,
        bump: u8,
    ) -> (r: Result<AirdropRecord, ErrorCode>)
        ensures
            r == Self::with_amount_spec(
                sol_wallet,
                eth_address,
                token_type,
                initial_amount,
                now,
                bump,
            ),
            r is Ok <==> token_type == TOKEN_XNM || token_type == TOKEN_XBLK,
    {
        AirdropRecord::new(sol_wallet, eth_address, now, bump).add(token_type, initial_amount, now)
    }

    /// Adds `amount` to the counter that `token_type` selects and notes the
    /// time.
    pub fn add(&self, token_type: u8, amount: u64, now: i64) -> (r: Result<
        AirdropRecord,
        ErrorCode,
    >)
        ensures
            r == self.add_spec(token_type, amount, now),
    {
        if token_type == TOKEN_XNM {
            match self.xnm_airdropped.checked_add(amount) {
                None => Err(ErrorCode::Overflow),
                Some(total) => Ok(
                    AirdropRecord {
                        sol_wallet: self.sol_wallet,
                        eth_address: self.eth_address,
                        xnm_airdropped: total,
                        xblk_airdropped: self.xblk_airdropped,
                        last_updated: now,
                        bump: self.bump,
                    },
                ),
            }
        } else if token_type == TOKEN_XBLK {
            match self.xblk_airdropped.checked_add(amount) {
                None => Err(ErrorCode::Overflow),
                Some(total) => Ok(
                    AirdropRecord {
                        sol_wallet: self.sol_wallet,
                        eth_address: self.eth_address,
                        xnm_airdropped: self.xnm_airdropped,
                        xblk_airdropped: total,
                        last_updated: now,
                        bump: self.bump,
                    },
                ),
            }
        } else {
            Err(ErrorCode::InvalidTokenType)
        }
    }
}

/// What `initialize_record_at` does: the ledger afterwards and the result.
pub open spec fn initialize_record_at_spec(
    ledger: LedgerView<AirdropRecord>,
    caller: Seq<u8>,
    sol_wallet: Pubkey,
    eth_address: [u8; 42],
    now: i64,
    derived: Option<(Seq<u8>, u8)>,
) -> (LedgerView<AirdropRecord>, Result<(), ErrorCode>) {
    match ledger.create_record_error(caller, derived) {
        Some(error) => (ledger, Err(error)),
        None => (
            ledger.with_record(
                address_of(derived),
                AirdropRecord::new_spec(sol_wallet, eth_address, now, bump_of(derived)),
            ),
            Ok(()),
        ),
    }
}

/// What `initialize_and_update_at` does: the ledger afterwards and the
/// result.
pub open spec fn initialize_and_update_at_spec(
    ledger: LedgerView<AirdropRecord>,
    caller: Seq<u8>,
    sol_wallet: Pubkey,
    eth_address: [u8; 42],
    token_type: u8,
    initial_amount: u64,
    now: i64,
    derived: Option<(Seq<u8>, u8)>,
) -> (LedgerView<AirdropRecord>, Result<(), ErrorCode>) {
    match ledger.create_record_error(caller, derived) {
        Some(error) => (ledger, Err(error)),
        None => match AirdropRecord::with_amount_spec(
            sol_wallet,
            eth_address,
            token_type,
            initial_amount,
            now,
            bump_of(derived),
        ) {
            Err(error) => (ledger, Err(error)),
            Ok(record) => (ledger.with_record(address_of(derived), record), Ok(())),
        },
    }
}

/// What `update_record_at` does: the ledger afterwards and the result.
pub open spec fn update_record_at_spec(
    ledger: LedgerView<AirdropRecord>,
    caller: Seq<u8>,
    token_type: u8,
    amount_to_add: u64,
    now: i64,
    derived: Option<(Seq<u8>, u8)>,
) -> (LedgerView<AirdropRecord>, Result<(), ErrorCode>) {
    match ledger.find_record_error(caller, derived) {
        Some(error) => (ledger, Err(error)),
        None => match ledger.records[address_of(derived)].add_spec(token_type, amount_to_add, now) {
            Err(error) => (ledger, Err(error)),
            Ok(record) => (ledger.with_record(address_of(derived), record), Ok(())),
        },
    }
}

impl Ledger<AirdropRecord> {
    /// Creates, at the address `derived`, the record of `sol_wallet` and
    /// `eth_address` with both counters at 0.
    pub fn initialize_record_at(
        &mut self,
        caller: &Pubkey,
        sol_wallet: Pubkey,
        eth_address: [u8; 42],
        now: i64,
        derived: Option<ProgramAddress>,
    ) -> (r: Result<(), ErrorCode>)
        ensures
            (final(self)@, r) == initialize_record_at_spec(
                old(self)@,
                caller@,
                sol_wallet,
                eth_address,
                now,
                found_view(derived),
            ),
            old(self)@.wf() ==> final(self)@.wf(),
    {
        let bump = match derived {
            Some(pda) => pda.bump,
            None => 0,
        };
        let record = AirdropRecord::new(sol_wallet, eth_address, now, bump);
        self.create_record_at(caller, record, derived)
    }

    /// Adds `amount_to_add` to the counter that `token_type` selects in the
    /// record at the address `derived`. A failed call leaves the record as
    /// it is.
    pub fn update_record_at(
        &mut self,
        caller: &Pubkey,
        token_type: u8,
        amount_to_add: u64,
        now: i64,
        derived: Option<ProgramAddress>,
    ) -> (r: Result<(), ErrorCode>)
        ensures
            (final(self)@, r) == update_record_at_spec(
                old(self)@,
                caller@,
                token_type,
                amount_to_add,
                now,
                found_view(derived),
            ),
            old(self)@.wf() ==> final(self)@.wf(),
    {
        let record = match self.find_record_at(caller, derived) {
            Ok(record) => record,
            Err(error) => {
                return Err(error);
            },
        };
        match record.add(token_type, amount_to_add, now) {
            Err(error) => Err(error),
            Ok(updated) => self.replace_record_at(caller, updated, derived),
        }
    }

    /// Creates, at the address `derived`, the record of `sol_wallet` and
    /// `eth_address` with the selected counter at `initial_amount`: creation
    /// and first update in one step. Where the selector names no token,
    /// nothing is created.
    pub fn initialize_and_update_at(
        &mut self,
        caller: &Pubkey,
        sol_wallet: Pubkey,
        eth_address: [u8; 42],
        token_type: u8,
        initial_amount: u64,
        now: i64,
        derived: Option<ProgramAddress>,
    ) -> (r: Result<(), ErrorCode>)
        ensures
            (final(self)@, r) == initialize_and_update_at_spec(
                old(self)@,
                caller@,
                sol_wallet,
                eth_address,
                token_type,
                initial_amount,
                now,
                found_view(derived),
            ),
            old(self)@.wf() ==> final(self)@.wf(),
    {
        match self.check_vacant_at(caller, derived) {
            Err(error) => {
                return Err(error);
            },
            Ok(_) => {},
        }
        let bump = derived.unwrap().bump;
        match AirdropRecord::with_amount(
            sol_wallet,
            eth_address,
            token_type,
            initial_amount,
            now,
            bump,
        ) {
            Err(error) => Err(error),
            Ok(record) => self.create_record_at(caller, record, derived),
        }
    }
}

/// What `initialize_record` does: the ledger afterwards and the result.
pub open spec fn initialize_record_spec(
    ledger: LedgerView<AirdropRecord>,
    ctx: InitializeRecord,
    eth_address: [u8; 42],
    now: i64,
) -> (LedgerView<AirdropRecord>, Result<(), ErrorCode>) {
    initialize_record_at_spec(
        ledger,
        ctx.authority@,
        ctx.sol_wallet,
        eth_address,
        now,
        record_address_spec(ledger.program_id, ctx.sol_wallet@, eth_address@),
    )
}

/// What `update_record` does: the ledger afterwards and the result.
pub open spec fn update_record_spec(
    ledger: LedgerView<AirdropRecord>,
    ctx: UpdateRecord,
    token_type: u8,
    amount_to_add: u64,
    now: i64,
) -> (LedgerView<AirdropRecord>, Result<(), ErrorCode>) {
    update_record_at_spec(
        ledger,
        ctx.authority@,
        token_type,
        amount_to_add,
        now,
        record_address_spec(ledger.program_id, ctx.sol_wallet@, ctx.eth_address@),
    )
}

/// What `initialize_and_update` does: the ledger afterwards and the result.
pub open spec fn initialize_and_update_spec(
    ledger: LedgerView<AirdropRecord>,
    ctx: InitializeRecord,
    eth_address: [u8; 42],
    token_type: u8,
    initial_amount: u64,
    now: i64,
) -> (LedgerView<AirdropRecord>, Result<(), ErrorCode>) {
    initialize_and_update_at_spec(
        ledger,
        ctx.authority@,
        ctx.sol_wallet,
        eth_address,
        token_type,
        initial_amount,
        now,
        record_address_spec(ledger.program_id, ctx.sol_wallet@, eth_address@),
    )
}

/// Creates the record of `ctx.sol_wallet` and `eth_address` with both counters
/// at 0. Fails with `DuplicateKey` where that record exists, and leaves it as
/// it is.
pub fn initialize_record(
    ledger: &mut Ledger<AirdropRecord>,
    ctx: &InitializeRecord,
    eth_address: [u8; 42],
    now: i64,
) -> (r: Result<(), ErrorCode>)
    ensures
        (final(ledger)@, r) == initialize_record_spec(old(ledger)@, *ctx, eth_address, now),
        old(ledger)@.wf() ==> final(ledger)@.wf(),
{
    let derived = record_address(&ledger.program_id(), &ctx.sol_wallet, &eth_address);
    ledger.initialize_record_at(&ctx.authority, ctx.sol_wallet, eth_address, now, derived)
}

/// Adds `amount_to_add` to one counter of the record of `ctx.sol_wallet` and
/// `ctx.eth_address`: XNM for selector 0, XBLK for selector 1. Fails with
/// `InvalidTokenType` for another selector and with `Overflow` where the
/// counter would exceed its maximum; a failed call changes nothing.
pub fn update_record(
    ledger: &mut Ledger<AirdropRecord>,
    ctx: &UpdateRecord,
    token_type: u8,
    amount_to_add: u64,
    now: i64,
) -> (r: Result<(), ErrorCode>)
    ensures
        (final(ledger)@, r) == update_record_spec(
            old(ledger)@,
            *ctx,
            token_type,
            amount_to_add,
            now,
        ),
        old(ledger)@.wf() ==> final(ledger)@.wf(),
{
    let derived = record_address(&ledger.program_id(), &ctx.sol_wallet, &ctx.eth_address);
    ledger.update_record_at(&ctx.authority, token_type, amount_to_add, now, derived)
}

/// Creates the record of `ctx.sol_wallet` and `eth_address` with the selected
/// counter at `initial_amount`.
pub fn initialize_and_update(
    ledger: &mut Ledger<AirdropRecord>,
    ctx: &InitializeRecord,
    eth_address: [u8; 42],
    token_type: u8,
    initial_amount: u64,
    now: i64,
) -> (r: Result<(), ErrorCode>)
    ensures
        (final(ledger)@, r) == initialize_and_update_spec(
            old(ledger)@,
            *ctx,
            eth_address,
            token_type,
            initial_amount,
            now,
        ),
        old(ledger)@.wf() ==> final(ledger)@.wf(),
{
    let derived = record_address(&ledger.program_id(), &ctx.sol_wallet, &eth_address);
    ledger.initialize_and_update_at(
        &ctx.authority,
        ctx.sol_wallet,
        eth_address,
        token_type,
        initial_amount,
        now,
        derived,
    )
}

/// One call of an operation, with what the caller supplies.
#[allow(inconsistent_fields)]
#[derive(Clone, Copy, Debug, PartialEq, Eq)]
pub enum Instruction {
    InitializeState { ctx: InitializeState },
    CreateRun { ctx: CreateRun, dry_run: bool },
    UpdateRunTotals { ctx: UpdateRunTotals, total_recipients: u32, total_amount: u64 },
    InitializeRecord { ctx: InitializeRecord, eth_address: [u8; 42] },
    UpdateRecord { ctx: UpdateRecord, token_type: u8, amount_to_add: u64 },
    InitializeAndUpdate {
        ctx: InitializeRecord,
        eth_address: [u8; 42],
        token_type: u8,
        initial_amount: u64,
    },
    CloseRecord { ctx: CloseRecord },
}

impl Instruction {
    /// Who makes the call.
    pub open spec fn caller(self) -> Pubkey {
        match self {
            Instruction::InitializeState { ctx } => ctx.authority,
            Instruction::CreateRun { ctx, .. } => ctx.authority,
            Instruction::UpdateRunTotals { ctx, .. } => ctx.authority,
            Instruction::InitializeRecord { ctx, .. } => ctx.authority,
            Instruction::UpdateRecord { ctx, .. } => ctx.authority,
            Instruction::InitializeAndUpdate { ctx, .. } => ctx.authority,
            Instruction::CloseRecord { ctx } => ctx.authority,
        }
    }
}

/// `Ok(None)` for a call that succeeded and returns nothing.
pub open spec fn done(r: Result<(), ErrorCode>) -> Result<Option<u64>, ErrorCode> {
    match r {
        Ok(_) => Ok(None),
        Err(error) => Err(error),
    }
}

/// What `process` does: the ledger afterwards and the result, which holds
/// the identifier of the run that a `CreateRun` created.
pub open spec fn process_spec(ledger: LedgerView<AirdropRecord>, instruction: Instruction, now: i64)
    -> (LedgerView<AirdropRecord>, Result<Option<u64>, ErrorCode>) {
    match instruction {
        Instruction::InitializeState { ctx } => {
            let (after, r) = crate::instructions::initialize_state_spec(ledger, ctx);
            (after, done(r))
        },
        Instruction::CreateRun { ctx, dry_run } => {
            let (after, r) = crate::instructions::create_run_spec(ledger, ctx, dry_run, now);
            (
                after,
                match r {
                    Ok(run_id) => Ok(Some(run_id)),
                    Err(error) => Err(error),
                },
            )
        },
        Instruction::UpdateRunTotals { ctx, total_recipients, total_amount } => {
            let (after, r) = crate::instructions::update_run_totals_spec(
                ledger,
                ctx,
                total_recipients,
                total_amount,
            );
            (after, done(r))
        },
        Instruction::InitializeRecord { ctx, eth_address } => {
            let (after, r) = initialize_record_spec(ledger, ctx, eth_address, now);
            (after, done(r))
        },
        Instruction::UpdateRecord { ctx, token_type, amount_to_add } => {
            let (after, r) = update_record_spec(ledger, ctx, token_type, amount_to_add, now);
            (after, done(r))
        },
        Instruction::InitializeAndUpdate { ctx, eth_address, token_type, initial_amount } => {
            let (after, r) = initialize_and_update_spec(
                ledger,
                ctx,
                eth_address,
                token_type,
                initial_amount,
                now,
            );
            (after, done(r))
        },
        Instruction::CloseRecord { ctx } => {
            let (after, r) = crate::instructions::close_record_spec(ledger, ctx);
            (after, done(r))
        },
    }
}

/// Carries out one call at time `now`. A call that fails changes nothing.
pub fn process(ledger: &mut Ledger<AirdropRecord>, instruction: &Instruction, now: i64) -> (r:
    Result<Option<u64>, ErrorCode>)
    ensures
        (final(ledger)@, r) == process_spec(old(ledger)@, *instruction, now),
        r is Err ==> final(ledger)@ == old(ledger)@,
        old(ledger)@.wf() ==> final(ledger)@.wf(),
{
    match instruction {
        Instruction::InitializeState { ctx } => match initialize_state(ledger, ctx) {
            Ok(_) => Ok(None),
            Err(error) => Err(error),
        },
        Instruction::CreateRun { ctx, dry_run } => match create_run(ledger, ctx, *dry_run, now) {
            Ok(run_id) => Ok(Some(run_id)),
            Err(error) => Err(error),
        },
        Instruction::UpdateRunTotals {
            ctx,
            total_recipients,
            total_amount,
        } => match update_run_totals(ledger, ctx, *total_recipients, *total_amount) {
            Ok(_) => Ok(None),
            Err(error) => Err(error),
        },
        Instruction::InitializeRecord {
            ctx,
            eth_address,
        } => match initialize_record(ledger, ctx, *eth_address, now) {
            Ok(_) => Ok(None),
            Err(error) => Err(error),
        },
        Instruction::UpdateRecord {
            ctx,
            token_type,
            amount_to_add,
        } => match update_record(ledger, ctx, *token_type, *amount_to_add, now) {
            Ok(_) => Ok(None),
            Err(error) => Err(error),
        },
        Instruction::InitializeAndUpdate {
            ctx,
            eth_address,
            token_type,
            initial_amount,
        } => match initialize_and_update(
            ledger,
            ctx,
            *eth_address,
            *token_type,
            *initial_amount,
            now,
        ) {
            Ok(_) => Ok(None),
            Err(error) => Err(error),
        },
        Instruction::CloseRecord { ctx } => match close_record(ledger, ctx) {
            Ok(_) => Ok(None),
            Err(error) => Err(error),
        },
    }
}

} // verus!
