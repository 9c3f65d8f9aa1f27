//! What holds of the two-token tracker over every ledger and every call.

use vstd::prelude::*;
use crate::error::ErrorCode;
use crate::instructions::close_record_spec;
use crate::instructions::record_of_spec;
use crate::instructions::CloseRecord;
use crate::instructions::InitializeRecord;
use crate::instructions::UpdateRecord;
use crate::ledger::LedgerView;
use crate::pda::bump_of;
use crate::pda::record_address_spec;
use crate::xnm_airdrop_tracker::initialize_and_update_spec;
use crate::xnm_airdrop_tracker::initialize_record_spec;
use crate::xnm_airdrop_tracker::process_spec;
use crate::xnm_airdrop_tracker::update_record_spec;
use crate::xnm_airdrop_tracker::AirdropRecord;
use crate::xnm_airdrop_tracker::Instruction;
use crate::xnm_airdrop_tracker::TOKEN_XBLK;
use crate::xnm_airdrop_tracker::TOKEN_XNM;

verus! {

/// Whether `token_type` selects one of the two tokens.
pub open spec fn is_token(token_type: u8) -> bool {
    token_type == TOKEN_XNM || token_type == TOKEN_XBLK
}

/// One call of `update_record`: the selector, the amount and the time.
pub struct Update {
    pub token_type: u8,
    pub amount_to_add: u64,
    pub now: i64,
}

/// The ledger after `update_record` was called once for each of `updates`, in
/// order, on the record that `ctx` names.
pub open spec fn update_all(
    ledger: LedgerView<AirdropRecord>,
    ctx: UpdateRecord,
    updates: Seq<Update>,
) -> LedgerView<AirdropRecord>
    decreases updates.len(),
{
    if updates.len() == 0 {
        ledger
    } else {
        update_record_spec(
            update_all(ledger, ctx, updates.drop_last()),
            ctx,
            updates.last().token_type,
            updates.last().amount_to_add,
            updates.last().now,
        ).0
    }
}

/// Whether the last of `updates` succeeds after the others were made.
pub open spec fn last_applies(
    ledger: LedgerView<AirdropRecord>,
    ctx: UpdateRecord,
    updates: Seq<Update>,
) -> bool {
    update_record_spec(
        update_all(ledger, ctx, updates.drop_last()),
        ctx,
        updates.last().token_type,
        updates.last().amount_to_add,
        updates.last().now,
    ).1 is Ok
}

/// What `update` asks to add to the token that `token_type` selects.
pub open spec fn amount_for(update: Update, token_type: u8) -> int {
    if update.token_type == token_type {
        update.amount_to_add as int
    } else {
        0
    }
}

/// What the calls of `updates` that succeeded added to the token that
/// `token_type` selects.
pub open spec fn applied_sum(
    ledger: LedgerView<AirdropRecord>,
    ctx: UpdateRecord,
    updates: Seq<Update>,
    token_type: u8,
) -> int
    decreases updates.len(),
{
    if updates.len() == 0 {
        0
    } else {
        let earlier = applied_sum(ledger, ctx, updates.drop_last(), token_type);
        if last_applies(ledger, ctx, updates) {
            earlier + amount_for(updates.last(), token_type)
        } else {
            earlier
        }
    }
}

/// What all of `updates` would add to the token that `token_type` selects.
pub open spec fn requested_sum(updates: Seq<Update>, token_type: u8) -> int
    decreases updates.len(),
{
    if updates.len() == 0 {
        0
    } else {
        requested_sum(updates.drop_last(), token_type) + amount_for(updates.last(), token_type)
    }
}

/// An update by the authority fails with `InvalidTokenType` where the
/// selector names no token, and with `Overflow` where the selected counter
/// cannot take the amount; either way the ledger is as it was. Otherwise it
/// succeeds: the selected counter has grown by the amount and the other one
/// is as it was.
pub proof fn lemma_update_adds_or_fails(
    ledger: LedgerView<AirdropRecord>,
    ctx: UpdateRecord,
    token_type: u8,
    amount_to_add: u64,
    now: i64,
)
    requires
        ledger.is_authority(ctx.authority@),
        record_of_spec(ledger, ctx.sol_wallet@, ctx.eth_address@) is Some,
    ensures
        ({
            let record = record_of_spec(ledger, ctx.sol_wallet@, ctx.eth_address@)->0;
            let (after, r) = update_record_spec(ledger, ctx, token_type, amount_to_add, now);
            let updated = record_of_spec(after, ctx.sol_wallet@, ctx.eth_address@);
            if !is_token(token_type) {
                r == Err::<(), ErrorCode>(ErrorCode::InvalidTokenType) && after == ledger
            } else if record.counter(token_type) + amount_to_add > u64::MAX {
                r == Err::<(), ErrorCode>(ErrorCode::Overflow) && after == ledger
            } else {
                &&& r is Ok
                &&& updated is Some
                &&& updated->0.last_updated == now
                &&& updated->0.counter(token_type) == record.counter(token_type) + amount_to_add
                &&& forall|other: u8|
                    is_token(other) && other != token_type ==> updated->0.counter(other)
                        == record.counter(other)
            }
        }),
{
}

/// After any sequence of updates of one record, each counter is what it was
/// plus the amounts of the calls that selected it and succeeded. A call that
/// failed has added nothing.
pub proof fn lemma_counters_sum_applied_updates(
    ledger: LedgerView<AirdropRecord>,
    ctx: UpdateRecord,
    updates: Seq<Update>,
    token_type: u8,
)
    requires
        is_token(token_type),
        record_of_spec(ledger, ctx.sol_wallet@, ctx.eth_address@) is Some,
    ensures
        record_of_spec(update_all(ledger, ctx, updates), ctx.sol_wallet@, ctx.eth_address@)
            is Some,
        record_of_spec(
            update_all(ledger, ctx, updates),
            ctx.sol_wallet@,
            ctx.eth_address@,
        )->0.counter(token_type) == record_of_spec(
            ledger,
            ctx.sol_wallet@,
            ctx.eth_address@,
        )->0.counter(token_type) + applied_sum(ledger, ctx, updates, token_type),
        update_all(ledger, ctx, updates).state == ledger.state,
        update_all(ledger, ctx, updates).program_id == ledger.program_id,
    decreases updates.len(),
{
    if updates.len() > 0 {
        lemma_counters_sum_applied_updates(ledger, ctx, updates.drop_last(), token_type);
    }
}

/// Where every selector of a sequence of updates by the authority names a
/// token and both counters can take everything that is asked for, every call
/// succeeds and each counter ends at what it was plus the sum of its amounts.
pub proof fn lemma_updates_add_up(
    ledger: LedgerView<AirdropRecord>,
    ctx: UpdateRecord,
    updates: Seq<Update>,
)
    requires
        ledger.is_authority(ctx.authority@),
        record_of_spec(ledger, ctx.sol_wallet@, ctx.eth_address@) is Some,
        forall|k: int| 0 <= k < updates.len() ==> is_token(#[trigger] updates[k].token_type),
        record_of_spec(ledger, ctx.sol_wallet@, ctx.eth_address@)->0.xnm_airdropped
            + requested_sum(updates, TOKEN_XNM) <= u64::MAX,
        record_of_spec(ledger, ctx.sol_wallet@, ctx.eth_address@)->0.xblk_airdropped
            + requested_sum(updates, TOKEN_XBLK) <= u64::MAX,
    ensures
        record_of_spec(
            update_all(ledger, ctx, updates),
            ctx.sol_wallet@,
            ctx.eth_address@,
        )->0.xnm_airdropped == record_of_spec(
            ledger,
            ctx.sol_wallet@,
            ctx.eth_address@,
        )->0.xnm_airdropped + requested_sum(updates, TOKEN_XNM),
        record_of_spec(
            update_all(ledger, ctx, updates),
            ctx.sol_wallet@,
            ctx.eth_address@,
        )->0.xblk_airdropped == record_of_spec(
            ledger,
            ctx.sol_wallet@,
            ctx.eth_address@,
        )->0.xblk_airdropped + requested_sum(updates, TOKEN_XBLK),
        updates.len() > 0 ==> last_applies(ledger, ctx, updates),
    decreases updates.len(),
{
    if updates.len() > 0 {
        let earlier = updates.drop_last();
        let last = updates.last();
        assert(is_token(updates[updates.len() - 1].token_type));
        assert forall|k: int| 0 <= k < earlier.len() implies is_token(
            #[trigger] earlier[k].token_type,
        ) by {
            assert(earlier[k] == updates[k]);
        }
        lemma_updates_add_up(ledger, ctx, earlier);
        lemma_counters_sum_applied_updates(ledger, ctx, earlier, TOKEN_XNM);
        let before = update_all(ledger, ctx, earlier);
        lemma_update_adds_or_fails(before, ctx, last.token_type, last.amount_to_add, last.now);
    }
}

/// One call at its time.
pub struct Call {
    pub instruction: Instruction,
    pub now: i64,
}

/// The ledger after `calls` were processed in order.
pub open spec fn process_all(ledger: LedgerView<AirdropRecord>, calls: Seq<Call>) -> LedgerView<
    AirdropRecord,
>
    decreases calls.len(),
{
    if calls.len() == 0 {
        ledger
    } else {
        process_spec(
            process_all(ledger, calls.drop_last()),
            calls.last().instruction,
            calls.last().now,
        ).0
    }
}

/// The identifiers of the runs that `calls` created, in the order of their
/// creation.
pub open spec fn created_runs(ledger: LedgerView<AirdropRecord>, calls: Seq<Call>) -> Seq<u64>
    decreases calls.len(),
{
    if calls.len() == 0 {
        Seq::empty()
    } else {
        let earlier = created_runs(ledger, calls.drop_last());
        match process_spec(
            process_all(ledger, calls.drop_last()),
            calls.last().instruction,
            calls.last().now,
        ).1 {
            Ok(Some(run_id)) => earlier.push(run_id),
            _ => earlier,
        }
    }
}

/// Whatever calls are made, and in whatever order, the runs that they create
/// get the identifiers that follow the counter, one by one: no gap and no
/// repeat. On a fresh ledger these are 1, 2, 3 and so on.
pub proof fn lemma_run_ids_are_consecutive(ledger: LedgerView<AirdropRecord>, calls: Seq<Call>)
    ensures
        process_all(ledger, calls).run_counter() == ledger.run_counter() + created_runs(
            ledger,
            calls,
        ).len(),
        forall|k: int|
            0 <= k < created_runs(ledger, calls).len() ==> #[trigger] created_runs(ledger, calls)[k]
                == ledger.run_counter() + 1 + k,
    decreases calls.len(),
{
    if calls.len() > 0 {
        lemma_run_ids_are_consecutive(ledger, calls.drop_last());
    }
}

/// Creating a record where one exists fails with `DuplicateKey` and leaves
/// the ledger, and so the record, as it was.
pub proof fn lemma_existing_record_is_kept(
    ledger: LedgerView<AirdropRecord>,
    ctx: InitializeRecord,
    eth_address: [u8; 42],
    token_type: u8,
    initial_amount: u64,
    now: i64,
)
    requires
        ledger.is_authority(ctx.authority@),
        record_of_spec(ledger, ctx.sol_wallet@, eth_address@) is Some,
    ensures
        initialize_record_spec(ledger, ctx, eth_address, now) == (
            ledger,
            Err::<(), ErrorCode>(ErrorCode::DuplicateKey),
        ),
        initialize_and_update_spec(ledger, ctx, eth_address, token_type, initial_amount, now) == (
            ledger,
            Err::<(), ErrorCode>(ErrorCode::DuplicateKey),
        ),
{
}

/// After a record was closed, creating the record of the same wallet and
/// external address succeeds, and the new record counts nothing.
pub proof fn lemma_closed_record_starts_afresh(
    ledger: LedgerView<AirdropRecord>,
    ctx: CloseRecord,
    now: i64,
)
    requires
        close_record_spec(ledger, ctx).1 is Ok,
    ensures
        ({
            let closed = close_record_spec(ledger, ctx).0;
            let again = InitializeRecord { authority: ctx.authority, sol_wallet: ctx.sol_wallet };
            let (after, r) = initialize_record_spec(closed, again, ctx.eth_address, now);
            &&& record_of_spec(closed, ctx.sol_wallet@, ctx.eth_address@) is None
            &&& r is Ok
            &&& record_of_spec(after, ctx.sol_wallet@, ctx.eth_address@) == Some(
                AirdropRecord::new_spec(
                    ctx.sol_wallet,
                    ctx.eth_address,
                    now,
                    bump_of(
                        record_address_spec(ledger.program_id, ctx.sol_wallet@, ctx.eth_address@),
                    ),
                ),
            )
        }),
{
}

/// Every call but the creation of the state fails with `Unauthorized`, and
/// changes nothing, where the caller is not the authority.
pub proof fn lemma_unauthorized_call_is_rejected(
    ledger: LedgerView<AirdropRecord>,
    instruction: Instruction,
    now: i64,
)
    requires
        !(instruction is InitializeState),
        !ledger.is_authority(instruction.caller()@),
    ensures
        process_spec(ledger, instruction, now) == (
            ledger,
            Err::<Option<u64>, ErrorCode>(ErrorCode::Unauthorized),
        ),
{
}

/// A call keeps what holds of every ledger: nothing exists before the state
/// does, every run carries an identifier that the counter has issued, and no
/// identifier was given to two runs.
pub proof fn lemma_process_keeps_well_formed(
    ledger: LedgerView<AirdropRecord>,
    instruction: Instruction,
    now: i64,
)
    requires
        ledger.wf(),
    ensures
        process_spec(ledger, instruction, now).0.wf(),
{
}

/// Every ledger that calls can reach from an empty one is well formed.
pub proof fn lemma_reachable_ledger_is_well_formed(program_id: Seq<u8>, calls: Seq<Call>)
    ensures
        process_all(LedgerView::<AirdropRecord>::empty(program_id), calls).wf(),
    decreases calls.len(),
{
    if calls.len() > 0 {
        lemma_reachable_ledger_is_well_formed(program_id, calls.drop_last());
        lemma_process_keeps_well_formed(
            process_all(LedgerView::<AirdropRecord>::empty(program_id), calls.drop_last()),
            calls.last().instruction,
            calls.last().now,
        );
    }
}

/// No call but the closing of a record takes a record away or lowers one of
/// its counters.
pub proof fn lemma_counters_never_decrease(
    ledger: LedgerView<AirdropRecord>,
    instruction: Instruction,
    now: i64,
    address: Seq<u8>,
)
    requires
        !(instruction is CloseRecord),
        ledger.records.dom().contains(address),
    ensures
        ({
            let after = process_spec(ledger, instruction, now).0;
            &&& after.records.dom().contains(address)
            &&& forall|token_type: u8|
                is_token(token_type) ==> ledger.records[address].counter(token_type)
                    <= after.records[address].counter(token_type)
        }),
{
}

} // verus!
