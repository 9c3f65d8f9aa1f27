//! What holds of the four-token tracker over every ledger and every call.

use vstd::prelude::*;
use crate::error::ErrorCode;
use crate::instructions::close_record_spec;
use crate::instructions::record_of_spec;
use crate::instructions::CloseRecord;
use crate::instructions::InitializeRecord;
use crate::instructions::UpdateRecord;
use crate::ledger::LedgerView;
use crate::pda::bump_of;
use crate::pda::record_address_spec;
use crate::xenblocks_airdrop_tracker::initialize_and_update_spec;
use crate::xenblocks_airdrop_tracker::initialize_record_spec;
use crate::xenblocks_airdrop_tracker::process_spec;
use crate::xenblocks_airdrop_tracker::update_record_spec;
use crate::xenblocks_airdrop_tracker::AirdropRecord;
use crate::xenblocks_airdrop_tracker::Amounts;
use crate::xenblocks_airdrop_tracker::Instruction;

verus! {

/// Number of tokens that a record counts.
pub open spec fn token_count() -> int {
    4
}

/// The amount of token `token` in `amounts`: 0 is XNM, 1 XBLK, 2 XUNI and 3
/// the native token.
pub open spec fn amount_of(amounts: Amounts, token: int) -> u64 {
    if token == 0 {
        amounts.xnm
    } else if token == 1 {
        amounts.xblk
    } else if token == 2 {
        amounts.xuni
    } else {
        amounts.native
    }
}

/// The counter of token `token` in `record`.
pub open spec fn counter_of(record: AirdropRecord, token: int) -> u64 {
    if token == 0 {
        record.xnm_airdropped
    } else if token == 1 {
        record.xblk_airdropped
    } else if token == 2 {
        record.xuni_airdropped
    } else {
        record.native_airdropped
    }
}

/// One call of `update_record`: the amounts and the time.
pub struct Update {
    pub amounts: Amounts,
    pub now: i64,
}

/// The ledger after `update_record` was called once for each of `updates`, in
/// order, on the record that `ctx` names.
pub open spec fn update_all(
    ledger: LedgerView<AirdropRecord>,
    ctx: UpdateRecord,
    updates: Seq<Update>,
) -> LedgerView<AirdropRecord>
    decreases updates.len(),
{
    if updates.len() == 0 {
        ledger
    } else {
        update_record_spec(
            update_all(ledger, ctx, updates.drop_last()),
            ctx,
            updates.last().amounts,
            updates.last().now,
        ).0
    }
}

/// Whether the last of `updates` succeeds after the others were made.
pub open spec fn last_applies(
    ledger: LedgerView<AirdropRecord>,
    ctx: UpdateRecord,
    updates: Seq<Update>,
) -> bool {
    update_record_spec(
        update_all(ledger, ctx, updates.drop_last()),
        ctx,
        updates.last().amounts,
        updates.last().now,
    ).1 is Ok
}

/// What the calls of `updates` that succeeded added to token `token`.
pub open spec fn applied_sum(
    ledger: LedgerView<AirdropRecord>,
    ctx: UpdateRecord,
    updates: Seq<Update>,
    token: int,
) -> int
    decreases updates.len(),
{
    if updates.len() == 0 {
        0
    } else {
        let earlier = applied_sum(ledger, ctx, updates.drop_last(), token);
        if last_applies(ledger, ctx, updates) {
            earlier + amount_of(updates.last().amounts, token)
        } else {
            earlier
        }
    }
}

/// What all of `updates` would add to token `token`.
pub open spec fn requested_sum(updates: Seq<Update>, token: int) -> int
    decreases updates.len(),
{
    if updates.len() == 0 {
        0
    } else {
        requested_sum(updates.drop_last(), token) + amount_of(updates.last().amounts, token)
    }
}

/// An update by the authority succeeds exactly where all four counters can
/// take their amounts. Then each counter has grown by its amount. Otherwise
/// the call fails with `Overflow` and the ledger is as it was.
pub proof fn lemma_update_adds_or_overflows(
    ledger: LedgerView<AirdropRecord>,
    ctx: UpdateRecord,
    amounts: Amounts,
    now: i64,
)
    requires
        ledger.is_authority(ctx.authority@),
        record_of_spec(ledger, ctx.sol_wallet@, ctx.eth_address@) is Some,
    ensures
        ({
            let record = record_of_spec(ledger, ctx.sol_wallet@, ctx.eth_address@)->0;
            let (after, r) = update_record_spec(ledger, ctx, amounts, now);
            let updated = record_of_spec(after, ctx.sol_wallet@, ctx.eth_address@);
            if record.fits(amounts) {
                &&& r is Ok
                &&& updated is Some
                &&& updated->0.last_updated == now
                &&& forall|token: int|
                    0 <= token < token_count() ==> counter_of(updated->0, token) == counter_of(
                        record,
                        token,
                    ) + amount_of(amounts, token)
            } else {
                r == Err::<(), ErrorCode>(ErrorCode::Overflow) && after == ledger
            }
        }),
{
}

/// After any sequence of updates of one record, each counter is what it was
/// plus the amounts of the calls that succeeded. A call that failed has added
/// nothing.
pub proof fn lemma_counters_sum_applied_updates(
    ledger: LedgerView<AirdropRecord>,
    ctx: UpdateRecord,
    updates: Seq<Update>,
    token: int,
)
    requires
        0 <= token < token_count(),
        record_of_spec(ledger, ctx.sol_wallet@, ctx.eth_address@) is Some,
    ensures
        record_of_spec(update_all(ledger, ctx, updates), ctx.sol_wallet@, ctx.eth_address@)
            is Some,
        counter_of(
            record_of_spec(update_all(ledger, ctx, updates), ctx.sol_wallet@, ctx.eth_address@)->0,
            token,
        ) == counter_of(record_of_spec(ledger, ctx.sol_wallet@, ctx.eth_address@)->0, token)
            + applied_sum(ledger, ctx, updates, token),
        update_all(ledger, ctx, updates).state == ledger.state,
        update_all(ledger, ctx, updates).program_id == ledger.program_id,
    decreases updates.len(),
{
    if updates.len() > 0 {
        lemma_counters_sum_applied_updates(ledger, ctx, updates.drop_last(), token);
    }
}

/// Where the counters can take everything that a sequence of updates by the
/// authority asks for, every call succeeds and each counter ends at what it
/// was plus the sum of its amounts.
pub proof fn lemma_updates_add_up(
    ledger: LedgerView<AirdropRecord>,
    ctx: UpdateRecord,
    updates: Seq<Update>,
)
    requires
        ledger.is_authority(ctx.authority@),
        record_of_spec(ledger, ctx.sol_wallet@, ctx.eth_address@) is Some,
        forall|token: int|
            0 <= token < token_count() ==> counter_of(
                record_of_spec(ledger, ctx.sol_wallet@, ctx.eth_address@)->0,
                token,
            ) + #[trigger] requested_sum(updates, token) <= u64::MAX,
    ensures
        forall|token: int|
            0 <= token < token_count() ==> counter_of(
                record_of_spec(
                    update_all(ledger, ctx, updates),
                    ctx.sol_wallet@,
                    ctx.eth_address@,
                )->0,
                token,
            ) == counter_of(record_of_spec(ledger, ctx.sol_wallet@, ctx.eth_address@)->0, token)
                + #[trigger] requested_sum(updates, token),
        updates.len() > 0 ==> last_applies(ledger, ctx, updates),
    decreases updates.len(),
{
    if updates.len() > 0 {
        let earlier = updates.drop_last();
        let start = record_of_spec(ledger, ctx.sol_wallet@, ctx.eth_address@)->0;
        let amounts = updates.last().amounts;
        assert forall|token: int| 0 <= token < token_count() implies counter_of(start, token)
            + #[trigger] requested_sum(earlier, token) <= u64::MAX by {
            assert(requested_sum(updates, token) == requested_sum(earlier, token) + amount_of(
                amounts,
                token,
            ));
        }
        lemma_updates_add_up(ledger, ctx, earlier);
        lemma_counters_sum_applied_updates(ledger, ctx, earlier, 0);
        let before = update_all(ledger, ctx, earlier);
        let record = record_of_spec(before, ctx.sol_wallet@, ctx.eth_address@)->0;
        assert forall|token: int| 0 <= token < token_count() implies counter_of(record, token)
            + amount_of(amounts, token) == counter_of(start, token) + #[trigger] requested_sum(
            updates,
            token,
        ) by {
            assert(counter_of(record, token) == counter_of(start, token) + requested_sum(
                earlier,
                token,
            ));
        }
        assert(record.fits(amounts)) by {
            assert(counter_of(record, 0) + amount_of(amounts, 0) == counter_of(start, 0)
                + requested_sum(updates, 0));
            assert(counter_of(record, 1) + amount_of(amounts, 1) == counter_of(start, 1)
                + requested_sum(updates, 1));
            assert(counter_of(record, 2) + amount_of(amounts, 2) == counter_of(start, 2)
                + requested_sum(updates, 2));
            assert(counter_of(record, 3) + amount_of(amounts, 3) == counter_of(start, 3)
                + requested_sum(updates, 3));
        }
        lemma_update_adds_or_overflows(before, ctx, amounts, updates.last().now);
    }
}

/// One call at its time.
pub struct Call {
    pub instruction: Instruction,
    pub now: i64,
}

/// The ledger after `calls` were processed in order.
pub open spec fn process_all(ledger: LedgerView<AirdropRecord>, calls: Seq<Call>) -> LedgerView<
    AirdropRecord,
>
    decreases calls.len(),
{
    if calls.len() == 0 {
        ledger
    } else {
        process_spec(
            process_all(ledger, calls.drop_last()),
            calls.last().instruction,
            calls.last().now,
        ).0
    }
}

/// The identifiers of the runs that `calls` created, in the order of their
/// creation.
pub open spec fn created_runs(ledger: LedgerView<AirdropRecord>, calls: Seq<Call>) -> Seq<u64>
    decreases calls.len(),
{
    if calls.len() == 0 {
        Seq::empty()
    } else {
        let earlier = created_runs(ledger, calls.drop_last());
        match process_spec(
            process_all(ledger, calls.drop_last()),
            calls.last().instruction,
            calls.last().now,
        ).1 {
            Ok(Some(run_id)) => earlier.push(run_id),
            _ => earlier,
        }
    }
}

/// Whatever calls are made, and in whatever order, the runs that they create
/// get the identifiers that follow the counter, one by one: no gap and no
/// repeat. On a fresh ledger these are 1, 2, 3 and so on.
pub proof fn lemma_run_ids_are_consecutive(ledger: LedgerView<AirdropRecord>, calls: Seq<Call>)
    ensures
        process_all(ledger, calls).run_counter() == ledger.run_counter() + created_runs(
            ledger,
            calls,
        ).len(),
        forall|k: int|
            0 <= k < created_runs(ledger, calls).len() ==> #[trigger] created_runs(ledger, calls)[k]
                == ledger.run_counter() + 1 + k,
    decreases calls.len(),
{
    if calls.len() > 0 {
        lemma_run_ids_are_consecutive(ledger, calls.drop_last());
    }
}

/// Creating a record where one exists fails with `DuplicateKey` and leaves
/// the ledger, and so the record, as it was.
pub proof fn lemma_existing_record_is_kept(
    ledger: LedgerView<AirdropRecord>,
    ctx: InitializeRecord,
    eth_address: [u8; 42],
    amounts: Amounts,
    now: i64,
)
    requires
        ledger.is_authority(ctx.authority@),
        record_of_spec(ledger, ctx.sol_wallet@, eth_address@) is Some,
    ensures
        initialize_record_spec(ledger, ctx, eth_address, now) == (
            ledger,
            Err::<(), ErrorCode>(ErrorCode::DuplicateKey),
        ),
        initialize_and_update_spec(ledger, ctx, eth_address, amounts, now) == (
            ledger,
            Err::<(), ErrorCode>(ErrorCode::DuplicateKey),
        ),
{
}

/// After a record was closed, creating the record of the same wallet and
/// external address succeeds, and the new record counts nothing.
pub proof fn lemma_closed_record_starts_afresh(
    ledger: LedgerView<AirdropRecord>,
    ctx: CloseRecord,
    now: i64,
)
    requires
        close_record_spec(ledger, ctx).1 is Ok,
    ensures
        ({
            let closed = close_record_spec(ledger, ctx).0;
            let again = InitializeRecord { authority: ctx.authority, sol_wallet: ctx.sol_wallet };
            let (after, r) = initialize_record_spec(closed, again, ctx.eth_address, now);
            &&& record_of_spec(closed, ctx.sol_wallet@, ctx.eth_address@) is None
            &&& r is Ok
            &&& record_of_spec(after, ctx.sol_wallet@, ctx.eth_address@) == Some(
                AirdropRecord::new_spec(
                    ctx.sol_wallet,
                    ctx.eth_address,
                    now,
                    bump_of(
                        record_address_spec(ledger.program_id, ctx.sol_wallet@, ctx.eth_address@),
                    ),
                ),
            )
        }),
{
}

/// Every call but the creation of the state fails with `Unauthorized`, and
/// changes nothing, where the caller is not the authority.
pub proof fn lemma_unauthorized_call_is_rejected(
    ledger: LedgerView<AirdropRecord>,
    instruction: Instruction,
    now: i64,
)
    requires
        !(instruction is InitializeState),
        !ledger.is_authority(instruction.caller()@),
    ensures
        process_spec(ledger, instruction, now) == (
            ledger,
            Err::<Option<u64>, ErrorCode>(ErrorCode::Unauthorized),
        ),
{
}

/// A call keeps what holds of every ledger: nothing exists before the state
/// does, every run carries an identifier that the counter has issued, and no
/// identifier was given to two runs.
pub proof fn lemma_process_keeps_well_formed(
    ledger: LedgerView<AirdropRecord>,
    instruction: Instruction,
    now: i64,
)
    requires
        ledger.wf(),
    ensures
        process_spec(ledger, instruction, now).0.wf(),
{
}

/// Every ledger that calls can reach from an empty one is well formed.
pub proof fn lemma_reachable_ledger_is_well_formed(program_id: Seq<u8>, calls: Seq<Call>)
    ensures
        process_all(LedgerView::<AirdropRecord>::empty(program_id), calls).wf(),
    decreases calls.len(),
{
    if calls.len() > 0 {
        lemma_reachable_ledger_is_well_formed(program_id, calls.drop_last());
        lemma_process_keeps_well_formed(
            process_all(LedgerView::<AirdropRecord>::empty(program_id), calls.drop_last()),
            calls.last().instruction,
            calls.last().now,
        );
    }
}

/// No call but the closing of a record takes a record away or lowers one of
/// its counters.
pub proof fn lemma_counters_never_decrease(
    ledger: LedgerView<AirdropRecord>,
    instruction: Instruction,
    now: i64,
    address: Seq<u8>,
)
    requires
        !(instruction is CloseRecord),
        ledger.records.dom().contains(address),
    ensures
        ({
            let after = process_spec(ledger, instruction, now).0;
            &&& after.records.dom().contains(address)
            &&& forall|token: int|
                0 <= token < token_count() ==> counter_of(ledger.records[address], token)
                    <= counter_of(after.records[address], token)
        }),
{
}

/// No call of this tracker fails on a token selector: it has none.
pub proof fn lemma_no_call_fails_on_a_selector(
    ledger: LedgerView<AirdropRecord>,
    instruction: Instruction,
    now: i64,
)
    ensures
        process_spec(ledger, instruction, now).1 != Err::<Option<u64>, ErrorCode>(
            ErrorCode::InvalidTokenType,
        ),
{
}

} // verus!
