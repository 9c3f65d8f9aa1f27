use airdrop_tracker::ledger::Ledger;
use airdrop_tracker::instructions::record_of;
use airdrop_tracker::instructions::run_of;
use airdrop_tracker::pda::record_address;
use airdrop_tracker::pda::run_address;
use airdrop_tracker::pda::state_address;
use airdrop_tracker::pubkey::Pubkey;
use airdrop_tracker::xnm_airdrop_tracker::close_record;
use airdrop_tracker::xnm_airdrop_tracker::create_run;
use airdrop_tracker::xnm_airdrop_tracker::initialize_and_update;
use airdrop_tracker::xnm_airdrop_tracker::initialize_record;
use airdrop_tracker::xnm_airdrop_tracker::initialize_state;
use airdrop_tracker::xnm_airdrop_tracker::process;
use airdrop_tracker::xnm_airdrop_tracker::update_record;
use airdrop_tracker::xnm_airdrop_tracker::update_run_totals;
use airdrop_tracker::xnm_airdrop_tracker::AirdropRecord;
use airdrop_tracker::xnm_airdrop_tracker::AirdropRun;
use airdrop_tracker::xnm_airdrop_tracker::CloseRecord;
use airdrop_tracker::xnm_airdrop_tracker::CreateRun;
use airdrop_tracker::xnm_airdrop_tracker::ErrorCode;
use airdrop_tracker::xnm_airdrop_tracker::GlobalState;
use airdrop_tracker::xnm_airdrop_tracker::InitializeRecord;
use airdrop_tracker::xnm_airdrop_tracker::InitializeState;
use airdrop_tracker::xnm_airdrop_tracker::Instruction;
use airdrop_tracker::xnm_airdrop_tracker::UpdateRecord;
use airdrop_tracker::xnm_airdrop_tracker::UpdateRunTotals;
use airdrop_tracker::xnm_airdrop_tracker::TOKEN_XBLK;
use airdrop_tracker::xnm_airdrop_tracker::TOKEN_XNM;

fn key(fill: u8) -> Pubkey {
    Pubkey::new_from_array([fill; 32])
}

fn program() -> Pubkey {
    key(42)
}

fn authority() -> Pubkey {
    key(1)
}

fn stranger() -> Pubkey {
    key(2)
}

fn wallet() -> Pubkey {
    key(3)
}

fn eth(fill: u8) -> [u8; 42] {
    let mut bytes = [fill; 42];
    bytes[0] = b'0';
    bytes[1] = b'x';
    bytes
}

fn fresh() -> Ledger<AirdropRecord> {
    Ledger::new(program())
}

fn started() -> Ledger<AirdropRecord> {
    let mut ledger = fresh();
    assert_eq!(initialize_state(&mut ledger, &InitializeState { authority: authority() }), Ok(()));
    ledger
}

fn update_ctx(caller: Pubkey) -> UpdateRecord {
    UpdateRecord { authority: caller, sol_wallet: wallet(), eth_address: eth(b'a') }
}

fn init_ctx(caller: Pubkey) -> InitializeRecord {
    InitializeRecord { authority: caller, sol_wallet: wallet() }
}

fn close_ctx(caller: Pubkey) -> CloseRecord {
    CloseRecord { authority: caller, sol_wallet: wallet(), eth_address: eth(b'a') }
}

fn the_record(ledger: &Ledger<AirdropRecord>) -> Option<AirdropRecord> {
    record_of(ledger, &wallet(), &eth(b'a'))
}

#[test]
fn fresh_ledger_holds_nothing() {
    let ledger = fresh();
    assert_eq!(ledger.program_id(), program());
    assert_eq!(ledger.state(), None);
    assert_eq!(run_of(&ledger, 1), None);
    assert_eq!(the_record(&ledger), None);
    assert!(!ledger.is_authority(&authority()));
}

#[test]
fn initialize_state_names_the_authority_and_starts_at_zero() {
    let ledger = started();
    let bump = state_address(&program()).unwrap().bump;
    assert_eq!(
        ledger.state(),
        Some(GlobalState { authority: authority(), run_counter: 0, bump })
    );
    assert!(ledger.is_authority(&authority()));
    assert!(!ledger.is_authority(&stranger()));
}

#[test]
fn initialize_state_twice_fails() {
    let mut ledger = started();
    let before = ledger.state();
    assert_eq!(
        initialize_state(&mut ledger, &InitializeState { authority: stranger() }),
        Err(ErrorCode::AlreadyInitialized)
    );
    assert_eq!(
        initialize_state(&mut ledger, &InitializeState { authority: authority() }),
        Err(ErrorCode::AlreadyInitialized)
    );
    assert_eq!(ledger.state(), before);
}

#[test]
fn stranger_cannot_create_a_run() {
    let mut ledger = started();
    assert_eq!(
        create_run(&mut ledger, &CreateRun { authority: stranger() }, false, 100),
        Err(ErrorCode::Unauthorized)
    );
    assert_eq!(ledger.state().unwrap().run_counter, 0);
    assert_eq!(run_of(&ledger, 1), None);
}

#[test]
fn nobody_is_authorized_before_the_state_exists() {
    let mut ledger = fresh();
    assert_eq!(
        create_run(&mut ledger, &CreateRun { authority: authority() }, false, 100),
        Err(ErrorCode::Unauthorized)
    );
    assert_eq!(
        initialize_record(&mut ledger, &init_ctx(authority()), eth(b'a'), 100),
        Err(ErrorCode::Unauthorized)
    );
    assert_eq!(ledger.state(), None);
    assert_eq!(the_record(&ledger), None);
}

#[test]
fn create_run_counts_from_one() {
    let mut ledger = started();
    let ctx = CreateRun { authority: authority() };
    assert_eq!(create_run(&mut ledger, &ctx, false, 100), Ok(1));
    assert_eq!(create_run(&mut ledger, &ctx, true, 200), Ok(2));
    assert_eq!(create_run(&mut ledger, &ctx, false, 300), Ok(3));
    assert_eq!(ledger.state().unwrap().run_counter, 3);
    let second = run_address(&program(), 2).unwrap();
    assert_eq!(
        run_of(&ledger, 2),
        Some(AirdropRun {
            run_id: 2,
            run_date: 200,
            total_recipients: 0,
            total_amount: 0,
            dry_run: true,
            bump: second.bump,
        })
    );
    assert_eq!(ledger.run_at(&second.address), run_of(&ledger, 2));
    assert_eq!(run_of(&ledger, 1).unwrap().run_date, 100);
    assert!(!run_of(&ledger, 1).unwrap().dry_run);
    assert_eq!(run_of(&ledger, 4), None);
    assert_eq!(run_of(&ledger, 0), None);
}

#[test]
fn run_ids_have_no_gaps_when_other_calls_come_between() {
    let mut ledger = started();
    let ctx = CreateRun { authority: authority() };
    let mut ids = Vec::new();
    for round in 0..5u64 {
        ids.push(create_run(&mut ledger, &ctx, false, 10).unwrap());
        assert_eq!(
            create_run(&mut ledger, &CreateRun { authority: stranger() }, false, 10),
            Err(ErrorCode::Unauthorized)
        );
        let mut address = eth(b'a');
        address[5] = b'0' + (round as u8);
        assert_eq!(
            initialize_and_update(&mut ledger, &init_ctx(authority()), address, TOKEN_XNM, 5, 11),
            Ok(())
        );
        assert_eq!(
            update_run_totals(
                &mut ledger,
                &UpdateRunTotals { authority: authority(), run_id: round + 1 },
                1,
                5
            ),
            Ok(())
        );
    }
    assert_eq!(ids, vec![1, 2, 3, 4, 5]);
    assert_eq!(ledger.state().unwrap().run_counter, 5);
}

#[test]
fn update_run_totals_overwrites_and_last_write_wins() {
    let mut ledger = started();
    assert_eq!(create_run(&mut ledger, &CreateRun { authority: authority() }, false, 100), Ok(1));
    let ctx = UpdateRunTotals { authority: authority(), run_id: 1 };
    assert_eq!(update_run_totals(&mut ledger, &ctx, 7, 7000), Ok(()));
    let run = run_of(&ledger, 1).unwrap();
    assert_eq!((run.total_recipients, run.total_amount), (7, 7000));
    assert_eq!((run.run_id, run.run_date, run.dry_run), (1, 100, false));
    assert_eq!(update_run_totals(&mut ledger, &ctx, 7, 7000), Ok(()));
    assert_eq!(run_of(&ledger, 1), Some(run));
    assert_eq!(update_run_totals(&mut ledger, &ctx, 3, 10), Ok(()));
    let run = run_of(&ledger, 1).unwrap();
    assert_eq!((run.total_recipients, run.total_amount), (3, 10));
    assert_eq!(ledger.state().unwrap().run_counter, 1);
}

#[test]
fn update_run_totals_of_a_missing_run_fails() {
    let mut ledger = started();
    assert_eq!(
        update_run_totals(
            &mut ledger,
            &UpdateRunTotals { authority: authority(), run_id: 1 },
            1,
            1
        ),
        Err(ErrorCode::NotFound)
    );
    assert_eq!(
        update_run_totals(&mut ledger, &UpdateRunTotals { authority: stranger(), run_id: 1 }, 1, 1),
        Err(ErrorCode::Unauthorized)
    );
}

#[test]
fn stranger_cannot_set_run_totals() {
    let mut ledger = started();
    assert_eq!(create_run(&mut ledger, &CreateRun { authority: authority() }, false, 100), Ok(1));
    let before = run_of(&ledger, 1);
    assert_eq!(
        update_run_totals(&mut ledger, &UpdateRunTotals { authority: stranger(), run_id: 1 }, 9, 9),
        Err(ErrorCode::Unauthorized)
    );
    assert_eq!(run_of(&ledger, 1), before);
}

#[test]
fn initialize_record_creates_a_zeroed_record() {
    let mut ledger = started();
    assert_eq!(initialize_record(&mut ledger, &init_ctx(authority()), eth(b'a'), 50), Ok(()));
    let place = record_address(&program(), &wallet(), &eth(b'a')).unwrap();
    assert_eq!(
        the_record(&ledger),
        Some(AirdropRecord {
            sol_wallet: wallet(),
            eth_address: eth(b'a'),
            xnm_airdropped: 0,
            xblk_airdropped: 0,
            last_updated: 50,
            bump: place.bump,
        })
    );
    assert_eq!(ledger.record_at(&place.address), the_record(&ledger));
    assert_eq!(record_of(&ledger, &wallet(), &eth(b'b')), None);
    assert_eq!(record_of(&ledger, &stranger(), &eth(b'a')), None);
}

#[test]
fn initialize_record_on_an_existing_key_fails_and_keeps_the_record() {
    let mut ledger = started();
    assert_eq!(
        initialize_and_update(&mut ledger, &init_ctx(authority()), eth(b'a'), TOKEN_XBLK, 9, 50),
        Ok(())
    );
    let before = the_record(&ledger);
    assert_eq!(
        initialize_record(&mut ledger, &init_ctx(authority()), eth(b'a'), 60),
        Err(ErrorCode::DuplicateKey)
    );
    assert_eq!(
        initialize_and_update(&mut ledger, &init_ctx(authority()), eth(b'a'), TOKEN_XNM, 1, 70),
        Err(ErrorCode::DuplicateKey)
    );
    assert_eq!(the_record(&ledger), before);
    assert_eq!(before.unwrap().xblk_airdropped, 9);
}

#[test]
fn addresses_with_the_same_first_twenty_bytes_share_a_record() {
    let mut ledger = started();
    assert_eq!(initialize_record(&mut ledger, &init_ctx(authority()), eth(b'a'), 50), Ok(()));
    let mut other = eth(b'a');
    other[30] = b'7';
    assert_eq!(
        initialize_record(&mut ledger, &init_ctx(authority()), other, 60),
        Err(ErrorCode::DuplicateKey)
    );
    let ctx = UpdateRecord { authority: authority(), sol_wallet: wallet(), eth_address: other };
    assert_eq!(update_record(&mut ledger, &ctx, TOKEN_XNM, 4, 70), Ok(()));
    let record = the_record(&ledger).unwrap();
    assert_eq!(record.xnm_airdropped, 4);
    assert_eq!(record.eth_address, eth(b'a'));
}

#[test]
fn update_record_adds_to_the_selected_counter() {
    let mut ledger = started();
    assert_eq!(initialize_record(&mut ledger, &init_ctx(authority()), eth(b'a'), 50), Ok(()));
    assert_eq!(update_record(&mut ledger, &update_ctx(authority()), TOKEN_XNM, 10, 60), Ok(()));
    assert_eq!(update_record(&mut ledger, &update_ctx(authority()), TOKEN_XBLK, 3, 70), Ok(()));
    assert_eq!(update_record(&mut ledger, &update_ctx(authority()), TOKEN_XNM, 15, 80), Ok(()));
    assert_eq!(update_record(&mut ledger, &update_ctx(authority()), TOKEN_XBLK, 0, 90), Ok(()));
    let record = the_record(&ledger).unwrap();
    assert_eq!(record.xnm_airdropped, 25);
    assert_eq!(record.xblk_airdropped, 3);
    assert_eq!(record.last_updated, 90);
    assert_eq!(record.sol_wallet, wallet());
}

#[test]
fn update_record_with_an_unknown_selector_fails() {
    let mut ledger = started();
    assert_eq!(
        initialize_and_update(&mut ledger, &init_ctx(authority()), eth(b'a'), TOKEN_XNM, 5, 50),
        Ok(())
    );
    let before = the_record(&ledger);
    assert_eq!(
        update_record(&mut ledger, &update_ctx(authority()), 2, 10, 60),
        Err(ErrorCode::InvalidTokenType)
    );
    assert_eq!(
        update_record(&mut ledger, &update_ctx(authority()), 255, u64::MAX, 60),
        Err(ErrorCode::InvalidTokenType)
    );
    assert_eq!(the_record(&ledger), before);
}

#[test]
fn update_record_that_overflows_fails_and_changes_nothing() {
    let mut ledger = started();
    assert_eq!(
        initialize_and_update(&mut ledger, &init_ctx(authority()), eth(b'a'), TOKEN_XBLK, 1, 50),
        Ok(())
    );
    let before = the_record(&ledger);
    assert_eq!(
        update_record(&mut ledger, &update_ctx(authority()), TOKEN_XBLK, u64::MAX, 60),
        Err(ErrorCode::Overflow)
    );
    assert_eq!(the_record(&ledger), before);
    assert_eq!(
        update_record(&mut ledger, &update_ctx(authority()), TOKEN_XBLK, u64::MAX - 1, 70),
        Ok(())
    );
    assert_eq!(the_record(&ledger).unwrap().xblk_airdropped, u64::MAX);
    assert_eq!(
        update_record(&mut ledger, &update_ctx(authority()), TOKEN_XBLK, 1, 80),
        Err(ErrorCode::Overflow)
    );
    assert_eq!(update_record(&mut ledger, &update_ctx(authority()), TOKEN_XNM, u64::MAX, 90), Ok(()));
    let record = the_record(&ledger).unwrap();
    assert_eq!((record.xnm_airdropped, record.xblk_airdropped), (u64::MAX, u64::MAX));
    assert_eq!(record.last_updated, 90);
}

#[test]
fn update_record_of_a_missing_record_fails() {
    let mut ledger = started();
    assert_eq!(
        update_record(&mut ledger, &update_ctx(authority()), TOKEN_XNM, 1, 60),
        Err(ErrorCode::NotFound)
    );
    assert_eq!(the_record(&ledger), None);
}

#[test]
fn stranger_cannot_touch_records() {
    let mut ledger = started();
    assert_eq!(
        initialize_record(&mut ledger, &init_ctx(stranger()), eth(b'a'), 50),
        Err(ErrorCode::Unauthorized)
    );
    assert_eq!(
        initialize_and_update(&mut ledger, &init_ctx(stranger()), eth(b'a'), 7, 1, 50),
        Err(ErrorCode::Unauthorized)
    );
    assert_eq!(the_record(&ledger), None);
    assert_eq!(initialize_record(&mut ledger, &init_ctx(authority()), eth(b'a'), 50), Ok(()));
    let before = the_record(&ledger);
    assert_eq!(
        update_record(&mut ledger, &update_ctx(stranger()), TOKEN_XNM, 1, 60),
        Err(ErrorCode::Unauthorized)
    );
    assert_eq!(
        update_record(&mut ledger, &update_ctx(stranger()), 9, u64::MAX, 60),
        Err(ErrorCode::Unauthorized)
    );
    assert_eq!(close_record(&mut ledger, &close_ctx(stranger())), Err(ErrorCode::Unauthorized));
    assert_eq!(the_record(&ledger), before);
}

#[test]
fn initialize_and_update_sets_one_counter() {
    let mut ledger = started();
    assert_eq!(
        initialize_and_update(
            &mut ledger,
            &init_ctx(authority()),
            eth(b'a'),
            TOKEN_XBLK,
            u64::MAX,
            50
        ),
        Ok(())
    );
    let record = the_record(&ledger).unwrap();
    assert_eq!((record.xnm_airdropped, record.xblk_airdropped), (0, u64::MAX));
    assert_eq!(record.last_updated, 50);
    assert_eq!(record.eth_address, eth(b'a'));
}

#[test]
fn initialize_and_update_with_an_unknown_selector_creates_nothing() {
    let mut ledger = started();
    assert_eq!(
        initialize_and_update(&mut ledger, &init_ctx(authority()), eth(b'a'), 2, 500, 50),
        Err(ErrorCode::InvalidTokenType)
    );
    assert_eq!(the_record(&ledger), None);
    assert_eq!(initialize_record(&mut ledger, &init_ctx(authority()), eth(b'a'), 60), Ok(()));
}

#[test]
fn close_record_then_initialize_gives_a_fresh_record() {
    let mut ledger = started();
    assert_eq!(
        initialize_and_update(&mut ledger, &init_ctx(authority()), eth(b'a'), TOKEN_XNM, 77, 50),
        Ok(())
    );
    assert_eq!(close_record(&mut ledger, &close_ctx(authority())), Ok(()));
    assert_eq!(the_record(&ledger), None);
    assert_eq!(close_record(&mut ledger, &close_ctx(authority())), Err(ErrorCode::NotFound));
    assert_eq!(
        update_record(&mut ledger, &update_ctx(authority()), TOKEN_XNM, 1, 60),
        Err(ErrorCode::NotFound)
    );
    assert_eq!(initialize_record(&mut ledger, &init_ctx(authority()), eth(b'a'), 70), Ok(()));
    let record = the_record(&ledger).unwrap();
    assert_eq!((record.xnm_airdropped, record.xblk_airdropped), (0, 0));
    assert_eq!(record.last_updated, 70);
}

#[test]
fn close_record_leaves_the_other_records() {
    let mut ledger = started();
    assert_eq!(
        initialize_and_update(&mut ledger, &init_ctx(authority()), eth(b'a'), TOKEN_XNM, 1, 50),
        Ok(())
    );
    assert_eq!(
        initialize_and_update(&mut ledger, &init_ctx(authority()), eth(b'b'), TOKEN_XNM, 2, 50),
        Ok(())
    );
    assert_eq!(
        initialize_and_update(&mut ledger, &init_ctx(authority()), eth(b'c'), TOKEN_XNM, 3, 50),
        Ok(())
    );
    let ctx = CloseRecord { authority: authority(), sol_wallet: wallet(), eth_address: eth(b'b') };
    assert_eq!(close_record(&mut ledger, &ctx), Ok(()));
    assert_eq!(record_of(&ledger, &wallet(), &eth(b'a')).unwrap().xnm_airdropped, 1);
    assert_eq!(record_of(&ledger, &wallet(), &eth(b'b')), None);
    assert_eq!(record_of(&ledger, &wallet(), &eth(b'c')).unwrap().xnm_airdropped, 3);
}

#[test]
fn end_to_end() {
    let mut ledger = fresh();
    assert_eq!(initialize_state(&mut ledger, &InitializeState { authority: authority() }), Ok(()));
    assert_eq!(create_run(&mut ledger, &CreateRun { authority: authority() }, false, 1000), Ok(1));
    assert_eq!(
        initialize_and_update(&mut ledger, &init_ctx(authority()), eth(b'e'), 0, 500, 1001),
        Ok(())
    );
    let ctx = UpdateRecord { authority: authority(), sol_wallet: wallet(), eth_address: eth(b'e') };
    assert_eq!(record_of(&ledger, &wallet(), &eth(b'e')).unwrap().xnm_airdropped, 500);
    assert_eq!(update_record(&mut ledger, &ctx, 0, 300, 1002), Ok(()));
    assert_eq!(record_of(&ledger, &wallet(), &eth(b'e')).unwrap().xnm_airdropped, 800);
    assert_eq!(update_record(&mut ledger, &ctx, 0, u64::MAX, 1003), Err(ErrorCode::Overflow));
    let record = record_of(&ledger, &wallet(), &eth(b'e')).unwrap();
    assert_eq!(record.xnm_airdropped, 800);
    assert_eq!(record.xblk_airdropped, 0);
    assert_eq!(record.last_updated, 1002);
}

#[test]
fn process_carries_out_each_kind_of_call() {
    let mut ledger = fresh();
    let calls = [
        Instruction::InitializeState { ctx: InitializeState { authority: authority() } },
        Instruction::CreateRun { ctx: CreateRun { authority: authority() }, dry_run: true },
        Instruction::UpdateRunTotals {
            ctx: UpdateRunTotals { authority: authority(), run_id: 1 },
            total_recipients: 2,
            total_amount: 30,
        },
        Instruction::InitializeRecord { ctx: init_ctx(authority()), eth_address: eth(b'a') },
        Instruction::UpdateRecord {
            ctx: update_ctx(authority()),
            token_type: TOKEN_XBLK,
            amount_to_add: 30,
        },
        Instruction::InitializeAndUpdate {
            ctx: init_ctx(authority()),
            eth_address: eth(b'b'),
            token_type: TOKEN_XNM,
            initial_amount: 8,
        },
        Instruction::CloseRecord { ctx: close_ctx(authority()) },
        Instruction::CreateRun { ctx: CreateRun { authority: stranger() }, dry_run: true },
    ];
    let expected = [
        Ok(None),
        Ok(Some(1)),
        Ok(None),
        Ok(None),
        Ok(None),
        Ok(None),
        Ok(None),
        Err(ErrorCode::Unauthorized),
    ];
    for (at, call) in calls.iter().enumerate() {
        assert_eq!(process(&mut ledger, call, at as i64), expected[at]);
    }
    assert_eq!(the_record(&ledger), None);
    assert_eq!(record_of(&ledger, &wallet(), &eth(b'b')).unwrap().xnm_airdropped, 8);
    let run = run_of(&ledger, 1).unwrap();
    assert_eq!((run.total_recipients, run.total_amount, run.dry_run, run.run_date), (2, 30, true, 1));
}
