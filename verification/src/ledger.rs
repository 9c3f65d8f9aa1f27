//! The accounts of one deployment and the rules by which they change.
//!
//! A ledger holds the singleton state, the runs and the records. Every method
//! here works on the account at a given address; the operations that resolve
//! a natural key to its address first are in `instructions`.

use vstd::prelude::*;
use crate::error::ErrorCode;
use crate::pda::address_of;
use crate::pda::bump_of;
use crate::pda::found_view;
use crate::pda::ProgramAddress;
use crate::pubkey::Pubkey;
use crate::store::AccountStore;

verus! {

/// The singleton that names the authority and issues run identifiers.
#[derive(Clone, Copy, Debug, PartialEq, Eq)]
pub struct GlobalState {
    /// The only identity that may create runs and change records.
    pub authority: Pubkey,
    /// Identifier of the latest run; 0 before the first.
    pub run_counter: u64,
    /// Bump seed of the state's address.
    pub bump: u8,
}

impl GlobalState {
    /// The state of a fresh ledger: no run yet.
    pub fn new(authority: Pubkey, bump: u8) -> (state: GlobalState)
        ensures
            state == (GlobalState { authority, run_counter: 0, bump }),
    {
        GlobalState { authority, run_counter: 0, bump }
    }

    /// Whether `caller` is the authority.
    pub fn is_authority(&self, caller: &Pubkey) -> (yes: bool)
        ensures
            yes == (self.authority@ == caller@),
    {
        self.authority.same_as(caller)
    }

    /// The identifier that the next run gets, unless the counter is at its
    /// maximum.
    pub fn next_run_id(&self) -> (next: Option<u64>)
        ensures
            next == (if self.run_counter < u64::MAX {
                Some((self.run_counter + 1) as u64)
            } else {
                None
            }),
    {
        self.run_counter.checked_add(1)
    }
}

/// The summary of one run.
#[derive(Clone, Copy, Debug, PartialEq, Eq)]
pub struct AirdropRun {
    /// Value of the run counter when the run was created; 1 for the first.
    pub run_id: u64,
    /// When the run was created.
    pub run_date: i64,
    /// Number of recipients that were served.
    pub total_recipients: u32,
    /// Amount that was airdropped, in base units.
    pub total_amount: u64,
    /// Whether the run was a rehearsal.
    pub dry_run: bool,
    /// Bump seed of the run's address.
    pub bump: u8,
}

impl AirdropRun {
    /// A run that has just been created: its totals are zero.
    pub fn new(run_id: u64, run_date: i64, dry_run: bool, bump: u8) -> (run: AirdropRun)
        ensures
            run == (AirdropRun {
                run_id,
                run_date,
                total_recipients: 0,
                total_amount: 0,
                dry_run,
                bump,
            }),
    {
        AirdropRun { run_id, run_date, total_recipients: 0, total_amount: 0, dry_run, bump }
    }

    /// The same run with its totals overwritten.
    pub fn with_totals(&self, total_recipients: u32, total_amount: u64) -> (run: AirdropRun)
        ensures
            run == (AirdropRun { total_recipients, total_amount, ..*self }),
    {
        AirdropRun {
            run_id: self.run_id,
            run_date: self.run_date,
            total_recipients,
            total_amount,
            dry_run: self.dry_run,
            bump: self.bump,
        }
    }
}

/// What a ledger holds, as mathematical values: the accounts by the bytes of
/// their addresses.
pub struct LedgerView<R> {
    pub program_id: Seq<u8>,
    pub state: Option<GlobalState>,
    pub runs: Map<Seq<u8>, AirdropRun>,
    pub records: Map<Seq<u8>, R>,
}

impl<R> LedgerView<R> {
    /// A ledger in which nothing has been created.
    pub open spec fn empty(program_id: Seq<u8>) -> Self {
        LedgerView { program_id, state: None, runs: Map::empty(), records: Map::empty() }
    }

    /// Whether `caller` is the authority. Nobody is before the state exists.
    pub open spec fn is_authority(self, caller: Seq<u8>) -> bool {
        self.state matches Some(state) && state.authority@ == caller
    }

    /// Identifier of the latest run; 0 where none was created.
    pub open spec fn run_counter(self) -> u64 {
        match self.state {
            Some(state) => state.run_counter,
            None => 0,
        }
    }

    /// What holds of every ledger that the operations can reach: nothing
    /// exists before the state does, every run carries an identifier that the
    /// counter has issued, and no identifier was given to two runs.
    pub open spec fn wf(self) -> bool {
        &&& self.state is None ==> forall|address: Seq<u8>|
            !self.runs.dom().contains(address) && !self.records.dom().contains(address)
        &&& forall|address: Seq<u8>| #[trigger]
            self.runs.dom().contains(address) ==> 1 <= self.runs[address].run_id
                <= self.run_counter()
        &&& forall|a: Seq<u8>, b: Seq<u8>|
            #![trigger self.runs[a], self.runs[b]]
            self.runs.dom().contains(a) && self.runs.dom().contains(b) && self.runs[a].run_id
                == self.runs[b].run_id ==> a == b
    }

    /// Why the state cannot be created, if it cannot.
    pub open spec fn initialize_state_error(self, derived: Option<(Seq<u8>, u8)>) -> Option<
        ErrorCode,
    > {
        if self.state is Some {
            Some(ErrorCode::AlreadyInitialized)
        } else if derived is None {
            Some(ErrorCode::InvalidSeeds)
        } else {
            None
        }
    }

    /// The ledger after its state was created.
    pub open spec fn initialize_state_done(self, authority: Pubkey, derived: Option<(Seq<u8>, u8)>)
        -> Self {
        LedgerView { state: Some(GlobalState { authority, run_counter: 0, bump: bump_of(derived) }), ..self }
    }

    /// Why `caller` cannot create a run at `derived`, if it cannot.
    pub open spec fn create_run_error(self, caller: Seq<u8>, derived: Option<(Seq<u8>, u8)>)
        -> Option<ErrorCode> {
        if !self.is_authority(caller) {
            Some(ErrorCode::Unauthorized)
        } else if self.run_counter() == u64::MAX {
            Some(ErrorCode::Overflow)
        } else if derived is None {
            Some(ErrorCode::InvalidSeeds)
        } else if self.runs.dom().contains(address_of(derived)) {
            Some(ErrorCode::DuplicateKey)
        } else {
            None
        }
    }

    /// The ledger after a run was created at `derived`: the counter has
    /// advanced by one and the new run carries its value.
    pub open spec fn create_run_done(self, dry_run: bool, now: i64, derived: Option<(Seq<u8>, u8)>)
        -> Self {
        let run_id = (self.run_counter() + 1) as u64;
        LedgerView {
            state: Some(GlobalState { run_counter: run_id, ..self.state->0 }),
            runs: self.runs.insert(
                address_of(derived),
                AirdropRun {
                    run_id,
                    run_date: now,
                    total_recipients: 0,
                    total_amount: 0,
                    dry_run,
                    bump: bump_of(derived),
                },
            ),
            ..self
        }
    }

    /// Why `caller` cannot set the totals of the run at `derived`, if it
    /// cannot.
    pub open spec fn update_run_totals_error(self, caller: Seq<u8>, derived: Option<(Seq<u8>, u8)>)
        -> Option<ErrorCode> {
        if !self.is_authority(caller) {
            Some(ErrorCode::Unauthorized)
        } else if derived is None {
            Some(ErrorCode::InvalidSeeds)
        } else if !self.runs.dom().contains(address_of(derived)) {
            Some(ErrorCode::NotFound)
        } else {
            None
        }
    }

    /// The ledger after the totals of the run at `derived` were overwritten.
    pub open spec fn update_run_totals_done(
        self,
        total_recipients: u32,
        total_amount: u64,
        derived: Option<(Seq<u8>, u8)>,
    ) -> Self {
        let address = address_of(derived);
        LedgerView {
            runs: self.runs.insert(
                address,
                AirdropRun { total_recipients, total_amount, ..self.runs[address] },
            ),
            ..self
        }
    }

    /// Why `caller` cannot create a record at `derived`, if it cannot.
    pub open spec fn create_record_error(self, caller: Seq<u8>, derived: Option<(Seq<u8>, u8)>)
        -> Option<ErrorCode> {
        if !self.is_authority(caller) {
            Some(ErrorCode::Unauthorized)
        } else if derived is None {
            Some(ErrorCode::InvalidSeeds)
        } else if self.records.dom().contains(address_of(derived)) {
            Some(ErrorCode::DuplicateKey)
        } else {
            None
        }
    }

    /// Why `caller` cannot reach the record at `derived`, if it cannot.
    pub open spec fn find_record_error(self, caller: Seq<u8>, derived: Option<(Seq<u8>, u8)>)
        -> Option<ErrorCode> {
        if !self.is_authority(caller) {
            Some(ErrorCode::Unauthorized)
        } else if derived is None {
            Some(ErrorCode::InvalidSeeds)
        } else if !self.records.dom().contains(address_of(derived)) {
            Some(ErrorCode::NotFound)
        } else {
            None
        }
    }

    /// The ledger with `record` at `address`.
    pub open spec fn with_record(self, address: Seq<u8>, record: R) -> Self {
        LedgerView { records: self.records.insert(address, record), ..self }
    }

    /// The ledger after the record at `derived` was destroyed.
    pub open spec fn close_record_done(self, derived: Option<(Seq<u8>, u8)>) -> Self {
        LedgerView { records: self.records.remove(address_of(derived)), ..self }
    }
}

/// The accounts of the program `program_id`.
pub struct Ledger<R> {
    program_id: Pubkey,
    state: Option<GlobalState>,
    runs: AccountStore<AirdropRun>,
    records: AccountStore<R>,
}

impl<R> View for Ledger<R> {
    type V = LedgerView<R>;

    closed spec fn view(&self) -> LedgerView<R> {
        LedgerView {
            program_id: self.program_id@,
            state: self.state,
            runs: self.runs@,
            records: self.records@,
        }
    }
}

impl<R: Copy> Ledger<R> {
    /// The ledger of a program that has created nothing yet.
    pub fn new(program_id: Pubkey) -> (ledger: Self)
        ensures
            ledger@ == LedgerView::<R>::empty(program_id@),
            ledger@.wf(),
    {
        Ledger { program_id, state: None, runs: AccountStore::new(), records: AccountStore::new() }
    }

    /// The program whose accounts these are.
    pub fn program_id(&self) -> (program_id: Pubkey)
        ensures
            program_id@ == self@.program_id,
    {
        self.program_id
    }

    /// The singleton state, once it exists.
    pub fn state(&self) -> (state: Option<GlobalState>)
        ensures
            state == self@.state,
    {
        self.state
    }

    /// The run at `address`, if there is one.
    pub fn run_at(&self, address: &Pubkey) -> (run: Option<AirdropRun>)
        ensures
            run == (if self@.runs.dom().contains(address@) {
                Some(self@.runs[address@])
            } else {
                None
            }),
    {
        self.runs.get(address)
    }

    /// The record at `address`, if there is one.
    pub fn record_at(&self, address: &Pubkey) -> (record: Option<R>)
        ensures
            record == (if self@.records.dom().contains(address@) {
                Some(self@.records[address@])
            } else {
                None
            }),
    {
        self.records.get(address)
    }

    /// Whether `caller` is the authority of this ledger.
    pub fn is_authority(&self, caller: &Pubkey) -> (yes: bool)
        ensures
            yes == self@.is_authority(caller@),
    {
        match self.state {
            Some(state) => state.is_authority(caller),
            None => false,
        }
    }

    /// Creates the singleton state with `authority` and a counter of 0. Its
    /// address was derived beforehand and is handed in as `derived`.
    pub fn initialize_state_at(&mut self, authority: Pubkey, derived: Option<ProgramAddress>) -> (r:
        Result<(), ErrorCode>)
        ensures
            match old(self)@.initialize_state_error(found_view(derived)) {
                Some(error) => r == Err::<(), ErrorCode>(error) && final(self)@ == old(self)@,
                None => r == Ok::<(), ErrorCode>(()) && final(self)@ == old(self)@.initialize_state_done(authority, found_view(derived)),
            },
            old(self)@.wf() ==> final(self)@.wf(),
    {
        if self.state.is_some() {
            return Err(ErrorCode::AlreadyInitialized);
        }
        match derived {
            None => Err(ErrorCode::InvalidSeeds),
            Some(pda) => {
                self.state = Some(GlobalState::new(authority, pda.bump));
                Ok(())
            },
        }
    }

    /// Advances the run counter by one and creates the run that carries the
    /// new value, with zeroed totals, at the address `derived`.
    pub fn create_run_at(
        &mut self,
        caller: &Pubkey,
        dry_run: bool,
        now: i64,
        derived: Option<ProgramAddress>,
    ) -> (r: Result<u64, ErrorCode>)
        ensures
            match old(self)@.create_run_error(caller@, found_view(derived)) {
                Some(error) => r == Err::<u64, ErrorCode>(error) && final(self)@ == old(self)@,
                None => r == Ok::<u64, ErrorCode>((old(self)@.run_counter() + 1) as u64) && final(self)@ == old(self)@.create_run_done(dry_run, now, found_view(derived)),
            },
            old(self)@.wf() ==> final(self)@.wf(),
    {
        if !self.is_authority(caller) {
            return Err(ErrorCode::Unauthorized);
        }
        let state = self.state.unwrap();
        let run_id = match state.next_run_id() {
            Some(run_id) => run_id,
            None => {
                return Err(ErrorCode::Overflow);
            },
        };
        let pda = match derived {
            Some(pda) => pda,
            None => {
                return Err(ErrorCode::InvalidSeeds);
            },
        };
        if self.runs.contains(&pda.address) {
            return Err(ErrorCode::DuplicateKey);
        }
        self.state = Some(
            GlobalState { authority: state.authority, run_counter: run_id, bump: state.bump },
        );
        self.runs.insert(pda.address, AirdropRun::new(run_id, now, dry_run, pda.bump));
        Ok(run_id)
    }

    /// Overwrites the totals of the run at `derived`. The last write wins.
    pub fn update_run_totals_at(
        &mut self,
        caller: &Pubkey,
        total_recipients: u32,
        total_amount: u64,
        derived: Option<ProgramAddress>,
    ) -> (r: Result<(), ErrorCode>)
        ensures
            match old(self)@.update_run_totals_error(caller@, found_view(derived)) {
                Some(error) => r == Err::<(), ErrorCode>(error) && final(self)@ == old(self)@,
                None => r == Ok::<(), ErrorCode>(()) && final(self)@ == old(self)@.update_run_totals_done(total_recipients, total_amount, found_view(derived)),
            },
            old(self)@.wf() ==> final(self)@.wf(),
    {
        if !self.is_authority(caller) {
            return Err(ErrorCode::Unauthorized);
        }
        let pda = match derived {
            Some(pda) => pda,
            None => {
                return Err(ErrorCode::InvalidSeeds);
            },
        };
        match self.runs.get(&pda.address) {
            None => Err(ErrorCode::NotFound),
            Some(run) => {
                self.runs.insert(pda.address, run.with_totals(total_recipients, total_amount));
                Ok(())
            },
        }
    }

    /// Whether `caller` may create a record at the address `derived`: `Ok`
    /// where it may, else the reason.
    pub fn check_vacant_at(&self, caller: &Pubkey, derived: Option<ProgramAddress>) -> (r: Result<
        (),
        ErrorCode,
    >)
        ensures
            match self@.create_record_error(caller@, found_view(derived)) {
                Some(error) => r == Err::<(), ErrorCode>(error),
                None => r == Ok::<(), ErrorCode>(()),
            },
    {
        if !self.is_authority(caller) {
            return Err(ErrorCode::Unauthorized);
        }
        match derived {
            None => Err(ErrorCode::InvalidSeeds),
            Some(pda) => if self.records.contains(&pda.address) {
                Err(ErrorCode::DuplicateKey)
            } else {
                Ok(())
            },
        }
    }

    /// Puts `record` at the address `derived`, where no record is yet.
    pub(crate) fn create_record_at(&mut self, caller: &Pubkey, record: R, derived: Option<ProgramAddress>)
        -> (r: Result<(), ErrorCode>)
        ensures
            match old(self)@.create_record_error(caller@, found_view(derived)) {
                Some(error) => r == Err::<(), ErrorCode>(error) && final(self)@ == old(self)@,
                None => r == Ok::<(), ErrorCode>(()) && final(self)@ == old(self)@.with_record(
                    address_of(found_view(derived)),
                    record,
                ),
            },
            old(self)@.wf() ==> final(self)@.wf(),
    {
        match self.check_vacant_at(caller, derived) {
            Err(error) => Err(error),
            Ok(_) => {
                self.records.insert(derived.unwrap().address, record);
                Ok(())
            },
        }
    }

    /// The record at `derived`, for the authority to change.
    pub fn find_record_at(&self, caller: &Pubkey, derived: Option<ProgramAddress>) -> (r: Result<
        R,
        ErrorCode,
    >)
        ensures
            match self@.find_record_error(caller@, found_view(derived)) {
                Some(error) => r == Err::<R, ErrorCode>(error),
                None => r == Ok::<R, ErrorCode>(self@.records[address_of(found_view(derived))]),
            },
    {
        if !self.is_authority(caller) {
            return Err(ErrorCode::Unauthorized);
        }
        let pda = match derived {
            Some(pda) => pda,
            None => {
                return Err(ErrorCode::InvalidSeeds);
            },
        };
        match self.records.get(&pda.address) {
            None => Err(ErrorCode::NotFound),
            Some(record) => Ok(record),
        }
    }

    /// Puts `record` in place of the record at `derived`.
    pub(crate) fn replace_record_at(&mut self, caller: &Pubkey, record: R, derived: Option<ProgramAddress>)
        -> (r: Result<(), ErrorCode>)
        ensures
            match old(self)@.find_record_error(caller@, found_view(derived)) {
                Some(error) => r == Err::<(), ErrorCode>(error) && final(self)@ == old(self)@,
                None => r == Ok::<(), ErrorCode>(()) && final(self)@ == old(self)@.with_record(
                    address_of(found_view(derived)),
                    record,
                ),
            },
            old(self)@.wf() ==> final(self)@.wf(),
    {
        match self.find_record_at(caller, derived) {
            Err(error) => Err(error),
            Ok(_) => {
                self.records.insert(derived.unwrap().address, record);
                Ok(())
            },
        }
    }

    /// Destroys the record at `derived`. What it counted is gone; a record
    /// created there later starts afresh.
    pub fn close_record_at(&mut self, caller: &Pubkey, derived: Option<ProgramAddress>) -> (r:
        Result<(), ErrorCode>)
        ensures
            match old(self)@.find_record_error(caller@, found_view(derived)) {
                Some(error) => r == Err::<(), ErrorCode>(error) && final(self)@ == old(self)@,
                None => r == Ok::<(), ErrorCode>(()) && final(self)@ == old(self)@.close_record_done(found_view(derived)),
            },
            old(self)@.wf() ==> final(self)@.wf(),
    {
        match self.find_record_at(caller, derived) {
            Err(error) => Err(error),
            Ok(_) => {
                self.records.remove(&derived.unwrap().address);
                Ok(())
            },
        }
    }
}

} // verus!
