//! The counter's state machine: each instruction checks the counter account and
//! either rewrites its record or fails, leaving every account as it was.
use vstd::prelude::*;
use crate::error::CounterError;
use crate::instruction::{parse_instruction, CounterInstruction};
use crate::state::{account_bytes, stored_count, CounterAccount, ACCOUNT_SPACE};

verus! {

/// An account as the program sees it: the program that owns it, and the bytes it stores.
pub struct Account {
    pub owner: [u8; 32],
    pub data: Vec<u8>,
}

/// The step an increment or decrement uses: the given one, or 1.
pub open spec fn step_value(step: Option<u64>) -> u64 {
    match step {
        Some(s) => s,
        None => 1,
    }
}

/// The checks shared by increment and decrement, in order: the owner must be
/// the program, the account must hold data, and the data must be one record.
/// Gives the stored count when all pass.
pub open spec fn current_count(program_id: Seq<u8>, owner: Seq<u8>, data: Seq<u8>) -> Result<
    u64,
    CounterError,
> {
    if owner != program_id {
        Err(CounterError::IncorrectProgramId)
    } else if data.len() == 0 {
        Err(CounterError::UninitializedAccount)
    } else {
        match stored_count(data) {
            Some(c) => Ok(c),
            None => Err(CounterError::InvalidAccountData),
        }
    }
}

/// The count after adding `step`, or why it cannot be had.
pub open spec fn incremented(program_id: Seq<u8>, owner: Seq<u8>, data: Seq<u8>, step: u64) -> Result<
    u64,
    CounterError,
> {
    match current_count(program_id, owner, data) {
        Ok(c) => if c + step <= u64::MAX {
            Ok((c + step) as u64)
        } else {
            Err(CounterError::InvalidAccountData)
        },
        Err(e) => Err(e),
    }
}

/// The count after subtracting `step`, or why it cannot be had.
pub open spec fn decremented(program_id: Seq<u8>, owner: Seq<u8>, data: Seq<u8>, step: u64) -> Result<
    u64,
    CounterError,
> {
    match current_count(program_id, owner, data) {
        Ok(c) => if step <= c {
            Ok((c - step) as u64)
        } else {
            Err(CounterError::InvalidAccountData)
        },
        Err(e) => Err(e),
    }
}

/// What an instruction makes of the counter account: its new owner and bytes,
/// or the error it fails with.
pub open spec fn transition(
    program_id: Seq<u8>,
    owner: Seq<u8>,
    data: Seq<u8>,
    ix: CounterInstruction,
) -> Result<(Seq<u8>, Seq<u8>), CounterError> {
    match ix {
        CounterInstruction::InitializeCounter { initial_value } => if data.len() > 0 {
            Err(CounterError::AccountAlreadyInitialized)
        } else {
            Ok((program_id, account_bytes(initial_value)))
        },
        CounterInstruction::IncrementCounter { step } => match incremented(
            program_id,
            owner,
            data,
            step_value(step),
        ) {
            Ok(n) => Ok((owner, account_bytes(n))),
            Err(e) => Err(e),
        },
        CounterInstruction::DecrementCounter { step } => match decremented(
            program_id,
            owner,
            data,
            step_value(step),
        ) {
            Ok(n) => Ok((owner, account_bytes(n))),
            Err(e) => Err(e),
        },
    }
}

/// How many accounts an instruction reads: the counter, then for initialize
/// the payer and the account-creating program.
pub open spec fn accounts_needed(ix: CounterInstruction) -> nat {
    match ix {
        CounterInstruction::InitializeCounter { .. } => 3,
        _ => 1,
    }
}

/// `after` is what `ix` makes of `before`, and `r` says so; a failure changes nothing.
pub open spec fn applied(
    program_id: Seq<u8>,
    before: Account,
    after: Account,
    ix: CounterInstruction,
    r: Result<(), CounterError>,
) -> bool {
    match transition(program_id, before.owner@, before.data@, ix) {
        Ok((owner, data)) => r is Ok && after.owner@ == owner && after.data@ == data,
        Err(e) => r == Err::<(), CounterError>(e) && after == before,
    }
}

/// Whether two program ids are the same.
fn same_key(a: &[u8; 32], b: &[u8; 32]) -> (r: bool)
    ensures
        r == (a@ == b@),
{
    let mut i: usize = 0;
    while i < 32
        invariant
            i <= 32,
            a@.len() == 32,
            b@.len() == 32,
            forall|j: int| 0 <= j < i ==> a@[j] == b@[j],
        decreases 32 - i,
    {
        if a[i] != b[i] {
            return false;
        }
        i = i + 1;
    }
    assert(a@ =~= b@);
    true
}

/// The space to create for a counter account whose data is `data_len` bytes
/// long; an account that already holds data cannot be initialized again.
pub fn initialize_space(data_len: usize) -> (r: Result<u64, CounterError>)
    ensures
        r == if data_len == 0 {
            Ok::<u64, CounterError>(ACCOUNT_SPACE)
        } else {
            Err::<u64, CounterError>(CounterError::AccountAlreadyInitialized)
        },
{
    if data_len > 0 {
        Err(CounterError::AccountAlreadyInitialized)
    } else {
        Ok(ACCOUNT_SPACE)
    }
}

/// Creates the counter: the account, which must hold no data, comes to be owned
/// by the program and to store `initial_value`.
pub fn process_initialize_counter(
    program_id: &[u8; 32],
    counter: &mut Account,
    initial_value: u64,
) -> (r: Result<(), CounterError>)
    ensures
        applied(
            program_id@,
            *old(counter),
            *final(counter),
            CounterInstruction::InitializeCounter { initial_value },
            r,
        ),
{
    match initialize_space(counter.data.len()) {
        Ok(_) => {},
        Err(e) => return Err(e),
    }
    let record = CounterAccount { count: initial_value };
    counter.owner = *program_id;
    counter.data = record.to_bytes();
    Ok(())
}

/// Adds `step` (1 when absent) to the stored count, failing on overflow.
pub fn process_increment_counter(
    program_id: &[u8; 32],
    counter: &mut Account,
    step: Option<u64>,
) -> (r: Result<(), CounterError>)
    ensures
        applied(
            program_id@,
            *old(counter),
            *final(counter),
            CounterInstruction::IncrementCounter { step },
            r,
        ),
{
    let step_value: u64 = match step {
        Some(s) => s,
        None => 1,
    };
    if !same_key(&counter.owner, program_id) {
        return Err(CounterError::IncorrectProgramId);
    }
    if counter.data.len() == 0 {
        return Err(CounterError::UninitializedAccount);
    }
    let current = match CounterAccount::try_from_slice(counter.data.as_slice()) {
        Ok(c) => c,
        Err(e) => return Err(e),
    };
    let count = match current.count.checked_add(step_value) {
        Some(n) => n,
        None => return Err(CounterError::InvalidAccountData),
    };
    counter.data = CounterAccount { count }.to_bytes();
    Ok(())
}

/// Subtracts `step` (1 when absent) from the stored count, failing below zero.
pub fn process_decrement_counter(
    program_id: &[u8; 32],
    counter: &mut Account,
    step: Option<u64>,
) -> (r: Result<(), CounterError>)
    ensures
        applied(
            program_id@,
            *old(counter),
            *final(counter),
            CounterInstruction::DecrementCounter { step },
            r,
        ),
{
    let step_value: u64 = match step {
        Some(s) => s,
        None => 1,
    };
    if !same_key(&counter.owner, program_id) {
        return Err(CounterError::IncorrectProgramId);
    }
    if counter.data.len() == 0 {
        return Err(CounterError::UninitializedAccount);
    }
    let current = match CounterAccount::try_from_slice(counter.data.as_slice()) {
        Ok(c) => c,
        Err(e) => return Err(e),
    };
    let count = match current.count.checked_sub(step_value) {
        Some(n) => n,
        None => return Err(CounterError::InvalidAccountData),
    };
    counter.data = CounterAccount { count }.to_bytes();
    Ok(())
}

/// Runs one instruction against `accounts`, whose first entry is the counter
/// account. Initialize reads three accounts (the counter, the payer and the
/// account-creating program), increment and decrement one. Only the counter can
/// change, and on failure nothing does.
pub fn process_instruction(
    program_id: &[u8; 32],
    accounts: &mut Vec<Account>,
    instruction_data: &[u8],
) -> (r: Result<(), CounterError>)
    ensures
        r is Err ==> final(accounts)@ == old(accounts)@,
        match parse_instruction(instruction_data@) {
            None => r == Err::<(), CounterError>(CounterError::InvalidInstructionData),
            Some(ix) => if old(accounts)@.len() < accounts_needed(ix) {
                r == Err::<(), CounterError>(CounterError::NotEnoughAccountKeys)
            } else {
                &&& final(accounts)@.len() == old(accounts)@.len()
                &&& forall|i: int|
                    1 <= i < old(accounts)@.len() ==> final(accounts)@[i] == old(accounts)@[i]
                &&& applied(program_id@, old(accounts)@[0], final(accounts)@[0], ix, r)
            },
        },
{
    let ix = match CounterInstruction::try_from_slice(instruction_data) {
        Ok(ix) => ix,
        Err(e) => return Err(e),
    };
    let needed: usize = match ix {
        CounterInstruction::InitializeCounter { .. } => 3,
        _ => 1,
    };
    if accounts.len() < needed {
        return Err(CounterError::NotEnoughAccountKeys);
    }
    let ghost before = accounts@;
    let mut counter = accounts.remove(0);
    let r = match ix {
        CounterInstruction::InitializeCounter { initial_value } => process_initialize_counter(
            program_id,
            &mut counter,
            initial_value,
        ),
        CounterInstruction::IncrementCounter { step } => process_increment_counter(
            program_id,
            &mut counter,
            step,
        ),
        CounterInstruction::DecrementCounter { step } => process_decrement_counter(
            program_id,
            &mut counter,
            step,
        ),
    };
    accounts.insert(0, counter);
    assert(r is Err ==> accounts@ =~= before);
    r
}

/// Initializing a fresh account leaves it owned by the program and storing
/// exactly the initial value, for every initial value.
pub proof fn lemma_initialize_then_read(program_id: Seq<u8>, owner: Seq<u8>, v: u64)
    ensures
        transition(program_id, owner, Seq::empty(), CounterInstruction::InitializeCounter {
            initial_value: v,
        }) == Ok::<(Seq<u8>, Seq<u8>), CounterError>((program_id, account_bytes(v))),
        stored_count(account_bytes(v)) == Some(v),
{
    crate::codec::lemma_u64_round_trip(v);
}

/// An increment without a step adds one to a stored count below the maximum.
pub proof fn lemma_increment_default(program_id: Seq<u8>, c: u64)
    requires
        c + 1 <= u64::MAX,
    ensures
        transition(
            program_id,
            program_id,
            account_bytes(c),
            CounterInstruction::IncrementCounter { step: None },
        ) == Ok::<(Seq<u8>, Seq<u8>), CounterError>((program_id, account_bytes((c + 1) as u64))),
        stored_count(account_bytes((c + 1) as u64)) == Some((c + 1) as u64),
{
    crate::codec::lemma_u64_round_trip(c);
    crate::codec::lemma_u64_round_trip((c + 1) as u64);
}

/// An increment by `s` adds `s` to the stored count when the sum fits in a
/// `u64`, and otherwise fails with `InvalidAccountData`.
pub proof fn lemma_increment_step(program_id: Seq<u8>, c: u64, s: u64)
    ensures
        c + s <= u64::MAX ==> transition(
            program_id,
            program_id,
            account_bytes(c),
            CounterInstruction::IncrementCounter { step: Some(s) },
        ) == Ok::<(Seq<u8>, Seq<u8>), CounterError>((program_id, account_bytes((c + s) as u64))),
        c + s > u64::MAX ==> transition(
            program_id,
            program_id,
            account_bytes(c),
            CounterInstruction::IncrementCounter { step: Some(s) },
        ) == Err::<(Seq<u8>, Seq<u8>), CounterError>(CounterError::InvalidAccountData),
{
    crate::codec::lemma_u64_round_trip(c);
}

/// A decrement by the step (1 when absent) subtracts it from the stored count
/// when it is at most the count, and otherwise fails with `InvalidAccountData`.
pub proof fn lemma_decrement(program_id: Seq<u8>, c: u64, step: Option<u64>)
    ensures
        step_value(step) <= c ==> transition(
            program_id,
            program_id,
            account_bytes(c),
            CounterInstruction::DecrementCounter { step },
        ) == Ok::<(Seq<u8>, Seq<u8>), CounterError>(
            (program_id, account_bytes((c - step_value(step)) as u64)),
        ),
        step_value(step) > c ==> transition(
            program_id,
            program_id,
            account_bytes(c),
            CounterInstruction::DecrementCounter { step },
        ) == Err::<(Seq<u8>, Seq<u8>), CounterError>(CounterError::InvalidAccountData),
{
    crate::codec::lemma_u64_round_trip(c);
}

/// Initializing an account a second time fails with `AccountAlreadyInitialized`,
/// so the value of the first initialization stays stored.
pub proof fn lemma_double_initialize(program_id: Seq<u8>, owner: Seq<u8>, v: u64, w: u64)
    ensures
        transition(program_id, owner, Seq::empty(), CounterInstruction::InitializeCounter {
            initial_value: v,
        }) == Ok::<(Seq<u8>, Seq<u8>), CounterError>((program_id, account_bytes(v))),
        transition(
            program_id,
            program_id,
            account_bytes(v),
            CounterInstruction::InitializeCounter { initial_value: w },
        ) == Err::<(Seq<u8>, Seq<u8>), CounterError>(CounterError::AccountAlreadyInitialized),
        stored_count(account_bytes(v)) == Some(v),
{
    crate::codec::lemma_u64_round_trip(v);
}

} // verus!
