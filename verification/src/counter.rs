//! A counter program written against the bare Solana runtime.
//!
//! Instruction `[0]` creates the counter at the address derived from
//! `"vault"` and records its authority with a count of zero; instruction
//! `[1]` lets that authority add one. The counter is stored as its Borsh
//! encoding: the 32 authority bytes followed by the count in little-endian.
use vstd::prelude::*;
use vstd::bytes::{spec_u64_from_le_bytes, spec_u64_to_le_bytes};

use crate::keys::{Key, keys_equal, vault_seed, vault_seed_bytes};

verus! {

/// The counter account's contents.
#[derive(Clone, Copy)]
pub struct Counter {
    pub authority: Key,
    pub count: u64,
}

impl Counter {
    /// The length of the stored counter.
    pub const LEN: usize = 40;
}

/// What the program reads of an account passed to it.
pub struct AccountView {
    pub key: Key,
    pub owner: Key,
    pub is_signer: bool,
    pub is_writable: bool,
    pub lamports: u64,
    pub data: Vec<u8>,
}

/// The runtime errors that the program returns.
#[derive(Clone, Copy, PartialEq, Eq, Structural, Debug)]
pub enum CounterError {
    InvalidInstructionData,
    NotEnoughAccountKeys,
    IncorrectProgramId,
    MissingRequiredSignature,
    InvalidArgument,
    IllegalOwner,
    InvalidSeeds,
    AccountAlreadyInitialized,
    InvalidAccountOwner,
    InvalidAccountData,
    IncorrectAuthority,
    ArithmeticOverflow,
}

/// The two instructions.
#[derive(Clone, Copy, PartialEq, Eq, Structural, Debug)]
pub enum CounterInstruction {
    Initialize,
    Increment,
}

/// The account creation that `Initialize` asks of the system program,
/// signed by the counter's address with seeds `"vault"` and `bump`, and the
/// data then written into the new account.
pub struct CreateCounter {
    pub payer: Key,
    pub counter: Key,
    pub lamports: u64,
    pub space: u64,
    pub owner: Key,
    pub bump: u8,
    pub signer_seeds: Vec<Vec<u8>>,
    pub data: Vec<u8>,
}

/// The counter address signs with `["vault", [bump]]`.
pub open spec fn counter_signer_seeds(seeds: Seq<Vec<u8>>, bump: u8) -> bool {
    &&& seeds.len() == 2
    &&& seeds[0]@ == vault_seed_bytes()
    &&& seeds[1]@ == seq![bump]
}

/// What a successful instruction does.
pub enum CounterEffect {
    /// Create the counter account and write its first contents.
    Created(CreateCounter),
    /// Overwrite the counter account's data.
    Updated(Vec<u8>),
}

// ---------------------------------------------------------------------------
// Outside functions
// ---------------------------------------------------------------------------

/// The address that `Pubkey::try_find_program_address` derives from one seed
/// and a program id, with its bump: a SHA-256 search that depends on its
/// arguments alone. `None` when no bump gives an address off the curve.
pub uninterp spec fn program_address_for_seed(seed: Seq<u8>, program_id: Seq<u8>) -> Option<(Seq<u8>, u8)>;

/// Calls `solana_program::pubkey::Pubkey::try_find_program_address` with
/// the single seed `seed`; the contract claims only that the result is the
/// named derivation of the seed and the program id.
#[verifier::external_body]
fn find_program_address_for_seed(seed: &[u8], program_id: &Key) -> (res: Option<(Key, u8)>)
    ensures
        res is Some <==> program_address_for_seed(seed@, program_id@) is Some,
        res matches Some((rk, rb)) ==> program_address_for_seed(seed@, program_id@) == Some((rk@, rb)),
{
    let program = solana_program::pubkey::Pubkey::new_from_array(*program_id);
    match solana_program::pubkey::Pubkey::try_find_program_address(&[seed], &program) {
        Some((key, bump)) => Some((key.to_bytes(), bump)),
        None => None,
    }
}

/// The system program's id: `11111111111111111111111111111111` in base 58,
/// which is 32 zero bytes.
pub open spec fn system_program_bytes() -> Seq<u8> {
    Seq::new(32, |i: int| 0u8)
}

/// Reads `solana_system_interface::program::ID`; claims it is 32 zero bytes,
/// as its `declare_id!` of `"11111111111111111111111111111111"` makes it.
#[verifier::external_body]
fn system_program_id() -> (id: Key)
    ensures
        id@ == system_program_bytes(),
{
    solana_system_interface::program::ID.to_bytes()
}

/// The Borsh encoding of a counter.
pub open spec fn counter_bytes(authority: Seq<u8>, count: u64) -> Seq<u8> {
    authority + spec_u64_to_le_bytes(count)
}

/// Encodes a counter with `borsh::to_vec` of `(authority, count)`: a Borsh
/// byte array is its bytes and a `u64` its eight little-endian bytes, and
/// serialising into a `Vec` does not fail, so the result is those 40 bytes.
#[verifier::external_body]
fn borsh_encode_counter(authority: &Key, count: u64) -> (res: Option<Vec<u8>>)
    ensures
        res is Some,
        res->Some_0@ == counter_bytes(authority@, count),
{
    borsh::to_vec(&(*authority, count)).ok()
}

/// The counter that Borsh decodes from `data`: exactly 40 bytes are needed.
pub open spec fn decoded_counter(data: Seq<u8>) -> Option<(Seq<u8>, u64)> {
    if data.len() == 40 {
        Some((data.subrange(0, 32), spec_u64_from_le_bytes(data.subrange(32, 40))))
    } else {
        None
    }
}

/// Decodes `([u8; 32], u64)` with Borsh's `try_from_slice`: it reads 32
/// bytes, then 8 little-endian bytes, and fails on a shorter input or on
/// bytes left over.
#[verifier::external_body]
fn borsh_decode_counter(data: &[u8]) -> (res: Option<(Key, u64)>)
    ensures
        res is Some <==> decoded_counter(data@) is Some,
        res matches Some((ra, rc)) ==> decoded_counter(data@) == Some((ra@, rc)),
{
    <([u8; 32], u64) as borsh::BorshDeserialize>::try_from_slice(data).ok()
}

// ---------------------------------------------------------------------------
// What the instructions decide
// ---------------------------------------------------------------------------

/// The instruction that `data` selects.
pub open spec fn decode_instruction_spec(data: Seq<u8>) -> Option<CounterInstruction> {
    if data == seq![0u8] {
        Some(CounterInstruction::Initialize)
    } else if data == seq![1u8] {
        Some(CounterInstruction::Increment)
    } else {
        None
    }
}

/// The checks of `Initialize` that come before the address is derived.
pub open spec fn initialize_account_check(accounts: Seq<AccountView>) -> Option<CounterError> {
    if accounts.len() < 3 {
        Some(CounterError::NotEnoughAccountKeys)
    } else if accounts[2].key@ != system_program_bytes() {
        Some(CounterError::IncorrectProgramId)
    } else if !accounts[1].is_signer {
        Some(CounterError::MissingRequiredSignature)
    } else if !accounts[1].is_writable {
        Some(CounterError::InvalidArgument)
    } else if !accounts[0].is_writable {
        Some(CounterError::InvalidArgument)
    } else if accounts[0].owner@ != accounts[2].key@ {
        Some(CounterError::IllegalOwner)
    } else {
        None
    }
}

/// The error of `Initialize`, if any, given the derived counter address.
pub open spec fn initialize_check(accounts: Seq<AccountView>, pda: Seq<u8>) -> Option<CounterError> {
    if initialize_account_check(accounts) is Some {
        initialize_account_check(accounts)
    } else if accounts[0].key@ != pda {
        Some(CounterError::InvalidSeeds)
    } else if accounts[0].data@.len() != 0 || accounts[0].lamports > 0 {
        Some(CounterError::AccountAlreadyInitialized)
    } else {
        None
    }
}

/// The checks of `Increment` that come before the address is derived.
pub open spec fn increment_account_check(program_id: Seq<u8>, accounts: Seq<AccountView>) -> Option<CounterError> {
    if accounts.len() < 2 {
        Some(CounterError::NotEnoughAccountKeys)
    } else if accounts[0].owner@ != program_id {
        Some(CounterError::InvalidAccountOwner)
    } else if !accounts[0].is_writable {
        Some(CounterError::InvalidArgument)
    } else if !accounts[1].is_signer {
        Some(CounterError::MissingRequiredSignature)
    } else {
        None
    }
}

/// The error of `Increment`, if any, given the derived counter address.
pub open spec fn increment_check(program_id: Seq<u8>, accounts: Seq<AccountView>, pda: Seq<u8>) -> Option<
    CounterError,
> {
    if increment_account_check(program_id, accounts) is Some {
        increment_account_check(program_id, accounts)
    } else if accounts[0].key@ != pda {
        Some(CounterError::InvalidSeeds)
    } else {
        match decoded_counter(accounts[0].data@) {
            None => Some(CounterError::InvalidAccountData),
            Some((authority, count)) => if accounts[1].key@ != authority {
                Some(CounterError::IncorrectAuthority)
            } else if count == u64::MAX {
                Some(CounterError::ArithmeticOverflow)
            } else {
                None
            },
        }
    }
}

/// Runs the checks of `Initialize` that need no derived address.
fn check_initialize_accounts(accounts: &[AccountView]) -> (res: Result<(), CounterError>)
    ensures
        match initialize_account_check(accounts@) {
            Some(err) => res == Err::<(), CounterError>(err),
            None => res is Ok,
        },
{
    if accounts.len() < 3 {
        return Err(CounterError::NotEnoughAccountKeys);
    }
    let counter_info = &accounts[0];
    let authority_info = &accounts[1];
    let system_program = &accounts[2];
    let system_id = system_program_id();
    if !keys_equal(&system_program.key, &system_id) {
        return Err(CounterError::IncorrectProgramId);
    }
    if !authority_info.is_signer {
        return Err(CounterError::MissingRequiredSignature);
    }
    if !authority_info.is_writable {
        return Err(CounterError::InvalidArgument);
    }
    if !counter_info.is_writable {
        return Err(CounterError::InvalidArgument);
    }
    if !keys_equal(&counter_info.owner, &system_program.key) {
        return Err(CounterError::IllegalOwner);
    }
    Ok(())
}

/// Runs the checks of `Increment` that need no derived address.
fn check_increment_accounts(program_id: &Key, accounts: &[AccountView]) -> (res: Result<(), CounterError>)
    ensures
        match increment_account_check(program_id@, accounts@) {
            Some(err) => res == Err::<(), CounterError>(err),
            None => res is Ok,
        },
{
    if accounts.len() < 2 {
        return Err(CounterError::NotEnoughAccountKeys);
    }
    if !keys_equal(&accounts[0].owner, program_id) {
        return Err(CounterError::InvalidAccountOwner);
    }
    if !accounts[0].is_writable {
        return Err(CounterError::InvalidArgument);
    }
    if !accounts[1].is_signer {
        return Err(CounterError::MissingRequiredSignature);
    }
    Ok(())
}

// ---------------------------------------------------------------------------
// The instructions
// ---------------------------------------------------------------------------

/// Reads the instruction byte: `[0]` is `Initialize`, `[1]` is `Increment`.
pub fn decode_instruction(data: &[u8]) -> (res: Result<CounterInstruction, CounterError>)
    ensures
        match decode_instruction_spec(data@) {
            Some(i) => res == Ok::<CounterInstruction, CounterError>(i),
            None => res == Err::<CounterInstruction, CounterError>(CounterError::InvalidInstructionData),
        },
{
    if data.len() == 1 && data[0] == 0 {
        assert(data@ =~= seq![0u8]);
        Ok(CounterInstruction::Initialize)
    } else if data.len() == 1 && data[0] == 1 {
        assert(data@ =~= seq![1u8]);
        Ok(CounterInstruction::Increment)
    } else {
        assert(data@ != seq![0u8]);
        assert(data@ != seq![1u8]);
        Err(CounterError::InvalidInstructionData)
    }
}

/// `Initialize`, given the counter address `pda` and `bump` derived from
/// `"vault"` and the program id, and the rent-exempt minimum for 40 bytes.
/// The accounts are the counter, its authority and the system program. After
/// the checks it asks the system program to create the counter, paid by the
/// authority, owned by this program, with 40 bytes and the rent minimum, and
/// writes the authority with a count of zero.
pub fn initialize(
    program_id: &Key,
    accounts: &[AccountView],
    rent_minimum: u64,
    pda: &Key,
    bump: u8,
) -> (res: Result<CreateCounter, CounterError>)
    ensures
        match initialize_check(accounts@, pda@) {
            Some(err) => res matches Err(e) && e == err,
            None => res matches Ok(c) && {
                &&& c.payer == accounts@[1].key
                &&& c.counter == accounts@[0].key
                &&& c.lamports == rent_minimum
                &&& c.space == Counter::LEN
                &&& c.owner == *program_id
                &&& c.bump == bump
                &&& counter_signer_seeds(c.signer_seeds@, bump)
                &&& c.data@ == counter_bytes(accounts@[1].key@, 0)
            },
        },
{
    check_initialize_accounts(accounts)?;
    let counter_info = &accounts[0];
    let authority_info = &accounts[1];
    if !keys_equal(&counter_info.key, pda) {
        return Err(CounterError::InvalidSeeds);
    }
    if counter_info.data.len() != 0 || counter_info.lamports > 0 {
        return Err(CounterError::AccountAlreadyInitialized);
    }
    let data = match borsh_encode_counter(&authority_info.key, 0) {
        Some(d) => d,
        None => return Err(CounterError::InvalidAccountData),
    };
    let mut signer_seeds: Vec<Vec<u8>> = Vec::new();
    signer_seeds.push(vault_seed());
    let bump_seed: Vec<u8> = vec![bump];
    assert(bump_seed@ =~= seq![bump]);
    signer_seeds.push(bump_seed);
    Ok(
        CreateCounter {
            payer: authority_info.key,
            counter: counter_info.key,
            lamports: rent_minimum,
            space: 40,
            owner: *program_id,
            bump,
            signer_seeds,
            data,
        },
    )
}

/// `Increment`, given the counter address `pda` derived from `"vault"` and
/// the program id. The accounts are the counter and its authority. After the
/// checks it returns the counter's new data: the same authority with the
/// count one higher.
pub fn increment(program_id: &Key, accounts: &[AccountView], pda: &Key) -> (res: Result<
    Vec<u8>,
    CounterError,
>)
    ensures
        match increment_check(program_id@, accounts@, pda@) {
            Some(err) => res matches Err(e) && e == err,
            None => res matches Ok(data) && {
                let (authority, count) = decoded_counter(accounts@[0].data@)->Some_0;
                data@ == counter_bytes(authority, (count + 1) as u64)
            },
        },
{
    check_increment_accounts(program_id, accounts)?;
    let counter_info = &accounts[0];
    let authority_info = &accounts[1];
    if !keys_equal(&counter_info.key, pda) {
        return Err(CounterError::InvalidSeeds);
    }
    let (authority, count) = match borsh_decode_counter(counter_info.data.as_slice()) {
        Some(c) => c,
        None => return Err(CounterError::InvalidAccountData),
    };
    if !keys_equal(&authority_info.key, &authority) {
        return Err(CounterError::IncorrectAuthority);
    }
    let next = match count.checked_add(1) {
        Some(n) => n,
        None => return Err(CounterError::ArithmeticOverflow),
    };
    match borsh_encode_counter(&authority, next) {
        Some(d) => Ok(d),
        None => Err(CounterError::InvalidAccountData),
    }
}

/// The checks that `instruction` makes before the counter address is derived.
pub open spec fn account_check(program_id: Seq<u8>, accounts: Seq<AccountView>, ins: CounterInstruction) -> Option<
    CounterError,
> {
    match ins {
        CounterInstruction::Initialize => initialize_account_check(accounts),
        CounterInstruction::Increment => increment_account_check(program_id, accounts),
    }
}

/// Runs the instruction that `instruction_data` selects. Once the accounts
/// pass the checks that need no address, it derives the counter address from
/// `"vault"` and `program_id`; `None` when no bump yields an address (where
/// the program aborts); otherwise what `initialize` or `increment` returns
/// for that address.
pub fn process_instruction(
    program_id: &Key,
    accounts: &[AccountView],
    instruction_data: &[u8],
    rent_minimum: u64,
) -> (res: Option<Result<CounterEffect, CounterError>>)
    ensures
        match decode_instruction_spec(instruction_data@) {
            None => res matches Some(Err(e)) && e == CounterError::InvalidInstructionData,
            Some(ins) => match account_check(program_id@, accounts@, ins) {
                Some(err) => res matches Some(Err(e)) && e == err,
                None => match program_address_for_seed(vault_seed_bytes(), program_id@) {
                    None => res is None,
                    Some((pda, bump)) => match ins {
                        CounterInstruction::Initialize => match initialize_check(accounts@, pda) {
                            Some(err) => res matches Some(Err(e)) && e == err,
                            None => res matches Some(Ok(CounterEffect::Created(c))) && {
                                &&& c.payer == accounts@[1].key
                                &&& c.counter == accounts@[0].key
                                &&& c.lamports == rent_minimum
                                &&& c.space == Counter::LEN
                                &&& c.owner == *program_id
                                &&& c.bump == bump
                                &&& counter_signer_seeds(c.signer_seeds@, bump)
                                &&& c.data@ == counter_bytes(accounts@[1].key@, 0)
                            },
                        },
                        CounterInstruction::Increment => match increment_check(program_id@, accounts@, pda) {
                            Some(err) => res matches Some(Err(e)) && e == err,
                            None => res matches Some(Ok(CounterEffect::Updated(data))) && {
                                let (authority, count) = decoded_counter(accounts@[0].data@)->Some_0;
                                data@ == counter_bytes(authority, (count + 1) as u64)
                            },
                        },
                    },
                },
            },
        },
{
    let ins = match decode_instruction(instruction_data) {
        Ok(i) => i,
        Err(e) => return Some(Err(e)),
    };
    let checked = match ins {
        CounterInstruction::Initialize => check_initialize_accounts(accounts),
        CounterInstruction::Increment => check_increment_accounts(program_id, accounts),
    };
    if let Err(e) = checked {
        return Some(Err(e));
    }
    let seed = vault_seed();
    let (pda, bump) = match find_program_address_for_seed(seed.as_slice(), program_id) {
        Some(p) => p,
        None => return None,
    };
    match ins {
        CounterInstruction::Initialize => match initialize(program_id, accounts, rent_minimum, &pda, bump) {
            Ok(c) => Some(Ok(CounterEffect::Created(c))),
            Err(e) => Some(Err(e)),
        },
        CounterInstruction::Increment => match increment(program_id, accounts, &pda) {
            Ok(d) => Some(Ok(CounterEffect::Updated(d))),
            Err(e) => Some(Err(e)),
        },
    }
}

// ---------------------------------------------------------------------------
// Laws
// ---------------------------------------------------------------------------

/// The stored counter reads back as written: decoding the encoding of an
/// authority and a count gives them back.
pub proof fn counter_bytes_read_back(authority: Seq<u8>, count: u64)
    requires
        authority.len() == 32,
    ensures
        decoded_counter(counter_bytes(authority, count)) == Some((authority, count)),
{
    vstd::bytes::lemma_auto_spec_u64_to_from_le_bytes();
    let b = counter_bytes(authority, count);
    assert(b.subrange(0, 32) =~= authority);
    assert(b.subrange(32, 40) =~= spec_u64_to_le_bytes(count));
}

/// A freshly initialized counter holds its authority and a count of zero,
/// and every increment keeps the authority and adds exactly one.
pub proof fn counter_starts_at_zero_and_counts_by_one(authority: Seq<u8>, data: Seq<u8>)
    requires
        authority.len() == 32,
        decoded_counter(data) is Some,
        decoded_counter(data)->Some_0.1 < u64::MAX,
    ensures
        decoded_counter(counter_bytes(authority, 0)) == Some((authority, 0u64)),
        ({
            let (a, c) = decoded_counter(data)->Some_0;
            decoded_counter(counter_bytes(a, (c + 1) as u64)) == Some((a, (c + 1) as u64))
        }),
{
    counter_bytes_read_back(authority, 0);
    let (a, c) = decoded_counter(data)->Some_0;
    counter_bytes_read_back(a, (c + 1) as u64);
}

/// Only the recorded authority can increment: an increment signed by any
/// other key is refused, whatever else the accounts hold.
pub proof fn only_the_authority_increments(program_id: Seq<u8>, accounts: Seq<AccountView>, pda: Seq<u8>)
    requires
        increment_check(program_id, accounts, pda) is None,
    ensures
        decoded_counter(accounts[0].data@) is Some,
        accounts[1].key@ == decoded_counter(accounts[0].data@)->Some_0.0,
        accounts[1].is_signer,
        accounts[0].key@ == pda,
        accounts[0].owner@ == program_id,
{
}

/// A counter cannot be reset: once created it is owned by the program, so a
/// second `Initialize` on it never succeeds, and once the system program,
/// signer and writable checks pass it is refused with `IllegalOwner` (as
/// long as the program is not the system program itself).
pub proof fn counter_cannot_be_reset(program_id: Seq<u8>, accounts: Seq<AccountView>, pda: Seq<u8>)
    requires
        accounts.len() >= 3,
        accounts[0].owner@ == program_id,
        program_id != system_program_bytes(),
    ensures
        initialize_check(accounts, pda) is Some,
        (accounts[2].key@ == system_program_bytes() && accounts[1].is_signer && accounts[1].is_writable
            && accounts[0].is_writable) ==> initialize_check(accounts, pda) == Some(CounterError::IllegalOwner),
{
}

/// The counter's data after `n` increments of `data`.
pub open spec fn data_after_increments(data: Seq<u8>, n: nat) -> Seq<u8>
    decreases n,
{
    if n == 0 {
        data
    } else {
        let d = data_after_increments(data, (n - 1) as nat);
        let (a, c) = decoded_counter(d)->Some_0;
        counter_bytes(a, (c + 1) as u64)
    }
}

/// One increment of a counter holding `authority` and `k < u64::MAX`, whose
/// accounts pass the other checks, is accepted and leaves `k + 1`.
pub proof fn increment_of_counter_k(
    program_id: Seq<u8>,
    accounts: Seq<AccountView>,
    pda: Seq<u8>,
    authority: Seq<u8>,
    k: u64,
)
    requires
        authority.len() == 32,
        k < u64::MAX,
        increment_account_check(program_id, accounts) is None,
        accounts[0].key@ == pda,
        accounts[1].key@ == authority,
        accounts[0].data@ == counter_bytes(authority, k),
    ensures
        increment_check(program_id, accounts, pda) is None,
        ({
            let (a, c) = decoded_counter(accounts[0].data@)->Some_0;
            counter_bytes(a, (c + 1) as u64) == counter_bytes(authority, (k + 1) as u64)
        }),
{
    counter_bytes_read_back(authority, k);
}

/// After initialization and `n` increments (`n <= u64::MAX`), the counter
/// holds its authority and the count `n`; before each of them it holds a
/// count below `u64::MAX`, so none overflows.
pub proof fn n_increments_count_to_n(authority: Seq<u8>, n: nat)
    requires
        authority.len() == 32,
        n <= u64::MAX,
    ensures
        data_after_increments(counter_bytes(authority, 0), n) == counter_bytes(authority, n as u64),
        forall|k: nat| k < n ==> decoded_counter(#[trigger] data_after_increments(counter_bytes(authority, 0), k))
            == Some((authority, k as u64)),
    decreases n,
{
    if n > 0 {
        n_increments_count_to_n(authority, (n - 1) as nat);
        counter_bytes_read_back(authority, (n - 1) as u64);
        assert forall|k: nat| k < n implies decoded_counter(
            #[trigger] data_after_increments(counter_bytes(authority, 0), k),
        ) == Some((authority, k as u64)) by {
            if k < n - 1 {
            } else {
                counter_bytes_read_back(authority, k as u64);
            }
        }
    }
}

/// `Initialize` accepts exactly three accounts or more where the third is
/// the system program, the authority signs and is writable, the counter is
/// writable, owned by the system program, at the derived address, and holds
/// neither data nor lamports.
pub proof fn initialize_accepts_exactly(accounts: Seq<AccountView>, pda: Seq<u8>)
    ensures
        initialize_check(accounts, pda) is None <==> {
            &&& accounts.len() >= 3
            &&& accounts[2].key@ == system_program_bytes()
            &&& accounts[1].is_signer
            &&& accounts[1].is_writable
            &&& accounts[0].is_writable
            &&& accounts[0].owner@ == accounts[2].key@
            &&& accounts[0].key@ == pda
            &&& accounts[0].data@.len() == 0
            &&& accounts[0].lamports == 0
        },
{
}

/// `Increment` accepts exactly two accounts or more where the counter is the
/// program's, writable and at the derived address, holds a counter below
/// `u64::MAX`, and its recorded authority signs.
pub proof fn increment_accepts_exactly(program_id: Seq<u8>, accounts: Seq<AccountView>, pda: Seq<u8>)
    ensures
        increment_check(program_id, accounts, pda) is None <==> {
            &&& accounts.len() >= 2
            &&& accounts[0].owner@ == program_id
            &&& accounts[0].is_writable
            &&& accounts[1].is_signer
            &&& accounts[0].key@ == pda
            &&& accounts[0].data@.len() == 40
            &&& accounts[1].key@ == accounts[0].data@.subrange(0, 32)
            &&& spec_u64_from_le_bytes(accounts[0].data@.subrange(32, 40)) < u64::MAX
        },
{
}

} // verus!
