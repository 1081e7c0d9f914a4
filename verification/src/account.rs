//! Account references, structural validation, provisioning requests, and the
//! counter state machine's two transitions.
//!
//! The host hands the processor an ordered list of account references; order
//! is significant and fixed by protocol position (position 0 = target record,
//! position 1 = funding identity, position 2 = system service). The validator
//! checks structural preconditions before any mutation; the provisioner
//! describes the single atomic request made of the external account-creation
//! service; the transitions mutate record bytes only after every check has
//! passed.

use vstd::prelude::*;
use crate::codec::{u64_from_le, u64_from_le_slice, u64_le_bytes, RECORD_SIZE};
use crate::error::ProcessError;
use crate::identity::Identity;
use crate::state::CounterAccount;

verus! {

/// How many account references an `InitializeCounter` call must supply:
/// the counter account to create, the funding account, the system service.
pub const INITIALIZE_ACCOUNTS: usize = 3;

/// How many account references an `IncrementCounter` call must supply:
/// the counter account to mutate.
pub const INCREMENT_ACCOUNTS: usize = 1;

/// The processor's view of one account: its owning identity and its raw
/// stored bytes. The host converts its own account handles to and from this
/// form at the boundary.
#[derive(Debug)]
pub struct Account {
    /// The contract identity authorized to mutate this account's bytes.
    pub owner: Identity,
    /// The account's persistent byte contents.
    pub data: Vec<u8>,
}

/// The single request the provisioner issues to the external system-level
/// account-creation service: allocate `space` bytes at `target`, transfer
/// `lamports` native-token units from `funder`, and assign ownership of the
/// new storage to `owner`. The service performs it atomically or fails as a
/// unit.
#[derive(Clone, Copy, Debug, PartialEq, Eq, Structural)]
pub struct CreateAccountRequest {
    /// The account that funds the new record's minimum balance.
    pub funder: Identity,
    /// The address at which the record is allocated.
    pub target: Identity,
    /// The native-token balance transferred into the new account.
    pub lamports: u64,
    /// The byte size of the allocated storage.
    pub space: u64,
    /// The contract identity that will own the new storage.
    pub owner: Identity,
}

/// Structural validation of the account list: the call must supply at least
/// `required` account references, else it fails with `NotEnoughAccounts`.
/// Read-only; side-effect-free.
pub fn require_accounts(supplied: usize, required: usize) -> (r: Result<(), ProcessError>)
    ensures
        supplied >= required ==> r == Ok::<(), ProcessError>(()),
        supplied < required ==> r == Err::<(), _>(ProcessError::NotEnoughAccounts),
{
    if supplied >= required {
        Ok(())
    } else {
        Err(ProcessError::NotEnoughAccounts)
    }
}

/// Builds the provisioning request for a fresh counter record: storage of
/// exactly the record's size at `target`, funded with `min_balance` units by
/// `funder`, owned by the creating contract `program_id`. The minimum balance
/// is the ledger environment's storage-economics lookup for that size and is
/// supplied by the host.
pub fn build_create_request(
    target: &Identity,
    funder: &Identity,
    min_balance: u64,
    program_id: &Identity,
) -> (r: CreateAccountRequest)
    ensures
        r == (CreateAccountRequest {
            funder: *funder,
            target: *target,
            lamports: min_balance,
            space: RECORD_SIZE as u64,
            owner: *program_id,
        }),
{
    CreateAccountRequest {
        funder: *funder,
        target: *target,
        lamports: min_balance,
        space: RECORD_SIZE as u64,
        owner: *program_id,
    }
}

/// Folds the external account-creation service's reply into the error
/// taxonomy. The service performs the whole request atomically, so a reply
/// is either complete success or a unit failure, surfaced as
/// `ProvisioningFailed`; no partial-creation state is observable.
pub fn provisioning_outcome(created: bool) -> (r: Result<(), ProcessError>)
    ensures
        created ==> r == Ok::<(), ProcessError>(()),
        !created ==> r == Err::<(), _>(ProcessError::ProvisioningFailed),
{
    if created {
        Ok(())
    } else {
        Err(ProcessError::ProvisioningFailed)
    }
}

/// Overwrites the record portion of an account's bytes with the encoding of
/// `count`, preserving any bytes beyond the record.
fn write_record(data: &mut Vec<u8>, count: u64)
    requires
        old(data)@.len() >= RECORD_SIZE,
    ensures
        final(data)@ == u64_le_bytes(count) + old(data)@.skip(RECORD_SIZE as int),
{
    let record = CounterAccount { count };
    let mut new_data = record.encode();
    let n = data.len();
    let mut k: usize = RECORD_SIZE;
    while k < n
        invariant
            RECORD_SIZE <= k <= n,
            n == data@.len(),
            data@ == old(data)@,
            new_data@ == u64_le_bytes(count) + data@.subrange(RECORD_SIZE as int, k as int),
        decreases n - k,
    {
        new_data.push(data[k]);
        proof {
            assert(new_data@ =~= u64_le_bytes(count) + data@.subrange(
                RECORD_SIZE as int,
                k + 1,
            ));
        }
        k += 1;
    }
    proof {
        assert(new_data@ =~= u64_le_bytes(count) + data@.skip(RECORD_SIZE as int));
    }
    *data = new_data;
}

/// The `present(v) -> present(v + 1)` transition. Requires the ownership
/// check to pass first: the record's owning identity must equal the
/// processor's own identity, else the call fails with `IncorrectOwner` and
/// performs no write. On success the count is incremented with a checked
/// addition (`ArithmeticOverflow` at the maximum, storage unchanged) and the
/// updated encoding is written back in place; the new count is returned.
pub fn apply_increment(program_id: &Identity, account: &mut Account) -> (r: Result<
    u64,
    ProcessError,
>)
    ensures
        old(account).owner != *program_id ==> r == Err::<u64, _>(ProcessError::IncorrectOwner)
            && *final(account) == *old(account),
        old(account).owner == *program_id && old(account).data@.len() < RECORD_SIZE ==> r == Err::<
            u64,
            _,
        >(ProcessError::MalformedState) && *final(account) == *old(account),
        old(account).owner == *program_id && old(account).data@.len() >= RECORD_SIZE
            && u64_from_le(old(account).data@) == u64::MAX ==> r == Err::<u64, _>(
            ProcessError::ArithmeticOverflow,
        ) && *final(account) == *old(account),
        old(account).owner == *program_id && old(account).data@.len() >= RECORD_SIZE
            && u64_from_le(old(account).data@) < u64::MAX ==> {
            let new_count = (u64_from_le(old(account).data@) + 1) as u64;
            r == Ok::<_, ProcessError>(new_count) && final(account).owner == old(account).owner
                && final(account).data@ == u64_le_bytes(new_count) + old(account).data@.skip(
                RECORD_SIZE as int,
            )
        },
{
    if account.owner != *program_id {
        return Err(ProcessError::IncorrectOwner);
    }
    if account.data.len() < RECORD_SIZE {
        return Err(ProcessError::MalformedState);
    }
    let count = u64_from_le_slice(account.data.as_slice());
    if count == u64::MAX {
        return Err(ProcessError::ArithmeticOverflow);
    }
    let new_count = count + 1;
    write_record(&mut account.data, new_count);
    Ok(new_count)
}

/// The `absent -> present(v)` transition's final step: after the external
/// creation service has allocated and funded the record's storage, write the
/// encoding of the caller-supplied initial value into it. Storage too small
/// to hold a record is rejected as `MalformedState` and left unchanged.
pub fn apply_initialize(account: &mut Account, initial_value: u64) -> (r: Result<
    (),
    ProcessError,
>)
    ensures
        old(account).data@.len() >= RECORD_SIZE ==> r == Ok::<(), ProcessError>(())
            && final(account).owner == old(account).owner
            && final(account).data@ == u64_le_bytes(initial_value)
            + old(account).data@.skip(RECORD_SIZE as int),
        old(account).data@.len() < RECORD_SIZE ==> r == Err::<(), _>(ProcessError::MalformedState)
            && *final(account) == *old(account),
{
    if account.data.len() < RECORD_SIZE {
        return Err(ProcessError::MalformedState);
    }
    write_record(&mut account.data, initial_value);
    Ok(())
}

} // verus!
