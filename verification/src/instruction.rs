//! Assembly of the ledger instructions the scheduler submits: the rotation
//! transition, and the entry-close step a draining task chains to.

use vstd::prelude::*;
use vstd::string::StringSliceAdditionalSpecFns;

use crate::address::Address;
use crate::sighash::{anchor_sighash, sighash_of};

verus! {

/// One account an instruction touches, with its access flags.
#[derive(Clone, Copy, PartialEq, Eq, Structural, Debug)]
pub struct AccountRef {
    pub address: Address,
    pub writable: bool,
    pub signer: bool,
}

/// A ledger instruction, assembled as plain values: the accounts it
/// references in order, and its data, led by the eight-byte discriminator
/// of the instruction name.
#[derive(Clone, PartialEq, Debug)]
pub struct InstructionPlan {
    pub accounts: Vec<AccountRef>,
    pub data: Vec<u8>,
}

/// The bytes of the rotation instruction's name, `"pools_rotate"`.
pub open spec fn pools_rotate_name() -> Seq<u8> {
    "pools_rotate".spec_bytes()
}

/// The bytes of the entry-close instruction's name, `"entry_close"`.
pub open spec fn entry_close_name() -> Seq<u8> {
    "entry_close".spec_bytes()
}

/// Assembles the rotation transition instruction: it references the selected
/// worker's snapshot entry, the worker's node account, the paying signer,
/// the current snapshot, and the selected worker, then one writable account
/// per pool the rotation also updates, since the set of pools can grow
/// independently of this code.
pub fn rotation_instruction(
    entry: Address,
    node: Address,
    payer: Address,
    snapshot: Address,
    worker: Address,
    pool_addresses: &Vec<Address>,
) -> (r: InstructionPlan)
    ensures
        r.data@ == sighash_of(pools_rotate_name()),
        r.accounts@.len() == 5 + pool_addresses@.len(),
        r.accounts@[0] == (AccountRef { address: entry, writable: false, signer: false }),
        r.accounts@[1] == (AccountRef { address: node, writable: false, signer: false }),
        r.accounts@[2] == (AccountRef { address: payer, writable: true, signer: true }),
        r.accounts@[3] == (AccountRef { address: snapshot, writable: false, signer: false }),
        r.accounts@[4] == (AccountRef { address: worker, writable: false, signer: false }),
        forall|i: int|
            0 <= i < pool_addresses@.len() ==> r.accounts@[5 + i] == (AccountRef {
                address: pool_addresses@[i],
                writable: true,
                signer: false,
            }),
{
    let mut accounts: Vec<AccountRef> = Vec::new();
    accounts.push(AccountRef { address: entry, writable: false, signer: false });
    accounts.push(AccountRef { address: node, writable: false, signer: false });
    accounts.push(AccountRef { address: payer, writable: true, signer: true });
    accounts.push(AccountRef { address: snapshot, writable: false, signer: false });
    accounts.push(AccountRef { address: worker, writable: false, signer: false });
    let n: usize = pool_addresses.len();
    let mut i: usize = 0;
    while i < n
        invariant
            n == pool_addresses@.len(),
            i <= n,
            accounts@.len() == 5 + i,
            accounts@[0] == (AccountRef { address: entry, writable: false, signer: false }),
            accounts@[1] == (AccountRef { address: node, writable: false, signer: false }),
            accounts@[2] == (AccountRef { address: payer, writable: true, signer: true }),
            accounts@[3] == (AccountRef { address: snapshot, writable: false, signer: false }),
            accounts@[4] == (AccountRef { address: worker, writable: false, signer: false }),
            forall|k: int|
                0 <= k < i ==> accounts@[5 + k] == (AccountRef {
                    address: pool_addresses@[k],
                    writable: true,
                    signer: false,
                }),
        decreases n - i,
    {
        accounts.push(AccountRef { address: pool_addresses[i], writable: true, signer: false });
        i += 1;
    }
    let data = anchor_sighash("pools_rotate");
    InstructionPlan { accounts, data }
}

/// Assembles the entry-close step a draining task names as its next
/// instruction: the scheduling authority read-only, the entry and the
/// task's container writable, and the invoking queue as writable signer.
pub fn entry_close_instruction(
    authority: Address,
    entry: Address,
    container: Address,
    queue: Address,
) -> (r: InstructionPlan)
    ensures
        r.data@ == sighash_of(entry_close_name()),
        r.accounts@.len() == 4,
        r.accounts@[0] == (AccountRef { address: authority, writable: false, signer: false }),
        r.accounts@[1] == (AccountRef { address: entry, writable: true, signer: false }),
        r.accounts@[2] == (AccountRef { address: container, writable: true, signer: false }),
        r.accounts@[3] == (AccountRef { address: queue, writable: true, signer: true }),
{
    let mut accounts: Vec<AccountRef> = Vec::new();
    accounts.push(AccountRef { address: authority, writable: false, signer: false });
    accounts.push(AccountRef { address: entry, writable: true, signer: false });
    accounts.push(AccountRef { address: container, writable: true, signer: false });
    accounts.push(AccountRef { address: queue, writable: true, signer: true });
    let data = anchor_sighash("entry_close");
    InstructionPlan { accounts, data }
}

} // verus!
