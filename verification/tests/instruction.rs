use clockwork_scheduler::{
    Address, anchor_sighash, entry_close_instruction, rotation_instruction,
};

fn addr(n: u64) -> Address {
    Address::new(n, 0, 0, 0)
}

#[test]
fn sighash_of_entry_close_matches_reference_digest() {
    // First eight bytes of SHA-256("global:entry_close").
    let r = anchor_sighash("entry_close");
    assert_eq!(r, vec![12, 151, 56, 155, 110, 134, 52, 177]);
}

#[test]
fn sighash_of_pools_rotate_matches_reference_digest() {
    // First eight bytes of SHA-256("global:pools_rotate").
    let r = anchor_sighash("pools_rotate");
    assert_eq!(r, vec![77, 1, 101, 175, 31, 138, 43, 1]);
}

#[test]
fn sighash_hashes_rather_than_copies() {
    let r = anchor_sighash("entry_close");
    assert_eq!(r.len(), 8);
    // Not the head of the preimage "global:entry_close".
    assert_ne!(r, b"global:e".to_vec());
    // And not the head of the name itself.
    assert_ne!(r, b"entry_cl".to_vec());
}

#[test]
fn rotation_instruction_lists_pools_after_the_core_accounts() {
    let pools = vec![addr(0x51), addr(0x52)];
    let ix = rotation_instruction(addr(1), addr(2), addr(3), addr(4), addr(5), &pools);
    assert_eq!(ix.data, vec![77, 1, 101, 175, 31, 138, 43, 1]);
    assert_eq!(ix.accounts.len(), 7);
    assert_eq!(ix.accounts[0].address, addr(1));
    assert!(!ix.accounts[0].writable && !ix.accounts[0].signer);
    assert_eq!(ix.accounts[1].address, addr(2));
    assert_eq!(ix.accounts[2].address, addr(3));
    assert!(ix.accounts[2].writable && ix.accounts[2].signer);
    assert_eq!(ix.accounts[3].address, addr(4));
    assert_eq!(ix.accounts[4].address, addr(5));
    assert_eq!(ix.accounts[5].address, addr(0x51));
    assert!(ix.accounts[5].writable && !ix.accounts[5].signer);
    assert_eq!(ix.accounts[6].address, addr(0x52));
    assert!(ix.accounts[6].writable && !ix.accounts[6].signer);
}

#[test]
fn rotation_instruction_without_pools_has_core_accounts_only() {
    let ix = rotation_instruction(addr(1), addr(2), addr(3), addr(4), addr(5), &vec![]);
    assert_eq!(ix.accounts.len(), 5);
}

#[test]
fn entry_close_instruction_names_the_chained_step() {
    let ix = entry_close_instruction(addr(10), addr(11), addr(12), addr(13));
    assert_eq!(ix.data, vec![12, 151, 56, 155, 110, 134, 52, 177]);
    assert_eq!(ix.accounts.len(), 4);
    assert_eq!(ix.accounts[0].address, addr(10));
    assert!(!ix.accounts[0].writable && !ix.accounts[0].signer);
    assert_eq!(ix.accounts[1].address, addr(11));
    assert!(ix.accounts[1].writable && !ix.accounts[1].signer);
    assert_eq!(ix.accounts[2].address, addr(12));
    assert!(ix.accounts[2].writable && !ix.accounts[2].signer);
    assert_eq!(ix.accounts[3].address, addr(13));
    assert!(ix.accounts[3].writable && ix.accounts[3].signer);
}
