use social_draw::identity::Identity;
use social_draw::registry::{
    rebind, register, revoke, update_metadata, NfcError, MAX_METADATA_LEN,
};

fn id(b: u8) -> Identity {
    Identity::new(vec![b; 32])
}

fn hash(b: u8) -> Vec<u8> {
    vec![b; 32]
}

#[test]
fn register_stores_owner_and_metadata() {
    let (record, ev) = register(hash(7), id(1), vec![1, 2, 3], 250).unwrap();
    assert!(record.owner.equals(&id(1)));
    assert_eq!(record.uid_hash, hash(7));
    assert_eq!(record.metadata, vec![1, 2, 3]);
    assert_eq!(record.bump, 250);
    assert_eq!(ev.uid_hash, hash(7));
    assert!(ev.owner.equals(&id(1)));
}

#[test]
fn register_rejects_oversized_metadata() {
    let r = register(hash(7), id(1), vec![0u8; MAX_METADATA_LEN + 1], 250);
    assert!(matches!(r, Err(NfcError::MetadataTooLarge)));
    let ok = register(hash(7), id(1), vec![0u8; MAX_METADATA_LEN], 250);
    assert!(ok.is_ok());
}

#[test]
fn rebind_moves_ownership() {
    let (mut record, _ev) = register(hash(7), id(1), vec![], 250).unwrap();
    let ev = rebind(&mut record, &hash(7), &id(1), id(2)).unwrap();
    assert!(record.owner.equals(&id(2)));
    assert!(ev.new_owner.equals(&id(2)));
    assert_eq!(ev.uid_hash, hash(7));
}

#[test]
fn rebind_needs_current_owner() {
    let (mut record, _ev) = register(hash(7), id(1), vec![], 250).unwrap();
    let r = rebind(&mut record, &hash(7), &id(3), id(2));
    assert!(matches!(r, Err(NfcError::Unauthorized)));
    assert!(record.owner.equals(&id(1)));
}

#[test]
fn rebind_needs_matching_uid() {
    let (mut record, _ev) = register(hash(7), id(1), vec![], 250).unwrap();
    let r = rebind(&mut record, &hash(8), &id(1), id(2));
    assert!(matches!(r, Err(NfcError::UidMismatch)));
    assert!(record.owner.equals(&id(1)));
}

#[test]
fn update_metadata_replaces_bytes() {
    let (mut record, _ev) = register(hash(7), id(1), vec![1], 250).unwrap();
    let ev = update_metadata(&mut record, &hash(7), &id(1), vec![4, 5]).unwrap();
    assert_eq!(record.metadata, vec![4, 5]);
    assert!(ev.owner.equals(&id(1)));
}

#[test]
fn update_metadata_checks_owner_and_bound() {
    let (mut record, _ev) = register(hash(7), id(1), vec![1], 250).unwrap();
    let r = update_metadata(&mut record, &hash(7), &id(2), vec![4, 5]);
    assert!(matches!(r, Err(NfcError::Unauthorized)));
    let r2 = update_metadata(&mut record, &hash(7), &id(1), vec![0u8; MAX_METADATA_LEN + 1]);
    assert!(matches!(r2, Err(NfcError::MetadataTooLarge)));
    assert_eq!(record.metadata, vec![1]);
}

#[test]
fn revoke_needs_owner_and_matching_uid() {
    let (record, _ev) = register(hash(7), id(1), vec![], 250).unwrap();
    assert!(matches!(revoke(&record, &hash(8), &id(1)), Err(NfcError::UidMismatch)));
    assert!(matches!(revoke(&record, &hash(7), &id(2)), Err(NfcError::Unauthorized)));
    let ev = revoke(&record, &hash(7), &id(1)).unwrap();
    assert_eq!(ev.uid_hash, hash(7));
    assert!(ev.owner.equals(&id(1)));
}
