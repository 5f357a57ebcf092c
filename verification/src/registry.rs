use vstd::prelude::*;
use crate::bytes::{bytes_eq, clone_bytes};
use crate::identity::Identity;

verus! {

/// The longest metadata a registry record may carry.
pub const MAX_METADATA_LEN: usize = 256;

/// Why a registry operation was rejected.
#[derive(Clone, Copy, PartialEq, Eq, Structural, Debug)]
pub enum NfcError {
    UidMismatch,
    Unauthorized,
    MetadataTooLarge,
}

/// One hardware-identifier registration: the hash of the identifier, its
/// current owner, bounded metadata, and the disambiguation byte of the
/// record's derived address.
pub struct UidRecord {
    pub owner: Identity,
    pub uid_hash: Vec<u8>,
    pub bump: u8,
    pub metadata: Vec<u8>,
}

/// The mathematical value of a registry record.
pub ghost struct UidRecordView {
    pub owner: Seq<u8>,
    pub uid_hash: Seq<u8>,
    pub bump: u8,
    pub metadata: Seq<u8>,
}

impl View for UidRecord {
    type V = UidRecordView;

    open spec fn view(&self) -> UidRecordView {
        UidRecordView {
            owner: self.owner@,
            uid_hash: self.uid_hash@,
            bump: self.bump,
            metadata: self.metadata@,
        }
    }
}

impl UidRecordView {
    pub open spec fn wf(self) -> bool {
        &&& self.owner.len() == 32
        &&& self.uid_hash.len() == 32
        &&& self.metadata.len() <= MAX_METADATA_LEN
    }
}

/// Notification that an identifier was registered.
pub struct Registered {
    pub uid_hash: Vec<u8>,
    pub owner: Identity,
}

/// Notification that an identifier moved to a new owner.
pub struct Rebound {
    pub uid_hash: Vec<u8>,
    pub new_owner: Identity,
}

/// Notification that a registration was revoked.
pub struct Revoked {
    pub uid_hash: Vec<u8>,
    pub owner: Identity,
}

/// Notification that a registration's metadata changed.
pub struct MetadataUpdated {
    pub uid_hash: Vec<u8>,
    pub owner: Identity,
}

/// Registers an identifier hash for an owner: the owner need not sign;
/// the caller funds the record. Metadata above the bound is rejected.
pub fn register(uid_hash: Vec<u8>, owner: Identity, metadata: Vec<u8>, bump: u8) -> (r: Result<
    (UidRecord, Registered),
    NfcError,
>)
    requires
        uid_hash@.len() == 32,
        owner.wf(),
    ensures
        match r {
            Ok((record, ev)) => {
                &&& metadata@.len() <= MAX_METADATA_LEN
                &&& record@.owner == owner@
                &&& record@.uid_hash == uid_hash@
                &&& record@.bump == bump
                &&& record@.metadata == metadata@
                &&& record@.wf()
                &&& ev.uid_hash@ == uid_hash@
                &&& ev.owner@ == owner@
            },
            Err(e) => metadata@.len() > MAX_METADATA_LEN && e == NfcError::MetadataTooLarge,
        },
{
    if metadata.len() > MAX_METADATA_LEN {
        return Err(NfcError::MetadataTooLarge);
    }
    let ev = Registered { uid_hash: clone_bytes(&uid_hash), owner: owner.clone() };
    let record = UidRecord { owner, uid_hash, bump, metadata };
    Ok((record, ev))
}

/// Moves a registration to a new owner: the identifier hash must match
/// the record and the current owner must have signed.
pub fn rebind(
    record: &mut UidRecord,
    uid_hash: &Vec<u8>,
    current_owner: &Identity,
    new_owner: Identity,
) -> (r: Result<Rebound, NfcError>)
    ensures
        old(record)@.uid_hash != uid_hash@ ==> r == Err::<Rebound, NfcError>(NfcError::UidMismatch)
            && final(record)@ == old(record)@,
        old(record)@.uid_hash == uid_hash@ && old(record)@.owner != current_owner@ ==> r == Err::<
            Rebound,
            NfcError,
        >(NfcError::Unauthorized) && final(record)@ == old(record)@,
        old(record)@.uid_hash == uid_hash@ && old(record)@.owner == current_owner@ ==> {
            &&& r is Ok
            &&& final(record)@ == (UidRecordView { owner: new_owner@, ..old(record)@ })
        },
        r matches Ok(ev) ==> ev.uid_hash@ == uid_hash@ && ev.new_owner@ == new_owner@,
{
    if !bytes_eq(&record.uid_hash, uid_hash) {
        return Err(NfcError::UidMismatch);
    }
    if !record.owner.equals(current_owner) {
        return Err(NfcError::Unauthorized);
    }
    let ev = Rebound { uid_hash: clone_bytes(uid_hash), new_owner: new_owner.clone() };
    record.owner = new_owner;
    Ok(ev)
}

/// Replaces a registration's metadata: the identifier hash must match,
/// the current owner must have signed, and the new metadata must fit the
/// bound.
pub fn update_metadata(
    record: &mut UidRecord,
    uid_hash: &Vec<u8>,
    current_owner: &Identity,
    metadata: Vec<u8>,
) -> (r: Result<MetadataUpdated, NfcError>)
    ensures
        old(record)@.uid_hash != uid_hash@ ==> r == Err::<MetadataUpdated, NfcError>(
            NfcError::UidMismatch,
        ) && final(record)@ == old(record)@,
        old(record)@.uid_hash == uid_hash@ && old(record)@.owner != current_owner@ ==> r == Err::<
            MetadataUpdated,
            NfcError,
        >(NfcError::Unauthorized) && final(record)@ == old(record)@,
        old(record)@.uid_hash == uid_hash@ && old(record)@.owner == current_owner@ && metadata@.len()
            > MAX_METADATA_LEN ==> r == Err::<MetadataUpdated, NfcError>(NfcError::MetadataTooLarge)
            && final(record)@ == old(record)@,
        old(record)@.uid_hash == uid_hash@ && old(record)@.owner == current_owner@ && metadata@.len()
            <= MAX_METADATA_LEN ==> {
            &&& r is Ok
            &&& final(record)@ == (UidRecordView { metadata: metadata@, ..old(record)@ })
        },
        r matches Ok(ev) ==> ev.uid_hash@ == uid_hash@ && ev.owner@ == old(record)@.owner,
{
    if !bytes_eq(&record.uid_hash, uid_hash) {
        return Err(NfcError::UidMismatch);
    }
    if !record.owner.equals(current_owner) {
        return Err(NfcError::Unauthorized);
    }
    if metadata.len() > MAX_METADATA_LEN {
        return Err(NfcError::MetadataTooLarge);
    }
    let ev = MetadataUpdated { uid_hash: clone_bytes(uid_hash), owner: record.owner.clone() };
    record.metadata = metadata;
    Ok(ev)
}

/// Revokes a registration: the identifier hash must match and the
/// current owner must have signed. The record itself is closed by the
/// storage substrate; this validates and notifies.
pub fn revoke(record: &UidRecord, uid_hash: &Vec<u8>, current_owner: &Identity) -> (r: Result<
    Revoked,
    NfcError,
>)
    ensures
        record@.uid_hash != uid_hash@ ==> r == Err::<Revoked, NfcError>(NfcError::UidMismatch),
        record@.uid_hash == uid_hash@ && record@.owner != current_owner@ ==> r == Err::<
            Revoked,
            NfcError,
        >(NfcError::Unauthorized),
        record@.uid_hash == uid_hash@ && record@.owner == current_owner@ ==> r is Ok,
        r matches Ok(ev) ==> ev.uid_hash@ == uid_hash@ && ev.owner@ == record@.owner,
{
    if !bytes_eq(&record.uid_hash, uid_hash) {
        return Err(NfcError::UidMismatch);
    }
    if !record.owner.equals(current_owner) {
        return Err(NfcError::Unauthorized);
    }
    Ok(Revoked { uid_hash: clone_bytes(uid_hash), owner: record.owner.clone() })
}

} // verus!
