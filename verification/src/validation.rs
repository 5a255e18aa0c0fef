//! Rules checked before anything is committed to the log.
//!
//! The rules on an entity's own payload are open: every payload is accepted.
//! The rules on update links are fixed: both ends of a new link must be
//! stored datum records, and an existing link can never be deleted.

use vstd::prelude::*;
use crate::hash::{ActionHash, AnyLinkableHash};
use crate::record::{Datum, DatumError, RecordEntry};
use crate::store::Store;

verus! {

/// Accepts every new payload.
pub fn validate_create_datum(_datum: Datum) -> (r: Result<(), DatumError>)
    ensures
        r is Ok,
{
    Ok(())
}

/// Accepts every revised payload.
pub fn validate_update_datum(_datum: Datum, _original_datum: Datum) -> (r: Result<(), DatumError>)
    ensures
        r is Ok,
{
    Ok(())
}

/// Accepts every deletion of a payload.
pub fn validate_delete_datum(_original_datum: Datum) -> (r: Result<(), DatumError>)
    ensures
        r is Ok,
{
    Ok(())
}

/// The action that a link end addresses; an end that addresses anything else
/// is malformed.
pub open spec fn endpoint_action(address: AnyLinkableHash) -> Result<ActionHash, DatumError> {
    match address.action_hash() {
        Some(h) => Ok(h),
        None => Err(DatumError::MalformedEdge),
    }
}

/// The datum that a linked record carries; a record with no entry, or with
/// an entry that is no datum, is rejected.
pub open spec fn entry_datum(entry: RecordEntry) -> Result<Datum, DatumError> {
    match entry {
        RecordEntry::Datum(d) => Ok(d),
        RecordEntry::Absent => Err(DatumError::ValidationRejected),
        RecordEntry::Unrelated => Err(DatumError::ValidationRejected),
    }
}

/// The verdict on one end of a proposed link.
pub open spec fn endpoint_verdict(store: Store, address: AnyLinkableHash) -> Result<
    (),
    DatumError,
> {
    match endpoint_action(address) {
        Err(e) => Err(e),
        Ok(h) => match store.record(h) {
            None => Err(DatumError::NotFound),
            Some(record) => match entry_datum(record.entry) {
                Ok(_) => Ok(()),
                Err(e) => Err(e),
            },
        },
    }
}

/// The verdict on a proposed link: the base is judged first, then the target.
pub open spec fn create_link_verdict(
    store: Store,
    base_address: AnyLinkableHash,
    target_address: AnyLinkableHash,
) -> Result<(), DatumError> {
    match endpoint_verdict(store, base_address) {
        Err(e) => Err(e),
        Ok(_) => endpoint_verdict(store, target_address),
    }
}

/// Resolves one end of a proposed link to the action it addresses.
pub fn link_endpoint(address: AnyLinkableHash) -> (r: Result<ActionHash, DatumError>)
    ensures
        r == endpoint_action(address),
{
    match address.into_action_hash() {
        Some(h) => Ok(h),
        None => Err(DatumError::MalformedEdge),
    }
}

/// Insists that the record at one end of a proposed link carries a datum.
pub fn linked_datum(entry: RecordEntry) -> (r: Result<Datum, DatumError>)
    ensures
        r == entry_datum(entry),
{
    match entry {
        RecordEntry::Datum(d) => Ok(d),
        RecordEntry::Absent => Err(DatumError::ValidationRejected),
        RecordEntry::Unrelated => Err(DatumError::ValidationRejected),
    }
}

fn validate_endpoint(store: &Store, address: AnyLinkableHash) -> (r: Result<(), DatumError>)
    ensures
        r == endpoint_verdict(*store, address),
{
    let hash = link_endpoint(address)?;
    match store.get(&hash) {
        None => Err(DatumError::NotFound),
        Some(record) => {
            let _datum = linked_datum(record.entry)?;
            Ok(())
        },
    }
}

/// Judges a proposed update link against the store: both ends must address
/// actions whose records are stored and carry a datum. The base is judged
/// first, and the first failure is the verdict.
pub fn validate_create_link_datum_updates(
    store: &Store,
    base_address: AnyLinkableHash,
    target_address: AnyLinkableHash,
) -> (r: Result<(), DatumError>)
    ensures
        r == create_link_verdict(*store, base_address, target_address),
{
    validate_endpoint(store, base_address)?;
    validate_endpoint(store, target_address)
}

/// Rejects the deletion of an update link, whatever its ends are and
/// whatever has become of their records.
pub fn validate_delete_link_datum_updates(
    _base: AnyLinkableHash,
    _target: AnyLinkableHash,
) -> (r: Result<(), DatumError>)
    ensures
        r == Err::<(), DatumError>(DatumError::ValidationRejected),
{
    Err(DatumError::ValidationRejected)
}

} // verus!
