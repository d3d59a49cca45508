//! The validation contract every mutation must satisfy before the store
//! commits it: pure predicates that classify a proposed mutation as `Valid`
//! or `Invalid` with a reason, and never raise structural errors themselves.
//!
//! The payload predicates (create, update, delete) are extension points for
//! business rules; the current configuration accepts every payload. The edge
//! predicates enforce the structural integrity of the revision chain and are
//! mandatory regardless of that configuration.

use vstd::prelude::*;

use crate::store::Store;
use crate::types::{Action, LinkableAddress, TextEntry, ValidationOutcome};

verus! {

/// Whether `addr` may stand at an end of an "updates" edge: it must be an
/// action address, committed in the store, whose action carries a payload.
pub open spec fn link_endpoint_ok(s: &Store, addr: LinkableAddress) -> bool {
    match addr {
        LinkableAddress::ActionAddr(a) => match s.spec_get(a) {
            Some(act) => act.spec_payload() is Some,
            None => false,
        },
        LinkableAddress::EntryAddr(_) => false,
    }
}

/// Classify one edge endpoint, with the reason a rejection carries.
pub fn check_link_endpoint(store: &Store, addr: LinkableAddress) -> (r: ValidationOutcome)
    ensures
        (r == ValidationOutcome::Valid) <==> link_endpoint_ok(store, addr),
{
    let action_addr = match addr {
        LinkableAddress::ActionAddr(a) => a,
        LinkableAddress::EntryAddr(_) => {
            return ValidationOutcome::Invalid(
                "No action hash associated with link".to_owned(),
            );
        },
    };
    let record = match store.get(action_addr) {
        Some(record) => record,
        None => {
            return ValidationOutcome::Invalid(
                "Linked address does not resolve to a record".to_owned(),
            );
        },
    };
    match record.payload() {
        Some(_) => ValidationOutcome::Valid,
        None => ValidationOutcome::Invalid("Linked action must reference an entry".to_owned()),
    }
}

/// Business acceptance of a fresh payload: deliberately unconstrained.
pub fn validate_create_text_entry(_action: &Action, _text_entry: &TextEntry) -> (r:
    ValidationOutcome)
    ensures
        r == ValidationOutcome::Valid,
{
    ValidationOutcome::Valid
}

/// Business acceptance of a replacement payload: deliberately unconstrained.
pub fn validate_update_text_entry(
    _action: &Action,
    _text_entry: &TextEntry,
    _original_action: &Action,
    _original_text_entry: &TextEntry,
) -> (r: ValidationOutcome)
    ensures
        r == ValidationOutcome::Valid,
{
    ValidationOutcome::Valid
}

/// Business acceptance of a deletion: deliberately unconstrained.
pub fn validate_delete_text_entry(
    _action: &Action,
    _original_action: &Action,
    _original_text_entry: &TextEntry,
) -> (r: ValidationOutcome)
    ensures
        r == ValidationOutcome::Valid,
{
    ValidationOutcome::Valid
}

/// Structural acceptance of a new "updates" edge: both ends must dereference
/// to actions carrying a payload; any other shape is rejected with a reason.
pub fn validate_create_link_text_entry_updates(
    store: &Store,
    base_address: LinkableAddress,
    target_address: LinkableAddress,
) -> (r: ValidationOutcome)
    ensures
        (r == ValidationOutcome::Valid) <==> (link_endpoint_ok(store, base_address)
            && link_endpoint_ok(store, target_address)),
{
    match check_link_endpoint(store, base_address) {
        ValidationOutcome::Invalid(reason) => {
            return ValidationOutcome::Invalid(reason);
        },
        ValidationOutcome::Valid => {},
    }
    check_link_endpoint(store, target_address)
}

/// Deleting an "updates" edge is unconditionally rejected: the revision
/// history of an entity can never be pruned.
pub fn validate_delete_link_text_entry_updates(
    _base_address: LinkableAddress,
    _target_address: LinkableAddress,
) -> (r: ValidationOutcome)
    ensures
        r is Invalid,
        r->Invalid_0@ == "TextEntryUpdates links cannot be deleted"@,
{
    ValidationOutcome::Invalid("TextEntryUpdates links cannot be deleted".to_owned())
}

} // verus!
