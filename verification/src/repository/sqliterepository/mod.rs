//! Placeholder stores: each of them knows one record, under one identifier,
//! and keeps nothing that it is given.

use vstd::prelude::*;
use crate::identifier::EntityId;

pub mod cost_bearer;
pub mod expense_entry;
pub mod expense_type;

verus! {

/// The number of the one identifier under which the placeholder stores have
/// a record.
pub const KNOWN_RECORD_ID: u128 = 0x67e5_5044_10b1_426f_9247_bb68_0e5f_e0c8;

/// The one identifier under which the placeholder stores have a record.
pub fn known_record_id() -> (id: EntityId)
    ensures
        id.value == KNOWN_RECORD_ID,
{
    EntityId::from_u128(KNOWN_RECORD_ID)
}

} // verus!
