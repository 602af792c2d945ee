use crate::entity::versions::mapping1_12_2;
use crate::entity::EntityType;
use vstd::prelude::*;

verus! {

/// The type id sent for an entity kind in protocol 1.10.2, which numbers
/// entities as 1.12.2 does.
pub fn to_id(entity_type: EntityType) -> (id: i16)
    ensures
        id == mapping1_12_2::entity_id(entity_type),
{
    mapping1_12_2::to_id(entity_type)
}

/// The entity kind a type id names in protocol 1.10.2, read as in 1.12.2.
pub fn to_entity_type(type_id: i16) -> (t: EntityType)
    ensures
        type_id == -1 ==> t == EntityType::ComplexPart,
        type_id != -1 && mapping1_12_2::id_known(type_id as int) ==> mapping1_12_2::entity_id(t)
            == type_id,
        type_id != -1 && !mapping1_12_2::id_known(type_id as int) ==> t == EntityType::Unknown,
{
    mapping1_12_2::to_entity_type(type_id)
}

} // verus!
