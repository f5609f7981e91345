//! Relations between the classifications of unit types.

use vstd::prelude::*;
use crate::ids::UnitTypeId;

verus! {

/// Every worker is a unit.
pub proof fn worker_is_unit(t: UnitTypeId)
    requires
        t.spec_is_worker(),
    ensures
        t.spec_is_unit(),
{
}

/// Every melee attacker is a unit.
pub proof fn melee_is_unit(t: UnitTypeId)
    requires
        t.spec_is_melee(),
    ensures
        t.spec_is_unit(),
{
}

/// Every townhall is a structure.
pub proof fn townhall_is_structure(t: UnitTypeId)
    requires
        t.spec_is_townhall(),
    ensures
        t.spec_is_structure(),
{
}

/// Every addon is a structure, and no addon is a townhall.
pub proof fn addon_is_structure(t: UnitTypeId)
    requires
        t.spec_is_addon(),
    ensures
        t.spec_is_structure(),
        !t.spec_is_townhall(),
{
}

/// No type is both a unit and a structure.
pub proof fn unit_and_structure_disjoint(t: UnitTypeId)
    ensures
        !(t.spec_is_unit() && t.spec_is_structure()),
{
}

} // verus!
