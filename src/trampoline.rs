//! Address arithmetic shared by every trampoline.
//!
//! A registration record embeds the part the foreign side sees (a listener
//! node, an interface table) at a fixed offset. The foreign side only ever
//! hands back the address of that member; the record is found by stepping
//! back by the offset ("container of").
use vstd::prelude::*;

verus! {

pub open spec fn container_of_spec(member: u64, offset: u64) -> int {
    member as int - offset as int
}

/// Address of the record whose member at `offset` lives at `member`.
pub fn container_of(member: u64, offset: u64) -> (r: u64)
    requires
        member >= offset,
    ensures
        r == container_of_spec(member, offset),
{
    member - offset
}

/// Address of the member at `offset` of the record at `record`.
pub fn member_of(record: u64, offset: u64) -> (r: u64)
    requires
        record as int + offset as int <= u64::MAX,
    ensures
        r == record + offset,
{
    record + offset
}

/// Stepping from a record to a member and back gives the record again.
pub proof fn lemma_container_of_member(record: u64, offset: u64)
    requires
        record as int + offset as int <= u64::MAX,
    ensures
        container_of_spec((record + offset) as u64, offset) == record,
{
}

} // verus!
