use vstd::prelude::*;

verus! {

/// A record that belongs in one fixed slot of a table: the slot of the
/// enumerated name that it carries.
pub trait Slotted {
    /// The slot that the record belongs in.
    spec fn slot(&self) -> nat;

    /// The slot that the record belongs in.
    fn slot_index(&self) -> (i: usize)
        ensures
            i == self.slot(),
    ;
}

/// A table holds one record for each name, each in its own slot, so that a
/// name's rank finds its record.
pub open spec fn is_table<T: Slotted>(records: Seq<T>, size: nat) -> bool {
    &&& records.len() == size
    &&& forall|i: int| 0 <= i < records.len() ==> (#[trigger] records[i]).slot() == i
}

/// Whether the records make up a table of `size` slots.
pub fn check_table<T: Slotted>(records: &Vec<T>, size: usize) -> (ok: bool)
    ensures
        ok == is_table(records@, size as nat),
{
    if records.len() != size {
        return false;
    }
    let mut i: usize = 0;
    while i < records.len()
        invariant
            i <= records@.len(),
            forall|j: int| 0 <= j < i ==> (#[trigger] records@[j]).slot() == j,
        decreases records@.len() - i,
    {
        if records[i].slot_index() != i {
            return false;
        }
        i = i + 1;
    }
    true
}

} // verus!
