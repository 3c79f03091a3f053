use vstd::prelude::*;

verus! {

/// The object identifier of a row in a PostgreSQL system catalog; for a type, its
/// number in `pg_type`.
#[derive(Clone, Copy, Debug, PartialEq, Eq, Structural, Hash)]
pub struct Oid(pub u32);

impl Oid {
    /// Wraps a raw object identifier.
    pub fn new(oid: u32) -> (res: Oid)
        ensures
            res.0 == oid,
    {
        Oid(oid)
    }

    /// The raw object identifier.
    pub fn as_u32(&self) -> (res: u32)
        ensures
            res == self.0,
    {
        self.0
    }
}

} // verus!
