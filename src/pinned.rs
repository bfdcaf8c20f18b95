//! An enum with one variant that carries a string, and access to that
//! string in place.

use vstd::prelude::*;

verus! {

pub enum MyEnum {
    Variant1 { field1: String },
    Variant2 { field2: u32 },
}

impl MyEnum {
    /// The string of the first variant, to change in place; `None` for the
    /// second variant.
    pub fn get_field1(&mut self) -> (r: Option<&mut String>)
        ensures
            r is Some <==> *old(self) is Variant1,
            r is Some ==> *r->0 == old(self)->field1,
            r is Some ==> *final(self) == (MyEnum::Variant1 { field1: *final(r->0) }),
            r is None ==> *final(self) == *old(self),
    {
        match self {
            MyEnum::Variant1 { field1 } => Some(field1),
            MyEnum::Variant2 { .. } => None,
        }
    }
}

} // verus!
