//! What a renderable object is made of.

use vstd::prelude::*;

verus! {

/// A property of a material that is either one value for the whole surface
/// or read from the texture of the given name.
#[derive(Debug)]
pub enum FixedMapped<T> {
    Fixed(T),
    Mapped(String),
}

impl<T> FixedMapped<T> {
    /// The name of the texture that the property is read from, if it is mapped.
    pub fn texture_name(&self) -> (name: Option<&str>)
        ensures
            match self {
                FixedMapped::Fixed(_) => name.is_none(),
                FixedMapped::Mapped(n) => name.is_some() && name.unwrap()@ == n@,
            },
    {
        match self {
            FixedMapped::Fixed(_) => None,
            FixedMapped::Mapped(n) => Some(n.as_str()),
        }
    }

    /// The value of the property, if it is the same for the whole surface.
    pub fn fixed(&self) -> (value: Option<&T>)
        ensures
            match self {
                FixedMapped::Fixed(v) => value == Some(v),
                FixedMapped::Mapped(_) => value.is_none(),
            },
    {
        match self {
            FixedMapped::Fixed(v) => Some(v),
            FixedMapped::Mapped(_) => None,
        }
    }
}

} // verus!
