//! The two places where stock is kept.

use vstd::prelude::*;

verus! {

/// Where a stock entry is held. There are exactly two locations.
#[derive(Clone, Copy, Debug, PartialEq, Eq, Hash, Structural)]
pub enum Procedencia {
    Casa,
    Tara,
}

impl Procedencia {
    /// The other location.
    pub open spec fn opposite(self) -> Procedencia {
        match self {
            Procedencia::Casa => Procedencia::Tara,
            Procedencia::Tara => Procedencia::Casa,
        }
    }

    /// The location's name as it is shown to the operator.
    pub open spec fn name(self) -> Seq<char> {
        match self {
            Procedencia::Casa => "Casa"@,
            Procedencia::Tara => "Tara"@,
        }
    }
}

/// The location opposite to `loc`.
pub fn contrary(loc: &Procedencia) -> (other: Procedencia)
    ensures
        other == loc.opposite(),
        other != *loc,
        other.opposite() == *loc,
{
    match loc {
        Procedencia::Casa => Procedencia::Tara,
        Procedencia::Tara => Procedencia::Casa,
    }
}

/// The name under which `loc` is shown.
pub fn get_string_name(loc: &Procedencia) -> (name: String)
    ensures
        name@ == loc.name(),
{
    match loc {
        Procedencia::Casa => String::from_str("Casa"),
        Procedencia::Tara => String::from_str("Tara"),
    }
}

/// Taking the opposite twice gives the location back.
pub proof fn opposite_is_an_involution(loc: Procedencia)
    ensures
        loc.opposite().opposite() == loc,
        loc.opposite() != loc,
{
}

/// The two locations are shown under different names.
pub proof fn names_differ()
    ensures
        Procedencia::Casa.name() != Procedencia::Tara.name(),
        Procedencia::Casa.name() == seq!['C', 'a', 's', 'a'],
        Procedencia::Tara.name() == seq!['T', 'a', 'r', 'a'],
{
    reveal_strlit("Casa");
    reveal_strlit("Tara");
    assert(Procedencia::Casa.name()[0] == 'C');
    assert(Procedencia::Tara.name()[0] == 'T');
}

} // verus!
