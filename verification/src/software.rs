//! The families of server software that can be provisioned.

use vstd::prelude::*;
use crate::text::text_of;

verus! {

/// The address of the lookup document of the Paper family.
pub const PAPER_LOOKUP_URL: &'static str = "https://qing762.is-a.dev/api/papermc";

/// A family of server software.
#[derive(Clone, Copy, Debug, PartialEq, Eq, Structural)]
pub enum Software {
    Paper,
    Spigot,
}

impl Software {
    /// The name of the family as it appears in directory names.
    pub open spec fn label(self) -> Seq<char> {
        match self {
            Software::Paper => "Paper"@,
            Software::Spigot => "Spigot"@,
        }
    }

    /// The address of the lookup document for this family, where download
    /// links for it can be looked up at all.
    pub open spec fn lookup_address(self) -> Option<Seq<char>> {
        match self {
            Software::Paper => Some(PAPER_LOOKUP_URL@),
            Software::Spigot => None,
        }
    }

    /// Whether download links for this family can be looked up upstream.
    pub open spec fn has_lookup(self) -> bool {
        self.lookup_address() is Some
    }

    /// The name of the family.
    pub fn name(self) -> (r: &'static str)
        ensures
            r@ == self.label(),
    {
        match self {
            Software::Paper => "Paper",
            Software::Spigot => "Spigot",
        }
    }

    /// The address of the lookup document for this family, where it has one.
    pub fn lookup_url(self) -> (r: Option<&'static str>)
        ensures
            text_of(r) == self.lookup_address(),
    {
        match self {
            Software::Paper => Some(PAPER_LOOKUP_URL),
            Software::Spigot => None,
        }
    }
}

} // verus!
