//! Colour themes and the statement of principles shown by the tools.
use vstd::prelude::*;

use crate::json::owned;

verus! {

/// A colour theme.
pub struct PyroTheme {
    pub primary_color: String,
    pub secondary_color: String,
    pub accent_color: String,
    pub name: String,
}

impl PyroTheme {
    /// Red, black and fire orange.
    pub fn anarchist() -> (r: PyroTheme)
        ensures
            r.primary_color@ == "#FF0000"@,
            r.secondary_color@ == "#000000"@,
            r.accent_color@ == "#FF6600"@,
            r.name@ == "Anarchist Flame"@,
    {
        PyroTheme {
            primary_color: owned("#FF0000"),
            secondary_color: owned("#000000"),
            accent_color: owned("#FF6600"),
            name: owned("Anarchist Flame"),
        }
    }

    /// Orange red, dark red and gold.
    pub fn fire_marshal() -> (r: PyroTheme)
        ensures
            r.primary_color@ == "#FF4500"@,
            r.secondary_color@ == "#8B0000"@,
            r.accent_color@ == "#FFD700"@,
            r.name@ == "Fire Marshal"@,
    {
        PyroTheme {
            primary_color: owned("#FF4500"),
            secondary_color: owned("#8B0000"),
            accent_color: owned("#FFD700"),
            name: owned("Fire Marshal"),
        }
    }
}

/// The statement of principles.
pub struct Manifesto;

/// The principles, in order.
pub open spec fn principle_texts() -> Seq<Seq<char>> {
    seq![
        "Autonomous operation - no central control"@,
        "Data sovereignty - encrypt and compartmentalize"@,
        "Horizontal organization - peer-to-peer architecture"@,
        "Mutual aid - share resources without hierarchy"@,
        "Direct action - execute without permission"@,
        "Decentralization - distribute power and data"@,
    ]
}

impl Manifesto {
    /// The principles, in order.
    pub fn principles() -> (r: Vec<&'static str>)
        ensures
            r@.map_values(|p: &'static str| p@) == principle_texts(),
    {
        let r = vec![
            "Autonomous operation - no central control",
            "Data sovereignty - encrypt and compartmentalize",
            "Horizontal organization - peer-to-peer architecture",
            "Mutual aid - share resources without hierarchy",
            "Direct action - execute without permission",
            "Decentralization - distribute power and data",
        ];
        assert(r@.map_values(|p: &'static str| p@) =~= principle_texts());
        r
    }
}

} // verus!
