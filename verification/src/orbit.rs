use vstd::prelude::*;

verus! {

/// Shape of a conic orbit, by eccentricity.
#[derive(Clone, Copy, Debug, PartialEq, Eq, Structural)]
pub enum OrbitType {
    Circular,
    Elliptic,
    Parabolic,
    Hyperbolic,
}

impl OrbitType {
    /// The description shown for each shape.
    pub open spec fn description(&self) -> Seq<char> {
        match self {
            OrbitType::Circular => "Circular orbit"@,
            OrbitType::Elliptic => "Elliptic orbit"@,
            OrbitType::Parabolic => "Parabolic fly-by"@,
            OrbitType::Hyperbolic => "Hyperbolic fly-by"@,
        }
    }

    pub fn to_string(&self) -> (s: &'static str)
        ensures
            s@ == self.description(),
    {
        match self {
            OrbitType::Circular => "Circular orbit",
            OrbitType::Elliptic => "Elliptic orbit",
            OrbitType::Parabolic => "Parabolic fly-by",
            OrbitType::Hyperbolic => "Hyperbolic fly-by",
        }
    }
}

} // verus!
