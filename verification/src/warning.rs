use vstd::prelude::*;

verus! {

/// What a warning marker warns of.
#[derive(Clone, Copy, Debug, PartialEq, Eq, Structural)]
pub enum WarningType {
    Ufo,
    Missile,
    Roid,
}

/// An incoming entity's warning: what it is, and the marker shown for it at
/// the edge of the play area, once there is one.
#[derive(Clone, Copy, Debug, PartialEq, Eq, Structural)]
pub struct Warn {
    pub warn_type: WarningType,
    pub entity: Option<u64>,
}

impl Warn {
    /// A warning with no marker yet.
    pub fn new(warn_type: WarningType) -> (w: Self)
        ensures
            w.warn_type == warn_type,
            w.entity is None,
    {
        Warn { warn_type, entity: None }
    }
}

} // verus!
