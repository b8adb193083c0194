use vstd::prelude::*;

verus! {

/// Where the chosen window is put, or where a new instance opens.
#[derive(Clone, Copy, Debug, PartialEq, Eq, Structural)]
pub enum PlacementMode {
    /// Focus the window where it is.
    Normal,
    /// Bring the window to the workspace the user is on.
    ToCurrentWorkspace,
    /// Switch to the nearest empty workspace first, then bring the window there.
    ToNearestEmptyWorkspace,
}

/// Both placement flags were requested at once.
#[derive(Clone, Copy, Debug, PartialEq, Eq, Structural)]
pub enum ConfigError {
    ConflictingPlacement,
}

/// The placement that the two command-line switches ask for.
pub open spec fn placement_of(move_to_current: bool, move_to_nearest_empty: bool) -> PlacementMode {
    if move_to_nearest_empty {
        PlacementMode::ToNearestEmptyWorkspace
    } else if move_to_current {
        PlacementMode::ToCurrentWorkspace
    } else {
        PlacementMode::Normal
    }
}

/// Turns the two placement switches into a mode; the switches exclude each other.
pub fn placement_from_flags(move_to_current: bool, move_to_nearest_empty: bool) -> (r: Result<PlacementMode, ConfigError>)
    ensures
        (move_to_current && move_to_nearest_empty) <==> r is Err,
        r is Ok ==> r->Ok_0 == placement_of(move_to_current, move_to_nearest_empty),
{
    if move_to_current && move_to_nearest_empty {
        Err(ConfigError::ConflictingPlacement)
    } else if move_to_nearest_empty {
        Ok(PlacementMode::ToNearestEmptyWorkspace)
    } else if move_to_current {
        Ok(PlacementMode::ToCurrentWorkspace)
    } else {
        Ok(PlacementMode::Normal)
    }
}

} // verus!
