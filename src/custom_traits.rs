use vstd::prelude::*;
use crate::holders::{RotatingHolderCategory, TurningHolderCategory};
use crate::tools::{RotatingToolCategory, TurningToolCategory};

verus! {

/// An item with a display name.
pub trait GetName {
    fn get_name(&self) -> String;
}

/// The rotating-tool category of an item, if it is a rotating tool.
pub trait GetRotatingToolCategory {
    fn get_rotating_tool_category(&self) -> Option<RotatingToolCategory>;
}

/// The turning-tool category of an item, if it is a turning tool.
pub trait GetTurningToolCategory {
    fn get_turning_tool_category(&self) -> Option<TurningToolCategory>;
}

/// The rotating-holder category of an item, if it is a rotating holder.
pub trait GetRotatingHolderCategory {
    fn get_rotating_holder_category(&self) -> Option<RotatingHolderCategory>;
}

/// The turning-holder category of an item, if it is a turning holder.
pub trait GetTurningHolderCategory {
    fn get_turning_holder_category(&self) -> Option<TurningHolderCategory>;
}

/// The diameter an item is sorted by, in micrometres.
pub trait GetDiameter {
    fn get_diameter(&self) -> u32;
}

/// The angle an item is sorted by, in thousandths of a degree.
pub trait GetDegree {
    fn get_degree(&self) -> i32;
}

/// Whether a holder is for rotating or for turning tools.
pub trait GetHolderType {
    fn is_rotating(&self) -> bool;

    fn is_turning(&self) -> bool;
}

/// Whether a tool is a rotating or a turning tool.
pub trait GetToolType {
    fn is_rotating(&self) -> bool;

    fn is_turning(&self) -> bool;
}

/// Takes one copy of a holder out of the library; returns true when it was
/// the last one, so that the whole entry should go.
pub trait DeleteHolder {
    fn delete_holder(&mut self) -> bool;
}

/// The identifier of a library item.
pub trait GetUuid {
    fn get_uuid(&self) -> String;
}

/// Records one more copy of a holder.
pub trait AddHolderCopy {
    /// How many identical holders the entry stands for.
    spec fn copy_count(&self) -> int;

    fn add_copy(&mut self)
        requires
            old(self).copy_count() < usize::MAX,
        ensures
            final(self).copy_count() == old(self).copy_count() + 1,
    ;
}

} // verus!
