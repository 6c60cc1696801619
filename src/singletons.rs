use vstd::prelude::*;
use crate::app_states::{
    FilterState, HolderTypeSelection, LibraryViewState, SortState, ToolTypeSelection,
};
use crate::description::Description;
use crate::gripper::GripperCalculationData;
use crate::gripper_fixed::GripperFixedCalculationData;
use crate::holders::{RotatingHolder, TurningHolder};
use crate::machine::{Machine, Magazine};
use crate::tools::{RotatingTool, TurningTool};

verus! {

/// The working state of the forms and calculators: what the user is
/// editing before it goes into their data.
pub struct Singletons {
    pub machine: Machine,
    pub magazine: Magazine,
    pub description: Description,
    /// The user's data changed and should be stored.
    pub should_save_user_data: bool,
    pub gripper_calculations: GripperCalculationData,
    pub gripper_fixed_calculations: GripperFixedCalculationData,
    pub rotating_tool: RotatingTool,
    pub turning_tool: TurningTool,
    pub rotating_holder: RotatingHolder,
    pub turning_holder: TurningHolder,
    pub tool_type_selection: ToolTypeSelection,
    pub holder_type_selection: HolderTypeSelection,
    pub sort_state: SortState,
    pub filter_state: FilterState,
    pub library_view_state: LibraryViewState,
}

impl Singletons {
    /// The forms are blank and the bar-gripper calculator is back at its
    /// initial values; the new tool and holder drafts have fresh identifiers.
    pub open spec fn forms_blank(self) -> bool {
        &&& self.machine.is_blank()
        &&& self.magazine.is_blank()
        &&& self.description.text@ == Seq::<char>::empty()
        &&& self.gripper_calculations.is_initial()
        &&& self.rotating_tool.default_fields()
        &&& self.rotating_tool.uuid@.len() == 36
        &&& self.turning_tool.default_fields()
        &&& self.turning_tool.uuid@.len() == 36
        &&& self.rotating_holder.default_fields()
        &&& self.rotating_holder.uuid@.len() == 36
        &&& self.turning_holder.default_fields()
        &&& self.turning_holder.uuid@.len() == 36
        &&& self.tool_type_selection == ToolTypeSelection::Rotating
        &&& self.holder_type_selection == HolderTypeSelection::Rotating
    }

    /// The forms are blank and no save is requested.
    pub open spec fn forms_cleared(self) -> bool {
        self.forms_blank() && !self.should_save_user_data
    }

    /// Clears the forms. The fixed-gripper calculator and the library's
    /// sort, filter and view choices are kept.
    pub fn reset(&mut self)
        ensures
            final(self).forms_cleared(),
            final(self).gripper_fixed_calculations == old(self).gripper_fixed_calculations,
            final(self).sort_state == old(self).sort_state,
            final(self).filter_state == old(self).filter_state,
            final(self).library_view_state == old(self).library_view_state,
    {
        self.machine = Machine::default();
        self.magazine = Magazine::default();
        self.description = Description::default();
        self.should_save_user_data = false;
        self.gripper_calculations = GripperCalculationData::default();
        self.rotating_tool = RotatingTool::default();
        self.turning_tool = TurningTool::default();
        self.rotating_holder = RotatingHolder::default();
        self.turning_holder = TurningHolder::default();
        self.tool_type_selection = ToolTypeSelection::default();
        self.holder_type_selection = HolderTypeSelection::default();
    }
}

impl Default for Singletons {
    fn default() -> (r: Self)
        ensures
            r.forms_cleared(),
            r.gripper_fixed_calculations.is_initial(),
            r.sort_state == SortState::Index,
            r.filter_state == FilterState::ShowAll,
            r.library_view_state == LibraryViewState::Tool,
    {
        Singletons {
            machine: Machine::default(),
            magazine: Magazine::default(),
            description: Description::default(),
            should_save_user_data: false,
            gripper_calculations: GripperCalculationData::default(),
            gripper_fixed_calculations: GripperFixedCalculationData::default(),
            rotating_tool: RotatingTool::default(),
            turning_tool: TurningTool::default(),
            rotating_holder: RotatingHolder::default(),
            turning_holder: TurningHolder::default(),
            tool_type_selection: ToolTypeSelection::default(),
            holder_type_selection: HolderTypeSelection::default(),
            sort_state: SortState::default(),
            filter_state: FilterState::default(),
            library_view_state: LibraryViewState::default(),
        }
    }
}

} // verus!
