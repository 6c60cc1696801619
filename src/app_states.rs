use vstd::prelude::*;

verus! {

/// The screen the application shows.
#[derive(Clone, Copy, Debug, PartialEq, Eq, Structural)]
pub enum AppState {
    WelcomePage,
    SignIn,
    SignUp,
    Application,
}

/// What the central panel shows once signed in.
#[derive(Clone, Copy, Debug, PartialEq, Eq, Structural)]
pub enum CentralViewState {
    Magazine,
}

impl Default for CentralViewState {
    fn default() -> (r: Self)
        ensures
            r == CentralViewState::Magazine,
    {
        CentralViewState::Magazine
    }
}

/// The order in which the library lists its items.
#[derive(Clone, Copy, Debug, PartialEq, Eq, Structural)]
pub enum SortState {
    Index,
    Diameter,
    Degree,
}

impl Default for SortState {
    fn default() -> (r: Self)
        ensures
            r == SortState::Index,
    {
        SortState::Index
    }
}

/// Which items of the library are listed.
#[derive(Clone, Copy, Debug, PartialEq, Eq, Structural)]
pub enum FilterState {
    ShowAll,
    RotatingToolCategory,
    RotatingHolderCategory,
    TurningToolCategory,
    TurningHolderCategory,
}

impl Default for FilterState {
    fn default() -> (r: Self)
        ensures
            r == FilterState::ShowAll,
    {
        FilterState::ShowAll
    }
}

/// Whether the library lists tools or holders.
#[derive(Clone, Copy, Debug, PartialEq, Eq, Structural)]
pub enum LibraryViewState {
    Tool,
    Holder,
}

impl Default for LibraryViewState {
    fn default() -> (r: Self)
        ensures
            r == LibraryViewState::Tool,
    {
        LibraryViewState::Tool
    }
}

/// The kind of tool the add-tool form builds.
#[derive(Clone, Copy, Debug, PartialEq, Eq, Structural)]
pub enum ToolTypeSelection {
    Rotating,
    Turning,
}

impl Default for ToolTypeSelection {
    fn default() -> (r: Self)
        ensures
            r == ToolTypeSelection::Rotating,
    {
        ToolTypeSelection::Rotating
    }
}

/// The kind of holder the add-holder form builds.
#[derive(Clone, Copy, Debug, PartialEq, Eq, Structural)]
pub enum HolderTypeSelection {
    Rotating,
    Turning,
}

impl Default for HolderTypeSelection {
    fn default() -> (r: Self)
        ensures
            r == HolderTypeSelection::Rotating,
    {
        HolderTypeSelection::Rotating
    }
}

/// The task window the user is working in.
#[derive(Clone, Copy, Debug, PartialEq, Eq, Structural)]
pub enum WidgetState {
    Default,
    AddMachine,
    DeleteMachine,
    EditMachine,
    Settings,
    GripperCalculation,
    GripperFixedCalculation,
    AddTool,
    AddHolder,
}

impl Default for WidgetState {
    fn default() -> (r: Self)
        ensures
            r == WidgetState::Default,
    {
        WidgetState::Default
    }
}

/// Which task windows are open.
#[derive(Clone, Copy, Debug, PartialEq, Eq, Structural)]
pub struct OpenWindows {
    pub add_machine_window_open: bool,
    pub delete_machine_window_open: bool,
    pub edit_machine_window_open: bool,
    pub gripper_window_open: bool,
    pub gripper_fixed_window_open: bool,
    pub settings_window_open: bool,
    pub add_tool_window: bool,
    pub add_holder_window: bool,
}

impl OpenWindows {
    /// No window is open.
    pub open spec fn all_closed(self) -> bool {
        &&& !self.add_machine_window_open
        &&& !self.delete_machine_window_open
        &&& !self.edit_machine_window_open
        &&& !self.gripper_window_open
        &&& !self.gripper_fixed_window_open
        &&& !self.settings_window_open
        &&& !self.add_tool_window
        &&& !self.add_holder_window
    }

    /// Closes every window.
    pub fn reset(&mut self)
        ensures
            final(self).all_closed(),
    {
        self.add_holder_window = false;
        self.add_machine_window_open = false;
        self.add_tool_window = false;
        self.delete_machine_window_open = false;
        self.edit_machine_window_open = false;
        self.gripper_fixed_window_open = false;
        self.gripper_window_open = false;
        self.settings_window_open = false;
    }
}

impl Default for OpenWindows {
    fn default() -> (r: Self)
        ensures
            r.all_closed(),
    {
        OpenWindows {
            add_machine_window_open: false,
            delete_machine_window_open: false,
            edit_machine_window_open: false,
            gripper_window_open: false,
            gripper_fixed_window_open: false,
            settings_window_open: false,
            add_tool_window: false,
            add_holder_window: false,
        }
    }
}

} // verus!
