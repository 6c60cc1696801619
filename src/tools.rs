use vstd::prelude::*;
use crate::custom_traits::{
    GetDegree, GetDiameter, GetRotatingToolCategory, GetToolType, GetTurningToolCategory, GetUuid,
};
use crate::ids::new_uuid_string;

verus! {

/// A tool of the library.
pub enum Tool {
    Rotating(RotatingTool),
    Turning(TurningTool),
}

/// A tool that turns in the spindle: mills, drills, reamers.
///
/// Lengths and diameters are micrometres, the weight milligrams, the
/// pressure bar.
pub struct RotatingTool {
    pub uuid: String,
    pub category: RotatingToolCategory,
    pub cutting_diameter: u32,
    pub connection_diameter: u32,
    pub usable_length: u32,
    pub achievable_hole_tolerance: u32,
    pub functional_length: u32,
    pub weight_of_tool: u32,
    pub max_rpm: u32,
    pub coolant_pressure: u32,
}

/// A lathe tool.
///
/// Lengths and diameters are micrometres, angles thousandths of a degree,
/// the weight milligrams.
pub struct TurningTool {
    pub uuid: String,
    pub category: TurningToolCategory,
    pub lead_angle: i32,
    pub handedness: Handedness,
    pub cutting_edge_angle: i32,
    pub insert_type: String,
    pub maximum_ramping_angle: i32,
    pub minimum_bore_diameter: u32,
    pub workpiece_side_body_angle: i32,
    pub cutting_depth_maximum: u32,
    pub machine_side_body_angle: i32,
    pub minimum_overhang: u32,
    pub maximum_overhang: u32,
    pub usable_length: u32,
    pub body_length: u32,
    pub body_diameter: u32,
    pub functional_diameter: u32,
    pub peripheral_effective_cutting: u32,
    pub connection_diameter: u32,
    pub maximum_rpm: u32,
    pub tool_weight: u32,
}

/// The hand of a lathe tool.
#[derive(Clone, Copy, Debug, PartialEq, Eq, Structural)]
pub enum Handedness {
    Neutral,
    Left,
    Right,
}

/// The kinds of rotating tool.
#[derive(Clone, Copy, Debug, PartialEq, Eq, Structural)]
pub enum RotatingToolCategory {
    Empty,
    BallNoseMill,
    BoringTool,
    ChamferMill,
    DoveTailCutter,
    DrillBit,
    EndMill,
    FaceMill,
    Reamer,
    SlotDrill,
    ThreadMill,
    TSlotCutter,
}

/// The kinds of turning tool.
#[derive(Clone, Copy, Debug, PartialEq, Eq, Structural)]
pub enum TurningToolCategory {
    Empty,
    InternalTurningTool,
    ExternalTurningTool,
    FacingTool,
    BoringBar,
    ThreadingTool,
    GroovingPartingTool,
    FormTool,
}

impl Tool {
    /// The identifier of the tool.
    pub open spec fn uuid_view(self) -> Seq<char> {
        match self {
            Tool::Rotating(t) => t.uuid@,
            Tool::Turning(t) => t.uuid@,
        }
    }

    /// The tool with its identifier replaced.
    pub open spec fn with_uuid(self, uuid: String) -> Tool {
        match self {
            Tool::Rotating(t) => Tool::Rotating(RotatingTool { uuid, ..t }),
            Tool::Turning(t) => Tool::Turning(TurningTool { uuid, ..t }),
        }
    }

    /// Replaces the identifier of the tool.
    pub fn set_uuid(&mut self, uuid: String)
        ensures
            *final(self) == old(self).with_uuid(uuid),
    {
        match self {
            Tool::Rotating(t) => {
                t.uuid = uuid;
            },
            Tool::Turning(t) => {
                t.uuid = uuid;
            },
        }
    }
}

impl Clone for Tool {
    fn clone(&self) -> (r: Self)
        ensures
            r == *self,
    {
        match self {
            Tool::Rotating(t) => Tool::Rotating(t.clone()),
            Tool::Turning(t) => Tool::Turning(t.clone()),
        }
    }
}

impl Clone for RotatingTool {
    fn clone(&self) -> (r: Self)
        ensures
            r == *self,
    {
        RotatingTool { uuid: self.uuid.clone(), ..*self }
    }
}

impl Clone for TurningTool {
    fn clone(&self) -> (r: Self)
        ensures
            r == *self,
    {
        TurningTool { uuid: self.uuid.clone(), insert_type: self.insert_type.clone(), ..*self }
    }
}

impl Default for Tool {
    /// A default rotating tool, with a fresh identifier.
    fn default() -> (r: Self)
        ensures
            r matches Tool::Rotating(t) && t.default_fields() && t.uuid@.len() == 36,
    {
        Tool::Rotating(RotatingTool::default())
    }
}

impl RotatingTool {
    /// Every field but the identifier holds its default value.
    pub open spec fn default_fields(self) -> bool {
        &&& self.category == RotatingToolCategory::Empty
        &&& self.cutting_diameter == 1_000
        &&& self.connection_diameter == 5_000
        &&& self.usable_length == 10_000
        &&& self.achievable_hole_tolerance == 10
        &&& self.functional_length == 10_000
        &&& self.weight_of_tool == 10_000
        &&& self.max_rpm == 50_000
        &&& self.coolant_pressure == 20
    }
}

impl Default for RotatingTool {
    /// A 1 mm tool of no category, with a fresh identifier.
    fn default() -> (r: Self)
        ensures
            r.default_fields(),
            r.uuid@.len() == 36,
    {
        RotatingTool {
            uuid: new_uuid_string(),
            category: RotatingToolCategory::Empty,
            cutting_diameter: 1_000,
            connection_diameter: 5_000,
            usable_length: 10_000,
            achievable_hole_tolerance: 10,
            functional_length: 10_000,
            weight_of_tool: 10_000,
            max_rpm: 50_000,
            coolant_pressure: 20,
        }
    }
}

impl TurningTool {
    /// Every field but the identifier holds its default value.
    pub open spec fn default_fields(self) -> bool {
        &&& self.category == TurningToolCategory::Empty
        &&& self.lead_angle == 0
        &&& self.handedness == Handedness::Neutral
        &&& self.cutting_edge_angle == 0
        &&& self.insert_type@ == Seq::<char>::empty()
        &&& self.maximum_ramping_angle == 90_000
        &&& self.minimum_bore_diameter == 100
        &&& self.workpiece_side_body_angle == 0
        &&& self.cutting_depth_maximum == 1_000
        &&& self.machine_side_body_angle == 0
        &&& self.minimum_overhang == 0
        &&& self.maximum_overhang == 10_000
        &&& self.usable_length == 5_000
        &&& self.body_length == 10_000
        &&& self.body_diameter == 5_000
        &&& self.functional_diameter == 10_000
        &&& self.peripheral_effective_cutting == 1_000
        &&& self.connection_diameter == 5_000
        &&& self.maximum_rpm == 50_000
        &&& self.tool_weight == 20_000
    }
}

impl Default for TurningTool {
    /// A neutral lathe tool of no category, with a fresh identifier.
    fn default() -> (r: Self)
        ensures
            r.default_fields(),
            r.uuid@.len() == 36,
    {
        TurningTool {
            uuid: new_uuid_string(),
            category: TurningToolCategory::Empty,
            lead_angle: 0,
            handedness: Handedness::Neutral,
            cutting_edge_angle: 0,
            insert_type: String::new(),
            maximum_ramping_angle: 90_000,
            minimum_bore_diameter: 100,
            workpiece_side_body_angle: 0,
            cutting_depth_maximum: 1_000,
            machine_side_body_angle: 0,
            minimum_overhang: 0,
            maximum_overhang: 10_000,
            usable_length: 5_000,
            body_length: 10_000,
            body_diameter: 5_000,
            functional_diameter: 10_000,
            peripheral_effective_cutting: 1_000,
            connection_diameter: 5_000,
            maximum_rpm: 50_000,
            tool_weight: 20_000,
        }
    }
}

impl GetUuid for Tool {
    fn get_uuid(&self) -> (r: String)
        ensures
            r@ == self.uuid_view(),
    {
        match self {
            Tool::Rotating(x) => x.get_uuid(),
            Tool::Turning(x) => x.get_uuid(),
        }
    }
}

impl GetUuid for RotatingTool {
    fn get_uuid(&self) -> (r: String)
        ensures
            r@ == self.uuid@,
    {
        self.uuid.clone()
    }
}

impl GetUuid for TurningTool {
    fn get_uuid(&self) -> (r: String)
        ensures
            r@ == self.uuid@,
    {
        self.uuid.clone()
    }
}

impl GetToolType for Tool {
    fn is_rotating(&self) -> (r: bool)
        ensures
            r <==> *self is Rotating,
    {
        match self {
            Tool::Rotating(_) => true,
            Tool::Turning(_) => false,
        }
    }

    fn is_turning(&self) -> (r: bool)
        ensures
            r <==> *self is Turning,
    {
        match self {
            Tool::Rotating(_) => false,
            Tool::Turning(_) => true,
        }
    }
}

impl GetRotatingToolCategory for Tool {
    fn get_rotating_tool_category(&self) -> (r: Option<RotatingToolCategory>)
        ensures
            r == (match *self {
                Tool::Rotating(t) => Some(t.category),
                Tool::Turning(_) => None,
            }),
    {
        match self {
            Tool::Rotating(item) => item.get_rotating_tool_category(),
            Tool::Turning(_) => None,
        }
    }
}

impl GetRotatingToolCategory for RotatingTool {
    fn get_rotating_tool_category(&self) -> (r: Option<RotatingToolCategory>)
        ensures
            r == Some(self.category),
    {
        Some(self.category)
    }
}

impl GetTurningToolCategory for Tool {
    fn get_turning_tool_category(&self) -> (r: Option<TurningToolCategory>)
        ensures
            r == (match *self {
                Tool::Rotating(_) => None,
                Tool::Turning(t) => Some(t.category),
            }),
    {
        match self {
            Tool::Rotating(_) => None,
            Tool::Turning(item) => item.get_turning_tool_category(),
        }
    }
}

impl GetTurningToolCategory for TurningTool {
    fn get_turning_tool_category(&self) -> (r: Option<TurningToolCategory>)
        ensures
            r == Some(self.category),
    {
        Some(self.category)
    }
}

impl GetDiameter for Tool {
    fn get_diameter(&self) -> (r: u32)
        ensures
            r == (match *self {
                Tool::Rotating(t) => t.cutting_diameter,
                Tool::Turning(_) => 0,
            }),
    {
        match self {
            Tool::Rotating(item) => item.get_diameter(),
            Tool::Turning(item) => item.get_diameter(),
        }
    }
}

impl GetDiameter for RotatingTool {
    fn get_diameter(&self) -> (r: u32)
        ensures
            r == self.cutting_diameter,
    {
        self.cutting_diameter
    }
}

impl GetDiameter for TurningTool {
    fn get_diameter(&self) -> (r: u32)
        ensures
            r == 0,
    {
        0
    }
}

impl GetDegree for Tool {
    fn get_degree(&self) -> (r: i32)
        ensures
            r == (match *self {
                Tool::Rotating(_) => 0,
                Tool::Turning(t) => t.cutting_edge_angle,
            }),
    {
        match self {
            Tool::Rotating(item) => item.get_degree(),
            Tool::Turning(item) => item.get_degree(),
        }
    }
}

impl GetDegree for RotatingTool {
    fn get_degree(&self) -> (r: i32)
        ensures
            r == 0,
    {
        0
    }
}

impl GetDegree for TurningTool {
    fn get_degree(&self) -> (r: i32)
        ensures
            r == self.cutting_edge_angle,
    {
        self.cutting_edge_angle
    }
}

impl Handedness {
    /// The name shown for the hand.
    pub open spec fn label(self) -> Seq<char> {
        match self {
            Handedness::Neutral => "Neutral"@,
            Handedness::Left => "Left"@,
            Handedness::Right => "Right"@,
        }
    }

    pub fn to_string(&self) -> (r: String)
        ensures
            r@ == self.label(),
    {
        match self {
            Handedness::Neutral => String::from_str("Neutral"),
            Handedness::Left => String::from_str("Left"),
            Handedness::Right => String::from_str("Right"),
        }
    }
}

impl Default for Handedness {
    fn default() -> (r: Self)
        ensures
            r == Handedness::Neutral,
    {
        Handedness::Neutral
    }
}

impl RotatingToolCategory {
    /// The name shown for the category.
    pub open spec fn label(self) -> Seq<char> {
        match self {
            RotatingToolCategory::Empty => "Empty"@,
            RotatingToolCategory::BallNoseMill => "Ball Nose"@,
            RotatingToolCategory::BoringTool => "Boring"@,
            RotatingToolCategory::ChamferMill => "Chamfer Mill"@,
            RotatingToolCategory::DoveTailCutter => "Dove Tail Cutter"@,
            RotatingToolCategory::DrillBit => "Drill Bit"@,
            RotatingToolCategory::EndMill => "EndMill"@,
            RotatingToolCategory::FaceMill => "Face Mill"@,
            RotatingToolCategory::Reamer => "Reamer"@,
            RotatingToolCategory::SlotDrill => "SlotDrill"@,
            RotatingToolCategory::ThreadMill => "ThreadMill"@,
            RotatingToolCategory::TSlotCutter => "T-Slot Cutter"@,
        }
    }

    pub fn to_string(&self) -> (r: String)
        ensures
            r@ == self.label(),
    {
        match self {
            RotatingToolCategory::Empty => String::from_str("Empty"),
            RotatingToolCategory::BallNoseMill => String::from_str("Ball Nose"),
            RotatingToolCategory::BoringTool => String::from_str("Boring"),
            RotatingToolCategory::ChamferMill => String::from_str("Chamfer Mill"),
            RotatingToolCategory::DoveTailCutter => String::from_str("Dove Tail Cutter"),
            RotatingToolCategory::DrillBit => String::from_str("Drill Bit"),
            RotatingToolCategory::EndMill => String::from_str("EndMill"),
            RotatingToolCategory::FaceMill => String::from_str("Face Mill"),
            RotatingToolCategory::Reamer => String::from_str("Reamer"),
            RotatingToolCategory::SlotDrill => String::from_str("SlotDrill"),
            RotatingToolCategory::ThreadMill => String::from_str("ThreadMill"),
            RotatingToolCategory::TSlotCutter => String::from_str("T-Slot Cutter"),
        }
    }

    /// Every category, in declaration order.
    pub fn all() -> (r: Vec<RotatingToolCategory>)
        ensures
            r@ == seq![
                RotatingToolCategory::Empty,
                RotatingToolCategory::BallNoseMill,
                RotatingToolCategory::BoringTool,
                RotatingToolCategory::ChamferMill,
                RotatingToolCategory::DoveTailCutter,
                RotatingToolCategory::DrillBit,
                RotatingToolCategory::EndMill,
                RotatingToolCategory::FaceMill,
                RotatingToolCategory::Reamer,
                RotatingToolCategory::SlotDrill,
                RotatingToolCategory::ThreadMill,
                RotatingToolCategory::TSlotCutter,
            ],
    {
        vec![
            RotatingToolCategory::Empty,
            RotatingToolCategory::BallNoseMill,
            RotatingToolCategory::BoringTool,
            RotatingToolCategory::ChamferMill,
            RotatingToolCategory::DoveTailCutter,
            RotatingToolCategory::DrillBit,
            RotatingToolCategory::EndMill,
            RotatingToolCategory::FaceMill,
            RotatingToolCategory::Reamer,
            RotatingToolCategory::SlotDrill,
            RotatingToolCategory::ThreadMill,
            RotatingToolCategory::TSlotCutter,
        ]
    }
}

impl Default for RotatingToolCategory {
    fn default() -> (r: Self)
        ensures
            r == RotatingToolCategory::Empty,
    {
        RotatingToolCategory::Empty
    }
}

impl TurningToolCategory {
    /// The name shown for the category.
    pub open spec fn label(self) -> Seq<char> {
        match self {
            TurningToolCategory::Empty => "Empty"@,
            TurningToolCategory::InternalTurningTool => "Internal Turning"@,
            TurningToolCategory::ExternalTurningTool => "External Turning"@,
            TurningToolCategory::FacingTool => "Facing"@,
            TurningToolCategory::BoringBar => "Boring Bar"@,
            TurningToolCategory::ThreadingTool => "Threading"@,
            TurningToolCategory::GroovingPartingTool => "Grooving/Parting"@,
            TurningToolCategory::FormTool => "Form"@,
        }
    }

    pub fn to_string(&self) -> (r: String)
        ensures
            r@ == self.label(),
    {
        match self {
            TurningToolCategory::Empty => String::from_str("Empty"),
            TurningToolCategory::InternalTurningTool => String::from_str("Internal Turning"),
            TurningToolCategory::ExternalTurningTool => String::from_str("External Turning"),
            TurningToolCategory::FacingTool => String::from_str("Facing"),
            TurningToolCategory::BoringBar => String::from_str("Boring Bar"),
            TurningToolCategory::ThreadingTool => String::from_str("Threading"),
            TurningToolCategory::GroovingPartingTool => String::from_str("Grooving/Parting"),
            TurningToolCategory::FormTool => String::from_str("Form"),
        }
    }

    /// Every category, in declaration order.
    pub fn all() -> (r: Vec<TurningToolCategory>)
        ensures
            r@ == seq![
                TurningToolCategory::Empty,
                TurningToolCategory::InternalTurningTool,
                TurningToolCategory::ExternalTurningTool,
                TurningToolCategory::FacingTool,
                TurningToolCategory::BoringBar,
                TurningToolCategory::ThreadingTool,
                TurningToolCategory::GroovingPartingTool,
                TurningToolCategory::FormTool,
            ],
    {
        vec![
            TurningToolCategory::Empty,
            TurningToolCategory::InternalTurningTool,
            TurningToolCategory::ExternalTurningTool,
            TurningToolCategory::FacingTool,
            TurningToolCategory::BoringBar,
            TurningToolCategory::ThreadingTool,
            TurningToolCategory::GroovingPartingTool,
            TurningToolCategory::FormTool,
        ]
    }
}

impl Default for TurningToolCategory {
    fn default() -> (r: Self)
        ensures
            r == TurningToolCategory::Empty,
    {
        TurningToolCategory::Empty
    }
}

/// Broach materials.
#[derive(Clone, Copy, Debug, PartialEq, Eq, Structural, Default)]
pub enum BroachType {
    #[default]
    HSS,
    Carbide,
}

/// Drill kinds.
#[derive(Clone, Copy, Debug, PartialEq, Eq, Structural, Default)]
pub enum DrillType {
    #[default]
    BoringHead,
    CarbideDrill,
    HSSDrill,
    Pilot,
    StudHole,
}

/// Collet sizes of rotating tool holders.
#[derive(Clone, Copy, Debug, PartialEq, Eq, Structural, Default)]
pub enum HolderType {
    #[default]
    ER8,
    ER11,
    ER16,
    ER32,
}

/// Mill kinds.
#[derive(Clone, Copy, Debug, PartialEq, Eq, Structural, Default)]
pub enum MillType {
    #[default]
    SquareEnd,
    ChipSplitter,
    BallNose,
    LollyPop,
    HighFeed,
    Tapered,
    Deburring,
    TSlot,
    Engraving,
    MillingCutter,
    ExchangeableEnd,
}

/// Tap kinds.
#[derive(Clone, Copy, Debug, PartialEq, Eq, Structural, Default)]
pub enum TapType {
    #[default]
    Tap,
    Form,
    Bottom,
    Through,
}

/// Lathe tool kinds.
#[derive(Clone, Copy, Debug, PartialEq, Eq, Structural, Default)]
pub enum LatheType {
    #[default]
    TurningInsert,
    ThreadingTool,
    PartingToolHolder,
}

} // verus!
