use vstd::prelude::*;
use crate::custom_traits::{
    AddHolderCopy, DeleteHolder, GetHolderType, GetRotatingHolderCategory,
    GetTurningHolderCategory, GetUuid,
};
use crate::ids::new_uuid_string;
use crate::tools::Handedness;

verus! {

/// A holder of the library. One entry stands for `duplicates` identical
/// holders.
pub enum Holder {
    Rotating(RotatingHolder),
    Turning(TurningHolder),
}

/// A holder for rotating tools.
///
/// Lengths, diameters and ranges are micrometres.
pub struct RotatingHolder {
    pub uuid: String,
    pub duplicates: usize,
    pub category: RotatingHolderCategory,
    pub diameter: u32,
    pub length: u32,
    pub max_rpm: u32,
    pub coolant_through: bool,
    pub tool_clamping_range: (u32, u32),
    pub taper_type: String,
    pub runout: u32,
    pub balance_grade: String,
    pub collet_type: String,
    pub weldon_flat_size: u32,
    pub adjustable_range: (u32, u32),
    pub tension_compression_range: (u32, u32),
}

/// A holder for lathe tools.
///
/// Lengths, diameters and ranges are micrometres, the angle thousandths of a
/// degree.
pub struct TurningHolder {
    pub uuid: String,
    pub duplicates: usize,
    pub category: TurningHolderCategory,
    pub degree: i32,
    pub shank_height: u32,
    pub shank_width: u32,
    pub overall_length: u32,
    pub insert_size: String,
    pub handedness: Handedness,
    pub coolant_type: String,
    pub max_bore_depth: u32,
    pub min_bore_diameter: u32,
    pub max_cutting_diameter: u32,
    pub quick_change_compatible: bool,
    pub cartridge_type: String,
    pub thread_pitch_range: (u32, u32),
    pub form_profile: String,
    pub tool_post_size: String,
}

impl Holder {
    /// The identifier of the holder.
    pub open spec fn uuid_view(self) -> Seq<char> {
        match self {
            Holder::Rotating(h) => h.uuid@,
            Holder::Turning(h) => h.uuid@,
        }
    }

    /// How many identical holders the entry stands for.
    pub open spec fn copies(self) -> int {
        match self {
            Holder::Rotating(h) => h.duplicates as int,
            Holder::Turning(h) => h.duplicates as int,
        }
    }

    /// The entry with its count of copies replaced.
    pub open spec fn with_copies(self, n: usize) -> Holder {
        match self {
            Holder::Rotating(h) => Holder::Rotating(RotatingHolder { duplicates: n, ..h }),
            Holder::Turning(h) => Holder::Turning(TurningHolder { duplicates: n, ..h }),
        }
    }

    /// The holder with its identifier replaced.
    pub open spec fn with_uuid(self, uuid: String) -> Holder {
        match self {
            Holder::Rotating(h) => Holder::Rotating(RotatingHolder { uuid, ..h }),
            Holder::Turning(h) => Holder::Turning(TurningHolder { uuid, ..h }),
        }
    }

    /// Replaces the identifier of the holder.
    pub fn set_uuid(&mut self, uuid: String)
        ensures
            *final(self) == old(self).with_uuid(uuid),
    {
        match self {
            Holder::Rotating(h) => {
                h.uuid = uuid;
            },
            Holder::Turning(h) => {
                h.uuid = uuid;
            },
        }
    }
}

impl Clone for Holder {
    fn clone(&self) -> (r: Self)
        ensures
            r == *self,
    {
        match self {
            Holder::Rotating(h) => Holder::Rotating(h.clone()),
            Holder::Turning(h) => Holder::Turning(h.clone()),
        }
    }
}

impl Clone for RotatingHolder {
    fn clone(&self) -> (r: Self)
        ensures
            r == *self,
    {
        RotatingHolder {
            uuid: self.uuid.clone(),
            taper_type: self.taper_type.clone(),
            balance_grade: self.balance_grade.clone(),
            collet_type: self.collet_type.clone(),
            ..*self
        }
    }
}

impl Clone for TurningHolder {
    fn clone(&self) -> (r: Self)
        ensures
            r == *self,
    {
        TurningHolder {
            uuid: self.uuid.clone(),
            insert_size: self.insert_size.clone(),
            coolant_type: self.coolant_type.clone(),
            cartridge_type: self.cartridge_type.clone(),
            form_profile: self.form_profile.clone(),
            tool_post_size: self.tool_post_size.clone(),
            ..*self
        }
    }
}

impl AddHolderCopy for Holder {
    open spec fn copy_count(&self) -> int {
        self.copies()
    }

    fn add_copy(&mut self)
        ensures
            *final(self) == old(self).with_copies((old(self).copies() + 1) as usize),
    {
        match self {
            Holder::Rotating(x) => x.add_copy(),
            Holder::Turning(x) => x.add_copy(),
        }
    }
}

impl AddHolderCopy for RotatingHolder {
    open spec fn copy_count(&self) -> int {
        self.duplicates as int
    }

    fn add_copy(&mut self)
        ensures
            *final(self) == (RotatingHolder {
                duplicates: (old(self).duplicates + 1) as usize,
                ..*old(self)
            }),
    {
        self.duplicates = self.duplicates + 1;
    }
}

impl AddHolderCopy for TurningHolder {
    open spec fn copy_count(&self) -> int {
        self.duplicates as int
    }

    fn add_copy(&mut self)
        ensures
            *final(self) == (TurningHolder {
                duplicates: (old(self).duplicates + 1) as usize,
                ..*old(self)
            }),
    {
        self.duplicates = self.duplicates + 1;
    }
}

impl DeleteHolder for Holder {
    fn delete_holder(&mut self) -> (r: bool)
        ensures
            r <==> old(self).copies() <= 1,
            r ==> *final(self) == *old(self),
            !r ==> *final(self) == old(self).with_copies((old(self).copies() - 1) as usize),
    {
        match self {
            Holder::Rotating(x) => x.delete_holder(),
            Holder::Turning(x) => x.delete_holder(),
        }
    }
}

impl DeleteHolder for RotatingHolder {
    fn delete_holder(&mut self) -> (r: bool)
        ensures
            r <==> old(self).duplicates <= 1,
            r ==> *final(self) == *old(self),
            !r ==> *final(self) == (RotatingHolder {
                duplicates: (old(self).duplicates - 1) as usize,
                ..*old(self)
            }),
    {
        if self.duplicates > 1 {
            self.duplicates = self.duplicates - 1;
            false
        } else {
            true
        }
    }
}

impl DeleteHolder for TurningHolder {
    fn delete_holder(&mut self) -> (r: bool)
        ensures
            r <==> old(self).duplicates <= 1,
            r ==> *final(self) == *old(self),
            !r ==> *final(self) == (TurningHolder {
                duplicates: (old(self).duplicates - 1) as usize,
                ..*old(self)
            }),
    {
        if self.duplicates > 1 {
            self.duplicates = self.duplicates - 1;
            false
        } else {
            true
        }
    }
}

impl GetUuid for Holder {
    fn get_uuid(&self) -> (r: String)
        ensures
            r@ == self.uuid_view(),
    {
        match self {
            Holder::Rotating(x) => x.get_uuid(),
            Holder::Turning(x) => x.get_uuid(),
        }
    }
}

impl GetUuid for RotatingHolder {
    fn get_uuid(&self) -> (r: String)
        ensures
            r@ == self.uuid@,
    {
        self.uuid.clone()
    }
}

impl GetUuid for TurningHolder {
    fn get_uuid(&self) -> (r: String)
        ensures
            r@ == self.uuid@,
    {
        self.uuid.clone()
    }
}

impl GetHolderType for Holder {
    fn is_rotating(&self) -> (r: bool)
        ensures
            r <==> *self is Rotating,
    {
        match self {
            Holder::Rotating(_) => true,
            Holder::Turning(_) => false,
        }
    }

    fn is_turning(&self) -> (r: bool)
        ensures
            r <==> *self is Turning,
    {
        match self {
            Holder::Rotating(_) => false,
            Holder::Turning(_) => true,
        }
    }
}

impl Default for Holder {
    /// A default rotating holder, with a fresh identifier.
    fn default() -> (r: Self)
        ensures
            r matches Holder::Rotating(h) && h.default_fields() && h.uuid@.len() == 36,
    {
        Holder::Rotating(RotatingHolder::default())
    }
}

impl GetRotatingHolderCategory for Holder {
    fn get_rotating_holder_category(&self) -> (r: Option<RotatingHolderCategory>)
        ensures
            r == (match *self {
                Holder::Rotating(h) => Some(h.category),
                Holder::Turning(_) => None,
            }),
    {
        match self {
            Holder::Rotating(item) => item.get_rotating_holder_category(),
            Holder::Turning(_) => None,
        }
    }
}

impl GetRotatingHolderCategory for RotatingHolder {
    fn get_rotating_holder_category(&self) -> (r: Option<RotatingHolderCategory>)
        ensures
            r == Some(self.category),
    {
        Some(self.category)
    }
}

impl GetTurningHolderCategory for Holder {
    fn get_turning_holder_category(&self) -> (r: Option<TurningHolderCategory>)
        ensures
            r == (match *self {
                Holder::Rotating(_) => None,
                Holder::Turning(h) => Some(h.category),
            }),
    {
        match self {
            Holder::Rotating(_) => None,
            Holder::Turning(item) => item.get_turning_holder_category(),
        }
    }
}

impl GetTurningHolderCategory for TurningHolder {
    fn get_turning_holder_category(&self) -> (r: Option<TurningHolderCategory>)
        ensures
            r == Some(self.category),
    {
        Some(self.category)
    }
}

impl RotatingHolder {
    /// Every field but the identifier holds its default value.
    pub open spec fn default_fields(self) -> bool {
        &&& self.duplicates == 1
        &&& self.category == RotatingHolderCategory::Empty
        &&& self.diameter == 1_000
        &&& self.length == 1_000
        &&& self.max_rpm == 50_000
        &&& !self.coolant_through
        &&& self.tool_clamping_range == (0u32, 1_000u32)
        &&& self.taper_type@ == Seq::<char>::empty()
        &&& self.runout == 1_000
        &&& self.balance_grade@ == Seq::<char>::empty()
        &&& self.collet_type@ == Seq::<char>::empty()
        &&& self.weldon_flat_size == 1_000
        &&& self.adjustable_range == (0u32, 1_000u32)
        &&& self.tension_compression_range == (0u32, 1_000u32)
    }
}

impl Default for RotatingHolder {
    /// A single holder of no category, with a fresh identifier.
    fn default() -> (r: Self)
        ensures
            r.default_fields(),
            r.uuid@.len() == 36,
    {
        RotatingHolder {
            uuid: new_uuid_string(),
            duplicates: 1,
            category: RotatingHolderCategory::Empty,
            diameter: 1_000,
            length: 1_000,
            max_rpm: 50_000,
            coolant_through: false,
            tool_clamping_range: (0, 1_000),
            taper_type: String::new(),
            runout: 1_000,
            balance_grade: String::new(),
            collet_type: String::new(),
            weldon_flat_size: 1_000,
            adjustable_range: (0, 1_000),
            tension_compression_range: (0, 1_000),
        }
    }
}

impl TurningHolder {
    /// Every field but the identifier holds its default value.
    pub open spec fn default_fields(self) -> bool {
        &&& self.duplicates == 1
        &&& self.category == TurningHolderCategory::Empty
        &&& self.degree == 15_000
        &&& self.shank_height == 10_000
        &&& self.shank_width == 10_000
        &&& self.overall_length == 10_000
        &&& self.insert_size@ == Seq::<char>::empty()
        &&& self.handedness == Handedness::Neutral
        &&& self.coolant_type@ == Seq::<char>::empty()
        &&& self.max_bore_depth == 10_000
        &&& self.min_bore_diameter == 1_000
        &&& self.max_cutting_diameter == 3_000
        &&& !self.quick_change_compatible
        &&& self.cartridge_type@ == Seq::<char>::empty()
        &&& self.thread_pitch_range == (0u32, 1_000u32)
        &&& self.form_profile@ == Seq::<char>::empty()
        &&& self.tool_post_size@ == Seq::<char>::empty()
    }
}

impl Default for TurningHolder {
    /// A single neutral holder of no category, with a fresh identifier.
    fn default() -> (r: Self)
        ensures
            r.default_fields(),
            r.uuid@.len() == 36,
    {
        TurningHolder {
            uuid: new_uuid_string(),
            duplicates: 1,
            category: TurningHolderCategory::Empty,
            degree: 15_000,
            shank_height: 10_000,
            shank_width: 10_000,
            overall_length: 10_000,
            insert_size: String::new(),
            handedness: Handedness::Neutral,
            coolant_type: String::new(),
            max_bore_depth: 10_000,
            min_bore_diameter: 1_000,
            max_cutting_diameter: 3_000,
            quick_change_compatible: false,
            cartridge_type: String::new(),
            thread_pitch_range: (0, 1_000),
            form_profile: String::new(),
            tool_post_size: String::new(),
        }
    }
}

/// The kinds of rotating tool holder.
#[derive(Clone, Copy, Debug, PartialEq, Eq, Structural)]
pub enum RotatingHolderCategory {
    Empty,
    Collet(ColletSubCategory),
    EndMill(EndMillSubcategory),
    ShellMill(ShellMillSubcategory),
    ShrinkFit(ShrinkFitSubcategory),
    Hydraulic(HydraulicSubcategory),
    DrillChuck(DrillChuckSubcategory),
    BoringHead(BoringHeadSubcategory),
    Tapping(TappingSubcategory),
}

impl RotatingHolderCategory {
    /// The name shown for the category: that of its kind.
    pub open spec fn label(self) -> Seq<char> {
        match self {
            RotatingHolderCategory::Empty => "Empty"@,
            RotatingHolderCategory::Collet(x) => x.label(),
            RotatingHolderCategory::EndMill(x) => x.label(),
            RotatingHolderCategory::ShellMill(x) => x.label(),
            RotatingHolderCategory::ShrinkFit(x) => x.label(),
            RotatingHolderCategory::Hydraulic(x) => x.label(),
            RotatingHolderCategory::DrillChuck(x) => x.label(),
            RotatingHolderCategory::BoringHead(x) => x.label(),
            RotatingHolderCategory::Tapping(x) => x.label(),
        }
    }

    pub fn to_string(&self) -> (r: String)
        ensures
            r@ == self.label(),
    {
        match self {
            RotatingHolderCategory::Empty => String::from_str("Empty"),
            RotatingHolderCategory::Collet(x) => x.to_string(),
            RotatingHolderCategory::EndMill(x) => x.to_string(),
            RotatingHolderCategory::ShellMill(x) => x.to_string(),
            RotatingHolderCategory::ShrinkFit(x) => x.to_string(),
            RotatingHolderCategory::Hydraulic(x) => x.to_string(),
            RotatingHolderCategory::DrillChuck(x) => x.to_string(),
            RotatingHolderCategory::BoringHead(x) => x.to_string(),
            RotatingHolderCategory::Tapping(x) => x.to_string(),
        }
    }
}

impl Default for RotatingHolderCategory {
    fn default() -> (r: Self)
        ensures
            r == RotatingHolderCategory::Empty,
    {
        RotatingHolderCategory::Empty
    }
}

/// Collet chuck systems.
#[derive(Clone, Copy, Debug, PartialEq, Eq, Structural)]
pub enum ColletSubCategory {
    ER,
    TG,
    OZ,
}

impl ColletSubCategory {
    /// The name shown for the kind.
    pub open spec fn label(self) -> Seq<char> {
        match self {
            ColletSubCategory::ER => "ER"@,
            ColletSubCategory::TG => "TG"@,
            ColletSubCategory::OZ => "OZ"@,
        }
    }

    pub fn to_string(&self) -> (r: String)
        ensures
            r@ == self.label(),
    {
        match self {
            ColletSubCategory::ER => String::from_str("ER"),
            ColletSubCategory::TG => String::from_str("TG"),
            ColletSubCategory::OZ => String::from_str("OZ"),
        }
    }
}

impl Default for ColletSubCategory {
    fn default() -> (r: Self)
        ensures
            r == ColletSubCategory::ER,
    {
        ColletSubCategory::ER
    }
}

/// End mill holder kinds.
#[derive(Clone, Copy, Debug, PartialEq, Eq, Structural)]
pub enum EndMillSubcategory {
    WeldonFlat,
    MillingChuck,
}

impl EndMillSubcategory {
    /// The name shown for the kind.
    pub open spec fn label(self) -> Seq<char> {
        match self {
            EndMillSubcategory::WeldonFlat => "Weldon Flat"@,
            EndMillSubcategory::MillingChuck => "Milling Chuck"@,
        }
    }

    pub fn to_string(&self) -> (r: String)
        ensures
            r@ == self.label(),
    {
        match self {
            EndMillSubcategory::WeldonFlat => String::from_str("Weldon Flat"),
            EndMillSubcategory::MillingChuck => String::from_str("Milling Chuck"),
        }
    }
}

impl Default for EndMillSubcategory {
    fn default() -> (r: Self)
        ensures
            r == EndMillSubcategory::WeldonFlat,
    {
        EndMillSubcategory::WeldonFlat
    }
}

/// Shell mill arbors.
#[derive(Clone, Copy, Debug, PartialEq, Eq, Structural)]
pub enum ShellMillSubcategory {
    ShellMill,
}

impl ShellMillSubcategory {
    /// The name shown for the kind.
    pub open spec fn label(self) -> Seq<char> {
        match self {
            ShellMillSubcategory::ShellMill => "ShellMill"@,
        }
    }

    pub fn to_string(&self) -> (r: String)
        ensures
            r@ == self.label(),
    {
        match self {
            ShellMillSubcategory::ShellMill => String::from_str("ShellMill"),
        }
    }
}

impl Default for ShellMillSubcategory {
    fn default() -> (r: Self)
        ensures
            r == ShellMillSubcategory::ShellMill,
    {
        ShellMillSubcategory::ShellMill
    }
}

/// Shrink-fit holders.
#[derive(Clone, Copy, Debug, PartialEq, Eq, Structural)]
pub enum ShrinkFitSubcategory {
    ShrinkFit,
}

impl ShrinkFitSubcategory {
    /// The name shown for the kind.
    pub open spec fn label(self) -> Seq<char> {
        match self {
            ShrinkFitSubcategory::ShrinkFit => "ShrinkFit"@,
        }
    }

    pub fn to_string(&self) -> (r: String)
        ensures
            r@ == self.label(),
    {
        match self {
            ShrinkFitSubcategory::ShrinkFit => String::from_str("ShrinkFit"),
        }
    }
}

impl Default for ShrinkFitSubcategory {
    fn default() -> (r: Self)
        ensures
            r == ShrinkFitSubcategory::ShrinkFit,
    {
        ShrinkFitSubcategory::ShrinkFit
    }
}

/// Hydraulic chucks.
#[derive(Clone, Copy, Debug, PartialEq, Eq, Structural)]
pub enum HydraulicSubcategory {
    Hydraulic,
}

impl HydraulicSubcategory {
    /// The name shown for the kind.
    pub open spec fn label(self) -> Seq<char> {
        match self {
            HydraulicSubcategory::Hydraulic => "Hydraulic"@,
        }
    }

    pub fn to_string(&self) -> (r: String)
        ensures
            r@ == self.label(),
    {
        match self {
            HydraulicSubcategory::Hydraulic => String::from_str("Hydraulic"),
        }
    }
}

impl Default for HydraulicSubcategory {
    fn default() -> (r: Self)
        ensures
            r == HydraulicSubcategory::Hydraulic,
    {
        HydraulicSubcategory::Hydraulic
    }
}

/// Drill chucks.
#[derive(Clone, Copy, Debug, PartialEq, Eq, Structural)]
pub enum DrillChuckSubcategory {
    DrillChuck,
}

impl DrillChuckSubcategory {
    /// The name shown for the kind.
    pub open spec fn label(self) -> Seq<char> {
        match self {
            DrillChuckSubcategory::DrillChuck => "Drill Chuck"@,
        }
    }

    pub fn to_string(&self) -> (r: String)
        ensures
            r@ == self.label(),
    {
        match self {
            DrillChuckSubcategory::DrillChuck => String::from_str("Drill Chuck"),
        }
    }
}

impl Default for DrillChuckSubcategory {
    fn default() -> (r: Self)
        ensures
            r == DrillChuckSubcategory::DrillChuck,
    {
        DrillChuckSubcategory::DrillChuck
    }
}

/// Boring heads.
#[derive(Clone, Copy, Debug, PartialEq, Eq, Structural)]
pub enum BoringHeadSubcategory {
    Adjustable,
    MicroAdjustable,
}

impl BoringHeadSubcategory {
    /// The name shown for the kind.
    pub open spec fn label(self) -> Seq<char> {
        match self {
            BoringHeadSubcategory::Adjustable => "Adjustable"@,
            BoringHeadSubcategory::MicroAdjustable => "Micro Adjustable"@,
        }
    }

    pub fn to_string(&self) -> (r: String)
        ensures
            r@ == self.label(),
    {
        match self {
            BoringHeadSubcategory::Adjustable => String::from_str("Adjustable"),
            BoringHeadSubcategory::MicroAdjustable => String::from_str("Micro Adjustable"),
        }
    }
}

impl Default for BoringHeadSubcategory {
    fn default() -> (r: Self)
        ensures
            r == BoringHeadSubcategory::Adjustable,
    {
        BoringHeadSubcategory::Adjustable
    }
}

/// Tapping holders.
#[derive(Clone, Copy, Debug, PartialEq, Eq, Structural)]
pub enum TappingSubcategory {
    TensionCompression,
    Rigid,
}

impl TappingSubcategory {
    /// The name shown for the kind.
    pub open spec fn label(self) -> Seq<char> {
        match self {
            TappingSubcategory::TensionCompression => "Tension Compression"@,
            TappingSubcategory::Rigid => "Rigid"@,
        }
    }

    pub fn to_string(&self) -> (r: String)
        ensures
            r@ == self.label(),
    {
        match self {
            TappingSubcategory::TensionCompression => String::from_str("Tension Compression"),
            TappingSubcategory::Rigid => String::from_str("Rigid"),
        }
    }
}

impl Default for TappingSubcategory {
    fn default() -> (r: Self)
        ensures
            r == TappingSubcategory::TensionCompression,
    {
        TappingSubcategory::TensionCompression
    }
}

/// The kinds of turning tool holder.
#[derive(Clone, Copy, Debug, PartialEq, Eq, Structural)]
pub enum TurningHolderCategory {
    Empty,
    External(ExternalSubcategory),
    Internal(InternalSubcategory),
    PartingGrooving(PartingGroovingSubcategory),
    Threading(ThreadingSubcategory),
    Form(FormSubcategory),
    QuickChangePost(QuickChangePostSubcategory),
}

impl TurningHolderCategory {
    /// The name shown for the category: that of its kind.
    pub open spec fn label(self) -> Seq<char> {
        match self {
            TurningHolderCategory::Empty => "Empty"@,
            TurningHolderCategory::External(x) => x.label(),
            TurningHolderCategory::Internal(x) => x.label(),
            TurningHolderCategory::PartingGrooving(x) => x.label(),
            TurningHolderCategory::Threading(x) => x.label(),
            TurningHolderCategory::Form(x) => x.label(),
            TurningHolderCategory::QuickChangePost(x) => x.label(),
        }
    }

    pub fn to_string(&self) -> (r: String)
        ensures
            r@ == self.label(),
    {
        match self {
            TurningHolderCategory::Empty => String::from_str("Empty"),
            TurningHolderCategory::External(x) => x.to_string(),
            TurningHolderCategory::Internal(x) => x.to_string(),
            TurningHolderCategory::PartingGrooving(x) => x.to_string(),
            TurningHolderCategory::Threading(x) => x.to_string(),
            TurningHolderCategory::Form(x) => x.to_string(),
            TurningHolderCategory::QuickChangePost(x) => x.to_string(),
        }
    }
}

impl Default for TurningHolderCategory {
    fn default() -> (r: Self)
        ensures
            r == TurningHolderCategory::Empty,
    {
        TurningHolderCategory::Empty
    }
}

/// External turning holders, by hand.
#[derive(Clone, Copy, Debug, PartialEq, Eq, Structural)]
pub enum ExternalSubcategory {
    RightHand,
    LeftHand,
    Neutral,
}

impl ExternalSubcategory {
    /// The name shown for the kind.
    pub open spec fn label(self) -> Seq<char> {
        match self {
            ExternalSubcategory::RightHand => "Right Hand"@,
            ExternalSubcategory::LeftHand => "Left Hand"@,
            ExternalSubcategory::Neutral => "Neutral"@,
        }
    }

    pub fn to_string(&self) -> (r: String)
        ensures
            r@ == self.label(),
    {
        match self {
            ExternalSubcategory::RightHand => String::from_str("Right Hand"),
            ExternalSubcategory::LeftHand => String::from_str("Left Hand"),
            ExternalSubcategory::Neutral => String::from_str("Neutral"),
        }
    }
}

impl Default for ExternalSubcategory {
    fn default() -> (r: Self)
        ensures
            r == ExternalSubcategory::RightHand,
    {
        ExternalSubcategory::RightHand
    }
}

/// Internal turning holders.
#[derive(Clone, Copy, Debug, PartialEq, Eq, Structural)]
pub enum InternalSubcategory {
    BoringBar,
    InternalThreading,
}

impl InternalSubcategory {
    /// The name shown for the kind.
    pub open spec fn label(self) -> Seq<char> {
        match self {
            InternalSubcategory::BoringBar => "Boring Bar"@,
            InternalSubcategory::InternalThreading => "Internal Threading"@,
        }
    }

    pub fn to_string(&self) -> (r: String)
        ensures
            r@ == self.label(),
    {
        match self {
            InternalSubcategory::BoringBar => String::from_str("Boring Bar"),
            InternalSubcategory::InternalThreading => String::from_str("Internal Threading"),
        }
    }
}

impl Default for InternalSubcategory {
    fn default() -> (r: Self)
        ensures
            r == InternalSubcategory::BoringBar,
    {
        InternalSubcategory::BoringBar
    }
}

/// Parting and grooving holders.
#[derive(Clone, Copy, Debug, PartialEq, Eq, Structural)]
pub enum PartingGroovingSubcategory {
    BladeType,
    CartridgeType,
}

impl PartingGroovingSubcategory {
    /// The name shown for the kind.
    pub open spec fn label(self) -> Seq<char> {
        match self {
            PartingGroovingSubcategory::BladeType => "Blade Type"@,
            PartingGroovingSubcategory::CartridgeType => "Cartridge Type"@,
        }
    }

    pub fn to_string(&self) -> (r: String)
        ensures
            r@ == self.label(),
    {
        match self {
            PartingGroovingSubcategory::BladeType => String::from_str("Blade Type"),
            PartingGroovingSubcategory::CartridgeType => String::from_str("Cartridge Type"),
        }
    }
}

impl Default for PartingGroovingSubcategory {
    fn default() -> (r: Self)
        ensures
            r == PartingGroovingSubcategory::BladeType,
    {
        PartingGroovingSubcategory::BladeType
    }
}

/// Threading holders.
#[derive(Clone, Copy, Debug, PartialEq, Eq, Structural)]
pub enum ThreadingSubcategory {
    External,
    Internal,
}

impl ThreadingSubcategory {
    /// The name shown for the kind.
    pub open spec fn label(self) -> Seq<char> {
        match self {
            ThreadingSubcategory::External => "External"@,
            ThreadingSubcategory::Internal => "Internal"@,
        }
    }

    pub fn to_string(&self) -> (r: String)
        ensures
            r@ == self.label(),
    {
        match self {
            ThreadingSubcategory::External => String::from_str("External"),
            ThreadingSubcategory::Internal => String::from_str("Internal"),
        }
    }
}

impl Default for ThreadingSubcategory {
    fn default() -> (r: Self)
        ensures
            r == ThreadingSubcategory::External,
    {
        ThreadingSubcategory::External
    }
}

/// Form tool holders.
#[derive(Clone, Copy, Debug, PartialEq, Eq, Structural)]
pub enum FormSubcategory {
    Form,
}

impl FormSubcategory {
    /// The name shown for the kind.
    pub open spec fn label(self) -> Seq<char> {
        match self {
            FormSubcategory::Form => "Form"@,
        }
    }

    pub fn to_string(&self) -> (r: String)
        ensures
            r@ == self.label(),
    {
        match self {
            FormSubcategory::Form => String::from_str("Form"),
        }
    }
}

impl Default for FormSubcategory {
    fn default() -> (r: Self)
        ensures
            r == FormSubcategory::Form,
    {
        FormSubcategory::Form
    }
}

/// Quick-change tool posts.
#[derive(Clone, Copy, Debug, PartialEq, Eq, Structural)]
pub enum QuickChangePostSubcategory {
    QCTP,
}

impl QuickChangePostSubcategory {
    /// The name shown for the kind.
    pub open spec fn label(self) -> Seq<char> {
        match self {
            QuickChangePostSubcategory::QCTP => "QCTP"@,
        }
    }

    pub fn to_string(&self) -> (r: String)
        ensures
            r@ == self.label(),
    {
        match self {
            QuickChangePostSubcategory::QCTP => String::from_str("QCTP"),
        }
    }
}

impl Default for QuickChangePostSubcategory {
    fn default() -> (r: Self)
        ensures
            r == QuickChangePostSubcategory::QCTP,
    {
        QuickChangePostSubcategory::QCTP
    }
}

} // verus!
