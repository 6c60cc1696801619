use vstd::prelude::*;
use crate::gripper::{seq_sum, lemma_sum_any_order};

verus! {

/// The inputs and results of the fixed-gripper calculator: the gripper stays
/// put and the gripping point is measured from a chosen Z zero.
///
/// Lengths are whole micrometres; `z_zero` and `gripping_point` may be
/// negative.
#[derive(Clone, Copy, Debug, PartialEq, Eq)]
pub struct GripperFixedCalculationData {
    pub bar_diameter: u32,
    pub bar_length: u64,
    pub workpiece_length: u32,
    pub right_facing_stock: u32,
    pub left_facing_stock: u32,
    pub cutter_width: u32,
    pub gripper_overextension: u32,
    pub gripping_point: i64,
    pub margin_from_cut: u32,
    pub z_zero: i32,
    pub desired_safety_margin: u32,
    /// Z zero sits at the end of the bar, which pins `z_zero` to 0.
    pub bar_start_is_z_zero: bool,
    pub desired_safety_margin_end: u64,
    pub gripping_extension_end: u64,
    pub left_facing_stock_end: u64,
    pub workpiece_end: u64,
    pub right_facing_stock_end: u64,
    pub total_length_per_piece: u64,
}

impl GripperFixedCalculationData {
    /// The seven segments of one piece, in their order along the bar.
    pub open spec fn segments(self) -> Seq<int> {
        seq![
            self.desired_safety_margin as int,
            self.gripper_overextension as int,
            self.margin_from_cut as int,
            self.cutter_width as int,
            self.left_facing_stock as int,
            self.workpiece_length as int,
            self.right_facing_stock as int,
        ]
    }

    /// The material one piece takes from the bar.
    pub open spec fn length_per_piece(self) -> int {
        self.desired_safety_margin + self.gripper_overextension + self.margin_from_cut
            + self.cutter_width + self.left_facing_stock + self.workpiece_length
            + self.right_facing_stock
    }

    /// Every result field agrees with the inputs, and Z zero with its option.
    pub open spec fn results_hold(self) -> bool {
        &&& self.bar_start_is_z_zero ==> self.z_zero == 0
        &&& self.desired_safety_margin_end == self.desired_safety_margin
        &&& self.gripping_extension_end == self.desired_safety_margin_end
            + self.gripper_overextension
        &&& self.left_facing_stock_end == self.gripping_extension_end + self.margin_from_cut
            + self.cutter_width + self.left_facing_stock
        &&& self.workpiece_end == self.left_facing_stock_end + self.workpiece_length
        &&& self.right_facing_stock_end == self.workpiece_end + self.right_facing_stock
        &&& self.total_length_per_piece == self.length_per_piece()
        &&& self.gripping_point == self.z_zero + self.margin_from_cut + self.cutter_width
            + self.left_facing_stock + self.workpiece_length
    }

    /// `self` and `other` agree on every input field but Z zero.
    pub open spec fn same_inputs_but_z_zero(self, other: Self) -> bool {
        &&& self.bar_diameter == other.bar_diameter
        &&& self.bar_length == other.bar_length
        &&& self.workpiece_length == other.workpiece_length
        &&& self.right_facing_stock == other.right_facing_stock
        &&& self.left_facing_stock == other.left_facing_stock
        &&& self.cutter_width == other.cutter_width
        &&& self.gripper_overextension == other.gripper_overextension
        &&& self.margin_from_cut == other.margin_from_cut
        &&& self.desired_safety_margin == other.desired_safety_margin
        &&& self.bar_start_is_z_zero == other.bar_start_is_z_zero
    }

    /// Applies the Z-zero option, then brings every result field up to date.
    pub fn recalculate(&mut self)
        ensures
            final(self).same_inputs_but_z_zero(*old(self)),
            final(self).z_zero == (if old(self).bar_start_is_z_zero {
                0
            } else {
                old(self).z_zero
            }),
            final(self).results_hold(),
    {
        if self.bar_start_is_z_zero {
            self.z_zero = 0;
        }
        self.desired_safety_margin_end = self.desired_safety_margin as u64;
        self.gripping_extension_end = self.desired_safety_margin_end
            + self.gripper_overextension as u64;
        self.left_facing_stock_end = self.gripping_extension_end + self.margin_from_cut as u64
            + self.cutter_width as u64 + self.left_facing_stock as u64;
        self.workpiece_end = self.left_facing_stock_end + self.workpiece_length as u64;
        self.right_facing_stock_end = self.workpiece_end + self.right_facing_stock as u64;
        self.total_length_per_piece = self.desired_safety_margin as u64
            + self.gripper_overextension as u64 + self.margin_from_cut as u64
            + self.cutter_width as u64 + self.left_facing_stock as u64
            + self.workpiece_length as u64 + self.right_facing_stock as u64;
        self.gripping_point = self.z_zero as i64 + self.margin_from_cut as i64
            + self.cutter_width as i64 + self.left_facing_stock as i64
            + self.workpiece_length as i64;
    }
}

impl GripperFixedCalculationData {
    /// The values the calculator opens with.
    pub open spec fn is_initial(self) -> bool {
        &&& self.bar_diameter == 20_000
        &&& self.bar_length == 200_000
        &&& self.workpiece_length == 100_000
        &&& self.right_facing_stock == 2_000
        &&& self.left_facing_stock == 2_000
        &&& self.cutter_width == 10_000
        &&& self.gripper_overextension == 10_000
        &&& self.gripping_point == 100_000
        &&& self.margin_from_cut == 2_000
        &&& self.z_zero == 0
        &&& self.desired_safety_margin == 2_000
        &&& self.bar_start_is_z_zero
        &&& self.desired_safety_margin_end == 0
        &&& self.gripping_extension_end == 0
        &&& self.left_facing_stock_end == 0
        &&& self.workpiece_end == 0
        &&& self.right_facing_stock_end == 0
        &&& self.total_length_per_piece == 1_000
    }
}

impl Default for GripperFixedCalculationData {
    /// The calculator as it opens: a 20 mm bar, 200 mm long, Z zero at the
    /// end of the bar; results are not yet computed.
    fn default() -> (r: Self)
        ensures
            r.is_initial(),
    {
        GripperFixedCalculationData {
            bar_diameter: 20_000,
            bar_length: 200_000,
            workpiece_length: 100_000,
            right_facing_stock: 2_000,
            left_facing_stock: 2_000,
            cutter_width: 10_000,
            gripper_overextension: 10_000,
            gripping_point: 100_000,
            margin_from_cut: 2_000,
            z_zero: 0,
            desired_safety_margin: 2_000,
            bar_start_is_z_zero: true,
            desired_safety_margin_end: 0,
            gripping_extension_end: 0,
            left_facing_stock_end: 0,
            workpiece_end: 0,
            right_facing_stock_end: 0,
            total_length_per_piece: 1_000,
        }
    }
}

/// In the fixed-gripper calculator too, the length per piece is the exact
/// sum of the seven segment inputs, in whatever order they are added up.
pub proof fn lemma_fixed_length_per_piece_in_any_order(
    d: GripperFixedCalculationData,
    order: Seq<int>,
)
    requires
        d.results_hold(),
        order.to_multiset() =~= d.segments().to_multiset(),
    ensures
        d.total_length_per_piece == seq_sum(d.segments()),
        d.total_length_per_piece == seq_sum(order),
{
    let s = d.segments();
    assert(s.drop_last().drop_last().drop_last().drop_last().drop_last().drop_last().drop_last()
        =~= Seq::<int>::empty());
    reveal_with_fuel(seq_sum, 8);
    lemma_sum_any_order(s, order);
}

} // verus!
