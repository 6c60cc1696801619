use vstd::prelude::*;

verus! {

/// The sum of a sequence of lengths, taken from the left.
pub open spec fn seq_sum(s: Seq<int>) -> int
    decreases s.len(),
{
    if s.len() == 0 {
        0
    } else {
        seq_sum(s.drop_last()) + s.last()
    }
}

/// Taking one element out of a sequence takes exactly that element off its sum.
pub proof fn lemma_sum_remove(s: Seq<int>, j: int)
    requires
        0 <= j < s.len(),
    ensures
        seq_sum(s) == seq_sum(s.remove(j)) + s[j],
    decreases s.len(),
{
    if j == s.len() - 1 {
        assert(s.remove(j) =~= s.drop_last());
    } else {
        let t = s.remove(j);
        assert(t.drop_last() =~= s.drop_last().remove(j));
        assert(t.last() == s.last());
        lemma_sum_remove(s.drop_last(), j);
    }
}

/// Two sequences that hold the same lengths, each as often, have the same sum.
pub proof fn lemma_sum_any_order(s1: Seq<int>, s2: Seq<int>)
    requires
        s1.to_multiset() =~= s2.to_multiset(),
    ensures
        seq_sum(s1) == seq_sum(s2),
    decreases s1.len(),
{
    broadcast use vstd::seq_lib::group_to_multiset_ensures;

    if s1.len() == 0 {
        assert(s2.to_multiset().len() == 0);
        assert(s2.len() == 0);
    } else {
        let x = s1.last();
        let rest = s1.drop_last();
        assert(s1 =~= rest.push(x));
        assert(s1.to_multiset().count(x) > 0);
        assert(s2.contains(x));
        let j = choose|j: int| 0 <= j < s2.len() && s2[j] == x;
        lemma_sum_remove(s2, j);
        assert(s2.remove(j).to_multiset() =~= s2.to_multiset().remove(x));
        assert(rest.to_multiset() =~= s1.to_multiset().remove(x));
        lemma_sum_any_order(rest, s2.remove(j));
    }
}

/// How many whole pieces of `length_per_piece` a bar of `bar_length` yields,
/// and the material that is left over.  `None` when a piece has no length.
pub fn pieces_from_bar(bar_length: u64, length_per_piece: u64) -> (r: Option<(u64, u64)>)
    ensures
        length_per_piece == 0 <==> r is None,
        r matches Some((pieces, unused)) ==> pieces == bar_length / length_per_piece
            && unused == bar_length % length_per_piece,
{
    if length_per_piece == 0 {
        None
    } else {
        Some((bar_length / length_per_piece, bar_length % length_per_piece))
    }
}

/// The inputs and results of the bar-gripper calculator, for a lathe that
/// pulls bar stock out of the chuck with a gripper before each cut.
///
/// Lengths are whole micrometres. Along the bar, from the chuck outwards, lie
/// the safety margin, the gripper overextension, the margin from the cut, the
/// cutter width, the left facing stock, the workpiece and the right facing
/// stock: the seven segments of one piece.
#[derive(Clone, Copy, Debug, PartialEq, Eq)]
pub struct GripperCalculationData {
    pub bar_diameter: u32,
    pub bar_length: u64,
    pub workpiece_length: u32,
    pub right_facing_stock: u32,
    pub left_facing_stock: u32,
    pub cutter_width: u32,
    pub gripper_overextension: u32,
    pub gripping_point: i64,
    pub margin_from_cut: u32,
    pub claw_origin_offset: u32,
    pub claw_max_grip_diameter: u32,
    pub claw_total_diameter: u32,
    pub z_zero: i32,
    pub desired_safety_margin: u32,
    pub desired_safety_margin_end: u64,
    pub gripping_extension_end: u64,
    pub left_facing_stock_end: u64,
    pub workpiece_end: u64,
    pub right_facing_stock_end: u64,
    pub total_length_per_piece: u64,
    /// Whole pieces per bar; `None` while a piece has no length.
    pub total_possible_pieces: Option<u64>,
    /// Material left after the last whole piece; `None` while a piece has no length.
    pub unused_material: Option<u64>,
}

impl GripperCalculationData {
    /// The seven segments of one piece, in their order along the bar.
    pub open spec fn segments(self) -> Seq<int> {
        seq![
            self.desired_safety_margin as int,
            self.gripper_overextension as int,
            self.margin_from_cut as int,
            self.cutter_width as int,
            self.left_facing_stock as int,
            self.workpiece_length as int,
            self.right_facing_stock as int,
        ]
    }

    /// The material one piece takes from the bar.
    pub open spec fn length_per_piece(self) -> int {
        self.desired_safety_margin + self.gripper_overextension + self.margin_from_cut
            + self.cutter_width + self.left_facing_stock + self.workpiece_length
            + self.right_facing_stock
    }

    /// Every result field agrees with the inputs.
    pub open spec fn results_hold(self) -> bool {
        &&& self.desired_safety_margin_end == self.desired_safety_margin
        &&& self.gripping_extension_end == self.desired_safety_margin_end
            + self.gripper_overextension
        &&& self.left_facing_stock_end == self.gripping_extension_end + self.margin_from_cut
            + self.cutter_width + self.left_facing_stock
        &&& self.workpiece_end == self.left_facing_stock_end + self.workpiece_length
        &&& self.right_facing_stock_end == self.workpiece_end + self.right_facing_stock
        &&& self.total_length_per_piece == self.length_per_piece()
        &&& self.gripping_point == self.z_zero + self.margin_from_cut + self.cutter_width
            + self.left_facing_stock + self.workpiece_length
        &&& self.total_length_per_piece == 0 ==> self.total_possible_pieces is None
            && self.unused_material is None
        &&& self.total_length_per_piece > 0 ==> self.total_possible_pieces == Some(
            (self.bar_length / self.total_length_per_piece) as u64,
        ) && self.unused_material == Some((self.bar_length % self.total_length_per_piece) as u64)
    }

    /// `self` and `other` agree on every input field.
    pub open spec fn same_inputs(self, other: Self) -> bool {
        &&& self.bar_diameter == other.bar_diameter
        &&& self.bar_length == other.bar_length
        &&& self.workpiece_length == other.workpiece_length
        &&& self.right_facing_stock == other.right_facing_stock
        &&& self.left_facing_stock == other.left_facing_stock
        &&& self.cutter_width == other.cutter_width
        &&& self.gripper_overextension == other.gripper_overextension
        &&& self.margin_from_cut == other.margin_from_cut
        &&& self.claw_origin_offset == other.claw_origin_offset
        &&& self.claw_max_grip_diameter == other.claw_max_grip_diameter
        &&& self.claw_total_diameter == other.claw_total_diameter
        &&& self.z_zero == other.z_zero
        &&& self.desired_safety_margin == other.desired_safety_margin
    }

    /// Brings every result field up to date with the inputs.
    pub fn recalculate(&mut self)
        ensures
            final(self).same_inputs(*old(self)),
            final(self).results_hold(),
    {
        self.desired_safety_margin_end = self.desired_safety_margin as u64;
        self.gripping_extension_end = self.desired_safety_margin_end
            + self.gripper_overextension as u64;
        self.left_facing_stock_end = self.gripping_extension_end + self.margin_from_cut as u64
            + self.cutter_width as u64 + self.left_facing_stock as u64;
        self.workpiece_end = self.left_facing_stock_end + self.workpiece_length as u64;
        self.right_facing_stock_end = self.workpiece_end + self.right_facing_stock as u64;
        self.total_length_per_piece = self.desired_safety_margin as u64
            + self.gripper_overextension as u64 + self.margin_from_cut as u64
            + self.cutter_width as u64 + self.left_facing_stock as u64
            + self.workpiece_length as u64 + self.right_facing_stock as u64;
        self.gripping_point = self.z_zero as i64 + self.margin_from_cut as i64
            + self.cutter_width as i64 + self.left_facing_stock as i64
            + self.workpiece_length as i64;
        match pieces_from_bar(self.bar_length, self.total_length_per_piece) {
            Some((pieces, unused)) => {
                self.total_possible_pieces = Some(pieces);
                self.unused_material = Some(unused);
            },
            None => {
                self.total_possible_pieces = None;
                self.unused_material = None;
            },
        }
    }
}

impl GripperCalculationData {
    /// The values the calculator opens with.
    pub open spec fn is_initial(self) -> bool {
        &&& self.bar_diameter == 50_000
        &&& self.bar_length == 200_000
        &&& self.workpiece_length == 100_000
        &&& self.right_facing_stock == 2_000
        &&& self.left_facing_stock == 2_000
        &&& self.cutter_width == 10_000
        &&& self.gripper_overextension == 10_000
        &&& self.gripping_point == 100_000
        &&& self.margin_from_cut == 2_000
        &&& self.claw_origin_offset == 5_000
        &&& self.claw_max_grip_diameter == 40_000
        &&& self.claw_total_diameter == 45_000
        &&& self.z_zero == 0
        &&& self.desired_safety_margin == 2_000
        &&& self.desired_safety_margin_end == 0
        &&& self.gripping_extension_end == 0
        &&& self.left_facing_stock_end == 0
        &&& self.workpiece_end == 0
        &&& self.right_facing_stock_end == 0
        &&& self.total_length_per_piece == 1_000
        &&& self.total_possible_pieces == Some(0u64)
        &&& self.unused_material == Some(0u64)
    }
}

impl Default for GripperCalculationData {
    /// The calculator as it opens: a 50 mm bar, 200 mm long, for 100 mm
    /// workpieces; results are not yet computed.
    fn default() -> (r: Self)
        ensures
            r.is_initial(),
    {
        GripperCalculationData {
            bar_diameter: 50_000,
            bar_length: 200_000,
            workpiece_length: 100_000,
            right_facing_stock: 2_000,
            left_facing_stock: 2_000,
            cutter_width: 10_000,
            gripper_overextension: 10_000,
            gripping_point: 100_000,
            margin_from_cut: 2_000,
            claw_origin_offset: 5_000,
            claw_max_grip_diameter: 40_000,
            claw_total_diameter: 45_000,
            z_zero: 0,
            desired_safety_margin: 2_000,
            desired_safety_margin_end: 0,
            gripping_extension_end: 0,
            left_facing_stock_end: 0,
            workpiece_end: 0,
            right_facing_stock_end: 0,
            total_length_per_piece: 1_000,
            total_possible_pieces: Some(0),
            unused_material: Some(0),
        }
    }
}

/// The length per piece is the exact sum of the seven segment inputs, in
/// whatever order they are added up.
pub proof fn lemma_length_per_piece_in_any_order(d: GripperCalculationData, order: Seq<int>)
    requires
        d.results_hold(),
        order.to_multiset() =~= d.segments().to_multiset(),
    ensures
        d.total_length_per_piece == seq_sum(d.segments()),
        d.total_length_per_piece == seq_sum(order),
{
    let s = d.segments();
    assert(s.drop_last().drop_last().drop_last().drop_last().drop_last().drop_last().drop_last()
        =~= Seq::<int>::empty());
    reveal_with_fuel(seq_sum, 8);
    lemma_sum_any_order(s, order);
}

/// The running end positions climb segment by segment from the chuck, and
/// the last of them is the length of one piece.
pub proof fn lemma_last_end_is_length_per_piece(d: GripperCalculationData)
    requires
        d.results_hold(),
    ensures
        d.desired_safety_margin_end <= d.gripping_extension_end,
        d.gripping_extension_end <= d.left_facing_stock_end,
        d.left_facing_stock_end <= d.workpiece_end,
        d.workpiece_end <= d.right_facing_stock_end,
        d.right_facing_stock_end == d.total_length_per_piece,
{
}

/// With pieces of non-zero length, the whole pieces and the leftover make up
/// the bar exactly, and the leftover is shorter than one piece.
pub proof fn lemma_pieces_and_leftover_make_up_bar(d: GripperCalculationData)
    requires
        d.results_hold(),
        d.total_length_per_piece > 0,
    ensures
        d.total_possible_pieces.unwrap() * d.total_length_per_piece + d.unused_material.unwrap()
            == d.bar_length,
        d.unused_material.unwrap() < d.total_length_per_piece,
{
    let b = d.bar_length as int;
    let t = d.total_length_per_piece as int;
    vstd::arithmetic::div_mod::lemma_fundamental_div_mod(b, t);
    assert(b / t * t == t * (b / t)) by (nonlinear_arith);
}

} // verus!
