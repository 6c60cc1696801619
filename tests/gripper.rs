use shop_tooling::gripper::{pieces_from_bar, GripperCalculationData};
use shop_tooling::gripper_fixed::GripperFixedCalculationData;

fn example_data() -> GripperCalculationData {
    let mut d = GripperCalculationData::default();
    d.bar_length = 200_000;
    d.desired_safety_margin = 2_000;
    d.gripper_overextension = 10_000;
    d.margin_from_cut = 2_000;
    d.cutter_width = 10_000;
    d.left_facing_stock = 2_000;
    d.workpiece_length = 100_000;
    d.right_facing_stock = 2_000;
    d
}

#[test]
fn example_bar_of_200_mm_yields_one_piece_and_72_mm_left() {
    let mut d = example_data();
    d.recalculate();
    assert_eq!(d.total_length_per_piece, 128_000);
    assert_eq!(d.total_possible_pieces, Some(1));
    assert_eq!(d.unused_material, Some(72_000));
}

#[test]
fn pieces_and_leftover_make_up_the_bar() {
    let mut d = example_data();
    d.bar_length = 1_000_000;
    d.recalculate();
    let pieces = d.total_possible_pieces.unwrap();
    let unused = d.unused_material.unwrap();
    assert_eq!(pieces, 7);
    assert_eq!(unused, 104_000);
    assert_eq!(pieces * d.total_length_per_piece + unused, d.bar_length);
    assert!(unused < d.total_length_per_piece);
}

#[test]
fn length_per_piece_is_the_sum_of_the_segments_in_any_order() {
    let mut d = example_data();
    d.desired_safety_margin = 1_500;
    d.workpiece_length = 33_333;
    d.recalculate();
    let forwards: u64 = [1_500u64, 10_000, 2_000, 10_000, 2_000, 33_333, 2_000].iter().sum();
    let backwards: u64 = [2_000u64, 33_333, 2_000, 10_000, 2_000, 10_000, 1_500].iter().sum();
    assert_eq!(d.total_length_per_piece, forwards);
    assert_eq!(d.total_length_per_piece, backwards);
    assert_eq!(d.total_length_per_piece, 60_833);
}

#[test]
fn positions_run_along_the_bar() {
    let mut d = example_data();
    d.recalculate();
    assert_eq!(d.desired_safety_margin_end, 2_000);
    assert_eq!(d.gripping_extension_end, 12_000);
    assert_eq!(d.left_facing_stock_end, 26_000);
    assert_eq!(d.workpiece_end, 126_000);
    assert_eq!(d.right_facing_stock_end, 128_000);
    assert_eq!(d.right_facing_stock_end, d.total_length_per_piece);
    assert_eq!(d.gripping_point, 114_000);
}

#[test]
fn zero_length_pieces_give_no_count() {
    let mut d = example_data();
    d.desired_safety_margin = 0;
    d.gripper_overextension = 0;
    d.margin_from_cut = 0;
    d.cutter_width = 0;
    d.left_facing_stock = 0;
    d.workpiece_length = 0;
    d.right_facing_stock = 0;
    d.recalculate();
    assert_eq!(d.total_length_per_piece, 0);
    assert_eq!(d.total_possible_pieces, None);
    assert_eq!(d.unused_material, None);
}

#[test]
fn largest_segments_do_not_overflow() {
    let mut d = example_data();
    d.desired_safety_margin = u32::MAX;
    d.gripper_overextension = u32::MAX;
    d.margin_from_cut = u32::MAX;
    d.cutter_width = u32::MAX;
    d.left_facing_stock = u32::MAX;
    d.workpiece_length = u32::MAX;
    d.right_facing_stock = u32::MAX;
    d.z_zero = i32::MAX;
    d.bar_length = u64::MAX;
    d.recalculate();
    assert_eq!(d.total_length_per_piece, 7 * u32::MAX as u64);
    assert_eq!(d.gripping_point, i32::MAX as i64 + 4 * u32::MAX as i64);
    assert_eq!(d.total_possible_pieces, Some(u64::MAX / (7 * u32::MAX as u64)));
}

#[test]
fn short_bar_yields_no_piece() {
    assert_eq!(pieces_from_bar(5_000, 128_000), Some((0, 5_000)));
    assert_eq!(pieces_from_bar(256_000, 128_000), Some((2, 0)));
    assert_eq!(pieces_from_bar(256_000, 0), None);
}

#[test]
fn calculator_opens_with_its_initial_values() {
    let d = GripperCalculationData::default();
    assert_eq!(d.bar_diameter, 50_000);
    assert_eq!(d.bar_length, 200_000);
    assert_eq!(d.total_length_per_piece, 1_000);
    assert_eq!(d.claw_total_diameter, 45_000);
    assert_eq!(d.total_possible_pieces, Some(0));
}

#[test]
fn fixed_calculator_pins_z_zero_to_the_bar_end() {
    let mut d = GripperFixedCalculationData::default();
    d.z_zero = -30_000;
    d.recalculate();
    assert_eq!(d.z_zero, 0);
    assert_eq!(d.gripping_point, 114_000);
    assert_eq!(d.total_length_per_piece, 128_000);
}

#[test]
fn fixed_calculator_measures_from_a_chosen_z_zero() {
    let mut d = GripperFixedCalculationData::default();
    d.bar_start_is_z_zero = false;
    d.z_zero = -30_000;
    d.recalculate();
    assert_eq!(d.z_zero, -30_000);
    assert_eq!(d.gripping_point, 84_000);
    assert_eq!(d.right_facing_stock_end, 128_000);
}
