use shop_tooling::app_states::{FilterState, LibraryViewState, SortState};
use shop_tooling::custom_traits::{
    AddHolderCopy, DeleteHolder, GetDegree, GetDiameter, GetHolderType, GetRotatingToolCategory,
    GetUuid,
};
use shop_tooling::holders::{
    Holder, RotatingHolder, RotatingHolderCategory, TappingSubcategory, TurningHolder,
    TurningHolderCategory, ThreadingSubcategory,
};
use shop_tooling::library::{
    filter_holders, filter_options, filter_tools, first_holder_with_uuid, sort_and_filter_items,
    Library,
};
use shop_tooling::tools::{
    Handedness, RotatingTool, RotatingToolCategory, Tool, TurningTool, TurningToolCategory,
};

fn rotating(id: &str) -> Tool {
    let mut t = RotatingTool::default();
    t.uuid = id.to_string();
    Tool::Rotating(t)
}

fn turning(id: &str) -> Tool {
    let mut t = TurningTool::default();
    t.uuid = id.to_string();
    Tool::Turning(t)
}

fn rotating_holder(id: &str, copies: usize) -> Holder {
    let mut h = RotatingHolder::default();
    h.uuid = id.to_string();
    h.duplicates = copies;
    Holder::Rotating(h)
}

fn turning_holder(id: &str, copies: usize) -> Holder {
    let mut h = TurningHolder::default();
    h.uuid = id.to_string();
    h.duplicates = copies;
    Holder::Turning(h)
}

fn ids_of_tools(v: &[Tool]) -> Vec<String> {
    v.iter().map(|t| t.get_uuid()).collect()
}

fn ids_of_holders(v: &[Holder]) -> Vec<String> {
    v.iter().map(|h| h.get_uuid()).collect()
}

fn copies(h: &Holder) -> usize {
    match h {
        Holder::Rotating(x) => x.duplicates,
        Holder::Turning(x) => x.duplicates,
    }
}

fn sample() -> Library {
    Library {
        tools: vec![rotating("a"), turning("b"), rotating("c")],
        holders: vec![rotating_holder("h1", 2), turning_holder("h2", 1), rotating_holder("h3", 1)],
    }
}

#[test]
fn tool_filters_keep_library_order() {
    let lib = sample();
    assert_eq!(ids_of_tools(&filter_tools(&lib, &FilterState::ShowAll)), vec!["a", "b", "c"]);
    assert_eq!(ids_of_tools(&filter_tools(&lib, &FilterState::RotatingToolCategory)), vec!["a", "c"]);
    assert_eq!(ids_of_tools(&filter_tools(&lib, &FilterState::TurningToolCategory)), vec!["b"]);
    assert!(filter_tools(&lib, &FilterState::RotatingHolderCategory).is_empty());
    assert!(filter_tools(&lib, &FilterState::TurningHolderCategory).is_empty());
}

#[test]
fn holder_filters_keep_library_order() {
    let lib = sample();
    assert_eq!(ids_of_holders(&filter_holders(&lib, &FilterState::ShowAll)), vec!["h1", "h2", "h3"]);
    assert_eq!(
        ids_of_holders(&filter_holders(&lib, &FilterState::RotatingHolderCategory)),
        vec!["h1", "h3"]
    );
    assert_eq!(ids_of_holders(&filter_holders(&lib, &FilterState::TurningHolderCategory)), vec!["h2"]);
    assert!(filter_holders(&lib, &FilterState::RotatingToolCategory).is_empty());
}

#[test]
fn filters_of_an_empty_library_are_empty() {
    let lib = Library::default();
    assert!(filter_tools(&lib, &FilterState::ShowAll).is_empty());
    assert!(filter_holders(&lib, &FilterState::ShowAll).is_empty());
}

#[test]
fn removing_a_tool_removes_every_tool_with_its_id() {
    let mut lib = sample();
    lib.tools.push(turning("a"));
    lib.remove_tool("a");
    assert_eq!(ids_of_tools(&lib.tools), vec!["b", "c"]);
    lib.remove_tool("zzz");
    assert_eq!(ids_of_tools(&lib.tools), vec!["b", "c"]);
    assert_eq!(lib.holders.len(), 3);
}

#[test]
fn adding_a_holder_copy_counts_the_first_match() {
    let mut lib = sample();
    lib.holders.push(rotating_holder("h1", 5));
    lib.add_holder_copy("h1");
    assert_eq!(copies(&lib.holders[0]), 3);
    assert_eq!(copies(&lib.holders[3]), 5);
    lib.add_holder_copy("none");
    assert_eq!(copies(&lib.holders[0]), 3);
}

#[test]
fn removing_a_holder_takes_one_copy_then_the_entry() {
    let mut lib = sample();
    lib.holders.push(rotating_holder("h1", 4));
    lib.remove_holder("h1");
    assert_eq!(ids_of_holders(&lib.holders), vec!["h1", "h2", "h3", "h1"]);
    assert_eq!(copies(&lib.holders[0]), 1);
    lib.remove_holder("h1");
    assert_eq!(ids_of_holders(&lib.holders), vec!["h2", "h3"]);
    lib.remove_holder("missing");
    assert_eq!(ids_of_holders(&lib.holders), vec!["h2", "h3"]);
}

#[test]
fn first_holder_with_uuid_finds_the_first() {
    let mut lib = sample();
    lib.holders.push(rotating_holder("h2", 1));
    assert_eq!(first_holder_with_uuid(&lib.holders, &"h2".to_string()), Some(1));
    assert_eq!(first_holder_with_uuid(&lib.holders, &"x".to_string()), None);
}

#[test]
fn added_tools_get_a_fresh_hyphenated_id() {
    let mut lib = sample();
    lib.add_tool(rotating("draft"));
    lib.add_tool(rotating("draft"));
    assert_eq!(lib.tools.len(), 5);
    let a = lib.tools[3].get_uuid();
    let b = lib.tools[4].get_uuid();
    assert_ne!(a, "draft");
    assert_ne!(a, b);
    assert_eq!(a.len(), 36);
    for (i, c) in a.bytes().enumerate() {
        if [8, 13, 18, 23].contains(&i) {
            assert_eq!(c, b'-');
        } else {
            assert!(c.is_ascii_digit() || (b'a'..=b'f').contains(&c));
        }
    }
}

#[test]
fn added_holders_get_a_fresh_id() {
    let mut lib = sample();
    lib.add_holder(turning_holder("draft", 1));
    assert_eq!(lib.holders.len(), 4);
    assert!(lib.holders[3].is_turning());
    assert_ne!(lib.holders[3].get_uuid(), "draft");
    assert_eq!(lib.holders[3].get_uuid().len(), 36);
}

#[test]
fn defaults_get_distinct_ids() {
    let a = RotatingTool::default();
    let b = RotatingTool::default();
    assert_ne!(a.uuid, b.uuid);
    assert_eq!(a.uuid.len(), 36);
    assert_eq!(a.cutting_diameter, 1_000);
    let h = TurningHolder::default();
    assert_eq!(h.duplicates, 1);
    assert_eq!(h.degree, 15_000);
}

#[test]
fn delete_holder_reports_the_last_copy() {
    let mut h = rotating_holder("x", 2);
    assert!(!h.delete_holder());
    assert_eq!(copies(&h), 1);
    assert!(h.delete_holder());
    assert_eq!(copies(&h), 1);
    h.add_copy();
    assert_eq!(copies(&h), 2);
}

#[test]
fn tool_sort_keys() {
    let mut r = RotatingTool::default();
    r.cutting_diameter = 12_000;
    let mut t = TurningTool::default();
    t.cutting_edge_angle = 95_000;
    assert_eq!(Tool::Rotating(r.clone()).get_diameter(), 12_000);
    assert_eq!(Tool::Turning(t.clone()).get_diameter(), 0);
    assert_eq!(Tool::Rotating(r).get_degree(), 0);
    assert_eq!(Tool::Turning(t).get_degree(), 95_000);
}

#[test]
fn category_labels() {
    assert_eq!(RotatingToolCategory::TSlotCutter.to_string(), "T-Slot Cutter");
    assert_eq!(RotatingToolCategory::BallNoseMill.to_string(), "Ball Nose");
    assert_eq!(TurningToolCategory::GroovingPartingTool.to_string(), "Grooving/Parting");
    assert_eq!(Handedness::Left.to_string(), "Left");
    assert_eq!(
        RotatingHolderCategory::Tapping(TappingSubcategory::TensionCompression).to_string(),
        "Tension Compression"
    );
    assert_eq!(TurningHolderCategory::Threading(ThreadingSubcategory::Internal).to_string(), "Internal");
    assert_eq!(TurningHolderCategory::Empty.to_string(), "Empty");
    assert_eq!(RotatingToolCategory::all().len(), 12);
    assert_eq!(TurningToolCategory::all()[7], TurningToolCategory::FormTool);
}

#[test]
fn category_of_a_tool() {
    let mut r = RotatingTool::default();
    r.category = RotatingToolCategory::Reamer;
    assert_eq!(Tool::Rotating(r).get_rotating_tool_category(), Some(RotatingToolCategory::Reamer));
    assert_eq!(turning("t").get_rotating_tool_category(), None);
}

fn with_diameter(id: &str, d: u32) -> Tool {
    let mut t = RotatingTool::default();
    t.uuid = id.to_string();
    t.cutting_diameter = d;
    Tool::Rotating(t)
}

fn with_angle(id: &str, a: i32) -> Tool {
    let mut t = TurningTool::default();
    t.uuid = id.to_string();
    t.cutting_edge_angle = a;
    Tool::Turning(t)
}

#[test]
fn sorting_rotating_tools_by_diameter() {
    let mut items = vec![
        with_diameter("a", 8_000),
        with_angle("t", 5_000),
        with_diameter("b", 2_000),
        with_diameter("c", 8_000),
        with_diameter("d", 1_000),
    ];
    sort_and_filter_items(LibraryViewState::Tool, FilterState::RotatingToolCategory, SortState::Diameter, &mut items);
    assert_eq!(ids_of_tools(&items), vec!["d", "b", "a", "c"]);
}

#[test]
fn sorting_turning_tools_by_angle_and_by_index() {
    let start = vec![with_angle("x", 90_000), with_diameter("r", 1), with_angle("y", -15_000), with_angle("z", 45_000)];
    let mut items = start.clone();
    sort_and_filter_items(LibraryViewState::Tool, FilterState::TurningToolCategory, SortState::Degree, &mut items);
    assert_eq!(ids_of_tools(&items), vec!["y", "z", "x"]);
    let mut items = start.clone();
    sort_and_filter_items(LibraryViewState::Holder, FilterState::TurningHolderCategory, SortState::Index, &mut items);
    assert_eq!(ids_of_tools(&items), vec!["x", "y", "z"]);
    let mut items = start;
    sort_and_filter_items(LibraryViewState::Tool, FilterState::ShowAll, SortState::Index, &mut items);
    assert!(items.is_empty());
}

#[test]
fn filters_offered_per_view() {
    assert_eq!(
        filter_options(LibraryViewState::Tool),
        vec![FilterState::ShowAll, FilterState::RotatingToolCategory, FilterState::TurningToolCategory]
    );
    assert_eq!(
        filter_options(LibraryViewState::Holder),
        vec![FilterState::ShowAll, FilterState::RotatingHolderCategory, FilterState::TurningHolderCategory]
    );
}

#[test]
fn sorting_keeps_the_order_of_equal_keys() {
    let mut items = vec![
        with_diameter("p", 5_000),
        with_diameter("q", 3_000),
        with_diameter("r", 5_000),
        with_diameter("s", 3_000),
        with_diameter("t", 5_000),
    ];
    sort_and_filter_items(LibraryViewState::Holder, FilterState::RotatingHolderCategory, SortState::Diameter, &mut items);
    assert_eq!(ids_of_tools(&items), vec!["q", "s", "p", "r", "t"]);
}
