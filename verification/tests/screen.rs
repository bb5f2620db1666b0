use swim_idle::swimmer::Swimmer;
use swim_idle::ui::center_padding;
use swim_idle::ui::display::header::{
    new_swimmer_text, right_aligned_column, swimmers_text, total_lengths_text, HEADER_HEIGHT,
};
use swim_idle::ui::display::swimmers::{
    lane_padding, lane_text, lane_width, position_in_lane, speed_class, stats_text, SpeedClass,
    LANE_MARGIN,
};
use swim_idle::ui::messages::{
    message_padding, message_row, new_swimmer_message, upgrade_message,
};

fn swimmer(name: &str, speed_tenths: usize, lengths: i32, upgrade_cost: usize) -> Swimmer {
    let mut s = Swimmer::new(name, speed_tenths);
    s.lengths = lengths;
    s.upgrade_cost = upgrade_cost;
    s
}

#[test]
fn center_padding_is_half_the_free_space() {
    assert_eq!(center_padding(10, 20), 5);
    assert_eq!(center_padding(10, 21), 5);
    assert_eq!(center_padding(11, 20), 4);
    assert_eq!(center_padding(0, 80), 40);
    assert_eq!(center_padding(1, usize::MAX), (usize::MAX - 1) / 2);
}

#[test]
fn center_padding_is_zero_when_the_text_does_not_fit() {
    assert_eq!(center_padding(20, 20), 0);
    assert_eq!(center_padding(21, 20), 0);
    assert_eq!(center_padding(usize::MAX, 0), 0);
    assert_eq!(center_padding(0, 0), 0);
}

#[test]
fn center_padding_through_its_own_module() {
    assert_eq!(swim_idle::ui::utils::center_padding(4, 10), 3);
}

#[test]
fn lane_width_leaves_the_margin_free() {
    assert_eq!(LANE_MARGIN, 10);
    assert_eq!(lane_width(80), 70);
    assert_eq!(lane_width(10), 0);
    assert_eq!(lane_width(9), 0);
    assert_eq!(lane_width(0), 0);
}

#[test]
fn lane_padding_centers_the_lane_with_its_walls() {
    assert_eq!(lane_padding(70, 80), 4);
    assert_eq!(lane_padding(0, 5), 1);
    assert_eq!(lane_padding(78, 80), 0);
    assert_eq!(lane_padding(usize::MAX, 80), 0);
}

#[test]
fn lane_text_is_water_between_walls() {
    assert_eq!(lane_text(0), "││");
    assert_eq!(lane_text(3), "│~~~│");
    assert_eq!(lane_text(70), format!("│{}│", "~".repeat(70)));
}

#[test]
fn position_in_lane_scales_the_position() {
    assert_eq!(position_in_lane(0, 70), 0);
    assert_eq!(position_in_lane(100, 70), 70);
    assert_eq!(position_in_lane(50, 70), 35);
    assert_eq!(position_in_lane(98, 70), 68);
    assert_eq!(position_in_lane(1, 70), 0);
    assert_eq!(position_in_lane(99, 0), 0);
    assert_eq!(position_in_lane(100, usize::MAX), usize::MAX);
    assert_eq!(position_in_lane(50, usize::MAX), usize::MAX / 2);
}

#[test]
fn speed_class_goes_by_the_whole_part_of_the_speed() {
    for (tenths, class) in [
        (1, SpeedClass::Slow),
        (7, SpeedClass::Slow),
        (19, SpeedClass::Slow),
        (20, SpeedClass::Medium),
        (39, SpeedClass::Medium),
        (40, SpeedClass::Fast),
        (1000, SpeedClass::Fast),
    ] {
        assert_eq!(speed_class(&swimmer("Dana", tenths, 0, 10)), class, "speed {}", tenths);
    }
}

#[test]
fn stats_text_lists_the_figures() {
    assert_eq!(
        stats_text(&swimmer("Ada Reed", 12, 3, 14), true),
        "➤ Ada Reed | Speed: 1.2 | Lengths: 3 | Next Upgrade: 14 lengths"
    );
    assert_eq!(
        stats_text(&swimmer("\"Flipper\" Stone", 7, -20, 10), false),
        "  \"Flipper\" Stone | Speed: 0.7 | Lengths: -20 | Next Upgrade: 10 lengths"
    );
}

#[test]
fn header_texts() {
    assert_eq!(HEADER_HEIGHT, 7);
    assert_eq!(total_lengths_text(0), "Total Lengths: 0");
    assert_eq!(total_lengths_text(1234), "Total Lengths: 1234");
    assert_eq!(total_lengths_text(-17), "Total Lengths: -17");
    assert_eq!(swimmers_text(1), "Swimmers: 1");
    assert_eq!(swimmers_text(12), "Swimmers: 12");
    assert_eq!(new_swimmer_text(25), "[ New Swimmer Cost: 25 lengths ]");
    assert_eq!(new_swimmer_text(184), "[ New Swimmer Cost: 184 lengths ]");
}

#[test]
fn right_aligned_column_keeps_one_column_free() {
    assert_eq!(right_aligned_column(11, 80), 68);
    assert_eq!(right_aligned_column(79, 80), 0);
    assert_eq!(right_aligned_column(80, 80), 0);
    assert_eq!(right_aligned_column(200, 80), 0);
    assert_eq!(right_aligned_column(0, 0), 0);
    assert_eq!(right_aligned_column(0, 80), 79);
}

#[test]
fn upgrade_message_after_a_success() {
    assert_eq!(
        upgrade_message(&swimmer("Ada Reed", 12, 0, 12), true),
        "✅ Ada Reed upgraded to speed 1.2!"
    );
}

#[test]
fn upgrade_message_after_a_failure() {
    assert_eq!(
        upgrade_message(&swimmer("Ada Reed", 7, 3, 10), false),
        "❌ Not enough lengths! Need 7 more for upgrade."
    );
    assert_eq!(
        upgrade_message(&swimmer("Ada Reed", 7, -20, 10), false),
        "❌ Not enough lengths! Need 30 more for upgrade."
    );
}

#[test]
fn new_swimmer_message_after_a_success() {
    assert_eq!(
        new_swimmer_message(&swimmer("Bo Stone", 7, 0, 10), true, None),
        "✅ New swimmer Bo Stone joined with speed 0.7!"
    );
}

#[test]
fn new_swimmer_message_after_a_failure() {
    assert_eq!(
        new_swimmer_message(&swimmer("Ada Reed", 7, 4, 10), false, Some(25)),
        "❌ Not enough lengths! Need 21 more for a new swimmer."
    );
    assert_eq!(
        new_swimmer_message(&swimmer("Ada Reed", 7, 4, 10), false, None),
        "❌ Not enough lengths! Need -4 more for a new swimmer."
    );
}

#[test]
fn message_padding_counts_the_frame() {
    assert_eq!(message_padding(44, 80), 15);
    assert_eq!(message_padding(74, 80), 0);
    assert_eq!(message_padding(80, 80), 0);
    assert_eq!(message_padding(usize::MAX, 80), 0);
}

#[test]
fn message_row_is_three_rows_above_the_bottom() {
    assert_eq!(message_row(24), 21);
    assert_eq!(message_row(3), 0);
    assert_eq!(message_row(2), 0);
    assert_eq!(message_row(0), 0);
}
