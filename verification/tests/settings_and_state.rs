use gallifreyan::menu_bar::settings::vocal_nesting::{
    convert_rules_string, rules_split_at_char_boundaries,
};
use gallifreyan::plugins::color_theme::{
    ColorTheme, Theme, ThemeColor, BACKGROUND_COLOR, DRAW_COLOR, SELECT_COLOR,
};
use gallifreyan::plugins::constraints::angle::{word_angle_bounds, AngleBound};
use gallifreyan::plugins::file::{file_handle_target, FileEvent, FileHandleAction, FileSlot};
use gallifreyan::plugins::selection::{selection_change, SelectedLookup, SelectionChange};
use gallifreyan::plugins::text_converter::components::letter::{Consonant, Vocal};

fn rules_error(text: &str) -> String {
    match convert_rules_string(text) {
        Ok(_) => panic!("'{}' was accepted", text),
        Err(e) => e,
    }
}

#[test]
fn nesting_rules_read_each_pair() {
    let rules = match convert_rules_string("bo,sha,THu") {
        Ok(rules) => rules,
        Err(e) => panic!("{}", e),
    };
    assert!(rules.contains(Consonant::B, Vocal::O));
    assert!(rules.contains(Consonant::SH, Vocal::A));
    assert!(rules.contains(Consonant::TH, Vocal::U));
    assert!(!rules.contains(Consonant::B, Vocal::A));
}

#[test]
fn nesting_rules_refuse_with_the_first_error() {
    assert_eq!(rules_error(""), "Rule can't be empty!");
    assert_eq!(rules_error("bo,"), "Rule can't be empty!");
    assert_eq!(rules_error("b"), "Not enough letters!");
    assert_eq!(rules_error("1"), "'1' is not a valid consonant!");
    assert_eq!(rules_error("ba,aa"), "'a' is not a valid consonant!");
    assert_eq!(rules_error("bx"), "'x' it is not a valid vocal!");
    assert_eq!(rules_error("bx,1"), "'x' it is not a valid vocal!");
}

#[test]
fn selection_follows_the_newest_choice() {
    assert_eq!(
        selection_change(SelectedLookup::One(1), Some(2)),
        SelectionChange::Move { from: 1, to: 2 }
    );
    assert_eq!(selection_change(SelectedLookup::One(1), Some(1)), SelectionChange::Unchanged);
    assert_eq!(selection_change(SelectedLookup::One(1), None), SelectionChange::Deselect(1));
    assert_eq!(selection_change(SelectedLookup::NoEntities, Some(7)), SelectionChange::Select(7));
    assert_eq!(selection_change(SelectedLookup::NoEntities, None), SelectionChange::Unchanged);
    assert_eq!(
        selection_change(SelectedLookup::MultipleEntities, Some(7)),
        SelectionChange::ReportMultiple
    );
}

#[test]
fn file_actions_pick_slot_and_event() {
    assert_eq!(file_handle_target(FileHandleAction::Open), (FileSlot::Ron, FileEvent::Load));
    assert_eq!(file_handle_target(FileHandleAction::Save), (FileSlot::Ron, FileEvent::Save));
    assert_eq!(file_handle_target(FileHandleAction::Export), (FileSlot::Svg, FileEvent::Export));
}

#[test]
fn word_angles_are_bounded_by_their_neighbours() {
    assert_eq!(word_angle_bounds(0, 1), (AngleBound::Start, AngleBound::End));
    assert_eq!(word_angle_bounds(0, 3), (AngleBound::Start, AngleBound::AngleOf(1)));
    assert_eq!(word_angle_bounds(1, 3), (AngleBound::AngleOf(0), AngleBound::AngleOf(2)));
    assert_eq!(word_angle_bounds(2, 3), (AngleBound::AngleOf(1), AngleBound::End));
}

#[test]
fn color_theme_gives_the_color_of_the_current_theme() {
    let white = ThemeColor { r: 255, g: 255, b: 255, a: 255 };
    let black = ThemeColor { r: 0, g: 0, b: 0, a: 255 };
    let mut theme = ColorTheme::default();
    assert_eq!(theme.current(), Theme::Dark);
    assert_eq!(theme.get(DRAW_COLOR), None);

    theme.insert(DRAW_COLOR, white, black);
    assert_eq!(theme.get(DRAW_COLOR), Some(white));
    theme.set_theme(Theme::Light);
    assert_eq!(theme.current(), Theme::Light);
    assert_eq!(theme.get(DRAW_COLOR), Some(black));
    assert_eq!(theme.get(SELECT_COLOR), None);

    theme.insert(DRAW_COLOR, black, white);
    assert_eq!(theme.get(DRAW_COLOR), Some(white));
    assert_eq!(BACKGROUND_COLOR, "BACKGROUND_COLOR");
}

#[test]
fn rules_are_split_at_char_boundaries_unless_a_rule_ends_in_a_wide_character() {
    assert!(rules_split_at_char_boundaries("bo,sha"));
    assert!(rules_split_at_char_boundaries(""));
    assert!(!rules_split_at_char_boundaries("ä"));
    assert!(!rules_split_at_char_boundaries("bä"));
    assert!(!rules_split_at_char_boundaries("bo,tä"));
    // Reading stops at the first refused rule, before a wide character is met.
    assert!(rules_split_at_char_boundaries("bx,tä"));
}
