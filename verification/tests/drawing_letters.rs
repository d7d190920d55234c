use gallifreyan::image_types::{cutting_letters, Decoration, Placement};
use gallifreyan::plugins::text_converter::components::letter::{
    Consonant, ConsonantDecoration, ConsonantPlacement, Letter, NestingRules, NestingSettings, Vocal,
};
use gallifreyan::plugins::text_converter::letter::vocal::Vocal as TextVocal;
use gallifreyan::plugins::text_converter::letter::Letter as TextLetter;
use gallifreyan::plugins::text_converter::line_slot::{drawn_line_points_outside, line_points_outside};

#[test]
fn drawing_consonants_include_digraphs() {
    assert_eq!(Consonant::try_from("th"), Ok(Consonant::TH));
    assert_eq!(Consonant::try_from("NG"), Ok(Consonant::NG));
    assert_eq!(Consonant::try_from("b"), Ok(Consonant::B));
    assert_eq!(Consonant::try_from("a"), Err("'a' is not a valid consonant!".to_string()));
    assert_eq!(Consonant::try_from("bb"), Err("'bb' is not a valid consonant!".to_string()));
}

#[test]
fn drawing_letters_parse_vocals_then_consonants() {
    assert_eq!(Letter::try_from("A"), Ok(Letter::Vocal(Vocal::A)));
    assert_eq!(Letter::try_from("qu"), Ok(Letter::Consonant(Consonant::QU)));
    assert_eq!(
        Letter::try_from("?"),
        Err("Cannot assign letter to '?' as it is not a valid letter!".to_string())
    );
    assert_eq!(Letter::default(), Letter::Consonant(Consonant::B));
}

#[test]
fn drawing_letters_cut_and_decorate_by_their_consonant() {
    let nested = Letter::ConsonantWithVocal { consonant: Consonant::D, vocal: Vocal::I };
    assert!(nested.is_cutting());
    assert_eq!(nested.dots(), 3);
    assert_eq!(nested.lines(), 0);
    assert!(!Letter::Vocal(Vocal::I).is_cutting());
    assert_eq!(Letter::Vocal(Vocal::I).lines(), 1);
    assert!(!Letter::Consonant(Consonant::J).is_cutting());
    assert_eq!(ConsonantPlacement::from(Consonant::WH), ConsonantPlacement::ShallowCut);
    assert_eq!(ConsonantDecoration::from(Consonant::PH), ConsonantDecoration::SingleDot);
    assert_eq!(ConsonantDecoration::from(Consonant::M).lines(), 3);
    assert_eq!(ConsonantDecoration::from(Consonant::Q).dots(), 4);
}

#[test]
fn nesting_settings_decide_by_pair() {
    let mut rules = NestingRules::new();
    assert!(!rules.contains(Consonant::B, Vocal::O));
    assert!(rules.insert(Consonant::B, Vocal::O));
    assert!(!rules.insert(Consonant::B, Vocal::O));
    assert!(rules.contains(Consonant::B, Vocal::O));
    assert!(!rules.contains(Consonant::B, Vocal::A));

    let custom = NestingSettings::Custom(rules);
    assert!(custom.can_nest(Consonant::B, Vocal::O));
    assert!(!custom.can_nest(Consonant::SH, Vocal::O));
    assert!(NestingSettings::All.can_nest(Consonant::SH, Vocal::A));
    assert!(!NestingSettings::Never.can_nest(Consonant::B, Vocal::O));
}

#[test]
fn line_slots_point_outside_only_for_outer_vocal_lines() {
    assert!(!line_points_outside(None));
    assert!(line_points_outside(Some(TextLetter::Vocal(TextVocal::U))));
    assert!(!line_points_outside(Some(TextLetter::Vocal(TextVocal::I))));
    assert!(drawn_line_points_outside(Letter::Vocal(Vocal::U)));
    assert!(!drawn_line_points_outside(Letter::Vocal(Vocal::I)));
    assert!(!drawn_line_points_outside(Letter::Consonant(Consonant::G)));
}

#[test]
fn image_placements_follow_the_alphabet() {
    assert_eq!(Placement::try_from("b"), Ok(Placement::DeepCut));
    assert_eq!(Placement::try_from("ph"), Ok(Placement::Inside));
    assert_eq!(Placement::try_from("wh"), Ok(Placement::ShallowCut));
    assert_eq!(Placement::try_from("ng"), Ok(Placement::OnLine));
    assert_eq!(Placement::try_from("o"), Ok(Placement::Inside));
    assert_eq!(Placement::try_from("a"), Ok(Placement::Outside));
    assert_eq!(Placement::try_from("i"), Ok(Placement::OnLine));
    assert_eq!(
        Placement::try_from("B"),
        Err("Cannot assign placement to 'B' as it is not a valid letter!".to_string())
    );
}

#[test]
fn image_decorations_give_dots_and_lines() {
    assert_eq!(Decoration::try_from("gh"), Ok(Decoration::SingleDot));
    assert_eq!(Decoration::try_from("y"), Ok(Decoration::DoubleDot));
    assert_eq!(Decoration::try_from("i"), Ok(Decoration::LineInside));
    assert_eq!(Decoration::try_from("e"), Ok(Decoration::Undecorated));
    assert_eq!(
        Decoration::try_from("xyz"),
        Err("Cannot assign decoration to 'xyz' as it is not a valid letter!".to_string())
    );
    assert_eq!(Decoration::QuadrupleDot.dots(), 4);
    assert_eq!(Decoration::TripleLine.lines(), 3);
    assert_eq!(Decoration::LineOutside.lines(), 1);
    assert_eq!(Decoration::SingleDot.lines(), 0);
    assert!(!Decoration::LineInside.line_points_outside());
    assert!(Decoration::LineOutside.line_points_outside());
}

#[test]
fn exported_words_are_cut_by_deep_and_shallow_letters() {
    assert!(Placement::DeepCut.cuts());
    assert!(Placement::ShallowCut.cuts());
    assert!(!Placement::Inside.cuts());
    assert!(!Placement::OnLine.cuts());
    assert!(!Placement::Outside.cuts());
    let placements = vec![
        Placement::Inside,
        Placement::DeepCut,
        Placement::Outside,
        Placement::ShallowCut,
    ];
    assert_eq!(cutting_letters(&placements), vec![1, 3]);
    assert!(cutting_letters(&vec![Placement::OnLine]).is_empty());
}

#[test]
fn both_letter_models_read_the_same_texts() {
    for text in ["a", "O", "b", "Th", "tH", "ng", "q", "qu", "x", "", "ä", "th ", "sch", "1", "aa"] {
        assert_eq!(
            Letter::try_from(text).is_ok(),
            TextLetter::try_from(text).is_ok(),
            "{}",
            text
        );
    }
}

#[test]
fn image_tables_agree_with_the_drawing_tables() {
    for (text, consonant) in [("b", Consonant::B), ("ph", Consonant::PH), ("sh", Consonant::SH), ("x", Consonant::X)] {
        let letter = Letter::Consonant(consonant);
        let decoration = Decoration::try_from(text).unwrap();
        assert_eq!(decoration.dots(), letter.dots());
        assert_eq!(decoration.lines(), letter.lines());
        assert_eq!(Placement::try_from(text).unwrap().cuts(), letter.is_cutting());
    }
}
