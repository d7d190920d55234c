use gallifreyan::plugins::text_converter::letter::consonant::{
    Consonant, ConsonantCluster, ConsonantDecoration, ConsonantDecorationT, ConsonantPlacement,
    ConsonantPlacementT, Digraph,
};
use gallifreyan::plugins::text_converter::letter::vocal::{Vocal, VocalDecoration, VocalPlacement};
use gallifreyan::plugins::text_converter::letter::{Decorated, Letter};

#[test]
fn vocals_parse_ignoring_case() {
    assert_eq!(Vocal::try_from("a"), Ok(Vocal::A));
    assert_eq!(Vocal::try_from("E"), Ok(Vocal::E));
    assert_eq!(Vocal::try_from("u"), Ok(Vocal::U));
    assert_eq!(Vocal::try_from("b"), Err("'b' it is not a valid vocal!".to_string()));
    assert_eq!(Vocal::try_from("aa"), Err("'aa' it is not a valid vocal!".to_string()));
}

#[test]
fn vocals_are_named_in_upper_case() {
    assert_eq!(Vocal::A.to_string(), "A");
    assert_eq!(Vocal::O.to_string(), "O");
    assert_eq!(Vocal::U.to_string(), "U");
}

#[test]
fn consonants_parse_ignoring_case() {
    assert_eq!(Consonant::try_from("b"), Ok(Consonant::B));
    assert_eq!(Consonant::try_from("S"), Ok(Consonant::S));
    assert_eq!(Consonant::try_from("a"), Err("'a' is not a valid grapheme!".to_string()));
    assert_eq!(Consonant::try_from("th"), Err("'th' is not a valid grapheme!".to_string()));
}

#[test]
fn digraphs_parse_ignoring_case() {
    assert_eq!(Digraph::try_from("th"), Ok(Digraph::TH));
    assert_eq!(Digraph::try_from("nG"), Ok(Digraph::NG));
    assert_eq!(Digraph::try_from("tt"), Err("'tt' is not a valid digraph!".to_string()));
    assert_eq!(Digraph::try_from("t"), Err("'t' is not a valid digraph!".to_string()));
}

#[test]
fn clusters_parse_by_byte_length() {
    assert_eq!(ConsonantCluster::try_from("k"), Ok(ConsonantCluster::Single(Consonant::K)));
    assert_eq!(ConsonantCluster::try_from("QU"), Ok(ConsonantCluster::Digraph(Digraph::QU)));
    assert_eq!(ConsonantCluster::try_from("e"), Err("'e' is not a valid grapheme!".to_string()));
    assert_eq!(ConsonantCluster::try_from("xy"), Err("'xy' is not a valid digraph!".to_string()));
    // One character of two bytes is read as a digraph.
    assert_eq!(ConsonantCluster::try_from("ä"), Err("'ä' is not a valid digraph!".to_string()));
    assert_eq!(
        ConsonantCluster::try_from("sch"),
        Err("'sch' is not a valid consonant!".to_string())
    );
    assert_eq!(ConsonantCluster::try_from(""), Err("'' is not a valid consonant!".to_string()));
}

#[test]
fn letters_parse_vocals_first() {
    assert_eq!(Letter::try_from("o"), Ok(Letter::Vocal(Vocal::O)));
    assert_eq!(Letter::try_from("Sh"), Ok(Letter::from(Digraph::SH)));
    assert_eq!(Letter::try_from("m"), Ok(Letter::from(Consonant::M)));
    assert_eq!(
        Letter::try_from("1"),
        Err("Cannot assign letter to '1' as it is not a valid letter!".to_string())
    );
}

#[test]
fn letter_conversions_wrap_their_part() {
    assert_eq!(Letter::from(Vocal::I), Letter::Vocal(Vocal::I));
    assert_eq!(
        Letter::from(Consonant::B),
        Letter::Consonant(ConsonantCluster::Single(Consonant::B))
    );
    assert_eq!(
        Letter::from(ConsonantCluster::Digraph(Digraph::CH)),
        Letter::Consonant(ConsonantCluster::Digraph(Digraph::CH))
    );
    assert_eq!(ConsonantCluster::from(Digraph::WH), ConsonantCluster::Digraph(Digraph::WH));
}

#[test]
fn cutting_letters_are_deep_or_shallow() {
    assert!(Letter::from(Consonant::B).is_cutting());
    assert!(Letter::from(Consonant::T).is_cutting());
    assert!(!Letter::from(Consonant::J).is_cutting());
    assert!(!Letter::from(Digraph::TH).is_cutting());
    assert!(!Letter::Vocal(Vocal::A).is_cutting());
}

#[test]
fn placements_follow_the_alphabet() {
    assert_eq!(ConsonantPlacement::from(Consonant::B), ConsonantPlacement::DeepCut);
    assert_eq!(ConsonantPlacement::from(Consonant::J), ConsonantPlacement::Inside);
    assert_eq!(ConsonantPlacement::from(Consonant::T), ConsonantPlacement::ShallowCut);
    assert_eq!(ConsonantPlacement::from(Digraph::TH), ConsonantPlacement::OnLine);
    assert_eq!(Digraph::CH.placement(), ConsonantPlacement::DeepCut);
    assert_eq!(Consonant::Y.placement(), ConsonantPlacement::OnLine);
    assert_eq!(
        ConsonantCluster::Digraph(Digraph::SH).placement(),
        ConsonantPlacement::ShallowCut
    );
    assert_eq!(VocalPlacement::from(Vocal::A), VocalPlacement::Outside);
    assert_eq!(VocalPlacement::from(Vocal::O), VocalPlacement::Inside);
    assert_eq!(VocalPlacement::from(Vocal::E), VocalPlacement::OnLine);
}

#[test]
fn decorations_give_dots_and_lines() {
    assert_eq!(ConsonantDecoration::from(Consonant::K), ConsonantDecoration::DoubleDot);
    assert_eq!(Digraph::NG.decoration(), ConsonantDecoration::TripleLine);
    assert_eq!(Consonant::C.decoration().dots(), 4);
    assert_eq!(Consonant::C.decoration().lines(), 0);
    assert_eq!(Consonant::X.decoration().lines(), 2);
    assert_eq!(VocalDecoration::from(Vocal::I), VocalDecoration::LineInside);
    assert_eq!(VocalDecoration::from(Vocal::U), VocalDecoration::LineOutside);
    assert_eq!(VocalDecoration::from(Vocal::A).lines(), 0);
    assert_eq!(VocalDecoration::from(Vocal::U).lines(), 1);
    assert_eq!(Letter::from(Digraph::GH).dots(), 1);
    assert_eq!(Letter::from(Consonant::S).lines(), 3);
    assert_eq!(Letter::Vocal(Vocal::I).lines(), 1);
    assert_eq!(Letter::Vocal(Vocal::I).dots(), 0);
}

#[test]
fn a_letter_has_dots_or_lines_but_not_both() {
    for text in ["a", "e", "i", "o", "u", "b", "k", "d", "c", "g", "h", "f", "ph", "ch", "qu", "ng"] {
        let letter = Letter::try_from(text).unwrap();
        assert!(letter.dots() == 0 || letter.lines() == 0, "{}", text);
    }
}
