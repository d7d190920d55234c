use gallifreyan::plugins::text_converter::letter::combinator::{CombineLetters, LetterText};
use gallifreyan::plugins::text_converter::letter::consonant::{Consonant, Digraph};
use gallifreyan::plugins::text_converter::letter::{is_letter_text, split_word_to_letters};
use gallifreyan::plugins::text_converter::letter::vocal::Vocal;
use gallifreyan::plugins::text_converter::letter::Letter;

fn lt(text: &str, letter: impl Into<Letter>) -> LetterText {
    LetterText::new(text, letter.into())
}

#[test]
fn should_split_lower_case_word() {
    let result: Vec<LetterText> =
        split_word_to_letters("aeioubjtthphwhghchkshydlrzcqgnvquhpwxfmsng");

    let expected = [
        lt("a", Vocal::A),
        lt("e", Vocal::E),
        lt("i", Vocal::I),
        lt("o", Vocal::O),
        lt("u", Vocal::U),
        lt("b", Consonant::B),
        lt("j", Consonant::J),
        lt("t", Consonant::T),
        lt("th", Digraph::TH),
        lt("ph", Digraph::PH),
        lt("wh", Digraph::WH),
        lt("gh", Digraph::GH),
        lt("ch", Digraph::CH),
        lt("k", Consonant::K),
        lt("sh", Digraph::SH),
        lt("y", Consonant::Y),
        lt("d", Consonant::D),
        lt("l", Consonant::L),
        lt("r", Consonant::R),
        lt("z", Consonant::Z),
        lt("c", Consonant::C),
        lt("q", Consonant::Q),
        lt("g", Consonant::G),
        lt("n", Consonant::N),
        lt("v", Consonant::V),
        lt("qu", Digraph::QU),
        lt("h", Consonant::H),
        lt("p", Consonant::P),
        lt("w", Consonant::W),
        lt("x", Consonant::X),
        lt("f", Consonant::F),
        lt("m", Consonant::M),
        lt("s", Consonant::S),
        lt("ng", Digraph::NG),
    ];

    assert_eq!(result, expected);
}

#[test]
fn should_split_upper_case_word() {
    let result: Vec<LetterText> =
        split_word_to_letters("AEIOUBJTTHPHWHGHCHKSHYDLRZCQGNVQUHPWXFMSNG");

    let expected = [
        lt("A", Vocal::A),
        lt("E", Vocal::E),
        lt("I", Vocal::I),
        lt("O", Vocal::O),
        lt("U", Vocal::U),
        lt("B", Consonant::B),
        lt("J", Consonant::J),
        lt("T", Consonant::T),
        lt("TH", Digraph::TH),
        lt("PH", Digraph::PH),
        lt("WH", Digraph::WH),
        lt("GH", Digraph::GH),
        lt("CH", Digraph::CH),
        lt("K", Consonant::K),
        lt("SH", Digraph::SH),
        lt("Y", Consonant::Y),
        lt("D", Consonant::D),
        lt("L", Consonant::L),
        lt("R", Consonant::R),
        lt("Z", Consonant::Z),
        lt("C", Consonant::C),
        lt("Q", Consonant::Q),
        lt("G", Consonant::G),
        lt("N", Consonant::N),
        lt("V", Consonant::V),
        lt("QU", Digraph::QU),
        lt("H", Consonant::H),
        lt("P", Consonant::P),
        lt("W", Consonant::W),
        lt("X", Consonant::X),
        lt("F", Consonant::F),
        lt("M", Consonant::M),
        lt("S", Consonant::S),
        lt("NG", Digraph::NG),
    ];

    assert_eq!(result, expected);
}

#[test]
fn should_split_mixed_case_digraph_letters() {
    let result: Vec<LetterText> = split_word_to_letters("tHThpHPhwHWhgHGhcHChsHShqUQunGNg");

    let expected = [
        lt("tH", Digraph::TH),
        lt("Th", Digraph::TH),
        lt("pH", Digraph::PH),
        lt("Ph", Digraph::PH),
        lt("wH", Digraph::WH),
        lt("Wh", Digraph::WH),
        lt("gH", Digraph::GH),
        lt("Gh", Digraph::GH),
        lt("cH", Digraph::CH),
        lt("Ch", Digraph::CH),
        lt("sH", Digraph::SH),
        lt("Sh", Digraph::SH),
        lt("qU", Digraph::QU),
        lt("Qu", Digraph::QU),
        lt("nG", Digraph::NG),
        lt("Ng", Digraph::NG),
    ];

    assert_eq!(result, expected);
}

#[test]
fn split_empty_word_gives_no_letters() {
    assert!(split_word_to_letters("").is_empty());
}

#[test]
fn split_joins_each_pair_once() {
    // A digraph takes its two letters; what follows starts afresh.
    let result = split_word_to_letters("thhng");
    let expected = [lt("th", Digraph::TH), lt("h", Consonant::H), lt("ng", Digraph::NG)];
    assert_eq!(result, expected);
}

#[test]
fn combinator_gives_letters_one_at_a_time() {
    let letters = vec![
        lt("q", Consonant::Q),
        lt("u", Vocal::U),
        lt("a", Vocal::A),
        lt("n", Consonant::N),
        lt("g", Consonant::G),
    ];
    let mut combinator = letters.combine();
    assert_eq!(combinator.next(), Some(lt("qu", Digraph::QU)));
    assert_eq!(combinator.next(), Some(lt("a", Vocal::A)));
    assert_eq!(combinator.collect_letters(), vec![lt("ng", Digraph::NG)]);
}

#[test]
fn combinator_ends_with_none() {
    let mut combinator = vec![lt("h", Consonant::H)].combine();
    assert_eq!(combinator.next(), Some(lt("h", Consonant::H)));
    assert_eq!(combinator.next(), None);
    assert_eq!(combinator.next(), None);
}

#[test]
fn split_letters_spell_the_word() {
    let word = "ThisQuicKnGhost";
    let text: String = split_word_to_letters(word).iter().map(|l| l.text.as_str()).collect();
    assert_eq!(text, word);
}

#[test]
fn combining_split_letters_again_changes_nothing() {
    let once = split_word_to_letters("tthngqquhh");
    let again: Vec<LetterText> = split_word_to_letters("tthngqquhh").combine().collect_letters();
    assert_eq!(once, again);
}

#[test]
fn vocal_names_read_back_as_the_vocal() {
    for vocal in [Vocal::A, Vocal::E, Vocal::I, Vocal::O, Vocal::U] {
        assert_eq!(Vocal::try_from(vocal.to_string().as_str()), Ok(vocal));
    }
}

#[test]
fn letter_texts_are_made_of_letters_only() {
    assert!(is_letter_text("Gallifreyan"));
    assert!(is_letter_text(""));
    assert!(!is_letter_text("tea time"));
    assert!(!is_letter_text("\u{e9}t\u{e9}"));
}
