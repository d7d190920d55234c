use gallifreyan::plugins::text_converter::children::{
    plan_children, plan_text_children, ChildChange, TextChildChange,
};
use gallifreyan::plugins::text_converter::letter::split_word_to_letters;
use gallifreyan::plugins::text_converter::sentence::{
    convert_sentence_action, join_letter_graphemes, sanitize_sentence, set_sentence_action, SentenceAction,
    SentenceLookupError,
};

/// The sentence entities of a world: the text of each.
fn apply(sentences: &mut Vec<String>, text: &str) {
    let current = match sentences.len() {
        0 => Err(SentenceLookupError::NoEntities),
        1 => Ok(sentences[0].as_str()),
        _ => Err(SentenceLookupError::MultipleEntities),
    };
    match convert_sentence_action(current, text) {
        SentenceAction::Keep | SentenceAction::ReportMultiple => {}
        SentenceAction::Despawn => sentences.clear(),
        SentenceAction::Update(t) => sentences[0] = t,
        SentenceAction::Spawn(t) => sentences.push(t),
    }
}

/// Sets `before_text`, then `after_text`, and gives the sentences after each.
fn update(before_text: &str, after_text: &str) -> (Vec<String>, Vec<String>) {
    let mut sentences = Vec::new();
    apply(&mut sentences, before_text);
    let before = sentences.clone();
    apply(&mut sentences, after_text);
    (before, sentences)
}

#[test]
fn should_sanitize() {
    let result = sanitize_sentence(
        "äöüy̆+*~#'私i#あ-_.:,;<>|@n€^°1!2²\"3§³4$5v%6한글&7/{a8([9)l]0=i}ßd?\\´`     text",
    );

    let expected = "invalid text";

    assert_eq!(result, expected);
}

#[test]
fn should_spawn_sentence() {
    let (before, _after) = update("my sentence", "my sentence");
    assert_eq!(before.len(), 1);
    assert_eq!(before[0], "my sentence");
}

#[test]
fn should_remove_sentence() {
    let (_before, after) = update("my sentence", "");
    assert_eq!(after.len(), 0);
}

#[test]
fn should_despawn_children() {
    let mut sentences = Vec::new();
    apply(&mut sentences, "my sentence");
    let words = plan_children(0, 2);
    assert_eq!(words.len(), 2);
    apply(&mut sentences, "");
    // The sentence goes with all its descendants.
    assert_eq!(sentences.len(), 0);
}

#[test]
fn should_update_sentence_text() {
    let (_before, after) = update("sentence", "sent");
    assert_eq!(after.len(), 1);
    assert_eq!(after[0], "sent");
}

#[test]
fn sanitize_keeps_letters_and_single_spaces() {
    assert_eq!(sanitize_sentence("  Hello,   World!  "), "Hello World");
    assert_eq!(sanitize_sentence(""), "");
    assert_eq!(sanitize_sentence("a1 b2"), "a b");
}

#[test]
fn sanitize_keeps_a_word_that_lost_all_letters_as_empty() {
    // Each word stays in place, even when nothing of it is a letter.
    assert_eq!(sanitize_sentence("ab 12 cd"), "ab  cd");
}

#[test]
fn set_sentence_spawns_updates_keeps_and_despawns() {
    assert_eq!(
        set_sentence_action(Err(SentenceLookupError::NoEntities), "my sentence!"),
        SentenceAction::Spawn("my sentence".to_string())
    );
    assert_eq!(
        set_sentence_action(Err(SentenceLookupError::NoEntities), "!!"),
        SentenceAction::Keep
    );
    assert_eq!(
        set_sentence_action(Ok("old"), "new"),
        SentenceAction::Update("new".to_string())
    );
    assert_eq!(set_sentence_action(Ok("same"), "same"), SentenceAction::Keep);
    assert_eq!(set_sentence_action(Ok("old"), "  "), SentenceAction::Despawn);
    assert_eq!(
        set_sentence_action(Err(SentenceLookupError::MultipleEntities), "x"),
        SentenceAction::ReportMultiple
    );
}

#[test]
fn setting_a_sentence_twice_settles() {
    let first = set_sentence_action(Err(SentenceLookupError::NoEntities), "Hi, you");
    assert_eq!(first, SentenceAction::Spawn("Hi you".to_string()));
    assert_eq!(set_sentence_action(Ok("Hi you"), "Hi, you"), SentenceAction::Keep);
}

#[test]
fn convert_sentence_takes_text_as_it_is() {
    assert_eq!(
        convert_sentence_action(Err(SentenceLookupError::NoEntities), "a b"),
        SentenceAction::Spawn("a b".to_string())
    );
    assert_eq!(
        convert_sentence_action(Ok("a"), "a"),
        SentenceAction::Update("a".to_string())
    );
    assert_eq!(convert_sentence_action(Ok("a"), ""), SentenceAction::Despawn);
    assert_eq!(
        convert_sentence_action(Err(SentenceLookupError::MultipleEntities), "a"),
        SentenceAction::ReportMultiple
    );
}

#[test]
fn children_follow_the_wanted_count() {
    assert_eq!(
        plan_children(3, 1),
        vec![
            ChildChange::Keep { existing: 0, sibling_index: 0 },
            ChildChange::Remove { existing: 1 },
            ChildChange::Remove { existing: 2 },
        ]
    );
    assert_eq!(
        plan_children(1, 3),
        vec![
            ChildChange::Keep { existing: 0, sibling_index: 0 },
            ChildChange::Add { sibling_index: 1 },
            ChildChange::Add { sibling_index: 2 },
        ]
    );
    assert!(plan_children(0, 0).is_empty());
}

#[test]
fn only_letter_clusters_are_joined() {
    let clusters: Vec<String> = ["y\u{306}", "t", "h", "1", "sh", "\u{e4}", "A"]
        .iter()
        .map(|c| c.to_string())
        .collect();
    assert_eq!(join_letter_graphemes(&clusters), "thshA");
    assert_eq!(join_letter_graphemes(&Vec::new()), "");
}

#[test]
fn words_of_a_sanitized_sentence_split_into_letters() {
    let sentence = sanitize_sentence("Thé quick, brown fox!");
    assert_eq!(sentence, "Th quick brown fox");
    let letters: usize = sentence
        .split_whitespace()
        .map(|word| split_word_to_letters(word).len())
        .sum();
    assert_eq!(letters, 1 + 4 + 5 + 3);
}

#[test]
fn children_take_the_new_texts_in_order() {
    let existing: Vec<String> = ["a", "b", "c"].iter().map(|t| t.to_string()).collect();
    let new_texts: Vec<String> = ["a", "x"].iter().map(|t| t.to_string()).collect();
    let plan = plan_text_children(&existing, &new_texts);
    assert_eq!(
        plan,
        vec![
            TextChildChange::Keep { existing: 0, sibling_index: 0, new_text: None },
            TextChildChange::Keep { existing: 1, sibling_index: 1, new_text: Some("x".to_string()) },
            TextChildChange::Remove { existing: 2 },
        ]
    );
    let mut texts: Vec<String> = Vec::new();
    for change in plan_text_children(&new_texts, &existing) {
        match change {
            TextChildChange::Keep { existing: e, new_text, .. } => {
                texts.push(new_text.unwrap_or_else(|| new_texts[e].clone()))
            }
            TextChildChange::Remove { .. } => {}
            TextChildChange::Add { text, .. } => texts.push(text),
        }
    }
    assert_eq!(texts, existing);
}
