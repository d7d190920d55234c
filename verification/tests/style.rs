use gallifreyan::plugins::svg::style::{
    indent, CSSRule, Class, Selector, StrokeLineCap, Style, StyleRule,
    DEFAULT_INDENTATION_DEPTH,
};

/// The CSS text of the color `Color::PINK`.
const PINK: &str = "rgb(255, 20.4, 147.9)";

#[test]
fn should_create_style_tag() {
    let mut style = Style::new();

    let mut style_rule_1 = StyleRule::new();
    style_rule_1.selectors.push(Selector::Class("word".to_string()));
    style_rule_1.selectors.push(Selector::Tag("circle".to_string()));
    style_rule_1.rules.push(CSSRule::Fill(None));
    style_rule_1.rules.push(CSSRule::Stroke(Some(PINK.to_string())));
    style_rule_1.rules.push(CSSRule::StrokeWidth("2".to_string()));
    style_rule_1.rules.push(CSSRule::StrokeLineCap(StrokeLineCap::Round));

    let mut style_rule_2 = StyleRule::new();
    style_rule_2.selectors.push(Selector::Class("foo".to_string()));

    style_rule_2.rules.push(CSSRule::Fill(Some(PINK.to_string())));
    style_rule_2.rules.push(CSSRule::Stroke(None));

    style.push(style_rule_1);
    style.push(style_rule_2);

    let result = style.to_string();

    let expected = r#"<style>
    .word,
    circle {
        fill: none;
        stroke: rgb(255, 20.4, 147.9);
        stroke-width: 2;
        stroke-linecap: round;
    }
    .foo {
        fill: rgb(255, 20.4, 147.9);
        stroke: none;
    }
</style>"#;

    assert_eq!(result, expected);
}

#[test]
fn indent_prefixes_every_line() {
    assert_eq!(indent("a\nb", 1), "    a\n    b");
    assert_eq!(indent("a", 2), "        a");
    assert_eq!(indent("a\n", 1), "    a\n    ");
    assert_eq!(indent("x", 0), "x");
    assert_eq!(DEFAULT_INDENTATION_DEPTH, 1);
}

#[test]
fn selectors_are_written_as_css() {
    assert_eq!(Selector::Class("word".to_string()).to_string(), ".word");
    assert_eq!(Selector::Tag("circle".to_string()).to_string(), "circle");
}

#[test]
fn line_caps_are_written_as_css() {
    assert_eq!(StrokeLineCap::Butt.to_string(), "butt");
    assert_eq!(StrokeLineCap::Round.to_string(), "round");
    assert_eq!(StrokeLineCap::Square.to_string(), "square");
}

#[test]
fn declarations_are_written_as_css() {
    assert_eq!(CSSRule::Stroke(None).to_string(), "stroke: none;");
    assert_eq!(CSSRule::Fill(Some("red".to_string())).to_string(), "fill: red;");
    assert_eq!(CSSRule::StrokeWidth("1.5".to_string()).to_string(), "stroke-width: 1.5;");
    assert_eq!(
        CSSRule::StrokeLineCap(StrokeLineCap::Square).to_string(),
        "stroke-linecap: square;"
    );
}

#[test]
fn empty_style_has_only_its_tags() {
    assert_eq!(Style::new().to_string(), "<style>\n\n</style>");
}

#[test]
fn class_attribute_is_empty_for_no_class() {
    assert_eq!(Class("".to_string()).to_string(), "");
    assert_eq!(Class("word".to_string()).to_string(), "class=\"word\"");
}
