//! The `<style>` element of the exported SVG.

use crate::text::{join, join_strings, pieces_of, split_on_char, string_views};
use vstd::prelude::*;

verus! {

/// How deep the rules of a style are indented.
pub const DEFAULT_INDENTATION_DEPTH: usize = 1;

/// The spaces that one level of indentation adds.
pub open spec fn indentation(depth: nat) -> Seq<char>
    decreases depth,
{
    if depth == 0 {
        seq![]
    } else {
        "    "@ + indentation((depth - 1) as nat)
    }
}

/// Every line of a text prefixed with the indentation.
pub open spec fn indented_lines(lines: Seq<Seq<char>>, depth: nat) -> Seq<Seq<char>> {
    lines.map_values(|l: Seq<char>| indentation(depth) + l)
}

/// A text with each of its lines indented.
pub open spec fn indented(text: Seq<char>, depth: nat) -> Seq<char> {
    join(indented_lines(pieces_of(text, '\n'), depth), "\n"@)
}

/// The indentation of the given depth.
fn indentation_string(depth: usize) -> (r: String)
    ensures
        r@ == indentation(depth as nat),
{
    let mut r = String::new();
    let mut i: usize = 0;
    while i < depth
        invariant
            i <= depth,
            r@ == indentation(i as nat),
        decreases depth - i,
    {
        let before = r;
        r = String::from_str("    ");
        r.append(before.as_str());
        i = i + 1;
    }
    r
}

/// Indents every line of a text by `depth` levels.
pub fn indent(text: &str, depth: usize) -> (r: String)
    ensures
        r@ == indented(text@, depth as nat),
{
    let lines = split_on_char(text, '\n');
    let prefix = indentation_string(depth);
    let mut out: Vec<String> = Vec::new();
    let mut i: usize = 0;
    while i < lines.len()
        invariant
            i <= lines.len(),
            prefix@ == indentation(depth as nat),
            string_views(out@) == indented_lines(string_views(lines@.take(i as int)), depth as nat),
        decreases lines.len() - i,
    {
        let ghost before = string_views(out@);
        let mut line = String::from_str(prefix.as_str());
        line.append(lines[i].as_str());
        out.push(line);
        proof {
            let done = string_views(lines@.take(i as int));
            let next = string_views(lines@.take(i + 1));
            assert(next =~= done.push(lines@[i as int]@));
            assert(string_views(out@) =~= before.push(indentation(depth as nat) + lines@[i as int]@));
            assert(indented_lines(next, depth as nat) =~= indented_lines(done, depth as nat).push(
                indentation(depth as nat) + lines@[i as int]@,
            ));
        }
        i = i + 1;
    }
    proof {
        assert(lines@.take(lines.len() as int) =~= lines@);
    }
    join_strings(&out, "\n")
}

#[derive(Debug, Clone)]
pub enum Selector {
    Class(String),
    Tag(String),
}

/// How a selector is written in CSS.
pub open spec fn selector_text(s: Selector) -> Seq<char> {
    match s {
        Selector::Class(class) => "."@ + class@,
        Selector::Tag(tag) => tag@,
    }
}

impl Selector {
    pub fn to_string(&self) -> (r: String)
        ensures
            r@ == selector_text(*self),
    {
        match self {
            Selector::Class(class) => {
                let mut r = String::from_str(".");
                r.append(class.as_str());
                r
            },
            Selector::Tag(tag) => String::from_str(tag.as_str()),
        }
    }
}

#[derive(Debug, Copy, Clone, PartialEq, Eq, Structural)]
pub enum StrokeLineCap {
    Butt,
    Round,
    Square,
}

/// How a line cap is written in CSS.
pub open spec fn line_cap_text(cap: StrokeLineCap) -> Seq<char> {
    match cap {
        StrokeLineCap::Butt => "butt"@,
        StrokeLineCap::Round => "round"@,
        StrokeLineCap::Square => "square"@,
    }
}

impl StrokeLineCap {
    pub fn to_string(&self) -> (r: String)
        ensures
            r@ == line_cap_text(*self),
    {
        match self {
            StrokeLineCap::Butt => String::from_str("butt"),
            StrokeLineCap::Round => String::from_str("round"),
            StrokeLineCap::Square => String::from_str("square"),
        }
    }
}

/// A CSS declaration. Colors and widths are held as the CSS text of their value
/// (`rgb(255, 20.4, 147.9)`, `2`); `None` is the color `none`.
#[derive(Debug, Clone)]
pub enum CSSRule {
    Stroke(Option<String>),
    Fill(Option<String>),
    StrokeWidth(String),
    StrokeLineCap(StrokeLineCap),
}

/// How a color is written in CSS.
pub open spec fn color_text(color: Option<String>) -> Seq<char> {
    match color {
        Some(c) => c@,
        None => "none"@,
    }
}

/// How a declaration is written in CSS.
pub open spec fn css_rule_text(rule: CSSRule) -> Seq<char> {
    match rule {
        CSSRule::Stroke(stroke) => "stroke: "@ + color_text(stroke) + ";"@,
        CSSRule::Fill(fill) => "fill: "@ + color_text(fill) + ";"@,
        CSSRule::StrokeWidth(width) => "stroke-width: "@ + width@ + ";"@,
        CSSRule::StrokeLineCap(cap) => "stroke-linecap: "@ + line_cap_text(cap) + ";"@,
    }
}

/// Writes `<name><value>;`.
fn declaration(name: &str, value: &str) -> (r: String)
    ensures
        r@ == name@ + value@ + ";"@,
{
    let mut r = String::from_str(name);
    r.append(value);
    r.append(";");
    r
}

/// The CSS text of a color.
fn color_string(color: &Option<String>) -> (r: String)
    ensures
        r@ == color_text(*color),
{
    match color {
        Some(c) => String::from_str(c.as_str()),
        None => String::from_str("none"),
    }
}

impl CSSRule {
    pub fn to_string(&self) -> (r: String)
        ensures
            r@ == css_rule_text(*self),
    {
        match self {
            CSSRule::Stroke(stroke) => declaration("stroke: ", color_string(stroke).as_str()),
            CSSRule::Fill(fill) => declaration("fill: ", color_string(fill).as_str()),
            CSSRule::StrokeWidth(width) => declaration("stroke-width: ", width.as_str()),
            CSSRule::StrokeLineCap(cap) => declaration(
                "stroke-linecap: ",
                cap.to_string().as_str(),
            ),
        }
    }
}

/// The CSS texts of selectors.
pub open spec fn selector_texts(s: Seq<Selector>) -> Seq<Seq<char>> {
    s.map_values(|x: Selector| selector_text(x))
}

/// The indented CSS texts of declarations.
pub open spec fn rule_texts(s: Seq<CSSRule>) -> Seq<Seq<char>> {
    s.map_values(|x: CSSRule| indented(css_rule_text(x), DEFAULT_INDENTATION_DEPTH as nat))
}

#[derive(Debug, Clone)]
pub struct StyleRule {
    pub selectors: Vec<Selector>,
    pub rules: Vec<CSSRule>,
}

/// How a rule is written: its selectors, one per line, then its declarations in a
/// block, each on an indented line.
pub open spec fn style_rule_text(rule: StyleRule) -> Seq<char> {
    join(selector_texts(rule.selectors@), ",\n"@) + " {\n"@ + join(
        rule_texts(rule.rules@),
        "\n"@,
    ) + "\n}"@
}

impl StyleRule {
    pub fn new() -> (r: Self)
        ensures
            r.selectors@.len() == 0,
            r.rules@.len() == 0,
    {
        Self { selectors: Vec::new(), rules: Vec::new() }
    }

    pub fn to_string(&self) -> (r: String)
        ensures
            r@ == style_rule_text(*self),
    {
        let mut selectors: Vec<String> = Vec::new();
        let mut i: usize = 0;
        while i < self.selectors.len()
            invariant
                i <= self.selectors.len(),
                string_views(selectors@) == selector_texts(self.selectors@.take(i as int)),
            decreases self.selectors.len() - i,
        {
            let ghost before = string_views(selectors@);
            selectors.push(self.selectors[i].to_string());
            proof {
                assert(self.selectors@.take(i + 1) =~= self.selectors@.take(i as int).push(
                    self.selectors@[i as int],
                ));
                assert(string_views(selectors@) =~= before.push(selector_text(self.selectors@[i as int])));
                assert(string_views(selectors@) =~= selector_texts(self.selectors@.take(i + 1)));
            }
            i = i + 1;
        }
        let mut rules: Vec<String> = Vec::new();
        let mut j: usize = 0;
        while j < self.rules.len()
            invariant
                j <= self.rules.len(),
                string_views(rules@) == rule_texts(self.rules@.take(j as int)),
            decreases self.rules.len() - j,
        {
            let ghost before = string_views(rules@);
            let text = self.rules[j].to_string();
            rules.push(indent(text.as_str(), DEFAULT_INDENTATION_DEPTH));
            proof {
                assert(self.rules@.take(j + 1) =~= self.rules@.take(j as int).push(
                    self.rules@[j as int],
                ));
                assert(string_views(rules@) =~= before.push(
                    indented(css_rule_text(self.rules@[j as int]), DEFAULT_INDENTATION_DEPTH as nat),
                ));
                assert(string_views(rules@) =~= rule_texts(self.rules@.take(j + 1)));
            }
            j = j + 1;
        }
        proof {
            assert(self.selectors@.take(self.selectors.len() as int) =~= self.selectors@);
            assert(self.rules@.take(self.rules.len() as int) =~= self.rules@);
        }
        let mut r = join_strings(&selectors, ",\n");
        r.append(" {\n");
        let body = join_strings(&rules, "\n");
        r.append(body.as_str());
        r.append("\n}");
        r
    }
}

/// The indented texts of style rules.
pub open spec fn style_rule_texts(s: Seq<StyleRule>) -> Seq<Seq<char>> {
    s.map_values(|x: StyleRule| indented(style_rule_text(x), DEFAULT_INDENTATION_DEPTH as nat))
}

#[derive(Debug, Clone)]
pub struct Style(pub Vec<StyleRule>);

/// How a style element is written: its rules, each indented, between the tags.
pub open spec fn style_text(style: Style) -> Seq<char> {
    "<style>\n"@ + join(
        style_rule_texts(style.0@),
        "\n"@,
    ) + "\n</style>"@
}

impl Style {
    pub fn new() -> (r: Self)
        ensures
            r.0@.len() == 0,
    {
        Self(Vec::new())
    }

    pub fn push(&mut self, rule: StyleRule)
        ensures
            final(self).0@ == old(self).0@.push(rule),
    {
        self.0.push(rule);
    }

    pub fn to_string(&self) -> (r: String)
        ensures
            r@ == style_text(*self),
    {
        let mut rules: Vec<String> = Vec::new();
        let mut i: usize = 0;
        while i < self.0.len()
            invariant
                i <= self.0.len(),
                string_views(rules@) == style_rule_texts(self.0@.take(i as int)),
            decreases self.0.len() - i,
        {
            let ghost before = string_views(rules@);
            let text = self.0[i].to_string();
            rules.push(indent(text.as_str(), DEFAULT_INDENTATION_DEPTH));
            proof {
                assert(self.0@.take(i + 1) =~= self.0@.take(i as int).push(self.0@[i as int]));
                assert(string_views(rules@) =~= before.push(
                    indented(style_rule_text(self.0@[i as int]), DEFAULT_INDENTATION_DEPTH as nat),
                ));
                assert(string_views(rules@) =~= style_rule_texts(self.0@.take(i + 1)));
            }
            i = i + 1;
        }
        proof {
            assert(self.0@.take(self.0.len() as int) =~= self.0@);
        }
        let mut r = String::from_str("<style>\n");
        let body = join_strings(&rules, "\n");
        r.append(body.as_str());
        r.append("\n</style>");
        r
    }
}

#[derive(Debug, Clone, Default)]
pub struct Class(pub String);

/// How a class attribute is written: nothing for an empty class.
pub open spec fn class_text(class: Class) -> Seq<char> {
    if class.0@.len() == 0 {
        seq![]
    } else {
        "class=\""@ + class.0@ + "\""@
    }
}

impl Class {
    pub fn to_string(&self) -> (r: String)
        ensures
            r@ == class_text(*self),
    {
        if self.0.unicode_len() == 0 {
            String::new()
        } else {
            let mut r = String::from_str("class=\"");
            r.append(self.0.as_str());
            r.append("\"");
            r
        }
    }
}

} // verus!
