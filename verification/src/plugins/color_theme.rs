//! The colors of the dark and the light theme, looked up by name.

use vstd::prelude::*;

verus! {

#[derive(Debug, Copy, Clone, PartialEq, Eq, Structural)]
pub enum Theme {
    Dark,
    Light,
}

/// An 8-bit RGBA color.
#[derive(Debug, Copy, Clone, PartialEq, Eq, Structural)]
pub struct ThemeColor {
    pub r: u8,
    pub g: u8,
    pub b: u8,
    pub a: u8,
}

pub const BACKGROUND_COLOR: &'static str = "BACKGROUND_COLOR";

pub const DRAW_COLOR: &'static str = "DRAW_COLOR";

pub const SELECT_COLOR: &'static str = "SELECT_COLOR";

/// The dark and light color of each name, held in a hash map.
#[verifier::external_body]
pub struct ThemeColors {
    values: bevy::utils::HashMap<&'static str, (ThemeColor, ThemeColor)>,
}

/// The names and their (dark, light) colors that a color table holds.
pub uninterp spec fn theme_colors_contents(colors: ThemeColors) -> Map<Seq<char>, (ThemeColor, ThemeColor)>;

/// Calls `HashMap::default` (bevy's hash map, hashbrown's `HashMap`) and claims that
/// the map it makes holds nothing.
#[verifier::external_body]
fn new_theme_colors() -> (r: ThemeColors)
    ensures
        theme_colors_contents(r).dom() == Set::<Seq<char>>::empty(),
{
    ThemeColors { values: bevy::utils::HashMap::default() }
}

/// Calls `HashMap::insert` and claims that afterwards the name maps to the colors and
/// every other name to what it mapped to before.
#[verifier::external_body]
fn insert_theme_colors(
    colors: &mut ThemeColors,
    key: &'static str,
    dark: ThemeColor,
    light: ThemeColor,
)
    ensures
        theme_colors_contents(*final(colors)) == theme_colors_contents(*old(colors)).insert(
            key@,
            (dark, light),
        ),
{
    colors.values.insert(key, (dark, light));
}

/// Calls `HashMap::get` and claims that it gives the colors the name maps to, if
/// any.
#[verifier::external_body]
fn get_theme_colors(colors: &ThemeColors, key: &str) -> (r: Option<(ThemeColor, ThemeColor)>)
    ensures
        r == if theme_colors_contents(*colors).contains_key(key@) {
            Some(theme_colors_contents(*colors)[key@])
        } else {
            None
        },
{
    colors.values.get(key).copied()
}

pub struct ColorTheme {
    theme: Theme,
    values: ThemeColors,
}

/// The color of the given theme from a (dark, light) pair.
pub open spec fn color_for(theme: Theme, pair: (ThemeColor, ThemeColor)) -> ThemeColor {
    match theme {
        Theme::Dark => pair.0,
        Theme::Light => pair.1,
    }
}

impl ColorTheme {
    /// The theme in use.
    pub closed spec fn theme(&self) -> Theme {
        self.theme
    }

    /// The (dark, light) colors of each name.
    pub closed spec fn colors(&self) -> Map<Seq<char>, (ThemeColor, ThemeColor)> {
        theme_colors_contents(self.values)
    }

    pub fn current(&self) -> (r: Theme)
        ensures
            r == self.theme(),
    {
        self.theme
    }

    /// Switches to the theme; the colors stay.
    pub fn set_theme(&mut self, theme: Theme)
        ensures
            final(self).theme() == theme,
            final(self).colors() == old(self).colors(),
    {
        self.theme = theme;
    }

    /// Gives a name its dark and light color.
    pub fn insert(&mut self, key: &'static str, dark: ThemeColor, light: ThemeColor)
        ensures
            final(self).theme() == old(self).theme(),
            final(self).colors() == old(self).colors().insert(key@, (dark, light)),
    {
        insert_theme_colors(&mut self.values, key, dark, light);
    }

    /// The color of a name in the current theme.
    pub fn get(&self, key: &str) -> (r: Option<ThemeColor>)
        ensures
            r == if self.colors().contains_key(key@) {
                Some(color_for(self.theme(), self.colors()[key@]))
            } else {
                None
            },
    {
        match get_theme_colors(&self.values, key) {
            Some((dark, light)) => match self.theme {
                Theme::Dark => Some(dark),
                Theme::Light => Some(light),
            },
            None => None,
        }
    }
}

impl Default for ColorTheme {
    /// The dark theme, with no colors.
    fn default() -> (r: Self)
        ensures
            r.theme() == Theme::Dark,
            r.colors().dom() == Set::<Seq<char>>::empty(),
    {
        Self { theme: Theme::Dark, values: new_theme_colors() }
    }
}

/// What a theme gives back is what was last put in for it: after inserting a name's
/// colors, looking the name up gives the color of the current theme, whatever the
/// theme is switched to.
pub proof fn lemma_get_after_insert(
    colors: Map<Seq<char>, (ThemeColor, ThemeColor)>,
    key: Seq<char>,
    dark: ThemeColor,
    light: ThemeColor,
    theme: Theme,
)
    ensures
        colors.insert(key, (dark, light)).contains_key(key),
        color_for(theme, colors.insert(key, (dark, light))[key]) == match theme {
            Theme::Dark => dark,
            Theme::Light => light,
        },
{
}

} // verus!
