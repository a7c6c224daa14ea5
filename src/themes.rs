use vstd::prelude::*;

use syntect::highlighting::ThemeSet;

verus! {

#[verifier::external_type_specification]
#[verifier::external_body]
pub struct ExThemeSet(ThemeSet);

/// The names of the themes that a theme set holds.
pub uninterp spec fn theme_names(set: ThemeSet) -> Set<Seq<char>>;

/// The theme used when the plugin configuration names no highlighter.
pub open spec fn default_theme() -> Seq<char> {
    "base16-ocean.dark"@
}

/// The names of the bundled themes.
pub open spec fn default_theme_names() -> Set<Seq<char>> {
    set![
        "base16-ocean.dark"@,
        "base16-eighties.dark"@,
        "base16-mocha.dark"@,
        "base16-ocean.light"@,
        "InspiredGitHub"@,
        "Solarized (dark)"@,
        "Solarized (light)"@,
    ]
}

/// Relies on syntect's `ThemeSet::load_defaults`, whose documentation lists
/// the keys of the bundled themes.
#[verifier::external_body]
pub(crate) fn default_theme_set() -> (r: ThemeSet)
    ensures
        theme_names(r) == default_theme_names(),
{
    ThemeSet::load_defaults()
}

/// Relies on `BTreeMap::contains_key` over the public `themes` map of
/// syntect's `ThemeSet`.
#[verifier::external_body]
pub(crate) fn theme_set_contains(set: &ThemeSet, name: &str) -> (r: bool)
    ensures
        r == theme_names(*set).contains(name@),
{
    set.themes.contains_key(name)
}

} // verus!
