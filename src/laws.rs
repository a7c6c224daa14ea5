use vstd::prelude::*;

use syntect::highlighting::ThemeSet;

use crate::convert::{
    conversion_contract, highlighted_html_of, plan_outcome, theme_directory_needed, ConvertError,
    ConvertFailure, RenderPlan,
};
use crate::options::{
    group_named, options_outcome, slot_named, unknown_in_group, unknown_key, OptionEntry,
    OptionGroup, OptionValue,
};
use crate::plugins::{
    highlighter_outcome, path_given, plugins_outcome, HighlightSpec, PathState, PluginFailure,
    PluginOptions,
};
use crate::themes::{default_theme, default_theme_names};

verus! {

/// Whether an entry holds a key that names nothing: its own key is no group,
/// or it is a group whose entries hold a key that the group does not have.
pub open spec fn holds_unknown_key(e: OptionEntry) -> bool {
    match group_named(e.key@) {
        None => true,
        Some(g) => match e.value {
            OptionValue::Group(inner) => exists|j: int|
                0 <= j < inner@.len() && #[trigger] slot_named(g, inner@[j].key@) is None,
            _ => false,
        },
    }
}

proof fn lemma_unknown_in_group_found(g: OptionGroup, es: Seq<OptionEntry>, j: int)
    requires
        0 <= j < es.len(),
        slot_named(g, es[j].key@) is None,
    ensures
        unknown_in_group(g, es) is Some,
    decreases es.len(),
{
    if j > 0 && slot_named(g, es[0].key@) is Some {
        lemma_unknown_in_group_found(g, es.drop_first(), j - 1);
    }
}

proof fn lemma_unknown_key_found(es: Seq<OptionEntry>, i: int)
    requires
        0 <= i < es.len(),
        holds_unknown_key(es[i]),
    ensures
        unknown_key(es) is Some,
    decreases es.len(),
{
    if i == 0 {
        if let Some(g) = group_named(es[0].key@) {
            if let OptionValue::Group(inner) = es[0].value {
                let j = choose|j: int|
                    0 <= j < inner@.len() && #[trigger] slot_named(g, inner@[j].key@) is None;
                lemma_unknown_in_group_found(g, inner@, j);
            }
        }
    } else {
        lemma_unknown_key_found(es.drop_first(), i - 1);
    }
}

/// An option mapping that holds a key naming nothing fails with
/// `UnknownOption`, whatever else it holds, and the conversion fails with
/// that error before anything is rendered.
pub proof fn law_unknown_option_rejected(
    es: Seq<OptionEntry>,
    i: int,
    plugins: Option<PluginOptions>,
    state: PathState,
)
    requires
        0 <= i < es.len(),
        holds_unknown_key(es[i]),
    ensures
        options_outcome(Some(es)) is Err,
        options_outcome(Some(es))->Err_0 is UnknownOption,
        plan_outcome(Some(es), plugins, state) == Err::<RenderPlan, ConvertFailure>(
            ConvertFailure::Configuration(options_outcome(Some(es))->Err_0),
        ),
{
    lemma_unknown_key_found(es, i);
}

/// A plugin mapping without a `syntax_highlighter` entry selects the default
/// bundled theme: highlighting is on.
pub proof fn law_plugins_without_highlighter_use_default(p: PluginOptions, state: PathState)
    requires
        p.syntax_highlighter is None,
    ensures
        plugins_outcome(Some(p), state) == Ok::<HighlightSpec, PluginFailure>(
            HighlightSpec::Named(default_theme()),
        ),
{
    reveal_strlit("base16-ocean.dark");
    reveal_strlit("none");
    assert(default_theme() != "none"@) by {
        assert(default_theme()[0] != "none"@[0]);
    }
    assert(default_theme_names().contains(default_theme()));
}

/// A path that does not exist fails first, whatever the theme.
pub proof fn law_missing_path_rejected(t: Seq<char>, path: Option<String>)
    requires
        path_given(path),
    ensures
        highlighter_outcome(t, path, PathState::Missing) == Err::<HighlightSpec, PluginFailure>(
            PluginFailure::PathNotFound,
        ),
{
}

/// A path that exists needs a theme, whatever it holds.
pub proof fn law_existing_path_needs_theme(path: Option<String>, state: PathState)
    requires
        path_given(path),
        !(state is Missing),
    ensures
        highlighter_outcome(Seq::empty(), path, state) == Err::<HighlightSpec, PluginFailure>(
            PluginFailure::ThemeMissingWithPath,
        ),
{
}

/// Without a path, the theme `none` disables highlighting.
pub proof fn law_theme_none_disables(path: Option<String>, state: PathState)
    requires
        !path_given(path),
    ensures
        highlighter_outcome("none"@, path, state) == Ok::<
            HighlightSpec,
            PluginFailure,
        >(HighlightSpec::Disabled),
{
}

/// Two conversions with identical arguments agree on whether they render
/// and on the error when they fail; unless the theme comes from a directory,
/// whose themes are read from disk, they return the same HTML.
pub proof fn law_conversion_is_deterministic(
    text: Seq<char>,
    options: Option<Seq<OptionEntry>>,
    plugins: Option<PluginOptions>,
    state: PathState,
    first: Result<String, ConvertError>,
    second: Result<String, ConvertError>,
)
    requires
        conversion_contract(text, options, plugins, state, first),
        conversion_contract(text, options, plugins, state, second),
    ensures
        first is Ok <==> second is Ok,
        first is Err ==> first->Err_0@ == second->Err_0@,
        first is Ok && !(plan_outcome(options, plugins, state)->Ok_0.highlight matches Some(
            HighlightSpec::Custom(_, _),
        )) ==> first->Ok_0@ == second->Ok_0@,
{
}

/// A conversion with a plugin mapping that has no `syntax_highlighter`
/// entry, and options that resolve, renders with the default bundled theme.
pub proof fn law_plugins_without_highlighter_render_default_theme(
    text: Seq<char>,
    options: Option<Seq<OptionEntry>>,
    p: PluginOptions,
    state: PathState,
    r: Result<String, ConvertError>,
)
    requires
        p.syntax_highlighter is None,
        options_outcome(options) is Ok,
        conversion_contract(text, options, Some(p), state, r),
    ensures
        r is Ok,
        r->Ok_0@ == highlighted_html_of(text, options_outcome(options)->Ok_0, default_theme()),
{
    law_plugins_without_highlighter_use_default(p, state);
}

/// When no theme directory is needed, what a directory at the path holds
/// does not change the conversion: any theme set may stand for it.
pub proof fn law_unneeded_directory_is_irrelevant(
    options: Option<Seq<OptionEntry>>,
    plugins: Option<PluginOptions>,
    a: Result<ThemeSet, String>,
    b: Result<ThemeSet, String>,
)
    requires
        !theme_directory_needed(options, plugins),
    ensures
        plan_outcome(options, plugins, PathState::Directory(a)) == plan_outcome(
            options,
            plugins,
            PathState::Directory(b),
        ),
{
}

} // verus!
