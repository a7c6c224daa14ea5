use vstd::prelude::*;

use comrak::adapters::SyntaxHighlighterAdapter;
use comrak::plugins::syntect::{SyntectAdapter, SyntectAdapterBuilder};
use comrak::{
    ComrakExtensionOptions, ComrakOptions, ComrakParseOptions, ComrakPlugins, ComrakRenderOptions,
};
use syntect::highlighting::ThemeSet;

use crate::options::{
    entries_view, options_outcome, resolve_options, ConfigFailure, ConfigurationError, OptionEntry,
    RenderConfiguration, RenderSettings,
};
use crate::plugins::{
    path_given, plugins_outcome, plugins_view, resolve_plugins, text_or_empty, HighlightSpec,
    PathState, PluginConfigError, PluginFailure, PluginOptions, SyntaxHighlightConfig,
};
use crate::themes::{default_theme_names, theme_names};

verus! {

#[verifier::external_type_specification]
#[verifier::external_body]
pub struct ExSyntectAdapter(SyntectAdapter);

/// Relies on comrak's `SyntectAdapterBuilder`: the adapter highlights with
/// `theme` out of `themes`, and looks the theme up by index when it
/// highlights, so the theme must be there.
#[verifier::external_body]
fn syntect_adapter(theme: &str, themes: ThemeSet) -> SyntectAdapter
    requires
        theme_names(themes).contains(theme@),
{
    SyntectAdapterBuilder::new().theme_set(themes).theme(theme).build()
}

/// The HTML that comrak renders from `text` with `settings` and no
/// highlighter.
pub uninterp spec fn html_of(text: Seq<char>, settings: RenderSettings) -> Seq<char>;

/// Relies on comrak's `markdown_to_html_with_plugins`, with `adapter` as the
/// code-fence highlighter; each setting is copied into the field of
/// `ComrakOptions` of the same name, the others keep their defaults. Without
/// an adapter the result depends on the text and the settings alone.
#[verifier::external_body]
fn render_html(text: &str, c: &RenderConfiguration, adapter: Option<&SyntectAdapter>) -> (r: String)
    ensures
        adapter is None ==> r@ == html_of(text@, c@),
{
    let extension = ComrakExtensionOptions { strikethrough: c.strikethrough, tagfilter: c.tagfilter,
        table: c.table, autolink: c.autolink, tasklist: c.tasklist, superscript: c.superscript,
        header_ids: c.header_ids.clone(), footnotes: c.footnotes,
        description_lists: c.description_lists,
        front_matter_delimiter: c.front_matter_delimiter.clone() };
    let parse = ComrakParseOptions { smart: c.smart,
        default_info_string: c.default_info_string.clone(), ..Default::default() };
    let render = ComrakRenderOptions { hardbreaks: c.hardbreaks, github_pre_lang: c.github_pre_lang,
        width: c.width, unsafe_: c.unsafe_, escape: c.escape, ..Default::default() };
    let mut plugins = ComrakPlugins::default();
    plugins.render.codefence_syntax_highlighter = adapter.map(|a| a as &dyn SyntaxHighlighterAdapter);
    comrak::markdown_to_html_with_plugins(text, &ComrakOptions { extension, parse, render }, &plugins)
}

/// The HTML that comrak renders from `text` with `settings`, highlighting
/// code fences with the bundled theme `theme`.
pub uninterp spec fn highlighted_html_of(
    text: Seq<char>,
    settings: RenderSettings,
    theme: Seq<char>,
) -> Seq<char>;

/// Relies on comrak's `SyntectAdapter::new` and
/// `markdown_to_html_with_plugins`: the adapter highlights with a bundled
/// theme out of the bundled syntaxes, so the result depends on the text, the
/// settings and the theme alone. The adapter looks the theme up by index when
/// it highlights, so the theme must be bundled.
#[verifier::external_body]
fn render_named(text: &str, c: &RenderConfiguration, theme: &str) -> (r: String)
    requires
        default_theme_names().contains(theme@),
    ensures
        r@ == highlighted_html_of(text@, c@, theme@),
{
    let extension = ComrakExtensionOptions { strikethrough: c.strikethrough, tagfilter: c.tagfilter,
        table: c.table, autolink: c.autolink, tasklist: c.tasklist, superscript: c.superscript,
        header_ids: c.header_ids.clone(), footnotes: c.footnotes,
        description_lists: c.description_lists,
        front_matter_delimiter: c.front_matter_delimiter.clone() };
    let parse = ComrakParseOptions { smart: c.smart,
        default_info_string: c.default_info_string.clone(), ..Default::default() };
    let render = ComrakRenderOptions { hardbreaks: c.hardbreaks, github_pre_lang: c.github_pre_lang,
        width: c.width, unsafe_: c.unsafe_, escape: c.escape, ..Default::default() };
    let adapter = SyntectAdapter::new(theme);
    let mut plugins = ComrakPlugins::default();
    plugins.render.codefence_syntax_highlighter = Some(&adapter);
    comrak::markdown_to_html_with_plugins(text, &ComrakOptions { extension, parse, render }, &plugins)
}

/// Why a conversion was refused.
#[derive(Debug)]
pub enum ConvertError {
    Configuration(ConfigurationError),
    Plugin(PluginConfigError),
}

/// The mathematical value of a `ConvertError`.
pub ghost enum ConvertFailure {
    Configuration(ConfigFailure),
    Plugin(PluginFailure),
}

impl View for ConvertError {
    type V = ConvertFailure;

    open spec fn view(&self) -> ConvertFailure {
        match self {
            ConvertError::Configuration(e) => ConvertFailure::Configuration(e@),
            ConvertError::Plugin(e) => ConvertFailure::Plugin(e@),
        }
    }
}

impl ConvertFailure {
    pub open spec fn message(self) -> Seq<char> {
        match self {
            ConvertFailure::Configuration(e) => e.message(),
            ConvertFailure::Plugin(e) => e.message(),
        }
    }
}

impl ConvertError {
    /// The message shown to the caller.
    pub fn message(&self) -> (r: String)
        ensures
            r@ == self@.message(),
    {
        match self {
            ConvertError::Configuration(e) => e.message(),
            ConvertError::Plugin(e) => e.message(),
        }
    }
}

/// What a conversion is rendered with: the configuration, and the
/// highlighting when a plugin mapping was given (`None` when it was not).
pub ghost struct RenderPlan {
    pub settings: RenderSettings,
    pub highlight: Option<HighlightSpec>,
}

/// Resolves the options first and the plugins second; the first failure is
/// the result, and no rendering happens then.
pub open spec fn plan_outcome(
    options: Option<Seq<OptionEntry>>,
    plugins: Option<PluginOptions>,
    state: PathState,
) -> Result<RenderPlan, ConvertFailure> {
    match options_outcome(options) {
        Err(e) => Err(ConvertFailure::Configuration(e)),
        Ok(s) => match plugins {
            None => Ok(RenderPlan { settings: s, highlight: None }),
            Some(_) => match plugins_outcome(plugins, state) {
                Err(e) => Err(ConvertFailure::Plugin(e)),
                Ok(h) => Ok(RenderPlan { settings: s, highlight: Some(h) }),
            },
        },
    }
}

pub open spec fn highlight_view(h: Option<SyntaxHighlightConfig>) -> Option<HighlightSpec> {
    match h {
        Some(c) => Some(c@),
        None => None,
    }
}

pub open spec fn plan_view(
    r: Result<(RenderConfiguration, Option<SyntaxHighlightConfig>), ConvertError>,
) -> Result<RenderPlan, ConvertFailure> {
    match r {
        Ok((c, h)) => Ok(RenderPlan { settings: c@, highlight: highlight_view(h) }),
        Err(e) => Err(e@),
    }
}

/// Whether a conversion with these arguments renders, rather than fails.
pub open spec fn convert_succeeds(
    options: Option<Seq<OptionEntry>>,
    plugins: Option<PluginOptions>,
    state: PathState,
) -> bool {
    plan_outcome(options, plugins, state) is Ok
}

/// Whether a render plan leaves code fences unhighlighted.
pub open spec fn unhighlighted(p: RenderPlan) -> bool {
    p.highlight is None || p.highlight == Some(HighlightSpec::Disabled)
}

/// What a conversion returns: the error of the first resolution that fails;
/// else HTML rendered with the resolved settings, unhighlighted or with the
/// bundled theme selected. With a theme read from a directory it is HTML
/// from that theme set, of which nothing more is stated.
pub open spec fn conversion_contract(
    text: Seq<char>,
    options: Option<Seq<OptionEntry>>,
    plugins: Option<PluginOptions>,
    state: PathState,
    r: Result<String, ConvertError>,
) -> bool {
    &&& r is Ok <==> convert_succeeds(options, plugins, state)
    &&& match plan_outcome(options, plugins, state) {
        Err(e) => r is Err && r->Err_0@ == e,
        Ok(p) => {
            &&& r is Ok
            &&& unhighlighted(p) ==> r->Ok_0@ == html_of(text, p.settings)
            &&& p.highlight matches Some(HighlightSpec::Named(t)) ==> r->Ok_0@
                == highlighted_html_of(text, p.settings, t)
        },
    }
}

/// Resolves what a conversion is rendered with.
pub fn plan(
    options: Option<&Vec<OptionEntry>>,
    plugins: Option<&PluginOptions>,
    state: &PathState,
) -> (r: Result<(RenderConfiguration, Option<SyntaxHighlightConfig>), ConvertError>)
    ensures
        plan_view(r) == plan_outcome(entries_view(options), plugins_view(plugins), *state),
{
    let config = match resolve_options(options) {
        Ok(c) => c,
        Err(e) => {
            return Err(ConvertError::Configuration(e));
        },
    };
    match plugins {
        None => Ok((config, None)),
        Some(_) => match resolve_plugins(plugins, state) {
            Ok(h) => Ok((config, Some(h))),
            Err(e) => Err(ConvertError::Plugin(e)),
        },
    }
}

/// Whether a conversion reads the themes of the directory at the
/// highlighter's path: the options resolve, and the highlighter names a path
/// and a theme.
pub open spec fn theme_directory_needed(
    options: Option<Seq<OptionEntry>>,
    plugins: Option<PluginOptions>,
) -> bool {
    &&& options_outcome(options) is Ok
    &&& plugins matches Some(p)
    &&& p.syntax_highlighter matches Some(h)
    &&& path_given(h.path)
    &&& text_or_empty(h.theme).len() > 0
}

/// Whether the themes of the directory at the highlighter's path must be
/// read before converting; when not, any theme set may stand for them.
pub fn needs_theme_directory(options: Option<&Vec<OptionEntry>>, plugins: Option<&PluginOptions>) -> (r: bool)
    ensures
        r == theme_directory_needed(entries_view(options), plugins_view(plugins)),
{
    if resolve_options(options).is_err() {
        return false;
    }
    let h = match plugins {
        Some(p) => match &p.syntax_highlighter {
            Some(h) => h,
            None => {
                return false;
            },
        },
        None => {
            return false;
        },
    };
    let path = match &h.path {
        Some(q) => q.unicode_len() > 0,
        None => false,
    };
    let theme = match &h.theme {
        Some(t) => t.unicode_len() > 0,
        None => false,
    };
    path && theme
}

/// Converts `text` to HTML. `state` is what the filesystem holds at the
/// highlighter's path, if one is given. The result is an error exactly when
/// resolving the options or the plugins fails, and that error; else the HTML
/// rendered with the resolved settings and highlighting.
pub fn convert(
    text: &str,
    options: Option<&Vec<OptionEntry>>,
    plugins: Option<&PluginOptions>,
    state: PathState,
) -> (r: Result<String, ConvertError>)
    ensures
        conversion_contract(text@, entries_view(options), plugins_view(plugins), state, r),
{
    let (config, highlight) = match plan(options, plugins, &state) {
        Ok(p) => p,
        Err(e) => {
            return Err(e);
        },
    };
    match highlight {
        None | Some(SyntaxHighlightConfig::Disabled) => Ok(render_html(text, &config, None)),
        Some(SyntaxHighlightConfig::Named(theme)) => {
            Ok(render_named(text, &config, theme.as_str()))
        },
        Some(SyntaxHighlightConfig::Custom(theme, _)) => match state {
            PathState::Directory(Ok(set)) => {
                let adapter = syntect_adapter(theme.as_str(), set);
                Ok(render_html(text, &config, Some(&adapter)))
            },
            _ => {
                proof {
                    assert(false);
                }
                Ok(render_html(text, &config, None))
            },
        },
    }
}

} // verus!
