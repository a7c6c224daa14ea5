use vstd::prelude::*;

use syntect::highlighting::ThemeSet;

use crate::text::str_eq;
use crate::themes::{
    default_theme, default_theme_names, default_theme_set, theme_names, theme_set_contains,
};

verus! {

/// The caller's `syntax_highlighter` entry.
pub struct HighlighterOptions {
    pub theme: Option<String>,
    pub path: Option<String>,
}

/// The caller's plugin mapping.
pub struct PluginOptions {
    pub syntax_highlighter: Option<HighlighterOptions>,
}

/// What the filesystem holds at the highlighter's `path`: nothing, something
/// that is no directory, or a directory, with the bundled themes merged with
/// the themes read from it (or why reading them failed).
pub enum PathState {
    Missing,
    NotADirectory,
    Directory(Result<ThemeSet, String>),
}

/// The highlighting that one conversion uses.
#[derive(Debug)]
pub enum SyntaxHighlightConfig {
    Disabled,
    Named(String),
    Custom(String, String),
}

/// The mathematical value of a `SyntaxHighlightConfig`.
pub ghost enum HighlightSpec {
    Disabled,
    Named(Seq<char>),
    Custom(Seq<char>, Seq<char>),
}

impl View for SyntaxHighlightConfig {
    type V = HighlightSpec;

    open spec fn view(&self) -> HighlightSpec {
        match self {
            SyntaxHighlightConfig::Disabled => HighlightSpec::Disabled,
            SyntaxHighlightConfig::Named(t) => HighlightSpec::Named(t@),
            SyntaxHighlightConfig::Custom(t, p) => HighlightSpec::Custom(t@, p@),
        }
    }
}

/// Why a plugin configuration was refused.
#[derive(Debug)]
pub enum PluginConfigError {
    PathNotFound,
    ThemeMissingWithPath,
    PathNotADirectory,
    ThemeSetLoadFailure(String),
    ThemeNotFound(String),
}

/// The mathematical value of a `PluginConfigError`.
pub ghost enum PluginFailure {
    PathNotFound,
    ThemeMissingWithPath,
    PathNotADirectory,
    ThemeSetLoadFailure(Seq<char>),
    ThemeNotFound(Seq<char>),
}

impl View for PluginConfigError {
    type V = PluginFailure;

    open spec fn view(&self) -> PluginFailure {
        match self {
            PluginConfigError::PathNotFound => PluginFailure::PathNotFound,
            PluginConfigError::ThemeMissingWithPath => PluginFailure::ThemeMissingWithPath,
            PluginConfigError::PathNotADirectory => PluginFailure::PathNotADirectory,
            PluginConfigError::ThemeSetLoadFailure(d) => PluginFailure::ThemeSetLoadFailure(d@),
            PluginConfigError::ThemeNotFound(t) => PluginFailure::ThemeNotFound(t@),
        }
    }
}

impl PluginFailure {
    /// The message shown to the caller.
    pub open spec fn message(self) -> Seq<char> {
        match self {
            PluginFailure::PathNotFound => "path does not exist"@,
            PluginFailure::ThemeMissingWithPath =>
                "`path` also needs `theme` passed into the `syntax_highlighter`"@,
            PluginFailure::PathNotADirectory => "`path` needs to be a directory"@,
            PluginFailure::ThemeSetLoadFailure(d) => "failed to load theme set from path: "@ + d,
            PluginFailure::ThemeNotFound(t) => "theme `"@ + t + "` does not exist"@,
        }
    }
}

impl PluginConfigError {
    /// The message shown to the caller.
    pub fn message(&self) -> (r: String)
        ensures
            r@ == self@.message(),
    {
        match self {
            PluginConfigError::PathNotFound => "path does not exist".to_owned(),
            PluginConfigError::ThemeMissingWithPath =>
                "`path` also needs `theme` passed into the `syntax_highlighter`".to_owned(),
            PluginConfigError::PathNotADirectory => "`path` needs to be a directory".to_owned(),
            PluginConfigError::ThemeSetLoadFailure(d) => {
                let mut m = "failed to load theme set from path: ".to_owned();
                m.append(d.as_str());
                m
            },
            PluginConfigError::ThemeNotFound(t) => {
                let mut m = "theme `".to_owned();
                m.append(t.as_str());
                m.append("` does not exist");
                m
            },
        }
    }
}

pub open spec fn text_or_empty(s: Option<String>) -> Seq<char> {
    match s {
        Some(t) => t@,
        None => Seq::empty(),
    }
}

/// Whether the highlighter names a path; an empty one names none.
pub open spec fn path_given(path: Option<String>) -> bool {
    match path {
        Some(p) => p@.len() > 0,
        None => false,
    }
}

/// Resolves a highlighter entry with theme `t` and path `path`, the checks in
/// order: the path exists, a theme goes with it, it is a directory; then the
/// theme must be in the merged catalog. Without a path, an empty theme or
/// `none` disables highlighting, and any other theme must be bundled.
pub open spec fn highlighter_outcome(t: Seq<char>, path: Option<String>, state: PathState) -> Result<
    HighlightSpec,
    PluginFailure,
> {
    if path_given(path) {
        match state {
            PathState::Missing => Err(PluginFailure::PathNotFound),
            PathState::NotADirectory => if t.len() == 0 {
                Err(PluginFailure::ThemeMissingWithPath)
            } else {
                Err(PluginFailure::PathNotADirectory)
            },
            PathState::Directory(loaded) => if t.len() == 0 {
                Err(PluginFailure::ThemeMissingWithPath)
            } else {
                match loaded {
                    Err(d) => Err(PluginFailure::ThemeSetLoadFailure(d@)),
                    Ok(set) => if theme_names(set).contains(t) {
                        Ok(HighlightSpec::Custom(t, text_or_empty(path)))
                    } else {
                        Err(PluginFailure::ThemeNotFound(t))
                    },
                }
            },
        }
    } else if t.len() == 0 || t == "none"@ {
        Ok(HighlightSpec::Disabled)
    } else if default_theme_names().contains(t) {
        Ok(HighlightSpec::Named(t))
    } else {
        Err(PluginFailure::ThemeNotFound(t))
    }
}

/// Resolves the plugin mapping: none disables highlighting, one without a
/// highlighter entry selects the default theme.
pub open spec fn plugins_outcome(plugins: Option<PluginOptions>, state: PathState) -> Result<
    HighlightSpec,
    PluginFailure,
> {
    match plugins {
        None => Ok(HighlightSpec::Disabled),
        Some(p) => match p.syntax_highlighter {
            None => highlighter_outcome(default_theme(), None, state),
            Some(h) => highlighter_outcome(text_or_empty(h.theme), h.path, state),
        },
    }
}

pub open spec fn highlight_result_view(r: Result<SyntaxHighlightConfig, PluginConfigError>) -> Result<
    HighlightSpec,
    PluginFailure,
> {
    match r {
        Ok(c) => Ok(c@),
        Err(e) => Err(e@),
    }
}

pub open spec fn plugins_view(p: Option<&PluginOptions>) -> Option<PluginOptions> {
    match p {
        Some(q) => Some(*q),
        None => None,
    }
}

/// Resolves one highlighter entry against what the filesystem holds at its
/// path.
pub fn resolve_highlighter(theme: &String, path: &Option<String>, state: &PathState) -> (r: Result<
    SyntaxHighlightConfig,
    PluginConfigError,
>)
    ensures
        highlight_result_view(r) == highlighter_outcome(theme@, *path, *state),
{
    let given = match path {
        Some(p) => p.unicode_len() > 0,
        None => false,
    };
    let empty = theme.unicode_len() == 0;
    if given {
        match state {
            PathState::Missing => Err(PluginConfigError::PathNotFound),
            PathState::NotADirectory => if empty {
                Err(PluginConfigError::ThemeMissingWithPath)
            } else {
                Err(PluginConfigError::PathNotADirectory)
            },
            PathState::Directory(loaded) => if empty {
                Err(PluginConfigError::ThemeMissingWithPath)
            } else {
                match loaded {
                    Err(d) => Err(PluginConfigError::ThemeSetLoadFailure(d.clone())),
                    Ok(set) => if theme_set_contains(set, theme.as_str()) {
                        let dir = match path {
                            Some(p) => p.clone(),
                            None => String::new(),
                        };
                        Ok(SyntaxHighlightConfig::Custom(theme.clone(), dir))
                    } else {
                        Err(PluginConfigError::ThemeNotFound(theme.clone()))
                    },
                }
            },
        }
    } else if empty || str_eq(theme.as_str(), "none") {
        Ok(SyntaxHighlightConfig::Disabled)
    } else if theme_set_contains(&default_theme_set(), theme.as_str()) {
        Ok(SyntaxHighlightConfig::Named(theme.clone()))
    } else {
        Err(PluginConfigError::ThemeNotFound(theme.clone()))
    }
}

/// Resolves the caller's plugin mapping to the highlighting of one
/// conversion.
pub fn resolve_plugins(plugins: Option<&PluginOptions>, state: &PathState) -> (r: Result<
    SyntaxHighlightConfig,
    PluginConfigError,
>)
    ensures
        highlight_result_view(r) == plugins_outcome(plugins_view(plugins), *state),
{
    match plugins {
        None => Ok(SyntaxHighlightConfig::Disabled),
        Some(p) => match &p.syntax_highlighter {
            None => {
                let theme = "base16-ocean.dark".to_owned();
                resolve_highlighter(&theme, &None, state)
            },
            Some(h) => {
                let theme = match &h.theme {
                    Some(t) => t.clone(),
                    None => String::new(),
                };
                resolve_highlighter(&theme, &h.path, state)
            },
        },
    }
}

} // verus!
