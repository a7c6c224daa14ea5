use commonmarker::convert::{convert, needs_theme_directory, plan, ConvertError};
use commonmarker::options::{
    resolve_options, ConfigurationError, OptionEntry, OptionKind, OptionValue,
};
use commonmarker::plugins::{
    resolve_plugins, HighlighterOptions, PathState, PluginConfigError, PluginOptions,
    SyntaxHighlightConfig,
};
use commonmarker::text::str_eq;
use syntect::highlighting::ThemeSet;

fn entry(key: &str, value: OptionValue) -> OptionEntry {
    OptionEntry { key: key.to_string(), value }
}

fn group(key: &str, entries: Vec<OptionEntry>) -> OptionEntry {
    entry(key, OptionValue::Group(entries))
}

fn highlighter(theme: Option<&str>, path: Option<&str>) -> PluginOptions {
    PluginOptions {
        syntax_highlighter: Some(HighlighterOptions {
            theme: theme.map(|t| t.to_string()),
            path: path.map(|p| p.to_string()),
        }),
    }
}

fn plugin_error(r: Result<String, ConvertError>) -> PluginConfigError {
    match r {
        Err(ConvertError::Plugin(e)) => e,
        Err(ConvertError::Configuration(_)) => panic!("configuration error"),
        Ok(html) => panic!("rendered {html}"),
    }
}

const FENCED: &str = "```rust\nfn main() {}\n```\n";

#[test]
fn heading_with_defaults() {
    let html = convert("# Hello", None, None, PathState::Missing).unwrap();
    assert_eq!(html, "<h1>Hello</h1>\n");
}

#[test]
fn empty_plugins_select_default_theme() {
    let plugins = PluginOptions { syntax_highlighter: None };
    match resolve_plugins(Some(&plugins), &PathState::Missing) {
        Ok(SyntaxHighlightConfig::Named(t)) => assert_eq!(t, "base16-ocean.dark"),
        _ => panic!("expected the default theme"),
    }
    let html = convert(FENCED, None, Some(&plugins), PathState::Missing).unwrap();
    assert!(html.contains("style="));
}

#[test]
fn theme_none_disables_highlighting() {
    let plugins = highlighter(Some("none"), None);
    assert!(matches!(
        resolve_plugins(Some(&plugins), &PathState::Missing),
        Ok(SyntaxHighlightConfig::Disabled)
    ));
    let html = convert(FENCED, None, Some(&plugins), PathState::Missing).unwrap();
    let plain = convert(FENCED, None, None, PathState::Missing).unwrap();
    assert_eq!(html, plain);
    assert!(!html.contains("style="));
}

#[test]
fn empty_theme_without_path_disables_highlighting() {
    let plugins = highlighter(None, None);
    assert!(matches!(
        resolve_plugins(Some(&plugins), &PathState::Missing),
        Ok(SyntaxHighlightConfig::Disabled)
    ));
}

#[test]
fn absent_plugins_disable_highlighting() {
    assert!(matches!(
        resolve_plugins(None, &PathState::Missing),
        Ok(SyntaxHighlightConfig::Disabled)
    ));
}

#[test]
fn missing_path_is_rejected() {
    let plugins = highlighter(None, Some("/does/not/exist"));
    let e = plugin_error(convert("x", None, Some(&plugins), PathState::Missing));
    assert!(matches!(e, PluginConfigError::PathNotFound));
    assert_eq!(e.message(), "path does not exist");
}

#[test]
fn path_without_theme_is_rejected() {
    let plugins = highlighter(None, Some("/tmp"));
    let state = PathState::Directory(Ok(ThemeSet::load_defaults()));
    let e = plugin_error(convert("x", None, Some(&plugins), state));
    assert!(matches!(e, PluginConfigError::ThemeMissingWithPath));
    assert_eq!(
        e.message(),
        "`path` also needs `theme` passed into the `syntax_highlighter`"
    );
}

#[test]
fn path_that_is_a_file_is_rejected() {
    let plugins = highlighter(Some("InspiredGitHub"), Some("/etc/hostname"));
    let e = plugin_error(convert("x", None, Some(&plugins), PathState::NotADirectory));
    assert!(matches!(e, PluginConfigError::PathNotADirectory));
    assert_eq!(e.message(), "`path` needs to be a directory");
}

#[test]
fn unreadable_theme_directory_is_rejected() {
    let plugins = highlighter(Some("custom"), Some("/themes"));
    let state = PathState::Directory(Err("bad theme file".to_string()));
    let e = plugin_error(convert("x", None, Some(&plugins), state));
    assert_eq!(e.message(), "failed to load theme set from path: bad theme file");
}

#[test]
fn unknown_theme_is_rejected() {
    let plugins = highlighter(Some("not-a-real-theme"), None);
    let e = plugin_error(convert("x", None, Some(&plugins), PathState::Missing));
    assert!(matches!(e, PluginConfigError::ThemeNotFound(_)));
    assert_eq!(e.message(), "theme `not-a-real-theme` does not exist");
}

#[test]
fn unknown_theme_in_directory_is_rejected() {
    let plugins = highlighter(Some("not-a-real-theme"), Some("/themes"));
    let state = PathState::Directory(Ok(ThemeSet::load_defaults()));
    let e = plugin_error(convert("x", None, Some(&plugins), state));
    assert_eq!(e.message(), "theme `not-a-real-theme` does not exist");
}

#[test]
fn theme_from_directory_highlights() {
    let plugins = highlighter(Some("InspiredGitHub"), Some("/themes"));
    let state = PathState::Directory(Ok(ThemeSet::load_defaults()));
    match resolve_plugins(Some(&plugins), &state) {
        Ok(SyntaxHighlightConfig::Custom(t, p)) => {
            assert_eq!(t, "InspiredGitHub");
            assert_eq!(p, "/themes");
        }
        _ => panic!("expected a custom theme"),
    }
    let html = convert(FENCED, None, Some(&plugins), state).unwrap();
    assert!(html.contains("style="));
}

#[test]
fn named_theme_highlights() {
    let plugins = highlighter(Some("InspiredGitHub"), None);
    let html = convert(FENCED, None, Some(&plugins), PathState::Missing).unwrap();
    assert!(html.contains("style="));
    assert!(html.contains("fn"));
}

#[test]
fn conversion_is_repeatable() {
    let options = vec![group("render", vec![entry("hardbreaks", OptionValue::Boolean(true))])];
    let plugins = highlighter(Some("InspiredGitHub"), None);
    let a = convert(FENCED, Some(&options), Some(&plugins), PathState::Missing).unwrap();
    let b = convert(FENCED, Some(&options), Some(&plugins), PathState::Missing).unwrap();
    assert_eq!(a, b);
}

#[test]
fn unknown_top_level_option_is_rejected() {
    let options = vec![
        group("render", vec![entry("width", OptionValue::Boolean(true))]),
        entry("bogus", OptionValue::Boolean(true)),
    ];
    match convert("# Hi", Some(&options), None, PathState::Missing) {
        Err(ConvertError::Configuration(ConfigurationError::UnknownOption(k))) => {
            assert_eq!(k, "bogus")
        }
        _ => panic!("expected an unknown option"),
    }
}

#[test]
fn unknown_option_inside_group_is_rejected() {
    let options = vec![group("extension", vec![entry("emoji", OptionValue::Boolean(true))])];
    match resolve_options(Some(&options)) {
        Err(ConfigurationError::UnknownOption(k)) => assert_eq!(k, "emoji"),
        _ => panic!("expected an unknown option"),
    }
}

#[test]
fn wrong_value_shape_is_rejected() {
    let options = vec![group("parse", vec![entry("smart", OptionValue::Integer(1))])];
    match resolve_options(Some(&options)) {
        Err(ConfigurationError::InvalidOptionValue(k, kind)) => {
            assert_eq!(k, "smart");
            assert_eq!(kind, OptionKind::Boolean);
        }
        _ => panic!("expected an invalid value"),
    }
    let options = vec![entry("render", OptionValue::Boolean(true))];
    match resolve_options(Some(&options)) {
        Err(ConfigurationError::InvalidOptionValue(k, kind)) => {
            assert_eq!(k, "render");
            assert_eq!(kind, OptionKind::Group);
        }
        _ => panic!("expected an invalid value"),
    }
}

#[test]
fn negative_width_is_rejected() {
    let options = vec![group("render", vec![entry("width", OptionValue::Integer(-1))])];
    assert!(matches!(
        resolve_options(Some(&options)),
        Err(ConfigurationError::InvalidOptionValue(_, OptionKind::Integer))
    ));
}

#[test]
fn options_are_applied() {
    let options = vec![
        group(
            "render",
            vec![
                entry("hardbreaks", OptionValue::Boolean(true)),
                entry("width", OptionValue::Integer(72)),
            ],
        ),
        group(
            "extension",
            vec![
                entry("strikethrough", OptionValue::Boolean(true)),
                entry("header_ids", OptionValue::Text("h-".to_string())),
                entry("front_matter_delimiter", OptionValue::Nil),
            ],
        ),
        group("parse", vec![entry("default_info_string", OptionValue::Text("ruby".to_string()))]),
    ];
    let c = resolve_options(Some(&options)).ok().unwrap();
    assert!(c.hardbreaks && c.strikethrough && !c.table);
    assert_eq!(c.width, 72);
    assert_eq!(c.header_ids.as_deref(), Some("h-"));
    assert_eq!(c.front_matter_delimiter, None);
    assert_eq!(c.default_info_string.as_deref(), Some("ruby"));
    let html = convert("a\nb ~~c~~", Some(&options), None, PathState::Missing).unwrap();
    assert_eq!(html, "<p>a<br />\nb <del>c</del></p>\n");
}

#[test]
fn no_options_give_defaults() {
    let c = resolve_options(None).ok().unwrap();
    assert!(!c.hardbreaks && !c.unsafe_ && !c.strikethrough);
    assert_eq!(c.width, 0);
    let empty: Vec<OptionEntry> = Vec::new();
    let d = resolve_options(Some(&empty)).ok().unwrap();
    assert!(!d.smart && d.header_ids.is_none());
}

#[test]
fn options_fail_before_plugins() {
    let options = vec![entry("bogus", OptionValue::Nil)];
    let plugins = highlighter(Some("not-a-real-theme"), None);
    assert!(matches!(
        plan(Some(&options), Some(&plugins), &PathState::Missing),
        Err(ConvertError::Configuration(ConfigurationError::UnknownOption(_)))
    ));
}

#[test]
fn string_comparison() {
    assert!(str_eq("none", "none"));
    assert!(!str_eq("none", "nonE"));
    assert!(!str_eq("non", "none"));
    assert!(str_eq("", ""));
}

#[test]
fn configuration_error_messages() {
    let unknown = ConfigurationError::UnknownOption("bogus".to_string());
    assert_eq!(unknown.message(), "unknown option `bogus`");
    let invalid = ConfigurationError::InvalidOptionValue("width".to_string(), OptionKind::Integer);
    assert_eq!(invalid.message(), "option `width` expects a non-negative integer");
    let wrapped = ConvertError::Configuration(invalid);
    assert_eq!(wrapped.message(), "option `width` expects a non-negative integer");
}

#[test]
fn empty_plugins_highlight_unlike_no_plugins() {
    let plugins = PluginOptions { syntax_highlighter: None };
    let highlighted = convert(FENCED, None, Some(&plugins), PathState::Missing).unwrap();
    let default_theme = highlighter(Some("base16-ocean.dark"), None);
    let named = convert(FENCED, None, Some(&default_theme), PathState::Missing).unwrap();
    let plain = convert(FENCED, None, None, PathState::Missing).unwrap();
    assert_eq!(highlighted, named);
    assert_ne!(highlighted, plain);
}

#[test]
fn different_bundled_themes_render_differently() {
    let a = convert(FENCED, None, Some(&highlighter(Some("InspiredGitHub"), None)), PathState::Missing);
    let b = convert(FENCED, None, Some(&highlighter(Some("Solarized (dark)"), None)), PathState::Missing);
    assert_ne!(a.unwrap(), b.unwrap());
}

#[test]
fn theme_directory_read_only_when_used() {
    let with_theme = highlighter(Some("custom"), Some("/themes"));
    assert!(needs_theme_directory(None, Some(&with_theme)));
    let without_theme = highlighter(None, Some("/themes"));
    assert!(!needs_theme_directory(None, Some(&without_theme)));
    let without_path = highlighter(Some("custom"), None);
    assert!(!needs_theme_directory(None, Some(&without_path)));
    let empty_path = highlighter(Some("custom"), Some(""));
    assert!(!needs_theme_directory(None, Some(&empty_path)));
    assert!(!needs_theme_directory(None, None));
    let bad_options = vec![entry("bogus", OptionValue::Nil)];
    assert!(!needs_theme_directory(Some(&bad_options), Some(&with_theme)));
}
