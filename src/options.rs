use vstd::prelude::*;

use crate::text::str_eq;

verus! {

/// A value in the caller's untyped option mapping.
pub enum OptionValue {
    Nil,
    Boolean(bool),
    Integer(i64),
    Text(String),
    Group(Vec<OptionEntry>),
}

/// One key of the caller's untyped option mapping.
pub struct OptionEntry {
    pub key: String,
    pub value: OptionValue,
}

/// The shape a recognized option expects.
#[derive(Clone, Copy, Debug, PartialEq, Eq, Structural)]
pub enum OptionKind {
    Boolean,
    Integer,
    Text,
    Group,
}

/// The groups of the option mapping.
#[derive(Clone, Copy, Debug, PartialEq, Eq, Structural)]
pub enum OptionGroup {
    Parse,
    Render,
    Extension,
}

/// Every recognized option inside a group.
#[derive(Clone, Copy, Debug, PartialEq, Eq, Structural)]
pub enum OptionSlot {
    Smart,
    DefaultInfoString,
    Hardbreaks,
    GithubPreLang,
    Width,
    Unsafe,
    Escape,
    Strikethrough,
    Tagfilter,
    Table,
    Autolink,
    Tasklist,
    Superscript,
    HeaderIds,
    Footnotes,
    DescriptionLists,
    FrontMatterDelimiter,
}

/// The validated configuration handed to the renderer.
pub struct RenderConfiguration {
    pub smart: bool,
    pub default_info_string: Option<String>,
    pub hardbreaks: bool,
    pub github_pre_lang: bool,
    pub width: usize,
    pub unsafe_: bool,
    pub escape: bool,
    pub strikethrough: bool,
    pub tagfilter: bool,
    pub table: bool,
    pub autolink: bool,
    pub tasklist: bool,
    pub superscript: bool,
    pub header_ids: Option<String>,
    pub footnotes: bool,
    pub description_lists: bool,
    pub front_matter_delimiter: Option<String>,
}

/// The mathematical value of a `RenderConfiguration`.
pub ghost struct RenderSettings {
    pub smart: bool,
    pub default_info_string: Option<Seq<char>>,
    pub hardbreaks: bool,
    pub github_pre_lang: bool,
    pub width: nat,
    pub unsafe_: bool,
    pub escape: bool,
    pub strikethrough: bool,
    pub tagfilter: bool,
    pub table: bool,
    pub autolink: bool,
    pub tasklist: bool,
    pub superscript: bool,
    pub header_ids: Option<Seq<char>>,
    pub footnotes: bool,
    pub description_lists: bool,
    pub front_matter_delimiter: Option<Seq<char>>,
}

pub open spec fn opt_view(s: Option<String>) -> Option<Seq<char>> {
    match s {
        Some(t) => Some(t@),
        None => None,
    }
}

impl View for RenderConfiguration {
    type V = RenderSettings;

    open spec fn view(&self) -> RenderSettings {
        RenderSettings {
            smart: self.smart,
            default_info_string: opt_view(self.default_info_string),
            hardbreaks: self.hardbreaks,
            github_pre_lang: self.github_pre_lang,
            width: self.width as nat,
            unsafe_: self.unsafe_,
            escape: self.escape,
            strikethrough: self.strikethrough,
            tagfilter: self.tagfilter,
            table: self.table,
            autolink: self.autolink,
            tasklist: self.tasklist,
            superscript: self.superscript,
            header_ids: opt_view(self.header_ids),
            footnotes: self.footnotes,
            description_lists: self.description_lists,
            front_matter_delimiter: opt_view(self.front_matter_delimiter),
        }
    }
}

/// Why an option mapping was refused.
#[derive(Debug)]
pub enum ConfigurationError {
    UnknownOption(String),
    InvalidOptionValue(String, OptionKind),
}

/// The mathematical value of a `ConfigurationError`.
pub ghost enum ConfigFailure {
    UnknownOption(Seq<char>),
    InvalidOptionValue(Seq<char>, OptionKind),
}

impl View for ConfigurationError {
    type V = ConfigFailure;

    open spec fn view(&self) -> ConfigFailure {
        match self {
            ConfigurationError::UnknownOption(k) => ConfigFailure::UnknownOption(k@),
            ConfigurationError::InvalidOptionValue(k, e) => ConfigFailure::InvalidOptionValue(
                k@,
                *e,
            ),
        }
    }
}

/// The renderer's own defaults: every toggle off, no strings, no wrapping.
pub open spec fn default_settings() -> RenderSettings {
    RenderSettings {
        smart: false,
        default_info_string: None,
        hardbreaks: false,
        github_pre_lang: false,
        width: 0,
        unsafe_: false,
        escape: false,
        strikethrough: false,
        tagfilter: false,
        table: false,
        autolink: false,
        tasklist: false,
        superscript: false,
        header_ids: None,
        footnotes: false,
        description_lists: false,
        front_matter_delimiter: None,
    }
}

pub open spec fn group_named(key: Seq<char>) -> Option<OptionGroup> {
    if key == "parse"@ {
        Some(OptionGroup::Parse)
    } else if key == "render"@ {
        Some(OptionGroup::Render)
    } else if key == "extension"@ {
        Some(OptionGroup::Extension)
    } else {
        None
    }
}

pub open spec fn slot_named(group: OptionGroup, key: Seq<char>) -> Option<OptionSlot> {
    match group {
        OptionGroup::Parse => if key == "smart"@ {
            Some(OptionSlot::Smart)
        } else if key == "default_info_string"@ {
            Some(OptionSlot::DefaultInfoString)
        } else {
            None
        },
        OptionGroup::Render => if key == "hardbreaks"@ {
            Some(OptionSlot::Hardbreaks)
        } else if key == "github_pre_lang"@ {
            Some(OptionSlot::GithubPreLang)
        } else if key == "width"@ {
            Some(OptionSlot::Width)
        } else if key == "unsafe_"@ {
            Some(OptionSlot::Unsafe)
        } else if key == "escape"@ {
            Some(OptionSlot::Escape)
        } else {
            None
        },
        OptionGroup::Extension => if key == "strikethrough"@ {
            Some(OptionSlot::Strikethrough)
        } else if key == "tagfilter"@ {
            Some(OptionSlot::Tagfilter)
        } else if key == "table"@ {
            Some(OptionSlot::Table)
        } else if key == "autolink"@ {
            Some(OptionSlot::Autolink)
        } else if key == "tasklist"@ {
            Some(OptionSlot::Tasklist)
        } else if key == "superscript"@ {
            Some(OptionSlot::Superscript)
        } else if key == "header_ids"@ {
            Some(OptionSlot::HeaderIds)
        } else if key == "footnotes"@ {
            Some(OptionSlot::Footnotes)
        } else if key == "description_lists"@ {
            Some(OptionSlot::DescriptionLists)
        } else if key == "front_matter_delimiter"@ {
            Some(OptionSlot::FrontMatterDelimiter)
        } else {
            None
        },
    }
}

impl OptionSlot {
    pub open spec fn spec_kind(self) -> OptionKind {
        match self {
            OptionSlot::DefaultInfoString | OptionSlot::HeaderIds
            | OptionSlot::FrontMatterDelimiter => OptionKind::Text,
            OptionSlot::Width => OptionKind::Integer,
            _ => OptionKind::Boolean,
        }
    }

    /// The shape of value this option takes.
    #[verifier::when_used_as_spec(spec_kind)]
    pub fn kind(self) -> (r: OptionKind)
        ensures
            r == self.spec_kind(),
    {
        match self {
            OptionSlot::DefaultInfoString | OptionSlot::HeaderIds
            | OptionSlot::FrontMatterDelimiter => OptionKind::Text,
            OptionSlot::Width => OptionKind::Integer,
            _ => OptionKind::Boolean,
        }
    }
}

/// Whether `v` has the shape that `kind` asks for. A text option also takes
/// `Nil` (unset), and an integer option takes what fits a `usize` and is not
/// negative.
pub open spec fn value_fits(kind: OptionKind, v: OptionValue) -> bool {
    match (kind, v) {
        (OptionKind::Boolean, OptionValue::Boolean(_)) => true,
        (OptionKind::Integer, OptionValue::Integer(n)) => 0 <= n && n <= usize::MAX,
        (OptionKind::Text, OptionValue::Text(_)) => true,
        (OptionKind::Text, OptionValue::Nil) => true,
        (OptionKind::Group, OptionValue::Group(_)) => true,
        _ => false,
    }
}

pub open spec fn bool_of(v: OptionValue) -> bool {
    match v {
        OptionValue::Boolean(b) => b,
        _ => false,
    }
}

pub open spec fn text_of(v: OptionValue) -> Option<Seq<char>> {
    match v {
        OptionValue::Text(t) => Some(t@),
        _ => None,
    }
}

pub open spec fn nat_of(v: OptionValue) -> nat {
    match v {
        OptionValue::Integer(n) => if n >= 0 { n as nat } else { 0 },
        _ => 0,
    }
}

/// The settings after one option is set.
pub open spec fn set_option(s: RenderSettings, slot: OptionSlot, v: OptionValue) -> RenderSettings {
    match slot {
        OptionSlot::Smart => RenderSettings { smart: bool_of(v), ..s },
        OptionSlot::DefaultInfoString => RenderSettings { default_info_string: text_of(v), ..s },
        OptionSlot::Hardbreaks => RenderSettings { hardbreaks: bool_of(v), ..s },
        OptionSlot::GithubPreLang => RenderSettings { github_pre_lang: bool_of(v), ..s },
        OptionSlot::Width => RenderSettings { width: nat_of(v), ..s },
        OptionSlot::Unsafe => RenderSettings { unsafe_: bool_of(v), ..s },
        OptionSlot::Escape => RenderSettings { escape: bool_of(v), ..s },
        OptionSlot::Strikethrough => RenderSettings { strikethrough: bool_of(v), ..s },
        OptionSlot::Tagfilter => RenderSettings { tagfilter: bool_of(v), ..s },
        OptionSlot::Table => RenderSettings { table: bool_of(v), ..s },
        OptionSlot::Autolink => RenderSettings { autolink: bool_of(v), ..s },
        OptionSlot::Tasklist => RenderSettings { tasklist: bool_of(v), ..s },
        OptionSlot::Superscript => RenderSettings { superscript: bool_of(v), ..s },
        OptionSlot::HeaderIds => RenderSettings { header_ids: text_of(v), ..s },
        OptionSlot::Footnotes => RenderSettings { footnotes: bool_of(v), ..s },
        OptionSlot::DescriptionLists => RenderSettings { description_lists: bool_of(v), ..s },
        OptionSlot::FrontMatterDelimiter => RenderSettings { front_matter_delimiter: text_of(v), ..s },
    }
}

/// The first key of a group's entries that the group does not hold.
pub open spec fn unknown_in_group(g: OptionGroup, es: Seq<OptionEntry>) -> Option<Seq<char>>
    decreases es.len(),
{
    if es.len() == 0 {
        None
    } else if slot_named(g, es[0].key@) is None {
        Some(es[0].key@)
    } else {
        unknown_in_group(g, es.drop_first())
    }
}

/// The first key, in order, that names nothing: a top-level key that is no
/// group, or a key inside a group that the group does not hold.
pub open spec fn unknown_key(es: Seq<OptionEntry>) -> Option<Seq<char>>
    decreases es.len(),
{
    if es.len() == 0 {
        None
    } else {
        match group_named(es[0].key@) {
            None => Some(es[0].key@),
            Some(g) => match es[0].value {
                OptionValue::Group(inner) => match unknown_in_group(g, inner@) {
                    Some(k) => Some(k),
                    None => unknown_key(es.drop_first()),
                },
                _ => unknown_key(es.drop_first()),
            },
        }
    }
}

/// Sets a group's options on `s` in order; the first value of the wrong
/// shape fails.
pub open spec fn group_outcome(s: RenderSettings, g: OptionGroup, es: Seq<OptionEntry>) -> Result<
    RenderSettings,
    ConfigFailure,
>
    decreases es.len(),
{
    if es.len() == 0 {
        Ok(s)
    } else {
        match slot_named(g, es[0].key@) {
            None => Err(ConfigFailure::UnknownOption(es[0].key@)),
            Some(slot) => if value_fits(slot.kind(), es[0].value) {
                group_outcome(set_option(s, slot, es[0].value), g, es.drop_first())
            } else {
                Err(ConfigFailure::InvalidOptionValue(es[0].key@, slot.kind()))
            },
        }
    }
}

/// Sets every group's options on `s` in order; a top-level value that is
/// not a group fails.
pub open spec fn groups_outcome(s: RenderSettings, es: Seq<OptionEntry>) -> Result<
    RenderSettings,
    ConfigFailure,
>
    decreases es.len(),
{
    if es.len() == 0 {
        Ok(s)
    } else {
        match group_named(es[0].key@) {
            None => Err(ConfigFailure::UnknownOption(es[0].key@)),
            Some(g) => match es[0].value {
                OptionValue::Group(inner) => match group_outcome(s, g, inner@) {
                    Ok(s2) => groups_outcome(s2, es.drop_first()),
                    Err(e) => Err(e),
                },
                _ => Err(ConfigFailure::InvalidOptionValue(es[0].key@, OptionKind::Group)),
            },
        }
    }
}

/// What resolving an option mapping gives: the defaults when there is none;
/// otherwise an unknown key anywhere fails first, then the first value of the
/// wrong shape, and else every option is set on the defaults.
pub open spec fn options_outcome(raw: Option<Seq<OptionEntry>>) -> Result<RenderSettings, ConfigFailure> {
    match raw {
        None => Ok(default_settings()),
        Some(es) => match unknown_key(es) {
            Some(k) => Err(ConfigFailure::UnknownOption(k)),
            None => groups_outcome(default_settings(), es),
        },
    }
}

pub open spec fn config_result_view(r: Result<RenderConfiguration, ConfigurationError>) -> Result<
    RenderSettings,
    ConfigFailure,
> {
    match r {
        Ok(c) => Ok(c@),
        Err(e) => Err(e@),
    }
}

pub open spec fn entries_view(raw: Option<&Vec<OptionEntry>>) -> Option<Seq<OptionEntry>> {
    match raw {
        Some(v) => Some(v@),
        None => None,
    }
}

impl RenderConfiguration {
    /// The renderer's default configuration.
    pub fn new() -> (r: RenderConfiguration)
        ensures
            r@ == default_settings(),
    {
        RenderConfiguration {
            smart: false,
            default_info_string: None,
            hardbreaks: false,
            github_pre_lang: false,
            width: 0,
            unsafe_: false,
            escape: false,
            strikethrough: false,
            tagfilter: false,
            table: false,
            autolink: false,
            tasklist: false,
            superscript: false,
            header_ids: None,
            footnotes: false,
            description_lists: false,
            front_matter_delimiter: None,
        }
    }
}

/// Finds the group that a top-level key names.
pub fn find_group(key: &str) -> (r: Option<OptionGroup>)
    ensures
        r == group_named(key@),
{
    if str_eq(key, "parse") {
        Some(OptionGroup::Parse)
    } else if str_eq(key, "render") {
        Some(OptionGroup::Render)
    } else if str_eq(key, "extension") {
        Some(OptionGroup::Extension)
    } else {
        None
    }
}

/// Finds the option that a key names inside a group.
pub fn find_slot(group: OptionGroup, key: &str) -> (r: Option<OptionSlot>)
    ensures
        r == slot_named(group, key@),
{
    match group {
        OptionGroup::Parse => if str_eq(key, "smart") {
            Some(OptionSlot::Smart)
        } else if str_eq(key, "default_info_string") {
            Some(OptionSlot::DefaultInfoString)
        } else {
            None
        },
        OptionGroup::Render => if str_eq(key, "hardbreaks") {
            Some(OptionSlot::Hardbreaks)
        } else if str_eq(key, "github_pre_lang") {
            Some(OptionSlot::GithubPreLang)
        } else if str_eq(key, "width") {
            Some(OptionSlot::Width)
        } else if str_eq(key, "unsafe_") {
            Some(OptionSlot::Unsafe)
        } else if str_eq(key, "escape") {
            Some(OptionSlot::Escape)
        } else {
            None
        },
        OptionGroup::Extension => if str_eq(key, "strikethrough") {
            Some(OptionSlot::Strikethrough)
        } else if str_eq(key, "tagfilter") {
            Some(OptionSlot::Tagfilter)
        } else if str_eq(key, "table") {
            Some(OptionSlot::Table)
        } else if str_eq(key, "autolink") {
            Some(OptionSlot::Autolink)
        } else if str_eq(key, "tasklist") {
            Some(OptionSlot::Tasklist)
        } else if str_eq(key, "superscript") {
            Some(OptionSlot::Superscript)
        } else if str_eq(key, "header_ids") {
            Some(OptionSlot::HeaderIds)
        } else if str_eq(key, "footnotes") {
            Some(OptionSlot::Footnotes)
        } else if str_eq(key, "description_lists") {
            Some(OptionSlot::DescriptionLists)
        } else if str_eq(key, "front_matter_delimiter") {
            Some(OptionSlot::FrontMatterDelimiter)
        } else {
            None
        },
    }
}

/// Whether `v` has the shape that `kind` asks for.
pub fn fits(kind: OptionKind, v: &OptionValue) -> (r: bool)
    ensures
        r == value_fits(kind, *v),
{
    match (kind, v) {
        (OptionKind::Boolean, OptionValue::Boolean(_)) => true,
        (OptionKind::Integer, OptionValue::Integer(n)) => 0 <= *n && (*n as u64) <= (usize::MAX as u64),
        (OptionKind::Text, OptionValue::Text(_)) => true,
        (OptionKind::Text, OptionValue::Nil) => true,
        (OptionKind::Group, OptionValue::Group(_)) => true,
        _ => false,
    }
}

fn bool_value(v: &OptionValue) -> (r: bool)
    ensures
        r == bool_of(*v),
{
    match v {
        OptionValue::Boolean(b) => *b,
        _ => false,
    }
}

fn text_value(v: &OptionValue) -> (r: Option<String>)
    ensures
        opt_view(r) == text_of(*v),
{
    match v {
        OptionValue::Text(t) => Some(t.clone()),
        _ => None,
    }
}

#[verifier::spinoff_prover]
#[verifier::rlimit(100)]
fn set_flag(c: &mut RenderConfiguration, slot: OptionSlot, b: bool)
    requires
        slot.kind() == OptionKind::Boolean,
    ensures
        final(c)@ == set_option(old(c)@, slot, OptionValue::Boolean(b)),
{
    match slot {
        OptionSlot::Smart => c.smart = b,
        OptionSlot::Hardbreaks => c.hardbreaks = b,
        OptionSlot::GithubPreLang => c.github_pre_lang = b,
        OptionSlot::Unsafe => c.unsafe_ = b,
        OptionSlot::Escape => c.escape = b,
        OptionSlot::Strikethrough => c.strikethrough = b,
        OptionSlot::Tagfilter => c.tagfilter = b,
        OptionSlot::Table => c.table = b,
        OptionSlot::Autolink => c.autolink = b,
        OptionSlot::Tasklist => c.tasklist = b,
        OptionSlot::Superscript => c.superscript = b,
        OptionSlot::Footnotes => c.footnotes = b,
        OptionSlot::DescriptionLists => c.description_lists = b,
        _ => {},
    }
}

fn set_text(c: &mut RenderConfiguration, slot: OptionSlot, v: &OptionValue)
    requires
        slot.kind() == OptionKind::Text,
    ensures
        final(c)@ == set_option(old(c)@, slot, *v),
{
    let t = text_value(v);
    match slot {
        OptionSlot::DefaultInfoString => c.default_info_string = t,
        OptionSlot::HeaderIds => c.header_ids = t,
        _ => c.front_matter_delimiter = t,
    }
}

/// Sets one option on the configuration.
pub fn set_slot(c: &mut RenderConfiguration, slot: OptionSlot, v: &OptionValue)
    requires
        value_fits(slot.kind(), *v),
    ensures
        final(c)@ == set_option(old(c)@, slot, *v),
{
    match v {
        OptionValue::Boolean(b) => set_flag(c, slot, *b),
        OptionValue::Integer(n) => c.width = *n as usize,
        _ => set_text(c, slot, v),
    }
}

/// The first key of a group's entries that the group does not hold.
fn group_unknown(g: OptionGroup, es: &Vec<OptionEntry>) -> (r: Option<String>)
    ensures
        opt_view(r) == unknown_in_group(g, es@),
{
    let n = es.len();
    let mut i: usize = 0;
    assert(es@.subrange(0, n as int) =~= es@);
    while i < n
        invariant
            n == es@.len(),
            i <= n,
            unknown_in_group(g, es@) == unknown_in_group(g, es@.subrange(i as int, n as int)),
        decreases n - i,
    {
        assert(es@.subrange(i as int, n as int).drop_first() =~= es@.subrange(i + 1, n as int));
        let e = &es[i];
        if find_slot(g, e.key.as_str()).is_none() {
            return Some(e.key.clone());
        }
        i = i + 1;
    }
    assert(es@.subrange(n as int, n as int).len() == 0);
    None
}

/// The first key, in order, that names nothing, at the top or inside a group.
pub fn first_unknown_key(es: &Vec<OptionEntry>) -> (r: Option<String>)
    ensures
        opt_view(r) == unknown_key(es@),
{
    let n = es.len();
    let mut i: usize = 0;
    assert(es@.subrange(0, n as int) =~= es@);
    while i < n
        invariant
            n == es@.len(),
            i <= n,
            unknown_key(es@) == unknown_key(es@.subrange(i as int, n as int)),
        decreases n - i,
    {
        assert(es@.subrange(i as int, n as int).drop_first() =~= es@.subrange(i + 1, n as int));
        let e = &es[i];
        match find_group(e.key.as_str()) {
            None => {
                return Some(e.key.clone());
            },
            Some(g) => {
                if let OptionValue::Group(inner) = &e.value {
                    let u = group_unknown(g, inner);
                    if u.is_some() {
                        return u;
                    }
                }
            },
        }
        i = i + 1;
    }
    assert(es@.subrange(n as int, n as int).len() == 0);
    None
}

/// Sets a group's options on `c` in order, stopping at the first that fails.
fn apply_group(c: &mut RenderConfiguration, g: OptionGroup, es: &Vec<OptionEntry>) -> (r: Result<
    (),
    ConfigurationError,
>)
    ensures
        match group_outcome(old(c)@, g, es@) {
            Ok(s) => r is Ok && final(c)@ == s,
            Err(e) => r is Err && r->Err_0@ == e,
        },
{
    let n = es.len();
    let mut i: usize = 0;
    assert(es@.subrange(0, n as int) =~= es@);
    while i < n
        invariant
            n == es@.len(),
            i <= n,
            group_outcome(c@, g, es@.subrange(i as int, n as int)) == group_outcome(
                old(c)@,
                g,
                es@,
            ),
        decreases n - i,
    {
        assert(es@.subrange(i as int, n as int).drop_first() =~= es@.subrange(i + 1, n as int));
        let e = &es[i];
        match find_slot(g, e.key.as_str()) {
            None => {
                return Err(ConfigurationError::UnknownOption(e.key.clone()));
            },
            Some(slot) => {
                if !fits(slot.kind(), &e.value) {
                    return Err(ConfigurationError::InvalidOptionValue(e.key.clone(), slot.kind()));
                }
                set_slot(c, slot, &e.value);
            },
        }
        i = i + 1;
    }
    assert(es@.subrange(n as int, n as int).len() == 0);
    Ok(())
}

/// Turns the caller's option mapping into a render configuration: the
/// defaults when there is none; otherwise an unknown key anywhere fails with
/// `UnknownOption`, a value of the wrong shape with `InvalidOptionValue`, and
/// else each option is set in order on the defaults.
pub fn resolve_options(raw: Option<&Vec<OptionEntry>>) -> (r: Result<
    RenderConfiguration,
    ConfigurationError,
>)
    ensures
        config_result_view(r) == options_outcome(entries_view(raw)),
{
    let mut c = RenderConfiguration::new();
    let es = match raw {
        None => {
            return Ok(c);
        },
        Some(es) => es,
    };
    if let Some(k) = first_unknown_key(es) {
        return Err(ConfigurationError::UnknownOption(k));
    }
    let n = es.len();
    let mut i: usize = 0;
    assert(es@.subrange(0, n as int) =~= es@);
    while i < n
        invariant
            n == es@.len(),
            i <= n,
            groups_outcome(c@, es@.subrange(i as int, n as int)) == groups_outcome(
                default_settings(),
                es@,
            ),
            unknown_key(es@) is None,
            entries_view(raw) == Some(es@),
        decreases n - i,
    {
        assert(es@.subrange(i as int, n as int).drop_first() =~= es@.subrange(i + 1, n as int));
        let e = &es[i];
        match find_group(e.key.as_str()) {
            None => {
                return Err(ConfigurationError::UnknownOption(e.key.clone()));
            },
            Some(g) => match &e.value {
                OptionValue::Group(inner) => {
                    if let Err(x) = apply_group(&mut c, g, inner) {
                        return Err(x);
                    }
                },
                _ => {
                    return Err(ConfigurationError::InvalidOptionValue(e.key.clone(), OptionKind::Group));
                },
            },
        }
        i = i + 1;
    }
    assert(es@.subrange(n as int, n as int).len() == 0);
    Ok(c)
}

impl OptionKind {
    pub open spec fn spec_name(self) -> Seq<char> {
        match self {
            OptionKind::Boolean => "a boolean"@,
            OptionKind::Integer => "a non-negative integer"@,
            OptionKind::Text => "a string or nil"@,
            OptionKind::Group => "a hash"@,
        }
    }

    /// How the expected shape reads in a message.
    pub fn name(&self) -> (r: &'static str)
        ensures
            r@ == self.spec_name(),
    {
        match self {
            OptionKind::Boolean => "a boolean",
            OptionKind::Integer => "a non-negative integer",
            OptionKind::Text => "a string or nil",
            OptionKind::Group => "a hash",
        }
    }
}

impl ConfigFailure {
    /// The message shown to the caller.
    pub open spec fn message(self) -> Seq<char> {
        match self {
            ConfigFailure::UnknownOption(k) => "unknown option `"@ + k + "`"@,
            ConfigFailure::InvalidOptionValue(k, kind) => "option `"@ + k + "` expects "@
                + kind.spec_name(),
        }
    }
}

impl ConfigurationError {
    /// The message shown to the caller.
    pub fn message(&self) -> (r: String)
        ensures
            r@ == self@.message(),
    {
        match self {
            ConfigurationError::UnknownOption(k) => {
                let mut m = "unknown option `".to_owned();
                m.append(k.as_str());
                m.append("`");
                m
            },
            ConfigurationError::InvalidOptionValue(k, kind) => {
                let mut m = "option `".to_owned();
                m.append(k.as_str());
                m.append("` expects ");
                m.append(kind.name());
                m
            },
        }
    }
}

} // verus!
