//! The `config` subcommand: the editor it opens and the listing it prints.

use toml::{Table, Value};
use vstd::prelude::*;

use crate::config::{Config, default_config};
use crate::text::{format_i64, lit, signed_decimal};
use crate::ui::detect::opt_str_view;

verus! {

/// Arguments of the `config` subcommand.
#[derive(Debug, Clone, Copy, PartialEq, Eq)]
pub struct Args {
    pub command: ConfigCommand,
}

/// What the `config` subcommand does.
#[derive(Debug, Clone, Copy, PartialEq, Eq)]
pub enum ConfigCommand {
    /// Open the config file in an editor (creates it with defaults if missing).
    Edit,
    /// Display the current configuration (merged with defaults).
    List,
    /// Print the config file path.
    Path,
}

/// The editor: `VISUAL` if set and not empty, else `EDITOR` likewise, else
/// `notepad` on Windows and `vi` elsewhere.
pub open spec fn editor_spec(visual: Option<Seq<char>>, editor: Option<Seq<char>>, windows: bool) -> Seq<char> {
    match visual {
        Some(v) if v.len() > 0 => v,
        _ => match editor {
            Some(e) if e.len() > 0 => e,
            _ => if windows { "notepad"@ } else { "vi"@ },
        },
    }
}

/// `VISUAL` wins when set and not empty; otherwise `EDITOR` when set and not
/// empty, whether `VISUAL` is unset or empty; otherwise the platform's
/// default editor.
pub proof fn lemma_editor_choice(visual: Option<Seq<char>>, editor: Option<Seq<char>>, windows: bool)
    ensures
        (visual matches Some(v) && v.len() > 0) ==> editor_spec(visual, editor, windows) == visual->0,
        !(visual matches Some(v) && v.len() > 0) && (editor matches Some(e) && e.len() > 0)
            ==> editor_spec(visual, editor, windows) == editor->0,
        !(visual matches Some(v) && v.len() > 0) && !(editor matches Some(e) && e.len() > 0)
            ==> editor_spec(visual, editor, windows)
                == if windows { seq!['n', 'o', 't', 'e', 'p', 'a', 'd'] } else { seq!['v', 'i'] },
{
    reveal_strlit("notepad");
    reveal_strlit("vi");
    assert("notepad"@ =~= seq!['n', 'o', 't', 'e', 'p', 'a', 'd']);
    assert("vi"@ =~= seq!['v', 'i']);
}

/// Choose the editor from the values of `VISUAL` and `EDITOR`.
pub fn choose_editor(visual: Option<&str>, editor: Option<&str>, windows: bool) -> (r: String)
    ensures
        r@ == editor_spec(opt_str_view(visual), opt_str_view(editor), windows),
{
    if let Some(v) = visual {
        if !v.is_empty() {
            return lit(v);
        }
    }
    if let Some(e) = editor {
        if !e.is_empty() {
            return lit(e);
        }
    }
    if windows {
        lit("notepad")
    } else {
        lit("vi")
    }
}

/// What the user's config file sets, each value already written in TOML
/// syntax; `None` where the file does not set the key.
#[derive(Debug, Clone)]
pub struct ConfigListing {
    pub enabled: Option<String>,
    pub level: Option<String>,
    /// Whether the `[general]` table exists and is not empty.
    pub has_general_keys: bool,
    pub timeout: Option<String>,
    pub ui: Option<String>,
    pub keyring: Option<String>,
}

/// `true` or `false` as TOML writes it.
pub open spec fn bool_text(b: bool) -> Seq<char> {
    if b { "true"@ } else { "false"@ }
}

/// A key set by the user, or its default commented out.
pub open spec fn entry(key: Seq<char>, set: Option<Seq<char>>, default: Seq<char>) -> Seq<char> {
    match set {
        Some(v) => key + " = "@ + v + "\n"@,
        None => "# "@ + key + " = "@ + default + "\n"@,
    }
}

/// The listing: the user's values, and the defaults commented out where
/// the file sets nothing.
pub open spec fn listing_spec(
    enabled: Option<Seq<char>>,
    level: Option<Seq<char>>,
    has_general_keys: bool,
    timeout: Option<Seq<char>>,
    ui: Option<Seq<char>>,
    keyring: Option<Seq<char>>,
) -> Seq<char> {
    let d = default_config();
    "[logging]\n"@
        + entry("enabled"@, enabled, bool_text(d.logging_enabled))
        + entry("level"@, level, "\""@ + d.level + "\""@)
        + "\n"@
        + (if has_general_keys { "[general]\n"@ } else { "# [general]\n"@ })
        + entry("timeout"@, timeout, "60"@)
        + entry("ui"@, ui, "\"auto\""@)
        + entry("keyring"@, keyring, bool_text(d.keyring))
}

fn push_entry(out: &mut String, key: &str, set: &Option<String>, default: &str)
    ensures
        final(out)@ == old(out)@ + entry(key@, match set {
            Some(v) => Some(v@),
            None => None,
        }, default@),
{
    match set {
        Some(v) => {
            out.append(key);
            out.append(" = ");
            out.append(v.as_str());
            out.append("\n");
        },
        None => {
            out.append("# ");
            out.append(key);
            out.append(" = ");
            out.append(default);
            out.append("\n");
        },
    }
}

fn bool_str(b: bool) -> (r: &'static str)
    ensures
        r@ == bool_text(b),
{
    if b {
        "true"
    } else {
        "false"
    }
}

/// The configuration merged with its defaults, as `config list` prints it.
pub fn render_config_listing(listing: &ConfigListing) -> (r: String)
    ensures
        r@ == listing_spec(
            crate::config::opt_chars(listing.enabled),
            crate::config::opt_chars(listing.level),
            listing.has_general_keys,
            crate::config::opt_chars(listing.timeout),
            crate::config::opt_chars(listing.ui),
            crate::config::opt_chars(listing.keyring),
        ),
{
    let defaults = Config::default();
    let mut out = lit("[logging]\n");
    push_entry(&mut out, "enabled", &listing.enabled, bool_str(defaults.logging.enabled));
    let mut quoted_level = lit("\"");
    quoted_level.append(defaults.logging.level.as_str());
    quoted_level.append("\"");
    push_entry(&mut out, "level", &listing.level, quoted_level.as_str());
    out.append("\n");
    if listing.has_general_keys {
        out.append("[general]\n");
    } else {
        out.append("# [general]\n");
    }
    push_entry(&mut out, "timeout", &listing.timeout, "60");
    push_entry(&mut out, "ui", &listing.ui, "\"auto\"");
    push_entry(&mut out, "keyring", &listing.keyring, bool_str(defaults.general.keyring));
    assert(out@ =~= listing_spec(
        crate::config::opt_chars(listing.enabled),
        crate::config::opt_chars(listing.level),
        listing.has_general_keys,
        crate::config::opt_chars(listing.timeout),
        crate::config::opt_chars(listing.ui),
        crate::config::opt_chars(listing.keyring),
    ));
    out
}

// ---------------------------------------------------------------------------
// Reading the user's file
// ---------------------------------------------------------------------------

/// A value of the configuration file, by its TOML type.
#[derive(Debug, Clone, PartialEq)]
pub enum TomlItem {
    /// A string.
    Str(String),
    /// An integer.
    Int(i64),
    /// A float, as Rust writes the number (`f64::to_string`).
    Float(String),
    /// A boolean.
    Bool(bool),
    /// A date, array or table, in TOML syntax.
    Other(String),
}

/// Abstract value of a [`TomlItem`].
pub enum TomlItemView {
    Str(Seq<char>),
    Int(i64),
    Float(Seq<char>),
    Bool(bool),
    Other(Seq<char>),
}

impl View for TomlItem {
    type V = TomlItemView;

    open spec fn view(&self) -> TomlItemView {
        match self {
            TomlItem::Str(s) => TomlItemView::Str(s@),
            TomlItem::Int(i) => TomlItemView::Int(*i),
            TomlItem::Float(t) => TomlItemView::Float(t@),
            TomlItem::Bool(b) => TomlItemView::Bool(*b),
            TomlItem::Other(t) => TomlItemView::Other(t@),
        }
    }
}

/// The view of an optional item.
pub open spec fn opt_item(o: Option<TomlItem>) -> Option<TomlItemView> {
    match o {
        Some(i) => Some(i@),
        None => None,
    }
}

/// A parsed TOML document: its text and the parser's value of it.
///
/// Built only by [`parse_toml`], and neither field changes afterwards, so
/// `value` is always the parse of `text`.
pub struct TomlDoc {
    text: String,
    value: Value,
}

#[verifier::external_type_specification]
#[verifier::external_body]
pub struct ExTomlValue(Value);

/// The parser's error message for a file text, or `None` when it parses
/// (`toml::from_str::<toml::Value>`).
pub uninterp spec fn toml_parse_error(text: Seq<char>) -> Option<Seq<char>>;

/// The value at `table.key` in a parsed file text, by its TOML type, or
/// `None` where the table or the key is missing (`toml::Value::get`).
pub uninterp spec fn toml_item_at(text: Seq<char>, table: Seq<char>, key: Seq<char>) -> Option<TomlItemView>;

/// The number of keys of `table` in a parsed file text, or `None` where
/// it is missing or not a table (`toml::Value::as_table`, `Table::len`).
pub uninterp spec fn toml_table_size(text: Seq<char>, table: Seq<char>) -> Option<usize>;

/// `toml::from_str::<toml::Value>`: parse a file text.
#[verifier::external_body]
fn parse_toml(contents: &str) -> (r: Result<TomlDoc, String>)
    ensures
        match r {
            Ok(d) => d.text@ == contents@ && toml_parse_error(contents@) is None,
            Err(e) => toml_parse_error(contents@) == Some(e@),
        },
{
    match toml::from_str::<Value>(contents) {
        Ok(value) => Ok(TomlDoc { text: contents.to_string(), value }),
        Err(e) => Err(e.to_string()),
    }
}

/// `toml::Value::get` on the table, then on the key; the value found is
/// converted to its tagged form.
#[verifier::external_body]
fn toml_lookup(doc: &TomlDoc, table: &str, key: &str) -> (r: Option<TomlItem>)
    ensures
        opt_item(r) == toml_item_at(doc.text@, table@, key@),
{
    Some(match doc.value.get(table)?.get(key)? {
        Value::String(s) => TomlItem::Str(s.clone()),
        Value::Integer(i) => TomlItem::Int(*i),
        Value::Float(f) => TomlItem::Float(f.to_string()),
        Value::Boolean(b) => TomlItem::Bool(*b),
        x => TomlItem::Other(x.to_string()),
    })
}

/// `toml::Value::get` on the table, `as_table`, then `Table::len`.
#[verifier::external_body]
fn toml_table_len(doc: &TomlDoc, table: &str) -> (r: Option<usize>)
    ensures
        r == toml_table_size(doc.text@, table@),
{
    doc.value.get(table)?.as_table().map(Table::len)
}

/// How a value is shown: strings in double quotes, numbers and booleans as
/// written, anything else in TOML syntax.
pub open spec fn item_text(i: TomlItemView) -> Seq<char> {
    match i {
        TomlItemView::Str(s) => "\""@ + s + "\""@,
        TomlItemView::Int(n) => signed_decimal(n as int),
        TomlItemView::Float(t) => t,
        TomlItemView::Bool(b) => bool_text(b),
        TomlItemView::Other(t) => t,
    }
}

/// The text of an optional value.
pub open spec fn opt_item_text(o: Option<TomlItemView>) -> Option<Seq<char>> {
    match o {
        Some(i) => Some(item_text(i)),
        None => None,
    }
}

/// Whether the `[general]` table exists and holds keys.
pub open spec fn has_keys(general_len: Option<usize>) -> bool {
    match general_len {
        Some(n) => n > 0,
        None => false,
    }
}

/// The listing of a file text: the merged configuration, or the parser's
/// error. It shows `logging.enabled`, `logging.level`, `general.timeout`,
/// `general.ui` and `general.keyring`, and whether `[general]` holds keys.
pub open spec fn config_listing_spec(contents: Seq<char>) -> Result<Seq<char>, Seq<char>> {
    match toml_parse_error(contents) {
        Some(e) => Err(e),
        None => Ok(listing_spec(
            opt_item_text(toml_item_at(contents, "logging"@, "enabled"@)),
            opt_item_text(toml_item_at(contents, "logging"@, "level"@)),
            has_keys(toml_table_size(contents, "general"@)),
            opt_item_text(toml_item_at(contents, "general"@, "timeout"@)),
            opt_item_text(toml_item_at(contents, "general"@, "ui"@)),
            opt_item_text(toml_item_at(contents, "general"@, "keyring"@)),
        )),
    }
}

/// Show a value of the configuration file.
pub fn format_item(item: &TomlItem) -> (r: String)
    ensures
        r@ == item_text(item@),
{
    match item {
        TomlItem::Str(s) => {
            let mut out = lit("\"");
            out.append(s.as_str());
            out.append("\"");
            out
        },
        TomlItem::Int(n) => format_i64(*n),
        TomlItem::Float(t) => t.clone(),
        TomlItem::Bool(b) => lit(bool_str(*b)),
        TomlItem::Other(t) => t.clone(),
    }
}

fn format_opt(o: &Option<TomlItem>) -> (r: Option<String>)
    ensures
        crate::config::opt_chars(r) == opt_item_text(opt_item(*o)),
{
    match o {
        Some(i) => Some(format_item(i)),
        None => None,
    }
}

/// The text `config list` prints for a config file holding `contents`, or
/// the parser's error message.
pub fn config_listing_text(contents: &str) -> (r: Result<String, String>)
    ensures
        match r {
            Ok(t) => config_listing_spec(contents@) == Ok::<Seq<char>, Seq<char>>(t@),
            Err(e) => config_listing_spec(contents@) == Err::<Seq<char>, Seq<char>>(e@),
        },
{
    let doc = match parse_toml(contents) {
        Ok(d) => d,
        Err(e) => return Err(e),
    };
    let general_len = toml_table_len(&doc, "general");
    let listing = ConfigListing {
        enabled: format_opt(&toml_lookup(&doc, "logging", "enabled")),
        level: format_opt(&toml_lookup(&doc, "logging", "level")),
        has_general_keys: match general_len {
            Some(n) => n > 0,
            None => false,
        },
        timeout: format_opt(&toml_lookup(&doc, "general", "timeout")),
        ui: format_opt(&toml_lookup(&doc, "general", "ui")),
        keyring: format_opt(&toml_lookup(&doc, "general", "keyring")),
    };
    Ok(render_config_listing(&listing))
}

} // verus!
