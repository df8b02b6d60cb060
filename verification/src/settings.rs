use vstd::prelude::*;
use crate::config::{language_name, Language};

verus! {

/// What a top-level key of a TOML document holds.
#[derive(Clone, Copy, Debug, PartialEq, Eq, Structural)]
pub enum TomlSlot {
    /// The key is absent.
    Empty,
    /// A `[table]` section.
    Table,
    /// An inline table `{ ... }`.
    InlineTable,
    /// An array of tables `[[table]]`.
    ArrayOfTables,
    /// Any other value.
    Other,
}

/// What toml_edit finds under the top-level key `key` of the document
/// `content`; `None` when `content` is not a TOML document.
pub uninterp spec fn toml_slot(content: Seq<char>, key: Seq<char>) -> Option<TomlSlot>;

/// The text toml_edit renders after parsing `content` and assigning the
/// string `value` to `key` inside the top-level table `table`; the error
/// message of the parse when `content` is not a TOML document.
pub uninterp spec fn toml_assigned(
    content: Seq<char>,
    table: Seq<char>,
    key: Seq<char>,
    value: Seq<char>,
) -> Result<Seq<char>, Seq<char>>;

/// A slot that a key can be assigned inside without toml_edit panicking.
pub open spec fn assignable(slot: Option<TomlSlot>) -> bool {
    match slot {
        Some(s) => s is Empty || s is Table || s is InlineTable,
        None => true,
    }
}

/// The texts of a `Result<String, String>`.
pub open spec fn result_text(r: Result<String, String>) -> Result<Seq<char>, Seq<char>> {
    match r {
        Ok(s) => Ok(s@),
        Err(e) => Err(e@),
    }
}

/// Parses `content` with toml_edit's `DocumentMut` and looks up the top-level
/// `key` with `Table::get`. The contract claims only that the answer is a
/// function of `content` and `key` (`toml_slot`), and that `None` stands for a
/// parse error; which slot a given text has is not stated.
#[verifier::external_body]
fn toml_top_slot(content: &str, key: &str) -> (r: Option<TomlSlot>)
    ensures
        r == toml_slot(content@, key@),
{
    match content.parse::<toml_edit::DocumentMut>() {
        Err(_) => None,
        Ok(doc) => Some(match doc.get(key) {
            None => TomlSlot::Empty,
            Some(toml_edit::Item::None) => TomlSlot::Empty,
            Some(toml_edit::Item::Table(_)) => TomlSlot::Table,
            Some(toml_edit::Item::ArrayOfTables(_)) => TomlSlot::ArrayOfTables,
            Some(toml_edit::Item::Value(toml_edit::Value::InlineTable(_))) => TomlSlot::InlineTable,
            Some(toml_edit::Item::Value(_)) => TomlSlot::Other,
        }),
    }
}

/// Parses `content` with toml_edit's `DocumentMut`, assigns `value` to
/// `doc[table][key]` (toml_edit's `IndexMut`, which creates `table` as an
/// inline table when it is absent, and panics when it holds a non-table) and
/// renders the document with `Display`; a parse error is rendered as its
/// message. The contract claims that the result is a function of the four
/// texts (`toml_assigned`) and that it is `Ok` exactly when the same text has
/// a `toml_slot`, since both parse it with the same parser; what the rendered
/// text is, is not stated.
#[verifier::external_body]
fn toml_assign(content: &str, table: &str, key: &str, value: &str) -> (r: Result<String, String>)
    requires
        assignable(toml_slot(content@, table@)),
    ensures
        result_text(r) == toml_assigned(content@, table@, key@, value@),
        r is Ok <==> toml_slot(content@, table@) is Some,
{
    let mut doc = match content.parse::<toml_edit::DocumentMut>() {
        Ok(doc) => doc,
        Err(e) => return Err(e.to_string()),
    };
    doc[table][key] = toml_edit::value(value);
    Ok(doc.to_string())
}

/// Why a settings file could not be updated.
#[derive(Debug)]
pub enum SettingsError {
    /// The file is not TOML; the parser's message.
    Invalid { message: String },
    /// `settings` holds something that is not a table.
    NotATable,
}

/// The message a settings error is reported with.
pub open spec fn settings_error_text(e: SettingsError) -> Seq<char> {
    match e {
        SettingsError::Invalid { message } => message@,
        SettingsError::NotATable => "settings is not a table"@,
    }
}

impl SettingsError {
    /// The message this error is reported with (see `settings_error_text`).
    pub fn message(&self) -> (r: String)
        ensures
            r@ == settings_error_text(*self),
    {
        match self {
            SettingsError::Invalid { message } => message.clone(),
            SettingsError::NotATable => "settings is not a table".to_owned(),
        }
    }
}

/// The content of `config.toml` with `settings.language` set to `lang`; the
/// parser's message when the content is not TOML.
pub fn set_language_in(content: &str, lang: Language) -> (r: Result<String, SettingsError>)
    requires
        assignable(toml_slot(content@, "settings"@)),
    ensures
        r is Ok <==> toml_slot(content@, "settings"@) is Some,
        r matches Ok(s) ==> toml_assigned(content@, "settings"@, "language"@, language_name(lang)) == Ok::<Seq<char>, Seq<char>>(s@),
        r matches Err(e) ==> e matches SettingsError::Invalid { message: m }
            && toml_assigned(content@, "settings"@, "language"@, language_name(lang))
            == Err::<Seq<char>, Seq<char>>(m@),
{
    match toml_assign(content, "settings", "language", lang.name()) {
        Ok(s) => Ok(s),
        Err(m) => Err(SettingsError::Invalid { message: m }),
    }
}

/// An `Invalid` error holds the parser's message for `content`.
pub open spec fn carries_parse_message(e: SettingsError, content: Seq<char>, lang: Language) -> bool {
    match e {
        SettingsError::Invalid { message } => toml_assigned(content, "settings"@, "language"@, language_name(lang))
            == Err::<Seq<char>, Seq<char>>(message@),
        SettingsError::NotATable => true,
    }
}

/// The content of `config.toml` with `settings.language` set to `lang`;
/// refused when the content is not TOML, or when `settings` holds something
/// other than a table.
pub fn set_language(content: &str, lang: Language) -> (r: Result<String, SettingsError>)
    ensures
        assignable(toml_slot(content@, "settings"@)) ==> (r is Ok <==> toml_slot(content@, "settings"@) is Some),
        !assignable(toml_slot(content@, "settings"@)) ==> (r matches Err(e) && e is NotATable),
        r matches Ok(s) ==> toml_assigned(content@, "settings"@, "language"@, language_name(lang)) == Ok::<Seq<char>, Seq<char>>(s@),
        r matches Err(e) ==> (e is Invalid <==> toml_slot(content@, "settings"@) is None),
        r matches Err(e) ==> carries_parse_message(e, content@, lang),
{
    let slot = toml_top_slot(content, "settings");
    match slot {
        Some(TomlSlot::ArrayOfTables) => Err(SettingsError::NotATable),
        Some(TomlSlot::Other) => Err(SettingsError::NotATable),
        _ => set_language_in(content, lang),
    }
}

} // verus!
