use vstd::prelude::*;

verus! {

/// Display language of the tool.
#[derive(Clone, Copy, Debug, PartialEq, Eq, Structural)]
pub enum Language {
    En,
    Ja,
}

/// The name a language is written with in `config.toml` and on the command line.
pub open spec fn language_name(lang: Language) -> Seq<char> {
    match lang {
        Language::En => "en"@,
        Language::Ja => "ja"@,
    }
}

impl Default for Language {
    fn default() -> (r: Self)
        ensures
            r == Language::En,
    {
        Language::En
    }
}

impl Language {
    /// The setting's name: `en` or `ja`.
    pub fn name(&self) -> (r: &'static str)
        ensures
            r@ == language_name(*self),
    {
        match self {
            Language::En => "en",
            Language::Ja => "ja",
        }
    }
}

} // verus!

verus! {

/// Settings read from `config.toml`.
#[derive(Debug)]
pub struct Config {
    pub language: Language,
}

impl Default for Config {
    fn default() -> (r: Self)
        ensures
            r.language == Language::En,
    {
        Config { language: Language::En }
    }
}

/// A registered working directory.
#[derive(Debug)]
pub struct Directory {
    pub path: String,
    pub label: Option<String>,
    pub default: bool,
}

/// What a `Directory` holds, as mathematical text.
pub struct DirView {
    pub path: Seq<char>,
    pub label: Option<Seq<char>>,
    pub default: bool,
}

pub open spec fn option_text(o: Option<String>) -> Option<Seq<char>> {
    match o {
        Some(s) => Some(s@),
        None => None,
    }
}

impl View for Directory {
    type V = DirView;

    open spec fn view(&self) -> DirView {
        DirView { path: self.path@, label: option_text(self.label), default: self.default }
    }
}

/// The text a directory is shown by: its label, or its path when it has none.
pub open spec fn display_text(d: DirView) -> Seq<char> {
    match d.label {
        Some(l) => l,
        None => d.path,
    }
}

impl Directory {
    /// The label when there is one, else the path.
    pub fn display(&self) -> (r: &str)
        ensures
            r@ == display_text(self@),
    {
        match &self.label {
            Some(l) => l.as_str(),
            None => self.path.as_str(),
        }
    }

    /// A copy with the same path, label and default flag.
    pub fn duplicate(&self) -> (r: Directory)
        ensures
            r@ == self@,
    {
        let label = match &self.label {
            Some(l) => Some(l.clone()),
            None => None,
        };
        Directory { path: self.path.clone(), label, default: self.default }
    }
}

} // verus!
