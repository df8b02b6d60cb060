use vstd::prelude::*;
use crate::text::{joined, other_spelling, same_text, toggled_slash};

verus! {

/// Why a command was refused.
#[derive(Debug)]
pub enum CommandError {
    /// The path is registered already (the `add` command's check).
    AlreadyExists { path: String },
    /// The storage refused a second entry with the same path.
    PathNotUnique,
    /// The path is not registered; `hint` is the other spelling of the path
    /// (trailing slash added or removed) when that one is registered.
    NotFound { path: String, hint: Option<String> },
    /// Both paths of a swap are the same.
    SelfSwap,
    /// There is nothing to choose from.
    NoneRegistered,
    /// A swap needs two registered directories.
    TooFewToSwap,
    /// `select` found no directory.
    NoneConfigured,
    /// The user closed a menu without choosing.
    Cancelled,
}

/// The message a refusal is reported with.
pub open spec fn error_text(e: CommandError) -> Seq<char> {
    match e {
        CommandError::AlreadyExists { path } => "already exists: "@ + path@,
        CommandError::NotFound { path, hint } => match hint {
            None => "not found: "@ + path@,
            Some(alt) => "not found: "@ + path@ + "\nhint: did you mean '"@ + alt@ + "'?"@,
        },
        CommandError::PathNotUnique => "UNIQUE constraint failed: dirs.path"@,
        CommandError::SelfSwap => "cannot swap a directory with itself"@,
        CommandError::NoneRegistered => "no directories registered. Use 'hatoba add <path>' to add one."@,
        CommandError::TooFewToSwap => "need at least 2 directories to swap"@,
        CommandError::NoneConfigured => "no directories configured in config.toml"@,
        CommandError::Cancelled => "cancelled"@,
    }
}

impl CommandError {
    /// The message a refusal is reported with (see `error_text`).
    pub fn message(&self) -> (r: String)
        ensures
            r@ == error_text(*self),
    {
        match self {
            CommandError::AlreadyExists { path } => joined("already exists: ", path.as_str()),
            CommandError::NotFound { path, hint } => {
                let head = joined("not found: ", path.as_str());
                match hint {
                    None => head,
                    Some(alt) => {
                        let mut s = joined(head.as_str(), "\nhint: did you mean '");
                        s.append(alt.as_str());
                        s.append("'?");
                        s
                    },
                }
            },
            CommandError::PathNotUnique => "UNIQUE constraint failed: dirs.path".to_owned(),
            CommandError::SelfSwap => "cannot swap a directory with itself".to_owned(),
            CommandError::NoneRegistered => "no directories registered. Use 'hatoba add <path>' to add one.".to_owned(),
            CommandError::TooFewToSwap => "need at least 2 directories to swap".to_owned(),
            CommandError::NoneConfigured => "no directories configured in config.toml".to_owned(),
            CommandError::Cancelled => "cancelled".to_owned(),
        }
    }
}

/// The texts of a list of registered paths.
pub open spec fn path_texts(paths: Seq<String>) -> Seq<Seq<char>> {
    paths.map_values(|s: String| s@)
}

/// The hint given for a path that is not found among `paths`.
pub open spec fn hint_for(paths: Seq<Seq<char>>, path: Seq<char>) -> Option<Seq<char>> {
    if paths.contains(other_spelling(path)) {
        Some(other_spelling(path))
    } else {
        None
    }
}

/// `e` refuses `path` as not registered among `registered`, with the hint
/// `hint_for` gives.
pub open spec fn not_found_for(e: CommandError, path: Seq<char>, registered: Seq<Seq<char>>) -> bool {
    match e {
        CommandError::NotFound { path: p, hint: h } => p@ == path && crate::config::option_text(h)
            == hint_for(registered, path),
        _ => false,
    }
}

/// `e` refuses `path` as registered already.
pub open spec fn already_exists_for(e: CommandError, path: Seq<char>) -> bool {
    match e {
        CommandError::AlreadyExists { path: p } => p@ == path,
        _ => false,
    }
}

/// The refusal for a path that is not among `paths`, with a hint when the
/// path's other spelling (trailing slash added or removed) is.
pub fn not_found_error(paths: &[String], path: &str) -> (r: CommandError)
    ensures
        not_found_for(r, path@, path_texts(paths@)),
{
    let alt = toggled_slash(path);
    let mut found = false;
    let mut i: usize = 0;
    while i < paths.len()
        invariant
            i <= paths@.len(),
            found == (exists|k: int| 0 <= k < i && paths@[k]@ == alt@),
        decreases paths@.len() - i,
    {
        if same_text(paths[i].as_str(), alt.as_str()) {
            found = true;
        }
        i = i + 1;
    }
    proof {
        let texts = path_texts(paths@);
        if found {
            let k = choose|k: int| 0 <= k < paths@.len() && paths@[k]@ == alt@;
            assert(texts[k] == alt@);
        } else {
            assert forall|k: int| 0 <= k < texts.len() implies texts[k] != alt@ by {
                assert(paths@[k]@ == texts[k]);
            }
        }
    }
    let hint = if found { Some(alt) } else { None };
    CommandError::NotFound { path: path.to_owned(), hint }
}

} // verus!
