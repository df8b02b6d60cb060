use vstd::prelude::*;
use crate::config::{display_text, DirView, Directory, Language};
use crate::error::CommandError;
use crate::menu::views;

verus! {

/// The text a directory is offered by in a menu: its label or path, followed
/// by `marker` when it is the default.
pub open spec fn item_text(d: DirView, marker: Seq<char>) -> Seq<char> {
    if d.default {
        display_text(d) + marker
    } else {
        display_text(d)
    }
}

/// The text `dir` is offered by in a menu (see `item_text`).
pub fn menu_item(dir: &Directory, marker: &str) -> (r: String)
    ensures
        r@ == item_text(dir@, marker@),
{
    let mut s: String = dir.display().to_owned();
    if dir.default {
        s.append(marker);
    }
    s
}

/// The menu entries for `dirs`, in their order.
pub fn menu_items(dirs: &[Directory], marker: &str) -> (r: Vec<String>)
    ensures
        r@.len() == dirs@.len(),
        forall|i: int| 0 <= i < dirs@.len() ==> #[trigger] r@[i]@ == item_text(dirs@[i]@, marker@),
{
    let mut r: Vec<String> = Vec::new();
    let mut i: usize = 0;
    while i < dirs.len()
        invariant
            i <= dirs@.len(),
            r@.len() == i,
            forall|k: int| 0 <= k < i ==> #[trigger] r@[k]@ == item_text(dirs@[k]@, marker@),
        decreases dirs@.len() - i,
    {
        r.push(menu_item(&dirs[i], marker));
        i = i + 1;
    }
    r
}

/// Row `r` is where a menu over `s` starts: the first default directory, or
/// the first row when none is the default.
pub open spec fn default_row(s: Seq<DirView>, r: int) -> bool {
    if exists|i: int| 0 <= i < s.len() && s[i].default {
        0 <= r < s.len() && s[r].default && forall|k: int| 0 <= k < r ==> !s[k].default
    } else {
        r == 0
    }
}

/// The row a menu over `dirs` starts on (see `default_row`).
pub fn default_index(dirs: &[Directory]) -> (r: usize)
    ensures
        default_row(views(dirs@), r as int),
{
    let ghost s = views(dirs@);
    let mut i: usize = 0;
    while i < dirs.len()
        invariant
            i <= dirs@.len(),
            s == views(dirs@),
            forall|k: int| 0 <= k < i ==> !s[k].default,
        decreases dirs@.len() - i,
    {
        assert(s[i as int] == dirs@[i as int]@);
        if dirs[i].default {
            return i;
        }
        i = i + 1;
    }
    0
}

/// The path chosen without asking: the only directory's, when there is exactly one.
pub fn sole_choice(dirs: &[Directory]) -> (r: Option<String>)
    ensures
        r is Some <==> dirs@.len() == 1,
        r matches Some(p) ==> p@ == dirs@[0]@.path,
{
    if dirs.len() == 1 {
        Some(dirs[0].path.clone())
    } else {
        None
    }
}

/// The prompt of the selection menu: the prompt text, an arrow, the current
/// directory and a closing parenthesis.
pub fn select_prompt(prompt: &str, current: &str) -> (r: String)
    ensures
        r@ == prompt@ + " → "@ + current@ + ")"@,
{
    let mut s: String = prompt.to_owned();
    s.append(" → ");
    s.append(current);
    s.append(")");
    s
}

/// The menu entries of the second step of a swap: the entry chosen first
/// blinks.
pub fn held_items(items: &[String], held: usize) -> (r: Vec<String>)
    ensures
        r@.len() == items@.len(),
        forall|i: int| 0 <= i < items@.len() ==> #[trigger] r@[i]@ == (if i == held {
            "\x1b[5m"@ + items@[i]@ + "\x1b[25m"@
        } else {
            items@[i]@
        }),
{
    let mut r: Vec<String> = Vec::new();
    let mut i: usize = 0;
    while i < items.len()
        invariant
            i <= items@.len(),
            r@.len() == i,
            forall|k: int| 0 <= k < i ==> #[trigger] r@[k]@ == (if k == held {
                "\x1b[5m"@ + items@[k]@ + "\x1b[25m"@
            } else {
                items@[k]@
            }),
        decreases items@.len() - i,
    {
        if i == held {
            let mut s: String = "\x1b[5m".to_owned();
            s.append(items[i].as_str());
            s.append("\x1b[25m");
            r.push(s);
        } else {
            r.push(items[i].clone());
        }
        i = i + 1;
    }
    r
}

/// A menu of registered directories needs at least one.
pub fn check_registered(count: usize) -> (r: Result<(), CommandError>)
    ensures
        r is Ok <==> count > 0,
        r matches Err(e) ==> e is NoneRegistered,
{
    if count == 0 {
        Err(CommandError::NoneRegistered)
    } else {
        Ok(())
    }
}

/// A swap menu needs at least two registered directories.
pub fn check_swappable(count: usize) -> (r: Result<(), CommandError>)
    ensures
        r is Ok <==> count >= 2,
        r matches Err(e) ==> (count == 0 ==> e is NoneRegistered) && (count == 1 ==> e is TooFewToSwap),
{
    if count == 0 {
        Err(CommandError::NoneRegistered)
    } else if count < 2 {
        Err(CommandError::TooFewToSwap)
    } else {
        Ok(())
    }
}

/// `select` needs at least one directory.
pub fn check_selectable(count: usize) -> (r: Result<(), CommandError>)
    ensures
        r is Ok <==> count > 0,
        r matches Err(e) ==> e is NoneConfigured,
{
    if count == 0 {
        Err(CommandError::NoneConfigured)
    } else {
        Ok(())
    }
}

/// The two paths a swap menu chose, or a refusal when both choices are the same row.
pub fn swap_choice(dirs: &[Directory], first: usize, second: usize) -> (r: Result<(String, String), CommandError>)
    requires
        first < dirs@.len(),
        second < dirs@.len(),
    ensures
        r is Ok <==> first != second,
        r matches Ok(pair) ==> pair.0@ == dirs@[first as int]@.path && pair.1@ == dirs@[second as int]@.path,
        r matches Err(e) ==> e is SelfSwap,
{
    if first == second {
        Err(CommandError::SelfSwap)
    } else {
        Ok((dirs[first].path.clone(), dirs[second].path.clone()))
    }
}

/// The languages in the order the language menu offers them.
pub open spec fn language_row(lang: Language) -> int {
    match lang {
        Language::En => 0,
        Language::Ja => 1,
    }
}

/// The row of the language menu that `lang` is on.
pub fn language_index(lang: &Language) -> (r: usize)
    ensures
        r == language_row(*lang),
{
    match lang {
        Language::En => 0,
        Language::Ja => 1,
    }
}

/// The language on row `i` of the language menu.
pub fn language_at(i: usize) -> (r: Language)
    requires
        i < 2,
    ensures
        language_row(r) == i,
{
    if i == 0 {
        Language::En
    } else {
        Language::Ja
    }
}

/// The line a command prints when it is done: the message, a colon and the path.
pub fn report_line(message: &str, path: &str) -> (r: String)
    ensures
        r@ == message@ + ": "@ + path@,
{
    let mut s: String = message.to_owned();
    s.append(": ");
    s.append(path);
    s
}

/// The line `swap` prints when it is done: the message, a colon and both
/// paths joined by an arrow.
pub fn swap_report_line(message: &str, path1: &str, path2: &str) -> (r: String)
    ensures
        r@ == message@ + ": "@ + path1@ + " ↔ "@ + path2@,
{
    let mut s = report_line(message, path1);
    s.append(" ↔ ");
    s.append(path2);
    s
}

/// The number of rows of the language menu.
pub const LANGUAGE_COUNT: usize = 2;

} // verus!
