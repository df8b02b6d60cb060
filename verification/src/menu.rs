use vstd::prelude::*;
use crate::config::{display_text, DirView, Directory};
use crate::text::same_text;

verus! {

/// Lines the menu shows above the directories: title, key help, blank line.
pub const HEADER_LINES: u16 = 3;

/// A key the menu reacts to; every other key is `Other`.
#[derive(Clone, Copy, Debug, PartialEq, Eq, Structural)]
pub enum Key {
    Up,
    Down,
    Enter,
    Escape,
    /// Ctrl+C.
    Interrupt,
    Other,
}

/// What the menu does after a key press.
#[derive(Clone, Copy, Debug, PartialEq, Eq, Structural)]
pub enum MenuStep {
    /// The cursor moved to this row; the menu is drawn again.
    Moved(usize),
    /// The directory in this row was chosen; the menu closes.
    Chosen(usize),
    /// The menu closes without a choice.
    Cancelled,
    /// Nothing happens.
    Ignored,
}

/// The row above `sel`, wrapping from the first row to the last.
pub open spec fn row_above(sel: int, n: int) -> int {
    if sel == 0 {
        n - 1
    } else {
        sel - 1
    }
}

/// The row below `sel`, wrapping from the last row to the first.
pub open spec fn row_below(sel: int, n: int) -> int {
    (sel + 1) % n
}

/// What pressing `key` on row `sel` of an `n`-row menu does.
pub open spec fn step_for(key: Key, sel: int, n: int) -> MenuStep {
    match key {
        Key::Up => MenuStep::Moved(row_above(sel, n) as usize),
        Key::Down => MenuStep::Moved(row_below(sel, n) as usize),
        Key::Enter => MenuStep::Chosen(sel as usize),
        Key::Escape => MenuStep::Cancelled,
        Key::Interrupt => MenuStep::Cancelled,
        Key::Other => MenuStep::Ignored,
    }
}

/// What pressing `key` on row `selected` of an `count`-row menu does.
pub fn next_step(key: Key, selected: usize, count: usize) -> (r: MenuStep)
    requires
        selected < count,
    ensures
        r == step_for(key, selected as int, count as int),
        r matches MenuStep::Moved(k) ==> k < count,
        r matches MenuStep::Chosen(k) ==> k < count,
{
    match key {
        Key::Up => {
            let k = if selected == 0 {
                count - 1
            } else {
                selected - 1
            };
            MenuStep::Moved(k)
        },
        Key::Down => MenuStep::Moved((selected + 1) % count),
        Key::Enter => MenuStep::Chosen(selected),
        Key::Escape => MenuStep::Cancelled,
        Key::Interrupt => MenuStep::Cancelled,
        Key::Other => MenuStep::Ignored,
    }
}

/// Row `i` is the first whose path is `d`.
pub open spec fn first_with(s: Seq<DirView>, d: Seq<char>, i: int) -> bool {
    0 <= i < s.len() && s[i].path == d && forall|k: int| 0 <= k < i ==> s[k].path != d
}

/// The cursor starts on row `r`: the first directory whose path is `default`,
/// else the first row.
pub open spec fn starts_at(s: Seq<DirView>, default: Option<Seq<char>>, r: int) -> bool {
    match default {
        Some(d) => if exists|i: int| first_with(s, d, i) {
            first_with(s, d, r)
        } else {
            r == 0
        },
        None => r == 0,
    }
}

/// The texts of the directories of a slice.
pub open spec fn views(dirs: Seq<Directory>) -> Seq<DirView> {
    dirs.map_values(|d: Directory| d@)
}

/// The texts of an optional `&str`.
pub open spec fn option_str(o: Option<&str>) -> Option<Seq<char>> {
    match o {
        Some(s) => Some(s@),
        None => None,
    }
}

/// The row the cursor starts on (see `starts_at`).
pub fn initial_selection(dirs: &[Directory], default: Option<&str>) -> (r: usize)
    ensures
        starts_at(views(dirs@), option_str(default), r as int),
        dirs@.len() > 0 ==> r < dirs@.len(),
{
    let ghost s = views(dirs@);
    match default {
        None => 0,
        Some(d) => {
            let mut i: usize = 0;
            while i < dirs.len()
                invariant
                    i <= dirs@.len(),
                    s == views(dirs@),
                    option_str(default) == Some(d@),
                    forall|k: int| 0 <= k < i ==> s[k].path != d@,
                decreases dirs@.len() - i,
            {
                assert(s[i as int] == dirs@[i as int]@);
                if same_text(dirs[i].path.as_str(), d) {
                    assert(first_with(s, d@, i as int));
                    return i;
                }
                i = i + 1;
            }
            0
        },
    }
}

/// The text of a menu row: a cursor mark (`▶` on the selected row), a space,
/// the directory's label or path, `  (default)` on the default directory, and
/// a carriage return with a line feed.
pub open spec fn row_line(d: DirView, is_selected: bool, default: Option<Seq<char>>) -> Seq<char> {
    let cursor = if is_selected { "▶"@ } else { " "@ };
    let mark = if default == Some(d.path) { "  (default)"@ } else { ""@ };
    cursor + " "@ + display_text(d) + mark + "\r\n"@
}

/// The text of the menu row for `dir` (see `row_line`).
pub fn row_text(dir: &Directory, is_selected: bool, default: Option<&str>) -> (r: String)
    ensures
        r@ == row_line(dir@, is_selected, option_str(default)),
{
    let mut s: String = if is_selected { "▶".to_owned() } else { " ".to_owned() };
    s.append(" ");
    s.append(dir.display());
    let is_default = match default {
        Some(d) => same_text(d, dir.path.as_str()),
        None => false,
    };
    if is_default {
        s.append("  (default)");
    }
    s.append("\r\n");
    proof {
        if !is_default {
            assert(""@ =~= Seq::<char>::empty()) by {
                reveal_strlit("");
            }
        }
    }
    s
}

/// The number of terminal lines the menu takes: the header and one line per
/// directory, the directory count taken modulo 2^16.
pub fn menu_height(n_dirs: usize) -> (r: u16)
    requires
        (n_dirs % 65536) + 3 <= 65535,
    ensures
        r == 3 + (n_dirs % 65536),
{
    let low = (n_dirs % 65536) as u16;
    HEADER_LINES + low
}

} // verus!
