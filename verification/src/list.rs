use vstd::prelude::*;
use crate::config::{DirView, Directory};

verus! {

/// The line `list` prints for a directory: `label  path` when it has a label,
/// else the path, followed by `  (default)` for the default directory.
pub open spec fn line_text(d: DirView) -> Seq<char> {
    let marker = if d.default { "  (default)"@ } else { ""@ };
    match d.label {
        Some(l) => l + "  "@ + d.path + marker,
        None => d.path + marker,
    }
}

/// The line `list` prints for `dir` (see `line_text`).
pub fn format_line(dir: &Directory) -> (r: String)
    ensures
        r@ == line_text(dir@),
{
    let marker = if dir.default { "  (default)" } else { "" };
    let mut s: String = match &dir.label {
        Some(label) => {
            let mut t = label.clone();
            t.append("  ");
            t.append(dir.path.as_str());
            t
        },
        None => dir.path.clone(),
    };
    s.append(marker);
    s
}

/// The lines `list` prints, one per registered directory, in menu order.
pub fn format_lines(dirs: &[Directory]) -> (r: Vec<String>)
    ensures
        r@.len() == dirs@.len(),
        forall|i: int| 0 <= i < dirs@.len() ==> #[trigger] r@[i]@ == line_text(dirs@[i]@),
{
    let mut r: Vec<String> = Vec::new();
    let mut i: usize = 0;
    while i < dirs.len()
        invariant
            i <= dirs@.len(),
            r@.len() == i,
            forall|k: int| 0 <= k < i ==> #[trigger] r@[k]@ == line_text(dirs@[k]@),
        decreases dirs@.len() - i,
    {
        r.push(format_line(&dirs[i]));
        i = i + 1;
    }
    r
}

} // verus!
