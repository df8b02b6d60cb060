use vstd::prelude::*;
use crate::config::{DirView, Directory};
use crate::error::{already_exists_for, not_found_error, not_found_for, CommandError};
use crate::text::same_text;

verus! {

/// Whether some entry of `s` has path `p`.
pub open spec fn has_path(s: Seq<DirView>, p: Seq<char>) -> bool {
    exists|i: int| 0 <= i < s.len() && s[i].path == p
}

/// No two entries share a path.
pub open spec fn paths_unique(s: Seq<DirView>) -> bool {
    forall|i: int, j: int| 0 <= i < s.len() && 0 <= j < s.len() && i != j ==> s[i].path != s[j].path
}

/// At most one entry is the default.
pub open spec fn single_default(s: Seq<DirView>) -> bool {
    forall|i: int, j: int|
        0 <= i < s.len() && 0 <= j < s.len() && s[i].default && s[j].default ==> i == j
}

/// What every list of registered directories satisfies.
pub open spec fn store_wf(s: Seq<DirView>) -> bool {
    paths_unique(s) && single_default(s)
}

/// The position of the entry with path `p`.
pub open spec fn index_of(s: Seq<DirView>, p: Seq<char>) -> int {
    choose|i: int| 0 <= i < s.len() && s[i].path == p
}

/// `d` with its default flag set to `flag`.
pub open spec fn with_default(d: DirView, flag: bool) -> DirView {
    DirView { path: d.path, label: d.label, default: flag }
}

/// Every entry keeps path and label; the default flag is set exactly on the
/// entry whose path is `target` (on none when `target` is `None`).
pub open spec fn marked_default(s: Seq<DirView>, target: Option<Seq<char>>) -> Seq<DirView> {
    s.map_values(|d: DirView| with_default(d, target == Some(d.path)))
}

/// The entry a successful insertion appends.
pub open spec fn new_entry(path: Seq<char>, label: Option<Seq<char>>, default: bool) -> DirView {
    DirView { path: path, label: label, default: default }
}

/// The list after inserting a path that is not registered yet: every default
/// cleared when the new entry is the default, then the new entry appended last.
pub open spec fn after_insert(
    s: Seq<DirView>,
    path: Seq<char>,
    label: Option<Seq<char>>,
    default: bool,
) -> Seq<DirView> {
    let base = if default { marked_default(s, None) } else { s };
    base.push(new_entry(path, label, default))
}

/// The list after inserting a path that is registered already: the insertion
/// is refused, but when the new entry was to be the default every default
/// has been cleared before the refusal.
pub open spec fn after_refused_insert(s: Seq<DirView>, default: bool) -> Seq<DirView> {
    if default { marked_default(s, None) } else { s }
}

/// The list after removing the entry with path `p`; the others keep their order.
pub open spec fn after_remove(s: Seq<DirView>, p: Seq<char>) -> Seq<DirView> {
    s.remove(index_of(s, p))
}

/// The list after making `p` the default: it is the only default.
pub open spec fn after_set_default(s: Seq<DirView>, p: Seq<char>) -> Seq<DirView> {
    marked_default(s, Some(p))
}

/// The list after exchanging the places of the entries with paths `a` and `b`.
pub open spec fn after_swap(s: Seq<DirView>, a: Seq<char>, b: Seq<char>) -> Seq<DirView> {
    let i = index_of(s, a);
    let j = index_of(s, b);
    s.update(i, s[j]).update(j, s[i])
}

/// The texts of an optional label.
pub open spec fn option_str_text(o: Option<&str>) -> Option<Seq<char>> {
    match o {
        Some(s) => Some(s@),
        None => None,
    }
}

pub proof fn lemma_index_of(s: Seq<DirView>, p: Seq<char>, i: int)
    requires
        paths_unique(s),
        0 <= i < s.len(),
        s[i].path == p,
    ensures
        index_of(s, p) == i,
{
    let k = index_of(s, p);
    assert(0 <= k < s.len() && s[k].path == p);
}

/// The registered working directories, in menu order.
pub struct DirStore {
    dirs: Vec<Directory>,
}

impl View for DirStore {
    type V = Seq<DirView>;

    closed spec fn view(&self) -> Seq<DirView> {
        self.dirs@.map_values(|d: Directory| d@)
    }
}

/// Copies of `dirs`, with the default flag set exactly on the entry whose
/// path is `target`.
fn marked(dirs: &Vec<Directory>, target: Option<&str>) -> (r: Vec<Directory>)
    ensures
        r@.map_values(|d: Directory| d@) == marked_default(
            dirs@.map_values(|d: Directory| d@),
            option_str_text(target),
        ),
{
    let mut r: Vec<Directory> = Vec::new();
    let ghost s = dirs@.map_values(|d: Directory| d@);
    let ghost t = option_str_text(target);
    let mut i: usize = 0;
    while i < dirs.len()
        invariant
            i <= dirs@.len(),
            s == dirs@.map_values(|d: Directory| d@),
            t == option_str_text(target),
            r@.len() == i,
            forall|k: int| 0 <= k < i ==> #[trigger] r@[k]@ == with_default(s[k], t == Some(s[k].path)),
        decreases dirs@.len() - i,
    {
        let mut d = dirs[i].duplicate();
        d.default = match target {
            Some(p) => same_text(d.path.as_str(), p),
            None => false,
        };
        r.push(d);
        i = i + 1;
    }
    assert(r@.map_values(|d: Directory| d@) =~= marked_default(s, t));
    r
}

impl DirStore {
    /// The list satisfies `store_wf`.
    pub open spec fn wf(&self) -> bool {
        store_wf(self@)
    }

    /// An empty list.
    pub fn new() -> (r: DirStore)
        ensures
            r@ == Seq::<DirView>::empty(),
            r.wf(),
    {
        let r = DirStore { dirs: Vec::new() };
        assert(r@ =~= Seq::<DirView>::empty());
        r
    }

    /// The list made of `rows`, in their order, when no two share a path and
    /// at most one is the default; `None` otherwise.
    pub fn from_rows(rows: Vec<Directory>) -> (r: Option<DirStore>)
        ensures
            r is Some <==> store_wf(rows@.map_values(|d: Directory| d@)),
            r matches Some(st) ==> st@ == rows@.map_values(|d: Directory| d@) && st.wf(),
    {
        let ghost s = rows@.map_values(|d: Directory| d@);
        let n = rows.len();
        let mut i: usize = 0;
        while i < n
            invariant
                n == rows@.len(),
                s == rows@.map_values(|d: Directory| d@),
                i <= n,
                forall|a: int, b: int| 0 <= a < i && 0 <= b < n && a != b ==> s[a].path != s[b].path,
                forall|a: int, b: int| 0 <= a < i && 0 <= b < n && s[a].default && s[b].default ==> a == b,
            decreases n - i,
        {
            let mut j: usize = 0;
            while j < n
                invariant
                    n == rows@.len(),
                    s == rows@.map_values(|d: Directory| d@),
                    i < n,
                    j <= n,
                    forall|a: int, b: int| 0 <= a < i && 0 <= b < n && a != b ==> s[a].path != s[b].path,
                    forall|a: int, b: int| 0 <= a < i && 0 <= b < n && s[a].default && s[b].default ==> a == b,
                    forall|b: int| 0 <= b < j && b != i ==> s[i as int].path != s[b].path,
                    forall|b: int| 0 <= b < j && s[i as int].default && s[b].default ==> i == b,
                decreases n - j,
            {
                if j != i {
                    assert(s[i as int] == rows@[i as int]@);
                    assert(s[j as int] == rows@[j as int]@);
                    if same_text(rows[i].path.as_str(), rows[j].path.as_str()) {
                        assert(!store_wf(s));
                        return None;
                    }
                    if rows[i].default && rows[j].default {
                        assert(!store_wf(s));
                        return None;
                    }
                }
                j = j + 1;
            }
            i = i + 1;
        }
        let st = DirStore { dirs: rows };
        assert(st@ == s);
        Some(st)
    }

    /// The number of registered directories.
    pub fn len(&self) -> (r: usize)
        ensures
            r == self@.len(),
    {
        self.dirs.len()
    }

    /// The registered directories, in menu order.
    pub fn list_dirs(&self) -> (r: &Vec<Directory>)
        ensures
            r@.map_values(|d: Directory| d@) == self@,
    {
        &self.dirs
    }

    /// The position of the entry with path `path`, if any.
    fn find(&self, path: &str) -> (r: Option<usize>)
        requires
            self.wf(),
        ensures
            r is Some <==> has_path(self@, path@),
            r matches Some(i) ==> i < self@.len() && i == index_of(self@, path@),
    {
        let mut i: usize = 0;
        while i < self.dirs.len()
            invariant
                i <= self.dirs@.len(),
                self.wf(),
                forall|k: int| 0 <= k < i ==> self@[k].path != path@,
            decreases self.dirs@.len() - i,
        {
            if same_text(self.dirs[i].path.as_str(), path) {
                proof {
                    assert(self@[i as int].path == path@);
                    lemma_index_of(self@, path@, i as int);
                }
                return Some(i);
            }
            i = i + 1;
        }
        None
    }

    /// Whether `path` is registered.
    pub fn path_exists(&self, path: &str) -> (r: bool)
        requires
            self.wf(),
        ensures
            r == has_path(self@, path@),
    {
        self.find(path).is_some()
    }

    /// The registered paths, in menu order.
    pub fn all_paths(&self) -> (r: Vec<String>)
        ensures
            r@.map_values(|s: String| s@) == self@.map_values(|d: DirView| d.path),
    {
        let mut r: Vec<String> = Vec::new();
        let mut i: usize = 0;
        while i < self.dirs.len()
            invariant
                i <= self.dirs@.len(),
                r@.len() == i,
                forall|k: int| 0 <= k < i ==> #[trigger] r@[k]@ == self@[k].path,
            decreases self.dirs@.len() - i,
        {
            r.push(self.dirs[i].path.clone());
            i = i + 1;
        }
        assert(r@.map_values(|s: String| s@) =~= self@.map_values(|d: DirView| d.path));
        r
    }

    /// Registers `path` at the end of the list. When `default` holds, every
    /// other entry stops being the default. A path that is registered already
    /// is refused as breaking the uniqueness of paths; the defaults are
    /// cleared before that refusal when `default` holds.
    pub fn insert_dir(&mut self, path: &str, label: Option<&str>, default: bool) -> (r: Result<(), CommandError>)
        requires
            old(self).wf(),
        ensures
            final(self).wf(),
            r is Ok <==> !has_path(old(self)@, path@),
            r is Ok ==> final(self)@ == after_insert(old(self)@, path@, option_str_text(label), default),
            r matches Err(e) ==> e is PathNotUnique
                && final(self)@ == after_refused_insert(old(self)@, default),
    {
        let exists = self.path_exists(path);
        let ghost s = self@;
        if default {
            let cleared = marked(&self.dirs, None);
            self.dirs = cleared;
        }
        let ghost base = self@;
        assert(base == after_refused_insert(s, default));
        assert(store_wf(base)) by {
            assert forall|i: int| 0 <= i < base.len() implies base[i].path == s[i].path by {}
        }
        if exists {
            return Err(CommandError::PathNotUnique);
        }
        let owned_label = match label {
            Some(l) => Some(l.to_owned()),
            None => None,
        };
        self.dirs.push(Directory { path: path.to_owned(), label: owned_label, default });
        proof {
            let t = self@;
            assert(t =~= base.push(new_entry(path@, option_str_text(label), default)));
            assert forall|i: int, j: int| 0 <= i < t.len() && 0 <= j < t.len() && i != j
                implies t[i].path != t[j].path by {
                if i == base.len() {
                    assert(base[j].path == s[j].path);
                } else if j == base.len() {
                    assert(base[i].path == s[i].path);
                }
            }
            assert forall|i: int, j: int| 0 <= i < t.len() && 0 <= j < t.len() && t[i].default && t[j].default
                implies i == j by {
                if i == base.len() && j < base.len() {
                    assert(!base[j].default);
                } else if j == base.len() && i < base.len() {
                    assert(!base[i].default);
                }
            }
        }
        Ok(())
    }

    /// The `add` command: registers `path` as `insert_dir` does, after
    /// refusing a path that is registered already; that refusal changes nothing.
    pub fn add_dir(&mut self, path: &str, label: Option<&str>, default: bool) -> (r: Result<(), CommandError>)
        requires
            old(self).wf(),
        ensures
            final(self).wf(),
            r is Ok <==> !has_path(old(self)@, path@),
            r is Ok ==> final(self)@ == after_insert(old(self)@, path@, option_str_text(label), default),
            r matches Err(e) ==> already_exists_for(e, path@) && final(self)@ == old(self)@,
    {
        if self.path_exists(path) {
            return Err(CommandError::AlreadyExists { path: path.to_owned() });
        }
        self.insert_dir(path, label, default)
    }

    /// Unregisters `path`; the others keep their order. A path that is not
    /// registered is refused with a hint on its other spelling, and nothing changes.
    pub fn remove_dir(&mut self, path: &str) -> (r: Result<(), CommandError>)
        requires
            old(self).wf(),
        ensures
            final(self).wf(),
            r is Ok <==> has_path(old(self)@, path@),
            r is Ok ==> final(self)@ == after_remove(old(self)@, path@),
            r matches Err(e) ==> not_found_for(e, path@, old(self)@.map_values(|d: DirView| d.path))
                && final(self)@ == old(self)@,
    {
        match self.find(path) {
            None => {
                let paths = self.all_paths();
                let e = not_found_error(paths.as_slice(), path);
                assert(crate::error::path_texts(paths@) == self@.map_values(|d: DirView| d.path));
                Err(e)
            },
            Some(i) => {
                let ghost s = self@;
                self.dirs.remove(i);
                proof {
                    let t = self@;
                    assert(t =~= s.remove(i as int));
                    assert forall|a: int, b: int| 0 <= a < t.len() && 0 <= b < t.len() && a != b
                        implies t[a].path != t[b].path by {
                        let a0 = if a < i { a } else { a + 1 };
                        let b0 = if b < i { b } else { b + 1 };
                        assert(t[a] == s[a0] && t[b] == s[b0]);
                    }
                    assert forall|a: int, b: int| 0 <= a < t.len() && 0 <= b < t.len() && t[a].default && t[b].default
                        implies a == b by {
                        let a0 = if a < i { a } else { a + 1 };
                        let b0 = if b < i { b } else { b + 1 };
                        assert(t[a] == s[a0] && t[b] == s[b0]);
                    }
                }
                Ok(())
            },
        }
    }

    /// Makes `path` the only default. A path that is not registered is refused
    /// with a hint on its other spelling, and nothing changes.
    pub fn set_default(&mut self, path: &str) -> (r: Result<(), CommandError>)
        requires
            old(self).wf(),
        ensures
            final(self).wf(),
            r is Ok <==> has_path(old(self)@, path@),
            r is Ok ==> final(self)@ == after_set_default(old(self)@, path@),
            r matches Err(e) ==> not_found_for(e, path@, old(self)@.map_values(|d: DirView| d.path))
                && final(self)@ == old(self)@,
    {
        if !self.path_exists(path) {
            let paths = self.all_paths();
            let e = not_found_error(paths.as_slice(), path);
            assert(crate::error::path_texts(paths@) == self@.map_values(|d: DirView| d.path));
            return Err(e);
        }
        let ghost s = self@;
        let marked_dirs = marked(&self.dirs, Some(path));
        self.dirs = marked_dirs;
        proof {
            let t = self@;
            assert(t == after_set_default(s, path@));
            assert forall|a: int, b: int| 0 <= a < t.len() && 0 <= b < t.len() && a != b
                implies t[a].path != t[b].path by {
                assert(t[a].path == s[a].path && t[b].path == s[b].path);
            }
            assert forall|a: int, b: int| 0 <= a < t.len() && 0 <= b < t.len() && t[a].default && t[b].default
                implies a == b by {
                assert(t[a].path == s[a].path && t[b].path == s[b].path);
            }
        }
        Ok(())
    }

    /// Exchanges the places of `path1` and `path2` in the list. The same path
    /// twice is refused, and so is a path that is not registered (`path1` is
    /// looked up first); nothing changes when a swap is refused.
    pub fn swap_dirs(&mut self, path1: &str, path2: &str) -> (r: Result<(), CommandError>)
        requires
            old(self).wf(),
        ensures
            final(self).wf(),
            r is Ok <==> path1@ != path2@ && has_path(old(self)@, path1@) && has_path(old(self)@, path2@),
            r is Ok ==> final(self)@ == after_swap(old(self)@, path1@, path2@),
            r is Err ==> final(self)@ == old(self)@,
            r matches Err(e) ==> (path1@ == path2@ ==> e is SelfSwap),
            r matches Err(e) ==> (path1@ != path2@ && !has_path(old(self)@, path1@) ==>
                not_found_for(e, path1@, old(self)@.map_values(|d: DirView| d.path))),
            r matches Err(e) ==> (path1@ != path2@ && has_path(old(self)@, path1@) && !has_path(old(self)@, path2@) ==>
                not_found_for(e, path2@, old(self)@.map_values(|d: DirView| d.path))),
    {
        if same_text(path1, path2) {
            return Err(CommandError::SelfSwap);
        }
        let i = match self.find(path1) {
            Some(i) => i,
            None => {
                let paths = self.all_paths();
                assert(crate::error::path_texts(paths@) == self@.map_values(|d: DirView| d.path));
                return Err(not_found_error(paths.as_slice(), path1));
            },
        };
        let j = match self.find(path2) {
            Some(j) => j,
            None => {
                let paths = self.all_paths();
                assert(crate::error::path_texts(paths@) == self@.map_values(|d: DirView| d.path));
                return Err(not_found_error(paths.as_slice(), path2));
            },
        };
        let ghost s = self@;
        let mut r: Vec<Directory> = Vec::new();
        let n = self.dirs.len();
        let mut k: usize = 0;
        while k < n
            invariant
                n == self.dirs@.len(),
                s == self@,
                i < n,
                j < n,
                k <= n,
                r@.len() == k,
                forall|m: int| 0 <= m < k ==> #[trigger] r@[m]@ == (if m == i { s[j as int] } else if m == j { s[i as int] } else { s[m] }),
            decreases n - k,
        {
            let d = if k == i {
                self.dirs[j].duplicate()
            } else if k == j {
                self.dirs[i].duplicate()
            } else {
                self.dirs[k].duplicate()
            };
            r.push(d);
            k = k + 1;
        }
        self.dirs = r;
        proof {
            let t = self@;
            assert(t =~= after_swap(s, path1@, path2@));
            assert(i != j);
            assert forall|a: int, b: int| 0 <= a < t.len() && 0 <= b < t.len() && a != b
                implies t[a].path != t[b].path by {
                let a0 = if a == i { j as int } else if a == j { i as int } else { a };
                let b0 = if b == i { j as int } else if b == j { i as int } else { b };
                assert(t[a] == s[a0] && t[b] == s[b0]);
            }
            assert forall|a: int, b: int| 0 <= a < t.len() && 0 <= b < t.len() && t[a].default && t[b].default
                implies a == b by {
                let a0 = if a == i { j as int } else if a == j { i as int } else { a };
                let b0 = if b == i { j as int } else if b == j { i as int } else { b };
                assert(t[a] == s[a0] && t[b] == s[b0]);
            }
        }
        Ok(())
    }
}

} // verus!
