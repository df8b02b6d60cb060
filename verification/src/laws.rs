use vstd::prelude::*;

use crate::store::{
    after_insert, after_remove, after_set_default, after_swap, has_path, index_of, lemma_index_of,
    new_entry, paths_unique, store_wf,
};
use crate::text::{other_spelling, trim_slashes};
use crate::menu::{row_above, row_below};
use crate::prompt::language_row;
use crate::config::{DirView, Language};
use crate::init::script_text;
use vstd::arithmetic::div_mod::{lemma_add_mod_noop, lemma_small_mod};

verus! {

/// Registering a new path without making it the default, then removing it,
/// gives back the list as it was.
pub proof fn law_insert_then_remove(s: Seq<DirView>, p: Seq<char>, label: Option<Seq<char>>)
    requires
        store_wf(s),
        !has_path(s, p),
    ensures
        after_remove(after_insert(s, p, label, false), p) == s,
{
    let t = after_insert(s, p, label, false);
    assert(paths_unique(t)) by {
        assert forall|i: int, j: int| 0 <= i < t.len() && 0 <= j < t.len() && i != j
            implies t[i].path != t[j].path by {
            if i == s.len() {
                assert(s[j].path != p);
            } else if j == s.len() {
                assert(s[i].path != p);
            }
        }
    }
    lemma_index_of(t, p, s.len() as int);
    assert(t.remove(s.len() as int) =~= s);
}

/// Swapping the same two registered paths twice gives back the list as it was.
pub proof fn law_swap_twice(s: Seq<DirView>, a: Seq<char>, b: Seq<char>)
    requires
        store_wf(s),
        has_path(s, a),
        has_path(s, b),
        a != b,
    ensures
        after_swap(after_swap(s, a, b), a, b) == s,
{
    let i = index_of(s, a);
    let j = index_of(s, b);
    let t = after_swap(s, a, b);
    assert(0 <= i < s.len() && s[i].path == a);
    assert(0 <= j < s.len() && s[j].path == b);
    assert(t[j].path == a && t[i].path == b);
    assert(paths_unique(t)) by {
        assert forall|x: int, y: int| 0 <= x < t.len() && 0 <= y < t.len() && x != y
            implies t[x].path != t[y].path by {
            let x0 = if x == i { j } else if x == j { i } else { x };
            let y0 = if y == i { j } else if y == j { i } else { y };
            assert(t[x] == s[x0] && t[y] == s[y0]);
        }
    }
    lemma_index_of(t, a, j);
    lemma_index_of(t, b, i);
    assert(after_swap(t, a, b) =~= s);
}

/// After a registered path is made the default, it is the default and no other
/// entry is.
pub proof fn law_set_default_single(s: Seq<DirView>, p: Seq<char>)
    requires
        store_wf(s),
        has_path(s, p),
    ensures
        forall|i: int| 0 <= i < s.len() ==> (#[trigger] after_set_default(s, p)[i]).default
            == (s[i].path == p),
        after_set_default(s, p)[index_of(s, p)].default,
        after_set_default(s, p).len() == s.len(),
{
    let i = index_of(s, p);
    assert(0 <= i < s.len() && s[i].path == p);
}

/// Making the same path the default twice is the same as doing it once.
pub proof fn law_set_default_idempotent(s: Seq<DirView>, p: Seq<char>)
    requires
        store_wf(s),
        has_path(s, p),
    ensures
        after_set_default(after_set_default(s, p), p) == after_set_default(s, p),
{
    assert(after_set_default(after_set_default(s, p), p) =~= after_set_default(s, p));
}

/// A new path registered as the default is appended last and is the only
/// default; the entries before it keep their paths, labels and order.
pub proof fn law_insert_default_is_only_default(s: Seq<DirView>, p: Seq<char>, label: Option<Seq<char>>)
    requires
        store_wf(s),
        !has_path(s, p),
    ensures
        after_insert(s, p, label, true).len() == s.len() + 1,
        after_insert(s, p, label, true)[s.len() as int] == new_entry(p, label, true),
        forall|i: int| 0 <= i < s.len() ==> !(#[trigger] after_insert(s, p, label, true)[i]).default
            && after_insert(s, p, label, true)[i].path == s[i].path
            && after_insert(s, p, label, true)[i].label == s[i].label,
{
}

/// Removing a registered path unregisters it and keeps every other entry.
pub proof fn law_remove_unregisters(s: Seq<DirView>, p: Seq<char>)
    requires
        store_wf(s),
        has_path(s, p),
    ensures
        !has_path(after_remove(s, p), p),
        after_remove(s, p).len() == s.len() - 1,
        forall|q: Seq<char>| q != p && has_path(s, q) ==> has_path(after_remove(s, p), q),
{
    let i = index_of(s, p);
    let t = after_remove(s, p);
    assert(0 <= i < s.len() && s[i].path == p);
    assert forall|k: int| 0 <= k < t.len() implies t[k].path != p by {
        let k0 = if k < i { k } else { k + 1 };
        assert(t[k] == s[k0]);
    }
    assert forall|q: Seq<char>| q != p && has_path(s, q) implies has_path(t, q) by {
        let k = choose|k: int| 0 <= k < s.len() && s[k].path == q;
        let k1 = if k < i { k } else { k - 1 };
        assert(t[k1] == s[k]);
    }
}

/// The hint for a path without a trailing slash is that path with one; the
/// hint for that spelling is the path it started from.
pub proof fn law_other_spelling_round_trip(p: Seq<char>)
    requires
        p.len() == 0 || p.last() != '/',
    ensures
        other_spelling(other_spelling(p)) == p,
{
    let q = p.push('/');
    assert(q.drop_last() =~= p);
    assert(trim_slashes(q) == trim_slashes(p));
}

} // verus!

verus! {

/// Moving the cursor up and then down, or down and then up, brings it back to
/// the row it started on.
pub proof fn law_up_down_inverse(sel: int, n: int)
    requires
        0 <= sel < n,
    ensures
        row_below(row_above(sel, n), n) == sel,
        row_above(row_below(sel, n), n) == sel,
        0 <= row_above(sel, n) < n,
        0 <= row_below(sel, n) < n,
{
    if sel == n - 1 {
        assert(n % n == 0) by (nonlinear_arith)
            requires n > 0;
    } else {
        lemma_small_mod((sel + 1) as nat, n as nat);
    }
    if sel == 0 {
        lemma_small_mod((n - 1) as nat, n as nat);
        assert(n % n == 0) by (nonlinear_arith)
            requires n > 0;
    } else {
        lemma_small_mod(sel as nat, n as nat);
    }
}

/// The row reached from `sel` by `k` presses of the down key.
pub open spec fn rows_below(sel: int, k: nat, n: int) -> int
    decreases k,
{
    if k == 0 {
        sel
    } else {
        row_below(rows_below(sel, (k - 1) as nat, n), n)
    }
}

/// `k` presses of the down key move the cursor `k` rows, wrapping around.
pub proof fn lemma_rows_below(sel: int, k: nat, n: int)
    requires
        0 <= sel < n,
    ensures
        rows_below(sel, k, n) == (sel + k) % n,
    decreases k,
{
    if k == 0 {
        lemma_small_mod(sel as nat, n as nat);
    } else {
        lemma_rows_below(sel, (k - 1) as nat, n);
        lemma_add_mod_noop(sel + k - 1, 1, n);
        if n == 1 {
            assert(1int % 1 == 0);
        } else {
            lemma_small_mod(1, n as nat);
        }
        lemma_mod_mod_pos((sel + k - 1), n);
    }
}

proof fn lemma_mod_mod_pos(x: int, n: int)
    requires
        n > 0,
    ensures
        ((x % n) % n) == x % n,
{
    let r = x % n;
    assert(0 <= r < n);
    lemma_small_mod(r as nat, n as nat);
}

/// Pressing the down key once per row brings the cursor back to where it was.
pub proof fn law_down_cycles(sel: int, n: int)
    requires
        0 <= sel < n,
    ensures
        rows_below(sel, n as nat, n) == sel,
{
    lemma_rows_below(sel, n as nat, n);
    assert((sel + n) % n == sel) by {
        lemma_add_mod_noop(sel, n, n);
        lemma_small_mod(sel as nat, n as nat);
        assert(n % n == 0) by (nonlinear_arith)
            requires n > 0;
        assert(sel + 0 == sel);
    }
}

} // verus!

verus! {

/// Each language has a row of its own in the language menu, so choosing the
/// row a language is on gives back that language.
pub proof fn law_language_rows_distinct(a: Language, b: Language)
    ensures
        language_row(a) == language_row(b) ==> a == b,
        0 <= language_row(a) < 2,
{
}

} // verus!

verus! {

/// A swap exchanges exactly the two entries: the entry that had path `a` now
/// stands where `b` was and the other way round, and every other position keeps
/// its entry.
pub proof fn law_swap_exchanges_only_the_two(s: Seq<DirView>, a: Seq<char>, b: Seq<char>, i: int, j: int)
    requires
        store_wf(s),
        0 <= i < s.len(),
        0 <= j < s.len(),
        s[i].path == a,
        s[j].path == b,
        a != b,
    ensures
        after_swap(s, a, b).len() == s.len(),
        after_swap(s, a, b)[i] == s[j],
        after_swap(s, a, b)[j] == s[i],
        forall|k: int| 0 <= k < s.len() && k != i && k != j ==> #[trigger] after_swap(s, a, b)[k] == s[k],
{
    lemma_index_of(s, a, i);
    lemma_index_of(s, b, j);
}

/// Removing a path deletes its entry and nothing else: the entries before it
/// stay where they were, and those after it move up by one, in their order.
pub proof fn law_remove_keeps_order(s: Seq<DirView>, p: Seq<char>, i: int)
    requires
        store_wf(s),
        0 <= i < s.len(),
        s[i].path == p,
    ensures
        after_remove(s, p).len() == s.len() - 1,
        forall|k: int| 0 <= k < i ==> #[trigger] after_remove(s, p)[k] == s[k],
        forall|k: int| i <= k < s.len() - 1 ==> #[trigger] after_remove(s, p)[k] == s[k + 1],
{
    lemma_index_of(s, p, i);
}

/// Registering a new path appends it last, whatever its default flag: the list
/// grows by one, the last entry is the new path with its label and flag, and
/// every earlier entry keeps its place, path and label; its default flag is
/// kept, unless the new entry is the default, in which case it is cleared.
pub proof fn law_insert_appends_last(
    s: Seq<DirView>,
    p: Seq<char>,
    label: Option<Seq<char>>,
    default: bool,
)
    requires
        store_wf(s),
        !has_path(s, p),
    ensures
        after_insert(s, p, label, default).len() == s.len() + 1,
        after_insert(s, p, label, default)[s.len() as int].path == p,
        after_insert(s, p, label, default)[s.len() as int].label == label,
        after_insert(s, p, label, default)[s.len() as int].default == default,
        forall|k: int| 0 <= k < s.len() ==> (#[trigger] after_insert(s, p, label, default)[k]).path == s[k].path
            && after_insert(s, p, label, default)[k].label == s[k].label
            && after_insert(s, p, label, default)[k].default == (s[k].default && !default),
{
}

/// Making a path the default changes default flags only: every entry keeps its
/// place, path and label, and is the default exactly when its path is `p`.
pub proof fn law_set_default_changes_only_flags(s: Seq<DirView>, p: Seq<char>)
    requires
        store_wf(s),
        has_path(s, p),
    ensures
        after_set_default(s, p).len() == s.len(),
        forall|k: int| 0 <= k < s.len() ==> (#[trigger] after_set_default(s, p)[k]).path == s[k].path
            && after_set_default(s, p)[k].label == s[k].label
            && after_set_default(s, p)[k].default == (s[k].path == p),
{
}

/// Whether `text` ends with `tail`.
pub open spec fn ends_with(text: Seq<char>, tail: Seq<char>) -> bool {
    tail.len() <= text.len() && text.subrange(text.len() - tail.len(), text.len() as int) == tail
}

/// Whether `text` starts with `head`.
pub open spec fn starts_with(text: Seq<char>, head: Seq<char>) -> bool {
    head.len() <= text.len() && text.subrange(0, head.len() as int) == head
}

/// For every program path, the bash snippet first defines a hook that acts only
/// when stdin and stdout are terminals and the current directory is home, and
/// its last line calls that hook only in a login shell (`$0` is `-bash`).
pub proof fn law_bash_runs_only_in_login_shell(bin: Seq<char>)
    ensures
        starts_with(script_text("bash"@, bin),
            "_hatoba_hook() {\n  if [[ -t 0 && -t 1 && \"$PWD\" == \"$HOME\" ]]; then\n"@),
        ends_with(script_text("bash"@, bin), "\n[[ \"$0\" == \"-bash\" ]] && _hatoba_hook\n"@),
{
    let head = "_hatoba_hook() {\n  if [[ -t 0 && -t 1 && \"$PWD\" == \"$HOME\" ]]; then\n    local dir\n    dir=$(command "@;
    let tail = " select) && cd \"${dir}\"\n  fi\n}\n[[ \"$0\" == \"-bash\" ]] && _hatoba_hook\n"@;
    let pre = "_hatoba_hook() {\n  if [[ -t 0 && -t 1 && \"$PWD\" == \"$HOME\" ]]; then\n"@;
    let guard = "\n[[ \"$0\" == \"-bash\" ]] && _hatoba_hook\n"@;
    reveal_strlit("_hatoba_hook() {\n  if [[ -t 0 && -t 1 && \"$PWD\" == \"$HOME\" ]]; then\n    local dir\n    dir=$(command ");
    reveal_strlit(" select) && cd \"${dir}\"\n  fi\n}\n[[ \"$0\" == \"-bash\" ]] && _hatoba_hook\n");
    reveal_strlit("_hatoba_hook() {\n  if [[ -t 0 && -t 1 && \"$PWD\" == \"$HOME\" ]]; then\n");
    reveal_strlit("\n[[ \"$0\" == \"-bash\" ]] && _hatoba_hook\n");
    let t = script_text("bash"@, bin);
    assert(t == head + bin + tail);
    assert(t.subrange(0, pre.len() as int) =~= pre);
    assert(t.subrange(t.len() - guard.len(), t.len() as int) =~= guard);
}

/// For every program path, the zsh snippet first defines a hook that acts only
/// in an interactive shell whose stdin and stdout are terminals and whose
/// current directory is home, and its last line calls that hook only in a
/// login shell.
pub proof fn law_zsh_runs_only_in_login_shell(bin: Seq<char>)
    ensures
        starts_with(script_text("zsh"@, bin),
            "_hatoba_hook() {\n  if [[ -o interactive && -t 0 && -t 1 && \"$PWD\" == \"$HOME\" ]]; then\n"@),
        ends_with(script_text("zsh"@, bin), "\n[[ -o login ]] && _hatoba_hook\n"@),
{
    let head = "_hatoba_hook() {\n  if [[ -o interactive && -t 0 && -t 1 && \"$PWD\" == \"$HOME\" ]]; then\n    local dir\n    dir=$(command "@;
    let tail = " select) && cd \"${dir}\"\n  fi\n}\n[[ -o login ]] && _hatoba_hook\n"@;
    let pre = "_hatoba_hook() {\n  if [[ -o interactive && -t 0 && -t 1 && \"$PWD\" == \"$HOME\" ]]; then\n"@;
    let guard = "\n[[ -o login ]] && _hatoba_hook\n"@;
    reveal_strlit("_hatoba_hook() {\n  if [[ -o interactive && -t 0 && -t 1 && \"$PWD\" == \"$HOME\" ]]; then\n    local dir\n    dir=$(command ");
    reveal_strlit(" select) && cd \"${dir}\"\n  fi\n}\n[[ -o login ]] && _hatoba_hook\n");
    reveal_strlit("_hatoba_hook() {\n  if [[ -o interactive && -t 0 && -t 1 && \"$PWD\" == \"$HOME\" ]]; then\n");
    reveal_strlit("\n[[ -o login ]] && _hatoba_hook\n");
    reveal_strlit("bash");
    reveal_strlit("zsh");
    assert("zsh"@ != "bash"@) by {
        assert("zsh"@.len() != "bash"@.len());
    }
    let t = script_text("zsh"@, bin);
    assert(t == head + bin + tail);
    assert(t.subrange(0, pre.len() as int) =~= pre);
    assert(t.subrange(t.len() - guard.len(), t.len() as int) =~= guard);
}

} // verus!
