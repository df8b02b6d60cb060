use vstd::prelude::*;
use crate::text::same_text;

verus! {

/// The shells the tool integrates with, by the name they are given on the command line.
pub open spec fn supported_shell(shell: Seq<char>) -> bool {
    shell == "bash"@ || shell == "zsh"@
}

/// The bash snippet: it defines `_hatoba_hook`, which runs `<bin> select` and
/// changes to the chosen directory when stdin and stdout are terminals and the
/// current directory is home, and calls it in a login shell.
pub open spec fn bash_text(bin: Seq<char>) -> Seq<char> {
    "_hatoba_hook() {\n  if [[ -t 0 && -t 1 && \"$PWD\" == \"$HOME\" ]]; then\n    local dir\n    dir=$(command "@
        + bin
        + " select) && cd \"${dir}\"\n  fi\n}\n[[ \"$0\" == \"-bash\" ]] && _hatoba_hook\n"@
}

/// The zsh snippet: as for bash, with the interactive check and zsh's login test.
pub open spec fn zsh_text(bin: Seq<char>) -> Seq<char> {
    "_hatoba_hook() {\n  if [[ -o interactive && -t 0 && -t 1 && \"$PWD\" == \"$HOME\" ]]; then\n    local dir\n    dir=$(command "@
        + bin
        + " select) && cd \"${dir}\"\n  fi\n}\n[[ -o login ]] && _hatoba_hook\n"@
}

/// The snippet for `shell`.
pub open spec fn script_text(shell: Seq<char>, bin: Seq<char>) -> Seq<char> {
    if shell == "bash"@ {
        bash_text(bin)
    } else {
        zsh_text(bin)
    }
}

/// The shell integration snippet for `shell` (`bash` or `zsh`), calling the
/// program at `bin`.
pub fn generate(shell: &str, bin: &str) -> (r: String)
    requires
        supported_shell(shell@),
    ensures
        r@ == script_text(shell@, bin@),
{
    if same_text(shell, "bash") {
        bash_script(bin)
    } else {
        zsh_script(bin)
    }
}

fn bash_script(bin: &str) -> (r: String)
    ensures
        r@ == bash_text(bin@),
{
    let mut s: String = "_hatoba_hook() {\n  if [[ -t 0 && -t 1 && \"$PWD\" == \"$HOME\" ]]; then\n    local dir\n    dir=$(command ".to_owned();
    s.append(bin);
    s.append(" select) && cd \"${dir}\"\n  fi\n}\n[[ \"$0\" == \"-bash\" ]] && _hatoba_hook\n");
    s
}

fn zsh_script(bin: &str) -> (r: String)
    ensures
        r@ == zsh_text(bin@),
{
    let mut s: String = "_hatoba_hook() {\n  if [[ -o interactive && -t 0 && -t 1 && \"$PWD\" == \"$HOME\" ]]; then\n    local dir\n    dir=$(command ".to_owned();
    s.append(bin);
    s.append(" select) && cd \"${dir}\"\n  fi\n}\n[[ -o login ]] && _hatoba_hook\n");
    s
}

/// For every program path, the bash and the zsh snippets differ.
pub proof fn law_bash_and_zsh_differ(bin: Seq<char>)
    ensures
        script_text("bash"@, bin) != script_text("zsh"@, bin),
{
    reveal_strlit("bash");
    reveal_strlit("zsh");
    reveal_strlit("_hatoba_hook() {\n  if [[ -t 0 && -t 1 && \"$PWD\" == \"$HOME\" ]]; then\n    local dir\n    dir=$(command ");
    reveal_strlit("_hatoba_hook() {\n  if [[ -o interactive && -t 0 && -t 1 && \"$PWD\" == \"$HOME\" ]]; then\n    local dir\n    dir=$(command ");
    let b = bash_text(bin);
    let z = zsh_text(bin);
    assert(b[26] == 't');
    assert(z[26] == 'o');
    assert("zsh"@.len() != "bash"@.len());
    assert(script_text("bash"@, bin) == b);
    assert(script_text("zsh"@, bin) == z);
}

/// Whether `needle` occurs in `text`.
pub open spec fn occurs_in(needle: Seq<char>, text: Seq<char>) -> bool {
    exists|k: int| 0 <= k && k + needle.len() <= text.len() && #[trigger] text.subrange(k, k + needle.len()) == needle
}

/// For both shells and every program path, the snippet runs `<bin> select`.
pub proof fn law_script_runs_select(shell: Seq<char>, bin: Seq<char>)
    requires
        supported_shell(shell),
    ensures
        occurs_in(bin + " select"@, script_text(shell, bin)),
{
    reveal_strlit(" select");
    let needle = bin + " select"@;
    if shell == "bash"@ {
        let head = "_hatoba_hook() {\n  if [[ -t 0 && -t 1 && \"$PWD\" == \"$HOME\" ]]; then\n    local dir\n    dir=$(command "@;
        let tail = " select) && cd \"${dir}\"\n  fi\n}\n[[ \"$0\" == \"-bash\" ]] && _hatoba_hook\n"@;
        reveal_strlit(" select) && cd \"${dir}\"\n  fi\n}\n[[ \"$0\" == \"-bash\" ]] && _hatoba_hook\n");
        let t = script_text(shell, bin);
        assert(t == head + bin + tail);
        let k = head.len() as int;
        assert(t.subrange(k, k + needle.len()) =~= needle);
    } else {
        let head = "_hatoba_hook() {\n  if [[ -o interactive && -t 0 && -t 1 && \"$PWD\" == \"$HOME\" ]]; then\n    local dir\n    dir=$(command "@;
        let tail = " select) && cd \"${dir}\"\n  fi\n}\n[[ -o login ]] && _hatoba_hook\n"@;
        reveal_strlit(" select) && cd \"${dir}\"\n  fi\n}\n[[ -o login ]] && _hatoba_hook\n");
        let t = script_text(shell, bin);
        assert(t == head + bin + tail);
        let k = head.len() as int;
        assert(t.subrange(k, k + needle.len()) =~= needle);
    }
}

} // verus!
