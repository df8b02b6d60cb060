use vstd::prelude::*;

verus! {

/// Whether two pieces of text are the same.
pub fn same_text(a: &str, b: &str) -> (r: bool)
    ensures
        r == (a@ == b@),
{
    let x: String = a.to_owned();
    let y: String = b.to_owned();
    x == y
}

/// `p` with every trailing `/` removed.
pub open spec fn trim_slashes(p: Seq<char>) -> Seq<char>
    decreases p.len(),
{
    if p.len() > 0 && p.last() == '/' {
        trim_slashes(p.drop_last())
    } else {
        p
    }
}

/// The other spelling of a path: without its trailing slashes when it has any,
/// with one appended when it has none.
pub open spec fn other_spelling(p: Seq<char>) -> Seq<char> {
    if p.len() > 0 && p.last() == '/' {
        trim_slashes(p)
    } else {
        p.push('/')
    }
}

/// Whether `p` ends with `/`.
pub fn ends_with_slash(p: &str) -> (r: bool)
    ensures
        r == (p@.len() > 0 && p@.last() == '/'),
{
    let n = p.unicode_len();
    if n == 0 {
        false
    } else {
        p.get_char(n - 1) == '/'
    }
}

/// `p` with every trailing `/` removed.
pub fn trimmed_slashes(p: &str) -> (r: String)
    ensures
        r@ == trim_slashes(p@),
{
    let n = p.unicode_len();
    let mut k: usize = n;
    assert(p@.subrange(0, n as int) =~= p@);
    while k > 0 && p.get_char(k - 1) == '/'
        invariant
            k <= n,
            n == p@.len(),
            trim_slashes(p@.subrange(0, k as int)) == trim_slashes(p@),
        decreases k,
    {
        assert(p@.subrange(0, k as int).drop_last() =~= p@.subrange(0, k - 1));
        k = k - 1;
    }
    let s = p.substring_char(0, k);
    s.to_owned()
}

/// The other spelling of `p` (see `other_spelling`).
pub fn toggled_slash(p: &str) -> (r: String)
    ensures
        r@ == other_spelling(p@),
{
    if ends_with_slash(p) {
        trimmed_slashes(p)
    } else {
        let mut s: String = p.to_owned();
        s.append("/");
        proof {
            reveal_strlit("/");
        }
        assert(s@ =~= p@.push('/'));
        s
    }
}

/// `a` followed by `b`.
pub fn joined(a: &str, b: &str) -> (r: String)
    ensures
        r@ == a@ + b@,
{
    let mut s: String = a.to_owned();
    s.append(b);
    s
}

} // verus!
