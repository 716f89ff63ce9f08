//! Small verified string helpers shared by the probe, response and path
//! logic.

use vstd::prelude::*;

verus! {

/// Compares two strings character by character.
pub fn str_eq(a: &str, b: &str) -> (r: bool)
    ensures
        r == (a@ == b@),
{
    let na = a.unicode_len();
    let nb = b.unicode_len();
    if na != nb {
        return false;
    }
    let mut i: usize = 0;
    while i < na
        invariant
            0 <= i <= na,
            na == a@.len(),
            nb == b@.len(),
            na == nb,
            forall|j: int| 0 <= j < i ==> a@[j] == b@[j],
        decreases na - i,
    {
        if a.get_char(i) != b.get_char(i) {
            return false;
        }
        i = i + 1;
    }
    proof {
        assert(a@ =~= b@);
    }
    true
}

/// `s` with every double-quote character removed.
pub open spec fn without_quotes(s: Seq<char>) -> Seq<char>
    decreases s.len(),
{
    if s.len() == 0 {
        s
    } else if s.last() != '"' {
        without_quotes(s.drop_last()).push(s.last())
    } else {
        without_quotes(s.drop_last())
    }
}

/// Removes every double-quote character from `s`, as when freeing a quoted
/// entity tag of its quotes.
pub fn strip_quotes(s: &str) -> (r: String)
    ensures
        r@ == without_quotes(s@),
{
    let n = s.unicode_len();
    let mut out = String::new();
    let mut i: usize = 0;
    while i < n
        invariant
            0 <= i <= n,
            n == s@.len(),
            out@ == without_quotes(s@.take(i as int)),
        decreases n - i,
    {
        let c = s.get_char(i);
        proof {
            assert(s@.take(i as int + 1).drop_last() =~= s@.take(i as int));
            assert(s@.take(i as int + 1).last() == s@[i as int]);
        }
        if c != '"' {
            let piece = s.substring_char(i, i + 1);
            out.append(piece);
            proof {
                assert(piece@ =~= seq![s@[i as int]]);
                assert(out@ =~= without_quotes(s@.take(i as int)).push(s@[i as int]));
            }
        }
        i = i + 1;
    }
    proof {
        assert(s@.take(i as int) =~= s@);
    }
    out
}

/// Whether the last character of `s` is a path separator.
pub open spec fn ends_with_separator(s: Seq<char>) -> bool {
    s.len() > 0 && s.last() == '/'
}

/// The directory `base` joined with file name `name`, inserting a
/// separator unless `base` already ends with one.
pub open spec fn joined_path(base: Seq<char>, name: Seq<char>) -> Seq<char> {
    if ends_with_separator(base) {
        base + name
    } else {
        base + "/"@ + name
    }
}

/// Appends `name` to the directory path `base`, inserting a `/` separator
/// unless `base` already ends with one.
pub fn join_path(base: &str, name: &str) -> (r: String)
    ensures
        r@ == joined_path(base@, name@),
{
    let n = base.unicode_len();
    let mut out = String::from_str(base);
    if n == 0 || base.get_char(n - 1) != '/' {
        out.append("/");
    }
    out.append(name);
    out
}

} // verus!
