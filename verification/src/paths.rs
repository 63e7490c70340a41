//! Text helpers for file paths: the base name of a path and the
//! recognized C source extension.
//!
//! Paths use `/` as the separator, as the front end hands them over.
use vstd::prelude::*;
use vstd::string::StrSliceExecFns;
use vstd::string::StringExecFns;

verus! {

/// The base name of a path: the text after the last `/`, or the whole
/// path when it holds no `/`.
pub open spec fn base_name(path: Seq<char>) -> Seq<char>
    decreases path.len(),
{
    if path.len() == 0 {
        path
    } else if path.last() == '/' {
        Seq::<char>::empty()
    } else {
        base_name(path.drop_last()) + seq![path.last()]
    }
}

/// A path names C source when its base name ends in `.c` with a
/// nonempty stem, the shape the front end accepts for a translation unit.
pub open spec fn is_c_source(path: Seq<char>) -> bool {
    let b = base_name(path);
    b.len() >= 3 && b[b.len() - 2] == '.' && b[b.len() - 1] == 'c'
}

/// The base name of `path`, as a fresh string.
pub fn base_name_of(path: &str) -> (r: String)
    ensures
        r@ == base_name(path@),
{
    let n: usize = path.unicode_len();
    let mut j: usize = n;
    proof {
        assert(path@.take(n as int) =~= path@);
        assert(base_name(path@) + path@.skip(n as int) =~= base_name(path@));
    }
    while j > 0 && path.get_char(j - 1) != '/'
        invariant
            j <= n,
            n == path@.len(),
            base_name(path@) == base_name(path@.take(j as int)) + path@.skip(j as int),
        decreases j,
    {
        proof {
            let pre = path@.take(j as int);
            assert(pre.len() == j);
            assert(pre.last() == path@[j - 1]);
            assert(pre.drop_last() =~= path@.take(j - 1));
            assert(base_name(pre) == base_name(path@.take(j - 1)) + seq![path@[j - 1]]);
            assert(seq![path@[j - 1]] + path@.skip(j as int) =~= path@.skip(j - 1));
            assert(base_name(path@.take(j - 1)) + seq![path@[j - 1]] + path@.skip(j as int)
                == base_name(path@.take(j - 1)) + (seq![path@[j - 1]] + path@.skip(j as int)));
        }
        j = j - 1;
    }
    proof {
        if j == 0 {
            assert(path@.take(0) =~= Seq::<char>::empty());
            assert(base_name(Seq::<char>::empty()) == Seq::<char>::empty());
        } else {
            let pre = path@.take(j as int);
            assert(pre.last() == path@[j - 1]);
            assert(base_name(pre) == Seq::<char>::empty());
        }
        assert(Seq::<char>::empty() + path@.skip(j as int) =~= path@.skip(j as int));
    }
    let tail: &str = path.substring_char(j, n);
    String::from_str(tail)
}

/// Whether `path` names C source, per `is_c_source`.
pub fn has_c_extension(path: &str) -> (r: bool)
    ensures
        r == is_c_source(path@),
{
    let base = base_name_of(path);
    let m: usize = base.as_str().unicode_len();
    if m < 3 {
        return false;
    }
    let dot: char = base.as_str().get_char(m - 2);
    let last: char = base.as_str().get_char(m - 1);
    dot == '.' && last == 'c'
}

} // verus!
