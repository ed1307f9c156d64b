//! Small operations on text that the rest of the library is stated over.

use vstd::prelude::*;
use vstd::string::*;

verus! {

/// Whether the character `c` occurs in `s`.
pub fn contains_char(s: &str, c: char) -> (b: bool)
    ensures
        b == s@.contains(c),
{
    let mut found = false;
    for x in it: s.chars()
        invariant
            it.seq() == s@,
            found <==> exists|j: int| 0 <= j < it.index() && s@[j] == c,
    {
        if x == c {
            found = true;
        }
    }
    found
}

/// The characters of `s`, in order.
pub fn chars_of(s: &str) -> (v: Vec<char>)
    ensures
        v@ == s@,
{
    let mut v: Vec<char> = Vec::new();
    for x in it: s.chars()
        invariant
            it.seq() == s@,
            v@ == s@.take(it.index() as int),
    {
        v.push(x);
    }
    v
}

/// Whether two pieces of text hold the same characters.
pub fn same_text(a: &str, b: &str) -> (r: bool)
    ensures
        r == (a@ == b@),
{
    let va = chars_of(a);
    let vb = chars_of(b);
    if va.len() != vb.len() {
        return false;
    }
    let mut i: usize = 0;
    while i < va.len()
        invariant
            va@ == a@,
            vb@ == b@,
            va.len() == vb.len(),
            i <= va.len(),
            forall|j: int| 0 <= j < i ==> a@[j] == b@[j],
        decreases va.len() - i,
    {
        if va[i] != vb[i] {
            return false;
        }
        i += 1;
    }
    assert(a@ =~= b@);
    true
}

/// Where the last component of `path` starts: just behind its last `/`, or
/// at 0 where it holds none.
pub open spec fn basename_start(path: Seq<char>) -> int
    decreases path.len(),
{
    if path.len() == 0 {
        0
    } else if path.last() == '/' {
        path.len() as int
    } else {
        basename_start(path.drop_last())
    }
}

/// The last component of `path`: what follows its last `/`, or all of it
/// where it holds none.
pub open spec fn basename_of(path: Seq<char>) -> Seq<char> {
    path.skip(basename_start(path))
}

/// `basename_start` lies within the path, directly behind a `/` unless it
/// is 0, and no `/` follows it.
pub proof fn lemma_basename_start(path: Seq<char>)
    ensures
        0 <= basename_start(path) <= path.len(),
        basename_start(path) > 0 ==> path[basename_start(path) - 1] == '/',
        forall|j: int| basename_start(path) <= j < path.len() ==> path[j] != '/',
    decreases path.len(),
{
    if path.len() > 0 && path.last() != '/' {
        let front = path.drop_last();
        lemma_basename_start(front);
        assert forall|j: int| basename_start(path) <= j < path.len() implies path[j] != '/' by {
            if j < front.len() {
                assert(path[j] == front[j]);
            }
        }
    }
}

/// The last component of `path`.
pub fn basename(path: &str) -> (name: String)
    ensures
        name@ == basename_of(path@),
{
    let v = chars_of(path);
    let mut start: usize = 0;
    let mut i: usize = 0;
    while i < v.len()
        invariant
            v@ == path@,
            i <= v.len(),
            start <= i,
            start == basename_start(path@.take(i as int)),
        decreases v.len() - i,
    {
        proof {
            assert(path@.take(i + 1).drop_last() == path@.take(i as int));
        }
        if v[i] == '/' {
            start = i + 1;
        }
        i += 1;
    }
    proof {
        assert(path@.take(i as int) == path@);
    }
    String::from_str(path.substring_char(start, v.len()))
}

} // verus!
