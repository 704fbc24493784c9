//! Reading a string slice as a sequence of characters, and finding the space
//! that separates its two parts.

use vstd::prelude::*;

verus! {

/// Whether position `i` of `s` holds a space and no earlier position does.
pub open spec fn is_first_space(s: Seq<char>, i: int) -> bool {
    &&& 0 <= i < s.len()
    &&& s[i] == ' '
    &&& forall|j: int| 0 <= j < i ==> s[j] != ' '
}

/// The position of the first space of a text that holds one.
pub open spec fn first_space(s: Seq<char>) -> int {
    choose|i: int| is_first_space(s, i)
}

/// A text has one first space at most: whoever finds one has found
/// `first_space`.
pub proof fn lemma_first_space_is_unique(s: Seq<char>, i: int)
    requires
        is_first_space(s, i),
    ensures
        s.contains(' '),
        first_space(s) == i,
{
    let j = first_space(s);
    assert(is_first_space(s, j));
    if j < i {
        assert(s[j] != ' ');
    }
    if i < j {
        assert(s[i] != ' ');
    }
}

/// A text with a space at position `k` has a first space.
proof fn lemma_first_space_at_or_before(s: Seq<char>, k: int)
    requires
        0 <= k < s.len(),
        s[k] == ' ',
    ensures
        exists|i: int| is_first_space(s, i),
    decreases k,
{
    if forall|j: int| 0 <= j < k ==> s[j] != ' ' {
        assert(is_first_space(s, k));
    } else {
        let j = choose|j: int| 0 <= j < k && s[j] == ' ';
        lemma_first_space_at_or_before(s, j);
    }
}

/// In a text that holds a space, `first_space` is the position of the first.
pub proof fn lemma_first_space_is_found(s: Seq<char>)
    requires
        s.contains(' '),
    ensures
        is_first_space(s, first_space(s)),
{
    let k = choose|k: int| 0 <= k < s.len() && s[k] == ' ';
    lemma_first_space_at_or_before(s, k);
}

/// Collects the characters of `s`, in order, in one pass.
pub(crate) fn chars_of(s: &str) -> (v: Vec<char>)
    ensures
        v@ == s@,
{
    let mut v: Vec<char> = Vec::new();
    for c in it: s.chars()
        invariant
            it.seq() == s@,
            v@ == it.seq().take(it.index() as int),
    {
        v.push(c);
    }
    v
}

/// Finds the first space among `chars`.
pub(crate) fn find_first_space(chars: &[char]) -> (r: Option<usize>)
    ensures
        match r {
            Some(i) => is_first_space(chars@, i as int),
            None => !chars@.contains(' '),
        },
{
    let n: usize = chars.len();
    let mut i: usize = 0;
    while i < n
        invariant
            i <= n,
            n == chars.len(),
            forall|j: int| 0 <= j < i ==> chars@[j] != ' ',
        decreases n - i,
    {
        if chars[i] == ' ' {
            return Some(i);
        }
        i += 1;
    }
    None
}

} // verus!
