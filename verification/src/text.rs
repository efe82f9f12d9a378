//! Character-level text operations, with their specifications.
use vstd::prelude::*;

verus! {

/// The characters of `s`, in order.
pub fn chars_of(s: &str) -> (v: Vec<char>)
    ensures
        v@ == s@,
{
    let mut v: Vec<char> = Vec::new();
    for c in it: s.chars()
        invariant
            v@ == it.seq().take(it.index() as int),
    {
        v.push(c);
    }
    v
}

/// ASCII lowercase of one character: `A`..=`Z` map to `a`..=`z`, all others stay.
pub open spec fn ascii_lower(c: char) -> char {
    if 'A' <= c && c <= 'Z' {
        ((c as u32) + 32) as char
    } else {
        c
    }
}

/// ASCII lowercase of a character sequence.
pub open spec fn lower(s: Seq<char>) -> Seq<char> {
    s.map_values(|c: char| ascii_lower(c))
}

/// `s` without its leading `.` characters.
pub open spec fn strip_leading_dots(s: Seq<char>) -> Seq<char>
    decreases s.len(),
{
    if s.len() > 0 && s[0] == '.' {
        strip_leading_dots(s.drop_first())
    } else {
        s
    }
}

/// `name` is `suffix` itself, or ends with `.` followed by `suffix`.
pub open spec fn within_suffix(name: Seq<char>, suffix: Seq<char>) -> bool {
    ||| name == suffix
    ||| {
        &&& name.len() > suffix.len()
        &&& name[name.len() - suffix.len() - 1] == '.'
        &&& name.skip(name.len() - suffix.len()) == suffix
    }
}

/// ASCII lowercase of one character.
pub fn lower_char(c: char) -> (r: char)
    ensures
        r == ascii_lower(c),
{
    if 'A' <= c && c <= 'Z' {
        let b: u8 = c as u8;
        (b + 32) as char
    } else {
        c
    }
}

/// ASCII lowercase of a character vector.
pub fn lower_chars(v: &Vec<char>) -> (r: Vec<char>)
    ensures
        r@ == lower(v@),
{
    let mut r: Vec<char> = Vec::new();
    for i in 0..v.len()
        invariant
            r@ == lower(v@.take(i as int)),
    {
        r.push(lower_char(v[i]));
        assert(lower(v@.take(i + 1)) == lower(v@.take(i as int)).push(ascii_lower(v@[i as int])));
    }
    assert(v@.take(v.len() as int) == v@);
    r
}

/// Whether two character vectors are equal.
pub fn chars_equal(a: &Vec<char>, b: &Vec<char>) -> (r: bool)
    ensures
        r == (a@ == b@),
{
    if a.len() != b.len() {
        return false;
    }
    for i in 0..a.len()
        invariant
            a.len() == b.len(),
            forall|j: int| 0 <= j < i ==> a@[j] == b@[j],
    {
        if a[i] != b[i] {
            return false;
        }
    }
    assert(a@ == b@);
    true
}

/// Whether two strings hold the same characters.
pub fn same_text(a: &str, b: &str) -> (r: bool)
    ensures
        r == (a@ == b@),
{
    chars_equal(&chars_of(a), &chars_of(b))
}

/// Whether `v` holds `c`.
pub fn contains_char(v: &Vec<char>, c: char) -> (r: bool)
    ensures
        r == v@.contains(c),
{
    for i in 0..v.len()
        invariant
            forall|j: int| 0 <= j < i ==> v@[j] != c,
    {
        if v[i] == c {
            return true;
        }
    }
    false
}

proof fn lemma_strip_skip(s: Seq<char>, i: int)
    requires
        0 <= i < s.len(),
        s[i] == '.',
    ensures
        strip_leading_dots(s.skip(i)) == strip_leading_dots(s.skip(i + 1)),
{
    assert(s.skip(i).drop_first() == s.skip(i + 1));
}

/// `v` without its leading `.` characters.
pub fn strip_dots(v: &Vec<char>) -> (r: Vec<char>)
    ensures
        r@ == strip_leading_dots(v@),
{
    let mut start: usize = 0;
    assert(v@.skip(0) == v@);
    while start < v.len() && v[start] == '.'
        invariant
            start <= v.len(),
            strip_leading_dots(v@) == strip_leading_dots(v@.skip(start as int)),
        decreases v.len() - start,
    {
        proof { lemma_strip_skip(v@, start as int); }
        start = start + 1;
    }
    let mut r: Vec<char> = Vec::new();
    for i in start..v.len()
        invariant
            start <= i <= v.len(),
            r@ == v@.subrange(start as int, i as int),
    {
        r.push(v[i]);
    }
    assert(r@ == v@.skip(start as int));
    r
}

/// Whether `name` is `suffix` or ends with `.` followed by `suffix`.
pub fn is_within_suffix(name: &Vec<char>, suffix: &Vec<char>) -> (r: bool)
    ensures
        r == within_suffix(name@, suffix@),
{
    if chars_equal(name, suffix) {
        return true;
    }
    if name.len() <= suffix.len() {
        return false;
    }
    let offset = name.len() - suffix.len();
    if name[offset - 1] != '.' {
        return false;
    }
    for i in 0..suffix.len()
        invariant
            offset == name.len() - suffix.len(),
            forall|j: int| 0 <= j < i ==> name@[offset + j] == suffix@[j],
    {
        if name[offset + i] != suffix[i] {
            assert(name@.skip(offset as int)[i as int] != suffix@[i as int]);
            return false;
        }
    }
    assert(name@.skip(offset as int) == suffix@);
    true
}

/// A name is within a suffix exactly when it is the suffix itself or ends
/// with a dot followed by the suffix; in particular a name shorter than the
/// suffix, such as a parent domain, never is.
pub proof fn law_within_suffix_is_equal_or_below_a_dot(name: Seq<char>, suffix: Seq<char>)
    ensures
        within_suffix(name, suffix) <==> (name == suffix || (seq!['.'] + suffix).is_suffix_of(name)),
        name.len() < suffix.len() ==> !within_suffix(name, suffix),
{
    let dotted = seq!['.'] + suffix;
    if name.len() > suffix.len() {
        let tail = name.subrange(name.len() - suffix.len() - 1, name.len() as int);
        if tail =~= dotted {
            assert(name[name.len() - suffix.len() - 1] == tail[0]);
            assert(name.skip(name.len() - suffix.len()) =~= suffix) by {
                assert forall|x: int| 0 <= x < suffix.len() implies name.skip(name.len() - suffix.len())[x] == suffix[x] by {
                    assert(tail[x + 1] == dotted[x + 1]);
                }
            }
        }
        if name[name.len() - suffix.len() - 1] == '.' && name.skip(name.len() - suffix.len()) == suffix {
            assert forall|x: int| 0 <= x < dotted.len() implies tail[x] == dotted[x] by {
                if x > 0 {
                    assert(name.skip(name.len() - suffix.len())[x - 1] == suffix[x - 1]);
                }
            }
            assert(tail =~= dotted);
        }
    }
}

} // verus!
