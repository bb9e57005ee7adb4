//! Character-level text utilities shared by the template engine and the
//! map codec: conversions between `String` and `Vec<char>`, marker search,
//! and decimal rendering of numbers.

use vstd::prelude::*;

verus! {

/// Character-for-character string comparison, so that equality of views can
/// be concluded without trusting a derived implementation.
pub fn str_eq(a: &str, b: &str) -> (r: bool)
    ensures
        r == (a@ == b@),
{
    let a_len = a.unicode_len();
    let b_len = b.unicode_len();
    if a_len != b_len {
        assert(a@ != b@) by {
            assert(a@.len() != b@.len());
        }
        return false;
    }
    let mut i: usize = 0;
    while i < a_len
        invariant
            i <= a_len,
            a_len == a@.len(),
            b_len == b@.len(),
            a_len == b_len,
            forall|j: int| 0 <= j < i ==> a@[j] == b@[j],
        decreases a_len - i,
    {
        if a.get_char(i) != b.get_char(i) {
            return false;
        }
        i = i + 1;
    }
    proof {
        assert(a@ =~= b@);
    }
    true
}

/// The characters of a string, as a vector.
pub fn chars_of(s: &str) -> (v: Vec<char>)
    ensures
        v@ == s@,
{
    let len = s.unicode_len();
    let mut v: Vec<char> = Vec::new();
    let mut i: usize = 0;
    while i < len
        invariant
            i <= len,
            len == s@.len(),
            v@ =~= s@.subrange(0, i as int),
        decreases len - i,
    {
        v.push(s.get_char(i));
        i = i + 1;
        assert(v@ =~= s@.subrange(0, i as int));
    }
    proof {
        assert(v@ =~= s@);
    }
    v
}

/// Relies on `String::push`: appends exactly the given character.
#[verifier::external_body]
fn push_char(s: &mut String, c: char)
    ensures
        final(s)@ == old(s)@.push(c),
{
    s.push(c);
}

/// A string holding exactly the given characters.
pub fn string_of(v: &[char]) -> (s: String)
    ensures
        s@ == v@,
{
    let mut s = String::new();
    let mut i: usize = 0;
    while i < v.len()
        invariant
            i <= v@.len(),
            s@ =~= v@.subrange(0, i as int),
        decreases v@.len() - i,
    {
        push_char(&mut s, v[i]);
        i = i + 1;
        assert(s@ =~= v@.subrange(0, i as int));
    }
    proof {
        assert(s@ =~= v@);
    }
    s
}

/// True when the characters of `v` spell the string `s`.
pub fn chars_eq_str(v: &[char], s: &str) -> (r: bool)
    ensures
        r == (v@ == s@),
{
    let s_len = s.unicode_len();
    if v.len() != s_len {
        assert(v@ != s@) by {
            assert(v@.len() != s@.len());
        }
        return false;
    }
    let mut i: usize = 0;
    while i < s_len
        invariant
            i <= s_len,
            s_len == s@.len(),
            v@.len() == s_len,
            forall|j: int| 0 <= j < i ==> v@[j] == s@[j],
        decreases s_len - i,
    {
        if v[i] != s.get_char(i) {
            return false;
        }
        i = i + 1;
    }
    proof {
        assert(v@ =~= s@);
    }
    true
}

/// A copy of `v[from..to]`.
pub fn subvec(v: &[char], from: usize, to: usize) -> (r: Vec<char>)
    requires
        from <= to <= v@.len(),
    ensures
        r@ == v@.subrange(from as int, to as int),
{
    let mut r: Vec<char> = Vec::new();
    let mut i: usize = from;
    while i < to
        invariant
            from <= i <= to <= v@.len(),
            r@ =~= v@.subrange(from as int, i as int),
        decreases to - i,
    {
        r.push(v[i]);
        i = i + 1;
        assert(r@ =~= v@.subrange(from as int, i as int));
    }
    r
}

/// Appends a copy of `src[from..to]` to `dst`.
pub fn append_range(dst: &mut Vec<char>, src: &[char], from: usize, to: usize)
    requires
        from <= to <= src@.len(),
    ensures
        final(dst)@ == old(dst)@ + src@.subrange(from as int, to as int),
{
    let ghost orig = dst@;
    let mut i: usize = from;
    while i < to
        invariant
            from <= i <= to <= src@.len(),
            dst@ =~= orig + src@.subrange(from as int, i as int),
        decreases to - i,
    {
        dst.push(src[i]);
        i = i + 1;
        assert(dst@ =~= orig + src@.subrange(from as int, i as int));
    }
    proof {
        assert(dst@ =~= orig + src@.subrange(from as int, to as int));
    }
}

/// The views of a sequence of character vectors.
pub open spec fn seq_views(ls: Seq<Vec<char>>) -> Seq<Seq<char>> {
    ls.map_values(|l: Vec<char>| l@)
}

/// Appends a copy of all of `src` to `dst`.
pub fn append_all(dst: &mut Vec<char>, src: &[char])
    ensures
        final(dst)@ == old(dst)@ + src@,
{
    let n = src.len();
    append_range(dst, src, 0, n);
    proof {
        assert(src@.subrange(0, src@.len() as int) =~= src@);
    }
}

/// The first position `j >= i` at which the two characters `c0 c1` occur in
/// order, if any.
pub open spec fn find2_from(s: Seq<char>, c0: char, c1: char, i: int) -> Option<int>
    decreases s.len() - i,
{
    if i < 0 || i + 2 > s.len() {
        None
    } else if s[i] == c0 && s[i + 1] == c1 {
        Some(i)
    } else {
        find2_from(s, c0, c1, i + 1)
    }
}

pub proof fn lemma_find2_bounds(s: Seq<char>, c0: char, c1: char, i: int, j: int)
    requires
        find2_from(s, c0, c1, i) == Some(j),
    ensures
        i <= j,
        0 <= j,
        j + 2 <= s.len(),
        s[j] == c0,
        s[j + 1] == c1,
    decreases s.len() - i,
{
    if !(i < 0 || i + 2 > s.len()) && !(s[i] == c0 && s[i + 1] == c1) {
        lemma_find2_bounds(s, c0, c1, i + 1, j);
    }
}

/// The first position of a single character `c` at or after `i`, if any.
pub open spec fn find1_from(s: Seq<char>, c: char, i: int) -> Option<int>
    decreases s.len() - i,
{
    if i < 0 || i + 1 > s.len() {
        None
    } else if s[i] == c {
        Some(i)
    } else {
        find1_from(s, c, i + 1)
    }
}

pub proof fn lemma_find1_bounds(s: Seq<char>, c: char, i: int, j: int)
    requires
        find1_from(s, c, i) == Some(j),
    ensures
        i <= j,
        0 <= j,
        j + 1 <= s.len(),
        s[j] == c,
    decreases s.len() - i,
{
    if !(i < 0 || i + 1 > s.len()) && !(s[i] == c) {
        lemma_find1_bounds(s, c, i + 1, j);
    }
}

/// Searches `v` for the pair `c0 c1`, starting at `from`.
pub fn find2(v: &[char], c0: char, c1: char, from: usize) -> (r: Option<usize>)
    requires
        from <= v@.len(),
    ensures
        (match r {
            Some(j) => Some(j as int),
            None => None,
        }) == find2_from(v@, c0, c1, from as int),
        r is Some ==> from <= r->0 && r->0 + 2 <= v@.len(),
{
    let len = v.len();
    if len < 2 {
        return None;
    }
    let mut i: usize = from;
    while i <= len - 2
        invariant
            from <= i <= len,
            2 <= len == v@.len(),
            find2_from(v@, c0, c1, from as int) == find2_from(v@, c0, c1, i as int),
        decreases len - i,
    {
        if v[i] == c0 && v[i + 1] == c1 {
            return Some(i);
        }
        i = i + 1;
    }
    None
}

/// Searches `v` for the character `c`, starting at `from`.
pub fn find1(v: &[char], c: char, from: usize) -> (r: Option<usize>)
    requires
        from <= v@.len(),
    ensures
        (match r {
            Some(j) => Some(j as int),
            None => None,
        }) == find1_from(v@, c, from as int),
        r is Some ==> from <= r->0 && r->0 + 1 <= v@.len(),
{
    let len = v.len();
    let mut i: usize = from;
    while i < len
        invariant
            from <= i <= len,
            len == v@.len(),
            find1_from(v@, c, from as int) == find1_from(v@, c, i as int),
        decreases len - i,
    {
        if v[i] == c {
            return Some(i);
        }
        i = i + 1;
    }
    None
}

/// The characters of `s` with every space removed.
pub open spec fn spec_strip_spaces(s: Seq<char>) -> Seq<char>
    decreases s.len(),
{
    if s.len() == 0 {
        Seq::empty()
    } else {
        let front = spec_strip_spaces(s.drop_last());
        if s.last() == ' ' {
            front
        } else {
            front.push(s.last())
        }
    }
}

/// Removes every space character.
pub fn strip_spaces(v: &[char]) -> (r: Vec<char>)
    ensures
        r@ == spec_strip_spaces(v@),
{
    let mut r: Vec<char> = Vec::new();
    let mut i: usize = 0;
    while i < v.len()
        invariant
            i <= v@.len(),
            r@ == spec_strip_spaces(v@.subrange(0, i as int)),
        decreases v@.len() - i,
    {
        if v[i] != ' ' {
            r.push(v[i]);
        }
        i = i + 1;
        proof {
            assert(v@.subrange(0, i as int).drop_last() =~= v@.subrange(0, i - 1));
        }
    }
    proof {
        assert(v@.subrange(0, v@.len() as int) =~= v@);
    }
    r
}

/// Upper-case folding for the ASCII letters; every other character is kept.
pub open spec fn spec_upper_char(c: char) -> char {
    if 'a' <= c && c <= 'z' {
        (((c as u8) - 32) as char)
    } else {
        c
    }
}

/// The characters of `s` with ASCII letters folded to upper case.
pub open spec fn spec_upper(s: Seq<char>) -> Seq<char> {
    s.map_values(|c: char| spec_upper_char(c))
}

fn upper_char(c: char) -> (r: char)
    ensures
        r == spec_upper_char(c),
{
    if 'a' <= c && c <= 'z' {
        ((c as u8) - 32) as char
    } else {
        c
    }
}

/// ASCII upper-case folding of a character sequence.
pub fn upper_chars(v: &[char]) -> (r: Vec<char>)
    ensures
        r@ == spec_upper(v@),
{
    let mut r: Vec<char> = Vec::new();
    let mut i: usize = 0;
    while i < v.len()
        invariant
            i <= v@.len(),
            r@.len() == i,
            forall|j: int| 0 <= j < i ==> r@[j] == spec_upper_char(v@[j]),
        decreases v@.len() - i,
    {
        r.push(upper_char(v[i]));
        i = i + 1;
    }
    proof {
        assert(r@ =~= spec_upper(v@));
    }
    r
}

/// Lower-case folding for the ASCII letters; every other character is kept.
pub open spec fn spec_lower_char(c: char) -> char {
    if 'A' <= c && c <= 'Z' {
        (((c as u8) + 32) as char)
    } else {
        c
    }
}

/// The characters of `s` with ASCII letters folded to lower case.
pub open spec fn spec_lower(s: Seq<char>) -> Seq<char> {
    s.map_values(|c: char| spec_lower_char(c))
}

fn lower_char(c: char) -> (r: char)
    ensures
        r == spec_lower_char(c),
{
    if 'A' <= c && c <= 'Z' {
        ((c as u8) + 32) as char
    } else {
        c
    }
}

/// ASCII lower-case folding of a character sequence.
pub fn lower_chars(v: &[char]) -> (r: Vec<char>)
    ensures
        r@ == spec_lower(v@),
{
    let mut r: Vec<char> = Vec::new();
    let mut i: usize = 0;
    while i < v.len()
        invariant
            i <= v@.len(),
            r@.len() == i,
            forall|j: int| 0 <= j < i ==> r@[j] == spec_lower_char(v@[j]),
        decreases v@.len() - i,
    {
        r.push(lower_char(v[i]));
        i = i + 1;
    }
    proof {
        assert(r@ =~= spec_lower(v@));
    }
    r
}

/// The decimal digit character for a value below ten.
pub open spec fn spec_digit(d: nat) -> char {
    if d == 0 {
        '0'
    } else if d == 1 {
        '1'
    } else if d == 2 {
        '2'
    } else if d == 3 {
        '3'
    } else if d == 4 {
        '4'
    } else if d == 5 {
        '5'
    } else if d == 6 {
        '6'
    } else if d == 7 {
        '7'
    } else if d == 8 {
        '8'
    } else {
        '9'
    }
}

/// The decimal rendering of a natural number, most significant digit first.
pub open spec fn spec_dec(n: nat) -> Seq<char>
    decreases n,
{
    if n < 10 {
        seq![spec_digit(n)]
    } else {
        spec_dec(n / 10).push(spec_digit(n % 10))
    }
}

fn digit_char(d: u64) -> (c: char)
    requires
        d < 10,
    ensures
        c == spec_digit(d as nat),
{
    if d == 0 {
        '0'
    } else if d == 1 {
        '1'
    } else if d == 2 {
        '2'
    } else if d == 3 {
        '3'
    } else if d == 4 {
        '4'
    } else if d == 5 {
        '5'
    } else if d == 6 {
        '6'
    } else if d == 7 {
        '7'
    } else if d == 8 {
        '8'
    } else {
        '9'
    }
}

/// The decimal rendering of a number, as characters.
pub fn dec_chars(n: u64) -> (r: Vec<char>)
    ensures
        r@ == spec_dec(n as nat),
    decreases n,
{
    if n < 10 {
        let mut v: Vec<char> = Vec::new();
        v.push(digit_char(n));
        proof {
            assert(v@ =~= spec_dec(n as nat));
        }
        v
    } else {
        let mut v = dec_chars(n / 10);
        v.push(digit_char(n % 10));
        v
    }
}

} // verus!
