//! Strings as sequences of characters: comparison, search, decimal numbers
//! and concatenation.

use vstd::prelude::*;

verus! {

/// The view of each string of `v`, in order.
pub open spec fn texts(v: Seq<String>) -> Seq<Seq<char>> {
    Seq::new(v.len(), |i: int| v[i]@)
}

/// `needle` stands in `hay` from position `at` on.
pub open spec fn occurs_at(needle: Seq<char>, hay: Seq<char>, at: int) -> bool {
    &&& 0 <= at
    &&& at + needle.len() <= hay.len()
    &&& hay.subrange(at, at + needle.len()) == needle
}

/// `needle` stands somewhere in `hay`. The empty text stands in every text.
pub open spec fn occurs_in(needle: Seq<char>, hay: Seq<char>) -> bool {
    exists|at: int| occurs_at(needle, hay, at)
}

/// `items` with `separator` between each two neighbours: nothing before the
/// first item, nothing after the last.
pub open spec fn interspersed(items: Seq<Seq<char>>, separator: Seq<char>) -> Seq<Seq<char>> {
    Seq::new(
        if items.len() == 0 {
            0nat
        } else {
            (2 * items.len() - 1) as nat
        },
        |i: int|
            if i % 2 == 0 {
                items[i / 2]
            } else {
                separator
            },
    )
}

/// The text of `lines` with `separator` between each two neighbours.
pub open spec fn joined(lines: Seq<Seq<char>>, separator: Seq<char>) -> Seq<char> {
    interspersed(lines, separator).flatten()
}

/// The character of the decimal digit `d`.
pub open spec fn digit(d: nat) -> char
    recommends
        d < 10,
{
    ('0' as nat + d) as char
}

/// `n` written in base ten, without sign or leading zeros.
pub open spec fn decimal(n: nat) -> Seq<char>
    decreases n,
{
    if n < 10 {
        seq![digit(n)]
    } else {
        decimal(n / 10).push(digit(n % 10))
    }
}

/// `String::push`: appends one character to the string and changes nothing else.
#[verifier::external_body]
pub(crate) fn push_char(s: &mut String, c: char)
    ensures
        final(s)@ == old(s)@.push(c),
{
    s.push(c)
}

/// `Itertools::intersperse`, on an iterator over the strings of a vector:
/// the iterator that it returns yields the strings in order, with a clone of
/// `separator` between each two neighbours.
#[verifier::external_body]
pub(crate) fn intersperse(items: Vec<String>, separator: String) -> (out: Vec<String>)
    ensures
        texts(out@) == interspersed(texts(items@), separator@),
{
    itertools::Itertools::intersperse(items.into_iter(), separator).collect()
}

/// The characters of `s`, in order.
pub fn chars_of(s: &str) -> (v: Vec<char>)
    ensures
        v@ == s@,
{
    let mut v: Vec<char> = Vec::new();
    for c in it: s.chars()
        invariant
            v@ == s@.subrange(0, it.index() as int),
            it.seq() == s@,
    {
        v.push(c);
    }
    v
}

/// The string made of `chars`, in order.
pub fn string_of(chars: &Vec<char>) -> (s: String)
    ensures
        s@ == chars@,
{
    let mut s = String::new();
    let mut i: usize = 0;
    while i < chars.len()
        invariant
            i <= chars.len(),
            s@ == chars@.subrange(0, i as int),
        decreases chars.len() - i,
    {
        push_char(&mut s, chars[i]);
        i += 1;
    }
    s
}

/// Whether two strings hold the same characters.
pub fn same_text(a: &str, b: &str) -> (r: bool)
    ensures
        r == (a@ == b@),
{
    let x = chars_of(a);
    let y = chars_of(b);
    if x.len() != y.len() {
        return false;
    }
    let mut i: usize = 0;
    while i < x.len()
        invariant
            i <= x.len(),
            x.len() == y.len(),
            x@ == a@,
            y@ == b@,
            x@.subrange(0, i as int) == y@.subrange(0, i as int),
        decreases x.len() - i,
    {
        if x[i] != y[i] {
            assert(a@[i as int] != b@[i as int]);
            return false;
        }
        assert(x@.subrange(0, i + 1) == x@.subrange(0, i as int).push(x@[i as int]));
        assert(y@.subrange(0, i + 1) == y@.subrange(0, i as int).push(y@[i as int]));
        i += 1;
    }
    assert(x@ == x@.subrange(0, x.len() as int));
    assert(y@ == y@.subrange(0, y.len() as int));
    true
}

fn matches_at(needle: &Vec<char>, hay: &Vec<char>, at: usize) -> (r: bool)
    requires
        at + needle.len() <= hay.len(),
    ensures
        r == occurs_at(needle@, hay@, at as int),
{
    let mut i: usize = 0;
    while i < needle.len()
        invariant
            i <= needle.len(),
            at + needle.len() <= hay.len(),
            forall|j: int| 0 <= j < i ==> hay@[at + j] == needle@[j],
        decreases needle.len() - i,
    {
        if hay[at + i] != needle[i] {
            assert(hay@.subrange(at as int, at + needle.len())[i as int] != needle@[i as int]);
            return false;
        }
        i += 1;
    }
    assert(hay@.subrange(at as int, at + needle.len()) =~= needle@);
    true
}

/// Whether `needle` stands somewhere in `hay`.
pub fn contains(hay: &str, needle: &str) -> (r: bool)
    ensures
        r == occurs_in(needle@, hay@),
{
    let h = chars_of(hay);
    let n = chars_of(needle);
    if n.len() > h.len() {
        return false;
    }
    let last: usize = h.len() - n.len();
    let mut at: usize = 0;
    loop
        invariant
            at <= last,
            last == h.len() - n.len(),
            n.len() <= h.len(),
            h@ == hay@,
            n@ == needle@,
            forall|k: int| 0 <= k < at ==> !occurs_at(n@, h@, k),
        decreases last - at,
    {
        if matches_at(&n, &h, at) {
            return true;
        }
        if at == last {
            return false;
        }
        at += 1;
    }
}

fn digit_char(d: u8) -> (c: char)
    requires
        d < 10,
    ensures
        c == digit(d as nat),
{
    (48u8 + d) as char
}

/// `n` written in base ten.
pub fn decimal_string(n: u64) -> (s: String)
    ensures
        s@ == decimal(n as nat),
{
    let mut digits: Vec<char> = Vec::new();
    digits.push(digit_char((n % 10) as u8));
    let mut rest: u64 = n / 10;
    while rest > 0
        invariant
            decimal(n as nat) == (if rest == 0 {
                Seq::<char>::empty()
            } else {
                decimal(rest as nat)
            }) + digits@,
        decreases rest,
    {
        let ghost before = digits@;
        digits.insert(0, digit_char((rest % 10) as u8));
        assert(digits@ == seq![digit((rest % 10) as nat)] + before);
        assert(decimal(rest as nat) == if rest < 10 {
            seq![digit(rest as nat)]
        } else {
            decimal((rest / 10) as nat).push(digit((rest % 10) as nat))
        });
        rest = rest / 10;
    }
    string_of(&digits)
}

/// All of `parts`, one after the other.
pub fn concat_all(parts: &Vec<String>) -> (s: String)
    ensures
        s@ == texts(parts@).flatten(),
{
    let mut s = String::new();
    let mut i: usize = 0;
    while i < parts.len()
        invariant
            i <= parts.len(),
            s@ == texts(parts@.subrange(0, i as int)).flatten(),
        decreases parts.len() - i,
    {
        proof {
            let done = texts(parts@.subrange(0, i as int));
            done.lemma_flatten_push(parts@[i as int]@);
            assert(texts(parts@.subrange(0, i + 1)) == done.push(parts@[i as int]@));
        }
        s.append(parts[i].as_str());
        i += 1;
    }
    assert(parts@.subrange(0, parts.len() as int) == parts@);
    s
}

/// `lines` as one text, with `separator` between each two neighbours.
pub fn join(lines: Vec<String>, separator: &str) -> (s: String)
    ensures
        s@ == joined(texts(lines@), separator@),
{
    let pieces = intersperse(lines, String::from_str(separator));
    concat_all(&pieces)
}

} // verus!
