//! Text as sequences of characters: trimming, splitting, joining, searching.
//!
//! Every function here is stated over `Seq<char>`, the view of `str` and
//! `String`. Lengths and positions count characters; [`byte_len`] is the one
//! place that counts UTF-8 bytes.
use vstd::prelude::*;
use vstd::utf8::encode_utf8;

verus! {

/// `String::push`: appends one character at the end.
pub assume_specification [String::push](s: &mut String, c: char)
    ensures
        final(s)@ == old(s)@.push(c),
;

/// The Unicode `White_Space` property, as the character database lists it.
pub open spec fn white_space(c: char) -> bool {
    ||| '\u{9}' <= c <= '\u{d}'
    ||| c == ' '
    ||| c == '\u{85}'
    ||| c == '\u{a0}'
    ||| c == '\u{1680}'
    ||| '\u{2000}' <= c <= '\u{200a}'
    ||| c == '\u{2028}'
    ||| c == '\u{2029}'
    ||| c == '\u{202f}'
    ||| c == '\u{205f}'
    ||| c == '\u{3000}'
}

/// `char::is_whitespace`: whether the character has the `White_Space` property.
pub assume_specification [char::is_whitespace](c: char) -> (r: bool)
    ensures
        r == white_space(c),
;

// ---------------------------------------------------------------------------
// Views and conversions

/// The views of a list of strings.
pub open spec fn texts(v: Seq<String>) -> Seq<Seq<char>> {
    v.map_values(|s: String| s@)
}

/// The view of an optional string.
pub open spec fn opt_text(o: Option<String>) -> Option<Seq<char>> {
    match o {
        Some(s) => Some(s@),
        None => None,
    }
}

/// An optional text, or the empty text.
pub open spec fn text_or_empty(o: Option<Seq<char>>) -> Seq<char> {
    match o {
        Some(s) => s,
        None => Seq::empty(),
    }
}

/// The characters of `s`, in order.
pub fn chars(s: &str) -> (v: Vec<char>)
    ensures
        v@ == s@,
{
    let mut v: Vec<char> = Vec::new();
    for c in it: s.chars()
        invariant
            v@ == s@.take(it.index() as int),
            it.seq() == s@,
    {
        v.push(c);
    }
    assert(s@.take(s@.len() as int) =~= s@);
    v
}

/// The characters `from..to` of `v` as a string.
pub fn substring(v: &Vec<char>, from: usize, to: usize) -> (r: String)
    requires
        from <= to <= v@.len(),
    ensures
        r@ == v@.subrange(from as int, to as int),
{
    let mut out = String::new();
    for i in from..to
        invariant
            from <= to <= v@.len(),
            out@ == v@.subrange(from as int, i as int),
    {
        out.push(v[i]);
    }
    out
}

/// Whether two texts hold the same characters.
pub fn same(a: &str, b: &str) -> (r: bool)
    ensures
        r == (a@ == b@),
{
    a.to_owned() == b.to_owned()
}

/// Number of UTF-8 bytes of a text.
pub open spec fn utf8_len(s: Seq<char>) -> nat {
    encode_utf8(s).len()
}

/// Number of UTF-8 bytes of `s`.
pub fn byte_len(s: &str) -> (n: usize)
    ensures
        n as nat == utf8_len(s@),
{
    s.as_bytes().len()
}

/// A copy of an optional string, the empty string when absent.
pub fn string_or_empty(o: &Option<String>) -> (r: String)
    ensures
        r@ == text_or_empty(opt_text(*o)),
{
    match o {
        Some(s) => s.clone(),
        None => String::new(),
    }
}

/// A copy of an optional string.
pub fn clone_opt(o: &Option<String>) -> (r: Option<String>)
    ensures
        r == *o,
{
    match o {
        Some(s) => Some(s.clone()),
        None => None,
    }
}

/// A copy of a list of strings.
pub fn clone_list(v: &Vec<String>) -> (r: Vec<String>)
    ensures
        r@ == v@,
{
    let mut out: Vec<String> = Vec::new();
    for i in 0..v.len()
        invariant
            out@ == v@.take(i as int),
    {
        out.push(v[i].clone());
        assert(v@.take(i + 1) =~= v@.take(i as int).push(v@[i as int]));
    }
    assert(v@.take(v@.len() as int) =~= v@);
    out
}

// ---------------------------------------------------------------------------
// Trimming

/// Whether `c` is stripped: white space when `white` is set, or a member of `set`.
pub open spec fn in_class(c: char, white: bool, set: Seq<char>) -> bool {
    (white && white_space(c)) || set.contains(c)
}

/// `s` without the stripped characters at its start.
pub open spec fn without_prefix(s: Seq<char>, white: bool, set: Seq<char>) -> Seq<char>
    decreases s.len(),
{
    if s.len() > 0 && in_class(s[0], white, set) {
        without_prefix(s.drop_first(), white, set)
    } else {
        s
    }
}

/// `s` without the stripped characters at its end.
pub open spec fn without_suffix(s: Seq<char>, white: bool, set: Seq<char>) -> Seq<char>
    decreases s.len(),
{
    if s.len() > 0 && in_class(s.last(), white, set) {
        without_suffix(s.drop_last(), white, set)
    } else {
        s
    }
}

/// `s` without leading and trailing white space.
pub open spec fn trimmed(s: Seq<char>) -> Seq<char> {
    without_suffix(without_prefix(s, true, Seq::empty()), true, Seq::empty())
}

/// Whether some character of `set` is `c`.
pub fn contains_char(set: &str, c: char) -> (r: bool)
    ensures
        r == set@.contains(c),
{
    let v = chars(set);
    for i in 0..v.len()
        invariant
            v@ == set@,
            forall|j: int| 0 <= j < i ==> v@[j] != c,
    {
        if v[i] == c {
            assert(set@[i as int] == c);
            return true;
        }
    }
    false
}

fn class_test(c: char, white: bool, set: &str) -> (r: bool)
    ensures
        r == in_class(c, white, set@),
{
    (white && c.is_whitespace()) || contains_char(set, c)
}

/// Strips the class at both ends: at the start when `front`, at the end always.
pub fn strip(s: &str, front: bool, white: bool, set: &str) -> (r: String)
    ensures
        r@ == without_suffix(
            if front { without_prefix(s@, white, set@) } else { s@ },
            white,
            set@,
        ),
{
    let v = chars(s);
    let mut a: usize = 0;
    if front {
        assert(v@.subrange(0, v@.len() as int) =~= v@);
        while a < v.len() && class_test(v[a], white, set)
            invariant
                a <= v@.len(),
                front,
                v@ == s@,
                without_prefix(s@, white, set@) == without_prefix(
                    v@.subrange(a as int, v@.len() as int),
                    white,
                    set@,
                ),
            decreases v@.len() - a,
        {
            assert(v@.subrange(a as int, v@.len() as int).drop_first() =~= v@.subrange(
                a + 1,
                v@.len() as int,
            ));
            a = a + 1;
        }
    }
    let ghost rest = v@.subrange(a as int, v@.len() as int);
    assert(rest == if front { without_prefix(s@, white, set@) } else { s@ }) by {
        if !front {
            assert(rest =~= s@);
        }
    }
    let mut b: usize = v.len();
    while b > a && class_test(v[b - 1], white, set)
        invariant
            a <= b <= v@.len(),
            without_suffix(rest, white, set@) == without_suffix(
                v@.subrange(a as int, b as int),
                white,
                set@,
            ),
        decreases b,
    {
        assert(v@.subrange(a as int, b as int).drop_last() =~= v@.subrange(a as int, b - 1));
        b = b - 1;
    }
    substring(&v, a, b)
}

/// `s` without leading and trailing white space.
pub fn trim(s: &str) -> (r: String)
    ensures
        r@ == trimmed(s@),
{
    proof {
        reveal_strlit("");
        assert(""@ =~= Seq::<char>::empty());
    }
    strip(s, true, true, "")
}

/// The trimmed text, unless nothing is left of it.
pub open spec fn nonblank(s: Option<Seq<char>>) -> Option<Seq<char>> {
    match s {
        Some(t) => if trimmed(t).len() > 0 {
            Some(trimmed(t))
        } else {
            None
        },
        None => None,
    }
}

/// Trims an optional text and drops it when nothing is left.
pub fn clean(s: &Option<String>) -> (r: Option<String>)
    ensures
        opt_text(r) == nonblank(opt_text(*s)),
{
    match s {
        Some(t) => {
            let u = trim(t);
            if u.as_str().is_empty() {
                None
            } else {
                Some(u)
            }
        },
        None => None,
    }
}

// ---------------------------------------------------------------------------
// Splitting and joining

/// The parts of `s` between the characters of a class; a text without any has
/// one part.
pub open spec fn split_parts(s: Seq<char>, white: bool, set: Seq<char>) -> Seq<Seq<char>>
    decreases s.len(),
{
    if s.len() == 0 {
        seq![Seq::empty()]
    } else {
        let head = split_parts(s.drop_last(), white, set);
        if in_class(s.last(), white, set) {
            head.push(Seq::empty())
        } else {
            head.drop_last().push(head.last().push(s.last()))
        }
    }
}

/// Every text has at least one part.
pub proof fn lemma_split_nonempty(s: Seq<char>, white: bool, set: Seq<char>)
    ensures
        split_parts(s, white, set).len() > 0,
    decreases s.len(),
{
    if s.len() > 0 {
        lemma_split_nonempty(s.drop_last(), white, set);
    }
}

/// Splits `s` at the characters of a class.
pub fn split(s: &str, white: bool, set: &str) -> (parts: Vec<String>)
    ensures
        texts(parts@) == split_parts(s@, white, set@),
{
    let v = chars(s);
    let mut parts: Vec<String> = Vec::new();
    let mut cur = String::new();
    assert(v@.take(0) =~= Seq::<char>::empty());
    assert(texts(parts@).push(cur@) =~= seq![Seq::<char>::empty()]);
    for i in 0..v.len()
        invariant
            v@ == s@,
            texts(parts@).push(cur@) == split_parts(v@.take(i as int), white, set@),
    {
        let ghost before = texts(parts@).push(cur@);
        let c = v[i];
        proof {
            assert(v@.take(i + 1).drop_last() =~= v@.take(i as int));
            assert(v@.take(i + 1).last() == c);
            assert(before.drop_last() =~= texts(parts@));
            assert(before.last() == cur@);
        }
        if class_test(c, white, set) {
            parts.push(cur);
            assert(texts(parts@) =~= before);
            cur = String::new();
        } else {
            cur.push(c);
        }
    }
    assert(v@.take(v@.len() as int) =~= v@);
    let ghost whole = texts(parts@).push(cur@);
    parts.push(cur);
    assert(texts(parts@) =~= whole);
    parts
}

/// The parts that are not empty once trimmed, trimmed.
pub open spec fn trimmed_nonempty(parts: Seq<Seq<char>>) -> Seq<Seq<char>>
    decreases parts.len(),
{
    if parts.len() == 0 {
        Seq::empty()
    } else {
        let head = trimmed_nonempty(parts.drop_last());
        let last = trimmed(parts.last());
        if last.len() > 0 {
            head.push(last)
        } else {
            head
        }
    }
}

/// Trims every part and drops the empty ones.
pub fn trim_items(parts: &Vec<String>) -> (r: Vec<String>)
    ensures
        texts(r@) == trimmed_nonempty(texts(parts@)),
{
    let mut out: Vec<String> = Vec::new();
    assert(texts(out@) =~= trimmed_nonempty(texts(parts@).take(0)));
    for i in 0..parts.len()
        invariant
            texts(out@) == trimmed_nonempty(texts(parts@).take(i as int)),
    {
        let t = trim(&parts[i]);
        proof {
            assert(texts(parts@).take(i + 1).drop_last() =~= texts(parts@).take(i as int));
            assert(texts(parts@).take(i + 1).last() == parts@[i as int]@);
        }
        let ghost before = texts(out@);
        if !t.as_str().is_empty() {
            out.push(t);
            assert(texts(out@) =~= before.push(t@));
        }
    }
    assert(texts(parts@).take(parts@.len() as int) =~= texts(parts@));
    out
}

/// The white-space separated words of `s`.
pub open spec fn words_of(s: Seq<char>) -> Seq<Seq<char>> {
    trimmed_nonempty(split_parts(s, true, Seq::empty()))
}

/// Splits `s` into its white-space separated words.
pub fn split_words(s: &str) -> (r: Vec<String>)
    ensures
        texts(r@) == words_of(s@),
{
    proof {
        reveal_strlit("");
        assert(""@ =~= Seq::<char>::empty());
    }
    trim_items(&split(s, true, ""))
}

/// The items of a list separated by characters of `set`: each trimmed, the
/// empty ones left out.
pub open spec fn items_of(s: Seq<char>, set: Seq<char>) -> Seq<Seq<char>> {
    trimmed_nonempty(split_parts(s, false, set))
}

/// Splits a list at the characters of `set`, trimming and dropping empties.
pub fn split_items(s: &str, set: &str) -> (r: Vec<String>)
    ensures
        texts(r@) == items_of(s@, set@),
{
    trim_items(&split(s, false, set))
}

/// `parts` with `sep` between neighbours.
pub open spec fn joined(parts: Seq<Seq<char>>, sep: Seq<char>) -> Seq<char>
    decreases parts.len(),
{
    if parts.len() == 0 {
        Seq::empty()
    } else if parts.len() == 1 {
        parts[0]
    } else {
        joined(parts.drop_last(), sep) + sep + parts.last()
    }
}

/// Concatenates `parts` with `sep` between neighbours.
pub fn join(parts: &Vec<String>, sep: &str) -> (r: String)
    ensures
        r@ == joined(texts(parts@), sep@),
{
    let mut out = String::new();
    assert(texts(parts@).take(0) =~= Seq::<Seq<char>>::empty());
    for i in 0..parts.len()
        invariant
            out@ == joined(texts(parts@).take(i as int), sep@),
    {
        proof {
            let t = texts(parts@).take(i + 1);
            assert(t.drop_last() =~= texts(parts@).take(i as int));
            assert(t.last() == parts@[i as int]@);
        }
        if i > 0 {
            out.append(sep);
            out.append(&parts[i]);
        } else {
            out = parts[i].clone();
        }
    }
    assert(texts(parts@).take(parts@.len() as int) =~= texts(parts@));
    out
}

// ---------------------------------------------------------------------------
// Searching

/// Position of the first `c` in `s`, the length of `s` when there is none.
pub open spec fn first_index(s: Seq<char>, c: char) -> int
    decreases s.len(),
{
    if s.len() == 0 || s[0] == c {
        0
    } else {
        1 + first_index(s.drop_first(), c)
    }
}

/// What `first_index` says: no `c` before it, and a `c` at it if it is a position.
pub proof fn lemma_first_index(s: Seq<char>, c: char)
    ensures
        0 <= first_index(s, c) <= s.len(),
        forall|j: int| 0 <= j < first_index(s, c) ==> s[j] != c,
        first_index(s, c) < s.len() ==> s[first_index(s, c)] == c,
    decreases s.len(),
{
    if s.len() > 0 && s[0] != c {
        lemma_first_index(s.drop_first(), c);
        let k = first_index(s.drop_first(), c);
        assert forall|j: int| 0 <= j < first_index(s, c) implies s[j] != c by {
            if j > 0 {
                assert(s.drop_first()[j - 1] == s[j]);
            }
        }
        if k < s.drop_first().len() {
            assert(s.drop_first()[k] == s[k + 1]);
        }
    }
}

/// A position with no `c` before it that holds a `c`, or the length, is the first index.
pub proof fn lemma_first_index_at(s: Seq<char>, c: char, i: int)
    requires
        0 <= i <= s.len(),
        forall|j: int| 0 <= j < i ==> s[j] != c,
        i < s.len() ==> s[i] == c,
    ensures
        first_index(s, c) == i,
{
    lemma_first_index(s, c);
    let k = first_index(s, c);
    if k < i {
        assert(s[k] != c);
    } else if i < k {
        assert(s[i] != c);
    }
}

/// Position of the first `c`, the length when there is none.
pub fn find_char(v: &Vec<char>, c: char) -> (i: usize)
    ensures
        i as int == first_index(v@, c),
        i <= v@.len(),
{
    let mut i: usize = 0;
    while i < v.len() && v[i] != c
        invariant
            i <= v@.len(),
            forall|j: int| 0 <= j < i ==> v@[j] != c,
        decreases v@.len() - i,
    {
        i = i + 1;
    }
    proof {
        lemma_first_index_at(v@, c, i as int);
    }
    i
}

/// The texts before and after the first `c`, if there is one.
pub open spec fn split_first(s: Seq<char>, c: char) -> Option<(Seq<char>, Seq<char>)> {
    let i = first_index(s, c);
    if i < s.len() {
        Some((s.take(i), s.skip(i + 1)))
    } else {
        None
    }
}

/// Splits `s` at its first `c`.
pub fn split_once(s: &str, c: char) -> (r: Option<(String, String)>)
    ensures
        r is Some <==> split_first(s@, c) is Some,
        r matches Some(p) ==> (p.0@, p.1@) == split_first(s@, c)->0,
{
    let v = chars(s);
    let i = find_char(&v, c);
    if i < v.len() {
        let a = substring(&v, 0, i);
        let b = substring(&v, i + 1, v.len());
        assert(a@ =~= s@.take(i as int));
        assert(b@ =~= s@.skip(i + 1));
        Some((a, b))
    } else {
        None
    }
}

/// Whether `pat` stands in `s` at position `i`.
pub open spec fn occurs_at(s: Seq<char>, pat: Seq<char>, i: int) -> bool {
    0 <= i && i + pat.len() <= s.len() && s.subrange(i, i + pat.len()) == pat
}

/// The first position from `from` on at which `pat` stands in `s`.
pub open spec fn find_from(s: Seq<char>, pat: Seq<char>, from: int) -> Option<int>
    decreases s.len() + 1 - from,
{
    if from + pat.len() > s.len() || from < 0 {
        None
    } else if occurs_at(s, pat, from) {
        Some(from)
    } else {
        find_from(s, pat, from + 1)
    }
}

/// Where `find_from` finds `pat`, it stands, and it stands nowhere before.
pub proof fn lemma_find_from(s: Seq<char>, pat: Seq<char>, from: int)
    requires
        0 <= from,
    ensures
        find_from(s, pat, from) matches Some(i) ==> from <= i && occurs_at(s, pat, i) && forall|j: int|
            from <= j < i ==> !occurs_at(s, pat, j),
        find_from(s, pat, from) is None ==> forall|j: int| from <= j ==> !occurs_at(s, pat, j),
    decreases s.len() + 1 - from,
{
    if from + pat.len() <= s.len() && !occurs_at(s, pat, from) {
        lemma_find_from(s, pat, from + 1);
    }
}

fn stands_at(v: &Vec<char>, pat: &Vec<char>, i: usize) -> (r: bool)
    ensures
        r == occurs_at(v@, pat@, i as int),
{
    let n: usize = v.len();
    if pat.len() > n || i > n - pat.len() {
        return false;
    }
    for j in 0..pat.len()
        invariant
            i + pat@.len() <= n,
            n == v@.len(),
            forall|k: int| 0 <= k < j ==> v@[i + k] == pat@[k],
    {
        if v[i + j] != pat[j] {
            assert(v@.subrange(i as int, i + pat@.len())[j as int] != pat@[j as int]);
            return false;
        }
    }
    assert(v@.subrange(i as int, i + pat@.len()) =~= pat@);
    true
}

/// The first position from `from` on at which `pat` stands in `v`.
pub fn find(v: &Vec<char>, pat: &Vec<char>, from: usize) -> (r: Option<usize>)
    ensures
        match r {
            Some(i) => find_from(v@, pat@, from as int) == Some(i as int),
            None => find_from(v@, pat@, from as int) is None,
        },
{
    let mut i: usize = from;
    while pat.len() <= v.len() && i <= v.len() - pat.len()
        invariant
            find_from(v@, pat@, from as int) == find_from(v@, pat@, i as int),
        decreases v@.len() - i,
    {
        if stands_at(v, pat, i) {
            return Some(i);
        }
        if i == v.len() - pat.len() {
            assert(find_from(v@, pat@, i + 1) is None);
            return None;
        }
        i = i + 1;
    }
    None
}

/// Whether `pat` stands somewhere in `s`.
pub open spec fn contains_text(s: Seq<char>, pat: Seq<char>) -> bool {
    find_from(s, pat, 0) is Some
}

/// Whether `pat` stands somewhere in `s`.
pub fn contains(s: &str, pat: &str) -> (r: bool)
    ensures
        r == contains_text(s@, pat@),
{
    match find(&chars(s), &chars(pat), 0) {
        Some(_) => true,
        None => false,
    }
}

/// Whether `s` begins with `pat`.
pub fn starts_with(s: &str, pat: &str) -> (r: bool)
    ensures
        r == pat@.is_prefix_of(s@),
{
    let v = chars(s);
    let p = chars(pat);
    let r = stands_at(&v, &p, 0);
    assert(r == pat@.is_prefix_of(s@)) by {
        if p@.len() <= v@.len() {
            assert(v@.subrange(0, p@.len() as int) =~= v@.take(p@.len() as int));
            if pat@.is_prefix_of(s@) {
                assert(v@.take(p@.len() as int) =~= p@);
            }
        }
    }
    r
}

/// The first `n` characters of `s`.
pub open spec fn clipped(s: Seq<char>, n: nat) -> Seq<char> {
    if s.len() <= n {
        s
    } else {
        s.take(n as int)
    }
}

/// The first `n` characters of `s`.
pub fn clip(s: &str, n: usize) -> (r: String)
    ensures
        r@ == clipped(s@, n as nat),
{
    let v = chars(s);
    if v.len() <= n {
        s.to_owned()
    } else {
        let r = substring(&v, 0, n);
        assert(r@ =~= s@.take(n as int));
        r
    }
}

/// ASCII lower case of a character; every other character is kept.
pub open spec fn ascii_lower(c: char) -> char {
    if 'A' <= c <= 'Z' {
        (c as u32 + 32) as char
    } else {
        c
    }
}

/// ASCII lower case of one character.
pub fn lower_char(c: char) -> (r: char)
    ensures
        r == ascii_lower(c),
{
    if 'A' <= c && c <= 'Z' {
        ((c as u8) + 32) as char
    } else {
        c
    }
}

/// ASCII lower case of every character.
pub fn lower(v: &Vec<char>) -> (r: Vec<char>)
    ensures
        r@ == v@.map_values(|c: char| ascii_lower(c)),
{
    let mut out: Vec<char> = Vec::new();
    for i in 0..v.len()
        invariant
            out@ == v@.take(i as int).map_values(|c: char| ascii_lower(c)),
    {
        out.push(lower_char(v[i]));
        assert(out@ =~= v@.take(i + 1).map_values(|c: char| ascii_lower(c)));
    }
    assert(v@.take(v@.len() as int) =~= v@);
    out
}

// ---------------------------------------------------------------------------
// Splitting what was joined

/// No character of `s` belongs to the class.
pub open spec fn free_of(s: Seq<char>, white: bool, set: Seq<char>) -> bool {
    forall|i: int| 0 <= i < s.len() ==> !in_class(#[trigger] s[i], white, set)
}

/// Splitting `a`, a separator and a `b` without separators splits `a` and adds `b`.
pub proof fn lemma_split_append(
    a: Seq<char>,
    sep: char,
    b: Seq<char>,
    white: bool,
    set: Seq<char>,
)
    requires
        in_class(sep, white, set),
        free_of(b, white, set),
    ensures
        split_parts(a + seq![sep] + b, white, set) == split_parts(a, white, set).push(b),
    decreases b.len(),
{
    let s = a + seq![sep] + b;
    if b.len() == 0 {
        assert(s.drop_last() =~= a);
        assert(s.last() == sep);
        assert(b =~= Seq::<char>::empty());
    } else {
        let c = b.last();
        assert(b[b.len() - 1] == c);
        assert(s.drop_last() =~= a + seq![sep] + b.drop_last());
        assert(s.last() == c);
        assert forall|i: int| 0 <= i < b.drop_last().len() implies !in_class(
            #[trigger] b.drop_last()[i],
            white,
            set,
        ) by {
            assert(b.drop_last()[i] == b[i]);
        }
        lemma_split_append(a, sep, b.drop_last(), white, set);
        let head = split_parts(a, white, set).push(b.drop_last());
        assert(head.drop_last() =~= split_parts(a, white, set));
        assert(head.last().push(c) =~= b);
    }
}

/// A text without separators is one part.
pub proof fn lemma_split_free(s: Seq<char>, white: bool, set: Seq<char>)
    requires
        free_of(s, white, set),
    ensures
        split_parts(s, white, set) == seq![s],
    decreases s.len(),
{
    if s.len() == 0 {
        assert(s =~= Seq::<char>::empty());
    } else {
        let d = s.drop_last();
        assert forall|i: int| 0 <= i < d.len() implies !in_class(#[trigger] d[i], white, set) by {
            assert(d[i] == s[i]);
        }
        assert(s[s.len() - 1] == s.last());
        lemma_split_free(d, white, set);
        assert(seq![d].drop_last() =~= Seq::<Seq<char>>::empty());
        assert(d.push(s.last()) =~= s);
        assert(Seq::<Seq<char>>::empty().push(s) =~= seq![s]);
    }
}

/// Splitting undoes joining with one separator, if no part holds a separator.
pub proof fn split_undoes_join(parts: Seq<Seq<char>>, sep: char, white: bool, set: Seq<char>)
    requires
        parts.len() > 0,
        in_class(sep, white, set),
        forall|i: int| 0 <= i < parts.len() ==> free_of(#[trigger] parts[i], white, set),
    ensures
        split_parts(joined(parts, seq![sep]), white, set) == parts,
    decreases parts.len(),
{
    assert(free_of(parts[parts.len() - 1], white, set));
    if parts.len() == 1 {
        lemma_split_free(parts[0], white, set);
        assert(seq![parts[0]] =~= parts);
    } else {
        let d = parts.drop_last();
        assert forall|i: int| 0 <= i < d.len() implies free_of(#[trigger] d[i], white, set) by {
            assert(d[i] == parts[i]);
        }
        split_undoes_join(d, sep, white, set);
        lemma_split_append(joined(d, seq![sep]), sep, parts.last(), white, set);
        assert(d.push(parts.last()) =~= parts);
    }
}

/// A text without white space at its ends, and with something in it.
pub open spec fn is_item(s: Seq<char>) -> bool {
    s.len() > 0 && !white_space(s[0]) && !white_space(s.last())
}

/// Trimming leaves an item as it is.
pub proof fn lemma_item_trimmed(s: Seq<char>)
    requires
        is_item(s),
    ensures
        trimmed(s) == s,
{
}

/// Trimming takes a space before an item away.
pub proof fn lemma_spaced_item_trimmed(s: Seq<char>)
    requires
        is_item(s),
    ensures
        trimmed(seq![' '] + s) == s,
{
    let t = seq![' '] + s;
    let none = Seq::<char>::empty();
    assert(t.drop_first() =~= s);
    assert(in_class(t[0], true, none));
    assert(without_prefix(t, true, none) == without_prefix(s, true, none));
    assert(without_prefix(s, true, none) == s);
}

/// Items stay items when trimmed and sifted.
pub proof fn lemma_items_kept(parts: Seq<Seq<char>>)
    requires
        forall|i: int| 0 <= i < parts.len() ==> is_item(#[trigger] parts[i]),
    ensures
        trimmed_nonempty(parts) == parts,
    decreases parts.len(),
{
    if parts.len() > 0 {
        let d = parts.drop_last();
        assert forall|i: int| 0 <= i < d.len() implies is_item(#[trigger] d[i]) by {
            assert(d[i] == parts[i]);
        }
        lemma_items_kept(d);
        assert(is_item(parts[parts.len() - 1]));
        lemma_item_trimmed(parts.last());
        assert(d.push(parts.last()) =~= parts);
    } else {
        assert(parts =~= Seq::<Seq<char>>::empty());
    }
}

/// Words joined by single spaces are split into the same words again.
pub proof fn words_undo_join(words: Seq<Seq<char>>)
    requires
        words.len() > 0,
        forall|i: int|
            0 <= i < words.len() ==> (#[trigger] words[i]).len() > 0 && free_of(
                words[i],
                true,
                Seq::empty(),
            ),
    ensures
        words_of(joined(words, seq![' '])) == words,
{
    assert forall|i: int| 0 <= i < words.len() implies free_of(
        #[trigger] words[i],
        true,
        Seq::empty(),
    ) by {}
    split_undoes_join(words, ' ', true, Seq::empty());
    assert forall|i: int| 0 <= i < words.len() implies is_item(#[trigger] words[i]) by {
        let w = words[i];
        assert(!in_class(w[0], true, Seq::empty()));
        assert(!in_class(w[w.len() - 1], true, Seq::empty()));
    }
    lemma_items_kept(words);
}

/// No part holds a character of the class.
pub proof fn lemma_parts_free(s: Seq<char>, white: bool, set: Seq<char>)
    ensures
        forall|i: int|
            0 <= i < split_parts(s, white, set).len() ==> free_of(
                #[trigger] split_parts(s, white, set)[i],
                white,
                set,
            ),
    decreases s.len(),
{
    if s.len() > 0 {
        let head = split_parts(s.drop_last(), white, set);
        lemma_parts_free(s.drop_last(), white, set);
        lemma_split_nonempty(s.drop_last(), white, set);
        assert(free_of(head[head.len() - 1], white, set));
    }
}

/// Words hold no white space, and something.
pub proof fn lemma_words_free(parts: Seq<Seq<char>>)
    requires
        forall|i: int|
            0 <= i < parts.len() ==> free_of(#[trigger] parts[i], true, Seq::empty()),
    ensures
        trimmed_nonempty(parts).len() <= parts.len(),
        forall|i: int|
            0 <= i < trimmed_nonempty(parts).len() ==> (#[trigger] trimmed_nonempty(parts)[i]).len()
                > 0 && free_of(trimmed_nonempty(parts)[i], true, Seq::empty()),
    decreases parts.len(),
{
    if parts.len() > 0 {
        let d = parts.drop_last();
        assert forall|i: int| 0 <= i < d.len() implies free_of(
            #[trigger] d[i],
            true,
            Seq::empty(),
        ) by {
            assert(d[i] == parts[i]);
        }
        lemma_words_free(d);
        let p = parts.last();
        assert(free_of(parts[parts.len() - 1], true, Seq::empty()));
        if p.len() > 0 {
            assert(!in_class(p[0], true, Seq::empty()));
            assert(!in_class(p[p.len() - 1], true, Seq::empty()));
            lemma_item_trimmed(p);
        } else {
            assert(p =~= Seq::<char>::empty());
        }
    }
}

/// The beginning of a text has no more words than the text has parts.
pub proof fn lemma_prefix_words(s: Seq<char>, n: int)
    requires
        0 <= n <= s.len(),
    ensures
        words_of(s.take(n)).len() <= split_parts(s, true, Seq::empty()).len(),
    decreases s.len() - n,
{
    let none = Seq::<char>::empty();
    if n == s.len() {
        assert(s.take(n) =~= s);
        lemma_parts_free(s, true, none);
        lemma_words_free(split_parts(s, true, none));
    } else {
        lemma_prefix_words(s.drop_last(), n);
        assert(s.drop_last().take(n) =~= s.take(n));
        lemma_split_nonempty(s.drop_last(), true, none);
    }
}

/// The parts after the first with a space before them.
pub open spec fn spaced(parts: Seq<Seq<char>>) -> Seq<Seq<char>> {
    Seq::new(parts.len(), |i: int| if i == 0 { parts[0] } else { seq![' '] + parts[i] })
}

proof fn lemma_join_spaced(parts: Seq<Seq<char>>, c: char)
    ensures
        joined(parts, seq![c, ' ']) == joined(spaced(parts), seq![c]),
    decreases parts.len(),
{
    if parts.len() > 1 {
        let d = parts.drop_last();
        lemma_join_spaced(d, c);
        assert(spaced(parts).drop_last() =~= spaced(d));
        assert(joined(parts, seq![c, ' ']) =~= joined(spaced(d), seq![c]) + seq![c] + (seq![' ']
            + parts.last()));
    }
}

proof fn lemma_sift_spaced(parts: Seq<Seq<char>>)
    requires
        forall|i: int| 0 <= i < parts.len() ==> is_item(#[trigger] parts[i]),
    ensures
        trimmed_nonempty(spaced(parts)) == parts,
    decreases parts.len(),
{
    if parts.len() > 0 {
        let d = parts.drop_last();
        assert forall|i: int| 0 <= i < d.len() implies is_item(#[trigger] d[i]) by {
            assert(d[i] == parts[i]);
        }
        lemma_sift_spaced(d);
        assert(spaced(parts).drop_last() =~= spaced(d));
        assert(is_item(parts[parts.len() - 1]));
        lemma_item_trimmed(parts.last());
        lemma_spaced_item_trimmed(parts.last());
        assert(d.push(parts.last()) =~= parts);
    } else {
        assert(parts =~= Seq::<Seq<char>>::empty());
        assert(spaced(parts) =~= Seq::<Seq<char>>::empty());
    }
}

/// A list shown with a comma and a space between its items is read back as the
/// same list: submitting it unchanged changes nothing.
pub proof fn list_reads_back(items: Seq<Seq<char>>)
    requires
        forall|i: int|
            0 <= i < items.len() ==> is_item(#[trigger] items[i]) && free_of(
                items[i],
                false,
                ","@,
            ),
    ensures
        items_of(joined(items, ", "@), ","@) == items,
{
    reveal_strlit(",");
    reveal_strlit(", ");
    assert(","@ =~= seq![',']);
    assert(", "@ =~= seq![',', ' ']);
    assert(","@[0] == ',');
    if items.len() == 0 {
        assert(items =~= Seq::<Seq<char>>::empty());
        let none = Seq::<char>::empty();
        assert(split_parts(none, false, ","@) == seq![none]);
        assert(seq![none].drop_last() =~= Seq::<Seq<char>>::empty());
        assert(trimmed(none) =~= none);
        assert(trimmed_nonempty(seq![none].drop_last()) =~= Seq::<Seq<char>>::empty());
    } else {
        lemma_join_spaced(items, ',');
        let sp = spaced(items);
        assert forall|i: int| 0 <= i < sp.len() implies free_of(#[trigger] sp[i], false, ","@) by {
            assert(free_of(items[i], false, ","@));
            assert forall|k: int| 0 <= k < sp[i].len() implies !in_class(
                #[trigger] sp[i][k],
                false,
                ","@,
            ) by {
                if i > 0 && k == 0 {
                    assert(sp[i][0] == ' ');
                } else if i > 0 {
                    assert(sp[i][k] == items[i][k - 1]);
                }
            }
        }
        split_undoes_join(sp, ',', false, ","@);
        lemma_sift_spaced(items);
    }
}

// ---------------------------------------------------------------------------
// Order

/// Character by character order; a text comes before its continuations.
pub open spec fn text_le(a: Seq<char>, b: Seq<char>) -> bool
    decreases a.len(),
{
    if a.len() == 0 {
        true
    } else if b.len() == 0 {
        false
    } else if a[0] != b[0] {
        a[0] < b[0]
    } else {
        text_le(a.drop_first(), b.drop_first())
    }
}

/// Any two texts are ordered.
pub proof fn lemma_text_le_total(a: Seq<char>, b: Seq<char>)
    ensures
        text_le(a, b) || text_le(b, a),
    decreases a.len(),
{
    if a.len() > 0 && b.len() > 0 && a[0] == b[0] {
        lemma_text_le_total(a.drop_first(), b.drop_first());
    }
}

/// The order is transitive.
pub proof fn lemma_text_le_transitive(a: Seq<char>, b: Seq<char>, c: Seq<char>)
    requires
        text_le(a, b),
        text_le(b, c),
    ensures
        text_le(a, c),
    decreases a.len(),
{
    if a.len() > 0 && b.len() > 0 && c.len() > 0 && a[0] == b[0] && b[0] == c[0] {
        lemma_text_le_transitive(a.drop_first(), b.drop_first(), c.drop_first());
    }
}

/// Texts that come before each other are equal.
pub proof fn lemma_text_le_antisymmetric(a: Seq<char>, b: Seq<char>)
    requires
        text_le(a, b),
        text_le(b, a),
    ensures
        a == b,
    decreases a.len(),
{
    if a.len() > 0 && b.len() > 0 {
        lemma_text_le_antisymmetric(a.drop_first(), b.drop_first());
        assert(a =~= seq![a[0]] + a.drop_first());
        assert(b =~= seq![b[0]] + b.drop_first());
    } else {
        assert(a =~= b);
    }
}

/// Whether `a` comes before `b` or is the same text.
pub fn before_or_same(a: &str, b: &str) -> (r: bool)
    ensures
        r == text_le(a@, b@),
{
    let x = chars(a);
    let y = chars(b);
    let mut i: usize = 0;
    assert(x@.skip(0) =~= x@);
    assert(y@.skip(0) =~= y@);
    while i < x.len() && i < y.len() && x[i] == y[i]
        invariant
            i <= x@.len(),
            i <= y@.len(),
            text_le(x@, y@) == text_le(x@.skip(i as int), y@.skip(i as int)),
        decreases x@.len() - i,
    {
        assert(x@.skip(i as int).drop_first() =~= x@.skip(i + 1));
        assert(y@.skip(i as int).drop_first() =~= y@.skip(i + 1));
        i = i + 1;
    }
    if i >= x.len() {
        true
    } else if i >= y.len() {
        false
    } else {
        x[i] < y[i]
    }
}

/// A list of texts in order.
pub open spec fn in_order(v: Seq<Seq<char>>) -> bool {
    forall|i: int, j: int| 0 <= i <= j < v.len() ==> text_le(#[trigger] v[i], #[trigger] v[j])
}

/// Two lists hold the same strings, each as often.
pub open spec fn same_members(a: Seq<String>, b: Seq<String>) -> bool {
    a.to_multiset() == b.to_multiset()
}

/// Sorts strings.
pub fn sort(v: Vec<String>) -> (r: Vec<String>)
    ensures
        in_order(texts(r@)),
        same_members(r@, v@),
        r@.len() == v@.len(),
{
    let mut out: Vec<String> = Vec::new();
    let n: usize = v.len();
    assert(v@.take(0) =~= out@);
    for i in 0..n
        invariant
            n == v@.len(),
            in_order(texts(out@)),
            same_members(out@, v@.take(i as int)),
            out@.len() == i,
    {
        let item = v[i].clone();
        let mut k: usize = out.len();
        proof {
            lemma_text_le_total(item@, item@);
        }
        while k > 0 && !before_or_same(&out[k - 1], &item)
            invariant
                k <= out@.len(),
                forall|j: int| k <= j < out@.len() ==> text_le(item@, #[trigger] out@[j]@),
            decreases k,
        {
            proof {
                lemma_text_le_total(item@, out@[k - 1]@);
            }
            k = k - 1;
        }
        let ghost before = out@;
        proof {
            if k > 0 {
                assert forall|j: int| 0 <= j < k implies text_le(#[trigger] out@[j]@, item@) by {
                    assert(texts(out@)[j] == out@[j]@ && texts(out@)[k - 1] == out@[k - 1]@);
                    lemma_text_le_transitive(out@[j]@, out@[k - 1]@, item@);
                }
            }
        }
        out.insert(k, item);
        proof {
            assert(out@ == before.insert(k as int, item));
            assert forall|a: int, b: int| 0 <= a <= b < texts(out@).len() implies text_le(
                #[trigger] texts(out@)[a],
                #[trigger] texts(out@)[b],
            ) by {
                let x = if a < k { a } else { a - 1 };
                let y = if b < k { b } else { b - 1 };
                if a != k && b != k {
                    assert(texts(before)[x] == out@[a]@ && texts(before)[y] == out@[b]@);
                } else if a == k && b == k {
                } else if a == k {
                    assert(out@[b] == before[y]);
                } else {
                    assert(out@[a] == before[x]);
                }
            }
            assert(v@.take(i + 1) =~= v@.take(i as int).push(item));
            v@.take(i as int).to_multiset_ensures();
            out@.to_multiset_ensures();
            assert(out@.remove(k as int) =~= before);
            assert(out@[k as int] == item);
            assert(out@.to_multiset() =~= before.to_multiset().insert(item));
        }
    }
    assert(v@.take(n as int) =~= v@);
    out
}

/// A text has bytes if and only if it has characters.
pub proof fn lemma_bytes(s: Seq<char>)
    ensures
        utf8_len(s) == 0 <==> s.len() == 0,
{
    if s.len() > 0 {
        vstd::utf8::encode_utf8_first_scalar(s);
    }
}

proof fn lemma_without_prefix(s: Seq<char>, white: bool, set: Seq<char>)
    ensures
        ({
            let t = without_prefix(s, white, set);
            let n = s.len() - t.len();
            &&& 0 <= n
            &&& t == s.skip(n)
            &&& t.len() > 0 ==> !in_class(t[0], white, set)
            &&& forall|i: int| 0 <= i < n ==> in_class(#[trigger] s[i], white, set)
        }),
    decreases s.len(),
{
    if s.len() > 0 && in_class(s[0], white, set) {
        let d = s.drop_first();
        lemma_without_prefix(d, white, set);
        let t = without_prefix(s, white, set);
        let n = s.len() - t.len();
        assert(d.skip(n - 1) =~= s.skip(n));
        assert forall|i: int| 0 <= i < n implies in_class(#[trigger] s[i], white, set) by {
            if i > 0 {
                assert(d[i - 1] == s[i]);
            }
        }
    } else {
        assert(s.skip(0) =~= s);
    }
}

proof fn lemma_without_suffix(s: Seq<char>, white: bool, set: Seq<char>)
    ensures
        ({
            let t = without_suffix(s, white, set);
            &&& t.len() <= s.len()
            &&& t == s.take(t.len() as int)
            &&& t.len() > 0 ==> !in_class(t.last(), white, set)
            &&& forall|i: int| t.len() <= i < s.len() ==> in_class(#[trigger] s[i], white, set)
        }),
    decreases s.len(),
{
    if s.len() > 0 && in_class(s.last(), white, set) {
        let d = s.drop_last();
        lemma_without_suffix(d, white, set);
        let t = without_suffix(s, white, set);
        assert(d.take(t.len() as int) =~= s.take(t.len() as int));
        assert forall|i: int| t.len() <= i < s.len() implies in_class(
            #[trigger] s[i],
            white,
            set,
        ) by {
            if i < d.len() {
                assert(d[i] == s[i]);
            }
        }
    } else {
        assert(s.take(s.len() as int) =~= s);
    }
}

/// Trimming takes the white space at both ends away, all of it, and nothing else.
pub proof fn trimming_takes_blanks_only(s: Seq<char>) -> (at: int)
    ensures
        0 <= at <= at + trimmed(s).len() <= s.len(),
        trimmed(s) == s.subrange(at, at + trimmed(s).len()),
        forall|i: int| 0 <= i < at ==> white_space(#[trigger] s[i]),
        forall|i: int| at + trimmed(s).len() <= i < s.len() ==> white_space(#[trigger] s[i]),
        trimmed(s).len() > 0 ==> !white_space(trimmed(s)[0]) && !white_space(trimmed(s).last()),
{
    let none = Seq::<char>::empty();
    lemma_without_prefix(s, true, none);
    let t = without_prefix(s, true, none);
    lemma_without_suffix(t, true, none);
    let u = trimmed(s);
    let at = s.len() - t.len();
    assert(u =~= s.subrange(at, at + u.len()));
    assert forall|i: int| at + u.len() <= i < s.len() implies white_space(#[trigger] s[i]) by {
        assert(t[i - at] == s[i]);
        assert(in_class(t[i - at], true, none));
    }
    assert forall|i: int| 0 <= i < at implies white_space(#[trigger] s[i]) by {
        assert(in_class(s[i], true, none));
    }
    if u.len() > 0 {
        assert(u[0] == t[0]);
        assert(!in_class(t[0], true, none));
        assert(!in_class(u.last(), true, none));
    }
    at
}

/// Nothing that is stripped is left at the beginning of a text, and nothing else is
/// taken away.
pub proof fn stripping_takes_the_prefix_only(s: Seq<char>, set: Seq<char>) -> (n: int)
    ensures
        0 <= n <= s.len(),
        without_prefix(s, false, set) == s.skip(n),
        forall|i: int| 0 <= i < n ==> set.contains(#[trigger] s[i]),
        n < s.len() ==> !set.contains(s[n]),
{
    lemma_without_prefix(s, false, set);
    let t = without_prefix(s, false, set);
    let n = s.len() - t.len();
    if t.len() > 0 {
        assert(t[0] == s[n]);
        assert(!in_class(t[0], false, set));
    }
    assert forall|i: int| 0 <= i < n implies set.contains(#[trigger] s[i]) by {
        assert(in_class(s[i], false, set));
    }
    n
}

/// A list shown with a comma and a space between its items is read back as the same
/// list, whatever else separates items, as long as no item holds it and a space does not.
pub proof fn list_reads_back_among(items: Seq<Seq<char>>, set: Seq<char>)
    requires
        set.contains(','),
        !set.contains(' '),
        forall|i: int|
            0 <= i < items.len() ==> is_item(#[trigger] items[i]) && free_of(items[i], false, set),
    ensures
        items_of(joined(items, ", "@), set) == items,
{
    reveal_strlit(", ");
    assert(", "@ =~= seq![',', ' ']);
    if items.len() == 0 {
        assert(items =~= Seq::<Seq<char>>::empty());
        let none = Seq::<char>::empty();
        assert(split_parts(none, false, set) == seq![none]);
        assert(seq![none].drop_last() =~= Seq::<Seq<char>>::empty());
        assert(trimmed(none) =~= none);
        assert(trimmed_nonempty(seq![none].drop_last()) =~= Seq::<Seq<char>>::empty());
    } else {
        lemma_join_spaced(items, ',');
        let sp = spaced(items);
        assert forall|i: int| 0 <= i < sp.len() implies free_of(#[trigger] sp[i], false, set) by {
            assert(free_of(items[i], false, set));
            assert forall|k: int| 0 <= k < sp[i].len() implies !in_class(
                #[trigger] sp[i][k],
                false,
                set,
            ) by {
                if i > 0 && k == 0 {
                    assert(sp[i][0] == ' ');
                } else if i > 0 {
                    assert(sp[i][k] == items[i][k - 1]);
                }
            }
        }
        split_undoes_join(sp, ',', false, set);
        lemma_sift_spaced(items);
    }
}

/// A text is parted at the first occurrence of a character; without one it is whole.
pub proof fn a_text_is_parted_at_the_first(a: Seq<char>, c: char, b: Seq<char>)
    requires
        !a.contains(c),
    ensures
        split_first(a + seq![c] + b, c) == Some((a, b)),
        split_first(a, c) is None,
{
    let s = a + seq![c] + b;
    let n = a.len() as int;
    assert forall|j: int| 0 <= j < n implies s[j] != c by {
        assert(s[j] == a[j]);
        assert(a.contains(a[j]));
    }
    assert(s[n] == c);
    lemma_first_index_at(s, c, n);
    assert forall|j: int| 0 <= j < n implies a[j] != c by {
        assert(a.contains(a[j]));
    }
    lemma_first_index_at(a, c, n);
    assert(s.take(n) =~= a);
    assert(s.skip(n + 1) =~= b);
}

} // verus!
