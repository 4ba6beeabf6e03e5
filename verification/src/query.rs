//! Values in the query of an address.
use crate::text::{chars, same, split, split_first, split_once, split_parts, texts};
use vstd::prelude::*;
use vstd::utf8::{decode_utf8, encode_utf8, is_ascii_chars, is_ascii_chars_encode_utf8, valid_utf8};

verus! {

// ---------------------------------------------------------------------------
// Writing

/// A byte that stands for itself in a query.
pub open spec fn unreserved(b: u8) -> bool {
    b == 42 || b == 45 || b == 46 || b == 95 || 48 <= b <= 57 || 65 <= b <= 90 || 97 <= b <= 122
}

/// The upper case hexadecimal digit for a number below sixteen.
pub open spec fn hex_digit(d: int) -> char {
    if d < 10 {
        (d + 48) as char
    } else {
        (d + 55) as char
    }
}

/// A byte in a query: itself, a plus for a space, else a percent sign and two
/// digits.
pub open spec fn form_byte(b: u8) -> Seq<char> {
    if unreserved(b) {
        seq![b as char]
    } else if b == 32 {
        seq!['+']
    } else {
        seq!['%', hex_digit(b as int / 16), hex_digit(b as int % 16)]
    }
}

/// Bytes in a query.
pub open spec fn form_bytes(bytes: Seq<u8>) -> Seq<char>
    decreases bytes.len(),
{
    if bytes.len() == 0 {
        Seq::empty()
    } else {
        form_byte(bytes[0]) + form_bytes(bytes.drop_first())
    }
}

/// A text in a query.
pub open spec fn form_text(s: Seq<char>) -> Seq<char> {
    form_bytes(encode_utf8(s))
}

/// `serde_urlencoded::to_string` of one pair of texts: the two, each written as
/// the bytes of its UTF-8 form, with `=` between them. Texts can always be
/// written.
#[verifier::external_body]
fn write_pair(key: &str, value: &str) -> (r: Option<String>)
    ensures
        r is Some,
        r->0@ == form_text(key@) + "="@ + form_text(value@),
{
    serde_urlencoded::to_string([(key, value)]).ok()
}

/// Writes one value of a query.
pub fn query_of(key: &str, value: &str) -> (r: String)
    ensures
        r@ == form_text(key@) + "="@ + form_text(value@),
{
    match write_pair(key, value) {
        Some(q) => q,
        None => String::new(),
    }
}

// ---------------------------------------------------------------------------
// Reading

/// The number that a hexadecimal digit stands for.
pub open spec fn hex_of(b: u8) -> Option<u8> {
    if 48 <= b <= 57 {
        Some((b - 48) as u8)
    } else if 97 <= b <= 102 {
        Some((b - 87) as u8)
    } else if 65 <= b <= 70 {
        Some((b - 55) as u8)
    } else {
        None
    }
}

/// Reads a hexadecimal digit.
pub fn hex_val(b: u8) -> (r: Option<u8>)
    ensures
        r == hex_of(b),
{
    if 48 <= b && b <= 57 {
        Some(b - 48)
    } else if 97 <= b && b <= 102 {
        Some(b - 87)
    } else if 65 <= b && b <= 70 {
        Some(b - 55)
    } else {
        None
    }
}

/// Whether bytes begin with a percent sign and two digits.
pub open spec fn begins_coded(b: Seq<u8>) -> bool {
    b.len() > 2 && b[0] == 37 && hex_of(b[1]) is Some && hex_of(b[2]) is Some
}

/// Bytes with every percent sign and its two digits replaced by the byte that
/// they stand for. A percent sign without two digits stays.
pub open spec fn decoded(b: Seq<u8>) -> Seq<u8>
    decreases b.len(),
{
    if b.len() == 0 {
        Seq::empty()
    } else if begins_coded(b) {
        seq![(hex_of(b[1])->0 * 16 + hex_of(b[2])->0) as u8] + decoded(b.skip(3))
    } else {
        seq![b[0]] + decoded(b.skip(1))
    }
}

/// A text with spaces for its pluses.
pub open spec fn spaced(s: Seq<char>) -> Seq<char> {
    s.map_values(
        |c: char|
            if c == '+' {
                ' '
            } else {
                c
            },
    )
}

fn space_out(s: &str) -> (r: String)
    ensures
        r@ == spaced(s@),
{
    let v = chars(s);
    let mut out = String::new();
    for i in 0..v.len()
        invariant
            v@ == s@,
            out@ == spaced(v@.take(i as int)),
    {
        let c = v[i];
        out.push(
            if c == '+' {
                ' '
            } else {
                c
            },
        );
        assert(out@ =~= spaced(v@.take(i + 1)));
    }
    assert(v@.take(v@.len() as int) =~= v@);
    assert(spaced(v@.take(0)) =~= Seq::<char>::empty());
    out
}

/// The bytes that a value of a query stands for.
pub open spec fn value_bytes(s: Seq<char>) -> Seq<u8> {
    decoded(encode_utf8(spaced(s)))
}

/// Reads the bytes that a value of a query stands for.
pub fn percent_bytes(s: &str) -> (r: Vec<u8>)
    ensures
        r@ == value_bytes(s@),
{
    let text = space_out(s);
    let b = text.as_str().as_bytes();
    let mut out: Vec<u8> = Vec::new();
    let mut i: usize = 0;
    let n: usize = b.len();
    let ghost all = b@;
    assert(all.skip(0) =~= all);
    assert(out@ + decoded(all) =~= decoded(all));
    while i < n
        invariant
            i <= n,
            n == b@.len(),
            all == b@,
            decoded(all) == out@ + decoded(all.skip(i as int)),
        decreases n - i,
    {
        let ghost rest = all.skip(i as int);
        let ghost so_far = out@;
        if b[i] == 37 && n - i > 2 {
            if let Some(h) = hex_val(b[i + 1]) {
                if let Some(l) = hex_val(b[i + 2]) {
                    proof {
                        assert(rest[1] == all[i + 1] && rest[2] == all[i + 2]);
                        assert(rest.skip(3) =~= all.skip(i + 3));
                    }
                    let byte: u8 = h * 16 + l;
                    out.push(byte);
                    i = i + 3;
                    assert(so_far + (seq![byte] + decoded(all.skip(i as int))) =~= out@ + decoded(
                        all.skip(i as int),
                    ));
                    continue ;
                }
            }
        }
        proof {
            assert(!begins_coded(rest)) by {
                if rest.len() > 2 {
                    assert(rest[1] == all[i + 1] && rest[2] == all[i + 2]);
                }
            }
            assert(rest.skip(1) =~= all.skip(i + 1));
        }
        out.push(b[i]);
        i = i + 1;
        assert(so_far + (seq![all[i - 1]] + decoded(all.skip(i as int))) =~= out@ + decoded(
            all.skip(i as int),
        ));
    }
    assert(all.skip(n as int) =~= Seq::<u8>::empty());
    assert(out@ + Seq::<u8>::empty() =~= out@);
    out
}

/// What `String::from_utf8_lossy` returns.
pub uninterp spec fn lossy_text(bytes: Seq<u8>) -> Seq<char>;

/// `String::from_utf8_lossy`: the text that the bytes are the UTF-8 form of.
/// Bytes that are none are replaced; how is named and not stated.
#[verifier::external_body]
pub(crate) fn lossy(bytes: &[u8]) -> (r: String)
    ensures
        r@ == lossy_text(bytes@),
        valid_utf8(bytes@) ==> r@ == decode_utf8(bytes@),
{
    String::from_utf8_lossy(bytes).into_owned()
}

/// Reads a value of a query.
pub fn percent_decode(s: &str) -> (r: String)
    ensures
        r@ == lossy_text(value_bytes(s@)),
        valid_utf8(value_bytes(s@)) ==> r@ == decode_utf8(value_bytes(s@)),
{
    let bytes = percent_bytes(s);
    lossy(bytes.as_slice())
}

/// The value of a key in a query as it is written there: the first one counts.
pub open spec fn raw_value(pairs: Seq<Seq<char>>, key: Seq<char>) -> Option<Seq<char>>
    decreases pairs.len(),
{
    if pairs.len() == 0 {
        None
    } else {
        match split_first(pairs[0], '=') {
            Some((k, v)) => if k == key {
                Some(v)
            } else {
                raw_value(pairs.drop_first(), key)
            },
            None => raw_value(pairs.drop_first(), key),
        }
    }
}

/// The value of a key in a query as it is written there.
pub open spec fn written_value(query: Seq<char>, key: Seq<char>) -> Option<Seq<char>> {
    raw_value(split_parts(query, false, "&"@), key)
}

/// Finds the value of a key in a query as it is written there.
pub fn find_value(query: &str, key: &str) -> (r: Option<String>)
    ensures
        match r {
            Some(v) => written_value(query@, key@) == Some(v@),
            None => written_value(query@, key@) is None,
        },
{
    let pairs = split(query, false, "&");
    let ghost view = texts(pairs@);
    assert(view.skip(0) =~= view);
    for i in 0..pairs.len()
        invariant
            view == texts(pairs@),
            view == split_parts(query@, false, "&"@),
            written_value(query@, key@) == raw_value(view.skip(i as int), key@),
    {
        assert(view.skip(i as int)[0] == pairs@[i as int]@);
        assert(view.skip(i as int).drop_first() =~= view.skip(i + 1));
        if let Some((k, v)) = split_once(&pairs[i], '=') {
            if same(&k, key) {
                return Some(v);
            }
        }
    }
    None
}

// ---------------------------------------------------------------------------
// Laws

/// The bytes of what is written for bytes.
spec fn wire(bytes: Seq<u8>) -> Seq<u8>
    decreases bytes.len(),
{
    if bytes.len() == 0 {
        Seq::empty()
    } else {
        as_bytes(spaced(form_byte(bytes[0]))) + wire(bytes.drop_first())
    }
}

spec fn as_bytes(s: Seq<char>) -> Seq<u8> {
    Seq::new(s.len(), |i: int| s[i] as u8)
}

proof fn lemma_hex(d: int)
    requires
        0 <= d < 16,
    ensures
        hex_digit(d) as u32 <= 70,
        hex_digit(d) != '+',
        hex_of(hex_digit(d) as u8) == Some(d as u8),
{
}

proof fn lemma_form_byte(b: u8)
    ensures
        is_ascii_chars(spaced(form_byte(b))),
        form_byte(b).len() > 0,
        ({
            let w = as_bytes(spaced(form_byte(b)));
            if unreserved(b) || b == 32 {
                w == seq![b] && b != 37
            } else {
                w.len() == 3 && w[0] == 37 && hex_of(w[1]) == Some((b as int / 16) as u8) && hex_of(
                    w[2],
                ) == Some((b as int % 16) as u8)
            }
        }),
{
    let f = spaced(form_byte(b));
    let w = as_bytes(f);
    if unreserved(b) {
        assert(form_byte(b)[0] == b as char);
        assert((b as char) as u8 == b);
        assert(b as char != '+');
        assert(w =~= seq![b]);
    } else if b == 32 {
        assert(w =~= seq![32u8]);
    } else {
        lemma_hex(b as int / 16);
        lemma_hex(b as int % 16);
        assert(f[0] == '%');
        assert(f[1] == hex_digit(b as int / 16));
        assert(f[2] == hex_digit(b as int % 16));
    }
}

proof fn lemma_written(bytes: Seq<u8>)
    ensures
        is_ascii_chars(spaced(form_bytes(bytes))),
        as_bytes(spaced(form_bytes(bytes))) == wire(bytes),
    decreases bytes.len(),
{
    let all = spaced(form_bytes(bytes));
    if bytes.len() > 0 {
        lemma_form_byte(bytes[0]);
        lemma_written(bytes.drop_first());
        let head = spaced(form_byte(bytes[0]));
        let tail = spaced(form_bytes(bytes.drop_first()));
        assert(all =~= head + tail);
        assert(as_bytes(all) =~= as_bytes(head) + as_bytes(tail));
        assert forall|i: int| 0 <= i < all.len() implies (#[trigger] all[i]) as u32 <= 127 by {
            if i < head.len() {
                assert(all[i] == head[i]);
            } else {
                assert(all[i] == tail[i - head.len()]);
            }
        }
    } else {
        assert(as_bytes(all) =~= wire(bytes));
    }
}

proof fn lemma_decoded(bytes: Seq<u8>)
    ensures
        decoded(wire(bytes)) == bytes,
    decreases bytes.len(),
{
    if bytes.len() > 0 {
        let b = bytes[0];
        lemma_form_byte(b);
        lemma_decoded(bytes.drop_first());
        let w = as_bytes(spaced(form_byte(b)));
        let rest = wire(bytes.drop_first());
        let all = wire(bytes);
        assert(all == w + rest);
        if unreserved(b) || b == 32 {
            assert(all[0] == b);
            assert(all.skip(1) =~= rest);
        } else {
            assert(all[0] == w[0] && all[1] == w[1] && all[2] == w[2]);
            assert(all.skip(3) =~= rest);
            assert((b as int / 16) * 16 + b as int % 16 == b);
        }
        assert(seq![b] + bytes.drop_first() =~= bytes);
    } else {
        assert(decoded(wire(bytes)) =~= bytes);
    }
}

/// What is written into a query is read from it: the bytes that are read for a
/// written text are the bytes of that text.
pub proof fn written_is_read(s: Seq<char>)
    ensures
        value_bytes(form_text(s)) == encode_utf8(s),
        valid_utf8(value_bytes(form_text(s))),
        decode_utf8(value_bytes(form_text(s))) == s,
{
    let bytes = encode_utf8(s);
    lemma_written(bytes);
    lemma_decoded(bytes);
    let text = spaced(form_bytes(bytes));
    is_ascii_chars_encode_utf8(text);
    assert(encode_utf8(text) =~= as_bytes(text));
    vstd::utf8::encode_utf8_valid_utf8(s);
    vstd::utf8::encode_utf8_decode_utf8(s);
}

/// A text without a plus and without a percent sign is read as it stands.
pub proof fn plain_is_read(s: Seq<char>)
    requires
        is_ascii_chars(s),
        forall|i: int| 0 <= i < s.len() ==> (#[trigger] s[i]) != '+' && s[i] != '%',
    ensures
        value_bytes(s) == encode_utf8(s),
        valid_utf8(value_bytes(s)),
        decode_utf8(value_bytes(s)) == s,
{
    assert(spaced(s) =~= s);
    is_ascii_chars_encode_utf8(s);
    let b = encode_utf8(s);
    assert forall|i: int| 0 <= i < b.len() implies #[trigger] b[i] != 37 by {
        assert(b[i] == s[i] as u8);
        assert(s[i] != '%' && '\0' <= s[i] <= '\u{7f}');
    }
    lemma_nothing_coded(b);
    vstd::utf8::encode_utf8_valid_utf8(s);
    vstd::utf8::encode_utf8_decode_utf8(s);
}

proof fn lemma_nothing_coded(b: Seq<u8>)
    requires
        forall|i: int| 0 <= i < b.len() ==> #[trigger] b[i] != 37,
    ensures
        decoded(b) == b,
    decreases b.len(),
{
    if b.len() > 0 {
        let r = b.skip(1);
        assert forall|i: int| 0 <= i < r.len() implies #[trigger] r[i] != 37 by {
            assert(r[i] == b[i + 1]);
        }
        lemma_nothing_coded(r);
        assert(seq![b[0]] + r =~= b);
    }
}

/// A value is that of the first pair with its key, whatever the other pairs say.
pub proof fn a_value_is_that_of_its_key(
    pairs: Seq<Seq<char>>,
    key: Seq<char>,
    value: Seq<char>,
    i: int,
)
    requires
        0 <= i < pairs.len(),
        !key.contains('='),
        pairs[i] == key + "="@ + value,
        forall|j: int| 0 <= j < i ==> !(key + "="@).is_prefix_of(#[trigger] pairs[j]),
    ensures
        raw_value(pairs, key) == Some(value),
    decreases i,
{
    reveal_strlit("=");
    if i == 0 {
        let p = pairs[0];
        assert forall|j: int| 0 <= j < key.len() implies p[j] != '=' by {
            assert(p[j] == key[j]);
            assert(key.contains(key[j]));
        }
        assert(p[key.len() as int] == '=');
        crate::text::lemma_first_index_at(p, '=', key.len() as int);
        assert(p.take(key.len() as int) =~= key);
        assert(p.skip(key.len() as int + 1) =~= value);
    } else {
        let rest = pairs.drop_first();
        assert(!(key + "="@).is_prefix_of(pairs[0]));
        if (split_first(pairs[0], '=') matches Some((k, _)) && k == key) {
            let p = pairs[0];
            crate::text::lemma_first_index(p, '=');
            let k = crate::text::first_index(p, '=');
            assert(p.take(k) == key);
            assert((key + "="@) =~= p.take(k + 1));
            assert((key + "="@).is_prefix_of(p));
        }
        assert forall|j: int| 0 <= j < i - 1 implies !(key + "="@).is_prefix_of(
            #[trigger] rest[j],
        ) by {
            assert(rest[j] == pairs[j + 1]);
        }
        assert(rest[i - 1] == pairs[i]);
        a_value_is_that_of_its_key(rest, key, value, i - 1);
    }
}

/// A hexadecimal digit has its value, whether small or large; nothing else has one.
pub proof fn a_digit_has_its_value(b: u8, v: u8)
    ensures
        hex_of(b) matches Some(n) ==> n < 16,
        v < 10 ==> hex_of((48 + v) as u8) == Some(v),
        10 <= v < 16 ==> hex_of((87 + v) as u8) == Some(v) && hex_of((55 + v) as u8) == Some(v),
        hex_of(b) is Some <==> ('0' as u8 <= b <= '9' as u8) || ('a' as u8 <= b <= 'f' as u8) || (
        'A' as u8 <= b <= 'F' as u8),
{
}

/// A query with one value gives the value back under its key.
pub proof fn a_written_query_is_read(key: &str, value: &str, query: String)
    requires
        call_ensures(query_of, (key, value), query),
    ensures
        query@ == form_text(key@) + "="@ + form_text(value@),
        decode_utf8(value_bytes(query@.skip(form_text(key@).len() as int + 1))) == value@,
{
    reveal_strlit("=");
    assert(query@.skip(form_text(key@).len() as int + 1) =~= form_text(value@));
    written_is_read(value@);
}

} // verus!
