//! Reading submitted forms.
use crate::num::{parse_up_to, unsigned_value, within};
use crate::text::{items_of, same, split_items, texts, trim, trimmed};
use crate::updates::{only_toast, toast, views, FlashKind, Update, UpdateView};
use vstd::prelude::*;

verus! {

// ---------------------------------------------------------------------------
// The body of a form

/// Submitted pairs, over texts.
pub open spec fn pair_texts(pairs: Seq<(String, String)>) -> Seq<(Seq<char>, Seq<char>)> {
    pairs.map_values(|p: (String, String)| (p.0@, p.1@))
}

/// What `serde_urlencoded::from_bytes` returns for a list of pairs: the pairs, or
/// its error in words.
pub uninterp spec fn submitted(body: Seq<u8>) -> Result<
    Seq<(Seq<char>, Seq<char>)>,
    Seq<char>,
>;

/// `serde_urlencoded::from_bytes`, reading a list of pairs: the keys and values of
/// a form, decoded and in the order of the body. The result is named and not
/// stated, as it rests on how form bodies are encoded.
#[verifier::external_body]
fn parse_pairs(body: &[u8]) -> (r: Result<Vec<(String, String)>, String>)
    ensures
        match r {
            Ok(pairs) => submitted(body@) == Ok::<Seq<(Seq<char>, Seq<char>)>, Seq<char>>(
                pair_texts(pairs@),
            ),
            Err(e) => submitted(body@) == Err::<Seq<(Seq<char>, Seq<char>)>, Seq<char>>(e@),
        },
{
    serde_urlencoded::from_bytes(body).map_err(|e| e.to_string())
}

/// What is said of a form that cannot be read.
pub open spec fn malformed_words(error: Seq<char>) -> Seq<UpdateView> {
    seq![toast(FlashKind::Error, "malformed form: "@ + error)]
}

/// Says that a form could not be read.
pub fn malformed(error: &str) -> (r: Vec<Update>)
    ensures
        views(r@) == malformed_words(error@),
{
    let mut message = "malformed form: ".to_owned();
    message.append(error);
    only_toast(FlashKind::Error, &message)
}

/// Says what is wrong with a form whose pairs could not be read.
pub fn explain_form(parsed: Result<Vec<(String, String)>, String>) -> (r: Result<
    Vec<(String, String)>,
    Vec<Update>,
>)
    ensures
        match parsed {
            Ok(pairs) => r == Ok::<Vec<(String, String)>, Vec<Update>>(pairs),
            Err(e) => r is Err && views(r->Err_0@) == malformed_words(e@),
        },
{
    match parsed {
        Ok(pairs) => Ok(pairs),
        Err(e) => Err(malformed(&e)),
    }
}

/// Reads the body of a form into pairs.
pub fn read_form(body: &[u8]) -> (r: Result<Vec<(String, String)>, Vec<Update>>)
    ensures
        match submitted(body@) {
            Ok(pairs) => r is Ok && pair_texts(r->Ok_0@) == pairs,
            Err(e) => r is Err && views(r->Err_0@) == malformed_words(e),
        },
{
    explain_form(parse_pairs(body))
}

// ---------------------------------------------------------------------------
// Fields

/// The values submitted under `key`, in order.
pub open spec fn values_of(pairs: Seq<(String, String)>, key: Seq<char>) -> Seq<Seq<char>>
    decreases pairs.len(),
{
    if pairs.len() == 0 {
        Seq::empty()
    } else {
        let head = values_of(pairs.drop_last(), key);
        if pairs.last().0@ == key {
            head.push(pairs.last().1@)
        } else {
            head
        }
    }
}

/// The first value submitted under `key`, the empty text when there is none.
pub open spec fn field_of(pairs: Seq<(String, String)>, key: Seq<char>) -> Seq<char> {
    let all = values_of(pairs, key);
    if all.len() == 0 {
        Seq::empty()
    } else {
        all[0]
    }
}

/// All values submitted under `key`.
pub fn fields_all(pairs: &Vec<(String, String)>, key: &str) -> (r: Vec<String>)
    ensures
        texts(r@) == values_of(pairs@, key@),
{
    let mut out: Vec<String> = Vec::new();
    assert(texts(out@) =~= values_of(pairs@.take(0), key@));
    for i in 0..pairs.len()
        invariant
            texts(out@) == values_of(pairs@.take(i as int), key@),
    {
        assert(pairs@.take(i + 1).drop_last() =~= pairs@.take(i as int));
        let ghost before = texts(out@);
        if same(&pairs[i].0, key) {
            let v = pairs[i].1.clone();
            out.push(v);
            assert(texts(out@) =~= before.push(v@));
        }
    }
    assert(pairs@.take(pairs@.len() as int) =~= pairs@);
    out
}

/// The first value submitted under `key`, the empty text when there is none.
pub fn field(pairs: &Vec<(String, String)>, key: &str) -> (r: String)
    ensures
        r@ == field_of(pairs@, key@),
{
    let all = fields_all(pairs, key);
    assert(texts(all@).len() == all@.len());
    if all.len() == 0 {
        String::new()
    } else {
        assert(texts(all@)[0] == all@[0]@);
        all[0].clone()
    }
}

/// Whether a pair with that key was submitted.
pub open spec fn has_field(pairs: Seq<(String, String)>, key: Seq<char>) -> bool {
    values_of(pairs, key).len() > 0
}

/// The items of a comma-separated list: trimmed, empties dropped.
pub open spec fn csv_items(s: Seq<char>) -> Seq<Seq<char>> {
    items_of(s, ","@)
}

/// Splits a comma-separated list, trimming the items and dropping the empty ones.
pub fn parse_csv(s: &str) -> (r: Vec<String>)
    ensures
        texts(r@) == csv_items(s@),
{
    split_items(s, ",")
}

/// Whether a checkbox value means "checked".
pub open spec fn is_checked(v: Seq<char>) -> bool {
    trimmed(v) == "on"@ || trimmed(v) == "true"@ || trimmed(v) == "1"@
}

/// Whether a submitted checkbox value means "checked".
pub fn checkbox_on(v: &str) -> (r: bool)
    ensures
        r == is_checked(v@),
{
    let t = trim(v);
    same(&t, "on") || same(&t, "true") || same(&t, "1")
}

/// A number that fits 32 bits, or the default.
pub open spec fn u32_or(s: Seq<char>, default: u32) -> u32 {
    match within(unsigned_value(trimmed(s)), 0, u32::MAX as int) {
        Some(n) => n as u32,
        None => default,
    }
}

/// Parses a number, falling back to `default` when the text is none.
pub fn parse_u32(s: &str, default: u32) -> (r: u32)
    ensures
        r == u32_or(s@, default),
{
    match parse_up_to(&trim(s), 4294967295) {
        Some(n) => n as u32,
        None => default,
    }
}

// ---------------------------------------------------------------------------
// Laws

proof fn lemma_values_of(pairs: Seq<(String, String)>, key: Seq<char>)
    ensures
        forall|v: Seq<char>|
            #[trigger] values_of(pairs, key).contains(v) <==> exists|i: int|
                0 <= i < pairs.len() && (#[trigger] pairs[i]).0@ == key && pairs[i].1@ == v,
        (forall|i: int| 0 <= i < pairs.len() ==> (#[trigger] pairs[i]).0@ != key) ==> values_of(
            pairs,
            key,
        ).len() == 0,
    decreases pairs.len(),
{
    if pairs.len() > 0 {
        let d = pairs.drop_last();
        let head = values_of(d, key);
        let all = values_of(pairs, key);
        lemma_values_of(d, key);
        assert forall|v: Seq<char>| #[trigger] all.contains(v) <==> exists|i: int|
            0 <= i < pairs.len() && (#[trigger] pairs[i]).0@ == key && pairs[i].1@ == v by {
            if all.contains(v) {
                let k = choose|k: int| 0 <= k < all.len() && all[k] == v;
                if k < head.len() {
                    assert(head[k] == v);
                    assert(head.contains(v));
                    let i = choose|i: int|
                        0 <= i < d.len() && (#[trigger] d[i]).0@ == key && d[i].1@ == v;
                    assert(pairs[i] == d[i]);
                } else {
                    assert(pairs[pairs.len() - 1].0@ == key);
                }
            }
            if exists|i: int|
                0 <= i < pairs.len() && (#[trigger] pairs[i]).0@ == key && pairs[i].1@ == v {
                let i = choose|i: int|
                    0 <= i < pairs.len() && (#[trigger] pairs[i]).0@ == key && pairs[i].1@ == v;
                if i < d.len() {
                    assert(d[i] == pairs[i]);
                    assert(head.contains(v));
                    let k = choose|k: int| 0 <= k < head.len() && head[k] == v;
                    assert(all[k] == v);
                } else {
                    assert(all[all.len() - 1] == v);
                }
            }
        }
        if forall|i: int| 0 <= i < pairs.len() ==> (#[trigger] pairs[i]).0@ != key {
            assert forall|i: int| 0 <= i < d.len() implies (#[trigger] d[i]).0@ != key by {
                assert(d[i] == pairs[i]);
            }
            assert(pairs[pairs.len() - 1].0@ != key);
        }
    }
}

/// The values of a field are those that were sent under its name, and no others.
pub proof fn values_are_those_sent(pairs: Seq<(String, String)>, key: Seq<char>, v: Seq<char>)
    ensures
        values_of(pairs, key).contains(v) <==> exists|i: int|
            0 <= i < pairs.len() && (#[trigger] pairs[i]).0@ == key && pairs[i].1@ == v,
{
    lemma_values_of(pairs, key);
}

proof fn lemma_first_value(pairs: Seq<(String, String)>, key: Seq<char>, i: int)
    requires
        0 <= i < pairs.len(),
        pairs[i].0@ == key,
        forall|j: int| 0 <= j < i ==> (#[trigger] pairs[j]).0@ != key,
    ensures
        values_of(pairs, key).len() > 0,
        values_of(pairs, key)[0] == pairs[i].1@,
    decreases pairs.len(),
{
    let d = pairs.drop_last();
    if i < d.len() {
        assert forall|j: int| 0 <= j < i implies (#[trigger] d[j]).0@ != key by {
            assert(d[j] == pairs[j]);
        }
        lemma_first_value(d, key, i);
    } else {
        assert forall|j: int| 0 <= j < d.len() implies (#[trigger] d[j]).0@ != key by {
            assert(d[j] == pairs[j]);
        }
        lemma_values_of(d, key);
    }
}

/// A field has the first value that was sent under its name, and is blank when none was.
pub proof fn a_field_has_its_first_value(pairs: Seq<(String, String)>, key: Seq<char>, i: int)
    ensures
        0 <= i < pairs.len() && pairs[i].0@ == key && (forall|j: int|
            0 <= j < i ==> (#[trigger] pairs[j]).0@ != key) ==> field_of(pairs, key)
            == pairs[i].1@ && has_field(pairs, key),
        (forall|j: int| 0 <= j < pairs.len() ==> (#[trigger] pairs[j]).0@ != key) ==> field_of(
            pairs,
            key,
        ).len() == 0 && !has_field(pairs, key),
{
    lemma_values_of(pairs, key);
    if 0 <= i < pairs.len() && pairs[i].0@ == key && (forall|j: int|
        0 <= j < i ==> (#[trigger] pairs[j]).0@ != key) {
        lemma_first_value(pairs, key, i);
    }
}

/// A box is ticked when `on`, `true` or `1` was sent, be it with blanks around, and not
/// when it was left out.
pub proof fn a_box_is_ticked(v: Seq<char>)
    ensures
        is_checked(v) <==> trimmed(v) == "on"@ || trimmed(v) == "true"@ || trimmed(v) == "1"@,
        is_checked("on"@),
        is_checked("true"@),
        is_checked("1"@),
        !is_checked(Seq::<char>::empty()),
        !is_checked("off"@),
        !is_checked("false"@),
        !is_checked("0"@),
{
    reveal_strlit("on");
    reveal_strlit("true");
    reveal_strlit("1");
    reveal_strlit("off");
    reveal_strlit("false");
    reveal_strlit("0");
    assert("on"@.len() == 2 && "true"@.len() == 4 && "1"@.len() == 1 && "off"@.len() == 3
        && "false"@.len() == 5 && "0"@.len() == 1);
    assert("on"@[0] == 'o' && "on"@[1] == 'n');
    assert("true"@[0] == 't' && "true"@[3] == 'e');
    assert("1"@[0] == '1' && "0"@[0] == '0');
    assert("off"@[0] == 'o' && "off"@[2] == 'f');
    assert("false"@[0] == 'f' && "false"@[4] == 'e');
    assert(trimmed("on"@) == "on"@);
    assert(trimmed("true"@) == "true"@);
    assert(trimmed("1"@) == "1"@);
    assert(trimmed("off"@) == "off"@);
    assert(trimmed("false"@) == "false"@);
    assert(trimmed("0"@) == "0"@);
    assert(trimmed(Seq::<char>::empty()).len() == 0);
}

/// A number field that shows a number is read as that number; what is no number gives
/// the default.
pub proof fn a_number_field_reads_back(n: u32, typed: Seq<char>, default: u32)
    ensures
        u32_or(crate::num::decimal(n as nat), default) == n,
        unsigned_value(trimmed(typed)) is None ==> u32_or(typed, default) == default,
{
    let d = crate::num::decimal(n as nat);
    crate::num::decimal_reads_back(n as nat);
    assert(crate::num::is_digit(d[0]));
    assert(crate::num::is_digit(d[d.len() - 1]));
    assert(trimmed(d) == d);
}

/// What cannot be read as a form is told, in the words of the reader; what can be is
/// handed on as it was read.
pub proof fn a_broken_form_is_told(
    parsed: Result<Vec<(String, String)>, String>,
    r: Result<Vec<(String, String)>, Vec<Update>>,
)
    requires
        call_ensures(explain_form, (parsed,), r),
    ensures
        parsed matches Ok(pairs) ==> r == Ok::<Vec<(String, String)>, Vec<Update>>(pairs),
        parsed matches Err(e) ==> r is Err && views(r->Err_0@) == seq![
            UpdateView::Toast { kind: FlashKind::Error, message: "malformed form: "@ + e@ },
        ],
{
}

/// A form that cannot be read is told with what is wrong with it.
pub proof fn a_malformed_form_is_told(
    body: &[u8],
    r: Result<Vec<(String, String)>, Vec<Update>>,
)
    requires
        call_ensures(read_form, (body,), r),
    ensures
        r is Ok <==> submitted(body@) is Ok,
        r is Ok ==> pair_texts(r->Ok_0@) == submitted(body@)->Ok_0,
        r is Err ==> views(r->Err_0@) == seq![
            toast(FlashKind::Error, "malformed form: "@ + submitted(body@)->Err_0),
        ],
{
}

} // verus!
