//! What a rendered page shows.
//!
//! A page is one long text. That it shows something is said here of a part of
//! that text: an input with its value, an option that is marked, a link.
use crate::text::occurs_at;
use vstd::prelude::*;

verus! {

/// Whether a part stands somewhere in a page.
#[verifier::opaque]
pub open spec fn shows(page: Seq<char>, part: Seq<char>) -> bool {
    exists|i: int| occurs_at(page, part, i)
}

/// Whether a text ends with a part.
#[verifier::opaque]
pub open spec fn ends_in(s: Seq<char>, part: Seq<char>) -> bool {
    part.len() <= s.len() && s.skip(s.len() - part.len()) == part
}

/// Whether a text begins with a part.
#[verifier::opaque]
pub open spec fn starts_as(s: Seq<char>, part: Seq<char>) -> bool {
    part.len() <= s.len() && s.take(part.len() as int) == part
}

/// What stands in the first half of a page stands in the page.
pub broadcast proof fn shows_in_front(a: Seq<char>, b: Seq<char>, part: Seq<char>)
    requires
        shows(a, part),
    ensures
        #[trigger] shows(a + b, part),
{
    reveal(shows);
    let i = choose|i: int| occurs_at(a, part, i);
    assert((a + b).subrange(i, i + part.len()) =~= a.subrange(i, i + part.len()));
    assert(occurs_at(a + b, part, i));
}

/// What stands in the second half of a page stands in the page.
pub broadcast proof fn shows_behind(a: Seq<char>, b: Seq<char>, part: Seq<char>)
    requires
        shows(b, part),
    ensures
        #[trigger] shows(a + b, part),
{
    reveal(shows);
    let i = choose|i: int| occurs_at(b, part, i);
    let at = a.len() + i;
    assert((a + b).subrange(at, at + part.len()) =~= b.subrange(i, i + part.len()));
    assert(occurs_at(a + b, part, at));
}

/// A page shows what it ends with.
pub broadcast proof fn shows_its_end(s: Seq<char>, part: Seq<char>)
    requires
        ends_in(s, part),
    ensures
        #[trigger] shows(s, part),
{
    reveal(shows);
    reveal(ends_in);
    let at = s.len() - part.len();
    assert(s.subrange(at, at + part.len()) =~= s.skip(at));
    assert(occurs_at(s, part, at));
}

/// What ends one half and begins the other stands across the two.
pub broadcast proof fn shows_across(a: Seq<char>, b: Seq<char>, p: Seq<char>, c: Seq<char>)
    requires
        ends_in(a, p),
        starts_as(b, c),
    ensures
        #[trigger] shows(a + b, p + c),
{
    reveal(shows);
    reveal(ends_in);
    reveal(starts_as);
    let at = a.len() - p.len();
    let part = p + c;
    let s = a + b;
    assert forall|k: int| 0 <= k < part.len() implies #[trigger] s.subrange(
        at,
        at + part.len(),
    )[k] == part[k] by {
        if k < p.len() {
            assert(a.skip(at)[k] == p[k]);
        } else {
            assert(b.take(c.len() as int)[k - p.len()] == c[k - p.len()]);
        }
    }
    assert(s.subrange(at, at + part.len()) =~= part);
    assert(occurs_at(s, part, at));
}

/// A text ends with itself.
pub broadcast proof fn ends_whole(s: Seq<char>)
    ensures
        #[trigger] ends_in(s, s),
{
    reveal(ends_in);
    assert(s.skip(0) =~= s);
}

/// A text ends as its second half does.
pub broadcast proof fn ends_behind(a: Seq<char>, b: Seq<char>, part: Seq<char>)
    requires
        ends_in(b, part),
    ensures
        #[trigger] ends_in(a + b, part),
{
    reveal(ends_in);
    assert((a + b).skip((a + b).len() - part.len()) =~= b.skip(b.len() - part.len()));
}

/// What follows an end makes a longer end.
pub broadcast proof fn ends_longer(a: Seq<char>, p: Seq<char>, b: Seq<char>)
    requires
        ends_in(a, p),
    ensures
        #[trigger] ends_in(a + b, p + b),
{
    reveal(ends_in);
    let s = a + b;
    let part = p + b;
    let at = s.len() - part.len();
    assert forall|k: int| 0 <= k < part.len() implies #[trigger] s.skip(at)[k] == part[k] by {
        if k < p.len() {
            assert(a.skip(at)[k] == p[k]);
        }
    }
    assert(s.skip(at) =~= part);
}

/// A text begins with itself.
pub broadcast proof fn starts_whole(s: Seq<char>)
    ensures
        #[trigger] starts_as(s, s),
{
    reveal(starts_as);
    assert(s.take(s.len() as int) =~= s);
}

/// How what a page shows follows from its parts.
pub broadcast group group_shows {
    shows_in_front,
    shows_behind,
    shows_its_end,
    shows_across,
    ends_whole,
    ends_behind,
    ends_longer,
    starts_whole,
}

} // verus!
