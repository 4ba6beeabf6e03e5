//! Downloads of a conversation.
use crate::chat::Session;
use crate::num::{decimal, show_u64};
use crate::text::{
    ascii_lower, chars, clip, clipped, find_char, first_index, joined, lower_char, opt_text,
    string_or_empty, substring, text_or_empty,
};
use vstd::prelude::*;

verus! {

/// An ASCII letter or digit.
pub open spec fn alphanumeric(c: char) -> bool {
    'a' <= c <= 'z' || 'A' <= c <= 'Z' || '0' <= c <= '9'
}

fn is_alphanumeric(c: char) -> (r: bool)
    ensures
        r == alphanumeric(c),
{
    ('a' <= c && c <= 'z') || ('A' <= c && c <= 'Z') || ('0' <= c && c <= '9')
}

/// The runs of ASCII letters and digits in a text, in lower case.
pub open spec fn runs(s: Seq<char>) -> Seq<Seq<char>>
    decreases s.len(),
{
    if s.len() == 0 {
        Seq::empty()
    } else {
        let head = runs(s.drop_last());
        let c = s.last();
        if !alphanumeric(c) {
            head
        } else if s.len() > 1 && alphanumeric(s[s.len() - 2]) && head.len() > 0 {
            head.drop_last().push(head.last().push(ascii_lower(c)))
        } else {
            head.push(seq![ascii_lower(c)])
        }
    }
}

/// The part of a file name that a title gives: its runs, joined by dashes, and
/// cut off.
pub open spec fn slug(title: Seq<char>) -> Seq<char> {
    clipped(joined(runs(title), "-"@), 60)
}

proof fn lemma_run_open(s: Seq<char>)
    requires
        s.len() > 0,
        alphanumeric(s.last()),
    ensures
        runs(s).len() > 0,
{
}

/// A lower case ASCII letter or a digit.
pub open spec fn slug_char(c: char) -> bool {
    'a' <= c <= 'z' || '0' <= c <= '9'
}

/// A run of lower case letters and digits.
pub open spec fn is_run(s: Seq<char>) -> bool {
    s.len() > 0 && forall|j: int| 0 <= j < s.len() ==> slug_char(#[trigger] s[j])
}

/// Runs of lower case letters and digits.
pub open spec fn are_runs(parts: Seq<Seq<char>>) -> bool {
    forall|i: int| 0 <= i < parts.len() ==> is_run(#[trigger] parts[i])
}

proof fn lemma_lower(c: char)
    requires
        alphanumeric(c),
    ensures
        slug_char(ascii_lower(c)),
{
    if 'A' <= c <= 'Z' {
        assert(ascii_lower(c) as u32 == c as u32 + 32);
    }
}

proof fn lemma_runs(s: Seq<char>)
    ensures
        are_runs(runs(s)),
    decreases s.len(),
{
    if s.len() > 0 {
        lemma_runs(s.drop_last());
        let head = runs(s.drop_last());
        let c = s.last();
        if alphanumeric(c) {
            lemma_lower(c);
            let all = runs(s);
            assert forall|i: int| 0 <= i < all.len() implies is_run(#[trigger] all[i]) by {
                if i < head.len() {
                    assert(is_run(head[i]));
                }
                if s.len() > 1 && alphanumeric(s[s.len() - 2]) && head.len() > 0 && i == head.len()
                    - 1 {
                    let grown = head.last().push(ascii_lower(c));
                    assert(all[i] == grown);
                    assert forall|j: int| 0 <= j < grown.len() implies slug_char(
                        #[trigger] grown[j],
                    ) by {
                        if j < head.last().len() {
                            assert(grown[j] == head[i][j]);
                        }
                    }
                }
            }
        }
    }
}

proof fn lemma_joined_nonempty(parts: Seq<Seq<char>>)
    requires
        parts.len() > 0,
        are_runs(parts),
    ensures
        joined(parts, "-"@).len() > 0,
{
    assert(is_run(parts[parts.len() - 1]));
}

proof fn lemma_joined_grow(parts: Seq<Seq<char>>, c: char)
    requires
        parts.len() > 0,
    ensures
        joined(parts.drop_last().push(parts.last().push(c)), "-"@) == joined(parts, "-"@).push(c),
{
    let grown = parts.drop_last().push(parts.last().push(c));
    assert(grown.drop_last() =~= parts.drop_last());
    if parts.len() == 1 {
        assert(grown[0] == parts[0].push(c));
    } else {
        assert((joined(parts.drop_last(), "-"@) + "-"@ + parts.last()).push(c) =~= joined(
            parts.drop_last(),
            "-"@,
        ) + "-"@ + parts.last().push(c));
    }
}

/// Makes the part of a file name that a title gives.
pub fn slugify(title: &str) -> (r: String)
    ensures
        r@ == slug(title@),
{
    let v = chars(title);
    let mut out = String::new();
    let mut prev: bool = false;
    proof {
        reveal_strlit("-");
        assert("-"@ =~= seq!['-']);
        assert(runs(v@.take(0)) =~= Seq::<Seq<char>>::empty());
    }
    for i in 0..v.len()
        invariant
            v@ == title@,
            "-"@ == seq!['-'],
            out@ == joined(runs(v@.take(i as int)), "-"@),
            prev == (i > 0 && alphanumeric(v@[i - 1])),
            prev ==> runs(v@.take(i as int)).len() > 0,
    {
        let ghost part = v@.take(i + 1);
        let ghost head = runs(v@.take(i as int));
        proof {
            assert(part.drop_last() =~= v@.take(i as int));
            assert(part.last() == v@[i as int]);
            if i > 0 {
                assert(part[part.len() - 2] == v@[i - 1]);
            }
        }
        proof {
            lemma_runs(v@.take(i as int));
            if head.len() > 0 {
                lemma_joined_nonempty(head);
            }
        }
        let c = v[i];
        if is_alphanumeric(c) {
            let l = lower_char(c);
            proof {
                lemma_run_open(part);
                if prev {
                    lemma_joined_grow(head, l);
                } else {
                    let grown = head.push(seq![l]);
                    assert(grown.drop_last() =~= head);
                    if head.len() == 0 {
                        assert(grown[0] =~= seq![l]);
                        assert(out@ =~= Seq::<char>::empty());
                        assert(out@.push(l) =~= seq![l]);
                    } else {
                        assert(joined(grown, "-"@) == out@ + "-"@ + seq![l]);
                        assert(out@.push('-').push(l) =~= out@ + "-"@ + seq![l]);
                    }
                }
            }
            if !prev && !out.as_str().is_empty() {
                out.push('-');
            }
            out.push(l);
            prev = true;
        } else {
            prev = false;
        }
    }
    assert(v@.take(v@.len() as int) =~= v@);
    clip(&out, 60)
}

/// The name of a download: by the title, or by the first part of the number
/// when the title gives nothing.
pub open spec fn download_name(session: Session, ext: Seq<char>) -> Seq<char> {
    let by_title = slug(text_or_empty(opt_text(session.title)));
    let stem = if by_title.len() > 0 {
        by_title
    } else {
        "chat-"@ + session.id@.take(first_index(session.id@, '-'))
    };
    stem + "."@ + ext
}

/// Makes the name of a download.
pub fn export_filename(session: &Session, ext: &str) -> (r: String)
    ensures
        r@ == download_name(*session, ext@),
{
    let by_title = slugify(&string_or_empty(&session.title));
    let mut out = if by_title.as_str().is_empty() {
        let v = chars(&session.id);
        let i = find_char(&v, '-');
        let short = substring(&v, 0, i);
        assert(short@ =~= session.id@.take(i as int));
        let mut stem = "chat-".to_owned();
        stem.append(&short);
        stem
    } else {
        by_title
    };
    out.append(".");
    out.append(ext);
    out
}

/// A header of a response.
pub struct Header {
    pub name: String,
    pub value: String,
}

/// The names and values of headers.
pub open spec fn header_views(v: Seq<Header>) -> Seq<(Seq<char>, Seq<char>)> {
    v.map_values(|h: Header| (h.name@, h.value@))
}

fn header(name: &str, value: &str) -> (r: Header)
    ensures
        r.name@ == name@,
        r.value@ == value@,
{
    Header { name: name.to_owned(), value: value.to_owned() }
}

/// The headers of a download. It shows the conversation as it is, so it is not
/// kept.
pub open spec fn download_headers(content_type: Seq<char>, filename: Seq<char>, len: nat) -> Seq<
    (Seq<char>, Seq<char>),
> {
    seq![
        ("content-type"@, content_type),
        ("content-length"@, decimal(len)),
        ("content-disposition"@, "attachment; filename=\""@ + filename + "\""@),
        ("cache-control"@, "no-store"@),
    ]
}

/// Makes the headers of a download.
pub fn download_response(content_type: &str, filename: &str, len: usize) -> (r: Vec<Header>)
    ensures
        header_views(r@) == download_headers(content_type@, filename@, len as nat),
{
    let mut disposition = "attachment; filename=\"".to_owned();
    disposition.append(filename);
    disposition.append("\"");
    let mut out: Vec<Header> = Vec::new();
    out.push(header("content-type", content_type));
    out.push(header("content-length", &show_u64(len as u64)));
    out.push(header("content-disposition", &disposition));
    out.push(header("cache-control", "no-store"));
    assert(header_views(out@) =~= download_headers(content_type@, filename@, len as nat));
    out
}

/// The headers of an attachment. Its content cannot change, so it may be kept
/// for a while.
pub fn attachment_headers(mime: &str, len: usize) -> (r: Vec<Header>)
    ensures
        header_views(r@) == seq![
            ("content-type"@, mime@),
            ("content-length"@, decimal(len as nat)),
            ("cache-control"@, "private, max-age=3600"@),
        ],
{
    let mut out: Vec<Header> = Vec::new();
    out.push(header("content-type", mime));
    out.push(header("content-length", &show_u64(len as u64)));
    out.push(header("cache-control", "private, max-age=3600"));
    assert(header_views(out@) =~= seq![
        ("content-type"@, mime@),
        ("content-length"@, decimal(len as nat)),
        ("cache-control"@, "private, max-age=3600"@),
    ]);
    out
}

// ---------------------------------------------------------------------------
// Laws

proof fn lemma_joined_clean(parts: Seq<Seq<char>>)
    requires
        are_runs(parts),
        parts.len() > 0,
    ensures
        ({
            let j = joined(parts, "-"@);
            &&& j.len() > 0
            &&& forall|i: int| 0 <= i < j.len() ==> slug_char(#[trigger] j[i]) || j[i] == '-'
            &&& slug_char(j[0])
            &&& slug_char(j.last())
            &&& forall|i: int, k: int|
                0 <= i && k == i + 1 && k < j.len() ==> slug_char(#[trigger] j[i]) || slug_char(
                    #[trigger] j[k],
                )
        }),
    decreases parts.len(),
{
    reveal_strlit("-");
    assert("-"@ =~= seq!['-']);
    let j = joined(parts, "-"@);
    let last = parts[parts.len() - 1];
    assert(is_run(last));
    if parts.len() > 1 {
        let d = parts.drop_last();
        assert forall|i: int| 0 <= i < d.len() implies is_run(#[trigger] d[i]) by {
            assert(d[i] == parts[i]);
        }
        lemma_joined_clean(d);
        let h = joined(d, "-"@);
        assert(j =~= h + "-"@ + last);
        assert forall|i: int| 0 <= i < j.len() implies slug_char(#[trigger] j[i]) || j[i] == '-' by {
            if i < h.len() {
                assert(j[i] == h[i]);
            } else if i > h.len() {
                assert(j[i] == last[i - h.len() - 1]);
            }
        }
        assert(j[0] == h[0]);
        assert(j[j.len() - 1] == last[last.len() - 1]);
        assert forall|i: int, k: int| 0 <= i && k == i + 1 && k < j.len() implies slug_char(
            #[trigger] j[i],
        ) || slug_char(#[trigger] j[k]) by {
            if k < h.len() {
                assert(j[i] == h[i] && j[k] == h[k]);
            } else if k == h.len() {
                assert(j[i] == h[h.len() - 1]);
            } else if i == h.len() {
                assert(j[k] == last[0]);
            } else {
                assert(j[i] == last[i - h.len() - 1]);
            }
        }
    }
}

/// What a title gives for a file name is safe in a header: at most sixty lower
/// case letters, digits and dashes, not beginning with a dash, no two dashes in
/// a row.
pub proof fn slug_is_clean(title: Seq<char>)
    ensures
        slug(title).len() <= 60,
        forall|i: int|
            0 <= i < slug(title).len() ==> slug_char(#[trigger] slug(title)[i]) || slug(title)[i]
                == '-',
        slug(title).len() > 0 ==> slug_char(slug(title)[0]),
        forall|i: int, k: int|
            0 <= i && k == i + 1 && k < slug(title).len() ==> slug_char(#[trigger] slug(title)[i])
                || slug_char(#[trigger] slug(title)[k]),
{
    lemma_runs(title);
    let parts = runs(title);
    let j = joined(parts, "-"@);
    if parts.len() > 0 {
        lemma_joined_clean(parts);
        assert forall|i: int, k: int| 0 <= i && k == i + 1 && k < slug(title).len() implies slug_char(
            #[trigger] slug(title)[i],
        ) || slug_char(#[trigger] slug(title)[k]) by {
            assert(slug(title)[i] == j[i] && slug(title)[k] == j[k]);
        }
        assert forall|i: int| 0 <= i < slug(title).len() implies slug_char(#[trigger] slug(title)[i])
            || slug(title)[i] == '-' by {
            assert(slug(title)[i] == j[i]);
        }
    } else {
        assert(slug(title).len() == 0);
    }
}

/// A word of letters and digits is kept in a file name, in small letters, and set off from
/// what stands before it.
pub proof fn words_are_kept_in_the_name(before: Seq<char>, sep: char, word: Seq<char>)
    requires
        !alphanumeric(sep),
        word.len() > 0,
        forall|i: int| 0 <= i < word.len() ==> alphanumeric(#[trigger] word[i]),
    ensures
        runs(before + seq![sep] + word) == runs(before).push(
            word.map_values(|c: char| ascii_lower(c)),
        ),
    decreases word.len(),
{
    let s = before + seq![sep] + word;
    let low = word.map_values(|c: char| ascii_lower(c));
    assert(alphanumeric(word[word.len() - 1]));
    assert(s.last() == word.last());
    if word.len() == 1 {
        assert(s.drop_last() =~= before + seq![sep]);
        assert((before + seq![sep]).drop_last() =~= before);
        assert((before + seq![sep]).last() == sep);
        assert(runs(before + seq![sep]) == runs(before));
        assert(s[s.len() - 2] == sep);
        assert(low =~= seq![ascii_lower(word.last())]);
        assert(runs(s) == runs(before).push(seq![ascii_lower(s.last())]));
    } else {
        let w = word.drop_last();
        assert forall|i: int| 0 <= i < w.len() implies alphanumeric(#[trigger] w[i]) by {
            assert(w[i] == word[i]);
        }
        words_are_kept_in_the_name(before, sep, w);
        assert(s.drop_last() =~= before + seq![sep] + w);
        assert(s[s.len() - 2] == word[word.len() - 2]);
        let lw = w.map_values(|c: char| ascii_lower(c));
        let head = runs(before).push(lw);
        assert(head.drop_last() =~= runs(before));
        assert(lw.push(ascii_lower(word.last())) =~= low);
        assert(alphanumeric(s[s.len() - 2]));
        assert(head.last() == lw);
        assert(runs(s.drop_last()) == head);
        assert(runs(s) == runs(before).push(lw.push(ascii_lower(s.last()))));
    }
}

/// A download is named after its conversation: by the words of the title with hyphens
/// between, in small letters, or by the beginning of its number where the title has none.
pub proof fn a_download_is_named_after_its_conversation(session: Session, ext: Seq<char>)
    ensures
        slug(text_or_empty(opt_text(session.title))).len() > 0 ==> download_name(session, ext)
            == clipped(joined(runs(text_or_empty(opt_text(session.title))), "-"@), 60) + "."@ + ext,
        slug(text_or_empty(opt_text(session.title))).len() == 0 ==> download_name(session, ext)
            == "chat-"@ + session.id@.take(first_index(session.id@, '-')) + "."@ + ext,
        session.title is None ==> slug(text_or_empty(opt_text(session.title))).len() == 0,
{
    assert(runs(Seq::<char>::empty()).len() == 0);
}

/// A download is an attachment under its name and of its kind, with its length, and is
/// not kept; a file of a message is kept for an hour by its reader alone.
pub proof fn downloads_have_their_headers(
    content_type: &str,
    filename: &str,
    len: usize,
    r: Vec<Header>,
    file: Vec<Header>,
)
    requires
        call_ensures(download_response, (content_type, filename, len), r),
        call_ensures(attachment_headers, (content_type, len), file),
    ensures
        header_views(r@).contains(("content-type"@, content_type@)),
        header_views(r@).contains(("content-length"@, decimal(len as nat))),
        header_views(r@).contains(
            ("content-disposition"@, "attachment; filename=\""@ + filename@ + "\""@),
        ),
        header_views(r@).contains(("cache-control"@, "no-store"@)),
        header_views(file@).contains(("content-type"@, content_type@)),
        header_views(file@).contains(("content-length"@, decimal(len as nat))),
        header_views(file@).contains(("cache-control"@, "private, max-age=3600"@)),
{
    let h = header_views(r@);
    let f = header_views(file@);
    assert(h[0].0 == "content-type"@ && h[1].0 == "content-length"@);
    assert(h[2] == ("content-disposition"@, "attachment; filename=\""@ + filename@ + "\""@));
    assert(h[3] == ("cache-control"@, "no-store"@));
    assert(f[0] == ("content-type"@, content_type@));
    assert(f[1] == ("content-length"@, decimal(len as nat)));
    assert(f[2] == ("cache-control"@, "private, max-age=3600"@));
}

} // verus!
