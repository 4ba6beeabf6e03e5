//! Titles for chat sessions, asked of a model and cut to the size of the
//! sidebar.
use crate::json::{json_bytes_at, json_bytes_pointer, json_text, write_text};
use crate::query::{lossy, lossy_text};
use crate::text::{
    ascii_lower, chars, clip, clipped, find, find_from, free_of, items_of, join, joined,
    lemma_find_from, lemma_parts_free, lemma_prefix_words, lemma_words_free, lower, split_items,
    split_parts, split_undoes_join, split_words, strip, substring, texts, trim, trimmed,
    without_prefix, without_suffix, words_of,
};
use crate::markup::{group_shows, shows};
use vstd::prelude::*;
use vstd::utf8::{decode_utf8, valid_utf8};

verus! {

/// The most characters of a title.
pub const MAX_TITLE_LEN: usize = 40;

/// The most words of a title.
pub const MAX_TITLE_WORDS: usize = 5;

// ---------------------------------------------------------------------------
// From the answer of a model to a title

/// ASCII lower case of every character.
pub open spec fn lowered(s: Seq<char>) -> Seq<char> {
    s.map_values(|c: char| ascii_lower(c))
}

/// `s` without its first balanced `<think>…</think>` block, whatever the case
/// of the tags; `s` itself when a tag is missing.
pub open spec fn without_think(s: Seq<char>) -> Seq<char> {
    let low = lowered(s);
    match find_from(low, "<think>"@, 0) {
        Some(start) => match find_from(low, "</think>"@, start + 7) {
            Some(close) => s.take(start) + s.skip(close + 8),
            None => s,
        },
        None => s,
    }
}

/// Removes one balanced `<think>…</think>` block.
pub fn strip_think_block(s: &str) -> (r: String)
    ensures
        r@ == without_think(s@),
{
    let v = chars(s);
    let low = lower(&v);
    let n: usize = v.len();
    proof {
        reveal_strlit("<think>");
        reveal_strlit("</think>");
        assert("<think>"@.len() == 7 && "</think>"@.len() == 8);
        assert(low@.len() == n);
        lemma_find_from(low@, "<think>"@, 0);
    }
    match find(&low, &chars("<think>"), 0) {
        Some(start) => {
            proof {
                lemma_find_from(low@, "</think>"@, start + 7);
            }
            match find(&low, &chars("</think>"), start + 7) {
                Some(close) => {
                    let mut out = substring(&v, 0, start);
                    let rest = substring(&v, close + 8, v.len());
                    out.append(&rest);
                    assert(v@.subrange(0, start as int) =~= s@.take(start as int));
                    assert(v@.subrange(close + 8, v@.len() as int) =~= s@.skip(close + 8));
                    out
                },
                None => s.to_owned(),
            }
        },
        None => s.to_owned(),
    }
}

/// The first line that is not blank, trimmed; the empty text when there is none.
pub open spec fn first_line(s: Seq<char>) -> Seq<char> {
    let lines = items_of(s, "\n"@);
    if lines.len() == 0 {
        Seq::empty()
    } else {
        lines[0]
    }
}

/// A line without the quotes, marks and colons around it and the stops at its end.
pub open spec fn bare_line(line: Seq<char>) -> Seq<char> {
    let set = "\"'*#-`:"@;
    let inner = without_suffix(without_prefix(line, true, set), true, set);
    trimmed(without_suffix(inner, false, ".:!?"@))
}

/// The first words of a line, one space between.
pub open spec fn first_words(line: Seq<char>) -> Seq<char> {
    joined(first_few(words_of(line)), " "@)
}

/// At most as many words as a title has.
pub open spec fn first_few(words: Seq<Seq<char>>) -> Seq<Seq<char>> {
    if words.len() <= MAX_TITLE_WORDS {
        words
    } else {
        words.take(MAX_TITLE_WORDS as int)
    }
}

/// Position of the last `c` in `s`, or -1.
pub open spec fn last_index(s: Seq<char>, c: char) -> int
    decreases s.len(),
{
    if s.len() == 0 {
        -1
    } else if s.last() == c {
        s.len() - 1
    } else {
        last_index(s.drop_last(), c)
    }
}

/// A text cut to the length of a title. A cut through a word goes back to the
/// space before it, if there is one.
pub open spec fn fitted(s: Seq<char>) -> Seq<char> {
    if s.len() <= MAX_TITLE_LEN {
        s
    } else {
        let cut = s.take(MAX_TITLE_LEN as int);
        if s[MAX_TITLE_LEN as int] != ' ' && last_index(cut, ' ') > 0 {
            cut.take(last_index(cut, ' '))
        } else {
            cut
        }
    }
}

/// The title that the answer of a model stands for.
pub open spec fn title_of(raw: Seq<char>) -> Seq<char> {
    fitted(first_words(bare_line(first_line(without_think(raw)))))
}

proof fn lemma_last_index(s: Seq<char>, c: char)
    ensures
        -1 <= last_index(s, c) < s.len(),
        last_index(s, c) >= 0 ==> s[last_index(s, c)] == c,
        forall|i: int| last_index(s, c) < i < s.len() ==> s[i] != c,
    decreases s.len(),
{
    if s.len() > 0 && s.last() != c {
        let d = s.drop_last();
        lemma_last_index(d, c);
        assert forall|i: int| last_index(s, c) < i < s.len() implies s[i] != c by {
            if i < d.len() {
                assert(d[i] == s[i]);
            }
        }
    }
}

fn fit(s: &str) -> (r: String)
    ensures
        r@ == fitted(s@),
{
    let v = chars(s);
    if v.len() <= MAX_TITLE_LEN {
        return s.to_owned();
    }
    let ghost cut = s@.take(MAX_TITLE_LEN as int);
    if v[MAX_TITLE_LEN] == ' ' {
        let out = substring(&v, 0, MAX_TITLE_LEN);
        assert(out@ =~= cut);
        return out;
    }
    let mut i: usize = MAX_TITLE_LEN;
    assert(cut.take(i as int) =~= cut);
    while i > 0 && v[i - 1] != ' '
        invariant
            i <= MAX_TITLE_LEN < v@.len(),
            v@ == s@,
            cut == s@.take(MAX_TITLE_LEN as int),
            last_index(cut, ' ') == last_index(cut.take(i as int), ' '),
        decreases i,
    {
        assert(cut.take(i as int).drop_last() =~= cut.take(i - 1));
        i = i - 1;
    }
    if i > 1 {
        assert(last_index(cut, ' ') == i - 1);
        let out = substring(&v, 0, i - 1);
        assert(out@ =~= cut.take(i - 1));
        out
    } else {
        assert(last_index(cut, ' ') == i - 1);
        let out = substring(&v, 0, MAX_TITLE_LEN);
        assert(out@ =~= cut);
        out
    }
}

/// Squeezes the answer of a model into a title: the first line that says
/// something, without thinking, quotes and stops, in at most
/// [`MAX_TITLE_WORDS`] words and [`MAX_TITLE_LEN`] characters.
pub fn clean_title(raw: &str) -> (r: String)
    ensures
        r@ == title_of(raw@),
        r@.len() <= MAX_TITLE_LEN,
        words_of(r@).len() <= MAX_TITLE_WORDS,
{
    let after_think = strip_think_block(raw);
    let lines = split_items(&after_think, "\n");
    assert(texts(lines@).len() == lines@.len());
    let line = if lines.len() > 0 {
        assert(texts(lines@)[0] == lines@[0]@);
        lines[0].clone()
    } else {
        String::new()
    };
    let inner = strip(&line, true, true, "\"'*#-`:");
    let bare = trim(&strip(&inner, false, false, ".:!?"));
    let words = split_words(&bare);
    let mut few: Vec<String> = Vec::new();
    let n: usize = if words.len() <= MAX_TITLE_WORDS {
        words.len()
    } else {
        MAX_TITLE_WORDS
    };
    for i in 0..n
        invariant
            n <= words@.len(),
            texts(few@) == texts(words@).take(i as int),
    {
        let ghost before = texts(few@);
        few.push(words[i].clone());
        assert(texts(few@) =~= before.push(words@[i as int]@));
        assert(texts(words@).take(i + 1) =~= texts(words@).take(i as int).push(words@[i as int]@));
    }
    assert(texts(few@) =~= first_few(texts(words@)));
    let out = fit(&join(&few, " "));
    proof {
        title_fits(raw@);
        title_has_few_words(raw@);
    }
    out
}

// ---------------------------------------------------------------------------
// Asking the model

/// What the model is told to do.
pub open spec fn system_prompt() -> Seq<char> {
    "You name chat conversations.\nOutput ONLY a short headline (2-4 words, max 30 characters) for the user's message. No quotes, no punctuation, no preamble, no reasoning. Capitalize like a headline.\nExamples:\nCeph vs SeaweedFS\nPostgres tuning help\nRust async question\n/no_think"@
}

/// The request for a title, as JSON: the prompt and the user's message, a short
/// answer, and thinking switched off in each of the ways that models know.
pub open spec fn title_request_text(model: Seq<char>, user_msg: Seq<char>) -> Seq<char> {
    r#"{"chat_template_kwargs":{"enable_thinking":false},"max_tokens":256,"messages":[{"content":"#@
        + json_text(system_prompt()) + r#","role":"system"},{"content":"#@ + json_text(
        user_msg + "\n\n/no_think"@,
    ) + r#","role":"user"}],"model":"#@ + json_text(model) + r#","stream":false,"temperature":0}"#@
}

/// The request for a title.
pub fn title_request(model: &str, user_msg: &str) -> (r: String)
    ensures
        r@ == title_request_text(model@, user_msg@),
{
    let mut told = user_msg.to_owned();
    told.append("\n\n/no_think");
    let mut out = r#"{"chat_template_kwargs":{"enable_thinking":false},"max_tokens":256,"messages":[{"content":"#.to_owned();
    out.append(
        &write_text(
            "You name chat conversations.\nOutput ONLY a short headline (2-4 words, max 30 characters) for the user's message. No quotes, no punctuation, no preamble, no reasoning. Capitalize like a headline.\nExamples:\nCeph vs SeaweedFS\nPostgres tuning help\nRust async question\n/no_think",
        ),
    );
    out.append(r#","role":"system"},{"content":"#);
    out.append(&write_text(&told));
    out.append(r#","role":"user"}],"model":"#);
    out.append(&write_text(model));
    out.append(r#","stream":false,"temperature":0}"#);
    out
}

/// The address that the request is posted to.
pub fn completions_url(base_url: &str) -> (r: String)
    ensures
        r@ == base_url@ + "/chat/completions"@,
{
    let mut out = base_url.to_owned();
    out.append("/chat/completions");
    out
}

/// What is kept of a model's answer.
pub struct UpstreamReply {
    pub content: String,
    pub reasoning_content: String,
    pub finish_reason: String,
}

/// The string at a pointer, the empty text when no string stands there.
pub open spec fn plucked(raw: Seq<u8>, pointer: Seq<char>) -> Seq<char> {
    match json_bytes_at(raw, pointer) {
        Some(Some(s)) => s,
        _ => Seq::empty(),
    }
}

/// A looked-up string, the empty text when nothing or no string was found.
pub fn pluck_str(found: Option<Option<String>>) -> (r: String)
    ensures
        r@ == (match found {
            Some(Some(s)) => s@,
            _ => Seq::empty(),
        }),
{
    match found {
        Some(Some(s)) => s,
        _ => String::new(),
    }
}

/// Reads the answer of a model; `None` when it is not JSON.
pub fn read_reply(bytes: &[u8]) -> (r: Option<UpstreamReply>)
    ensures
        r is Some <==> json_bytes_at(bytes@, ""@) is Some,
        r matches Some(reply) ==> {
            &&& reply.content@ == plucked(bytes@, "/choices/0/message/content"@)
            &&& reply.reasoning_content@ == plucked(
                bytes@,
                "/choices/0/message/reasoning_content"@,
            )
            &&& reply.finish_reason@ == plucked(bytes@, "/choices/0/finish_reason"@)
        },
{
    if json_bytes_pointer(bytes, "").is_none() {
        return None;
    }
    Some(
        UpstreamReply {
            content: pluck_str(json_bytes_pointer(bytes, "/choices/0/message/content")),
            reasoning_content: pluck_str(
                json_bytes_pointer(bytes, "/choices/0/message/reasoning_content"),
            ),
            finish_reason: pluck_str(json_bytes_pointer(bytes, "/choices/0/finish_reason")),
        },
    )
}

/// The words for an answer with an error status: the status and the beginning
/// of what came with it.
pub fn upstream_error(status: &str, body: &[u8]) -> (r: String)
    ensures
        r@ == "upstream "@ + status@ + ": "@ + clipped(lossy_text(body@), 120),
        valid_utf8(body@) ==> r@ == "upstream "@ + status@ + ": "@ + clipped(
            decode_utf8(body@),
            120,
        ),
{
    let mut out = "upstream ".to_owned();
    out.append(status);
    out.append(": ");
    out.append(&clip(&lossy(body), 120));
    out
}

// ---------------------------------------------------------------------------
// Laws

/// A title is never longer than the sidebar shows.
pub proof fn title_fits(raw: Seq<char>)
    ensures
        title_of(raw).len() <= MAX_TITLE_LEN,
{
    let s = first_words(bare_line(first_line(without_think(raw))));
    if s.len() > MAX_TITLE_LEN {
        lemma_last_index(s.take(MAX_TITLE_LEN as int), ' ');
    }
}

/// A title never has more words than a glance takes in.
pub proof fn title_has_few_words(raw: Seq<char>)
    ensures
        words_of(title_of(raw)).len() <= MAX_TITLE_WORDS,
{
    let none = Seq::<char>::empty();
    let line = bare_line(first_line(without_think(raw)));
    let few = first_few(words_of(line));
    let s = first_words(line);
    lemma_parts_free(line, true, none);
    lemma_words_free(split_parts(line, true, none));
    reveal_strlit(" ");
    assert(" "@ =~= seq![' ']);
    if few.len() > 0 {
        assert forall|i: int| 0 <= i < few.len() implies free_of(#[trigger] few[i], true, none) by {
            assert(few[i] == words_of(line)[i]);
        }
        split_undoes_join(few, ' ', true, none);
    } else {
        assert(s =~= none);
        assert(split_parts(s, true, none).len() == 1);
    }
    assert(split_parts(s, true, none).len() <= MAX_TITLE_WORDS);
    if s.len() > MAX_TITLE_LEN {
        let cut = s.take(MAX_TITLE_LEN as int);
        lemma_last_index(cut, ' ');
        let at = last_index(cut, ' ');
        if s[MAX_TITLE_LEN as int] != ' ' && at > 0 {
            assert(cut.take(at) =~= s.take(at));
            lemma_prefix_words(s, at);
        } else {
            lemma_prefix_words(s, MAX_TITLE_LEN as int);
        }
    } else {
        assert(s.take(s.len() as int) =~= s);
        lemma_prefix_words(s, s.len() as int);
    }
}

/// Cutting to the length of a title drops no whole word that fits: what is left
/// out begins with a space, or the one word that is there is longer than a title.
pub proof fn no_half_words(s: Seq<char>)
    ensures
        ({
            let cut = fitted(s);
            &&& cut.is_prefix_of(s)
            &&& cut.len() < s.len() ==> s[cut.len() as int] == ' ' || (cut.len() == MAX_TITLE_LEN
                && last_index(cut, ' ') <= 0)
            &&& cut.len() < s.len() ==> forall|i: int|
                cut.len() < i <= MAX_TITLE_LEN ==> s[i] != ' '
        }),
{
    if s.len() > MAX_TITLE_LEN {
        let cut = s.take(MAX_TITLE_LEN as int);
        lemma_last_index(cut, ' ');
        let kept = fitted(s);
        assert(kept =~= s.take(kept.len() as int));
        assert forall|i: int| kept.len() < i <= MAX_TITLE_LEN implies s[i] != ' ' by {
            if i < MAX_TITLE_LEN {
                assert(cut[i] == s[i]);
            }
        }
        if kept.len() < MAX_TITLE_LEN {
            assert(cut[kept.len() as int] == s[kept.len() as int]);
        }
    }
}

/// A text without an opening tag is left as it is.
pub proof fn no_think_no_change(s: Seq<char>)
    requires
        forall|i: int| !crate::text::occurs_at(lowered(s), "<think>"@, i),
    ensures
        without_think(s) == s,
{
    lemma_find_from(lowered(s), "<think>"@, 0);
}

proof fn lemma_low_mark(s: Seq<char>, i: int)
    requires
        0 <= i < s.len(),
    ensures
        lowered(s)[i] == '<' <==> s[i] == '<',
{
    assert(lowered(s)[i] == ascii_lower(s[i]));
    if 'A' <= s[i] <= 'Z' {
        assert(s[i] as u32 + 32 <= 122);
        assert(ascii_lower(s[i]) as u32 == s[i] as u32 + 32);
    }
}

/// The thoughts of a model are taken out of its answer, with the marks around them, and
/// nothing else is.
pub proof fn thoughts_are_taken_out(before: Seq<char>, thoughts: Seq<char>, after: Seq<char>)
    requires
        !before.contains('<'),
        !thoughts.contains('<'),
    ensures
        without_think(before + "<think>"@ + thoughts + "</think>"@ + after) == before + after,
{
    reveal_strlit("<think>");
    reveal_strlit("</think>");
    let (open, close) = ("<think>"@, "</think>"@);
    let s = before + open + thoughts + close + after;
    let low = lowered(s);
    let a = before.len() as int;
    let b = a + 7 + thoughts.len();
    assert(low.subrange(a, a + 7) =~= open) by {
        assert forall|k: int| 0 <= k < 7 implies #[trigger] low[a + k] == open[k] by {
            assert(s[a + k] == open[k]);
            assert(k == 0 || k == 1 || k == 2 || k == 3 || k == 4 || k == 5 || k == 6);
        }
    }
    assert(low.subrange(b, b + 8) =~= close) by {
        assert forall|k: int| 0 <= k < 8 implies #[trigger] low[b + k] == close[k] by {
            assert(s[b + k] == close[k]);
            assert(k == 0 || k == 1 || k == 2 || k == 3 || k == 4 || k == 5 || k == 6 || k == 7);
        }
    }
    assert(crate::text::occurs_at(low, open, a));
    assert(crate::text::occurs_at(low, close, b));
    lemma_find_from(low, open, 0);
    lemma_find_from(low, close, a + 7);
    assert forall|j: int| 0 <= j < a implies !crate::text::occurs_at(low, open, j) by {
        lemma_low_mark(s, j);
        assert(s[j] == before[j]);
        assert(before.contains(before[j]));
        if crate::text::occurs_at(low, open, j) {
            assert(low.subrange(j, j + 7)[0] == low[j]);
            assert(open[0] == '<');
        }
    }
    assert forall|j: int| a + 7 <= j < b implies !crate::text::occurs_at(low, close, j) by {
        lemma_low_mark(s, j);
        assert(s[j] == thoughts[j - a - 7]);
        assert(thoughts.contains(thoughts[j - a - 7]));
        if crate::text::occurs_at(low, close, j) {
            assert(low.subrange(j, j + 8)[0] == low[j]);
            assert(close[0] == '<');
        }
    }
    assert(find_from(low, open, 0) == Some(a));
    assert(find_from(low, close, a + 7) == Some(b));
    assert(s.take(a) =~= before);
    assert(s.skip(b + 8) =~= after);
}

/// Whether a line is a plain headline: words with one space between, without line ends and
/// marks, that neither begin nor end with something that is taken off.
pub open spec fn is_headline(words: Seq<Seq<char>>) -> bool {
    &&& words.len() > 0
    &&& forall|i: int|
        0 <= i < words.len() ==> (#[trigger] words[i]).len() > 0 && free_of(
            words[i],
            true,
            "<"@,
        )
    &&& !"\"'*#-`:"@.contains(joined(words, " "@)[0])
    &&& !"\"'*#-`:"@.contains(joined(words, " "@).last())
    &&& !".:!?"@.contains(joined(words, " "@).last())
}

proof fn lemma_headline_chars(words: Seq<Seq<char>>)
    requires
        words.len() > 0,
        forall|i: int|
            0 <= i < words.len() ==> (#[trigger] words[i]).len() > 0 && free_of(
                words[i],
                true,
                "<"@,
            ),
    ensures
        ({
            let s = joined(words, " "@);
            &&& s.len() > 0
            &&& forall|k: int| 0 <= k < s.len() ==> #[trigger] s[k] != '<' && s[k] != '\n'
            &&& !crate::text::white_space(s[0])
            &&& !crate::text::white_space(s.last())
        }),
    decreases words.len(),
{
    reveal_strlit(" ");
    reveal_strlit("<");
    assert("<"@[0] == '<');
    assert("<"@.contains('<'));
    let s = joined(words, " "@);
    let w = words.last();
    assert(words[words.len() - 1] == w);
    assert(!crate::text::in_class(w[w.len() - 1], true, "<"@));
    assert(!crate::text::in_class(w[0], true, "<"@));
    if words.len() == 1 {
        assert(s == w);
        assert forall|k: int| 0 <= k < s.len() implies #[trigger] s[k] != '<' && s[k] != '\n' by {
            assert(!crate::text::in_class(w[k], true, "<"@));
        }
    } else {
        let d = words.drop_last();
        assert forall|i: int| 0 <= i < d.len() implies (#[trigger] d[i]).len() > 0 && free_of(
            d[i],
            true,
            "<"@,
        ) by {
            assert(d[i] == words[i]);
        }
        lemma_headline_chars(d);
        let head = joined(d, " "@);
        assert forall|k: int| 0 <= k < s.len() implies #[trigger] s[k] != '<' && s[k] != '\n' by {
            if k < head.len() {
                assert(s[k] == head[k]);
            } else if k == head.len() {
                assert(s[k] == ' ');
            } else {
                assert(s[k] == w[k - head.len() - 1]);
                assert(!crate::text::in_class(w[k - head.len() - 1], true, "<"@));
            }
        }
        assert(s[0] == head[0]);
        assert(s.last() == w.last());
    }
}

proof fn lemma_headline_words(words: Seq<Seq<char>>)
    requires
        words.len() > 0,
        forall|i: int|
            0 <= i < words.len() ==> (#[trigger] words[i]).len() > 0 && free_of(
                words[i],
                true,
                "<"@,
            ),
    ensures
        words_of(joined(words, " "@)) == words,
{
    reveal_strlit(" ");
    assert(" "@ =~= seq![' ']);
    assert forall|i: int| 0 <= i < words.len() implies (#[trigger] words[i]).len() > 0 && free_of(
        words[i],
        true,
        Seq::empty(),
    ) by {
        let w = words[i];
        assert forall|k: int| 0 <= k < w.len() implies !crate::text::in_class(
            #[trigger] w[k],
            true,
            Seq::empty(),
        ) by {
            assert(!crate::text::in_class(w[k], true, "<"@));
        }
    }
    crate::text::words_undo_join(words);
}

/// A plain headline is the title, as far as it fits: its first five words, and all of it
/// where it has no more than five words and forty characters.
pub proof fn a_headline_is_the_title(words: Seq<Seq<char>>)
    requires
        is_headline(words),
    ensures
        words.len() <= 5 && joined(words, " "@).len() <= 40 ==> title_of(joined(words, " "@))
            == joined(words, " "@),
        words.len() > 5 && joined(words.take(5), " "@).len() <= 40 ==> title_of(
            joined(words, " "@),
        ) == joined(words.take(5), " "@),
{
    let s = joined(words, " "@);
    lemma_headline_chars(words);
    lemma_headline_words(words);
    reveal_strlit("<think>");
    assert forall|i: int| !crate::text::occurs_at(lowered(s), "<think>"@, i) by {
        if crate::text::occurs_at(lowered(s), "<think>"@, i) {
            assert(lowered(s).subrange(i, i + 7)[0] == '<');
            lemma_low_mark(s, i);
        }
    }
    no_think_no_change(s);
    reveal_strlit("\n");
    assert("\n"@ =~= seq!['\n']);
    assert(free_of(s, false, "\n"@)) by {
        assert forall|k: int| 0 <= k < s.len() implies !crate::text::in_class(
            #[trigger] s[k],
            false,
            "\n"@,
        ) by {
            assert(s[k] != '\n');
        }
    }
    crate::text::lemma_split_free(s, false, "\n"@);
    assert(crate::text::is_item(s));
    let one = seq![s];
    assert forall|i: int| 0 <= i < one.len() implies crate::text::is_item(#[trigger] one[i]) by {}
    crate::text::lemma_items_kept(one);
    assert(first_line(s) == s);
    let set = "\"'*#-`:"@;
    assert(without_prefix(s, true, set) == s);
    assert(without_suffix(s, true, set) == s);
    assert(without_suffix(s, false, ".:!?"@) == s);
    crate::text::lemma_item_trimmed(s);
    assert(bare_line(s) == s);
}

/// Quotation marks around an answer are not part of the title.
pub proof fn quotes_are_taken_off(words: Seq<Seq<char>>)
    requires
        is_headline(words),
        words.len() <= 5,
        joined(words, " "@).len() <= 40,
    ensures
        title_of(seq!['"'] + joined(words, " "@) + seq!['"']) == joined(words, " "@),
{
    let t = joined(words, " "@);
    let s = seq!['"'] + t + seq!['"'];
    lemma_headline_chars(words);
    lemma_headline_words(words);
    reveal_strlit("<think>");
    assert forall|k: int| 0 <= k < s.len() implies #[trigger] s[k] != '<' && s[k] != '\n' by {
        if 0 < k < s.len() - 1 {
            assert(s[k] == t[k - 1]);
        }
    }
    assert forall|i: int| !crate::text::occurs_at(lowered(s), "<think>"@, i) by {
        if crate::text::occurs_at(lowered(s), "<think>"@, i) {
            assert(lowered(s).subrange(i, i + 7)[0] == '<');
            lemma_low_mark(s, i);
        }
    }
    no_think_no_change(s);
    reveal_strlit("\n");
    assert("\n"@ =~= seq!['\n']);
    assert(free_of(s, false, "\n"@)) by {
        assert forall|k: int| 0 <= k < s.len() implies !crate::text::in_class(
            #[trigger] s[k],
            false,
            "\n"@,
        ) by {
            assert(s[k] != '\n');
        }
    }
    crate::text::lemma_split_free(s, false, "\n"@);
    assert(s[0] == '"' && s.last() == '"');
    assert(crate::text::is_item(s));
    let one = seq![s];
    assert forall|i: int| 0 <= i < one.len() implies crate::text::is_item(#[trigger] one[i]) by {}
    crate::text::lemma_items_kept(one);
    assert(first_line(s) == s);
    let set = "\"'*#-`:"@;
    reveal_strlit("\"'*#-`:");
    assert(set[0] == '"');
    assert(set.contains('"'));
    let u = t + seq!['"'];
    assert(s.drop_first() =~= u);
    assert(u[0] == t[0]);
    assert(!crate::text::in_class(t[0], true, set));
    assert(without_prefix(u, true, set) == u);
    assert(without_prefix(s, true, set) == u);
    assert(u.drop_last() =~= t);
    assert(u.last() == '"');
    assert(!crate::text::in_class(t.last(), true, set));
    assert(without_suffix(t, true, set) == t);
    assert(without_suffix(u, true, set) == t);
    assert(without_suffix(t, false, ".:!?"@) == t);
    crate::text::lemma_item_trimmed(t);
    assert(bare_line(s) == t);
}

/// A title is asked of the model that is named, about the message that was sent, with the
/// thinking switched off.
pub proof fn a_title_is_asked_about_the_message(model: Seq<char>, message: Seq<char>)
    ensures
        shows(title_request_text(model, message), json_text(model)),
        shows(title_request_text(model, message), json_text(message + "\n\n/no_think"@)),
        shows(title_request_text(model, message), json_text(system_prompt())),
{
    broadcast use group_shows;

}

/// The parts of a reply are read from where a server puts them; what is not there is
/// blank.
pub proof fn a_reply_is_read(bytes: &[u8], r: Option<UpstreamReply>, url: String, base: &str)
    requires
        call_ensures(read_reply, (bytes,), r),
        call_ensures(completions_url, (base,), url),
    ensures
        url@ == base@ + "/chat/completions"@,
        r is Some <==> json_bytes_at(bytes@, ""@) is Some,
        r is Some ==> {
            let content = json_bytes_at(bytes@, "/choices/0/message/content"@);
            let thoughts = json_bytes_at(bytes@, "/choices/0/message/reasoning_content"@);
            let reason = json_bytes_at(bytes@, "/choices/0/finish_reason"@);
            &&& content matches Some(Some(t)) ==> r->0.content@ == t
            &&& !(content matches Some(Some(_))) ==> r->0.content@.len() == 0
            &&& thoughts matches Some(Some(t)) ==> r->0.reasoning_content@ == t
            &&& !(thoughts matches Some(Some(_))) ==> r->0.reasoning_content@.len() == 0
            &&& reason matches Some(Some(t)) ==> r->0.finish_reason@ == t
            &&& !(reason matches Some(Some(_))) ==> r->0.finish_reason@.len() == 0
        },
{
}

/// A server that refuses is quoted with its status and the beginning of what it said.
pub proof fn a_refusing_server_is_quoted(status: &str, body: &[u8], r: String)
    requires
        call_ensures(upstream_error, (status, body), r),
        valid_utf8(body@),
    ensures
        decode_utf8(body@).len() <= 120 ==> r@ == "upstream "@ + status@ + ": "@ + decode_utf8(
            body@,
        ),
        decode_utf8(body@).len() > 120 ==> r@ == "upstream "@ + status@ + ": "@ + decode_utf8(
            body@,
        ).take(120),
{
}

} // verus!
