//! Lists that are written one entry per line, as `name=value` or a bare name.
use crate::text::{
    free_of, in_class, is_item, items_of, join, joined, lemma_first_index_at, lemma_item_trimmed,
    lemma_items_kept, opt_text, split_first, split_items, split_once, split_parts,
    split_undoes_join, texts, trim, trimmed, trimmed_nonempty,
};
use vstd::prelude::*;

verus! {

/// An entry.
pub struct Line {
    pub name: String,
    pub value: Option<String>,
}

/// An entry over texts.
pub ghost struct LineView {
    pub name: Seq<char>,
    pub value: Option<Seq<char>>,
}

impl View for Line {
    type V = LineView;

    open spec fn view(&self) -> LineView {
        LineView { name: self.name@, value: opt_text(self.value) }
    }
}

/// The views of a list of entries.
pub open spec fn line_views(v: Seq<Line>) -> Seq<LineView> {
    v.map_values(|l: Line| l@)
}

/// The entry that a line stands for.
pub open spec fn entry_of(line: Seq<char>) -> LineView {
    match split_first(line, '=') {
        Some((n, v)) => LineView { name: trimmed(n), value: Some(trimmed(v)) },
        None => LineView { name: line, value: None },
    }
}

/// The entries of a text. Blank lines stand for none.
pub open spec fn entries_of(text: Seq<char>) -> Seq<LineView> {
    items_of(text, "\n"@).map_values(|line: Seq<char>| entry_of(line))
}

/// Reads the entries of a text.
pub fn read_lines(text: &str) -> (r: Vec<Line>)
    ensures
        line_views(r@) == entries_of(text@),
{
    let items = split_items(text, "\n");
    let ghost view = items_of(text@, "\n"@);
    let mut out: Vec<Line> = Vec::new();
    assert(texts(items@).len() == items@.len());
    for i in 0..items.len()
        invariant
            texts(items@) == view,
            items@.len() == view.len(),
            line_views(out@) == view.take(i as int).map_values(|line: Seq<char>| entry_of(line)),
    {
        assert(view[i as int] == items@[i as int]@);
        let ghost before = line_views(out@);
        let entry = match split_once(&items[i], '=') {
            Some((n, v)) => Line { name: trim(&n), value: Some(trim(&v)) },
            None => Line { name: items[i].clone(), value: None },
        };
        let ghost ev = entry@;
        out.push(entry);
        proof {
            assert(line_views(out@) =~= before.push(ev));
            assert(line_views(out@) =~= view.take(i + 1).map_values(
                |line: Seq<char>| entry_of(line),
            ));
        }
    }
    assert(view.take(view.len() as int) =~= view);
    out
}

/// The line for an entry.
pub open spec fn line_of(entry: LineView) -> Seq<char> {
    match entry.value {
        Some(v) => entry.name + "="@ + v,
        None => entry.name,
    }
}

/// The lines for entries.
pub open spec fn lines_of(entries: Seq<LineView>) -> Seq<Seq<char>> {
    entries.map_values(|e: LineView| line_of(e))
}

/// Writes entries, one per line.
pub fn write_lines(entries: &Vec<Line>) -> (r: String)
    ensures
        r@ == joined(lines_of(line_views(entries@)), "\n"@),
{
    let mut out: Vec<String> = Vec::new();
    let ghost view = line_views(entries@);
    for i in 0..entries.len()
        invariant
            view == line_views(entries@),
            texts(out@) == lines_of(view.take(i as int)),
    {
        let ghost before = texts(out@);
        assert(view[i as int] == entries@[i as int]@);
        let mut line = entries[i].name.clone();
        if let Some(v) = &entries[i].value {
            line.append("=");
            line.append(v);
        }
        let ghost lv = line@;
        out.push(line);
        proof {
            assert(texts(out@) =~= before.push(lv));
            assert(texts(out@) =~= lines_of(view.take(i + 1)));
        }
    }
    assert(view.take(view.len() as int) =~= view);
    join(&out, "\n")
}

// ---------------------------------------------------------------------------
// Laws

/// A text that trimming leaves alone.
pub open spec fn tidy(s: Seq<char>) -> bool {
    s.len() == 0 || is_item(s)
}

/// An entry that a line can stand for.
pub open spec fn writable(entry: LineView) -> bool {
    &&& tidy(entry.name)
    &&& !entry.name.contains('=')
    &&& !entry.name.contains('\n')
    &&& match entry.value {
        Some(v) => tidy(v) && !v.contains('\n'),
        None => entry.name.len() > 0,
    }
}

proof fn lemma_tidy(s: Seq<char>)
    requires
        tidy(s),
    ensures
        trimmed(s) == s,
{
    if s.len() > 0 {
        lemma_item_trimmed(s);
    } else {
        assert(trimmed(s) =~= s);
    }
}

proof fn lemma_line(entry: LineView)
    requires
        writable(entry),
    ensures
        is_item(line_of(entry)),
        free_of(line_of(entry), false, "\n"@),
        entry_of(line_of(entry)) == entry,
{
    reveal_strlit("=");
    reveal_strlit("\n");
    assert("="@ =~= seq!['=']);
    assert("\n"@ =~= seq!['\n']);
    let line = line_of(entry);
    let n = entry.name;
    match entry.value {
        Some(v) => {
            assert(line =~= n + seq!['='] + v);
            assert(line[n.len() as int] == '=');
            assert forall|j: int| 0 <= j < n.len() implies #[trigger] line[j] != '=' by {
                assert(line[j] == n[j]);
                assert(n.contains(n[j]));
            }
            lemma_first_index_at(line, '=', n.len() as int);
            assert(line.take(n.len() as int) =~= n);
            assert(line.skip(n.len() + 1int) =~= v);
            lemma_tidy(n);
            lemma_tidy(v);
            assert(line[0] == (if n.len() > 0 {
                n[0]
            } else {
                '='
            }));
            assert(line.last() == (if v.len() > 0 {
                v.last()
            } else {
                '='
            }));
            assert forall|i: int| 0 <= i < line.len() implies !in_class(
                #[trigger] line[i],
                false,
                "\n"@,
            ) by {
                if i < n.len() {
                    assert(line[i] == n[i] && n.contains(n[i]));
                } else if i > n.len() {
                    assert(line[i] == v[i - n.len() - 1] && v.contains(v[i - n.len() - 1]));
                }
            }
        },
        None => {
            assert forall|j: int| 0 <= j < n.len() implies #[trigger] n[j] != '=' by {
                assert(n.contains(n[j]));
            }
            lemma_first_index_at(n, '=', n.len() as int);
            assert forall|i: int| 0 <= i < line.len() implies !in_class(
                #[trigger] line[i],
                false,
                "\n"@,
            ) by {
                assert(n.contains(n[i]));
            }
        },
    }
}

/// What was written is read: writable entries come back as they were.
pub proof fn lines_read_back(entries: Seq<LineView>)
    requires
        forall|i: int| 0 <= i < entries.len() ==> writable(#[trigger] entries[i]),
    ensures
        entries_of(joined(lines_of(entries), "\n"@)) == entries,
{
    reveal_strlit("\n");
    assert("\n"@ =~= seq!['\n']);
    let lines = lines_of(entries);
    let text = joined(lines, "\n"@);
    if entries.len() == 0 {
        assert(text =~= Seq::<char>::empty());
        crate::text::lemma_split_free(text, false, "\n"@);
        let parts = split_parts(text, false, "\n"@);
        assert(parts =~= seq![text]);
        assert(parts.drop_last() =~= Seq::<Seq<char>>::empty());
        lemma_tidy(text);
        assert(trimmed_nonempty(parts.drop_last()) =~= Seq::<Seq<char>>::empty());
        assert(entries_of(text) =~= entries);
    } else {
        assert forall|i: int| 0 <= i < lines.len() implies free_of(#[trigger] lines[i], false, "\n"@)
            && is_item(lines[i]) by {
            lemma_line(entries[i]);
        }
        assert(in_class('\n', false, "\n"@)) by {
            assert("\n"@[0] == '\n');
        }
        split_undoes_join(lines, '\n', false, "\n"@);
        lemma_items_kept(lines);
        assert(items_of(text, "\n"@) == lines);
        assert forall|i: int| 0 <= i < entries.len() implies #[trigger] entries_of(text)[i]
            == entries[i] by {
            lemma_line(entries[i]);
        }
        assert(entries_of(text) =~= entries);
    }
}

/// A list that is written and read again is the same list.
pub proof fn a_written_list_is_read(
    entries: &Vec<Line>,
    written: String,
    text: &str,
    read: Vec<Line>,
)
    requires
        forall|i: int| 0 <= i < entries@.len() ==> writable((#[trigger] entries@[i])@),
        call_ensures(write_lines, (entries,), written),
        text@ == written@,
        call_ensures(read_lines, (text,), read),
    ensures
        line_views(read@) == line_views(entries@),
{
    let v = line_views(entries@);
    assert forall|i: int| 0 <= i < v.len() implies writable(#[trigger] v[i]) by {
        assert(v[i] == entries@[i]@);
    }
    lines_read_back(v);
}

} // verus!
