//! Searchable collections of repositories.
//!
//! A versioned collection indexes branches and tags of one repository, each on
//! its own. An aggregate collection indexes many repositories into one corpus,
//! which its primary source carries: every source then shows the primary's
//! state, see [`status_source`].
use crate::admin::{choices, render_choices};
use crate::forms::{csv_items, parse_csv};
use crate::html::{escaped, Html, Ui};
use crate::integrations::{is_listed, listed};
use crate::json::{json_list, write_list};
use crate::moment::{utc_text, Moment};
use crate::notice::{said, Notice};
use crate::num::{decimal, show_u64, signed_decimal};
use crate::scheduled::length_ok;
use crate::text::{
    byte_len, clean, clip, clipped, clone_opt, contains, contains_text, free_of, in_class, items_of,
    join, joined, lemma_item_trimmed, nonblank, occurs_at, opt_text, split, split_items, split_parts,
    split_words, string_or_empty, stripping_takes_the_prefix_only, text_or_empty, texts, trim,
    trimmed, utf8_len, without_prefix, words_of, words_undo_join,
};
use crate::updates::{
    only_toast, pair, patch, single, toast, views, FlashKind, StoreOutcome, Update, UpdateView,
};
use crate::markup::{ends_in, group_shows, shows, starts_as};
use vstd::prelude::*;

verus! {

// ---------------------------------------------------------------------------
// Collections and sources

/// What a search covers.
#[derive(Clone, Copy, PartialEq, Eq, Structural, Debug)]
pub enum SearchMode {
    /// One branch or tag of one repository.
    Versioned,
    /// Many repositories at once.
    Aggregate,
}

/// Where a build stands.
#[derive(Clone, Copy, PartialEq, Eq, Structural, Debug)]
pub enum CollectionStatus {
    Pending,
    Cloning,
    Indexing,
    Ready,
    Error,
}

/// A collection.
pub struct Collection {
    pub id: i64,
    pub name: String,
    pub description: Option<String>,
    pub git_url: String,
    pub git_ref: String,
    pub pat: Option<String>,
    pub embedding_model: String,
    pub include_globs: Vec<String>,
    pub exclude_globs: Vec<String>,
    pub chunk_size: i64,
    pub chunk_overlap: i64,
    pub search_mode: SearchMode,
    pub status: CollectionStatus,
    pub allowed_groups: Vec<String>,
}

/// One branch, tag or source of a collection.
pub struct CollectionRef {
    pub id: i64,
    pub collection_id: i64,
    pub git_ref: String,
    pub git_url: Option<String>,
    /// The short name of the repository it comes from.
    pub source_label: String,
    pub is_primary: bool,
    pub status: CollectionStatus,
    pub last_indexed_at: Option<Moment>,
    pub last_indexed_commit: Option<String>,
    pub last_error: Option<String>,
}

// ---------------------------------------------------------------------------
// The forms of a collection

/// The form for a new collection.
pub struct CreateForm {
    pub name: String,
    pub description: Option<String>,
    pub git_url: String,
    pub git_ref: Option<String>,
    pub pat: Option<String>,
    pub embedding_model: String,
    pub include_globs: Option<String>,
    pub exclude_globs: Option<String>,
    pub chunk_size: Option<i64>,
    pub chunk_overlap: Option<i64>,
    pub aggregate: Option<String>,
}

/// A new collection.
pub struct NewCollection {
    pub name: String,
    pub description: Option<String>,
    pub git_url: String,
    pub git_ref: String,
    pub pat: Option<String>,
    pub embedding_model: String,
    pub include_globs: Vec<String>,
    pub exclude_globs: Vec<String>,
    pub chunk_size: i64,
    pub chunk_overlap: i64,
    pub search_mode: SearchMode,
}

/// The patterns of a glob field: separated by commas or line ends, trimmed,
/// empties dropped.
pub open spec fn globs_of(raw: Option<Seq<char>>) -> Seq<Seq<char>> {
    items_of(text_or_empty(raw), ",\n"@)
}

/// Splits a glob field into its patterns.
pub fn split_globs(raw: &Option<String>) -> (r: Vec<String>)
    ensures
        texts(r@) == globs_of(opt_text(*raw)),
{
    split_items(&string_or_empty(raw), ",\n")
}

/// A submitted number, or the default.
pub open spec fn number_or(n: Option<i64>, default: i64) -> i64 {
    match n {
        Some(v) => v,
        None => default,
    }
}

/// A text field, or the default when it is blank.
pub open spec fn text_or(v: Option<Seq<char>>, default: Seq<char>) -> Seq<char> {
    match nonblank(v) {
        Some(s) => s,
        None => default,
    }
}

fn clean_or(v: &Option<String>, default: &str) -> (r: String)
    ensures
        r@ == text_or(opt_text(*v), default@),
{
    match clean(v) {
        Some(s) => s,
        None => default.to_owned(),
    }
}

/// What is wrong with the chunk sizes: the size runs from 1 to 8000, the
/// overlap stays below it.
pub open spec fn chunk_fault(size: i64, overlap: i64) -> Option<Seq<char>> {
    if !(0 < size <= 8000) {
        Some("rag-toast-chunk-size-range"@)
    } else if !(0 <= overlap < size) {
        Some("rag-toast-chunk-overlap-range"@)
    } else {
        None
    }
}

/// What a form for a new collection asks for.
pub open spec fn form_mode(form: CreateForm) -> SearchMode {
    if form.aggregate is Some {
        SearchMode::Aggregate
    } else {
        SearchMode::Versioned
    }
}

/// The first thing that is wrong with a form for a new collection. A versioned
/// collection needs a repository; the sources of an aggregate one bring theirs.
pub open spec fn create_fault(form: CreateForm) -> Option<Seq<char>> {
    if !length_ok(trimmed(form.name@), 64) {
        Some("rag-toast-name-length"@)
    } else if trimmed(form.git_url@).len() == 0 && form_mode(form) == SearchMode::Versioned {
        Some("rag-toast-git-url-required"@)
    } else if trimmed(form.embedding_model@).len() == 0 {
        Some("rag-toast-embedding-model-required"@)
    } else {
        chunk_fault(number_or(form.chunk_size, 800), number_or(form.chunk_overlap, 100))
    }
}

fn check_chunks(size: i64, overlap: i64) -> (r: Option<Notice>)
    ensures
        match r {
            Some(n) => chunk_fault(size, overlap) is Some && n@ == said(
                false,
                chunk_fault(size, overlap)->0,
            ),
            None => chunk_fault(size, overlap) is None,
        },
{
    if size <= 0 || size > 8000 {
        Some(Notice::plain(false, "rag-toast-chunk-size-range"))
    } else if overlap < 0 || overlap >= size {
        Some(Notice::plain(false, "rag-toast-chunk-overlap-range"))
    } else {
        None
    }
}

/// Checks the form for a new collection.
pub fn validate(form: CreateForm) -> (r: Result<NewCollection, Notice>)
    ensures
        r is Ok <==> create_fault(form) is None,
        match r {
            Err(n) => n@ == said(false, create_fault(form)->0),
            Ok(c) => {
                &&& c.name@ == trimmed(form.name@)
                &&& opt_text(c.description) == nonblank(opt_text(form.description))
                &&& c.git_url@ == trimmed(form.git_url@)
                &&& c.git_ref@ == text_or(opt_text(form.git_ref), "main"@)
                &&& opt_text(c.pat) == nonblank(opt_text(form.pat))
                &&& c.embedding_model@ == trimmed(form.embedding_model@)
                &&& texts(c.include_globs@) == globs_of(opt_text(form.include_globs))
                &&& texts(c.exclude_globs@) == globs_of(opt_text(form.exclude_globs))
                &&& c.chunk_size == number_or(form.chunk_size, 800)
                &&& c.chunk_overlap == number_or(form.chunk_overlap, 100)
                &&& c.search_mode == form_mode(form)
            },
        },
{
    let name = trim(&form.name);
    if name.as_str().is_empty() || byte_len(&name) > 64 {
        return Err(Notice::plain(false, "rag-toast-name-length"));
    }
    let search_mode = if form.aggregate.is_some() {
        SearchMode::Aggregate
    } else {
        SearchMode::Versioned
    };
    let git_url = trim(&form.git_url);
    if git_url.as_str().is_empty() && search_mode == SearchMode::Versioned {
        return Err(Notice::plain(false, "rag-toast-git-url-required"));
    }
    let embedding_model = trim(&form.embedding_model);
    if embedding_model.as_str().is_empty() {
        return Err(Notice::plain(false, "rag-toast-embedding-model-required"));
    }
    let chunk_size: i64 = match form.chunk_size {
        Some(n) => n,
        None => 800,
    };
    let chunk_overlap: i64 = match form.chunk_overlap {
        Some(n) => n,
        None => 100,
    };
    if let Some(n) = check_chunks(chunk_size, chunk_overlap) {
        return Err(n);
    }
    Ok(
        NewCollection {
            name,
            description: clean(&form.description),
            git_url,
            git_ref: clean_or(&form.git_ref, "main"),
            pat: clean(&form.pat),
            embedding_model,
            include_globs: split_globs(&form.include_globs),
            exclude_globs: split_globs(&form.exclude_globs),
            chunk_size,
            chunk_overlap,
            search_mode,
        },
    )
}

/// Whether the words of a database error say that something is there already.
pub open spec fn says_exists(error: Seq<char>) -> bool {
    contains_text(error, "UNIQUE"@) || contains_text(error, "constraint"@)
}

fn check_exists(error: &str) -> (r: bool)
    ensures
        r == says_exists(error@),
{
    contains(error, "UNIQUE") || contains(error, "constraint")
}

/// What is said when a collection could not be stored.
pub fn create_failed(error: &str, name: &str) -> (r: Notice)
    ensures
        r@ == (if says_exists(error@) {
            said(false, "rag-toast-name-exists"@).with("name"@, name@)
        } else {
            said(false, "rag-toast-create-failed"@)
        }),
{
    if check_exists(error) {
        Notice::plain(false, "rag-toast-name-exists").and("name", name)
    } else {
        Notice::plain(false, "rag-toast-create-failed")
    }
}

/// The branch or tag that a new collection starts with: a versioned one indexes
/// its own at once, an aggregate one starts without sources.
pub fn first_ref(new: &NewCollection) -> (r: Option<String>)
    ensures
        r == (if new.search_mode == SearchMode::Versioned {
            Some(new.git_ref)
        } else {
            None
        }),
{
    if new.search_mode == SearchMode::Versioned {
        Some(new.git_ref.clone())
    } else {
        None
    }
}

/// What is said once a collection was stored.
pub fn created_notice(mode: SearchMode, name: &str, git_ref: &str) -> (r: Notice)
    ensures
        r@ == (if mode == SearchMode::Versioned {
            said(true, "rag-toast-indexing-queued"@).with("name"@, name@).with("ref"@, git_ref@)
        } else {
            said(true, "rag-toast-created-aggregate"@).with("name"@, name@)
        }),
{
    if mode == SearchMode::Versioned {
        Notice::plain(true, "rag-toast-indexing-queued").and("name", name).and("ref", git_ref)
    } else {
        Notice::plain(true, "rag-toast-created-aggregate").and("name", name)
    }
}

/// The form of an existing collection.
pub struct UpdateForm {
    pub description: Option<String>,
    pub git_url: String,
    pub git_ref: Option<String>,
    pub pat: Option<String>,
    pub clear_pat: Option<String>,
    pub embedding_model: String,
    pub include_globs: Option<String>,
    pub exclude_globs: Option<String>,
    pub chunk_size: Option<i64>,
    pub chunk_overlap: Option<i64>,
    pub allowed_groups: Option<String>,
}

/// What is stored of an edited collection; the patterns as JSON.
pub struct CollectionEdit {
    pub description: Option<String>,
    pub git_url: String,
    pub git_ref: String,
    pub pat: Option<String>,
    pub embedding_model: String,
    pub include_globs_json: String,
    pub exclude_globs_json: String,
    pub chunk_size: i64,
    pub chunk_overlap: i64,
    pub allowed_groups: Vec<String>,
}

/// The first thing that is wrong with an edited collection.
pub open spec fn update_fault(form: UpdateForm, existing: &Collection) -> Option<Seq<char>> {
    if trimmed(form.git_url@).len() == 0 && existing.search_mode == SearchMode::Versioned {
        Some("rag-toast-git-url-required"@)
    } else if trimmed(form.embedding_model@).len() == 0 {
        Some("rag-toast-embedding-model-required"@)
    } else {
        chunk_fault(
            number_or(form.chunk_size, existing.chunk_size),
            number_or(form.chunk_overlap, existing.chunk_overlap),
        )
    }
}

/// The access token to store: cleared if asked for, else the new one, else the
/// stored one.
pub open spec fn kept_pat(form: UpdateForm, stored: Option<String>) -> Option<Seq<char>> {
    if form.clear_pat is Some {
        None
    } else if nonblank(opt_text(form.pat)) is Some {
        nonblank(opt_text(form.pat))
    } else {
        opt_text(stored)
    }
}

/// Whether an edit is what a form asks for.
pub open spec fn edit_asked(form: UpdateForm, existing: &Collection, edit: CollectionEdit) -> bool {
    &&& opt_text(edit.description) == nonblank(opt_text(form.description))
    &&& edit.git_url@ == trimmed(form.git_url@)
    &&& edit.git_ref@ == text_or(opt_text(form.git_ref), "main"@)
    &&& opt_text(edit.pat) == kept_pat(form, existing.pat)
    &&& edit.embedding_model@ == trimmed(form.embedding_model@)
    &&& edit.include_globs_json@ == json_list(globs_of(opt_text(form.include_globs)))
    &&& edit.exclude_globs_json@ == json_list(globs_of(opt_text(form.exclude_globs)))
    &&& edit.chunk_size == number_or(form.chunk_size, existing.chunk_size)
    &&& edit.chunk_overlap == number_or(form.chunk_overlap, existing.chunk_overlap)
    &&& texts(edit.allowed_groups@) == csv_items(text_or_empty(opt_text(form.allowed_groups)))
}

/// Checks the form of an existing collection.
pub fn read_update(form: &UpdateForm, existing: &Collection) -> (r: Result<CollectionEdit, Notice>)
    ensures
        r is Ok <==> update_fault(*form, existing) is None,
        match r {
            Err(n) => n@ == said(false, update_fault(*form, existing)->0),
            Ok(edit) => edit_asked(*form, existing, edit),
        },
{
    let git_url = trim(&form.git_url);
    if git_url.as_str().is_empty() && existing.search_mode == SearchMode::Versioned {
        return Err(Notice::plain(false, "rag-toast-git-url-required"));
    }
    let embedding_model = trim(&form.embedding_model);
    if embedding_model.as_str().is_empty() {
        return Err(Notice::plain(false, "rag-toast-embedding-model-required"));
    }
    let chunk_size: i64 = match form.chunk_size {
        Some(n) => n,
        None => existing.chunk_size,
    };
    let chunk_overlap: i64 = match form.chunk_overlap {
        Some(n) => n,
        None => existing.chunk_overlap,
    };
    if let Some(n) = check_chunks(chunk_size, chunk_overlap) {
        return Err(n);
    }
    let pat = if form.clear_pat.is_some() {
        None
    } else {
        match clean(&form.pat) {
            Some(p) => Some(p),
            None => clone_opt(&existing.pat),
        }
    };
    Ok(
        CollectionEdit {
            description: clean(&form.description),
            git_url,
            git_ref: clean_or(&form.git_ref, "main"),
            pat,
            embedding_model,
            include_globs_json: write_list(&split_globs(&form.include_globs)),
            exclude_globs_json: write_list(&split_globs(&form.exclude_globs)),
            chunk_size,
            chunk_overlap,
            allowed_groups: parse_csv(&string_or_empty(&form.allowed_groups)),
        },
    )
}

/// The embedding model that the form for a new collection starts with: the
/// configured one, if it is still served. There is no fallback: the wrong model
/// would spoil a collection.
pub fn default_embedding(configured: &Option<String>, models: &Vec<String>) -> (r: Option<String>)
    ensures
        r == (match *configured {
            Some(m) => if listed(models@, m@) {
                Some(m)
            } else {
                None
            },
            None => None,
        }),
{
    match configured {
        Some(m) => if is_listed(models, m) {
            Some(m.clone())
        } else {
            None
        },
        None => None,
    }
}

// ---------------------------------------------------------------------------
// The sources of a collection

/// A source to add.
pub struct NewRef {
    pub git_ref: String,
    pub git_url: Option<String>,
}

/// Reads the form for one more source.
pub fn read_add_ref(git_ref: &str, git_url: &Option<String>) -> (r: Result<NewRef, Notice>)
    ensures
        r is Err <==> trimmed(git_ref@).len() == 0,
        match r {
            Ok(n) => n.git_ref@ == trimmed(git_ref@) && opt_text(n.git_url) == nonblank(
                opt_text(*git_url),
            ),
            Err(n) => n@ == said(false, "rag-toast-ref-required"@),
        },
{
    let t = trim(git_ref);
    if t.as_str().is_empty() {
        Err(Notice::plain(false, "rag-toast-ref-required"))
    } else {
        Ok(NewRef { git_ref: t, git_url: clean(git_url) })
    }
}

/// What is said when a source could not be stored.
pub fn add_ref_failed(error: &str, git_ref: &str) -> (r: Notice)
    ensures
        r@ == (if says_exists(error@) {
            said(false, "rag-toast-ref-exists"@).with("ref"@, git_ref@)
        } else {
            said(false, "rag-toast-add-ref-failed"@)
        }),
{
    if check_exists(error) {
        Notice::plain(false, "rag-toast-ref-exists").and("ref", git_ref)
    } else {
        Notice::plain(false, "rag-toast-add-ref-failed")
    }
}

/// One line of a bulk form: an address, and a branch or tag that may begin with
/// `@`. Blank lines and lines that begin with `#` stand for nothing.
pub open spec fn bulk_line(line: Seq<char>, default_ref: Seq<char>) -> Option<
    (Seq<char>, Seq<char>),
> {
    let t = trimmed(line);
    let words = words_of(t);
    if t.len() == 0 || t[0] == '#' || words.len() == 0 {
        None
    } else if words.len() == 1 {
        Some((words[0], default_ref))
    } else {
        let named = without_prefix(words[1], false, "@"@);
        Some(
            (
                words[0],
                if named.len() == 0 {
                    default_ref
                } else {
                    named
                },
            ),
        )
    }
}

fn drop_at_signs(s: &str) -> (r: String)
    ensures
        r@ == without_prefix(s@, false, "@"@),
{
    let v = crate::text::chars(s);
    proof {
        reveal_strlit("@");
        assert("@"@ =~= seq!['@']);
        assert("@"@[0] == '@');
        assert(v@.skip(0) =~= v@);
    }
    let mut i: usize = 0;
    let n: usize = v.len();
    while i < n && v[i] == '@'
        invariant
            i <= n,
            n == v@.len(),
            v@ == s@,
            "@"@ == seq!['@'],
            "@"@.contains('@'),
            without_prefix(s@, false, "@"@) == without_prefix(v@.skip(i as int), false, "@"@),
        decreases n - i,
    {
        assert(v@.skip(i as int).drop_first() =~= v@.skip(i + 1));
        i = i + 1;
    }
    let r = crate::text::substring(&v, i, n);
    assert(r@ =~= v@.skip(i as int));
    r
}

/// Reads one line of a bulk form.
pub fn parse_bulk_line(line: &str, default_ref: &str) -> (r: Option<(String, String)>)
    ensures
        r is Some <==> bulk_line(line@, default_ref@) is Some,
        r matches Some(p) ==> bulk_line(line@, default_ref@) == Some((p.0@, p.1@)),
{
    let t = trim(line);
    let v = crate::text::chars(&t);
    if v.len() == 0 || v[0] == '#' {
        return None;
    }
    let words = split_words(&t);
    let ghost view = words_of(t@);
    assert(texts(words@).len() == words@.len());
    if words.len() == 0 {
        return None;
    }
    assert(view[0] == words@[0]@);
    let url = words[0].clone();
    if words.len() == 1 {
        return Some((url, default_ref.to_owned()));
    }
    assert(view[1] == words@[1]@);
    let named = drop_at_signs(&words[1]);
    if named.as_str().is_empty() {
        Some((url, default_ref.to_owned()))
    } else {
        Some((url, named))
    }
}

/// The sources of a bulk form, line by line.
pub open spec fn bulk_lines(lines: Seq<Seq<char>>, default_ref: Seq<char>) -> Seq<
    (Seq<char>, Seq<char>),
>
    decreases lines.len(),
{
    if lines.len() == 0 {
        Seq::empty()
    } else {
        let head = bulk_lines(lines.drop_last(), default_ref);
        match bulk_line(lines.last(), default_ref) {
            Some(p) => head.push(p),
            None => head,
        }
    }
}

/// The sources of a bulk form.
pub open spec fn bulk_sources(sources: Seq<char>, default_ref: Seq<char>) -> Seq<
    (Seq<char>, Seq<char>),
> {
    bulk_lines(split_parts(sources, false, "\n"@), default_ref)
}

/// The views of a list of pairs.
pub open spec fn pairs_view(v: Seq<(String, String)>) -> Seq<(Seq<char>, Seq<char>)> {
    v.map_values(|p: (String, String)| (p.0@, p.1@))
}

/// Reads a bulk form: one source per line, a line without a branch or tag takes
/// that of the collection.
pub fn parse_bulk(sources: &str, default_ref: &str) -> (r: Result<Vec<(String, String)>, Notice>)
    ensures
        r is Err <==> bulk_sources(sources@, default_ref@).len() == 0,
        match r {
            Ok(v) => pairs_view(v@) == bulk_sources(sources@, default_ref@),
            Err(n) => n@ == said(false, "rag-toast-no-source-urls"@),
        },
{
    let lines = split(sources, false, "\n");
    let ghost view = texts(lines@);
    let mut out: Vec<(String, String)> = Vec::new();
    assert(view.take(0) =~= Seq::<Seq<char>>::empty());
    assert(pairs_view(out@) =~= Seq::<(Seq<char>, Seq<char>)>::empty());
    for i in 0..lines.len()
        invariant
            view == texts(lines@),
            pairs_view(out@) == bulk_lines(view.take(i as int), default_ref@),
    {
        proof {
            assert(view.take(i + 1).drop_last() =~= view.take(i as int));
            assert(view.take(i + 1).last() == lines@[i as int]@);
        }
        let ghost before = pairs_view(out@);
        if let Some(p) = parse_bulk_line(&lines[i], default_ref) {
            out.push(p);
            assert(pairs_view(out@) =~= before.push((p.0@, p.1@)));
        }
    }
    assert(view.take(view.len() as int) =~= view);
    assert(pairs_view(out@).len() == out@.len());
    if out.len() == 0 {
        Err(Notice::plain(false, "rag-toast-no-source-urls"))
    } else {
        Ok(out)
    }
}

/// Whether the `i`-th of the sources added at once becomes the primary: the
/// first one, if the collection had none before.
pub open spec fn takes_lead(had_refs: bool, i: int) -> bool {
    !had_refs && i == 0
}

/// Whether the `i`-th of the sources added at once becomes the primary.
pub fn becomes_primary(had_refs: bool, i: usize) -> (r: bool)
    ensures
        r == takes_lead(had_refs, i as int),
{
    !had_refs && i == 0
}

/// What is said once sources were added: how many, and how many were there
/// already.
pub fn bulk_notice(added: u64, skipped: u64) -> (r: Notice)
    ensures
        r@ == (if skipped > 0 {
            said(true, "rag-toast-bulk-queued-skipped"@).with(
                "added"@,
                decimal(added as nat),
            ).with("skipped"@, decimal(skipped as nat))
        } else {
            said(true, "rag-toast-bulk-queued"@).with("added"@, decimal(added as nat))
        }),
{
    if skipped > 0 {
        Notice::plain(true, "rag-toast-bulk-queued-skipped").and("added", &show_u64(added)).and(
            "skipped",
            &show_u64(skipped),
        )
    } else {
        Notice::plain(true, "rag-toast-bulk-queued").and("added", &show_u64(added))
    }
}

/// Which source carries the one index of a collection: its primary in an aggregate
/// collection, none in any other. The mode is absent when the collection cannot be
/// read, the primary when there is none.
pub fn unified_target(mode: Option<SearchMode>, primary: Option<i64>) -> (r: Option<i64>)
    ensures
        r == (if mode == Some(SearchMode::Aggregate) {
            primary
        } else {
            None
        }),
{
    match mode {
        Some(SearchMode::Aggregate) => primary,
        Some(SearchMode::Versioned) => None,
        None => None,
    }
}

/// Which source is rebuilt when one changes: in an aggregate collection the
/// primary, which carries the one index; else the source itself.
pub fn rebuild_target(mode: Option<SearchMode>, primary: Option<i64>, ref_id: i64) -> (r: i64)
    ensures
        r == (if mode == Some(SearchMode::Aggregate) && primary is Some {
            primary->0
        } else {
            ref_id
        }),
{
    match unified_target(mode, primary) {
        Some(p) => p,
        None => ref_id,
    }
}

/// The form of an existing source.
pub struct RefUpdateForm {
    pub git_url: Option<String>,
    pub git_ref: Option<String>,
}

/// Reads the form of an existing source. A blank branch keeps the stored one; a
/// blank address means that of the collection, which an aggregate collection
/// does not have. `mode` is absent when the collection cannot be read.
pub fn read_ref_update(
    form: &RefUpdateForm,
    existing: &CollectionRef,
    mode: Option<SearchMode>,
) -> (r: Result<NewRef, Notice>)
    ensures
        r is Err <==> nonblank(opt_text(form.git_url)) is None && mode == Some(
            SearchMode::Aggregate,
        ),
        match r {
            Ok(n) => n.git_ref@ == text_or(opt_text(form.git_ref), existing.git_ref@) && opt_text(
                n.git_url,
            ) == nonblank(opt_text(form.git_url)),
            Err(n) => n@ == said(false, "rag-toast-git-url-required-aggregate"@),
        },
{
    let git_ref = clean_or(&form.git_ref, &existing.git_ref);
    let git_url = clean(&form.git_url);
    if git_url.is_none() {
        if let Some(m) = mode {
            if m == SearchMode::Aggregate {
                return Err(Notice::plain(false, "rag-toast-git-url-required-aggregate"));
            }
        }
    }
    Ok(NewRef { git_ref, git_url })
}

// ---------------------------------------------------------------------------
// Badges

impl CollectionStatus {
    /// The look of the badge.
    pub open spec fn look(&self) -> Seq<char> {
        match self {
            CollectionStatus::Pending => "badge badge-outline"@,
            CollectionStatus::Cloning => "badge badge-info"@,
            CollectionStatus::Indexing => "badge badge-info"@,
            CollectionStatus::Ready => "badge badge-success"@,
            CollectionStatus::Error => "badge badge-error"@,
        }
    }

    /// The message key of the badge.
    pub open spec fn label(&self) -> Seq<char> {
        match self {
            CollectionStatus::Pending => "rag-status-pending"@,
            CollectionStatus::Cloning => "rag-status-cloning"@,
            CollectionStatus::Indexing => "rag-status-indexing"@,
            CollectionStatus::Ready => "rag-status-ready"@,
            CollectionStatus::Error => "rag-status-error"@,
        }
    }

    fn badge_parts(&self) -> (r: (&'static str, &'static str))
        ensures
            r.0@ == self.look(),
            r.1@ == self.label(),
    {
        match self {
            CollectionStatus::Pending => ("badge badge-outline", "rag-status-pending"),
            CollectionStatus::Cloning => ("badge badge-info", "rag-status-cloning"),
            CollectionStatus::Indexing => ("badge badge-info", "rag-status-indexing"),
            CollectionStatus::Ready => ("badge badge-success", "rag-status-ready"),
            CollectionStatus::Error => ("badge badge-error", "rag-status-error"),
        }
    }
}

/// A badge.
pub open spec fn badge(look: Seq<char>, label: Seq<char>) -> Seq<char> {
    r#"<span class=""#@ + escaped(look) + r#"">"#@ + escaped(label) + "</span>"@
}

fn render_badge(look: &str, label: &str) -> (r: Html)
    ensures
        r@ == badge(look@, label@),
{
    Html::new(r#"<span class=""#).text(look).raw(r#"">"#).text(label).raw("</span>")
}

/// The badge of a status.
pub open spec fn status_badge_markup(ui: &Ui, status: CollectionStatus) -> Seq<char> {
    badge(status.look(), ui.message(status.label()))
}

/// Renders the badge of a status.
pub fn status_badge(ui: &Ui, status: CollectionStatus) -> (r: Html)
    ensures
        r@ == status_badge_markup(ui, status),
{
    let (look, label) = status.badge_parts();
    render_badge(look, &ui.t(label))
}

/// How serious a recorded event is.
#[derive(Clone, Copy, PartialEq, Eq, Structural, Debug)]
pub enum LogLevel {
    Info,
    Warn,
    Error,
}

impl LogLevel {
    /// The look of the badge.
    pub open spec fn look(&self) -> Seq<char> {
        match self {
            LogLevel::Info => "badge badge-xs badge-ghost shrink-0 whitespace-nowrap"@,
            LogLevel::Warn => "badge badge-xs badge-warning shrink-0 whitespace-nowrap"@,
            LogLevel::Error => "badge badge-xs badge-error shrink-0 whitespace-nowrap"@,
        }
    }

    /// The message key of the badge.
    pub open spec fn label(&self) -> Seq<char> {
        match self {
            LogLevel::Info => "rag-log-info"@,
            LogLevel::Warn => "rag-log-warn"@,
            LogLevel::Error => "rag-log-error"@,
        }
    }

    fn badge_parts(&self) -> (r: (&'static str, &'static str))
        ensures
            r.0@ == self.look(),
            r.1@ == self.label(),
    {
        match self {
            LogLevel::Info => ("badge badge-xs badge-ghost shrink-0 whitespace-nowrap", "rag-log-info"),
            LogLevel::Warn => ("badge badge-xs badge-warning shrink-0 whitespace-nowrap", "rag-log-warn"),
            LogLevel::Error => ("badge badge-xs badge-error shrink-0 whitespace-nowrap", "rag-log-error"),
        }
    }
}

/// Renders the badge of a recorded event.
pub fn log_level_badge(ui: &Ui, level: LogLevel) -> (r: Html)
    ensures
        r@ == badge(level.look(), ui.message(level.label())),
{
    let (look, label) = level.badge_parts();
    render_badge(look, &ui.t(label))
}

// ---------------------------------------------------------------------------
// One source

/// The source whose build a row shows: in an aggregate collection the primary,
/// which carries the one index; else the source itself.
pub open spec fn status_source<'a>(
    c: &Collection,
    r: &'a CollectionRef,
    primary: Option<&'a CollectionRef>,
) -> &'a CollectionRef {
    if c.search_mode == SearchMode::Aggregate && primary is Some {
        primary->0
    } else {
        r
    }
}

/// The source whose build a row shows.
pub fn status_ref<'a>(
    c: &Collection,
    r: &'a CollectionRef,
    primary: Option<&'a CollectionRef>,
) -> (s: &'a CollectionRef)
    ensures
        s == status_source(c, r, primary),
{
    if c.search_mode == SearchMode::Aggregate {
        match primary {
            Some(p) => p,
            None => r,
        }
    } else {
        r
    }
}

/// The name of a row: in an aggregate collection the repository comes first.
pub open spec fn ref_label(c: &Collection, r: &CollectionRef) -> Seq<char> {
    if c.search_mode == SearchMode::Aggregate {
        r.source_label@ + " @ "@ + r.git_ref@
    } else {
        r.git_ref@
    }
}

/// When and from what a build was made.
pub open spec fn indexed_line(ui: &Ui, s: &CollectionRef) -> Seq<char> {
    let date = match s.last_indexed_at {
        Some(m) => utc_text(m.at(), "%Y-%m-%d %H:%M UTC"@),
        None => ui.message("rag-never"@),
    };
    let commit = clipped(
        match s.last_indexed_commit {
            Some(c) => c@,
            None => "—"@,
        },
        8,
    );
    ui.message_with_both("rag-ref-indexed-line"@, ("date"@, date), ("commit"@, commit))
}

fn show_indexed_line(ui: &Ui, s: &CollectionRef) -> (r: String)
    ensures
        r@ == indexed_line(ui, s),
{
    let date = match &s.last_indexed_at {
        Some(m) => m.minute_text(),
        None => ui.t("rag-never"),
    };
    let commit = match &s.last_indexed_commit {
        Some(c) => clip(c, 8),
        None => clip("—", 8),
    };
    ui.t_with_both("rag-ref-indexed-line", ("date", &date), ("commit", &commit))
}

/// The latest error or advisory of a build.
pub open spec fn error_line(s: &CollectionRef) -> Seq<char> {
    match s.last_error {
        Some(e) => {
            let failed = s.status == CollectionStatus::Error;
            let err = e@;
            r#"<span class=""#@
                + (if failed { "text-xs text-error break-all"@ } else { "text-xs text-warning break-all"@ })
                + r#"">"#@
                + escaped(err)
                + "</span>"@
        },
        None => Seq::empty(),
    }
}

fn render_error_line(s: &CollectionRef) -> (r: Html)
    ensures
        r@ == error_line(s),
{
    match &s.last_error {
        Some(err) => {
            let failed = s.status == CollectionStatus::Error;
            Html::new(r#"<span class=""#)
                .html(Html::new(if failed { "text-xs text-error break-all" } else { "text-xs text-warning break-all" }))
                .raw(r#"">"#)
                .text(&err)
                .raw("</span>")
        },
        None => Html::empty(),
    }
}

/// The buttons of a source: they act on that source, whatever its row shows.
pub open spec fn ref_buttons(ui: &Ui, r: &CollectionRef, aggregate: bool) -> Seq<char> {
    r#"<div class="flex items-center gap-1 ml-auto">"#@
        + r#"<button type="button" class="btn btn-xs btn-ghost""#@
        + r#" data-on:click="document.getElementById(&#39;rag-reflog-"#@
        + signed_decimal(r.id as int)
        + "&#39;).innerHTML ? document.getElementById(&#39;rag-reflog-"@
        + signed_decimal(r.id as int)
        + "&#39;).innerHTML = &#39;&#39; : @get(&#39;/rag/refs/"@
        + signed_decimal(r.id as int)
        + r#"/log&#39;)">"#@
        + escaped(ui.message("rag-button-log"@))
        + r#"</button><form action="/rag/refs/"#@
        + signed_decimal(r.id as int)
        + r#"/edit-form" method="post" class="m-0" data-on:submit__prevent="@post(&#39;/rag/refs/"#@
        + signed_decimal(r.id as int)
        + r#"/edit-form&#39;, {contentType: &#39;form&#39;})">"#@
        + r#"<button type="submit" class="btn btn-xs btn-ghost">"#@
        + escaped(ui.message("rag-button-edit"@))
        + r#"</button></form><form action="/rag/refs/"#@
        + signed_decimal(r.id as int)
        + r#"/reindex" method="post" class="m-0" data-on:submit__prevent="@post(&#39;/rag/refs/"#@
        + signed_decimal(r.id as int)
        + r#"/reindex&#39;, {contentType: &#39;form&#39;})"><button type="submit" class="btn btn-xs">"#@
        + escaped(ui.message("rag-button-reindex"@))
        + "</button></form>"@
        + (if !r.is_primary && !aggregate {
            r#"<form action="/rag/refs/"#@
                + signed_decimal(r.id as int)
                + r#"/primary" method="post" class="m-0" data-on:submit__prevent="@post(&#39;/rag/refs/"#@
                + signed_decimal(r.id as int)
                + r#"/primary&#39;, {contentType: &#39;form&#39;})">"#@
                + r#"<button type="submit" class="btn btn-xs btn-ghost">"#@
                + escaped(ui.message("rag-button-set-primary"@))
                + "</button></form>"@
        } else {
            Seq::<char>::empty()
        })
        + r#"<form action="/rag/refs/"#@
        + signed_decimal(r.id as int)
        + r#"/delete" method="post" class="m-0" data-on:submit__prevent="@post(&#39;/rag/refs/"#@
        + signed_decimal(r.id as int)
        + r#"/delete&#39;, {contentType: &#39;form&#39;})">"#@
        + r#"<button type="submit" class="btn btn-xs btn-ghost btn-error">"#@
        + escaped(ui.message("rag-button-remove"@))
        + "</button></form></div>"@
}

fn render_ref_buttons(ui: &Ui, r: &CollectionRef, aggregate: bool) -> (h: Html)
    ensures
        h@ == ref_buttons(ui, r, aggregate),
{
    Html::new(r#"<div class="flex items-center gap-1 ml-auto">"#)
        .raw(r#"<button type="button" class="btn btn-xs btn-ghost""#)
        .raw(r#" data-on:click="document.getElementById(&#39;rag-reflog-"#)
        .signed(r.id)
        .raw("&#39;).innerHTML ? document.getElementById(&#39;rag-reflog-")
        .signed(r.id)
        .raw("&#39;).innerHTML = &#39;&#39; : @get(&#39;/rag/refs/")
        .signed(r.id)
        .raw(r#"/log&#39;)">"#)
        .msg(ui, "rag-button-log")
        .raw(r#"</button><form action="/rag/refs/"#)
        .signed(r.id)
        .raw(r#"/edit-form" method="post" class="m-0" data-on:submit__prevent="@post(&#39;/rag/refs/"#)
        .signed(r.id)
        .raw(r#"/edit-form&#39;, {contentType: &#39;form&#39;})">"#)
        .raw(r#"<button type="submit" class="btn btn-xs btn-ghost">"#)
        .msg(ui, "rag-button-edit")
        .raw(r#"</button></form><form action="/rag/refs/"#)
        .signed(r.id)
        .raw(r#"/reindex" method="post" class="m-0" data-on:submit__prevent="@post(&#39;/rag/refs/"#)
        .signed(r.id)
        .raw(r#"/reindex&#39;, {contentType: &#39;form&#39;})"><button type="submit" class="btn btn-xs">"#)
        .msg(ui, "rag-button-reindex")
        .raw("</button></form>")
        .html(if !r.is_primary && !aggregate {
            Html::new(r#"<form action="/rag/refs/"#)
                .signed(r.id)
                .raw(r#"/primary" method="post" class="m-0" data-on:submit__prevent="@post(&#39;/rag/refs/"#)
                .signed(r.id)
                .raw(r#"/primary&#39;, {contentType: &#39;form&#39;})">"#)
                .raw(r#"<button type="submit" class="btn btn-xs btn-ghost">"#)
                .msg(ui, "rag-button-set-primary")
                .raw("</button></form>")
        } else {
            Html::empty()
        })
        .raw(r#"<form action="/rag/refs/"#)
        .signed(r.id)
        .raw(r#"/delete" method="post" class="m-0" data-on:submit__prevent="@post(&#39;/rag/refs/"#)
        .signed(r.id)
        .raw(r#"/delete&#39;, {contentType: &#39;form&#39;})">"#)
        .raw(r#"<button type="submit" class="btn btn-xs btn-ghost btn-error">"#)
        .msg(ui, "rag-button-remove")
        .raw("</button></form></div>")
}

/// One source of a collection: its name, its state and its buttons. Being
/// primary is shown only where it matters to a search.
#[verifier::opaque]
pub open spec fn ref_row(
    ui: &Ui,
    c: &Collection,
    r: &CollectionRef,
    primary: Option<&CollectionRef>,
) -> Seq<char> {
    let aggregate = c.search_mode == SearchMode::Aggregate;
    let s = status_source(c, r, primary);
    r#"<div id="rag-ref-"#@
        + signed_decimal(r.id as int)
        + r#"" class="flex items-center gap-2 text-sm flex-wrap"><span class="font-mono">"#@
        + escaped(ref_label(c, r))
        + "</span>"@
        + (if r.is_primary && !aggregate {
            r#"<span class="badge badge-sm">"#@
                + escaped(ui.message("rag-badge-primary"@))
                + "</span>"@
        } else {
            Seq::<char>::empty()
        })
        + status_badge_markup(ui, s.status)
        + r#"<span class="text-xs text-base-content/60">"#@
        + escaped(indexed_line(ui, s))
        + "</span>"@
        + error_line(s)
        + ref_buttons(ui, r, aggregate)
        + "</div>"@
}

/// Renders one source of a collection.
pub fn render_ref(
    ui: &Ui,
    c: &Collection,
    r: &CollectionRef,
    primary: Option<&CollectionRef>,
) -> (h: Html)
    ensures
        h@ == ref_row(ui, c, r, primary),
{
    proof {
        reveal(ref_row);
    }
    let aggregate = c.search_mode == SearchMode::Aggregate;
    let s = status_ref(c, r, primary);
    let label = if aggregate {
        let mut l = r.source_label.clone();
        l.append(" @ ");
        l.append(&r.git_ref);
        l
    } else {
        r.git_ref.clone()
    };
    Html::new(r#"<div id="rag-ref-"#)
        .signed(r.id)
        .raw(r#"" class="flex items-center gap-2 text-sm flex-wrap"><span class="font-mono">"#)
        .text(&label)
        .raw("</span>")
        .html(if r.is_primary && !aggregate {
            Html::new(r#"<span class="badge badge-sm">"#)
                .msg(ui, "rag-badge-primary")
                .raw("</span>")
        } else {
            Html::empty()
        })
        .html(status_badge(ui, s.status))
        .raw(r#"<span class="text-xs text-base-content/60">"#)
        .text(&show_indexed_line(ui, s))
        .raw("</span>")
        .html(render_error_line(s))
        .html(render_ref_buttons(ui, r, aggregate))
        .raw("</div>")
}

/// Position of the first primary source, the number of sources when there is none.
pub open spec fn primary_index(refs: Seq<CollectionRef>) -> int
    decreases refs.len(),
{
    if refs.len() == 0 || refs[0].is_primary {
        0
    } else {
        1 + primary_index(refs.drop_first())
    }
}

/// The primary source.
pub open spec fn primary_of(refs: Seq<CollectionRef>) -> Option<CollectionRef> {
    let i = primary_index(refs);
    if 0 <= i < refs.len() {
        Some(refs[i])
    } else {
        None
    }
}

/// A source by reference.
pub open spec fn by_ref(r: Option<CollectionRef>) -> Option<&'static CollectionRef> {
    match r {
        Some(p) => Some(&p),
        None => None,
    }
}

fn find_primary<'a>(refs: &'a Vec<CollectionRef>) -> (r: Option<&'a CollectionRef>)
    ensures
        match r {
            Some(p) => primary_of(refs@) == Some(*p),
            None => primary_of(refs@) is None,
        },
{
    assert(refs@.skip(0) =~= refs@);
    for i in 0..refs.len()
        invariant
            primary_index(refs@) == i + primary_index(refs@.skip(i as int)),
    {
        assert(refs@.skip(i as int).drop_first() =~= refs@.skip(i + 1));
        if refs[i].is_primary {
            return Some(&refs[i]);
        }
    }
    None
}

/// The sources of a collection. Each is followed by an empty place for its log,
/// outside the row, so that refreshing the row leaves an open log alone.
pub open spec fn ref_rows(
    ui: &Ui,
    c: &Collection,
    refs: Seq<CollectionRef>,
    primary: Option<&CollectionRef>,
) -> Seq<char>
    decreases refs.len(),
{
    if refs.len() == 0 {
        Seq::empty()
    } else {
        ref_rows(ui, c, refs.drop_last(), primary) + (
        ref_row(ui, c, &refs.last(), primary)
            + r#"<div id="rag-reflog-"#@
            + signed_decimal(refs.last().id as int)
            + r#""></div>"#@
        )
    }
}

fn render_ref_rows(
    ui: &Ui,
    c: &Collection,
    refs: &Vec<CollectionRef>,
    primary: Option<&CollectionRef>,
) -> (r: Html)
    ensures
        r@ == ref_rows(ui, c, refs@, primary),
{
    let mut out = Html::empty();
    assert(refs@.take(0) =~= Seq::<CollectionRef>::empty());
    for i in 0..refs.len()
        invariant
            out@ == ref_rows(ui, c, refs@.take(i as int), primary),
    {
        assert(refs@.take(i + 1).drop_last() =~= refs@.take(i as int));
        let slot =
            render_ref(ui, c, &refs[i], primary)
                .raw(r#"<div id="rag-reflog-"#)
                .signed(refs[i].id)
                .raw(r#""></div>"#)
        ;
        out = out.html(slot);
    }
    assert(refs@.take(refs@.len() as int) =~= refs@);
    out
}

// ---------------------------------------------------------------------------
// One collection

/// Whether an access token is stored, in words. The token itself is not shown.
pub open spec fn pat_hint(ui: &Ui, c: &Collection) -> Seq<char> {
    if c.pat is Some {
        ui.message("rag-pat-set"@)
    } else {
        ui.message("rag-pat-none"@)
    }
}

/// What a collection is made of: its one repository, or how many sources.
pub open spec fn meta_line(ui: &Ui, c: &Collection, n_refs: nat) -> Seq<char> {
    if c.search_mode == SearchMode::Aggregate {
        ui.message_with_both(
            "rag-meta-aggregate"@,
            ("count"@, decimal(n_refs)),
            ("hint"@, pat_hint(ui, c)),
        )
    } else {
        ui.message_with_both(
            "rag-meta-versioned"@,
            ("url"@, c.git_url@),
            ("hint"@, pat_hint(ui, c)),
        )
    }
}

fn show_meta_line(ui: &Ui, c: &Collection, n_refs: usize) -> (r: String)
    ensures
        r@ == meta_line(ui, c, n_refs as nat),
{
    let hint = if c.pat.is_some() {
        ui.t("rag-pat-set")
    } else {
        ui.t("rag-pat-none")
    };
    if c.search_mode == SearchMode::Aggregate {
        let count = show_u64(n_refs as u64);
        ui.t_with_both("rag-meta-aggregate", ("count", &count), ("hint", &hint))
    } else {
        ui.t_with_both("rag-meta-versioned", ("url", &c.git_url), ("hint", &hint))
    }
}

/// The upper part of a collection: name, description, make-up and buttons.
pub open spec fn row_head(ui: &Ui, c: &Collection, n_refs: nat) -> Seq<char> {
    let aggregate = c.search_mode == SearchMode::Aggregate;
    let description = text_or_empty(opt_text(c.description));
    r#"<div class="flex items-start gap-4"><div class="flex-1 min-w-0">"#@
        + r#"<div class="flex items-center gap-2"><span class="text-base font-medium">"#@
        + escaped(c.name@)
        + "</span>"@
        + (if aggregate {
            r#"<span class="badge badge-sm badge-secondary">"#@
                + escaped(ui.message("rag-badge-aggregate"@))
                + "</span>"@
        } else {
            Seq::<char>::empty()
        })
        + "</div>"@
        + (if description.len() > 0 {
            r#"<p class="text-sm text-base-content/70 mt-0.5">"#@
                + escaped(description)
                + "</p>"@
        } else {
            Seq::<char>::empty()
        })
        + r#"<p class="text-xs text-base-content/60 mt-1 font-mono break-all">"#@
        + escaped(meta_line(ui, c, n_refs))
        + r#"</p><p class="text-xs text-base-content/60 mt-1">"#@
        + escaped(ui.message("rag-embed-prefix"@))
        + " "@
        + escaped(c.embedding_model@)
        + r#"</p></div><div class="flex flex-col gap-2 shrink-0"><form action="/rag/"#@
        + signed_decimal(c.id as int)
        + r#"/edit-form" method="post" class="m-0" data-on:submit__prevent="@post(&#39;/rag/"#@
        + signed_decimal(c.id as int)
        + r#"/edit-form&#39;, {contentType: &#39;form&#39;})">"#@
        + r#"<button type="submit" class="btn btn-sm btn-outline">"#@
        + escaped(ui.message("rag-button-edit"@))
        + r#"</button></form><form action="/rag/"#@
        + signed_decimal(c.id as int)
        + r#"/delete" method="post" class="m-0" data-on:submit__prevent="@post(&#39;/rag/"#@
        + signed_decimal(c.id as int)
        + r#"/delete&#39;, {contentType: &#39;form&#39;})">"#@
        + r#"<button type="submit" class="btn btn-sm btn-outline btn-error">"#@
        + escaped(ui.message("rag-button-delete-collection"@))
        + "</button></form></div></div>"@
}

fn render_row_head(ui: &Ui, c: &Collection, n_refs: usize) -> (r: Html)
    ensures
        r@ == row_head(ui, c, n_refs as nat),
{
    let aggregate = c.search_mode == SearchMode::Aggregate;
    let description = string_or_empty(&c.description);
    Html::new(r#"<div class="flex items-start gap-4"><div class="flex-1 min-w-0">"#)
        .raw(r#"<div class="flex items-center gap-2"><span class="text-base font-medium">"#)
        .text(&c.name)
        .raw("</span>")
        .html(if aggregate {
            Html::new(r#"<span class="badge badge-sm badge-secondary">"#)
                .msg(ui, "rag-badge-aggregate")
                .raw("</span>")
        } else {
            Html::empty()
        })
        .raw("</div>")
        .html(if !description.as_str().is_empty() {
            Html::new(r#"<p class="text-sm text-base-content/70 mt-0.5">"#)
                .text(&description)
                .raw("</p>")
        } else {
            Html::empty()
        })
        .raw(r#"<p class="text-xs text-base-content/60 mt-1 font-mono break-all">"#)
        .text(&show_meta_line(ui, c, n_refs))
        .raw(r#"</p><p class="text-xs text-base-content/60 mt-1">"#)
        .msg(ui, "rag-embed-prefix")
        .raw(" ")
        .text(&c.embedding_model)
        .raw(r#"</p></div><div class="flex flex-col gap-2 shrink-0"><form action="/rag/"#)
        .signed(c.id)
        .raw(r#"/edit-form" method="post" class="m-0" data-on:submit__prevent="@post(&#39;/rag/"#)
        .signed(c.id)
        .raw(r#"/edit-form&#39;, {contentType: &#39;form&#39;})">"#)
        .raw(r#"<button type="submit" class="btn btn-sm btn-outline">"#)
        .msg(ui, "rag-button-edit")
        .raw(r#"</button></form><form action="/rag/"#)
        .signed(c.id)
        .raw(r#"/delete" method="post" class="m-0" data-on:submit__prevent="@post(&#39;/rag/"#)
        .signed(c.id)
        .raw(r#"/delete&#39;, {contentType: &#39;form&#39;})">"#)
        .raw(r#"<button type="submit" class="btn btn-sm btn-outline btn-error">"#)
        .msg(ui, "rag-button-delete-collection")
        .raw("</button></form></div></div>")
}

/// The forms for more sources. An aggregate collection takes addresses, one or
/// many at once; a versioned one takes a branch, tag or commit.
pub open spec fn add_forms(ui: &Ui, c: &Collection) -> Seq<char> {
    let aggregate = c.search_mode == SearchMode::Aggregate;
    r#"<form id="rag-addsrc-"#@
        + signed_decimal(c.id as int)
        + r#"" action="/rag/"#@
        + signed_decimal(c.id as int)
        + r#"/refs" method="post" class="flex items-center gap-2 mt-1 flex-wrap""#@
        + r#" data-on:submit__prevent="@post(&#39;/rag/"#@
        + signed_decimal(c.id as int)
        + r#"/refs&#39;, {contentType: &#39;form&#39;})">"#@
        + (if aggregate {
            r#"<input type="text" name="git_url" placeholder=""#@
                + escaped(ui.message("rag-placeholder-source-git-url"@))
                + r#"" required="required" class="input input-bordered input-xs w-80">"#@
                + r#"<input type="text" name="git_ref" placeholder=""#@
                + escaped(ui.message("rag-placeholder-ref-default"@))
                + r#"" value=""#@
                + escaped(c.git_ref@)
                + r#"" required="required" class="input input-bordered input-xs w-44">"#@
                + r#"<button type="submit" class="btn btn-xs">"#@
                + escaped(ui.message("rag-button-add-source"@))
                + "</button>"@
        } else {
            r#"<input type="text" name="git_ref" placeholder=""#@
                + escaped(ui.message("rag-placeholder-branch-tag-commit"@))
                + r#"" required="required" class="input input-bordered input-xs w-56">"#@
                + r#"<button type="submit" class="btn btn-xs">"#@
                + escaped(ui.message("rag-button-add-ref"@))
                + "</button>"@
        })
        + "</form>"@
        + (if aggregate {
            r#"<form id="rag-bulk-"#@
                + signed_decimal(c.id as int)
                + r#"" action="/rag/"#@
                + signed_decimal(c.id as int)
                + r#"/refs/bulk" method="post" class="flex flex-col gap-1 mt-1""#@
                + r#" data-on:submit__prevent="@post(&#39;/rag/"#@
                + signed_decimal(c.id as int)
                + r#"/refs/bulk&#39;, {contentType: &#39;form&#39;})">"#@
                + r#"<textarea name="sources" rows="4" placeholder=""#@
                + escaped(ui.message("rag-placeholder-bulk-sources"@))
                + r#"" class="textarea textarea-bordered textarea-xs w-full font-mono"></textarea><div>"#@
                + r#"<button type="submit" class="btn btn-xs">"#@
                + escaped(ui.message("rag-button-add-bulk"@))
                + "</button></div></form>"@
        } else {
            Seq::<char>::empty()
        })
}

fn render_add_forms(ui: &Ui, c: &Collection) -> (r: Html)
    ensures
        r@ == add_forms(ui, c),
{
    let aggregate = c.search_mode == SearchMode::Aggregate;
    Html::new(r#"<form id="rag-addsrc-"#)
        .signed(c.id)
        .raw(r#"" action="/rag/"#)
        .signed(c.id)
        .raw(r#"/refs" method="post" class="flex items-center gap-2 mt-1 flex-wrap""#)
        .raw(r#" data-on:submit__prevent="@post(&#39;/rag/"#)
        .signed(c.id)
        .raw(r#"/refs&#39;, {contentType: &#39;form&#39;})">"#)
        .html(if aggregate {
            Html::new(r#"<input type="text" name="git_url" placeholder=""#)
                .msg(ui, "rag-placeholder-source-git-url")
                .raw(r#"" required="required" class="input input-bordered input-xs w-80">"#)
                .raw(r#"<input type="text" name="git_ref" placeholder=""#)
                .msg(ui, "rag-placeholder-ref-default")
                .raw(r#"" value=""#)
                .text(&c.git_ref)
                .raw(r#"" required="required" class="input input-bordered input-xs w-44">"#)
                .raw(r#"<button type="submit" class="btn btn-xs">"#)
                .msg(ui, "rag-button-add-source")
                .raw("</button>")
        } else {
            Html::new(r#"<input type="text" name="git_ref" placeholder=""#)
                .msg(ui, "rag-placeholder-branch-tag-commit")
                .raw(r#"" required="required" class="input input-bordered input-xs w-56">"#)
                .raw(r#"<button type="submit" class="btn btn-xs">"#)
                .msg(ui, "rag-button-add-ref")
                .raw("</button>")
        })
        .raw("</form>")
        .html(if aggregate {
            Html::new(r#"<form id="rag-bulk-"#)
                .signed(c.id)
                .raw(r#"" action="/rag/"#)
                .signed(c.id)
                .raw(r#"/refs/bulk" method="post" class="flex flex-col gap-1 mt-1""#)
                .raw(r#" data-on:submit__prevent="@post(&#39;/rag/"#)
                .signed(c.id)
                .raw(r#"/refs/bulk&#39;, {contentType: &#39;form&#39;})">"#)
                .raw(r#"<textarea name="sources" rows="4" placeholder=""#)
                .msg(ui, "rag-placeholder-bulk-sources")
                .raw(r#"" class="textarea textarea-bordered textarea-xs w-full font-mono"></textarea><div>"#)
                .raw(r#"<button type="submit" class="btn btn-xs">"#)
                .msg(ui, "rag-button-add-bulk")
                .raw("</button></div></form>")
        } else {
            Html::empty()
        })
}

/// One collection with its sources.
#[verifier::opaque]
pub open spec fn collection_row(ui: &Ui, c: &Collection, refs: Seq<CollectionRef>) -> Seq<char> {
    r#"<li id="rag-row-"#@
        + signed_decimal(c.id as int)
        + r#"" class="flex flex-col gap-2 py-4">"#@
        + row_head(ui, c, refs.len())
        + r#"<div class="mt-1 pl-3 border-l border-base-300 flex flex-col gap-1.5">"#@
        + ref_rows(ui, c, refs, by_ref(primary_of(refs)))
        + add_forms(ui, c)
        + "</div></li>"@
}

/// Renders one collection with its sources.
pub fn render_row(ui: &Ui, c: &Collection, refs: &Vec<CollectionRef>) -> (r: Html)
    ensures
        r@ == collection_row(ui, c, refs@),
{
    proof {
        reveal(collection_row);
    }
    Html::new(r#"<li id="rag-row-"#)
        .signed(c.id)
        .raw(r#"" class="flex flex-col gap-2 py-4">"#)
        .html(render_row_head(ui, c, refs.len()))
        .raw(r#"<div class="mt-1 pl-3 border-l border-base-300 flex flex-col gap-1.5">"#)
        .html(render_ref_rows(ui, c, refs, find_primary(refs)))
        .html(render_add_forms(ui, c))
        .raw("</div></li>")
}

// ---------------------------------------------------------------------------
// The log and the editor of a source

/// One recorded event.
pub struct IndexLogEntry {
    pub created_at: Moment,
    pub level: LogLevel,
    pub phase: String,
    pub message: String,
}

/// One event: when, how serious, in which phase, and what.
#[verifier::opaque]
pub open spec fn log_entry(ui: &Ui, e: IndexLogEntry) -> Seq<char> {
    r#"<li class="flex items-start gap-2 font-mono">"#@
        + r#"<span class="text-base-content/50 shrink-0 whitespace-nowrap">"#@
        + escaped(utc_text(e.created_at.at(), "%Y-%m-%d %H:%M:%S"@))
        + "</span>"@
        + badge(e.level.look(), ui.message(e.level.label()))
        + r#"<span class="text-base-content/50 shrink-0 w-14">"#@
        + escaped(e.phase@)
        + r#"</span><span class="min-w-0 break-words">"#@
        + escaped(e.message@)
        + "</span></li>"@
}

fn render_log_entry(ui: &Ui, e: &IndexLogEntry) -> (r: Html)
    ensures
        r@ == log_entry(ui, *e),
{
    proof {
        reveal(log_entry);
    }
    Html::new(r#"<li class="flex items-start gap-2 font-mono">"#)
        .raw(r#"<span class="text-base-content/50 shrink-0 whitespace-nowrap">"#)
        .text(&e.created_at.second_text())
        .raw("</span>")
        .html(log_level_badge(ui, e.level))
        .raw(r#"<span class="text-base-content/50 shrink-0 w-14">"#)
        .text(&e.phase)
        .raw(r#"</span><span class="min-w-0 break-words">"#)
        .text(&e.message)
        .raw("</span></li>")
}

/// The events, in the order given.
pub open spec fn log_entries(ui: &Ui, entries: Seq<IndexLogEntry>) -> Seq<char>
    decreases entries.len(),
{
    if entries.len() == 0 {
        Seq::empty()
    } else {
        log_entries(ui, entries.drop_last()) + log_entry(ui, entries.last())
    }
}

fn render_log_entries(ui: &Ui, entries: &Vec<IndexLogEntry>) -> (r: Html)
    ensures
        r@ == log_entries(ui, entries@),
{
    let mut out = Html::empty();
    assert(entries@.take(0) =~= Seq::<IndexLogEntry>::empty());
    for i in 0..entries.len()
        invariant
            out@ == log_entries(ui, entries@.take(i as int)),
    {
        assert(entries@.take(i + 1).drop_last() =~= entries@.take(i as int));
        out = out.html(render_log_entry(ui, &entries[i]));
    }
    assert(entries@.take(entries@.len() as int) =~= entries@);
    out
}

/// The log of a source.
pub open spec fn ref_log(ui: &Ui, entries: Seq<IndexLogEntry>) -> Seq<char> {
    r#"<div class="mt-1 mb-1 rounded border border-base-300 bg-base-200/40 p-2 text-xs">"#@
        + r#"<div class="mb-1"><span class="font-medium text-base-content/70">"#@
        + escaped(ui.message("rag-log-heading"@))
        + "</span></div>"@
        + (if entries.len() == 0 {
            r#"<p class="text-base-content/60">"#@
                + escaped(ui.message("rag-log-empty"@))
                + "</p>"@
        } else {
            r#"<ul class="flex flex-col gap-1">"#@
                + log_entries(ui, entries)
                + "</ul>"@
        })
        + "</div>"@
}

/// Renders the log of a source.
pub fn render_ref_log(ui: &Ui, _ref_id: i64, entries: &Vec<IndexLogEntry>) -> (r: Html)
    ensures
        r@ == ref_log(ui, entries@),
{
    Html::new(r#"<div class="mt-1 mb-1 rounded border border-base-300 bg-base-200/40 p-2 text-xs">"#)
        .raw(r#"<div class="mb-1"><span class="font-medium text-base-content/70">"#)
        .msg(ui, "rag-log-heading")
        .raw("</span></div>")
        .html(if entries.len() == 0 {
            Html::new(r#"<p class="text-base-content/60">"#)
                .msg(ui, "rag-log-empty")
                .raw("</p>")
        } else {
            Html::new(r#"<ul class="flex flex-col gap-1">"#)
                .html(render_log_entries(ui, entries))
                .raw("</ul>")
        })
        .raw("</div>")
}

/// The editor of a source: its address and its branch or tag.
pub open spec fn ref_edit_form(ui: &Ui, c: &Collection, r: &CollectionRef) -> Seq<char> {
    let url_value = text_or_empty(opt_text(r.git_url));
    let url_label = if c.search_mode == SearchMode::Aggregate {
        ui.message("rag-label-git-url-source"@)
    } else {
        ui.message("rag-label-git-url-inherit"@)
    };
    r#"<div class="mt-1 mb-1 rounded border border-base-300 bg-base-200/40 p-3">"#@
        + r#"<form action="/rag/refs/"#@
        + signed_decimal(r.id as int)
        + r#"/update" method="post" class="flex flex-col gap-2""#@
        + r#" data-on:submit__prevent="@post(&#39;/rag/refs/"#@
        + signed_decimal(r.id as int)
        + r#"/update&#39;, {contentType: &#39;form&#39;})">"#@
        + r#"<div class="grid grid-cols-1 md:grid-cols-2 gap-3">"#@
        + r#"<label class="flex flex-col gap-1 w-full"><div class="label">"#@
        + r#"<span class="label-text text-xs">"#@
        + escaped(url_label)
        + r#"</span></div><input name="git_url" type="text" value=""#@
        + escaped(url_value)
        + r#"" placeholder=""#@
        + escaped(ui.message("rag-placeholder-git-url"@))
        + r#"" class="input input-bordered input-sm w-full"></label>"#@
        + r#"<label class="flex flex-col gap-1 w-full"><div class="label">"#@
        + r#"<span class="label-text text-xs">"#@
        + escaped(ui.message("rag-label-branch-tag"@))
        + r#"</span></div><input name="git_ref" type="text" value=""#@
        + escaped(r.git_ref@)
        + r#"" class="input input-bordered input-sm w-full"></label></div>"#@
        + r#"<div class="flex items-center gap-2"><button type="submit" class="btn btn-xs btn-primary">"#@
        + escaped(ui.message("rag-button-save-source"@))
        + "</button>"@
        + r#"<button type="button" class="btn btn-xs btn-ghost" data-on:click="@post(&#39;/rag/refs/"#@
        + signed_decimal(r.id as int)
        + r#"/cancel-edit&#39;, {contentType: &#39;form&#39;})">"#@
        + escaped(ui.message("rag-button-cancel"@))
        + "</button></div></form></div>"@
}

/// Renders the editor of a source, filled with what is stored.
pub fn render_ref_edit_form(ui: &Ui, c: &Collection, r: &CollectionRef) -> (h: Html)
    ensures
        h@ == ref_edit_form(ui, c, r),
{
    let url_value = string_or_empty(&r.git_url);
    let url_label = if c.search_mode == SearchMode::Aggregate {
        ui.t("rag-label-git-url-source")
    } else {
        ui.t("rag-label-git-url-inherit")
    };
    Html::new(r#"<div class="mt-1 mb-1 rounded border border-base-300 bg-base-200/40 p-3">"#)
        .raw(r#"<form action="/rag/refs/"#)
        .signed(r.id)
        .raw(r#"/update" method="post" class="flex flex-col gap-2""#)
        .raw(r#" data-on:submit__prevent="@post(&#39;/rag/refs/"#)
        .signed(r.id)
        .raw(r#"/update&#39;, {contentType: &#39;form&#39;})">"#)
        .raw(r#"<div class="grid grid-cols-1 md:grid-cols-2 gap-3">"#)
        .raw(r#"<label class="flex flex-col gap-1 w-full"><div class="label">"#)
        .raw(r#"<span class="label-text text-xs">"#)
        .text(&url_label)
        .raw(r#"</span></div><input name="git_url" type="text" value=""#)
        .text(&url_value)
        .raw(r#"" placeholder=""#)
        .msg(ui, "rag-placeholder-git-url")
        .raw(r#"" class="input input-bordered input-sm w-full"></label>"#)
        .raw(r#"<label class="flex flex-col gap-1 w-full"><div class="label">"#)
        .raw(r#"<span class="label-text text-xs">"#)
        .msg(ui, "rag-label-branch-tag")
        .raw(r#"</span></div><input name="git_ref" type="text" value=""#)
        .text(&r.git_ref)
        .raw(r#"" class="input input-bordered input-sm w-full"></label></div>"#)
        .raw(r#"<div class="flex items-center gap-2"><button type="submit" class="btn btn-xs btn-primary">"#)
        .msg(ui, "rag-button-save-source")
        .raw("</button>")
        .raw(r#"<button type="button" class="btn btn-xs btn-ghost" data-on:click="@post(&#39;/rag/refs/"#)
        .signed(r.id)
        .raw(r#"/cancel-edit&#39;, {contentType: &#39;form&#39;})">"#)
        .msg(ui, "rag-button-cancel")
        .raw("</button></div></form></div>")
}

// ---------------------------------------------------------------------------
// The embedding model

/// The field for the embedding model when no model is known.
pub open spec fn embedding_text_field(ui: &Ui, value: Seq<char>) -> Seq<char> {
    r#"<label class="flex flex-col gap-1 w-full"><div class="label"><span class="label-text">"#@
        + escaped(ui.message("rag-label-embedding-model"@))
        + r#"</span></div><input name="embedding_model" type="text" required="required" value=""#@
        + escaped(value)
        + r#"" placeholder=""#@
        + escaped(ui.message("rag-placeholder-embedding-model-none"@))
        + r#"" class="input input-bordered w-full"></label>"#@
}

fn render_embedding_text_field(ui: &Ui, value: &str) -> (r: Html)
    ensures
        r@ == embedding_text_field(ui, value@),
{
    Html::new(r#"<label class="flex flex-col gap-1 w-full"><div class="label"><span class="label-text">"#)
        .msg(ui, "rag-label-embedding-model")
        .raw(r#"</span></div><input name="embedding_model" type="text" required="required" value=""#)
        .text(value)
        .raw(r#"" placeholder=""#)
        .msg(ui, "rag-placeholder-embedding-model-none")
        .raw(r#"" class="input input-bordered w-full"></label>"#)
}

/// A chosen model that is not served any more.
pub open spec fn stale_model(models: Seq<String>, selected: Option<Seq<char>>) -> Option<Seq<char>> {
    match selected {
        Some(s) => if s.len() > 0 && !listed(models, s) {
            Some(s)
        } else {
            None
        },
        None => None,
    }
}

/// The picker of the embedding model. Without a choice it asks for one; a
/// choice that is not served any more stays visible and chosen.
pub open spec fn embedding_select(
    ui: &Ui,
    models: Seq<String>,
    selected: Option<Seq<char>>,
) -> Seq<char> {
    let stale_option = match stale_model(models, selected) {
        Some(stale) => (
        r#"<option value=""#@
            + escaped(stale)
            + r#"" selected="selected">"#@
            + escaped(stale)
            + " "@
            + escaped(ui.message("rag-suffix-not-advertised"@))
            + "</option>"@
        ),
        None => Seq::empty(),
    };
    r#"<label class="flex flex-col gap-1 w-full"><div class="label"><span class="label-text">"#@
        + escaped(ui.message("rag-label-embedding-model"@))
        + "</span></div>"@
        + r#"<select name="embedding_model" required="required" class="select select-bordered w-full">"#@
        + (if selected is None {
            r#"<option value="" disabled="disabled" selected="selected">"#@
                + escaped(ui.message("rag-option-choose-embedding-model"@))
                + "</option>"@
        } else {
            Seq::<char>::empty()
        })
        + stale_option
        + choices(models, selected)
        + "</select></label>"@
}

/// The field for the embedding model.
pub open spec fn embedding_field(
    ui: &Ui,
    models: Seq<String>,
    selected: Option<Seq<char>>,
) -> Seq<char> {
    if models.len() == 0 {
        embedding_text_field(ui, text_or_empty(selected))
    } else {
        embedding_select(ui, models, selected)
    }
}

/// The view of an optional borrowed text.
pub open spec fn opt_str(o: Option<&str>) -> Option<Seq<char>> {
    match o {
        Some(s) => Some(s@),
        None => None,
    }
}

/// Renders the field for the embedding model: a picker, or a text field when no
/// model is known.
pub fn embedding_model_field(ui: &Ui, models: &Vec<String>, selected: Option<&str>) -> (r: Html)
    ensures
        r@ == embedding_field(ui, models@, opt_str(selected)),
{
    if models.len() == 0 {
        return match selected {
            Some(s) => render_embedding_text_field(ui, s),
            None => {
                proof {
                    reveal_strlit("");
                    assert(""@ =~= Seq::<char>::empty());
                }
                render_embedding_text_field(ui, "")
            },
        };
    }
    let stale_option = match selected {
        Some(stale) => {
            if !stale.is_empty() && !is_listed(models, stale) {
                Html::new(r#"<option value=""#)
                    .text(&stale)
                    .raw(r#"" selected="selected">"#)
                    .text(&stale)
                    .raw(" ")
                    .msg(ui, "rag-suffix-not-advertised")
                    .raw("</option>")
            } else {
                Html::empty()
            }
        },
        None => Html::empty(),
    };
    Html::new(r#"<label class="flex flex-col gap-1 w-full"><div class="label"><span class="label-text">"#)
        .msg(ui, "rag-label-embedding-model")
        .raw("</span></div>")
        .raw(r#"<select name="embedding_model" required="required" class="select select-bordered w-full">"#)
        .html(if selected.is_none() {
            Html::new(r#"<option value="" disabled="disabled" selected="selected">"#)
                .msg(ui, "rag-option-choose-embedding-model")
                .raw("</option>")
        } else {
            Html::empty()
        })
        .html(stale_option)
        .html(render_choices(models, selected))
        .raw("</select></label>")
}

// ---------------------------------------------------------------------------
// The forms and the page

/// The form for a new collection.
pub open spec fn create_form(
    ui: &Ui,
    embedding_models: Seq<String>,
    default_embedding: Option<Seq<char>>,
) -> Seq<char> {
    r#"<form id="rag-create-form" action="/rag" method="post" class="card border border-base-300"#@
        + r#" mb-6" data-on:submit__prevent="@post(&#39;/rag&#39;, {contentType: &#39;form&#39;})">"#@
        + r#"<div class="card-body"><h2 class="card-title">"#@
        + escaped(ui.message("rag-create-heading"@))
        + r#"</h2><p class="text-base-content/70 text-sm">"#@
        + escaped(ui.message("rag-create-description"@))
        + r#"</p><div class="grid grid-cols-1 md:grid-cols-2 gap-4 mt-2">"#@
        + r#"<label class="flex flex-col gap-1 w-full"><div class="label"><span class="label-text">"#@
        + escaped(ui.message("rag-label-name"@))
        + r#"</span></div><input name="name" type="text" required="required" placeholder=""#@
        + escaped(ui.message("rag-placeholder-name"@))
        + r#"" class="input input-bordered w-full"></label>"#@
        + embedding_field(ui, embedding_models, default_embedding)
        + r#"<label class="flex flex-col gap-1 w-full md:col-span-2"><div class="label">"#@
        + r#"<span class="label-text">"#@
        + escaped(ui.message("rag-label-description-optional"@))
        + r#"</span></div><input name="description" type="text" placeholder=""#@
        + escaped(ui.message("rag-placeholder-description"@))
        + r#"" class="input input-bordered w-full"></label><label class="flex flex-col gap-1 w-full">"#@
        + r#"<div class="label"><span class="label-text">"#@
        + escaped(ui.message("rag-label-git-url-versioned"@))
        + r#"</span></div><input name="git_url" type="text" placeholder=""#@
        + escaped(ui.message("rag-placeholder-git-url"@))
        + r#"" class="input input-bordered w-full"></label><label class="flex flex-col gap-1 w-full">"#@
        + r#"<div class="label"><span class="label-text">"#@
        + escaped(ui.message("rag-label-branch-tag"@))
        + "</span></div>"@
        + r#"<input name="git_ref" type="text" value="main" class="input input-bordered w-full"></label>"#@
        + r#"<label class="flex flex-col gap-1 w-full md:col-span-2"><div class="label">"#@
        + r#"<span class="label-text">"#@
        + escaped(ui.message("rag-label-pat-optional"@))
        + r#"</span></div><input name="pat" type="password" placeholder=""#@
        + escaped(ui.message("rag-placeholder-pat"@))
        + r#"" class="input input-bordered w-full"></label><label class="flex flex-col gap-1 w-full">"#@
        + r#"<div class="label"><span class="label-text">"#@
        + escaped(ui.message("rag-label-include-globs-full"@))
        + r#"</span></div><input name="include_globs" type="text" placeholder=""#@
        + escaped(ui.message("rag-placeholder-include-globs"@))
        + r#"" class="input input-bordered w-full"></label><label class="flex flex-col gap-1 w-full">"#@
        + r#"<div class="label"><span class="label-text">"#@
        + escaped(ui.message("rag-label-exclude-globs"@))
        + r#"</span></div><input name="exclude_globs" type="text" placeholder=""#@
        + escaped(ui.message("rag-placeholder-exclude-globs"@))
        + r#"" class="input input-bordered w-full"></label><label class="flex flex-col gap-1 w-full">"#@
        + r#"<div class="label"><span class="label-text">"#@
        + escaped(ui.message("rag-label-chunk-size"@))
        + "</span></div>"@
        + r#"<input name="chunk_size" type="number" value="800" min="1" max="8000" class="input"#@
        + r#" input-bordered w-full"></label><label class="flex flex-col gap-1 w-full">"#@
        + r#"<div class="label"><span class="label-text">"#@
        + escaped(ui.message("rag-label-chunk-overlap"@))
        + "</span></div>"@
        + r#"<input name="chunk_overlap" type="number" value="100" min="0" class="input input-bordered"#@
        + r#" w-full"></label><label class="flex items-start gap-3 md:col-span-2 cursor-pointer">"#@
        + r#"<input name="aggregate" type="checkbox" class="checkbox checkbox-sm mt-0.5 shrink-0">"#@
        + r#"<span class="label-text min-w-0">"#@
        + escaped(ui.message("rag-create-aggregate-help"@))
        + r#"</span></label></div><div class="card-actions justify-end mt-2">"#@
        + r#"<button type="submit" class="btn btn-primary">"#@
        + escaped(ui.message("rag-button-queue-indexing"@))
        + "</button></div></div></form>"@
}

/// Renders the form for a new collection, its embedding model chosen as
/// configured.
pub fn render_create_form(
    ui: &Ui,
    embedding_models: &Vec<String>,
    default_embedding: Option<&str>,
) -> (r: Html)
    ensures
        r@ == create_form(ui, embedding_models@, opt_str(default_embedding)),
{
    Html::new(r#"<form id="rag-create-form" action="/rag" method="post" class="card border border-base-300"#)
        .raw(r#" mb-6" data-on:submit__prevent="@post(&#39;/rag&#39;, {contentType: &#39;form&#39;})">"#)
        .raw(r#"<div class="card-body"><h2 class="card-title">"#)
        .msg(ui, "rag-create-heading")
        .raw(r#"</h2><p class="text-base-content/70 text-sm">"#)
        .msg(ui, "rag-create-description")
        .raw(r#"</p><div class="grid grid-cols-1 md:grid-cols-2 gap-4 mt-2">"#)
        .raw(r#"<label class="flex flex-col gap-1 w-full"><div class="label"><span class="label-text">"#)
        .msg(ui, "rag-label-name")
        .raw(r#"</span></div><input name="name" type="text" required="required" placeholder=""#)
        .msg(ui, "rag-placeholder-name")
        .raw(r#"" class="input input-bordered w-full"></label>"#)
        .html(embedding_model_field(ui, embedding_models, default_embedding))
        .raw(r#"<label class="flex flex-col gap-1 w-full md:col-span-2"><div class="label">"#)
        .raw(r#"<span class="label-text">"#)
        .msg(ui, "rag-label-description-optional")
        .raw(r#"</span></div><input name="description" type="text" placeholder=""#)
        .msg(ui, "rag-placeholder-description")
        .raw(r#"" class="input input-bordered w-full"></label><label class="flex flex-col gap-1 w-full">"#)
        .raw(r#"<div class="label"><span class="label-text">"#)
        .msg(ui, "rag-label-git-url-versioned")
        .raw(r#"</span></div><input name="git_url" type="text" placeholder=""#)
        .msg(ui, "rag-placeholder-git-url")
        .raw(r#"" class="input input-bordered w-full"></label><label class="flex flex-col gap-1 w-full">"#)
        .raw(r#"<div class="label"><span class="label-text">"#)
        .msg(ui, "rag-label-branch-tag")
        .raw("</span></div>")
        .raw(r#"<input name="git_ref" type="text" value="main" class="input input-bordered w-full"></label>"#)
        .raw(r#"<label class="flex flex-col gap-1 w-full md:col-span-2"><div class="label">"#)
        .raw(r#"<span class="label-text">"#)
        .msg(ui, "rag-label-pat-optional")
        .raw(r#"</span></div><input name="pat" type="password" placeholder=""#)
        .msg(ui, "rag-placeholder-pat")
        .raw(r#"" class="input input-bordered w-full"></label><label class="flex flex-col gap-1 w-full">"#)
        .raw(r#"<div class="label"><span class="label-text">"#)
        .msg(ui, "rag-label-include-globs-full")
        .raw(r#"</span></div><input name="include_globs" type="text" placeholder=""#)
        .msg(ui, "rag-placeholder-include-globs")
        .raw(r#"" class="input input-bordered w-full"></label><label class="flex flex-col gap-1 w-full">"#)
        .raw(r#"<div class="label"><span class="label-text">"#)
        .msg(ui, "rag-label-exclude-globs")
        .raw(r#"</span></div><input name="exclude_globs" type="text" placeholder=""#)
        .msg(ui, "rag-placeholder-exclude-globs")
        .raw(r#"" class="input input-bordered w-full"></label><label class="flex flex-col gap-1 w-full">"#)
        .raw(r#"<div class="label"><span class="label-text">"#)
        .msg(ui, "rag-label-chunk-size")
        .raw("</span></div>")
        .raw(r#"<input name="chunk_size" type="number" value="800" min="1" max="8000" class="input"#)
        .raw(r#" input-bordered w-full"></label><label class="flex flex-col gap-1 w-full">"#)
        .raw(r#"<div class="label"><span class="label-text">"#)
        .msg(ui, "rag-label-chunk-overlap")
        .raw("</span></div>")
        .raw(r#"<input name="chunk_overlap" type="number" value="100" min="0" class="input input-bordered"#)
        .raw(r#" w-full"></label><label class="flex items-start gap-3 md:col-span-2 cursor-pointer">"#)
        .raw(r#"<input name="aggregate" type="checkbox" class="checkbox checkbox-sm mt-0.5 shrink-0">"#)
        .raw(r#"<span class="label-text min-w-0">"#)
        .msg(ui, "rag-create-aggregate-help")
        .raw(r#"</span></label></div><div class="card-actions justify-end mt-2">"#)
        .raw(r#"<button type="submit" class="btn btn-primary">"#)
        .msg(ui, "rag-button-queue-indexing")
        .raw("</button></div></div></form>")
}

/// The access-token field of a stored collection: whether one is set, a field
/// for a new one, and a way to drop it.
pub open spec fn pat_field(ui: &Ui, pat_present: bool) -> Seq<char> {
    let pat_placeholder = if pat_present {
        ui.message("rag-placeholder-pat-keep"@)
    } else {
        ui.message("rag-placeholder-pat"@)
    };
    r#"<div class="flex flex-col gap-1 w-full"><div class="label"><span class="label-text">"#@
        + escaped(ui.message("rag-label-pat"@))
        + (if pat_present {
            r#"<span class="ml-2 badge badge-success badge-outline">"#@
                + escaped(ui.message("rag-badge-pat-set"@))
                + "</span>"@
        } else {
            r#"<span class="ml-2 badge badge-ghost">"#@
                + escaped(ui.message("rag-badge-pat-none"@))
                + "</span>"@
        })
        + r#"</span></div><input name="pat" type="password" placeholder=""#@
        + escaped(pat_placeholder)
        + r#"" class="input input-bordered w-full">"#@
        + (if pat_present {
            r#"<label class="label cursor-pointer justify-start gap-2 mt-1">"#@
                + r#"<input type="checkbox" name="clear_pat" value="1" class="checkbox checkbox-sm">"#@
                + r#"<span class="label-text text-sm">"#@
                + escaped(ui.message("rag-label-clear-pat"@))
                + "</span></label>"@
        } else {
            Seq::<char>::empty()
        })
        + "</div>"@
}

fn render_pat_field(ui: &Ui, pat_present: bool) -> (r: Html)
    ensures
        r@ == pat_field(ui, pat_present),
{
    let pat_placeholder = if pat_present {
        ui.t("rag-placeholder-pat-keep")
    } else {
        ui.t("rag-placeholder-pat")
    };
    Html::new(r#"<div class="flex flex-col gap-1 w-full"><div class="label"><span class="label-text">"#)
        .msg(ui, "rag-label-pat")
        .html(if pat_present {
            Html::new(r#"<span class="ml-2 badge badge-success badge-outline">"#)
                .msg(ui, "rag-badge-pat-set")
                .raw("</span>")
        } else {
            Html::new(r#"<span class="ml-2 badge badge-ghost">"#)
                .msg(ui, "rag-badge-pat-none")
                .raw("</span>")
        })
        .raw(r#"</span></div><input name="pat" type="password" placeholder=""#)
        .text(&pat_placeholder)
        .raw(r#"" class="input input-bordered w-full">"#)
        .html(if pat_present {
            Html::new(r#"<label class="label cursor-pointer justify-start gap-2 mt-1">"#)
                .raw(r#"<input type="checkbox" name="clear_pat" value="1" class="checkbox checkbox-sm">"#)
                .raw(r#"<span class="label-text text-sm">"#)
                .msg(ui, "rag-label-clear-pat")
                .raw("</span></label>")
        } else {
            Html::empty()
        })
        .raw("</div>")
}

/// The form of a stored collection, in the place of its row.
pub open spec fn edit_form(ui: &Ui, c: &Collection, embedding_models: Seq<String>) -> Seq<char> {
    r#"<li id="rag-row-"#@
        + signed_decimal(c.id as int)
        + r#"" class="py-4"><form action="/rag/"#@
        + signed_decimal(c.id as int)
        + r#"/update" method="post" class="card border border-base-300 bg-base-200""#@
        + r#" data-on:submit__prevent="@post(&#39;/rag/"#@
        + signed_decimal(c.id as int)
        + r#"/update&#39;, {contentType: &#39;form&#39;})"><div class="card-body">"#@
        + r#"<div class="flex items-center gap-2"><h3 class="card-title text-base m-0">"#@
        + escaped(ui.message_with("rag-edit-heading"@, "name"@, c.name@))
        + "</h3>"@
        + status_badge_markup(ui, c.status)
        + r#"</div><div class="grid grid-cols-1 md:grid-cols-2 gap-4 mt-2">"#@
        + r#"<label class="flex flex-col gap-1 w-full md:col-span-2"><div class="label">"#@
        + r#"<span class="label-text">"#@
        + escaped(ui.message("rag-label-description"@))
        + r#"</span></div><input name="description" type="text" value=""#@
        + escaped(text_or_empty(opt_text(c.description)))
        + r#"" class="input input-bordered w-full"></label><label class="flex flex-col gap-1 w-full">"#@
        + r#"<div class="label"><span class="label-text">"#@
        + escaped(ui.message("rag-label-git-url-versioned"@))
        + r#"</span></div><input name="git_url" type="text" value=""#@
        + escaped(c.git_url@)
        + r#"" class="input input-bordered w-full"></label><label class="flex flex-col gap-1 w-full">"#@
        + r#"<div class="label"><span class="label-text">"#@
        + escaped(ui.message("rag-label-branch-tag"@))
        + r#"</span></div><input name="git_ref" type="text" value=""#@
        + escaped(c.git_ref@)
        + r#"" class="input input-bordered w-full"></label>"#@
        + embedding_field(ui, embedding_models, Some(c.embedding_model@))
        + pat_field(ui, c.pat is Some)
        + r#"<label class="flex flex-col gap-1 w-full"><div class="label"><span class="label-text">"#@
        + escaped(ui.message("rag-label-include-globs"@))
        + r#"</span></div><input name="include_globs" type="text" value=""#@
        + escaped(joined(texts(c.include_globs@), ", "@))
        + r#"" placeholder=""#@
        + escaped(ui.message("rag-placeholder-include-globs"@))
        + r#"" class="input input-bordered w-full"></label><label class="flex flex-col gap-1 w-full">"#@
        + r#"<div class="label"><span class="label-text">"#@
        + escaped(ui.message("rag-label-exclude-globs"@))
        + r#"</span></div><input name="exclude_globs" type="text" value=""#@
        + escaped(joined(texts(c.exclude_globs@), ", "@))
        + r#"" placeholder=""#@
        + escaped(ui.message("rag-placeholder-exclude-globs"@))
        + r#"" class="input input-bordered w-full"></label><label class="flex flex-col gap-1 w-full">"#@
        + r#"<div class="label"><span class="label-text">"#@
        + escaped(ui.message("rag-label-chunk-size"@))
        + r#"</span></div><input name="chunk_size" type="number" value=""#@
        + signed_decimal(c.chunk_size as int)
        + r#"" min="1" max="8000" class="input input-bordered w-full"></label>"#@
        + r#"<label class="flex flex-col gap-1 w-full"><div class="label"><span class="label-text">"#@
        + escaped(ui.message("rag-label-chunk-overlap"@))
        + r#"</span></div><input name="chunk_overlap" type="number" value=""#@
        + signed_decimal(c.chunk_overlap as int)
        + r#"" min="0" class="input input-bordered w-full"></label></div>"#@
        + r#"<label class="flex flex-col gap-1 w-full"><div class="label"><span class="label-text">"#@
        + escaped(ui.message("rag-label-allowed-groups"@))
        + r#"</span></div><input name="allowed_groups" type="text" value=""#@
        + escaped(joined(texts(c.allowed_groups@), ", "@))
        + r#"" placeholder="developers, network_admin" class="input input-bordered w-full font-mono">"#@
        + r#"<div class="label"><span class="label-text-alt text-base-content/60">"#@
        + escaped(ui.message("rag-hint-allowed-groups"@))
        + r#"</span></div></label><div class="card-actions justify-end mt-2 gap-2"><form action="/rag/"#@
        + signed_decimal(c.id as int)
        + r#"/cancel-edit" method="post" class="m-0 inline" data-on:submit__prevent="@post(&#39;/rag/"#@
        + signed_decimal(c.id as int)
        + r#"/cancel-edit&#39;, {contentType: &#39;form&#39;})">"#@
        + r#"<button type="submit" class="btn btn-sm btn-outline">"#@
        + escaped(ui.message("rag-button-cancel"@))
        + r#"</button></form><button type="submit" class="btn btn-sm btn-primary">"#@
        + escaped(ui.message("rag-button-save-changes"@))
        + "</button></div></div></form></li>"@
}

/// Renders the form of a stored collection, filled with what is stored.
pub fn render_edit_form(ui: &Ui, c: &Collection, embedding_models: &Vec<String>) -> (r: Html)
    ensures
        r@ == edit_form(ui, c, embedding_models@),
{
    Html::new(r#"<li id="rag-row-"#)
        .signed(c.id)
        .raw(r#"" class="py-4"><form action="/rag/"#)
        .signed(c.id)
        .raw(r#"/update" method="post" class="card border border-base-300 bg-base-200""#)
        .raw(r#" data-on:submit__prevent="@post(&#39;/rag/"#)
        .signed(c.id)
        .raw(r#"/update&#39;, {contentType: &#39;form&#39;})"><div class="card-body">"#)
        .raw(r#"<div class="flex items-center gap-2"><h3 class="card-title text-base m-0">"#)
        .text(&ui.t_with("rag-edit-heading", "name", &c.name))
        .raw("</h3>")
        .html(status_badge(ui, c.status))
        .raw(r#"</div><div class="grid grid-cols-1 md:grid-cols-2 gap-4 mt-2">"#)
        .raw(r#"<label class="flex flex-col gap-1 w-full md:col-span-2"><div class="label">"#)
        .raw(r#"<span class="label-text">"#)
        .msg(ui, "rag-label-description")
        .raw(r#"</span></div><input name="description" type="text" value=""#)
        .text(&string_or_empty(&c.description))
        .raw(r#"" class="input input-bordered w-full"></label><label class="flex flex-col gap-1 w-full">"#)
        .raw(r#"<div class="label"><span class="label-text">"#)
        .msg(ui, "rag-label-git-url-versioned")
        .raw(r#"</span></div><input name="git_url" type="text" value=""#)
        .text(&c.git_url)
        .raw(r#"" class="input input-bordered w-full"></label><label class="flex flex-col gap-1 w-full">"#)
        .raw(r#"<div class="label"><span class="label-text">"#)
        .msg(ui, "rag-label-branch-tag")
        .raw(r#"</span></div><input name="git_ref" type="text" value=""#)
        .text(&c.git_ref)
        .raw(r#"" class="input input-bordered w-full"></label>"#)
        .html(embedding_model_field(ui, embedding_models, Some(&c.embedding_model)))
        .html(render_pat_field(ui, c.pat.is_some()))
        .raw(r#"<label class="flex flex-col gap-1 w-full"><div class="label"><span class="label-text">"#)
        .msg(ui, "rag-label-include-globs")
        .raw(r#"</span></div><input name="include_globs" type="text" value=""#)
        .text(&join(&c.include_globs, ", "))
        .raw(r#"" placeholder=""#)
        .msg(ui, "rag-placeholder-include-globs")
        .raw(r#"" class="input input-bordered w-full"></label><label class="flex flex-col gap-1 w-full">"#)
        .raw(r#"<div class="label"><span class="label-text">"#)
        .msg(ui, "rag-label-exclude-globs")
        .raw(r#"</span></div><input name="exclude_globs" type="text" value=""#)
        .text(&join(&c.exclude_globs, ", "))
        .raw(r#"" placeholder=""#)
        .msg(ui, "rag-placeholder-exclude-globs")
        .raw(r#"" class="input input-bordered w-full"></label><label class="flex flex-col gap-1 w-full">"#)
        .raw(r#"<div class="label"><span class="label-text">"#)
        .msg(ui, "rag-label-chunk-size")
        .raw(r#"</span></div><input name="chunk_size" type="number" value=""#)
        .signed(c.chunk_size)
        .raw(r#"" min="1" max="8000" class="input input-bordered w-full"></label>"#)
        .raw(r#"<label class="flex flex-col gap-1 w-full"><div class="label"><span class="label-text">"#)
        .msg(ui, "rag-label-chunk-overlap")
        .raw(r#"</span></div><input name="chunk_overlap" type="number" value=""#)
        .signed(c.chunk_overlap)
        .raw(r#"" min="0" class="input input-bordered w-full"></label></div>"#)
        .raw(r#"<label class="flex flex-col gap-1 w-full"><div class="label"><span class="label-text">"#)
        .msg(ui, "rag-label-allowed-groups")
        .raw(r#"</span></div><input name="allowed_groups" type="text" value=""#)
        .text(&join(&c.allowed_groups, ", "))
        .raw(r#"" placeholder="developers, network_admin" class="input input-bordered w-full font-mono">"#)
        .raw(r#"<div class="label"><span class="label-text-alt text-base-content/60">"#)
        .msg(ui, "rag-hint-allowed-groups")
        .raw(r#"</span></div></label><div class="card-actions justify-end mt-2 gap-2"><form action="/rag/"#)
        .signed(c.id)
        .raw(r#"/cancel-edit" method="post" class="m-0 inline" data-on:submit__prevent="@post(&#39;/rag/"#)
        .signed(c.id)
        .raw(r#"/cancel-edit&#39;, {contentType: &#39;form&#39;})">"#)
        .raw(r#"<button type="submit" class="btn btn-sm btn-outline">"#)
        .msg(ui, "rag-button-cancel")
        .raw(r#"</button></form><button type="submit" class="btn btn-sm btn-primary">"#)
        .msg(ui, "rag-button-save-changes")
        .raw("</button></div></div></form></li>")
}

/// The collections, in order.
pub open spec fn collection_rows(ui: &Ui, list: Seq<(Collection, Vec<CollectionRef>)>) -> Seq<char>
    decreases list.len(),
{
    if list.len() == 0 {
        Seq::empty()
    } else {
        collection_rows(ui, list.drop_last()) + collection_row(
            ui,
            &list.last().0,
            list.last().1@,
        )
    }
}

fn render_collection_rows(ui: &Ui, list: &Vec<(Collection, Vec<CollectionRef>)>) -> (r: Html)
    ensures
        r@ == collection_rows(ui, list@),
{
    let mut out = Html::empty();
    assert(list@.take(0) =~= Seq::<(Collection, Vec<CollectionRef>)>::empty());
    for i in 0..list.len()
        invariant
            out@ == collection_rows(ui, list@.take(i as int)),
    {
        assert(list@.take(i + 1).drop_last() =~= list@.take(i as int));
        out = out.html(render_row(ui, &list[i].0, &list[i].1));
    }
    assert(list@.take(list@.len() as int) =~= list@);
    out
}

/// The page of collections. It asks for the state of the builds every few
/// seconds, unless there is nothing to watch.
pub open spec fn rag_page(
    ui: &Ui,
    list: Seq<(Collection, Vec<CollectionRef>)>,
    embedding_models: Seq<String>,
    default_embedding: Option<Seq<char>>,
) -> Seq<char> {
    r#"<div class="max-w-5xl mx-auto w-full px-4 sm:px-6 pt-14 sm:pt-6 pb-6">"#@
        + r#"<div class="flex items-center gap-2 mb-2">"#@
        + ui.icon_markup("folder"@, 20)
        + r#"<h1 class="text-2xl font-bold m-0">"#@
        + escaped(ui.message("rag-heading"@))
        + r#"</h1></div><p class="text-base-content/60 text-sm mb-6">"#@
        + escaped(ui.message("rag-description-prefix"@))
        + r#" <code class="font-mono text-xs">rag_search</code> "#@
        + escaped(ui.message("rag-description-suffix"@))
        + "</p>"@
        + create_form(ui, embedding_models, default_embedding)
        + r#"<section class="card border border-base-300"><div class="card-body"><h2 class="card-title">"#@
        + escaped(ui.message("rag-collections-heading"@))
        + "</h2>"@
        + r#"<ul id="rag-list" class="flex flex-col divide-y divide-base-300""#@
        + r#" data-on-interval__duration.4s=""#@
        + (if list.len() == 0 { Seq::<char>::empty() } else { escaped("@get('/rag/status')"@) })
        + r#"">"#@
        + collection_rows(ui, list)
        + "</ul>"@
        + (if list.len() == 0 {
            r#"<p class="text-base-content/60 text-sm">"#@
                + escaped(ui.message("rag-empty-list"@))
                + "</p>"@
        } else {
            Seq::<char>::empty()
        })
        + "</div></section></div>"@
}

/// Renders the page of collections.
pub fn render_body(
    ui: &Ui,
    list: &Vec<(Collection, Vec<CollectionRef>)>,
    embedding_models: &Vec<String>,
    default_embedding: Option<&str>,
) -> (r: Html)
    ensures
        r@ == rag_page(ui, list@, embedding_models@, opt_str(default_embedding)),
{
    Html::new(r#"<div class="max-w-5xl mx-auto w-full px-4 sm:px-6 pt-14 sm:pt-6 pb-6">"#)
        .raw(r#"<div class="flex items-center gap-2 mb-2">"#)
        .icon(ui, "folder", 20)
        .raw(r#"<h1 class="text-2xl font-bold m-0">"#)
        .msg(ui, "rag-heading")
        .raw(r#"</h1></div><p class="text-base-content/60 text-sm mb-6">"#)
        .msg(ui, "rag-description-prefix")
        .raw(r#" <code class="font-mono text-xs">rag_search</code> "#)
        .msg(ui, "rag-description-suffix")
        .raw("</p>")
        .html(render_create_form(ui, embedding_models, default_embedding))
        .raw(r#"<section class="card border border-base-300"><div class="card-body"><h2 class="card-title">"#)
        .msg(ui, "rag-collections-heading")
        .raw("</h2>")
        .raw(r#"<ul id="rag-list" class="flex flex-col divide-y divide-base-300""#)
        .raw(r#" data-on-interval__duration.4s=""#)
        .html((if list.len() == 0 { Html::empty() } else { Html::of("@get('/rag/status')") }))
        .raw(r#"">"#)
        .html(render_collection_rows(ui, list))
        .raw("</ul>")
        .html(if list.len() == 0 {
            Html::new(r#"<p class="text-base-content/60 text-sm">"#)
                .msg(ui, "rag-empty-list")
                .raw("</p>")
        } else {
            Html::empty()
        })
        .raw("</div></section></div>")
}

// ---------------------------------------------------------------------------
// Answers

/// The place of something with a number.
pub open spec fn place(prefix: Seq<char>, id: i64) -> Seq<char> {
    prefix + signed_decimal(id as int)
}

fn selector(prefix: &str, id: i64) -> (r: String)
    ensures
        r@ == place(prefix@, id),
{
    let mut out = prefix.to_owned();
    out.append(&crate::num::show_i64(id));
    out
}

/// What the page is told once a collection was created.
pub fn created(ui: &Ui, c: &Collection, refs: &Vec<CollectionRef>, message: &str) -> (r: Vec<Update>)
    ensures
        views(r@) == seq![
            patch("#rag-list"@, "append"@, collection_row(ui, c, refs@)),
            UpdateView::Script { code: "document.getElementById('rag-create-form').reset()"@ },
            toast(FlashKind::Success, message@),
        ],
{
    let row = render_row(ui, c, refs).to_string();
    let mut out: Vec<Update> = Vec::new();
    out.push(Update::patch("#rag-list", "append", &row));
    out.push(Update::script("document.getElementById('rag-create-form').reset()"));
    out.push(Update::toast(FlashKind::Success, message));
    assert(views(out@) =~= seq![
        patch("#rag-list"@, "append"@, collection_row(ui, c, refs@)),
        UpdateView::Script { code: "document.getElementById('rag-create-form').reset()"@ },
        toast(FlashKind::Success, message@),
    ]);
    out
}

/// The script that empties a form.
pub open spec fn reset_form(form_id: Seq<char>) -> Seq<char> {
    "document.getElementById('"@ + form_id + "')?.reset()"@
}

/// What the page is told once a collection changed: its row as it is now, the
/// form to empty if there is one, and a message. Without the emptying, what was
/// typed would stay and a successful change look like none.
pub fn row_patch(
    ui: &Ui,
    c: &Collection,
    refs: &Vec<CollectionRef>,
    message: &str,
    reset_form_id: Option<&str>,
) -> (r: Vec<Update>)
    ensures
        views(r@) == (match reset_form_id {
            Some(form_id) => seq![
                patch(place("#rag-row-"@, c.id), "outer"@, collection_row(ui, c, refs@)),
                UpdateView::Script { code: reset_form(form_id@) },
                toast(FlashKind::Success, message@),
            ],
            None => seq![
                patch(place("#rag-row-"@, c.id), "outer"@, collection_row(ui, c, refs@)),
                toast(FlashKind::Success, message@),
            ],
        }),
{
    let row = render_row(ui, c, refs).to_string();
    let change = Update::patch(&selector("#rag-row-", c.id), "outer", &row);
    match reset_form_id {
        Some(form_id) => {
            let mut code = "document.getElementById('".to_owned();
            code.append(form_id);
            code.append("')?.reset()");
            let mut out: Vec<Update> = Vec::new();
            out.push(change);
            out.push(Update::script(&code));
            out.push(Update::toast(FlashKind::Success, message));
            assert(views(out@) =~= seq![
                patch(place("#rag-row-"@, c.id), "outer"@, collection_row(ui, c, refs@)),
                UpdateView::Script { code: reset_form(form_id@) },
                toast(FlashKind::Success, message@),
            ]);
            out
        },
        None => pair(change, Update::toast(FlashKind::Success, message)),
    }
}

/// The changes that bring the rows of a collection up to date.
pub open spec fn ref_patches(
    ui: &Ui,
    c: &Collection,
    refs: Seq<CollectionRef>,
    primary: Option<&CollectionRef>,
) -> Seq<UpdateView>
    decreases refs.len(),
{
    if refs.len() == 0 {
        Seq::empty()
    } else {
        let r = refs.last();
        ref_patches(ui, c, refs.drop_last(), primary).push(
            patch(place("#rag-ref-"@, r.id), "outer"@, ref_row(ui, c, &r, primary)),
        )
    }
}

/// The changes that bring the rows of all collections up to date.
pub open spec fn status_patches(ui: &Ui, list: Seq<(Collection, Vec<CollectionRef>)>) -> Seq<
    UpdateView,
>
    decreases list.len(),
{
    if list.len() == 0 {
        Seq::empty()
    } else {
        let (c, refs) = list.last();
        status_patches(ui, list.drop_last()) + ref_patches(
            ui,
            &c,
            refs@,
            by_ref(primary_of(refs@)),
        )
    }
}

fn push_ref_patches(
    ui: &Ui,
    c: &Collection,
    refs: &Vec<CollectionRef>,
    primary: Option<&CollectionRef>,
    out: &mut Vec<Update>,
)
    ensures
        views(final(out)@) == views(old(out)@) + ref_patches(ui, c, refs@, primary),
{
    let ghost before = views(out@);
    assert(refs@.take(0) =~= Seq::<CollectionRef>::empty());
    assert(before + Seq::<UpdateView>::empty() =~= before);
    for i in 0..refs.len()
        invariant
            views(out@) == before + ref_patches(ui, c, refs@.take(i as int), primary),
    {
        assert(refs@.take(i + 1).drop_last() =~= refs@.take(i as int));
        let ghost so_far = views(out@);
        let row = render_ref(ui, c, &refs[i], primary).to_string();
        let u = Update::patch(&selector("#rag-ref-", refs[i].id), "outer", &row);
        let ghost uv = u@;
        out.push(u);
        proof {
            assert(views(out@) =~= so_far.push(uv));
            assert(views(out@) =~= before + ref_patches(ui, c, refs@.take(i + 1), primary));
        }
    }
    assert(refs@.take(refs@.len() as int) =~= refs@);
}

/// What the page is told when it asks for the state of the builds: the row of
/// every source, and nothing else, so that fields and open logs are left alone.
pub fn status_updates(ui: &Ui, list: &Vec<(Collection, Vec<CollectionRef>)>) -> (r: Vec<Update>)
    ensures
        views(r@) == status_patches(ui, list@),
{
    let mut out: Vec<Update> = Vec::new();
    assert(list@.take(0) =~= Seq::<(Collection, Vec<CollectionRef>)>::empty());
    assert(views(out@) =~= Seq::<UpdateView>::empty());
    for i in 0..list.len()
        invariant
            views(out@) == status_patches(ui, list@.take(i as int)),
    {
        assert(list@.take(i + 1).drop_last() =~= list@.take(i as int));
        let primary = find_primary(&list[i].1);
        push_ref_patches(ui, &list[i].0, &list[i].1, primary, &mut out);
    }
    assert(list@.take(list@.len() as int) =~= list@);
    out
}

/// What kept an action from being done.
#[derive(Clone, Copy, PartialEq, Eq, Structural, Debug)]
pub enum Trouble {
    /// The source is not there.
    RefNotFound,
    /// The collection of a source, or of a row, is not there.
    CollectionNotFound,
    /// The collection to edit is not there.
    CollectionMissing,
    /// The collection that sources are added to could not be read.
    LoadFailed,
    /// The collection to edit could not be read.
    CollectionUnreadable,
    /// The sources to index again could not be read.
    QueueFailed,
    /// The default source could not be stored.
    PrimaryFailed,
    /// The source could not be deleted.
    RefDeleteFailed,
    /// The log could not be read.
    LogFailed,
    /// The source could not be stored.
    SourceFailed,
    /// The collection could not be stored.
    SaveFailed,
    /// The collection was stored and is no longer there.
    Vanished,
    /// The collection was stored and could not be read again.
    ReloadFailed,
}

impl Trouble {
    /// The message key of a trouble.
    pub open spec fn key(self) -> Seq<char> {
        match self {
            Trouble::RefNotFound => "rag-toast-ref-not-found"@,
            Trouble::CollectionNotFound => "rag-toast-collection-not-found"@,
            Trouble::CollectionMissing => "rag-toast-collection-not-found-cap"@,
            Trouble::LoadFailed => "rag-toast-load-collection-failed"@,
            Trouble::CollectionUnreadable => "rag-toast-load-collection-failed-cap"@,
            Trouble::QueueFailed => "rag-toast-reindex-queue-failed"@,
            Trouble::PrimaryFailed => "rag-toast-set-primary-failed"@,
            Trouble::RefDeleteFailed => "rag-toast-delete-ref-failed"@,
            Trouble::LogFailed => "rag-toast-load-log-failed"@,
            Trouble::SourceFailed => "rag-toast-update-source-failed"@,
            Trouble::SaveFailed => "rag-toast-save-failed"@,
            Trouble::Vanished => "rag-toast-vanished"@,
            Trouble::ReloadFailed => "rag-toast-saved-reload-failed"@,
        }
    }
}

/// What is said of a trouble.
pub fn trouble_notice(trouble: Trouble) -> (r: Notice)
    ensures
        r@ == said(false, trouble.key()),
{
    let key = match trouble {
        Trouble::RefNotFound => "rag-toast-ref-not-found",
        Trouble::CollectionNotFound => "rag-toast-collection-not-found",
        Trouble::CollectionMissing => "rag-toast-collection-not-found-cap",
        Trouble::LoadFailed => "rag-toast-load-collection-failed",
        Trouble::CollectionUnreadable => "rag-toast-load-collection-failed-cap",
        Trouble::QueueFailed => "rag-toast-reindex-queue-failed",
        Trouble::PrimaryFailed => "rag-toast-set-primary-failed",
        Trouble::RefDeleteFailed => "rag-toast-delete-ref-failed",
        Trouble::LogFailed => "rag-toast-load-log-failed",
        Trouble::SourceFailed => "rag-toast-update-source-failed",
        Trouble::SaveFailed => "rag-toast-save-failed",
        Trouble::Vanished => "rag-toast-vanished",
        Trouble::ReloadFailed => "rag-toast-saved-reload-failed",
    };
    Notice::plain(false, key)
}

/// What is said of a form that could not be read.
pub fn malformed_form_toast(error: &str) -> (r: Notice)
    ensures
        r@ == said(false, "rag-toast-malformed-form"@).with("err"@, error@),
{
    Notice::plain(false, "rag-toast-malformed-form").and("err", error)
}

/// What was done to the sources of a collection.
#[derive(Clone, Copy, PartialEq, Eq, Structural, Debug)]
pub enum SourceChange {
    /// It was added, and is indexed.
    Added,
    /// It is indexed again.
    Reindexed,
    /// It is the default now.
    MadePrimary,
    /// It was deleted.
    Removed,
}

impl SourceChange {
    /// The message key of a change.
    pub open spec fn key(self) -> Seq<char> {
        match self {
            SourceChange::Added => "rag-toast-indexing-queued-ref"@,
            SourceChange::Reindexed => "rag-toast-reindex-queued-ref"@,
            SourceChange::MadePrimary => "rag-toast-now-default"@,
            SourceChange::Removed => "rag-toast-ref-removed"@,
        }
    }
}

/// What is said once a source was changed.
pub fn source_changed(change: SourceChange, git_ref: &str) -> (r: Notice)
    ensures
        r@ == said(true, change.key()).with("ref"@, git_ref@),
{
    let key = match change {
        SourceChange::Added => "rag-toast-indexing-queued-ref",
        SourceChange::Reindexed => "rag-toast-reindex-queued-ref",
        SourceChange::MadePrimary => "rag-toast-now-default",
        SourceChange::Removed => "rag-toast-ref-removed",
    };
    Notice::plain(true, key).and("ref", git_ref)
}

/// What is said once all sources of a collection are indexed again.
pub fn all_reindexed(count: u64) -> (r: Notice)
    ensures
        r@ == said(true, "rag-toast-reindex-queued-count"@).with("count"@, decimal(count as nat)),
{
    Notice::plain(true, "rag-toast-reindex-queued-count").and("count", &show_u64(count))
}

/// What is said once the address of a source was changed.
pub fn source_updated() -> (r: Notice)
    ensures
        r@ == said(true, "rag-toast-source-updated"@),
{
    Notice::plain(true, "rag-toast-source-updated")
}

/// What is said once a collection was saved.
pub fn collection_saved(name: &str) -> (r: Notice)
    ensures
        r@ == said(true, "rag-toast-saved"@).with("name"@, name@),
{
    Notice::plain(true, "rag-toast-saved").and("name", name)
}

/// What a source shows below its row: its log, the form to edit it, or nothing.
pub fn below_row(ref_id: i64, markup: &str) -> (r: Vec<Update>)
    ensures
        views(r@) == seq![patch(place("#rag-reflog-"@, ref_id), "inner"@, markup@)],
{
    single(Update::patch(&selector("#rag-reflog-", ref_id), "inner", markup))
}

/// A row as it is now: the collection, or the form to edit it.
pub fn row_shown(id: i64, html: &Html) -> (r: Vec<Update>)
    ensures
        views(r@) == seq![patch(place("#rag-row-"@, id), "outer"@, html@)],
{
    single(Update::patch(&selector("#rag-row-", id), "outer", &html.to_string()))
}

/// What the page is told of a deletion: the row goes, or why it does not.
pub fn deleted(ui: &Ui, id: i64, outcome: StoreOutcome) -> (r: Vec<Update>)
    ensures
        views(r@) == (match outcome {
            StoreOutcome::Done => seq![
                patch(place("#rag-row-"@, id), "remove"@, ""@),
                toast(FlashKind::Success, ui.message("rag-toast-collection-removed"@)),
            ],
            StoreOutcome::NotDone => seq![
                toast(FlashKind::Info, ui.message("rag-toast-collection-already-gone"@)),
            ],
            StoreOutcome::Failed => seq![
                toast(FlashKind::Error, ui.message("rag-toast-delete-failed"@)),
            ],
        }),
{
    match outcome {
        StoreOutcome::Done => pair(
            Update::patch(&selector("#rag-row-", id), "remove", ""),
            Update::toast(FlashKind::Success, &ui.t("rag-toast-collection-removed")),
        ),
        StoreOutcome::NotDone => only_toast(
            FlashKind::Info,
            &ui.t("rag-toast-collection-already-gone"),
        ),
        StoreOutcome::Failed => only_toast(FlashKind::Error, &ui.t("rag-toast-delete-failed")),
    }
}

// ---------------------------------------------------------------------------
// Laws

/// In an aggregate collection all sources rebuild together, so the row of a
/// source shows the primary's state and nothing of its own: only name and
/// buttons are the source's.
pub proof fn aggregate_rows_mirror_the_primary(
    ui: &Ui,
    c: &Collection,
    a: &CollectionRef,
    b: &CollectionRef,
    primary: &CollectionRef,
)
    requires
        c.search_mode == SearchMode::Aggregate,
        a.id == b.id,
        a.git_ref@ == b.git_ref@,
        a.source_label@ == b.source_label@,
    ensures
        ref_row(ui, c, a, Some(primary)) == ref_row(ui, c, b, Some(primary)),
{
    reveal(ref_row);
}

/// In a versioned collection every row shows its own build, whichever source is
/// the primary.
pub proof fn versioned_rows_stand_alone(
    ui: &Ui,
    c: &Collection,
    r: &CollectionRef,
    primary: Option<&CollectionRef>,
)
    requires
        c.search_mode == SearchMode::Versioned,
    ensures
        ref_row(ui, c, r, primary) == ref_row(ui, c, r, None),
{
    reveal(ref_row);
}

/// A poll brings every source up to date: it names the row of the source, which
/// carries that name, and gives it as it stands.
pub proof fn every_source_is_polled(
    ui: &Ui,
    list: Seq<(Collection, Vec<CollectionRef>)>,
    i: int,
    k: int,
)
    requires
        0 <= i < list.len(),
        0 <= k < list[i].1@.len(),
    ensures
        ({
            let r = list[i].1@[k];
            let row = ref_row(ui, &list[i].0, &r, by_ref(primary_of(list[i].1@)));
            let name = place("rag-ref-"@, r.id);
            &&& status_patches(ui, list).contains(patch("#"@ + name, "outer"@, row))
            &&& (r#"<div id=""#@ + name + r#"""#@).is_prefix_of(row)
        }),
    decreases list.len(),
{
    let r = list[i].1@[k];
    let primary = by_ref(primary_of(list[i].1@));
    let row = ref_row(ui, &list[i].0, &r, primary);
    let name = place("rag-ref-"@, r.id);
    assert("#"@ + name == place("#rag-ref-"@, r.id) && (r#"<div id=""#@ + name
        + r#"""#@).is_prefix_of(row)) by {
        reveal_strlit("#");
        reveal_strlit("rag-ref-");
        reveal_strlit("#rag-ref-");
        assert("#"@ + "rag-ref-"@ =~= "#rag-ref-"@);
        assert("#"@ + name =~= "#"@ + "rag-ref-"@ + signed_decimal(r.id as int));
        lemma_row_name(ui, &list[i].0, &r, primary);
    }
    let before = status_patches(ui, list.drop_last());
    let all = status_patches(ui, list);
    if i == list.len() - 1 {
        lemma_ref_patch(ui, &list[i].0, list[i].1@, primary, k);
        let here = ref_patches(ui, &list[i].0, list[i].1@, primary);
        assert(all[before.len() + k] == here[k]);
    } else {
        every_source_is_polled(ui, list.drop_last(), i, k);
        let at = before.index_of(patch("#"@ + name, "outer"@, row));
        assert(all[at] == before[at]);
    }
}

proof fn lemma_row_name(
    ui: &Ui,
    c: &Collection,
    r: &CollectionRef,
    primary: Option<&CollectionRef>,
)
    ensures
        (r#"<div id=""#@ + place("rag-ref-"@, r.id) + r#"""#@).is_prefix_of(
            ref_row(ui, c, r, primary),
        ),
{
    let head = r#"<div id=""#@ + place("rag-ref-"@, r.id) + r#"""#@;
    let aggregate = c.search_mode == SearchMode::Aggregate;
    let s = status_source(c, r, primary);
    let a = r#"<div id="rag-ref-"#@ + signed_decimal(r.id as int)
        + r#"" class="flex items-center gap-2 text-sm flex-wrap"><span class="font-mono">"#@;
    lemma_row_head(signed_decimal(r.id as int));
    let b = a + escaped(ref_label(c, r));
    let d = b + "</span>"@;
    let e = d + (if r.is_primary && !aggregate {
        r#"<span class="badge badge-sm">"#@
            + escaped(ui.message("rag-badge-primary"@))
            + "</span>"@
    } else {
        Seq::<char>::empty()
    });
    let f = e + status_badge_markup(ui, s.status);
    let g = f + r#"<span class="text-xs text-base-content/60">"#@;
    let h = g + escaped(indexed_line(ui, s));
    let k = h + "</span>"@;
    let l = k + error_line(s);
    let m = l + ref_buttons(ui, r, aggregate);
    assert(ref_row(ui, c, r, primary) == m + "</div>"@) by {
        reveal(ref_row);
    }
    lemma_longer(head, a, escaped(ref_label(c, r)));
    lemma_longer(head, b, "</span>"@);
    lemma_longer(head, d, e.skip(d.len() as int));
    assert(d + e.skip(d.len() as int) =~= e);
    lemma_longer(head, e, status_badge_markup(ui, s.status));
    lemma_longer(head, f, r#"<span class="text-xs text-base-content/60">"#@);
    lemma_longer(head, g, escaped(indexed_line(ui, s)));
    lemma_longer(head, h, "</span>"@);
    lemma_longer(head, k, error_line(s));
    lemma_longer(head, l, ref_buttons(ui, r, aggregate));
    lemma_longer(head, m, "</div>"@);
}

proof fn lemma_longer(head: Seq<char>, a: Seq<char>, b: Seq<char>)
    requires
        head.is_prefix_of(a),
    ensures
        head.is_prefix_of(a + b),
{
    assert((a + b).subrange(0, head.len() as int) =~= a.subrange(0, head.len() as int));
}

proof fn lemma_row_head(number: Seq<char>)
    ensures
        (r#"<div id=""#@ + ("rag-ref-"@ + number) + r#"""#@).is_prefix_of(
            r#"<div id="rag-ref-"#@ + number
                + r#"" class="flex items-center gap-2 text-sm flex-wrap"><span class="font-mono">"#@,
        ),
{
    reveal_strlit(r#"<div id=""#);
    reveal_strlit("rag-ref-");
    reveal_strlit(r#"<div id="rag-ref-"#);
    reveal_strlit(r#"""#);
    reveal_strlit(r#"" class="flex items-center gap-2 text-sm flex-wrap"><span class="font-mono">"#);
    assert(r#"<div id="rag-ref-"#@ =~= r#"<div id=""#@ + "rag-ref-"@);
    let head = r#"<div id=""#@ + ("rag-ref-"@ + number) + r#"""#@;
    let row = r#"<div id="rag-ref-"#@ + number
        + r#"" class="flex items-center gap-2 text-sm flex-wrap"><span class="font-mono">"#@;
    assert(row.subrange(0, head.len() as int) =~= head);
}

proof fn lemma_ref_patch(
    ui: &Ui,
    c: &Collection,
    refs: Seq<CollectionRef>,
    primary: Option<&CollectionRef>,
    k: int,
)
    requires
        0 <= k < refs.len(),
    ensures
        ref_patches(ui, c, refs, primary).len() == refs.len(),
        ref_patches(ui, c, refs, primary)[k] == patch(
            place("#rag-ref-"@, refs[k].id),
            "outer"@,
            ref_row(ui, c, &refs[k], primary),
        ),
    decreases refs.len(),
{
    if refs.len() > 1 {
        lemma_ref_patch(ui, c, refs.drop_last(), primary, if k < refs.len() - 1 {
            k
        } else {
            0
        });
    } else {
        assert(ref_patches(ui, c, refs.drop_last(), primary).len() == 0);
    }
}

/// Sources that are added together bring at most one primary, and bring one
/// exactly if there was none.
pub proof fn one_primary(had_refs: bool, i: int, k: int)
    requires
        0 <= i,
        0 <= k,
    ensures
        takes_lead(had_refs, i) && takes_lead(had_refs, k) ==> i == k,
        takes_lead(had_refs, 0) <==> !had_refs,
        had_refs ==> !takes_lead(had_refs, i),
{
}

/// The access token of a collection never reaches a page: two collections that
/// differ in nothing but the token look the same. The page says whether there is
/// one, and no more.
pub proof fn pat_is_not_shown(
    ui: &Ui,
    a: &Collection,
    b: &Collection,
    refs: Seq<CollectionRef>,
    models: Seq<String>,
)
    requires
        a.pat is Some <==> b.pat is Some,
        *b == (Collection { pat: b.pat, ..*a }),
    ensures
        collection_row(ui, a, refs) == collection_row(ui, b, refs),
        edit_form(ui, a, models) == edit_form(ui, b, models),
{
    reveal(collection_row);
    rows_ignore_pat(ui, a, b, refs, by_ref(primary_of(refs)));
}

proof fn rows_ignore_pat(
    ui: &Ui,
    a: &Collection,
    b: &Collection,
    refs: Seq<CollectionRef>,
    primary: Option<&CollectionRef>,
)
    requires
        *b == (Collection { pat: b.pat, ..*a }),
    ensures
        ref_rows(ui, a, refs, primary) == ref_rows(ui, b, refs, primary),
    decreases refs.len(),
{
    if refs.len() > 0 {
        rows_ignore_pat(ui, a, b, refs.drop_last(), primary);
        reveal(ref_row);
    }
}

proof fn lemma_two_words(a: Seq<char>, b: Seq<char>)
    requires
        a.len() > 0,
        b.len() > 0,
        free_of(a, true, Seq::empty()),
        free_of(b, true, Seq::empty()),
    ensures
        trimmed(a + " "@ + b) == a + " "@ + b,
        words_of(a + " "@ + b) == seq![a, b],
        trimmed(a) == a,
        words_of(a) == seq![a],
{
    reveal_strlit(" ");
    assert(" "@ =~= seq![' ']);
    let two = seq![a, b];
    assert(two.drop_last() =~= seq![a]);
    assert(joined(two, seq![' ']) == joined(seq![a], seq![' ']) + seq![' '] + b);
    assert(joined(seq![a], seq![' ']) == a);
    words_undo_join(two);
    words_undo_join(seq![a]);
    let line = a + " "@ + b;
    assert(!in_class(a[0], true, Seq::empty()));
    assert(!in_class(a[a.len() - 1], true, Seq::empty()));
    assert(!in_class(b[b.len() - 1], true, Seq::empty()));
    assert(line[0] == a[0]);
    assert(line.last() == b.last());
    lemma_item_trimmed(line);
    lemma_item_trimmed(a);
}

/// A branch or tag may be written with an `@` before it or without: both lines stand
/// for the same source. A line with an address alone, or with nothing behind the `@`,
/// takes the branch or tag of the collection.
pub proof fn a_line_names_its_source(
    url: Seq<char>,
    git_ref: Seq<char>,
    default_ref: Seq<char>,
)
    requires
        url.len() > 0,
        git_ref.len() > 0,
        free_of(url, true, Seq::empty()),
        free_of(git_ref, true, Seq::empty()),
        url[0] != '#',
        git_ref[0] != '@',
    ensures
        bulk_line(url + " "@ + git_ref, default_ref) == Some((url, git_ref)),
        bulk_line(url + " @"@ + git_ref, default_ref) == Some((url, git_ref)),
        bulk_line(url, default_ref) == Some((url, default_ref)),
        bulk_line(url + " @"@, default_ref) == Some((url, default_ref)),
{
    reveal_strlit(" ");
    reveal_strlit("@");
    reveal_strlit(" @");
    let at = "@"@;
    assert(at =~= seq!['@']);
    assert(at[0] == '@');
    assert(free_of(at, true, Seq::empty()));
    let marked = at + git_ref;
    assert forall|i: int| 0 <= i < marked.len() implies !in_class(
        #[trigger] marked[i],
        true,
        Seq::empty(),
    ) by {
        if i > 0 {
            assert(marked[i] == git_ref[i - 1]);
        }
    }
    lemma_two_words(url, git_ref);
    lemma_two_words(url, marked);
    lemma_two_words(url, at);
    assert(url + " @"@ + git_ref =~= url + " "@ + marked);
    assert(url + " @"@ =~= url + " "@ + at);
    assert(marked.drop_first() =~= git_ref);
    assert(!in_class(git_ref[0], false, at));
    assert(without_prefix(git_ref, false, at) == git_ref);
    assert(in_class(marked[0], false, at));
    assert(without_prefix(marked, false, at) == git_ref);
    let none = Seq::<char>::empty();
    assert(at.drop_first() =~= none);
    assert(without_prefix(none, false, at) == none);
    assert(in_class(at[0], false, at));
    assert(without_prefix(at, false, at) == none);
    assert((url + " "@ + git_ref)[0] == url[0]);
    assert((url + " "@ + marked)[0] == url[0]);
    assert((url + " "@ + at)[0] == url[0]);
}

/// Blank lines and lines that begin with `#`, be it after blanks, name no source.
pub proof fn comments_name_no_source(line: Seq<char>, default_ref: Seq<char>)
    requires
        trimmed(line).len() == 0 || trimmed(line)[0] == '#',
    ensures
        bulk_line(line, default_ref) is None,
{
}

/// No source has a branch or tag that begins with `@`, unless that of the collection
/// does, and every source has the address that begins its line.
pub proof fn no_ref_keeps_its_at_sign(line: Seq<char>, default_ref: Seq<char>)
    ensures
        bulk_line(line, default_ref) matches Some(p) ==> {
            &&& p.1 == default_ref || (p.1.len() > 0 && p.1[0] != '@')
            &&& words_of(trimmed(line)).len() > 0
            &&& p.0 == words_of(trimmed(line))[0]
        },
{
    let words = words_of(trimmed(line));
    if words.len() > 1 {
        reveal_strlit("@");
        let n = stripping_takes_the_prefix_only(words[1], "@"@);
        assert("@"@[0] == '@');
        assert("@"@.contains('@'));
    }
}

proof fn lemma_sources_of_lines(lines: Seq<Seq<char>>, default_ref: Seq<char>)
    ensures
        forall|i: int|
            0 <= i < bulk_lines(lines, default_ref).len() ==> exists|k: int|
                0 <= k < lines.len() && bulk_line(#[trigger] lines[k], default_ref) == Some(
                    #[trigger] bulk_lines(lines, default_ref)[i],
                ),
        forall|k: int|
            0 <= k < lines.len() && bulk_line(#[trigger] lines[k], default_ref) is Some
                ==> bulk_lines(lines, default_ref).contains(bulk_line(lines[k], default_ref)->0),
    decreases lines.len(),
{
    if lines.len() > 0 {
        let d = lines.drop_last();
        let head = bulk_lines(d, default_ref);
        let all = bulk_lines(lines, default_ref);
        lemma_sources_of_lines(d, default_ref);
        assert forall|i: int| 0 <= i < all.len() implies exists|k: int|
            0 <= k < lines.len() && bulk_line(#[trigger] lines[k], default_ref) == Some(
                #[trigger] all[i],
            ) by {
            if i < head.len() {
                assert(all[i] == head[i]);
                let k = choose|k: int|
                    0 <= k < d.len() && bulk_line(#[trigger] d[k], default_ref) == Some(head[i]);
                assert(lines[k] == d[k]);
            } else {
                assert(bulk_line(lines[lines.len() - 1], default_ref) == Some(all[i]));
            }
        }
        assert forall|k: int|
            0 <= k < lines.len() && bulk_line(#[trigger] lines[k], default_ref) is Some implies all.contains(
            bulk_line(lines[k], default_ref)->0,
        ) by {
            let p = bulk_line(lines[k], default_ref)->0;
            if k < d.len() {
                assert(d[k] == lines[k]);
                assert(head.contains(p));
                let j = choose|j: int| 0 <= j < head.len() && head[j] == p;
                assert(all[j] == p);
            } else {
                assert(all[all.len() - 1] == p);
            }
        }
    }
}

/// A bulk form gives the sources that its lines name, all of them and no others, and
/// none of them has a branch or tag that begins with `@` unless that of the collection
/// does.
pub proof fn a_bulk_form_gives_what_its_lines_name(sources: Seq<char>, default_ref: Seq<char>)
    ensures
        ({
            let lines = split_parts(sources, false, "\n"@);
            let given = bulk_sources(sources, default_ref);
            &&& forall|k: int|
                0 <= k < lines.len() && bulk_line(#[trigger] lines[k], default_ref) is Some
                    ==> given.contains(bulk_line(lines[k], default_ref)->0)
            &&& forall|i: int|
                0 <= i < given.len() ==> exists|k: int|
                    0 <= k < lines.len() && bulk_line(#[trigger] lines[k], default_ref) == Some(
                        #[trigger] given[i],
                    )
            &&& forall|i: int|
                0 <= i < given.len() ==> (#[trigger] given[i]).1 == default_ref || (given[i].1.len()
                    > 0 && given[i].1[0] != '@')
        }),
{
    let lines = split_parts(sources, false, "\n"@);
    let given = bulk_sources(sources, default_ref);
    lemma_sources_of_lines(lines, default_ref);
    assert forall|i: int| 0 <= i < given.len() implies (#[trigger] given[i]).1 == default_ref || (
    given[i].1.len() > 0 && given[i].1[0] != '@') by {
        let k = choose|k: int|
            0 <= k < lines.len() && bulk_line(#[trigger] lines[k], default_ref) == Some(given[i]);
        no_ref_keeps_its_at_sign(lines[k], default_ref);
    }
}

/// Chunks of one to 8000 characters that overlap by less than their size are taken,
/// and no others.
pub proof fn chunks_are_bounded(size: i64, overlap: i64)
    ensures
        chunk_fault(size, overlap) is None <==> 1 <= size <= 8000 && 0 <= overlap < size,
        !(1 <= size <= 8000) ==> chunk_fault(size, overlap) == Some("rag-toast-chunk-size-range"@),
        1 <= size <= 8000 && !(0 <= overlap < size) ==> chunk_fault(size, overlap) == Some(
            "rag-toast-chunk-overlap-range"@,
        ),
{
}

/// A new collection is what was typed into its form: each text in its place, without
/// the blanks around it. What was left out has its default: the branch `main`, chunks
/// of 800 that overlap by 100, one repository.
pub proof fn a_new_collection_is_as_typed(form: CreateForm, new: NewCollection)
    requires
        call_ensures(validate, (form,), Ok::<NewCollection, Notice>(new)),
    ensures
        new.name@ == trimmed(form.name@),
        1 <= utf8_len(new.name@) <= 64,
        opt_text(new.description) == nonblank(opt_text(form.description)),
        new.git_url@ == trimmed(form.git_url@),
        nonblank(opt_text(form.git_ref)) is Some ==> Some(new.git_ref@) == nonblank(
            opt_text(form.git_ref),
        ),
        nonblank(opt_text(form.git_ref)) is None ==> new.git_ref@ == "main"@,
        opt_text(new.pat) == nonblank(opt_text(form.pat)),
        new.embedding_model@ == trimmed(form.embedding_model@),
        new.embedding_model@.len() > 0,
        texts(new.include_globs@) == items_of(text_or_empty(opt_text(form.include_globs)), ",\n"@),
        texts(new.exclude_globs@) == items_of(text_or_empty(opt_text(form.exclude_globs)), ",\n"@),
        form.chunk_size is Some ==> form.chunk_size == Some(new.chunk_size),
        form.chunk_size is None ==> new.chunk_size == 800,
        form.chunk_overlap is Some ==> form.chunk_overlap == Some(new.chunk_overlap),
        form.chunk_overlap is None ==> new.chunk_overlap == 100,
        1 <= new.chunk_size <= 8000,
        0 <= new.chunk_overlap < new.chunk_size,
        new.search_mode == SearchMode::Aggregate <==> form.aggregate is Some,
        new.search_mode == SearchMode::Versioned ==> new.git_url@.len() > 0,
{
    crate::text::lemma_bytes(trimmed(form.name@));
}

proof fn lemma_edit_form_shows_the_collection()
    ensures
        starts_as(
            r#"/update" method="post" class="card border border-base-300 bg-base-200""#@,
            r#"/update" method="post""#@,
        ),
        ends_in(
            r#"</span></div><input name="description" type="text" value=""#@,
            r#"<input name="description" type="text" value=""#@,
        ),
        starts_as(
            r#"" class="input input-bordered w-full"></label>"#@,
            r#"" class="#@,
        ),
        starts_as(
            r#"" class="py-4"><form action="/rag/"#@,
            r#"" class="#@,
        ),
        starts_as(
            r#"" class="input input-bordered w-full">"#@,
            r#"" class="#@,
        ),
        starts_as(
            r#"" class="input input-bordered w-full"></label><label class="flex flex-col gap-1 w-full">"#@,
            r#"" class="#@,
        ),
        ends_in(
            r#"</span></div><input name="git_url" type="text" value=""#@,
            r#"<input name="git_url" type="text" value=""#@,
        ),
        ends_in(
            r#"</span></div><input name="git_ref" type="text" value=""#@,
            r#"<input name="git_ref" type="text" value=""#@,
        ),
        ends_in(
            r#"</span></div><input name="include_globs" type="text" value=""#@,
            r#"<input name="include_globs" type="text" value=""#@,
        ),
        starts_as(
            r#"" placeholder="developers, network_admin" class="input input-bordered w-full font-mono">"#@,
            r#"" placeholder=""#@,
        ),
        ends_in(
            r#"</span></div><input name="exclude_globs" type="text" value=""#@,
            r#"<input name="exclude_globs" type="text" value=""#@,
        ),
        ends_in(
            r#"</span></div><input name="chunk_size" type="number" value=""#@,
            r#"<input name="chunk_size" type="number" value=""#@,
        ),
        starts_as(
            r#"" min="1" max="8000" class="input input-bordered w-full"></label>"#@,
            r#"" min="1""#@,
        ),
        ends_in(
            r#"</span></div><input name="chunk_overlap" type="number" value=""#@,
            r#"<input name="chunk_overlap" type="number" value=""#@,
        ),
        starts_as(
            r#"" min="0" class="input input-bordered w-full"></label></div>"#@,
            r#"" min="0""#@,
        ),
        ends_in(
            r#"</span></div><input name="allowed_groups" type="text" value=""#@,
            r#"<input name="allowed_groups" type="text" value=""#@,
        ),
        starts_as(
            r#"" placeholder="developers, network_admin" class="input input-bordered w-full font-mono">"#@,
            r#"" placeholder="developers"#@,
        ),
        shows(
            r#"<input type="checkbox" name="clear_pat" value="1" class="checkbox checkbox-sm">"#@,
            r#"<input type="checkbox" name="clear_pat" value="1""#@,
        ),
        starts_as(
            r#"</span></div><input name="allowed_groups" type="text" value=""#@,
            "</span>"@,
        ),
        starts_as(
            r#"</span></div><input name="pat" type="password" placeholder=""#@,
            "</span>"@,
        ),
        starts_as(
            r#"</span></div><input name="chunk_size" type="number" value=""#@,
            "</span>"@,
        ),
        starts_as(
            r#"</span></div><input name="git_ref" type="text" value=""#@,
            "</span>"@,
        ),
        starts_as(
            r#"</span></div><input name="exclude_globs" type="text" value=""#@,
            "</span>"@,
        ),
        starts_as(
            r#"</span></div><input name="chunk_overlap" type="number" value=""#@,
            "</span>"@,
        ),
        starts_as(
            r#"</span></div><input name="include_globs" type="text" value=""#@,
            "</span>"@,
        ),
        starts_as(
            r#"</span></div></label><div class="card-actions justify-end mt-2 gap-2"><form action="/rag/"#@,
            "</span>"@,
        ),
        starts_as(
            r#"</span></div><input name="description" type="text" value=""#@,
            "</span>"@,
        ),
        starts_as(
            r#"</span></div><input name="git_url" type="text" value=""#@,
            "</span>"@,
        ),
        starts_as(
            "</span></label>"@,
            "</span>"@,
        ),
{
    assert(starts_as(r#"/update" method="post" class="card border border-base-300 bg-base-200""#@, r#"/update" method="post""#@)) by {
        reveal(starts_as);
        reveal_strlit(r#"/update" method="post" class="card border border-base-300 bg-base-200""#);
        reveal_strlit(r#"/update" method="post""#);
        assert(r#"/update" method="post" class="card border border-base-300 bg-base-200""#@.take(22) =~= r#"/update" method="post""#@);
    }
    assert(ends_in(r#"</span></div><input name="description" type="text" value=""#@, r#"<input name="description" type="text" value=""#@)) by {
        reveal(ends_in);
        reveal_strlit(r#"</span></div><input name="description" type="text" value=""#);
        reveal_strlit(r#"<input name="description" type="text" value=""#);
        assert(r#"</span></div><input name="description" type="text" value=""#@.skip(13) =~= r#"<input name="description" type="text" value=""#@);
    }
    assert(starts_as(r#"" class="input input-bordered w-full"></label>"#@, r#"" class="#@)) by {
        reveal(starts_as);
        reveal_strlit(r#"" class="input input-bordered w-full"></label>"#);
        reveal_strlit(r#"" class="#);
        assert(r#"" class="input input-bordered w-full"></label>"#@.take(8) =~= r#"" class="#@);
    }
    assert(starts_as(r#"" class="py-4"><form action="/rag/"#@, r#"" class="#@)) by {
        reveal(starts_as);
        reveal_strlit(r#"" class="py-4"><form action="/rag/"#);
        reveal_strlit(r#"" class="#);
        assert(r#"" class="py-4"><form action="/rag/"#@.take(8) =~= r#"" class="#@);
    }
    assert(starts_as(r#"" class="input input-bordered w-full">"#@, r#"" class="#@)) by {
        reveal(starts_as);
        reveal_strlit(r#"" class="input input-bordered w-full">"#);
        reveal_strlit(r#"" class="#);
        assert(r#"" class="input input-bordered w-full">"#@.take(8) =~= r#"" class="#@);
    }
    assert(starts_as(r#"" class="input input-bordered w-full"></label><label class="flex flex-col gap-1 w-full">"#@, r#"" class="#@)) by {
        reveal(starts_as);
        reveal_strlit(r#"" class="input input-bordered w-full"></label><label class="flex flex-col gap-1 w-full">"#);
        reveal_strlit(r#"" class="#);
        assert(r#"" class="input input-bordered w-full"></label><label class="flex flex-col gap-1 w-full">"#@.take(8) =~= r#"" class="#@);
    }
    assert(ends_in(r#"</span></div><input name="git_url" type="text" value=""#@, r#"<input name="git_url" type="text" value=""#@)) by {
        reveal(ends_in);
        reveal_strlit(r#"</span></div><input name="git_url" type="text" value=""#);
        reveal_strlit(r#"<input name="git_url" type="text" value=""#);
        assert(r#"</span></div><input name="git_url" type="text" value=""#@.skip(13) =~= r#"<input name="git_url" type="text" value=""#@);
    }
    assert(ends_in(r#"</span></div><input name="git_ref" type="text" value=""#@, r#"<input name="git_ref" type="text" value=""#@)) by {
        reveal(ends_in);
        reveal_strlit(r#"</span></div><input name="git_ref" type="text" value=""#);
        reveal_strlit(r#"<input name="git_ref" type="text" value=""#);
        assert(r#"</span></div><input name="git_ref" type="text" value=""#@.skip(13) =~= r#"<input name="git_ref" type="text" value=""#@);
    }
    assert(ends_in(r#"</span></div><input name="include_globs" type="text" value=""#@, r#"<input name="include_globs" type="text" value=""#@)) by {
        reveal(ends_in);
        reveal_strlit(r#"</span></div><input name="include_globs" type="text" value=""#);
        reveal_strlit(r#"<input name="include_globs" type="text" value=""#);
        assert(r#"</span></div><input name="include_globs" type="text" value=""#@.skip(13) =~= r#"<input name="include_globs" type="text" value=""#@);
    }
    assert(starts_as(r#"" placeholder="developers, network_admin" class="input input-bordered w-full font-mono">"#@, r#"" placeholder=""#@)) by {
        reveal(starts_as);
        reveal_strlit(r#"" placeholder="developers, network_admin" class="input input-bordered w-full font-mono">"#);
        reveal_strlit(r#"" placeholder=""#);
        assert(r#"" placeholder="developers, network_admin" class="input input-bordered w-full font-mono">"#@.take(15) =~= r#"" placeholder=""#@);
    }
    assert(ends_in(r#"</span></div><input name="exclude_globs" type="text" value=""#@, r#"<input name="exclude_globs" type="text" value=""#@)) by {
        reveal(ends_in);
        reveal_strlit(r#"</span></div><input name="exclude_globs" type="text" value=""#);
        reveal_strlit(r#"<input name="exclude_globs" type="text" value=""#);
        assert(r#"</span></div><input name="exclude_globs" type="text" value=""#@.skip(13) =~= r#"<input name="exclude_globs" type="text" value=""#@);
    }
    assert(ends_in(r#"</span></div><input name="chunk_size" type="number" value=""#@, r#"<input name="chunk_size" type="number" value=""#@)) by {
        reveal(ends_in);
        reveal_strlit(r#"</span></div><input name="chunk_size" type="number" value=""#);
        reveal_strlit(r#"<input name="chunk_size" type="number" value=""#);
        assert(r#"</span></div><input name="chunk_size" type="number" value=""#@.skip(13) =~= r#"<input name="chunk_size" type="number" value=""#@);
    }
    assert(starts_as(r#"" min="1" max="8000" class="input input-bordered w-full"></label>"#@, r#"" min="1""#@)) by {
        reveal(starts_as);
        reveal_strlit(r#"" min="1" max="8000" class="input input-bordered w-full"></label>"#);
        reveal_strlit(r#"" min="1""#);
        assert(r#"" min="1" max="8000" class="input input-bordered w-full"></label>"#@.take(9) =~= r#"" min="1""#@);
    }
    assert(ends_in(r#"</span></div><input name="chunk_overlap" type="number" value=""#@, r#"<input name="chunk_overlap" type="number" value=""#@)) by {
        reveal(ends_in);
        reveal_strlit(r#"</span></div><input name="chunk_overlap" type="number" value=""#);
        reveal_strlit(r#"<input name="chunk_overlap" type="number" value=""#);
        assert(r#"</span></div><input name="chunk_overlap" type="number" value=""#@.skip(13) =~= r#"<input name="chunk_overlap" type="number" value=""#@);
    }
    assert(starts_as(r#"" min="0" class="input input-bordered w-full"></label></div>"#@, r#"" min="0""#@)) by {
        reveal(starts_as);
        reveal_strlit(r#"" min="0" class="input input-bordered w-full"></label></div>"#);
        reveal_strlit(r#"" min="0""#);
        assert(r#"" min="0" class="input input-bordered w-full"></label></div>"#@.take(9) =~= r#"" min="0""#@);
    }
    assert(ends_in(r#"</span></div><input name="allowed_groups" type="text" value=""#@, r#"<input name="allowed_groups" type="text" value=""#@)) by {
        reveal(ends_in);
        reveal_strlit(r#"</span></div><input name="allowed_groups" type="text" value=""#);
        reveal_strlit(r#"<input name="allowed_groups" type="text" value=""#);
        assert(r#"</span></div><input name="allowed_groups" type="text" value=""#@.skip(13) =~= r#"<input name="allowed_groups" type="text" value=""#@);
    }
    assert(starts_as(r#"" placeholder="developers, network_admin" class="input input-bordered w-full font-mono">"#@, r#"" placeholder="developers"#@)) by {
        reveal(starts_as);
        reveal_strlit(r#"" placeholder="developers, network_admin" class="input input-bordered w-full font-mono">"#);
        reveal_strlit(r#"" placeholder="developers"#);
        assert(r#"" placeholder="developers, network_admin" class="input input-bordered w-full font-mono">"#@.take(25) =~= r#"" placeholder="developers"#@);
    }
    assert(shows(r#"<input type="checkbox" name="clear_pat" value="1" class="checkbox checkbox-sm">"#@, r#"<input type="checkbox" name="clear_pat" value="1""#@)) by {
        reveal(shows);
        reveal_strlit(r#"<input type="checkbox" name="clear_pat" value="1" class="checkbox checkbox-sm">"#);
        reveal_strlit(r#"<input type="checkbox" name="clear_pat" value="1""#);
        assert(r#"<input type="checkbox" name="clear_pat" value="1" class="checkbox checkbox-sm">"#@.subrange(0, 49) =~= r#"<input type="checkbox" name="clear_pat" value="1""#@);
        assert(occurs_at(r#"<input type="checkbox" name="clear_pat" value="1" class="checkbox checkbox-sm">"#@, r#"<input type="checkbox" name="clear_pat" value="1""#@, 0));
    }
    assert(starts_as(r#"</span></div><input name="allowed_groups" type="text" value=""#@, "</span>"@)) by {
        reveal(starts_as);
        reveal_strlit(r#"</span></div><input name="allowed_groups" type="text" value=""#);
        reveal_strlit("</span>");
        assert(r#"</span></div><input name="allowed_groups" type="text" value=""#@.take(7) =~= "</span>"@);
    }
    assert(starts_as(r#"</span></div><input name="pat" type="password" placeholder=""#@, "</span>"@)) by {
        reveal(starts_as);
        reveal_strlit(r#"</span></div><input name="pat" type="password" placeholder=""#);
        reveal_strlit("</span>");
        assert(r#"</span></div><input name="pat" type="password" placeholder=""#@.take(7) =~= "</span>"@);
    }
    assert(starts_as(r#"</span></div><input name="chunk_size" type="number" value=""#@, "</span>"@)) by {
        reveal(starts_as);
        reveal_strlit(r#"</span></div><input name="chunk_size" type="number" value=""#);
        reveal_strlit("</span>");
        assert(r#"</span></div><input name="chunk_size" type="number" value=""#@.take(7) =~= "</span>"@);
    }
    assert(starts_as(r#"</span></div><input name="git_ref" type="text" value=""#@, "</span>"@)) by {
        reveal(starts_as);
        reveal_strlit(r#"</span></div><input name="git_ref" type="text" value=""#);
        reveal_strlit("</span>");
        assert(r#"</span></div><input name="git_ref" type="text" value=""#@.take(7) =~= "</span>"@);
    }
    assert(starts_as(r#"</span></div><input name="exclude_globs" type="text" value=""#@, "</span>"@)) by {
        reveal(starts_as);
        reveal_strlit(r#"</span></div><input name="exclude_globs" type="text" value=""#);
        reveal_strlit("</span>");
        assert(r#"</span></div><input name="exclude_globs" type="text" value=""#@.take(7) =~= "</span>"@);
    }
    assert(starts_as(r#"</span></div><input name="chunk_overlap" type="number" value=""#@, "</span>"@)) by {
        reveal(starts_as);
        reveal_strlit(r#"</span></div><input name="chunk_overlap" type="number" value=""#);
        reveal_strlit("</span>");
        assert(r#"</span></div><input name="chunk_overlap" type="number" value=""#@.take(7) =~= "</span>"@);
    }
    assert(starts_as(r#"</span></div><input name="include_globs" type="text" value=""#@, "</span>"@)) by {
        reveal(starts_as);
        reveal_strlit(r#"</span></div><input name="include_globs" type="text" value=""#);
        reveal_strlit("</span>");
        assert(r#"</span></div><input name="include_globs" type="text" value=""#@.take(7) =~= "</span>"@);
    }
    assert(starts_as(r#"</span></div></label><div class="card-actions justify-end mt-2 gap-2"><form action="/rag/"#@, "</span>"@)) by {
        reveal(starts_as);
        reveal_strlit(r#"</span></div></label><div class="card-actions justify-end mt-2 gap-2"><form action="/rag/"#);
        reveal_strlit("</span>");
        assert(r#"</span></div></label><div class="card-actions justify-end mt-2 gap-2"><form action="/rag/"#@.take(7) =~= "</span>"@);
    }
    assert(starts_as(r#"</span></div><input name="description" type="text" value=""#@, "</span>"@)) by {
        reveal(starts_as);
        reveal_strlit(r#"</span></div><input name="description" type="text" value=""#);
        reveal_strlit("</span>");
        assert(r#"</span></div><input name="description" type="text" value=""#@.take(7) =~= "</span>"@);
    }
    assert(starts_as(r#"</span></div><input name="git_url" type="text" value=""#@, "</span>"@)) by {
        reveal(starts_as);
        reveal_strlit(r#"</span></div><input name="git_url" type="text" value=""#);
        reveal_strlit("</span>");
        assert(r#"</span></div><input name="git_url" type="text" value=""#@.take(7) =~= "</span>"@);
    }
    assert(starts_as("</span></label>"@, "</span>"@)) by {
        reveal(starts_as);
        reveal_strlit("</span></label>");
        reveal_strlit("</span>");
        assert("</span></label>"@.take(7) =~= "</span>"@);
    }
}

/// The form of a collection shows each of its values in the field that it is read from.
#[verifier::rlimit(40)]
pub proof fn edit_form_shows_the_collection(ui: &Ui, c: &Collection, models: Seq<String>)
    ensures
        ({
            let page = edit_form(ui, c, models);
            &&& shows(page, r#"<li id="rag-row-"#@ + signed_decimal(c.id as int) + r#"" class="py-4"><form action="/rag/"#@ + signed_decimal(c.id as int) + r#"/update" method="post""#@)
            &&& shows(page, r#"<input name="description" type="text" value=""#@ + escaped(text_or_empty(opt_text(c.description))) + r#"" class="#@)
            &&& shows(page, r#"<input name="git_url" type="text" value=""#@ + escaped(c.git_url@) + r#"" class="#@)
            &&& shows(page, r#"<input name="git_ref" type="text" value=""#@ + escaped(c.git_ref@) + r#"" class="#@)
            &&& shows(page, r#"<input name="include_globs" type="text" value=""#@ + escaped(joined(texts(c.include_globs@), ", "@)) + r#"" placeholder=""#@)
            &&& shows(page, r#"<input name="exclude_globs" type="text" value=""#@ + escaped(joined(texts(c.exclude_globs@), ", "@)) + r#"" placeholder=""#@)
            &&& shows(page, r#"<input name="chunk_size" type="number" value=""#@ + signed_decimal(c.chunk_size as int) + r#"" min="1""#@)
            &&& shows(page, r#"<input name="chunk_overlap" type="number" value=""#@ + signed_decimal(c.chunk_overlap as int) + r#"" min="0""#@)
            &&& shows(page, r#"<input name="allowed_groups" type="text" value=""#@ + escaped(joined(texts(c.allowed_groups@), ", "@)) + r#"" placeholder="developers"#@)
            &&& shows(page, embedding_field(ui, models, Some(c.embedding_model@)))
            &&& shows(page, status_badge_markup(ui, c.status))
            &&& c.pat is Some ==> shows(page, r#"<input type="checkbox" name="clear_pat" value="1""#@)
            &&& c.pat is Some ==> shows(page, r#"<span class="ml-2 badge badge-success badge-outline">"#@ + escaped(ui.message("rag-badge-pat-set"@)) + "</span>"@)
            &&& c.pat is None ==> shows(page, r#"<span class="ml-2 badge badge-ghost">"#@ + escaped(ui.message("rag-badge-pat-none"@)) + "</span>"@)
        }),
{
    broadcast use group_shows;

    lemma_edit_form_shows_the_collection();
}

proof fn lemma_create_form_starts_with_the_defaults()
    ensures
        shows(
            r#"<input name="git_ref" type="text" value="main" class="input input-bordered w-full"></label>"#@,
            r#"<input name="git_ref" type="text" value="main""#@,
        ),
        shows(
            r#"<input name="chunk_size" type="number" value="800" min="1" max="8000" class="input"#@,
            r#"<input name="chunk_size" type="number" value="800" min="1" max="8000""#@,
        ),
        shows(
            r#"<input name="chunk_overlap" type="number" value="100" min="0" class="input input-bordered"#@,
            r#"<input name="chunk_overlap" type="number" value="100" min="0""#@,
        ),
        shows(
            r#"<form id="rag-create-form" action="/rag" method="post" class="card border border-base-300"#@,
            r#"<form id="rag-create-form" action="/rag" method="post""#@,
        ),
        shows(
            r#"<input name="aggregate" type="checkbox" class="checkbox checkbox-sm mt-0.5 shrink-0">"#@,
            r#"<input name="aggregate" type="checkbox""#@,
        ),
{
    assert(shows(r#"<input name="git_ref" type="text" value="main" class="input input-bordered w-full"></label>"#@, r#"<input name="git_ref" type="text" value="main""#@)) by {
        reveal(shows);
        reveal_strlit(r#"<input name="git_ref" type="text" value="main" class="input input-bordered w-full"></label>"#);
        reveal_strlit(r#"<input name="git_ref" type="text" value="main""#);
        assert(r#"<input name="git_ref" type="text" value="main" class="input input-bordered w-full"></label>"#@.subrange(0, 46) =~= r#"<input name="git_ref" type="text" value="main""#@);
        assert(occurs_at(r#"<input name="git_ref" type="text" value="main" class="input input-bordered w-full"></label>"#@, r#"<input name="git_ref" type="text" value="main""#@, 0));
    }
    assert(shows(r#"<input name="chunk_size" type="number" value="800" min="1" max="8000" class="input"#@, r#"<input name="chunk_size" type="number" value="800" min="1" max="8000""#@)) by {
        reveal(shows);
        reveal_strlit(r#"<input name="chunk_size" type="number" value="800" min="1" max="8000" class="input"#);
        reveal_strlit(r#"<input name="chunk_size" type="number" value="800" min="1" max="8000""#);
        assert(r#"<input name="chunk_size" type="number" value="800" min="1" max="8000" class="input"#@.subrange(0, 69) =~= r#"<input name="chunk_size" type="number" value="800" min="1" max="8000""#@);
        assert(occurs_at(r#"<input name="chunk_size" type="number" value="800" min="1" max="8000" class="input"#@, r#"<input name="chunk_size" type="number" value="800" min="1" max="8000""#@, 0));
    }
    assert(shows(r#"<input name="chunk_overlap" type="number" value="100" min="0" class="input input-bordered"#@, r#"<input name="chunk_overlap" type="number" value="100" min="0""#@)) by {
        reveal(shows);
        reveal_strlit(r#"<input name="chunk_overlap" type="number" value="100" min="0" class="input input-bordered"#);
        reveal_strlit(r#"<input name="chunk_overlap" type="number" value="100" min="0""#);
        assert(r#"<input name="chunk_overlap" type="number" value="100" min="0" class="input input-bordered"#@.subrange(0, 61) =~= r#"<input name="chunk_overlap" type="number" value="100" min="0""#@);
        assert(occurs_at(r#"<input name="chunk_overlap" type="number" value="100" min="0" class="input input-bordered"#@, r#"<input name="chunk_overlap" type="number" value="100" min="0""#@, 0));
    }
    assert(shows(r#"<form id="rag-create-form" action="/rag" method="post" class="card border border-base-300"#@, r#"<form id="rag-create-form" action="/rag" method="post""#@)) by {
        reveal(shows);
        reveal_strlit(r#"<form id="rag-create-form" action="/rag" method="post" class="card border border-base-300"#);
        reveal_strlit(r#"<form id="rag-create-form" action="/rag" method="post""#);
        assert(r#"<form id="rag-create-form" action="/rag" method="post" class="card border border-base-300"#@.subrange(0, 54) =~= r#"<form id="rag-create-form" action="/rag" method="post""#@);
        assert(occurs_at(r#"<form id="rag-create-form" action="/rag" method="post" class="card border border-base-300"#@, r#"<form id="rag-create-form" action="/rag" method="post""#@, 0));
    }
    assert(shows(r#"<input name="aggregate" type="checkbox" class="checkbox checkbox-sm mt-0.5 shrink-0">"#@, r#"<input name="aggregate" type="checkbox""#@)) by {
        reveal(shows);
        reveal_strlit(r#"<input name="aggregate" type="checkbox" class="checkbox checkbox-sm mt-0.5 shrink-0">"#);
        reveal_strlit(r#"<input name="aggregate" type="checkbox""#);
        assert(r#"<input name="aggregate" type="checkbox" class="checkbox checkbox-sm mt-0.5 shrink-0">"#@.subrange(0, 39) =~= r#"<input name="aggregate" type="checkbox""#@);
        assert(occurs_at(r#"<input name="aggregate" type="checkbox" class="checkbox checkbox-sm mt-0.5 shrink-0">"#@, r#"<input name="aggregate" type="checkbox""#@, 0));
    }
}

/// The form for a new collection starts with the defaults that a blank field has.
#[verifier::rlimit(20)]
pub proof fn create_form_starts_with_the_defaults(ui: &Ui, models: Seq<String>, default: Option<Seq<char>>)
    ensures
        ({
            let page = create_form(ui, models, default);
            &&& shows(page, r#"<input name="git_ref" type="text" value="main""#@)
            &&& shows(page, r#"<input name="chunk_size" type="number" value="800" min="1" max="8000""#@)
            &&& shows(page, r#"<input name="chunk_overlap" type="number" value="100" min="0""#@)
            &&& shows(page, r#"<form id="rag-create-form" action="/rag" method="post""#@)
            &&& shows(page, r#"<input name="aggregate" type="checkbox""#@)
            &&& shows(page, embedding_field(ui, models, default))
        }),
{
    broadcast use group_shows;

    lemma_create_form_starts_with_the_defaults();
}

proof fn lemma_the_embedding_model_is_marked()
    ensures
        ends_in(
            r#"</span></div><input name="embedding_model" type="text" required="required" value=""#@,
            r#"<input name="embedding_model" type="text" required="required" value=""#@,
        ),
        shows(
            r#"<select name="embedding_model" required="required" class="select select-bordered w-full">"#@,
            r#"<select name="embedding_model""#@,
        ),
{
    assert(ends_in(r#"</span></div><input name="embedding_model" type="text" required="required" value=""#@, r#"<input name="embedding_model" type="text" required="required" value=""#@)) by {
        reveal(ends_in);
        reveal_strlit(r#"</span></div><input name="embedding_model" type="text" required="required" value=""#);
        reveal_strlit(r#"<input name="embedding_model" type="text" required="required" value=""#);
        assert(r#"</span></div><input name="embedding_model" type="text" required="required" value=""#@.skip(13) =~= r#"<input name="embedding_model" type="text" required="required" value=""#@);
    }
    assert(shows(r#"<select name="embedding_model" required="required" class="select select-bordered w-full">"#@, r#"<select name="embedding_model""#@)) by {
        reveal(shows);
        reveal_strlit(r#"<select name="embedding_model" required="required" class="select select-bordered w-full">"#);
        reveal_strlit(r#"<select name="embedding_model""#);
        assert(r#"<select name="embedding_model" required="required" class="select select-bordered w-full">"#@.subrange(0, 30) =~= r#"<select name="embedding_model""#@);
        assert(occurs_at(r#"<select name="embedding_model" required="required" class="select select-bordered w-full">"#@, r#"<select name="embedding_model""#@, 0));
    }
}

/// The embedding model of a collection is marked among those that are served; one that is
/// served no longer is still offered, marked and told as such; without one nothing is
/// preselected.
pub proof fn the_embedding_model_is_marked(ui: &Ui, models: Seq<String>, s: Seq<char>)
    ensures
        ({
            let page = embedding_field(ui, models, Some(s));
            &&& models.len() == 0 ==> shows(page, r#"<input name="embedding_model" type="text" required="required" value=""#@ + escaped(s) + r#"" placeholder=""#@)
            &&& models.len() > 0 ==> shows(page, choices(models, Some(s)))
            &&& models.len() > 0 && s.len() > 0 && !listed(models, s) ==> shows(page, r#"<option value=""#@ + escaped(s) + r#"" selected="selected">"#@ + escaped(s) + " "@ + escaped(ui.message("rag-suffix-not-advertised"@)) + "</option>"@)
            &&& models.len() > 0 ==> shows(page, r#"<select name="embedding_model""#@)
        }),
{
    broadcast use group_shows;

    lemma_the_embedding_model_is_marked();
}

proof fn lemma_row_shows_the_collection()
    ensures
        ends_in(
            r#"<div class="flex items-center gap-2"><span class="text-base font-medium">"#@,
            r#"<span class="text-base font-medium">"#@,
        ),
        starts_as(
            r#"</p><p class="text-xs text-base-content/60 mt-1">"#@,
            "</p>"@,
        ),
        starts_as(
            r#"</p></div><div class="flex flex-col gap-2 shrink-0"><form action="/rag/"#@,
            "</p>"@,
        ),
        starts_as(
            r#"</p></div><div class="flex flex-col gap-2 shrink-0"><form action="/rag/"#@,
            "</p></div>"@,
        ),
        ends_in(
            r#"</button></form><form action="/rag/"#@,
            r#"<form action="/rag/"#@,
        ),
        ends_in(
            r#"</p></div><div class="flex flex-col gap-2 shrink-0"><form action="/rag/"#@,
            r#"<form action="/rag/"#@,
        ),
        starts_as(
            r#"/edit-form" method="post" class="m-0" data-on:submit__prevent="@post(&#39;/rag/"#@,
            r#"/edit-form" method="post""#@,
        ),
        starts_as(
            r#"/delete" method="post" class="m-0" data-on:submit__prevent="@post(&#39;/rag/"#@,
            r#"/delete" method="post""#@,
        ),
        starts_as(
            r#"/refs" method="post" class="flex items-center gap-2 mt-1 flex-wrap""#@,
            r#"/refs" method="post""#@,
        ),
        starts_as(
            r#"/refs/bulk" method="post" class="flex flex-col gap-1 mt-1""#@,
            r#"/refs/bulk" method="post""#@,
        ),
        starts_as(
            r#"" required="required" class="input input-bordered input-xs w-80">"#@,
            r#"" required="required""#@,
        ),
        starts_as(
            r#"" required="required" class="input input-bordered input-xs w-44">"#@,
            r#"" required="required""#@,
        ),
        starts_as(
            r#"" required="required" class="input input-bordered input-xs w-56">"#@,
            r#"" required="required""#@,
        ),
{
    assert(ends_in(r#"<div class="flex items-center gap-2"><span class="text-base font-medium">"#@, r#"<span class="text-base font-medium">"#@)) by {
        reveal(ends_in);
        reveal_strlit(r#"<div class="flex items-center gap-2"><span class="text-base font-medium">"#);
        reveal_strlit(r#"<span class="text-base font-medium">"#);
        assert(r#"<div class="flex items-center gap-2"><span class="text-base font-medium">"#@.skip(37) =~= r#"<span class="text-base font-medium">"#@);
    }
    assert(starts_as(r#"</p><p class="text-xs text-base-content/60 mt-1">"#@, "</p>"@)) by {
        reveal(starts_as);
        reveal_strlit(r#"</p><p class="text-xs text-base-content/60 mt-1">"#);
        reveal_strlit("</p>");
        assert(r#"</p><p class="text-xs text-base-content/60 mt-1">"#@.take(4) =~= "</p>"@);
    }
    assert(starts_as(r#"</p></div><div class="flex flex-col gap-2 shrink-0"><form action="/rag/"#@, "</p>"@)) by {
        reveal(starts_as);
        reveal_strlit(r#"</p></div><div class="flex flex-col gap-2 shrink-0"><form action="/rag/"#);
        reveal_strlit("</p>");
        assert(r#"</p></div><div class="flex flex-col gap-2 shrink-0"><form action="/rag/"#@.take(4) =~= "</p>"@);
    }
    assert(starts_as(r#"</p></div><div class="flex flex-col gap-2 shrink-0"><form action="/rag/"#@, "</p></div>"@)) by {
        reveal(starts_as);
        reveal_strlit(r#"</p></div><div class="flex flex-col gap-2 shrink-0"><form action="/rag/"#);
        reveal_strlit("</p></div>");
        assert(r#"</p></div><div class="flex flex-col gap-2 shrink-0"><form action="/rag/"#@.take(10) =~= "</p></div>"@);
    }
    assert(ends_in(r#"</button></form><form action="/rag/"#@, r#"<form action="/rag/"#@)) by {
        reveal(ends_in);
        reveal_strlit(r#"</button></form><form action="/rag/"#);
        reveal_strlit(r#"<form action="/rag/"#);
        assert(r#"</button></form><form action="/rag/"#@.skip(16) =~= r#"<form action="/rag/"#@);
    }
    assert(ends_in(r#"</p></div><div class="flex flex-col gap-2 shrink-0"><form action="/rag/"#@, r#"<form action="/rag/"#@)) by {
        reveal(ends_in);
        reveal_strlit(r#"</p></div><div class="flex flex-col gap-2 shrink-0"><form action="/rag/"#);
        reveal_strlit(r#"<form action="/rag/"#);
        assert(r#"</p></div><div class="flex flex-col gap-2 shrink-0"><form action="/rag/"#@.skip(52) =~= r#"<form action="/rag/"#@);
    }
    assert(starts_as(r#"/edit-form" method="post" class="m-0" data-on:submit__prevent="@post(&#39;/rag/"#@, r#"/edit-form" method="post""#@)) by {
        reveal(starts_as);
        reveal_strlit(r#"/edit-form" method="post" class="m-0" data-on:submit__prevent="@post(&#39;/rag/"#);
        reveal_strlit(r#"/edit-form" method="post""#);
        assert(r#"/edit-form" method="post" class="m-0" data-on:submit__prevent="@post(&#39;/rag/"#@.take(25) =~= r#"/edit-form" method="post""#@);
    }
    assert(starts_as(r#"/delete" method="post" class="m-0" data-on:submit__prevent="@post(&#39;/rag/"#@, r#"/delete" method="post""#@)) by {
        reveal(starts_as);
        reveal_strlit(r#"/delete" method="post" class="m-0" data-on:submit__prevent="@post(&#39;/rag/"#);
        reveal_strlit(r#"/delete" method="post""#);
        assert(r#"/delete" method="post" class="m-0" data-on:submit__prevent="@post(&#39;/rag/"#@.take(22) =~= r#"/delete" method="post""#@);
    }
    assert(starts_as(r#"/refs" method="post" class="flex items-center gap-2 mt-1 flex-wrap""#@, r#"/refs" method="post""#@)) by {
        reveal(starts_as);
        reveal_strlit(r#"/refs" method="post" class="flex items-center gap-2 mt-1 flex-wrap""#);
        reveal_strlit(r#"/refs" method="post""#);
        assert(r#"/refs" method="post" class="flex items-center gap-2 mt-1 flex-wrap""#@.take(20) =~= r#"/refs" method="post""#@);
    }
    assert(starts_as(r#"/refs/bulk" method="post" class="flex flex-col gap-1 mt-1""#@, r#"/refs/bulk" method="post""#@)) by {
        reveal(starts_as);
        reveal_strlit(r#"/refs/bulk" method="post" class="flex flex-col gap-1 mt-1""#);
        reveal_strlit(r#"/refs/bulk" method="post""#);
        assert(r#"/refs/bulk" method="post" class="flex flex-col gap-1 mt-1""#@.take(25) =~= r#"/refs/bulk" method="post""#@);
    }
    assert(starts_as(r#"" required="required" class="input input-bordered input-xs w-80">"#@, r#"" required="required""#@)) by {
        reveal(starts_as);
        reveal_strlit(r#"" required="required" class="input input-bordered input-xs w-80">"#);
        reveal_strlit(r#"" required="required""#);
        assert(r#"" required="required" class="input input-bordered input-xs w-80">"#@.take(21) =~= r#"" required="required""#@);
    }
    assert(starts_as(r#"" required="required" class="input input-bordered input-xs w-44">"#@, r#"" required="required""#@)) by {
        reveal(starts_as);
        reveal_strlit(r#"" required="required" class="input input-bordered input-xs w-44">"#);
        reveal_strlit(r#"" required="required""#);
        assert(r#"" required="required" class="input input-bordered input-xs w-44">"#@.take(21) =~= r#"" required="required""#@);
    }
    assert(starts_as(r#"" required="required" class="input input-bordered input-xs w-56">"#@, r#"" required="required""#@)) by {
        reveal(starts_as);
        reveal_strlit(r#"" required="required" class="input input-bordered input-xs w-56">"#);
        reveal_strlit(r#"" required="required""#);
        assert(r#"" required="required" class="input input-bordered input-xs w-56">"#@.take(21) =~= r#"" required="required""#@);
    }
}

/// The row of a collection shows its name, its description and its embedding model, whether
/// it is an aggregate, and its buttons are about it.
#[verifier::rlimit(40)]
pub proof fn row_shows_the_collection(ui: &Ui, c: &Collection, refs: Seq<CollectionRef>)
    ensures
        ({
            let page = collection_row(ui, c, refs);
            &&& shows(page, r#"<li id="rag-row-"#@ + signed_decimal(c.id as int) + r#"" class="flex flex-col gap-2 py-4">"#@)
            &&& shows(page, r#"<span class="text-base font-medium">"#@ + escaped(c.name@) + "</span>"@)
            &&& c.search_mode == SearchMode::Aggregate ==> shows(page, r#"<span class="badge badge-sm badge-secondary">"#@ + escaped(ui.message("rag-badge-aggregate"@)) + "</span>"@)
            &&& c.description is Some && c.description->0@.len() > 0 ==> shows(page, r#"<p class="text-sm text-base-content/70 mt-0.5">"#@ + escaped(c.description->0@) + "</p>"@)
            &&& shows(page, " "@ + escaped(c.embedding_model@) + "</p></div>"@)
            &&& shows(page, r#"<form action="/rag/"#@ + signed_decimal(c.id as int) + r#"/edit-form" method="post""#@)
            &&& shows(page, r#"<form action="/rag/"#@ + signed_decimal(c.id as int) + r#"/delete" method="post""#@)
            &&& shows(page, r#"<form id="rag-addsrc-"#@ + signed_decimal(c.id as int) + r#"" action="/rag/"#@ + signed_decimal(c.id as int) + r#"/refs" method="post""#@)
            &&& c.search_mode == SearchMode::Aggregate ==> shows(page, r#"<form id="rag-bulk-"#@ + signed_decimal(c.id as int) + r#"" action="/rag/"#@ + signed_decimal(c.id as int) + r#"/refs/bulk" method="post""#@)
            &&& c.search_mode == SearchMode::Aggregate ==> shows(page, r#"" value=""#@ + escaped(c.git_ref@) + r#"" required="required""#@)
            &&& c.search_mode == SearchMode::Aggregate && c.pat is Some ==> shows(page, r#"<p class="text-xs text-base-content/60 mt-1 font-mono break-all">"#@ + escaped(ui.message_with_both("rag-meta-aggregate"@, ("count"@, decimal(refs.len())), ("hint"@, ui.message("rag-pat-set"@)))) + "</p>"@)
            &&& c.search_mode == SearchMode::Versioned && c.pat is None ==> shows(page, r#"<p class="text-xs text-base-content/60 mt-1 font-mono break-all">"#@ + escaped(ui.message_with_both("rag-meta-versioned"@, ("url"@, c.git_url@), ("hint"@, ui.message("rag-pat-none"@)))) + "</p>"@)
        }),
{
    broadcast use group_shows;

    lemma_row_shows_the_collection();
    reveal(collection_row);
}

proof fn lemma_row_shows_the_source()
    ensures
        starts_as(
            r#"" class="flex items-center gap-2 text-sm flex-wrap"><span class="font-mono">"#@,
            r#"" class="#@,
        ),
        ends_in(
            r#"" class="flex items-center gap-2 text-sm flex-wrap"><span class="font-mono">"#@,
            r#"<span class="font-mono">"#@,
        ),
        ends_in(
            r#"</button></form><form action="/rag/refs/"#@,
            r#"<form action="/rag/refs/"#@,
        ),
        ends_in(
            r#"</button><form action="/rag/refs/"#@,
            r#"<form action="/rag/refs/"#@,
        ),
        starts_as(
            r#"/edit-form" method="post" class="m-0" data-on:submit__prevent="@post(&#39;/rag/refs/"#@,
            r#"/edit-form" method="post""#@,
        ),
        starts_as(
            r#"/reindex" method="post" class="m-0" data-on:submit__prevent="@post(&#39;/rag/refs/"#@,
            r#"/reindex" method="post""#@,
        ),
        starts_as(
            r#"/delete" method="post" class="m-0" data-on:submit__prevent="@post(&#39;/rag/refs/"#@,
            r#"/delete" method="post""#@,
        ),
        starts_as(
            r#"/primary" method="post" class="m-0" data-on:submit__prevent="@post(&#39;/rag/refs/"#@,
            r#"/primary" method="post""#@,
        ),
{
    assert(starts_as(r#"" class="flex items-center gap-2 text-sm flex-wrap"><span class="font-mono">"#@, r#"" class="#@)) by {
        reveal(starts_as);
        reveal_strlit(r#"" class="flex items-center gap-2 text-sm flex-wrap"><span class="font-mono">"#);
        reveal_strlit(r#"" class="#);
        assert(r#"" class="flex items-center gap-2 text-sm flex-wrap"><span class="font-mono">"#@.take(8) =~= r#"" class="#@);
    }
    assert(ends_in(r#"" class="flex items-center gap-2 text-sm flex-wrap"><span class="font-mono">"#@, r#"<span class="font-mono">"#@)) by {
        reveal(ends_in);
        reveal_strlit(r#"" class="flex items-center gap-2 text-sm flex-wrap"><span class="font-mono">"#);
        reveal_strlit(r#"<span class="font-mono">"#);
        assert(r#"" class="flex items-center gap-2 text-sm flex-wrap"><span class="font-mono">"#@.skip(52) =~= r#"<span class="font-mono">"#@);
    }
    assert(ends_in(r#"</button></form><form action="/rag/refs/"#@, r#"<form action="/rag/refs/"#@)) by {
        reveal(ends_in);
        reveal_strlit(r#"</button></form><form action="/rag/refs/"#);
        reveal_strlit(r#"<form action="/rag/refs/"#);
        assert(r#"</button></form><form action="/rag/refs/"#@.skip(16) =~= r#"<form action="/rag/refs/"#@);
    }
    assert(ends_in(r#"</button><form action="/rag/refs/"#@, r#"<form action="/rag/refs/"#@)) by {
        reveal(ends_in);
        reveal_strlit(r#"</button><form action="/rag/refs/"#);
        reveal_strlit(r#"<form action="/rag/refs/"#);
        assert(r#"</button><form action="/rag/refs/"#@.skip(9) =~= r#"<form action="/rag/refs/"#@);
    }
    assert(starts_as(r#"/edit-form" method="post" class="m-0" data-on:submit__prevent="@post(&#39;/rag/refs/"#@, r#"/edit-form" method="post""#@)) by {
        reveal(starts_as);
        reveal_strlit(r#"/edit-form" method="post" class="m-0" data-on:submit__prevent="@post(&#39;/rag/refs/"#);
        reveal_strlit(r#"/edit-form" method="post""#);
        assert(r#"/edit-form" method="post" class="m-0" data-on:submit__prevent="@post(&#39;/rag/refs/"#@.take(25) =~= r#"/edit-form" method="post""#@);
    }
    assert(starts_as(r#"/reindex" method="post" class="m-0" data-on:submit__prevent="@post(&#39;/rag/refs/"#@, r#"/reindex" method="post""#@)) by {
        reveal(starts_as);
        reveal_strlit(r#"/reindex" method="post" class="m-0" data-on:submit__prevent="@post(&#39;/rag/refs/"#);
        reveal_strlit(r#"/reindex" method="post""#);
        assert(r#"/reindex" method="post" class="m-0" data-on:submit__prevent="@post(&#39;/rag/refs/"#@.take(23) =~= r#"/reindex" method="post""#@);
    }
    assert(starts_as(r#"/delete" method="post" class="m-0" data-on:submit__prevent="@post(&#39;/rag/refs/"#@, r#"/delete" method="post""#@)) by {
        reveal(starts_as);
        reveal_strlit(r#"/delete" method="post" class="m-0" data-on:submit__prevent="@post(&#39;/rag/refs/"#);
        reveal_strlit(r#"/delete" method="post""#);
        assert(r#"/delete" method="post" class="m-0" data-on:submit__prevent="@post(&#39;/rag/refs/"#@.take(22) =~= r#"/delete" method="post""#@);
    }
    assert(starts_as(r#"/primary" method="post" class="m-0" data-on:submit__prevent="@post(&#39;/rag/refs/"#@, r#"/primary" method="post""#@)) by {
        reveal(starts_as);
        reveal_strlit(r#"/primary" method="post" class="m-0" data-on:submit__prevent="@post(&#39;/rag/refs/"#);
        reveal_strlit(r#"/primary" method="post""#);
        assert(r#"/primary" method="post" class="m-0" data-on:submit__prevent="@post(&#39;/rag/refs/"#@.take(23) =~= r#"/primary" method="post""#@);
    }
}

/// The row of a source names it, tells how its build stands, when and what it indexed last
/// and what went wrong, and its buttons are about it. In an aggregate collection the build
/// is that of the primary source.
#[verifier::rlimit(40)]
pub proof fn row_shows_the_source(ui: &Ui, c: &Collection, r: &CollectionRef, primary: Option<&CollectionRef>)
    ensures
        ({
            let page = ref_row(ui, c, r, primary);
            let s = if c.search_mode == SearchMode::Aggregate && primary is Some {
                primary->0
            } else {
                r
            };
            &&& shows(page, r#"<div id="rag-ref-"#@ + signed_decimal(r.id as int) + r#"" class="#@)
            &&& c.search_mode == SearchMode::Aggregate ==> shows(page, r#"<span class="font-mono">"#@ + escaped(r.source_label@ + " @ "@ + r.git_ref@) + "</span>"@)
            &&& c.search_mode == SearchMode::Versioned ==> shows(page, r#"<span class="font-mono">"#@ + escaped(r.git_ref@) + "</span>"@)
            &&& r.is_primary && c.search_mode == SearchMode::Versioned ==> shows(page, r#"<span class="badge badge-sm">"#@ + escaped(ui.message("rag-badge-primary"@)) + "</span>"@)
            &&& shows(page, status_badge_markup(ui, s.status))
            &&& shows(page, r#"<span class="text-xs text-base-content/60">"#@ + escaped(indexed_line(ui, s)) + "</span>"@)
            &&& s.last_error is Some && s.status == CollectionStatus::Error ==> shows(page, r#"<span class=""#@ + "text-xs text-error break-all"@ + r#"">"#@ + escaped(s.last_error->0@) + "</span>"@)
            &&& s.last_error is Some && s.status != CollectionStatus::Error ==> shows(page, r#"<span class=""#@ + "text-xs text-warning break-all"@ + r#"">"#@ + escaped(s.last_error->0@) + "</span>"@)
            &&& shows(page, r#"<form action="/rag/refs/"#@ + signed_decimal(r.id as int) + r#"/edit-form" method="post""#@)
            &&& shows(page, r#"<form action="/rag/refs/"#@ + signed_decimal(r.id as int) + r#"/reindex" method="post""#@)
            &&& shows(page, r#"<form action="/rag/refs/"#@ + signed_decimal(r.id as int) + r#"/delete" method="post""#@)
            &&& !r.is_primary && c.search_mode == SearchMode::Versioned ==> shows(page, r#"<form action="/rag/refs/"#@ + signed_decimal(r.id as int) + r#"/primary" method="post""#@)
        }),
{
    broadcast use group_shows;

    lemma_row_shows_the_source();
    reveal(ref_row);
}

/// How a build stands is told by its own words and its own colour.
pub proof fn a_status_has_its_look(ui: &Ui, s: CollectionStatus)
    ensures
        ({
            let page = status_badge_markup(ui, s);
            &&& s == CollectionStatus::Pending ==> shows(page, r#"<span class=""#@ + escaped("badge badge-outline"@) + r#"">"#@ + escaped(ui.message("rag-status-pending"@)) + "</span>"@)
            &&& s == CollectionStatus::Cloning ==> shows(page, r#"<span class=""#@ + escaped("badge badge-info"@) + r#"">"#@ + escaped(ui.message("rag-status-cloning"@)) + "</span>"@)
            &&& s == CollectionStatus::Indexing ==> shows(page, r#"<span class=""#@ + escaped("badge badge-info"@) + r#"">"#@ + escaped(ui.message("rag-status-indexing"@)) + "</span>"@)
            &&& s == CollectionStatus::Ready ==> shows(page, r#"<span class=""#@ + escaped("badge badge-success"@) + r#"">"#@ + escaped(ui.message("rag-status-ready"@)) + "</span>"@)
            &&& s == CollectionStatus::Error ==> shows(page, r#"<span class=""#@ + escaped("badge badge-error"@) + r#"">"#@ + escaped(ui.message("rag-status-error"@)) + "</span>"@)
        }),
{
    broadcast use group_shows;

}

proof fn lemma_a_log_line_tells_what_happened()
    ensures
        starts_as(
            r#"</span><span class="min-w-0 break-words">"#@,
            "</span>"@,
        ),
        starts_as(
            "</span></li>"@,
            "</span>"@,
        ),
{
    assert(starts_as(r#"</span><span class="min-w-0 break-words">"#@, "</span>"@)) by {
        reveal(starts_as);
        reveal_strlit(r#"</span><span class="min-w-0 break-words">"#);
        reveal_strlit("</span>");
        assert(r#"</span><span class="min-w-0 break-words">"#@.take(7) =~= "</span>"@);
    }
    assert(starts_as("</span></li>"@, "</span>"@)) by {
        reveal(starts_as);
        reveal_strlit("</span></li>");
        reveal_strlit("</span>");
        assert("</span></li>"@.take(7) =~= "</span>"@);
    }
}

/// A line of the log tells when what happened in which phase, and how bad it is.
pub proof fn a_log_line_tells_what_happened(ui: &Ui, e: IndexLogEntry)
    ensures
        ({
            let page = log_entry(ui, e);
            &&& shows(page, r#"<span class="text-base-content/50 shrink-0 whitespace-nowrap">"#@ + escaped(utc_text(e.created_at.at(), "%Y-%m-%d %H:%M:%S"@)) + "</span>"@)
            &&& shows(page, r#"<span class="text-base-content/50 shrink-0 w-14">"#@ + escaped(e.phase@) + r#"</span><span class="min-w-0 break-words">"#@ + escaped(e.message@) + "</span></li>"@)
            &&& e.level == LogLevel::Info ==> shows(page, r#"<span class=""#@ + escaped("badge badge-xs badge-ghost shrink-0 whitespace-nowrap"@) + r#"">"#@ + escaped(ui.message("rag-log-info"@)) + "</span>"@)
            &&& e.level == LogLevel::Warn ==> shows(page, r#"<span class=""#@ + escaped("badge badge-xs badge-warning shrink-0 whitespace-nowrap"@) + r#"">"#@ + escaped(ui.message("rag-log-warn"@)) + "</span>"@)
            &&& e.level == LogLevel::Error ==> shows(page, r#"<span class=""#@ + escaped("badge badge-xs badge-error shrink-0 whitespace-nowrap"@) + r#"">"#@ + escaped(ui.message("rag-log-error"@)) + "</span>"@)
        }),
{
    broadcast use group_shows;

    lemma_a_log_line_tells_what_happened();
    reveal(log_entry);
}

proof fn lemma_source_form_shows_the_source()
    ensures
        starts_as(
            r#"/update" method="post" class="flex flex-col gap-2""#@,
            r#"/update" method="post""#@,
        ),
        ends_in(
            r#"</span></div><input name="git_url" type="text" value=""#@,
            r#"<input name="git_url" type="text" value=""#@,
        ),
        ends_in(
            r#"</span></div><input name="git_ref" type="text" value=""#@,
            r#"<input name="git_ref" type="text" value=""#@,
        ),
        starts_as(
            r#"" class="input input-bordered input-sm w-full"></label></div>"#@,
            r#"" class="#@,
        ),
        starts_as(
            r#"" class="input input-bordered input-sm w-full"></label>"#@,
            r#"" class="#@,
        ),
{
    assert(starts_as(r#"/update" method="post" class="flex flex-col gap-2""#@, r#"/update" method="post""#@)) by {
        reveal(starts_as);
        reveal_strlit(r#"/update" method="post" class="flex flex-col gap-2""#);
        reveal_strlit(r#"/update" method="post""#);
        assert(r#"/update" method="post" class="flex flex-col gap-2""#@.take(22) =~= r#"/update" method="post""#@);
    }
    assert(ends_in(r#"</span></div><input name="git_url" type="text" value=""#@, r#"<input name="git_url" type="text" value=""#@)) by {
        reveal(ends_in);
        reveal_strlit(r#"</span></div><input name="git_url" type="text" value=""#);
        reveal_strlit(r#"<input name="git_url" type="text" value=""#);
        assert(r#"</span></div><input name="git_url" type="text" value=""#@.skip(13) =~= r#"<input name="git_url" type="text" value=""#@);
    }
    assert(ends_in(r#"</span></div><input name="git_ref" type="text" value=""#@, r#"<input name="git_ref" type="text" value=""#@)) by {
        reveal(ends_in);
        reveal_strlit(r#"</span></div><input name="git_ref" type="text" value=""#);
        reveal_strlit(r#"<input name="git_ref" type="text" value=""#);
        assert(r#"</span></div><input name="git_ref" type="text" value=""#@.skip(13) =~= r#"<input name="git_ref" type="text" value=""#@);
    }
    assert(starts_as(r#"" class="input input-bordered input-sm w-full"></label></div>"#@, r#"" class="#@)) by {
        reveal(starts_as);
        reveal_strlit(r#"" class="input input-bordered input-sm w-full"></label></div>"#);
        reveal_strlit(r#"" class="#);
        assert(r#"" class="input input-bordered input-sm w-full"></label></div>"#@.take(8) =~= r#"" class="#@);
    }
    assert(starts_as(r#"" class="input input-bordered input-sm w-full"></label>"#@, r#"" class="#@)) by {
        reveal(starts_as);
        reveal_strlit(r#"" class="input input-bordered input-sm w-full"></label>"#);
        reveal_strlit(r#"" class="#);
        assert(r#"" class="input input-bordered input-sm w-full"></label>"#@.take(8) =~= r#"" class="#@);
    }
}

/// The form of a source shows its address and its branch or tag in the fields that they are
/// read from, and is sent to that source.
pub proof fn source_form_shows_the_source(ui: &Ui, c: &Collection, r: &CollectionRef)
    ensures
        ({
            let page = ref_edit_form(ui, c, r);
            &&& shows(page, r#"<form action="/rag/refs/"#@ + signed_decimal(r.id as int) + r#"/update" method="post""#@)
            &&& shows(page, r#"<input name="git_url" type="text" value=""#@ + escaped(text_or_empty(opt_text(r.git_url))) + r#"" placeholder=""#@)
            &&& shows(page, r#"<input name="git_ref" type="text" value=""#@ + escaped(r.git_ref@) + r#"" class="#@)
        }),
{
    broadcast use group_shows;

    lemma_source_form_shows_the_source();
}

/// Every collection has its row on the page, and every source its row in that of its
/// collection.
pub proof fn every_collection_is_listed(
    ui: &Ui,
    list: Seq<(Collection, Vec<CollectionRef>)>,
    models: Seq<String>,
    default: Option<Seq<char>>,
    i: int,
    k: int,
)
    requires
        0 <= i < list.len(),
    ensures
        shows(
            rag_page(ui, list, models, default),
            collection_row(ui, &list[i].0, list[i].1@),
        ),
        0 <= k < list[i].1@.len() ==> shows(
            collection_row(ui, &list[i].0, list[i].1@),
            ref_row(ui, &list[i].0, &list[i].1@[k], by_ref(primary_of(list[i].1@))),
        ),
        shows(rag_page(ui, list, models, default), create_form(ui, models, default)),
        shows(rag_page(ui, list, models, default), escaped("@get('/rag/status')"@)),
{
    broadcast use group_shows;

    lemma_collection_is_listed(ui, list, i);
    if 0 <= k < list[i].1@.len() {
        lemma_source_is_listed(ui, &list[i].0, list[i].1@, by_ref(primary_of(list[i].1@)), k);
    }
    reveal(collection_row);
}

proof fn lemma_collection_is_listed(
    ui: &Ui,
    list: Seq<(Collection, Vec<CollectionRef>)>,
    i: int,
)
    requires
        0 <= i < list.len(),
    ensures
        shows(collection_rows(ui, list), collection_row(ui, &list[i].0, list[i].1@)),
    decreases list.len(),
{
    broadcast use group_shows;

    if i < list.len() - 1 {
        lemma_collection_is_listed(ui, list.drop_last(), i);
    }
}

proof fn lemma_source_is_listed(
    ui: &Ui,
    c: &Collection,
    refs: Seq<CollectionRef>,
    primary: Option<&CollectionRef>,
    k: int,
)
    requires
        0 <= k < refs.len(),
    ensures
        shows(ref_rows(ui, c, refs, primary), ref_row(ui, c, &refs[k], primary)),
    decreases refs.len(),
{
    broadcast use group_shows;

    if k < refs.len() - 1 {
        lemma_source_is_listed(ui, c, refs.drop_last(), primary, k);
    }
}

/// Every line of a log is shown.
pub proof fn every_log_line_is_shown(ui: &Ui, entries: Seq<IndexLogEntry>, i: int)
    requires
        0 <= i < entries.len(),
    ensures
        shows(ref_log(ui, entries), log_entry(ui, entries[i])),
{
    broadcast use group_shows;

    lemma_log_line_is_shown(ui, entries, i);
}

proof fn lemma_log_line_is_shown(ui: &Ui, entries: Seq<IndexLogEntry>, i: int)
    requires
        0 <= i < entries.len(),
    ensures
        shows(log_entries(ui, entries), log_entry(ui, entries[i])),
    decreases entries.len(),
{
    broadcast use group_shows;

    if i < entries.len() - 1 {
        lemma_log_line_is_shown(ui, entries.drop_last(), i);
    }
}

/// What a source indexed last is told with its day and the first eight characters of the
/// commit; a source that never was says so.
pub proof fn the_last_build_is_told(ui: &Ui, s: &CollectionRef)
    ensures
        s.last_indexed_at is Some && s.last_indexed_commit is Some
            && s.last_indexed_commit->0@.len() >= 8 ==> indexed_line(ui, s) == ui.message_with_both(
            "rag-ref-indexed-line"@,
            ("date"@, utc_text(s.last_indexed_at->0.at(), "%Y-%m-%d %H:%M UTC"@)),
            ("commit"@, s.last_indexed_commit->0@.subrange(0, 8)),
        ),
        s.last_indexed_at is None && s.last_indexed_commit is None ==> indexed_line(ui, s)
            == ui.message_with_both(
            "rag-ref-indexed-line"@,
            ("date"@, ui.message("rag-never"@)),
            ("commit"@, "—"@),
        ),
{
    reveal_strlit("—");
    if s.last_indexed_commit is Some && s.last_indexed_commit->0@.len() >= 8 {
        let c = s.last_indexed_commit->0@;
        assert(c.take(8) =~= c.subrange(0, 8));
        if c.len() == 8 {
            assert(c.subrange(0, 8) =~= c);
        }
    }
}

/// What keeps a form for a new collection from being stored is told: a name that is not
/// of one to 64 bytes, a missing repository where one is needed, a missing model, or
/// chunks out of range, in this order.
pub proof fn a_bad_collection_is_told(form: CreateForm, r: Result<NewCollection, Notice>)
    requires
        call_ensures(validate, (form,), r),
    ensures
        ({
            let name_ok = 1 <= utf8_len(trimmed(form.name@)) <= 64;
            let url_ok = trimmed(form.git_url@).len() > 0 || form.aggregate is Some;
            let model_ok = trimmed(form.embedding_model@).len() > 0;
            let size: i64 = match form.chunk_size {
                Some(n) => n,
                None => 800,
            };
            let overlap: i64 = match form.chunk_overlap {
                Some(n) => n,
                None => 100,
            };
            let size_ok = 1 <= size <= 8000;
            let overlap_ok = 0 <= overlap < size;
            &&& r is Ok <==> name_ok && url_ok && model_ok && size_ok && overlap_ok
            &&& !name_ok ==> r->Err_0@ == said(false, "rag-toast-name-length"@)
            &&& name_ok && !url_ok ==> r->Err_0@ == said(false, "rag-toast-git-url-required"@)
            &&& name_ok && url_ok && !model_ok ==> r->Err_0@ == said(
                false,
                "rag-toast-embedding-model-required"@,
            )
            &&& name_ok && url_ok && model_ok && !size_ok ==> r->Err_0@ == said(
                false,
                "rag-toast-chunk-size-range"@,
            )
            &&& name_ok && url_ok && model_ok && size_ok && !overlap_ok ==> r->Err_0@ == said(
                false,
                "rag-toast-chunk-overlap-range"@,
            )
        }),
{
    crate::text::lemma_bytes(trimmed(form.name@));
}

/// An edited collection is what was typed into its form, each value in its place; what
/// was left out stays as it is stored, and the access token is cleared only when asked.
pub proof fn an_edited_collection_is_as_typed(
    form: &UpdateForm,
    existing: &Collection,
    r: Result<CollectionEdit, Notice>,
)
    requires
        call_ensures(read_update, (form, existing), r),
    ensures
        ({
            let url_ok = trimmed(form.git_url@).len() > 0 || existing.search_mode
                == SearchMode::Aggregate;
            let model_ok = trimmed(form.embedding_model@).len() > 0;
            let size = match form.chunk_size {
                Some(n) => n,
                None => existing.chunk_size,
            };
            let overlap = match form.chunk_overlap {
                Some(n) => n,
                None => existing.chunk_overlap,
            };
            &&& r is Ok <==> url_ok && model_ok && 1 <= size <= 8000 && 0 <= overlap < size
            &&& !url_ok ==> r->Err_0@ == said(false, "rag-toast-git-url-required"@)
            &&& url_ok && !model_ok ==> r->Err_0@ == said(
                false,
                "rag-toast-embedding-model-required"@,
            )
            &&& r matches Ok(e) ==> {
                &&& opt_text(e.description) == nonblank(opt_text(form.description))
                &&& e.git_url@ == trimmed(form.git_url@)
                &&& nonblank(opt_text(form.git_ref)) matches Some(t) ==> e.git_ref@ == t
                &&& nonblank(opt_text(form.git_ref)) is None ==> e.git_ref@ == "main"@
                &&& form.clear_pat is Some ==> e.pat is None
                &&& form.clear_pat is None && nonblank(opt_text(form.pat)) is Some ==> opt_text(
                    e.pat,
                ) == nonblank(opt_text(form.pat))
                &&& form.clear_pat is None && nonblank(opt_text(form.pat)) is None ==> opt_text(
                    e.pat,
                ) == opt_text(existing.pat)
                &&& e.embedding_model@ == trimmed(form.embedding_model@)
                &&& e.include_globs_json@ == json_list(
                    items_of(text_or_empty(opt_text(form.include_globs)), ",\n"@),
                )
                &&& e.exclude_globs_json@ == json_list(
                    items_of(text_or_empty(opt_text(form.exclude_globs)), ",\n"@),
                )
                &&& e.chunk_size == size
                &&& e.chunk_overlap == overlap
                &&& texts(e.allowed_groups@) == items_of(
                    text_or_empty(opt_text(form.allowed_groups)),
                    ","@,
                )
            }
        }),
{
}

/// Opening the form of a collection and sending it as it is keeps its patterns and its
/// groups.
pub proof fn unchanged_lists_are_kept(c: &Collection)
    requires
        forall|i: int|
            0 <= i < c.include_globs@.len() ==> crate::text::is_item(
                #[trigger] texts(c.include_globs@)[i],
            ) && free_of(texts(c.include_globs@)[i], false, ",\n"@),
        forall|i: int|
            0 <= i < c.exclude_globs@.len() ==> crate::text::is_item(
                #[trigger] texts(c.exclude_globs@)[i],
            ) && free_of(texts(c.exclude_globs@)[i], false, ",\n"@),
        forall|i: int|
            0 <= i < c.allowed_groups@.len() ==> crate::text::is_item(
                #[trigger] texts(c.allowed_groups@)[i],
            ) && free_of(texts(c.allowed_groups@)[i], false, ","@),
    ensures
        globs_of(Some(joined(texts(c.include_globs@), ", "@))) == texts(c.include_globs@),
        globs_of(Some(joined(texts(c.exclude_globs@), ", "@))) == texts(c.exclude_globs@),
        csv_items(joined(texts(c.allowed_groups@), ", "@)) == texts(c.allowed_groups@),
{
    reveal_strlit(",\n");
    let set = ",\n"@;
    assert(set =~= seq![',', '\n']);
    assert(set[0] == ',');
    crate::text::list_reads_back_among(texts(c.include_globs@), set);
    crate::text::list_reads_back_among(texts(c.exclude_globs@), set);
    crate::text::list_reads_back(texts(c.allowed_groups@));
}

/// One more source needs a branch or tag; its address may be left out.
pub proof fn a_source_is_added_as_typed(
    git_ref: &str,
    git_url: &Option<String>,
    r: Result<NewRef, Notice>,
)
    requires
        call_ensures(read_add_ref, (git_ref, git_url), r),
    ensures
        trimmed(git_ref@).len() == 0 ==> r is Err && r->Err_0@ == said(
            false,
            "rag-toast-ref-required"@,
        ),
        trimmed(git_ref@).len() > 0 ==> r is Ok && r->Ok_0.git_ref@ == trimmed(git_ref@)
            && opt_text(r->Ok_0.git_url) == nonblank(opt_text(*git_url)),
{
}

/// An edited source keeps its branch or tag unless another is typed; in an aggregate
/// collection it needs an address, in a versioned one it may inherit that of the
/// collection.
pub proof fn a_source_is_edited_as_typed(
    form: &RefUpdateForm,
    existing: &CollectionRef,
    mode: Option<SearchMode>,
    r: Result<NewRef, Notice>,
)
    requires
        call_ensures(read_ref_update, (form, existing, mode), r),
    ensures
        r is Err <==> mode == Some(SearchMode::Aggregate) && nonblank(opt_text(form.git_url)) is None,
        r matches Err(n) ==> n@ == said(false, "rag-toast-git-url-required-aggregate"@),
        r matches Ok(n) ==> {
            &&& opt_text(n.git_url) == nonblank(opt_text(form.git_url))
            &&& nonblank(opt_text(form.git_ref)) matches Some(t) ==> n.git_ref@ == t
            &&& nonblank(opt_text(form.git_ref)) is None ==> n.git_ref@ == existing.git_ref@
        },
{
}

/// The default embedding model is the configured one, and only while it is served.
pub proof fn only_a_served_model_is_the_default(
    configured: &Option<String>,
    models: &Vec<String>,
    r: Option<String>,
)
    requires
        call_ensures(default_embedding, (configured, models), r),
    ensures
        r is Some <==> *configured is Some && exists|k: int|
            0 <= k < models@.len() && (#[trigger] models@[k])@ == configured->0@,
        r is Some ==> r == *configured,
{
    if *configured is Some {
        crate::integrations::a_listed_text_is_in_the_list(models@, configured->0@);
    }
}

/// A versioned collection indexes its branch at once and says so; an aggregate one starts
/// without sources.
pub proof fn a_versioned_collection_starts_to_index(
    new: &NewCollection,
    first: Option<String>,
    name: &str,
    git_ref: &str,
    versioned: Notice,
    aggregate: Notice,
)
    requires
        call_ensures(first_ref, (new,), first),
        call_ensures(created_notice, (SearchMode::Versioned, name, git_ref), versioned),
        call_ensures(created_notice, (SearchMode::Aggregate, name, git_ref), aggregate),
    ensures
        new.search_mode == SearchMode::Versioned ==> first == Some(new.git_ref),
        new.search_mode == SearchMode::Aggregate ==> first is None,
        versioned@ == said(true, "rag-toast-indexing-queued"@).with("name"@, name@).with(
            "ref"@,
            git_ref@,
        ),
        aggregate@ == said(true, "rag-toast-created-aggregate"@).with("name"@, name@),
{
}

/// A change in an aggregate collection rebuilds its primary source, which carries the
/// whole corpus; in a versioned one it rebuilds the source that changed.
pub proof fn an_aggregate_is_rebuilt_as_one(
    mode: Option<SearchMode>,
    primary: Option<i64>,
    ref_id: i64,
    unified: Option<i64>,
    target: i64,
)
    requires
        call_ensures(unified_target, (mode, primary), unified),
        call_ensures(rebuild_target, (mode, primary, ref_id), target),
    ensures
        mode == Some(SearchMode::Aggregate) ==> unified == primary,
        mode != Some(SearchMode::Aggregate) ==> unified is None,
        mode == Some(SearchMode::Aggregate) && primary is Some ==> target == primary->0,
        mode != Some(SearchMode::Aggregate) || primary is None ==> target == ref_id,
{
}

/// The first source of a collection without sources becomes its primary one, and no
/// other.
pub proof fn the_first_source_leads(had_refs: bool, i: usize, r: bool)
    requires
        call_ensures(becomes_primary, (had_refs, i), r),
    ensures
        r <==> !had_refs && i == 0,
{
}

proof fn lemma_primary_index(refs: Seq<CollectionRef>)
    ensures
        0 <= primary_index(refs) <= refs.len(),
        primary_index(refs) < refs.len() ==> refs[primary_index(refs)].is_primary,
        forall|j: int| 0 <= j < primary_index(refs) ==> !(#[trigger] refs[j]).is_primary,
    decreases refs.len(),
{
    if refs.len() > 0 && !refs[0].is_primary {
        lemma_primary_index(refs.drop_first());
        assert forall|j: int| 0 <= j < primary_index(refs) implies !(
        #[trigger] refs[j]).is_primary by {
            if j > 0 {
                assert(refs.drop_first()[j - 1] == refs[j]);
            }
        }
    }
}

/// The primary source of a collection is the first that is marked as such; there is none
/// if and only if none is marked.
pub proof fn the_primary_is_marked(refs: Seq<CollectionRef>)
    ensures
        primary_of(refs) is None <==> forall|j: int|
            0 <= j < refs.len() ==> !(#[trigger] refs[j]).is_primary,
        primary_of(refs) matches Some(p) ==> p.is_primary && refs.contains(p),
{
    lemma_primary_index(refs);
    if primary_of(refs) is Some {
        assert(refs[primary_index(refs)].is_primary);
    }
}

/// What was added in bulk is told with how many were added, and how many skipped where
/// some were.
pub proof fn a_bulk_addition_is_counted(added: u64, skipped: u64, r: Notice)
    requires
        call_ensures(bulk_notice, (added, skipped), r),
    ensures
        skipped == 0 ==> r@ == said(true, "rag-toast-bulk-queued"@).with(
            "added"@,
            decimal(added as nat),
        ),
        skipped > 0 ==> r@ == said(true, "rag-toast-bulk-queued-skipped"@).with(
            "added"@,
            decimal(added as nat),
        ).with("skipped"@, decimal(skipped as nat)),
{
}

/// A name or a source that is there already is told as such; any other failure is not.
pub proof fn what_exists_is_told(
    error: &str,
    what: &str,
    collection: Notice,
    source: Notice,
)
    requires
        call_ensures(create_failed, (error, what), collection),
        call_ensures(add_ref_failed, (error, what), source),
    ensures
        contains_text(error@, "UNIQUE"@) || contains_text(error@, "constraint"@) ==> {
            &&& collection@ == said(false, "rag-toast-name-exists"@).with("name"@, what@)
            &&& source@ == said(false, "rag-toast-ref-exists"@).with("ref"@, what@)
        },
        !contains_text(error@, "UNIQUE"@) && !contains_text(error@, "constraint"@) ==> {
            &&& collection@ == said(false, "rag-toast-create-failed"@)
            &&& source@ == said(false, "rag-toast-add-ref-failed"@)
        },
{
}

/// Every change and every trouble has its own words.
pub proof fn changes_and_troubles_have_their_words()
    ensures
        SourceChange::Added.key() == "rag-toast-indexing-queued-ref"@,
        SourceChange::Reindexed.key() == "rag-toast-reindex-queued-ref"@,
        SourceChange::MadePrimary.key() == "rag-toast-now-default"@,
        SourceChange::Removed.key() == "rag-toast-ref-removed"@,
        Trouble::RefNotFound.key() == "rag-toast-ref-not-found"@,
        Trouble::CollectionNotFound.key() == "rag-toast-collection-not-found"@,
        Trouble::CollectionMissing.key() == "rag-toast-collection-not-found-cap"@,
        Trouble::LoadFailed.key() == "rag-toast-load-collection-failed"@,
        Trouble::CollectionUnreadable.key() == "rag-toast-load-collection-failed-cap"@,
        Trouble::QueueFailed.key() == "rag-toast-reindex-queue-failed"@,
        Trouble::PrimaryFailed.key() == "rag-toast-set-primary-failed"@,
        Trouble::RefDeleteFailed.key() == "rag-toast-delete-ref-failed"@,
        Trouble::LogFailed.key() == "rag-toast-load-log-failed"@,
        Trouble::SourceFailed.key() == "rag-toast-update-source-failed"@,
        Trouble::SaveFailed.key() == "rag-toast-save-failed"@,
{
}

/// A change shows in the row of its collection or below that of its source; a removed
/// collection loses its row, and a failed removal changes nothing.
pub proof fn a_change_shows_in_its_row(
    ui: &Ui,
    c: &Collection,
    refs: &Vec<CollectionRef>,
    message: &str,
    row: Vec<Update>,
    new: Vec<Update>,
    gone: Vec<Update>,
    html: &Html,
    shown: Vec<Update>,
)
    requires
        call_ensures(row_patch, (ui, c, refs, message, None), row),
        call_ensures(created, (ui, c, refs, message), new),
        call_ensures(deleted, (ui, c.id, StoreOutcome::Done), gone),
        call_ensures(row_shown, (c.id, html), shown),
    ensures
        views(row@) == seq![
            patch(
                "#rag-row-"@ + signed_decimal(c.id as int),
                "outer"@,
                collection_row(ui, c, refs@),
            ),
            toast(FlashKind::Success, message@),
        ],
        views(new@).first() == patch("#rag-list"@, "append"@, collection_row(ui, c, refs@)),
        views(new@).last() == toast(FlashKind::Success, message@),
        views(gone@) == seq![
            patch("#rag-row-"@ + signed_decimal(c.id as int), "remove"@, ""@),
            toast(FlashKind::Success, ui.message("rag-toast-collection-removed"@)),
        ],
        views(shown@) == seq![
            patch("#rag-row-"@ + signed_decimal(c.id as int), "outer"@, html@),
        ],
{
}

/// The state of a source is that of the source that leads, where the collection is searched
/// as one, and its own else.
pub proof fn the_leading_source_tells_the_state(
    c: &Collection,
    own: &CollectionRef,
    primary: Option<&CollectionRef>,
    r: &CollectionRef,
    done: Notice,
)
    requires
        call_ensures(status_ref, (c, own, primary), r),
        call_ensures(source_updated, (), done),
    ensures
        c.search_mode != SearchMode::Aggregate ==> r == own,
        c.search_mode == SearchMode::Aggregate && primary is Some ==> r == primary->0,
        primary is None ==> r == own,
        done@ == said(true, "rag-toast-source-updated"@),
{
}

/// What was done to collections and sources is told in its words, with its name or number.
pub proof fn what_was_done_is_told(
    change: SourceChange,
    git_ref: &str,
    changed: Notice,
    count: u64,
    all: Notice,
    name: &str,
    saved: Notice,
    error: &str,
    malformed: Notice,
    id: i64,
    markup: &str,
    below: Vec<Update>,
)
    requires
        call_ensures(source_changed, (change, git_ref), changed),
        call_ensures(all_reindexed, (count,), all),
        call_ensures(collection_saved, (name,), saved),
        call_ensures(malformed_form_toast, (error,), malformed),
        call_ensures(below_row, (id, markup), below),
    ensures
        changed@ == said(true, change.key()).with("ref"@, git_ref@),
        all@ == said(true, "rag-toast-reindex-queued-count"@).with(
            "count"@,
            decimal(count as nat),
        ),
        saved@ == said(true, "rag-toast-saved"@).with("name"@, name@),
        malformed@ == said(false, "rag-toast-malformed-form"@).with("err"@, error@),
        views(below@) == seq![
            patch("#rag-reflog-"@ + signed_decimal(id as int), "inner"@, markup@),
        ],
{
}

} // verus!
