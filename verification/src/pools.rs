//! Pools of upstream servers.
//!
//! A pool serves one kind of request from several backends. What is edited here
//! is stored; it takes effect when the changes are applied.
use crate::admin::{choice, choices, render_choice, render_choices};
use crate::fields::{
    bool_checkbox, checkbox, delete_form, name_field, pk_name_input, render_delete_form,
};
use crate::forms::{checkbox_on, csv_items, field, field_of, fields_all, is_checked, parse_csv, values_of};
use crate::html::{escaped, Html, Ui};
use crate::integrations::{is_listed, listed};
use crate::lines::{
    entries_of, line_views, lines_of, lines_read_back, read_lines, writable, write_lines, Line,
    LineView,
};
use crate::notice::{said, Notice};
use crate::num::{parse_i64, signed_decimal, signed_value, within};
use crate::order::{in_order, lemma_placed_at, sorted, sorting_sorts};
use crate::text::{
    before_or_same, join, joined, opt_text, same, string_or_empty, text_le, text_or_empty, texts,
    trim, trimmed,
};
use crate::markup::{ends_in, group_shows, shows, starts_as};
use vstd::prelude::*;

verus! {

// ---------------------------------------------------------------------------
// Voices

/// The voice for a language; the one without a language is the default.
pub struct VoiceRow {
    pub lang_code: String,
    pub voice_id: String,
}

/// A voice over texts.
pub ghost struct VoiceView {
    pub lang_code: Seq<char>,
    pub voice_id: Seq<char>,
}

impl View for VoiceRow {
    type V = VoiceView;

    open spec fn view(&self) -> VoiceView {
        VoiceView { lang_code: self.lang_code@, voice_id: self.voice_id@ }
    }
}

/// The views of a list of voices.
pub open spec fn voice_views(v: Seq<VoiceRow>) -> Seq<VoiceView> {
    v.map_values(|r: VoiceRow| r@)
}

/// The voice that a line stands for: a bare name is the default.
pub open spec fn voice_of(entry: LineView) -> VoiceView {
    match entry.value {
        Some(v) => VoiceView { lang_code: entry.name, voice_id: v },
        None => VoiceView { lang_code: Seq::empty(), voice_id: entry.name },
    }
}

/// The line for a voice.
pub open spec fn voice_entry(v: VoiceView) -> LineView {
    if v.lang_code.len() == 0 {
        LineView { name: v.voice_id, value: None }
    } else {
        LineView { name: v.lang_code, value: Some(v.voice_id) }
    }
}

/// The lines for voices.
pub open spec fn voice_entries(v: Seq<VoiceView>) -> Seq<LineView> {
    v.map_values(|r: VoiceView| voice_entry(r))
}

/// The voices that entries stand for.
pub open spec fn voices_of(entries: Seq<LineView>) -> Seq<VoiceView> {
    entries.map_values(|e: LineView| voice_of(e))
}

/// The text for voices: one per line.
pub open spec fn voice_text(v: Seq<VoiceView>) -> Seq<char> {
    joined(lines_of(voice_entries(v)), "\n"@)
}

/// Writes voices, one per line.
pub fn voice_lines(voices: &Vec<VoiceRow>) -> (r: String)
    ensures
        r@ == voice_text(voice_views(voices@)),
{
    let ghost view = voice_views(voices@);
    let mut out: Vec<Line> = Vec::new();
    for i in 0..voices.len()
        invariant
            view == voice_views(voices@),
            line_views(out@) == voice_entries(view.take(i as int)),
    {
        let ghost before = line_views(out@);
        assert(view[i as int] == voices@[i as int]@);
        let v = &voices[i];
        let entry = if v.lang_code.as_str().is_empty() {
            Line { name: v.voice_id.clone(), value: None }
        } else {
            Line { name: v.lang_code.clone(), value: Some(v.voice_id.clone()) }
        };
        let ghost ev = entry@;
        out.push(entry);
        proof {
            assert(line_views(out@) =~= before.push(ev));
            assert(line_views(out@) =~= voice_entries(view.take(i + 1)));
        }
    }
    assert(view.take(view.len() as int) =~= view);
    write_lines(&out)
}

/// Reads voices, one per line: `lang=voice`, or a bare voice for the default.
pub fn parse_voices(v: &str) -> (r: Vec<VoiceRow>)
    ensures
        voice_views(r@) == voices_of(entries_of(v@)),
{
    let lines = read_lines(v);
    let ghost view = entries_of(v@);
    let mut out: Vec<VoiceRow> = Vec::new();
    assert(line_views(lines@).len() == lines@.len());
    for i in 0..lines.len()
        invariant
            view == line_views(lines@),
            lines@.len() == view.len(),
            voice_views(out@) == voices_of(view.take(i as int)),
    {
        let ghost before = voice_views(out@);
        assert(view[i as int] == lines@[i as int]@);
        let l = &lines[i];
        let row = match &l.value {
            Some(voice) => VoiceRow { lang_code: l.name.clone(), voice_id: voice.clone() },
            None => VoiceRow { lang_code: String::new(), voice_id: l.name.clone() },
        };
        let ghost rv = row@;
        assert(rv == voice_of(view[i as int])) by {
            if view[i as int].value is None {
                assert(rv.lang_code =~= Seq::<char>::empty());
            }
        }
        out.push(row);
        proof {
            assert(voice_views(out@) =~= before.push(rv));
            assert(voice_views(out@) =~= voices_of(view.take(i + 1)));
        }
    }
    assert(view.take(view.len() as int) =~= view);
    out
}

/// Voices that were written are read: they come back as they were.
pub proof fn voices_read_back(voices: Seq<VoiceView>)
    requires
        forall|i: int| 0 <= i < voices.len() ==> writable(voice_entry(#[trigger] voices[i])),
    ensures
        voices_of(entries_of(voice_text(voices))) == voices,
{
    let entries = voice_entries(voices);
    assert forall|i: int| 0 <= i < entries.len() implies writable(#[trigger] entries[i]) by {
        assert(entries[i] == voice_entry(voices[i]));
    }
    lines_read_back(entries);
    assert forall|i: int| 0 <= i < voices.len() implies #[trigger] voices_of(entries)[i]
        == voices[i] by {
        assert(entries[i] == voice_entry(voices[i]));
        if voices[i].lang_code.len() == 0 {
            assert(voices[i].lang_code =~= Seq::<char>::empty());
        }
    }
    assert(voices_of(entries) =~= voices);
}

// ---------------------------------------------------------------------------
// Pools

/// A pool.
pub struct PoolRow {
    pub name: String,
    pub kind: String,
    pub strategy: String,
    pub fallback_offline: Option<String>,
    pub compliance_gdpr: bool,
    pub compliance_nda: bool,
    pub enforce_limits: bool,
    pub sort_order: i64,
    pub backends: Vec<String>,
    pub models: Vec<String>,
    pub voices: Vec<VoiceRow>,
}

/// A kind of request.
pub open spec fn known_kind(s: Seq<char>) -> bool {
    s == "chat"@ || s == "transcription"@ || s == "embedding"@ || s == "image"@ || s == "speech"@
}

/// A kind that can have a model for requests that name none that is known. Speech
/// has none: a mistyped voice is the backend's to report.
pub open spec fn fallback_kind(s: Seq<char>) -> bool {
    s == "chat"@ || s == "transcription"@ || s == "embedding"@ || s == "image"@
}

/// A way to pick a backend.
pub open spec fn known_strategy(s: Seq<char>) -> bool {
    s == "least_inflight"@ || s == "round_robin"@
}

fn is_fallback_kind(s: &str) -> (r: bool)
    ensures
        r == fallback_kind(s@),
{
    same(s, "chat") || same(s, "transcription") || same(s, "embedding") || same(s, "image")
}

fn is_kind(s: &str) -> (r: bool)
    ensures
        r == known_kind(s@),
{
    is_fallback_kind(s) || same(s, "speech")
}

/// A text, or nothing when it is blank.
pub open spec fn filled_in(s: Seq<char>) -> Option<Seq<char>> {
    if trimmed(s).len() == 0 {
        None
    } else {
        Some(trimmed(s))
    }
}

/// A text, or nothing when it is blank.
pub fn read_filled_in(s: &str) -> (r: Option<String>)
    ensures
        opt_text(r) == filled_in(s@),
{
    let t = trim(s);
    if t.as_str().is_empty() {
        None
    } else {
        Some(t)
    }
}

/// A number, nought when it is none.
pub open spec fn order_of(s: Seq<char>) -> int {
    match within(signed_value(trimmed(s)), i64::MIN as int, i64::MAX as int) {
        Some(n) => n,
        None => 0,
    }
}

/// Reads the form of a pool.
pub fn read_pool(pairs: &Vec<(String, String)>) -> (r: Result<PoolRow, Notice>)
    ensures
        ({
            let name = trimmed(field_of(pairs@, "name"@));
            let kind = trimmed(field_of(pairs@, "kind"@));
            let strategy = trimmed(field_of(pairs@, "strategy"@));
            match r {
                Err(n) => if name.len() == 0 {
                    n@ == said(false, "pools-error-name-required"@)
                } else {
                    !known_kind(kind) && n@ == said(false, "pools-error-invalid-kind"@).with(
                        "kind"@,
                        kind,
                    )
                },
                Ok(p) => {
                    &&& name.len() > 0
                    &&& known_kind(kind)
                    &&& p.name@ == name
                    &&& p.kind@ == kind
                    &&& p.strategy@ == (if known_strategy(strategy) {
                        strategy
                    } else {
                        "least_inflight"@
                    })
                    &&& opt_text(p.fallback_offline) == filled_in(
                        field_of(pairs@, "fallback_offline"@),
                    )
                    &&& p.compliance_gdpr == is_checked(field_of(pairs@, "compliance_gdpr"@))
                    &&& p.compliance_nda == is_checked(field_of(pairs@, "compliance_nda"@))
                    &&& p.enforce_limits == is_checked(field_of(pairs@, "enforce_limits"@))
                    &&& p.sort_order == order_of(field_of(pairs@, "sort_order"@))
                    &&& texts(p.backends@) == values_of(pairs@, "backends"@)
                    &&& texts(p.models@) == csv_items(field_of(pairs@, "models"@))
                    &&& voice_views(p.voices@) == voices_of(
                        entries_of(field_of(pairs@, "voices"@)),
                    )
                },
            }
        }),
{
    let name = trim(&field(pairs, "name"));
    if name.as_str().is_empty() {
        return Err(Notice::plain(false, "pools-error-name-required"));
    }
    let kind = trim(&field(pairs, "kind"));
    if !is_kind(&kind) {
        return Err(Notice::plain(false, "pools-error-invalid-kind").and("kind", &kind));
    }
    let asked = trim(&field(pairs, "strategy"));
    let strategy = if same(&asked, "least_inflight") || same(&asked, "round_robin") {
        asked
    } else {
        "least_inflight".to_owned()
    };
    let sort_order: i64 = match parse_i64(&trim(&field(pairs, "sort_order"))) {
        Some(n) => n,
        None => 0,
    };
    Ok(
        PoolRow {
            name,
            kind,
            strategy,
            fallback_offline: read_filled_in(&field(pairs, "fallback_offline")),
            compliance_gdpr: checkbox_on(&field(pairs, "compliance_gdpr")),
            compliance_nda: checkbox_on(&field(pairs, "compliance_nda")),
            enforce_limits: checkbox_on(&field(pairs, "enforce_limits")),
            sort_order,
            backends: fields_all(pairs, "backends"),
            models: parse_csv(&field(pairs, "models")),
            voices: parse_voices(&field(pairs, "voices")),
        },
    )
}

/// What is said once something was stored, or of the error.
pub fn stored(error: Option<&str>, key: &str, error_key: &str, name: &str) -> (r: Notice)
    ensures
        r@ == (match error {
            None => said(true, key@).with("name"@, name@),
            Some(e) => said(false, error_key@).with("err"@, e@),
        }),
{
    match error {
        None => Notice::plain(true, key).and("name", name),
        Some(e) => Notice::plain(false, error_key).and("err", e),
    }
}

/// What is said once a pool was saved.
pub fn pool_saved(error: Option<&str>, name: &str) -> (r: Notice)
    ensures
        r@ == (match error {
            None => said(true, "pools-saved"@).with("name"@, name@),
            Some(e) => said(false, "admin-db-upsert-error"@).with("err"@, e@),
        }),
{
    stored(error, "pools-saved", "admin-db-upsert-error", name)
}

/// What is said once a pool was deleted.
pub fn pool_deleted(error: Option<&str>, name: &str) -> (r: Notice)
    ensures
        r@ == (match error {
            None => said(true, "pools-deleted"@).with("name"@, name@),
            Some(e) => said(false, "admin-db-error"@).with("err"@, e@),
        }),
{
    stored(error, "pools-deleted", "admin-db-error", name)
}

/// The model for requests of a kind that name none that is known; `None` clears
/// it.
pub struct FallbackChange {
    pub kind: String,
    pub model: Option<String>,
}

/// Reads the form of a fallback.
pub fn read_fallback(pairs: &Vec<(String, String)>) -> (r: Result<FallbackChange, Notice>)
    ensures
        ({
            let kind = trimmed(field_of(pairs@, "kind"@));
            match r {
                Ok(c) => fallback_kind(kind) && c.kind@ == kind && opt_text(c.model) == filled_in(
                    field_of(pairs@, "model"@),
                ),
                Err(n) => !fallback_kind(kind) && n@ == said(
                    false,
                    "pools-error-invalid-kind"@,
                ).with("kind"@, kind),
            }
        }),
{
    let kind = trim(&field(pairs, "kind"));
    if !is_fallback_kind(&kind) {
        return Err(Notice::plain(false, "pools-error-invalid-kind").and("kind", &kind));
    }
    Ok(FallbackChange { kind, model: read_filled_in(&field(pairs, "model")) })
}

/// What is said once a fallback was stored.
pub fn fallback_saved(change: &FallbackChange, error: Option<&str>) -> (r: Notice)
    ensures
        r@ == (match error {
            Some(e) => said(false, "admin-db-error"@).with("err"@, e@),
            None => match change.model {
                Some(m) => said(true, "pools-fallback-saved"@).with("kind"@, change.kind@).with(
                    "model"@,
                    m@,
                ),
                None => said(true, "pools-fallback-cleared"@).with("kind"@, change.kind@),
            },
        }),
{
    match error {
        Some(e) => Notice::plain(false, "admin-db-error").and("err", e),
        None => match &change.model {
            Some(m) => Notice::plain(true, "pools-fallback-saved").and("kind", &change.kind).and(
                "model",
                m,
            ),
            None => Notice::plain(true, "pools-fallback-cleared").and("kind", &change.kind),
        },
    }
}

// ---------------------------------------------------------------------------
// The order of pools

/// Order of the page: by the stored order, then by name.
pub open spec fn pool_le(a: PoolRow, b: PoolRow) -> bool {
    a.sort_order < b.sort_order || (a.sort_order == b.sort_order && text_le(a.name@, b.name@))
}

/// Order of the page.
pub open spec fn page_order() -> spec_fn(PoolRow, PoolRow) -> bool {
    |a: PoolRow, b: PoolRow| pool_le(a, b)
}

/// Puts pools into the order of the page.
pub fn sort_pools(pools: Vec<PoolRow>) -> (r: Vec<PoolRow>)
    ensures
        r@ == sorted(page_order(), pools@),
{
    let ghost all = pools@;
    let mut rest = pools;
    let n: usize = rest.len();
    let mut out: Vec<PoolRow> = Vec::new();
    let mut i: usize = 0;
    assert(all.skip(0) =~= all);
    assert(all.take(0) =~= Seq::<PoolRow>::empty());
    while i < n
        invariant
            i <= n,
            n == all.len(),
            rest@ == all.skip(i as int),
            out@ == sorted(page_order(), all.take(i as int)),
        decreases n - i,
    {
        let p = rest.remove(0);
        assert(rest@ =~= all.skip(i + 1));
        assert(p == all[i as int]);
        assert(all.take(i + 1).drop_last() =~= all.take(i as int));
        let mut k: usize = out.len();
        while k > 0 && !(out[k - 1].sort_order < p.sort_order || (out[k - 1].sort_order
            == p.sort_order && before_or_same(&out[k - 1].name, &p.name)))
            invariant
                k <= out@.len(),
                forall|j: int| k <= j < out@.len() ==> !pool_le(#[trigger] out@[j], p),
            decreases k,
        {
            k = k - 1;
        }
        proof {
            lemma_placed_at(page_order(), out@, p, k as int);
        }
        out.insert(k, p);
        i = i + 1;
    }
    assert(all.take(n as int) =~= all);
    out
}

/// The page shows every pool, in order.
pub proof fn pools_are_sorted(pools: Seq<PoolRow>)
    ensures
        in_order(page_order(), sorted(page_order(), pools)),
        sorted(page_order(), pools).to_multiset() == pools.to_multiset(),
{
    let le = page_order();
    assert forall|a: PoolRow, b: PoolRow| #[trigger] le(a, b) || le(b, a) by {
        crate::text::lemma_text_le_total(a.name@, b.name@);
    }
    assert forall|a: PoolRow, b: PoolRow, c: PoolRow|
        #[trigger] le(a, b) && #[trigger] le(b, c) implies le(a, c) by {
        if a.sort_order == b.sort_order && b.sort_order == c.sort_order {
            crate::text::lemma_text_le_transitive(a.name@, b.name@, c.name@);
        }
    }
    sorting_sorts(le, pools);
}

// ---------------------------------------------------------------------------
// The form of a pool

/// The kinds, the given one chosen.
pub open spec fn kind_options(current: Seq<char>) -> Seq<char> {
    choice("chat"@, "chat"@, current == "chat"@) + choice(
        "transcription"@,
        "transcription"@,
        current == "transcription"@,
    ) + choice("embedding"@, "embedding"@, current == "embedding"@) + choice(
        "image"@,
        "image"@,
        current == "image"@,
    ) + choice("speech"@, "speech"@, current == "speech"@)
}

fn plain_option(value: &str, current: &str) -> (r: Html)
    ensures
        r@ == choice(value@, value@, current@ == value@),
{
    render_choice(value, value, same(current, value))
}

fn render_kind_options(current: &str) -> (r: Html)
    ensures
        r@ == kind_options(current@),
{
    plain_option("chat", current).html(plain_option("transcription", current)).html(
        plain_option("embedding", current),
    ).html(plain_option("image", current)).html(plain_option("speech", current))
}

/// The ways to pick a backend, the given one chosen.
pub open spec fn strategy_options(current: Seq<char>) -> Seq<char> {
    choice("least_inflight"@, "least_inflight"@, current == "least_inflight"@) + choice(
        "round_robin"@,
        "round_robin"@,
        current == "round_robin"@,
    )
}

fn render_strategy_options(current: &str) -> (r: Html)
    ensures
        r@ == strategy_options(current@),
{
    plain_option("least_inflight", current).html(plain_option("round_robin", current))
}

/// The backends, those of the pool checked.
pub open spec fn backend_boxes(names: Seq<String>, assigned: Seq<String>) -> Seq<char>
    decreases names.len(),
{
    if names.len() == 0 {
        Seq::empty()
    } else {
        let n = names.last()@;
        backend_boxes(names.drop_last(), assigned) + checkbox(
            "backends"@,
            n,
            n,
            listed(assigned, n),
            true,
        )
    }
}

fn render_backend_boxes(names: &Vec<String>, assigned: &Vec<String>) -> (r: Html)
    ensures
        r@ == backend_boxes(names@, assigned@),
{
    let mut out = Html::empty();
    assert(names@.take(0) =~= Seq::<String>::empty());
    for i in 0..names.len()
        invariant
            out@ == backend_boxes(names@.take(i as int), assigned@),
    {
        assert(names@.take(i + 1).drop_last() =~= names@.take(i as int));
        let n = &names[i];
        out = out.html(bool_checkbox("backends", n, n, is_listed(assigned, n), true));
    }
    assert(names@.take(names@.len() as int) =~= names@);
    out
}

/// What the form of a pool is filled with.
pub ghost struct PoolFill {
    pub stored: bool,
    pub name: Seq<char>,
    pub kind: Seq<char>,
    pub strategy: Seq<char>,
    pub fallback_offline: Seq<char>,
    pub gdpr: bool,
    pub nda: bool,
    pub enforce: bool,
    pub models: Seq<char>,
    pub voices: Seq<char>,
    pub assigned: Seq<String>,
}

/// What the form is filled with: what is stored, or the start of a new pool, which
/// counts as cleared and limited until it is said otherwise.
pub open spec fn pool_fill(existing: Option<&PoolRow>) -> PoolFill {
    match existing {
        Some(p) => PoolFill {
            stored: true,
            name: p.name@,
            kind: p.kind@,
            strategy: p.strategy@,
            fallback_offline: text_or_empty(opt_text(p.fallback_offline)),
            gdpr: p.compliance_gdpr,
            nda: p.compliance_nda,
            enforce: p.enforce_limits,
            models: joined(texts(p.models@), ", "@),
            voices: voice_text(voice_views(p.voices@)),
            assigned: p.backends@,
        },
        None => PoolFill {
            stored: false,
            name: Seq::empty(),
            kind: "chat"@,
            strategy: "least_inflight"@,
            fallback_offline: Seq::empty(),
            gdpr: true,
            nda: true,
            enforce: true,
            models: Seq::empty(),
            voices: Seq::empty(),
            assigned: Seq::empty(),
        },
    }
}

struct Fill {
    stored: bool,
    name: String,
    kind: String,
    strategy: String,
    fallback_offline: String,
    gdpr: bool,
    nda: bool,
    enforce: bool,
    models: String,
    voices: String,
    assigned: Vec<String>,
}

fn make_fill(existing: Option<&PoolRow>) -> (r: Fill)
    ensures
        ({
            let f = pool_fill(existing);
            &&& r.stored == f.stored
            &&& r.name@ == f.name
            &&& r.kind@ == f.kind
            &&& r.strategy@ == f.strategy
            &&& r.fallback_offline@ == f.fallback_offline
            &&& r.gdpr == f.gdpr
            &&& r.nda == f.nda
            &&& r.enforce == f.enforce
            &&& r.models@ == f.models
            &&& r.voices@ == f.voices
            &&& r.assigned@ == f.assigned
        }),
{
    match existing {
        Some(p) => Fill {
            stored: true,
            name: p.name.clone(),
            kind: p.kind.clone(),
            strategy: p.strategy.clone(),
            fallback_offline: string_or_empty(&p.fallback_offline),
            gdpr: p.compliance_gdpr,
            nda: p.compliance_nda,
            enforce: p.enforce_limits,
            models: join(&p.models, ", "),
            voices: voice_lines(&p.voices),
            assigned: crate::text::clone_list(&p.backends),
        },
        None => Fill {
            stored: false,
            name: String::new(),
            kind: "chat".to_owned(),
            strategy: "least_inflight".to_owned(),
            fallback_offline: String::new(),
            gdpr: true,
            nda: true,
            enforce: true,
            models: String::new(),
            voices: String::new(),
            assigned: Vec::new(),
        },
    }
}

/// Name, kind and strategy.
pub open spec fn choice_fields(ui: &Ui, f: PoolFill) -> Seq<char> {
    r#"<div class="grid grid-cols-1 sm:grid-cols-3 gap-3"><label class="form-control gap-1">"#@
        + r#"<span class="text-xs opacity-70">"#@
        + escaped(ui.message("pools-field-name"@))
        + "</span>"@
        + name_field(f.name, "chat-eu"@, f.stored)
        + r#"</label><label class="form-control gap-1"><span class="text-xs opacity-70">"#@
        + escaped(ui.message("pools-field-kind"@))
        + r#"</span><select name="kind" class="select select-bordered select-sm">"#@
        + kind_options(f.kind)
        + r#"</select></label><label class="form-control gap-1"><span class="text-xs opacity-70">"#@
        + escaped(ui.message("pools-field-strategy"@))
        + r#"</span><select name="strategy" class="select select-bordered select-sm">"#@
        + strategy_options(f.strategy)
        + "</select></label></div>"@
}

fn render_choice_fields(ui: &Ui, f: &Fill, Ghost(view): Ghost<PoolFill>) -> (r: Html)
    requires
        f.stored == view.stored,
        f.name@ == view.name,
        f.kind@ == view.kind,
        f.strategy@ == view.strategy,
    ensures
        r@ == choice_fields(ui, view),
{
    Html::new(r#"<div class="grid grid-cols-1 sm:grid-cols-3 gap-3"><label class="form-control gap-1">"#)
        .raw(r#"<span class="text-xs opacity-70">"#)
        .msg(ui, "pools-field-name")
        .raw("</span>")
        .html(pk_name_input(&f.name, "chat-eu", f.stored))
        .raw(r#"</label><label class="form-control gap-1"><span class="text-xs opacity-70">"#)
        .msg(ui, "pools-field-kind")
        .raw(r#"</span><select name="kind" class="select select-bordered select-sm">"#)
        .html(render_kind_options(&f.kind))
        .raw(r#"</select></label><label class="form-control gap-1"><span class="text-xs opacity-70">"#)
        .msg(ui, "pools-field-strategy")
        .raw(r#"</span><select name="strategy" class="select select-bordered select-sm">"#)
        .html(render_strategy_options(&f.strategy))
        .raw("</select></label></div>")
}

/// The flags of a pool.
pub open spec fn flag_boxes(ui: &Ui, gdpr: bool, nda: bool, enforce: bool) -> Seq<char> {
    r#"<div class="flex flex-wrap gap-4">"#@
        + checkbox("compliance_gdpr"@, "on"@, ui.message("pools-field-gdpr"@), gdpr, false)
        + checkbox("compliance_nda"@, "on"@, ui.message("pools-field-nda"@), nda, false)
        + checkbox("enforce_limits"@, "on"@, ui.message("pools-field-enforce-limits"@), enforce, false)
        + "</div>"@
}

fn render_flag_boxes(ui: &Ui, gdpr: bool, nda: bool, enforce: bool) -> (r: Html)
    ensures
        r@ == flag_boxes(ui, gdpr, nda, enforce),
{
    Html::new(r#"<div class="flex flex-wrap gap-4">"#)
        .html(bool_checkbox("compliance_gdpr", "on", &ui.t("pools-field-gdpr"), gdpr, false))
        .html(bool_checkbox("compliance_nda", "on", &ui.t("pools-field-nda"), nda, false))
        .html(bool_checkbox("enforce_limits", "on", &ui.t("pools-field-enforce-limits"), enforce, false))
        .raw("</div>")
}

/// The form of a pool. A stored one can also be deleted, and keeps its name.
#[verifier::opaque]
pub open spec fn pool_form(
    ui: &Ui,
    existing: Option<&PoolRow>,
    sort_order: i64,
    backend_names: Seq<String>,
) -> Seq<char> {
    let f = pool_fill(existing);
    let title = if f.stored {
        f.name
    } else {
        ui.message("pools-add-heading"@)
    };
    r#"<article class="card border border-base-300 bg-base-100"><div class="card-body gap-3">"#@
        + r#"<h3 class="card-title text-base font-mono break-all">"#@
        + escaped(title)
        + "</h3>"@
        + r#"<form method="post" action="/admin/pools/save""#@
        + r#" data-on:submit__prevent="@post(&#39;/admin/pools/save&#39;, {contentType:"#@
        + r#" &#39;form&#39;})" class="flex flex-col gap-3 m-0">"#@
        + r#"<input type="hidden" name="sort_order" value=""#@
        + signed_decimal(sort_order as int)
        + r#"">"#@
        + choice_fields(ui, f)
        + r#"<label class="form-control gap-1"><span class="text-xs opacity-70">"#@
        + escaped(ui.message("pools-field-fallback-offline"@))
        + r#"</span><input type="text" name="fallback_offline" value=""#@
        + escaped(f.fallback_offline)
        + r#"" class="input input-bordered input-sm font-mono" placeholder=""#@
        + escaped(ui.message("pools-field-fallback-offline-placeholder"@))
        + r#""></label><label class="form-control gap-1"><span class="text-xs opacity-70">"#@
        + escaped(ui.message("pools-field-models"@))
        + r#"</span><input type="text" name="models" value=""#@
        + escaped(f.models)
        + r#"" class="input input-bordered input-sm font-mono" placeholder="qwen-32b, glm-4.6"></label>"#@
        + r#"<label class="form-control gap-1"><span class="text-xs opacity-70">"#@
        + escaped(ui.message("pools-field-voices"@))
        + "</span>"@
        + r#"<textarea name="voices" class="textarea textarea-bordered textarea-sm font-mono" rows="2""#@
        + " placeholder=\"de=de-voice\nen=en-voice\">"@
        + escaped(f.voices)
        + r#"</textarea></label><fieldset class="flex flex-col gap-1"><span class="text-xs opacity-70">"#@
        + escaped(ui.message("pools-field-backends"@))
        + "</span>"@
        + (if backend_names.len() == 0 {
            r#"<span class="text-xs text-base-content/50 italic">"#@
                + escaped(ui.message("pools-no-backends"@))
                + "</span>"@
        } else {
            r#"<div class="flex flex-wrap gap-x-4 gap-y-1">"#@
                + backend_boxes(backend_names, f.assigned)
                + "</div>"@
        })
        + "</fieldset>"@
        + flag_boxes(ui, f.gdpr, f.nda, f.enforce)
        + r#"<div class="flex justify-end"><button type="submit" class="btn btn-primary btn-sm">"#@
        + ui.icon_markup("check"@, 14)
        + "<span>"@
        + (if f.stored {
            escaped(ui.message("pools-save-pool"@))
        } else {
            escaped(ui.message("pools-add-pool"@))
        })
        + "</span></button></div></form>"@
        + (if f.stored {
            delete_form(ui, "/admin/pools/delete"@, f.name, ui.message("pools-delete-pool"@))
        } else {
            Seq::<char>::empty()
        })
        + "</div></article>"@
}

/// Renders the form of a pool: filled with a stored one, or empty for a new one.
pub fn render_pool_form(
    ui: &Ui,
    existing: Option<&PoolRow>,
    sort_order: i64,
    backend_names: &Vec<String>,
) -> (r: Html)
    ensures
        r@ == pool_form(ui, existing, sort_order, backend_names@),
{
    proof {
        reveal(pool_form);
    }
    let f = make_fill(existing);
    let ghost view = pool_fill(existing);
    let title = if f.stored {
        f.name.clone()
    } else {
        ui.t("pools-add-heading")
    };
    Html::new(r#"<article class="card border border-base-300 bg-base-100"><div class="card-body gap-3">"#)
        .raw(r#"<h3 class="card-title text-base font-mono break-all">"#)
        .text(&title)
        .raw("</h3>")
        .raw(r#"<form method="post" action="/admin/pools/save""#)
        .raw(r#" data-on:submit__prevent="@post(&#39;/admin/pools/save&#39;, {contentType:"#)
        .raw(r#" &#39;form&#39;})" class="flex flex-col gap-3 m-0">"#)
        .raw(r#"<input type="hidden" name="sort_order" value=""#)
        .signed(sort_order)
        .raw(r#"">"#)
        .html(render_choice_fields(ui, &f, Ghost(view)))
        .raw(r#"<label class="form-control gap-1"><span class="text-xs opacity-70">"#)
        .msg(ui, "pools-field-fallback-offline")
        .raw(r#"</span><input type="text" name="fallback_offline" value=""#)
        .text(&f.fallback_offline)
        .raw(r#"" class="input input-bordered input-sm font-mono" placeholder=""#)
        .msg(ui, "pools-field-fallback-offline-placeholder")
        .raw(r#""></label><label class="form-control gap-1"><span class="text-xs opacity-70">"#)
        .msg(ui, "pools-field-models")
        .raw(r#"</span><input type="text" name="models" value=""#)
        .text(&f.models)
        .raw(r#"" class="input input-bordered input-sm font-mono" placeholder="qwen-32b, glm-4.6"></label>"#)
        .raw(r#"<label class="form-control gap-1"><span class="text-xs opacity-70">"#)
        .msg(ui, "pools-field-voices")
        .raw("</span>")
        .raw(r#"<textarea name="voices" class="textarea textarea-bordered textarea-sm font-mono" rows="2""#)
        .raw(" placeholder=\"de=de-voice\nen=en-voice\">")
        .text(&f.voices)
        .raw(r#"</textarea></label><fieldset class="flex flex-col gap-1"><span class="text-xs opacity-70">"#)
        .msg(ui, "pools-field-backends")
        .raw("</span>")
        .html(if backend_names.len() == 0 {
            Html::new(r#"<span class="text-xs text-base-content/50 italic">"#)
                .msg(ui, "pools-no-backends")
                .raw("</span>")
        } else {
            Html::new(r#"<div class="flex flex-wrap gap-x-4 gap-y-1">"#)
                .html(render_backend_boxes(backend_names, &f.assigned))
                .raw("</div>")
        })
        .raw("</fieldset>")
        .html(render_flag_boxes(ui, f.gdpr, f.nda, f.enforce))
        .raw(r#"<div class="flex justify-end"><button type="submit" class="btn btn-primary btn-sm">"#)
        .icon(ui, "check", 14)
        .raw("<span>")
        .html(if f.stored {
            Html::of(&ui.t("pools-save-pool"))
        } else {
            Html::of(&ui.t("pools-add-pool"))
        })
        .raw("</span></button></div></form>")
        .html(if f.stored {
            render_delete_form(ui, "/admin/pools/delete", &f.name, &ui.t("pools-delete-pool"))
        } else {
            Html::empty()
        })
        .raw("</div></article>")
}

// ---------------------------------------------------------------------------
// The page

/// The models for requests that name none that is known, by kind.
pub struct Fallbacks {
    pub chat: Option<String>,
    pub transcription: Option<String>,
    pub embedding: Option<String>,
    pub image: Option<String>,
}

/// The picker of a fallback. It is stored when it is changed.
#[verifier::opaque]
pub open spec fn fallback_picker(
    ui: &Ui,
    kind: Seq<char>,
    current: Option<Seq<char>>,
    all_models: Seq<String>,
) -> Seq<char> {
    r#"<form method="post" action="/admin/pools/fallback" class="m-0">"#@
        + r#"<input type="hidden" name="kind" value=""#@
        + escaped(kind)
        + r#""><label class="form-control gap-1"><span class="text-xs opacity-70 font-mono">"#@
        + escaped(kind)
        + "</span>"@
        + r#"<select name="model" class="select select-bordered select-sm""#@
        + r#" data-on:change="@post(&#39;/admin/pools/fallback&#39;, {contentType: &#39;form&#39;})">"#@
        + choice(""@, ui.message("admin-cap-no-fallback"@), false)
        + choices(all_models, current)
        + "</select></label></form>"@
}

/// Renders the picker of a fallback.
pub fn fallback_select(
    ui: &Ui,
    kind: &str,
    current: Option<&str>,
    all_models: &Vec<String>,
) -> (r: Html)
    ensures
        r@ == fallback_picker(ui, kind@, crate::rag::opt_str(current), all_models@),
{
    proof {
        reveal(fallback_picker);
    }
    Html::new(r#"<form method="post" action="/admin/pools/fallback" class="m-0">"#)
        .raw(r#"<input type="hidden" name="kind" value=""#)
        .text(kind)
        .raw(r#""><label class="form-control gap-1"><span class="text-xs opacity-70 font-mono">"#)
        .text(kind)
        .raw("</span>")
        .raw(r#"<select name="model" class="select select-bordered select-sm""#)
        .raw(r#" data-on:change="@post(&#39;/admin/pools/fallback&#39;, {contentType: &#39;form&#39;})">"#)
        .html(render_choice("", &ui.t("admin-cap-no-fallback"), false))
        .html(render_choices(all_models, current))
        .raw("</select></label></form>")
}

fn fallback_of(
    ui: &Ui,
    kind: &str,
    current: &Option<String>,
    all_models: &Vec<String>,
) -> (r: Html)
    ensures
        r@ == fallback_picker(ui, kind@, opt_text(*current), all_models@),
{
    match current {
        Some(c) => fallback_select(ui, kind, Some(c), all_models),
        None => fallback_select(ui, kind, None, all_models),
    }
}

/// The pickers of all fallbacks.
pub open spec fn fallbacks_card(ui: &Ui, fallbacks: Fallbacks, all_models: Seq<String>) -> Seq<char> {
    r#"<article class="card border border-base-300 bg-base-100"><div class="card-body gap-3">"#@
        + r#"<h2 class="card-title text-base">"#@
        + escaped(ui.message("pools-fallbacks-heading"@))
        + r#"</h2><p class="text-base-content/70 text-sm">"#@
        + escaped(ui.message("pools-fallbacks-description"@))
        + r#"</p><div class="grid grid-cols-1 sm:grid-cols-2 gap-3">"#@
        + fallback_picker(ui, "chat"@, opt_text(fallbacks.chat), all_models)
        + fallback_picker(ui, "transcription"@, opt_text(fallbacks.transcription), all_models)
        + fallback_picker(ui, "embedding"@, opt_text(fallbacks.embedding), all_models)
        + fallback_picker(ui, "image"@, opt_text(fallbacks.image), all_models)
        + "</div></div></article>"@
}

/// Renders the pickers of all fallbacks.
pub fn render_fallbacks_card(ui: &Ui, fallbacks: &Fallbacks, all_models: &Vec<String>) -> (r: Html)
    ensures
        r@ == fallbacks_card(ui, *fallbacks, all_models@),
{
    Html::new(r#"<article class="card border border-base-300 bg-base-100"><div class="card-body gap-3">"#)
        .raw(r#"<h2 class="card-title text-base">"#)
        .msg(ui, "pools-fallbacks-heading")
        .raw(r#"</h2><p class="text-base-content/70 text-sm">"#)
        .msg(ui, "pools-fallbacks-description")
        .raw(r#"</p><div class="grid grid-cols-1 sm:grid-cols-2 gap-3">"#)
        .html(fallback_of(ui, "chat", &fallbacks.chat, all_models))
        .html(fallback_of(ui, "transcription", &fallbacks.transcription, all_models))
        .html(fallback_of(ui, "embedding", &fallbacks.embedding, all_models))
        .html(fallback_of(ui, "image", &fallbacks.image, all_models))
        .raw("</div></div></article>")
}

/// The forms of pools, in order.
pub open spec fn pool_cards(ui: &Ui, pools: Seq<PoolRow>, backend_names: Seq<String>) -> Seq<char>
    decreases pools.len(),
{
    if pools.len() == 0 {
        Seq::empty()
    } else {
        pool_cards(ui, pools.drop_last(), backend_names) + pool_form(
            ui,
            Some(&pools.last()),
            pools.last().sort_order,
            backend_names,
        )
    }
}

fn render_pool_cards(ui: &Ui, pools: &Vec<PoolRow>, backend_names: &Vec<String>) -> (r: Html)
    ensures
        r@ == pool_cards(ui, pools@, backend_names@),
{
    let mut out = Html::empty();
    assert(pools@.take(0) =~= Seq::<PoolRow>::empty());
    for i in 0..pools.len()
        invariant
            out@ == pool_cards(ui, pools@.take(i as int), backend_names@),
    {
        assert(pools@.take(i + 1).drop_last() =~= pools@.take(i as int));
        out = out.html(render_pool_form(ui, Some(&pools[i]), pools[i].sort_order, backend_names));
    }
    assert(pools@.take(pools@.len() as int) =~= pools@);
    out
}

/// The page of pools. A new pool goes last.
pub open spec fn pools_page(
    ui: &Ui,
    pools: Seq<PoolRow>,
    backend_names: Seq<String>,
    fallbacks: Fallbacks,
    all_models: Seq<String>,
) -> Seq<char> {
    r#"<section class="max-w-5xl mx-auto p-4 sm:p-6 flex flex-col gap-4">"#@
        + r#"<header class="flex items-center justify-between gap-3 flex-wrap">"#@
        + r#"<div class="flex flex-col gap-1"><h1 class="text-2xl font-bold">"#@
        + escaped(ui.message("pools-heading"@))
        + r#"</h1><p class="text-base-content/70 text-sm">"#@
        + escaped(ui.message("pools-description"@))
        + "</p></div>"@
        + r#"<button class="btn btn-warning btn-sm""#@
        + r#" data-on:click="@post(&#39;/admin/upstreams/reload&#39;)">"#@
        + ui.icon_markup("check"@, 14)
        + "<span>"@
        + escaped(ui.message("backends-apply-changes"@))
        + "</span></button></header>"@
        + fallbacks_card(ui, fallbacks, all_models)
        + pool_form(ui, None, pools.len() as i64, backend_names)
        + (if pools.len() > 0 {
            r#"<div class="flex flex-col gap-4">"#@
                + pool_cards(ui, pools, backend_names)
                + "</div>"@
        } else {
            Seq::<char>::empty()
        })
        + "</section>"@
}

/// Renders the page of pools.
pub fn render_pools_body(
    ui: &Ui,
    pools: &Vec<PoolRow>,
    backend_names: &Vec<String>,
    fallbacks: &Fallbacks,
    all_models: &Vec<String>,
) -> (r: Html)
    requires
        pools@.len() <= i64::MAX,
    ensures
        r@ == pools_page(ui, pools@, backend_names@, *fallbacks, all_models@),
{
    Html::new(r#"<section class="max-w-5xl mx-auto p-4 sm:p-6 flex flex-col gap-4">"#)
        .raw(r#"<header class="flex items-center justify-between gap-3 flex-wrap">"#)
        .raw(r#"<div class="flex flex-col gap-1"><h1 class="text-2xl font-bold">"#)
        .msg(ui, "pools-heading")
        .raw(r#"</h1><p class="text-base-content/70 text-sm">"#)
        .msg(ui, "pools-description")
        .raw("</p></div>")
        .raw(r#"<button class="btn btn-warning btn-sm""#)
        .raw(r#" data-on:click="@post(&#39;/admin/upstreams/reload&#39;)">"#)
        .icon(ui, "check", 14)
        .raw("<span>")
        .msg(ui, "backends-apply-changes")
        .raw("</span></button></header>")
        .html(render_fallbacks_card(ui, fallbacks, all_models))
        .html(render_pool_form(ui, None, pools.len() as i64, backend_names))
        .html(if pools.len() > 0 {
            Html::new(r#"<div class="flex flex-col gap-4">"#)
                .html(render_pool_cards(ui, pools, backend_names))
                .raw("</div>")
        } else {
            Html::empty()
        })
        .raw("</section>")
}

// ---------------------------------------------------------------------------
// Laws

proof fn lemma_form_shows_the_pool()
    ensures
        starts_as(
            r#""><button type="submit" class="btn btn-ghost btn-sm text-error">"#@,
            r#"">"#@,
        ),
        starts_as(
            r#""></label><label class="form-control gap-1"><span class="text-xs opacity-70">"#@,
            r#"">"#@,
        ),
        starts_as(
            r#"" readonly="readonly" class="input input-bordered input-sm font-mono bg-base-200">"#@,
            r#"" readonly="readonly""#@,
        ),
        ends_in(
            r#"</span><input type="text" name="fallback_offline" value=""#@,
            r#"<input type="text" name="fallback_offline" value=""#@,
        ),
        starts_as(
            r#"" class="checkbox checkbox-sm">"#@,
            r#"" class="#@,
        ),
        starts_as(
            r#"" class="input input-bordered input-sm font-mono" placeholder=""#@,
            r#"" class="#@,
        ),
        starts_as(
            r#"" class="input input-bordered input-sm font-mono" placeholder="qwen-32b, glm-4.6"></label>"#@,
            r#"" class="#@,
        ),
        ends_in(
            r#"</span><input type="text" name="models" value=""#@,
            r#"<input type="text" name="models" value=""#@,
        ),
        starts_as(
            r#"</textarea></label><fieldset class="flex flex-col gap-1"><span class="text-xs opacity-70">"#@,
            "</textarea>"@,
        ),
        starts_as(
            r#"" data-on:submit__prevent="@post(&#39;"#@,
            r#"" data-on:submit__prevent="#@,
        ),
        starts_as(
            r#""><button type="submit" class="btn btn-ghost btn-sm text-error">"#@,
            r#""><button"#@,
        ),
{
    assert(starts_as(r#""><button type="submit" class="btn btn-ghost btn-sm text-error">"#@, r#"">"#@)) by {
        reveal(starts_as);
        reveal_strlit(r#""><button type="submit" class="btn btn-ghost btn-sm text-error">"#);
        reveal_strlit(r#"">"#);
        assert(r#""><button type="submit" class="btn btn-ghost btn-sm text-error">"#@.take(2) =~= r#"">"#@);
    }
    assert(starts_as(r#""></label><label class="form-control gap-1"><span class="text-xs opacity-70">"#@, r#"">"#@)) by {
        reveal(starts_as);
        reveal_strlit(r#""></label><label class="form-control gap-1"><span class="text-xs opacity-70">"#);
        reveal_strlit(r#"">"#);
        assert(r#""></label><label class="form-control gap-1"><span class="text-xs opacity-70">"#@.take(2) =~= r#"">"#@);
    }
    assert(starts_as(r#"" readonly="readonly" class="input input-bordered input-sm font-mono bg-base-200">"#@, r#"" readonly="readonly""#@)) by {
        reveal(starts_as);
        reveal_strlit(r#"" readonly="readonly" class="input input-bordered input-sm font-mono bg-base-200">"#);
        reveal_strlit(r#"" readonly="readonly""#);
        assert(r#"" readonly="readonly" class="input input-bordered input-sm font-mono bg-base-200">"#@.take(21) =~= r#"" readonly="readonly""#@);
    }
    assert(ends_in(r#"</span><input type="text" name="fallback_offline" value=""#@, r#"<input type="text" name="fallback_offline" value=""#@)) by {
        reveal(ends_in);
        reveal_strlit(r#"</span><input type="text" name="fallback_offline" value=""#);
        reveal_strlit(r#"<input type="text" name="fallback_offline" value=""#);
        assert(r#"</span><input type="text" name="fallback_offline" value=""#@.skip(7) =~= r#"<input type="text" name="fallback_offline" value=""#@);
    }
    assert(starts_as(r#"" class="checkbox checkbox-sm">"#@, r#"" class="#@)) by {
        reveal(starts_as);
        reveal_strlit(r#"" class="checkbox checkbox-sm">"#);
        reveal_strlit(r#"" class="#);
        assert(r#"" class="checkbox checkbox-sm">"#@.take(8) =~= r#"" class="#@);
    }
    assert(starts_as(r#"" class="input input-bordered input-sm font-mono" placeholder=""#@, r#"" class="#@)) by {
        reveal(starts_as);
        reveal_strlit(r#"" class="input input-bordered input-sm font-mono" placeholder=""#);
        reveal_strlit(r#"" class="#);
        assert(r#"" class="input input-bordered input-sm font-mono" placeholder=""#@.take(8) =~= r#"" class="#@);
    }
    assert(starts_as(r#"" class="input input-bordered input-sm font-mono" placeholder="qwen-32b, glm-4.6"></label>"#@, r#"" class="#@)) by {
        reveal(starts_as);
        reveal_strlit(r#"" class="input input-bordered input-sm font-mono" placeholder="qwen-32b, glm-4.6"></label>"#);
        reveal_strlit(r#"" class="#);
        assert(r#"" class="input input-bordered input-sm font-mono" placeholder="qwen-32b, glm-4.6"></label>"#@.take(8) =~= r#"" class="#@);
    }
    assert(ends_in(r#"</span><input type="text" name="models" value=""#@, r#"<input type="text" name="models" value=""#@)) by {
        reveal(ends_in);
        reveal_strlit(r#"</span><input type="text" name="models" value=""#);
        reveal_strlit(r#"<input type="text" name="models" value=""#);
        assert(r#"</span><input type="text" name="models" value=""#@.skip(7) =~= r#"<input type="text" name="models" value=""#@);
    }
    assert(starts_as(r#"</textarea></label><fieldset class="flex flex-col gap-1"><span class="text-xs opacity-70">"#@, "</textarea>"@)) by {
        reveal(starts_as);
        reveal_strlit(r#"</textarea></label><fieldset class="flex flex-col gap-1"><span class="text-xs opacity-70">"#);
        reveal_strlit("</textarea>");
        assert(r#"</textarea></label><fieldset class="flex flex-col gap-1"><span class="text-xs opacity-70">"#@.take(11) =~= "</textarea>"@);
    }
    assert(starts_as(r#"" data-on:submit__prevent="@post(&#39;"#@, r#"" data-on:submit__prevent="#@)) by {
        reveal(starts_as);
        reveal_strlit(r#"" data-on:submit__prevent="@post(&#39;"#);
        reveal_strlit(r#"" data-on:submit__prevent="#);
        assert(r#"" data-on:submit__prevent="@post(&#39;"#@.take(26) =~= r#"" data-on:submit__prevent="#@);
    }
    assert(starts_as(r#""><button type="submit" class="btn btn-ghost btn-sm text-error">"#@, r#""><button"#@)) by {
        reveal(starts_as);
        reveal_strlit(r#""><button type="submit" class="btn btn-ghost btn-sm text-error">"#);
        reveal_strlit(r#""><button"#);
        assert(r#""><button type="submit" class="btn btn-ghost btn-sm text-error">"#@.take(9) =~= r#""><button"#@);
    }
}

/// The form of a pool shows each of its texts in the field that it is read from, and ticks
/// what the pool is.
#[verifier::rlimit(40)]
pub proof fn form_shows_the_pool(ui: &Ui, p: &PoolRow, order: i64, names: Seq<String>)
    ensures
        ({
            let page = pool_form(ui, Some(p), order, names);
            &&& shows(page, r#"<input type="hidden" name="sort_order" value=""#@ + signed_decimal(order as int) + r#"">"#@)
            &&& shows(page, r#"<input type="text" name="name" value=""#@ + escaped(p.name@) + r#"" readonly="readonly""#@)
            &&& shows(page, r#"<input type="text" name="fallback_offline" value=""#@ + escaped(text_or_empty(opt_text(p.fallback_offline))) + r#"" class="#@)
            &&& shows(page, r#"<input type="text" name="models" value=""#@ + escaped(joined(texts(p.models@), ", "@)) + r#"" class="#@)
            &&& shows(page, escaped(voice_text(voice_views(p.voices@))) + "</textarea>"@)
            &&& p.compliance_gdpr ==> shows(page, r#"<input type="checkbox" name=""#@ + escaped("compliance_gdpr"@) + r#"" value=""#@ + escaped("on"@) + r#"" checked="checked" class="checkbox checkbox-sm">"#@)
            &&& !p.compliance_gdpr ==> shows(page, r#"<input type="checkbox" name=""#@ + escaped("compliance_gdpr"@) + r#"" value=""#@ + escaped("on"@) + r#"" class="checkbox checkbox-sm">"#@)
            &&& p.compliance_nda ==> shows(page, r#"<input type="checkbox" name=""#@ + escaped("compliance_nda"@) + r#"" value=""#@ + escaped("on"@) + r#"" checked="checked" class="checkbox checkbox-sm">"#@)
            &&& !p.compliance_nda ==> shows(page, r#"<input type="checkbox" name=""#@ + escaped("compliance_nda"@) + r#"" value=""#@ + escaped("on"@) + r#"" class="checkbox checkbox-sm">"#@)
            &&& p.enforce_limits ==> shows(page, r#"<input type="checkbox" name=""#@ + escaped("enforce_limits"@) + r#"" value=""#@ + escaped("on"@) + r#"" checked="checked" class="checkbox checkbox-sm">"#@)
            &&& !p.enforce_limits ==> shows(page, r#"<input type="checkbox" name=""#@ + escaped("enforce_limits"@) + r#"" value=""#@ + escaped("on"@) + r#"" class="checkbox checkbox-sm">"#@)
            &&& shows(page, r#"<form method="post" action=""#@ + escaped("/admin/pools/delete"@) + r#"" data-on:submit__prevent="#@)
            &&& shows(page, r#"<input type="hidden" name="name" value=""#@ + escaped(p.name@) + r#""><button"#@)
        }),
{
    broadcast use group_shows;

    lemma_form_shows_the_pool();
    reveal(pool_form);
    reveal(checkbox);
}

/// The kind and the strategy of a pool are marked in its form, and the others are not.
#[verifier::rlimit(40)]
pub proof fn form_marks_the_kind(ui: &Ui, p: &PoolRow, order: i64, names: Seq<String>)
    ensures
        ({
            let page = pool_form(ui, Some(p), order, names);
            &&& shows(page, choice("chat"@, "chat"@, p.kind@ == "chat"@))
            &&& shows(page, choice("transcription"@, "transcription"@, p.kind@ == "transcription"@))
            &&& shows(page, choice("embedding"@, "embedding"@, p.kind@ == "embedding"@))
            &&& shows(page, choice("image"@, "image"@, p.kind@ == "image"@))
            &&& shows(page, choice("speech"@, "speech"@, p.kind@ == "speech"@))
            &&& shows(page, choice("least_inflight"@, "least_inflight"@, p.strategy@ == "least_inflight"@))
            &&& shows(page, choice("round_robin"@, "round_robin"@, p.strategy@ == "round_robin"@))
        }),
{
    broadcast use group_shows;

    reveal(pool_form);
}

/// Each kind of request has its own picker of a fallback, with its own model marked.
pub proof fn fallbacks_are_of_their_kinds(ui: &Ui, f: Fallbacks, models: Seq<String>)
    ensures
        ({
            let page = fallbacks_card(ui, f, models);
            &&& shows(page, fallback_picker(ui, "chat"@, opt_text(f.chat), models))
            &&& shows(page, fallback_picker(ui, "transcription"@, opt_text(f.transcription), models))
            &&& shows(page, fallback_picker(ui, "embedding"@, opt_text(f.embedding), models))
            &&& shows(page, fallback_picker(ui, "image"@, opt_text(f.image), models))
        }),
{
    broadcast use group_shows;

}

proof fn lemma_a_fallback_is_picked_for_its_kind()
    ensures
        starts_as(
            r#""><label class="form-control gap-1"><span class="text-xs opacity-70 font-mono">"#@,
            r#"">"#@,
        ),
{
    assert(starts_as(r#""><label class="form-control gap-1"><span class="text-xs opacity-70 font-mono">"#@, r#"">"#@)) by {
        reveal(starts_as);
        reveal_strlit(r#""><label class="form-control gap-1"><span class="text-xs opacity-70 font-mono">"#);
        reveal_strlit(r#"">"#);
        assert(r#""><label class="form-control gap-1"><span class="text-xs opacity-70 font-mono">"#@.take(2) =~= r#"">"#@);
    }
}

/// The picker of a fallback sends its own kind and offers none and every model.
pub proof fn a_fallback_is_picked_for_its_kind(ui: &Ui, kind: Seq<char>, current: Option<Seq<char>>, models: Seq<String>)
    ensures
        ({
            let page = fallback_picker(ui, kind, current, models);
            &&& shows(page, r#"<input type="hidden" name="kind" value=""#@ + escaped(kind) + r#"">"#@)
            &&& shows(page, choice(""@, ui.message("admin-cap-no-fallback"@), false))
            &&& shows(page, choices(models, current))
        }),
{
    broadcast use group_shows;

    lemma_a_fallback_is_picked_for_its_kind();
    reveal(fallback_picker);
}

/// Every server has a box in the form of a pool, ticked if and only if the pool uses it.
pub proof fn every_backend_can_be_ticked(
    ui: &Ui,
    p: &PoolRow,
    order: i64,
    names: Seq<String>,
    i: int,
)
    requires
        0 <= i < names.len(),
    ensures
        shows(
            pool_form(ui, Some(p), order, names),
            checkbox("backends"@, names[i]@, names[i]@, listed(p.backends@, names[i]@), true),
        ),
{
    broadcast use group_shows;

    lemma_backend_box(names, p.backends@, i);
    reveal(pool_form);
}

proof fn lemma_backend_box(names: Seq<String>, assigned: Seq<String>, i: int)
    requires
        0 <= i < names.len(),
    ensures
        shows(
            backend_boxes(names, assigned),
            checkbox("backends"@, names[i]@, names[i]@, listed(assigned, names[i]@), true),
        ),
    decreases names.len(),
{
    broadcast use group_shows;

    if i < names.len() - 1 {
        lemma_backend_box(names.drop_last(), assigned, i);
    }
}

/// Every pool has its form on the page.
pub proof fn every_pool_is_listed(
    ui: &Ui,
    pools: Seq<PoolRow>,
    names: Seq<String>,
    fallbacks: Fallbacks,
    models: Seq<String>,
    i: int,
)
    requires
        0 <= i < pools.len(),
    ensures
        shows(
            pools_page(ui, pools, names, fallbacks, models),
            pool_form(ui, Some(&pools[i]), pools[i].sort_order, names),
        ),
        shows(
            pools_page(ui, pools, names, fallbacks, models),
            fallbacks_card(ui, fallbacks, models),
        ),
{
    broadcast use group_shows;

    lemma_pool_is_listed(ui, pools, names, i);
}

proof fn lemma_pool_is_listed(ui: &Ui, pools: Seq<PoolRow>, names: Seq<String>, i: int)
    requires
        0 <= i < pools.len(),
    ensures
        shows(
            pool_cards(ui, pools, names),
            pool_form(ui, Some(&pools[i]), pools[i].sort_order, names),
        ),
    decreases pools.len(),
{
    broadcast use group_shows;

    if i < pools.len() - 1 {
        lemma_pool_is_listed(ui, pools.drop_last(), names, i);
    }
}

/// A pool is stored as its form says: every field is read under its own name. A pool
/// without a name or of an unknown kind is refused, an unknown strategy is the least
/// busy server.
pub proof fn a_pool_is_stored_as_typed(
    pairs: &Vec<(String, String)>,
    r: Result<PoolRow, Notice>,
)
    requires
        call_ensures(read_pool, (pairs,), r),
    ensures
        ({
            let sent = |key: Seq<char>| trimmed(field_of(pairs@, key));
            let kind = sent("kind"@);
            let kind_ok = kind == "chat"@ || kind == "transcription"@ || kind == "embedding"@
                || kind == "image"@ || kind == "speech"@;
            &&& r is Ok <==> sent("name"@).len() > 0 && kind_ok
            &&& sent("name"@).len() == 0 ==> r is Err && r->Err_0@ == said(
                false,
                "pools-error-name-required"@,
            )
            &&& sent("name"@).len() > 0 && !kind_ok ==> r is Err && r->Err_0@ == said(
                false,
                "pools-error-invalid-kind"@,
            ).with("kind"@, kind)
            &&& r matches Ok(p) ==> {
                &&& p.name@ == sent("name"@)
                &&& p.kind@ == kind
                &&& sent("strategy"@) == "round_robin"@ ==> p.strategy@ == "round_robin"@
                &&& sent("strategy"@) != "round_robin"@ ==> p.strategy@ == "least_inflight"@
                &&& sent("fallback_offline"@).len() > 0 ==> opt_text(p.fallback_offline) == Some(
                    sent("fallback_offline"@),
                )
                &&& sent("fallback_offline"@).len() == 0 ==> p.fallback_offline is None
                &&& p.compliance_gdpr <==> is_checked(field_of(pairs@, "compliance_gdpr"@))
                &&& p.compliance_nda <==> is_checked(field_of(pairs@, "compliance_nda"@))
                &&& p.enforce_limits <==> is_checked(field_of(pairs@, "enforce_limits"@))
                &&& p.sort_order == order_of(field_of(pairs@, "sort_order"@))
                &&& texts(p.backends@) == values_of(pairs@, "backends"@)
                &&& texts(p.models@) == crate::text::items_of(field_of(pairs@, "models"@), ","@)
                &&& voice_views(p.voices@) == voices_of(entries_of(field_of(pairs@, "voices"@)))
            }
        }),
{
}

/// The place of a pool is the number that its form shows; what is no number is zero.
pub proof fn a_place_reads_back(n: i64, typed: Seq<char>)
    ensures
        order_of(signed_decimal(n as int)) == n,
        signed_value(trimmed(typed)) is None ==> order_of(typed) == 0,
{
    crate::num::signed_decimal_reads_back(n as int);
    let t = signed_decimal(n as int);
    if n < 0 {
        let d = crate::num::decimal((-n) as nat);
        crate::num::decimal_reads_back((-n) as nat);
        assert(t[0] == '-');
        assert(crate::num::is_digit(d[d.len() - 1]));
        assert(t[t.len() - 1] == d[d.len() - 1]);
    } else {
        crate::num::decimal_reads_back(n as nat);
        assert(crate::num::is_digit(t[0]));
        assert(crate::num::is_digit(t[t.len() - 1]));
    }
    assert(trimmed(t) == t);
}

/// A voice is written as its language and its name with `=` between, and as its name
/// alone where it has no language; both read as that voice.
pub proof fn a_voice_has_its_language(lang: Seq<char>, voice: Seq<char>)
    requires
        lang.len() > 0,
    ensures
        crate::lines::line_of(voice_entry(VoiceView { lang_code: lang, voice_id: voice })) == lang
            + "="@ + voice,
        crate::lines::line_of(
            voice_entry(VoiceView { lang_code: Seq::empty(), voice_id: voice }),
        ) == voice,
        voice_of(LineView { name: lang, value: Some(voice) }) == (VoiceView {
            lang_code: lang,
            voice_id: voice,
        }),
        voice_of(LineView { name: voice, value: None }) == (VoiceView {
            lang_code: Seq::empty(),
            voice_id: voice,
        }),
{
}

/// A fallback is stored for the kind that was named, and cleared by a blank; speech has
/// none. What was done is told with the kind and the model.
pub proof fn a_fallback_is_stored_as_asked(
    pairs: &Vec<(String, String)>,
    r: Result<FallbackChange, Notice>,
    change: &FallbackChange,
    error: Option<&str>,
    told: Notice,
)
    requires
        call_ensures(read_fallback, (pairs,), r),
        call_ensures(fallback_saved, (change, error), told),
    ensures
        ({
            let kind = trimmed(field_of(pairs@, "kind"@));
            let model = trimmed(field_of(pairs@, "model"@));
            &&& r is Ok <==> kind == "chat"@ || kind == "transcription"@ || kind == "embedding"@
                || kind == "image"@
            &&& r matches Ok(c) ==> c.kind@ == kind && (model.len() > 0 ==> opt_text(c.model)
                == Some(model)) && (model.len() == 0 ==> c.model is None)
            &&& r matches Err(n) ==> n@ == said(false, "pools-error-invalid-kind"@).with(
                "kind"@,
                kind,
            )
        }),
        error matches Some(e) ==> told@ == said(false, "admin-db-error"@).with("err"@, e@),
        error is None && change.model is Some ==> told@ == said(
            true,
            "pools-fallback-saved"@,
        ).with("kind"@, change.kind@).with("model"@, change.model->0@),
        error is None && change.model is None ==> told@ == said(
            true,
            "pools-fallback-cleared"@,
        ).with("kind"@, change.kind@),
{
}

/// A saved and a deleted pool are told by their name, what went wrong by the error.
pub proof fn a_pool_change_is_told(
    error: Option<&str>,
    name: &str,
    saved: Notice,
    deleted: Notice,
)
    requires
        call_ensures(pool_saved, (error, name), saved),
        call_ensures(pool_deleted, (error, name), deleted),
    ensures
        error is None ==> saved@ == said(true, "pools-saved"@).with("name"@, name@) && deleted@
            == said(true, "pools-deleted"@).with("name"@, name@),
        error matches Some(e) ==> saved@ == said(false, "admin-db-upsert-error"@).with("err"@, e@)
            && deleted@ == said(false, "admin-db-error"@).with("err"@, e@),
{
}

/// A field that is blank is left out; another is read without the blanks around it.
pub proof fn a_blank_field_is_left_out(s: &str, r: Option<String>)
    requires
        call_ensures(read_filled_in, (s,), r),
    ensures
        trimmed(s@).len() == 0 <==> r is None,
        r matches Some(t) ==> t@ == trimmed(s@),
{
}

/// A change is told with the name of what was changed, a failed one with what went wrong.
pub proof fn a_change_is_told_either_way(
    error: Option<&str>,
    key: &str,
    error_key: &str,
    name: &str,
    r: Notice,
)
    requires
        call_ensures(stored, (error, key, error_key, name), r),
    ensures
        error is None ==> r@ == said(true, key@).with("name"@, name@),
        error matches Some(e) ==> r@ == said(false, error_key@).with("err"@, e@),
{
}

} // verus!
