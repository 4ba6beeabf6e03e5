//! Scheduled actions: prompts that run on a cron schedule.
//!
//! The page builds schedules from a few friendly shapes. [`assemble_cron`]
//! turns the builder's fields into a cron expression, [`BuilderInit::from_cron`]
//! turns an expression back into the builder's fields, and
//! [`builder_reads_back`] says that the second undoes the first.
use crate::compliance::{
    any_gdpr, any_nda, gdpr_flagged, nda_flagged, signals, signals_text, ChatModelOption,
};
use crate::html::{escaped, Html, Ui};
use crate::json::{json_text, write_text};
use crate::moment::{Moment, FIRST_SECOND, LAST_SECOND};
use crate::notice::{said, Notice, NoticeView};
use crate::num::{
    decimal, decimal_reads_back, is_digit, parse_i64, parse_up_to, show_u64, signed_decimal,
    signed_value, unsigned_value, within,
};
use crate::text::{
    ascii_lower, byte_len, clip, clipped, chars, free_of, in_class, join, joined, opt_text, same,
    split, occurs_at, split_parts, split_undoes_join, split_words, string_or_empty, text_or_empty, texts, trim,
    trimmed, utf8_len, words_of, words_undo_join,
};
use crate::updates::{
    only_toast, pair, patch, single, toast, views, FlashKind, StoreOutcome, Update, UpdateView,
};
use crate::markup::{ends_in, group_shows, shows, starts_as};
use vstd::prelude::*;

verus! {

// ---------------------------------------------------------------------------
// The builder's fields

/// The fields of the schedule builder. The weekdays are seven checkboxes,
/// numbered as in cron (Sunday is 0).
pub struct ScheduleFields {
    pub mode: String,
    pub minute: Option<String>,
    pub hour: Option<String>,
    pub dom: Option<String>,
    pub advanced: Option<String>,
    pub wd0: Option<String>,
    pub wd1: Option<String>,
    pub wd2: Option<String>,
    pub wd3: Option<String>,
    pub wd4: Option<String>,
    pub wd5: Option<String>,
    pub wd6: Option<String>,
}

impl ScheduleFields {
    /// Whether a weekday is ticked.
    pub open spec fn ticked(&self, day: u8) -> bool {
        if day == 0 {
            self.wd0 is Some
        } else if day == 1 {
            self.wd1 is Some
        } else if day == 2 {
            self.wd2 is Some
        } else if day == 3 {
            self.wd3 is Some
        } else if day == 4 {
            self.wd4 is Some
        } else if day == 5 {
            self.wd5 is Some
        } else {
            day == 6 && self.wd6 is Some
        }
    }

    /// The ticked weekdays below `n`, ascending.
    pub open spec fn ticked_below(&self, n: nat) -> Seq<u8>
        decreases n,
    {
        if n == 0 {
            Seq::empty()
        } else {
            let head = self.ticked_below((n - 1) as nat);
            if self.ticked((n - 1) as u8) {
                head.push((n - 1) as u8)
            } else {
                head
            }
        }
    }

    /// The ticked weekdays, ascending.
    pub open spec fn days(&self) -> Seq<u8> {
        self.ticked_below(7)
    }

    fn is_ticked(&self, day: u8) -> (r: bool)
        ensures
            r == self.ticked(day),
    {
        match day {
            0 => self.wd0.is_some(),
            1 => self.wd1.is_some(),
            2 => self.wd2.is_some(),
            3 => self.wd3.is_some(),
            4 => self.wd4.is_some(),
            5 => self.wd5.is_some(),
            6 => self.wd6.is_some(),
            _ => false,
        }
    }

    /// The ticked weekdays, ascending.
    pub fn weekdays(&self) -> (r: Vec<u8>)
        ensures
            r@ == self.days(),
    {
        let mut out: Vec<u8> = Vec::new();
        for d in 0..7u8
            invariant
                out@ == self.ticked_below(d as nat),
        {
            if self.is_ticked(d) {
                out.push(d);
            }
        }
        out
    }
}

/// A number field of the builder: blank, not a number and out of range are told
/// apart.
pub open spec fn ranged(
    ui: &Ui,
    v: Option<Seq<char>>,
    min: u8,
    max: u8,
    field_key: Seq<char>,
) -> Result<int, NoticeView> {
    let t = trimmed(text_or_empty(v));
    let field = ui.message(field_key);
    if t.len() == 0 {
        Err(said(false, "scheduled-err-enter-field"@).with("field"@, field))
    } else {
        match within(unsigned_value(t), 0, 255) {
            None => Err(
                said(false, "scheduled-err-invalid-field"@).with("field"@, field).with(
                    "value"@,
                    t,
                ),
            ),
            Some(n) => if min <= n <= max {
                Ok(n)
            } else {
                Err(
                    said(false, "scheduled-err-field-range"@).with("field"@, field).with(
                        "min"@,
                        decimal(min as nat),
                    ).with("max"@, decimal(max as nat)),
                )
            },
        }
    }
}

/// Reads a number field of the builder.
pub fn parse_in_range(ui: &Ui, v: &Option<String>, min: u8, max: u8, field_key: &str) -> (r: Result<
    u8,
    Notice,
>)
    ensures
        match r {
            Ok(n) => ranged(ui, opt_text(*v), min, max, field_key@) == Ok::<int, NoticeView>(
                n as int,
            ),
            Err(n) => ranged(ui, opt_text(*v), min, max, field_key@) == Err::<int, NoticeView>(n@),
        },
{
    let t = trim(&string_or_empty(v));
    let field = ui.t(field_key);
    if t.as_str().is_empty() {
        return Err(Notice::plain(false, "scheduled-err-enter-field").and("field", &field));
    }
    match parse_up_to(&t, 255) {
        None => Err(
            Notice::plain(false, "scheduled-err-invalid-field").and("field", &field).and(
                "value",
                &t,
            ),
        ),
        Some(n) => {
            if n < min as u64 || n > max as u64 {
                Err(
                    Notice::plain(false, "scheduled-err-field-range").and("field", &field).and(
                        "min",
                        &show_u64(min as u64),
                    ).and("max", &show_u64(max as u64)),
                )
            } else {
                Ok(n as u8)
            }
        },
    }
}

/// The texts of numbers.
pub open spec fn day_texts(days: Seq<u8>) -> Seq<Seq<char>> {
    days.map_values(|d: u8| decimal(d as nat))
}

/// A cron expression: five fields, one space between.
pub open spec fn cron_line(
    minute: Seq<char>,
    hour: Seq<char>,
    dom: Seq<char>,
    dow: Seq<char>,
) -> Seq<char> {
    joined(seq![minute, hour, dom, "*"@, dow], seq![' '])
}

/// The cron expression that the builder describes, or what is wrong with it. An
/// advanced expression is taken as typed, whatever the other fields hold; the
/// friendly modes are valid by construction.
pub open spec fn assembled(ui: &Ui, f: ScheduleFields) -> Result<Seq<char>, NoticeView> {
    if f.mode@ == "advanced"@ {
        let raw = trimmed(text_or_empty(opt_text(f.advanced)));
        if raw.len() == 0 {
            Err(said(false, "scheduled-err-enter-cron"@))
        } else {
            Ok(raw)
        }
    } else {
        match ranged(ui, opt_text(f.minute), 0, 59, "scheduled-field-minute"@) {
            Err(n) => Err(n),
            Ok(minute) => match ranged(ui, opt_text(f.hour), 0, 23, "scheduled-field-hour"@) {
                Err(n) => Err(n),
                Ok(hour) => friendly(ui, f, decimal(minute as nat), decimal(hour as nat)),
            },
        }
    }
}

/// The cron expression of a friendly mode at a minute and an hour.
pub open spec fn friendly(ui: &Ui, f: ScheduleFields, m: Seq<char>, h: Seq<char>) -> Result<
    Seq<char>,
    NoticeView,
> {
    let star = "*"@;
    if f.mode@ == "hourly"@ {
        Ok(cron_line(m, star, star, star))
    } else if f.mode@ == "daily"@ {
        Ok(cron_line(m, h, star, star))
    } else if f.mode@ == "weekly"@ {
        if f.days().len() == 0 {
            Err(said(false, "scheduled-err-pick-weekday"@))
        } else {
            Ok(cron_line(m, h, star, joined(day_texts(f.days()), seq![','])))
        }
    } else if f.mode@ == "monthly"@ {
        match ranged(ui, opt_text(f.dom), 1, 31, "scheduled-field-day-of-month"@) {
            Err(n) => Err(n),
            Ok(dom) => Ok(cron_line(m, h, decimal(dom as nat), star)),
        }
    } else {
        Err(said(false, "scheduled-err-unknown-schedule-type"@).with("kind"@, f.mode@))
    }
}

fn show_days(days: &Vec<u8>) -> (r: Vec<String>)
    ensures
        texts(r@) == day_texts(days@),
{
    let mut out: Vec<String> = Vec::new();
    for i in 0..days.len()
        invariant
            texts(out@) == day_texts(days@.take(i as int)),
    {
        let ghost before = texts(out@);
        out.push(show_u64(days[i] as u64));
        assert(texts(out@) =~= before.push(decimal(days@[i as int] as nat)));
        assert(day_texts(days@.take(i + 1)) =~= day_texts(days@.take(i as int)).push(
            decimal(days@[i as int] as nat),
        ));
    }
    assert(days@.take(days@.len() as int) =~= days@);
    out
}

fn make_line(minute: &str, hour: &str, dom: &str, dow: &str) -> (r: String)
    ensures
        r@ == cron_line(minute@, hour@, dom@, dow@),
{
    let mut parts: Vec<String> = Vec::new();
    parts.push(minute.to_owned());
    parts.push(hour.to_owned());
    parts.push(dom.to_owned());
    parts.push("*".to_owned());
    parts.push(dow.to_owned());
    proof {
        reveal_strlit(" ");
        assert(" "@ =~= seq![' ']);
        assert(texts(parts@) =~= seq![minute@, hour@, dom@, "*"@, dow@]);
    }
    join(&parts, " ")
}

impl ScheduleFields {
    /// Assembles the cron expression that the builder describes.
    pub fn assemble_cron(&self, ui: &Ui) -> (r: Result<String, Notice>)
        ensures
            match r {
                Ok(s) => assembled(ui, *self) == Ok::<Seq<char>, NoticeView>(s@),
                Err(n) => assembled(ui, *self) == Err::<Seq<char>, NoticeView>(n@),
            },
    {
        if same(&self.mode, "advanced") {
            let raw = trim(&string_or_empty(&self.advanced));
            if raw.as_str().is_empty() {
                return Err(Notice::plain(false, "scheduled-err-enter-cron"));
            }
            return Ok(raw);
        }
        let minute = match parse_in_range(ui, &self.minute, 0, 59, "scheduled-field-minute") {
            Ok(n) => n,
            Err(n) => return Err(n),
        };
        let hour = match parse_in_range(ui, &self.hour, 0, 23, "scheduled-field-hour") {
            Ok(n) => n,
            Err(n) => return Err(n),
        };
        let m = show_u64(minute as u64);
        let h = show_u64(hour as u64);
        if same(&self.mode, "hourly") {
            Ok(make_line(&m, "*", "*", "*"))
        } else if same(&self.mode, "daily") {
            Ok(make_line(&m, &h, "*", "*"))
        } else if same(&self.mode, "weekly") {
            let days = self.weekdays();
            if days.len() == 0 {
                return Err(Notice::plain(false, "scheduled-err-pick-weekday"));
            }
            proof {
                reveal_strlit(",");
                assert(","@ =~= seq![',']);
            }
            let list = join(&show_days(&days), ",");
            Ok(make_line(&m, &h, "*", &list))
        } else if same(&self.mode, "monthly") {
            match parse_in_range(ui, &self.dom, 1, 31, "scheduled-field-day-of-month") {
                Ok(dom) => Ok(make_line(&m, &h, &show_u64(dom as u64), "*")),
                Err(n) => Err(n),
            }
        } else {
            Err(
                Notice::plain(false, "scheduled-err-unknown-schedule-type").and(
                    "kind",
                    &self.mode,
                ),
            )
        }
    }
}

// ---------------------------------------------------------------------------
// The other fields of the form

/// How many earlier rounds are replayed when nothing valid was submitted.
pub const DEFAULT_REUSE_ROUNDS: i64 = 5;

/// The number of earlier rounds to replay, between 1 and 50.
pub open spec fn reuse_rounds(raw: Option<Seq<char>>) -> int {
    match raw {
        Some(s) => match within(signed_value(trimmed(s)), i64::MIN as int, i64::MAX as int) {
            Some(n) => if n < 1 {
                1
            } else if n > 50 {
                50
            } else {
                n
            },
            None => DEFAULT_REUSE_ROUNDS as int,
        },
        None => DEFAULT_REUSE_ROUNDS as int,
    }
}

/// The number of earlier rounds to replay: what was submitted, held between 1
/// and 50, or the default.
pub fn reuse_rounds_or_default(raw: &Option<String>) -> (r: i64)
    ensures
        r == reuse_rounds(opt_text(*raw)),
        1 <= r <= 50,
{
    match raw {
        Some(s) => match parse_i64(&trim(s)) {
            Some(n) => if n < 1 {
                1
            } else if n > 50 {
                50
            } else {
                n
            },
            None => DEFAULT_REUSE_ROUNDS,
        },
        None => DEFAULT_REUSE_ROUNDS,
    }
}

/// `jiff::tz::TimeZone::get`: whether the time-zone database of the machine
/// knows a name. Nothing is claimed of the answer: it rests on that database,
/// and a machine without one knows no name at all.
#[verifier::external_body]
fn zone_known(name: &str) -> bool {
    jiff::tz::TimeZone::get(name).is_ok()
}

/// The form without its schedule.
pub struct ActionForm {
    pub name: String,
    pub prompt: String,
    pub model: String,
    pub timezone: String,
}

/// A checked form: everything but the next run.
pub struct Prepared {
    pub name: String,
    pub prompt: String,
    pub model: String,
    pub timezone: String,
    pub cron: String,
}

/// A checked form over texts.
pub ghost struct PreparedView {
    pub name: Seq<char>,
    pub prompt: Seq<char>,
    pub model: Seq<char>,
    pub timezone: Seq<char>,
    pub cron: Seq<char>,
}

impl View for Prepared {
    type V = PreparedView;

    open spec fn view(&self) -> PreparedView {
        PreparedView {
            name: self.name@,
            prompt: self.prompt@,
            model: self.model@,
            timezone: self.timezone@,
            cron: self.cron@,
        }
    }
}

/// Whether a text has between one and `max` bytes.
pub open spec fn length_ok(s: Seq<char>, max: nat) -> bool {
    s.len() > 0 && utf8_len(s) <= max
}

fn check_length(s: &str, max: usize) -> (r: bool)
    ensures
        r == length_ok(s@, max as nat),
{
    !s.is_empty() && byte_len(s) <= max
}

/// The form as it is stored, or the first thing that is wrong with it: name,
/// prompt, model, time zone, schedule, in this order. `known` says whether the
/// time zone exists.
pub open spec fn prepared(
    ui: &Ui,
    form: ActionForm,
    schedule: ScheduleFields,
    known: bool,
) -> Result<PreparedView, NoticeView> {
    let name = trimmed(form.name@);
    let prompt = trimmed(form.prompt@);
    let model = trimmed(form.model@);
    let timezone = trimmed(form.timezone@);
    if !length_ok(name, 128) {
        Err(said(false, "scheduled-err-name-length"@))
    } else if !length_ok(prompt, 8000) {
        Err(said(false, "scheduled-err-prompt-length"@))
    } else if model.len() == 0 {
        Err(said(false, "scheduled-err-pick-model"@))
    } else if !known {
        Err(said(false, "scheduled-err-unknown-timezone"@).with("tz"@, timezone))
    } else {
        match assembled(ui, schedule) {
            Ok(cron) => Ok(PreparedView { name, prompt, model, timezone, cron }),
            Err(n) => Err(n),
        }
    }
}

/// Checks the form, given whether its time zone exists.
pub fn prepare_in_zone(
    ui: &Ui,
    form: &ActionForm,
    schedule: &ScheduleFields,
    known: bool,
) -> (r: Result<Prepared, Notice>)
    ensures
        match r {
            Ok(p) => prepared(ui, *form, *schedule, known) == Ok::<PreparedView, NoticeView>(p@),
            Err(n) => prepared(ui, *form, *schedule, known) == Err::<PreparedView, NoticeView>(n@),
        },
{
    let name = trim(&form.name);
    if !check_length(&name, 128) {
        return Err(Notice::plain(false, "scheduled-err-name-length"));
    }
    let prompt = trim(&form.prompt);
    if !check_length(&prompt, 8000) {
        return Err(Notice::plain(false, "scheduled-err-prompt-length"));
    }
    let model = trim(&form.model);
    if model.as_str().is_empty() {
        return Err(Notice::plain(false, "scheduled-err-pick-model"));
    }
    let timezone = trim(&form.timezone);
    if !known {
        return Err(Notice::plain(false, "scheduled-err-unknown-timezone").and("tz", &timezone));
    }
    match schedule.assemble_cron(ui) {
        Ok(cron) => Ok(Prepared { name, prompt, model, timezone, cron }),
        Err(n) => Err(n),
    }
}

/// Checks the form of a new or edited action. Whether its time zone is known is
/// up to the machine's database.
pub fn prepare(ui: &Ui, form: &ActionForm, schedule: &ScheduleFields) -> (r: Result<
    Prepared,
    Notice,
>)
    ensures
        exists|known: bool|
            #![trigger prepared(ui, *form, *schedule, known)]
            match r {
                Ok(p) => prepared(ui, *form, *schedule, known) == Ok::<PreparedView, NoticeView>(
                    p@,
                ),
                Err(n) => prepared(ui, *form, *schedule, known) == Err::<PreparedView, NoticeView>(
                    n@,
                ),
            },
{
    let known = zone_known(&trim(&form.timezone));
    prepare_in_zone(ui, form, schedule, known)
}

/// When an edited action runs next: a paused one stays without a next run.
/// `stored` is whether the stored action is enabled, absent when it cannot be
/// read.
pub fn next_after_edit(stored: Option<bool>, next: Option<Moment>) -> (r: Option<Moment>)
    ensures
        r == (if stored == Some(false) {
            None
        } else {
            next
        }),
{
    match stored {
        Some(enabled) => if enabled {
            next
        } else {
            None
        },
        None => next,
    }
}

/// What pausing or resuming does: the new state, and whether a next run has to
/// be worked out.
pub fn toggle(enabled: bool) -> (resume: bool)
    ensures
        resume == !enabled,
{
    !enabled
}

// ---------------------------------------------------------------------------
// From an expression back to the builder

/// What the builder shows.
pub struct BuilderInit {
    pub mode: String,
    pub minute: u8,
    pub hour: u8,
    pub dom: u8,
    pub weekdays: Vec<u8>,
    pub advanced: String,
    pub timezone: String,
    pub advanced_raw: String,
}

/// What the builder shows, over texts.
#[verifier::ext_equal]
pub ghost struct BuilderView {
    pub mode: Seq<char>,
    pub minute: int,
    pub hour: int,
    pub dom: int,
    pub weekdays: Seq<u8>,
    pub advanced: Seq<char>,
    pub timezone: Seq<char>,
    pub advanced_raw: Seq<char>,
}

impl View for BuilderInit {
    type V = BuilderView;

    open spec fn view(&self) -> BuilderView {
        BuilderView {
            mode: self.mode@,
            minute: self.minute as int,
            hour: self.hour as int,
            dom: self.dom as int,
            weekdays: self.weekdays@,
            advanced: self.advanced@,
            timezone: self.timezone@,
            advanced_raw: self.advanced_raw@,
        }
    }
}

/// The builder for a new action: every day at nine.
pub open spec fn builder_defaults(timezone: Seq<char>) -> BuilderView {
    BuilderView {
        mode: "daily"@,
        minute: 0,
        hour: 9,
        dom: 1,
        weekdays: seq![1u8],
        advanced: "0 9 * * *"@,
        timezone,
        advanced_raw: "0 9 * * *"@,
    }
}

/// A number of a field of the builder.
pub open spec fn number_in(s: Seq<char>, min: int, max: int) -> Option<int> {
    within(unsigned_value(s), min, max)
}

/// A weekday: 7 is Sunday too.
pub open spec fn weekday_of(s: Seq<char>) -> Option<int> {
    match number_in(s, 0, 7) {
        Some(n) => if n == 7 {
            Some(0)
        } else {
            Some(n)
        },
        None => None,
    }
}

/// Every part is a weekday.
pub open spec fn all_weekdays(parts: Seq<Seq<char>>) -> bool {
    forall|i: int|
        0 <= i < parts.len() ==> (weekday_of(#[trigger] parts[i]) matches Some(n) && n <= 6)
}

/// Some part is that weekday.
pub open spec fn names_day(parts: Seq<Seq<char>>, day: int) -> bool {
    exists|i: int| 0 <= i < parts.len() && weekday_of(#[trigger] parts[i]) == Some(day)
}

/// The weekdays below `n` that the parts name, ascending and each once.
pub open spec fn days_below(parts: Seq<Seq<char>>, n: nat) -> Seq<u8>
    decreases n,
{
    if n == 0 {
        Seq::empty()
    } else {
        let head = days_below(parts, (n - 1) as nat);
        if names_day(parts, n - 1) {
            head.push((n - 1) as u8)
        } else {
            head
        }
    }
}

/// The weekdays of a list, if all of its parts are weekdays.
pub open spec fn day_list(s: Seq<char>) -> Option<Seq<u8>> {
    let parts = split_parts(s, false, seq![',']);
    if all_weekdays(parts) {
        Some(days_below(parts, 7))
    } else {
        None
    }
}

/// The builder for an expression: the friendly shape that it has, or the
/// advanced mode with the expression as it is.
pub open spec fn decomposed(cron: Seq<char>, timezone: Seq<char>) -> BuilderView {
    let plain = BuilderView {
        mode: "advanced"@,
        advanced: cron,
        advanced_raw: cron,
        ..builder_defaults(timezone)
    };
    let f = words_of(cron);
    let star = "*"@;
    if f.len() != 5 || f[3] != star {
        plain
    } else {
        let minute = number_in(f[0], 0, 59);
        let hour = number_in(f[1], 0, 23);
        let dom = number_in(f[2], 1, 31);
        if f[1] == star && f[2] == star && f[4] == star && minute is Some {
            BuilderView { mode: "hourly"@, minute: minute->0, ..plain }
        } else if f[2] == star && f[4] == star && minute is Some && hour is Some {
            BuilderView { mode: "daily"@, minute: minute->0, hour: hour->0, ..plain }
        } else if f[2] == star && minute is Some && hour is Some {
            match day_list(f[4]) {
                Some(weekdays) => BuilderView {
                    mode: "weekly"@,
                    minute: minute->0,
                    hour: hour->0,
                    weekdays,
                    ..plain
                },
                None => plain,
            }
        } else if f[4] == star && minute is Some && hour is Some && dom is Some {
            BuilderView {
                mode: "monthly"@,
                minute: minute->0,
                hour: hour->0,
                dom: dom->0,
                ..plain
            }
        } else {
            plain
        }
    }
}

fn parse_number(s: &str, min: u8, max: u8) -> (r: Option<u8>)
    ensures
        match r {
            Some(n) => number_in(s@, min as int, max as int) == Some(n as int),
            None => number_in(s@, min as int, max as int) is None,
        },
{
    match parse_up_to(s, max as u64) {
        Some(n) => if n < min as u64 {
            None
        } else {
            Some(n as u8)
        },
        None => None,
    }
}

fn parse_days(s: &str) -> (r: Option<Vec<u8>>)
    ensures
        match r {
            Some(v) => day_list(s@) == Some(v@),
            None => day_list(s@) is None,
        },
{
    proof {
        reveal_strlit(",");
        assert(","@ =~= seq![',']);
    }
    let parts = split(s, false, ",");
    let ghost view = texts(parts@);
    let mut seen: Vec<u8> = Vec::new();
    for i in 0..parts.len()
        invariant
            view == texts(parts@),
            view == split_parts(s@, false, seq![',']),
            seen@.len() == i,
            forall|j: int|
                0 <= j < i ==> weekday_of(#[trigger] view[j]) == Some(seen@[j] as int) && seen@[j]
                    <= 6,
    {
        assert(view[i as int] == parts@[i as int]@);
        match parse_number(&parts[i], 0, 7) {
            Some(n) => {
                let d: u8 = if n == 7 {
                    0
                } else {
                    n
                };
                if d > 6 {
                    assert(!all_weekdays(view));
                    return None;
                }
                seen.push(d);
            },
            None => {
                assert(!all_weekdays(view));
                return None;
            },
        }
    }
    assert(all_weekdays(view));
    let mut out: Vec<u8> = Vec::new();
    for d in 0..7u8
        invariant
            view.len() == seen@.len(),
            forall|j: int|
                0 <= j < seen@.len() ==> weekday_of(#[trigger] view[j]) == Some(seen@[j] as int),
            out@ == days_below(view, d as nat),
    {
        let mut found = false;
        for k in 0..seen.len()
            invariant
                view.len() == seen@.len(),
                forall|j: int|
                    0 <= j < seen@.len() ==> weekday_of(#[trigger] view[j]) == Some(
                        seen@[j] as int,
                    ),
                found <==> exists|j: int| 0 <= j < k && #[trigger] seen@[j] == d,
        {
            if seen[k] == d {
                found = true;
            }
        }
        proof {
            if found {
                let j = choose|j: int| 0 <= j < seen@.len() && #[trigger] seen@[j] == d;
                assert(weekday_of(view[j]) == Some(d as int));
            } else if names_day(view, d as int) {
                let j = choose|j: int|
                    0 <= j < view.len() && weekday_of(#[trigger] view[j]) == Some(d as int);
                assert(seen@[j] == d);
            }
        }
        if found {
            out.push(d);
        }
    }
    Some(out)
}

impl BuilderInit {
    /// The builder for a new action.
    pub fn defaults(timezone: &str) -> (r: BuilderInit)
        ensures
            r@ == builder_defaults(timezone@),
    {
        let mut weekdays: Vec<u8> = Vec::new();
        weekdays.push(1u8);
        assert(weekdays@ =~= seq![1u8]);
        BuilderInit {
            mode: "daily".to_owned(),
            minute: 0,
            hour: 9,
            dom: 1,
            weekdays,
            advanced: "0 9 * * *".to_owned(),
            timezone: timezone.to_owned(),
            advanced_raw: "0 9 * * *".to_owned(),
        }
    }

    /// The builder for an expression.
    pub fn from_cron(cron: &str, timezone: &str) -> (r: BuilderInit)
        ensures
            r@ == decomposed(cron@, timezone@),
    {
        let mut init = BuilderInit::defaults(timezone);
        init.advanced = cron.to_owned();
        init.advanced_raw = cron.to_owned();
        init.mode = "advanced".to_owned();
        let f = split_words(cron);
        let ghost words = words_of(cron@);
        assert(texts(f@).len() == f@.len());
        if f.len() != 5 {
            return init;
        }
        proof {
            assert(words[0] == f@[0]@ && words[1] == f@[1]@ && words[2] == f@[2]@ && words[3]
                == f@[3]@ && words[4] == f@[4]@);
        }
        if !same(&f[3], "*") {
            return init;
        }
        let minute = parse_number(&f[0], 0, 59);
        let hour = parse_number(&f[1], 0, 23);
        let dom = parse_number(&f[2], 1, 31);
        let any_hour = same(&f[1], "*");
        let any_day = same(&f[2], "*");
        let any_weekday = same(&f[4], "*");
        if any_hour && any_day && any_weekday && minute.is_some() {
            if let Some(m) = minute {
                init.mode = "hourly".to_owned();
                init.minute = m;
            }
            return init;
        }
        match (minute, hour) {
            (Some(m), Some(h)) => {
                if any_day && any_weekday {
                    init.mode = "daily".to_owned();
                    init.minute = m;
                    init.hour = h;
                } else if any_day {
                    if let Some(days) = parse_days(&f[4]) {
                        init.mode = "weekly".to_owned();
                        init.minute = m;
                        init.hour = h;
                        init.weekdays = days;
                    }
                } else if any_weekday {
                    if let Some(d) = dom {
                        init.mode = "monthly".to_owned();
                        init.minute = m;
                        init.hour = h;
                        init.dom = d;
                    }
                }
            },
            _ => {},
        }
        init
    }
}

// ---------------------------------------------------------------------------
// The preview of a schedule

/// Whether a name means UTC, whatever its case.
pub open spec fn names_utc(name: Seq<char>) -> bool {
    name.map_values(|c: char| ascii_lower(c)) == "utc"@
}

/// The patterns of runs: with and without the weekday.
pub open spec fn run_pattern(pattern: Seq<char>) -> bool {
    pattern == "%a %b %-d, %H:%M"@ || pattern == "%b %-d, %H:%M"@
}

/// How many seconds a zone can be ahead of UTC, or behind it.
pub open spec fn is_offset(n: int) -> bool {
    -93599 <= n <= 93599
}

/// `jiff::tz::TimeZone::get` (UTC where it knows no zone of that name),
/// `TimeZone::to_offset` and `Offset::seconds`: how far the zone is ahead of UTC at
/// an instant, which is less than 26 hours either way, and nothing in UTC. Which
/// offset other zones have is not claimed: it rests on the time-zone database of
/// the machine.
#[verifier::external_body]
fn zone_offset(second: i64, zone: &str) -> (r: i32)
    requires
        FIRST_SECOND <= second <= LAST_SECOND,
    ensures
        is_offset(r as int),
        names_utc(zone@) ==> r == 0,
{
    let at = jiff::Timestamp::from_second(second).unwrap_or(jiff::Timestamp::UNIX_EPOCH);
    let tz = jiff::tz::TimeZone::get(zone).unwrap_or(jiff::tz::TimeZone::UTC);
    tz.to_offset(at).seconds()
}

/// The date and time that is so many seconds after the beginning of 1970, in the
/// form of a pattern.
pub uninterp spec fn clock_text(second: int, pattern: Seq<char>) -> Seq<char>;

/// `jiff::Timestamp::from_second`, `jiff::tz::Offset::to_datetime` and
/// `jiff::civil::DateTime::strftime`: what a clock shows that is so many seconds
/// ahead of UTC depends on the pattern and on the sum of the instant and those
/// seconds alone. Every offset leads from a timestamp to a date and a time, which
/// have every field of the two patterns.
#[verifier::external_body]
fn format_ahead(second: i64, offset: i32, pattern: &str) -> (r: String)
    requires
        FIRST_SECOND <= second <= LAST_SECOND,
        is_offset(offset as int),
        run_pattern(pattern@),
    ensures
        r@ == clock_text(second + offset, pattern@),
{
    let at = jiff::Timestamp::from_second(second).unwrap_or(jiff::Timestamp::UNIX_EPOCH);
    let ahead = jiff::tz::Offset::from_seconds(offset).unwrap_or(jiff::tz::Offset::UTC);
    ahead.to_datetime(at).strftime(pattern).to_string()
}

/// The time of an upcoming run so many seconds ahead of UTC, with weekday, month,
/// day and time.
pub fn run_line(run: Moment, offset: i32) -> (r: String)
    requires
        is_offset(offset as int),
    ensures
        r@ == clock_text(run.at() + offset, "%a %b %-d, %H:%M"@),
{
    format_ahead(run.second(), offset, "%a %b %-d, %H:%M")
}

/// The time of a past run so many seconds ahead of UTC, with month, day and time.
pub fn past_run_line(run: Moment, offset: i32) -> (r: String)
    requires
        is_offset(offset as int),
    ensures
        r@ == clock_text(run.at() + offset, "%b %-d, %H:%M"@),
{
    format_ahead(run.second(), offset, "%b %-d, %H:%M")
}

/// Whether a text is the time of an instant in a zone: what a clock shows that is
/// as far ahead of UTC as the zone. How far a zone other than UTC is ahead rests on
/// the time-zone database of the machine.
pub open spec fn in_zone(text: Seq<char>, at: int, zone: Seq<char>, pattern: Seq<char>) -> bool {
    exists|offset: int| #[trigger]
        is_offset(offset) && (names_utc(zone) ==> offset == 0) && text == clock_text(
            at + offset,
            pattern,
        )
}

/// The times of upcoming runs in a zone, with weekday, month, day and time.
pub fn run_lines(runs: &Vec<Moment>, zone: &str) -> (r: Vec<String>)
    ensures
        r@.len() == runs@.len(),
        forall|i: int|
            0 <= i < r@.len() ==> in_zone(
                (#[trigger] r@[i])@,
                runs@[i].at(),
                zone@,
                "%a %b %-d, %H:%M"@,
            ),
{
    let mut out: Vec<String> = Vec::new();
    for i in 0..runs.len()
        invariant
            out@.len() == i,
            forall|j: int|
                0 <= j < i ==> in_zone(
                    (#[trigger] out@[j])@,
                    runs@[j].at(),
                    zone@,
                    "%a %b %-d, %H:%M"@,
                ),
    {
        let offset: i32 = zone_offset(runs[i].second(), zone);
        out.push(run_line(runs[i], offset));
        assert(is_offset(offset as int));
    }
    out
}

/// The time of the last run in a zone, with month, day and time.
pub fn last_run_line(run: Option<Moment>, zone: &str) -> (r: Option<String>)
    ensures
        r is Some <==> run is Some,
        r matches Some(s) ==> in_zone(s@, run->0.at(), zone@, "%b %-d, %H:%M"@),
{
    match run {
        Some(m) => {
            let offset: i32 = zone_offset(m.second(), zone);
            assert(is_offset(offset as int));
            Some(past_run_line(m, offset))
        },
        None => None,
    }
}

/// What an expression means.
pub struct CronSummary {
    /// In words.
    pub summary: String,
    /// The next runs, as times in the zone.
    pub runs: Vec<String>,
}

/// The preview of something that cannot run.
pub open spec fn preview_error(ui: &Ui, msg: Seq<char>) -> Seq<char> {
    r#"<div class="text-error flex items-center gap-2">"#@
        + ui.icon_markup("alert"@, 16)
        + "<span>"@
        + escaped(msg)
        + "</span></div>"@
}

/// Renders the preview of something that cannot run.
pub fn render_preview_error(ui: &Ui, msg: &str) -> (r: Html)
    ensures
        r@ == preview_error(ui, msg@),
{
    Html::new(r#"<div class="text-error flex items-center gap-2">"#)
        .icon(ui, "alert", 16)
        .raw("<span>")
        .text(&msg)
        .raw("</span></div>")
}

/// The preview of a schedule: its summary and its next runs.
pub open spec fn preview_runs(ui: &Ui, s: CronSummary, timezone: Seq<char>) -> Seq<char> {
    r#"<div class="flex flex-col gap-1"><div class="font-medium">"#@
        + escaped(s.summary@)
        + " ("@
        + escaped(timezone)
        + ")</div>"@
        + (if s.runs@.len() == 0 {
            r#"<div class="text-base-content/60">"#@
                + escaped(ui.message("scheduled-no-upcoming-runs"@))
                + "</div>"@
        } else {
            r#"<div class="text-base-content/70">"#@
                + escaped(ui.message("scheduled-next-runs-prefix"@))
                + escaped(joined(texts(s.runs@), "  ·  "@))
                + "</div>"@
        })
        + "</div>"@
}

/// The preview of an expression. `parsed` is its meaning, or why it is not one;
/// `known` says whether the time zone exists.
pub open spec fn preview(
    ui: &Ui,
    parsed: Result<CronSummary, String>,
    timezone: Seq<char>,
    known: bool,
) -> Seq<char> {
    match parsed {
        Err(e) => preview_error(ui, e@),
        Ok(s) => if known {
            preview_runs(ui, s, timezone)
        } else {
            preview_error(ui, ui.message_with("scheduled-err-unknown-timezone"@, "tz"@, timezone))
        },
    }
}

fn render_preview_runs(ui: &Ui, s: &CronSummary, timezone: &str) -> (r: Html)
    ensures
        r@ == preview_runs(ui, *s, timezone@),
{
    Html::new(r#"<div class="flex flex-col gap-1"><div class="font-medium">"#)
        .text(&s.summary)
        .raw(" (")
        .text(timezone)
        .raw(")</div>")
        .html(if s.runs.len() == 0 {
            Html::new(r#"<div class="text-base-content/60">"#)
                .msg(ui, "scheduled-no-upcoming-runs")
                .raw("</div>")
        } else {
            Html::new(r#"<div class="text-base-content/70">"#)
                .msg(ui, "scheduled-next-runs-prefix")
                .text(&join(&s.runs, "  ·  "))
                .raw("</div>")
        })
        .raw("</div>")
}

/// Renders the preview of an expression, given whether its time zone exists.
pub fn render_preview_in_zone(
    ui: &Ui,
    parsed: &Result<CronSummary, String>,
    timezone: &str,
    known: bool,
) -> (r: Html)
    ensures
        r@ == preview(ui, *parsed, timezone@, known),
{
    match parsed {
        Err(e) => render_preview_error(ui, e),
        Ok(s) => if known {
            render_preview_runs(ui, s, timezone)
        } else {
            render_preview_error(
                ui,
                &ui.t_with("scheduled-err-unknown-timezone", "tz", timezone),
            )
        },
    }
}

/// Renders the preview of an expression. Whether the time zone is known is up to
/// the machine's database.
pub fn render_preview(ui: &Ui, parsed: &Result<CronSummary, String>, timezone: &str) -> (r: Html)
    ensures
        exists|known: bool|
            #![trigger preview(ui, *parsed, timezone@, known)]
            r@ == preview(ui, *parsed, timezone@, known),
{
    let known = zone_known(timezone);
    render_preview_in_zone(ui, parsed, timezone, known)
}

// ---------------------------------------------------------------------------
// The builder

/// One of the repeat choices. Picking it shows its fields and refreshes the
/// preview.
pub open spec fn mode_radio_markup(value: Seq<char>, label: Seq<char>, current: Seq<char>) -> Seq<char> {
    r#"<label class="label cursor-pointer gap-2 rounded-md border border-base-300 px-3 py-1.5">"#@
        + (if value == current {
            r#"<input type="radio" name="mode" value=""#@
                + escaped(value)
                + r#"" checked="checked" data-on:change="$mode = &#39;"#@
                + escaped(value)
                + r#"&#39;; @post(&#39;/scheduled/preview&#39;, {contentType: &#39;form&#39;})" class="radio"#@
                + r#" radio-sm">"#@
        } else {
            r#"<input type="radio" name="mode" value=""#@
                + escaped(value)
                + r#"" data-on:change="$mode = &#39;"#@
                + escaped(value)
                + r#"&#39;; @post(&#39;/scheduled/preview&#39;, {contentType: &#39;form&#39;})" class="radio"#@
                + r#" radio-sm">"#@
        })
        + r#"<span class="label-text">"#@
        + escaped(label)
        + "</span></label>"@
}

/// Renders one of the repeat choices.
pub fn mode_radio(value: &str, label: &str, current: &str) -> (r: Html)
    ensures
        r@ == mode_radio_markup(value@, label@, current@),
{
    Html::new(r#"<label class="label cursor-pointer gap-2 rounded-md border border-base-300 px-3 py-1.5">"#)
        .html(if same(value, current) {
            Html::new(r#"<input type="radio" name="mode" value=""#)
                .text(&value)
                .raw(r#"" checked="checked" data-on:change="$mode = &#39;"#)
                .text(&value)
                .raw(r#"&#39;; @post(&#39;/scheduled/preview&#39;, {contentType: &#39;form&#39;})" class="radio"#)
                .raw(r#" radio-sm">"#)
        } else {
            Html::new(r#"<input type="radio" name="mode" value=""#)
                .text(&value)
                .raw(r#"" data-on:change="$mode = &#39;"#)
                .text(&value)
                .raw(r#"&#39;; @post(&#39;/scheduled/preview&#39;, {contentType: &#39;form&#39;})" class="radio"#)
                .raw(r#" radio-sm">"#)
        })
        .raw(r#"<span class="label-text">"#)
        .text(&label)
        .raw("</span></label>")
}

/// The checkbox of a weekday.
pub open spec fn weekday_toggle_markup(num: u8, label: Seq<char>, checked: bool) -> Seq<char> {
    r#"<label class="label cursor-pointer gap-1.5 rounded-md border border-base-300 px-2.5 py-1">"#@
        + (if checked {
            r#"<input type="checkbox" name="wd"#@
                + decimal(num as nat)
                + r#"" checked="checked" data-on:change="@post(&#39;/scheduled/preview&#39;, {contentType:"#@
                + r#" &#39;form&#39;})" class="checkbox checkbox-xs">"#@
        } else {
            r#"<input type="checkbox" name="wd"#@
                + decimal(num as nat)
                + r#"" data-on:change="@post(&#39;/scheduled/preview&#39;, {contentType: &#39;form&#39;})""#@
                + r#" class="checkbox checkbox-xs">"#@
        })
        + r#"<span class="label-text text-xs">"#@
        + escaped(label)
        + "</span></label>"@
}

/// Renders the checkbox of a weekday.
pub fn weekday_toggle(num: u8, label: &str, checked: bool) -> (r: Html)
    ensures
        r@ == weekday_toggle_markup(num, label@, checked),
{
    Html::new(r#"<label class="label cursor-pointer gap-1.5 rounded-md border border-base-300 px-2.5 py-1">"#)
        .html(if checked {
            Html::new(r#"<input type="checkbox" name="wd"#)
                .num(num as u64)
                .raw(r#"" checked="checked" data-on:change="@post(&#39;/scheduled/preview&#39;, {contentType:"#)
                .raw(r#" &#39;form&#39;})" class="checkbox checkbox-xs">"#)
        } else {
            Html::new(r#"<input type="checkbox" name="wd"#)
                .num(num as u64)
                .raw(r#"" data-on:change="@post(&#39;/scheduled/preview&#39;, {contentType: &#39;form&#39;})""#)
                .raw(r#" class="checkbox checkbox-xs">"#)
        })
        .raw(r#"<span class="label-text text-xs">"#)
        .text(&label)
        .raw("</span></label>")
}

/// The weekday checkboxes, Monday first.
pub open spec fn weekday_cells(ui: &Ui, days: Seq<u8>) -> Seq<char> {
    weekday_toggle_markup(1, ui.message("scheduled-weekday-mon"@), days.contains(1u8))
        + weekday_toggle_markup(2, ui.message("scheduled-weekday-tue"@), days.contains(2u8))
        + weekday_toggle_markup(3, ui.message("scheduled-weekday-wed"@), days.contains(3u8))
        + weekday_toggle_markup(4, ui.message("scheduled-weekday-thu"@), days.contains(4u8))
        + weekday_toggle_markup(5, ui.message("scheduled-weekday-fri"@), days.contains(5u8))
        + weekday_toggle_markup(6, ui.message("scheduled-weekday-sat"@), days.contains(6u8))
        + weekday_toggle_markup(0, ui.message("scheduled-weekday-sun"@), days.contains(0u8))
}

fn has_day(days: &Vec<u8>, day: u8) -> (r: bool)
    ensures
        r == days@.contains(day),
{
    for i in 0..days.len()
        invariant
            forall|j: int| 0 <= j < i ==> days@[j] != day,
    {
        if days[i] == day {
            return true;
        }
    }
    false
}

fn render_weekday_cells(ui: &Ui, days: &Vec<u8>) -> (r: Html)
    ensures
        r@ == weekday_cells(ui, days@),
{
    weekday_toggle(1, &ui.t("scheduled-weekday-mon"), has_day(days, 1)).html(
        weekday_toggle(2, &ui.t("scheduled-weekday-tue"), has_day(days, 2)),
    ).html(weekday_toggle(3, &ui.t("scheduled-weekday-wed"), has_day(days, 3))).html(
        weekday_toggle(4, &ui.t("scheduled-weekday-thu"), has_day(days, 4)),
    ).html(weekday_toggle(5, &ui.t("scheduled-weekday-fri"), has_day(days, 5))).html(
        weekday_toggle(6, &ui.t("scheduled-weekday-sat"), has_day(days, 6)),
    ).html(weekday_toggle(0, &ui.t("scheduled-weekday-sun"), has_day(days, 0)))
}

/// A number with at least two digits.
pub open spec fn two_digits(n: int) -> Seq<char> {
    if n < 10 {
        "0"@ + decimal(n as nat)
    } else {
        decimal(n as nat)
    }
}

fn show_two_digits(n: u8) -> (r: String)
    ensures
        r@ == two_digits(n as int),
{
    if n < 10 {
        let mut out = "0".to_owned();
        out.append(&show_u64(n as u64));
        out
    } else {
        show_u64(n as u64)
    }
}

/// The schedule builder: the repeat choices, the fields of each, and the
/// preview. Hour and minute stand in it once, shared by all modes.
pub open spec fn schedule_builder(ui: &Ui, init: BuilderView, preview: Seq<char>) -> Seq<char> {
    r#"<div data-signals="{mode: "#@
        + escaped(json_text(init.mode))
        + r#"}"><div class="rounded-lg border border-base-300 p-4 flex flex-col gap-4">"#@
        + r#"<div class="text-sm font-medium">"#@
        + escaped(ui.message("scheduled-builder-heading"@))
        + r#"</div><div class="flex flex-wrap gap-2">"#@
        + mode_radio_markup("hourly"@, ui.message("scheduled-mode-hourly"@), init.mode)
        + mode_radio_markup("daily"@, ui.message("scheduled-mode-daily"@), init.mode)
        + mode_radio_markup("weekly"@, ui.message("scheduled-mode-weekly"@), init.mode)
        + mode_radio_markup("monthly"@, ui.message("scheduled-mode-monthly"@), init.mode)
        + mode_radio_markup("advanced"@, ui.message("scheduled-mode-advanced"@), init.mode)
        + r#"</div><div data-show="$mode === &#39;weekly&#39;" class="flex flex-wrap gap-1">"#@
        + weekday_cells(ui, init.weekdays)
        + r#"</div><div data-show="$mode === &#39;monthly&#39;" class="flex items-end gap-2">"#@
        + r#"<label class="flex flex-col gap-1"><div class="label"><span class="label-text">"#@
        + escaped(ui.message("scheduled-on-day-label"@))
        + r#"</span></div><input name="dom" type="number" min="1" max="31" value=""#@
        + decimal(init.dom as nat)
        + r#"" data-on:change="@post(&#39;/scheduled/preview&#39;, {contentType: &#39;form&#39;})""#@
        + r#" class="input input-bordered w-24"></label><span class="text-base-content/60 pb-3">"#@
        + escaped(ui.message("scheduled-of-every-month"@))
        + r#"</span></div><div class="flex items-end flex-wrap gap-6">"#@
        + r#"<div data-show="$mode !== &#39;advanced&#39;" class="flex flex-col gap-1">"#@
        + r#"<div class="label"><span class="label-text">"#@
        + escaped(ui.message("scheduled-at-label"@))
        + r#"</span></div><div class="flex items-end gap-1">"#@
        + r#"<span data-show="$mode !== &#39;hourly&#39;" class="flex items-end gap-1">"#@
        + r#"<input name="hour" type="number" min="0" max="23" value=""#@
        + escaped(two_digits(init.hour))
        + r#"" aria-label=""#@
        + escaped(ui.message("scheduled-hour-aria"@))
        + r#"" data-on:change="@post(&#39;/scheduled/preview&#39;, {contentType: &#39;form&#39;})""#@
        + r#" class="input input-bordered w-20"><span class="font-bold pb-3">:</span></span>"#@
        + r#"<input name="minute" type="number" min="0" max="59" value=""#@
        + escaped(two_digits(init.minute))
        + r#"" aria-label=""#@
        + escaped(ui.message("scheduled-minute-aria"@))
        + r#"" data-on:change="@post(&#39;/scheduled/preview&#39;, {contentType: &#39;form&#39;})""#@
        + r#" class="input input-bordered w-20">"#@
        + r#"<span data-show="$mode === &#39;hourly&#39;" class="text-base-content/60 pb-3 ml-1">"#@
        + escaped(ui.message("scheduled-of-every-hour"@))
        + r#"</span></div></div><label class="flex flex-col gap-1 w-full max-w-xs"><div class="label">"#@
        + r#"<span class="label-text">"#@
        + escaped(ui.message("scheduled-timezone-label"@))
        + r#"</span></div><input name="timezone" type="text" value=""#@
        + escaped(init.timezone)
        + r#"" placeholder=""#@
        + escaped(ui.message("scheduled-timezone-placeholder"@))
        + r#"" data-on:change="@post(&#39;/scheduled/preview&#39;, {contentType: &#39;form&#39;})""#@
        + r#" class="input input-bordered w-full"></label></div>"#@
        + r#"<div data-show="$mode === &#39;advanced&#39;" class="flex flex-col gap-1">"#@
        + r#"<label class="flex flex-col gap-1"><div class="label"><span class="label-text">"#@
        + escaped(ui.message("scheduled-cron-label"@))
        + r#"</span></div><input name="advanced" type="text" value=""#@
        + escaped(init.advanced)
        + r#"" placeholder="0 9 * * *" data-on:change="@post(&#39;/scheduled/preview&#39;, {contentType:"#@
        + r#" &#39;form&#39;})" class="input input-bordered w-full font-mono"></label>"#@
        + r#"<span class="text-xs text-base-content/60">"#@
        + escaped(ui.message("scheduled-cron-help"@))
        + r#"</span></div><div id="schedule-preview" class="rounded-md bg-base-200 p-3 text-sm">"#@
        + preview
        + "</div></div></div>"@
}

/// Renders the schedule builder around a preview.
pub fn render_schedule_builder(ui: &Ui, init: &BuilderInit, preview: Html) -> (r: Html)
    ensures
        r@ == schedule_builder(ui, init@, preview@),
{
    Html::new(r#"<div data-signals="{mode: "#)
        .text(&write_text(&init.mode))
        .raw(r#"}"><div class="rounded-lg border border-base-300 p-4 flex flex-col gap-4">"#)
        .raw(r#"<div class="text-sm font-medium">"#)
        .msg(ui, "scheduled-builder-heading")
        .raw(r#"</div><div class="flex flex-wrap gap-2">"#)
        .html(mode_radio("hourly", &ui.t("scheduled-mode-hourly"), &init.mode))
        .html(mode_radio("daily", &ui.t("scheduled-mode-daily"), &init.mode))
        .html(mode_radio("weekly", &ui.t("scheduled-mode-weekly"), &init.mode))
        .html(mode_radio("monthly", &ui.t("scheduled-mode-monthly"), &init.mode))
        .html(mode_radio("advanced", &ui.t("scheduled-mode-advanced"), &init.mode))
        .raw(r#"</div><div data-show="$mode === &#39;weekly&#39;" class="flex flex-wrap gap-1">"#)
        .html(render_weekday_cells(ui, &init.weekdays))
        .raw(r#"</div><div data-show="$mode === &#39;monthly&#39;" class="flex items-end gap-2">"#)
        .raw(r#"<label class="flex flex-col gap-1"><div class="label"><span class="label-text">"#)
        .msg(ui, "scheduled-on-day-label")
        .raw(r#"</span></div><input name="dom" type="number" min="1" max="31" value=""#)
        .num(init.dom as u64)
        .raw(r#"" data-on:change="@post(&#39;/scheduled/preview&#39;, {contentType: &#39;form&#39;})""#)
        .raw(r#" class="input input-bordered w-24"></label><span class="text-base-content/60 pb-3">"#)
        .msg(ui, "scheduled-of-every-month")
        .raw(r#"</span></div><div class="flex items-end flex-wrap gap-6">"#)
        .raw(r#"<div data-show="$mode !== &#39;advanced&#39;" class="flex flex-col gap-1">"#)
        .raw(r#"<div class="label"><span class="label-text">"#)
        .msg(ui, "scheduled-at-label")
        .raw(r#"</span></div><div class="flex items-end gap-1">"#)
        .raw(r#"<span data-show="$mode !== &#39;hourly&#39;" class="flex items-end gap-1">"#)
        .raw(r#"<input name="hour" type="number" min="0" max="23" value=""#)
        .text(&show_two_digits(init.hour))
        .raw(r#"" aria-label=""#)
        .msg(ui, "scheduled-hour-aria")
        .raw(r#"" data-on:change="@post(&#39;/scheduled/preview&#39;, {contentType: &#39;form&#39;})""#)
        .raw(r#" class="input input-bordered w-20"><span class="font-bold pb-3">:</span></span>"#)
        .raw(r#"<input name="minute" type="number" min="0" max="59" value=""#)
        .text(&show_two_digits(init.minute))
        .raw(r#"" aria-label=""#)
        .msg(ui, "scheduled-minute-aria")
        .raw(r#"" data-on:change="@post(&#39;/scheduled/preview&#39;, {contentType: &#39;form&#39;})""#)
        .raw(r#" class="input input-bordered w-20">"#)
        .raw(r#"<span data-show="$mode === &#39;hourly&#39;" class="text-base-content/60 pb-3 ml-1">"#)
        .msg(ui, "scheduled-of-every-hour")
        .raw(r#"</span></div></div><label class="flex flex-col gap-1 w-full max-w-xs"><div class="label">"#)
        .raw(r#"<span class="label-text">"#)
        .msg(ui, "scheduled-timezone-label")
        .raw(r#"</span></div><input name="timezone" type="text" value=""#)
        .text(&init.timezone)
        .raw(r#"" placeholder=""#)
        .msg(ui, "scheduled-timezone-placeholder")
        .raw(r#"" data-on:change="@post(&#39;/scheduled/preview&#39;, {contentType: &#39;form&#39;})""#)
        .raw(r#" class="input input-bordered w-full"></label></div>"#)
        .raw(r#"<div data-show="$mode === &#39;advanced&#39;" class="flex flex-col gap-1">"#)
        .raw(r#"<label class="flex flex-col gap-1"><div class="label"><span class="label-text">"#)
        .msg(ui, "scheduled-cron-label")
        .raw(r#"</span></div><input name="advanced" type="text" value=""#)
        .text(&init.advanced)
        .raw(r#"" placeholder="0 9 * * *" data-on:change="@post(&#39;/scheduled/preview&#39;, {contentType:"#)
        .raw(r#" &#39;form&#39;})" class="input input-bordered w-full font-mono"></label>"#)
        .raw(r#"<span class="text-xs text-base-content/60">"#)
        .msg(ui, "scheduled-cron-help")
        .raw(r#"</span></div><div id="schedule-preview" class="rounded-md bg-base-200 p-3 text-sm">"#)
        .html(preview)
        .raw("</div></div></div>")
}

// ---------------------------------------------------------------------------
// The form

/// A stored action.
pub struct ScheduledAction {
    pub id: String,
    pub name: String,
    pub prompt: String,
    pub model: String,
    pub cron: String,
    pub timezone: String,
    pub tools_enabled: bool,
    pub reuse_conversation: bool,
    pub reuse_rounds: i64,
    pub enabled: bool,
    pub next_run_at: Option<Moment>,
    pub last_run_at: Option<Moment>,
    pub last_status: Option<String>,
    pub last_session_id: Option<String>,
}

/// The label of a model: its name, and what it is not cleared for.
pub open spec fn model_label_text(ui: &Ui, m: ChatModelOption) -> Seq<char> {
    if m.gdpr && m.nda {
        m.id@
    } else if m.nda {
        ui.message_with("scheduled-model-non-gdpr"@, "model"@, m.id@)
    } else if m.gdpr {
        ui.message_with("scheduled-model-nda-restricted"@, "model"@, m.id@)
    } else {
        ui.message_with("scheduled-model-non-gdpr-nda-restricted"@, "model"@, m.id@)
    }
}

/// The label of a model.
pub fn model_label(ui: &Ui, m: &ChatModelOption) -> (r: String)
    ensures
        r@ == model_label_text(ui, *m),
{
    if m.gdpr && m.nda {
        m.id.clone()
    } else if m.nda {
        ui.t_with("scheduled-model-non-gdpr", "model", &m.id)
    } else if m.gdpr {
        ui.t_with("scheduled-model-nda-restricted", "model", &m.id)
    } else {
        ui.t_with("scheduled-model-non-gdpr-nda-restricted", "model", &m.id)
    }
}

/// The options of the model picker.
pub open spec fn model_options(
    ui: &Ui,
    models: Seq<ChatModelOption>,
    selected: Seq<char>,
) -> Seq<char>
    decreases models.len(),
{
    if models.len() == 0 {
        Seq::empty()
    } else {
        let m = models.last();
        model_options(ui, models.drop_last(), selected) + crate::admin::choice(
            m.id@,
            model_label_text(ui, m),
            m.id@ == selected,
        )
    }
}

fn render_model_options(ui: &Ui, models: &Vec<ChatModelOption>, selected: &str) -> (r: Html)
    ensures
        r@ == model_options(ui, models@, selected@),
{
    let mut out = Html::empty();
    assert(models@.take(0) =~= Seq::<ChatModelOption>::empty());
    for i in 0..models.len()
        invariant
            out@ == model_options(ui, models@.take(i as int), selected@),
    {
        assert(models@.take(i + 1).drop_last() =~= models@.take(i as int));
        let m = &models[i];
        out = out.html(
            crate::admin::render_choice(&m.id, &model_label(ui, m), same(&m.id, selected)),
        );
    }
    assert(models@.take(models@.len() as int) =~= models@);
    out
}

/// The model picked when the form opens: that of the action, else the first.
pub open spec fn picked_model(
    action: Option<&ScheduledAction>,
    models: Seq<ChatModelOption>,
) -> Seq<char> {
    match action {
        Some(a) => a.model@,
        None => if models.len() > 0 {
            models[0].id@
        } else {
            Seq::empty()
        },
    }
}

/// The model picker; a text field when no model is known.
pub open spec fn model_field(ui: &Ui, models: Seq<ChatModelOption>, selected_model: Seq<char>) -> Seq<
    char,
> {
    r#"<label class="flex flex-col gap-1 w-full"><div class="label"><span class="label-text">"#@
        + escaped(ui.message("scheduled-model-label"@))
        + "</span></div>"@
        + (if models.len() == 0 {
            r#"<input name="model" type="text" required="required" value=""#@
                + escaped(selected_model)
                + r#"" placeholder=""#@
                + escaped(ui.message("scheduled-model-placeholder"@))
                + r#"" class="input input-bordered w-full">"#@
        } else {
            r#"<select name="model" required="required" data-on:change="$selectedModel = evt.target.value""#@
                + r#" class="select select-bordered w-full">"#@
                + model_options(ui, models, selected_model)
                + "</select>"@
        })
        + "</label>"@
}

fn render_model_field(ui: &Ui, models: &Vec<ChatModelOption>, selected_model: &str) -> (r: Html)
    ensures
        r@ == model_field(ui, models@, selected_model@),
{
    Html::new(r#"<label class="flex flex-col gap-1 w-full"><div class="label"><span class="label-text">"#)
        .msg(ui, "scheduled-model-label")
        .raw("</span></div>")
        .html(if models.len() == 0 {
            Html::new(r#"<input name="model" type="text" required="required" value=""#)
                .text(&selected_model)
                .raw(r#"" placeholder=""#)
                .msg(ui, "scheduled-model-placeholder")
                .raw(r#"" class="input input-bordered w-full">"#)
        } else {
            Html::new(r#"<select name="model" required="required" data-on:change="$selectedModel = evt.target.value""#)
                .raw(r#" class="select select-bordered w-full">"#)
                .html(render_model_options(ui, models, &selected_model))
                .raw("</select>")
        })
        .raw("</label>")
}

/// The warnings shown while a model is picked that is not cleared.
pub open spec fn model_warnings(
    ui: &Ui,
    models: Seq<ChatModelOption>,
    selected_model: Seq<char>,
) -> Seq<char> {
    r#"<div data-signals=""#@
        + escaped(signals_text(models, selected_model))
        + r#"" data-init="$selectedModel = document.querySelector(&#39;[name=model]&#39;)?.value ??"#@
        + r#" $selectedModel" style="display:none"></div>"#@
        + (if gdpr_flagged(models).len() > 0 {
            r#"<div class="alert alert-error" role="alert""#@
                + r#" data-show="$gdprFlagged.includes($selectedModel)" style="display:none">"#@
                + ui.icon_markup("alert"@, 20)
                + "<span>"@
                + escaped(ui.message("scheduled-gdpr-warning"@))
                + "</span></div>"@
        } else {
            Seq::<char>::empty()
        })
        + (if nda_flagged(models).len() > 0 {
            r#"<div class="alert alert-error" role="alert""#@
                + r#" data-show="$ndaFlagged.includes($selectedModel)" style="display:none">"#@
                + ui.icon_markup("alert"@, 20)
                + "<span>"@
                + escaped(ui.message("scheduled-nda-warning"@))
                + "</span></div>"@
        } else {
            Seq::<char>::empty()
        })
}

fn render_model_warnings(ui: &Ui, models: &Vec<ChatModelOption>, selected_model: &str) -> (r: Html)
    ensures
        r@ == model_warnings(ui, models@, selected_model@),
{
    Html::new(r#"<div data-signals=""#)
        .text(&signals(models, selected_model))
        .raw(r#"" data-init="$selectedModel = document.querySelector(&#39;[name=model]&#39;)?.value ??"#)
        .raw(r#" $selectedModel" style="display:none"></div>"#)
        .html(if any_gdpr(models) {
            Html::new(r#"<div class="alert alert-error" role="alert""#)
                .raw(r#" data-show="$gdprFlagged.includes($selectedModel)" style="display:none">"#)
                .icon(ui, "alert", 20)
                .raw("<span>")
                .msg(ui, "scheduled-gdpr-warning")
                .raw("</span></div>")
        } else {
            Html::empty()
        })
        .html(if any_nda(models) {
            Html::new(r#"<div class="alert alert-error" role="alert""#)
                .raw(r#" data-show="$ndaFlagged.includes($selectedModel)" style="display:none">"#)
                .icon(ui, "alert", 20)
                .raw("<span>")
                .msg(ui, "scheduled-nda-warning")
                .raw("</span></div>")
        } else {
            Html::empty()
        })
}

/// The switches for tools and for continuing the last conversation.
pub open spec fn action_switches(
    ui: &Ui,
    tools_on: bool,
    reuse_on: bool,
    reuse_rounds: i64,
) -> Seq<char> {
    r#"<label class="label cursor-pointer justify-start gap-3">"#@
        + (if tools_on {
            r#"<input type="checkbox" name="tools" checked="checked" class="checkbox checkbox-sm">"#@
        } else {
            r#"<input type="checkbox" name="tools" class="checkbox checkbox-sm">"#@
        })
        + r#"<span class="label-text">"#@
        + escaped(ui.message("scheduled-tools-toggle-label"@))
        + r#"</span></label><div data-signals="{reuse: "#@
        + (if reuse_on { "true"@ } else { "false"@ })
        + r#"}" style="display:none"></div><div class="flex flex-wrap items-center gap-3">"#@
        + r#"<label class="label cursor-pointer justify-start gap-3">"#@
        + (if reuse_on {
            r#"<input type="checkbox" name="reuse" checked="checked" data-on:change="$reuse ="#@
                + r#" evt.target.checked" class="checkbox checkbox-sm">"#@
        } else {
            r#"<input type="checkbox" name="reuse" data-on:change="$reuse = evt.target.checked""#@
                + r#" class="checkbox checkbox-sm">"#@
        })
        + r#"<span class="label-text">"#@
        + escaped(ui.message("scheduled-reuse-toggle-label"@))
        + r#"</span></label><label class="flex items-center gap-2 text-sm" data-show="$reuse">"#@
        + r#"<span class="label-text opacity-70">"#@
        + escaped(ui.message("scheduled-reuse-rounds-prefix"@))
        + r#"</span><input name="reuse_rounds" type="number" min="1" max="50" value=""#@
        + signed_decimal(reuse_rounds as int)
        + r#"" aria-label=""#@
        + escaped(ui.message("scheduled-reuse-rounds-aria"@))
        + r#"" class="input input-bordered input-sm w-20"><span class="label-text opacity-70">"#@
        + escaped(ui.message("scheduled-reuse-rounds-suffix"@))
        + "</span></label></div>"@
}

fn render_action_switches(ui: &Ui, tools_on: bool, reuse_on: bool, reuse_rounds: i64) -> (r: Html)
    ensures
        r@ == action_switches(ui, tools_on, reuse_on, reuse_rounds),
{
    Html::new(r#"<label class="label cursor-pointer justify-start gap-3">"#)
        .html(if tools_on {
            Html::new(r#"<input type="checkbox" name="tools" checked="checked" class="checkbox checkbox-sm">"#)
        } else {
            Html::new(r#"<input type="checkbox" name="tools" class="checkbox checkbox-sm">"#)
        })
        .raw(r#"<span class="label-text">"#)
        .msg(ui, "scheduled-tools-toggle-label")
        .raw(r#"</span></label><div data-signals="{reuse: "#)
        .html(Html::new(if reuse_on { "true" } else { "false" }))
        .raw(r#"}" style="display:none"></div><div class="flex flex-wrap items-center gap-3">"#)
        .raw(r#"<label class="label cursor-pointer justify-start gap-3">"#)
        .html(if reuse_on {
            Html::new(r#"<input type="checkbox" name="reuse" checked="checked" data-on:change="$reuse ="#)
                .raw(r#" evt.target.checked" class="checkbox checkbox-sm">"#)
        } else {
            Html::new(r#"<input type="checkbox" name="reuse" data-on:change="$reuse = evt.target.checked""#)
                .raw(r#" class="checkbox checkbox-sm">"#)
        })
        .raw(r#"<span class="label-text">"#)
        .msg(ui, "scheduled-reuse-toggle-label")
        .raw(r#"</span></label><label class="flex items-center gap-2 text-sm" data-show="$reuse">"#)
        .raw(r#"<span class="label-text opacity-70">"#)
        .msg(ui, "scheduled-reuse-rounds-prefix")
        .raw(r#"</span><input name="reuse_rounds" type="number" min="1" max="50" value=""#)
        .signed(reuse_rounds)
        .raw(r#"" aria-label=""#)
        .msg(ui, "scheduled-reuse-rounds-aria")
        .raw(r#"" class="input input-bordered input-sm w-20"><span class="label-text opacity-70">"#)
        .msg(ui, "scheduled-reuse-rounds-suffix")
        .raw("</span></label></div>")
}

/// The form of an action. An existing action fills its fields. The browser's
/// own validation is off, so that the preview can refresh while required fields
/// are still empty.
pub open spec fn action_form(
    ui: &Ui,
    post_url: Seq<char>,
    form_id: Seq<char>,
    submit_label: Seq<char>,
    action: Option<&ScheduledAction>,
    models: Seq<ChatModelOption>,
    init: BuilderView,
    preview: Seq<char>,
) -> Seq<char> {
    let selected_model = picked_model(action, models);
    let name_val = match action {
        Some(a) => a.name@,
        None => Seq::empty(),
    };
    let prompt_val = match action {
        Some(a) => a.prompt@,
        None => Seq::empty(),
    };
    let tools_on = action is Some ==> action->0.tools_enabled;
    let reuse_on = action is Some && action->0.reuse_conversation;
    let rounds = match action {
        Some(a) => a.reuse_rounds,
        None => DEFAULT_REUSE_ROUNDS,
    };
    r#"<form id=""#@
        + escaped(form_id)
        + r#"" action=""#@
        + escaped(post_url)
        + r#"" method="post" novalidate="novalidate" class="card border border-base-300 mb-6""#@
        + r#" data-on:submit__prevent="@post(&#39;"#@
        + escaped(post_url)
        + r#"&#39;, {contentType: &#39;form&#39;})"><div class="card-body gap-4">"#@
        + r#"<label class="flex flex-col gap-1 w-full"><div class="label"><span class="label-text">"#@
        + escaped(ui.message("scheduled-name-label"@))
        + r#"</span></div><input name="name" type="text" required="required" maxlength="128" value=""#@
        + escaped(name_val)
        + r#"" placeholder=""#@
        + escaped(ui.message("scheduled-name-placeholder"@))
        + r#"" class="input input-bordered w-full"></label>"#@
        + model_field(ui, models, selected_model)
        + model_warnings(ui, models, selected_model)
        + r#"<label class="flex flex-col gap-1 w-full"><div class="label"><span class="label-text">"#@
        + escaped(ui.message("scheduled-prompt-label"@))
        + "</span></div>"@
        + r#"<textarea name="prompt" required="required" rows="4" maxlength="8000" placeholder=""#@
        + escaped(ui.message("scheduled-prompt-placeholder"@))
        + r#"" class="textarea textarea-bordered w-full">"#@
        + escaped(prompt_val)
        + "</textarea></label>"@
        + schedule_builder(ui, init, preview)
        + action_switches(ui, tools_on, reuse_on, rounds)
        + r#"<div class="card-actions justify-end"><button type="submit" class="btn btn-primary">"#@
        + escaped(submit_label)
        + "</button></div></div></form>"@
}

/// Renders the form of an action.
pub fn render_form(
    ui: &Ui,
    post_url: &str,
    form_id: &str,
    submit_label: &str,
    action: Option<&ScheduledAction>,
    models: &Vec<ChatModelOption>,
    init: &BuilderInit,
    preview: Html,
) -> (r: Html)
    ensures
        r@ == action_form(
            ui,
            post_url@,
            form_id@,
            submit_label@,
            action,
            models@,
            init@,
            preview@,
        ),
{
    let selected_model = match action {
        Some(a) => a.model.clone(),
        None => if models.len() > 0 {
            models[0].id.clone()
        } else {
            String::new()
        },
    };
    let (mut name_val, mut prompt_val) = (String::new(), String::new());
    let (mut tools_on, mut reuse_on) = (true, false);
    let mut rounds: i64 = DEFAULT_REUSE_ROUNDS;
    if let Some(a) = action {
        name_val = a.name.clone();
        prompt_val = a.prompt.clone();
        tools_on = a.tools_enabled;
        reuse_on = a.reuse_conversation;
        rounds = a.reuse_rounds;
    }
    Html::new(r#"<form id=""#)
        .text(form_id)
        .raw(r#"" action=""#)
        .text(post_url)
        .raw(r#"" method="post" novalidate="novalidate" class="card border border-base-300 mb-6""#)
        .raw(r#" data-on:submit__prevent="@post(&#39;"#)
        .text(post_url)
        .raw(r#"&#39;, {contentType: &#39;form&#39;})"><div class="card-body gap-4">"#)
        .raw(r#"<label class="flex flex-col gap-1 w-full"><div class="label"><span class="label-text">"#)
        .msg(ui, "scheduled-name-label")
        .raw(r#"</span></div><input name="name" type="text" required="required" maxlength="128" value=""#)
        .text(&name_val)
        .raw(r#"" placeholder=""#)
        .msg(ui, "scheduled-name-placeholder")
        .raw(r#"" class="input input-bordered w-full"></label>"#)
        .html(render_model_field(ui, models, &selected_model))
        .html(render_model_warnings(ui, models, &selected_model))
        .raw(r#"<label class="flex flex-col gap-1 w-full"><div class="label"><span class="label-text">"#)
        .msg(ui, "scheduled-prompt-label")
        .raw("</span></div>")
        .raw(r#"<textarea name="prompt" required="required" rows="4" maxlength="8000" placeholder=""#)
        .msg(ui, "scheduled-prompt-placeholder")
        .raw(r#"" class="textarea textarea-bordered w-full">"#)
        .text(&prompt_val)
        .raw("</textarea></label>")
        .html(render_schedule_builder(ui, init, preview))
        .html(render_action_switches(ui, tools_on, reuse_on, rounds))
        .raw(r#"<div class="card-actions justify-end"><button type="submit" class="btn btn-primary">"#)
        .text(submit_label)
        .raw("</button></div></div></form>")
}

// ---------------------------------------------------------------------------
// Rows and pages

/// A text cut for display: more than 96 characters end in an ellipsis.
pub open spec fn prompt_preview(prompt: Seq<char>) -> Seq<char> {
    let p = trimmed(prompt);
    if p.len() > 96 {
        clipped(p, 96).push('…')
    } else {
        p
    }
}

fn preview_prompt(prompt: &str) -> (r: String)
    ensures
        r@ == prompt_preview(prompt@),
{
    let p = trim(prompt);
    if chars(&p).len() > 96 {
        let mut s = clip(&p, 96);
        s.push('…');
        s
    } else {
        p
    }
}

/// What a row says besides the stored action: the schedule in words (absent
/// when the expression is none), and the next and last run as times in the
/// action's zone.
pub struct RowTexts {
    pub summary: Option<String>,
    pub next: Option<String>,
    pub last: Option<String>,
}

/// The schedule in words, or the expression.
pub open spec fn summary_text(a: ScheduledAction, texts: RowTexts) -> Seq<char> {
    match texts.summary {
        Some(s) => s@,
        None => "cron: "@ + a.cron@,
    }
}

/// When an action runs next: not while it is paused.
pub open spec fn next_line(ui: &Ui, a: ScheduledAction, texts: RowTexts) -> Seq<char> {
    if !a.enabled {
        ui.message("scheduled-status-paused"@)
    } else {
        match texts.next {
            Some(when) => ui.message_with("scheduled-next-run"@, "when"@, when@),
            None => ui.message("scheduled-no-upcoming-run"@),
        }
    }
}

/// The last run, with a link to its conversation.
pub open spec fn last_run_link(ui: &Ui, when: Seq<char>, ok: bool, sid: Seq<char>) -> Seq<char> {
    r#"<a href="/chat/"#@
        + escaped(sid)
        + r#"" class="link link-hover "#@
        + (if ok { "text-success"@ } else { "text-error"@ })
        + r#"" data-on:click__prevent="@get(&#39;/chat/"#@
        + escaped(sid)
        + r#"&#39;)">"#@
        + escaped(ui.message_with(if ok { "scheduled-last-success-open"@ } else { "scheduled-last-failure-open"@ }, "when"@, when))
        + "</a>"@
}

fn render_last_run_link(ui: &Ui, when: &str, ok: bool, sid: &str) -> (r: Html)
    ensures
        r@ == last_run_link(ui, when@, ok, sid@),
{
    Html::new(r#"<a href="/chat/"#)
        .text(sid)
        .raw(r#"" class="link link-hover "#)
        .html(Html::new(if ok { "text-success" } else { "text-error" }))
        .raw(r#"" data-on:click__prevent="@get(&#39;/chat/"#)
        .text(sid)
        .raw(r#"&#39;)">"#)
        .text(&ui.t_with(if ok { "scheduled-last-success-open" } else { "scheduled-last-failure-open" }, "when", when))
        .raw("</a>")
}

/// The last run, without a conversation.
pub open spec fn last_run_plain(ui: &Ui, when: Seq<char>, ok: bool) -> Seq<char> {
    r#"<span class=""#@
        + (if ok { "text-success"@ } else { "text-error"@ })
        + r#"">"#@
        + escaped(ui.message_with(if ok { "scheduled-last-success"@ } else { "scheduled-last-failure"@ }, "when"@, when))
        + "</span>"@
}

fn render_last_run_plain(ui: &Ui, when: &str, ok: bool) -> (r: Html)
    ensures
        r@ == last_run_plain(ui, when@, ok),
{
    Html::new(r#"<span class=""#)
        .html(Html::new(if ok { "text-success" } else { "text-error" }))
        .raw(r#"">"#)
        .text(&ui.t_with(if ok { "scheduled-last-success" } else { "scheduled-last-failure" }, "when", when))
        .raw("</span>")
}

/// The last run of an action, if there was one.
pub open spec fn last_line(ui: &Ui, a: ScheduledAction, texts: RowTexts) -> Seq<char> {
    match texts.last {
        None => Seq::empty(),
        Some(when) => {
            let ok = opt_text(a.last_status) == Some("ok"@);
            match a.last_session_id {
                Some(sid) => last_run_link(ui, when@, ok, sid@),
                None => last_run_plain(ui, when@, ok),
            }
        },
    }
}

fn render_last_line(ui: &Ui, a: &ScheduledAction, texts: &RowTexts) -> (r: Html)
    ensures
        r@ == last_line(ui, *a, *texts),
{
    match &texts.last {
        None => Html::empty(),
        Some(when) => {
            let ok = match &a.last_status {
                Some(s) => same(s, "ok"),
                None => false,
            };
            match &a.last_session_id {
                Some(sid) => render_last_run_link(ui, when, ok, sid),
                None => render_last_run_plain(ui, when, ok),
            }
        },
    }
}

/// The buttons of a row: pause or resume, edit, delete.
pub open spec fn row_buttons(ui: &Ui, id: Seq<char>, enabled: bool) -> Seq<char> {
    let title = if enabled {
        ui.message("scheduled-pause-title"@)
    } else {
        ui.message("scheduled-resume-title"@)
    };
    r#"<div class="flex items-center gap-1 shrink-0"><form action="/scheduled/"#@
        + escaped(id)
        + r#"/toggle" method="post" class="m-0" data-on:submit__prevent="@post(&#39;/scheduled/"#@
        + escaped(id)
        + r#"/toggle&#39;, {contentType: &#39;form&#39;})">"#@
        + r#"<button type="submit" class="btn btn-ghost btn-sm btn-square" title=""#@
        + escaped(title)
        + r#"" aria-label=""#@
        + escaped(title)
        + r#"">"#@
        + (if enabled {
            ui.icon_markup("pause"@, 16)
        } else {
            ui.icon_markup("play"@, 16)
        })
        + r#"</button></form><a href="/scheduled/"#@
        + escaped(id)
        + r#"/edit" class="btn btn-ghost btn-sm btn-square" title=""#@
        + escaped(ui.message("scheduled-edit-title"@))
        + r#"" aria-label=""#@
        + escaped(ui.message("scheduled-edit-title"@))
        + r#"" data-on:click__prevent="@get(&#39;/scheduled/"#@
        + escaped(id)
        + r#"/edit&#39;)">"#@
        + ui.icon_markup("pencil"@, 16)
        + r#"</a><form action="/scheduled/"#@
        + escaped(id)
        + r#"/delete" method="post" class="m-0" data-on:submit__prevent="@post(&#39;/scheduled/"#@
        + escaped(id)
        + r#"/delete&#39;, {contentType: &#39;form&#39;})">"#@
        + r#"<button type="submit" class="btn btn-ghost btn-sm btn-square text-error" title=""#@
        + escaped(ui.message("scheduled-delete-title"@))
        + r#"" aria-label=""#@
        + escaped(ui.message("scheduled-delete-title"@))
        + r#"">"#@
        + ui.icon_markup("trash"@, 16)
        + "</button></form></div>"@
}

fn render_row_buttons(ui: &Ui, id: &str, enabled: bool) -> (r: Html)
    ensures
        r@ == row_buttons(ui, id@, enabled),
{
    let title = if enabled {
        ui.t("scheduled-pause-title")
    } else {
        ui.t("scheduled-resume-title")
    };
    Html::new(r#"<div class="flex items-center gap-1 shrink-0"><form action="/scheduled/"#)
        .text(&id)
        .raw(r#"/toggle" method="post" class="m-0" data-on:submit__prevent="@post(&#39;/scheduled/"#)
        .text(&id)
        .raw(r#"/toggle&#39;, {contentType: &#39;form&#39;})">"#)
        .raw(r#"<button type="submit" class="btn btn-ghost btn-sm btn-square" title=""#)
        .text(&title)
        .raw(r#"" aria-label=""#)
        .text(&title)
        .raw(r#"">"#)
        .html(if enabled {
            ui.icon("pause", 16)
        } else {
            ui.icon("play", 16)
        })
        .raw(r#"</button></form><a href="/scheduled/"#)
        .text(&id)
        .raw(r#"/edit" class="btn btn-ghost btn-sm btn-square" title=""#)
        .msg(ui, "scheduled-edit-title")
        .raw(r#"" aria-label=""#)
        .msg(ui, "scheduled-edit-title")
        .raw(r#"" data-on:click__prevent="@get(&#39;/scheduled/"#)
        .text(&id)
        .raw(r#"/edit&#39;)">"#)
        .icon(ui, "pencil", 16)
        .raw(r#"</a><form action="/scheduled/"#)
        .text(&id)
        .raw(r#"/delete" method="post" class="m-0" data-on:submit__prevent="@post(&#39;/scheduled/"#)
        .text(&id)
        .raw(r#"/delete&#39;, {contentType: &#39;form&#39;})">"#)
        .raw(r#"<button type="submit" class="btn btn-ghost btn-sm btn-square text-error" title=""#)
        .msg(ui, "scheduled-delete-title")
        .raw(r#"" aria-label=""#)
        .msg(ui, "scheduled-delete-title")
        .raw(r#"">"#)
        .icon(ui, "trash", 16)
        .raw("</button></form></div>")
}

/// One action of the list.
#[verifier::opaque]
pub open spec fn action_row(ui: &Ui, a: ScheduledAction, texts: RowTexts) -> Seq<char> {
    r#"<li id="sched-row-"#@
        + escaped(a.id@)
        + r#"" class="flex items-start gap-4 py-3"><div class="flex-1 min-w-0">"#@
        + r#"<div class="flex items-center gap-2"><span class="text-sm font-medium text-base-content">"#@
        + escaped(a.name@)
        + "</span>"@
        + (if a.enabled {
            r#"<span class="badge badge-success badge-sm">"#@
                + escaped(ui.message("scheduled-badge-active"@))
                + "</span>"@
        } else {
            r#"<span class="badge badge-ghost badge-sm">"#@
                + escaped(ui.message("scheduled-badge-paused"@))
                + "</span>"@
        })
        + r#"</div><div class="text-xs text-base-content/60 truncate">"#@
        + escaped(prompt_preview(a.prompt@))
        + r#"</div><div class="text-xs text-base-content/70 mt-0.5">"#@
        + escaped(a.model@)
        + " · "@
        + escaped(summary_text(a, texts))
        + " ("@
        + escaped(a.timezone@)
        + r#")</div><div class="text-xs text-base-content/60 mt-0.5 flex flex-wrap items-center gap-x-3">"#@
        + "<span>"@
        + escaped(next_line(ui, a, texts))
        + "</span>"@
        + last_line(ui, a, texts)
        + "</div></div>"@
        + row_buttons(ui, a.id@, a.enabled)
        + "</li>"@
}

/// Renders one action of the list.
pub fn render_action_row(ui: &Ui, a: &ScheduledAction, texts: &RowTexts) -> (r: Html)
    ensures
        r@ == action_row(ui, *a, *texts),
{
    proof {
        reveal(action_row);
    }
    let summary = match &texts.summary {
        Some(s) => s.clone(),
        None => {
            let mut s = "cron: ".to_owned();
            s.append(&a.cron);
            s
        },
    };
    let next = if !a.enabled {
        ui.t("scheduled-status-paused")
    } else {
        match &texts.next {
            Some(when) => ui.t_with("scheduled-next-run", "when", when),
            None => ui.t("scheduled-no-upcoming-run"),
        }
    };
    Html::new(r#"<li id="sched-row-"#)
        .text(&a.id)
        .raw(r#"" class="flex items-start gap-4 py-3"><div class="flex-1 min-w-0">"#)
        .raw(r#"<div class="flex items-center gap-2"><span class="text-sm font-medium text-base-content">"#)
        .text(&a.name)
        .raw("</span>")
        .html(if a.enabled {
            Html::new(r#"<span class="badge badge-success badge-sm">"#)
                .msg(ui, "scheduled-badge-active")
                .raw("</span>")
        } else {
            Html::new(r#"<span class="badge badge-ghost badge-sm">"#)
                .msg(ui, "scheduled-badge-paused")
                .raw("</span>")
        })
        .raw(r#"</div><div class="text-xs text-base-content/60 truncate">"#)
        .text(&preview_prompt(&a.prompt))
        .raw(r#"</div><div class="text-xs text-base-content/70 mt-0.5">"#)
        .text(&a.model)
        .raw(" · ")
        .text(&summary)
        .raw(" (")
        .text(&a.timezone)
        .raw(r#")</div><div class="text-xs text-base-content/60 mt-0.5 flex flex-wrap items-center gap-x-3">"#)
        .raw("<span>")
        .text(&next)
        .raw("</span>")
        .html(render_last_line(ui, a, texts))
        .raw("</div></div>")
        .html(render_row_buttons(ui, &a.id, a.enabled))
        .raw("</li>")
}

/// The actions of the list, in order.
pub open spec fn action_rows(ui: &Ui, actions: Seq<(ScheduledAction, RowTexts)>) -> Seq<char>
    decreases actions.len(),
{
    if actions.len() == 0 {
        Seq::empty()
    } else {
        action_rows(ui, actions.drop_last()) + action_row(ui, actions.last().0, actions.last().1)
    }
}

fn render_action_rows(ui: &Ui, actions: &Vec<(ScheduledAction, RowTexts)>) -> (r: Html)
    ensures
        r@ == action_rows(ui, actions@),
{
    let mut out = Html::empty();
    assert(actions@.take(0) =~= Seq::<(ScheduledAction, RowTexts)>::empty());
    for i in 0..actions.len()
        invariant
            out@ == action_rows(ui, actions@.take(i as int)),
    {
        assert(actions@.take(i + 1).drop_last() =~= actions@.take(i as int));
        out = out.html(render_action_row(ui, &actions[i].0, &actions[i].1));
    }
    assert(actions@.take(actions@.len() as int) =~= actions@);
    out
}

/// The page of scheduled actions: the form for a new one, and the list.
pub open spec fn index_page(
    ui: &Ui,
    actions: Seq<(ScheduledAction, RowTexts)>,
    models: Seq<ChatModelOption>,
    default_tz: Seq<char>,
    preview: Seq<char>,
) -> Seq<char> {
    r#"<div class="max-w-5xl mx-auto w-full px-4 sm:px-6 pt-14 sm:pt-6 pb-6">"#@
        + r#"<h1 class="text-2xl font-bold mb-2">"#@
        + escaped(ui.message("scheduled-heading"@))
        + r#"</h1><p class="text-base-content/60 text-sm mb-6">"#@
        + escaped(ui.message("scheduled-intro"@))
        + "</p>"@
        + action_form(ui, "/scheduled"@, "sched-create-form"@, ui.message("scheduled-create-submit"@), None, models, builder_defaults(default_tz), preview)
        + r#"<section class="card border border-base-300"><div class="card-body"><h2 class="card-title">"#@
        + escaped(ui.message("scheduled-list-heading"@))
        + r#"</h2><ul id="sched-list" class="sched-list flex flex-col divide-y divide-base-300">"#@
        + action_rows(ui, actions)
        + "</ul>"@
        + (if actions.len() == 0 {
            r#"<p class="text-base-content/60 text-sm">"#@
                + escaped(ui.message("scheduled-list-empty"@))
                + "</p>"@
        } else {
            Seq::<char>::empty()
        })
        + "</div></section></div>"@
}

/// Renders the page of scheduled actions around the preview of the default
/// schedule.
pub fn render_index_body(
    ui: &Ui,
    actions: &Vec<(ScheduledAction, RowTexts)>,
    models: &Vec<ChatModelOption>,
    default_tz: &str,
    preview: Html,
) -> (r: Html)
    ensures
        r@ == index_page(ui, actions@, models@, default_tz@, preview@),
{
    let init = BuilderInit::defaults(default_tz);
    let form = render_form(
        ui,
        "/scheduled",
        "sched-create-form",
        &ui.t("scheduled-create-submit"),
        None,
        models,
        &init,
        preview,
    );
    Html::new(r#"<div class="max-w-5xl mx-auto w-full px-4 sm:px-6 pt-14 sm:pt-6 pb-6">"#)
        .raw(r#"<h1 class="text-2xl font-bold mb-2">"#)
        .msg(ui, "scheduled-heading")
        .raw(r#"</h1><p class="text-base-content/60 text-sm mb-6">"#)
        .msg(ui, "scheduled-intro")
        .raw("</p>")
        .html(form)
        .raw(r#"<section class="card border border-base-300"><div class="card-body"><h2 class="card-title">"#)
        .msg(ui, "scheduled-list-heading")
        .raw(r#"</h2><ul id="sched-list" class="sched-list flex flex-col divide-y divide-base-300">"#)
        .html(render_action_rows(ui, actions))
        .raw("</ul>")
        .html(if actions.len() == 0 {
            Html::new(r#"<p class="text-base-content/60 text-sm">"#)
                .msg(ui, "scheduled-list-empty")
                .raw("</p>")
        } else {
            Html::empty()
        })
        .raw("</div></section></div>")
}

/// The page for editing an action: its form, the builder opened on the shape
/// that its expression has.
pub open spec fn edit_page(
    ui: &Ui,
    action: &ScheduledAction,
    models: Seq<ChatModelOption>,
    preview: Seq<char>,
) -> Seq<char> {
    r#"<div class="max-w-5xl mx-auto w-full px-4 sm:px-6 pt-14 sm:pt-6 pb-6">"#@
        + r#"<div class="flex items-center gap-3 mb-4">"#@
        + r#"<a href="/scheduled" class="btn btn-ghost btn-sm""#@
        + r#" data-on:click__prevent="@get(&#39;/scheduled&#39;)">"#@
        + ui.icon_markup("chevron_left"@, 16)
        + escaped(ui.message("scheduled-back"@))
        + r#"</a><h1 class="text-2xl font-bold">"#@
        + escaped(ui.message("scheduled-edit-heading"@))
        + "</h1></div>"@
        + action_form(ui, "/scheduled/"@ + action.id@, "sched-edit-form"@, ui.message("scheduled-save-submit"@), Some(action), models, decomposed(action.cron@, action.timezone@), preview)
        + "</div>"@
}

/// Renders the page for editing an action around the preview of its schedule.
pub fn render_edit_body(
    ui: &Ui,
    action: &ScheduledAction,
    models: &Vec<ChatModelOption>,
    preview: Html,
) -> (r: Html)
    ensures
        r@ == edit_page(ui, action, models@, preview@),
{
    let init = BuilderInit::from_cron(&action.cron, &action.timezone);
    let mut post_url = "/scheduled/".to_owned();
    post_url.append(&action.id);
    let form = render_form(
        ui,
        &post_url,
        "sched-edit-form",
        &ui.t("scheduled-save-submit"),
        Some(action),
        models,
        &init,
        preview,
    );
    Html::new(r#"<div class="max-w-5xl mx-auto w-full px-4 sm:px-6 pt-14 sm:pt-6 pb-6">"#)
        .raw(r#"<div class="flex items-center gap-3 mb-4">"#)
        .raw(r#"<a href="/scheduled" class="btn btn-ghost btn-sm""#)
        .raw(r#" data-on:click__prevent="@get(&#39;/scheduled&#39;)">"#)
        .icon(ui, "chevron_left", 16)
        .msg(ui, "scheduled-back")
        .raw(r#"</a><h1 class="text-2xl font-bold">"#)
        .msg(ui, "scheduled-edit-heading")
        .raw("</h1></div>")
        .html(form)
        .raw("</div>")
}

// ---------------------------------------------------------------------------
// Answers

/// The script that empties the form and brings the builder back to its default:
/// resetting the fields alone would leave the page showing the old mode.
pub open spec fn reset_script() -> Seq<char> {
    "const f = document.getElementById('sched-create-form'); f.reset(); f.querySelector('input[name=mode]:checked')?.dispatchEvent(new Event('change', {bubbles: true})); f.querySelector('input[name=reuse]')?.dispatchEvent(new Event('change', {bubbles: true}));"@
}

/// What the page is told once an action was created.
pub fn created(ui: &Ui, a: &ScheduledAction, texts: &RowTexts) -> (r: Vec<Update>)
    ensures
        views(r@) == seq![
            patch("#sched-list"@, "append"@, action_row(ui, *a, *texts)),
            UpdateView::Script { code: reset_script() },
            toast(FlashKind::Success, ui.message("scheduled-toast-created"@)),
        ],
{
    let row = render_action_row(ui, a, texts).to_string();
    let mut out: Vec<Update> = Vec::new();
    out.push(Update::patch("#sched-list", "append", &row));
    out.push(
        Update::script(
            "const f = document.getElementById('sched-create-form'); f.reset(); f.querySelector('input[name=mode]:checked')?.dispatchEvent(new Event('change', {bubbles: true})); f.querySelector('input[name=reuse]')?.dispatchEvent(new Event('change', {bubbles: true}));",
        ),
    );
    out.push(Update::toast(FlashKind::Success, &ui.t("scheduled-toast-created")));
    assert(views(out@) =~= seq![
        patch("#sched-list"@, "append"@, action_row(ui, *a, *texts)),
        UpdateView::Script { code: reset_script() },
        toast(FlashKind::Success, ui.message("scheduled-toast-created"@)),
    ]);
    out
}

/// What the page is told once an action was paused or resumed: its row in the
/// new state, and a message.
pub fn toggled(ui: &Ui, a: &ScheduledAction, texts: &RowTexts, resume: bool) -> (r: Vec<Update>)
    ensures
        views(r@) == seq![
            patch("#sched-row-"@ + a.id@, "outer"@, action_row(ui, *a, *texts)),
            toast(
                FlashKind::Success,
                if resume {
                    ui.message("scheduled-toast-resumed"@)
                } else {
                    ui.message("scheduled-toast-paused"@)
                },
            ),
        ],
{
    let mut selector = "#sched-row-".to_owned();
    selector.append(&a.id);
    let row = render_action_row(ui, a, texts).to_string();
    let message = if resume {
        ui.t("scheduled-toast-resumed")
    } else {
        ui.t("scheduled-toast-paused")
    };
    pair(Update::patch(&selector, "outer", &row), Update::toast(FlashKind::Success, &message))
}

/// What the page is told of an edit: back to the list, or why not.
pub fn updated(ui: &Ui, outcome: StoreOutcome) -> (r: Vec<Update>)
    ensures
        views(r@) == (match outcome {
            StoreOutcome::Done => seq![
                toast(FlashKind::Success, ui.message("scheduled-toast-updated"@)),
                UpdateView::Script { code: "window.location.assign('/scheduled')"@ },
            ],
            StoreOutcome::NotDone => seq![
                toast(FlashKind::Error, ui.message("scheduled-toast-not-found"@)),
            ],
            StoreOutcome::Failed => seq![
                toast(FlashKind::Error, ui.message("scheduled-toast-update-failed"@)),
            ],
        }),
{
    match outcome {
        StoreOutcome::Done => pair(
            Update::toast(FlashKind::Success, &ui.t("scheduled-toast-updated")),
            Update::script("window.location.assign('/scheduled')"),
        ),
        StoreOutcome::NotDone => only_toast(FlashKind::Error, &ui.t("scheduled-toast-not-found")),
        StoreOutcome::Failed => only_toast(
            FlashKind::Error,
            &ui.t("scheduled-toast-update-failed"),
        ),
    }
}

/// Why an action was not stored, or cannot be shown again.
#[derive(Clone, Copy, PartialEq, Eq, Structural, Debug)]
pub enum Trouble {
    NotFound,
    SaveFailed,
    UpdateFailed,
    RefreshFailed,
}

/// Says what is wrong.
pub fn trouble_notice(trouble: Trouble) -> (r: Notice)
    ensures
        r@ == said(
            false,
            match trouble {
                Trouble::NotFound => "scheduled-toast-not-found"@,
                Trouble::SaveFailed => "scheduled-toast-save-failed"@,
                Trouble::UpdateFailed => "scheduled-toast-update-failed"@,
                Trouble::RefreshFailed => "scheduled-toast-refresh-failed"@,
            },
        ),
{
    let key = match trouble {
        Trouble::NotFound => "scheduled-toast-not-found",
        Trouble::SaveFailed => "scheduled-toast-save-failed",
        Trouble::UpdateFailed => "scheduled-toast-update-failed",
        Trouble::RefreshFailed => "scheduled-toast-refresh-failed",
    };
    Notice::plain(false, key)
}

/// What the page is told of a deletion: the row goes, or why it does not.
pub fn deleted(ui: &Ui, id: &str, outcome: StoreOutcome) -> (r: Vec<Update>)
    ensures
        views(r@) == (match outcome {
            StoreOutcome::Done => seq![
                patch("#sched-row-"@ + id@, "remove"@, ""@),
                toast(FlashKind::Success, ui.message("scheduled-toast-deleted"@)),
            ],
            StoreOutcome::NotDone => seq![
                toast(FlashKind::Info, ui.message("scheduled-toast-already-gone"@)),
            ],
            StoreOutcome::Failed => seq![
                toast(FlashKind::Error, ui.message("scheduled-toast-delete-failed"@)),
            ],
        }),
{
    match outcome {
        StoreOutcome::Done => {
            let mut selector = "#sched-row-".to_owned();
            selector.append(id);
            pair(
                Update::patch(&selector, "remove", ""),
                Update::toast(FlashKind::Success, &ui.t("scheduled-toast-deleted")),
            )
        },
        StoreOutcome::NotDone => only_toast(FlashKind::Info, &ui.t("scheduled-toast-already-gone")),
        StoreOutcome::Failed => only_toast(
            FlashKind::Error,
            &ui.t("scheduled-toast-delete-failed"),
        ),
    }
}

/// What the page is told of the schedule in the form: what it means, or what is
/// wrong with it.
pub fn previewed(html: &Html) -> (r: Vec<Update>)
    ensures
        views(r@) == seq![patch("#schedule-preview"@, "inner"@, html@)],
{
    single(Update::patch("#schedule-preview", "inner", &html.to_string()))
}

// ---------------------------------------------------------------------------
// Laws

/// The parts of an expression are words.
proof fn lemma_word(s: Seq<char>)
    requires
        s == "*"@ || (exists|n: nat| s == #[trigger] decimal(n)),
    ensures
        s.len() > 0,
        free_of(s, true, Seq::empty()),
{
    reveal_strlit("*");
    if s != "*"@ {
        let n = choose|n: nat| s == #[trigger] decimal(n);
        decimal_reads_back(n);
        assert forall|i: int| 0 <= i < s.len() implies !in_class(
            #[trigger] s[i],
            true,
            Seq::empty(),
        ) by {
            assert(is_digit(s[i]));
        }
    }
}

proof fn lemma_digit_text(n: nat)
    ensures
        unsigned_value(decimal(n)) == Some(n as int),
        decimal(n) != "*"@,
{
    decimal_reads_back(n);
    reveal_strlit("*");
    assert(is_digit(decimal(n)[0]));
    assert("*"@[0] == '*');
}

/// A line of four words and a star is five words.
proof fn lemma_line_words(minute: Seq<char>, hour: Seq<char>, dom: Seq<char>, dow: Seq<char>)
    requires
        minute.len() > 0,
        hour.len() > 0,
        dom.len() > 0,
        dow.len() > 0,
        free_of(minute, true, Seq::empty()),
        free_of(hour, true, Seq::empty()),
        free_of(dom, true, Seq::empty()),
        free_of(dow, true, Seq::empty()),
    ensures
        words_of(cron_line(minute, hour, dom, dow)) == seq![minute, hour, dom, "*"@, dow],
{
    lemma_word("*"@);
    let parts = seq![minute, hour, dom, "*"@, dow];
    assert forall|i: int| 0 <= i < parts.len() implies (#[trigger] parts[i]).len() > 0 && free_of(
        parts[i],
        true,
        Seq::empty(),
    ) by {
        assert(i == 0 || i == 1 || i == 2 || i == 3 || i == 4);
    }
    words_undo_join(parts);
}

proof fn lemma_day_list(f: ScheduleFields)
    requires
        f.days().len() > 0,
    ensures
        ({
            let s = joined(day_texts(f.days()), seq![',']);
            &&& s.len() > 0
            &&& free_of(s, true, Seq::empty())
            &&& s != "*"@
            &&& day_list(s) == Some(f.days())
        }),
{
    let days = f.days();
    let parts = day_texts(days);
    let s = joined(parts, seq![',']);
    lemma_days_small(f, 7);
    assert forall|i: int| 0 <= i < parts.len() implies free_of(
        #[trigger] parts[i],
        false,
        seq![','],
    ) && free_of(parts[i], true, Seq::empty()) && parts[i].len() > 0 by {
        decimal_reads_back(days[i] as nat);
        let p = parts[i];
        assert forall|k: int| 0 <= k < p.len() implies !in_class(#[trigger] p[k], false, seq![','])
            && !in_class(p[k], true, Seq::empty()) by {
            assert(is_digit(p[k]));
        }
    }
    assert(seq![','][0] == ',');
    assert(seq![','].contains(','));
    split_undoes_join(parts, ',', false, seq![',']);
    lemma_joined_words(parts);
    assert forall|i: int| 0 <= i < parts.len() implies weekday_of(#[trigger] parts[i]) == Some(
        days[i] as int,
    ) by {
        lemma_digit_text(days[i] as nat);
    }
    assert(all_weekdays(parts));
    lemma_days_named(f, parts, 7);
    // The first character is a digit, so the list is not a star.
    lemma_joined_head(parts);
    decimal_reads_back(days[0] as nat);
    assert(is_digit(parts[0][0]));
    reveal_strlit("*");
    assert("*"@[0] == '*');
}

proof fn lemma_days_small(f: ScheduleFields, n: nat)
    requires
        n <= 7,
    ensures
        forall|i: int| 0 <= i < f.ticked_below(n).len() ==> #[trigger] f.ticked_below(n)[i] < n,
        forall|d: u8| d < n ==> (f.ticked(d) <==> #[trigger] f.ticked_below(n).contains(d)),
    decreases n,
{
    if n > 0 {
        let m = (n - 1) as nat;
        lemma_days_small(f, m);
        let head = f.ticked_below(m);
        let all = f.ticked_below(n);
        assert forall|d: u8| d < n implies (f.ticked(d) <==> #[trigger] all.contains(d)) by {
            if d < m {
                if head.contains(d) {
                    let k = choose|k: int| 0 <= k < head.len() && head[k] == d;
                    assert(all[k] == d);
                }
                if all.contains(d) {
                    let k = choose|k: int| 0 <= k < all.len() && all[k] == d;
                    if k < head.len() {
                        assert(head[k] == d);
                    }
                }
            } else {
                if f.ticked(d) {
                    assert(all[all.len() - 1] == d);
                } else if all.contains(d) {
                    let k = choose|k: int| 0 <= k < all.len() && all[k] == d;
                    assert(head[k] == d);
                }
            }
        }
    }
}

/// Reading the names of the ticked days gives the ticked days.
proof fn lemma_days_named(f: ScheduleFields, parts: Seq<Seq<char>>, n: nat)
    requires
        n <= 7,
        parts == day_texts(f.days()),
    ensures
        days_below(parts, n) == f.ticked_below(n),
    decreases n,
{
    if n > 0 {
        let m = (n - 1) as nat;
        lemma_days_named(f, parts, m);
        lemma_days_small(f, 7);
        let days = f.days();
        if f.ticked(m as u8) {
            assert(days.contains(m as u8));
            let k = choose|k: int| 0 <= k < days.len() && days[k] == m as u8;
            lemma_digit_text(days[k] as nat);
            assert(parts[k] == decimal(m));
            assert(weekday_of(parts[k]) == Some(m as int));
        } else if names_day(parts, m as int) {
            let k = choose|k: int|
                0 <= k < parts.len() && weekday_of(#[trigger] parts[k]) == Some(m as int);
            lemma_digit_text(days[k] as nat);
            assert(parts[k] == decimal(days[k] as nat));
            assert(days[k] == m as u8);
            assert(days.contains(m as u8));
        }
    }
}

/// A list of words with commas between is one word.
proof fn lemma_joined_words(parts: Seq<Seq<char>>)
    requires
        forall|i: int|
            0 <= i < parts.len() ==> free_of(#[trigger] parts[i], true, Seq::empty())
                && parts[i].len() > 0,
    ensures
        free_of(joined(parts, seq![',']), true, Seq::empty()),
        parts.len() > 0 ==> joined(parts, seq![',']).len() > 0,
    decreases parts.len(),
{
    if parts.len() > 1 {
        let d = parts.drop_last();
        assert forall|i: int| 0 <= i < d.len() implies free_of(
            #[trigger] d[i],
            true,
            Seq::empty(),
        ) && d[i].len() > 0 by {
            assert(d[i] == parts[i]);
        }
        lemma_joined_words(d);
        let a = joined(d, seq![',']);
        let b = parts[parts.len() - 1];
        let s = joined(parts, seq![',']);
        assert forall|i: int| 0 <= i < s.len() implies !in_class(
            #[trigger] s[i],
            true,
            Seq::empty(),
        ) by {
            if i < a.len() {
                assert(s[i] == a[i]);
            } else if i == a.len() {
                assert(s[i] == ',');
            } else {
                assert(s[i] == b[i - a.len() - 1]);
            }
        }
    } else if parts.len() == 1 {
        assert(free_of(parts[0], true, Seq::empty()));
    }
}

/// A joined list begins as its first part does.
proof fn lemma_joined_head(parts: Seq<Seq<char>>)
    requires
        parts.len() > 0,
        parts[0].len() > 0,
    ensures
        joined(parts, seq![',']).len() > 0,
        joined(parts, seq![','])[0] == parts[0][0],
    decreases parts.len(),
{
    if parts.len() > 1 {
        lemma_joined_head(parts.drop_last());
    }
}

/// The builder opens on what was entered: taking the expression that the fields
/// of a friendly mode give and reading it back shows the same mode, the same
/// time, and the same weekdays or day of the month.
pub proof fn builder_reads_back(ui: &Ui, f: ScheduleFields, timezone: Seq<char>)
    requires
        assembled(ui, f) is Ok,
        f.mode@ != "advanced"@,
    ensures
        ({
            let b = decomposed(assembled(ui, f)->Ok_0, timezone);
            let minute = ranged(ui, opt_text(f.minute), 0, 59, "scheduled-field-minute"@);
            let hour = ranged(ui, opt_text(f.hour), 0, 23, "scheduled-field-hour"@);
            let dom = ranged(ui, opt_text(f.dom), 1, 31, "scheduled-field-day-of-month"@);
            &&& b.mode == f.mode@
            &&& minute == Ok::<int, NoticeView>(b.minute)
            &&& f.mode@ != "hourly"@ ==> hour == Ok::<int, NoticeView>(b.hour)
            &&& f.mode@ == "weekly"@ ==> b.weekdays == f.days()
            &&& f.mode@ == "monthly"@ ==> dom == Ok::<int, NoticeView>(b.dom)
            &&& b.timezone == timezone
        }),
{
    let minute = ranged(ui, opt_text(f.minute), 0, 59, "scheduled-field-minute"@)->Ok_0 as nat;
    let hour = ranged(ui, opt_text(f.hour), 0, 23, "scheduled-field-hour"@)->Ok_0 as nat;
    let (m, h, star) = (decimal(minute), decimal(hour), "*"@);
    lemma_word(m);
    lemma_word(h);
    lemma_word(star);
    lemma_digit_text(minute);
    lemma_digit_text(hour);
    lemma_star_is_no_number();
    reveal_strlit("hourly");
    reveal_strlit("daily");
    reveal_strlit("weekly");
    reveal_strlit("monthly");
    assert("hourly"@.len() == 6 && "daily"@.len() == 5 && "weekly"@.len() == 6 && "monthly"@.len()
        == 7);
    assert("hourly"@[0] != "weekly"@[0]);
    if f.mode@ == "hourly"@ {
        lemma_line_words(m, star, star, star);
    } else if f.mode@ == "daily"@ {
        lemma_line_words(m, h, star, star);
    } else if f.mode@ == "weekly"@ {
        lemma_day_list(f);
        lemma_line_words(m, h, star, joined(day_texts(f.days()), seq![',']));
    } else {
        let dom = ranged(
            ui,
            opt_text(f.dom),
            1,
            31,
            "scheduled-field-day-of-month"@,
        )->Ok_0 as nat;
        lemma_word(decimal(dom));
        lemma_digit_text(dom);
        lemma_line_words(m, h, decimal(dom), star);
    }
}

proof fn lemma_star_is_no_number()
    ensures
        unsigned_value("*"@) is None,
{
    reveal_strlit("*");
    assert("*"@[0] == '*');
    assert(!is_digit("*"@[0]));
}

/// Whatever the expression, the builder shows numbers that its fields take.
pub proof fn builder_is_in_range(cron: Seq<char>, timezone: Seq<char>)
    ensures
        ({
            let b = decomposed(cron, timezone);
            &&& 0 <= b.minute <= 59
            &&& 0 <= b.hour <= 23
            &&& 1 <= b.dom <= 31
            &&& forall|i: int| 0 <= i < b.weekdays.len() ==> #[trigger] b.weekdays[i] <= 6
        }),
{
    let f = words_of(cron);
    if f.len() == 5 {
        lemma_days_below(split_parts(f[4], false, seq![',']), 7);
    }
}

proof fn lemma_days_below(parts: Seq<Seq<char>>, n: nat)
    requires
        n <= 7,
    ensures
        forall|i: int| 0 <= i < days_below(parts, n).len() ==> #[trigger] days_below(parts, n)[i] < n,
    decreases n,
{
    if n > 0 {
        let head = days_below(parts, (n - 1) as nat);
        lemma_days_below(parts, (n - 1) as nat);
        assert forall|i: int| 0 <= i < days_below(parts, n).len() implies #[trigger] days_below(
            parts,
            n,
        )[i] < n by {
            if i < head.len() {
                assert(days_below(parts, n)[i] == head[i]);
            }
        }
    }
}

/// An advanced expression is stored as it was typed, but for blanks around it, and
/// whatever stands in the other fields.
pub proof fn advanced_is_as_typed(ui: &Ui, f: ScheduleFields)
    requires
        f.mode@ == "advanced"@,
        trimmed(text_or_empty(opt_text(f.advanced))).len() > 0,
    ensures
        assembled(ui, f) == Ok::<Seq<char>, NoticeView>(
            trimmed(text_or_empty(opt_text(f.advanced))),
        ),
{
}

/// An expression that is none of the friendly shapes is kept as it is, and so
/// is one that is: nothing typed is ever lost.
pub proof fn expression_is_kept(cron: Seq<char>, timezone: Seq<char>)
    ensures
        decomposed(cron, timezone).advanced == cron,
        decomposed(cron, timezone).advanced_raw == cron,
{
}

/// A number shown with two digits has two, and reads back as that number.
pub proof fn two_digits_read_back(n: int)
    requires
        0 <= n,
    ensures
        unsigned_value(two_digits(n)) == Some(n),
        trimmed(two_digits(n)) == two_digits(n),
        n <= 99 ==> two_digits(n).len() == 2,
{
    decimal_reads_back(n as nat);
    reveal_strlit("0");
    let d = decimal(n as nat);
    let t = two_digits(n);
    if n < 10 {
        assert(t.drop_last() =~= "0"@);
        assert("0"@.drop_last() =~= Seq::<char>::empty());
        assert(crate::num::digits_value("0"@) == 0) by {
            assert(crate::num::digits_value("0"@.drop_last()) == 0);
        }
        assert(t.last() == d.last());
        assert(d.drop_last() =~= Seq::<char>::empty());
        assert forall|i: int| 0 <= i < t.len() implies is_digit(#[trigger] t[i]) by {
            if i > 0 {
                assert(t[i] == d[i - 1]);
            }
        }
    } else {
        assert(decimal(n as nat / 10).len() >= 1);
        if n <= 99 {
            assert(decimal(n as nat / 10).len() == 1);
        }
    }
    assert(is_digit(t[0]));
    assert(is_digit(t[t.len() - 1]));
}

/// The builder shows a schedule in the fields that it is read from: the hour in the
/// field of the hour, the minute in that of the minute, the day of the month, the
/// time zone and the expression in theirs.
pub proof fn builder_shows_its_fields(ui: &Ui, init: BuilderView, preview: Seq<char>)
    ensures
        ({
            let page = schedule_builder(ui, init, preview);
            &&& shows(
                page,
                r#"<input name="hour" type="number" min="0" max="23" value=""#@ + escaped(
                    two_digits(init.hour),
                ) + r#"" aria-label=""#@,
            )
            &&& shows(
                page,
                r#"<input name="minute" type="number" min="0" max="59" value=""#@ + escaped(
                    two_digits(init.minute),
                ) + r#"" aria-label=""#@,
            )
            &&& shows(
                page,
                r#"<input name="dom" type="number" min="1" max="31" value=""#@ + decimal(
                    init.dom as nat,
                ) + r#"" "#@,
            )
            &&& shows(
                page,
                r#"<input name="timezone" type="text" value=""#@ + escaped(init.timezone)
                    + r#"" placeholder=""#@,
            )
            &&& shows(
                page,
                r#"<input name="advanced" type="text" value=""#@ + escaped(init.advanced)
                    + r#"" "#@,
            )
            &&& shows(
                page,
                r#"<div id="schedule-preview" class="rounded-md bg-base-200 p-3 text-sm">"#@
                    + preview + "</div></div></div>"@,
            )
        }),
{
    broadcast use group_shows;

    assert(ends_in(
        r#"</span></div><input name="dom" type="number" min="1" max="31" value=""#@,
        r#"<input name="dom" type="number" min="1" max="31" value=""#@,
    )) by {
        reveal(ends_in);
        reveal_strlit(r#"</span></div><input name="dom" type="number" min="1" max="31" value=""#);
        reveal_strlit(r#"<input name="dom" type="number" min="1" max="31" value=""#);
        assert(r#"</span></div><input name="dom" type="number" min="1" max="31" value=""#@.skip(13) =~= r#"<input name="dom" type="number" min="1" max="31" value=""#@);
    }
    assert(ends_in(
        r#"</span></div><input name="timezone" type="text" value=""#@,
        r#"<input name="timezone" type="text" value=""#@,
    )) by {
        reveal(ends_in);
        reveal_strlit(r#"</span></div><input name="timezone" type="text" value=""#);
        reveal_strlit(r#"<input name="timezone" type="text" value=""#);
        assert(r#"</span></div><input name="timezone" type="text" value=""#@.skip(13) =~= r#"<input name="timezone" type="text" value=""#@);
    }
    assert(ends_in(
        r#"</span></div><input name="advanced" type="text" value=""#@,
        r#"<input name="advanced" type="text" value=""#@,
    )) by {
        reveal(ends_in);
        reveal_strlit(r#"</span></div><input name="advanced" type="text" value=""#);
        reveal_strlit(r#"<input name="advanced" type="text" value=""#);
        assert(r#"</span></div><input name="advanced" type="text" value=""#@.skip(13) =~= r#"<input name="advanced" type="text" value=""#@);
    }
    assert(ends_in(
        r#"</span></div><div id="schedule-preview" class="rounded-md bg-base-200 p-3 text-sm">"#@,
        r#"<div id="schedule-preview" class="rounded-md bg-base-200 p-3 text-sm">"#@,
    )) by {
        reveal(ends_in);
        reveal_strlit(
            r#"</span></div><div id="schedule-preview" class="rounded-md bg-base-200 p-3 text-sm">"#,
        );
        reveal_strlit(r#"<div id="schedule-preview" class="rounded-md bg-base-200 p-3 text-sm">"#);
        assert(r#"</span></div><div id="schedule-preview" class="rounded-md bg-base-200 p-3 text-sm">"#@.skip(13) =~= r#"<div id="schedule-preview" class="rounded-md bg-base-200 p-3 text-sm">"#@);
    }
    assert(starts_as(
        r#"" data-on:change="@post(&#39;/scheduled/preview&#39;, {contentType: &#39;form&#39;})""#@,
        r#"" "#@,
    )) by {
        reveal(starts_as);
        reveal_strlit(
            r#"" data-on:change="@post(&#39;/scheduled/preview&#39;, {contentType: &#39;form&#39;})""#,
        );
        reveal_strlit(r#"" "#);
        assert(r#"" data-on:change="@post(&#39;/scheduled/preview&#39;, {contentType: &#39;form&#39;})""#@.take(2) =~= r#"" "#@);
    }
    assert(starts_as(
        r#"" placeholder="0 9 * * *" data-on:change="@post(&#39;/scheduled/preview&#39;, {contentType:"#@,
        r#"" "#@,
    )) by {
        reveal(starts_as);
        reveal_strlit(
            r#"" placeholder="0 9 * * *" data-on:change="@post(&#39;/scheduled/preview&#39;, {contentType:"#,
        );
        reveal_strlit(r#"" "#);
        assert(r#"" placeholder="0 9 * * *" data-on:change="@post(&#39;/scheduled/preview&#39;, {contentType:"#@.take(2) =~= r#"" "#@);
    }
}

/// Whether submitted fields are what the builder shows, unchanged.
pub open spec fn is_unchanged(f: ScheduleFields, shown: BuilderView) -> bool {
    &&& f.mode@ == shown.mode
    &&& opt_text(f.minute) == Some(two_digits(shown.minute))
    &&& opt_text(f.hour) == Some(two_digits(shown.hour))
    &&& opt_text(f.dom) == Some(decimal(shown.dom as nat))
    &&& opt_text(f.advanced) == Some(shown.advanced)
    &&& f.wd0 is Some <==> shown.weekdays.contains(0u8)
    &&& f.wd1 is Some <==> shown.weekdays.contains(1u8)
    &&& f.wd2 is Some <==> shown.weekdays.contains(2u8)
    &&& f.wd3 is Some <==> shown.weekdays.contains(3u8)
    &&& f.wd4 is Some <==> shown.weekdays.contains(4u8)
    &&& f.wd5 is Some <==> shown.weekdays.contains(5u8)
    &&& f.wd6 is Some <==> shown.weekdays.contains(6u8)
}

proof fn lemma_ticked_same(f: ScheduleFields, g: ScheduleFields, n: nat)
    requires
        n <= 7,
        forall|d: u8| d < 7 ==> (#[trigger] f.ticked(d) <==> g.ticked(d)),
    ensures
        f.ticked_below(n) == g.ticked_below(n),
    decreases n,
{
    if n > 0 {
        lemma_ticked_same(f, g, (n - 1) as nat);
        assert(f.ticked((n - 1) as u8) <==> g.ticked((n - 1) as u8));
    }
}

/// A number field that shows a number is read as that number.
proof fn lemma_shown_number(ui: &Ui, n: int, min: u8, max: u8, key: Seq<char>)
    requires
        min <= n <= max,
    ensures
        ranged(ui, Some(two_digits(n)), min, max, key) == Ok::<int, NoticeView>(n),
        ranged(ui, Some(decimal(n as nat)), min, max, key) == Ok::<int, NoticeView>(n),
{
    two_digits_read_back(n);
    decimal_reads_back(n as nat);
    let d = decimal(n as nat);
    assert(is_digit(d[0]));
    assert(is_digit(d[d.len() - 1]));
    assert(trimmed(d) == d);
    reveal_strlit("0");
}

/// Opening the form of a schedule and submitting it as it is keeps the schedule: the
/// same expression comes out that went in.
pub proof fn unchanged_builder_keeps_the_expression(
    ui: &Ui,
    entered: ScheduleFields,
    timezone: Seq<char>,
    f: ScheduleFields,
)
    requires
        assembled(ui, entered) is Ok,
        entered.mode@ != "advanced"@,
        is_unchanged(f, decomposed(assembled(ui, entered)->Ok_0, timezone)),
    ensures
        assembled(ui, f) == assembled(ui, entered),
{
    let cron = assembled(ui, entered)->Ok_0;
    let b = decomposed(cron, timezone);
    builder_reads_back(ui, entered, timezone);
    builder_is_in_range(cron, timezone);
    lemma_shown_number(ui, b.minute, 0, 59, "scheduled-field-minute"@);
    lemma_shown_number(ui, b.hour, 0, 23, "scheduled-field-hour"@);
    lemma_shown_number(ui, b.dom, 1, 31, "scheduled-field-day-of-month"@);
    if entered.mode@ == "weekly"@ {
        lemma_days_small(entered, 7);
        assert forall|d: u8| d < 7 implies (#[trigger] f.ticked(d) <==> entered.ticked(d)) by {
            assert(entered.ticked(d) <==> entered.ticked_below(7).contains(d));
        }
        lemma_ticked_same(f, entered, 7);
    }
}

/// A friendly schedule runs when its fields say: the five fields of its expression
/// are the minute, the hour (any in the hourly mode), the day of the month (any
/// except in the monthly mode), any month, and the weekdays (any except in the
/// weekly mode).
pub proof fn expression_says_when(ui: &Ui, f: ScheduleFields, minute: nat, hour: nat, dom: nat)
    requires
        minute <= 59,
        hour <= 23,
        1 <= dom <= 31,
        opt_text(f.minute) == Some(decimal(minute)),
        opt_text(f.hour) == Some(decimal(hour)),
        opt_text(f.dom) == Some(decimal(dom)),
    ensures
        f.mode@ == "hourly"@ ==> assembled(ui, f) is Ok && words_of(assembled(ui, f)->Ok_0)
            == seq![decimal(minute), "*"@, "*"@, "*"@, "*"@],
        f.mode@ == "daily"@ ==> assembled(ui, f) is Ok && words_of(assembled(ui, f)->Ok_0)
            == seq![decimal(minute), decimal(hour), "*"@, "*"@, "*"@],
        f.mode@ == "monthly"@ ==> assembled(ui, f) is Ok && words_of(assembled(ui, f)->Ok_0)
            == seq![decimal(minute), decimal(hour), decimal(dom), "*"@, "*"@],
        f.mode@ == "weekly"@ && f.wd0 is None && f.wd1 is None && f.wd2 is None && f.wd3 is None
            && f.wd4 is None && f.wd5 is None && f.wd6 is None ==> assembled(ui, f) == Err::<
            Seq<char>,
            NoticeView,
        >(said(false, "scheduled-err-pick-weekday"@)),
        f.mode@ == "weekly"@ && f.days().len() > 0 ==> {
            &&& assembled(ui, f) is Ok
            &&& words_of(assembled(ui, f)->Ok_0).take(4) == seq![
                decimal(minute),
                decimal(hour),
                "*"@,
                "*"@,
            ]
            &&& words_of(assembled(ui, f)->Ok_0).len() == 5
            &&& split_parts(words_of(assembled(ui, f)->Ok_0)[4], false, seq![','])
                == f.days().map_values(|d: u8| decimal(d as nat))
        },
{
    lemma_shown_number(ui, minute as int, 0, 59, "scheduled-field-minute"@);
    lemma_shown_number(ui, hour as int, 0, 23, "scheduled-field-hour"@);
    lemma_shown_number(ui, dom as int, 1, 31, "scheduled-field-day-of-month"@);
    lemma_modes_differ();
    let (m, h, star) = (decimal(minute), decimal(hour), "*"@);
    lemma_word(m);
    lemma_word(h);
    lemma_word(decimal(dom));
    lemma_word(star);
    lemma_line_words(m, star, star, star);
    lemma_line_words(m, h, star, star);
    lemma_line_words(m, h, decimal(dom), star);
    if f.mode@ == "weekly"@ {
        if f.days().len() > 0 {
            lemma_day_list(f);
            let parts = day_texts(f.days());
            let list = joined(parts, seq![',']);
            lemma_line_words(m, h, star, list);
            assert(words_of(assembled(ui, f)->Ok_0).take(4) =~= seq![m, h, star, star]);
            assert forall|i: int| 0 <= i < parts.len() implies free_of(
                #[trigger] parts[i],
                false,
                seq![','],
            ) by {
                decimal_reads_back(f.days()[i] as nat);
                let p = parts[i];
                assert forall|k: int| 0 <= k < p.len() implies !in_class(
                    #[trigger] p[k],
                    false,
                    seq![','],
                ) by {
                    assert(is_digit(p[k]));
                }
            }
            assert(seq![','][0] == ',');
            split_undoes_join(parts, ',', false, seq![',']);
        } else {
            lemma_days_small(f, 7);
        }
        lemma_days_small(f, 7);
        if f.wd0 is None && f.wd1 is None && f.wd2 is None && f.wd3 is None && f.wd4 is None
            && f.wd5 is None && f.wd6 is None {
            if f.days().len() > 0 {
                let d = f.days()[0];
                assert(f.days().contains(d));
                assert(f.ticked(d));
            }
        }
    }
}

proof fn lemma_modes_differ()
    ensures
        "hourly"@ != "daily"@,
        "hourly"@ != "weekly"@,
        "hourly"@ != "monthly"@,
        "hourly"@ != "advanced"@,
        "daily"@ != "weekly"@,
        "daily"@ != "monthly"@,
        "daily"@ != "advanced"@,
        "weekly"@ != "monthly"@,
        "weekly"@ != "advanced"@,
        "monthly"@ != "advanced"@,
{
    reveal_strlit("hourly");
    reveal_strlit("daily");
    reveal_strlit("weekly");
    reveal_strlit("monthly");
    reveal_strlit("advanced");
    assert("hourly"@[0] == 'h' && "daily"@[0] == 'd' && "weekly"@[0] == 'w' && "monthly"@[0] == 'm'
        && "advanced"@[0] == 'a');
}

/// The ticked days are those whose boxes are ticked, each once and ascending.
pub proof fn days_are_the_ticked_boxes(f: ScheduleFields)
    ensures
        f.days().contains(0u8) <==> f.wd0 is Some,
        f.days().contains(1u8) <==> f.wd1 is Some,
        f.days().contains(2u8) <==> f.wd2 is Some,
        f.days().contains(3u8) <==> f.wd3 is Some,
        f.days().contains(4u8) <==> f.wd4 is Some,
        f.days().contains(5u8) <==> f.wd5 is Some,
        f.days().contains(6u8) <==> f.wd6 is Some,
        forall|i: int, j: int| 0 <= i < j < f.days().len() ==> f.days()[i] < f.days()[j],
{
    lemma_days_small(f, 7);
    lemma_days_ascend(f, 7);
    assert(f.days() == f.ticked_below(7));
    assert(f.ticked(0u8) <==> f.ticked_below(7).contains(0u8));
    assert(f.ticked(1u8) <==> f.ticked_below(7).contains(1u8));
    assert(f.ticked(2u8) <==> f.ticked_below(7).contains(2u8));
    assert(f.ticked(3u8) <==> f.ticked_below(7).contains(3u8));
    assert(f.ticked(4u8) <==> f.ticked_below(7).contains(4u8));
    assert(f.ticked(5u8) <==> f.ticked_below(7).contains(5u8));
    assert(f.ticked(6u8) <==> f.ticked_below(7).contains(6u8));
}

proof fn lemma_days_ascend(f: ScheduleFields, n: nat)
    requires
        n <= 7,
    ensures
        forall|i: int, j: int|
            0 <= i < j < f.ticked_below(n).len() ==> f.ticked_below(n)[i] < f.ticked_below(n)[j],
    decreases n,
{
    if n > 0 {
        lemma_days_ascend(f, (n - 1) as nat);
        lemma_days_small(f, (n - 1) as nat);
        let head = f.ticked_below((n - 1) as nat);
        let all = f.ticked_below(n);
        assert forall|i: int, j: int| 0 <= i < j < all.len() implies all[i] < all[j] by {
            assert(all[i] == head[i]);
            if j < head.len() {
                assert(all[j] == head[j]);
            }
        }
    }
}

/// A number field takes the numbers of its range as they are, and turns away the
/// others with the range, what is no number with what was typed, and a blank with the
/// name of the field.
pub proof fn number_fields_are_ranged(
    ui: &Ui,
    n: nat,
    min: u8,
    max: u8,
    key: Seq<char>,
    typed: Seq<char>,
)
    requires
        n <= 255,
    ensures
        ranged(ui, Some(decimal(n)), min, max, key) == if min <= n <= max {
            Ok::<int, NoticeView>(n as int)
        } else {
            Err(
                said(false, "scheduled-err-field-range"@).with("field"@, ui.message(key)).with(
                    "min"@,
                    decimal(min as nat),
                ).with("max"@, decimal(max as nat)),
            )
        },
        ranged(ui, None, min, max, key) == Err::<int, NoticeView>(
            said(false, "scheduled-err-enter-field"@).with("field"@, ui.message(key)),
        ),
        trimmed(typed).len() == 0 ==> ranged(ui, Some(typed), min, max, key) == Err::<
            int,
            NoticeView,
        >(said(false, "scheduled-err-enter-field"@).with("field"@, ui.message(key))),
        trimmed(typed).len() > 0 && unsigned_value(trimmed(typed)) is None ==> ranged(
            ui,
            Some(typed),
            min,
            max,
            key,
        ) == Err::<int, NoticeView>(
            said(false, "scheduled-err-invalid-field"@).with("field"@, ui.message(key)).with(
                "value"@,
                trimmed(typed),
            ),
        ),
{
    decimal_reads_back(n);
    let d = decimal(n);
    assert(is_digit(d[0]));
    assert(is_digit(d[d.len() - 1]));
    assert(trimmed(d) == d);
}

/// The number of rounds is what was typed, held between one and fifty; five when
/// nothing was submitted.
pub proof fn rounds_are_bounded(n: int)
    requires
        i64::MIN <= n <= i64::MAX,
    ensures
        1 <= n <= 50 ==> reuse_rounds(Some(signed_decimal(n))) == n,
        n < 1 ==> reuse_rounds(Some(signed_decimal(n))) == 1,
        n > 50 ==> reuse_rounds(Some(signed_decimal(n))) == 50,
        reuse_rounds(None) == 5,
{
    crate::num::signed_decimal_reads_back(n);
    let t = signed_decimal(n);
    if n < 0 {
        decimal_reads_back((-n) as nat);
        assert(t[0] == '-');
        assert(t[t.len() - 1] == decimal((-n) as nat).last());
        assert(is_digit(decimal((-n) as nat)[decimal((-n) as nat).len() - 1]));
    } else {
        decimal_reads_back(n as nat);
        assert(is_digit(t[0]));
        assert(is_digit(t[t.len() - 1]));
    }
    assert(trimmed(t) == t);
}

/// What is stored of a form is what was typed into it, each text in its place and
/// without the blanks around it; a form is stored if and only if its name has one to
/// 128 bytes, its prompt one to 8000, a model is picked, the time zone is known and
/// the schedule can be read.
pub proof fn a_good_form_is_stored_as_typed(
    ui: &Ui,
    form: ActionForm,
    schedule: ScheduleFields,
    known: bool,
)
    ensures
        prepared(ui, form, schedule, known) is Ok <==> {
            &&& 1 <= utf8_len(trimmed(form.name@)) <= 128
            &&& 1 <= utf8_len(trimmed(form.prompt@)) <= 8000
            &&& trimmed(form.model@).len() > 0
            &&& known
            &&& assembled(ui, schedule) is Ok
        },
        prepared(ui, form, schedule, known) matches Ok(p) ==> {
            &&& p.name == trimmed(form.name@)
            &&& p.prompt == trimmed(form.prompt@)
            &&& p.model == trimmed(form.model@)
            &&& p.timezone == trimmed(form.timezone@)
            &&& assembled(ui, schedule) == Ok::<Seq<char>, NoticeView>(p.cron)
        },
{
    crate::text::lemma_bytes(trimmed(form.name@));
    crate::text::lemma_bytes(trimmed(form.prompt@));
}

/// What is wrong with a form is said of the first field that is wrong.
pub proof fn the_first_fault_is_told(
    ui: &Ui,
    form: ActionForm,
    schedule: ScheduleFields,
    known: bool,
)
    ensures
        ({
            let name_ok = 1 <= utf8_len(trimmed(form.name@)) <= 128;
            let prompt_ok = 1 <= utf8_len(trimmed(form.prompt@)) <= 8000;
            let model_ok = trimmed(form.model@).len() > 0;
            let r = prepared(ui, form, schedule, known);
            &&& !name_ok ==> r == Err::<PreparedView, NoticeView>(
                said(false, "scheduled-err-name-length"@),
            )
            &&& name_ok && !prompt_ok ==> r == Err::<PreparedView, NoticeView>(
                said(false, "scheduled-err-prompt-length"@),
            )
            &&& name_ok && prompt_ok && !model_ok ==> r == Err::<PreparedView, NoticeView>(
                said(false, "scheduled-err-pick-model"@),
            )
            &&& name_ok && prompt_ok && model_ok && !known ==> r == Err::<PreparedView, NoticeView>(
                said(false, "scheduled-err-unknown-timezone"@).with(
                    "tz"@,
                    trimmed(form.timezone@),
                ),
            )
            &&& name_ok && prompt_ok && model_ok && known && assembled(ui, schedule) is Err ==> r
                == Err::<PreparedView, NoticeView>(assembled(ui, schedule)->Err_0)
        }),
{
    crate::text::lemma_bytes(trimmed(form.name@));
    crate::text::lemma_bytes(trimmed(form.prompt@));
}

proof fn lemma_form_shows_the_action()
    ensures
        starts_as(
            r#"" method="post" novalidate="novalidate" class="card border border-base-300 mb-6""#@,
            r#"" method="post""#@,
        ),
        ends_in(
            r#"</span></div><input name="name" type="text" required="required" maxlength="128" value=""#@,
            r#"<input name="name" type="text" required="required" maxlength="128" value=""#@,
        ),
        ends_in(
            r#"</span><input name="reuse_rounds" type="number" min="1" max="50" value=""#@,
            r#"<input name="reuse_rounds" type="number" min="1" max="50" value=""#@,
        ),
        shows(
            r#"<input type="checkbox" name="reuse" checked="checked" data-on:change="$reuse ="#@,
            r#"<input type="checkbox" name="reuse" checked="checked""#@,
        ),
        shows(
            r#"<input type="checkbox" name="reuse" data-on:change="$reuse = evt.target.checked""#@,
            r#"<input type="checkbox" name="reuse" data-on:change="#@,
        ),
        ends_in(
            r#"<div class="card-actions justify-end"><button type="submit" class="btn btn-primary">"#@,
            r#"<button type="submit" class="btn btn-primary">"#@,
        ),
        starts_as(
            "</button></div></div></form>"@,
            "</button>"@,
        ),
{
    assert(starts_as(r#"" method="post" novalidate="novalidate" class="card border border-base-300 mb-6""#@, r#"" method="post""#@)) by {
        reveal(starts_as);
        reveal_strlit(r#"" method="post" novalidate="novalidate" class="card border border-base-300 mb-6""#);
        reveal_strlit(r#"" method="post""#);
        assert(r#"" method="post" novalidate="novalidate" class="card border border-base-300 mb-6""#@.take(15) =~= r#"" method="post""#@);
    }
    assert(ends_in(r#"</span></div><input name="name" type="text" required="required" maxlength="128" value=""#@, r#"<input name="name" type="text" required="required" maxlength="128" value=""#@)) by {
        reveal(ends_in);
        reveal_strlit(r#"</span></div><input name="name" type="text" required="required" maxlength="128" value=""#);
        reveal_strlit(r#"<input name="name" type="text" required="required" maxlength="128" value=""#);
        assert(r#"</span></div><input name="name" type="text" required="required" maxlength="128" value=""#@.skip(13) =~= r#"<input name="name" type="text" required="required" maxlength="128" value=""#@);
    }
    assert(ends_in(r#"</span><input name="reuse_rounds" type="number" min="1" max="50" value=""#@, r#"<input name="reuse_rounds" type="number" min="1" max="50" value=""#@)) by {
        reveal(ends_in);
        reveal_strlit(r#"</span><input name="reuse_rounds" type="number" min="1" max="50" value=""#);
        reveal_strlit(r#"<input name="reuse_rounds" type="number" min="1" max="50" value=""#);
        assert(r#"</span><input name="reuse_rounds" type="number" min="1" max="50" value=""#@.skip(7) =~= r#"<input name="reuse_rounds" type="number" min="1" max="50" value=""#@);
    }
    assert(shows(r#"<input type="checkbox" name="reuse" checked="checked" data-on:change="$reuse ="#@, r#"<input type="checkbox" name="reuse" checked="checked""#@)) by {
        reveal(shows);
        reveal_strlit(r#"<input type="checkbox" name="reuse" checked="checked" data-on:change="$reuse ="#);
        reveal_strlit(r#"<input type="checkbox" name="reuse" checked="checked""#);
        assert(r#"<input type="checkbox" name="reuse" checked="checked" data-on:change="$reuse ="#@.subrange(0, 53) =~= r#"<input type="checkbox" name="reuse" checked="checked""#@);
        assert(occurs_at(r#"<input type="checkbox" name="reuse" checked="checked" data-on:change="$reuse ="#@, r#"<input type="checkbox" name="reuse" checked="checked""#@, 0));
    }
    assert(shows(r#"<input type="checkbox" name="reuse" data-on:change="$reuse = evt.target.checked""#@, r#"<input type="checkbox" name="reuse" data-on:change="#@)) by {
        reveal(shows);
        reveal_strlit(r#"<input type="checkbox" name="reuse" data-on:change="$reuse = evt.target.checked""#);
        reveal_strlit(r#"<input type="checkbox" name="reuse" data-on:change="#);
        assert(r#"<input type="checkbox" name="reuse" data-on:change="$reuse = evt.target.checked""#@.subrange(0, 51) =~= r#"<input type="checkbox" name="reuse" data-on:change="#@);
        assert(occurs_at(r#"<input type="checkbox" name="reuse" data-on:change="$reuse = evt.target.checked""#@, r#"<input type="checkbox" name="reuse" data-on:change="#@, 0));
    }
    assert(ends_in(r#"<div class="card-actions justify-end"><button type="submit" class="btn btn-primary">"#@, r#"<button type="submit" class="btn btn-primary">"#@)) by {
        reveal(ends_in);
        reveal_strlit(r#"<div class="card-actions justify-end"><button type="submit" class="btn btn-primary">"#);
        reveal_strlit(r#"<button type="submit" class="btn btn-primary">"#);
        assert(r#"<div class="card-actions justify-end"><button type="submit" class="btn btn-primary">"#@.skip(38) =~= r#"<button type="submit" class="btn btn-primary">"#@);
    }
    assert(starts_as("</button></div></div></form>"@, "</button>"@)) by {
        reveal(starts_as);
        reveal_strlit("</button></div></div></form>");
        reveal_strlit("</button>");
        assert("</button></div></div></form>"@.take(9) =~= "</button>"@);
    }
}

/// The form of an action shows each of its texts in the field that it is read from: the
/// name, the prompt, the number of rounds, and whether tools and the last conversation
/// are used. It is sent to where it says.
pub proof fn form_shows_the_action(ui: &Ui, url: Seq<char>, id: Seq<char>, label: Seq<char>, a: &ScheduledAction, models: Seq<ChatModelOption>, init: BuilderView, preview: Seq<char>)
    ensures
        ({
            let page = action_form(ui, url, id, label, Some(a), models, init, preview);
            &&& shows(page, r#"<form id=""#@ + escaped(id) + r#"" action=""#@ + escaped(url) + r#"" method="post""#@)
            &&& shows(page, r#"<input name="name" type="text" required="required" maxlength="128" value=""#@ + escaped(a.name@) + r#"" placeholder=""#@)
            &&& shows(page, r#"" class="textarea textarea-bordered w-full">"#@ + escaped(a.prompt@) + "</textarea></label>"@)
            &&& shows(page, r#"<input name="reuse_rounds" type="number" min="1" max="50" value=""#@ + signed_decimal(a.reuse_rounds as int) + r#"" aria-label=""#@)
            &&& a.tools_enabled ==> shows(page, r#"<input type="checkbox" name="tools" checked="checked" class="checkbox checkbox-sm">"#@)
            &&& !a.tools_enabled ==> shows(page, r#"<input type="checkbox" name="tools" class="checkbox checkbox-sm">"#@)
            &&& a.reuse_conversation ==> shows(page, r#"<input type="checkbox" name="reuse" checked="checked""#@)
            &&& !a.reuse_conversation ==> shows(page, r#"<input type="checkbox" name="reuse" data-on:change="#@)
            &&& models.len() == 0 ==> shows(page, r#"<input name="model" type="text" required="required" value=""#@ + escaped(a.model@) + r#"" placeholder=""#@)
            &&& shows(page, r#"<button type="submit" class="btn btn-primary">"#@ + escaped(label) + "</button>"@)
        }),
{
    broadcast use group_shows;

    lemma_form_shows_the_action();
}

proof fn lemma_row_shows_the_action()
    ensures
        starts_as(
            r#"" class="flex items-start gap-4 py-3"><div class="flex-1 min-w-0">"#@,
            r#"" class="#@,
        ),
        ends_in(
            r#"<div class="flex items-center gap-2"><span class="text-sm font-medium text-base-content">"#@,
            r#"<span class="text-sm font-medium text-base-content">"#@,
        ),
        ends_in(
            r#"</div><div class="text-xs text-base-content/70 mt-0.5">"#@,
            r#"<div class="text-xs text-base-content/70 mt-0.5">"#@,
        ),
        starts_as(
            r#")</div><div class="text-xs text-base-content/60 mt-0.5 flex flex-wrap items-center gap-x-3">"#@,
            ")</div>"@,
        ),
{
    assert(starts_as(r#"" class="flex items-start gap-4 py-3"><div class="flex-1 min-w-0">"#@, r#"" class="#@)) by {
        reveal(starts_as);
        reveal_strlit(r#"" class="flex items-start gap-4 py-3"><div class="flex-1 min-w-0">"#);
        reveal_strlit(r#"" class="#);
        assert(r#"" class="flex items-start gap-4 py-3"><div class="flex-1 min-w-0">"#@.take(8) =~= r#"" class="#@);
    }
    assert(ends_in(r#"<div class="flex items-center gap-2"><span class="text-sm font-medium text-base-content">"#@, r#"<span class="text-sm font-medium text-base-content">"#@)) by {
        reveal(ends_in);
        reveal_strlit(r#"<div class="flex items-center gap-2"><span class="text-sm font-medium text-base-content">"#);
        reveal_strlit(r#"<span class="text-sm font-medium text-base-content">"#);
        assert(r#"<div class="flex items-center gap-2"><span class="text-sm font-medium text-base-content">"#@.skip(37) =~= r#"<span class="text-sm font-medium text-base-content">"#@);
    }
    assert(ends_in(r#"</div><div class="text-xs text-base-content/70 mt-0.5">"#@, r#"<div class="text-xs text-base-content/70 mt-0.5">"#@)) by {
        reveal(ends_in);
        reveal_strlit(r#"</div><div class="text-xs text-base-content/70 mt-0.5">"#);
        reveal_strlit(r#"<div class="text-xs text-base-content/70 mt-0.5">"#);
        assert(r#"</div><div class="text-xs text-base-content/70 mt-0.5">"#@.skip(6) =~= r#"<div class="text-xs text-base-content/70 mt-0.5">"#@);
    }
    assert(starts_as(r#")</div><div class="text-xs text-base-content/60 mt-0.5 flex flex-wrap items-center gap-x-3">"#@, ")</div>"@)) by {
        reveal(starts_as);
        reveal_strlit(r#")</div><div class="text-xs text-base-content/60 mt-0.5 flex flex-wrap items-center gap-x-3">"#);
        reveal_strlit(")</div>");
        assert(r#")</div><div class="text-xs text-base-content/60 mt-0.5 flex flex-wrap items-center gap-x-3">"#@.take(7) =~= ")</div>"@);
    }
}

/// A row shows the action: its name, its model, its schedule and time zone, when it runs
/// next, whether it is active or paused, and how its last run went.
pub proof fn row_shows_the_action(ui: &Ui, a: ScheduledAction, texts: RowTexts)
    ensures
        ({
            let page = action_row(ui, a, texts);
            &&& shows(page, r#"<li id="sched-row-"#@ + escaped(a.id@) + r#"" class="#@)
            &&& shows(page, r#"<span class="text-sm font-medium text-base-content">"#@ + escaped(a.name@) + "</span>"@)
            &&& shows(page, r#"<div class="text-xs text-base-content/70 mt-0.5">"#@ + escaped(a.model@) + " · "@ + escaped(match texts.summary { Some(s) => s@, None => "cron: "@ + a.cron@ }) + " ("@ + escaped(a.timezone@) + ")</div>"@)
            &&& a.enabled ==> shows(page, r#"<span class="badge badge-success badge-sm">"#@ + escaped(ui.message("scheduled-badge-active"@)) + "</span>"@)
            &&& !a.enabled ==> shows(page, r#"<span class="badge badge-ghost badge-sm">"#@ + escaped(ui.message("scheduled-badge-paused"@)) + "</span>"@)
            &&& !a.enabled ==> shows(page, "<span>"@ + escaped(ui.message("scheduled-status-paused"@)) + "</span>"@)
            &&& a.enabled && texts.next is Some ==> shows(page, "<span>"@ + escaped(ui.message_with("scheduled-next-run"@, "when"@, texts.next->0@)) + "</span>"@)
            &&& a.enabled && texts.next is None ==> shows(page, "<span>"@ + escaped(ui.message("scheduled-no-upcoming-run"@)) + "</span>"@)
        }),
{
    broadcast use group_shows;

    lemma_row_shows_the_action();
    reveal(action_row);
}

/// The last run is told as a success if and only if it ended well, with a link to its
/// conversation where there is one.
pub proof fn row_tells_the_last_run(ui: &Ui, a: ScheduledAction, texts: RowTexts)
    ensures
        ({
            let page = action_row(ui, a, texts);
            let ok = opt_text(a.last_status) == Some("ok"@);
            &&& texts.last is Some && a.last_session_id is Some ==> shows(page, r#"<a href="/chat/"#@ + escaped(a.last_session_id->0@) + r#"" class="link link-hover "#@ + (if ok { "text-success"@ } else { "text-error"@ }) + r#"" data-on:click__prevent="@get(&#39;/chat/"#@ + escaped(a.last_session_id->0@) + r#"&#39;)">"#@ + escaped(ui.message_with(if ok { "scheduled-last-success-open"@ } else { "scheduled-last-failure-open"@ }, "when"@, texts.last->0@)) + "</a>"@)
            &&& texts.last is Some && a.last_session_id is None ==> shows(page, r#"<span class=""#@ + (if ok { "text-success"@ } else { "text-error"@ }) + r#"">"#@ + escaped(ui.message_with(if ok { "scheduled-last-success"@ } else { "scheduled-last-failure"@ }, "when"@, texts.last->0@)) + "</span>"@)
        }),
{
    broadcast use group_shows;

    reveal(action_row);
}

proof fn lemma_row_offers_the_action()
    ensures
        ends_in(
            r#"<div class="flex items-center gap-1 shrink-0"><form action="/scheduled/"#@,
            r#"<form action="/scheduled/"#@,
        ),
        ends_in(
            r#"</a><form action="/scheduled/"#@,
            r#"<form action="/scheduled/"#@,
        ),
        starts_as(
            r#"/toggle" method="post" class="m-0" data-on:submit__prevent="@post(&#39;/scheduled/"#@,
            r#"/toggle" method="post""#@,
        ),
        ends_in(
            r#"</button></form><a href="/scheduled/"#@,
            r#"<a href="/scheduled/"#@,
        ),
        starts_as(
            r#"/edit" class="btn btn-ghost btn-sm btn-square" title=""#@,
            r#"/edit" class="#@,
        ),
        starts_as(
            r#"/delete" method="post" class="m-0" data-on:submit__prevent="@post(&#39;/scheduled/"#@,
            r#"/delete" method="post""#@,
        ),
        starts_as(
            r#"</button></form><a href="/scheduled/"#@,
            "</button></form>"@,
        ),
        starts_as(
            "</button></form></div>"@,
            "</button></form>"@,
        ),
{
    assert(ends_in(r#"<div class="flex items-center gap-1 shrink-0"><form action="/scheduled/"#@, r#"<form action="/scheduled/"#@)) by {
        reveal(ends_in);
        reveal_strlit(r#"<div class="flex items-center gap-1 shrink-0"><form action="/scheduled/"#);
        reveal_strlit(r#"<form action="/scheduled/"#);
        assert(r#"<div class="flex items-center gap-1 shrink-0"><form action="/scheduled/"#@.skip(46) =~= r#"<form action="/scheduled/"#@);
    }
    assert(ends_in(r#"</a><form action="/scheduled/"#@, r#"<form action="/scheduled/"#@)) by {
        reveal(ends_in);
        reveal_strlit(r#"</a><form action="/scheduled/"#);
        reveal_strlit(r#"<form action="/scheduled/"#);
        assert(r#"</a><form action="/scheduled/"#@.skip(4) =~= r#"<form action="/scheduled/"#@);
    }
    assert(starts_as(r#"/toggle" method="post" class="m-0" data-on:submit__prevent="@post(&#39;/scheduled/"#@, r#"/toggle" method="post""#@)) by {
        reveal(starts_as);
        reveal_strlit(r#"/toggle" method="post" class="m-0" data-on:submit__prevent="@post(&#39;/scheduled/"#);
        reveal_strlit(r#"/toggle" method="post""#);
        assert(r#"/toggle" method="post" class="m-0" data-on:submit__prevent="@post(&#39;/scheduled/"#@.take(22) =~= r#"/toggle" method="post""#@);
    }
    assert(ends_in(r#"</button></form><a href="/scheduled/"#@, r#"<a href="/scheduled/"#@)) by {
        reveal(ends_in);
        reveal_strlit(r#"</button></form><a href="/scheduled/"#);
        reveal_strlit(r#"<a href="/scheduled/"#);
        assert(r#"</button></form><a href="/scheduled/"#@.skip(16) =~= r#"<a href="/scheduled/"#@);
    }
    assert(starts_as(r#"/edit" class="btn btn-ghost btn-sm btn-square" title=""#@, r#"/edit" class="#@)) by {
        reveal(starts_as);
        reveal_strlit(r#"/edit" class="btn btn-ghost btn-sm btn-square" title=""#);
        reveal_strlit(r#"/edit" class="#);
        assert(r#"/edit" class="btn btn-ghost btn-sm btn-square" title=""#@.take(13) =~= r#"/edit" class="#@);
    }
    assert(starts_as(r#"/delete" method="post" class="m-0" data-on:submit__prevent="@post(&#39;/scheduled/"#@, r#"/delete" method="post""#@)) by {
        reveal(starts_as);
        reveal_strlit(r#"/delete" method="post" class="m-0" data-on:submit__prevent="@post(&#39;/scheduled/"#);
        reveal_strlit(r#"/delete" method="post""#);
        assert(r#"/delete" method="post" class="m-0" data-on:submit__prevent="@post(&#39;/scheduled/"#@.take(22) =~= r#"/delete" method="post""#@);
    }
    assert(starts_as(r#"</button></form><a href="/scheduled/"#@, "</button></form>"@)) by {
        reveal(starts_as);
        reveal_strlit(r#"</button></form><a href="/scheduled/"#);
        reveal_strlit("</button></form>");
        assert(r#"</button></form><a href="/scheduled/"#@.take(16) =~= "</button></form>"@);
    }
    assert(starts_as("</button></form></div>"@, "</button></form>"@)) by {
        reveal(starts_as);
        reveal_strlit("</button></form></div>");
        reveal_strlit("</button></form>");
        assert("</button></form></div>"@.take(16) =~= "</button></form>"@);
    }
}

/// The buttons of a row are about its action: one pauses it while it is active and resumes
/// it while it is paused, one edits it and one deletes it.
pub proof fn row_offers_the_action(ui: &Ui, a: ScheduledAction, texts: RowTexts)
    ensures
        ({
            let page = action_row(ui, a, texts);
            &&& shows(page, r#"<form action="/scheduled/"#@ + escaped(a.id@) + r#"/toggle" method="post""#@)
            &&& shows(page, r#"<a href="/scheduled/"#@ + escaped(a.id@) + r#"/edit" class="#@)
            &&& shows(page, r#"<form action="/scheduled/"#@ + escaped(a.id@) + r#"/delete" method="post""#@)
            &&& a.enabled ==> shows(page, r#"" aria-label=""#@ + escaped(ui.message("scheduled-pause-title"@)) + r#"">"#@ + ui.icon_markup("pause"@, 16) + "</button></form>"@)
            &&& !a.enabled ==> shows(page, r#"" aria-label=""#@ + escaped(ui.message("scheduled-resume-title"@)) + r#"">"#@ + ui.icon_markup("play"@, 16) + "</button></form>"@)
        }),
{
    broadcast use group_shows;

    lemma_row_offers_the_action();
    reveal(action_row);
}

proof fn lemma_builder_marks_the_mode()
    ensures
        starts_as(
            r#"" checked="checked" data-on:change="$mode = &#39;"#@,
            r#"" checked="checked""#@,
        ),
        starts_as(
            r#"" data-on:change="$mode = &#39;"#@,
            r#"" data-on:change="#@,
        ),
{
    assert(starts_as(r#"" checked="checked" data-on:change="$mode = &#39;"#@, r#"" checked="checked""#@)) by {
        reveal(starts_as);
        reveal_strlit(r#"" checked="checked" data-on:change="$mode = &#39;"#);
        reveal_strlit(r#"" checked="checked""#);
        assert(r#"" checked="checked" data-on:change="$mode = &#39;"#@.take(19) =~= r#"" checked="checked""#@);
    }
    assert(starts_as(r#"" data-on:change="$mode = &#39;"#@, r#"" data-on:change="#@)) by {
        reveal(starts_as);
        reveal_strlit(r#"" data-on:change="$mode = &#39;"#);
        reveal_strlit(r#"" data-on:change="#);
        assert(r#"" data-on:change="$mode = &#39;"#@.take(17) =~= r#"" data-on:change="#@);
    }
}

/// The repeat choice of a builder is ticked, and the others are not.
pub proof fn builder_marks_the_mode(ui: &Ui, init: BuilderView, preview: Seq<char>)
    ensures
        ({
            let page = schedule_builder(ui, init, preview);
            &&& init.mode == "hourly"@ ==> shows(page, r#"<input type="radio" name="mode" value=""#@ + escaped("hourly"@) + r#"" checked="checked""#@)
            &&& init.mode != "hourly"@ ==> shows(page, r#"<input type="radio" name="mode" value=""#@ + escaped("hourly"@) + r#"" data-on:change="#@)
            &&& init.mode == "daily"@ ==> shows(page, r#"<input type="radio" name="mode" value=""#@ + escaped("daily"@) + r#"" checked="checked""#@)
            &&& init.mode != "daily"@ ==> shows(page, r#"<input type="radio" name="mode" value=""#@ + escaped("daily"@) + r#"" data-on:change="#@)
            &&& init.mode == "weekly"@ ==> shows(page, r#"<input type="radio" name="mode" value=""#@ + escaped("weekly"@) + r#"" checked="checked""#@)
            &&& init.mode != "weekly"@ ==> shows(page, r#"<input type="radio" name="mode" value=""#@ + escaped("weekly"@) + r#"" data-on:change="#@)
            &&& init.mode == "monthly"@ ==> shows(page, r#"<input type="radio" name="mode" value=""#@ + escaped("monthly"@) + r#"" checked="checked""#@)
            &&& init.mode != "monthly"@ ==> shows(page, r#"<input type="radio" name="mode" value=""#@ + escaped("monthly"@) + r#"" data-on:change="#@)
            &&& init.mode == "advanced"@ ==> shows(page, r#"<input type="radio" name="mode" value=""#@ + escaped("advanced"@) + r#"" checked="checked""#@)
            &&& init.mode != "advanced"@ ==> shows(page, r#"<input type="radio" name="mode" value=""#@ + escaped("advanced"@) + r#"" data-on:change="#@)
        }),
{
    broadcast use group_shows;

    lemma_builder_marks_the_mode();
}

proof fn lemma_builder_ticks_the_weekdays()
    ensures
        starts_as(
            r#"" checked="checked" data-on:change="@post(&#39;/scheduled/preview&#39;, {contentType:"#@,
            r#"" checked="checked""#@,
        ),
        starts_as(
            r#"" data-on:change="@post(&#39;/scheduled/preview&#39;, {contentType: &#39;form&#39;})""#@,
            r#"" data-on:change="#@,
        ),
{
    assert(starts_as(r#"" checked="checked" data-on:change="@post(&#39;/scheduled/preview&#39;, {contentType:"#@, r#"" checked="checked""#@)) by {
        reveal(starts_as);
        reveal_strlit(r#"" checked="checked" data-on:change="@post(&#39;/scheduled/preview&#39;, {contentType:"#);
        reveal_strlit(r#"" checked="checked""#);
        assert(r#"" checked="checked" data-on:change="@post(&#39;/scheduled/preview&#39;, {contentType:"#@.take(19) =~= r#"" checked="checked""#@);
    }
    assert(starts_as(r#"" data-on:change="@post(&#39;/scheduled/preview&#39;, {contentType: &#39;form&#39;})""#@, r#"" data-on:change="#@)) by {
        reveal(starts_as);
        reveal_strlit(r#"" data-on:change="@post(&#39;/scheduled/preview&#39;, {contentType: &#39;form&#39;})""#);
        reveal_strlit(r#"" data-on:change="#);
        assert(r#"" data-on:change="@post(&#39;/scheduled/preview&#39;, {contentType: &#39;form&#39;})""#@.take(17) =~= r#"" data-on:change="#@);
    }
}

/// The box of a weekday is ticked if and only if the schedule runs on that day.
pub proof fn builder_ticks_the_weekdays(ui: &Ui, init: BuilderView, preview: Seq<char>)
    ensures
        ({
            let page = schedule_builder(ui, init, preview);
            &&& init.weekdays.contains(0u8) ==> shows(page, r#"<input type="checkbox" name="wd"#@ + decimal(0) + r#"" checked="checked""#@)
            &&& !init.weekdays.contains(0u8) ==> shows(page, r#"<input type="checkbox" name="wd"#@ + decimal(0) + r#"" data-on:change="#@)
            &&& init.weekdays.contains(1u8) ==> shows(page, r#"<input type="checkbox" name="wd"#@ + decimal(1) + r#"" checked="checked""#@)
            &&& !init.weekdays.contains(1u8) ==> shows(page, r#"<input type="checkbox" name="wd"#@ + decimal(1) + r#"" data-on:change="#@)
            &&& init.weekdays.contains(2u8) ==> shows(page, r#"<input type="checkbox" name="wd"#@ + decimal(2) + r#"" checked="checked""#@)
            &&& !init.weekdays.contains(2u8) ==> shows(page, r#"<input type="checkbox" name="wd"#@ + decimal(2) + r#"" data-on:change="#@)
            &&& init.weekdays.contains(3u8) ==> shows(page, r#"<input type="checkbox" name="wd"#@ + decimal(3) + r#"" checked="checked""#@)
            &&& !init.weekdays.contains(3u8) ==> shows(page, r#"<input type="checkbox" name="wd"#@ + decimal(3) + r#"" data-on:change="#@)
            &&& init.weekdays.contains(4u8) ==> shows(page, r#"<input type="checkbox" name="wd"#@ + decimal(4) + r#"" checked="checked""#@)
            &&& !init.weekdays.contains(4u8) ==> shows(page, r#"<input type="checkbox" name="wd"#@ + decimal(4) + r#"" data-on:change="#@)
            &&& init.weekdays.contains(5u8) ==> shows(page, r#"<input type="checkbox" name="wd"#@ + decimal(5) + r#"" checked="checked""#@)
            &&& !init.weekdays.contains(5u8) ==> shows(page, r#"<input type="checkbox" name="wd"#@ + decimal(5) + r#"" data-on:change="#@)
            &&& init.weekdays.contains(6u8) ==> shows(page, r#"<input type="checkbox" name="wd"#@ + decimal(6) + r#"" checked="checked""#@)
            &&& !init.weekdays.contains(6u8) ==> shows(page, r#"<input type="checkbox" name="wd"#@ + decimal(6) + r#"" data-on:change="#@)
        }),
{
    broadcast use group_shows;

    lemma_builder_ticks_the_weekdays();
}

/// The next run of a changed action is shown unless the action was not found; a trouble of
/// the preview is shown in its words; and a model is shown by its name, with what it may not
/// be sent.
pub proof fn the_next_run_is_shown(
    ui: &Ui,
    stored: Option<bool>,
    next: Option<Moment>,
    r: Option<Moment>,
    m: ChatModelOption,
    msg: Seq<char>,
)
    requires
        call_ensures(next_after_edit, (stored, next), r),
    ensures
        stored == Some(false) ==> r is None,
        stored != Some(false) ==> r == next,
        m.gdpr && m.nda ==> model_label_text(ui, m) == m.id@,
        !m.gdpr && m.nda ==> model_label_text(ui, m) == ui.message_with(
            "scheduled-model-non-gdpr"@,
            "model"@,
            m.id@,
        ),
        m.gdpr && !m.nda ==> model_label_text(ui, m) == ui.message_with(
            "scheduled-model-nda-restricted"@,
            "model"@,
            m.id@,
        ),
        !m.gdpr && !m.nda ==> model_label_text(ui, m) == ui.message_with(
            "scheduled-model-non-gdpr-nda-restricted"@,
            "model"@,
            m.id@,
        ),
        shows(preview_error(ui, msg), "<span>"@ + escaped(msg) + "</span></div>"@),
{
    broadcast use group_shows;

}

/// A change of an action is told in its words, and a good one leads to the list; a click on a
/// running action stops it and on a stopped one resumes it.
pub proof fn a_changed_action_is_told(
    ui: &Ui,
    done: Vec<Update>,
    gone: Vec<Update>,
    failed: Vec<Update>,
    stopped: bool,
    resumed: bool,
    html: &Html,
    shown: Vec<Update>,
)
    requires
        call_ensures(updated, (ui, StoreOutcome::Done), done),
        call_ensures(updated, (ui, StoreOutcome::NotDone), gone),
        call_ensures(updated, (ui, StoreOutcome::Failed), failed),
        call_ensures(toggle, (true,), stopped),
        call_ensures(toggle, (false,), resumed),
        call_ensures(previewed, (html,), shown),
    ensures
        views(done@) == seq![
            toast(FlashKind::Success, ui.message("scheduled-toast-updated"@)),
            UpdateView::Script { code: "window.location.assign('/scheduled')"@ },
        ],
        views(gone@) == seq![toast(FlashKind::Error, ui.message("scheduled-toast-not-found"@))],
        views(failed@) == seq![
            toast(FlashKind::Error, ui.message("scheduled-toast-update-failed"@)),
        ],
        !stopped,
        resumed,
        views(shown@) == seq![patch("#schedule-preview"@, "inner"@, html@)],
{
}

/// A trouble with an action is told in its words; a run is written at the clock of its zone.
pub proof fn a_trouble_has_its_words(
    missing: Notice,
    unsaved: Notice,
    unchanged: Notice,
    stale: Notice,
    run: Moment,
    offset: i32,
    next: String,
    last: String,
)
    requires
        call_ensures(trouble_notice, (Trouble::NotFound,), missing),
        call_ensures(trouble_notice, (Trouble::SaveFailed,), unsaved),
        call_ensures(trouble_notice, (Trouble::UpdateFailed,), unchanged),
        call_ensures(trouble_notice, (Trouble::RefreshFailed,), stale),
        call_ensures(run_line, (run, offset), next),
        call_ensures(past_run_line, (run, offset), last),
    ensures
        missing@ == said(false, "scheduled-toast-not-found"@),
        unsaved@ == said(false, "scheduled-toast-save-failed"@),
        unchanged@ == said(false, "scheduled-toast-update-failed"@),
        stale@ == said(false, "scheduled-toast-refresh-failed"@),
        next@ == clock_text(run.at() + offset, "%a %b %-d, %H:%M"@),
        last@ == clock_text(run.at() + offset, "%b %-d, %H:%M"@),
{
}

} // verus!
