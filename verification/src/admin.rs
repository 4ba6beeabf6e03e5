//! Per-model defaults: sampling parameters, reasoning, context window, and the
//! model that each feature starts with.
use crate::html::{escaped, Html, Ui};
use crate::integrations::{is_listed, listed};
use crate::notice::Notice;
use crate::num::{parse_i64, show_i64, signed_decimal, signed_value, within};
use crate::text::{
    clone_list, clone_opt, in_order, opt_text, same, same_members, sort, string_or_empty,
    text_or_empty, texts, trim, trimmed,
};
use crate::markup::{ends_in, group_shows, shows, starts_as};
use vstd::prelude::*;

verus! {

// ---------------------------------------------------------------------------
// Features and their default model

/// What a model can be the default for.
#[derive(Clone, Copy, PartialEq, Eq, Structural, Debug)]
pub enum Feature {
    Chat,
    Transcription,
    Image,
    Embedding,
}

/// The feature that a form value names.
pub open spec fn feature_named(s: Seq<char>) -> Option<Feature> {
    if s == "chat"@ {
        Some(Feature::Chat)
    } else if s == "transcription"@ {
        Some(Feature::Transcription)
    } else if s == "image"@ {
        Some(Feature::Image)
    } else if s == "embedding"@ {
        Some(Feature::Embedding)
    } else {
        None
    }
}

impl Feature {
    /// The form value of a feature.
    pub open spec fn name(&self) -> Seq<char> {
        match self {
            Feature::Chat => "chat"@,
            Feature::Transcription => "transcription"@,
            Feature::Image => "image"@,
            Feature::Embedding => "embedding"@,
        }
    }

    /// The message key of a feature's label.
    pub open spec fn label(&self) -> Seq<char> {
        match self {
            Feature::Chat => "admin-defaults-chat-label"@,
            Feature::Transcription => "admin-defaults-voice-label"@,
            Feature::Image => "admin-defaults-image-label"@,
            Feature::Embedding => "admin-defaults-embedding-label"@,
        }
    }

    /// Reads a form value.
    pub fn from_wire(s: &str) -> (r: Option<Feature>)
        ensures
            r == feature_named(s@),
    {
        if same(s, "chat") {
            Some(Feature::Chat)
        } else if same(s, "transcription") {
            Some(Feature::Transcription)
        } else if same(s, "image") {
            Some(Feature::Image)
        } else if same(s, "embedding") {
            Some(Feature::Embedding)
        } else {
            None
        }
    }

    /// The form value of a feature.
    pub fn as_str(&self) -> (r: &'static str)
        ensures
            r@ == self.name(),
    {
        match self {
            Feature::Chat => "chat",
            Feature::Transcription => "transcription",
            Feature::Image => "image",
            Feature::Embedding => "embedding",
        }
    }

    /// The message key of a feature's label.
    pub fn label_key(&self) -> (r: &'static str)
        ensures
            r@ == self.label(),
    {
        match self {
            Feature::Chat => "admin-defaults-chat-label",
            Feature::Transcription => "admin-defaults-voice-label",
            Feature::Image => "admin-defaults-image-label",
            Feature::Embedding => "admin-defaults-embedding-label",
        }
    }
}

/// A feature is read back from its own form value.
pub proof fn feature_reads_back(f: Feature)
    ensures
        feature_named(f.name()) == Some(f),
{
    reveal_strlit("chat");
    reveal_strlit("transcription");
    reveal_strlit("image");
    reveal_strlit("embedding");
    assert("chat"@.len() == 4 && "transcription"@.len() == 13 && "image"@.len() == 5
        && "embedding"@.len() == 9);
}

/// One row of the default-models card: a feature, the models that serve it, and
/// the stored choice, which need not be among them any more.
pub struct FeatureDefaultRow {
    pub feature: Feature,
    pub available: Vec<String>,
    pub current: Option<String>,
}

/// What is known of one feature: the models that serve it, in any order, and
/// the stored choice.
pub struct FeatureModels {
    pub models: Vec<String>,
    pub stored: Option<String>,
}

/// What is known of every feature.
pub struct FeatureStates {
    pub chat: FeatureModels,
    pub transcription: FeatureModels,
    pub image: FeatureModels,
    pub embedding: FeatureModels,
}

/// The features, in the order of the card.
pub open spec fn all_features(s: FeatureStates) -> Seq<(Feature, FeatureModels)> {
    seq![
        (Feature::Chat, s.chat),
        (Feature::Transcription, s.transcription),
        (Feature::Image, s.image),
        (Feature::Embedding, s.embedding),
    ]
}

/// The features that a model serves.
pub open spec fn served(states: Seq<(Feature, FeatureModels)>) -> Seq<(Feature, FeatureModels)>
    decreases states.len(),
{
    if states.len() == 0 {
        Seq::empty()
    } else {
        let head = served(states.drop_last());
        if states.last().1.models@.len() == 0 {
            head
        } else {
            head.push(states.last())
        }
    }
}

/// A row stands for a feature: its models sorted, its stored choice.
pub open spec fn row_of(row: FeatureDefaultRow, state: (Feature, FeatureModels)) -> bool {
    &&& row.feature == state.0
    &&& in_order(texts(row.available@))
    &&& same_members(row.available@, state.1.models@)
    &&& row.current == state.1.stored
}

/// The rows stand for features, one for each and in their order.
pub open spec fn rows_of(
    rows: Seq<FeatureDefaultRow>,
    states: Seq<(Feature, FeatureModels)>,
) -> bool {
    &&& rows.len() == states.len()
    &&& forall|i: int| 0 <= i < rows.len() ==> row_of(#[trigger] rows[i], states[i])
}

fn add_feature(
    out: Vec<FeatureDefaultRow>,
    feature: Feature,
    state: &FeatureModels,
    Ghost(before): Ghost<Seq<(Feature, FeatureModels)>>,
) -> (r: Vec<FeatureDefaultRow>)
    requires
        rows_of(out@, served(before)),
    ensures
        rows_of(r@, served(before.push((feature, *state)))),
{
    assert(before.push((feature, *state)).drop_last() =~= before);
    let mut out = out;
    if state.models.len() > 0 {
        out.push(
            FeatureDefaultRow {
                feature,
                available: sort(clone_list(&state.models)),
                current: clone_opt(&state.stored),
            },
        );
    }
    out
}

/// The rows of the default-models card: chat, transcription, image and embedding,
/// in this order. A feature that no model serves is left out: there is nothing to
/// pick from.
pub fn defaults_rows(states: &FeatureStates) -> (r: Vec<FeatureDefaultRow>)
    ensures
        rows_of(r@, served(all_features(*states))),
{
    let ghost none = Seq::<(Feature, FeatureModels)>::empty();
    let ghost one = none.push((Feature::Chat, states.chat));
    let ghost two = one.push((Feature::Transcription, states.transcription));
    let ghost three = two.push((Feature::Image, states.image));
    let out: Vec<FeatureDefaultRow> = Vec::new();
    let out = add_feature(out, Feature::Chat, &states.chat, Ghost(none));
    let out = add_feature(out, Feature::Transcription, &states.transcription, Ghost(one));
    let out = add_feature(out, Feature::Image, &states.image, Ghost(two));
    let out = add_feature(out, Feature::Embedding, &states.embedding, Ghost(three));
    assert(three.push((Feature::Embedding, states.embedding)) =~= all_features(*states));
    out
}

/// The change of a default that a form asks for: the feature and the model, or
/// no model to clear it.
pub struct DefaultChange {
    pub feature: Feature,
    pub model: Option<String>,
}

/// Reads the form of the default-models card.
pub fn read_default(feature: &str, model: &str) -> (r: Result<DefaultChange, Notice>)
    ensures
        match r {
            Ok(c) => feature_named(feature@) == Some(c.feature) && opt_text(c.model) == (
            if trimmed(model@).len() > 0 {
                Some(trimmed(model@))
            } else {
                None
            }),
            Err(n) => feature_named(feature@) is None && n.says_of(
                false,
                "admin-defaults-unknown-feature"@,
                "feature"@,
                feature@,
            ),
        },
{
    match Feature::from_wire(feature) {
        Some(f) => {
            let m = trim(model);
            Ok(
                DefaultChange {
                    feature: f,
                    model: if m.as_str().is_empty() {
                        None
                    } else {
                        Some(m)
                    },
                },
            )
        },
        None => Err(
            Notice::with(false, "admin-defaults-unknown-feature", "feature", feature),
        ),
    }
}

/// What is said once a default was stored or cleared.
pub fn default_saved(model: &Option<String>) -> (r: Notice)
    ensures
        match model {
            Some(m) => r.says_of(true, "admin-defaults-saved"@, "model"@, m@),
            None => r.says(true, "admin-defaults-cleared"@),
        },
{
    match model {
        Some(m) => Notice::with(true, "admin-defaults-saved", "model", m),
        None => Notice::plain(true, "admin-defaults-cleared"),
    }
}

// ---------------------------------------------------------------------------
// Saving the settings of a model

/// What a defaults form asks for.
#[derive(Clone, Copy, PartialEq, Eq, Structural, Debug)]
pub enum DefaultsPlan {
    /// The text is blank: forget the stored defaults.
    Clear,
    /// Store the text as it was submitted, once it parses.
    Store,
}

/// Reads a defaults form: a model must be named, and a blank text clears.
pub fn plan_defaults(model_name: &str, defaults_toml: &str) -> (r: Result<DefaultsPlan, Notice>)
    ensures
        match r {
            Ok(p) => model_name@.len() > 0 && (p == DefaultsPlan::Clear <==> trimmed(
                defaults_toml@,
            ).len() == 0),
            Err(n) => model_name@.len() == 0 && n.says(false, "admin-missing-model-name"@),
        },
{
    if model_name.is_empty() {
        return Err(Notice::plain(false, "admin-missing-model-name"));
    }
    if trim(defaults_toml).as_str().is_empty() {
        Ok(DefaultsPlan::Clear)
    } else {
        Ok(DefaultsPlan::Store)
    }
}

/// What is said once the defaults were cleared or stored.
pub fn defaults_saved(plan: DefaultsPlan, model_name: &str) -> (r: Notice)
    ensures
        r.says_of(
            true,
            if plan == DefaultsPlan::Clear {
                "admin-cleared-defaults"@
            } else {
                "admin-saved-defaults"@
            },
            "model"@,
            model_name@,
        ),
{
    if plan == DefaultsPlan::Clear {
        Notice::with(true, "admin-cleared-defaults", "model", model_name)
    } else {
        Notice::with(true, "admin-saved-defaults", "model", model_name)
    }
}

/// The reasoning styles that can be stored.
pub open spec fn known_style(s: Seq<char>) -> bool {
    s == "none"@ || s == "qwen"@ || s == "openai"@ || s == "glm"@ || s == "anthropic"@
}

/// Whether a form value leaves the style to detection by name.
pub open spec fn automatic_style(s: Seq<char>) -> bool {
    s.len() == 0 || s == "auto"@
}

/// Reads a reasoning-style form. A blank or `auto` style clears the choice; any
/// other must be a known one.
pub fn read_style(model_name: &str, reasoning_style: &str) -> (r: Result<Option<String>, Notice>)
    ensures
        match r {
            Ok(None) => model_name@.len() > 0 && automatic_style(trimmed(reasoning_style@)),
            Ok(Some(s)) => model_name@.len() > 0 && s@ == trimmed(reasoning_style@)
                && !automatic_style(s@) && known_style(s@),
            Err(n) => if model_name@.len() == 0 {
                n.says(false, "admin-missing-model-name"@)
            } else {
                !automatic_style(trimmed(reasoning_style@)) && !known_style(
                    trimmed(reasoning_style@),
                ) && n.says_of(
                    false,
                    "admin-unknown-reasoning-style"@,
                    "style"@,
                    trimmed(reasoning_style@),
                )
            },
        },
{
    if model_name.is_empty() {
        return Err(Notice::plain(false, "admin-missing-model-name"));
    }
    let s = trim(reasoning_style);
    if s.as_str().is_empty() || same(&s, "auto") {
        Ok(None)
    } else if same(&s, "none") || same(&s, "qwen") || same(&s, "openai") || same(&s, "glm")
        || same(&s, "anthropic") {
        Ok(Some(s))
    } else {
        Err(Notice::with(false, "admin-unknown-reasoning-style", "style", &s))
    }
}

/// A positive number in a text.
pub open spec fn positive(s: Seq<char>) -> Option<int> {
    within(signed_value(s), 1, i64::MAX as int)
}

/// A token count in a form: blank for none, else a positive number.
pub open spec fn valid_count(s: Seq<char>) -> bool {
    trimmed(s).len() == 0 || positive(trimmed(s)) is Some
}

fn read_count(s: &str) -> (r: Result<Option<i64>, String>)
    ensures
        r is Ok <==> valid_count(s@),
        match r {
            Ok(None) => trimmed(s@).len() == 0,
            Ok(Some(n)) => trimmed(s@).len() > 0 && positive(trimmed(s@)) == Some(n as int),
            Err(t) => t@ == trimmed(s@),
        },
{
    let t = trim(s);
    if t.as_str().is_empty() {
        return Ok(None);
    }
    match parse_i64(&t) {
        Some(n) => if n >= 1 {
            Ok(Some(n))
        } else {
            Err(t)
        },
        None => Err(t),
    }
}

/// The number that a valid count stands for.
pub open spec fn count_of(s: Seq<char>) -> Option<int> {
    if trimmed(s).len() == 0 {
        None
    } else {
        positive(trimmed(s))
    }
}

/// The view of an optional number.
pub open spec fn opt_int(n: Option<i64>) -> Option<int> {
    match n {
        Some(v) => Some(v as int),
        None => None,
    }
}

/// An effort level in a form: blank for none, else one of the known levels.
pub open spec fn valid_effort(s: Seq<char>, levels: Seq<String>) -> bool {
    trimmed(s).len() == 0 || listed(levels, trimmed(s))
}

/// The level that a valid effort stands for.
pub open spec fn effort_of(s: Seq<char>) -> Option<Seq<char>> {
    if trimmed(s).len() == 0 {
        None
    } else {
        Some(trimmed(s))
    }
}

fn read_effort(s: &str, levels: &Vec<String>) -> (r: Result<Option<String>, String>)
    ensures
        match r {
            Ok(e) => valid_effort(s@, levels@) && opt_text(e) == effort_of(s@),
            Err(t) => !valid_effort(s@, levels@) && t@ == trimmed(s@),
        },
{
    let t = trim(s);
    if t.as_str().is_empty() {
        Ok(None)
    } else if is_listed(levels, &t) {
        Ok(Some(t))
    } else {
        Err(t)
    }
}

/// The per-effort reasoning form.
pub struct ReasoningBudgetForm {
    pub model_name: String,
    pub budget_standard: String,
    pub budget_deep: String,
    pub budget_max: String,
    pub effort_standard: String,
    pub effort_deep: String,
    pub effort_max: String,
}

/// The per-effort reasoning settings to store; `None` clears a level.
pub struct ReasoningOverrideCols {
    pub budget_standard: Option<i64>,
    pub budget_deep: Option<i64>,
    pub budget_max: Option<i64>,
    pub effort_standard: Option<String>,
    pub effort_deep: Option<String>,
    pub effort_max: Option<String>,
}

/// The first field of the form that is not valid, if any: what is said of it.
pub open spec fn budget_fault(
    form: ReasoningBudgetForm,
    levels: Seq<String>,
) -> Option<(Seq<char>, Seq<char>)> {
    let not_positive = "admin-budget-not-positive"@;
    let unknown = "admin-unknown-reasoning-effort"@;
    if !valid_count(form.budget_standard@) {
        Some((not_positive, trimmed(form.budget_standard@)))
    } else if !valid_count(form.budget_deep@) {
        Some((not_positive, trimmed(form.budget_deep@)))
    } else if !valid_count(form.budget_max@) {
        Some((not_positive, trimmed(form.budget_max@)))
    } else if !valid_effort(form.effort_standard@, levels) {
        Some((unknown, trimmed(form.effort_standard@)))
    } else if !valid_effort(form.effort_deep@, levels) {
        Some((unknown, trimmed(form.effort_deep@)))
    } else if !valid_effort(form.effort_max@, levels) {
        Some((unknown, trimmed(form.effort_max@)))
    } else {
        None
    }
}

fn count_field(s: &str) -> (r: Result<Option<i64>, Notice>)
    ensures
        match r {
            Ok(n) => valid_count(s@) && opt_int(n) == count_of(s@),
            Err(n) => !valid_count(s@) && n.says_of(
                false,
                "admin-budget-not-positive"@,
                "value"@,
                trimmed(s@),
            ),
        },
{
    match read_count(s) {
        Ok(n) => Ok(n),
        Err(t) => Err(Notice::with(false, "admin-budget-not-positive", "value", &t)),
    }
}

fn effort_field(s: &str, levels: &Vec<String>) -> (r: Result<Option<String>, Notice>)
    ensures
        match r {
            Ok(e) => valid_effort(s@, levels@) && opt_text(e) == effort_of(s@),
            Err(n) => !valid_effort(s@, levels@) && n.says_of(
                false,
                "admin-unknown-reasoning-effort"@,
                "value"@,
                trimmed(s@),
            ),
        },
{
    match read_effort(s, levels) {
        Ok(e) => Ok(e),
        Err(t) => Err(Notice::with(false, "admin-unknown-reasoning-effort", "value", &t)),
    }
}

/// Reads the per-effort reasoning form against the known effort levels. Blank
/// fields clear their level; the first field that is not valid is reported and
/// nothing is stored.
pub fn read_budgets(form: &ReasoningBudgetForm, levels: &Vec<String>) -> (r: Result<
    ReasoningOverrideCols,
    Notice,
>)
    ensures
        match r {
            Ok(c) => {
                &&& form.model_name@.len() > 0
                &&& budget_fault(*form, levels@) is None
                &&& opt_int(c.budget_standard) == count_of(form.budget_standard@)
                &&& opt_int(c.budget_deep) == count_of(form.budget_deep@)
                &&& opt_int(c.budget_max) == count_of(form.budget_max@)
                &&& opt_text(c.effort_standard) == effort_of(form.effort_standard@)
                &&& opt_text(c.effort_deep) == effort_of(form.effort_deep@)
                &&& opt_text(c.effort_max) == effort_of(form.effort_max@)
            },
            Err(n) => if form.model_name@.len() == 0 {
                n.says(false, "admin-missing-model-name"@)
            } else {
                budget_fault(*form, levels@) matches Some(f) && n.says_of(
                    false,
                    f.0,
                    "value"@,
                    f.1,
                )
            },
        },
{
    if form.model_name.as_str().is_empty() {
        return Err(Notice::plain(false, "admin-missing-model-name"));
    }
    let budget_standard = match count_field(&form.budget_standard) {
        Ok(n) => n,
        Err(e) => return Err(e),
    };
    let budget_deep = match count_field(&form.budget_deep) {
        Ok(n) => n,
        Err(e) => return Err(e),
    };
    let budget_max = match count_field(&form.budget_max) {
        Ok(n) => n,
        Err(e) => return Err(e),
    };
    let effort_standard = match effort_field(&form.effort_standard, levels) {
        Ok(n) => n,
        Err(e) => return Err(e),
    };
    let effort_deep = match effort_field(&form.effort_deep, levels) {
        Ok(n) => n,
        Err(e) => return Err(e),
    };
    let effort_max = match effort_field(&form.effort_max, levels) {
        Ok(n) => n,
        Err(e) => return Err(e),
    };
    Ok(
        ReasoningOverrideCols {
            budget_standard,
            budget_deep,
            budget_max,
            effort_standard,
            effort_deep,
            effort_max,
        },
    )
}

/// Reads the context-window form: blank clears the window.
pub fn read_window(model_name: &str, context_window: &str) -> (r: Result<Option<i64>, Notice>)
    ensures
        match r {
            Ok(w) => model_name@.len() > 0 && valid_count(context_window@) && opt_int(w)
                == count_of(context_window@),
            Err(n) => if model_name@.len() == 0 {
                n.says(false, "admin-missing-model-name"@)
            } else {
                !valid_count(context_window@) && n.says_of(
                    false,
                    "admin-context-window-invalid"@,
                    "value"@,
                    trimmed(context_window@),
                )
            },
        },
{
    if model_name.is_empty() {
        return Err(Notice::plain(false, "admin-missing-model-name"));
    }
    match read_count(context_window) {
        Ok(w) => Ok(w),
        Err(t) => Err(Notice::with(false, "admin-context-window-invalid", "value", &t)),
    }
}

/// What is said once the reasoning style of a model was saved.
pub fn style_saved(model_name: &str) -> (r: Notice)
    ensures
        r.says_of(true, "admin-saved-reasoning-style"@, "model"@, model_name@),
{
    Notice::with(true, "admin-saved-reasoning-style", "model", model_name)
}

/// What is said once the reasoning budgets of a model were saved.
pub fn budgets_saved(model_name: &str) -> (r: Notice)
    ensures
        r.says_of(true, "admin-saved-reasoning-budget"@, "model"@, model_name@),
{
    Notice::with(true, "admin-saved-reasoning-budget", "model", model_name)
}

/// What kept a form of this page from being saved.
#[derive(Clone, Copy, PartialEq, Eq, Structural, Debug)]
pub enum SaveFault {
    /// It could not be read.
    Malformed,
    /// The defaults are no TOML.
    BadToml,
    /// The stored defaults could not be deleted.
    Delete,
    /// Defaults or a context window could not be stored.
    Upsert,
    /// Anything else could not be stored.
    Database,
}

impl SaveFault {
    /// The message key of a fault.
    pub open spec fn key(self) -> Seq<char> {
        match self {
            SaveFault::Malformed => "admin-malformed-form"@,
            SaveFault::BadToml => "admin-invalid-toml"@,
            SaveFault::Delete => "admin-db-delete-error"@,
            SaveFault::Upsert => "admin-db-upsert-error"@,
            SaveFault::Database => "admin-db-error"@,
        }
    }
}

/// What is said of a fault, with the words of the error.
pub fn save_failed(fault: SaveFault, error: &str) -> (r: Notice)
    ensures
        r.says_of(false, fault.key(), "err"@, error@),
{
    let key = match fault {
        SaveFault::Malformed => "admin-malformed-form",
        SaveFault::BadToml => "admin-invalid-toml",
        SaveFault::Delete => "admin-db-delete-error",
        SaveFault::Upsert => "admin-db-upsert-error",
        SaveFault::Database => "admin-db-error",
    };
    Notice::with(false, key, "err", error)
}

/// What is said once a context window was stored or cleared.
pub fn window_saved(window: Option<i64>, model_name: &str) -> (r: Notice)
    ensures
        r.says_of(
            true,
            if window is Some {
                "admin-context-window-saved"@
            } else {
                "admin-context-window-cleared"@
            },
            "model"@,
            model_name@,
        ),
{
    match window {
        Some(_) => Notice::with(true, "admin-context-window-saved", "model", model_name),
        None => Notice::with(true, "admin-context-window-cleared", "model", model_name),
    }
}

// ---------------------------------------------------------------------------
// The models page

/// The stored settings of a model.
pub struct StoredDefaults {
    pub defaults_toml: String,
    pub reasoning_style: Option<String>,
    pub thinking_budget_standard: Option<i64>,
    pub thinking_budget_deep: Option<i64>,
    pub thinking_budget_max: Option<i64>,
    pub reasoning_effort_standard: Option<String>,
    pub reasoning_effort_deep: Option<String>,
    pub reasoning_effort_max: Option<String>,
    pub context_window: Option<i64>,
}

/// One model as the page shows it; the empty text stands for "not set".
pub struct ModelRow {
    pub name: String,
    pub toml: String,
    pub reasoning_style: String,
    pub budget_standard: Option<i64>,
    pub budget_deep: Option<i64>,
    pub budget_max: Option<i64>,
    pub effort_standard: String,
    pub effort_deep: String,
    pub effort_max: String,
    pub context_window: Option<i64>,
}

/// The row of a model: its stored settings, or nothing set.
pub fn model_row(name: &str, stored: &Option<StoredDefaults>) -> (r: ModelRow)
    ensures
        r.name@ == name@,
        match stored {
            Some(s) => {
                &&& r.toml@ == s.defaults_toml@
                &&& r.reasoning_style@ == text_or_empty(opt_text(s.reasoning_style))
                &&& r.budget_standard == s.thinking_budget_standard
                &&& r.budget_deep == s.thinking_budget_deep
                &&& r.budget_max == s.thinking_budget_max
                &&& r.effort_standard@ == text_or_empty(opt_text(s.reasoning_effort_standard))
                &&& r.effort_deep@ == text_or_empty(opt_text(s.reasoning_effort_deep))
                &&& r.effort_max@ == text_or_empty(opt_text(s.reasoning_effort_max))
                &&& r.context_window == s.context_window
            },
            None => {
                &&& r.toml@.len() == 0
                &&& r.reasoning_style@.len() == 0
                &&& r.budget_standard is None && r.budget_deep is None && r.budget_max is None
                &&& r.effort_standard@.len() == 0 && r.effort_deep@.len() == 0
                &&& r.effort_max@.len() == 0
                &&& r.context_window is None
            },
        },
{
    match stored {
        Some(s) => ModelRow {
            name: name.to_owned(),
            toml: s.defaults_toml.clone(),
            reasoning_style: string_or_empty(&s.reasoning_style),
            budget_standard: s.thinking_budget_standard,
            budget_deep: s.thinking_budget_deep,
            budget_max: s.thinking_budget_max,
            effort_standard: string_or_empty(&s.reasoning_effort_standard),
            effort_deep: string_or_empty(&s.reasoning_effort_deep),
            effort_max: string_or_empty(&s.reasoning_effort_max),
            context_window: s.context_window,
        },
        None => ModelRow {
            name: name.to_owned(),
            toml: String::new(),
            reasoning_style: String::new(),
            budget_standard: None,
            budget_deep: None,
            budget_max: None,
            effort_standard: String::new(),
            effort_deep: String::new(),
            effort_max: String::new(),
            context_window: None,
        },
    }
}

/// An option of a drop-down list.
pub open spec fn choice(value: Seq<char>, label: Seq<char>, selected: bool) -> Seq<char> {
    r#"<option value=""#@ + escaped(value) + (if selected {
        r#"" selected="selected">"#@
    } else {
        r#"">"#@
    }) + escaped(label) + "</option>"@
}

/// Renders an option of a drop-down list.
pub fn render_choice(value: &str, label: &str, selected: bool) -> (r: Html)
    ensures
        r@ == choice(value@, label@, selected),
{
    Html::new(r#"<option value=""#).text(value).html(
        if selected {
            Html::new(r#"" selected="selected">"#)
        } else {
            Html::new(r#"">"#)
        },
    ).text(label).raw("</option>")
}

/// One option per text, labelled with itself; the one equal to `current` is
/// selected.
pub open spec fn choices(values: Seq<String>, current: Option<Seq<char>>) -> Seq<char>
    decreases values.len(),
{
    if values.len() == 0 {
        Seq::empty()
    } else {
        let v = values.last()@;
        choices(values.drop_last(), current) + choice(v, v, current == Some(v))
    }
}

/// Renders one option per text.
pub fn render_choices(values: &Vec<String>, current: Option<&str>) -> (r: Html)
    ensures
        r@ == choices(
            values@,
            match current {
                Some(c) => Some(c@),
                None => None,
            },
        ),
{
    let ghost cur = match current {
        Some(c) => Some(c@),
        None => None,
    };
    let mut out = Html::empty();
    assert(values@.take(0) =~= Seq::<String>::empty());
    for i in 0..values.len()
        invariant
            cur == (match current {
                Some(c) => Some(c@),
                None => None,
            }),
            out@ == choices(values@.take(i as int), cur),
    {
        assert(values@.take(i + 1).drop_last() =~= values@.take(i as int));
        let selected = match current {
            Some(c) => same(c, &values[i]),
            None => false,
        };
        out = out.html(render_choice(&values[i], &values[i], selected));
    }
    assert(values@.take(values@.len() as int) =~= values@);
    out
}

/// The stored choice, if a model still serves it.
pub open spec fn current_served(row: FeatureDefaultRow) -> Option<Seq<char>> {
    match row.current {
        Some(c) => if listed(row.available@, c@) {
            Some(c@)
        } else {
            None
        },
        None => None,
    }
}

/// The options of one feature: "first available", then each model.
pub open spec fn default_options(ui: &Ui, row: FeatureDefaultRow) -> Seq<char> {
    choice(
        Seq::empty(),
        ui.message("admin-defaults-first-option"@),
        current_served(row) is None,
    ) + choices(row.available@, current_served(row))
}

/// The picker of one feature.
#[verifier::opaque]
pub open spec fn default_select(ui: &Ui, row: FeatureDefaultRow) -> Seq<char> {
    r#"<form method="post" action="/admin/models/defaults" class="form-control m-0">"#@
        + r#"<input type="hidden" name="feature" value=""#@
        + escaped(row.feature.name())
        + r#""><span class="label-text text-xs mb-1">"#@
        + escaped(ui.message(row.feature.label()))
        + r#"</span><select name="model" aria-label=""#@
        + escaped(ui.message(row.feature.label()))
        + r#"" data-on:change="@post(&#39;/admin/models/defaults&#39;, {contentType: &#39;form&#39;})""#@
        + r#" class="select select-bordered select-sm w-full">"#@
        + default_options(ui, row)
        + "</select></form>"@
}

fn render_default_select(ui: &Ui, row: &FeatureDefaultRow) -> (r: Html)
    ensures
        r@ == default_select(ui, *row),
{
    proof {
        reveal(default_select);
        reveal_strlit("");
        assert(""@ =~= Seq::<char>::empty());
    }
    let label = ui.t(row.feature.label_key());
    let served: Option<&str> = match &row.current {
        Some(c) => if is_listed(&row.available, c) {
            Some(c.as_str())
        } else {
            None
        },
        None => None,
    };
    let opts = render_choice("", &ui.t("admin-defaults-first-option"), served.is_none()).html(
        render_choices(&row.available, served),
    );
    Html::new(r#"<form method="post" action="/admin/models/defaults" class="form-control m-0">"#)
        .raw(r#"<input type="hidden" name="feature" value=""#)
        .text(row.feature.as_str())
        .raw(r#""><span class="label-text text-xs mb-1">"#)
        .text(&label)
        .raw(r#"</span><select name="model" aria-label=""#)
        .text(&label)
        .raw(r#"" data-on:change="@post(&#39;/admin/models/defaults&#39;, {contentType: &#39;form&#39;})""#)
        .raw(r#" class="select select-bordered select-sm w-full">"#)
        .html(opts)
        .raw("</select></form>")
}

/// The pickers of all features.
pub open spec fn default_selects(ui: &Ui, rows: Seq<FeatureDefaultRow>) -> Seq<char>
    decreases rows.len(),
{
    if rows.len() == 0 {
        Seq::empty()
    } else {
        default_selects(ui, rows.drop_last()) + default_select(ui, rows.last())
    }
}

fn render_default_selects(ui: &Ui, rows: &Vec<FeatureDefaultRow>) -> (r: Html)
    ensures
        r@ == default_selects(ui, rows@),
{
    let mut out = Html::empty();
    assert(rows@.take(0) =~= Seq::<FeatureDefaultRow>::empty());
    for i in 0..rows.len()
        invariant
            out@ == default_selects(ui, rows@.take(i as int)),
    {
        assert(rows@.take(i + 1).drop_last() =~= rows@.take(i as int));
        out = out.html(render_default_select(ui, &rows[i]));
    }
    assert(rows@.take(rows@.len() as int) =~= rows@);
    out
}

/// The default-models card; nothing when no feature has a model.
pub open spec fn defaults_card(ui: &Ui, rows: Seq<FeatureDefaultRow>) -> Seq<char> {
    if rows.len() == 0 {
        Seq::empty()
    } else {
        r#"<article class="card border border-base-300 bg-base-100"><div class="card-body gap-3">"#@
            + r#"<header class="flex flex-col gap-1"><h2 class="card-title text-base">"#@
            + escaped(ui.message("admin-defaults-heading"@))
            + r#"</h2><p class="text-base-content/70 text-sm">"#@
            + escaped(ui.message("admin-defaults-intro"@))
            + r#"</p></header><div class="grid grid-cols-1 md:grid-cols-2 gap-4">"#@
            + default_selects(ui, rows)
            + "</div></div></article>"@
    }
}

/// Renders the default-models card: one self-saving picker per feature.
pub fn render_defaults_card(ui: &Ui, rows: &Vec<FeatureDefaultRow>) -> (r: Html)
    ensures
        r@ == defaults_card(ui, rows@),
{
    if rows.len() == 0 {
        Html::empty()
    } else {
        Html::new(r#"<article class="card border border-base-300 bg-base-100"><div class="card-body gap-3">"#)
            .raw(r#"<header class="flex flex-col gap-1"><h2 class="card-title text-base">"#)
            .msg(ui, "admin-defaults-heading")
            .raw(r#"</h2><p class="text-base-content/70 text-sm">"#)
            .msg(ui, "admin-defaults-intro")
            .raw(r#"</p></header><div class="grid grid-cols-1 md:grid-cols-2 gap-4">"#)
            .html(render_default_selects(ui, rows))
            .raw("</div></div></article>")
    }
}

/// The text of an optional number.
pub open spec fn number_text(n: Option<i64>) -> Seq<char> {
    match n {
        Some(v) => signed_decimal(v as int),
        None => Seq::empty(),
    }
}

fn show_number(n: Option<i64>) -> (r: String)
    ensures
        r@ == number_text(n),
{
    match n {
        Some(v) => show_i64(v),
        None => String::new(),
    }
}

/// The context-window field of a model.
pub open spec fn context_window_field(ui: &Ui, row: ModelRow) -> Seq<char> {
    r#"<form method="post" action="/admin/models/context-window" class="m-0">"#@
        + r#"<input type="hidden" name="model_name" value=""#@
        + escaped(row.name@)
        + r#""><label class="input input-bordered input-xs flex items-center gap-1">"#@
        + r#"<span class="text-xs opacity-70">"#@
        + escaped(ui.message("admin-context-window-label"@))
        + r#"</span><input type="number" name="context_window" value=""#@
        + escaped(number_text(row.context_window))
        + r#"" min="1" placeholder=""#@
        + escaped(ui.message("admin-context-window-placeholder"@))
        + r#"" aria-label=""#@
        + escaped(ui.message("admin-context-window-aria"@))
        + r#"" data-on:change="@post(&#39;/admin/models/context-window&#39;, {contentType:"#@
        + r#" &#39;form&#39;})" class="w-24"><span class="text-xs opacity-70">"#@
        + escaped(ui.message("admin-context-window-unit"@))
        + "</span></label></form>"@
}

/// Renders the context-window field of a model.
pub fn render_context_window(ui: &Ui, row: &ModelRow) -> (r: Html)
    ensures
        r@ == context_window_field(ui, *row),
{
    Html::new(r#"<form method="post" action="/admin/models/context-window" class="m-0">"#)
        .raw(r#"<input type="hidden" name="model_name" value=""#)
        .text(&row.name)
        .raw(r#""><label class="input input-bordered input-xs flex items-center gap-1">"#)
        .raw(r#"<span class="text-xs opacity-70">"#)
        .msg(ui, "admin-context-window-label")
        .raw(r#"</span><input type="number" name="context_window" value=""#)
        .text(&show_number(row.context_window))
        .raw(r#"" min="1" placeholder=""#)
        .msg(ui, "admin-context-window-placeholder")
        .raw(r#"" aria-label=""#)
        .msg(ui, "admin-context-window-aria")
        .raw(r#"" data-on:change="@post(&#39;/admin/models/context-window&#39;, {contentType:"#)
        .raw(r#" &#39;form&#39;})" class="w-24"><span class="text-xs opacity-70">"#)
        .msg(ui, "admin-context-window-unit")
        .raw("</span></label></form>")
}

/// The options of the style picker; the stored style is selected, the empty one
/// when the style is left to detection.
pub open spec fn style_options(ui: &Ui, current: Seq<char>) -> Seq<char> {
    choice(""@, ui.message("admin-reasoning-auto"@), current == ""@) + choice(
        "none"@,
        ui.message("admin-reasoning-none"@),
        current == "none"@,
    ) + choice("qwen"@, ui.message("admin-reasoning-qwen"@), current == "qwen"@) + choice(
        "openai"@,
        ui.message("admin-reasoning-openai"@),
        current == "openai"@,
    ) + choice("glm"@, ui.message("admin-reasoning-glm"@), current == "glm"@) + choice(
        "anthropic"@,
        ui.message("admin-reasoning-anthropic"@),
        current == "anthropic"@,
    )
}

fn render_style_options(ui: &Ui, current: &str) -> (r: Html)
    ensures
        r@ == style_options(ui, current@),
{
    render_choice("", &ui.t("admin-reasoning-auto"), same(current, "")).html(
        render_choice("none", &ui.t("admin-reasoning-none"), same(current, "none")),
    ).html(render_choice("qwen", &ui.t("admin-reasoning-qwen"), same(current, "qwen"))).html(
        render_choice("openai", &ui.t("admin-reasoning-openai"), same(current, "openai")),
    ).html(render_choice("glm", &ui.t("admin-reasoning-glm"), same(current, "glm"))).html(
        render_choice("anthropic", &ui.t("admin-reasoning-anthropic"), same(current, "anthropic")),
    )
}

/// The style picker of a model.
pub open spec fn reasoning_select(ui: &Ui, row: ModelRow) -> Seq<char> {
    r#"<form method="post" action="/admin/models/reasoning" class="m-0">"#@
        + r#"<input type="hidden" name="model_name" value=""#@
        + escaped(row.name@)
        + r#""><select name="reasoning_style" aria-label=""#@
        + escaped(ui.message("admin-reasoning-style-aria"@))
        + r#"" data-on:change="@post(&#39;/admin/models/reasoning&#39;, {contentType: &#39;form&#39;})""#@
        + r#" class="select select-bordered select-xs">"#@
        + style_options(ui, row.reasoning_style@)
        + "</select></form>"@
}

/// Renders the style picker of a model.
pub fn render_reasoning_select(ui: &Ui, row: &ModelRow) -> (r: Html)
    ensures
        r@ == reasoning_select(ui, *row),
{
    Html::new(r#"<form method="post" action="/admin/models/reasoning" class="m-0">"#)
        .raw(r#"<input type="hidden" name="model_name" value=""#)
        .text(&row.name)
        .raw(r#""><select name="reasoning_style" aria-label=""#)
        .msg(ui, "admin-reasoning-style-aria")
        .raw(r#"" data-on:change="@post(&#39;/admin/models/reasoning&#39;, {contentType: &#39;form&#39;})""#)
        .raw(r#" class="select select-bordered select-xs">"#)
        .html(render_style_options(ui, &row.reasoning_style))
        .raw("</select></form>")
}

/// How a model expresses its reasoning, resolved from the stored choice or the
/// model's name.
#[derive(Clone, Copy, PartialEq, Eq, Structural, Debug)]
pub enum ReasoningStyle {
    NoReasoning,
    Qwen,
    OpenAi,
    Glm,
    Anthropic,
}

impl ReasoningStyle {
    /// The styles with a token budget per effort.
    pub open spec fn token_budget(&self) -> bool {
        self is Qwen || self is Anthropic
    }

    /// The styles with a named effort level.
    pub open spec fn effort_level(&self) -> bool {
        self is OpenAi || self is Glm
    }

    /// Whether the style has a token budget per effort.
    pub fn uses_token_budget(&self) -> (r: bool)
        ensures
            r == self.token_budget(),
    {
        match self {
            ReasoningStyle::Qwen => true,
            ReasoningStyle::Anthropic => true,
            _ => false,
        }
    }

    /// Whether the style has a named effort level.
    pub fn uses_effort_level(&self) -> (r: bool)
        ensures
            r == self.effort_level(),
    {
        match self {
            ReasoningStyle::OpenAi => true,
            ReasoningStyle::Glm => true,
            _ => false,
        }
    }
}

/// A token budget.
pub open spec fn budget_field(
    ui: &Ui,
    name: Seq<char>,
    label_key: Seq<char>,
    val: Option<i64>,
) -> Seq<char> {
    r#"<label class="form-control"><span class="label-text text-xs">"#@
        + escaped(ui.message(label_key))
        + r#"</span><input type="number" name=""#@
        + escaped(name)
        + r#"" value=""#@
        + escaped(number_text(val))
        + r#"" min="1" placeholder=""#@
        + escaped(ui.message("admin-budget-placeholder"@))
        + r#"" class="input input-bordered input-xs w-28"></label>"#@
}

fn render_budget_field(ui: &Ui, name: &str, label_key: &str, val: Option<i64>) -> (r: Html)
    ensures
        r@ == budget_field(ui, name@, label_key@, val),
{
    Html::new(r#"<label class="form-control"><span class="label-text text-xs">"#)
        .text(&ui.t(label_key))
        .raw(r#"</span><input type="number" name=""#)
        .text(&name)
        .raw(r#"" value=""#)
        .text(&show_number(val))
        .raw(r#"" min="1" placeholder=""#)
        .msg(ui, "admin-budget-placeholder")
        .raw(r#"" class="input input-bordered input-xs w-28"></label>"#)
}

/// The options of an effort level: the default, then each level.
pub open spec fn effort_options(ui: &Ui, levels: Seq<String>, current: Seq<char>) -> Seq<char> {
    choice(""@, ui.message("admin-effort-default-option"@), current.len() == 0) + choices(
        levels,
        Some(current),
    )
}

/// An effort level.
pub open spec fn effort_select(
    ui: &Ui,
    levels: Seq<String>,
    name: Seq<char>,
    label_key: Seq<char>,
    current: Seq<char>,
) -> Seq<char> {
    r#"<label class="form-control"><span class="label-text text-xs">"#@
        + escaped(ui.message(label_key))
        + r#"</span><select name=""#@
        + escaped(name)
        + r#"" class="select select-bordered select-xs">"#@
        + effort_options(ui, levels, current)
        + "</select></label>"@
}

fn render_effort_select(
    ui: &Ui,
    levels: &Vec<String>,
    name: &str,
    label_key: &str,
    current: &str,
) -> (r: Html)
    ensures
        r@ == effort_select(ui, levels@, name@, label_key@, current@),
{
    let opts = render_choice("", &ui.t("admin-effort-default-option"), current.is_empty()).html(
        render_choices(levels, Some(current)),
    );
    Html::new(r#"<label class="form-control"><span class="label-text text-xs">"#)
        .text(&ui.t(label_key))
        .raw(r#"</span><select name=""#)
        .text(&name)
        .raw(r#"" class="select select-bordered select-xs">"#)
        .html(opts)
        .raw("</select></label>")
}

/// The three controls of a style with token budgets.
pub open spec fn budget_controls(ui: &Ui, row: ModelRow) -> Seq<char> {
    budget_field(ui, "budget_standard"@, "admin-effort-standard"@, row.budget_standard)
        + budget_field(ui, "budget_deep"@, "admin-effort-deep"@, row.budget_deep) + budget_field(
        ui,
        "budget_max"@,
        "admin-effort-max"@,
        row.budget_max,
    )
}

/// The three controls of a style with effort levels.
pub open spec fn effort_controls(ui: &Ui, row: ModelRow, levels: Seq<String>) -> Seq<char> {
    effort_select(
        ui,
        levels,
        "effort_standard"@,
        "admin-effort-standard"@,
        row.effort_standard@,
    ) + effort_select(ui, levels, "effort_deep"@, "admin-effort-deep"@, row.effort_deep@)
        + effort_select(ui, levels, "effort_max"@, "admin-effort-max"@, row.effort_max@)
}

/// The reasoning form of a model around its controls.
pub open spec fn budget_form(ui: &Ui, row: ModelRow, controls: Seq<char>, hint: Seq<char>) -> Seq<
    char,
> {
    r#"<form method="post" action="/admin/models/reasoning-budget""#@
        + r#" data-on:submit__prevent="@post(&#39;/admin/models/reasoning-budget&#39;, {contentType:"#@
        + r#" &#39;form&#39;})" class="flex flex-col gap-2 m-0 border-t border-base-300 pt-3">"#@
        + r#"<input type="hidden" name="model_name" value=""#@
        + escaped(row.name@)
        + r#""><span class="text-xs text-base-content/60">"#@
        + escaped(hint)
        + r#"</span><div class="flex flex-wrap items-end gap-3">"#@
        + controls
        + r#"<button type="submit" class="btn btn-ghost btn-xs ml-auto self-end">"#@
        + ui.icon_markup("check"@, 12)
        + "<span>"@
        + escaped(ui.message("admin-save-reasoning-budget"@))
        + "</span></button></div></form>"@
}

/// The reasoning controls of a model: token budgets or effort levels, as its
/// style has them; nothing for a style without reasoning.
pub open spec fn reasoning_budget(
    ui: &Ui,
    row: ModelRow,
    style: ReasoningStyle,
    levels: Seq<String>,
) -> Seq<char> {
    if style.token_budget() {
        budget_form(ui, row, budget_controls(ui, row), ui.message("admin-budget-hint"@))
    } else if style.effort_level() {
        budget_form(ui, row, effort_controls(ui, row, levels), ui.message("admin-effort-hint"@))
    } else {
        Seq::empty()
    }
}

fn render_budget_form(ui: &Ui, row: &ModelRow, controls: Html, hint: &str) -> (r: Html)
    ensures
        r@ == budget_form(ui, *row, controls@, hint@),
{
    Html::new(r#"<form method="post" action="/admin/models/reasoning-budget""#)
        .raw(r#" data-on:submit__prevent="@post(&#39;/admin/models/reasoning-budget&#39;, {contentType:"#)
        .raw(r#" &#39;form&#39;})" class="flex flex-col gap-2 m-0 border-t border-base-300 pt-3">"#)
        .raw(r#"<input type="hidden" name="model_name" value=""#)
        .text(&row.name)
        .raw(r#""><span class="text-xs text-base-content/60">"#)
        .text(&hint)
        .raw(r#"</span><div class="flex flex-wrap items-end gap-3">"#)
        .html(controls)
        .raw(r#"<button type="submit" class="btn btn-ghost btn-xs ml-auto self-end">"#)
        .icon(ui, "check", 12)
        .raw("<span>")
        .msg(ui, "admin-save-reasoning-budget")
        .raw("</span></button></div></form>")
}

/// Renders the reasoning controls of a model. `style` is the style in effect
/// and `levels` are its effort levels.
pub fn render_reasoning_budget(
    ui: &Ui,
    row: &ModelRow,
    style: ReasoningStyle,
    levels: &Vec<String>,
) -> (r: Html)
    ensures
        r@ == reasoning_budget(ui, *row, style, levels@),
{
    if style.uses_token_budget() {
        let controls = render_budget_field(
            ui,
            "budget_standard",
            "admin-effort-standard",
            row.budget_standard,
        ).html(
            render_budget_field(ui, "budget_deep", "admin-effort-deep", row.budget_deep),
        ).html(render_budget_field(ui, "budget_max", "admin-effort-max", row.budget_max));
        render_budget_form(ui, row, controls, &ui.t("admin-budget-hint"))
    } else if style.uses_effort_level() {
        let controls = render_effort_select(
            ui,
            levels,
            "effort_standard",
            "admin-effort-standard",
            &row.effort_standard,
        ).html(
            render_effort_select(ui, levels, "effort_deep", "admin-effort-deep", &row.effort_deep),
        ).html(
            render_effort_select(ui, levels, "effort_max", "admin-effort-max", &row.effort_max),
        );
        render_budget_form(ui, row, controls, &ui.t("admin-effort-hint"))
    } else {
        Html::empty()
    }
}

/// One model: its name, its pickers and its defaults.
#[verifier::opaque]
pub open spec fn model_card(
    ui: &Ui,
    row: ModelRow,
    style: ReasoningStyle,
    levels: Seq<String>,
) -> Seq<char> {
    r#"<article class="card border border-base-300 bg-base-100"><div class="card-body gap-3">"#@
        + r#"<header class="flex items-center justify-between gap-3 flex-wrap">"#@
        + r#"<h2 class="card-title text-base font-mono break-all">"#@
        + escaped(row.name@)
        + r#"</h2><div class="flex items-center gap-2 flex-wrap">"#@
        + context_window_field(ui, row)
        + reasoning_select(ui, row)
        + "</div></header>"@
        + reasoning_budget(ui, row, style, levels)
        + r#"<form method="post" action="/admin/models""#@
        + r#" data-on:submit__prevent="@post(&#39;/admin/models&#39;, {contentType: &#39;form&#39;})""#@
        + r#" class="flex flex-col gap-2 m-0"><input type="hidden" name="model_name" value=""#@
        + escaped(row.name@)
        + r#""><label class="label sr-only" for="toml-"#@
        + escaped(row.name@)
        + r#"">"#@
        + escaped(ui.message("admin-toml-defaults-label"@))
        + r#"</label><textarea id="toml-"#@
        + escaped(row.name@)
        + r#"" name="defaults_toml" class="textarea textarea-bordered font-mono text-sm w-full"#@
        + r#" leading-relaxed" rows="11" spellcheck="false" placeholder=""#@
        + escaped(ui.message("admin-toml-placeholder-header"@))
        + "\n# temperature      = 0.7\n# top_p            = 0.95\n# top_k            = 40\n# min_p        "@
        + "    = 0.05\n# repeat_penalty   = 1.1\n# frequency_penalty= 0.0\n# presence_penalty = 0.0\n#"@
        + " max_tokens       = 2048\n# stop             = [&quot;&lt;|im_end|&gt;&quot;]\n\">"@
        + escaped(row.toml@)
        + r#"</textarea><div class="flex justify-end">"#@
        + r#"<button type="submit" class="btn btn-primary btn-sm">"#@
        + ui.icon_markup("check"@, 14)
        + "<span>"@
        + escaped(ui.message("admin-save"@))
        + "</span></button></div></form></div></article>"@
}

/// Renders one model.
pub fn render_model_card(
    ui: &Ui,
    row: &ModelRow,
    style: ReasoningStyle,
    levels: &Vec<String>,
) -> (r: Html)
    ensures
        r@ == model_card(ui, *row, style, levels@),
{
    proof {
        reveal(model_card);
    }
    Html::new(r#"<article class="card border border-base-300 bg-base-100"><div class="card-body gap-3">"#)
        .raw(r#"<header class="flex items-center justify-between gap-3 flex-wrap">"#)
        .raw(r#"<h2 class="card-title text-base font-mono break-all">"#)
        .text(&row.name)
        .raw(r#"</h2><div class="flex items-center gap-2 flex-wrap">"#)
        .html(render_context_window(ui, row))
        .html(render_reasoning_select(ui, row))
        .raw("</div></header>")
        .html(render_reasoning_budget(ui, row, style, levels))
        .raw(r#"<form method="post" action="/admin/models""#)
        .raw(r#" data-on:submit__prevent="@post(&#39;/admin/models&#39;, {contentType: &#39;form&#39;})""#)
        .raw(r#" class="flex flex-col gap-2 m-0"><input type="hidden" name="model_name" value=""#)
        .text(&row.name)
        .raw(r#""><label class="label sr-only" for="toml-"#)
        .text(&row.name)
        .raw(r#"">"#)
        .msg(ui, "admin-toml-defaults-label")
        .raw(r#"</label><textarea id="toml-"#)
        .text(&row.name)
        .raw(r#"" name="defaults_toml" class="textarea textarea-bordered font-mono text-sm w-full"#)
        .raw(r#" leading-relaxed" rows="11" spellcheck="false" placeholder=""#)
        .msg(ui, "admin-toml-placeholder-header")
        .raw("\n# temperature      = 0.7\n# top_p            = 0.95\n# top_k            = 40\n# min_p        ")
        .raw("    = 0.05\n# repeat_penalty   = 1.1\n# frequency_penalty= 0.0\n# presence_penalty = 0.0\n#")
        .raw(" max_tokens       = 2048\n# stop             = [&quot;&lt;|im_end|&gt;&quot;]\n\">")
        .text(&row.toml)
        .raw(r#"</textarea><div class="flex justify-end">"#)
        .raw(r#"<button type="submit" class="btn btn-primary btn-sm">"#)
        .icon(ui, "check", 14)
        .raw("<span>")
        .msg(ui, "admin-save")
        .raw("</span></button></div></form></div></article>")
}

/// A model of the page: its settings, and what its style of reasoning offers.
pub struct ModelEntry {
    pub row: ModelRow,
    pub style: ReasoningStyle,
    pub levels: Vec<String>,
}

/// The cards of the models, one for each and in their order.
pub open spec fn model_cards(ui: &Ui, models: Seq<ModelEntry>) -> Seq<char>
    decreases models.len(),
{
    if models.len() == 0 {
        Seq::empty()
    } else {
        let m = models.last();
        model_cards(ui, models.drop_last()) + model_card(ui, m.row, m.style, m.levels@)
    }
}

fn render_model_cards(ui: &Ui, models: &Vec<ModelEntry>) -> (r: Html)
    ensures
        r@ == model_cards(ui, models@),
{
    let mut out = Html::empty();
    assert(models@.take(0) =~= Seq::<ModelEntry>::empty());
    for i in 0..models.len()
        invariant
            out@ == model_cards(ui, models@.take(i as int)),
    {
        assert(models@.take(i + 1).drop_last() =~= models@.take(i as int));
        let m = &models[i];
        out = out.html(render_model_card(ui, &m.row, m.style, &m.levels));
    }
    assert(models@.take(models@.len() as int) =~= models@);
    out
}

/// The models page.
pub open spec fn models_page(
    ui: &Ui,
    defaults: Seq<FeatureDefaultRow>,
    models: Seq<ModelEntry>,
) -> Seq<char> {
    r#"<section class="max-w-5xl mx-auto p-4 sm:p-6 flex flex-col gap-4">"#@
        + r#"<header class="flex flex-col gap-1"><h1 class="text-2xl font-bold">"#@
        + escaped(ui.message("admin-heading"@))
        + r#"</h1><p class="text-base-content/70 text-sm">"#@
        + escaped(ui.message("admin-intro-prefix"@))
        + " <strong>"@
        + escaped(ui.message("admin-intro-every"@))
        + "</strong> "@
        + escaped(ui.message("admin-intro-middle"@))
        + " <strong>"@
        + escaped(ui.message("admin-intro-always-wins"@))
        + "</strong>"@
        + escaped(ui.message("admin-intro-suffix"@))
        + "</p></header>"@
        + defaults_card(ui, defaults)
        + (if models.len() == 0 {
            r#"<div class="alert">"#@
                + ui.icon_markup("info"@, 18)
                + "<span>"@
                + escaped(ui.message("admin-no-models"@))
                + "</span></div>"@
        } else {
            r#"<div class="flex flex-col gap-4">"#@
                + model_cards(ui, models)
                + "</div>"@
        })
        + "</section>"@
}

/// Renders the models page.
pub fn render_models_body(
    ui: &Ui,
    defaults: &Vec<FeatureDefaultRow>,
    models: &Vec<ModelEntry>,
) -> (r: Html)
    ensures
        r@ == models_page(ui, defaults@, models@),
{
    Html::new(r#"<section class="max-w-5xl mx-auto p-4 sm:p-6 flex flex-col gap-4">"#)
        .raw(r#"<header class="flex flex-col gap-1"><h1 class="text-2xl font-bold">"#)
        .msg(ui, "admin-heading")
        .raw(r#"</h1><p class="text-base-content/70 text-sm">"#)
        .msg(ui, "admin-intro-prefix")
        .raw(" <strong>")
        .msg(ui, "admin-intro-every")
        .raw("</strong> ")
        .msg(ui, "admin-intro-middle")
        .raw(" <strong>")
        .msg(ui, "admin-intro-always-wins")
        .raw("</strong>")
        .msg(ui, "admin-intro-suffix")
        .raw("</p></header>")
        .html(render_defaults_card(ui, defaults))
        .html(if models.len() == 0 {
            Html::new(r#"<div class="alert">"#)
                .icon(ui, "info", 18)
                .raw("<span>")
                .msg(ui, "admin-no-models")
                .raw("</span></div>")
        } else {
            Html::new(r#"<div class="flex flex-col gap-4">"#)
                .html(render_model_cards(ui, models))
                .raw("</div>")
        })
        .raw("</section>")
}

// ---------------------------------------------------------------------------
// Laws

/// An option has its value and its label, and is marked if and only if it is picked.
pub proof fn a_choice_is_marked_when_picked(value: Seq<char>, label: Seq<char>, selected: bool)
    ensures
        ({
            let page = choice(value, label, selected);
            &&& selected ==> shows(page, r#"<option value=""#@ + escaped(value) + r#"" selected="selected">"#@ + escaped(label) + "</option>"@)
            &&& !selected ==> shows(page, r#"<option value=""#@ + escaped(value) + r#"">"#@ + escaped(label) + "</option>"@)
        }),
{
    broadcast use group_shows;

}

/// Every value of a list is offered under its own name, and the current one is marked.
pub proof fn every_value_is_offered(values: Seq<String>, current: Option<Seq<char>>, i: int)
    requires
        0 <= i < values.len(),
    ensures
        shows(
            choices(values, current),
            choice(values[i]@, values[i]@, current == Some(values[i]@)),
        ),
    decreases values.len(),
{
    broadcast use group_shows;

    if i < values.len() - 1 {
        every_value_is_offered(values.drop_last(), current, i);
    }
}

/// The features are called by their names, and their labels are their own.
pub proof fn features_have_their_names()
    ensures
        feature_named("chat"@) == Some(Feature::Chat),
        feature_named("transcription"@) == Some(Feature::Transcription),
        feature_named("image"@) == Some(Feature::Image),
        feature_named("embedding"@) == Some(Feature::Embedding),
        Feature::Chat.name() == "chat"@,
        Feature::Transcription.name() == "transcription"@,
        Feature::Image.name() == "image"@,
        Feature::Embedding.name() == "embedding"@,
        Feature::Chat.label() == "admin-defaults-chat-label"@,
        Feature::Transcription.label() == "admin-defaults-voice-label"@,
        Feature::Image.label() == "admin-defaults-image-label"@,
        Feature::Embedding.label() == "admin-defaults-embedding-label"@,
        forall|s: Seq<char>|
            s != "chat"@ && s != "transcription"@ && s != "image"@ && s != "embedding"@
                ==> #[trigger] feature_named(s) is None,
{
    reveal_strlit("chat");
    reveal_strlit("transcription");
    reveal_strlit("image");
    reveal_strlit("embedding");
    assert("chat"@.len() == 4 && "transcription"@.len() == 13 && "image"@.len() == 5
        && "embedding"@.len() == 9);
}

/// A change of a default is of the feature that was named, to the model that was named
/// or to none; an unknown feature is told.
pub proof fn a_default_is_changed_as_asked(
    feature: &str,
    model: &str,
    r: Result<DefaultChange, Notice>,
)
    requires
        call_ensures(read_default, (feature, model), r),
    ensures
        feature@ == "chat"@ ==> r is Ok && r->Ok_0.feature == Feature::Chat,
        feature@ == "transcription"@ ==> r is Ok && r->Ok_0.feature == Feature::Transcription,
        feature@ == "image"@ ==> r is Ok && r->Ok_0.feature == Feature::Image,
        feature@ == "embedding"@ ==> r is Ok && r->Ok_0.feature == Feature::Embedding,
        r matches Ok(c) ==> {
            &&& trimmed(model@).len() > 0 ==> opt_text(c.model) == Some(trimmed(model@))
            &&& trimmed(model@).len() == 0 ==> c.model is None
        },
        r matches Err(n) ==> n.says_of(
            false,
            "admin-defaults-unknown-feature"@,
            "feature"@,
            feature@,
        ),
{
    features_have_their_names();
}

/// There is a default to pick for exactly the features that some model serves: among
/// those models, in alphabetical order, with the stored one as the current one.
pub proof fn defaults_are_of_the_served_features(
    states: &FeatureStates,
    rows: Vec<FeatureDefaultRow>,
    i: int,
)
    requires
        call_ensures(defaults_rows, (states,), rows),
        0 <= i < rows@.len(),
    ensures
        ({
            let row = rows@[i];
            let state = match row.feature {
                Feature::Chat => states.chat,
                Feature::Transcription => states.transcription,
                Feature::Image => states.image,
                Feature::Embedding => states.embedding,
            };
            &&& state.models@.len() > 0
            &&& row.current == state.stored
            &&& in_order(texts(row.available@))
            &&& same_members(row.available@, state.models@)
        }),
{
    reveal_with_fuel(served, 6);
    let all = all_features(*states);
    lemma_served(all);
    assert(row_of(rows@[i], served(all)[i]));
    let k = choose|k: int| 0 <= k < all.len() && all[k] == served(all)[i];
    assert(k == 0 || k == 1 || k == 2 || k == 3);
}

proof fn lemma_served(states: Seq<(Feature, FeatureModels)>)
    ensures
        forall|i: int|
            0 <= i < served(states).len() ==> (#[trigger] served(states)[i]).1.models@.len() > 0
                && states.contains(served(states)[i]),
        forall|k: int|
            0 <= k < states.len() && (#[trigger] states[k]).1.models@.len() > 0 ==> served(
                states,
            ).contains(states[k]),
    decreases states.len(),
{
    if states.len() > 0 {
        let d = states.drop_last();
        let head = served(d);
        let all = served(states);
        lemma_served(d);
        assert forall|i: int| 0 <= i < all.len() implies (#[trigger] all[i]).1.models@.len() > 0
            && states.contains(all[i]) by {
            if i < head.len() {
                assert(all[i] == head[i]);
                assert(d.contains(head[i]));
                let k = choose|k: int| 0 <= k < d.len() && d[k] == head[i];
                assert(states[k] == all[i]);
            } else {
                assert(states[states.len() - 1] == all[i]);
            }
        }
        assert forall|k: int|
            0 <= k < states.len() && (#[trigger] states[k]).1.models@.len()
                > 0 implies all.contains(states[k]) by {
            if k < d.len() {
                assert(d[k] == states[k]);
                assert(head.contains(d[k]));
                let j = choose|j: int| 0 <= j < head.len() && head[j] == d[k];
                assert(all[j] == states[k]);
            } else {
                assert(all[all.len() - 1] == states[k]);
            }
        }
    }
}

/// A feature that some model serves has a default to pick.
pub proof fn every_served_feature_has_a_default(
    states: &FeatureStates,
    rows: Vec<FeatureDefaultRow>,
    f: Feature,
)
    requires
        call_ensures(defaults_rows, (states,), rows),
        match f {
            Feature::Chat => states.chat,
            Feature::Transcription => states.transcription,
            Feature::Image => states.image,
            Feature::Embedding => states.embedding,
        }.models@.len() > 0,
    ensures
        exists|i: int| 0 <= i < rows@.len() && (#[trigger] rows@[i]).feature == f,
{
    let all = all_features(*states);
    lemma_served(all);
    let k: int = match f {
        Feature::Chat => 0,
        Feature::Transcription => 1,
        Feature::Image => 2,
        Feature::Embedding => 3,
    };
    assert(all[k].0 == f);
    assert(served(all).contains(all[k]));
    let i = choose|i: int| 0 <= i < served(all).len() && served(all)[i] == all[k];
    assert(row_of(rows@[i], served(all)[i]));
}

/// Saving a model's defaults needs its name; blank defaults are cleared, others stored,
/// and each is told in its own words.
pub proof fn blank_defaults_are_cleared(
    model_name: &str,
    toml: &str,
    r: Result<DefaultsPlan, Notice>,
    cleared: Notice,
    stored: Notice,
)
    requires
        call_ensures(plan_defaults, (model_name, toml), r),
        call_ensures(defaults_saved, (DefaultsPlan::Clear, model_name), cleared),
        call_ensures(defaults_saved, (DefaultsPlan::Store, model_name), stored),
    ensures
        model_name@.len() == 0 ==> r is Err && r->Err_0.says(false, "admin-missing-model-name"@),
        model_name@.len() > 0 && trimmed(toml@).len() == 0 ==> r == Ok::<DefaultsPlan, Notice>(
            DefaultsPlan::Clear,
        ),
        model_name@.len() > 0 && trimmed(toml@).len() > 0 ==> r == Ok::<DefaultsPlan, Notice>(
            DefaultsPlan::Store,
        ),
        cleared.says_of(true, "admin-cleared-defaults"@, "model"@, model_name@),
        stored.says_of(true, "admin-saved-defaults"@, "model"@, model_name@),
{
}

/// A style of reasoning is one of the known ones, or left to the gateway when the field
/// is blank or says so; every other word is told.
pub proof fn a_style_is_read_as_named(
    model_name: &str,
    style: &str,
    r: Result<Option<String>, Notice>,
)
    requires
        call_ensures(read_style, (model_name, style), r),
    ensures
        model_name@.len() == 0 ==> r is Err && r->Err_0.says(false, "admin-missing-model-name"@),
        model_name@.len() > 0 && (trimmed(style@).len() == 0 || trimmed(style@) == "auto"@) ==> r
            == Ok::<Option<String>, Notice>(None),
        model_name@.len() > 0 && (trimmed(style@) == "none"@ || trimmed(style@) == "qwen"@
            || trimmed(style@) == "openai"@ || trimmed(style@) == "glm"@ || trimmed(style@)
            == "anthropic"@) ==> r is Ok && opt_text(r->Ok_0) == Some(trimmed(style@)),
        r is Err && model_name@.len() > 0 ==> r->Err_0.says_of(
            false,
            "admin-unknown-reasoning-style"@,
            "style"@,
            trimmed(style@),
        ),
        r matches Ok(Some(s)) ==> s@ == "none"@ || s@ == "qwen"@ || s@ == "openai"@ || s@ == "glm"@
            || s@ == "anthropic"@,
{
    reveal_strlit("auto");
    reveal_strlit("none");
    reveal_strlit("qwen");
    reveal_strlit("openai");
    reveal_strlit("glm");
    reveal_strlit("anthropic");
    assert("auto"@.len() == 4 && "none"@.len() == 4 && "qwen"@.len() == 4 && "openai"@.len() == 6
        && "glm"@.len() == 3 && "anthropic"@.len() == 9);
    assert("auto"@[0] == 'a' && "none"@[0] == 'n' && "qwen"@[0] == 'q');
}

/// A count is a number above zero, and is read as that number; a blank stands for none.
pub proof fn a_count_is_positive(n: int)
    requires
        i64::MIN <= n <= i64::MAX,
    ensures
        n >= 1 ==> valid_count(signed_decimal(n)) && count_of(signed_decimal(n)) == Some(n),
        n < 1 ==> !valid_count(signed_decimal(n)),
        valid_count(Seq::<char>::empty()),
        count_of(Seq::<char>::empty()) is None,
{
    crate::num::signed_decimal_reads_back(n);
    let t = signed_decimal(n);
    if n < 0 {
        let d = crate::num::decimal((-n) as nat);
        crate::num::decimal_reads_back((-n) as nat);
        assert(t[0] == '-');
        assert(crate::num::is_digit(d[d.len() - 1]));
        assert(t[t.len() - 1] == d[d.len() - 1]);
    } else {
        crate::num::decimal_reads_back(n as nat);
        assert(crate::num::is_digit(t[0]));
        assert(crate::num::is_digit(t[t.len() - 1]));
    }
    assert(trimmed(t) == t);
}

/// The budgets and levels of a model are those of its form, each from its own field, if
/// each budget is blank or above zero and each level is blank or one of those that the
/// model knows.
pub proof fn budgets_are_stored_as_typed(
    form: &ReasoningBudgetForm,
    levels: &Vec<String>,
    r: Result<ReasoningOverrideCols, Notice>,
)
    requires
        call_ensures(read_budgets, (form, levels), r),
    ensures
        ({
            let known = |s: Seq<char>| trimmed(s).len() == 0 || listed(levels@, trimmed(s));
            r is Ok <==> {
                &&& form.model_name@.len() > 0
                &&& valid_count(form.budget_standard@)
                &&& valid_count(form.budget_deep@)
                &&& valid_count(form.budget_max@)
                &&& known(form.effort_standard@)
                &&& known(form.effort_deep@)
                &&& known(form.effort_max@)
            }
        }),
        r matches Ok(c) ==> {
            &&& opt_int(c.budget_standard) == count_of(form.budget_standard@)
            &&& opt_int(c.budget_deep) == count_of(form.budget_deep@)
            &&& opt_int(c.budget_max) == count_of(form.budget_max@)
            &&& trimmed(form.effort_standard@).len() > 0 ==> opt_text(c.effort_standard) == Some(
                trimmed(form.effort_standard@),
            )
            &&& trimmed(form.effort_standard@).len() == 0 ==> c.effort_standard is None
            &&& trimmed(form.effort_deep@).len() > 0 ==> opt_text(c.effort_deep) == Some(
                trimmed(form.effort_deep@),
            )
            &&& trimmed(form.effort_deep@).len() == 0 ==> c.effort_deep is None
            &&& trimmed(form.effort_max@).len() > 0 ==> opt_text(c.effort_max) == Some(
                trimmed(form.effort_max@),
            )
            &&& trimmed(form.effort_max@).len() == 0 ==> c.effort_max is None
        },
        r is Err && form.model_name@.len() == 0 ==> r->Err_0.says(
            false,
            "admin-missing-model-name"@,
        ),
        r is Err && form.model_name@.len() > 0 && !valid_count(form.budget_standard@)
            ==> r->Err_0.says_of(
            false,
            "admin-budget-not-positive"@,
            "value"@,
            trimmed(form.budget_standard@),
        ),
{
}

/// A context window is a number above zero, or cleared by a blank.
pub proof fn a_window_is_stored_as_typed(
    model_name: &str,
    typed: &str,
    r: Result<Option<i64>, Notice>,
    window: Option<i64>,
    told: Notice,
)
    requires
        call_ensures(read_window, (model_name, typed), r),
        call_ensures(window_saved, (window, model_name), told),
    ensures
        r is Ok <==> model_name@.len() > 0 && valid_count(typed@),
        r matches Ok(w) ==> opt_int(w) == count_of(typed@),
        model_name@.len() == 0 ==> r->Err_0.says(false, "admin-missing-model-name"@),
        model_name@.len() > 0 && !valid_count(typed@) ==> r->Err_0.says_of(
            false,
            "admin-context-window-invalid"@,
            "value"@,
            trimmed(typed@),
        ),
        window is Some ==> told.says_of(
            true,
            "admin-context-window-saved"@,
            "model"@,
            model_name@,
        ),
        window is None ==> told.says_of(
            true,
            "admin-context-window-cleared"@,
            "model"@,
            model_name@,
        ),
{
}

/// The row of a model holds what is stored of it, each value in its place, and nothing
/// where nothing is stored.
pub proof fn a_model_row_is_as_stored(name: &str, stored: &Option<StoredDefaults>, r: ModelRow)
    requires
        call_ensures(model_row, (name, stored), r),
    ensures
        r.name@ == name@,
        *stored matches Some(s) ==> {
            &&& r.toml@ == s.defaults_toml@
            &&& s.reasoning_style matches Some(t) ==> r.reasoning_style@ == t@
            &&& s.reasoning_style is None ==> r.reasoning_style@.len() == 0
            &&& r.budget_standard == s.thinking_budget_standard
            &&& r.budget_deep == s.thinking_budget_deep
            &&& r.budget_max == s.thinking_budget_max
            &&& s.reasoning_effort_standard matches Some(t) ==> r.effort_standard@ == t@
            &&& s.reasoning_effort_standard is None ==> r.effort_standard@.len() == 0
            &&& s.reasoning_effort_deep matches Some(t) ==> r.effort_deep@ == t@
            &&& s.reasoning_effort_deep is None ==> r.effort_deep@.len() == 0
            &&& s.reasoning_effort_max matches Some(t) ==> r.effort_max@ == t@
            &&& s.reasoning_effort_max is None ==> r.effort_max@.len() == 0
            &&& r.context_window == s.context_window
        },
        *stored is None ==> r.toml@.len() == 0 && r.reasoning_style@.len() == 0
            && r.budget_standard is None && r.budget_deep is None && r.budget_max is None
            && r.effort_standard@.len() == 0 && r.effort_deep@.len() == 0 && r.effort_max@.len()
            == 0 && r.context_window is None,
{
}

/// Qwen and Anthropic models are given a budget, OpenAI and GLM models a level, and
/// models that do not reason neither.
pub proof fn a_style_has_a_budget_or_a_level(style: ReasoningStyle)
    ensures
        style.token_budget() <==> style == ReasoningStyle::Qwen || style
            == ReasoningStyle::Anthropic,
        style.effort_level() <==> style == ReasoningStyle::OpenAi || style == ReasoningStyle::Glm,
        style == ReasoningStyle::NoReasoning ==> !style.token_budget() && !style.effort_level(),
{
}

/// What went wrong while saving is told by its own key.
pub proof fn a_save_fault_has_its_words(error: &str, fault: SaveFault, r: Notice)
    requires
        call_ensures(save_failed, (fault, error), r),
    ensures
        r.says_of(
            false,
            match fault {
                SaveFault::Malformed => "admin-malformed-form"@,
                SaveFault::BadToml => "admin-invalid-toml"@,
                SaveFault::Delete => "admin-db-delete-error"@,
                SaveFault::Upsert => "admin-db-upsert-error"@,
                SaveFault::Database => "admin-db-error"@,
            },
            "err"@,
            error@,
        ),
{
}

proof fn lemma_a_default_is_picked_for_its_feature()
    ensures
        starts_as(
            r#"</span><select name="model" aria-label=""#@,
            "</span>"@,
        ),
{
    assert(starts_as(r#"</span><select name="model" aria-label=""#@, "</span>"@)) by {
        reveal(starts_as);
        reveal_strlit(r#"</span><select name="model" aria-label=""#);
        reveal_strlit("</span>");
        assert(r#"</span><select name="model" aria-label=""#@.take(7) =~= "</span>"@);
    }
}

/// The picker of a default sends its own feature and offers the models that serve it; the
/// first option is marked if and only if no served model is picked.
pub proof fn a_default_is_picked_for_its_feature(ui: &Ui, row: FeatureDefaultRow)
    ensures
        ({
            let page = default_select(ui, row);
            &&& shows(page, r#"<input type="hidden" name="feature" value=""#@ + escaped(row.feature.name()) + r#""><span class="label-text text-xs mb-1">"#@ + escaped(ui.message(row.feature.label())) + "</span>"@)
            &&& row.current is Some && listed(row.available@, row.current->0@) ==> shows(page, choice(Seq::empty(), ui.message("admin-defaults-first-option"@), false))
            &&& row.current is None || !listed(row.available@, row.current->0@) ==> shows(page, choice(Seq::empty(), ui.message("admin-defaults-first-option"@), true))
            &&& row.current is Some && listed(row.available@, row.current->0@) ==> shows(page, choices(row.available@, Some(row.current->0@)))
            &&& row.current is None || !listed(row.available@, row.current->0@) ==> shows(page, choices(row.available@, None))
        }),
{
    broadcast use group_shows;

    lemma_a_default_is_picked_for_its_feature();
    reveal(default_select);
}

proof fn lemma_card_shows_the_window()
    ensures
        starts_as(
            r#"</h2><div class="flex items-center gap-2 flex-wrap">"#@,
            "</h2>"@,
        ),
        starts_as(
            r#""><label class="label sr-only" for="toml-"#@,
            r#"">"#@,
        ),
        starts_as(
            r#""><select name="reasoning_style" aria-label=""#@,
            r#"">"#@,
        ),
        starts_as(
            r#""><label class="input input-bordered input-xs flex items-center gap-1">"#@,
            r#"">"#@,
        ),
        ends_in(
            r#"</span><input type="number" name="context_window" value=""#@,
            r#"<input type="number" name="context_window" value=""#@,
        ),
        starts_as(
            r#"" min="1" placeholder=""#@,
            r#"" min="1""#@,
        ),
        starts_as(
            r#"</textarea><div class="flex justify-end">"#@,
            "</textarea>"@,
        ),
{
    assert(starts_as(r#"</h2><div class="flex items-center gap-2 flex-wrap">"#@, "</h2>"@)) by {
        reveal(starts_as);
        reveal_strlit(r#"</h2><div class="flex items-center gap-2 flex-wrap">"#);
        reveal_strlit("</h2>");
        assert(r#"</h2><div class="flex items-center gap-2 flex-wrap">"#@.take(5) =~= "</h2>"@);
    }
    assert(starts_as(r#""><label class="label sr-only" for="toml-"#@, r#"">"#@)) by {
        reveal(starts_as);
        reveal_strlit(r#""><label class="label sr-only" for="toml-"#);
        reveal_strlit(r#"">"#);
        assert(r#""><label class="label sr-only" for="toml-"#@.take(2) =~= r#"">"#@);
    }
    assert(starts_as(r#""><select name="reasoning_style" aria-label=""#@, r#"">"#@)) by {
        reveal(starts_as);
        reveal_strlit(r#""><select name="reasoning_style" aria-label=""#);
        reveal_strlit(r#"">"#);
        assert(r#""><select name="reasoning_style" aria-label=""#@.take(2) =~= r#"">"#@);
    }
    assert(starts_as(r#""><label class="input input-bordered input-xs flex items-center gap-1">"#@, r#"">"#@)) by {
        reveal(starts_as);
        reveal_strlit(r#""><label class="input input-bordered input-xs flex items-center gap-1">"#);
        reveal_strlit(r#"">"#);
        assert(r#""><label class="input input-bordered input-xs flex items-center gap-1">"#@.take(2) =~= r#"">"#@);
    }
    assert(ends_in(r#"</span><input type="number" name="context_window" value=""#@, r#"<input type="number" name="context_window" value=""#@)) by {
        reveal(ends_in);
        reveal_strlit(r#"</span><input type="number" name="context_window" value=""#);
        reveal_strlit(r#"<input type="number" name="context_window" value=""#);
        assert(r#"</span><input type="number" name="context_window" value=""#@.skip(7) =~= r#"<input type="number" name="context_window" value=""#@);
    }
    assert(starts_as(r#"" min="1" placeholder=""#@, r#"" min="1""#@)) by {
        reveal(starts_as);
        reveal_strlit(r#"" min="1" placeholder=""#);
        reveal_strlit(r#"" min="1""#);
        assert(r#"" min="1" placeholder=""#@.take(9) =~= r#"" min="1""#@);
    }
    assert(starts_as(r#"</textarea><div class="flex justify-end">"#@, "</textarea>"@)) by {
        reveal(starts_as);
        reveal_strlit(r#"</textarea><div class="flex justify-end">"#);
        reveal_strlit("</textarea>");
        assert(r#"</textarea><div class="flex justify-end">"#@.take(11) =~= "</textarea>"@);
    }
}

/// The card of a model shows its name, its context window and its defaults in the fields
/// that they are read from.
#[verifier::rlimit(20)]
pub proof fn card_shows_the_window(ui: &Ui, row: ModelRow, style: ReasoningStyle, levels: Seq<String>)
    ensures
        ({
            let page = model_card(ui, row, style, levels);
            &&& shows(page, r#"<h2 class="card-title text-base font-mono break-all">"#@ + escaped(row.name@) + "</h2>"@)
            &&& shows(page, r#"<form method="post" action="/admin/models/context-window" class="m-0">"#@ + r#"<input type="hidden" name="model_name" value=""#@ + escaped(row.name@) + r#"">"#@)
            &&& row.context_window is Some ==> shows(page, r#"<input type="number" name="context_window" value=""#@ + escaped(signed_decimal(row.context_window->0 as int)) + r#"" min="1""#@)
            &&& row.context_window is None ==> shows(page, r#"<input type="number" name="context_window" value=""#@ + escaped(Seq::<char>::empty()) + r#"" min="1""#@)
            &&& shows(page, r#"<form method="post" action="/admin/models/reasoning" class="m-0">"#@ + r#"<input type="hidden" name="model_name" value=""#@ + escaped(row.name@) + r#"">"#@)
            &&& shows(page, escaped(row.toml@) + "</textarea>"@)
        }),
{
    broadcast use group_shows;

    lemma_card_shows_the_window();
    reveal(model_card);
}

/// The style that is stored for a model is marked in its card, and the others are not.
#[verifier::rlimit(20)]
pub proof fn card_marks_the_style(ui: &Ui, row: ModelRow, style: ReasoningStyle, levels: Seq<String>)
    ensures
        ({
            let page = model_card(ui, row, style, levels);
            &&& shows(page, choice(""@, ui.message("admin-reasoning-auto"@), row.reasoning_style@ == ""@))
            &&& shows(page, choice("none"@, ui.message("admin-reasoning-none"@), row.reasoning_style@ == "none"@))
            &&& shows(page, choice("qwen"@, ui.message("admin-reasoning-qwen"@), row.reasoning_style@ == "qwen"@))
            &&& shows(page, choice("openai"@, ui.message("admin-reasoning-openai"@), row.reasoning_style@ == "openai"@))
            &&& shows(page, choice("glm"@, ui.message("admin-reasoning-glm"@), row.reasoning_style@ == "glm"@))
            &&& shows(page, choice("anthropic"@, ui.message("admin-reasoning-anthropic"@), row.reasoning_style@ == "anthropic"@))
        }),
{
    broadcast use group_shows;

    reveal(model_card);
}

proof fn lemma_card_shows_the_budgets()
    ensures
        ends_in(
            r#"</span><input type="number" name=""#@,
            r#"<input type="number" name=""#@,
        ),
        starts_as(
            r#"" min="1" placeholder=""#@,
            r#"" min="1""#@,
        ),
{
    assert(ends_in(r#"</span><input type="number" name=""#@, r#"<input type="number" name=""#@)) by {
        reveal(ends_in);
        reveal_strlit(r#"</span><input type="number" name=""#);
        reveal_strlit(r#"<input type="number" name=""#);
        assert(r#"</span><input type="number" name=""#@.skip(7) =~= r#"<input type="number" name=""#@);
    }
    assert(starts_as(r#"" min="1" placeholder=""#@, r#"" min="1""#@)) by {
        reveal(starts_as);
        reveal_strlit(r#"" min="1" placeholder=""#);
        reveal_strlit(r#"" min="1""#);
        assert(r#"" min="1" placeholder=""#@.take(9) =~= r#"" min="1""#@);
    }
}

/// The card of a model that is given budgets shows each in its field, and that of a model
/// that is given levels marks each.
#[verifier::rlimit(30)]
pub proof fn card_shows_the_budgets(ui: &Ui, row: ModelRow, style: ReasoningStyle, levels: Seq<String>)
    ensures
        ({
            let page = model_card(ui, row, style, levels);
            &&& style == ReasoningStyle::Qwen || style == ReasoningStyle::Anthropic ==> shows(page, r#"<input type="number" name=""#@ + escaped("budget_standard"@) + r#"" value=""#@ + escaped(number_text(row.budget_standard)) + r#"" min="1""#@)
            &&& style == ReasoningStyle::Qwen || style == ReasoningStyle::Anthropic ==> shows(page, r#"<input type="number" name=""#@ + escaped("budget_deep"@) + r#"" value=""#@ + escaped(number_text(row.budget_deep)) + r#"" min="1""#@)
            &&& style == ReasoningStyle::Qwen || style == ReasoningStyle::Anthropic ==> shows(page, r#"<input type="number" name=""#@ + escaped("budget_max"@) + r#"" value=""#@ + escaped(number_text(row.budget_max)) + r#"" min="1""#@)
            &&& style == ReasoningStyle::OpenAi || style == ReasoningStyle::Glm ==> shows(page, r#"</span><select name=""#@ + escaped("effort_standard"@) + r#"" class="select select-bordered select-xs">"#@ + (choice(""@, ui.message("admin-effort-default-option"@), row.effort_standard@.len() == 0) + choices(levels, Some(row.effort_standard@))) + "</select></label>"@)
            &&& style == ReasoningStyle::OpenAi || style == ReasoningStyle::Glm ==> shows(page, r#"</span><select name=""#@ + escaped("effort_deep"@) + r#"" class="select select-bordered select-xs">"#@ + (choice(""@, ui.message("admin-effort-default-option"@), row.effort_deep@.len() == 0) + choices(levels, Some(row.effort_deep@))) + "</select></label>"@)
            &&& style == ReasoningStyle::OpenAi || style == ReasoningStyle::Glm ==> shows(page, r#"</span><select name=""#@ + escaped("effort_max"@) + r#"" class="select select-bordered select-xs">"#@ + (choice(""@, ui.message("admin-effort-default-option"@), row.effort_max@.len() == 0) + choices(levels, Some(row.effort_max@))) + "</select></label>"@)
        }),
{
    broadcast use group_shows;

    lemma_card_shows_the_budgets();
    reveal(model_card);
}

/// Every model has its card on the page, and every feature its picker.
pub proof fn every_model_is_listed(
    ui: &Ui,
    defaults: Seq<FeatureDefaultRow>,
    models: Seq<ModelEntry>,
    i: int,
)
    ensures
        0 <= i < models.len() ==> shows(
            models_page(ui, defaults, models),
            model_card(ui, models[i].row, models[i].style, models[i].levels@),
        ),
        0 <= i < defaults.len() ==> shows(
            models_page(ui, defaults, models),
            default_select(ui, defaults[i]),
        ),
{
    broadcast use group_shows;

    if 0 <= i < models.len() {
        lemma_model_is_listed(ui, models, i);
    }
    if 0 <= i < defaults.len() {
        lemma_default_is_listed(ui, defaults, i);
    }
}

proof fn lemma_model_is_listed(ui: &Ui, models: Seq<ModelEntry>, i: int)
    requires
        0 <= i < models.len(),
    ensures
        shows(
            model_cards(ui, models),
            model_card(ui, models[i].row, models[i].style, models[i].levels@),
        ),
    decreases models.len(),
{
    broadcast use group_shows;

    if i < models.len() - 1 {
        lemma_model_is_listed(ui, models.drop_last(), i);
    }
}

proof fn lemma_default_is_listed(ui: &Ui, rows: Seq<FeatureDefaultRow>, i: int)
    requires
        0 <= i < rows.len(),
    ensures
        shows(default_selects(ui, rows), default_select(ui, rows[i])),
    decreases rows.len(),
{
    broadcast use group_shows;

    if i < rows.len() - 1 {
        lemma_default_is_listed(ui, rows.drop_last(), i);
    }
}

proof fn lemma_each_limit_has_its_label()
    ensures
        ends_in(
            r#"<label class="form-control"><span class="label-text text-xs">"#@,
            r#"<span class="label-text text-xs">"#@,
        ),
        starts_as(
            r#"" class="select select-bordered select-xs">"#@,
            r#"" class="select"#@,
        ),
        starts_as(
            r#""><span class="text-xs text-base-content/60">"#@,
            r#"">"#@,
        ),
{
    assert(ends_in(r#"<label class="form-control"><span class="label-text text-xs">"#@, r#"<span class="label-text text-xs">"#@)) by {
        reveal(ends_in);
        reveal_strlit(r#"<label class="form-control"><span class="label-text text-xs">"#);
        reveal_strlit(r#"<span class="label-text text-xs">"#);
        assert(r#"<label class="form-control"><span class="label-text text-xs">"#@.skip(28) =~= r#"<span class="label-text text-xs">"#@);
    }
    assert(starts_as(r#"" class="select select-bordered select-xs">"#@, r#"" class="select"#@)) by {
        reveal(starts_as);
        reveal_strlit(r#"" class="select select-bordered select-xs">"#);
        reveal_strlit(r#"" class="select"#);
        assert(r#"" class="select select-bordered select-xs">"#@.take(15) =~= r#"" class="select"#@);
    }
    assert(starts_as(r#""><span class="text-xs text-base-content/60">"#@, r#"">"#@)) by {
        reveal(starts_as);
        reveal_strlit(r#""><span class="text-xs text-base-content/60">"#);
        reveal_strlit(r#"">"#);
        assert(r#""><span class="text-xs text-base-content/60">"#@.take(2) =~= r#"">"#@);
    }
}

/// Each limit of thinking stands under the label of its level, and is posted for its model.
pub proof fn each_limit_has_its_label(ui: &Ui, row: ModelRow, style: ReasoningStyle, levels: Seq<String>)
    requires
        !(style.token_budget() && style.effort_level()),
    ensures
        ({
            let page = reasoning_budget(ui, row, style, levels);
            &&& style.token_budget() ==> shows(page, r#"<span class="label-text text-xs">"#@ + escaped(ui.message("admin-effort-standard"@)) + r#"</span><input type="number" name=""#@ + escaped("budget_standard"@) + r#"" value=""#@)
            &&& style.token_budget() ==> shows(page, r#"<span class="label-text text-xs">"#@ + escaped(ui.message("admin-effort-deep"@)) + r#"</span><input type="number" name=""#@ + escaped("budget_deep"@) + r#"" value=""#@)
            &&& style.token_budget() ==> shows(page, r#"<span class="label-text text-xs">"#@ + escaped(ui.message("admin-effort-max"@)) + r#"</span><input type="number" name=""#@ + escaped("budget_max"@) + r#"" value=""#@)
            &&& style.effort_level() ==> shows(page, escaped(ui.message("admin-effort-standard"@)) + r#"</span><select name=""#@ + escaped("effort_standard"@) + r#"" class="select"#@)
            &&& style.effort_level() ==> shows(page, escaped(ui.message("admin-effort-deep"@)) + r#"</span><select name=""#@ + escaped("effort_deep"@) + r#"" class="select"#@)
            &&& style.effort_level() ==> shows(page, escaped(ui.message("admin-effort-max"@)) + r#"</span><select name=""#@ + escaped("effort_max"@) + r#"" class="select"#@)
            &&& style.token_budget() || style.effort_level() ==> shows(page, r#"<input type="hidden" name="model_name" value=""#@ + escaped(row.name@) + r#"">"#@)
            &&& style.token_budget() || style.effort_level() ==> shows(page, r#"<form method="post" action="/admin/models/reasoning-budget""#@)
        }),
{
    broadcast use group_shows;

    lemma_each_limit_has_its_label();
}

/// What was saved for a model is told with its name; a default that was taken back is told.
pub proof fn what_was_saved_is_told(
    model: &Option<String>,
    default: Notice,
    name: &str,
    style: Notice,
    budgets: Notice,
)
    requires
        call_ensures(default_saved, (model,), default),
        call_ensures(style_saved, (name,), style),
        call_ensures(budgets_saved, (name,), budgets),
    ensures
        *model matches Some(m) ==> default@ == crate::notice::said(true, "admin-defaults-saved"@).with(
            "model"@,
            m@,
        ),
        *model is None ==> default@ == crate::notice::said(true, "admin-defaults-cleared"@),
        style@ == crate::notice::said(true, "admin-saved-reasoning-style"@).with("model"@, name@),
        budgets@ == crate::notice::said(true, "admin-saved-reasoning-budget"@).with(
            "model"@,
            name@,
        ),
{
}

proof fn lemma_without_models_that_is_told()
    ensures
        ends_in(
            r#"<header class="flex flex-col gap-1"><h1 class="text-2xl font-bold">"#@,
            r#"<h1 class="text-2xl font-bold">"#@,
        ),
        starts_as(
            r#"</h1><p class="text-base-content/70 text-sm">"#@,
            "</h1>"@,
        ),
{
    assert(ends_in(r#"<header class="flex flex-col gap-1"><h1 class="text-2xl font-bold">"#@, r#"<h1 class="text-2xl font-bold">"#@)) by {
        reveal(ends_in);
        reveal_strlit(r#"<header class="flex flex-col gap-1"><h1 class="text-2xl font-bold">"#);
        reveal_strlit(r#"<h1 class="text-2xl font-bold">"#);
        assert(r#"<header class="flex flex-col gap-1"><h1 class="text-2xl font-bold">"#@.skip(36) =~= r#"<h1 class="text-2xl font-bold">"#@);
    }
    assert(starts_as(r#"</h1><p class="text-base-content/70 text-sm">"#@, "</h1>"@)) by {
        reveal(starts_as);
        reveal_strlit(r#"</h1><p class="text-base-content/70 text-sm">"#);
        reveal_strlit("</h1>");
        assert(r#"</h1><p class="text-base-content/70 text-sm">"#@.take(5) =~= "</h1>"@);
    }
}

/// Without models that is told.
pub proof fn without_models_that_is_told(ui: &Ui, defaults: Seq<FeatureDefaultRow>)
    ensures
        ({
            let page = models_page(ui, defaults, Seq::empty());
            &&& shows(page, "<span>"@ + escaped(ui.message("admin-no-models"@)) + "</span></div>"@)
            &&& shows(page, r#"<h1 class="text-2xl font-bold">"#@ + escaped(ui.message("admin-heading"@)) + "</h1>"@)
        }),
{
    broadcast use group_shows;

    lemma_without_models_that_is_told();
}

} // verus!
