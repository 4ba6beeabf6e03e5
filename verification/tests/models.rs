use gateway_pages::admin::{
    default_saved, defaults_rows, defaults_saved, model_row, plan_defaults, read_budgets, read_default,
    read_style, read_window, render_defaults_card, render_models_body, window_saved, DefaultsPlan, Feature,
    FeatureDefaultRow, FeatureModels, FeatureStates, ModelEntry,
    ReasoningBudgetForm, ReasoningStyle,
};
use gateway_pages::html::Ui;

fn ui() -> Ui {
    Ui {
        messages: vec![],
        icons: vec![],
        logos: vec![],
    }
}

fn row(available: &[&str], current: Option<&str>) -> FeatureDefaultRow {
    FeatureDefaultRow {
        feature: Feature::Chat,
        available: available.iter().map(|s| s.to_string()).collect(),
        current: current.map(str::to_string),
    }
}

#[test]
fn defaults_card_wires_select_to_endpoint_and_marks_current() {
    let rows = vec![row(&["glm-4.5", "glm-4.7"], Some("glm-4.7"))];
    let html = render_defaults_card(&ui(), &rows).to_string();
    assert!(
        html.contains(r#"action="/admin/models/defaults""#),
        "form must post to the defaults route: {html}"
    );
    assert!(
        html.contains("@post(") && html.contains("/admin/models/defaults"),
        "select must auto-save to the defaults route on change: {html}"
    );
    assert!(
        html.contains(r#"name="feature" value="chat""#),
        "hidden feature field must identify the feature: {html}"
    );
    assert!(
        html.contains(r#"value="glm-4.7" selected="selected""#),
        "the stored default must be the selected option: {html}"
    );
}

#[test]
fn defaults_card_selects_first_available_when_unset_or_stale() {
    for current in [None, Some("no-longer-served")] {
        let rows = vec![row(&["a", "b"], current)];
        let html = render_defaults_card(&ui(), &rows).to_string();
        assert!(
            html.contains(r#"value="" selected="selected""#),
            "first-available must be selected ({current:?}): {html}"
        );
        assert_eq!(
            html.matches(r#"selected="selected""#).count(),
            1,
            "exactly one option selected ({current:?}): {html}"
        );
    }
}

#[test]
fn defaults_card_empty_when_no_features() {
    let html = render_defaults_card(&ui(), &vec![]).to_string();
    assert!(
        !html.contains("/admin/models/defaults"),
        "empty card must not render the form: {html}"
    );
}

#[test]
fn features_without_models_have_no_row() {
    let models = |names: &[&str], stored: Option<&str>| FeatureModels {
        models: names.iter().map(|n| n.to_string()).collect(),
        stored: stored.map(str::to_string),
    };
    let states = FeatureStates {
        chat: models(&["n", "m"], Some("m")),
        transcription: models(&["t"], None),
        image: models(&[], None),
        embedding: models(&["e"], Some("gone")),
    };
    let rows = defaults_rows(&states);
    let features: Vec<Feature> = rows.iter().map(|r| r.feature).collect();
    assert_eq!(features, vec![Feature::Chat, Feature::Transcription, Feature::Embedding]);
    assert_eq!(rows[0].available, vec!["m", "n"]);
    assert_eq!(rows[0].current.as_deref(), Some("m"));
    assert_eq!(rows[2].current.as_deref(), Some("gone"));
}

#[test]
fn a_default_names_a_feature() {
    let c = read_default("embedding", " m ").ok().unwrap();
    assert_eq!(c.feature, Feature::Embedding);
    assert_eq!(c.model.as_deref(), Some("m"));
    assert_eq!(default_saved(&c.model).key, "admin-defaults-saved");
    assert!(read_default("chat", "  ").ok().unwrap().model.is_none());
    assert_eq!(default_saved(&None).key, "admin-defaults-cleared");
    let n = read_default("video", "m").err().unwrap();
    assert!(!n.success);
    assert_eq!(n.key, "admin-defaults-unknown-feature");
    assert_eq!(n.args, vec![("feature".to_string(), "video".to_string())]);
}

#[test]
fn blank_defaults_are_cleared() {
    assert_eq!(plan_defaults("m", " \n").ok().unwrap(), DefaultsPlan::Clear);
    assert_eq!(plan_defaults("m", "a = 1").ok().unwrap(), DefaultsPlan::Store);
    assert_eq!(plan_defaults("", "a = 1").err().unwrap().key, "admin-missing-model-name");
    assert_eq!(defaults_saved(DefaultsPlan::Clear, "m").key, "admin-cleared-defaults");
    assert_eq!(defaults_saved(DefaultsPlan::Store, "m").key, "admin-saved-defaults");
}

#[test]
fn styles_are_known_or_automatic() {
    assert!(read_style("m", "").ok().unwrap().is_none());
    assert_eq!(read_style("m", " qwen ").ok().unwrap().as_deref(), Some("qwen"));
    assert_eq!(read_style("", "qwen").err().unwrap().key, "admin-missing-model-name");
    assert!(read_style("m", "nonsense").is_err());
}

#[test]
fn windows_are_positive_numbers() {
    assert_eq!(read_window("m", " 4096 ").ok().unwrap(), Some(4096));
    assert_eq!(read_window("m", "").ok().unwrap(), None);
    assert_eq!(read_window("m", "0").err().unwrap().key, "admin-context-window-invalid");
    assert_eq!(read_window("", "1").err().unwrap().key, "admin-missing-model-name");
    assert_eq!(window_saved(Some(1), "m").key, "admin-context-window-saved");
    assert_eq!(window_saved(None, "m").key, "admin-context-window-cleared");
}

fn budget(standard: &str, effort: &str) -> ReasoningBudgetForm {
    ReasoningBudgetForm {
        model_name: "m".into(),
        budget_standard: standard.into(),
        budget_deep: String::new(),
        budget_max: String::new(),
        effort_standard: effort.into(),
        effort_deep: String::new(),
        effort_max: String::new(),
    }
}

#[test]
fn budgets_are_read_or_refused() {
    let levels = vec!["low".to_string(), "high".to_string()];
    let c = read_budgets(&budget("1024", "low"), &levels).ok().unwrap();
    assert_eq!(c.budget_standard, Some(1024));
    assert_eq!(c.budget_deep, None);
    assert_eq!(c.effort_standard.as_deref(), Some("low"));
    assert!(read_budgets(&budget("-1", ""), &levels).is_err());
    assert!(read_budgets(&budget("", "medium"), &levels).is_err());
}

#[test]
fn every_model_has_a_card() {
    let models = ["m1", "m2"]
        .iter()
        .map(|name| ModelEntry {
            row: model_row(name, &None),
            style: ReasoningStyle::NoReasoning,
            levels: vec![],
        })
        .collect();
    let html = render_models_body(&ui(), &vec![], &models).to_string();
    assert_eq!(html.matches("<article").count(), 2);
    assert!(html.find("toml-m1").unwrap() < html.find("toml-m2").unwrap());
    assert!(render_models_body(&ui(), &vec![], &vec![]).to_string().contains("admin-no-models"));
}
