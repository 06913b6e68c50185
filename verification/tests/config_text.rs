use xai_grok_desktop::config::config_text::{
    add_model_text, custom_model_text, default_model_text, ConfigTextError,
};
use xai_grok_desktop::config::model_config::ConfigError;
use xai_grok_desktop::config::table::{ConfigEntry, ConfigValue};
use xai_grok_desktop::config::toml_text::{parse_toml, print_toml};

fn reparse(text: &str) -> toml::Value {
    toml::from_str(text).expect("printed text parses")
}

fn add(existing: Option<&str>, headers: Vec<&str>) -> Result<String, ConfigTextError> {
    add_model_text(
        existing,
        "local".to_owned(),
        "llama-3".to_owned(),
        "http://localhost:8080/v1".to_owned(),
        Some("sk".to_owned()),
        None,
        None,
        32_768,
        None,
        None,
        headers.into_iter().map(str::to_owned).collect(),
    )
}

#[test]
fn parse_gives_the_tree_of_the_document() {
    let tree = parse_toml("a = 1\nratio = 1.5\n[b]\nc = \"x\"\n").unwrap();
    assert_eq!(
        tree,
        ConfigValue::Table(vec![
            ConfigEntry { key: "a".to_owned(), value: ConfigValue::Integer(1) },
            ConfigEntry {
                key: "b".to_owned(),
                value: ConfigValue::Table(vec![ConfigEntry {
                    key: "c".to_owned(),
                    value: ConfigValue::Text("x".to_owned()),
                }]),
            },
            ConfigEntry { key: "ratio".to_owned(), value: ConfigValue::Float("1.5".to_owned()) },
        ])
    );
    assert_eq!(parse_toml("").unwrap(), ConfigValue::Table(Vec::new()));
    assert!(parse_toml("a = [").is_err());
    assert!(parse_toml("a = 1\na = 2\n").is_err());
}

#[test]
fn print_gives_toml_text_that_reads_back() {
    let tree = parse_toml("when = 1979-05-27T07:32:00Z\nratio = 0.1\n[t]\nxs = [1, 2]\n").unwrap();
    let text = print_toml(&tree).unwrap();
    assert_eq!(parse_toml(&text).unwrap(), tree);
    assert_eq!(print_toml(&ConfigValue::Table(Vec::new())).unwrap(), "");
    let bad = ConfigValue::Table(vec![ConfigEntry {
        key: "f".to_owned(),
        value: ConfigValue::Float("not a number".to_owned()),
    }]);
    assert!(print_toml(&bad).is_err());
}

#[test]
fn add_model_text_writes_a_nested_entry() {
    let text = add(Some("theme = \"dark\"\n"), vec!["X-Url=http://h"]).unwrap();
    let v = reparse(&text);
    assert_eq!(v["theme"].as_str(), Some("dark"));
    assert_eq!(v["model"]["local"]["model"].as_str(), Some("llama-3"));
    assert_eq!(v["model"]["local"]["context_window"].as_integer(), Some(32_768));
    assert_eq!(v["model"]["local"]["extra_headers"]["X-Url"].as_str(), Some("http://h"));

    let text = add(None, vec![]).unwrap();
    assert_eq!(reparse(&text)["model"]["local"]["api_key"].as_str(), Some("sk"));
}

#[test]
fn add_model_text_refuses_and_reports() {
    assert!(matches!(add(Some("x = ["), vec![]), Err(ConfigTextError::Unparseable(_))));
    assert_eq!(
        add(Some("model = 3\n"), vec![]),
        Err(ConfigTextError::Refused(ConfigError::ModelSectionNotTable))
    );
    assert_eq!(
        add(Some(""), vec!["nope"]),
        Err(ConfigTextError::Refused(ConfigError::InvalidHeader("nope".to_owned())))
    );
}

#[test]
fn default_model_text_sets_the_default() {
    let text = default_model_text(Some("[models]\nkeep = 1\n"), "grok-4".to_owned()).unwrap();
    let v = reparse(&text);
    assert_eq!(v["models"]["default"].as_str(), Some("grok-4"));
    assert_eq!(v["models"]["keep"].as_integer(), Some(1));
    assert_eq!(
        default_model_text(None, "m".to_owned()).unwrap(),
        "[models]\ndefault = \"m\"\n"
    );
    assert_eq!(
        default_model_text(Some("models = \"x\"\n"), "m".to_owned()),
        Err(ConfigTextError::Refused(ConfigError::ModelsSectionNotTable))
    );
}

#[test]
fn custom_model_text_migrates_and_refuses_unparseable_text() {
    let existing = "[\"model.old-model\"]\nbase_url = \"https://legacy.example.com\"\n";
    let text = custom_model_text(existing, "new-model", "https://new", "k", "openai").unwrap();
    let v = reparse(&text);
    assert!(v.get("model.old-model").is_none());
    assert_eq!(v["model"]["old-model"]["base_url"].as_str(), Some("https://legacy.example.com"));
    assert_eq!(v["model"]["new-model"]["auth_scheme"].as_str(), Some("bearer"));
    assert!(text.contains("[model.new-model]"));

    let text = custom_model_text("", "m", "https://b", "k", "openai").unwrap();
    assert_eq!(reparse(&text)["model"]["m"]["context_window"].as_integer(), Some(128_000));

    assert!(matches!(
        custom_model_text("not toml [", "m", "b", "k", "openai"),
        Err(ConfigTextError::Unparseable(_))
    ));
}

const DATETIME_DOCUMENT: &str = "\"$__toml_private_datetime\" = \"1979-05-27\"\n";

#[test]
fn a_document_can_read_as_a_date_time() {
    assert_eq!(
        parse_toml(DATETIME_DOCUMENT).unwrap(),
        ConfigValue::Datetime("1979-05-27".to_owned())
    );
    assert_eq!(
        add(Some(DATETIME_DOCUMENT), vec![]),
        Err(ConfigTextError::Refused(ConfigError::RootNotTable))
    );
    assert_eq!(
        default_model_text(Some(DATETIME_DOCUMENT), "m".to_owned()),
        Err(ConfigTextError::Refused(ConfigError::RootNotTable))
    );
    // A custom model is saved into a fresh table in that case.
    let text = custom_model_text(DATETIME_DOCUMENT, "m", "https://b", "k", "openai").unwrap();
    let v = reparse(&text);
    assert_eq!(v.as_table().unwrap().len(), 1);
    assert_eq!(v["model"]["m"]["base_url"].as_str(), Some("https://b"));
}

#[test]
fn headers_are_written_under_extra_headers() {
    let text = add(None, vec!["X-Org: acme"]).unwrap();
    let v = reparse(&text);
    assert!(v["model"]["local"].as_table().unwrap().contains_key("extra_headers"));
    let text = add(None, vec![]).unwrap();
    assert!(!reparse(&text)["model"]["local"].as_table().unwrap().contains_key("extra_headers"));
}
