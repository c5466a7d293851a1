use llmq::config::{
    config_path, default_path, endpoint_url, load, Api, ApiTable, Config, ConfigError, ConfigFile,
    ConfigPath, Prompt, PromptTable, Tables, TmuxCfg, TmuxTable, UiCfg, UiTable,
};
use llmq::json::Json;

fn text_at(table: &toml::Table, key: &str) -> Option<String> {
    table.get(key).and_then(|v| v.as_str()).map(str::to_string)
}

fn api_table(table: &toml::Table) -> ApiTable {
    ApiTable {
        url: text_at(table, "url"),
        key: text_at(table, "key"),
        key_command: text_at(table, "key_command"),
        model: text_at(table, "model"),
        ..no_api_keys()
    }
}

fn config_from(source: &str) -> Config {
    let doc = toml::from_str::<toml::Table>(source).unwrap();
    Config::merge(Tables {
        api: doc.get("api").and_then(|v| v.as_table()).map(api_table),
        prompt: None,
        ui: None,
        tmux: None,
    })
}

fn no_api_keys() -> ApiTable {
    ApiTable {
        url: None,
        key: None,
        key_command: None,
        model: None,
        temperature: None,
        max_tokens: None,
        timeout: None,
        extra: None,
    }
}

#[test]
fn missing_tables_fall_back_to_defaults() {
    let cfg = config_from("[api]\nmodel = \"m\"\n");
    assert_eq!(cfg.api.model, "m");
    assert_eq!(cfg.api.url, Api::default().url); // untouched key in same table
    assert_eq!(cfg.ui.width_pct, 80); // whole table absent
    assert!(cfg.tmux.enabled);
}

#[test]
fn endpoint_is_appended_only_once() {
    assert_eq!(endpoint_url("https://x/v1"), "https://x/v1/chat/completions");
    assert_eq!(endpoint_url("https://x/v1/"), "https://x/v1/chat/completions");
    assert_eq!(
        endpoint_url("https://x/v1/chat/completions"),
        "https://x/v1/chat/completions"
    );
}

#[test]
fn endpoint_ignores_slashes_at_the_end() {
    assert_eq!(
        endpoint_url("https://x/v1/chat/completions//"),
        "https://x/v1/chat/completions"
    );
    assert_eq!(endpoint_url(""), "/chat/completions");
    assert_eq!(
        endpoint_url(&endpoint_url("http://localhost:8080")),
        "http://localhost:8080/chat/completions"
    );
}

#[test]
fn defaults() {
    let cfg = Config::default();
    assert_eq!(cfg.api.url, "https://api.openai.com/v1");
    assert_eq!(cfg.api.key, "");
    assert_eq!(cfg.api.key_command, "");
    assert_eq!(cfg.api.model, "gpt-4o-mini");
    assert_eq!(f64::from_bits(cfg.api.temperature), 0.2);
    assert_eq!(cfg.api.max_tokens, 1024);
    assert_eq!(cfg.api.timeout, 60);
    assert!(cfg.api.extra.is_empty());
    assert_eq!(
        cfg.prompt.system,
        "You are a terminal assistant. Reply with shell commands only. \
         No prose, no explanation, no markdown fences. \
         One command per line. If several approaches exist, give each on its own line."
    );
    assert!(cfg.prompt.include_context);
    assert_eq!((cfg.ui.width_pct, cfg.ui.height_pct), (80, 60));
    assert_eq!(cfg.ui.title, " llmq ");
    assert!(cfg.tmux.enabled);
    assert_eq!((cfg.tmux.width.as_str(), cfg.tmux.height.as_str()), ("80%", "60%"));
}

#[test]
fn each_key_overrides_its_own_default() {
    let api = Api::merge(ApiTable {
        url: Some("http://x".to_string()),
        timeout: Some(5),
        extra: Some(vec![("n".to_string(), Json::Number("1".to_string()))]),
        ..no_api_keys()
    });
    assert_eq!((api.url.as_str(), api.timeout, api.max_tokens), ("http://x", 5, 1024));
    assert_eq!(api.extra.len(), 1);
    let copy = api.clone();
    assert_eq!((copy.url.as_str(), copy.timeout), ("http://x", 5));
    assert_eq!(copy.extra[0].0, "n");
    assert!(matches!(&copy.extra[0].1, Json::Number(n) if n == "1"));

    let api = Api::merge(ApiTable {
        key: Some("k".to_string()),
        key_command: Some("c".to_string()),
        temperature: Some(1.5f64.to_bits()),
        max_tokens: Some(9),
        ..no_api_keys()
    });
    assert_eq!((api.key.as_str(), api.key_command.as_str(), api.max_tokens), ("k", "c", 9));
    assert_eq!(f64::from_bits(api.temperature), 1.5);
    assert_eq!(api.model, "gpt-4o-mini");

    let prompt = Prompt::merge(PromptTable {
        system: None,
        include_context: Some(false),
    });
    assert_eq!(prompt.system, Prompt::default().system);
    assert!(!prompt.include_context);
    let ui = UiCfg::merge(UiTable {
        width_pct: None,
        height_pct: Some(10),
        title: Some("t".to_string()),
    });
    assert_eq!((ui.width_pct, ui.height_pct, ui.title.as_str()), (80, 10, "t"));
    let tmux = TmuxCfg::merge(TmuxTable {
        enabled: Some(false),
        width: Some("50%".to_string()),
        height: None,
    });
    assert_eq!(
        (tmux.enabled, tmux.width.as_str(), tmux.height.as_str()),
        (false, "50%", "60%")
    );
}

fn path() -> ConfigPath {
    ConfigPath {
        shown: "/home/u/.config/llmq/config.toml".to_string(),
        parent: "/home/u/.config/llmq".to_string(),
    }
}

#[test]
fn a_missing_file_says_how_to_make_one() {
    match load(path(), ConfigFile::Absent) {
        Err(ConfigError::Missing(p)) => assert_eq!(
            ConfigError::Missing(p).message(),
            "no config at /home/u/.config/llmq/config.toml\n  mkdir -p /home/u/.config/llmq\n  \
             cp config.example.toml /home/u/.config/llmq/config.toml   # then set url + key"
        ),
        other => panic!("{:?}", other),
    }
}

#[test]
fn a_file_that_cannot_be_used_says_why() {
    for file in [
        ConfigFile::Unreadable("permission denied".to_string()),
        ConfigFile::Malformed("permission denied".to_string()),
    ] {
        match load(path(), file) {
            Err(e) => assert_eq!(
                e.message(),
                "/home/u/.config/llmq/config.toml: permission denied"
            ),
            Ok(_) => panic!("it was loaded"),
        }
    }
}

#[test]
fn an_empty_file_gives_the_defaults() {
    let tables = Tables {
        api: None,
        prompt: None,
        ui: None,
        tmux: None,
    };
    let cfg = load(path(), ConfigFile::Holds(tables)).unwrap();
    assert_eq!(cfg.api.model, Api::default().model);
    assert_eq!(cfg.prompt.system, Prompt::default().system);
    assert_eq!(cfg.ui.title, UiCfg::default().title);
    assert_eq!(cfg.tmux.width, TmuxCfg::default().width);
}

#[test]
fn where_the_config_file_stands() {
    assert_eq!(
        default_path(Some(b"/xdg"), Some(b"/home/u")),
        b"/xdg/llmq/config.toml".to_vec()
    );
    assert_eq!(
        default_path(None, Some(b"/home/u/")),
        b"/home/u/.config/llmq/config.toml".to_vec()
    );
    assert_eq!(default_path(None, None), b".config/llmq/config.toml".to_vec());
    assert_eq!(default_path(Some(b""), Some(b"/h")), b"llmq/config.toml".to_vec());
    assert_eq!(
        default_path(Some(b"/\xff/"), None),
        b"/\xff/llmq/config.toml".to_vec()
    );
    assert_eq!(config_path("/é.toml", Some(b"/x"), None), "/é.toml".as_bytes().to_vec());
    assert_eq!(
        config_path("", Some(b"/x"), None),
        b"/x/llmq/config.toml".to_vec()
    );
}

#[test]
fn paths_join_as_the_standard_library_joins_them() {
    for base in ["/xdg", "/xdg/", "xdg", "", "/", "a//"] {
        let joined = std::path::PathBuf::from(base).join("llmq").join("config.toml");
        assert_eq!(
            default_path(Some(base.as_bytes()), None),
            joined.to_str().unwrap().as_bytes().to_vec()
        );
    }
}
