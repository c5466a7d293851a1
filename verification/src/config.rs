//! The configuration: its defaults, what a config file overrides, where the file
//! stands, and the endpoint that requests go to.

use vstd::prelude::*;
use vstd::string::*;
use vstd::utf8::*;
use crate::json;
use crate::json::Json;
use crate::text;

verus! {

/// How to reach the server.
#[derive(Debug)]
pub struct Api {
    pub url: String,
    pub key: String,
    pub key_command: String,
    pub model: String,
    /// The bits of an IEEE 754 double.
    pub temperature: u64,
    pub max_tokens: u32,
    /// In seconds.
    pub timeout: u64,
    /// Further members of the request body.
    pub extra: Vec<(String, Json)>,
}

/// What the model is told.
#[derive(Debug)]
pub struct Prompt {
    pub system: String,
    pub include_context: bool,
}

/// The box that is drawn.
#[derive(Debug)]
pub struct UiCfg {
    pub width_pct: u16,
    pub height_pct: u16,
    pub title: String,
}

/// The tmux popup.
#[derive(Debug)]
pub struct TmuxCfg {
    pub enabled: bool,
    pub width: String,
    pub height: String,
}

/// The effective configuration.
#[derive(Debug)]
pub struct Config {
    pub api: Api,
    pub prompt: Prompt,
    pub ui: UiCfg,
    pub tmux: TmuxCfg,
}

/// What an `Api` says.
pub struct ApiView {
    pub url: Seq<char>,
    pub key: Seq<char>,
    pub key_command: Seq<char>,
    pub model: Seq<char>,
    pub temperature: u64,
    pub max_tokens: u32,
    pub timeout: u64,
    pub extra: Seq<(Seq<char>, json::JsonTree)>,
}

/// What a `Prompt` says.
pub struct PromptView {
    pub system: Seq<char>,
    pub include_context: bool,
}

/// What a `UiCfg` says.
pub struct UiCfgView {
    pub width_pct: u16,
    pub height_pct: u16,
    pub title: Seq<char>,
}

/// What a `TmuxCfg` says.
pub struct TmuxCfgView {
    pub enabled: bool,
    pub width: Seq<char>,
    pub height: Seq<char>,
}

/// What a `Config` says.
pub struct ConfigView {
    pub api: ApiView,
    pub prompt: PromptView,
    pub ui: UiCfgView,
    pub tmux: TmuxCfgView,
}

impl View for Api {
    type V = ApiView;

    open spec fn view(&self) -> ApiView {
        ApiView {
            url: self.url@,
            key: self.key@,
            key_command: self.key_command@,
            model: self.model@,
            temperature: self.temperature,
            max_tokens: self.max_tokens,
            timeout: self.timeout,
            extra: json::members_of(self.extra@),
        }
    }
}

impl View for Prompt {
    type V = PromptView;

    open spec fn view(&self) -> PromptView {
        PromptView { system: self.system@, include_context: self.include_context }
    }
}

impl View for UiCfg {
    type V = UiCfgView;

    open spec fn view(&self) -> UiCfgView {
        UiCfgView { width_pct: self.width_pct, height_pct: self.height_pct, title: self.title@ }
    }
}

impl View for TmuxCfg {
    type V = TmuxCfgView;

    open spec fn view(&self) -> TmuxCfgView {
        TmuxCfgView { enabled: self.enabled, width: self.width@, height: self.height@ }
    }
}

impl View for Config {
    type V = ConfigView;

    open spec fn view(&self) -> ConfigView {
        ConfigView { api: self.api@, prompt: self.prompt@, ui: self.ui@, tmux: self.tmux@ }
    }
}

/// The default `Api`: the public endpoint, no key, a temperature of 0.2.
pub open spec fn default_api() -> ApiView {
    ApiView {
        url: "https://api.openai.com/v1"@,
        key: ""@,
        key_command: ""@,
        model: "gpt-4o-mini"@,
        temperature: 0x3fc9_9999_9999_999a,
        max_tokens: 1024,
        timeout: 60,
        extra: seq![],
    }
}

/// The default `Prompt`.
pub open spec fn default_prompt() -> PromptView {
    PromptView {
        system: "You are a terminal assistant. Reply with shell commands only. No prose, no explanation, no markdown fences. One command per line. If several approaches exist, give each on its own line."@,
        include_context: true,
    }
}

/// The default `UiCfg`.
pub open spec fn default_ui() -> UiCfgView {
    UiCfgView { width_pct: 80, height_pct: 60, title: " llmq "@ }
}

/// The default `TmuxCfg`.
pub open spec fn default_tmux() -> TmuxCfgView {
    TmuxCfgView { enabled: true, width: "80%"@, height: "60%"@ }
}

/// The configuration without a config file.
pub open spec fn default_config() -> ConfigView {
    ConfigView {
        api: default_api(),
        prompt: default_prompt(),
        ui: default_ui(),
        tmux: default_tmux(),
    }
}

impl Default for Api {
    fn default() -> (r: Self)
        ensures
            r@ == default_api(),
    {
        let r = Api {
            url: "https://api.openai.com/v1".to_string(),
            key: "".to_string(),
            key_command: "".to_string(),
            model: "gpt-4o-mini".to_string(),
            temperature: 0x3fc9_9999_9999_999a,
            max_tokens: 1024,
            timeout: 60,
            extra: Vec::new(),
        };
        assert(r@.extra == default_api().extra);
        r
    }
}

impl Default for Prompt {
    fn default() -> (r: Self)
        ensures
            r@ == default_prompt(),
    {
        Prompt {
            system: "You are a terminal assistant. Reply with shell commands only. No prose, no explanation, no markdown fences. One command per line. If several approaches exist, give each on its own line.".to_string(),
            include_context: true,
        }
    }
}

impl Default for UiCfg {
    fn default() -> (r: Self)
        ensures
            r@ == default_ui(),
    {
        UiCfg { width_pct: 80, height_pct: 60, title: " llmq ".to_string() }
    }
}

impl Default for TmuxCfg {
    fn default() -> (r: Self)
        ensures
            r@ == default_tmux(),
    {
        TmuxCfg { enabled: true, width: "80%".to_string(), height: "60%".to_string() }
    }
}

impl Default for Config {
    fn default() -> (r: Self)
        ensures
            r@ == default_config(),
    {
        Config {
            api: Api::default(),
            prompt: Prompt::default(),
            ui: UiCfg::default(),
            tmux: TmuxCfg::default(),
        }
    }
}

/// The `[api]` table of a config file; a key that is absent is `None`.
#[derive(Debug)]
pub struct ApiTable {
    pub url: Option<String>,
    pub key: Option<String>,
    pub key_command: Option<String>,
    pub model: Option<String>,
    pub temperature: Option<u64>,
    pub max_tokens: Option<u32>,
    pub timeout: Option<u64>,
    pub extra: Option<Vec<(String, Json)>>,
}

/// The `[prompt]` table.
#[derive(Debug)]
pub struct PromptTable {
    pub system: Option<String>,
    pub include_context: Option<bool>,
}

/// The `[ui]` table.
#[derive(Debug)]
pub struct UiTable {
    pub width_pct: Option<u16>,
    pub height_pct: Option<u16>,
    pub title: Option<String>,
}

/// The `[tmux]` table.
#[derive(Debug)]
pub struct TmuxTable {
    pub enabled: Option<bool>,
    pub width: Option<String>,
    pub height: Option<String>,
}

/// The tables of a config file; a table that is absent is `None`.
#[derive(Debug)]
pub struct Tables {
    pub api: Option<ApiTable>,
    pub prompt: Option<PromptTable>,
    pub ui: Option<UiTable>,
    pub tmux: Option<TmuxTable>,
}

/// The value that a key was given, or its default.
pub open spec fn value_or<T>(given: Option<T>, default: T) -> T {
    match given {
        Some(value) => value,
        None => default,
    }
}

/// The text that a key was given, or its default.
pub open spec fn text_or(given: Option<String>, default: Seq<char>) -> Seq<char> {
    match given {
        Some(value) => value@,
        None => default,
    }
}

/// The `Api` that an `[api]` table gives: each key on its own.
pub open spec fn merged_api(table: ApiTable) -> ApiView {
    ApiView {
        url: text_or(table.url, default_api().url),
        key: text_or(table.key, default_api().key),
        key_command: text_or(table.key_command, default_api().key_command),
        model: text_or(table.model, default_api().model),
        temperature: value_or(table.temperature, default_api().temperature),
        max_tokens: value_or(table.max_tokens, default_api().max_tokens),
        timeout: value_or(table.timeout, default_api().timeout),
        extra: match table.extra {
            Some(members) => json::members_of(members@),
            None => default_api().extra,
        },
    }
}

/// The `Prompt` that a `[prompt]` table gives.
pub open spec fn merged_prompt(table: PromptTable) -> PromptView {
    PromptView {
        system: text_or(table.system, default_prompt().system),
        include_context: value_or(table.include_context, default_prompt().include_context),
    }
}

/// The `UiCfg` that a `[ui]` table gives.
pub open spec fn merged_ui(table: UiTable) -> UiCfgView {
    UiCfgView {
        width_pct: value_or(table.width_pct, default_ui().width_pct),
        height_pct: value_or(table.height_pct, default_ui().height_pct),
        title: text_or(table.title, default_ui().title),
    }
}

/// The `TmuxCfg` that a `[tmux]` table gives.
pub open spec fn merged_tmux(table: TmuxTable) -> TmuxCfgView {
    TmuxCfgView {
        enabled: value_or(table.enabled, default_tmux().enabled),
        width: text_or(table.width, default_tmux().width),
        height: text_or(table.height, default_tmux().height),
    }
}

/// The configuration that a config file gives: a table that is absent keeps all
/// of its defaults, and so does each key that is absent from its table.
pub open spec fn merged(tables: Tables) -> ConfigView {
    ConfigView {
        api: match tables.api {
            Some(table) => merged_api(table),
            None => default_api(),
        },
        prompt: match tables.prompt {
            Some(table) => merged_prompt(table),
            None => default_prompt(),
        },
        ui: match tables.ui {
            Some(table) => merged_ui(table),
            None => default_ui(),
        },
        tmux: match tables.tmux {
            Some(table) => merged_tmux(table),
            None => default_tmux(),
        },
    }
}

impl Api {
    /// The `Api` that an `[api]` table gives.
    pub fn merge(table: ApiTable) -> (r: Api)
        ensures
            r@ == merged_api(table),
    {
        let base = Api::default();
        let r = Api {
            url: table.url.unwrap_or(base.url),
            key: table.key.unwrap_or(base.key),
            key_command: table.key_command.unwrap_or(base.key_command),
            model: table.model.unwrap_or(base.model),
            temperature: table.temperature.unwrap_or(base.temperature),
            max_tokens: table.max_tokens.unwrap_or(base.max_tokens),
            timeout: table.timeout.unwrap_or(base.timeout),
            extra: table.extra.unwrap_or(base.extra),
        };
        r
    }
}

impl Clone for Api {
    fn clone(&self) -> (r: Self)
        ensures
            r@ == self@,
    {
        let mut extra: Vec<(String, Json)> = Vec::new();
        let mut i: usize = 0;
        while i < self.extra.len()
            invariant
                i <= self.extra@.len(),
                extra@.len() == i,
                forall|k: int|
                    #![trigger extra@[k]]
                    0 <= k < i ==> extra@[k].0@ == self.extra@[k].0@ && extra@[k].1.tree()
                        == self.extra@[k].1.tree(),
            decreases self.extra@.len() - i,
        {
            extra.push((self.extra[i].0.clone(), self.extra[i].1.clone()));
            i = i + 1;
        }
        assert(json::members_of(extra@) == json::members_of(self.extra@));
        Api {
            url: self.url.clone(),
            key: self.key.clone(),
            key_command: self.key_command.clone(),
            model: self.model.clone(),
            temperature: self.temperature,
            max_tokens: self.max_tokens,
            timeout: self.timeout,
            extra,
        }
    }
}

impl Clone for Prompt {
    fn clone(&self) -> (r: Self)
        ensures
            r@ == self@,
    {
        Prompt { system: self.system.clone(), include_context: self.include_context }
    }
}

impl Clone for UiCfg {
    fn clone(&self) -> (r: Self)
        ensures
            r@ == self@,
    {
        UiCfg {
            width_pct: self.width_pct,
            height_pct: self.height_pct,
            title: self.title.clone(),
        }
    }
}

impl Clone for TmuxCfg {
    fn clone(&self) -> (r: Self)
        ensures
            r@ == self@,
    {
        TmuxCfg {
            enabled: self.enabled,
            width: self.width.clone(),
            height: self.height.clone(),
        }
    }
}

impl Clone for Config {
    fn clone(&self) -> (r: Self)
        ensures
            r@ == self@,
    {
        Config {
            api: self.api.clone(),
            prompt: self.prompt.clone(),
            ui: self.ui.clone(),
            tmux: self.tmux.clone(),
        }
    }
}

impl Prompt {
    /// The `Prompt` that a `[prompt]` table gives.
    pub fn merge(table: PromptTable) -> (r: Prompt)
        ensures
            r@ == merged_prompt(table),
    {
        let base = Prompt::default();
        Prompt {
            system: table.system.unwrap_or(base.system),
            include_context: table.include_context.unwrap_or(base.include_context),
        }
    }
}

impl UiCfg {
    /// The `UiCfg` that a `[ui]` table gives.
    pub fn merge(table: UiTable) -> (r: UiCfg)
        ensures
            r@ == merged_ui(table),
    {
        let base = UiCfg::default();
        UiCfg {
            width_pct: table.width_pct.unwrap_or(base.width_pct),
            height_pct: table.height_pct.unwrap_or(base.height_pct),
            title: table.title.unwrap_or(base.title),
        }
    }
}

impl TmuxCfg {
    /// The `TmuxCfg` that a `[tmux]` table gives.
    pub fn merge(table: TmuxTable) -> (r: TmuxCfg)
        ensures
            r@ == merged_tmux(table),
    {
        let base = TmuxCfg::default();
        TmuxCfg {
            enabled: table.enabled.unwrap_or(base.enabled),
            width: table.width.unwrap_or(base.width),
            height: table.height.unwrap_or(base.height),
        }
    }
}

impl Config {
    /// The configuration that a config file gives.
    pub fn merge(tables: Tables) -> (r: Config)
        ensures
            r@ == merged(tables),
    {
        Config {
            api: match tables.api {
                Some(table) => Api::merge(table),
                None => Api::default(),
            },
            prompt: match tables.prompt {
                Some(table) => Prompt::merge(table),
                None => Prompt::default(),
            },
            ui: match tables.ui {
                Some(table) => UiCfg::merge(table),
                None => UiCfg::default(),
            },
            tmux: match tables.tmux {
                Some(table) => TmuxCfg::merge(table),
                None => TmuxCfg::default(),
            },
        }
    }
}

/// A path of the file system, as far as messages show it.
#[derive(Debug)]
pub struct ConfigPath {
    /// The path.
    pub shown: String,
    /// The directory that holds it; empty where it has none.
    pub parent: String,
}

/// Why there is no configuration.
#[derive(Debug)]
pub enum ConfigError {
    /// There is no file at the path.
    Missing(ConfigPath),
    /// The file at the path cannot be read, or is no config file.
    Parse(ConfigPath, String),
}

impl ConfigError {
    /// What the user is told.
    pub open spec fn says(self) -> Seq<char> {
        match self {
            ConfigError::Missing(p) => "no config at "@ + p.shown@ + "\n  mkdir -p "@ + p.parent@
                + "\n  cp config.example.toml "@ + p.shown@ + "   # then set url + key"@,
            ConfigError::Parse(p, reason) => p.shown@ + ": "@ + reason@,
        }
    }

    /// What the user is told.
    pub fn message(&self) -> (r: String)
        ensures
            r@ == self.says(),
    {
        match self {
            ConfigError::Missing(p) => {
                let mut out = "no config at ".to_string();
                out.append(p.shown.as_str());
                out.append("\n  mkdir -p ");
                out.append(p.parent.as_str());
                out.append("\n  cp config.example.toml ");
                out.append(p.shown.as_str());
                out.append("   # then set url + key");
                out
            },
            ConfigError::Parse(p, reason) => {
                let mut out = p.shown.clone();
                out.append(": ");
                out.append(reason.as_str());
                out
            },
        }
    }
}

/// `rel` below the directory `base`; just `rel` where `base` is empty.
pub open spec fn below(base: Seq<u8>, rel: Seq<u8>) -> Seq<u8> {
    if base.len() == 0 || base.last() == 0x2f {
        base + rel
    } else {
        base.push(0x2f) + rel
    }
}

/// The directory for config files: what `$XDG_CONFIG_HOME` says, else `.config`
/// in the home directory.
pub open spec fn config_home(xdg: Option<Seq<u8>>, home: Option<Seq<u8>>) -> Seq<u8> {
    match xdg {
        Some(dir) => dir,
        None => below(value_or(home, seq![]), encode_utf8(".config"@)),
    }
}

/// Where the config file stands by default.
pub open spec fn default_location(xdg: Option<Seq<u8>>, home: Option<Seq<u8>>) -> Seq<u8> {
    below(below(config_home(xdg, home), encode_utf8("llmq"@)), encode_utf8("config.toml"@))
}

/// The bytes that an optional slice holds.
pub open spec fn bytes_in(bytes: Option<&[u8]>) -> Option<Seq<u8>> {
    match bytes {
        Some(b) => Some(b@),
        None => None,
    }
}

/// Appends `more` to `bytes`.
fn extend(bytes: &mut Vec<u8>, more: &[u8])
    ensures
        final(bytes)@ == old(bytes)@ + more@,
{
    let ghost first = bytes@;
    let mut i: usize = 0;
    while i < more.len()
        invariant
            i <= more@.len(),
            bytes@ == first + more@.take(i as int),
        decreases more@.len() - i,
    {
        bytes.push(more[i]);
        i = i + 1;
        assert(bytes@ == first + more@.take(i as int));
    }
    assert(more@.take(i as int) == more@);
}

/// `rel` below the directory `base`.
fn push_path(base: &mut Vec<u8>, rel: &str)
    ensures
        final(base)@ == below(old(base)@, encode_utf8(rel@)),
{
    let n: usize = base.len();
    if n > 0 && base[n - 1] != 0x2f {
        base.push(0x2f);
    }
    extend(base, rel.as_bytes());
}

/// Where the config file stands by default, given what the environment says of
/// `XDG_CONFIG_HOME` and `HOME`. Paths are bytes.
pub fn default_path(xdg: Option<&[u8]>, home: Option<&[u8]>) -> (r: Vec<u8>)
    ensures
        r@ == default_location(bytes_in(xdg), bytes_in(home)),
{
    let mut out: Vec<u8> = Vec::new();
    match xdg {
        Some(dir) => {
            extend(&mut out, dir);
            assert(out@ == dir@);
        },
        None => {
            match home {
                Some(dir) => {
                    extend(&mut out, dir);
                    assert(out@ == dir@);
                },
                None => {
                    assert(out@ == Seq::<u8>::empty());
                },
            }
            push_path(&mut out, ".config");
        },
    }
    push_path(&mut out, "llmq");
    push_path(&mut out, "config.toml");
    out
}

/// Where to look for the config file: where the command line says, else the
/// default.
pub fn config_path(chosen: &str, xdg: Option<&[u8]>, home: Option<&[u8]>) -> (r: Vec<u8>)
    ensures
        chosen@.len() > 0 ==> r@ == encode_utf8(chosen@),
        chosen@.len() == 0 ==> r@ == default_location(bytes_in(xdg), bytes_in(home)),
{
    if chosen.is_empty() {
        default_path(xdg, home)
    } else {
        let mut out: Vec<u8> = Vec::new();
        extend(&mut out, chosen.as_bytes());
        assert(out@ == encode_utf8(chosen@));
        out
    }
}

/// What came of reading a config file.
#[derive(Debug)]
pub enum ConfigFile {
    /// There is no such file.
    Absent,
    /// Reading it failed.
    Unreadable(String),
    /// It is not TOML, or a value has the wrong type.
    Malformed(String),
    /// It holds these tables.
    Holds(Tables),
}

/// The configuration that a config file gives, or why there is none.
pub fn load(path: ConfigPath, file: ConfigFile) -> (r: Result<Config, ConfigError>)
    ensures
        match file {
            ConfigFile::Absent => r == Err::<Config, ConfigError>(ConfigError::Missing(path)),
            ConfigFile::Unreadable(reason) => r == Err::<Config, ConfigError>(
                ConfigError::Parse(path, reason),
            ),
            ConfigFile::Malformed(reason) => r == Err::<Config, ConfigError>(
                ConfigError::Parse(path, reason),
            ),
            ConfigFile::Holds(tables) => r matches Ok(config) && config@ == merged(tables),
        },
{
    match file {
        ConfigFile::Absent => Err(ConfigError::Missing(path)),
        ConfigFile::Unreadable(reason) => Err(ConfigError::Parse(path, reason)),
        ConfigFile::Malformed(reason) => Err(ConfigError::Parse(path, reason)),
        ConfigFile::Holds(tables) => Ok(Config::merge(tables)),
    }
}

/// The endpoint for chat completions below `url`.
pub open spec fn endpoint(url: Seq<char>) -> Seq<char> {
    let base = text::without_slashes(url);
    if "/chat/completions"@.is_suffix_of(base) {
        base
    } else {
        base + "/chat/completions"@
    }
}

/// The endpoint for chat completions below `url`.
pub fn endpoint_url(url: &str) -> (r: String)
    ensures
        r@ == endpoint(url@),
{
    let base = text::trim_slashes(url);
    if text::ends_with(base, "/chat/completions") {
        base.to_string()
    } else {
        text::concat(base, "/chat/completions")
    }
}

/// The endpoint is appended only once: it stays as it is, it ends as it should,
/// and a slash more at the end of the URL makes no difference.
pub proof fn law_endpoint(url: Seq<char>)
    ensures
        endpoint(endpoint(url)) == endpoint(url),
        "/chat/completions"@.is_suffix_of(endpoint(url)),
        endpoint(url.push('/')) == endpoint(url),
{
    reveal_strlit("/chat/completions");
    let tail = "/chat/completions"@;
    let base = text::without_slashes(url);
    let whole = endpoint(url);
    assert(tail.is_suffix_of(whole)) by {
        if !tail.is_suffix_of(base) {
            assert((base + tail).skip(base.len() as int) == tail);
        }
    }
    assert(tail.last() == 's');
    assert(whole.last() == 's') by {
        assert(whole.subrange(whole.len() - tail.len(), whole.len() as int).last() == whole.last());
    }
    assert(text::without_slashes(whole) == whole);
    assert(url.push('/').drop_last() == url);
}

/// A config file without tables leaves every default in place.
pub proof fn law_no_tables(tables: Tables)
    requires
        tables.api is None,
        tables.prompt is None,
        tables.ui is None,
        tables.tmux is None,
    ensures
        merged(tables) == default_config(),
{
}

/// A key that is absent keeps its default, whatever stands beside it, and a key
/// that is there takes its value.
pub proof fn law_each_key_on_its_own(api: ApiTable, prompt: PromptTable, ui: UiTable, tmux: TmuxTable)
    ensures
        ({
            let c = merged(
                Tables { api: Some(api), prompt: Some(prompt), ui: Some(ui), tmux: Some(tmux) },
            );
            &&& c.api.url == (if api.url is None { default_api().url } else { api.url->0@ })
            &&& c.api.key == (if api.key is None { default_api().key } else { api.key->0@ })
            &&& c.api.key_command == (if api.key_command is None {
                default_api().key_command
            } else {
                api.key_command->0@
            })
            &&& c.api.model == (if api.model is None { default_api().model } else { api.model->0@ })
            &&& c.api.temperature == (if api.temperature is None {
                default_api().temperature
            } else {
                api.temperature->0
            })
            &&& c.api.max_tokens == (if api.max_tokens is None {
                default_api().max_tokens
            } else {
                api.max_tokens->0
            })
            &&& c.api.timeout == (if api.timeout is None {
                default_api().timeout
            } else {
                api.timeout->0
            })
            &&& c.api.extra == (if api.extra is None {
                default_api().extra
            } else {
                json::members_of(api.extra->0@)
            })
            &&& c.prompt.system == (if prompt.system is None {
                default_prompt().system
            } else {
                prompt.system->0@
            })
            &&& c.prompt.include_context == (if prompt.include_context is None {
                default_prompt().include_context
            } else {
                prompt.include_context->0
            })
            &&& c.ui.width_pct == (if ui.width_pct is None {
                default_ui().width_pct
            } else {
                ui.width_pct->0
            })
            &&& c.ui.height_pct == (if ui.height_pct is None {
                default_ui().height_pct
            } else {
                ui.height_pct->0
            })
            &&& c.ui.title == (if ui.title is None { default_ui().title } else { ui.title->0@ })
            &&& c.tmux.enabled == (if tmux.enabled is None {
                default_tmux().enabled
            } else {
                tmux.enabled->0
            })
            &&& c.tmux.width == (if tmux.width is None {
                default_tmux().width
            } else {
                tmux.width->0@
            })
            &&& c.tmux.height == (if tmux.height is None {
                default_tmux().height
            } else {
                tmux.height->0@
            })
        }),
{
}

/// What is said of a file that is missing, and of one that cannot be used.
pub proof fn law_config_errors(path: ConfigPath, reason: String)
    ensures
        ConfigError::Missing(path).says() == "no config at "@ + path.shown@ + "\n  mkdir -p "@
            + path.parent@ + "\n  cp config.example.toml "@ + path.shown@
            + "   # then set url + key"@,
        ConfigError::Parse(path, reason).says() == path.shown@ + ": "@ + reason@,
{
}

/// Each table counts on its own, whichever of the others are there: one that is
/// absent keeps its defaults, one that is there is merged.
pub proof fn law_each_table_on_its_own(t: Tables, other: Tables)
    ensures
        t.api is None ==> merged(t).api == default_api(),
        t.prompt is None ==> merged(t).prompt == default_prompt(),
        t.ui is None ==> merged(t).ui == default_ui(),
        t.tmux is None ==> merged(t).tmux == default_tmux(),
        t.api == other.api ==> merged(t).api == merged(other).api,
        t.prompt == other.prompt ==> merged(t).prompt == merged(other).prompt,
        t.ui == other.ui ==> merged(t).ui == merged(other).ui,
        t.tmux == other.tmux ==> merged(t).tmux == merged(other).tmux,
{
}

/// What a config file says of the server is what is used, key by key, whatever
/// else the file holds; a key that it leaves out is its default.
pub proof fn law_api_keys(t: Tables)
    ensures
        ({
            let c = merged(t).api;
            let d = default_api();
            &&& t.api is None ==> c == d
            &&& t.api matches Some(a) ==> {
                &&& c.url == (if a.url is Some { a.url->0@ } else { d.url })
                &&& c.key == (if a.key is Some { a.key->0@ } else { d.key })
                &&& c.key_command == (if a.key_command is Some {
                    a.key_command->0@
                } else {
                    d.key_command
                })
                &&& c.model == (if a.model is Some { a.model->0@ } else { d.model })
                &&& c.temperature == (if a.temperature is Some { a.temperature->0 } else { d.temperature })
                &&& c.max_tokens == (if a.max_tokens is Some { a.max_tokens->0 } else { d.max_tokens })
                &&& c.timeout == (if a.timeout is Some { a.timeout->0 } else { d.timeout })
                &&& c.extra == (if a.extra is Some { json::members_of(a.extra->0@) } else { d.extra })
            }
        }),
{
}

/// What a config file says of the prompt, the box and the popup is what is used,
/// key by key, whatever else the file holds; a key that it leaves out is its
/// default.
pub proof fn law_other_keys(t: Tables)
    ensures
        ({
            let c = merged(t);
            let d = default_config();
            &&& t.prompt is None ==> c.prompt == d.prompt
            &&& t.prompt matches Some(p) ==> {
                &&& c.prompt.system == (if p.system is Some { p.system->0@ } else { d.prompt.system })
                &&& c.prompt.include_context == (if p.include_context is Some {
                    p.include_context->0
                } else {
                    d.prompt.include_context
                })
            }
            &&& t.ui is None ==> c.ui == d.ui
            &&& t.ui matches Some(u) ==> {
                &&& c.ui.width_pct == (if u.width_pct is Some { u.width_pct->0 } else { d.ui.width_pct })
                &&& c.ui.height_pct == (if u.height_pct is Some { u.height_pct->0 } else { d.ui.height_pct })
                &&& c.ui.title == (if u.title is Some { u.title->0@ } else { d.ui.title })
            }
            &&& t.tmux is None ==> c.tmux == d.tmux
            &&& t.tmux matches Some(x) ==> {
                &&& c.tmux.enabled == (if x.enabled is Some { x.enabled->0 } else { d.tmux.enabled })
                &&& c.tmux.width == (if x.width is Some { x.width->0@ } else { d.tmux.width })
                &&& c.tmux.height == (if x.height is Some { x.height->0@ } else { d.tmux.height })
            }
        }),
{
}

/// Without any key the public endpoint is asked, without a key, with the context,
/// and in a popup where there is one.
pub proof fn law_defaults()
    ensures
        default_config().api == default_api(),
        default_config().prompt == default_prompt(),
        default_config().ui == default_ui(),
        default_config().tmux == default_tmux(),
        default_api().url == "https://api.openai.com/v1"@,
        default_api().model == "gpt-4o-mini"@,
        default_api().key.len() == 0,
        default_api().key_command.len() == 0,
        default_api().temperature == 0x3fc9_9999_9999_999a,
        default_api().max_tokens == 1024,
        default_api().timeout == 60,
        default_api().extra.len() == 0,
        default_prompt().include_context,
        default_ui().width_pct == 80,
        default_ui().height_pct == 60,
        default_ui().title == " llmq "@,
        default_tmux().enabled,
        default_tmux().width == "80%"@,
        default_tmux().height == "60%"@,
{
    reveal_strlit("");
}

/// A URL without a slash at its end gets the endpoint appended, unless it ends in
/// it already; a slash more makes no difference.
pub proof fn law_endpoint_is_appended(url: Seq<char>)
    ensures
        endpoint(url.push('/')) == endpoint(url),
        "/chat/completions"@.is_suffix_of(url) ==> endpoint(url) == url,
        !"/chat/completions"@.is_suffix_of(url) && (url.len() == 0 || url.last() != '/')
            ==> endpoint(url) == url + "/chat/completions"@,
{
    law_endpoint(url);
    reveal_strlit("/chat/completions");
    let tail = "/chat/completions"@;
    assert(tail.last() == 's');
    if tail.is_suffix_of(url) {
        assert(url.subrange(url.len() - tail.len(), url.len() as int).last() == url.last());
    }
    if url.len() == 0 || url.last() != '/' {
        assert(text::without_slashes(url) == url);
    }
}

/// The config file stands in `llmq/config.toml` below the directory that the
/// environment names: `XDG_CONFIG_HOME` comes first, `.config` in the home
/// directory else. A slash comes between, unless the directory ends in one.
pub proof fn law_default_location(dir: Seq<u8>, home: Option<Seq<u8>>)
    ensures
        ({
            let file = encode_utf8("llmq/config.toml"@);
            let slash = seq![0x2fu8];
            let config = encode_utf8(".config/"@);
            let open = dir.len() == 0 || dir.last() == 0x2f;
            &&& open ==> default_location(Some(dir), home) == dir + file
            &&& !open ==> default_location(Some(dir), home) == dir + slash + file
            &&& open ==> default_location(None, Some(dir)) == dir + config + file
            &&& !open ==> default_location(None, Some(dir)) == dir + slash + config + file
            &&& default_location(None, None) == config + file
        }),
{
    reveal_strlit("llmq");
    reveal_strlit("config.toml");
    reveal_strlit("llmq/config.toml");
    reveal_strlit(".config");
    reveal_strlit(".config/");
    let slash = seq![0x2fu8];
    lemma_slash();
    let llmq = encode_utf8("llmq"@);
    let toml = encode_utf8("config.toml"@);
    let dot = encode_utf8(".config"@);
    let file = encode_utf8("llmq/config.toml"@);
    let config = encode_utf8(".config/"@);
    assert("llmq/config.toml"@ == "llmq"@ + seq!['/'] + "config.toml"@);
    text::lemma_encode_concat("llmq"@ + seq!['/'], "config.toml"@);
    text::lemma_encode_concat("llmq"@, seq!['/']);
    assert(file == llmq + slash + toml);
    assert(".config/"@ == ".config"@ + seq!['/']);
    text::lemma_encode_concat(".config"@, seq!['/']);
    assert(config == dot + slash);
    lemma_last_byte("llm"@, 'q');
    assert("llmq"@ == "llm"@.push('q')) by {
        reveal_strlit("llm");
    }
    lemma_last_byte(".confi"@, 'g');
    assert(".config"@ == ".confi"@.push('g')) by {
        reveal_strlit(".confi");
    }
    assert(llmq.len() > 0 && llmq.last() != 0x2f);
    assert(dot.len() > 0 && dot.last() != 0x2f);
    let none = Seq::<u8>::empty();
    let at_home = below(dir, dot);
    assert(at_home.last() == dot.last());
    assert(below(none, dot) == dot);
    lemma_below_file(dir, llmq, toml);
    lemma_below_file(at_home, llmq, toml);
    lemma_below_file(dot, llmq, toml);
    assert(dir + (llmq + slash + toml) == dir + file);
    assert(dir + dot + slash + (llmq + slash + toml) == dir + config + file);
    assert(dir.push(0x2f) + dot + slash + (llmq + slash + toml) == dir + slash + config + file);
    assert(dot + slash + (llmq + slash + toml) == config + file);
}

proof fn lemma_slash()
    ensures
        encode_utf8(seq!['/']) == seq![0x2fu8],
{
    lemma_last_byte(Seq::<char>::empty(), '/');
    assert(Seq::<char>::empty().push('/') == seq!['/']);
    assert(encode_utf8(Seq::<char>::empty()) == Seq::<u8>::empty());
}

/// A plain character ends a text in its one byte.
proof fn lemma_last_byte(s: Seq<char>, c: char)
    requires
        c <= '\u{7f}',
    ensures
        encode_utf8(s.push(c)) == encode_utf8(s).push(c as u8),
{
    let one = seq![c];
    assert(s.push(c) == s + one);
    text::lemma_encode_concat(s, one);
    assert(one.drop_first() == Seq::<char>::empty());
    assert(encode_utf8(one) == encode_scalar(c as u32)) by {
        reveal_with_fuel(encode_utf8, 2);
    }
    let v = c as u32;
    assert(v & 0x7f == v) by (bit_vector)
        requires
            v <= 0x7f,
    ;
    assert(encode_scalar(v) == seq![c as u8]);
}

proof fn lemma_below_file(dir: Seq<u8>, first: Seq<u8>, second: Seq<u8>)
    requires
        first.len() > 0,
        first.last() != 0x2f,
    ensures
        dir.len() == 0 || dir.last() == 0x2f ==> below(below(dir, first), second) == dir + (first
            + seq![0x2fu8] + second),
        dir.len() > 0 && dir.last() != 0x2f ==> below(below(dir, first), second) == dir
            + seq![0x2fu8] + (first + seq![0x2fu8] + second),
{
    let one = below(dir, first);
    assert(one.last() == first.last());
    assert(one.push(0x2f) + second == one + seq![0x2fu8] + second);
}

} // verus!
