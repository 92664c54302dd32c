use iuv_windows::config::{
    config_document, is_dark, load_config, save_config, DaemonConfig, DEFAULT_CANDIDATE_OWNER_APPS,
    DEFAULT_PASSTHROUGH_APPS,
};
use iuv_windows::ime::{
    Combo, ImeState, InitialMode, Key, Keymap, PunctMode, ScriptMode, TwoSlot, WidthMode,
};
use iuv_windows::jsonc::{strip_bom, strip_jsonc_comments};
use serde_json::Value;

fn unset() -> TwoSlot {
    TwoSlot { primary: None, secondary: None }
}

fn one(c: Combo) -> TwoSlot {
    TwoSlot { primary: Some(c), secondary: None }
}

fn default_keymap() -> Keymap {
    Keymap {
        page_prev: one(Combo::plain(Key::PageUp)),
        page_next: one(Combo::plain(Key::PageDown)),
        candidate_prev: one(Combo::plain(Key::Left)),
        candidate_next: one(Combo::plain(Key::Right)),
        swap_left: one(Combo::shifted(Key::Left)),
        swap_right: one(Combo::shifted(Key::Right)),
        hide_candidate: one(Combo::shifted(Key::Delete)),
        toggle_mode: unset(),
        toggle_width: unset(),
        toggle_script: unset(),
        toggle_punct: unset(),
        open_settings: unset(),
        toggle_toolbar: unset(),
    }
}

fn key_name(k: Key) -> &'static str {
    match k {
        Key::PageUp => "PageUp",
        Key::PageDown => "PageDown",
        Key::Left => "Left",
        Key::Right => "Right",
        Key::Delete => "Delete",
        Key::F5 => "F5",
        _ => panic!("no name for {k:?}"),
    }
}

fn key_named(name: &str) -> Option<Key> {
    match name {
        "PageUp" => Some(Key::PageUp),
        "PageDown" => Some(Key::PageDown),
        "Left" => Some(Key::Left),
        "Right" => Some(Key::Right),
        "Delete" => Some(Key::Delete),
        "F5" => Some(Key::F5),
        _ => None,
    }
}

fn combo_value(c: Option<Combo>) -> Value {
    match c {
        None => Value::Null,
        Some(c) => {
            let mut t = String::new();
            if c.shift {
                t.push_str("Shift+");
            }
            t.push_str(key_name(c.base));
            Value::String(t)
        }
    }
}

fn combo_in(v: Option<&Value>) -> Option<Combo> {
    let t = v?.as_str()?;
    match t.strip_prefix("Shift+") {
        Some(rest) => Some(Combo::shifted(key_named(rest)?)),
        None => Some(Combo::plain(key_named(t)?)),
    }
}

fn slot_value(s: TwoSlot) -> Value {
    let mut m = serde_json::Map::new();
    m.insert("primary".into(), combo_value(s.primary));
    m.insert("secondary".into(), combo_value(s.secondary));
    Value::Object(m)
}

fn slot_in(v: &Value, name: &str) -> TwoSlot {
    TwoSlot {
        primary: combo_in(v[name].get("primary")),
        secondary: combo_in(v[name].get("secondary")),
    }
}

fn keymap_value(k: &Keymap) -> Value {
    let mut m = serde_json::Map::new();
    m.insert("page_prev".into(), slot_value(k.page_prev));
    m.insert("page_next".into(), slot_value(k.page_next));
    m.insert("toggle_mode".into(), slot_value(k.toggle_mode));
    Value::Object(m)
}

fn keymap_in(doc: &Value) -> Keymap {
    let mut k = default_keymap();
    if let Some(v) = doc.get("keymap") {
        k.page_prev = slot_in(v, "page_prev");
        k.page_next = slot_in(v, "page_next");
        k.toggle_mode = slot_in(v, "toggle_mode");
    }
    k
}

fn state_value(s: ImeState) -> Value {
    let mut m = serde_json::Map::new();
    let mode = if s.mode == InitialMode::Chinese { "chinese" } else { "english" };
    let width = if s.width == WidthMode::Half { "half" } else { "full" };
    let script = if s.script == ScriptMode::Simplified { "simplified" } else { "traditional" };
    let punct = if s.punct == PunctMode::Chinese { "chinese" } else { "english" };
    m.insert("mode".into(), Value::String(mode.into()));
    m.insert("width".into(), Value::String(width.into()));
    m.insert("script".into(), Value::String(script.into()));
    m.insert("punct".into(), Value::String(punct.into()));
    Value::Object(m)
}

fn state_in(doc: &Value) -> ImeState {
    let mut s = ImeState::default();
    if let Some(v) = doc.get("initial_state") {
        if v["mode"] == "english" {
            s.mode = InitialMode::English;
        }
        if v["width"] == "full" {
            s.width = WidthMode::Full;
        }
        if v["script"] == "traditional" {
            s.script = ScriptMode::Traditional;
        }
        if v["punct"] == "english" {
            s.punct = PunctMode::English;
        }
    }
    s
}

/// The settings in the text of a file, or without one.
fn load(text: Option<&str>) -> DaemonConfig {
    let doc = text.and_then(config_document);
    match &doc {
        Some(v) => load_config(Some(v), state_in(v), keymap_in(v), default_keymap()),
        None => load_config(None, ImeState::default(), default_keymap(), default_keymap()),
    }
}

fn save(cfg: &DaemonConfig, existing: Option<&str>) -> String {
    save_config(cfg, existing, state_value(cfg.initial_state), keymap_value(&cfg.keymap))
}

#[test]
fn strip_comments_keeps_strings() {
    let src = r#"{"a": "http://x", "theme": "dark"}"#;
    assert_eq!(
        strip_jsonc_comments(src),
        r#"{"a": "http://x", "theme": "dark"}"#
    );
    let src2 = "{\"a\": 1 // 注释\n}";
    assert_eq!(strip_jsonc_comments(src2), "{\"a\": 1 \n}");
}

#[test]
fn save_preserves_unknown_fields() {
    let existing = r#"{"page_size": 7, "keymap": {"page_prev": ["["]}, "theme": "light"}"#;
    let cfg = DaemonConfig {
        theme: "dark".into(),
        candidate_orientation: "horizontal".into(),
        page_size: 7,
        initial_state: ImeState {
            mode: InitialMode::Chinese,
            width: WidthMode::Half,
            script: ScriptMode::Simplified,
            punct: PunctMode::English,
        },
        passthrough_apps: vec!["notepad.exe".to_string()],
        candidate_owner_apps: vec!["wow.exe".to_string()],
        disabled_log_modules: vec!["uielem".to_string()],
        keymap: Keymap { toggle_mode: one(Combo::plain(Key::F5)), ..default_keymap() },
    };
    let text = save(&cfg, Some(existing));
    let v: Value = serde_json::from_str(&text).unwrap();
    assert_eq!(v["page_size"], 7);
    assert_eq!(v["keymap"]["page_prev"]["primary"], "PageUp");
    assert_eq!(v["keymap"]["toggle_mode"]["primary"], "F5");
    assert_eq!(v["theme"], "dark");
    assert_eq!(v["candidate_orientation"], "horizontal");
    assert_eq!(v["initial_state"]["mode"], "chinese");
    assert_eq!(v["initial_state"]["width"], "half");
    assert_eq!(v["initial_state"]["script"], "simplified");
    assert_eq!(v["initial_state"]["punct"], "english");
    assert_eq!(v["passthrough_apps"][0], "notepad.exe");
    assert_eq!(v["candidate_owner_apps"][0], "wow.exe");
    assert_eq!(v["disabled_log_modules"][0], "uielem");
    assert!(v.get("english_punctuation").is_none());
    let cfg = load(Some(&text));
    assert_eq!(cfg.theme, "dark");
    assert_eq!(cfg.candidate_orientation, "horizontal");
    assert_eq!(cfg.page_size, 7);
    assert_eq!(cfg.initial_state.punct, PunctMode::English, "英文标点往返");
    assert_eq!(cfg.passthrough_apps, vec!["notepad.exe".to_string()]);
    assert_eq!(cfg.candidate_owner_apps, vec!["wow.exe".to_string()]);
    assert_eq!(cfg.disabled_log_modules, vec!["uielem".to_string()]);
    assert_eq!(cfg.keymap.toggle_mode.primary, Some(Combo::plain(Key::F5)));
    assert_eq!(cfg.keymap.page_prev.primary, Some(Combo::plain(Key::PageUp)));
}

#[test]
fn load_legacy_english_punctuation_migrates() {
    let cfg = load(Some(r#"{ "english_punctuation": true, "theme": "dark" }"#));
    assert_eq!(cfg.initial_state.punct, PunctMode::English, "旧键 true → 英文标点");
    assert_eq!(cfg.initial_state.mode, InitialMode::Chinese, "其余默认");
    assert_eq!(cfg.theme, "dark");
}

#[test]
fn load_clamps_page_size() {
    let cfg = load(Some(r#"{ "page_size": 3 }"#));
    assert_eq!(cfg.page_size, 5, "3 钳回下界 5");
    let cfg = load(Some(r#"{ "page_size": 12 }"#));
    assert_eq!(cfg.page_size, 9, "12 钳回上界 9");
}

#[test]
fn load_missing_uses_default() {
    let cfg = load(None);
    assert_eq!(cfg.theme, "light");
    assert_eq!(cfg.candidate_orientation, "vertical", "缺省布局竖排");
    assert_eq!(cfg.page_size, 5, "缺省每页 5 条");
    assert_eq!(
        cfg.initial_state,
        ImeState::default(),
        "缺省初始状态 = 中文/半角/简体/中文标点"
    );
    assert!(cfg.passthrough_apps.is_empty());
    assert!(cfg.candidate_owner_apps.is_empty(), "缺省候选自绘名单为空（恒自绘）");
    assert!(cfg.disabled_log_modules.is_empty(), "缺省字段默认全记录");
}

#[test]
fn default_app_lists_contract() {
    assert!(DEFAULT_CANDIDATE_OWNER_APPS.contains(&"wow.exe"));
    assert!(DEFAULT_PASSTHROUGH_APPS.contains(&"Cyberpunk2077.exe"));
    for (name, list) in [
        ("候选自绘", &DEFAULT_CANDIDATE_OWNER_APPS[..]),
        ("按键直通", &DEFAULT_PASSTHROUGH_APPS[..]),
    ] {
        assert!(!list.is_empty(), "{name}默认名单不应为空");
        assert!(
            list.iter()
                .all(|s| s.ends_with(".exe") && s.chars().all(|c| c.is_ascii())),
            "{name}名单须为 ASCII .exe 名：{list:?}"
        );
        assert!(
            list.iter().all(|s| !s.trim().is_empty()),
            "{name}名单不得含空条目"
        );
    }
}

#[test]
fn comments_of_both_ends_and_kinds() {
    assert_eq!(strip_jsonc_comments("// all\n{}"), "\n{}");
    assert_eq!(strip_jsonc_comments("{} // tail"), "{} ");
    assert_eq!(strip_jsonc_comments("{}\r\n// x\r\n{}"), "{}\r\n\r\n{}", "line ends stay");
    assert_eq!(strip_jsonc_comments("\"a \\\" // b\" // c"), "\"a \\\" // b\" ");
    assert_eq!(strip_jsonc_comments("\"中 // 文\"//x"), "\"中 // 文\"");
    assert_eq!(strip_jsonc_comments("a / b"), "a / b");
}

#[test]
fn byte_order_mark_is_dropped_once() {
    assert_eq!(strip_bom("\u{FEFF}{}"), "{}");
    assert_eq!(strip_bom("{}"), "{}");
    let cfg = load(Some("\u{FEFF}{ \"theme\": \"dark\" // x\n}"));
    assert_eq!(cfg.theme, "dark");
}

#[test]
fn broken_document_is_none() {
    assert!(config_document("{ \"theme\": ").is_none());
    assert!(config_document("").is_none());
    assert!(config_document("{}").is_some());
    assert!(config_document("[1]").is_some());
}

#[test]
fn unusable_members_give_way_to_defaults() {
    let cfg = load(Some(
        r#"{"theme": "pink", "candidate_orientation": 3, "page_size": "7",
            "passthrough_apps": "x", "candidate_owner_apps": ["a.exe", 4, "b.exe"]}"#,
    ));
    assert_eq!(cfg.theme, "light");
    assert_eq!(cfg.candidate_orientation, "vertical");
    assert_eq!(cfg.page_size, 5);
    assert!(cfg.passthrough_apps.is_empty());
    assert_eq!(cfg.candidate_owner_apps, vec!["a.exe".to_string(), "b.exe".to_string()]);
}

#[test]
fn members_that_are_not_known_stay() {
    let cfg = load(None);
    let text = save(&cfg, Some(r#"{"max_candidates": 200, "nested": {"a": [1, null]}}"#));
    let v: Value = serde_json::from_str(&text).unwrap();
    assert_eq!(v["max_candidates"], 200);
    assert_eq!(v["nested"]["a"][0], 1);
    assert!(v["nested"]["a"][1].is_null());
    assert_eq!(v["page_size"], 5);
    let again = save(&load(Some(&text)), Some(&text));
    assert_eq!(again, text, "saving again changes nothing");
}

#[test]
fn unreadable_file_is_written_anew() {
    let cfg = load(None);
    let text = save(&cfg, Some("not json"));
    let v: Value = serde_json::from_str(&text).unwrap();
    assert_eq!(v["theme"], "light");
    assert_eq!(v["keymap"]["page_prev"]["primary"], "PageUp");
    let text = save(&cfg, Some("[1, 2]"));
    let v: Value = serde_json::from_str(&text).unwrap();
    assert!(v.is_object(), "a list gives way to an object");
    assert_eq!(v["candidate_orientation"], "vertical");
}

#[test]
fn page_size_is_clamped_on_saving() {
    let mut cfg = load(None);
    cfg.page_size = 99;
    let v: Value = serde_json::from_str(&save(&cfg, None)).unwrap();
    assert_eq!(v["page_size"], 9);
    cfg.page_size = 0;
    let v: Value = serde_json::from_str(&save(&cfg, None)).unwrap();
    assert_eq!(v["page_size"], 5);
}

#[test]
fn defaults_are_the_settings_without_a_file() {
    let d = DaemonConfig::defaults(default_keymap());
    assert_eq!(d.theme, "light");
    assert_eq!(d.page_size, 5);
    assert_eq!(d.clone().candidate_orientation, "vertical");
    assert_eq!(d.keymap, default_keymap());
}

#[test]
fn every_other_theme_is_light() {
    assert!(is_dark("dark"));
    assert!(!is_dark("light"));
    assert!(!is_dark("Dark"));
    assert!(!is_dark(""));
}

#[test]
fn saved_settings_are_loaded_again() {
    let saved = DaemonConfig {
        theme: "dark".into(),
        candidate_orientation: "horizontal".into(),
        page_size: 9,
        initial_state: ImeState {
            mode: InitialMode::English,
            width: WidthMode::Full,
            script: ScriptMode::Traditional,
            punct: PunctMode::English,
        },
        passthrough_apps: vec!["a.exe".into(), "中 // 文.exe".into()],
        candidate_owner_apps: vec![],
        disabled_log_modules: vec!["uielem".into()],
        keymap: Keymap { toggle_mode: one(Combo::plain(Key::F5)), ..default_keymap() },
    };
    for existing in [None, Some("{}"), Some("not json"), Some("[1]"), Some(r#"{"theme": 3, "x": 1}"#)] {
        let loaded = load(Some(&save(&saved, existing)));
        assert_eq!(loaded.theme, saved.theme);
        assert_eq!(loaded.candidate_orientation, saved.candidate_orientation);
        assert_eq!(loaded.page_size, saved.page_size);
        assert_eq!(loaded.initial_state, saved.initial_state);
        assert_eq!(loaded.passthrough_apps, saved.passthrough_apps);
        assert_eq!(loaded.candidate_owner_apps, saved.candidate_owner_apps);
        assert_eq!(loaded.disabled_log_modules, saved.disabled_log_modules);
        assert_eq!(loaded.keymap.toggle_mode.primary, saved.keymap.toggle_mode.primary);
        assert_eq!(loaded.keymap.page_prev.primary, saved.keymap.page_prev.primary);
    }
}

#[test]
fn comments_are_removed_once() {
    for t in ["{\"a\": \"// \\\" //\" // b\r\n}", "a / b // c", "\"open // \\", "/\"x\"//y\n/", "///"] {
        let once = strip_jsonc_comments(t);
        assert_eq!(strip_jsonc_comments(&once), once, "{t}");
    }
}
