//! The settings that the daemon manages: reading them from the configuration document and
//! writing them back into it.
//!
//! The document is JSON with `//` comments. Members that the daemon does not know are kept when
//! it writes. The members `initial_state` and `keymap` are turned into values, and back, by the
//! caller: the functions here take what came out of that.

use vstd::prelude::*;

use crate::ime::{ImeState, Keymap, PunctMode};
use crate::ime;
use crate::json;
use crate::jsonc;
use crate::jsonc::{strip_bom, strip_jsonc_comments};
use crate::text;
use crate::text::{copy_list, same_text};

verus! {

/// Programs whose keys go through untouched: games that need no Chinese input.
pub const DEFAULT_PASSTHROUGH_APPS: [&'static str; 8] = [
    "Cyberpunk2077.exe",
    "b1-Win64-Shipping.exe",
    "b1.exe",
    "eldenring.exe",
    "bg3.exe",
    "RDR2.exe",
    "MonsterHunterWilds.exe",
    "Starfield.exe",
];

/// Programs that draw the candidates themselves: games in which Chinese is typed.
pub const DEFAULT_CANDIDATE_OWNER_APPS: [&'static str; 10] = [
    "wow.exe",
    "WowClassic.exe",
    "Diablo IV.exe",
    "Diablo III64.exe",
    "League of Legends.exe",
    "TslGame.exe",
    "Gw2-64.exe",
    "JX3ClientX64.exe",
    "JX3Client.exe",
    "crossfire.exe",
];

/// The settings that the daemon manages.
#[derive(Debug)]
pub struct DaemonConfig {
    /// `light` or `dark`.
    pub theme: String,
    /// `vertical` or `horizontal`.
    pub candidate_orientation: String,
    /// Candidates on a page.
    pub page_size: usize,
    /// The switches that a new instance starts with.
    pub initial_state: ImeState,
    /// Programs whose keys go through untouched.
    pub passthrough_apps: Vec<String>,
    /// Programs that draw the candidates themselves.
    pub candidate_owner_apps: Vec<String>,
    /// Log modules that are switched off.
    pub disabled_log_modules: Vec<String>,
    /// The shortcuts.
    pub keymap: Keymap,
}

/// What a `DaemonConfig` says.
#[verifier::ext_equal]
pub struct Settings {
    pub theme: Seq<char>,
    pub orientation: Seq<char>,
    pub page_size: int,
    pub initial_state: ImeState,
    pub passthrough_apps: Seq<Seq<char>>,
    pub candidate_owner_apps: Seq<Seq<char>>,
    pub disabled_log_modules: Seq<Seq<char>>,
    pub keymap: Keymap,
}

impl View for DaemonConfig {
    type V = Settings;

    open spec fn view(&self) -> Settings {
        Settings {
            theme: self.theme@,
            orientation: self.candidate_orientation@,
            page_size: self.page_size as int,
            initial_state: self.initial_state,
            passthrough_apps: text::views(self.passthrough_apps@),
            candidate_owner_apps: text::views(self.candidate_owner_apps@),
            disabled_log_modules: text::views(self.disabled_log_modules@),
            keymap: self.keymap,
        }
    }
}

/// The settings of a machine without a configuration: light, vertical, five candidates on a
/// page, the default switches, empty lists, and the shortcuts given.
pub open spec fn default_settings(keymap: Keymap) -> Settings {
    Settings {
        theme: "light"@,
        orientation: "vertical"@,
        page_size: 5,
        initial_state: ime::default_state(),
        passthrough_apps: Seq::empty(),
        candidate_owner_apps: Seq::empty(),
        disabled_log_modules: Seq::empty(),
        keymap,
    }
}

impl DaemonConfig {
    /// The default settings, with the default shortcuts given.
    pub fn defaults(keymap: Keymap) -> (r: DaemonConfig)
        ensures
            r@ == default_settings(keymap),
    {
        let r = DaemonConfig {
            theme: "light".to_owned(),
            candidate_orientation: "vertical".to_owned(),
            page_size: 5,
            initial_state: ImeState::default(),
            passthrough_apps: Vec::new(),
            candidate_owner_apps: Vec::new(),
            disabled_log_modules: Vec::new(),
            keymap,
        };
        assert(r@ =~= default_settings(keymap));
        r
    }
}

/// Whether a theme is the dark one; every other word stands for the light one.
pub fn is_dark(theme: &str) -> (r: bool)
    ensures
        r == (theme@ == "dark"@),
{
    same_text(theme, "dark")
}

impl Clone for DaemonConfig {
    fn clone(&self) -> (r: DaemonConfig)
        ensures
            r@ == self@,
    {
        let r = DaemonConfig {
            theme: self.theme.clone(),
            candidate_orientation: self.candidate_orientation.clone(),
            page_size: self.page_size,
            initial_state: self.initial_state,
            passthrough_apps: copy_list(&self.passthrough_apps),
            candidate_owner_apps: copy_list(&self.candidate_owner_apps),
            disabled_log_modules: copy_list(&self.disabled_log_modules),
            keymap: self.keymap,
        };
        assert(r@ =~= self@);
        r
    }
}

/// The nearest number of candidates on a page that the digit keys can serve: 5 to 9.
pub open spec fn page_size_of(n: int) -> int {
    if n < 5 {
        5
    } else if n > 9 {
        9
    } else {
        n
    }
}

/// What the text of a configuration file holds, its byte order mark and comments aside.
pub open spec fn document_of(t: Seq<char>) -> Option<json::Json> {
    json::json_text(jsonc::stripped(jsonc::without_bom(t)))
}

/// Parses the text of a configuration file. `None` where it is no JSON.
pub fn config_document(text: &str) -> (r: Option<serde_json::Value>)
    ensures
        document_of(text@) == (match r {
            Some(v) => Some(json::json_of(v)),
            None => None::<json::Json>,
        }),
        r matches Some(v) ==> json::nests(json::json_of(v), json::max_depth()),
{
    let bare: String = strip_bom(text);
    let plain: String = strip_jsonc_comments(bare.as_str());
    json::parse(plain.as_str())
}

/// The member of a document with the given name.
pub open spec fn member(doc: json::Json, key: Seq<char>) -> Option<json::Json> {
    match doc {
        json::Json::Object(m) => if m.contains_key(key) {
            Some(m[key])
        } else {
            None
        },
        _ => None,
    }
}

/// The member `key` where it is one of the two words `a` and `b`, else `default`.
pub open spec fn word_member(
    doc: json::Json,
    key: Seq<char>,
    a: Seq<char>,
    b: Seq<char>,
    default: Seq<char>,
) -> Seq<char> {
    match member(doc, key) {
        Some(json::Json::Text(t)) => if t == a || t == b {
            t
        } else {
            default
        },
        _ => default,
    }
}

/// The texts among the items of a list, in their order.
pub open spec fn texts_in(items: Seq<json::Json>) -> Seq<Seq<char>>
    decreases items.len(),
{
    if items.len() == 0 {
        Seq::empty()
    } else {
        let rest = texts_in(items.drop_last());
        match items.last() {
            json::Json::Text(t) => rest.push(t),
            _ => rest,
        }
    }
}

/// The texts of the member `key` where it is a list; none otherwise.
pub open spec fn list_member(doc: json::Json, key: Seq<char>) -> Seq<Seq<char>> {
    match member(doc, key) {
        Some(json::Json::List(items)) => texts_in(items),
        _ => Seq::empty(),
    }
}

/// The member `page_size` brought into range where it is a whole number; 5 otherwise.
pub open spec fn page_member(doc: json::Json) -> int {
    match member(doc, "page_size"@) {
        Some(json::Json::Int(n)) => if 0 <= n <= u64::MAX {
            page_size_of(n)
        } else {
            5
        },
        _ => 5,
    }
}

/// The switches that a document asks for: those that its member `initial_state` stands for
/// (`parsed`), else the default ones, with the punctuation that an old document names in
/// `english_punctuation`.
pub open spec fn state_member(doc: json::Json, parsed: ImeState) -> ImeState {
    if member(doc, "initial_state"@) is Some {
        parsed
    } else {
        match member(doc, "english_punctuation"@) {
            Some(json::Json::Bool(b)) => ImeState {
                punct: if b {
                    PunctMode::English
                } else {
                    PunctMode::Chinese
                },
                ..ime::default_state()
            },
            _ => ime::default_state(),
        }
    }
}

/// The settings that a document asks for. `state` and `keymap` are what its members
/// `initial_state` and `keymap` stand for; `default_keymap` serves where it has no `keymap`.
pub open spec fn settings_in(
    doc: json::Json,
    state: ImeState,
    keymap: Keymap,
    default_keymap: Keymap,
) -> Settings {
    Settings {
        theme: word_member(doc, "theme"@, "dark"@, "light"@, "light"@),
        orientation: word_member(
            doc,
            "candidate_orientation"@,
            "vertical"@,
            "horizontal"@,
            "vertical"@,
        ),
        page_size: page_member(doc),
        initial_state: state_member(doc, state),
        passthrough_apps: list_member(doc, "passthrough_apps"@),
        candidate_owner_apps: list_member(doc, "candidate_owner_apps"@),
        disabled_log_modules: list_member(doc, "disabled_log_modules"@),
        keymap: if member(doc, "keymap"@) is Some {
            keymap
        } else {
            default_keymap
        },
    }
}

/// Reads a member that must be one of two words.
fn read_word(doc: &serde_json::Value, key: &str, a: &str, b: &str, default: &str) -> (r: String)
    ensures
        r@ == word_member(json::json_of(*doc), key@, a@, b@, default@),
{
    match json::get(doc, key) {
        Some(node) => match json::as_str(node) {
            Some(t) => {
                if same_text(t, a) || same_text(t, b) {
                    t.to_owned()
                } else {
                    default.to_owned()
                }
            },
            None => default.to_owned(),
        },
        None => default.to_owned(),
    }
}

/// Reads a member that must be a list, and takes the texts in it.
fn read_list(doc: &serde_json::Value, key: &str) -> (r: Vec<String>)
    ensures
        text::views(r@) == list_member(json::json_of(*doc), key@),
{
    let mut out: Vec<String> = Vec::new();
    assert(text::views(out@) =~= Seq::empty());
    match json::get(doc, key) {
        Some(node) => match json::as_array(node) {
            Some(items) => {
                let ghost all = json::items_of(items@);
                let mut i: usize = 0;
                assert(all.take(0) =~= Seq::empty());
                while i < items.len()
                    invariant
                        i <= items@.len(),
                        all == json::items_of(items@),
                        text::views(out@) == texts_in(all.take(i as int)),
                    decreases items@.len() - i,
                {
                    let ghost before = text::views(out@);
                    assert(all.take(i + 1).drop_last() =~= all.take(i as int));
                    assert(all.take(i + 1).last() == json::json_of(items@[i as int]));
                    if let Some(t) = json::as_str(&items[i]) {
                        out.push(t.to_owned());
                        assert(text::views(out@) =~= before.push(t@));
                    }
                    i = i + 1;
                }
                assert(all.take(all.len() as int) =~= all);
            },
            None => {},
        },
        None => {},
    }
    out
}

/// The settings of a document; the default ones where there is none. `state` and `keymap` are
/// what the document's members `initial_state` and `keymap` stand for.
pub fn load_config(
    document: Option<&serde_json::Value>,
    state: ImeState,
    keymap: Keymap,
    default_keymap: Keymap,
) -> (r: DaemonConfig)
    ensures
        document is None ==> r@ == default_settings(default_keymap),
        document matches Some(v) ==> r@ == settings_in(
            json::json_of(*v),
            state,
            keymap,
            default_keymap,
        ),
{
    let doc: &serde_json::Value = match document {
        Some(v) => v,
        None => return DaemonConfig::defaults(default_keymap),
    };
    let page_size: usize = match json::get(doc, "page_size") {
        Some(node) => match json::as_u64(node) {
            Some(n) => if n < 5 {
                5
            } else if n > 9 {
                9
            } else {
                n as usize
            },
            None => 5,
        },
        None => 5,
    };
    let mut initial_state: ImeState = ImeState::default();
    if json::get(doc, "initial_state").is_some() {
        initial_state = state;
    } else if let Some(node) = json::get(doc, "english_punctuation") {
        if let Some(english) = json::as_bool(node) {
            initial_state.punct = if english {
                PunctMode::English
            } else {
                PunctMode::Chinese
            };
        }
    }
    let r = DaemonConfig {
        theme: read_word(doc, "theme", "dark", "light", "light"),
        candidate_orientation: read_word(
            doc,
            "candidate_orientation",
            "vertical",
            "horizontal",
            "vertical",
        ),
        page_size,
        initial_state,
        passthrough_apps: read_list(doc, "passthrough_apps"),
        candidate_owner_apps: read_list(doc, "candidate_owner_apps"),
        disabled_log_modules: read_list(doc, "disabled_log_modules"),
        keymap: if json::get(doc, "keymap").is_some() {
            keymap
        } else {
            default_keymap
        },
    };
    assert(r@ =~= settings_in(json::json_of(*doc), state, keymap, default_keymap));
    r
}

/// A list of texts as JSON.
pub open spec fn texts_json(list: Seq<Seq<char>>) -> json::Json {
    json::Json::List(list.map_values(|t: Seq<char>| json::Json::Text(t)))
}

/// The members that a configuration file has before it is written: those of the object that it
/// holds, and none where there is no file or it holds anything else.
pub open spec fn existing_members(existing: Option<Seq<char>>) -> Map<Seq<char>, json::Json> {
    match existing {
        Some(t) => match document_of(t) {
            Some(json::Json::Object(m)) => m,
            _ => Map::empty(),
        },
        None => Map::empty(),
    }
}

/// The members with all settings written over them. The old `english_punctuation` goes, every
/// other member stays. `state` and `keymap` are the JSON of the switches and the shortcuts.
pub open spec fn written_members(
    members: Map<Seq<char>, json::Json>,
    s: Settings,
    state: json::Json,
    keymap: json::Json,
) -> Map<Seq<char>, json::Json> {
    members.insert("theme"@, json::Json::Text(s.theme)).insert(
        "candidate_orientation"@,
        json::Json::Text(s.orientation),
    ).insert("page_size"@, json::Json::Int(page_size_of(s.page_size))).insert(
        "initial_state"@,
        state,
    ).insert("passthrough_apps"@, texts_json(s.passthrough_apps)).insert(
        "candidate_owner_apps"@,
        texts_json(s.candidate_owner_apps),
    ).insert("disabled_log_modules"@, texts_json(s.disabled_log_modules)).insert(
        "keymap"@,
        keymap,
    ).remove("english_punctuation"@)
}

/// Whether a name is one of those that the daemon writes or clears.
pub open spec fn is_known(key: Seq<char>) -> bool {
    ||| key == "theme"@
    ||| key == "candidate_orientation"@
    ||| key == "page_size"@
    ||| key == "initial_state"@
    ||| key == "passthrough_apps"@
    ||| key == "candidate_owner_apps"@
    ||| key == "disabled_log_modules"@
    ||| key == "keymap"@
    ||| key == "english_punctuation"@
}

/// The settings as they come back from a document that they were written to: a word that is
/// none of the two allowed ones gives way to the default, the page size is brought into range.
/// `state` and `keymap` are what the written members stand for.
pub open spec fn normalised(s: Settings, state: ImeState, keymap: Keymap) -> Settings {
    Settings {
        theme: if s.theme == "dark"@ || s.theme == "light"@ {
            s.theme
        } else {
            "light"@
        },
        orientation: if s.orientation == "vertical"@ || s.orientation == "horizontal"@ {
            s.orientation
        } else {
            "vertical"@
        },
        page_size: page_size_of(s.page_size),
        initial_state: state,
        keymap,
        ..s
    }
}

/// Makes the JSON list of a list of strings.
fn write_list(list: &Vec<String>) -> (r: serde_json::Value)
    ensures
        json::json_of(r) == texts_json(text::views(list@)),
{
    let mut items: Vec<serde_json::Value> = Vec::new();
    let ghost all = text::views(list@).map_values(|t: Seq<char>| json::Json::Text(t));
    let mut i: usize = 0;
    assert(json::items_of(items@) =~= all.take(0));
    while i < list.len()
        invariant
            i <= list@.len(),
            all == text::views(list@).map_values(|t: Seq<char>| json::Json::Text(t)),
            json::items_of(items@) == all.take(i as int),
        decreases list@.len() - i,
    {
        let ghost before = json::items_of(items@);
        let v: serde_json::Value = json::text_value(list[i].clone());
        assert(json::json_of(v) == all[i as int]);
        items.push(v);
        assert(json::items_of(items@) =~= before.push(all[i as int]));
        assert(all.take(i + 1) =~= all.take(i as int).push(all[i as int]));
        i = i + 1;
    }
    assert(all.take(all.len() as int) =~= all);
    json::list_value(items)
}

proof fn lemma_texts_round_trip(list: Seq<Seq<char>>)
    ensures
        texts_in(list.map_values(|t: Seq<char>| json::Json::Text(t))) == list,
    decreases list.len(),
{
    let items = list.map_values(|t: Seq<char>| json::Json::Text(t));
    if list.len() == 0 {
        assert(list =~= Seq::empty());
    } else {
        lemma_texts_round_trip(list.drop_last());
        assert(items.drop_last() =~= list.drop_last().map_values(
            |t: Seq<char>| json::Json::Text(t),
        ));
        assert(list =~= list.drop_last().push(list.last()));
    }
}

proof fn lemma_texts_exact(list: Seq<Seq<char>>, depth: nat)
    requires
        depth > 0,
    ensures
        json::exact(texts_json(list), depth),
        json::nests(texts_json(list), depth),
{
    reveal_with_fuel(json::exact, 2);
    reveal_with_fuel(json::nests, 2);
}

/// The names of the members are all different.
proof fn lemma_names_differ()
    ensures
        "theme"@.len() == 5,
        "keymap"@.len() == 6,
        "page_size"@.len() == 9,
        "initial_state"@.len() == 13,
        "passthrough_apps"@.len() == 16,
        "candidate_orientation"@.len() == 21,
        "candidate_owner_apps"@.len() == 20,
        "disabled_log_modules"@.len() == 20,
        "candidate_owner_apps"@[0] != "disabled_log_modules"@[0],
        "english_punctuation"@.len() == 19,
{
    reveal_strlit("theme");
    reveal_strlit("keymap");
    reveal_strlit("page_size");
    reveal_strlit("initial_state");
    reveal_strlit("passthrough_apps");
    reveal_strlit("candidate_orientation");
    reveal_strlit("candidate_owner_apps");
    reveal_strlit("disabled_log_modules");
    reveal_strlit("english_punctuation");
}

/// Writing the settings keeps every member that the daemon does not know.
pub proof fn law_unknown_members_kept(
    members: Map<Seq<char>, json::Json>,
    s: Settings,
    state: json::Json,
    keymap: json::Json,
    key: Seq<char>,
)
    requires
        !is_known(key),
    ensures
        written_members(members, s, state, keymap).contains_key(key) == members.contains_key(key),
        members.contains_key(key) ==> written_members(members, s, state, keymap)[key]
            == members[key],
{
}

/// Writing the settings a second time changes nothing more.
pub proof fn law_writing_again_changes_nothing(
    members: Map<Seq<char>, json::Json>,
    s: Settings,
    state: json::Json,
    keymap: json::Json,
)
    ensures
        written_members(written_members(members, s, state, keymap), s, state, keymap)
            == written_members(members, s, state, keymap),
{
    lemma_names_differ();
    assert(written_members(written_members(members, s, state, keymap), s, state, keymap)
        =~= written_members(members, s, state, keymap));
}

/// Whatever a document holds, the settings read from it name one of the two themes, one of the
/// two directions and 5 to 9 candidates.
pub proof fn law_settings_in_range(
    doc: json::Json,
    state: ImeState,
    keymap: Keymap,
    default_keymap: Keymap,
)
    ensures
        ({
            let s = settings_in(doc, state, keymap, default_keymap);
            &&& s.theme == "dark"@ || s.theme == "light"@
            &&& s.orientation == "vertical"@ || s.orientation == "horizontal"@
            &&& 5 <= s.page_size <= 9
        }),
{
}

proof fn lemma_read_back(
    members: Map<Seq<char>, json::Json>,
    s: Settings,
    state: json::Json,
    keymap: json::Json,
    doc: Map<Seq<char>, json::Json>,
    parsed: ImeState,
    parsed_keymap: Keymap,
    default_keymap: Keymap,
)
    requires
        doc.dom() == written_members(members, s, state, keymap).dom(),
        forall|k: Seq<char>|
            written_members(members, s, state, keymap).contains_key(k) && json::exact(
                written_members(members, s, state, keymap)[k],
                (json::max_depth() - 1) as nat,
            ) ==> #[trigger] doc[k] == written_members(members, s, state, keymap)[k],
    ensures
        settings_in(json::Json::Object(doc), parsed, parsed_keymap, default_keymap) == normalised(
            s,
            parsed,
            parsed_keymap,
        ),
{
    let w = written_members(members, s, state, keymap);
    lemma_names_differ();
    let depth = (json::max_depth() - 1) as nat;
    lemma_texts_exact(s.passthrough_apps, depth);
    lemma_texts_exact(s.candidate_owner_apps, depth);
    lemma_texts_exact(s.disabled_log_modules, depth);
    lemma_texts_round_trip(s.passthrough_apps);
    lemma_texts_round_trip(s.candidate_owner_apps);
    lemma_texts_round_trip(s.disabled_log_modules);
    assert(w.contains_key("theme"@) && w["theme"@] == json::Json::Text(s.theme));
    assert(w.contains_key("candidate_orientation"@) && w["candidate_orientation"@]
        == json::Json::Text(s.orientation));
    assert(w.contains_key("page_size"@) && w["page_size"@] == json::Json::Int(
        page_size_of(s.page_size),
    ));
    assert(w.contains_key("initial_state"@));
    assert(w.contains_key("keymap"@));
    assert(w.contains_key("passthrough_apps"@) && w["passthrough_apps"@] == texts_json(
        s.passthrough_apps,
    ));
    assert(w.contains_key("candidate_owner_apps"@) && w["candidate_owner_apps"@] == texts_json(
        s.candidate_owner_apps,
    ));
    assert(w.contains_key("disabled_log_modules"@) && w["disabled_log_modules"@] == texts_json(
        s.disabled_log_modules,
    ));
    assert(doc["theme"@] == w["theme"@]);
    assert(doc["candidate_orientation"@] == w["candidate_orientation"@]);
    assert(doc["page_size"@] == w["page_size"@]);
    assert(doc["passthrough_apps"@] == w["passthrough_apps"@]);
    assert(doc["candidate_owner_apps"@] == w["candidate_owner_apps"@]);
    assert(doc["disabled_log_modules"@] == w["disabled_log_modules"@]);
    assert(doc.contains_key("theme"@));
    assert(doc.contains_key("candidate_orientation"@));
    assert(doc.contains_key("page_size"@));
    assert(doc.contains_key("passthrough_apps"@));
    assert(doc.contains_key("candidate_owner_apps"@));
    assert(doc.contains_key("disabled_log_modules"@));
    assert(doc.contains_key("initial_state"@));
    assert(doc.contains_key("keymap"@));
    assert(settings_in(json::Json::Object(doc), parsed, parsed_keymap, default_keymap)
        =~= normalised(s, parsed, parsed_keymap));
}

/// The JSON of switches: an object of words.
pub open spec fn is_switches(v: json::Json) -> bool {
    v matches json::Json::Object(m) && forall|k: Seq<char>|
        m.contains_key(k) ==> (#[trigger] m[k]) is Text
}

/// The JSON of shortcuts: an object with an object of slots for each action, and in a slot the
/// name of a combination or nothing.
pub open spec fn is_shortcuts(v: json::Json) -> bool {
    v matches json::Json::Object(m) && forall|k: Seq<char>|
        m.contains_key(k) ==> {
            &&& #[trigger] m[k] matches json::Json::Object(slots)
            &&& forall|n: Seq<char>|
                slots.contains_key(n) ==> (#[trigger] slots[n]) is Text || slots[n] is Null
        }
}

/// The JSON of switches and that of shortcuts always come back from the file as they were: they
/// hold no float, and are far from nesting too deep for the parser.
pub proof fn law_switches_and_shortcuts_come_back(state: json::Json, keymap: json::Json)
    requires
        is_switches(state),
        is_shortcuts(keymap),
    ensures
        json::exact(state, (json::max_depth() - 1) as nat),
        json::exact(keymap, (json::max_depth() - 1) as nat),
        json::nests(state, (json::max_depth() - 1) as nat),
        json::nests(keymap, (json::max_depth() - 1) as nat),
{
    let m = keymap->Object_0;
    assert forall|k: Seq<char>| m.contains_key(k) implies json::exact(
        #[trigger] m[k],
        125,
    ) && json::nests(m[k], 125) by {
        let slots = m[k]->Object_0;
        assert forall|n: Seq<char>| slots.contains_key(n) implies json::exact(
            #[trigger] slots[n],
            124,
        ) && json::nests(slots[n], 124) by {}
    }
    let w = state->Object_0;
    assert forall|k: Seq<char>| w.contains_key(k) implies json::exact(
        #[trigger] w[k],
        125,
    ) && json::nests(w[k], 125) by {}
}

/// What was saved is loaded again, in all eight settings: for settings in range, saved over
/// whatever members the file had, the document that is read back from the text stands for the
/// same settings. `parse_state` and `parse_keymap` are how the switches and the shortcuts are read
/// from their JSON; `state` and `keymap` are the JSON from which they read those of the settings,
/// without a float and no deeper than the parser goes, as they always are.
pub proof fn law_saved_settings_load(
    members: Map<Seq<char>, json::Json>,
    s: Settings,
    state: json::Json,
    keymap: json::Json,
    text: Seq<char>,
    parse_state: spec_fn(json::Json) -> ImeState,
    parse_keymap: spec_fn(json::Json) -> Keymap,
    default_keymap: Keymap,
)
    requires
        s.theme == "dark"@ || s.theme == "light"@,
        s.orientation == "vertical"@ || s.orientation == "horizontal"@,
        5 <= s.page_size <= 9,
        json::exact(state, (json::max_depth() - 1) as nat),
        json::exact(keymap, (json::max_depth() - 1) as nat),
        parse_state(state) == s.initial_state,
        parse_keymap(keymap) == s.keymap,
        json::reads_back(text, written_members(members, s, state, keymap)),
    ensures
        ({
            let doc = json::json_text(text)->0;
            &&& member(doc, "initial_state"@) == Some(state)
            &&& member(doc, "keymap"@) == Some(keymap)
            &&& settings_in(
                doc,
                parse_state(member(doc, "initial_state"@)->0),
                parse_keymap(member(doc, "keymap"@)->0),
                default_keymap,
            ) == s
        }),
{
    let doc = json::json_text(text)->0->Object_0;
    let w = written_members(members, s, state, keymap);
    lemma_names_differ();
    assert(w.contains_key("initial_state"@) && w["initial_state"@] == state);
    assert(w.contains_key("keymap"@) && w["keymap"@] == keymap);
    assert(doc.contains_key("initial_state"@) && doc.contains_key("keymap"@));
    assert(doc["initial_state"@] == state);
    assert(doc["keymap"@] == keymap);
    lemma_read_back(
        members,
        s,
        state,
        keymap,
        doc,
        s.initial_state,
        s.keymap,
        default_keymap,
    );
    assert(normalised(s, s.initial_state, s.keymap) =~= s);
}

/// The new text of the configuration file: the document that `existing` holds, with all
/// settings written over it. `state` and `keymap` are the JSON of the switches and shortcuts.
///
/// The settings come back from the text, unless `state` or `keymap` nests deeper than the parser
/// goes, in which case it takes back nothing.
pub fn save_config(
    cfg: &DaemonConfig,
    existing: Option<&str>,
    state: serde_json::Value,
    keymap: serde_json::Value,
) -> (r: String)
    ensures
        ({
            let old_text = match existing {
                Some(t) => Some(t@),
                None => None::<Seq<char>>,
            };
            let members = written_members(
                existing_members(old_text),
                cfg@,
                json::json_of(state),
                json::json_of(keymap),
            );
            &&& r@ == json::json_pretty(json::Json::Object(members))
            &&& document_of(r@) == json::json_text(r@)
            &&& json::nests(json::json_of(state), (json::max_depth() - 1) as nat) && json::nests(
                json::json_of(keymap),
                (json::max_depth() - 1) as nat,
            ) ==> {
                &&& document_of(r@) is Some
                &&& document_of(r@)->0 is Object
                &&& json::reads_back(r@, members)
                &&& forall|i: ImeState, k: Keymap, d: Keymap|
                    #[trigger] settings_in(document_of(r@)->0, i, k, d) == normalised(cfg@, i, k)
            }
        }),
{
    let mut root: serde_json::Value = json::empty_object();
    if let Some(t) = existing {
        if let Some(doc) = config_document(t) {
            if json::is_object(&doc) {
                root = doc;
            }
        }
    }
    let ghost members = json::json_of(root)->Object_0;
    let ghost state_json = json::json_of(state);
    let ghost keymap_json = json::json_of(keymap);
    assert(json::nests(json::json_of(root), json::max_depth()));
    let page_size: u64 = if cfg.page_size < 5 {
        5
    } else if cfg.page_size > 9 {
        9
    } else {
        cfg.page_size as u64
    };
    json::insert(&mut root, "theme", json::text_value(cfg.theme.clone()));
    json::insert(
        &mut root,
        "candidate_orientation",
        json::text_value(cfg.candidate_orientation.clone()),
    );
    json::insert(&mut root, "page_size", json::number_value(page_size));
    json::insert(&mut root, "initial_state", state);
    json::insert(&mut root, "passthrough_apps", write_list(&cfg.passthrough_apps));
    json::insert(&mut root, "candidate_owner_apps", write_list(&cfg.candidate_owner_apps));
    json::insert(&mut root, "disabled_log_modules", write_list(&cfg.disabled_log_modules));
    json::insert(&mut root, "keymap", keymap);
    json::remove(&mut root, "english_punctuation");
    let ghost written = written_members(members, cfg@, state_json, keymap_json);
    assert(json::json_of(root) == json::Json::Object(written));
    let r: String = json::pretty(&root).unwrap();
    proof {
        let depth = (json::max_depth() - 1) as nat;
        if json::nests(state_json, depth) && json::nests(keymap_json, depth) {
            lemma_texts_exact(cfg@.passthrough_apps, depth);
            lemma_texts_exact(cfg@.candidate_owner_apps, depth);
            lemma_texts_exact(cfg@.disabled_log_modules, depth);
            assert forall|k: Seq<char>| written.contains_key(k) implies json::nests(
                #[trigger] written[k],
                depth,
            ) by {
                if !is_known(k) {
                    law_unknown_members_kept(members, cfg@, state_json, keymap_json, k);
                }
            }
            let t = r@;
            let doc = document_of(t)->0->Object_0;
            assert forall|i: ImeState, k: Keymap, d: Keymap| #[trigger]
                settings_in(document_of(t)->0, i, k, d) == normalised(cfg@, i, k) by {
                lemma_read_back(members, cfg@, state_json, keymap_json, doc, i, k, d);
            }
        }
    }
    r
}

/// A page holds five to nine candidates; another number becomes the nearest of these.
pub proof fn law_page_size(n: int)
    ensures
        5 <= page_size_of(n) <= 9,
        5 <= n <= 9 ==> page_size_of(n) == n,
        n <= 5 ==> page_size_of(n) == 5,
        n >= 9 ==> page_size_of(n) == 9,
{
}

/// Of a list, the texts are taken in their order, and what is no text is passed over.
pub proof fn law_texts_taken(items: Seq<json::Json>, item: json::Json)
    ensures
        texts_in(Seq::empty()) == Seq::<Seq<char>>::empty(),
        item is Text ==> texts_in(items.push(item)) == texts_in(items).push(item->Text_0),
        !(item is Text) ==> texts_in(items.push(item)) == texts_in(items),
{
    assert(items.push(item).drop_last() =~= items);
}

/// Each setting is read from the member of its name, and from no other; one that is missing or not
/// of its kind is as by default.
pub proof fn law_settings_by_name(
    m: Map<Seq<char>, json::Json>,
    state: ImeState,
    keymap: Keymap,
    default_keymap: Keymap,
    items: Seq<json::Json>,
    n: int,
)
    ensures
        ({
            let s = settings_in(json::Json::Object(m), state, keymap, default_keymap);
            let has = |k: Seq<char>, v: json::Json| m.contains_key(k) && m[k] == v;
            &&& s.theme == "dark"@ <==> has("theme"@, json::Json::Text("dark"@))
            &&& s.theme == "dark"@ || s.theme == "light"@
            &&& s.orientation == "horizontal"@ <==> has(
                "candidate_orientation"@,
                json::Json::Text("horizontal"@),
            )
            &&& s.orientation == "horizontal"@ || s.orientation == "vertical"@
            &&& has("page_size"@, json::Json::Int(n)) && 5 <= n <= 9 ==> s.page_size == n
            &&& !m.contains_key("page_size"@) ==> s.page_size == 5
            &&& has("passthrough_apps"@, json::Json::List(items)) ==> s.passthrough_apps
                == texts_in(items)
            &&& !m.contains_key("passthrough_apps"@) ==> s.passthrough_apps.len() == 0
            &&& has("candidate_owner_apps"@, json::Json::List(items)) ==> s.candidate_owner_apps
                == texts_in(items)
            &&& !m.contains_key("candidate_owner_apps"@) ==> s.candidate_owner_apps.len() == 0
            &&& has("disabled_log_modules"@, json::Json::List(items)) ==> s.disabled_log_modules
                == texts_in(items)
            &&& !m.contains_key("disabled_log_modules"@) ==> s.disabled_log_modules.len() == 0
            &&& s.keymap == if m.contains_key("keymap"@) {
                keymap
            } else {
                default_keymap
            }
            &&& m.contains_key("initial_state"@) ==> s.initial_state == state
            &&& !m.contains_key("initial_state"@) ==> s.initial_state == (ImeState {
                punct: if has("english_punctuation"@, json::Json::Bool(true)) {
                    PunctMode::English
                } else {
                    PunctMode::Chinese
                },
                ..ime::default_state()
            })
        }),
{
    reveal_strlit("dark");
    reveal_strlit("light");
    reveal_strlit("vertical");
    reveal_strlit("horizontal");
    assert("dark"@.len() != "light"@.len());
    assert("vertical"@.len() != "horizontal"@.len());
    crate::ime::law_default_switches();
}

/// What is no object has no settings: all are as by default.
pub proof fn law_no_object_no_settings(
    doc: json::Json,
    state: ImeState,
    keymap: Keymap,
    default_keymap: Keymap,
)
    requires
        !(doc is Object),
    ensures
        settings_in(doc, state, keymap, default_keymap) == default_settings(default_keymap),
{
}

/// By default: light, one under the other, five to a page, no program and no log left out.
pub proof fn law_defaults(keymap: Keymap)
    ensures
        ({
            let d = default_settings(keymap);
            &&& d.theme == "light"@
            &&& d.orientation == "vertical"@
            &&& d.page_size == 5
            &&& d.initial_state == ime::default_state()
            &&& d.passthrough_apps.len() == 0
            &&& d.candidate_owner_apps.len() == 0
            &&& d.disabled_log_modules.len() == 0
            &&& d.keymap == keymap
        }),
{
}

/// Each setting is written to the member of its name; the member that came before the switches is
/// not written any more.
pub proof fn law_written_by_name(
    members: Map<Seq<char>, json::Json>,
    s: Settings,
    state: json::Json,
    keymap: json::Json,
    i: int,
)
    ensures
        ({
            let w = written_members(members, s, state, keymap);
            &&& w.contains_key("theme"@) && w["theme"@] == json::Json::Text(s.theme)
            &&& w.contains_key("candidate_orientation"@) && w["candidate_orientation"@]
                == json::Json::Text(s.orientation)
            &&& w.contains_key("page_size"@) && w["page_size"@] == json::Json::Int(
                page_size_of(s.page_size),
            )
            &&& w.contains_key("initial_state"@) && w["initial_state"@] == state
            &&& w.contains_key("keymap"@) && w["keymap"@] == keymap
            &&& !w.contains_key("english_punctuation"@)
            &&& w.contains_key("passthrough_apps"@) && w["passthrough_apps"@] is List
            &&& w.contains_key("candidate_owner_apps"@) && w["candidate_owner_apps"@] is List
            &&& w.contains_key("disabled_log_modules"@) && w["disabled_log_modules"@] is List
            &&& w["passthrough_apps"@]->List_0.len() == s.passthrough_apps.len()
            &&& w["candidate_owner_apps"@]->List_0.len() == s.candidate_owner_apps.len()
            &&& w["disabled_log_modules"@]->List_0.len() == s.disabled_log_modules.len()
            &&& 0 <= i < s.passthrough_apps.len() ==> w["passthrough_apps"@]->List_0[i]
                == json::Json::Text(s.passthrough_apps[i])
            &&& 0 <= i < s.candidate_owner_apps.len() ==> w["candidate_owner_apps"@]->List_0[i]
                == json::Json::Text(s.candidate_owner_apps[i])
            &&& 0 <= i < s.disabled_log_modules.len() ==> w["disabled_log_modules"@]->List_0[i]
                == json::Json::Text(s.disabled_log_modules[i])
        }),
{
    lemma_names_differ();
}

/// What stood in the file is gone on from where it was an object, and only then.
pub proof fn law_file_gone_on_from(t: Seq<char>)
    ensures
        existing_members(None) == Map::<Seq<char>, json::Json>::empty(),
        document_of(t) is None ==> existing_members(Some(t)) == Map::<
            Seq<char>,
            json::Json,
        >::empty(),
        document_of(t) is Some && document_of(t)->0 is Object ==> existing_members(Some(t))
            == document_of(t)->0->Object_0,
{
}

/// Normalising keeps what can be read back and nothing else: a theme and a direction that are none
/// become the default ones.
pub proof fn law_normalised(s: Settings, state: ImeState, keymap: Keymap)
    ensures
        ({
            let n = normalised(s, state, keymap);
            &&& s.theme == "dark"@ || s.theme == "light"@ ==> n.theme == s.theme
            &&& s.theme != "dark"@ ==> n.theme == "light"@
            &&& s.orientation == "vertical"@ || s.orientation == "horizontal"@ ==> n.orientation
                == s.orientation
            &&& s.orientation != "horizontal"@ ==> n.orientation == "vertical"@
            &&& 5 <= s.page_size <= 9 ==> n.page_size == s.page_size
            &&& 5 <= n.page_size <= 9
            &&& n.initial_state == state && n.keymap == keymap
            &&& n.passthrough_apps == s.passthrough_apps
            &&& n.candidate_owner_apps == s.candidate_owner_apps
            &&& n.disabled_log_modules == s.disabled_log_modules
        }),
{
}

} // verus!
