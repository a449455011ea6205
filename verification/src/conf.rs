//! The application's settings: defaults, reading them from a JSON document,
//! and amending them with a partial document.

use vstd::prelude::*;

use crate::json::{json_document, parse_document, JsonValue};

verus! {

/// The settings the application keeps between runs.
pub struct AppConf {
    pub theme: String,
    pub stay_on_top: bool,
    pub ask_mode: bool,
    pub mac_titlebar_hidden: bool,
}

/// The settings as mathematical values.
pub struct AppConfView {
    pub theme: Seq<char>,
    pub stay_on_top: bool,
    pub ask_mode: bool,
    pub mac_titlebar_hidden: bool,
}

impl View for AppConf {
    type V = AppConfView;

    open spec fn view(&self) -> AppConfView {
        AppConfView {
            theme: self.theme@,
            stay_on_top: self.stay_on_top,
            ask_mode: self.ask_mode,
            mac_titlebar_hidden: self.mac_titlebar_hidden,
        }
    }
}

/// One of the four settings.
#[derive(PartialEq, Eq, Structural, Clone, Copy, Debug)]
pub enum ConfField {
    Theme,
    StayOnTop,
    AskMode,
    MacTitlebarHidden,
}

/// Why a JSON document does not describe settings.
#[derive(PartialEq, Eq, Structural, Clone, Copy, Debug)]
pub enum ConfError {
    /// The document is not an object (nor, when reading settings, an array).
    WrongShape,
    /// A member holds a value of the wrong JSON type.
    InvalidType(ConfField),
    /// A member occurs twice.
    DuplicateField(ConfField),
    /// A member is absent.
    MissingField(ConfField),
    /// The array form does not hold exactly four values.
    InvalidLength,
}

/// Why the stored settings could not be loaded.
#[derive(PartialEq, Eq, Structural, Clone, Copy, Debug)]
pub enum LoadError {
    /// The settings file is not JSON.
    NotJson,
    /// The document does not describe settings, even completed with the defaults.
    Conf(ConfError),
}

/// What loading the stored settings gives: the settings, and whether the
/// file must be written back.
pub struct Loaded {
    pub conf: AppConf,
    pub rewrite: bool,
}

/// The member name under which a setting is stored.
pub open spec fn key_of(f: ConfField) -> Seq<char> {
    match f {
        ConfField::Theme => "theme"@,
        ConfField::StayOnTop => "stay_on_top"@,
        ConfField::AskMode => "ask_mode"@,
        ConfField::MacTitlebarHidden => "mac_titlebar_hidden"@,
    }
}

/// The setting stored under a member name, if any.
pub open spec fn field_of_key(key: Seq<char>) -> Option<ConfField> {
    if key == "theme"@ {
        Some(ConfField::Theme)
    } else if key == "stay_on_top"@ {
        Some(ConfField::StayOnTop)
    } else if key == "ask_mode"@ {
        Some(ConfField::AskMode)
    } else if key == "mac_titlebar_hidden"@ {
        Some(ConfField::MacTitlebarHidden)
    } else {
        None
    }
}

/// Whether a JSON value has the type a setting is stored as: a string for
/// the theme, a boolean for the others.
pub open spec fn accepts(f: ConfField, v: JsonValue) -> bool {
    match f {
        ConfField::Theme => v is String,
        _ => v is Bool,
    }
}

/// The value of the last member of `entries` that stores setting `f`.
pub open spec fn member(entries: Seq<(String, JsonValue)>, f: ConfField) -> Option<JsonValue>
    decreases entries.len(),
{
    if entries.len() == 0 {
        None
    } else if field_of_key(entries.last().0@) == Some(f) {
        Some(entries.last().1)
    } else {
        member(entries.drop_last(), f)
    }
}

/// Whether the patch sets `f` to a value of the wrong type.
pub open spec fn rejects(entries: Seq<(String, JsonValue)>, f: ConfField) -> bool {
    match member(entries, f) {
        Some(v) => !accepts(f, v),
        None => false,
    }
}

/// A boolean setting after a patch.
pub open spec fn patched_flag(entries: Seq<(String, JsonValue)>, f: ConfField, old: bool) -> bool {
    match member(entries, f) {
        Some(JsonValue::Bool(b)) => b,
        _ => old,
    }
}

/// The theme after a patch.
pub open spec fn patched_theme(entries: Seq<(String, JsonValue)>, old: Seq<char>) -> Seq<char> {
    match member(entries, ConfField::Theme) {
        Some(JsonValue::String(s)) => s@,
        _ => old,
    }
}

/// The settings `c` amended with the JSON value `patch`: the patch must be
/// an object; each setting it names takes the patch's value, which must have
/// the setting's type (the first offending setting in member-name order is
/// reported); members that name no setting are ignored.
pub open spec fn amended(c: AppConfView, patch: JsonValue) -> Result<AppConfView, ConfError> {
    match patch {
        JsonValue::Object(entries) => {
            let es = entries@;
            if rejects(es, ConfField::AskMode) {
                Err(ConfError::InvalidType(ConfField::AskMode))
            } else if rejects(es, ConfField::MacTitlebarHidden) {
                Err(ConfError::InvalidType(ConfField::MacTitlebarHidden))
            } else if rejects(es, ConfField::StayOnTop) {
                Err(ConfError::InvalidType(ConfField::StayOnTop))
            } else if rejects(es, ConfField::Theme) {
                Err(ConfError::InvalidType(ConfField::Theme))
            } else {
                Ok(
                    AppConfView {
                        theme: patched_theme(es, c.theme),
                        stay_on_top: patched_flag(es, ConfField::StayOnTop, c.stay_on_top),
                        ask_mode: patched_flag(es, ConfField::AskMode, c.ask_mode),
                        mac_titlebar_hidden: patched_flag(
                            es,
                            ConfField::MacTitlebarHidden,
                            c.mac_titlebar_hidden,
                        ),
                    },
                )
            }
        },
        _ => Err(ConfError::WrongShape),
    }
}

/// The settings read so far from an object's members.
pub struct Slots {
    pub theme: Option<Seq<char>>,
    pub stay_on_top: Option<bool>,
    pub ask_mode: Option<bool>,
    pub mac_titlebar_hidden: Option<bool>,
}

pub open spec fn empty_slots() -> Slots {
    Slots { theme: None, stay_on_top: None, ask_mode: None, mac_titlebar_hidden: None }
}

pub open spec fn slot_filled(s: Slots, f: ConfField) -> bool {
    match f {
        ConfField::Theme => s.theme is Some,
        ConfField::StayOnTop => s.stay_on_top is Some,
        ConfField::AskMode => s.ask_mode is Some,
        ConfField::MacTitlebarHidden => s.mac_titlebar_hidden is Some,
    }
}

/// Fill slot `f` with `v`, which `accepts(f, v)`.
pub open spec fn fill(s: Slots, f: ConfField, v: JsonValue) -> Slots {
    match f {
        ConfField::Theme => Slots { theme: Some(v->String_0@), ..s },
        ConfField::StayOnTop => Slots { stay_on_top: Some(v->Bool_0), ..s },
        ConfField::AskMode => Slots { ask_mode: Some(v->Bool_0), ..s },
        ConfField::MacTitlebarHidden => Slots { mac_titlebar_hidden: Some(v->Bool_0), ..s },
    }
}

/// Read one member: members that name no setting are skipped; a setting
/// may occur once, with a value of its type.
pub open spec fn absorb(acc: Result<Slots, ConfError>, entry: (String, JsonValue)) -> Result<
    Slots,
    ConfError,
> {
    match acc {
        Err(e) => Err(e),
        Ok(s) => match field_of_key(entry.0@) {
            None => Ok(s),
            Some(f) => if slot_filled(s, f) {
                Err(ConfError::DuplicateField(f))
            } else if !accepts(f, entry.1) {
                Err(ConfError::InvalidType(f))
            } else {
                Ok(fill(s, f, entry.1))
            },
        },
    }
}

/// Read the members of an object in order.
pub open spec fn scan(entries: Seq<(String, JsonValue)>) -> Result<Slots, ConfError>
    decreases entries.len(),
{
    if entries.len() == 0 {
        Ok(empty_slots())
    } else {
        absorb(scan(entries.drop_last()), entries.last())
    }
}

/// The settings once all members are read; the first absent setting, in
/// declaration order, is reported.
pub open spec fn finish(s: Slots) -> Result<AppConfView, ConfError> {
    if s.theme is None {
        Err(ConfError::MissingField(ConfField::Theme))
    } else if s.stay_on_top is None {
        Err(ConfError::MissingField(ConfField::StayOnTop))
    } else if s.ask_mode is None {
        Err(ConfError::MissingField(ConfField::AskMode))
    } else if s.mac_titlebar_hidden is None {
        Err(ConfError::MissingField(ConfField::MacTitlebarHidden))
    } else {
        Ok(
            AppConfView {
                theme: s.theme->0,
                stay_on_top: s.stay_on_top->0,
                ask_mode: s.ask_mode->0,
                mac_titlebar_hidden: s.mac_titlebar_hidden->0,
            },
        )
    }
}

/// The settings stored in the array form: the four values in declaration
/// order, each checked in turn, then the length.
pub open spec fn from_items(items: Seq<JsonValue>) -> Result<AppConfView, ConfError> {
    if items.len() < 1 {
        Err(ConfError::InvalidLength)
    } else if !(items[0] is String) {
        Err(ConfError::InvalidType(ConfField::Theme))
    } else if items.len() < 2 {
        Err(ConfError::InvalidLength)
    } else if !(items[1] is Bool) {
        Err(ConfError::InvalidType(ConfField::StayOnTop))
    } else if items.len() < 3 {
        Err(ConfError::InvalidLength)
    } else if !(items[2] is Bool) {
        Err(ConfError::InvalidType(ConfField::AskMode))
    } else if items.len() < 4 {
        Err(ConfError::InvalidLength)
    } else if !(items[3] is Bool) {
        Err(ConfError::InvalidType(ConfField::MacTitlebarHidden))
    } else if items.len() > 4 {
        Err(ConfError::InvalidLength)
    } else {
        Ok(
            AppConfView {
                theme: items[0]->String_0@,
                stay_on_top: items[1]->Bool_0,
                ask_mode: items[2]->Bool_0,
                mac_titlebar_hidden: items[3]->Bool_0,
            },
        )
    }
}

/// The settings a JSON document describes, as the derived typed decoding
/// of the settings reads them from a JSON value.
pub open spec fn decoded(doc: JsonValue) -> Result<AppConfView, ConfError> {
    match doc {
        JsonValue::Object(entries) => match scan(entries@) {
            Ok(s) => finish(s),
            Err(e) => Err(e),
        },
        JsonValue::Array(items) => from_items(items@),
        _ => Err(ConfError::WrongShape),
    }
}

/// Whether `doc` is the object that stores the settings `c`, one member per
/// setting in declaration order.
pub open spec fn encodes(doc: JsonValue, c: AppConfView) -> bool {
    &&& doc is Object
    &&& doc->Object_0@.len() == 4
    &&& doc->Object_0@[0].0@ == key_of(ConfField::Theme)
    &&& doc->Object_0@[1].0@ == key_of(ConfField::StayOnTop)
    &&& doc->Object_0@[2].0@ == key_of(ConfField::AskMode)
    &&& doc->Object_0@[3].0@ == key_of(ConfField::MacTitlebarHidden)
    &&& doc->Object_0@[0].1 is String
    &&& doc->Object_0@[0].1->String_0@ == c.theme
    &&& doc->Object_0@[1].1 == JsonValue::Bool(c.stay_on_top)
    &&& doc->Object_0@[2].1 == JsonValue::Bool(c.ask_mode)
    &&& doc->Object_0@[3].1 == JsonValue::Bool(c.mac_titlebar_hidden)
}

/// The defaults: the system theme, no pinning, no ask mode; the title bar is
/// hidden on macOS only.
pub open spec fn defaults(macos: bool) -> AppConfView {
    AppConfView {
        theme: "system"@,
        stay_on_top: false,
        ask_mode: false,
        mac_titlebar_hidden: macos,
    }
}

/// What is stored: the text of the settings file, with the settings a typed
/// parse of that text into the settings gives (`None` when that parse fails).
pub open spec fn stored_view(stored: Option<(&str, Option<AppConf>)>) -> Option<
    (Seq<char>, Option<AppConfView>),
> {
    match stored {
        None => None,
        Some((text, typed)) => Some(
            (
                text@,
                match typed {
                    Some(c) => Some(c@),
                    None => None,
                },
            ),
        ),
    }
}

/// The outcome of loading, with whether the file must be written: no file
/// gives the defaults, to be written; a file the typed parse reads gives its
/// settings as they are; otherwise the file must be JSON, and the defaults
/// amended with its document are written back.
pub open spec fn loaded(stored: Option<(Seq<char>, Option<AppConfView>)>, macos: bool) -> Result<
    (AppConfView, bool),
    LoadError,
> {
    match stored {
        None => Ok((defaults(macos), true)),
        Some((text, typed)) => match typed {
            Some(c) => Ok((c, false)),
            None => match json_document(text) {
                None => Err(LoadError::NotJson),
                Some(doc) => match amended(defaults(macos), doc) {
                    Ok(c) => Ok((c, true)),
                    Err(e) => Err(LoadError::Conf(e)),
                },
            },
        },
    }
}

/// The setting stored under a member name.
fn field_for_key(key: &String) -> (r: Option<ConfField>)
    ensures
        r == field_of_key(key@),
{
    if *key == String::from_str("theme") {
        Some(ConfField::Theme)
    } else if *key == String::from_str("stay_on_top") {
        Some(ConfField::StayOnTop)
    } else if *key == String::from_str("ask_mode") {
        Some(ConfField::AskMode)
    } else if *key == String::from_str("mac_titlebar_hidden") {
        Some(ConfField::MacTitlebarHidden)
    } else {
        None
    }
}

impl AppConf {
    /// The default settings for a desktop other than macOS.
    pub fn new() -> (c: Self)
        ensures
            c@ == defaults(false),
            c.theme@ == "system"@,
            !c.stay_on_top,
            !c.ask_mode,
            !c.mac_titlebar_hidden,
    {
        Self::new_for(false)
    }

    /// The default settings; `macos` says whether the application runs on macOS.
    pub fn new_for(macos: bool) -> (c: Self)
        ensures
            c@ == defaults(macos),
            c.theme@ == "system"@,
            !c.stay_on_top,
            !c.ask_mode,
            c.mac_titlebar_hidden == macos,
    {
        AppConf {
            theme: String::from_str("system"),
            stay_on_top: false,
            ask_mode: false,
            mac_titlebar_hidden: macos,
        }
    }
}


/// A read result as mathematical values.
pub open spec fn view_result(r: Result<AppConf, ConfError>) -> Result<AppConfView, ConfError> {
    match r {
        Ok(c) => Ok(c@),
        Err(e) => Err(e),
    }
}

pub open spec fn text_of(o: Option<String>) -> Option<Seq<char>> {
    match o {
        Some(s) => Some(s@),
        None => None,
    }
}

pub open spec fn value_of(o: Option<&JsonValue>) -> Option<JsonValue> {
    match o {
        Some(v) => Some(*v),
        None => None,
    }
}

/// Once reading the members has failed, it stays failed.
proof fn lemma_scan_error_sticks(entries: Seq<(String, JsonValue)>, i: int, e: ConfError)
    requires
        0 <= i <= entries.len(),
        scan(entries.take(i)) == Err::<Slots, ConfError>(e),
    ensures
        scan(entries) == Err::<Slots, ConfError>(e),
    decreases entries.len(),
{
    if i == entries.len() {
        assert(entries.take(i) =~= entries);
    } else {
        assert(entries.drop_last().take(i) =~= entries.take(i));
        lemma_scan_error_sticks(entries.drop_last(), i, e);
    }
}

/// Reading one more member extends the prefix read so far.
proof fn lemma_scan_step(entries: Seq<(String, JsonValue)>, i: int)
    requires
        0 <= i < entries.len(),
    ensures
        scan(entries.take(i + 1)) == absorb(scan(entries.take(i)), entries[i]),
{
    assert(entries.take(i + 1).drop_last() =~= entries.take(i));
}

/// Looking one more member up extends the prefix looked up so far.
proof fn lemma_member_step(entries: Seq<(String, JsonValue)>, i: int, f: ConfField)
    requires
        0 <= i < entries.len(),
    ensures
        member(entries.take(i + 1), f) == (if field_of_key(entries[i].0@) == Some(f) {
            Some(entries[i].1)
        } else {
            member(entries.take(i), f)
        }),
{
    assert(entries.take(i + 1).drop_last() =~= entries.take(i));
}

impl AppConf {
    /// Read the settings a JSON document describes: an object with the four
    /// members (others are ignored), or an array of the four values in
    /// declaration order.
    pub fn from_json(doc: &JsonValue) -> (r: Result<AppConf, ConfError>)
        ensures
            view_result(r) == decoded(*doc),
    {
        match doc {
            JsonValue::Object(entries) => Self::from_members(entries),
            JsonValue::Array(items) => Self::from_items(items),
            _ => Err(ConfError::WrongShape),
        }
    }

    fn from_members(entries: &Vec<(String, JsonValue)>) -> (r: Result<AppConf, ConfError>)
        ensures
            view_result(r) == match scan(entries@) {
                Ok(s) => finish(s),
                Err(e) => Err(e),
            },
    {
        let ghost es = entries@;
        let mut theme: Option<String> = None;
        let mut stay_on_top: Option<bool> = None;
        let mut ask_mode: Option<bool> = None;
        let mut mac_titlebar_hidden: Option<bool> = None;
        let mut i: usize = 0;
        while i < entries.len()
            invariant
                es == entries@,
                i <= es.len(),
                scan(es.take(i as int)) == Ok::<Slots, ConfError>(
                    Slots {
                        theme: text_of(theme),
                        stay_on_top: stay_on_top,
                        ask_mode: ask_mode,
                        mac_titlebar_hidden: mac_titlebar_hidden,
                    },
                ),
            decreases es.len() - i,
        {
            proof {
                lemma_scan_step(es, i as int);
            }
            let key = &entries[i].0;
            let value = &entries[i].1;
            match field_for_key(key) {
                None => {},
                Some(ConfField::Theme) => {
                    if theme.is_some() {
                        proof { lemma_scan_error_sticks(es, i + 1, ConfError::DuplicateField(ConfField::Theme)); }
                        return Err(ConfError::DuplicateField(ConfField::Theme));
                    }
                    match value {
                        JsonValue::String(s) => {
                            theme = Some(s.clone());
                        },
                        _ => {
                            proof { lemma_scan_error_sticks(es, i + 1, ConfError::InvalidType(ConfField::Theme)); }
                            return Err(ConfError::InvalidType(ConfField::Theme));
                        },
                    }
                },
                Some(ConfField::StayOnTop) => {
                    if stay_on_top.is_some() {
                        proof { lemma_scan_error_sticks(es, i + 1, ConfError::DuplicateField(ConfField::StayOnTop)); }
                        return Err(ConfError::DuplicateField(ConfField::StayOnTop));
                    }
                    match value {
                        JsonValue::Bool(b) => {
                            stay_on_top = Some(*b);
                        },
                        _ => {
                            proof { lemma_scan_error_sticks(es, i + 1, ConfError::InvalidType(ConfField::StayOnTop)); }
                            return Err(ConfError::InvalidType(ConfField::StayOnTop));
                        },
                    }
                },
                Some(ConfField::AskMode) => {
                    if ask_mode.is_some() {
                        proof { lemma_scan_error_sticks(es, i + 1, ConfError::DuplicateField(ConfField::AskMode)); }
                        return Err(ConfError::DuplicateField(ConfField::AskMode));
                    }
                    match value {
                        JsonValue::Bool(b) => {
                            ask_mode = Some(*b);
                        },
                        _ => {
                            proof { lemma_scan_error_sticks(es, i + 1, ConfError::InvalidType(ConfField::AskMode)); }
                            return Err(ConfError::InvalidType(ConfField::AskMode));
                        },
                    }
                },
                Some(ConfField::MacTitlebarHidden) => {
                    if mac_titlebar_hidden.is_some() {
                        proof { lemma_scan_error_sticks(es, i + 1, ConfError::DuplicateField(ConfField::MacTitlebarHidden)); }
                        return Err(ConfError::DuplicateField(ConfField::MacTitlebarHidden));
                    }
                    match value {
                        JsonValue::Bool(b) => {
                            mac_titlebar_hidden = Some(*b);
                        },
                        _ => {
                            proof { lemma_scan_error_sticks(es, i + 1, ConfError::InvalidType(ConfField::MacTitlebarHidden)); }
                            return Err(ConfError::InvalidType(ConfField::MacTitlebarHidden));
                        },
                    }
                },
            }
            i = i + 1;
        }
        proof {
            assert(es.take(es.len() as int) =~= es);
        }
        match (theme, stay_on_top, ask_mode, mac_titlebar_hidden) {
            (None, _, _, _) => Err(ConfError::MissingField(ConfField::Theme)),
            (_, None, _, _) => Err(ConfError::MissingField(ConfField::StayOnTop)),
            (_, _, None, _) => Err(ConfError::MissingField(ConfField::AskMode)),
            (_, _, _, None) => Err(ConfError::MissingField(ConfField::MacTitlebarHidden)),
            (Some(t), Some(s), Some(a), Some(m)) => Ok(
                AppConf { theme: t, stay_on_top: s, ask_mode: a, mac_titlebar_hidden: m },
            ),
        }
    }

    fn from_items(items: &Vec<JsonValue>) -> (r: Result<AppConf, ConfError>)
        ensures
            view_result(r) == from_items(items@),
    {
        if items.len() < 1 {
            return Err(ConfError::InvalidLength);
        }
        let theme = match &items[0] {
            JsonValue::String(s) => s.clone(),
            _ => return Err(ConfError::InvalidType(ConfField::Theme)),
        };
        if items.len() < 2 {
            return Err(ConfError::InvalidLength);
        }
        let stay_on_top = match &items[1] {
            JsonValue::Bool(b) => *b,
            _ => return Err(ConfError::InvalidType(ConfField::StayOnTop)),
        };
        if items.len() < 3 {
            return Err(ConfError::InvalidLength);
        }
        let ask_mode = match &items[2] {
            JsonValue::Bool(b) => *b,
            _ => return Err(ConfError::InvalidType(ConfField::AskMode)),
        };
        if items.len() < 4 {
            return Err(ConfError::InvalidLength);
        }
        let mac_titlebar_hidden = match &items[3] {
            JsonValue::Bool(b) => *b,
            _ => return Err(ConfError::InvalidType(ConfField::MacTitlebarHidden)),
        };
        if items.len() > 4 {
            return Err(ConfError::InvalidLength);
        }
        Ok(AppConf { theme, stay_on_top, ask_mode, mac_titlebar_hidden })
    }
}

impl AppConf {
    /// The JSON object that stores these settings.
    pub fn to_json(&self) -> (doc: JsonValue)
        ensures
            encodes(doc, self@),
    {
        let mut members: Vec<(String, JsonValue)> = Vec::new();
        members.push((String::from_str("theme"), JsonValue::String(self.theme.clone())));
        members.push((String::from_str("stay_on_top"), JsonValue::Bool(self.stay_on_top)));
        members.push((String::from_str("ask_mode"), JsonValue::Bool(self.ask_mode)));
        members.push(
            (String::from_str("mac_titlebar_hidden"), JsonValue::Bool(self.mac_titlebar_hidden)),
        );
        JsonValue::Object(members)
    }

    /// These settings amended with `json`, which must be an object: each
    /// setting it names takes its value; members that name no setting are
    /// ignored.
    pub fn amend(self, json: JsonValue) -> (r: Result<Self, ConfError>)
        ensures
            view_result(r) == amended(self@, json),
    {
        self.amended_with(&json)
    }

    /// As `amend`, leaving `self` in place.
    pub fn amended_with(&self, patch: &JsonValue) -> (r: Result<Self, ConfError>)
        ensures
            view_result(r) == amended(self@, *patch),
    {
        let entries = match patch {
            JsonValue::Object(entries) => entries,
            _ => return Err(ConfError::WrongShape),
        };
        let ghost es = entries@;
        let mut theme: Option<&JsonValue> = None;
        let mut stay_on_top: Option<&JsonValue> = None;
        let mut ask_mode: Option<&JsonValue> = None;
        let mut mac_titlebar_hidden: Option<&JsonValue> = None;
        let mut i: usize = 0;
        while i < entries.len()
            invariant
                es == entries@,
                i <= es.len(),
                value_of(theme) == member(es.take(i as int), ConfField::Theme),
                value_of(stay_on_top) == member(es.take(i as int), ConfField::StayOnTop),
                value_of(ask_mode) == member(es.take(i as int), ConfField::AskMode),
                value_of(mac_titlebar_hidden) == member(
                    es.take(i as int),
                    ConfField::MacTitlebarHidden,
                ),
            decreases es.len() - i,
        {
            proof {
                lemma_member_step(es, i as int, ConfField::Theme);
                lemma_member_step(es, i as int, ConfField::StayOnTop);
                lemma_member_step(es, i as int, ConfField::AskMode);
                lemma_member_step(es, i as int, ConfField::MacTitlebarHidden);
            }
            let value = &entries[i].1;
            match field_for_key(&entries[i].0) {
                None => {},
                Some(ConfField::Theme) => {
                    theme = Some(value);
                },
                Some(ConfField::StayOnTop) => {
                    stay_on_top = Some(value);
                },
                Some(ConfField::AskMode) => {
                    ask_mode = Some(value);
                },
                Some(ConfField::MacTitlebarHidden) => {
                    mac_titlebar_hidden = Some(value);
                },
            }
            i = i + 1;
        }
        proof {
            assert(es.take(es.len() as int) =~= es);
        }
        let new_ask_mode = match ask_mode {
            None => self.ask_mode,
            Some(JsonValue::Bool(b)) => *b,
            Some(_) => return Err(ConfError::InvalidType(ConfField::AskMode)),
        };
        let new_mac_titlebar_hidden = match mac_titlebar_hidden {
            None => self.mac_titlebar_hidden,
            Some(JsonValue::Bool(b)) => *b,
            Some(_) => return Err(ConfError::InvalidType(ConfField::MacTitlebarHidden)),
        };
        let new_stay_on_top = match stay_on_top {
            None => self.stay_on_top,
            Some(JsonValue::Bool(b)) => *b,
            Some(_) => return Err(ConfError::InvalidType(ConfField::StayOnTop)),
        };
        let new_theme = match theme {
            None => self.theme.clone(),
            Some(JsonValue::String(s)) => s.clone(),
            Some(_) => return Err(ConfError::InvalidType(ConfField::Theme)),
        };
        Ok(
            AppConf {
                theme: new_theme,
                stay_on_top: new_stay_on_top,
                ask_mode: new_ask_mode,
                mac_titlebar_hidden: new_mac_titlebar_hidden,
            },
        )
    }

    /// Loads the settings. `stored` is `None` when no settings file exists;
    /// otherwise it holds the file's text and the settings a typed parse of
    /// that text gives, `None` when the typed parse fails. `macos` says
    /// whether the application runs on macOS. The result says whether the
    /// file must be written.
    pub fn load(stored: Option<(&str, Option<AppConf>)>, macos: bool) -> (r: Result<Loaded, LoadError>)
        ensures
            match r {
                Ok(l) => loaded(stored_view(stored), macos) == Ok::<(AppConfView, bool), LoadError>(
                    (l.conf@, l.rewrite),
                ),
                Err(e) => loaded(stored_view(stored), macos) == Err::<(AppConfView, bool), LoadError>(
                    e,
                ),
            },
    {
        match stored {
            None => Ok(Loaded { conf: Self::new_for(macos), rewrite: true }),
            Some((_, Some(conf))) => Ok(Loaded { conf, rewrite: false }),
            Some((text, None)) => match parse_document(text) {
                Err(_) => Err(LoadError::NotJson),
                Ok(doc) => match Self::new_for(macos).amended_with(&doc) {
                    Ok(conf) => Ok(Loaded { conf, rewrite: true }),
                    Err(e) => Err(LoadError::Conf(e)),
                },
            },
        }
    }
}

/// The four member names are told apart.
proof fn lemma_keys_classified()
    ensures
        field_of_key(key_of(ConfField::Theme)) == Some(ConfField::Theme),
        field_of_key(key_of(ConfField::StayOnTop)) == Some(ConfField::StayOnTop),
        field_of_key(key_of(ConfField::AskMode)) == Some(ConfField::AskMode),
        field_of_key(key_of(ConfField::MacTitlebarHidden)) == Some(ConfField::MacTitlebarHidden),
{
    reveal_strlit("theme");
    reveal_strlit("stay_on_top");
    reveal_strlit("ask_mode");
    reveal_strlit("mac_titlebar_hidden");
    assert("theme"@.len() == 5);
    assert("stay_on_top"@.len() == 11);
    assert("ask_mode"@.len() == 8);
    assert("stay_on_top"@ != "theme"@);
    assert("ask_mode"@ != "theme"@);
    assert("ask_mode"@ != "stay_on_top"@);
    assert("mac_titlebar_hidden"@ != "theme"@);
    assert("mac_titlebar_hidden"@ != "stay_on_top"@);
    assert("mac_titlebar_hidden"@ != "ask_mode"@);
}

/// Reading back the document that stores some settings gives those settings.
pub proof fn lemma_decode_encoded(doc: JsonValue, c: AppConfView)
    requires
        encodes(doc, c),
    ensures
        decoded(doc) == Ok::<AppConfView, ConfError>(c),
{
    lemma_keys_classified();
    let es = doc->Object_0@;
    assert(es.take(0) =~= Seq::<(String, JsonValue)>::empty());
    lemma_scan_step(es, 0);
    lemma_scan_step(es, 1);
    lemma_scan_step(es, 2);
    lemma_scan_step(es, 3);
    assert(es.take(4) =~= es);
}

/// The member a full settings document gives each setting.
proof fn lemma_members_of_encoded(doc: JsonValue, c: AppConfView)
    requires
        encodes(doc, c),
    ensures
        member(doc->Object_0@, ConfField::Theme) == Some(doc->Object_0@[0].1),
        member(doc->Object_0@, ConfField::StayOnTop) == Some(JsonValue::Bool(c.stay_on_top)),
        member(doc->Object_0@, ConfField::AskMode) == Some(JsonValue::Bool(c.ask_mode)),
        member(doc->Object_0@, ConfField::MacTitlebarHidden) == Some(
            JsonValue::Bool(c.mac_titlebar_hidden),
        ),
{
    lemma_keys_classified();
    let es = doc->Object_0@;
    assert(es.take(0) =~= Seq::<(String, JsonValue)>::empty());
    assert(es.take(4) =~= es);
    lemma_member_step(es, 0, ConfField::Theme);
    lemma_member_step(es, 1, ConfField::Theme);
    lemma_member_step(es, 2, ConfField::Theme);
    lemma_member_step(es, 3, ConfField::Theme);
    lemma_member_step(es, 0, ConfField::StayOnTop);
    lemma_member_step(es, 1, ConfField::StayOnTop);
    lemma_member_step(es, 2, ConfField::StayOnTop);
    lemma_member_step(es, 3, ConfField::StayOnTop);
    lemma_member_step(es, 0, ConfField::AskMode);
    lemma_member_step(es, 1, ConfField::AskMode);
    lemma_member_step(es, 2, ConfField::AskMode);
    lemma_member_step(es, 3, ConfField::AskMode);
    lemma_member_step(es, 0, ConfField::MacTitlebarHidden);
    lemma_member_step(es, 1, ConfField::MacTitlebarHidden);
    lemma_member_step(es, 2, ConfField::MacTitlebarHidden);
    lemma_member_step(es, 3, ConfField::MacTitlebarHidden);
}

/// Amending with an empty object changes nothing.
pub proof fn lemma_amend_empty(c: AppConfView, patch: JsonValue)
    requires
        patch is Object,
        patch->Object_0@.len() == 0,
    ensures
        amended(c, patch) == Ok::<AppConfView, ConfError>(c),
{
}

/// Amending with the document of some settings gives those settings,
/// whatever they replace.
pub proof fn lemma_amend_with_full(c: AppConfView, doc: JsonValue, d: AppConfView)
    requires
        encodes(doc, d),
    ensures
        amended(c, doc) == Ok::<AppConfView, ConfError>(d),
{
    lemma_members_of_encoded(doc, d);
}

/// Applying the same patch twice is the same as applying it once.
pub proof fn lemma_amend_idempotent(c: AppConfView, patch: JsonValue, d: AppConfView)
    requires
        amended(c, patch) == Ok::<AppConfView, ConfError>(d),
    ensures
        amended(d, patch) == Ok::<AppConfView, ConfError>(d),
{
}

/// Whether the members name setting `f` exactly once.
pub open spec fn named_once(es: Seq<(String, JsonValue)>, f: ConfField) -> bool {
    &&& exists|i: int| 0 <= i < es.len() && field_of_key(#[trigger] es[i].0@) == Some(f)
    &&& forall|i: int, j: int|
        0 <= i < es.len() && 0 <= j < es.len() && field_of_key(#[trigger] es[i].0@) == Some(f)
            && field_of_key(#[trigger] es[j].0@) == Some(f) ==> i == j
}

/// Whether an object's members name each setting once, with a value of the
/// setting's type, in any order and among any other members.
pub open spec fn complete_members(es: Seq<(String, JsonValue)>) -> bool {
    &&& named_once(es, ConfField::Theme)
    &&& named_once(es, ConfField::StayOnTop)
    &&& named_once(es, ConfField::AskMode)
    &&& named_once(es, ConfField::MacTitlebarHidden)
    &&& member(es, ConfField::Theme) matches Some(v) && accepts(ConfField::Theme, v)
    &&& member(es, ConfField::StayOnTop) matches Some(v) && accepts(ConfField::StayOnTop, v)
    &&& member(es, ConfField::AskMode) matches Some(v) && accepts(ConfField::AskMode, v)
    &&& member(es, ConfField::MacTitlebarHidden) matches Some(v) && accepts(
        ConfField::MacTitlebarHidden,
        v,
    )
}

/// The settings the members give.
pub open spec fn members_view(es: Seq<(String, JsonValue)>) -> AppConfView {
    AppConfView {
        theme: member(es, ConfField::Theme)->0->String_0@,
        stay_on_top: member(es, ConfField::StayOnTop)->0->Bool_0,
        ask_mode: member(es, ConfField::AskMode)->0->Bool_0,
        mac_titlebar_hidden: member(es, ConfField::MacTitlebarHidden)->0->Bool_0,
    }
}

/// The slots filled by the members of `es`, each by its last value.
spec fn slots_of(es: Seq<(String, JsonValue)>) -> Slots {
    Slots {
        theme: match member(es, ConfField::Theme) {
            Some(v) => Some(v->String_0@),
            None => None,
        },
        stay_on_top: match member(es, ConfField::StayOnTop) {
            Some(v) => Some(v->Bool_0),
            None => None,
        },
        ask_mode: match member(es, ConfField::AskMode) {
            Some(v) => Some(v->Bool_0),
            None => None,
        },
        mac_titlebar_hidden: match member(es, ConfField::MacTitlebarHidden) {
            Some(v) => Some(v->Bool_0),
            None => None,
        },
    }
}

/// A member found by `member` stands at some index.
proof fn lemma_member_index(es: Seq<(String, JsonValue)>, f: ConfField)
    requires
        member(es, f) is Some,
    ensures
        exists|j: int| 0 <= j < es.len() && field_of_key(#[trigger] es[j].0@) == Some(f),
    decreases es.len(),
{
    if field_of_key(es.last().0@) == Some(f) {
        assert(field_of_key(es[es.len() - 1].0@) == Some(f));
    } else {
        lemma_member_index(es.drop_last(), f);
        let j = choose|j: int|
            0 <= j < es.drop_last().len() && field_of_key(#[trigger] es.drop_last()[j].0@) == Some(
                f,
            );
        assert(es[j] == es.drop_last()[j]);
    }
}

/// The only member that names `f` is the one `member` finds.
proof fn lemma_member_unique(es: Seq<(String, JsonValue)>, f: ConfField, k: int)
    requires
        0 <= k < es.len(),
        field_of_key(es[k].0@) == Some(f),
        forall|j: int| 0 <= j < es.len() && field_of_key(#[trigger] es[j].0@) == Some(f) ==> j == k,
    ensures
        member(es, f) == Some(es[k].1),
    decreases es.len(),
{
    if k == es.len() - 1 {
    } else {
        let last = es.len() - 1;
        assert(field_of_key(es[last].0@) != Some(f));
        let d = es.drop_last();
        assert forall|j: int| 0 <= j < d.len() && field_of_key(#[trigger] d[j].0@) == Some(f) implies j == k by {
            assert(d[j] == es[j]);
        }
        lemma_member_unique(d, f, k);
    }
}

/// The prefix of complete members read so far fills the slots of the
/// settings it names.
proof fn lemma_scan_complete_prefix(es: Seq<(String, JsonValue)>, k: int)
    requires
        complete_members(es),
        0 <= k <= es.len(),
    ensures
        scan(es.take(k)) == Ok::<Slots, ConfError>(slots_of(es.take(k))),
    decreases k,
{
    if k == 0 {
        assert(es.take(0) =~= Seq::<(String, JsonValue)>::empty());
    } else {
        let i = k - 1;
        lemma_scan_complete_prefix(es, i);
        lemma_scan_step(es, i);
        lemma_member_step(es, i, ConfField::Theme);
        lemma_member_step(es, i, ConfField::StayOnTop);
        lemma_member_step(es, i, ConfField::AskMode);
        lemma_member_step(es, i, ConfField::MacTitlebarHidden);
        match field_of_key(es[i].0@) {
            None => {},
            Some(f) => {
                if member(es.take(i), f) is Some {
                    lemma_member_index(es.take(i), f);
                    let j = choose|j: int|
                        0 <= j < es.take(i).len() && field_of_key(#[trigger] es.take(i)[j].0@)
                            == Some(f);
                    assert(es.take(i)[j] == es[j]);
                    assert(false);
                }
                lemma_member_unique(es, f, i);
            },
        }
    }
}

/// Reading an object whose members name each setting once, with a value of
/// its type, gives those values, whatever the order of the members and
/// whatever other members stand among them.
pub proof fn lemma_decode_complete(es: Seq<(String, JsonValue)>, doc: JsonValue)
    requires
        doc is Object,
        doc->Object_0@ == es,
        complete_members(es),
    ensures
        decoded(doc) == Ok::<AppConfView, ConfError>(members_view(es)),
{
    lemma_scan_complete_prefix(es, es.len() as int);
    assert(es.take(es.len() as int) =~= es);
}

/// Loading again what a load left on disk writes nothing: a file that was
/// read as it is, read again, gives the same settings; and once the settings
/// written back are read by the typed parse, they come back unchanged.
pub proof fn lemma_second_load_writes_nothing(
    stored: Option<(Seq<char>, Option<AppConfView>)>,
    macos: bool,
    c: AppConfView,
    wrote: bool,
    written_text: Seq<char>,
)
    requires
        loaded(stored, macos) == Ok::<(AppConfView, bool), LoadError>((c, wrote)),
    ensures
        !wrote ==> loaded(stored, macos) == Ok::<(AppConfView, bool), LoadError>((c, false)),
        loaded(Some((written_text, Some(c))), macos) == Ok::<(AppConfView, bool), LoadError>(
            (c, false),
        ),
{
}

/// The defaults: the system theme, not kept on top, no ask mode, and the
/// title bar hidden exactly on macOS.
pub proof fn lemma_defaults(macos: bool)
    ensures
        defaults(macos).theme == "system"@,
        !defaults(macos).stay_on_top,
        !defaults(macos).ask_mode,
        defaults(macos).mac_titlebar_hidden == macos,
{
}

/// The value a patch member gives a setting.
pub open spec fn given_flag(v: JsonValue) -> bool {
    v->Bool_0
}

/// Whether the patch's value for `f`, if it names `f`, has `f`'s type.
pub open spec fn well_typed(es: Seq<(String, JsonValue)>, f: ConfField) -> bool {
    match member(es, f) {
        Some(v) => accepts(f, v),
        None => true,
    }
}

/// What amending does, setting by setting: a patch that is not an object is
/// refused; an object is accepted exactly when every setting it names has a
/// value of the setting's type; then each setting it names takes the value
/// of the last member naming it, whatever other members the patch holds, and
/// every other setting keeps its value.
pub proof fn lemma_amend_per_setting(c: AppConfView, patch: JsonValue)
    ensures
        !(patch is Object) ==> amended(c, patch) == Err::<AppConfView, ConfError>(ConfError::WrongShape),
        patch is Object ==> ((amended(c, patch) is Ok) <==> (forall|f: ConfField|
            #[trigger] well_typed(patch->Object_0@, f))),
        amended(c, patch) matches Ok(d) ==> {
            let es = patch->Object_0@;
            &&& d.theme == (match member(es, ConfField::Theme) {
                Some(v) => v->String_0@,
                None => c.theme,
            })
            &&& d.stay_on_top == (match member(es, ConfField::StayOnTop) {
                Some(v) => given_flag(v),
                None => c.stay_on_top,
            })
            &&& d.ask_mode == (match member(es, ConfField::AskMode) {
                Some(v) => given_flag(v),
                None => c.ask_mode,
            })
            &&& d.mac_titlebar_hidden == (match member(es, ConfField::MacTitlebarHidden) {
                Some(v) => given_flag(v),
                None => c.mac_titlebar_hidden,
            })
        },
{
    if patch is Object {
        let es = patch->Object_0@;
        if amended(c, patch) is Ok {
            assert forall|f: ConfField| #[trigger] well_typed(es, f) by {
                match f {
                    ConfField::Theme => {},
                    ConfField::StayOnTop => {},
                    ConfField::AskMode => {},
                    ConfField::MacTitlebarHidden => {},
                }
            }
        }
        if forall|f: ConfField| #[trigger] well_typed(es, f) {
            assert(well_typed(es, ConfField::Theme));
            assert(well_typed(es, ConfField::StayOnTop));
            assert(well_typed(es, ConfField::AskMode));
            assert(well_typed(es, ConfField::MacTitlebarHidden));
        }
    }
}

} // verus!
