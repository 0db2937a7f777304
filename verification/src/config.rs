//! Typed key/value settings consumed by analyzers and output modules.
//!
//! A [`Config`] holds two namespaces, one for analyzers and one for output
//! modules, each mapping a module id to that module's key/value pairs. The
//! namespaces are separate, so an analyzer and an output module may use the
//! same key without collision. Unknown keys are kept but ignored by modules;
//! missing keys fall back to each module's compile-time default.
//!
//! Values are modelled as plain data: fractional settings (such as money
//! rates) are fixed-point numbers counted in hundredths, matching the
//! two-decimal rendering the reports use.

use vstd::prelude::*;
use vstd::assert_seqs_equal;

use crate::text::str_eq;

verus! {

/// A typed setting value.
///
/// `Decimal(d)` stands for the fraction `d / 100`: `Decimal(5)` is `0.05`.
#[derive(Debug, Clone)]
pub enum ConfigValue {
    Bool(bool),
    /// A fixed-point fractional value counted in hundredths.
    Decimal(i64),
    Int(i64),
    Text(String),
}

/// The mathematical value of a [`ConfigValue`].
#[verifier::ext_equal]
pub enum ConfigValueV {
    Bool(bool),
    Decimal(int),
    Int(int),
    Text(Seq<char>),
}

impl View for ConfigValue {
    type V = ConfigValueV;

    open spec fn view(&self) -> ConfigValueV {
        match self {
            ConfigValue::Bool(b) => ConfigValueV::Bool(*b),
            ConfigValue::Decimal(d) => ConfigValueV::Decimal(*d as int),
            ConfigValue::Int(i) => ConfigValueV::Int(*i as int),
            ConfigValue::Text(s) => ConfigValueV::Text(s@),
        }
    }
}

impl ConfigValue {
    /// The boolean held, if this is a `Bool`.
    pub fn as_bool(&self) -> (r: Option<bool>)
        ensures
            r == (match self@ {
                ConfigValueV::Bool(b) => Some(b),
                _ => None::<bool>,
            }),
    {
        match self {
            ConfigValue::Bool(v) => Some(*v),
            _ => None,
        }
    }

    /// The fixed-point value held, in hundredths, if this is a `Decimal`.
    pub fn as_decimal(&self) -> (r: Option<i64>)
        ensures
            r matches Some(v) ==> self@ == ConfigValueV::Decimal(v as int),
            r is None ==> !(self@ is Decimal),
    {
        match self {
            ConfigValue::Decimal(v) => Some(*v),
            _ => None,
        }
    }

    /// An exact copy of this value.
    pub fn duplicate(&self) -> (r: ConfigValue)
        ensures
            r@ == self@,
    {
        match self {
            ConfigValue::Bool(b) => ConfigValue::Bool(*b),
            ConfigValue::Decimal(d) => ConfigValue::Decimal(*d),
            ConfigValue::Int(i) => ConfigValue::Int(*i),
            ConfigValue::Text(s) => ConfigValue::Text(s.clone()),
        }
    }
}

/// A configurable option one module declares: its key, a display label, the
/// compile-time default, and a description for the settings UI.
#[derive(Debug, Clone)]
pub struct ConfigParam {
    pub key: &'static str,
    pub label: &'static str,
    pub default: ConfigValue,
    pub description: &'static str,
}

/// The mathematical value of a [`ConfigParam`]: key, label, default,
/// description.
pub type ParamV = (Seq<char>, Seq<char>, ConfigValueV, Seq<char>);

impl View for ConfigParam {
    type V = ParamV;

    open spec fn view(&self) -> ParamV {
        (self.key@, self.label@, self.default@, self.description@)
    }
}

/// The mathematical value of a sequence of declared options.
pub open spec fn params_view(ps: Seq<ConfigParam>) -> Seq<ParamV> {
    ps.map_values(|p: ConfigParam| p@)
}

/// One stored key/value pair.
#[derive(Debug, Clone)]
pub struct ConfigEntry {
    pub key: String,
    pub value: ConfigValue,
}

impl View for ConfigEntry {
    type V = (Seq<char>, ConfigValueV);

    open spec fn view(&self) -> (Seq<char>, ConfigValueV) {
        (self.key@, self.value@)
    }
}

/// One module's stored settings.
#[derive(Debug, Clone)]
pub struct ModuleConfig {
    pub id: String,
    pub entries: Vec<ConfigEntry>,
}

/// The mathematical value of one module's settings: its id and its ordered
/// key/value pairs.
pub type ModuleV = (Seq<char>, Seq<(Seq<char>, ConfigValueV)>);

/// The mathematical value of a sequence of stored entries.
pub open spec fn entries_view(es: Seq<ConfigEntry>) -> Seq<(Seq<char>, ConfigValueV)> {
    es.map_values(|e: ConfigEntry| e@)
}

/// The mathematical value of a sequence of per-module settings.
pub open spec fn modules_view(ms: Seq<ModuleConfig>) -> Seq<ModuleV> {
    ms.map_values(|m: ModuleConfig| m@)
}

impl View for ModuleConfig {
    type V = ModuleV;

    open spec fn view(&self) -> ModuleV {
        (self.id@, entries_view(self.entries@))
    }
}

/// The mathematical value of a whole [`Config`]: two ordered association
/// lists of modules.
#[verifier::ext_equal]
pub struct ConfigV {
    pub analyzers: Seq<ModuleV>,
    pub outputs: Seq<ModuleV>,
}

/// The settings store: one namespace of per-module settings for analyzers and
/// one for output modules.
#[derive(Debug, Clone)]
pub struct Config {
    pub analyzers: Vec<ModuleConfig>,
    pub outputs: Vec<ModuleConfig>,
}

impl View for Config {
    type V = ConfigV;

    open spec fn view(&self) -> ConfigV {
        ConfigV {
            analyzers: modules_view(self.analyzers@),
            outputs: modules_view(self.outputs@),
        }
    }
}

/// The value stored under `key`, if any: first match wins.
pub open spec fn lookup_entries(
    es: Seq<(Seq<char>, ConfigValueV)>,
    key: Seq<char>,
) -> Option<ConfigValueV>
    decreases es.len(),
{
    if es.len() == 0 {
        None
    } else if es[0].0 == key {
        Some(es[0].1)
    } else {
        lookup_entries(es.drop_first(), key)
    }
}

/// The value stored under `key` of the module `id`, if any.
pub open spec fn lookup_modules(
    ms: Seq<ModuleV>,
    id: Seq<char>,
    key: Seq<char>,
) -> Option<ConfigValueV>
    decreases ms.len(),
{
    if ms.len() == 0 {
        None
    } else if ms[0].0 == id {
        lookup_entries(ms[0].1, key)
    } else {
        lookup_modules(ms.drop_first(), id, key)
    }
}

proof fn lemma_lookup_entries_skip(es: Seq<(Seq<char>, ConfigValueV)>, key: Seq<char>, i: int)
    requires
        0 <= i <= es.len(),
        forall|j: int| 0 <= j < i ==> es[j].0 != key,
    ensures
        lookup_entries(es, key) == lookup_entries(es.skip(i), key),
    decreases i,
{
    if i > 0 {
        assert(es.drop_first() =~= es.skip(1));
        lemma_lookup_entries_skip(es.skip(1), key, i - 1);
        assert(es.skip(1).skip(i - 1) =~= es.skip(i));
    } else {
        assert(es.skip(0) =~= es);
    }
}

proof fn lemma_lookup_modules_skip(ms: Seq<ModuleV>, id: Seq<char>, key: Seq<char>, i: int)
    requires
        0 <= i <= ms.len(),
        forall|j: int| 0 <= j < i ==> ms[j].0 != id,
    ensures
        lookup_modules(ms, id, key) == lookup_modules(ms.skip(i), id, key),
    decreases i,
{
    if i > 0 {
        assert(ms.drop_first() =~= ms.skip(1));
        lemma_lookup_modules_skip(ms.skip(1), id, key, i - 1);
        assert(ms.skip(1).skip(i - 1) =~= ms.skip(i));
    } else {
        assert(ms.skip(0) =~= ms);
    }
}

/// Looks `key` up among `entries`; first match wins.
fn get_in_entries<'a>(entries: &'a Vec<ConfigEntry>, key: &str) -> (r: Option<&'a ConfigValue>)
    ensures
        (match r {
            Some(v) => lookup_entries(entries_view(entries@), key@) == Some(v@),
            None => lookup_entries(entries_view(entries@), key@) is None,
        }),
{
    let ghost esv = entries_view(entries@);
    let mut i: usize = 0;
    while i < entries.len()
        invariant
            i <= entries@.len(),
            esv == entries_view(entries@),
            forall|j: int| 0 <= j < i ==> esv[j].0 != key@,
        decreases entries@.len() - i,
    {
        if str_eq(entries[i].key.as_str(), key) {
            proof {
                lemma_lookup_entries_skip(esv, key@, i as int);
                assert(esv.skip(i as int)[0] == esv[i as int]);
            }
            return Some(&entries[i].value);
        }
        i = i + 1;
    }
    proof {
        lemma_lookup_entries_skip(esv, key@, entries@.len() as int);
    }
    None
}

/// Looks `key` up in the module `id` among `modules`.
fn get_in_modules<'a>(modules: &'a Vec<ModuleConfig>, id: &str, key: &str) -> (r: Option<
    &'a ConfigValue,
>)
    ensures
        (match r {
            Some(v) => lookup_modules(modules_view(modules@), id@, key@)
                == Some(v@),
            None => lookup_modules(modules_view(modules@), id@, key@) is None,
        }),
{
    let ghost msv = modules_view(modules@);
    let mut i: usize = 0;
    while i < modules.len()
        invariant
            i <= modules@.len(),
            msv == modules_view(modules@),
            forall|j: int| 0 <= j < i ==> msv[j].0 != id@,
        decreases modules@.len() - i,
    {
        if str_eq(modules[i].id.as_str(), id) {
            proof {
                lemma_lookup_modules_skip(msv, id@, key@, i as int);
                assert(msv.skip(i as int)[0] == msv[i as int]);
            }
            return get_in_entries(&modules[i].entries, key);
        }
        i = i + 1;
    }
    proof {
        lemma_lookup_modules_skip(msv, id@, key@, modules@.len() as int);
    }
    None
}

impl Config {
    /// An empty settings store.
    pub fn new() -> (r: Config)
        ensures
            r@.analyzers.len() == 0,
            r@.outputs.len() == 0,
    {
        Config { analyzers: Vec::new(), outputs: Vec::new() }
    }

    /// The analyzer setting stored under `key` for the analyzer `analyzer_id`.
    pub fn get_analyzer_value<'a>(&'a self, analyzer_id: &str, key: &str) -> (r: Option<
        &'a ConfigValue,
    >)
        ensures
            (match r {
                Some(v) => lookup_modules(self@.analyzers, analyzer_id@, key@) == Some(v@),
                None => lookup_modules(self@.analyzers, analyzer_id@, key@) is None,
            }),
    {
        get_in_modules(&self.analyzers, analyzer_id, key)
    }

    /// The output-module setting stored under `key` for the module `output_id`.
    pub fn get_output_value<'a>(&'a self, output_id: &str, key: &str) -> (r: Option<
        &'a ConfigValue,
    >)
        ensures
            (match r {
                Some(v) => lookup_modules(self@.outputs, output_id@, key@) == Some(v@),
                None => lookup_modules(self@.outputs, output_id@, key@) is None,
            }),
    {
        get_in_modules(&self.outputs, output_id, key)
    }
}

impl Default for Config {
    /// An empty settings store.
    fn default() -> (r: Config)
        ensures
            r@.analyzers.len() == 0,
            r@.outputs.len() == 0,
    {
        Config::new()
    }
}


/// `es` with the first entry for `key` replaced by `value`, or `(key, value)`
/// appended when no entry for `key` exists.
pub open spec fn set_in_entries(
    es: Seq<(Seq<char>, ConfigValueV)>,
    key: Seq<char>,
    value: ConfigValueV,
) -> Seq<(Seq<char>, ConfigValueV)>
    decreases es.len(),
{
    if es.len() == 0 {
        seq![(key, value)]
    } else if es[0].0 == key {
        seq![(key, value)] + es.drop_first()
    } else {
        seq![es[0]] + set_in_entries(es.drop_first(), key, value)
    }
}

/// `ms` with `value` stored under `key` of the module `id`; the module is
/// appended when it does not exist yet.
pub open spec fn set_in_modules(
    ms: Seq<ModuleV>,
    id: Seq<char>,
    key: Seq<char>,
    value: ConfigValueV,
) -> Seq<ModuleV>
    decreases ms.len(),
{
    if ms.len() == 0 {
        seq![(id, seq![(key, value)])]
    } else if ms[0].0 == id {
        seq![(id, set_in_entries(ms[0].1, key, value))] + ms.drop_first()
    } else {
        seq![ms[0]] + set_in_modules(ms.drop_first(), id, key, value)
    }
}

proof fn lemma_set_entries_at(
    es: Seq<(Seq<char>, ConfigValueV)>,
    key: Seq<char>,
    value: ConfigValueV,
    i: int,
)
    requires
        0 <= i < es.len(),
        es[i].0 == key,
        forall|j: int| 0 <= j < i ==> es[j].0 != key,
    ensures
        set_in_entries(es, key, value) =~= es.update(i, (key, value)),
    decreases i,
{
    if i == 0 {
    } else {
        lemma_set_entries_at(es.drop_first(), key, value, i - 1);
    }
}

proof fn lemma_set_entries_append(
    es: Seq<(Seq<char>, ConfigValueV)>,
    key: Seq<char>,
    value: ConfigValueV,
)
    requires
        forall|j: int| 0 <= j < es.len() ==> es[j].0 != key,
    ensures
        set_in_entries(es, key, value) =~= es.push((key, value)),
    decreases es.len(),
{
    if es.len() > 0 {
        lemma_set_entries_append(es.drop_first(), key, value);
    }
}

proof fn lemma_set_modules_at(ms: Seq<ModuleV>, id: Seq<char>, key: Seq<char>, value: ConfigValueV, i: int)
    requires
        0 <= i < ms.len(),
        ms[i].0 == id,
        forall|j: int| 0 <= j < i ==> ms[j].0 != id,
    ensures
        set_in_modules(ms, id, key, value) =~= ms.update(
            i,
            (id, set_in_entries(ms[i].1, key, value)),
        ),
    decreases i,
{
    if i == 0 {
    } else {
        lemma_set_modules_at(ms.drop_first(), id, key, value, i - 1);
    }
}

proof fn lemma_set_modules_append(ms: Seq<ModuleV>, id: Seq<char>, key: Seq<char>, value: ConfigValueV)
    requires
        forall|j: int| 0 <= j < ms.len() ==> ms[j].0 != id,
    ensures
        set_in_modules(ms, id, key, value) =~= ms.push((id, seq![(key, value)])),
    decreases ms.len(),
{
    if ms.len() > 0 {
        lemma_set_modules_append(ms.drop_first(), id, key, value);
    }
}

/// Stores `value` under `key` among `entries`, replacing an existing entry
/// for `key` or appending a new one.
fn set_in_entries_exec(entries: &mut Vec<ConfigEntry>, key: &str, value: ConfigValue)
    ensures
        entries_view(final(entries)@) == set_in_entries(
            entries_view(old(entries)@),
            key@,
            value@,
        ),
{
    let ghost esv = entries_view(entries@);
    let ghost valuev = value@;
    let mut i: usize = 0;
    while i < entries.len()
        invariant
            i <= entries@.len(),
            esv == entries_view(entries@),
            esv == entries_view(old(entries)@),
            valuev == value@,
            forall|j: int| 0 <= j < i ==> esv[j].0 != key@,
        decreases entries@.len() - i,
    {
        if str_eq(entries[i].key.as_str(), key) {
            let mut e = entries.remove(i);
            e.key = key.to_owned();
            e.value = value;
            entries.insert(i, e);
            proof {
                lemma_set_entries_at(esv, key@, valuev, i as int);
                assert(entries_view(entries@) =~~= esv.update(
                    i as int,
                    (key@, valuev),
                ));
                assert(entries_view(entries@) =~~= set_in_entries(esv, key@, valuev));
            }
            return ;
        }
        i = i + 1;
    }
    entries.push(ConfigEntry { key: key.to_owned(), value });
    proof {
        lemma_set_entries_append(esv, key@, valuev);
        assert(entries_view(entries@) =~~= esv.push((key@, valuev)));
        assert(entries_view(entries@) =~~= set_in_entries(esv, key@, valuev));
    }
}

/// Stores `value` under `key` of the module `id` among `modules`, adding the
/// module when it does not exist yet.
fn set_in_modules_exec(modules: &mut Vec<ModuleConfig>, id: &str, key: &str, value: ConfigValue)
    ensures
        modules_view(final(modules)@) == set_in_modules(
            modules_view(old(modules)@),
            id@,
            key@,
            value@,
        ),
{
    let ghost msv = modules_view(modules@);
    let ghost valuev = value@;
    let mut i: usize = 0;
    while i < modules.len()
        invariant
            i <= modules@.len(),
            msv == modules_view(modules@),
            msv == modules_view(old(modules)@),
            valuev == value@,
            forall|j: int| 0 <= j < i ==> msv[j].0 != id@,
        decreases modules@.len() - i,
    {
        if str_eq(modules[i].id.as_str(), id) {
            let ghost old_entries = msv[i as int].1;
            let mut m = modules.remove(i);
            set_in_entries_exec(&mut m.entries, key, value);
            modules.insert(i, m);
            proof {
                lemma_set_modules_at(msv, id@, key@, valuev, i as int);
                assert(modules_view(modules@) =~~= msv.update(
                    i as int,
                    (id@, set_in_entries(old_entries, key@, valuev)),
                ));
                assert(modules_view(modules@) =~~= set_in_modules(msv, id@, key@, valuev));
            }
            return ;
        }
        i = i + 1;
    }
    let mut entries: Vec<ConfigEntry> = Vec::new();
    entries.push(ConfigEntry { key: key.to_owned(), value });
    modules.push(ModuleConfig { id: id.to_owned(), entries });
    proof {
        lemma_set_modules_append(msv, id@, key@, valuev);
        assert(modules_view(modules@) =~~= msv.push(
            (id@, seq![(key@, valuev)]),
        ));
        assert(modules_view(modules@) =~~= set_in_modules(msv, id@, key@, valuev));
    }
}

impl Config {
    /// Stores an analyzer setting; the module and key are created as needed.
    pub fn set_analyzer_value(&mut self, analyzer_id: &str, key: &str, value: ConfigValue)
        ensures
            final(self)@.analyzers == set_in_modules(
                old(self)@.analyzers,
                analyzer_id@,
                key@,
                value@,
            ),
            final(self)@.outputs == old(self)@.outputs,
    {
        set_in_modules_exec(&mut self.analyzers, analyzer_id, key, value);
    }

    /// Stores an output-module setting; the module and key are created as
    /// needed.
    pub fn set_output_value(&mut self, output_id: &str, key: &str, value: ConfigValue)
        ensures
            final(self)@.outputs == set_in_modules(old(self)@.outputs, output_id@, key@, value@),
            final(self)@.analyzers == old(self)@.analyzers,
    {
        set_in_modules_exec(&mut self.outputs, output_id, key, value);
    }
}


/// True when no entry among `es` stores `key`.
pub open spec fn fresh_key(es: Seq<(Seq<char>, ConfigValueV)>, key: Seq<char>) -> bool {
    forall|j: int| 0 <= j < es.len() ==> es[j].0 != key
}

/// True when no module among `ms` has the id `id`.
pub open spec fn fresh_module(ms: Seq<ModuleV>, id: Seq<char>) -> bool {
    forall|j: int| 0 <= j < ms.len() ==> ms[j].0 != id
}

/// True when every key among `es` occurs once.
pub open spec fn unique_keys(es: Seq<(Seq<char>, ConfigValueV)>) -> bool {
    forall|i: int, j: int| 0 <= i < j < es.len() ==> es[i].0 != es[j].0
}

/// Well-formed per-module settings: module ids occur once, each module holds
/// at least one entry, and keys occur once within a module.
pub open spec fn wf_modules(ms: Seq<ModuleV>) -> bool {
    &&& forall|i: int, j: int| 0 <= i < j < ms.len() ==> ms[i].0 != ms[j].0
    &&& forall|i: int| 0 <= i < ms.len() ==> (#[trigger] ms[i]).1.len() > 0
    &&& forall|i: int| 0 <= i < ms.len() ==> unique_keys((#[trigger] ms[i]).1)
}

/// Well-formed settings store. Every store the library builds (an empty one,
/// then any number of `set` calls) satisfies this.
pub open spec fn config_wf(c: ConfigV) -> bool {
    wf_modules(c.analyzers) && wf_modules(c.outputs)
}

/// Storing a value and then looking one up: the freshly stored pair is found
/// under its module and key, and every other lookup is undisturbed.
pub proof fn lemma_lookup_after_set_entries(
    es: Seq<(Seq<char>, ConfigValueV)>,
    key: Seq<char>,
    value: ConfigValueV,
    key2: Seq<char>,
)
    ensures
        lookup_entries(set_in_entries(es, key, value), key2) == (if key2 == key {
            Some(value)
        } else {
            lookup_entries(es, key2)
        }),
    decreases es.len(),
{
    let set = set_in_entries(es, key, value);
    if es.len() == 0 {
        assert(set =~= seq![(key, value)]);
        if key2 == key {
            assert(lookup_entries(set, key2) == Some(value));
        } else {
            assert(set.drop_first() =~= Seq::<(Seq<char>, ConfigValueV)>::empty());
            assert(lookup_entries(set.drop_first(), key2) is None);
        }
    } else if es[0].0 == key {
        assert(set =~= seq![(key, value)] + es.drop_first());
        if key2 == key {
            assert(lookup_entries(set, key2) == Some(value));
        } else {
            assert(set.drop_first() =~= es.drop_first());
            assert(lookup_entries(set, key2) == lookup_entries(set.drop_first(), key2));
            assert(lookup_entries(es, key2) == lookup_entries(es.drop_first(), key2));
        }
    } else {
        lemma_lookup_after_set_entries(es.drop_first(), key, value, key2);
        assert(set =~= seq![es[0]] + set_in_entries(es.drop_first(), key, value));
        assert(set[0] == es[0]);
        assert(set.drop_first() =~= set_in_entries(es.drop_first(), key, value));
        if es[0].0 == key2 {
            assert(lookup_entries(set, key2) == Some(es[0].1));
            assert(lookup_entries(es, key2) == Some(es[0].1));
        } else {
            assert(lookup_entries(set, key2) == lookup_entries(set.drop_first(), key2));
            assert(lookup_entries(es, key2) == lookup_entries(es.drop_first(), key2));
        }
    }
}

/// Storing a value and then looking one up, across whole namespaces: the
/// stored value is returned for its own module and key, and every other
/// module/key pair reads as before.
pub proof fn lemma_lookup_after_set_modules(
    ms: Seq<ModuleV>,
    id: Seq<char>,
    key: Seq<char>,
    value: ConfigValueV,
    id2: Seq<char>,
    key2: Seq<char>,
)
    ensures
        lookup_modules(set_in_modules(ms, id, key, value), id2, key2) == (if id2 == id && key2
            == key {
            Some(value)
        } else {
            lookup_modules(ms, id2, key2)
        }),
    decreases ms.len(),
{
    let set = set_in_modules(ms, id, key, value);
    if ms.len() == 0 {
        let m = (id, seq![(key, value)]);
        assert(set =~= seq![m]);
        if id2 == id {
            assert(lookup_modules(set, id2, key2) == lookup_entries(seq![(key, value)], key2));
            if key2 == key {
                assert(lookup_entries(seq![(key, value)], key2) == Some(value));
            } else {
                assert(seq![(key, value)].drop_first() =~= Seq::<(
                    Seq<char>,
                    ConfigValueV,
                )>::empty());
                assert(lookup_entries(seq![(key, value)], key2) is None);
                assert(lookup_entries(seq![(key, value)].drop_first(), key2) is None);
            }
        } else {
            assert(set.drop_first() =~= Seq::<ModuleV>::empty());
            assert(lookup_modules(set.drop_first(), id2, key2) is None);
        }
    } else if ms[0].0 == id {
        let m = (id, set_in_entries(ms[0].1, key, value));
        assert(set =~= seq![m] + ms.drop_first());
        assert(set[0] == m);
        assert(set.drop_first() =~= ms.drop_first());
        if id2 == id {
            assert(lookup_modules(set, id2, key2) == lookup_entries(m.1, key2));
            lemma_lookup_after_set_entries(ms[0].1, key, value, key2);
            assert(lookup_modules(ms, id2, key2) == lookup_entries(ms[0].1, key2));
        } else {
            assert(lookup_modules(set, id2, key2) == lookup_modules(set.drop_first(), id2, key2));
            assert(lookup_modules(ms, id2, key2) == lookup_modules(ms.drop_first(), id2, key2));
        }
    } else {
        lemma_lookup_after_set_modules(ms.drop_first(), id, key, value, id2, key2);
        assert(set =~= seq![ms[0]] + set_in_modules(ms.drop_first(), id, key, value));
        assert(set[0] == ms[0]);
        assert(set.drop_first() =~= set_in_modules(ms.drop_first(), id, key, value));
        if ms[0].0 == id2 {
            assert(lookup_modules(set, id2, key2) == lookup_entries(ms[0].1, key2));
            assert(lookup_modules(ms, id2, key2) == lookup_entries(ms[0].1, key2));
        } else {
            assert(lookup_modules(set, id2, key2) == lookup_modules(set.drop_first(), id2, key2));
            assert(lookup_modules(ms, id2, key2) == lookup_modules(ms.drop_first(), id2, key2));
        }
    }
}

proof fn lemma_set_entries_fresh(
    es: Seq<(Seq<char>, ConfigValueV)>,
    key: Seq<char>,
    value: ConfigValueV,
    x: Seq<char>,
)
    requires
        fresh_key(es, x),
        x != key,
    ensures
        fresh_key(set_in_entries(es, key, value), x),
    decreases es.len(),
{
    let set = set_in_entries(es, key, value);
    if es.len() == 0 {
        assert(set =~= seq![(key, value)]);
    } else if es[0].0 == key {
        assert(set =~= seq![(key, value)] + es.drop_first());
        assert(forall|j: int| 0 <= j < es.drop_first().len() ==> es.drop_first()[j] == es[j + 1]);
    } else {
        lemma_set_entries_fresh(es.drop_first(), key, value, x);
        assert(set =~= seq![es[0]] + set_in_entries(es.drop_first(), key, value));
    }
}

proof fn lemma_set_entries_wf(es: Seq<(Seq<char>, ConfigValueV)>, key: Seq<char>, value: ConfigValueV)
    requires
        unique_keys(es),
    ensures
        unique_keys(set_in_entries(es, key, value)),
        set_in_entries(es, key, value).len() >= 1,
    decreases es.len(),
{
    let set = set_in_entries(es, key, value);
    if es.len() == 0 {
        assert(set =~= seq![(key, value)]);
    } else if es[0].0 == key {
        let rest = es.drop_first();
        assert(set =~= seq![(key, value)] + rest);
        assert(forall|j: int| 0 <= j < rest.len() ==> rest[j] == es[j + 1]);
        assert(forall|j: int| 0 <= j < rest.len() ==> rest[j].0 != key);
    } else {
        let rest = es.drop_first();
        assert(forall|j: int| 0 <= j < rest.len() ==> rest[j] == es[j + 1]);
        lemma_set_entries_wf(rest, key, value);
        lemma_set_entries_fresh(rest, key, value, es[0].0);
        assert(set =~= seq![es[0]] + set_in_entries(rest, key, value));
    }
}

proof fn lemma_set_modules_fresh(
    ms: Seq<ModuleV>,
    id: Seq<char>,
    key: Seq<char>,
    value: ConfigValueV,
    x: Seq<char>,
)
    requires
        fresh_module(ms, x),
        x != id,
    ensures
        fresh_module(set_in_modules(ms, id, key, value), x),
    decreases ms.len(),
{
    let set = set_in_modules(ms, id, key, value);
    if ms.len() == 0 {
        assert(set =~= seq![(id, seq![(key, value)])]);
    } else if ms[0].0 == id {
        assert(set =~= seq![(id, set_in_entries(ms[0].1, key, value))] + ms.drop_first());
        assert(forall|j: int| 0 <= j < ms.drop_first().len() ==> ms.drop_first()[j] == ms[j + 1]);
    } else {
        lemma_set_modules_fresh(ms.drop_first(), id, key, value, x);
        assert(set =~= seq![ms[0]] + set_in_modules(ms.drop_first(), id, key, value));
    }
}

/// Storing a value preserves the store's validity: module ids and keys stay
/// unique, and no module is left empty.
pub proof fn lemma_set_modules_wf(ms: Seq<ModuleV>, id: Seq<char>, key: Seq<char>, value: ConfigValueV)
    requires
        wf_modules(ms),
    ensures
        wf_modules(set_in_modules(ms, id, key, value)),
    decreases ms.len(),
{
    let set = set_in_modules(ms, id, key, value);
    if ms.len() == 0 {
        assert(set =~= seq![(id, seq![(key, value)])]);
        assert(unique_keys(seq![(key, value)]));
    } else if ms[0].0 == id {
        let rest = ms.drop_first();
        assert(forall|j: int| 0 <= j < rest.len() ==> rest[j] == ms[j + 1]);
        lemma_set_entries_wf(ms[0].1, key, value);
        assert(set =~= seq![(id, set_in_entries(ms[0].1, key, value))] + rest);
    } else {
        let rest = ms.drop_first();
        assert(forall|j: int| 0 <= j < rest.len() ==> rest[j] == ms[j + 1]);
        lemma_set_modules_wf(rest, id, key, value);
        lemma_set_modules_fresh(rest, id, key, value, ms[0].0);
        assert(set =~= seq![ms[0]] + set_in_modules(rest, id, key, value));
        let setr = set_in_modules(rest, id, key, value);
        assert(forall|j: int| 0 <= j < setr.len() ==> set[j + 1] == setr[j]);
        assert(set[0] == ms[0]);
    }
}

/// Which namespace a stored entry belongs to.
#[derive(Debug, Clone, Copy, PartialEq, Eq, Structural)]
#[verifier::ext_equal]
pub enum Section {
    Analyzers,
    Outputs,
}

/// One stored setting in flat form: the persisted content of a settings
/// store is exactly an ordered sequence of these.
#[derive(Debug, Clone)]
pub struct FlatEntry {
    pub section: Section,
    pub module: String,
    pub key: String,
    pub value: ConfigValue,
}

/// The mathematical value of a [`FlatEntry`].
pub type FlatV = (Section, Seq<char>, Seq<char>, ConfigValueV);

impl View for FlatEntry {
    type V = FlatV;

    open spec fn view(&self) -> FlatV {
        (self.section, self.module@, self.key@, self.value@)
    }
}

/// The mathematical value of a sequence of flat entries.
pub open spec fn flats_view(es: Seq<FlatEntry>) -> Seq<FlatV> {
    es.map_values(|e: FlatEntry| e@)
}

/// The namespace of `c` that `s` names.
pub open spec fn sec_of(c: ConfigV, s: Section) -> Seq<ModuleV> {
    match s {
        Section::Analyzers => c.analyzers,
        Section::Outputs => c.outputs,
    }
}

/// `c` with the namespace that `s` names replaced by `ms`.
pub open spec fn with_sec(c: ConfigV, s: Section, ms: Seq<ModuleV>) -> ConfigV {
    match s {
        Section::Analyzers => ConfigV { analyzers: ms, outputs: c.outputs },
        Section::Outputs => ConfigV { analyzers: c.analyzers, outputs: ms },
    }
}

/// `c` after storing the flat entry `e`.
pub open spec fn apply_flat(c: ConfigV, e: FlatV) -> ConfigV {
    with_sec(c, e.0, set_in_modules(sec_of(c, e.0), e.1, e.2, e.3))
}

/// `c` after storing each flat entry of `es` in order.
pub open spec fn apply_flats(c: ConfigV, es: Seq<FlatV>) -> ConfigV
    decreases es.len(),
{
    if es.len() == 0 {
        c
    } else {
        apply_flats(apply_flat(c, es[0]), es.drop_first())
    }
}

/// A settings store with nothing in it.
pub open spec fn empty_config() -> ConfigV {
    ConfigV { analyzers: Seq::empty(), outputs: Seq::empty() }
}

/// The flat entries of one module, in stored order.
pub open spec fn flat_of_module(s: Section, m: ModuleV) -> Seq<FlatV> {
    m.1.map_values(|e: (Seq<char>, ConfigValueV)| (s, m.0, e.0, e.1))
}

/// The flat entries of a whole namespace, module by module.
pub open spec fn flats_of_modules(s: Section, ms: Seq<ModuleV>) -> Seq<FlatV>
    decreases ms.len(),
{
    if ms.len() == 0 {
        Seq::empty()
    } else {
        flat_of_module(s, ms[0]) + flats_of_modules(s, ms.drop_first())
    }
}

/// Everything `c` stores, as an ordered sequence of flat entries: first the
/// analyzer namespace, then the output namespace.
pub open spec fn config_to_flats(c: ConfigV) -> Seq<FlatV> {
    flats_of_modules(Section::Analyzers, c.analyzers) + flats_of_modules(
        Section::Outputs,
        c.outputs,
    )
}

proof fn lemma_apply_flats_append(c: ConfigV, a: Seq<FlatV>, b: Seq<FlatV>)
    ensures
        apply_flats(c, a + b) == apply_flats(apply_flats(c, a), b),
    decreases a.len(),
{
    if a.len() == 0 {
        assert(a + b =~= b);
    } else {
        assert((a + b)[0] == a[0]);
        assert((a + b).drop_first() =~= a.drop_first() + b);
        lemma_apply_flats_append(apply_flat(c, a[0]), a.drop_first(), b);
    }
}

/// Replaying any flat entries into a valid store keeps it valid; with the
/// empty store valid, every store the library builds is.
pub proof fn lemma_apply_flats_wf(c: ConfigV, es: Seq<FlatV>)
    requires
        config_wf(c),
    ensures
        config_wf(apply_flats(c, es)),
    decreases es.len(),
{
    if es.len() > 0 {
        let e = es[0];
        let c2 = apply_flat(c, e);
        match e.0 {
            Section::Analyzers => {
                lemma_set_modules_wf(c.analyzers, e.1, e.2, e.3);
            },
            Section::Outputs => {
                lemma_set_modules_wf(c.outputs, e.1, e.2, e.3);
            },
        }
        lemma_apply_flats_wf(c2, es.drop_first());
    }
}

proof fn lemma_set_modules_existing_last(
    pre: Seq<ModuleV>,
    id: Seq<char>,
    es: Seq<(Seq<char>, ConfigValueV)>,
    key: Seq<char>,
    value: ConfigValueV,
)
    requires
        fresh_module(pre, id),
    ensures
        set_in_modules(pre.push((id, es)), id, key, value) =~~= pre.push(
            (id, set_in_entries(es, key, value)),
        ),
    decreases pre.len(),
{
    let ms = pre.push((id, es));
    if pre.len() == 0 {
        assert(ms[0] == (id, es));
        assert(ms.drop_first() =~= Seq::<ModuleV>::empty());
        assert(set_in_modules(ms, id, key, value) =~~= seq![
            (id, set_in_entries(es, key, value)),
        ] + Seq::<ModuleV>::empty());
    } else {
        assert(ms[0] == pre[0]);
        assert(ms.drop_first() =~= pre.drop_first().push((id, es)));
        lemma_set_modules_existing_last(pre.drop_first(), id, es, key, value);
    }
}

proof fn lemma_fold_entries(
    c: ConfigV,
    s: Section,
    pre: Seq<ModuleV>,
    id: Seq<char>,
    done: Seq<(Seq<char>, ConfigValueV)>,
    todo: Seq<(Seq<char>, ConfigValueV)>,
)
    requires
        sec_of(c, s) == pre.push((id, done)),
        fresh_module(pre, id),
        unique_keys(done + todo),
    ensures
        apply_flats(c, todo.map_values(|e: (Seq<char>, ConfigValueV)| (s, id, e.0, e.1)))
            == with_sec(c, s, pre.push((id, done + todo))),
    decreases todo.len(),
{
    let flats = todo.map_values(|e: (Seq<char>, ConfigValueV)| (s, id, e.0, e.1));
    if todo.len() == 0 {
        assert(done + todo =~= done);
        assert(with_sec(c, s, pre.push((id, done))) =~~= c);
    } else {
        let k = todo[0].0;
        let v = todo[0].1;
        assert(flats[0] == (s, id, k, v));
        lemma_set_modules_existing_last(pre, id, done, k, v);
        assert(fresh_key(done, k)) by {
            assert(forall|j: int| 0 <= j < done.len() ==> (done + todo)[j] == done[j]);
            assert((done + todo)[done.len() as int] == todo[0]);
        }
        lemma_set_entries_append(done, k, v);
        let c2 = apply_flat(c, flats[0]);
        assert(c2 =~~= with_sec(c, s, pre.push((id, done.push((k, v))))));
        assert(sec_of(c2, s) == pre.push((id, done.push((k, v)))));
        assert(done.push((k, v)) + todo.drop_first() =~= done + todo);
        lemma_fold_entries(c2, s, pre, id, done.push((k, v)), todo.drop_first());
        assert(flats.drop_first() =~= todo.drop_first().map_values(
            |e: (Seq<char>, ConfigValueV)| (s, id, e.0, e.1),
        ));
        assert(with_sec(c2, s, pre.push((id, done.push((k, v)) + todo.drop_first())))
            =~~= with_sec(c, s, pre.push((id, done + todo))));
    }
}

proof fn lemma_fold_one_module(
    c: ConfigV,
    s: Section,
    pre: Seq<ModuleV>,
    id: Seq<char>,
    entries: Seq<(Seq<char>, ConfigValueV)>,
)
    requires
        sec_of(c, s) == pre,
        fresh_module(pre, id),
        unique_keys(entries),
        entries.len() > 0,
    ensures
        apply_flats(c, flat_of_module(s, (id, entries))) == with_sec(c, s, pre.push(
            (id, entries),
        )),
{
    let flats = flat_of_module(s, (id, entries));
    let k = entries[0].0;
    let v = entries[0].1;
    assert(flats[0] == (s, id, k, v));
    lemma_set_modules_append(pre, id, k, v);
    let c2 = apply_flat(c, flats[0]);
    assert(c2 =~~= with_sec(c, s, pre.push((id, seq![(k, v)]))));
    assert(seq![(k, v)] + entries.drop_first() =~= entries);
    lemma_fold_entries(c2, s, pre, id, seq![(k, v)], entries.drop_first());
    assert(flats.drop_first() =~= entries.drop_first().map_values(
        |e: (Seq<char>, ConfigValueV)| (s, id, e.0, e.1),
    ));
    assert(with_sec(c2, s, pre.push((id, seq![(k, v)] + entries.drop_first())))
        =~~= with_sec(c, s, pre.push((id, entries))));
}

proof fn lemma_fold_modules(c: ConfigV, s: Section, done: Seq<ModuleV>, todo: Seq<ModuleV>)
    requires
        sec_of(c, s) == done,
        wf_modules(done + todo),
    ensures
        apply_flats(c, flats_of_modules(s, todo)) == with_sec(c, s, done + todo),
    decreases todo.len(),
{
    if todo.len() == 0 {
        assert(done + todo =~= done);
        assert(with_sec(c, s, done) =~~= c);
    } else {
        let m = todo[0];
        assert((done + todo)[done.len() as int] == m);
        assert(m.1.len() > 0 && unique_keys(m.1)) by {
            assert((done + todo)[done.len() as int] == m);
        }
        assert(fresh_module(done, m.0)) by {
            assert(forall|j: int| 0 <= j < done.len() ==> (done + todo)[j] == done[j]);
        }
        lemma_apply_flats_append(c, flat_of_module(s, m), flats_of_modules(s, todo.drop_first()));
        lemma_fold_one_module(c, s, done, m.0, m.1);
        let c2 = with_sec(c, s, done.push(m));
        assert(apply_flats(c, flat_of_module(s, (m.0, m.1))) == c2) by {
            assert((m.0, m.1) == m);
        }
        assert(sec_of(c2, s) == done.push(m));
        assert(done.push(m) + todo.drop_first() =~= done + todo);
        lemma_fold_modules(c2, s, done.push(m), todo.drop_first());
        assert(with_sec(c2, s, done.push(m) + todo.drop_first()) =~~= with_sec(
            c,
            s,
            done + todo,
        ));
    }
}

/// Round trip of the settings store: flattening a well-formed store to its
/// ordered entries and replaying those entries into an empty store rebuilds
/// the store exactly, key for key and value for value.
pub proof fn lemma_config_round_trip(c: ConfigV)
    requires
        config_wf(c),
    ensures
        apply_flats(empty_config(), config_to_flats(c)) == c,
{
    let e = empty_config();
    let fa = flats_of_modules(Section::Analyzers, c.analyzers);
    let fo = flats_of_modules(Section::Outputs, c.outputs);
    lemma_apply_flats_append(e, fa, fo);
    assert(Seq::<ModuleV>::empty() + c.analyzers =~= c.analyzers);
    lemma_fold_modules(e, Section::Analyzers, Seq::empty(), c.analyzers);
    let c1 = with_sec(e, Section::Analyzers, c.analyzers);
    assert(sec_of(c1, Section::Outputs) == Seq::<ModuleV>::empty());
    assert(Seq::<ModuleV>::empty() + c.outputs =~= c.outputs);
    lemma_fold_modules(c1, Section::Outputs, Seq::empty(), c.outputs);
    assert(with_sec(c1, Section::Outputs, c.outputs) =~~= c);
}


proof fn lemma_flats_of_modules_snoc(s: Section, a: Seq<ModuleV>, m: ModuleV)
    ensures
        flats_of_modules(s, a.push(m)) == flats_of_modules(s, a) + flat_of_module(s, m),
    decreases a.len(),
{
    if a.len() == 0 {
        assert(a.push(m)[0] == m);
        assert(a.push(m).drop_first() =~= Seq::<ModuleV>::empty());
        assert(flats_of_modules(s, a.push(m).drop_first()) =~= Seq::<FlatV>::empty());
        assert(flats_of_modules(s, a.push(m)) =~~= flats_of_modules(s, a) + flat_of_module(s, m));
    } else {
        assert(a.push(m)[0] == a[0]);
        assert(a.push(m).drop_first() =~= a.drop_first().push(m));
        lemma_flats_of_modules_snoc(s, a.drop_first(), m);
        assert(flat_of_module(s, a[0]) + (flats_of_modules(s, a.drop_first()) + flat_of_module(
            s,
            m,
        )) =~= (flat_of_module(s, a[0]) + flats_of_modules(s, a.drop_first())) + flat_of_module(
            s,
            m,
        ));
    }
}

/// Appends to `out` the flat entries of `modules`, tagged with `section`.
fn flatten_section(section: Section, modules: &Vec<ModuleConfig>, out: &mut Vec<FlatEntry>)
    ensures
        flats_view(final(out)@) == flats_view(old(out)@) + flats_of_modules(
            section,
            modules_view(modules@),
        ),
{
    let ghost base = flats_view(out@);
    let ghost msv = modules_view(modules@);
    let mut i: usize = 0;
    proof {
        assert(msv.take(0) =~= Seq::<ModuleV>::empty());
        assert(base + flats_of_modules(section, msv.take(0)) =~= base);
    }
    while i < modules.len()
        invariant
            i <= modules@.len(),
            msv == modules_view(modules@),
            base == flats_view(old(out)@),
            flats_view(out@) == base + flats_of_modules(section, msv.take(i as int)),
        decreases modules@.len() - i,
    {
        let m = &modules[i];
        let ghost mflats = flat_of_module(section, msv[i as int]);
        let ghost before = flats_view(out@);
        let mut j: usize = 0;
        proof {
            assert(mflats.take(0) =~= Seq::<FlatV>::empty());
            assert(before + mflats.take(0) =~= before);
        }
        while j < m.entries.len()
            invariant
                j <= m.entries@.len(),
                msv == modules_view(modules@),
                0 <= i < modules@.len(),
                *m == modules@[i as int],
                mflats == flat_of_module(section, msv[i as int]),
                before == flats_view(old(out)@) + flats_of_modules(section, msv.take(i as int)),
                flats_view(out@) == before + mflats.take(j as int),
            decreases m.entries@.len() - j,
        {
            proof {
                assert(msv[i as int] == modules@[i as int]@);
                assert(msv[i as int].1 == entries_view(m.entries@));
                assert(msv[i as int].1.len() == m.entries@.len());
                assert(mflats.len() == m.entries@.len());
                assert(mflats.take(j as int).len() == j as int);
                assert(flats_view(out@).len() == out@.len());
                assert(flats_view(out@) == before + mflats.take(j as int));
                assert(out@.len() == before.len() + j as int);
            }
            let e = &m.entries[j];
            let ghost out_pre = out@;
            out.push(
                FlatEntry {
                    section,
                    module: m.id.clone(),
                    key: e.key.clone(),
                    value: e.value.duplicate(),
                },
            );
            proof {
                assert(msv[i as int] == modules@[i as int]@);
                assert(msv[i as int].1 == entries_view(modules@[i as int].entries@));
                assert(m.entries@ == modules@[i as int].entries@);
                assert(msv[i as int].1[j as int] == m.entries@[j as int]@);
                assert(m.entries@[j as int]@ == (e.key@, e.value@));
                assert(msv[i as int].0 == m.id@);
                assert(mflats[j as int] == (
                    section,
                    msv[i as int].0,
                    msv[i as int].1[j as int].0,
                    msv[i as int].1[j as int].1,
                ));
                assert(mflats.take(j as int + 1) =~= mflats.take(j as int).push(
                    mflats[j as int],
                ));
                assert(out@ == out_pre.push(out@[out_pre.len() as int]));
                assert(flats_view(out_pre) == before + mflats.take(j as int));
                assert forall|k: int| 0 <= k < out_pre.len() implies flats_view(out@)[k]
                    == flats_view(out_pre)[k] by {
                    assert(out@[k] == out_pre[k]);
                }
                let ghost n = before.len() + j as int;
                assert(mflats.take(j as int + 1)[j as int] == mflats[j as int]);
                assert((before + mflats.take(j as int + 1))[n] == mflats[j as int]);
                assert(flats_view(out@)[n] == out@[n]@);
                assert(out@[n]@ == mflats[j as int]);
                assert_seqs_equal!(flats_view(out@) == before + mflats.take(j as int + 1), k => {
                    assert(flats_view(out@)[k] == out@[k]@);
                    if k < n {
                        assert(out@[k] == out_pre[k]);
                        assert(flats_view(out_pre)[k] == out_pre[k]@);
                        assert((before + mflats.take(j as int))[k] == (before + mflats.take(
                            j as int + 1,
                        ))[k]);
                    } else {
                        assert((before + mflats.take(j as int + 1))[k] == mflats[j as int]);
                    }
                });
            }
            j = j + 1;
        }
        proof {
            assert(mflats.take(m.entries@.len() as int) =~= mflats);
            assert(msv.take(i as int + 1) =~= msv.take(i as int).push(msv[i as int]));
            lemma_flats_of_modules_snoc(section, msv.take(i as int), msv[i as int]);
            assert(flats_view(out@) =~~= flats_view(old(out)@) + flats_of_modules(
                section,
                msv.take(i as int + 1),
            ));
        }
        i = i + 1;
    }
    proof {
        assert(msv.take(modules@.len() as int) =~= msv);
    }
}

impl Config {
    /// Everything this store holds, as ordered flat entries: the persisted
    /// form of the settings. Replaying them with [`Config::from_entries`]
    /// rebuilds the store (see [`lemma_config_round_trip`]).
    pub fn to_entries(&self) -> (r: Vec<FlatEntry>)
        ensures
            flats_view(r@) == config_to_flats(self@),
    {
        let mut out: Vec<FlatEntry> = Vec::new();
        proof {
            assert(flats_view(out@) =~= Seq::<FlatV>::empty());
        }
        flatten_section(Section::Analyzers, &self.analyzers, &mut out);
        flatten_section(Section::Outputs, &self.outputs, &mut out);
        proof {
            assert(Seq::<FlatV>::empty() + flats_of_modules(Section::Analyzers, self@.analyzers)
                =~= flats_of_modules(Section::Analyzers, self@.analyzers));
        }
        out
    }

    /// Rebuilds a store by storing each flat entry in order. Entries are
    /// taken as they come: unknown modules or keys are simply stored, never
    /// an error.
    pub fn from_entries(entries: &Vec<FlatEntry>) -> (r: Config)
        ensures
            r@ == apply_flats(empty_config(), flats_view(entries@)),
    {
        let ghost fv = flats_view(entries@);
        let mut cfg = Config::new();
        proof {
            assert(cfg@ =~~= empty_config());
            assert(fv.skip(0) =~= fv);
        }
        let mut i: usize = 0;
        while i < entries.len()
            invariant
                i <= entries@.len(),
                fv == flats_view(entries@),
                apply_flats(cfg@, fv.skip(i as int)) == apply_flats(empty_config(), fv),
            decreases entries@.len() - i,
        {
            let e = &entries[i];
            let ghost cfg_before = cfg@;
            match e.section {
                Section::Analyzers => {
                    cfg.set_analyzer_value(e.module.as_str(), e.key.as_str(), e.value.duplicate());
                },
                Section::Outputs => {
                    cfg.set_output_value(e.module.as_str(), e.key.as_str(), e.value.duplicate());
                },
            }
            proof {
                assert(fv.skip(i as int)[0] == fv[i as int]);
                assert(fv[i as int] == (e.section, e.module@, e.key@, e.value@));
                assert(cfg@ =~~= apply_flat(cfg_before, fv[i as int]));
                assert(fv.skip(i as int).drop_first() =~= fv.skip(i as int + 1));
            }
            i = i + 1;
        }
        proof {
            assert(fv.skip(entries@.len() as int) =~= Seq::<FlatV>::empty());
        }
        cfg
    }
}

} // verus!
