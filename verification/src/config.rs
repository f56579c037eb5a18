//! The configuration as plain values, and how one configuration takes over from another.

use vstd::prelude::*;
use vstd::string::*;

use crate::knowledge::{Knowledge, World};
use crate::resolve::{ConfigError, ConfigErrorModel, Outcome, OutcomeModel};
use crate::rules::{
    convert_raw_table_to_dots_use, converted, copy_pairs, copy_texts, list_texts, used, DotsUse,
    DotsUseModel, RawUseTable,
};
use crate::strmap::{pairs_insert, Pair, StringMap};
use crate::text::{same_text, texts};
use crate::trackfile::pair_texts;

verus! {

/// A part of the options that can be taken over from another configuration.
#[derive(Debug, Clone, Copy, PartialEq, Eq, Hash, Structural)]
pub enum Inheritable {
    /// The rules.
    Use,
    /// The targets given for all rules.
    UseTarget,
    /// The exclusions given for all rules.
    Exclude,
}

/// The general part of a configuration.
#[derive(Debug, Clone, PartialEq, Eq)]
pub struct GeneralConfig {
    /// What is taken over from the configuration in force.
    pub inherits: Option<Vec<String>>,
    /// Whether anything doubtful is an error.
    pub strict: Option<bool>,
}

/// The options for linking dotfiles.
#[derive(Debug, PartialEq, Eq)]
pub struct DotsOptions {
    /// The rules, by the source path they are for.
    pub use_map: Option<Vec<(String, Vec<DotsUse>)>>,
    /// Pairs of suffix and destination template for rules without targets.
    pub use_target: Option<Vec<(String, String)>>,
    /// Templates of sources to leave out under every rule.
    pub exclude: Option<Vec<String>>,
    /// The parts that a configuration below this one takes over from it.
    pub inherits: Option<Vec<Inheritable>>,
}

/// One dotfiles tree named in a configuration.
#[derive(Debug, PartialEq, Eq)]
pub struct DotfileConfig {
    /// Where the tree is.
    pub path: String,
    /// Whether its links replace those of trees named before it.
    pub replace: Option<bool>,
    /// Whether the tree's own configuration is read.
    pub use_config: bool,
    /// The options for this tree.
    pub options: DotsOptions,
}

/// The part of a configuration that is about dotfiles.
#[derive(Debug, PartialEq, Eq)]
pub struct DotsConfig {
    pub options: DotsOptions,
}

/// A configuration.
#[derive(Debug, PartialEq, Eq)]
pub struct Config {
    pub general: Option<GeneralConfig>,
    pub dots: Option<DotsConfig>,
    pub dotfiles: Option<Vec<DotfileConfig>>,
}

/// What is asked of a resolution of targets.
#[derive(Debug, Clone, Copy, PartialEq, Eq, Structural)]
pub struct TrackfileGenOptions {
    /// Whether each source that is left out is reported.
    pub verbose: bool,
}

impl Default for TrackfileGenOptions {
    fn default() -> (r: Self)
        ensures
            !r.verbose,
    {
        TrackfileGenOptions { verbose: false }
    }
}

/// The configuration in force, and the configurations kept under a name.
#[derive(Debug, PartialEq, Eq)]
pub struct TomlSingleton {
    pub global: Config,
    pub templates: Vec<(String, Config)>,
}

/// `own` followed by those texts of `more` that are not in it yet.
pub open spec fn merged_texts(own: Seq<Seq<char>>, more: Seq<Seq<char>>) -> Seq<Seq<char>>
    decreases more.len(),
{
    if more.len() == 0 {
        own
    } else {
        let before = merged_texts(own, more.drop_last());
        if before.contains(more.last()) {
            before
        } else {
            before.push(more.last())
        }
    }
}

/// `own` followed by those kinds of `more` that are not in it yet.
pub open spec fn merged_kinds(own: Seq<Inheritable>, more: Seq<Inheritable>) -> Seq<Inheritable>
    decreases more.len(),
{
    if more.len() == 0 {
        own
    } else {
        let before = merged_kinds(own, more.drop_last());
        if before.contains(more.last()) {
            before
        } else {
            before.push(more.last())
        }
    }
}

/// Whether some entry of `list` has the key `key`.
pub open spec fn keyed<V>(list: Seq<(Seq<char>, V)>, key: Seq<char>) -> bool {
    exists|i: int| 0 <= i < list.len() && (#[trigger] list[i]).0 == key
}

/// `own` followed by those entries of `more` whose key is not there yet.
pub open spec fn merged_by_key<V>(own: Seq<(Seq<char>, V)>, more: Seq<(Seq<char>, V)>) -> Seq<
    (Seq<char>, V),
>
    decreases more.len(),
{
    if more.len() == 0 {
        own
    } else {
        let before = merged_by_key(own, more.drop_last());
        if keyed(before, more.last().0) {
            before
        } else {
            before.push(more.last())
        }
    }
}

/// The rules of a list, with their texts as character sequences.
pub open spec fn rule_models(rules: Seq<DotsUse>) -> Seq<DotsUseModel> {
    Seq::new(rules.len(), |i: int| rules[i]@)
}

/// The rules by source path, with their texts as character sequences.
pub open spec fn use_models(map: Seq<(String, Vec<DotsUse>)>) -> Seq<(Seq<char>, Seq<DotsUseModel>)> {
    Seq::new(map.len(), |i: int| (map[i].0@, rule_models(map[i].1@)))
}

/// Whether the variables of each rule form a well-formed map.
pub open spec fn rules_wf(rules: Seq<DotsUse>) -> bool {
    forall|i: int| 0 <= i < rules.len() ==> (#[trigger] rules[i]).replace_map.wf()
}

/// Whether the variables of each rule of each source path form a well-formed map.
pub open spec fn use_map_wf(map: Seq<(String, Vec<DotsUse>)>) -> bool {
    forall|k: int| 0 <= k < map.len() ==> rules_wf((#[trigger] map[k]).1@)
}

/// The options, with their texts as character sequences.
pub struct DotsOptionsModel {
    pub use_map: Option<Seq<(Seq<char>, Seq<DotsUseModel>)>>,
    pub use_target: Option<Seq<Pair>>,
    pub exclude: Option<Seq<Seq<char>>>,
    pub inherits: Option<Seq<Inheritable>>,
}

impl View for DotsOptions {
    type V = DotsOptionsModel;

    open spec fn view(&self) -> DotsOptionsModel {
        DotsOptionsModel {
            use_map: match self.use_map {
                Some(m) => Some(use_models(m@)),
                None => None,
            },
            use_target: match self.use_target {
                Some(t) => Some(pair_texts(t@)),
                None => None,
            },
            exclude: match self.exclude {
                Some(e) => Some(texts(e@)),
                None => None,
            },
            inherits: match self.inherits {
                Some(i) => Some(i@),
                None => None,
            },
        }
    }
}

/// What is in `list`, or nothing where there is no list.
pub open spec fn or_empty<T>(list: Option<Seq<T>>) -> Seq<T> {
    match list {
        Some(l) => l,
        None => Seq::empty(),
    }
}

/// The options `own` after they took over from `from` the parts that
/// `from` hands down: where `own` lacks a part it gets that of `from`;
/// where it has one it keeps its rules and targets and gains those of
/// `from` for other keys, and its exclusions are followed by those of `from`.
pub open spec fn inherited(own: DotsOptionsModel, from: DotsOptionsModel) -> DotsOptionsModel {
    match from.inherits {
        None => own,
        Some(kinds) => DotsOptionsModel {
            use_map: if kinds.contains(Inheritable::Use) {
                match own.use_map {
                    None => from.use_map,
                    Some(o) => Some(merged_by_key(o, or_empty(from.use_map))),
                }
            } else {
                own.use_map
            },
            use_target: if kinds.contains(Inheritable::UseTarget) {
                match own.use_target {
                    None => from.use_target,
                    Some(o) => Some(merged_by_key(o, or_empty(from.use_target))),
                }
            } else {
                own.use_target
            },
            exclude: if kinds.contains(Inheritable::Exclude) {
                match own.exclude {
                    None => from.exclude,
                    Some(o) => Some(o + or_empty(from.exclude)),
                }
            } else {
                own.exclude
            },
            inherits: own.inherits,
        },
    }
}

/// The kinds of `own` together with those of `more`.
pub open spec fn kinds_joined(own: Option<Seq<Inheritable>>, more: Option<Seq<Inheritable>>) -> Option<
    Seq<Inheritable>,
> {
    match own {
        None => more,
        Some(o) => Some(merged_kinds(o, or_empty(more))),
    }
}

/// The rules for one source path as written: a destination template, yes
/// or no, one rule or several.
#[derive(Debug, Clone, PartialEq, Eq)]
pub enum RawUseTableType {
    Str(String),
    Bool(bool),
    Table(RawUseTable),
    Array(Vec<RawUseTable>),
}

/// The rule that a bare destination template stands for.
pub open spec fn rule_for_template(template: Seq<char>) -> DotsUseModel {
    DotsUseModel {
        when: true,
        target: Some(seq![(Seq::empty(), template)]),
        replace_map: Seq::empty(),
        exclude: None,
    }
}

/// The rule that a bare "yes" stands for.
pub open spec fn rule_for_yes() -> DotsUseModel {
    DotsUseModel { when: true, target: None, replace_map: Seq::empty(), exclude: None }
}

/// Those of the rules as written from position `i` on that apply,
/// evaluated and added to `kept`.
pub open spec fn tables_kept(
    w: World,
    tables: Seq<RawUseTable>,
    i: int,
    kept: Seq<DotsUseModel>,
) -> OutcomeModel<Seq<DotsUseModel>>
    decreases tables.len() - i,
{
    if i < 0 || i >= tables.len() {
        OutcomeModel::Ready(kept)
    } else {
        match converted(w, tables[i]) {
            OutcomeModel::Ready(rule) => tables_kept(
                w,
                tables,
                i + 1,
                if rule.when {
                    kept.push(rule)
                } else {
                    kept
                },
            ),
            OutcomeModel::Need(q) => OutcomeModel::Need(q),
            OutcomeModel::Failed(e) => OutcomeModel::Failed(e),
        }
    }
}

/// The rules that apply among those written for one source path. A
/// bare destination template must not be empty.
pub open spec fn rules_written(w: World, value: RawUseTableType) -> OutcomeModel<Seq<DotsUseModel>> {
    match value {
        RawUseTableType::Str(template) => if template@.len() == 0 {
            OutcomeModel::Failed(ConfigErrorModel::EmptyTarget)
        } else {
            OutcomeModel::Ready(seq![rule_for_template(template@)])
        },
        RawUseTableType::Bool(b) => OutcomeModel::Ready(
            if b {
                seq![rule_for_yes()]
            } else {
                Seq::empty()
            },
        ),
        RawUseTableType::Table(table) => match converted(w, table) {
            OutcomeModel::Ready(rule) => OutcomeModel::Ready(
                if rule.when {
                    seq![rule]
                } else {
                    Seq::empty()
                },
            ),
            OutcomeModel::Need(q) => OutcomeModel::Need(q),
            OutcomeModel::Failed(e) => OutcomeModel::Failed(e),
        },
        RawUseTableType::Array(tables) => tables_kept(w, tables@, 0, Seq::empty()),
    }
}

/// The rules by source path for the entries from position `i` on, added
/// to `map`: a source path with no rule that applies is left out.
pub open spec fn use_map_written(
    w: World,
    raw: Seq<(String, RawUseTableType)>,
    i: int,
    map: Seq<(Seq<char>, Seq<DotsUseModel>)>,
) -> OutcomeModel<Seq<(Seq<char>, Seq<DotsUseModel>)>>
    decreases raw.len() - i,
{
    if i < 0 || i >= raw.len() {
        OutcomeModel::Ready(map)
    } else {
        match rules_written(w, raw[i].1) {
            OutcomeModel::Ready(rules) => use_map_written(
                w,
                raw,
                i + 1,
                if rules.len() > 0 {
                    map.push((raw[i].0@, rules))
                } else {
                    map
                },
            ),
            OutcomeModel::Need(q) => OutcomeModel::Need(q),
            OutcomeModel::Failed(e) => OutcomeModel::Failed(e),
        }
    }
}

/// Evaluates the rules as written from position 0 on and keeps those that apply.
fn keep_tables(known: &Knowledge, tables: &Vec<RawUseTable>) -> (r: Outcome<Vec<DotsUse>>)
    requires
        known.wf(),
    ensures
        r.model(|v: Vec<DotsUse>| rule_models(v@)) == tables_kept(
            known@,
            tables@,
            0,
            Seq::empty(),
        ),
        r matches Outcome::Ready(v) ==> rules_wf(v@),
{
    let mut kept: Vec<DotsUse> = Vec::new();
    let mut i: usize = 0;
    assert(rule_models(kept@) =~= Seq::<DotsUseModel>::empty());
    while i < tables.len()
        invariant
            i <= tables@.len(),
            known.wf(),
            rules_wf(kept@),
            tables_kept(known@, tables@, i as int, rule_models(kept@)) == tables_kept(
                known@,
                tables@,
                0,
                Seq::empty(),
            ),
        decreases tables@.len() - i,
    {
        match convert_raw_table_to_dots_use(known, &tables[i]) {
            Outcome::Ready(rule) => {
                if rule.when {
                    let ghost before = rule_models(kept@);
                    kept.push(rule);
                    assert(rule_models(kept@) =~= before.push(kept@[kept@.len() - 1]@));
                }
            },
            Outcome::Need(q) => {
                return Outcome::Need(q);
            },
            Outcome::Failed(e) => {
                return Outcome::Failed(e);
            },
        }
        i += 1;
    }
    Outcome::Ready(kept)
}

/// The rules that apply among those written for one source path.
pub fn written_rules(known: &Knowledge, value: &RawUseTableType) -> (r: Outcome<Vec<DotsUse>>)
    requires
        known.wf(),
    ensures
        r.model(|v: Vec<DotsUse>| rule_models(v@)) == rules_written(known@, *value),
        r matches Outcome::Ready(v) ==> rules_wf(v@),
{
    match value {
        RawUseTableType::Str(template) => {
            if template.as_str().unicode_len() == 0 {
                Outcome::Failed(ConfigError::EmptyTarget)
            } else {
                let mut target: Vec<(String, String)> = Vec::new();
                target.push((String::new(), template.clone()));
                assert(pair_texts(target@) =~= seq![(Seq::<char>::empty(), template@)]);
                let mut rules: Vec<DotsUse> = Vec::new();
                rules.push(
                    DotsUse {
                        when: true,
                        target: Some(target),
                        replace_map: StringMap::new(),
                        exclude: None,
                    },
                );
                assert(rule_models(rules@) =~= seq![rule_for_template(template@)]);
                Outcome::Ready(rules)
            }
        },
        RawUseTableType::Bool(b) => {
            let mut rules: Vec<DotsUse> = Vec::new();
            if *b {
                rules.push(
                    DotsUse {
                        when: true,
                        target: None,
                        replace_map: StringMap::new(),
                        exclude: None,
                    },
                );
                assert(rule_models(rules@) =~= seq![rule_for_yes()]);
            } else {
                assert(rule_models(rules@) =~= Seq::<DotsUseModel>::empty());
            }
            Outcome::Ready(rules)
        },
        RawUseTableType::Table(table) => match convert_raw_table_to_dots_use(known, table) {
            Outcome::Ready(rule) => {
                let mut rules: Vec<DotsUse> = Vec::new();
                if rule.when {
                    rules.push(rule);
                    assert(rule_models(rules@) =~= seq![rules@[0]@]);
                } else {
                    assert(rule_models(rules@) =~= Seq::<DotsUseModel>::empty());
                }
                Outcome::Ready(rules)
            },
            Outcome::Need(q) => Outcome::Need(q),
            Outcome::Failed(e) => Outcome::Failed(e),
        },
        RawUseTableType::Array(tables) => keep_tables(known, tables),
    }
}

/// The rules by source path from the rules as written: each source
/// path keeps the rules that apply, in order, and is left out where none
/// applies. Nothing written gives nothing.
pub fn dots_use_map(known: &Knowledge, raw: Option<&Vec<(String, RawUseTableType)>>) -> (r: Outcome<
    Option<Vec<(String, Vec<DotsUse>)>>,
>)
    requires
        known.wf(),
    ensures
        match raw {
            None => r matches Outcome::Ready(None),
            Some(written) => r.model(
                |o: Option<Vec<(String, Vec<DotsUse>)>>|
                    match o {
                        Some(m) => use_models(m@),
                        None => Seq::empty(),
                    },
            ) == use_map_written(known@, written@, 0, Seq::empty()) && !(r matches Outcome::Ready(
                None,
            )),
        },
        r matches Outcome::Ready(Some(m)) ==> use_map_wf(m@),
{
    let written = match raw {
        None => {
            return Outcome::Ready(None);
        },
        Some(written) => written,
    };
    let mut map: Vec<(String, Vec<DotsUse>)> = Vec::new();
    let mut i: usize = 0;
    assert(use_models(map@) =~= Seq::<(Seq<char>, Seq<DotsUseModel>)>::empty());
    while i < written.len()
        invariant
            i <= written@.len(),
            known.wf(),
            use_map_wf(map@),
            raw == Some(written),
            use_map_written(known@, written@, i as int, use_models(map@)) == use_map_written(
                known@,
                written@,
                0,
                Seq::empty(),
            ),
        decreases written@.len() - i,
    {
        match written_rules(known, &written[i].1) {
            Outcome::Ready(rules) => {
                if rules.len() > 0 {
                    let ghost before = use_models(map@);
                    let ghost kept = rule_models(rules@);
                    map.push((written[i].0.clone(), rules));
                    assert(use_models(map@) =~= before.push((written@[i as int].0@, kept)));
                }
            },
            Outcome::Need(q) => {
                return Outcome::Need(q);
            },
            Outcome::Failed(e) => {
                return Outcome::Failed(e);
            },
        }
        i += 1;
    }
    Outcome::Ready(Some(map))
}

impl Clone for DotsUse {
    fn clone(&self) -> (r: Self)
        ensures
            r@ == self@,
            self.replace_map.wf() ==> r.replace_map.wf(),
    {
        DotsUse {
            when: self.when,
            target: match &self.target {
                Some(t) => Some(copy_pairs(t)),
                None => None,
            },
            replace_map: self.replace_map.clone(),
            exclude: match &self.exclude {
                Some(e) => Some(copy_texts(e)),
                None => None,
            },
        }
    }
}

/// A copy of a list of rules.
pub fn copy_rules(rules: &Vec<DotsUse>) -> (r: Vec<DotsUse>)
    ensures
        rule_models(r@) == rule_models(rules@),
        rules_wf(rules@) ==> rules_wf(r@),
{
    let mut out: Vec<DotsUse> = Vec::new();
    let mut i: usize = 0;
    while i < rules.len()
        invariant
            i <= rules@.len(),
            out@.len() == i,
            forall|j: int| 0 <= j < i ==> (#[trigger] out@[j])@ == rules@[j]@,
            forall|j: int|
                0 <= j < i && rules@[j].replace_map.wf() ==> (#[trigger] out@[j]).replace_map.wf(),
        decreases rules@.len() - i,
    {
        out.push(rules[i].clone());
        i += 1;
    }
    assert(rule_models(out@) =~= rule_models(rules@));
    out
}

/// A copy of the rules by source path.
pub fn copy_use_map(map: &Vec<(String, Vec<DotsUse>)>) -> (r: Vec<(String, Vec<DotsUse>)>)
    ensures
        use_models(r@) == use_models(map@),
        use_map_wf(map@) ==> use_map_wf(r@),
{
    let mut out: Vec<(String, Vec<DotsUse>)> = Vec::new();
    let mut i: usize = 0;
    while i < map.len()
        invariant
            i <= map@.len(),
            out@.len() == i,
            forall|j: int|
                0 <= j < i ==> (#[trigger] out@[j]).0@ == map@[j].0@ && rule_models(out@[j].1@)
                    == rule_models(map@[j].1@),
            forall|j: int|
                0 <= j < i && rules_wf(map@[j].1@) ==> rules_wf((#[trigger] out@[j]).1@),
        decreases map@.len() - i,
    {
        out.push((map[i].0.clone(), copy_rules(&map[i].1)));
        i += 1;
    }
    assert(use_models(out@) =~= use_models(map@));
    out
}

/// Whether `text` is among `list`.
fn has_text(list: &Vec<String>, text: &str) -> (r: bool)
    ensures
        r == texts(list@).contains(text@),
{
    let mut i: usize = 0;
    while i < list.len()
        invariant
            i <= list@.len(),
            forall|j: int| 0 <= j < i ==> (#[trigger] texts(list@)[j]) != text@,
        decreases list@.len() - i,
    {
        if same_text(list[i].as_str(), text) {
            assert(texts(list@)[i as int] == text@);
            return true;
        }
        i += 1;
    }
    false
}

/// Whether `kind` is among `list`.
fn has_kind(list: &Vec<Inheritable>, kind: Inheritable) -> (r: bool)
    ensures
        r == list@.contains(kind),
{
    let mut i: usize = 0;
    while i < list.len()
        invariant
            i <= list@.len(),
            forall|j: int| 0 <= j < i ==> (#[trigger] list@[j]) != kind,
        decreases list@.len() - i,
    {
        if list[i] == kind {
            return true;
        }
        i += 1;
    }
    false
}

/// Adds to `own` the texts of `more` that are not in it yet.
fn merge_texts(own: &mut Vec<String>, more: &Vec<String>)
    ensures
        texts(final(own)@) == merged_texts(texts(old(own)@), texts(more@)),
{
    let ghost start = texts(own@);
    let mut i: usize = 0;
    assert(texts(more@).take(0) =~= Seq::<Seq<char>>::empty());
    while i < more.len()
        invariant
            i <= more@.len(),
            texts(own@) == merged_texts(start, texts(more@).take(i as int)),
        decreases more@.len() - i,
    {
        proof {
            let upto = texts(more@).take(i + 1);
            assert(upto.drop_last() =~= texts(more@).take(i as int));
            assert(upto.last() == more@[i as int]@);
        }
        if !has_text(own, more[i].as_str()) {
            let ghost before = texts(own@);
            own.push(more[i].clone());
            assert(texts(own@) =~= before.push(more@[i as int]@));
        }
        i += 1;
    }
    assert(texts(more@).take(i as int) =~= texts(more@));
}

/// Adds to `own` the kinds of `more` that are not in it yet.
fn merge_kinds(own: &mut Vec<Inheritable>, more: &Vec<Inheritable>)
    ensures
        final(own)@ == merged_kinds(old(own)@, more@),
{
    let ghost start = own@;
    let mut i: usize = 0;
    assert(more@.take(0) =~= Seq::<Inheritable>::empty());
    while i < more.len()
        invariant
            i <= more@.len(),
            own@ == merged_kinds(start, more@.take(i as int)),
        decreases more@.len() - i,
    {
        proof {
            let upto = more@.take(i + 1);
            assert(upto.drop_last() =~= more@.take(i as int));
            assert(upto.last() == more@[i as int]);
        }
        if !has_kind(own, more[i]) {
            own.push(more[i]);
        }
        i += 1;
    }
    assert(more@.take(i as int) =~= more@);
}

/// Whether some pair of `list` has the key `key`.
fn has_pair(list: &Vec<(String, String)>, key: &str) -> (r: bool)
    ensures
        r == keyed(pair_texts(list@), key@),
{
    let mut i: usize = 0;
    while i < list.len()
        invariant
            i <= list@.len(),
            forall|j: int| 0 <= j < i ==> (#[trigger] pair_texts(list@)[j]).0 != key@,
        decreases list@.len() - i,
    {
        if same_text(list[i].0.as_str(), key) {
            assert(pair_texts(list@)[i as int].0 == key@);
            return true;
        }
        i += 1;
    }
    false
}

/// Whether rules are there for the source path `key`.
fn has_rules(map: &Vec<(String, Vec<DotsUse>)>, key: &str) -> (r: bool)
    ensures
        r == keyed(use_models(map@), key@),
{
    let mut i: usize = 0;
    while i < map.len()
        invariant
            i <= map@.len(),
            forall|j: int| 0 <= j < i ==> (#[trigger] use_models(map@)[j]).0 != key@,
        decreases map@.len() - i,
    {
        if same_text(map[i].0.as_str(), key) {
            assert(use_models(map@)[i as int].0 == key@);
            return true;
        }
        i += 1;
    }
    false
}

/// Adds to `own` the pairs of `more` whose key is not there yet.
fn merge_pairs(own: &mut Vec<(String, String)>, more: &Vec<(String, String)>)
    ensures
        pair_texts(final(own)@) == merged_by_key(pair_texts(old(own)@), pair_texts(more@)),
{
    let ghost start = pair_texts(own@);
    let mut i: usize = 0;
    assert(pair_texts(more@).take(0) =~= Seq::<Pair>::empty());
    while i < more.len()
        invariant
            i <= more@.len(),
            pair_texts(own@) == merged_by_key(start, pair_texts(more@).take(i as int)),
        decreases more@.len() - i,
    {
        proof {
            let upto = pair_texts(more@).take(i + 1);
            assert(upto.drop_last() =~= pair_texts(more@).take(i as int));
            assert(upto.last() == (more@[i as int].0@, more@[i as int].1@));
        }
        if !has_pair(own, more[i].0.as_str()) {
            let ghost before = pair_texts(own@);
            own.push((more[i].0.clone(), more[i].1.clone()));
            assert(pair_texts(own@) =~= before.push((more@[i as int].0@, more@[i as int].1@)));
        }
        i += 1;
    }
    assert(pair_texts(more@).take(i as int) =~= pair_texts(more@));
}

/// Adds to `own` the rules of `more` for source paths that have none yet.
fn merge_use_map(own: &mut Vec<(String, Vec<DotsUse>)>, more: &Vec<(String, Vec<DotsUse>)>)
    ensures
        use_models(final(own)@) == merged_by_key(use_models(old(own)@), use_models(more@)),
        use_map_wf(old(own)@) && use_map_wf(more@) ==> use_map_wf(final(own)@),
{
    let ghost start = use_models(own@);
    let ghost sound = use_map_wf(own@) && use_map_wf(more@);
    let mut i: usize = 0;
    assert(use_models(more@).take(0) =~= Seq::<(Seq<char>, Seq<DotsUseModel>)>::empty());
    while i < more.len()
        invariant
            i <= more@.len(),
            sound ==> use_map_wf(own@) && use_map_wf(more@),
            use_models(own@) == merged_by_key(start, use_models(more@).take(i as int)),
        decreases more@.len() - i,
    {
        proof {
            let upto = use_models(more@).take(i + 1);
            assert(upto.drop_last() =~= use_models(more@).take(i as int));
            assert(upto.last() == (more@[i as int].0@, rule_models(more@[i as int].1@)));
        }
        if !has_rules(own, more[i].0.as_str()) {
            let ghost before = use_models(own@);
            let ghost held = own@;
            own.push((more[i].0.clone(), copy_rules(&more[i].1)));
            assert(use_models(own@) =~= before.push(
                (more@[i as int].0@, rule_models(more@[i as int].1@)),
            ));
            proof {
                if sound {
                    assert(rules_wf(more@[i as int].1@));
                    assert forall|k: int| 0 <= k < own@.len() implies rules_wf(
                        (#[trigger] own@[k]).1@,
                    ) by {
                        if k < held.len() {
                            assert(own@[k] == held[k]);
                        }
                    }
                }
            }
        }
        i += 1;
    }
    assert(use_models(more@).take(i as int) =~= use_models(more@));
}

/// The general part of a configuration, with its texts as character sequences.
pub struct GeneralConfigModel {
    pub inherits: Option<Seq<Seq<char>>>,
    pub strict: Option<bool>,
}

/// A dotfiles tree named in a configuration, with its texts as character sequences.
pub struct DotfileConfigModel {
    pub path: Seq<char>,
    pub replace: Option<bool>,
    pub use_config: bool,
    pub options: DotsOptionsModel,
}

/// The part of a configuration that is about dotfiles, with its texts
/// as character sequences.
pub struct DotsConfigModel {
    pub options: DotsOptionsModel,
}

/// A configuration, with its texts as character sequences.
pub struct ConfigModel {
    pub general: Option<GeneralConfigModel>,
    pub dots: Option<DotsConfigModel>,
    pub dotfiles: Option<Seq<DotfileConfigModel>>,
}

impl View for GeneralConfig {
    type V = GeneralConfigModel;

    open spec fn view(&self) -> GeneralConfigModel {
        GeneralConfigModel {
            inherits: match self.inherits {
                Some(i) => Some(texts(i@)),
                None => None,
            },
            strict: self.strict,
        }
    }
}

impl View for DotfileConfig {
    type V = DotfileConfigModel;

    open spec fn view(&self) -> DotfileConfigModel {
        DotfileConfigModel {
            path: self.path@,
            replace: self.replace,
            use_config: self.use_config,
            options: self.options@,
        }
    }
}

impl View for DotsConfig {
    type V = DotsConfigModel;

    open spec fn view(&self) -> DotsConfigModel {
        DotsConfigModel { options: self.options@ }
    }
}

/// The trees of a list, with their texts as character sequences.
pub open spec fn dotfile_models(list: Seq<DotfileConfig>) -> Seq<DotfileConfigModel> {
    Seq::new(list.len(), |i: int| list[i]@)
}

impl View for Config {
    type V = ConfigModel;

    open spec fn view(&self) -> ConfigModel {
        ConfigModel {
            general: match self.general {
                Some(g) => Some(g@),
                None => None,
            },
            dots: match self.dots {
                Some(d) => Some(d@),
                None => None,
            },
            dotfiles: match self.dotfiles {
                Some(l) => Some(dotfile_models(l@)),
                None => None,
            },
        }
    }
}

/// The general part `own` after it took over from `with`: what `with`
/// inherits is added to what `own` does, and `strict` is that of `with`.
pub open spec fn general_extended(
    own: GeneralConfigModel,
    with: Option<GeneralConfigModel>,
) -> GeneralConfigModel {
    match with {
        None => own,
        Some(w) => GeneralConfigModel {
            inherits: match own.inherits {
                None => w.inherits,
                Some(o) => Some(merged_texts(o, or_empty(w.inherits))),
            },
            strict: w.strict,
        },
    }
}

/// The options `own` handing down `more` besides what they hand down already.
pub open spec fn handing_down(
    own: DotsOptionsModel,
    more: Option<Seq<Inheritable>>,
) -> DotsOptionsModel {
    DotsOptionsModel { inherits: kinds_joined(own.inherits, more), ..own }
}

/// The tree `own` after it took over from `with`: it hands down what
/// `with` does besides what it did; nothing else changes.
pub open spec fn dotfile_extended(
    own: DotfileConfigModel,
    with: Option<DotfileConfigModel>,
) -> DotfileConfigModel {
    match with {
        None => own,
        Some(w) => DotfileConfigModel {
            options: handing_down(own.options, w.options.inherits),
            ..own
        },
    }
}

/// The dotfiles part `own` after it took over from `with`.
pub open spec fn dots_extended(own: DotsConfigModel, with: Option<DotsConfigModel>) -> DotsConfigModel {
    match with {
        None => own,
        Some(w) => DotsConfigModel { options: handing_down(own.options, w.options.inherits) },
    }
}

/// The configuration `own` after it took over from `with`: a part that
/// `own` lacks is that of `with`; a part that it has takes over from
/// that of `with`, and its trees are followed by those of `with`.
pub open spec fn config_extended(own: ConfigModel, with: Option<ConfigModel>) -> ConfigModel {
    match with {
        None => own,
        Some(w) => ConfigModel {
            general: match own.general {
                None => w.general,
                Some(g) => Some(general_extended(g, w.general)),
            },
            dots: match own.dots {
                None => w.dots,
                Some(d) => Some(dots_extended(d, w.dots)),
            },
            dotfiles: match own.dotfiles {
                None => w.dotfiles,
                Some(l) => Some(l + or_empty(w.dotfiles)),
            },
        },
    }
}

/// The targets `targets` with the pairs of source and destination of
/// `mapped` added, each as a destination with its source: a destination
/// that comes again gets the later source.
pub open spec fn targets_added(targets: Seq<Pair>, mapped: Seq<Pair>) -> Seq<Pair>
    decreases mapped.len(),
{
    if mapped.len() == 0 {
        targets
    } else {
        pairs_insert(targets_added(targets, mapped.drop_last()), mapped.last().1, mapped.last().0)
    }
}

/// The targets after the rules from position `i` on were evaluated for
/// the source path `use_path`, each adding its pairs to `targets`.
pub open spec fn rules_used(
    w: World,
    rules: Seq<DotsUseModel>,
    i: int,
    base: Seq<char>,
    use_path: Seq<char>,
    global_use_target: Option<Seq<Pair>>,
    global_exclude: Seq<Seq<char>>,
    targets: Seq<Pair>,
) -> OutcomeModel<Seq<Pair>>
    decreases rules.len() - i,
{
    if i < 0 || i >= rules.len() {
        OutcomeModel::Ready(targets)
    } else {
        match used(w, rules[i], base, use_path, global_use_target, global_exclude) {
            OutcomeModel::Ready(mapped) => rules_used(
                w,
                rules,
                i + 1,
                base,
                use_path,
                global_use_target,
                global_exclude,
                match mapped {
                    Some(m) => targets_added(targets, m),
                    None => targets,
                },
            ),
            OutcomeModel::Need(q) => OutcomeModel::Need(q),
            OutcomeModel::Failed(e) => OutcomeModel::Failed(e),
        }
    }
}

/// The targets after the rules of the source paths from position `k` on
/// were evaluated, in order.
pub open spec fn paths_used(
    w: World,
    map: Seq<(Seq<char>, Seq<DotsUseModel>)>,
    k: int,
    base: Seq<char>,
    global_use_target: Option<Seq<Pair>>,
    global_exclude: Seq<Seq<char>>,
    targets: Seq<Pair>,
) -> OutcomeModel<Seq<Pair>>
    decreases map.len() - k,
{
    if k < 0 || k >= map.len() {
        OutcomeModel::Ready(targets)
    } else {
        match rules_used(
            w,
            map[k].1,
            0,
            base,
            map[k].0,
            global_use_target,
            global_exclude,
            targets,
        ) {
            OutcomeModel::Ready(more) => paths_used(
                w,
                map,
                k + 1,
                base,
                global_use_target,
                global_exclude,
                more,
            ),
            OutcomeModel::Need(q) => OutcomeModel::Need(q),
            OutcomeModel::Failed(e) => OutcomeModel::Failed(e),
        }
    }
}

/// The targets that the options come to below `base`: pairs of a
/// destination and its source, in the order in which the destinations
/// first came; where two rules map to one destination the later rule wins.
pub open spec fn targeted(w: World, options: DotsOptionsModel, base: Seq<char>) -> OutcomeModel<
    Seq<Pair>,
> {
    paths_used(
        w,
        or_empty(options.use_map),
        0,
        base,
        options.use_target,
        or_empty(options.exclude),
        Seq::empty(),
    )
}

/// Adds to `targets` the pairs of source and destination of `mapped`,
/// each as a destination with its source.
pub fn add_targets(targets: &mut StringMap, mapped: &StringMap)
    requires
        old(targets).wf(),
    ensures
        final(targets).wf(),
        final(targets).pairs() == targets_added(old(targets).pairs(), mapped.pairs()),
{
    let ghost start = targets.pairs();
    let n = mapped.count();
    let mut i: usize = 0;
    assert(mapped.pairs().take(0) =~= Seq::<Pair>::empty());
    while i < n
        invariant
            i <= n,
            n == mapped.pairs().len(),
            targets.wf(),
            targets.pairs() == targets_added(start, mapped.pairs().take(i as int)),
        decreases n - i,
    {
        proof {
            let upto = mapped.pairs().take(i + 1);
            assert(upto.drop_last() =~= mapped.pairs().take(i as int));
            assert(upto.last() == mapped.pairs()[i as int]);
        }
        targets.insert(mapped.value_at(i).clone(), mapped.key_at(i).clone());
        i += 1;
    }
    assert(mapped.pairs().take(i as int) =~= mapped.pairs());
}

/// Evaluates the rules of one source path and adds their pairs to `targets`.
fn use_rules(
    known: &Knowledge,
    rules: &Vec<DotsUse>,
    base_path: &str,
    use_path: &str,
    global_use_target: Option<&Vec<(String, String)>>,
    global_exclude: Option<&Vec<String>>,
    given: StringMap,
) -> (r: Outcome<StringMap>)
    requires
        known.wf(),
        rules_wf(rules@),
        given.wf(),
    ensures
        r.model(|m: StringMap| m.pairs()) == rules_used(
            known@,
            rule_models(rules@),
            0,
            base_path@,
            use_path@,
            match global_use_target {
                Some(t) => Some(pair_texts(t@)),
                None => None,
            },
            list_texts(global_exclude),
            given.pairs(),
        ),
        r matches Outcome::Ready(m) ==> m.wf(),
{
    let ghost start = given.pairs();
    let mut targets = given;
    let ghost gt = match global_use_target {
        Some(t) => Some(pair_texts(t@)),
        None => None,
    };
    let mut i: usize = 0;
    while i < rules.len()
        invariant
            i <= rules@.len(),
            known.wf(),
            rules_wf(rules@),
            targets.wf(),
            start == given.pairs(),
            gt == match global_use_target {
                Some(t) => Some(pair_texts(t@)),
                None => None,
            },
            rules_used(
                known@,
                rule_models(rules@),
                i as int,
                base_path@,
                use_path@,
                gt,
                list_texts(global_exclude),
                targets.pairs(),
            ) == rules_used(
                known@,
                rule_models(rules@),
                0,
                base_path@,
                use_path@,
                gt,
                list_texts(global_exclude),
                start,
            ),
        decreases rules@.len() - i,
    {
        assert(rules@[i as int].replace_map.wf());
        match rules[i].try_use(known, base_path, use_path, global_use_target, global_exclude) {
            Outcome::Ready(Some(mapped)) => {
                add_targets(&mut targets, &mapped);
            },
            Outcome::Ready(None) => {},
            Outcome::Need(q) => {
                return Outcome::Need(q);
            },
            Outcome::Failed(e) => {
                return Outcome::Failed(e);
            },
        }
        i += 1;
    }
    Outcome::Ready(targets)
}

impl GeneralConfig {
    /// Takes over from `with`, where there is one.
    pub fn extend(&mut self, with: Option<GeneralConfig>)
        ensures
            final(self)@ == general_extended(
                old(self)@,
                match with {
                    Some(w) => Some(w@),
                    None => None,
                },
            ),
    {
        match with {
            None => {},
            Some(w) => {
                self.strict = w.strict;
                let mut mine: Option<Vec<String>> = None;
                std::mem::swap(&mut self.inherits, &mut mine);
                match mine {
                    None => {
                        self.inherits = w.inherits;
                    },
                    Some(mut own) => {
                        match &w.inherits {
                            Some(more) => {
                                merge_texts(&mut own, more);
                            },
                            None => {},
                        }
                        self.inherits = Some(own);
                    },
                }
            },
        }
    }
}

impl DotsOptions {
    /// Options with no part set.
    pub fn new() -> (r: Self)
        ensures
            r.use_map is None,
            r.use_target is None,
            r.exclude is None,
            r.inherits is None,
    {
        DotsOptions { use_map: None, use_target: None, exclude: None, inherits: None }
    }

    /// Takes over from `from` the parts that `from` hands down.
    pub fn inherit(&mut self, from: &DotsOptions)
        ensures
            final(self)@ == inherited(old(self)@, from@),
            old(self).wf() && from.wf() ==> final(self).wf(),
    {
        let kinds = match &from.inherits {
            None => {
                return ;
            },
            Some(kinds) => kinds,
        };
        if has_kind(kinds, Inheritable::Use) {
            let mut mine: Option<Vec<(String, Vec<DotsUse>)>> = None;
            std::mem::swap(&mut self.use_map, &mut mine);
            match mine {
                None => {
                    self.use_map = match &from.use_map {
                        Some(m) => Some(copy_use_map(m)),
                        None => None,
                    };
                },
                Some(mut own) => {
                    match &from.use_map {
                        Some(more) => {
                            merge_use_map(&mut own, more);
                        },
                        None => {},
                    }
                    self.use_map = Some(own);
                },
            }
        }
        if has_kind(kinds, Inheritable::UseTarget) {
            let mut mine: Option<Vec<(String, String)>> = None;
            std::mem::swap(&mut self.use_target, &mut mine);
            match mine {
                None => {
                    self.use_target = match &from.use_target {
                        Some(t) => Some(copy_pairs(t)),
                        None => None,
                    };
                },
                Some(mut own) => {
                    match &from.use_target {
                        Some(more) => {
                            merge_pairs(&mut own, more);
                        },
                        None => {},
                    }
                    self.use_target = Some(own);
                },
            }
        }
        if has_kind(kinds, Inheritable::Exclude) {
            let mut mine: Option<Vec<String>> = None;
            std::mem::swap(&mut self.exclude, &mut mine);
            match mine {
                None => {
                    self.exclude = match &from.exclude {
                        Some(e) => Some(copy_texts(e)),
                        None => None,
                    };
                },
                Some(mut own) => {
                    match &from.exclude {
                        Some(more) => {
                            let ghost before = texts(own@);
                            let mut copy = copy_texts(more);
                            own.append(&mut copy);
                            assert(texts(own@) =~= before + texts(more@));
                        },
                        None => {
                            assert(texts(own@) =~= texts(own@) + Seq::<Seq<char>>::empty());
                        },
                    }
                    self.exclude = Some(own);
                },
            }
        }
    }

    /// Whether the variables of each rule form a well-formed map.
    pub open spec fn wf(&self) -> bool {
        self.use_map matches Some(m) ==> use_map_wf(m@)
    }

    /// The targets that the options come to below `base_path`, from what
    /// is known: each rule of each source path is evaluated in order,
    /// and its pairs are added as destinations with their sources.
    pub fn targets(&self, known: &Knowledge, base_path: &str) -> (r: Outcome<StringMap>)
        requires
            known.wf(),
            self.wf(),
        ensures
            r.model(|m: StringMap| m.pairs()) == targeted(known@, self@, base_path@),
            r matches Outcome::Ready(m) ==> m.wf(),
    {
        let mut targets = StringMap::new();
        let map = match &self.use_map {
            Some(map) => map,
            None => {
                return Outcome::Ready(targets);
            },
        };
        let global_use_target = match &self.use_target {
            Some(t) => Some(t),
            None => None,
        };
        let global_exclude = match &self.exclude {
            Some(e) => Some(e),
            None => None,
        };
        let ghost gt = self@.use_target;
        let ghost ge = or_empty(self@.exclude);
        let mut k: usize = 0;
        while k < map.len()
            invariant
                k <= map@.len(),
                known.wf(),
                use_map_wf(map@),
                targets.wf(),
                self.use_map == Some(*map),
                gt == self@.use_target,
                ge == or_empty(self@.exclude),
                gt == match global_use_target {
                    Some(t) => Some(pair_texts(t@)),
                    None => None,
                },
                ge == list_texts(global_exclude),
                paths_used(
                    known@,
                    use_models(map@),
                    k as int,
                    base_path@,
                    gt,
                    ge,
                    targets.pairs(),
                ) == paths_used(known@, use_models(map@), 0, base_path@, gt, ge, Seq::empty()),
            decreases map@.len() - k,
        {
            assert(rules_wf(map@[k as int].1@));
            match use_rules(
                known,
                &map[k].1,
                base_path,
                map[k].0.as_str(),
                global_use_target,
                global_exclude,
                targets,
            ) {
                Outcome::Ready(more) => {
                    targets = more;
                },
                Outcome::Need(q) => {
                    return Outcome::Need(q);
                },
                Outcome::Failed(e) => {
                    return Outcome::Failed(e);
                },
            }
            k += 1;
        }
        Outcome::Ready(targets)
    }

    /// Adds to what `self` hands down what `more` lists.
    pub fn hand_down(&mut self, more: Option<Vec<Inheritable>>)
        ensures
            final(self)@ == handing_down(
                old(self)@,
                match more {
                    Some(m) => Some(m@),
                    None => None,
                },
            ),
    {
        let mut mine: Option<Vec<Inheritable>> = None;
        std::mem::swap(&mut self.inherits, &mut mine);
        match mine {
            None => {
                self.inherits = more;
            },
            Some(mut own) => {
                match &more {
                    Some(m) => {
                        merge_kinds(&mut own, m);
                    },
                    None => {},
                }
                self.inherits = Some(own);
            },
        }
    }
}

impl DotfileConfig {
    /// Takes over from `with`, where there is one.
    pub fn extend(&mut self, with: Option<DotfileConfig>)
        ensures
            final(self)@ == dotfile_extended(
                old(self)@,
                match with {
                    Some(w) => Some(w@),
                    None => None,
                },
            ),
    {
        match with {
            None => {},
            Some(w) => {
                self.options.hand_down(w.options.inherits);
            },
        }
    }
}

impl DotsConfig {
    /// Takes over from `with`, where there is one.
    pub fn extend(&mut self, with: Option<DotsConfig>)
        ensures
            final(self)@ == dots_extended(
                old(self)@,
                match with {
                    Some(w) => Some(w@),
                    None => None,
                },
            ),
    {
        match with {
            None => {},
            Some(w) => {
                self.options.hand_down(w.options.inherits);
            },
        }
    }
}

impl Config {
    /// A configuration with no part set.
    pub fn new() -> (r: Self)
        ensures
            r.general is None,
            r.dots is None,
            r.dotfiles is None,
    {
        Config { general: None, dots: None, dotfiles: None }
    }

    /// Takes over from `with`, where there is one.
    pub fn extend(&mut self, with: Option<Config>)
        ensures
            final(self)@ == config_extended(
                old(self)@,
                match with {
                    Some(w) => Some(w@),
                    None => None,
                },
            ),
    {
        match with {
            None => {},
            Some(w) => {
                let mut general: Option<GeneralConfig> = None;
                std::mem::swap(&mut self.general, &mut general);
                match general {
                    None => {
                        self.general = w.general;
                    },
                    Some(mut g) => {
                        g.extend(w.general);
                        self.general = Some(g);
                    },
                }
                let mut dots: Option<DotsConfig> = None;
                std::mem::swap(&mut self.dots, &mut dots);
                match dots {
                    None => {
                        self.dots = w.dots;
                    },
                    Some(mut d) => {
                        d.extend(w.dots);
                        self.dots = Some(d);
                    },
                }
                let mut dotfiles: Option<Vec<DotfileConfig>> = None;
                std::mem::swap(&mut self.dotfiles, &mut dotfiles);
                match dotfiles {
                    None => {
                        self.dotfiles = w.dotfiles;
                    },
                    Some(mut list) => {
                        let ghost before = dotfile_models(list@);
                        match w.dotfiles {
                            Some(mut more) => {
                                let ghost added = dotfile_models(more@);
                                list.append(&mut more);
                                assert(dotfile_models(list@) =~= before + added);
                            },
                            None => {
                                assert(dotfile_models(list@) =~= before + Seq::<
                                    DotfileConfigModel,
                                >::empty());
                            },
                        }
                        self.dotfiles = Some(list);
                    },
                }
            },
        }
    }
}

} // verus!
