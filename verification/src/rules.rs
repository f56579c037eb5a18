//! Evaluating a `use` rule of the configuration into pairs of source and destination.
//!
//! A rule binds variables, may be guarded by conditions, and maps
//! suffixes below its source path to destination templates. Its values
//! and conditions may come from the shell, and its templates are
//! resolved against the filesystem; both are had from a `Knowledge`, as
//! in `resolve`.

use vstd::prelude::*;
use vstd::string::*;

use crate::knowledge::{Env, Knowledge, Query, QueryModel, World};
use crate::paths::{begins_with, join, joined, starts_with};
use crate::resolve::{
    found_models, found_wf, resolve_path, resolved_path, ConfigError, ConfigErrorModel, Found,
    Outcome, OutcomeModel,
};
use crate::shell::{
    bool_of, echo, echo_line, run_for_bool, test_command, test_command_line, test_if,
    test_if_line,
};
use crate::strmap::{pairs_insert, pairs_map, Pair, StringMap};
use crate::text::{texts, trim, trimmed};
use crate::trackfile::pair_texts;

verus! {

/// The conditions of a rule, each a shell matter; one that is absent holds.
#[derive(Debug, Clone, PartialEq, Eq)]
pub struct DotsUseWhen {
    /// A command that prints yes or no.
    pub shell: Option<String>,
    /// A test of `[`.
    pub test_if: Option<String>,
    /// The name of a program that must be there to run.
    pub test_command: Option<String>,
}

/// The sources for the value of a variable. Exactly one must be given.
#[derive(Debug, Clone, PartialEq, Eq)]
pub struct DotsUseVar {
    /// A command whose output is the value.
    pub shell: Option<String>,
    /// An expression that the shell expands to the value.
    pub env: Option<String>,
    /// The value itself.
    pub value: Option<String>,
}

/// The guard of a rule as written: yes or no, or conditions.
#[derive(Debug, Clone, PartialEq, Eq)]
pub enum RawUseWhenType {
    Bool(bool),
    Table(DotsUseWhen),
}

/// The targets of a rule as written: one destination template for the
/// source path itself, or destination templates by suffix.
#[derive(Debug, Clone, PartialEq, Eq)]
pub enum RawUseTargetType {
    Str(String),
    Table(Vec<(String, String)>),
}

/// The exclusions of a rule as written: one template or several.
#[derive(Debug, Clone, PartialEq, Eq)]
pub enum RawExcludeType {
    Str(String),
    Vec(Vec<String>),
}

/// The value of a variable as written: a text, which the shell expands
/// where it begins with `$` or `~`, or sources.
#[derive(Debug, Clone, PartialEq, Eq)]
pub enum RawUseVarType {
    Str(String),
    Table(DotsUseVar),
}

/// A rule as written.
#[derive(Debug, Clone, PartialEq, Eq)]
pub struct RawUseTable {
    /// The guard; a rule without one applies.
    pub when: Option<RawUseWhenType>,
    /// The targets.
    pub target: Option<RawUseTargetType>,
    /// The exclusions.
    pub exclude: Option<RawExcludeType>,
    /// The variables, each with its value as written.
    pub vars: Vec<(String, RawUseVarType)>,
}

/// A rule with its guard evaluated and its variables bound.
#[derive(Debug, PartialEq, Eq)]
pub struct DotsUse {
    /// Whether the rule applies.
    pub when: bool,
    /// Pairs of a suffix below the source path and the destination template for it.
    pub target: Option<Vec<(String, String)>>,
    /// The variables with their values.
    pub replace_map: StringMap,
    /// Templates of sources to leave out.
    pub exclude: Option<Vec<String>>,
}

/// A rule, with its texts as character sequences.
pub struct DotsUseModel {
    pub when: bool,
    pub target: Option<Seq<Pair>>,
    pub replace_map: Seq<Pair>,
    pub exclude: Option<Seq<Seq<char>>>,
}

impl View for DotsUse {
    type V = DotsUseModel;

    open spec fn view(&self) -> DotsUseModel {
        DotsUseModel {
            when: self.when,
            target: match self.target {
                Some(t) => Some(pair_texts(t@)),
                None => None,
            },
            replace_map: self.replace_map.pairs(),
            exclude: match self.exclude {
                Some(e) => Some(texts(e@)),
                None => None,
            },
        }
    }
}

/// What the shell printed for `command` in `env`, without the blanks
/// around it. The command must be run where its output is not known, and
/// a command that could not be run is an error.
pub open spec fn shell_said(w: World, command: Seq<char>, env: Env) -> OutcomeModel<Seq<char>> {
    if !w.outputs.contains_key((command, env)) {
        OutcomeModel::Need(QueryModel::Shell { command, env })
    } else {
        match w.outputs[(command, env)] {
            Ok(output) => OutcomeModel::Ready(trimmed(output)),
            Err(message) => OutcomeModel::Failed(ConfigErrorModel::Shell { command, message }),
        }
    }
}

/// What the shell said for `command` in `env`, read as yes or no.
pub open spec fn shell_held(w: World, command: Seq<char>, env: Env) -> OutcomeModel<bool> {
    match shell_said(w, command, env) {
        OutcomeModel::Ready(output) => match bool_of(output) {
            Some(b) => OutcomeModel::Ready(b),
            None => OutcomeModel::Failed(
                ConfigErrorModel::NotBool { command, output: trimmed(output) },
            ),
        },
        OutcomeModel::Need(q) => OutcomeModel::Need(q),
        OutcomeModel::Failed(e) => OutcomeModel::Failed(e),
    }
}

/// Whether a condition holds: one that is absent does; one that is
/// present holds as the shell says for its command line.
pub open spec fn condition_held(w: World, command: Option<Seq<char>>, env: Env) -> OutcomeModel<
    bool,
> {
    match command {
        None => OutcomeModel::Ready(true),
        Some(c) => shell_held(w, c, env),
    }
}

/// Whether the conditions hold: all three are evaluated, in the order
/// `shell`, `test_if`, `test_command`, and they hold where each does.
pub open spec fn conditions_held(w: World, when: DotsUseWhen, env: Env) -> OutcomeModel<bool> {
    let shell = condition_held(
        w,
        match when.shell {
            Some(s) => Some(s@),
            None => None,
        },
        env,
    );
    let test = condition_held(
        w,
        match when.test_if {
            Some(s) => Some(test_if_line(s@)),
            None => None,
        },
        env,
    );
    let command = condition_held(
        w,
        match when.test_command {
            Some(s) => Some(test_command_line(s@)),
            None => None,
        },
        env,
    );
    match shell {
        OutcomeModel::Ready(a) => match test {
            OutcomeModel::Ready(b) => match command {
                OutcomeModel::Ready(c) => OutcomeModel::Ready(a && b && c),
                other => other,
            },
            other => other,
        },
        other => other,
    }
}

/// How many sources are given for the value of a variable.
pub open spec fn sources_given(var: DotsUseVar) -> nat {
    (if var.shell is Some { 1nat } else { 0 }) + (if var.env is Some { 1nat } else { 0 }) + (
    if var.value is Some { 1nat } else { 0 })
}

/// The value of the variable `key` from its sources: an error where none
/// or more than one is given; else the value itself, what the shell
/// expands the expression to, or what the command prints.
pub open spec fn value_given(w: World, var: DotsUseVar, key: Seq<char>) -> OutcomeModel<Seq<char>> {
    if sources_given(var) > 1 {
        OutcomeModel::Failed(ConfigErrorModel::MultipleFields(key))
    } else if var.value is Some {
        OutcomeModel::Ready(var.value->0@)
    } else if var.env is Some {
        shell_said(w, echo_line(var.env->0@), Map::empty())
    } else if var.shell is Some {
        shell_said(w, var.shell->0@, Map::empty())
    } else {
        OutcomeModel::Failed(ConfigErrorModel::NoValue(key))
    }
}

/// Whether the shell is to expand a text: it begins with `$` or `~`.
pub open spec fn expands(text: Seq<char>) -> bool {
    text.len() > 0 && (text[0] == '$' || text[0] == '~')
}

/// The value of the variable `key` as written.
pub open spec fn value_written(w: World, var: RawUseVarType, key: Seq<char>) -> OutcomeModel<
    Seq<char>,
> {
    match var {
        RawUseVarType::Str(s) => if expands(s@) {
            shell_said(w, echo_line(s@), Map::empty())
        } else {
            OutcomeModel::Ready(s@)
        },
        RawUseVarType::Table(sources) => value_given(w, sources, key),
    }
}

/// The variables of `vars` from position `i` on, bound one after the
/// other in `bound`.
pub open spec fn vars_bound(
    w: World,
    vars: Seq<(String, RawUseVarType)>,
    i: int,
    bound: Seq<Pair>,
) -> OutcomeModel<Seq<Pair>>
    decreases vars.len() - i,
{
    if i < 0 || i >= vars.len() {
        OutcomeModel::Ready(bound)
    } else {
        match value_written(w, vars[i].1, vars[i].0@) {
            OutcomeModel::Ready(value) => vars_bound(
                w,
                vars,
                i + 1,
                pairs_insert(bound, vars[i].0@, value),
            ),
            OutcomeModel::Need(q) => OutcomeModel::Need(q),
            OutcomeModel::Failed(e) => OutcomeModel::Failed(e),
        }
    }
}

/// Whether the guard holds in `env`: a rule without a guard applies.
pub open spec fn guard_held(w: World, when: Option<RawUseWhenType>, env: Env) -> OutcomeModel<bool> {
    match when {
        None => OutcomeModel::Ready(true),
        Some(RawUseWhenType::Bool(b)) => OutcomeModel::Ready(b),
        Some(RawUseWhenType::Table(conditions)) => conditions_held(w, conditions, env),
    }
}

/// The targets as pairs of suffix and destination template: a single
/// destination template is for the empty suffix.
pub open spec fn targets_written(target: Option<RawUseTargetType>) -> Option<Seq<Pair>> {
    match target {
        None => None,
        Some(RawUseTargetType::Str(s)) => Some(seq![(Seq::empty(), s@)]),
        Some(RawUseTargetType::Table(pairs)) => Some(pair_texts(pairs@)),
    }
}

/// The exclusions as a list of templates.
pub open spec fn excludes_written(exclude: Option<RawExcludeType>) -> Option<Seq<Seq<char>>> {
    match exclude {
        None => None,
        Some(RawExcludeType::Str(s)) => Some(seq![s@]),
        Some(RawExcludeType::Vec(v)) => Some(texts(v@)),
    }
}

/// The rule that `raw` comes to: its variables are bound first, and its
/// guard is then evaluated in their environment.
pub open spec fn converted(w: World, raw: RawUseTable) -> OutcomeModel<DotsUseModel> {
    match vars_bound(w, raw.vars@, 0, Seq::empty()) {
        OutcomeModel::Ready(bound) => match guard_held(w, raw.when, pairs_map(bound)) {
            OutcomeModel::Ready(when) => OutcomeModel::Ready(
                DotsUseModel {
                    when,
                    target: targets_written(raw.target),
                    replace_map: bound,
                    exclude: excludes_written(raw.exclude),
                },
            ),
            OutcomeModel::Need(q) => OutcomeModel::Need(q),
            OutcomeModel::Failed(e) => OutcomeModel::Failed(e),
        },
        OutcomeModel::Need(q) => OutcomeModel::Need(q),
        OutcomeModel::Failed(e) => OutcomeModel::Failed(e),
    }
}

/// Whether `path` begins with one of the paths found.
pub open spec fn under_any(found: Seq<Found>, path: Seq<char>) -> bool {
    exists|i: int| 0 <= i < found.len() && begins_with(path, (#[trigger] found[i]).0)
}

/// Whether the source `source` is left out by one of the exclusion
/// templates from position `k` on: a template leaves it out where the
/// source begins with a path that the template resolves to in the
/// source's environment.
pub open spec fn excluded(
    w: World,
    base: Seq<char>,
    source: Found,
    excludes: Seq<Seq<char>>,
    k: int,
) -> OutcomeModel<bool>
    decreases excludes.len() - k,
{
    if k < 0 || k >= excludes.len() {
        OutcomeModel::Ready(false)
    } else {
        match resolved_path(w, base, excludes[k], source.1) {
            OutcomeModel::Ready(found) => if under_any(found, source.0) {
                OutcomeModel::Ready(true)
            } else {
                excluded(w, base, source, excludes, k + 1)
            },
            OutcomeModel::Need(q) => OutcomeModel::Need(q),
            OutcomeModel::Failed(e) => OutcomeModel::Failed(e),
        }
    }
}

/// The pairs of source and destination for the sources from position `j`
/// on, added to `mapped`. A source that is left out adds nothing; any
/// other must have its destination template resolve to exactly one path
/// in its environment.
pub open spec fn sources_mapped(
    w: World,
    base: Seq<char>,
    sources: Seq<Found>,
    j: int,
    template: Seq<char>,
    excludes: Seq<Seq<char>>,
    mapped: Seq<Pair>,
) -> OutcomeModel<Seq<Pair>>
    decreases sources.len() - j,
{
    if j < 0 || j >= sources.len() {
        OutcomeModel::Ready(mapped)
    } else {
        match excluded(w, base, sources[j], excludes, 0) {
            OutcomeModel::Ready(true) => sources_mapped(
                w,
                base,
                sources,
                j + 1,
                template,
                excludes,
                mapped,
            ),
            OutcomeModel::Ready(false) => match resolved_path(w, base, template, sources[j].1) {
                OutcomeModel::Ready(found) => if found.len() == 1 {
                    sources_mapped(
                        w,
                        base,
                        sources,
                        j + 1,
                        template,
                        excludes,
                        pairs_insert(mapped, sources[j].0, found[0].0),
                    )
                } else {
                    OutcomeModel::Failed(
                        ConfigErrorModel::Destination { template, found: found.len() },
                    )
                },
                OutcomeModel::Need(q) => OutcomeModel::Need(q),
                OutcomeModel::Failed(e) => OutcomeModel::Failed(e),
            },
            OutcomeModel::Need(q) => OutcomeModel::Need(q),
            OutcomeModel::Failed(e) => OutcomeModel::Failed(e),
        }
    }
}

/// The pairs of source and destination for the targets from position `i`
/// on, added to `mapped`: the sources of a target are what its suffix
/// below `use_path` resolves to in `env`.
pub open spec fn targets_mapped(
    w: World,
    base: Seq<char>,
    use_path: Seq<char>,
    env: Env,
    targets: Seq<Pair>,
    i: int,
    excludes: Seq<Seq<char>>,
    mapped: Seq<Pair>,
) -> OutcomeModel<Seq<Pair>>
    decreases targets.len() - i,
{
    if i < 0 || i >= targets.len() {
        OutcomeModel::Ready(mapped)
    } else {
        match resolved_path(w, base, joined(use_path, targets[i].0), env) {
            OutcomeModel::Ready(sources) => match sources_mapped(
                w,
                base,
                sources,
                0,
                targets[i].1,
                excludes,
                mapped,
            ) {
                OutcomeModel::Ready(more) => targets_mapped(
                    w,
                    base,
                    use_path,
                    env,
                    targets,
                    i + 1,
                    excludes,
                    more,
                ),
                other => other,
            },
            OutcomeModel::Need(q) => OutcomeModel::Need(q),
            OutcomeModel::Failed(e) => OutcomeModel::Failed(e),
        }
    }
}

/// The pairs of a map, where there is one.
pub open spec fn pairs_of(o: Option<StringMap>) -> Option<Seq<Pair>> {
    match o {
        Some(m) => Some(m.pairs()),
        None => None,
    }
}

/// The texts of an optional list of strings; none for no list.
pub open spec fn list_texts(list: Option<&Vec<String>>) -> Seq<Seq<char>> {
    match list {
        Some(v) => texts(v@),
        None => Seq::empty(),
    }
}

/// What a rule comes to for the source path `use_path` below `base`: the
/// pairs of source and destination, or nothing where the rule does not
/// apply. The rule's own targets go before the global ones; the global
/// exclusions are tried before the rule's own.
pub open spec fn used(
    w: World,
    rule: DotsUseModel,
    base: Seq<char>,
    use_path: Seq<char>,
    global_use_target: Option<Seq<Pair>>,
    global_exclude: Seq<Seq<char>>,
) -> OutcomeModel<Option<Seq<Pair>>> {
    let targets = if rule.target is Some {
        rule.target
    } else {
        global_use_target
    };
    let excludes = global_exclude + match rule.exclude {
        Some(e) => e,
        None => Seq::empty(),
    };
    if !rule.when {
        OutcomeModel::Ready(None)
    } else if targets is None {
        OutcomeModel::Failed(ConfigErrorModel::NoTargets)
    } else {
        some_mapped(
            targets_mapped(
                w,
                base,
                use_path,
                pairs_map(rule.replace_map),
                targets->0,
                0,
                excludes,
                Seq::empty(),
            ),
        )
    }
}

/// The pairs of a rule that applies.
pub open spec fn some_mapped(mapped: OutcomeModel<Seq<Pair>>) -> OutcomeModel<Option<Seq<Pair>>> {
    match mapped {
        OutcomeModel::Ready(m) => OutcomeModel::Ready(Some(m)),
        OutcomeModel::Need(q) => OutcomeModel::Need(q),
        OutcomeModel::Failed(e) => OutcomeModel::Failed(e),
    }
}

/// What the shell printed for `command` in `env`, without the blanks around it.
pub fn shell_output(known: &Knowledge, command: String, env: &StringMap) -> (r: Outcome<String>)
    requires
        known.wf(),
        env.wf(),
    ensures
        r.model(|s: String| s@) == shell_said(known@, command@, env@),
{
    match known.output(command.as_str(), env) {
        None => Outcome::Need(Query::Shell { command, env: env.clone() }),
        Some(Ok(output)) => Outcome::Ready(trim(output.as_str())),
        Some(Err(message)) => Outcome::Failed(
            ConfigError::Shell { command, message: message.clone() },
        ),
    }
}

/// What the shell said for `command` in `env`, read as yes or no.
pub fn shell_bool(known: &Knowledge, command: String, env: &StringMap) -> (r: Outcome<bool>)
    requires
        known.wf(),
        env.wf(),
    ensures
        r.model(|b: bool| b) == shell_held(known@, command@, env@),
{
    let copy = command.clone();
    match shell_output(known, command, env) {
        Outcome::Ready(output) => match run_for_bool(output.as_str()) {
            Ok(b) => Outcome::Ready(b),
            Err(e) => Outcome::Failed(ConfigError::NotBool { command: copy, output: e.output }),
        },
        Outcome::Need(q) => Outcome::Need(q),
        Outcome::Failed(e) => Outcome::Failed(e),
    }
}

/// Whether a condition holds; an absent one does.
fn condition(known: &Knowledge, command: Option<String>, env: &StringMap) -> (r: Outcome<bool>)
    requires
        known.wf(),
        env.wf(),
    ensures
        r.model(|b: bool| b) == condition_held(
            known@,
            match command {
                Some(c) => Some(c@),
                None => None,
            },
            env@,
        ),
{
    match command {
        None => Outcome::Ready(true),
        Some(c) => shell_bool(known, c, env),
    }
}

impl DotsUseWhen {
    /// Whether the conditions hold, with the variables of `env` in the
    /// shell's environment. All conditions are evaluated.
    pub fn try_is_true(&self, known: &Knowledge, env: &StringMap) -> (r: Outcome<bool>)
        requires
            known.wf(),
            env.wf(),
        ensures
            r.model(|b: bool| b) == conditions_held(known@, *self, env@),
    {
        let shell = condition(
            known,
            match &self.shell {
                Some(s) => Some(s.clone()),
                None => None,
            },
            env,
        );
        let test = condition(
            known,
            match &self.test_if {
                Some(s) => Some(test_if(s.as_str())),
                None => None,
            },
            env,
        );
        let command = condition(
            known,
            match &self.test_command {
                Some(s) => Some(test_command(s.as_str())),
                None => None,
            },
            env,
        );
        match shell {
            Outcome::Ready(a) => match test {
                Outcome::Ready(b) => match command {
                    Outcome::Ready(c) => Outcome::Ready(a && b && c),
                    other => other,
                },
                other => other,
            },
            other => other,
        }
    }
}

impl DotsUseVar {
    /// The value of the variable `key` from its sources.
    pub fn try_get_value(&self, known: &Knowledge, key: &str) -> (r: Outcome<String>)
        requires
            known.wf(),
        ensures
            r.model(|s: String| s@) == value_given(known@, *self, key@),
    {
        let mut given: u8 = 0;
        if self.shell.is_some() {
            given += 1;
        }
        if self.env.is_some() {
            given += 1;
        }
        if self.value.is_some() {
            given += 1;
        }
        let none = StringMap::new();
        if given > 1 {
            Outcome::Failed(ConfigError::MultipleFields(key.to_owned()))
        } else if let Some(v) = &self.value {
            Outcome::Ready(v.clone())
        } else if let Some(e) = &self.env {
            shell_output(known, echo(e.as_str()), &none)
        } else if let Some(s) = &self.shell {
            shell_output(known, s.clone(), &none)
        } else {
            Outcome::Failed(ConfigError::NoValue(key.to_owned()))
        }
    }
}

/// The value of the variable `key` as written.
pub fn written_value(known: &Knowledge, var: &RawUseVarType, key: &str) -> (r: Outcome<String>)
    requires
        known.wf(),
    ensures
        r.model(|s: String| s@) == value_written(known@, *var, key@),
{
    match var {
        RawUseVarType::Str(s) => {
            let first = if s.as_str().unicode_len() > 0 {
                s.as_str().get_char(0)
            } else {
                ' '
            };
            if s.as_str().unicode_len() > 0 && (first == '$' || first == '~') {
                let none = StringMap::new();
                shell_output(known, echo(s.as_str()), &none)
            } else {
                Outcome::Ready(s.clone())
            }
        },
        RawUseVarType::Table(sources) => sources.try_get_value(known, key),
    }
}

/// Evaluates a rule as written: binds its variables, then evaluates its
/// guard in their environment, and brings its targets and exclusions
/// into their plain form.
pub fn convert_raw_table_to_dots_use(known: &Knowledge, raw_table: &RawUseTable) -> (r: Outcome<
    DotsUse,
>)
    requires
        known.wf(),
    ensures
        r.model(|u: DotsUse| u@) == converted(known@, *raw_table),
        r matches Outcome::Ready(u) ==> u.replace_map.wf(),
{
    let mut replace_map = StringMap::new();
    let mut i: usize = 0;
    while i < raw_table.vars.len()
        invariant
            i <= raw_table.vars@.len(),
            known.wf(),
            replace_map.wf(),
            vars_bound(known@, raw_table.vars@, i as int, replace_map.pairs()) == vars_bound(
                known@,
                raw_table.vars@,
                0,
                Seq::empty(),
            ),
        decreases raw_table.vars@.len() - i,
    {
        match written_value(known, &raw_table.vars[i].1, raw_table.vars[i].0.as_str()) {
            Outcome::Ready(value) => {
                replace_map.insert(raw_table.vars[i].0.clone(), value);
            },
            Outcome::Need(q) => {
                return Outcome::Need(q);
            },
            Outcome::Failed(e) => {
                return Outcome::Failed(e);
            },
        }
        i += 1;
    }
    let when = match &raw_table.when {
        None => true,
        Some(RawUseWhenType::Bool(b)) => *b,
        Some(RawUseWhenType::Table(conditions)) => match conditions.try_is_true(
            known,
            &replace_map,
        ) {
            Outcome::Ready(b) => b,
            Outcome::Need(q) => {
                return Outcome::Need(q);
            },
            Outcome::Failed(e) => {
                return Outcome::Failed(e);
            },
        },
    };
    let target = match &raw_table.target {
        None => None,
        Some(RawUseTargetType::Str(s)) => {
            let mut pairs: Vec<(String, String)> = Vec::new();
            pairs.push((String::new(), s.clone()));
            assert(pair_texts(pairs@) =~= seq![(Seq::<char>::empty(), s@)]);
            Some(pairs)
        },
        Some(RawUseTargetType::Table(pairs)) => Some(copy_pairs(pairs)),
    };
    let exclude = match &raw_table.exclude {
        None => None,
        Some(RawExcludeType::Str(s)) => {
            let mut list: Vec<String> = Vec::new();
            list.push(s.clone());
            assert(texts(list@) =~= seq![s@]);
            Some(list)
        },
        Some(RawExcludeType::Vec(v)) => Some(copy_texts(v)),
    };
    Outcome::Ready(DotsUse { when, target, replace_map, exclude })
}

/// A copy of a list of pairs of strings.
pub fn copy_pairs(pairs: &Vec<(String, String)>) -> (r: Vec<(String, String)>)
    ensures
        pair_texts(r@) == pair_texts(pairs@),
{
    let mut out: Vec<(String, String)> = Vec::new();
    let mut i: usize = 0;
    while i < pairs.len()
        invariant
            i <= pairs@.len(),
            out@.len() == i,
            forall|j: int|
                0 <= j < i ==> (#[trigger] out@[j]).0@ == pairs@[j].0@ && out@[j].1@ == pairs@[j].1@,
        decreases pairs@.len() - i,
    {
        out.push((pairs[i].0.clone(), pairs[i].1.clone()));
        i += 1;
    }
    assert(pair_texts(out@) =~= pair_texts(pairs@));
    out
}

/// A copy of a list of strings.
pub fn copy_texts(list: &Vec<String>) -> (r: Vec<String>)
    ensures
        texts(r@) == texts(list@),
{
    let mut out: Vec<String> = Vec::new();
    let mut i: usize = 0;
    while i < list.len()
        invariant
            i <= list@.len(),
            out@.len() == i,
            forall|j: int| 0 <= j < i ==> (#[trigger] out@[j])@ == list@[j]@,
        decreases list@.len() - i,
    {
        out.push(list[i].clone());
        i += 1;
    }
    assert(texts(out@) =~= texts(list@));
    out
}

/// Whether `path` begins with one of the paths found.
fn is_under_any(found: &Vec<(String, StringMap)>, path: &str) -> (r: bool)
    ensures
        r == under_any(found_models(found@), path@),
{
    let mut i: usize = 0;
    while i < found.len()
        invariant
            i <= found@.len(),
            forall|j: int|
                0 <= j < i ==> !begins_with(path@, (#[trigger] found_models(found@)[j]).0),
        decreases found@.len() - i,
    {
        if starts_with(path, found[i].0.as_str()) {
            assert(begins_with(path@, found_models(found@)[i as int].0));
            return true;
        }
        i += 1;
    }
    false
}

/// Whether the source is left out by one of the exclusion templates.
fn is_excluded(
    known: &Knowledge,
    base_path: &str,
    source: &(String, StringMap),
    excludes: &Vec<String>,
) -> (r: Outcome<bool>)
    requires
        known.wf(),
        source.1.wf(),
    ensures
        r.model(|b: bool| b) == excluded(
            known@,
            base_path@,
            (source.0@, source.1@),
            texts(excludes@),
            0,
        ),
{
    let mut k: usize = 0;
    while k < excludes.len()
        invariant
            k <= excludes@.len(),
            known.wf(),
            source.1.wf(),
            excluded(known@, base_path@, (source.0@, source.1@), texts(excludes@), k as int)
                == excluded(known@, base_path@, (source.0@, source.1@), texts(excludes@), 0),
        decreases excludes@.len() - k,
    {
        match resolve_path(known, base_path, excludes[k].as_str(), &source.1) {
            Outcome::Ready(found) => {
                if is_under_any(&found, source.0.as_str()) {
                    return Outcome::Ready(true);
                }
            },
            Outcome::Need(q) => {
                return Outcome::Need(q);
            },
            Outcome::Failed(e) => {
                return Outcome::Failed(e);
            },
        }
        k += 1;
    }
    Outcome::Ready(false)
}

impl DotsUse {
    /// Evaluates the rule for the source path `use_path` below
    /// `base_path`: the pairs of source and destination, in the order in
    /// which the sources were found, or nothing where the rule does not
    /// apply. Targets and exclusions given for all rules come in
    /// `global_use_target` and `global_exclude`.
    pub fn try_use(
        &self,
        known: &Knowledge,
        base_path: &str,
        use_path: &str,
        global_use_target: Option<&Vec<(String, String)>>,
        global_exclude: Option<&Vec<String>>,
    ) -> (r: Outcome<Option<StringMap>>)
        requires
            known.wf(),
            self.replace_map.wf(),
        ensures
            r.model(|o: Option<StringMap>| pairs_of(o)) == used(
                known@,
                self@,
                base_path@,
                use_path@,
                match global_use_target {
                    Some(t) => Some(pair_texts(t@)),
                    None => None,
                },
                list_texts(global_exclude),
            ),
            r matches Outcome::Ready(Some(m)) ==> m.wf(),
    {
        if !self.when {
            return Outcome::Ready(None);
        }
        let targets = match &self.target {
            Some(t) => t,
            None => match global_use_target {
                Some(t) => t,
                None => {
                    return Outcome::Failed(ConfigError::NoTargets);
                },
            },
        };
        let mut excludes: Vec<String> = match global_exclude {
            Some(e) => copy_texts(e),
            None => Vec::new(),
        };
        let ghost global = texts(excludes@);
        assert(global =~= list_texts(global_exclude));
        match &self.exclude {
            Some(e) => {
                let mut own = copy_texts(e);
                excludes.append(&mut own);
                assert(texts(excludes@) =~= global + texts(e@));
            },
            None => {
                assert(texts(excludes@) =~= global + Seq::<Seq<char>>::empty());
            },
        }
        let mut track_map = StringMap::new();
        let mut i: usize = 0;
        let ghost goal = used(
            known@,
            self@,
            base_path@,
            use_path@,
            match global_use_target {
                Some(t) => Some(pair_texts(t@)),
                None => None,
            },
            list_texts(global_exclude),
        );
        while i < targets.len()
            invariant
                i <= targets@.len(),
                known.wf(),
                self.replace_map.wf(),
                track_map.wf(),
                goal == used(
                    known@,
                    self@,
                    base_path@,
                    use_path@,
                    match global_use_target {
                        Some(t) => Some(pair_texts(t@)),
                        None => None,
                    },
                    list_texts(global_exclude),
                ),
                goal == some_mapped(
                    targets_mapped(
                        known@,
                        base_path@,
                        use_path@,
                        self.replace_map@,
                        pair_texts(targets@),
                        0,
                        texts(excludes@),
                        Seq::empty(),
                    ),
                ),
                targets_mapped(
                    known@,
                    base_path@,
                    use_path@,
                    self.replace_map@,
                    pair_texts(targets@),
                    i as int,
                    texts(excludes@),
                    track_map.pairs(),
                ) == targets_mapped(
                    known@,
                    base_path@,
                    use_path@,
                    self.replace_map@,
                    pair_texts(targets@),
                    0,
                    texts(excludes@),
                    Seq::empty(),
                ),
            decreases targets@.len() - i,
        {
            let suffix = join(use_path, targets[i].0.as_str());
            let sources = match resolve_path(known, base_path, suffix.as_str(), &self.replace_map) {
                Outcome::Ready(sources) => sources,
                Outcome::Need(q) => {
                    return Outcome::Need(q);
                },
                Outcome::Failed(e) => {
                    return Outcome::Failed(e);
                },
            };
            let ghost before = track_map.pairs();
            let mut j: usize = 0;
            while j < sources.len()
                invariant
                    j <= sources@.len(),
                    i < targets@.len(),
                    known.wf(),
                    track_map.wf(),
                    found_wf(sources@),
                    goal == used(
                    known@,
                    self@,
                    base_path@,
                    use_path@,
                    match global_use_target {
                        Some(t) => Some(pair_texts(t@)),
                        None => None,
                    },
                    list_texts(global_exclude),
                ),
                resolved_path(
                        known@,
                        base_path@,
                        joined(use_path@, targets@[i as int].0@),
                        self.replace_map@,
                    ) == OutcomeModel::Ready(found_models(sources@)),
                    goal == some_mapped(
                        targets_mapped(
                            known@,
                            base_path@,
                            use_path@,
                            self.replace_map@,
                            pair_texts(targets@),
                            i as int,
                            texts(excludes@),
                            before,
                        ),
                    ),
                    sources_mapped(
                        known@,
                        base_path@,
                        found_models(sources@),
                        j as int,
                        targets@[i as int].1@,
                        texts(excludes@),
                        track_map.pairs(),
                    ) == sources_mapped(
                        known@,
                        base_path@,
                        found_models(sources@),
                        0,
                        targets@[i as int].1@,
                        texts(excludes@),
                        before,
                    ),
                decreases sources@.len() - j,
            {
                assert(sources@[j as int].1.wf());
                match is_excluded(known, base_path, &sources[j], &excludes) {
                    Outcome::Ready(true) => {},
                    Outcome::Ready(false) => {
                        match resolve_path(
                            known,
                            base_path,
                            targets[i].1.as_str(),
                            &sources[j].1,
                        ) {
                            Outcome::Ready(found) => {
                                if found.len() == 1 {
                                    track_map.insert(sources[j].0.clone(), found[0].0.clone());
                                } else {
                                    return Outcome::Failed(
                                        ConfigError::Destination {
                                            template: targets[i].1.clone(),
                                            found: found.len(),
                                        },
                                    );
                                }
                            },
                            Outcome::Need(q) => {
                                return Outcome::Need(q);
                            },
                            Outcome::Failed(e) => {
                                return Outcome::Failed(e);
                            },
                        }
                    },
                    Outcome::Need(q) => {
                        return Outcome::Need(q);
                    },
                    Outcome::Failed(e) => {
                        return Outcome::Failed(e);
                    },
                }
                j += 1;
            }
            i += 1;
        }
        Outcome::Ready(Some(track_map))
    }
}

} // verus!
