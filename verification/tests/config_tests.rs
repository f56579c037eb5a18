use dots::choice::{Choice, Opts, Reply};
use dots::config::{
    copy_rules, copy_use_map, dots_use_map, written_rules, Config, DotfileConfig, DotsConfig,
    DotsOptions, GeneralConfig, Inheritable, RawUseTableType, TomlSingleton, TrackfileGenOptions,
};
use dots::knowledge::{Entry, Knowledge, Query};
use dots::resolve::{ConfigError, Outcome};
use dots::rules::{DotsUse, DotsUseWhen, RawUseTable, RawUseTargetType, RawUseWhenType};
use dots::staging::{TrackMap, TrackMapError};
use dots::strmap::StringMap;

fn s(text: &str) -> String {
    text.to_string()
}

fn list(items: &[&str]) -> Vec<String> {
    items.iter().map(|i| s(i)).collect()
}

fn rule(template: &str) -> DotsUse {
    DotsUse {
        when: true,
        target: Some(vec![(s(""), s(template))]),
        replace_map: StringMap::new(),
        exclude: None,
    }
}

fn options() -> DotsOptions {
    DotsOptions::new()
}

fn table(when: Option<bool>, target: &str) -> RawUseTable {
    RawUseTable {
        when: when.map(RawUseWhenType::Bool),
        target: Some(RawUseTargetType::Str(s(target))),
        exclude: None,
        vars: Vec::new(),
    }
}

#[test]
fn read_line_ignores_blanks_and_case() {
    assert_eq!(Opts::All.read_line("  YES \n"), Some(Reply::Answer(Choice::Yes { all: false })));
    assert_eq!(Opts::All.read_line("Q\n"), Some(Reply::Answer(Choice::Quit)));
    assert_eq!(Opts::All.read_line("NoAll"), Some(Reply::Answer(Choice::No { all: true })));
    assert_eq!(Opts::All.read_line("Info\r\n"), Some(Reply::Info));
    assert_eq!(Opts::YesNo.read_line("Q\n"), None);
    assert_eq!(Opts::All.read_line("y e s"), None);
    assert_eq!(Opts::All.read_line("\n"), None);
}

#[test]
fn general_config_takes_over() {
    let mut g = GeneralConfig { inherits: Some(list(&["a", "b"])), strict: Some(true) };
    g.extend(None);
    assert_eq!(g, GeneralConfig { inherits: Some(list(&["a", "b"])), strict: Some(true) });
    g.extend(Some(GeneralConfig { inherits: Some(list(&["b", "c", "c"])), strict: None }));
    assert_eq!(g, GeneralConfig { inherits: Some(list(&["a", "b", "c"])), strict: None });
    g.extend(Some(GeneralConfig { inherits: None, strict: Some(false) }));
    assert_eq!(g, GeneralConfig { inherits: Some(list(&["a", "b", "c"])), strict: Some(false) });
    let mut bare = GeneralConfig { inherits: None, strict: None };
    bare.extend(Some(GeneralConfig { inherits: Some(list(&["x", "x"])), strict: Some(true) }));
    assert_eq!(bare, GeneralConfig { inherits: Some(list(&["x", "x"])), strict: Some(true) });
}

#[test]
fn options_inherit_nothing_unless_handed_down() {
    let mut own = options();
    let from = DotsOptions {
        use_map: Some(vec![(s("home"), vec![rule("~")])]),
        use_target: Some(vec![(s("home"), s("~"))]),
        exclude: Some(list(&["x"])),
        inherits: None,
    };
    own.inherit(&from);
    assert_eq!(own, options());
}

#[test]
fn options_inherit_what_they_lack() {
    let mut own = options();
    let from = DotsOptions {
        use_map: Some(vec![(s("home"), vec![rule("~")])]),
        use_target: Some(vec![(s("home"), s("~"))]),
        exclude: Some(list(&["x"])),
        inherits: Some(vec![Inheritable::Use, Inheritable::Exclude]),
    };
    own.inherit(&from);
    assert_eq!(own.use_map, Some(vec![(s("home"), vec![rule("~")])]));
    assert_eq!(own.use_target, None);
    assert_eq!(own.exclude, Some(list(&["x"])));
    assert_eq!(own.inherits, None);
}

#[test]
fn options_keep_their_own_and_gain_the_rest() {
    let mut own = DotsOptions {
        use_map: Some(vec![(s("home"), vec![rule("/mine")])]),
        use_target: Some(vec![(s("home"), s("/mine"))]),
        exclude: Some(list(&["a"])),
        inherits: Some(vec![Inheritable::Use]),
    };
    let from = DotsOptions {
        use_map: Some(vec![
            (s("home"), vec![rule("/theirs")]),
            (s("root"), vec![rule("/")]),
            (s("root"), vec![rule("/again")]),
        ]),
        use_target: Some(vec![(s("root"), s("/")), (s("home"), s("~")), (s("root"), s("/2"))]),
        exclude: Some(list(&["a", "b"])),
        inherits: Some(vec![Inheritable::Use, Inheritable::UseTarget, Inheritable::Exclude]),
    };
    own.inherit(&from);
    assert_eq!(
        own.use_map,
        Some(vec![(s("home"), vec![rule("/mine")]), (s("root"), vec![rule("/")])])
    );
    assert_eq!(own.use_target, Some(vec![(s("home"), s("/mine")), (s("root"), s("/"))]));
    assert_eq!(own.exclude, Some(list(&["a", "a", "b"])));
    assert_eq!(own.inherits, Some(vec![Inheritable::Use]));
}

#[test]
fn options_hand_down_more() {
    let mut own = options();
    own.hand_down(None);
    assert_eq!(own.inherits, None);
    own.hand_down(Some(vec![Inheritable::Exclude]));
    assert_eq!(own.inherits, Some(vec![Inheritable::Exclude]));
    own.hand_down(Some(vec![Inheritable::Use, Inheritable::Exclude, Inheritable::Use]));
    assert_eq!(own.inherits, Some(vec![Inheritable::Exclude, Inheritable::Use]));
    own.hand_down(None);
    assert_eq!(own.inherits, Some(vec![Inheritable::Exclude, Inheritable::Use]));
}

#[test]
fn dotfile_and_dots_config_take_over_what_is_handed_down() {
    let mut d = DotfileConfig { path: s("/dots"), replace: Some(true), use_config: true, options: options() };
    d.extend(None);
    assert_eq!(d.options.inherits, None);
    let mut o = options();
    o.inherits = Some(vec![Inheritable::UseTarget]);
    o.exclude = Some(list(&["x"]));
    d.extend(Some(DotfileConfig { path: s("/other"), replace: None, use_config: false, options: o }));
    assert_eq!(d.path, "/dots");
    assert_eq!(d.replace, Some(true));
    assert!(d.use_config);
    assert_eq!(d.options.exclude, None);
    assert_eq!(d.options.inherits, Some(vec![Inheritable::UseTarget]));
    let mut c = DotsConfig { options: options() };
    let mut o = options();
    o.inherits = Some(vec![Inheritable::Use]);
    c.extend(Some(DotsConfig { options: o }));
    c.extend(None);
    assert_eq!(c.options.inherits, Some(vec![Inheritable::Use]));
}

#[test]
fn config_takes_over_part_by_part() {
    let mut c = Config::new();
    assert_eq!(c, Config { general: None, dots: None, dotfiles: None });
    c.extend(None);
    assert_eq!(c, Config::new());
    let tree = |path: &str| DotfileConfig {
        path: s(path),
        replace: None,
        use_config: false,
        options: options(),
    };
    c.extend(Some(Config {
        general: Some(GeneralConfig { inherits: Some(list(&["a"])), strict: Some(true) }),
        dots: None,
        dotfiles: Some(vec![tree("/one")]),
    }));
    assert_eq!(c.general, Some(GeneralConfig { inherits: Some(list(&["a"])), strict: Some(true) }));
    assert_eq!(c.dots, None);
    let mut handed = options();
    handed.inherits = Some(vec![Inheritable::Exclude]);
    c.extend(Some(Config {
        general: Some(GeneralConfig { inherits: Some(list(&["b"])), strict: None }),
        dots: Some(DotsConfig { options: handed }),
        dotfiles: Some(vec![tree("/two"), tree("/three")]),
    }));
    assert_eq!(c.general, Some(GeneralConfig { inherits: Some(list(&["a", "b"])), strict: None }));
    assert_eq!(c.dots.as_ref().unwrap().options.inherits, Some(vec![Inheritable::Exclude]));
    let paths: Vec<String> = c.dotfiles.as_ref().unwrap().iter().map(|d| d.path.clone()).collect();
    assert_eq!(paths, list(&["/one", "/two", "/three"]));
    c.extend(Some(Config::new()));
    assert_eq!(c.general, Some(GeneralConfig { inherits: Some(list(&["a", "b"])), strict: None }));
    assert_eq!(c.dotfiles.as_ref().unwrap().len(), 3);
    let single = TomlSingleton { global: Config::new(), templates: Vec::new() };
    assert_eq!(single.global, Config::new());
    assert!(!TrackfileGenOptions::default().verbose);
}

#[test]
fn copies_of_rules_are_equal() {
    let rules = vec![rule("~"), rule("/")];
    assert_eq!(copy_rules(&rules), rules);
    assert_eq!(rules[0].clone(), rules[0]);
    let map = vec![(s("home"), vec![rule("~")]), (s("root"), Vec::new())];
    assert_eq!(copy_use_map(&map), map);
}

#[test]
fn rules_written_in_short() {
    let known = Knowledge::new();
    assert_eq!(
        written_rules(&known, &RawUseTableType::Str(s("~/.config"))),
        Outcome::Ready(vec![rule("~/.config")])
    );
    assert_eq!(
        written_rules(&known, &RawUseTableType::Str(s(""))),
        Outcome::Failed(ConfigError::EmptyTarget)
    );
    assert_eq!(
        written_rules(&known, &RawUseTableType::Bool(true)),
        Outcome::Ready(vec![DotsUse {
            when: true,
            target: None,
            replace_map: StringMap::new(),
            exclude: None,
        }])
    );
    assert_eq!(written_rules(&known, &RawUseTableType::Bool(false)), Outcome::Ready(Vec::new()));
}

#[test]
fn rules_written_in_full_keep_those_that_apply() {
    let known = Knowledge::new();
    assert_eq!(
        written_rules(&known, &RawUseTableType::Table(table(None, "/a"))),
        Outcome::Ready(vec![rule("/a")])
    );
    assert_eq!(
        written_rules(&known, &RawUseTableType::Table(table(Some(false), "/a"))),
        Outcome::Ready(Vec::new())
    );
    let many = RawUseTableType::Array(vec![
        table(Some(true), "/a"),
        table(Some(false), "/b"),
        table(None, "/c"),
    ]);
    assert_eq!(written_rules(&known, &many), Outcome::Ready(vec![rule("/a"), rule("/c")]));
}

#[test]
fn use_map_leaves_out_paths_without_rules() {
    let known = Knowledge::new();
    assert_eq!(dots_use_map(&known, None), Outcome::Ready(None));
    let written = vec![
        (s("home"), RawUseTableType::Str(s("~"))),
        (s("off"), RawUseTableType::Bool(false)),
        (s("os"), RawUseTableType::Array(vec![table(Some(false), "/x"), table(None, "/")])),
        (s("none"), RawUseTableType::Array(Vec::new())),
    ];
    assert_eq!(
        dots_use_map(&known, Some(&written)),
        Outcome::Ready(Some(vec![(s("home"), vec![rule("~")]), (s("os"), vec![rule("/")])]))
    );
    assert_eq!(dots_use_map(&known, Some(&Vec::new())), Outcome::Ready(Some(Vec::new())));
}

#[test]
fn use_map_stops_at_what_it_needs_or_cannot_read() {
    let known = Knowledge::new();
    let guarded = RawUseTable {
        when: Some(RawUseWhenType::Table(DotsUseWhen {
            shell: Some(s("check")),
            test_if: None,
            test_command: None,
        })),
        target: None,
        exclude: None,
        vars: Vec::new(),
    };
    let written = vec![
        (s("home"), RawUseTableType::Str(s("~"))),
        (s("later"), RawUseTableType::Table(guarded)),
        (s("bad"), RawUseTableType::Str(s(""))),
    ];
    assert_eq!(
        dots_use_map(&known, Some(&written)),
        Outcome::Need(Query::Shell { command: s("check"), env: StringMap::new() })
    );
    let mut known = Knowledge::new();
    known.record_output(s("check"), StringMap::new(), Ok(s("true")));
    assert_eq!(dots_use_map(&known, Some(&written)), Outcome::Failed(ConfigError::EmptyTarget));
}

#[test]
fn config_errors_in_words() {
    assert_eq!(
        ConfigError::Listing { path: s("/d"), message: s("denied") }.message(),
        "Failed to list directory /d: denied"
    );
    assert_eq!(
        ConfigError::Shell { command: s("uname"), message: s("no shell") }.message(),
        "Failed to run `uname`: no shell"
    );
    assert_eq!(
        ConfigError::NotBool { command: s("check"), output: s("maybe") }.message(),
        "Value returned from shell was not a bool: `check` printed `maybe`"
    );
    assert_eq!(
        ConfigError::MultipleFields(s("name")).message(),
        "Multiple fields defined in UseVar for key 'name'"
    );
    assert_eq!(ConfigError::NoValue(s("name")).message(), "No value found in UseVar for key 'name'");
    assert_eq!(ConfigError::NoTargets.message(), "No targets provided for 'use'");
    assert_eq!(ConfigError::EmptyTarget.message(), "target cannot be empty");
    assert_eq!(
        ConfigError::Destination { template: s("out/*"), found: 12 }.message(),
        "Destination template out/* must resolve to exactly one path, not 12"
    );
}

#[test]
fn track_map_maps_root_and_home() {
    let mut map = TrackMap::new(None);
    assert_eq!(map.len(), 0);
    assert_eq!(map.insert_target("os/arch/home", "os/arch", "home"), Ok(None));
    assert_eq!(map.insert_target("os/arch/root/etc", "os/arch", "root"), Ok(None));
    assert_eq!(map.insert_target("home/.bashrc", "", "home"), Ok(None));
    assert_eq!(map.len(), 3);
    assert_eq!(map.get("os/arch/home"), Some(&s("~")));
    assert_eq!(map.get("os/arch/root/etc"), Some(&s("/etc")));
    assert_eq!(map.get("home/.bashrc"), Some(&s("~/.bashrc")));
    assert_eq!(map.get("nowhere"), None);
    let none: Vec<String> = Vec::new();
    assert_eq!(map.excluded(), &none);
}

#[test]
fn track_map_refuses_what_it_cannot_place() {
    let mut map = TrackMap::new(None);
    assert_eq!(
        map.insert_target("os/arch/etc", "os/arch", "etc"),
        Err(TrackMapError::InvalidTarget(s("etc")))
    );
    assert_eq!(
        map.insert_target("user/me/home", "os/arch", "home"),
        Err(TrackMapError::OutsidePrefix(s("user/me/home")))
    );
    assert_eq!(map.len(), 0);
}

#[test]
fn track_map_leaves_out_what_is_excluded() {
    let mut map = TrackMap::new(Some(list(&["os/guix", "user/me/home"])));
    assert_eq!(map.insert_target("os/guix/home", "os/guix", "home"), Ok(Some(s("os/guix/home"))));
    assert_eq!(map.insert_target("os/guix/oops", "os/guix", "oops"), Ok(Some(s("os/guix/oops"))));
    assert_eq!(map.insert_target("os/guixy/home", "os/guixy", "home"), Ok(None));
    assert_eq!(map.len(), 1);
    assert_eq!(map.excluded(), &list(&["os/guix/home", "os/guix/oops"]));
    assert_eq!(map.insert_targets("user/me"), list(&["user/me/home"]));
    assert_eq!(map.get("user/me/root"), Some(&s("/")));
    assert_eq!(map.get("user/me/home"), None);
    assert_eq!(map.excluded(), &list(&["os/guix/home", "os/guix/oops", "user/me/home"]));
}

#[test]
fn track_map_maps_the_children_that_are_directories() {
    let mut map = TrackMap::new(Some(list(&["os/guix"])));
    let entries = vec![
        Entry { name: s("arch"), is_dir: true },
        Entry { name: s("README"), is_dir: false },
        Entry { name: s("guix"), is_dir: true },
    ];
    let out = map.insert_targets_for_all_children("os", &entries);
    assert_eq!(out, list(&["os/guix/root", "os/guix/home"]));
    assert_eq!(map.len(), 2);
    assert_eq!(map.get("os/arch/root"), Some(&s("/")));
    assert_eq!(map.get("os/arch/home"), Some(&s("~")));
    assert_eq!(map.get("os/README/home"), None);
    let mut top = TrackMap::new(None);
    let none: Vec<String> = Vec::new();
    assert_eq!(top.insert_targets(""), none);
    assert_eq!(top.get("root"), Some(&s("/")));
    assert_eq!(top.get("home"), Some(&s("~")));
}
