//! The mapping store: the configuration record that the wizard builds
//! and the translation engine reads, together with the three style
//! presets and the location of the persisted configuration file.

use vstd::prelude::*;

use crate::strutil::{str_eq, strs_view};

verus! {

// ---------------------------------------------------------------------------
// The association-list model
// ---------------------------------------------------------------------------
/// The views of a sequence of key/value string pairs.
pub open spec fn entries_view(s: Seq<(String, String)>) -> Seq<(Seq<char>, Seq<char>)> {
    s.map_values(|p: (String, String)| (p.0@, p.1@))
}

/// The mapping the entries denote; an earlier entry wins over a later
/// one with the same key.
pub open spec fn map_of(s: Seq<(Seq<char>, Seq<char>)>) -> Map<Seq<char>, Seq<char>>
    decreases s.len(),
{
    if s.len() == 0 {
        Map::empty()
    } else {
        map_of(s.drop_first()).insert(s[0].0, s[0].1)
    }
}

/// First-match lookup over the entries.
pub open spec fn lookup_spec(s: Seq<(Seq<char>, Seq<char>)>, k: Seq<char>) -> Option<Seq<char>>
    decreases s.len(),
{
    if s.len() == 0 {
        None
    } else if s[0].0 == k {
        Some(s[0].1)
    } else {
        lookup_spec(s.drop_first(), k)
    }
}

/// First-match lookup agrees with the mapping the entries denote.
pub proof fn lemma_lookup_is_map(s: Seq<(Seq<char>, Seq<char>)>, k: Seq<char>)
    ensures
        map_of(s).contains_key(k) <==> lookup_spec(s, k) is Some,
        lookup_spec(s, k) matches Some(v) ==> map_of(s)[k] == v,
    decreases s.len(),
{
    if s.len() > 0 {
        lemma_lookup_is_map(s.drop_first(), k);
    }
}

/// No two entries share a key.
pub open spec fn unique_keys(s: Seq<(Seq<char>, Seq<char>)>) -> bool {
    forall|i: int, j: int| 0 <= i < j < s.len() ==> s[i].0 != s[j].0
}

/// Every key has at least one character.
pub open spec fn keys_nonempty(s: Seq<(Seq<char>, Seq<char>)>) -> bool {
    forall|i: int| 0 <= i < s.len() ==> s[i].0.len() > 0
}

/// Looks a key up in an association list, returning the value of the
/// first entry whose key matches.
pub fn lookup(entries: &Vec<(String, String)>, key: &str) -> (r: Option<String>)
    ensures
        match r {
            Some(v) => lookup_spec(entries_view(entries@), key@) == Some(v@),
            None => lookup_spec(entries_view(entries@), key@) is None,
        },
{
    let ghost ev = entries_view(entries@);
    let mut idx: usize = 0;
    proof {
        assert(ev.skip(0) =~= ev);
    }
    while idx < entries.len()
        invariant
            idx <= entries.len(),
            ev == entries_view(entries@),
            lookup_spec(ev, key@) == lookup_spec(ev.skip(idx as int), key@),
        decreases entries.len() - idx,
    {
        proof {
            assert(ev.skip(idx as int)[0] == ev[idx as int]);
            assert(ev.skip(idx as int).drop_first() =~= ev.skip(idx as int + 1));
        }
        if str_eq(entries[idx].0.as_str(), key) {
            return Some(entries[idx].1.clone());
        }
        idx = idx + 1;
    }
    None
}

// ---------------------------------------------------------------------------
// The configuration record
// ---------------------------------------------------------------------------
/// Preferences for the two mapping styles; provenance tags that are
/// only carried along, never consulted by translation.
#[derive(Debug, Clone)]
pub struct GeneralConfig {
    pub command_style: String,
    pub folder_style: String,
}

/// Shell-related settings: the default shell, which shells are set up,
/// and what to do when a new shell appears.
#[derive(Debug, Clone)]
pub struct ShellConfig {
    pub default: String,
    pub enabled: Vec<String>,
    pub on_new_shell: String,
}

/// The full configuration: preferences plus the two alias tables.
#[derive(Debug, Clone)]
pub struct SemanticConfig {
    pub general: GeneralConfig,
    pub shells: ShellConfig,
    pub commands: Vec<(String, String)>,
    pub paths: Vec<(String, String)>,
}

impl SemanticConfig {
    /// The mapping from semantic command tokens to real command strings.
    pub open spec fn command_map(self) -> Map<Seq<char>, Seq<char>> {
        map_of(entries_view(self.commands@))
    }

    /// The mapping from semantic path tokens to real filesystem paths.
    pub open spec fn path_map(self) -> Map<Seq<char>, Seq<char>> {
        map_of(entries_view(self.paths@))
    }

    /// Both alias tables have unique, non-empty keys.
    pub open spec fn wf(self) -> bool {
        &&& unique_keys(entries_view(self.commands@))
        &&& keys_nonempty(entries_view(self.commands@))
        &&& unique_keys(entries_view(self.paths@))
        &&& keys_nonempty(entries_view(self.paths@))
    }
}

// ---------------------------------------------------------------------------
// Style presets
// ---------------------------------------------------------------------------
/// The natural command preset: plain-word aliases for common commands.
pub open spec fn natural_commands_spec() -> Seq<(Seq<char>, Seq<char>)> {
    seq![
        ("goto"@, "cd"@),
        ("back"@, "cd .."@),
        ("list"@, "ls -la"@),
        ("delete"@, "rm -rf"@),
        ("copy"@, "cp -r"@),
        ("move"@, "mv"@),
        ("install"@, "sudo pacman -S"@),
        ("remove"@, "sudo pacman -R"@),
        ("update"@, "sudo pacman -Syu"@),
    ]
}

/// The verbose command preset: hyphenated descriptive aliases.
pub open spec fn verbose_commands_spec() -> Seq<(Seq<char>, Seq<char>)> {
    seq![
        ("go-to"@, "cd"@),
        ("go-back"@, "cd .."@),
        ("list-files"@, "ls -la"@),
        ("delete-file"@, "rm -rf"@),
        ("copy-file"@, "cp -r"@),
        ("move-file"@, "mv"@),
        ("install-package"@, "sudo pacman -S"@),
        ("remove-package"@, "sudo pacman -R"@),
        ("update-system"@, "sudo pacman -Syu"@),
    ]
}

/// The traditional command preset: every command maps to itself.
pub open spec fn traditional_commands_spec() -> Seq<(Seq<char>, Seq<char>)> {
    seq![
        ("cd"@, "cd"@),
        ("ls"@, "ls"@),
        ("rm"@, "rm"@),
        ("cp"@, "cp"@),
        ("mv"@, "mv"@),
        ("pacman"@, "pacman"@),
    ]
}

/// The natural path preset: short virtual directories.
pub open spec fn natural_paths_spec() -> Seq<(Seq<char>, Seq<char>)> {
    seq![("/apps"@, "/usr/bin"@), ("/settings"@, "/etc"@), ("/logs"@, "/var/log"@)]
}

/// The verbose path preset: spelled-out virtual directories.
pub open spec fn verbose_paths_spec() -> Seq<(Seq<char>, Seq<char>)> {
    seq![
        ("/user/applications"@, "/usr/bin"@),
        ("/configuration"@, "/etc"@),
        ("/system-logs"@, "/var/log"@),
    ]
}

/// The traditional path preset: no remapping at all.
pub open spec fn traditional_paths_spec() -> Seq<(Seq<char>, Seq<char>)> {
    Seq::empty()
}

/// The command table a style selects; unrecognised styles fall back to
/// the traditional preset.
pub open spec fn preset_of(style: Seq<char>) -> Seq<(Seq<char>, Seq<char>)> {
    if style == "natural"@ {
        natural_commands_spec()
    } else if style == "verbose"@ {
        verbose_commands_spec()
    } else {
        traditional_commands_spec()
    }
}

/// The path table a style selects; unrecognised styles fall back to
/// the traditional preset.
pub open spec fn path_preset_of(style: Seq<char>) -> Seq<(Seq<char>, Seq<char>)> {
    if style == "natural"@ {
        natural_paths_spec()
    } else if style == "verbose"@ {
        verbose_paths_spec()
    } else {
        traditional_paths_spec()
    }
}

/// One alias entry from two string literals.
fn pair(k: &str, v: &str) -> (r: (String, String))
    ensures
        r.0@ == k@,
        r.1@ == v@,
{
    (String::from_str(k), String::from_str(v))
}

/// The natural command table.
pub fn natural_commands() -> (r: Vec<(String, String)>)
    ensures
        entries_view(r@) == natural_commands_spec(),
{
    let mut v: Vec<(String, String)> = Vec::new();
    v.push(pair("goto", "cd"));
    v.push(pair("back", "cd .."));
    v.push(pair("list", "ls -la"));
    v.push(pair("delete", "rm -rf"));
    v.push(pair("copy", "cp -r"));
    v.push(pair("move", "mv"));
    v.push(pair("install", "sudo pacman -S"));
    v.push(pair("remove", "sudo pacman -R"));
    v.push(pair("update", "sudo pacman -Syu"));
    proof {
        assert(entries_view(v@) =~= natural_commands_spec());
    }
    v
}

/// The verbose command table.
pub fn verbose_commands() -> (r: Vec<(String, String)>)
    ensures
        entries_view(r@) == verbose_commands_spec(),
{
    let mut v: Vec<(String, String)> = Vec::new();
    v.push(pair("go-to", "cd"));
    v.push(pair("go-back", "cd .."));
    v.push(pair("list-files", "ls -la"));
    v.push(pair("delete-file", "rm -rf"));
    v.push(pair("copy-file", "cp -r"));
    v.push(pair("move-file", "mv"));
    v.push(pair("install-package", "sudo pacman -S"));
    v.push(pair("remove-package", "sudo pacman -R"));
    v.push(pair("update-system", "sudo pacman -Syu"));
    proof {
        assert(entries_view(v@) =~= verbose_commands_spec());
    }
    v
}

/// The traditional command table.
pub fn traditional_commands() -> (r: Vec<(String, String)>)
    ensures
        entries_view(r@) == traditional_commands_spec(),
{
    let mut v: Vec<(String, String)> = Vec::new();
    v.push(pair("cd", "cd"));
    v.push(pair("ls", "ls"));
    v.push(pair("rm", "rm"));
    v.push(pair("cp", "cp"));
    v.push(pair("mv", "mv"));
    v.push(pair("pacman", "pacman"));
    proof {
        assert(entries_view(v@) =~= traditional_commands_spec());
    }
    v
}

/// The natural path table.
pub fn natural_paths() -> (r: Vec<(String, String)>)
    ensures
        entries_view(r@) == natural_paths_spec(),
{
    let mut v: Vec<(String, String)> = Vec::new();
    v.push(pair("/apps", "/usr/bin"));
    v.push(pair("/settings", "/etc"));
    v.push(pair("/logs", "/var/log"));
    proof {
        assert(entries_view(v@) =~= natural_paths_spec());
    }
    v
}

/// The verbose path table.
pub fn verbose_paths() -> (r: Vec<(String, String)>)
    ensures
        entries_view(r@) == verbose_paths_spec(),
{
    let mut v: Vec<(String, String)> = Vec::new();
    v.push(pair("/user/applications", "/usr/bin"));
    v.push(pair("/configuration", "/etc"));
    v.push(pair("/system-logs", "/var/log"));
    proof {
        assert(entries_view(v@) =~= verbose_paths_spec());
    }
    v
}

/// The traditional path table.
pub fn traditional_paths() -> (r: Vec<(String, String)>)
    ensures
        entries_view(r@) == traditional_paths_spec(),
{
    let v: Vec<(String, String)> = Vec::new();
    proof {
        assert(entries_view(v@) =~= traditional_paths_spec());
    }
    v
}

/// The command table for a style string.
pub fn build_preset(style: &str) -> (r: Vec<(String, String)>)
    ensures
        entries_view(r@) == preset_of(style@),
{
    if str_eq(style, "natural") {
        natural_commands()
    } else if str_eq(style, "verbose") {
        verbose_commands()
    } else {
        traditional_commands()
    }
}

/// The path table for a style string.
pub fn build_path_preset(style: &str) -> (r: Vec<(String, String)>)
    ensures
        entries_view(r@) == path_preset_of(style@),
{
    if str_eq(style, "natural") {
        natural_paths()
    } else if str_eq(style, "verbose") {
        verbose_paths()
    } else {
        traditional_paths()
    }
}

/// The natural command keys differ pairwise in their first character.
proof fn lemma_natural_commands_unique()
    ensures
        unique_keys(natural_commands_spec()),
        keys_nonempty(natural_commands_spec()),
{
    reveal_strlit("goto");
    reveal_strlit("back");
    reveal_strlit("list");
    reveal_strlit("delete");
    reveal_strlit("copy");
    reveal_strlit("move");
    reveal_strlit("install");
    reveal_strlit("remove");
    reveal_strlit("update");
    assert("goto"@[0] == 'g');
    assert("back"@[0] == 'b');
    assert("list"@[0] == 'l');
    assert("delete"@[0] == 'd');
    assert("copy"@[0] == 'c');
    assert("move"@[0] == 'm');
    assert("install"@[0] == 'i');
    assert("remove"@[0] == 'r');
    assert("update"@[0] == 'u');
}

/// The verbose command keys differ pairwise in first character or
/// length.
proof fn lemma_verbose_commands_unique()
    ensures
        unique_keys(verbose_commands_spec()),
        keys_nonempty(verbose_commands_spec()),
{
    reveal_strlit("go-to");
    reveal_strlit("go-back");
    reveal_strlit("list-files");
    reveal_strlit("delete-file");
    reveal_strlit("copy-file");
    reveal_strlit("move-file");
    reveal_strlit("install-package");
    reveal_strlit("remove-package");
    reveal_strlit("update-system");
    assert("go-to"@[0] == 'g' && "go-to"@.len() == 5);
    assert("go-back"@[0] == 'g' && "go-back"@.len() == 7);
    assert("list-files"@[0] == 'l');
    assert("delete-file"@[0] == 'd');
    assert("copy-file"@[0] == 'c');
    assert("move-file"@[0] == 'm');
    assert("install-package"@[0] == 'i');
    assert("remove-package"@[0] == 'r');
    assert("update-system"@[0] == 'u');
}

/// The traditional command keys differ pairwise in their first two
/// characters.
proof fn lemma_traditional_commands_unique()
    ensures
        unique_keys(traditional_commands_spec()),
        keys_nonempty(traditional_commands_spec()),
{
    reveal_strlit("cd");
    reveal_strlit("ls");
    reveal_strlit("rm");
    reveal_strlit("cp");
    reveal_strlit("mv");
    reveal_strlit("pacman");
    assert("cd"@[0] == 'c' && "cd"@[1] == 'd');
    assert("ls"@[0] == 'l');
    assert("rm"@[0] == 'r');
    assert("cp"@[0] == 'c' && "cp"@[1] == 'p');
    assert("mv"@[0] == 'm');
    assert("pacman"@[0] == 'p');
}

/// In every preset command table, keys are unique and non-empty.
pub proof fn lemma_preset_keys_wf(style: Seq<char>)
    ensures
        unique_keys(preset_of(style)),
        keys_nonempty(preset_of(style)),
{
    lemma_natural_commands_unique();
    lemma_verbose_commands_unique();
    lemma_traditional_commands_unique();
}

/// Preset construction is deterministic: any two tables that the
/// preset contract admits for one style carry the same entries and
/// denote the same mapping.
pub proof fn lemma_preset_deterministic(
    a: Seq<(String, String)>,
    b: Seq<(String, String)>,
    style: Seq<char>,
)
    requires
        entries_view(a) == preset_of(style),
        entries_view(b) == preset_of(style),
    ensures
        entries_view(a) == entries_view(b),
        map_of(entries_view(a)) == map_of(entries_view(b)),
{
}

/// In every preset path table, keys are unique and non-empty.
pub proof fn lemma_path_preset_keys_wf(style: Seq<char>)
    ensures
        unique_keys(path_preset_of(style)),
        keys_nonempty(path_preset_of(style)),
{
    reveal_strlit("/apps");
    reveal_strlit("/settings");
    reveal_strlit("/logs");
    reveal_strlit("/user/applications");
    reveal_strlit("/configuration");
    reveal_strlit("/system-logs");
    assert("/apps"@[1] == 'a');
    assert("/settings"@[1] == 's');
    assert("/logs"@[1] == 'l');
    assert("/user/applications"@[1] == 'u');
    assert("/configuration"@[1] == 'c');
    assert("/system-logs"@[1] == 's' && "/system-logs"@.len() == 12);
    assert("/settings"@.len() == 9);
}

impl SemanticConfig {
    /// Builds the configuration from the wizard's four selections:
    /// the alias tables follow the chosen styles, the chosen shell is
    /// the default and the only enabled shell.
    pub fn from_selections(
        shell: &str,
        command_style: &str,
        folder_style: &str,
        on_new_shell: &str,
    ) -> (r: SemanticConfig)
        ensures
            r.general.command_style@ == command_style@,
            r.general.folder_style@ == folder_style@,
            r.shells.default@ == shell@,
            strs_view(r.shells.enabled@) == seq![shell@],
            r.shells.on_new_shell@ == on_new_shell@,
            entries_view(r.commands@) == preset_of(command_style@),
            entries_view(r.paths@) == path_preset_of(folder_style@),
            r.wf(),
    {
        let commands = build_preset(command_style);
        let paths = build_path_preset(folder_style);
        let mut enabled: Vec<String> = Vec::new();
        enabled.push(String::from_str(shell));
        proof {
            assert(strs_view(enabled@) =~= seq![shell@]);
            lemma_preset_keys_wf(command_style@);
            lemma_path_preset_keys_wf(folder_style@);
        }
        SemanticConfig {
            general: GeneralConfig {
                command_style: String::from_str(command_style),
                folder_style: String::from_str(folder_style),
            },
            shells: ShellConfig {
                default: String::from_str(shell),
                enabled,
                on_new_shell: String::from_str(on_new_shell),
            },
            commands,
            paths,
        }
    }
}

// ---------------------------------------------------------------------------
// Configuration file location
// ---------------------------------------------------------------------------
/// The view of an optional string.
pub open spec fn opt_str_view(o: Option<String>) -> Option<Seq<char>> {
    match o {
        Some(s) => Some(s@),
        None => None,
    }
}

/// The configuration directory under a given platform root; without a
/// root, a home-relative fallback is used.
pub open spec fn config_dir_of(root: Option<Seq<char>>) -> Seq<char> {
    (match root {
        Some(r) => r,
        None => "~/.config"@,
    }) + "/semantic"@
}

/// The configuration file path under a given platform root.
pub open spec fn config_path_of(root: Option<Seq<char>>) -> Seq<char> {
    config_dir_of(root) + "/config.toml"@
}

/// Relies on dirs::config_dir for the platform's configuration
/// directory; the result depends on the process environment, so
/// nothing is promised of it.
#[verifier::external_body]
fn platform_config_root() -> (r: Option<String>) {
    dirs::config_dir().map(|p| p.to_string_lossy().into_owned())
}

/// The configuration directory under the given root.
pub fn config_dir_from(root: Option<String>) -> (r: String)
    ensures
        r@ == config_dir_of(opt_str_view(root)),
{
    match root {
        Some(base) => base.concat("/semantic"),
        None => String::from_str("~/.config").concat("/semantic"),
    }
}

/// The configuration file path under the given root.
pub fn config_path_from(root: Option<String>) -> (r: String)
    ensures
        r@ == config_path_of(opt_str_view(root)),
{
    let d = config_dir_from(root);
    d.concat("/config.toml")
}

impl SemanticConfig {
    /// The configuration file path under the platform's configuration
    /// directory.
    pub fn config_path() -> (r: String)
        ensures
            exists|root: Option<Seq<char>>| r@ == config_path_of(root),
    {
        let root = platform_config_root();
        let ghost g = opt_str_view(root);
        let p = config_path_from(root);
        proof {
            assert(p@ == config_path_of(g));
        }
        p
    }
}

/// The shell that initialisation should target: the configured default
/// where one is set, otherwise the externally detected one.
pub fn effective_shell<'a>(configured: &'a str, detected: &'a str) -> (r: &'a str)
    ensures
        configured@.len() == 0 ==> r@ == detected@,
        configured@.len() > 0 ==> r@ == configured@,
{
    if configured.is_empty() {
        detected
    } else {
        configured
    }
}

} // verus!
