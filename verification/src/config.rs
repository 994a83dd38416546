//! The configuration of a build, and how its sources are put together.

use crate::descriptor::{ExtraInput, ExtraInputModel};
use crate::report::{Level, Notice, NoticeModel};
use crate::text::{
    chars_of, copy_text, copy_texts, first_index_of, lemma_deep_view_push, lemma_first_index_of,
    same_text, split, split_on, starts_with, starts_with_text, text_of, trim, trimmed,
};
use vstd::prelude::*;
use vstd::string::*;

verus! {

/// What a build is configured with.
#[derive(Debug, Clone)]
pub struct RepxConfig {
    /// The project's root, where its manifest lies.
    pub project: String,
    /// The image of the execution environment.
    pub image: String,
    /// The targets to build for, separated by commas; the host's target
    /// where there are none.
    pub targets: Option<String>,
    /// Extra inputs of the build description.
    pub extra: Vec<String>,
    /// The channel of the Rust toolchain: stable or nightly.
    pub rust_channel: String,
    /// The version of the Rust toolchain, or `latest`.
    pub rust_version: String,
    /// Where the package collection comes from.
    pub nixpkgs_url: String,
}

/// What a `RepxConfig` is, to a contract.
pub struct RepxConfigModel {
    pub project: Seq<char>,
    pub image: Seq<char>,
    pub targets: Option<Seq<char>>,
    pub extra: Seq<Seq<char>>,
    pub rust_channel: Seq<char>,
    pub rust_version: Seq<char>,
    pub nixpkgs_url: Seq<char>,
}

impl DeepView for RepxConfig {
    type V = RepxConfigModel;

    open spec fn deep_view(&self) -> RepxConfigModel {
        RepxConfigModel {
            project: self.project@,
            image: self.image@,
            targets: self.targets.deep_view(),
            extra: self.extra.deep_view(),
            rust_channel: self.rust_channel@,
            rust_version: self.rust_version@,
            nixpkgs_url: self.nixpkgs_url@,
        }
    }
}

/// The project of a configuration that names none: the current directory.
pub fn default_project() -> (r: String)
    ensures
        r@ == "."@,
{
    String::from_str(".")
}

/// The image of a configuration that names none.
pub fn default_image() -> (r: String)
    ensures
        r@ == "nixos/nix:latest"@,
{
    String::from_str("nixos/nix:latest")
}

/// The toolchain channel of a configuration that names none.
pub fn default_rust_channel() -> (r: String)
    ensures
        r@ == "stable"@,
{
    String::from_str("stable")
}

/// The toolchain version of a configuration that names none.
pub fn default_rust_version() -> (r: String)
    ensures
        r@ == "latest"@,
{
    String::from_str("latest")
}

/// The package collection of a configuration that names none.
pub fn default_nixpkgs_url() -> (r: String)
    ensures
        r@ == "github:NixOS/nixpkgs/nixos-unstable"@,
{
    String::from_str("github:NixOS/nixpkgs/nixos-unstable")
}

impl RepxConfigModel {
    /// The configuration that names nothing.
    pub open spec fn initial() -> Self {
        RepxConfigModel {
            project: "."@,
            image: "nixos/nix:latest"@,
            targets: None,
            extra: Seq::empty(),
            rust_channel: "stable"@,
            rust_version: "latest"@,
            nixpkgs_url: "github:NixOS/nixpkgs/nixos-unstable"@,
        }
    }

    /// The configuration with what `args` names in place of its own.
    pub open spec fn merged(self, args: BuildArgsModel) -> Self {
        RepxConfigModel {
            project: match args.project {
                Some(p) => p,
                None => self.project,
            },
            image: match args.image {
                Some(i) => i,
                None => self.image,
            },
            targets: match args.targets {
                Some(t) => Some(t),
                None => self.targets,
            },
            extra: match args.extra {
                Some(e) => e,
                None => self.extra,
            },
            rust_channel: match args.rust_channel {
                Some(c) => c,
                None => self.rust_channel,
            },
            rust_version: match args.rust_version {
                Some(v) => v,
                None => self.rust_version,
            },
            nixpkgs_url: match args.nixpkgs_url {
                Some(u) => u,
                None => self.nixpkgs_url,
            },
        }
    }
}

impl Default for RepxConfig {
    fn default() -> (r: Self)
        ensures
            r.deep_view() == RepxConfigModel::initial(),
    {
        let extra: Vec<String> = Vec::new();
        assert(extra.deep_view() =~= Seq::<Seq<char>>::empty());
        RepxConfig {
            project: default_project(),
            image: default_image(),
            targets: None,
            extra,
            rust_channel: default_rust_channel(),
            rust_version: default_rust_version(),
            nixpkgs_url: default_nixpkgs_url(),
        }
    }
}

impl RepxConfig {
    /// Where the configuration file lies unless another is named.
    pub fn default_config_path() -> (r: &'static str)
        ensures
            r@ == "repx.toml"@,
    {
        "repx.toml"
    }
}

/// What the command line names for a build; what it does not name is left
/// to the configuration.
#[derive(Debug, Clone)]
pub struct BuildArgs {
    pub project: Option<String>,
    pub image: Option<String>,
    pub targets: Option<String>,
    pub extra: Option<Vec<String>>,
    pub rust_channel: Option<String>,
    pub rust_version: Option<String>,
    pub nixpkgs_url: Option<String>,
}

/// What a `BuildArgs` is, to a contract.
pub struct BuildArgsModel {
    pub project: Option<Seq<char>>,
    pub image: Option<Seq<char>>,
    pub targets: Option<Seq<char>>,
    pub extra: Option<Seq<Seq<char>>>,
    pub rust_channel: Option<Seq<char>>,
    pub rust_version: Option<Seq<char>>,
    pub nixpkgs_url: Option<Seq<char>>,
}

impl DeepView for BuildArgs {
    type V = BuildArgsModel;

    open spec fn deep_view(&self) -> BuildArgsModel {
        BuildArgsModel {
            project: self.project.deep_view(),
            image: self.image.deep_view(),
            targets: self.targets.deep_view(),
            extra: self.extra.deep_view(),
            rust_channel: self.rust_channel.deep_view(),
            rust_version: self.rust_version.deep_view(),
            nixpkgs_url: self.nixpkgs_url.deep_view(),
        }
    }
}

fn pick(over: &Option<String>, base: String) -> (r: String)
    ensures
        r@ == (match over.deep_view() {
            Some(o) => o,
            None => base@,
        }),
{
    match over {
        Some(o) => o.clone(),
        None => base,
    }
}

/// The configuration with what the command line names in place of its own.
pub fn merge_config_with_args(config: RepxConfig, args: &BuildArgs) -> (r: RepxConfig)
    ensures
        r.deep_view() == config.deep_view().merged(args.deep_view()),
{
    RepxConfig {
        project: pick(&args.project, config.project),
        image: pick(&args.image, config.image),
        targets: match &args.targets {
            Some(t) => Some(t.clone()),
            None => config.targets,
        },
        extra: match &args.extra {
            Some(e) => copy_texts(e),
            None => config.extra,
        },
        rust_channel: pick(&args.rust_channel, config.rust_channel),
        rust_version: pick(&args.rust_version, config.rust_version),
        nixpkgs_url: pick(&args.nixpkgs_url, config.nixpkgs_url),
    }
}

// ---------------------------------------------------------------------------
// Where the configuration comes from
// ---------------------------------------------------------------------------

/// Where a build takes its configuration from.
#[derive(Debug)]
pub enum ConfigSource {
    /// The file at this path.
    File(String),
    /// Nowhere: the file that was asked for is not there.
    Missing(String),
    /// The configuration that names nothing.
    Initial,
}

/// What a `ConfigSource` is, to a contract.
pub enum ConfigSourceModel {
    File(Seq<char>),
    Missing(Seq<char>),
    Initial,
}

impl DeepView for ConfigSource {
    type V = ConfigSourceModel;

    open spec fn deep_view(&self) -> ConfigSourceModel {
        match self {
            ConfigSource::File(p) => ConfigSourceModel::File(p@),
            ConfigSource::Missing(p) => ConfigSourceModel::Missing(p@),
            ConfigSource::Initial => ConfigSourceModel::Initial,
        }
    }
}

/// The path of the configuration file: the one asked for, or the usual one.
pub open spec fn config_path_of(asked: Option<Seq<char>>) -> Seq<char> {
    match asked {
        Some(p) => p,
        None => "repx.toml"@,
    }
}

/// Where the configuration comes from: the file, where it is there; no
/// configuration at all where a file was asked for and is not there; the
/// configuration that names nothing where none was asked for and the usual
/// one is not there.
pub open spec fn config_source_of(asked: Option<Seq<char>>, present: bool) -> ConfigSourceModel {
    if present {
        ConfigSourceModel::File(config_path_of(asked))
    } else if asked is Some {
        ConfigSourceModel::Missing(config_path_of(asked))
    } else {
        ConfigSourceModel::Initial
    }
}

/// The path at which to look for the configuration file.
pub fn config_path(asked: &Option<String>) -> (r: String)
    ensures
        r@ == config_path_of(asked.deep_view()),
{
    match asked {
        Some(p) => p.clone(),
        None => String::from_str("repx.toml"),
    }
}

/// Decides where the configuration comes from; `present` says whether
/// there is a file at `config_path(asked)`.
pub fn config_source(asked: &Option<String>, present: bool) -> (r: ConfigSource)
    ensures
        r.deep_view() == config_source_of(asked.deep_view(), present),
{
    if present {
        ConfigSource::File(config_path(asked))
    } else if asked.is_some() {
        ConfigSource::Missing(config_path(asked))
    } else {
        ConfigSource::Initial
    }
}

/// The failure of a build whose configuration file is missing.
pub fn missing_config_message(path: &str) -> (r: String)
    ensures
        r@ == "Configuration file '"@ + path@ + "' not found"@,
{
    let mut r = String::from_str("Configuration file '");
    r.append(path);
    r.append("' not found");
    r
}

/// Whether a new configuration file is to be written: always where there
/// is none, and over one that is there only when forced.
pub fn should_write_config(present: bool, force: bool) -> (write: bool)
    ensures
        write == (!present || force),
{
    !present || force
}

/// What the user is told after the build's directories were cleaned.
pub open spec fn clean_notice(target_removed: bool, metadata_removed: bool) -> NoticeModel {
    if target_removed && metadata_removed {
        NoticeModel { level: Level::Success, text: "Cleaned directories: target/, .repx/"@ }
    } else if target_removed {
        NoticeModel { level: Level::Success, text: "Cleaned directories: target/"@ }
    } else if metadata_removed {
        NoticeModel { level: Level::Success, text: "Cleaned directories: .repx/"@ }
    } else {
        NoticeModel { level: Level::Warning, text: "No directories to clean."@ }
    }
}

/// What the user is told after the build's directories were cleaned.
pub fn cleaning_notice(target_removed: bool, metadata_removed: bool) -> (r: Notice)
    ensures
        r.deep_view() == clean_notice(target_removed, metadata_removed),
{
    if target_removed && metadata_removed {
        Notice {
            level: Level::Success,
            text: String::from_str("Cleaned directories: target/, .repx/"),
        }
    } else if target_removed {
        Notice { level: Level::Success, text: String::from_str("Cleaned directories: target/") }
    } else if metadata_removed {
        Notice { level: Level::Success, text: String::from_str("Cleaned directories: .repx/") }
    } else {
        Notice { level: Level::Warning, text: String::from_str("No directories to clean.") }
    }
}

// ---------------------------------------------------------------------------
// Lists in one text
// ---------------------------------------------------------------------------

/// The targets that `list` names: its pieces between commas, as they are.
pub fn split_targets(list: &str) -> (r: Vec<String>)
    ensures
        r.deep_view() == split(list@, ','),
{
    split_on(list, ',')
}

/// The pieces of `pieces` that are not empty once trimmed, each trimmed,
/// in order.
pub open spec fn trimmed_entries(pieces: Seq<Seq<char>>) -> Seq<Seq<char>>
    decreases pieces.len(),
{
    if pieces.len() == 0 {
        Seq::empty()
    } else if trimmed(pieces.last()).len() > 0 {
        trimmed_entries(pieces.drop_last()).push(trimmed(pieces.last()))
    } else {
        trimmed_entries(pieces.drop_last())
    }
}

/// The packages that `list` names: its pieces between commas, trimmed,
/// without the empty ones.
pub open spec fn package_list(list: Seq<char>) -> Seq<Seq<char>> {
    trimmed_entries(split(list, ','))
}

fn keep_trimmed(pieces: &Vec<String>, out: &mut Vec<String>)
    ensures
        final(out).deep_view() == old(out).deep_view() + trimmed_entries(pieces.deep_view()),
{
    let mut i: usize = 0;
    assert(pieces.deep_view().take(0) =~= Seq::<Seq<char>>::empty());
    assert(out.deep_view() + trimmed_entries(pieces.deep_view().take(0)) =~= out.deep_view());
    while i < pieces.len()
        invariant
            i <= pieces.len(),
            out.deep_view() == old(out).deep_view() + trimmed_entries(
                pieces.deep_view().take(i as int),
            ),
        decreases pieces.len() - i,
    {
        let ghost now = pieces.deep_view().take(i + 1);
        assert(now.drop_last() =~= pieces.deep_view().take(i as int));
        assert(now.last() == pieces@[i as int]@);
        let t = trim(pieces[i].as_str());
        if t.as_str().unicode_len() > 0 {
            let ghost before = *out;
            out.push(t);
            proof {
                lemma_deep_view_push(before, *out, t);
                assert(old(out).deep_view() + trimmed_entries(now.drop_last()).push(t@) =~= (old(
                    out,
                ).deep_view() + trimmed_entries(now.drop_last())).push(t@));
            }
        }
        i += 1;
    }
    assert(pieces.deep_view().take(pieces.len() as int) =~= pieces.deep_view());
}

/// The packages that `list` names.
pub fn parse_package_list(list: &str) -> (r: Vec<String>)
    ensures
        r.deep_view() == package_list(list@),
{
    let pieces = split_on(list, ',');
    let mut out: Vec<String> = Vec::new();
    assert(out.deep_view() =~= Seq::<Seq<char>>::empty());
    keep_trimmed(&pieces, &mut out);
    assert(Seq::<Seq<char>>::empty() + package_list(list@) =~= package_list(list@));
    out
}

/// The prefix of a variable that names one extra package.
pub open spec fn package_variable_prefix() -> Seq<char> {
    "REPRO_BUILD_EXTRA_PACKAGE_"@
}

/// The values of the variables among `vars` that name one extra package
/// each, in order.
pub open spec fn package_values(vars: Seq<(Seq<char>, Seq<char>)>) -> Seq<Seq<char>>
    decreases vars.len(),
{
    if vars.len() == 0 {
        Seq::empty()
    } else if starts_with_text(vars.last().0, package_variable_prefix()) {
        package_values(vars.drop_last()).push(vars.last().1)
    } else {
        package_values(vars.drop_last())
    }
}

/// The extra packages that the environment names: those of the list, then
/// those of the variables that name one each; all trimmed, none empty.
pub open spec fn extra_packages(list: Option<Seq<char>>, vars: Seq<(Seq<char>, Seq<char>)>) -> Seq<
    Seq<char>,
> {
    (match list {
        Some(l) => package_list(l),
        None => Seq::empty(),
    }) + trimmed_entries(package_values(vars))
}

/// The extra packages that the environment names. `list` is the value of
/// the variable that holds a list of them, if it is set; `vars` are all
/// the variables, each with its value.
pub fn parse_extra_packages_from_env(list: &Option<String>, vars: &Vec<(String, String)>) -> (r:
    Vec<String>)
    ensures
        r.deep_view() == extra_packages(list.deep_view(), vars.deep_view()),
{
    let mut out: Vec<String> = match list {
        Some(l) => parse_package_list(l.as_str()),
        None => {
            let v: Vec<String> = Vec::new();
            assert(v.deep_view() =~= Seq::<Seq<char>>::empty());
            v
        },
    };
    let mut values: Vec<String> = Vec::new();
    let mut i: usize = 0;
    assert(values.deep_view() =~= Seq::<Seq<char>>::empty());
    assert(vars.deep_view().take(0) =~= Seq::<(Seq<char>, Seq<char>)>::empty());
    while i < vars.len()
        invariant
            i <= vars.len(),
            values.deep_view() == package_values(vars.deep_view().take(i as int)),
        decreases vars.len() - i,
    {
        let ghost now = vars.deep_view().take(i + 1);
        assert(now.drop_last() =~= vars.deep_view().take(i as int));
        assert(now.last() == (vars@[i as int].0@, vars@[i as int].1@));
        if starts_with(vars[i].0.as_str(), "REPRO_BUILD_EXTRA_PACKAGE_") {
            let v = vars[i].1.clone();
            let ghost before = values;
            values.push(v);
            proof {
                lemma_deep_view_push(before, values, v);
            }
        }
        i += 1;
    }
    assert(vars.deep_view().take(vars.len() as int) =~= vars.deep_view());
    keep_trimmed(&values, &mut out);
    out
}

// ---------------------------------------------------------------------------
// Extra inputs
// ---------------------------------------------------------------------------

/// The extra input that `entry` names, in the form of a name, an equals
/// sign and a source: the name is what stands before the first equals
/// sign, the source what stands after it. An entry without an equals sign,
/// or with nothing on one side of the first, names none.
pub open spec fn extra_input_of(entry: Seq<char>) -> Option<ExtraInputModel> {
    let n = first_index_of(entry, '=');
    if 0 < n < entry.len() - 1 {
        Some(ExtraInputModel { name: entry.take(n), url: entry.skip(n + 1) })
    } else {
        None
    }
}

/// The extra input that `entry` names, if it names one.
pub fn parse_extra_input(entry: &str) -> (r: Option<ExtraInput>)
    ensures
        r.deep_view() == extra_input_of(entry@),
{
    let v = chars_of(entry);
    let mut n: usize = 0;
    while n < v.len() && v[n] != '='
        invariant
            n <= v.len(),
            forall|j: int| 0 <= j < n ==> v@[j] != '=',
        decreases v.len() - n,
    {
        n += 1;
    }
    proof {
        lemma_first_index_of(v@, '=', n as int);
    }
    if 0 < n && n < v.len() && n < v.len() - 1 {
        let name = text_of(&v, 0, n);
        let url = text_of(&v, n + 1, v.len());
        assert(v@.subrange(0, n as int) =~= v@.take(n as int));
        assert(v@.subrange(n + 1, v.len() as int) =~= v@.skip(n + 1));
        Some(ExtraInput { name, url })
    } else {
        None
    }
}

/// The extra inputs that `entries` name, in order; or the position of the
/// first entry that names none.
pub fn parse_extra_inputs(entries: &Vec<String>) -> (r: Result<Vec<ExtraInput>, usize>)
    ensures
        match r {
            Ok(inputs) => inputs.len() == entries.len() && forall|i: int|
                0 <= i < entries.len() ==> extra_input_of(entries[i]@) == Some(
                    (#[trigger] inputs[i]).deep_view(),
                ),
            Err(k) => k < entries.len() && extra_input_of(entries[k as int]@) is None && forall|
                i: int,
            |
                0 <= i < k ==> (#[trigger] extra_input_of(entries[i]@)) is Some,
        },
{
    let mut out: Vec<ExtraInput> = Vec::new();
    let mut i: usize = 0;
    while i < entries.len()
        invariant
            i <= entries.len(),
            out.len() == i,
            forall|j: int|
                0 <= j < i ==> extra_input_of(entries[j]@) == Some(
                    (#[trigger] out[j]).deep_view(),
                ),
            forall|j: int| 0 <= j < i ==> (#[trigger] extra_input_of(entries[j]@)) is Some,
        decreases entries.len() - i,
    {
        match parse_extra_input(entries[i].as_str()) {
            Some(input) => {
                out.push(input);
            },
            None => {
                return Err(i);
            },
        }
        i += 1;
    }
    Ok(out)
}

/// The failure of a build that was given an entry that names no extra
/// input.
pub fn invalid_extra_input_message(entry: &str) -> (r: String)
    ensures
        r@ == "Invalid extra input '"@ + entry@
            + "': a name, an equals sign and a source are expected"@,
{
    let mut r = String::from_str("Invalid extra input '");
    r.append(entry);
    r.append("': a name, an equals sign and a source are expected");
    r
}

// ---------------------------------------------------------------------------
// A build from a build script
// ---------------------------------------------------------------------------

/// What a build that is started from a build script is configured with.
#[derive(Debug)]
pub struct BuildScriptSettings {
    pub image: String,
    pub targets: Vec<String>,
    pub rust_channel: String,
    pub rust_version: String,
    pub nixpkgs_url: String,
    /// Whether the artifacts are to be copied to the script's output
    /// directory after the build.
    pub copy_to_out_dir: bool,
}

/// What a `BuildScriptSettings` is, to a contract.
pub struct BuildScriptSettingsModel {
    pub image: Seq<char>,
    pub targets: Seq<Seq<char>>,
    pub rust_channel: Seq<char>,
    pub rust_version: Seq<char>,
    pub nixpkgs_url: Seq<char>,
    pub copy_to_out_dir: bool,
}

impl DeepView for BuildScriptSettings {
    type V = BuildScriptSettingsModel;

    open spec fn deep_view(&self) -> BuildScriptSettingsModel {
        BuildScriptSettingsModel {
            image: self.image@,
            targets: self.targets.deep_view(),
            rust_channel: self.rust_channel@,
            rust_version: self.rust_version@,
            nixpkgs_url: self.nixpkgs_url@,
            copy_to_out_dir: self.copy_to_out_dir,
        }
    }
}

/// `value`, or `fallback` where there is none.
pub open spec fn or_default(value: Option<Seq<char>>, fallback: Seq<char>) -> Seq<char> {
    match value {
        Some(v) => v,
        None => fallback,
    }
}

/// The settings of a build that is started from a build script: each from
/// its variable where that is set, else the usual one. The variable of
/// the targets holds a list separated by commas; the artifacts are copied
/// only where the variable for that is set to `true`.
pub open spec fn build_script_settings(
    image: Option<Seq<char>>,
    targets: Option<Seq<char>>,
    rust_channel: Option<Seq<char>>,
    rust_version: Option<Seq<char>>,
    nixpkgs_url: Option<Seq<char>>,
    copy_to_out_dir: Option<Seq<char>>,
) -> BuildScriptSettingsModel {
    BuildScriptSettingsModel {
        image: or_default(image, "nixos/nix:latest"@),
        targets: split(or_default(targets, "x86_64-linux-gnu"@), ','),
        rust_channel: or_default(rust_channel, "stable"@),
        rust_version: or_default(rust_version, "latest"@),
        nixpkgs_url: or_default(nixpkgs_url, "github:NixOS/nixpkgs/nixos-unstable"@),
        copy_to_out_dir: copy_to_out_dir == Some("true"@),
    }
}

fn value_or(value: &Option<String>, fallback: &str) -> (r: String)
    ensures
        r@ == or_default(value.deep_view(), fallback@),
{
    match value {
        Some(v) => v.clone(),
        None => copy_text(fallback),
    }
}

/// The settings of a build that is started from a build script, from the
/// values of its variables.
pub fn run_build(
    image: &Option<String>,
    targets: &Option<String>,
    rust_channel: &Option<String>,
    rust_version: &Option<String>,
    nixpkgs_url: &Option<String>,
    copy_to_out_dir: &Option<String>,
) -> (r: BuildScriptSettings)
    ensures
        r.deep_view() == build_script_settings(
            image.deep_view(),
            targets.deep_view(),
            rust_channel.deep_view(),
            rust_version.deep_view(),
            nixpkgs_url.deep_view(),
            copy_to_out_dir.deep_view(),
        ),
{
    let list = value_or(targets, "x86_64-linux-gnu");
    BuildScriptSettings {
        image: value_or(image, "nixos/nix:latest"),
        targets: split_on(list.as_str(), ','),
        rust_channel: value_or(rust_channel, "stable"),
        rust_version: value_or(rust_version, "latest"),
        nixpkgs_url: value_or(nixpkgs_url, "github:NixOS/nixpkgs/nixos-unstable"),
        copy_to_out_dir: match copy_to_out_dir {
            Some(v) => same_text(v.as_str(), "true"),
            None => false,
        },
    }
}

} // verus!
