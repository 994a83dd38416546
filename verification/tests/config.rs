use repx::config::{
    cleaning_notice, config_path, default_image, default_nixpkgs_url, default_project,
    default_rust_channel, default_rust_version, should_write_config, invalid_extra_input_message,
    config_source, merge_config_with_args, missing_config_message, parse_extra_input,
    parse_extra_inputs, parse_extra_packages_from_env, parse_package_list, run_build,
    split_targets, BuildArgs, ConfigSource,
};
use repx::report::Level;
use repx::RepxConfig;

fn no_args() -> BuildArgs {
    BuildArgs {
        project: None,
        image: None,
        targets: None,
        extra: None,
        rust_channel: None,
        rust_version: None,
        nixpkgs_url: None,
    }
}

fn some(s: &str) -> Option<String> {
    Some(s.to_string())
}

#[test]
fn the_defaults() {
    assert_eq!(default_project(), ".");
    assert_eq!(default_image(), "nixos/nix:latest");
    assert_eq!(default_rust_channel(), "stable");
    assert_eq!(default_rust_version(), "latest");
    assert_eq!(default_nixpkgs_url(), "github:NixOS/nixpkgs/nixos-unstable");
    let c = RepxConfig::default();
    assert_eq!(c.project, ".");
    assert_eq!(c.image, "nixos/nix:latest");
    assert_eq!(c.targets, None);
    assert!(c.extra.is_empty());
    assert_eq!(c.rust_channel, "stable");
    assert_eq!(c.rust_version, "latest");
    assert_eq!(c.nixpkgs_url, "github:NixOS/nixpkgs/nixos-unstable");
    assert_eq!(RepxConfig::default_config_path(), "repx.toml");
}

#[test]
fn arguments_that_name_nothing_change_nothing() {
    let mut c = RepxConfig::default();
    c.targets = some("x86_64-linux-musl");
    c.extra = vec!["a=b".to_string()];
    let merged = merge_config_with_args(c.clone(), &no_args());
    assert_eq!(merged.project, c.project);
    assert_eq!(merged.image, c.image);
    assert_eq!(merged.targets, c.targets);
    assert_eq!(merged.extra, c.extra);
    assert_eq!(merged.rust_channel, c.rust_channel);
    assert_eq!(merged.rust_version, c.rust_version);
    assert_eq!(merged.nixpkgs_url, c.nixpkgs_url);
}

#[test]
fn arguments_take_the_place_of_the_configuration() {
    let mut c = RepxConfig::default();
    c.targets = some("x86_64-linux-musl");
    c.extra = vec!["a=b".to_string()];
    let args = BuildArgs {
        project: some("/work/demo"),
        image: some("nixos/nix:2.18.1"),
        targets: some("aarch64-linux-gnu,x86_64-linux-gnu"),
        extra: Some(vec![]),
        rust_channel: some("nightly"),
        rust_version: some("1.75.0"),
        nixpkgs_url: some("github:NixOS/nixpkgs/abc"),
    };
    let merged = merge_config_with_args(c, &args);
    assert_eq!(merged.project, "/work/demo");
    assert_eq!(merged.image, "nixos/nix:2.18.1");
    assert_eq!(merged.targets, some("aarch64-linux-gnu,x86_64-linux-gnu"));
    assert!(merged.extra.is_empty());
    assert_eq!(merged.rust_channel, "nightly");
    assert_eq!(merged.rust_version, "1.75.0");
    assert_eq!(merged.nixpkgs_url, "github:NixOS/nixpkgs/abc");

    let mut only_image = no_args();
    only_image.image = some("img");
    let merged = merge_config_with_args(RepxConfig::default(), &only_image);
    assert_eq!(merged.image, "img");
    assert_eq!(merged.project, ".");
    assert_eq!(merged.targets, None);
}

#[test]
fn where_the_configuration_comes_from() {
    assert!(matches!(config_source(&None, false), ConfigSource::Initial));
    match config_source(&None, true) {
        ConfigSource::File(p) => assert_eq!(p, "repx.toml"),
        _ => panic!("the usual file was expected"),
    }
    match config_source(&some("custom.toml"), true) {
        ConfigSource::File(p) => assert_eq!(p, "custom.toml"),
        _ => panic!("the file asked for was expected"),
    }
    match config_source(&some("custom.toml"), false) {
        ConfigSource::Missing(p) => {
            assert_eq!(p, "custom.toml");
            assert_eq!(missing_config_message(&p), "Configuration file 'custom.toml' not found");
        }
        _ => panic!("a missing file was expected"),
    }
    assert_eq!(config_path(&None), "repx.toml");
    assert_eq!(config_path(&some("x")), "x");
}

#[test]
fn a_configuration_file_is_only_overwritten_when_forced() {
    assert!(should_write_config(false, false));
    assert!(should_write_config(false, true));
    assert!(should_write_config(true, true));
    assert!(!should_write_config(true, false));
}

#[test]
fn what_is_said_after_cleaning() {
    let n = cleaning_notice(true, true);
    assert_eq!((n.level, n.text.as_str()), (Level::Success, "Cleaned directories: target/, .repx/"));
    let n = cleaning_notice(true, false);
    assert_eq!((n.level, n.text.as_str()), (Level::Success, "Cleaned directories: target/"));
    let n = cleaning_notice(false, true);
    assert_eq!((n.level, n.text.as_str()), (Level::Success, "Cleaned directories: .repx/"));
    let n = cleaning_notice(false, false);
    assert_eq!((n.level, n.text.as_str()), (Level::Warning, "No directories to clean."));
}

#[test]
fn targets_are_split_at_commas_as_they_are() {
    assert_eq!(split_targets("x86_64-linux-gnu"), vec!["x86_64-linux-gnu"]);
    assert_eq!(
        split_targets("x86_64-linux-gnu,aarch64-linux-musl"),
        vec!["x86_64-linux-gnu", "aarch64-linux-musl"]
    );
    assert_eq!(split_targets("a, b,"), vec!["a", " b", ""]);
    assert_eq!(split_targets(""), vec![""]);
}

#[test]
fn a_package_list_is_trimmed_and_loses_its_empty_entries() {
    assert_eq!(parse_package_list("openssl,pkg-config,curl"), vec!["openssl", "pkg-config", "curl"]);
    assert_eq!(parse_package_list(" openssl ,, pkg-config ,\t"), vec!["openssl", "pkg-config"]);
    assert_eq!(parse_package_list(""), Vec::<String>::new());
    assert_eq!(parse_package_list(" , ,"), Vec::<String>::new());
}

#[test]
fn extra_packages_come_from_the_list_and_from_single_variables() {
    let vars = vec![
        ("PATH".to_string(), "/bin".to_string()),
        ("REPRO_BUILD_EXTRA_PACKAGE_1".to_string(), " zlib ".to_string()),
        ("REPRO_BUILD_EXTRA_PACKAGES".to_string(), "openssl,curl".to_string()),
        ("REPRO_BUILD_EXTRA_PACKAGE_2".to_string(), "".to_string()),
        ("REPRO_BUILD_EXTRA_PACKAGE_".to_string(), "cmake".to_string()),
        ("XREPRO_BUILD_EXTRA_PACKAGE_3".to_string(), "no".to_string()),
    ];
    assert_eq!(
        parse_extra_packages_from_env(&some("openssl, curl"), &vars),
        vec!["openssl", "curl", "zlib", "cmake"]
    );
    assert_eq!(parse_extra_packages_from_env(&None, &vars), vec!["zlib", "cmake"]);
    assert_eq!(parse_extra_packages_from_env(&None, &Vec::new()), Vec::<String>::new());
    assert_eq!(parse_extra_packages_from_env(&some("a"), &Vec::new()), vec!["a"]);
}

#[test]
fn an_extra_input_is_a_name_and_a_source() {
    let i = parse_extra_input("fenix=github:nix-community/fenix").unwrap();
    assert_eq!(i.name, "fenix");
    assert_eq!(i.url, "github:nix-community/fenix");
    let i = parse_extra_input("a=b=c").unwrap();
    assert_eq!(i.name, "a");
    assert_eq!(i.url, "b=c");
    assert!(parse_extra_input("openssl").is_none());
    assert!(parse_extra_input("=url").is_none());
    assert!(parse_extra_input("name=").is_none());
    assert!(parse_extra_input("=").is_none());
    assert!(parse_extra_input("").is_none());
}

#[test]
fn extra_inputs_are_parsed_in_order() {
    let entries = vec!["a=1".to_string(), "b=2".to_string()];
    let inputs = parse_extra_inputs(&entries).ok().unwrap();
    assert_eq!(inputs.len(), 2);
    assert_eq!((inputs[0].name.as_str(), inputs[0].url.as_str()), ("a", "1"));
    assert_eq!((inputs[1].name.as_str(), inputs[1].url.as_str()), ("b", "2"));
    assert!(parse_extra_inputs(&Vec::new()).ok().unwrap().is_empty());
    let entries = vec!["a=1".to_string(), "bad".to_string(), "".to_string()];
    assert_eq!(parse_extra_inputs(&entries).err(), Some(1));
    assert_eq!(
        invalid_extra_input_message("bad"),
        "Invalid extra input 'bad': a name, an equals sign and a source are expected"
    );
}

#[test]
fn a_build_script_without_variables_builds_with_the_defaults() {
    let s = run_build(&None, &None, &None, &None, &None, &None);
    assert_eq!(s.image, "nixos/nix:latest");
    assert_eq!(s.targets, vec!["x86_64-linux-gnu"]);
    assert_eq!(s.rust_channel, "stable");
    assert_eq!(s.rust_version, "latest");
    assert_eq!(s.nixpkgs_url, "github:NixOS/nixpkgs/nixos-unstable");
    assert!(!s.copy_to_out_dir);
}

#[test]
fn a_build_script_takes_what_its_variables_name() {
    let s = run_build(
        &some("img"),
        &some("a,b"),
        &some("nightly"),
        &some("1.70.0"),
        &some("url"),
        &some("true"),
    );
    assert_eq!(s.image, "img");
    assert_eq!(s.targets, vec!["a", "b"]);
    assert_eq!(s.rust_channel, "nightly");
    assert_eq!(s.rust_version, "1.70.0");
    assert_eq!(s.nixpkgs_url, "url");
    assert!(s.copy_to_out_dir);
    for other in ["false", "TRUE", "1", "", " true"] {
        assert!(!run_build(&None, &None, &None, &None, &None, &some(other)).copy_to_out_dir);
    }
}
