use repx::descriptor::{
    check_flake_changes, check_lock_changes, drift, files_differ, finish_descriptor,
    generate_flake_file, reconcile_descriptor, resolve_package, DescriptorError, Drift, Install,
    PackageInfo, GITIGNORE_CONTENT,
};
use repx::report::Level;
use repx::{ExtraInput, FLAKE_TEMPLATE};

fn package(id: &str, name: &str, version: &str) -> PackageInfo {
    PackageInfo { id: id.to_string(), name: name.to_string(), version: version.to_string() }
}

fn project() -> (Vec<PackageInfo>, Vec<String>) {
    (
        vec![
            package("dep 1.0 (registry)", "dep", "1.0.0"),
            package("demo 0.3.1 (path+file:///work/demo)", "demo", "0.3.1"),
        ],
        vec!["demo 0.3.1 (path+file:///work/demo)".to_string()],
    )
}

fn generate(
    inputs: &Vec<ExtraInput>,
    channel: &str,
    version: &str,
) -> Result<String, DescriptorError> {
    let (packages, members) = project();
    generate_flake_file(
        &packages,
        &members,
        inputs,
        channel,
        version,
        "github:NixOS/nixpkgs/nixos-unstable",
    )
}

#[test]
fn test_flake_generation_without_musl_override() {
    let (packages, members) = project();
    let extra_inputs = vec![];
    let content = generate_flake_file(
        &packages,
        &members,
        &extra_inputs,
        "stable",
        "latest",
        "github:NixOS/nixpkgs/nixos-unstable",
    )
    .unwrap();

    assert!(!content.contains("musl = prev.musl.overrideAttrs"));
    assert!(content.contains("x86_64-linux-musl"));
    assert!(content.contains("aarch64-linux-musl"));
}

#[test]
fn the_description_names_the_project_and_its_parameters() {
    let (packages, members) = project();
    let content = generate_flake_file(
        &packages,
        &members,
        &Vec::new(),
        "nightly",
        "2024-05-01",
        "github:NixOS/nixpkgs/abc123",
    )
    .unwrap();
    assert!(content.contains("description = \"Reproducible build of demo 0.3.1\";"));
    assert!(content.contains("nixpkgs.url = \"github:NixOS/nixpkgs/abc123\";"));
    assert!(content.contains("pname = \"demo\";"));
    assert!(content.contains("version = \"0.3.1\";"));
    assert!(content.contains("p.rust-bin.nightly.\"2024-05-01\".minimal.override"));
    assert!(!content.contains("{{"));
    assert!(!content.contains("{%"));
    assert!(!content.contains("dep"));
}

#[test]
fn the_latest_toolchain_is_named_without_quotes() {
    let content = generate(&Vec::new(), "stable", "latest").unwrap();
    assert!(content.contains("p.rust-bin.stable.latest.minimal.override"));
}

#[test]
fn the_description_names_every_available_target() {
    let content = generate(&Vec::new(), "stable", "latest").unwrap();
    for target in repx::targets::available_targets() {
        assert!(content.contains(&format!("\"{}\" = {{", target)), "{}", target);
    }
}

#[test]
fn extra_inputs_are_rendered_in_order() {
    let inputs = vec![
        ExtraInput { name: "fenix".to_string(), url: "github:nix-community/fenix".to_string() },
        ExtraInput { name: "naersk".to_string(), url: "github:nix-community/naersk".to_string() },
    ];
    let content = generate(&inputs, "stable", "latest").unwrap();
    let first = content.find("fenix.url = \"github:nix-community/fenix\";").unwrap();
    let second = content.find("naersk.url = \"github:nix-community/naersk\";").unwrap();
    assert!(first < second);
    assert!(content.contains("inputs.fenix.packages.${system}.default"));
    assert!(content.contains("inputs.naersk.packages.${system}.default"));
    let without = generate(&Vec::new(), "stable", "latest").unwrap();
    assert!(!without.contains("fenix"));
}

#[test]
fn generation_is_deterministic() {
    let inputs = vec![ExtraInput { name: "a".to_string(), url: "u".to_string() }];
    let first = generate(&inputs, "stable", "latest").unwrap();
    let second = generate(&inputs, "stable", "latest").unwrap();
    assert_eq!(first, second);
    assert_eq!(first.as_bytes(), second.as_bytes());
}

#[test]
fn the_description_has_only_line_feeds() {
    let content = generate(&Vec::new(), "stable", "latest").unwrap();
    assert!(!content.contains('\r'));
    assert!(content.ends_with("}\n"));
}

#[test]
fn a_project_without_identity_is_a_metadata_error() {
    let (packages, _) = project();
    let none: Vec<String> = Vec::new();
    let r = generate_flake_file(&packages, &none, &Vec::new(), "stable", "latest", "url");
    assert!(matches!(r, Err(DescriptorError::Metadata)));
    assert_eq!(r.err().unwrap().message(), "Could not find package in metadata");

    let other = vec!["other 1.0".to_string()];
    let r = generate_flake_file(&packages, &other, &Vec::new(), "stable", "latest", "url");
    assert!(matches!(r, Err(DescriptorError::Metadata)));

    let r = generate_flake_file(&Vec::new(), &other, &Vec::new(), "stable", "latest", "url");
    assert!(matches!(r, Err(DescriptorError::Metadata)));
}

#[test]
fn the_project_is_the_package_of_the_first_member() {
    let packages = vec![
        package("a", "first", "1"),
        package("b", "second", "2"),
        package("a", "shadowed", "3"),
    ];
    assert_eq!(resolve_package(&packages, &vec!["a".to_string(), "b".to_string()]), Some(0));
    assert_eq!(resolve_package(&packages, &vec!["b".to_string(), "a".to_string()]), Some(1));
    assert_eq!(resolve_package(&packages, &vec!["c".to_string(), "a".to_string()]), None);
    assert_eq!(resolve_package(&packages, &Vec::new()), None);
    let r = generate_flake_file(&packages, &vec!["b".to_string()], &Vec::new(), "s", "v", "u");
    let content = r.unwrap();
    assert!(content.contains("pname = \"second\";"));
    assert!(content.contains("version = \"2\";"));
    assert!(!content.contains("first"));
}

#[test]
fn finishing_normalizes_or_passes_the_error_on() {
    assert_eq!(finish_descriptor(Ok("a\r\nb\r".to_string())).unwrap(), "a\nb\n");
    match finish_descriptor(Err("bad template".to_string())) {
        Err(DescriptorError::Template(text)) => assert_eq!(text, "bad template"),
        _ => panic!("a template error was expected"),
    }
}

#[test]
fn files_differ_by_more_than_line_endings() {
    assert!(!files_differ("a\nb\n", "a\r\nb\r\n"));
    assert!(!files_differ("a\rb", "a\nb"));
    assert!(!files_differ("", ""));
    assert!(files_differ("a\nb\n", "a\nb"));
    assert!(files_differ("a\n\nb", "a\r\nb"));
    assert!(files_differ("a", "b"));
}

#[test]
fn drift_of_a_description() {
    assert_eq!(drift(&None, "x"), Drift::Absent);
    assert_eq!(drift(&Some("x\r\n".to_string()), "x\n"), Drift::Matches);
    assert_eq!(drift(&Some("y\n".to_string()), "x\n"), Drift::Differs);
}

#[test]
fn a_matching_description_leaves_the_copy_in_place_untouched() {
    let (install, message) = reconcile_descriptor(
        "/p/.repx/flake.nix.new",
        "/p/.repx/flake.nix",
        &Some("{ }\r\n".to_string()),
        "{ }\n",
    );
    assert_eq!(install, Install::Discard);
    assert_eq!(message, "Using existing flake.nix at /p/.repx/flake.nix");
}

#[test]
fn a_different_description_replaces_the_copy_in_place() {
    let (install, message) = reconcile_descriptor(
        "/p/.repx/flake.nix.new",
        "/p/.repx/flake.nix",
        &Some("{ old }\n".to_string()),
        "{ new }\n",
    );
    assert_eq!(install, Install::Replace);
    assert_eq!(
        message,
        "Updated flake.nix at /p/.repx/flake.nix from /p/.repx/flake.nix.new"
    );
}

#[test]
fn a_first_description_is_installed() {
    let (install, message) =
        reconcile_descriptor("/p/.repx/flake.nix.new", "/p/.repx/flake.nix", &None, "{ new }\n");
    assert_eq!(install, Install::Replace);
    assert_eq!(
        message,
        "Updated flake.nix at /p/.repx/flake.nix from /p/.repx/flake.nix.new"
    );
}

#[test]
fn what_the_user_is_told_of_a_description() {
    let told = check_flake_changes("new.nix", "flake.nix", &None, "x");
    assert_eq!(told.len(), 1);
    assert_eq!(told[0].level, Level::Success);
    assert_eq!(told[0].text, "No existing flake.nix found at flake.nix, using generated one.");

    let told = check_flake_changes("new.nix", "flake.nix", &Some("x".to_string()), "x");
    assert_eq!(told.len(), 1);
    assert_eq!(told[0].level, Level::Success);
    assert_eq!(told[0].text, "Generated flake.nix matches existing configuration.");

    let told = check_flake_changes("new.nix", "flake.nix", &Some("y".to_string()), "x");
    let texts: Vec<(Level, String)> = told.into_iter().map(|n| (n.level, n.text)).collect();
    assert_eq!(
        texts,
        vec![
            (Level::Warning, "Generated flake.nix differs from existing flake.nix".to_string()),
            (Level::Warning, "Differences detected in flake configuration.".to_string()),
            (
                Level::Info,
                "Consider reviewing the changes and updating your flake.nix if needed."
                    .to_string()
            ),
            (Level::Info, "Generated flake.nix is available at: new.nix".to_string()),
        ]
    );
}

#[test]
fn what_the_user_is_told_of_the_lock_file() {
    assert!(check_lock_changes("flake.lock", &None, &Some("x".to_string())).is_empty());
    assert!(check_lock_changes("flake.lock", &Some("x".to_string()), &None).is_empty());
    assert!(check_lock_changes("flake.lock", &None, &None).is_empty());

    let told = check_lock_changes("flake.lock", &Some("x\n".to_string()), &Some("x\r\n".to_string()));
    assert_eq!(told.len(), 1);
    assert_eq!(told[0].level, Level::Success);
    assert_eq!(told[0].text, "flake.lock is up to date.");

    let told = check_lock_changes("flake.lock", &Some("x".to_string()), &Some("y".to_string()));
    let texts: Vec<(Level, String)> = told.into_iter().map(|n| (n.level, n.text)).collect();
    assert_eq!(
        texts,
        vec![
            (Level::Warning, "Generated flake.lock differs from existing flake.lock".to_string()),
            (Level::Warning, "Lock file changes detected.".to_string()),
            (
                Level::Info,
                "This might indicate dependency updates or changes in flake inputs.".to_string()
            ),
            (Level::Info, "Consider reviewing the lock file changes.".to_string()),
        ]
    );
}

#[test]
fn the_ignore_file_keeps_logs_out() {
    assert_eq!(GITIGNORE_CONTENT, "# Ignore log files and directories\nlogs/\n*.log\n");
}

#[test]
fn the_description_begins_with_what_it_was_given() {
    let inputs = vec![ExtraInput { name: "a".to_string(), url: "u".to_string() }];
    let content = generate(&inputs, "stable", "1.75.0").unwrap();
    assert!(content.starts_with(
        "{\n  description = \"Reproducible build of demo 0.3.1\";\n\n  inputs = {\n    nixpkgs.url = \"github:NixOS/nixpkgs/nixos-unstable\";\n"
    ));
    assert!(content.contains("    crane.url = \"github:ipetkov/crane\";\n    a.url = \"u\";\n  };\n"));
    assert_ne!(content, FLAKE_TEMPLATE);
}

#[test]
fn the_template_calls_nothing_and_computes_nothing() {
    let mut rest = FLAKE_TEMPLATE;
    let mut tags = 0;
    while let Some(start) = rest.find("{%").into_iter().chain(rest.find("{{")).min() {
        let close = if rest[start..].starts_with("{%") { "%}" } else { "}}" };
        let end = start + rest[start..].find(close).unwrap();
        let inner = rest[start + 2..end].trim_matches('-').trim();
        assert!(
            inner.chars().all(|c| c.is_ascii_alphabetic() || " _.=\"".contains(c)),
            "{:?}",
            inner
        );
        let first = inner.split(' ').next().unwrap();
        if close == "%}" {
            assert!(["for", "endfor", "if", "else", "endif"].contains(&first), "{:?}", inner);
        }
        tags += 1;
        rest = &rest[end + 2..];
    }
    assert!(tags > 10);
    assert!(!FLAKE_TEMPLATE.contains("{#"));
}
