//! Path traversal safety, duplicate module names, and required-file
//! conflicts.

use yard::builder::check_required_file_conflicts;
use yard::builder::ModuleBuilder;
use yard::error::BuildError;
use yard::error::DeclOrigin;
use yard::paths::check_path_safe;
use yard::paths::validate_path_references;
use yard::source_info::LocalModuleInfo;
use yard::source_info::RemoteModuleInfo;
use yard::source_info::SourceInfoKind;
use yard::yardfile::check_module_names_unique;
use yard::yardfile::RemoteModules;
use yard::yardfile::YardFile;

#[test]
fn traversal_paths_are_always_rejected() {
    // these paths need not exist on disk; the check is purely textual
    assert!(!check_path_safe(".."));
    assert!(!check_path_safe("../etc/passwd"));
    assert!(!check_path_safe("a/../b"));
    assert!(!check_path_safe("a/.."));
    assert!(!check_path_safe("~"));
    assert!(!check_path_safe("~/secrets"));
    assert!(!check_path_safe("/etc/passwd"));
    assert!(!check_path_safe("/"));
    // the other separator spelling and drive prefixes are no escape
    assert!(!check_path_safe("..\\x"));
    assert!(!check_path_safe("a\\..\\b"));
    assert!(!check_path_safe("a/..\\b"));
    assert!(!check_path_safe("\\server\\share"));
    assert!(!check_path_safe("C:\\x"));
    assert!(!check_path_safe("c:/x"));
    assert!(!check_path_safe("~\\secrets"));
}

#[test]
fn ordinary_relative_paths_are_accepted() {
    assert!(check_path_safe("config/app.conf"));
    assert!(check_path_safe("a/b/c.txt"));
    assert!(check_path_safe("..a"));
    assert!(check_path_safe("a..b"));
    assert!(check_path_safe("a/..b/c"));
    assert!(check_path_safe("~x/file"));
    assert!(check_path_safe(""));
    assert!(check_path_safe("1:x"));
    assert!(check_path_safe("a..b\\c"));
}

#[test]
fn path_error_names_the_first_unsafe_path() {
    let files = vec![
        "ok/one".to_string(),
        "../bad".to_string(),
        "/also/bad".to_string(),
    ];
    match validate_path_references(&files).unwrap_err() {
        BuildError::PathTraversalRejected { path } => assert_eq!(path, "../bad"),
        other => panic!("wrong error: {:?}", other),
    }
    assert!(validate_path_references(&vec!["a".to_string(), "b/c".to_string()]).is_ok());
}

fn yard_with(
    locals: &[(&str, &str)],
    remotes: &[(&str, &[(&str, &str)])],
) -> YardFile {
    YardFile {
        input_remotes: remotes
            .iter()
            .map(|(url, mods)| RemoteModules {
                url: url.to_string(),
                commit: "abc123".to_string(),
                name_to_path: mods
                    .iter()
                    .map(|(n, p)| (n.to_string(), p.to_string()))
                    .collect(),
            })
            .collect(),
        input_modules: locals
            .iter()
            .map(|(n, p)| (n.to_string(), p.to_string()))
            .collect(),
        output_container_files: vec![("Containerfile".to_string(), Vec::new())],
        pre_build_hook: None,
        post_build_hook: None,
    }
}

#[test]
fn duplicate_names_local_local() {
    let y = yard_with(&[("m", "a"), ("m", "b")], &[]);
    match check_module_names_unique(&y).unwrap_err() {
        BuildError::DuplicateModuleName { name, first_decl, second_decl } => {
            assert_eq!(name, "m");
            assert_eq!(first_decl, DeclOrigin::Local { path: "a".to_string() });
            assert_eq!(second_decl, DeclOrigin::Local { path: "b".to_string() });
        }
        other => panic!("wrong error: {:?}", other),
    }
}

#[test]
fn duplicate_names_local_remote() {
    let y = yard_with(&[("m", "a")], &[("https://github.com/o/r", &[("m", "mods/m")])]);
    match check_module_names_unique(&y).unwrap_err() {
        BuildError::DuplicateModuleName { name, first_decl, second_decl } => {
            assert_eq!(name, "m");
            assert_eq!(first_decl, DeclOrigin::Local { path: "a".to_string() });
            assert_eq!(
                second_decl,
                DeclOrigin::Remote {
                    url: "https://github.com/o/r".to_string(),
                    commit: "abc123".to_string(),
                    path: "mods/m".to_string(),
                }
            );
        }
        other => panic!("wrong error: {:?}", other),
    }
}

#[test]
fn duplicate_names_remote_remote() {
    let y = yard_with(
        &[],
        &[
            ("https://github.com/o/r1", &[("m", "p1")]),
            ("https://github.com/o/r2", &[("m", "p2")]),
        ],
    );
    assert!(matches!(
        check_module_names_unique(&y).unwrap_err(),
        BuildError::DuplicateModuleName { .. }
    ));
}

#[test]
fn distinct_names_pass_the_uniqueness_check() {
    let y = yard_with(
        &[("a", "pa"), ("b", "pb")],
        &[("https://github.com/o/r", &[("c", "pc"), ("d", "pd")])],
    );
    assert!(check_module_names_unique(&y).is_ok());
}

fn builder_with_files(name: &str, kind: &str, files: &[&str]) -> ModuleBuilder {
    let source_info = if kind == "local" {
        SourceInfoKind::LocalModuleInfo(LocalModuleInfo {
            path: format!("modules/{}", name),
            name: name.to_string(),
        })
    } else {
        SourceInfoKind::RemoteModuleInfo(RemoteModuleInfo {
            url: "https://github.com/o/r".to_string(),
            repo_owner: "o".to_string(),
            repo_name: "r".to_string(),
            commit: "abc123".to_string(),
            path: format!("modules/{}", name),
            name: name.to_string(),
        })
    };
    ModuleBuilder {
        containerfile_data: "FROM alpine".to_string(),
        required_files: files.iter().map(|s| s.to_string()).collect(),
        required_template_values: Vec::new(),
        optional_template_values: Vec::new(),
        provided_template_values: Vec::new(),
        source_info,
    }
}

#[test]
fn shared_required_file_is_rejected() {
    // scenario: two modules both declare config/app.conf
    let a = builder_with_files("a", "local", &["config/app.conf"]);
    let b = builder_with_files("b", "local", &["other.txt", "config/app.conf"]);
    match check_required_file_conflicts(&vec![a, b]).unwrap_err() {
        BuildError::RequiredFileConflict { path, first, second } => {
            assert_eq!(path, "config/app.conf");
            assert!(matches!(first, SourceInfoKind::LocalModuleInfo(_)));
            assert!(matches!(second, SourceInfoKind::LocalModuleInfo(_)));
        }
        other => panic!("wrong error: {:?}", other),
    }
}

#[test]
fn shared_required_file_rejection_ignores_order_and_origin() {
    let a = builder_with_files("a", "local", &["config/app.conf"]);
    let b = builder_with_files("b", "remote", &["config/app.conf"]);
    assert!(check_required_file_conflicts(&vec![a.clone(), b.clone()]).is_err());
    assert!(check_required_file_conflicts(&vec![b, a]).is_err());
}

#[test]
fn distinct_required_files_pass() {
    let a = builder_with_files("a", "local", &["one.txt"]);
    let b = builder_with_files("b", "remote", &["two.txt"]);
    let c = builder_with_files("c", "local", &[]);
    assert!(check_required_file_conflicts(&vec![a, b, c]).is_ok());
}
