//! The variable contract: finalization succeeds exactly when the
//! provided names lie between the required set and the union of the
//! required and optional sets.

use yard::builder::finalize_output;
use yard::builder::Module;
use yard::builder::ModuleBuilder;
use yard::builder::ResolvedUsage;
use yard::error::BuildError;
use yard::source_info::LocalModuleInfo;
use yard::source_info::SourceInfoKind;

fn local_source(name: &str, path: &str) -> SourceInfoKind {
    SourceInfoKind::LocalModuleInfo(LocalModuleInfo {
        path: path.to_string(),
        name: name.to_string(),
    })
}

fn builder_with(
    required: &[&str],
    optional: &[&str],
    provided: &[(&str, &str)],
) -> ModuleBuilder {
    ModuleBuilder {
        containerfile_data: "FROM alpine".to_string(),
        required_files: Vec::new(),
        required_template_values: required.iter().map(|s| s.to_string()).collect(),
        optional_template_values: optional.iter().map(|s| s.to_string()).collect(),
        provided_template_values: provided
            .iter()
            .map(|(k, v)| (k.to_string(), v.to_string()))
            .collect(),
        source_info: local_source("moduleA", "modules/a"),
    }
}

#[test]
fn finalize_succeeds_between_required_and_union() {
    // provided == required
    assert!(builder_with(&["a"], &["b"], &[("a", "1")]).build().is_ok());
    // required < provided < required + optional
    assert!(builder_with(&["a"], &["b", "c"], &[("a", "1"), ("b", "2")]).build().is_ok());
    // provided == required + optional
    assert!(builder_with(&["a"], &["b"], &[("a", "1"), ("b", "2")]).build().is_ok());
    // nothing required, nothing provided
    assert!(builder_with(&[], &[], &[]).build().is_ok());
}

#[test]
fn finalize_fails_outside_the_bounds() {
    // a required name is missing
    assert!(builder_with(&["a"], &[], &[]).build().is_err());
    // a provided name is neither required nor optional
    assert!(builder_with(&[], &[], &[("x", "1")]).build().is_err());
    // one name right, one unknown
    assert!(builder_with(&["a"], &[], &[("a", "1"), ("x", "2")]).build().is_err());
}

#[test]
fn missing_required_variable_names_the_module() {
    // scenario: the module requires PORT and the usage omits it
    let module_c = builder_with(&["PORT"], &[], &[]);
    let err = module_c.build().unwrap_err();
    match err {
        BuildError::MissingRequiredVariable { name, origin } => {
            assert_eq!(name, "PORT");
            assert_eq!(origin, local_source("moduleA", "modules/a"));
        }
        other => panic!("wrong error: {:?}", other),
    }
}

#[test]
fn unknown_provided_variable_is_rejected() {
    // scenario: the usage supplies EXTRA, declared neither required
    // nor optional
    let mods = vec![(
        "moduleC".to_string(),
        builder_with(&["PORT"], &["HOST"], &[]),
    )];
    let usages = vec![ResolvedUsage::Reference {
        name: "moduleC".to_string(),
        values: vec![
            ("PORT".to_string(), "80".to_string()),
            ("EXTRA".to_string(), "x".to_string()),
        ],
    }];
    let err = finalize_output(&mods, &usages).unwrap_err();
    match err {
        BuildError::UnknownProvidedVariable { name, .. } => assert_eq!(name, "EXTRA"),
        other => panic!("wrong error: {:?}", other),
    }
}

#[test]
fn usage_of_undeclared_module_is_rejected() {
    let mods: Vec<(String, ModuleBuilder)> = Vec::new();
    let usages = vec![ResolvedUsage::Reference {
        name: "ghost_module".to_string(),
        values: Vec::new(),
    }];
    let err = finalize_output(&mods, &usages).unwrap_err();
    match err {
        BuildError::UnknownModuleReference { name } => assert_eq!(name, "ghost_module"),
        other => panic!("wrong error: {:?}", other),
    }
}

#[test]
fn finalized_part_keeps_template_and_assignments() {
    let mods = vec![("m".to_string(), builder_with(&["tag"], &[], &[]))];
    let usages = vec![
        ResolvedUsage::Inline("FROM alpine".to_string()),
        ResolvedUsage::Reference {
            name: "m".to_string(),
            values: vec![("tag".to_string(), "latest".to_string())],
        },
    ];
    let parts: Vec<Module> = finalize_output(&mods, &usages).unwrap();
    assert_eq!(parts.len(), 2);
    assert_eq!(parts[0].containerfile_template(), "FROM alpine");
    assert!(parts[0].provided_template_values().is_empty());
    assert_eq!(parts[1].containerfile_template(), "FROM alpine");
    assert_eq!(
        parts[1].provided_template_values(),
        &vec![("tag".to_string(), "latest".to_string())]
    );
    assert_eq!(*parts[1].source_info(), local_source("moduleA", "modules/a"));
}

#[test]
fn first_failing_usage_decides_the_error() {
    let mods = vec![("m".to_string(), builder_with(&["tag"], &[], &[]))];
    let usages = vec![
        ResolvedUsage::Reference { name: "absent".to_string(), values: Vec::new() },
        ResolvedUsage::Reference { name: "m".to_string(), values: Vec::new() },
    ];
    let err = finalize_output(&mods, &usages).unwrap_err();
    assert!(matches!(err, BuildError::UnknownModuleReference { .. }));
}
