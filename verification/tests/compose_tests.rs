//! Rendering and composition: exact output bytes, per-part variable
//! isolation, declared order, and byte-identical re-runs.

use yard::builder::check_required_file_conflicts;
use yard::builder::finalize_output;
use yard::builder::finalize_outputs;
use yard::builder::Module;
use yard::builder::ModuleFileData;
use yard::builder::ResolvedUsage;
use yard::compose::apply_templates_and_labels;
use yard::compose::check_artifacts_produced;
use yard::compose::check_modules_resolved;
use yard::compose::compose_rendered;
use yard::compose::render_parts;
use yard::error::BuildError;
use yard::module_config::validate_and_create_module_builder;
use yard::source_info::LocalModuleInfo;
use yard::source_info::SourceInfoKind;
use yard::yardfile::check_module_names_unique;
use yard::yardfile::hook_outcome;
use yard::yardfile::parse_yard_text;
use yard::yardfile::UseModule;

/// A plain engine for the tests: tera's one-off rendering over
/// exactly the given variables, without escaping.
fn engine(template: String, vars: Vec<(String, String)>) -> Result<String, String> {
    let mut context = tera::Context::new();
    for (k, v) in vars.iter() {
        context.insert(k.as_str(), v);
    }
    tera::Tera::one_off(&template, &context, false).map_err(|e| format!("{}", e))
}

/// The full pipeline on plain values: parse the spec text, check the
/// names, build the one module, finalize the declared output and
/// compose it.
fn build_artifacts(spec_text: &str) -> Vec<(String, String)> {
    let y = parse_yard_text(spec_text).unwrap();
    check_module_names_unique(&y).unwrap();
    let mut mods = Vec::new();
    let mut builders = Vec::new();
    for (name, path) in &y.input_modules {
        // module content that a file read would have handed over
        let b = validate_and_create_module_builder(ModuleFileData {
            containerfile_data: "FROM base:{{ tag }}".to_string(),
            config_data: "args:\n  required:\n    - tag\n".to_string(),
            source_info: SourceInfoKind::LocalModuleInfo(LocalModuleInfo {
                path: path.clone(),
                name: name.clone(),
            }),
        })
        .unwrap();
        builders.push(b.clone());
        mods.push((name.clone(), b));
    }
    check_required_file_conflicts(&builders).unwrap();
    let mut outputs = Vec::new();
    for (artifact, usages) in &y.output_container_files {
        let resolved: Vec<ResolvedUsage> = usages
            .iter()
            .map(|u| match u {
                UseModule::Inline(i) => ResolvedUsage::Inline(i.value.clone()),
                UseModule::Input(m) => ResolvedUsage::Reference {
                    name: m.name.clone(),
                    values: m.template_vars.clone(),
                },
            })
            .collect();
        outputs.push((artifact.clone(), resolved));
    }
    let parts = finalize_outputs(&mods, &outputs).unwrap();
    check_modules_resolved(parts.len()).unwrap();
    let artifacts = apply_templates_and_labels(&parts, engine).unwrap();
    check_artifacts_produced(&artifacts).unwrap();
    artifacts
}

const SPEC_A: &str = "inputs:\n  modules:\n    moduleB: modules/b\noutputs:\n  X:\n    - FROM alpine\n    - moduleB:\n        tag: latest\n";

#[test]
fn inline_and_rendered_parts_concatenate_in_order() {
    // scenario: X = [inline text, reference with tag=latest]
    let artifacts = build_artifacts(SPEC_A);
    assert_eq!(artifacts.len(), 1);
    assert_eq!(artifacts[0].0, "X");
    let expected = "####  ~INLINE~  ####\n\nFROM alpine\n\n####  moduleB: modules/b  ####\n\nFROM base:latest\n";
    assert_eq!(artifacts[0].1, expected);
}

#[test]
fn rerunning_an_unchanged_spec_is_byte_identical() {
    let first = build_artifacts(SPEC_A);
    let second = build_artifacts(SPEC_A);
    assert_eq!(first, second);
}

#[test]
fn rendering_replaces_variables() {
    let mods = vec![(
        "m".to_string(),
        validate_and_create_module_builder(ModuleFileData {
            containerfile_data: "EXPOSE {{ PORT }}".to_string(),
            config_data: "args:\n  required:\n    - PORT\n".to_string(),
            source_info: SourceInfoKind::LocalModuleInfo(LocalModuleInfo {
                path: "m".to_string(),
                name: "m".to_string(),
            }),
        })
        .unwrap(),
    )];
    let usages = vec![ResolvedUsage::Reference {
        name: "m".to_string(),
        values: vec![("PORT".to_string(), "8080".to_string())],
    }];
    let parts: Vec<Module> = finalize_output(&mods, &usages).unwrap();
    let rendered = render_parts(&parts, engine).unwrap();
    assert_eq!(rendered, vec!["EXPOSE 8080".to_string()]);
}

#[test]
fn each_part_renders_in_its_own_context() {
    // the first part's assignment must not leak into the second part
    let part_with = |vars: Vec<(String, String)>| {
        let mods = vec![(
            "m".to_string(),
            validate_and_create_module_builder(ModuleFileData {
                containerfile_data: "V={{ v }}".to_string(),
                config_data: "args:\n  optional:\n    - v\n".to_string(),
                source_info: SourceInfoKind::LocalModuleInfo(LocalModuleInfo {
                    path: "m".to_string(),
                    name: "m".to_string(),
                }),
            })
            .unwrap(),
        )];
        finalize_output(
            &mods,
            &vec![ResolvedUsage::Reference { name: "m".to_string(), values: vars }],
        )
        .unwrap()
    };
    let mut parts = part_with(vec![("v".to_string(), "one".to_string())]);
    parts.extend(part_with(Vec::new()));
    // the second part has no value for the variable, so the engine
    // rejects it instead of inheriting the first part's value
    let err = render_parts(&parts, engine).unwrap_err();
    assert!(matches!(err, BuildError::TemplateRenderError { .. }));
}

#[test]
fn render_error_carries_the_part_provenance() {
    let part = yard::builder::inline_module("{{ undefined_variable }}".to_string());
    match render_parts(&vec![part], engine).unwrap_err() {
        BuildError::TemplateRenderError { origin, .. } => {
            assert_eq!(
                origin,
                SourceInfoKind::InlineModuleInfo(yard::source_info::InlineModuleInfo {
                    value: "{{ undefined_variable }}".to_string()
                })
            );
        }
        other => panic!("wrong error: {:?}", other),
    }
}

#[test]
fn composition_banner_and_trim_are_exact() {
    let part = yard::builder::inline_module("anything".to_string());
    let out = compose_rendered(&vec![part], &vec!["  body text \n\n".to_string()]);
    assert_eq!(out, "####  ~INLINE~  ####\n\nbody text\n");
}

#[test]
fn outputs_keep_their_declared_order() {
    let two = "inputs:\n  modules:\n    moduleB: modules/b\noutputs:\n  second:\n    - RUN b\n  first:\n    - RUN a\n";
    let artifacts = build_artifacts(two);
    // declared order, not name order
    assert_eq!(artifacts[0].0, "second");
    assert_eq!(artifacts[1].0, "first");
    assert_eq!(artifacts[0].1, "####  ~INLINE~  ####\n\nRUN b\n");
    assert_eq!(artifacts[1].1, "####  ~INLINE~  ####\n\nRUN a\n");
}

#[test]
fn empty_results_are_distinct_failures() {
    assert!(matches!(
        check_modules_resolved(0).unwrap_err(),
        BuildError::NoModulesResolved
    ));
    assert!(check_modules_resolved(1).is_ok());
    assert!(matches!(
        check_artifacts_produced(&Vec::new()).unwrap_err(),
        BuildError::NoArtifactsProduced
    ));
    assert!(check_artifacts_produced(&vec![("X".to_string(), "t".to_string())]).is_ok());
}

#[test]
fn hook_failure_is_fatal_and_reported() {
    assert!(hook_outcome("echo ok", true, String::new()).is_ok());
    match hook_outcome("false", false, "exit status 1".to_string()).unwrap_err() {
        BuildError::HookFailure { command, detail } => {
            assert_eq!(command, "false");
            assert_eq!(detail, "exit status 1");
        }
        other => panic!("wrong error: {:?}", other),
    }
}
