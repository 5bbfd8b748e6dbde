//! Parsing: the specification document, the fenced module document,
//! the declared-argument document, and assignment classification.

use yard::assignment::classify_assignment;
use yard::assignment::command_value;
use yard::assignment::env_value;
use yard::assignment::AssignmentKind;
use yard::error::BuildError;
use yard::module_config::is_valid_template_ident;
use yard::module_config::module_builder_from_config;
use yard::module_config::ModuleConfig;
use yard::module_config::module_config_from_node;
use yard::module_config::validate_and_create_module_builder;
use yard::module_file::parse_module_text;
use yard::builder::ModuleFileData;
use yard::source_info::InlineModuleInfo;
use yard::source_info::LocalModuleInfo;
use yard::source_info::RemoteModuleInfo;
use yard::source_info::SourceInfoKind;
use yard::yaml::parse_yaml_text;
use yard::yaml::YamlNode;
use yard::yardfile::parse_yard_text;
use yard::yardfile::yard_from_node;
use yard::yardfile::RemoteModules;
use yard::yardfile::UseInlineModule;
use yard::yardfile::UseInputModule;
use yard::yardfile::UseModule;
use yard::yardfile::YardFile;

#[test]
fn parse_full_yard_document() {
    let text = "inputs:\n  modules:\n    moduleA: modules/a\n  remotes:\n    - url: https://github.com/me/repo\n      commit: abc123\n      modules:\n        moduleB: modules/b\nhooks:\n  build:\n    pre: echo pre\n    post: echo post\noutputs:\n  Containerfile:\n    - FROM alpine\n    - moduleA:\n        tag: latest\n    - moduleB:\n";
    let y = parse_yard_text(text).unwrap();
    let expected = YardFile {
        input_remotes: vec![RemoteModules {
            url: "https://github.com/me/repo".to_string(),
            commit: "abc123".to_string(),
            name_to_path: vec![("moduleB".to_string(), "modules/b".to_string())],
        }],
        input_modules: vec![("moduleA".to_string(), "modules/a".to_string())],
        output_container_files: vec![(
            "Containerfile".to_string(),
            vec![
                UseModule::Inline(UseInlineModule { value: "FROM alpine".to_string() }),
                UseModule::Input(UseInputModule {
                    name: "moduleA".to_string(),
                    template_vars: vec![("tag".to_string(), "latest".to_string())],
                }),
                UseModule::Input(UseInputModule {
                    name: "moduleB".to_string(),
                    template_vars: Vec::new(),
                }),
            ],
        )],
        pre_build_hook: Some("echo pre".to_string()),
        post_build_hook: Some("echo post".to_string()),
    };
    assert_eq!(y, expected);
}

#[test]
fn yard_document_without_outputs_is_rejected() {
    let err = parse_yard_text("inputs:\n  modules:\n    a: pa\n").unwrap_err();
    assert!(matches!(err, BuildError::SchemaViolation { .. }));
}

#[test]
fn yard_document_with_empty_outputs_is_rejected() {
    let err = parse_yard_text("inputs: {}\noutputs: {}\n").unwrap_err();
    assert!(matches!(err, BuildError::SchemaViolation { .. }));
}

#[test]
fn yard_usage_with_two_keys_is_rejected() {
    let text = "inputs: {}\noutputs:\n  Containerfile:\n    - {a: null, b: null}\n";
    let err = parse_yard_text(text).unwrap_err();
    assert!(matches!(err, BuildError::SchemaViolation { .. }));
}

#[test]
fn yard_numeric_commit_is_rejected() {
    let text = "inputs:\n  remotes:\n    - url: https://github.com/o/r\n      commit: 123456\n      modules: {m: p}\noutputs:\n  Containerfile: []\n";
    let err = parse_yard_text(text).unwrap_err();
    assert!(matches!(err, BuildError::SchemaViolation { .. }));
}

#[test]
fn yard_document_that_is_not_yaml_is_rejected() {
    let err = parse_yard_text(": : :").unwrap_err();
    assert!(matches!(err, BuildError::SchemaViolation { .. }));
}

#[test]
fn yaml_tree_holds_plain_values() {
    let node = parse_yaml_text("a: 1\nb: text\nc:\n  - true\n").unwrap();
    let expected = YamlNode::Dict(vec![
        (
            YamlNode::Str("a".to_string()),
            YamlNode::Scalar("1".to_string()),
        ),
        (
            YamlNode::Str("b".to_string()),
            YamlNode::Str("text".to_string()),
        ),
        (
            YamlNode::Str("c".to_string()),
            YamlNode::List(vec![YamlNode::Scalar("true".to_string())]),
        ),
    ]);
    assert_eq!(node, expected);
}

#[test]
fn fenced_module_document_parses_both_sections() {
    let text = "# a module\n```yaml\nargs:\n  required:\n    - tag\n```\nsome prose\n```containerfile\nFROM alpine\nRUN true\n```\n";
    let md = parse_module_text(text).unwrap();
    assert_eq!(md.config, "args:\n  required:\n    - tag\n");
    assert_eq!(md.containerfile, "FROM alpine\nRUN true\n");
}

#[test]
fn fence_markers_are_trimmed_and_case_insensitive() {
    let text = "  ```Dockerfile  \nFROM alpine\n```\n";
    let md = parse_module_text(text).unwrap();
    assert_eq!(md.containerfile, "FROM alpine\n");
    assert_eq!(md.config, "");
}

#[test]
fn module_document_without_containerfile_is_rejected() {
    assert!(parse_module_text("just prose\n").is_err());
    let config_only = "```yaml\nargs: null\n```\n";
    assert!(parse_module_text(config_only).is_err());
}

#[test]
fn nested_section_start_is_rejected() {
    let text = "```containerfile\nFROM alpine\n```yaml\n```\n";
    assert!(parse_module_text(text).is_err());
}

#[test]
fn unterminated_section_is_rejected() {
    let text = "```containerfile\nFROM alpine\n";
    assert!(parse_module_text(text).is_err());
    // a close fence must stand alone and unindented
    let text2 = "```containerfile\nFROM alpine\n ``` \n";
    assert!(parse_module_text(text2).is_err());
}

#[test]
fn first_section_of_each_kind_wins() {
    let text = "```containerfile\nFROM alpine\n```\n```containerfile\nFROM debian\n```\n";
    let md = parse_module_text(text).unwrap();
    assert_eq!(md.containerfile, "FROM alpine\n");
}

#[test]
fn module_config_reads_the_declared_contract() {
    let node = parse_yaml_text(
        "description: a module\nargs:\n  required:\n    - tag\n  optional:\n    - extra\nrequired_files:\n  - config/app.conf\n",
    )
    .unwrap();
    let c = module_config_from_node(&node).unwrap();
    assert_eq!(c.required, vec!["tag".to_string()]);
    assert_eq!(c.optional, vec!["extra".to_string()]);
    assert_eq!(c.required_files, vec!["config/app.conf".to_string()]);
    assert_eq!(c.description, Some("a module".to_string()));
}

#[test]
fn empty_and_null_configs_declare_nothing() {
    let c = module_config_from_node(&YamlNode::Null).unwrap();
    assert!(c.required.is_empty() && c.optional.is_empty() && c.required_files.is_empty());
    let b = validate_and_create_module_builder(ModuleFileData {
        containerfile_data: "FROM alpine".to_string(),
        config_data: String::new(),
        source_info: SourceInfoKind::InlineModuleInfo(InlineModuleInfo {
            value: "x".to_string(),
        }),
    })
    .unwrap();
    assert!(b.required_template_values.is_empty());
    assert!(b.optional_template_values.is_empty());
    assert!(b.required_files.is_empty());
}

#[test]
fn module_builder_from_real_config_text() {
    let b = validate_and_create_module_builder(ModuleFileData {
        containerfile_data: "FROM base:{{ tag }}".to_string(),
        config_data: "args:\n  required:\n    - tag\n".to_string(),
        source_info: SourceInfoKind::LocalModuleInfo(LocalModuleInfo {
            path: "modules/b".to_string(),
            name: "moduleB".to_string(),
        }),
    })
    .unwrap();
    assert_eq!(b.required_template_values, vec!["tag".to_string()]);
    assert_eq!(b.containerfile_data, "FROM base:{{ tag }}");
    assert!(b.provided_template_values.is_empty());
}

#[test]
fn invalid_identifier_in_config_is_rejected() {
    let r = validate_and_create_module_builder(ModuleFileData {
        containerfile_data: "FROM alpine".to_string(),
        config_data: "args:\n  required:\n    - 9bad\n".to_string(),
        source_info: SourceInfoKind::InlineModuleInfo(InlineModuleInfo {
            value: "x".to_string(),
        }),
    });
    assert!(matches!(r.unwrap_err(), BuildError::SchemaViolation { .. }));
}

#[test]
fn traversal_path_in_config_is_rejected() {
    let r = validate_and_create_module_builder(ModuleFileData {
        containerfile_data: "FROM alpine".to_string(),
        config_data: "required_files:\n  - ../escape\n".to_string(),
        source_info: SourceInfoKind::InlineModuleInfo(InlineModuleInfo {
            value: "x".to_string(),
        }),
    });
    match r.unwrap_err() {
        BuildError::PathTraversalRejected { path } => assert_eq!(path, "../escape"),
        other => panic!("wrong error: {:?}", other),
    }
}

#[test]
fn builder_from_config_enforces_idents_and_paths() {
    let source = SourceInfoKind::InlineModuleInfo(InlineModuleInfo { value: "x".to_string() });
    let good = ModuleConfig {
        required: vec!["tag".to_string()],
        optional: vec!["extra".to_string()],
        required_files: vec!["config/app.conf".to_string()],
        description: None,
    };
    let b = module_builder_from_config("FROM alpine".to_string(), good, source.clone()).unwrap();
    assert_eq!(b.required_template_values, vec!["tag".to_string()]);
    assert_eq!(b.optional_template_values, vec!["extra".to_string()]);
    assert_eq!(b.required_files, vec!["config/app.conf".to_string()]);
    let bad_opt = ModuleConfig {
        required: Vec::new(),
        optional: vec!["not ok".to_string()],
        required_files: Vec::new(),
        description: None,
    };
    assert!(module_builder_from_config("x".to_string(), bad_opt, source.clone()).is_err());
    let bad_file = ModuleConfig {
        required: Vec::new(),
        optional: Vec::new(),
        required_files: vec!["/abs".to_string()],
        description: None,
    };
    assert!(matches!(
        module_builder_from_config("x".to_string(), bad_file, source).unwrap_err(),
        BuildError::PathTraversalRejected { .. }
    ));
}

#[test]
fn template_identifier_grammar() {
    assert!(is_valid_template_ident("tag"));
    assert!(is_valid_template_ident("_private"));
    assert!(is_valid_template_ident("Port8080"));
    assert!(!is_valid_template_ident(""));
    assert!(!is_valid_template_ident("9tag"));
    assert!(!is_valid_template_ident("a-b"));
    assert!(!is_valid_template_ident("a b"));
    assert!(!is_valid_template_ident("a.b"));
}

#[test]
fn assignment_classification() {
    // a shell capture resolves through the command's output
    match classify_assignment("$(echo hi)") {
        AssignmentKind::Command(c) => assert_eq!(c, "echo hi"),
        other => panic!("wrong kind: {:?}", other),
    }
    assert_eq!(command_value("hi\n"), "hi");
    assert_eq!(command_value("two words \t\n"), "two words");
    // an environment reference resolves through a lookup
    match classify_assignment("$HOME") {
        AssignmentKind::EnvVar(v) => assert_eq!(v, "HOME"),
        other => panic!("wrong kind: {:?}", other),
    }
    assert_eq!(
        env_value("HOME", Some("/home/u".to_string())).unwrap(),
        "/home/u"
    );
    assert!(matches!(
        env_value("HOME", None).unwrap_err(),
        BuildError::ValueResolutionFailure { .. }
    ));
    // anything else is the literal value
    match classify_assignment("latest") {
        AssignmentKind::Literal(v) => assert_eq!(v, "latest"),
        other => panic!("wrong kind: {:?}", other),
    }
    // an unclosed capture form falls back to the environment form
    match classify_assignment("$(oops") {
        AssignmentKind::EnvVar(v) => assert_eq!(v, "(oops"),
        other => panic!("wrong kind: {:?}", other),
    }
}

#[test]
fn provenance_text_is_exact() {
    let local = SourceInfoKind::LocalModuleInfo(LocalModuleInfo {
        path: "modules/a".to_string(),
        name: "a".to_string(),
    });
    assert_eq!(local.source_location(), "Local path: modules/a");
    assert_eq!(local.label(), "a: modules/a");
    let remote = SourceInfoKind::RemoteModuleInfo(RemoteModuleInfo {
        url: "https://github.com/o/r".to_string(),
        repo_owner: "o".to_string(),
        repo_name: "r".to_string(),
        commit: "abc".to_string(),
        path: "m/b".to_string(),
        name: "b".to_string(),
    });
    assert_eq!(
        remote.source_location(),
        "Remote url: 'https://github.com/o/r', owner: 'o', repo: 'r', commit: 'abc', path: 'm/b', name: 'b'"
    );
    assert_eq!(remote.label(), "b: m/b");
    let inline = SourceInfoKind::InlineModuleInfo(InlineModuleInfo {
        value: "RUN true".to_string(),
    });
    assert_eq!(inline.source_location(), "Inline module value: RUN true");
    assert_eq!(inline.label(), "~INLINE~");
}

#[test]
fn yard_node_can_be_validated_directly() {
    // hand-built tree: inputs present, one output with one inline part
    let node = YamlNode::Dict(vec![
        (
            YamlNode::Str("inputs".to_string()),
            YamlNode::Dict(Vec::new()),
        ),
        (
            YamlNode::Str("outputs".to_string()),
            YamlNode::Dict(vec![(
                YamlNode::Str("X".to_string()),
                YamlNode::List(vec![YamlNode::Str("FROM alpine".to_string())]),
            )]),
        ),
    ]);
    let y = yard_from_node(&node).unwrap();
    assert_eq!(y.output_container_files.len(), 1);
    assert_eq!(y.output_container_files[0].0, "X");
}
