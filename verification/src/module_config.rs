//! A module's declared-argument document: the required and optional
//! variable names, the required supporting files, and an optional
//! description. Variable names must fit the template identifier
//! grammar `[A-Za-z_][A-Za-z0-9_]*` — one canonical grammar, checked
//! here, rather than whatever an engine happens to accept — and
//! every declared file path is checked for traversal safety at
//! declaration time.

use vstd::prelude::*;
use vstd::string::*;

use crate::builder::ModuleBuilder;
use crate::builder::ModuleFileData;
use crate::error::BuildError;
use crate::paths;
use crate::source_info::SourceInfoKind;
use crate::yaml::YamlNode;
use crate::yaml::dict_get;
use crate::yaml::dict_has;
use crate::yaml::dict_val;
use crate::yardfile::schema_err;

verus! {

/// The declared contract of one module.
#[derive(Debug, PartialEq, Eq)]
pub struct ModuleConfig {
    pub required: Vec<String>,
    pub optional: Vec<String>,
    pub required_files: Vec<String>,
    pub description: Option<String>,
}

pub open spec fn is_ident_start(c: char) -> bool {
    ('a' <= c && c <= 'z') || ('A' <= c && c <= 'Z') || c == '_'
}

pub open spec fn is_ident_char(c: char) -> bool {
    is_ident_start(c) || ('0' <= c && c <= '9')
}

/// A legal template identifier: a letter or underscore, then letters,
/// digits and underscores.
pub open spec fn valid_ident(s: Seq<char>) -> bool {
    s.len() >= 1 && is_ident_start(s[0]) && forall|i: int|
        0 <= i < s.len() ==> is_ident_char(#[trigger] s[i])
}

/// Decide [`valid_ident`] for one name.
pub fn is_valid_template_ident(s: &str) -> (r: bool)
    ensures
        r == valid_ident(s@),
{
    let n = s.unicode_len();
    if n == 0 {
        return false;
    }
    let c0 = s.get_char(0);
    if !(('a' <= c0 && c0 <= 'z') || ('A' <= c0 && c0 <= 'Z') || c0 == '_') {
        return false;
    }
    let mut i: usize = 0;
    while i < n
        invariant
            n == s@.len(),
            i <= n,
            forall|j: int| 0 <= j < i ==> is_ident_char(#[trigger] s@[j]),
        decreases n - i,
    {
        let c = s.get_char(i);
        if !(('a' <= c && c <= 'z') || ('A' <= c && c <= 'Z') || ('0' <= c && c <= '9') || c
            == '_') {
            return false;
        }
        i = i + 1;
    }
    true
}

/// A node that may stand for an absent value.
pub open spec fn absent(n: YamlNode) -> bool {
    n is Null
}

/// A list of strings, or absent.
pub open spec fn opt_str_list_wf(d: Seq<(YamlNode, YamlNode)>, key: Seq<char>) -> bool {
    dict_has(d, key) ==> (absent(dict_val(d, key)) || (dict_val(d, key) matches YamlNode::List(l)
        && forall|i: int| 0 <= i < l@.len() ==> (#[trigger] l@[i]) is Str))
}

/// The strings such a list holds; empty when absent.
pub open spec fn opt_str_list_matches(
    d: Seq<(YamlNode, YamlNode)>,
    key: Seq<char>,
    v: Seq<String>,
) -> bool {
    if dict_has(d, key) && !absent(dict_val(d, key)) {
        dict_val(d, key) matches YamlNode::List(l) && v.len() == l@.len() && forall|i: int|
            0 <= i < l@.len() ==> #[trigger] l@[i] == YamlNode::Str(v[i])
    } else {
        v.len() == 0
    }
}

/// A structurally valid declared-argument document: null, or a
/// mapping with optional `args.required` and `args.optional` string
/// lists, an optional `required_files` string list, and an optional
/// string `description`.
pub open spec fn config_wf(n: YamlNode) -> bool {
    match n {
        YamlNode::Null => true,
        YamlNode::Dict(d) => {
            &&& (dict_has(d@, "args"@) ==> (absent(dict_val(d@, "args"@)) || (dict_val(d@, "args"@)
                matches YamlNode::Dict(a) && opt_str_list_wf(a@, "required"@) && opt_str_list_wf(
                a@,
                "optional"@,
            ))))
            &&& opt_str_list_wf(d@, "required_files"@)
            &&& (dict_has(d@, "description"@) ==> (absent(dict_val(d@, "description"@)) || dict_val(
                d@,
                "description"@,
            ) is Str))
        },
        _ => false,
    }
}

/// The contract read off a valid document.
pub open spec fn config_matches(n: YamlNode, c: ModuleConfig) -> bool {
    match n {
        YamlNode::Null => c.required@.len() == 0 && c.optional@.len() == 0 && c.required_files@.len()
            == 0 && c.description is None,
        YamlNode::Dict(d) => {
            &&& (if dict_has(d@, "args"@) && !absent(dict_val(d@, "args"@)) {
                dict_val(d@, "args"@) matches YamlNode::Dict(a) && opt_str_list_matches(
                    a@,
                    "required"@,
                    c.required@,
                ) && opt_str_list_matches(a@, "optional"@, c.optional@)
            } else {
                c.required@.len() == 0 && c.optional@.len() == 0
            })
            &&& opt_str_list_matches(d@, "required_files"@, c.required_files@)
            &&& (if dict_has(d@, "description"@) && !absent(dict_val(d@, "description"@)) {
                dict_val(d@, "description"@) == YamlNode::Str(c.description->Some_0)
                    && c.description is Some
            } else {
                c.description is None
            })
        },
        _ => false,
    }
}

/// Read a list of strings under `key`; absent or null means empty.
fn extract_opt_str_list(d: &Vec<(YamlNode, YamlNode)>, key: &str, instance_path: &str) -> (r:
    Result<Vec<String>, BuildError>)
    ensures
        r is Ok <==> opt_str_list_wf(d@, key@),
        r matches Ok(v) ==> opt_str_list_matches(d@, key@, v@),
        r matches Err(e) ==> e matches BuildError::SchemaViolation { .. },
{
    match dict_get(d, key) {
        Option::None => Result::Ok(Vec::new()),
        Option::Some(YamlNode::Null) => Result::Ok(Vec::new()),
        Option::Some(YamlNode::List(l)) => {
            let mut out: Vec<String> = Vec::new();
            let mut i: usize = 0;
            while i < l.len()
                invariant
                    dict_has(d@, key@),
                    dict_val(d@, key@) matches YamlNode::List(l0) && l0@ == l@,
                    i <= l@.len(),
                    out@.len() == i,
                    forall|j: int| 0 <= j < i ==> (#[trigger] l@[j]) is Str,
                    forall|j: int| 0 <= j < i ==> #[trigger] l@[j] == YamlNode::Str(out@[j]),
                decreases l@.len() - i,
            {
                match &l[i] {
                    YamlNode::Str(s) => {
                        out.push(s.clone());
                    },
                    _ => {
                        return Result::Err(
                            schema_err(instance_path, "every entry must be a string"),
                        );
                    },
                }
                i = i + 1;
            }
            Result::Ok(out)
        },
        Option::Some(_) => Result::Err(schema_err(instance_path, "must be a list of strings")),
    }
}

/// Validate a parsed declared-argument document and read the
/// contract off it.
pub fn module_config_from_node(n: &YamlNode) -> (r: Result<ModuleConfig, BuildError>)
    ensures
        r is Ok <==> config_wf(*n),
        r matches Ok(c) ==> config_matches(*n, c),
        r matches Err(e) ==> e matches BuildError::SchemaViolation { .. },
{
    let d = match n {
        YamlNode::Null => {
            return Result::Ok(
                ModuleConfig {
                    required: Vec::new(),
                    optional: Vec::new(),
                    required_files: Vec::new(),
                    description: Option::None,
                },
            );
        },
        YamlNode::Dict(d) => d,
        _ => {
            return Result::Err(schema_err("", "the module config must be a mapping"));
        },
    };
    let mut required: Vec<String> = Vec::new();
    let mut optional: Vec<String> = Vec::new();
    match dict_get(d, "args") {
        Option::None => {},
        Option::Some(YamlNode::Null) => {},
        Option::Some(YamlNode::Dict(a)) => {
            match extract_opt_str_list(a, "required", "/args/required") {
                Result::Ok(v) => {
                    required = v;
                },
                Result::Err(e) => {
                    return Result::Err(e);
                },
            }
            match extract_opt_str_list(a, "optional", "/args/optional") {
                Result::Ok(v) => {
                    optional = v;
                },
                Result::Err(e) => {
                    return Result::Err(e);
                },
            }
        },
        Option::Some(_) => {
            return Result::Err(schema_err("/args", "args must be a mapping"));
        },
    }
    let required_files = match extract_opt_str_list(d, "required_files", "/required_files") {
        Result::Ok(v) => v,
        Result::Err(e) => {
            return Result::Err(e);
        },
    };
    let description = match dict_get(d, "description") {
        Option::None => Option::None,
        Option::Some(YamlNode::Null) => Option::None,
        Option::Some(YamlNode::Str(s)) => Option::Some(s.clone()),
        Option::Some(_) => {
            return Result::Err(schema_err("/description", "description must be a string"));
        },
    };
    Result::Ok(ModuleConfig { required, optional, required_files, description })
}

/// First name of `xs` that is not a legal identifier; `xs.len()` if
/// all are.
pub open spec fn first_bad_ident(xs: Seq<String>, i: int) -> int
    decreases xs.len() - i,
{
    if i < 0 {
        first_bad_ident(xs, 0)
    } else if i >= xs.len() {
        xs.len() as int
    } else if !valid_ident(xs[i]@) {
        i
    } else {
        first_bad_ident(xs, i + 1)
    }
}

/// Whether every declared name is a legal identifier; the error
/// names the first that is not.
fn check_idents(xs: &Vec<String>) -> (r: Result<(), BuildError>)
    ensures
        r is Ok <==> (forall|i: int| 0 <= i < xs@.len() ==> valid_ident(#[trigger] xs@[i]@)),
        r matches Err(e) ==> e matches BuildError::SchemaViolation { .. },
{
    let mut i: usize = 0;
    while i < xs.len()
        invariant
            i <= xs@.len(),
            forall|j: int| 0 <= j < i ==> valid_ident(#[trigger] xs@[j]@),
        decreases xs@.len() - i,
    {
        if !is_valid_template_ident(xs[i].as_str()) {
            return Result::Err(
                schema_err(
                    "/args",
                    "a declared variable is not a valid identifier for a module argument",
                ),
            );
        }
        i = i + 1;
    }
    Result::Ok(())
}

/// Every string in the list under `key` is a legal identifier.
pub open spec fn list_idents_ok(d: Seq<(YamlNode, YamlNode)>, key: Seq<char>) -> bool {
    (dict_has(d, key) && !absent(dict_val(d, key))) ==> (dict_val(d, key) matches YamlNode::List(l)
        ==> forall|i: int|
        0 <= i < l@.len() ==> ((#[trigger] l@[i]) matches YamlNode::Str(s) ==> valid_ident(s@)))
}

/// Every declared variable name in the document is a legal
/// identifier.
pub open spec fn config_idents_ok(n: YamlNode) -> bool {
    match n {
        YamlNode::Dict(d) => (dict_has(d@, "args"@) && !absent(dict_val(d@, "args"@))) ==> (
        dict_val(d@, "args"@) matches YamlNode::Dict(a) ==> list_idents_ok(a@, "required"@)
            && list_idents_ok(a@, "optional"@)),
        _ => true,
    }
}

/// Every declared file path in the document is traversal-safe.
pub open spec fn config_files_ok(n: YamlNode) -> bool {
    match n {
        YamlNode::Dict(d) => (dict_has(d@, "required_files"@) && !absent(
            dict_val(d@, "required_files"@),
        )) ==> (dict_val(d@, "required_files"@) matches YamlNode::List(l) ==> forall|i: int|
            0 <= i < l@.len() ==> ((#[trigger] l@[i]) matches YamlNode::Str(s)
                ==> paths::path_is_safe(s@))),
        _ => true,
    }
}

/// The builder's contract fields are exactly the ones the document
/// declares.
pub open spec fn builder_matches_config(n: YamlNode, b: ModuleBuilder) -> bool {
    match n {
        YamlNode::Null => b.required_template_values@.len() == 0
            && b.optional_template_values@.len() == 0 && b.required_files@.len() == 0,
        YamlNode::Dict(d) => {
            &&& (if dict_has(d@, "args"@) && !absent(dict_val(d@, "args"@)) {
                dict_val(d@, "args"@) matches YamlNode::Dict(a) && opt_str_list_matches(
                    a@,
                    "required"@,
                    b.required_template_values@,
                ) && opt_str_list_matches(a@, "optional"@, b.optional_template_values@)
            } else {
                b.required_template_values@.len() == 0 && b.optional_template_values@.len() == 0
            })
            &&& opt_str_list_matches(d@, "required_files"@, b.required_files@)
        },
        _ => false,
    }
}

/// Under a matching extraction, the name condition on the document
/// and on the extracted list agree.
proof fn lemma_idents_bridge(a: Seq<(YamlNode, YamlNode)>, key: Seq<char>, v: Seq<String>)
    requires
        opt_str_list_matches(a, key, v),
    ensures
        (forall|i: int| 0 <= i < v.len() ==> valid_ident((#[trigger] v[i])@)) <==> list_idents_ok(
            a,
            key,
        ),
{
    if dict_has(a, key) && !absent(dict_val(a, key)) {
        match dict_val(a, key) {
            YamlNode::List(l) => {
                if forall|i: int| 0 <= i < v.len() ==> valid_ident((#[trigger] v[i])@) {
                    assert forall|i: int|
                        0 <= i < l@.len() implies ((#[trigger] l@[i]) matches YamlNode::Str(s)
                        ==> valid_ident(s@)) by {
                        assert(l@[i] == YamlNode::Str(v[i]));
                        assert(valid_ident(v[i]@));
                    }
                }
                if list_idents_ok(a, key) {
                    assert forall|i: int| 0 <= i < v.len() implies valid_ident(
                        (#[trigger] v[i])@,
                    ) by {
                        assert(l@[i] == YamlNode::Str(v[i]));
                    }
                }
            },
            _ => {
                assert(false);
            },
        }
    } else {
        assert(v.len() == 0);
    }
}

/// Under a matching extraction, the path condition on the document
/// and on the extracted list agree.
proof fn lemma_paths_bridge(d: Seq<(YamlNode, YamlNode)>, v: Seq<String>)
    requires
        opt_str_list_matches(d, "required_files"@, v),
    ensures
        (forall|i: int| 0 <= i < v.len() ==> paths::path_is_safe((#[trigger] v[i])@)) <==> (
        (dict_has(d, "required_files"@) && !absent(dict_val(d, "required_files"@))) ==> (dict_val(
            d,
            "required_files"@,
        ) matches YamlNode::List(l) ==> forall|i: int|
            0 <= i < l@.len() ==> ((#[trigger] l@[i]) matches YamlNode::Str(s)
                ==> paths::path_is_safe(s@)))),
{
    if dict_has(d, "required_files"@) && !absent(dict_val(d, "required_files"@)) {
        match dict_val(d, "required_files"@) {
            YamlNode::List(l) => {
                if forall|i: int| 0 <= i < v.len() ==> paths::path_is_safe((#[trigger] v[i])@) {
                    assert forall|i: int|
                        0 <= i < l@.len() implies ((#[trigger] l@[i]) matches YamlNode::Str(s)
                        ==> paths::path_is_safe(s@)) by {
                        assert(l@[i] == YamlNode::Str(v[i]));
                        assert(paths::path_is_safe(v[i]@));
                    }
                }
                if forall|i: int|
                    0 <= i < l@.len() ==> ((#[trigger] l@[i]) matches YamlNode::Str(s)
                        ==> paths::path_is_safe(s@)) {
                    assert forall|i: int| 0 <= i < v.len() implies paths::path_is_safe(
                        (#[trigger] v[i])@,
                    ) by {
                        assert(l@[i] == YamlNode::Str(v[i]));
                    }
                }
            },
            _ => {
                assert(false);
            },
        }
    } else {
        assert(v.len() == 0);
    }
}

/// Turn one module's contract into a staging builder: every declared
/// name must fit the identifier grammar and every declared file path
/// must be traversal-safe, checked at declaration time.
pub fn module_builder_from_config(
    containerfile_data: String,
    config: ModuleConfig,
    source_info: SourceInfoKind,
) -> (r: Result<ModuleBuilder, BuildError>)
    ensures
        r is Ok <==> (forall|i: int|
            0 <= i < config.required@.len() ==> valid_ident((#[trigger] config.required@[i])@))
            && (forall|i: int|
            0 <= i < config.optional@.len() ==> valid_ident((#[trigger] config.optional@[i])@)) && (
        forall|i: int|
            0 <= i < config.required_files@.len() ==> paths::path_is_safe(
                (#[trigger] config.required_files@[i])@,
            )),
        r matches Ok(b) ==> b.containerfile_data == containerfile_data && b.required_files@
            == config.required_files@ && b.required_template_values@ == config.required@
            && b.optional_template_values@ == config.optional@ && b.provided_template_values@.len()
            == 0 && b.source_info == source_info,
        r matches Err(e) ==> (e matches BuildError::SchemaViolation { .. } || e matches
            BuildError::PathTraversalRejected { .. }),
{
    match check_idents(&config.required) {
        Result::Ok(_) => {},
        Result::Err(e) => {
            return Result::Err(e);
        },
    }
    match check_idents(&config.optional) {
        Result::Ok(_) => {},
        Result::Err(e) => {
            return Result::Err(e);
        },
    }
    match paths::validate_path_references(&config.required_files) {
        Result::Ok(_) => {},
        Result::Err(e) => {
            return Result::Err(e);
        },
    }
    Result::Ok(
        ModuleBuilder {
            containerfile_data,
            required_files: config.required_files,
            required_template_values: config.required,
            optional_template_values: config.optional,
            provided_template_values: Vec::new(),
            source_info,
        },
    )
}

/// Validate one module's raw content into a staging builder: parse
/// and check the declared-argument document, the identifier grammar
/// of every declared name, and the safety of every declared file
/// path. An empty config text declares nothing; otherwise the text
/// must parse, the document must be structurally valid, and its
/// declared names and paths must pass their checks.
pub fn validate_and_create_module_builder(files: ModuleFileData) -> (r: Result<
    ModuleBuilder,
    BuildError,
>)
    ensures
        r is Ok <==> (files.config_data@.len() == 0 || (crate::yaml::yaml_doc(files.config_data@)
            matches Some(n) && config_wf(n) && config_idents_ok(n) && config_files_ok(n))),
        r matches Ok(b) ==> b.containerfile_data == files.containerfile_data
            && b.provided_template_values@.len() == 0 && b.source_info == files.source_info && (
        files.config_data@.len() == 0 ==> b.required_template_values@.len() == 0
            && b.optional_template_values@.len() == 0 && b.required_files@.len() == 0) && (
        files.config_data@.len() > 0 ==> builder_matches_config(
            crate::yaml::yaml_doc(files.config_data@)->Some_0,
            b,
        )) && (forall|i: int|
            0 <= i < b.required_files@.len() ==> paths::path_is_safe(
                (#[trigger] b.required_files@[i])@,
            )) && (forall|i: int|
            0 <= i < b.required_template_values@.len() ==> valid_ident(
                (#[trigger] b.required_template_values@[i])@,
            )) && (forall|i: int|
            0 <= i < b.optional_template_values@.len() ==> valid_ident(
                (#[trigger] b.optional_template_values@[i])@,
            )),
        r matches Err(e) ==> (e matches BuildError::SchemaViolation { .. } || e matches
            BuildError::PathTraversalRejected { .. }),
{
    if files.config_data.as_str().unicode_len() == 0 {
        let config = ModuleConfig {
            required: Vec::new(),
            optional: Vec::new(),
            required_files: Vec::new(),
            description: Option::None,
        };
        return module_builder_from_config(files.containerfile_data, config, files.source_info);
    }
    let node = match crate::yaml::parse_yaml_text(files.config_data.as_str()) {
        Result::Ok(node) => node,
        Result::Err(m) => {
            return Result::Err(
                BuildError::SchemaViolation {
                    instance_path: String::new(),
                    schema_path: String::from_str("module config"),
                    message: m,
                },
            );
        },
    };
    let config = match module_config_from_node(&node) {
        Result::Ok(c) => c,
        Result::Err(e) => {
            return Result::Err(e);
        },
    };
    let ghost gn = node;
    let ghost gc = config;
    proof {
        // the document conditions and the extracted-list conditions
        // agree, entry for entry
        match gn {
            YamlNode::Null => {},
            YamlNode::Dict(d) => {
                if dict_has(d@, "args"@) && !absent(dict_val(d@, "args"@)) {
                    match dict_val(d@, "args"@) {
                        YamlNode::Dict(a) => {
                            lemma_idents_bridge(a@, "required"@, gc.required@);
                            lemma_idents_bridge(a@, "optional"@, gc.optional@);
                        },
                        _ => {
                            assert(false);
                        },
                    }
                }
                lemma_paths_bridge(d@, gc.required_files@);
            },
            _ => {
                assert(false);
            },
        }
    }
    let r = module_builder_from_config(files.containerfile_data, config, files.source_info);
    proof {
        assert(crate::yaml::yaml_doc(files.config_data@) matches Some(n2) && n2 == gn);
        if r is Ok {
            assert(config_idents_ok(gn));
            assert(config_files_ok(gn));
        }
    }
    r
}

} // verus!
