//! The intermediate representation of the specification document and
//! the verified structural validation that produces it from a parsed
//! tree: inputs (local module paths, remote groups), optional build
//! hooks, and the declared outputs with their ordered usages.

use vstd::prelude::*;
use vstd::string::*;

use crate::error::BuildError;
use crate::error::DeclOrigin;
use crate::text;
use crate::yaml::YamlNode;
use crate::yaml::dict_get;
use crate::yaml::dict_has;
use crate::yaml::dict_val;

verus! {

/// Reference to a remote and containing modules.
#[derive(Debug, PartialEq, Eq)]
pub struct RemoteModules {
    pub url: String,
    pub commit: String,
    /// Module name to path in the remote tree.
    pub name_to_path: Vec<(String, String)>,
}

/// Inline module.
#[derive(Debug, PartialEq, Eq)]
pub struct UseInlineModule {
    pub value: String,
}

/// Reference to an input module.
#[derive(Debug, PartialEq, Eq)]
pub struct UseInputModule {
    pub name: String,
    pub template_vars: Vec<(String, String)>,
}

/// Reference to an input module or inline.
#[derive(Debug, PartialEq, Eq)]
pub enum UseModule {
    Inline(UseInlineModule),
    Input(UseInputModule),
}

/// The validated intermediate spec.
#[derive(Debug, PartialEq, Eq)]
pub struct YardFile {
    pub input_remotes: Vec<RemoteModules>,
    /// Module name to path on local.
    pub input_modules: Vec<(String, String)>,
    /// Output build-file name to its included modules, in declared
    /// order.
    pub output_container_files: Vec<(String, Vec<UseModule>)>,
    pub pre_build_hook: Option<String>,
    pub post_build_hook: Option<String>,
}

/// Every entry maps a string to a string.
pub open spec fn str_pairs_wf(d: Seq<(YamlNode, YamlNode)>) -> bool {
    forall|i: int| 0 <= i < d.len() ==> (#[trigger] d[i]).0 is Str && d[i].1 is Str
}

/// `v` holds exactly the entries of `d`, as strings, in order.
pub open spec fn str_pairs_match(d: Seq<(YamlNode, YamlNode)>, v: Seq<(String, String)>) -> bool {
    v.len() == d.len() && forall|i: int|
        0 <= i < d.len() ==> #[trigger] d[i] == (
        YamlNode::Str(v[i].0),
        YamlNode::Str(v[i].1),
        )
}

/// A remote group entry: a mapping with string `url` and `commit`
/// and a `modules` mapping of strings.
pub open spec fn remote_wf(n: YamlNode) -> bool {
    n matches YamlNode::Dict(d) && dict_has(d@, "url"@) && dict_val(d@, "url"@) is Str && dict_has(
        d@,
        "commit"@,
    ) && dict_val(d@, "commit"@) is Str && dict_has(d@, "modules"@) && (dict_val(d@, "modules"@)
        matches YamlNode::Dict(m) && str_pairs_wf(m@))
}

pub open spec fn remote_matches(n: YamlNode, rm: RemoteModules) -> bool {
    n matches YamlNode::Dict(d) && dict_val(d@, "url"@) == YamlNode::Str(rm.url) && dict_val(
        d@,
        "commit"@,
    ) == YamlNode::Str(rm.commit) && (dict_val(d@, "modules"@) matches YamlNode::Dict(m)
        && str_pairs_match(m@, rm.name_to_path@))
}

/// One usage: a bare string, or a single-key mapping whose value is
/// null or a mapping of strings.
pub open spec fn usage_wf(n: YamlNode) -> bool {
    match n {
        YamlNode::Str(_) => true,
        YamlNode::Dict(d) => d@.len() == 1 && d@[0].0 is Str && (d@[0].1 is Null || (d@[0].1
            matches YamlNode::Dict(m) && str_pairs_wf(m@))),
        _ => false,
    }
}

pub open spec fn usage_matches(n: YamlNode, u: UseModule) -> bool {
    match n {
        YamlNode::Str(s) => u == UseModule::Inline(UseInlineModule { value: s }),
        YamlNode::Dict(d) => d@.len() == 1 && (u matches UseModule::Input(im) && d@[0].0
            == YamlNode::Str(im.name) && (d@[0].1 is Null ==> im.template_vars@.len() == 0) && (
        d@[0].1 matches YamlNode::Dict(m) ==> str_pairs_match(m@, im.template_vars@))),
        _ => false,
    }
}

pub open spec fn usages_wf(l: Seq<YamlNode>) -> bool {
    forall|i: int| 0 <= i < l.len() ==> usage_wf(#[trigger] l[i])
}

/// The outputs section: a non-empty mapping of artifact name to a
/// list of usages.
pub open spec fn outputs_wf(n: YamlNode) -> bool {
    n matches YamlNode::Dict(d) && d@.len() >= 1 && forall|i: int|
        0 <= i < d@.len() ==> (#[trigger] d@[i]).0 is Str && (d@[i].1 matches YamlNode::List(l)
            && usages_wf(l@))
}

pub open spec fn output_entry_matches(p: (YamlNode, YamlNode), q: (String, Vec<UseModule>)) -> bool {
    p.0 == YamlNode::Str(q.0) && (p.1 matches YamlNode::List(l) && q.1@.len() == l@.len()
        && forall|i: int| 0 <= i < l@.len() ==> usage_matches(#[trigger] l@[i], q.1@[i]))
}

/// The inputs section: a mapping with an optional `modules` mapping
/// of strings and an optional `remotes` list of remote groups.
pub open spec fn inputs_wf(n: YamlNode) -> bool {
    n matches YamlNode::Dict(d) && (dict_has(d@, "modules"@) ==> (dict_val(d@, "modules"@) matches
        YamlNode::Dict(m) && str_pairs_wf(m@))) && (dict_has(d@, "remotes"@) ==> (dict_val(
        d@,
        "remotes"@,
    ) matches YamlNode::List(l) && forall|i: int| 0 <= i < l@.len() ==> remote_wf(#[trigger] l@[i])))
}

/// One optional hook under `hooks.build`.
pub open spec fn hook_wf(b: Seq<(YamlNode, YamlNode)>, key: Seq<char>) -> bool {
    dict_has(b, key) ==> dict_val(b, key) is Str
}

/// The optional hooks section: a mapping with a `build` mapping with
/// optional `pre` and `post` commands.
pub open spec fn hooks_wf(d: Seq<(YamlNode, YamlNode)>) -> bool {
    dict_has(d, "hooks"@) ==> (dict_val(d, "hooks"@) matches YamlNode::Dict(h) && dict_has(
        h@,
        "build"@,
    ) && (dict_val(h@, "build"@) matches YamlNode::Dict(b) && hook_wf(b@, "pre"@) && hook_wf(
        b@,
        "post"@,
    )))
}

pub open spec fn hook_match(d: Seq<(YamlNode, YamlNode)>, key: Seq<char>, h: Option<String>) -> bool {
    if dict_has(d, "hooks"@) {
        dict_val(d, "hooks"@) matches YamlNode::Dict(hd) && dict_val(hd@, "build"@) matches
            YamlNode::Dict(b) && (if dict_has(b@, key) {
            dict_val(b@, key) == YamlNode::Str(h->Some_0) && h is Some
        } else {
            h is None
        })
    } else {
        h is None
    }
}

/// A structurally valid specification document.
pub open spec fn yard_wf(n: YamlNode) -> bool {
    n matches YamlNode::Dict(d) && dict_has(d@, "inputs"@) && inputs_wf(dict_val(d@, "inputs"@))
        && dict_has(d@, "outputs"@) && outputs_wf(dict_val(d@, "outputs"@)) && hooks_wf(d@)
}

/// `y` is the intermediate spec read off the document `n`.
pub open spec fn yard_matches(n: YamlNode, y: YardFile) -> bool {
    n matches YamlNode::Dict(d) && (dict_val(d@, "inputs"@) matches YamlNode::Dict(di) && {
        &&& (if dict_has(di@, "modules"@) {
            dict_val(di@, "modules"@) matches YamlNode::Dict(m) && str_pairs_match(
                m@,
                y.input_modules@,
            )
        } else {
            y.input_modules@.len() == 0
        })
        &&& (if dict_has(di@, "remotes"@) {
            dict_val(di@, "remotes"@) matches YamlNode::List(l) && y.input_remotes@.len()
                == l@.len() && forall|i: int|
                0 <= i < l@.len() ==> remote_matches(#[trigger] l@[i], y.input_remotes@[i])
        } else {
            y.input_remotes@.len() == 0
        })
        &&& (dict_val(d@, "outputs"@) matches YamlNode::Dict(o) && y.output_container_files@.len()
            == o@.len() && forall|i: int|
            0 <= i < o@.len() ==> output_entry_matches(
                #[trigger] o@[i],
                y.output_container_files@[i],
            ))
        &&& hook_match(d@, "pre"@, y.pre_build_hook)
        &&& hook_match(d@, "post"@, y.post_build_hook)
    })
}

/// A structural fault at `instance_path`.
pub(crate) fn schema_err(instance_path: &str, message: &str) -> (r: BuildError)
    ensures
        r matches BuildError::SchemaViolation { instance_path: ip, schema_path: sp, message: m }
            && ip@ == instance_path@ && m@ == message@,
{
    BuildError::SchemaViolation {
        instance_path: String::from_str(instance_path),
        schema_path: String::from_str("yard document"),
        message: String::from_str(message),
    }
}

/// Read a mapping of strings to strings.
fn extract_str_pairs(d: &Vec<(YamlNode, YamlNode)>, instance_path: &str) -> (r: Result<
    Vec<(String, String)>,
    BuildError,
>)
    ensures
        r is Ok <==> str_pairs_wf(d@),
        r matches Ok(v) ==> str_pairs_match(d@, v@),
        r matches Err(e) ==> e matches BuildError::SchemaViolation { .. },
{
    let mut out: Vec<(String, String)> = Vec::new();
    let mut i: usize = 0;
    while i < d.len()
        invariant
            i <= d@.len(),
            out@.len() == i,
            forall|j: int| 0 <= j < i ==> (#[trigger] d@[j]).0 is Str && d@[j].1 is Str,
            forall|j: int|
                0 <= j < i ==> #[trigger] d@[j] == (
                YamlNode::Str(out@[j].0),
                YamlNode::Str(out@[j].1),
                ),
        decreases d@.len() - i,
    {
        match (&d[i].0, &d[i].1) {
            (YamlNode::Str(k), YamlNode::Str(v)) => {
                out.push((k.clone(), v.clone()));
            },
            _ => {
                return Result::Err(
                    schema_err(instance_path, "every key and value must be a string"),
                );
            },
        }
        i = i + 1;
    }
    Result::Ok(out)
}

/// Read one remote group entry.
fn extract_remote(n: &YamlNode, instance_path: &str) -> (r: Result<RemoteModules, BuildError>)
    ensures
        r is Ok <==> remote_wf(*n),
        r matches Ok(rm) ==> remote_matches(*n, rm),
        r matches Err(e) ==> e matches BuildError::SchemaViolation { .. },
{
    let d = match n {
        YamlNode::Dict(d) => d,
        _ => {
            return Result::Err(schema_err(instance_path, "a remote must be a mapping"));
        },
    };
    let url = match dict_get(d, "url") {
        Option::Some(YamlNode::Str(s)) => s.clone(),
        Option::Some(_) => {
            return Result::Err(schema_err(instance_path, "url must be a string"));
        },
        Option::None => {
            return Result::Err(schema_err(instance_path, "a remote must have a url"));
        },
    };
    let commit = match dict_get(d, "commit") {
        Option::Some(YamlNode::Str(s)) => s.clone(),
        Option::Some(_) => {
            return Result::Err(schema_err(instance_path, "commit must be a string"));
        },
        Option::None => {
            return Result::Err(schema_err(instance_path, "a remote must have a commit"));
        },
    };
    let name_to_path = match dict_get(d, "modules") {
        Option::Some(YamlNode::Dict(m)) => {
            match extract_str_pairs(m, instance_path) {
                Result::Ok(v) => v,
                Result::Err(e) => {
                    return Result::Err(e);
                },
            }
        },
        Option::Some(_) => {
            return Result::Err(schema_err(instance_path, "modules must be a mapping"));
        },
        Option::None => {
            return Result::Err(schema_err(instance_path, "a remote must have modules"));
        },
    };
    Result::Ok(RemoteModules { url, commit, name_to_path })
}

/// Read one usage of an output's part list.
fn extract_usage(n: &YamlNode, instance_path: &str) -> (r: Result<UseModule, BuildError>)
    ensures
        r is Ok <==> usage_wf(*n),
        r matches Ok(u) ==> usage_matches(*n, u),
        r matches Err(e) ==> e matches BuildError::SchemaViolation { .. },
{
    match n {
        YamlNode::Str(s) => Result::Ok(UseModule::Inline(UseInlineModule { value: s.clone() })),
        YamlNode::Dict(d) => {
            if d.len() != 1 {
                return Result::Err(
                    schema_err(instance_path, "a module usage must have exactly one key"),
                );
            }
            let name = match &d[0].0 {
                YamlNode::Str(s) => s.clone(),
                _ => {
                    return Result::Err(
                        schema_err(instance_path, "a module usage key must be a string"),
                    );
                },
            };
            let template_vars: Vec<(String, String)> = match &d[0].1 {
                YamlNode::Null => Vec::new(),
                YamlNode::Dict(m) => {
                    match extract_str_pairs(m, instance_path) {
                        Result::Ok(v) => v,
                        Result::Err(e) => {
                            return Result::Err(e);
                        },
                    }
                },
                _ => {
                    return Result::Err(
                        schema_err(
                            instance_path,
                            "a module usage value must be empty or a mapping of strings",
                        ),
                    );
                },
            };
            Result::Ok(UseModule::Input(UseInputModule { name, template_vars }))
        },
        _ => Result::Err(
            schema_err(instance_path, "a module usage must be a string or a mapping"),
        ),
    }
}

/// Read one optional hook command under `hooks.build`.
fn extract_hook(b: &Vec<(YamlNode, YamlNode)>, key: &str) -> (r: Result<Option<String>, BuildError>)
    ensures
        r is Ok <==> hook_wf(b@, key@),
        r matches Ok(h) ==> hook_match_entry(b@, key@, h),
        r matches Err(e) ==> e matches BuildError::SchemaViolation { .. },
{
    match dict_get(b, key) {
        Option::Some(YamlNode::Str(s)) => Result::Ok(Option::Some(s.clone())),
        Option::Some(_) => Result::Err(schema_err("/hooks/build", "a hook must be a string")),
        Option::None => Result::Ok(Option::None),
    }
}

/// The hook read off the `hooks.build` mapping itself.
pub open spec fn hook_match_entry(
    b: Seq<(YamlNode, YamlNode)>,
    key: Seq<char>,
    h: Option<String>,
) -> bool {
    if dict_has(b, key) {
        dict_val(b, key) == YamlNode::Str(h->Some_0) && h is Some
    } else {
        h is None
    }
}

/// Read the list of remote group entries.
fn extract_remotes(l: &Vec<YamlNode>) -> (r: Result<Vec<RemoteModules>, BuildError>)
    ensures
        r is Ok <==> (forall|j: int| 0 <= j < l@.len() ==> remote_wf(#[trigger] l@[j])),
        r matches Ok(rs) ==> rs@.len() == l@.len() && (forall|j: int|
            0 <= j < l@.len() ==> remote_matches(#[trigger] l@[j], rs@[j])),
        r matches Err(e) ==> e matches BuildError::SchemaViolation { .. },
{
    let mut rs: Vec<RemoteModules> = Vec::new();
    let mut i: usize = 0;
    while i < l.len()
        invariant
            i <= l@.len(),
            rs@.len() == i,
            forall|j: int| 0 <= j < i ==> remote_wf(#[trigger] l@[j]),
            forall|j: int| 0 <= j < i ==> remote_matches(#[trigger] l@[j], rs@[j]),
        decreases l@.len() - i,
    {
        match extract_remote(&l[i], "/inputs/remotes") {
            Result::Ok(rm) => {
                rs.push(rm);
            },
            Result::Err(e) => {
                return Result::Err(e);
            },
        }
        i = i + 1;
    }
    Result::Ok(rs)
}

/// Validate a parsed specification document and read the
/// intermediate spec off it. Succeeds exactly on structurally valid
/// documents.
pub fn yard_from_node(n: &YamlNode) -> (r: Result<YardFile, BuildError>)
    ensures
        r is Ok <==> yard_wf(*n),
        r matches Ok(y) ==> yard_matches(*n, y),
        r matches Err(e) ==> e matches BuildError::SchemaViolation { .. },
{
    let d = match n {
        YamlNode::Dict(d) => d,
        _ => {
            return Result::Err(schema_err("", "the document must be a mapping"));
        },
    };
    // inputs
    let inputs = match dict_get(d, "inputs") {
        Option::Some(v) => v,
        Option::None => {
            return Result::Err(schema_err("/inputs", "the document must have inputs"));
        },
    };
    let di = match inputs {
        YamlNode::Dict(di) => di,
        _ => {
            return Result::Err(schema_err("/inputs", "inputs must be a mapping"));
        },
    };
    let input_modules: Vec<(String, String)> = match dict_get(di, "modules") {
        Option::Some(YamlNode::Dict(m)) => {
            match extract_str_pairs(m, "/inputs/modules") {
                Result::Ok(v) => v,
                Result::Err(e) => {
                    return Result::Err(e);
                },
            }
        },
        Option::Some(_) => {
            return Result::Err(schema_err("/inputs/modules", "modules must be a mapping"));
        },
        Option::None => Vec::new(),
    };
    let input_remotes: Vec<RemoteModules> = match dict_get(di, "remotes") {
        Option::Some(YamlNode::List(l)) => {
            match extract_remotes(l) {
                Result::Ok(rs) => rs,
                Result::Err(e) => {
                    return Result::Err(e);
                },
            }
        },
        Option::Some(_) => {
            return Result::Err(schema_err("/inputs/remotes", "remotes must be a list"));
        },
        Option::None => Vec::new(),
    };
    // outputs
    let outputs = match dict_get(d, "outputs") {
        Option::Some(YamlNode::Dict(o)) => o,
        Option::Some(_) => {
            return Result::Err(schema_err("/outputs", "outputs must be a mapping"));
        },
        Option::None => {
            return Result::Err(schema_err("/outputs", "the document must have outputs"));
        },
    };
    if outputs.len() == 0 {
        return Result::Err(schema_err("/outputs", "outputs must not be empty"));
    }
    let mut output_container_files: Vec<(String, Vec<UseModule>)> = Vec::new();
    let mut oi: usize = 0;
    while oi < outputs.len()
        invariant
            *n matches YamlNode::Dict(d0) && d0@ == d@,
            dict_has(d@, "outputs"@),
            dict_val(d@, "outputs"@) matches YamlNode::Dict(o0) && o0@ == outputs@,
            oi <= outputs@.len(),
            output_container_files@.len() == oi,
            forall|j: int|
                0 <= j < oi ==> (#[trigger] outputs@[j]).0 is Str && (outputs@[j].1 matches
                YamlNode::List(l) && usages_wf(l@)),
            forall|j: int|
                0 <= j < oi ==> output_entry_matches(
                    #[trigger] outputs@[j],
                    output_container_files@[j],
                ),
        decreases outputs@.len() - oi,
    {
        let name = match &outputs[oi].0 {
            YamlNode::Str(s) => s.clone(),
            _ => {
                return Result::Err(schema_err("/outputs", "an output name must be a string"));
            },
        };
        let l = match &outputs[oi].1 {
            YamlNode::List(l) => l,
            _ => {
                return Result::Err(schema_err("/outputs", "an output must be a list of usages"));
            },
        };
        let mut us: Vec<UseModule> = Vec::new();
        let mut ui: usize = 0;
        while ui < l.len()
            invariant
                *n matches YamlNode::Dict(d0) && d0@ == d@,
                dict_has(d@, "outputs"@),
                dict_val(d@, "outputs"@) matches YamlNode::Dict(o0) && o0@ == outputs@,
                oi < outputs@.len(),
                outputs@[oi as int].1 matches YamlNode::List(l0) && l0@ == l@,
                ui <= l@.len(),
                us@.len() == ui,
                forall|j: int| 0 <= j < ui ==> usage_wf(#[trigger] l@[j]),
                forall|j: int| 0 <= j < ui ==> usage_matches(#[trigger] l@[j], us@[j]),
            decreases l@.len() - ui,
        {
            match extract_usage(&l[ui], "/outputs") {
                Result::Ok(u) => {
                    us.push(u);
                },
                Result::Err(e) => {
                    return Result::Err(e);
                },
            }
            ui = ui + 1;
        }
        output_container_files.push((name, us));
        oi = oi + 1;
    }
    // hooks
    let mut pre_build_hook: Option<String> = Option::None;
    let mut post_build_hook: Option<String> = Option::None;
    match dict_get(d, "hooks") {
        Option::None => {},
        Option::Some(YamlNode::Dict(h)) => {
            let b = match dict_get(h, "build") {
                Option::Some(YamlNode::Dict(b)) => b,
                Option::Some(_) => {
                    return Result::Err(schema_err("/hooks/build", "build must be a mapping"));
                },
                Option::None => {
                    return Result::Err(schema_err("/hooks", "hooks must have a build entry"));
                },
            };
            match extract_hook(b, "pre") {
                Result::Ok(h) => {
                    pre_build_hook = h;
                },
                Result::Err(e) => {
                    return Result::Err(e);
                },
            }
            match extract_hook(b, "post") {
                Result::Ok(h) => {
                    post_build_hook = h;
                },
                Result::Err(e) => {
                    return Result::Err(e);
                },
            }
        },
        Option::Some(_) => {
            return Result::Err(schema_err("/hooks", "hooks must be a mapping"));
        },
    }
    Result::Ok(
        YardFile {
            input_remotes,
            input_modules,
            output_container_files,
            pre_build_hook,
            post_build_hook,
        },
    )
}

/// The names of the locally declared modules, in declaration order.
pub open spec fn local_names(y: YardFile) -> Seq<String> {
    y.input_modules@.map_values(|p: (String, String)| p.0)
}

/// The names declared by the remote groups from index `i` on, in
/// declaration order.
pub open spec fn remote_names_from(rs: Seq<RemoteModules>, i: int) -> Seq<String>
    decreases rs.len() - i,
{
    if i < 0 || i >= rs.len() {
        Seq::empty()
    } else {
        rs[i].name_to_path@.map_values(|p: (String, String)| p.0) + remote_names_from(rs, i + 1)
    }
}

/// Every declared module name, local first, then each remote group,
/// in declaration order.
pub open spec fn decl_names(y: YardFile) -> Seq<String> {
    local_names(y) + remote_names_from(y.input_remotes@, 0)
}

/// No module name is declared twice.
pub open spec fn names_unique(ns: Seq<String>) -> bool {
    forall|i: int, j: int| 0 <= i < j < ns.len() ==> (#[trigger] ns[i])@ != (#[trigger] ns[j])@
}

/// Every declared module name with where it was declared.
fn collect_decls(y: &YardFile) -> (r: Vec<(String, DeclOrigin)>)
    ensures
        r@.len() == decl_names(*y).len(),
        forall|k: int| 0 <= k < r@.len() ==> (#[trigger] r@[k]).0 == decl_names(*y)[k],
{
    let ghost all = decl_names(*y);
    let mut out: Vec<(String, DeclOrigin)> = Vec::new();
    let mut i: usize = 0;
    while i < y.input_modules.len()
        invariant
            i <= y.input_modules@.len(),
            all == decl_names(*y),
            out@.len() == i,
            forall|k: int| 0 <= k < i ==> (#[trigger] out@[k]).0 == all[k],
        decreases y.input_modules@.len() - i,
    {
        proof {
            assert(all[i as int] == local_names(*y)[i as int]);
            assert(local_names(*y)[i as int] == y.input_modules@[i as int].0);
        }
        out.push(
            (
                y.input_modules[i].0.clone(),
                DeclOrigin::Local { path: y.input_modules[i].1.clone() },
            ),
        );
        i = i + 1;
    }
    let mut gi: usize = 0;
    while gi < y.input_remotes.len()
        invariant
            gi <= y.input_remotes@.len(),
            all == decl_names(*y),
            all =~= out@.map_values(|p: (String, DeclOrigin)| p.0) + remote_names_from(
                y.input_remotes@,
                gi as int,
            ),
            forall|k: int| 0 <= k < out@.len() ==> (#[trigger] out@[k]).0 == all[k],
        decreases y.input_remotes@.len() - gi,
    {
        let group = &y.input_remotes[gi];
        let mut pi: usize = 0;
        while pi < group.name_to_path.len()
            invariant
                gi < y.input_remotes@.len(),
                *group == y.input_remotes@[gi as int],
                pi <= group.name_to_path@.len(),
                all == decl_names(*y),
                all =~= out@.map_values(|p: (String, DeclOrigin)| p.0)
                    + group.name_to_path@.map_values(|p: (String, String)| p.0).skip(pi as int)
                    + remote_names_from(y.input_remotes@, gi as int + 1),
                forall|k: int| 0 <= k < out@.len() ==> (#[trigger] out@[k]).0 == all[k],
            decreases group.name_to_path@.len() - pi,
        {
            let ghost before = out@;
            out.push(
                (
                    group.name_to_path[pi].0.clone(),
                    DeclOrigin::Remote {
                        url: group.url.clone(),
                        commit: group.commit.clone(),
                        path: group.name_to_path[pi].1.clone(),
                    },
                ),
            );
            proof {
                let names = |p: (String, DeclOrigin)| p.0;
                let gnames = group.name_to_path@.map_values(|p: (String, String)| p.0);
                assert(out@.map_values(names) =~= before.map_values(names).push(
                    group.name_to_path@[pi as int].0,
                ));
                assert(gnames[pi as int] == group.name_to_path@[pi as int].0);
                assert(gnames.skip(pi as int) =~= seq![gnames[pi as int]] + gnames.skip(
                    pi as int + 1,
                ));
                assert(all =~= out@.map_values(names) + gnames.skip(pi as int + 1)
                    + remote_names_from(y.input_remotes@, gi as int + 1));
                assert(all[out@.len() - 1] == out@[out@.len() - 1].0);
            }
            pi = pi + 1;
        }
        proof {
            let gnames = group.name_to_path@.map_values(|p: (String, String)| p.0);
            assert(gnames.skip(group.name_to_path@.len() as int) =~= Seq::<String>::empty());
        }
        gi = gi + 1;
    }
    proof {
        assert(remote_names_from(y.input_remotes@, y.input_remotes@.len() as int)
            =~= Seq::<String>::empty());
        assert(all =~= out@.map_values(|p: (String, DeclOrigin)| p.0));
    }
    out
}

/// Rejects any module name declared more than once, across local and
/// remote inputs alike, before any module content is read.
pub fn check_module_names_unique(y: &YardFile) -> (r: Result<(), BuildError>)
    ensures
        r is Ok <==> names_unique(decl_names(*y)),
        r matches Err(e) ==> e matches BuildError::DuplicateModuleName { name, .. } && exists|
            i: int,
            j: int,
        |
            0 <= i < j < decl_names(*y).len() && (#[trigger] decl_names(*y)[i])@ == (
            #[trigger] decl_names(*y)[j])@ && name@ == decl_names(*y)[i]@,
{
    let decls = collect_decls(y);
    let ghost all = decl_names(*y);
    let n = decls.len();
    let mut j: usize = 1;
    while j < n
        invariant
            n == decls@.len(),
            n == all.len(),
            all == decl_names(*y),
            forall|k: int| 0 <= k < n ==> (#[trigger] decls@[k]).0 == all[k],
            1 <= j,
            forall|p: int, q: int| 0 <= p < q < j ==> (#[trigger] all[p])@ != (#[trigger] all[q])@,
        decreases n - j,
    {
        let mut i: usize = 0;
        while i < j
            invariant
                n == decls@.len(),
                n == all.len(),
                all == decl_names(*y),
                forall|k: int| 0 <= k < n ==> (#[trigger] decls@[k]).0 == all[k],
                i <= j < n,
                forall|p: int| 0 <= p < i ==> (#[trigger] all[p])@ != all[j as int]@,
            decreases j - i,
        {
            if text::str_eq(decls[i].0.as_str(), decls[j].0.as_str()) {
                return Result::Err(
                    BuildError::DuplicateModuleName {
                        name: decls[i].0.clone(),
                        first_decl: decls[i].1.clone(),
                        second_decl: decls[j].1.clone(),
                    },
                );
            }
            i = i + 1;
        }
        j = j + 1;
    }
    proof {
        if !names_unique(all) {
            let (p, q) = choose|p: int, q: int|
                0 <= p < q < all.len() && (#[trigger] all[p])@ == (#[trigger] all[q])@;
            assert(false);
        }
    }
    Result::Ok(())
}

/// Judge one finished build hook: a non-zero exit is fatal but is
/// reported, never retried.
pub fn hook_outcome(command: &str, success: bool, detail: String) -> (r: Result<(), BuildError>)
    ensures
        r is Ok <==> success,
        r matches Err(e) ==> e matches BuildError::HookFailure { command: c, detail: d } && c@
            == command@ && d == detail,
{
    if success {
        Result::Ok(())
    } else {
        Result::Err(BuildError::HookFailure { command: String::from_str(command), detail })
    }
}

/// Parse specification text and validate its structure: succeeds
/// exactly on text whose parse is a structurally valid document, and
/// then returns the intermediate spec read off that document.
pub fn parse_yard_text(text: &str) -> (r: Result<YardFile, BuildError>)
    ensures
        r is Ok <==> (crate::yaml::yaml_doc(text@) matches Some(n) && yard_wf(n)),
        r matches Ok(y) ==> yard_matches(crate::yaml::yaml_doc(text@)->Some_0, y),
        r matches Err(e) ==> e matches BuildError::SchemaViolation { .. },
{
    match crate::yaml::parse_yaml_text(text) {
        Result::Ok(node) => yard_from_node(&node),
        Result::Err(m) => Result::Err(
            BuildError::SchemaViolation {
                instance_path: String::new(),
                schema_path: String::from_str("yard document"),
                message: m,
            },
        ),
    }
}

} // verus!
