//! The template compositor. Each finalized part renders in a context
//! holding only its own resolved assignments — nothing is shared or
//! inherited across parts — and the rendered bodies are concatenated
//! in declared order, each under a provenance banner, joined by one
//! blank separator line.
//!
//! The engine itself is handed in by the caller: tera's evaluator can
//! abort the process on adversarial template arithmetic (a float
//! overflowing to infinity is unwrapped inside its number
//! conversion), and no usable precondition separates such templates
//! from ordinary ones, so the one call that may abort stands outside
//! the library, where the caller can contain it. Everything around
//! the call is stated here: each part is rendered with exactly its
//! own template and assignments, a failure carries that part's
//! provenance, and the composed text is fixed exactly.

use vstd::prelude::*;
use vstd::string::*;

use crate::builder::clone_pair_vec;
use crate::builder::Module;
use crate::error::BuildError;
use crate::source_info::label_spec;
use crate::text;

verus! {

/// The engine returned `s` for exactly this part's template and its
/// own assignments.
pub open spec fn rendered_by<F: Fn(String, Vec<(String, String)>) -> Result<String, String>>(
    render: F,
    m: Module,
    s: String,
) -> bool {
    exists|t: String, v: Vec<(String, String)>|
        t == m.spec_template() && v@ == m.spec_provided() && #[trigger] call_ensures(
            render,
            (t, v),
            Result::<String, String>::Ok(s),
        )
}

/// The engine rejected exactly this part's template under its own
/// assignments, with this message.
pub open spec fn render_failed_by<F: Fn(String, Vec<(String, String)>) -> Result<String, String>>(
    render: F,
    m: Module,
    detail: String,
) -> bool {
    exists|t: String, v: Vec<(String, String)>|
        t == m.spec_template() && v@ == m.spec_provided() && #[trigger] call_ensures(
            render,
            (t, v),
            Result::<String, String>::Err(detail),
        )
}

/// Render every part of one output independently through the
/// caller's engine, each in a context of only its own assignments.
/// Fails with the provenance of a part the engine rejected; every
/// rendered text is one the engine returned for exactly that part's
/// template and assignments.
pub fn render_parts<F: Copy + Fn(String, Vec<(String, String)>) -> Result<String, String>>(
    parts: &Vec<Module>,
    render: F,
) -> (r: Result<Vec<String>, BuildError>)
    requires
        forall|t: String, v: Vec<(String, String)>| #[trigger] call_requires(render, (t, v)),
    ensures
        r matches Ok(rs) ==> rs@.len() == parts@.len() && (forall|k: int|
            0 <= k < parts@.len() ==> rendered_by(render, #[trigger] parts@[k], rs@[k])),
        r matches Err(e) ==> e matches BuildError::TemplateRenderError { origin, detail }
            && exists|k: int|
            0 <= k < parts@.len() && origin == (#[trigger] parts@[k]).spec_source()
                && render_failed_by(render, parts@[k], detail),
{
    let mut out: Vec<String> = Vec::new();
    let mut k: usize = 0;
    while k < parts.len()
        invariant
            forall|t: String, v: Vec<(String, String)>| #[trigger] call_requires(render, (t, v)),
            k <= parts@.len(),
            out@.len() == k,
            forall|j: int| 0 <= j < k ==> rendered_by(render, #[trigger] parts@[j], out@[j]),
        decreases parts@.len() - k,
    {
        let part = &parts[k];
        let template = part.containerfile_template().clone();
        let vars = clone_pair_vec(part.provided_template_values());
        let ghost gt = template;
        let ghost gv = vars;
        match render(template, vars) {
            Result::Ok(s) => {
                out.push(s);
                proof {
                    assert(rendered_by(render, parts@[k as int], out@[k as int])) by {
                        assert(gt == parts@[k as int].spec_template());
                        assert(gv@ == parts@[k as int].spec_provided());
                        assert(call_ensures(
                            render,
                            (gt, gv),
                            Result::<String, String>::Ok(out@[k as int]),
                        ));
                    }
                }
            },
            Result::Err(m) => {
                let ghost gm = m;
                proof {
                    assert(render_failed_by(render, parts@[k as int], gm)) by {
                        assert(gt == parts@[k as int].spec_template());
                        assert(gv@ == parts@[k as int].spec_provided());
                        assert(call_ensures(render, (gt, gv), Result::<String, String>::Err(gm)));
                    }
                }
                return Result::Err(
                    BuildError::TemplateRenderError { origin: part.source_info().clone(), detail: m },
                );
            },
        }
        k = k + 1;
    }
    Result::Ok(out)
}

/// The banner-labelled text of one rendered part.
pub open spec fn part_text(m: Module, rendered: Seq<char>) -> Seq<char> {
    "####  "@ + label_spec(m.spec_source()) + "  ####\n\n"@ + text::trim_spec(rendered) + "\n"@
}

/// The composed text of the first `i` parts, joined by one newline.
pub open spec fn compose_upto(parts: Seq<Module>, rendered: Seq<Seq<char>>, i: int) -> Seq<char>
    decreases i,
{
    if i <= 0 {
        Seq::empty()
    } else if i == 1 {
        part_text(parts[0], rendered[0])
    } else {
        compose_upto(parts, rendered, i - 1) + "\n"@ + part_text(parts[i - 1], rendered[i - 1])
    }
}

/// The whole output text of one artifact.
pub open spec fn compose_spec(parts: Seq<Module>, rendered: Seq<Seq<char>>) -> Seq<char> {
    compose_upto(parts, rendered, parts.len() as int)
}

/// The views of a vector of strings.
pub open spec fn seq_views(ss: Seq<String>) -> Seq<Seq<char>> {
    ss.map_values(|s: String| s@)
}

/// Concatenate the rendered parts of one artifact, in declared
/// order, each under its provenance banner.
pub fn compose_rendered(parts: &Vec<Module>, rendered: &Vec<String>) -> (r: String)
    requires
        rendered@.len() == parts@.len(),
    ensures
        r@ == compose_spec(parts@, seq_views(rendered@)),
{
    let ghost rv = seq_views(rendered@);
    let mut out = String::new();
    let mut i: usize = 0;
    while i < parts.len()
        invariant
            rendered@.len() == parts@.len(),
            rv == seq_views(rendered@),
            i <= parts@.len(),
            out@ == compose_upto(parts@, rv, i as int),
        decreases parts@.len() - i,
    {
        if i > 0 {
            out.append("\n");
        }
        out.append("####  ");
        let label = parts[i].source_info().label();
        out.append(label.as_str());
        out.append("  ####\n\n");
        let trimmed = text::trim(rendered[i].as_str());
        out.append(trimmed);
        out.append("\n");
        proof {
            assert(rv[i as int] == rendered@[i as int]@);
        }
        i = i + 1;
    }
    out
}

/// Render and label every declared output through the caller's
/// engine, in the spec's declared output order; output names and
/// order are preserved exactly, and a failure carries the offending
/// part's provenance.
pub fn apply_templates_and_labels<
    F: Copy + Fn(String, Vec<(String, String)>) -> Result<String, String>,
>(outputs: &Vec<(String, Vec<Module>)>, render: F) -> (r: Result<
    Vec<(String, String)>,
    BuildError,
>)
    requires
        forall|t: String, v: Vec<(String, String)>| #[trigger] call_requires(render, (t, v)),
    ensures
        r matches Ok(rs) ==> rs@.len() == outputs@.len() && (forall|k: int|
            0 <= k < outputs@.len() ==> (#[trigger] rs@[k]).0 == outputs@[k].0),
        r matches Err(e) ==> e matches BuildError::TemplateRenderError { origin, .. } && exists|
            k: int,
            j: int,
        |
            0 <= k < outputs@.len() && 0 <= j < (#[trigger] outputs@[k]).1@.len() && origin == (
            #[trigger] outputs@[k].1@[j]).spec_source(),
{
    let mut rs: Vec<(String, String)> = Vec::new();
    let mut k: usize = 0;
    while k < outputs.len()
        invariant
            forall|t: String, v: Vec<(String, String)>| #[trigger] call_requires(render, (t, v)),
            k <= outputs@.len(),
            rs@.len() == k,
            forall|j: int| 0 <= j < k ==> (#[trigger] rs@[j]).0 == outputs@[j].0,
        decreases outputs@.len() - k,
    {
        let (name, parts) = &outputs[k];
        let rendered = match render_parts(parts, render) {
            Result::Ok(v) => v,
            Result::Err(e) => {
                proof {
                    let ee = e;
                    match ee {
                        BuildError::TemplateRenderError { origin, .. } => {
                            let jj = choose|jj: int|
                                0 <= jj < parts@.len() && origin == (
                                #[trigger] parts@[jj]).spec_source();
                            assert(outputs@[k as int].1@[jj].spec_source() == origin);
                        },
                        _ => {},
                    }
                }
                return Result::Err(e);
            },
        };
        let content = compose_rendered(parts, &rendered);
        rs.push((name.clone(), content));
        k = k + 1;
    }
    Result::Ok(rs)
}

/// At least one module must have resolved for some output; this is
/// the earlier failure, distinct from producing no artifact from
/// resolved modules.
pub fn check_modules_resolved(n_resolved: usize) -> (r: Result<(), BuildError>)
    ensures
        r is Ok <==> n_resolved > 0,
        r matches Err(e) ==> e == BuildError::NoModulesResolved,
{
    if n_resolved == 0 {
        Result::Err(BuildError::NoModulesResolved)
    } else {
        Result::Ok(())
    }
}

/// At least one artifact must have been produced.
pub fn check_artifacts_produced(outputs: &Vec<(String, String)>) -> (r: Result<(), BuildError>)
    ensures
        r is Ok <==> outputs@.len() > 0,
        r matches Err(e) ==> e == BuildError::NoArtifactsProduced,
{
    if outputs.len() == 0 {
        Result::Err(BuildError::NoArtifactsProduced)
    } else {
        Result::Ok(())
    }
}

} // verus!
