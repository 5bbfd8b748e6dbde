//! The two-phase module type. A [`ModuleBuilder`] accumulates a
//! module's template, variable contract and provided assignments; the
//! single validating constructor [`ModuleBuilder::build`] turns it
//! into an immutable [`Module`], and nothing else can construct one.
//!
//! Finalization succeeds exactly when the provided assignment names
//! lie between the required set and the union of the required and
//! optional sets, and every declared file path is traversal-safe.

use vstd::prelude::*;
use vstd::string::*;

use crate::error::BuildError;
use crate::paths;
use crate::source_info::InlineModuleInfo;
use crate::source_info::SourceInfoKind;
use crate::text;

verus! {

/// Raw content of one module: template body, declared-argument
/// document, and where both came from.
#[derive(Debug, Clone, PartialEq, Eq)]
pub struct ModuleFileData {
    pub containerfile_data: String,
    pub config_data: String,
    pub source_info: SourceInfoKind,
}

/// Staging value for one module while its contract is gathered and a
/// usage's assignments accumulate.
#[derive(Debug, Clone, PartialEq, Eq)]
pub struct ModuleBuilder {
    pub containerfile_data: String,
    pub required_files: Vec<String>,
    pub required_template_values: Vec<String>,
    pub optional_template_values: Vec<String>,
    pub provided_template_values: Vec<(String, String)>,
    /// source info for better errors
    pub source_info: SourceInfoKind,
}

/// A finalized artifact part: template and resolved assignments,
/// ready to render. Only [`ModuleBuilder::build`] constructs one.
#[derive(Debug, Clone, PartialEq, Eq)]
pub struct Module {
    containerfile_template: String,
    provided_template_values: Vec<(String, String)>,
    source_info: SourceInfoKind,
}

impl Module {
    pub closed spec fn spec_template(self) -> String {
        self.containerfile_template
    }

    pub closed spec fn spec_provided(self) -> Seq<(String, String)> {
        self.provided_template_values@
    }

    pub closed spec fn spec_source(self) -> SourceInfoKind {
        self.source_info
    }

    pub fn containerfile_template(&self) -> (r: &String)
        ensures
            r == self.spec_template(),
    {
        &self.containerfile_template
    }

    pub fn provided_template_values(&self) -> (r: &Vec<(String, String)>)
        ensures
            r@ == self.spec_provided(),
    {
        &self.provided_template_values
    }

    pub fn source_info(&self) -> (r: &SourceInfoKind)
        ensures
            r == self.spec_source(),
    {
        &self.source_info
    }
}

/// Some element of `xs` reads `n`.
pub open spec fn contains_str(xs: Seq<String>, n: Seq<char>) -> bool {
    exists|i: int| 0 <= i < xs.len() && #[trigger] xs[i]@ == n
}

/// Some pair of `ps` has key `n`.
pub open spec fn contains_key(ps: Seq<(String, String)>, n: Seq<char>) -> bool {
    exists|i: int| 0 <= i < ps.len() && #[trigger] ps[i].0@ == n
}

/// First index of `req` whose name has no pair in `prov`; `req.len()`
/// if every required name is provided.
pub open spec fn first_missing(req: Seq<String>, prov: Seq<(String, String)>, i: int) -> int
    decreases req.len() - i,
{
    if i < 0 {
        first_missing(req, prov, 0)
    } else if i >= req.len() {
        req.len() as int
    } else if !contains_key(prov, req[i]@) {
        i
    } else {
        first_missing(req, prov, i + 1)
    }
}

/// First index of `prov` whose key is neither a required nor an
/// optional name; `prov.len()` if every provided name is known.
pub open spec fn first_unknown(
    req: Seq<String>,
    opt: Seq<String>,
    prov: Seq<(String, String)>,
    i: int,
) -> int
    decreases prov.len() - i,
{
    if i < 0 {
        first_unknown(req, opt, prov, 0)
    } else if i >= prov.len() {
        prov.len() as int
    } else if !contains_str(req, prov[i].0@) && !contains_str(opt, prov[i].0@) {
        i
    } else {
        first_unknown(req, opt, prov, i + 1)
    }
}

/// First index of `files` holding an unsafe path; `files.len()` if
/// every path is safe.
pub open spec fn first_unsafe(files: Seq<String>, i: int) -> int
    decreases files.len() - i,
{
    if i < 0 {
        first_unsafe(files, 0)
    } else if i >= files.len() {
        files.len() as int
    } else if !paths::path_is_safe(files[i]@) {
        i
    } else {
        first_unsafe(files, i + 1)
    }
}

/// Finalization succeeds iff `required ⊆ provided ⊆ required ∪
/// optional` (as name sets) and every declared file path is safe.
pub open spec fn finalize_ok(
    req: Seq<String>,
    opt: Seq<String>,
    prov: Seq<(String, String)>,
    files: Seq<String>,
) -> bool {
    &&& forall|i: int| 0 <= i < req.len() ==> contains_key(prov, #[trigger] req[i]@)
    &&& forall|i: int|
        0 <= i < prov.len() ==> contains_str(req, #[trigger] prov[i].0@) || contains_str(
            opt,
            prov[i].0@,
        )
    &&& forall|i: int| 0 <= i < files.len() ==> paths::path_is_safe(#[trigger] files[i]@)
}

/// The error finalization fails with: the first missing required
/// name, else the first unknown provided name, else the first unsafe
/// path.
pub open spec fn finalize_error(
    req: Seq<String>,
    opt: Seq<String>,
    prov: Seq<(String, String)>,
    files: Seq<String>,
    origin: SourceInfoKind,
) -> BuildError {
    if first_missing(req, prov, 0) < req.len() {
        BuildError::MissingRequiredVariable {
            name: req[first_missing(req, prov, 0)],
            origin: origin,
        }
    } else if first_unknown(req, opt, prov, 0) < prov.len() {
        BuildError::UnknownProvidedVariable {
            name: prov[first_unknown(req, opt, prov, 0)].0,
            origin: origin,
        }
    } else {
        BuildError::PathTraversalRejected { path: files[first_unsafe(files, 0)] }
    }
}

/// Whether some element of `xs` reads `n`.
pub fn names_contain(xs: &Vec<String>, n: &str) -> (r: bool)
    ensures
        r == contains_str(xs@, n@),
{
    let mut i: usize = 0;
    while i < xs.len()
        invariant
            i <= xs@.len(),
            forall|j: int| 0 <= j < i ==> #[trigger] xs@[j]@ != n@,
        decreases xs@.len() - i,
    {
        if text::str_eq(xs[i].as_str(), n) {
            return true;
        }
        i = i + 1;
    }
    proof {
        if contains_str(xs@, n@) {
            let j = choose|j: int| 0 <= j < xs@.len() && #[trigger] xs@[j]@ == n@;
            assert(false);
        }
    }
    false
}

/// Whether some pair of `ps` has key `n`.
pub fn keys_contain(ps: &Vec<(String, String)>, n: &str) -> (r: bool)
    ensures
        r == contains_key(ps@, n@),
{
    let mut i: usize = 0;
    while i < ps.len()
        invariant
            i <= ps@.len(),
            forall|j: int| 0 <= j < i ==> #[trigger] ps@[j].0@ != n@,
        decreases ps@.len() - i,
    {
        if text::str_eq(ps[i].0.as_str(), n) {
            return true;
        }
        i = i + 1;
    }
    proof {
        if contains_key(ps@, n@) {
            let j = choose|j: int| 0 <= j < ps@.len() && #[trigger] ps@[j].0@ == n@;
            assert(false);
        }
    }
    false
}

impl ModuleBuilder {
    /// The single validating constructor of [`Module`]: checks the
    /// variable contract and the declared file paths, then freezes
    /// the part.
    pub fn build(self) -> (r: Result<Module, BuildError>)
        ensures
            r is Ok <==> finalize_ok(
                self.required_template_values@,
                self.optional_template_values@,
                self.provided_template_values@,
                self.required_files@,
            ),
            r matches Ok(m) ==> m.spec_template() == self.containerfile_data
                && m.spec_provided() == self.provided_template_values@ && m.spec_source()
                == self.source_info,
            r matches Err(e) ==> e == finalize_error(
                self.required_template_values@,
                self.optional_template_values@,
                self.provided_template_values@,
                self.required_files@,
                self.source_info,
            ),
    {
        let req = &self.required_template_values;
        let opt = &self.optional_template_values;
        let prov = &self.provided_template_values;
        let files = &self.required_files;
        let mut i: usize = 0;
        while i < req.len()
            invariant
                req == &self.required_template_values,
                prov == &self.provided_template_values,
                i <= req@.len(),
                first_missing(req@, prov@, 0) == first_missing(req@, prov@, i as int),
                forall|j: int| 0 <= j < i ==> contains_key(prov@, #[trigger] req@[j]@),
            decreases req@.len() - i,
        {
            if !keys_contain(prov, req[i].as_str()) {
                proof {
                    assert(first_missing(req@, prov@, i as int) == i as int);
                }
                return Result::Err(
                    BuildError::MissingRequiredVariable {
                        name: req[i].clone(),
                        origin: self.source_info.clone(),
                    },
                );
            }
            i = i + 1;
        }
        let mut i: usize = 0;
        while i < prov.len()
            invariant
                req == &self.required_template_values,
                opt == &self.optional_template_values,
                prov == &self.provided_template_values,
                i <= prov@.len(),
                first_missing(req@, prov@, 0) == req@.len(),
                forall|j: int| 0 <= j < req@.len() ==> contains_key(prov@, #[trigger] req@[j]@),
                first_unknown(req@, opt@, prov@, 0) == first_unknown(req@, opt@, prov@, i as int),
                forall|j: int|
                    0 <= j < i ==> contains_str(req@, #[trigger] prov@[j].0@) || contains_str(
                        opt@,
                        prov@[j].0@,
                    ),
            decreases prov@.len() - i,
        {
            if !names_contain(req, prov[i].0.as_str()) && !names_contain(opt, prov[i].0.as_str()) {
                proof {
                    assert(first_unknown(req@, opt@, prov@, i as int) == i as int);
                }
                return Result::Err(
                    BuildError::UnknownProvidedVariable {
                        name: prov[i].0.clone(),
                        origin: self.source_info.clone(),
                    },
                );
            }
            i = i + 1;
        }
        // the paths were already checked at declaration time; checked
        // again so that the constructor alone guarantees the invariant
        let mut i: usize = 0;
        while i < files.len()
            invariant
                req == &self.required_template_values,
                opt == &self.optional_template_values,
                prov == &self.provided_template_values,
                files == &self.required_files,
                i <= files@.len(),
                first_missing(req@, prov@, 0) == req@.len(),
                forall|j: int| 0 <= j < req@.len() ==> contains_key(prov@, #[trigger] req@[j]@),
                first_unknown(req@, opt@, prov@, 0) == prov@.len(),
                forall|j: int|
                    0 <= j < prov@.len() ==> contains_str(req@, #[trigger] prov@[j].0@)
                        || contains_str(opt@, prov@[j].0@),
                first_unsafe(files@, 0) == first_unsafe(files@, i as int),
                forall|j: int| 0 <= j < i ==> paths::path_is_safe(#[trigger] files@[j]@),
            decreases files@.len() - i,
        {
            if !paths::check_path_safe(files[i].as_str()) {
                proof {
                    assert(first_unsafe(files@, i as int) == i as int);
                }
                return Result::Err(BuildError::PathTraversalRejected { path: files[i].clone() });
            }
            i = i + 1;
        }
        Result::Ok(
            Module {
                containerfile_template: self.containerfile_data,
                provided_template_values: self.provided_template_values,
                source_info: self.source_info,
            },
        )
    }
}

/// An inline usage's part: the raw text is the whole template, with
/// nothing provided and inline provenance.
pub fn inline_module(value: String) -> (r: Module)
    ensures
        r.spec_template() == value,
        r.spec_provided() == Seq::<(String, String)>::empty(),
        r.spec_source() == SourceInfoKind::InlineModuleInfo(InlineModuleInfo { value: value }),
{
    let source = SourceInfoKind::InlineModuleInfo(InlineModuleInfo { value: value.clone() });
    let provided: Vec<(String, String)> = Vec::new();
    proof {
        assert(provided@ =~= Seq::<(String, String)>::empty());
    }
    Module { containerfile_template: value, provided_template_values: provided, source_info: source }
}

/// Copy a vector of strings.
pub fn clone_string_vec(v: &Vec<String>) -> (r: Vec<String>)
    ensures
        r@ == v@,
{
    let mut out: Vec<String> = Vec::new();
    let mut i: usize = 0;
    while i < v.len()
        invariant
            i <= v@.len(),
            out@.len() == i,
            forall|j: int| 0 <= j < i ==> out@[j] == v@[j],
        decreases v@.len() - i,
    {
        out.push(v[i].clone());
        i = i + 1;
    }
    proof {
        assert(out@ =~= v@);
    }
    out
}

/// Copy a vector of string pairs.
pub fn clone_pair_vec(v: &Vec<(String, String)>) -> (r: Vec<(String, String)>)
    ensures
        r@ == v@,
{
    let mut out: Vec<(String, String)> = Vec::new();
    let mut i: usize = 0;
    while i < v.len()
        invariant
            i <= v@.len(),
            out@.len() == i,
            forall|j: int| 0 <= j < i ==> out@[j] == v@[j],
        decreases v@.len() - i,
    {
        out.push((v[i].0.clone(), v[i].1.clone()));
        i = i + 1;
    }
    proof {
        assert(out@ =~= v@);
    }
    out
}

impl ModuleBuilder {
    /// A fresh staging value with the same content, for one usage to
    /// accumulate its assignments into.
    pub fn duplicate(&self) -> (r: ModuleBuilder)
        ensures
            r.containerfile_data == self.containerfile_data,
            r.required_files@ == self.required_files@,
            r.required_template_values@ == self.required_template_values@,
            r.optional_template_values@ == self.optional_template_values@,
            r.provided_template_values@ == self.provided_template_values@,
            r.source_info == self.source_info,
    {
        ModuleBuilder {
            containerfile_data: self.containerfile_data.clone(),
            required_files: clone_string_vec(&self.required_files),
            required_template_values: clone_string_vec(&self.required_template_values),
            optional_template_values: clone_string_vec(&self.optional_template_values),
            provided_template_values: clone_pair_vec(&self.provided_template_values),
            source_info: self.source_info.clone(),
        }
    }
}

/// One usage of a declared output, with every assignment value
/// already resolved to a literal.
#[derive(Debug, PartialEq, Eq)]
pub enum ResolvedUsage {
    /// Verbatim text.
    Inline(String),
    /// Reference to a declared module with the resolved assignments.
    Reference { name: String, values: Vec<(String, String)> },
}

/// First index of `mods` declaring name `n`; `mods.len()` if none.
pub open spec fn find_module(mods: Seq<(String, ModuleBuilder)>, n: Seq<char>, i: int) -> int
    decreases mods.len() - i,
{
    if i < 0 {
        find_module(mods, n, 0)
    } else if i >= mods.len() {
        mods.len() as int
    } else if mods[i].0@ == n {
        i
    } else {
        find_module(mods, n, i + 1)
    }
}

/// Whether finalizing `u` against the declared modules succeeds: an
/// inline usage always does; a reference must name a declared module
/// and meet its variable contract.
pub open spec fn usage_ok(mods: Seq<(String, ModuleBuilder)>, u: ResolvedUsage) -> bool {
    match u {
        ResolvedUsage::Inline(_) => true,
        ResolvedUsage::Reference { name, values } => {
            let k = find_module(mods, name@, 0);
            &&& k < mods.len()
            &&& finalize_ok(
                mods[k].1.required_template_values@,
                mods[k].1.optional_template_values@,
                mods[k].1.provided_template_values@ + values@,
                mods[k].1.required_files@,
            )
        },
    }
}

/// The error a failing usage finalizes with.
pub open spec fn usage_error(mods: Seq<(String, ModuleBuilder)>, u: ResolvedUsage) -> BuildError {
    match u {
        ResolvedUsage::Inline(_) => arbitrary(),
        ResolvedUsage::Reference { name, values } => {
            let k = find_module(mods, name@, 0);
            if k >= mods.len() {
                BuildError::UnknownModuleReference { name: name }
            } else {
                finalize_error(
                    mods[k].1.required_template_values@,
                    mods[k].1.optional_template_values@,
                    mods[k].1.provided_template_values@ + values@,
                    mods[k].1.required_files@,
                    mods[k].1.source_info,
                )
            }
        },
    }
}

/// The part a successful usage produces.
pub open spec fn part_matches(
    mods: Seq<(String, ModuleBuilder)>,
    u: ResolvedUsage,
    m: Module,
) -> bool {
    match u {
        ResolvedUsage::Inline(s) => {
            &&& m.spec_template() == s
            &&& m.spec_provided() == Seq::<(String, String)>::empty()
            &&& m.spec_source() == SourceInfoKind::InlineModuleInfo(InlineModuleInfo { value: s })
        },
        ResolvedUsage::Reference { name, values } => {
            let k = find_module(mods, name@, 0);
            &&& m.spec_template() == mods[k].1.containerfile_data
            &&& m.spec_provided() == mods[k].1.provided_template_values@ + values@
            &&& m.spec_source() == mods[k].1.source_info
        },
    }
}

/// First declared module of that name, by linear scan.
fn find_module_exec(mods: &Vec<(String, ModuleBuilder)>, n: &str) -> (r: usize)
    ensures
        r == find_module(mods@, n@, 0),
        r <= mods@.len(),
{
    let mut i: usize = 0;
    while i < mods.len()
        invariant
            i <= mods@.len(),
            find_module(mods@, n@, 0) == find_module(mods@, n@, i as int),
        decreases mods@.len() - i,
    {
        if text::str_eq(mods[i].0.as_str(), n) {
            return i;
        }
        i = i + 1;
    }
    i
}

/// Finalize every usage of one declared output, in order. Fails with
/// the first failing usage's error; succeeds with one part per usage.
pub fn finalize_output(
    mods: &Vec<(String, ModuleBuilder)>,
    usages: &Vec<ResolvedUsage>,
) -> (r: Result<Vec<Module>, BuildError>)
    ensures
        r is Ok <==> (forall|k: int| 0 <= k < usages@.len() ==> usage_ok(mods@, #[trigger] usages@[k])),
        r matches Ok(parts) ==> parts@.len() == usages@.len() && (forall|k: int|
            0 <= k < usages@.len() ==> part_matches(mods@, #[trigger] usages@[k], parts@[k])),
        r matches Err(e) ==> exists|k: int|
            0 <= k < usages@.len() && !usage_ok(mods@, #[trigger] usages@[k]) && (forall|j: int|
                0 <= j < k ==> usage_ok(mods@, #[trigger] usages@[j])) && e == usage_error(
                mods@,
                usages@[k],
            ),
{
    let mut parts: Vec<Module> = Vec::new();
    let mut k: usize = 0;
    let n = usages.len();
    while k < n
        invariant
            n == usages@.len(),
            k <= n,
            parts@.len() == k,
            forall|j: int| 0 <= j < k ==> usage_ok(mods@, #[trigger] usages@[j]),
            forall|j: int| 0 <= j < k ==> part_matches(mods@, #[trigger] usages@[j], parts@[j]),
        decreases n - k,
    {
        let u = &usages[k];
        match u {
            ResolvedUsage::Inline(value) => {
                let part = inline_module(value.clone());
                parts.push(part);
            },
            ResolvedUsage::Reference { name, values } => {
                let idx = find_module_exec(mods, name.as_str());
                if idx == mods.len() {
                    proof {
                        let uu = usages@[k as int];
                        assert(uu matches ResolvedUsage::Reference { name: n2, values: v2 }
                            && n2 == *name && v2 == *values);
                        assert(!usage_ok(mods@, uu));
                    }
                    return Result::Err(
                        BuildError::UnknownModuleReference { name: name.clone() },
                    );
                }
                let mut staged = mods[idx].1.duplicate();
                let mut vi: usize = 0;
                while vi < values.len()
                    invariant
                        vi <= values@.len(),
                        staged.containerfile_data == mods@[idx as int].1.containerfile_data,
                        staged.required_files@ == mods@[idx as int].1.required_files@,
                        staged.required_template_values@ == mods@[idx as int].1.required_template_values@,
                        staged.optional_template_values@ == mods@[idx as int].1.optional_template_values@,
                        staged.provided_template_values@ == mods@[idx as int].1.provided_template_values@
                            + values@.subrange(0, vi as int),
                        staged.source_info == mods@[idx as int].1.source_info,
                        idx < mods@.len(),
                        usages@[k as int] matches ResolvedUsage::Reference { name: n2, values: v2 }
                            && n2 == name && v2 == values,
                    decreases values@.len() - vi,
                {
                    staged.provided_template_values.push(
                        (values[vi].0.clone(), values[vi].1.clone()),
                    );
                    proof {
                        assert(values@.subrange(0, vi + 1) =~= values@.subrange(0, vi as int)
                            + seq![values@[vi as int]]);
                        assert(mods@[idx as int].1.provided_template_values@ + values@.subrange(
                            0,
                            vi + 1,
                        ) =~= (mods@[idx as int].1.provided_template_values@ + values@.subrange(
                            0,
                            vi as int,
                        )).push(values@[vi as int]));
                    }
                    vi = vi + 1;
                }
                proof {
                    assert(values@.subrange(0, values@.len() as int) =~= values@);
                }
                match staged.build() {
                    Result::Ok(part) => {
                        parts.push(part);
                    },
                    Result::Err(e) => {
                        return Result::Err(e);
                    },
                }
            },
        }
        k = k + 1;
    }
    Result::Ok(parts)
}

/// Finalize every declared output against the declared modules, in
/// the spec's declared output order; output names and order are
/// preserved exactly, and each output's parts stand in usage order.
pub fn finalize_outputs(
    mods: &Vec<(String, ModuleBuilder)>,
    outputs: &Vec<(String, Vec<ResolvedUsage>)>,
) -> (r: Result<Vec<(String, Vec<Module>)>, BuildError>)
    ensures
        r is Ok <==> (forall|k: int, u: int|
            0 <= k < outputs@.len() && 0 <= u < (#[trigger] outputs@[k]).1@.len() ==> usage_ok(
                mods@,
                #[trigger] outputs@[k].1@[u],
            )),
        r matches Ok(rs) ==> rs@.len() == outputs@.len() && (forall|k: int|
            0 <= k < outputs@.len() ==> (#[trigger] rs@[k]).0 == outputs@[k].0 && rs@[k].1@.len()
                == outputs@[k].1@.len() && (forall|u: int|
                0 <= u < outputs@[k].1@.len() ==> part_matches(
                    mods@,
                    #[trigger] outputs@[k].1@[u],
                    rs@[k].1@[u],
                ))),
{
    let mut rs: Vec<(String, Vec<Module>)> = Vec::new();
    let mut k: usize = 0;
    while k < outputs.len()
        invariant
            k <= outputs@.len(),
            rs@.len() == k,
            forall|j: int, u: int|
                0 <= j < k && 0 <= u < (#[trigger] outputs@[j]).1@.len() ==> usage_ok(
                    mods@,
                    #[trigger] outputs@[j].1@[u],
                ),
            forall|j: int|
                0 <= j < k ==> (#[trigger] rs@[j]).0 == outputs@[j].0 && rs@[j].1@.len()
                    == outputs@[j].1@.len() && (forall|u: int|
                    0 <= u < outputs@[j].1@.len() ==> part_matches(
                        mods@,
                        #[trigger] outputs@[j].1@[u],
                        rs@[j].1@[u],
                    )),
        decreases outputs@.len() - k,
    {
        let (name, usages) = &outputs[k];
        match finalize_output(mods, usages) {
            Result::Ok(parts) => {
                rs.push((name.clone(), parts));
            },
            Result::Err(e) => {
                return Result::Err(e);
            },
        }
        k = k + 1;
    }
    Result::Ok(rs)
}

/// Modules `x` and `y` declare some same required-file path.
pub open spec fn share_required_file(x: ModuleBuilder, y: ModuleBuilder) -> bool {
    exists|a: int, b: int|
        0 <= a < x.required_files@.len() && 0 <= b < y.required_files@.len()
            && (#[trigger] x.required_files@[a])@ == (#[trigger] y.required_files@[b])@
}

/// No two distinct modules declare the same required-file path.
pub open spec fn conflict_free(ms: Seq<ModuleBuilder>) -> bool {
    forall|i: int, j: int| 0 <= i < j < ms.len() ==> !share_required_file(#[trigger] ms[i], #[trigger] ms[j])
}

/// Sharing a required-file path is symmetric in the two modules.
pub proof fn lemma_share_required_file_symmetric(x: ModuleBuilder, y: ModuleBuilder)
    ensures
        share_required_file(x, y) == share_required_file(y, x),
{
    if share_required_file(x, y) {
        let (a, b) = choose|a: int, b: int|
            0 <= a < x.required_files@.len() && 0 <= b < y.required_files@.len()
                && (#[trigger] x.required_files@[a])@ == (#[trigger] y.required_files@[b])@;
        assert((y.required_files@[b])@ == (x.required_files@[a])@);
    }
    if share_required_file(y, x) {
        let (a, b) = choose|a: int, b: int|
            0 <= a < y.required_files@.len() && 0 <= b < x.required_files@.len()
                && (#[trigger] y.required_files@[a])@ == (#[trigger] x.required_files@[b])@;
        assert((x.required_files@[b])@ == (y.required_files@[a])@);
    }
}

/// Whether two modules both declaring a required file is rejected
/// does not depend on declaration order: a module list with any two
/// entries swapped is conflict-free exactly when the original is.
pub proof fn lemma_conflict_free_swap(ms: Seq<ModuleBuilder>, a: int, b: int)
    requires
        0 <= a < ms.len(),
        0 <= b < ms.len(),
    ensures
        conflict_free(ms) == conflict_free(ms.update(a, ms[b]).update(b, ms[a])),
{
    let ms2 = ms.update(a, ms[b]).update(b, ms[a]);
    if conflict_free(ms) {
        lemma_conflict_free_swap_dir(ms, a, b);
    }
    if conflict_free(ms2) {
        lemma_conflict_free_swap_dir(ms2, a, b);
        assert(ms2.update(a, ms2[b]).update(b, ms2[a]) =~= ms);
    }
}

proof fn lemma_conflict_free_swap_dir(ms: Seq<ModuleBuilder>, a: int, b: int)
    requires
        0 <= a < ms.len(),
        0 <= b < ms.len(),
        conflict_free(ms),
    ensures
        conflict_free(ms.update(a, ms[b]).update(b, ms[a])),
{
    let ms2 = ms.update(a, ms[b]).update(b, ms[a]);
    assert forall|i: int, j: int| 0 <= i < j < ms2.len() implies !share_required_file(
        #[trigger] ms2[i],
        #[trigger] ms2[j],
    ) by {
        let si = if i == a {
            b
        } else if i == b {
            a
        } else {
            i
        };
        let sj = if j == a {
            b
        } else if j == b {
            a
        } else {
            j
        };
        assert(ms2[i] == ms[si]);
        assert(ms2[j] == ms[sj]);
        if si < sj {
            assert(!share_required_file(ms[si], ms[sj]));
        } else if sj < si {
            assert(!share_required_file(ms[sj], ms[si]));
            lemma_share_required_file_symmetric(ms[si], ms[sj]);
        } else {
            assert(ms2[i] == ms2[j]);
            assert(i == j);
        }
    }
}

/// Whether two modules share a required-file path; returns the first
/// shared path of `x` in declaration order.
fn find_shared_file(x: &ModuleBuilder, y: &ModuleBuilder) -> (r: Option<String>)
    ensures
        r is Some <==> share_required_file(*x, *y),
        r matches Some(p) ==> exists|a: int, b: int|
            0 <= a < x.required_files@.len() && 0 <= b < y.required_files@.len()
                && (#[trigger] x.required_files@[a])@ == (#[trigger] y.required_files@[b])@ && p
                == x.required_files@[a],
{
    let mut a: usize = 0;
    while a < x.required_files.len()
        invariant
            a <= x.required_files@.len(),
            forall|i: int, b: int|
                0 <= i < a && 0 <= b < y.required_files@.len() ==> (
                #[trigger] x.required_files@[i])@ != (#[trigger] y.required_files@[b])@,
        decreases x.required_files@.len() - a,
    {
        let mut b: usize = 0;
        while b < y.required_files.len()
            invariant
                a < x.required_files@.len(),
                b <= y.required_files@.len(),
                forall|j: int|
                    0 <= j < b ==> (#[trigger] y.required_files@[j])@ != x.required_files@[a as int]@,
            decreases y.required_files@.len() - b,
        {
            if text::str_eq(x.required_files[a].as_str(), y.required_files[b].as_str()) {
                return Option::Some(x.required_files[a].clone());
            }
            b = b + 1;
        }
        a = a + 1;
    }
    proof {
        if share_required_file(*x, *y) {
            let (a0, b0) = choose|a0: int, b0: int|
                0 <= a0 < x.required_files@.len() && 0 <= b0 < y.required_files@.len()
                    && (#[trigger] x.required_files@[a0])@ == (#[trigger] y.required_files@[b0])@;
            assert(false);
        }
    }
    Option::None
}

/// Cross-module validation: rejects any two modules that declare the
/// same required-file destination, naming both provenances.
pub fn check_required_file_conflicts(ms: &Vec<ModuleBuilder>) -> (r: Result<(), BuildError>)
    ensures
        r is Ok <==> conflict_free(ms@),
        r matches Err(e) ==> exists|i: int, j: int, a: int|
            #![trigger ms@[i].required_files@[a], ms@[j].required_files@]
            0 <= i < j < ms@.len() && share_required_file(ms@[i], ms@[j]) && 0
                <= a < ms@[i].required_files@.len() && contains_str(
                ms@[j].required_files@,
                ms@[i].required_files@[a]@,
            ) && e == (BuildError::RequiredFileConflict {
                path: ms@[i].required_files@[a],
                first: ms@[i].source_info,
                second: ms@[j].source_info,
            }),
{
    let mut i: usize = 0;
    while i < ms.len()
        invariant
            i <= ms@.len(),
            forall|p: int, q: int|
                0 <= p < q < ms@.len() && p < i ==> !share_required_file(
                    #[trigger] ms@[p],
                    #[trigger] ms@[q],
                ),
        decreases ms@.len() - i,
    {
        let mut j: usize = i + 1;
        while j < ms.len()
            invariant
                i < ms@.len(),
                i < j <= ms@.len(),
                forall|q: int| i < q < j ==> !share_required_file(ms@[i as int], #[trigger] ms@[q]),
            decreases ms@.len() - j,
        {
            match find_shared_file(&ms[i], &ms[j]) {
                Option::Some(p) => {
                    proof {
                        let (a0, b0) = choose|a0: int, b0: int|
                            0 <= a0 < ms@[i as int].required_files@.len()
                            && 0 <= b0 < ms@[j as int].required_files@.len()
                            && (#[trigger] ms@[i as int].required_files@[a0])@
                                == (#[trigger] ms@[j as int].required_files@[b0])@
                            && p == ms@[i as int].required_files@[a0];
                        assert(contains_str(
                            ms@[j as int].required_files@,
                            ms@[i as int].required_files@[a0]@,
                        ));
                    }
                    return Result::Err(
                        BuildError::RequiredFileConflict {
                            path: p,
                            first: ms[i].source_info.clone(),
                            second: ms[j].source_info.clone(),
                        },
                    );
                },
                Option::None => {},
            }
            j = j + 1;
        }
        i = i + 1;
    }
    Result::Ok(())
}

} // verus!
