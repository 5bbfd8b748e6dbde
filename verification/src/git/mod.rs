//! The remote content provider: url classification, the
//! content-addressable cache layout, and the planned git command
//! sequence that brings a pinned commit's files to disk. The caller
//! runs the planned commands and does the file reads and writes;
//! every decision and every path is computed and stated here.

pub mod git;

use vstd::prelude::*;
use vstd::string::*;

use crate::error::BuildError;
use crate::git::git::Git;
use crate::text;

verus! {

/// Reference information for a git provider.
#[derive(Debug, PartialEq, Eq)]
pub struct ReferenceInfo<'a> {
    pub provider: &'a str,
    pub repo_owner: &'a str,
    pub repo_name: &'a str,
    pub url: &'a str,
    pub commit: &'a str,
}

impl Git {
    /// The reference information of this provider.
    pub fn reference_info<'a>(&'a self) -> (r: ReferenceInfo<'a>)
        ensures
            r.provider@ == self.provider@,
            r.repo_owner@ == self.repo_owner@,
            r.repo_name@ == self.repo_name@,
            r.url@ == self.url@,
            r.commit@ == self.commit@,
    {
        ReferenceInfo {
            provider: self.provider.as_str(),
            repo_owner: self.repo_owner.as_str(),
            repo_name: self.repo_name.as_str(),
            url: self.url.as_str(),
            commit: self.commit.as_str(),
        }
    }
}

/// The available provider kinds; plain `git` is the one and the
/// fallback.
#[derive(Debug, PartialEq, Eq)]
pub enum GitProviderKind {
    /// Fallback (git clone)
    Git(Git),
}

/// Pick the provider for a remote url. Every known host goes through
/// the local `git` tool.
pub fn create_provider(url: String, commit: String) -> (r: Result<GitProviderKind, BuildError>)
    ensures
        r is Ok <==> (git::ssh_parts(url@) is Some || git::http_parts(url@) is Some),
        r matches Ok(k) ==> (k matches GitProviderKind::Git(g) && g.url == url && g.commit
            == commit && g.provider@ == git::provider_of(url@)),
        git::ssh_parts(url@) matches Some(q) ==> (r matches Ok(k) && k matches GitProviderKind::Git(
            g,
        ) && g.repo_owner@ == q.0 && g.repo_name@ == q.1),
        (git::ssh_parts(url@) is None && git::http_parts(url@) is Some) ==> (r matches Ok(k) && k
            matches GitProviderKind::Git(g) && g.repo_owner@ == git::http_parts(url@)->Some_0.0
            && g.repo_name@ == git::http_parts(url@)->Some_0.1),
        r matches Err(e) ==> e matches BuildError::UnsupportedRemoteUrl { url: u } && u@ == url@,
{
    match Git::new(url, commit) {
        Result::Ok(g) => Result::Ok(GitProviderKind::Git(g)),
        Result::Err(e) => Result::Err(e),
    }
}

/// Join `root` and `name` with one `/`.
pub open spec fn joined(root: Seq<char>, name: Seq<char>) -> Seq<char> {
    root + "/"@ + name
}

/// Append `/name` to `out`.
fn push_component(out: &mut String, name: &str)
    ensures
        final(out)@ == joined(old(out)@, name@),
{
    out.append("/");
    out.append(name);
}

/// The deterministic cache location of one extracted file:
/// `<root>/extracted_files/<provider>/<owner>/<repo>/<commit>/<path>`.
pub open spec fn cache_path_spec(
    root: Seq<char>,
    provider: Seq<char>,
    owner: Seq<char>,
    repo_name: Seq<char>,
    commit: Seq<char>,
    file_path: Seq<char>,
) -> Seq<char> {
    joined(
        joined(joined(joined(joined(root + "/extracted_files"@, provider), owner), repo_name), commit),
        file_path,
    )
}

/// Where one extracted file is cached under the cache root.
pub fn path_in_cache_dir(
    file_path: &str,
    provider: &str,
    owner: &str,
    repo_name: &str,
    commit: &str,
    cache_root: &str,
) -> (r: String)
    ensures
        r@ == cache_path_spec(cache_root@, provider@, owner@, repo_name@, commit@, file_path@),
{
    let mut out = String::from_str(cache_root);
    out.append("/extracted_files");
    push_component(&mut out, provider);
    push_component(&mut out, owner);
    push_component(&mut out, repo_name);
    push_component(&mut out, commit);
    push_component(&mut out, file_path);
    out
}

/// The remote location of an additional file declared by a remote
/// module: the file's path relative to the directory holding the
/// module document. A module path without a directory maps the file
/// to itself.
pub open spec fn remote_file_path_spec(mod_path: Seq<char>, file: Seq<char>) -> Seq<char> {
    if text::contains_spec(mod_path, "/"@) {
        mod_path.subrange(0, last_slash(mod_path, mod_path.len() as int)) + "/"@ + file
    } else {
        file
    }
}

/// Last index before `upto` holding `'/'`; `-1` if none.
pub open spec fn last_slash(s: Seq<char>, upto: int) -> int
    decreases upto,
{
    if upto <= 0 {
        -1
    } else if upto > s.len() {
        last_slash(s, s.len() as int)
    } else if s[upto - 1] == '/' {
        upto - 1
    } else {
        last_slash(s, upto - 1)
    }
}

pub proof fn lemma_last_slash(s: Seq<char>, upto: int)
    requires
        0 <= upto <= s.len(),
    ensures
        -1 <= last_slash(s, upto) < upto,
        last_slash(s, upto) >= 0 ==> s[last_slash(s, upto)] == '/',
        forall|j: int| last_slash(s, upto) < j < upto ==> s[j] != '/',
    decreases upto,
{
    if upto > 0 && s[upto - 1] != '/' {
        lemma_last_slash(s, upto - 1);
    }
}

/// The remote path an additional required file is fetched from.
pub fn remote_file_path(mod_path: &str, file: &str) -> (r: String)
    ensures
        r@ == remote_file_path_spec(mod_path@, file@),
{
    let n = mod_path.unicode_len();
    let mut i: usize = n;
    while i > 0
        invariant
            n == mod_path@.len(),
            i <= n,
            last_slash(mod_path@, n as int) == last_slash(mod_path@, i as int),
        decreases i,
    {
        if mod_path.get_char(i - 1) == '/' {
            let mut out = text::substr_string(mod_path, 0, i - 1);
            out.append("/");
            out.append(file);
            proof {
                reveal_strlit("/");
                assert(text::contains_spec(mod_path@, "/"@)) by {
                    assert(mod_path@.subrange(i - 1, i as int) =~= "/"@);
                }
            }
            return out;
        }
        i = i - 1;
    }
    proof {
        reveal_strlit("/");
        lemma_last_slash(mod_path@, mod_path@.len() as int);
        if text::contains_spec(mod_path@, "/"@) {
            let k = choose|k: int|
                0 <= k && k + "/"@.len() <= mod_path@.len() && #[trigger] mod_path@.subrange(
                    k,
                    k + "/"@.len() as int,
                ) == "/"@;
            assert(mod_path@[k] == mod_path@.subrange(k, k + 1)[0]);
            assert(false);
        }
    }
    String::from_str(file)
}

/// Whether an additional required file must be fetched: an existing
/// destination is kept only under the do-not-refetch mode.
pub fn should_refetch(destination_exists: bool, do_not_refetch: bool) -> (r: bool)
    ensures
        r == !(destination_exists && do_not_refetch),
{
    !(destination_exists && do_not_refetch)
}

} // verus!
