//! The git-backed provider: remote coordinates parsed from a url, and
//! the planned sequence of git invocations that brings a pinned
//! commit's tree into the per-repository working clone.
//!
//! A url is either the SSH form `user@host:owner/repo[.git]` or the
//! HTTPS form `http[s]://host/owner/repo[.git]`; anything else is
//! rejected. Names are runs of ASCII word characters or `-`; a host
//! may also contain `.`. The provider name is `github` for
//! github.com hosts, else `unknown`.

use vstd::prelude::*;
use vstd::string::*;

use crate::error::BuildError;
use crate::text;

verus! {

/// ASCII word character or `-`.
pub open spec fn is_word_char(c: char) -> bool {
    ('a' <= c && c <= 'z') || ('A' <= c && c <= 'Z') || ('0' <= c && c <= '9') || c == '_' || c
        == '-'
}

/// Word character, `-` or `.`: what a host name may hold.
pub open spec fn is_host_char(c: char) -> bool {
    is_word_char(c) || c == '.'
}

pub open spec fn all_word(s: Seq<char>) -> bool {
    forall|i: int| 0 <= i < s.len() ==> is_word_char(#[trigger] s[i])
}

pub open spec fn all_host(s: Seq<char>) -> bool {
    forall|i: int| 0 <= i < s.len() ==> is_host_char(#[trigger] s[i])
}

/// End of the repository name: the whole url, or all but a final
/// `.git`.
pub open spec fn repo_name_end(s: Seq<char>) -> int {
    if text::ends_with_spec(s, ".git"@) {
        s.len() - 4
    } else {
        s.len() as int
    }
}

/// The owner and repository name of an SSH-form url
/// `user@host:owner/repo[.git]`, or nothing if the url is not of
/// that form. In a url of the form, `@`, `:` and `/` cannot occur
/// earlier than the separators, so the first occurrences decide.
pub open spec fn ssh_parts(s: Seq<char>) -> Option<(Seq<char>, Seq<char>)> {
    let a = text::find_from(s, '@', 0);
    let b = text::find_from(s, ':', a + 1);
    let c = text::find_from(s, '/', b + 1);
    let e = repo_name_end(s);
    if a < s.len() && b < s.len() && c < s.len() && 1 <= a && a + 1 < b && b + 1 < c && c + 1 < e
        && all_word(s.subrange(0, a)) && all_host(
        s.subrange(a + 1, b),
    ) && all_word(s.subrange(b + 1, c)) && all_word(s.subrange(c + 1, e)) {
        Option::Some((s.subrange(b + 1, c), s.subrange(c + 1, e)))
    } else {
        Option::None
    }
}

/// The owner and repository name of an HTTPS-form url
/// `http[s]://host/owner/repo[.git]`, or nothing if the url is not
/// of that form.
pub open spec fn http_parts(s: Seq<char>) -> Option<(Seq<char>, Seq<char>)> {
    let p: int = if text::starts_with_spec(s, "https://"@) {
        8
    } else if text::starts_with_spec(s, "http://"@) {
        7
    } else {
        -1
    };
    if p < 0 {
        Option::None
    } else {
        let h = text::find_from(s, '/', p);
        let c = text::find_from(s, '/', h + 1);
        let e = repo_name_end(s);
        if h < s.len() && c < s.len() && p < h && h + 1 < c && c + 1 < e && all_host(
            s.subrange(p, h),
        ) && all_word(s.subrange(h + 1, c)) && all_word(s.subrange(c + 1, e)) {
            Option::Some((s.subrange(h + 1, c), s.subrange(c + 1, e)))
        } else {
            Option::None
        }
    }
}

/// One way to read `s` as `user@host:owner/repo[.git]`.
pub open spec fn ssh_decomp(
    s: Seq<char>,
    user: Seq<char>,
    host: Seq<char>,
    owner: Seq<char>,
    repo: Seq<char>,
    dotgit: bool,
) -> bool {
    &&& s == user + seq!['@'] + host + seq![':'] + owner + seq!['/'] + repo + (if dotgit {
        ".git"@
    } else {
        Seq::<char>::empty()
    })
    &&& 1 <= user.len() && all_word(user)
    &&& 1 <= host.len() && all_host(host)
    &&& 1 <= owner.len() && all_word(owner)
    &&& 1 <= repo.len() && all_word(repo)
}

/// `s` reads as an SSH-form url with this owner and repository.
pub open spec fn ssh_form(s: Seq<char>, owner: Seq<char>, repo: Seq<char>) -> bool {
    exists|user: Seq<char>, host: Seq<char>, dotgit: bool|
        #[trigger] ssh_decomp(s, user, host, owner, repo, dotgit)
}

/// No separator or dot hides in a name run.
proof fn lemma_word_chars_are_not_separators(s: Seq<char>)
    requires
        all_word(s),
    ensures
        forall|i: int| 0 <= i < s.len() ==> #[trigger] s[i] != '@' && s[i] != ':' && s[i] != '/' && s[i] != '.',
{
    assert forall|i: int| 0 <= i < s.len() implies #[trigger] s[i] != '@' && s[i] != ':' && s[i]
        != '/' && s[i] != '.' by {
        assert(is_word_char(s[i]));
    }
}

proof fn lemma_host_chars_are_not_separators(s: Seq<char>)
    requires
        all_host(s),
    ensures
        forall|i: int| 0 <= i < s.len() ==> #[trigger] s[i] != '@' && s[i] != ':' && s[i] != '/',
{
    assert forall|i: int| 0 <= i < s.len() implies #[trigger] s[i] != '@' && s[i] != ':' && s[i]
        != '/' by {
        assert(is_host_char(s[i]));
    }
}

/// The computed SSH parse is exactly the grammar: it succeeds
/// precisely on urls of the form `user@host:owner/repo[.git]`, and a
/// url of the form has the one owner and repository its decomposition
/// gives.
pub proof fn lemma_ssh_parts_exact(s: Seq<char>)
    ensures
        ssh_parts(s) matches Some(p) ==> ssh_form(s, p.0, p.1),
        forall|owner: Seq<char>, repo: Seq<char>|
            ssh_form(s, owner, repo) ==> ssh_parts(s) == Option::Some((owner, repo)),
{
    reveal_strlit(".git");
    if ssh_parts(s) matches Some(p) {
        let a = text::find_from(s, '@', 0);
        let b = text::find_from(s, ':', a + 1);
        let c = text::find_from(s, '/', b + 1);
        let e = repo_name_end(s);
        text::lemma_find_from(s, '@', 0);
        text::lemma_find_from(s, ':', a + 1);
        text::lemma_find_from(s, '/', b + 1);
        let user = s.subrange(0, a);
        let host = s.subrange(a + 1, b);
        let owner = s.subrange(b + 1, c);
        let repo = s.subrange(c + 1, e);
        let dotgit = text::ends_with_spec(s, ".git"@);
        assert(s =~= user + seq!['@'] + host + seq![':'] + owner + seq!['/'] + repo + (if dotgit {
            ".git"@
        } else {
            Seq::<char>::empty()
        }));
        assert(ssh_decomp(s, user, host, owner, repo, dotgit));
    }
    assert forall|owner: Seq<char>, repo: Seq<char>| ssh_form(s, owner, repo) implies ssh_parts(s)
        == Option::<(Seq<char>, Seq<char>)>::Some((owner, repo)) by {
        let (user, host, dotgit) = choose|user: Seq<char>, host: Seq<char>, dotgit: bool|
            #[trigger] ssh_decomp(s, user, host, owner, repo, dotgit);
        lemma_ssh_decomp_parses(s, user, host, owner, repo, dotgit);
    }
}

/// A url of the SSH form parses to its decomposition's owner and
/// repository: the separators of the form are the first such
/// characters, so the computed indices land on them.
proof fn lemma_ssh_decomp_parses(
    s: Seq<char>,
    user: Seq<char>,
    host: Seq<char>,
    owner: Seq<char>,
    repo: Seq<char>,
    dotgit: bool,
)
    requires
        ssh_decomp(s, user, host, owner, repo, dotgit),
    ensures
        ssh_parts(s) == Option::<(Seq<char>, Seq<char>)>::Some((owner, repo)),
{
    reveal_strlit(".git");
    lemma_word_chars_are_not_separators(user);
    lemma_word_chars_are_not_separators(owner);
    lemma_word_chars_are_not_separators(repo);
    lemma_host_chars_are_not_separators(host);
    let ua = user.len() as int;
    let hb = ua + 1 + host.len();
    let oc = hb + 1 + owner.len();
    let re = oc + 1 + repo.len();
    assert(s.len() == re + (if dotgit { 4int } else { 0int }));
    assert(s[ua] == '@');
    assert(s[hb] == ':');
    assert(s[oc] == '/');
    // the first '@' is the one after the user name
    let a = text::find_from(s, '@', 0);
    text::lemma_find_from(s, '@', 0);
    assert(a == ua) by {
        if a < ua {
            assert(s[a] == user[a]);
        }
        if a > ua {
            assert(s[ua] == '@');
        }
    }
    // the first ':' after it closes the host
    let b = text::find_from(s, ':', a + 1);
    text::lemma_find_from(s, ':', a + 1);
    assert(b == hb) by {
        if b < hb {
            assert(s[b] == host[b - ua - 1]);
        }
        if b > hb {
            assert(s[hb] == ':');
        }
    }
    // the first '/' after that closes the owner
    let c = text::find_from(s, '/', b + 1);
    text::lemma_find_from(s, '/', b + 1);
    assert(c == oc) by {
        if c < oc {
            assert(s[c] == owner[c - hb - 1]);
        }
        if c > oc {
            assert(s[oc] == '/');
        }
    }
    // the name ends where the optional suffix starts
    assert(repo_name_end(s) == re) by {
        if dotgit {
            assert(text::ends_with_spec(s, ".git"@)) by {
                assert(s.subrange(s.len() - 4, s.len() as int) =~= ".git"@);
            }
        } else {
            if text::ends_with_spec(s, ".git"@) {
                assert(s.subrange(s.len() - 4, s.len() as int)[0] == '.');
                let k = s.len() - 4;
                assert(s[k] == '.');
                if k > oc {
                    assert(s[k] == repo[k - oc - 1]);
                } else if k == oc {
                    assert(s[k] == '/');
                } else if k > hb {
                    assert(s[k] == owner[k - hb - 1]);
                } else {
                    // owner and repository are non-empty, so the dot
                    // could stand no further left than the ':'
                    assert(k >= hb);
                    assert(s[hb] == ':');
                }
                assert(false);
            }
        }
    }
    assert(s.subrange(0, a) =~= user);
    assert(s.subrange(a + 1, b) =~= host);
    assert(s.subrange(b + 1, c) =~= owner);
    assert(s.subrange(c + 1, re) =~= repo);
}

/// One way to read `s` as `http[s]://host/owner/repo[.git]`.
pub open spec fn http_decomp(
    s: Seq<char>,
    secure: bool,
    host: Seq<char>,
    owner: Seq<char>,
    repo: Seq<char>,
    dotgit: bool,
) -> bool {
    &&& s == (if secure {
        "https://"@
    } else {
        "http://"@
    }) + host + seq!['/'] + owner + seq!['/'] + repo + (if dotgit {
        ".git"@
    } else {
        Seq::<char>::empty()
    })
    &&& 1 <= host.len() && all_host(host)
    &&& 1 <= owner.len() && all_word(owner)
    &&& 1 <= repo.len() && all_word(repo)
}

/// `s` reads as an HTTPS-form url with this owner and repository.
pub open spec fn http_form(s: Seq<char>, owner: Seq<char>, repo: Seq<char>) -> bool {
    exists|secure: bool, host: Seq<char>, dotgit: bool|
        #[trigger] http_decomp(s, secure, host, owner, repo, dotgit)
}

/// The computed HTTPS parse is exactly the grammar, like
/// [`lemma_ssh_parts_exact`].
pub proof fn lemma_http_parts_exact(s: Seq<char>)
    ensures
        http_parts(s) matches Some(p) ==> http_form(s, p.0, p.1),
        forall|owner: Seq<char>, repo: Seq<char>|
            http_form(s, owner, repo) ==> http_parts(s) == Option::Some((owner, repo)),
{
    reveal_strlit(".git");
    reveal_strlit("https://");
    reveal_strlit("http://");
    if http_parts(s) matches Some(p) {
        let q: int = if text::starts_with_spec(s, "https://"@) {
            8
        } else {
            7
        };
        let h = text::find_from(s, '/', q);
        let c = text::find_from(s, '/', h + 1);
        let e = repo_name_end(s);
        text::lemma_find_from(s, '/', q);
        text::lemma_find_from(s, '/', h + 1);
        let host = s.subrange(q, h);
        let owner = s.subrange(h + 1, c);
        let repo = s.subrange(c + 1, e);
        let dotgit = text::ends_with_spec(s, ".git"@);
        let secure = q == 8;
        assert(s =~= (if secure {
            "https://"@
        } else {
            "http://"@
        }) + host + seq!['/'] + owner + seq!['/'] + repo + (if dotgit {
            ".git"@
        } else {
            Seq::<char>::empty()
        }));
        assert(http_decomp(s, secure, host, owner, repo, dotgit));
    }
    assert forall|owner: Seq<char>, repo: Seq<char>| http_form(s, owner, repo) implies http_parts(
        s,
    ) == Option::<(Seq<char>, Seq<char>)>::Some((owner, repo)) by {
        let (secure, host, dotgit) = choose|secure: bool, host: Seq<char>, dotgit: bool|
            #[trigger] http_decomp(s, secure, host, owner, repo, dotgit);
        lemma_http_decomp_parses(s, secure, host, owner, repo, dotgit);
    }
}

proof fn lemma_http_decomp_parses(
    s: Seq<char>,
    secure: bool,
    host: Seq<char>,
    owner: Seq<char>,
    repo: Seq<char>,
    dotgit: bool,
)
    requires
        http_decomp(s, secure, host, owner, repo, dotgit),
    ensures
        http_parts(s) == Option::<(Seq<char>, Seq<char>)>::Some((owner, repo)),
{
    reveal_strlit(".git");
    reveal_strlit("https://");
    reveal_strlit("http://");
    lemma_word_chars_are_not_separators(owner);
    lemma_word_chars_are_not_separators(repo);
    lemma_host_chars_are_not_separators(host);
    let q: int = if secure {
        8
    } else {
        7
    };
    let hh = q + host.len();
    let oc = hh + 1 + owner.len();
    let re = oc + 1 + repo.len();
    assert(s.len() == re + (if dotgit { 4int } else { 0int }));
    if secure {
        assert(text::starts_with_spec(s, "https://"@)) by {
            assert(s.subrange(0, 8) =~= "https://"@);
        }
    } else {
        assert(text::starts_with_spec(s, "http://"@)) by {
            assert(s.subrange(0, 7) =~= "http://"@);
        }
        // the prefix is not the longer scheme: the fifth character is
        // the colon
        assert(!text::starts_with_spec(s, "https://"@)) by {
            assert(s[4] == ':');
            if text::starts_with_spec(s, "https://"@) {
                assert(s.subrange(0, 8)[4] == 's');
            }
        }
    }
    assert(s[hh] == '/');
    assert(s[oc] == '/');
    let h = text::find_from(s, '/', q);
    text::lemma_find_from(s, '/', q);
    assert(h == hh) by {
        if h < hh {
            assert(s[h] == host[h - q]);
        }
        if h > hh {
            assert(s[hh] == '/');
        }
    }
    let c = text::find_from(s, '/', h + 1);
    text::lemma_find_from(s, '/', h + 1);
    assert(c == oc) by {
        if c < oc {
            assert(s[c] == owner[c - hh - 1]);
        }
        if c > oc {
            assert(s[oc] == '/');
        }
    }
    assert(repo_name_end(s) == re) by {
        if dotgit {
            assert(text::ends_with_spec(s, ".git"@)) by {
                assert(s.subrange(s.len() - 4, s.len() as int) =~= ".git"@);
            }
        } else {
            if text::ends_with_spec(s, ".git"@) {
                assert(s.subrange(s.len() - 4, s.len() as int)[0] == '.');
                let k = s.len() - 4;
                assert(s[k] == '.');
                if k > oc {
                    assert(s[k] == repo[k - oc - 1]);
                } else if k == oc {
                    assert(s[k] == '/');
                } else if k > hh {
                    assert(s[k] == owner[k - hh - 1]);
                } else {
                    // owner and repository are non-empty, so the dot
                    // could stand no further left than the first '/'
                    assert(k >= hh);
                    assert(s[hh] == '/');
                }
                assert(false);
            }
        }
    }
    assert(s.subrange(q, h) =~= host);
    assert(s.subrange(h + 1, c) =~= owner);
    assert(s.subrange(c + 1, re) =~= repo);
}

/// The provider name a url maps to.
pub open spec fn provider_of(s: Seq<char>) -> Seq<char> {
    if text::contains_spec(s, "github.com"@) {
        "github"@
    } else {
        "unknown"@
    }
}

/// Repository coordinates parsed out of a remote url.
#[derive(Debug, PartialEq, Eq)]
pub struct RepoInfo {
    pub provider: String,
    pub owner: String,
    pub name: String,
}

fn check_all_word(s: &str, from: usize, to: usize) -> (r: bool)
    requires
        from <= to <= s@.len(),
    ensures
        r == all_word(s@.subrange(from as int, to as int)),
{
    let ghost sub = s@.subrange(from as int, to as int);
    let mut i: usize = from;
    while i < to
        invariant
            from <= i <= to <= s@.len(),
            sub == s@.subrange(from as int, to as int),
            forall|j: int| 0 <= j < i - from ==> is_word_char(#[trigger] sub[j]),
        decreases to - i,
    {
        let c = s.get_char(i);
        let ok = ('a' <= c && c <= 'z') || ('A' <= c && c <= 'Z') || ('0' <= c && c <= '9') || c
            == '_' || c == '-';
        if !ok {
            proof {
                assert(sub[i - from] == s@[i as int]);
            }
            return false;
        }
        proof {
            assert(sub[i - from] == s@[i as int]);
        }
        i = i + 1;
    }
    true
}

fn check_all_host(s: &str, from: usize, to: usize) -> (r: bool)
    requires
        from <= to <= s@.len(),
    ensures
        r == all_host(s@.subrange(from as int, to as int)),
{
    let ghost sub = s@.subrange(from as int, to as int);
    let mut i: usize = from;
    while i < to
        invariant
            from <= i <= to <= s@.len(),
            sub == s@.subrange(from as int, to as int),
            forall|j: int| 0 <= j < i - from ==> is_host_char(#[trigger] sub[j]),
        decreases to - i,
    {
        let c = s.get_char(i);
        let ok = ('a' <= c && c <= 'z') || ('A' <= c && c <= 'Z') || ('0' <= c && c <= '9') || c
            == '_' || c == '-' || c == '.';
        if !ok {
            proof {
                assert(sub[i - from] == s@[i as int]);
            }
            return false;
        }
        proof {
            assert(sub[i - from] == s@[i as int]);
        }
        i = i + 1;
    }
    true
}

/// End of the repository name in this url.
fn repo_name_end_exec(s: &str) -> (r: usize)
    ensures
        r == repo_name_end(s@),
        r <= s@.len(),
{
    let n = s.unicode_len();
    if text::ends_with(s, ".git") {
        proof {
            reveal_strlit(".git");
        }
        n - 4
    } else {
        n
    }
}

/// Owner and repository of an SSH-form url.
pub fn extract_user_and_repo_from_ssh(url: &str) -> (r: Option<(String, String)>)
    ensures
        r is Some <==> ssh_parts(url@) is Some,
        r matches Some(p) ==> (ssh_parts(url@) matches Some(q) && p.0@ == q.0 && p.1@ == q.1),
{
    let n = url.unicode_len();
    let a = text::find_char(url, '@', 0);
    proof {
        text::lemma_find_from(url@, '@', 0);
    }
    if a >= n {
        return Option::None;
    }
    let b = text::find_char(url, ':', a + 1);
    proof {
        text::lemma_find_from(url@, ':', a as int + 1);
    }
    if b >= n {
        return Option::None;
    }
    let c = text::find_char(url, '/', b + 1);
    proof {
        text::lemma_find_from(url@, '/', b as int + 1);
    }
    if c >= n {
        return Option::None;
    }
    let e = repo_name_end_exec(url);
    if !(1 <= a && a + 1 < b && b + 1 < c && c + 1 < e) {
        return Option::None;
    }
    if !check_all_word(url, 0, a) {
        return Option::None;
    }
    if !check_all_host(url, a + 1, b) {
        return Option::None;
    }
    if !check_all_word(url, b + 1, c) {
        return Option::None;
    }
    if !check_all_word(url, c + 1, e) {
        return Option::None;
    }
    Option::Some((text::substr_string(url, b + 1, c), text::substr_string(url, c + 1, e)))
}

/// Owner and repository of an HTTPS-form url.
pub fn extract_user_and_repo_from_http(url: &str) -> (r: Option<(String, String)>)
    ensures
        r is Some <==> http_parts(url@) is Some,
        r matches Some(p) ==> (http_parts(url@) matches Some(q) && p.0@ == q.0 && p.1@ == q.1),
{
    let n = url.unicode_len();
    let p: usize = if text::starts_with(url, "https://") {
        8
    } else if text::starts_with(url, "http://") {
        7
    } else {
        return Option::None;
    };
    proof {
        reveal_strlit("https://");
        reveal_strlit("http://");
        assert(p <= n);
    }
    let h = text::find_char(url, '/', p);
    proof {
        text::lemma_find_from(url@, '/', p as int);
    }
    if h >= n {
        return Option::None;
    }
    let c = text::find_char(url, '/', h + 1);
    proof {
        text::lemma_find_from(url@, '/', h as int + 1);
    }
    if c >= n {
        return Option::None;
    }
    let e = repo_name_end_exec(url);
    if !(p < h && h + 1 < c && c + 1 < e) {
        return Option::None;
    }
    if !check_all_host(url, p, h) {
        return Option::None;
    }
    if !check_all_word(url, h + 1, c) {
        return Option::None;
    }
    if !check_all_word(url, c + 1, e) {
        return Option::None;
    }
    Option::Some((text::substr_string(url, h + 1, c), text::substr_string(url, c + 1, e)))
}

/// Classify a remote url and extract its repository coordinates.
pub fn url_to_repo_info(url: &str) -> (r: Result<RepoInfo, BuildError>)
    ensures
        r is Ok <==> (ssh_parts(url@) is Some || http_parts(url@) is Some),
        r matches Ok(ri) ==> ri.provider@ == provider_of(url@),
        ssh_parts(url@) matches Some(q) ==> (r matches Ok(ri) && ri.owner@ == q.0 && ri.name@
            == q.1),
        (ssh_parts(url@) is None && http_parts(url@) is Some) ==> (r matches Ok(ri)
            && ri.owner@ == http_parts(url@)->Some_0.0 && ri.name@ == http_parts(url@)->Some_0.1),
        r matches Err(e) ==> e matches BuildError::UnsupportedRemoteUrl { url: u } && u@ == url@,
{
    let parts = match extract_user_and_repo_from_ssh(url) {
        Option::Some(p) => Option::Some(p),
        Option::None => extract_user_and_repo_from_http(url),
    };
    match parts {
        Option::Some((owner, name)) => {
            let provider = if text::contains_sub(url, "github.com") {
                String::from_str("github")
            } else {
                String::from_str("unknown")
            };
            Result::Ok(RepoInfo { provider, owner, name })
        },
        Option::None => Result::Err(
            BuildError::UnsupportedRemoteUrl { url: String::from_str(url) },
        ),
    }
}

/// Uses a local `git` instance to clone and resolve references; holds
/// the parsed coordinates of one remote at one pinned commit.
#[derive(Debug, PartialEq, Eq)]
pub struct Git {
    pub provider: String,
    pub repo_owner: String,
    pub repo_name: String,
    pub url: String,
    pub commit: String,
}

impl Git {
    /// Parse the url and pin the commit.
    pub fn new(url: String, commit: String) -> (r: Result<Self, BuildError>)
        ensures
            r is Ok <==> (ssh_parts(url@) is Some || http_parts(url@) is Some),
            r matches Ok(g) ==> g.url == url && g.commit == commit && g.provider@ == provider_of(
                url@,
            ),
            ssh_parts(url@) matches Some(q) ==> (r matches Ok(g) && g.repo_owner@ == q.0
                && g.repo_name@ == q.1),
            (ssh_parts(url@) is None && http_parts(url@) is Some) ==> (r matches Ok(g)
                && g.repo_owner@ == http_parts(url@)->Some_0.0 && g.repo_name@
                == http_parts(url@)->Some_0.1),
            r matches Err(e) ==> e matches BuildError::UnsupportedRemoteUrl { url: u } && u@
                == url@,
    {
        match url_to_repo_info(url.as_str()) {
            Result::Ok(info) => Result::Ok(
                Git {
                    provider: info.provider,
                    repo_owner: info.owner,
                    repo_name: info.name,
                    url,
                    commit,
                },
            ),
            Result::Err(e) => Result::Err(e),
        }
    }
}

/// What `git ls-remote --symref <url> HEAD` prints when the remote
/// answers: a symref line, then one line of exactly two
/// whitespace-separated fields, the HEAD commit and a name holding
/// `HEAD`.
pub open spec fn ls_remote_head_wf(out: Seq<char>) -> bool {
    let lines = text::lines_spec(out);
    &&& lines.len() == 2
    &&& ({
        let l = lines[1];
        let a = text::skip_ws(l, 0);
        let b = text::find_ws(l, a);
        let c = text::skip_ws(l, b);
        let d = text::find_ws(l, c);
        &&& a < l.len()
        &&& c < l.len()
        &&& text::skip_ws(l, d) == l.len()
        &&& text::contains_spec(l.subrange(c, d), "HEAD"@)
    })
}

/// The commit field of such output.
pub open spec fn ls_remote_head_commit(out: Seq<char>) -> Seq<char> {
    let l = text::lines_spec(out)[1];
    let a = text::skip_ws(l, 0);
    let b = text::find_ws(l, a);
    l.subrange(a, b)
}

/// Read the HEAD commit out of `git ls-remote --symref` output;
/// nothing if the output has another shape.
pub fn head_commit_from_ls_remote(output: &str) -> (r: Option<String>)
    ensures
        r is Some <==> ls_remote_head_wf(output@),
        r matches Some(sha) ==> sha@ == ls_remote_head_commit(output@),
{
    let lines = text::split_lines(output);
    if lines.len() != 2 {
        return Option::None;
    }
    let l = &lines[1];
    let n = l.as_str().unicode_len();
    let a = text::skip_ws_exec(l.as_str(), 0);
    proof {
        text::lemma_skip_ws(l@, 0);
    }
    if a >= n {
        return Option::None;
    }
    let b = text::find_ws_char(l.as_str(), a);
    proof {
        text::lemma_find_ws(l@, a as int);
    }
    let c = text::skip_ws_exec(l.as_str(), b);
    proof {
        text::lemma_skip_ws(l@, b as int);
    }
    if c >= n {
        return Option::None;
    }
    let d = text::find_ws_char(l.as_str(), c);
    proof {
        text::lemma_find_ws(l@, c as int);
    }
    if text::skip_ws_exec(l.as_str(), d) != n {
        return Option::None;
    }
    let second = text::substr(l.as_str(), c, d);
    if !text::contains_sub(second, "HEAD") {
        return Option::None;
    }
    Option::Some(text::substr_string(l.as_str(), a, b))
}

/// One git invocation the caller is to run: the arguments after
/// `git`, and the working directory to run it in.
#[derive(Debug, PartialEq, Eq)]
pub struct GitCmd {
    pub args: Vec<String>,
    pub dir: String,
}

/// The step that brings the working clone up to date: whether the
/// directory must be created first, and the command to run in it.
#[derive(Debug, PartialEq, Eq)]
pub struct SyncPlan {
    pub create_dir: bool,
    pub cmd: GitCmd,
}

/// The directory holding this owner's working clones:
/// `<root>/containeryard/sources/git_repos/<provider>/<owner>`.
pub open spec fn provider_dir_spec(g: Git, root: Seq<char>) -> Seq<char> {
    root + "/containeryard/sources/git_repos/"@ + g.provider@ + "/"@ + g.repo_owner@
}

/// The working clone of this repository under the cache root.
pub open spec fn repo_dir_spec(g: Git, root: Seq<char>) -> Seq<char> {
    provider_dir_spec(g, root) + "/"@ + g.repo_name@
}

impl Git {
    /// The directory the clone command runs in.
    pub fn provider_cache_dir(&self, cache_root: &str) -> (r: String)
        ensures
            r@ == provider_dir_spec(*self, cache_root@),
    {
        let mut out = String::from_str(cache_root);
        out.append("/containeryard/sources/git_repos/");
        out.append(self.provider.as_str());
        out.append("/");
        out.append(self.repo_owner.as_str());
        out
    }

    /// The per-repository working clone directory.
    pub fn repo_dir(&self, cache_root: &str) -> (r: String)
        ensures
            r@ == repo_dir_spec(*self, cache_root@),
    {
        let mut out = self.provider_cache_dir(cache_root);
        out.append("/");
        out.append(self.repo_name.as_str());
        out
    }

    /// Decide how to bring the working clone up to date, from what is
    /// on disk: clone into a fresh directory, fetch in an existing
    /// clone, and reject a directory that is not a clone at all.
    pub fn sync_plan(&self, cache_root: &str, repo_dir_exists: bool, git_dir_exists: bool) -> (r:
        Result<SyncPlan, BuildError>)
        ensures
            r is Ok <==> !(repo_dir_exists && !git_dir_exists),
            (repo_dir_exists && !git_dir_exists) ==> (r matches Err(e) && e matches
                BuildError::RemoteFetchFailure { url, detail } && url@ == self.url@ && detail@
                == "the cached directory for the repo exists, but it is not a git directory"@),
            !repo_dir_exists ==> (r matches Ok(p) && p.create_dir == true && p.cmd.dir@
                == provider_dir_spec(*self, cache_root@) && p.cmd.args@.len() == 2
                && p.cmd.args@[0]@ == "clone"@ && p.cmd.args@[1]@ == self.url@),
            (repo_dir_exists && git_dir_exists) ==> (r matches Ok(p) && p.create_dir == false
                && p.cmd.dir@ == repo_dir_spec(*self, cache_root@) && p.cmd.args@.len() == 3
                && p.cmd.args@[0]@ == "fetch"@ && p.cmd.args@[1]@ == "--all"@ && p.cmd.args@[2]@
                == "--prune"@),
    {
        if repo_dir_exists {
            if !git_dir_exists {
                return Result::Err(
                    BuildError::RemoteFetchFailure {
                        url: self.url.clone(),
                        detail: String::from_str(
                            "the cached directory for the repo exists, but it is not a git directory",
                        ),
                    },
                );
            }
            let mut args: Vec<String> = Vec::new();
            args.push(String::from_str("fetch"));
            args.push(String::from_str("--all"));
            args.push(String::from_str("--prune"));
            Result::Ok(
                SyncPlan {
                    create_dir: false,
                    cmd: GitCmd { args, dir: self.repo_dir(cache_root) },
                },
            )
        } else {
            let mut args: Vec<String> = Vec::new();
            args.push(String::from_str("clone"));
            args.push(self.url.clone());
            Result::Ok(
                SyncPlan {
                    create_dir: true,
                    cmd: GitCmd { args, dir: self.provider_cache_dir(cache_root) },
                },
            )
        }
    }

    /// The checkout of the pinned commit, run in the working clone.
    pub fn checkout_cmd(&self, cache_root: &str) -> (r: GitCmd)
        ensures
            r.dir@ == repo_dir_spec(*self, cache_root@),
            r.args@.len() == 2,
            r.args@[0]@ == "checkout"@,
            r.args@[1]@ == self.commit@,
    {
        let mut args: Vec<String> = Vec::new();
        args.push(String::from_str("checkout"));
        args.push(self.commit.clone());
        GitCmd { args, dir: self.repo_dir(cache_root) }
    }

    /// Judge one finished git command: any non-zero exit is fatal,
    /// surfacing the captured streams verbatim.
    pub fn command_outcome(&self, success: bool, stdout: &str, stderr: &str) -> (r: Result<
        (),
        BuildError,
    >)
        ensures
            r is Ok <==> success,
            r matches Err(e) ==> e matches BuildError::RemoteFetchFailure { url, detail } && url@
                == self.url@ && detail@ == "stdout:\n"@ + stdout@ + "\nstderr:\n"@ + stderr@,
    {
        if success {
            Result::Ok(())
        } else {
            let mut detail = String::from_str("stdout:\n");
            detail.append(stdout);
            detail.append("\nstderr:\n");
            detail.append(stderr);
            Result::Err(BuildError::RemoteFetchFailure { url: self.url.clone(), detail })
        }
    }

    /// Where one file of this repository at the pinned commit is
    /// cached.
    pub fn cached_file_path(&self, file_path: &str, cache_root: &str) -> (r: String)
        ensures
            r@ == crate::git::cache_path_spec(
                cache_root@,
                self.provider@,
                self.repo_owner@,
                self.repo_name@,
                self.commit@,
                file_path@,
            ),
    {
        crate::git::path_in_cache_dir(
            file_path,
            self.provider.as_str(),
            self.repo_owner.as_str(),
            self.repo_name.as_str(),
            self.commit.as_str(),
            cache_root,
        )
    }
}

} // verus!
