//! The remote content provider: url classification, cache layout,
//! and the planned git command sequence.

use yard::error::BuildError;
use yard::git::create_provider;
use yard::git::git::extract_user_and_repo_from_http;
use yard::git::git::extract_user_and_repo_from_ssh;
use yard::git::git::head_commit_from_ls_remote;
use yard::git::git::url_to_repo_info;
use yard::git::git::Git;
use yard::git::path_in_cache_dir;
use yard::git::remote_file_path;
use yard::git::should_refetch;
use yard::git::GitProviderKind;

#[test]
fn ssh_urls_yield_owner_and_repo() {
    let (o, r) = extract_user_and_repo_from_ssh("git@github.com:my-org/my_repo.git").unwrap();
    assert_eq!(o, "my-org");
    assert_eq!(r, "my_repo");
    let (o, r) = extract_user_and_repo_from_ssh("deploy@git.example.com:owner/repo").unwrap();
    assert_eq!(o, "owner");
    assert_eq!(r, "repo");
    assert!(extract_user_and_repo_from_ssh("git@github.com:noslash").is_none());
    assert!(extract_user_and_repo_from_ssh("github.com:o/r").is_none());
    assert!(extract_user_and_repo_from_ssh("git@host:o/r/extra").is_none());
}

#[test]
fn http_urls_yield_owner_and_repo() {
    let (o, r) = extract_user_and_repo_from_http("https://github.com/my-org/my_repo.git").unwrap();
    assert_eq!(o, "my-org");
    assert_eq!(r, "my_repo");
    let (o, r) = extract_user_and_repo_from_http("http://git.example.com/owner/repo").unwrap();
    assert_eq!(o, "owner");
    assert_eq!(r, "repo");
    assert!(extract_user_and_repo_from_http("https://github.com/only-owner").is_none());
    assert!(extract_user_and_repo_from_http("https://github.com/o/r/").is_none());
    assert!(extract_user_and_repo_from_http("ftp://github.com/o/r").is_none());
}

#[test]
fn provider_name_follows_the_host() {
    let info = url_to_repo_info("git@github.com:o/r").unwrap();
    assert_eq!(info.provider, "github");
    let info = url_to_repo_info("https://gitlab.example.com/o/r").unwrap();
    assert_eq!(info.provider, "unknown");
}

#[test]
fn unsupported_urls_are_fatal() {
    match url_to_repo_info("ftp://example.com/o/r").unwrap_err() {
        BuildError::UnsupportedRemoteUrl { url } => {
            assert_eq!(url, "ftp://example.com/o/r");
        }
        other => panic!("wrong error: {:?}", other),
    }
    assert!(url_to_repo_info("just words").is_err());
    assert!(Git::new("o/r".to_string(), "abc".to_string()).is_err());
}

#[test]
fn provider_holds_the_parsed_coordinates() {
    let g = Git::new(
        "https://github.com/my-org/my_repo.git".to_string(),
        "abc123".to_string(),
    )
    .unwrap();
    assert_eq!(g.provider, "github");
    assert_eq!(g.repo_owner, "my-org");
    assert_eq!(g.repo_name, "my_repo");
    assert_eq!(g.commit, "abc123");
    let info = g.reference_info();
    assert_eq!(info.repo_owner, "my-org");
    assert_eq!(info.commit, "abc123");
    let GitProviderKind::Git(g2) =
        create_provider("git@github.com:o/r".to_string(), "def".to_string()).unwrap();
    assert_eq!(g2.repo_owner, "o");
}

#[test]
fn cache_paths_are_deterministic() {
    let p = path_in_cache_dir("modules/b/mod.md", "github", "o", "r", "abc123", "/cache");
    assert_eq!(p, "/cache/extracted_files/github/o/r/abc123/modules/b/mod.md");
    let g = Git::new("git@github.com:o/r".to_string(), "abc123".to_string()).unwrap();
    assert_eq!(
        g.cached_file_path("modules/b/mod.md", "/cache"),
        "/cache/extracted_files/github/o/r/abc123/modules/b/mod.md"
    );
    assert_eq!(
        g.repo_dir("/cache"),
        "/cache/containeryard/sources/git_repos/github/o/r"
    );
}

#[test]
fn sync_plan_clones_fetches_or_rejects() {
    let g = Git::new("git@github.com:o/r".to_string(), "abc123".to_string()).unwrap();
    // no clone yet: create the directory and clone into it
    let plan = g.sync_plan("/cache", false, false).unwrap();
    assert!(plan.create_dir);
    assert_eq!(plan.cmd.args, vec!["clone".to_string(), "git@github.com:o/r".to_string()]);
    assert_eq!(plan.cmd.dir, "/cache/containeryard/sources/git_repos/github/o");
    // an existing clone is brought up to date
    let plan = g.sync_plan("/cache", true, true).unwrap();
    assert!(!plan.create_dir);
    assert_eq!(
        plan.cmd.args,
        vec!["fetch".to_string(), "--all".to_string(), "--prune".to_string()]
    );
    assert_eq!(plan.cmd.dir, "/cache/containeryard/sources/git_repos/github/o/r");
    // a directory that is not a clone is fatal
    assert!(matches!(
        g.sync_plan("/cache", true, false).unwrap_err(),
        BuildError::RemoteFetchFailure { .. }
    ));
    // then the pinned commit is checked out in the clone
    let co = g.checkout_cmd("/cache");
    assert_eq!(co.args, vec!["checkout".to_string(), "abc123".to_string()]);
    assert_eq!(co.dir, "/cache/containeryard/sources/git_repos/github/o/r");
}

#[test]
fn command_failures_surface_the_streams() {
    let g = Git::new("git@github.com:o/r".to_string(), "abc123".to_string()).unwrap();
    assert!(g.command_outcome(true, "", "").is_ok());
    match g.command_outcome(false, "out text", "err text").unwrap_err() {
        BuildError::RemoteFetchFailure { url, detail } => {
            assert_eq!(url, "git@github.com:o/r");
            assert_eq!(detail, "stdout:\nout text\nstderr:\nerr text");
        }
        other => panic!("wrong error: {:?}", other),
    }
}

#[test]
fn additional_files_resolve_relative_to_the_module() {
    assert_eq!(
        remote_file_path("modules/meta/mod.md", "config/app.conf"),
        "modules/meta/config/app.conf"
    );
    assert_eq!(remote_file_path("mod.md", "file.txt"), "file.txt");
}

#[test]
fn ls_remote_output_yields_the_head_commit() {
    let out = "ref: refs/heads/main\tHEAD\n49d4a3dcbbc4c4ed5dd46836ae07a15c4bbbf3b9\tHEAD\n";
    assert_eq!(
        head_commit_from_ls_remote(out),
        Some("49d4a3dcbbc4c4ed5dd46836ae07a15c4bbbf3b9".to_string())
    );
    // one line only, a third field, or a second field without HEAD
    assert_eq!(head_commit_from_ls_remote("ref: refs/heads/main\tHEAD\n"), None);
    assert_eq!(head_commit_from_ls_remote("a\nsha\tHEAD\textra\n"), None);
    assert_eq!(head_commit_from_ls_remote("a\nsha\trefs/heads/main\n"), None);
}

#[test]
fn do_not_refetch_skips_only_existing_destinations() {
    assert!(!should_refetch(true, true));
    assert!(should_refetch(true, false));
    assert!(should_refetch(false, true));
    assert!(should_refetch(false, false));
}
