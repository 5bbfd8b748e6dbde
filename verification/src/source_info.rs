//! Provenance: where a module's content came from. Carried through
//! every error and every rendered part's banner, used only for
//! diagnostics, never for control flow.

use vstd::prelude::*;
use vstd::string::*;

verus! {

/// A module declared in a local directory.
#[derive(Debug, PartialEq, Eq)]
pub struct LocalModuleInfo {
    pub path: String,
    pub name: String,
}

/// A module declared inside a remote repository at a pinned commit.
#[derive(Debug, PartialEq, Eq)]
pub struct RemoteModuleInfo {
    /// original url
    pub url: String,
    pub repo_owner: String,
    pub repo_name: String,
    pub commit: String,
    pub path: String,
    /// Module name
    pub name: String,
}

/// A part written verbatim in the output list.
#[derive(Debug, PartialEq, Eq)]
pub struct InlineModuleInfo {
    pub value: String,
}

/// Info about where data came from.
#[derive(Debug, PartialEq, Eq)]
pub enum SourceInfoKind {
    LocalModuleInfo(LocalModuleInfo),
    RemoteModuleInfo(RemoteModuleInfo),
    InlineModuleInfo(InlineModuleInfo),
}

/// The one-line location text of a provenance value.
pub open spec fn source_location_spec(s: SourceInfoKind) -> Seq<char> {
    match s {
        SourceInfoKind::LocalModuleInfo(info) => "Local path: "@ + info.path@,
        SourceInfoKind::RemoteModuleInfo(info) => "Remote url: '"@ + info.url@ + "', owner: '"@
            + info.repo_owner@ + "', repo: '"@ + info.repo_name@ + "', commit: '"@ + info.commit@
            + "', path: '"@ + info.path@ + "', name: '"@ + info.name@ + "'"@,
        SourceInfoKind::InlineModuleInfo(info) => "Inline module value: "@ + info.value@,
    }
}

/// The short banner label of a provenance value.
pub open spec fn label_spec(s: SourceInfoKind) -> Seq<char> {
    match s {
        SourceInfoKind::LocalModuleInfo(info) => info.name@ + ": "@ + info.path@,
        SourceInfoKind::RemoteModuleInfo(info) => info.name@ + ": "@ + info.path@,
        SourceInfoKind::InlineModuleInfo(_) => "~INLINE~"@,
    }
}

impl SourceInfoKind {
    /// Human-readable description of where the module came from.
    pub fn source_location(&self) -> (r: String)
        ensures
            r@ == source_location_spec(*self),
    {
        match self {
            SourceInfoKind::LocalModuleInfo(info) => {
                let mut out = String::from_str("Local path: ");
                out.append(info.path.as_str());
                out
            },
            SourceInfoKind::RemoteModuleInfo(info) => {
                let mut out = String::from_str("Remote url: '");
                out.append(info.url.as_str());
                out.append("', owner: '");
                out.append(info.repo_owner.as_str());
                out.append("', repo: '");
                out.append(info.repo_name.as_str());
                out.append("', commit: '");
                out.append(info.commit.as_str());
                out.append("', path: '");
                out.append(info.path.as_str());
                out.append("', name: '");
                out.append(info.name.as_str());
                out.append("'");
                out
            },
            SourceInfoKind::InlineModuleInfo(info) => {
                let mut out = String::from_str("Inline module value: ");
                out.append(info.value.as_str());
                out
            },
        }
    }

    /// Short label put above a rendered part.
    pub fn label(&self) -> (r: String)
        ensures
            r@ == label_spec(*self),
    {
        match self {
            SourceInfoKind::LocalModuleInfo(info) => {
                let mut out = info.name.clone();
                out.append(": ");
                out.append(info.path.as_str());
                out
            },
            SourceInfoKind::RemoteModuleInfo(info) => {
                let mut out = info.name.clone();
                out.append(": ");
                out.append(info.path.as_str());
                out
            },
            SourceInfoKind::InlineModuleInfo(_) => String::from_str("~INLINE~"),
        }
    }
}

impl Clone for LocalModuleInfo {
    fn clone(&self) -> (r: Self)
        ensures
            r == *self,
    {
        LocalModuleInfo { path: self.path.clone(), name: self.name.clone() }
    }
}

impl Clone for RemoteModuleInfo {
    fn clone(&self) -> (r: Self)
        ensures
            r == *self,
    {
        RemoteModuleInfo {
            url: self.url.clone(),
            repo_owner: self.repo_owner.clone(),
            repo_name: self.repo_name.clone(),
            commit: self.commit.clone(),
            path: self.path.clone(),
            name: self.name.clone(),
        }
    }
}

impl Clone for InlineModuleInfo {
    fn clone(&self) -> (r: Self)
        ensures
            r == *self,
    {
        InlineModuleInfo { value: self.value.clone() }
    }
}

impl Clone for SourceInfoKind {
    fn clone(&self) -> (r: Self)
        ensures
            r == *self,
    {
        match self {
            SourceInfoKind::LocalModuleInfo(info) => SourceInfoKind::LocalModuleInfo(info.clone()),
            SourceInfoKind::RemoteModuleInfo(info) => SourceInfoKind::RemoteModuleInfo(
                info.clone(),
            ),
            SourceInfoKind::InlineModuleInfo(info) => SourceInfoKind::InlineModuleInfo(
                info.clone(),
            ),
        }
    }
}

} // verus!
