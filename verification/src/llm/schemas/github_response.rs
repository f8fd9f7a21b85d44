//! Records describing a target repository and the files taken from it.

use vstd::prelude::*;

verus! {

/// A target repository and the number of files to take from it.
#[derive(Clone, Debug)]
pub struct RepoInfo {
    pub owner: String,
    pub repo: String,
    pub max_files: usize,
}

/// Mathematical value of a [`RepoInfo`].
pub struct RepoView {
    pub owner: Seq<char>,
    pub repo: Seq<char>,
    pub max_files: nat,
}

impl View for RepoInfo {
    type V = RepoView;

    open spec fn view(&self) -> RepoView {
        RepoView { owner: self.owner@, repo: self.repo@, max_files: self.max_files as nat }
    }
}

/// One text artifact: a relative path and its (possibly capped) content.
#[derive(Clone, Debug)]
pub struct FileInfo {
    pub path: String,
    pub content: String,
}

/// Mathematical value of a [`FileInfo`].
pub struct FileView {
    pub path: Seq<char>,
    pub content: Seq<char>,
}

impl View for FileInfo {
    type V = FileView;

    open spec fn view(&self) -> FileView {
        FileView { path: self.path@, content: self.content@ }
    }
}

/// A file body as the source host's content interface reports it.
#[derive(Clone, Debug)]
pub struct GitHubContent {
    pub name: Option<String>,
    pub path: Option<String>,
    pub sha: String,
    pub size: Option<u64>,
    pub url: String,
    pub html_url: Option<String>,
    pub git_url: Option<String>,
    pub download_url: Option<String>,
    pub content_type: Option<String>,
    pub content: String,
    pub encoding: String,
    pub _links: Option<GitHubLinks>,
}

/// Link block attached to a content record.
#[derive(Clone, Debug)]
pub struct GitHubLinks {
    pub git: Option<String>,
    pub html: Option<String>,
    pub self_link: Option<String>,
}

/// A repository tree listing.
#[derive(Clone, Debug)]
pub struct GitHubTree {
    pub sha: String,
    pub url: String,
    pub tree: Vec<GitHubTreeItem>,
    pub truncated: Option<bool>,
}

/// One entry of a tree listing.
#[derive(Clone, Debug)]
pub struct GitHubTreeItem {
    pub path: String,
    pub mode: String,
    pub item_type: String,
    pub sha: String,
    pub size: Option<u64>,
    pub url: String,
}

} // verus!
