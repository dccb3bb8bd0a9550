//! Repository keys and the repository-backend collaborator.
//!
//! The key derivation is pure, verified logic.  The single-repository
//! primitives (open, init, stage, commit, push, status, clone) are external
//! collaborators reached through trusted wrappers around the `git2` crate.

use vstd::prelude::*;
use vstd::string::StrSliceExecFns;
use vstd::string::StringExecFns;

use crate::error::RepositoryError;
use crate::strutil::{
    is_prefix_of, is_suffix_of, starts_with_str, ends_with_str, joined_lines,
    lemma_joined_lines_push, lemma_suffix_after_last_none, lemma_suffix_after_last_some,
    rfind_char, suffix_after_last,
};

verus! {

/// The remote URL with its scheme or authentication prefix removed:
/// everything up to and including the last `'@'` goes; failing that, a
/// leading `https://` or `http://` goes.
pub open spec fn scheme_stripped(url: Seq<char>) -> Seq<char> {
    match suffix_after_last(url, '@') {
        Some(t) => t,
        None => if is_prefix_of("https://"@, url) {
            url.skip("https://"@.len() as int)
        } else if is_prefix_of("http://"@, url) {
            url.skip("http://"@.len() as int)
        } else {
            url
        },
    }
}

/// `s` with a trailing `.git` removed, when present.
pub open spec fn git_suffix_stripped(s: Seq<char>) -> Seq<char> {
    if is_suffix_of(".git"@, s) {
        s.take(s.len() - ".git"@.len())
    } else {
        s
    }
}

/// The base repository key of a remote URL.
pub open spec fn base_key_of(url: Seq<char>) -> Seq<char> {
    git_suffix_stripped(scheme_stripped(url))
}

/// The repository key of a remote URL and an optional hidden-directory name.
pub open spec fn repository_key_of(url: Seq<char>, directory: Option<Seq<char>>) -> Seq<char> {
    match directory {
        Some(d) => base_key_of(url) + seq!['/'] + d,
        None => base_key_of(url),
    }
}

/// Repository keys are a pure function of their inputs: the same remote URL
/// and directory always yield the same key.
pub proof fn lemma_repository_key_deterministic(
    url1: Seq<char>,
    url2: Seq<char>,
    dir1: Option<Seq<char>>,
    dir2: Option<Seq<char>>,
)
    requires
        url1 == url2,
        dir1 == dir2,
    ensures
        repository_key_of(url1, dir1) == repository_key_of(url2, dir2),
{
}

pub struct GitOperations;

impl GitOperations {
    /// Derive the base repository key of a remote URL: strip the scheme or
    /// authentication prefix and a `.git` suffix; an empty remainder is
    /// rejected.
    pub fn generate_base_key(remote_url: &str) -> (r: Result<String, RepositoryError>)
        ensures
            match r {
                Ok(k) => k@ == base_key_of(remote_url@) && base_key_of(remote_url@).len() > 0,
                Err(e) => e is InvalidRemoteUrl && base_key_of(remote_url@).len() == 0,
            },
    {
        proof {
            reveal_strlit("https://");
            reveal_strlit("http://");
            reveal_strlit(".git");
        }
        let n = s_len(remote_url);
        let after_at: &str = match rfind_char(remote_url, '@') {
            Some(i) => {
                proof {
                    lemma_suffix_after_last_some(remote_url@, '@', i as int);
                }
                remote_url.substring_char(i + 1, n)
            }
            None => {
                proof {
                    lemma_suffix_after_last_none(remote_url@, '@');
                }
                if starts_with_str(remote_url, "https://") {
                    remote_url.substring_char(8, n)
                } else if starts_with_str(remote_url, "http://") {
                    remote_url.substring_char(7, n)
                } else {
                    remote_url
                }
            }
        };
        let alen = s_len(after_at);
        let stripped: &str = if ends_with_str(after_at, ".git") {
            after_at.substring_char(0, alen - 4)
        } else {
            after_at
        };
        if s_len(stripped) == 0 {
            Err(RepositoryError::InvalidRemoteUrl)
        } else {
            Ok(stripped.to_owned())
        }
    }

    /// Derive the full repository key: the base key, then `/<directory>`
    /// when a hidden-directory name is given.
    pub fn generate_repository_key(remote_url: &str, directory: Option<&str>) -> (r: Result<
        String,
        RepositoryError,
    >)
        ensures
            match r {
                Ok(k) => k@ == repository_key_of(remote_url@, directory.deep_view())
                    && base_key_of(remote_url@).len() > 0,
                Err(e) => e is InvalidRemoteUrl && base_key_of(remote_url@).len() == 0,
            },
    {
        let base = Self::generate_base_key(remote_url)?;
        match directory {
            Some(dir) => {
                proof {
                    reveal_strlit("/");
                    assert("/"@ =~= seq!['/']);
                }
                let mut k = base;
                k.append("/");
                k.append(dir);
                Ok(k)
            }
            None => Ok(base),
        }
    }
}

/// Character length of a string slice.
fn s_len(s: &str) -> (n: usize)
    ensures
        n == s@.len(),
{
    s.unicode_len()
}

impl GitOperations {
    /// Relies on git2::Repository::open: whether `path` holds a repository.
    #[verifier::external_body]
    pub fn is_git_initialized(path: &str) -> bool {
        git2::Repository::open(std::path::Path::new(path)).is_ok()
    }

    /// Relies on git2::Repository::init: create (or reopen) a repository at
    /// `path`.
    #[verifier::external_body]
    pub fn init_repository(path: &str) -> (r: Result<(), String>) {
        match git2::Repository::init(std::path::Path::new(path)) {
            Ok(_) => Ok(()),
            Err(e) => Err(e.message().to_string()),
        }
    }

    /// Relies on git2::Repository::clone: clone `url` into `path`.
    #[verifier::external_body]
    pub fn clone_repository(url: &str, path: &str) -> (r: Result<(), String>) {
        match git2::Repository::clone(url, std::path::Path::new(path)) {
            Ok(_) => Ok(()),
            Err(e) => Err(e.message().to_string()),
        }
    }

    /// Relies on git2::Remote::url: the URL of the `origin` remote; the
    /// empty string when the remote has no URL set.
    #[verifier::external_body]
    fn remote_origin_url(path: &str) -> (r: Result<String, String>) {
        let em = |e: git2::Error| e.message().to_string();
        let repo = git2::Repository::open(std::path::Path::new(path)).map_err(em)?;
        let remote = repo.find_remote("origin").map_err(em)?;
        remote.url().map(|u| u.to_string()).map_err(em)
    }

    /// Relies on git2::Repository::remote: register `url` as the `origin`
    /// remote.
    #[verifier::external_body]
    pub(crate) fn set_remote_origin(path: &str, url: &str) -> (r: Result<(), String>) {
        let em = |e: git2::Error| e.message().to_string();
        let repo = git2::Repository::open(std::path::Path::new(path)).map_err(em)?;
        repo.remote("origin", url).map(|_| ()).map_err(em)
    }

    /// Relies on git2::Repository::find_remote: whether an `origin` remote
    /// is configured.
    #[verifier::external_body]
    pub(crate) fn has_remote_origin(path: &str) -> (r: Result<bool, String>) {
        let em = |e: git2::Error| e.message().to_string();
        let repo = git2::Repository::open(std::path::Path::new(path)).map_err(em)?;
        let found = repo.find_remote("origin").is_ok();
        Ok(found)
    }

    /// Relies on git2::Config::get_string: the value of configuration key
    /// `key`, or `None` when it is unset.
    #[verifier::external_body]
    fn config_string(path: &str, key: &str) -> (r: Result<Option<String>, String>) {
        let em = |e: git2::Error| e.message().to_string();
        let repo = git2::Repository::open(std::path::Path::new(path)).map_err(em)?;
        let config = repo.config().map_err(em)?;
        Ok(config.get_string(key).ok())
    }

    /// Relies on git2::Index::add_path: stage one file of the repository at
    /// `path`.
    #[verifier::external_body]
    pub(crate) fn stage_file(path: &str, file: &str) -> (r: Result<(), String>) {
        let em = |e: git2::Error| e.message().to_string();
        let repo = git2::Repository::open(std::path::Path::new(path)).map_err(em)?;
        let mut index = repo.index().map_err(em)?;
        index.add_path(std::path::Path::new(file)).map_err(em)?;
        index.write().map_err(em)
    }

    /// Relies on git2::Index::add_all: stage every change of the repository
    /// at `path`.
    #[verifier::external_body]
    pub fn add_all(path: &str) -> (r: Result<(), String>) {
        let em = |e: git2::Error| e.message().to_string();
        let repo = git2::Repository::open(std::path::Path::new(path)).map_err(em)?;
        let mut index = repo.index().map_err(em)?;
        index.add_all(["*"].iter(), git2::IndexAddOption::DEFAULT, None).map_err(em)?;
        index.write().map_err(em)
    }

    /// Relies on git2::Repository::commit: write the staged tree as a new
    /// commit on HEAD, signed `name <email>`, parented on the current HEAD
    /// commit when one exists; returns the new commit id in hex.
    #[verifier::external_body]
    fn commit_staged(path: &str, message: &str, name: &str, email: &str) -> (r: Result<
        String,
        String,
    >) {
        let em = |e: git2::Error| e.message().to_string();
        let repo = git2::Repository::open(std::path::Path::new(path)).map_err(em)?;
        let mut index = repo.index().map_err(em)?;
        let tree = repo.find_tree(index.write_tree().map_err(em)?).map_err(em)?;
        let sig = git2::Signature::now(name, email).map_err(em)?;
        let parent = repo.head().ok().and_then(|h| h.peel_to_commit().ok());
        let parents: Vec<&git2::Commit> = parent.iter().collect();
        let id = repo.commit(Some("HEAD"), &sig, &sig, message, &tree, &parents).map_err(em)?;
        Ok(id.to_string())
    }

    /// Relies on git2::Reference::shorthand: the short name of the current
    /// HEAD branch, when HEAD is readable and named.
    #[verifier::external_body]
    fn current_branch(path: &str) -> (r: Result<Option<String>, String>) {
        let em = |e: git2::Error| e.message().to_string();
        let repo = git2::Repository::open(std::path::Path::new(path)).map_err(em)?;
        let head = repo.head().map_err(em)?;
        Ok(head.shorthand().ok().map(|s| s.to_string()))
    }

    /// Relies on git2::Remote::push: push `branch` to the `origin` remote.
    #[verifier::external_body]
    pub(crate) fn push_branch(path: &str, branch: &str) -> (r: Result<(), String>) {
        let em = |e: git2::Error| e.message().to_string();
        let repo = git2::Repository::open(std::path::Path::new(path)).map_err(em)?;
        let mut remote = repo.find_remote("origin").map_err(em)?;
        let refspec = format!("refs/heads/{}:refs/heads/{}", branch, branch);
        remote.push(&[refspec.as_str()], None).map_err(em)
    }

    /// Relies on git2::Reference::target: the id of the commit HEAD points
    /// to; `None` when HEAD cannot be read or resolved (in particular,
    /// when no commit exists yet).
    #[verifier::external_body]
    pub(crate) fn head_commit_id(path: &str) -> (r: Result<Option<String>, String>) {
        let em = |e: git2::Error| e.message().to_string();
        let repo = git2::Repository::open(std::path::Path::new(path)).map_err(em)?;
        Ok(repo.head().ok().and_then(|h| h.target().map(|o| o.to_string())))
    }

    /// Relies on git2::Repository::reset (mixed): point the index at the
    /// tree of commit `commit_id`.
    #[verifier::external_body]
    pub(crate) fn reset_index_to_commit_tree(path: &str, commit_id: &str) -> (r: Result<
        (),
        String,
    >) {
        let em = |e: git2::Error| e.message().to_string();
        let repo = git2::Repository::open(std::path::Path::new(path)).map_err(em)?;
        let oid = git2::Oid::from_str(commit_id).map_err(em)?;
        let tree = repo.find_commit(oid).and_then(|c| c.tree()).map_err(em)?;
        repo.reset(tree.as_object(), git2::ResetType::Mixed, None).map_err(em)
    }

    /// Relies on git2::Commit::parent: the id of the first parent of
    /// `commit_id`, or `None` when the commit has no parent.
    #[verifier::external_body]
    pub(crate) fn first_parent_id(path: &str, commit_id: &str) -> (r: Result<
        Option<String>,
        String,
    >) {
        let em = |e: git2::Error| e.message().to_string();
        let repo = git2::Repository::open(std::path::Path::new(path)).map_err(em)?;
        let oid = git2::Oid::from_str(commit_id).map_err(em)?;
        let commit = repo.find_commit(oid).map_err(em)?;
        Ok(commit.parent(0).ok().map(|p| p.id().to_string()))
    }

    /// Relies on git2::Repository::reset (hard): reset the repository to
    /// commit `commit_id`.
    #[verifier::external_body]
    pub(crate) fn hard_reset_to_commit(path: &str, commit_id: &str) -> (r: Result<(), String>) {
        let em = |e: git2::Error| e.message().to_string();
        let repo = git2::Repository::open(std::path::Path::new(path)).map_err(em)?;
        let oid = git2::Oid::from_str(commit_id).map_err(em)?;
        let commit = repo.find_commit(oid).map_err(em)?;
        repo.reset(commit.as_object(), git2::ResetType::Hard, None).map_err(em)
    }

    /// Relies on git2::Repository::treebuilder and reset (hard): reset the
    /// repository to a freshly written empty tree.
    #[verifier::external_body]
    pub(crate) fn hard_reset_to_empty_tree(path: &str) -> (r: Result<(), String>) {
        let em = |e: git2::Error| e.message().to_string();
        let repo = git2::Repository::open(std::path::Path::new(path)).map_err(em)?;
        let tree_id = repo.treebuilder(None).and_then(|mut tb| tb.write()).map_err(em)?;
        let tree = repo.find_tree(tree_id).map_err(em)?;
        repo.reset(tree.as_object(), git2::ResetType::Hard, None).map_err(em)
    }

    /// Relies on std::path::Path::exists: whether `path` names an existing
    /// filesystem entry.
    #[verifier::external_body]
    pub(crate) fn path_exists(path: &str) -> bool {
        std::path::Path::new(path).exists()
    }
}

/// The state of one file as the backend reports it.
pub struct StatusEntry {
    pub path: String,
    pub index_new: bool,
    pub index_modified: bool,
    pub index_deleted: bool,
    pub wt_new: bool,
    pub wt_modified: bool,
    pub wt_deleted: bool,
}

/// The report line of one status entry, or `None` when none of the watched
/// states applies; index states take precedence over working-tree states.
pub open spec fn status_line_of(e: StatusEntry) -> Option<Seq<char>> {
    if e.index_new {
        Some("A  "@ + e.path@)
    } else if e.index_modified {
        Some("M  "@ + e.path@)
    } else if e.index_deleted {
        Some("D  "@ + e.path@)
    } else if e.wt_new {
        Some("?? "@ + e.path@)
    } else if e.wt_modified {
        Some(" M "@ + e.path@)
    } else if e.wt_deleted {
        Some(" D "@ + e.path@)
    } else {
        None
    }
}

/// The report lines of a sequence of entries, in order, entries without a
/// line omitted.
pub open spec fn status_lines_of(s: Seq<StatusEntry>) -> Seq<Seq<char>>
    decreases s.len(),
{
    if s.len() == 0 {
        Seq::empty()
    } else {
        let rest = status_lines_of(s.drop_last());
        match status_line_of(s.last()) {
            Some(l) => rest.push(l),
            None => rest,
        }
    }
}

/// The full status report: the joined lines, or the fixed clean-tree
/// message when no line applies.
pub open spec fn status_report_of(entries: Seq<StatusEntry>) -> Seq<char> {
    let lines = status_lines_of(entries);
    if lines.len() == 0 {
        "nothing to commit, working tree clean"@
    } else {
        joined_lines(lines)
    }
}

impl GitOperations {
    /// Relies on git2::Repository::statuses: the per-file states of the
    /// repository at `path`, each mapped to plain values.
    #[verifier::external_body]
    fn status_entries(path: &str) -> (r: Result<Vec<StatusEntry>, String>) {
        let em = |e: git2::Error| e.message().to_string();
        let repo = git2::Repository::open(std::path::Path::new(path)).map_err(em)?;
        let statuses = repo.statuses(None).map_err(em)?;
        Ok(statuses.iter().map(|e| {
            let s = e.status();
            StatusEntry {
                path: e.path().unwrap_or("unknown").to_string(),
                index_new: s.contains(git2::Status::INDEX_NEW),
                index_modified: s.contains(git2::Status::INDEX_MODIFIED),
                index_deleted: s.contains(git2::Status::INDEX_DELETED),
                wt_new: s.contains(git2::Status::WT_NEW),
                wt_modified: s.contains(git2::Status::WT_MODIFIED),
                wt_deleted: s.contains(git2::Status::WT_DELETED),
            }
        }).collect())
    }
}

impl GitOperations {
    /// The URL of the parent's `origin` remote; an unset or empty URL is an
    /// invalid remote.
    pub fn get_remote_origin(path: &str) -> (r: Result<String, RepositoryError>)
        ensures
            match r {
                Ok(u) => u@.len() > 0,
                Err(e) => e is InvalidRemoteUrl || e is GitError,
            },
    {
        match Self::remote_origin_url(path) {
            Ok(u) => {
                if s_len(u.as_str()) == 0 {
                    Err(RepositoryError::InvalidRemoteUrl)
                } else {
                    Ok(u)
                }
            }
            Err(message) => Err(RepositoryError::GitError { message }),
        }
    }

    /// The committing user's name, falling back to the email when no name
    /// is configured.
    pub fn get_git_user(path: &str) -> (r: Result<String, RepositoryError>)
        ensures
            r is Err ==> r->Err_0 is GitError,
    {
        match Self::config_string(path, "user.name") {
            Ok(Some(name)) => Ok(name),
            Ok(None) => match Self::config_string(path, "user.email") {
                Ok(Some(email)) => Ok(email),
                Ok(None) => Err(
                    RepositoryError::GitError {
                        message: String::from_str("No git user configured"),
                    },
                ),
                Err(message) => Err(RepositoryError::GitError { message }),
            },
            Err(message) => Err(RepositoryError::GitError { message }),
        }
    }

    /// Stage the files of `files` that exist on disk; nonexistent entries
    /// are silently skipped.
    pub fn add_files(path: &str, files: &Vec<String>) -> (r: Result<(), RepositoryError>)
        ensures
            r is Err ==> r->Err_0 is GitError,
    {
        let n = files.len();
        let mut i: usize = 0;
        while i < n
            invariant
                n == files@.len(),
                i <= n,
            decreases n - i,
        {
            if Self::path_exists(files[i].as_str()) {
                match Self::stage_file(path, files[i].as_str()) {
                    Ok(()) => {}
                    Err(message) => {
                        return Err(RepositoryError::GitError { message });
                    }
                }
            }
            i += 1;
        }
        Ok(())
    }

    /// Commit the staged tree with `message`, signed by the configured user
    /// (with the tool's identity as fallback); returns the commit id.
    pub fn commit(path: &str, message: &str) -> (r: Result<String, RepositoryError>)
        ensures
            r is Err ==> r->Err_0 is GitError,
    {
        let name = match Self::config_string(path, "user.name") {
            Ok(Some(n)) => n,
            Ok(None) => String::from_str("dot-cli"),
            Err(message) => {
                return Err(RepositoryError::GitError { message });
            }
        };
        let email = match Self::config_string(path, "user.email") {
            Ok(Some(e)) => e,
            Ok(None) => String::from_str("dot-cli@example.com"),
            Err(message) => {
                return Err(RepositoryError::GitError { message });
            }
        };
        match Self::commit_staged(path, message, name.as_str(), email.as_str()) {
            Ok(id) => Ok(id),
            Err(message) => Err(RepositoryError::GitError { message }),
        }
    }

    /// The working-tree and index state of the repository at `path`,
    /// rendered as the usual one-line-per-file report.
    pub fn get_status(path: &str) -> (r: Result<String, RepositoryError>)
        ensures
            r is Err ==> r->Err_0 is GitError,
    {
        match Self::status_entries(path) {
            Ok(entries) => Ok(Self::format_status(&entries)),
            Err(message) => Err(RepositoryError::GitError { message }),
        }
    }

    /// Render status entries: one line per reported file, in order, each
    /// with its two-column state prefix; no entries means a clean tree.
    pub fn format_status(entries: &Vec<StatusEntry>) -> (r: String)
        ensures
            r@ == status_report_of(entries@),
    {
        let n = entries.len();
        let mut lines: Vec<String> = Vec::new();
        let mut i: usize = 0;
        proof {
            assert(entries@.take(0) =~= Seq::<StatusEntry>::empty());
        }
        while i < n
            invariant
                n == entries@.len(),
                i <= n,
                lines.deep_view() == status_lines_of(entries@.take(i as int)),
            decreases n - i,
        {
            proof {
                assert(entries@.take(i + 1).drop_last() =~= entries@.take(i as int));
                assert(entries@.take(i + 1).last() == entries@[i as int]);
            }
            let e = &entries[i];
            if e.index_new {
                let mut l = String::from_str("A  ");
                l.append(e.path.as_str());
                lines.push(l);
            } else if e.index_modified {
                let mut l = String::from_str("M  ");
                l.append(e.path.as_str());
                lines.push(l);
            } else if e.index_deleted {
                let mut l = String::from_str("D  ");
                l.append(e.path.as_str());
                lines.push(l);
            } else if e.wt_new {
                let mut l = String::from_str("?? ");
                l.append(e.path.as_str());
                lines.push(l);
            } else if e.wt_modified {
                let mut l = String::from_str(" M ");
                l.append(e.path.as_str());
                lines.push(l);
            } else if e.wt_deleted {
                let mut l = String::from_str(" D ");
                l.append(e.path.as_str());
                lines.push(l);
            }
            i += 1;
            proof {
                assert(lines.deep_view() =~= status_lines_of(entries@.take(i as int)));
            }
        }
        proof {
            assert(entries@.take(n as int) =~= entries@);
        }
        if lines.len() == 0 {
            String::from_str("nothing to commit, working tree clean")
        } else {
            crate::strutil::join_lines(&lines)
        }
    }

    /// Push the current branch to `origin`, falling back to the literal
    /// branch name `main` when HEAD has no short name.
    pub fn push(path: &str) -> (r: Result<(), RepositoryError>)
        ensures
            r is Err ==> r->Err_0 is GitError,
    {
        let branch = match Self::current_branch(path) {
            Ok(Some(b)) => b,
            Ok(None) => String::from_str("main"),
            Err(message) => {
                return Err(RepositoryError::GitError { message });
            }
        };
        match Self::push_branch(path, branch.as_str()) {
            Ok(()) => Ok(()),
            Err(message) => Err(RepositoryError::GitError { message }),
        }
    }
}

} // verus!
