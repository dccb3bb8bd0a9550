//! The repository orchestrator.
//!
//! For each multi-repository command it resolves the hidden repositories
//! bound to the current parent through the index, builds one operation per
//! repository — hidden repositories strictly before the parent — and
//! drives the transaction engine.  Project initialization runs as a
//! session: the library decides every step and compensation, the
//! unverified shell performs the filesystem and hosting-provider actions
//! it is handed.

use vstd::prelude::*;
use vstd::string::StrSliceExecFns;
use vstd::string::StringExecFns;

use crate::atomic::{AddOperation, AtomicOperations, CommitOperation, Operation, PushOperation};
use crate::config::ConfigManager;
use crate::error::{IndexError, RepositoryError};
use crate::git_operations::{base_key_of, repository_key_of, GitOperations};
use crate::github::{
    hidden_repository_description, hidden_repository_name, hosted_repository_url, md5_hex_of,
    GitHubClient,
};
use crate::index::{IndexManager, ProjectRegistration};
use crate::strutil::{
    clone_string_vec, ends_with_str, is_prefix_of, is_subsequence_of, is_suffix_of, join_lines,
    join_path, joined_lines, lemma_subsequence_extend_right, lemma_subsequence_push_both,
    lemma_suffix_after_last_none, lemma_suffix_after_last_some, rfind_char, str_eq,
    suffix_after_last,
};

verus! {

/// The default directory name of a clone: the last path segment of the
/// URL without its `.git` suffix; a segment without that suffix falls
/// back to the literal name `repo`.
pub open spec fn default_clone_dir(url: Seq<char>) -> Seq<char> {
    let last = match suffix_after_last(url, '/') {
        Some(t) => t,
        None => url,
    };
    if is_suffix_of(".git"@, last) {
        last.take(last.len() - ".git"@.len())
    } else {
        "repo"@
    }
}

/// The report lines of the hidden repositories of a push, in order.
pub open spec fn hidden_push_lines(dirs: Seq<Seq<char>>) -> Seq<Seq<char>>
    decreases dirs.len(),
{
    if dirs.len() == 0 {
        Seq::empty()
    } else {
        hidden_push_lines(dirs.drop_last()).push(
            "Hidden repository '"@ + dirs.last() + "': pushed"@,
        )
    }
}

/// The report lines of a push: one per hidden repository, the parent's
/// last.
pub open spec fn push_report_lines(dirs: Seq<Seq<char>>) -> Seq<Seq<char>> {
    hidden_push_lines(dirs).push("Parent repository: pushed"@)
}

/// Top-level coordinator over configuration, index and hosting provider.
pub struct RepositoryManager {
    pub config: ConfigManager,
    pub index_manager: IndexManager,
    pub github_client: GitHubClient,
}

impl RepositoryManager {
    pub fn new(config: ConfigManager, index_manager: IndexManager) -> (r: Self)
        ensures
            r.config == config,
            r.index_manager == index_manager,
            r.github_client.token == config.config.github_token,
    {
        let github_token = config.get_github_token();
        let github_client = GitHubClient::new(github_token);
        RepositoryManager { config, index_manager, github_client }
    }

    /// The SSH URL of a hidden repository hosted under this index's
    /// organization.
    pub fn generate_hidden_repo_url(&self, repository_name: &str) -> (r: String)
        ensures
            r@ == "git@github.com:"@ + self.index_manager.remote_organization@ + "/"@
                + repository_name@ + ".git"@,
    {
        hosted_repository_url(self.index_manager.get_organization().as_str(), repository_name)
    }

    /// The hidden repositories bound to `base_key`: each registration's
    /// directory name paired with its on-disk path under `parent_dir`, in
    /// registry order.
    pub fn hidden_repositories_for(&self, base_key: &str, parent_dir: &str) -> (r: Vec<
        (String, String),
    >)
        ensures
            ({
                let found = self.index_manager.index_data.projects@.filter(
                    |p: ProjectRegistration| is_prefix_of(base_key@, p.repository_key@),
                );
                &&& r@.len() == found.len()
                &&& forall|t: int|
                    0 <= t < r@.len() ==> (#[trigger] r@[t]).0@ == found[t].hidden_directory@
                        && r@[t].1@ == parent_dir@ + "/"@ + found[t].hidden_directory@
            }),
    {
        let projects = self.index_manager.find_projects_by_base_key(base_key);
        let n = projects.len();
        let mut out: Vec<(String, String)> = Vec::new();
        let mut i: usize = 0;
        while i < n
            invariant
                n == projects@.len(),
                i <= n,
                out@.len() == i,
                forall|t: int|
                    0 <= t < i ==> (#[trigger] out@[t]).0@ == projects@[t].hidden_directory@
                        && out@[t].1@ == parent_dir@ + "/"@ + projects@[t].hidden_directory@,
            decreases n - i,
        {
            let dir = projects[i].hidden_directory.clone();
            let full = join_path(parent_dir, dir.as_str());
            out.push((dir, full));
            i += 1;
        }
        out
    }

    /// Resolve the hidden repositories of the parent at `parent_dir` from
    /// its `origin` remote.
    pub fn get_hidden_repositories(&self, parent_dir: &str) -> (r: Result<
        Vec<(String, String)>,
        RepositoryError,
    >)
        ensures
            r is Err ==> (r->Err_0 is GitError || r->Err_0 is InvalidRemoteUrl),
    {
        let remote_url = GitOperations::get_remote_origin(parent_dir)?;
        let base_key = match GitOperations::generate_base_key(remote_url.as_str()) {
            Ok(k) => k,
            Err(_) => {
                return Err(RepositoryError::InvalidRemoteUrl);
            }
        };
        Ok(self.hidden_repositories_for(base_key.as_str(), parent_dir))
    }

    /// Of the given hidden repositories, those whose path exists on disk:
    /// an in-order subsequence of the given list, nothing duplicated or
    /// reordered.
    fn present_hidden(hidden: &Vec<(String, String)>) -> (r: Vec<(String, String)>)
        ensures
            is_subsequence_of(r@, hidden@),
    {
        let n = hidden.len();
        let mut out: Vec<(String, String)> = Vec::new();
        let mut i: usize = 0;
        proof {
            assert(hidden@.take(0) =~= Seq::<(String, String)>::empty());
        }
        while i < n
            invariant
                n == hidden@.len(),
                i <= n,
                is_subsequence_of(out@, hidden@.take(i as int)),
            decreases n - i,
        {
            proof {
                assert(hidden@.take(i + 1) =~= hidden@.take(i as int).push(hidden@[i as int]));
            }
            if GitOperations::path_exists(hidden[i].1.as_str()) {
                let dir = hidden[i].0.clone();
                let path = hidden[i].1.clone();
                proof {
                    assert((dir, path) == hidden@[i as int]);
                    lemma_subsequence_push_both(out@, hidden@.take(i as int), hidden@[i as int]);
                }
                out.push((dir, path));
            } else {
                proof {
                    lemma_subsequence_extend_right(
                        out@,
                        hidden@.take(i as int),
                        hidden@[i as int],
                    );
                }
            }
            i += 1;
        }
        proof {
            assert(hidden@.take(n as int) =~= hidden@);
        }
        out
    }

    /// The target paths of one multi-repository command: the given hidden
    /// repository paths in order, then the parent — the parent always
    /// last, so its final state reflects completed hidden-repository
    /// work.
    pub fn command_targets(hidden_paths: &Vec<String>, current_dir: &str) -> (r: Vec<String>)
        ensures
            r@.len() == hidden_paths@.len() + 1,
            forall|t: int|
                0 <= t < hidden_paths@.len() ==> (#[trigger] r@[t])@ == hidden_paths@[t]@,
            r@.last()@ == current_dir@,
    {
        let mut targets = clone_string_vec(hidden_paths);
        targets.push(current_dir.to_owned());
        targets
    }

    /// Stage `files` in every bound hidden repository present on disk,
    /// then in the parent, under the engine's chosen mode.  In best-effort
    /// mode the engine itself never fails: only resolving the hidden
    /// repositories can (the engine's failures surface as `IoError`).
    pub fn multi_repo_add(
        &self,
        files: Vec<String>,
        skip_hidden: bool,
        no_atomic: bool,
        current_dir: &str,
    ) -> (r: Result<(), RepositoryError>)
        ensures
            r is Err ==> (r->Err_0 is GitError || r->Err_0 is InvalidRemoteUrl || r->Err_0
                is IoError),
            no_atomic ==> !(r matches Err(RepositoryError::IoError { .. })),
    {
        let hidden_paths = self.command_hidden_paths(skip_hidden, current_dir)?;
        let targets = Self::command_targets(&hidden_paths, current_dir);
        let n = targets.len();
        let mut operations = AtomicOperations::new(no_atomic);
        let mut i: usize = 0;
        while i < n
            invariant
                n == targets@.len(),
                i <= n,
                operations.atomic == !no_atomic,
            decreases n - i,
        {
            let files_copy = clone_string_vec(&files);
            operations.add_operation(
                Operation::Add(AddOperation::new(targets[i].clone(), files_copy)),
            );
            i += 1;
        }
        match operations.execute() {
            Ok(()) => Ok(()),
            Err(e) => Err(RepositoryError::IoError { message: e.message() }),
        }
    }

    /// Commit with `message` in every bound hidden repository present on
    /// disk, then in the parent, under the engine's chosen mode.  In
    /// best-effort mode the engine itself never fails.
    pub fn multi_repo_commit(
        &self,
        message: String,
        skip_hidden: bool,
        no_atomic: bool,
        current_dir: &str,
    ) -> (r: Result<(), RepositoryError>)
        ensures
            r is Err ==> (r->Err_0 is GitError || r->Err_0 is InvalidRemoteUrl || r->Err_0
                is IoError),
            no_atomic ==> !(r matches Err(RepositoryError::IoError { .. })),
    {
        let hidden_paths = self.command_hidden_paths(skip_hidden, current_dir)?;
        let targets = Self::command_targets(&hidden_paths, current_dir);
        let n = targets.len();
        let mut operations = AtomicOperations::new(no_atomic);
        let mut i: usize = 0;
        while i < n
            invariant
                n == targets@.len(),
                i <= n,
                operations.atomic == !no_atomic,
            decreases n - i,
        {
            operations.add_operation(
                Operation::Commit(CommitOperation::new(targets[i].clone(), message.clone())),
            );
            i += 1;
        }
        match operations.execute() {
            Ok(()) => Ok(()),
            Err(e) => Err(RepositoryError::IoError { message: e.message() }),
        }
    }

    /// Push every bound hidden repository present on disk, then the
    /// parent, under the engine's chosen mode; reports one line per
    /// pushed repository, the parent's last.
    pub fn multi_repo_push(&self, skip_hidden: bool, no_atomic: bool, current_dir: &str) -> (r:
        Result<String, RepositoryError>)
        ensures
            r is Err ==> (r->Err_0 is GitError || r->Err_0 is InvalidRemoteUrl || r->Err_0
                is IoError),
            no_atomic ==> !(r matches Err(RepositoryError::IoError { .. })),
            skip_hidden && r is Ok ==> r->Ok_0@ == joined_lines(
                push_report_lines(Seq::<Seq<char>>::empty()),
            ),
            r is Ok ==> is_suffix_of("Parent repository: pushed"@, r->Ok_0@),
    {
        let hidden = if skip_hidden {
            Vec::new()
        } else {
            let all = self.get_hidden_repositories(current_dir)?;
            Self::present_hidden(&all)
        };
        let n = hidden.len();
        let mut operations = AtomicOperations::new(no_atomic);
        let mut dirs: Vec<String> = Vec::new();
        let mut i: usize = 0;
        while i < n
            invariant
                n == hidden@.len(),
                i <= n,
                operations.atomic == !no_atomic,
                dirs@.len() == i,
                forall|t: int| 0 <= t < i ==> (#[trigger] dirs@[t])@ == hidden@[t].0@,
            decreases n - i,
        {
            operations.add_operation(Operation::Push(PushOperation::new(hidden[i].1.clone())));
            dirs.push(hidden[i].0.clone());
            i += 1;
        }
        operations.add_operation(Operation::Push(PushOperation::new(current_dir.to_owned())));
        proof {
            if skip_hidden {
                assert(dirs.deep_view() =~= Seq::<Seq<char>>::empty());
            }
            crate::strutil::lemma_joined_lines_last(push_report_lines(dirs.deep_view()));
        }
        match operations.execute() {
            Ok(()) => Ok(Self::push_report(&dirs)),
            Err(e) => Err(RepositoryError::IoError { message: e.message() }),
        }
    }

    /// The report of a completed push over the given hidden directory
    /// names.
    pub fn push_report(hidden_dirs: &Vec<String>) -> (r: String)
        ensures
            r@ == joined_lines(push_report_lines(hidden_dirs.deep_view())),
    {
        let n = hidden_dirs.len();
        let mut lines: Vec<String> = Vec::new();
        let mut i: usize = 0;
        proof {
            assert(hidden_dirs.deep_view().take(0) =~= Seq::<Seq<char>>::empty());
        }
        while i < n
            invariant
                n == hidden_dirs@.len(),
                i <= n,
                lines.deep_view() == hidden_push_lines(hidden_dirs.deep_view().take(i as int)),
            decreases n - i,
        {
            proof {
                assert(hidden_dirs.deep_view().take(i + 1).drop_last()
                    =~= hidden_dirs.deep_view().take(i as int));
                assert(hidden_dirs.deep_view().take(i + 1).last() == hidden_dirs@[i as int]@);
            }
            let mut line = String::from_str("Hidden repository '");
            line.append(hidden_dirs[i].as_str());
            line.append("': pushed");
            lines.push(line);
            i += 1;
            proof {
                assert(lines.deep_view() =~= hidden_push_lines(
                    hidden_dirs.deep_view().take(i as int),
                ));
            }
        }
        lines.push(String::from_str("Parent repository: pushed"));
        proof {
            assert(hidden_dirs.deep_view().take(n as int) =~= hidden_dirs.deep_view());
            assert(lines.deep_view() =~= push_report_lines(hidden_dirs.deep_view()));
        }
        join_lines(&lines)
    }

    /// Whether the parent at `current_dir` is managed: it is a repository,
    /// has an `origin` remote, and at least one hidden repository is
    /// registered under its base key.
    pub fn is_dot_initialized(&self, current_dir: &str) -> (r: Result<bool, RepositoryError>)
        ensures
            r is Err ==> r->Err_0 is InvalidRemoteUrl,
    {
        if !GitOperations::is_git_initialized(current_dir) {
            return Ok(false);
        }
        let remote_url = match GitOperations::get_remote_origin(current_dir) {
            Ok(u) => u,
            Err(_) => {
                return Ok(false);
            }
        };
        let base_key = match GitOperations::generate_base_key(remote_url.as_str()) {
            Ok(k) => k,
            Err(_) => {
                return Err(RepositoryError::InvalidRemoteUrl);
            }
        };
        let projects = self.index_manager.find_projects_by_base_key(base_key.as_str());
        Ok(projects.len() > 0)
    }

    /// The status report over the parent and its bound hidden
    /// repositories: the fixed message for an unmanaged directory, else a
    /// report that opens with the parent-repository header.
    pub fn status(&self, skip_hidden: bool, current_dir: &str) -> (r: Result<
        String,
        RepositoryError,
    >)
        ensures
            r is Err ==> (r->Err_0 is GitError || r->Err_0 is InvalidRemoteUrl),
            r matches Ok(s) ==> (s@
                == "This directory is not initialized with dot. Run 'dot init <directory>' to initialize."@
                || is_prefix_of("=== Parent Repository ==="@, s@)),
    {
        if !self.is_dot_initialized(current_dir)? {
            return Ok(
                String::from_str(
                    "This directory is not initialized with dot. Run 'dot init <directory>' to initialize.",
                ),
            );
        }
        let mut lines: Vec<String> = Vec::new();
        lines.push(String::from_str("=== Parent Repository ==="));
        let parent_status = GitOperations::get_status(current_dir)?;
        lines.push(parent_status);
        if !skip_hidden {
            let hidden = self.get_hidden_repositories(current_dir)?;
            let n = hidden.len();
            let mut i: usize = 0;
            while i < n
                invariant
                    n == hidden@.len(),
                    i <= n,
                    lines@.len() >= 1,
                    lines@[0]@ == "=== Parent Repository ==="@,
                decreases n - i,
            {
                let mut header = String::from_str("=== Hidden Repository: ");
                header.append(hidden[i].0.as_str());
                header.append(" ===");
                lines.push(header);
                if GitOperations::path_exists(hidden[i].1.as_str()) {
                    let s = GitOperations::get_status(hidden[i].1.as_str())?;
                    lines.push(s);
                } else {
                    lines.push(String::from_str("Repository not found locally"));
                }
                i += 1;
            }
        }
        proof {
            assert(lines.deep_view().len() == lines@.len());
            assert(lines.deep_view()[0] == lines@[0]@);
            crate::strutil::lemma_joined_lines_first(lines.deep_view());
        }
        Ok(join_lines(&lines))
    }

    /// Clone the parent repository from `repository_url`, then each hidden
    /// repository bound to its base key into its recorded directory; a
    /// failure cloning one hidden repository is reported in the outcome
    /// list but does not abort the others.
    pub fn clone_project(
        &self,
        repository_url: String,
        target_dir: Option<String>,
        current_dir: &str,
    ) -> (r: Result<Vec<(String, bool)>, RepositoryError>)
        ensures
            match r {
                Ok(outcomes) => ({
                    let found = self.index_manager.index_data.projects@.filter(
                        |p: ProjectRegistration| is_prefix_of(
                            base_key_of(repository_url@),
                            p.repository_key@,
                        ),
                    );
                    &&& base_key_of(repository_url@).len() > 0
                    &&& outcomes@.len() == found.len()
                    &&& forall|t: int|
                        0 <= t < outcomes@.len() ==> (#[trigger] outcomes@[t]).0@
                            == found[t].hidden_directory@
                }),
                Err(e) => (e is GitError || e is InvalidRemoteUrl) && (e is InvalidRemoteUrl
                    ==> base_key_of(repository_url@).len() == 0),
            },
    {
        let dir_name = match target_dir {
            Some(t) => t,
            None => Self::derive_clone_dir(repository_url.as_str()),
        };
        let target_path = join_path(current_dir, dir_name.as_str());
        match GitOperations::clone_repository(repository_url.as_str(), target_path.as_str()) {
            Ok(()) => {}
            Err(message) => {
                return Err(RepositoryError::GitError { message });
            }
        }
        let base_key = match GitOperations::generate_base_key(repository_url.as_str()) {
            Ok(k) => k,
            Err(_) => {
                return Err(RepositoryError::InvalidRemoteUrl);
            }
        };
        let projects = self.index_manager.find_projects_by_base_key(base_key.as_str());
        let n = projects.len();
        let mut outcomes: Vec<(String, bool)> = Vec::new();
        let mut i: usize = 0;
        while i < n
            invariant
                n == projects@.len(),
                i <= n,
                outcomes@.len() == i,
                forall|t: int|
                    0 <= t < i ==> (#[trigger] outcomes@[t]).0@ == projects@[t].hidden_directory@,
            decreases n - i,
        {
            let hidden_dir = join_path(target_path.as_str(), projects[i].hidden_directory.as_str());
            let url = self.generate_hidden_repo_url(projects[i].repository_name.as_str());
            let ok = match GitOperations::clone_repository(url.as_str(), hidden_dir.as_str()) {
                Ok(()) => true,
                Err(_) => false,
            };
            outcomes.push((projects[i].hidden_directory.clone(), ok));
            i += 1;
        }
        Ok(outcomes)
    }

    /// The default clone directory of `url`.
    fn derive_clone_dir(url: &str) -> (r: String)
        ensures
            r@ == default_clone_dir(url@),
    {
        proof {
            reveal_strlit(".git");
        }
        let n = url.unicode_len();
        let last: &str = match rfind_char(url, '/') {
            Some(i) => {
                proof {
                    lemma_suffix_after_last_some(url@, '/', i as int);
                }
                url.substring_char(i + 1, n)
            }
            None => {
                proof {
                    lemma_suffix_after_last_none(url@, '/');
                }
                url
            }
        };
        let llen = last.unicode_len();
        if ends_with_str(last, ".git") {
            last.substring_char(0, llen - 4).to_owned()
        } else {
            String::from_str("repo")
        }
    }

    /// The present hidden repository paths of one command, or none when
    /// hidden repositories are skipped.
    fn command_hidden_paths(&self, skip_hidden: bool, current_dir: &str) -> (r: Result<
        Vec<String>,
        RepositoryError,
    >)
        ensures
            r is Err ==> (r->Err_0 is GitError || r->Err_0 is InvalidRemoteUrl),
    {
        if skip_hidden {
            return Ok(Vec::new());
        }
        let all = self.get_hidden_repositories(current_dir)?;
        let present = Self::present_hidden(&all);
        let n = present.len();
        let mut paths: Vec<String> = Vec::new();
        let mut i: usize = 0;
        while i < n
            invariant
                n == present@.len(),
                i <= n,
            decreases n - i,
        {
            paths.push(present[i].1.clone());
            i += 1;
        }
        Ok(paths)
    }
}

/// Relies on chrono::Utc::now: the current instant, rendered RFC 3339.
#[verifier::external_body]
fn now_timestamp() -> (r: String) {
    chrono::Utc::now().to_rfc3339()
}

/// The gitignore document of a hidden directory: ignore everything, keep
/// the gitignore itself out of the blanket.
pub fn gitignore_content() -> (r: String)
    ensures
        r@ == "*\n!.gitignore"@,
{
    String::from_str("*\n!.gitignore")
}

/// Where an init transaction stands.
#[derive(Debug, Clone, Copy, PartialEq, Eq, Structural)]
pub enum InitPhase {
    /// Create the current hidden directory on disk.
    CreateDir,
    /// Write the current directory's gitignore document.
    WriteIgnore,
    /// Create the current directory's remote repository.
    CreateRemote,
    /// Compensate: remove the current directory (this transaction created it).
    CleanupDir,
    /// Compensate: delete the current directory's remote repository.
    CleanupRemote,
    /// Unwind a completed directory: remove it from disk.
    UnwindDir,
    /// Unwind a completed directory: delete its remote repository.
    UnwindRemote,
    /// Every directory completed; the staged registrations can be applied.
    Finished,
    /// The transaction failed; nothing will be applied.
    Aborted,
}

/// What the shell must do next to advance an init transaction.
#[derive(Debug)]
pub enum InitAction {
    /// Create a directory on disk.
    CreateDirectory { path: String },
    /// Write `content` into the gitignore file at `path`.
    WriteGitignore { path: String, content: String },
    /// Create a remote repository through the hosting provider
    /// (idempotent: an already existing repository is success).
    CreateRemoteRepository { organization: String, name: String, description: String },
    /// Remove a directory this transaction created.
    RemoveDirectory { path: String },
    /// Delete a remote repository, best effort: a failure is reported and
    /// swallowed.
    DeleteRemoteRepository { organization: String, name: String },
    /// The transaction is complete; apply it.
    Finished,
    /// The transaction failed; nothing to apply.
    Aborted,
}

/// The shell's report on a performed action.
#[derive(Debug)]
pub enum InitEvent {
    Succeeded,
    Failed { message: String },
    RemoteCreated { remote_url: String },
}

/// One init transaction: the per-directory plan, what completed, and the
/// compensation bookkeeping.  Registrations are staged here and land in
/// the index only when the whole transaction finishes, so an aborted run
/// leaves no trace in the registry.
pub struct InitSession {
    pub parent_dir: String,
    pub remote_url: String,
    pub organization: String,
    pub git_user: String,
    pub atomic: bool,
    pub directories: Vec<String>,
    pub keys: Vec<String>,
    pub names: Vec<String>,
    pub pre_existing: Vec<bool>,
    pub staged: Vec<ProjectRegistration>,
    pub pos: usize,
    pub phase: InitPhase,
    pub cleanup_remote: bool,
    pub rollback_pos: usize,
    pub failure: Option<String>,
}

impl InitSession {
    /// The session is in a per-directory working phase.
    pub open spec fn working(&self) -> bool {
        self.phase is CreateDir || self.phase is WriteIgnore || self.phase is CreateRemote
    }

    /// The session is compensating for a failure.
    pub open spec fn compensating(&self) -> bool {
        self.phase is CleanupDir || self.phase is CleanupRemote || self.phase is UnwindDir
            || self.phase is UnwindRemote
    }

    /// Phase-independent consistency: the per-directory vectors agree,
    /// every key derives from the parent's remote URL and its directory,
    /// every name is the key's digest, and the staged registrations match
    /// the plan, with pairwise distinct keys.
    pub open spec fn plan_ok(&self) -> bool {
        let n = self.directories@.len();
        &&& self.keys@.len() == n
        &&& self.names@.len() == n
        &&& self.pre_existing@.len() == n
        &&& (forall|t: int|
            0 <= t < n ==> (#[trigger] self.keys@[t])@ == repository_key_of(
                self.remote_url@,
                Some(self.directories@[t]@),
            ))
        &&& (forall|t: int| 0 <= t < n ==> (#[trigger] self.names@[t])@ == md5_hex_of(self.keys@[t]@))
        &&& self.staged@.len() <= n
        &&& (forall|t: int|
            0 <= t < self.staged@.len() ==> (#[trigger] self.staged@[t]).repository_key@
                == self.keys@[t]@ && self.staged@[t].hidden_directory@ == self.directories@[t]@
                && self.staged@[t].repository_name@ == self.names@[t]@
                && self.staged@[t].git_user@ == self.git_user@
                && self.staged@[t].project_git_path@ == self.remote_url@
                && self.staged@[t].project_disk_path@ == self.parent_dir@)
        &&& (forall|t1: int, t2: int|
            0 <= t1 < t2 < self.staged@.len() ==> (#[trigger] self.staged@[t1]).repository_key@ != (
            #[trigger] self.staged@[t2]).repository_key@)
    }

    /// Internal consistency: the plan holds, and the bookkeeping fields
    /// agree with the phase — the staged registrations are exactly the
    /// completed prefix, compensation only runs after a recorded failure,
    /// and a directory-removal phase only ever names a directory this
    /// transaction created (a pre-existing directory is never removed).
    pub open spec fn wf(&self) -> bool {
        let n = self.directories@.len();
        &&& self.plan_ok()
        &&& (self.working() ==> self.pos < n && self.staged@.len() == self.pos && self.failure
            is None)
        &&& ((self.phase is CleanupDir || self.phase is CleanupRemote) ==> self.pos < n
            && self.staged@.len() == self.pos)
        &&& (self.phase is Finished ==> self.staged@.len() == n)
        &&& ((self.phase is UnwindDir || self.phase is UnwindRemote) ==> self.rollback_pos
            < self.staged@.len())
        &&& ((self.compensating() || self.phase is Aborted) ==> self.failure is Some)
        &&& (self.phase is CleanupDir ==> !self.pre_existing@[self.pos as int])
        &&& (self.phase is UnwindDir ==> !self.pre_existing@[self.rollback_pos as int])
    }

    /// The action the shell must perform next, a pure function of the
    /// session's state.
    pub fn next_action(&self) -> (r: InitAction)
        requires
            self.wf(),
        ensures
            self.phase is CreateDir ==> (r matches InitAction::CreateDirectory { path } && path@
                == self.parent_dir@ + "/"@ + self.directories@[self.pos as int]@),
            self.phase is WriteIgnore ==> (r matches InitAction::WriteGitignore { path, content }
                && path@ == self.parent_dir@ + "/"@ + self.directories@[self.pos as int]@ + "/"@
                + ".gitignore"@ && content@ == "*\n!.gitignore"@),
            self.phase is CreateRemote ==> (r matches InitAction::CreateRemoteRepository {
                organization,
                name,
                description,
            } && organization@ == self.organization@ && name@ == self.names@[self.pos as int]@
                && description@ == "Hidden repository for "@ + self.keys@[self.pos as int]@),
            self.phase is CleanupDir ==> (r matches InitAction::RemoveDirectory { path } && path@
                == self.parent_dir@ + "/"@ + self.directories@[self.pos as int]@),
            self.phase is CleanupRemote ==> (r matches InitAction::DeleteRemoteRepository {
                organization,
                name,
            } && organization@ == self.organization@ && name@ == self.names@[self.pos as int]@),
            self.phase is UnwindDir ==> (r matches InitAction::RemoveDirectory { path } && path@
                == self.parent_dir@ + "/"@ + self.directories@[self.rollback_pos as int]@),
            self.phase is UnwindRemote ==> (r matches InitAction::DeleteRemoteRepository {
                organization,
                name,
            } && organization@ == self.organization@ && name@
                == self.names@[self.rollback_pos as int]@),
            self.phase is Finished ==> r is Finished,
            self.phase is Aborted ==> r is Aborted,
    {
        match self.phase {
            InitPhase::CreateDir => InitAction::CreateDirectory {
                path: join_path(self.parent_dir.as_str(), self.directories[self.pos].as_str()),
            },
            InitPhase::WriteIgnore => {
                let dir = join_path(self.parent_dir.as_str(), self.directories[self.pos].as_str());
                InitAction::WriteGitignore {
                    path: join_path(dir.as_str(), ".gitignore"),
                    content: gitignore_content(),
                }
            }
            InitPhase::CreateRemote => InitAction::CreateRemoteRepository {
                organization: self.organization.clone(),
                name: self.names[self.pos].clone(),
                description: hidden_repository_description(self.keys[self.pos].as_str()),
            },
            InitPhase::CleanupDir => InitAction::RemoveDirectory {
                path: join_path(self.parent_dir.as_str(), self.directories[self.pos].as_str()),
            },
            InitPhase::CleanupRemote => InitAction::DeleteRemoteRepository {
                organization: self.organization.clone(),
                name: self.names[self.pos].clone(),
            },
            InitPhase::UnwindDir => InitAction::RemoveDirectory {
                path: join_path(
                    self.parent_dir.as_str(),
                    self.directories[self.rollback_pos].as_str(),
                ),
            },
            InitPhase::UnwindRemote => InitAction::DeleteRemoteRepository {
                organization: self.organization.clone(),
                name: self.names[self.rollback_pos].clone(),
            },
            InitPhase::Finished => InitAction::Finished,
            InitPhase::Aborted => InitAction::Aborted,
        }
    }

    /// Whether the current directory's key is already staged (the same
    /// directory was requested twice in one transaction).
    fn key_already_staged(&self) -> (r: bool)
        requires
            self.wf(),
            self.phase is CreateRemote,
        ensures
            r == exists|t: int|
                0 <= t < self.staged@.len() && (#[trigger] self.staged@[t]).repository_key@
                    == self.keys@[self.pos as int]@,
    {
        let m = self.staged.len();
        let mut i: usize = 0;
        while i < m
            invariant
                m == self.staged@.len(),
                self.wf(),
                self.phase is CreateRemote,
                i <= m,
                forall|t: int|
                    0 <= t < i ==> (#[trigger] self.staged@[t]).repository_key@
                        != self.keys@[self.pos as int]@,
            decreases m - i,
        {
            if str_eq(
                self.staged[i].repository_key.as_str(),
                self.keys[self.pos].as_str(),
            ) {
                return true;
            }
            i += 1;
        }
        false
    }

    /// Start compensating: with completed directories in atomic mode,
    /// unwind them in strictly decreasing order; otherwise abort.
    fn begin_unwind_or_abort(&mut self)
        requires
            old(self).plan_ok(),
            old(self).failure is Some,
        ensures
            final(self).wf(),
            old(self).atomic && old(self).staged@.len() > 0 ==> ({
                let last = old(self).staged@.len() - 1;
                &&& final(self).rollback_pos == last
                &&& (final(self).phase is UnwindDir <==> !old(self).pre_existing@[last])
                &&& (final(self).phase is UnwindRemote <==> old(self).pre_existing@[last])
            }),
            !(old(self).atomic && old(self).staged@.len() > 0) ==> final(self).phase is Aborted,
            final(self).parent_dir == old(self).parent_dir,
            final(self).remote_url == old(self).remote_url,
            final(self).organization == old(self).organization,
            final(self).git_user == old(self).git_user,
            final(self).atomic == old(self).atomic,
            final(self).directories == old(self).directories,
            final(self).keys == old(self).keys,
            final(self).names == old(self).names,
            final(self).pre_existing == old(self).pre_existing,
            final(self).staged == old(self).staged,
            final(self).failure == old(self).failure,
            final(self).pos == old(self).pos,
            final(self).phase is UnwindDir || final(self).phase is UnwindRemote
                || final(self).phase is Aborted,
    {
        if self.atomic && self.staged.len() > 0 {
            self.rollback_pos = self.staged.len() - 1;
            if !self.pre_existing[self.rollback_pos] {
                self.phase = InitPhase::UnwindDir;
            } else {
                self.phase = InitPhase::UnwindRemote;
            }
        } else {
            self.phase = InitPhase::Aborted;
        }
    }

    /// The remote repository of the current directory exists; attach the
    /// local repository to it and stage the registration.  On a local
    /// failure — or a duplicate key within this transaction — compensate
    /// for the directory and its freshly created remote.
    fn attach_current(&mut self, created_url: String)
        requires
            old(self).wf(),
            old(self).phase is CreateRemote,
        ensures
            final(self).wf(),
            final(self).parent_dir == old(self).parent_dir,
            final(self).remote_url == old(self).remote_url,
            final(self).organization == old(self).organization,
            final(self).git_user == old(self).git_user,
            final(self).atomic == old(self).atomic,
            final(self).directories == old(self).directories,
            final(self).keys == old(self).keys,
            final(self).names == old(self).names,
            final(self).pre_existing == old(self).pre_existing,
            old(self).staged@.is_prefix_of(final(self).staged@),
            !(final(self).phase is Aborted),
            (final(self).working() || final(self).phase is Finished) ==> final(self).staged@.len()
                == old(self).staged@.len() + 1 && final(self).pos == old(self).pos + 1,
            final(self).phase is Finished ==> final(self).pos == old(self).directories@.len(),
            final(self).compensating() ==> final(self).staged == old(self).staged
                && final(self).pos == old(self).pos,
    {
        let dir_path = join_path(self.parent_dir.as_str(), self.directories[self.pos].as_str());
        let mut ok = true;
        let mut message = String::new();
        if !GitOperations::is_git_initialized(dir_path.as_str()) {
            match GitOperations::init_repository(dir_path.as_str()) {
                Ok(()) => {}
                Err(m) => {
                    ok = false;
                    message = m;
                }
            }
        }
        if ok {
            match GitOperations::has_remote_origin(dir_path.as_str()) {
                Ok(true) => {}
                Ok(false) => {
                    match GitOperations::set_remote_origin(
                        dir_path.as_str(),
                        created_url.as_str(),
                    ) {
                        Ok(()) => {}
                        Err(m) => {
                            ok = false;
                            message = m;
                        }
                    }
                }
                Err(m) => {
                    ok = false;
                    message = m;
                }
            }
        }
        if ok && self.key_already_staged() {
            ok = false;
            message = String::from_str("duplicate repository key in this transaction");
        }
        if !ok {
            self.failure = Some(message);
            self.cleanup_remote = true;
            if !self.pre_existing[self.pos] {
                self.phase = InitPhase::CleanupDir;
            } else {
                self.phase = InitPhase::CleanupRemote;
            }
            return;
        }
        let registration = ProjectRegistration {
            repository_key: self.keys[self.pos].clone(),
            repository_name: self.names[self.pos].clone(),
            git_user: self.git_user.clone(),
            project_git_path: self.remote_url.clone(),
            project_disk_path: self.parent_dir.clone(),
            hidden_directory: self.directories[self.pos].clone(),
            created_at: now_timestamp(),
        };
        self.staged.push(registration);
        let n = self.directories.len();
        self.pos = self.pos + 1;
        if self.pos == n {
            self.phase = InitPhase::Finished;
        } else {
            if !self.pre_existing[self.pos] {
                self.phase = InitPhase::CreateDir;
            } else {
                self.phase = InitPhase::WriteIgnore;
            }
        }
    }

    /// The shell performed the action of the current phase and reports the
    /// outcome; advance the transaction.  Failures of compensation steps
    /// are tolerated: whatever the outcome, the unwinding continues.
    pub fn on_event(&mut self, event: InitEvent)
        requires
            old(self).wf(),
            old(self).phase is CreateRemote ==> !(event is Succeeded),
            !(old(self).phase is CreateRemote) ==> !(event matches InitEvent::RemoteCreated {
                ..
            }),
        ensures
            final(self).wf(),
            final(self).parent_dir == old(self).parent_dir,
            final(self).remote_url == old(self).remote_url,
            final(self).organization == old(self).organization,
            final(self).git_user == old(self).git_user,
            final(self).atomic == old(self).atomic,
            final(self).directories == old(self).directories,
            final(self).keys == old(self).keys,
            final(self).names == old(self).names,
            final(self).pre_existing == old(self).pre_existing,
            old(self).phase is Finished ==> *final(self) == *old(self),
            old(self).phase is Aborted ==> *final(self) == *old(self),
            old(self).staged@.is_prefix_of(final(self).staged@),
            !(old(self).phase is CreateRemote) ==> final(self).staged == old(self).staged
                && final(self).pos == old(self).pos,
            !(old(self).phase is Finished) && (event matches InitEvent::Failed { .. }) ==> final(self).staged == old(self).staged && !(final(self).phase is Finished),
            // success transitions of the working phases
            old(self).phase is CreateDir && !(event matches InitEvent::Failed { .. })
                ==> final(self).phase is WriteIgnore,
            old(self).phase is WriteIgnore && !(event matches InitEvent::Failed { .. })
                ==> final(self).phase is CreateRemote,
            // a failure while working starts compensation or aborts; with the
            // directory created by this transaction, its removal comes first,
            // and a directory not created here is never scheduled for removal
            old(self).working() && (event matches InitEvent::Failed { .. }) ==> (final(self).compensating() || final(self).phase is Aborted) && final(self).failure is Some,
            (old(self).phase is WriteIgnore || old(self).phase is CreateRemote) && (event matches InitEvent::Failed { .. }) && !old(self).pre_existing@[old(self).pos as int]
                ==> final(self).phase is CleanupDir && !final(self).cleanup_remote,
            (old(self).phase is WriteIgnore || old(self).phase is CreateRemote) && (event matches InitEvent::Failed { .. }) && old(self).pre_existing@[old(self).pos as int]
                ==> !(final(self).phase is CleanupDir) && !(final(self).phase is CleanupRemote),
            old(self).phase is CreateDir && (event matches InitEvent::Failed { .. })
                ==> !(final(self).phase is CleanupDir) && !(final(self).phase is CleanupRemote),
            // a successful attachment advances to the next directory or finishes
            old(self).phase is CreateRemote && (event matches InitEvent::RemoteCreated { .. }) && (final(self).working() || final(self).phase is Finished)
                ==> final(self).staged@.len() == old(self).staged@.len() + 1 && final(self).pos == old(self).pos + 1,
            // compensation steps advance regardless of the reported outcome
            old(self).phase is CleanupDir && old(self).cleanup_remote ==> final(self).phase is CleanupRemote,
            (old(self).phase is CleanupDir && !old(self).cleanup_remote) || old(self).phase is CleanupRemote ==> ({
                &&& old(self).atomic && old(self).staged@.len() > 0 ==> !(final(self).phase is Aborted) && final(self).rollback_pos == old(self).staged@.len() - 1
                &&& !(old(self).atomic && old(self).staged@.len() > 0) ==> final(self).phase is Aborted
            }),
            old(self).phase is UnwindDir ==> final(self).phase is UnwindRemote
                && final(self).rollback_pos == old(self).rollback_pos,
            old(self).phase is UnwindRemote && old(self).rollback_pos == 0 ==> final(self).phase is Aborted,
            old(self).phase is UnwindRemote && old(self).rollback_pos > 0 ==> ({
                let next = old(self).rollback_pos - 1;
                &&& final(self).rollback_pos == next
                &&& (final(self).phase is UnwindDir <==> !old(self).pre_existing@[next])
                &&& (final(self).phase is UnwindRemote <==> old(self).pre_existing@[next])
            }),
    {
        match self.phase {
            InitPhase::CreateDir => match event {
                InitEvent::Failed { message } => {
                    self.failure = Some(message);
                    self.begin_unwind_or_abort();
                }
                _ => {
                    self.phase = InitPhase::WriteIgnore;
                }
            },
            InitPhase::WriteIgnore => match event {
                InitEvent::Failed { message } => {
                    self.failure = Some(message);
                    if !self.pre_existing[self.pos] {
                        self.cleanup_remote = false;
                        self.phase = InitPhase::CleanupDir;
                    } else {
                        self.begin_unwind_or_abort();
                    }
                }
                _ => {
                    self.phase = InitPhase::CreateRemote;
                }
            },
            InitPhase::CreateRemote => match event {
                InitEvent::RemoteCreated { remote_url } => {
                    self.attach_current(remote_url);
                }
                InitEvent::Failed { message } => {
                    self.failure = Some(message);
                    if !self.pre_existing[self.pos] {
                        self.cleanup_remote = false;
                        self.phase = InitPhase::CleanupDir;
                    } else {
                        self.begin_unwind_or_abort();
                    }
                }
                InitEvent::Succeeded => {}
            },
            InitPhase::CleanupDir => {
                if self.cleanup_remote {
                    self.phase = InitPhase::CleanupRemote;
                } else {
                    self.begin_unwind_or_abort();
                }
            }
            InitPhase::CleanupRemote => {
                self.begin_unwind_or_abort();
            }
            InitPhase::UnwindDir => {
                self.phase = InitPhase::UnwindRemote;
            }
            InitPhase::UnwindRemote => {
                if self.rollback_pos == 0 {
                    self.phase = InitPhase::Aborted;
                } else {
                    self.rollback_pos = self.rollback_pos - 1;
                    if !self.pre_existing[self.rollback_pos] {
                        self.phase = InitPhase::UnwindDir;
                    } else {
                        self.phase = InitPhase::UnwindRemote;
                    }
                }
            }
            InitPhase::Finished => {}
            InitPhase::Aborted => {}
        }
    }
}

impl RepositoryManager {
    /// Plan an init transaction: ensure the parent is a repository, derive
    /// one key per requested directory, and fail fast — before any
    /// mutation — when a key is already registered.  Hidden-repository
    /// work is skipped entirely under `skip_hidden`: the returned session
    /// is already finished, with nothing staged.
    pub fn init_project(
        &self,
        directories: Vec<String>,
        skip_hidden: bool,
        no_atomic: bool,
        current_dir: &str,
    ) -> (r: Result<InitSession, RepositoryError>)
        ensures
            match r {
                Ok(session) => {
                    &&& session.wf()
                    &&& session.organization == self.index_manager.remote_organization
                    &&& session.atomic == !no_atomic
                    &&& session.parent_dir@ == current_dir@
                    &&& session.staged@.len() == 0
                    &&& session.pos == 0
                    &&& session.failure is None
                    &&& (skip_hidden ==> session.directories@.len() == 0 && session.phase
                        is Finished)
                    &&& (!skip_hidden ==> session.directories@ == directories@)
                    &&& (!skip_hidden && directories@.len() == 0 ==> session.phase is Finished)
                    &&& (!skip_hidden && directories@.len() > 0 ==> ({
                        // the walk starts with directory creation, or with the
                        // gitignore write when the directory already exists —
                        // never further in
                        &&& (session.phase is CreateDir <==> !session.pre_existing@[0])
                        &&& (session.phase is WriteIgnore <==> session.pre_existing@[0])
                    }))
                    &&& (forall|t: int|
                        0 <= t < session.keys@.len()
                            ==> !self.index_manager.index_data.contains_key(
                            (#[trigger] session.keys@[t])@,
                        ))
                },
                Err(e) => {
                    &&& (e matches RepositoryError::ProjectAlreadyExists(k)
                        ==> self.index_manager.index_data.contains_key(k@))
                    &&& (e is ProjectAlreadyExists || e is GitError || e is InvalidRemoteUrl)
                },
            },
    {
        if !GitOperations::is_git_initialized(current_dir) {
            match GitOperations::init_repository(current_dir) {
                Ok(()) => {}
                Err(message) => {
                    return Err(RepositoryError::GitError { message });
                }
            }
        }
        let remote_url = GitOperations::get_remote_origin(current_dir)?;
        let n = directories.len();
        let mut keys: Vec<String> = Vec::new();
        let mut names: Vec<String> = Vec::new();
        let mut pre: Vec<bool> = Vec::new();
        let mut i: usize = 0;
        while i < n
            invariant
                n == directories@.len(),
                i <= n,
                keys@.len() == i,
                names@.len() == i,
                pre@.len() == i,
                forall|t: int|
                    0 <= t < i ==> (#[trigger] keys@[t])@ == repository_key_of(
                        remote_url@,
                        Some(directories@[t]@),
                    ),
                forall|t: int| 0 <= t < i ==> (#[trigger] names@[t])@ == md5_hex_of(keys@[t]@),
            decreases n - i,
        {
            let key = match GitOperations::generate_repository_key(
                remote_url.as_str(),
                Some(directories[i].as_str()),
            ) {
                Ok(k) => k,
                Err(_) => {
                    return Err(RepositoryError::InvalidRemoteUrl);
                }
            };
            let name = hidden_repository_name(key.as_str());
            let dir_path = join_path(current_dir, directories[i].as_str());
            pre.push(GitOperations::path_exists(dir_path.as_str()));
            keys.push(key);
            names.push(name);
            i += 1;
        }
        let mut i: usize = 0;
        while i < n
            invariant
                n == directories@.len(),
                n == keys@.len(),
                i <= n,
                forall|t: int|
                    0 <= t < i ==> !self.index_manager.index_data.contains_key(
                        (#[trigger] keys@[t])@,
                    ),
            decreases n - i,
        {
            if self.index_manager.project_exists(keys[i].as_str()) {
                return Err(RepositoryError::ProjectAlreadyExists(keys[i].clone()));
            }
            i += 1;
        }
        let git_user = GitOperations::get_git_user(current_dir)?;
        if skip_hidden {
            return Ok(
                InitSession {
                    parent_dir: current_dir.to_owned(),
                    remote_url,
                    organization: self.index_manager.get_organization().clone(),
                    git_user,
                    atomic: !no_atomic,
                    directories: Vec::new(),
                    keys: Vec::new(),
                    names: Vec::new(),
                    pre_existing: Vec::new(),
                    staged: Vec::new(),
                    pos: 0,
                    phase: InitPhase::Finished,
                    cleanup_remote: false,
                    rollback_pos: 0,
                    failure: None,
                },
            );
        }
        let first_phase = if n == 0 {
            InitPhase::Finished
        } else if !pre[0] {
            InitPhase::CreateDir
        } else {
            InitPhase::WriteIgnore
        };
        Ok(
            InitSession {
                parent_dir: current_dir.to_owned(),
                remote_url,
                organization: self.index_manager.get_organization().clone(),
                git_user,
                atomic: !no_atomic,
                directories,
                keys,
                names,
                pre_existing: pre,
                staged: Vec::new(),
                pos: 0,
                phase: first_phase,
                cleanup_remote: false,
                rollback_pos: 0,
                failure: None,
            },
        )
    }

    /// Apply a finished init transaction: register every staged
    /// registration, in order.  A key registered meanwhile surfaces as the
    /// index's duplicate error; with no staged key already present —
    /// exactly what the planning check established — success is owed.
    pub fn finish_init(&mut self, session: InitSession) -> (r: Result<(), RepositoryError>)
        requires
            old(self).index_manager.index_data.keys_unique(),
            session.phase is Finished,
            session.wf(),
        ensures
            final(self).index_manager.index_data.keys_unique(),
            final(self).index_manager.remote_organization
                == old(self).index_manager.remote_organization,
            final(self).config == old(self).config,
            final(self).github_client == old(self).github_client,
            (forall|t: int|
                0 <= t < session.staged@.len() ==> !old(self).index_manager.index_data.contains_key(
                    (#[trigger] session.staged@[t]).repository_key@,
                )) ==> r is Ok,
            match r {
                Ok(_) => final(self).index_manager.index_data.projects@
                    == old(self).index_manager.index_data.projects@ + session.staged@,
                Err(e) => e matches RepositoryError::IndexError(ie) && ie
                    matches IndexError::ProjectAlreadyExists(_),
            },
    {
        let m = session.staged.len();
        let mut i: usize = 0;
        proof {
            assert(old(self).index_manager.index_data.projects@ + session.staged@.take(0)
                =~= old(self).index_manager.index_data.projects@);
        }
        while i < m
            invariant
                m == session.staged@.len(),
                i <= m,
                session.wf(),
                self.index_manager.index_data.keys_unique(),
                self.index_manager.remote_organization
                    == old(self).index_manager.remote_organization,
                self.config == old(self).config,
                self.github_client == old(self).github_client,
                self.index_manager.index_data.projects@
                    == old(self).index_manager.index_data.projects@ + session.staged@.take(i as int),
            decreases m - i,
        {
            let reg = session.staged[i].duplicate();
            match self.index_manager.register_project(reg) {
                Ok(()) => {
                    proof {
                        assert(session.staged@.take(i + 1) =~= session.staged@.take(i as int).push(
                            session.staged@[i as int],
                        ));
                        assert(self.index_manager.index_data.projects@
                            =~= old(self).index_manager.index_data.projects@ + session.staged@.take(i + 1));
                    }
                }
                Err(e) => {
                    proof {
                        // the duplicate key is one of the old index's: it
                        // cannot be an earlier staged one, whose keys are
                        // pairwise distinct
                        let oldproj = old(self).index_manager.index_data.projects@;
                        let cur = oldproj + session.staged@.take(i as int);
                        let key = session.staged@[i as int].repository_key@;
                        assert(self.index_manager.index_data.projects@ == cur);
                        let j = choose|j: int|
                            0 <= j < cur.len() && (#[trigger] cur[j]).repository_key@ == key;
                        if j < oldproj.len() {
                            assert(oldproj[j].repository_key@ == key);
                            assert(old(self).index_manager.index_data.contains_key(key));
                        } else {
                            let t2 = j - oldproj.len();
                            assert(0 <= t2 < i);
                            assert(cur[j] == session.staged@.take(i as int)[t2]);
                            assert(session.staged@.take(i as int)[t2] == session.staged@[t2]);
                            assert(session.staged@[t2].repository_key@ == key);
                            assert(session.staged@[i as int].repository_key@ == key);
                            assert(session.plan_ok());
                            assert(session.staged@[t2].repository_key@
                                != session.staged@[i as int].repository_key@);
                            assert(false);
                        }
                    }
                    return Err(RepositoryError::IndexError(e));
                }
            }
            i += 1;
        }
        proof {
            assert(session.staged@.take(m as int) =~= session.staged@);
        }
        Ok(())
    }
}

} // verus!
