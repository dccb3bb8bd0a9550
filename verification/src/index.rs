//! The project index: a registry, replicated as a git-tracked document,
//! mapping each repository key to the registration of the hidden
//! repository that backs it.
//!
//! The document itself is read and written by the unverified shell; this
//! module owns the mapping, its insert-once rule and its prefix lookup,
//! and the git-side replication steps.

use vstd::prelude::*;

use crate::config::ConfigManager;
use crate::error::IndexError;
use crate::git_operations::GitOperations;
use crate::github::hosted_repository_url;
use crate::strutil::{is_prefix_of, join_path, starts_with_str, str_eq};

verus! {

/// One registered hidden repository.  Created exactly once per (parent,
/// hidden directory); immutable thereafter.
pub struct ProjectRegistration {
    pub repository_key: String,
    pub repository_name: String,
    pub git_user: String,
    pub project_git_path: String,
    pub project_disk_path: String,
    pub hidden_directory: String,
    pub created_at: String,
}

impl ProjectRegistration {
    /// A field-for-field copy.
    pub fn duplicate(&self) -> (r: Self)
        ensures
            r == *self,
    {
        ProjectRegistration {
            repository_key: self.repository_key.clone(),
            repository_name: self.repository_name.clone(),
            git_user: self.git_user.clone(),
            project_git_path: self.project_git_path.clone(),
            project_disk_path: self.project_disk_path.clone(),
            hidden_directory: self.hidden_directory.clone(),
            created_at: self.created_at.clone(),
        }
    }
}

/// The registry document: registrations with pairwise distinct keys.
pub struct IndexData {
    pub projects: Vec<ProjectRegistration>,
}

impl IndexData {
    /// Keys are pairwise distinct.
    pub open spec fn keys_unique(&self) -> bool {
        forall|i: int, j: int|
            0 <= i < j < self.projects@.len() ==> self.projects@[i].repository_key@
                != self.projects@[j].repository_key@
    }

    /// Some registration carries key `k`.
    pub open spec fn contains_key(&self, k: Seq<char>) -> bool {
        exists|i: int| 0 <= i < self.projects@.len() && self.projects@[i].repository_key@ == k
    }
}

impl Default for IndexData {
    /// An empty registry.
    fn default() -> (r: Self)
        ensures
            r.projects@.len() == 0,
            r.keys_unique(),
    {
        IndexData { projects: Vec::new() }
    }
}

/// Owner of the loaded registry and of its replication to the remote
/// index repository of one organization.
pub struct IndexManager {
    pub remote_organization: String,
    pub index_data: IndexData,
}

impl IndexManager {
    /// Wrap a loaded registry for the configured default organization;
    /// refused when no default organization is configured.
    pub fn new(config: &ConfigManager, initial: IndexData) -> (r: Result<Self, IndexError>)
        requires
            initial.keys_unique(),
        ensures
            match r {
                Ok(m) => {
                    &&& config.config.default_organization matches Some(org)
                        && m.remote_organization == org
                    &&& m.index_data == initial
                },
                Err(e) => e is NoDefaultOrganization && config.config.default_organization
                    is None,
            },
    {
        match config.get_default_organization() {
            Some(org) => Ok(
                IndexManager { remote_organization: org.clone(), index_data: initial },
            ),
            None => Err(IndexError::NoDefaultOrganization),
        }
    }

    /// The organization whose index repository backs this registry.
    pub fn get_organization(&self) -> (r: &String)
        ensures
            *r == self.remote_organization,
    {
        &self.remote_organization
    }

    /// Whether a registration with `repository_key` is present.
    pub fn project_exists(&self, repository_key: &str) -> (r: bool)
        ensures
            r == self.index_data.contains_key(repository_key@),
    {
        let n = self.index_data.projects.len();
        let mut i: usize = 0;
        while i < n
            invariant
                n == self.index_data.projects@.len(),
                i <= n,
                forall|j: int|
                    0 <= j < i ==> self.index_data.projects@[j].repository_key@
                        != repository_key@,
            decreases n - i,
        {
            if str_eq(self.index_data.projects[i].repository_key.as_str(), repository_key) {
                return true;
            }
            i += 1;
        }
        false
    }

    /// Insert `registration` once: refused with `ProjectAlreadyExists`, the
    /// registry unchanged, when its key is already present.  The caller
    /// persists and replicates the updated document.
    pub fn register_project(&mut self, registration: ProjectRegistration) -> (r: Result<
        (),
        IndexError,
    >)
        requires
            old(self).index_data.keys_unique(),
        ensures
            final(self).remote_organization == old(self).remote_organization,
            final(self).index_data.keys_unique(),
            match r {
                Ok(_) => !old(self).index_data.contains_key(registration.repository_key@)
                    && final(self).index_data.projects@ == old(self).index_data.projects@.push(
                    registration,
                ),
                Err(e) => {
                    &&& e matches IndexError::ProjectAlreadyExists(k) && k@
                        == registration.repository_key@
                    &&& old(self).index_data.contains_key(registration.repository_key@)
                    &&& *final(self) == *old(self)
                },
            },
    {
        if self.project_exists(registration.repository_key.as_str()) {
            return Err(IndexError::ProjectAlreadyExists(registration.repository_key));
        }
        self.index_data.projects.push(registration);
        Ok(())
    }

    /// Exactly the registrations whose key starts with `base_key`, in
    /// registry order.
    pub fn find_projects_by_base_key(&self, base_key: &str) -> (r: Vec<ProjectRegistration>)
        ensures
            r@ == self.index_data.projects@.filter(
                |p: ProjectRegistration| is_prefix_of(base_key@, p.repository_key@),
            ),
    {
        let n = self.index_data.projects.len();
        let mut found: Vec<ProjectRegistration> = Vec::new();
        let mut i: usize = 0;
        proof {
            reveal(Seq::filter);
            assert(self.index_data.projects@.take(0) =~= Seq::<ProjectRegistration>::empty());
        }
        while i < n
            invariant
                n == self.index_data.projects@.len(),
                i <= n,
                found@ == self.index_data.projects@.take(i as int).filter(
                    |p: ProjectRegistration| is_prefix_of(base_key@, p.repository_key@),
                ),
            decreases n - i,
        {
            proof {
                reveal(Seq::filter);
                let all = self.index_data.projects@;
                assert(all.take(i + 1).drop_last() =~= all.take(i as int));
                assert(all.take(i + 1).last() == all[i as int]);
            }
            let p = &self.index_data.projects[i];
            if starts_with_str(p.repository_key.as_str(), base_key) {
                found.push(p.duplicate());
            }
            i += 1;
        }
        proof {
            assert(self.index_data.projects@.take(n as int) =~= self.index_data.projects@);
        }
        found
    }

    /// The clone URL of this organization's index repository.
    pub fn index_clone_url(&self) -> (r: String)
        ensures
            r@ == "git@github.com:"@ + self.remote_organization@ + "/"@ + ".index"@ + ".git"@,
    {
        hosted_repository_url(self.remote_organization.as_str(), ".index")
    }

    /// Prepare a freshly created local index directory: initialize its
    /// repository and point `origin` at the organization's index
    /// repository (a failure to set the remote is tolerated, as a later
    /// push surfaces it).
    pub fn attach_local_index(&self, local_index_path: &str) -> (r: Result<(), IndexError>)
        ensures
            r is Err ==> r->Err_0 is IoError,
    {
        match GitOperations::init_repository(local_index_path) {
            Ok(()) => {}
            Err(message) => {
                return Err(IndexError::IoError { message });
            }
        }
        let url = self.index_clone_url();
        let _ = GitOperations::set_remote_origin(local_index_path, url.as_str());
        Ok(())
    }

    /// Record a freshly written index document in the local repository:
    /// stage and commit it; failures are tolerated (the document stands on
    /// disk and is committed by a later write).
    pub fn commit_index_document(&self, local_index_path: &str, message: &str) -> (r: Result<
        (),
        IndexError,
    >)
        ensures
            r is Ok,
    {
        let _ = GitOperations::stage_file(local_index_path, "index.json");
        let _ = GitOperations::commit(local_index_path, message);
        Ok(())
    }

    /// Replicate the written index document: stage, commit, and push it to
    /// branch `main`, then `master` when `main` is refused; when both
    /// pushes fail the local commit still stands (eventually consistent on
    /// a later successful push), so the call succeeds either way.
    pub fn save_and_push_index(&self, local_index_path: &str) -> (r: Result<(), IndexError>)
        ensures
            r is Ok,
    {
        let _ = GitOperations::stage_file(local_index_path, "index.json");
        let _ = GitOperations::commit(local_index_path, "Update index");
        match GitOperations::push_branch(local_index_path, "main") {
            Ok(()) => Ok(()),
            Err(_) => {
                let _ = GitOperations::push_branch(local_index_path, "master");
                Ok(())
            }
        }
    }

    /// The on-disk location of the local index replica under `home`.
    pub fn local_index_path(home: &str) -> (r: String)
        ensures
            r@ == home@ + "/"@ + ".dot"@ + "/"@ + ".index"@,
    {
        let base = join_path(home, ".dot");
        join_path(base.as_str(), ".index")
    }
}

/// States of the index-repository construction ladder.  The shell performs
/// the action each non-final state names and reports its outcome.
#[derive(Debug, Clone, Copy, PartialEq, Eq, Structural)]
pub enum IndexSetupState {
    /// A local replica exists: refresh it from the remote, best effort.
    RefreshLocal,
    /// No local replica: clone the organization's index repository.
    CloneRemote,
    /// The clone failed (the remote may not exist): create a fresh local
    /// directory with an empty document and a configured remote pointer.
    CreateLocal,
    /// Read the local document (an absent file counts as an empty one).
    LoadDocument,
    /// The registry is available.
    Ready,
    /// Construction failed.
    Failed,
}

/// One step of the ladder: `RefreshLocal` tolerates failure and always
/// proceeds to the load; a failed clone falls back to local creation;
/// failures of creation or of the load are fatal.
pub open spec fn index_setup_step(s: IndexSetupState, succeeded: bool) -> IndexSetupState {
    match s {
        IndexSetupState::RefreshLocal => IndexSetupState::LoadDocument,
        IndexSetupState::CloneRemote => if succeeded {
            IndexSetupState::LoadDocument
        } else {
            IndexSetupState::CreateLocal
        },
        IndexSetupState::CreateLocal => if succeeded {
            IndexSetupState::LoadDocument
        } else {
            IndexSetupState::Failed
        },
        IndexSetupState::LoadDocument => if succeeded {
            IndexSetupState::Ready
        } else {
            IndexSetupState::Failed
        },
        IndexSetupState::Ready => IndexSetupState::Ready,
        IndexSetupState::Failed => IndexSetupState::Failed,
    }
}

/// Driver of the construction ladder.
pub struct IndexSetup {
    pub state: IndexSetupState,
}

impl IndexSetup {
    /// Start the ladder: refresh when a local replica exists, else clone.
    pub fn start(local_exists: bool) -> (r: Self)
        ensures
            r.state == if local_exists {
                IndexSetupState::RefreshLocal
            } else {
                IndexSetupState::CloneRemote
            },
    {
        if local_exists {
            IndexSetup { state: IndexSetupState::RefreshLocal }
        } else {
            IndexSetup { state: IndexSetupState::CloneRemote }
        }
    }

    /// The shell performed the action of the current state; advance.
    pub fn on_result(&mut self, succeeded: bool)
        ensures
            final(self).state == index_setup_step(old(self).state, succeeded),
    {
        self.state = match self.state {
            IndexSetupState::RefreshLocal => IndexSetupState::LoadDocument,
            IndexSetupState::CloneRemote => if succeeded {
                IndexSetupState::LoadDocument
            } else {
                IndexSetupState::CreateLocal
            },
            IndexSetupState::CreateLocal => if succeeded {
                IndexSetupState::LoadDocument
            } else {
                IndexSetupState::Failed
            },
            IndexSetupState::LoadDocument => if succeeded {
                IndexSetupState::Ready
            } else {
                IndexSetupState::Failed
            },
            IndexSetupState::Ready => IndexSetupState::Ready,
            IndexSetupState::Failed => IndexSetupState::Failed,
        };
    }
}

} // verus!
