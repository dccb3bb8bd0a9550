//! The atomic transaction engine and its operation variants.
//!
//! An ordered list of repository operations runs either atomically — stop
//! at the first failure, roll the completed prefix back in reverse, report
//! a structured failure — or best-effort: run everything, tolerate
//! failures, succeed.  Every run is recorded in a journal, one event per
//! execution or rollback, and the engine's contract pins the journal's
//! shape down for both modes.

use vstd::prelude::*;
use vstd::string::StringExecFns;

use crate::error::OperationError;
use crate::git_operations::GitOperations;
use crate::strutil::{
    is_subsequence_of, join_path, lemma_subsequence_extend_right, lemma_subsequence_push_both,
    str_eq,
};

verus! {

/// Some element of `files` has exactly the characters `s`.
pub open spec fn names_contain(files: Seq<String>, s: Seq<char>) -> bool {
    exists|j: int| 0 <= j < files.len() && (#[trigger] files[j])@ == s
}

/// Stage the given files (or everything, for a literal `.`) in one
/// repository; remembers what it staged for rollback.
pub struct AddOperation {
    pub repository_path: String,
    pub files: Vec<String>,
    pub staged_files: Vec<String>,
}

/// What a successful staging run records: with a literal `.` among the
/// requested files, exactly one `.` entry is appended; otherwise the
/// appended entries are an in-order subsequence of the requested files
/// (the ones present on disk, in request order — never duplicated or
/// reordered).
pub open spec fn add_execute_ok(pre: AddOperation, post: AddOperation) -> bool {
    &&& pre.staged_files@.is_prefix_of(post.staged_files@)
    &&& ({
        let app = post.staged_files@.skip(pre.staged_files@.len() as int);
        &&& (names_contain(pre.files@, "."@) ==> app.len() == 1 && app[0]@ == "."@)
        &&& (!names_contain(pre.files@, "."@) ==> is_subsequence_of(app, pre.files@))
    })
}

impl AddOperation {
    pub fn new(repository_path: String, files: Vec<String>) -> (r: Self)
        ensures
            r.repository_path == repository_path,
            r.files == files,
            r.staged_files@.len() == 0,
    {
        AddOperation { repository_path, files, staged_files: Vec::new() }
    }

    /// A literal `.` entry stages everything and short-circuits the
    /// remaining per-file checks; otherwise exactly the files that exist
    /// on disk are staged, nonexistent ones silently skipped.
    fn execute(&mut self) -> (r: Result<(), OperationError>)
        ensures
            final(self).repository_path == old(self).repository_path,
            final(self).files == old(self).files,
            r is Err ==> *final(self) == *old(self) && r->Err_0 is GitError,
            r is Ok ==> add_execute_ok(*old(self), *final(self)),
    {
        let n = self.files.len();
        let mut files_to_add: Vec<String> = Vec::new();
        let mut i: usize = 0;
        proof {
            assert(self.files@.take(0) =~= Seq::<String>::empty());
        }
        while i < n
            invariant
                n == self.files@.len(),
                i <= n,
                *self == *old(self),
                forall|j: int| 0 <= j < i ==> (#[trigger] self.files@[j])@ != "."@,
                is_subsequence_of(files_to_add@, self.files@.take(i as int)),
            decreases n - i,
        {
            proof {
                assert(self.files@.take(i + 1) =~= self.files@.take(i as int).push(
                    self.files@[i as int],
                ));
            }
            if str_eq(self.files[i].as_str(), ".") {
                match GitOperations::add_all(self.repository_path.as_str()) {
                    Ok(()) => {
                        self.staged_files.push(String::from_str("."));
                        proof {
                            let app = self.staged_files@.skip(
                                old(self).staged_files@.len() as int,
                            );
                            assert(old(self).staged_files@.is_prefix_of(self.staged_files@));
                            assert(app.len() == 1);
                            assert(app[0]@ == "."@);
                            assert((old(self).files@[i as int])@ == "."@);
                            assert(names_contain(old(self).files@, "."@));
                        }
                        return Ok(());
                    }
                    Err(message) => {
                        return Err(OperationError::GitError { message });
                    }
                }
            } else {
                let full = join_path(self.repository_path.as_str(), self.files[i].as_str());
                if GitOperations::path_exists(full.as_str()) {
                    proof {
                        lemma_subsequence_push_both(
                            files_to_add@,
                            self.files@.take(i as int),
                            self.files@[i as int],
                        );
                    }
                    files_to_add.push(self.files[i].clone());
                    proof {
                        assert(files_to_add@ =~= files_to_add@.drop_last().push(
                            self.files@[i as int],
                        ));
                    }
                } else {
                    proof {
                        lemma_subsequence_extend_right(
                            files_to_add@,
                            self.files@.take(i as int),
                            self.files@[i as int],
                        );
                    }
                }
            }
            i += 1;
        }
        proof {
            assert(self.files@.take(n as int) =~= self.files@);
            assert(!names_contain(self.files@, "."@)) by {
                if names_contain(self.files@, "."@) {
                    let j = choose|j: int|
                        0 <= j < self.files@.len() && (#[trigger] self.files@[j])@ == "."@;
                    assert((self.files@[j])@ != "."@);
                }
            }
        }
        let m = files_to_add.len();
        if m > 0 {
            let mut k: usize = 0;
            while k < m
                invariant
                    m == files_to_add@.len(),
                    k <= m,
                    *self == *old(self),
                decreases m - k,
            {
                match GitOperations::stage_file(
                    self.repository_path.as_str(),
                    files_to_add[k].as_str(),
                ) {
                    Ok(()) => {}
                    Err(message) => {
                        return Err(OperationError::GitError { message });
                    }
                }
                k += 1;
            }
            let mut k: usize = 0;
            while k < m
                invariant
                    m == files_to_add@.len(),
                    k <= m,
                    self.repository_path == old(self).repository_path,
                    self.files == old(self).files,
                    self.staged_files@ == old(self).staged_files@ + files_to_add@.take(k as int),
                    is_subsequence_of(files_to_add@, self.files@),
                    !names_contain(self.files@, "."@),
                decreases m - k,
            {
                proof {
                    assert(files_to_add@.take(k + 1) =~= files_to_add@.take(k as int).push(
                        files_to_add@[k as int],
                    ));
                }
                self.staged_files.push(files_to_add[k].clone());
                proof {
                    assert(self.staged_files@ =~= old(self).staged_files@ + files_to_add@.take(
                        k + 1,
                    ));
                }
                k += 1;
            }
            proof {
                assert(files_to_add@.take(m as int) =~= files_to_add@);
                assert(old(self).staged_files@.is_prefix_of(self.staged_files@));
                let app = self.staged_files@.skip(old(self).staged_files@.len() as int);
                assert(app =~= files_to_add@);
            }
        } else {
            proof {
                assert(self.staged_files@ =~= old(self).staged_files@ + self.staged_files@.skip(
                    old(self).staged_files@.len() as int,
                ));
                let app = self.staged_files@.skip(old(self).staged_files@.len() as int);
                assert(app.len() == 0);
            }
        }
        Ok(())
    }

    /// Reset the index to the tip commit's tree; with nothing staged, or
    /// no commit yet, a no-op success.
    fn rollback(&self) -> (r: Result<(), OperationError>)
        ensures
            self.staged_files@.len() == 0 ==> r is Ok,
            r is Err ==> r->Err_0 is GitError,
    {
        if self.staged_files.len() == 0 {
            return Ok(());
        }
        match GitOperations::head_commit_id(self.repository_path.as_str()) {
            Ok(Some(id)) => {
                match GitOperations::reset_index_to_commit_tree(
                    self.repository_path.as_str(),
                    id.as_str(),
                ) {
                    Ok(()) => Ok(()),
                    Err(message) => Err(OperationError::GitError { message }),
                }
            }
            Ok(None) => Ok(()),
            Err(message) => Err(OperationError::GitError { message }),
        }
    }
}

/// Commit the staged tree of one repository; remembers the commit id for
/// rollback.
pub struct CommitOperation {
    pub repository_path: String,
    pub message: String,
    pub commit_id: Option<String>,
}

impl CommitOperation {
    pub fn new(repository_path: String, message: String) -> (r: Self)
        ensures
            r.repository_path == repository_path,
            r.message == message,
            r.commit_id is None,
    {
        CommitOperation { repository_path, message, commit_id: None }
    }

    fn execute(&mut self) -> (r: Result<(), OperationError>)
        ensures
            final(self).repository_path == old(self).repository_path,
            final(self).message == old(self).message,
            r is Ok ==> final(self).commit_id is Some,
            r is Err ==> *final(self) == *old(self) && r->Err_0 is GitError,
    {
        match GitOperations::commit(self.repository_path.as_str(), self.message.as_str()) {
            Ok(id) => {
                self.commit_id = Some(id);
                Ok(())
            }
            Err(e) => match e {
                crate::error::RepositoryError::GitError { message } => Err(
                    OperationError::GitError { message },
                ),
                _ => vstd::pervasive::unreached(),
            },
        }
    }

    /// Hard-reset to the committed revision's first parent, or to an empty
    /// tree when the commit had no parent; with no recorded commit, a
    /// no-op success.
    fn rollback(&self) -> (r: Result<(), OperationError>)
        ensures
            self.commit_id is None ==> r is Ok,
            r is Err ==> r->Err_0 is GitError,
    {
        match &self.commit_id {
            None => Ok(()),
            Some(id) => {
                match GitOperations::first_parent_id(self.repository_path.as_str(), id.as_str()) {
                    Ok(Some(parent)) => {
                        match GitOperations::hard_reset_to_commit(
                            self.repository_path.as_str(),
                            parent.as_str(),
                        ) {
                            Ok(()) => Ok(()),
                            Err(message) => Err(OperationError::GitError { message }),
                        }
                    }
                    Ok(None) => {
                        match GitOperations::hard_reset_to_empty_tree(
                            self.repository_path.as_str(),
                        ) {
                            Ok(()) => Ok(()),
                            Err(message) => Err(OperationError::GitError { message }),
                        }
                    }
                    Err(message) => Err(OperationError::GitError { message }),
                }
            }
        }
    }
}

/// Push one repository to its remote; remembers whether a push occurred.
pub struct PushOperation {
    pub repository_path: String,
    pub pushed: bool,
}

impl PushOperation {
    pub fn new(repository_path: String) -> (r: Self)
        ensures
            r.repository_path == repository_path,
            r.pushed == false,
    {
        PushOperation { repository_path, pushed: false }
    }

    fn execute(&mut self) -> (r: Result<(), OperationError>)
        ensures
            final(self).repository_path == old(self).repository_path,
            r is Ok ==> final(self).pushed,
            r is Err ==> *final(self) == *old(self) && r->Err_0 is GitError,
    {
        match GitOperations::push(self.repository_path.as_str()) {
            Ok(()) => {
                self.pushed = true;
                Ok(())
            }
            Err(e) => match e {
                crate::error::RepositoryError::GitError { message } => Err(
                    OperationError::GitError { message },
                ),
                _ => vstd::pervasive::unreached(),
            },
        }
    }

    /// Rollback of a performed push is unsupported by design: no automatic
    /// force-push against a shared remote.  Without a push, a no-op
    /// success.
    fn rollback(&self) -> (r: Result<(), OperationError>)
        ensures
            self.pushed ==> (r matches Err(OperationError::RollbackFailed { message }) && message@
                == "Cannot rollback push operation automatically"@),
            !self.pushed ==> r is Ok,
    {
        if self.pushed {
            Err(
                OperationError::RollbackFailed {
                    message: String::from_str("Cannot rollback push operation automatically"),
                },
            )
        } else {
            Ok(())
        }
    }
}

/// The closed set of repository operations a transaction can hold.
pub enum Operation {
    Add(AddOperation),
    Commit(CommitOperation),
    Push(PushOperation),
}

/// The human-readable description of an operation; a function of its kind
/// and target path alone.
pub open spec fn description_of(op: Operation) -> Seq<char> {
    match op {
        Operation::Add(a) => "Add files to "@ + a.repository_path@,
        Operation::Commit(c) => "Commit to "@ + c.repository_path@,
        Operation::Push(p) => "Push "@ + p.repository_path@,
    }
}

impl Operation {
    /// Run the operation against its repository.  Failure leaves the
    /// operation's recorded state untouched; success records what each
    /// variant's rollback later reads.
    pub fn execute(&mut self) -> (r: Result<(), OperationError>)
        ensures
            description_of(*final(self)) == description_of(*old(self)),
            r is Err ==> r->Err_0 is GitError,
            *old(self) matches Operation::Add(pre) ==> (*final(self) matches Operation::Add(post)
                && post.repository_path == pre.repository_path && post.files == pre.files && (r
                is Ok ==> add_execute_ok(pre, post)) && (r is Err ==> post == pre)),
            *old(self) matches Operation::Commit(pre) ==> (*final(self) matches Operation::Commit(
                post,
            ) && post.repository_path == pre.repository_path && post.message == pre.message && (r
                is Ok ==> post.commit_id is Some) && (r is Err ==> post == pre)),
            *old(self) matches Operation::Push(pre) ==> (*final(self) matches Operation::Push(post)
                && post.repository_path == pre.repository_path && (r is Ok ==> post.pushed) && (r
                is Err ==> post == pre)),
    {
        match self {
            Operation::Add(op) => op.execute(),
            Operation::Commit(op) => op.execute(),
            Operation::Push(op) => op.execute(),
        }
    }

    /// Undo the operation's recorded effect, as far as its kind supports:
    /// a performed push is never rolled back; an operation that recorded
    /// nothing is a no-op success.
    pub fn rollback(&self) -> (r: Result<(), OperationError>)
        ensures
            r is Err ==> r->Err_0 is GitError || r->Err_0 is RollbackFailed,
            *self matches Operation::Push(p) && p.pushed ==> (r matches Err(
                OperationError::RollbackFailed { message },
            ) && message@ == "Cannot rollback push operation automatically"@),
            *self matches Operation::Push(p) && !p.pushed ==> r is Ok,
            *self matches Operation::Add(a) && a.staged_files@.len() == 0 ==> r is Ok,
            *self matches Operation::Commit(c) && c.commit_id is None ==> r is Ok,
    {
        match self {
            Operation::Add(op) => op.rollback(),
            Operation::Commit(op) => op.rollback(),
            Operation::Push(op) => op.rollback(),
        }
    }

    /// The operation's description.
    pub fn description(&self) -> (r: String)
        ensures
            r@ == description_of(*self),
    {
        match self {
            Operation::Add(op) => {
                let mut s = String::from_str("Add files to ");
                s.append(op.repository_path.as_str());
                s
            }
            Operation::Commit(op) => {
                let mut s = String::from_str("Commit to ");
                s.append(op.repository_path.as_str());
                s
            }
            Operation::Push(op) => {
                let mut s = String::from_str("Push ");
                s.append(op.repository_path.as_str());
                s
            }
        }
    }
}

/// One entry of a transaction's journal.
#[derive(Debug, Clone, Copy, PartialEq, Eq, Structural)]
pub enum EngineEvent {
    /// Operation `index` was executed, with outcome `ok`.
    Executed { index: usize, ok: bool },
    /// Operation `index` was rolled back, with outcome `ok`.
    RolledBack { index: usize, ok: bool },
}

/// `e` records an execution of operation `i`, with any outcome.
pub open spec fn executed_at(e: EngineEvent, i: int) -> bool {
    match e {
        EngineEvent::Executed { index, ok } => index == i,
        _ => false,
    }
}

/// `e` records a successful execution of operation `i`.
pub open spec fn executed_ok_at(e: EngineEvent, i: int) -> bool {
    match e {
        EngineEvent::Executed { index, ok } => index == i && ok,
        _ => false,
    }
}

/// `e` records a failed execution of operation `i`.
pub open spec fn executed_failed_at(e: EngineEvent, i: int) -> bool {
    match e {
        EngineEvent::Executed { index, ok } => index == i && !ok,
        _ => false,
    }
}

/// `e` records a rollback of operation `i`, with any outcome.
pub open spec fn rolled_back_at(e: EngineEvent, i: int) -> bool {
    match e {
        EngineEvent::RolledBack { index, ok } => index == i,
        _ => false,
    }
}

/// The operation index an event speaks of.
pub open spec fn event_index(e: EngineEvent) -> int {
    match e {
        EngineEvent::Executed { index, ok } => index as int,
        EngineEvent::RolledBack { index, ok } => index as int,
    }
}

/// Journal of a best-effort run over `n` operations: each executed exactly
/// once, in order, with any outcome; nothing rolled back.
pub open spec fn best_effort_journal(j: Seq<EngineEvent>, n: int) -> bool {
    j.len() == n && forall|i: int| 0 <= i < n ==> #[trigger] executed_at(j[i], i)
}

/// Journal of a successful atomic run over `n` operations.
pub open spec fn atomic_success_journal(j: Seq<EngineEvent>, n: int) -> bool {
    j.len() == n && forall|i: int| 0 <= i < n ==> #[trigger] executed_ok_at(j[i], i)
}

/// Journal of an atomic run that failed at operation `k`: the completed
/// prefix `[0,k)` executed successfully in order, operation `k` failed,
/// and then exactly the operations of `[0,k)` were rolled back in strictly
/// decreasing index order — never operation `k` itself.
pub open spec fn atomic_failure_journal(j: Seq<EngineEvent>, k: int) -> bool {
    &&& j.len() == 2 * k + 1
    &&& forall|i: int| 0 <= i < k ==> #[trigger] executed_ok_at(j[i], i)
    &&& executed_failed_at(j[k], k)
    &&& forall|i: int| 0 <= i < k ==> #[trigger] rolled_back_at(j[k + 1 + i], k - 1 - i)
}

/// The transaction engine: an ordered operation list, a mode flag, and the
/// journal of its last run.
pub struct AtomicOperations {
    pub operations: Vec<Operation>,
    pub atomic: bool,
    pub journal: Vec<EngineEvent>,
}

impl AtomicOperations {
    pub fn new(no_atomic: bool) -> (r: Self)
        ensures
            r.atomic == !no_atomic,
            r.operations@.len() == 0,
            r.journal@.len() == 0,
    {
        AtomicOperations { operations: Vec::new(), atomic: !no_atomic, journal: Vec::new() }
    }

    pub fn add_operation(&mut self, operation: Operation)
        ensures
            final(self).operations@ == old(self).operations@.push(operation),
            final(self).atomic == old(self).atomic,
            final(self).journal == old(self).journal,
    {
        self.operations.push(operation);
    }

    /// Run the transaction.  The operation list is consumed as it runs.
    ///
    /// Best-effort mode always succeeds and executes every operation
    /// exactly once, in order, whatever the individual outcomes.  Atomic
    /// mode stops at the first failure, rolls the completed prefix back in
    /// strictly decreasing index order — each rollback attempted even if
    /// an earlier one failed, the failed operation itself never rolled
    /// back — and reports the failed operation, its cause, and the count
    /// of reverted operations.  The journal records exactly what ran.
    pub fn execute(&mut self) -> (r: Result<(), OperationError>)
        ensures
            final(self).atomic == old(self).atomic,
            !old(self).atomic ==> r is Ok && best_effort_journal(
                final(self).journal@,
                old(self).operations@.len() as int,
            ),
            old(self).atomic ==> match r {
                Ok(_) => atomic_success_journal(
                    final(self).journal@,
                    old(self).operations@.len() as int,
                ),
                Err(e) => e matches OperationError::AtomicOperationFailed {
                    failed_operation,
                    original_error,
                    completed_count,
                } && completed_count < old(self).operations@.len() && (*original_error)
                    is GitError && atomic_failure_journal(
                    final(self).journal@,
                    completed_count as int,
                ) && failed_operation@ == description_of(
                    old(self).operations@[completed_count as int],
                ),
            },
    {
        self.journal = Vec::new();
        let n = self.operations.len();
        if !self.atomic {
            let mut i: usize = 0;
            while self.operations.len() > 0
                invariant
                    self.atomic == old(self).atomic,
                    !self.atomic,
                    i + self.operations@.len() == n,
                    n == old(self).operations@.len(),
                    self.journal@.len() == i,
                    forall|t: int| 0 <= t < i ==> #[trigger] executed_at(self.journal@[t], t),
                decreases self.operations@.len(),
            {
                let mut op = self.operations.remove(0);
                let res = op.execute();
                let ok = res.is_ok();
                self.journal.push(EngineEvent::Executed { index: i, ok });
                i += 1;
            }
            return Ok(());
        }
        let mut completed: Vec<Operation> = Vec::new();
        let mut i: usize = 0;
        while self.operations.len() > 0
            invariant
                self.atomic == old(self).atomic,
                self.atomic,
                i + self.operations@.len() == n,
                n == old(self).operations@.len(),
                self.operations@ == old(self).operations@.skip(i as int),
                completed@.len() == i,
                self.journal@.len() == i,
                forall|t: int| 0 <= t < i ==> #[trigger] executed_ok_at(self.journal@[t], t),
            decreases self.operations@.len(),
        {
            proof {
                assert(self.operations@[0] == old(self).operations@[i as int]);
                assert(old(self).operations@.skip(i as int).drop_first() =~= old(
                    self,
                ).operations@.skip(i + 1));
            }
            let mut op = self.operations.remove(0);
            let res = op.execute();
            match res {
                Ok(()) => {
                    self.journal.push(EngineEvent::Executed { index: i, ok: true });
                    completed.push(op);
                    i += 1;
                }
                Err(e) => {
                    self.journal.push(EngineEvent::Executed { index: i, ok: false });
                    let failed_operation = op.description();
                    let mut j = completed.len();
                    while j > 0
                        invariant
                            self.atomic == old(self).atomic,
                            completed@.len() == i,
                            j <= i,
                            i < n,
                            self.journal@.len() == i + 1 + (i - j),
                            forall|t: int|
                                0 <= t < i ==> #[trigger] executed_ok_at(self.journal@[t], t),
                            executed_failed_at(self.journal@[i as int], i as int),
                            forall|t: int|
                                0 <= t < i - j ==> #[trigger] rolled_back_at(
                                    self.journal@[i + 1 + t],
                                    i - 1 - t,
                                ),
                        decreases j,
                    {
                        j -= 1;
                        let rb = completed[j].rollback();
                        let rb_ok = rb.is_ok();
                        self.journal.push(EngineEvent::RolledBack { index: j, ok: rb_ok });
                    }
                    return Err(
                        OperationError::AtomicOperationFailed {
                            failed_operation,
                            original_error: Box::new(e),
                            completed_count: i,
                        },
                    );
                }
            }
        }
        Ok(())
    }
}

/// Some position in the rollback tail of `j` (after position `k`) records
/// a rollback of operation `i`.
pub open spec fn some_rollback_of(j: Seq<EngineEvent>, k: int, i: int) -> bool {
    exists|p: int| k + 1 <= p < j.len() && rolled_back_at(#[trigger] j[p], i)
}

/// For any non-empty atomic run that failed at operation `k`: the journal's
/// tail holds only rollbacks, their indices strictly decrease, each
/// completed operation of `[0,k)` is rolled back exactly once, and
/// operation `k` is never rolled back.
pub proof fn lemma_atomic_rollback_order(j: Seq<EngineEvent>, k: int)
    requires
        0 <= k,
        atomic_failure_journal(j, k),
    ensures
        forall|p: int| k + 1 <= p < j.len() ==> (#[trigger] j[p]) is RolledBack,
        forall|p: int| k + 1 <= p < j.len() ==> 0 <= event_index(#[trigger] j[p]) < k,
        forall|p: int, q: int|
            k + 1 <= p < q < j.len() ==> event_index(j[q]) < event_index(j[p]),
        forall|i: int| 0 <= i < k ==> #[trigger] some_rollback_of(j, k, i),
        forall|p: int, q: int|
            k + 1 <= p < j.len() && k + 1 <= q < j.len() && event_index(j[p]) == event_index(j[q])
                ==> p == q,
{
    assert forall|p: int| k + 1 <= p < j.len() implies (#[trigger] j[p]) is RolledBack && 0
        <= event_index(j[p]) < k && event_index(j[p]) == k - 1 - (p - k - 1) by {
        let t = p - k - 1;
        assert(rolled_back_at(j[k + 1 + t], k - 1 - t));
    }
    assert forall|i: int| 0 <= i < k implies #[trigger] some_rollback_of(j, k, i) by {
        let t = k - 1 - i;
        assert(rolled_back_at(j[k + 1 + t], i));
    }
}

/// For any best-effort run over `n` operations: every operation's execute
/// ran exactly once, in index order, and nothing was rolled back.
pub proof fn lemma_best_effort_execution(j: Seq<EngineEvent>, n: int)
    requires
        0 <= n,
        best_effort_journal(j, n),
    ensures
        forall|i: int| 0 <= i < n ==> executed_at(#[trigger] j[i], i),
        forall|p: int| 0 <= p < j.len() ==> !((#[trigger] j[p]) is RolledBack),
        forall|p: int, q: int|
            0 <= p < j.len() && 0 <= q < j.len() && event_index(j[p]) == event_index(j[q]) ==> p
                == q,
{
    assert forall|p: int| 0 <= p < j.len() implies !((#[trigger] j[p]) is RolledBack)
        && event_index(j[p]) == p by {
        assert(executed_at(j[p], p));
    }
}

} // verus!
