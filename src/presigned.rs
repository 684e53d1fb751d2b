//! The presigned upload lifecycle: upload grants are issued as `Pending`
//! tasks, finalised exactly once when storage reports the object, and swept
//! once their validity window has passed.
//!
//! `UploadTasks` holds one tenant's task table and the files created from it.
//! Every operation reads the table and then writes it conditionally, so a
//! table backed by a database follows the same rules: the contracts below are
//! stated over `UploadState`, the abstract content of the table.
use vstd::prelude::*;

verus! {

/// Error recorded on a task whose destination folder vanished before the
/// upload was finalised.
pub const FOLDER_MISSING: &'static str = "folder missing";

/// Status of a presigned upload task.
#[derive(Debug)]
pub enum PresignedTaskStatus {
    /// Grant issued, upload not yet observed.
    Pending,
    /// Upload observed and processed; the file it produced.
    Completed { file_id: u128 },
    /// Upload observed but processing failed.
    Failed { error: String },
}

/// One client-initiated upload grant.
#[derive(Debug)]
pub struct PresignedUploadTask {
    pub id: u128,
    /// Scope of the document box the file goes into.
    pub document_box: String,
    /// Destination folder.
    pub folder_id: u128,
    /// Storage object key the client writes to; joins a storage
    /// notification to its task.
    pub file_key: String,
    pub name: String,
    pub mime: String,
    pub size: i32,
    /// Optional processing configuration, kept in its serialised form.
    pub processing_config: Option<String>,
    pub status: PresignedTaskStatus,
    /// Creation time, in seconds since the Unix epoch.
    pub created_at: i64,
    /// End of the validity window, in seconds since the Unix epoch.
    pub expires_at: i64,
}

/// A file created by a successful completion, linked to its task.
#[derive(Debug)]
pub struct UploadedFile {
    pub id: u128,
    pub task_id: u128,
    pub document_box: String,
    pub folder_id: u128,
    pub name: String,
    pub mime: String,
    pub size: i32,
    pub file_key: String,
}

/// What is needed to issue a new upload grant.
#[derive(Debug)]
pub struct CreatePresigned {
    /// Identifier for the new task.
    pub id: u128,
    pub document_box: String,
    pub folder_id: u128,
    /// Storage object key the grant is bound to.
    pub file_key: String,
    pub name: String,
    pub mime: String,
    pub size: i32,
    pub processing_config: Option<String>,
    pub created_at: i64,
    pub expires_at: i64,
}

/// Why an upload grant was refused.
#[derive(Debug, PartialEq, Eq, Structural)]
pub enum InitiateError {
    /// The declared size is above the configured maximum.
    FileTooLarge { size: i32, max: i32 },
    /// The destination folder does not exist within the scope.
    UnknownTargetFolder,
    /// The task identifier is already in use.
    TaskIdTaken,
    /// A task or a file already uses this object key.
    FileKeyTaken,
}

/// What the completion handler found after it located a pending task.
#[derive(Debug)]
pub enum CompletionOutcome {
    /// The destination folder no longer exists.
    FolderMissing,
    /// The processing pipeline succeeded; the identifier for the new file.
    Processed { file_id: u128 },
    /// The processing pipeline failed with this error.
    ProcessingFailed { error: String },
}

/// What a completion did to the table.
#[derive(Debug, PartialEq, Eq, Structural)]
pub enum CompleteResult {
    /// No pending task matched: nothing was changed.
    NoPendingTask,
    /// The new file's identifier is already in use: nothing was changed.
    FileIdTaken,
    /// The task is now `Completed` and the file exists.
    Completed { file_id: u128 },
    /// The task is now `Failed`.
    Failed,
}

/// Status of a task, as the contracts see it.
pub enum StatusModel {
    Pending,
    Completed { file_id: u128 },
    Failed { error: Seq<char> },
}

/// A task, as the contracts see it.
pub struct TaskModel {
    pub id: u128,
    pub document_box: Seq<char>,
    pub folder_id: u128,
    pub file_key: Seq<char>,
    pub name: Seq<char>,
    pub mime: Seq<char>,
    pub size: i32,
    pub processing_config: Option<Seq<char>>,
    pub status: StatusModel,
    pub created_at: i64,
    pub expires_at: i64,
}

/// A file, as the contracts see it.
pub struct FileModel {
    pub id: u128,
    pub task_id: u128,
    pub document_box: Seq<char>,
    pub folder_id: u128,
    pub name: Seq<char>,
    pub mime: Seq<char>,
    pub size: i32,
    pub file_key: Seq<char>,
}

/// A completion outcome, as the contracts see it.
pub enum OutcomeModel {
    FolderMissing,
    Processed { file_id: u128 },
    ProcessingFailed { error: Seq<char> },
}

pub open spec fn opt_view(o: Option<String>) -> Option<Seq<char>> {
    match o {
        Some(s) => Some(s@),
        None => None,
    }
}

impl View for PresignedTaskStatus {
    type V = StatusModel;

    open spec fn view(&self) -> StatusModel {
        match self {
            PresignedTaskStatus::Pending => StatusModel::Pending,
            PresignedTaskStatus::Completed { file_id } => StatusModel::Completed { file_id: *file_id },
            PresignedTaskStatus::Failed { error } => StatusModel::Failed { error: error@ },
        }
    }
}

impl View for PresignedUploadTask {
    type V = TaskModel;

    open spec fn view(&self) -> TaskModel {
        TaskModel {
            id: self.id,
            document_box: self.document_box@,
            folder_id: self.folder_id,
            file_key: self.file_key@,
            name: self.name@,
            mime: self.mime@,
            size: self.size,
            processing_config: opt_view(self.processing_config),
            status: self.status@,
            created_at: self.created_at,
            expires_at: self.expires_at,
        }
    }
}

impl View for UploadedFile {
    type V = FileModel;

    open spec fn view(&self) -> FileModel {
        FileModel {
            id: self.id,
            task_id: self.task_id,
            document_box: self.document_box@,
            folder_id: self.folder_id,
            name: self.name@,
            mime: self.mime@,
            size: self.size,
            file_key: self.file_key@,
        }
    }
}

impl View for CompletionOutcome {
    type V = OutcomeModel;

    open spec fn view(&self) -> OutcomeModel {
        match self {
            CompletionOutcome::FolderMissing => OutcomeModel::FolderMissing,
            CompletionOutcome::Processed { file_id } => OutcomeModel::Processed { file_id: *file_id },
            CompletionOutcome::ProcessingFailed { error } => OutcomeModel::ProcessingFailed {
                error: error@,
            },
        }
    }
}

/// The abstract content of a task table.
pub struct UploadState {
    pub tasks: Seq<TaskModel>,
    pub files: Seq<FileModel>,
}

pub open spec fn is_expired(t: TaskModel, now: i64) -> bool {
    t.expires_at < now
}

pub open spec fn is_pending_for(t: TaskModel, key: Seq<char>) -> bool {
    t.status is Pending && t.file_key == key
}

/// The tasks a sweep at `now` keeps.
pub open spec fn survives(now: i64) -> spec_fn(TaskModel) -> bool {
    |t: TaskModel| !is_expired(t, now)
}

/// The tasks whose storage object a sweep at `now` deletes.
pub open spec fn leaves_object(now: i64) -> spec_fn(TaskModel) -> bool {
    |t: TaskModel| is_expired(t, now) && !(t.status is Completed)
}

pub open spec fn is_pending_task(t: TaskModel, id: u128) -> bool {
    t.status is Pending && t.id == id
}

/// The task that a grant request creates.
pub open spec fn task_from(req: CreatePresigned) -> TaskModel {
    TaskModel {
        id: req.id,
        document_box: req.document_box@,
        folder_id: req.folder_id,
        file_key: req.file_key@,
        name: req.name@,
        mime: req.mime@,
        size: req.size,
        processing_config: opt_view(req.processing_config),
        status: StatusModel::Pending,
        created_at: req.created_at,
        expires_at: req.expires_at,
    }
}

/// The file that completing task `t` creates.
pub open spec fn file_from(t: TaskModel, file_id: u128) -> FileModel {
    FileModel {
        id: file_id,
        task_id: t.id,
        document_box: t.document_box,
        folder_id: t.folder_id,
        name: t.name,
        mime: t.mime,
        size: t.size,
        file_key: t.file_key,
    }
}

pub open spec fn with_status(t: TaskModel, s: StatusModel) -> TaskModel {
    TaskModel { status: s, ..t }
}

impl UploadState {
    pub open spec fn has_task_id(self, id: u128) -> bool {
        exists|i: int| 0 <= i < self.tasks.len() && #[trigger] self.tasks[i].id == id
    }

    pub open spec fn has_file_id(self, id: u128) -> bool {
        exists|j: int| 0 <= j < self.files.len() && #[trigger] self.files[j].id == id
    }

    /// Some file, possibly of a purged task, is linked to task `id`.
    pub open spec fn has_file_of_task(self, id: u128) -> bool {
        exists|j: int| 0 <= j < self.files.len() && #[trigger] self.files[j].task_id == id
    }

    /// Some task or file uses object key `key`.
    pub open spec fn has_key(self, key: Seq<char>) -> bool {
        ||| exists|i: int| 0 <= i < self.tasks.len() && #[trigger] self.tasks[i].file_key == key
        ||| exists|j: int| 0 <= j < self.files.len() && #[trigger] self.files[j].file_key == key
    }

    pub open spec fn has_pending(self, key: Seq<char>) -> bool {
        exists|i: int| 0 <= i < self.tasks.len() && #[trigger] is_pending_for(self.tasks[i], key)
    }

    /// The table's invariants: identifiers and object keys are unique, a
    /// completed task has its file and any other task has none.
    pub open spec fn wf(self) -> bool {
        &&& forall|i: int, j: int|
            0 <= i < self.tasks.len() && 0 <= j < self.tasks.len() && i != j
                ==> #[trigger] self.tasks[i].id != #[trigger] self.tasks[j].id
        &&& forall|i: int, j: int|
            0 <= i < self.tasks.len() && 0 <= j < self.tasks.len() && i != j
                ==> #[trigger] self.tasks[i].file_key != #[trigger] self.tasks[j].file_key
        &&& forall|i: int, j: int|
            0 <= i < self.files.len() && 0 <= j < self.files.len() && i != j
                ==> #[trigger] self.files[i].id != #[trigger] self.files[j].id
        &&& forall|i: int|
            0 <= i < self.tasks.len() && (#[trigger] self.tasks[i]).status is Completed
                ==> self.has_file_id(self.tasks[i].status->file_id)
        &&& forall|i: int, j: int|
            0 <= i < self.tasks.len() && 0 <= j < self.files.len() && #[trigger] self.files[j].task_id
                == #[trigger] self.tasks[i].id ==> self.tasks[i].status
                == (StatusModel::Completed { file_id: self.files[j].id })
    }

    /// The index of the pending task waiting on `key`.
    pub open spec fn pending_index(self, key: Seq<char>) -> int
        recommends
            self.has_pending(key),
    {
        choose|i: int| 0 <= i < self.tasks.len() && #[trigger] is_pending_for(self.tasks[i], key)
    }

    /// Issuing a grant: checks in order the size, the folder, the task
    /// identifier and the object key, then adds a `Pending` task.
    pub open spec fn initiate(self, req: CreatePresigned, max_file_size: i32, folder_exists: bool) -> (
        UploadState,
        Result<u128, InitiateError>,
    ) {
        if req.size > max_file_size {
            (self, Err(InitiateError::FileTooLarge { size: req.size, max: max_file_size }))
        } else if !folder_exists {
            (self, Err(InitiateError::UnknownTargetFolder))
        } else if self.has_task_id(req.id) || self.has_file_of_task(req.id) {
            (self, Err(InitiateError::TaskIdTaken))
        } else if self.has_key(req.file_key@) {
            (self, Err(InitiateError::FileKeyTaken))
        } else {
            (UploadState { tasks: self.tasks.push(task_from(req)), files: self.files }, Ok(req.id))
        }
    }

    /// Finalising the pending task at index `i` with `outcome`.
    pub open spec fn finish_at(self, i: int, outcome: OutcomeModel) -> (UploadState, CompleteResult) {
        let t = self.tasks[i];
        match outcome {
            OutcomeModel::FolderMissing => (
                UploadState {
                    tasks: self.tasks.update(
                        i,
                        with_status(t, StatusModel::Failed { error: FOLDER_MISSING@ }),
                    ),
                    files: self.files,
                },
                CompleteResult::Failed,
            ),
            OutcomeModel::ProcessingFailed { error } => (
                UploadState {
                    tasks: self.tasks.update(i, with_status(t, StatusModel::Failed { error })),
                    files: self.files,
                },
                CompleteResult::Failed,
            ),
            OutcomeModel::Processed { file_id } => if self.has_file_id(file_id) {
                (self, CompleteResult::FileIdTaken)
            } else {
                (
                    UploadState {
                        tasks: self.tasks.update(
                            i,
                            with_status(t, StatusModel::Completed { file_id }),
                        ),
                        files: self.files.push(file_from(t, file_id)),
                    },
                    CompleteResult::Completed { file_id },
                )
            },
        }
    }

    pub open spec fn has_pending_task(self, id: u128) -> bool {
        exists|i: int| 0 <= i < self.tasks.len() && #[trigger] is_pending_task(self.tasks[i], id)
    }

    /// The index of the pending task with identifier `id`.
    pub open spec fn pending_task_index(self, id: u128) -> int
        recommends
            self.has_pending_task(id),
    {
        choose|i: int| 0 <= i < self.tasks.len() && #[trigger] is_pending_task(self.tasks[i], id)
    }

    /// Finalising task `id`, which a completion handler located earlier: it
    /// is written only if it is still there and still `Pending`.
    pub open spec fn finish(self, id: u128, outcome: OutcomeModel) -> (UploadState, CompleteResult) {
        if self.has_pending_task(id) {
            self.finish_at(self.pending_task_index(id), outcome)
        } else {
            (self, CompleteResult::NoPendingTask)
        }
    }

    /// Handling a storage notification for `key`: only a `Pending` task is
    /// ever matched, so a redelivered notification changes nothing.
    pub open spec fn complete(self, key: Seq<char>, outcome: OutcomeModel) -> (
        UploadState,
        CompleteResult,
    ) {
        if self.has_pending(key) {
            self.finish_at(self.pending_index(key), outcome)
        } else {
            (self, CompleteResult::NoPendingTask)
        }
    }

    /// The table after a sweep at `now`: every expired task is gone, the
    /// others stay in order, and files stay.
    pub open spec fn purge(self, now: i64) -> UploadState {
        UploadState {
            tasks: self.tasks.filter(survives(now)),
            files: self.files,
        }
    }

    /// The storage objects a sweep at `now` deletes: those of expired tasks
    /// that did not complete, in table order.
    pub open spec fn purge_deletions(self, now: i64) -> Seq<Seq<char>> {
        self.tasks.filter(leaves_object(now)).map_values(|t: TaskModel| t.file_key)
    }
}


/// One tenant's task table, with the files its completed tasks created.
pub struct UploadTasks {
    tasks: Vec<PresignedUploadTask>,
    files: Vec<UploadedFile>,
}

impl View for UploadTasks {
    type V = UploadState;

    closed spec fn view(&self) -> UploadState {
        UploadState {
            tasks: self.tasks@.map_values(|t: PresignedUploadTask| t@),
            files: self.files@.map_values(|f: UploadedFile| f@),
        }
    }
}

/// Filtering keeps any relation that no two distinct positions stand in.
proof fn lemma_filter_pairwise<A>(s: Seq<A>, p: spec_fn(A) -> bool, r: spec_fn(A, A) -> bool)
    requires
        forall|i: int, j: int|
            0 <= i < s.len() && 0 <= j < s.len() && i != j ==> !r(#[trigger] s[i], #[trigger] s[j]),
    ensures
        forall|i: int, j: int|
            0 <= i < s.filter(p).len() && 0 <= j < s.filter(p).len() && i != j ==> !r(
                #[trigger] s.filter(p)[i],
                #[trigger] s.filter(p)[j],
            ),
    decreases s.len(),
{
    reveal(Seq::filter);
    if s.len() > 0 {
        let rest = s.drop_last();
        lemma_filter_pairwise(rest, p, r);
        let fr = rest.filter(p);
        if p(s.last()) {
            let f = fr.push(s.last());
            assert forall|i: int, j: int|
                0 <= i < f.len() && 0 <= j < f.len() && i != j implies !r(
                #[trigger] f[i],
                #[trigger] f[j],
            ) by {
                if i == f.len() - 1 || j == f.len() - 1 {
                    let k = if i == f.len() - 1 { j } else { i };
                    assert(fr.contains(f[k]));
                    rest.lemma_filter_contains_rev(p, f[k]);
                    let m = choose|m: int| 0 <= m < rest.len() && rest[m] == f[k];
                    assert(s[m] == f[k]);
                    assert(s[s.len() - 1] == s.last());
                } else {
                    assert(f[i] == fr[i] && f[j] == fr[j]);
                }
            }
        }
    }
}

/// Every element of a filtered sequence is an element of the sequence it
/// was taken from, and satisfies the filter.
proof fn lemma_filter_member<A>(s: Seq<A>, p: spec_fn(A) -> bool, i: int)
    requires
        0 <= i < s.filter(p).len(),
    ensures
        s.contains(s.filter(p)[i]),
        p(s.filter(p)[i]),
{
    s.lemma_filter_contains_rev(p, s.filter(p)[i]);
    s.lemma_filter_pred(p, i);
}

/// Filtering a prefix one element longer.
proof fn lemma_filter_step<A>(s: Seq<A>, p: spec_fn(A) -> bool, i: int)
    requires
        0 <= i < s.len(),
    ensures
        s.subrange(0, i + 1).filter(p) == if p(s[i]) {
            s.subrange(0, i).filter(p).push(s[i])
        } else {
            s.subrange(0, i).filter(p)
        },
{
    reveal(Seq::filter);
    assert(s.subrange(0, i + 1).drop_last() =~= s.subrange(0, i));
}

/// A filter that keeps everything changes nothing.
proof fn lemma_filter_all<A>(s: Seq<A>, p: spec_fn(A) -> bool)
    requires
        forall|i: int| 0 <= i < s.len() ==> p(#[trigger] s[i]),
    ensures
        s.filter(p) == s,
    decreases s.len(),
{
    reveal(Seq::filter);
    if s.len() > 0 {
        lemma_filter_all(s.drop_last(), p);
        assert(s.drop_last().push(s.last()) =~= s);
    }
}

/// A filter that keeps nothing gives the empty sequence.
proof fn lemma_filter_none<A>(s: Seq<A>, p: spec_fn(A) -> bool)
    requires
        forall|i: int| 0 <= i < s.len() ==> !p(#[trigger] s[i]),
    ensures
        s.filter(p).len() == 0,
    decreases s.len(),
{
    reveal(Seq::filter);
    if s.len() > 0 {
        lemma_filter_none(s.drop_last(), p);
    }
}

impl UploadState {
    /// Issuing a grant keeps the invariants.
    pub proof fn lemma_initiate_wf(self, req: CreatePresigned, max_file_size: i32, folder_exists: bool)
        requires
            self.wf(),
        ensures
            self.initiate(req, max_file_size, folder_exists).0.wf(),
    {
        let post = self.initiate(req, max_file_size, folder_exists).0;
        if req.size <= max_file_size && folder_exists && !(self.has_task_id(req.id)
            || self.has_file_of_task(req.id)) && !self.has_key(req.file_key@) {
            assert(post.files == self.files);
            let n = self.tasks.len() as int;
            assert(post.tasks[n] == task_from(req));
            assert forall|i: int| 0 <= i < n implies post.tasks[i] == self.tasks[i] by {}
            assert forall|i: int| 0 <= i < n implies #[trigger] self.tasks[i].id != req.id by {
                if self.tasks[i].id == req.id {
                    assert(self.has_task_id(req.id));
                }
            }
            assert forall|i: int| 0 <= i < n implies #[trigger] self.tasks[i].file_key != req.file_key@ by {
                if self.tasks[i].file_key == req.file_key@ {
                    assert(self.has_key(req.file_key@));
                }
            }
            assert forall|j: int| 0 <= j < self.files.len() implies #[trigger] self.files[j].task_id
                != req.id by {
                if self.files[j].task_id == req.id {
                    assert(self.has_file_of_task(req.id));
                }
            }
            assert forall|i: int|
                0 <= i < post.tasks.len() && (#[trigger] post.tasks[i]).status is Completed
                    implies post.has_file_id(post.tasks[i].status->file_id) by {
                assert(i < n);
                assert(self.has_file_id(self.tasks[i].status->file_id));
            }
        }
    }

    /// Finalising the pending task at `i` keeps the invariants.
    pub proof fn lemma_finish_at_wf(self, i: int, outcome: OutcomeModel)
        requires
            self.wf(),
            0 <= i < self.tasks.len(),
            self.tasks[i].status is Pending,
        ensures
            self.finish_at(i, outcome).0.wf(),
    {
        let post = self.finish_at(i, outcome).0;
        let t = self.tasks[i];
        assert forall|j: int| 0 <= j < self.files.len() implies #[trigger] self.files[j].task_id
            != t.id by {
            if self.files[j].task_id == t.id {
                assert(self.tasks[i].status == (StatusModel::Completed { file_id: self.files[j].id }));
            }
        }
        match outcome {
            OutcomeModel::Processed { file_id } => {
                if !self.has_file_id(file_id) {
                    let n = self.files.len() as int;
                    assert(post.files[n] == file_from(t, file_id));
                    assert forall|k: int|
                        0 <= k < post.tasks.len() && (#[trigger] post.tasks[k]).status is Completed
                            implies post.has_file_id(post.tasks[k].status->file_id) by {
                        if k == i {
                            assert(post.files[n].id == file_id);
                        } else {
                            let fid = self.tasks[k].status->file_id;
                            assert(self.has_file_id(fid));
                            let m = choose|m: int| 0 <= m < self.files.len() && #[trigger] self.files[m].id == fid;
                            assert(post.files[m].id == fid);
                        }
                    }
                    assert forall|a: int, b: int|
                        0 <= a < post.files.len() && 0 <= b < post.files.len() && a != b implies #[trigger] post.files[a].id
                        != #[trigger] post.files[b].id by {
                        if a == n {
                            assert(!(self.files[b].id == file_id));
                        } else if b == n {
                            assert(!(self.files[a].id == file_id));
                        }
                    }
                    assert forall|k: int, j: int|
                        0 <= k < post.tasks.len() && 0 <= j < post.files.len() && #[trigger] post.files[j].task_id
                            == #[trigger] post.tasks[k].id implies post.tasks[k].status
                            == (StatusModel::Completed { file_id: post.files[j].id }) by {
                        if j == n {
                            assert(post.tasks[i].id == t.id);
                            if k != i {
                                assert(self.tasks[k].id != self.tasks[i].id);
                            }
                        } else if k == i {
                            assert(self.files[j].task_id != t.id);
                        }
                    }
                }
            },
            _ => {
                assert forall|k: int|
                    0 <= k < post.tasks.len() && (#[trigger] post.tasks[k]).status is Completed
                        implies post.has_file_id(post.tasks[k].status->file_id) by {
                    assert(k != i);
                    assert(self.has_file_id(self.tasks[k].status->file_id));
                }
                assert forall|k: int, j: int|
                    0 <= k < post.tasks.len() && 0 <= j < post.files.len() && #[trigger] post.files[j].task_id
                        == #[trigger] post.tasks[k].id implies post.tasks[k].status
                        == (StatusModel::Completed { file_id: post.files[j].id }) by {
                    if k == i {
                        assert(self.files[j].task_id != t.id);
                    }
                }
            },
        }
    }

    /// A sweep keeps the invariants.
    pub proof fn lemma_purge_wf(self, now: i64)
        requires
            self.wf(),
        ensures
            self.purge(now).wf(),
    {
        let p = survives(now);
        let post = self.purge(now);
        lemma_filter_pairwise(self.tasks, p, |a: TaskModel, b: TaskModel| a.id == b.id);
        lemma_filter_pairwise(self.tasks, p, |a: TaskModel, b: TaskModel| a.file_key == b.file_key);
        assert forall|i: int, j: int|
            0 <= i < post.tasks.len() && 0 <= j < post.tasks.len() && i != j
                implies #[trigger] post.tasks[i].id != #[trigger] post.tasks[j].id by {
            assert(!((|a: TaskModel, b: TaskModel| a.id == b.id)(post.tasks[i], post.tasks[j])));
        }
        assert forall|i: int, j: int|
            0 <= i < post.tasks.len() && 0 <= j < post.tasks.len() && i != j
                implies #[trigger] post.tasks[i].file_key != #[trigger] post.tasks[j].file_key by {
            assert(!((|a: TaskModel, b: TaskModel| a.file_key == b.file_key)(post.tasks[i], post.tasks[j])));
        }
        assert forall|i: int|
            0 <= i < post.tasks.len() && (#[trigger] post.tasks[i]).status is Completed
                implies post.has_file_id(post.tasks[i].status->file_id) by {
            lemma_filter_member(self.tasks, p, i);
            let k = choose|k: int| 0 <= k < self.tasks.len() && self.tasks[k] == post.tasks[i];
            assert(self.tasks[k].status is Completed);
            assert(self.has_file_id(self.tasks[k].status->file_id));
            assert(post.files == self.files);
        }
        assert forall|i: int, j: int|
            0 <= i < post.tasks.len() && 0 <= j < post.files.len() && #[trigger] post.files[j].task_id
                == #[trigger] post.tasks[i].id implies post.tasks[i].status
                == (StatusModel::Completed { file_id: post.files[j].id }) by {
            lemma_filter_member(self.tasks, p, i);
            let k = choose|k: int| 0 <= k < self.tasks.len() && self.tasks[k] == post.tasks[i];
            assert(self.files[j].task_id == self.tasks[k].id);
        }
    }
}

impl UploadTasks {
    /// An empty table.
    pub fn new() -> (r: UploadTasks)
        ensures
            r@.tasks.len() == 0,
            r@.files.len() == 0,
            r@.wf(),
    {
        let r = UploadTasks { tasks: Vec::new(), files: Vec::new() };
        assert(r@.tasks =~= Seq::<TaskModel>::empty());
        assert(r@.files =~= Seq::<FileModel>::empty());
        r
    }

    /// Position of the task with identifier `id`.
    fn task_position(&self, id: u128) -> (r: Option<usize>)
        ensures
            r matches Some(i) ==> i < self@.tasks.len() && self@.tasks[i as int].id == id,
            r is None ==> !self@.has_task_id(id),
    {
        let mut i: usize = 0;
        while i < self.tasks.len()
            invariant
                i <= self.tasks.len(),
                self@.tasks.len() == self.tasks.len(),
                forall|k: int| 0 <= k < i ==> #[trigger] self@.tasks[k].id != id,
            decreases self.tasks.len() - i,
        {
            if self.tasks[i].id == id {
                return Some(i);
            }
            i = i + 1;
        }
        None
    }

    /// Position of the pending task waiting on `key`.
    fn pending_position(&self, key: &str) -> (r: Option<usize>)
        ensures
            r matches Some(i) ==> i < self@.tasks.len() && is_pending_for(self@.tasks[i as int], key@),
            r is None ==> !self@.has_pending(key@),
    {
        let wanted = key.to_owned();
        let mut i: usize = 0;
        while i < self.tasks.len()
            invariant
                i <= self.tasks.len(),
                self@.tasks.len() == self.tasks.len(),
                wanted@ == key@,
                forall|k: int| 0 <= k < i ==> !#[trigger] is_pending_for(self@.tasks[k], key@),
            decreases self.tasks.len() - i,
        {
            let t = &self.tasks[i];
            if matches!(t.status, PresignedTaskStatus::Pending) && t.file_key == wanted {
                assert(self@.tasks[i as int] == self.tasks@[i as int]@);
                return Some(i);
            }
            i = i + 1;
        }
        None
    }

    /// Position of the pending task with identifier `id`.
    fn pending_task_position(&self, id: u128) -> (r: Option<usize>)
        ensures
            r matches Some(i) ==> i < self@.tasks.len() && is_pending_task(self@.tasks[i as int], id),
            r is None ==> !self@.has_pending_task(id),
    {
        let mut i: usize = 0;
        while i < self.tasks.len()
            invariant
                i <= self.tasks.len(),
                self@.tasks.len() == self.tasks.len(),
                forall|k: int| 0 <= k < i ==> !#[trigger] is_pending_task(self@.tasks[k], id),
            decreases self.tasks.len() - i,
        {
            let t = &self.tasks[i];
            if matches!(t.status, PresignedTaskStatus::Pending) && t.id == id {
                return Some(i);
            }
            i = i + 1;
        }
        None
    }

    fn key_taken(&self, key: &str) -> (r: bool)
        ensures
            r == self@.has_key(key@),
    {
        let wanted = key.to_owned();
        let mut i: usize = 0;
        while i < self.tasks.len()
            invariant
                i <= self.tasks.len(),
                self@.tasks.len() == self.tasks.len(),
                wanted@ == key@,
                forall|k: int| 0 <= k < i ==> #[trigger] self@.tasks[k].file_key != key@,
            decreases self.tasks.len() - i,
        {
            if self.tasks[i].file_key == wanted {
                assert(self@.tasks[i as int].file_key == key@);
                return true;
            }
            i = i + 1;
        }
        let mut j: usize = 0;
        while j < self.files.len()
            invariant
                j <= self.files.len(),
                self@.files.len() == self.files.len(),
                self@.tasks.len() == self.tasks.len(),
                wanted@ == key@,
                forall|k: int| 0 <= k < self.tasks.len() ==> #[trigger] self@.tasks[k].file_key != key@,
                forall|k: int| 0 <= k < j ==> #[trigger] self@.files[k].file_key != key@,
            decreases self.files.len() - j,
        {
            if self.files[j].file_key == wanted {
                assert(self@.files[j as int].file_key == key@);
                return true;
            }
            j = j + 1;
        }
        false
    }

    fn file_id_taken(&self, id: u128) -> (r: bool)
        ensures
            r == self@.has_file_id(id),
    {
        let mut i: usize = 0;
        while i < self.files.len()
            invariant
                i <= self.files.len(),
                self@.files.len() == self.files.len(),
                forall|k: int| 0 <= k < i ==> #[trigger] self@.files[k].id != id,
            decreases self.files.len() - i,
        {
            if self.files[i].id == id {
                assert(self@.files[i as int].id == id);
                return true;
            }
            i = i + 1;
        }
        false
    }

    fn task_id_of_file_taken(&self, id: u128) -> (r: bool)
        ensures
            r == self@.has_file_of_task(id),
    {
        let mut i: usize = 0;
        while i < self.files.len()
            invariant
                i <= self.files.len(),
                self@.files.len() == self.files.len(),
                forall|k: int| 0 <= k < i ==> #[trigger] self@.files[k].task_id != id,
            decreases self.files.len() - i,
        {
            if self.files[i].task_id == id {
                assert(self@.files[i as int].task_id == id);
                return true;
            }
            i = i + 1;
        }
        false
    }
}

impl UploadTasks {
    /// Replaces the status of the task at position `i`.
    fn set_status(&mut self, i: usize, status: PresignedTaskStatus)
        requires
            i < old(self)@.tasks.len(),
        ensures
            final(self)@.tasks == old(self)@.tasks.update(
                i as int,
                with_status(old(self)@.tasks[i as int], status@),
            ),
            final(self)@.files == old(self)@.files,
    {
        let ghost pre = self.tasks@;
        let mut t = self.tasks.remove(i);
        t.status = status;
        self.tasks.insert(i, t);
        assert(self.tasks@ =~= pre.update(i as int, t));
        assert(self@.tasks =~= old(self)@.tasks.update(
            i as int,
            with_status(old(self)@.tasks[i as int], status@),
        ));
    }

    /// Finalises the pending task at position `i`.
    fn finish_at_position(&mut self, i: usize, outcome: CompletionOutcome) -> (r: CompleteResult)
        requires
            old(self)@.wf(),
            i < old(self)@.tasks.len(),
            old(self)@.tasks[i as int].status is Pending,
        ensures
            final(self)@ == old(self)@.finish_at(i as int, outcome@).0,
            r == old(self)@.finish_at(i as int, outcome@).1,
            final(self)@.wf(),
    {
        proof {
            self@.lemma_finish_at_wf(i as int, outcome@);
        }
        let ghost pre = self@;
        match outcome {
            CompletionOutcome::FolderMissing => {
                let error = FOLDER_MISSING.to_owned();
                self.set_status(i, PresignedTaskStatus::Failed { error });
                CompleteResult::Failed
            },
            CompletionOutcome::ProcessingFailed { error } => {
                self.set_status(i, PresignedTaskStatus::Failed { error });
                CompleteResult::Failed
            },
            CompletionOutcome::Processed { file_id } => {
                if self.file_id_taken(file_id) {
                    return CompleteResult::FileIdTaken;
                }
                let t = &self.tasks[i];
                let file = UploadedFile {
                    id: file_id,
                    task_id: t.id,
                    document_box: t.document_box.clone(),
                    folder_id: t.folder_id,
                    name: t.name.clone(),
                    mime: t.mime.clone(),
                    size: t.size,
                    file_key: t.file_key.clone(),
                };
                assert(file@ == file_from(pre.tasks[i as int], file_id));
                self.set_status(i, PresignedTaskStatus::Completed { file_id });
                self.files.push(file);
                assert(self@.files =~= pre.files.push(file_from(pre.tasks[i as int], file_id)));
                CompleteResult::Completed { file_id }
            },
        }
    }

    /// Issues an upload grant: refuses a size above `max_file_size`, a
    /// missing destination folder, a task identifier in use and a key that a
    /// pending task already waits on; otherwise records a `Pending` task.
    pub fn initiate(&mut self, req: CreatePresigned, max_file_size: i32, folder_exists: bool) -> (r:
        Result<u128, InitiateError>)
        requires
            old(self)@.wf(),
        ensures
            final(self)@ == old(self)@.initiate(req, max_file_size, folder_exists).0,
            r == old(self)@.initiate(req, max_file_size, folder_exists).1,
            final(self)@.wf(),
    {
        proof {
            self@.lemma_initiate_wf(req, max_file_size, folder_exists);
        }
        if req.size > max_file_size {
            return Err(InitiateError::FileTooLarge { size: req.size, max: max_file_size });
        }
        if !folder_exists {
            return Err(InitiateError::UnknownTargetFolder);
        }
        if self.task_position(req.id).is_some() || self.task_id_of_file_taken(req.id) {
            return Err(InitiateError::TaskIdTaken);
        }
        if self.key_taken(req.file_key.as_str()) {
            return Err(InitiateError::FileKeyTaken);
        }
        let id = req.id;
        let task = PresignedUploadTask {
            id: req.id,
            document_box: req.document_box,
            folder_id: req.folder_id,
            file_key: req.file_key,
            name: req.name,
            mime: req.mime,
            size: req.size,
            processing_config: req.processing_config,
            status: PresignedTaskStatus::Pending,
            created_at: req.created_at,
            expires_at: req.expires_at,
        };
        let ghost pre = self@;
        self.tasks.push(task);
        assert(self@.tasks =~= pre.tasks.push(task_from(req)));
        Ok(id)
    }

    /// The identifier of the pending task waiting on `key`, if any.
    pub fn find_pending(&self, key: &str) -> (r: Option<u128>)
        requires
            self@.wf(),
        ensures
            r == (if self@.has_pending(key@) {
                Some(self@.tasks[self@.pending_index(key@)].id)
            } else {
                None
            }),
    {
        match self.pending_position(key) {
            Some(i) => {
                proof {
                    let j = self@.pending_index(key@);
                    assert(is_pending_for(self@.tasks[i as int], key@));
                    assert(is_pending_for(self@.tasks[j], key@));
                    assert(j == i);
                }
                Some(self.tasks[i].id)
            },
            None => None,
        }
    }

    /// Finalises task `id`, located earlier by [`UploadTasks::find_pending`].
    /// Nothing is written when the task has since been swept or finalised.
    pub fn finish(&mut self, id: u128, outcome: CompletionOutcome) -> (r: CompleteResult)
        requires
            old(self)@.wf(),
        ensures
            final(self)@ == old(self)@.finish(id, outcome@).0,
            r == old(self)@.finish(id, outcome@).1,
            final(self)@.wf(),
    {
        match self.pending_task_position(id) {
            Some(i) => {
                proof {
                    let j = self@.pending_task_index(id);
                    assert(is_pending_task(self@.tasks[i as int], id));
                    assert(is_pending_task(self@.tasks[j], id));
                    assert(j == i);
                }
                self.finish_at_position(i, outcome)
            },
            None => CompleteResult::NoPendingTask,
        }
    }

    /// Handles a storage notification for object `key` with the outcome of
    /// processing it. Only a `Pending` task is matched: without one nothing
    /// changes and `NoPendingTask` comes back.
    pub fn complete(&mut self, key: &str, outcome: CompletionOutcome) -> (r: CompleteResult)
        requires
            old(self)@.wf(),
        ensures
            final(self)@ == old(self)@.complete(key@, outcome@).0,
            r == old(self)@.complete(key@, outcome@).1,
            final(self)@.wf(),
            !old(self)@.has_pending(key@) ==> final(self)@ == old(self)@ && r
                == CompleteResult::NoPendingTask,
    {
        match self.pending_position(key) {
            Some(i) => {
                proof {
                    let j = self@.pending_index(key@);
                    assert(is_pending_for(self@.tasks[i as int], key@));
                    assert(is_pending_for(self@.tasks[j], key@));
                    assert(j == i);
                }
                self.finish_at_position(i, outcome)
            },
            None => CompleteResult::NoPendingTask,
        }
    }

    /// Sweeps the tasks whose validity window ended before `now`, whatever
    /// their status, and returns the storage objects to delete: those of the
    /// swept tasks that did not complete.
    pub fn purge_expired(&mut self, now: i64) -> (deleted: Vec<String>)
        requires
            old(self)@.wf(),
        ensures
            final(self)@ == old(self)@.purge(now),
            deleted@.map_values(|k: String| k@) == old(self)@.purge_deletions(now),
            final(self)@.wf(),
    {
        proof {
            self@.lemma_purge_wf(now);
        }
        let ghost pre = self@;
        let mut old_tasks: Vec<PresignedUploadTask> = Vec::new();
        std::mem::swap(&mut self.tasks, &mut old_tasks);
        let mut deleted: Vec<String> = Vec::new();
        assert(old_tasks@.map_values(|t: PresignedUploadTask| t@) == pre.tasks);
        for t in it: old_tasks.into_iter()
            invariant
                it.seq() == old_tasks@,
                pre.tasks == old_tasks@.map_values(|t: PresignedUploadTask| t@),
                self.files@.map_values(|f: UploadedFile| f@) == pre.files,
                self.tasks@.map_values(|t: PresignedUploadTask| t@) == pre.tasks.subrange(
                    0,
                    it.index(),
                ).filter(survives(now)),
                deleted@.map_values(|k: String| k@) == pre.tasks.subrange(0, it.index()).filter(leaves_object(now)).map_values(|t: TaskModel| t.file_key),
        {
            let ghost idx = it.index();
            let ghost before_tasks = self.tasks@;
            let ghost before_deleted = deleted@;
            proof {
                lemma_filter_step(pre.tasks, survives(now), idx);
                lemma_filter_step(pre.tasks, leaves_object(now), idx);
                assert(t@ == pre.tasks[idx]);
            }
            if t.expires_at < now {
                if !matches!(t.status, PresignedTaskStatus::Completed { .. }) {
                    deleted.push(t.file_key);
                    assert(deleted@.map_values(|k: String| k@) =~= before_deleted.map_values(
                        |k: String| k@,
                    ).push(pre.tasks[idx].file_key));
                    assert(pre.tasks.subrange(0, idx).filter(leaves_object(now)).push(pre.tasks[idx]).map_values(|t: TaskModel| t.file_key) =~= pre.tasks.subrange(0, idx).filter(leaves_object(now)).map_values(|t: TaskModel| t.file_key).push(
                        pre.tasks[idx].file_key,
                    ));
                }
            } else {
                self.tasks.push(t);
                assert(self.tasks@.map_values(|t: PresignedUploadTask| t@) =~= before_tasks.map_values(
                    |t: PresignedUploadTask| t@,
                ).push(pre.tasks[idx]));
            }
        }
        assert(pre.tasks.subrange(0, pre.tasks.len() as int) =~= pre.tasks);
        deleted
    }

    /// The task with identifier `id`, if it is in the table.
    pub fn task(&self, id: u128) -> (r: Option<&PresignedUploadTask>)
        ensures
            r matches Some(t) ==> t.id == id && self@.tasks.contains(t@),
            r is None ==> !self@.has_task_id(id),
    {
        match self.task_position(id) {
            Some(i) => {
                assert(self@.tasks[i as int] == self.tasks@[i as int]@);
                Some(&self.tasks[i])
            },
            None => None,
        }
    }

    /// The file with identifier `id`, if it exists.
    pub fn file(&self, id: u128) -> (r: Option<&UploadedFile>)
        ensures
            r matches Some(f) ==> f.id == id && self@.files.contains(f@),
            r is None ==> !self@.has_file_id(id),
    {
        let mut i: usize = 0;
        while i < self.files.len()
            invariant
                i <= self.files.len(),
                self@.files.len() == self.files.len(),
                forall|k: int| 0 <= k < i ==> #[trigger] self@.files[k].id != id,
            decreases self.files.len() - i,
        {
            if self.files[i].id == id {
                assert(self@.files[i as int] == self.files@[i as int]@);
                return Some(&self.files[i]);
            }
            i = i + 1;
        }
        None
    }

    /// Number of tasks in the table.
    pub fn task_count(&self) -> (r: usize)
        ensures
            r == self@.tasks.len(),
    {
        self.tasks.len()
    }

    /// Number of files created so far.
    pub fn file_count(&self) -> (r: usize)
        ensures
            r == self@.files.len(),
    {
        self.files.len()
    }
}


/// Issuing a grant and then handling the storage notification for its
/// object key, with a processed upload, finalises the task exactly once: the
/// task becomes `Completed` with the new file, that file is the only one
/// added, and a second notification for the same key, whatever its outcome,
/// changes nothing.
pub proof fn lemma_complete_once(
    s: UploadState,
    req: CreatePresigned,
    max_file_size: i32,
    folder_exists: bool,
    file_id: u128,
    again: OutcomeModel,
)
    requires
        s.wf(),
        s.initiate(req, max_file_size, folder_exists).1 is Ok,
        !s.has_file_id(file_id),
    ensures
        ({
            let s1 = s.initiate(req, max_file_size, folder_exists).0;
            let (s2, r) = s1.complete(req.file_key@, OutcomeModel::Processed { file_id });
            &&& s1.tasks == s.tasks.push(task_from(req))
            &&& r == CompleteResult::Completed { file_id }
            &&& s2.tasks == s1.tasks.update(
                s.tasks.len() as int,
                with_status(task_from(req), StatusModel::Completed { file_id }),
            )
            &&& s2.files == s.files.push(file_from(task_from(req), file_id))
            &&& s2.complete(req.file_key@, again) == (s2, CompleteResult::NoPendingTask)
        }),
{
    s.lemma_initiate_wf(req, max_file_size, folder_exists);
    let s1 = s.initiate(req, max_file_size, folder_exists).0;
    let n = s.tasks.len() as int;
    let key = req.file_key@;
    assert(is_pending_for(s1.tasks[n], key));
    assert(s1.has_pending(key));
    let j = s1.pending_index(key);
    assert(j == n) by {
        if j != n {
            assert(s1.tasks[j].file_key != s1.tasks[n].file_key);
        }
    }
    assert(s1.files == s.files);
    let s2 = s1.finish_at(n, OutcomeModel::Processed { file_id }).0;
    assert forall|i: int| 0 <= i < s2.tasks.len() implies !#[trigger] is_pending_for(s2.tasks[i], key) by {
        if i != n {
            assert(s1.tasks[i].file_key != s1.tasks[n].file_key);
        }
    }
    assert(!s2.has_pending(key));
}

/// A sweep at `now` keeps exactly the tasks that have not expired: none of
/// those it keeps has expired, and every task that has not expired stays.
/// Sweeping again at the same time removes nothing and deletes no object.
pub proof fn lemma_purge_idempotent(s: UploadState, now: i64)
    ensures
        forall|i: int|
            0 <= i < s.purge(now).tasks.len() ==> !is_expired(#[trigger] s.purge(now).tasks[i], now)
                && s.tasks.contains(s.purge(now).tasks[i]),
        forall|i: int|
            0 <= i < s.tasks.len() && !is_expired(#[trigger] s.tasks[i], now) ==> s.purge(
                now,
            ).tasks.contains(s.tasks[i]),
        s.purge(now).purge(now) == s.purge(now),
        s.purge(now).purge_deletions(now).len() == 0,
{
    let p = survives(now);
    let kept = s.tasks.filter(p);
    assert forall|i: int| 0 <= i < kept.len() implies !is_expired(#[trigger] kept[i], now)
        && s.tasks.contains(kept[i]) by {
        lemma_filter_member(s.tasks, p, i);
    }
    assert forall|i: int| 0 <= i < s.tasks.len() && !is_expired(#[trigger] s.tasks[i], now) implies kept.contains(
        s.tasks[i],
    ) by {
        s.tasks.lemma_filter_contains(p, i);
    }
    lemma_filter_all(kept, p);
    lemma_filter_none(kept, leaves_object(now));
}

/// A sweep and a completion handler race on one expired `Pending` task that
/// the handler located before either wrote. If the sweep writes first, the
/// task and its object are removed, and the handler's write, like any later
/// notification for the key, changes nothing. If the handler writes first
/// with a processed upload, the task completes; the sweep then removes its
/// row but not its object, which backs the new file.
pub proof fn lemma_purge_complete_race(
    s: UploadState,
    key: Seq<char>,
    now: i64,
    outcome: OutcomeModel,
    file_id: u128,
)
    requires
        s.wf(),
        s.has_pending(key),
        is_expired(s.tasks[s.pending_index(key)], now),
    ensures
        ({
            let id = s.tasks[s.pending_index(key)].id;
            let swept = s.purge(now);
            let (done, r) = s.finish(id, OutcomeModel::Processed { file_id });
            &&& s.purge_deletions(now).contains(key)
            &&& !swept.has_task_id(id)
            &&& swept.finish(id, outcome) == (swept, CompleteResult::NoPendingTask)
            &&& swept.complete(key, outcome) == (swept, CompleteResult::NoPendingTask)
            &&& !s.has_file_id(file_id) ==> {
                &&& r == CompleteResult::Completed { file_id }
                &&& !done.purge_deletions(now).contains(key)
                &&& done.purge(now).has_file_id(file_id)
                &&& !done.purge(now).has_pending(key)
            }
        }),
{
    let i = s.pending_index(key);
    let t = s.tasks[i];
    let id = t.id;
    let swept = s.purge(now);
    let p = survives(now);
    let q = leaves_object(now);
    // The sweep deletes the task's object.
    s.tasks.lemma_filter_contains(q, i);
    let dels = s.tasks.filter(q);
    let k = choose|k: int| 0 <= k < dels.len() && dels[k] == t;
    assert(s.purge_deletions(now)[k] == key);
    // Nothing the sweep keeps is the task or waits on its key.
    assert forall|m: int| 0 <= m < swept.tasks.len() implies #[trigger] swept.tasks[m].id != id
        && swept.tasks[m].file_key != key by {
        lemma_filter_member(s.tasks, p, m);
        let o = choose|o: int| 0 <= o < s.tasks.len() && s.tasks[o] == swept.tasks[m];
        if o != i {
            assert(s.tasks[o].id != s.tasks[i].id);
            assert(s.tasks[o].file_key != s.tasks[i].file_key);
        }
    }
    assert(!swept.has_pending_task(id));
    assert forall|m: int| 0 <= m < swept.tasks.len() implies !#[trigger] is_pending_for(
        swept.tasks[m],
        key,
    ) by {
        assert(swept.tasks[m].id != id);
    }
    assert(!swept.has_pending(key));
    // The handler writes first.
    assert(is_pending_task(s.tasks[i], id));
    let j = s.pending_task_index(id);
    assert(j == i) by {
        if j != i {
            assert(s.tasks[j].id != s.tasks[i].id);
        }
    }
    if !s.has_file_id(file_id) {
        s.lemma_finish_at_wf(i, OutcomeModel::Processed { file_id });
        let done = s.finish(id, OutcomeModel::Processed { file_id }).0;
        assert(done.files.last().id == file_id);
        assert(done.purge(now).files == done.files);
        assert(done.purge(now).has_file_id(file_id));
        let dq = done.tasks.filter(q);
        if done.purge_deletions(now).contains(key) {
            let c = choose|c: int| 0 <= c < done.purge_deletions(now).len() && done.purge_deletions(now)[c] == key;
            lemma_filter_member(done.tasks, q, c);
            let o = choose|o: int| 0 <= o < done.tasks.len() && done.tasks[o] == dq[c];
            assert(done.tasks[o].file_key == key);
            if o != i {
                assert(done.tasks[o].file_key != done.tasks[i].file_key);
            }
            assert(false);
        }
        let dp = done.tasks.filter(p);
        assert forall|m: int| 0 <= m < dp.len() implies !#[trigger] is_pending_for(dp[m], key) by {
            lemma_filter_member(done.tasks, p, m);
            let o = choose|o: int| 0 <= o < done.tasks.len() && done.tasks[o] == dp[m];
            if o != i {
                assert(done.tasks[o].file_key != done.tasks[i].file_key);
            }
        }
    }
}


/// Completion only ever moves a `Pending` task to a terminal status: every
/// task that was already `Completed` or `Failed` keeps its status, the
/// table keeps its length, and no file is removed.
pub proof fn lemma_terminal_status_is_final(s: UploadState, key: Seq<char>, outcome: OutcomeModel)
    requires
        s.wf(),
    ensures
        ({
            let (post, r) = s.complete(key, outcome);
            &&& post.tasks.len() == s.tasks.len()
            &&& forall|i: int|
                0 <= i < s.tasks.len() && !(s.tasks[i].status is Pending) ==> #[trigger] post.tasks[i]
                    == s.tasks[i]
            &&& forall|i: int|
                0 <= i < s.tasks.len() && post.tasks[i] != s.tasks[i] ==> s.tasks[i].status is Pending
                    && !(#[trigger] post.tasks[i].status is Pending)
            &&& forall|j: int| 0 <= j < s.files.len() ==> #[trigger] post.files[j] == s.files[j]
        }),
{
}


/// A sweep deletes each object at most once: no object key appears twice
/// among its deletions, and the object of an expired task that did not
/// complete is among them.
pub proof fn lemma_purge_deletes_each_object_once(s: UploadState, now: i64)
    requires
        s.wf(),
    ensures
        forall|i: int, j: int|
            0 <= i < s.purge_deletions(now).len() && 0 <= j < s.purge_deletions(now).len() && i != j
                ==> #[trigger] s.purge_deletions(now)[i] != #[trigger] s.purge_deletions(now)[j],
        forall|i: int|
            0 <= i < s.tasks.len() && is_expired(#[trigger] s.tasks[i], now) && !(
            s.tasks[i].status is Completed) ==> s.purge_deletions(now).contains(s.tasks[i].file_key),
{
    let q = leaves_object(now);
    let f = s.tasks.filter(q);
    lemma_filter_pairwise(s.tasks, q, |a: TaskModel, b: TaskModel| a.file_key == b.file_key);
    assert forall|i: int, j: int|
        0 <= i < s.purge_deletions(now).len() && 0 <= j < s.purge_deletions(now).len() && i != j
            implies #[trigger] s.purge_deletions(now)[i] != #[trigger] s.purge_deletions(now)[j] by {
        assert(!((|a: TaskModel, b: TaskModel| a.file_key == b.file_key)(f[i], f[j])));
    }
    assert forall|i: int|
        0 <= i < s.tasks.len() && is_expired(#[trigger] s.tasks[i], now) && !(
        s.tasks[i].status is Completed) implies s.purge_deletions(now).contains(s.tasks[i].file_key) by {
        s.tasks.lemma_filter_contains(q, i);
        let k = choose|k: int| 0 <= k < f.len() && f[k] == s.tasks[i];
        assert(s.purge_deletions(now)[k] == s.tasks[i].file_key);
    }
}

} // verus!
