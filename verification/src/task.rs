//! Lifecycles of screen data loaded by background work, and the bookkeeping
//! that decides which background results are still wanted.
//!
//! Worker threads and the result channel belong to the caller; this module
//! decides which request identities are live and what a finished request
//! does to the screen state.

use vstd::prelude::*;

use crate::screens::ignore::PreviewEntry;
use crate::screens::preview::PreviewData;
use crate::screens::repository::RepoInfo;

verus! {

/// Monotonic identity for a screen-data request.
#[derive(Debug, Clone, Copy, PartialEq, Eq, Structural)]
pub struct RequestId(u64);

impl View for RequestId {
    type V = u64;

    closed spec fn view(&self) -> u64 {
        self.0
    }
}

impl RequestId {
    /// A request identity with the given number.
    pub fn for_test(value: u64) -> (r: Self)
        ensures
            r@ == value,
    {
        RequestId(value)
    }

    pub fn value(self) -> (r: u64)
        ensures
            r == self@,
    {
        self.0
    }

    pub fn same(self, other: RequestId) -> (r: bool)
        ensures
            r == (self@ == other@),
    {
        self.0 == other.0
    }
}

/// Typed lifecycle for data loaded by a TUI background task.
#[derive(Debug)]
pub enum LoadState<T> {
    NotLoaded,
    Loading { request_id: RequestId, previous: Option<T> },
    Loaded(T),
    Stale { previous: Option<T> },
    Failed { error: String, previous: Option<T> },
}

/// The last usable data a state carries.
pub open spec fn load_data<T>(s: LoadState<T>) -> Option<T> {
    match s {
        LoadState::Loading { previous, .. } => previous,
        LoadState::Stale { previous } => previous,
        LoadState::Failed { previous, .. } => previous,
        LoadState::Loaded(data) => Some(data),
        LoadState::NotLoaded => None,
    }
}

/// The request a state is waiting for, if any.
pub open spec fn load_request<T>(s: LoadState<T>) -> Option<u64> {
    match s {
        LoadState::Loading { request_id, .. } => Some(request_id@),
        _ => None,
    }
}

/// State after starting request `id`.
pub open spec fn load_began<T>(s: LoadState<T>, id: RequestId, preserve: bool) -> LoadState<T> {
    LoadState::Loading { request_id: id, previous: if preserve { load_data(s) } else { None } }
}

/// Whether a result for `id` is accepted.
pub open spec fn load_accepts<T>(s: LoadState<T>, id: RequestId) -> bool {
    load_request(s) == Some(id@)
}

/// State after a result for the expected request arrives.
pub open spec fn load_finished<T>(s: LoadState<T>, result: Result<T, String>) -> LoadState<T> {
    match result {
        Ok(data) => LoadState::Loaded(data),
        Err(error) => LoadState::Failed { error, previous: load_data(s) },
    }
}

/// Whether the state is waiting for a request.
pub open spec fn load_is_loading<T>(s: LoadState<T>) -> bool {
    s is Loading
}

impl<T> LoadState<T> {
    pub fn data(&self) -> (r: Option<&T>)
        ensures
            match (r, load_data(*self)) {
                (Some(a), Some(b)) => *a == b,
                (None, None) => true,
                _ => false,
            },
    {
        match self {
            LoadState::Loading { previous, .. } => previous.as_ref(),
            LoadState::Stale { previous } => previous.as_ref(),
            LoadState::Failed { previous, .. } => previous.as_ref(),
            LoadState::Loaded(data) => Some(data),
            LoadState::NotLoaded => None,
        }
    }

    pub fn error(&self) -> (r: Option<&String>)
        ensures
            match *self {
                LoadState::Failed { error, .. } => r == Some(&error),
                _ => r is None,
            },
    {
        match self {
            LoadState::Failed { error, .. } => Some(error),
            _ => None,
        }
    }

    pub fn loading_id(&self) -> (r: Option<RequestId>)
        ensures
            match *self {
                LoadState::Loading { request_id, .. } => r == Some(request_id),
                _ => r is None,
            },
    {
        match self {
            LoadState::Loading { request_id, .. } => Some(*request_id),
            _ => None,
        }
    }

    fn take_data(&mut self) -> (r: Option<T>)
        ensures
            r == load_data(*old(self)),
            *final(self) is NotLoaded,
    {
        let mut current = LoadState::NotLoaded;
        std::mem::swap(&mut current, self);
        match current {
            LoadState::Loaded(data) => Some(data),
            LoadState::Loading { previous, .. } => previous,
            LoadState::Stale { previous } => previous,
            LoadState::Failed { previous, .. } => previous,
            LoadState::NotLoaded => None,
        }
    }

    /// Start waiting for `request_id`, keeping the last usable data when
    /// `preserve_previous` is set.
    pub fn begin(&mut self, request_id: RequestId, preserve_previous: bool)
        ensures
            *final(self) == load_began(*old(self), request_id, preserve_previous),
    {
        let previous = if preserve_previous {
            self.take_data()
        } else {
            None
        };
        *self = LoadState::Loading { request_id, previous };
    }

    /// Complete only the currently expected request.
    pub fn finish(&mut self, request_id: RequestId, result: Result<T, String>) -> (accepted: bool)
        ensures
            accepted == load_accepts(*old(self), request_id),
            accepted ==> *final(self) == load_finished(*old(self), result),
            !accepted ==> *final(self) == *old(self),
    {
        let expected = match self {
            LoadState::Loading { request_id: current, .. } => current.same(request_id),
            _ => false,
        };
        if !expected {
            return false;
        }
        let previous = self.take_data();
        *self = match result {
            Ok(data) => LoadState::Loaded(data),
            Err(error) => LoadState::Failed { error, previous },
        };
        true
    }

    /// Invalidate current work while retaining the last usable data.
    pub fn invalidate(&mut self)
        ensures
            *final(self) == (LoadState::Stale { previous: load_data(*old(self)) }),
    {
        let previous = self.take_data();
        *self = LoadState::Stale { previous };
    }

    pub fn fail(&mut self, error: String, preserve_previous: bool)
        ensures
            *final(self) == (LoadState::Failed {
                error,
                previous: if preserve_previous { load_data(*old(self)) } else { None },
            }),
    {
        let previous = if preserve_previous {
            self.take_data()
        } else {
            None
        };
        *self = LoadState::Failed { error, previous };
    }

    pub fn reset(&mut self)
        ensures
            *final(self) is NotLoaded,
    {
        *self = LoadState::NotLoaded;
    }

    pub fn is_loading(&self) -> (r: bool)
        ensures
            r == load_is_loading(*self),
    {
        match self {
            LoadState::Loading { .. } => true,
            _ => false,
        }
    }

    /// Whether the data should be (re)requested: nothing loaded yet, or
    /// invalidated.
    pub fn needs_load(&self) -> (r: bool)
        ensures
            r == (*self is NotLoaded || *self is Stale),
    {
        match self {
            LoadState::NotLoaded | LoadState::Stale { .. } => true,
            _ => false,
        }
    }
}

/// A result for the request that was started last is accepted, and a
/// successful one becomes the loaded data.
pub proof fn lemma_begin_then_finish<T>(s: LoadState<T>, id: RequestId, preserve: bool, data: T)
    ensures
        load_accepts(load_began(s, id, preserve), id),
        load_finished(load_began(s, id, preserve), Ok::<T, String>(data)) == LoadState::<T>::Loaded(
            data,
        ),
{
}

/// Once a newer request has started, a result for an older one is ignored.
pub proof fn lemma_superseded_request_ignored<T>(
    s: LoadState<T>,
    old_id: RequestId,
    new_id: RequestId,
    preserve: bool,
)
    requires
        old_id@ != new_id@,
    ensures
        !load_accepts(load_began(load_began(s, old_id, preserve), new_id, preserve), old_id),
{
}

/// Invalidating, restarting with preservation, and failing with
/// preservation all keep the last usable data; a failed result keeps the
/// data that was shown while loading.
pub proof fn lemma_data_survives<T>(s: LoadState<T>, id: RequestId, error: String)
    ensures
        load_data(LoadState::<T>::Stale { previous: load_data(s) }) == load_data(s),
        load_data(load_began(s, id, true)) == load_data(s),
        load_data(load_finished(load_began(s, id, true), Err::<T, String>(error))) == load_data(s),
{
}

/// Outcome of a background backup.
#[derive(Debug, Clone)]
pub struct BackupResult {
    pub success: bool,
    pub commit: Option<String>,
    pub pushed: bool,
    pub copies: usize,
    pub deletions: usize,
    pub warnings: Vec<String>,
    pub error: Option<String>,
}

/// Outcome of a background check.
#[derive(Debug, Clone)]
pub struct CheckResult {
    pub healthy: bool,
    pub results: Vec<CheckItem>,
}

/// Outcome of a background push.
#[derive(Debug, Clone)]
pub struct PushResult {
    pub success: bool,
    pub error: Option<String>,
}

/// A single check result item for display.
#[derive(Debug, Clone)]
pub struct CheckItem {
    pub label: String,
    pub status: CheckItemStatus,
    pub detail: Option<String>,
}

/// Status of an individual check item.
#[derive(Debug, Clone, Copy, PartialEq, Eq, Structural)]
pub enum CheckItemStatus {
    Passed,
    Warning,
    Error,
}

/// Identifies which user operation is currently running.
#[derive(Debug, Clone, Copy, PartialEq, Eq, Structural)]
pub enum TaskKind {
    Backup,
    Check,
    Push,
}

/// Identifies independently loadable screen data.
#[derive(Debug, Clone, Copy, PartialEq, Eq, Structural)]
pub enum LoadTaskKind {
    RepositoryValidation,
    BackupPreview,
    IgnorePreview,
    AutomationInspection,
}

fn find_status(items: &Vec<CheckItem>, status: CheckItemStatus) -> (r: Option<usize>)
    ensures
        match r {
            Some(i) => i < items.len() && items@[i as int].status == status && forall|j: int|
                0 <= j < i ==> items@[j].status != status,
            None => forall|j: int| 0 <= j < items.len() ==> items@[j].status != status,
        },
{
    let mut i: usize = 0;
    while i < items.len()
        invariant
            i <= items.len(),
            forall|j: int| 0 <= j < i ==> items@[j].status != status,
        decreases items.len() - i,
    {
        if items[i].status == status {
            return Some(i);
        }
        i = i + 1;
    }
    None
}

/// Whether item `i` is the check's first error, or, when there is no
/// error, its first warning.
pub open spec fn is_first_issue(items: Seq<CheckItem>, i: int) -> bool {
    &&& 0 <= i < items.len()
    &&& ((items[i].status == CheckItemStatus::Error && forall|j: int|
        0 <= j < i ==> items[j].status != CheckItemStatus::Error) || (items[i].status
        == CheckItemStatus::Warning && (forall|j: int|
        0 <= j < items.len() ==> items[j].status != CheckItemStatus::Error) && forall|j: int|
        0 <= j < i ==> items[j].status != CheckItemStatus::Warning))
}

/// Index of the first error of a check, or else of its first warning.
pub fn first_issue_index(check: &CheckResult) -> (r: Option<usize>)
    ensures
        match r {
            Some(i) => is_first_issue(check.results@, i as int),
            None => forall|j: int|
                0 <= j < check.results.len() ==> check.results@[j].status == CheckItemStatus::Passed,
        },
{
    match find_status(&check.results, CheckItemStatus::Error) {
        Some(i) => Some(i),
        None => find_status(&check.results, CheckItemStatus::Warning),
    }
}

/// The first reported error of a check, or else its first warning.
pub fn first_check_issue(check: &CheckResult) -> (r: Option<&CheckItem>)
    ensures
        match r {
            Some(item) => exists|i: int|
                #[trigger] is_first_issue(check.results@, i) && check.results@[i] == *item,
            None => forall|j: int|
                0 <= j < check.results.len() ==> check.results@[j].status == CheckItemStatus::Passed,
        },
{
    match first_issue_index(check) {
        Some(i) => {
            assert(is_first_issue(check.results@, i as int));
            Some(&check.results[i])
        },
        None => None,
    }
}


/// The outcome of a finished background job.
#[derive(Debug)]
pub enum TaskResult {
    /// A backup operation completed.
    Backup(BackupResult),
    /// A check operation completed.
    Check(CheckResult),
    /// A push operation completed.
    Push(PushResult),
    RepositoryValidation { request_id: RequestId, result: Result<RepoInfo, String> },
    BackupPreview { request_id: RequestId, result: Result<PreviewData, String> },
    IgnorePreview { request_id: RequestId, source_idx: usize, result: Result<Vec<PreviewEntry>, String> },
    AutomationInspection { request_id: RequestId, result: Result<String, String> },
}

/// Which screen-data request a result answers, if it answers one.
pub open spec fn identity_of(r: TaskResult) -> Option<(LoadTaskKind, u64)> {
    match r {
        TaskResult::RepositoryValidation { request_id, .. } => Some(
            (LoadTaskKind::RepositoryValidation, request_id@),
        ),
        TaskResult::BackupPreview { request_id, .. } => Some((LoadTaskKind::BackupPreview, request_id@)),
        TaskResult::IgnorePreview { request_id, .. } => Some((LoadTaskKind::IgnorePreview, request_id@)),
        TaskResult::AutomationInspection { request_id, .. } => Some(
            (LoadTaskKind::AutomationInspection, request_id@),
        ),
        _ => None,
    }
}

impl TaskResult {
    pub fn load_identity(&self) -> (r: Option<(LoadTaskKind, RequestId)>)
        ensures
            match identity_of(*self) {
                Some((k, id)) => r matches Some((k2, id2)) && k2 == k && id2@ == id,
                None => r is None,
            },
    {
        match self {
            TaskResult::RepositoryValidation { request_id, .. } => Some(
                (LoadTaskKind::RepositoryValidation, *request_id),
            ),
            TaskResult::BackupPreview { request_id, .. } => Some((LoadTaskKind::BackupPreview, *request_id)),
            TaskResult::IgnorePreview { request_id, .. } => Some((LoadTaskKind::IgnorePreview, *request_id)),
            TaskResult::AutomationInspection { request_id, .. } => Some(
                (LoadTaskKind::AutomationInspection, *request_id),
            ),
            TaskResult::Backup(_) | TaskResult::Check(_) | TaskResult::Push(_) => None,
        }
    }
}

/// What a non-blocking look at the result channel found.
#[derive(Debug)]
pub enum Received {
    /// A finished job's result.
    Result(TaskResult),
    /// Nothing has arrived yet.
    Empty,
    /// Every sender is gone (a worker panicked or quit without sending).
    Disconnected,
}

/// Decides which background work may start and which results are still
/// wanted: at most one user operation at a time, and at most one live
/// request per kind of screen data.
pub struct TaskManager {
    /// Which user operation is currently running, if any.
    pub active: Option<TaskKind>,
    repository_validation: Option<RequestId>,
    backup_preview: Option<RequestId>,
    ignore_preview: Option<RequestId>,
    automation_inspection: Option<RequestId>,
    next_request_id: u64,
    /// Every identity handed out so far, in order.
    issued: Ghost<Seq<u64>>,
}

/// Abstract manager: the running operation, the live request of each kind
/// of screen data, and the identity the next request gets.
pub struct TaskModel {
    pub active: Option<TaskKind>,
    pub loads: spec_fn(LoadTaskKind) -> Option<u64>,
    pub next: u64,
    /// Every identity handed out so far, in order.
    pub issued: Seq<u64>,
}

/// The live request of kind `k`.
pub open spec fn live_request(m: TaskModel, k: LoadTaskKind) -> Option<u64> {
    (m.loads)(k)
}

pub open spec fn id_of(r: Option<RequestId>) -> Option<u64> {
    match r {
        Some(id) => Some(id@),
        None => None,
    }
}

impl View for TaskManager {
    type V = TaskModel;

    closed spec fn view(&self) -> TaskModel {
        TaskModel {
            active: self.active,
            loads: |k: LoadTaskKind|
                match k {
                    LoadTaskKind::RepositoryValidation => id_of(self.repository_validation),
                    LoadTaskKind::BackupPreview => id_of(self.backup_preview),
                    LoadTaskKind::IgnorePreview => id_of(self.ignore_preview),
                    LoadTaskKind::AutomationInspection => id_of(self.automation_inspection),
                },
            next: self.next_request_id,
            issued: self.issued@,
        }
    }
}

/// The identity after `n`: counting up, skipping 0 when wrapping.
pub open spec fn id_after(n: u64) -> u64 {
    if n == u64::MAX { 1 } else { (n + 1) as u64 }
}

/// Well-formed managers hand out nonzero identities: those handed out so
/// far, and the next one, follow each other by `id_after` from 1.
pub open spec fn manager_wf(m: TaskModel) -> bool {
    &&& m.next != 0
    &&& m.next == id_after_steps(1, m.issued.len())
    &&& forall|k: int| 0 <= k < m.issued.len() ==> #[trigger] m.issued[k] == id_after_steps(1, k as nat)
}

/// The same live requests except for `kind`, which has `slot`.
pub open spec fn loads_with(m: TaskModel, kind: LoadTaskKind, slot: Option<u64>, k: LoadTaskKind) -> Option<u64> {
    if k == kind { slot } else { live_request(m, k) }
}

/// `n` is `m` with a request of `kind` begun under the next identity.
pub open spec fn load_begun(m: TaskModel, kind: LoadTaskKind, n: TaskModel) -> bool {
    &&& forall|k: LoadTaskKind| #[trigger] live_request(n, k) == loads_with(m, kind, Some(m.next), k)
    &&& n.active == m.active
    &&& n.next == id_after(m.next)
    &&& n.issued == m.issued.push(m.next)
}

impl TaskManager {
    /// Create a new task manager.
    pub fn new() -> (t: Self)
        ensures
            t@.active is None,
            forall|k: LoadTaskKind| #[trigger] live_request(t@, k) is None,
            t@.next == 1,
            t@.issued.len() == 0,
            manager_wf(t@),
    {
        TaskManager {
            active: None,
            repository_validation: None,
            backup_preview: None,
            ignore_preview: None,
            automation_inspection: None,
            next_request_id: 1,
            issued: Ghost(Seq::empty()),
        }
    }

    /// Whether a background task is currently running.
    pub fn is_busy(&self) -> (r: bool)
        ensures
            r == (self@.active is Some),
    {
        self.active.is_some()
    }

    /// Which task is currently running.
    pub fn active_task(&self) -> (r: Option<TaskKind>)
        ensures
            r == self@.active,
    {
        self.active
    }

    fn slot(&self, kind: LoadTaskKind) -> (r: Option<RequestId>)
        ensures
            id_of(r) == live_request(self@, kind),
    {
        match kind {
            LoadTaskKind::RepositoryValidation => self.repository_validation,
            LoadTaskKind::BackupPreview => self.backup_preview,
            LoadTaskKind::IgnorePreview => self.ignore_preview,
            LoadTaskKind::AutomationInspection => self.automation_inspection,
        }
    }

    fn set_slot(&mut self, kind: LoadTaskKind, value: Option<RequestId>)
        ensures
            forall|k: LoadTaskKind| #[trigger] live_request(final(self)@, k) == loads_with(old(self)@, kind, id_of(value), k),
            final(self)@.active == old(self)@.active,
            final(self)@.next == old(self)@.next,
            final(self)@.issued == old(self)@.issued,
    {
        match kind {
            LoadTaskKind::RepositoryValidation => self.repository_validation = value,
            LoadTaskKind::BackupPreview => self.backup_preview = value,
            LoadTaskKind::IgnorePreview => self.ignore_preview = value,
            LoadTaskKind::AutomationInspection => self.automation_inspection = value,
        }
    }

    pub fn is_load_active(&self, kind: LoadTaskKind) -> (r: bool)
        ensures
            r == (live_request(self@, kind) is Some),
    {
        self.slot(kind).is_some()
    }

    /// Forget an invalidated request so a replacement may start immediately.
    pub fn invalidate_load(&mut self, kind: LoadTaskKind)
        ensures
            forall|k: LoadTaskKind| #[trigger] live_request(final(self)@, k) == loads_with(old(self)@, kind, None, k),
            final(self)@.active == old(self)@.active,
            final(self)@.next == old(self)@.next,
            final(self)@.issued == old(self)@.issued,
    {
        self.set_slot(kind, None);
    }

    /// Start a screen-data request of `kind`, unless one is live: the
    /// request gets the next identity.
    pub fn begin_load(&mut self, kind: LoadTaskKind) -> (r: Option<RequestId>)
        ensures
            match live_request(old(self)@, kind) {
                Some(_) => r is None && final(self)@ == old(self)@,
                None => r matches Some(id) && id@ == old(self)@.next && load_begun(old(self)@, kind, final(self)@),
            },
            manager_wf(old(self)@) ==> manager_wf(final(self)@),
            manager_wf(old(self)@) && old(self)@.issued.len() < u64::MAX ==> (r matches Some(id) ==> id@ != 0
                && !old(self)@.issued.contains(id@)),
    {
        if self.slot(kind).is_some() {
            return None;
        }
        let request_id = RequestId(self.next_request_id);
        proof {
            let m = self@;
            if manager_wf(m) && m.issued.len() < u64::MAX {
                assert forall|k: int| 0 <= k < m.issued.len() implies m.issued[k] != m.next by {
                    lemma_ids_unique(1, k as nat, m.issued.len());
                }
            }
        }
        self.issued = Ghost(self.issued@.push(self.next_request_id));
        self.next_request_id = if self.next_request_id == u64::MAX {
            1
        } else {
            self.next_request_id + 1
        };
        self.set_slot(kind, Some(request_id));
        Some(request_id)
    }

    /// Start a user operation, unless one is running.
    pub fn begin_task(&mut self, kind: TaskKind) -> (started: bool)
        ensures
            started == (old(self)@.active is None),
            started ==> final(self)@.active == Some(kind),
            !started ==> final(self)@.active == old(self)@.active,
            final(self)@.loads == old(self)@.loads,
            final(self)@.next == old(self)@.next,
            final(self)@.issued == old(self)@.issued,
    {
        if self.is_busy() {
            return false;
        }
        self.active = Some(kind);
        true
    }

    /// Take what the result channel gave. A screen-data result retires its
    /// request when it is the live one; an operation result ends the
    /// running operation, as does a channel whose senders are all gone.
    pub fn poll(&mut self, received: Received) -> (r: Option<TaskResult>)
        ensures
            match received {
                Received::Result(res) => {
                    &&& r == Some(res)
                    &&& match identity_of(res) {
                        Some((kind, id)) => {
                            &&& final(self)@.active == old(self)@.active
                            &&& forall|k: LoadTaskKind| #[trigger] live_request(final(self)@, k) == if live_request(old(self)@, kind)
                                == Some(id) {
                                loads_with(old(self)@, kind, None, k)
                            } else {
                                live_request(old(self)@, k)
                            }
                        },
                        None => final(self)@.active is None && final(self)@.loads == old(self)@.loads,
                    }
                },
                Received::Empty => r is None && final(self)@ == old(self)@,
                Received::Disconnected => r is None && final(self)@.active is None
                    && final(self)@.loads == old(self)@.loads,
            },
            final(self)@.next == old(self)@.next,
            final(self)@.issued == old(self)@.issued,
    {
        match received {
            Received::Result(result) => {
                match result.load_identity() {
                    Some((kind, request_id)) => {
                        let live = self.slot(kind);
                        match live {
                            Some(id) => {
                                if id.value() == request_id.value() {
                                    self.set_slot(kind, None);
                                }
                            },
                            None => {},
                        }
                    },
                    None => {
                        self.active = None;
                    },
                }
                Some(result)
            },
            Received::Empty => None,
            Received::Disconnected => {
                self.active = None;
                None
            },
        }
    }
}

/// Identities are handed out without ever giving out 0.
pub proof fn lemma_ids_nonzero(n: u64)
    ensures
        id_after(n) != 0,
        n != u64::MAX ==> id_after(n) == n + 1,
{
}

/// The identity a manager hands out `k` requests after one that handed
/// out `start`: each request moves the next identity on by `id_after`.
pub open spec fn id_after_steps(start: u64, k: nat) -> u64
    decreases k,
{
    if k == 0 {
        start
    } else {
        id_after(id_after_steps(start, (k - 1) as nat))
    }
}

proof fn lemma_id_steps_formula(start: u64, k: nat)
    requires
        start != 0,
    ensures
        id_after_steps(start, k) as int == (start - 1 + k) % (u64::MAX as int) + 1,
    decreases k,
{
    let m = u64::MAX as int;
    if k == 0 {
        vstd::arithmetic::div_mod::lemma_small_mod((start - 1) as nat, m as nat);
    } else {
        lemma_id_steps_formula(start, (k - 1) as nat);
        let a = start - 1 + k - 1;
        vstd::arithmetic::div_mod::lemma_mod_pos_bound(a, m);
        vstd::arithmetic::div_mod::lemma_small_mod(1, m as nat);
        vstd::arithmetic::div_mod::lemma_add_mod_noop(a, 1, m);
        if a % m == m - 1 {
            vstd::arithmetic::div_mod::lemma_mod_self_0(m);
        } else {
            vstd::arithmetic::div_mod::lemma_small_mod((a % m + 1) as nat, m as nat);
        }
    }
}

/// Identities that `begin_load` hands out one after another (each request
/// takes the manager's next identity, and the next moves on by `id_after`)
/// are never zero and never repeat within fewer than 2^64 - 1 requests.
pub proof fn lemma_ids_unique(start: u64, i: nat, j: nat)
    requires
        start != 0,
        i < j < u64::MAX,
    ensures
        id_after_steps(start, i) != id_after_steps(start, j),
        id_after_steps(start, i) != 0,
{
    let m = u64::MAX as int;
    lemma_id_steps_formula(start, i);
    lemma_id_steps_formula(start, j);
    let a = start - 1 + i;
    let b = start - 1 + j;
    vstd::arithmetic::div_mod::lemma_mod_pos_bound(a, m);
    vstd::arithmetic::div_mod::lemma_fundamental_div_mod(a, m);
    vstd::arithmetic::div_mod::lemma_fundamental_div_mod(b, m);
    if a % m == b % m {
        let qa = a / m;
        let qb = b / m;
        assert(m * qb - m * qa == j - i);
        assert(false) by (nonlinear_arith)
            requires
                m * qb - m * qa == j - i,
                0 < j - i < m,
                m > 0,
        ;
    }
}

} // verus!
