//! Admission, placement, priority dispatch and the lifecycle of inference tasks.
//!
//! A task is admitted to exactly one device. It is then `Queued`, becomes `Running`
//! when dispatched, and ends in one terminal state that never changes again.
//! Cancelling a running task is cooperative: the task keeps running, and when the
//! device reports its end the task is marked `Cancelled` and the result is dropped.
use std::sync::Arc;
use vstd::prelude::*;
use crate::capabilities::NpuCapabilities;
use crate::types::{
    ComputeUnit, InferenceRequest, InferenceTask, MemoryType, NpuDeviceId, NpuDeviceType, NpuError, NpuUsageStats,
    ResourceAllocation, TaskPriority, TaskStatus, is_terminal, priority_rank, same_device_type,
    status_kind, STATUS_QUEUED, STATUS_RUNNING, STATUS_COMPLETED, STATUS_FAILED, STATUS_CANCELLED,
    STATUS_TIMED_OUT,
};

verus! {

/// What the scheduler knows of one device.
#[derive(Debug)]
pub struct SchedDevice {
    pub id: NpuDeviceId,
    pub device_type: NpuDeviceType,
    pub capabilities: Arc<NpuCapabilities>,
    pub available: bool,
}

/// The part of a task fixed at admission.
#[derive(Debug)]
pub struct TaskRecord {
    pub id: usize,
    /// Position of the chosen device in the scheduler's device list.
    pub device: usize,
    pub priority: TaskPriority,
    pub allocation: ResourceAllocation,
    /// What the task asks the device to run.
    pub request: InferenceRequest,
}

/// Number of `i < n` with `f(i)`.
pub open spec fn count_upto(n: int, f: spec_fn(int) -> bool) -> int
    decreases n,
{
    if n <= 0 {
        0
    } else {
        count_upto(n - 1, f) + if f(n - 1) { 1int } else { 0int }
    }
}

pub proof fn lemma_count_bounds(n: int, f: spec_fn(int) -> bool)
    requires
        n >= 0,
    ensures
        0 <= count_upto(n, f) <= n,
    decreases n,
{
    if n > 0 {
        lemma_count_bounds(n - 1, f);
    }
}

/// Sum of `f(i)` over `i < n`.
pub open spec fn sum_upto(n: int, f: spec_fn(int) -> int) -> int
    decreases n,
{
    if n <= 0 {
        0
    } else {
        sum_upto(n - 1, f) + f(n - 1)
    }
}

pub proof fn lemma_sum_bounds(n: int, f: spec_fn(int) -> int)
    requires
        n >= 0,
        forall|i: int| 0 <= i < n ==> 0 <= #[trigger] f(i) <= u64::MAX,
    ensures
        0 <= sum_upto(n, f) <= n * u64::MAX,
    decreases n,
{
    if n > 0 {
        lemma_sum_bounds(n - 1, f);
    }
}

/// `x`, or `u64::MAX` when it does not fit.
pub open spec fn saturate(x: int) -> u64 {
    if x > u64::MAX {
        u64::MAX
    } else {
        x as u64
    }
}

/// Thousandths of `part` over `whole`, at most 1000, and 0 when `whole` is 0.
pub open spec fn permille_of(part: u64, whole: u64) -> u64 {
    if whole == 0 {
        0
    } else if part as int * 1000 / whole as int > 1000 {
        1000
    } else {
        (part as int * 1000 / whole as int) as u64
    }
}

pub open spec fn units_present(req: Seq<ComputeUnit>, have: Seq<ComputeUnit>) -> bool {
    forall|k: int| 0 <= k < req.len() ==> have.contains(#[trigger] req[k])
}

pub open spec fn memory_kind_ok(req: Option<MemoryType>, have: Seq<MemoryType>) -> bool {
    req matches Some(m) ==> have.contains(m)
}

pub open spec fn id_listed(list: Seq<NpuDeviceId>, id: Seq<char>) -> bool {
    exists|k: int| 0 <= k < list.len() && (#[trigger] list[k])@ == id
}

pub open spec fn type_listed(list: Seq<NpuDeviceType>, t: NpuDeviceType) -> bool {
    exists|k: int| 0 <= k < list.len() && same_device_type(#[trigger] list[k], t)
}

/// The hard constraints of admission: the device has every requested compute unit and
/// the required memory kind, and is not avoided. Anything else (availability, memory
/// left) is found at execution and reported through the task's terminal status.
pub open spec fn eligible(d: SchedDevice, task: InferenceTask) -> bool {
    &&& units_present(task.resource_requirements.compute_units@, d.capabilities.compute.compute_units@)
    &&& memory_kind_ok(task.scheduling_hints.required_memory_type, d.capabilities.memory.supported_memory_types@)
    &&& !id_listed(task.scheduling_hints.avoid_devices@, d.id@)
}

pub open spec fn preferred(d: SchedDevice, task: InferenceTask) -> bool {
    type_listed(task.scheduling_hints.preferred_devices@, d.device_type)
}

pub open spec fn some_eligible(devs: Seq<SchedDevice>, task: InferenceTask) -> bool {
    exists|i: int| 0 <= i < devs.len() && eligible(#[trigger] devs[i], task)
}

pub open spec fn some_preferred_eligible(devs: Seq<SchedDevice>, task: InferenceTask) -> bool {
    exists|i: int| 0 <= i < devs.len() && eligible(#[trigger] devs[i], task) && preferred(devs[i], task)
}

/// Eligible, and preferred whenever some eligible device is preferred.
pub open spec fn candidate(devs: Seq<SchedDevice>, task: InferenceTask, i: int) -> bool {
    &&& 0 <= i < devs.len()
    &&& eligible(devs[i], task)
    &&& (some_preferred_eligible(devs, task) ==> preferred(devs[i], task))
}

pub open spec fn is_active(s: TaskStatus) -> bool {
    s is Queued || s is Running
}

pub open spec fn load_pred(tasks: Seq<TaskRecord>, statuses: Seq<TaskStatus>, d: int) -> spec_fn(int) -> bool {
    |i: int| tasks[i].device == d && is_active(statuses[i])
}

/// Queued and running tasks assigned to device `d`.
pub open spec fn load_on(tasks: Seq<TaskRecord>, statuses: Seq<TaskStatus>, d: int) -> int {
    count_upto(tasks.len() as int, load_pred(tasks, statuses, d))
}

pub open spec fn kind_pred(statuses: Seq<TaskStatus>, kind: int) -> spec_fn(int) -> bool {
    |i: int| status_kind(statuses[i]) == kind
}

/// Tasks whose status is of the given kind.
pub open spec fn count_kind(statuses: Seq<TaskStatus>, kind: int) -> int {
    count_upto(statuses.len() as int, kind_pred(statuses, kind))
}

pub open spec fn available_pred(devs: Seq<SchedDevice>) -> spec_fn(int) -> bool {
    |i: int| devs[i].available
}

/// Memory budget of task `i` while it runs.
pub open spec fn running_memory_pred(tasks: Seq<TaskRecord>, statuses: Seq<TaskStatus>) -> spec_fn(int) -> int {
    |i: int| if statuses[i] is Running { tasks[i].allocation.memory_bytes as int } else { 0int }
}

pub open spec fn total_memory_pred(devs: Seq<SchedDevice>) -> spec_fn(int) -> int {
    |i: int| devs[i].capabilities.memory.total_memory_bytes as int
}

/// Power draw of device `d`: its rated consumption while one of its tasks runs.
pub open spec fn busy_power_pred(devs: Seq<SchedDevice>, tasks: Seq<TaskRecord>, statuses: Seq<TaskStatus>) -> spec_fn(int) -> int {
    |d: int| if running_on(tasks, statuses, d) { devs[d].capabilities.performance.power_consumption_milliwatts as int } else { 0int }
}

pub open spec fn busy_pred(tasks: Seq<TaskRecord>, statuses: Seq<TaskStatus>) -> spec_fn(int) -> bool {
    |d: int| running_on(tasks, statuses, d)
}

/// Lexicographic order on identifiers, by code point.
pub open spec fn lex_less(a: Seq<char>, b: Seq<char>) -> bool
    decreases a.len(),
{
    if a.len() == 0 {
        b.len() > 0
    } else if b.len() == 0 {
        false
    } else if a[0] != b[0] {
        (a[0] as u32) < (b[0] as u32)
    } else {
        lex_less(a.drop_first(), b.drop_first())
    }
}

proof fn lemma_lex_irreflexive(a: Seq<char>)
    ensures
        !lex_less(a, a),
    decreases a.len(),
{
    if a.len() > 0 {
        lemma_lex_irreflexive(a.drop_first());
    }
}

proof fn lemma_placed_before_transitive(
    devs: Seq<SchedDevice>,
    tasks: Seq<TaskRecord>,
    statuses: Seq<TaskStatus>,
    a: int,
    b: int,
    c: int,
)
    requires
        placed_before(devs, tasks, statuses, a, b),
        placed_before(devs, tasks, statuses, b, c),
    ensures
        placed_before(devs, tasks, statuses, a, c),
{
    if load_on(tasks, statuses, a) == load_on(tasks, statuses, b)
        && load_on(tasks, statuses, b) == load_on(tasks, statuses, c) {
        lemma_lex_transitive(devs[a].id@, devs[b].id@, devs[c].id@);
    }
}

proof fn lemma_lex_transitive(a: Seq<char>, b: Seq<char>, c: Seq<char>)
    requires
        lex_less(a, b),
        lex_less(b, c),
    ensures
        lex_less(a, c),
    decreases a.len(),
{
    if a.len() > 0 && b.len() > 0 && c.len() > 0 && a[0] == b[0] && b[0] == c[0] {
        lemma_lex_transitive(a.drop_first(), b.drop_first(), c.drop_first());
    }
}

/// Device `i` goes before device `j` in the tie-break: less loaded, or equally loaded
/// with a smaller identifier.
pub open spec fn placed_before(
    devs: Seq<SchedDevice>,
    tasks: Seq<TaskRecord>,
    statuses: Seq<TaskStatus>,
    i: int,
    j: int,
) -> bool {
    ||| load_on(tasks, statuses, i) < load_on(tasks, statuses, j)
    ||| load_on(tasks, statuses, i) == load_on(tasks, statuses, j) && lex_less(devs[i].id@, devs[j].id@)
}

/// Device `i` is where admission places `task`: a candidate that no other candidate
/// goes before.
pub open spec fn is_selected(
    devs: Seq<SchedDevice>,
    tasks: Seq<TaskRecord>,
    statuses: Seq<TaskStatus>,
    task: InferenceTask,
    i: int,
) -> bool {
    &&& candidate(devs, task, i)
    &&& forall|j: int| #[trigger] candidate(devs, task, j) ==> !placed_before(devs, tasks, statuses, j, i)
}

/// Task `a` is dispatched before task `b`: higher priority, or equal priority and
/// submitted earlier.
pub open spec fn runs_before(a: TaskRecord, b: TaskRecord) -> bool {
    ||| priority_rank(a.priority) < priority_rank(b.priority)
    ||| priority_rank(a.priority) == priority_rank(b.priority) && a.id < b.id
}

pub open spec fn queued_on(tasks: Seq<TaskRecord>, statuses: Seq<TaskStatus>, d: int) -> bool {
    exists|i: int| 0 <= i < tasks.len() && tasks[i].device == d && #[trigger] statuses[i] is Queued
}

pub open spec fn running_on(tasks: Seq<TaskRecord>, statuses: Seq<TaskStatus>, d: int) -> bool {
    exists|i: int| 0 <= i < tasks.len() && tasks[i].device == d && #[trigger] statuses[i] is Running
}

/// Task `i` is the queued task of device `d` that dispatch takes next.
pub open spec fn next_in_queue(tasks: Seq<TaskRecord>, statuses: Seq<TaskStatus>, d: int, i: int) -> bool {
    &&& 0 <= i < tasks.len()
    &&& tasks[i].device == d
    &&& statuses[i] is Queued
    &&& forall|j: int|
        0 <= j < tasks.len() && j != i && tasks[j].device == d && #[trigger] statuses[j] is Queued
            ==> runs_before(tasks[i], tasks[j])
}

/// One step of the scheduler's history: tasks are only added, keep their identity, and
/// a terminal status is never changed, nor a running task queued again.
pub open spec fn stable_step(
    a_tasks: Seq<TaskRecord>,
    a_status: Seq<TaskStatus>,
    b_tasks: Seq<TaskRecord>,
    b_status: Seq<TaskStatus>,
) -> bool {
    &&& a_tasks.len() <= b_tasks.len()
    &&& forall|i: int| 0 <= i < a_tasks.len() ==> #[trigger] b_tasks[i] == a_tasks[i]
    &&& forall|i: int| 0 <= i < a_tasks.len() && is_terminal(#[trigger] a_status[i]) ==> b_status[i] == a_status[i]
    &&& forall|i: int| 0 <= i < a_tasks.len() && #[trigger] a_status[i] is Running ==> !(b_status[i] is Queued)
}

/// Terminal statuses stay as they are over any sequence of scheduler operations:
/// the step relation composes.
pub proof fn lemma_terminal_stable(
    a_tasks: Seq<TaskRecord>,
    a_status: Seq<TaskStatus>,
    b_tasks: Seq<TaskRecord>,
    b_status: Seq<TaskStatus>,
    c_tasks: Seq<TaskRecord>,
    c_status: Seq<TaskStatus>,
)
    requires
        stable_step(a_tasks, a_status, b_tasks, b_status),
        stable_step(b_tasks, b_status, c_tasks, c_status),
    ensures
        stable_step(a_tasks, a_status, c_tasks, c_status),
{
    assert forall|i: int| 0 <= i < a_tasks.len() && is_terminal(#[trigger] a_status[i]) implies c_status[i] == a_status[i] by {
        assert(b_status[i] == a_status[i]);
    }
    assert forall|i: int| 0 <= i < a_tasks.len() && #[trigger] a_status[i] is Running implies !(c_status[i] is Queued) by {
        assert(!(b_status[i] is Queued));
        if b_status[i] is Running {
        } else {
            assert(is_terminal(b_status[i]));
        }
    }
    assert forall|i: int| 0 <= i < a_tasks.len() implies #[trigger] c_tasks[i] == a_tasks[i] by {
        assert(b_tasks[i] == a_tasks[i]);
    }
}

/// Every task of a scheduler has its own id: ids are positions in the task table,
/// given out in submission order.
pub proof fn lemma_task_ids_distinct(s: NpuScheduler)
    requires
        s.wf(),
    ensures
        forall|i: int, j: int|
            0 <= i < s.tasks@.len() && 0 <= j < s.tasks@.len() && i != j
                ==> (#[trigger] s.tasks@[i]).id != (#[trigger] s.tasks@[j]).id,
{
    assert forall|i: int, j: int|
        0 <= i < s.tasks@.len() && 0 <= j < s.tasks@.len() && i != j
            implies (#[trigger] s.tasks@[i]).id != (#[trigger] s.tasks@[j]).id by {
        assert(s.tasks@[i].id == i);
        assert(s.tasks@[j].id == j);
    }
}

/// A task that every device avoids is never admitted: no device is eligible for it.
pub proof fn lemma_avoiding_all_devices_rejects(devs: Seq<SchedDevice>, task: InferenceTask)
    requires
        forall|i: int| 0 <= i < devs.len() ==> id_listed(task.scheduling_hints.avoid_devices@, (#[trigger] devs[i]).id@),
    ensures
        !some_eligible(devs, task),
{
}

fn id_less(a: &NpuDeviceId, b: &NpuDeviceId) -> (r: bool)
    ensures
        r == lex_less(a@, b@),
{
    let sa = a.as_str();
    let sb = b.as_str();
    let la = sa.unicode_len();
    let lb = sb.unicode_len();
    let mut i: usize = 0;
    assert(a@.subrange(0, la as int) =~= a@);
    assert(b@.subrange(0, lb as int) =~= b@);
    while i < la && i < lb
        invariant
            i <= la,
            i <= lb,
            la == a@.len(),
            lb == b@.len(),
            sa@ == a@,
            sb@ == b@,
            lex_less(a@, b@) == lex_less(a@.subrange(i as int, la as int), b@.subrange(i as int, lb as int)),
        decreases la - i,
    {
        let ca = sa.get_char(i);
        let cb = sb.get_char(i);
        let ghost ra = a@.subrange(i as int, la as int);
        let ghost rb = b@.subrange(i as int, lb as int);
        assert(ra[0] == ca && rb[0] == cb);
        if ca != cb {
            return (ca as u32) < (cb as u32);
        }
        assert(ra.drop_first() =~= a@.subrange(i + 1, la as int));
        assert(rb.drop_first() =~= b@.subrange(i + 1, lb as int));
        i = i + 1;
    }
    i == la && i < lb
}

/// Device-side bookkeeping of a scheduler: the devices it places work on and, for each
/// admitted task, its record, its status and whether cancellation was requested.
#[derive(Debug)]
pub struct NpuScheduler {
    pub devices: Vec<SchedDevice>,
    pub tasks: Vec<TaskRecord>,
    pub statuses: Vec<TaskStatus>,
    pub cancel_requested: Vec<bool>,
}

impl NpuScheduler {
    pub open spec fn wf(&self) -> bool {
        &&& self.tasks@.len() == self.statuses@.len()
        &&& self.tasks@.len() == self.cancel_requested@.len()
        &&& forall|i: int| 0 <= i < self.tasks@.len() ==> {
            &&& (#[trigger] self.tasks@[i]).id == i
            &&& self.tasks@[i].device < self.devices@.len()
            &&& self.tasks@[i].allocation.device_id@ == self.devices@[self.tasks@[i].device as int].id@
        }
    }

    /// A scheduler bound to `devices`, with no tasks.
    pub fn new(devices: Vec<SchedDevice>) -> (r: Self)
        ensures
            r.wf(),
            r.devices == devices,
            r.tasks@.len() == 0,
    {
        NpuScheduler { devices, tasks: Vec::new(), statuses: Vec::new(), cancel_requested: Vec::new() }
    }

    pub fn device_count(&self) -> (r: usize)
        ensures
            r == self.devices@.len(),
    {
        self.devices.len()
    }

    pub fn task_count(&self) -> (r: usize)
        ensures
            r == self.tasks@.len(),
    {
        self.tasks.len()
    }

    fn device_eligible(&self, d: usize, task: &InferenceTask) -> (r: bool)
        requires
            d < self.devices@.len(),
        ensures
            r == eligible(self.devices@[d as int], *task),
    {
        let dev = &self.devices[d];
        let req = &task.resource_requirements.compute_units;
        let mut k: usize = 0;
        while k < req.len()
            invariant
                0 <= k <= req@.len(),
                dev == self.devices@[d as int],
                req == task.resource_requirements.compute_units,
                forall|j: int| 0 <= j < k ==> dev.capabilities.compute.compute_units@.contains(#[trigger] req@[j]),
            decreases req@.len() - k,
        {
            if !dev.capabilities.has_compute_unit(&req[k]) {
                return false;
            }
            k = k + 1;
        }
        match task.scheduling_hints.required_memory_type {
            Some(m) => {
                if !dev.capabilities.supports_memory_type(&m) {
                    return false;
                }
            },
            None => {},
        }
        let avoid = &task.scheduling_hints.avoid_devices;
        let mut a: usize = 0;
        while a < avoid.len()
            invariant
                0 <= a <= avoid@.len(),
                dev == self.devices@[d as int],
                avoid == task.scheduling_hints.avoid_devices,
                forall|j: int| 0 <= j < a ==> (#[trigger] avoid@[j])@ != dev.id@,
            decreases avoid@.len() - a,
        {
            if avoid[a].same_as(&dev.id) {
                return false;
            }
            a = a + 1;
        }
        true
    }

    fn device_preferred(&self, d: usize, task: &InferenceTask) -> (r: bool)
        requires
            d < self.devices@.len(),
        ensures
            r == preferred(self.devices@[d as int], *task),
    {
        let dev = &self.devices[d];
        let pref = &task.scheduling_hints.preferred_devices;
        let mut k: usize = 0;
        while k < pref.len()
            invariant
                0 <= k <= pref@.len(),
                dev == self.devices@[d as int],
                pref == task.scheduling_hints.preferred_devices,
                forall|j: int| 0 <= j < k ==> !same_device_type(#[trigger] pref@[j], dev.device_type),
            decreases pref@.len() - k,
        {
            if pref[k].same_as(&dev.device_type) {
                assert(same_device_type(pref@[k as int], dev.device_type));
                return true;
            }
            k = k + 1;
        }
        false
    }

    /// Queued and running tasks assigned to device `d`.
    pub fn load_of(&self, d: usize) -> (r: usize)
        requires
            self.wf(),
        ensures
            r == load_on(self.tasks@, self.statuses@, d as int),
    {
        let mut c: usize = 0;
        let mut i: usize = 0;
        while i < self.tasks.len()
            invariant
                self.wf(),
                0 <= i <= self.tasks@.len(),
                c as int == count_upto(i as int, load_pred(self.tasks@, self.statuses@, d as int)),
            decreases self.tasks@.len() - i,
        {
            proof {
                lemma_count_bounds(i as int, load_pred(self.tasks@, self.statuses@, d as int));
            }
            let k = self.statuses[i].kind();
            if self.tasks[i].device == d && (k == STATUS_QUEUED || k == STATUS_RUNNING) {
                c = c + 1;
            }
            i = i + 1;
        }
        c
    }

    /// The device admission places `task` on: among the eligible devices, the preferred
    /// ones if any is eligible, then the least loaded, then the smallest identifier.
    pub fn select_device(&self, task: &InferenceTask) -> (r: Option<usize>)
        requires
            self.wf(),
        ensures
            r is None <==> !some_eligible(self.devices@, *task),
            r matches Some(i) ==> is_selected(self.devices@, self.tasks@, self.statuses@, *task, i as int),
    {
        let ghost devs = self.devices@;
        let mut any_pref = false;
        let mut i: usize = 0;
        while i < self.devices.len()
            invariant
                0 <= i <= devs.len(),
                devs == self.devices@,
                any_pref <==> exists|j: int| 0 <= j < i && eligible(#[trigger] devs[j], *task) && preferred(devs[j], *task),
            decreases devs.len() - i,
        {
            if self.device_eligible(i, task) && self.device_preferred(i, task) {
                any_pref = true;
            }
            i = i + 1;
        }
        assert(any_pref == some_preferred_eligible(devs, *task));
        let mut best: Option<usize> = None;
        let mut best_load: usize = 0;
        let mut i: usize = 0;
        while i < self.devices.len()
            invariant
                self.wf(),
                0 <= i <= devs.len(),
                devs == self.devices@,
                any_pref == some_preferred_eligible(devs, *task),
                best is None ==> forall|j: int| 0 <= j < i ==> !#[trigger] candidate(devs, *task, j),
                best matches Some(b) ==> {
                    &&& b < i
                    &&& candidate(devs, *task, b as int)
                    &&& best_load == load_on(self.tasks@, self.statuses@, b as int)
                    &&& forall|j: int| 0 <= j < i && #[trigger] candidate(devs, *task, j)
                        ==> !placed_before(devs, self.tasks@, self.statuses@, j, b as int)
                },
            decreases devs.len() - i,
        {
            let is_candidate = self.device_eligible(i, task) && (!any_pref || self.device_preferred(i, task));
            if is_candidate {
                assert(candidate(devs, *task, i as int));
                let l = self.load_of(i);
                match best {
                    None => {
                        proof {
                            lemma_lex_irreflexive(devs[i as int].id@);
                        }
                        best = Some(i);
                        best_load = l;
                    },
                    Some(b) => {
                        if l < best_load || (l == best_load && id_less(&self.devices[i].id, &self.devices[b].id)) {
                            proof {
                                lemma_lex_irreflexive(devs[i as int].id@);
                                assert forall|j: int| 0 <= j < i + 1 && #[trigger] candidate(devs, *task, j)
                                    implies !placed_before(devs, self.tasks@, self.statuses@, j, i as int) by {
                                    if j < i && placed_before(devs, self.tasks@, self.statuses@, j, i as int) {
                                        lemma_placed_before_transitive(devs, self.tasks@, self.statuses@, j, i as int, b as int);
                                    }
                                }
                            }
                            best = Some(i);
                            best_load = l;
                        }
                    },
                }
            }
            i = i + 1;
        }
        proof {
            if some_eligible(devs, *task) {
                if any_pref {
                    let w = choose|w: int| 0 <= w < devs.len() && eligible(#[trigger] devs[w], *task) && preferred(devs[w], *task);
                    assert(candidate(devs, *task, w));
                } else {
                    let w = choose|w: int| 0 <= w < devs.len() && eligible(#[trigger] devs[w], *task);
                    assert(candidate(devs, *task, w));
                }
            }
            if let Some(b) = best {
                assert(eligible(devs[b as int], *task));
            }
        }
        best
    }

    /// Admits a task: places it on a device (see `select_device`), gives it the next
    /// task id and queues it. Refused with `InsufficientResources`, and nothing queued,
    /// when no device satisfies its hard constraints.
    pub fn submit_task(&mut self, task: InferenceTask) -> (r: Result<usize, NpuError>)
        requires
            old(self).wf(),
        ensures
            final(self).wf(),
            final(self).devices == old(self).devices,
            stable_step(old(self).tasks@, old(self).statuses@, final(self).tasks@, final(self).statuses@),
            r is Err <==> !some_eligible(old(self).devices@, task),
            r is Err ==> r matches Err(NpuError::InsufficientResources(_)),
            r is Err ==> final(self).tasks@ == old(self).tasks@ && final(self).statuses@ == old(self).statuses@
                && final(self).cancel_requested@ == old(self).cancel_requested@,
            r matches Ok(id) ==> {
                &&& id == old(self).tasks@.len()
                &&& forall|j: int| 0 <= j < old(self).tasks@.len() ==> (#[trigger] old(self).tasks@[j]).id != id
                &&& final(self).tasks@.len() == old(self).tasks@.len() + 1
                &&& final(self).tasks@.drop_last() == old(self).tasks@
                &&& final(self).statuses@ == old(self).statuses@.push(TaskStatus::Queued)
                &&& final(self).cancel_requested@ == old(self).cancel_requested@.push(false)
                &&& is_selected(old(self).devices@, old(self).tasks@, old(self).statuses@, task, final(self).tasks@[id as int].device as int)
                &&& final(self).tasks@[id as int].priority == task.priority
                &&& final(self).tasks@[id as int].request == task.request
                &&& final(self).tasks@[id as int].allocation.compute_units@ == task.resource_requirements.compute_units@
                &&& final(self).tasks@[id as int].allocation.memory_bytes == task.resource_requirements.memory_bytes
                &&& final(self).tasks@[id as int].allocation.power_budget_milliwatts == task.resource_requirements.power_budget_milliwatts
                &&& final(self).tasks@[id as int].allocation.timeout_ms == task.resource_requirements.timeout_ms
            },
    {
        match self.select_device(&task) {
            None => Err(NpuError::InsufficientResources(String::from_str("no device satisfies the task's constraints"))),
            Some(d) => {
                let id = self.tasks.len();
                let allocation = ResourceAllocation {
                    device_id: self.devices[d].id.duplicate(),
                    compute_units: task.resource_requirements.compute_units,
                    memory_bytes: task.resource_requirements.memory_bytes,
                    power_budget_milliwatts: task.resource_requirements.power_budget_milliwatts,
                    timeout_ms: task.resource_requirements.timeout_ms,
                };
                self.tasks.push(TaskRecord { id, device: d, priority: task.priority, allocation, request: task.request });
                self.statuses.push(TaskStatus::Queued);
                self.cancel_requested.push(false);
                proof {
                    assert(self.tasks@.drop_last() =~= old(self).tasks@);
                    assert forall|i: int| 0 <= i < self.tasks@.len() implies {
                        &&& (#[trigger] self.tasks@[i]).id == i
                        &&& self.tasks@[i].device < self.devices@.len()
                        &&& self.tasks@[i].allocation.device_id@ == self.devices@[self.tasks@[i].device as int].id@
                    } by {
                        if i < old(self).tasks@.len() {
                            assert(self.tasks@[i] == old(self).tasks@[i]);
                        }
                    }
                }
                Ok(id)
            },
        }
    }

    fn device_running(&self, d: usize) -> (r: bool)
        requires
            self.wf(),
        ensures
            r == running_on(self.tasks@, self.statuses@, d as int),
    {
        let mut i: usize = 0;
        while i < self.tasks.len()
            invariant
                self.wf(),
                0 <= i <= self.tasks@.len(),
                forall|j: int| 0 <= j < i ==> !(self.tasks@[j].device == d && #[trigger] self.statuses@[j] is Running),
            decreases self.tasks@.len() - i,
        {
            if self.tasks[i].device == d && self.statuses[i].kind() == STATUS_RUNNING {
                return true;
            }
            i = i + 1;
        }
        false
    }

    /// Starts the next queued task of device `d`: highest priority first, and among equal
    /// priorities the earliest submitted. A device without concurrent inference starts
    /// nothing while one of its tasks runs. Running tasks are never preempted.
    pub fn dispatch(&mut self, d: usize) -> (r: Option<usize>)
        requires
            old(self).wf(),
            d < old(self).devices@.len(),
        ensures
            final(self).wf(),
            final(self).devices == old(self).devices,
            final(self).tasks == old(self).tasks,
            final(self).cancel_requested == old(self).cancel_requested,
            stable_step(old(self).tasks@, old(self).statuses@, final(self).tasks@, final(self).statuses@),
            r is None <==> !queued_on(old(self).tasks@, old(self).statuses@, d as int) || (
                !old(self).devices@[d as int].capabilities.compute.concurrent_inference
                    && running_on(old(self).tasks@, old(self).statuses@, d as int)),
            r is None ==> final(self).statuses == old(self).statuses,
            r matches Some(i) ==> {
                &&& next_in_queue(old(self).tasks@, old(self).statuses@, d as int, i as int)
                &&& final(self).statuses@ == old(self).statuses@.update(i as int, TaskStatus::Running)
            },
    {
        if !self.devices[d].capabilities.compute.concurrent_inference && self.device_running(d) {
            return None;
        }
        let mut best: Option<usize> = None;
        let mut i: usize = 0;
        while i < self.tasks.len()
            invariant
                self.wf(),
                *self == *old(self),
                0 <= i <= self.tasks@.len(),
                best is None ==> forall|j: int| 0 <= j < i ==> !(self.tasks@[j].device == d && #[trigger] self.statuses@[j] is Queued),
                best matches Some(b) ==> {
                    &&& b < i
                    &&& self.tasks@[b as int].device == d
                    &&& self.statuses@[b as int] is Queued
                    &&& forall|j: int| 0 <= j < i && j != b && self.tasks@[j].device == d && #[trigger] self.statuses@[j] is Queued
                        ==> runs_before(self.tasks@[b as int], self.tasks@[j])
                },
            decreases self.tasks@.len() - i,
        {
            if self.tasks[i].device == d && self.statuses[i].kind() == STATUS_QUEUED {
                match best {
                    None => {
                        best = Some(i);
                    },
                    Some(b) => {
                        let ri = self.tasks[i].priority.rank();
                        let rb = self.tasks[b].priority.rank();
                        if ri < rb {
                            best = Some(i);
                        }
                    },
                }
            }
            i = i + 1;
        }
        match best {
            None => None,
            Some(b) => {
                self.statuses.set(b, TaskStatus::Running);
                Some(b)
            },
        }
    }

    /// Records the end of a running task. `outcome` must be terminal; a task whose
    /// cancellation was requested ends `Cancelled` whatever the outcome. Returns whether
    /// anything changed: only a running task can end.
    pub fn finish_task(&mut self, task_id: usize, outcome: TaskStatus) -> (r: bool)
        requires
            old(self).wf(),
        ensures
            final(self).wf(),
            final(self).devices == old(self).devices,
            final(self).tasks == old(self).tasks,
            final(self).cancel_requested == old(self).cancel_requested,
            stable_step(old(self).tasks@, old(self).statuses@, final(self).tasks@, final(self).statuses@),
            r == (task_id < old(self).tasks@.len() && old(self).statuses@[task_id as int] is Running && is_terminal(outcome)),
            !r ==> final(self).statuses == old(self).statuses,
            r ==> final(self).statuses@ == old(self).statuses@.update(
                task_id as int,
                if old(self).cancel_requested@[task_id as int] { TaskStatus::Cancelled } else { outcome },
            ),
    {
        if task_id >= self.tasks.len() || self.statuses[task_id].kind() != STATUS_RUNNING || !outcome.is_terminal() {
            return false;
        }
        if self.cancel_requested[task_id] {
            self.statuses.set(task_id, TaskStatus::Cancelled);
        } else {
            self.statuses.set(task_id, outcome);
        }
        true
    }

    /// Cancels a task. A queued task is cancelled at once; for a running one the request
    /// is recorded and takes effect when it ends. Unknown and finished tasks are left as
    /// they are. Never an error.
    pub fn cancel_task(&mut self, task_id: usize) -> (r: Result<(), NpuError>)
        requires
            old(self).wf(),
        ensures
            r is Ok,
            final(self).wf(),
            final(self).devices == old(self).devices,
            final(self).tasks == old(self).tasks,
            stable_step(old(self).tasks@, old(self).statuses@, final(self).tasks@, final(self).statuses@),
            task_id < old(self).tasks@.len() && old(self).statuses@[task_id as int] is Queued ==> {
                &&& final(self).statuses@ == old(self).statuses@.update(task_id as int, TaskStatus::Cancelled)
                &&& final(self).cancel_requested == old(self).cancel_requested
            },
            task_id < old(self).tasks@.len() && old(self).statuses@[task_id as int] is Running ==> {
                &&& final(self).statuses == old(self).statuses
                &&& final(self).cancel_requested@ == old(self).cancel_requested@.update(task_id as int, true)
            },
            !(task_id < old(self).tasks@.len() && is_active(old(self).statuses@[task_id as int])) ==> {
                &&& final(self).statuses == old(self).statuses
                &&& final(self).cancel_requested == old(self).cancel_requested
            },
    {
        if task_id >= self.tasks.len() {
            return Ok(());
        }
        let k = self.statuses[task_id].kind();
        if k == STATUS_QUEUED {
            self.statuses.set(task_id, TaskStatus::Cancelled);
        } else if k == STATUS_RUNNING {
            self.cancel_requested.set(task_id, true);
        }
        Ok(())
    }

    /// The status of a task; `None` for an id never issued.
    pub fn get_task_status(&self, task_id: usize) -> (r: Option<TaskStatus>)
        requires
            self.wf(),
        ensures
            task_id < self.tasks@.len() ==> r == Some(self.statuses@[task_id as int]),
            task_id >= self.tasks@.len() ==> r is None,
    {
        if task_id < self.tasks.len() {
            Some(self.statuses[task_id].duplicate())
        } else {
            None
        }
    }

    /// The request of a task; `None` for an id never issued.
    pub fn get_request(&self, task_id: usize) -> (r: Option<&InferenceRequest>)
        requires
            self.wf(),
        ensures
            task_id < self.tasks@.len() ==> r == Some(&self.tasks@[task_id as int].request),
            task_id >= self.tasks@.len() ==> r is None,
    {
        if task_id < self.tasks.len() {
            Some(&self.tasks[task_id].request)
        } else {
            None
        }
    }

    /// The device a task was placed on; `None` for an id never issued.
    pub fn get_task_device(&self, task_id: usize) -> (r: Option<usize>)
        requires
            self.wf(),
        ensures
            task_id < self.tasks@.len() ==> r == Some(self.tasks@[task_id as int].device),
            task_id >= self.tasks@.len() ==> r is None,
    {
        if task_id < self.tasks.len() {
            Some(self.tasks[task_id].device)
        } else {
            None
        }
    }

    /// The resources bound to a task at admission; `None` for an id never issued.
    pub fn get_allocation(&self, task_id: usize) -> (r: Option<&ResourceAllocation>)
        requires
            self.wf(),
        ensures
            task_id < self.tasks@.len() ==> r == Some(&self.tasks@[task_id as int].allocation),
            task_id >= self.tasks@.len() ==> r is None,
    {
        if task_id < self.tasks.len() {
            Some(&self.tasks[task_id].allocation)
        } else {
            None
        }
    }

    /// Marks a device as taking work or not; its tasks are left as they are.
    pub fn set_device_available(&mut self, d: usize, available: bool)
        requires
            old(self).wf(),
            d < old(self).devices@.len(),
        ensures
            final(self).wf(),
            final(self).tasks == old(self).tasks,
            final(self).statuses == old(self).statuses,
            final(self).cancel_requested == old(self).cancel_requested,
            final(self).devices@.len() == old(self).devices@.len(),
            final(self).devices@[d as int].available == available,
            final(self).devices@[d as int].id == old(self).devices@[d as int].id,
            final(self).devices@[d as int].device_type == old(self).devices@[d as int].device_type,
            final(self).devices@[d as int].capabilities == old(self).devices@[d as int].capabilities,
            forall|j: int| 0 <= j < old(self).devices@.len() && j != d ==> final(self).devices@[j] == old(self).devices@[j],
    {
        self.devices[d].available = available;
        proof {
            assert forall|i: int| 0 <= i < self.tasks@.len() implies {
                &&& (#[trigger] self.tasks@[i]).id == i
                &&& self.tasks@[i].device < self.devices@.len()
                &&& self.tasks@[i].allocation.device_id@ == self.devices@[self.tasks@[i].device as int].id@
            } by {
                assert(old(self).tasks@[i] == self.tasks@[i]);
            }
        }
    }

    fn count_status(&self, kind: u8) -> (r: usize)
        requires
            self.wf(),
        ensures
            r == count_kind(self.statuses@, kind as int),
    {
        let mut c: usize = 0;
        let mut i: usize = 0;
        while i < self.statuses.len()
            invariant
                0 <= i <= self.statuses@.len(),
                c as int == count_upto(i as int, kind_pred(self.statuses@, kind as int)),
            decreases self.statuses@.len() - i,
        {
            proof {
                lemma_count_bounds(i as int, kind_pred(self.statuses@, kind as int));
            }
            if self.statuses[i].kind() == kind {
                c = c + 1;
            }
            i = i + 1;
        }
        c
    }

    /// The usage figures of the current state.
    pub open spec fn usage_view(&self) -> NpuUsageStats {
        let total = self.devices@.len();
        let busy = count_upto(total as int, busy_pred(self.tasks@, self.statuses@));
        NpuUsageStats {
            total_devices: total as usize,
            active_devices: count_upto(total as int, available_pred(self.devices@)) as usize,
            busy_devices: busy as usize,
            compute_utilization_permille: if total == 0 { 0 } else { (busy * 1000 / total as int) as u64 },
            tasks_completed: count_kind(self.statuses@, 2) as usize,
            tasks_failed: count_kind(self.statuses@, 3) as usize,
            tasks_cancelled: count_kind(self.statuses@, 4) as usize,
            tasks_timed_out: count_kind(self.statuses@, 5) as usize,
            running_tasks: count_kind(self.statuses@, 1) as usize,
            queued_tasks: count_kind(self.statuses@, 0) as usize,
            memory_in_use_bytes: self.memory_in_use_view(),
            memory_total_bytes: self.memory_total_view(),
            memory_utilization_permille: permille_of(self.memory_in_use_view(), self.memory_total_view()),
            power_consumption_milliwatts: saturate(sum_upto(total as int, busy_power_pred(self.devices@, self.tasks@, self.statuses@))),
        }
    }

    /// Memory budgets of the running tasks, saturated to `u64`.
    pub open spec fn memory_in_use_view(&self) -> u64 {
        saturate(sum_upto(self.tasks@.len() as int, running_memory_pred(self.tasks@, self.statuses@)))
    }

    /// Total memory of the devices, saturated to `u64`.
    pub open spec fn memory_total_view(&self) -> u64 {
        saturate(sum_upto(self.devices@.len() as int, total_memory_pred(self.devices@)))
    }

    fn running_memory(&self) -> (r: u64)
        requires
            self.wf(),
        ensures
            r == self.memory_in_use_view(),
    {
        let ghost f = running_memory_pred(self.tasks@, self.statuses@);
        let mut acc: u128 = 0;
        let mut i: usize = 0;
        while i < self.tasks.len()
            invariant
                self.wf(),
                f == running_memory_pred(self.tasks@, self.statuses@),
                0 <= i <= self.tasks@.len(),
                acc as int == sum_upto(i as int, f),
                acc <= i as int * 18446744073709551615,
            decreases self.tasks@.len() - i,
        {
            if self.statuses[i].kind() == STATUS_RUNNING {
                acc = acc + self.tasks[i].allocation.memory_bytes as u128;
            }
            i = i + 1;
        }
        if acc > u64::MAX as u128 { u64::MAX } else { acc as u64 }
    }

    fn total_memory(&self) -> (r: u64)
        ensures
            r == self.memory_total_view(),
    {
        let ghost f = total_memory_pred(self.devices@);
        let mut acc: u128 = 0;
        let mut i: usize = 0;
        while i < self.devices.len()
            invariant
                f == total_memory_pred(self.devices@),
                0 <= i <= self.devices@.len(),
                acc as int == sum_upto(i as int, f),
                acc <= i as int * 18446744073709551615,
            decreases self.devices@.len() - i,
        {
            acc = acc + self.devices[i].capabilities.memory.total_memory_bytes as u128;
            i = i + 1;
        }
        if acc > u64::MAX as u128 { u64::MAX } else { acc as u64 }
    }

    fn busy_power(&self) -> (r: u64)
        requires
            self.wf(),
        ensures
            r == saturate(sum_upto(self.devices@.len() as int, busy_power_pred(self.devices@, self.tasks@, self.statuses@))),
    {
        let ghost f = busy_power_pred(self.devices@, self.tasks@, self.statuses@);
        let mut acc: u128 = 0;
        let mut d: usize = 0;
        while d < self.devices.len()
            invariant
                self.wf(),
                f == busy_power_pred(self.devices@, self.tasks@, self.statuses@),
                0 <= d <= self.devices@.len(),
                acc as int == sum_upto(d as int, f),
                acc <= d as int * 18446744073709551615,
            decreases self.devices@.len() - d,
        {
            if self.device_running(d) {
                acc = acc + self.devices[d].capabilities.performance.power_consumption_milliwatts as u128;
            }
            d = d + 1;
        }
        if acc > u64::MAX as u128 { u64::MAX } else { acc as u64 }
    }

    /// Usage recomputed from the current state.
    pub fn get_usage_stats(&self) -> (r: NpuUsageStats)
        requires
            self.wf(),
        ensures
            r == self.usage_view(),
            r.total_devices == self.devices@.len(),
            r.active_devices == count_upto(self.devices@.len() as int, available_pred(self.devices@)),
            r.busy_devices == count_upto(self.devices@.len() as int, busy_pred(self.tasks@, self.statuses@)),
            r.compute_utilization_permille == if self.devices@.len() == 0 {
                0
            } else {
                r.busy_devices as int * 1000 / self.devices@.len() as int
            },
            r.queued_tasks == count_kind(self.statuses@, 0),
            r.running_tasks == count_kind(self.statuses@, 1),
            r.tasks_completed == count_kind(self.statuses@, 2),
            r.tasks_failed == count_kind(self.statuses@, 3),
            r.tasks_cancelled == count_kind(self.statuses@, 4),
            r.tasks_timed_out == count_kind(self.statuses@, 5),
            r.memory_in_use_bytes == self.memory_in_use_view(),
            r.memory_total_bytes == self.memory_total_view(),
            r.memory_utilization_permille == permille_of(r.memory_in_use_bytes, r.memory_total_bytes),
            r.memory_utilization_permille <= 1000,
    {
        let mut active: usize = 0;
        let mut busy: usize = 0;
        let mut d: usize = 0;
        while d < self.devices.len()
            invariant
                self.wf(),
                0 <= d <= self.devices@.len(),
                active as int == count_upto(d as int, available_pred(self.devices@)),
                busy as int == count_upto(d as int, busy_pred(self.tasks@, self.statuses@)),
                busy <= d,
            decreases self.devices@.len() - d,
        {
            proof {
                lemma_count_bounds(d as int, available_pred(self.devices@));
            }
            if self.devices[d].available {
                active = active + 1;
            }
            if self.device_running(d) {
                busy = busy + 1;
            }
            d = d + 1;
        }
        let total = self.devices.len();
        let permille: u64 = if total == 0 {
            0
        } else {
            let scaled: u128 = busy as u128 * 1000;
            (scaled / (total as u128)) as u64
        };
        proof {
            if total > 0 {
                assert(busy as int * 1000 / total as int <= 1000) by (nonlinear_arith)
                    requires
                        busy <= total,
                        total > 0,
                ;
            }
        }
        let in_use = self.running_memory();
        let mem_total = self.total_memory();
        let mem_permille: u64 = if mem_total == 0 {
            0
        } else {
            let scaled: u128 = (in_use as u128 * 1000) / (mem_total as u128);
            if scaled > 1000 { 1000 } else { scaled as u64 }
        };
        NpuUsageStats {
            total_devices: total,
            active_devices: active,
            busy_devices: busy,
            compute_utilization_permille: permille,
            tasks_completed: self.count_status(STATUS_COMPLETED),
            tasks_failed: self.count_status(STATUS_FAILED),
            tasks_cancelled: self.count_status(STATUS_CANCELLED),
            tasks_timed_out: self.count_status(STATUS_TIMED_OUT),
            running_tasks: self.count_status(STATUS_RUNNING),
            queued_tasks: self.count_status(STATUS_QUEUED),
            memory_in_use_bytes: in_use,
            memory_total_bytes: mem_total,
            memory_utilization_permille: mem_permille,
            power_consumption_milliwatts: self.busy_power(),
        }
    }
}

} // verus!
