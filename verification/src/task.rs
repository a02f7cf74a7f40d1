//! Scheduled tasks and the registry of those that are known and running.

use vstd::prelude::*;
use linked_hash_map::LinkedHashMap;
use tokio::sync::oneshot::{Receiver, Sender};
use crate::text::{clone_opt, opt_view};

verus! {

/// The map of `linked_hash_map`, which hands its entries out in the order
/// in which they were entered.
#[verifier::external_type_specification]
#[verifier::external_body]
#[verifier::reject_recursive_types(K)]
#[verifier::reject_recursive_types(V)]
#[verifier::reject_recursive_types(S)]
pub struct ExLinkedHashMap<K, V, S>(LinkedHashMap<K, V, S>);

/// The sending end of a `tokio` channel for one value.
#[verifier::external_type_specification]
#[verifier::external_body]
#[verifier::reject_recursive_types(T)]
pub struct ExSender<T>(Sender<T>);

/// The receiving end of a `tokio` channel for one value.
#[verifier::external_type_specification]
#[verifier::external_body]
#[verifier::reject_recursive_types(T)]
pub struct ExReceiver<T>(Receiver<T>);

/// What awaiting the receiving end yields once the sending end is gone.
/// No function here takes or gives one: the declaration is needed because
/// the receiving end's own impls name the type.
#[verifier::external_type_specification]
#[verifier::external_body]
pub struct ExRecvError(tokio::sync::oneshot::error::RecvError);

/// A script to run on a schedule.
#[derive(Debug, PartialEq, Eq)]
pub struct Task {
    pub id: String,
    pub script: String,
    pub cron: String,
    pub name: String,
    pub remark: Option<String>,
    pub max_executions: Option<u32>,
    pub auto_start: bool,
}

/// What a [`Task`] is, field by field.
pub struct TaskView {
    pub id: Seq<char>,
    pub script: Seq<char>,
    pub cron: Seq<char>,
    pub name: Seq<char>,
    pub remark: Option<Seq<char>>,
    pub max_executions: Option<u32>,
    pub auto_start: bool,
}

impl View for Task {
    type V = TaskView;

    open spec fn view(&self) -> TaskView {
        TaskView {
            id: self.id@,
            script: self.script@,
            cron: self.cron@,
            name: self.name@,
            remark: opt_view(self.remark),
            max_executions: self.max_executions,
            auto_start: self.auto_start,
        }
    }
}

impl Clone for Task {
    fn clone(&self) -> (r: Self)
        ensures
            r == *self,
    {
        Task {
            id: self.id.clone(),
            script: self.script.clone(),
            cron: self.cron.clone(),
            name: self.name.clone(),
            remark: clone_opt(&self.remark),
            max_executions: self.max_executions,
            auto_start: self.auto_start,
        }
    }
}

/// Why a command on a task is refused.
#[derive(Debug, Clone, Copy, PartialEq, Eq, Structural)]
pub enum TaskError {
    /// No task is known under the identifier.
    NotFound,
    /// The task runs already.
    AlreadyRunning,
    /// The task does not run.
    NotRunning,
}

/// A known task with the handle that cancels its run, present exactly
/// while the task runs, and the number of the run that was last handed
/// out for it.
pub struct TaskRunner {
    tx: Option<Sender<()>>,
    task: Task,
    run: u64,
}

/// A run to begin: the task, the end of the channel on which its
/// cancellation arrives, and the number that tells the run from the
/// others of its task.
pub struct Launch {
    pub task: Task,
    pub cancel: Receiver<()>,
    pub run: u64,
}

/// What the registry knows of one task: whether it runs, its definition,
/// and the number of its run, which means something while it runs.
pub struct RunnerView {
    pub running: bool,
    pub task: TaskView,
    pub run: u64,
}

impl View for TaskRunner {
    type V = RunnerView;

    closed spec fn view(&self) -> RunnerView {
        RunnerView { running: self.tx is Some, task: self.task@, run: self.run }
    }
}

/// The registry as a list: identifier and state, oldest entry first.
pub type Registry = Seq<(Seq<char>, RunnerView)>;

/// What a map of runners holds, in the order in which it hands its
/// entries out.
pub uninterp spec fn runners_of(m: LinkedHashMap<String, TaskRunner>) -> Seq<
    (Seq<char>, TaskRunner),
>;

/// The views of a list of runners.
pub open spec fn runner_views(s: Seq<(Seq<char>, TaskRunner)>) -> Registry {
    Seq::new(s.len(), |i: int| (s[i].0, s[i].1@))
}

/// Whether no identifier stands twice.
pub open spec fn distinct_keys<V>(s: Seq<(Seq<char>, V)>) -> bool {
    forall|i: int, j: int|
        0 <= i < s.len() && 0 <= j < s.len() && i != j ==> (#[trigger] s[i]).0 != (
        #[trigger] s[j]).0
}

/// Whether a task is known under `id`.
pub open spec fn known<V>(s: Seq<(Seq<char>, V)>, id: Seq<char>) -> bool {
    exists|i: int| 0 <= i < s.len() && (#[trigger] s[i]).0 == id
}

/// Where the task known under `id` stands.
pub open spec fn position<V>(s: Seq<(Seq<char>, V)>, id: Seq<char>) -> int {
    choose|i: int| 0 <= i < s.len() && (#[trigger] s[i]).0 == id
}

/// `LinkedHashMap::new`: a map that holds nothing.
#[verifier::external_body]
fn registry_new() -> (m: LinkedHashMap<String, TaskRunner>)
    ensures
        runners_of(m) == Seq::<(Seq<char>, TaskRunner)>::empty(),
{
    LinkedHashMap::new()
}

/// `LinkedHashMap::insert`: a new key goes to the end with its value. A
/// key that is there keeps no place: its entry goes to the end with the
/// new value, and the value it had is handed back. The call does not
/// unwind.
#[verifier::external_body]
fn registry_insert(m: &mut LinkedHashMap<String, TaskRunner>, id: String, runner: TaskRunner) -> (r:
    Option<TaskRunner>)
    ensures
        match r {
            Some(v) => exists|i: int|
                0 <= i < runners_of(*old(m)).len() && runners_of(*old(m))[i] == (id@, v)
                    && runners_of(*final(m)) == runners_of(*old(m)).remove(i).push((id@, runner)),
            None => !known(runners_of(*old(m)), id@) && runners_of(*final(m)) == runners_of(
                *old(m),
            ).push((id@, runner)),
        },
    no_unwind
{
    m.insert(id, runner)
}

/// `LinkedHashMap::get`: the value under the key, if the key is there.
#[verifier::external_body]
fn registry_get<'a>(m: &'a LinkedHashMap<String, TaskRunner>, id: &str) -> (r: Option<
    &'a TaskRunner,
>)
    ensures
        match r {
            Some(v) => exists|i: int|
                0 <= i < runners_of(*m).len() && runners_of(*m)[i] == (id@, *v),
            None => !known(runners_of(*m), id@),
        },
{
    m.get(id)
}

/// `LinkedHashMap::get_mut`: the value under the key, to be changed in
/// place; the map's keys and their order stay. The call does not unwind.
#[verifier::external_body]
fn registry_get_mut<'a>(m: &'a mut LinkedHashMap<String, TaskRunner>, id: &str) -> (r: Option<
    &'a mut TaskRunner,
>)
    ensures
        match r {
            Some(v) => exists|i: int|
                0 <= i < runners_of(*old(m)).len() && runners_of(*old(m))[i] == (id@, *v)
                    && runners_of(*final(m)) == runners_of(*old(m)).update(
                    i,
                    (id@, *final(v)),
                ),
            None => !known(runners_of(*old(m)), id@) && runners_of(*final(m)) == runners_of(
                *old(m),
            ),
        },
    no_unwind
{
    m.get_mut(id)
}

/// `LinkedHashMap::remove`: the entry under the key leaves and its value
/// is handed out; the other entries keep their order. The call does not
/// unwind.
#[verifier::external_body]
fn registry_remove(m: &mut LinkedHashMap<String, TaskRunner>, id: &str) -> (r: Option<TaskRunner>)
    ensures
        match r {
            Some(v) => exists|i: int|
                0 <= i < runners_of(*old(m)).len() && runners_of(*old(m))[i] == (id@, v)
                    && runners_of(*final(m)) == runners_of(*old(m)).remove(i),
            None => !known(runners_of(*old(m)), id@) && runners_of(*final(m)) == runners_of(
                *old(m),
            ),
        },
    no_unwind
{
    m.remove(id)
}

/// `LinkedHashMap::iter`: every entry, in the map's order.
#[verifier::external_body]
fn registry_entries<'a>(m: &'a LinkedHashMap<String, TaskRunner>) -> (v: Vec<
    (&'a String, &'a TaskRunner),
>)
    ensures
        v@.len() == runners_of(*m).len(),
        forall|i: int|
            0 <= i < v@.len() ==> (#[trigger] v@[i]).0@ == runners_of(*m)[i].0 && *v@[i].1
                == runners_of(*m)[i].1,
{
    m.iter().collect()
}

/// `tokio::sync::oneshot::channel`: the two ends of a fresh channel.
#[verifier::external_body]
fn cancel_channel() -> (ends: (Sender<()>, Receiver<()>)) {
    tokio::sync::oneshot::channel::<()>()
}

/// `tokio::sync::oneshot::Sender::send`: tells the other end to stop.
/// Whether anybody was still listening is handed back; nothing is claimed
/// of it.
#[verifier::external_body]
fn signal(tx: Sender<()>) -> (heard: bool) {
    tx.send(()).is_ok()
}

impl TaskRunner {
    fn new(task: Task, tx: Option<Sender<()>>, run: u64) -> (r: TaskRunner)
        ensures
            r.task == task,
            r.tx == tx,
            r.run == run,
    {
        TaskRunner { tx, task, run }
    }

    /// Signals cancellation to the run, if there is one, and forgets its
    /// handle.
    fn stop(&mut self)
        ensures
            final(self).tx is None,
            final(self).task == old(self).task,
            final(self).run == old(self).run,
    {
        match self.tx.take() {
            Some(tx) => {
                let _ = signal(tx);
            },
            None => {},
        }
    }
}

/// The tasks that are known, each with the handle of its run if it runs,
/// and the number that the next run gets. No identifier is known twice.
pub struct TaskManager {
    inner: LinkedHashMap<String, TaskRunner>,
    next_run: u64,
}

impl View for TaskManager {
    type V = Registry;

    closed spec fn view(&self) -> Registry {
        runner_views(runners_of(self.inner))
    }
}

/// The views of a list of tasks.
pub open spec fn task_views(tasks: Seq<Task>) -> Seq<TaskView> {
    Seq::new(tasks.len(), |i: int| tasks[i]@)
}

/// The tasks of a list of runs to begin, each with the number of its run.
pub open spec fn launch_views(launches: Seq<Launch>) -> Seq<(TaskView, u64)> {
    Seq::new(launches.len(), |i: int| (launches[i].task@, launches[i].run))
}

/// The number behind `run`; behind the largest, the count begins anew.
pub open spec fn bump(run: u64) -> u64 {
    if run < u64::MAX {
        (run + 1) as u64
    } else {
        0
    }
}

/// Whether the task known under `id` runs.
pub open spec fn is_running(reg: Registry, id: Seq<char>) -> bool {
    known(reg, id) && reg[position(reg, id)].1.running
}

/// The registry with the task under `id` marked as running or not.
pub open spec fn set_running(reg: Registry, id: Seq<char>, running: bool) -> Registry {
    let i = position(reg, id);
    reg.update(i, (id, RunnerView { running, ..reg[i].1 }))
}

/// The registry with the task under `id` running its run number `run`.
pub open spec fn launched(reg: Registry, id: Seq<char>, run: u64) -> Registry {
    let i = position(reg, id);
    reg.update(i, (id, RunnerView { running: true, run, ..reg[i].1 }))
}

/// The registry with `entry` under `id` as its newest entry; an entry
/// that stood under `id` before is gone from its place.
pub open spec fn put_spec(reg: Registry, id: Seq<char>, entry: RunnerView) -> Registry {
    if known(reg, id) {
        reg.remove(position(reg, id)).push((id, entry))
    } else {
        reg.push((id, entry))
    }
}

/// What starting the task under `id` does, where `run` is the number
/// that the new run gets: the registry afterwards, and the task to run or
/// the refusal.
pub open spec fn start_spec(reg: Registry, id: Seq<char>, run: u64) -> (
    Registry,
    Result<TaskView, TaskError>,
) {
    if !known(reg, id) {
        (reg, Err(TaskError::NotFound))
    } else if is_running(reg, id) {
        (reg, Err(TaskError::AlreadyRunning))
    } else {
        (launched(reg, id, run), Ok(reg[position(reg, id)].1.task))
    }
}

/// What stopping the task under `id` does.
pub open spec fn stop_spec(reg: Registry, id: Seq<char>) -> (Registry, Result<(), TaskError>) {
    if !known(reg, id) {
        (reg, Err(TaskError::NotFound))
    } else if !is_running(reg, id) {
        (reg, Err(TaskError::NotRunning))
    } else {
        (set_running(reg, id, false), Ok(()))
    }
}

/// What restarting the task under `id` does: a stop, then a start of the
/// run number `run`. Where the stop is refused nothing changes.
pub open spec fn restart_spec(reg: Registry, id: Seq<char>, run: u64) -> (
    Registry,
    Result<TaskView, TaskError>,
) {
    match stop_spec(reg, id).1 {
        Err(e) => (reg, Err(e)),
        Ok(()) => start_spec(stop_spec(reg, id).0, id, run),
    }
}

/// The registry after `task` was added under `id`: it runs, as run number
/// `run`, if it asks to be started at once.
pub open spec fn add_spec(reg: Registry, id: Seq<char>, task: TaskView, run: u64) -> Registry {
    put_spec(reg, id, RunnerView { running: task.auto_start, task, run })
}

/// The registry after the task under `id` got the definition `task`: it
/// runs, as run number `run`, exactly if a task ran under `id` before.
pub open spec fn update_spec(reg: Registry, id: Seq<char>, task: TaskView, run: u64) -> Registry {
    put_spec(reg, id, RunnerView { running: is_running(reg, id), task, run })
}

/// What removing the task under `id` does.
pub open spec fn remove_spec(reg: Registry, id: Seq<char>) -> (Registry, Result<(), TaskError>) {
    if !known(reg, id) {
        (reg, Err(TaskError::NotFound))
    } else {
        (reg.remove(position(reg, id)), Ok(()))
    }
}

/// The registry after run number `run` of the task under `id` ended by
/// itself: the task no longer runs if that run is the one it runs. The
/// end of an earlier run changes nothing.
pub open spec fn finish_spec(reg: Registry, id: Seq<char>, run: u64) -> Registry {
    if is_running(reg, id) && reg[position(reg, id)].1.run == run {
        set_running(reg, id, false)
    } else {
        reg
    }
}

/// The registry with every task stopped.
pub open spec fn stop_all_spec(reg: Registry) -> Registry {
    Seq::new(reg.len(), |i: int| (reg[i].0, RunnerView { running: false, ..reg[i].1 }))
}

/// The number that the next run gets after the stored `tasks` were
/// loaded, where it was `run` before: each task that asks to be started
/// at once takes one number.
pub open spec fn run_after(run: u64, tasks: Seq<TaskView>) -> u64
    decreases tasks.len(),
{
    if tasks.len() == 0 {
        run
    } else if tasks.last().auto_start {
        bump(run_after(run, tasks.drop_last()))
    } else {
        run_after(run, tasks.drop_last())
    }
}

/// Those of `tasks` that ask to be started at once, in their order, each
/// with the number of its run, counted from `run`.
pub open spec fn auto_started(tasks: Seq<TaskView>, run: u64) -> Seq<(TaskView, u64)>
    decreases tasks.len(),
{
    if tasks.len() == 0 {
        Seq::<(TaskView, u64)>::empty()
    } else if tasks.last().auto_start {
        auto_started(tasks.drop_last(), run).push(
            (tasks.last(), run_after(run, tasks.drop_last())),
        )
    } else {
        auto_started(tasks.drop_last(), run)
    }
}

/// The registry after the stored `tasks` were loaded: each that asks to be
/// started at once is entered, running, under its own identifier, in the
/// order of `tasks`, with run numbers counted from `run`.
pub open spec fn load_spec(reg: Registry, tasks: Seq<TaskView>, run: u64) -> Registry
    decreases tasks.len(),
{
    if tasks.len() == 0 {
        reg
    } else if tasks.last().auto_start {
        put_spec(
            load_spec(reg, tasks.drop_last(), run),
            tasks.last().id,
            RunnerView {
                running: true,
                task: tasks.last(),
                run: run_after(run, tasks.drop_last()),
            },
        )
    } else {
        load_spec(reg, tasks.drop_last(), run)
    }
}

/// In a list without a repeated identifier, the entry with a given
/// identifier is the one that is known under it.
pub proof fn lemma_position<V>(s: Seq<(Seq<char>, V)>, id: Seq<char>, i: int)
    requires
        distinct_keys(s),
        0 <= i < s.len(),
        s[i].0 == id,
    ensures
        known(s, id),
        position(s, id) == i,
{
    let p = position(s, id);
    assert(s[p].0 == s[i].0);
}

proof fn lemma_views(raw: Seq<(Seq<char>, TaskRunner)>, id: Seq<char>)
    ensures
        known(runner_views(raw), id) == known(raw, id),
        distinct_keys(raw) ==> distinct_keys(runner_views(raw)),
        distinct_keys(raw) && known(raw, id) ==> position(runner_views(raw), id) == position(
            raw,
            id,
        ),
{
    let views = runner_views(raw);
    if known(raw, id) {
        let i = position(raw, id);
        assert(views[i].0 == id);
    }
    if known(views, id) {
        let i = position(views, id);
        assert(raw[i].0 == id);
    }
    if distinct_keys(raw) {
        assert forall|i: int, j: int|
            0 <= i < views.len() && 0 <= j < views.len() && i != j implies (#[trigger] views[i]).0
            != (#[trigger] views[j]).0 by {
            assert(raw[i].0 != raw[j].0);
        }
        if known(raw, id) {
            let i = position(raw, id);
            assert(views[i].0 == id);
            lemma_position(views, id, i);
        }
    }
}

proof fn lemma_put_keeps_distinct<V>(s: Seq<(Seq<char>, V)>, id: Seq<char>, v: V)
    requires
        distinct_keys(s),
    ensures
        known(s, id) ==> distinct_keys(s.remove(position(s, id)).push((id, v))),
        !known(s, id) ==> distinct_keys(s.push((id, v))),
{
    if known(s, id) {
        let p = position(s, id);
        let t = s.remove(p).push((id, v));
        assert forall|i: int, j: int|
            0 <= i < t.len() && 0 <= j < t.len() && i != j implies (#[trigger] t[i]).0 != (
        #[trigger] t[j]).0 by {
            let a = if i < p { i } else { i + 1 };
            let b = if j < p { j } else { j + 1 };
            if i < t.len() - 1 && j < t.len() - 1 {
                assert(t[i] == s[a] && t[j] == s[b]);
            } else if i < t.len() - 1 {
                assert(t[i] == s[a]);
                assert(s[a].0 != s[p].0);
            } else {
                assert(t[j] == s[b]);
                assert(s[b].0 != s[p].0);
            }
        }
    } else {
        let t = s.push((id, v));
        assert forall|i: int, j: int|
            0 <= i < t.len() && 0 <= j < t.len() && i != j implies (#[trigger] t[i]).0 != (
        #[trigger] t[j]).0 by {
            if i < s.len() && j < s.len() {
                assert(t[i] == s[i] && t[j] == s[j]);
            } else if i < s.len() {
                assert(t[i] == s[i]);
            } else {
                assert(t[j] == s[j]);
            }
        }
    }
}

proof fn lemma_remove_keeps_distinct<V>(s: Seq<(Seq<char>, V)>, p: int)
    requires
        distinct_keys(s),
        0 <= p < s.len(),
    ensures
        distinct_keys(s.remove(p)),
{
    let t = s.remove(p);
    assert forall|i: int, j: int|
        0 <= i < t.len() && 0 <= j < t.len() && i != j implies (#[trigger] t[i]).0 != (
    #[trigger] t[j]).0 by {
        let a = if i < p { i } else { i + 1 };
        let b = if j < p { j } else { j + 1 };
        assert(t[i] == s[a] && t[j] == s[b]);
    }
}

proof fn lemma_update_keeps_distinct<V>(s: Seq<(Seq<char>, V)>, p: int, v: V)
    requires
        distinct_keys(s),
        0 <= p < s.len(),
    ensures
        distinct_keys(s.update(p, (s[p].0, v))),
{
    let t = s.update(p, (s[p].0, v));
    assert forall|i: int, j: int|
        0 <= i < t.len() && 0 <= j < t.len() && i != j implies (#[trigger] t[i]).0 != (
    #[trigger] t[j]).0 by {
        assert(t[i].0 == s[i].0 && t[j].0 == s[j].0);
    }
}

fn bump_run(run: u64) -> (next: u64)
    ensures
        next == bump(run),
{
    if run < u64::MAX {
        run + 1
    } else {
        0
    }
}

impl TaskManager {
    #[verifier::type_invariant]
    spec fn keys_are_distinct(self) -> bool {
        distinct_keys(runners_of(self.inner))
    }

    /// The number that the next run gets.
    pub closed spec fn next_run(&self) -> u64 {
        self.next_run
    }

    /// A manager that knows no task.
    pub fn new() -> (m: TaskManager)
        ensures
            m@ == Seq::<(Seq<char>, RunnerView)>::empty(),
            m.next_run() == 0,
    {
        let m = TaskManager { inner: registry_new(), next_run: 0 };
        assert(m@ =~= Seq::<(Seq<char>, RunnerView)>::empty());
        m
    }

    /// Takes the number for a run that is handed out.
    fn take_run(&mut self) -> (run: u64)
        ensures
            run == old(self).next_run(),
            final(self).next_run() == bump(run),
            final(self)@ == old(self)@,
    {
        proof {
            use_type_invariant(&*self);
        }
        let run = self.next_run;
        self.next_run = bump_run(run);
        run
    }

    /// Enters `runner` under `id` as the newest entry.
    fn put(&mut self, id: String, runner: TaskRunner) -> (prev: Option<TaskRunner>)
        ensures
            final(self)@ == put_spec(old(self)@, id@, runner@),
            final(self).next_run() == old(self).next_run(),
            distinct_keys(final(self)@),
    {
        proof {
            use_type_invariant(&*self);
        }
        let ghost before = runners_of(self.inner);
        proof {
            lemma_views(before, id@);
            lemma_put_keeps_distinct(before, id@, runner);
        }
        let prev = registry_insert(&mut self.inner, id, runner);
        proof {
            let after = runners_of(self.inner);
            if prev is Some {
                let i = choose|i: int|
                    0 <= i < before.len() && before[i] == (id@, prev->Some_0) && after
                        == before.remove(i).push((id@, runner));
                lemma_position(before, id@, i);
                assert(runner_views(after) =~= runner_views(before).remove(i).push(
                    (id@, runner@),
                ));
            } else {
                assert(runner_views(after) =~= runner_views(before).push((id@, runner@)));
            }
            lemma_views(after, id@);
        }
        prev
    }

    /// Loads the stored tasks: each that asks to be started at once is
    /// entered under its own identifier and its run is handed out to
    /// begin. The others are not entered.
    pub fn start(&mut self, tasks: Vec<Task>) -> (launches: Vec<Launch>)
        ensures
            final(self)@ == load_spec(old(self)@, task_views(tasks@), old(self).next_run()),
            launch_views(launches@) == auto_started(task_views(tasks@), old(self).next_run()),
            final(self).next_run() == run_after(old(self).next_run(), task_views(tasks@)),
            distinct_keys(final(self)@),
    {
        let ghost all = task_views(tasks@);
        let ghost first = self.next_run();
        let mut launches: Vec<Launch> = Vec::new();
        let mut i: usize = 0;
        proof {
            use_type_invariant(&*self);
            lemma_views(runners_of(self.inner), Seq::<char>::empty());
            assert(all.take(0) =~= Seq::<TaskView>::empty());
            assert(launch_views(launches@) =~= Seq::<(TaskView, u64)>::empty());
        }
        while i < tasks.len()
            invariant
                i <= tasks.len(),
                all == task_views(tasks@),
                first == old(self).next_run(),
                self@ == load_spec(old(self)@, all.take(i as int), first),
                self.next_run() == run_after(first, all.take(i as int)),
                launch_views(launches@) == auto_started(all.take(i as int), first),
                distinct_keys(self@),
            decreases tasks.len() - i,
        {
            let ghost prefix = all.take(i + 1);
            assert(prefix.drop_last() =~= all.take(i as int));
            assert(prefix.last() == tasks@[i as int]@);
            if tasks[i].auto_start {
                let task = tasks[i].clone();
                let (tx, rx) = cancel_channel();
                let ghost shown = launch_views(launches@);
                let run = self.take_run();
                let _ = self.put(task.id.clone(), TaskRunner::new(task.clone(), Some(tx), run));
                launches.push(Launch { task, cancel: rx, run });
                assert(launch_views(launches@) =~= shown.push((tasks@[i as int]@, run)));
            }
            i += 1;
        }
        assert(all.take(tasks.len() as int) =~= all);
        launches
    }

    /// Stops every task that runs.
    pub fn stop_all(&mut self)
        ensures
            final(self)@ == stop_all_spec(old(self)@),
            final(self).next_run() == old(self).next_run(),
            distinct_keys(final(self)@),
    {
        proof {
            use_type_invariant(&*self);
            lemma_views(runners_of(self.inner), Seq::<char>::empty());
        }
        let mut ids: Vec<String> = Vec::new();
        {
            let entries = registry_entries(&self.inner);
            let mut k: usize = 0;
            while k < entries.len()
                invariant
                    k <= entries.len(),
                    ids@.len() == k,
                    entries@.len() == runners_of(self.inner).len(),
                    forall|j: int|
                        0 <= j < entries@.len() ==> (#[trigger] entries@[j]).0@ == runners_of(
                            self.inner,
                        )[j].0,
                    forall|j: int|
                        0 <= j < k ==> (#[trigger] ids@[j])@ == runners_of(self.inner)[j].0,
                decreases entries.len() - k,
            {
                ids.push(entries[k].0.clone());
                k += 1;
            }
        }
        let ghost start = self@;
        let mut i: usize = 0;
        while i < ids.len()
            invariant
                i <= ids.len(),
                start == old(self)@,
                self.next_run() == old(self).next_run(),
                distinct_keys(start),
                ids@.len() == start.len(),
                self@.len() == start.len(),
                forall|j: int| 0 <= j < ids@.len() ==> (#[trigger] ids@[j])@ == start[j].0,
                forall|j: int|
                    0 <= j < start.len() ==> (#[trigger] self@[j]).0 == start[j].0
                        && self@[j].1.task == start[j].1.task && self@[j].1.run
                        == start[j].1.run,
                forall|j: int| 0 <= j < i ==> !(#[trigger] self@[j]).1.running,
                forall|j: int| i <= j < start.len() ==> #[trigger] self@[j] == start[j],
            decreases ids.len() - i,
        {
            proof {
                use_type_invariant(&*self);
            }
            let ghost before = runners_of(self.inner);
            let ghost seen = self@;
            match registry_get_mut(&mut self.inner, ids[i].as_str()) {
                Some(runner) => {
                    let ghost at = choose|at: int|
                        0 <= at < before.len() && before[at] == (ids@[i as int]@, *runner);
                    proof {
                        assert(seen[at].0 == ids@[i as int]@);
                        assert(seen[i as int].0 == start[i as int].0);
                        lemma_views(before, ids@[i as int]@);
                        lemma_position(seen, ids@[i as int]@, at);
                        lemma_position(seen, ids@[i as int]@, i as int);
                    }
                    runner.stop();
                },
                None => {
                    proof {
                        assert(seen[i as int].0 == ids@[i as int]@);
                        lemma_views(before, ids@[i as int]@);
                    }
                },
            }
            proof {
                assert(self@.len() == start.len());
                assert forall|j: int| 0 <= j < start.len() implies (#[trigger] self@[j]).0
                    == start[j].0 && self@[j].1.task == start[j].1.task && self@[j].1.run
                    == start[j].1.run by {
                    assert(seen[j].0 == start[j].0);
                }
                assert forall|j: int| 0 <= j < i + 1 implies !(#[trigger] self@[j]).1.running by {
                    if j < i {
                        assert(!seen[j].1.running);
                    }
                }
                assert forall|j: int| i + 1 <= j < start.len() implies #[trigger] self@[j]
                    == start[j] by {
                    assert(seen[j] == start[j]);
                }
                lemma_views(runners_of(self.inner), Seq::<char>::empty());
            }
            i += 1;
        }
        assert(self@ =~= stop_all_spec(old(self)@));
    }

    /// Enters `task` under `id`, the identifier under which it was stored,
    /// behind the tasks already known; a task known under `id` before is
    /// replaced. Where the task asks to be started at once it is entered
    /// as running and its run is handed out to begin.
    pub fn add_task(&mut self, id: String, task: Task) -> (launch: Option<Launch>)
        ensures
            final(self)@ == add_spec(old(self)@, id@, task@, old(self).next_run()),
            launch is Some <==> task.auto_start,
            launch matches Some(l) ==> l.task@ == task@ && l.run == old(self).next_run(),
            final(self).next_run() == if task.auto_start {
                bump(old(self).next_run())
            } else {
                old(self).next_run()
            },
            distinct_keys(final(self)@),
    {
        if task.auto_start {
            let (tx, rx) = cancel_channel();
            let run = self.take_run();
            let prev = self.put(id, TaskRunner::new(task.clone(), Some(tx), run));
            if let Some(mut replaced) = prev {
                replaced.stop();
            }
            Some(Launch { task, cancel: rx, run })
        } else {
            let run = self.next_run;
            let prev = self.put(id, TaskRunner::new(task, None, run));
            if let Some(mut replaced) = prev {
                replaced.stop();
            }
            None
        }
    }

    /// Starts the task known under `id` unless it runs already, and hands
    /// out its run to begin.
    pub fn start_task(&mut self, id: &str) -> (r: Result<Launch, TaskError>)
        ensures
            final(self)@ == start_spec(old(self)@, id@, old(self).next_run()).0,
            match r {
                Ok(launch) => start_spec(old(self)@, id@, old(self).next_run()).1 == Ok::<
                    TaskView,
                    TaskError,
                >(launch.task@) && launch.run == old(self).next_run() && final(self).next_run()
                    == bump(old(self).next_run()),
                Err(e) => start_spec(old(self)@, id@, old(self).next_run()).1 == Err::<
                    TaskView,
                    TaskError,
                >(e) && final(self).next_run() == old(self).next_run(),
            },
            distinct_keys(final(self)@),
    {
        proof {
            use_type_invariant(&*self);
        }
        let ghost before = runners_of(self.inner);
        proof {
            lemma_views(before, id@);
            lemma_views(before, Seq::<char>::empty());
        }
        let run = self.next_run;
        let r = match registry_get_mut(&mut self.inner, id) {
            None => Err(TaskError::NotFound),
            Some(runner) => {
                let ghost i = choose|i: int|
                    0 <= i < before.len() && before[i] == (id@, *runner);
                proof {
                    lemma_position(before, id@, i);
                }
                if runner.tx.is_some() {
                    Err(TaskError::AlreadyRunning)
                } else {
                    let (tx, rx) = cancel_channel();
                    runner.tx = Some(tx);
                    runner.run = run;
                    let task = runner.task.clone();
                    proof {
                        lemma_update_keeps_distinct(
                            runner_views(before),
                            i,
                            RunnerView { running: true, task: task@, run },
                        );
                    }
                    Ok(Launch { task, cancel: rx, run })
                }
            },
        };
        if r.is_ok() {
            let _ = self.take_run();
        }
        r
    }

    /// Stops the task known under `id` if it runs: its run is told to end
    /// and its handle is forgotten.
    pub fn stop_task(&mut self, id: &str) -> (r: Result<(), TaskError>)
        ensures
            (final(self)@, r) == stop_spec(old(self)@, id@),
            final(self).next_run() == old(self).next_run(),
            distinct_keys(final(self)@),
    {
        proof {
            use_type_invariant(&*self);
        }
        let ghost before = runners_of(self.inner);
        proof {
            lemma_views(before, id@);
            lemma_views(before, Seq::<char>::empty());
        }
        match registry_get_mut(&mut self.inner, id) {
            None => Err(TaskError::NotFound),
            Some(runner) => {
                let ghost i = choose|i: int|
                    0 <= i < before.len() && before[i] == (id@, *runner);
                proof {
                    lemma_position(before, id@, i);
                }
                if runner.tx.is_none() {
                    return Err(TaskError::NotRunning);
                }
                let ghost task = runner.task@;
                let ghost run = runner.run;
                runner.stop();
                proof {
                    lemma_update_keeps_distinct(
                        runner_views(before),
                        i,
                        RunnerView { running: false, task, run },
                    );
                }
                Ok(())
            },
        }
    }

    /// Gives the task under `id` the definition `task`, as the newest
    /// entry. Where a task ran under `id`, that run is told to end and the
    /// run of the new definition is handed out to begin; otherwise the task
    /// stays stopped.
    pub fn update_task(&mut self, id: &str, task: Task) -> (launch: Option<Launch>)
        ensures
            final(self)@ == update_spec(old(self)@, id@, task@, old(self).next_run()),
            launch is Some <==> is_running(old(self)@, id@),
            launch matches Some(l) ==> l.task@ == task@ && l.run == old(self).next_run(),
            final(self).next_run() == if is_running(old(self)@, id@) {
                bump(old(self).next_run())
            } else {
                old(self).next_run()
            },
            distinct_keys(final(self)@),
    {
        let running = self.get_running_status(id);
        let key = id.to_owned();
        if running {
            let (tx, rx) = cancel_channel();
            let run = self.take_run();
            let prev = self.put(key, TaskRunner::new(task.clone(), Some(tx), run));
            if let Some(mut replaced) = prev {
                replaced.stop();
            }
            Some(Launch { task, cancel: rx, run })
        } else {
            let run = self.next_run;
            let prev = self.put(key, TaskRunner::new(task, None, run));
            if let Some(mut replaced) = prev {
                replaced.stop();
            }
            None
        }
    }

    /// Forgets the task known under `id`; its run, if there is one, is
    /// told to end.
    pub fn remove_task(&mut self, id: &str) -> (r: Result<(), TaskError>)
        ensures
            (final(self)@, r) == remove_spec(old(self)@, id@),
            final(self).next_run() == old(self).next_run(),
            distinct_keys(final(self)@),
    {
        proof {
            use_type_invariant(&*self);
        }
        let ghost before = runners_of(self.inner);
        proof {
            lemma_views(before, id@);
            lemma_views(before, Seq::<char>::empty());
            if known(before, id@) {
                lemma_remove_keeps_distinct(before, position(before, id@));
            }
        }
        match registry_remove(&mut self.inner, id) {
            None => Err(TaskError::NotFound),
            Some(removed) => {
                let ghost i = choose|i: int|
                    0 <= i < before.len() && before[i] == (id@, removed) && runners_of(self.inner)
                        == before.remove(i);
                proof {
                    lemma_position(before, id@, i);
                    assert(runner_views(before.remove(i)) =~= runner_views(before).remove(i));
                    lemma_views(before.remove(i), Seq::<char>::empty());
                }
                let mut removed = removed;
                removed.stop();
                Ok(())
            },
        }
    }

    /// Stops the task known under `id` and starts it again.
    pub fn restart_task(&mut self, id: &str) -> (r: Result<Launch, TaskError>)
        ensures
            final(self)@ == restart_spec(old(self)@, id@, old(self).next_run()).0,
            match r {
                Ok(launch) => restart_spec(old(self)@, id@, old(self).next_run()).1 == Ok::<
                    TaskView,
                    TaskError,
                >(launch.task@) && launch.run == old(self).next_run() && final(self).next_run()
                    == bump(old(self).next_run()),
                Err(e) => restart_spec(old(self)@, id@, old(self).next_run()).1 == Err::<
                    TaskView,
                    TaskError,
                >(e) && final(self).next_run() == old(self).next_run(),
            },
            distinct_keys(final(self)@),
    {
        match self.stop_task(id) {
            Err(e) => Err(e),
            Ok(()) => self.start_task(id),
        }
    }

    /// Records that run number `run` of the task known under `id` ended by
    /// itself: the task no longer counts as running if that run is the
    /// one it runs. The end of an earlier run, which a stop and a new
    /// start have overtaken, changes nothing.
    pub fn finish_task(&mut self, id: &str, run: u64)
        ensures
            final(self)@ == finish_spec(old(self)@, id@, run),
            final(self).next_run() == old(self).next_run(),
            distinct_keys(final(self)@),
    {
        proof {
            use_type_invariant(&*self);
        }
        let ghost before = runners_of(self.inner);
        proof {
            lemma_views(before, id@);
            lemma_views(before, Seq::<char>::empty());
        }
        match registry_get_mut(&mut self.inner, id) {
            None => {},
            Some(runner) => {
                let ghost i = choose|i: int|
                    0 <= i < before.len() && before[i] == (id@, *runner);
                let ghost task = runner.task@;
                proof {
                    lemma_position(before, id@, i);
                    lemma_update_keeps_distinct(
                        runner_views(before),
                        i,
                        RunnerView { running: false, task, run },
                    );
                }
                if runner.tx.is_some() && runner.run == run {
                    runner.tx = None;
                }
            },
        }
    }

    /// The task known under `id`.
    pub fn get_task(&self, id: &str) -> (r: Result<Task, TaskError>)
        ensures
            match r {
                Ok(task) => known(self@, id@) && task@ == self@[position(self@, id@)].1.task,
                Err(e) => !known(self@, id@) && e == TaskError::NotFound,
            },
    {
        proof {
            use_type_invariant(self);
            lemma_views(runners_of(self.inner), id@);
        }
        match registry_get(&self.inner, id) {
            None => Err(TaskError::NotFound),
            Some(runner) => {
                proof {
                    let i = choose|i: int|
                        0 <= i < runners_of(self.inner).len() && runners_of(self.inner)[i] == (
                            id@,
                            *runner,
                        );
                    lemma_position(runners_of(self.inner), id@, i);
                }
                Ok(runner.task.clone())
            },
        }
    }

    /// Every known task, oldest entry first, each with whether it runs.
    pub fn get_all_task(&self) -> (all: Vec<(bool, Task)>)
        ensures
            all@.len() == self@.len(),
            forall|i: int|
                0 <= i < all@.len() ==> (#[trigger] all@[i]).0 == self@[i].1.running
                    && all@[i].1@ == self@[i].1.task,
            distinct_keys(self@),
    {
        proof {
            use_type_invariant(self);
            lemma_views(runners_of(self.inner), Seq::<char>::empty());
        }
        let entries = registry_entries(&self.inner);
        let mut all: Vec<(bool, Task)> = Vec::new();
        let mut i: usize = 0;
        while i < entries.len()
            invariant
                i <= entries.len(),
                all@.len() == i,
                entries@.len() == self@.len(),
                forall|j: int|
                    0 <= j < entries@.len() ==> (#[trigger] entries@[j]).1@ == self@[j].1,
                forall|j: int|
                    0 <= j < i ==> (#[trigger] all@[j]).0 == self@[j].1.running && all@[j].1@
                        == self@[j].1.task,
            decreases entries.len() - i,
        {
            let runner = entries[i].1;
            all.push((runner.tx.is_some(), runner.task.clone()));
            i += 1;
        }
        all
    }

    /// Whether a task is known under `id` and runs.
    pub fn get_running_status(&self, id: &str) -> (running: bool)
        ensures
            running == is_running(self@, id@),
    {
        proof {
            use_type_invariant(self);
            lemma_views(runners_of(self.inner), id@);
        }
        match registry_get(&self.inner, id) {
            None => false,
            Some(runner) => {
                proof {
                    let i = choose|i: int|
                        0 <= i < runners_of(self.inner).len() && runners_of(self.inner)[i] == (
                            id@,
                            *runner,
                        );
                    lemma_position(runners_of(self.inner), id@, i);
                }
                runner.tx.is_some()
            },
        }
    }
}

/// A task that was just started cannot be started again: the second start
/// is refused as already running and changes nothing.
pub proof fn lemma_second_start_is_refused(reg: Registry, id: Seq<char>, run: u64, again: u64)
    requires
        distinct_keys(reg),
        start_spec(reg, id, run).1 is Ok,
    ensures
        start_spec(start_spec(reg, id, run).0, id, again) == (
            start_spec(reg, id, run).0,
            Err::<TaskView, TaskError>(TaskError::AlreadyRunning),
        ),
{
    let i = position(reg, id);
    let after = start_spec(reg, id, run).0;
    assert(after[i].0 == id);
    lemma_update_keeps_distinct(reg, i, RunnerView { running: true, task: reg[i].1.task, run });
    lemma_position(after, id, i);
}

/// Stopping a known task that does not run is refused as not running and
/// changes nothing.
pub proof fn lemma_stop_of_idle_is_refused(reg: Registry, id: Seq<char>)
    requires
        known(reg, id),
        !is_running(reg, id),
    ensures
        stop_spec(reg, id) == (reg, Err::<(), TaskError>(TaskError::NotRunning)),
{
}

/// A task that was added without asking to be started, and never started
/// since, cannot be stopped: the stop is refused as not running.
pub proof fn lemma_stop_of_never_started_is_refused(
    reg: Registry,
    id: Seq<char>,
    task: TaskView,
    run: u64,
)
    requires
        distinct_keys(reg),
        !task.auto_start,
    ensures
        stop_spec(add_spec(reg, id, task, run), id).1 == Err::<(), TaskError>(
            TaskError::NotRunning,
        ),
{
    let entry = RunnerView { running: false, task, run };
    let after = add_spec(reg, id, task, run);
    lemma_put_keeps_distinct(reg, id, entry);
    assert(after[after.len() - 1].0 == id);
    lemma_position(after, id, after.len() - 1);
}

/// A stop undoes a start: the task is idle again with the definition it
/// had, every other task is as it was, and the task can be started anew.
pub proof fn lemma_stop_after_start(reg: Registry, id: Seq<char>, run: u64)
    requires
        distinct_keys(reg),
        start_spec(reg, id, run).1 is Ok,
    ensures
        stop_spec(start_spec(reg, id, run).0, id).1 == Ok::<(), TaskError>(()),
        stop_spec(start_spec(reg, id, run).0, id).0 == reg.update(
            position(reg, id),
            (id, RunnerView { run, ..reg[position(reg, id)].1 }),
        ),
        start_spec(stop_spec(start_spec(reg, id, run).0, id).0, id, bump(run)).1 is Ok,
{
    let i = position(reg, id);
    let after = start_spec(reg, id, run).0;
    assert(after[i].0 == id);
    lemma_update_keeps_distinct(reg, i, RunnerView { running: true, task: reg[i].1.task, run });
    lemma_position(after, id, i);
    let stopped = stop_spec(after, id).0;
    assert(stopped =~= reg.update(i, (id, RunnerView { run, ..reg[i].1 })));
    lemma_update_keeps_distinct(reg, i, RunnerView { run, ..reg[i].1 });
    assert(stopped[i].0 == id);
    lemma_position(stopped, id, i);
}

/// The end of a run counts only for the run that the task runs: where a
/// run was stopped and another was started under another number, the end
/// of the first changes nothing, and the end of the second leaves the
/// task idle.
pub proof fn lemma_end_of_overtaken_run_changes_nothing(
    reg: Registry,
    id: Seq<char>,
    first: u64,
    second: u64,
)
    requires
        distinct_keys(reg),
        start_spec(reg, id, first).1 is Ok,
        first != second,
    ensures
        ({
            let stopped = stop_spec(start_spec(reg, id, first).0, id).0;
            let again = start_spec(stopped, id, second).0;
            &&& start_spec(stopped, id, second).1 is Ok
            &&& finish_spec(again, id, first) == again
            &&& is_running(again, id)
            &&& !is_running(finish_spec(again, id, second), id)
        }),
{
    let i = position(reg, id);
    let after = start_spec(reg, id, first).0;
    assert(after[i].0 == id);
    lemma_update_keeps_distinct(reg, i, RunnerView { running: true, task: reg[i].1.task, run: first });
    lemma_position(after, id, i);
    let stopped = stop_spec(after, id).0;
    lemma_update_keeps_distinct(after, i, RunnerView { running: false, ..after[i].1 });
    assert(stopped[i].0 == id);
    lemma_position(stopped, id, i);
    let again = start_spec(stopped, id, second).0;
    lemma_update_keeps_distinct(stopped, i, RunnerView { running: true, run: second, ..stopped[i].1 });
    assert(again[i].0 == id);
    lemma_position(again, id, i);
    let ended = finish_spec(again, id, second);
    lemma_update_keeps_distinct(again, i, RunnerView { running: false, ..again[i].1 });
    assert(ended[i].0 == id);
    lemma_position(ended, id, i);
}

} // verus!
