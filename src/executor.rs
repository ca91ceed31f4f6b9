//! Sequential, fail-fast execution of a composed plan.
//!
//! The executor decides; the caller performs. `PlanRun` hands out the next
//! task with its input, takes back the outcome, and stops at the first
//! failure.
use vstd::prelude::*;
use crate::task::{TaskUnit, TaskParamType, unit_name};

verus! {

/// A failed step: the failing task's name and its message.
pub struct TaskError {
    pub task_name: String,
    pub message: String,
}

/// The state of a plan being run.
pub struct PlanRun {
    plan: Vec<TaskUnit>,
    next: usize,
    carried: TaskParamType,
    failure: Option<TaskError>,
}

impl PlanRun {
    /// The plan being run.
    pub closed spec fn plan(&self) -> Seq<TaskUnit> {
        self.plan@
    }

    /// How many steps have completed successfully.
    pub closed spec fn completed(&self) -> nat {
        self.next as nat
    }

    /// The value carried into the next step.
    pub closed spec fn carried(&self) -> TaskParamType {
        self.carried
    }

    /// The failure that stopped the run, if any.
    pub closed spec fn failure(&self) -> Option<TaskError> {
        self.failure
    }

    pub closed spec fn wf(&self) -> bool {
        self.next <= self.plan@.len()
    }

    /// No further step will be handed out.
    pub open spec fn finished(&self) -> bool {
        self.failure() is Some || self.completed() == self.plan().len()
    }

    /// Starts a run of `plan`, with nothing carried in.
    pub fn new(plan: Vec<TaskUnit>) -> (r: PlanRun)
        ensures
            r.wf(),
            r.plan() == plan@,
            r.completed() == 0,
            r.carried() == TaskParamType::Nothing,
            r.failure() is None,
    {
        PlanRun { plan, next: 0, carried: TaskParamType::Nothing, failure: None }
    }

    /// Whether the run is over.
    pub fn is_finished(&self) -> (r: bool)
        requires
            self.wf(),
        ensures
            r == self.finished(),
    {
        self.failure.is_some() || self.next == self.plan.len()
    }

    /// The task to run now, unless the run is over.
    pub fn current_task(&self) -> (r: Option<&TaskUnit>)
        requires
            self.wf(),
        ensures
            self.finished() ==> r is None,
            !self.finished() ==> r == Some(&self.plan()[self.completed() as int]),
    {
        if self.failure.is_some() || self.next >= self.plan.len() {
            None
        } else {
            Some(&self.plan[self.next])
        }
    }

    /// The input for the task to run now.
    pub fn current_input(&self) -> (r: &TaskParamType)
        ensures
            *r == self.carried(),
    {
        &self.carried
    }

    /// Records the outcome of the current task. A success carries its value
    /// into the next step; a failure ends the run, naming the failing task.
    pub fn report(&mut self, outcome: Result<TaskParamType, String>)
        requires
            old(self).wf(),
            !old(self).finished(),
        ensures
            final(self).wf(),
            final(self).plan() == old(self).plan(),
            match outcome {
                Ok(v) => final(self).completed() == old(self).completed() + 1
                    && final(self).carried() == v && final(self).failure() is None,
                Err(m) => {
                    &&& final(self).completed() == old(self).completed()
                    &&& final(self).carried() == old(self).carried()
                    &&& final(self).failure() matches Some(e)
                    &&& e.message == m
                    &&& e.task_name@ == unit_name(old(self).plan()[old(self).completed() as int])
                },
            },
    {
        let next = self.next;
        let len = self.plan.len();
        assert(next < len);
        match outcome {
            Ok(v) => {
                self.next = next + 1;
                self.carried = v;
            },
            Err(m) => {
                let task_name = self.plan[self.next].name();
                self.failure = Some(TaskError { task_name, message: m });
            },
        }
    }

    /// The result of a finished run: the last carried value, or the failure.
    pub fn into_result(self) -> (r: Result<TaskParamType, TaskError>)
        requires
            self.wf(),
            self.finished(),
        ensures
            match self.failure() {
                Some(e) => r == Err::<TaskParamType, TaskError>(e),
                None => r == Ok::<TaskParamType, TaskError>(self.carried()),
            },
    {
        match self.failure {
            Some(e) => Err(e),
            None => Ok(self.carried),
        }
    }
}

/// Something that performs tasks. Implementations carry out the work a unit
/// describes (files, processes, network) and report its outcome.
pub trait TaskPerformer {
    fn perform(&mut self, task: &TaskUnit, input: &TaskParamType) -> Result<TaskParamType, String>;
}

/// Runs `plan` to its end or to its first failure, handing each task the
/// value the previous one produced.
pub fn run_plan<P: TaskPerformer>(plan: Vec<TaskUnit>, performer: &mut P) -> (r: Result<
    TaskParamType,
    TaskError,
>)
    ensures
        plan@.len() == 0 ==> r == Ok::<TaskParamType, TaskError>(TaskParamType::Nothing),
        r matches Err(e) ==> exists|i: int|
            0 <= i < plan@.len() && e.task_name@ == unit_name(#[trigger] plan@[i]),
{
    let ghost units = plan@;
    let mut run = PlanRun::new(plan);
    loop
        invariant
            run.wf(),
            run.plan() == units,
            run.failure() matches Some(e) ==> exists|i: int|
                0 <= i < units.len() && e.task_name@ == unit_name(#[trigger] units[i]),
            units.len() == 0 ==> run.failure() is None && run.carried() == TaskParamType::Nothing,
        ensures
            run.wf(),
            run.finished(),
            run.failure() matches Some(e) ==> exists|i: int|
                0 <= i < units.len() && e.task_name@ == unit_name(#[trigger] units[i]),
            units.len() == 0 ==> run.failure() is None && run.carried() == TaskParamType::Nothing,
        decreases units.len() - run.completed(), if run.failure() is None { 1int } else { 0int },
    {
        let outcome = match run.current_task() {
            None => break,
            Some(task) => performer.perform(task, run.current_input()),
        };
        run.report(outcome);
    }
    run.into_result()
}

} // verus!
