//! Build bookkeeping: the step tracker, the log counters, the console
//! colouring, structured log entries with their text and JSON forms,
//! and the item-progress logger. Printing and the process-wide log
//! subscriber live with the runtime.

use vstd::prelude::*;

use crate::clock::local_timestamp_display;
use crate::clock::now_millis;
use crate::text::push_char;
use crate::text::spec_dec_digits;
use crate::text::str_eq;
use crate::text::u128_to_string;
use crate::text::u64_to_string;

verus! {

/// The severity of one log line.
#[derive(Debug, Clone, Copy, PartialEq, Eq, Structural)]
pub enum LogLevel {
    Error,
    Warn,
    Info,
    Debug,
    Trace,
}

/// The upper-case name of a level, padded to five characters as the
/// log lines carry it.
pub open spec fn spec_level_display(l: LogLevel) -> Seq<char> {
    match l {
        LogLevel::Error => "ERROR"@,
        LogLevel::Warn => " WARN"@,
        LogLevel::Info => " INFO"@,
        LogLevel::Debug => "DEBUG"@,
        LogLevel::Trace => "TRACE"@,
    }
}

fn level_display(l: LogLevel) -> (r: &'static str)
    ensures
        r@ == spec_level_display(l),
{
    match l {
        LogLevel::Error => "ERROR",
        LogLevel::Warn => " WARN",
        LogLevel::Info => " INFO",
        LogLevel::Debug => "DEBUG",
        LogLevel::Trace => "TRACE",
    }
}

/// Where one build step stands.
#[derive(Debug, Clone, Copy, PartialEq, Eq, Structural)]
pub enum StepStatus {
    Pending,
    InProgress,
    Completed,
    Failed,
    Skipped,
}

/// One step of the build, with its timing and progress.
#[derive(Debug)]
pub struct BuildStep {
    pub name: String,
    pub status: StepStatus,
    pub start_time_ms: Option<i64>,
    pub end_time_ms: Option<i64>,
    pub message: String,
    pub progress_percent: u32,
}

/// The whole build: its steps in order and when it began.
#[derive(Debug)]
pub struct BuildProgress {
    pub steps: Vec<BuildStep>,
    pub current_step: usize,
    pub start_time_ms: i64,
    pub total_steps: usize,
}

/// The counts a finished or running build reports.
#[derive(Debug, Clone)]
pub struct BuildSummary {
    pub total_steps: usize,
    pub completed: usize,
    pub failed: usize,
    pub skipped: usize,
    pub total_time_ms: u128,
}

/// The index of the first step named `name`, or -1 when none is.
pub open spec fn find_step(steps: Seq<BuildStep>, name: Seq<char>) -> int
    decreases steps.len(),
{
    if steps.len() == 0 {
        -1
    } else if steps[0].name@ == name {
        0
    } else {
        let rest = find_step(steps.drop_first(), name);
        if rest == -1 {
            -1
        } else {
            rest + 1
        }
    }
}

/// The index of the first step in the given status, or -1 when none is.
pub open spec fn find_status(steps: Seq<BuildStep>, status: StepStatus) -> int
    decreases steps.len(),
{
    if steps.len() == 0 {
        -1
    } else if steps[0].status == status {
        0
    } else {
        let rest = find_status(steps.drop_first(), status);
        if rest == -1 {
            -1
        } else {
            rest + 1
        }
    }
}

/// How many steps are in the given status.
pub open spec fn count_status(steps: Seq<BuildStep>, status: StepStatus) -> nat
    decreases steps.len(),
{
    if steps.len() == 0 {
        0
    } else {
        count_status(steps.drop_last(), status) + (if steps.last().status == status {
            1nat
        } else {
            0nat
        })
    }
}

proof fn lemma_find_step_at(steps: Seq<BuildStep>, name: Seq<char>, i: int)
    requires
        0 <= i < steps.len(),
        steps[i].name@ == name,
        forall|j: int| 0 <= j < i ==> steps[j].name@ != name,
    ensures
        find_step(steps, name) == i,
    decreases steps.len(),
{
    if i > 0 {
        lemma_find_step_at(steps.drop_first(), name, i - 1);
    }
}

proof fn lemma_find_step_absent(steps: Seq<BuildStep>, name: Seq<char>)
    requires
        forall|j: int| 0 <= j < steps.len() ==> steps[j].name@ != name,
    ensures
        find_step(steps, name) == -1,
    decreases steps.len(),
{
    if steps.len() > 0 {
        lemma_find_step_absent(steps.drop_first(), name);
    }
}

proof fn lemma_find_status_at(steps: Seq<BuildStep>, status: StepStatus, i: int)
    requires
        0 <= i < steps.len(),
        steps[i].status == status,
        forall|j: int| 0 <= j < i ==> steps[j].status != status,
    ensures
        find_status(steps, status) == i,
    decreases steps.len(),
{
    if i > 0 {
        lemma_find_status_at(steps.drop_first(), status, i - 1);
    }
}

proof fn lemma_find_status_absent(steps: Seq<BuildStep>, status: StepStatus)
    requires
        forall|j: int| 0 <= j < steps.len() ==> steps[j].status != status,
    ensures
        find_status(steps, status) == -1,
    decreases steps.len(),
{
    if steps.len() > 0 {
        lemma_find_status_absent(steps.drop_first(), status);
    }
}

impl BuildProgress {
    /// The step count is kept current and every progress figure is a
    /// percentage.
    pub open spec fn wf(&self) -> bool {
        &&& self.total_steps == self.steps@.len()
        &&& forall|i: int| 0 <= i < self.steps@.len() ==> self.steps@[i].progress_percent <= 100
    }

    /// A fresh tracker with no steps, begun now.
    pub fn new() -> (p: Self)
        ensures
            p.wf(),
            p.steps@.len() == 0,
            p.current_step == 0,
            p.total_steps == 0,
    {
        BuildProgress {
            steps: Vec::new(),
            current_step: 0,
            start_time_ms: now_millis(),
            total_steps: 0,
        }
    }

    /// Replaces the steps with the named ones, each pending at zero
    /// progress, and rewinds the step counter.
    pub fn init_steps(&mut self, step_names: Vec<String>)
        ensures
            final(self).wf(),
            final(self).steps@.len() == step_names@.len(),
            forall|i: int|
                0 <= i < step_names@.len() ==> {
                    &&& final(self).steps@[i].name@ == step_names@[i]@
                    &&& final(self).steps@[i].status == StepStatus::Pending
                    &&& final(self).steps@[i].start_time_ms is None
                    &&& final(self).steps@[i].end_time_ms is None
                    &&& final(self).steps@[i].message@.len() == 0
                    &&& final(self).steps@[i].progress_percent == 0
                },
            final(self).total_steps == step_names@.len(),
            final(self).current_step == 0,
            final(self).start_time_ms == old(self).start_time_ms,
    {
        let mut steps: Vec<BuildStep> = Vec::new();
        let mut i: usize = 0;
        while i < step_names.len()
            invariant
                i <= step_names@.len(),
                steps@.len() == i,
                forall|j: int|
                    0 <= j < i ==> {
                        &&& steps@[j].name@ == step_names@[j]@
                        &&& steps@[j].status == StepStatus::Pending
                        &&& steps@[j].start_time_ms is None
                        &&& steps@[j].end_time_ms is None
                        &&& steps@[j].message@.len() == 0
                        &&& steps@[j].progress_percent == 0
                    },
            decreases step_names@.len() - i,
        {
            steps.push(
                BuildStep {
                    name: step_names[i].clone(),
                    status: StepStatus::Pending,
                    start_time_ms: None,
                    end_time_ms: None,
                    message: String::new(),
                    progress_percent: 0,
                },
            );
            i += 1;
        }
        let n = steps.len();
        self.steps = steps;
        self.total_steps = n;
        self.current_step = 0;
    }

    fn position_of(&self, name: &str) -> (r: Option<usize>)
        ensures
            r matches Some(i) ==> 0 <= i < self.steps@.len() && i as int == find_step(
                self.steps@,
                name@,
            ),
            r is None ==> find_step(self.steps@, name@) == -1,
    {
        let mut i: usize = 0;
        while i < self.steps.len()
            invariant
                i <= self.steps@.len(),
                forall|j: int| 0 <= j < i ==> self.steps@[j].name@ != name@,
            decreases self.steps@.len() - i,
        {
            if str_eq(self.steps[i].name.as_str(), name) {
                proof {
                    lemma_find_step_at(self.steps@, name@, i as int);
                }
                return Some(i);
            }
            i += 1;
        }
        proof {
            lemma_find_step_absent(self.steps@, name@);
        }
        None
    }

    /// Marks the first step named `name` as running and stamps its
    /// start; with no such step, nothing changes.
    pub fn start_step(&mut self, name: &str)
        requires
            old(self).wf(),
        ensures
            final(self).wf(),
            final(self).current_step == old(self).current_step,
            final(self).total_steps == old(self).total_steps,
            final(self).start_time_ms == old(self).start_time_ms,
            find_step(old(self).steps@, name@) == -1 ==> final(self).steps == old(self).steps,
            find_step(old(self).steps@, name@) >= 0 ==> {
                let k = find_step(old(self).steps@, name@);
                &&& final(self).steps@.len() == old(self).steps@.len()
                &&& (forall|j: int|
                    0 <= j < old(self).steps@.len() && j != k ==> final(self).steps@[j] == old(
                        self,
                    ).steps@[j])
                &&& final(self).steps@[k].status == StepStatus::InProgress
                &&& final(self).steps@[k].start_time_ms is Some
                &&& final(self).steps@[k].name@ == old(self).steps@[k].name@
                &&& final(self).steps@[k].end_time_ms == old(self).steps@[k].end_time_ms
                &&& final(self).steps@[k].message@ == old(self).steps@[k].message@
                &&& final(self).steps@[k].progress_percent == old(self).steps@[k].progress_percent
            },
    {
        match self.position_of(name) {
            Some(i) => {
                let s = &self.steps[i];
                let updated = BuildStep {
                    name: s.name.clone(),
                    status: StepStatus::InProgress,
                    start_time_ms: Some(now_millis()),
                    end_time_ms: s.end_time_ms,
                    message: s.message.clone(),
                    progress_percent: s.progress_percent,
                };
                self.steps.set(i, updated);
            },
            None => {},
        }
    }

    /// Marks the first step named `name` as completed with `message`,
    /// stamps its end, sets its progress to 100 and advances the step
    /// counter; with no such step, nothing changes.
    pub fn complete_step(&mut self, name: &str, message: &str)
        requires
            old(self).wf(),
            old(self).current_step < usize::MAX,
        ensures
            final(self).wf(),
            final(self).total_steps == old(self).total_steps,
            final(self).start_time_ms == old(self).start_time_ms,
            find_step(old(self).steps@, name@) == -1 ==> final(self).steps == old(self).steps
                && final(self).current_step == old(self).current_step,
            find_step(old(self).steps@, name@) >= 0 ==> {
                let k = find_step(old(self).steps@, name@);
                &&& final(self).current_step == old(self).current_step + 1
                &&& final(self).steps@.len() == old(self).steps@.len()
                &&& (forall|j: int|
                    0 <= j < old(self).steps@.len() && j != k ==> final(self).steps@[j] == old(
                        self,
                    ).steps@[j])
                &&& final(self).steps@[k].status == StepStatus::Completed
                &&& final(self).steps@[k].end_time_ms is Some
                &&& final(self).steps@[k].name@ == old(self).steps@[k].name@
                &&& final(self).steps@[k].message@ == message@
                &&& final(self).steps@[k].progress_percent == 100
            },
    {
        match self.position_of(name) {
            Some(i) => {
                let s = &self.steps[i];
                let updated = BuildStep {
                    name: s.name.clone(),
                    status: StepStatus::Completed,
                    start_time_ms: s.start_time_ms,
                    end_time_ms: Some(now_millis()),
                    message: message.to_owned(),
                    progress_percent: 100,
                };
                self.steps.set(i, updated);
                self.current_step = self.current_step + 1;
            },
            None => {},
        }
    }

    /// Marks the first step named `name` as failed with `message`,
    /// stamps its end and advances the step counter; with no such step,
    /// nothing changes.
    pub fn fail_step(&mut self, name: &str, message: &str)
        requires
            old(self).wf(),
            old(self).current_step < usize::MAX,
        ensures
            final(self).wf(),
            final(self).total_steps == old(self).total_steps,
            final(self).start_time_ms == old(self).start_time_ms,
            find_step(old(self).steps@, name@) == -1 ==> final(self).steps == old(self).steps
                && final(self).current_step == old(self).current_step,
            find_step(old(self).steps@, name@) >= 0 ==> {
                let k = find_step(old(self).steps@, name@);
                &&& final(self).current_step == old(self).current_step + 1
                &&& final(self).steps@.len() == old(self).steps@.len()
                &&& (forall|j: int|
                    0 <= j < old(self).steps@.len() && j != k ==> final(self).steps@[j] == old(
                        self,
                    ).steps@[j])
                &&& final(self).steps@[k].status == StepStatus::Failed
                &&& final(self).steps@[k].end_time_ms is Some
                &&& final(self).steps@[k].name@ == old(self).steps@[k].name@
                &&& final(self).steps@[k].message@ == message@
                &&& final(self).steps@[k].progress_percent == old(self).steps@[k].progress_percent
            },
    {
        match self.position_of(name) {
            Some(i) => {
                let s = &self.steps[i];
                let updated = BuildStep {
                    name: s.name.clone(),
                    status: StepStatus::Failed,
                    start_time_ms: s.start_time_ms,
                    end_time_ms: Some(now_millis()),
                    message: message.to_owned(),
                    progress_percent: s.progress_percent,
                };
                self.steps.set(i, updated);
                self.current_step = self.current_step + 1;
            },
            None => {},
        }
    }

    /// Sets the progress of the first step named `name`; with no such
    /// step, nothing changes.
    pub fn update_progress(&mut self, name: &str, percent: u32)
        requires
            old(self).wf(),
            percent <= 100,
        ensures
            final(self).wf(),
            final(self).current_step == old(self).current_step,
            final(self).total_steps == old(self).total_steps,
            final(self).start_time_ms == old(self).start_time_ms,
            find_step(old(self).steps@, name@) == -1 ==> final(self).steps == old(self).steps,
            find_step(old(self).steps@, name@) >= 0 ==> {
                let k = find_step(old(self).steps@, name@);
                &&& final(self).steps@.len() == old(self).steps@.len()
                &&& (forall|j: int|
                    0 <= j < old(self).steps@.len() && j != k ==> final(self).steps@[j] == old(
                        self,
                    ).steps@[j])
                &&& final(self).steps@[k].progress_percent == percent
                &&& final(self).steps@[k].status == old(self).steps@[k].status
                &&& final(self).steps@[k].name@ == old(self).steps@[k].name@
            },
    {
        match self.position_of(name) {
            Some(i) => {
                let s = &self.steps[i];
                let updated = BuildStep {
                    name: s.name.clone(),
                    status: s.status,
                    start_time_ms: s.start_time_ms,
                    end_time_ms: s.end_time_ms,
                    message: s.message.clone(),
                    progress_percent: percent,
                };
                self.steps.set(i, updated);
            },
            None => {},
        }
    }

    fn count_with_status(&self, status: StepStatus) -> (r: usize)
        ensures
            r == count_status(self.steps@, status),
    {
        let mut count: usize = 0;
        let mut i: usize = 0;
        while i < self.steps.len()
            invariant
                i <= self.steps@.len(),
                count == count_status(self.steps@.subrange(0, i as int), status),
                count <= i,
            decreases self.steps@.len() - i,
        {
            proof {
                assert(self.steps@.subrange(0, i + 1).drop_last() =~= self.steps@.subrange(
                    0,
                    i as int,
                ));
            }
            if self.steps[i].status == status {
                count += 1;
            }
            i += 1;
        }
        proof {
            assert(self.steps@.subrange(0, self.steps@.len() as int) =~= self.steps@);
        }
        count
    }

    /// The completed share of the whole build, as a percentage: one
    /// hundred per completed step plus the progress of the running
    /// step, spread over all steps. Zero when there are no steps.
    pub fn get_overall_progress(&self) -> (r: u32)
        requires
            self.wf(),
        ensures
            r == spec_overall_progress(self.steps@, self.total_steps as nat),
    {
        if self.total_steps == 0 {
            return 0;
        }
        let completed = self.count_with_status(StepStatus::Completed);
        let in_progress: u32 = match self.first_in_progress() {
            Some(i) => self.steps[i].progress_percent,
            None => 0,
        };
        proof {
            lemma_count_status_le_len(self.steps@, StepStatus::Completed);
        }
        let num: u128 = (completed as u128) * 100 + (in_progress as u128);
        let total: u128 = self.total_steps as u128;
        let q: u128 = num / total;
        proof {
            assert(q <= 200) by (nonlinear_arith)
                requires
                    1 <= total,
                    num <= total * 100 + 100,
                    q == num / total,
            ;
        }
        q as u32
    }

    fn first_in_progress(&self) -> (r: Option<usize>)
        ensures
            r matches Some(i) ==> 0 <= i < self.steps@.len() && i as int == find_status(
                self.steps@,
                StepStatus::InProgress,
            ),
            r is None ==> find_status(self.steps@, StepStatus::InProgress) == -1,
    {
        let mut i: usize = 0;
        while i < self.steps.len()
            invariant
                i <= self.steps@.len(),
                forall|j: int| 0 <= j < i ==> self.steps@[j].status != StepStatus::InProgress,
            decreases self.steps@.len() - i,
        {
            if self.steps[i].status == StepStatus::InProgress {
                proof {
                    lemma_find_status_at(self.steps@, StepStatus::InProgress, i as int);
                }
                return Some(i);
            }
            i += 1;
        }
        proof {
            lemma_find_status_absent(self.steps@, StepStatus::InProgress);
        }
        None
    }

    /// The name of the running step, if one is running.
    pub fn get_current_step_name(&self) -> (r: Option<String>)
        ensures
            find_status(self.steps@, StepStatus::InProgress) >= 0 ==> (r matches Some(n) && n@
                == self.steps@[find_status(self.steps@, StepStatus::InProgress)].name@),
            find_status(self.steps@, StepStatus::InProgress) == -1 ==> r is None,
    {
        match self.first_in_progress() {
            Some(i) => Some(self.steps[i].name.clone()),
            None => None,
        }
    }

    /// The counts of the build so far, with the elapsed time.
    pub fn get_summary(&self) -> (r: BuildSummary)
        ensures
            r.total_steps == self.total_steps,
            r.completed == count_status(self.steps@, StepStatus::Completed),
            r.failed == count_status(self.steps@, StepStatus::Failed),
            r.skipped == count_status(self.steps@, StepStatus::Skipped),
    {
        let now = now_millis();
        let span: i128 = (now as i128) - (self.start_time_ms as i128);
        let total_time_ms: u128 = if span <= 0 {
            0
        } else {
            span as u128
        };
        BuildSummary {
            total_steps: self.total_steps,
            completed: self.count_with_status(StepStatus::Completed),
            failed: self.count_with_status(StepStatus::Failed),
            skipped: self.count_with_status(StepStatus::Skipped),
            total_time_ms,
        }
    }

    /// One line saying where the build stands: completed over total,
    /// then the failed, pending and running counts.
    pub fn get_status_summary(&self) -> (r: String)
        ensures
            r@ == spec_dec_digits(count_status(self.steps@, StepStatus::Completed)) + "/"@
                + spec_dec_digits(self.steps@.len()) + " completed, "@ + spec_dec_digits(
                count_status(self.steps@, StepStatus::Failed),
            ) + " failed, "@ + spec_dec_digits(count_status(self.steps@, StepStatus::Pending))
                + " pending, "@ + spec_dec_digits(
                count_status(self.steps@, StepStatus::InProgress),
            ) + " in progress"@,
    {
        let completed = self.count_with_status(StepStatus::Completed);
        let failed = self.count_with_status(StepStatus::Failed);
        let pending = self.count_with_status(StepStatus::Pending);
        let in_progress = self.count_with_status(StepStatus::InProgress);
        let mut out = u64_to_string(completed as u64);
        out.append("/");
        let total = u64_to_string(self.steps.len() as u64);
        out.append(total.as_str());
        out.append(" completed, ");
        let f = u64_to_string(failed as u64);
        out.append(f.as_str());
        out.append(" failed, ");
        let p = u64_to_string(pending as u64);
        out.append(p.as_str());
        out.append(" pending, ");
        let ip = u64_to_string(in_progress as u64);
        out.append(ip.as_str());
        out.append(" in progress");
        out
    }

    /// Back to a fresh tracker, begun now.
    pub fn reset(&mut self)
        ensures
            final(self).wf(),
            final(self).steps@.len() == 0,
            final(self).current_step == 0,
            final(self).total_steps == 0,
    {
        *self = Self::new();
    }
}

/// The overall percentage: one hundred per completed step plus the
/// running step's progress, spread over all steps.
pub open spec fn spec_overall_progress(steps: Seq<BuildStep>, total: nat) -> int {
    if total == 0 {
        0
    } else {
        let k = find_status(steps, StepStatus::InProgress);
        let part: int = if k == -1 {
            0
        } else {
            steps[k].progress_percent as int
        };
        (count_status(steps, StepStatus::Completed) * 100 + part) / (total as int)
    }
}

proof fn lemma_count_status_le_len(steps: Seq<BuildStep>, status: StepStatus)
    ensures
        count_status(steps, status) <= steps.len(),
    decreases steps.len(),
{
    if steps.len() > 0 {
        lemma_count_status_le_len(steps.drop_last(), status);
    }
}

impl Default for BuildProgress {
    /// The default tracker is a fresh one.
    fn default() -> (p: Self)
        ensures
            p.wf(),
            p.steps@.len() == 0,
            p.current_step == 0,
            p.total_steps == 0,
    {
        Self::new()
    }
}

/// Replaces the tracker's steps with the named ones; see
/// `BuildProgress::init_steps`.
pub fn init_build_progress(progress: &mut BuildProgress, steps: Vec<String>)
    ensures
        final(progress).wf(),
        final(progress).steps@.len() == steps@.len(),
        final(progress).total_steps == steps@.len(),
        final(progress).current_step == 0,
{
    progress.init_steps(steps);
}

/// Marks a step as running; see `BuildProgress::start_step`.
pub fn start_build_step(progress: &mut BuildProgress, name: &str)
    requires
        old(progress).wf(),
    ensures
        final(progress).wf(),
        find_step(old(progress).steps@, name@) >= 0 ==> final(progress).steps@[find_step(
            old(progress).steps@,
            name@,
        )].status == StepStatus::InProgress,
        find_step(old(progress).steps@, name@) == -1 ==> final(progress).steps == old(
            progress,
        ).steps,
{
    progress.start_step(name);
}

/// Marks a step as completed; see `BuildProgress::complete_step`.
pub fn complete_build_step(progress: &mut BuildProgress, name: &str, message: &str)
    requires
        old(progress).wf(),
        old(progress).current_step < usize::MAX,
    ensures
        final(progress).wf(),
        find_step(old(progress).steps@, name@) >= 0 ==> final(progress).steps@[find_step(
            old(progress).steps@,
            name@,
        )].status == StepStatus::Completed,
        find_step(old(progress).steps@, name@) == -1 ==> final(progress).steps == old(
            progress,
        ).steps,
{
    progress.complete_step(name, message);
}

/// Marks a step as failed; see `BuildProgress::fail_step`.
pub fn fail_build_step(progress: &mut BuildProgress, name: &str, error: &str)
    requires
        old(progress).wf(),
        old(progress).current_step < usize::MAX,
    ensures
        final(progress).wf(),
        find_step(old(progress).steps@, name@) >= 0 ==> final(progress).steps@[find_step(
            old(progress).steps@,
            name@,
        )].status == StepStatus::Failed,
        find_step(old(progress).steps@, name@) == -1 ==> final(progress).steps == old(
            progress,
        ).steps,
{
    progress.fail_step(name, error);
}

/// The counts of the build so far; see `BuildProgress::get_summary`.
pub fn get_build_summary(progress: &BuildProgress) -> (r: BuildSummary)
    ensures
        r.total_steps == progress.total_steps,
        r.completed == count_status(progress.steps@, StepStatus::Completed),
        r.failed == count_status(progress.steps@, StepStatus::Failed),
        r.skipped == count_status(progress.steps@, StepStatus::Skipped),
{
    progress.get_summary()
}

/// Counts log lines by severity.
#[derive(Debug)]
pub struct BuildStats {
    pub total_logs: u64,
    pub error_count: u64,
    pub warn_count: u64,
    pub info_count: u64,
    pub debug_count: u64,
}

/// A snapshot of the log counters.
#[derive(Debug, Clone, Copy)]
pub struct LogSummary {
    pub total: u64,
    pub errors: u64,
    pub warnings: u64,
    pub info: u64,
    pub debug: u64,
}

impl BuildStats {
    /// Fresh counters at zero.
    pub fn new() -> (s: Self)
        ensures
            s.total_logs == 0,
            s.error_count == 0,
            s.warn_count == 0,
            s.info_count == 0,
            s.debug_count == 0,
    {
        BuildStats {
            total_logs: 0,
            error_count: 0,
            warn_count: 0,
            info_count: 0,
            debug_count: 0,
        }
    }

    /// Counts one line of the given severity; debug and trace lines
    /// share one counter.
    pub fn increment(&mut self, level: LogLevel)
        requires
            old(self).total_logs < u64::MAX,
            old(self).error_count < u64::MAX,
            old(self).warn_count < u64::MAX,
            old(self).info_count < u64::MAX,
            old(self).debug_count < u64::MAX,
        ensures
            final(self).total_logs == old(self).total_logs + 1,
            final(self).error_count == old(self).error_count + (if level is Error {
                1int
            } else {
                0int
            }),
            final(self).warn_count == old(self).warn_count + (if level is Warn {
                1int
            } else {
                0int
            }),
            final(self).info_count == old(self).info_count + (if level is Info {
                1int
            } else {
                0int
            }),
            final(self).debug_count == old(self).debug_count + (
            if level is Debug || level is Trace {
                1int
            } else {
                0int
            }),
    {
        self.total_logs = self.total_logs + 1;
        match level {
            LogLevel::Error => {
                self.error_count = self.error_count + 1;
            },
            LogLevel::Warn => {
                self.warn_count = self.warn_count + 1;
            },
            LogLevel::Info => {
                self.info_count = self.info_count + 1;
            },
            LogLevel::Debug => {
                self.debug_count = self.debug_count + 1;
            },
            LogLevel::Trace => {
                self.debug_count = self.debug_count + 1;
            },
        }
    }

    /// The counters as one snapshot.
    pub fn get_summary(&self) -> (r: LogSummary)
        ensures
            r.total == self.total_logs,
            r.errors == self.error_count,
            r.warnings == self.warn_count,
            r.info == self.info_count,
            r.debug == self.debug_count,
    {
        LogSummary {
            total: self.total_logs,
            errors: self.error_count,
            warnings: self.warn_count,
            info: self.info_count,
            debug: self.debug_count,
        }
    }
}

/// The colour escape opening a line of the given severity.
pub open spec fn spec_color_code(l: LogLevel) -> Seq<char> {
    match l {
        LogLevel::Error => "\u{1b}[31m"@,
        LogLevel::Warn => "\u{1b}[33m"@,
        LogLevel::Info => "\u{1b}[32m"@,
        LogLevel::Debug => "\u{1b}[36m"@,
        LogLevel::Trace => "\u{1b}[90m"@,
    }
}

/// Wraps console lines in colour escapes when colours are on.
pub struct ConsoleWriter {
    pub use_colors: bool,
}

impl ConsoleWriter {
    /// A writer with colours on or off.
    pub fn new(use_colors: bool) -> (w: Self)
        ensures
            w.use_colors == use_colors,
    {
        ConsoleWriter { use_colors }
    }

    /// The message wrapped in the severity's colour escape, or the
    /// message itself with colours off.
    pub fn write_colored(&self, level: LogLevel, message: &str) -> (r: String)
        ensures
            self.use_colors ==> r@ == spec_color_code(level) + message@ + "\u{1b}[0m"@,
            !self.use_colors ==> r@ == message@,
    {
        if !self.use_colors {
            return message.to_owned();
        }
        let mut out: String = match level {
            LogLevel::Error => String::from_str("\u{1b}[31m"),
            LogLevel::Warn => String::from_str("\u{1b}[33m"),
            LogLevel::Info => String::from_str("\u{1b}[32m"),
            LogLevel::Debug => String::from_str("\u{1b}[36m"),
            LogLevel::Trace => String::from_str("\u{1b}[90m"),
        };
        out.append(message);
        out.append("\u{1b}[0m");
        out
    }
}

/// One structured log line: when, how severe, where from, what it says,
/// how long the step took, and free-form context pairs.
#[derive(Debug)]
pub struct BuildLogEntry {
    pub timestamp: String,
    pub level: LogLevel,
    pub module: String,
    pub message: String,
    pub duration_ms: Option<u128>,
    pub context: Vec<(String, String)>,
}

/// The unpadded upper-case name of a level, as the JSON form carries it.
pub open spec fn spec_level_name(l: LogLevel) -> Seq<char> {
    match l {
        LogLevel::Error => "ERROR"@,
        LogLevel::Warn => "WARN"@,
        LogLevel::Info => "INFO"@,
        LogLevel::Debug => "DEBUG"@,
        LogLevel::Trace => "TRACE"@,
    }
}

fn level_name(l: LogLevel) -> (r: &'static str)
    ensures
        r@ == spec_level_name(l),
{
    match l {
        LogLevel::Error => "ERROR",
        LogLevel::Warn => "WARN",
        LogLevel::Info => "INFO",
        LogLevel::Debug => "DEBUG",
        LogLevel::Trace => "TRACE",
    }
}

/// The hexadecimal digit character for a value below sixteen.
pub open spec fn spec_hex_digit(d: nat) -> char {
    if d == 0 {
        '0'
    } else if d == 1 {
        '1'
    } else if d == 2 {
        '2'
    } else if d == 3 {
        '3'
    } else if d == 4 {
        '4'
    } else if d == 5 {
        '5'
    } else if d == 6 {
        '6'
    } else if d == 7 {
        '7'
    } else if d == 8 {
        '8'
    } else if d == 9 {
        '9'
    } else if d == 10 {
        'a'
    } else if d == 11 {
        'b'
    } else if d == 12 {
        'c'
    } else if d == 13 {
        'd'
    } else if d == 14 {
        'e'
    } else {
        'f'
    }
}

fn hex_digit(d: u32) -> (c: char)
    requires
        d < 16,
    ensures
        c == spec_hex_digit(d as nat),
{
    match d {
        0 => '0',
        1 => '1',
        2 => '2',
        3 => '3',
        4 => '4',
        5 => '5',
        6 => '6',
        7 => '7',
        8 => '8',
        9 => '9',
        10 => 'a',
        11 => 'b',
        12 => 'c',
        13 => 'd',
        14 => 'e',
        _ => 'f',
    }
}

/// The JSON escape of one character: the two-character escapes for
/// quote, backslash and the common control characters, the `\u00..`
/// form for the remaining control characters, and the character itself
/// otherwise.
pub open spec fn spec_esc_char(c: char) -> Seq<char> {
    if c == '"' {
        seq!['\\', '"']
    } else if c == '\\' {
        seq!['\\', '\\']
    } else if c == '\n' {
        seq!['\\', 'n']
    } else if c == '\r' {
        seq!['\\', 'r']
    } else if c == '\t' {
        seq!['\\', 't']
    } else if (c as u32) < 32 {
        seq!['\\', 'u', '0', '0', spec_hex_digit((c as u32 / 16) as nat), spec_hex_digit(
            (c as u32 % 16) as nat,
        )]
    } else {
        seq![c]
    }
}

/// The JSON escape of a whole string.
pub open spec fn spec_json_escape(s: Seq<char>) -> Seq<char>
    decreases s.len(),
{
    if s.len() == 0 {
        Seq::empty()
    } else {
        spec_json_escape(s.drop_last()) + spec_esc_char(s.last())
    }
}

fn append_escaped(out: &mut String, c: char)
    ensures
        final(out)@ == old(out)@ + spec_esc_char(c),
{
    if c == '"' {
        push_char(out, '\\');
        push_char(out, '"');
    } else if c == '\\' {
        push_char(out, '\\');
        push_char(out, '\\');
    } else if c == '\n' {
        push_char(out, '\\');
        push_char(out, 'n');
    } else if c == '\r' {
        push_char(out, '\\');
        push_char(out, 'r');
    } else if c == '\t' {
        push_char(out, '\\');
        push_char(out, 't');
    } else if (c as u32) < 32 {
        push_char(out, '\\');
        push_char(out, 'u');
        push_char(out, '0');
        push_char(out, '0');
        push_char(out, hex_digit((c as u32) / 16));
        push_char(out, hex_digit((c as u32) % 16));
    } else {
        push_char(out, c);
    }
    proof {
        assert(final(out)@ =~= old(out)@ + spec_esc_char(c));
    }
}

/// Appends the JSON escape of `s` onto `out`.
fn append_json_escape(out: &mut String, s: &str)
    ensures
        final(out)@ == old(out)@ + spec_json_escape(s@),
{
    let len = s.unicode_len();
    let mut i: usize = 0;
    while i < len
        invariant
            i <= len,
            len == s@.len(),
            out@ == old(out)@ + spec_json_escape(s@.take(i as int)),
        decreases len - i,
    {
        let c = s.get_char(i);
        proof {
            assert(s@.take(i + 1).drop_last() =~= s@.take(i as int));
            assert(s@.take(i + 1).last() == c);
        }
        append_escaped(out, c);
        i += 1;
    }
    proof {
        assert(s@.take(len as int) =~= s@);
    }
}

/// The context pairs as a log-line suffix: one ` key:value` per pair.
pub open spec fn spec_ctx_text(ctx: Seq<(String, String)>) -> Seq<char>
    decreases ctx.len(),
{
    if ctx.len() == 0 {
        Seq::empty()
    } else {
        spec_ctx_text(ctx.drop_last()) + " "@ + ctx.last().0@ + ":"@ + ctx.last().1@
    }
}

/// The context pairs as a JSON array of two-element arrays.
pub open spec fn spec_ctx_json(ctx: Seq<(String, String)>) -> Seq<char>
    decreases ctx.len(),
{
    if ctx.len() == 0 {
        Seq::empty()
    } else {
        let entry = "[\""@ + spec_json_escape(ctx.last().0@) + "\",\""@ + spec_json_escape(
            ctx.last().1@,
        ) + "\"]"@;
        if ctx.len() == 1 {
            entry
        } else {
            spec_ctx_json(ctx.drop_last()) + ","@ + entry
        }
    }
}

/// The plain-text form of one entry.
pub open spec fn spec_entry_text(e: BuildLogEntry) -> Seq<char> {
    "["@ + e.timestamp@ + "] ["@ + spec_level_display(e.level) + "] ["@ + e.module@ + "] "@
        + e.message@ + (match e.duration_ms {
        Some(d) => " ("@ + spec_dec_digits(d as nat) + "ms)"@,
        None => Seq::empty(),
    }) + spec_ctx_text(e.context@)
}

/// The JSON form of one entry.
pub open spec fn spec_entry_json(e: BuildLogEntry) -> Seq<char> {
    "{\"timestamp\":\""@ + spec_json_escape(e.timestamp@) + "\",\"level\":\""@ + spec_level_name(
        e.level,
    ) + "\",\"module\":\""@ + spec_json_escape(e.module@) + "\",\"message\":\""@
        + spec_json_escape(e.message@) + "\",\"duration_ms\":"@ + (match e.duration_ms {
        Some(d) => spec_dec_digits(d as nat),
        None => "null"@,
    }) + ",\"context\":["@ + spec_ctx_json(e.context@) + "]}"@
}

impl BuildLogEntry {
    /// A fresh entry stamped now, with no duration and no context.
    pub fn new(level: LogLevel, module: String, message: String) -> (e: Self)
        ensures
            e.level == level,
            e.module == module,
            e.message == message,
            e.duration_ms is None,
            e.context@.len() == 0,
    {
        BuildLogEntry {
            timestamp: local_timestamp_display(),
            level,
            module,
            message,
            duration_ms: None,
            context: Vec::new(),
        }
    }

    /// The same entry with the duration set.
    pub fn with_duration(self, duration_ms: u128) -> (e: Self)
        ensures
            e.duration_ms == Some(duration_ms),
            e.timestamp == self.timestamp,
            e.level == self.level,
            e.module == self.module,
            e.message == self.message,
            e.context == self.context,
    {
        BuildLogEntry { duration_ms: Some(duration_ms), ..self }
    }

    /// The same entry with one more context pair.
    pub fn with_context(self, key: String, value: String) -> (e: Self)
        ensures
            e.context@ == self.context@.push((key, value)),
            e.timestamp == self.timestamp,
            e.level == self.level,
            e.module == self.module,
            e.message == self.message,
            e.duration_ms == self.duration_ms,
    {
        let mut context = self.context;
        context.push((key, value));
        BuildLogEntry { context, ..self }
    }

    /// The entry as one log line.
    pub fn to_text(&self) -> (r: String)
        ensures
            r@ == spec_entry_text(*self),
    {
        let mut out = String::from_str("[");
        out.append(self.timestamp.as_str());
        out.append("] [");
        out.append(level_display(self.level));
        out.append("] [");
        out.append(self.module.as_str());
        out.append("] ");
        out.append(self.message.as_str());
        match self.duration_ms {
            Some(d) => {
                out.append(" (");
                let digits = u128_to_string(d);
                out.append(digits.as_str());
                out.append("ms)");
            },
            None => {},
        }
        let ghost head = out@;
        let mut i: usize = 0;
        while i < self.context.len()
            invariant
                i <= self.context@.len(),
                out@ == head + spec_ctx_text(self.context@.subrange(0, i as int)),
            decreases self.context@.len() - i,
        {
            proof {
                assert(self.context@.subrange(0, i + 1).drop_last() =~= self.context@.subrange(
                    0,
                    i as int,
                ));
            }
            let pair = &self.context[i];
            out.append(" ");
            out.append(pair.0.as_str());
            out.append(":");
            out.append(pair.1.as_str());
            proof {
                assert(out@ =~= head + spec_ctx_text(self.context@.subrange(0, i + 1)));
            }
            i += 1;
        }
        proof {
            assert(self.context@.subrange(0, self.context@.len() as int) =~= self.context@);
            assert(out@ =~= spec_entry_text(*self));
        }
        out
    }

    /// The entry as one JSON object, with every string escaped.
    pub fn to_json(&self) -> (r: String)
        ensures
            r@ == spec_entry_json(*self),
    {
        let mut out = String::from_str("{\"timestamp\":\"");
        append_json_escape(&mut out, self.timestamp.as_str());
        out.append("\",\"level\":\"");
        out.append(level_name(self.level));
        out.append("\",\"module\":\"");
        append_json_escape(&mut out, self.module.as_str());
        out.append("\",\"message\":\"");
        append_json_escape(&mut out, self.message.as_str());
        out.append("\",\"duration_ms\":");
        match self.duration_ms {
            Some(d) => {
                let digits = u128_to_string(d);
                out.append(digits.as_str());
            },
            None => {
                out.append("null");
            },
        }
        out.append(",\"context\":[");
        let ghost head = out@;
        let mut i: usize = 0;
        while i < self.context.len()
            invariant
                i <= self.context@.len(),
                out@ == head + spec_ctx_json(self.context@.subrange(0, i as int)),
            decreases self.context@.len() - i,
        {
            proof {
                assert(self.context@.subrange(0, i + 1).drop_last() =~= self.context@.subrange(
                    0,
                    i as int,
                ));
            }
            if i > 0 {
                out.append(",");
            }
            let pair = &self.context[i];
            out.append("[\"");
            append_json_escape(&mut out, pair.0.as_str());
            out.append("\",\"");
            append_json_escape(&mut out, pair.1.as_str());
            out.append("\"]");
            proof {
                assert(out@ =~= head + spec_ctx_json(self.context@.subrange(0, i + 1)));
            }
            i += 1;
        }
        proof {
            assert(self.context@.subrange(0, self.context@.len() as int) =~= self.context@);
        }
        out.append("]}");
        proof {
            assert(out@ =~= spec_entry_json(*self));
        }
        out
    }
}

/// A per-module logger that stamps entries with the time since its
/// creation. The printing of its entries is the runtime's work.
pub struct TimedBuildLogger {
    pub start_time_ms: i64,
    pub module: String,
}

impl TimedBuildLogger {
    /// A fresh logger for `module`, begun now.
    pub fn new(module: &str) -> (l: Self)
        ensures
            l.module@ == module@,
    {
        TimedBuildLogger { start_time_ms: now_millis(), module: module.to_owned() }
    }

    /// Milliseconds since the logger was created, by the wall clock.
    pub fn elapsed(&self) -> u64 {
        elapsed_since(self.start_time_ms)
    }

    /// Milliseconds since the logger was created, by the wall clock.
    pub fn elapsed_ms(&self) -> u64 {
        elapsed_since(self.start_time_ms)
    }
}

/// The wall-clock span since `start_ms`, clamped to zero when the clock
/// moved backwards.
pub(crate) fn elapsed_since(start_ms: i64) -> u64 {
    let now = now_millis();
    let span: i128 = (now as i128) - (start_ms as i128);
    if span <= 0 {
        0
    } else if span > (u64::MAX as i128) {
        u64::MAX
    } else {
        span as u64
    }
}

/// The configuration of the process-wide log subscriber; installing it
/// is the runtime's work.
pub struct Logger {
    pub log_dir: String,
    pub use_colors: bool,
    pub json_output: bool,
}

impl Logger {
    /// A logger writing under `log_dir`, with colours on and JSON off.
    pub fn new(log_dir: String) -> (l: Self)
        ensures
            l.log_dir == log_dir,
            l.use_colors,
            !l.json_output,
    {
        Logger { log_dir, use_colors: true, json_output: false }
    }

    /// The same logger with colours switched.
    pub fn with_colors(self, use_colors: bool) -> (l: Self)
        ensures
            l.log_dir == self.log_dir,
            l.use_colors == use_colors,
            l.json_output == self.json_output,
    {
        Logger { use_colors, ..self }
    }

    /// The same logger with JSON output switched.
    pub fn with_json(self, json: bool) -> (l: Self)
        ensures
            l.log_dir == self.log_dir,
            l.use_colors == self.use_colors,
            l.json_output == json,
    {
        Logger { json_output: json, ..self }
    }
}

/// Counts items done against a total; reporting the rate is the
/// runtime's work.
pub struct ProgressLogger {
    pub name: String,
    pub start_time_ms: i64,
    pub total_items: usize,
    pub completed_items: u64,
}

impl ProgressLogger {
    /// A fresh progress logger for `total_items` items, begun now.
    pub fn new(name: &str, total_items: usize) -> (l: Self)
        ensures
            l.name@ == name@,
            l.total_items == total_items,
            l.completed_items == 0,
    {
        ProgressLogger {
            name: name.to_owned(),
            start_time_ms: now_millis(),
            total_items,
            completed_items: 0,
        }
    }

    /// Books `count` more items as done.
    pub fn increment(&mut self, count: usize)
        requires
            old(self).completed_items + count <= u64::MAX,
        ensures
            final(self).completed_items == old(self).completed_items + count,
            final(self).name == old(self).name,
            final(self).total_items == old(self).total_items,
            final(self).start_time_ms == old(self).start_time_ms,
    {
        self.completed_items = self.completed_items + (count as u64);
    }

    /// Closes the run and reports how many items were done.
    pub fn complete(&self) -> (r: u64)
        ensures
            r == self.completed_items,
    {
        self.completed_items
    }
}

} // verus!
