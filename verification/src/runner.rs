use vstd::prelude::*;
use crate::app::{JobSignal, JobSignalView};
use crate::bitrate::{plan, plan_spec};
use crate::command::{
    build, command_line, command_log_line, encoder_args, output_path, output_path_spec, probe_args,
    probe_args_spec,
};
use crate::error::JobError;
use crate::probe::{interpret_probe, probe_spec, ProbeRun, ProbeRunView};
use crate::text::texts;
use crate::types::app::AppConfig;

verus! {

/// Where one job stands.
#[derive(Clone, Copy, Debug, PartialEq, Eq, Structural)]
pub enum RunnerState {
    /// Nothing has been done yet.
    Idle,
    /// The probe tool is running on the source.
    Probing,
    /// The encoder is running.
    Running,
    /// The encoder has exited and its output is being measured.
    Finalizing,
    /// The job has ended; `success` tells whether the encoder was run.
    Completed { success: bool },
}

/// What happened outside since the last step of a job.
#[derive(Debug)]
pub enum JobEvent {
    /// The job's file has been claimed from the queue.
    Claimed,
    /// The probe tool has ended.
    Probed(ProbeRun),
    /// The encoder could not be started.
    SpawnFailed,
    /// The encoder has written a line of diagnostics.
    Line(String),
    /// The encoder has exited, with whatever status.
    Exited,
    /// The output file has been looked for: its size, or none where it
    /// is missing.
    Measured(Option<u64>),
}

/// What is to be done outside before the next step of a job.
#[derive(Debug)]
pub enum JobAction {
    /// Run the probe tool with these arguments and report how it ended.
    RunProbe { args: Vec<String> },
    /// Run the encoder with these arguments; report each line of its
    /// diagnostics as it comes, and its exit.
    RunEncoder { args: Vec<String> },
    /// Look for the file at this path and report its size.
    MeasureOutput { path: String },
    /// Give up on the whole program for this reason: the job cannot go
    /// on and will not end.
    Abort { error: JobError },
    /// Nothing: go on reporting, or stop where the job has ended.
    Nothing,
}

/// The outcome of one step: what the job signals, in order, and what is
/// to be done next.
#[derive(Debug)]
pub struct Step {
    pub signals: Vec<JobSignal>,
    pub action: JobAction,
}

/// One job: a source file, the options it was started with, and how far
/// it has come.
#[derive(Debug)]
pub struct JobRunner {
    state: RunnerState,
    path: String,
    config: AppConfig,
}

pub enum JobEventView {
    Claimed,
    Probed(ProbeRunView),
    SpawnFailed,
    Line(Seq<char>),
    Exited,
    Measured(Option<u64>),
}

pub enum JobActionView {
    RunProbe { args: Seq<Seq<char>> },
    RunEncoder { args: Seq<Seq<char>> },
    MeasureOutput { path: Seq<char> },
    Abort { error: JobError },
    Nothing,
}

pub struct StepView {
    pub signals: Seq<JobSignalView>,
    pub action: JobActionView,
}

pub struct RunnerView {
    pub state: RunnerState,
    pub path: Seq<char>,
    pub config: AppConfig,
}

impl View for JobEvent {
    type V = JobEventView;

    open spec fn view(&self) -> JobEventView {
        match self {
            JobEvent::Claimed => JobEventView::Claimed,
            JobEvent::Probed(run) => JobEventView::Probed(run@),
            JobEvent::SpawnFailed => JobEventView::SpawnFailed,
            JobEvent::Line(text) => JobEventView::Line(text@),
            JobEvent::Exited => JobEventView::Exited,
            JobEvent::Measured(size) => JobEventView::Measured(*size),
        }
    }
}

impl View for JobAction {
    type V = JobActionView;

    open spec fn view(&self) -> JobActionView {
        match self {
            JobAction::RunProbe { args } => JobActionView::RunProbe { args: texts(args@) },
            JobAction::RunEncoder { args } => JobActionView::RunEncoder { args: texts(args@) },
            JobAction::MeasureOutput { path } => JobActionView::MeasureOutput { path: path@ },
            JobAction::Abort { error } => JobActionView::Abort { error: *error },
            JobAction::Nothing => JobActionView::Nothing,
        }
    }
}

/// A list of signals as contracts speak of it.
pub open spec fn signals_view(signals: Seq<JobSignal>) -> Seq<JobSignalView> {
    signals.map_values(|signal: JobSignal| signal@)
}

impl View for Step {
    type V = StepView;

    open spec fn view(&self) -> StepView {
        StepView { signals: signals_view(self.signals@), action: self.action@ }
    }
}

impl View for JobRunner {
    type V = RunnerView;

    closed spec fn view(&self) -> RunnerView {
        RunnerView { state: self.state, path: self.path@, config: self.config }
    }
}

/// The encoder's arguments for a source, from how its probe ended: the
/// probe's figures give the bitrates, and these, with the options, the
/// arguments. A failed probe or a duration that is not positive gives
/// the error instead.
pub open spec fn prepared_args(path: Seq<char>, config: AppConfig, run: ProbeRunView) -> Result<
    Seq<Seq<char>>,
    JobError,
> {
    match probe_spec(run) {
        Err(e) => Err(e),
        Ok(stats) => match plan_spec(config.target_size_mb, stats.duration_micros, stats.audio_bps) {
            Err(e) => Err(e),
            Ok(planned) => Ok(encoder_args(path, output_path_spec(path), config, planned)),
        },
    }
}

/// A step that signals nothing and asks for nothing.
pub open spec fn quiet_step() -> StepView {
    StepView { signals: Seq::empty(), action: JobActionView::Nothing }
}

/// The step that a job takes on an event: the job afterwards, and the
/// step's outcome. An event that the job's state does not expect leaves
/// the job as it is. So does an encoder that cannot be started: the job
/// neither goes on nor ends, and the step asks to give up.
pub open spec fn step_spec(job: RunnerView, event: JobEventView) -> (RunnerView, StepView) {
    match (job.state, event) {
        (RunnerState::Idle, JobEventView::Claimed) => (
            RunnerView { state: RunnerState::Probing, ..job },
            StepView {
                signals: Seq::empty(),
                action: JobActionView::RunProbe { args: probe_args_spec(job.path) },
            },
        ),
        (RunnerState::Probing, JobEventView::Probed(run)) => match prepared_args(
            job.path,
            job.config,
            run,
        ) {
            Err(e) => (
                RunnerView { state: RunnerState::Completed { success: false }, ..job },
                StepView {
                    signals: seq![JobSignalView::Line(e.message_spec()), JobSignalView::Done],
                    action: JobActionView::Nothing,
                },
            ),
            Ok(args) => (
                RunnerView { state: RunnerState::Running, ..job },
                StepView {
                    signals: seq![JobSignalView::Line("Running command: "@ + command_line(args))],
                    action: JobActionView::RunEncoder { args },
                },
            ),
        },
        (RunnerState::Running, JobEventView::SpawnFailed) => (
            job,
            StepView {
                signals: Seq::empty(),
                action: JobActionView::Abort { error: JobError::SpawnFailed },
            },
        ),
        (RunnerState::Running, JobEventView::Line(text)) => (
            job,
            StepView { signals: seq![JobSignalView::Line(text)], action: JobActionView::Nothing },
        ),
        (RunnerState::Running, JobEventView::Exited) => (
            RunnerView { state: RunnerState::Finalizing, ..job },
            StepView {
                signals: Seq::empty(),
                action: JobActionView::MeasureOutput { path: output_path_spec(job.path) },
            },
        ),
        (RunnerState::Finalizing, JobEventView::Measured(size)) => (
            RunnerView { state: RunnerState::Completed { success: true }, ..job },
            StepView {
                signals: match size {
                    Some(bytes) => seq![JobSignalView::OutputSize(bytes), JobSignalView::Done],
                    None => seq![JobSignalView::Done],
                },
                action: JobActionView::Nothing,
            },
        ),
        _ => (job, quiet_step()),
    }
}

/// Works out the encoder's arguments for a source from how its probe
/// ended.
pub fn prepare_job(path: &str, config: &AppConfig, run: &ProbeRun) -> (r: Result<
    Vec<String>,
    JobError,
>)
    ensures
        r is Ok <==> prepared_args(path@, *config, run@) is Ok,
        r is Ok ==> texts(r.unwrap()@) == prepared_args(path@, *config, run@).unwrap(),
        r is Err ==> prepared_args(path@, *config, run@) == Err::<Seq<Seq<char>>, JobError>(
            r.unwrap_err(),
        ),
{
    let stats = match interpret_probe(run) {
        Ok(stats) => stats,
        Err(e) => {
            return Err(e);
        },
    };
    let planned = match plan(config.target_size_mb, stats.duration_micros, stats.audio_bps) {
        Ok(planned) => planned,
        Err(e) => {
            return Err(e);
        },
    };
    let output = output_path(path);
    Ok(build(path, output.as_str(), config, &planned))
}

fn quiet() -> (step: Step)
    ensures
        step@ == quiet_step(),
{
    let step = Step { signals: Vec::new(), action: JobAction::Nothing };
    assert(step@.signals =~= Seq::empty());
    step
}

impl JobRunner {
    /// A job on `path` with the given options, not yet begun.
    pub fn new(path: String, config: AppConfig) -> (job: Self)
        ensures
            job@ == (RunnerView { state: RunnerState::Idle, path: path@, config }),
    {
        JobRunner { state: RunnerState::Idle, path, config }
    }

    pub fn state(&self) -> (state: RunnerState)
        ensures
            state == self@.state,
    {
        self.state
    }

    /// The source file of the job.
    pub fn path(&self) -> (path: &String)
        ensures
            path@ == self@.path,
    {
        &self.path
    }

    /// Whether the job has ended.
    pub fn is_completed(&self) -> (done: bool)
        ensures
            done == (self@.state is Completed),
    {
        match self.state {
            RunnerState::Completed { .. } => true,
            _ => false,
        }
    }

    /// Takes the job one step further on an event.
    pub fn step(&mut self, event: JobEvent) -> (step: Step)
        ensures
            (final(self)@, step@) == step_spec(old(self)@, event@),
    {
        match (self.state, event) {
            (RunnerState::Idle, JobEvent::Claimed) => {
                self.state = RunnerState::Probing;
                let step = Step {
                    signals: Vec::new(),
                    action: JobAction::RunProbe { args: probe_args(self.path.as_str()) },
                };
                assert(step@.signals =~= Seq::empty());
                step
            },
            (RunnerState::Probing, JobEvent::Probed(run)) => {
                match prepare_job(self.path.as_str(), &self.config, &run) {
                    Err(e) => {
                        self.state = RunnerState::Completed { success: false };
                        let mut signals: Vec<JobSignal> = Vec::new();
                        signals.push(JobSignal::Line(e.message().to_string()));
                        signals.push(JobSignal::Done);
                        let step = Step { signals, action: JobAction::Nothing };
                        assert(step@.signals =~= seq![
                            JobSignalView::Line(e.message_spec()),
                            JobSignalView::Done,
                        ]);
                        step
                    },
                    Ok(args) => {
                        self.state = RunnerState::Running;
                        let mut signals: Vec<JobSignal> = Vec::new();
                        signals.push(JobSignal::Line(command_log_line(&args)));
                        let ghost shown = texts(args@);
                        let step = Step { signals, action: JobAction::RunEncoder { args } };
                        assert(step@.signals =~= seq![
                            JobSignalView::Line("Running command: "@ + command_line(shown)),
                        ]);
                        step
                    },
                }
            },
            (RunnerState::Running, JobEvent::SpawnFailed) => {
                let step = Step {
                    signals: Vec::new(),
                    action: JobAction::Abort { error: JobError::SpawnFailed },
                };
                assert(step@.signals =~= Seq::empty());
                step
            },
            (RunnerState::Running, JobEvent::Line(text)) => {
                let mut signals: Vec<JobSignal> = Vec::new();
                let ghost shown = text@;
                signals.push(JobSignal::Line(text));
                let step = Step { signals, action: JobAction::Nothing };
                assert(step@.signals =~= seq![JobSignalView::Line(shown)]);
                step
            },
            (RunnerState::Running, JobEvent::Exited) => {
                self.state = RunnerState::Finalizing;
                let step = Step {
                    signals: Vec::new(),
                    action: JobAction::MeasureOutput { path: output_path(self.path.as_str()) },
                };
                assert(step@.signals =~= Seq::empty());
                step
            },
            (RunnerState::Finalizing, JobEvent::Measured(size)) => {
                self.state = RunnerState::Completed { success: true };
                let mut signals: Vec<JobSignal> = Vec::new();
                match size {
                    Some(bytes) => {
                        signals.push(JobSignal::OutputSize(bytes));
                    },
                    None => {},
                }
                signals.push(JobSignal::Done);
                let step = Step { signals, action: JobAction::Nothing };
                proof {
                    match size {
                        Some(bytes) => {
                            assert(step@.signals =~= seq![
                                JobSignalView::OutputSize(bytes),
                                JobSignalView::Done,
                            ]);
                        },
                        None => {
                            assert(step@.signals =~= seq![JobSignalView::Done]);
                        },
                    }
                }
                step
            },
            _ => quiet(),
        }
    }
}

/// `Done` is the last signal of a job and is given once. A step gives
/// `Done` exactly where it ends a job that had not ended, and then as its
/// last signal; a job that has ended takes no further step; and no step
/// changes the job's source or options.
pub proof fn done_is_last_and_given_once(job: RunnerView, event: JobEventView)
    ensures
        ({
            let (next, step) = step_spec(job, event);
            let n = step.signals.len();
            &&& forall|i: int| 0 <= i < n - 1 ==> step.signals[i] != JobSignalView::Done
            &&& (n > 0 && step.signals[n - 1] == JobSignalView::Done) <==> (!(job.state is Completed)
                && next.state is Completed)
            &&& job.state is Completed ==> next == job && step == quiet_step()
            &&& next.path == job.path && next.config == job.config
        }),
{
}

/// The encoder is run only after a probe whose figures give a plan: a
/// step asks for it exactly where a probing job learns of such a probe,
/// and a step that ends a job asks for nothing.
pub proof fn encoder_runs_only_after_a_good_probe(job: RunnerView, event: JobEventView)
    ensures
        ({
            let (next, step) = step_spec(job, event);
            &&& step.action is RunEncoder <==> job.state == RunnerState::Probing && event is Probed
                && prepared_args(job.path, job.config, event->Probed_0) is Ok
            &&& next.state is Completed ==> step.action == JobActionView::Nothing
            &&& next.state == (RunnerState::Completed { success: false }) && next != job
                <==> job.state == RunnerState::Probing && event is Probed && prepared_args(
                job.path,
                job.config,
                event->Probed_0,
            ) is Err
        }),
{
}

} // verus!
