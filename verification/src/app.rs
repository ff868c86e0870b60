use vstd::prelude::*;
use crate::text::texts;
use crate::types::app::{AppConfig, FileStatus, QueueItem, QueueItemView};

verus! {

/// The page of the window that is shown.
#[derive(Clone, Copy, Debug, PartialEq, Eq, Structural)]
pub enum Tab {
    Main,
    Options,
    Output,
}

/// What a running job reports, in the order in which it happened.
/// `Done` is the last signal of every job.
#[derive(Debug)]
pub enum JobSignal {
    /// One line of the encoder's diagnostic output.
    Line(String),
    /// The size of the file that the encoder produced.
    OutputSize(u64),
    /// The job has ended.
    Done,
}

/// What a job is started with: the claimed file, and the options as they
/// stood when it was claimed. Later edits of the options do not reach it.
#[derive(Debug)]
pub struct JobRequest {
    pub item: QueueItem,
    pub config: AppConfig,
}

/// The queue, the log and the flags that the window and the jobs share.
pub struct MyApp {
    config: AppConfig,
    config_dirty: bool,
    video_queue: Vec<QueueItem>,
    ffmpeg_log: Vec<String>,
    ffmpeg_busy: bool,
    should_start_next: bool,
    current_tab: Tab,
}

/// The state as contracts speak of it.
pub struct AppView {
    pub config: AppConfig,
    /// The options were edited since they were last stored.
    pub config_dirty: bool,
    /// The queued files, oldest first.
    pub queue: Seq<QueueItemView>,
    /// The diagnostic lines, oldest first.
    pub log: Seq<Seq<char>>,
    /// A job is running.
    pub busy: bool,
    /// A job has ended and the next one has not been started for it yet.
    pub start_next: bool,
    pub tab: Tab,
}

/// Some file of the queue has the status `status`.
pub open spec fn has_status(queue: Seq<QueueItemView>, status: FileStatus) -> bool {
    exists|i: int| 0 <= i < queue.len() && (#[trigger] queue[i]).status == status
}

/// The file at `i` waits, and no file before it does.
pub open spec fn is_oldest_waiting(queue: Seq<QueueItemView>, i: int) -> bool {
    &&& 0 <= i < queue.len()
    &&& queue[i].status == FileStatus::Waiting
    &&& forall|j: int| 0 <= j < i ==> (#[trigger] queue[j]).status != FileStatus::Waiting
}

/// The place of the oldest waiting file, where there is one.
pub open spec fn oldest_waiting(queue: Seq<QueueItemView>) -> int {
    choose|i: int| is_oldest_waiting(queue, i)
}

/// The file at `i` is the one that a job runs on, and has the path `path`.
pub open spec fn is_running(queue: Seq<QueueItemView>, i: int, path: Seq<char>) -> bool {
    &&& 0 <= i < queue.len()
    &&& queue[i].status == FileStatus::Processing
    &&& queue[i].path == path
}

/// The place of the file that a job runs on under the path `path`.
pub open spec fn running_index(queue: Seq<QueueItemView>, path: Seq<char>) -> int {
    choose|i: int| is_running(queue, i, path)
}

/// A job runs on a file with the path `path`.
pub open spec fn runs_on(queue: Seq<QueueItemView>, path: Seq<char>) -> bool {
    exists|i: int| is_running(queue, i, path)
}

/// The file as it is once claimed.
pub open spec fn claimed(item: QueueItemView) -> QueueItemView {
    QueueItemView { status: FileStatus::Processing, ..item }
}

/// The file as it is once its job has ended: a size that was measured
/// replaces what was recorded, none leaves it.
pub open spec fn finished(item: QueueItemView, output_size: Option<u64>) -> QueueItemView {
    QueueItemView {
        status: FileStatus::Done,
        output_size_bytes: if output_size is Some {
            output_size
        } else {
            item.output_size_bytes
        },
        ..item
    }
}

/// The queued files as contracts speak of them.
pub open spec fn queue_view(items: Seq<QueueItem>) -> Seq<QueueItemView> {
    items.map_values(|item: QueueItem| item@)
}

/// The file with an output size recorded.
pub open spec fn measured(item: QueueItemView, size: u64) -> QueueItemView {
    QueueItemView { output_size_bytes: Some(size), ..item }
}

/// A signal as contracts speak of it.
pub enum JobSignalView {
    Line(Seq<char>),
    OutputSize(u64),
    Done,
}

impl View for JobSignal {
    type V = JobSignalView;

    open spec fn view(&self) -> JobSignalView {
        match self {
            JobSignal::Line(text) => JobSignalView::Line(text@),
            JobSignal::OutputSize(size) => JobSignalView::OutputSize(*size),
            JobSignal::Done => JobSignalView::Done,
        }
    }
}

impl AppView {
    /// A claim would succeed: no job is running and a file waits.
    pub open spec fn can_claim(self) -> bool {
        !self.busy && has_status(self.queue, FileStatus::Waiting)
    }

    /// The state after a claim: the oldest waiting file is `Processing`
    /// and the busy flag is up; where no claim can succeed, the state as
    /// it was.
    pub open spec fn after_claim(self) -> AppView {
        if self.can_claim() {
            let k = oldest_waiting(self.queue);
            AppView { queue: self.queue.update(k, claimed(self.queue[k])), busy: true, ..self }
        } else {
            self
        }
    }

    /// The state after the job on `path` has ended: its file is `Done`,
    /// the busy flag is down and the next job is asked for; where no job
    /// runs on that path, the state as it was.
    pub open spec fn after_done(self, path: Seq<char>, output_size: Option<u64>) -> AppView {
        if runs_on(self.queue, path) {
            let k = running_index(self.queue, path);
            AppView {
                queue: self.queue.update(k, finished(self.queue[k], output_size)),
                busy: false,
                start_next: true,
                ..self
            }
        } else {
            self
        }
    }

    /// The state after the job on `path` has reported its output's size.
    pub open spec fn after_output_size(self, path: Seq<char>, size: u64) -> AppView {
        if runs_on(self.queue, path) {
            let k = running_index(self.queue, path);
            AppView { queue: self.queue.update(k, measured(self.queue[k], size)), ..self }
        } else {
            self
        }
    }

    /// The state after a signal of the job on `path`.
    pub open spec fn after_signal(self, path: Seq<char>, signal: JobSignalView) -> AppView {
        match signal {
            JobSignalView::Line(text) => AppView { log: self.log.push(text), ..self },
            JobSignalView::OutputSize(size) => self.after_output_size(path, size),
            JobSignalView::Done => self.after_done(path, None),
        }
    }

    /// The state after a redraw: the request for the next job is taken
    /// and answered by a claim, but only while no job is running and the
    /// queue holds something.
    pub open spec fn after_poll(self) -> AppView {
        if self.start_next && !self.busy && self.queue.len() > 0 {
            (AppView { start_next: false, ..self }).after_claim()
        } else {
            self
        }
    }

    /// At most one file is being processed, and the busy flag is up
    /// exactly while one is. A waiting file has no output size.
    pub open spec fn wf(self) -> bool {
        &&& self.busy <==> has_status(self.queue, FileStatus::Processing)
        &&& forall|i: int, j: int|
            0 <= i < self.queue.len() && 0 <= j < self.queue.len() && (#[trigger] self.queue[i]).status
                == FileStatus::Processing && (#[trigger] self.queue[j]).status
                == FileStatus::Processing ==> i == j
        &&& forall|i: int|
            0 <= i < self.queue.len() && (#[trigger] self.queue[i]).status == FileStatus::Waiting
                ==> self.queue[i].output_size_bytes is None
    }
}

/// Only one place can hold the oldest waiting file.
pub proof fn oldest_waiting_is_unique(queue: Seq<QueueItemView>, i: int, j: int)
    requires
        is_oldest_waiting(queue, i),
        is_oldest_waiting(queue, j),
    ensures
        i == j,
{
    if i < j {
        assert(queue[i].status != FileStatus::Waiting);
    }
    if j < i {
        assert(queue[j].status != FileStatus::Waiting);
    }
}

impl View for MyApp {
    type V = AppView;

    closed spec fn view(&self) -> AppView {
        AppView {
            config: self.config,
            config_dirty: self.config_dirty,
            queue: queue_view(self.video_queue@),
            log: texts(self.ffmpeg_log@),
            busy: self.ffmpeg_busy,
            start_next: self.should_start_next,
            tab: self.current_tab,
        }
    }
}

impl MyApp {
    /// The state at start: the given options, nothing queued, nothing
    /// logged, no job running, the main page shown.
    pub fn new(config: AppConfig) -> (app: Self)
        ensures
            app@.wf(),
            app@ == (AppView {
                config,
                config_dirty: false,
                queue: Seq::empty(),
                log: Seq::empty(),
                busy: false,
                start_next: false,
                tab: Tab::Main,
            }),
    {
        let app = MyApp {
            config,
            config_dirty: false,
            video_queue: Vec::new(),
            ffmpeg_log: Vec::new(),
            ffmpeg_busy: false,
            should_start_next: false,
            current_tab: Tab::Main,
        };
        assert(app@.queue =~= Seq::empty());
        assert(app@.log =~= Seq::empty());
        app
    }

    /// Puts every option but the theme back to its initial value, and
    /// marks the options as edited.
    pub fn reset_config_to_default(&mut self)
        ensures
            final(self)@ == (AppView {
                config: AppConfig {
                    dark_mode_enabled: old(self)@.config.dark_mode_enabled,
                    ..AppConfig::initial()
                },
                config_dirty: true,
                ..old(self)@
            }),
    {
        let dark_mode = self.config.dark_mode_enabled;
        let mut config = AppConfig::default();
        config.dark_mode_enabled = dark_mode;
        self.config = config;
        self.config_dirty = true;
    }

    /// Adds a file at the end of the queue, waiting. A path that is queued
    /// already is queued once more, as a job of its own.
    pub fn enqueue(&mut self, path: String, size_bytes: u64)
        requires
            old(self)@.wf(),
        ensures
            final(self)@.wf(),
            final(self)@ == (AppView {
                queue: old(self)@.queue.push(
                    QueueItemView {
                        path: path@,
                        status: FileStatus::Waiting,
                        size_bytes,
                        output_size_bytes: None,
                    },
                ),
                ..old(self)@
            }),
    {
        let item = QueueItem::new(path, size_bytes);
        self.video_queue.push(item);
        proof {
            let before = old(self)@.queue;
            let after = self@.queue;
            assert(after =~= before.push(item@));
            assert forall|i: int| 0 <= i < before.len() implies after[i] == before[i] by {}
            if has_status(after, FileStatus::Processing) {
                let i = choose|i: int|
                    0 <= i < after.len() && (#[trigger] after[i]).status == FileStatus::Processing;
                assert(before[i].status == FileStatus::Processing);
            }
            if has_status(before, FileStatus::Processing) {
                let i = choose|i: int|
                    0 <= i < before.len() && (#[trigger] before[i]).status
                        == FileStatus::Processing;
                assert(after[i].status == FileStatus::Processing);
            }
        }
    }

    /// Checks the state's validity by going through the queue.
    pub fn is_valid(&self) -> (valid: bool)
        ensures
            valid == self@.wf(),
    {
        let ghost queue = self@.queue;
        let mut seen = false;
        let mut i: usize = 0;
        while i < self.video_queue.len()
            invariant
                i <= self.video_queue.len(),
                queue == self@.queue,
                seen <==> exists|j: int|
                    0 <= j < i && (#[trigger] queue[j]).status == FileStatus::Processing,
                forall|a: int, b: int|
                    0 <= a < i && 0 <= b < i && (#[trigger] queue[a]).status
                        == FileStatus::Processing && (#[trigger] queue[b]).status
                        == FileStatus::Processing ==> a == b,
                forall|a: int|
                    0 <= a < i && (#[trigger] queue[a]).status == FileStatus::Waiting
                        ==> queue[a].output_size_bytes is None,
            decreases self.video_queue.len() - i,
        {
            let item = &self.video_queue[i];
            assert(item@ == queue[i as int]);
            if item.status == FileStatus::Processing {
                if seen {
                    proof {
                        let j = choose|j: int|
                            0 <= j < i && (#[trigger] queue[j]).status == FileStatus::Processing;
                        assert(queue[i as int].status == FileStatus::Processing);
                    }
                    return false;
                }
                seen = true;
            }
            if item.status == FileStatus::Waiting && item.output_size_bytes.is_some() {
                return false;
            }
            i += 1;
        }
        proof {
            assert(seen <==> has_status(queue, FileStatus::Processing));
        }
        seen == self.ffmpeg_busy
    }

    /// Whether a job is running.
    pub fn is_busy(&self) -> (busy: bool)
        ensures
            busy == self@.busy,
    {
        self.ffmpeg_busy
    }

    /// Claims the oldest waiting file for a job: the file becomes
    /// `Processing` and the busy flag goes up. Nothing is claimed, and
    /// nothing changes, while a job is running or where no file waits.
    pub fn claim_next(&mut self) -> (r: Option<QueueItem>)
        requires
            old(self)@.wf(),
        ensures
            final(self)@.wf(),
            final(self)@ == old(self)@.after_claim(),
            r is Some <==> old(self)@.can_claim(),
            has_status(old(self)@.queue, FileStatus::Processing) ==> r is None,
            r is None ==> final(self)@ == old(self)@,
            r is Some ==> ({
                let k = oldest_waiting(old(self)@.queue);
                &&& is_oldest_waiting(old(self)@.queue, k)
                &&& r.unwrap()@ == claimed(old(self)@.queue[k])
                &&& final(self)@ == (AppView {
                    queue: old(self)@.queue.update(k, claimed(old(self)@.queue[k])),
                    busy: true,
                    ..old(self)@
                })
            }),
    {
        if self.ffmpeg_busy {
            return None;
        }
        let mut i: usize = 0;
        while i < self.video_queue.len()
            invariant
                i <= self.video_queue.len(),
                *self == *old(self),
                old(self)@.wf(),
                !old(self)@.busy,
                forall|j: int| 0 <= j < i ==> (#[trigger] self@.queue[j]).status != FileStatus::Waiting,
            decreases self.video_queue.len() - i,
        {
            if self.video_queue[i].status == FileStatus::Waiting {
                let mut item = self.video_queue[i].clone();
                item.status = FileStatus::Processing;
                let copy = item.clone();
                self.video_queue.set(i, item);
                self.ffmpeg_busy = true;
                proof {
                    let before = old(self)@.queue;
                    let after = self@.queue;
                    let k = i as int;
                    assert(is_oldest_waiting(before, k));
                    oldest_waiting_is_unique(before, k, oldest_waiting(before));
                    assert(after =~= before.update(k, claimed(before[k])));
                    assert(after[k].status == FileStatus::Processing);
                    assert forall|a: int, b: int|
                        0 <= a < after.len() && 0 <= b < after.len() && (#[trigger] after[a]).status
                            == FileStatus::Processing && (#[trigger] after[b]).status
                            == FileStatus::Processing implies a == b by {
                        if a != k {
                            assert(before[a].status == FileStatus::Processing);
                        }
                        if b != k {
                            assert(before[b].status == FileStatus::Processing);
                        }
                    }
                    assert forall|a: int|
                        0 <= a < after.len() && (#[trigger] after[a]).status
                            == FileStatus::Waiting implies after[a].output_size_bytes is None by {
                        assert(before[a].status == FileStatus::Waiting);
                    }
                }
                return Some(copy);
            }
            i += 1;
        }
        proof {
            let before = old(self)@.queue;
            if has_status(before, FileStatus::Waiting) {
                let j = choose|j: int|
                    0 <= j < before.len() && (#[trigger] before[j]).status == FileStatus::Waiting;
                assert(self@.queue[j].status != FileStatus::Waiting);
            }
        }
        None
    }

    /// Starts the next job if one can start: claims the oldest waiting
    /// file and hands it out with the options as they stand. While a job
    /// is running, or where no file waits, it does nothing, so that it can
    /// be called at any time.
    pub fn start_next(&mut self) -> (r: Option<JobRequest>)
        requires
            old(self)@.wf(),
        ensures
            final(self)@.wf(),
            final(self)@ == old(self)@.after_claim(),
            r is Some <==> old(self)@.can_claim(),
            r is None ==> final(self)@ == old(self)@,
            r is Some ==> ({
                let k = oldest_waiting(old(self)@.queue);
                &&& is_oldest_waiting(old(self)@.queue, k)
                &&& r.unwrap().item@ == claimed(old(self)@.queue[k])
                &&& r.unwrap().config == old(self)@.config
            }),
    {
        match self.claim_next() {
            Some(item) => Some(JobRequest { item, config: self.config }),
            None => None,
        }
    }

    /// What the window does on each redraw: where a job has ended since
    /// the last start, no job is running and the queue is not empty, the
    /// flag that asks for the next job is taken down and the next job is
    /// started, if a file waits. In every other case nothing changes.
    pub fn poll(&mut self) -> (r: Option<JobRequest>)
        requires
            old(self)@.wf(),
        ensures
            final(self)@.wf(),
            final(self)@ == old(self)@.after_poll(),
            r is Some <==> old(self)@.start_next && old(self)@.can_claim(),
            !old(self)@.start_next ==> r is None && final(self)@ == old(self)@,
            old(self)@.busy || old(self)@.queue.len() == 0 ==> r is None && final(self)@ == old(self)@,
            old(self)@.start_next && !old(self)@.busy && old(self)@.queue.len() > 0
                ==> !final(self)@.start_next,
            r is Some ==> ({
                let k = oldest_waiting(old(self)@.queue);
                &&& is_oldest_waiting(old(self)@.queue, k)
                &&& r.unwrap().item@ == claimed(old(self)@.queue[k])
                &&& r.unwrap().config == old(self)@.config
            }),
    {
        if self.ffmpeg_busy || self.video_queue.len() == 0 || !self.should_start_next {
            return None;
        }
        self.should_start_next = false;
        self.start_next()
    }

    /// Adds a line at the end of the diagnostic log.
    pub fn push_log(&mut self, line: String)
        ensures
            final(self)@ == (AppView { log: old(self)@.log.push(line@), ..old(self)@ }),
    {
        self.ffmpeg_log.push(line);
        assert(self@.log =~= old(self)@.log.push(line@));
    }

    /// Finds the file that a job runs on under `path`.
    fn find_running(&self, path: &str) -> (r: Option<usize>)
        requires
            self@.wf(),
        ensures
            r is Some <==> runs_on(self@.queue, path@),
            r is Some ==> r.unwrap() == running_index(self@.queue, path@) && is_running(
                self@.queue,
                r.unwrap() as int,
                path@,
            ),
    {
        let wanted = path.to_string();
        let mut i: usize = 0;
        while i < self.video_queue.len()
            invariant
                i <= self.video_queue.len(),
                self@.wf(),
                wanted@ == path@,
                forall|j: int| 0 <= j < i ==> !is_running(self@.queue, j, path@),
            decreases self.video_queue.len() - i,
        {
            if self.video_queue[i].status == FileStatus::Processing && self.video_queue[i].path
                == wanted {
                proof {
                    let k = i as int;
                    assert(is_running(self@.queue, k, path@));
                    let c = running_index(self@.queue, path@);
                    assert(is_running(self@.queue, c, path@));
                    assert(self@.queue[c].status == FileStatus::Processing);
                    assert(self@.queue[k].status == FileStatus::Processing);
                }
                return Some(i);
            }
            i += 1;
        }
        proof {
            if runs_on(self@.queue, path@) {
                let c = choose|c: int| is_running(self@.queue, c, path@);
                assert(!is_running(self@.queue, c, path@));
            }
        }
        None
    }

    /// Records the size of the output of the job that runs on `path`.
    /// Where no job runs on that path, nothing changes.
    pub fn record_output_size(&mut self, path: &str, size: u64) -> (found: bool)
        requires
            old(self)@.wf(),
        ensures
            final(self)@.wf(),
            final(self)@ == old(self)@.after_output_size(path@, size),
            found <==> runs_on(old(self)@.queue, path@),
    {
        match self.find_running(path) {
            Some(i) => {
                let mut item = self.video_queue[i].clone();
                item.output_size_bytes = Some(size);
                self.video_queue.set(i, item);
                proof {
                    let before = old(self)@.queue;
                    let after = self@.queue;
                    let k = i as int;
                    assert(after =~= before.update(k, measured(before[k], size)));
                    assert forall|a: int| 0 <= a < after.len() implies (#[trigger] after[a]).status
                        == before[a].status by {}
                    if has_status(after, FileStatus::Processing) {
                        assert(before[k].status == FileStatus::Processing);
                    }
                    assert(after[k].status == FileStatus::Processing);
                    assert forall|a: int|
                        0 <= a < after.len() && (#[trigger] after[a]).status
                            == FileStatus::Waiting implies after[a].output_size_bytes is None by {
                        assert(before[a].status == FileStatus::Waiting);
                    }
                }
                true
            },
            None => false,
        }
    }

    /// Ends the job that runs on `path`: its file becomes `Done`, with
    /// `output_size` where one was measured, the busy flag goes down and
    /// the flag that asks for the next job goes up. Where no job runs on
    /// that path, nothing changes.
    pub fn mark_done(&mut self, path: &str, output_size: Option<u64>) -> (found: bool)
        requires
            old(self)@.wf(),
        ensures
            final(self)@.wf(),
            final(self)@ == old(self)@.after_done(path@, output_size),
            found <==> runs_on(old(self)@.queue, path@),
            found ==> !final(self)@.busy && final(self)@.start_next,
    {
        match self.find_running(path) {
            Some(i) => {
                let mut item = self.video_queue[i].clone();
                item.status = FileStatus::Done;
                if output_size.is_some() {
                    item.output_size_bytes = output_size;
                }
                self.video_queue.set(i, item);
                self.ffmpeg_busy = false;
                self.should_start_next = true;
                proof {
                    let before = old(self)@.queue;
                    let after = self@.queue;
                    let k = i as int;
                    assert(after =~= before.update(k, finished(before[k], output_size)));
                    if has_status(after, FileStatus::Processing) {
                        let a = choose|a: int|
                            0 <= a < after.len() && (#[trigger] after[a]).status
                                == FileStatus::Processing;
                        assert(before[a].status == FileStatus::Processing);
                        assert(before[k].status == FileStatus::Processing);
                    }
                    assert forall|a: int, b: int|
                        0 <= a < after.len() && 0 <= b < after.len() && (#[trigger] after[a]).status
                            == FileStatus::Processing && (#[trigger] after[b]).status
                            == FileStatus::Processing implies a == b by {
                        assert(before[a].status == FileStatus::Processing);
                        assert(before[b].status == FileStatus::Processing);
                    }
                    assert forall|a: int|
                        0 <= a < after.len() && (#[trigger] after[a]).status
                            == FileStatus::Waiting implies after[a].output_size_bytes is None by {
                        assert(before[a].status == FileStatus::Waiting);
                    }
                }
                true
            },
            None => false,
        }
    }

    /// Takes one signal of the job that runs on `path`: a line goes to the
    /// log, a size to the job's file, and `Done` ends the job.
    pub fn handle_signal(&mut self, path: &str, signal: JobSignal)
        requires
            old(self)@.wf(),
        ensures
            final(self)@.wf(),
            final(self)@ == old(self)@.after_signal(path@, signal@),
    {
        match signal {
            JobSignal::Line(text) => {
                self.push_log(text);
            },
            JobSignal::OutputSize(size) => {
                self.record_output_size(path, size);
            },
            JobSignal::Done => {
                self.mark_done(path, None);
            },
        }
    }

    /// The queued files, oldest first.
    pub fn queue(&self) -> (items: &Vec<QueueItem>)
        ensures
            queue_view(items@) == self@.queue,
    {
        &self.video_queue
    }

    /// The diagnostic lines, oldest first.
    pub fn log(&self) -> (lines: &Vec<String>)
        ensures
            texts(lines@) == self@.log,
    {
        &self.ffmpeg_log
    }

    /// Whether a job has ended without the next one started for it yet.
    pub fn should_start_next(&self) -> (flag: bool)
        ensures
            flag == self@.start_next,
    {
        self.should_start_next
    }

    pub fn config(&self) -> (config: AppConfig)
        ensures
            config == self@.config,
    {
        self.config
    }

    /// Replaces the options and marks them as edited. A job that is
    /// running keeps the options it was started with.
    pub fn set_config(&mut self, config: AppConfig)
        ensures
            final(self)@ == (AppView { config, config_dirty: true, ..old(self)@ }),
    {
        self.config = config;
        self.config_dirty = true;
    }

    /// Whether the options were edited since they were last stored.
    pub fn config_dirty(&self) -> (dirty: bool)
        ensures
            dirty == self@.config_dirty,
    {
        self.config_dirty
    }

    /// Notes that the options were stored.
    pub fn mark_config_stored(&mut self)
        ensures
            final(self)@ == (AppView { config_dirty: false, ..old(self)@ }),
    {
        self.config_dirty = false;
    }

    pub fn current_tab(&self) -> (tab: Tab)
        ensures
            tab == self@.tab,
    {
        self.current_tab
    }

    pub fn select_tab(&mut self, tab: Tab)
        ensures
            final(self)@ == (AppView { tab, ..old(self)@ }),
    {
        self.current_tab = tab;
    }
}

} // verus!
