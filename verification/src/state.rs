//! Supervision state of the ComfyUI child process: its status, its recent
//! log lines and the generation counter that tells attempts apart.
use std::collections::VecDeque;
use vstd::prelude::*;

use crate::text::{
    concat, concat3, decimal, digit_char, is_canonical_numeral, numeral_value, signed_decimal, signed_decimal_reads_back,
    signed_decimal_string,
};

verus! {

/// How many log lines are kept; older lines are dropped first.
pub const LOG_CAPACITY: usize = 500;

/// Where ComfyUI serves its web UI.
pub const COMFY_URL: &'static str = "http://127.0.0.1:8188/";

/// The state of the ComfyUI process as shown to the user.
#[derive(Debug, Clone, PartialEq)]
pub enum ComfyStatus {
    Stopped,
    Starting,
    Ready { url: String },
    Failed { message: String, log_tail: Vec<String> },
}

/// The mathematical model of a [`ComfyStatus`].
pub enum StatusView {
    Stopped,
    Starting,
    Ready { url: Seq<char> },
    Failed { message: Seq<char>, log_tail: Seq<Seq<char>> },
}

/// The texts of a sequence of strings.
pub open spec fn texts(v: Seq<String>) -> Seq<Seq<char>> {
    v.map_values(|s: String| s@)
}

impl View for ComfyStatus {
    type V = StatusView;

    open spec fn view(&self) -> StatusView {
        match self {
            ComfyStatus::Stopped => StatusView::Stopped,
            ComfyStatus::Starting => StatusView::Starting,
            ComfyStatus::Ready { url } => StatusView::Ready { url: url@ },
            ComfyStatus::Failed { message, log_tail } => StatusView::Failed {
                message: message@,
                log_tail: texts(log_tail@),
            },
        }
    }
}

/// Copies a list of strings.
pub fn copy_lines(v: &Vec<String>) -> (r: Vec<String>)
    ensures
        r@ == v@,
{
    let mut r: Vec<String> = Vec::new();
    let mut i: usize = 0;
    while i < v.len()
        invariant
            0 <= i <= v.len(),
            r@ == v@.subrange(0, i as int),
        decreases v.len() - i,
    {
        r.push(v[i].clone());
        assert(r@ =~= v@.subrange(0, i + 1));
        i = i + 1;
    }
    assert(v@.subrange(0, v.len() as int) =~= v@);
    r
}

impl ComfyStatus {
    /// A copy of this status.
    pub fn snapshot(&self) -> (r: ComfyStatus)
        ensures
            r@ == self@,
    {
        match self {
            ComfyStatus::Stopped => ComfyStatus::Stopped,
            ComfyStatus::Starting => ComfyStatus::Starting,
            ComfyStatus::Ready { url } => ComfyStatus::Ready { url: url.clone() },
            ComfyStatus::Failed { message, log_tail } => ComfyStatus::Failed {
                message: message.clone(),
                log_tail: copy_lines(log_tail),
            },
        }
    }
}

/// The message shown when the install directory does not pass validation.
pub open spec fn config_failure_message(reason: Seq<char>) -> Seq<char> {
    "尚未正确配置 ComfyUI 目录："@ + reason
}

/// The message shown when the ComfyUI process cannot be spawned.
pub open spec fn spawn_failure_message(error: Seq<char>) -> Seq<char> {
    "无法启动 ComfyUI 进程: "@ + error
}

/// The exit code reported for a finished process; `-1` when none is known.
pub open spec fn reported_exit_code(code: Option<i32>) -> int {
    match code {
        Some(c) => c as int,
        None => -1,
    }
}

/// The message shown when the ComfyUI process has exited.
pub open spec fn exit_message(code: Option<i32>) -> Seq<char> {
    "ComfyUI 进程已退出（退出码 "@ + signed_decimal(reported_exit_code(code)) + "）"@
}

/// The log after one more line: the oldest line goes once
/// [`LOG_CAPACITY`] lines are held.
pub open spec fn log_after_push(log: Seq<Seq<char>>, line: Seq<char>) -> Seq<Seq<char>> {
    if log.len() >= LOG_CAPACITY {
        log.drop_first().push(line)
    } else {
        log.push(line)
    }
}

/// The mathematical model of a [`ComfyProcess`].
pub struct ProcessView {
    pub pid: Option<u32>,
    pub status: StatusView,
    pub log: Seq<Seq<char>>,
    pub generation: u64,
}

impl ProcessView {
    /// The log holds at most [`LOG_CAPACITY`] lines.
    pub open spec fn bounded(self) -> bool {
        self.log.len() <= LOG_CAPACITY
    }

    /// A `Ready` status always points at [`COMFY_URL`].
    pub open spec fn ready_at_comfy(self) -> bool {
        self.status matches StatusView::Ready { url } ==> url == COMFY_URL@
    }

    /// Whether `g` names the attempt in progress.
    pub open spec fn is_current(self, g: u64) -> bool {
        g == self.generation
    }

    /// The state once the new attempt is shown as `Starting`.
    pub open spec fn starting(self) -> ProcessView {
        ProcessView { status: StatusView::Starting, ..self }
    }

    /// No process is tracked any more.
    pub open spec fn without_pid(self) -> ProcessView {
        ProcessView { pid: None, ..self }
    }

    /// The state once a new attempt begins: a new generation and an empty
    /// log; the status is left for [`ProcessView::starting`].
    pub open spec fn started(self) -> ProcessView {
        ProcessView {
            log: Seq::empty(),
            generation: (self.generation + 1) as u64,
            ..self
        }
    }

    /// The state once a server found already running is adopted by attempt
    /// `g`; unchanged when `g` is stale.
    pub open spec fn adopted(self, g: u64) -> ProcessView {
        if self.is_current(g) {
            ProcessView { pid: None, status: StatusView::Ready { url: COMFY_URL@ }, ..self }
        } else {
            self
        }
    }

    /// The state with another status.
    pub open spec fn with_status(self, status: StatusView) -> ProcessView {
        ProcessView { status, ..self }
    }

    /// The state with another tracked process id.
    pub open spec fn with_pid(self, pid: Option<u32>) -> ProcessView {
        ProcessView { pid, ..self }
    }

    /// The state once attempt `g` reports a log line; unchanged when `g`
    /// is stale.
    pub open spec fn logged(self, g: u64, line: Seq<char>) -> ProcessView {
        if self.is_current(g) {
            ProcessView { log: log_after_push(self.log, line), ..self }
        } else {
            self
        }
    }

    /// The state once attempt `g` sees ComfyUI answer; unchanged when `g`
    /// is stale.
    pub open spec fn readied(self, g: u64) -> ProcessView {
        if self.is_current(g) {
            ProcessView { status: StatusView::Ready { url: COMFY_URL@ }, ..self }
        } else {
            self
        }
    }

    /// The state once the process of attempt `g` has exited; unchanged when
    /// `g` is stale.
    pub open spec fn exited(self, g: u64, code: Option<i32>) -> ProcessView {
        if self.is_current(g) {
            ProcessView {
                pid: None,
                status: StatusView::Failed { message: exit_message(code), log_tail: self.log },
                ..self
            }
        } else {
            self
        }
    }
}

/// What a new attempt needs to know when it begins.
pub struct Attempt {
    /// The generation that tags every later event of this attempt.
    pub generation: u64,
    /// Whether the main window should go back to the launcher page (not on
    /// the very first start, when it is still loading that page).
    pub navigate_home: bool,
}

/// The tracked ComfyUI process.
pub struct ComfyProcess {
    pub pid: Option<u32>,
    pub status: ComfyStatus,
    pub log: VecDeque<String>,
    /// Bumped every time a start or restart begins, so that work left over
    /// from an earlier attempt can tell that it has been superseded.
    pub generation: u64,
}

impl View for ComfyProcess {
    type V = ProcessView;

    open spec fn view(&self) -> ProcessView {
        ProcessView {
            pid: self.pid,
            status: self.status@,
            log: texts(self.log@),
            generation: self.generation,
        }
    }
}

impl ComfyProcess {
    /// A stopped process with an empty log, before any attempt.
    pub fn new() -> (r: ComfyProcess)
        ensures
            r@ == (ProcessView {
                pid: None,
                status: StatusView::Stopped,
                log: Seq::empty(),
                generation: 0,
            }),
    {
        let r = ComfyProcess {
            pid: None,
            status: ComfyStatus::Stopped,
            log: VecDeque::with_capacity(LOG_CAPACITY),
            generation: 0,
        };
        assert(texts(r.log@) =~= Seq::<Seq<char>>::empty());
        r
    }

    /// Appends a log line, dropping the oldest once [`LOG_CAPACITY`] lines
    /// are held.
    pub fn push_log(&mut self, line: String)
        ensures
            final(self)@ == (ProcessView { log: log_after_push(old(self)@.log, line@), ..old(self)@ }),
    {
        let ghost before = self.log@;
        if self.log.len() >= LOG_CAPACITY {
            self.log.pop_front();
            assert(texts(self.log@) =~= texts(before).drop_first());
        }
        let ghost mid = self.log@;
        self.log.push_back(line);
        assert(texts(self.log@) =~= texts(mid).push(line@));
    }

    /// The lines currently held, oldest first.
    pub fn log_tail(&self) -> (r: Vec<String>)
        ensures
            r@ == self.log@,
            texts(r@) == self@.log,
    {
        let mut r: Vec<String> = Vec::new();
        let mut i: usize = 0;
        while i < self.log.len()
            invariant
                0 <= i <= self.log@.len(),
                r@ == self.log@.subrange(0, i as int),
            decreases self.log@.len() - i,
        {
            r.push(self.log[i].clone());
            assert(r@ =~= self.log@.subrange(0, i + 1));
            i = i + 1;
        }
        assert(self.log@.subrange(0, self.log@.len() as int) =~= self.log@);
        r
    }

    /// A copy of the current status.
    pub fn get_status(&self) -> (r: ComfyStatus)
        ensures
            r@ == self@.status,
    {
        self.status.snapshot()
    }

    /// Stops tracking the process and hands back its id, so that the caller
    /// can end it.
    pub fn take_pid(&mut self) -> (r: Option<u32>)
        ensures
            r == old(self)@.pid,
            final(self)@ == old(self)@.without_pid(),
    {
        self.pid.take()
    }

    /// Begins a new attempt: bumps the generation and clears the log. The
    /// status changes only with [`ComfyProcess::show_starting`], once the
    /// main window has been sent back to the launcher page.
    pub fn begin_attempt(&mut self) -> (r: Attempt)
        requires
            old(self).generation < u64::MAX,
        ensures
            final(self)@ == old(self)@.started(),
            r.generation == final(self)@.generation,
            r.navigate_home == (old(self)@.generation != 0),
    {
        let navigate_home = self.generation != 0;
        self.generation = self.generation + 1;
        self.log.clear();
        assert(texts(self.log@) =~= Seq::<Seq<char>>::empty());
        Attempt { generation: self.generation, navigate_home }
    }

    /// Shows the attempt in progress as `Starting`.
    pub fn show_starting(&mut self)
        ensures
            final(self)@ == old(self)@.starting(),
    {
        self.status = ComfyStatus::Starting;
    }

    /// Whether `g` names the attempt in progress.
    pub fn is_current(&self, g: u64) -> (r: bool)
        ensures
            r == self@.is_current(g),
    {
        self.generation == g
    }

    /// Attempt `g` found ComfyUI already answering and adopts it instead of
    /// spawning another; `false`, and nothing changes, when `g` is stale.
    pub fn adopt_running(&mut self, g: u64) -> (r: bool)
        ensures
            r == old(self)@.is_current(g),
            final(self)@ == old(self)@.adopted(g),
    {
        if self.generation == g {
            self.pid = None;
            self.status = ComfyStatus::Ready { url: COMFY_URL.to_owned() };
            true
        } else {
            false
        }
    }

    /// The install directory did not pass validation, for `reason`.
    pub fn reject_config(&mut self, reason: &str)
        ensures
            final(self)@ == old(self)@.with_status(
                StatusView::Failed {
                    message: config_failure_message(reason@),
                    log_tail: Seq::empty(),
                },
            ),
    {
        let message = concat("尚未正确配置 ComfyUI 目录：", reason);
        self.status = ComfyStatus::Failed { message, log_tail: Vec::new() };
        assert(texts(Seq::<String>::empty()) =~= Seq::<Seq<char>>::empty());
    }

    /// The ComfyUI process could not be spawned, for `error`.
    pub fn spawn_failed(&mut self, error: &str)
        ensures
            final(self)@ == old(self)@.with_status(
                StatusView::Failed {
                    message: spawn_failure_message(error@),
                    log_tail: Seq::empty(),
                },
            ),
    {
        let message = concat("无法启动 ComfyUI 进程: ", error);
        self.status = ComfyStatus::Failed { message, log_tail: Vec::new() };
        assert(texts(Seq::<String>::empty()) =~= Seq::<Seq<char>>::empty());
    }

    /// Tracks the id of the process just spawned.
    pub fn record_pid(&mut self, pid: Option<u32>)
        ensures
            final(self)@ == old(self)@.with_pid(pid),
    {
        self.pid = pid;
    }

    /// Attempt `g` read a line of output; it is kept when `g` is current.
    /// `false` tells the reader that it has been superseded.
    pub fn accept_log_line(&mut self, g: u64, line: String) -> (r: bool)
        ensures
            r == old(self)@.is_current(g),
            final(self)@ == old(self)@.logged(g, line@),
    {
        if self.generation == g {
            self.push_log(line);
            true
        } else {
            false
        }
    }

    /// Attempt `g` saw ComfyUI answer; it becomes `Ready` when `g` is
    /// current. `false` tells the watcher that it has been superseded.
    pub fn mark_ready(&mut self, g: u64) -> (r: bool)
        ensures
            r == old(self)@.is_current(g),
            final(self)@ == old(self)@.readied(g),
    {
        if self.generation == g {
            self.status = ComfyStatus::Ready { url: COMFY_URL.to_owned() };
            true
        } else {
            false
        }
    }

    /// The process of attempt `g` exited with `code` (`None` when unknown);
    /// when `g` is current it is no longer tracked and the status becomes
    /// `Failed` with the log so far. `false` when `g` is stale.
    pub fn process_exited(&mut self, g: u64, code: Option<i32>) -> (r: bool)
        ensures
            r == old(self)@.is_current(g),
            final(self)@ == old(self)@.exited(g, code),
    {
        if self.generation == g {
            let reported: i32 = match code {
                Some(c) => c,
                None => -1,
            };
            let number = signed_decimal_string(reported as i64);
            let message = concat3("ComfyUI 进程已退出（退出码 ", number.as_str(), "）");
            self.pid = None;
            let log_tail = self.log_tail();
            self.status = ComfyStatus::Failed { message, log_tail };
            true
        } else {
            false
        }
    }
}

/// The log after `lines` arrive one by one, starting from `log`.
pub open spec fn log_after_lines(log: Seq<Seq<char>>, lines: Seq<Seq<char>>) -> Seq<Seq<char>>
    decreases lines.len(),
{
    if lines.len() == 0 {
        log
    } else {
        log_after_push(log_after_lines(log, lines.drop_last()), lines.last())
    }
}

/// The newest `LOG_CAPACITY` of `lines` (all of them when fewer).
pub open spec fn newest_lines(lines: Seq<Seq<char>>) -> Seq<Seq<char>> {
    if lines.len() <= LOG_CAPACITY {
        lines
    } else {
        lines.skip(lines.len() - LOG_CAPACITY)
    }
}

/// Law: starting from an empty log, the log always holds exactly the newest
/// [`LOG_CAPACITY`] lines received, oldest first.
pub proof fn log_keeps_newest_lines(lines: Seq<Seq<char>>)
    ensures
        log_after_lines(Seq::empty(), lines) == newest_lines(lines),
    decreases lines.len(),
{
    if lines.len() > 0 {
        let earlier = lines.drop_last();
        log_keeps_newest_lines(earlier);
        if earlier.len() < LOG_CAPACITY {
            assert(earlier.push(lines.last()) =~= lines);
        } else {
            let kept = earlier.skip(earlier.len() - LOG_CAPACITY);
            if earlier.len() == LOG_CAPACITY {
                assert(kept =~= earlier);
            }
            assert(kept.drop_first().push(lines.last()) =~= lines.skip(
                lines.len() - LOG_CAPACITY,
            ));
        }
    }
}

/// The state once attempt `g` has reported `lines`, one by one.
pub open spec fn after_accepting(v: ProcessView, g: u64, lines: Seq<Seq<char>>) -> ProcessView
    decreases lines.len(),
{
    if lines.len() == 0 {
        v
    } else {
        after_accepting(v, g, lines.drop_last()).logged(g, lines.last())
    }
}

/// Law: a line reported by the current attempt is appended to the log, and
/// only the oldest line goes, once the log is full.
pub proof fn accepted_line_is_appended(v: ProcessView, g: u64, line: Seq<char>)
    requires
        v.is_current(g),
        v.bounded(),
    ensures
        v.logged(g, line).log.len() > 0,
        v.logged(g, line).log.last() == line,
        v.log.len() < LOG_CAPACITY ==> v.logged(g, line).log.drop_last() == v.log,
        v.log.len() == LOG_CAPACITY ==> v.logged(g, line).log.drop_last() == v.log.subrange(
            1,
            v.log.len() as int,
        ),
        v.logged(g, line).generation == v.generation,
        v.logged(g, line).status == v.status,
        v.logged(g, line).pid == v.pid,
{
    if v.log.len() < LOG_CAPACITY {
        assert(v.log.push(line).drop_last() =~= v.log);
    } else {
        assert(v.log.drop_first().push(line).drop_last() =~= v.log.subrange(1, v.log.len() as int));
    }
}

/// Law: the lines an attempt reports, starting from an empty log, end up in
/// the log as exactly the newest [`LOG_CAPACITY`] of them, oldest first.
pub proof fn accepted_lines_are_the_newest(v: ProcessView, lines: Seq<Seq<char>>)
    requires
        v.log.len() == 0,
    ensures
        after_accepting(v, v.generation, lines).log == newest_lines(lines),
        after_accepting(v, v.generation, lines).generation == v.generation,
        lines.len() <= 500 ==> after_accepting(v, v.generation, lines).log == lines,
        lines.len() > 500 ==> after_accepting(v, v.generation, lines).log == lines.subrange(
            lines.len() - 500,
            lines.len() as int,
        ),
    decreases lines.len(),
{
    if lines.len() > 0 {
        accepted_lines_are_the_newest(v, lines.drop_last());
        let earlier = lines.drop_last();
        let w = after_accepting(v, v.generation, earlier);
        if earlier.len() < LOG_CAPACITY {
            assert(earlier.push(lines.last()) =~= lines);
        } else {
            let kept = earlier.skip(earlier.len() - LOG_CAPACITY);
            if earlier.len() == LOG_CAPACITY {
                assert(kept =~= earlier);
            }
            assert(kept.drop_first().push(lines.last()) =~= lines.skip(
                lines.len() - LOG_CAPACITY,
            ));
        }
    }
}

/// Whether `t` shows the exit code `code` as a decimal numeral: `-1` when
/// no code is known, a `-` before the magnitude of a negative code.
pub open spec fn shows_exit_code(t: Seq<char>, code: Option<i32>) -> bool {
    match code {
        None => t.len() == 2 && t[0] == '-' && t[1] == '1',
        Some(c) => if c < 0 {
            &&& t.len() > 0
            &&& t[0] == '-'
            &&& is_canonical_numeral(t.drop_first())
            &&& numeral_value(t.drop_first()) == -c
        } else {
            is_canonical_numeral(t) && numeral_value(t) == c
        },
    }
}

/// Law: when the process of the current attempt exits, it is no longer
/// tracked and the status becomes `Failed`, with a message that gives the
/// exit code and with every log line received so far.
pub proof fn exit_reports_code_and_log(v: ProcessView, g: u64, code: Option<i32>)
    requires
        v.is_current(g),
    ensures
        v.exited(g, code).pid is None,
        v.exited(g, code).generation == v.generation,
        v.exited(g, code).log == v.log,
        v.exited(g, code).status is Failed,
        v.exited(g, code).status->log_tail == v.log,
        exists|t: Seq<char>|
            #[trigger] shows_exit_code(t, code) && v.exited(g, code).status->message == "ComfyUI 进程已退出（退出码 "@
                + t + "）"@,
{
    let t = signed_decimal(reported_exit_code(code));
    signed_decimal_reads_back(reported_exit_code(code));
    if code is None {
        assert(t == seq!['-'] + decimal(1));
        assert(decimal(1) == seq![digit_char(1)]);
        assert(digit_char(1) as u32 == 49);
    }
    assert(shows_exit_code(t, code));
}

/// Law: readiness seen by the current attempt makes the status `Ready` at
/// [`COMFY_URL`] and changes nothing else.
pub proof fn current_readiness_marks_ready(v: ProcessView, g: u64)
    requires
        v.is_current(g),
    ensures
        v.readied(g).status == (StatusView::Ready { url: COMFY_URL@ }),
        v.readied(g).pid == v.pid,
        v.readied(g).log == v.log,
        v.readied(g).generation == v.generation,
        v.adopted(g).status == (StatusView::Ready { url: COMFY_URL@ }),
        v.adopted(g).pid is None,
        v.adopted(g).log == v.log,
{
}

/// Law: every transition keeps the log within [`LOG_CAPACITY`] lines.
pub proof fn log_stays_bounded(
    v: ProcessView,
    g: u64,
    line: Seq<char>,
    code: Option<i32>,
    status: StatusView,
    pid: Option<u32>,
)
    requires
        v.bounded(),
    ensures
        v.without_pid().bounded(),
        v.started().bounded(),
        v.starting().bounded(),
        v.adopted(g).bounded(),
        v.with_status(status).bounded(),
        v.with_pid(pid).bounded(),
        v.logged(g, line).bounded(),
        v.readied(g).bounded(),
        v.exited(g, code).bounded(),
{
}

/// Law: every transition keeps a `Ready` status pointing at [`COMFY_URL`]
/// (the statuses set directly are `Failed` ones).
pub proof fn ready_always_points_at_comfy(
    v: ProcessView,
    g: u64,
    line: Seq<char>,
    code: Option<i32>,
    message: Seq<char>,
    pid: Option<u32>,
)
    requires
        v.ready_at_comfy(),
    ensures
        v.without_pid().ready_at_comfy(),
        v.started().ready_at_comfy(),
        v.starting().ready_at_comfy(),
        v.adopted(g).ready_at_comfy(),
        v.with_status(StatusView::Failed { message, log_tail: Seq::empty() }).ready_at_comfy(),
        v.with_pid(pid).ready_at_comfy(),
        v.logged(g, line).ready_at_comfy(),
        v.readied(g).ready_at_comfy(),
        v.exited(g, code).ready_at_comfy(),
{
}

/// Law: an event tagged with a generation other than the current one
/// changes nothing.
pub proof fn stale_events_change_nothing(v: ProcessView, g: u64, line: Seq<char>, code: Option<i32>)
    requires
        !v.is_current(g),
    ensures
        v.adopted(g) == v,
        v.logged(g, line) == v,
        v.readied(g) == v,
        v.exited(g, code) == v,
{
}

/// Law: the generation never goes back, and a new attempt moves it past
/// every generation handed out before.
pub proof fn generation_only_grows(
    v: ProcessView,
    g: u64,
    line: Seq<char>,
    code: Option<i32>,
    status: StatusView,
    pid: Option<u32>,
)
    requires
        v.generation < u64::MAX,
    ensures
        v.started().generation > v.generation,
        v.starting().generation == v.generation,
        v.without_pid().generation == v.generation,
        v.adopted(g).generation == v.generation,
        v.with_status(status).generation == v.generation,
        v.with_pid(pid).generation == v.generation,
        v.logged(g, line).generation == v.generation,
        v.readied(g).generation == v.generation,
        v.exited(g, code).generation == v.generation,
{
}

/// Law: once a new attempt has begun, the events of every earlier attempt
/// (any generation up to the previous one) are ignored.
pub proof fn new_attempt_supersedes_earlier(v: ProcessView, g: u64, line: Seq<char>, code: Option<i32>)
    requires
        v.generation < u64::MAX,
        g <= v.generation,
    ensures
        !v.started().is_current(g),
        v.started().adopted(g) == v.started(),
        v.started().logged(g, line) == v.started(),
        v.started().readied(g) == v.started(),
        v.started().exited(g, code) == v.started(),
{
}

} // verus!
