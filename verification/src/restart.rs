//! The start/restart sequence as a step function: from the sequence's phase,
//! the process state and what just happened, to the next phase and state and
//! what the caller has to do next.
use vstd::prelude::*;

use crate::state::{
    config_failure_message, spawn_failure_message, ComfyProcess, ProcessView, StatusView,
};

verus! {

/// Where a start or restart stands.
#[derive(Clone, Copy, Debug, PartialEq, Eq, Structural)]
pub enum RestartPhase {
    /// Nothing has happened yet.
    Begin,
    /// The previous process tree is being killed.
    Killing,
    /// The main window is being sent back to the launcher page.
    Navigating,
    /// ComfyUI's address is being probed.
    Probing,
    /// The configuration is being checked against the disk.
    CheckingConfig,
    /// ComfyUI is being spawned.
    Spawning,
    /// The sequence is over.
    Done,
}

/// One start or restart in progress.
#[derive(Clone, Copy, Debug, PartialEq, Eq, Structural)]
pub struct Restart {
    pub phase: RestartPhase,
    /// The generation of this attempt, once it has begun.
    pub generation: u64,
}

/// What happened since the last step.
pub enum StartEvent {
    /// The sequence was entered (with the start lock held).
    Begin,
    /// The previous process tree has been killed.
    TreeKilled,
    /// The main window has been sent back to the launcher page.
    HomeShown,
    /// ComfyUI's address answered, or not.
    Probed { responding: bool },
    /// The configuration check found `problem`, or nothing.
    ConfigChecked { problem: Option<String> },
    /// ComfyUI was spawned, as process `pid` when known.
    Spawned { pid: Option<u32> },
    /// ComfyUI could not be spawned, for `error`.
    SpawnFailed { error: String },
}

/// The mathematical model of a [`StartEvent`].
pub enum StartEventView {
    Begin,
    TreeKilled,
    HomeShown,
    Probed { responding: bool },
    ConfigChecked { problem: Option<Seq<char>> },
    Spawned { pid: Option<u32> },
    SpawnFailed { error: Seq<char> },
}

impl View for StartEvent {
    type V = StartEventView;

    open spec fn view(&self) -> StartEventView {
        match self {
            StartEvent::Begin => StartEventView::Begin,
            StartEvent::TreeKilled => StartEventView::TreeKilled,
            StartEvent::HomeShown => StartEventView::HomeShown,
            StartEvent::Probed { responding } => StartEventView::Probed { responding: *responding },
            StartEvent::ConfigChecked { problem } => StartEventView::ConfigChecked {
                problem: match problem {
                    Some(m) => Some(m@),
                    None => None,
                },
            },
            StartEvent::Spawned { pid } => StartEventView::Spawned { pid: *pid },
            StartEvent::SpawnFailed { error } => StartEventView::SpawnFailed { error: error@ },
        }
    }
}

/// What the caller has to do next.
#[derive(Clone, Copy, Debug, PartialEq, Eq, Structural)]
pub enum StartAction {
    /// Kill process `pid` with its children, then report `TreeKilled`.
    KillTree { pid: u32 },
    /// Send the main window back to the launcher page, then report
    /// `HomeShown`.
    NavigateHome,
    /// Show the status, probe ComfyUI's address, then report `Probed`.
    ShowStatusThenProbe,
    /// Show the status and send the main window to ComfyUI; the sequence is
    /// over.
    ShowStatusThenOpenComfy,
    /// Show the status and open the settings window; the sequence is over.
    ShowStatusThenOpenSettings,
    /// Show the status; the sequence is over.
    ShowStatus,
    /// Check the configuration, then report `ConfigChecked`.
    CheckConfig,
    /// Spawn ComfyUI, then report `Spawned` or `SpawnFailed`.
    Spawn,
    /// Read the output of the process and watch it under `generation`; the
    /// sequence is over.
    Watch { generation: u64 },
    /// Nothing more to do; the sequence is over.
    Finish,
    /// The event does not apply to this phase: nothing changed.
    Ignore,
}

/// The step once no previous process is running any more: a new attempt
/// begins; on a restart the main window goes home before `Starting` shows.
pub open spec fn after_old_process(p: ProcessView) -> (Restart, ProcessView, StartAction) {
    let q = p.started();
    if p.generation != 0 {
        (Restart { phase: RestartPhase::Navigating, generation: q.generation }, q, StartAction::NavigateHome)
    } else {
        (
            Restart { phase: RestartPhase::Probing, generation: q.generation },
            q.starting(),
            StartAction::ShowStatusThenProbe,
        )
    }
}

/// The whole start/restart protocol: kill the tracked process tree first;
/// begin a new attempt; go home (not on the first start) before showing
/// `Starting`; adopt a server that already answers instead of spawning;
/// otherwise check the configuration and open the settings when it fails;
/// otherwise spawn and watch the new process.
pub open spec fn restart_step(r: Restart, p: ProcessView, e: StartEventView) -> (
    Restart,
    ProcessView,
    StartAction,
) {
    let done = Restart { phase: RestartPhase::Done, generation: r.generation };
    match (r.phase, e) {
        (RestartPhase::Begin, StartEventView::Begin) => match p.pid {
            Some(pid) => (
                Restart { phase: RestartPhase::Killing, generation: r.generation },
                p.without_pid(),
                StartAction::KillTree { pid },
            ),
            None => after_old_process(p),
        },
        (RestartPhase::Killing, StartEventView::TreeKilled) => after_old_process(p),
        (RestartPhase::Navigating, StartEventView::HomeShown) => (
            Restart { phase: RestartPhase::Probing, generation: r.generation },
            p.starting(),
            StartAction::ShowStatusThenProbe,
        ),
        (RestartPhase::Probing, StartEventView::Probed { responding }) => if !responding {
            (
                Restart { phase: RestartPhase::CheckingConfig, generation: r.generation },
                p,
                StartAction::CheckConfig,
            )
        } else if p.is_current(r.generation) {
            (done, p.adopted(r.generation), StartAction::ShowStatusThenOpenComfy)
        } else {
            (done, p, StartAction::Finish)
        },
        (RestartPhase::CheckingConfig, StartEventView::ConfigChecked { problem }) => match problem {
            Some(m) => (
                done,
                p.with_status(
                    StatusView::Failed { message: config_failure_message(m), log_tail: Seq::empty() },
                ),
                StartAction::ShowStatusThenOpenSettings,
            ),
            None => (
                Restart { phase: RestartPhase::Spawning, generation: r.generation },
                p,
                StartAction::Spawn,
            ),
        },
        (RestartPhase::Spawning, StartEventView::Spawned { pid }) => (
            done,
            p.with_pid(pid),
            StartAction::Watch { generation: r.generation },
        ),
        (RestartPhase::Spawning, StartEventView::SpawnFailed { error }) => (
            done,
            p.with_status(
                StatusView::Failed { message: spawn_failure_message(error), log_tail: Seq::empty() },
            ),
            StartAction::ShowStatus,
        ),
        _ => (r, p, StartAction::Ignore),
    }
}

/// Whether this step begins a new attempt, which bumps the generation.
pub open spec fn begins_attempt(r: Restart, p: ProcessView, e: StartEventView) -> bool {
    ||| (r.phase == RestartPhase::Begin && e is Begin && p.pid is None)
    ||| (r.phase == RestartPhase::Killing && e is TreeKilled)
}

impl Restart {
    /// A sequence that has not started.
    pub open spec fn initial() -> Restart {
        Restart { phase: RestartPhase::Begin, generation: 0 }
    }

    /// A sequence that has not started.
    pub fn new() -> (r: Restart)
        ensures
            r == Restart::initial(),
    {
        Restart { phase: RestartPhase::Begin, generation: 0 }
    }

    /// Whether reporting `event` now would begin a new attempt.
    pub fn begins_attempt(&self, comfy: &ComfyProcess, event: &StartEvent) -> (b: bool)
        ensures
            b == begins_attempt(*self, comfy@, event@),
    {
        match (self.phase, event) {
            (RestartPhase::Begin, StartEvent::Begin) => comfy.pid.is_none(),
            (RestartPhase::Killing, StartEvent::TreeKilled) => true,
            _ => false,
        }
    }

    fn after_old_process(&mut self, comfy: &mut ComfyProcess) -> (a: StartAction)
        requires
            old(comfy).generation < u64::MAX,
        ensures
            (*final(self), final(comfy)@, a) == after_old_process(old(comfy)@),
    {
        let attempt = comfy.begin_attempt();
        self.generation = attempt.generation;
        if attempt.navigate_home {
            self.phase = RestartPhase::Navigating;
            StartAction::NavigateHome
        } else {
            comfy.show_starting();
            self.phase = RestartPhase::Probing;
            StartAction::ShowStatusThenProbe
        }
    }

    /// Takes one step of the sequence on `comfy` for `event`.
    pub fn step(&mut self, comfy: &mut ComfyProcess, event: StartEvent) -> (a: StartAction)
        requires
            begins_attempt(*old(self), old(comfy)@, event@) ==> old(comfy).generation < u64::MAX,
        ensures
            (*final(self), final(comfy)@, a) == restart_step(*old(self), old(comfy)@, event@),
    {
        let g = self.generation;
        match (self.phase, event) {
            (RestartPhase::Begin, StartEvent::Begin) => match comfy.take_pid() {
                Some(pid) => {
                    self.phase = RestartPhase::Killing;
                    StartAction::KillTree { pid }
                },
                None => self.after_old_process(comfy),
            },
            (RestartPhase::Killing, StartEvent::TreeKilled) => self.after_old_process(comfy),
            (RestartPhase::Navigating, StartEvent::HomeShown) => {
                comfy.show_starting();
                self.phase = RestartPhase::Probing;
                StartAction::ShowStatusThenProbe
            },
            (RestartPhase::Probing, StartEvent::Probed { responding }) => {
                if !responding {
                    self.phase = RestartPhase::CheckingConfig;
                    StartAction::CheckConfig
                } else {
                    self.phase = RestartPhase::Done;
                    if comfy.adopt_running(g) {
                        StartAction::ShowStatusThenOpenComfy
                    } else {
                        StartAction::Finish
                    }
                }
            },
            (RestartPhase::CheckingConfig, StartEvent::ConfigChecked { problem }) => match problem {
                Some(m) => {
                    comfy.reject_config(m.as_str());
                    self.phase = RestartPhase::Done;
                    StartAction::ShowStatusThenOpenSettings
                },
                None => {
                    self.phase = RestartPhase::Spawning;
                    StartAction::Spawn
                },
            },
            (RestartPhase::Spawning, StartEvent::Spawned { pid }) => {
                comfy.record_pid(pid);
                self.phase = RestartPhase::Done;
                StartAction::Watch { generation: g }
            },
            (RestartPhase::Spawning, StartEvent::SpawnFailed { error }) => {
                comfy.spawn_failed(error.as_str());
                self.phase = RestartPhase::Done;
                StartAction::ShowStatus
            },
            _ => StartAction::Ignore,
        }
    }
}

/// Law: when a process is tracked, a restart first has its tree killed, and
/// only then begins a new attempt.
pub proof fn old_tree_is_killed_first(r: Restart, p: ProcessView)
    requires
        r.phase == RestartPhase::Begin,
        p.pid is Some,
    ensures
        restart_step(r, p, StartEventView::Begin).2 == (StartAction::KillTree { pid: p.pid->0 }),
        restart_step(r, p, StartEventView::Begin).0.phase == RestartPhase::Killing,
        restart_step(r, p, StartEventView::Begin).1 == p.without_pid(),
        restart_step(r, p, StartEventView::Begin).1.generation == p.generation,
{
}

/// Law: ComfyUI is spawned only after its address did not answer and the
/// configuration check found nothing wrong.
pub proof fn spawn_only_after_silent_probe_and_sound_config(
    r: Restart,
    p: ProcessView,
    e: StartEventView,
)
    ensures
        restart_step(r, p, e).2 == StartAction::Spawn ==> r.phase == RestartPhase::CheckingConfig
            && e == (StartEventView::ConfigChecked { problem: None }),
        restart_step(r, p, e).0.phase == RestartPhase::CheckingConfig ==> (r.phase
            == RestartPhase::CheckingConfig || (r.phase == RestartPhase::Probing && e == (
        StartEventView::Probed { responding: false }))),
{
}

/// Law: a server that already answers ends the sequence, so nothing is
/// spawned beside it; a configuration problem ends it with the settings
/// window open.
pub proof fn adopting_or_failing_config_ends_the_sequence(r: Restart, p: ProcessView, m: Seq<char>)
    ensures
        r.phase == RestartPhase::Probing ==> restart_step(
            r,
            p,
            StartEventView::Probed { responding: true },
        ).0.phase == RestartPhase::Done,
        r.phase == RestartPhase::CheckingConfig ==> restart_step(
            r,
            p,
            StartEventView::ConfigChecked { problem: Some(m) },
        ) == (
            Restart { phase: RestartPhase::Done, generation: r.generation },
            p.with_status(
                StatusView::Failed { message: config_failure_message(m), log_tail: Seq::empty() },
            ),
            StartAction::ShowStatusThenOpenSettings,
        ),
{
}

/// Law: once the sequence is over, every event is ignored.
pub proof fn finished_sequence_ignores_events(r: Restart, p: ProcessView, e: StartEventView)
    requires
        r.phase == RestartPhase::Done,
    ensures
        restart_step(r, p, e) == (r, p, StartAction::Ignore),
{
}

/// Law: on a restart the main window goes home before `Starting` is shown;
/// on the very first start `Starting` is shown at once.
pub proof fn home_before_starting_on_restart(p: ProcessView)
    requires
        p.pid is None,
        p.generation < u64::MAX,
    ensures
        p.generation != 0 ==> restart_step(
            Restart::initial(),
            p,
            StartEventView::Begin,
        ).2 == StartAction::NavigateHome && restart_step(
            Restart::initial(),
            p,
            StartEventView::Begin,
        ).1.status == p.status,
        p.generation == 0 ==> restart_step(Restart::initial(), p, StartEventView::Begin).2
            == StartAction::ShowStatusThenProbe && restart_step(
            Restart::initial(),
            p,
            StartEventView::Begin,
        ).1.status == StatusView::Starting,
{
}

/// Law: when one sequence has spawned process `q` and a later sequence
/// starts, the later one first has `q`'s tree killed, tracks no process while
/// it does, and then runs with the next generation.
pub proof fn next_sequence_kills_previous_child(r: Restart, p: ProcessView, q: u32)
    requires
        r.phase == RestartPhase::Spawning,
        p.generation == r.generation,
        r.generation < u64::MAX,
    ensures
        ({
            let (ra, pa, aa) = restart_step(r, p, StartEventView::Spawned { pid: Some(q) });
            let (rb, pb, ab) = restart_step(Restart::initial(), pa, StartEventView::Begin);
            let (rc, pc, ac) = restart_step(rb, pb, StartEventView::TreeKilled);
            &&& aa == (StartAction::Watch { generation: r.generation })
            &&& ra.phase == RestartPhase::Done
            &&& pa.pid == Some(q)
            &&& ab == (StartAction::KillTree { pid: q })
            &&& pb.pid is None
            &&& pb.generation == r.generation
            &&& rc.generation == r.generation + 1
            &&& pc.generation == r.generation + 1
            &&& pc.pid is None
            &&& rc.phase != RestartPhase::Done
        }),
{
}

/// Law: recording the spawned process changes only the tracked process id;
/// the status stays as it was (`Starting` on the normal path), since ComfyUI
/// is not answering yet.
pub proof fn spawn_keeps_status(r: Restart, p: ProcessView, pid: Option<u32>)
    requires
        r.phase == RestartPhase::Spawning,
    ensures
        restart_step(r, p, StartEventView::Spawned { pid }).1.status == p.status,
        restart_step(r, p, StartEventView::Spawned { pid }).1.pid == pid,
        restart_step(r, p, StartEventView::Spawned { pid }).1.log == p.log,
        restart_step(r, p, StartEventView::Spawned { pid }).1.generation == p.generation,
{
}

/// Law: the sequence makes ComfyUI `Ready` only when its address answered
/// the probe; every other step leaves a status that was not `Ready` not
/// `Ready`.
pub proof fn ready_only_after_answering_probe(r: Restart, p: ProcessView, e: StartEventView)
    requires
        !(p.status is Ready),
        restart_step(r, p, e).1.status is Ready,
    ensures
        r.phase == RestartPhase::Probing,
        e == (StartEventView::Probed { responding: true }),
        restart_step(r, p, e).1.status == (StatusView::Ready { url: crate::state::COMFY_URL@ }),
{
}

/// Law: on the first start, once the probe finds nothing answering and the
/// configuration is sound, the spawned process is tracked and watched, and
/// the status stays `Starting`: only the watcher's readiness mark makes it
/// `Ready`.
pub proof fn first_start_spawns_and_stays_starting(p: ProcessView, pid: Option<u32>)
    requires
        p.pid is None,
        p.generation == 0,
    ensures
        ({
            let s1 = restart_step(Restart::initial(), p, StartEventView::Begin);
            let s2 = restart_step(s1.0, s1.1, StartEventView::Probed { responding: false });
            let s3 = restart_step(s2.0, s2.1, StartEventView::ConfigChecked { problem: None });
            let s4 = restart_step(s3.0, s3.1, StartEventView::Spawned { pid });
            &&& s1.2 == StartAction::ShowStatusThenProbe
            &&& s2.2 == StartAction::CheckConfig
            &&& s3.2 == StartAction::Spawn
            &&& s4.2 == (StartAction::Watch { generation: 1 })
            &&& s4.0.phase == RestartPhase::Done
            &&& s4.1.status == StatusView::Starting
            &&& s4.1.pid == pid
            &&& s4.1.generation == 1
            &&& s4.1.log.len() == 0
        }),
{
}

/// Law: a restart while process `q` is tracked kills its tree, goes home,
/// shows `Starting`, and once nothing answers and the configuration is
/// sound spawns and watches a new process under the next generation, still
/// `Starting`.
pub proof fn restart_kills_then_spawns_and_stays_starting(p: ProcessView, q: u32, pid: Option<u32>)
    requires
        p.pid == Some(q),
        0 < p.generation < u64::MAX,
    ensures
        ({
            let s1 = restart_step(Restart::initial(), p, StartEventView::Begin);
            let s2 = restart_step(s1.0, s1.1, StartEventView::TreeKilled);
            let s3 = restart_step(s2.0, s2.1, StartEventView::HomeShown);
            let s4 = restart_step(s3.0, s3.1, StartEventView::Probed { responding: false });
            let s5 = restart_step(s4.0, s4.1, StartEventView::ConfigChecked { problem: None });
            let s6 = restart_step(s5.0, s5.1, StartEventView::Spawned { pid });
            &&& s1.2 == (StartAction::KillTree { pid: q })
            &&& s2.2 == StartAction::NavigateHome
            &&& s2.1.status == p.status
            &&& s3.2 == StartAction::ShowStatusThenProbe
            &&& s3.1.status == StatusView::Starting
            &&& s4.2 == StartAction::CheckConfig
            &&& s5.2 == StartAction::Spawn
            &&& s6.2 == (StartAction::Watch { generation: (p.generation + 1) as u64 })
            &&& s6.1.status == StatusView::Starting
            &&& s6.1.pid == pid
            &&& s6.1.generation == p.generation + 1
        }),
{
}

} // verus!
