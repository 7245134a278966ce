use vstd::prelude::*;
use crate::config::IdlerConfig;

verus! {

/// Whether a child process is currently under supervision.
#[derive(Clone, Copy, PartialEq, Eq, Structural, Debug)]
pub enum SupervisorState {
    /// No child running; the supervisor only watches the idle clock.
    Watching,
    /// A child process is running under supervision.
    Running,
}

/// Renewed user activity shows up as the idle clock falling below its
/// previous reading: idle time only grows while the user stays away and
/// resets toward zero the instant input occurs.
pub open spec fn activity_detected(prev_idle_seconds: u64, idle_seconds: u64) -> bool {
    idle_seconds < prev_idle_seconds
}

/// The idle-triggered process supervisor. It owns the configuration, tracks
/// the last observed idle reading (the only history it keeps), and decides
/// on each poll whether to start, terminate, or release the managed child.
///
/// The child process handle itself lives with the driver of the loop; the
/// supervisor guarantees that it asks for one to exist exactly while it is
/// in [`SupervisorState::Running`].
pub struct Idlerunner {
    /// The idle reading stored by the most recent poll, in seconds.
    pub last_idle_seconds: u64,
    /// The loaded configuration, if any.
    pub config: Option<IdlerConfig>,
    /// Whether a child is currently supervised.
    pub state: SupervisorState,
}

impl Idlerunner {
    /// A fresh supervisor: no reading seen yet, no configuration, watching.
    pub fn new() -> (r: Idlerunner)
        ensures
            r.last_idle_seconds == 0,
            r.config is None,
            r.state == SupervisorState::Watching,
    {
        Idlerunner {
            last_idle_seconds: 0,
            config: None,
            state: SupervisorState::Watching,
        }
    }

    /// Stores a freshly parsed configuration; nothing else changes.
    pub fn load_config(&mut self, config: IdlerConfig)
        ensures
            final(self).config == Some(config),
            final(self).last_idle_seconds == old(self).last_idle_seconds,
            final(self).state == old(self).state,
    {
        self.config = Some(config);
    }

    /// Records one idle reading and reports whether it signals renewed user
    /// activity: true exactly when the reading fell strictly below the
    /// previously stored one. The stored reading is overwritten
    /// unconditionally.
    pub fn check_idle(&mut self, idle_seconds: u64) -> (changed: bool)
        ensures
            changed == activity_detected(old(self).last_idle_seconds, idle_seconds),
            final(self).last_idle_seconds == idle_seconds,
            final(self).config == old(self).config,
            final(self).state == old(self).state,
    {
        let changed = idle_seconds < self.last_idle_seconds;
        self.last_idle_seconds = idle_seconds;
        changed
    }

    /// The idle threshold in effect, once a configuration is loaded.
    pub open spec fn threshold_of(&self) -> u64
        recommends
            self.config is Some,
    {
        match self.config {
            Some(config) => config.threshold_spec(),
            None => crate::config::DEFAULT_RUN_AFTER_SECONDS,
        }
    }

    /// What one watching-phase poll does to the supervisor: the reading is
    /// stored, everything else stays as it was.
    pub open spec fn watch_step(self, idle_seconds: u64) -> Idlerunner {
        Idlerunner { last_idle_seconds: idle_seconds, ..self }
    }

    /// Whether a watching-phase poll with this reading starts the child:
    /// exactly when the reading strictly exceeds the threshold.
    pub open spec fn watch_spawns(self, idle_seconds: u64) -> bool {
        idle_seconds > self.threshold_of()
    }

    /// One poll of the watching phase. The reading is recorded; the result
    /// says whether the driver must now attempt to spawn the child. The
    /// supervisor stays in `Watching` until the driver reports a successful
    /// spawn through [`Idlerunner::note_spawned`], so a failed spawn never
    /// reaches `Running`.
    pub fn poll_watching(&mut self, idle_seconds: u64) -> (spawn: bool)
        requires
            old(self).state == SupervisorState::Watching,
            old(self).config is Some,
        ensures
            *final(self) == old(self).watch_step(idle_seconds),
            spawn == old(self).watch_spawns(idle_seconds),
    {
        let _activity = self.check_idle(idle_seconds);
        let threshold = self.config.as_ref().unwrap().threshold();
        self.last_idle_seconds > threshold
    }

    /// The driver reports that the child was started: the supervisor moves
    /// to `Running`. Nothing else changes.
    pub fn note_spawned(&mut self)
        requires
            old(self).state == SupervisorState::Watching,
        ensures
            final(self).state == SupervisorState::Running,
            final(self).last_idle_seconds == old(self).last_idle_seconds,
            final(self).config == old(self).config,
    {
        self.state = SupervisorState::Running;
    }

    /// One poll of the running phase. The reading is recorded; the result
    /// says whether the driver must forcefully terminate the child before
    /// its next exit check: exactly when the reading signals renewed user
    /// activity.
    pub fn poll_running(&mut self, idle_seconds: u64) -> (terminate: bool)
        requires
            old(self).state == SupervisorState::Running,
        ensures
            terminate == activity_detected(old(self).last_idle_seconds, idle_seconds),
            final(self).last_idle_seconds == idle_seconds,
            final(self).config == old(self).config,
            final(self).state == SupervisorState::Running,
    {
        self.check_idle(idle_seconds)
    }

    /// The driver reports the outcome of a non-blocking exit check on the
    /// child. If the child has exited, the supervisor returns to `Watching`
    /// at once — the driver then releases the handle and must not terminate
    /// or wait on it again (the preconditions of [`Idlerunner::poll_running`]
    /// and of this method forbid it). If the child still runs, the
    /// supervisor stays in `Running`.
    pub fn note_wait(&mut self, child_exited: bool)
        requires
            old(self).state == SupervisorState::Running,
        ensures
            child_exited ==> final(self).state == SupervisorState::Watching,
            !child_exited ==> final(self).state == SupervisorState::Running,
            final(self).last_idle_seconds == old(self).last_idle_seconds,
            final(self).config == old(self).config,
    {
        if child_exited {
            self.state = SupervisorState::Watching;
        }
    }

    /// Where a run of watching-phase polls with these readings leaves the
    /// supervisor, reading by reading.
    pub open spec fn watch_run(self, readings: Seq<u64>) -> Idlerunner
        decreases readings.len(),
    {
        if readings.len() == 0 {
            self
        } else {
            self.watch_step(readings[0]).watch_run(readings.drop_first())
        }
    }
}

/// The idle reading the supervisor stores after a run of polls: the last
/// reading of the run, or the initial stored value when there was none.
pub open spec fn last_idle_after(init_idle_seconds: u64, readings: Seq<u64>) -> u64 {
    if readings.len() == 0 {
        init_idle_seconds
    } else {
        readings.last()
    }
}

/// Law: over any run of idle readings, whatever the state, activity is
/// detected at a step exactly when that step's reading lies strictly below
/// the one before it (below the initially stored reading at the first step).
/// Each poll stores its reading, so the stored value going into step `i` is
/// `last_idle_after` of the prefix, which [`Idlerunner::check_idle`] compares
/// the new reading against.
pub proof fn lemma_activity_is_reading_drop(init_idle_seconds: u64, readings: Seq<u64>, i: int)
    requires
        0 <= i < readings.len(),
    ensures
        activity_detected(last_idle_after(init_idle_seconds, readings.take(i)), readings[i])
            == (if i == 0 {
                readings[i] < init_idle_seconds
            } else {
                readings[i] < readings[i - 1]
            }),
{
    if i > 0 {
        assert(readings.take(i).last() == readings[i - 1]);
    }
}

/// Helper for the law below: a run of watching-phase polls touches only the
/// stored idle reading — the configuration and the phase come out unchanged.
proof fn lemma_watch_run_preserves(s: Idlerunner, readings: Seq<u64>)
    ensures
        s.watch_run(readings).config == s.config,
        s.watch_run(readings).state == s.state,
    decreases readings.len(),
{
    if readings.len() > 0 {
        lemma_watch_run_preserves(s.watch_step(readings[0]), readings.drop_first());
    }
}

/// Law: repeatedly polling in the watching phase with readings that never
/// exceed the threshold requests no spawn at any step, and leaves both the
/// configuration and the phase exactly as they were.
pub proof fn lemma_watching_idempotent(s: Idlerunner, readings: Seq<u64>)
    requires
        s.state == SupervisorState::Watching,
        forall|i: int| 0 <= i < readings.len() ==> readings[i] <= s.threshold_of(),
    ensures
        s.watch_run(readings).state == SupervisorState::Watching,
        s.watch_run(readings).config == s.config,
        forall|i: int|
            0 <= i < readings.len() ==> !s.watch_run(readings.take(i)).watch_spawns(readings[i]),
{
    lemma_watch_run_preserves(s, readings);
    assert forall|i: int|
        0 <= i < readings.len() implies !s.watch_run(readings.take(i)).watch_spawns(
        readings[i],
    ) by {
        lemma_watch_run_preserves(s, readings.take(i));
    }
}

impl Default for Idlerunner {
    /// Same as [`Idlerunner::new`].
    fn default() -> (r: Idlerunner)
        ensures
            r.last_idle_seconds == 0,
            r.config is None,
            r.state == SupervisorState::Watching,
    {
        Idlerunner::new()
    }
}

} // verus!
