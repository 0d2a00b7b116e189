//! The server lifecycle state machine.
//!
//! One process serves at most one directory at a time on the fixed loopback
//! port. The machine makes that explicit: `Idle -> Starting -> Running ->
//! Stopping -> Idle`, restartable any number of times. The shell that owns
//! the listener thread reports its observations (is the root a directory, did
//! the index probe succeed, did the bind succeed, has the background context
//! exited) and carries out the decisions made here; misuse such as a double
//! start or a double stop is a checked error, never undefined behaviour.

use vstd::prelude::*;

verus! {

/// Where one server run stands.
#[derive(Clone, Copy, Debug, PartialEq, Eq, Structural)]
pub enum LifecycleState {
    /// No run in progress; the port is free as far as this process goes.
    Idle,
    /// A root has been accepted; routes are being prepared, nothing bound yet.
    Starting,
    /// The listener is bound and accepting connections.
    Running,
    /// The one-shot stop signal has been sent; awaiting background exit.
    Stopping,
}

/// Everything that can go wrong in the core.
#[derive(Clone, Copy, Debug, PartialEq, Eq, Structural)]
pub enum ServerError {
    /// The supplied root does not exist or is not a directory.
    InvalidRoot,
    /// The root directory itself could not be read during the index probe.
    IoError,
    /// The fixed port is already claimed: by another process, or by a run of
    /// this process that has not been fully stopped.
    BindError,
    /// The handle's one-shot cancellation channel was already consumed.
    AlreadyStopped,
}

/// One running instance, as handed to the caller by a successful bind. Models
/// the pair of a one-shot cancellation sender and a join handle: live until
/// the first stop consumes it, dead thereafter.
#[derive(Debug)]
pub struct ServerHandle {
    live: bool,
}

impl ServerHandle {
    /// Whether the one-shot cancellation channel is still unconsumed.
    pub closed spec fn is_live(&self) -> bool {
        self.live
    }

    /// Exec mirror of `is_live`, for the shell.
    pub fn live(&self) -> (r: bool)
        ensures
            r == self.is_live(),
    {
        self.live
    }
}

/// The restartable lifecycle of the server within one process.
pub struct ServerLifecycle {
    state: LifecycleState,
}

impl ServerLifecycle {
    pub closed spec fn state(&self) -> LifecycleState {
        self.state
    }

    /// A start is accepted exactly when no run is in progress and the root is
    /// a readable directory.
    pub open spec fn start_ok(&self, root_is_dir: bool) -> bool {
        self.state() is Idle && root_is_dir
    }

    /// A stop of `handle` is accepted exactly when its one-shot channel has
    /// not been consumed yet.
    pub open spec fn stop_ok(&self, handle: ServerHandle) -> bool {
        handle.is_live()
    }

    pub fn new() -> (s: Self)
        ensures
            s.state() is Idle,
    {
        ServerLifecycle { state: LifecycleState::Idle }
    }

    /// Exec mirror of `state`, for the shell and for tests.
    pub fn current(&self) -> (s: LifecycleState)
        ensures
            s == self.state(),
    {
        self.state
    }

    /// First step of `Start`: claim the machine and validate the root. While
    /// a previous run has not fully stopped, the port is still held, so a new
    /// start reports `BindError`; a root that is not a directory is rejected
    /// with `InvalidRoot` before any resource is touched.
    pub fn begin_start(&mut self, root_is_dir: bool) -> (r: Result<(), ServerError>)
        ensures
            r is Ok <==> old(self).start_ok(root_is_dir),
            r is Ok ==> final(self).state() is Starting,
            !(old(self).state() is Idle) ==> r == Result::<(), ServerError>::Err(
                ServerError::BindError,
            ) && final(self).state() == old(self).state(),
            old(self).state() is Idle && !root_is_dir ==> r == Result::<(), ServerError>::Err(
                ServerError::InvalidRoot,
            ) && final(self).state() is Idle,
    {
        match self.state {
            LifecycleState::Idle => {
                if root_is_dir {
                    self.state = LifecycleState::Starting;
                    Ok(())
                } else {
                    Err(ServerError::InvalidRoot)
                }
            },
            _ => Err(ServerError::BindError),
        }
    }

    /// Second step of `Start`: act on the index probe. `probe` is
    /// `Some(has_index)` when the root's immediate entries could be listed,
    /// `None` when the root could not be read — the caller needs a decisive
    /// answer, so that aborts the start. On success the returned flag says
    /// whether the synthetic listing page must be mounted at the root path:
    /// exactly when no natural `index.html` is present.
    pub fn on_index_probe(&mut self, probe: Option<bool>) -> (r: Result<bool, ServerError>)
        requires
            old(self).state() is Starting,
        ensures
            probe is Some ==> r == Result::<bool, ServerError>::Ok(!probe.unwrap())
                && final(self).state() is Starting,
            probe is None ==> r == Result::<bool, ServerError>::Err(ServerError::IoError)
                && final(self).state() is Idle,
    {
        match probe {
            Some(has_index) => Ok(!has_index),
            None => {
                self.state = LifecycleState::Idle;
                Err(ServerError::IoError)
            },
        }
    }

    /// Last step of `Start`: the shell reports whether the listener bound the
    /// fixed port. On success the machine runs and the caller receives the
    /// live handle; on failure the machine returns to idle with nothing held.
    pub fn on_bind(&mut self, bind_ok: bool) -> (r: Result<ServerHandle, ServerError>)
        requires
            old(self).state() is Starting,
        ensures
            bind_ok ==> final(self).state() is Running && r is Ok && r.unwrap().is_live(),
            !bind_ok ==> final(self).state() is Idle && r is Err && r.unwrap_err()
                == ServerError::BindError,
    {
        if bind_ok {
            self.state = LifecycleState::Running;
            Ok(ServerHandle { live: true })
        } else {
            self.state = LifecycleState::Idle;
            Err(ServerError::BindError)
        }
    }

    /// `Stop`, first half: consume the handle's one-shot cancellation
    /// channel. A handle that was already stopped is refused loudly with
    /// `AlreadyStopped` and nothing changes. On success the machine is
    /// `Stopping` until `on_exited` confirms that the background context is
    /// gone; the handle is dead from here on.
    pub fn request_stop(&mut self, handle: &mut ServerHandle) -> (r: Result<(), ServerError>)
        requires
            old(handle).is_live() ==> old(self).state() is Running,
        ensures
            r is Ok <==> old(self).stop_ok(*old(handle)),
            r is Ok ==> final(self).state() is Stopping && !final(handle).is_live(),
            r is Err ==> r.unwrap_err() == ServerError::AlreadyStopped && final(self).state()
                == old(self).state() && final(handle).is_live() == old(handle).is_live(),
    {
        if handle.live {
            handle.live = false;
            self.state = LifecycleState::Stopping;
            Ok(())
        } else {
            Err(ServerError::AlreadyStopped)
        }
    }

    /// `Stop`, second half: the shell joined the background thread, so the
    /// listener is closed and the port is released. The machine is idle and
    /// a new start may bind the same port at once.
    pub fn on_exited(&mut self)
        requires
            old(self).state() is Stopping,
        ensures
            final(self).state() is Idle,
    {
        self.state = LifecycleState::Idle;
    }
}

/// Once a stop has completed — the stop signal was consumed and the
/// background context confirmed dead, so the machine is idle again — a start
/// on the same port with a valid root is accepted: no `BindError` is
/// reported, because the previous run has released everything it held.
pub proof fn lemma_restart_after_stop(l: ServerLifecycle, root_is_dir: bool)
    requires
        l.state() is Idle,
        root_is_dir,
    ensures
        l.start_ok(root_is_dir),
{
}

/// A second stop on the same handle is refused: the first stop consumed the
/// one-shot cancellation channel, and a consumed handle is never accepted
/// again, whatever state the machine is in.
pub proof fn lemma_second_stop_refused(l: ServerLifecycle, handle: ServerHandle)
    requires
        !handle.is_live(),
    ensures
        !l.stop_ok(handle),
{
}

} // verus!
