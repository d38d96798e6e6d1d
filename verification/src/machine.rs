//! The orchestration state machine.
//!
//! One deploy runs as a linear pipeline: wait for the per-name lock, acquire
//! it, pull the target image, provision the replacement container, settle,
//! repoint the proxy upstream, decommission the previous instance, release the
//! lock, and exit. Every stage performs exactly one collaborator call, and any
//! error moves the machine to the failed phase, where it only releases the
//! lock and exits non-zero.
//!
//! The machine itself performs no I/O. [`Deployment::step`] consumes the event
//! the last action produced and returns the next action; the driver around the
//! library executes each action against the container runtime, the proxy
//! control plane, the clock and the filesystem, and feeds the outcome back.
//! The whole transition table is the relation [`step_rel`], which `step` is
//! proved to follow.

use vstd::prelude::*;
use vstd::string::StringExecFns;

use crate::envfile::env_lines_spec;
use crate::envfile::parse_env_lines;
use crate::names::dial_spec;
use crate::names::dial_target;
use crate::names::next_container_name;
use crate::names::next_container_spec;
use crate::names::upstream_id;
use crate::names::upstream_id_spec;

verus! {

/// Seconds between two looks at a lock held by another deploy.
pub const LOCK_POLL_SECS: u64 = 5;

/// Seconds the new container is given to come up before the proxy cutover.
pub const SETTLE_SECS: u64 = 5;

/// Sub-steps of the lock-wait phase.
#[derive(Clone, Copy, PartialEq, Eq, Structural, Debug)]
pub enum LockStep {
    /// Observing whether the lock is held.
    Check,
    /// Waiting out the poll interval while the lock is held.
    Wait,
    /// Acquiring the free lock.
    Acquire,
}

/// Sub-steps of the provisioning phase.
#[derive(Clone, Copy, PartialEq, Eq, Structural, Debug)]
pub enum ProvStep {
    /// Reading the optional per-service env file.
    LoadEnv,
    /// Creating the replacement container.
    Create,
    /// Starting the replacement container.
    Start,
    /// Inspecting it for its admin-network address.
    Inspect,
}

/// Sub-steps of the decommissioning phase.
#[derive(Clone, Copy, PartialEq, Eq, Structural, Debug)]
pub enum CleanStep {
    /// Asking whether a container with the canonical name exists.
    Probe,
    /// Force-removing the canonical container.
    Remove,
    /// Renaming the replacement to the canonical name.
    Rename,
}

/// Sub-steps of a finished run, successful or failed.
#[derive(Clone, Copy, PartialEq, Eq, Structural, Debug)]
pub enum EndStep {
    /// Releasing the lock.
    Release,
    /// Terminal: the exit action has been issued.
    Exit,
}

/// The phase of a deploy.
#[derive(Clone, Copy, PartialEq, Eq, Structural, Debug)]
pub enum Phase {
    LockWait(LockStep),
    Pulling,
    Provisioning(ProvStep),
    Settling,
    Swapping,
    Cleaning(CleanStep),
    Done(EndStep),
    Failed(EndStep),
}

/// The pipeline stage an error arose in.
#[derive(Clone, Copy, PartialEq, Eq, Structural, Debug)]
pub enum Stage {
    Lock,
    Pull,
    Provision,
    Swap,
    Cleanup,
}

/// A fatal deploy error: the stage it arose in and its descriptive detail.
#[derive(Debug)]
pub struct DeployError {
    pub stage: Stage,
    pub detail: String,
}

/// Everything the runtime needs to create the replacement container.
#[derive(Debug)]
pub struct ContainerSpec {
    /// Name of the new container: the "next" name, not the canonical one.
    pub container_name: String,
    /// Image reference the container runs.
    pub image: String,
    /// `KEY=VALUE` entries, in env-file order; absent when there is no file.
    pub env: Option<Vec<String>>,
    /// The container restarts unless explicitly stopped.
    pub restart_unless_stopped: bool,
    /// The admin overlay network the container joins.
    pub network: String,
    /// Bind mounts; just the control-socket bind, when requested.
    pub binds: Option<Vec<String>>,
}

/// One control-plane update for the proxy: repoint `upstream_id` at `dial`.
#[derive(Debug)]
pub struct SwapRequest {
    pub upstream_id: String,
    pub dial: String,
}

/// What the driver must do next.
#[derive(Debug)]
pub enum Action {
    /// Observe whether the lock marker for the deployment name is present.
    CheckLock,
    /// Sleep for the given number of seconds.
    Sleep(u64),
    /// Create the lock marker.
    AcquireLock,
    /// Begin pulling the image and report the first progress event.
    PullImage,
    /// Report the next image-pull progress event.
    AwaitPull,
    /// Read the per-service env file, if it exists.
    ReadEnvFile,
    /// Create the replacement container from the spec.
    CreateContainer(ContainerSpec),
    /// Start the container with the given id.
    StartContainer(String),
    /// Inspect the container with the given id for its admin-network address.
    InspectContainer(String),
    /// Send the upstream update to the proxy control plane.
    SwapProxy(SwapRequest),
    /// Observe whether a container with the canonical name exists.
    ProbeCanonical,
    /// Force-remove the canonical container.
    RemoveCanonical,
    /// Rename the replacement container to the canonical name.
    RenameNext,
    /// Delete the lock marker.
    ReleaseLock,
    /// Terminal: the deploy succeeded; exit with status zero.
    ExitOk,
    /// Terminal: the deploy failed with this detail; exit non-zero.
    ExitErr(String),
}

/// What the driver observed while executing the last action.
#[derive(Debug)]
pub enum Event {
    /// Whether the lock marker is present.
    LockStatus(bool),
    /// Outcome of creating the lock marker.
    Acquired(Result<(), String>),
    /// One non-error image-pull progress event arrived.
    PullProgress,
    /// The image pull reported an error.
    PullFailed(String),
    /// The image-pull stream ended without an error.
    PullComplete,
    /// Content of the env file, or absence.
    EnvLoaded(Option<String>),
    /// Outcome of creating the container; ok carries the runtime-assigned id.
    Created(Result<String, String>),
    /// Outcome of starting the container.
    Started(Result<(), String>),
    /// Outcome of inspecting: ok carries the admin-network address, if any.
    Inspected(Result<Option<String>, String>),
    /// The requested sleep elapsed.
    Slept,
    /// Outcome of the proxy update.
    Swapped(Result<(), String>),
    /// Whether a container with the canonical name exists.
    CanonicalFound(bool),
    /// Outcome of removing the canonical container.
    Removed(Result<(), String>),
    /// Outcome of renaming the replacement container.
    Renamed(Result<(), String>),
    /// Outcome of deleting the lock marker.
    Released(Result<(), String>),
}

/// The detail reported when the started container shows no admin-network
/// attachment: the runtime did not finish attaching the network.
pub open spec fn missing_network_note() -> Seq<char> {
    "no admin network address on the new container"@
}

/// The admin overlay network every managed container joins.
pub open spec fn admin_network_spec() -> Seq<char> {
    "haas_admin"@
}

/// The control-socket bind mount, granting the container control-plane access.
pub open spec fn socket_bind_spec() -> Seq<char> {
    "/var/run/docker.sock:/var/run/docker.sock"@
}

/// One deploy in flight: its fixed inputs and its mutable progress.
pub struct Deployment {
    /// The deployment name; canonical container name of the service.
    pub name: String,
    /// The image to deploy.
    pub image: String,
    /// The port the service listens on, dialed by the proxy.
    pub port: i32,
    /// Whether the new container gets the control-socket bind mount.
    pub docker_socket: bool,
    /// Where the pipeline stands.
    pub phase: Phase,
    /// Runtime id of the replacement container, once created.
    pub cid: Option<String>,
    /// Admin-network address of the replacement, once inspected.
    pub ip: Option<String>,
    /// The fatal error, once one arose.
    pub err: Option<DeployError>,
}

/// The config fields never change across a step.
pub open spec fn same_config(pre: Deployment, post: Deployment) -> bool {
    &&& post.name == pre.name
    &&& post.image == pre.image
    &&& post.port == pre.port
    &&& post.docker_socket == pre.docker_socket
}

/// The step only moved the phase.
pub open spec fn steps_to(pre: Deployment, post: Deployment, ph: Phase) -> bool {
    &&& same_config(pre, post)
    &&& post.phase == ph
    &&& post.cid == pre.cid
    &&& post.ip == pre.ip
    &&& post.err == pre.err
}

/// The step failed in `stage` with `detail`: the machine records the error and
/// moves to the failed phase, about to release the lock.
pub open spec fn fails_to(pre: Deployment, post: Deployment, stage: Stage, detail: Seq<char>) -> bool {
    &&& same_config(pre, post)
    &&& post.phase == Phase::Failed(EndStep::Release)
    &&& post.cid == pre.cid
    &&& post.ip == pre.ip
    &&& (post.err matches Some(de) && de.stage == stage && de.detail@ == detail)
}

/// The container spec the provisioner builds from the deploy inputs and the
/// env file content: the "next" name, the given image, the file's lines (in
/// order) as environment, restart-unless-stopped, the admin network, and the
/// control-socket bind exactly when requested.
pub open spec fn built_spec_ok(pre: Deployment, content: Option<String>, cs: ContainerSpec) -> bool {
    &&& cs.container_name@ == next_container_spec(pre.name@)
    &&& cs.image@ == pre.image@
    &&& (match content {
        Option::None => cs.env is None,
        Option::Some(c) => cs.env matches Some(es) && es.deep_view() == env_lines_spec(c@),
    })
    &&& cs.restart_unless_stopped
    &&& cs.network@ == admin_network_spec()
    &&& (if pre.docker_socket {
        cs.binds matches Some(b) && b.deep_view() == seq![socket_bind_spec()]
    } else {
        cs.binds is None
    })
}

/// The full transition table: `step_rel(pre, ev, post, a)` holds exactly when
/// consuming `ev` in state `pre` yields state `post` and action `a`.
pub open spec fn step_rel(pre: Deployment, ev: Event, post: Deployment, a: Action) -> bool {
    match (pre.phase, ev) {
        (Phase::LockWait(LockStep::Check), Event::LockStatus(locked)) => {
            if locked {
                steps_to(pre, post, Phase::LockWait(LockStep::Wait)) && a == Action::Sleep(
                    LOCK_POLL_SECS,
                )
            } else {
                steps_to(pre, post, Phase::LockWait(LockStep::Acquire)) && a
                    == Action::AcquireLock
            }
        },
        (Phase::LockWait(LockStep::Wait), Event::Slept) => steps_to(
            pre,
            post,
            Phase::LockWait(LockStep::Check),
        ) && a == Action::CheckLock,
        (Phase::LockWait(LockStep::Acquire), Event::Acquired(r)) => match r {
            Result::Ok(_) => steps_to(pre, post, Phase::Pulling) && a == Action::PullImage,
            // Acquire failure is fatal before any other side effect; the lock
            // is not held, so nothing is released.
            Result::Err(e) => {
                &&& same_config(pre, post)
                &&& post.phase == Phase::Failed(EndStep::Exit)
                &&& post.cid == pre.cid
                &&& post.ip == pre.ip
                &&& (post.err matches Some(de) && de.stage == Stage::Lock && de.detail@ == e@)
                &&& (a matches Action::ExitErr(d) && d@ == e@)
            },
        },
        (Phase::Pulling, Event::PullProgress) => steps_to(pre, post, Phase::Pulling) && a
            == Action::AwaitPull,
        (Phase::Pulling, Event::PullFailed(e)) => fails_to(pre, post, Stage::Pull, e@) && a
            == Action::ReleaseLock,
        (Phase::Pulling, Event::PullComplete) => steps_to(
            pre,
            post,
            Phase::Provisioning(ProvStep::LoadEnv),
        ) && a == Action::ReadEnvFile,
        (Phase::Provisioning(ProvStep::LoadEnv), Event::EnvLoaded(content)) => {
            &&& steps_to(pre, post, Phase::Provisioning(ProvStep::Create))
            &&& (a matches Action::CreateContainer(cs) && built_spec_ok(pre, content, cs))
        },
        (Phase::Provisioning(ProvStep::Create), Event::Created(r)) => match r {
            Result::Ok(id) => {
                &&& same_config(pre, post)
                &&& post.phase == Phase::Provisioning(ProvStep::Start)
                &&& post.cid == Some(id)
                &&& post.ip == pre.ip
                &&& post.err == pre.err
                &&& (a matches Action::StartContainer(c) && c@ == id@)
            },
            Result::Err(e) => fails_to(pre, post, Stage::Provision, e@) && a
                == Action::ReleaseLock,
        },
        (Phase::Provisioning(ProvStep::Start), Event::Started(r)) => match r {
            Result::Ok(_) => {
                &&& steps_to(pre, post, Phase::Provisioning(ProvStep::Inspect))
                &&& (pre.cid matches Some(c0) && a matches Action::InspectContainer(c) && c@
                    == c0@)
            },
            Result::Err(e) => fails_to(pre, post, Stage::Provision, e@) && a
                == Action::ReleaseLock,
        },
        (Phase::Provisioning(ProvStep::Inspect), Event::Inspected(r)) => match r {
            Result::Ok(Some(ip)) => {
                &&& same_config(pre, post)
                &&& post.phase == Phase::Settling
                &&& post.cid == pre.cid
                &&& post.ip == Some(ip)
                &&& post.err == pre.err
                &&& a == Action::Sleep(SETTLE_SECS)
            },
            Result::Ok(None) => fails_to(pre, post, Stage::Provision, missing_network_note())
                && a == Action::ReleaseLock,
            Result::Err(e) => fails_to(pre, post, Stage::Provision, e@) && a
                == Action::ReleaseLock,
        },
        (Phase::Settling, Event::Slept) => {
            &&& steps_to(pre, post, Phase::Swapping)
            &&& (pre.ip matches Some(ip) && a matches Action::SwapProxy(req) && req.upstream_id@
                == upstream_id_spec(pre.name@) && req.dial@ == dial_spec(ip@, pre.port as int))
        },
        (Phase::Swapping, Event::Swapped(r)) => match r {
            Result::Ok(_) => steps_to(pre, post, Phase::Cleaning(CleanStep::Probe)) && a
                == Action::ProbeCanonical,
            Result::Err(e) => fails_to(pre, post, Stage::Swap, e@) && a == Action::ReleaseLock,
        },
        (Phase::Cleaning(CleanStep::Probe), Event::CanonicalFound(found)) => {
            if found {
                steps_to(pre, post, Phase::Cleaning(CleanStep::Remove)) && a
                    == Action::RemoveCanonical
            } else {
                steps_to(pre, post, Phase::Cleaning(CleanStep::Rename)) && a
                    == Action::RenameNext
            }
        },
        (Phase::Cleaning(CleanStep::Remove), Event::Removed(r)) => match r {
            Result::Ok(_) => steps_to(pre, post, Phase::Cleaning(CleanStep::Rename)) && a
                == Action::RenameNext,
            Result::Err(e) => fails_to(pre, post, Stage::Cleanup, e@) && a
                == Action::ReleaseLock,
        },
        (Phase::Cleaning(CleanStep::Rename), Event::Renamed(r)) => match r {
            Result::Ok(_) => steps_to(pre, post, Phase::Done(EndStep::Release)) && a
                == Action::ReleaseLock,
            Result::Err(e) => fails_to(pre, post, Stage::Cleanup, e@) && a
                == Action::ReleaseLock,
        },
        (Phase::Done(EndStep::Release), Event::Released(r)) => match r {
            Result::Ok(_) => steps_to(pre, post, Phase::Done(EndStep::Exit)) && a
                == Action::ExitOk,
            // Release failure is fatal even after a successful pipeline.
            Result::Err(e) => {
                &&& same_config(pre, post)
                &&& post.phase == Phase::Failed(EndStep::Exit)
                &&& post.cid == pre.cid
                &&& post.ip == pre.ip
                &&& (post.err matches Some(de) && de.stage == Stage::Lock && de.detail@ == e@)
                &&& (a matches Action::ExitErr(d) && d@ == e@)
            },
        },
        (Phase::Failed(EndStep::Release), Event::Released(_)) => {
            &&& same_config(pre, post)
            &&& post.phase == Phase::Failed(EndStep::Exit)
            &&& post.cid == pre.cid
            &&& post.ip == pre.ip
            &&& post.err == pre.err
            &&& (pre.err matches Some(de) && a matches Action::ExitErr(d) && d@ == de.detail@)
        },
        _ => false,
    }
}

impl Deployment {
    /// Structural facts every reachable state satisfies.
    pub open spec fn wf(self) -> bool {
        &&& (self.phase == Phase::Provisioning(ProvStep::Start) || self.phase
            == Phase::Provisioning(ProvStep::Inspect)) ==> self.cid is Some
        &&& (self.phase == Phase::Settling || self.phase == Phase::Swapping) ==> self.ip is Some
        &&& (self.phase matches Phase::Failed(_)) ==> self.err is Some
    }

    /// Which events the machine can consume in its current phase.
    pub open spec fn accepts(self, ev: Event) -> bool {
        match (self.phase, ev) {
            (Phase::LockWait(LockStep::Check), Event::LockStatus(_)) => true,
            (Phase::LockWait(LockStep::Wait), Event::Slept) => true,
            (Phase::LockWait(LockStep::Acquire), Event::Acquired(_)) => true,
            (Phase::Pulling, Event::PullProgress) => true,
            (Phase::Pulling, Event::PullFailed(_)) => true,
            (Phase::Pulling, Event::PullComplete) => true,
            (Phase::Provisioning(ProvStep::LoadEnv), Event::EnvLoaded(_)) => true,
            (Phase::Provisioning(ProvStep::Create), Event::Created(_)) => true,
            (Phase::Provisioning(ProvStep::Start), Event::Started(_)) => true,
            (Phase::Provisioning(ProvStep::Inspect), Event::Inspected(_)) => true,
            (Phase::Settling, Event::Slept) => true,
            (Phase::Swapping, Event::Swapped(_)) => true,
            (Phase::Cleaning(CleanStep::Probe), Event::CanonicalFound(_)) => true,
            (Phase::Cleaning(CleanStep::Remove), Event::Removed(_)) => true,
            (Phase::Cleaning(CleanStep::Rename), Event::Renamed(_)) => true,
            (Phase::Done(EndStep::Release), Event::Released(_)) => true,
            (Phase::Failed(EndStep::Release), Event::Released(_)) => true,
            _ => false,
        }
    }

    /// No event is consumed any more: the exit action has been issued.
    pub open spec fn terminal(self) -> bool {
        self.phase == Phase::Done(EndStep::Exit) || self.phase == Phase::Failed(EndStep::Exit)
    }

    /// A fresh deploy of `image` under `name`, about to observe the lock.
    pub fn init(name: String, image: String, port: i32, docker_socket: bool) -> (m: Deployment)
        ensures
            m.phase == Phase::LockWait(LockStep::Check),
            m.name == name,
            m.image == image,
            m.port == port,
            m.docker_socket == docker_socket,
            m.cid is None,
            m.ip is None,
            m.err is None,
            m.wf(),
    {
        Deployment {
            name,
            image,
            port,
            docker_socket,
            phase: Phase::LockWait(LockStep::Check),
            cid: None,
            ip: None,
            err: None,
        }
    }

    /// The first action of a deploy: observe the lock.
    pub fn start(&self) -> (a: Action)
        requires
            self.phase == Phase::LockWait(LockStep::Check),
        ensures
            a == Action::CheckLock,
    {
        Action::CheckLock
    }

    /// Runtime check that `ev` answers the pending action.
    pub fn event_fits(&self, ev: &Event) -> (b: bool)
        ensures
            b == self.accepts(*ev),
    {
        match (self.phase, ev) {
            (Phase::LockWait(LockStep::Check), Event::LockStatus(_)) => true,
            (Phase::LockWait(LockStep::Wait), Event::Slept) => true,
            (Phase::LockWait(LockStep::Acquire), Event::Acquired(_)) => true,
            (Phase::Pulling, Event::PullProgress) => true,
            (Phase::Pulling, Event::PullFailed(_)) => true,
            (Phase::Pulling, Event::PullComplete) => true,
            (Phase::Provisioning(ProvStep::LoadEnv), Event::EnvLoaded(_)) => true,
            (Phase::Provisioning(ProvStep::Create), Event::Created(_)) => true,
            (Phase::Provisioning(ProvStep::Start), Event::Started(_)) => true,
            (Phase::Provisioning(ProvStep::Inspect), Event::Inspected(_)) => true,
            (Phase::Settling, Event::Slept) => true,
            (Phase::Swapping, Event::Swapped(_)) => true,
            (Phase::Cleaning(CleanStep::Probe), Event::CanonicalFound(_)) => true,
            (Phase::Cleaning(CleanStep::Remove), Event::Removed(_)) => true,
            (Phase::Cleaning(CleanStep::Rename), Event::Renamed(_)) => true,
            (Phase::Done(EndStep::Release), Event::Released(_)) => true,
            (Phase::Failed(EndStep::Release), Event::Released(_)) => true,
            _ => false,
        }
    }

    /// Records a fatal error and moves to the failed phase; the lock is
    /// released next.
    fn fail(&mut self, stage: Stage, detail: String) -> (a: Action)
        ensures
            fails_to(*old(self), *final(self), stage, detail@),
            a == Action::ReleaseLock,
    {
        self.phase = Phase::Failed(EndStep::Release);
        self.err = Some(DeployError { stage, detail });
        Action::ReleaseLock
    }

    /// Consumes the outcome of the last action and returns the next action,
    /// exactly as [`step_rel`] prescribes.
    pub fn step(&mut self, ev: Event) -> (a: Action)
        requires
            old(self).wf(),
            old(self).accepts(ev),
        ensures
            final(self).wf(),
            step_rel(*old(self), ev, *final(self), a),
    {
        match (self.phase, ev) {
            (Phase::LockWait(LockStep::Check), Event::LockStatus(locked)) => {
                if locked {
                    self.phase = Phase::LockWait(LockStep::Wait);
                    Action::Sleep(LOCK_POLL_SECS)
                } else {
                    self.phase = Phase::LockWait(LockStep::Acquire);
                    Action::AcquireLock
                }
            },
            (Phase::LockWait(LockStep::Wait), Event::Slept) => {
                self.phase = Phase::LockWait(LockStep::Check);
                Action::CheckLock
            },
            (Phase::LockWait(LockStep::Acquire), Event::Acquired(r)) => match r {
                Ok(_) => {
                    self.phase = Phase::Pulling;
                    Action::PullImage
                },
                Err(e) => {
                    self.phase = Phase::Failed(EndStep::Exit);
                    let d = e.clone();
                    self.err = Some(DeployError { stage: Stage::Lock, detail: e });
                    Action::ExitErr(d)
                },
            },
            (Phase::Pulling, Event::PullProgress) => Action::AwaitPull,
            (Phase::Pulling, Event::PullFailed(e)) => self.fail(Stage::Pull, e),
            (Phase::Pulling, Event::PullComplete) => {
                self.phase = Phase::Provisioning(ProvStep::LoadEnv);
                Action::ReadEnvFile
            },
            (Phase::Provisioning(ProvStep::LoadEnv), Event::EnvLoaded(content)) => {
                let env = match content {
                    None => None,
                    Some(c) => Some(parse_env_lines(c.as_str())),
                };
                let binds = if self.docker_socket {
                    let mut b: Vec<String> = Vec::new();
                    b.push(String::from_str("/var/run/docker.sock:/var/run/docker.sock"));
                    proof {
                        assert(b.deep_view() =~= seq![socket_bind_spec()]);
                    }
                    Some(b)
                } else {
                    None
                };
                let cs = ContainerSpec {
                    container_name: next_container_name(self.name.as_str()),
                    image: self.image.clone(),
                    env,
                    restart_unless_stopped: true,
                    network: String::from_str("haas_admin"),
                    binds,
                };
                self.phase = Phase::Provisioning(ProvStep::Create);
                Action::CreateContainer(cs)
            },
            (Phase::Provisioning(ProvStep::Create), Event::Created(r)) => match r {
                Ok(id) => {
                    let idc = id.clone();
                    self.cid = Some(id);
                    self.phase = Phase::Provisioning(ProvStep::Start);
                    Action::StartContainer(idc)
                },
                Err(e) => self.fail(Stage::Provision, e),
            },
            (Phase::Provisioning(ProvStep::Start), Event::Started(r)) => match r {
                Ok(_) => match &self.cid {
                    Some(c) => {
                        let idc = c.clone();
                        self.phase = Phase::Provisioning(ProvStep::Inspect);
                        Action::InspectContainer(idc)
                    },
                    None => unreached(),
                },
                Err(e) => self.fail(Stage::Provision, e),
            },
            (Phase::Provisioning(ProvStep::Inspect), Event::Inspected(r)) => match r {
                Ok(Some(ip)) => {
                    self.ip = Some(ip);
                    self.phase = Phase::Settling;
                    Action::Sleep(SETTLE_SECS)
                },
                Ok(None) => self.fail(
                    Stage::Provision,
                    String::from_str("no admin network address on the new container"),
                ),
                Err(e) => self.fail(Stage::Provision, e),
            },
            (Phase::Settling, Event::Slept) => match &self.ip {
                Some(ip) => {
                    let req = SwapRequest {
                        upstream_id: upstream_id(self.name.as_str()),
                        dial: dial_target(ip.as_str(), self.port),
                    };
                    self.phase = Phase::Swapping;
                    Action::SwapProxy(req)
                },
                None => unreached(),
            },
            (Phase::Swapping, Event::Swapped(r)) => match r {
                Ok(_) => {
                    self.phase = Phase::Cleaning(CleanStep::Probe);
                    Action::ProbeCanonical
                },
                Err(e) => self.fail(Stage::Swap, e),
            },
            (Phase::Cleaning(CleanStep::Probe), Event::CanonicalFound(found)) => {
                if found {
                    self.phase = Phase::Cleaning(CleanStep::Remove);
                    Action::RemoveCanonical
                } else {
                    self.phase = Phase::Cleaning(CleanStep::Rename);
                    Action::RenameNext
                }
            },
            (Phase::Cleaning(CleanStep::Remove), Event::Removed(r)) => match r {
                Ok(_) => {
                    self.phase = Phase::Cleaning(CleanStep::Rename);
                    Action::RenameNext
                },
                Err(e) => self.fail(Stage::Cleanup, e),
            },
            (Phase::Cleaning(CleanStep::Rename), Event::Renamed(r)) => match r {
                Ok(_) => {
                    self.phase = Phase::Done(EndStep::Release);
                    Action::ReleaseLock
                },
                Err(e) => self.fail(Stage::Cleanup, e),
            },
            (Phase::Done(EndStep::Release), Event::Released(r)) => match r {
                Ok(_) => {
                    self.phase = Phase::Done(EndStep::Exit);
                    Action::ExitOk
                },
                Err(e) => {
                    self.phase = Phase::Failed(EndStep::Exit);
                    let d = e.clone();
                    self.err = Some(DeployError { stage: Stage::Lock, detail: e });
                    Action::ExitErr(d)
                },
            },
            (Phase::Failed(EndStep::Release), Event::Released(_)) => match &self.err {
                Some(de) => {
                    let d = de.detail.clone();
                    self.phase = Phase::Failed(EndStep::Exit);
                    Action::ExitErr(d)
                },
                None => unreached(),
            },
            _ => unreached(),
        }
    }
}

} // verus!
