//! The provisioning state machine. Each phase names the one outside action
//! that is due; the caller performs it and hands back what happened, and the
//! machine moves on. Once a device has been allocated, every failure passes
//! through a phase that detaches it.
use vstd::prelude::*;
use vstd::string::*;
use crate::config::Config;
use crate::filesystem::{label_of, resolution_of, resolve_filesystem, FsError, FsKind};
use crate::name::{sanitize_volume_name, sanitized};
use crate::size::{sectors_of, size_to_sectors, SizeError};
use crate::text::{trim_whitespace, trimmed, upper_of};

verus! {

/// How many times the mount point is looked for after formatting.
pub const MOUNT_ATTEMPTS: u32 = 50;

/// The pause between two looks for the mount point.
pub const POLL_INTERVAL_MS: u64 = 100;

/// Why a run failed.
#[derive(Clone, Debug)]
pub enum ProvisionError {
    /// The size token was refused.
    Size(SizeError),
    /// The filesystem token was refused.
    Filesystem(FsError),
    /// Something already stands at the mount point.
    AlreadyExists,
    /// No device was allocated: the allocator's message, or `None` when it
    /// returned no device handle.
    AllocationFailed(Option<String>),
    /// Formatting failed, with the formatter's message.
    FormatFailed(String),
    /// The volume did not appear at the mount point in time.
    MountTimeout,
    /// The volume was gone from the mount point when checked once more.
    VerificationFailed,
}

/// Everything a run needs, worked out before any outside action.
#[derive(Clone, Debug)]
pub struct Plan {
    /// The size token, as typed.
    pub size: String,
    /// The size in sectors.
    pub sectors: u64,
    /// The filesystem token, as typed.
    pub filesystem: String,
    /// The filesystem it names.
    pub kind: FsKind,
    /// The label the format tool expects for it.
    pub label: String,
    /// The sanitized volume name.
    pub name: String,
    /// Where the volume will be mounted.
    pub mount_point: String,
}

/// A volume that was made, mounted and found at its mount point.
#[derive(Clone, Debug)]
pub struct Provisioned {
    pub device: String,
    pub size: String,
    pub sectors: u64,
    pub filesystem: String,
    pub mount_point: String,
    pub name: String,
}

/// Where a run stands.
#[derive(Debug)]
pub enum Phase {
    /// The mount point must be free before anything is allocated.
    Checking,
    /// A device is being allocated.
    Allocating,
    /// The device is being formatted and mounted.
    Formatting { device: String },
    /// Looking for the mount point; `attempts` looks have failed so far.
    Awaiting { device: String, attempts: u32 },
    /// Pausing before the next look.
    Pausing { device: String, attempts: u32 },
    /// Checking once more that the volume is mounted.
    Verifying { device: String },
    /// The device is being detached before the run fails with `error`.
    Detaching { device: String, error: ProvisionError },
    /// The run is over.
    Done { outcome: Result<Provisioned, ProvisionError> },
}

/// The outside action that a phase calls for.
#[derive(Clone, Debug)]
pub enum Action {
    /// Report whether anything exists at `path`.
    CheckPath { path: String },
    /// Allocate a memory-backed device of `sectors` sectors.
    Allocate { sectors: u64 },
    /// Erase `device` with the filesystem `label`, name the volume `name` and mount it.
    Format { label: String, name: String, device: String },
    /// Wait `millis` milliseconds.
    Pause { millis: u64 },
    /// Detach `device`; whatever comes of it is ignored.
    Detach { device: String },
    /// Nothing more: the run is over.
    Finish,
}

/// What came of an action.
#[derive(Debug)]
pub enum Event {
    /// Whether the path that was checked exists.
    PathChecked { exists: bool },
    /// The allocator's output (its device handle, perhaps padded with
    /// whitespace), or its error message.
    Allocated { output: Result<String, String> },
    /// Whether formatting succeeded, or the formatter's message.
    Formatted { result: Result<(), String> },
    /// The pause is over.
    Paused,
    /// The detach was attempted.
    Detached,
}

/// Where the volume named `name` is mounted.
pub open spec fn mount_point_of(name: Seq<char>) -> Seq<char> {
    "/Volumes/"@ + name
}

/// The device a phase holds: allocated, and neither released nor handed over.
pub open spec fn held_device(phase: Phase) -> Option<String> {
    match phase {
        Phase::Formatting { device } => Some(device),
        Phase::Awaiting { device, .. } => Some(device),
        Phase::Pausing { device, .. } => Some(device),
        Phase::Verifying { device } => Some(device),
        _ => None,
    }
}

/// What a run that finds its volume mounted hands back.
pub open spec fn success_of(plan: Plan, device: String) -> Provisioned {
    Provisioned {
        device,
        size: plan.size,
        sectors: plan.sectors,
        filesystem: plan.filesystem,
        mount_point: plan.mount_point,
        name: plan.name,
    }
}

/// The action that a phase calls for.
pub open spec fn action_of(plan: Plan, phase: Phase) -> Action {
    match phase {
        Phase::Checking => Action::CheckPath { path: plan.mount_point },
        Phase::Allocating => Action::Allocate { sectors: plan.sectors },
        Phase::Formatting { device } => Action::Format {
            label: plan.label,
            name: plan.name,
            device,
        },
        Phase::Awaiting { .. } => Action::CheckPath { path: plan.mount_point },
        Phase::Pausing { .. } => Action::Pause { millis: POLL_INTERVAL_MS },
        Phase::Verifying { .. } => Action::CheckPath { path: plan.mount_point },
        Phase::Detaching { device, .. } => Action::Detach { device },
        Phase::Done { .. } => Action::Finish,
    }
}

/// Whether `next` is the phase that follows `phase` on `event`. An event that
/// does not answer the phase's action leaves the phase as it is, except while
/// detaching, which ends the run on any event.
pub open spec fn transition(plan: Plan, phase: Phase, event: Event, next: Phase) -> bool {
    match phase {
        Phase::Checking => match event {
            Event::PathChecked { exists } => if exists {
                next == (Phase::Done { outcome: Err(ProvisionError::AlreadyExists) })
            } else {
                next == Phase::Allocating
            },
            _ => next == phase,
        },
        Phase::Allocating => match event {
            Event::Allocated { output } => match output {
                Ok(out) => if trimmed(out@).len() == 0 {
                    next == (Phase::Done { outcome: Err(ProvisionError::AllocationFailed(None)) })
                } else {
                    next matches Phase::Formatting { device } && device@ == trimmed(out@)
                },
                Err(message) => next == (Phase::Done {
                    outcome: Err(ProvisionError::AllocationFailed(Some(message))),
                }),
            },
            _ => next == phase,
        },
        Phase::Formatting { device } => match event {
            Event::Formatted { result } => match result {
                Ok(_) => next == (Phase::Awaiting { device, attempts: 0 }),
                Err(message) => next == (Phase::Detaching {
                    device,
                    error: ProvisionError::FormatFailed(message),
                }),
            },
            _ => next == phase,
        },
        Phase::Awaiting { device, attempts } => match event {
            Event::PathChecked { exists } => if exists {
                next == (Phase::Verifying { device })
            } else if attempts + 1 >= MOUNT_ATTEMPTS {
                next == (Phase::Detaching { device, error: ProvisionError::MountTimeout })
            } else {
                next == (Phase::Pausing { device, attempts: (attempts + 1) as u32 })
            },
            _ => next == phase,
        },
        Phase::Pausing { device, attempts } => match event {
            Event::Paused => next == (Phase::Awaiting { device, attempts }),
            _ => next == phase,
        },
        Phase::Verifying { device } => match event {
            Event::PathChecked { exists } => if exists {
                next == (Phase::Done { outcome: Ok(success_of(plan, device)) })
            } else {
                next == (Phase::Detaching { device, error: ProvisionError::VerificationFailed })
            },
            _ => next == phase,
        },
        Phase::Detaching { error, .. } => next == (Phase::Done { outcome: Err(error) }),
        Phase::Done { .. } => next == phase,
    }
}

/// The plan for a configuration, or why there is none.
pub open spec fn plan_for(config: Config, plan: Plan) -> bool {
    &&& sectors_of(upper_of(config.size@)) == Ok::<u64, SizeError>(plan.sectors)
    &&& resolution_of(config.filesystem@) == Ok::<FsKind, ()>(plan.kind)
    &&& plan.label@ == label_of(plan.kind)
    &&& plan.name@ == sanitized(config.name@)
    &&& plan.mount_point@ == mount_point_of(plan.name@)
    &&& plan.size == config.size
    &&& plan.filesystem == config.filesystem
}

/// Reads the size and the filesystem and works out the mount point; nothing
/// outside is touched.
pub fn prepare(config: &Config) -> (r: Result<Plan, ProvisionError>)
    ensures
        match r {
            Ok(plan) => plan_for(*config, plan),
            Err(ProvisionError::Size(e)) => sectors_of(upper_of(config.size@)) == Err::<
                u64,
                SizeError,
            >(e),
            Err(ProvisionError::Filesystem(e)) => sectors_of(upper_of(config.size@)) is Ok
                && resolution_of(config.filesystem@) is Err && e.token@ == config.filesystem@,
            Err(_) => false,
        },
{
    let sectors = match size_to_sectors(config.size.as_str()) {
        Ok(s) => s,
        Err(e) => {
            return Err(ProvisionError::Size(e));
        },
    };
    let kind = match resolve_filesystem(config.filesystem.as_str()) {
        Ok(k) => k,
        Err(e) => {
            return Err(ProvisionError::Filesystem(e));
        },
    };
    let name = sanitize_volume_name(config.name.as_str());
    let mut mount_point = String::from_str("/Volumes/");
    mount_point.append(name.as_str());
    Ok(
        Plan {
            size: config.size.clone(),
            sectors,
            filesystem: config.filesystem.clone(),
            kind,
            label: kind.label(),
            name,
            mount_point,
        },
    )
}

/// The action that `phase` calls for.
pub fn action(plan: &Plan, phase: &Phase) -> (r: Action)
    ensures
        r == action_of(*plan, *phase),
{
    match phase {
        Phase::Checking => Action::CheckPath { path: plan.mount_point.clone() },
        Phase::Allocating => Action::Allocate { sectors: plan.sectors },
        Phase::Formatting { device } => Action::Format {
            label: plan.label.clone(),
            name: plan.name.clone(),
            device: device.clone(),
        },
        Phase::Awaiting { .. } => Action::CheckPath { path: plan.mount_point.clone() },
        Phase::Pausing { .. } => Action::Pause { millis: POLL_INTERVAL_MS },
        Phase::Verifying { .. } => Action::CheckPath { path: plan.mount_point.clone() },
        Phase::Detaching { device, .. } => Action::Detach { device: device.clone() },
        Phase::Done { .. } => Action::Finish,
    }
}

/// The phase that follows `phase` once `event` has happened.
pub fn step(plan: &Plan, phase: Phase, event: Event) -> (r: Phase)
    ensures
        transition(*plan, phase, event, r),
{
    match phase {
        Phase::Checking => match event {
            Event::PathChecked { exists } => if exists {
                Phase::Done { outcome: Err(ProvisionError::AlreadyExists) }
            } else {
                Phase::Allocating
            },
            _ => Phase::Checking,
        },
        Phase::Allocating => match event {
            Event::Allocated { output } => match output {
                Ok(out) => {
                    let device = trim_whitespace(out.as_str());
                    if device.unicode_len() == 0 {
                        Phase::Done { outcome: Err(ProvisionError::AllocationFailed(None)) }
                    } else {
                        Phase::Formatting { device }
                    }
                },
                Err(message) => Phase::Done {
                    outcome: Err(ProvisionError::AllocationFailed(Some(message))),
                },
            },
            _ => Phase::Allocating,
        },
        Phase::Formatting { device } => match event {
            Event::Formatted { result } => match result {
                Ok(_) => Phase::Awaiting { device, attempts: 0 },
                Err(message) => Phase::Detaching {
                    device,
                    error: ProvisionError::FormatFailed(message),
                },
            },
            _ => Phase::Formatting { device },
        },
        Phase::Awaiting { device, attempts } => match event {
            Event::PathChecked { exists } => if exists {
                Phase::Verifying { device }
            } else if attempts >= MOUNT_ATTEMPTS - 1 {
                Phase::Detaching { device, error: ProvisionError::MountTimeout }
            } else {
                Phase::Pausing { device, attempts: attempts + 1 }
            },
            _ => Phase::Awaiting { device, attempts },
        },
        Phase::Pausing { device, attempts } => match event {
            Event::Paused => Phase::Awaiting { device, attempts },
            _ => Phase::Pausing { device, attempts },
        },
        Phase::Verifying { device } => match event {
            Event::PathChecked { exists } => if exists {
                Phase::Done {
                    outcome: Ok(
                        Provisioned {
                            device,
                            size: plan.size.clone(),
                            sectors: plan.sectors,
                            filesystem: plan.filesystem.clone(),
                            mount_point: plan.mount_point.clone(),
                            name: plan.name.clone(),
                        },
                    ),
                }
            } else {
                Phase::Detaching { device, error: ProvisionError::VerificationFailed }
            },
            _ => Phase::Verifying { device },
        },
        Phase::Detaching { device: _, error } => Phase::Done { outcome: Err(error) },
        Phase::Done { outcome } => Phase::Done { outcome },
    }
}

/// Once a device is held, no single step ends the run in failure: the device
/// is either still held, handed over in the success record, or passed to the
/// detaching phase together with the error.
pub proof fn lemma_held_device_is_never_dropped(
    plan: Plan,
    phase: Phase,
    event: Event,
    next: Phase,
    device: String,
)
    requires
        held_device(phase) == Some(device),
        transition(plan, phase, event, next),
    ensures
        !(next matches Phase::Done { outcome: Err(_) }),
        held_device(next) == Some(device) || next == (Phase::Done {
            outcome: Ok(success_of(plan, device)),
        }) || (next matches Phase::Detaching { device: d, .. } && d == device),
{
}

/// A run enters the detaching phase only from a phase that holds that very
/// device; there it calls for exactly one detach of that device, and the next
/// step, on any event, ends the run with the error it carried.
pub proof fn lemma_detach_before_failure(
    plan: Plan,
    phase: Phase,
    event: Event,
    next: Phase,
    later_event: Event,
    last: Phase,
)
    requires
        transition(plan, phase, event, next),
        transition(plan, next, later_event, last),
        !(phase is Detaching),
        next is Detaching,
    ensures
        next matches Phase::Detaching { device, error } && held_device(phase) == Some(device)
            && action_of(plan, next) == (Action::Detach { device })
            && last == (Phase::Done { outcome: Err(error) }),
{
}

/// Allocation is only ever called for after the mount point was checked and
/// found free: the one step that leads into the allocating phase from another
/// phase is a check of the mount point that reported nothing there.
pub proof fn lemma_allocation_needs_free_mount_point(
    plan: Plan,
    phase: Phase,
    event: Event,
    next: Phase,
)
    requires
        transition(plan, phase, event, next),
        next is Allocating,
        !(phase is Allocating),
    ensures
        phase is Checking,
        action_of(plan, phase) == (Action::CheckPath { path: plan.mount_point }),
        event == (Event::PathChecked { exists: false }),
{
}

/// `phases` is a run of the machine: each phase follows the one before on the
/// event at the same index. `events[k]` answers the action of `phases[k]`; the
/// last phase's action is still due.
pub open spec fn is_run(plan: Plan, phases: Seq<Phase>, events: Seq<Event>) -> bool {
    &&& phases.len() == events.len() + 1
    &&& forall|k: int|
        0 <= k < events.len() ==> transition(plan, phases[k], #[trigger] events[k], phases[k + 1])
}

proof fn lemma_done_stays(plan: Plan, phases: Seq<Phase>, events: Seq<Event>, k: int, m: int)
    requires
        is_run(plan, phases, events),
        0 <= k <= m < phases.len(),
        phases[k] is Done,
    ensures
        phases[m] == phases[k],
    decreases m - k,
{
    if m > k {
        lemma_done_stays(plan, phases, events, k, m - 1);
        let _ = events[m - 1];
    }
}

proof fn lemma_nothing_held_after_release(
    plan: Plan,
    phases: Seq<Phase>,
    events: Seq<Event>,
    k: int,
    m: int,
)
    requires
        is_run(plan, phases, events),
        0 <= k < m < phases.len(),
        phases[k] is Detaching || phases[k] is Done,
    ensures
        phases[m] is Done,
{
    let _ = events[k];
    if phases[k] is Detaching {
        lemma_done_stays(plan, phases, events, k + 1, m);
    } else {
        lemma_done_stays(plan, phases, events, k, m);
    }
}

proof fn lemma_held_until_detach(
    plan: Plan,
    phases: Seq<Phase>,
    events: Seq<Event>,
    i: int,
    device: String,
) -> (j: int)
    requires
        is_run(plan, phases, events),
        0 <= i < phases.len(),
        held_device(phases[i]) == Some(device),
        phases.last() matches Phase::Done { outcome: Err(_) },
    ensures
        i < j < events.len(),
        phases[j] matches Phase::Detaching { device: d, .. } && d == device,
        forall|m: int| i <= m < j ==> held_device(#[trigger] phases[m]) == Some(device),
    decreases phases.len() - i,
{
    let n = events.len() as int;
    if i == n {
        assert(false);
    }
    let _ = events[i];
    let next = phases[i + 1];
    lemma_held_device_is_never_dropped(plan, phases[i], events[i], next, device);
    if next is Done {
        lemma_done_stays(plan, phases, events, i + 1, n);
        assert(false);
        i
    } else if next is Detaching {
        i + 1
    } else {
        lemma_held_until_detach(plan, phases, events, i + 1, device)
    }
}

/// In a run that holds a device at some point and ends in failure, exactly
/// one detach is called for, and it is for that device: it comes after the
/// device was held and before the failure is reported.
pub proof fn lemma_failed_run_detaches_once(
    plan: Plan,
    phases: Seq<Phase>,
    events: Seq<Event>,
    i: int,
    device: String,
)
    requires
        is_run(plan, phases, events),
        0 <= i < phases.len(),
        held_device(phases[i]) == Some(device),
        phases.last() matches Phase::Done { outcome: Err(_) },
    ensures
        exists|j: int|
            #![trigger phases[j]]
            i < j < events.len() && action_of(plan, phases[j]) == (Action::Detach { device })
                && forall|k: int|
                0 <= k < events.len() && k != j ==> !(action_of(
                    plan,
                    #[trigger] phases[k],
                ) is Detach),
{
    let j = lemma_held_until_detach(plan, phases, events, i, device);
    assert forall|k: int| 0 <= k < events.len() && k != j implies !(action_of(
        plan,
        #[trigger] phases[k],
    ) is Detach) by {
        if k < i {
            if phases[k] is Detaching {
                lemma_nothing_held_after_release(plan, phases, events, k, i);
            }
        } else if k > j {
            lemma_nothing_held_after_release(plan, phases, events, j, k);
        }
    }
}

/// In a run that starts by checking the mount point, every allocating phase
/// comes after a check of the mount point that reported nothing there.
pub proof fn lemma_run_allocates_only_when_free(
    plan: Plan,
    phases: Seq<Phase>,
    events: Seq<Event>,
    k: int,
)
    requires
        is_run(plan, phases, events),
        phases[0] is Checking,
        0 <= k < phases.len(),
        phases[k] is Allocating,
    ensures
        exists|c: int|
            #![trigger phases[c]]
            0 <= c < k && phases[c] is Checking && action_of(plan, phases[c]) == (Action::CheckPath {
                path: plan.mount_point,
            }) && events[c] == (Event::PathChecked { exists: false }),
    decreases k,
{
    if k > 0 {
        let _ = events[k - 1];
        if phases[k - 1] is Allocating {
            lemma_run_allocates_only_when_free(plan, phases, events, k - 1);
        } else {
            lemma_allocation_needs_free_mount_point(plan, phases[k - 1], events[k - 1], phases[k]);
            assert(phases[k - 1] is Checking);
        }
    }
}

} // verus!
