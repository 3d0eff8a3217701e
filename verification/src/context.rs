//! The configuration of the virtual machine itself, and the engine that applies the
//! devices to it one backend call at a time.

use crate::backend::ApplyError;
use crate::backend::ApplyErrorView;
use crate::backend::BackendCall;
use crate::backend::BackendCallView;
use crate::backend::KrunContextSet;
use crate::text::decimal_digits;
use crate::text::decimal_string;
use crate::text::has_char;
use crate::virtio::VirtioDeviceConfig;
use crate::virtio::VsockAction;
use crate::virtio::VsockConfig;
use crate::virtio::VsockConfigView;
use vstd::prelude::*;

verus! {

/// What the engine asks of its caller next.
#[derive(Clone, Debug, PartialEq)]
pub enum Step {
    /// Make this call on the backend and report the number it returns.
    Call(BackendCall),
    /// Every device is applied.
    Done,
    /// Applying stopped at the first failure.
    Failed(ApplyError),
}

/// The mathematical value of a [`Step`].
pub enum StepView {
    Call(BackendCallView),
    Done,
    Failed(ApplyErrorView),
}

impl View for Step {
    type V = StepView;

    open spec fn view(&self) -> StepView {
        match *self {
            Step::Call(c) => StepView::Call(c@),
            Step::Done => StepView::Done,
            Step::Failed(e) => StepView::Failed(e@),
        }
    }
}

/// How far the devices of one virtual machine are applied, and which disk roles are
/// taken. Each virtual machine has a state of its own.
#[derive(Clone, Copy, Debug, PartialEq, Eq)]
pub struct ApplicationState {
    /// The handle of the virtual machine in the backend.
    pub handle: u32,
    /// Whether a disk has the root role.
    pub root_assigned: bool,
    /// Whether a disk has the secondary role.
    pub secondary_assigned: bool,
    /// Index of the device that is being applied.
    pub device: usize,
    /// Index of the call of that device that comes next, or is under way.
    pub call: usize,
    /// Whether a call was handed out whose result is not yet reported.
    pub in_flight: bool,
    /// Whether applying has ended, in success or failure.
    pub finished: bool,
}

/// The state once applying has ended.
pub open spec fn ended(s: ApplicationState) -> ApplicationState {
    ApplicationState { in_flight: false, finished: true, ..s }
}

/// The state with one more disk role taken: root first, then secondary.
pub open spec fn with_role(s: ApplicationState) -> ApplicationState {
    if !s.root_assigned {
        ApplicationState { root_assigned: true, ..s }
    } else {
        ApplicationState { secondary_assigned: true, ..s }
    }
}

/// The state at another position of the list of devices.
pub open spec fn at_position(s: ApplicationState, device: nat, call: nat) -> ApplicationState {
    ApplicationState { device: device as usize, call: call as usize, ..s }
}

/// Goes on from position `device`, `call` of the list, in a state in which no call is
/// under way: hands out the next call of the device at that position, or moves to the
/// next device where it has no call left. A disk takes a role when it is entered, that
/// is at its first call, and fails where none is left. A device that cannot be planned
/// fails.
pub open spec fn advance_from(
    s: ApplicationState,
    devices: Seq<VirtioDeviceConfig>,
    device: nat,
    call: nat,
) -> (ApplicationState, StepView)
    decreases devices.len() - device,
{
    if device >= devices.len() {
        (ended(at_position(s, device, call)), StepView::Done)
    } else {
        let d = devices[device as int];
        let enters_disk = call == 0 && d is Blk;
        if enters_disk && s.root_assigned && s.secondary_assigned {
            (
                ended(at_position(s, device, call)),
                StepView::Failed(ApplyErrorView::RoleExhausted { path: d->Blk_0.path@ }),
            )
        } else {
            let s2 = if enters_disk {
                with_role(s)
            } else {
                s
            };
            match d.calls_spec() {
                Err(e) => (ended(at_position(s2, device, call)), StepView::Failed(e)),
                Ok(calls) => if call < calls.len() {
                    (
                        ApplicationState { in_flight: true, ..at_position(s2, device, call) },
                        StepView::Call(calls[call as int]),
                    )
                } else {
                    advance_from(at_position(s2, device + 1, 0), devices, device + 1, 0)
                },
            }
        }
    }
}

/// Goes on from the state's own position.
pub open spec fn advance_spec(s: ApplicationState, devices: Seq<VirtioDeviceConfig>) -> (
    ApplicationState,
    StepView,
) {
    advance_from(s, devices, s.device as nat, s.call as nat)
}

/// One step of the engine: `rc` is the number that the backend returned for the call
/// under way, and counts only where a call is under way. A negative number ends
/// applying with the rejection of that call. Once applying has ended nothing changes.
pub open spec fn step_spec(s: ApplicationState, devices: Seq<VirtioDeviceConfig>, rc: i32) -> (
    ApplicationState,
    StepView,
) {
    if s.finished {
        (s, StepView::Done)
    } else if s.in_flight && rc < 0 {
        (
            ended(s),
            StepView::Failed(
                ApplyErrorView::Rejected {
                    call: devices[s.device as int].calls_spec()->Ok_0[s.call as int],
                },
            ),
        )
    } else if s.in_flight {
        advance_from(
            ApplicationState { call: (s.call + 1) as usize, in_flight: false, ..s },
            devices,
            s.device as nat,
            s.call as nat + 1,
        )
    } else {
        advance_spec(s, devices)
    }
}

impl ApplicationState {
    /// The invariant of a state for a list of devices: its position lies within the
    /// list, and a call under way is one of the calls of the device at that position.
    pub open spec fn wf(&self, devices: Seq<VirtioDeviceConfig>) -> bool {
        &&& self.device <= devices.len()
        &&& self.in_flight ==> {
            &&& !self.finished
            &&& self.device < devices.len()
            &&& devices[self.device as int].calls_spec() is Ok
            &&& self.call < devices[self.device as int].calls_spec()->Ok_0.len()
        }
    }

    /// The state before anything is applied to the virtual machine `handle`.
    pub fn new(handle: u32) -> (r: Self)
        ensures
            r == (ApplicationState {
                handle,
                root_assigned: false,
                secondary_assigned: false,
                device: 0,
                call: 0,
                in_flight: false,
                finished: false,
            }),
            forall|devices: Seq<VirtioDeviceConfig>| r.wf(devices),
    {
        ApplicationState {
            handle,
            root_assigned: false,
            secondary_assigned: false,
            device: 0,
            call: 0,
            in_flight: false,
            finished: false,
        }
    }

    /// Makes one step: takes the number that the backend returned for the call under
    /// way, if one is, and says what to do next. The devices are applied in the order
    /// of the list; the first failure ends applying.
    pub fn step(&mut self, devices: &Vec<VirtioDeviceConfig>, rc: i32) -> (r: Step)
        requires
            old(self).wf(devices@),
        ensures
            final(self).wf(devices@),
            (*final(self), r@) == step_spec(*old(self), devices@, rc),
    {
        if self.finished {
            return Step::Done;
        }
        if self.in_flight {
            if rc < 0 {
                let plan = devices[self.device].krun_ctx_set();
                match plan {
                    Ok(mut calls) => {
                        assert(crate::backend::call_views(calls@)[self.call as int]
                            == calls@[self.call as int]@);
                        let call = calls.remove(self.call);
                        self.finished = true;
                        self.in_flight = false;
                        return Step::Failed(ApplyError::Rejected { call });
                    },
                    Err(e) => {
                        // cannot happen: the call under way was planned from this device
                        return Step::Failed(e);
                    },
                }
            }
            self.call = self.call + 1;
            self.in_flight = false;
        }
        let ghost goal = step_spec(*old(self), devices@, rc);
        while self.device < devices.len()
            invariant
                self.device <= devices@.len(),
                !self.finished,
                !self.in_flight,
                goal == step_spec(*old(self), devices@, rc),
                advance_from(*self, devices@, self.device as nat, self.call as nat) == goal,
            decreases devices@.len() - self.device,
        {
            let device = &devices[self.device];
            if self.call == 0 {
                if let VirtioDeviceConfig::Blk(blk) = device {
                    if self.root_assigned && self.secondary_assigned {
                        self.finished = true;
                        return Step::Failed(ApplyError::RoleExhausted { path: blk.path.clone() });
                    }
                    if !self.root_assigned {
                        self.root_assigned = true;
                    } else {
                        self.secondary_assigned = true;
                    }
                }
            }
            match device.krun_ctx_set() {
                Err(e) => {
                    self.finished = true;
                    return Step::Failed(e);
                },
                Ok(mut calls) => {
                    if self.call < calls.len() {
                        assert(crate::backend::call_views(calls@)[self.call as int]
                            == calls@[self.call as int]@);
                        let call = calls.remove(self.call);
                        self.in_flight = true;
                        return Step::Call(call);
                    }
                    self.device = self.device + 1;
                    self.call = 0;
                },
            }
        }
        self.finished = true;
        Step::Done
    }
}

/// The number of disk roles that are taken.
pub open spec fn roles_used(s: ApplicationState) -> nat {
    (if s.root_assigned {
        1nat
    } else {
        0nat
    }) + (if s.secondary_assigned {
        1nat
    } else {
        0nat
    })
}

/// Whether a step hands out the call that adds a disk.
pub open spec fn adds_disk(a: StepView) -> bool {
    a matches StepView::Call(c) && c is AddDisk
}

proof fn lemma_advance_roles(
    s: ApplicationState,
    devices: Seq<VirtioDeviceConfig>,
    device: nat,
    call: nat,
)
    ensures
        roles_used(s) <= roles_used(advance_from(s, devices, device, call).0) <= 2,
        adds_disk(advance_from(s, devices, device, call).1) ==> roles_used(
            advance_from(s, devices, device, call).0,
        ) == roles_used(s) + 1,
    decreases devices.len() - device,
{
    if device < devices.len() {
        let d = devices[device as int];
        let enters_disk = call == 0 && d is Blk;
        if !(enters_disk && s.root_assigned && s.secondary_assigned) {
            let s2 = if enters_disk {
                with_role(s)
            } else {
                s
            };
            match d.calls_spec() {
                Err(e) => {},
                Ok(calls) => {
                    if call < calls.len() {
                        match d {
                            VirtioDeviceConfig::Blk(c) => {
                                assert(c.calls_spec() is Ok);
                            },
                            VirtioDeviceConfig::Serial(c) => {
                                assert(c.calls_spec() is Ok);
                            },
                            VirtioDeviceConfig::Vsock(c) => {
                                assert(c.calls_spec() is Ok);
                            },
                            VirtioDeviceConfig::Net(c) => {
                                assert(c.calls_spec() is Ok);
                            },
                            VirtioDeviceConfig::Fs(c) => {
                                assert(c.calls_spec() is Ok);
                            },
                            _ => {},
                        }
                    } else {
                        lemma_advance_roles(at_position(s2, device + 1, 0), devices, device + 1, 0);
                    }
                },
            }
        }
    }
}

/// A step never frees a disk role, and each step that hands out the call that adds a
/// disk takes exactly one role that was free. As there are two roles, no more than two
/// disks are ever added to one virtual machine.
pub proof fn lemma_step_takes_role(s: ApplicationState, devices: Seq<VirtioDeviceConfig>, rc: i32)
    requires
        s.wf(devices),
    ensures
        roles_used(s) <= roles_used(step_spec(s, devices, rc).0) <= 2,
        adds_disk(step_spec(s, devices, rc).1) ==> roles_used(step_spec(s, devices, rc).0)
            == roles_used(s) + 1,
{
    if !s.finished && !(s.in_flight && rc < 0) {
        if s.in_flight {
            lemma_advance_roles(
                ApplicationState { call: (s.call + 1) as usize, in_flight: false, ..s },
                devices,
                s.device as nat,
                s.call as nat + 1,
            );
        } else {
            lemma_advance_roles(s, devices, s.device as nat, s.call as nat);
        }
    }
}

/// A disk that is entered when both roles are taken fails for want of a role, and
/// nothing is asked of the backend for it.
pub proof fn lemma_no_role_left(s: ApplicationState, devices: Seq<VirtioDeviceConfig>, rc: i32)
    requires
        !s.finished,
        !s.in_flight,
        s.call == 0,
        s.device < devices.len(),
        devices[s.device as int] is Blk,
        s.root_assigned,
        s.secondary_assigned,
    ensures
        step_spec(s, devices, rc).1 == StepView::Failed(
            ApplyErrorView::RoleExhausted { path: devices[s.device as int]->Blk_0.path@ },
        ),
        step_spec(s, devices, rc).0.finished,
{
}

/// The first call that the backend answers with a negative number ends applying: the
/// step reports the rejection of that call, and every later step hands out nothing.
pub proof fn lemma_failure_ends(
    s: ApplicationState,
    devices: Seq<VirtioDeviceConfig>,
    rc: i32,
    later: i32,
)
    requires
        s.wf(devices),
        s.in_flight,
        rc < 0,
    ensures
        step_spec(s, devices, rc).1 == StepView::Failed(
            ApplyErrorView::Rejected {
                call: devices[s.device as int].calls_spec()->Ok_0[s.call as int],
            },
        ),
        step_spec(step_spec(s, devices, rc).0, devices, later) == (
            step_spec(s, devices, rc).0,
            StepView::Done,
        ),
{
}

/// Whether the device at index `k` has no call at or after position `call`.
pub open spec fn no_call_left(devices: Seq<VirtioDeviceConfig>, k: int, call: nat) -> bool {
    devices[k].calls_spec() matches Ok(calls) && call >= calls.len()
}

/// Whether a step from position `device`, `call` leaves out no call: the call it hands
/// out is the next one in the order of the list and of each device's calls, and where
/// it is done no call is left.
pub open spec fn in_order(
    devices: Seq<VirtioDeviceConfig>,
    device: nat,
    call: nat,
    t: ApplicationState,
    a: StepView,
) -> bool {
    match a {
        StepView::Call(c) => {
            &&& t.in_flight
            &&& !t.finished
            &&& device <= t.device < devices.len()
            &&& devices[t.device as int].calls_spec() is Ok
            &&& t.call < devices[t.device as int].calls_spec()->Ok_0.len()
            &&& c == devices[t.device as int].calls_spec()->Ok_0[t.call as int]
            &&& t.device == device ==> t.call == call
            &&& t.device > device ==> t.call == 0 && no_call_left(devices, device as int, call)
            &&& forall|k: int| device < k < t.device ==> no_call_left(devices, k, 0)
        },
        StepView::Done => {
            &&& t.finished
            &&& device < devices.len() ==> no_call_left(devices, device as int, call)
            &&& forall|k: int| device < k < devices.len() ==> no_call_left(devices, k, 0)
        },
        StepView::Failed(_) => t.finished,
    }
}

/// A device has at most two calls.
pub proof fn lemma_calls_len(d: VirtioDeviceConfig)
    ensures
        d.calls_spec() matches Ok(calls) ==> calls.len() <= 2,
{
    match d {
        VirtioDeviceConfig::Blk(c) => {
            assert(c.calls_spec() matches Ok(calls) ==> calls.len() <= 2);
        },
        VirtioDeviceConfig::Serial(c) => {
            assert(c.calls_spec() matches Ok(calls) ==> calls.len() <= 2);
        },
        VirtioDeviceConfig::Vsock(c) => {
            assert(c.calls_spec() matches Ok(calls) ==> calls.len() <= 2);
        },
        VirtioDeviceConfig::Net(c) => {
            assert(c.calls_spec() matches Ok(calls) ==> calls.len() <= 2);
        },
        VirtioDeviceConfig::Fs(c) => {
            assert(c.calls_spec() matches Ok(calls) ==> calls.len() <= 2);
        },
        _ => {},
    }
}

proof fn lemma_advance_order(
    s: ApplicationState,
    devices: Seq<VirtioDeviceConfig>,
    device: nat,
    call: nat,
)
    requires
        device <= devices.len() <= usize::MAX,
        call <= usize::MAX,
        !s.finished,
    ensures
        in_order(
            devices,
            device,
            call,
            advance_from(s, devices, device, call).0,
            advance_from(s, devices, device, call).1,
        ),
    decreases devices.len() - device,
{
    if device < devices.len() {
        let d = devices[device as int];
        let enters_disk = call == 0 && d is Blk;
        if !(enters_disk && s.root_assigned && s.secondary_assigned) {
            let s2 = if enters_disk {
                with_role(s)
            } else {
                s
            };
            match d.calls_spec() {
                Err(e) => {},
                Ok(calls) => {
                    if call >= calls.len() {
                        let next = at_position(s2, device + 1, 0);
                        lemma_advance_order(next, devices, device + 1, 0);
                        let t = advance_from(next, devices, device + 1, 0).0;
                        let a = advance_from(next, devices, device + 1, 0).1;
                        assert(in_order(devices, device + 1, 0, t, a));
                        assert(no_call_left(devices, device as int, call));
                        match a {
                            StepView::Call(c) => {
                                assert forall|k: int| device < k < t.device implies no_call_left(
                                    devices,
                                    k,
                                    0,
                                ) by {
                                    if k == device + 1 {
                                        assert(t.device > device + 1);
                                    }
                                }
                            },
                            StepView::Done => {
                                assert forall|k: int|
                                    device < k < devices.len() implies no_call_left(
                                    devices,
                                    k,
                                    0,
                                ) by {}
                            },
                            StepView::Failed(_) => {},
                        }
                    }
                },
            }
        }
    }
}

/// The calls come out in order and none is left out. A step that hands out a call
/// hands out the first call at or after the state's position, in the order of the
/// list and, within a device, of its calls; every device that it passes has no call
/// left. A step that is done has passed every call.
pub proof fn lemma_step_in_order(s: ApplicationState, devices: Seq<VirtioDeviceConfig>, rc: i32)
    requires
        s.wf(devices),
        devices.len() <= usize::MAX,
        !s.finished,
        !(s.in_flight && rc < 0),
    ensures
        in_order(
            devices,
            s.device as nat,
            if s.in_flight {
                s.call as nat + 1
            } else {
                s.call as nat
            },
            step_spec(s, devices, rc).0,
            step_spec(s, devices, rc).1,
        ),
{
    if s.in_flight {
        lemma_calls_len(devices[s.device as int]);
        lemma_advance_order(
            ApplicationState { call: (s.call + 1) as usize, in_flight: false, ..s },
            devices,
            s.device as nat,
            s.call as nat + 1,
        );
    } else {
        lemma_advance_order(s, devices, s.device as nat, s.call as nat);
    }
}

/// The largest amount of guest memory in MiB: 60 GiB, which leaves room for video
/// memory below the 62 GiB that the backend can address.
pub const MAX_MEMORY_MIB: u32 = 61440;

/// The flag that asks for the Venus renderer.
pub const VIRGLRENDERER_VENUS: u32 = 0x40;

/// The flag that switches the virgl renderer off.
pub const VIRGLRENDERER_NO_VIRGL: u32 = 0x80;

/// The log style that lets the logger decide on colours.
pub const KRUN_LOG_STYLE_AUTO: u32 = 0;

/// The log option by which the environment may override the level.
pub const KRUN_LOG_OPTION_ENV: u32 = 0;

/// The log option by which the environment may not override the level.
pub const KRUN_LOG_OPTION_NO_ENV: u32 = 1;

/// A call of the backend that sets up the virtual machine itself.
#[derive(Clone, Copy, Debug, PartialEq, Eq)]
pub enum SetupStage {
    InitLog,
    CreateContext,
    SetFirmware,
    SetVmConfig,
    SetGpuOptions,
    SetOemStrings,
    SetNestedVirt,
    StartEnter,
}

/// Why the virtual machine could not be set up.
#[derive(Clone, Copy, Debug, PartialEq, Eq)]
pub enum ContextError {
    /// No virtual CPU was asked for.
    ZeroCpus,
    /// No memory was asked for.
    ZeroMemory,
    /// More memory was asked for than `MAX_MEMORY_MIB`.
    MemoryTooLarge,
    /// No firmware was found.
    NoFirmware,
    /// The host could not say whether it supports nested virtualization.
    NestedVirtCheckFailed,
    /// More than 255 OEM strings were given.
    TooManyOemStrings,
    /// An OEM string holds a NUL character.
    InvalidOemString,
    /// The backend answered a call with the negative number `rc`.
    Backend { stage: SetupStage, rc: i32 },
}

/// The text that describes the failure of a setup call, apart from the number that the
/// call to initialise logging shows after it.
pub open spec fn stage_message(stage: SetupStage) -> Seq<char> {
    match stage {
        SetupStage::InitLog => "unable to init libkrun logs: -"@,
        SetupStage::CreateContext => "unable to create libkrun context"@,
        SetupStage::SetFirmware => "unable to configure the firmware to be loaded"@,
        SetupStage::SetVmConfig => "unable to set krun vCPU/RAM configuration"@,
        SetupStage::SetGpuOptions => "unable to set krun vCPU/RAM configuration"@,
        SetupStage::SetOemStrings => "unable to set SMBIOS OEM Strings"@,
        SetupStage::SetNestedVirt =>
            "krun nested virtualization reported as supported, yet failed to enable"@,
        SetupStage::StartEnter => "unable to begin running krun workload"@,
    }
}

/// The text that describes a setup error.
pub open spec fn context_message_of(e: ContextError) -> Seq<char> {
    match e {
        ContextError::ZeroCpus => "vcpus must be a minimum of 1 (0 is invalid)"@,
        ContextError::ZeroMemory => "zero MiB RAM inputted (invalid)"@,
        ContextError::MemoryTooLarge => "requested RAM larger than upper limit of 61440 MiB"@,
        ContextError::NoFirmware => "can't find a firmware to load"@,
        ContextError::NestedVirtCheckFailed =>
            "unable to check nested virtualization is supported on this host"@,
        ContextError::TooManyOemStrings => "invalid number of SMBIOS OEM strings"@,
        ContextError::InvalidOemString => "invalid SMBIOS OEM string"@,
        ContextError::Backend { stage, rc } => if stage == SetupStage::InitLog && rc < 0 {
            stage_message(stage) + decimal_digits((-(rc as int)) as nat)
        } else {
            stage_message(stage)
        },
    }
}

fn stage_text(stage: SetupStage) -> (r: &'static str)
    ensures
        r@ == stage_message(stage),
{
    match stage {
        SetupStage::InitLog => "unable to init libkrun logs: -",
        SetupStage::CreateContext => "unable to create libkrun context",
        SetupStage::SetFirmware => "unable to configure the firmware to be loaded",
        SetupStage::SetVmConfig => "unable to set krun vCPU/RAM configuration",
        SetupStage::SetGpuOptions => "unable to set krun vCPU/RAM configuration",
        SetupStage::SetOemStrings => "unable to set SMBIOS OEM Strings",
        SetupStage::SetNestedVirt =>
            "krun nested virtualization reported as supported, yet failed to enable",
        SetupStage::StartEnter => "unable to begin running krun workload",
    }
}

impl ContextError {
    /// The text that describes the error to the user.
    pub fn message(&self) -> (r: String)
        ensures
            r@ == context_message_of(*self),
    {
        match *self {
            ContextError::ZeroCpus => String::from_str(
                "vcpus must be a minimum of 1 (0 is invalid)",
            ),
            ContextError::ZeroMemory => String::from_str("zero MiB RAM inputted (invalid)"),
            ContextError::MemoryTooLarge => String::from_str(
                "requested RAM larger than upper limit of 61440 MiB",
            ),
            ContextError::NoFirmware => String::from_str("can't find a firmware to load"),
            ContextError::NestedVirtCheckFailed => String::from_str(
                "unable to check nested virtualization is supported on this host",
            ),
            ContextError::TooManyOemStrings => String::from_str(
                "invalid number of SMBIOS OEM strings",
            ),
            ContextError::InvalidOemString => String::from_str("invalid SMBIOS OEM string"),
            ContextError::Backend { stage, rc } => {
                let mut s = String::from_str(stage_text(stage));
                match stage {
                    SetupStage::InitLog => {
                        if rc < 0 {
                            let magnitude: u128 = (0 - rc as i64) as u128;
                            let digits = decimal_string(magnitude);
                            s.append(digits.as_str());
                        }
                    },
                    _ => {},
                }
                s
            },
        }
    }
}

/// Reads the number that a setup call returned: a negative number is a failure.
pub fn check_backend(stage: SetupStage, rc: i32) -> (r: Result<(), ContextError>)
    ensures
        rc < 0 ==> r == Err::<(), ContextError>(ContextError::Backend { stage, rc }),
        rc >= 0 ==> r is Ok,
{
    if rc < 0 {
        Err(ContextError::Backend { stage, rc })
    } else {
        Ok(())
    }
}

/// The log level and the log option for the backend: the level asked for, which the
/// environment may not override, or else level 3, which it may.
pub fn log_settings(krun_log_level: Option<u32>) -> (r: (u32, u32))
    ensures
        r == (match krun_log_level {
            Some(l) => (l, KRUN_LOG_OPTION_NO_ENV),
            None => (3u32, KRUN_LOG_OPTION_ENV),
        }),
{
    match krun_log_level {
        Some(l) => (l, KRUN_LOG_OPTION_NO_ENV),
        None => (3, KRUN_LOG_OPTION_ENV),
    }
}

/// The name of a log level: 0 off, 1 error, 2 warn, 3 info, 4 debug, above that trace.
pub open spec fn log_level_spec(level: u32) -> Seq<char> {
    if level == 0 {
        "off"@
    } else if level == 1 {
        "error"@
    } else if level == 2 {
        "warn"@
    } else if level == 3 {
        "info"@
    } else if level == 4 {
        "debug"@
    } else {
        "trace"@
    }
}

/// The name of a log level.
pub fn log_level_name(level: u32) -> (r: &'static str)
    ensures
        r@ == log_level_spec(level),
{
    match level {
        0 => "off",
        1 => "error",
        2 => "warn",
        3 => "info",
        4 => "debug",
        _ => "trace",
    }
}

/// Checks the number of virtual CPUs and the amount of memory in MiB: at least one
/// CPU, and between 1 and `MAX_MEMORY_MIB` MiB.
pub fn check_vm_config(cpus: u8, memory: u32) -> (r: Result<(), ContextError>)
    ensures
        r == vm_config_spec(cpus, memory),
{
    if cpus == 0 {
        return Err(ContextError::ZeroCpus);
    }
    if memory == 0 {
        Err(ContextError::ZeroMemory)
    } else if memory > MAX_MEMORY_MIB {
        Err(ContextError::MemoryTooLarge)
    } else {
        Ok(())
    }
}

/// The video memory in bytes for a guest with `memory` MiB on a host with
/// `total_memory` bytes: what is left of 62 GiB above the guest's memory rounded up to
/// the next GiB, but no more than the host has.
pub open spec fn vram_spec(memory: u32, total_memory: u64) -> int {
    let rounded = (memory as int / 1024 + 1) * 1024;
    let room = (63488 - rounded) * 1024 * 1024;
    if room <= total_memory as int {
        room
    } else {
        total_memory as int
    }
}

/// The video memory in bytes.
pub fn vram_size(memory: u32, total_memory: u64) -> (r: u64)
    requires
        memory <= MAX_MEMORY_MIB,
    ensures
        r == vram_spec(memory, total_memory),
{
    let rounded: u64 = (memory as u64 / 1024 + 1) * 1024;
    let room: u64 = (63488 - rounded) * 1024 * 1024;
    if room <= total_memory {
        room
    } else {
        total_memory
    }
}

/// The flags for the graphics options: Venus, without virgl.
pub fn virgl_flags() -> (r: u32)
    ensures
        r == VIRGLRENDERER_VENUS | VIRGLRENDERER_NO_VIRGL,
        r == 0xc0,
{
    assert(0x40u32 | 0x80u32 == 0xc0u32) by (bit_vector);
    0xc0
}

/// Decides on nested virtualization from what the host says of its support: 1 asks to
/// enable it, 0 leaves it off, anything else is an error.
pub fn nested_virt_wanted(check: i32) -> (r: Result<bool, ContextError>)
    ensures
        r == (if check == 1 {
            Ok::<bool, ContextError>(true)
        } else if check == 0 {
            Ok::<bool, ContextError>(false)
        } else {
            Err::<bool, ContextError>(ContextError::NestedVirtCheckFailed)
        }),
{
    if check == 1 {
        Ok(true)
    } else if check == 0 {
        Ok(false)
    } else {
        Err(ContextError::NestedVirtCheckFailed)
    }
}

/// What is done with the OEM strings: nothing where none are given, an error where
/// there are more than 255 or one holds a NUL character, and else they are set.
pub open spec fn oem_strings_spec(oem_strings: Option<Seq<Seq<char>>>) -> Result<
    bool,
    ContextError,
> {
    match oem_strings {
        None => Ok(false),
        Some(v) => if v.len() > 255 {
            Err(ContextError::TooManyOemStrings)
        } else if exists|i: int| 0 <= i < v.len() && (#[trigger] v[i]).contains('\0') {
            Err(ContextError::InvalidOemString)
        } else {
            Ok(true)
        },
    }
}

/// Checks the OEM strings and says whether the backend is to be given them.
pub fn set_smbios_oem_strings(oem_strings: &Option<Vec<String>>) -> (r: Result<
    bool,
    ContextError,
>)
    ensures
        r == oem_strings_spec(
            match *oem_strings {
                Some(v) => Some(crate::text::views(v@)),
                None => None,
            },
        ),
{
    let strings = match oem_strings {
        Some(v) => v,
        None => {
            return Ok(false);
        },
    };
    if strings.len() > 255 {
        return Err(ContextError::TooManyOemStrings);
    }
    let ghost all = crate::text::views(strings@);
    let mut i: usize = 0;
    while i < strings.len()
        invariant
            i <= strings@.len(),
            strings@.len() <= 255,
            *oem_strings == Some(*strings),
            all == crate::text::views(strings@),
            forall|j: int| 0 <= j < i ==> !(#[trigger] all[j]).contains('\0'),
        decreases strings@.len() - i,
    {
        assert(all[i as int] == strings@[i as int]@);
        if has_char(strings[i].as_str(), '\0') {
            assert(all[i as int].contains('\0'));
            return Err(ContextError::InvalidOemString);
        }
        i += 1;
    }
    Ok(true)
}

/// The path of the socket over which the clock of the guest is set, for the process
/// `pid`.
pub open spec fn timesync_socket(pid: u32) -> Seq<char> {
    "/tmp/krunkit_timesync_"@ + decimal_digits(pid as nat) + ".sock"@
}

/// The vsock device over which the clock of the guest is set: it connects the given
/// port to a socket that is named after the process.
pub fn timesync_vsock(port: u32, pid: u32) -> (r: VsockConfig)
    ensures
        r@ == (VsockConfigView {
            port,
            socket_url: timesync_socket(pid),
            action: VsockAction::Connect,
        }),
{
    let mut path = String::from_str("/tmp/krunkit_timesync_");
    let digits = decimal_string(pid as u128);
    path.append(digits.as_str());
    path.append(".sock");
    VsockConfig { port, socket_url: path, action: VsockAction::Connect }
}

/// The content of the PID file: the process number in decimal.
pub fn pidfile_text(pid: u32) -> (r: String)
    ensures
        r@ == decimal_digits(pid as nat),
{
    decimal_string(pid as u128)
}

/// What the setup of a virtual machine is given on the command line, as far as the
/// order and the parameters of the setup calls depend on it.
#[derive(Clone, Copy, Debug, PartialEq, Eq)]
pub struct SetupConfig {
    /// Number of virtual CPUs.
    pub cpus: u8,
    /// Amount of memory in MiB.
    pub memory: u32,
    /// Log level for the backend, if one is asked for.
    pub krun_log_level: Option<u32>,
    /// Whether nested virtualization is asked for.
    pub nested: bool,
    /// Guest port over which the clock of the guest is set, if that is asked for.
    pub timesync: Option<u32>,
}

/// How far the setup has come: what it waits for.
#[derive(Clone, Copy, Debug, PartialEq, Eq)]
pub enum SetupPhase {
    /// Not started.
    Idle,
    /// Waits for the backend's logging to be initialised.
    AwaitInitLog,
    /// Waits for the program's own logger.
    AwaitLogger,
    /// Waits for the context to be created.
    AwaitContext,
    /// Waits for the firmware to be found.
    AwaitFirmwarePath,
    /// Waits for the firmware to be set.
    AwaitFirmware,
    /// Waits for CPUs and memory to be set.
    AwaitVmConfig,
    /// Waits for the amount of memory of the host.
    AwaitMemory,
    /// Waits for the graphics options to be set.
    AwaitGpu,
    /// Waits for the devices to be applied.
    AwaitDevices,
    /// Waits for the OEM strings to be set.
    AwaitOem,
    /// Waits for the host to say whether it supports nested virtualization.
    AwaitNestedCheck,
    /// Waits for nested virtualization to be enabled.
    AwaitNested,
    /// Waits for the time synchronisation to be started.
    AwaitTimesync,
    /// The virtual machine is set up.
    Ready,
    /// The setup has failed.
    Failed,
}

/// What has happened outside the setup.
#[derive(Clone, Copy, Debug, PartialEq, Eq)]
pub enum SetupEvent {
    /// The setup is started.
    Start,
    /// The backend returned this number.
    Code(i32),
    /// A firmware was found, or none.
    Firmware(bool),
    /// The host has this many bytes of memory.
    Memory(u64),
    /// A task of several steps has ended, well or not.
    Completed(bool),
}

/// What the setup asks of its caller next.
#[derive(Clone, Copy, Debug, PartialEq, Eq)]
pub enum SetupAction {
    /// Nothing: the event does not concern the phase.
    Nothing,
    /// Initialise the backend's logging.
    InitLog { level: u32, style: u32, options: u32 },
    /// Initialise the program's own logger at this level, from the environment or not.
    InitLogger { level: u32, from_env: bool },
    /// Create the context.
    CreateContext,
    /// Find the firmware.
    FindFirmware,
    /// Set the firmware that was found.
    SetFirmware,
    /// Set the number of CPUs and the amount of memory.
    SetVmConfig { cpus: u8, memory: u32 },
    /// Ask the host for its amount of memory.
    QueryMemory,
    /// Set the graphics options.
    SetGpuOptions { virgl_flags: u32, vram: u64 },
    /// Apply the devices, in their order.
    ApplyDevices,
    /// Check the OEM strings and set them.
    SetOemStrings,
    /// Ask the host whether it supports nested virtualization.
    CheckNestedVirt,
    /// Enable nested virtualization.
    SetNestedVirt,
    /// Add the vsock device for the guest's clock and start listening for wake-ups.
    StartTimesync { port: u32 },
    /// Nothing is left to do.
    Finish,
    /// Give up with this error.
    Fail(ContextError),
    /// Give up with the error of the task that failed.
    Abort,
}

/// The phase and the action after the part of the setup that every machine goes
/// through: time synchronisation where it is asked for, and else the end.
pub open spec fn after_nested(config: SetupConfig) -> (SetupPhase, SetupAction) {
    match config.timesync {
        Some(port) => (SetupPhase::AwaitTimesync, SetupAction::StartTimesync { port }),
        None => (SetupPhase::Ready, SetupAction::Finish),
    }
}

/// The phase and the action after a backend call: failure where the number is
/// negative, and else what is given.
pub open spec fn after_call(
    stage: SetupStage,
    rc: i32,
    next: (SetupPhase, SetupAction),
) -> (SetupPhase, SetupAction) {
    if rc < 0 {
        (SetupPhase::Failed, SetupAction::Fail(ContextError::Backend { stage, rc }))
    } else {
        next
    }
}

/// What `check_vm_config` decides.
pub open spec fn vm_config_spec(cpus: u8, memory: u32) -> Result<(), ContextError> {
    if cpus == 0 {
        Err(ContextError::ZeroCpus)
    } else if memory == 0 {
        Err(ContextError::ZeroMemory)
    } else if memory > MAX_MEMORY_MIB {
        Err(ContextError::MemoryTooLarge)
    } else {
        Ok(())
    }
}

/// The next phase and the action for a phase and an event. The setup goes through its
/// calls in a fixed order: logging, the context, the firmware, CPUs and memory, the
/// graphics options, the devices, the OEM strings, then nested virtualization and time
/// synchronisation where they are asked for. CPUs and memory are checked before they
/// are set. The first failure ends the setup. An event that does not concern the phase
/// changes nothing.
pub open spec fn setup_spec(phase: SetupPhase, config: SetupConfig, event: SetupEvent) -> (
    SetupPhase,
    SetupAction,
) {
    match (phase, event) {
        (SetupPhase::Idle, SetupEvent::Start) => (
            SetupPhase::AwaitInitLog,
            match config.krun_log_level {
                Some(level) => SetupAction::InitLog {
                    level,
                    style: KRUN_LOG_STYLE_AUTO,
                    options: KRUN_LOG_OPTION_NO_ENV,
                },
                None => SetupAction::InitLog {
                    level: 3,
                    style: KRUN_LOG_STYLE_AUTO,
                    options: KRUN_LOG_OPTION_ENV,
                },
            },
        ),
        (SetupPhase::AwaitInitLog, SetupEvent::Code(rc)) => after_call(
            SetupStage::InitLog,
            rc,
            (
                SetupPhase::AwaitLogger,
                match config.krun_log_level {
                    Some(level) => SetupAction::InitLogger { level, from_env: false },
                    None => SetupAction::InitLogger { level: 3, from_env: true },
                },
            ),
        ),
        (SetupPhase::AwaitLogger, SetupEvent::Completed(_)) => (
            SetupPhase::AwaitContext,
            SetupAction::CreateContext,
        ),
        (SetupPhase::AwaitContext, SetupEvent::Code(rc)) => after_call(
            SetupStage::CreateContext,
            rc,
            (SetupPhase::AwaitFirmwarePath, SetupAction::FindFirmware),
        ),
        (SetupPhase::AwaitFirmwarePath, SetupEvent::Firmware(found)) => if found {
            (SetupPhase::AwaitFirmware, SetupAction::SetFirmware)
        } else {
            (SetupPhase::Failed, SetupAction::Fail(ContextError::NoFirmware))
        },
        (SetupPhase::AwaitFirmware, SetupEvent::Code(rc)) => after_call(
            SetupStage::SetFirmware,
            rc,
            match vm_config_spec(config.cpus, config.memory) {
                Err(e) => (SetupPhase::Failed, SetupAction::Fail(e)),
                Ok(_) => (
                    SetupPhase::AwaitVmConfig,
                    SetupAction::SetVmConfig { cpus: config.cpus, memory: config.memory },
                ),
            },
        ),
        (SetupPhase::AwaitVmConfig, SetupEvent::Code(rc)) => after_call(
            SetupStage::SetVmConfig,
            rc,
            (SetupPhase::AwaitMemory, SetupAction::QueryMemory),
        ),
        (SetupPhase::AwaitMemory, SetupEvent::Memory(total)) => if config.memory > MAX_MEMORY_MIB {
            (SetupPhase::Failed, SetupAction::Fail(ContextError::MemoryTooLarge))
        } else {
            (
                SetupPhase::AwaitGpu,
                SetupAction::SetGpuOptions {
                    virgl_flags: 0xc0,
                    vram: vram_spec(config.memory, total) as u64,
                },
            )
        },
        (SetupPhase::AwaitGpu, SetupEvent::Code(rc)) => after_call(
            SetupStage::SetGpuOptions,
            rc,
            (SetupPhase::AwaitDevices, SetupAction::ApplyDevices),
        ),
        (SetupPhase::AwaitDevices, SetupEvent::Completed(ok)) => if ok {
            (SetupPhase::AwaitOem, SetupAction::SetOemStrings)
        } else {
            (SetupPhase::Failed, SetupAction::Abort)
        },
        (SetupPhase::AwaitOem, SetupEvent::Completed(ok)) => if !ok {
            (SetupPhase::Failed, SetupAction::Abort)
        } else if config.nested {
            (SetupPhase::AwaitNestedCheck, SetupAction::CheckNestedVirt)
        } else {
            after_nested(config)
        },
        (SetupPhase::AwaitNestedCheck, SetupEvent::Code(supported)) => if supported == 1 {
            (SetupPhase::AwaitNested, SetupAction::SetNestedVirt)
        } else if supported == 0 {
            after_nested(config)
        } else {
            (SetupPhase::Failed, SetupAction::Fail(ContextError::NestedVirtCheckFailed))
        },
        (SetupPhase::AwaitNested, SetupEvent::Code(rc)) => after_call(
            SetupStage::SetNestedVirt,
            rc,
            after_nested(config),
        ),
        (SetupPhase::AwaitTimesync, SetupEvent::Completed(ok)) => if ok {
            (SetupPhase::Ready, SetupAction::Finish)
        } else {
            (SetupPhase::Failed, SetupAction::Abort)
        },
        _ => (phase, SetupAction::Nothing),
    }
}

fn next_after_nested(config: &SetupConfig) -> (r: (SetupPhase, SetupAction))
    ensures
        r == after_nested(*config),
{
    match config.timesync {
        Some(port) => (SetupPhase::AwaitTimesync, SetupAction::StartTimesync { port }),
        None => (SetupPhase::Ready, SetupAction::Finish),
    }
}

fn next_after_call(stage: SetupStage, rc: i32, next: (SetupPhase, SetupAction)) -> (r: (
    SetupPhase,
    SetupAction,
))
    ensures
        r == after_call(stage, rc, next),
{
    match check_backend(stage, rc) {
        Err(e) => (SetupPhase::Failed, SetupAction::Fail(e)),
        Ok(_) => next,
    }
}

/// Makes one step of the setup.
pub fn setup_step(phase: SetupPhase, config: &SetupConfig, event: SetupEvent) -> (r: (
    SetupPhase,
    SetupAction,
))
    ensures
        r == setup_spec(phase, *config, event),
{
    match (phase, event) {
        (SetupPhase::Idle, SetupEvent::Start) => {
            let (level, options) = log_settings(config.krun_log_level);
            (
                SetupPhase::AwaitInitLog,
                SetupAction::InitLog { level, style: KRUN_LOG_STYLE_AUTO, options },
            )
        },
        (SetupPhase::AwaitInitLog, SetupEvent::Code(rc)) => {
            let (level, options) = log_settings(config.krun_log_level);
            next_after_call(
                SetupStage::InitLog,
                rc,
                (
                    SetupPhase::AwaitLogger,
                    SetupAction::InitLogger { level, from_env: options != KRUN_LOG_OPTION_NO_ENV },
                ),
            )
        },
        (SetupPhase::AwaitLogger, SetupEvent::Completed(_)) => (
            SetupPhase::AwaitContext,
            SetupAction::CreateContext,
        ),
        (SetupPhase::AwaitContext, SetupEvent::Code(rc)) => next_after_call(
            SetupStage::CreateContext,
            rc,
            (SetupPhase::AwaitFirmwarePath, SetupAction::FindFirmware),
        ),
        (SetupPhase::AwaitFirmwarePath, SetupEvent::Firmware(found)) => {
            if found {
                (SetupPhase::AwaitFirmware, SetupAction::SetFirmware)
            } else {
                (SetupPhase::Failed, SetupAction::Fail(ContextError::NoFirmware))
            }
        },
        (SetupPhase::AwaitFirmware, SetupEvent::Code(rc)) => {
            let next = match check_vm_config(config.cpus, config.memory) {
                Err(e) => (SetupPhase::Failed, SetupAction::Fail(e)),
                Ok(_) => (
                    SetupPhase::AwaitVmConfig,
                    SetupAction::SetVmConfig { cpus: config.cpus, memory: config.memory },
                ),
            };
            next_after_call(SetupStage::SetFirmware, rc, next)
        },
        (SetupPhase::AwaitVmConfig, SetupEvent::Code(rc)) => next_after_call(
            SetupStage::SetVmConfig,
            rc,
            (SetupPhase::AwaitMemory, SetupAction::QueryMemory),
        ),
        (SetupPhase::AwaitMemory, SetupEvent::Memory(total)) => {
            if config.memory > MAX_MEMORY_MIB {
                (SetupPhase::Failed, SetupAction::Fail(ContextError::MemoryTooLarge))
            } else {
                (
                    SetupPhase::AwaitGpu,
                    SetupAction::SetGpuOptions {
                        virgl_flags: virgl_flags(),
                        vram: vram_size(config.memory, total),
                    },
                )
            }
        },
        (SetupPhase::AwaitGpu, SetupEvent::Code(rc)) => next_after_call(
            SetupStage::SetGpuOptions,
            rc,
            (SetupPhase::AwaitDevices, SetupAction::ApplyDevices),
        ),
        (SetupPhase::AwaitDevices, SetupEvent::Completed(ok)) => {
            if ok {
                (SetupPhase::AwaitOem, SetupAction::SetOemStrings)
            } else {
                (SetupPhase::Failed, SetupAction::Abort)
            }
        },
        (SetupPhase::AwaitOem, SetupEvent::Completed(ok)) => {
            if !ok {
                (SetupPhase::Failed, SetupAction::Abort)
            } else if config.nested {
                (SetupPhase::AwaitNestedCheck, SetupAction::CheckNestedVirt)
            } else {
                next_after_nested(config)
            }
        },
        (SetupPhase::AwaitNestedCheck, SetupEvent::Code(supported)) => {
            match nested_virt_wanted(supported) {
                Ok(true) => (SetupPhase::AwaitNested, SetupAction::SetNestedVirt),
                Ok(false) => next_after_nested(config),
                Err(e) => (SetupPhase::Failed, SetupAction::Fail(e)),
            }
        },
        (SetupPhase::AwaitNested, SetupEvent::Code(rc)) => {
            let next = next_after_nested(config);
            next_after_call(SetupStage::SetNestedVirt, rc, next)
        },
        (SetupPhase::AwaitTimesync, SetupEvent::Completed(ok)) => {
            if ok {
                (SetupPhase::Ready, SetupAction::Finish)
            } else {
                (SetupPhase::Failed, SetupAction::Abort)
            }
        },
        _ => (phase, SetupAction::Nothing),
    }
}

/// CPUs and memory are handed to the backend only where they are valid: at least one
/// CPU, and between 1 and `MAX_MEMORY_MIB` MiB of memory.
pub proof fn lemma_setup_checks_vm_config(phase: SetupPhase, config: SetupConfig, event: SetupEvent)
    ensures
        setup_spec(phase, config, event).1 matches SetupAction::SetVmConfig { cpus, memory }
            ==> cpus == config.cpus && memory == config.memory && cpus >= 1 && 1 <= memory
            <= MAX_MEMORY_MIB,
{
}

/// The setup ends with its first failure: a step that gives up leaves the setup
/// failed, and a failed or finished setup asks for nothing more.
pub proof fn lemma_setup_failure_ends(
    phase: SetupPhase,
    config: SetupConfig,
    event: SetupEvent,
    later: SetupEvent,
)
    ensures
        (setup_spec(phase, config, event).1 is Fail || setup_spec(phase, config, event).1
            is Abort) ==> setup_spec(phase, config, event).0 == SetupPhase::Failed,
        phase == SetupPhase::Failed || phase == SetupPhase::Ready ==> setup_spec(
            phase,
            config,
            event,
        ) == (phase, SetupAction::Nothing),
        setup_spec(phase, config, event).1 is Finish ==> setup_spec(phase, config, event).0
            == SetupPhase::Ready,
{
}

/// A call of the backend that returns a negative number fails the setup with that
/// call and that number.
pub proof fn lemma_setup_rejected(phase: SetupPhase, config: SetupConfig, rc: i32)
    requires
        rc < 0,
        phase == SetupPhase::AwaitInitLog || phase == SetupPhase::AwaitContext || phase
            == SetupPhase::AwaitFirmware || phase == SetupPhase::AwaitVmConfig || phase
            == SetupPhase::AwaitGpu || phase == SetupPhase::AwaitNested,
    ensures
        setup_spec(phase, config, SetupEvent::Code(rc)).0 == SetupPhase::Failed,
        setup_spec(phase, config, SetupEvent::Code(rc)).1 matches SetupAction::Fail(
            ContextError::Backend { rc: code, .. },
        ) && code == rc,
{
}

} // verus!
