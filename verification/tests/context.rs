use krunkit::backend::ApplyError;
use krunkit::backend::BackendCall;
use krunkit::backend::KrunContextSet;
use krunkit::backend::path_to_cstring;
use krunkit::backend::COMPAT_NET_FEATURES;
use krunkit::bootloader::Action;
use krunkit::bootloader::BootloaderFw;
use krunkit::bootloader::Config;
use krunkit::bootloader::Vstore;
use krunkit::context::check_backend;
use krunkit::context::check_vm_config;
use krunkit::context::log_level_name;
use krunkit::context::log_settings;
use krunkit::context::nested_virt_wanted;
use krunkit::context::pidfile_text;
use krunkit::context::set_smbios_oem_strings;
use krunkit::context::setup_step;
use krunkit::context::timesync_vsock;
use krunkit::context::virgl_flags;
use krunkit::context::vram_size;
use krunkit::context::ApplicationState;
use krunkit::context::ContextError;
use krunkit::context::SetupAction;
use krunkit::context::SetupConfig;
use krunkit::context::SetupEvent;
use krunkit::context::SetupPhase;
use krunkit::context::SetupStage;
use krunkit::context::Step;
use krunkit::error::Error;
use krunkit::timesync::power_callback;
use krunkit::timesync::sync_time;
use krunkit::timesync::timesync_listener;
use krunkit::timesync::Activity;
use krunkit::timesync::PowerMessages;
use krunkit::virtio::BlkConfig;
use krunkit::virtio::DiskImageFormat;
use krunkit::virtio::VirtioDeviceConfig;
use krunkit::virtio::VsockAction;
use krunkit::virtio::VsockConfig;

fn devices(specs: &[&str]) -> Vec<VirtioDeviceConfig> {
    specs
        .iter()
        .map(|s| VirtioDeviceConfig::from_str(s).unwrap())
        .collect()
}

fn add_disk(block_id: &str, path: &str, format: u32) -> BackendCall {
    BackendCall::AddDisk {
        block_id: block_id.to_string(),
        path: path.to_string(),
        format,
        read_only: false,
    }
}

#[test]
fn disks_take_root_then_secondary_and_a_third_fails() {
    let devices = devices(&[
        "virtio-blk,path=/tmp/root.raw",
        "virtio-blk,path=/tmp/data.qcow2,format=qcow2",
        "virtio-blk,path=/tmp/more.raw",
    ]);
    let mut state = ApplicationState::new(3);
    assert_eq!(state.handle, 3);
    assert!(!state.root_assigned && !state.secondary_assigned);

    assert_eq!(
        state.step(&devices, 0),
        Step::Call(add_disk("root.raw", "/tmp/root.raw", 0))
    );
    assert!(state.root_assigned && !state.secondary_assigned);

    assert_eq!(
        state.step(&devices, 0),
        Step::Call(add_disk("data.qcow2", "/tmp/data.qcow2", 1))
    );
    assert!(state.root_assigned && state.secondary_assigned);

    let failed = state.step(&devices, 0);
    assert_eq!(
        failed,
        Step::Failed(ApplyError::RoleExhausted {
            path: "/tmp/more.raw".to_string()
        })
    );
    assert!(state.finished);
    assert_eq!(state.step(&devices, 0), Step::Done);
    assert_eq!(
        ApplyError::RoleExhausted {
            path: "/tmp/more.raw".to_string()
        }
        .message(),
        "no disk role is left for virtio-blk disk /tmp/more.raw"
    );
}

#[test]
fn roles_belong_to_one_machine() {
    let devices = devices(&["virtio-blk,path=/a", "virtio-blk,path=/b"]);
    let mut first = ApplicationState::new(1);
    let mut second = ApplicationState::new(2);
    assert!(matches!(first.step(&devices, 0), Step::Call(_)));
    assert!(matches!(first.step(&devices, 0), Step::Call(_)));
    assert_eq!(first.step(&devices, 0), Step::Done);
    assert!(matches!(second.step(&devices, 0), Step::Call(_)));
    assert!(matches!(second.step(&devices, 0), Step::Call(_)));
    assert_eq!(second.step(&devices, 0), Step::Done);
}

#[test]
fn devices_are_applied_in_order() {
    let devices = devices(&[
        "virtio-rng",
        "virtio-serial,logFilePath=/tmp/serial.log",
        "virtio-gpu,width=800,height=600",
        "virtio-vsock,port=1024,socketURL=/tmp/vsock.sock,listen",
        "virtio-net,type=unixgram,fd=4,mac=00:11:22:aa:bb:cc,vfkitMagic=on,offloading=on",
        "virtio-input,keyboard",
        "virtio-net,type=unixstream,path=/tmp/net.sock,mac=00:00:00:00:00:01",
        "virtio-fs,sharedDir=/tmp/fs,mountTag=guest-dir",
        "virtio-net,unixSocketPath=/tmp/gv.sock,mac=00:00:00:00:00:02",
    ]);
    let mac = [0x00, 0x11, 0x22, 0xaa, 0xbb, 0xcc];
    let expected = vec![
        BackendCall::SetConsoleOutput {
            path: "/tmp/serial.log".to_string(),
        },
        BackendCall::AddVsockPort {
            port: 1024,
            path: "/tmp/vsock.sock".to_string(),
        },
        BackendCall::AddNetUnixgram {
            path: String::new(),
            fd: 4,
            mac,
            features: 19587,
            flags: 1,
        },
        BackendCall::SetNetMac { mac },
        BackendCall::AddNetUnixstream {
            path: "/tmp/net.sock".to_string(),
            fd: -1,
            mac: [0, 0, 0, 0, 0, 1],
            features: 0,
            flags: 0,
        },
        BackendCall::SetNetMac {
            mac: [0, 0, 0, 0, 0, 1],
        },
        BackendCall::AddVirtiofs {
            tag: "guest-dir".to_string(),
            path: "/tmp/fs".to_string(),
        },
        BackendCall::AddNetUnixgram {
            path: "/tmp/gv.sock".to_string(),
            fd: -1,
            mac: [0, 0, 0, 0, 0, 2],
            features: COMPAT_NET_FEATURES,
            flags: 1,
        },
        BackendCall::SetNetMac {
            mac: [0, 0, 0, 0, 0, 2],
        },
    ];
    let mut state = ApplicationState::new(0);
    let mut calls = Vec::new();
    loop {
        match state.step(&devices, 0) {
            Step::Call(call) => calls.push(call),
            Step::Done => break,
            Step::Failed(e) => panic!("{}", e.message()),
        }
    }
    assert_eq!(calls, expected);
    assert!(state.finished);
    assert!(!state.root_assigned);
}

#[test]
fn first_failure_ends_applying() {
    let devices = devices(&[
        "virtio-net,type=unixgram,fd=4,mac=00:11:22:aa:bb:cc",
        "virtio-fs,sharedDir=/tmp/fs,mountTag=guest-dir",
    ]);
    let mac = [0x00, 0x11, 0x22, 0xaa, 0xbb, 0xcc];
    let mut state = ApplicationState::new(0);
    assert!(matches!(state.step(&devices, 0), Step::Call(BackendCall::AddNetUnixgram { .. })));
    assert_eq!(state.step(&devices, 0), Step::Call(BackendCall::SetNetMac { mac }));
    let failed = state.step(&devices, -22);
    assert_eq!(
        failed,
        Step::Failed(ApplyError::Rejected {
            call: BackendCall::SetNetMac { mac }
        })
    );
    assert!(state.finished);
    assert_eq!(state.step(&devices, 0), Step::Done);
    assert_eq!(state.step(&devices, -1), Step::Done);
    match failed {
        Step::Failed(e) => assert_eq!(e.message(), "unable to set net MAC address 00:11:22:AA:BB:CC"),
        _ => unreachable!(),
    }

    let mut state = ApplicationState::new(0);
    assert!(matches!(state.step(&devices, -1), Step::Call(_)));
    let failed = state.step(&devices, -1);
    assert!(matches!(
        failed,
        Step::Failed(ApplyError::Rejected {
            call: BackendCall::AddNetUnixgram { .. }
        })
    ));
}

#[test]
fn rejection_messages() {
    let rejected = |call: BackendCall| ApplyError::Rejected { call }.message();
    assert_eq!(
        rejected(add_disk("root.raw", "/tmp/root.raw", 0)),
        "unable to set virtio-blk disk for /tmp/root.raw"
    );
    assert_eq!(
        rejected(BackendCall::SetConsoleOutput { path: "/l".to_string() }),
        "unable to set krun console output redirection to virtio-serial log file"
    );
    assert_eq!(
        rejected(BackendCall::AddVsockPort { port: 1024, path: "/s".to_string() }),
        "unable to add vsock port 1024 for path /s"
    );
    assert_eq!(
        rejected(BackendCall::AddVirtiofs { tag: "t".to_string(), path: "/d".to_string() }),
        "unable to add virtiofs shared directory /d with mount tag t"
    );
    assert_eq!(
        rejected(BackendCall::AddNetUnixgram { path: String::new(), fd: 4, mac: [0; 6], features: 0, flags: 0 }),
        "virtio-net unable to add device with unix datagram backend"
    );
    assert_eq!(
        rejected(BackendCall::AddNetUnixstream { path: String::new(), fd: 4, mac: [0; 6], features: 0, flags: 0 }),
        "virtio-net unable to add device with unix stream backend"
    );
    assert_eq!(
        rejected(BackendCall::SetNetMac { mac: [1, 2, 3, 0xa, 0xb, 0xc] }),
        "unable to set net MAC address 01:02:03:0A:0B:0C"
    );
    assert_eq!(ApplyError::BlockIdNotCString.message(), "can't convert basename to cstring");
}

#[test]
fn disk_is_named_after_its_file() {
    let blk = |path: &str| BlkConfig {
        path: path.to_string(),
        format: DiskImageFormat::Raw,
    };
    assert_eq!(
        blk("/tmp/images/root.raw").krun_ctx_set(),
        Ok(vec![add_disk("root.raw", "/tmp/images/root.raw", 0)])
    );
    assert_eq!(
        blk("/tmp/images/").krun_ctx_set(),
        Ok(vec![add_disk("images", "/tmp/images/", 0)])
    );
    assert_eq!(
        blk("/tmp/..").krun_ctx_set(),
        Ok(vec![add_disk("disk", "/tmp/..", 0)])
    );
    assert_eq!(blk("/").krun_ctx_set(), Ok(vec![add_disk("disk", "/", 0)]));
    assert_eq!(
        blk("a").add_disk_call(None),
        Ok(add_disk("disk", "a", 0))
    );
    assert_eq!(
        blk("a").add_disk_call(Some("b\0".to_string())),
        Err(ApplyError::BlockIdNotCString)
    );
}

#[test]
fn paths_with_nul_are_refused() {
    let e = path_to_cstring("/tmp/a\0b").err().unwrap();
    assert_eq!(
        e,
        ApplyError::PathNotCString {
            path: "/tmp/a\0b".to_string()
        }
    );
    assert_eq!(
        e.message(),
        "unable to convert path /tmp/a\0b into NULL-terminated C string"
    );
    assert_eq!(path_to_cstring("/tmp/a"), Ok("/tmp/a".to_string()));
    let devices = vec![
        VirtioDeviceConfig::Vsock(VsockConfig {
            port: 1,
            socket_url: "/ok".to_string(),
            action: VsockAction::Listen,
        }),
        VirtioDeviceConfig::Vsock(VsockConfig {
            port: 2,
            socket_url: "/bad\0".to_string(),
            action: VsockAction::Listen,
        }),
    ];
    let mut state = ApplicationState::new(0);
    assert!(matches!(state.step(&devices, 0), Step::Call(_)));
    assert_eq!(
        state.step(&devices, 0),
        Step::Failed(ApplyError::PathNotCString {
            path: "/bad\0".to_string()
        })
    );
    let blk = BlkConfig {
        path: "/tmp/\0/x".to_string(),
        format: DiskImageFormat::Raw,
    };
    assert_eq!(
        blk.krun_ctx_set(),
        Err(ApplyError::PathNotCString {
            path: "/tmp/\0/x".to_string()
        })
    );
}

#[test]
fn no_devices_is_done_at_once() {
    let mut state = ApplicationState::new(9);
    assert_eq!(state.step(&Vec::new(), 0), Step::Done);
    assert!(state.finished);
    let devices = devices(&["virtio-rng", "virtio-input,pointing"]);
    let mut state = ApplicationState::new(9);
    assert_eq!(state.step(&devices, -5), Step::Done);
}

#[test]
fn machine_configuration() {
    assert_eq!(check_vm_config(4, 2048), Ok(()));
    assert_eq!(check_vm_config(1, 1), Ok(()));
    assert_eq!(check_vm_config(1, 61440), Ok(()));
    assert_eq!(check_vm_config(0, 2048), Err(ContextError::ZeroCpus));
    assert_eq!(check_vm_config(0, 0), Err(ContextError::ZeroCpus));
    assert_eq!(check_vm_config(1, 0), Err(ContextError::ZeroMemory));
    assert_eq!(check_vm_config(1, 61441), Err(ContextError::MemoryTooLarge));
    assert_eq!(
        ContextError::ZeroCpus.message(),
        "vcpus must be a minimum of 1 (0 is invalid)"
    );
    assert_eq!(ContextError::ZeroMemory.message(), "zero MiB RAM inputted (invalid)");
    assert_eq!(
        ContextError::MemoryTooLarge.message(),
        "requested RAM larger than upper limit of 61440 MiB"
    );
    assert_eq!(ContextError::NoFirmware.message(), "can't find a firmware to load");
}

#[test]
fn video_memory() {
    assert_eq!(vram_size(2048, u64::MAX), 63350767616);
    assert_eq!(vram_size(2047, u64::MAX), (63488 - 2048) * 1024 * 1024);
    assert_eq!(vram_size(1, u64::MAX), (63488 - 1024) * 1024 * 1024);
    assert_eq!(vram_size(61440, u64::MAX), 1024 * 1024 * 1024);
    assert_eq!(vram_size(2048, 8 * 1024 * 1024 * 1024), 8 * 1024 * 1024 * 1024);
    assert_eq!(vram_size(2048, 0), 0);
    assert_eq!(virgl_flags(), (1 << 6) | (1 << 7));
    assert_eq!(
        COMPAT_NET_FEATURES,
        (1 << 0) | (1 << 1) | (1 << 7) | (1 << 10) | (1 << 11) | (1 << 14)
    );
}

#[test]
fn logging() {
    assert_eq!(log_settings(Some(5)), (5, 1));
    assert_eq!(log_settings(Some(0)), (0, 1));
    assert_eq!(log_settings(None), (3, 0));
    assert_eq!(log_level_name(0), "off");
    assert_eq!(log_level_name(1), "error");
    assert_eq!(log_level_name(2), "warn");
    assert_eq!(log_level_name(3), "info");
    assert_eq!(log_level_name(4), "debug");
    assert_eq!(log_level_name(5), "trace");
    assert_eq!(log_level_name(u32::MAX), "trace");
}

#[test]
fn backend_results() {
    assert_eq!(check_backend(SetupStage::CreateContext, 0), Ok(()));
    assert_eq!(check_backend(SetupStage::CreateContext, 7), Ok(()));
    let e = check_backend(SetupStage::CreateContext, -1).err().unwrap();
    assert_eq!(
        e,
        ContextError::Backend {
            stage: SetupStage::CreateContext,
            rc: -1
        }
    );
    assert_eq!(e.message(), "unable to create libkrun context");
    let message = |stage: SetupStage, rc: i32| check_backend(stage, rc).err().unwrap().message();
    assert_eq!(message(SetupStage::InitLog, -22), "unable to init libkrun logs: -22");
    assert_eq!(
        message(SetupStage::InitLog, i32::MIN),
        "unable to init libkrun logs: -2147483648"
    );
    assert_eq!(
        message(SetupStage::SetFirmware, -1),
        "unable to configure the firmware to be loaded"
    );
    assert_eq!(
        message(SetupStage::SetVmConfig, -1),
        "unable to set krun vCPU/RAM configuration"
    );
    assert_eq!(
        message(SetupStage::SetGpuOptions, -1),
        "unable to set krun vCPU/RAM configuration"
    );
    assert_eq!(message(SetupStage::SetOemStrings, -1), "unable to set SMBIOS OEM Strings");
    assert_eq!(
        message(SetupStage::SetNestedVirt, -1),
        "krun nested virtualization reported as supported, yet failed to enable"
    );
    assert_eq!(
        message(SetupStage::StartEnter, -1),
        "unable to begin running krun workload"
    );
}

#[test]
fn nested_virtualization() {
    assert_eq!(nested_virt_wanted(1), Ok(true));
    assert_eq!(nested_virt_wanted(0), Ok(false));
    assert_eq!(nested_virt_wanted(-1), Err(ContextError::NestedVirtCheckFailed));
    assert_eq!(nested_virt_wanted(2), Err(ContextError::NestedVirtCheckFailed));
    assert_eq!(
        ContextError::NestedVirtCheckFailed.message(),
        "unable to check nested virtualization is supported on this host"
    );
}

#[test]
fn oem_strings() {
    assert_eq!(set_smbios_oem_strings(&None), Ok(false));
    assert_eq!(set_smbios_oem_strings(&Some(Vec::new())), Ok(true));
    assert_eq!(
        set_smbios_oem_strings(&Some(vec!["a".to_string(), "b".to_string()])),
        Ok(true)
    );
    assert_eq!(
        set_smbios_oem_strings(&Some(vec!["a".to_string(), "b\0c".to_string()])),
        Err(ContextError::InvalidOemString)
    );
    assert_eq!(
        set_smbios_oem_strings(&Some(vec!["x".to_string(); 255])),
        Ok(true)
    );
    assert_eq!(
        set_smbios_oem_strings(&Some(vec!["x".to_string(); 256])),
        Err(ContextError::TooManyOemStrings)
    );
    assert_eq!(
        ContextError::TooManyOemStrings.message(),
        "invalid number of SMBIOS OEM strings"
    );
    assert_eq!(ContextError::InvalidOemString.message(), "invalid SMBIOS OEM string");
}

#[test]
fn time_synchronisation() {
    let vsock = timesync_vsock(1234, 4321);
    assert_eq!(
        vsock,
        VsockConfig {
            port: 1234,
            socket_url: "/tmp/krunkit_timesync_4321.sock".to_string(),
            action: VsockAction::Connect
        }
    );
    assert_eq!(
        timesync_listener(Activity::Wake, &vsock),
        Some("/tmp/krunkit_timesync_4321.sock".to_string())
    );
    assert_eq!(timesync_listener(Activity::Sleep, &vsock), None);
    assert_eq!(
        sync_time(1700000000123456789),
        "{\"execute\": \"guest-set-time\", \"arguments\":{\"time\": 1700000000123456789}}\n"
    );
    let codes = PowerMessages {
        will_sleep: 0xe0000280,
        will_power_on: 0xe0000320,
        has_powered_on: 0xe0000300,
    };
    assert_eq!(power_callback(0xe0000280, &codes), Some(Activity::Sleep));
    assert_eq!(power_callback(0xe0000320, &codes), Some(Activity::Wake));
    assert_eq!(power_callback(0xe0000300, &codes), Some(Activity::Wake));
    assert_eq!(power_callback(0xe0000270, &codes), None);
    assert_eq!(pidfile_text(4321), "4321");
}

#[test]
fn bootloader() {
    assert_eq!(
        Config::from_str("efi,variable-store=/Users/user/bootloader,create"),
        Ok(Config {
            fw: BootloaderFw::Efi,
            vstore: "/Users/user/bootloader".to_string(),
            action: Action::Create
        })
    );
    assert_eq!(
        Config::from_str("create,efi,variable-store=v").unwrap().vstore,
        "v"
    );
    let err = |s: &str| Config::from_str(s).err().unwrap();
    assert_eq!(
        err("variable-store=v,create"),
        Error::MissingArgument {
            label: "bootloader".to_string(),
            key: "efi".to_string()
        }
    );
    assert_eq!(
        err("efi,create"),
        Error::MissingArgument {
            label: "bootloader".to_string(),
            key: "variable-store".to_string()
        }
    );
    assert_eq!(
        err("efi=x,variable-store=v,create"),
        Error::UnknownBootloaderArgument {
            key: "efi".to_string(),
            value: "x".to_string()
        }
    );
    assert_eq!(
        err("efi=x,variable-store=v,create").message(),
        "unknown bootloader argument: efi=x"
    );
    assert_eq!(
        err("efi,variable-store=v,create=now").message(),
        "unknown bootloader argument: create=now"
    );
    assert_eq!(
        err("efi,variable-store=v,create,bios"),
        Error::UnknownArguments {
            label: "bootloader".to_string(),
            args: vec!["bios=".to_string()]
        }
    );
    assert_eq!(BootloaderFw::from_str("EFI"), Ok(BootloaderFw::Efi));
    assert_eq!(
        BootloaderFw::from_str("bios").err().unwrap().message(),
        "invalid bootloader firmware option: bios"
    );
    assert_eq!(Action::from_str("Create"), Ok(Action::Create));
    assert_eq!(
        Action::from_str("delete").err().unwrap().message(),
        "invalid bootloader action: delete"
    );
    assert_eq!(Vstore::from_str("/v"), Ok(Vstore("/v".to_string())));
}

#[test]
fn setup_goes_through_its_calls_in_order() {
    let config = SetupConfig {
        cpus: 4,
        memory: 2048,
        krun_log_level: Some(5),
        nested: true,
        timesync: Some(1234),
    };
    let events = [
        SetupEvent::Start,
        SetupEvent::Code(0),
        SetupEvent::Completed(true),
        SetupEvent::Code(7),
        SetupEvent::Firmware(true),
        SetupEvent::Code(0),
        SetupEvent::Code(0),
        SetupEvent::Memory(u64::MAX),
        SetupEvent::Code(0),
        SetupEvent::Completed(true),
        SetupEvent::Completed(true),
        SetupEvent::Code(1),
        SetupEvent::Code(0),
        SetupEvent::Completed(true),
    ];
    let mut phase = SetupPhase::Idle;
    let mut actions = Vec::new();
    for event in events {
        let (next, action) = setup_step(phase, &config, event);
        phase = next;
        actions.push(action);
    }
    assert_eq!(phase, SetupPhase::Ready);
    assert_eq!(
        actions,
        vec![
            SetupAction::InitLog {
                level: 5,
                style: 0,
                options: 1
            },
            SetupAction::InitLogger {
                level: 5,
                from_env: false
            },
            SetupAction::CreateContext,
            SetupAction::FindFirmware,
            SetupAction::SetFirmware,
            SetupAction::SetVmConfig {
                cpus: 4,
                memory: 2048
            },
            SetupAction::QueryMemory,
            SetupAction::SetGpuOptions {
                virgl_flags: 192,
                vram: 63350767616
            },
            SetupAction::ApplyDevices,
            SetupAction::SetOemStrings,
            SetupAction::CheckNestedVirt,
            SetupAction::SetNestedVirt,
            SetupAction::StartTimesync { port: 1234 },
            SetupAction::Finish,
        ]
    );
    assert_eq!(
        setup_step(phase, &config, SetupEvent::Code(-1)),
        (SetupPhase::Ready, SetupAction::Nothing)
    );
}

#[test]
fn setup_stops_at_the_first_failure() {
    let config = SetupConfig {
        cpus: 0,
        memory: 2048,
        krun_log_level: None,
        nested: false,
        timesync: None,
    };
    assert_eq!(
        setup_step(SetupPhase::Idle, &config, SetupEvent::Start),
        (
            SetupPhase::AwaitInitLog,
            SetupAction::InitLog {
                level: 3,
                style: 0,
                options: 0
            }
        )
    );
    assert_eq!(
        setup_step(SetupPhase::AwaitInitLog, &config, SetupEvent::Code(0)),
        (
            SetupPhase::AwaitLogger,
            SetupAction::InitLogger {
                level: 3,
                from_env: true
            }
        )
    );
    assert_eq!(
        setup_step(SetupPhase::AwaitInitLog, &config, SetupEvent::Code(-22)),
        (
            SetupPhase::Failed,
            SetupAction::Fail(ContextError::Backend {
                stage: SetupStage::InitLog,
                rc: -22
            })
        )
    );
    assert_eq!(
        setup_step(SetupPhase::AwaitFirmwarePath, &config, SetupEvent::Firmware(false)),
        (SetupPhase::Failed, SetupAction::Fail(ContextError::NoFirmware))
    );
    // the firmware is set, but no CPU was asked for
    assert_eq!(
        setup_step(SetupPhase::AwaitFirmware, &config, SetupEvent::Code(0)),
        (SetupPhase::Failed, SetupAction::Fail(ContextError::ZeroCpus))
    );
    let config = SetupConfig { cpus: 1, memory: 61441, ..config };
    assert_eq!(
        setup_step(SetupPhase::AwaitFirmware, &config, SetupEvent::Code(0)),
        (SetupPhase::Failed, SetupAction::Fail(ContextError::MemoryTooLarge))
    );
    assert_eq!(
        setup_step(SetupPhase::AwaitFirmware, &config, SetupEvent::Code(-1)),
        (
            SetupPhase::Failed,
            SetupAction::Fail(ContextError::Backend {
                stage: SetupStage::SetFirmware,
                rc: -1
            })
        )
    );
    assert_eq!(
        setup_step(SetupPhase::AwaitDevices, &config, SetupEvent::Completed(false)),
        (SetupPhase::Failed, SetupAction::Abort)
    );
    // without nested virtualization and time synchronisation the OEM strings come last
    assert_eq!(
        setup_step(SetupPhase::AwaitOem, &config, SetupEvent::Completed(true)),
        (SetupPhase::Ready, SetupAction::Finish)
    );
    let nested = SetupConfig { nested: true, ..config };
    assert_eq!(
        setup_step(SetupPhase::AwaitNestedCheck, &nested, SetupEvent::Code(0)),
        (SetupPhase::Ready, SetupAction::Finish)
    );
    assert_eq!(
        setup_step(SetupPhase::AwaitNestedCheck, &nested, SetupEvent::Code(-1)),
        (
            SetupPhase::Failed,
            SetupAction::Fail(ContextError::NestedVirtCheckFailed)
        )
    );
    assert_eq!(
        setup_step(SetupPhase::Failed, &nested, SetupEvent::Start),
        (SetupPhase::Failed, SetupAction::Nothing)
    );
}

#[test]
fn hardware_address_text_for_every_octet() {
    for b in 0..=255u8 {
        let mac = [b, 0, 0xff, b ^ 0x5a, 0x0f, 0xf0];
        let e = ApplyError::Rejected {
            call: BackendCall::SetNetMac { mac },
        };
        assert_eq!(
            e.message(),
            format!(
                "unable to set net MAC address {:02X}:00:FF:{:02X}:0F:F0",
                b,
                b ^ 0x5a
            )
        );
    }
}
