use krunkit::error::Error;
use krunkit::virtio::parse_socket_config;
use krunkit::virtio::BlkConfig;
use krunkit::virtio::DiskImageFormat;
use krunkit::virtio::FsConfig;
use krunkit::virtio::GpuConfig;
use krunkit::virtio::InputConfig;
use krunkit::virtio::NetConfig;
use krunkit::virtio::SerialConfig;
use krunkit::virtio::SocketConfig;
use krunkit::virtio::SocketType;
use krunkit::virtio::VirtioDeviceConfig;
use krunkit::virtio::VsockAction;
use krunkit::virtio::VsockConfig;

fn device(spec: &str) -> VirtioDeviceConfig {
    VirtioDeviceConfig::from_str(spec).unwrap()
}

fn device_error(spec: &str) -> Error {
    VirtioDeviceConfig::from_str(spec).err().unwrap()
}

#[test]
fn device_specs_in_order() {
    assert_eq!(
        device("virtio-blk,path=/Users/user/root.qcow2,format=qcow2"),
        VirtioDeviceConfig::Blk(BlkConfig {
            path: "/Users/user/root.qcow2".to_string(),
            format: DiskImageFormat::Qcow2
        })
    );
    assert_eq!(device("virtio-rng"), VirtioDeviceConfig::Rng);
    assert_eq!(
        device("virtio-serial,logFilePath=/Users/user/serial.log"),
        VirtioDeviceConfig::Serial(SerialConfig {
            log_file_path: "/Users/user/serial.log".to_string()
        })
    );
    assert_eq!(
        device("virtio-blk,path=/Users/user/data.raw,format=raw"),
        VirtioDeviceConfig::Blk(BlkConfig {
            path: "/Users/user/data.raw".to_string(),
            format: DiskImageFormat::Raw
        })
    );
    assert_eq!(
        device("virtio-vsock,port=1024,socketURL=/Users/user/vsock1.sock,listen"),
        VirtioDeviceConfig::Vsock(VsockConfig {
            port: 1024,
            socket_url: "/Users/user/vsock1.sock".to_string(),
            action: VsockAction::Listen
        })
    );
    assert_eq!(
        device("virtio-net,unixSocketPath=/Users/user/net.sock,mac=00:00:00:00:00:00"),
        VirtioDeviceConfig::Net(NetConfig {
            socket_type: SocketType::UnixGram,
            socket_config: SocketConfig {
                path: Some("/Users/user/net.sock".to_string()),
                fd: None,
                offloading: true,
                send_vfkit_magic: true
            },
            mac_address: [0, 0, 0, 0, 0, 0]
        })
    );
    assert_eq!(
        device("virtio-fs,sharedDir=/Users/user/fs,mountTag=guest-dir"),
        VirtioDeviceConfig::Fs(FsConfig {
            shared_dir: "/Users/user/fs".to_string(),
            mount_tag: "guest-dir".to_string()
        })
    );
    assert_eq!(
        device("virtio-vsock,port=1025,socketURL=/Users/user/vsock2.sock,listen"),
        VirtioDeviceConfig::Vsock(VsockConfig {
            port: 1025,
            socket_url: "/Users/user/vsock2.sock".to_string(),
            action: VsockAction::Listen
        })
    );
    assert_eq!(
        device("virtio-gpu,width=800,height=600"),
        VirtioDeviceConfig::Gpu(GpuConfig {
            width: 800,
            height: 600
        })
    );
    assert_eq!(
        device("virtio-input,keyboard"),
        VirtioDeviceConfig::Input(InputConfig::Keyboard)
    );
    assert_eq!(
        device("virtio-input,pointing"),
        VirtioDeviceConfig::Input(InputConfig::Pointing)
    );
}

#[test]
fn network_devices_by_type() {
    let net = |spec: &str| NetConfig::from_str(spec).unwrap();
    let n = net("type=unixgram,path=/Users/user/net.sock,mac=00:00:00:00:00:00,offloading=true,vfkitMagic=off");
    assert_eq!(n.socket_type, SocketType::UnixGram);
    assert_eq!(n.socket_config.path, Some("/Users/user/net.sock".to_string()));
    assert_eq!(n.socket_config.fd, None);
    assert_eq!(n.socket_config.offloading, true);
    assert_eq!(n.socket_config.send_vfkit_magic, false);
    assert_eq!(n.mac_address, [0, 0, 0, 0, 0, 0]);

    let n = net("type=unixstream,path=/Users/user/net.sock,mac=00:00:00:00:00:00,offloading=on");
    assert_eq!(n.socket_type, SocketType::UnixStream);
    assert_eq!(n.socket_config.path, Some("/Users/user/net.sock".to_string()));
    assert_eq!(n.socket_config.fd, None);
    assert_eq!(n.socket_config.offloading, true);
    assert_eq!(n.socket_config.send_vfkit_magic, false);

    let n = net("type=unixstream,fd=4,mac=00:00:00:00:00:00,offloading=off");
    assert_eq!(n.socket_type, SocketType::UnixStream);
    assert_eq!(n.socket_config.path, None);
    assert_eq!(n.socket_config.fd, Some(4));
    assert_eq!(n.socket_config.offloading, false);
    assert_eq!(n.socket_config.send_vfkit_magic, false);

    let n = net("type=unixstream,fd=4,mac=00:00:00:00:00:00");
    assert_eq!(n.socket_type, SocketType::UnixStream);
    assert_eq!(n.socket_config.path, None);
    assert_eq!(n.socket_config.fd, Some(4));
    assert_eq!(n.socket_config.offloading, false);
    assert_eq!(n.socket_config.send_vfkit_magic, false);
    assert_eq!(n.mac_address, [0, 0, 0, 0, 0, 0]);

    let n = net("type=unixgram,vfkitMagic=on,mac=00:00:00:00:00:00");
    assert_eq!(n.socket_config.send_vfkit_magic, true);
    assert_eq!(n.socket_config.path, None);
    assert_eq!(n.socket_config.fd, None);
}

#[test]
fn block_device_without_format_is_raw() {
    assert_eq!(
        device("virtio-blk,path=/tmp/root.raw"),
        VirtioDeviceConfig::Blk(BlkConfig {
            path: "/tmp/root.raw".to_string(),
            format: DiskImageFormat::Raw
        })
    );
    assert_eq!(
        BlkConfig::from_str("format=QCOW2,path=a").unwrap().format,
        DiskImageFormat::Qcow2
    );
    assert_eq!(
        BlkConfig::from_str("path=a,format=Raw").unwrap().format,
        DiskImageFormat::Raw
    );
    assert_eq!(DiskImageFormat::default(), DiskImageFormat::Raw);
    assert_eq!(DiskImageFormat::Raw.code(), 0);
    assert_eq!(DiskImageFormat::Qcow2.code(), 1);
}

#[test]
fn network_device_with_descriptor() {
    assert_eq!(
        device("virtio-net,type=unixgram,fd=4,mac=00:00:00:00:00:00"),
        VirtioDeviceConfig::Net(NetConfig {
            socket_type: SocketType::UnixGram,
            socket_config: SocketConfig {
                path: None,
                fd: Some(4),
                offloading: false,
                send_vfkit_magic: false
            },
            mac_address: [0, 0, 0, 0, 0, 0]
        })
    );
}

#[test]
fn hardware_address_is_read_by_the_address_crate() {
    let n = NetConfig::from_str("unixSocketPath=/s,mac=80:FA:5b:41:10:6B").unwrap();
    assert_eq!(n.mac_address, [0x80, 0xfa, 0x5b, 0x41, 0x10, 0x6b]);
    let n = NetConfig::from_str("unixSocketPath=/s,mac=ff-ff-ff-ff-ff-ff").unwrap();
    assert_eq!(n.mac_address, [255; 6]);
    let n = NetConfig::from_str("unixSocketPath=/s,mac=0123456789ab").unwrap();
    assert_eq!(n.mac_address, [0x01, 0x23, 0x45, 0x67, 0x89, 0xab]);
    let e = NetConfig::from_str("unixSocketPath=/s,mac=00:00:00:00:00").err().unwrap();
    assert_eq!(e, Error::NetInvalidMac);
    assert_eq!(
        e.message(),
        "virtio-net unable to parse address from \"mac\" argument"
    );
    assert_eq!(
        NetConfig::from_str("unixSocketPath=/s,mac=zz:00:00:00:00:00").err(),
        Some(Error::NetInvalidMac)
    );
    assert_eq!(
        NetConfig::from_str("unixSocketPath=/s,mac").err(),
        Some(Error::NetInvalidMac)
    );
}

#[test]
fn network_arguments_exclude_each_other() {
    let e = NetConfig::from_str("unixSocketPath=/s,type=unixgram,mac=00:00:00:00:00:00")
        .err()
        .unwrap();
    assert_eq!(e, Error::NetTypeConflict);
    assert_eq!(
        e.message(),
        "virtio-net \"type\" and \"unixSocketPath\" are mutually exclusive and cannot be used together."
    );
    let e = NetConfig::from_str("type=unixgram,path=/s,fd=4,mac=00:00:00:00:00:00")
        .err()
        .unwrap();
    assert_eq!(e, Error::NetPathFdConflict);
    assert_eq!(
        e.message(),
        "virtio-net device arguments \"path\" and \"fd\" are mutually exclusive and cannot be used together"
    );
    let e = NetConfig::from_str("type=unixstream,fd=4,vfkitMagic=on,mac=00:00:00:00:00:00")
        .err()
        .unwrap();
    assert_eq!(e, Error::NetMagicUnsupported);
    assert_eq!(
        e.message(),
        "virtio-net only \"type=unixgram\" supports the vfkitMagic argument"
    );
    // the conflict is found whatever the address is
    assert_eq!(
        NetConfig::from_str("unixSocketPath=/s,type=unixgram,mac=bad").err(),
        Some(Error::NetTypeConflict)
    );
}

#[test]
fn network_errors() {
    let err = |s: &str| NetConfig::from_str(s).err().unwrap();
    assert_eq!(
        err("type=unixgram"),
        Error::MissingArgument {
            label: "virtio-net".to_string(),
            key: "mac".to_string()
        }
    );
    assert_eq!(err("mac=00:00:00:00:00:00"), Error::NetMissingType);
    assert_eq!(
        Error::NetMissingType.message(),
        "virtio-net device is missing \"type\" or \"unixSocketPath\""
    );
    assert_eq!(
        err("type=tap,mac=00:00:00:00:00:00"),
        Error::NetUnsupportedType {
            value: "tap".to_string()
        }
    );
    assert_eq!(
        err("type=tap,mac=00:00:00:00:00:00").message(),
        "virtio-net unsupported \"type\" input tap"
    );
    assert_eq!(err("type=unixgram,fd=x,mac=00:00:00:00:00:00"), Error::NetInvalidFd);
    assert_eq!(
        Error::NetInvalidFd.message(),
        "virtio-net unable to convert \"fd\" value {fd} to a file descriptor"
    );
    assert_eq!(
        err("type=unixgram,fd=4,offloading=maybe,mac=00:00:00:00:00:00"),
        Error::InvalidBoolean {
            value: "maybe".to_string()
        }
    );
    assert_eq!(
        err("type=unixgram,vfkitMagic=2,mac=00:00:00:00:00:00"),
        Error::InvalidBoolean {
            value: "2".to_string()
        }
    );
    assert_eq!(
        err("type=unixgram,fd=4,mac=00:00:00:00:00:00,mtu=1500"),
        Error::UnknownArguments {
            label: "virtio-net".to_string(),
            args: vec!["mtu=1500".to_string()]
        }
    );
    // with a legacy socket path the keys of the typed form are unknown
    assert_eq!(
        err("unixSocketPath=/s,fd=4,mac=00:00:00:00:00:00"),
        Error::UnknownArguments {
            label: "virtio-net".to_string(),
            args: vec!["fd=4".to_string()]
        }
    );
    let n = NetConfig::from_str("type=unixgram,fd=-1,mac=00:00:00:00:00:00").unwrap();
    assert_eq!(n.socket_config.fd, Some(-1));
}

#[test]
fn socket_config_takes_its_keys() {
    let mut args = krunkit::cmdline::parse_args("path=/p,offloading=on,other=1".to_string()).unwrap();
    let (ty, config) = parse_socket_config("unixstream", &mut args).unwrap();
    assert_eq!(ty, SocketType::UnixStream);
    assert_eq!(
        config,
        SocketConfig {
            path: Some("/p".to_string()),
            fd: None,
            offloading: true,
            send_vfkit_magic: false
        }
    );
    assert_eq!(args.entries, vec![("other".to_string(), "1".to_string())]);
    assert_eq!(
        SocketConfig::default(),
        SocketConfig {
            path: None,
            fd: None,
            offloading: false,
            send_vfkit_magic: false
        }
    );
}

#[test]
fn vsock_port_boundary() {
    let v = VsockConfig::from_str("port=4294967295,socketURL=/s").unwrap();
    assert_eq!(v.port, u32::MAX);
    assert_eq!(v.socket_url, "/s");
    assert_eq!(v.action, VsockAction::Listen);
    let e = VsockConfig::from_str("port=4294967296,socketURL=/s").err().unwrap();
    assert_eq!(e, Error::InvalidPort);
    assert_eq!(e.message(), "port argument invalid");
    assert_eq!(
        VsockConfig::from_str("port=-1,socketURL=/s").err(),
        Some(Error::InvalidPort)
    );
    assert_eq!(
        VsockConfig::from_str("port=,socketURL=/s").err(),
        Some(Error::InvalidPort)
    );
}

#[test]
fn vsock_errors() {
    let err = |s: &str| VsockConfig::from_str(s).err().unwrap();
    assert_eq!(
        err("socketURL=/s"),
        Error::MissingArgument {
            label: "virtio-vsock".to_string(),
            key: "port".to_string()
        }
    );
    // a missing key is reported before a bad value
    assert_eq!(
        err("port=x"),
        Error::MissingArgument {
            label: "virtio-vsock".to_string(),
            key: "socketURL".to_string()
        }
    );
    let e = err("port=1,socketURL=/s,listen=yes");
    assert_eq!(
        e,
        Error::UnexpectedValue {
            label: "virtio-vsock".to_string(),
            key: "listen".to_string(),
            value: "yes".to_string()
        }
    );
    assert_eq!(
        e.message(),
        "unexpected value for virtio-vsock argument: listen=yes"
    );
    assert_eq!(
        err("port=1,socketURL=/s,connect"),
        Error::UnknownArguments {
            label: "virtio-vsock".to_string(),
            args: vec!["connect=".to_string()]
        }
    );
    assert_eq!(VsockAction::from_str("LISTEN"), Ok(VsockAction::Listen));
    assert_eq!(VsockAction::from_str("connect"), Err(Error::InvalidVsockAction));
    assert_eq!(Error::InvalidVsockAction.message(), "invalid vsock action");
    assert_eq!(VsockAction::default(), VsockAction::Listen);
}

#[test]
fn block_device_errors() {
    let err = |s: &str| BlkConfig::from_str(s).err().unwrap();
    assert_eq!(
        err("format=raw"),
        Error::MissingArgument {
            label: "virtio-blk".to_string(),
            key: "path".to_string()
        }
    );
    assert_eq!(err("format=raw").message(), "virtio-blk is missing argument: path");
    assert_eq!(err("path=a,format=vmdk"), Error::UnsupportedDiskFormat);
    assert_eq!(
        Error::UnsupportedDiskFormat.message(),
        "unsupported disk image format"
    );
    assert_eq!(
        err("path=a,readonly"),
        Error::UnknownArguments {
            label: "virtio-blk".to_string(),
            args: vec!["readonly=".to_string()]
        }
    );
    assert_eq!(
        err("path=a,path=b"),
        Error::DuplicateKey {
            key: "path".to_string(),
            arg: "path=b".to_string()
        }
    );
    assert_eq!(DiskImageFormat::from_str("qcow"), Err(Error::UnsupportedDiskFormat));
}

#[test]
fn serial_fs_and_gpu() {
    assert_eq!(
        SerialConfig::from_str("").err(),
        Some(Error::MissingArgument {
            label: "virtio-serial".to_string(),
            key: "logFilePath".to_string()
        })
    );
    assert_eq!(
        SerialConfig::from_str("logFilePath=/l,x").err(),
        Some(Error::UnknownArguments {
            label: "virtio-serial".to_string(),
            args: vec!["x=".to_string()]
        })
    );
    assert_eq!(
        FsConfig::from_str("sharedDir=/d").err(),
        Some(Error::MissingArgument {
            label: "virtio-fs".to_string(),
            key: "mountTag".to_string()
        })
    );
    assert_eq!(
        FsConfig::from_str("mountTag=t,sharedDir=/d").unwrap(),
        FsConfig {
            shared_dir: "/d".to_string(),
            mount_tag: "t".to_string()
        }
    );
    assert_eq!(
        GpuConfig::from_str("width=1").err(),
        Some(Error::MissingArgument {
            label: "virtio-gpu".to_string(),
            key: "height".to_string()
        })
    );
    let e = GpuConfig::from_str("width=4294967296,height=x").err().unwrap();
    assert_eq!(e, Error::GpuWidthOutOfRange);
    assert_eq!(
        e.message(),
        "GPU width argument out of range (0x0 - 0xffffffff)"
    );
    let e = GpuConfig::from_str("width=1,height=x").err().unwrap();
    assert_eq!(e, Error::GpuHeightOutOfRange);
    assert_eq!(
        e.message(),
        "GPU height argument out of range (0x0 - 0xffffffff)"
    );
    assert_eq!(
        GpuConfig::from_str("width=4294967295,height=0").unwrap(),
        GpuConfig {
            width: u32::MAX,
            height: 0
        }
    );
}

#[test]
fn input_devices() {
    assert_eq!(InputConfig::from_str("keyboard"), Ok(InputConfig::Keyboard));
    assert_eq!(InputConfig::from_str("pointing"), Ok(InputConfig::Pointing));
    let e = InputConfig::from_str("keyboard,pointing").err().unwrap();
    assert_eq!(
        e,
        Error::InvalidInputConfig {
            spec: "keyboard,pointing".to_string()
        }
    );
    assert_eq!(e.message(), "invalid virtio-input config: keyboard,pointing");
    let e = InputConfig::from_str("keyboard=us").err().unwrap();
    assert_eq!(
        e,
        Error::UnexpectedValue {
            label: "virtio-input".to_string(),
            key: "keyboard".to_string(),
            value: "us".to_string()
        }
    );
    assert_eq!(
        e.message(),
        "unexpected value for virtio-input argument: keyboard=us"
    );
    let e = InputConfig::from_str("mouse").err().unwrap();
    assert_eq!(
        e,
        Error::UnknownInputArgument {
            key: "mouse".to_string()
        }
    );
    assert_eq!(e.message(), "unknown virtio-input argument: mouse");
    assert_eq!(
        device_error("virtio-input"),
        Error::UnknownInputArgument { key: String::new() }
    );
}

#[test]
fn labels_are_matched_exactly() {
    let e = device_error("");
    assert_eq!(e, Error::NoDeviceConfig);
    assert_eq!(e.message(), "no device config found");
    let e = device_error("virtio-foo,a=b");
    assert_eq!(
        e,
        Error::UnsupportedDevice {
            label: "virtio-foo".to_string()
        }
    );
    assert_eq!(e.message(), "invalid virtio device label specified: virtio-foo");
    assert_eq!(
        device_error("Virtio-blk,path=a"),
        Error::UnsupportedDevice {
            label: "Virtio-blk".to_string()
        }
    );
    assert_eq!(
        device_error(",path=a"),
        Error::UnsupportedDevice { label: String::new() }
    );
    assert_eq!(
        device_error("virtio-blk"),
        Error::MissingArgument {
            label: "virtio-blk".to_string(),
            key: "path".to_string()
        }
    );
}

#[test]
fn random_number_generator_takes_no_argument() {
    assert_eq!(device("virtio-rng"), VirtioDeviceConfig::Rng);
    assert_eq!(
        device_error("virtio-rng,seed=1"),
        Error::UnknownArguments {
            label: "virtio-rng".to_string(),
            args: vec!["seed=1".to_string()]
        }
    );
    assert_eq!(
        device_error("virtio-rng,"),
        Error::UnknownArguments {
            label: "virtio-rng".to_string(),
            args: vec!["=".to_string()]
        }
    );
}
