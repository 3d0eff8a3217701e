//! The errors of parsing and validation, each with the text shown to the user.

use vstd::prelude::*;

verus! {

/// Why a command-line value was rejected.
#[derive(Clone, Debug, PartialEq, Eq)]
pub enum Error {
    /// A token holds more than one `=`.
    InvalidArgumentFormat { arg: String },
    /// The key of token `arg` was given by an earlier token.
    DuplicateKey { key: String, arg: String },
    /// A required key is absent.
    MissingArgument { label: String, key: String },
    /// A value is none of `true`, `on`, `false`, `off`.
    InvalidBoolean { value: String },
    /// A disk image format is neither `raw` nor `qcow2`.
    UnsupportedDiskFormat,
    /// A vsock action is not `listen`.
    InvalidVsockAction,
    /// A vsock port is not an unsigned 32-bit number.
    InvalidPort,
    /// A flag was given a value.
    UnexpectedValue { label: String, key: String, value: String },
    /// A network device names both `unixSocketPath` and `type`.
    NetTypeConflict,
    /// A network device names neither `unixSocketPath` nor `type`.
    NetMissingType,
    /// A network `type` is neither `unixgram` nor `unixstream`.
    NetUnsupportedType { value: String },
    /// A network `fd` is not a signed 32-bit number.
    NetInvalidFd,
    /// A network device names both `path` and `fd`.
    NetPathFdConflict,
    /// `vfkitMagic` was given for a socket type other than `unixgram`.
    NetMagicUnsupported,
    /// A network `mac` is not a hardware address.
    NetInvalidMac,
    /// A GPU width is not an unsigned 32-bit number.
    GpuWidthOutOfRange,
    /// A GPU height is not an unsigned 32-bit number.
    GpuHeightOutOfRange,
    /// An input device does not name exactly one argument.
    InvalidInputConfig { spec: String },
    /// An input device names a flag other than `keyboard` and `pointing`.
    UnknownInputArgument { key: String },
    /// A device specification is empty.
    NoDeviceConfig,
    /// A device specification starts with an unknown label.
    UnsupportedDevice { label: String },
    /// A bootloader flag was given a value.
    UnknownBootloaderArgument { key: String, value: String },
    /// A bootloader firmware is not `efi`.
    InvalidBootloaderFirmware { value: String },
    /// A bootloader action is not `create`.
    InvalidBootloaderAction { value: String },
    /// A URI scheme is none of `tcp`, `unix`, `none`.
    InvalidScheme,
    /// A URI does not start with a known scheme and `://`.
    InvalidSchemeInput,
    /// A TCP URI is not of the form `host:port`.
    MalformedUri,
    /// A Unix URI has no path.
    EmptyUnixPath,
    /// A TCP host is neither `localhost` nor a dotted IPv4 address.
    InvalidIpAddress,
    /// A TCP port is not an unsigned 16-bit number.
    InvalidUriPort,
    /// Keys were left over that the device does not know; `args` lists each as `key=value`.
    UnknownArguments { label: String, args: Vec<String> },
}

/// The mathematical value of an [`Error`]: the same variants over character sequences.
pub enum ErrorView {
    InvalidArgumentFormat { arg: Seq<char> },
    DuplicateKey { key: Seq<char>, arg: Seq<char> },
    MissingArgument { label: Seq<char>, key: Seq<char> },
    InvalidBoolean { value: Seq<char> },
    UnsupportedDiskFormat,
    InvalidVsockAction,
    InvalidPort,
    UnexpectedValue { label: Seq<char>, key: Seq<char>, value: Seq<char> },
    NetTypeConflict,
    NetMissingType,
    NetUnsupportedType { value: Seq<char> },
    NetInvalidFd,
    NetPathFdConflict,
    NetMagicUnsupported,
    NetInvalidMac,
    GpuWidthOutOfRange,
    GpuHeightOutOfRange,
    InvalidInputConfig { spec: Seq<char> },
    UnknownInputArgument { key: Seq<char> },
    NoDeviceConfig,
    UnsupportedDevice { label: Seq<char> },
    UnknownBootloaderArgument { key: Seq<char>, value: Seq<char> },
    InvalidBootloaderFirmware { value: Seq<char> },
    InvalidBootloaderAction { value: Seq<char> },
    InvalidScheme,
    InvalidSchemeInput,
    MalformedUri,
    EmptyUnixPath,
    InvalidIpAddress,
    InvalidUriPort,
    UnknownArguments { label: Seq<char>, args: Seq<Seq<char>> },
}

impl View for Error {
    type V = ErrorView;

    open spec fn view(&self) -> ErrorView {
        match *self {
            Error::InvalidArgumentFormat { arg } => ErrorView::InvalidArgumentFormat { arg: arg@ },
            Error::DuplicateKey { key, arg } => ErrorView::DuplicateKey { key: key@, arg: arg@ },
            Error::MissingArgument { label, key } => ErrorView::MissingArgument { label: label@, key: key@ },
            Error::InvalidBoolean { value } => ErrorView::InvalidBoolean { value: value@ },
            Error::UnsupportedDiskFormat => ErrorView::UnsupportedDiskFormat,
            Error::InvalidVsockAction => ErrorView::InvalidVsockAction,
            Error::InvalidPort => ErrorView::InvalidPort,
            Error::UnexpectedValue { label, key, value } => ErrorView::UnexpectedValue { label: label@, key: key@, value: value@ },
            Error::NetTypeConflict => ErrorView::NetTypeConflict,
            Error::NetMissingType => ErrorView::NetMissingType,
            Error::NetUnsupportedType { value } => ErrorView::NetUnsupportedType { value: value@ },
            Error::NetInvalidFd => ErrorView::NetInvalidFd,
            Error::NetPathFdConflict => ErrorView::NetPathFdConflict,
            Error::NetMagicUnsupported => ErrorView::NetMagicUnsupported,
            Error::NetInvalidMac => ErrorView::NetInvalidMac,
            Error::GpuWidthOutOfRange => ErrorView::GpuWidthOutOfRange,
            Error::GpuHeightOutOfRange => ErrorView::GpuHeightOutOfRange,
            Error::InvalidInputConfig { spec } => ErrorView::InvalidInputConfig { spec: spec@ },
            Error::UnknownInputArgument { key } => ErrorView::UnknownInputArgument { key: key@ },
            Error::NoDeviceConfig => ErrorView::NoDeviceConfig,
            Error::UnsupportedDevice { label } => ErrorView::UnsupportedDevice { label: label@ },
            Error::UnknownBootloaderArgument { key, value } => ErrorView::UnknownBootloaderArgument { key: key@, value: value@ },
            Error::InvalidBootloaderFirmware { value } => ErrorView::InvalidBootloaderFirmware { value: value@ },
            Error::InvalidBootloaderAction { value } => ErrorView::InvalidBootloaderAction { value: value@ },
            Error::InvalidScheme => ErrorView::InvalidScheme,
            Error::InvalidSchemeInput => ErrorView::InvalidSchemeInput,
            Error::MalformedUri => ErrorView::MalformedUri,
            Error::EmptyUnixPath => ErrorView::EmptyUnixPath,
            Error::InvalidIpAddress => ErrorView::InvalidIpAddress,
            Error::InvalidUriPort => ErrorView::InvalidUriPort,
            Error::UnknownArguments { label, args } => ErrorView::UnknownArguments {
                label: label@,
                args: crate::text::views(args@),
            },
        }
    }
}

/// The items of `args`, each in double quotes, separated by a comma and a space.
pub open spec fn quoted_list(args: Seq<Seq<char>>) -> Seq<char>
    decreases args.len(),
{
    if args.len() == 0 {
        Seq::empty()
    } else if args.len() == 1 {
        "\""@ + args[0] + "\""@
    } else {
        quoted_list(args.drop_last()) + ", \""@ + args.last() + "\""@
    }
}

/// The text that describes an error to the user.
pub open spec fn message_of(e: ErrorView) -> Seq<char> {
    match e {
        ErrorView::InvalidArgumentFormat { arg } => "invalid argument format: "@ + arg,
        ErrorView::DuplicateKey { key, arg } => "argument "@ + arg + " is only expected once"@,
        ErrorView::MissingArgument { label, key } => label + " is missing argument: "@ + key,
        ErrorView::InvalidBoolean { value } => "invalid boolean value "@ + value,
        ErrorView::UnsupportedDiskFormat => "unsupported disk image format"@,
        ErrorView::InvalidVsockAction => "invalid vsock action"@,
        ErrorView::InvalidPort => "port argument invalid"@,
        ErrorView::UnexpectedValue { label, key, value } => "unexpected value for "@ + label + " argument: "@ + key + "="@ + value,
        ErrorView::NetTypeConflict => "virtio-net \"type\" and \"unixSocketPath\" are mutually exclusive and cannot be used together."@,
        ErrorView::NetMissingType => "virtio-net device is missing \"type\" or \"unixSocketPath\""@,
        ErrorView::NetUnsupportedType { value } => "virtio-net unsupported \"type\" input "@ + value,
        ErrorView::NetInvalidFd => "virtio-net unable to convert \"fd\" value {fd} to a file descriptor"@,
        ErrorView::NetPathFdConflict => "virtio-net device arguments \"path\" and \"fd\" are mutually exclusive and cannot be used together"@,
        ErrorView::NetMagicUnsupported => "virtio-net only \"type=unixgram\" supports the vfkitMagic argument"@,
        ErrorView::NetInvalidMac => "virtio-net unable to parse address from \"mac\" argument"@,
        ErrorView::GpuWidthOutOfRange => "GPU width argument out of range (0x0 - 0xffffffff)"@,
        ErrorView::GpuHeightOutOfRange => "GPU height argument out of range (0x0 - 0xffffffff)"@,
        ErrorView::InvalidInputConfig { spec } => "invalid virtio-input config: "@ + spec,
        ErrorView::UnknownInputArgument { key } => "unknown virtio-input argument: "@ + key,
        ErrorView::NoDeviceConfig => "no device config found"@,
        ErrorView::UnsupportedDevice { label } => "invalid virtio device label specified: "@ + label,
        ErrorView::UnknownBootloaderArgument { key, value } => "unknown bootloader argument: "@ + key + "="@ + value,
        ErrorView::InvalidBootloaderFirmware { value } => "invalid bootloader firmware option: "@ + value,
        ErrorView::InvalidBootloaderAction { value } => "invalid bootloader action: "@ + value,
        ErrorView::InvalidScheme => "invalid scheme"@,
        ErrorView::InvalidSchemeInput => "invalid scheme input"@,
        ErrorView::MalformedUri => "restful URI formatted incorrectly"@,
        ErrorView::EmptyUnixPath => "empty unix socket path"@,
        ErrorView::InvalidIpAddress => "restful URI IP address formatted incorrectly"@,
        ErrorView::InvalidUriPort => "restful URI port number formatted incorrectly"@,
        ErrorView::UnknownArguments { label, args } => "unknown "@ + label + " arguments: ["@
            + quoted_list(args) + "]"@,
    }
}

fn quoted_list_string(args: &Vec<String>) -> (r: String)
    ensures
        r@ == quoted_list(crate::text::views(args@)),
{
    let mut out = String::new();
    let mut i: usize = 0;
    while i < args.len()
        invariant
            i <= args.len(),
            out@ == quoted_list(crate::text::views(args@).take(i as int)),
        decreases args.len() - i,
    {
        let ghost all = crate::text::views(args@);
        proof {
            assert(all.take(i + 1).drop_last() =~= all.take(i as int));
            assert(all.take(i + 1).last() == args@[i as int]@);
        }
        if i == 0 {
            out.append("\"");
            proof {
                assert(out@ =~= "\""@);
            }
        } else {
            out.append(", \"");
        }
        out.append(args[i].as_str());
        out.append("\"");
        i += 1;
    }
    proof {
        assert(crate::text::views(args@).take(i as int) =~= crate::text::views(args@));
    }
    out
}

impl Error {
    /// The text that describes the error to the user.
    pub fn message(&self) -> (r: String)
        ensures
            r@ == message_of(self@),
    {
        match self {
            Error::InvalidArgumentFormat { arg } => {
                let mut s = String::from_str("invalid argument format: ");
                s.append(arg.as_str());
                s
            },
            Error::DuplicateKey { key, arg } => {
                let mut s = String::from_str("argument ");
                s.append(arg.as_str());
                s.append(" is only expected once");
                s
            },
            Error::MissingArgument { label, key } => {
                let mut s = String::from_str(label.as_str());
                s.append(" is missing argument: ");
                s.append(key.as_str());
                s
            },
            Error::InvalidBoolean { value } => {
                let mut s = String::from_str("invalid boolean value ");
                s.append(value.as_str());
                s
            },
            Error::UnsupportedDiskFormat => {
                let s = String::from_str("unsupported disk image format");
                s
            },
            Error::InvalidVsockAction => {
                let s = String::from_str("invalid vsock action");
                s
            },
            Error::InvalidPort => {
                let s = String::from_str("port argument invalid");
                s
            },
            Error::UnexpectedValue { label, key, value } => {
                let mut s = String::from_str("unexpected value for ");
                s.append(label.as_str());
                s.append(" argument: ");
                s.append(key.as_str());
                s.append("=");
                s.append(value.as_str());
                s
            },
            Error::NetTypeConflict => {
                let s = String::from_str("virtio-net \"type\" and \"unixSocketPath\" are mutually exclusive and cannot be used together.");
                s
            },
            Error::NetMissingType => {
                let s = String::from_str("virtio-net device is missing \"type\" or \"unixSocketPath\"");
                s
            },
            Error::NetUnsupportedType { value } => {
                let mut s = String::from_str("virtio-net unsupported \"type\" input ");
                s.append(value.as_str());
                s
            },
            Error::NetInvalidFd => {
                let s = String::from_str("virtio-net unable to convert \"fd\" value {fd} to a file descriptor");
                s
            },
            Error::NetPathFdConflict => {
                let s = String::from_str("virtio-net device arguments \"path\" and \"fd\" are mutually exclusive and cannot be used together");
                s
            },
            Error::NetMagicUnsupported => {
                let s = String::from_str("virtio-net only \"type=unixgram\" supports the vfkitMagic argument");
                s
            },
            Error::NetInvalidMac => {
                let s = String::from_str("virtio-net unable to parse address from \"mac\" argument");
                s
            },
            Error::GpuWidthOutOfRange => {
                let s = String::from_str("GPU width argument out of range (0x0 - 0xffffffff)");
                s
            },
            Error::GpuHeightOutOfRange => {
                let s = String::from_str("GPU height argument out of range (0x0 - 0xffffffff)");
                s
            },
            Error::InvalidInputConfig { spec } => {
                let mut s = String::from_str("invalid virtio-input config: ");
                s.append(spec.as_str());
                s
            },
            Error::UnknownInputArgument { key } => {
                let mut s = String::from_str("unknown virtio-input argument: ");
                s.append(key.as_str());
                s
            },
            Error::NoDeviceConfig => {
                let s = String::from_str("no device config found");
                s
            },
            Error::UnsupportedDevice { label } => {
                let mut s = String::from_str("invalid virtio device label specified: ");
                s.append(label.as_str());
                s
            },
            Error::UnknownBootloaderArgument { key, value } => {
                let mut s = String::from_str("unknown bootloader argument: ");
                s.append(key.as_str());
                s.append("=");
                s.append(value.as_str());
                s
            },
            Error::InvalidBootloaderFirmware { value } => {
                let mut s = String::from_str("invalid bootloader firmware option: ");
                s.append(value.as_str());
                s
            },
            Error::InvalidBootloaderAction { value } => {
                let mut s = String::from_str("invalid bootloader action: ");
                s.append(value.as_str());
                s
            },
            Error::InvalidScheme => {
                let s = String::from_str("invalid scheme");
                s
            },
            Error::InvalidSchemeInput => {
                let s = String::from_str("invalid scheme input");
                s
            },
            Error::MalformedUri => {
                let s = String::from_str("restful URI formatted incorrectly");
                s
            },
            Error::EmptyUnixPath => {
                let s = String::from_str("empty unix socket path");
                s
            },
            Error::InvalidIpAddress => {
                let s = String::from_str("restful URI IP address formatted incorrectly");
                s
            },
            Error::InvalidUriPort => {
                let s = String::from_str("restful URI port number formatted incorrectly");
                s
            },
            Error::UnknownArguments { label, args } => {
                let mut s = String::from_str("unknown ");
                s.append(label.as_str());
                s.append(" arguments: [");
                let list = quoted_list_string(args);
                s.append(list.as_str());
                s.append("]");
                s
            },
        }
    }
}

} // verus!
