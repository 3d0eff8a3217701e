//! The virtio devices: their configuration values and the rules by which each is built
//! from its arguments.

use crate::cmdline::check_required_args;
use crate::cmdline::check_unknown_args;
use crate::cmdline::lemma_required_present;
use crate::cmdline::lookup;
use crate::cmdline::parse_args;
use crate::cmdline::parse_boolean;
use crate::cmdline::parse_spec;
use crate::cmdline::required_spec;
use crate::cmdline::boolean_spec;
use crate::cmdline::unknown_spec;
use crate::cmdline::without_key;
use crate::cmdline::ParsedArgs;
use crate::error::Error;
use crate::error::ErrorView;
use crate::text::eq_ignore_case;
use crate::text::find_char;
use crate::text::index_of;
use crate::text::parse_i32;
use crate::text::parse_i32_str;
use crate::text::parse_u32;
use crate::text::parse_unsigned;
use crate::text::str_eq;
use crate::text::str_eq_ignore_case;
use vstd::prelude::*;

verus! {

/// Whether a result of building stands for the given value or error.
pub open spec fn built_as<T: View>(r: Result<T, Error>, model: Result<T::V, ErrorView>) -> bool {
    match model {
        Ok(v) => r matches Ok(c) && c@ == v,
        Err(e) => r matches Err(x) && x@ == e,
    }
}

/// The format of a disk image.
#[derive(Copy, Clone, Debug, PartialEq, Eq)]
pub enum DiskImageFormat {
    Raw,
    Qcow2,
}

impl Default for DiskImageFormat {
    fn default() -> (r: Self)
        ensures
            r == DiskImageFormat::Raw,
    {
        DiskImageFormat::Raw
    }
}

/// The format that a text names, without regard to case.
pub open spec fn disk_format_spec(s: Seq<char>) -> Result<DiskImageFormat, ErrorView> {
    if eq_ignore_case(s, "raw"@) {
        Ok(DiskImageFormat::Raw)
    } else if eq_ignore_case(s, "qcow2"@) {
        Ok(DiskImageFormat::Qcow2)
    } else {
        Err(ErrorView::UnsupportedDiskFormat)
    }
}

/// The number by which the backend knows a format: 0 for raw, 1 for qcow2.
pub open spec fn format_code(f: DiskImageFormat) -> u32 {
    match f {
        DiskImageFormat::Raw => 0u32,
        DiskImageFormat::Qcow2 => 1u32,
    }
}

impl DiskImageFormat {
    /// Reads `raw` or `qcow2`, in any case.
    pub fn from_str(s: &str) -> (r: Result<Self, Error>)
        ensures
            match disk_format_spec(s@) {
                Ok(f) => r == Ok::<Self, Error>(f),
                Err(e) => r matches Err(x) && x@ == e,
            },
    {
        if str_eq_ignore_case(s, "raw") {
            Ok(DiskImageFormat::Raw)
        } else if str_eq_ignore_case(s, "qcow2") {
            Ok(DiskImageFormat::Qcow2)
        } else {
            Err(Error::UnsupportedDiskFormat)
        }
    }

    /// The number by which the backend knows the format.
    pub fn code(&self) -> (r: u32)
        ensures
            r == format_code(*self),
    {
        match self {
            DiskImageFormat::Raw => 0,
            DiskImageFormat::Qcow2 => 1,
        }
    }
}

/// A virtio-blk device.
#[derive(Clone, Debug, PartialEq)]
pub struct BlkConfig {
    /// Path of the disk image.
    pub path: String,
    /// Format of the disk image.
    pub format: DiskImageFormat,
}

/// The mathematical value of a [`BlkConfig`].
pub struct BlkConfigView {
    pub path: Seq<char>,
    pub format: DiskImageFormat,
}

impl View for BlkConfig {
    type V = BlkConfigView;

    open spec fn view(&self) -> BlkConfigView {
        BlkConfigView { path: self.path@, format: self.format }
    }
}

/// The pairs that are left of a virtio-blk device's arguments once its own are taken.
pub open spec fn blk_rest(p: Seq<(Seq<char>, Seq<char>)>) -> Seq<(Seq<char>, Seq<char>)> {
    without_key(without_key(p, "path"@), "format"@)
}

/// The virtio-blk device that a list of pairs stands for: `path` is required; `format`
/// is read where present and is raw where absent; no other key may be given.
pub open spec fn blk_args_spec(p: Seq<(Seq<char>, Seq<char>)>) -> Result<
    BlkConfigView,
    ErrorView,
> {
    let label = "virtio-blk"@;
    if required_spec(p, label, seq!["path"@]) is Err {
        Err(required_spec(p, label, seq!["path"@])->Err_0)
    } else if lookup(p, "format"@) is Some && disk_format_spec(lookup(p, "format"@)->0) is Err {
        Err(disk_format_spec(lookup(p, "format"@)->0)->Err_0)
    } else if unknown_spec(blk_rest(p), label) is Err {
        Err(unknown_spec(blk_rest(p), label)->Err_0)
    } else {
        Ok(
            BlkConfigView {
                path: lookup(p, "path"@)->0,
                format: if lookup(p, "format"@) is Some {
                    disk_format_spec(lookup(p, "format"@)->0)->Ok_0
                } else {
                    DiskImageFormat::Raw
                },
            },
        )
    }
}

/// The virtio-blk device that an argument string stands for.
pub open spec fn blk_spec(s: Seq<char>) -> Result<BlkConfigView, ErrorView> {
    match parse_spec(s) {
        Err(e) => Err(e),
        Ok(p) => blk_args_spec(p),
    }
}

impl BlkConfig {
    /// Builds a virtio-blk device from its arguments.
    pub fn from_str(s: &str) -> (r: Result<Self, Error>)
        ensures
            built_as(r, blk_spec(s@)),
    {
        let mut args = parse_args(String::from_str(s))?;
        let ghost p = args.pairs();
        let required = ["path"];
        proof {
            lemma_key_names();
            assert(crate::cmdline::strs(required@) =~= seq!["path"@]);
        }
        check_required_args(&args, "virtio-blk", &required)?;
        proof {
            lemma_required_present(p, "virtio-blk"@, seq!["path"@], 0);
        }
        let path = args.remove("path").unwrap();
        let mut format = DiskImageFormat::Raw;
        if let Some(f) = args.remove("format") {
            format = DiskImageFormat::from_str(f.as_str())?;
        }
        check_unknown_args(args, "virtio-blk")?;
        Ok(BlkConfig { path, format })
    }
}

/// The names of the arguments differ from each other.
pub proof fn lemma_key_names()
    ensures
        "path"@ != "format"@,
        "port"@ != "socketURL"@,
        "port"@ != "listen"@,
        "socketURL"@ != "listen"@,
        "sharedDir"@ != "mountTag"@,
        "width"@ != "height"@,
        "unixgram"@ != "unixstream"@,
        "keyboard"@ != "pointing"@,
        "mac"@ != "unixSocketPath"@,
        "mac"@ != "type"@,
        "mac"@ != "path"@,
        "mac"@ != "fd"@,
        "mac"@ != "offloading"@,
        "mac"@ != "vfkitMagic"@,
        "unixSocketPath"@ != "type"@,
        "unixSocketPath"@ != "path"@,
        "unixSocketPath"@ != "fd"@,
        "unixSocketPath"@ != "offloading"@,
        "unixSocketPath"@ != "vfkitMagic"@,
        "type"@ != "path"@,
        "type"@ != "fd"@,
        "type"@ != "offloading"@,
        "type"@ != "vfkitMagic"@,
        "path"@ != "fd"@,
        "path"@ != "offloading"@,
        "path"@ != "vfkitMagic"@,
        "fd"@ != "offloading"@,
        "fd"@ != "vfkitMagic"@,
        "offloading"@ != "vfkitMagic"@,
{
    reveal_strlit("path");
    reveal_strlit("format");
    reveal_strlit("port");
    reveal_strlit("socketURL");
    reveal_strlit("listen");
    reveal_strlit("sharedDir");
    reveal_strlit("mountTag");
    reveal_strlit("width");
    reveal_strlit("height");
    reveal_strlit("unixgram");
    reveal_strlit("unixstream");
    reveal_strlit("keyboard");
    reveal_strlit("pointing");
    reveal_strlit("mac");
    reveal_strlit("unixSocketPath");
    reveal_strlit("type");
    reveal_strlit("fd");
    reveal_strlit("offloading");
    reveal_strlit("vfkitMagic");
    assert("keyboard"@[0] != "pointing"@[0]);
    assert("type"@[0] != "path"@[0]);
    assert("offloading"@[0] != "vfkitMagic"@[0]);
    assert("path"@.len() != "format"@.len());
    assert("port"@.len() != "socketURL"@.len());
    assert("port"@.len() != "listen"@.len());
    assert("socketURL"@.len() != "listen"@.len());
    assert("sharedDir"@.len() != "mountTag"@.len());
    assert("width"@.len() != "height"@.len());
    assert("unixgram"@.len() != "unixstream"@.len());
    assert("mac"@.len() == 3);
    assert("unixSocketPath"@.len() == 14);
    assert("type"@.len() == 4);
    assert("path"@.len() == 4);
    assert("fd"@.len() == 2);
    assert("offloading"@.len() == 10);
    assert("vfkitMagic"@.len() == 10);
}

/// A virtio-serial device.
#[derive(Clone, Debug, PartialEq)]
pub struct SerialConfig {
    /// Path of the file that receives the console output.
    pub log_file_path: String,
}

/// The mathematical value of a [`SerialConfig`].
pub struct SerialConfigView {
    pub log_file_path: Seq<char>,
}

impl View for SerialConfig {
    type V = SerialConfigView;

    open spec fn view(&self) -> SerialConfigView {
        SerialConfigView { log_file_path: self.log_file_path@ }
    }
}

/// The virtio-serial device that a list of pairs stands for: `logFilePath` is required
/// and no other key may be given.
pub open spec fn serial_args_spec(p: Seq<(Seq<char>, Seq<char>)>) -> Result<
    SerialConfigView,
    ErrorView,
> {
    let label = "virtio-serial"@;
    if required_spec(p, label, seq!["logFilePath"@]) is Err {
        Err(required_spec(p, label, seq!["logFilePath"@])->Err_0)
    } else if unknown_spec(without_key(p, "logFilePath"@), label) is Err {
        Err(unknown_spec(without_key(p, "logFilePath"@), label)->Err_0)
    } else {
        Ok(SerialConfigView { log_file_path: lookup(p, "logFilePath"@)->0 })
    }
}

/// The virtio-serial device that an argument string stands for.
pub open spec fn serial_spec(s: Seq<char>) -> Result<SerialConfigView, ErrorView> {
    match parse_spec(s) {
        Err(e) => Err(e),
        Ok(p) => serial_args_spec(p),
    }
}

impl SerialConfig {
    /// Builds a virtio-serial device from its arguments.
    pub fn from_str(s: &str) -> (r: Result<Self, Error>)
        ensures
            built_as(r, serial_spec(s@)),
    {
        let mut args = parse_args(String::from_str(s))?;
        let ghost p = args.pairs();
        let required = ["logFilePath"];
        proof {
            assert(crate::cmdline::strs(required@) =~= seq!["logFilePath"@]);
        }
        check_required_args(&args, "virtio-serial", &required)?;
        proof {
            lemma_required_present(p, "virtio-serial"@, seq!["logFilePath"@], 0);
        }
        let log_file_path = args.remove("logFilePath").unwrap();
        check_unknown_args(args, "virtio-serial")?;
        Ok(SerialConfig { log_file_path })
    }
}

/// What a virtio-vsock device does with its socket.
#[derive(Copy, Clone, Debug, PartialEq, Eq)]
pub enum VsockAction {
    Listen,
    Connect,
}

impl Default for VsockAction {
    fn default() -> (r: Self)
        ensures
            r == VsockAction::Listen,
    {
        VsockAction::Listen
    }
}

impl VsockAction {
    /// Reads `listen`, in any case.
    pub fn from_str(s: &str) -> (r: Result<Self, Error>)
        ensures
            eq_ignore_case(s@, "listen"@) ==> r == Ok::<Self, Error>(VsockAction::Listen),
            !eq_ignore_case(s@, "listen"@) ==> (r matches Err(x) && x@
                == ErrorView::InvalidVsockAction),
    {
        if str_eq_ignore_case(s, "listen") {
            Ok(VsockAction::Listen)
        } else {
            Err(Error::InvalidVsockAction)
        }
    }
}

/// A virtio-vsock device.
#[derive(Clone, Debug, PartialEq)]
pub struct VsockConfig {
    /// Port in the guest.
    pub port: u32,
    /// Path of the socket on the host.
    pub socket_url: String,
    /// What is done with the socket.
    pub action: VsockAction,
}

/// The mathematical value of a [`VsockConfig`].
pub struct VsockConfigView {
    pub port: u32,
    pub socket_url: Seq<char>,
    pub action: VsockAction,
}

impl View for VsockConfig {
    type V = VsockConfigView;

    open spec fn view(&self) -> VsockConfigView {
        VsockConfigView { port: self.port, socket_url: self.socket_url@, action: self.action }
    }
}

/// The pairs that are left of a virtio-vsock device's arguments once its own are taken.
pub open spec fn vsock_rest(p: Seq<(Seq<char>, Seq<char>)>) -> Seq<(Seq<char>, Seq<char>)> {
    without_key(without_key(without_key(p, "port"@), "socketURL"@), "listen"@)
}

/// The virtio-vsock device that a list of pairs stands for: `port` and `socketURL` are
/// required, `port` is an unsigned 32-bit number, `listen` is a flag without a value,
/// and no other key may be given.
pub open spec fn vsock_args_spec(p: Seq<(Seq<char>, Seq<char>)>) -> Result<
    VsockConfigView,
    ErrorView,
> {
    let label = "virtio-vsock"@;
    let required = seq!["port"@, "socketURL"@];
    if required_spec(p, label, required) is Err {
        Err(required_spec(p, label, required)->Err_0)
    } else if parse_unsigned(lookup(p, "port"@)->0, u32::MAX as nat) is None {
        Err(ErrorView::InvalidPort)
    } else if lookup(p, "listen"@) is Some && (lookup(p, "listen"@)->0).len() != 0 {
        Err(
            ErrorView::UnexpectedValue {
                label,
                key: "listen"@,
                value: lookup(p, "listen"@)->0,
            },
        )
    } else if unknown_spec(vsock_rest(p), label) is Err {
        Err(unknown_spec(vsock_rest(p), label)->Err_0)
    } else {
        Ok(
            VsockConfigView {
                port: (parse_unsigned(lookup(p, "port"@)->0, u32::MAX as nat)->0) as u32,
                socket_url: lookup(p, "socketURL"@)->0,
                action: VsockAction::Listen,
            },
        )
    }
}

/// The virtio-vsock device that an argument string stands for.
pub open spec fn vsock_spec(s: Seq<char>) -> Result<VsockConfigView, ErrorView> {
    match parse_spec(s) {
        Err(e) => Err(e),
        Ok(p) => vsock_args_spec(p),
    }
}

impl VsockConfig {
    /// Builds a virtio-vsock device from its arguments.
    pub fn from_str(s: &str) -> (r: Result<Self, Error>)
        ensures
            built_as(r, vsock_spec(s@)),
    {
        let mut args = parse_args(String::from_str(s))?;
        let ghost p = args.pairs();
        let required = ["port", "socketURL"];
        proof {
            lemma_key_names();
            assert(crate::cmdline::strs(required@) =~= seq!["port"@, "socketURL"@]);
        }
        check_required_args(&args, "virtio-vsock", &required)?;
        proof {
            lemma_required_present(p, "virtio-vsock"@, seq!["port"@, "socketURL"@], 0);
            lemma_required_present(p, "virtio-vsock"@, seq!["port"@, "socketURL"@], 1);
        }
        let port_text = args.remove("port").unwrap();
        let port = match parse_u32(port_text.as_str()) {
            Some(v) => v,
            None => {
                return Err(Error::InvalidPort);
            },
        };
        let socket_url = args.remove("socketURL").unwrap();
        if let Some(v) = args.remove("listen") {
            if v.as_str().unicode_len() != 0 {
                return Err(
                    Error::UnexpectedValue {
                        label: String::from_str("virtio-vsock"),
                        key: String::from_str("listen"),
                        value: v,
                    },
                );
            }
        }
        check_unknown_args(args, "virtio-vsock")?;
        Ok(VsockConfig { port, socket_url, action: VsockAction::Listen })
    }
}

/// A virtio-fs device.
#[derive(Clone, Debug, PartialEq)]
pub struct FsConfig {
    /// Directory of the host that is shared.
    pub shared_dir: String,
    /// Tag under which the guest mounts it.
    pub mount_tag: String,
}

/// The mathematical value of an [`FsConfig`].
pub struct FsConfigView {
    pub shared_dir: Seq<char>,
    pub mount_tag: Seq<char>,
}

impl View for FsConfig {
    type V = FsConfigView;

    open spec fn view(&self) -> FsConfigView {
        FsConfigView { shared_dir: self.shared_dir@, mount_tag: self.mount_tag@ }
    }
}

/// The virtio-fs device that a list of pairs stands for: `sharedDir` and `mountTag` are
/// required and no other key may be given.
pub open spec fn fs_args_spec(p: Seq<(Seq<char>, Seq<char>)>) -> Result<FsConfigView, ErrorView> {
    let label = "virtio-fs"@;
    let required = seq!["sharedDir"@, "mountTag"@];
    let rest = without_key(without_key(p, "sharedDir"@), "mountTag"@);
    if required_spec(p, label, required) is Err {
        Err(required_spec(p, label, required)->Err_0)
    } else if unknown_spec(rest, label) is Err {
        Err(unknown_spec(rest, label)->Err_0)
    } else {
        Ok(
            FsConfigView {
                shared_dir: lookup(p, "sharedDir"@)->0,
                mount_tag: lookup(p, "mountTag"@)->0,
            },
        )
    }
}

/// The virtio-fs device that an argument string stands for.
pub open spec fn fs_spec(s: Seq<char>) -> Result<FsConfigView, ErrorView> {
    match parse_spec(s) {
        Err(e) => Err(e),
        Ok(p) => fs_args_spec(p),
    }
}

impl FsConfig {
    /// Builds a virtio-fs device from its arguments.
    pub fn from_str(s: &str) -> (r: Result<Self, Error>)
        ensures
            built_as(r, fs_spec(s@)),
    {
        let mut args = parse_args(String::from_str(s))?;
        let ghost p = args.pairs();
        let required = ["sharedDir", "mountTag"];
        proof {
            lemma_key_names();
            assert(crate::cmdline::strs(required@) =~= seq!["sharedDir"@, "mountTag"@]);
        }
        check_required_args(&args, "virtio-fs", &required)?;
        proof {
            lemma_required_present(p, "virtio-fs"@, seq!["sharedDir"@, "mountTag"@], 0);
            lemma_required_present(p, "virtio-fs"@, seq!["sharedDir"@, "mountTag"@], 1);
        }
        let shared_dir = args.remove("sharedDir").unwrap();
        let mount_tag = args.remove("mountTag").unwrap();
        check_unknown_args(args, "virtio-fs")?;
        Ok(FsConfig { shared_dir, mount_tag })
    }
}

/// A virtio-gpu device.
#[derive(Copy, Clone, Debug, PartialEq, Eq)]
pub struct GpuConfig {
    /// Width in pixels.
    pub width: u32,
    /// Height in pixels.
    pub height: u32,
}

impl View for GpuConfig {
    type V = GpuConfig;

    open spec fn view(&self) -> GpuConfig {
        *self
    }
}

/// The virtio-gpu device that a list of pairs stands for: `height` and `width` are
/// required, both are unsigned 32-bit numbers, and no other key may be given.
pub open spec fn gpu_args_spec(p: Seq<(Seq<char>, Seq<char>)>) -> Result<GpuConfig, ErrorView> {
    let label = "virtio-gpu"@;
    let required = seq!["height"@, "width"@];
    let rest = without_key(without_key(p, "width"@), "height"@);
    if required_spec(p, label, required) is Err {
        Err(required_spec(p, label, required)->Err_0)
    } else if parse_unsigned(lookup(p, "width"@)->0, u32::MAX as nat) is None {
        Err(ErrorView::GpuWidthOutOfRange)
    } else if parse_unsigned(lookup(p, "height"@)->0, u32::MAX as nat) is None {
        Err(ErrorView::GpuHeightOutOfRange)
    } else if unknown_spec(rest, label) is Err {
        Err(unknown_spec(rest, label)->Err_0)
    } else {
        Ok(
            GpuConfig {
                width: (parse_unsigned(lookup(p, "width"@)->0, u32::MAX as nat)->0) as u32,
                height: (parse_unsigned(lookup(p, "height"@)->0, u32::MAX as nat)->0) as u32,
            },
        )
    }
}

/// The virtio-gpu device that an argument string stands for.
pub open spec fn gpu_spec(s: Seq<char>) -> Result<GpuConfig, ErrorView> {
    match parse_spec(s) {
        Err(e) => Err(e),
        Ok(p) => gpu_args_spec(p),
    }
}

impl GpuConfig {
    /// Builds a virtio-gpu device from its arguments.
    pub fn from_str(s: &str) -> (r: Result<Self, Error>)
        ensures
            built_as(r, gpu_spec(s@)),
    {
        let mut args = parse_args(String::from_str(s))?;
        let ghost p = args.pairs();
        let required = ["height", "width"];
        proof {
            lemma_key_names();
            assert(crate::cmdline::strs(required@) =~= seq!["height"@, "width"@]);
        }
        check_required_args(&args, "virtio-gpu", &required)?;
        proof {
            lemma_required_present(p, "virtio-gpu"@, seq!["height"@, "width"@], 0);
            lemma_required_present(p, "virtio-gpu"@, seq!["height"@, "width"@], 1);
        }
        let width_text = args.remove("width").unwrap();
        let width = match parse_u32(width_text.as_str()) {
            Some(v) => v,
            None => {
                return Err(Error::GpuWidthOutOfRange);
            },
        };
        let height_text = args.remove("height").unwrap();
        let height = match parse_u32(height_text.as_str()) {
            Some(v) => v,
            None => {
                return Err(Error::GpuHeightOutOfRange);
            },
        };
        check_unknown_args(args, "virtio-gpu")?;
        Ok(GpuConfig { width, height })
    }
}

/// A virtio-input device: which kind of input the guest gets.
#[derive(Copy, Clone, Debug, PartialEq, Eq)]
pub enum InputConfig {
    Keyboard,
    Pointing,
}

impl View for InputConfig {
    type V = InputConfig;

    open spec fn view(&self) -> InputConfig {
        *self
    }
}

/// The virtio-input device that an argument string stands for: exactly one flag without
/// a value, `keyboard` or `pointing`.
pub open spec fn input_spec(s: Seq<char>) -> Result<InputConfig, ErrorView> {
    match parse_spec(s) {
        Err(e) => Err(e),
        Ok(p) => if p.len() != 1 {
            Err(ErrorView::InvalidInputConfig { spec: s })
        } else if p[0].1.len() != 0 {
            Err(
                ErrorView::UnexpectedValue {
                    label: "virtio-input"@,
                    key: p[0].0,
                    value: p[0].1,
                },
            )
        } else if p[0].0 == "keyboard"@ {
            Ok(InputConfig::Keyboard)
        } else if p[0].0 == "pointing"@ {
            Ok(InputConfig::Pointing)
        } else {
            Err(ErrorView::UnknownInputArgument { key: p[0].0 })
        },
    }
}

impl InputConfig {
    /// Builds a virtio-input device from its arguments.
    pub fn from_str(s: &str) -> (r: Result<Self, Error>)
        ensures
            built_as(r, input_spec(s@)),
    {
        let args = parse_args(String::from_str(s))?;
        if args.len() != 1 {
            return Err(Error::InvalidInputConfig { spec: String::from_str(s) });
        }
        let key = args.entries[0].0.as_str();
        let value = args.entries[0].1.as_str();
        assert(args.pairs()[0] == (key@, value@));
        if value.unicode_len() != 0 {
            return Err(
                Error::UnexpectedValue {
                    label: String::from_str("virtio-input"),
                    key: String::from_str(key),
                    value: String::from_str(value),
                },
            );
        }
        if str_eq(key, "keyboard") {
            Ok(InputConfig::Keyboard)
        } else if str_eq(key, "pointing") {
            Ok(InputConfig::Pointing)
        } else {
            Err(Error::UnknownInputArgument { key: String::from_str(key) })
        }
    }
}

/// The kind of socket behind a virtio-net device.
#[derive(Copy, Clone, Debug, PartialEq, Eq)]
pub enum SocketType {
    /// A Unix datagram socket.
    UnixGram,
    /// A Unix stream socket.
    UnixStream,
}

/// The socket behind a virtio-net device. At most one of `path` and `fd` is set where
/// the value was built from arguments.
#[derive(Clone, Debug, PartialEq, Eq)]
pub struct SocketConfig {
    pub path: Option<String>,
    pub fd: Option<i32>,
    pub offloading: bool,
    pub send_vfkit_magic: bool,
}

/// The mathematical value of a [`SocketConfig`].
pub struct SocketConfigView {
    pub path: Option<Seq<char>>,
    pub fd: Option<i32>,
    pub offloading: bool,
    pub send_vfkit_magic: bool,
}

impl View for SocketConfig {
    type V = SocketConfigView;

    open spec fn view(&self) -> SocketConfigView {
        SocketConfigView {
            path: match self.path {
                Some(p) => Some(p@),
                None => None,
            },
            fd: self.fd,
            offloading: self.offloading,
            send_vfkit_magic: self.send_vfkit_magic,
        }
    }
}

impl SocketConfig {
    /// The invariant of a socket that was built from arguments: path and descriptor
    /// are not both set.
    pub open spec fn wf(&self) -> bool {
        !(self.path is Some && self.fd is Some)
    }
}

impl Default for SocketConfig {
    fn default() -> (r: Self)
        ensures
            r@ == (SocketConfigView {
                path: None,
                fd: None,
                offloading: false,
                send_vfkit_magic: false,
            }),
    {
        SocketConfig { path: None, fd: None, offloading: false, send_vfkit_magic: false }
    }
}

/// A virtio-net device.
#[derive(Clone, Debug, PartialEq)]
pub struct NetConfig {
    /// Kind of the socket.
    pub socket_type: SocketType,
    /// The socket.
    pub socket_config: SocketConfig,
    /// Hardware address of the device, six octets.
    pub mac_address: [u8; 6],
}

/// The mathematical value of a [`NetConfig`].
pub struct NetConfigView {
    pub socket_type: SocketType,
    pub socket_config: SocketConfigView,
    pub mac_address: Seq<u8>,
}

impl View for NetConfig {
    type V = NetConfigView;

    open spec fn view(&self) -> NetConfigView {
        NetConfigView {
            socket_type: self.socket_type,
            socket_config: self.socket_config@,
            mac_address: self.mac_address@,
        }
    }
}

/// The six octets that `mac_address::MacAddress::from_str` reads from a text, or `None`
/// where it returns an error.
pub uninterp spec fn mac_address_bytes(s: Seq<char>) -> Option<Seq<u8>>;

/// Reads a hardware address with `mac_address::MacAddress::from_str` and hands out its
/// six octets. Nothing is claimed of which texts are addresses: the result is the named
/// value `mac_address_bytes` of the text.
#[verifier::external_body]
fn parse_mac(s: &str) -> (r: Option<[u8; 6]>)
    ensures
        match r {
            Some(b) => mac_address_bytes(s@) == Some(b@),
            None => mac_address_bytes(s@) is None,
        },
{
    match <mac_address::MacAddress as core::str::FromStr>::from_str(s) {
        Ok(m) => Some(m.bytes()),
        Err(_) => None,
    }
}

/// The pairs that are left of a socket's arguments once its own are taken.
pub open spec fn socket_rest(p: Seq<(Seq<char>, Seq<char>)>) -> Seq<(Seq<char>, Seq<char>)> {
    without_key(
        without_key(without_key(without_key(p, "path"@), "fd"@), "offloading"@),
        "vfkitMagic"@,
    )
}

/// The truth value of an optional argument, `false` where it is absent.
pub open spec fn flag_or_false(v: Option<Seq<char>>) -> bool {
    match v {
        Some(t) => boolean_spec(t)->Ok_0,
        None => false,
    }
}

/// The socket that a `type` and the other pairs stand for: the type is `unixgram` or
/// `unixstream`; `fd` is a signed 32-bit number; `path` and `fd` exclude each other;
/// `offloading` and `vfkitMagic` are truth values; `vfkitMagic` goes with `unixgram` only.
pub open spec fn socket_config_spec(t: Seq<char>, p: Seq<(Seq<char>, Seq<char>)>) -> Result<
    (SocketType, SocketConfigView),
    ErrorView,
> {
    let fd = lookup(p, "fd"@);
    let offloading = lookup(p, "offloading"@);
    let magic = lookup(p, "vfkitMagic"@);
    if t != "unixgram"@ && t != "unixstream"@ {
        Err(ErrorView::NetUnsupportedType { value: t })
    } else if fd is Some && parse_i32(fd->0) is None {
        Err(ErrorView::NetInvalidFd)
    } else if fd is Some && lookup(p, "path"@) is Some {
        Err(ErrorView::NetPathFdConflict)
    } else if offloading is Some && boolean_spec(offloading->0) is Err {
        Err(boolean_spec(offloading->0)->Err_0)
    } else if magic is Some && t != "unixgram"@ {
        Err(ErrorView::NetMagicUnsupported)
    } else if magic is Some && boolean_spec(magic->0) is Err {
        Err(boolean_spec(magic->0)->Err_0)
    } else {
        Ok(
            (
                if t == "unixgram"@ {
                    SocketType::UnixGram
                } else {
                    SocketType::UnixStream
                },
                SocketConfigView {
                    path: lookup(p, "path"@),
                    fd: match fd {
                        Some(f) => Some((parse_i32(f)->0) as i32),
                        None => None,
                    },
                    offloading: flag_or_false(offloading),
                    send_vfkit_magic: flag_or_false(magic),
                },
            ),
        )
    }
}

/// Reads the socket of a virtio-net device that names its `type`, and takes the keys
/// `path`, `fd`, `offloading` and `vfkitMagic` out of `args`.
pub fn parse_socket_config(socket_type: &str, args: &mut ParsedArgs) -> (r: Result<
    (SocketType, SocketConfig),
    Error,
>)
    requires
        old(args).wf(),
    ensures
        final(args).wf(),
        match socket_config_spec(socket_type@, old(args).pairs()) {
            Ok(v) => r matches Ok(c) && c.0 == v.0 && c.1@ == v.1 && final(args).pairs()
                == socket_rest(old(args).pairs()),
            Err(e) => r matches Err(x) && x@ == e,
        },
        r matches Ok(c) ==> c.1.wf() && (c.1.send_vfkit_magic ==> c.0 == SocketType::UnixGram),
{
    proof {
        lemma_key_names();
    }
    let ty = if str_eq(socket_type, "unixgram") {
        SocketType::UnixGram
    } else if str_eq(socket_type, "unixstream") {
        SocketType::UnixStream
    } else {
        return Err(Error::NetUnsupportedType { value: String::from_str(socket_type) });
    };
    let mut config = SocketConfig::default();
    if let Some(path) = args.remove("path") {
        config.path = Some(path);
    }
    if let Some(fd) = args.remove("fd") {
        match parse_i32_str(fd.as_str()) {
            Some(v) => {
                config.fd = Some(v);
            },
            None => {
                return Err(Error::NetInvalidFd);
            },
        }
    }
    if config.fd.is_some() && config.path.is_some() {
        return Err(Error::NetPathFdConflict);
    }
    if let Some(offloading) = args.remove("offloading") {
        config.offloading = parse_boolean(offloading.as_str())?;
    }
    if let Some(magic) = args.remove("vfkitMagic") {
        match ty {
            SocketType::UnixGram => {},
            SocketType::UnixStream => {
                return Err(Error::NetMagicUnsupported);
            },
        }
        config.send_vfkit_magic = parse_boolean(magic.as_str())?;
    }
    Ok((ty, config))
}

/// The socket of a virtio-net device that names only a `unixSocketPath`.
pub open spec fn legacy_socket(path: Seq<char>) -> SocketConfigView {
    SocketConfigView { path: Some(path), fd: None, offloading: true, send_vfkit_magic: true }
}

/// The pairs that are left of a virtio-net device's arguments once its own are taken.
pub open spec fn net_rest(p: Seq<(Seq<char>, Seq<char>)>) -> Seq<(Seq<char>, Seq<char>)> {
    let p2 = without_key(without_key(p, "unixSocketPath"@), "type"@);
    if lookup(p, "type"@) is Some {
        without_key(socket_rest(p2), "mac"@)
    } else {
        without_key(p2, "mac"@)
    }
}

/// The virtio-net device that a list of pairs and the octets read from its `mac` stand
/// for: exactly one of `unixSocketPath` and `type` is given; with `type` the socket is as
/// `socket_config_spec` says; the address was readable; no other key may be given.
pub open spec fn net_args_spec(p: Seq<(Seq<char>, Seq<char>)>, mac: Option<Seq<u8>>) -> Result<
    NetConfigView,
    ErrorView,
> {
    let label = "virtio-net"@;
    let legacy = lookup(p, "unixSocketPath"@);
    let ty = lookup(p, "type"@);
    let p2 = without_key(without_key(p, "unixSocketPath"@), "type"@);
    if ty is Some && legacy is Some {
        Err(ErrorView::NetTypeConflict)
    } else if ty is Some && socket_config_spec(ty->0, p2) is Err {
        Err(socket_config_spec(ty->0, p2)->Err_0)
    } else if ty is None && legacy is None {
        Err(ErrorView::NetMissingType)
    } else if mac is None {
        Err(ErrorView::NetInvalidMac)
    } else if unknown_spec(net_rest(p), label) is Err {
        Err(unknown_spec(net_rest(p), label)->Err_0)
    } else {
        Ok(
            NetConfigView {
                socket_type: if ty is Some {
                    socket_config_spec(ty->0, p2)->Ok_0.0
                } else {
                    SocketType::UnixGram
                },
                socket_config: if ty is Some {
                    socket_config_spec(ty->0, p2)->Ok_0.1
                } else {
                    legacy_socket(legacy->0)
                },
                mac_address: mac->0,
            },
        )
    }
}

/// The virtio-net device that an argument string and the octets read from its `mac`
/// stand for.
pub open spec fn net_spec(s: Seq<char>, mac: Option<Seq<u8>>) -> Result<NetConfigView, ErrorView> {
    match parse_spec(s) {
        Err(e) => Err(e),
        Ok(p) => if required_spec(p, "virtio-net"@, seq!["mac"@]) is Err {
            Err(required_spec(p, "virtio-net"@, seq!["mac"@])->Err_0)
        } else {
            net_args_spec(p, mac)
        },
    }
}

/// The octets read from the `mac` argument of an argument string, where it has one.
pub open spec fn mac_of(s: Seq<char>) -> Option<Seq<u8>> {
    match parse_spec(s) {
        Err(_) => None,
        Ok(p) => match lookup(p, "mac"@) {
            Some(m) => mac_address_bytes(m),
            None => None,
        },
    }
}

impl NetConfig {
    /// The invariant of a network device that was built from arguments: its socket
    /// has not both a path and a descriptor, and the magic handshake is asked for on a
    /// datagram socket only.
    pub open spec fn wf(&self) -> bool {
        self.socket_config.wf() && (self.socket_config.send_vfkit_magic ==> self.socket_type
            == SocketType::UnixGram)
    }

    /// Builds a virtio-net device from its arguments and from what was read from its
    /// `mac` argument: `None` where that text is no hardware address.
    pub fn from_args(args: ParsedArgs, mac: Option<[u8; 6]>) -> (r: Result<Self, Error>)
        requires
            args.wf(),
        ensures
            r matches Ok(c) ==> c.wf(),
            built_as(
                r,
                net_args_spec(
                    args.pairs(),
                    match mac {
                        Some(b) => Some(b@),
                        None => None,
                    },
                ),
            ),
    {
        proof {
            lemma_key_names();
        }
        let mut args = args;
        let mut socket_type: Option<SocketType> = None;
        let mut socket_config = SocketConfig::default();
        if let Some(path) = args.remove("unixSocketPath") {
            socket_config =
            SocketConfig { path: Some(path), fd: None, offloading: true, send_vfkit_magic: true };
            socket_type = Some(SocketType::UnixGram);
        }
        if let Some(t) = args.remove("type") {
            if socket_type.is_some() {
                return Err(Error::NetTypeConflict);
            }
            let parsed = parse_socket_config(t.as_str(), &mut args)?;
            socket_type = Some(parsed.0);
            socket_config = parsed.1;
        }
        let socket_type = match socket_type {
            Some(t) => t,
            None => {
                return Err(Error::NetMissingType);
            },
        };
        args.remove("mac");
        let mac_address = match mac {
            Some(b) => b,
            None => {
                return Err(Error::NetInvalidMac);
            },
        };
        check_unknown_args(args, "virtio-net")?;
        Ok(NetConfig { socket_type, socket_config, mac_address })
    }

    /// Builds a virtio-net device from its arguments.
    pub fn from_str(s: &str) -> (r: Result<Self, Error>)
        ensures
            built_as(r, net_spec(s@, mac_of(s@))),
            r matches Ok(c) ==> c.wf(),
    {
        let args = parse_args(String::from_str(s))?;
        let ghost p = args.pairs();
        let required = ["mac"];
        proof {
            assert(crate::cmdline::strs(required@) =~= seq!["mac"@]);
        }
        check_required_args(&args, "virtio-net", &required)?;
        proof {
            lemma_required_present(p, "virtio-net"@, seq!["mac"@], 0);
        }
        let mac = match args.get("mac") {
            Some(text) => parse_mac(text.as_str()),
            None => None,
        };
        NetConfig::from_args(args, mac)
    }
}

/// The configuration of one virtio device.
#[derive(Clone, Debug, PartialEq)]
pub enum VirtioDeviceConfig {
    Blk(BlkConfig),
    Rng,
    Serial(SerialConfig),
    Vsock(VsockConfig),
    Net(NetConfig),
    Fs(FsConfig),
    Gpu(GpuConfig),
    Input(InputConfig),
}

/// The mathematical value of a [`VirtioDeviceConfig`].
pub enum VirtioDeviceConfigView {
    Blk(BlkConfigView),
    Rng,
    Serial(SerialConfigView),
    Vsock(VsockConfigView),
    Net(NetConfigView),
    Fs(FsConfigView),
    Gpu(GpuConfig),
    Input(InputConfig),
}

impl View for VirtioDeviceConfig {
    type V = VirtioDeviceConfigView;

    open spec fn view(&self) -> VirtioDeviceConfigView {
        match *self {
            VirtioDeviceConfig::Blk(c) => VirtioDeviceConfigView::Blk(c@),
            VirtioDeviceConfig::Rng => VirtioDeviceConfigView::Rng,
            VirtioDeviceConfig::Serial(c) => VirtioDeviceConfigView::Serial(c@),
            VirtioDeviceConfig::Vsock(c) => VirtioDeviceConfigView::Vsock(c@),
            VirtioDeviceConfig::Net(c) => VirtioDeviceConfigView::Net(c@),
            VirtioDeviceConfig::Fs(c) => VirtioDeviceConfigView::Fs(c@),
            VirtioDeviceConfig::Gpu(c) => VirtioDeviceConfigView::Gpu(c),
            VirtioDeviceConfig::Input(c) => VirtioDeviceConfigView::Input(c),
        }
    }
}

/// The label of a device specification: what stands before its first comma.
pub open spec fn device_label(s: Seq<char>) -> Seq<char> {
    s.subrange(0, index_of(s, ',') as int)
}

/// Whether a device specification holds arguments, that is a comma.
pub open spec fn has_arguments(s: Seq<char>) -> bool {
    index_of(s, ',') < s.len()
}

/// The arguments of a device specification: what stands after its first comma.
pub open spec fn device_rest(s: Seq<char>) -> Seq<char> {
    if has_arguments(s) {
        s.subrange(index_of(s, ',') as int + 1, s.len() as int)
    } else {
        Seq::empty()
    }
}

/// The virtio-rng device that a device specification stands for: it takes no argument.
pub open spec fn rng_spec(s: Seq<char>) -> Result<VirtioDeviceConfigView, ErrorView> {
    if !has_arguments(s) {
        Ok(VirtioDeviceConfigView::Rng)
    } else {
        match parse_spec(device_rest(s)) {
            Err(e) => Err(e),
            Ok(p) => match unknown_spec(p, "virtio-rng"@) {
                Err(e) => Err(e),
                Ok(_) => Ok(VirtioDeviceConfigView::Rng),
            },
        }
    }
}

/// The device that a device specification stands for, given the octets read from the
/// `mac` argument of a network device. The label selects the kind, by exact match.
pub open spec fn device_spec(s: Seq<char>, mac: Option<Seq<u8>>) -> Result<
    VirtioDeviceConfigView,
    ErrorView,
> {
    let label = device_label(s);
    let rest = device_rest(s);
    if s.len() == 0 {
        Err(ErrorView::NoDeviceConfig)
    } else if label == "virtio-blk"@ {
        match blk_spec(rest) {
            Ok(c) => Ok(VirtioDeviceConfigView::Blk(c)),
            Err(e) => Err(e),
        }
    } else if label == "virtio-rng"@ {
        rng_spec(s)
    } else if label == "virtio-serial"@ {
        match serial_spec(rest) {
            Ok(c) => Ok(VirtioDeviceConfigView::Serial(c)),
            Err(e) => Err(e),
        }
    } else if label == "virtio-vsock"@ {
        match vsock_spec(rest) {
            Ok(c) => Ok(VirtioDeviceConfigView::Vsock(c)),
            Err(e) => Err(e),
        }
    } else if label == "virtio-net"@ {
        match net_spec(rest, mac) {
            Ok(c) => Ok(VirtioDeviceConfigView::Net(c)),
            Err(e) => Err(e),
        }
    } else if label == "virtio-fs"@ {
        match fs_spec(rest) {
            Ok(c) => Ok(VirtioDeviceConfigView::Fs(c)),
            Err(e) => Err(e),
        }
    } else if label == "virtio-gpu"@ {
        match gpu_spec(rest) {
            Ok(c) => Ok(VirtioDeviceConfigView::Gpu(c)),
            Err(e) => Err(e),
        }
    } else if label == "virtio-input"@ {
        match input_spec(rest) {
            Ok(c) => Ok(VirtioDeviceConfigView::Input(c)),
            Err(e) => Err(e),
        }
    } else {
        Err(ErrorView::UnsupportedDevice { label })
    }
}

impl VirtioDeviceConfig {
    /// The invariant of a device that was built from a specification: that of its
    /// kind, where the kind has one.
    pub open spec fn wf(&self) -> bool {
        match *self {
            VirtioDeviceConfig::Net(c) => c.wf(),
            _ => true,
        }
    }

    /// Builds a device from its specification: a label, then the device's arguments
    /// after a comma.
    pub fn from_str(s: &str) -> (r: Result<Self, Error>)
        ensures
            built_as(r, device_spec(s@, mac_of(device_rest(s@)))),
            r matches Ok(c) ==> c.wf(),
    {
        let n = s.unicode_len();
        if n == 0 {
            return Err(Error::NoDeviceConfig);
        }
        let comma = find_char(s, ',', 0);
        let label = s.substring_char(0, comma);
        let rest = if comma < n {
            s.substring_char(comma + 1, n)
        } else {
            ""
        };
        proof {
            reveal_strlit("");
            assert(rest@ =~= device_rest(s@));
            assert(label@ == device_label(s@));
        }
        if str_eq(label, "virtio-blk") {
            Ok(VirtioDeviceConfig::Blk(BlkConfig::from_str(rest)?))
        } else if str_eq(label, "virtio-rng") {
            if comma < n {
                let args = parse_args(String::from_str(rest))?;
                check_unknown_args(args, "virtio-rng")?;
            }
            Ok(VirtioDeviceConfig::Rng)
        } else if str_eq(label, "virtio-serial") {
            Ok(VirtioDeviceConfig::Serial(SerialConfig::from_str(rest)?))
        } else if str_eq(label, "virtio-vsock") {
            Ok(VirtioDeviceConfig::Vsock(VsockConfig::from_str(rest)?))
        } else if str_eq(label, "virtio-net") {
            Ok(VirtioDeviceConfig::Net(NetConfig::from_str(rest)?))
        } else if str_eq(label, "virtio-fs") {
            Ok(VirtioDeviceConfig::Fs(FsConfig::from_str(rest)?))
        } else if str_eq(label, "virtio-gpu") {
            Ok(VirtioDeviceConfig::Gpu(GpuConfig::from_str(rest)?))
        } else if str_eq(label, "virtio-input") {
            Ok(VirtioDeviceConfig::Input(InputConfig::from_str(rest)?))
        } else {
            Err(Error::UnsupportedDevice { label: String::from_str(label) })
        }
    }
}

/// A block device holds what its arguments say: the path as given, and the format as
/// given, raw only where none was given or `raw` was.
pub proof fn lemma_blk_fields(p: Seq<(Seq<char>, Seq<char>)>)
    requires
        blk_args_spec(p) is Ok,
    ensures
        lookup(p, "path"@) == Some(blk_args_spec(p)->Ok_0.path),
        lookup(p, "format"@) is None ==> blk_args_spec(p)->Ok_0.format == DiskImageFormat::Raw,
        lookup(p, "format"@) is Some ==> disk_format_spec(lookup(p, "format"@)->0) == Ok::<
            DiskImageFormat,
            ErrorView,
        >(blk_args_spec(p)->Ok_0.format),
{
    lemma_required_present(p, "virtio-blk"@, seq!["path"@], 0);
}

/// A serial console holds the path that its arguments give.
pub proof fn lemma_serial_fields(p: Seq<(Seq<char>, Seq<char>)>)
    requires
        serial_args_spec(p) is Ok,
    ensures
        lookup(p, "logFilePath"@) == Some(serial_args_spec(p)->Ok_0.log_file_path),
{
    lemma_required_present(p, "virtio-serial"@, seq!["logFilePath"@], 0);
}

/// A vsock device holds what its arguments say: the port is the number written, the
/// socket path is as given, and the action is to listen.
pub proof fn lemma_vsock_fields(p: Seq<(Seq<char>, Seq<char>)>)
    requires
        vsock_args_spec(p) is Ok,
    ensures
        lookup(p, "port"@) is Some,
        parse_unsigned(lookup(p, "port"@)->0, u32::MAX as nat) == Some(
            vsock_args_spec(p)->Ok_0.port as nat,
        ),
        lookup(p, "socketURL"@) == Some(vsock_args_spec(p)->Ok_0.socket_url),
        vsock_args_spec(p)->Ok_0.action == VsockAction::Listen,
{
    lemma_required_present(p, "virtio-vsock"@, seq!["port"@, "socketURL"@], 0);
    lemma_required_present(p, "virtio-vsock"@, seq!["port"@, "socketURL"@], 1);
}

/// A filesystem share holds the directory and the tag that its arguments give.
pub proof fn lemma_fs_fields(p: Seq<(Seq<char>, Seq<char>)>)
    requires
        fs_args_spec(p) is Ok,
    ensures
        lookup(p, "sharedDir"@) == Some(fs_args_spec(p)->Ok_0.shared_dir),
        lookup(p, "mountTag"@) == Some(fs_args_spec(p)->Ok_0.mount_tag),
{
    lemma_required_present(p, "virtio-fs"@, seq!["sharedDir"@, "mountTag"@], 0);
    lemma_required_present(p, "virtio-fs"@, seq!["sharedDir"@, "mountTag"@], 1);
}

/// A graphics adapter holds the numbers that its arguments write.
pub proof fn lemma_gpu_fields(p: Seq<(Seq<char>, Seq<char>)>)
    requires
        gpu_args_spec(p) is Ok,
    ensures
        lookup(p, "width"@) is Some,
        lookup(p, "height"@) is Some,
        parse_unsigned(lookup(p, "width"@)->0, u32::MAX as nat) == Some(
            gpu_args_spec(p)->Ok_0.width as nat,
        ),
        parse_unsigned(lookup(p, "height"@)->0, u32::MAX as nat) == Some(
            gpu_args_spec(p)->Ok_0.height as nat,
        ),
{
    lemma_required_present(p, "virtio-gpu"@, seq!["height"@, "width"@], 0);
    lemma_required_present(p, "virtio-gpu"@, seq!["height"@, "width"@], 1);
}

/// A network device holds what its arguments say. With `unixSocketPath` it is a
/// datagram socket at that path, with offloading and the magic handshake. With `type`
/// its path is the one given, its descriptor the number written, and offloading and
/// the magic handshake are off unless asked for. Path and descriptor are never both
/// set, and the magic handshake is set for a datagram socket only.
pub proof fn lemma_net_fields(p: Seq<(Seq<char>, Seq<char>)>, mac: Option<Seq<u8>>)
    requires
        crate::cmdline::distinct_keys(p),
        net_args_spec(p, mac) is Ok,
    ensures
        mac == Some(net_args_spec(p, mac)->Ok_0.mac_address),
        lookup(p, "type"@) is None ==> lookup(p, "unixSocketPath"@) is Some && net_args_spec(
            p,
            mac,
        )->Ok_0.socket_config == legacy_socket(lookup(p, "unixSocketPath"@)->0) && net_args_spec(
            p,
            mac,
        )->Ok_0.socket_type == SocketType::UnixGram,
        lookup(p, "type"@) is Some ==> {
            let c = net_args_spec(p, mac)->Ok_0;
            &&& c.socket_config.path == lookup(p, "path"@)
            &&& (lookup(p, "fd"@) is None ==> c.socket_config.fd is None)
            &&& (lookup(p, "fd"@) is Some ==> c.socket_config.fd is Some && parse_i32(
                lookup(p, "fd"@)->0,
            ) == Some(c.socket_config.fd->0 as int))
            &&& c.socket_config.offloading == flag_or_false(lookup(p, "offloading"@))
            &&& c.socket_config.send_vfkit_magic == flag_or_false(lookup(p, "vfkitMagic"@))
            &&& (lookup(p, "type"@) == Some("unixgram"@) <==> c.socket_type
                == SocketType::UnixGram)
        },
        !(net_args_spec(p, mac)->Ok_0.socket_config.path is Some && net_args_spec(
            p,
            mac,
        )->Ok_0.socket_config.fd is Some),
        net_args_spec(p, mac)->Ok_0.socket_config.send_vfkit_magic ==> net_args_spec(
            p,
            mac,
        )->Ok_0.socket_type == SocketType::UnixGram,
{
    lemma_key_names();
    let p1 = without_key(p, "unixSocketPath"@);
    crate::cmdline::lemma_without_key(p, "unixSocketPath"@);
    crate::cmdline::lemma_without_key(p1, "type"@);
}

/// The exclusive arguments of a network device: `unixSocketPath` together with `type`
/// fails; under `type`, `path` together with `fd` fails; `vfkitMagic` under a `type`
/// other than `unixgram` fails.
pub proof fn lemma_net_exclusive(p: Seq<(Seq<char>, Seq<char>)>, mac: Option<Seq<u8>>)
    requires
        crate::cmdline::distinct_keys(p),
    ensures
        lookup(p, "unixSocketPath"@) is Some && lookup(p, "type"@) is Some ==> net_args_spec(
            p,
            mac,
        ) == Err::<NetConfigView, ErrorView>(ErrorView::NetTypeConflict),
        lookup(p, "type"@) is Some && lookup(p, "path"@) is Some && lookup(p, "fd"@) is Some
            ==> net_args_spec(p, mac) is Err,
        lookup(p, "type"@) is Some && lookup(p, "type"@) != Some("unixgram"@) && lookup(
            p,
            "vfkitMagic"@,
        ) is Some ==> net_args_spec(p, mac) is Err,
{
    lemma_key_names();
    let p1 = without_key(p, "unixSocketPath"@);
    crate::cmdline::lemma_without_key(p, "unixSocketPath"@);
    crate::cmdline::lemma_without_key(p1, "type"@);
}

/// A device specification made of a label without a comma, a comma and arguments has
/// that label and those arguments.
pub proof fn lemma_device_parts(label: Seq<char>, rest: Seq<char>)
    requires
        !label.contains(','),
    ensures
        device_label(label + seq![','] + rest) == label,
        has_arguments(label + seq![','] + rest),
        device_rest(label + seq![','] + rest) == rest,
{
    let s = label + seq![','] + rest;
    crate::text::lemma_index_from(s, ',', 0);
    let r = index_of(s, ',') as int;
    assert(s[label.len() as int] == ',');
    if r < label.len() {
        assert(s[r] == label[r]);
        assert(label.contains(label[r]));
    }
    assert(s.subrange(0, r) =~= label);
    assert(s.subrange(r + 1, s.len() as int) =~= rest);
}

/// The labels of the devices differ from each other.
pub proof fn lemma_device_labels()
    ensures
        "virtio-blk"@ != "virtio-rng"@,
        "virtio-blk"@ != "virtio-serial"@,
        "virtio-blk"@ != "virtio-vsock"@,
        "virtio-blk"@ != "virtio-net"@,
        "virtio-blk"@ != "virtio-fs"@,
        "virtio-blk"@ != "virtio-gpu"@,
        "virtio-blk"@ != "virtio-input"@,
        "virtio-rng"@ != "virtio-serial"@,
        "virtio-rng"@ != "virtio-vsock"@,
        "virtio-rng"@ != "virtio-net"@,
        "virtio-rng"@ != "virtio-fs"@,
        "virtio-rng"@ != "virtio-gpu"@,
        "virtio-rng"@ != "virtio-input"@,
        "virtio-serial"@ != "virtio-vsock"@,
        "virtio-serial"@ != "virtio-net"@,
        "virtio-serial"@ != "virtio-fs"@,
        "virtio-serial"@ != "virtio-gpu"@,
        "virtio-serial"@ != "virtio-input"@,
        "virtio-vsock"@ != "virtio-net"@,
        "virtio-vsock"@ != "virtio-fs"@,
        "virtio-vsock"@ != "virtio-gpu"@,
        "virtio-vsock"@ != "virtio-input"@,
        "virtio-net"@ != "virtio-fs"@,
        "virtio-net"@ != "virtio-gpu"@,
        "virtio-net"@ != "virtio-input"@,
        "virtio-fs"@ != "virtio-gpu"@,
        "virtio-fs"@ != "virtio-input"@,
        "virtio-gpu"@ != "virtio-input"@,
        !"virtio-blk"@.contains(','),
        !"virtio-rng"@.contains(','),
        !"virtio-serial"@.contains(','),
        !"virtio-vsock"@.contains(','),
        !"virtio-net"@.contains(','),
        !"virtio-fs"@.contains(','),
        !"virtio-gpu"@.contains(','),
        !"virtio-input"@.contains(','),
{
    reveal_strlit("virtio-blk");
    reveal_strlit("virtio-rng");
    reveal_strlit("virtio-serial");
    reveal_strlit("virtio-vsock");
    reveal_strlit("virtio-net");
    reveal_strlit("virtio-fs");
    reveal_strlit("virtio-gpu");
    reveal_strlit("virtio-input");
    assert("virtio-blk"@[7] == 'b');
    assert("virtio-rng"@[7] == 'r');
    assert("virtio-net"@[7] == 'n');
    assert("virtio-gpu"@[7] == 'g');
    assert("virtio-vsock"@[7] == 'v');
    assert("virtio-input"@[7] == 'i');
    assert("virtio-serial"@.len() == 13);
    assert("virtio-fs"@.len() == 9);
    assert("virtio-blk"@.len() == 10);
    assert("virtio-rng"@.len() == 10);
    assert("virtio-net"@.len() == 10);
    assert("virtio-gpu"@.len() == 10);
    assert("virtio-vsock"@.len() == 12);
    assert("virtio-input"@.len() == 12);
    assert forall|j: int| 0 <= j < 10 implies "virtio-blk"@[j] != ',' by {}
    assert forall|j: int| 0 <= j < 10 implies "virtio-rng"@[j] != ',' by {}
    assert forall|j: int| 0 <= j < 13 implies "virtio-serial"@[j] != ',' by {}
    assert forall|j: int| 0 <= j < 12 implies "virtio-vsock"@[j] != ',' by {}
    assert forall|j: int| 0 <= j < 10 implies "virtio-net"@[j] != ',' by {}
    assert forall|j: int| 0 <= j < 9 implies "virtio-fs"@[j] != ',' by {}
    assert forall|j: int| 0 <= j < 10 implies "virtio-gpu"@[j] != ',' by {}
    assert forall|j: int| 0 <= j < 12 implies "virtio-input"@[j] != ',' by {}
}

/// A block device that is given its path and no format is a raw disk at that path,
/// where the path holds neither a comma nor `=`.
pub proof fn lemma_blk_without_format(path: Seq<char>, mac: Option<Seq<u8>>)
    requires
        !path.contains(','),
        !path.contains('='),
    ensures
        device_spec("virtio-blk,path="@ + path, mac) == Ok::<VirtioDeviceConfigView, ErrorView>(
            VirtioDeviceConfigView::Blk(BlkConfigView { path, format: DiskImageFormat::Raw }),
        ),
{
    reveal_strlit("virtio-blk,path=");
    reveal_strlit("virtio-blk");
    reveal_strlit("path");
    let s = "virtio-blk,path="@ + path;
    let rest = "path"@ + seq!['='] + path;
    assert("virtio-blk,path="@ =~= "virtio-blk"@ + seq![','] + "path"@ + seq!['=']);
    assert(s =~= "virtio-blk"@ + seq![','] + rest);
    assert forall|j: int| 0 <= j < 4 implies "path"@[j] != '=' && "path"@[j] != ',' by {}
    lemma_device_labels();
    lemma_device_parts("virtio-blk"@, rest);
    lemma_key_names();
    crate::cmdline::lemma_parse_one("path"@, path);
    let p = seq![("path"@, path)];
    crate::cmdline::lemma_key_index_from(p, "path"@, 0);
    crate::cmdline::lemma_key_index_from(p, "format"@, 0);
    assert(p[0].0 == "path"@);
    assert(crate::cmdline::key_index(p, "path"@) == 0);
    assert(crate::cmdline::key_index(p, "format"@) == 1);
    crate::cmdline::lemma_first_missing_from(p, seq!["path"@], 0);
    assert(seq!["path"@][0] == "path"@);
    let p1 = without_key(p, "path"@);
    assert(p1 =~= Seq::<(Seq<char>, Seq<char>)>::empty());
    crate::cmdline::lemma_key_index_from(p1, "format"@, 0);
    assert(blk_rest(p) =~= Seq::<(Seq<char>, Seq<char>)>::empty());
}

} // verus!
