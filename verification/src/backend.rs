//! What is asked of the virtual machine backend for each device: the calls, their
//! parameters and their order, and the error that each failure stands for.

use crate::text::decimal_digits;
use crate::text::decimal_string;
use crate::text::has_char;
use crate::virtio::format_code;
use crate::virtio::BlkConfig;
use crate::virtio::FsConfig;
use crate::virtio::NetConfig;
use crate::virtio::SerialConfig;
use crate::virtio::SocketType;
use crate::virtio::VirtioDeviceConfig;
use crate::virtio::VsockConfig;
use vstd::prelude::*;

verus! {

/// The checksum offload of the host.
pub const NET_FEATURE_CSUM: u32 = 0x1;

/// The checksum offload of the guest.
pub const NET_FEATURE_GUEST_CSUM: u32 = 0x2;

/// TCP segmentation offload of the guest, IPv4.
pub const NET_FEATURE_GUEST_TSO4: u32 = 0x80;

/// TCP segmentation offload of the guest, IPv6.
pub const NET_FEATURE_GUEST_TSO6: u32 = 0x100;

/// UDP fragmentation offload of the guest.
pub const NET_FEATURE_GUEST_UFO: u32 = 0x400;

/// TCP segmentation offload of the host, IPv4.
pub const NET_FEATURE_HOST_TSO4: u32 = 0x800;

/// TCP segmentation offload of the host, IPv6.
pub const NET_FEATURE_HOST_TSO6: u32 = 0x1000;

/// UDP fragmentation offload of the host.
pub const NET_FEATURE_HOST_UFO: u32 = 0x4000;

/// The features of a network device with offloading: both checksum offloads, the IPv4
/// segmentation offloads and the UDP fragmentation offloads.
pub const COMPAT_NET_FEATURES: u32 = 0x4c83;

/// The flag that asks for the vfkit magic to be sent once the connection stands.
pub const NET_FLAG_VFKIT: u32 = 0x1;

/// The features of a network device with offloading are the six that it names.
pub proof fn lemma_compat_net_features()
    ensures
        COMPAT_NET_FEATURES == NET_FEATURE_CSUM | NET_FEATURE_GUEST_CSUM | NET_FEATURE_GUEST_TSO4
            | NET_FEATURE_GUEST_UFO | NET_FEATURE_HOST_TSO4 | NET_FEATURE_HOST_UFO,
{
    assert(0x4c83u32 == 0x1u32 | 0x2u32 | 0x80u32 | 0x400u32 | 0x800u32 | 0x4000u32)
        by (bit_vector);
}

/// One call of the backend, with its parameters. The handle of the virtual machine is
/// not part of it: whoever makes the call supplies it.
#[derive(Clone, Debug, PartialEq)]
pub enum BackendCall {
    /// Adds a disk under the name `block_id`.
    AddDisk { block_id: String, path: String, format: u32, read_only: bool },
    /// Sends the console output to a file.
    SetConsoleOutput { path: String },
    /// Maps a port of the guest to a socket of the host.
    AddVsockPort { port: u32, path: String },
    /// Adds a network device behind a Unix datagram socket. An empty path stands for
    /// no path, the descriptor -1 for no descriptor.
    AddNetUnixgram { path: String, fd: i32, mac: [u8; 6], features: u32, flags: u32 },
    /// Adds a network device behind a Unix stream socket.
    AddNetUnixstream { path: String, fd: i32, mac: [u8; 6], features: u32, flags: u32 },
    /// Sets the hardware address of the network device.
    SetNetMac { mac: [u8; 6] },
    /// Shares a directory of the host under a tag.
    AddVirtiofs { tag: String, path: String },
}

/// The mathematical value of a [`BackendCall`].
pub enum BackendCallView {
    AddDisk { block_id: Seq<char>, path: Seq<char>, format: u32, read_only: bool },
    SetConsoleOutput { path: Seq<char> },
    AddVsockPort { port: u32, path: Seq<char> },
    AddNetUnixgram { path: Seq<char>, fd: i32, mac: Seq<u8>, features: u32, flags: u32 },
    AddNetUnixstream { path: Seq<char>, fd: i32, mac: Seq<u8>, features: u32, flags: u32 },
    SetNetMac { mac: Seq<u8> },
    AddVirtiofs { tag: Seq<char>, path: Seq<char> },
}

impl View for BackendCall {
    type V = BackendCallView;

    open spec fn view(&self) -> BackendCallView {
        match *self {
            BackendCall::AddDisk { block_id, path, format, read_only } => BackendCallView::AddDisk {
                block_id: block_id@,
                path: path@,
                format,
                read_only,
            },
            BackendCall::SetConsoleOutput { path } => BackendCallView::SetConsoleOutput {
                path: path@,
            },
            BackendCall::AddVsockPort { port, path } => BackendCallView::AddVsockPort {
                port,
                path: path@,
            },
            BackendCall::AddNetUnixgram {
                path,
                fd,
                mac,
                features,
                flags,
            } => BackendCallView::AddNetUnixgram { path: path@, fd, mac: mac@, features, flags },
            BackendCall::AddNetUnixstream {
                path,
                fd,
                mac,
                features,
                flags,
            } => BackendCallView::AddNetUnixstream { path: path@, fd, mac: mac@, features, flags },
            BackendCall::SetNetMac { mac } => BackendCallView::SetNetMac { mac: mac@ },
            BackendCall::AddVirtiofs { tag, path } => BackendCallView::AddVirtiofs {
                tag: tag@,
                path: path@,
            },
        }
    }
}

/// Why a device could not be applied to the virtual machine.
#[derive(Clone, Debug, PartialEq)]
pub enum ApplyError {
    /// Both disk roles, root and secondary, were assigned before this disk.
    RoleExhausted { path: String },
    /// The name of a disk holds a NUL character.
    BlockIdNotCString,
    /// A path holds a NUL character.
    PathNotCString { path: String },
    /// The backend answered the call with a negative number.
    Rejected { call: BackendCall },
}

/// The mathematical value of an [`ApplyError`].
pub enum ApplyErrorView {
    RoleExhausted { path: Seq<char> },
    BlockIdNotCString,
    PathNotCString { path: Seq<char> },
    Rejected { call: BackendCallView },
}

impl View for ApplyError {
    type V = ApplyErrorView;

    open spec fn view(&self) -> ApplyErrorView {
        match *self {
            ApplyError::RoleExhausted { path } => ApplyErrorView::RoleExhausted { path: path@ },
            ApplyError::BlockIdNotCString => ApplyErrorView::BlockIdNotCString,
            ApplyError::PathNotCString { path } => ApplyErrorView::PathNotCString { path: path@ },
            ApplyError::Rejected { call } => ApplyErrorView::Rejected { call: call@ },
        }
    }
}

/// The upper-case hexadecimal digit for a number below sixteen.
pub open spec fn hex_digit(d: nat) -> char {
    if d < 10 {
        crate::text::digit_char(d)
    } else if d == 10 {
        'A'
    } else if d == 11 {
        'B'
    } else if d == 12 {
        'C'
    } else if d == 13 {
        'D'
    } else if d == 14 {
        'E'
    } else {
        'F'
    }
}

/// An octet as two upper-case hexadecimal digits.
pub open spec fn hex_octet(b: u8) -> Seq<char> {
    seq![hex_digit(b as nat / 16), hex_digit(b as nat % 16)]
}

/// The text of a hardware address of six octets: each octet as two upper-case
/// hexadecimal digits, with colons between them.
pub open spec fn mac_address_text(mac: Seq<u8>) -> Seq<char> {
    hex_octet(mac[0]) + seq![':'] + hex_octet(mac[1]) + seq![':'] + hex_octet(mac[2]) + seq![':']
        + hex_octet(mac[3]) + seq![':'] + hex_octet(mac[4]) + seq![':'] + hex_octet(mac[5])
}

/// Writes a hardware address as `mac_address::MacAddress` displays it: that type
/// formats each of its six octets with `{:<02X}`, that is as two upper-case
/// hexadecimal digits, and puts colons between them.
#[verifier::external_body]
fn mac_text(mac: &[u8; 6]) -> (r: String)
    ensures
        r@ == mac_address_text(mac@),
{
    mac_address::MacAddress::new(*mac).to_string()
}

/// The text that describes the rejection of a call, given the text of a hardware
/// address.
pub open spec fn rejection_message(call: BackendCallView, mac: Seq<char>) -> Seq<char> {
    match call {
        BackendCallView::AddDisk { path, .. } => "unable to set virtio-blk disk for "@ + path,
        BackendCallView::SetConsoleOutput { .. } =>
            "unable to set krun console output redirection to virtio-serial log file"@,
        BackendCallView::AddVsockPort { port, path } => "unable to add vsock port "@
            + decimal_digits(port as nat) + " for path "@ + path,
        BackendCallView::AddNetUnixgram { .. } =>
            "virtio-net unable to add device with unix datagram backend"@,
        BackendCallView::AddNetUnixstream { .. } =>
            "virtio-net unable to add device with unix stream backend"@,
        BackendCallView::SetNetMac { .. } => "unable to set net MAC address "@ + mac,
        BackendCallView::AddVirtiofs { tag, path } => "unable to add virtiofs shared directory "@
            + path + " with mount tag "@ + tag,
    }
}

/// The text of the hardware address that a call names, empty for a call that names
/// none.
pub open spec fn call_mac_text(call: BackendCallView) -> Seq<char> {
    match call {
        BackendCallView::SetNetMac { mac } => mac_address_text(mac),
        _ => Seq::empty(),
    }
}

/// The text that describes an error of applying a device.
pub open spec fn apply_message_of(e: ApplyErrorView) -> Seq<char> {
    match e {
        ApplyErrorView::RoleExhausted { path } => "no disk role is left for virtio-blk disk "@
            + path,
        ApplyErrorView::BlockIdNotCString => "can't convert basename to cstring"@,
        ApplyErrorView::PathNotCString { path } => "unable to convert path "@ + path
            + " into NULL-terminated C string"@,
        ApplyErrorView::Rejected { call } => rejection_message(call, call_mac_text(call)),
    }
}

impl BackendCall {
    /// The text that describes the rejection of this call; `mac` is the text of the
    /// hardware address, which only the call that sets the address shows.
    pub fn rejection_text(&self, mac: &str) -> (r: String)
        ensures
            r@ == rejection_message(self@, mac@),
    {
        match self {
            BackendCall::AddDisk { path, .. } => {
                let mut s = String::from_str("unable to set virtio-blk disk for ");
                s.append(path.as_str());
                s
            },
            BackendCall::SetConsoleOutput { .. } => String::from_str(
                "unable to set krun console output redirection to virtio-serial log file",
            ),
            BackendCall::AddVsockPort { port, path } => {
                let mut s = String::from_str("unable to add vsock port ");
                let digits = decimal_string(*port as u128);
                s.append(digits.as_str());
                s.append(" for path ");
                s.append(path.as_str());
                s
            },
            BackendCall::AddNetUnixgram { .. } => String::from_str(
                "virtio-net unable to add device with unix datagram backend",
            ),
            BackendCall::AddNetUnixstream { .. } => String::from_str(
                "virtio-net unable to add device with unix stream backend",
            ),
            BackendCall::SetNetMac { .. } => {
                let mut s = String::from_str("unable to set net MAC address ");
                s.append(mac);
                s
            },
            BackendCall::AddVirtiofs { tag, path } => {
                let mut s = String::from_str("unable to add virtiofs shared directory ");
                s.append(path.as_str());
                s.append(" with mount tag ");
                s.append(tag.as_str());
                s
            },
        }
    }
}

impl ApplyError {
    /// The text that describes the error to the user.
    pub fn message(&self) -> (r: String)
        ensures
            r@ == apply_message_of(self@),
    {
        match self {
            ApplyError::RoleExhausted { path } => {
                let mut s = String::from_str("no disk role is left for virtio-blk disk ");
                s.append(path.as_str());
                s
            },
            ApplyError::BlockIdNotCString => String::from_str("can't convert basename to cstring"),
            ApplyError::PathNotCString { path } => {
                let mut s = String::from_str("unable to convert path ");
                s.append(path.as_str());
                s.append(" into NULL-terminated C string");
                s
            },
            ApplyError::Rejected { call } => {
                let mac = match call {
                    BackendCall::SetNetMac { mac } => mac_text(mac),
                    _ => String::new(),
                };
                call.rejection_text(mac.as_str())
            },
        }
    }
}

/// The views of a sequence of calls.
pub open spec fn call_views(v: Seq<BackendCall>) -> Seq<BackendCallView> {
    v.map_values(|c: BackendCall| c@)
}

/// Whether a planned list of calls stands for the given calls or error.
pub open spec fn planned_as(
    r: Result<Vec<BackendCall>, ApplyError>,
    model: Result<Seq<BackendCallView>, ApplyErrorView>,
) -> bool {
    match model {
        Ok(calls) => r matches Ok(v) && call_views(v@) == calls,
        Err(e) => r matches Err(x) && x@ == e,
    }
}

/// A path as the backend takes it: the error where it holds a NUL character.
pub open spec fn c_path(path: Seq<char>) -> Result<Seq<char>, ApplyErrorView> {
    if path.contains('\0') {
        Err(ApplyErrorView::PathNotCString { path })
    } else {
        Ok(path)
    }
}

/// Checks that a path can be handed to the backend, and copies it.
pub fn path_to_cstring(path: &str) -> (r: Result<String, ApplyError>)
    ensures
        match c_path(path@) {
            Ok(p) => r matches Ok(s) && s@ == p,
            Err(e) => r matches Err(x) && x@ == e,
        },
{
    if has_char(path, '\0') {
        Err(ApplyError::PathNotCString { path: String::from_str(path) })
    } else {
        Ok(String::from_str(path))
    }
}

/// How a device configures itself in the backend: the calls to make, in order.
pub trait KrunContextSet {
    /// The calls by which the device is configured, or the reason why it cannot be.
    spec fn calls_spec(&self) -> Result<Seq<BackendCallView>, ApplyErrorView>;

    /// Plans the calls by which the device is configured.
    fn krun_ctx_set(&self) -> (r: Result<Vec<BackendCall>, ApplyError>)
        ensures
            planned_as(r, self.calls_spec()),
    ;
}

/// The final component of a path as `std::path::Path::file_name` gives it, or `None`
/// where the path has none.
pub uninterp spec fn path_file_name(path: Seq<char>) -> Option<Seq<char>>;

/// Takes the final component of a path with `std::path::Path::file_name`. Nothing is
/// claimed of which part that is: the result is the named value `path_file_name`.
#[verifier::external_body]
fn file_name_of(path: &str) -> (r: Option<String>)
    ensures
        match r {
            Some(n) => path_file_name(path@) == Some(n@),
            None => path_file_name(path@) is None,
        },
{
    match std::path::Path::new(path).file_name() {
        Some(n) => Some(n.to_string_lossy().into_owned()),
        None => None,
    }
}

/// The name under which a disk is added: the final component of its path, `disk` where
/// there is none.
pub open spec fn block_id_spec(file_name: Option<Seq<char>>) -> Seq<char> {
    match file_name {
        Some(n) => n,
        None => "disk"@,
    }
}

/// The call that adds a disk, given the final component of its path.
pub open spec fn add_disk_spec(
    path: Seq<char>,
    format: u32,
    file_name: Option<Seq<char>>,
) -> Result<BackendCallView, ApplyErrorView> {
    if block_id_spec(file_name).contains('\0') {
        Err(ApplyErrorView::BlockIdNotCString)
    } else if c_path(path) is Err {
        Err(c_path(path)->Err_0)
    } else {
        Ok(
            BackendCallView::AddDisk {
                block_id: block_id_spec(file_name),
                path,
                format,
                read_only: false,
            },
        )
    }
}

impl BlkConfig {
    /// The call that adds this disk, given the final component of its path.
    pub fn add_disk_call(&self, file_name: Option<String>) -> (r: Result<BackendCall, ApplyError>)
        ensures
            match add_disk_spec(
                self.path@,
                format_code(self.format),
                match file_name {
                    Some(n) => Some(n@),
                    None => None,
                },
            ) {
                Ok(c) => r matches Ok(x) && x@ == c,
                Err(e) => r matches Err(x) && x@ == e,
            },
    {
        let block_id = match file_name {
            Some(n) => n,
            None => String::from_str("disk"),
        };
        if has_char(block_id.as_str(), '\0') {
            return Err(ApplyError::BlockIdNotCString);
        }
        let path = path_to_cstring(self.path.as_str())?;
        Ok(BackendCall::AddDisk { block_id, path, format: self.format.code(), read_only: false })
    }
}

impl KrunContextSet for BlkConfig {
    open spec fn calls_spec(&self) -> Result<Seq<BackendCallView>, ApplyErrorView> {
        match add_disk_spec(self.path@, format_code(self.format), path_file_name(self.path@)) {
            Ok(c) => Ok(seq![c]),
            Err(e) => Err(e),
        }
    }

    fn krun_ctx_set(&self) -> (r: Result<Vec<BackendCall>, ApplyError>) {
        let call = self.add_disk_call(file_name_of(self.path.as_str()))?;
        let mut calls: Vec<BackendCall> = Vec::new();
        calls.push(call);
        proof {
            assert(call_views(calls@) =~= seq![call@]);
        }
        Ok(calls)
    }
}

impl KrunContextSet for SerialConfig {
    open spec fn calls_spec(&self) -> Result<Seq<BackendCallView>, ApplyErrorView> {
        match c_path(self.log_file_path@) {
            Ok(path) => Ok(seq![BackendCallView::SetConsoleOutput { path }]),
            Err(e) => Err(e),
        }
    }

    fn krun_ctx_set(&self) -> (r: Result<Vec<BackendCall>, ApplyError>) {
        let path = path_to_cstring(self.log_file_path.as_str())?;
        let call = BackendCall::SetConsoleOutput { path };
        let mut calls: Vec<BackendCall> = Vec::new();
        calls.push(call);
        proof {
            assert(call_views(calls@) =~= seq![call@]);
        }
        Ok(calls)
    }
}

impl KrunContextSet for VsockConfig {
    open spec fn calls_spec(&self) -> Result<Seq<BackendCallView>, ApplyErrorView> {
        match c_path(self.socket_url@) {
            Ok(path) => Ok(seq![BackendCallView::AddVsockPort { port: self.port, path }]),
            Err(e) => Err(e),
        }
    }

    fn krun_ctx_set(&self) -> (r: Result<Vec<BackendCall>, ApplyError>) {
        let path = path_to_cstring(self.socket_url.as_str())?;
        let call = BackendCall::AddVsockPort { port: self.port, path };
        let mut calls: Vec<BackendCall> = Vec::new();
        calls.push(call);
        proof {
            assert(call_views(calls@) =~= seq![call@]);
        }
        Ok(calls)
    }
}

impl KrunContextSet for FsConfig {
    open spec fn calls_spec(&self) -> Result<Seq<BackendCallView>, ApplyErrorView> {
        if c_path(self.shared_dir@) is Err {
            Err(c_path(self.shared_dir@)->Err_0)
        } else if c_path(self.mount_tag@) is Err {
            Err(c_path(self.mount_tag@)->Err_0)
        } else {
            Ok(seq![BackendCallView::AddVirtiofs { tag: self.mount_tag@, path: self.shared_dir@ }])
        }
    }

    fn krun_ctx_set(&self) -> (r: Result<Vec<BackendCall>, ApplyError>) {
        let path = path_to_cstring(self.shared_dir.as_str())?;
        let tag = path_to_cstring(self.mount_tag.as_str())?;
        let call = BackendCall::AddVirtiofs { tag, path };
        let mut calls: Vec<BackendCall> = Vec::new();
        calls.push(call);
        proof {
            assert(call_views(calls@) =~= seq![call@]);
        }
        Ok(calls)
    }
}

/// The two calls of a network device: the one that adds it behind its socket, with the
/// offloading features and the magic flag that its configuration asks for, then the one
/// that sets its hardware address.
pub open spec fn net_calls_spec(c: crate::virtio::NetConfigView) -> Result<
    Seq<BackendCallView>,
    ApplyErrorView,
> {
    let path = match c.socket_config.path {
        Some(p) => p,
        None => Seq::empty(),
    };
    let fd = match c.socket_config.fd {
        Some(fd) => fd,
        None => -1i32,
    };
    let features = if c.socket_config.offloading {
        COMPAT_NET_FEATURES
    } else {
        0u32
    };
    if c_path(path) is Err {
        Err(c_path(path)->Err_0)
    } else {
        Ok(
            seq![
                match c.socket_type {
                    SocketType::UnixGram => BackendCallView::AddNetUnixgram {
                        path,
                        fd,
                        mac: c.mac_address,
                        features,
                        flags: if c.socket_config.send_vfkit_magic {
                            NET_FLAG_VFKIT
                        } else {
                            0u32
                        },
                    },
                    SocketType::UnixStream => BackendCallView::AddNetUnixstream {
                        path,
                        fd,
                        mac: c.mac_address,
                        features,
                        flags: 0u32,
                    },
                },
                BackendCallView::SetNetMac { mac: c.mac_address },
            ],
        )
    }
}

impl KrunContextSet for NetConfig {
    open spec fn calls_spec(&self) -> Result<Seq<BackendCallView>, ApplyErrorView> {
        net_calls_spec(self@)
    }

    fn krun_ctx_set(&self) -> (r: Result<Vec<BackendCall>, ApplyError>) {
        let features = if self.socket_config.offloading {
            COMPAT_NET_FEATURES
        } else {
            0
        };
        let path = match &self.socket_config.path {
            Some(p) => path_to_cstring(p.as_str())?,
            None => {
                proof {
                    reveal_strlit("");
                    assert(""@ =~= Seq::<char>::empty());
                    assert(!Seq::<char>::empty().contains('\0'));
                }
                path_to_cstring("")?
            },
        };
        let fd = match self.socket_config.fd {
            Some(fd) => fd,
            None => -1,
        };
        let add = match self.socket_type {
            SocketType::UnixGram => {
                let flags = if self.socket_config.send_vfkit_magic {
                    NET_FLAG_VFKIT
                } else {
                    0
                };
                BackendCall::AddNetUnixgram { path, fd, mac: self.mac_address, features, flags }
            },
            SocketType::UnixStream => BackendCall::AddNetUnixstream {
                path,
                fd,
                mac: self.mac_address,
                features,
                flags: 0,
            },
        };
        let set = BackendCall::SetNetMac { mac: self.mac_address };
        let mut calls: Vec<BackendCall> = Vec::new();
        calls.push(add);
        calls.push(set);
        proof {
            assert(call_views(calls@) =~= seq![add@, set@]);
        }
        Ok(calls)
    }
}

impl KrunContextSet for VirtioDeviceConfig {
    open spec fn calls_spec(&self) -> Result<Seq<BackendCallView>, ApplyErrorView> {
        match *self {
            VirtioDeviceConfig::Blk(c) => c.calls_spec(),
            VirtioDeviceConfig::Vsock(c) => c.calls_spec(),
            VirtioDeviceConfig::Net(c) => c.calls_spec(),
            VirtioDeviceConfig::Fs(c) => c.calls_spec(),
            VirtioDeviceConfig::Serial(c) => c.calls_spec(),
            _ => Ok(Seq::empty()),
        }
    }

    fn krun_ctx_set(&self) -> (r: Result<Vec<BackendCall>, ApplyError>) {
        match self {
            VirtioDeviceConfig::Blk(c) => c.krun_ctx_set(),
            VirtioDeviceConfig::Vsock(c) => c.krun_ctx_set(),
            VirtioDeviceConfig::Net(c) => c.krun_ctx_set(),
            VirtioDeviceConfig::Fs(c) => c.krun_ctx_set(),
            VirtioDeviceConfig::Serial(c) => c.krun_ctx_set(),
            _ => {
                let calls: Vec<BackendCall> = Vec::new();
                proof {
                    assert(call_views(calls@) =~= Seq::<BackendCallView>::empty());
                }
                Ok(calls)
            },
        }
    }
}

} // verus!
