//! Running Linux applications with a display and sound on the host: what the virtual
//! machine needs for it, and which applications there are.

use crate::text::decimal_digits;
use crate::text::decimal_string;
use crate::text::views;
use vstd::prelude::*;

verus! {

/// Default width of the display in pixels.
pub const DEFAULT_GPU_WIDTH: u32 = 1920;

/// Default height of the display in pixels.
pub const DEFAULT_GPU_HEIGHT: u32 = 1080;

/// Which of the display and sound features are wanted, and with what.
#[derive(Clone, Debug, PartialEq, Eq)]
pub struct WslgConfig {
    /// Whether applications get a display.
    pub gui_enabled: bool,
    /// Whether applications get sound.
    pub audio_enabled: bool,
    /// Path of the Wayland socket.
    pub wayland_socket: Option<String>,
    /// Path of the PulseAudio socket.
    pub pulseaudio_socket: Option<String>,
    /// Width of the display in pixels.
    pub gpu_width: Option<u32>,
    /// Height of the display in pixels.
    pub gpu_height: Option<u32>,
    /// Directory shared with the guest for the sockets.
    pub socket_dir: Option<String>,
}

/// The view of an optional string.
pub open spec fn option_view(s: Option<String>) -> Option<Seq<char>> {
    match s {
        Some(t) => Some(t@),
        None => None,
    }
}

/// The mathematical value of a [`WslgConfig`].
pub struct WslgConfigView {
    pub gui_enabled: bool,
    pub audio_enabled: bool,
    pub wayland_socket: Option<Seq<char>>,
    pub pulseaudio_socket: Option<Seq<char>>,
    pub gpu_width: Option<u32>,
    pub gpu_height: Option<u32>,
    pub socket_dir: Option<Seq<char>>,
}

impl View for WslgConfig {
    type V = WslgConfigView;

    open spec fn view(&self) -> WslgConfigView {
        WslgConfigView {
            gui_enabled: self.gui_enabled,
            audio_enabled: self.audio_enabled,
            wayland_socket: option_view(self.wayland_socket),
            pulseaudio_socket: option_view(self.pulseaudio_socket),
            gpu_width: self.gpu_width,
            gpu_height: self.gpu_height,
            socket_dir: option_view(self.socket_dir),
        }
    }
}

/// The configuration in which nothing is wanted.
pub open spec fn wslg_nothing() -> WslgConfigView {
    WslgConfigView {
        gui_enabled: false,
        audio_enabled: false,
        wayland_socket: None,
        pulseaudio_socket: None,
        gpu_width: None,
        gpu_height: None,
        socket_dir: None,
    }
}

impl Default for WslgConfig {
    fn default() -> (r: Self)
        ensures
            r@ == wslg_nothing(),
    {
        WslgConfig {
            gui_enabled: false,
            audio_enabled: false,
            wayland_socket: None,
            pulseaudio_socket: None,
            gpu_width: None,
            gpu_height: None,
            socket_dir: None,
        }
    }
}

/// The specification of the graphics adapter for a display of the given size.
pub open spec fn gpu_device_text(width: u32, height: u32) -> Seq<char> {
    "virtio-gpu,width="@ + decimal_digits(width as nat) + ",height="@ + decimal_digits(
        height as nat,
    )
}

/// The specification of the filesystem share for the socket directory.
pub open spec fn socket_share_text(dir: Seq<char>) -> Seq<char> {
    "virtio-fs,sharedDir="@ + dir + ",mountTag=wslg"@
}

/// The device specifications that a configuration asks for. With a display: the
/// graphics adapter, in the size given or else the default size, then a keyboard and a
/// pointing device. With a display or sound, and a socket directory: the share of that
/// directory.
pub open spec fn required_devices_spec(c: WslgConfigView) -> Seq<Seq<char>> {
    let display = if c.gui_enabled {
        seq![
            if c.gpu_width is Some && c.gpu_height is Some {
                gpu_device_text(c.gpu_width->0, c.gpu_height->0)
            } else {
                gpu_device_text(DEFAULT_GPU_WIDTH, DEFAULT_GPU_HEIGHT)
            },
            "virtio-input,keyboard"@,
            "virtio-input,pointing"@,
        ]
    } else {
        Seq::empty()
    };
    let share = if (c.gui_enabled || c.audio_enabled) && c.socket_dir is Some {
        seq![socket_share_text(c.socket_dir->0)]
    } else {
        Seq::empty()
    };
    display + share
}

/// The environment of the guest as pairs of name and value: for a display the Wayland
/// variables, for sound the PulseAudio server.
pub open spec fn guest_environment_spec(c: WslgConfigView) -> Seq<(Seq<char>, Seq<char>)> {
    let display = if c.gui_enabled {
        seq![
            ("WAYLAND_DISPLAY"@, "wayland-0"@),
            ("XDG_RUNTIME_DIR"@, "/run/user/1000"@),
            ("XDG_SESSION_TYPE"@, "wayland"@),
        ]
    } else {
        Seq::empty()
    };
    let sound = if c.audio_enabled {
        seq![("PULSE_SERVER"@, "unix:/run/user/1000/pulse/native"@)]
    } else {
        Seq::empty()
    };
    display + sound
}

/// The views of a sequence of pairs of strings.
pub open spec fn pair_views(v: Seq<(String, String)>) -> Seq<(Seq<char>, Seq<char>)> {
    v.map_values(|e: (String, String)| (e.0@, e.1@))
}

fn gpu_device_string(width: u32, height: u32) -> (r: String)
    ensures
        r@ == gpu_device_text(width, height),
{
    let mut s = String::from_str("virtio-gpu,width=");
    let w = decimal_string(width as u128);
    s.append(w.as_str());
    s.append(",height=");
    let h = decimal_string(height as u128);
    s.append(h.as_str());
    s
}

impl WslgConfig {
    /// The configuration in which nothing is wanted.
    pub fn new() -> (r: Self)
        ensures
            r@ == wslg_nothing(),
    {
        WslgConfig::default()
    }

    /// The same configuration with a display of the given size.
    pub fn with_gui(self, width: u32, height: u32) -> (r: Self)
        ensures
            r@ == (WslgConfigView {
                gui_enabled: true,
                gpu_width: Some(width),
                gpu_height: Some(height),
                ..self@
            }),
    {
        let mut c = self;
        c.gui_enabled = true;
        c.gpu_width = Some(width);
        c.gpu_height = Some(height);
        c
    }

    /// The same configuration with sound.
    pub fn with_audio(self) -> (r: Self)
        ensures
            r@ == (WslgConfigView { audio_enabled: true, ..self@ }),
    {
        let mut c = self;
        c.audio_enabled = true;
        c
    }

    /// The same configuration with a socket directory.
    pub fn with_socket_dir(self, dir: String) -> (r: Self)
        ensures
            r@ == (WslgConfigView { socket_dir: Some(dir@), ..self@ }),
    {
        let mut c = self;
        c.socket_dir = Some(dir);
        c
    }

    /// Whether a display or sound is wanted.
    pub fn is_enabled(&self) -> (r: bool)
        ensures
            r == (self.gui_enabled || self.audio_enabled),
    {
        self.gui_enabled || self.audio_enabled
    }

    /// The device specifications that the configuration asks for.
    pub fn required_devices(&self) -> (r: Vec<String>)
        ensures
            views(r@) == required_devices_spec(self@),
    {
        let mut devices: Vec<String> = Vec::new();
        let ghost mut model: Seq<Seq<char>> = Seq::empty();
        proof {
            assert(views(devices@) =~= model);
        }
        if self.gui_enabled {
            let gpu = match (self.gpu_width, self.gpu_height) {
                (Some(width), Some(height)) => gpu_device_string(width, height),
                _ => gpu_device_string(DEFAULT_GPU_WIDTH, DEFAULT_GPU_HEIGHT),
            };
            let keyboard = String::from_str("virtio-input,keyboard");
            let pointing = String::from_str("virtio-input,pointing");
            proof {
                model = seq![gpu@, keyboard@, pointing@];
            }
            devices.push(gpu);
            devices.push(keyboard);
            devices.push(pointing);
            proof {
                assert(views(devices@) =~= model);
            }
        }
        if self.gui_enabled || self.audio_enabled {
            if let Some(dir) = &self.socket_dir {
                let mut share = String::from_str("virtio-fs,sharedDir=");
                share.append(dir.as_str());
                share.append(",mountTag=wslg");
                proof {
                    assert(views(devices@.push(share)) =~= model + seq![share@]);
                }
                devices.push(share);
                proof {
                    model = model + seq![share@];
                }
            }
        }
        proof {
            assert(views(devices@) =~= required_devices_spec(self@));
        }
        devices
    }

    /// The environment to set in the guest.
    pub fn guest_environment(&self) -> (r: Vec<(String, String)>)
        ensures
            pair_views(r@) == guest_environment_spec(self@),
    {
        let mut env: Vec<(String, String)> = Vec::new();
        if self.gui_enabled {
            env.push((String::from_str("WAYLAND_DISPLAY"), String::from_str("wayland-0")));
            env.push((String::from_str("XDG_RUNTIME_DIR"), String::from_str("/run/user/1000")));
            env.push((String::from_str("XDG_SESSION_TYPE"), String::from_str("wayland")));
        }
        if self.audio_enabled {
            env.push(
                (
                    String::from_str("PULSE_SERVER"),
                    String::from_str("unix:/run/user/1000/pulse/native"),
                ),
            );
        }
        proof {
            assert(pair_views(env@) =~= guest_environment_spec(self@));
        }
        env
    }
}

/// Where the descriptions of the guest's applications are looked for.
#[derive(Clone, Debug, PartialEq, Eq)]
pub struct ApplicationDiscovery {
    pub search_paths: Vec<String>,
}

impl Default for ApplicationDiscovery {
    fn default() -> (r: Self)
        ensures
            views(r.search_paths@) == seq![
                "/usr/share/applications"@,
                "/usr/local/share/applications"@,
            ],
    {
        let mut search_paths: Vec<String> = Vec::new();
        search_paths.push(String::from_str("/usr/share/applications"));
        search_paths.push(String::from_str("/usr/local/share/applications"));
        proof {
            assert(views(search_paths@) =~= seq![
                "/usr/share/applications"@,
                "/usr/local/share/applications"@,
            ]);
        }
        ApplicationDiscovery { search_paths }
    }
}

impl ApplicationDiscovery {
    /// The two system directories of application descriptions.
    pub fn new() -> (r: Self)
        ensures
            views(r.search_paths@) == seq![
                "/usr/share/applications"@,
                "/usr/local/share/applications"@,
            ],
    {
        ApplicationDiscovery::default()
    }

    /// Adds a directory after those that are there.
    pub fn add_search_path(&mut self, path: String)
        ensures
            final(self).search_paths@ == old(self).search_paths@.push(path),
    {
        self.search_paths.push(path);
    }

    /// The directories, in the order in which they are searched.
    pub fn search_paths(&self) -> (r: &[String])
        ensures
            r@ == self.search_paths@,
    {
        self.search_paths.as_slice()
    }
}

/// An application of the guest, as its description file presents it.
#[derive(Clone, Debug, PartialEq, Eq)]
pub struct GuiApplication {
    /// Name of the application.
    pub name: String,
    /// What it does.
    pub description: Option<String>,
    /// The command that starts it.
    pub command: String,
    /// Path of its icon.
    pub icon: Option<String>,
    /// Path of its description file.
    pub desktop_file: String,
    /// The categories it belongs to.
    pub categories: Vec<String>,
}

impl GuiApplication {
    /// An application without description, icon or categories.
    pub fn new(name: String, command: String, desktop_file: String) -> (r: Self)
        ensures
            r.name == name,
            r.command == command,
            r.desktop_file == desktop_file,
            r.description is None,
            r.icon is None,
            r.categories@.len() == 0,
    {
        GuiApplication {
            name,
            description: None,
            command,
            icon: None,
            desktop_file,
            categories: Vec::new(),
        }
    }

    /// The same application with a description.
    pub fn with_description(self, description: String) -> (r: Self)
        ensures
            r == (GuiApplication { description: Some(description), ..self }),
    {
        let mut a = self;
        a.description = Some(description);
        a
    }

    /// The same application with an icon.
    pub fn with_icon(self, icon: String) -> (r: Self)
        ensures
            r == (GuiApplication { icon: Some(icon), ..self }),
    {
        let mut a = self;
        a.icon = Some(icon);
        a
    }

    /// Adds a category after those that are there.
    pub fn add_category(&mut self, category: String)
        ensures
            final(self).categories@ == old(self).categories@.push(category),
            final(self).name == old(self).name,
            final(self).description == old(self).description,
            final(self).command == old(self).command,
            final(self).icon == old(self).icon,
            final(self).desktop_file == old(self).desktop_file,
    {
        self.categories.push(category);
    }
}

proof fn lemma_digits_plain(n: nat)
    ensures
        !decimal_digits(n).contains(','),
        !decimal_digits(n).contains('='),
{
    crate::text::lemma_decimal_round_trip(n);
    let d = decimal_digits(n);
    if d.contains(',') {
        let j = choose|j: int| 0 <= j < d.len() && d[j] == ',';
        assert(crate::text::is_digit(d[j]));
    }
    if d.contains('=') {
        let j = choose|j: int| 0 <= j < d.len() && d[j] == '=';
        assert(crate::text::is_digit(d[j]));
    }
}

proof fn lemma_plain_names()
    ensures
        !"width"@.contains(',') && !"width"@.contains('='),
        !"height"@.contains(',') && !"height"@.contains('='),
        !"sharedDir"@.contains(',') && !"sharedDir"@.contains('='),
        !"mountTag"@.contains(',') && !"mountTag"@.contains('='),
        !"wslg"@.contains(',') && !"wslg"@.contains('='),
        !"keyboard"@.contains(',') && !"keyboard"@.contains('='),
        !"pointing"@.contains(',') && !"pointing"@.contains('='),
{
    reveal_strlit("width");
    reveal_strlit("height");
    reveal_strlit("sharedDir");
    reveal_strlit("mountTag");
    reveal_strlit("wslg");
    reveal_strlit("keyboard");
    reveal_strlit("pointing");
    assert forall|j: int| 0 <= j < 5 implies "width"@[j] != '=' && "width"@[j] != ',' by {}
    assert forall|j: int| 0 <= j < 6 implies "height"@[j] != '=' && "height"@[j] != ',' by {}
    assert forall|j: int| 0 <= j < 9 implies "sharedDir"@[j] != '=' && "sharedDir"@[j] != ',' by {}
    assert forall|j: int| 0 <= j < 8 implies "mountTag"@[j] != '=' && "mountTag"@[j] != ',' by {}
    assert forall|j: int| 0 <= j < 4 implies "wslg"@[j] != '=' && "wslg"@[j] != ',' by {}
    assert forall|j: int| 0 <= j < 8 implies "keyboard"@[j] != '=' && "keyboard"@[j] != ',' by {}
    assert forall|j: int| 0 <= j < 8 implies "pointing"@[j] != '=' && "pointing"@[j] != ',' by {}
}

proof fn lemma_gpu_pairs(w: Seq<char>, h: Seq<char>, width: u32, height: u32)
    requires
        crate::text::parse_unsigned(w, u32::MAX as nat) == Some(width as nat),
        crate::text::parse_unsigned(h, u32::MAX as nat) == Some(height as nat),
    ensures
        crate::virtio::gpu_args_spec(seq![("width"@, w), ("height"@, h)]) == Ok::<
            crate::virtio::GpuConfig,
            crate::error::ErrorView,
        >(crate::virtio::GpuConfig { width, height }),
{
    crate::virtio::lemma_key_names();
    let p = seq![("width"@, w), ("height"@, h)];
    let required = seq!["height"@, "width"@];
    crate::cmdline::lemma_key_index_from(p, "width"@, 0);
    crate::cmdline::lemma_key_index_from(p, "height"@, 0);
    assert(p[0].0 == "width"@);
    assert(p[1].0 == "height"@);
    assert(crate::cmdline::key_index(p, "width"@) == 0);
    assert(crate::cmdline::key_index(p, "height"@) == 1);
    crate::cmdline::lemma_first_missing_from(p, required, 0);
    assert(required[0] == "height"@);
    assert(required[1] == "width"@);
    assert(crate::cmdline::first_missing_from(p, required, 0) == 2);
    let p1 = crate::cmdline::without_key(p, "width"@);
    assert(p1 =~= seq![("height"@, h)]);
    crate::cmdline::lemma_key_index_from(p1, "height"@, 0);
    assert(p1[0].0 == "height"@);
    assert(crate::cmdline::key_index(p1, "height"@) == 0);
    let p2 = crate::cmdline::without_key(p1, "height"@);
    assert(p2 =~= Seq::<(Seq<char>, Seq<char>)>::empty());
}

proof fn lemma_fs_pairs(dir: Seq<char>, tag: Seq<char>)
    ensures
        crate::virtio::fs_args_spec(seq![("sharedDir"@, dir), ("mountTag"@, tag)]) == Ok::<
            crate::virtio::FsConfigView,
            crate::error::ErrorView,
        >(crate::virtio::FsConfigView { shared_dir: dir, mount_tag: tag }),
{
    crate::virtio::lemma_key_names();
    let p = seq![("sharedDir"@, dir), ("mountTag"@, tag)];
    let required = seq!["sharedDir"@, "mountTag"@];
    crate::cmdline::lemma_key_index_from(p, "sharedDir"@, 0);
    crate::cmdline::lemma_key_index_from(p, "mountTag"@, 0);
    assert(p[0].0 == "sharedDir"@);
    assert(p[1].0 == "mountTag"@);
    assert(crate::cmdline::key_index(p, "sharedDir"@) == 0);
    assert(crate::cmdline::key_index(p, "mountTag"@) == 1);
    crate::cmdline::lemma_first_missing_from(p, required, 0);
    assert(required[0] == "sharedDir"@);
    assert(required[1] == "mountTag"@);
    assert(crate::cmdline::first_missing_from(p, required, 0) == 2);
    let p1 = crate::cmdline::without_key(p, "sharedDir"@);
    assert(p1 =~= seq![("mountTag"@, tag)]);
    crate::cmdline::lemma_key_index_from(p1, "mountTag"@, 0);
    assert(p1[0].0 == "mountTag"@);
    assert(crate::cmdline::key_index(p1, "mountTag"@) == 0);
    let p2 = crate::cmdline::without_key(p1, "mountTag"@);
    assert(p2 =~= Seq::<(Seq<char>, Seq<char>)>::empty());
}

/// The graphics adapter that a configuration asks for is read back by the device
/// parser as an adapter of that very size.
pub proof fn lemma_gpu_text_parses(width: u32, height: u32, mac: Option<Seq<u8>>)
    ensures
        crate::virtio::device_spec(gpu_device_text(width, height), mac) == Ok::<
            crate::virtio::VirtioDeviceConfigView,
            crate::error::ErrorView,
        >(
            crate::virtio::VirtioDeviceConfigView::Gpu(crate::virtio::GpuConfig { width, height }),
        ),
{
    let w = decimal_digits(width as nat);
    let h = decimal_digits(height as nat);
    lemma_digits_plain(width as nat);
    lemma_digits_plain(height as nat);
    lemma_plain_names();
    crate::text::lemma_parse_decimal_digits(width as nat, u32::MAX as nat);
    crate::text::lemma_parse_decimal_digits(height as nat, u32::MAX as nat);
    reveal_strlit("virtio-gpu,width=");
    reveal_strlit(",height=");
    reveal_strlit("virtio-gpu");
    reveal_strlit("width");
    reveal_strlit("height");
    let s = gpu_device_text(width, height);
    let rest = "width"@ + seq!['='] + w + seq![','] + ("height"@ + seq!['='] + h);
    assert("virtio-gpu,width="@ =~= "virtio-gpu"@ + seq![','] + "width"@ + seq!['=']);
    assert(",height="@ =~= seq![','] + "height"@ + seq!['=']);
    assert(s =~= "virtio-gpu"@ + seq![','] + rest);
    crate::virtio::lemma_device_labels();
    crate::virtio::lemma_device_parts("virtio-gpu"@, rest);
    crate::virtio::lemma_key_names();
    crate::cmdline::lemma_parse_two("width"@, w, "height"@, h);
    lemma_gpu_pairs(w, h, width, height);
}

/// The keyboard and the pointing device that a configuration asks for are read back by
/// the device parser as those input devices.
pub proof fn lemma_input_texts_parse(mac: Option<Seq<u8>>)
    ensures
        crate::virtio::device_spec("virtio-input,keyboard"@, mac) == Ok::<
            crate::virtio::VirtioDeviceConfigView,
            crate::error::ErrorView,
        >(crate::virtio::VirtioDeviceConfigView::Input(crate::virtio::InputConfig::Keyboard)),
        crate::virtio::device_spec("virtio-input,pointing"@, mac) == Ok::<
            crate::virtio::VirtioDeviceConfigView,
            crate::error::ErrorView,
        >(crate::virtio::VirtioDeviceConfigView::Input(crate::virtio::InputConfig::Pointing)),
{
    lemma_plain_names();
    reveal_strlit("virtio-input,keyboard");
    reveal_strlit("virtio-input,pointing");
    reveal_strlit("virtio-input");
    reveal_strlit("keyboard");
    reveal_strlit("pointing");
    assert("virtio-input,keyboard"@ =~= "virtio-input"@ + seq![','] + "keyboard"@);
    assert("virtio-input,pointing"@ =~= "virtio-input"@ + seq![','] + "pointing"@);
    crate::virtio::lemma_device_labels();
    crate::virtio::lemma_key_names();
    crate::virtio::lemma_device_parts("virtio-input"@, "keyboard"@);
    crate::virtio::lemma_device_parts("virtio-input"@, "pointing"@);
    crate::cmdline::lemma_parse_flag("keyboard"@);
    crate::cmdline::lemma_parse_flag("pointing"@);
}

/// The share of the socket directory that a configuration asks for is read back by the
/// device parser as a share of that directory under the tag `wslg`, where the name of
/// the directory holds neither a comma nor `=`.
pub proof fn lemma_share_text_parses(dir: Seq<char>, mac: Option<Seq<u8>>)
    requires
        !dir.contains(','),
        !dir.contains('='),
    ensures
        crate::virtio::device_spec(socket_share_text(dir), mac) == Ok::<
            crate::virtio::VirtioDeviceConfigView,
            crate::error::ErrorView,
        >(
            crate::virtio::VirtioDeviceConfigView::Fs(
                crate::virtio::FsConfigView { shared_dir: dir, mount_tag: "wslg"@ },
            ),
        ),
{
    lemma_plain_names();
    reveal_strlit("virtio-fs,sharedDir=");
    reveal_strlit(",mountTag=wslg");
    reveal_strlit("virtio-fs");
    reveal_strlit("sharedDir");
    reveal_strlit("mountTag");
    reveal_strlit("wslg");
    let s = socket_share_text(dir);
    let rest = "sharedDir"@ + seq!['='] + dir + seq![','] + ("mountTag"@ + seq!['='] + "wslg"@);
    assert("virtio-fs,sharedDir="@ =~= "virtio-fs"@ + seq![','] + "sharedDir"@ + seq!['=']);
    assert(",mountTag=wslg"@ =~= seq![','] + "mountTag"@ + seq!['='] + "wslg"@);
    assert(s =~= "virtio-fs"@ + seq![','] + rest);
    crate::virtio::lemma_device_labels();
    crate::virtio::lemma_device_parts("virtio-fs"@, rest);
    crate::virtio::lemma_key_names();
    crate::cmdline::lemma_parse_two("sharedDir"@, dir, "mountTag"@, "wslg"@);
    lemma_fs_pairs(dir, "wslg"@);
}

/// Every device that a configuration asks for is a device specification that the
/// parser accepts, where the name of the socket directory holds neither a comma nor
/// `=`.
pub proof fn lemma_required_devices_parse(c: WslgConfigView, i: int, mac: Option<Seq<u8>>)
    requires
        0 <= i < required_devices_spec(c).len(),
        c.socket_dir matches Some(dir) ==> !dir.contains(',') && !dir.contains('='),
    ensures
        crate::virtio::device_spec(required_devices_spec(c)[i], mac) is Ok,
{
    lemma_input_texts_parse(mac);
    if c.gui_enabled {
        if c.gpu_width is Some && c.gpu_height is Some {
            lemma_gpu_text_parses(c.gpu_width->0, c.gpu_height->0, mac);
        } else {
            lemma_gpu_text_parses(DEFAULT_GPU_WIDTH, DEFAULT_GPU_HEIGHT, mac);
        }
    }
    if c.socket_dir is Some {
        lemma_share_text_parses(c.socket_dir->0, mac);
    }
}

} // verus!
