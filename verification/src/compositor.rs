//! The window in which the guest's graphics are shown: its configuration and whether it
//! runs.

use crate::text::decimal_digits;
use crate::text::decimal_string;
use vstd::prelude::*;

verus! {

/// The configuration of the compositor's window.
#[derive(Clone, Debug, PartialEq, Eq)]
pub struct CompositorConfig {
    /// Width of the window.
    pub width: u32,
    /// Height of the window.
    pub height: u32,
    /// Title of the window.
    pub window_title: String,
    /// Path of the framebuffer that the guest's graphics adapter shares.
    pub framebuffer_path: Option<String>,
}

/// The mathematical value of a [`CompositorConfig`].
pub struct CompositorConfigView {
    pub width: u32,
    pub height: u32,
    pub window_title: Seq<char>,
    pub framebuffer_path: Option<Seq<char>>,
}

impl View for CompositorConfig {
    type V = CompositorConfigView;

    open spec fn view(&self) -> CompositorConfigView {
        CompositorConfigView {
            width: self.width,
            height: self.height,
            window_title: self.window_title@,
            framebuffer_path: match self.framebuffer_path {
                Some(p) => Some(p@),
                None => None,
            },
        }
    }
}

impl Default for CompositorConfig {
    fn default() -> (r: Self)
        ensures
            r@ == (CompositorConfigView {
                width: 1920,
                height: 1080,
                window_title: "krunkit - Linux GUI"@,
                framebuffer_path: None,
            }),
    {
        CompositorConfig {
            width: 1920,
            height: 1080,
            window_title: String::from_str("krunkit - Linux GUI"),
            framebuffer_path: None,
        }
    }
}

impl CompositorConfig {
    /// A window of the given size with the default title and no framebuffer.
    pub fn new(width: u32, height: u32) -> (r: Self)
        ensures
            r@ == (CompositorConfigView {
                width,
                height,
                window_title: "krunkit - Linux GUI"@,
                framebuffer_path: None,
            }),
    {
        CompositorConfig {
            width,
            height,
            window_title: String::from_str("krunkit - Linux GUI"),
            framebuffer_path: None,
        }
    }

    /// The same configuration with another title.
    pub fn with_title(self, title: String) -> (r: Self)
        ensures
            r@ == (CompositorConfigView { window_title: title@, ..self@ }),
    {
        let mut c = self;
        c.window_title = title;
        c
    }

    /// The same configuration with a framebuffer.
    pub fn with_framebuffer(self, path: String) -> (r: Self)
        ensures
            r@ == (CompositorConfigView { framebuffer_path: Some(path@), ..self@ }),
    {
        let mut c = self;
        c.framebuffer_path = Some(path);
        c
    }
}

/// Why the compositor could not be started.
#[derive(Clone, Copy, Debug, PartialEq, Eq)]
pub enum CompositorError {
    /// It runs already.
    AlreadyRunning,
}

impl CompositorError {
    /// The text that describes the error to the user.
    pub fn message(&self) -> (r: String)
        ensures
            r@ == "Compositor is already running"@,
    {
        String::from_str("Compositor is already running")
    }
}

/// The compositor: its configuration, whether it runs, and the virtual machine whose
/// framebuffer it shows.
#[derive(Clone, Debug, PartialEq, Eq)]
pub struct Compositor {
    pub config: CompositorConfig,
    pub running: bool,
    pub ctx_id: Option<u32>,
}

impl Compositor {
    /// A compositor that does not run yet and shows no virtual machine.
    pub fn new(config: CompositorConfig) -> (r: Self)
        ensures
            r.config == config,
            !r.running,
            r.ctx_id is None,
    {
        Compositor { config, running: false, ctx_id: None }
    }

    /// Names the virtual machine whose framebuffer is shown.
    pub fn set_ctx_id(&mut self, ctx_id: u32)
        ensures
            final(self).ctx_id == Some(ctx_id),
            final(self).config == old(self).config,
            final(self).running == old(self).running,
    {
        self.ctx_id = Some(ctx_id);
    }

    /// Starts the compositor; fails, and changes nothing, where it runs already.
    pub fn start(&mut self) -> (r: Result<(), CompositorError>)
        ensures
            old(self).running ==> r == Err::<(), CompositorError>(CompositorError::AlreadyRunning)
                && *final(self) == *old(self),
            !old(self).running ==> r is Ok && final(self).running && final(self).config == old(
                self,
            ).config && final(self).ctx_id == old(self).ctx_id,
    {
        if self.running {
            return Err(CompositorError::AlreadyRunning);
        }
        self.running = true;
        Ok(())
    }

    /// Stops the compositor.
    pub fn stop(&mut self)
        ensures
            !final(self).running,
            final(self).config == old(self).config,
            final(self).ctx_id == old(self).ctx_id,
    {
        self.running = false;
    }

    /// Whether the compositor runs.
    pub fn is_running(&self) -> (r: bool)
        ensures
            r == self.running,
    {
        self.running
    }
}

/// The title of the window for a display of the given size.
pub open spec fn wslg_title(width: u32, height: u32) -> Seq<char> {
    "krunkit - Linux GUI ("@ + decimal_digits(width as nat) + "x"@ + decimal_digits(height as nat)
        + ")"@
}

/// A running compositor for a display of the given size, with the size in its title.
pub fn create_wslg_compositor(width: u32, height: u32) -> (r: Result<Compositor, CompositorError>)
    ensures
        r matches Ok(c) && c.running && c.ctx_id is None && c.config@ == (CompositorConfigView {
            width,
            height,
            window_title: wslg_title(width, height),
            framebuffer_path: None,
        }),
{
    let mut title = String::from_str("krunkit - Linux GUI (");
    let w = decimal_string(width as u128);
    title.append(w.as_str());
    title.append("x");
    let h = decimal_string(height as u128);
    title.append(h.as_str());
    title.append(")");
    let config = CompositorConfig::new(width, height).with_title(title);
    let mut compositor = Compositor::new(config);
    match compositor.start() {
        Ok(_) => Ok(compositor),
        Err(e) => Err(e),
    }
}

} // verus!
