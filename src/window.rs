//! The public face: a builder that collects the options of a window, the
//! immutable request that a window's thread is handed, and the window itself.

use vstd::prelude::*;
use crate::error::Error;
use crate::lifecycle::{close_step, destroy_flag_of, Lifecycle, WindowState};
use crate::wide::{str_to_wstr, wide_of};

verus! {

/// The class style that gives each window of the class its own device context.
pub const CS_OWNDC: u32 = 0x0020;

/// The class style for the builder's choice of a device context per window.
pub open spec fn class_style_of(cs_owndc: bool) -> u32 {
    if cs_owndc { CS_OWNDC } else { 0 }
}

/// The builder's options: class name, title, and whether each window of the
/// class gets its own device context.
pub type BuilderOptions = (Seq<char>, Seq<char>, bool);

/// Collects the options of a window before it is created.
pub struct WindowBuilder {
    class_name: String,
    title: String,
    cs_owndc: bool,
}

impl View for WindowBuilder {
    type V = BuilderOptions;

    closed spec fn view(&self) -> BuilderOptions {
        (self.class_name@, self.title@, self.cs_owndc)
    }
}

/// Platform extensions of the builder.
pub trait WindowBuilderExt: Sized + View<V = BuilderOptions> {
    /// Sets whether every window of the class gets a device context of its
    /// own. This only counts when the class is registered by this window;
    /// windows that share a class name should agree on it.
    fn set_cs_owndc(&mut self, cs_owndc: bool) -> (r: &mut Self)
        ensures
            r@ == (old(self)@.0, old(self)@.1, cs_owndc),
            *final(self) == *final(r);
}

impl WindowBuilderExt for WindowBuilder {
    fn set_cs_owndc(&mut self, cs_owndc: bool) -> (r: &mut Self) {
        self.cs_owndc = cs_owndc;
        self
    }
}

/// What a window's thread is handed: the options, with the text already in
/// its native wide form, so that the thread itself has nothing to convert.
pub struct CreationRequest {
    pub class_name: Vec<u16>,
    pub title: Vec<u16>,
    pub class_style: u32,
}

/// Whether `r` is the request for the options `o`.
pub open spec fn is_request_for(r: CreationRequest, o: BuilderOptions) -> bool {
    &&& r.class_name@ == wide_of(o.0)
    &&& r.title@ == wide_of(o.1)
    &&& r.class_style == class_style_of(o.2)
}

/// The window, or the error, for the outcome that a window's thread published.
pub open spec fn window_for(outcome: Result<usize, Error>, r: Result<Window, Error>) -> bool {
    match outcome {
        Ok(h) => r matches Ok(w) && w@ == (h, WindowState::Live),
        Err(e) => r == Err::<Window, Error>(e),
    }
}

impl WindowBuilder {
    fn new() -> (r: WindowBuilder)
        ensures
            r@ == ("ramen_window_class"@, "a nice window"@, true),
    {
        WindowBuilder {
            class_name: String::from_str("ramen_window_class"),
            title: String::from_str("a nice window"),
            cs_owndc: true,
        }
    }

    /// Sets the name of the window class.
    pub fn class_name(&mut self, class_name: &str) -> (r: &mut Self)
        ensures
            r@ == (class_name@, old(self)@.1, old(self)@.2),
            *final(self) == *final(r),
    {
        self.class_name = String::from_str(class_name);
        self
    }

    /// Sets the window title.
    pub fn title(&mut self, title: &str) -> (r: &mut Self)
        ensures
            r@ == (old(self)@.0, title@, old(self)@.2),
            *final(self) == *final(r),
    {
        self.title = String::from_str(title);
        self
    }

    /// A snapshot of the options for a window's thread.
    pub fn request(&self) -> (r: CreationRequest)
        ensures
            is_request_for(r, self@),
    {
        let mut class_name: Vec<u16> = Vec::new();
        let mut title: Vec<u16> = Vec::new();
        str_to_wstr(self.class_name.as_str(), &mut class_name);
        str_to_wstr(self.title.as_str(), &mut title);
        let class_style = if self.cs_owndc { CS_OWNDC } else { 0 };
        CreationRequest { class_name, title, class_style }
    }

    /// Creates the window. `create` is handed the request, runs the creation
    /// handshake with a new window thread, and returns the outcome that the
    /// thread published: the window's handle, or why it could not be made.
    pub fn build<F: FnOnce(CreationRequest) -> Result<usize, Error>>(&self, create: F) -> (r: Result<Window, Error>)
        requires
            forall|req: CreationRequest| is_request_for(req, self@) ==> create.requires((req,)),
        ensures
            exists|req: CreationRequest, outcome: Result<usize, Error>|
                is_request_for(req, self@) && #[trigger] create.ensures((req,), outcome) && window_for(outcome, r),
    {
        let request = self.request();
        let outcome = create(request);
        Window::from_outcome(outcome)
    }
}

/// A window owned by its holder: it stays alive until its owner closes it.
pub struct Window {
    handle: usize,
    life: Lifecycle,
}

impl View for Window {
    type V = (usize, WindowState);

    closed spec fn view(&self) -> (usize, WindowState) {
        (self.handle, self.life@)
    }
}

impl Window {
    /// A builder with the default options.
    pub fn builder() -> (r: WindowBuilder)
        ensures
            r@ == ("ramen_window_class"@, "a nice window"@, true),
    {
        WindowBuilder::new()
    }

    /// The window for the outcome that its thread published: a live window
    /// for a handle, the error otherwise.
    pub fn from_outcome(outcome: Result<usize, Error>) -> (r: Result<Window, Error>)
        ensures
            window_for(outcome, r),
    {
        match outcome {
            Ok(handle) => Ok(Window { handle, life: Lifecycle::new() }),
            Err(e) => Err(e),
        }
    }

    /// The native handle.
    pub fn handle(&self) -> (r: usize)
        ensures
            r == self@.0,
    {
        self.handle
    }

    /// Where the window stands.
    pub fn state(&self) -> (r: WindowState)
        ensures
            r == self@.1,
    {
        self.life.state()
    }

    /// The window's destroy flag, which the destroy guard reads.
    pub fn destroy_flag(&self) -> (r: bool)
        ensures
            r == destroy_flag_of(self@.1),
    {
        self.life.destroy_flag()
    }

    /// The owner's close operation: raises the destroy flag, so that the next
    /// destroy attempt is allowed.
    pub fn close(&mut self)
        ensures
            final(self)@ == (old(self)@.0, close_step(old(self)@.1)),
    {
        self.life.close();
    }

    /// Records the guard's decision on a destroy attempt of this window.
    pub fn destroy_attempt(&mut self) -> (r: crate::guard::HookDecision)
        requires
            old(self)@.1 != WindowState::Destroyed,
        ensures
            (final(self)@.1, r) == crate::lifecycle::attempt_step(old(self)@.1),
            final(self)@.0 == old(self)@.0,
    {
        self.life.destroy_attempt()
    }
}

} // verus!
