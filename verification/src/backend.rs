//! The surface lifecycle manager: construction, resize, and the
//! frame-acquisition protocol with recovery from transient surface failures.
//!
//! The backend here is the decision core of the manager. The surrounding
//! application owns the window and the GPU handles; it performs each outside
//! step (creating the window, requesting the adapter and device, configuring
//! the surface, acquiring a texture) and hands the outcome in as a plain
//! value. Every decision taken on those outcomes is verified.

use vstd::prelude::*;
use crate::config::{config_for, build_config, SurfaceCaps, SurfaceConfig};

verus! {

/// The error taxonomy of the backend: one variant per fallible step of
/// construction, and one for a failed frame acquisition.
#[derive(Clone, Copy, Debug, PartialEq, Eq, Structural)]
pub enum BackendError {
    /// The host window system refused to create the window.
    WindowCreation,
    /// The presentation surface could not be bound to the window.
    SurfaceCreation,
    /// No compatible graphics adapter is available.
    AdapterRequest,
    /// The adapter refused to provide a logical device and queue.
    DeviceRequest,
    /// Frame acquisition failed fatally, with the surface condition attached.
    Acquisition(AcquireError),
}

/// The condition a failed surface acquisition reports.
#[derive(Clone, Copy, Debug, PartialEq, Eq, Structural)]
pub enum AcquireError {
    /// The surface is stale relative to the window geometry.
    Outdated,
    /// The underlying native surface resource was invalidated.
    Lost,
    /// The acquisition did not complete in time.
    Timeout,
    /// The graphics device is out of memory.
    OutOfMemory,
}

impl BackendError {
    /// The step the error came from, as the diagnostic context names it.
    pub open spec fn step_spec(self) -> Seq<char> {
        match self {
            BackendError::WindowCreation => "Creating window"@,
            BackendError::SurfaceCreation => "Creating surface"@,
            BackendError::AdapterRequest => "Requesting adapter"@,
            BackendError::DeviceRequest => "Requesting device"@,
            BackendError::Acquisition(_) => "Getting current texture"@,
        }
    }

    /// Name the step that failed, so an operator can tell missing hardware
    /// or drivers apart from a refused window or a broken surface.
    pub fn step(&self) -> (r: &'static str)
        ensures
            r@ == self.step_spec(),
    {
        match self {
            BackendError::WindowCreation => "Creating window",
            BackendError::SurfaceCreation => "Creating surface",
            BackendError::AdapterRequest => "Requesting adapter",
            BackendError::DeviceRequest => "Requesting device",
            BackendError::Acquisition(_) => "Getting current texture",
        }
    }
}

impl AcquireError {
    /// A transient condition is recovered by refreshing the surface;
    /// everything else is fatal.
    pub open spec fn is_transient(self) -> bool {
        self == AcquireError::Outdated || self == AcquireError::Lost
    }
}

/// The outcome of one attempt to acquire a presentable texture, as the
/// application observed it. `T` is whatever the application uses to stand
/// for the acquired texture; the backend hands it through untouched.
#[derive(Debug, PartialEq, Eq)]
pub enum Acquisition<T> {
    /// The surface handed back a presentable texture; `suboptimal` is the
    /// image's own report that it no longer matches the surface's ideal
    /// configuration.
    Frame { texture: T, suboptimal: bool },
    /// The acquisition failed with the given condition.
    Failure(AcquireError),
}

/// What the backend decides after the first acquisition attempt of a frame.
#[derive(Debug, PartialEq, Eq)]
pub enum FrameDecision<T> {
    /// Steady state: hand this texture and the tracked size to the caller.
    Present(T, (u32, u32)),
    /// Transient condition: refresh the surface, then re-acquire once.
    Refresh,
    /// Fatal condition: give the frame up with this error.
    Fail(BackendError),
}

/// The outcomes of the outside steps of construction, in the order they are
/// attempted; a step that was not reached counts as failed.
pub struct SetupOutcome {
    /// The window's actual physical size right after creation — possibly
    /// DPI-adjusted, so not necessarily the size that was requested — or
    /// `None` when the window system refused the window.
    pub window_size: Option<(u32, u32)>,
    /// Whether the presentation surface could be bound to the window.
    pub surface_created: bool,
    /// Whether an adapter compatible with the surface was found.
    pub adapter_found: bool,
    /// Whether the adapter provided a logical device and queue.
    pub device_acquired: bool,
    /// The capabilities the surface reports for the chosen adapter; present
    /// when a device was acquired.
    pub caps: Option<SurfaceCaps>,
}

impl SetupOutcome {
    /// All outside steps succeeded.
    pub open spec fn complete(self) -> bool {
        self.window_size is Some && self.surface_created && self.adapter_found
            && self.device_acquired
    }

    /// A completed setup carries well-formed capability lists.
    pub open spec fn wf(self) -> bool {
        self.complete() ==> (self.caps matches Some(c) && c.wf())
    }
}

/// The backend's own state: the tracked physical size and the active
/// surface configuration. The window, surface, device and queue handles
/// stay with the application, which carries out what the methods decide.
#[derive(Clone, Copy, Debug, PartialEq, Eq)]
pub struct Backend {
    /// The tracked physical size, in device pixels.
    pub size: (u32, u32),
    /// The active presentation configuration.
    pub config: SurfaceConfig,
}

/// The decision taken on the first acquisition outcome of a frame: an
/// optimal texture is presented at the tracked size, a suboptimal texture
/// or a transient failure asks for one refresh-and-retry, and anything else
/// is fatal.
pub open spec fn frame_decision<T>(size: (u32, u32), acquired: Acquisition<T>) -> FrameDecision<
    T,
> {
    match acquired {
        Acquisition::Frame { texture, suboptimal } => if !suboptimal {
            FrameDecision::Present(texture, size)
        } else {
            FrameDecision::Refresh
        },
        Acquisition::Failure(e) => if e.is_transient() {
            FrameDecision::Refresh
        } else {
            FrameDecision::Fail(BackendError::Acquisition(e))
        },
    }
}

/// The decision taken on the retried acquisition after a refresh: any
/// texture — suboptimal or not — is presented at the refreshed size, and
/// any failure, transient ones included, is fatal.
pub open spec fn retry_outcome<T>(size: (u32, u32), acquired: Acquisition<T>) -> Result<
    (T, (u32, u32)),
    BackendError,
> {
    match acquired {
        Acquisition::Frame { texture, .. } => Ok((texture, size)),
        Acquisition::Failure(e) => Err(BackendError::Acquisition(e)),
    }
}

/// How one resize request transforms the backend state: a strictly positive
/// extent is adopted into both the tracked size and the configuration, and
/// a request with a zero side leaves the state untouched.
pub open spec fn resize_step(b: Backend, req: (u32, u32)) -> Backend {
    if req.0 > 0 && req.1 > 0 {
        (Backend { size: req, config: b.config.with_size(req) })
    } else {
        b
    }
}

/// The backend state after a whole sequence of resize requests.
pub open spec fn resize_all(b: Backend, reqs: Seq<(u32, u32)>) -> Backend
    decreases reqs.len(),
{
    if reqs.len() == 0 {
        b
    } else {
        resize_all(resize_step(b, reqs[0]), reqs.drop_first())
    }
}

impl Backend {
    /// The tracked size and the configured extent agree.
    pub open spec fn wf(self) -> bool {
        self.config.width == self.size.0 && self.config.height == self.size.1
    }

    /// Judge the outcomes of the outside construction steps: the first step
    /// that failed decides the error, and when every step succeeded the
    /// backend starts at the window's actual size with the configuration
    /// computed from the reported capabilities.
    pub fn new(outcome: SetupOutcome) -> (r: Result<Backend, BackendError>)
        requires
            outcome.wf(),
        ensures
            match outcome.window_size {
                None => r == Err::<Backend, BackendError>(BackendError::WindowCreation),
                Some(size) => if !outcome.surface_created {
                    r == Err::<Backend, BackendError>(BackendError::SurfaceCreation)
                } else if !outcome.adapter_found {
                    r == Err::<Backend, BackendError>(BackendError::AdapterRequest)
                } else if !outcome.device_acquired {
                    r == Err::<Backend, BackendError>(BackendError::DeviceRequest)
                } else {
                    &&& r matches Ok(b)
                    &&& b.size == size
                    &&& outcome.caps matches Some(c) && config_for(c, size, b.config)
                    &&& b.wf()
                },
            },
    {
        let size = match outcome.window_size {
            None => {
                return Err(BackendError::WindowCreation);
            },
            Some(size) => size,
        };
        if !outcome.surface_created {
            return Err(BackendError::SurfaceCreation);
        }
        if !outcome.adapter_found {
            return Err(BackendError::AdapterRequest);
        }
        if !outcome.device_acquired {
            return Err(BackendError::DeviceRequest);
        }
        let caps = match outcome.caps {
            Some(caps) => caps,
            None => {
                return Err(BackendError::DeviceRequest);
            },
        };
        let config = build_config(&caps, size);
        Ok(Backend { size, config })
    }

    /// Adopt a new physical size: with both dimensions strictly positive the
    /// tracked size and the configured extent follow the request and the
    /// caller must re-apply the configuration to the surface; with a zero
    /// side the previously active configuration stays as it is.
    pub fn resize(&mut self, new_size: (u32, u32)) -> (reconfigure: bool)
        ensures
            *final(self) == resize_step(*old(self), new_size),
            reconfigure == (new_size.0 > 0 && new_size.1 > 0),
            old(self).wf() ==> final(self).wf(),
    {
        if new_size.0 > 0 && new_size.1 > 0 {
            self.size = new_size;
            self.config.width = new_size.0;
            self.config.height = new_size.1;
            true
        } else {
            false
        }
    }

    /// Refresh the surface state after a transient failure or a suboptimal
    /// frame: adopt the window's current size unconditionally — whatever it
    /// is — into the tracked size and the configured extent. The caller
    /// re-applies the configuration and re-acquires a texture once.
    pub fn refresh(&mut self, window_size: (u32, u32))
        ensures
            final(self).size == window_size,
            final(self).config == old(self).config.with_size(window_size),
            final(self).wf(),
    {
        self.size = window_size;
        self.config.width = window_size.0;
        self.config.height = window_size.1;
    }

    /// Decide a frame from the first acquisition outcome: an optimal texture
    /// is presented with the tracked size; a suboptimal texture is discarded
    /// and a refresh is asked for, as it is after an outdated or lost
    /// surface; any other failure is fatal.
    pub fn get_texture<T>(&self, acquired: Acquisition<T>) -> (d: FrameDecision<T>)
        ensures
            d == frame_decision(self.size, acquired),
    {
        match acquired {
            Acquisition::Frame { texture, suboptimal } => if !suboptimal {
                FrameDecision::Present(texture, self.size)
            } else {
                FrameDecision::Refresh
            },
            Acquisition::Failure(e) => match e {
                AcquireError::Outdated | AcquireError::Lost => FrameDecision::Refresh,
                _ => FrameDecision::Fail(BackendError::Acquisition(e)),
            },
        }
    }

    /// Decide the frame from the acquisition retried after a refresh: any
    /// texture is returned with the refreshed size, and any failure ends the
    /// frame fatally — a single refresh is the only recovery a call gets.
    pub fn retry_texture<T>(&self, acquired: Acquisition<T>) -> (r: Result<
        (T, (u32, u32)),
        BackendError,
    >)
        ensures
            r == retry_outcome(self.size, acquired),
    {
        match acquired {
            Acquisition::Frame { texture, suboptimal: _ } => Ok((texture, self.size)),
            Acquisition::Failure(e) => Err(BackendError::Acquisition(e)),
        }
    }
}

/// After any sequence of resize requests whose dimensions are all strictly
/// positive, the active configuration's extent — and the tracked size —
/// equal the most recently requested dimensions.
pub proof fn lemma_resize_tracks_last_request(b: Backend, reqs: Seq<(u32, u32)>)
    requires
        reqs.len() > 0,
        forall|i: int| 0 <= i < reqs.len() ==> (#[trigger] reqs[i]).0 > 0 && reqs[i].1 > 0,
    ensures
        resize_all(b, reqs).size == reqs.last(),
        resize_all(b, reqs).config.width == reqs.last().0,
        resize_all(b, reqs).config.height == reqs.last().1,
    decreases reqs.len(),
{
    if reqs.len() == 1 {
        assert(reqs.drop_first().len() == 0);
        assert(resize_all(resize_step(b, reqs[0]), reqs.drop_first()) == resize_step(b, reqs[0]));
    } else {
        lemma_resize_tracks_last_request(resize_step(b, reqs[0]), reqs.drop_first());
        assert(reqs.drop_first().last() == reqs.last());
    }
}

/// A resize request with a zero width or height leaves the backend state —
/// the previously active configuration included — unchanged.
pub proof fn lemma_resize_ignores_zero(b: Backend, req: (u32, u32))
    requires
        req.0 == 0 || req.1 == 0,
    ensures
        resize_step(b, req) == b,
{
}

} // verus!
