//! The GPU context's own state: the viewport it renders at and whether a
//! frame has been presented. Device, queue and surface stay with the caller,
//! which reconfigures the surface with the settings `resize` returns.
use std::time::{Duration, Instant};
use vstd::prelude::*;

verus! {

/// Presentation latency, in frames, that the surface is configured with.
pub const FRAME_LATENCY: u32 = 2;

/// A size in pixels.
#[derive(Clone, Copy, Debug, PartialEq, Eq, Structural, Hash)]
pub struct Extent {
    pub width: u32,
    pub height: u32,
}

/// What the presentable surface must be (re)configured with.
#[derive(Clone, Copy, Debug, PartialEq, Eq, Structural)]
pub struct SurfaceSettings {
    pub width: u32,
    pub height: u32,
    pub frame_latency: u32,
}

/// The abstract state of a GPU context: its viewport and whether a frame
/// has been presented yet.
pub struct GraphicsView {
    pub viewport: Extent,
    pub presented: bool,
}

/// `std::time::Instant`, carried through unopened.
#[verifier::external_type_specification]
#[verifier::external_body]
pub struct ExInstant(Instant);

/// Relies on `Instant::now`: reads the monotonic clock. Nothing is known of
/// the value.
#[verifier::external_body]
fn now() -> (r: Instant) {
    Instant::now()
}

/// Relies on `Instant::elapsed`: the time passed since `t`. Nothing is known
/// of the value.
#[verifier::external_body]
fn elapsed_since(t: &Instant) -> (r: Duration) {
    t.elapsed()
}

/// What `Duration::from_secs` returns for a number of seconds.
pub uninterp spec fn duration_of_secs(secs: u64) -> Duration;

/// Relies on `Duration::from_secs`: a duration of whole seconds, determined
/// by the number alone.
pub assume_specification[ Duration::from_secs ](secs: u64) -> (r: Duration)
    ensures
        r == duration_of_secs(secs),
;

/// The state that the GPU context keeps beside its device handles.
pub struct Graphics {
    viewport_size: Extent,
    last_frame: Option<Instant>,
}

impl View for Graphics {
    type V = GraphicsView;

    closed spec fn view(&self) -> GraphicsView {
        GraphicsView { viewport: self.viewport_size, presented: self.last_frame is Some }
    }
}

impl Graphics {
    /// A context for a window of the given size; nothing presented yet.
    pub fn new(width: u32, height: u32) -> (r: Graphics)
        ensures
            r@ == new_view(width, height),
    {
        Graphics { viewport_size: Extent { width, height }, last_frame: None }
    }

    pub fn viewport_size(&self) -> (r: Extent)
        ensures
            r == self@.viewport,
    {
        self.viewport_size
    }

    /// Whether a frame may be acquired: only at a viewport whose dimensions
    /// are both positive.
    pub fn can_acquire(&self) -> (r: bool)
        ensures
            r == (self@.viewport.width > 0 && self@.viewport.height > 0),
    {
        self.viewport_size.width > 0 && self.viewport_size.height > 0
    }

    /// True until the first frame is presented, false from then on.
    pub fn is_init(&self) -> (r: bool)
        ensures
            r == !self@.presented,
    {
        self.last_frame.is_none()
    }

    /// Time since the last presented frame; zero before the first one.
    pub fn dt(&self) -> (r: Duration)
        ensures
            !self@.presented ==> r == duration_of_secs(0),
    {
        match &self.last_frame {
            Some(t) => elapsed_since(t),
            None => Duration::from_secs(0),
        }
    }

    /// Records that a frame was presented now.
    pub fn present(&mut self)
        ensures
            final(self)@ == presented(old(self)@),
    {
        self.last_frame = Some(now());
    }

    /// Takes a new window size. The surface is reconfigured, and the viewport
    /// follows, only when both dimensions are positive; otherwise nothing
    /// changes.
    pub fn resize(&mut self, size: (u32, u32)) -> (r: Option<SurfaceSettings>)
        ensures
            final(self)@ == resized(old(self)@, size.0, size.1),
            r == surface_settings_for(size.0, size.1),
    {
        let (width, height) = size;
        if width > 0 && height > 0 {
            self.viewport_size = Extent { width, height };
            Some(SurfaceSettings { width, height, frame_latency: FRAME_LATENCY })
        } else {
            None
        }
    }
}

/// Why acquiring the next presentable image failed.
#[derive(Clone, Copy, Debug, PartialEq, Eq, Structural)]
pub enum SurfaceFailure {
    Timeout,
    Outdated,
    Lost,
    OutOfMemory,
    Other,
}

impl SurfaceFailure {
    /// Only running out of memory ends the program; every other failure
    /// skips the frame and is retried on the next tick.
    pub fn is_fatal(&self) -> (r: bool)
        ensures
            r == (*self is OutOfMemory),
    {
        match self {
            SurfaceFailure::OutOfMemory => true,
            _ => false,
        }
    }
}

/// The format chosen among the surface's formats, given for each whether it
/// is gamma-corrected: the first such one, or else the first of all.
pub open spec fn is_preferred_format(srgb: Seq<bool>, i: int) -> bool {
    &&& 0 <= i < srgb.len()
    &&& forall|j: int| 0 <= j < i ==> !srgb[j]
    &&& (srgb[i] || (i == 0 && forall|j: int| 0 <= j < srgb.len() ==> !srgb[j]))
}

pub fn choose_surface_format(srgb: &Vec<bool>) -> (r: usize)
    requires
        srgb.len() > 0,
    ensures
        is_preferred_format(srgb@, r as int),
{
    let mut i: usize = 0;
    while i < srgb.len()
        invariant
            i <= srgb.len(),
            forall|j: int| 0 <= j < i ==> !srgb@[j],
        decreases srgb.len() - i,
    {
        if srgb[i] {
            return i;
        }
        i = i + 1;
    }
    0
}

pub open spec fn new_view(width: u32, height: u32) -> GraphicsView {
    GraphicsView { viewport: Extent { width, height }, presented: false }
}

pub open spec fn presented(v: GraphicsView) -> GraphicsView {
    GraphicsView { presented: true, ..v }
}

pub open spec fn resized(v: GraphicsView, width: u32, height: u32) -> GraphicsView {
    if width > 0 && height > 0 {
        GraphicsView { viewport: Extent { width, height }, ..v }
    } else {
        v
    }
}

/// A change made to a GPU context after its creation.
pub enum GraphicsOp {
    Resize(u32, u32),
    Present,
}

/// The state after each of `ops` in turn.
pub open spec fn after_ops(v: GraphicsView, ops: Seq<GraphicsOp>) -> GraphicsView
    decreases ops.len(),
{
    if ops.len() == 0 {
        v
    } else {
        let prev = after_ops(v, ops.drop_last());
        match ops.last() {
            GraphicsOp::Resize(w, h) => resized(prev, w, h),
            GraphicsOp::Present => presented(prev),
        }
    }
}

/// A resize to a size with a zero dimension changes nothing.
pub proof fn lemma_degenerate_resize_keeps_state(v: GraphicsView, width: u32, height: u32)
    requires
        width == 0 || height == 0,
    ensures
        resized(v, width, height) == v,
        surface_settings_for(width, height) is None,
{
}

/// A context is in its initial state exactly until the first present: after
/// any run of resizes and presents, it has presented iff the run holds a
/// present, whatever the sizes.
pub proof fn lemma_init_until_first_present(width: u32, height: u32, ops: Seq<GraphicsOp>)
    ensures
        after_ops(new_view(width, height), ops).presented <==> exists|i: int|
            0 <= i < ops.len() && #[trigger] ops[i] is Present,
    decreases ops.len(),
{
    if ops.len() > 0 {
        let prefix = ops.drop_last();
        lemma_init_until_first_present(width, height, prefix);
        if exists|i: int| 0 <= i < prefix.len() && #[trigger] prefix[i] is Present {
            let i = choose|i: int| 0 <= i < prefix.len() && #[trigger] prefix[i] is Present;
            assert(ops[i] is Present);
        }
        if exists|i: int| 0 <= i < ops.len() && #[trigger] ops[i] is Present {
            let i = choose|i: int| 0 <= i < ops.len() && #[trigger] ops[i] is Present;
            if i < prefix.len() {
                assert(prefix[i] is Present);
            }
        }
    }
}

/// Once a frame has been presented, no run of changes brings the context
/// back to its initial state.
pub proof fn lemma_presented_stays(v: GraphicsView, ops: Seq<GraphicsOp>)
    requires
        v.presented,
    ensures
        after_ops(v, ops).presented,
    decreases ops.len(),
{
    if ops.len() > 0 {
        lemma_presented_stays(v, ops.drop_last());
    }
}

pub open spec fn surface_settings_for(width: u32, height: u32) -> Option<SurfaceSettings> {
    if width > 0 && height > 0 {
        Some(SurfaceSettings { width, height, frame_latency: FRAME_LATENCY })
    } else {
        None
    }
}

} // verus!
