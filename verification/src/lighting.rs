//! Event-driven lighting: the state a lighting processor derives from RMK
//! events, and when it must initialize or write the lighting hardware.
//!
//! The processor performs an initial write when it starts, then writes only
//! when the renderer reports a possible change or a previous driver write
//! remains pending. Initialization and write failures stay pending and are
//! retried on the next refresh or event.
use vstd::prelude::*;
use crate::event::KeyboardEvent;

verus! {

/// Outcome of one renderer pass: whether the rendered frame may differ from
/// the previously completed frame.
#[derive(Clone, Copy, Debug, Eq, PartialEq, Structural)]
pub struct LightingRenderResult {
    changed: bool,
}

impl LightingRenderResult {
    /// The rendered frame may differ from the previously completed frame.
    pub fn changed() -> (r: Self)
        ensures
            r.spec_changed(),
    {
        LightingRenderResult { changed: true }
    }

    /// The rendered frame is known to be unchanged.
    pub fn unchanged() -> (r: Self)
        ensures
            !r.spec_changed(),
    {
        LightingRenderResult { changed: false }
    }

    pub closed spec fn spec_changed(self) -> bool {
        self.changed
    }

    /// Whether the rendered frame may have changed.
    pub fn may_have_changed(self) -> (r: bool)
        ensures
            r == self.spec_changed(),
    {
        self.changed
    }
}

impl From<bool> for LightingRenderResult {
    fn from(changed: bool) -> (r: Self) {
        LightingRenderResult { changed }
    }
}

impl vstd::std_specs::convert::FromSpecImpl<bool> for LightingRenderResult {
    open spec fn obeys_from_spec() -> bool {
        true
    }

    closed spec fn from_spec(v: bool) -> Self {
        LightingRenderResult { changed: v }
    }
}

/// A result built from `changed` reports exactly that.
pub proof fn lemma_from_bool(changed: bool)
    ensures
        <LightingRenderResult as vstd::std_specs::convert::FromSpec<bool>>::from_spec(changed).spec_changed() == changed,
{
}

/// A command for the active lighting controller: a resolved light action
/// (by its code) and its key edge.
#[derive(Clone, Copy, Debug, Eq, PartialEq, Structural)]
pub enum LightingCommand {
    Action { action: u16, pressed: bool },
}

/// An RMK event delivered to a lighting renderer.
#[derive(Clone, Copy, Debug, Eq, PartialEq, Structural)]
pub enum LightingEvent {
    /// A key or encoder input event.
    Keyboard(KeyboardEvent),
    /// The effective layer changed.
    LayerChanged(u8),
    /// Host keyboard LED indicators changed (HID indicator bits).
    IndicatorsChanged(u8),
    /// RMK entered or left sleep.
    SleepChanged(bool),
    /// A keymap or host control command.
    Command(LightingCommand),
}

/// Current RMK state made available to lighting renderers.
#[derive(Clone, Copy, Debug, Eq, PartialEq, Structural)]
pub struct LightingContext {
    /// Current effective (topmost) layer.
    pub effective_layer: u8,
    /// Host keyboard LED indicators (HID indicator bits).
    pub indicators: u8,
    /// Whether RMK has entered its sleep state.
    pub sleeping: bool,
}

impl Default for LightingContext {
    fn default() -> (r: Self)
        ensures
            r == (LightingContext { effective_layer: 0, indicators: 0, sleeping: false }),
    {
        LightingContext { effective_layer: 0, indicators: 0, sleeping: false }
    }
}

/// The context after `event`: state events update their field, transient
/// events leave it unchanged.
pub open spec fn spec_apply_event(c: LightingContext, event: LightingEvent) -> LightingContext {
    match event {
        LightingEvent::LayerChanged(layer) => LightingContext { effective_layer: layer, ..c },
        LightingEvent::IndicatorsChanged(bits) => LightingContext { indicators: bits, ..c },
        LightingEvent::SleepChanged(sleeping) => LightingContext { sleeping, ..c },
        _ => c,
    }
}

/// What the hardware needs before the current frame is visible.
#[derive(Clone, Copy, Debug, Eq, PartialEq, Structural)]
pub enum RefreshStep {
    /// Initialize the driver first.
    Init,
    /// Render; the driver is initialized.
    Render,
}

/// The lighting processor's own state: the event-derived context, the last
/// rendered frame, and whether the driver is initialized and a write pending.
pub struct LightingProcessor<P, const N: usize> {
    context: LightingContext,
    frame: [P; N],
    initialized: bool,
    pending_write: bool,
}

impl<P: Copy, const N: usize> LightingProcessor<P, N> {
    pub closed spec fn spec_context(&self) -> LightingContext {
        self.context
    }

    pub closed spec fn spec_frame(&self) -> [P; N] {
        self.frame
    }

    pub closed spec fn spec_initialized(&self) -> bool {
        self.initialized
    }

    pub closed spec fn spec_pending_write(&self) -> bool {
        self.pending_write
    }

    /// A processor over caller-provided initial frame storage. Hardware
    /// state is unknown until the first successful write.
    pub fn new(frame: [P; N]) -> (r: Self)
        ensures
            r.spec_context() == (LightingContext { effective_layer: 0, indicators: 0, sleeping: false }),
            r.spec_frame() == frame,
            !r.spec_initialized(),
            r.spec_pending_write(),
    {
        LightingProcessor { context: LightingContext::default(), frame, initialized: false, pending_write: true }
    }

    /// Current event-derived lighting state.
    pub fn context(&self) -> (r: &LightingContext)
        ensures
            *r == self.spec_context(),
    {
        &self.context
    }

    /// Last logical frame produced by the renderer.
    pub fn frame(&self) -> (r: &[P; N])
        ensures
            *r == self.spec_frame(),
    {
        &self.frame
    }

    /// Fold an event into the context; it is updated before the renderer
    /// sees the event.
    pub fn handle_event(&mut self, event: LightingEvent)
        ensures
            final(self).spec_context() == spec_apply_event(old(self).spec_context(), event),
            final(self).spec_frame() == old(self).spec_frame(),
            final(self).spec_initialized() == old(self).spec_initialized(),
            final(self).spec_pending_write() == old(self).spec_pending_write(),
    {
        match event {
            LightingEvent::Keyboard(_) => {},
            LightingEvent::LayerChanged(layer) => {
                self.context.effective_layer = layer;
            },
            LightingEvent::IndicatorsChanged(bits) => {
                self.context.indicators = bits;
            },
            LightingEvent::SleepChanged(sleeping) => {
                self.context.sleeping = sleeping;
            },
            LightingEvent::Command(_) => {},
        }
    }

    /// First step of a refresh: initialize the driver until that succeeds.
    pub fn refresh_step(&self) -> (r: RefreshStep)
        ensures
            r == (if self.spec_initialized() { RefreshStep::Render } else { RefreshStep::Init }),
    {
        if self.initialized { RefreshStep::Render } else { RefreshStep::Init }
    }

    /// The driver initialized successfully.
    pub fn init_done(&mut self)
        ensures
            final(self).spec_initialized(),
            final(self).spec_context() == old(self).spec_context(),
            final(self).spec_frame() == old(self).spec_frame(),
            final(self).spec_pending_write() == old(self).spec_pending_write(),
    {
        self.initialized = true;
    }

    /// Keep a rendered frame; returns whether the driver must be written:
    /// the frame may have changed, or an earlier write is still pending.
    pub fn rendered(&mut self, frame: [P; N], result: LightingRenderResult) -> (write: bool)
        ensures
            final(self).spec_frame() == frame,
            write == (old(self).spec_pending_write() || result.spec_changed()),
            final(self).spec_pending_write() == write,
            final(self).spec_context() == old(self).spec_context(),
            final(self).spec_initialized() == old(self).spec_initialized(),
    {
        self.frame = frame;
        if result.may_have_changed() {
            self.pending_write = true;
        }
        self.pending_write
    }

    /// The driver accepted the current frame.
    pub fn write_done(&mut self)
        ensures
            !final(self).spec_pending_write(),
            final(self).spec_context() == old(self).spec_context(),
            final(self).spec_frame() == old(self).spec_frame(),
            final(self).spec_initialized() == old(self).spec_initialized(),
    {
        self.pending_write = false;
    }
}

} // verus!
