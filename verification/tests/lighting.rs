use rmk::event::{KeyPos, KeyboardEvent, KeyboardEventPos};
use rmk::lighting::{
    LightingCommand, LightingContext, LightingEvent, LightingProcessor, LightingRenderResult, RefreshStep,
};

#[derive(Clone, Copy, Debug, Eq, PartialEq)]
enum FakeError {
    Init,
    Write,
}

struct FakeDriver<P: Copy, const N: usize> {
    init_calls: usize,
    write_calls: usize,
    fail_init_once: bool,
    fail_write_once: bool,
    last_frame: [P; N],
}

impl<P: Copy, const N: usize> FakeDriver<P, N> {
    fn new(initial: P) -> Self {
        Self { init_calls: 0, write_calls: 0, fail_init_once: false, fail_write_once: false, last_frame: [initial; N] }
    }

    fn init(&mut self) -> Result<(), FakeError> {
        self.init_calls += 1;
        if std::mem::take(&mut self.fail_init_once) {
            Err(FakeError::Init)
        } else {
            Ok(())
        }
    }

    fn write(&mut self, frame: &[P; N]) -> Result<(), FakeError> {
        self.write_calls += 1;
        if std::mem::take(&mut self.fail_write_once) {
            return Err(FakeError::Write);
        }
        self.last_frame = *frame;
        Ok(())
    }
}

trait Renderer<P> {
    fn on_event(&mut self, event: LightingEvent, context: &LightingContext);
    fn render(&mut self, context: &LightingContext, frame: &mut [P]) -> LightingRenderResult;
}

#[derive(Default)]
struct StateRenderer {
    events: usize,
    last_event: Option<LightingEvent>,
}

impl Renderer<u8> for StateRenderer {
    fn on_event(&mut self, event: LightingEvent, _context: &LightingContext) {
        self.events += 1;
        self.last_event = Some(event);
    }

    fn render(&mut self, context: &LightingContext, frame: &mut [u8]) -> LightingRenderResult {
        let next = if context.sleeping {
            0
        } else if context.indicators & 2 != 0 {
            0x80
        } else {
            context.effective_layer
        };
        let changed = frame.iter().any(|pixel| *pixel != next);
        frame.fill(next);
        changed.into()
    }
}

/// The processor, its driver and its renderer, wired as the firmware does.
struct Rig<P: Copy, R: Renderer<P>, const N: usize> {
    processor: LightingProcessor<P, N>,
    driver: FakeDriver<P, N>,
    renderer: R,
}

impl<P: Copy, R: Renderer<P>, const N: usize> Rig<P, R, N> {
    fn refresh(&mut self) -> Result<bool, FakeError> {
        if self.processor.refresh_step() == RefreshStep::Init {
            self.driver.init()?;
            self.processor.init_done();
        }
        let mut frame = *self.processor.frame();
        let result = self.renderer.render(self.processor.context(), &mut frame);
        if !self.processor.rendered(frame, result) {
            return Ok(false);
        }
        self.driver.write(self.processor.frame())?;
        self.processor.write_done();
        Ok(true)
    }

    fn handle(&mut self, event: LightingEvent) {
        self.processor.handle_event(event);
        self.renderer.on_event(event, self.processor.context());
        let _ = self.refresh();
    }
}

fn rig<P: Copy, R: Renderer<P>, const N: usize>(driver: FakeDriver<P, N>, renderer: R, frame: [P; N]) -> Rig<P, R, N> {
    Rig { processor: LightingProcessor::new(frame), driver, renderer }
}

#[test]
fn initializes_and_writes_the_first_frame_once() {
    let mut p = rig(FakeDriver::<u8, 3>::new(0xff), StateRenderer::default(), [0; 3]);

    assert_eq!(p.refresh(), Ok(true));
    assert_eq!(p.driver.init_calls, 1);
    assert_eq!(p.driver.write_calls, 1);
    assert_eq!(p.driver.last_frame, [0; 3]);

    assert_eq!(p.refresh(), Ok(false));
    assert_eq!(p.driver.init_calls, 1);
    assert_eq!(p.driver.write_calls, 1);
}

#[test]
fn updates_context_before_notifying_and_rendering() {
    let mut p = rig(FakeDriver::<u8, 2>::new(0), StateRenderer::default(), [0; 2]);
    p.refresh().unwrap();

    p.handle(LightingEvent::LayerChanged(3));
    assert_eq!(p.processor.context().effective_layer, 3);
    assert_eq!(*p.processor.frame(), [3; 2]);

    p.handle(LightingEvent::IndicatorsChanged(2));
    assert_eq!(p.processor.context().indicators, 2);
    assert_eq!(*p.processor.frame(), [0x80; 2]);

    p.handle(LightingEvent::SleepChanged(true));
    assert!(p.processor.context().sleeping);
    assert_eq!(*p.processor.frame(), [0; 2]);
    assert_eq!(p.renderer.events, 3);
    assert_eq!(p.driver.write_calls, 4);
}

struct ReactiveRenderer {
    pressed: bool,
}

impl Renderer<bool> for ReactiveRenderer {
    fn on_event(&mut self, event: LightingEvent, _context: &LightingContext) {
        if let LightingEvent::Keyboard(event) = event {
            self.pressed = event.pressed;
        }
    }

    fn render(&mut self, _context: &LightingContext, frame: &mut [bool]) -> LightingRenderResult {
        let changed = frame[0] != self.pressed;
        frame[0] = self.pressed;
        changed.into()
    }
}

#[test]
fn delivers_transient_keyboard_events_without_polling() {
    let mut p = rig(FakeDriver::<bool, 1>::new(false), ReactiveRenderer { pressed: false }, [false; 1]);
    p.refresh().unwrap();

    p.handle(LightingEvent::Keyboard(KeyboardEvent::key(1, 2, true)));
    assert_eq!(*p.processor.frame(), [true]);
    p.handle(LightingEvent::Keyboard(KeyboardEvent::key(1, 2, false)));
    assert_eq!(*p.processor.frame(), [false]);
    assert_eq!(p.driver.write_calls, 3);
}

#[test]
fn retries_initialization_and_failed_writes() {
    let mut driver = FakeDriver::<u8, 1>::new(0);
    driver.fail_init_once = true;
    let mut p = rig(driver, StateRenderer::default(), [0; 1]);

    assert_eq!(p.refresh(), Err(FakeError::Init));
    assert_eq!(p.refresh(), Ok(true));
    assert_eq!(p.driver.init_calls, 2);

    p.driver.fail_write_once = true;
    p.handle(LightingEvent::LayerChanged(2));
    assert_eq!(p.driver.write_calls, 2);
    assert_eq!(p.driver.last_frame, [0]);

    assert_eq!(p.refresh(), Ok(true));
    assert_eq!(p.driver.write_calls, 3);
    assert_eq!(p.driver.last_frame, [2]);
}

#[test]
fn event_type_preserves_keyboard_position() {
    let event = KeyboardEvent::key(4, 5, true);
    let wrapped = LightingEvent::Keyboard(event);
    assert_eq!(wrapped, LightingEvent::Keyboard(event));
    assert_eq!(event.pos, KeyboardEventPos::Key(KeyPos { row: 4, col: 5 }));
}

#[test]
fn delivers_light_actions_through_the_command_boundary() {
    let mut p = rig(FakeDriver::<u8, 1>::new(0), StateRenderer::default(), [0; 1]);
    p.refresh().unwrap();

    let command = LightingCommand::Action { action: 0x0600, pressed: true };
    p.handle(LightingEvent::Command(command));

    assert_eq!(p.renderer.last_event, Some(LightingEvent::Command(LightingCommand::Action { action: 0x0600, pressed: true })));
    // Commands leave the context as it was.
    assert_eq!(*p.processor.context(), LightingContext::default());
}

#[test]
fn render_results_convert_from_bool() {
    assert!(LightingRenderResult::from(true).may_have_changed());
    assert!(!LightingRenderResult::from(false).may_have_changed());
    assert!(LightingRenderResult::changed().may_have_changed());
    assert!(!LightingRenderResult::unchanged().may_have_changed());
}
