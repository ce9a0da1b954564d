//! Planning of host input-injection events: button-name parsing,
//! click, scroll and key-text dispatch, and the mouse-move pipeline
//! from monitor resolution to absolute coordinates.

use vstd::prelude::*;

use crate::monitor::MonitorDescriptor;
use crate::monitor::NormalizedPoint;
use crate::monitor::absolute_coord;
use crate::monitor::in_magnitude_bound;
use crate::monitor::map_to_absolute;
use crate::monitor::resolve;
use crate::monitor::resolved_monitor;

verus! {

/// A mouse button the injector recognises.
#[derive(Clone, Copy, PartialEq, Eq, Structural, Debug)]
pub enum MouseButton {
    Left,
    Right,
    Middle,
}

/// Axis of a scroll event.
#[derive(Clone, Copy, PartialEq, Eq, Structural, Debug)]
pub enum ScrollAxis {
    Vertical,
    Horizontal,
}

/// One host input-injection call. Transient: constructed, handed to
/// the host injector, never queued or persisted.
#[derive(Debug)]
pub enum InputEvent {
    /// Move the pointer to an absolute position in host global
    /// coordinates.
    MouseMove { x: i64, y: i64 },
    /// A single press-and-release of a button.
    ButtonClick { button: MouseButton },
    /// A scroll of `amount` steps along one axis.
    Scroll { amount: i32, axis: ScrollAxis },
    /// Type the literal text through the host's text-typing facility.
    KeyText { text: String },
}

/// The button a name denotes: exactly "left", "right" or "middle";
/// anything else denotes no button.
pub open spec fn spec_parse_button(s: Seq<char>) -> Option<MouseButton> {
    if s == "left"@ {
        Some(MouseButton::Left)
    } else if s == "right"@ {
        Some(MouseButton::Right)
    } else if s == "middle"@ {
        Some(MouseButton::Middle)
    } else {
        None
    }
}

/// Parses a button name; unrecognised names yield `None`, which
/// callers treat as a silent no-op rather than an error.
pub fn parse_button(button: &str) -> (r: Option<MouseButton>)
    ensures
        r == spec_parse_button(button@),
{
    let b = button.to_owned();
    if b == "left".to_owned() {
        Some(MouseButton::Left)
    } else if b == "right".to_owned() {
        Some(MouseButton::Right)
    } else if b == "middle".to_owned() {
        Some(MouseButton::Middle)
    } else {
        None
    }
}

/// The event a click command issues: one press-and-release for a
/// recognised button name, nothing at all for any other name.
pub open spec fn click_plan(s: Seq<char>) -> Option<InputEvent> {
    match spec_parse_button(s) {
        Some(b) => Some(InputEvent::ButtonClick { button: b }),
        None => None,
    }
}

/// Plans a click: a recognised button becomes a single click event,
/// an unrecognised name becomes no event and no error.
pub fn plan_click(button: &str) -> (r: Option<InputEvent>)
    ensures
        r == click_plan(button@),
{
    match parse_button(button) {
        Some(b) => Some(InputEvent::ButtonClick { button: b }),
        None => None,
    }
}

/// The events a scroll command issues: a vertical scroll only when
/// `delta_y != 0`, then a horizontal scroll only when `delta_x != 0`.
/// Zero deltas are legal and produce no event on that axis.
pub open spec fn scroll_plan(delta_x: i32, delta_y: i32) -> Seq<InputEvent> {
    let vertical: Seq<InputEvent> = if delta_y != 0 {
        seq![InputEvent::Scroll { amount: delta_y, axis: ScrollAxis::Vertical }]
    } else {
        Seq::empty()
    };
    let horizontal: Seq<InputEvent> = if delta_x != 0 {
        seq![InputEvent::Scroll { amount: delta_x, axis: ScrollAxis::Horizontal }]
    } else {
        Seq::empty()
    };
    vertical + horizontal
}

/// Plans a scroll: at most two host events, vertical first, each axis
/// skipped when its delta is zero.
pub fn plan_scroll(delta_x: i32, delta_y: i32) -> (r: Vec<InputEvent>)
    ensures
        r@ == scroll_plan(delta_x, delta_y),
{
    let mut r: Vec<InputEvent> = Vec::new();
    if delta_y != 0 {
        r.push(InputEvent::Scroll { amount: delta_y, axis: ScrollAxis::Vertical });
    }
    if delta_x != 0 {
        r.push(InputEvent::Scroll { amount: delta_x, axis: ScrollAxis::Horizontal });
    }
    proof {
        assert(r@ =~= scroll_plan(delta_x, delta_y));
    }
    r
}

/// Plans a key command: the literal text is handed to the host's
/// text-typing facility as one event, with no per-character control
/// or modifier interpretation.
pub fn plan_key(text: String) -> (r: InputEvent)
    ensures
        r == (InputEvent::KeyText { text }),
{
    InputEvent::KeyText { text }
}

/// The event a mouse-move command issues once a monitor is resolved:
/// an absolute move to the normalized point mapped onto that monitor.
pub open spec fn mouse_move_plan(m: MonitorDescriptor, p: NormalizedPoint) -> InputEvent {
    InputEvent::MouseMove {
        x: absolute_coord(m.origin_x as int, p.x_micros as int, m.width as int) as i64,
        y: absolute_coord(m.origin_y as int, p.y_micros as int, m.height as int) as i64,
    }
}

/// Plans a mouse move: resolves the optional target name against the
/// attached monitors (or the host-reported current monitor), and maps
/// the normalized point onto the resolved monitor. When resolution
/// finds no monitor the plan is empty — a deliberate silent no-op,
/// since the monitor configuration can change between discovery and
/// use. The magnitude bound on the point is a machine limit only.
pub fn plan_mouse_move(
    monitors: &Vec<MonitorDescriptor>,
    target: &Option<String>,
    current: &Option<MonitorDescriptor>,
    point: &NormalizedPoint,
) -> (r: Option<InputEvent>)
    requires
        in_magnitude_bound(*point),
    ensures
        match resolved_monitor(monitors@, *target, *current) {
            Some(m) => r == Some(mouse_move_plan(m, *point)),
            None => r is None,
        },
{
    match resolve(monitors, target, current) {
        Some(m) => {
            let (x, y) = map_to_absolute(m, point);
            Some(InputEvent::MouseMove { x, y })
        },
        None => None,
    }
}

} // verus!
