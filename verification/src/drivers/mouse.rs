//! PS/2 mouse driver: packet decoding, position tracking with screen
//! clamping, button state, and the event queue.

use vstd::prelude::*;

verus! {

/// Mouse buttons.
#[derive(Clone, Copy, Debug, PartialEq, Eq, Structural)]
pub enum MouseButton {
    /// Left button
    Left,
    /// Right button
    Right,
    /// Middle button
    Middle,
}

/// Kinds of mouse event.
#[derive(Clone, Copy, Debug, PartialEq, Eq, Structural)]
pub enum MouseEventType {
    /// Pointer moved
    Move,
    /// A button went down
    ButtonPress(MouseButton),
    /// A button came up
    ButtonRelease(MouseButton),
    /// The wheel scrolled
    Scroll,
}

/// A mouse event at a pointer position.
#[derive(Clone, Copy, Debug, PartialEq, Eq, Structural)]
pub struct MouseEvent {
    /// What happened
    pub event_type: MouseEventType,
    /// Pointer x at the event
    pub x: i32,
    /// Pointer y at the event
    pub y: i32,
    /// Wheel movement, if any
    pub scroll_delta: i8,
}

impl MouseEvent {
    /// A movement event.
    pub fn new_move(x: i32, y: i32) -> (r: Self)
        ensures
            r == (MouseEvent { event_type: MouseEventType::Move, x, y, scroll_delta: 0i8 }),
    {
        MouseEvent { event_type: MouseEventType::Move, x, y, scroll_delta: 0 }
    }

    /// A button press or release event.
    pub fn new_button(button: MouseButton, pressed: bool, x: i32, y: i32) -> (r: Self)
        ensures
            r == (MouseEvent {
                event_type: if pressed {
                    MouseEventType::ButtonPress(button)
                } else {
                    MouseEventType::ButtonRelease(button)
                },
                x,
                y,
                scroll_delta: 0i8,
            }),
    {
        MouseEvent {
            event_type: if pressed {
                MouseEventType::ButtonPress(button)
            } else {
                MouseEventType::ButtonRelease(button)
            },
            x,
            y,
            scroll_delta: 0,
        }
    }

    /// A scroll event.
    pub fn new_scroll(delta: i8, x: i32, y: i32) -> (r: Self)
        ensures
            r == (MouseEvent { event_type: MouseEventType::Scroll, x, y, scroll_delta: delta }),
    {
        MouseEvent { event_type: MouseEventType::Scroll, x, y, scroll_delta: delta }
    }
}

/// Pointer position and button state.
struct MouseState {
    /// Pointer x
    x: i32,
    /// Pointer y
    y: i32,
    /// Left button held
    left_button: bool,
    /// Right button held
    right_button: bool,
    /// Middle button held
    middle_button: bool,
}

/// A coordinate clamped into `[0, limit - 1]`.
pub open spec fn clamped(v: int, limit: int) -> int {
    if v < 0 {
        0
    } else if v > limit - 1 {
        limit - 1
    } else {
        v
    }
}

/// The mouse driver.
pub struct Mouse {
    /// Pointer and button state
    state: MouseState,
    /// Decoded events awaiting consumers, oldest first
    event_queue: Vec<MouseEvent>,
    /// Screen width in pixels
    screen_width: i32,
    /// Screen height in pixels
    screen_height: i32,
}

impl Mouse {
    /// Spec view of the pointer x.
    pub closed spec fn spec_x(&self) -> i32 {
        self.state.x
    }

    /// Spec view of the pointer y.
    pub closed spec fn spec_y(&self) -> i32 {
        self.state.y
    }

    /// Spec view of a button's held flag.
    pub closed spec fn spec_button(&self, button: MouseButton) -> bool {
        match button {
            MouseButton::Left => self.state.left_button,
            MouseButton::Right => self.state.right_button,
            MouseButton::Middle => self.state.middle_button,
        }
    }

    /// Spec view of the queued events.
    pub closed spec fn spec_queue(&self) -> Seq<MouseEvent> {
        self.event_queue@
    }

    /// Spec view of the screen width.
    pub closed spec fn spec_width(&self) -> i32 {
        self.screen_width
    }

    /// Spec view of the screen height.
    pub closed spec fn spec_height(&self) -> i32 {
        self.screen_height
    }

    /// Driver well-formedness: a positive screen and a pointer inside it.
    pub open spec fn wf(&self) -> bool {
        &&& 0 < self.spec_width()
        &&& 0 < self.spec_height()
        &&& 0 <= self.spec_x() < self.spec_width()
        &&& 0 <= self.spec_y() < self.spec_height()
    }

    /// A mouse centered at the origin of a screen, no buttons held.
    pub fn new(screen_width: i32, screen_height: i32) -> (r: Self)
        requires
            0 < screen_width,
            0 < screen_height,
        ensures
            r.wf(),
            r.spec_x() == 0,
            r.spec_y() == 0,
            !r.spec_button(MouseButton::Left),
            !r.spec_button(MouseButton::Right),
            !r.spec_button(MouseButton::Middle),
            r.spec_queue() == Seq::<MouseEvent>::empty(),
            r.spec_width() == screen_width,
            r.spec_height() == screen_height,
    {
        Mouse {
            state: MouseState {
                x: 0,
                y: 0,
                left_button: false,
                right_button: false,
                middle_button: false,
            },
            event_queue: Vec::new(),
            screen_width,
            screen_height,
        }
    }

    /// Decode one three-byte packet: flags, then x and y deltas as signed
    /// bytes (y inverted). The pointer moves by the deltas, clamped to the
    /// screen; a button whose flag bit changed produces a press or
    /// release event (left before right before middle), else any movement
    /// produces a move event, else nothing.
    pub fn process_packet(&mut self, packet: &[u8; 3]) -> (r: Option<MouseEvent>)
        requires
            old(self).wf(),
        ensures
            final(self).wf(),
            final(self).spec_queue() == old(self).spec_queue(),
            final(self).spec_width() == old(self).spec_width(),
            final(self).spec_height() == old(self).spec_height(),
            ({
                let flags = packet[0];
                let dx = packet[1] as i8 as int;
                let dy = -(packet[2] as i8 as int);
                let nx = clamped(old(self).spec_x() + dx, old(self).spec_width() as int);
                let ny = clamped(old(self).spec_y() + dy, old(self).spec_height() as int);
                let left = (flags & 0x01) != 0;
                let right = (flags & 0x02) != 0;
                let middle = (flags & 0x04) != 0;
                &&& final(self).spec_x() == nx
                &&& final(self).spec_y() == ny
                &&& final(self).spec_button(MouseButton::Left) == left
                &&& final(self).spec_button(MouseButton::Right) == right
                &&& final(self).spec_button(MouseButton::Middle) == middle
                &&& r == (if left != old(self).spec_button(MouseButton::Left) {
                    Some(
                        MouseEvent {
                            event_type: if left {
                                MouseEventType::ButtonPress(MouseButton::Left)
                            } else {
                                MouseEventType::ButtonRelease(MouseButton::Left)
                            },
                            x: nx as i32,
                            y: ny as i32,
                            scroll_delta: 0i8,
                        },
                    )
                } else if right != old(self).spec_button(MouseButton::Right) {
                    Some(
                        MouseEvent {
                            event_type: if right {
                                MouseEventType::ButtonPress(MouseButton::Right)
                            } else {
                                MouseEventType::ButtonRelease(MouseButton::Right)
                            },
                            x: nx as i32,
                            y: ny as i32,
                            scroll_delta: 0i8,
                        },
                    )
                } else if middle != old(self).spec_button(MouseButton::Middle) {
                    Some(
                        MouseEvent {
                            event_type: if middle {
                                MouseEventType::ButtonPress(MouseButton::Middle)
                            } else {
                                MouseEventType::ButtonRelease(MouseButton::Middle)
                            },
                            x: nx as i32,
                            y: ny as i32,
                            scroll_delta: 0i8,
                        },
                    )
                } else if dx != 0 || dy != 0 {
                    Some(
                        MouseEvent {
                            event_type: MouseEventType::Move,
                            x: nx as i32,
                            y: ny as i32,
                            scroll_delta: 0i8,
                        },
                    )
                } else {
                    None
                })
            }),
    {
        let flags = packet[0];
        let dx = packet[1] as i8 as i32;
        let dy_raw = packet[2] as i8 as i32;
        let dy = 0 - dy_raw;
        let moved_x = self.state.x as i64 + dx as i64;
        let moved_y = self.state.y as i64 + dy as i64;
        let nx = (if moved_x < 0 {
            0
        } else if moved_x > self.screen_width as i64 - 1 {
            self.screen_width as i64 - 1
        } else {
            moved_x
        }) as i32;
        let ny = (if moved_y < 0 {
            0
        } else if moved_y > self.screen_height as i64 - 1 {
            self.screen_height as i64 - 1
        } else {
            moved_y
        }) as i32;
        self.state.x = nx;
        self.state.y = ny;
        let left = (flags & 0x01) != 0;
        let right = (flags & 0x02) != 0;
        let middle = (flags & 0x04) != 0;
        let old_left = self.state.left_button;
        let old_right = self.state.right_button;
        let old_middle = self.state.middle_button;
        self.state.left_button = left;
        self.state.right_button = right;
        self.state.middle_button = middle;
        if left != old_left {
            return Some(MouseEvent::new_button(MouseButton::Left, left, nx, ny));
        }
        if right != old_right {
            return Some(MouseEvent::new_button(MouseButton::Right, right, nx, ny));
        }
        if middle != old_middle {
            return Some(MouseEvent::new_button(MouseButton::Middle, middle, nx, ny));
        }
        if dx != 0 || dy != 0 {
            return Some(MouseEvent::new_move(nx, ny));
        }
        None
    }

    /// Queue an event.
    pub fn push_event(&mut self, event: MouseEvent)
        ensures
            final(self).spec_queue() == old(self).spec_queue().push(event),
            final(self).spec_x() == old(self).spec_x(),
            final(self).spec_y() == old(self).spec_y(),
            final(self).spec_width() == old(self).spec_width(),
            final(self).spec_height() == old(self).spec_height(),
    {
        self.event_queue.push(event);
    }

    /// Take the oldest queued event, if any.
    pub fn pop_event(&mut self) -> (r: Option<MouseEvent>)
        ensures
            final(self).spec_x() == old(self).spec_x(),
            final(self).spec_y() == old(self).spec_y(),
            final(self).spec_width() == old(self).spec_width(),
            final(self).spec_height() == old(self).spec_height(),
            if old(self).spec_queue().len() == 0 {
                r is None && final(self).spec_queue() == old(self).spec_queue()
            } else {
                r == Some(old(self).spec_queue()[0]) && final(self).spec_queue() == old(self).spec_queue().skip(1)
            },
    {
        if self.event_queue.len() == 0 {
            return None;
        }
        let e = self.event_queue[0];
        let rest = self.event_queue.split_off(1);
        self.event_queue = rest;
        Some(e)
    }

    /// Take the oldest queued event, if any.
    pub fn get_event(&mut self) -> (r: Option<MouseEvent>)
        ensures
            final(self).spec_x() == old(self).spec_x(),
            final(self).spec_y() == old(self).spec_y(),
            if old(self).spec_queue().len() == 0 {
                r is None && final(self).spec_queue() == old(self).spec_queue()
            } else {
                r == Some(old(self).spec_queue()[0]) && final(self).spec_queue() == old(self).spec_queue().skip(1)
            },
    {
        self.pop_event()
    }

    /// The current pointer position.
    pub fn position(&self) -> (r: (i32, i32))
        ensures
            r.0 == self.spec_x(),
            r.1 == self.spec_y(),
    {
        (self.state.x, self.state.y)
    }

    /// Whether a button is currently held.
    pub fn is_button_pressed(&self, button: MouseButton) -> (r: bool)
        ensures
            r == self.spec_button(button),
    {
        match button {
            MouseButton::Left => self.state.left_button,
            MouseButton::Right => self.state.right_button,
            MouseButton::Middle => self.state.middle_button,
        }
    }

    /// Service a mouse interrupt. Reading the controller port belongs to
    /// the platform layer; no packet arrives through this core, so the
    /// driver state is untouched.
    pub fn handle_interrupt(&mut self)
        ensures
            *final(self) == *old(self),
    {
    }
}

} // verus!
