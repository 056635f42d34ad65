//! The eight buttons and how key presses map to them.

use vstd::prelude::*;

verus! {

/// A button of the console.
#[derive(PartialEq, Eq, Clone, Copy, Debug, Structural)]
pub enum GBButton {
    A,
    B,
    Select,
    Start,
    Up,
    Down,
    Left,
    Right,
}

/// A key of the keyboard, as far as the buttons are concerned.
#[derive(PartialEq, Eq, Clone, Copy, Debug, Structural)]
pub enum Key {
    Z,
    X,
    Up,
    Down,
    Left,
    Right,
    KpEnter,
    RShift,
    /// Any other key.
    Other,
}

/// An event of the window, as far as the buttons are concerned.
#[derive(PartialEq, Eq, Clone, Copy, Debug, Structural)]
pub enum InputEvent {
    /// A key went down.
    KeyDown(Key),
    /// The window is to be closed.
    Quit,
    /// Any other event.
    Other,
}

/// The button that a key stands for, if it stands for one.
pub open spec fn spec_button_for(key: Key) -> Option<GBButton> {
    match key {
        Key::Z => Some(GBButton::A),
        Key::X => Some(GBButton::B),
        Key::Up => Some(GBButton::Up),
        Key::Down => Some(GBButton::Down),
        Key::Left => Some(GBButton::Left),
        Key::Right => Some(GBButton::Right),
        Key::KpEnter => Some(GBButton::Start),
        Key::RShift => Some(GBButton::Select),
        Key::Other => None,
    }
}

#[verifier::when_used_as_spec(spec_button_for)]
pub fn button_for(key: Key) -> (button: Option<GBButton>)
    ensures
        button == spec_button_for(key),
{
    match key {
        Key::Z => Some(GBButton::A),
        Key::X => Some(GBButton::B),
        Key::Up => Some(GBButton::Up),
        Key::Down => Some(GBButton::Down),
        Key::Left => Some(GBButton::Left),
        Key::Right => Some(GBButton::Right),
        Key::KpEnter => Some(GBButton::Start),
        Key::RShift => Some(GBButton::Select),
        Key::Other => None,
    }
}

/// The buttons that the events press, in the order of the events.
pub open spec fn pressed(events: Seq<InputEvent>) -> Seq<GBButton>
    decreases events.len(),
{
    if events.len() == 0 {
        Seq::empty()
    } else {
        let before = pressed(events.drop_last());
        match events.last() {
            InputEvent::KeyDown(key) => match spec_button_for(key) {
                Some(button) => before.push(button),
                None => before,
            },
            _ => before,
        }
    }
}

/// Whether the first request to quit among `events` is the one at position
/// `n`, or, for `n` the number of events, there is none.
pub open spec fn stops_at(events: Seq<InputEvent>, n: int) -> bool {
    &&& 0 <= n <= events.len()
    &&& forall|i: int| 0 <= i < n ==> !(events[i] is Quit)
    &&& n < events.len() ==> events[n] is Quit
}

/// The buttons pressed since the events were last looked at.
pub struct EventHandler {
    pub events: Vec<GBButton>,
}

impl EventHandler {
    /// No button pressed.
    pub fn new() -> (handler: Self)
        ensures
            handler.events@ == Seq::<GBButton>::empty(),
    {
        Self { events: Vec::new() }
    }

    /// Whether `button` is among the buttons pressed.
    pub fn is_pressed(&self, button: GBButton) -> (answer: bool)
        ensures
            answer == self.events@.contains(button),
    {
        let mut i: usize = 0;
        while i < self.events.len()
            invariant
                i <= self.events.len(),
                forall|k: int| 0 <= k < i ==> self.events@[k] != button,
            decreases self.events.len() - i,
        {
            if self.events[i] == button {
                return true;
            }
            i += 1;
        }
        false
    }

    /// Forgets the buttons pressed before and takes those that `polled`
    /// presses, in order, up to the first request to quit.  Returns whether
    /// `polled` holds such a request.
    pub fn update_events(&mut self, polled: &Vec<InputEvent>) -> (quit: bool)
        ensures
            quit == (exists|i: int| 0 <= i < polled.len() && polled[i] is Quit),
            exists|n: int| #[trigger]
                stops_at(polled@, n) && quit == (n < polled.len()) && final(self).events@ == pressed(polled@.take(n)),
    {
        self.events.clear();
        let mut i: usize = 0;
        assert(polled@.take(0) =~= Seq::<InputEvent>::empty());
        while i < polled.len()
            invariant
                i <= polled.len(),
                forall|k: int| 0 <= k < i ==> !(polled[k] is Quit),
                self.events@ == pressed(polled@.take(i as int)),
            decreases polled.len() - i,
        {
            proof {
                assert(polled@.take(i + 1).drop_last() =~= polled@.take(i as int));
            }
            match polled[i] {
                InputEvent::KeyDown(key) => {
                    match button_for(key) {
                        Some(button) => self.events.push(button),
                        None => {},
                    }
                },
                InputEvent::Quit => {
                    assert(stops_at(polled@, i as int));
                    return true;
                },
                InputEvent::Other => {},
            }
            i += 1;
        }
        assert(stops_at(polled@, polled.len() as int));
        false
    }
}

} // verus!
