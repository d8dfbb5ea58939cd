//! The controller's input side: named buttons, discrete input events, and the
//! accumulated input report that is re-sent whole to the driver on every
//! update.

use vstd::prelude::*;

verus! {

/// One named button of the virtual controller.
#[derive(Debug, Clone, Copy, PartialEq, Eq, Structural)]
pub enum Button {
    DpadUp,
    DpadDown,
    DpadLeft,
    DpadRight,
    Start,
    Back,
    LeftThumb,
    RightThumb,
    LeftShoulder,
    RightShoulder,
    Guide,
    A,
    B,
    X,
    Y,
}

impl Button {
    /// The single bit this button occupies in the report's button bitmask.
    pub open spec fn spec_mask(self) -> u16 {
        match self {
            Button::DpadUp => 0x0001,
            Button::DpadDown => 0x0002,
            Button::DpadLeft => 0x0004,
            Button::DpadRight => 0x0008,
            Button::Start => 0x0010,
            Button::Back => 0x0020,
            Button::LeftThumb => 0x0040,
            Button::RightThumb => 0x0080,
            Button::LeftShoulder => 0x0100,
            Button::RightShoulder => 0x0200,
            Button::Guide => 0x0400,
            Button::A => 0x1000,
            Button::B => 0x2000,
            Button::X => 0x4000,
            Button::Y => 0x8000,
        }
    }

    /// The wire bitmask of this button, as the driver's report layout fixes it.
    pub fn mask(self) -> (r: u16)
        ensures
            r == self.spec_mask(),
    {
        match self {
            Button::DpadUp => 0x0001,
            Button::DpadDown => 0x0002,
            Button::DpadLeft => 0x0004,
            Button::DpadRight => 0x0008,
            Button::Start => 0x0010,
            Button::Back => 0x0020,
            Button::LeftThumb => 0x0040,
            Button::RightThumb => 0x0080,
            Button::LeftShoulder => 0x0100,
            Button::RightShoulder => 0x0200,
            Button::Guide => 0x0400,
            Button::A => 0x1000,
            Button::B => 0x2000,
            Button::X => 0x4000,
            Button::Y => 0x8000,
        }
    }
}

/// One discrete input event. Button events edit single bits of the bitmask;
/// trigger and thumbstick events overwrite their fields absolutely.
#[derive(Debug, Clone, Copy, PartialEq, Eq, Structural)]
pub enum Input {
    Pressed(Button),
    Released(Button),
    PressedLeftTrigger(i8),
    PressedRightTrigger(i8),
    MovedLeftThumbStick(i16, i16),
    MovedRightThumbStick(i16, i16),
}

/// The full input report, in the fixed layout the driver mandates: a 16-bit
/// button bitmask, two 8-bit trigger levels, and four signed 16-bit axes.
#[derive(Debug, Clone, Copy, PartialEq, Eq, Structural)]
pub struct Report {
    pub buttons: u16,
    pub left_trigger: i8,
    pub right_trigger: i8,
    pub thumb_lx: i16,
    pub thumb_ly: i16,
    pub thumb_rx: i16,
    pub thumb_ry: i16,
}

impl Report {
    /// The all-zero report a device starts from.
    pub open spec fn spec_zero() -> Report {
        Report {
            buttons: 0,
            left_trigger: 0,
            right_trigger: 0,
            thumb_lx: 0,
            thumb_ly: 0,
            thumb_rx: 0,
            thumb_ry: 0,
        }
    }

    /// The all-zero report a device starts from.
    pub fn zero() -> (r: Report)
        ensures
            r == Report::spec_zero(),
    {
        Report {
            buttons: 0,
            left_trigger: 0,
            right_trigger: 0,
            thumb_lx: 0,
            thumb_ly: 0,
            thumb_rx: 0,
            thumb_ry: 0,
        }
    }

    /// Whether this report marks `b` as pressed.
    pub open spec fn spec_pressed(self, b: Button) -> bool {
        self.buttons & b.spec_mask() != 0
    }

    /// The report after one input event: a press ORs the button's bit in, a
    /// release ANDs its complement out, trigger and thumbstick events
    /// overwrite their fields; nothing else changes.
    pub open spec fn spec_apply(self, input: Input) -> Report {
        match input {
            Input::Pressed(b) => Report { buttons: self.buttons | b.spec_mask(), ..self },
            Input::Released(b) => Report { buttons: self.buttons & !b.spec_mask(), ..self },
            Input::PressedLeftTrigger(level) => Report { left_trigger: level, ..self },
            Input::PressedRightTrigger(level) => Report { right_trigger: level, ..self },
            Input::MovedLeftThumbStick(x, y) => Report { thumb_lx: x, thumb_ly: y, ..self },
            Input::MovedRightThumbStick(x, y) => Report { thumb_rx: x, thumb_ry: y, ..self },
        }
    }

    /// The report after a whole sequence of input events, applied in order.
    pub open spec fn spec_apply_all(self, events: Seq<Input>) -> Report
        decreases events.len(),
    {
        if events.len() == 0 {
            self
        } else {
            self.spec_apply(events[0]).spec_apply_all(events.drop_first())
        }
    }

    /// Applies one input event to this report in place.
    pub fn apply(&mut self, input: Input)
        ensures
            *final(self) == old(self).spec_apply(input),
    {
        match input {
            Input::Pressed(button) => {
                let raw_button: u16 = button.mask();
                self.buttons = self.buttons | raw_button;
            },
            Input::Released(button) => {
                let raw_button: u16 = button.mask();
                self.buttons = self.buttons & !raw_button;
            },
            Input::PressedLeftTrigger(level) => {
                self.left_trigger = level;
            },
            Input::PressedRightTrigger(level) => {
                self.right_trigger = level;
            },
            Input::MovedLeftThumbStick(x, y) => {
                self.thumb_lx = x;
                self.thumb_ly = y;
            },
            Input::MovedRightThumbStick(x, y) => {
                self.thumb_rx = x;
                self.thumb_ry = y;
            },
        }
    }
}

/// Whether `x` is the bitmask of some button: one of the fifteen bits the
/// report layout assigns.
pub open spec fn spec_is_button_mask(x: u16) -> bool {
    ||| x == 0x0001
    ||| x == 0x0002
    ||| x == 0x0004
    ||| x == 0x0008
    ||| x == 0x0010
    ||| x == 0x0020
    ||| x == 0x0040
    ||| x == 0x0080
    ||| x == 0x0100
    ||| x == 0x0200
    ||| x == 0x0400
    ||| x == 0x1000
    ||| x == 0x2000
    ||| x == 0x4000
    ||| x == 0x8000
}

/// Every button's mask is one of the fifteen assigned bits, and no two
/// buttons share one.
pub proof fn lemma_masks_well_formed(a: Button, b: Button)
    ensures
        spec_is_button_mask(a.spec_mask()),
        a != b ==> a.spec_mask() != b.spec_mask(),
        a != b ==> a.spec_mask() & b.spec_mask() == 0,
{
    let x = a.spec_mask();
    let y = b.spec_mask();
    if a != b {
        assert(x & y == 0) by (bit_vector)
            requires
                spec_is_button_mask(x),
                spec_is_button_mask(y),
                x != y,
        ;
    }
}

/// Law: a press marks exactly the pressed button, a release unmarks exactly
/// the released one; no other button's state moves.
pub proof fn lemma_button_event_bits(r: Report, b: Button, other: Button)
    ensures
        r.spec_apply(Input::Pressed(b)).spec_pressed(b),
        !r.spec_apply(Input::Released(b)).spec_pressed(b),
        other != b ==> r.spec_apply(Input::Pressed(b)).spec_pressed(other) == r.spec_pressed(
            other,
        ),
        other != b ==> r.spec_apply(Input::Released(b)).spec_pressed(other) == r.spec_pressed(
            other,
        ),
{
    let x = r.buttons;
    let m = b.spec_mask();
    let n = other.spec_mask();
    lemma_masks_well_formed(b, other);
    assert((x | m) & m != 0) by (bit_vector)
        requires
            m != 0,
    ;
    assert(m != 0) by (bit_vector)
        requires
            spec_is_button_mask(m),
    ;
    assert((x & !m) & m == 0) by (bit_vector);
    if other != b {
        assert(((x | m) & n != 0) == (x & n != 0)) by (bit_vector)
            requires
                m & n == 0,
        ;
        assert(((x & !m) & n != 0) == (x & n != 0)) by (bit_vector)
            requires
                m & n == 0,
        ;
    }
}

/// Law: pressing an already-pressed button, or releasing an already-released
/// one, is a no-op on the accumulated report.
pub proof fn lemma_button_event_idempotent(r: Report, b: Button)
    ensures
        r.spec_apply(Input::Pressed(b)).spec_apply(Input::Pressed(b)) == r.spec_apply(
            Input::Pressed(b),
        ),
        r.spec_apply(Input::Released(b)).spec_apply(Input::Released(b)) == r.spec_apply(
            Input::Released(b),
        ),
{
    let x = r.buttons;
    let m = b.spec_mask();
    assert((x | m) | m == x | m) by (bit_vector);
    assert((x & !m) & !m == x & !m) by (bit_vector);
}

/// Law: the accumulated report is the in-order fold of its events — pushing
/// one more event onto a sequence applies it last.
pub proof fn lemma_apply_all_step(r: Report, events: Seq<Input>, e: Input)
    ensures
        r.spec_apply_all(events.push(e)) == r.spec_apply_all(events).spec_apply(e),
    decreases events.len(),
{
    reveal_with_fuel(Report::spec_apply_all, 2);
    if events.len() == 0 {
        assert(events.push(e)[0] == e);
        assert(events.push(e).drop_first() =~= Seq::<Input>::empty());
        assert(r.spec_apply_all(events.push(e)) == r.spec_apply(e).spec_apply_all(
            Seq::<Input>::empty(),
        ));
    } else {
        assert(events.push(e)[0] == events[0]);
        assert(events.push(e).drop_first() =~= events.drop_first().push(e));
        lemma_apply_all_step(r.spec_apply(events[0]), events.drop_first(), e);
        assert(r.spec_apply_all(events.push(e)) == r.spec_apply(events[0]).spec_apply_all(
            events.drop_first().push(e),
        ));
    }
}

/// Whether button `b` ends up pressed after `events` run, starting from
/// pressed-state `start`: the last press or release of `b` decides, and a
/// sequence that never touches `b` leaves `start` in force.
pub open spec fn spec_final_button_state(events: Seq<Input>, b: Button, start: bool) -> bool
    decreases events.len(),
{
    if events.len() == 0 {
        start
    } else {
        let next = if events[0] == Input::Pressed(b) {
            true
        } else if events[0] == Input::Released(b) {
            false
        } else {
            start
        };
        spec_final_button_state(events.drop_first(), b, next)
    }
}

/// Law: the accumulated bitmask is the presses and releases applied in event
/// order — after any sequence of events, a button is pressed exactly when
/// the last event that touched it was a press, or it was pressed before and
/// nothing touched it.
pub proof fn lemma_button_state_after_events(r: Report, events: Seq<Input>, b: Button)
    ensures
        r.spec_apply_all(events).spec_pressed(b) == spec_final_button_state(
            events,
            b,
            r.spec_pressed(b),
        ),
    decreases events.len(),
{
    if events.len() > 0 {
        let stepped = r.spec_apply(events[0]);
        match events[0] {
            Input::Pressed(b2) => lemma_button_event_bits(r, b2, b),
            Input::Released(b2) => lemma_button_event_bits(r, b2, b),
            _ => (),
        }
        lemma_button_state_after_events(stepped, events.drop_first(), b);
    }
}

/// Whether two events overwrite the same absolute control: the same trigger,
/// or the same thumbstick.
pub open spec fn spec_same_absolute_control(e1: Input, e2: Input) -> bool {
    ||| (e1 is PressedLeftTrigger && e2 is PressedLeftTrigger)
    ||| (e1 is PressedRightTrigger && e2 is PressedRightTrigger)
    ||| (e1 is MovedLeftThumbStick && e2 is MovedLeftThumbStick)
    ||| (e1 is MovedRightThumbStick && e2 is MovedRightThumbStick)
}

/// Law: trigger and thumbstick events are absolute overwrites — of two
/// events on the same control, only the later one is visible.
pub proof fn lemma_absolute_overwrite(r: Report, e1: Input, e2: Input)
    requires
        spec_same_absolute_control(e1, e2),
    ensures
        r.spec_apply(e1).spec_apply(e2) == r.spec_apply(e2),
{
}

/// Law: what one input event submitted can be read back exactly from the
/// accumulated report, whatever the report held before.
pub proof fn lemma_submitted_values_read_back(r: Report, e: Input)
    ensures
        e matches Input::PressedLeftTrigger(level) ==> r.spec_apply(e).left_trigger == level,
        e matches Input::PressedRightTrigger(level) ==> r.spec_apply(e).right_trigger == level,
        e matches Input::MovedLeftThumbStick(x, y) ==> r.spec_apply(e).thumb_lx == x
            && r.spec_apply(e).thumb_ly == y,
        e matches Input::MovedRightThumbStick(x, y) ==> r.spec_apply(e).thumb_rx == x
            && r.spec_apply(e).thumb_ry == y,
        e matches Input::Pressed(b) ==> r.spec_apply(e).spec_pressed(b),
        e matches Input::Released(b) ==> !r.spec_apply(e).spec_pressed(b),
{
    match e {
        Input::Pressed(b) => lemma_button_event_bits(r, b, b),
        Input::Released(b) => lemma_button_event_bits(r, b, b),
        _ => (),
    }
}

} // verus!
