use vigem_client::Button;
use vigem_client::Input;
use vigem_client::Report;

#[test]
fn button_masks_match_wire_layout() {
    assert_eq!(Button::DpadUp.mask(), 0x0001);
    assert_eq!(Button::DpadDown.mask(), 0x0002);
    assert_eq!(Button::DpadLeft.mask(), 0x0004);
    assert_eq!(Button::DpadRight.mask(), 0x0008);
    assert_eq!(Button::Start.mask(), 0x0010);
    assert_eq!(Button::Back.mask(), 0x0020);
    assert_eq!(Button::LeftThumb.mask(), 0x0040);
    assert_eq!(Button::RightThumb.mask(), 0x0080);
    assert_eq!(Button::LeftShoulder.mask(), 0x0100);
    assert_eq!(Button::RightShoulder.mask(), 0x0200);
    assert_eq!(Button::Guide.mask(), 0x0400);
    assert_eq!(Button::A.mask(), 0x1000);
    assert_eq!(Button::B.mask(), 0x2000);
    assert_eq!(Button::X.mask(), 0x4000);
    assert_eq!(Button::Y.mask(), 0x8000);
}

#[test]
fn press_and_release_edit_single_bits() {
    let mut r = Report::zero();
    r.apply(Input::Pressed(Button::A));
    assert_eq!(r.buttons, 0x1000);
    r.apply(Input::Pressed(Button::B));
    assert_eq!(r.buttons, 0x3000);
    r.apply(Input::Released(Button::A));
    assert_eq!(r.buttons, 0x2000);
    r.apply(Input::Released(Button::A));
    assert_eq!(r.buttons, 0x2000);
}

#[test]
fn pressing_an_already_pressed_button_is_a_no_op() {
    let mut r = Report::zero();
    r.apply(Input::Pressed(Button::X));
    let once = r;
    r.apply(Input::Pressed(Button::X));
    assert_eq!(r, once);
}

#[test]
fn bitmask_follows_event_order() {
    let mut r = Report::zero();
    r.apply(Input::Pressed(Button::DpadUp));
    r.apply(Input::Pressed(Button::Start));
    r.apply(Input::Released(Button::DpadUp));
    r.apply(Input::Pressed(Button::Guide));
    assert_eq!(r.buttons, 0x0010 | 0x0400);
}

#[test]
fn triggers_are_absolute_overwrites() {
    let mut r = Report::zero();
    r.apply(Input::PressedLeftTrigger(17));
    r.apply(Input::PressedLeftTrigger(-5));
    assert_eq!(r.left_trigger, -5);
    r.apply(Input::PressedRightTrigger(99));
    r.apply(Input::PressedRightTrigger(3));
    assert_eq!(r.right_trigger, 3);
    assert_eq!(r.left_trigger, -5);
}

#[test]
fn thumbsticks_are_absolute_overwrites() {
    let mut r = Report::zero();
    r.apply(Input::MovedLeftThumbStick(100, -200));
    r.apply(Input::MovedLeftThumbStick(-32768, 32767));
    assert_eq!(r.thumb_lx, -32768);
    assert_eq!(r.thumb_ly, 32767);
    r.apply(Input::MovedRightThumbStick(5, 6));
    r.apply(Input::MovedRightThumbStick(7, 8));
    assert_eq!(r.thumb_rx, 7);
    assert_eq!(r.thumb_ry, 8);
    assert_eq!(r.thumb_lx, -32768);
}

#[test]
fn submitted_values_read_back_exactly() {
    let mut r = Report::zero();
    r.apply(Input::Pressed(Button::Y));
    r.apply(Input::PressedLeftTrigger(42));
    r.apply(Input::PressedRightTrigger(-1));
    r.apply(Input::MovedLeftThumbStick(1234, -1234));
    r.apply(Input::MovedRightThumbStick(-7, 7));
    assert_eq!(r.buttons, 0x8000);
    assert_eq!(r.left_trigger, 42);
    assert_eq!(r.right_trigger, -1);
    assert_eq!(r.thumb_lx, 1234);
    assert_eq!(r.thumb_ly, -1234);
    assert_eq!(r.thumb_rx, -7);
    assert_eq!(r.thumb_ry, 7);
}
