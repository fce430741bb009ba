use robotjs::apply_actions;
use robotjs::InputAction;
use robotjs::PixelBuffer;
use robotjs::resolve_capture_region;
use robotjs::to_hex;
use robotjs::InvalidInput;
use robotjs::RobotError;
use robotjs::RobotJS;

const TEST_MOUSE_X: i32 = 100;
const TEST_MOUSE_Y: i32 = 100;
const TEST_STRING: &str = "Hello, RobotJS!";

#[test]
fn test_mouse_movement() {
    let robot = RobotJS::new();

    let plan = robot.move_mouse(TEST_MOUSE_X, TEST_MOUSE_Y);
    let (x, y) = apply_actions(&plan, 0, 0);

    assert_eq!(x, TEST_MOUSE_X);
    assert_eq!(y, TEST_MOUSE_Y);
}

#[test]
fn test_keyboard_input() {
    let robot = RobotJS::new();
    let _plan = robot.type_string(TEST_STRING.to_string());
}

#[test]
fn test_screen_capture() {
    let frame = vec![0u8; 1920 * 1080 * 4];
    let screenshot = PixelBuffer::from_frame(1920, 1080, frame).unwrap();

    let width: i32 = screenshot.width;
    let height: i32 = screenshot.height;
    let image_data: Vec<u8> = screenshot.data;

    assert!(width > 0);
    assert!(height > 0);
    assert!(!image_data.is_empty());
}

#[test]
fn test_pixel_color() {
    let robot = RobotJS::new();
    let buffer = PixelBuffer::from_frame(1, 1, vec![12, 200, 7, 255]).unwrap();
    let color = robot.get_color(&buffer, 0, 0).unwrap();

    assert!(color.starts_with('#'));
    assert_eq!(color.len(), 7);
}

#[test]
fn test_capture_screen_full_display() {
    let region = resolve_capture_region(None, None, None, None, 1920, 1080);
    assert_eq!(region, (0, 0, 1920, 1080));

    let buffer = PixelBuffer::from_frame(1920, 1080, vec![0u8; 1920 * 1080 * 4]).unwrap();
    assert_eq!(buffer.width, 1920);
    assert_eq!(buffer.height, 1080);
    assert_eq!(buffer.data.len(), 1920 * 1080 * 4);
    assert_eq!(buffer.byte_width(), 1920 * 4);
    assert_eq!(buffer.bits_per_pixel(), 32);
    assert_eq!(buffer.bytes_per_pixel(), 4);
}

#[test]
fn test_capture_region_explicit() {
    let region = resolve_capture_region(Some(10), Some(20), Some(300), None, 1920, 1080);
    assert_eq!(region, (10, 20, 300, 1080));
}

#[test]
fn test_get_color_second_pixel() {
    let robot = RobotJS::new();
    let buffer = PixelBuffer::from_frame(2, 1, vec![255, 0, 0, 255, 0, 255, 0, 255]).unwrap();
    assert_eq!(robot.get_color(&buffer, 1, 0).unwrap(), "#00ff00");
    assert_eq!(robot.get_color(&buffer, 0, 0).unwrap(), "#ff0000");
}

#[test]
fn test_get_color_out_of_bounds() {
    let robot = RobotJS::new();
    let buffer = PixelBuffer::from_frame(2, 1, vec![255, 0, 0, 255, 0, 255, 0, 255]).unwrap();
    assert_eq!(robot.get_color(&buffer, 2, 0), Err(RobotError::OutOfBounds));
    assert_eq!(robot.get_color(&buffer, -1, 0), Err(RobotError::OutOfBounds));
    assert_eq!(robot.get_color(&buffer, 0, 1), Err(RobotError::OutOfBounds));
    assert_eq!(robot.get_color(&buffer, 0, -1), Err(RobotError::OutOfBounds));
}

#[test]
fn test_from_frame_rejects_mismatch() {
    assert_eq!(
        PixelBuffer::from_frame(2, 1, vec![0u8; 7]).err(),
        Some(RobotError::BackendUnavailable)
    );
    assert_eq!(
        PixelBuffer::from_frame(-1, 1, vec![]).err(),
        Some(RobotError::BackendUnavailable)
    );
}

#[test]
fn test_to_hex_formats() {
    assert_eq!(to_hex(255, 0, 160), "#ff00a0");
    assert_eq!(to_hex(0, 0, 0), "#000000");
    assert_eq!(to_hex(255, 255, 255), "#ffffff");
    assert_eq!(to_hex(1, 2, 3), "#010203");
}

#[test]
fn test_hex_is_lowercase_hex() {
    let s = to_hex(0xAB, 0xCD, 0xEF);
    assert_eq!(s.len(), 7);
    let chars: Vec<char> = s.chars().collect();
    assert_eq!(chars[0], '#');
    for c in &chars[1..] {
        assert!(c.is_ascii_hexdigit());
        assert!(!c.is_ascii_uppercase());
    }
}

#[test]
fn test_mouse_toggle_states() {
    let robot = RobotJS::new();
    let down = robot.mouse_toggle(Some("down".to_string()), None).unwrap();
    assert_eq!(
        down,
        vec![
            InputAction::MouseDown(robotjs::Button::Left),
            InputAction::Sleep(10),
        ]
    );
    let up = robot
        .mouse_toggle(Some("up".to_string()), Some("right".to_string()))
        .unwrap();
    assert_eq!(
        up,
        vec![
            InputAction::MouseUp(robotjs::Button::Right),
            InputAction::Sleep(10),
        ]
    );
    assert_eq!(
        robot.mouse_toggle(Some("sideways".to_string()), None),
        Err(RobotError::InvalidArgument(InvalidInput::MouseToggleState))
    );
    assert_eq!(
        robot.mouse_toggle(None, None),
        Err(RobotError::InvalidArgument(InvalidInput::MouseToggleState))
    );
}

#[test]
fn test_key_toggle_states() {
    let robot = RobotJS::new();
    let down = robot.key_toggle("a".to_string(), Some("down".to_string()), None).unwrap();
    assert_eq!(down, vec![InputAction::KeyDown('a'), InputAction::Sleep(10)]);
    assert_eq!(
        robot.key_toggle("a".to_string(), Some("held".to_string()), None),
        Err(RobotError::InvalidArgument(InvalidInput::KeyToggleState))
    );
    assert_eq!(
        robot.key_toggle("a".to_string(), None, None),
        Err(RobotError::InvalidArgument(InvalidInput::KeyToggleState))
    );
}

#[test]
fn test_key_toggle_modifier_bracketing() {
    let robot = RobotJS::new();
    let plan = robot
        .key_toggle(
            "a".to_string(),
            Some("up".to_string()),
            Some(vec!["shift".to_string(), "ctrl".to_string()]),
        )
        .unwrap();
    assert_eq!(
        plan,
        vec![
            InputAction::KeyDown('s'),
            InputAction::KeyDown('c'),
            InputAction::KeyUp('a'),
            InputAction::KeyUp('c'),
            InputAction::KeyUp('s'),
            InputAction::Sleep(10),
        ]
    );
}

#[test]
fn test_key_tap_modifier_order() {
    let robot = RobotJS::new();
    let plan = robot.key_tap(
        "a".to_string(),
        Some(vec!["shift".to_string(), "ctrl".to_string()]),
    );
    assert_eq!(
        plan,
        vec![
            InputAction::KeyDown('s'),
            InputAction::KeyDown('c'),
            InputAction::KeyClick('a'),
            InputAction::KeyUp('c'),
            InputAction::KeyUp('s'),
            InputAction::Sleep(10),
        ]
    );
}

#[test]
fn test_key_tap_empty_identifier() {
    let robot = RobotJS::new();
    let plan = robot.key_tap(String::new(), None);
    assert_eq!(plan, vec![InputAction::KeyClick('\0'), InputAction::Sleep(10)]);
}

#[test]
fn test_unicode_tap() {
    let robot = RobotJS::new();
    let plan = robot.unicode_tap("é!".to_string()).unwrap();
    assert_eq!(plan, vec![InputAction::SendChar('é'), InputAction::Sleep(10)]);
    assert_eq!(
        robot.unicode_tap(String::new()),
        Err(RobotError::InvalidArgument(InvalidInput::UnicodeInput))
    );
}

#[test]
fn test_type_string_plan() {
    let robot = RobotJS::new();
    let plan = robot.type_string("hi".to_string());
    assert_eq!(
        plan,
        vec![
            InputAction::SendSequence("hi".to_string()),
            InputAction::Sleep(10),
        ]
    );
}

#[test]
fn test_type_string_delayed_pacing() {
    let robot = RobotJS::new();
    let plan = robot.type_string_delayed("abc".to_string(), 6000);
    assert_eq!(
        plan,
        vec![
            InputAction::SendChar('a'),
            InputAction::Sleep(10),
            InputAction::SendChar('b'),
            InputAction::Sleep(10),
            InputAction::SendChar('c'),
            InputAction::Sleep(10),
        ]
    );
    let slow = robot.type_string_delayed("x".to_string(), 7);
    assert_eq!(slow, vec![InputAction::SendChar('x'), InputAction::Sleep(8571)]);
}

#[test]
fn test_mouse_click_plans() {
    let robot = RobotJS::new();
    let single = robot.mouse_click(None, None);
    assert_eq!(
        single,
        vec![
            InputAction::Click(robotjs::Button::Left),
            InputAction::Sleep(10),
        ]
    );
    let double = robot.mouse_click(Some("middle".to_string()), Some(true));
    assert_eq!(
        double,
        vec![
            InputAction::Click(robotjs::Button::Middle),
            InputAction::Sleep(10),
            InputAction::Click(robotjs::Button::Middle),
            InputAction::Sleep(10),
        ]
    );
}

#[test]
fn test_button_fallback() {
    let robot = RobotJS::new();
    let plan = robot.mouse_click(Some("fourth".to_string()), None);
    assert_eq!(plan[0], InputAction::Click(robotjs::Button::Left));
    let plan = robot.mouse_click(Some("right".to_string()), None);
    assert_eq!(plan[0], InputAction::Click(robotjs::Button::Right));
}

#[test]
fn test_drag_mouse_plan() {
    let robot = RobotJS::new();
    let plan = robot.drag_mouse(5, 6, Some("right".to_string()));
    assert_eq!(
        plan,
        vec![
            InputAction::MouseDown(robotjs::Button::Right),
            InputAction::MoveTo(5, 6),
            InputAction::MouseUp(robotjs::Button::Right),
            InputAction::Sleep(10),
        ]
    );
    assert_eq!(apply_actions(&plan, 0, 0), (5, 6));
}

#[test]
fn test_scroll_mouse_plan() {
    let robot = RobotJS::new();
    let plan = robot.scroll_mouse(-3, 9);
    assert_eq!(
        plan,
        vec![
            InputAction::ScrollX(-3),
            InputAction::ScrollY(9),
            InputAction::Sleep(10),
        ]
    );
}

#[test]
fn test_move_mouse_smooth_path() {
    let robot = RobotJS::new();
    let plan = robot.move_mouse_smooth(10, 0, 0, 0, None);
    assert_eq!(
        plan,
        vec![
            InputAction::MoveTo(3, 0),
            InputAction::Sleep(10),
            InputAction::MoveTo(6, 0),
            InputAction::Sleep(10),
            InputAction::MoveTo(10, 0),
            InputAction::Sleep(10),
            InputAction::MoveTo(10, 0),
        ]
    );
    assert_eq!(apply_actions(&plan, 0, 0), (10, 0));
}

#[test]
fn test_move_mouse_smooth_negative_direction() {
    let robot = RobotJS::new();
    let plan = robot.move_mouse_smooth(-10, 0, 0, 0, Some(4));
    assert_eq!(
        plan,
        vec![
            InputAction::MoveTo(-5, 0),
            InputAction::Sleep(10),
            InputAction::MoveTo(-10, 0),
            InputAction::Sleep(10),
            InputAction::MoveTo(-10, 0),
        ]
    );
    assert_eq!(apply_actions(&plan, 0, 0), (-10, 0));
}

#[test]
fn test_smooth_move_zero_steps() {
    let robot = RobotJS::new();
    let plan = robot.move_mouse_smooth(7, 7, 7, 7, None);
    assert_eq!(plan, vec![InputAction::MoveTo(7, 7)]);
    let near = robot.move_mouse_smooth(1, 1, 0, 0, None);
    assert_eq!(near, vec![InputAction::MoveTo(1, 1)]);
}

#[test]
fn test_zero_mouse_delay() {
    let mut robot = RobotJS::new();
    assert_eq!(robot.set_mouse_delay(0), 1);
    let plan = robot.move_mouse(4, 2);
    assert_eq!(plan, vec![InputAction::MoveTo(4, 2), InputAction::Sleep(0)]);
}

#[test]
fn test_set_delays() {
    let mut robot = RobotJS::new();
    assert_eq!(robot.set_mouse_delay(25), 1);
    assert_eq!(robot.set_keyboard_delay(7), 1);
    let mouse_plan = robot.move_mouse(1, 1);
    assert_eq!(mouse_plan[1], InputAction::Sleep(25));
    let key_plan = robot.key_tap("k".to_string(), None);
    assert_eq!(key_plan[1], InputAction::Sleep(7));
}

#[test]
fn test_error_reasons() {
    assert_eq!(
        RobotError::OutOfBounds.reason(),
        "Coordinates out of bounds"
    );
    assert_eq!(
        RobotError::InvalidArgument(InvalidInput::MouseToggleState).reason(),
        "Invalid mouse button state specified."
    );
    assert_eq!(
        RobotError::InvalidArgument(InvalidInput::KeyToggleState).reason(),
        "Invalid key state specified."
    );
    assert_eq!(
        RobotError::InvalidArgument(InvalidInput::UnicodeInput).reason(),
        "Invalid unicode character"
    );
    assert_eq!(
        RobotError::BackendUnavailable.reason(),
        "Screen backend unavailable"
    );
}

#[test]
fn test_misc_session_ops() {
    let robot = RobotJS::new();
    assert_eq!(robot.update_screen_metrics(), 1);
    assert_eq!(robot.get_x_display_name(), "");
    assert_eq!(robot.set_x_display_name("display".to_string()), 1);
}
