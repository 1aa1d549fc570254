use autoskip::genshin::{
    Gesture, Point, Window, WindowProps, DEFAULT_DURATION_MILLIS, GENSHIN_WINDOW_CLASS_NAME,
    GENSHIN_WINDOW_NAME,
};
use autoskip::winapi_bindings::bindings::{click_message, space_key_message};

#[test]
fn null_handle_is_no_window() {
    assert_eq!(Window::new(0), None);
}

#[test]
fn window_keeps_its_handle() {
    assert_eq!(Window::new(1).unwrap().hwnd(), 1);
    assert_eq!(Window::new(0x0007_0A2C).unwrap().hwnd(), 0x0007_0A2C);
    assert_eq!(Window::new(usize::MAX).unwrap().hwnd(), usize::MAX);
}

#[test]
fn target_is_named_by_title_and_class() {
    assert_eq!(GENSHIN_WINDOW_NAME, "Genshin Impact");
    assert_eq!(GENSHIN_WINDOW_CLASS_NAME, "UnityWndClass");
}

#[test]
fn window_is_active_only_as_the_foreground_window() {
    let window = Window::new(500).unwrap();
    assert!(window.is_active(Some(500)));
    assert!(!window.is_active(Some(501)));
    assert!(!window.is_active(Some(0)));
    assert!(!window.is_active(None));
}

#[test]
fn space_gesture_is_one_press_held_and_released() {
    assert_eq!(DEFAULT_DURATION_MILLIS, 50);
    let window = Window::new(500).unwrap();
    let gesture = window.click_space();
    assert_eq!(
        gesture,
        Gesture {
            pointer: None,
            press: space_key_message(500, true),
            hold_millis: 50,
            release: space_key_message(500, false),
        }
    );
    assert_ne!(gesture.press, gesture.release);
}

#[test]
fn click_gesture_moves_presses_holds_and_releases() {
    let window = Window::new(500).unwrap();
    let gesture = window.click_at(1500, 795);
    assert_eq!(
        gesture,
        Gesture {
            pointer: Some(Point { x: 1500, y: 795 }),
            press: click_message(500, true, 1500, 795),
            hold_millis: 50,
            release: click_message(500, false, 1500, 795),
        }
    );
}

#[test]
fn random_click_lands_in_the_dialogue_area() {
    let window = Window::new(500).unwrap();
    let props = WindowProps::new(1920, 1080);
    for _ in 0..500 {
        let gesture = window.click_left_m_button_random_pos(&props);
        let p = gesture.pointer.unwrap();
        assert!(1300 <= p.x && p.x <= 1700);
        assert!(790 <= p.y && p.y <= 800);
        assert_eq!(gesture, window.click_at(p.x, p.y));
    }
}

#[test]
fn random_click_is_not_always_the_same() {
    let window = Window::new(500).unwrap();
    let props = WindowProps::new(1920, 1080);
    let first = window.click_left_m_button_random_pos(&props).pointer.unwrap();
    let mut other_x = false;
    let mut other_y = false;
    for _ in 0..500 {
        let p = window.click_left_m_button_random_pos(&props).pointer.unwrap();
        other_x = other_x || p.x != first.x;
        other_y = other_y || p.y != first.y;
    }
    assert!(other_x);
    assert!(other_y);
}

#[test]
fn random_click_in_a_single_point_area_is_that_point() {
    let window = Window::new(500).unwrap();
    let props = WindowProps::new(1, 1);
    let gesture = window.click_left_m_button_random_pos(&props);
    assert_eq!(gesture, window.click_at(0, 0));
}
