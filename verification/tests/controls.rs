use marauder::buttons::{Button, Finger, MultitouchEvent};
use marauder::drawing::Color;
use marauder::modes::draw::DrawMode;
use marauder::modes::touch::TouchMode;

fn finger(tracking_id: i32, x: u16, y: u16) -> Finger {
    Finger { tracking_id, x, y }
}

#[test]
fn draw_mode_sizes() {
    assert_eq!(DrawMode::default(), DrawMode::Draw(2));
    assert_eq!(DrawMode::Draw(2).set_size(9), DrawMode::Draw(9));
    assert_eq!(DrawMode::Erase(2).set_size(9), DrawMode::Erase(9));
    assert_eq!(DrawMode::Erase(7).get_size(), 7);
    assert_eq!(DrawMode::Draw(8).get_size(), 8);
    assert_eq!(DrawMode::Draw(8).color_as_string(), "Black");
    assert_eq!(DrawMode::Erase(8).color_as_string(), "White");
}

#[test]
fn draw_mode_brush_and_toggle() {
    assert_eq!(DrawMode::Draw(4).brush(), (Color::Black, 4));
    assert_eq!(DrawMode::Erase(4).brush(), (Color::White, 12));
    assert_eq!(DrawMode::Draw(4).toggled(), (DrawMode::Erase(4), "Switch to WHITE"));
    assert_eq!(DrawMode::Erase(4).toggled(), (DrawMode::Draw(4), "Switch to BLACK"));
}

#[test]
fn brush_width_stays_in_range() {
    assert_eq!(DrawMode::Draw(2).resized(1), Some(DrawMode::Draw(3)));
    assert_eq!(DrawMode::Draw(2).resized(-1), Some(DrawMode::Draw(1)));
    assert_eq!(DrawMode::Draw(1).resized(-1), None);
    assert_eq!(DrawMode::Draw(2).resized(-50), Some(DrawMode::Draw(1)));
    assert_eq!(DrawMode::Erase(98).resized(5), Some(DrawMode::Erase(99)));
    assert_eq!(DrawMode::Erase(99).resized(5), None);
    assert_eq!(DrawMode::Erase(99).resized(0), None);
    assert_eq!(DrawMode::Draw(500).resized(0), Some(DrawMode::Draw(99)));
    assert_eq!(DrawMode::Draw(u32::MAX).resized(i32::MAX), Some(DrawMode::Draw(99)));
    assert_eq!(DrawMode::Draw(0).resized(i32::MIN), Some(DrawMode::Draw(1)));
}

#[test]
fn draw_mode_codes() {
    assert_eq!(DrawMode::Draw(5).to_code(), 5);
    assert_eq!(DrawMode::Erase(5).to_code(), -5);
    assert_eq!(DrawMode::from_code(5), DrawMode::Draw(5));
    assert_eq!(DrawMode::from_code(-5), DrawMode::Erase(5));
    assert_eq!(DrawMode::from_code(0), DrawMode::Draw(0));
    assert_eq!(DrawMode::Erase(0).to_code(), 0);
    assert_eq!(DrawMode::from_code(i32::MAX), DrawMode::Draw(i32::MAX as u32));
    assert_eq!(DrawMode::from_code(i32::MIN + 1), DrawMode::Erase(i32::MAX as u32));
}

#[test]
fn touch_modes_cycle() {
    let mut m = TouchMode::OnlyUI;
    let mut seen = Vec::new();
    for _ in 0..5 {
        seen.push(m);
        m = m.toggle();
    }
    assert_eq!(
        seen,
        vec![
            TouchMode::OnlyUI,
            TouchMode::Bezier,
            TouchMode::Circles,
            TouchMode::Diamonds,
            TouchMode::FillDiamonds
        ]
    );
    assert_eq!(m, TouchMode::OnlyUI);
}

#[test]
fn touch_mode_codes_and_names() {
    let all = [
        (TouchMode::OnlyUI, 1u8, "None"),
        (TouchMode::Bezier, 2, "Bezier"),
        (TouchMode::Circles, 3, "Circles"),
        (TouchMode::Diamonds, 4, "Diamonds"),
        (TouchMode::FillDiamonds, 5, "FDiamonds"),
    ];
    for (mode, code, name) in all {
        assert_eq!(mode.to_code(), code);
        assert_eq!(TouchMode::from_code(code), mode);
        assert_eq!(mode.name(), name);
    }
}

#[test]
fn a_button_is_held_by_the_finger_on_it() {
    let mut b = Button::new(1, "erase");
    assert_eq!(b.name(), "erase");
    assert!(!b.is_pressed());
    b.process_event(MultitouchEvent::Press { finger: finger(7, 150, 30) });
    assert!(b.is_pressed());
    b.process_event(MultitouchEvent::Move { finger: finger(7, 199, 59) });
    assert!(b.is_pressed());
    b.process_event(MultitouchEvent::Move { finger: finger(7, 200, 59) });
    assert!(!b.is_pressed());
    b.process_event(MultitouchEvent::Move { finger: finger(7, 100, 0) });
    assert!(b.is_pressed());
    b.process_event(MultitouchEvent::Release { finger: finger(7, 100, 0) });
    assert!(!b.is_pressed());
}

#[test]
fn another_finger_does_not_free_a_button() {
    let mut b = Button::new(2, "times3");
    b.process_event(MultitouchEvent::Press { finger: finger(3, 250, 10) });
    assert!(b.is_pressed());
    b.process_event(MultitouchEvent::Press { finger: finger(4, 50, 10) });
    assert!(b.is_pressed());
    b.process_event(MultitouchEvent::Release { finger: finger(4, 50, 10) });
    assert!(b.is_pressed());
    b.process_event(MultitouchEvent::Unknown);
    assert!(b.is_pressed());
    b.process_event(MultitouchEvent::Move { finger: finger(3, 250, 60) });
    assert!(!b.is_pressed());
}

#[test]
fn buttons_stand_side_by_side() {
    let mut first = Button::new(0, "a");
    let mut second = Button::new(1, "b");
    let press = MultitouchEvent::Press { finger: finger(1, 99, 59) };
    first.process_event(press);
    second.process_event(press);
    assert!(first.is_pressed());
    assert!(!second.is_pressed());
    let mut last = Button::new(255, "z");
    last.process_event(MultitouchEvent::Press { finger: finger(1, 25500, 0) });
    assert!(last.is_pressed());
}
