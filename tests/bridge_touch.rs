use rm67162::bridge::DisplayWrapper;
use rm67162::driver::RM67162;
use rm67162::touch::{decode_point0, remap, skip_idle_work, PointerEvent, TouchKind, TouchPoint, TouchTranslator};

#[test]
fn process_line_forwards_the_rendered_strip() {
    let d = RM67162::new();
    let mut w = DisplayWrapper::new();
    assert_eq!(w.pixel(535), 0);
    let plan = w.process_line(&d, 7, 10, 13, &[0x0001, 0x0203, 0xFFFF]);
    assert_eq!(plan.len(), 4);
    assert_eq!(plan[0].payload, vec![0, 10, 0, 12]);
    assert_eq!(plan[1].payload, vec![0, 7, 0, 7]);
    assert_eq!(plan[3].payload, vec![0x00, 0x01, 0x02, 0x03, 0xFF, 0xFF]);
    assert_eq!(w.pixel(9), 0);
    assert_eq!(w.pixel(11), 0x0203);
    let again = w.process_line(&d, 8, 11, 12, &[5]);
    assert_eq!(again[3].payload, vec![0, 5]);
    assert_eq!(w.pixel(10), 0x0001);
    assert_eq!(w.pixel(11), 5);
}

#[test]
fn remap_swaps_and_reflects() {
    assert_eq!(remap(0, 0), (0, 240));
    assert_eq!(remap(240, 535), (535, 0));
    assert_eq!(remap(40, 100), (100, 200));
}

#[test]
fn samples_become_events() {
    let mut t = TouchTranslator::new();
    let press = t.poll(Some(TouchPoint { x: 40, y: 100, event: TouchKind::PressDown }));
    assert_eq!(press, vec![PointerEvent::Pressed { x: 100, y: 200 }]);
    let moved = t.poll(Some(TouchPoint { x: 41, y: 101, event: TouchKind::Contact }));
    assert_eq!(moved, vec![PointerEvent::Moved { x: 101, y: 199 }]);
    let lift = t.poll(Some(TouchPoint { x: 41, y: 101, event: TouchKind::LiftUp }));
    assert_eq!(lift, vec![PointerEvent::Released { x: 101, y: 199 }]);
    assert_eq!(t.idle_polls(), 0);
}

#[test]
fn release_synthesized_once_after_idle_polls() {
    let mut t = TouchTranslator::new();
    for _ in 0..100 {
        assert!(t.poll(None).is_empty());
    }
    assert_eq!(t.poll(None), vec![PointerEvent::Released { x: 0, y: 0 }, PointerEvent::Exited]);
    for _ in 0..500 {
        assert!(t.poll(None).is_empty());
    }
    assert_eq!(t.idle_polls(), 601);
}

#[test]
fn sample_at_poll_hundred_suppresses_release() {
    let mut t = TouchTranslator::new();
    for _ in 0..99 {
        assert!(t.poll(None).is_empty());
    }
    let e = t.poll(Some(TouchPoint { x: 0, y: 0, event: TouchKind::Contact }));
    assert_eq!(e, vec![PointerEvent::Moved { x: 0, y: 240 }]);
    assert_eq!(t.idle_polls(), 0);
    for _ in 0..100 {
        assert!(t.poll(None).is_empty());
    }
    assert_eq!(t.poll(None).len(), 2);
}

#[test]
fn idle_work_skipped_only_when_still_with_timer() {
    assert!(skip_idle_work(false, Some(5)));
    assert!(!skip_idle_work(false, None));
    assert!(!skip_idle_work(true, Some(5)));
    assert!(!skip_idle_work(true, None));
}

#[test]
fn decode_point_registers() {
    assert_eq!(decode_point0(&[0, 0x80, 1, 0, 2]), None);
    assert_eq!(decode_point0(&[1, 0xC1, 1, 0, 2]), None);
    assert_eq!(
        decode_point0(&[1, 0x01, 0x20, 0x10, 0x05]),
        Some(TouchPoint { x: 0x120, y: 0x005, event: TouchKind::PressDown })
    );
    assert_eq!(
        decode_point0(&[1, 0x40, 0x07, 0xF0, 0x09]),
        Some(TouchPoint { x: 7, y: 9, event: TouchKind::LiftUp })
    );
    assert_eq!(
        decode_point0(&[2, 0x8F, 0xFF, 0x0F, 0xFF]),
        Some(TouchPoint { x: 0xFFF, y: 0xFFF, event: TouchKind::Contact })
    );
}
