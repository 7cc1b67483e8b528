use rayui::sink::{DrawCall, GuiSink, ScriptedSink};
use rayui::ui::{Button, Rect, Slider, UiElementState, UiRegistry, UiWidget};

fn rect(x: f32, y: f32, w: f32, h: f32) -> Rect {
    Rect::new(x.to_bits(), y.to_bits(), w.to_bits(), h.to_bits())
}

#[test]
fn test() {}

#[test]
fn slot_starts_empty() {
    let slot = UiElementState::new("volume".to_string());
    assert_eq!(slot.id, "volume");
    assert!(slot.element.is_none());
}

#[test]
fn first_call_wins() {
    let rect_a = rect(5.0, 5.0, 400.0, 40.0);
    let rect_b = rect(1.0, 1.0, 2.0, 2.0);
    let mut slot = UiElementState::new("s".to_string());
    slot.slider(rect_a, 5.0f32.to_bits(), 0.0f32.to_bits(), 10.0f32.to_bits());
    slot.slider(rect_b, 99.0f32.to_bits(), (-1.0f32).to_bits(), 1.0f32.to_bits());
    match &slot.element {
        Some(UiWidget::Slider(s)) => {
            // The second call's construction arguments are discarded.
            assert_eq!(s.val, 5.0f32.to_bits());
            assert_eq!(s.min, 0.0f32.to_bits());
            assert_eq!(s.max, 10.0f32.to_bits());
            assert_eq!(s.rect, rect_a);
        },
        _ => panic!("slot should hold a slider"),
    }
}

#[test]
fn slider_change_detection() {
    let mut sink = ScriptedSink::new();
    let mut slider = Slider {
        rect: rect(0.0, 0.0, 100.0, 20.0),
        val: 5.0f32.to_bits(),
        min: 0.0f32.to_bits(),
        max: 10.0f32.to_bits(),
    };
    sink.slider_replies.push(5.0f32.to_bits());
    assert_eq!(slider.build(&mut sink), None);
    assert_eq!(slider.val, 5.0f32.to_bits());
    sink.slider_replies.push(7.0f32.to_bits());
    assert_eq!(slider.build(&mut sink), Some(7.0f32.to_bits()));
    assert_eq!(slider.val, 7.0f32.to_bits());
}

#[test]
fn slider_observe_reports_difference_only() {
    let mut slider = Slider {
        rect: rect(0.0, 0.0, 1.0, 1.0),
        val: 1.5f32.to_bits(),
        min: 0.0f32.to_bits(),
        max: 2.0f32.to_bits(),
    };
    assert_eq!(slider.observe(1.5f32.to_bits()), None);
    assert_eq!(slider.observe(0.25f32.to_bits()), Some(0.25f32.to_bits()));
    assert_eq!(slider.val, 0.25f32.to_bits());
}

#[test]
fn button_press_comes_from_sink() {
    let mut sink = ScriptedSink::new();
    let mut button = Button { rect: rect(0.0, 0.0, 80.0, 20.0), text: Some("ok".to_string()) };
    sink.button_replies.push(true);
    assert!(button.build(&mut sink));
    // With no scripted reply the sink reports no press.
    assert!(!button.build(&mut sink));
}

#[test]
fn button_set_text() {
    let mut button = Button { rect: rect(0.0, 0.0, 80.0, 20.0), text: None };
    button.set_text("start".to_string());
    assert_eq!(button.text, Some("start".to_string()));
}

#[test]
fn slot_set_button_text() {
    let mut slot = UiElementState::new("b".to_string());
    slot.button(rect(0.0, 0.0, 80.0, 20.0), "before".to_string());
    slot.set_button_text("after".to_string());
    match &slot.element {
        Some(UiWidget::Button(b)) => assert_eq!(b.text, Some("after".to_string())),
        _ => panic!("slot should hold a button"),
    }
}

#[test]
fn registry_creates_one_empty_slot_per_id() {
    let reg = UiRegistry::new(vec!["a".to_string(), "b".to_string()]);
    assert_eq!(reg.slots.len(), 2);
    assert_eq!(reg.slots[0].id, "a");
    assert_eq!(reg.slots[1].id, "b");
    assert!(reg.slots[0].element.is_none());
    assert!(reg.slots[1].element.is_none());
}

#[test]
fn registry_position_finds_slot() {
    let reg = UiRegistry::new(vec!["a".to_string(), "b".to_string()]);
    assert_eq!(reg.position(&"a".to_string()), 0);
    assert_eq!(reg.position(&"b".to_string()), 1);
}

#[test]
fn scripted_sink_echoes_value_when_queue_is_dry() {
    let mut sink = ScriptedSink::new();
    let v = 3.25f32.to_bits();
    let got = sink.gui_slider(rect(0.0, 0.0, 1.0, 1.0), v, 0, 1);
    assert_eq!(got, v);
}

#[test]
fn end_to_end_scenario() {
    let mut sink = ScriptedSink::new();
    let mut reg = UiRegistry::new(vec!["vol".to_string()]);
    let id = "vol".to_string();
    let bounds = rect(5.0, 5.0, 400.0, 40.0);

    // Frame 1: materialize, sink resolves the stored value, nothing changes.
    reg.slider(&id, bounds, 0.0f32.to_bits(), 0.0f32.to_bits(), 100.0f32.to_bits());
    sink.slider_replies.push(0.0f32.to_bits());
    assert_eq!(reg.build_slider(&id, &mut sink), None);
    match &reg.slots[0].element {
        Some(UiWidget::Slider(s)) => assert_eq!(s.val, 0.0f32.to_bits()),
        _ => panic!("slot should hold a slider"),
    }

    // Frame 2: the accessor's new arguments are ignored; the sink resolves
    // a different value, which is stored and reported.
    reg.slider(&id, rect(0.0, 0.0, 1.0, 1.0), 9.0f32.to_bits(), 0, 1);
    sink.slider_replies.push(42.0f32.to_bits());
    assert_eq!(reg.build_slider(&id, &mut sink), Some(42.0f32.to_bits()));
    match &reg.slots[0].element {
        Some(UiWidget::Slider(s)) => assert_eq!(s.val, 42.0f32.to_bits()),
        _ => panic!("slot should hold a slider"),
    }

    // Frame 3: the same value again is no change.
    sink.slider_replies.push(42.0f32.to_bits());
    assert_eq!(reg.build_slider(&id, &mut sink), None);
}

#[test]
fn stored_nan_reports_change_every_frame() {
    let mut slider = Slider {
        rect: rect(0.0, 0.0, 1.0, 1.0),
        val: f32::NAN.to_bits(),
        min: 0.0f32.to_bits(),
        max: 1.0f32.to_bits(),
    };
    // The sink echoes the very same NaN bit pattern back; exact f32
    // inequality still reports a change, since NaN never equals itself.
    let mut sink = ScriptedSink::new();
    assert_eq!(slider.build(&mut sink), Some(f32::NAN.to_bits()));
    assert_eq!(slider.build(&mut sink), Some(f32::NAN.to_bits()));
}

#[test]
fn zero_sign_flip_is_no_change() {
    let mut slider = Slider {
        rect: rect(0.0, 0.0, 1.0, 1.0),
        val: 0.0f32.to_bits(),
        min: (-1.0f32).to_bits(),
        max: 1.0f32.to_bits(),
    };
    let mut sink = ScriptedSink::new();
    sink.slider_replies.push((-0.0f32).to_bits());
    // +0.0 and -0.0 compare equal under exact f32 inequality.
    assert_eq!(slider.build(&mut sink), None);
    assert_eq!(slider.val, 0.0f32.to_bits());
}

#[test]
fn build_issues_one_draw_with_stored_inputs() {
    let bounds = rect(0.0, 0.0, 100.0, 20.0);
    let mut slider = Slider {
        rect: bounds,
        val: 5.0f32.to_bits(),
        min: 0.0f32.to_bits(),
        max: 10.0f32.to_bits(),
    };
    let mut sink = ScriptedSink::new();
    sink.slider_replies.push(7.0f32.to_bits());
    slider.build(&mut sink);
    assert_eq!(
        sink.draw_log,
        vec![DrawCall::Slider(
            bounds,
            5.0f32.to_bits(),
            0.0f32.to_bits(),
            10.0f32.to_bits(),
        )]
    );

    let mut button = Button { rect: bounds, text: Some("ok".to_string()) };
    button.build(&mut sink);
    assert_eq!(sink.draw_log.len(), 2);
    assert_eq!(
        sink.draw_log[1],
        DrawCall::Button(bounds, Some("ok".to_string()))
    );
    // No style writes come from drawing widgets.
    assert!(sink.log.is_empty());
}
