use rayui::sink::{GuiSink, ScriptedSink};
use rayui::theme::{
    apply_theme, CheckBoxTheme, Color, ControlKind, ControlTheme, DefaultTheme, ListViewTheme,
    ScrollBarSide, ScrollBarTheme, SliderTheme, SpinnerTheme, TextAlignment, TextBoxTheme, Theme,
    ThemeProperties, ARROWS_VISIBLE, BASE_COLOR_NORMAL, BORDER_WIDTH, CHECK_PADDING,
    COLOR_SELECTED_FG, SCROLLBAR_SIDE, SLIDER_PADDING, SLIDER_WIDTH, TEXT_COLOR_NORMAL,
    TEXT_INNER_PADDING, TEXT_LINES_PADDING, TEXT_SIZE,
};

fn empty_theme() -> Theme {
    Theme {
        control_theme: None,
        default_theme: None,
        toggle_theme: None,
        slider_theme: None,
        progressbar_theme: None,
        checkbox_theme: None,
        combobox_theme: None,
        dropdownbox_theme: None,
        textbox_theme: None,
        scrollbar_theme: None,
        listview_theme: None,
        colorpicker_theme: None,
    }
}

fn bare_control_theme() -> ControlTheme {
    ControlTheme {
        normal: None,
        focused: None,
        pressed: None,
        disabled: None,
        border_width: None,
        border_normal: None,
        border_focused: None,
        border_pressed: None,
        border_disabled: None,
        text_padding: None,
        text_alignment: None,
        text_normal: None,
        text_focused: None,
        text_pressed: None,
        text_disabled: None,
    }
}

#[test]
fn color_encoding() {
    assert_eq!(Color::new(255, 0, 128, 255).encode(), 0xFF0080FFu32);
    assert_eq!(Color::new(0, 0, 0, 0).encode(), 0u32);
    assert_eq!(Color::new(32, 32, 32, 255).encode(), 0x202020FFu32);
}

#[test]
fn alignment_encoding() {
    assert_eq!(TextAlignment::Left.encode(), 0);
    assert_eq!(TextAlignment::Center.encode(), 1);
    assert_eq!(TextAlignment::Right.encode(), 2);
}

#[test]
fn flatten_set_properties_only() {
    let theme = empty_theme().slider_theme(
        SliderTheme::default().slider_padding(4).slider_width(4),
    );
    let groups = theme.properties();
    assert_eq!(groups.len(), 1);
    assert_eq!(groups[0].0, ControlKind::Slider);
    // Declaration order, not setter call order; unset properties are absent.
    assert_eq!(groups[0].1, vec![(SLIDER_WIDTH, 4), (SLIDER_PADDING, 4)]);
}

#[test]
fn flatten_skips_absent_records() {
    let groups = empty_theme().properties();
    assert_eq!(groups.len(), 0);
}

#[test]
fn flatten_encodes_colors() {
    let theme = empty_theme().control_theme(bare_control_theme().normal(Color::new(255, 0, 128, 255)));
    let groups = theme.properties();
    assert_eq!(groups.len(), 1);
    assert_eq!(groups[0].0, ControlKind::Default);
    assert_eq!(groups[0].1, vec![(BASE_COLOR_NORMAL, 0xFF0080FF)]);
}

#[test]
fn flatten_nested_base_record() {
    let theme = empty_theme().checkbox_theme(
        CheckBoxTheme::default()
            .check_padding(8)
            .control_theme(ControlTheme::default().text_normal(Color::new(255, 0, 0, 255))),
    );
    let groups = theme.properties();
    assert_eq!(groups.len(), 1);
    assert_eq!(groups[0].0, ControlKind::CheckBox);
    let props = &groups[0].1;
    // The embedded base overrides come first, the checkbox's own key last.
    assert_eq!(props[props.len() - 1], (CHECK_PADDING, 8));
    assert!(props.contains(&(TEXT_COLOR_NORMAL, 0xFF0000FF)));
    assert!(props.contains(&(BORDER_WIDTH, 2)));
}

#[test]
fn default_store_records() {
    let theme = Theme::default();
    let groups = theme.properties();
    assert_eq!(groups.len(), 12);
    assert_eq!(groups[0].0, ControlKind::Default);
    assert_eq!(groups[1].0, ControlKind::Default);
    assert_eq!(groups[2].0, ControlKind::Toggle);
    assert_eq!(groups[3].0, ControlKind::Slider);
    assert_eq!(groups[4].0, ControlKind::ProgressBar);
    assert_eq!(groups[5].0, ControlKind::CheckBox);
    assert_eq!(groups[6].0, ControlKind::ComboBox);
    assert_eq!(groups[7].0, ControlKind::DropdownBox);
    assert_eq!(groups[8].0, ControlKind::TextBox);
    assert_eq!(groups[9].0, ControlKind::ScrollBar);
    assert_eq!(groups[10].0, ControlKind::ListView);
    assert_eq!(groups[11].0, ControlKind::ColorPicker);
    assert!(groups[0].1.contains(&(BORDER_WIDTH, 2)));
    assert!(groups[0].1.contains(&(BASE_COLOR_NORMAL, 0x202020FF)));
    assert_eq!(groups[1].1, vec![(TEXT_SIZE, 18)]);
    // Every per-control record defaults to no overrides of its own.
    for group in groups.iter().skip(2) {
        assert_eq!(group.1, vec![]);
    }
}

#[test]
fn apply_writes_every_triple() {
    let theme = empty_theme()
        .control_theme(bare_control_theme().border_width(2))
        .slider_theme(SliderTheme::default().slider_padding(4).slider_width(6));
    let mut sink = ScriptedSink::new();
    apply_theme(&mut sink, &theme);
    // Exactly one write per flattened triple, in store order, and no draws.
    assert_eq!(
        sink.log,
        vec![
            (ControlKind::Default, BORDER_WIDTH, 2),
            (ControlKind::Slider, SLIDER_WIDTH, 6),
            (ControlKind::Slider, SLIDER_PADDING, 4),
        ]
    );
    assert!(sink.draw_log.is_empty());
    assert_eq!(sink.style(ControlKind::Default, BORDER_WIDTH), Some(2));
    assert_eq!(sink.style(ControlKind::Slider, SLIDER_WIDTH), Some(6));
    assert_eq!(sink.style(ControlKind::Slider, SLIDER_PADDING), Some(4));
    assert_eq!(sink.style(ControlKind::CheckBox, CHECK_PADDING), None);
}

#[test]
fn apply_twice_is_idempotent() {
    let theme = Theme::default().default_theme(DefaultTheme::default().text_size(20));
    let mut once = ScriptedSink::new();
    apply_theme(&mut once, &theme);
    let mut twice = ScriptedSink::new();
    apply_theme(&mut twice, &theme);
    apply_theme(&mut twice, &theme);
    let controls = [
        ControlKind::Default,
        ControlKind::Slider,
        ControlKind::CheckBox,
        ControlKind::Button,
    ];
    for control in controls {
        let mut key: u32 = 0;
        while key < 24 {
            assert_eq!(once.style(control, key), twice.style(control, key));
            key += 1;
        }
    }
    assert_eq!(once.style(ControlKind::Default, TEXT_SIZE), Some(20));
}

#[test]
fn record_accessors_report_control() {
    assert_eq!(ControlTheme::default().control(), ControlKind::Default);
    assert_eq!(DefaultTheme::default().control(), ControlKind::Default);
    assert_eq!(SliderTheme::default().control(), ControlKind::Slider);
    assert_eq!(CheckBoxTheme::default().control(), ControlKind::CheckBox);
}

#[test]
fn boolean_property_encodes_as_one_or_zero() {
    let theme = empty_theme().scrollbar_theme(ScrollBarTheme::default().arrow_visible(true));
    let groups = theme.properties();
    assert_eq!(groups.len(), 1);
    assert_eq!(groups[0].0, ControlKind::ScrollBar);
    assert_eq!(groups[0].1, vec![(ARROWS_VISIBLE, 1)]);
}

#[test]
fn textbox_and_listview_records() {
    let theme = empty_theme()
        .textbox_theme(
            TextBoxTheme::default()
                .text_inner_padding(3)
                .color_selected_fg(Color::new(255, 255, 255, 255)),
        )
        .listview_theme(ListViewTheme::default().scrollbar_side(ScrollBarSide::Right));
    let groups = theme.properties();
    assert_eq!(groups.len(), 2);
    assert_eq!(groups[0].0, ControlKind::TextBox);
    assert_eq!(
        groups[0].1,
        vec![(TEXT_INNER_PADDING, 3), (COLOR_SELECTED_FG, 0xFFFFFFFF)]
    );
    assert_eq!(groups[1].0, ControlKind::ListView);
    assert_eq!(groups[1].1, vec![(SCROLLBAR_SIDE, 1)]);
}

#[test]
fn spinner_record_flattens_under_its_own_control() {
    let record = SpinnerTheme::default().text_inner_padding(2).text_lines_padding(5);
    assert_eq!(record.control(), ControlKind::Spinner);
    assert_eq!(
        record.properties(),
        vec![(TEXT_INNER_PADDING, 2), (TEXT_LINES_PADDING, 5)]
    );
}

#[test]
fn apply_default_store_writes_its_defaults() {
    let mut sink = ScriptedSink::new();
    apply_theme(&mut sink, &Theme::default());
    assert!(sink.log.contains(&(ControlKind::Default, TEXT_SIZE, 18)));
    assert!(sink.log.contains(&(ControlKind::Default, BORDER_WIDTH, 2)));
    // One write per set property: the base record's thirteen defaults plus
    // the default control's text size; the other records default to none.
    assert_eq!(sink.log.len(), 14);
    assert!(sink.draw_log.is_empty());
}
