//! The theme store: per-control records of optional style overrides, each
//! flattened on demand into (property key, encoded value) pairs in declaration
//! order, and an applier that writes every triple to a style sink.
//!
//! A property that is absent from a record means "inherit the toolkit
//! default": flattening yields a pair for exactly the explicitly-set
//! properties, and nothing else.

use vstd::prelude::*;

use crate::sink::GuiSink;

verus! {

/// The control kinds of the toolkit's style table.
#[derive(Clone, Copy, PartialEq, Eq, Structural, Debug)]
pub enum ControlKind {
    Default,
    Label,
    Button,
    Toggle,
    Slider,
    ProgressBar,
    CheckBox,
    ComboBox,
    DropdownBox,
    TextBox,
    ValueBox,
    Spinner,
    ListView,
    ColorPicker,
    ScrollBar,
    StatusBar,
}

// Base style properties, shared by every control.
pub const BORDER_COLOR_NORMAL: u32 = 0;

pub const BASE_COLOR_NORMAL: u32 = 1;

pub const TEXT_COLOR_NORMAL: u32 = 2;

pub const BORDER_COLOR_FOCUSED: u32 = 3;

pub const BASE_COLOR_FOCUSED: u32 = 4;

pub const TEXT_COLOR_FOCUSED: u32 = 5;

pub const BORDER_COLOR_PRESSED: u32 = 6;

pub const BASE_COLOR_PRESSED: u32 = 7;

pub const TEXT_COLOR_PRESSED: u32 = 8;

pub const BORDER_COLOR_DISABLED: u32 = 9;

pub const BASE_COLOR_DISABLED: u32 = 10;

pub const TEXT_COLOR_DISABLED: u32 = 11;

pub const BORDER_WIDTH: u32 = 12;

pub const TEXT_PADDING: u32 = 13;

pub const TEXT_ALIGNMENT: u32 = 14;

// Extended properties of the default control.
pub const TEXT_SIZE: u32 = 16;

pub const TEXT_SPACING: u32 = 17;

pub const LINE_COLOR: u32 = 18;

pub const BACKGROUND_COLOR: u32 = 19;

// Extended properties of the slider control.
pub const SLIDER_WIDTH: u32 = 16;

pub const SLIDER_PADDING: u32 = 17;

// Extended properties of the checkbox control.
pub const CHECK_PADDING: u32 = 16;

// Extended properties of the toggle control.
pub const GROUP_PADDING: u32 = 16;

// Extended properties of the progress bar control.
pub const PROGRESS_PADDING: u32 = 16;

// Extended properties of the combo box control.
pub const COMBO_BUTTON_WIDTH: u32 = 16;

pub const COMBO_BUTTON_PADDING: u32 = 17;

// Extended properties of the dropdown box control.
pub const ARROW_PADDING: u32 = 16;

pub const DROPDOWN_ITEMS_PADDING: u32 = 17;

// Extended properties of the scroll bar control.
pub const ARROWS_SIZE: u32 = 16;

pub const ARROWS_VISIBLE: u32 = 17;

pub const SCROLL_SLIDER_PADDING: u32 = 18;

pub const SCROLL_SLIDER_SIZE: u32 = 19;

pub const SCROLL_PADDING: u32 = 20;

pub const SCROLL_SPEED: u32 = 21;

// Extended properties of the text box and spinner controls.
pub const TEXT_INNER_PADDING: u32 = 16;

pub const TEXT_LINES_PADDING: u32 = 17;

pub const COLOR_SELECTED_FG: u32 = 18;

pub const COLOR_SELECTED_BG: u32 = 19;

// Extended properties of the list view control.
pub const LIST_ITEMS_HEIGHT: u32 = 16;

pub const LIST_ITEMS_PADDING: u32 = 17;

pub const SCROLLBAR_WIDTH: u32 = 18;

pub const SCROLLBAR_SIDE: u32 = 19;

// Extended properties of the color picker control.
pub const COLOR_SELECTOR_SIZE: u32 = 16;

pub const HUEBAR_WIDTH: u32 = 17;

pub const HUEBAR_PADDING: u32 = 18;

pub const HUEBAR_SELECTOR_HEIGHT: u32 = 19;

pub const HUEBAR_SELECTOR_OVERFLOW: u32 = 20;

/// An RGBA color, encoded for the style table as 0xRRGGBBAA.
#[derive(Clone, Copy, PartialEq, Eq, Structural, Debug)]
pub struct Color {
    pub r: u8,
    pub g: u8,
    pub b: u8,
    pub a: u8,
}

impl Color {
    /// The packed 0xRRGGBBAA encoding of this color.
    pub open spec fn encode_spec(self) -> u32 {
        ((self.r as int) * 0x1000000 + (self.g as int) * 0x10000 + (self.b as int) * 0x100 + (
        self.a as int)) as u32
    }

    pub fn new(r: u8, g: u8, b: u8, a: u8) -> (c: Color)
        ensures
            c == (Color { r, g, b, a }),
    {
        Color { r, g, b, a }
    }

    /// Packs the four channels into the toolkit's integer color encoding.
    pub fn encode(&self) -> (v: u32)
        ensures
            v == self.encode_spec(),
    {
        (self.r as u32) * 0x1000000 + (self.g as u32) * 0x10000 + (self.b as u32) * 0x100 + (
        self.a as u32)
    }
}

/// Horizontal text alignment, encoded as its ordinal.
#[derive(Clone, Copy, PartialEq, Eq, Structural, Debug)]
pub enum TextAlignment {
    Left,
    Center,
    Right,
}

impl TextAlignment {
    pub open spec fn encode_spec(self) -> u32 {
        match self {
            TextAlignment::Left => 0u32,
            TextAlignment::Center => 1u32,
            TextAlignment::Right => 2u32,
        }
    }

    pub fn encode(&self) -> (v: u32)
        ensures
            v == self.encode_spec(),
    {
        match self {
            TextAlignment::Left => 0u32,
            TextAlignment::Center => 1u32,
            TextAlignment::Right => 2u32,
        }
    }
}

/// The side a list view's scroll bar sits on, encoded as its ordinal.
#[derive(Clone, Copy, PartialEq, Eq, Structural, Debug)]
pub enum ScrollBarSide {
    Left,
    Right,
}

impl ScrollBarSide {
    pub open spec fn encode_spec(self) -> u32 {
        match self {
            ScrollBarSide::Left => 0u32,
            ScrollBarSide::Right => 1u32,
        }
    }

    pub fn encode(&self) -> (v: u32)
        ensures
            v == self.encode_spec(),
    {
        match self {
            ScrollBarSide::Left => 0u32,
            ScrollBarSide::Right => 1u32,
        }
    }
}

/// The flattened pairs that one optional property contributes: one pair if it
/// is set, none if it is not.
pub open spec fn opt_prop(key: u32, value: Option<u32>) -> Seq<(u32, u32)> {
    match value {
        Some(v) => seq![(key, v)],
        None => Seq::<(u32, u32)>::empty(),
    }
}

/// The encoded value of an optional color property.
pub open spec fn enc_color(value: Option<Color>) -> Option<u32> {
    match value {
        Some(c) => Some(c.encode_spec()),
        None => None,
    }
}

/// The encoded value of an optional alignment property.
pub open spec fn enc_align(value: Option<TextAlignment>) -> Option<u32> {
    match value {
        Some(a) => Some(a.encode_spec()),
        None => None,
    }
}

/// The encoded value of an optional boolean property: one or zero.
pub open spec fn enc_bool(value: Option<bool>) -> Option<u32> {
    match value {
        Some(b) => Some(if b { 1u32 } else { 0u32 }),
        None => None,
    }
}

/// The encoded value of an optional scroll-bar-side property.
pub open spec fn enc_side(value: Option<ScrollBarSide>) -> Option<u32> {
    match value {
        Some(side) => Some(side.encode_spec()),
        None => None,
    }
}

/// Membership in a concatenation splits into membership in either part.
pub broadcast proof fn lemma_add_contains<A>(a: Seq<A>, b: Seq<A>, x: A)
    ensures
        #[trigger] (a + b).contains(x) <==> a.contains(x) || b.contains(x),
{
    if (a + b).contains(x) {
        let i = choose|i: int| 0 <= i < (a + b).len() && (a + b)[i] == x;
        if i < a.len() {
            assert(a[i] == x);
        } else {
            assert(b[i - a.len()] == x);
        }
    }
    if a.contains(x) {
        let i = choose|i: int| 0 <= i < a.len() && a[i] == x;
        assert((a + b)[i] == x);
    }
    if b.contains(x) {
        let i = choose|i: int| 0 <= i < b.len() && b[i] == x;
        assert((a + b)[a.len() + i] == x);
    }
}

/// A pair is among the contribution of one optional property exactly when the
/// property is set to that pair's value under that pair's key.
pub broadcast proof fn lemma_opt_prop_contains(key: u32, value: Option<u32>, x: (u32, u32))
    ensures
        #[trigger] opt_prop(key, value).contains(x) <==> (x.0 == key && value == Some(x.1)),
{
    match value {
        Some(v) => {
            if x.0 == key && value == Some(x.1) {
                assert(opt_prop(key, value)[0] == x);
            }
            if opt_prop(key, value).contains(x) {
                let i = choose|i: int|
                    0 <= i < opt_prop(key, value).len() && opt_prop(key, value)[i] == x;
                assert(opt_prop(key, value)[i] == (key, v));
            }
        },
        None => {},
    }
}

/// One record of per-control style overrides: it belongs to a fixed control
/// kind and flattens to encoded pairs in declaration order.
pub trait ThemeProperties {
    /// The control kind that this record styles.
    spec fn control_spec(&self) -> ControlKind;

    /// The flattened (key, encoded value) pairs, in declaration order.
    spec fn props_spec(&self) -> Seq<(u32, u32)>;

    /// The override this record carries for one property key, if any.
    spec fn prop_at(&self, key: u32) -> Option<u32>;

    fn control(&self) -> (c: ControlKind)
        ensures
            c == self.control_spec(),
    ;

    fn properties(&self) -> (r: Vec<(u32, u32)>)
        ensures
            r@ == self.props_spec(),
    ;

    /// Flatten completeness for this record: one pair for each set
    /// property, none for an unset one.
    proof fn props_complete(&self, key: u32, value: u32)
        ensures
            self.props_spec().contains((key, value)) <==> self.prop_at(key) == Some(value),
    ;
}

/// Appends the contribution of one optional plain property.
fn push_prop(props: &mut Vec<(u32, u32)>, key: u32, value: &Option<u32>)
    ensures
        final(props)@ == old(props)@ + opt_prop(key, *value),
{
    match value {
        Some(v) => {
            props.push((key, *v));
            proof {
                assert(props@ =~= old(props)@ + opt_prop(key, *value));
            }
        },
        None => {
            proof {
                assert(props@ =~= old(props)@ + opt_prop(key, *value));
            }
        },
    }
}

/// Appends the contribution of one optional color property.
fn push_color_prop(props: &mut Vec<(u32, u32)>, key: u32, value: &Option<Color>)
    ensures
        final(props)@ == old(props)@ + opt_prop(key, enc_color(*value)),
{
    match value {
        Some(c) => {
            let v = c.encode();
            props.push((key, v));
            proof {
                assert(props@ =~= old(props)@ + opt_prop(key, enc_color(*value)));
            }
        },
        None => {
            proof {
                assert(props@ =~= old(props)@ + opt_prop(key, enc_color(*value)));
            }
        },
    }
}

/// Appends the contribution of one optional alignment property.
fn push_align_prop(props: &mut Vec<(u32, u32)>, key: u32, value: &Option<TextAlignment>)
    ensures
        final(props)@ == old(props)@ + opt_prop(key, enc_align(*value)),
{
    match value {
        Some(a) => {
            let v = a.encode();
            props.push((key, v));
            proof {
                assert(props@ =~= old(props)@ + opt_prop(key, enc_align(*value)));
            }
        },
        None => {
            proof {
                assert(props@ =~= old(props)@ + opt_prop(key, enc_align(*value)));
            }
        },
    }
}

/// Appends the contribution of one optional boolean property.
fn push_bool_prop(props: &mut Vec<(u32, u32)>, key: u32, value: &Option<bool>)
    ensures
        final(props)@ == old(props)@ + opt_prop(key, enc_bool(*value)),
{
    match value {
        Some(b) => {
            let v: u32 = if *b { 1 } else { 0 };
            props.push((key, v));
            proof {
                assert(props@ =~= old(props)@ + opt_prop(key, enc_bool(*value)));
            }
        },
        None => {
            proof {
                assert(props@ =~= old(props)@ + opt_prop(key, enc_bool(*value)));
            }
        },
    }
}

/// Appends the contribution of one optional scroll-bar-side property.
fn push_side_prop(props: &mut Vec<(u32, u32)>, key: u32, value: &Option<ScrollBarSide>)
    ensures
        final(props)@ == old(props)@ + opt_prop(key, enc_side(*value)),
{
    match value {
        Some(side) => {
            let v = side.encode();
            props.push((key, v));
            proof {
                assert(props@ =~= old(props)@ + opt_prop(key, enc_side(*value)));
            }
        },
        None => {
            proof {
                assert(props@ =~= old(props)@ + opt_prop(key, enc_side(*value)));
            }
        },
    }
}

/// The base style overrides that every control shares: colors, border width,
/// text padding and alignment. On its own it styles the default control.
#[derive(Clone, Copy, Debug)]
pub struct ControlTheme {
    pub normal: Option<Color>,
    pub focused: Option<Color>,
    pub pressed: Option<Color>,
    pub disabled: Option<Color>,
    pub border_width: Option<u32>,
    pub border_normal: Option<Color>,
    pub border_focused: Option<Color>,
    pub border_pressed: Option<Color>,
    pub border_disabled: Option<Color>,
    pub text_padding: Option<u32>,
    pub text_alignment: Option<TextAlignment>,
    pub text_normal: Option<Color>,
    pub text_focused: Option<Color>,
    pub text_pressed: Option<Color>,
    pub text_disabled: Option<Color>,
}

impl ControlTheme {
    pub open spec fn default_spec() -> ControlTheme {
        ControlTheme {
            normal: Some(Color { r: 32, g: 32, b: 32, a: 255 }),
            focused: Some(Color { r: 64, g: 64, b: 64, a: 255 }),
            pressed: Some(Color { r: 128, g: 128, b: 128, a: 255 }),
            disabled: Some(Color { r: 16, g: 16, b: 16, a: 255 }),
            border_width: Some(2u32),
            border_normal: Some(Color { r: 128, g: 128, b: 128, a: 255 }),
            border_focused: Some(Color { r: 192, g: 192, b: 192, a: 255 }),
            border_pressed: Some(Color { r: 224, g: 224, b: 224, a: 255 }),
            border_disabled: Some(Color { r: 24, g: 24, b: 24, a: 255 }),
            text_padding: None,
            text_alignment: None,
            text_normal: Some(Color { r: 192, g: 192, b: 192, a: 255 }),
            text_focused: Some(Color { r: 210, g: 210, b: 210, a: 255 }),
            text_pressed: Some(Color { r: 255, g: 255, b: 255, a: 255 }),
            text_disabled: Some(Color { r: 128, g: 128, b: 128, a: 255 }),
        }
    }

    pub fn normal(self, value: Color) -> (r: Self)
        ensures
            r == (ControlTheme { normal: Some(value), ..self }),
    {
        ControlTheme { normal: Some(value), ..self }
    }

    pub fn focused(self, value: Color) -> (r: Self)
        ensures
            r == (ControlTheme { focused: Some(value), ..self }),
    {
        ControlTheme { focused: Some(value), ..self }
    }

    pub fn pressed(self, value: Color) -> (r: Self)
        ensures
            r == (ControlTheme { pressed: Some(value), ..self }),
    {
        ControlTheme { pressed: Some(value), ..self }
    }

    pub fn disabled(self, value: Color) -> (r: Self)
        ensures
            r == (ControlTheme { disabled: Some(value), ..self }),
    {
        ControlTheme { disabled: Some(value), ..self }
    }

    pub fn border_width(self, value: u32) -> (r: Self)
        ensures
            r == (ControlTheme { border_width: Some(value), ..self }),
    {
        ControlTheme { border_width: Some(value), ..self }
    }

    pub fn border_normal(self, value: Color) -> (r: Self)
        ensures
            r == (ControlTheme { border_normal: Some(value), ..self }),
    {
        ControlTheme { border_normal: Some(value), ..self }
    }

    pub fn border_focused(self, value: Color) -> (r: Self)
        ensures
            r == (ControlTheme { border_focused: Some(value), ..self }),
    {
        ControlTheme { border_focused: Some(value), ..self }
    }

    pub fn border_pressed(self, value: Color) -> (r: Self)
        ensures
            r == (ControlTheme { border_pressed: Some(value), ..self }),
    {
        ControlTheme { border_pressed: Some(value), ..self }
    }

    pub fn border_disabled(self, value: Color) -> (r: Self)
        ensures
            r == (ControlTheme { border_disabled: Some(value), ..self }),
    {
        ControlTheme { border_disabled: Some(value), ..self }
    }

    pub fn text_padding(self, value: u32) -> (r: Self)
        ensures
            r == (ControlTheme { text_padding: Some(value), ..self }),
    {
        ControlTheme { text_padding: Some(value), ..self }
    }

    pub fn text_alignment(self, value: TextAlignment) -> (r: Self)
        ensures
            r == (ControlTheme { text_alignment: Some(value), ..self }),
    {
        ControlTheme { text_alignment: Some(value), ..self }
    }

    pub fn text_normal(self, value: Color) -> (r: Self)
        ensures
            r == (ControlTheme { text_normal: Some(value), ..self }),
    {
        ControlTheme { text_normal: Some(value), ..self }
    }

    pub fn text_focused(self, value: Color) -> (r: Self)
        ensures
            r == (ControlTheme { text_focused: Some(value), ..self }),
    {
        ControlTheme { text_focused: Some(value), ..self }
    }

    pub fn text_pressed(self, value: Color) -> (r: Self)
        ensures
            r == (ControlTheme { text_pressed: Some(value), ..self }),
    {
        ControlTheme { text_pressed: Some(value), ..self }
    }

    pub fn text_disabled(self, value: Color) -> (r: Self)
        ensures
            r == (ControlTheme { text_disabled: Some(value), ..self }),
    {
        ControlTheme { text_disabled: Some(value), ..self }
    }
}

impl Default for ControlTheme {
    fn default() -> (t: ControlTheme)
        ensures
            t == ControlTheme::default_spec(),
    {
        ControlTheme {
            normal: Some(Color { r: 32, g: 32, b: 32, a: 255 }),
            focused: Some(Color { r: 64, g: 64, b: 64, a: 255 }),
            pressed: Some(Color { r: 128, g: 128, b: 128, a: 255 }),
            disabled: Some(Color { r: 16, g: 16, b: 16, a: 255 }),
            border_width: Some(2u32),
            border_normal: Some(Color { r: 128, g: 128, b: 128, a: 255 }),
            border_focused: Some(Color { r: 192, g: 192, b: 192, a: 255 }),
            border_pressed: Some(Color { r: 224, g: 224, b: 224, a: 255 }),
            border_disabled: Some(Color { r: 24, g: 24, b: 24, a: 255 }),
            text_padding: None,
            text_alignment: None,
            text_normal: Some(Color { r: 192, g: 192, b: 192, a: 255 }),
            text_focused: Some(Color { r: 210, g: 210, b: 210, a: 255 }),
            text_pressed: Some(Color { r: 255, g: 255, b: 255, a: 255 }),
            text_disabled: Some(Color { r: 128, g: 128, b: 128, a: 255 }),
        }
    }
}

impl ThemeProperties for ControlTheme {
    open spec fn control_spec(&self) -> ControlKind {
        ControlKind::Default
    }

    open spec fn props_spec(&self) -> Seq<(u32, u32)> {
        opt_prop(BASE_COLOR_NORMAL, enc_color(self.normal)) + opt_prop(
            BASE_COLOR_FOCUSED,
            enc_color(self.focused),
        ) + opt_prop(BASE_COLOR_PRESSED, enc_color(self.pressed)) + opt_prop(
            BASE_COLOR_DISABLED,
            enc_color(self.disabled),
        ) + opt_prop(BORDER_WIDTH, self.border_width) + opt_prop(
            BORDER_COLOR_NORMAL,
            enc_color(self.border_normal),
        ) + opt_prop(BORDER_COLOR_FOCUSED, enc_color(self.border_focused)) + opt_prop(
            BORDER_COLOR_PRESSED,
            enc_color(self.border_pressed),
        ) + opt_prop(BORDER_COLOR_DISABLED, enc_color(self.border_disabled)) + opt_prop(
            TEXT_PADDING,
            self.text_padding,
        ) + opt_prop(TEXT_ALIGNMENT, enc_align(self.text_alignment)) + opt_prop(
            TEXT_COLOR_NORMAL,
            enc_color(self.text_normal),
        ) + opt_prop(TEXT_COLOR_FOCUSED, enc_color(self.text_focused)) + opt_prop(
            TEXT_COLOR_PRESSED,
            enc_color(self.text_pressed),
        ) + opt_prop(TEXT_COLOR_DISABLED, enc_color(self.text_disabled))
    }

    open spec fn prop_at(&self, key: u32) -> Option<u32> {
        if key == BASE_COLOR_NORMAL {
            enc_color(self.normal)
        } else if key == BASE_COLOR_FOCUSED {
            enc_color(self.focused)
        } else if key == BASE_COLOR_PRESSED {
            enc_color(self.pressed)
        } else if key == BASE_COLOR_DISABLED {
            enc_color(self.disabled)
        } else if key == BORDER_WIDTH {
            self.border_width
        } else if key == BORDER_COLOR_NORMAL {
            enc_color(self.border_normal)
        } else if key == BORDER_COLOR_FOCUSED {
            enc_color(self.border_focused)
        } else if key == BORDER_COLOR_PRESSED {
            enc_color(self.border_pressed)
        } else if key == BORDER_COLOR_DISABLED {
            enc_color(self.border_disabled)
        } else if key == TEXT_PADDING {
            self.text_padding
        } else if key == TEXT_ALIGNMENT {
            enc_align(self.text_alignment)
        } else if key == TEXT_COLOR_NORMAL {
            enc_color(self.text_normal)
        } else if key == TEXT_COLOR_FOCUSED {
            enc_color(self.text_focused)
        } else if key == TEXT_COLOR_PRESSED {
            enc_color(self.text_pressed)
        } else if key == TEXT_COLOR_DISABLED {
            enc_color(self.text_disabled)
        } else {
            None
        }
    }

    fn control(&self) -> (c: ControlKind) {
        ControlKind::Default
    }

    fn properties(&self) -> (r: Vec<(u32, u32)>) {
        let mut props: Vec<(u32, u32)> = Vec::new();
        push_color_prop(&mut props, BASE_COLOR_NORMAL, &self.normal);
        push_color_prop(&mut props, BASE_COLOR_FOCUSED, &self.focused);
        push_color_prop(&mut props, BASE_COLOR_PRESSED, &self.pressed);
        push_color_prop(&mut props, BASE_COLOR_DISABLED, &self.disabled);
        push_prop(&mut props, BORDER_WIDTH, &self.border_width);
        push_color_prop(&mut props, BORDER_COLOR_NORMAL, &self.border_normal);
        push_color_prop(&mut props, BORDER_COLOR_FOCUSED, &self.border_focused);
        push_color_prop(&mut props, BORDER_COLOR_PRESSED, &self.border_pressed);
        push_color_prop(&mut props, BORDER_COLOR_DISABLED, &self.border_disabled);
        push_prop(&mut props, TEXT_PADDING, &self.text_padding);
        push_align_prop(&mut props, TEXT_ALIGNMENT, &self.text_alignment);
        push_color_prop(&mut props, TEXT_COLOR_NORMAL, &self.text_normal);
        push_color_prop(&mut props, TEXT_COLOR_FOCUSED, &self.text_focused);
        push_color_prop(&mut props, TEXT_COLOR_PRESSED, &self.text_pressed);
        push_color_prop(&mut props, TEXT_COLOR_DISABLED, &self.text_disabled);
        proof {
            assert(props@ =~= self.props_spec());
        }
        props
    }
    proof fn props_complete(&self, key: u32, value: u32) {
        lemma_control_theme_complete(*self, key, value);
    }
}

/// Every pair that a base record flattens to is set in it, and conversely:
/// one pair for each explicitly-set property, none for an unset one.
#[verifier::rlimit(100)]
pub proof fn lemma_control_theme_complete(t: ControlTheme, key: u32, value: u32)
    ensures
        t.props_spec().contains((key, value)) <==> t.prop_at(key) == Some(value),
{
    let x = (key, value);
    let p1 = opt_prop(BASE_COLOR_NORMAL, enc_color(t.normal));
    let p2 = opt_prop(BASE_COLOR_FOCUSED, enc_color(t.focused));
    let p3 = opt_prop(BASE_COLOR_PRESSED, enc_color(t.pressed));
    let p4 = opt_prop(BASE_COLOR_DISABLED, enc_color(t.disabled));
    let p5 = opt_prop(BORDER_WIDTH, t.border_width);
    let p6 = opt_prop(BORDER_COLOR_NORMAL, enc_color(t.border_normal));
    let p7 = opt_prop(BORDER_COLOR_FOCUSED, enc_color(t.border_focused));
    let p8 = opt_prop(BORDER_COLOR_PRESSED, enc_color(t.border_pressed));
    let p9 = opt_prop(BORDER_COLOR_DISABLED, enc_color(t.border_disabled));
    let p10 = opt_prop(TEXT_PADDING, t.text_padding);
    let p11 = opt_prop(TEXT_ALIGNMENT, enc_align(t.text_alignment));
    let p12 = opt_prop(TEXT_COLOR_NORMAL, enc_color(t.text_normal));
    let p13 = opt_prop(TEXT_COLOR_FOCUSED, enc_color(t.text_focused));
    let p14 = opt_prop(TEXT_COLOR_PRESSED, enc_color(t.text_pressed));
    let p15 = opt_prop(TEXT_COLOR_DISABLED, enc_color(t.text_disabled));
    lemma_opt_prop_contains(BASE_COLOR_NORMAL, enc_color(t.normal), x);
    lemma_opt_prop_contains(BASE_COLOR_FOCUSED, enc_color(t.focused), x);
    lemma_opt_prop_contains(BASE_COLOR_PRESSED, enc_color(t.pressed), x);
    lemma_opt_prop_contains(BASE_COLOR_DISABLED, enc_color(t.disabled), x);
    lemma_opt_prop_contains(BORDER_WIDTH, t.border_width, x);
    lemma_opt_prop_contains(BORDER_COLOR_NORMAL, enc_color(t.border_normal), x);
    lemma_opt_prop_contains(BORDER_COLOR_FOCUSED, enc_color(t.border_focused), x);
    lemma_opt_prop_contains(BORDER_COLOR_PRESSED, enc_color(t.border_pressed), x);
    lemma_opt_prop_contains(BORDER_COLOR_DISABLED, enc_color(t.border_disabled), x);
    lemma_opt_prop_contains(TEXT_PADDING, t.text_padding, x);
    lemma_opt_prop_contains(TEXT_ALIGNMENT, enc_align(t.text_alignment), x);
    lemma_opt_prop_contains(TEXT_COLOR_NORMAL, enc_color(t.text_normal), x);
    lemma_opt_prop_contains(TEXT_COLOR_FOCUSED, enc_color(t.text_focused), x);
    lemma_opt_prop_contains(TEXT_COLOR_PRESSED, enc_color(t.text_pressed), x);
    lemma_opt_prop_contains(TEXT_COLOR_DISABLED, enc_color(t.text_disabled), x);
    let s2 = p1 + p2;
    let s3 = s2 + p3;
    let s4 = s3 + p4;
    let s5 = s4 + p5;
    let s6 = s5 + p6;
    let s7 = s6 + p7;
    let s8 = s7 + p8;
    let s9 = s8 + p9;
    let s10 = s9 + p10;
    let s11 = s10 + p11;
    let s12 = s11 + p12;
    let s13 = s12 + p13;
    let s14 = s13 + p14;
    let s15 = s14 + p15;
    lemma_add_contains(p1, p2, x);
    lemma_add_contains(s2, p3, x);
    lemma_add_contains(s3, p4, x);
    lemma_add_contains(s4, p5, x);
    lemma_add_contains(s5, p6, x);
    lemma_add_contains(s6, p7, x);
    lemma_add_contains(s7, p8, x);
    lemma_add_contains(s8, p9, x);
    lemma_add_contains(s9, p10, x);
    lemma_add_contains(s10, p11, x);
    lemma_add_contains(s11, p12, x);
    lemma_add_contains(s12, p13, x);
    lemma_add_contains(s13, p14, x);
    lemma_add_contains(s14, p15, x);
    assert(t.props_spec() == s15);
}

/// A base record flattens to exactly as many pairs as it has set properties.
#[verifier::rlimit(100)]
pub proof fn lemma_control_theme_len(t: ControlTheme)
    ensures
        t.props_spec().len() == (if t.normal is Some {
            1int
        } else {
            0int
        }) + (if t.focused is Some {
            1int
        } else {
            0int
        }) + (if t.pressed is Some {
            1int
        } else {
            0int
        }) + (if t.disabled is Some {
            1int
        } else {
            0int
        }) + (if t.border_width is Some {
            1int
        } else {
            0int
        }) + (if t.border_normal is Some {
            1int
        } else {
            0int
        }) + (if t.border_focused is Some {
            1int
        } else {
            0int
        }) + (if t.border_pressed is Some {
            1int
        } else {
            0int
        }) + (if t.border_disabled is Some {
            1int
        } else {
            0int
        }) + (if t.text_padding is Some {
            1int
        } else {
            0int
        }) + (if t.text_alignment is Some {
            1int
        } else {
            0int
        }) + (if t.text_normal is Some {
            1int
        } else {
            0int
        }) + (if t.text_focused is Some {
            1int
        } else {
            0int
        }) + (if t.text_pressed is Some {
            1int
        } else {
            0int
        }) + (if t.text_disabled is Some {
            1int
        } else {
            0int
        }),
{
}

/// The flattened pairs of an optional embedded base record.
pub open spec fn base_props(value: Option<ControlTheme>) -> Seq<(u32, u32)> {
    match value {
        Some(t) => t.props_spec(),
        None => Seq::<(u32, u32)>::empty(),
    }
}

/// The override an optional embedded base record carries for one key.
pub open spec fn base_prop_at(value: Option<ControlTheme>, key: u32) -> Option<u32> {
    match value {
        Some(t) => t.prop_at(key),
        None => None,
    }
}

/// Appends the flattened pairs of an optional embedded base record.
fn push_base_props(props: &mut Vec<(u32, u32)>, value: &Option<ControlTheme>)
    ensures
        final(props)@ == old(props)@ + base_props(*value),
{
    match value {
        Some(t) => {
            let mut base = t.properties();
            props.append(&mut base);
            proof {
                assert(props@ =~= old(props)@ + base_props(*value));
            }
        },
        None => {
            proof {
                assert(props@ =~= old(props)@ + base_props(*value));
            }
        },
    }
}

/// Overrides for the global properties of the default control: text metrics
/// and the global colors.
#[derive(Clone, Copy, Debug)]
pub struct DefaultTheme {
    pub text_size: Option<u32>,
    pub text_spacing: Option<u32>,
    pub line_color: Option<Color>,
    pub background_color: Option<Color>,
}

impl DefaultTheme {
    pub open spec fn default_spec() -> DefaultTheme {
        DefaultTheme {
            text_size: Some(18u32),
            text_spacing: None,
            line_color: None,
            background_color: None,
        }
    }

    pub fn text_size(self, value: u32) -> (r: Self)
        ensures
            r == (DefaultTheme { text_size: Some(value), ..self }),
    {
        DefaultTheme { text_size: Some(value), ..self }
    }

    pub fn text_spacing(self, value: u32) -> (r: Self)
        ensures
            r == (DefaultTheme { text_spacing: Some(value), ..self }),
    {
        DefaultTheme { text_spacing: Some(value), ..self }
    }

    pub fn line_color(self, value: Color) -> (r: Self)
        ensures
            r == (DefaultTheme { line_color: Some(value), ..self }),
    {
        DefaultTheme { line_color: Some(value), ..self }
    }

    pub fn background_color(self, value: Color) -> (r: Self)
        ensures
            r == (DefaultTheme { background_color: Some(value), ..self }),
    {
        DefaultTheme { background_color: Some(value), ..self }
    }
}

impl Default for DefaultTheme {
    fn default() -> (t: DefaultTheme)
        ensures
            t == DefaultTheme::default_spec(),
    {
        DefaultTheme {
            text_size: Some(18u32),
            text_spacing: None,
            line_color: None,
            background_color: None,
        }
    }
}

impl ThemeProperties for DefaultTheme {
    open spec fn control_spec(&self) -> ControlKind {
        ControlKind::Default
    }

    open spec fn props_spec(&self) -> Seq<(u32, u32)> {
        opt_prop(TEXT_SIZE, self.text_size) + opt_prop(TEXT_SPACING, self.text_spacing) + opt_prop(
            LINE_COLOR,
            enc_color(self.line_color),
        ) + opt_prop(BACKGROUND_COLOR, enc_color(self.background_color))
    }

    open spec fn prop_at(&self, key: u32) -> Option<u32> {
        if key == TEXT_SIZE {
            self.text_size
        } else if key == TEXT_SPACING {
            self.text_spacing
        } else if key == LINE_COLOR {
            enc_color(self.line_color)
        } else if key == BACKGROUND_COLOR {
            enc_color(self.background_color)
        } else {
            None
        }
    }

    fn control(&self) -> (c: ControlKind) {
        ControlKind::Default
    }

    fn properties(&self) -> (r: Vec<(u32, u32)>) {
        let mut props: Vec<(u32, u32)> = Vec::new();
        push_prop(&mut props, TEXT_SIZE, &self.text_size);
        push_prop(&mut props, TEXT_SPACING, &self.text_spacing);
        push_color_prop(&mut props, LINE_COLOR, &self.line_color);
        push_color_prop(&mut props, BACKGROUND_COLOR, &self.background_color);
        proof {
            assert(props@ =~= self.props_spec());
        }
        props
    }
    proof fn props_complete(&self, key: u32, value: u32) {
        lemma_default_theme_complete(*self, key, value);
    }
}

/// Every pair that a default-control record flattens to is set in it, and
/// conversely.
pub proof fn lemma_default_theme_complete(t: DefaultTheme, key: u32, value: u32)
    ensures
        t.props_spec().contains((key, value)) <==> t.prop_at(key) == Some(value),
{
    let x = (key, value);
    let p1 = opt_prop(TEXT_SIZE, t.text_size);
    let p2 = opt_prop(TEXT_SPACING, t.text_spacing);
    let p3 = opt_prop(LINE_COLOR, enc_color(t.line_color));
    let p4 = opt_prop(BACKGROUND_COLOR, enc_color(t.background_color));
    lemma_opt_prop_contains(TEXT_SIZE, t.text_size, x);
    lemma_opt_prop_contains(TEXT_SPACING, t.text_spacing, x);
    lemma_opt_prop_contains(LINE_COLOR, enc_color(t.line_color), x);
    lemma_opt_prop_contains(BACKGROUND_COLOR, enc_color(t.background_color), x);
    lemma_add_contains(p1, p2, x);
    lemma_add_contains(p1 + p2, p3, x);
    lemma_add_contains(p1 + p2 + p3, p4, x);
}

/// A default-control record flattens to one pair per set property.
pub proof fn lemma_default_theme_len(t: DefaultTheme)
    ensures
        t.props_spec().len() == (if t.text_size is Some {
            1int
        } else {
            0int
        }) + (if t.text_spacing is Some {
            1int
        } else {
            0int
        }) + (if t.line_color is Some {
            1int
        } else {
            0int
        }) + (if t.background_color is Some {
            1int
        } else {
            0int
        }),
{
}

/// Overrides for the slider control: the shared base overrides plus the
/// slider's own width and padding.
#[derive(Clone, Copy, Debug)]
pub struct SliderTheme {
    pub control_theme: Option<ControlTheme>,
    pub slider_width: Option<u32>,
    pub slider_padding: Option<u32>,
}

impl SliderTheme {
    pub open spec fn default_spec() -> SliderTheme {
        SliderTheme { control_theme: None, slider_width: None, slider_padding: None }
    }

    pub fn control_theme(self, value: ControlTheme) -> (r: Self)
        ensures
            r == (SliderTheme { control_theme: Some(value), ..self }),
    {
        SliderTheme { control_theme: Some(value), ..self }
    }

    pub fn slider_width(self, value: u32) -> (r: Self)
        ensures
            r == (SliderTheme { slider_width: Some(value), ..self }),
    {
        SliderTheme { slider_width: Some(value), ..self }
    }

    pub fn slider_padding(self, value: u32) -> (r: Self)
        ensures
            r == (SliderTheme { slider_padding: Some(value), ..self }),
    {
        SliderTheme { slider_padding: Some(value), ..self }
    }
}

impl Default for SliderTheme {
    fn default() -> (t: SliderTheme)
        ensures
            t == SliderTheme::default_spec(),
    {
        SliderTheme { control_theme: None, slider_width: None, slider_padding: None }
    }
}

impl ThemeProperties for SliderTheme {
    open spec fn control_spec(&self) -> ControlKind {
        ControlKind::Slider
    }

    open spec fn props_spec(&self) -> Seq<(u32, u32)> {
        base_props(self.control_theme) + opt_prop(SLIDER_WIDTH, self.slider_width) + opt_prop(
            SLIDER_PADDING,
            self.slider_padding,
        )
    }

    open spec fn prop_at(&self, key: u32) -> Option<u32> {
        if key == SLIDER_WIDTH {
            self.slider_width
        } else if key == SLIDER_PADDING {
            self.slider_padding
        } else {
            base_prop_at(self.control_theme, key)
        }
    }

    fn control(&self) -> (c: ControlKind) {
        ControlKind::Slider
    }

    fn properties(&self) -> (r: Vec<(u32, u32)>) {
        let mut props: Vec<(u32, u32)> = Vec::new();
        push_base_props(&mut props, &self.control_theme);
        push_prop(&mut props, SLIDER_WIDTH, &self.slider_width);
        push_prop(&mut props, SLIDER_PADDING, &self.slider_padding);
        proof {
            assert(props@ =~= self.props_spec());
        }
        props
    }
    proof fn props_complete(&self, key: u32, value: u32) {
        lemma_slider_theme_complete(*self, key, value);
    }
}

/// Every pair that a slider record flattens to is set in it (its own keys
/// taking precedence over the embedded base record), and conversely.
pub proof fn lemma_slider_theme_complete(t: SliderTheme, key: u32, value: u32)
    ensures
        t.props_spec().contains((key, value)) <==> t.prop_at(key) == Some(value),
{
    let x = (key, value);
    let p1 = base_props(t.control_theme);
    let p2 = opt_prop(SLIDER_WIDTH, t.slider_width);
    let p3 = opt_prop(SLIDER_PADDING, t.slider_padding);
    match t.control_theme {
        Some(ct) => lemma_control_theme_complete(ct, key, value),
        None => (),
    }
    lemma_opt_prop_contains(SLIDER_WIDTH, t.slider_width, x);
    lemma_opt_prop_contains(SLIDER_PADDING, t.slider_padding, x);
    lemma_add_contains(p1, p2, x);
    lemma_add_contains(p1 + p2, p3, x);
}

/// A slider record flattens to the embedded base record's pairs plus one
/// pair per set property of its own.
pub proof fn lemma_slider_theme_len(t: SliderTheme)
    ensures
        t.props_spec().len() == base_props(t.control_theme).len() + (if t.slider_width is Some {
            1int
        } else {
            0int
        }) + (if t.slider_padding is Some {
            1int
        } else {
            0int
        }),
{
}

/// Overrides for the checkbox control: the shared base overrides plus the
/// checkbox's own padding.
#[derive(Clone, Copy, Debug)]
pub struct CheckBoxTheme {
    pub control_theme: Option<ControlTheme>,
    pub check_padding: Option<u32>,
}

impl CheckBoxTheme {
    pub open spec fn default_spec() -> CheckBoxTheme {
        CheckBoxTheme { control_theme: None, check_padding: None }
    }

    pub fn control_theme(self, value: ControlTheme) -> (r: Self)
        ensures
            r == (CheckBoxTheme { control_theme: Some(value), ..self }),
    {
        CheckBoxTheme { control_theme: Some(value), ..self }
    }

    pub fn check_padding(self, value: u32) -> (r: Self)
        ensures
            r == (CheckBoxTheme { check_padding: Some(value), ..self }),
    {
        CheckBoxTheme { check_padding: Some(value), ..self }
    }
}

impl Default for CheckBoxTheme {
    fn default() -> (t: CheckBoxTheme)
        ensures
            t == CheckBoxTheme::default_spec(),
    {
        CheckBoxTheme { control_theme: None, check_padding: None }
    }
}

impl ThemeProperties for CheckBoxTheme {
    open spec fn control_spec(&self) -> ControlKind {
        ControlKind::CheckBox
    }

    open spec fn props_spec(&self) -> Seq<(u32, u32)> {
        base_props(self.control_theme) + opt_prop(CHECK_PADDING, self.check_padding)
    }

    open spec fn prop_at(&self, key: u32) -> Option<u32> {
        if key == CHECK_PADDING {
            self.check_padding
        } else {
            base_prop_at(self.control_theme, key)
        }
    }

    fn control(&self) -> (c: ControlKind) {
        ControlKind::CheckBox
    }

    fn properties(&self) -> (r: Vec<(u32, u32)>) {
        let mut props: Vec<(u32, u32)> = Vec::new();
        push_base_props(&mut props, &self.control_theme);
        push_prop(&mut props, CHECK_PADDING, &self.check_padding);
        proof {
            assert(props@ =~= self.props_spec());
        }
        props
    }
    proof fn props_complete(&self, key: u32, value: u32) {
        lemma_checkbox_theme_complete(*self, key, value);
    }
}

/// Every pair that a checkbox record flattens to is set in it, and
/// conversely.
pub proof fn lemma_checkbox_theme_complete(t: CheckBoxTheme, key: u32, value: u32)
    ensures
        t.props_spec().contains((key, value)) <==> t.prop_at(key) == Some(value),
{
    let x = (key, value);
    match t.control_theme {
        Some(ct) => lemma_control_theme_complete(ct, key, value),
        None => (),
    }
    lemma_opt_prop_contains(CHECK_PADDING, t.check_padding, x);
    lemma_add_contains(base_props(t.control_theme), opt_prop(CHECK_PADDING, t.check_padding), x);
}

/// A checkbox record flattens to the embedded base record's pairs plus one
/// pair per set property of its own.
pub proof fn lemma_checkbox_theme_len(t: CheckBoxTheme)
    ensures
        t.props_spec().len() == base_props(t.control_theme).len() + (if t.check_padding is Some {
            1int
        } else {
            0int
        }),
{
}

/// Overrides for the toggle control: the shared base overrides plus the
/// toggle group's padding.
#[derive(Clone, Copy, Debug)]
pub struct ToggleTheme {
    pub control_theme: Option<ControlTheme>,
    pub group_padding: Option<u32>,
}

impl ToggleTheme {
    pub open spec fn default_spec() -> ToggleTheme {
        ToggleTheme { control_theme: None, group_padding: None, }
    }

    pub fn control_theme(self, value: ControlTheme) -> (r: Self)
        ensures
            r == (ToggleTheme { control_theme: Some(value), ..self }),
    {
        ToggleTheme { control_theme: Some(value), ..self }
    }

    pub fn group_padding(self, value: u32) -> (r: Self)
        ensures
            r == (ToggleTheme { group_padding: Some(value), ..self }),
    {
        ToggleTheme { group_padding: Some(value), ..self }
    }
}

impl Default for ToggleTheme {
    fn default() -> (t: ToggleTheme)
        ensures
            t == ToggleTheme::default_spec(),
    {
        ToggleTheme { control_theme: None, group_padding: None, }
    }
}

impl ThemeProperties for ToggleTheme {
    open spec fn control_spec(&self) -> ControlKind {
        ControlKind::Toggle
    }

    open spec fn props_spec(&self) -> Seq<(u32, u32)> {
        base_props(self.control_theme) + opt_prop(GROUP_PADDING, self.group_padding)
    }

    open spec fn prop_at(&self, key: u32) -> Option<u32> {
        if key == GROUP_PADDING {
            self.group_padding
        } else {
            base_prop_at(self.control_theme, key)
        }
    }

    fn control(&self) -> (c: ControlKind) {
        ControlKind::Toggle
    }

    fn properties(&self) -> (r: Vec<(u32, u32)>) {
        let mut props: Vec<(u32, u32)> = Vec::new();
        push_base_props(&mut props, &self.control_theme);
        push_prop(&mut props, GROUP_PADDING, &self.group_padding);
        proof {
            assert(props@ =~= self.props_spec());
        }
        props
    }
    proof fn props_complete(&self, key: u32, value: u32) {
        lemma_toggle_theme_complete(*self, key, value);
    }
}

/// Every pair that a toggle record flattens to is set in it (its own keys
/// taking precedence over the embedded base record), and conversely.
pub proof fn lemma_toggle_theme_complete(t: ToggleTheme, key: u32, value: u32)
    ensures
        t.props_spec().contains((key, value)) <==> t.prop_at(key) == Some(value),
{
    let x = (key, value);
    let p1 = base_props(t.control_theme);
    let p2 = opt_prop(GROUP_PADDING, t.group_padding);
    match t.control_theme {
        Some(ct) => lemma_control_theme_complete(ct, key, value),
        None => (),
    }
    lemma_opt_prop_contains(GROUP_PADDING, t.group_padding, x);
    lemma_add_contains(p1, p2, x);
}

/// A toggle record flattens to the embedded base record's pairs plus one
/// pair per set property of its own.
pub proof fn lemma_toggle_theme_len(t: ToggleTheme)
    ensures
        t.props_spec().len() == base_props(t.control_theme).len() + (if t.group_padding is Some {
            1int
        } else {
            0int
        }),
{
}

/// Overrides for the progress bar control: the shared base overrides plus
/// the bar's internal padding.
#[derive(Clone, Copy, Debug)]
pub struct ProgressBarTheme {
    pub control_theme: Option<ControlTheme>,
    pub progress_padding: Option<u32>,
}

impl ProgressBarTheme {
    pub open spec fn default_spec() -> ProgressBarTheme {
        ProgressBarTheme { control_theme: None, progress_padding: None, }
    }

    pub fn control_theme(self, value: ControlTheme) -> (r: Self)
        ensures
            r == (ProgressBarTheme { control_theme: Some(value), ..self }),
    {
        ProgressBarTheme { control_theme: Some(value), ..self }
    }

    pub fn progress_padding(self, value: u32) -> (r: Self)
        ensures
            r == (ProgressBarTheme { progress_padding: Some(value), ..self }),
    {
        ProgressBarTheme { progress_padding: Some(value), ..self }
    }
}

impl Default for ProgressBarTheme {
    fn default() -> (t: ProgressBarTheme)
        ensures
            t == ProgressBarTheme::default_spec(),
    {
        ProgressBarTheme { control_theme: None, progress_padding: None, }
    }
}

impl ThemeProperties for ProgressBarTheme {
    open spec fn control_spec(&self) -> ControlKind {
        ControlKind::ProgressBar
    }

    open spec fn props_spec(&self) -> Seq<(u32, u32)> {
        base_props(self.control_theme) + opt_prop(PROGRESS_PADDING, self.progress_padding)
    }

    open spec fn prop_at(&self, key: u32) -> Option<u32> {
        if key == PROGRESS_PADDING {
            self.progress_padding
        } else {
            base_prop_at(self.control_theme, key)
        }
    }

    fn control(&self) -> (c: ControlKind) {
        ControlKind::ProgressBar
    }

    fn properties(&self) -> (r: Vec<(u32, u32)>) {
        let mut props: Vec<(u32, u32)> = Vec::new();
        push_base_props(&mut props, &self.control_theme);
        push_prop(&mut props, PROGRESS_PADDING, &self.progress_padding);
        proof {
            assert(props@ =~= self.props_spec());
        }
        props
    }
    proof fn props_complete(&self, key: u32, value: u32) {
        lemma_progressbar_theme_complete(*self, key, value);
    }
}

/// Every pair that a progressbar record flattens to is set in it (its own keys
/// taking precedence over the embedded base record), and conversely.
pub proof fn lemma_progressbar_theme_complete(t: ProgressBarTheme, key: u32, value: u32)
    ensures
        t.props_spec().contains((key, value)) <==> t.prop_at(key) == Some(value),
{
    let x = (key, value);
    let p1 = base_props(t.control_theme);
    let p2 = opt_prop(PROGRESS_PADDING, t.progress_padding);
    match t.control_theme {
        Some(ct) => lemma_control_theme_complete(ct, key, value),
        None => (),
    }
    lemma_opt_prop_contains(PROGRESS_PADDING, t.progress_padding, x);
    lemma_add_contains(p1, p2, x);
}

/// A progressbar record flattens to the embedded base record's pairs plus one
/// pair per set property of its own.
pub proof fn lemma_progressbar_theme_len(t: ProgressBarTheme)
    ensures
        t.props_spec().len() == base_props(t.control_theme).len() + (if t.progress_padding is Some {
            1int
        } else {
            0int
        }),
{
}

/// Overrides for the combo box control: the shared base overrides plus the
/// right button's width and padding.
#[derive(Clone, Copy, Debug)]
pub struct ComboBoxTheme {
    pub control_theme: Option<ControlTheme>,
    pub combo_button_width: Option<u32>,
    pub combo_button_padding: Option<u32>,
}

impl ComboBoxTheme {
    pub open spec fn default_spec() -> ComboBoxTheme {
        ComboBoxTheme { control_theme: None, combo_button_width: None, combo_button_padding: None, }
    }

    pub fn control_theme(self, value: ControlTheme) -> (r: Self)
        ensures
            r == (ComboBoxTheme { control_theme: Some(value), ..self }),
    {
        ComboBoxTheme { control_theme: Some(value), ..self }
    }

    pub fn combo_button_width(self, value: u32) -> (r: Self)
        ensures
            r == (ComboBoxTheme { combo_button_width: Some(value), ..self }),
    {
        ComboBoxTheme { combo_button_width: Some(value), ..self }
    }

    pub fn combo_button_padding(self, value: u32) -> (r: Self)
        ensures
            r == (ComboBoxTheme { combo_button_padding: Some(value), ..self }),
    {
        ComboBoxTheme { combo_button_padding: Some(value), ..self }
    }
}

impl Default for ComboBoxTheme {
    fn default() -> (t: ComboBoxTheme)
        ensures
            t == ComboBoxTheme::default_spec(),
    {
        ComboBoxTheme { control_theme: None, combo_button_width: None, combo_button_padding: None, }
    }
}

impl ThemeProperties for ComboBoxTheme {
    open spec fn control_spec(&self) -> ControlKind {
        ControlKind::ComboBox
    }

    open spec fn props_spec(&self) -> Seq<(u32, u32)> {
        base_props(self.control_theme) + opt_prop(COMBO_BUTTON_WIDTH, self.combo_button_width)
            + opt_prop(COMBO_BUTTON_PADDING, self.combo_button_padding)
    }

    open spec fn prop_at(&self, key: u32) -> Option<u32> {
        if key == COMBO_BUTTON_WIDTH {
            self.combo_button_width
        } else if key == COMBO_BUTTON_PADDING {
            self.combo_button_padding
        } else {
            base_prop_at(self.control_theme, key)
        }
    }

    fn control(&self) -> (c: ControlKind) {
        ControlKind::ComboBox
    }

    fn properties(&self) -> (r: Vec<(u32, u32)>) {
        let mut props: Vec<(u32, u32)> = Vec::new();
        push_base_props(&mut props, &self.control_theme);
        push_prop(&mut props, COMBO_BUTTON_WIDTH, &self.combo_button_width);
        push_prop(&mut props, COMBO_BUTTON_PADDING, &self.combo_button_padding);
        proof {
            assert(props@ =~= self.props_spec());
        }
        props
    }
    proof fn props_complete(&self, key: u32, value: u32) {
        lemma_combobox_theme_complete(*self, key, value);
    }
}

/// Every pair that a combobox record flattens to is set in it (its own keys
/// taking precedence over the embedded base record), and conversely.
pub proof fn lemma_combobox_theme_complete(t: ComboBoxTheme, key: u32, value: u32)
    ensures
        t.props_spec().contains((key, value)) <==> t.prop_at(key) == Some(value),
{
    let x = (key, value);
    let p1 = base_props(t.control_theme);
    let p2 = opt_prop(COMBO_BUTTON_WIDTH, t.combo_button_width);
    let p3 = opt_prop(COMBO_BUTTON_PADDING, t.combo_button_padding);
    match t.control_theme {
        Some(ct) => lemma_control_theme_complete(ct, key, value),
        None => (),
    }
    lemma_opt_prop_contains(COMBO_BUTTON_WIDTH, t.combo_button_width, x);
    lemma_opt_prop_contains(COMBO_BUTTON_PADDING, t.combo_button_padding, x);
    lemma_add_contains(p1, p2, x);
    lemma_add_contains(p1 + p2, p3, x);
}

/// A combobox record flattens to the embedded base record's pairs plus one
/// pair per set property of its own.
pub proof fn lemma_combobox_theme_len(t: ComboBoxTheme)
    ensures
        t.props_spec().len() == base_props(t.control_theme).len() + (if t.combo_button_width
            is Some {
            1int
        } else {
            0int
        }) + (if t.combo_button_padding is Some {
            1int
        } else {
            0int
        }),
{
}

/// Overrides for the dropdown box control: the shared base overrides plus
/// the arrow and item padding.
#[derive(Clone, Copy, Debug)]
pub struct DropdownBoxTheme {
    pub control_theme: Option<ControlTheme>,
    pub arrow_padding: Option<u32>,
    pub dropdown_item_padding: Option<u32>,
}

impl DropdownBoxTheme {
    pub open spec fn default_spec() -> DropdownBoxTheme {
        DropdownBoxTheme { control_theme: None, arrow_padding: None, dropdown_item_padding: None, }
    }

    pub fn control_theme(self, value: ControlTheme) -> (r: Self)
        ensures
            r == (DropdownBoxTheme { control_theme: Some(value), ..self }),
    {
        DropdownBoxTheme { control_theme: Some(value), ..self }
    }

    pub fn arrow_padding(self, value: u32) -> (r: Self)
        ensures
            r == (DropdownBoxTheme { arrow_padding: Some(value), ..self }),
    {
        DropdownBoxTheme { arrow_padding: Some(value), ..self }
    }

    pub fn dropdown_item_padding(self, value: u32) -> (r: Self)
        ensures
            r == (DropdownBoxTheme { dropdown_item_padding: Some(value), ..self }),
    {
        DropdownBoxTheme { dropdown_item_padding: Some(value), ..self }
    }
}

impl Default for DropdownBoxTheme {
    fn default() -> (t: DropdownBoxTheme)
        ensures
            t == DropdownBoxTheme::default_spec(),
    {
        DropdownBoxTheme { control_theme: None, arrow_padding: None, dropdown_item_padding: None, }
    }
}

impl ThemeProperties for DropdownBoxTheme {
    open spec fn control_spec(&self) -> ControlKind {
        ControlKind::DropdownBox
    }

    open spec fn props_spec(&self) -> Seq<(u32, u32)> {
        base_props(self.control_theme) + opt_prop(ARROW_PADDING, self.arrow_padding)
            + opt_prop(DROPDOWN_ITEMS_PADDING, self.dropdown_item_padding)
    }

    open spec fn prop_at(&self, key: u32) -> Option<u32> {
        if key == ARROW_PADDING {
            self.arrow_padding
        } else if key == DROPDOWN_ITEMS_PADDING {
            self.dropdown_item_padding
        } else {
            base_prop_at(self.control_theme, key)
        }
    }

    fn control(&self) -> (c: ControlKind) {
        ControlKind::DropdownBox
    }

    fn properties(&self) -> (r: Vec<(u32, u32)>) {
        let mut props: Vec<(u32, u32)> = Vec::new();
        push_base_props(&mut props, &self.control_theme);
        push_prop(&mut props, ARROW_PADDING, &self.arrow_padding);
        push_prop(&mut props, DROPDOWN_ITEMS_PADDING, &self.dropdown_item_padding);
        proof {
            assert(props@ =~= self.props_spec());
        }
        props
    }
    proof fn props_complete(&self, key: u32, value: u32) {
        lemma_dropdownbox_theme_complete(*self, key, value);
    }
}

/// Every pair that a dropdownbox record flattens to is set in it (its own keys
/// taking precedence over the embedded base record), and conversely.
pub proof fn lemma_dropdownbox_theme_complete(t: DropdownBoxTheme, key: u32, value: u32)
    ensures
        t.props_spec().contains((key, value)) <==> t.prop_at(key) == Some(value),
{
    let x = (key, value);
    let p1 = base_props(t.control_theme);
    let p2 = opt_prop(ARROW_PADDING, t.arrow_padding);
    let p3 = opt_prop(DROPDOWN_ITEMS_PADDING, t.dropdown_item_padding);
    match t.control_theme {
        Some(ct) => lemma_control_theme_complete(ct, key, value),
        None => (),
    }
    lemma_opt_prop_contains(ARROW_PADDING, t.arrow_padding, x);
    lemma_opt_prop_contains(DROPDOWN_ITEMS_PADDING, t.dropdown_item_padding, x);
    lemma_add_contains(p1, p2, x);
    lemma_add_contains(p1 + p2, p3, x);
}

/// A dropdownbox record flattens to the embedded base record's pairs plus one
/// pair per set property of its own.
pub proof fn lemma_dropdownbox_theme_len(t: DropdownBoxTheme)
    ensures
        t.props_spec().len() == base_props(t.control_theme).len() + (if t.arrow_padding is Some {
            1int
        } else {
            0int
        }) + (if t.dropdown_item_padding is Some {
            1int
        } else {
            0int
        }),
{
}

/// Overrides for the scroll bar control: the shared base overrides plus the
/// arrow, slider and speed settings.
#[derive(Clone, Copy, Debug)]
pub struct ScrollBarTheme {
    pub control_theme: Option<ControlTheme>,
    pub arrow_size: Option<u32>,
    pub arrow_visible: Option<bool>,
    pub scroll_slider_padding: Option<u32>,
    pub scroll_slider_size: Option<u32>,
    pub scroll_padding: Option<u32>,
    pub scroll_speed: Option<u32>,
}

impl ScrollBarTheme {
    pub open spec fn default_spec() -> ScrollBarTheme {
        ScrollBarTheme {
            control_theme: None,
            arrow_size: None,
            arrow_visible: None,
            scroll_slider_padding: None,
            scroll_slider_size: None,
            scroll_padding: None,
            scroll_speed: None,
        }
    }

    pub fn control_theme(self, value: ControlTheme) -> (r: Self)
        ensures
            r == (ScrollBarTheme { control_theme: Some(value), ..self }),
    {
        ScrollBarTheme { control_theme: Some(value), ..self }
    }

    pub fn arrow_size(self, value: u32) -> (r: Self)
        ensures
            r == (ScrollBarTheme { arrow_size: Some(value), ..self }),
    {
        ScrollBarTheme { arrow_size: Some(value), ..self }
    }

    pub fn arrow_visible(self, value: bool) -> (r: Self)
        ensures
            r == (ScrollBarTheme { arrow_visible: Some(value), ..self }),
    {
        ScrollBarTheme { arrow_visible: Some(value), ..self }
    }

    pub fn scroll_slider_padding(self, value: u32) -> (r: Self)
        ensures
            r == (ScrollBarTheme { scroll_slider_padding: Some(value), ..self }),
    {
        ScrollBarTheme { scroll_slider_padding: Some(value), ..self }
    }

    pub fn scroll_slider_size(self, value: u32) -> (r: Self)
        ensures
            r == (ScrollBarTheme { scroll_slider_size: Some(value), ..self }),
    {
        ScrollBarTheme { scroll_slider_size: Some(value), ..self }
    }

    pub fn scroll_padding(self, value: u32) -> (r: Self)
        ensures
            r == (ScrollBarTheme { scroll_padding: Some(value), ..self }),
    {
        ScrollBarTheme { scroll_padding: Some(value), ..self }
    }

    pub fn scroll_speed(self, value: u32) -> (r: Self)
        ensures
            r == (ScrollBarTheme { scroll_speed: Some(value), ..self }),
    {
        ScrollBarTheme { scroll_speed: Some(value), ..self }
    }
}

impl Default for ScrollBarTheme {
    fn default() -> (t: ScrollBarTheme)
        ensures
            t == ScrollBarTheme::default_spec(),
    {
        ScrollBarTheme {
            control_theme: None,
            arrow_size: None,
            arrow_visible: None,
            scroll_slider_padding: None,
            scroll_slider_size: None,
            scroll_padding: None,
            scroll_speed: None,
        }
    }
}

impl ThemeProperties for ScrollBarTheme {
    open spec fn control_spec(&self) -> ControlKind {
        ControlKind::ScrollBar
    }

    open spec fn props_spec(&self) -> Seq<(u32, u32)> {
        base_props(self.control_theme) + opt_prop(ARROWS_SIZE, self.arrow_size)
            + opt_prop(ARROWS_VISIBLE, enc_bool(self.arrow_visible))
            + opt_prop(SCROLL_SLIDER_PADDING, self.scroll_slider_padding)
            + opt_prop(SCROLL_SLIDER_SIZE, self.scroll_slider_size)
            + opt_prop(SCROLL_PADDING, self.scroll_padding)
            + opt_prop(SCROLL_SPEED, self.scroll_speed)
    }

    open spec fn prop_at(&self, key: u32) -> Option<u32> {
        if key == ARROWS_SIZE {
            self.arrow_size
        } else if key == ARROWS_VISIBLE {
            enc_bool(self.arrow_visible)
        } else if key == SCROLL_SLIDER_PADDING {
            self.scroll_slider_padding
        } else if key == SCROLL_SLIDER_SIZE {
            self.scroll_slider_size
        } else if key == SCROLL_PADDING {
            self.scroll_padding
        } else if key == SCROLL_SPEED {
            self.scroll_speed
        } else {
            base_prop_at(self.control_theme, key)
        }
    }

    fn control(&self) -> (c: ControlKind) {
        ControlKind::ScrollBar
    }

    fn properties(&self) -> (r: Vec<(u32, u32)>) {
        let mut props: Vec<(u32, u32)> = Vec::new();
        push_base_props(&mut props, &self.control_theme);
        push_prop(&mut props, ARROWS_SIZE, &self.arrow_size);
        push_bool_prop(&mut props, ARROWS_VISIBLE, &self.arrow_visible);
        push_prop(&mut props, SCROLL_SLIDER_PADDING, &self.scroll_slider_padding);
        push_prop(&mut props, SCROLL_SLIDER_SIZE, &self.scroll_slider_size);
        push_prop(&mut props, SCROLL_PADDING, &self.scroll_padding);
        push_prop(&mut props, SCROLL_SPEED, &self.scroll_speed);
        proof {
            assert(props@ =~= self.props_spec());
        }
        props
    }
    proof fn props_complete(&self, key: u32, value: u32) {
        lemma_scrollbar_theme_complete(*self, key, value);
    }
}

/// Every pair that a scrollbar record flattens to is set in it (its own keys
/// taking precedence over the embedded base record), and conversely.
pub proof fn lemma_scrollbar_theme_complete(t: ScrollBarTheme, key: u32, value: u32)
    ensures
        t.props_spec().contains((key, value)) <==> t.prop_at(key) == Some(value),
{
    let x = (key, value);
    let p1 = base_props(t.control_theme);
    let p2 = opt_prop(ARROWS_SIZE, t.arrow_size);
    let p3 = opt_prop(ARROWS_VISIBLE, enc_bool(t.arrow_visible));
    let p4 = opt_prop(SCROLL_SLIDER_PADDING, t.scroll_slider_padding);
    let p5 = opt_prop(SCROLL_SLIDER_SIZE, t.scroll_slider_size);
    let p6 = opt_prop(SCROLL_PADDING, t.scroll_padding);
    let p7 = opt_prop(SCROLL_SPEED, t.scroll_speed);
    match t.control_theme {
        Some(ct) => lemma_control_theme_complete(ct, key, value),
        None => (),
    }
    lemma_opt_prop_contains(ARROWS_SIZE, t.arrow_size, x);
    lemma_opt_prop_contains(ARROWS_VISIBLE, enc_bool(t.arrow_visible), x);
    lemma_opt_prop_contains(SCROLL_SLIDER_PADDING, t.scroll_slider_padding, x);
    lemma_opt_prop_contains(SCROLL_SLIDER_SIZE, t.scroll_slider_size, x);
    lemma_opt_prop_contains(SCROLL_PADDING, t.scroll_padding, x);
    lemma_opt_prop_contains(SCROLL_SPEED, t.scroll_speed, x);
    lemma_add_contains(p1, p2, x);
    lemma_add_contains(p1 + p2, p3, x);
    lemma_add_contains(p1 + p2 + p3, p4, x);
    lemma_add_contains(p1 + p2 + p3 + p4, p5, x);
    lemma_add_contains(p1 + p2 + p3 + p4 + p5, p6, x);
    lemma_add_contains(p1 + p2 + p3 + p4 + p5 + p6, p7, x);
}

/// A scrollbar record flattens to the embedded base record's pairs plus one
/// pair per set property of its own.
pub proof fn lemma_scrollbar_theme_len(t: ScrollBarTheme)
    ensures
        t.props_spec().len() == base_props(t.control_theme).len() + (if t.arrow_size is Some {
            1int
        } else {
            0int
        }) + (if t.arrow_visible is Some {
            1int
        } else {
            0int
        }) + (if t.scroll_slider_padding is Some {
            1int
        } else {
            0int
        }) + (if t.scroll_slider_size is Some {
            1int
        } else {
            0int
        }) + (if t.scroll_padding is Some {
            1int
        } else {
            0int
        }) + (if t.scroll_speed is Some {
            1int
        } else {
            0int
        }),
{
}

/// Overrides for the color picker control: the shared base overrides plus
/// the selector and hue bar geometry.
#[derive(Clone, Copy, Debug)]
pub struct ColorPickerTheme {
    pub control_theme: Option<ControlTheme>,
    pub color_selector_size: Option<u32>,
    pub huebar_width: Option<u32>,
    pub huebar_padding: Option<u32>,
    pub huebar_selector_height: Option<u32>,
    pub huebar_selector_overflow: Option<u32>,
}

impl ColorPickerTheme {
    pub open spec fn default_spec() -> ColorPickerTheme {
        ColorPickerTheme {
            control_theme: None,
            color_selector_size: None,
            huebar_width: None,
            huebar_padding: None,
            huebar_selector_height: None,
            huebar_selector_overflow: None,
        }
    }

    pub fn control_theme(self, value: ControlTheme) -> (r: Self)
        ensures
            r == (ColorPickerTheme { control_theme: Some(value), ..self }),
    {
        ColorPickerTheme { control_theme: Some(value), ..self }
    }

    pub fn color_selector_size(self, value: u32) -> (r: Self)
        ensures
            r == (ColorPickerTheme { color_selector_size: Some(value), ..self }),
    {
        ColorPickerTheme { color_selector_size: Some(value), ..self }
    }

    pub fn huebar_width(self, value: u32) -> (r: Self)
        ensures
            r == (ColorPickerTheme { huebar_width: Some(value), ..self }),
    {
        ColorPickerTheme { huebar_width: Some(value), ..self }
    }

    pub fn huebar_padding(self, value: u32) -> (r: Self)
        ensures
            r == (ColorPickerTheme { huebar_padding: Some(value), ..self }),
    {
        ColorPickerTheme { huebar_padding: Some(value), ..self }
    }

    pub fn huebar_selector_height(self, value: u32) -> (r: Self)
        ensures
            r == (ColorPickerTheme { huebar_selector_height: Some(value), ..self }),
    {
        ColorPickerTheme { huebar_selector_height: Some(value), ..self }
    }

    pub fn huebar_selector_overflow(self, value: u32) -> (r: Self)
        ensures
            r == (ColorPickerTheme { huebar_selector_overflow: Some(value), ..self }),
    {
        ColorPickerTheme { huebar_selector_overflow: Some(value), ..self }
    }
}

impl Default for ColorPickerTheme {
    fn default() -> (t: ColorPickerTheme)
        ensures
            t == ColorPickerTheme::default_spec(),
    {
        ColorPickerTheme {
            control_theme: None,
            color_selector_size: None,
            huebar_width: None,
            huebar_padding: None,
            huebar_selector_height: None,
            huebar_selector_overflow: None,
        }
    }
}

impl ThemeProperties for ColorPickerTheme {
    open spec fn control_spec(&self) -> ControlKind {
        ControlKind::ColorPicker
    }

    open spec fn props_spec(&self) -> Seq<(u32, u32)> {
        base_props(self.control_theme) + opt_prop(COLOR_SELECTOR_SIZE, self.color_selector_size)
            + opt_prop(HUEBAR_WIDTH, self.huebar_width)
            + opt_prop(HUEBAR_PADDING, self.huebar_padding)
            + opt_prop(HUEBAR_SELECTOR_HEIGHT, self.huebar_selector_height)
            + opt_prop(HUEBAR_SELECTOR_OVERFLOW, self.huebar_selector_overflow)
    }

    open spec fn prop_at(&self, key: u32) -> Option<u32> {
        if key == COLOR_SELECTOR_SIZE {
            self.color_selector_size
        } else if key == HUEBAR_WIDTH {
            self.huebar_width
        } else if key == HUEBAR_PADDING {
            self.huebar_padding
        } else if key == HUEBAR_SELECTOR_HEIGHT {
            self.huebar_selector_height
        } else if key == HUEBAR_SELECTOR_OVERFLOW {
            self.huebar_selector_overflow
        } else {
            base_prop_at(self.control_theme, key)
        }
    }

    fn control(&self) -> (c: ControlKind) {
        ControlKind::ColorPicker
    }

    fn properties(&self) -> (r: Vec<(u32, u32)>) {
        let mut props: Vec<(u32, u32)> = Vec::new();
        push_base_props(&mut props, &self.control_theme);
        push_prop(&mut props, COLOR_SELECTOR_SIZE, &self.color_selector_size);
        push_prop(&mut props, HUEBAR_WIDTH, &self.huebar_width);
        push_prop(&mut props, HUEBAR_PADDING, &self.huebar_padding);
        push_prop(&mut props, HUEBAR_SELECTOR_HEIGHT, &self.huebar_selector_height);
        push_prop(&mut props, HUEBAR_SELECTOR_OVERFLOW, &self.huebar_selector_overflow);
        proof {
            assert(props@ =~= self.props_spec());
        }
        props
    }
    proof fn props_complete(&self, key: u32, value: u32) {
        lemma_colorpicker_theme_complete(*self, key, value);
    }
}

/// Every pair that a colorpicker record flattens to is set in it (its own keys
/// taking precedence over the embedded base record), and conversely.
pub proof fn lemma_colorpicker_theme_complete(t: ColorPickerTheme, key: u32, value: u32)
    ensures
        t.props_spec().contains((key, value)) <==> t.prop_at(key) == Some(value),
{
    let x = (key, value);
    let p1 = base_props(t.control_theme);
    let p2 = opt_prop(COLOR_SELECTOR_SIZE, t.color_selector_size);
    let p3 = opt_prop(HUEBAR_WIDTH, t.huebar_width);
    let p4 = opt_prop(HUEBAR_PADDING, t.huebar_padding);
    let p5 = opt_prop(HUEBAR_SELECTOR_HEIGHT, t.huebar_selector_height);
    let p6 = opt_prop(HUEBAR_SELECTOR_OVERFLOW, t.huebar_selector_overflow);
    match t.control_theme {
        Some(ct) => lemma_control_theme_complete(ct, key, value),
        None => (),
    }
    lemma_opt_prop_contains(COLOR_SELECTOR_SIZE, t.color_selector_size, x);
    lemma_opt_prop_contains(HUEBAR_WIDTH, t.huebar_width, x);
    lemma_opt_prop_contains(HUEBAR_PADDING, t.huebar_padding, x);
    lemma_opt_prop_contains(HUEBAR_SELECTOR_HEIGHT, t.huebar_selector_height, x);
    lemma_opt_prop_contains(HUEBAR_SELECTOR_OVERFLOW, t.huebar_selector_overflow, x);
    lemma_add_contains(p1, p2, x);
    lemma_add_contains(p1 + p2, p3, x);
    lemma_add_contains(p1 + p2 + p3, p4, x);
    lemma_add_contains(p1 + p2 + p3 + p4, p5, x);
    lemma_add_contains(p1 + p2 + p3 + p4 + p5, p6, x);
}

/// A colorpicker record flattens to the embedded base record's pairs plus one
/// pair per set property of its own.
pub proof fn lemma_colorpicker_theme_len(t: ColorPickerTheme)
    ensures
        t.props_spec().len() == base_props(t.control_theme).len() + (if t.color_selector_size
            is Some {
            1int
        } else {
            0int
        }) + (if t.huebar_width is Some {
            1int
        } else {
            0int
        }) + (if t.huebar_padding is Some {
            1int
        } else {
            0int
        }) + (if t.huebar_selector_height is Some {
            1int
        } else {
            0int
        }) + (if t.huebar_selector_overflow is Some {
            1int
        } else {
            0int
        }),
{
}

/// Overrides for the text box control: the shared base overrides plus the
/// text paddings and the selected-text colors.
#[derive(Clone, Copy, Debug)]
pub struct TextBoxTheme {
    pub control_theme: Option<ControlTheme>,
    pub text_inner_padding: Option<u32>,
    pub text_lines_padding: Option<u32>,
    pub color_selected_fg: Option<Color>,
    pub color_selected_bg: Option<Color>,
}

impl TextBoxTheme {
    pub open spec fn default_spec() -> TextBoxTheme {
        TextBoxTheme {
            control_theme: None,
            text_inner_padding: None,
            text_lines_padding: None,
            color_selected_fg: None,
            color_selected_bg: None,
        }
    }

    pub fn control_theme(self, value: ControlTheme) -> (r: Self)
        ensures
            r == (TextBoxTheme { control_theme: Some(value), ..self }),
    {
        TextBoxTheme { control_theme: Some(value), ..self }
    }

    pub fn text_inner_padding(self, value: u32) -> (r: Self)
        ensures
            r == (TextBoxTheme { text_inner_padding: Some(value), ..self }),
    {
        TextBoxTheme { text_inner_padding: Some(value), ..self }
    }

    pub fn text_lines_padding(self, value: u32) -> (r: Self)
        ensures
            r == (TextBoxTheme { text_lines_padding: Some(value), ..self }),
    {
        TextBoxTheme { text_lines_padding: Some(value), ..self }
    }

    pub fn color_selected_fg(self, value: Color) -> (r: Self)
        ensures
            r == (TextBoxTheme { color_selected_fg: Some(value), ..self }),
    {
        TextBoxTheme { color_selected_fg: Some(value), ..self }
    }

    pub fn color_selected_bg(self, value: Color) -> (r: Self)
        ensures
            r == (TextBoxTheme { color_selected_bg: Some(value), ..self }),
    {
        TextBoxTheme { color_selected_bg: Some(value), ..self }
    }
}

impl Default for TextBoxTheme {
    fn default() -> (t: TextBoxTheme)
        ensures
            t == TextBoxTheme::default_spec(),
    {
        TextBoxTheme {
            control_theme: None,
            text_inner_padding: None,
            text_lines_padding: None,
            color_selected_fg: None,
            color_selected_bg: None,
        }
    }
}

impl ThemeProperties for TextBoxTheme {
    open spec fn control_spec(&self) -> ControlKind {
        ControlKind::TextBox
    }

    open spec fn props_spec(&self) -> Seq<(u32, u32)> {
        base_props(self.control_theme) + opt_prop(TEXT_INNER_PADDING, self.text_inner_padding)
            + opt_prop(TEXT_LINES_PADDING, self.text_lines_padding)
            + opt_prop(COLOR_SELECTED_FG, enc_color(self.color_selected_fg))
            + opt_prop(COLOR_SELECTED_BG, enc_color(self.color_selected_bg))
    }

    open spec fn prop_at(&self, key: u32) -> Option<u32> {
        if key == TEXT_INNER_PADDING {
            self.text_inner_padding
        } else if key == TEXT_LINES_PADDING {
            self.text_lines_padding
        } else if key == COLOR_SELECTED_FG {
            enc_color(self.color_selected_fg)
        } else if key == COLOR_SELECTED_BG {
            enc_color(self.color_selected_bg)
        } else {
            base_prop_at(self.control_theme, key)
        }
    }

    fn control(&self) -> (c: ControlKind) {
        ControlKind::TextBox
    }

    fn properties(&self) -> (r: Vec<(u32, u32)>) {
        let mut props: Vec<(u32, u32)> = Vec::new();
        push_base_props(&mut props, &self.control_theme);
        push_prop(&mut props, TEXT_INNER_PADDING, &self.text_inner_padding);
        push_prop(&mut props, TEXT_LINES_PADDING, &self.text_lines_padding);
        push_color_prop(&mut props, COLOR_SELECTED_FG, &self.color_selected_fg);
        push_color_prop(&mut props, COLOR_SELECTED_BG, &self.color_selected_bg);
        proof {
            assert(props@ =~= self.props_spec());
        }
        props
    }

    proof fn props_complete(&self, key: u32, value: u32) {
        lemma_textbox_theme_complete(*self, key, value);
    }
}

/// Every pair that a textbox record flattens to is set in it (its own keys
/// taking precedence over the embedded base record), and conversely.
pub proof fn lemma_textbox_theme_complete(t: TextBoxTheme, key: u32, value: u32)
    ensures
        t.props_spec().contains((key, value)) <==> t.prop_at(key) == Some(value),
{
    let x = (key, value);
    let p1 = base_props(t.control_theme);
    let p2 = opt_prop(TEXT_INNER_PADDING, t.text_inner_padding);
    let p3 = opt_prop(TEXT_LINES_PADDING, t.text_lines_padding);
    let p4 = opt_prop(COLOR_SELECTED_FG, enc_color(t.color_selected_fg));
    let p5 = opt_prop(COLOR_SELECTED_BG, enc_color(t.color_selected_bg));
    match t.control_theme {
        Some(ct) => lemma_control_theme_complete(ct, key, value),
        None => (),
    }
    lemma_opt_prop_contains(TEXT_INNER_PADDING, t.text_inner_padding, x);
    lemma_opt_prop_contains(TEXT_LINES_PADDING, t.text_lines_padding, x);
    lemma_opt_prop_contains(COLOR_SELECTED_FG, enc_color(t.color_selected_fg), x);
    lemma_opt_prop_contains(COLOR_SELECTED_BG, enc_color(t.color_selected_bg), x);
    lemma_add_contains(p1, p2, x);
    lemma_add_contains(p1 + p2, p3, x);
    lemma_add_contains(p1 + p2 + p3, p4, x);
    lemma_add_contains(p1 + p2 + p3 + p4, p5, x);
}

/// A textbox record flattens to the embedded base record's pairs plus one
/// pair per set property of its own.
pub proof fn lemma_textbox_theme_len(t: TextBoxTheme)
    ensures
        t.props_spec().len() == base_props(t.control_theme).len() + (if t.text_inner_padding
            is Some {
            1int
        } else {
            0int
        }) + (if t.text_lines_padding is Some {
            1int
        } else {
            0int
        }) + (if t.color_selected_fg is Some {
            1int
        } else {
            0int
        }) + (if t.color_selected_bg is Some {
            1int
        } else {
            0int
        }),
{
}

/// Overrides for the spinner control: the shared base overrides plus the
/// text paddings and the selected-text colors it shares with the text box.
#[derive(Clone, Copy, Debug)]
pub struct SpinnerTheme {
    pub control_theme: Option<ControlTheme>,
    pub text_inner_padding: Option<u32>,
    pub text_lines_padding: Option<u32>,
    pub color_selected_fg: Option<Color>,
    pub color_selected_bg: Option<Color>,
}

impl SpinnerTheme {
    pub open spec fn default_spec() -> SpinnerTheme {
        SpinnerTheme {
            control_theme: None,
            text_inner_padding: None,
            text_lines_padding: None,
            color_selected_fg: None,
            color_selected_bg: None,
        }
    }

    pub fn control_theme(self, value: ControlTheme) -> (r: Self)
        ensures
            r == (SpinnerTheme { control_theme: Some(value), ..self }),
    {
        SpinnerTheme { control_theme: Some(value), ..self }
    }

    pub fn text_inner_padding(self, value: u32) -> (r: Self)
        ensures
            r == (SpinnerTheme { text_inner_padding: Some(value), ..self }),
    {
        SpinnerTheme { text_inner_padding: Some(value), ..self }
    }

    pub fn text_lines_padding(self, value: u32) -> (r: Self)
        ensures
            r == (SpinnerTheme { text_lines_padding: Some(value), ..self }),
    {
        SpinnerTheme { text_lines_padding: Some(value), ..self }
    }

    pub fn color_selected_fg(self, value: Color) -> (r: Self)
        ensures
            r == (SpinnerTheme { color_selected_fg: Some(value), ..self }),
    {
        SpinnerTheme { color_selected_fg: Some(value), ..self }
    }

    pub fn color_selected_bg(self, value: Color) -> (r: Self)
        ensures
            r == (SpinnerTheme { color_selected_bg: Some(value), ..self }),
    {
        SpinnerTheme { color_selected_bg: Some(value), ..self }
    }
}

impl Default for SpinnerTheme {
    fn default() -> (t: SpinnerTheme)
        ensures
            t == SpinnerTheme::default_spec(),
    {
        SpinnerTheme {
            control_theme: None,
            text_inner_padding: None,
            text_lines_padding: None,
            color_selected_fg: None,
            color_selected_bg: None,
        }
    }
}

impl ThemeProperties for SpinnerTheme {
    open spec fn control_spec(&self) -> ControlKind {
        ControlKind::Spinner
    }

    open spec fn props_spec(&self) -> Seq<(u32, u32)> {
        base_props(self.control_theme) + opt_prop(TEXT_INNER_PADDING, self.text_inner_padding)
            + opt_prop(TEXT_LINES_PADDING, self.text_lines_padding)
            + opt_prop(COLOR_SELECTED_FG, enc_color(self.color_selected_fg))
            + opt_prop(COLOR_SELECTED_BG, enc_color(self.color_selected_bg))
    }

    open spec fn prop_at(&self, key: u32) -> Option<u32> {
        if key == TEXT_INNER_PADDING {
            self.text_inner_padding
        } else if key == TEXT_LINES_PADDING {
            self.text_lines_padding
        } else if key == COLOR_SELECTED_FG {
            enc_color(self.color_selected_fg)
        } else if key == COLOR_SELECTED_BG {
            enc_color(self.color_selected_bg)
        } else {
            base_prop_at(self.control_theme, key)
        }
    }

    fn control(&self) -> (c: ControlKind) {
        ControlKind::Spinner
    }

    fn properties(&self) -> (r: Vec<(u32, u32)>) {
        let mut props: Vec<(u32, u32)> = Vec::new();
        push_base_props(&mut props, &self.control_theme);
        push_prop(&mut props, TEXT_INNER_PADDING, &self.text_inner_padding);
        push_prop(&mut props, TEXT_LINES_PADDING, &self.text_lines_padding);
        push_color_prop(&mut props, COLOR_SELECTED_FG, &self.color_selected_fg);
        push_color_prop(&mut props, COLOR_SELECTED_BG, &self.color_selected_bg);
        proof {
            assert(props@ =~= self.props_spec());
        }
        props
    }

    proof fn props_complete(&self, key: u32, value: u32) {
        lemma_spinner_theme_complete(*self, key, value);
    }
}

/// Every pair that a spinner record flattens to is set in it (its own keys
/// taking precedence over the embedded base record), and conversely.
pub proof fn lemma_spinner_theme_complete(t: SpinnerTheme, key: u32, value: u32)
    ensures
        t.props_spec().contains((key, value)) <==> t.prop_at(key) == Some(value),
{
    let x = (key, value);
    let p1 = base_props(t.control_theme);
    let p2 = opt_prop(TEXT_INNER_PADDING, t.text_inner_padding);
    let p3 = opt_prop(TEXT_LINES_PADDING, t.text_lines_padding);
    let p4 = opt_prop(COLOR_SELECTED_FG, enc_color(t.color_selected_fg));
    let p5 = opt_prop(COLOR_SELECTED_BG, enc_color(t.color_selected_bg));
    match t.control_theme {
        Some(ct) => lemma_control_theme_complete(ct, key, value),
        None => (),
    }
    lemma_opt_prop_contains(TEXT_INNER_PADDING, t.text_inner_padding, x);
    lemma_opt_prop_contains(TEXT_LINES_PADDING, t.text_lines_padding, x);
    lemma_opt_prop_contains(COLOR_SELECTED_FG, enc_color(t.color_selected_fg), x);
    lemma_opt_prop_contains(COLOR_SELECTED_BG, enc_color(t.color_selected_bg), x);
    lemma_add_contains(p1, p2, x);
    lemma_add_contains(p1 + p2, p3, x);
    lemma_add_contains(p1 + p2 + p3, p4, x);
    lemma_add_contains(p1 + p2 + p3 + p4, p5, x);
}

/// A spinner record flattens to the embedded base record's pairs plus one
/// pair per set property of its own.
pub proof fn lemma_spinner_theme_len(t: SpinnerTheme)
    ensures
        t.props_spec().len() == base_props(t.control_theme).len() + (if t.text_inner_padding
            is Some {
            1int
        } else {
            0int
        }) + (if t.text_lines_padding is Some {
            1int
        } else {
            0int
        }) + (if t.color_selected_fg is Some {
            1int
        } else {
            0int
        }) + (if t.color_selected_bg is Some {
            1int
        } else {
            0int
        }),
{
}

/// Overrides for the list view control: the shared base overrides plus the
/// item geometry and the scroll bar placement.
#[derive(Clone, Copy, Debug)]
pub struct ListViewTheme {
    pub control_theme: Option<ControlTheme>,
    pub list_item_height: Option<u32>,
    pub list_item_padding: Option<u32>,
    pub scrollbar_width: Option<u32>,
    pub scrollbar_side: Option<ScrollBarSide>,
}

impl ListViewTheme {
    pub open spec fn default_spec() -> ListViewTheme {
        ListViewTheme {
            control_theme: None,
            list_item_height: None,
            list_item_padding: None,
            scrollbar_width: None,
            scrollbar_side: None,
        }
    }

    pub fn control_theme(self, value: ControlTheme) -> (r: Self)
        ensures
            r == (ListViewTheme { control_theme: Some(value), ..self }),
    {
        ListViewTheme { control_theme: Some(value), ..self }
    }

    pub fn list_item_height(self, value: u32) -> (r: Self)
        ensures
            r == (ListViewTheme { list_item_height: Some(value), ..self }),
    {
        ListViewTheme { list_item_height: Some(value), ..self }
    }

    pub fn list_item_padding(self, value: u32) -> (r: Self)
        ensures
            r == (ListViewTheme { list_item_padding: Some(value), ..self }),
    {
        ListViewTheme { list_item_padding: Some(value), ..self }
    }

    pub fn scrollbar_width(self, value: u32) -> (r: Self)
        ensures
            r == (ListViewTheme { scrollbar_width: Some(value), ..self }),
    {
        ListViewTheme { scrollbar_width: Some(value), ..self }
    }

    pub fn scrollbar_side(self, value: ScrollBarSide) -> (r: Self)
        ensures
            r == (ListViewTheme { scrollbar_side: Some(value), ..self }),
    {
        ListViewTheme { scrollbar_side: Some(value), ..self }
    }
}

impl Default for ListViewTheme {
    fn default() -> (t: ListViewTheme)
        ensures
            t == ListViewTheme::default_spec(),
    {
        ListViewTheme {
            control_theme: None,
            list_item_height: None,
            list_item_padding: None,
            scrollbar_width: None,
            scrollbar_side: None,
        }
    }
}

impl ThemeProperties for ListViewTheme {
    open spec fn control_spec(&self) -> ControlKind {
        ControlKind::ListView
    }

    open spec fn props_spec(&self) -> Seq<(u32, u32)> {
        base_props(self.control_theme) + opt_prop(LIST_ITEMS_HEIGHT, self.list_item_height)
            + opt_prop(LIST_ITEMS_PADDING, self.list_item_padding)
            + opt_prop(SCROLLBAR_WIDTH, self.scrollbar_width)
            + opt_prop(SCROLLBAR_SIDE, enc_side(self.scrollbar_side))
    }

    open spec fn prop_at(&self, key: u32) -> Option<u32> {
        if key == LIST_ITEMS_HEIGHT {
            self.list_item_height
        } else if key == LIST_ITEMS_PADDING {
            self.list_item_padding
        } else if key == SCROLLBAR_WIDTH {
            self.scrollbar_width
        } else if key == SCROLLBAR_SIDE {
            enc_side(self.scrollbar_side)
        } else {
            base_prop_at(self.control_theme, key)
        }
    }

    fn control(&self) -> (c: ControlKind) {
        ControlKind::ListView
    }

    fn properties(&self) -> (r: Vec<(u32, u32)>) {
        let mut props: Vec<(u32, u32)> = Vec::new();
        push_base_props(&mut props, &self.control_theme);
        push_prop(&mut props, LIST_ITEMS_HEIGHT, &self.list_item_height);
        push_prop(&mut props, LIST_ITEMS_PADDING, &self.list_item_padding);
        push_prop(&mut props, SCROLLBAR_WIDTH, &self.scrollbar_width);
        push_side_prop(&mut props, SCROLLBAR_SIDE, &self.scrollbar_side);
        proof {
            assert(props@ =~= self.props_spec());
        }
        props
    }

    proof fn props_complete(&self, key: u32, value: u32) {
        lemma_listview_theme_complete(*self, key, value);
    }
}

/// Every pair that a listview record flattens to is set in it (its own keys
/// taking precedence over the embedded base record), and conversely.
pub proof fn lemma_listview_theme_complete(t: ListViewTheme, key: u32, value: u32)
    ensures
        t.props_spec().contains((key, value)) <==> t.prop_at(key) == Some(value),
{
    let x = (key, value);
    let p1 = base_props(t.control_theme);
    let p2 = opt_prop(LIST_ITEMS_HEIGHT, t.list_item_height);
    let p3 = opt_prop(LIST_ITEMS_PADDING, t.list_item_padding);
    let p4 = opt_prop(SCROLLBAR_WIDTH, t.scrollbar_width);
    let p5 = opt_prop(SCROLLBAR_SIDE, enc_side(t.scrollbar_side));
    match t.control_theme {
        Some(ct) => lemma_control_theme_complete(ct, key, value),
        None => (),
    }
    lemma_opt_prop_contains(LIST_ITEMS_HEIGHT, t.list_item_height, x);
    lemma_opt_prop_contains(LIST_ITEMS_PADDING, t.list_item_padding, x);
    lemma_opt_prop_contains(SCROLLBAR_WIDTH, t.scrollbar_width, x);
    lemma_opt_prop_contains(SCROLLBAR_SIDE, enc_side(t.scrollbar_side), x);
    lemma_add_contains(p1, p2, x);
    lemma_add_contains(p1 + p2, p3, x);
    lemma_add_contains(p1 + p2 + p3, p4, x);
    lemma_add_contains(p1 + p2 + p3 + p4, p5, x);
}

/// A listview record flattens to the embedded base record's pairs plus one
/// pair per set property of its own.
pub proof fn lemma_listview_theme_len(t: ListViewTheme)
    ensures
        t.props_spec().len() == base_props(t.control_theme).len() + (if t.list_item_height is Some {
            1int
        } else {
            0int
        }) + (if t.list_item_padding is Some {
            1int
        } else {
            0int
        }) + (if t.scrollbar_width is Some {
            1int
        } else {
            0int
        }) + (if t.scrollbar_side is Some {
            1int
        } else {
            0int
        }),
{
}

/// The grouped contribution of one optional record: one (control, pairs)
/// entry when it is present, none when it is not.
pub open spec fn group_of<T: ThemeProperties>(record: Option<T>) -> Seq<
    (ControlKind, Seq<(u32, u32)>),
> {
    match record {
        Some(t) => seq![(t.control_spec(), t.props_spec())],
        None => Seq::<(ControlKind, Seq<(u32, u32)>)>::empty(),
    }
}

/// Appends the grouped contribution of one optional record.
fn push_group<T: ThemeProperties>(
    groups: &mut Vec<(ControlKind, Vec<(u32, u32)>)>,
    record: &Option<T>,
)
    ensures
        groups_view(final(groups)@) == groups_view(old(groups)@) + group_of(*record),
{
    match record {
        Some(t) => {
            groups.push((t.control(), t.properties()));
            proof {
                assert(groups_view(groups@) =~= groups_view(old(groups)@) + group_of(*record));
            }
        },
        None => {
            proof {
                assert(groups_view(groups@) =~= groups_view(old(groups)@) + group_of(*record));
            }
        },
    }
}

/// A triple is among one record's flattened, tagged contribution exactly
/// when the record is present, styles that control, and carries the pair.
pub proof fn lemma_group_complete<T: ThemeProperties>(
    record: Option<T>,
    x: (ControlKind, u32, u32),
)
    ensures
        flat_of_groups(group_of(record)).contains(x) <==> (match record {
            Some(r) => x.0 == r.control_spec() && r.prop_at(x.1) == Some(x.2),
            None => false,
        }),
{
    match record {
        Some(r) => {
            lemma_flat_of_singleton((r.control_spec(), r.props_spec()));
            lemma_tagged_contains(r.control_spec(), r.props_spec(), x);
            r.props_complete(x.1, x.2);
        },
        None => {},
    }
}

/// One record's flattened contribution has one triple per set property.
pub proof fn lemma_group_len<T: ThemeProperties>(record: Option<T>)
    ensures
        flat_of_groups(group_of(record)).len() == opt_props_len(record),
{
    match record {
        Some(r) => {
            lemma_flat_of_singleton((r.control_spec(), r.props_spec()));
        },
        None => {},
    }
}

/// A base record only overrides the shared keys.
pub proof fn lemma_control_theme_key_range(t: ControlTheme, key: u32)
    ensures
        t.prop_at(key) is Some ==> key <= TEXT_ALIGNMENT,
{
}

/// A default-control record only overrides the global keys.
pub proof fn lemma_default_theme_key_range(t: DefaultTheme, key: u32)
    ensures
        t.prop_at(key) is Some ==> TEXT_SIZE <= key <= BACKGROUND_COLOR,
{
}

/// The theme store: one optional record per control kind, flattened and
/// applied in declaration order.
#[derive(Clone, Copy, Debug)]
pub struct Theme {
    pub control_theme: Option<ControlTheme>,
    pub default_theme: Option<DefaultTheme>,
    pub toggle_theme: Option<ToggleTheme>,
    pub slider_theme: Option<SliderTheme>,
    pub progressbar_theme: Option<ProgressBarTheme>,
    pub checkbox_theme: Option<CheckBoxTheme>,
    pub combobox_theme: Option<ComboBoxTheme>,
    pub dropdownbox_theme: Option<DropdownBoxTheme>,
    pub textbox_theme: Option<TextBoxTheme>,
    pub scrollbar_theme: Option<ScrollBarTheme>,
    pub listview_theme: Option<ListViewTheme>,
    pub colorpicker_theme: Option<ColorPickerTheme>,
}

/// A record's flattened pairs, each tagged with its control kind.
pub open spec fn tagged(control: ControlKind, props: Seq<(u32, u32)>) -> Seq<
    (ControlKind, u32, u32),
> {
    props.map_values(|p: (u32, u32)| (control, p.0, p.1))
}

/// Flattens grouped (control, pairs) entries into single triples, keeping
/// group order and, within a group, pair order.
pub open spec fn flat_of_groups(groups: Seq<(ControlKind, Seq<(u32, u32)>)>) -> Seq<
    (ControlKind, u32, u32),
>
    decreases groups.len(),
{
    if groups.len() == 0 {
        Seq::<(ControlKind, u32, u32)>::empty()
    } else {
        flat_of_groups(groups.drop_last()) + tagged(groups.last().0, groups.last().1)
    }
}

/// A triple is among a tagged group exactly when the group is its control
/// kind and carries its pair.
pub proof fn lemma_tagged_contains(
    control: ControlKind,
    props: Seq<(u32, u32)>,
    x: (ControlKind, u32, u32),
)
    ensures
        tagged(control, props).contains(x) <==> (x.0 == control && props.contains((x.1, x.2))),
{
    if tagged(control, props).contains(x) {
        let i = choose|i: int|
            0 <= i < tagged(control, props).len() && tagged(control, props)[i] == x;
        assert(props[i] == (x.1, x.2));
    }
    if x.0 == control && props.contains((x.1, x.2)) {
        let i = choose|i: int| 0 <= i < props.len() && props[i] == (x.1, x.2);
        assert(tagged(control, props)[i] == x);
    }
}

/// Flattening distributes over concatenation of groups.
pub proof fn lemma_flat_of_groups_add(
    a: Seq<(ControlKind, Seq<(u32, u32)>)>,
    b: Seq<(ControlKind, Seq<(u32, u32)>)>,
)
    ensures
        flat_of_groups(a + b) == flat_of_groups(a) + flat_of_groups(b),
    decreases b.len(),
{
    if b.len() == 0 {
        assert(a + b =~= a);
        assert(flat_of_groups(a) + flat_of_groups(b) =~= flat_of_groups(a));
    } else {
        lemma_flat_of_groups_add(a, b.drop_last());
        assert((a + b).drop_last() =~= a + b.drop_last());
        assert(flat_of_groups(a) + flat_of_groups(b) =~= flat_of_groups(a) + flat_of_groups(
            b.drop_last(),
        ) + tagged(b.last().0, b.last().1));
    }
}

impl Theme {
    pub open spec fn default_spec() -> Theme {
        Theme {
            control_theme: Some(ControlTheme::default_spec()),
            default_theme: Some(DefaultTheme::default_spec()),
            toggle_theme: Some(ToggleTheme::default_spec()),
            slider_theme: Some(SliderTheme::default_spec()),
            progressbar_theme: Some(ProgressBarTheme::default_spec()),
            checkbox_theme: Some(CheckBoxTheme::default_spec()),
            combobox_theme: Some(ComboBoxTheme::default_spec()),
            dropdownbox_theme: Some(DropdownBoxTheme::default_spec()),
            textbox_theme: Some(TextBoxTheme::default_spec()),
            scrollbar_theme: Some(ScrollBarTheme::default_spec()),
            listview_theme: Some(ListViewTheme::default_spec()),
            colorpicker_theme: Some(ColorPickerTheme::default_spec()),
        }
    }

    /// The grouped flattening: one (control, pairs) entry per present record,
    /// in declaration order.
    pub open spec fn groups_spec(self) -> Seq<(ControlKind, Seq<(u32, u32)>)> {
        group_of(self.control_theme) + group_of(self.default_theme)
            + group_of(self.toggle_theme) + group_of(self.slider_theme)
            + group_of(self.progressbar_theme) + group_of(self.checkbox_theme)
            + group_of(self.combobox_theme) + group_of(self.dropdownbox_theme)
            + group_of(self.textbox_theme) + group_of(self.scrollbar_theme)
            + group_of(self.listview_theme) + group_of(self.colorpicker_theme)
    }

    /// The flattened (control, key, value) triples of the whole store.
    pub open spec fn flat_spec(self) -> Seq<(ControlKind, u32, u32)> {
        flat_of_groups(self.groups_spec())
    }

    /// The override this store carries for one (control, key) slot, if any.
    /// Under the default control, the base record's keys and the default
    /// record's keys do not overlap; the base record is consulted first.
    pub open spec fn prop_at(self, control: ControlKind, key: u32) -> Option<u32> {
        if control == ControlKind::Default {
            let own = base_prop_at(self.control_theme, key);
            if own is Some {
                own
            } else {
                match self.default_theme {
                    Some(t) => t.prop_at(key),
                    None => None,
                }
            }
        } else if control == ControlKind::Toggle {
            match self.toggle_theme {
                Some(t) => t.prop_at(key),
                None => None,
            }
        } else if control == ControlKind::Slider {
            match self.slider_theme {
                Some(t) => t.prop_at(key),
                None => None,
            }
        } else if control == ControlKind::ProgressBar {
            match self.progressbar_theme {
                Some(t) => t.prop_at(key),
                None => None,
            }
        } else if control == ControlKind::CheckBox {
            match self.checkbox_theme {
                Some(t) => t.prop_at(key),
                None => None,
            }
        } else if control == ControlKind::ComboBox {
            match self.combobox_theme {
                Some(t) => t.prop_at(key),
                None => None,
            }
        } else if control == ControlKind::DropdownBox {
            match self.dropdownbox_theme {
                Some(t) => t.prop_at(key),
                None => None,
            }
        } else if control == ControlKind::TextBox {
            match self.textbox_theme {
                Some(t) => t.prop_at(key),
                None => None,
            }
        } else if control == ControlKind::ScrollBar {
            match self.scrollbar_theme {
                Some(t) => t.prop_at(key),
                None => None,
            }
        } else if control == ControlKind::ListView {
            match self.listview_theme {
                Some(t) => t.prop_at(key),
                None => None,
            }
        } else if control == ControlKind::ColorPicker {
            match self.colorpicker_theme {
                Some(t) => t.prop_at(key),
                None => None,
            }
        } else {
            None
        }
    }

    pub fn control_theme(self, value: ControlTheme) -> (r: Self)
        ensures
            r == (Theme { control_theme: Some(value), ..self }),
    {
        Theme { control_theme: Some(value), ..self }
    }

    pub fn default_theme(self, value: DefaultTheme) -> (r: Self)
        ensures
            r == (Theme { default_theme: Some(value), ..self }),
    {
        Theme { default_theme: Some(value), ..self }
    }

    pub fn slider_theme(self, value: SliderTheme) -> (r: Self)
        ensures
            r == (Theme { slider_theme: Some(value), ..self }),
    {
        Theme { slider_theme: Some(value), ..self }
    }

    pub fn checkbox_theme(self, value: CheckBoxTheme) -> (r: Self)
        ensures
            r == (Theme { checkbox_theme: Some(value), ..self }),
    {
        Theme { checkbox_theme: Some(value), ..self }
    }

    pub fn toggle_theme(self, value: ToggleTheme) -> (r: Self)
        ensures
            r == (Theme { toggle_theme: Some(value), ..self }),
    {
        Theme { toggle_theme: Some(value), ..self }
    }

    pub fn progressbar_theme(self, value: ProgressBarTheme) -> (r: Self)
        ensures
            r == (Theme { progressbar_theme: Some(value), ..self }),
    {
        Theme { progressbar_theme: Some(value), ..self }
    }

    pub fn combobox_theme(self, value: ComboBoxTheme) -> (r: Self)
        ensures
            r == (Theme { combobox_theme: Some(value), ..self }),
    {
        Theme { combobox_theme: Some(value), ..self }
    }

    pub fn dropdownbox_theme(self, value: DropdownBoxTheme) -> (r: Self)
        ensures
            r == (Theme { dropdownbox_theme: Some(value), ..self }),
    {
        Theme { dropdownbox_theme: Some(value), ..self }
    }

    pub fn textbox_theme(self, value: TextBoxTheme) -> (r: Self)
        ensures
            r == (Theme { textbox_theme: Some(value), ..self }),
    {
        Theme { textbox_theme: Some(value), ..self }
    }

    pub fn scrollbar_theme(self, value: ScrollBarTheme) -> (r: Self)
        ensures
            r == (Theme { scrollbar_theme: Some(value), ..self }),
    {
        Theme { scrollbar_theme: Some(value), ..self }
    }

    pub fn listview_theme(self, value: ListViewTheme) -> (r: Self)
        ensures
            r == (Theme { listview_theme: Some(value), ..self }),
    {
        Theme { listview_theme: Some(value), ..self }
    }

    pub fn colorpicker_theme(self, value: ColorPickerTheme) -> (r: Self)
        ensures
            r == (Theme { colorpicker_theme: Some(value), ..self }),
    {
        Theme { colorpicker_theme: Some(value), ..self }
    }

    /// Flattens the store into per-control groups of (key, value) pairs, in
    /// declaration order, skipping absent records and unset properties.
    pub fn properties(&self) -> (r: Vec<(ControlKind, Vec<(u32, u32)>)>)
        ensures
            groups_view(r@) == self.groups_spec(),
    {
        let mut r: Vec<(ControlKind, Vec<(u32, u32)>)> = Vec::new();
        push_group(&mut r, &self.control_theme);
        push_group(&mut r, &self.default_theme);
        push_group(&mut r, &self.toggle_theme);
        push_group(&mut r, &self.slider_theme);
        push_group(&mut r, &self.progressbar_theme);
        push_group(&mut r, &self.checkbox_theme);
        push_group(&mut r, &self.combobox_theme);
        push_group(&mut r, &self.dropdownbox_theme);
        push_group(&mut r, &self.textbox_theme);
        push_group(&mut r, &self.scrollbar_theme);
        push_group(&mut r, &self.listview_theme);
        push_group(&mut r, &self.colorpicker_theme);
        proof {
            assert(groups_view(r@) =~= self.groups_spec());
        }
        r
    }
}

impl Default for Theme {
    fn default() -> (t: Theme)
        ensures
            t == Theme::default_spec(),
    {
        Theme {
            control_theme: Some(ControlTheme::default()),
            default_theme: Some(DefaultTheme::default()),
            toggle_theme: Some(ToggleTheme::default()),
            slider_theme: Some(SliderTheme::default()),
            progressbar_theme: Some(ProgressBarTheme::default()),
            checkbox_theme: Some(CheckBoxTheme::default()),
            combobox_theme: Some(ComboBoxTheme::default()),
            dropdownbox_theme: Some(DropdownBoxTheme::default()),
            textbox_theme: Some(TextBoxTheme::default()),
            scrollbar_theme: Some(ScrollBarTheme::default()),
            listview_theme: Some(ListViewTheme::default()),
            colorpicker_theme: Some(ColorPickerTheme::default()),
        }
    }
}

/// The ghost contents of a grouped flattening, record Vec views taken.
pub open spec fn groups_view(v: Seq<(ControlKind, Vec<(u32, u32)>)>) -> Seq<
    (ControlKind, Seq<(u32, u32)>),
> {
    v.map_values(|g: (ControlKind, Vec<(u32, u32)>)| (g.0, g.1@))
}

/// Flattening a single group yields its tagged pairs.
pub proof fn lemma_flat_of_singleton(g: (ControlKind, Seq<(u32, u32)>))
    ensures
        flat_of_groups(seq![g]) == tagged(g.0, g.1),
{
    assert(seq![g].drop_last() =~= Seq::<(ControlKind, Seq<(u32, u32)>)>::empty());
    assert(flat_of_groups(seq![g].drop_last()) == Seq::<(ControlKind, u32, u32)>::empty());
    assert(seq![g].last() == g);
    assert(Seq::<(ControlKind, u32, u32)>::empty() + tagged(g.0, g.1) =~= tagged(g.0, g.1));
}

/// Flatten completeness: the store's flattened triples hold (control, key,
/// value) exactly when the store carries that override, one triple per
/// explicitly-set property and none for unset ones.
#[verifier::rlimit(100)]
pub proof fn lemma_flatten_completeness(t: Theme, control: ControlKind, key: u32, value: u32)
    ensures
        t.flat_spec().contains((control, key, value)) <==> t.prop_at(control, key) == Some(value),
{
    let x = (control, key, value);
    let g1 = group_of(t.control_theme);
    let g2 = group_of(t.default_theme);
    let g3 = group_of(t.toggle_theme);
    let g4 = group_of(t.slider_theme);
    let g5 = group_of(t.progressbar_theme);
    let g6 = group_of(t.checkbox_theme);
    let g7 = group_of(t.combobox_theme);
    let g8 = group_of(t.dropdownbox_theme);
    let g9 = group_of(t.textbox_theme);
    let g10 = group_of(t.scrollbar_theme);
    let g11 = group_of(t.listview_theme);
    let g12 = group_of(t.colorpicker_theme);
    lemma_flat_of_groups_add(g1 + g2 + g3 + g4 + g5 + g6 + g7 + g8 + g9 + g10 + g11, g12);
    lemma_flat_of_groups_add(g1 + g2 + g3 + g4 + g5 + g6 + g7 + g8 + g9 + g10, g11);
    lemma_flat_of_groups_add(g1 + g2 + g3 + g4 + g5 + g6 + g7 + g8 + g9, g10);
    lemma_flat_of_groups_add(g1 + g2 + g3 + g4 + g5 + g6 + g7 + g8, g9);
    lemma_flat_of_groups_add(g1 + g2 + g3 + g4 + g5 + g6 + g7, g8);
    lemma_flat_of_groups_add(g1 + g2 + g3 + g4 + g5 + g6, g7);
    lemma_flat_of_groups_add(g1 + g2 + g3 + g4 + g5, g6);
    lemma_flat_of_groups_add(g1 + g2 + g3 + g4, g5);
    lemma_flat_of_groups_add(g1 + g2 + g3, g4);
    lemma_flat_of_groups_add(g1 + g2, g3);
    lemma_flat_of_groups_add(g1, g2);
    let f1 = flat_of_groups(g1);
    let f2 = flat_of_groups(g2);
    let f3 = flat_of_groups(g3);
    let f4 = flat_of_groups(g4);
    let f5 = flat_of_groups(g5);
    let f6 = flat_of_groups(g6);
    let f7 = flat_of_groups(g7);
    let f8 = flat_of_groups(g8);
    let f9 = flat_of_groups(g9);
    let f10 = flat_of_groups(g10);
    let f11 = flat_of_groups(g11);
    let f12 = flat_of_groups(g12);
    lemma_add_contains(f1, f2, x);
    lemma_add_contains(f1 + f2, f3, x);
    lemma_add_contains(f1 + f2 + f3, f4, x);
    lemma_add_contains(f1 + f2 + f3 + f4, f5, x);
    lemma_add_contains(f1 + f2 + f3 + f4 + f5, f6, x);
    lemma_add_contains(f1 + f2 + f3 + f4 + f5 + f6, f7, x);
    lemma_add_contains(f1 + f2 + f3 + f4 + f5 + f6 + f7, f8, x);
    lemma_add_contains(f1 + f2 + f3 + f4 + f5 + f6 + f7 + f8, f9, x);
    lemma_add_contains(f1 + f2 + f3 + f4 + f5 + f6 + f7 + f8 + f9, f10, x);
    lemma_add_contains(f1 + f2 + f3 + f4 + f5 + f6 + f7 + f8 + f9 + f10, f11, x);
    lemma_add_contains(f1 + f2 + f3 + f4 + f5 + f6 + f7 + f8 + f9 + f10 + f11, f12, x);
    assert(t.flat_spec() == f1 + f2 + f3 + f4 + f5 + f6 + f7 + f8 + f9 + f10 + f11 + f12);
    lemma_group_complete(t.control_theme, x);
    lemma_group_complete(t.default_theme, x);
    lemma_group_complete(t.toggle_theme, x);
    lemma_group_complete(t.slider_theme, x);
    lemma_group_complete(t.progressbar_theme, x);
    lemma_group_complete(t.checkbox_theme, x);
    lemma_group_complete(t.combobox_theme, x);
    lemma_group_complete(t.dropdownbox_theme, x);
    lemma_group_complete(t.textbox_theme, x);
    lemma_group_complete(t.scrollbar_theme, x);
    lemma_group_complete(t.listview_theme, x);
    lemma_group_complete(t.colorpicker_theme, x);
    match t.control_theme {
        Some(r) => lemma_control_theme_key_range(r, key),
        None => (),
    }
    match t.default_theme {
        Some(r) => lemma_default_theme_key_range(r, key),
        None => (),
    }
}

/// The style table that results from writing a sequence of triples, in
/// order, over a starting table: the last write to a slot wins.
pub open spec fn style_table(
    m: Map<(ControlKind, u32), u32>,
    triples: Seq<(ControlKind, u32, u32)>,
) -> Map<(ControlKind, u32), u32>
    decreases triples.len(),
{
    if triples.len() == 0 {
        m
    } else {
        style_table(m, triples.drop_last()).insert(
            (triples.last().0, triples.last().1),
            triples.last().2,
        )
    }
}

/// The style table after a whole theme store is applied.
pub open spec fn apply_spec(m: Map<(ControlKind, u32), u32>, theme: Theme) -> Map<
    (ControlKind, u32),
    u32,
> {
    style_table(m, theme.flat_spec())
}

/// Writing one more triple inserts its slot.
pub proof fn lemma_style_table_push(
    m: Map<(ControlKind, u32), u32>,
    triples: Seq<(ControlKind, u32, u32)>,
    x: (ControlKind, u32, u32),
)
    ensures
        style_table(m, triples.push(x)) == style_table(m, triples).insert((x.0, x.1), x.2),
{
    assert(triples.push(x).drop_last() =~= triples);
}

/// A written sequence lays its own table over the starting one.
pub proof fn lemma_style_table_union(
    m: Map<(ControlKind, u32), u32>,
    triples: Seq<(ControlKind, u32, u32)>,
)
    ensures
        style_table(m, triples) == m.union_prefer_right(
            style_table(Map::<(ControlKind, u32), u32>::empty(), triples),
        ),
    decreases triples.len(),
{
    let e = Map::<(ControlKind, u32), u32>::empty();
    if triples.len() == 0 {
        assert(m.union_prefer_right(e) =~= m);
    } else {
        lemma_style_table_union(m, triples.drop_last());
        assert(style_table(m, triples) =~= m.union_prefer_right(style_table(e, triples)));
    }
}

/// Apply idempotence: applying the same theme store twice leaves the style
/// table exactly as applying it once does.
pub proof fn lemma_apply_idempotent(m: Map<(ControlKind, u32), u32>, theme: Theme)
    ensures
        apply_spec(apply_spec(m, theme), theme) == apply_spec(m, theme),
{
    let f = style_table(Map::<(ControlKind, u32), u32>::empty(), theme.flat_spec());
    lemma_style_table_union(m, theme.flat_spec());
    lemma_style_table_union(m.union_prefer_right(f), theme.flat_spec());
    assert(m.union_prefer_right(f).union_prefer_right(f) =~= m.union_prefer_right(f));
}

/// The length of an optional record's flattened pairs.
pub open spec fn opt_props_len<T: ThemeProperties>(record: Option<T>) -> int {
    match record {
        Some(r) => r.props_spec().len() as int,
        None => 0int,
    }
}

/// The store flattens to exactly as many triples as its present records
/// have set properties: one triple per explicitly-set property in all.
pub proof fn lemma_flatten_len(t: Theme)
    ensures
        t.flat_spec().len() == opt_props_len(t.control_theme) + opt_props_len(t.default_theme)
            + opt_props_len(t.toggle_theme) + opt_props_len(t.slider_theme) + opt_props_len(
            t.progressbar_theme,
        ) + opt_props_len(t.checkbox_theme) + opt_props_len(t.combobox_theme) + opt_props_len(
            t.dropdownbox_theme,
        ) + opt_props_len(t.textbox_theme) + opt_props_len(t.scrollbar_theme) + opt_props_len(
            t.listview_theme,
        ) + opt_props_len(t.colorpicker_theme),
{
    let g1 = group_of(t.control_theme);
    let g2 = group_of(t.default_theme);
    let g3 = group_of(t.toggle_theme);
    let g4 = group_of(t.slider_theme);
    let g5 = group_of(t.progressbar_theme);
    let g6 = group_of(t.checkbox_theme);
    let g7 = group_of(t.combobox_theme);
    let g8 = group_of(t.dropdownbox_theme);
    let g9 = group_of(t.textbox_theme);
    let g10 = group_of(t.scrollbar_theme);
    let g11 = group_of(t.listview_theme);
    let g12 = group_of(t.colorpicker_theme);
    lemma_flat_of_groups_add(g1 + g2 + g3 + g4 + g5 + g6 + g7 + g8 + g9 + g10 + g11, g12);
    lemma_flat_of_groups_add(g1 + g2 + g3 + g4 + g5 + g6 + g7 + g8 + g9 + g10, g11);
    lemma_flat_of_groups_add(g1 + g2 + g3 + g4 + g5 + g6 + g7 + g8 + g9, g10);
    lemma_flat_of_groups_add(g1 + g2 + g3 + g4 + g5 + g6 + g7 + g8, g9);
    lemma_flat_of_groups_add(g1 + g2 + g3 + g4 + g5 + g6 + g7, g8);
    lemma_flat_of_groups_add(g1 + g2 + g3 + g4 + g5 + g6, g7);
    lemma_flat_of_groups_add(g1 + g2 + g3 + g4 + g5, g6);
    lemma_flat_of_groups_add(g1 + g2 + g3 + g4, g5);
    lemma_flat_of_groups_add(g1 + g2 + g3, g4);
    lemma_flat_of_groups_add(g1 + g2, g3);
    lemma_flat_of_groups_add(g1, g2);
    lemma_group_len(t.control_theme);
    lemma_group_len(t.default_theme);
    lemma_group_len(t.toggle_theme);
    lemma_group_len(t.slider_theme);
    lemma_group_len(t.progressbar_theme);
    lemma_group_len(t.checkbox_theme);
    lemma_group_len(t.combobox_theme);
    lemma_group_len(t.dropdownbox_theme);
    lemma_group_len(t.textbox_theme);
    lemma_group_len(t.scrollbar_theme);
    lemma_group_len(t.listview_theme);
    lemma_group_len(t.colorpicker_theme);
}

/// Walks the store's flattened triples and writes each one to the sink:
/// exactly one style write per triple, in store order (control declaration
/// order, then property declaration order), and no other call — in
/// particular, no widget draw.
#[verifier::rlimit(100)]
pub fn apply_theme<S: GuiSink>(sink: &mut S, theme: &Theme)
    ensures
        final(sink).styles() == apply_spec(old(sink).styles(), *theme),
        final(sink).writes() == old(sink).writes() + theme.flat_spec(),
        final(sink).draws() == old(sink).draws(),
{
    let groups = theme.properties();
    let ghost m0 = sink.styles();
    let ghost w0 = sink.writes();
    let ghost d0 = sink.draws();
    let ghost gs = theme.groups_spec();
    let mut i: usize = 0;
    while i < groups.len()
        invariant
            0 <= i <= groups.len(),
            groups_view(groups@) == gs,
            groups@.len() == gs.len(),
            sink.styles() == style_table(m0, flat_of_groups(gs.take(i as int))),
            sink.writes() == w0 + flat_of_groups(gs.take(i as int)),
            sink.draws() == d0,
        decreases groups.len() - i,
    {
        let c = groups[i].0;
        let props = &groups[i].1;
        let ghost flat_done = flat_of_groups(gs.take(i as int));
        proof {
            assert(gs[i as int] == (c, props@));
        }
        let mut j: usize = 0;
        while j < props.len()
            invariant
                0 <= j <= props.len(),
                sink.styles() == style_table(m0, flat_done + tagged(c, props@.take(j as int))),
                sink.writes() == w0 + (flat_done + tagged(c, props@.take(j as int))),
                sink.draws() == d0,
            decreases props.len() - j,
        {
            let key = props[j].0;
            let value = props[j].1;
            sink.gui_set_style(c, key, value);
            proof {
                lemma_style_table_push(
                    m0,
                    flat_done + tagged(c, props@.take(j as int)),
                    (c, key, value),
                );
                assert(tagged(c, props@.take(j as int + 1)) =~= tagged(
                    c,
                    props@.take(j as int),
                ).push((c, key, value)));
                assert(flat_done + tagged(c, props@.take(j as int + 1)) =~= (flat_done + tagged(
                    c,
                    props@.take(j as int),
                )).push((c, key, value)));
                assert(w0 + (flat_done + tagged(c, props@.take(j as int + 1))) =~= (w0 + (
                flat_done + tagged(c, props@.take(j as int)))).push((c, key, value)));
            }
            j += 1;
        }
        proof {
            assert(props@.take(props@.len() as int) =~= props@);
            assert(gs.take(i as int + 1).drop_last() =~= gs.take(i as int));
            assert(flat_of_groups(gs.take(i as int + 1)) == flat_done + tagged(c, props@));
        }
        i += 1;
    }
    proof {
        assert(gs.take(gs.len() as int) =~= gs);
    }
}

} // verus!
