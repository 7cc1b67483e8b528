//! Per-widget retained state: typed widget states with frame-to-frame change
//! detection, named slots that materialize into exactly one widget variant on
//! first use, and a registry of such slots built once at startup.
//!
//! Coordinates and slider values travel as the bit patterns of IEEE-754
//! singles, the unit the toolkit measures in; change detection compares the
//! values those patterns denote under IEEE-754 exact inequality: a NaN
//! compares unequal to everything (itself included), positive and negative
//! zero compare equal, and otherwise distinct patterns are distinct values.

use vstd::prelude::*;

use crate::sink::DrawCall;
use crate::sink::GuiSink;

verus! {

/// A widget's bounds. Each field holds the bit pattern of an IEEE-754
/// single-precision coordinate.
#[derive(Clone, Copy, PartialEq, Eq, Structural, Debug)]
pub struct Rect {
    pub x: u32,
    pub y: u32,
    pub width: u32,
    pub height: u32,
}

impl Rect {
    pub fn new(x: u32, y: u32, width: u32, height: u32) -> (r: Rect)
        ensures
            r == (Rect { x, y, width, height }),
    {
        Rect { x, y, width, height }
    }
}

/// Whether this bit pattern is an IEEE-754 single-precision NaN.
pub open spec fn is_nan_bits(a: u32) -> bool {
    a & 0x7F800000 == 0x7F800000 && a & 0x007FFFFF != 0
}

/// Whether this bit pattern is an IEEE-754 single-precision zero, of
/// either sign.
pub open spec fn is_zero_bits(a: u32) -> bool {
    a == 0 || a == 0x80000000
}

/// IEEE-754 exact inequality of the single-precision values these bit
/// patterns denote: true when either is a NaN, false when both are zeros,
/// and pattern inequality otherwise (away from NaNs and zeros, distinct
/// patterns denote distinct values).
pub open spec fn spec_f32_bits_differ(a: u32, b: u32) -> bool {
    if is_nan_bits(a) || is_nan_bits(b) {
        true
    } else if is_zero_bits(a) && is_zero_bits(b) {
        false
    } else {
        a != b
    }
}

/// Decides IEEE-754 exact inequality on two single-precision bit patterns.
#[verifier::when_used_as_spec(spec_f32_bits_differ)]
pub fn f32_bits_differ(a: u32, b: u32) -> (r: bool)
    ensures
        r == spec_f32_bits_differ(a, b),
{
    let a_nan = a & 0x7F800000 == 0x7F800000 && a & 0x007FFFFF != 0;
    let b_nan = b & 0x7F800000 == 0x7F800000 && b & 0x007FFFFF != 0;
    if a_nan || b_nan {
        true
    } else if (a == 0 || a == 0x80000000) && (b == 0 || b == 0x80000000) {
        false
    } else {
        a != b
    }
}

/// A button's retained state: its bounds and label.
#[derive(Debug)]
pub struct Button {
    pub rect: Rect,
    pub text: Option<String>,
}

impl Button {
    pub fn set_text(&mut self, text: String)
        ensures
            final(self).rect == old(self).rect,
            final(self).text == Some(text),
    {
        self.text = Some(text);
    }

    /// Issues one button draw to the sink and reports this frame's press.
    /// The press is the sink's to decide; the state itself never changes.
    pub fn build<S: GuiSink>(&mut self, draw: &mut S) -> (pressed: bool)
        ensures
            *final(self) == *old(self),
            final(draw).styles() == old(draw).styles(),
            final(draw).writes() == old(draw).writes(),
            final(draw).draws() == old(draw).draws().push(
                DrawCall::Button(old(self).rect, old(self).text),
            ),
    {
        draw.gui_button(self.rect, &self.text)
    }
}

/// A slider's retained state: its bounds, current value and range, the
/// latter three as bit patterns of IEEE-754 singles.
#[derive(Clone, Copy, PartialEq, Eq, Structural, Debug)]
pub struct Slider {
    pub rect: Rect,
    pub val: u32,
    pub min: u32,
    pub max: u32,
}

impl Slider {
    /// Change detection: stores this frame's resolved value and reports it
    /// exactly when it differs, under IEEE-754 exact inequality, from the
    /// stored one. A stored NaN therefore reports a change every frame, and
    /// a sign flip on zero reports none.
    pub fn observe(&mut self, sampled: u32) -> (r: Option<u32>)
        ensures
            final(self).rect == old(self).rect,
            final(self).min == old(self).min,
            final(self).max == old(self).max,
            f32_bits_differ(old(self).val, sampled) ==> r == Some(sampled) && final(self).val
                == sampled,
            !f32_bits_differ(old(self).val, sampled) ==> r == None::<u32> && *final(self) == *old(
                self,
            ),
    {
        if f32_bits_differ(self.val, sampled) {
            self.val = sampled;
            Some(sampled)
        } else {
            None
        }
    }

    /// Issues one slider draw with the stored value and applies change
    /// detection to the value the sink resolved for this frame: on a
    /// difference the new value is stored and returned, on equality nothing
    /// changes and nothing is returned.
    pub fn build<S: GuiSink>(&mut self, draw: &mut S) -> (r: Option<u32>)
        ensures
            final(self).rect == old(self).rect,
            final(self).min == old(self).min,
            final(self).max == old(self).max,
            (match r {
                Some(v) => f32_bits_differ(old(self).val, v) && final(self).val == v,
                None => *final(self) == *old(self),
            }),
            final(draw).styles() == old(draw).styles(),
            final(draw).writes() == old(draw).writes(),
            final(draw).draws() == old(draw).draws().push(
                DrawCall::Slider(old(self).rect, old(self).val, old(self).min, old(self).max),
            ),
    {
        let sampled = draw.gui_slider(self.rect, self.val, self.min, self.max);
        self.observe(sampled)
    }
}

/// The one concrete widget state a slot can hold.
pub enum UiWidget {
    Button(Button),
    Slider(Slider),
}

/// A named, lazily materialized holder of one widget's persistent state.
/// A slot starts empty and fixes its variant on first use; it never goes
/// back to empty and never changes variant.
pub struct UiElementState {
    pub id: String,
    pub element: Option<UiWidget>,
}

impl UiElementState {
    /// The slot has not materialized a widget yet.
    pub open spec fn is_unmaterialized(self) -> bool {
        self.element is None
    }

    pub open spec fn holds_button(self) -> bool {
        match self.element {
            Some(UiWidget::Button(_)) => true,
            _ => false,
        }
    }

    pub open spec fn holds_slider(self) -> bool {
        match self.element {
            Some(UiWidget::Slider(_)) => true,
            _ => false,
        }
    }

    pub open spec fn button_state(self) -> Button {
        match self.element {
            Some(UiWidget::Button(b)) => b,
            _ => arbitrary(),
        }
    }

    pub open spec fn slider_state(self) -> Slider {
        match self.element {
            Some(UiWidget::Slider(s)) => s,
            _ => arbitrary(),
        }
    }

    pub fn new(id: String) -> (s: UiElementState)
        ensures
            s.id@ == id@,
            s.is_unmaterialized(),
    {
        UiElementState { id, element: None }
    }

    /// Create-or-fetch as a button. The first call materializes the state
    /// from its arguments; every later call leaves the slot exactly as it
    /// was, discarding the arguments (first-call-wins). Asking a slot that
    /// already holds another variant is a caller error and is excluded.
    pub fn button(&mut self, rect: Rect, text: String)
        requires
            old(self).is_unmaterialized() || old(self).holds_button(),
        ensures
            final(self).id@ == old(self).id@,
            final(self).holds_button(),
            old(self).is_unmaterialized() ==> final(self).element == Some(
                UiWidget::Button(Button { rect, text: Some(text) }),
            ),
            !old(self).is_unmaterialized() ==> *final(self) == *old(self),
    {
        if self.element.is_none() {
            self.element = Some(UiWidget::Button(Button { rect, text: Some(text) }));
        }
    }

    /// Create-or-fetch as a slider, with the same first-call-wins contract
    /// as `button`: a later call's rect, value and range are discarded.
    pub fn slider(&mut self, rect: Rect, val: u32, min: u32, max: u32)
        requires
            old(self).is_unmaterialized() || old(self).holds_slider(),
        ensures
            final(self).id@ == old(self).id@,
            final(self).holds_slider(),
            old(self).is_unmaterialized() ==> final(self).element == Some(
                UiWidget::Slider(Slider { rect, val, min, max }),
            ),
            !old(self).is_unmaterialized() ==> *final(self) == *old(self),
    {
        if self.element.is_none() {
            self.element = Some(UiWidget::Slider(Slider { rect, val, min, max }));
        }
    }

    /// Sets the label of the materialized button.
    pub fn set_button_text(&mut self, text: String)
        requires
            old(self).holds_button(),
        ensures
            final(self).id@ == old(self).id@,
            final(self).holds_button(),
            final(self).button_state().rect == old(self).button_state().rect,
            final(self).button_state().text == Some(text),
    {
        let w = self.element.take();
        match w {
            Some(UiWidget::Button(mut b)) => {
                b.set_text(text);
                self.element = Some(UiWidget::Button(b));
            },
            _ => unreached(),
        }
    }

    /// This frame's evaluation of a button slot: exactly one button draw
    /// with the stored bounds and label, the press reported back, the state
    /// untouched.
    pub fn build_button<S: GuiSink>(&mut self, draw: &mut S) -> (pressed: bool)
        requires
            old(self).holds_button(),
        ensures
            *final(self) == *old(self),
            final(draw).styles() == old(draw).styles(),
            final(draw).writes() == old(draw).writes(),
            final(draw).draws() == old(draw).draws().push(
                DrawCall::Button(
                    old(self).button_state().rect,
                    old(self).button_state().text,
                ),
            ),
    {
        let w = self.element.take();
        match w {
            Some(UiWidget::Button(mut b)) => {
                let pressed = b.build(draw);
                self.element = Some(UiWidget::Button(b));
                pressed
            },
            _ => unreached(),
        }
    }

    /// This frame's evaluation of a slider slot: exactly one slider draw
    /// with the stored bounds, value and range, then change detection on
    /// what the sink resolved.
    pub fn build_slider<S: GuiSink>(&mut self, draw: &mut S) -> (r: Option<u32>)
        requires
            old(self).holds_slider(),
        ensures
            final(self).id@ == old(self).id@,
            final(self).holds_slider(),
            final(self).slider_state().rect == old(self).slider_state().rect,
            final(self).slider_state().min == old(self).slider_state().min,
            final(self).slider_state().max == old(self).slider_state().max,
            (match r {
                Some(v) => f32_bits_differ(old(self).slider_state().val, v)
                    && final(self).slider_state().val == v,
                None => *final(self) == *old(self),
            }),
            final(draw).styles() == old(draw).styles(),
            final(draw).writes() == old(draw).writes(),
            final(draw).draws() == old(draw).draws().push(
                DrawCall::Slider(
                    old(self).slider_state().rect,
                    old(self).slider_state().val,
                    old(self).slider_state().min,
                    old(self).slider_state().max,
                ),
            ),
    {
        let w = self.element.take();
        match w {
            Some(UiWidget::Slider(mut s)) => {
                let r = s.build(draw);
                self.element = Some(UiWidget::Slider(s));
                r
            },
            _ => unreached(),
        }
    }
}

/// The first index among these slots whose identifier is `id`.
pub open spec fn idx_in(slots: Seq<UiElementState>, id: Seq<char>) -> int
    decreases slots.len(),
{
    if slots.len() == 0 {
        0
    } else if slots[0].id@ == id {
        0
    } else {
        1 + idx_in(slots.drop_first(), id)
    }
}

/// A found index with no earlier match is the first index.
proof fn lemma_idx_in_found(slots: Seq<UiElementState>, id: Seq<char>, i: int)
    requires
        0 <= i < slots.len(),
        slots[i].id@ == id,
        forall|j: int| 0 <= j < i ==> slots[j].id@ != id,
    ensures
        idx_in(slots, id) == i,
    decreases slots.len(),
{
    if slots[0].id@ == id {
        assert(i == 0);
    } else {
        assert(forall|j: int| 0 <= j < i - 1 ==> slots.drop_first()[j].id@ != id);
        lemma_idx_in_found(slots.drop_first(), id, i - 1);
    }
}

/// A fixed collection of named slots, created once at startup from the set
/// of identifiers the screen uses, and addressed by identifier thereafter.
pub struct UiRegistry {
    pub slots: Vec<UiElementState>,
}

impl UiRegistry {
    /// Whether some slot carries this identifier.
    pub open spec fn has_id(self, id: Seq<char>) -> bool {
        exists|i: int| 0 <= i < self.slots@.len() && self.slots@[i].id@ == id
    }

    /// The first slot carrying this identifier.
    pub open spec fn idx_of(self, id: Seq<char>) -> int {
        idx_in(self.slots@, id)
    }

    /// One empty slot per identifier, in the given order.
    pub fn new(ids: Vec<String>) -> (r: UiRegistry)
        ensures
            r.slots@.len() == ids@.len(),
            forall|i: int|
                0 <= i < ids@.len() ==> r.slots@[i].id@ == ids@[i]@
                    && r.slots@[i].is_unmaterialized(),
    {
        let mut slots: Vec<UiElementState> = Vec::new();
        let mut k: usize = 0;
        while k < ids.len()
            invariant
                0 <= k <= ids@.len(),
                slots@.len() == k,
                forall|i: int|
                    0 <= i < k ==> slots@[i].id@ == ids@[i]@ && slots@[i].is_unmaterialized(),
            decreases ids@.len() - k,
        {
            let id = ids[k].clone();
            slots.push(UiElementState::new(id));
            k += 1;
        }
        UiRegistry { slots }
    }

    /// The position of the slot with this identifier. Asking for an unknown
    /// identifier is a caller error and is excluded.
    pub fn position(&self, id: &String) -> (i: usize)
        requires
            self.has_id(id@),
        ensures
            i as int == self.idx_of(id@),
            i < self.slots@.len(),
            self.slots@[i as int].id@ == id@,
            forall|j: int| 0 <= j < i as int ==> self.slots@[j].id@ != id@,
    {
        let mut i: usize = 0;
        while i < self.slots.len()
            invariant
                0 <= i <= self.slots@.len(),
                self.has_id(id@),
                forall|j: int| 0 <= j < i as int ==> self.slots@[j].id@ != id@,
            decreases self.slots@.len() - i,
        {
            if self.slots[i].id == *id {
                proof {
                    lemma_idx_in_found(self.slots@, id@, i as int);
                }
                return i;
            }
            i += 1;
        }
        proof {
            assert(false);
        }
        unreached()
    }

    /// Create-or-fetch the named slot as a slider (first-call-wins).
    pub fn slider(&mut self, id: &String, rect: Rect, val: u32, min: u32, max: u32)
        requires
            old(self).has_id(id@),
            old(self).slots@[old(self).idx_of(id@)].is_unmaterialized()
                || old(self).slots@[old(self).idx_of(id@)].holds_slider(),
        ensures
            final(self).slots@.len() == old(self).slots@.len(),
            forall|j: int|
                0 <= j < old(self).slots@.len() && j != old(self).idx_of(id@)
                    ==> final(self).slots@[j] == old(self).slots@[j],
            ({
                let s0 = old(self).slots@[old(self).idx_of(id@)];
                let s1 = final(self).slots@[old(self).idx_of(id@)];
                s1.id@ == s0.id@ && s1.holds_slider() && (s0.is_unmaterialized()
                    ==> s1.element == Some(UiWidget::Slider(Slider { rect, val, min, max }))) && (
                !s0.is_unmaterialized() ==> s1 == s0)
            }),
    {
        let i = self.position(id);
        let mut slot = self.slots.remove(i);
        slot.slider(rect, val, min, max);
        self.slots.insert(i, slot);
        proof {
            assert(self.slots@ =~= old(self).slots@.update(old(self).idx_of(id@), slot));
        }
    }

    /// Create-or-fetch the named slot as a button (first-call-wins).
    pub fn button(&mut self, id: &String, rect: Rect, text: String)
        requires
            old(self).has_id(id@),
            old(self).slots@[old(self).idx_of(id@)].is_unmaterialized()
                || old(self).slots@[old(self).idx_of(id@)].holds_button(),
        ensures
            final(self).slots@.len() == old(self).slots@.len(),
            forall|j: int|
                0 <= j < old(self).slots@.len() && j != old(self).idx_of(id@)
                    ==> final(self).slots@[j] == old(self).slots@[j],
            ({
                let s0 = old(self).slots@[old(self).idx_of(id@)];
                let s1 = final(self).slots@[old(self).idx_of(id@)];
                s1.id@ == s0.id@ && s1.holds_button() && (s0.is_unmaterialized()
                    ==> s1.element == Some(UiWidget::Button(Button { rect, text: Some(text) })))
                    && (!s0.is_unmaterialized() ==> s1 == s0)
            }),
    {
        let i = self.position(id);
        let mut slot = self.slots.remove(i);
        slot.button(rect, text);
        self.slots.insert(i, slot);
        proof {
            assert(self.slots@ =~= old(self).slots@.update(old(self).idx_of(id@), slot));
        }
    }

    /// This frame's evaluation of the named slider slot.
    pub fn build_slider<S: GuiSink>(&mut self, id: &String, draw: &mut S) -> (r: Option<u32>)
        requires
            old(self).has_id(id@),
            old(self).slots@[old(self).idx_of(id@)].holds_slider(),
        ensures
            final(self).slots@.len() == old(self).slots@.len(),
            forall|j: int|
                0 <= j < old(self).slots@.len() && j != old(self).idx_of(id@)
                    ==> final(self).slots@[j] == old(self).slots@[j],
            ({
                let s0 = old(self).slots@[old(self).idx_of(id@)];
                let s1 = final(self).slots@[old(self).idx_of(id@)];
                s1.id@ == s0.id@ && s1.holds_slider() && s1.slider_state().rect
                    == s0.slider_state().rect && s1.slider_state().min == s0.slider_state().min
                    && s1.slider_state().max == s0.slider_state().max && (match r {
                    Some(v) => f32_bits_differ(s0.slider_state().val, v)
                        && s1.slider_state().val == v,
                    None => s1 == s0,
                })
            }),
            final(draw).styles() == old(draw).styles(),
            final(draw).writes() == old(draw).writes(),
            ({
                let s0 = old(self).slots@[old(self).idx_of(id@)];
                final(draw).draws() == old(draw).draws().push(
                    DrawCall::Slider(
                        s0.slider_state().rect,
                        s0.slider_state().val,
                        s0.slider_state().min,
                        s0.slider_state().max,
                    ),
                )
            }),
    {
        let i = self.position(id);
        let mut slot = self.slots.remove(i);
        let r = slot.build_slider(draw);
        self.slots.insert(i, slot);
        proof {
            assert(self.slots@ =~= old(self).slots@.update(old(self).idx_of(id@), slot));
        }
        r
    }

    /// This frame's evaluation of the named button slot.
    pub fn build_button<S: GuiSink>(&mut self, id: &String, draw: &mut S) -> (pressed: bool)
        requires
            old(self).has_id(id@),
            old(self).slots@[old(self).idx_of(id@)].holds_button(),
        ensures
            final(self).slots@ == old(self).slots@,
            final(draw).styles() == old(draw).styles(),
            final(draw).writes() == old(draw).writes(),
            ({
                let s0 = old(self).slots@[old(self).idx_of(id@)];
                final(draw).draws() == old(draw).draws().push(
                    DrawCall::Button(s0.button_state().rect, s0.button_state().text),
                )
            }),
    {
        let i = self.position(id);
        let mut slot = self.slots.remove(i);
        let pressed = slot.build_button(draw);
        self.slots.insert(i, slot);
        proof {
            assert(self.slots@ =~= old(self).slots@);
        }
        pressed
    }
}

} // verus!
