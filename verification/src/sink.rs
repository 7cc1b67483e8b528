//! The style sink: the one external collaborator of this library, and a
//! headless implementation of it for running the library without a toolkit.

use vstd::prelude::*;

use crate::theme::lemma_style_table_push;
use crate::theme::style_table;
use crate::theme::ControlKind;
use crate::ui::Rect;

verus! {

/// One widget draw issued to the sink, with the inputs it was given.
#[derive(Debug, PartialEq)]
pub enum DrawCall {
    Slider(Rect, u32, u32, u32),
    Button(Rect, Option<String>),
}

/// An immediate-mode rendering sink. Its style table is modelled as a map
/// from (control, property key) to the encoded value last written there;
/// beside it, the sequence of style writes and the sequence of widget draws
/// issued so far are modelled, so that callers can promise exactly which
/// calls they make.
pub trait GuiSink {
    /// The sink's style table.
    spec fn styles(&self) -> Map<(ControlKind, u32), u32>;

    /// Every style write issued so far, in order.
    spec fn writes(&self) -> Seq<(ControlKind, u32, u32)>;

    /// Every widget draw issued so far, in order.
    spec fn draws(&self) -> Seq<DrawCall>;

    /// Writes one style value; no widget is drawn.
    fn gui_set_style(&mut self, control: ControlKind, key: u32, value: u32)
        ensures
            final(self).styles() == old(self).styles().insert((control, key), value),
            final(self).writes() == old(self).writes().push((control, key, value)),
            final(self).draws() == old(self).draws(),
    ;

    /// Draws one slider with the given bounds, value and range (each the bit
    /// pattern of an IEEE-754 single) and returns this frame's resolved
    /// value. The result is the sink's to choose; the style table is left
    /// alone.
    fn gui_slider(&mut self, bounds: Rect, value: u32, min: u32, max: u32) -> (r: u32)
        ensures
            final(self).styles() == old(self).styles(),
            final(self).writes() == old(self).writes(),
            final(self).draws() == old(self).draws().push(
                DrawCall::Slider(bounds, value, min, max),
            ),
    ;

    /// Draws one button with the given bounds and label and reports whether
    /// it was pressed this frame; the style table is left alone.
    fn gui_button(&mut self, bounds: Rect, text: &Option<String>) -> (r: bool)
        ensures
            final(self).styles() == old(self).styles(),
            final(self).writes() == old(self).writes(),
            final(self).draws() == old(self).draws().push(DrawCall::Button(bounds, *text)),
    ;
}

/// A headless sink: it records every style write and every widget draw, and
/// answers each draw from a scripted queue of responses, echoing the input
/// value once a queue runs dry.
pub struct ScriptedSink {
    /// Every style write, in the order it was issued.
    pub log: Vec<(ControlKind, u32, u32)>,
    /// Every widget draw, in the order it was issued.
    pub draw_log: Vec<DrawCall>,
    /// The values the coming slider draws resolve to, first in front.
    pub slider_replies: Vec<u32>,
    /// The presses the coming button draws report, first in front.
    pub button_replies: Vec<bool>,
}

impl ScriptedSink {
    pub fn new() -> (s: ScriptedSink)
        ensures
            s.log@ == Seq::<(ControlKind, u32, u32)>::empty(),
            s.draw_log@ == Seq::<DrawCall>::empty(),
            s.slider_replies@ == Seq::<u32>::empty(),
            s.button_replies@ == Seq::<bool>::empty(),
    {
        ScriptedSink {
            log: Vec::new(),
            draw_log: Vec::new(),
            slider_replies: Vec::new(),
            button_replies: Vec::new(),
        }
    }

    /// The style value last written to one slot, if any.
    pub fn style(&self, control: ControlKind, key: u32) -> (r: Option<u32>)
        ensures
            match r {
                Some(v) => self.styles().contains_key((control, key)) && self.styles()[
                    (control, key)
                ] == v,
                None => !self.styles().contains_key((control, key)),
            },
    {
        let mut found: Option<u32> = None;
        let mut j: usize = 0;
        while j < self.log.len()
            invariant
                0 <= j <= self.log@.len(),
                match found {
                    Some(v) => style_table(
                        Map::<(ControlKind, u32), u32>::empty(),
                        self.log@.take(j as int),
                    ).contains_key((control, key)) && style_table(
                        Map::<(ControlKind, u32), u32>::empty(),
                        self.log@.take(j as int),
                    )[(control, key)] == v,
                    None => !style_table(
                        Map::<(ControlKind, u32), u32>::empty(),
                        self.log@.take(j as int),
                    ).contains_key((control, key)),
                },
            decreases self.log@.len() - j,
        {
            let entry = self.log[j];
            proof {
                assert(self.log@.take(j as int + 1) =~= self.log@.take(j as int).push(
                    self.log@[j as int],
                ));
                lemma_style_table_push(
                    Map::<(ControlKind, u32), u32>::empty(),
                    self.log@.take(j as int),
                    self.log@[j as int],
                );
            }
            if entry.0 == control && entry.1 == key {
                found = Some(entry.2);
            }
            j += 1;
        }
        proof {
            assert(self.log@.take(self.log@.len() as int) =~= self.log@);
        }
        found
    }
}

impl GuiSink for ScriptedSink {
    open spec fn styles(&self) -> Map<(ControlKind, u32), u32> {
        style_table(Map::<(ControlKind, u32), u32>::empty(), self.log@)
    }

    open spec fn writes(&self) -> Seq<(ControlKind, u32, u32)> {
        self.log@
    }

    open spec fn draws(&self) -> Seq<DrawCall> {
        self.draw_log@
    }

    fn gui_set_style(&mut self, control: ControlKind, key: u32, value: u32) {
        self.log.push((control, key, value));
        proof {
            lemma_style_table_push(
                Map::<(ControlKind, u32), u32>::empty(),
                old(self).log@,
                (control, key, value),
            );
        }
    }

    fn gui_slider(&mut self, bounds: Rect, value: u32, min: u32, max: u32) -> (r: u32) {
        self.draw_log.push(DrawCall::Slider(bounds, value, min, max));
        if self.slider_replies.len() > 0 {
            self.slider_replies.remove(0)
        } else {
            value
        }
    }

    fn gui_button(&mut self, bounds: Rect, text: &Option<String>) -> (r: bool) {
        let label = match text {
            Some(s) => Some(s.clone()),
            None => None,
        };
        self.draw_log.push(DrawCall::Button(bounds, label));
        if self.button_replies.len() > 0 {
            self.button_replies.remove(0)
        } else {
            false
        }
    }
}

} // verus!
