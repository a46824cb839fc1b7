use vstd::prelude::*;
use crate::shapes::Point;

verus! {

/// What a label holds, as plain values.
pub struct LabelModel {
    pub text: Seq<char>,
    pub font_size: u32,
    pub origin: Point,
    pub position: Point,
}

/// A line of text placed by an anchor point.
pub struct GuiLabel {
    text: String,
    font_size: u32,
    origin: Point,
    position: Point,
}

impl View for GuiLabel {
    type V = LabelModel;

    closed spec fn view(&self) -> LabelModel {
        LabelModel {
            text: self.text@,
            font_size: self.font_size,
            origin: self.origin,
            position: self.position,
        }
    }
}

impl GuiLabel {
    /// A label at the origin, anchored at its top-left corner, in the default font size.
    pub fn new(text: String) -> (l: GuiLabel)
        ensures
            l@ == (LabelModel {
                text: text@,
                font_size: 12,
                origin: Point { x: 0, y: 0 },
                position: Point { x: 0, y: 0 },
            }),
    {
        GuiLabel {
            text,
            font_size: 12,
            origin: Point { x: 0, y: 0 },
            position: Point { x: 0, y: 0 },
        }
    }

    pub fn font_size(self, size: u32) -> (l: GuiLabel)
        ensures
            l@ == (LabelModel { font_size: size, ..self@ }),
    {
        GuiLabel { font_size: size, ..self }
    }

    pub fn set_label(&mut self, text: String)
        ensures
            final(self)@ == (LabelModel { text: text@, ..old(self)@ }),
    {
        self.text = text;
    }

    /// Sets the anchor, in thousandths of the label's extent.
    pub fn set_origin(&mut self, origin: Point)
        ensures
            final(self)@ == (LabelModel { origin, ..old(self)@ }),
    {
        self.origin = origin;
    }

    pub fn set_position(&mut self, position: Point)
        ensures
            final(self)@ == (LabelModel { position, ..old(self)@ }),
    {
        self.position = position;
    }

    pub fn text(&self) -> (r: &str)
        ensures
            r@ == self@.text,
    {
        self.text.as_str()
    }

    pub fn position(&self) -> (r: Point)
        ensures
            r == self@.position,
    {
        self.position
    }
}

} // verus!
