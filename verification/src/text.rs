use vstd::prelude::*;

use crate::color::ColorRGBA;
use crate::geometry::Vec2u;

verus! {

/// One text primitive handed to the text shaper: where it goes, the box
/// it may fill, what it says, and its color. Positions are whole pixels;
/// any sub-pixel nudge is the renderer's affair.
pub struct TextLabel {
    pub left: i64,
    pub top: i64,
    pub bounds: Vec2u,
    pub content: String,
    pub color: ColorRGBA,
}

/// The mathematical image of a text primitive.
pub ghost struct TextView {
    pub left: int,
    pub top: int,
    pub bounds: Vec2u,
    pub content: Seq<char>,
    pub color: ColorRGBA,
}

impl View for TextLabel {
    type V = TextView;

    open spec fn view(&self) -> TextView {
        TextView {
            left: self.left as int,
            top: self.top as int,
            bounds: self.bounds,
            content: self.content@,
            color: self.color,
        }
    }
}

/// The text primitives of one frame, in emission order. Rebuilt from
/// scratch by every layout pass; the shaping and rasterizing state that
/// turns them into glyphs lives with the renderer.
pub struct TextCollection {
    pub texts: Vec<TextLabel>,
}

impl TextCollection {
    pub fn new() -> (c: Self)
        ensures
            c.texts@.len() == 0,
    {
        TextCollection { texts: Vec::new() }
    }

    /// Drops all text primitives, ready for the next layout pass.
    pub fn clear(&mut self)
        ensures
            final(self).texts@.len() == 0,
    {
        self.texts.clear();
    }

    /// Appends one text primitive and returns its index.
    pub fn new_text(&mut self, left: i64, top: i64, bounds: Vec2u, content: String, color:
        ColorRGBA) -> (idx: usize)
        ensures
            idx == old(self).texts@.len(),
            final(self).texts@.len() == old(self).texts@.len() + 1,
            forall|i: int|
                0 <= i < old(self).texts@.len() ==> final(self).texts@[i]@ == old(
                    self,
                ).texts@[i]@,
            final(self).texts@.last()@ == (TextView {
                left: left as int,
                top: top as int,
                bounds,
                content: content@,
                color,
            }),
    {
        let idx = self.texts.len();
        self.texts.push(TextLabel { left, top, bounds, content, color });
        idx
    }
}

} // verus!
