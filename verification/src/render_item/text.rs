//! The text block carried by a heading or paragraph render item: an
//! accumulating body with a fixed font, plus whether its visual element is
//! currently attached to the viewport.

use vstd::prelude::*;
use crate::render_item::Remove;

verus! {

/// Point size of a top-level heading.
pub const HEADING1_FONT_SIZE: u64 = 32;

/// Point size of a paragraph.
pub const PARAGRAPH_FONT_SIZE: u64 = 16;

/// The one font family every block is set in.
pub open spec fn default_font() -> Seq<char> {
    "Times New Roman"@
}

/// The mathematical content of a text block.
pub ghost struct TextView {
    pub body: Seq<char>,
    pub font: Seq<char>,
    pub font_size: int,
    pub attached: bool,
}

/// An accumulating run of text with its font, and the attachment state of
/// the visual element that `draw_label` creates for it.
pub struct Text {
    pub body: String,
    pub font: String,
    pub font_size: u64,
    pub attached: bool,
}

impl View for Text {
    type V = TextView;

    open spec fn view(&self) -> TextView {
        TextView {
            body: self.body@,
            font: self.font@,
            font_size: self.font_size as int,
            attached: self.attached,
        }
    }
}

impl Text {
    /// An empty-bodied block at heading size, not yet attached.
    pub fn new_heading1() -> (t: Text)
        ensures
            t@ == (TextView {
                body: Seq::<char>::empty(),
                font: default_font(),
                font_size: HEADING1_FONT_SIZE as int,
                attached: false,
            }),
    {
        Text {
            body: String::new(),
            font: "Times New Roman".to_owned(),
            font_size: HEADING1_FONT_SIZE,
            attached: false,
        }
    }

    /// An empty-bodied block at paragraph size, not yet attached.
    pub fn new_paragraph() -> (t: Text)
        ensures
            t@ == (TextView {
                body: Seq::<char>::empty(),
                font: default_font(),
                font_size: PARAGRAPH_FONT_SIZE as int,
                attached: false,
            }),
    {
        Text {
            body: String::new(),
            font: "Times New Roman".to_owned(),
            font_size: PARAGRAPH_FONT_SIZE,
            attached: false,
        }
    }

    /// Replaces the font family.
    pub fn set_font(&mut self, font: &str)
        ensures
            final(self)@ == (TextView { font: font@, ..old(self)@ }),
    {
        self.font = font.to_owned();
    }

    /// The accumulated body.
    pub fn body(&self) -> (s: &str)
        ensures
            s@ == self@.body,
    {
        self.body.as_str()
    }

    /// The font family.
    pub fn font(&self) -> (s: &str)
        ensures
            s@ == self@.font,
    {
        self.font.as_str()
    }

    /// The point size.
    pub fn font_size(&self) -> (n: u64)
        ensures
            n as int == self@.font_size,
    {
        self.font_size
    }

    /// Whether the block's visual element is attached to the viewport.
    pub fn is_attached(&self) -> (b: bool)
        ensures
            b == self@.attached,
    {
        self.attached
    }
}

impl Remove for Text {
    /// Detaches the block's visual element; the body and font stay.
    fn remove(&mut self)
        ensures
            final(self)@ == (TextView { attached: false, ..old(self)@ }),
    {
        self.attached = false;
    }
}

} // verus!
