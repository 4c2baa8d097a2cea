//! An accumulating, flushable visual block: empty, a heading, or a
//! paragraph. Exactly one item is open at a time during a render pass; text
//! gathers in its body until the item is flushed, which draws it into the
//! viewport and advances the cursor.

use vstd::prelude::*;
use crate::render_cursor::RenderCursor;
use crate::render_item::text::Text;
use crate::viewport::ElementView;
use crate::viewport::Viewport;
use vstd::string::StringExecFns;

pub mod text;

verus! {

/// Vertical padding between a flushed block and the next one.
pub const LINE_GAP: u64 = 5;

/// Implemented by render items so a new pass can take them off the render
/// window.
pub trait Remove {
    fn remove(&mut self);
}

/// Which of the closed set of variants an item is.
#[derive(Clone, Copy, PartialEq, Eq, Structural, Debug)]
pub enum ItemKind {
    Empty,
    Heading1,
    Paragraph,
}

/// The mathematical content of a render item.
pub ghost struct ItemView {
    pub kind: ItemKind,
    pub body: Seq<char>,
    pub font: Seq<char>,
    pub font_size: int,
    pub x: int,
    pub y: int,
    pub attached: bool,
}

/// The closed set of item variants; heading and paragraph carry their text
/// block.
pub enum RenderItemType {
    Empty,
    Heading1(Text),
    Paragraph(Text),
}

/// A visual block with the viewport position it was placed at.
pub struct RenderItem {
    pub item_type: RenderItemType,
    pub x: u64,
    pub y: u64,
}

impl View for RenderItem {
    type V = ItemView;

    open spec fn view(&self) -> ItemView {
        match self.item_type {
            RenderItemType::Empty => ItemView {
                kind: ItemKind::Empty,
                body: Seq::empty(),
                font: Seq::empty(),
                font_size: 0,
                x: self.x as int,
                y: self.y as int,
                attached: false,
            },
            RenderItemType::Heading1(t) => ItemView {
                kind: ItemKind::Heading1,
                body: t@.body,
                font: t@.font,
                font_size: t@.font_size,
                x: self.x as int,
                y: self.y as int,
                attached: t@.attached,
            },
            RenderItemType::Paragraph(t) => ItemView {
                kind: ItemKind::Paragraph,
                body: t@.body,
                font: t@.font,
                font_size: t@.font_size,
                x: self.x as int,
                y: self.y as int,
                attached: t@.attached,
            },
        }
    }
}

/// The content of a freshly created empty item.
pub open spec fn empty_item_view() -> ItemView {
    ItemView {
        kind: ItemKind::Empty,
        body: Seq::empty(),
        font: Seq::empty(),
        font_size: 0,
        x: 0,
        y: 0,
        attached: false,
    }
}

/// The content of a freshly opened heading or paragraph of the given size.
pub open spec fn fresh_block_view(kind: ItemKind, font_size: int) -> ItemView {
    ItemView {
        kind,
        body: Seq::empty(),
        font: crate::render_item::text::default_font(),
        font_size,
        x: 0,
        y: 0,
        attached: false,
    }
}

/// What appending `s` does to an item: concatenation onto the body of a
/// heading or paragraph, nothing on an empty item.
pub open spec fn append_body_view(v: ItemView, s: Seq<char>) -> ItemView {
    if v.kind is Empty {
        v
    } else {
        ItemView { body: v.body + s, ..v }
    }
}

/// The mathematical item list a vector of render items stands for.
pub open spec fn item_views(s: Seq<RenderItem>) -> Seq<ItemView> {
    s.map_values(|r: RenderItem| r@)
}

/// The element that flushing an item attaches, stamped with the pass.
pub open spec fn label_view(v: ItemView, pass: int) -> ElementView {
    ElementView {
        body: v.body,
        font: v.font,
        font_size: v.font_size,
        x: v.x,
        y: v.y,
        pass,
    }
}

impl RenderItem {
    /// A fresh empty item: the "no item open" state of a pass.
    pub fn new() -> (r: Self)
        ensures
            r@ == empty_item_view(),
    {
        Self { item_type: RenderItemType::Empty, x: 0, y: 0 }
    }

    /// A fresh heading block.
    pub fn new_heading1() -> (r: Self)
        ensures
            r@ == fresh_block_view(
                ItemKind::Heading1,
                crate::render_item::text::HEADING1_FONT_SIZE as int,
            ),
    {
        Self { item_type: RenderItemType::Heading1(Text::new_heading1()), x: 0, y: 0 }
    }

    /// A fresh paragraph block.
    pub fn new_paragraph() -> (r: Self)
        ensures
            r@ == fresh_block_view(
                ItemKind::Paragraph,
                crate::render_item::text::PARAGRAPH_FONT_SIZE as int,
            ),
    {
        Self { item_type: RenderItemType::Paragraph(Text::new_paragraph()), x: 0, y: 0 }
    }

    /// Concatenates `content` onto the body, verbatim and with no
    /// separator; an empty item ignores it.
    pub fn append_body(&mut self, content: &str)
        ensures
            final(self)@ == append_body_view(old(self)@, content@),
    {
        match &mut self.item_type {
            RenderItemType::Heading1(t) => {
                t.body.append(content);
            },
            RenderItemType::Paragraph(t) => {
                t.body.append(content);
            },
            RenderItemType::Empty => {},
        }
    }

    /// Records the item's draw origin.
    pub fn place(&mut self, x: u64, y: u64)
        ensures
            final(self)@ == (ItemView { x: x as int, y: y as int, ..old(self)@ }),
    {
        self.x = x;
        self.y = y;
    }

    /// Which variant the item is.
    pub fn kind(&self) -> (k: ItemKind)
        ensures
            k == self@.kind,
    {
        match self.item_type {
            RenderItemType::Empty => ItemKind::Empty,
            RenderItemType::Heading1(_) => ItemKind::Heading1,
            RenderItemType::Paragraph(_) => ItemKind::Paragraph,
        }
    }

    /// Draws a heading or paragraph into the viewport at the item's
    /// recorded origin and advances the cursor past it vertically; an empty
    /// item draws nothing and moves nothing.
    pub fn draw_label(&mut self, context: &mut Viewport, cursor: &mut RenderCursor)
        requires
            old(self)@.kind !is Empty ==> old(cursor).y + old(self)@.font_size + LINE_GAP
                <= u64::MAX,
        ensures
            old(self)@.kind is Empty ==> {
                &&& final(self)@ == old(self)@
                &&& final(context)@ == old(context)@
                &&& *final(cursor) == *old(cursor)
            },
            old(self)@.kind !is Empty ==> {
                &&& final(self)@ == (ItemView { attached: true, ..old(self)@ })
                &&& final(context)@.pass == old(context)@.pass
                &&& final(context)@.elements == old(context)@.elements.push(
                    label_view(old(self)@, old(context)@.pass),
                )
                &&& final(cursor).x == old(cursor).x
                &&& final(cursor).y == old(cursor).y + old(self)@.font_size + LINE_GAP
            },
    {
        let x = self.x;
        let y = self.y;
        match &mut self.item_type {
            RenderItemType::Heading1(t) => {
                context.attach(t.body.clone(), t.font.clone(), t.font_size, x, y);
                t.attached = true;
                cursor.adjust(0, t.font_size + LINE_GAP);
            },
            RenderItemType::Paragraph(t) => {
                context.attach(t.body.clone(), t.font.clone(), t.font_size, x, y);
                t.attached = true;
                cursor.adjust(0, t.font_size + LINE_GAP);
            },
            RenderItemType::Empty => {},
        }
    }
}

impl Remove for RenderItem {
    /// Detaches the item's visual element, if it has one.
    fn remove(&mut self)
        ensures
            final(self)@ == (ItemView { attached: false, ..old(self)@ }),
    {
        match &mut self.item_type {
            RenderItemType::Heading1(t) => {
                t.remove();
            },
            RenderItemType::Paragraph(t) => {
                t.remove();
            },
            RenderItemType::Empty => {},
        }
    }
}

} // verus!
