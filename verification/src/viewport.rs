//! The shared viewport that render passes draw into, modelled as the list of
//! text elements currently attached to it.
//!
//! The native widget container is an external collaborator; what matters to
//! the pipeline's invariants is which elements are attached and during which
//! pass each was created, so that is what this model records. A ghost pass
//! counter stamps every element: two elements from different passes can never
//! be confused, which is what "no stale element survives a tab switch" rests
//! on.

use vstd::prelude::*;

verus! {

/// The mathematical content of one attached text element.
pub ghost struct ElementView {
    pub body: Seq<char>,
    pub font: Seq<char>,
    pub font_size: int,
    pub x: int,
    pub y: int,
    /// Which render pass created the element.
    pub pass: int,
}

/// A text element attached to the viewport.
pub struct TextElement {
    pub body: String,
    pub font: String,
    pub font_size: u64,
    pub x: u64,
    pub y: u64,
    /// The render pass that created this element.
    pub pass: Ghost<int>,
}

impl View for TextElement {
    type V = ElementView;

    open spec fn view(&self) -> ElementView {
        ElementView {
            body: self.body@,
            font: self.font@,
            font_size: self.font_size as int,
            x: self.x as int,
            y: self.y as int,
            pass: self.pass@,
        }
    }
}

/// The mathematical content of the viewport.
pub ghost struct ViewportView {
    pub elements: Seq<ElementView>,
    /// The running pass counter; elements of the current pass carry it.
    pub pass: int,
}

/// The viewport: the attached elements, plus a ghost counter of how many
/// render passes have begun.
pub struct Viewport {
    elements: Vec<TextElement>,
    pass: Ghost<int>,
}

/// The mathematical element list a vector of attached elements stands for.
pub open spec fn element_views(es: Seq<TextElement>) -> Seq<ElementView> {
    es.map_values(|e: TextElement| e@)
}

impl View for Viewport {
    type V = ViewportView;

    closed spec fn view(&self) -> ViewportView {
        ViewportView { elements: element_views(self.elements@), pass: self.pass@ }
    }
}

impl Viewport {
    /// An empty viewport in which no pass has begun.
    pub fn new() -> (v: Viewport)
        ensures
            v@.elements == Seq::<ElementView>::empty(),
            v@.pass == 0,
    {
        let v = Viewport { elements: Vec::new(), pass: Ghost(0) };
        proof {
            assert(element_views(v.elements@) =~= Seq::<ElementView>::empty());
        }
        v
    }

    /// Detaches everything drawn so far and opens the next pass: from here
    /// on, newly attached elements carry a pass stamp no earlier element
    /// carries.
    pub fn begin_pass(&mut self)
        ensures
            final(self)@.elements == Seq::<ElementView>::empty(),
            final(self)@.pass == old(self)@.pass + 1,
    {
        self.elements.clear();
        proof {
            assert(element_views(self.elements@) =~= Seq::<ElementView>::empty());
        }
        self.pass = Ghost(self.pass@ + 1);
    }

    /// Attaches one element, stamped with the current pass.
    pub fn attach(&mut self, body: String, font: String, font_size: u64, x: u64, y: u64)
        ensures
            final(self)@.pass == old(self)@.pass,
            final(self)@.elements == old(self)@.elements.push(
                ElementView {
                    body: body@,
                    font: font@,
                    font_size: font_size as int,
                    x: x as int,
                    y: y as int,
                    pass: old(self)@.pass,
                },
            ),
    {
        let ghost pre = self.elements@;
        let e = TextElement { body, font, font_size, x, y, pass: Ghost(self.pass@) };
        self.elements.push(e);
        proof {
            assert(element_views(self.elements@) =~= element_views(pre).push(e@));
        }
    }

    /// The attached elements, in attachment order.
    pub fn elements(&self) -> (es: &Vec<TextElement>)
        ensures
            element_views(es@) == self@.elements,
    {
        &self.elements
    }
}

} // verus!
