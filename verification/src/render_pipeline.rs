//! The document-to-visual pipeline: one render pass walks a document's
//! traversal events, accumulates heading and paragraph blocks, flushes each
//! into the viewport, and drives the cursor down the page.
//!
//! A pass is a three-state machine per item: no item open, an item open and
//! accumulating, and back to none at a flush, with a forced final flush so
//! the last block is not lost. The machine is written out as spec functions
//! (`step_state`, `run_state`, `pass_result`); `render` is proved to realise
//! exactly that machine.

use vstd::prelude::*;
use crate::document::Document;
use crate::document::DomEvent;
use crate::document::NodeEvent;
use crate::document::event_views;
use crate::render_cursor::RenderCursor;
use crate::render_item::ItemKind;
use crate::render_item::ItemView;
use crate::render_item::LINE_GAP;
use crate::render_item::Remove;
use crate::render_item::RenderItem;
use crate::render_item::append_body_view;
use crate::render_item::empty_item_view;
use crate::render_item::fresh_block_view;
use crate::render_item::item_views;
use crate::render_item::label_view;
use crate::render_item::text::HEADING1_FONT_SIZE;
use crate::render_item::text::PARAGRAPH_FONT_SIZE;
use crate::viewport::ElementView;
use crate::viewport::Viewport;
use crate::viewport::ViewportView;

verus! {

/// The fixed margin the cursor is reset to at the start of every pass.
pub const RENDER_MARGIN: u64 = 10;

/// How many traversal events one pass accepts. The bound keeps the cursor's
/// vertical position well inside `u64` however the document flushes.
pub const MAX_RENDER_EVENTS: usize = 0x1000_0000;

/// The state of a render pass between two traversal events.
pub ghost struct PassState {
    /// The one item currently open; `Empty` when none is.
    pub current: ItemView,
    /// The items flushed so far, in flush order.
    pub flushed: Seq<ItemView>,
    pub cursor_x: int,
    pub cursor_y: int,
}

/// Tags recognised as starting a heading block.
pub open spec fn is_heading1_tag(tag: Seq<char>) -> bool {
    tag == "h1"@
}

/// Tags recognised as starting a paragraph block.
pub open spec fn is_paragraph_tag(tag: Seq<char>) -> bool {
    tag == "p"@
}

/// Every pass starts with no item open and the cursor at the margin.
pub open spec fn initial_pass_state() -> PassState {
    PassState {
        current: empty_item_view(),
        flushed: Seq::empty(),
        cursor_x: RENDER_MARGIN as int,
        cursor_y: RENDER_MARGIN as int,
    }
}

/// Flushing: an open item is drawn (joining `flushed`, attached) and the
/// cursor advances past it; with no open item nothing happens. Either way
/// no item is open afterwards.
pub open spec fn flush_state(st: PassState) -> PassState {
    if st.current.kind is Empty {
        PassState { current: empty_item_view(), ..st }
    } else {
        PassState {
            current: empty_item_view(),
            flushed: st.flushed.push(ItemView { attached: true, ..st.current }),
            cursor_x: st.cursor_x,
            cursor_y: st.cursor_y + st.current.font_size + LINE_GAP as int,
        }
    }
}

/// Opening: a fresh empty-bodied block of the given variant, placed at the
/// current cursor position.
pub open spec fn open_state(st: PassState, kind: ItemKind, font_size: int) -> PassState {
    PassState {
        current: ItemView {
            x: st.cursor_x,
            y: st.cursor_y,
            ..fresh_block_view(kind, font_size)
        },
        ..st
    }
}

/// One traversal event: a recognised block tag flushes and opens its block;
/// any other element flushes and leaves nothing open; text joins the open
/// item's body and is dropped when none is open.
pub open spec fn step_state(st: PassState, ev: NodeEvent) -> PassState {
    match ev {
        NodeEvent::Element { tag } => if is_heading1_tag(tag) {
            open_state(flush_state(st), ItemKind::Heading1, HEADING1_FONT_SIZE as int)
        } else if is_paragraph_tag(tag) {
            open_state(flush_state(st), ItemKind::Paragraph, PARAGRAPH_FONT_SIZE as int)
        } else {
            flush_state(st)
        },
        NodeEvent::Text { value } => PassState {
            current: append_body_view(st.current, value),
            ..st
        },
    }
}

/// The machine run over a whole event stream.
pub open spec fn run_state(st: PassState, evs: Seq<NodeEvent>) -> PassState
    decreases evs.len(),
{
    if evs.len() == 0 {
        st
    } else {
        step_state(run_state(st, evs.drop_last()), evs.last())
    }
}

/// A complete pass over an event stream: reset, traverse, and the forced
/// final flush that closes a still-open item.
pub open spec fn pass_result(evs: Seq<NodeEvent>) -> PassState {
    flush_state(run_state(initial_pass_state(), evs))
}

/// The elements a pass attaches: one label per flushed item, all stamped
/// with the pass that drew them.
pub open spec fn elements_of(flushed: Seq<ItemView>, pass: int) -> Seq<ElementView> {
    flushed.map_values(|v: ItemView| label_view(v, pass))
}

/// The mathematical content of the pipeline.
pub ghost struct PipelineView {
    pub items: Seq<ItemView>,
    pub cursor_x: int,
    pub cursor_y: int,
    pub viewport: ViewportView,
}

/// What one call of `render` does to the pipeline: the previous pass's
/// output is gone, and document `evs` alone determines the items, the
/// elements and the cursor of the new pass.
pub open spec fn render_spec(p: PipelineView, evs: Seq<NodeEvent>) -> PipelineView {
    let r = pass_result(evs);
    PipelineView {
        items: r.flushed,
        cursor_x: r.cursor_x,
        cursor_y: r.cursor_y,
        viewport: ViewportView {
            elements: elements_of(r.flushed, p.viewport.pass + 1),
            pass: p.viewport.pass + 1,
        },
    }
}

/// With no item open, text events leave the pass exactly where it was:
/// their text is dropped.
pub proof fn lemma_text_only_run_is_noop(st: PassState, evs: Seq<NodeEvent>)
    requires
        st.current.kind is Empty,
        forall|i: int| 0 <= i < evs.len() ==> evs[i] is Text,
    ensures
        run_state(st, evs) == st,
    decreases evs.len(),
{
    if evs.len() > 0 {
        lemma_text_only_run_is_noop(st, evs.drop_last());
    }
}

/// Law: top-level text with no enclosing heading or paragraph produces
/// zero flushed items and zero drawn elements, whatever the pipeline held
/// before.
pub proof fn lemma_top_level_text_draws_nothing(p: PipelineView, evs: Seq<NodeEvent>)
    requires
        forall|i: int| 0 <= i < evs.len() ==> evs[i] is Text,
    ensures
        render_spec(p, evs).items == Seq::<ItemView>::empty(),
        render_spec(p, evs).viewport.elements == Seq::<ElementView>::empty(),
{
    lemma_text_only_run_is_noop(initial_pass_state(), evs);
    assert(elements_of(Seq::<ItemView>::empty(), p.viewport.pass + 1) =~= Seq::<
        ElementView,
    >::empty());
}

/// Law: adjacent text nodes under one open item concatenate in encounter
/// order with no inserted separator, and flush nothing on the way.
pub proof fn lemma_adjacent_text_concatenates(st: PassState, v1: Seq<char>, v2: Seq<char>)
    requires
        st.current.kind !is Empty,
    ensures
        ({
            let st2 = run_state(
                st,
                seq![NodeEvent::Text { value: v1 }, NodeEvent::Text { value: v2 }],
            );
            &&& st2.current == (ItemView { body: st.current.body + v1 + v2, ..st.current })
            &&& st2.flushed == st.flushed
            &&& st2.cursor_x == st.cursor_x
            &&& st2.cursor_y == st.cursor_y
        }),
{
    let evs = seq![NodeEvent::Text { value: v1 }, NodeEvent::Text { value: v2 }];
    assert(evs.drop_last() =~= seq![NodeEvent::Text { value: v1 }]);
    assert(evs.drop_last().drop_last() =~= Seq::<NodeEvent>::empty());
    reveal_with_fuel(run_state, 3);
    let st1 = step_state(st, NodeEvent::Text { value: v1 });
    assert(run_state(st, evs.drop_last()) == st1);
    assert(run_state(st, evs) == step_state(st1, NodeEvent::Text { value: v2 }));
    assert(st1.current.body == st.current.body + v1);
    assert(step_state(st1, NodeEvent::Text { value: v2 }).current.body == st.current.body + v1
        + v2);
}

/// Law: after a render of `evs_b` that follows a render of `evs_a`, no
/// element created during `evs_a`'s pass is still attached — everything in
/// the viewport bears the later pass's stamp.
pub proof fn lemma_rerender_detaches_previous(
    p: PipelineView,
    evs_a: Seq<NodeEvent>,
    evs_b: Seq<NodeEvent>,
)
    ensures
        ({
            let pa = render_spec(p, evs_a);
            let pb = render_spec(pa, evs_b);
            forall|i: int|
                0 <= i < pb.viewport.elements.len() ==> (#[trigger] pb.viewport.elements[i]).pass
                    != pa.viewport.pass
        }),
{
    let pa = render_spec(p, evs_a);
    let pb = render_spec(pa, evs_b);
    assert forall|i: int| 0 <= i < pb.viewport.elements.len() implies (
    #[trigger] pb.viewport.elements[i]).pass != pa.viewport.pass by {
        assert(pb.viewport.elements[i] == label_view(
            pass_result(evs_b).flushed[i],
            pa.viewport.pass + 1,
        ));
    }
}

/// Law: within one pass the cursor only flows down — x never moves and y
/// never decreases, whatever events arrive.
pub proof fn lemma_cursor_flows_down(st: PassState, evs: Seq<NodeEvent>)
    requires
        0 <= st.current.font_size,
    ensures
        run_state(st, evs).cursor_x == st.cursor_x,
        run_state(st, evs).cursor_y >= st.cursor_y,
        0 <= run_state(st, evs).current.font_size,
    decreases evs.len(),
{
    if evs.len() > 0 {
        lemma_cursor_flows_down(st, evs.drop_last());
    }
}

/// Traverses documents and redraws the shared viewport.
pub struct RenderPipeline {
    items: Vec<RenderItem>,
    cursor: RenderCursor,
    viewport: Viewport,
}

impl View for RenderPipeline {
    type V = PipelineView;

    closed spec fn view(&self) -> PipelineView {
        PipelineView {
            items: item_views(self.items@),
            cursor_x: self.cursor.x as int,
            cursor_y: self.cursor.y as int,
            viewport: self.viewport@,
        }
    }
}

impl RenderPipeline {
    /// A pipeline that has not rendered yet: nothing flushed, nothing
    /// attached.
    pub fn new() -> (p: RenderPipeline)
        ensures
            p@ == (PipelineView {
                items: Seq::<ItemView>::empty(),
                cursor_x: 0,
                cursor_y: 0,
                viewport: ViewportView { elements: Seq::<ElementView>::empty(), pass: 0 },
            }),
    {
        let p = RenderPipeline {
            items: Vec::new(),
            cursor: RenderCursor::new(),
            viewport: Viewport::new(),
        };
        proof {
            assert(item_views(p.items@) =~= Seq::<ItemView>::empty());
        }
        p
    }

    /// The items the latest pass flushed, in flush order.
    pub fn items(&self) -> (items: &Vec<RenderItem>)
        ensures
            item_views(items@) == self@.items,
    {
        &self.items
    }

    /// Where the next flushed block would be placed.
    pub fn cursor(&self) -> (c: &RenderCursor)
        ensures
            c.x as int == self@.cursor_x,
            c.y as int == self@.cursor_y,
    {
        &self.cursor
    }

    /// The shared viewport the passes draw into.
    pub fn viewport(&self) -> (v: &Viewport)
        ensures
            v@ == self@.viewport,
    {
        &self.viewport
    }

    /// Flushes `current`: draws it (unless empty), records it among the
    /// pass's items, advances the cursor past it, and hands back the fresh
    /// empty item that is open afterwards.
    fn flush_current(&mut self, current: RenderItem) -> (fresh: RenderItem)
        requires
            current@.font_size + LINE_GAP + old(self).cursor.y <= u64::MAX,
        ensures ({
            let st1 = flush_state(PassState {
                current: current@,
                flushed: item_views(old(self).items@),
                cursor_x: old(self).cursor.x as int,
                cursor_y: old(self).cursor.y as int,
            });
            &&& fresh@ == empty_item_view()
            &&& item_views(final(self).items@) == st1.flushed
            &&& final(self).cursor.x as int == st1.cursor_x
            &&& final(self).cursor.y as int == st1.cursor_y
            &&& final(self).viewport@.pass == old(self).viewport@.pass
            &&& final(self).viewport@.elements == (if current@.kind is Empty {
                old(self).viewport@.elements
            } else {
                old(self).viewport@.elements.push(
                    label_view(current@, old(self).viewport@.pass),
                )
            })
        }),
    {
        let mut current = current;
        let ghost pre_items = item_views(self.items@);
        current.draw_label(&mut self.viewport, &mut self.cursor);
        if current.kind() != ItemKind::Empty {
            let ghost drawn = current@;
            self.items.push(current);
            proof {
                assert(item_views(self.items@) =~= pre_items.push(drawn));
            }
        }
        RenderItem::new()
    }

    /// One full pass over a materialised event stream.
    #[verifier::loop_isolation(false)]
    fn render_events(&mut self, events: &Vec<DomEvent>)
        requires
            events@.len() <= MAX_RENDER_EVENTS,
        ensures
            final(self)@ == render_spec(old(self)@, event_views(events@)),
    {
        let ghost evs = event_views(events@);
        let ghost pass = old(self)@.viewport.pass + 1;

        // Remove every item the previous pass created from the display.
        let ghost vp0 = self.viewport;
        let ghost cur0 = self.cursor;
        while self.items.len() > 0
            invariant
                self.viewport == vp0,
                self.cursor == cur0,
            decreases self.items.len(),
        {
            let mut it = self.items.pop().unwrap();
            it.remove();
        }

        // Open the next pass and reset the cursor to the margin.
        self.viewport.begin_pass();
        self.cursor.move_to(RENDER_MARGIN, RENDER_MARGIN);

        let mut current = RenderItem::new();
        proof {
            assert(evs.take(0) =~= Seq::<NodeEvent>::empty());
            assert(item_views(self.items@) =~= Seq::<ItemView>::empty());
            assert(elements_of(Seq::<ItemView>::empty(), pass) =~= Seq::<ElementView>::empty());
        }
        let mut i: usize = 0;
        while i < events.len()
            invariant
                i <= events.len(),
                ({
                    let st = run_state(initial_pass_state(), evs.take(i as int));
                    &&& current@ == st.current
                    &&& item_views(self.items@) == st.flushed
                    &&& self.cursor.x as int == st.cursor_x
                    &&& self.cursor.y as int == st.cursor_y
                    &&& self.viewport@.pass == pass
                    &&& self.viewport@.elements == elements_of(st.flushed, pass)
                    &&& 0 <= st.current.font_size <= HEADING1_FONT_SIZE as int
                    &&& st.cursor_y <= RENDER_MARGIN as int + (HEADING1_FONT_SIZE + LINE_GAP)
                        as int * i
                }),
            decreases events.len() - i,
        {
            let ghost st = run_state(initial_pass_state(), evs.take(i as int));
            proof {
                assert(evs.take(i + 1).drop_last() =~= evs.take(i as int));
                assert(evs.take(i + 1).last() == evs[i as int]);
            }
            match &events[i] {
                DomEvent::Element { tag } => {
                    let h1 = "h1".to_owned();
                    let p = "p".to_owned();
                    current = self.flush_current(current);
                    if *tag == h1 {
                        let mut opened = RenderItem::new_heading1();
                        opened.place(self.cursor.x, self.cursor.y);
                        current = opened;
                    } else if *tag == p {
                        let mut opened = RenderItem::new_paragraph();
                        opened.place(self.cursor.x, self.cursor.y);
                        current = opened;
                    }
                },
                DomEvent::Text { value } => {
                    current.append_body(value.as_str());
                },
            }
            i = i + 1;
        }
        proof {
            assert(evs.take(events@.len() as int) =~= evs);
        }

        // The forced final transition: flush whatever is still open.
        let _fresh = self.flush_current(current);
        proof {
            let st = run_state(initial_pass_state(), evs);
            let r = pass_result(evs);
            if st.current.kind is Empty {
                assert(self@.viewport.elements == elements_of(r.flushed, pass));
            } else {
                assert(label_view(ItemView { attached: true, ..st.current }, pass)
                    == label_view(st.current, pass));
                assert(elements_of(r.flushed, pass) =~= elements_of(st.flushed, pass).push(
                    label_view(st.current, pass),
                ));
            }
            assert(self@ == render_spec(old(self)@, evs));
        }
    }

    /// Clears the previous pass's output from the viewport and redraws
    /// `doc` into it: headings and paragraphs accumulate their text and are
    /// flushed top to bottom from the margin down.
    pub fn render(&mut self, doc: &Document)
        requires
            doc.events().len() <= MAX_RENDER_EVENTS,
        ensures
            final(self)@ == render_spec(old(self)@, doc.events()),
    {
        let events = doc.flatten();
        self.render_events(&events);
    }

    /// Renders `doc` unless its event stream is over `MAX_RENDER_EVENTS`
    /// long, in which case the pipeline is left exactly as it was.
    pub fn try_render(&mut self, doc: &Document) -> (ok: bool)
        ensures
            ok == (doc.events().len() <= MAX_RENDER_EVENTS),
            ok ==> final(self)@ == render_spec(old(self)@, doc.events()),
            !ok ==> final(self)@ == old(self)@,
    {
        let events = doc.flatten();
        if events.len() <= MAX_RENDER_EVENTS {
            self.render_events(&events);
            true
        } else {
            false
        }
    }
}

} // verus!
