//! The document model: a tree of element and text nodes, as the parsing
//! service hands it over, together with its pre-order event stream.
//!
//! The layout pipeline consumes a document purely through that stream
//! (tree order: a node, then its children, then its next sibling), so the
//! stream is the mathematical view everything downstream speaks of.

use vstd::prelude::*;

verus! {

/// One node of a parsed document: an element with a tag name and child
/// nodes, or a run of text.
pub enum DocNode {
    Element { tag: String, children: Vec<DocNode> },
    Text { value: String },
}

/// A parsed document: the top-level nodes in order.
pub struct Document {
    pub nodes: Vec<DocNode>,
}

/// What a single visit during pre-order traversal sees: the mathematical
/// counterpart of a node, without its children.
pub ghost enum NodeEvent {
    Element { tag: Seq<char> },
    Text { value: Seq<char> },
}

/// The pre-order event stream of a forest of sibling nodes.
pub open spec fn forest_events(ns: Seq<DocNode>) -> Seq<NodeEvent>
    decreases ns,
{
    if ns.len() == 0 {
        Seq::empty()
    } else {
        forest_events(ns.drop_last()) + node_events(ns.last())
    }
}

/// The pre-order event stream of one node: the node itself, then its
/// children in order.
pub open spec fn node_events(n: DocNode) -> Seq<NodeEvent>
    decreases n,
{
    match n {
        DocNode::Text { value } => seq![NodeEvent::Text { value: value@ }],
        DocNode::Element { tag, children } => seq![
            NodeEvent::Element { tag: tag@ },
        ] + forest_events(children@),
    }
}

/// A materialised traversal event, as the executable traversal produces it.
pub enum DomEvent {
    Element { tag: String },
    Text { value: String },
}

impl View for DomEvent {
    type V = NodeEvent;

    open spec fn view(&self) -> NodeEvent {
        match *self {
            DomEvent::Element { tag } => NodeEvent::Element { tag: tag@ },
            DomEvent::Text { value } => NodeEvent::Text { value: value@ },
        }
    }
}

/// The mathematical stream a materialised event list stands for.
pub open spec fn event_views(evs: Seq<DomEvent>) -> Seq<NodeEvent> {
    evs.map_values(|e: DomEvent| e@)
}

/// A node's events are among those of any forest it belongs to; this bounds
/// the recursion of the executable traversal.
proof fn lemma_node_events_len_le(ns: Seq<DocNode>, i: int)
    requires
        0 <= i < ns.len(),
    ensures
        node_events(ns[i]).len() <= forest_events(ns).len(),
    decreases ns.len(),
{
    if i < ns.len() - 1 {
        lemma_node_events_len_le(ns.drop_last(), i);
        assert(ns.drop_last()[i] == ns[i]);
    }
}

/// Appends the pre-order events of `n` to `out`.
#[verifier::loop_isolation(false)]
fn flatten_node_into(n: &DocNode, out: &mut Vec<DomEvent>)
    ensures
        event_views(final(out)@) == event_views(old(out)@) + node_events(*n),
    decreases node_events(*n).len(),
{
    match n {
        DocNode::Text { value } => {
            let ghost pre = out@;
            out.push(DomEvent::Text { value: value.clone() });
            proof {
                assert(event_views(out@) =~= event_views(pre) + node_events(*n));
            }
        },
        DocNode::Element { tag, children } => {
            let ghost pre = out@;
            out.push(DomEvent::Element { tag: tag.clone() });
            let ghost opened = seq![NodeEvent::Element { tag: tag@ }];
            proof {
                assert(event_views(out@) =~= event_views(pre) + opened);
                assert(children@.take(0) =~= Seq::<DocNode>::empty());
            }
            let mut i: usize = 0;
            while i < children.len()
                invariant
                    i <= children.len(),
                    event_views(out@) == event_views(pre) + opened + forest_events(
                        children@.take(i as int),
                    ),
                decreases children.len() - i,
            {
                proof {
                    lemma_node_events_len_le(children@, i as int);
                }
                flatten_node_into(&children[i], out);
                proof {
                    assert(children@.take(i + 1).drop_last() =~= children@.take(i as int));
                    assert(children@.take(i + 1).last() == children@[i as int]);
                }
                i = i + 1;
            }
            proof {
                assert(children@.take(children@.len() as int) =~= children@);
            }
        },
    }
}

impl Document {
    /// The event stream the pipeline traverses: all top-level nodes in
    /// tree order.
    pub open spec fn events(self) -> Seq<NodeEvent> {
        forest_events(self.nodes@)
    }

    /// A freshly created, empty document.
    pub fn new() -> (d: Document)
        ensures
            d.nodes@ == Seq::<DocNode>::empty(),
            d.events() == Seq::<NodeEvent>::empty(),
    {
        Document { nodes: Vec::new() }
    }

    /// Materialises the document's pre-order event stream.
    pub fn flatten(&self) -> (evs: Vec<DomEvent>)
        ensures
            event_views(evs@) == self.events(),
    {
        let mut evs: Vec<DomEvent> = Vec::new();
        proof {
            assert(event_views(evs@) =~= Seq::<NodeEvent>::empty());
            assert(self.nodes@.take(0) =~= Seq::<DocNode>::empty());
        }
        let mut i: usize = 0;
        while i < self.nodes.len()
            invariant
                i <= self.nodes.len(),
                event_views(evs@) == forest_events(self.nodes@.take(i as int)),
            decreases self.nodes.len() - i,
        {
            flatten_node_into(&self.nodes[i], &mut evs);
            proof {
                assert(self.nodes@.take(i + 1).drop_last() =~= self.nodes@.take(i as int));
                assert(self.nodes@.take(i + 1).last() == self.nodes@[i as int]);
            }
            i = i + 1;
        }
        proof {
            assert(self.nodes@.take(self.nodes@.len() as int) =~= self.nodes@);
        }
        evs
    }
}

} // verus!
