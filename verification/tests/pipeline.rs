use browser_core::document::DocNode;
use browser_core::document::Document;
use browser_core::render_item::ItemKind;
use browser_core::render_item::RenderItemType;
use browser_core::render_pipeline::RenderPipeline;

#[test]
fn heading_then_paragraph_flush_in_order() {
    let doc = Document {
        nodes: vec![DocNode::Element {
            tag: "html".to_string(),
            children: vec![
                DocNode::Element {
                    tag: "h1".to_string(),
                    children: vec![DocNode::Text { value: "A".to_string() }],
                },
                DocNode::Element {
                    tag: "p".to_string(),
                    children: vec![DocNode::Text { value: "B".to_string() }],
                },
            ],
        }],
    };
    let mut pipeline = RenderPipeline::new();
    pipeline.render(&doc);

    let items = pipeline.items();
    assert_eq!(items.len(), 2);
    assert_eq!(items[0].kind(), ItemKind::Heading1);
    assert_eq!(items[0].x, 10);
    assert_eq!(items[0].y, 10);
    match &items[0].item_type {
        RenderItemType::Heading1(t) => {
            assert_eq!(t.body(), "A");
            assert_eq!(t.font(), "Times New Roman");
            assert_eq!(t.font_size(), 32);
            assert!(t.is_attached());
        }
        _ => panic!("expected a heading"),
    }
    assert_eq!(items[1].kind(), ItemKind::Paragraph);
    assert_eq!(items[1].x, 10);
    assert_eq!(items[1].y, 10 + 32 + 5);
    match &items[1].item_type {
        RenderItemType::Paragraph(t) => {
            assert_eq!(t.body(), "B");
            assert_eq!(t.font_size(), 16);
        }
        _ => panic!("expected a paragraph"),
    }

    let elements = pipeline.viewport().elements();
    assert_eq!(elements.len(), 2);
    assert_eq!(elements[0].body, "A");
    assert_eq!(elements[0].font, "Times New Roman");
    assert_eq!(elements[0].font_size, 32);
    assert_eq!(elements[0].x, 10);
    assert_eq!(elements[0].y, 10);
    assert_eq!(elements[1].body, "B");
    assert_eq!(elements[1].font_size, 16);
    assert_eq!(elements[1].x, 10);
    assert_eq!(elements[1].y, 47);

    // the cursor moved past both flushed blocks
    assert_eq!(pipeline.cursor().x, 10);
    assert_eq!(pipeline.cursor().y, 10 + 32 + 5 + 16 + 5);
}

#[test]
fn top_level_text_is_dropped() {
    let doc = Document {
        nodes: vec![DocNode::Text { value: "loose text".to_string() }],
    };
    let mut pipeline = RenderPipeline::new();
    pipeline.render(&doc);
    assert_eq!(pipeline.items().len(), 0);
    assert_eq!(pipeline.viewport().elements().len(), 0);
}

#[test]
fn adjacent_text_nodes_concatenate_without_separator() {
    let doc = Document {
        nodes: vec![DocNode::Element {
            tag: "p".to_string(),
            children: vec![
                DocNode::Text { value: "Hello".to_string() },
                DocNode::Text { value: " World".to_string() },
            ],
        }],
    };
    let mut pipeline = RenderPipeline::new();
    pipeline.render(&doc);
    let items = pipeline.items();
    assert_eq!(items.len(), 1);
    match &items[0].item_type {
        RenderItemType::Paragraph(t) => assert_eq!(t.body(), "Hello World"),
        _ => panic!("expected a paragraph"),
    }
}

#[test]
fn rerender_leaves_no_element_of_the_previous_pass() {
    let doc_a = Document {
        nodes: vec![DocNode::Element {
            tag: "h1".to_string(),
            children: vec![DocNode::Text { value: "first".to_string() }],
        }],
    };
    let doc_b = Document {
        nodes: vec![DocNode::Element {
            tag: "p".to_string(),
            children: vec![DocNode::Text { value: "second".to_string() }],
        }],
    };
    let mut pipeline = RenderPipeline::new();
    pipeline.render(&doc_a);
    assert_eq!(pipeline.viewport().elements().len(), 1);
    assert_eq!(pipeline.viewport().elements()[0].body, "first");

    pipeline.render(&doc_b);
    let elements = pipeline.viewport().elements();
    assert_eq!(elements.len(), 1);
    assert_eq!(elements[0].body, "second");
    assert_eq!(elements[0].font_size, 16);
    assert_eq!(pipeline.items().len(), 1);
}

#[test]
fn unrecognised_tag_force_closes_the_open_item() {
    let doc = Document {
        nodes: vec![DocNode::Element {
            tag: "html".to_string(),
            children: vec![
                DocNode::Element {
                    tag: "h1".to_string(),
                    children: vec![DocNode::Text { value: "kept".to_string() }],
                },
                DocNode::Element {
                    tag: "ul".to_string(),
                    children: vec![DocNode::Text { value: "dropped".to_string() }],
                },
            ],
        }],
    };
    let mut pipeline = RenderPipeline::new();
    pipeline.render(&doc);
    let items = pipeline.items();
    assert_eq!(items.len(), 1);
    assert_eq!(items[0].kind(), ItemKind::Heading1);
    match &items[0].item_type {
        RenderItemType::Heading1(t) => assert_eq!(t.body(), "kept"),
        _ => panic!("expected a heading"),
    }
}

#[test]
fn empty_document_renders_nothing() {
    let doc = Document::new();
    let mut pipeline = RenderPipeline::new();
    pipeline.render(&doc);
    assert_eq!(pipeline.items().len(), 0);
    assert_eq!(pipeline.viewport().elements().len(), 0);
    assert_eq!(pipeline.cursor().x, 10);
    assert_eq!(pipeline.cursor().y, 10);
}

#[test]
fn text_before_the_first_block_is_dropped() {
    let doc = Document {
        nodes: vec![
            DocNode::Text { value: "lead-in".to_string() },
            DocNode::Element {
                tag: "h1".to_string(),
                children: vec![DocNode::Text { value: "H".to_string() }],
            },
        ],
    };
    let mut pipeline = RenderPipeline::new();
    pipeline.render(&doc);
    let items = pipeline.items();
    assert_eq!(items.len(), 1);
    match &items[0].item_type {
        RenderItemType::Heading1(t) => assert_eq!(t.body(), "H"),
        _ => panic!("expected a heading"),
    }
}

#[test]
fn try_render_accepts_an_ordinary_document() {
    let doc = Document {
        nodes: vec![DocNode::Element {
            tag: "p".to_string(),
            children: vec![DocNode::Text { value: "ok".to_string() }],
        }],
    };
    let mut pipeline = RenderPipeline::new();
    assert!(pipeline.try_render(&doc));
    assert_eq!(pipeline.items().len(), 1);
}
