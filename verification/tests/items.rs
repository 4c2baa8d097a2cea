use browser_core::document::DocNode;
use browser_core::document::DomEvent;
use browser_core::document::Document;
use browser_core::render_cursor::RenderCursor;
use browser_core::render_item::ItemKind;
use browser_core::render_item::Remove;
use browser_core::render_item::RenderItem;
use browser_core::render_item::RenderItemType;
use browser_core::render_item::text::Text;
use browser_core::viewport::Viewport;

#[test]
fn fresh_items_have_their_fixed_fonts() {
    let heading = RenderItem::new_heading1();
    assert_eq!(heading.kind(), ItemKind::Heading1);
    match &heading.item_type {
        RenderItemType::Heading1(t) => {
            assert_eq!(t.body(), "");
            assert_eq!(t.font(), "Times New Roman");
            assert_eq!(t.font_size(), 32);
            assert!(!t.is_attached());
        }
        _ => panic!("expected a heading"),
    }
    let paragraph = RenderItem::new_paragraph();
    assert_eq!(paragraph.kind(), ItemKind::Paragraph);
    match &paragraph.item_type {
        RenderItemType::Paragraph(t) => assert_eq!(t.font_size(), 16),
        _ => panic!("expected a paragraph"),
    }
    let empty = RenderItem::new();
    assert_eq!(empty.kind(), ItemKind::Empty);
}

#[test]
fn append_body_concatenates_verbatim() {
    let mut item = RenderItem::new_paragraph();
    item.append_body("one");
    item.append_body(" two");
    match &item.item_type {
        RenderItemType::Paragraph(t) => assert_eq!(t.body(), "one two"),
        _ => panic!("expected a paragraph"),
    }
}

#[test]
fn append_body_on_an_empty_item_does_nothing() {
    let mut item = RenderItem::new();
    item.append_body("ignored");
    assert_eq!(item.kind(), ItemKind::Empty);
    let mut context = Viewport::new();
    let mut cursor = RenderCursor::new();
    item.draw_label(&mut context, &mut cursor);
    assert_eq!(context.elements().len(), 0);
    assert_eq!(cursor.y, 0);
}

#[test]
fn place_records_the_draw_origin() {
    let mut item = RenderItem::new_heading1();
    item.place(3, 44);
    assert_eq!(item.x, 3);
    assert_eq!(item.y, 44);
}

#[test]
fn draw_label_attaches_and_advances_the_cursor() {
    let mut item = RenderItem::new_heading1();
    item.append_body("T");
    item.place(1, 2);
    let mut context = Viewport::new();
    let mut cursor = RenderCursor::new();
    cursor.move_to(1, 2);
    item.draw_label(&mut context, &mut cursor);
    let elements = context.elements();
    assert_eq!(elements.len(), 1);
    assert_eq!(elements[0].body, "T");
    assert_eq!(elements[0].font, "Times New Roman");
    assert_eq!(elements[0].font_size, 32);
    assert_eq!(elements[0].x, 1);
    assert_eq!(elements[0].y, 2);
    assert_eq!(cursor.x, 1);
    assert_eq!(cursor.y, 2 + 32 + 5);
    match &item.item_type {
        RenderItemType::Heading1(t) => assert!(t.is_attached()),
        _ => panic!("expected a heading"),
    }
}

#[test]
fn remove_detaches_a_drawn_item() {
    let mut item = RenderItem::new_paragraph();
    let mut context = Viewport::new();
    let mut cursor = RenderCursor::new();
    item.draw_label(&mut context, &mut cursor);
    match &item.item_type {
        RenderItemType::Paragraph(t) => assert!(t.is_attached()),
        _ => panic!("expected a paragraph"),
    }
    item.remove();
    match &item.item_type {
        RenderItemType::Paragraph(t) => assert!(!t.is_attached()),
        _ => panic!("expected a paragraph"),
    }
}

#[test]
fn set_font_replaces_the_family() {
    let mut text = Text::new_paragraph();
    text.set_font("Helvetica");
    assert_eq!(text.font(), "Helvetica");
    assert_eq!(text.font_size(), 16);
}

#[test]
fn cursor_moves_and_adjusts() {
    let mut cursor = RenderCursor::new();
    assert_eq!((cursor.x, cursor.y), (0, 0));
    cursor.move_to(7, 9);
    assert_eq!((cursor.x, cursor.y), (7, 9));
    cursor.adjust(0, 21);
    assert_eq!((cursor.x, cursor.y), (7, 30));
    cursor.adjust(5, 0);
    assert_eq!((cursor.x, cursor.y), (12, 30));
}

#[test]
fn flatten_walks_the_tree_in_preorder() {
    let doc = Document {
        nodes: vec![
            DocNode::Element {
                tag: "html".to_string(),
                children: vec![
                    DocNode::Element {
                        tag: "h1".to_string(),
                        children: vec![DocNode::Text { value: "A".to_string() }],
                    },
                    DocNode::Text { value: "B".to_string() },
                ],
            },
            DocNode::Text { value: "C".to_string() },
        ],
    };
    let events = doc.flatten();
    let mut summary: Vec<String> = Vec::new();
    for ev in &events {
        match ev {
            DomEvent::Element { tag } => summary.push(format!("<{}>", tag)),
            DomEvent::Text { value } => summary.push(value.clone()),
        }
    }
    assert_eq!(summary, vec!["<html>", "<h1>", "A", "B", "C"]);
}
