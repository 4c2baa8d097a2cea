use browser_core::browser_tabs::BrowserTabs;
use browser_core::document::DocNode;
use browser_core::document::Document;

#[test]
fn add_tab_binds_creation_index() {
    let mut tabs = BrowserTabs::new();
    tabs.add_tab("New Tab");
    tabs.add_tab("Second");
    tabs.add_tab("Third");
    assert_eq!(tabs.tabs.len(), 3);
    for (i, tab) in tabs.tabs.iter().enumerate() {
        assert_eq!(tab.select_target, i);
        assert_eq!(tab.close_target, i);
    }
    assert_eq!(tabs.tabs[0].name, "New Tab");
    assert_eq!(tabs.tabs[1].name, "Second");
    assert_eq!(tabs.tabs[2].name, "Third");
    assert!(tabs.tabs[2].document.nodes.is_empty());
}

#[test]
fn remove_tab_rebinds_tabs_to_its_right() {
    let mut tabs = BrowserTabs::new();
    tabs.add_tab("A");
    tabs.add_tab("B");
    tabs.add_tab("C");
    tabs.add_tab("D");
    tabs.remove_tab(1);
    assert_eq!(tabs.tabs.len(), 3);
    let names: Vec<&str> = tabs.tabs.iter().map(|t| t.name.as_str()).collect();
    assert_eq!(names, vec!["A", "C", "D"]);
    for (i, tab) in tabs.tabs.iter().enumerate() {
        assert_eq!(tab.select_target, i);
        assert_eq!(tab.close_target, i);
    }
}

#[test]
fn remove_first_tab_rebinds_all_others() {
    let mut tabs = BrowserTabs::new();
    tabs.add_tab("A");
    tabs.add_tab("B");
    tabs.add_tab("C");
    tabs.remove_tab(0);
    let names: Vec<&str> = tabs.tabs.iter().map(|t| t.name.as_str()).collect();
    assert_eq!(names, vec!["B", "C"]);
    assert_eq!(tabs.tabs[0].select_target, 0);
    assert_eq!(tabs.tabs[0].close_target, 0);
    assert_eq!(tabs.tabs[1].select_target, 1);
    assert_eq!(tabs.tabs[1].close_target, 1);
}

#[test]
fn remove_sole_tab_is_a_noop() {
    let mut tabs = BrowserTabs::new();
    tabs.add_tab("Only");
    tabs.remove_tab(0);
    assert_eq!(tabs.tabs.len(), 1);
    assert_eq!(tabs.tabs[0].name, "Only");
    assert_eq!(tabs.tabs[0].select_target, 0);
    assert_eq!(tabs.tabs[0].close_target, 0);
}

#[test]
fn select_hands_out_the_owned_document() {
    let mut tabs = BrowserTabs::new();
    tabs.add_tab("A");
    tabs.add_tab("B");
    let doc = Document {
        nodes: vec![DocNode::Text { value: "hello".to_string() }],
    };
    tabs.tabs[1].set_document(doc);
    let selected = tabs.select(1);
    assert_eq!(selected.nodes.len(), 1);
    match &selected.nodes[0] {
        DocNode::Text { value } => assert_eq!(value, "hello"),
        DocNode::Element { .. } => panic!("expected a text node"),
    }
    let other = tabs.select(0);
    assert!(other.nodes.is_empty());
    assert_eq!(tabs.tabs.len(), 2);
}

#[test]
fn strip_layout_flows_left_to_right() {
    let mut tabs = BrowserTabs::new();
    tabs.add_tab("A");
    tabs.add_tab("B");
    let layout = tabs.strip_layout();
    assert_eq!(layout.tabs.len(), 2);
    assert_eq!(layout.tabs[0].x, 10);
    assert_eq!(layout.tabs[0].y, 75);
    assert_eq!(layout.tabs[0].width, 200);
    assert_eq!(layout.tabs[1].x, 220);
    assert_eq!(layout.tabs[1].y, 75);
    assert_eq!(layout.tabs[1].width, 200);
    assert_eq!(layout.add_tab.x, 430);
    assert_eq!(layout.add_tab.y, 81);
    assert_eq!(layout.add_tab.width, 25);
}

#[test]
fn strip_layout_of_empty_registry_only_places_add_control() {
    let tabs = BrowserTabs::new();
    let layout = tabs.strip_layout();
    assert_eq!(layout.tabs.len(), 0);
    assert_eq!(layout.add_tab.x, 10);
    assert_eq!(layout.add_tab.y, 81);
}
