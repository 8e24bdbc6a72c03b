use doogie::{
    CodeBlock, CMarkNodePtr, Document, Forest, Heading, IterEventType, Item, List, Node, NodeType,
    Paragraph, Text,
};

use proptest::strategy::Strategy;
use proptest::string::string_regex;
use proptest::test_runner::TestRunner;

/// Builds the tree of a document holding one level-one heading with the given text.
fn heading_document(forest: &mut Forest, title: &str) -> Node {
    let mut root = Node::Document(Document::new(forest));
    let mut heading = Node::Heading(Heading::new(forest));
    let mut text = Text::new(forest);
    text.set_content(forest, &title.to_string()).unwrap();
    let mut text = Node::Text(text);
    heading.append_child(forest, &mut text).unwrap();
    root.append_child(forest, &mut heading).unwrap();
    root
}

/// Builds the tree of a bullet list whose items each hold a paragraph with one text.
fn list_document(forest: &mut Forest, items: &[&str]) -> Node {
    let mut root = Node::Document(Document::new(forest));
    let mut list = Node::List(List::new(forest));
    for content in items {
        let mut item = Node::Item(Item::new(forest));
        let mut para = Node::Paragraph(Paragraph::new(forest));
        let mut text = Text::new(forest);
        text.set_content(forest, &content.to_string()).unwrap();
        let mut text = Node::Text(text);
        para.append_child(forest, &mut text).unwrap();
        item.append_child(forest, &mut para).unwrap();
        list.append_child(forest, &mut item).unwrap();
    }
    root.append_child(forest, &mut list).unwrap();
    root
}

/// Returns some arbitrary alphanumeric textual content.
fn arb_content(max_words: usize) -> impl Strategy<Value = String> {
    proptest::collection::vec(string_regex("[[:alnum:]]{1,45}").unwrap(), 1..max_words).prop_map(|v| v.join(" "))
}

/// Checks `can_append_child` and `append_child` of a fresh node of `node_type` against
/// fresh nodes of every kind, given the codes of the kinds it may contain.
fn check_children(node_type: NodeType, allowed_codes: Vec<u32>) {
    let allowed: Vec<NodeType> = allowed_codes
        .into_iter()
        .map(|c| NodeType::try_from(c).unwrap())
        .collect();
    for i in 1..21 {
        let mut forest = Forest::new();
        let other_type = NodeType::try_from(i).unwrap();
        let mut node = Node::from_type(&mut forest, node_type).unwrap();
        let mut child = Node::from_type(&mut forest, other_type.clone()).unwrap();
        match node.can_append_child(&forest, &child).unwrap() {
            true => assert!(
                allowed.contains(&other_type),
                "{:?} should not have been a valid block quote child, but was",
                other_type
            ),
            false => assert!(
                !allowed.contains(&other_type),
                "{:?} should be a valid block quote child, but was not",
                other_type
            ),
        }
        match node.append_child(&mut forest, &mut child) {
            Err(_) => assert!(
                !allowed.contains(&other_type),
                "{:?} should be able to append, but was not",
                other_type
            ),
            Ok(_) => assert!(
                allowed.contains(&other_type),
                "{:?} should not have been able to append, but was",
                other_type
            ),
        }
    }
}

#[test]
fn test_equality() {
    let mut forest = Forest::new();
    let node = heading_document(&mut forest, "My New Document");
    let other = node.itself(&forest).unwrap();

    assert_eq!(node, other);
}

#[test]
fn test_inequality() {
    let mut forest = Forest::new();
    let node = heading_document(&mut forest, "My New Document");
    let other = node
        .first_child(&forest)
        .unwrap()
        .expect("Root should have a child");

    assert_ne!(node, other);
}

#[test]
fn test_root_node_gets_tracked() {
    let mut forest = Forest::new();
    let manager;
    let pointer;
    {
        let node = heading_document(&mut forest, "My New Document");
        manager = node.manager();
        pointer = node.pointer();
    }
    assert!(forest.is_tracking(manager, pointer));
}

#[test]
fn test_iterator_hits_all_items() {
    let mut forest = Forest::new();
    let root = list_document(&mut forest, &["Item 1", "Item 2", "Item 3"]);
    let mut node_contents: Vec<String> = Vec::new();
    let mut item_count = 0;

    let mut iter = root.iter();
    while let Some(item) = iter.next(&forest) {
        match item {
            (Node::Item(_), IterEventType::Enter) => item_count += 1,
            (Node::Text(ref text), IterEventType::Enter) => {
                node_contents.push(text.get_content(&forest).unwrap())
            }
            _ => (),
        }
    }

    assert_eq!(item_count, 3);
    assert!(node_contents.contains(&String::from("Item 1")));
    assert!(node_contents.contains(&String::from("Item 2")));
    assert!(node_contents.contains(&String::from("Item 3")));
}

#[test]
fn test_parent_child_traversal() {
    let mut forest = Forest::new();
    let root = list_document(&mut forest, &["Item 1", "Item 2", "Item 3"]);
    let child = root
        .first_child(&forest)
        .unwrap()
        .expect("Root should have had child");
    assert_eq!(
        root,
        child
            .parent(&forest)
            .unwrap()
            .expect("Child should have had a parent")
    );
}

#[test]
fn test_sibling_traversal() {
    let mut forest = Forest::new();
    let root = list_document(&mut forest, &["Item 1", "Item 2", "Item 3"]);
    let list = root
        .first_child(&forest)
        .unwrap()
        .expect("Root should have had list");
    let first_item = list
        .first_child(&forest)
        .unwrap()
        .expect("List should have had item");
    let next_item = first_item
        .next_sibling(&forest)
        .unwrap()
        .expect("First item should have had next sibling");

    assert_eq!(
        first_item,
        next_item
            .prev_sibling(&forest)
            .unwrap()
            .expect("Next item should have had prev item")
    );
}

#[test]
fn test_from_raw() {
    let mut forest = Forest::new();
    let node_pointer: CMarkNodePtr = forest.node_new(NodeType::CMarkNodeParagraph);

    let manager = forest.new_manager();
    let node = Node::from_raw(&forest, node_pointer, manager).unwrap();

    match node {
        Node::Paragraph(_) => (),
        _ => panic!("Node should have been a paragraph"),
    }
}

#[test]
fn test_unlink() {
    let mut forest = Forest::new();
    let root = list_document(&mut forest, &["Item 1", "Item 2", "Item 3"]);
    let mut first_item = root
        .first_child(&forest)
        .unwrap()
        .expect("Root should have first child")
        .first_child(&forest)
        .unwrap()
        .expect("List should have first item");
    let manager = first_item.manager();

    first_item.unlink(&mut forest).unwrap();

    assert!(forest.is_tracking(manager, first_item.pointer()));
    let mut iter = root.iter();
    while let Some((node, _)) = iter.next(&forest) {
        if let Node::Text(node) = node {
            assert!(!node.get_content(&forest).unwrap().contains("Item 1"));
        }
    }
}

#[test]
fn test_append_child() {
    let mut forest = Forest::new();
    let mut root_node = Node::from_type(&mut forest, NodeType::CMarkNodeDocument).unwrap();
    let mut child_node = Node::from_type(&mut forest, NodeType::CMarkNodeParagraph).unwrap();

    root_node.append_child(&mut forest, &mut child_node).unwrap();

    assert!(!forest.is_tracking(root_node.manager(), child_node.pointer()));
    assert!(!forest.is_tracking(child_node.manager(), child_node.pointer()));
    assert_eq!(
        root_node
            .first_child(&forest)
            .unwrap()
            .expect("Root should have child"),
        child_node
    );
}

#[test]
fn test_text_set_and_get_content() {
    let mut runner = TestRunner::default();
    runner
        .run(&arb_content(10), |content| {
            let mut forest = Forest::new();
            let mut text_node = Text::new(&mut forest);
            text_node.set_content(&mut forest, &content).unwrap();
            assert_eq!(content, text_node.get_content(&forest).unwrap());
            Ok(())
        })
        .unwrap();
}

#[test]
fn test_fence_info_get_set() {
    let mut runner = TestRunner::default();
    runner
        .run(&arb_content(10), |content| {
            let mut forest = Forest::new();
            let mut node = CodeBlock::new(&mut forest);
            node.set_fence_info(&mut forest, &content).unwrap();
            assert_eq!(content, node.get_fence_info(&forest).unwrap());
            Ok(())
        })
        .unwrap();
}

#[test]
fn test_document_children() {
    check_children(NodeType::CMarkNodeDocument, vec![2, 3, 5, 6, 7, 8, 9, 10]);
}

#[test]
fn test_block_quote_children() {
    check_children(NodeType::CMarkNodeBlockQuote, vec![2, 3, 5, 6, 7, 8, 9, 10]);
}

#[test]
fn test_list_children() {
    check_children(NodeType::CMarkNodeList, vec![4]);
}

#[test]
fn test_item_children() {
    check_children(NodeType::CMarkNodeItem, vec![2, 3, 5, 6, 7, 8, 9, 10]);
}

#[test]
fn test_code_block_children() {
    check_children(NodeType::CMarkNodeCodeBlock, Vec::new());
}

#[test]
fn test_html_block_children() {
    check_children(NodeType::CMarkNodeHtmlBlock, Vec::new());
}

#[test]
fn test_custom_block_children() {
    check_children(NodeType::CMarkNodeCustomBlock, (2..21).collect());
}

#[test]
fn test_paragraph_children() {
    check_children(NodeType::CMarkNodeParagraph, (11..21).collect());
}

#[test]
fn test_heading_children() {
    check_children(NodeType::CMarkNodeHeading, (11..21).collect());
}

#[test]
fn test_thematic_break_children() {
    check_children(NodeType::CMarkNodeThematicBreak, Vec::new());
}

#[test]
fn test_text_children() {
    check_children(NodeType::CMarkNodeText, Vec::new());
}

#[test]
fn test_soft_break_children() {
    check_children(NodeType::CMarkNodeSoftbreak, Vec::new());
}

#[test]
fn test_line_break_children() {
    check_children(NodeType::CMarkNodeLinebreak, Vec::new());
}

#[test]
fn test_code_children() {
    check_children(NodeType::CMarkNodeCode, Vec::new());
}

#[test]
fn test_inline_html_children() {
    check_children(NodeType::CMarkNodeHtmlInline, Vec::new());
}

#[test]
fn test_custom_inline_children() {
    check_children(NodeType::CMarkNodeCustomInline, (11..21).collect());
}

#[test]
fn test_emph_children() {
    check_children(NodeType::CMarkNodeEmph, (11..21).collect());
}

#[test]
fn test_strong_children() {
    check_children(NodeType::CMarkNodeStrong, (11..21).collect());
}

#[test]
fn test_link_children() {
    check_children(NodeType::CMarkNodeLink, (11..21).collect());
}

#[test]
fn test_image_children() {
    check_children(NodeType::CMarkNodeImage, (11..21).collect());
}
