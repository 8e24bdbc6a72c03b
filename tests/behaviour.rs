use doogie::{
    CMarkNodePtr, CodeBlock, DelimType, Document, DoogieError, Emph, Forest, Heading,
    IterEventType, Item, Link, List, ListType, Node, NodeType, Paragraph, ResourceManager, Text,
};

fn text_node(forest: &mut Forest, content: &str) -> Node {
    let mut text = Text::new(forest);
    text.set_content(forest, &content.to_string()).unwrap();
    Node::Text(text)
}

fn item_list(forest: &mut Forest, items: &[&str]) -> Node {
    let mut root = Node::Document(Document::new(forest));
    let mut list = Node::List(List::new(forest));
    for content in items {
        let mut item = Node::Item(Item::new(forest));
        let mut para = Node::Paragraph(Paragraph::new(forest));
        let mut text = text_node(forest, content);
        para.append_child(forest, &mut text).unwrap();
        item.append_child(forest, &mut para).unwrap();
        list.append_child(forest, &mut item).unwrap();
    }
    root.append_child(forest, &mut list).unwrap();
    root
}

fn walk(forest: &Forest, root: &Node) -> Vec<(NodeType, IterEventType, String)> {
    let mut events = Vec::new();
    let mut iter = root.iter();
    while let Some((node, ev)) = iter.next(forest) {
        let content = match node {
            Node::Text(ref t) => t.get_content(forest).unwrap(),
            _ => String::new(),
        };
        events.push((node.node_type(), ev, content));
    }
    events
}

#[test]
fn iteration_visits_in_document_order() {
    let mut forest = Forest::new();
    let root = item_list(&mut forest, &["Item 1", "Item 2", "Item 3"]);
    let events = walk(&forest, &root);
    let mut expected = vec![
        (NodeType::CMarkNodeDocument, IterEventType::Enter, String::new()),
        (NodeType::CMarkNodeList, IterEventType::Enter, String::new()),
    ];
    for i in 1..4 {
        expected.push((NodeType::CMarkNodeItem, IterEventType::Enter, String::new()));
        expected.push((NodeType::CMarkNodeParagraph, IterEventType::Enter, String::new()));
        expected.push((NodeType::CMarkNodeText, IterEventType::Enter, format!("Item {}", i)));
        expected.push((NodeType::CMarkNodeParagraph, IterEventType::Exit, String::new()));
        expected.push((NodeType::CMarkNodeItem, IterEventType::Exit, String::new()));
    }
    expected.push((NodeType::CMarkNodeList, IterEventType::Exit, String::new()));
    expected.push((NodeType::CMarkNodeDocument, IterEventType::Exit, String::new()));
    assert_eq!(events, expected);
}

#[test]
fn exhausted_iterator_stays_exhausted() {
    let mut forest = Forest::new();
    let root = item_list(&mut forest, &["only"]);
    let mut iter = root.iter();
    while iter.next(&forest).is_some() {}
    assert!(iter.next(&forest).is_none());
    assert!(iter.next(&forest).is_none());
}

#[test]
fn iteration_of_a_leaf_enters_it_once() {
    let mut forest = Forest::new();
    let text = text_node(&mut forest, "alone");
    let events = walk(&forest, &text);
    assert_eq!(events, vec![(NodeType::CMarkNodeText, IterEventType::Enter, "alone".to_string())]);
}

#[test]
fn empty_container_is_entered_and_exited() {
    let mut forest = Forest::new();
    let para = Node::Paragraph(Paragraph::new(&mut forest));
    let events = walk(&forest, &para);
    assert_eq!(
        events,
        vec![
            (NodeType::CMarkNodeParagraph, IterEventType::Enter, String::new()),
            (NodeType::CMarkNodeParagraph, IterEventType::Exit, String::new()),
        ]
    );
}

#[test]
fn unlinked_item_leaves_the_walk_and_stays_usable() {
    let mut forest = Forest::new();
    let root = item_list(&mut forest, &["Item 1", "Item 2", "Item 3"]);
    let list = root.first_child(&forest).unwrap().unwrap();
    let mut second = list.first_child(&forest).unwrap().unwrap().next_sibling(&forest).unwrap().unwrap();
    second.unlink(&mut forest).unwrap();

    let texts: Vec<String> = walk(&forest, &root).into_iter().map(|e| e.2).filter(|s| !s.is_empty()).collect();
    assert_eq!(texts, vec!["Item 1".to_string(), "Item 3".to_string()]);

    assert!(second.parent(&forest).unwrap().is_none());
    assert!(second.next_sibling(&forest).unwrap().is_none());
    assert!(second.prev_sibling(&forest).unwrap().is_none());
    let own: Vec<String> = walk(&forest, &second).into_iter().map(|e| e.2).filter(|s| !s.is_empty()).collect();
    assert_eq!(own, vec!["Item 2".to_string()]);

    assert_eq!(walk(&forest, &root).len(), 2 + 2 * 5 + 2);

    // Reached from the root, the item shares the root's owner, which now tracks both.
    assert_eq!(second.manager(), root.manager());
    assert!(forest.is_tracking(second.manager(), second.pointer()));
    assert!(forest.is_tracking(root.manager(), root.pointer()));
    forest.release(second.manager());
    assert_eq!(second.first_child(&forest).err(), Some(DoogieError::ResourceUnavailable));
    assert_eq!(root.first_child(&forest).err(), Some(DoogieError::ResourceUnavailable));
    assert_eq!(walk(&forest, &root).len(), 0);
}

#[test]
fn releasing_the_root_owner_frees_the_whole_tree() {
    let mut forest = Forest::new();
    let root = item_list(&mut forest, &["a", "b"]);
    let list = root.first_child(&forest).unwrap().unwrap();
    forest.release(root.manager());
    assert_eq!(root.get_cmark_type(&forest), Err(DoogieError::ResourceUnavailable));
    assert_eq!(list.first_child(&forest).err(), Some(DoogieError::ResourceUnavailable));
    assert!(!forest.is_tracking(root.manager(), root.pointer()));
    assert!(root.iter().next(&forest).is_none());
}

#[test]
fn every_kind_pair_appends_exactly_when_allowed() {
    for p in 1..21 {
        for c in 1..21 {
            let mut forest = Forest::new();
            let pt = NodeType::try_from(p).unwrap();
            let ct = NodeType::try_from(c).unwrap();
            let mut parent = Node::from_type(&mut forest, pt).unwrap();
            let mut child = Node::from_type(&mut forest, ct).unwrap();
            let allowed = parent.can_append_child(&forest, &child).unwrap();
            assert_eq!(allowed, pt.can_contain(ct));
            match parent.append_child(&mut forest, &mut child) {
                Ok(()) => assert!(allowed, "{:?} in {:?}", ct, pt),
                Err(e) => {
                    assert!(!allowed, "{:?} in {:?}", ct, pt);
                    assert_eq!(e, DoogieError::ReturnCode(0));
                    assert!(forest.is_tracking(child.manager(), child.pointer()));
                }
            }
        }
    }
}

#[test]
fn kind_table_examples() {
    assert!(NodeType::CMarkNodeList.can_contain(NodeType::CMarkNodeItem));
    assert!(!NodeType::CMarkNodeList.can_contain(NodeType::CMarkNodeParagraph));
    assert!(!NodeType::CMarkNodeDocument.can_contain(NodeType::CMarkNodeItem));
    assert!(!NodeType::CMarkNodeDocument.can_contain(NodeType::CMarkNodeDocument));
    assert!(NodeType::CMarkNodeCustomBlock.can_contain(NodeType::CMarkNodeText));
    assert!(!NodeType::CMarkNodeText.can_contain(NodeType::CMarkNodeText));
    assert!(NodeType::CMarkNodeEmph.can_contain(NodeType::CMarkNodeStrong));
    assert!(!NodeType::CMarkNodeParagraph.can_contain(NodeType::CMarkNodeParagraph));
}

#[test]
fn a_node_cannot_be_appended_below_itself() {
    let mut forest = Forest::new();
    let mut outer = Node::Emph(Emph::new(&mut forest));
    let mut inner = Node::Emph(Emph::new(&mut forest));
    outer.append_child(&mut forest, &mut inner).unwrap();
    let mut outer_again = outer.itself(&forest).unwrap();
    assert_eq!(inner.append_child(&mut forest, &mut outer_again), Err(DoogieError::ReturnCode(0)));
    let mut same = inner.itself(&forest).unwrap();
    assert_eq!(inner.append_child(&mut forest, &mut same), Err(DoogieError::ReturnCode(0)));
}

#[test]
fn append_moves_a_node_between_parents() {
    let mut forest = Forest::new();
    let mut a = Node::Paragraph(Paragraph::new(&mut forest));
    let mut b = Node::Paragraph(Paragraph::new(&mut forest));
    let mut t = text_node(&mut forest, "moving");
    a.append_child(&mut forest, &mut t).unwrap();
    b.append_child(&mut forest, &mut t).unwrap();
    assert!(a.first_child(&forest).unwrap().is_none());
    assert_eq!(b.last_child(&forest).unwrap().unwrap(), t);
    assert_eq!(t.parent(&forest).unwrap().unwrap(), b);
}

#[test]
fn new_nodes_are_tracked_roots() {
    let mut forest = Forest::new();
    let d = Node::from_type(&mut forest, NodeType::CMarkNodeDocument).unwrap();
    assert!(forest.is_tracking(d.manager(), d.pointer()));
    let h = Heading::new(&mut forest);
    let h = Node::Heading(h);
    assert!(forest.is_tracking(h.manager(), h.pointer()));
    assert_ne!(d.manager(), h.manager());
}

#[test]
fn from_type_of_the_placeholder_kind_is_no_node() {
    let mut forest = Forest::new();
    assert_eq!(Node::from_type(&mut forest, NodeType::CMarkNodeNone).err(), Some(DoogieError::NodeNone));
    assert_eq!(forest.len(), 0);
    let p = forest.node_new(NodeType::CMarkNodeNone);
    assert_eq!(Node::from_raw(&forest, p, 0).err(), Some(DoogieError::NodeNone));
}

#[test]
fn codes_outside_the_enumerations_are_bad_enum() {
    assert_eq!(NodeType::try_from(21), Err(DoogieError::BadEnum(21)));
    assert_eq!(NodeType::try_from(20), Ok(NodeType::CMarkNodeImage));
    assert_eq!(NodeType::CMarkNodeHeading.code(), 9);
    assert_eq!(ListType::try_from(3), Err(DoogieError::BadEnum(3)));
    assert_eq!(ListType::try_from(2), Ok(ListType::CMarkOrderedList));
    assert_eq!(DelimType::try_from(7), Err(DoogieError::BadEnum(7)));
    assert_eq!(DelimType::try_from(1), Ok(DelimType::CMarkPeriodDelim));
    assert_eq!(IterEventType::try_from(4), Err(DoogieError::BadEnum(4)));
    assert_eq!(IterEventType::try_from(3), Ok(IterEventType::Exit));
}

#[test]
fn stale_handles_are_unavailable() {
    let mut forest = Forest::new();
    let mut other = Forest::new();
    let node = Node::Paragraph(Paragraph::new(&mut forest));
    assert_eq!(node.get_cmark_type(&other), Err(DoogieError::ResourceUnavailable));
    let mut n2 = node.itself(&forest).unwrap();
    assert_eq!(n2.unlink(&mut other), Err(DoogieError::ResourceUnavailable));
}

#[test]
fn content_round_trips() {
    let mut forest = Forest::new();
    let mut text = Text::new(&mut forest);
    assert_eq!(text.get_content(&forest).unwrap(), "");
    assert_eq!(text.set_content(&mut forest, &"abc XYZ 123".to_string()), Ok(1));
    assert_eq!(text.get_content(&forest).unwrap(), "abc XYZ 123");
    let mut block = CodeBlock::new(&mut forest);
    assert_eq!(block.set_fence_info(&mut forest, &"rust".to_string()), Ok(1));
    assert_eq!(block.set_content(&mut forest, &"fn main() {}\n".to_string()), Ok(1));
    assert_eq!(block.get_fence_info(&forest).unwrap(), "rust");
    assert_eq!(block.get_content(&forest).unwrap(), "fn main() {}\n");
}

#[test]
fn interior_nul_is_refused_at_its_position() {
    let mut forest = Forest::new();
    let mut text = Text::new(&mut forest);
    assert_eq!(text.set_content(&mut forest, &"ab\0c\0".to_string()), Err(DoogieError::NulError(2)));
    assert_eq!(text.get_content(&forest).unwrap(), "");
    let mut block = CodeBlock::new(&mut forest);
    assert_eq!(block.set_fence_info(&mut forest, &"\0".to_string()), Err(DoogieError::NulError(0)));
}

#[test]
fn literal_of_a_kind_without_text_is_refused() {
    let mut forest = Forest::new();
    let p = forest.node_new(NodeType::CMarkNodeParagraph);
    assert_eq!(forest.set_literal(p, &"x".to_string()), 0);
    assert_eq!(forest.set_fence_info(p, &"x".to_string()), 0);
    assert_eq!(forest.literal(p), "");
}

#[test]
fn adjacent_text_nodes_consolidate() {
    let mut forest = Forest::new();
    let mut root = Node::Document(Document::new(&mut forest));
    let mut para = Node::Paragraph(Paragraph::new(&mut forest));
    for s in ["ab", "cd", "ef"] {
        let mut t = text_node(&mut forest, s);
        para.append_child(&mut forest, &mut t).unwrap();
    }
    let mut emph = Node::Emph(Emph::new(&mut forest));
    para.append_child(&mut forest, &mut emph).unwrap();
    let mut t = text_node(&mut forest, "gh");
    para.append_child(&mut forest, &mut t).unwrap();
    root.append_child(&mut forest, &mut para).unwrap();

    if let Node::Document(ref mut doc) = root {
        doc.consolidate_text_nodes(&mut forest).unwrap();
    }
    let texts: Vec<String> = walk(&forest, &root).into_iter().map(|e| e.2).filter(|s| !s.is_empty()).collect();
    assert_eq!(texts, vec!["abcdef".to_string(), "gh".to_string()]);
}

#[test]
fn kind_names_and_defaults() {
    let mut forest = Forest::new();
    let h = Heading::new(&mut forest);
    assert_eq!(h.get_level(&forest), Ok(1));
    let l = List::new(&mut forest);
    assert_eq!(l.get_list_type(&forest), Ok(ListType::CMarkBulletList));
    assert_eq!(l.get_delim_type(&forest), Ok(DelimType::CMarkNoDelim));
    let node = Node::Heading(h);
    assert_eq!(node.get_cmark_type_string(&forest).unwrap(), "heading");
    assert_eq!(node.get_start_line(&forest), Ok(0));
    assert_eq!(node.get_start_column(&forest), Ok(0));
    assert_eq!(node.get_id(), node.pointer().id as u32);
    let block_quote = Node::from_type(&mut forest, NodeType::CMarkNodeBlockQuote).unwrap();
    assert_eq!(block_quote.get_cmark_type_string(&forest).unwrap(), "block_quote");
}

#[test]
fn link_fields_are_read_back() {
    let mut forest = Forest::new();
    let link = Link::new(&mut forest);
    let node = Node::Link(link);
    let p = node.pointer();
    assert_eq!(forest.set_url(p, &"https://example.com".to_string()), 1);
    assert_eq!(forest.set_title(p, &"Example".to_string()), 1);
    if let Node::Link(ref l) = node {
        assert_eq!(l.get_url(&forest).unwrap(), "https://example.com");
        assert_eq!(l.get_title(&forest).unwrap(), "Example");
    }
    assert_eq!(forest.set_heading_level(p, 2), 0);
}

#[test]
fn heading_level_is_bounded() {
    let mut forest = Forest::new();
    let h = Heading::new(&mut forest);
    let p = Node::Heading(Heading::new(&mut forest)).pointer();
    assert_eq!(forest.set_heading_level(p, 6), 1);
    assert_eq!(forest.set_heading_level(p, 7), 0);
    assert_eq!(forest.heading_level(p), 6);
    assert_eq!(h.get_level(&forest), Ok(1));
}

#[test]
fn manager_tracks_a_set() {
    let mut m = ResourceManager::new();
    let a = CMarkNodePtr { id: 3 };
    let b = CMarkNodePtr { id: 5 };
    m.track_root(&a);
    m.track_root(&a);
    m.track_root(&b);
    assert!(m.is_tracking(&a) && m.is_tracking(&b));
    m.untrack_root(&a);
    assert!(!m.is_tracking(&a) && m.is_tracking(&b));
    m.untrack_root(&a);
    let mut rest = m.take_roots();
    rest.sort();
    assert_eq!(rest, vec![5]);
    assert!(!m.is_tracking(&b));
}

#[test]
fn navigation_at_the_edges_is_absent() {
    let mut forest = Forest::new();
    let root = item_list(&mut forest, &["x", "y"]);
    assert!(root.parent(&forest).unwrap().is_none());
    assert!(root.next_sibling(&forest).unwrap().is_none());
    let list = root.first_child(&forest).unwrap().unwrap();
    let last = list.last_child(&forest).unwrap().unwrap();
    assert!(last.next_sibling(&forest).unwrap().is_none());
    let first = list.first_child(&forest).unwrap().unwrap();
    assert!(first.prev_sibling(&forest).unwrap().is_none());
    assert_eq!(first.next_sibling(&forest).unwrap().unwrap(), last);
    assert_eq!(first.next_sibling(&forest).unwrap().unwrap(), first.next_sibling(&forest).unwrap().unwrap());
}

#[test]
fn adopting_a_built_tree_tracks_its_root() {
    let mut forest = Forest::new();
    let root = forest.node_new(NodeType::CMarkNodeDocument);
    let para = forest.node_new(NodeType::CMarkNodeParagraph);
    assert_eq!(forest.append_child(root, para), 1);
    let node = Node::adopt(&mut forest, root).unwrap();
    assert!(matches!(node, Node::Document(_)));
    assert!(forest.is_tracking(node.manager(), root));
    assert_eq!(Node::adopt(&mut forest, CMarkNodePtr { id: 99 }).err(), Some(DoogieError::ResourceUnavailable));
}

#[test]
fn error_descriptions() {
    assert_eq!(DoogieError::ReturnCode(0).description(), "the tree returned a bad status code.");
    assert_eq!(DoogieError::BadEnum(9).description(), "the tree returned a non-matching enum value.");
    assert_eq!(DoogieError::ResourceUnavailable.description(), "The resource is no longer available.");
    assert_eq!(DoogieError::Utf8Error(1).description(), "text was not valid UTF-8");
}
