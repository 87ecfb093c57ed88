use pdfium_bridge::outline::BookmarkNode;
use pdfium_bridge::outline::OutlineQuery;
use pdfium_bridge::outline::OutlineWalk;

#[test]
fn walk_builds_the_tree_in_sibling_order() {
    let (mut w, q) = OutlineWalk::new();
    assert_eq!(q, OutlineQuery::FirstChild(None));

    let q = w.on_node(101, String::from("One"), 0);
    assert_eq!(q, OutlineQuery::FirstChild(Some(101)));
    let q = w.on_node(111, String::from("One-A"), 1);
    assert_eq!(q, OutlineQuery::FirstChild(Some(111)));
    let q = w.on_null();
    assert_eq!(q, OutlineQuery::NextSibling(111));
    let q = w.on_node(112, String::from("One-B"), -1);
    assert_eq!(q, OutlineQuery::FirstChild(Some(112)));
    let q = w.on_null();
    assert_eq!(q, OutlineQuery::NextSibling(112));
    let q = w.on_null();
    assert_eq!(q, OutlineQuery::NextSibling(101));
    let q = w.on_node(102, String::from("Two"), 3);
    assert_eq!(q, OutlineQuery::FirstChild(Some(102)));
    let q = w.on_null();
    assert_eq!(q, OutlineQuery::NextSibling(102));
    let q = w.on_null();
    assert_eq!(q, OutlineQuery::Finished);

    let roots = w.into_roots();
    assert_eq!(roots.len(), 2);
    assert_eq!(roots[0].title, "One");
    assert_eq!(roots[0].page_index, 0);
    assert_eq!(roots[0].children.len(), 2);
    assert_eq!(roots[0].children[0].title, "One-A");
    assert_eq!(roots[0].children[0].page_index, 1);
    assert_eq!(roots[0].children[1].title, "One-B");
    assert_eq!(roots[0].children[1].page_index, -1);
    assert_eq!(roots[1].title, "Two");
    assert_eq!(roots[1].page_index, 3);
    assert!(roots[1].children.is_empty());
}

#[test]
fn empty_outline_finishes_at_once() {
    let (mut w, q) = OutlineWalk::new();
    assert_eq!(q, OutlineQuery::FirstChild(None));
    assert_eq!(w.on_null(), OutlineQuery::Finished);
    assert!(w.into_roots().is_empty());
}

#[test]
fn depth_cap_truncates_a_runaway_chain_to_no_children() {
    let (mut w, mut q) = OutlineWalk::new();
    assert_eq!(q, OutlineQuery::FirstChild(None));

    // Feed a first-child chain as a cyclic outline would: the machine must
    // stop descending at the cap instead of asking for children forever.
    let mut reported: u64 = 0;
    for depth in 0..=100u64 {
        let token = depth + 1;
        q = w.on_node(token, format!("n{}", depth), -1);
        reported += 1;
        if depth < 100 {
            assert_eq!(q, OutlineQuery::FirstChild(Some(token)), "descend below the cap");
        } else {
            assert_eq!(q, OutlineQuery::NextSibling(token), "truncate at the cap");
        }
    }
    assert_eq!(reported, 101);

    // Unwind: every sibling run is over.
    loop {
        q = w.on_null();
        if q == OutlineQuery::Finished {
            break;
        }
        match q {
            OutlineQuery::NextSibling(_) => {}
            other => panic!("unexpected query while unwinding: {:?}", other),
        }
    }

    let roots = w.into_roots();
    assert_eq!(roots.len(), 1);
    let mut depth = 0usize;
    let mut node: &BookmarkNode = &roots[0];
    while !node.children.is_empty() {
        assert_eq!(node.children.len(), 1);
        node = &node.children[0];
        depth += 1;
    }
    assert_eq!(depth, 100, "the deepest node sits at the cap and keeps no children");
    assert_eq!(node.title, "n100");
}
