//! Bounded outline (bookmark) traversal: depth-first, pre-order, sibling
//! order preserved, depth capped so a malformed or adversarial outline
//! cycle cannot recurse without bound — a branch past the cap is truncated
//! to no children rather than failing the walk.
//!
//! The walk is a step machine: it asks for one native enumeration step at a
//! time (first child of a node, or next sibling) and is fed the answer as
//! plain values. The machine owns every decision — when to descend, when to
//! truncate, where each finished node lands — so the whole traversal logic
//! is verified, while the caller merely relays native answers.

use vstd::prelude::*;

verus! {

/// The traversal depth cap: nodes deeper than this keep no children.
pub const MAX_OUTLINE_DEPTH: u32 = 100;

/// A node in the outline tree: title, zero-based destination page index
/// (-1 when the node carries no destination), and the node's children in
/// sibling order.
#[derive(Debug)]
pub struct BookmarkNode {
    pub title: String,
    pub page_index: i32,
    pub children: Vec<BookmarkNode>,
}

/// One emitted traversal record: the depth a node was reported at, its
/// title and its destination page index.
pub ghost struct OutlineRec {
    pub depth: nat,
    pub title: Seq<char>,
    pub page_index: int,
}

/// The pre-order flattening of one node at depth `d`.
pub open spec fn flatten_node(n: BookmarkNode, d: nat) -> Seq<OutlineRec>
    decreases n,
{
    seq![OutlineRec { depth: d, title: n.title@, page_index: n.page_index as int }]
        + flatten_nodes(n.children@, (d + 1) as nat)
}

/// The pre-order flattening of a sibling list at depth `d`.
pub open spec fn flatten_nodes(s: Seq<BookmarkNode>, d: nat) -> Seq<OutlineRec>
    decreases s,
{
    if s.len() == 0 {
        Seq::empty()
    } else {
        flatten_node(s[0], d) + flatten_nodes(s.skip(1), d)
    }
}

/// What the machine asks the caller to do next.
#[derive(Clone, Copy, Debug, PartialEq, Eq)]
pub enum OutlineQuery {
    /// Ask the native enumeration for the first child of the given node,
    /// or of the invisible root when `None`.
    FirstChild(Option<u64>),
    /// Ask for the next sibling of the given node.
    NextSibling(u64),
    /// The walk is complete; collect the tree with `into_roots`.
    Finished,
}

/// A node whose children are still being collected.
struct PendingFrame {
    token: u64,
    title: String,
    page_index: i32,
    children: Vec<BookmarkNode>,
}

/// The record a pending frame contributes at depth `d`.
spec fn frame_rec(f: PendingFrame, d: nat) -> OutlineRec {
    OutlineRec { depth: d, title: f.title@, page_index: f.page_index as int }
}

/// The node a pending frame completes into.
spec fn frame_node(f: PendingFrame) -> BookmarkNode {
    BookmarkNode { title: f.title, page_index: f.page_index, children: f.children }
}

/// The records contributed by the open ancestor frames, bottom first, when
/// the bottom frame sits at depth `d`.
spec fn pending_flatten(s: Seq<PendingFrame>, d: nat) -> Seq<OutlineRec>
    decreases s.len(),
{
    if s.len() == 0 {
        Seq::empty()
    } else {
        seq![frame_rec(s[0], d)] + flatten_nodes(s[0].children@, (d + 1) as nat)
            + pending_flatten(s.skip(1), (d + 1) as nat)
    }
}

/// The outline walk state machine.
pub struct OutlineWalk {
    stack: Vec<PendingFrame>,
    roots: Vec<BookmarkNode>,
    finished: bool,
    trace: Ghost<Seq<OutlineRec>>,
}

impl OutlineWalk {
    /// The depth the next reported node will carry.
    pub closed spec fn depth(self) -> nat {
        self.stack@.len()
    }

    /// Whether the walk has completed.
    pub closed spec fn is_finished(self) -> bool {
        self.finished
    }

    /// Every node reported so far, in report order, with its depth.
    pub closed spec fn emitted(self) -> Seq<OutlineRec> {
        self.trace@
    }

    /// The tokens of the open ancestors, bottom first: the nodes whose
    /// children are still being collected.
    pub closed spec fn tokens(self) -> Seq<u64> {
        Seq::new(self.stack@.len(), |i: int| self.stack@[i].token)
    }

    /// The token of the node whose sibling would be asked for next after
    /// its children complete.
    pub open spec fn top_token(self) -> u64
        recommends
            self.depth() > 0,
    {
        self.tokens().last()
    }

    /// The machine's invariant: the depth never exceeds the cap, every
    /// emitted record respects the cap, the trace is exactly the pre-order
    /// flattening of the finished roots plus the open frames, and a
    /// finished walk has no open frames.
    pub closed spec fn wf(self) -> bool {
        &&& self.stack@.len() <= MAX_OUTLINE_DEPTH
        &&& self.trace@ == flatten_nodes(self.roots@, 0) + pending_flatten(self.stack@, 0)
        &&& forall|i: int|
            0 <= i < self.trace@.len() ==> #[trigger] self.trace@[i].depth <= MAX_OUTLINE_DEPTH
        &&& self.finished ==> self.stack@.len() == 0
    }

    /// Begin a walk: the first thing to ask for is the root's first child.
    pub fn new() -> (r: (OutlineWalk, OutlineQuery))
        ensures
            r.0.wf(),
            !r.0.is_finished(),
            r.0.depth() == 0,
            r.0.tokens() == Seq::<u64>::empty(),
            r.0.emitted() == Seq::<OutlineRec>::empty(),
            r.1 == OutlineQuery::FirstChild(None::<u64>),
    {
        let w = OutlineWalk {
            stack: Vec::new(),
            roots: Vec::new(),
            finished: false,
            trace: Ghost(Seq::empty()),
        };
        proof {
            assert(flatten_nodes(w.roots@, 0) + pending_flatten(w.stack@, 0) =~= Seq::<
                OutlineRec,
            >::empty());
        }
        (w, OutlineQuery::FirstChild(None))
    }

    /// Feed the machine a node the outstanding query reported. The node is
    /// recorded at the current depth, which never exceeds the cap; the
    /// machine descends into its children unless the cap is reached, in
    /// which case the node is completed childless and its sibling is asked
    /// for instead.
    pub fn on_node(&mut self, token: u64, title: String, page_index: i32) -> (q: OutlineQuery)
        requires
            old(self).wf(),
            !old(self).is_finished(),
        ensures
            final(self).wf(),
            !final(self).is_finished(),
            old(self).depth() <= MAX_OUTLINE_DEPTH,
            final(self).emitted() == old(self).emitted().push(
                OutlineRec { depth: old(self).depth(), title: title@, page_index: page_index as int },
            ),
            old(self).depth() < MAX_OUTLINE_DEPTH ==> {
                &&& final(self).depth() == old(self).depth() + 1
                &&& final(self).tokens() == old(self).tokens().push(token)
                &&& q == OutlineQuery::FirstChild(Some(token))
            },
            old(self).depth() == MAX_OUTLINE_DEPTH ==> {
                &&& final(self).depth() == old(self).depth()
                &&& final(self).tokens() == old(self).tokens()
                &&& q == OutlineQuery::NextSibling(token)
            },
    {
        let ghost rec = OutlineRec {
            depth: self.stack@.len(),
            title: title@,
            page_index: page_index as int,
        };
        let depth = self.stack.len();
        self.trace = Ghost(self.trace@.push(rec));
        if depth < MAX_OUTLINE_DEPTH as usize {
            let frame = PendingFrame { token, title, page_index, children: Vec::new() };
            proof {
                lemma_pending_flatten_push(old(self).stack@, frame, 0);
                assert(flatten_nodes(frame.children@, (depth + 1) as nat) =~= Seq::<
                    OutlineRec,
                >::empty());
                assert(old(self).trace@.push(rec) =~= old(self).trace@ + seq![rec]);
                assert(flatten_nodes(old(self).roots@, 0) + (pending_flatten(old(self).stack@, 0)
                    + seq![rec]) =~= (flatten_nodes(old(self).roots@, 0) + pending_flatten(
                    old(self).stack@,
                    0,
                )) + seq![rec]);
                assert(seq![frame_rec(frame, depth as nat)] + flatten_nodes(
                    frame.children@,
                    (depth + 1) as nat,
                ) =~= seq![rec]);
            }
            self.stack.push(frame);
            proof {
                assert(self.tokens() =~= old(self).tokens().push(token));
            }
            OutlineQuery::FirstChild(Some(token))
        } else {
            let leaf = BookmarkNode { title, page_index, children: Vec::new() };
            proof {
                assert(self.stack@.len() == MAX_OUTLINE_DEPTH);
            }
            let last = depth - 1;
            let ghost old_stack = self.stack@;
            let top = &mut self.stack[last];
            let ghost old_frame = *top;
            top.children.push(leaf);
            proof {
                let new_frame = *top;
                assert(self.stack@ =~= old_stack.update(last as int, new_frame));
                lemma_pending_update_last_append(old_stack, new_frame, leaf, 0);
                assert(flatten_node(leaf, (old_stack.len() - 1 + 1) as nat) =~= seq![rec]);
                assert(flatten_nodes(old(self).roots@, 0) + (pending_flatten(old_stack, 0)
                    + flatten_node(leaf, old_stack.len() as nat)) =~= (flatten_nodes(
                    old(self).roots@,
                    0,
                ) + pending_flatten(old_stack, 0)) + seq![rec]);
                assert(old(self).trace@.push(rec) =~= old(self).trace@ + seq![rec]);
                assert(self.tokens() =~= old(self).tokens());
            }
            OutlineQuery::NextSibling(token)
        }
    }

    /// Feed the machine a null answer: the current sibling run is over. The
    /// deepest open node completes with the children collected so far and
    /// its own next sibling is asked for; a null at the root level finishes
    /// the walk. Nothing new is recorded.
    pub fn on_null(&mut self) -> (q: OutlineQuery)
        requires
            old(self).wf(),
            !old(self).is_finished(),
        ensures
            final(self).wf(),
            final(self).emitted() == old(self).emitted(),
            old(self).depth() == 0 ==> {
                &&& final(self).is_finished()
                &&& q == OutlineQuery::Finished
            },
            old(self).depth() > 0 ==> {
                &&& !final(self).is_finished()
                &&& final(self).depth() == old(self).depth() - 1
                &&& final(self).tokens() == old(self).tokens().drop_last()
                &&& q == OutlineQuery::NextSibling(old(self).top_token())
            },
    {
        if self.stack.len() == 0 {
            self.finished = true;
            OutlineQuery::Finished
        } else {
            let ghost old_stack = self.stack@;
            let frame = self.stack.pop().unwrap();
            let node = BookmarkNode {
                title: frame.title,
                page_index: frame.page_index,
                children: frame.children,
            };
            proof {
                assert(old_stack.drop_last() =~= self.stack@);
                lemma_pending_flatten_decompose(old_stack, 0);
                assert(node == frame_node(old_stack.last()));
            }
            let token = frame.token;
            let new_len = self.stack.len();
            if new_len == 0 {
                let ghost old_roots = self.roots@;
                self.roots.push(node);
                proof {
                    lemma_flatten_nodes_push(old_roots, node, 0);
                    assert(pending_flatten(self.stack@, 0) =~= Seq::<OutlineRec>::empty());
                    lemma_flatten_node_unfold(node, 0);
                    assert(flatten_nodes(self.roots@, 0) + pending_flatten(self.stack@, 0) =~= (
                    flatten_nodes(old_roots, 0) + pending_flatten(old_stack, 0)));
                    assert(self.tokens() =~= old(self).tokens().drop_last());
                }
                OutlineQuery::NextSibling(token)
            } else {
                let last = new_len - 1;
                let ghost mid_stack = self.stack@;
                let top = &mut self.stack[last];
                top.children.push(node);
                proof {
                    let new_frame = *top;
                    assert(self.stack@ =~= mid_stack.update(last as int, new_frame));
                    lemma_pending_update_last_append(mid_stack, new_frame, node, 0);
                    lemma_flatten_node_unfold(node, mid_stack.len() as nat);
                    assert(flatten_nodes(self.roots@, 0) + (pending_flatten(mid_stack, 0)
                        + flatten_node(node, mid_stack.len() as nat)) =~= (flatten_nodes(
                        self.roots@,
                        0,
                    ) + pending_flatten(old_stack, 0)));
                    assert(self.tokens() =~= old(self).tokens().drop_last());
                }
                OutlineQuery::NextSibling(token)
            }
        }
    }

    /// Collect the finished tree. Its pre-order flattening is exactly the
    /// sequence of nodes as they were reported: sibling order is preserved
    /// and every recorded depth respects the cap.
    pub fn into_roots(self) -> (r: Vec<BookmarkNode>)
        requires
            self.wf(),
            self.is_finished(),
        ensures
            flatten_nodes(r@, 0) == self.emitted(),
            forall|i: int|
                0 <= i < self.emitted().len() ==> #[trigger] self.emitted()[i].depth
                    <= MAX_OUTLINE_DEPTH,
    {
        proof {
            assert(pending_flatten(self.stack@, 0) =~= Seq::<OutlineRec>::empty());
            assert(flatten_nodes(self.roots@, 0) + Seq::<OutlineRec>::empty() =~= flatten_nodes(
                self.roots@,
                0,
            ));
        }
        self.roots
    }
}

/// The outline walk never records a node deeper than the cap: the depth
/// bound holds of every record the machine has emitted.
pub proof fn lemma_outline_depth_capped(w: OutlineWalk)
    requires
        w.wf(),
    ensures
        forall|i: int|
            0 <= i < w.emitted().len() ==> #[trigger] w.emitted()[i].depth <= MAX_OUTLINE_DEPTH,
{
}

/// Unfold one node's flattening: its own record, then its children.
proof fn lemma_flatten_node_unfold(n: BookmarkNode, d: nat)
    ensures
        flatten_node(n, d) == seq![
            OutlineRec { depth: d, title: n.title@, page_index: n.page_index as int },
        ] + flatten_nodes(n.children@, (d + 1) as nat),
{
}

/// Appending a node to a sibling list appends its flattening.
proof fn lemma_flatten_nodes_push(s: Seq<BookmarkNode>, n: BookmarkNode, d: nat)
    ensures
        flatten_nodes(s.push(n), d) == flatten_nodes(s, d) + flatten_node(n, d),
    decreases s.len(),
{
    if s.len() == 0 {
        assert(s.push(n)[0] == n);
        assert(s.push(n).skip(1) =~= Seq::<BookmarkNode>::empty());
        assert(flatten_nodes(Seq::<BookmarkNode>::empty(), d) == Seq::<OutlineRec>::empty());
        assert(flatten_node(n, d) + Seq::<OutlineRec>::empty() =~= flatten_node(n, d));
        assert(flatten_nodes(s.push(n), d) =~= flatten_node(n, d));
        assert(flatten_nodes(s, d) + flatten_node(n, d) =~= flatten_node(n, d));
    } else {
        assert(s.push(n)[0] == s[0]);
        assert(s.push(n).skip(1) =~= s.skip(1).push(n));
        lemma_flatten_nodes_push(s.skip(1), n, d);
        assert(flatten_node(s[0], d) + (flatten_nodes(s.skip(1), d) + flatten_node(n, d)) =~= (
        flatten_node(s[0], d) + flatten_nodes(s.skip(1), d)) + flatten_node(n, d));
    }
}

/// Appending a fresh frame appends its record and its (so far collected)
/// children's flattening.
proof fn lemma_pending_flatten_push(s: Seq<PendingFrame>, f: PendingFrame, d: nat)
    ensures
        pending_flatten(s.push(f), d) == pending_flatten(s, d) + (seq![
            frame_rec(f, (d + s.len()) as nat),
        ] + flatten_nodes(f.children@, (d + s.len() + 1) as nat)),
    decreases s.len(),
{
    if s.len() == 0 {
        assert(s.push(f)[0] == f);
        assert(s.push(f).skip(1) =~= Seq::<PendingFrame>::empty());
        assert(pending_flatten(Seq::<PendingFrame>::empty(), (d + 1) as nat) == Seq::<
            OutlineRec,
        >::empty());
        assert((seq![frame_rec(f, d)] + flatten_nodes(f.children@, (d + 1) as nat)) + Seq::<
            OutlineRec,
        >::empty() =~= seq![frame_rec(f, d)] + flatten_nodes(f.children@, (d + 1) as nat));
        assert(pending_flatten(s.push(f), d) =~= seq![frame_rec(f, d)] + flatten_nodes(
            f.children@,
            (d + 1) as nat,
        ));
        assert(pending_flatten(s, d) + (seq![frame_rec(f, d)] + flatten_nodes(
            f.children@,
            (d + 1) as nat,
        )) =~= seq![frame_rec(f, d)] + flatten_nodes(f.children@, (d + 1) as nat));
    } else {
        assert(s.push(f)[0] == s[0]);
        assert(s.push(f).skip(1) =~= s.skip(1).push(f));
        lemma_pending_flatten_push(s.skip(1), f, (d + 1) as nat);
        assert((seq![frame_rec(s[0], d)] + flatten_nodes(s[0].children@, (d + 1) as nat)) + (
        pending_flatten(s.skip(1), (d + 1) as nat) + (seq![
            frame_rec(f, (d + s.len()) as nat),
        ] + flatten_nodes(f.children@, (d + s.len() + 1) as nat))) =~= ((seq![
            frame_rec(s[0], d),
        ] + flatten_nodes(s[0].children@, (d + 1) as nat)) + pending_flatten(
            s.skip(1),
            (d + 1) as nat,
        )) + (seq![frame_rec(f, (d + s.len()) as nat)] + flatten_nodes(
            f.children@,
            (d + s.len() + 1) as nat,
        )));
    }
}

/// Decompose the open frames into all but the deepest, then the deepest
/// frame's record and children.
proof fn lemma_pending_flatten_decompose(s: Seq<PendingFrame>, d: nat)
    requires
        s.len() > 0,
    ensures
        pending_flatten(s, d) == pending_flatten(s.drop_last(), d) + (seq![
            frame_rec(s.last(), (d + s.len() - 1) as nat),
        ] + flatten_nodes(s.last().children@, (d + s.len()) as nat)),
{
    assert(s =~= s.drop_last().push(s.last()));
    lemma_pending_flatten_push(s.drop_last(), s.last(), d);
}

/// Replacing the deepest frame by a copy with one node appended to its
/// children appends that node's flattening to the whole.
proof fn lemma_pending_update_last_append(
    s: Seq<PendingFrame>,
    f2: PendingFrame,
    n: BookmarkNode,
    d: nat,
)
    requires
        s.len() > 0,
        f2.token == s.last().token,
        f2.title == s.last().title,
        f2.page_index == s.last().page_index,
        f2.children@ == s.last().children@.push(n),
    ensures
        pending_flatten(s.update(s.len() - 1, f2), d) == pending_flatten(s, d) + flatten_node(
            n,
            (d + s.len()) as nat,
        ),
{
    let s2 = s.update(s.len() - 1, f2);
    assert(s2.len() == s.len());
    assert(s2.drop_last() =~= s.drop_last());
    assert(s2.last() == f2);
    lemma_pending_flatten_decompose(s, d);
    lemma_pending_flatten_decompose(s2, d);
    lemma_flatten_nodes_push(s.last().children@, n, (d + s.len()) as nat);
    assert(frame_rec(f2, (d + s.len() - 1) as nat) == frame_rec(s.last(), (d + s.len() - 1) as nat));
    assert(pending_flatten(s.drop_last(), d) + (seq![frame_rec(s.last(), (d + s.len() - 1) as nat)]
        + (flatten_nodes(s.last().children@, (d + s.len()) as nat) + flatten_node(
        n,
        (d + s.len()) as nat,
    ))) =~= (pending_flatten(s.drop_last(), d) + (seq![
        frame_rec(s.last(), (d + s.len() - 1) as nat),
    ] + flatten_nodes(s.last().children@, (d + s.len()) as nat))) + flatten_node(
        n,
        (d + s.len()) as nat,
    ));
}

} // verus!
