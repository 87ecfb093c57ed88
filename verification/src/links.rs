//! Link resolution: a page's links are enumerated by the native library's
//! own cursor; for each link the bridge reads its rectangle, classifies its
//! action by type code (URI for type 3, file path for types 2 and 4),
//! resolves a destination — the link's direct destination first, the
//! action's destination as fallback — and, when one exists, its page index,
//! fit classification and optional location parts.
//!
//! As with the outline walk, the logic is a step machine: the machine owns
//! every decision about what to read next and how to assemble the
//! descriptor, and the caller merely performs the native reads it asks
//! for. Native object handles travel as opaque tokens where 0 stands for a
//! null reference; single-precision geometry travels as IEEE-754 bit
//! patterns.

use vstd::prelude::*;

verus! {

/// A fully resolved link descriptor. Geometry fields hold IEEE-754
/// single-precision bit patterns.
#[derive(Debug, PartialEq, Eq)]
pub struct LinkInfo {
    pub index: i32,
    pub left: u32,
    pub bottom: u32,
    pub right: u32,
    pub top: u32,
    pub has_action: bool,
    pub action_type: u32,
    pub uri: Option<String>,
    pub file_path: Option<String>,
    pub has_dest: bool,
    pub dest_page_index: i32,
    pub dest_fit_type: u32,
    pub has_x: bool,
    pub has_y: bool,
    pub has_zoom: bool,
    pub x: u32,
    pub y: u32,
    pub zoom: u32,
}

/// The native read the machine asks the caller to perform next. Tokens
/// name the native object to read from.
#[derive(Clone, Copy, Debug, PartialEq, Eq)]
pub enum LinkQuery {
    /// Advance the native link enumeration cursor.
    Enumerate,
    /// Read the link's annotation rectangle.
    AnnotRect(u64),
    /// Ask for the link's action object.
    Action(u64),
    /// Read the action's type code.
    ActionType(u64),
    /// Fetch the action's URI (8-bit field, two-phase protocol).
    UriPath(u64),
    /// Fetch the action's file path (8-bit field, two-phase protocol).
    FilePath(u64),
    /// Ask for the link's direct destination.
    LinkDest(u64),
    /// Ask for the action's destination (fallback).
    ActionDest(u64),
    /// Read the destination's page index.
    DestPageIndex(u64),
    /// Read the destination's fit classification.
    DestView(u64),
    /// Read the destination's optional x/y/zoom location.
    DestLocation(u64),
    /// The enumeration is over; collect the list with `into_results`.
    Finished,
}

enum Stage {
    AwaitLink,
    AwaitRect { link: u64 },
    AwaitAction { link: u64 },
    AwaitActionType { link: u64, action: u64 },
    AwaitUri { link: u64, action: u64 },
    AwaitFilePath { link: u64, action: u64 },
    AwaitLinkDest { link: u64, action: u64 },
    AwaitActionDest { action: u64 },
    AwaitPageIndex { dest: u64 },
    AwaitView { dest: u64 },
    AwaitLocation { dest: u64 },
    Done,
}

/// A descriptor with nothing resolved yet, at the given enumeration index.
pub open spec fn fresh_link(index: int) -> LinkInfo {
    LinkInfo {
        index: index as i32,
        left: 0,
        bottom: 0,
        right: 0,
        top: 0,
        has_action: false,
        action_type: 0,
        uri: None,
        file_path: None,
        has_dest: false,
        dest_page_index: -1i32,
        dest_fit_type: 0,
        has_x: false,
        has_y: false,
        has_zoom: false,
        x: 0,
        y: 0,
        zoom: 0,
    }
}

/// The link resolution state machine.
pub struct LinkWalk {
    stage: Stage,
    cur: LinkInfo,
    out: Vec<LinkInfo>,
}

impl LinkWalk {
    /// The query the machine is waiting on.
    pub closed spec fn expected(self) -> LinkQuery {
        match self.stage {
            Stage::AwaitLink => LinkQuery::Enumerate,
            Stage::AwaitRect { link } => LinkQuery::AnnotRect(link),
            Stage::AwaitAction { link } => LinkQuery::Action(link),
            Stage::AwaitActionType { action, .. } => LinkQuery::ActionType(action),
            Stage::AwaitUri { action, .. } => LinkQuery::UriPath(action),
            Stage::AwaitFilePath { action, .. } => LinkQuery::FilePath(action),
            Stage::AwaitLinkDest { link, .. } => LinkQuery::LinkDest(link),
            Stage::AwaitActionDest { action } => LinkQuery::ActionDest(action),
            Stage::AwaitPageIndex { dest } => LinkQuery::DestPageIndex(dest),
            Stage::AwaitView { dest } => LinkQuery::DestView(dest),
            Stage::AwaitLocation { dest } => LinkQuery::DestLocation(dest),
            Stage::Done => LinkQuery::Finished,
        }
    }

    /// The descriptor currently being assembled.
    pub closed spec fn current(self) -> LinkInfo {
        self.cur
    }

    /// The token of the link whose descriptor is being assembled (0 when
    /// no descriptor is under assembly).
    pub closed spec fn pending_link(self) -> u64 {
        match self.stage {
            Stage::AwaitRect { link } => link,
            Stage::AwaitAction { link } => link,
            Stage::AwaitActionType { link, .. } => link,
            Stage::AwaitUri { link, .. } => link,
            Stage::AwaitFilePath { link, .. } => link,
            Stage::AwaitLinkDest { link, .. } => link,
            _ => 0,
        }
    }

    /// The token of the pending link's action (0 when the link has none or
    /// the action is no longer needed).
    pub closed spec fn pending_action(self) -> u64 {
        match self.stage {
            Stage::AwaitActionType { action, .. } => action,
            Stage::AwaitUri { action, .. } => action,
            Stage::AwaitFilePath { action, .. } => action,
            Stage::AwaitLinkDest { action, .. } => action,
            Stage::AwaitActionDest { action } => action,
            _ => 0,
        }
    }

    /// The descriptors completed so far, in enumeration order.
    pub closed spec fn results(self) -> Seq<LinkInfo> {
        self.out@
    }

    /// The machine's invariant: completed descriptors carry their position
    /// as index, and a descriptor under assembly carries the next one.
    pub closed spec fn wf(self) -> bool {
        &&& forall|i: int| 0 <= i < self.out@.len() ==> #[trigger] self.out@[i].index == i
        &&& !(self.stage is AwaitLink) && !(self.stage is Done) ==> self.cur.index
            == self.out@.len()
    }

    /// How many descriptors have been completed so far.
    pub fn result_count(&self) -> (n: usize)
        ensures
            n == self.results().len(),
    {
        self.out.len()
    }

    /// Begin resolving a page's links: first advance the cursor.
    pub fn new() -> (r: (LinkWalk, LinkQuery))
        ensures
            r.0.wf(),
            r.0.expected() == LinkQuery::Enumerate,
            r.0.results() == Seq::<LinkInfo>::empty(),
            r.1 == LinkQuery::Enumerate,
    {
        let w = LinkWalk { stage: Stage::AwaitLink, cur: fresh_link_exec(0), out: Vec::new() };
        (w, LinkQuery::Enumerate)
    }

    /// The cursor produced a link (token 0 is a null reference, which the
    /// bridge skips and enumerates on). A real link starts a fresh
    /// descriptor, indexed in completion order, and its rectangle is read
    /// first.
    pub fn on_link(&mut self, token: u64) -> (q: LinkQuery)
        requires
            old(self).wf(),
            old(self).expected() == LinkQuery::Enumerate,
            old(self).results().len() < i32::MAX,
        ensures
            final(self).wf(),
            final(self).results() == old(self).results(),
            q == final(self).expected(),
            token == 0 ==> q == LinkQuery::Enumerate,
            token != 0 ==> {
                &&& q == LinkQuery::AnnotRect(token)
                &&& final(self).current() == fresh_link(old(self).results().len() as int)
                &&& final(self).pending_link() == token
            },
    {
        if token == 0 {
            self.stage = Stage::AwaitLink;
            LinkQuery::Enumerate
        } else {
            self.cur = fresh_link_exec(self.out.len() as i32);
            self.stage = Stage::AwaitRect { link: token };
            LinkQuery::AnnotRect(token)
        }
    }

    /// The cursor is exhausted: the walk is complete.
    pub fn on_end(&mut self) -> (q: LinkQuery)
        requires
            old(self).wf(),
            old(self).expected() == LinkQuery::Enumerate,
        ensures
            final(self).wf(),
            final(self).results() == old(self).results(),
            q == LinkQuery::Finished,
            final(self).expected() == LinkQuery::Finished,
    {
        self.stage = Stage::Done;
        LinkQuery::Finished
    }

    /// The rectangle read came back. The native rectangle's fields land in
    /// the caller-facing order the bridge has always reported: its `left`
    /// and `right` keep their places while its `top` fills the
    /// descriptor's `bottom` and its `bottom` the descriptor's `top`. A
    /// failed read leaves all four zero. The link's action is asked for
    /// next.
    pub fn on_rect(&mut self, has_rect: bool, left: u32, top: u32, right: u32, bottom: u32) -> (q:
        LinkQuery)
        requires
            old(self).wf(),
            old(self).expected() matches LinkQuery::AnnotRect(_),
        ensures
            final(self).wf(),
            final(self).results() == old(self).results(),
            q == final(self).expected(),
            final(self).current() == (LinkInfo {
                left: if has_rect {
                    left
                } else {
                    0
                },
                bottom: if has_rect {
                    top
                } else {
                    0
                },
                right: if has_rect {
                    right
                } else {
                    0
                },
                top: if has_rect {
                    bottom
                } else {
                    0
                },
                ..old(self).current()
            }),
            final(self).pending_link() == old(self).pending_link(),
            q == LinkQuery::Action(old(self).pending_link()),
    {
        let link = match &self.stage {
            Stage::AwaitRect { link } => *link,
            _ => 0,
        };
        if has_rect {
            self.cur.left = left;
            self.cur.bottom = top;
            self.cur.right = right;
            self.cur.top = bottom;
        } else {
            self.cur.left = 0;
            self.cur.bottom = 0;
            self.cur.right = 0;
            self.cur.top = 0;
        }
        self.stage = Stage::AwaitAction { link };
        LinkQuery::Action(link)
    }

    /// The action lookup came back (token 0: the link has no action). With
    /// an action present its type code is read next; otherwise the
    /// machine goes straight to the link's direct destination.
    pub fn on_action(&mut self, action: u64) -> (q: LinkQuery)
        requires
            old(self).wf(),
            old(self).expected() matches LinkQuery::Action(_),
        ensures
            final(self).wf(),
            final(self).results() == old(self).results(),
            q == final(self).expected(),
            final(self).current() == (LinkInfo {
                has_action: action != 0,
                ..old(self).current()
            }),
            final(self).pending_link() == old(self).pending_link(),
            final(self).pending_action() == action,
            action != 0 ==> q == LinkQuery::ActionType(action),
            action == 0 ==> q == LinkQuery::LinkDest(old(self).pending_link()),
    {
        let link = match &self.stage {
            Stage::AwaitAction { link } => *link,
            _ => 0,
        };
        if action != 0 {
            self.cur.has_action = true;
            self.stage = Stage::AwaitActionType { link, action };
            LinkQuery::ActionType(action)
        } else {
            self.cur.has_action = false;
            self.stage = Stage::AwaitLinkDest { link, action: 0 };
            LinkQuery::LinkDest(link)
        }
    }

    /// The action's type code came back. Type 3 carries a URI and types 2
    /// and 4 a file path, fetched next; any other type carries neither and
    /// the machine moves on to the link's direct destination.
    pub fn on_action_type(&mut self, code: u32) -> (q: LinkQuery)
        requires
            old(self).wf(),
            old(self).expected() matches LinkQuery::ActionType(_),
        ensures
            final(self).wf(),
            final(self).results() == old(self).results(),
            q == final(self).expected(),
            final(self).current() == (LinkInfo { action_type: code, ..old(self).current() }),
            final(self).pending_link() == old(self).pending_link(),
            final(self).pending_action() == old(self).pending_action(),
            code == 3 ==> q == LinkQuery::UriPath(old(self).pending_action()),
            code == 2 || code == 4 ==> q == LinkQuery::FilePath(old(self).pending_action()),
            !(code == 2 || code == 3 || code == 4) ==> q == LinkQuery::LinkDest(
                old(self).pending_link(),
            ),
    {
        let (link, action) = match &self.stage {
            Stage::AwaitActionType { link, action } => (*link, *action),
            _ => (0, 0),
        };
        self.cur.action_type = code;
        if code == 3 {
            self.stage = Stage::AwaitUri { link, action };
            LinkQuery::UriPath(action)
        } else if code == 2 || code == 4 {
            self.stage = Stage::AwaitFilePath { link, action };
            LinkQuery::FilePath(action)
        } else {
            self.stage = Stage::AwaitLinkDest { link, action };
            LinkQuery::LinkDest(link)
        }
    }

    /// The URI fetch came back (already marshaled: absent or decoded). The
    /// link's direct destination is asked for next.
    pub fn on_uri(&mut self, uri: Option<String>) -> (q: LinkQuery)
        requires
            old(self).wf(),
            old(self).expected() matches LinkQuery::UriPath(_),
        ensures
            final(self).wf(),
            final(self).results() == old(self).results(),
            q == final(self).expected(),
            final(self).current() == (LinkInfo { uri, ..old(self).current() }),
            final(self).pending_link() == old(self).pending_link(),
            final(self).pending_action() == old(self).pending_action(),
            q == LinkQuery::LinkDest(old(self).pending_link()),
    {
        let (link, action) = match &self.stage {
            Stage::AwaitUri { link, action } => (*link, *action),
            _ => (0, 0),
        };
        self.cur.uri = uri;
        self.stage = Stage::AwaitLinkDest { link, action };
        LinkQuery::LinkDest(link)
    }

    /// The file-path fetch came back. The link's direct destination is
    /// asked for next.
    pub fn on_file_path(&mut self, file_path: Option<String>) -> (q: LinkQuery)
        requires
            old(self).wf(),
            old(self).expected() matches LinkQuery::FilePath(_),
        ensures
            final(self).wf(),
            final(self).results() == old(self).results(),
            q == final(self).expected(),
            final(self).current() == (LinkInfo { file_path, ..old(self).current() }),
            final(self).pending_link() == old(self).pending_link(),
            final(self).pending_action() == old(self).pending_action(),
            q == LinkQuery::LinkDest(old(self).pending_link()),
    {
        let (link, action) = match &self.stage {
            Stage::AwaitFilePath { link, action } => (*link, *action),
            _ => (0, 0),
        };
        self.cur.file_path = file_path;
        self.stage = Stage::AwaitLinkDest { link, action };
        LinkQuery::LinkDest(link)
    }

    /// The link's direct destination lookup came back (token 0: none). A
    /// destination proceeds to its page index; without one the action's
    /// destination is the fallback when an action exists, and otherwise
    /// the descriptor completes with no destination.
    pub fn on_link_dest(&mut self, dest: u64) -> (q: LinkQuery)
        requires
            old(self).wf(),
            old(self).expected() matches LinkQuery::LinkDest(_),
        ensures
            final(self).wf(),
            q == final(self).expected(),
            dest != 0 ==> {
                &&& final(self).results() == old(self).results()
                &&& final(self).current() == (LinkInfo { has_dest: true, ..old(self).current() })
                &&& q == LinkQuery::DestPageIndex(dest)
            },
            dest == 0 && old(self).current().has_action ==> {
                &&& final(self).results() == old(self).results()
                &&& final(self).current() == old(self).current()
                &&& q == LinkQuery::ActionDest(old(self).pending_action())
            },
            dest == 0 && !old(self).current().has_action ==> {
                &&& final(self).results() == old(self).results().push(old(self).current())
                &&& q == LinkQuery::Enumerate
            },
    {
        let action = match &self.stage {
            Stage::AwaitLinkDest { link: _, action } => *action,
            _ => 0,
        };
        if dest != 0 {
            self.cur.has_dest = true;
            self.stage = Stage::AwaitPageIndex { dest };
            LinkQuery::DestPageIndex(dest)
        } else if self.cur.has_action {
            self.stage = Stage::AwaitActionDest { action };
            LinkQuery::ActionDest(action)
        } else {
            let mut done = fresh_link_exec(0);
            core::mem::swap(&mut self.cur, &mut done);
            self.out.push(done);
            self.stage = Stage::AwaitLink;
            LinkQuery::Enumerate
        }
    }

    /// The action's fallback destination lookup came back (token 0:
    /// none). A destination proceeds to its page index; without one the
    /// descriptor completes with no destination.
    pub fn on_action_dest(&mut self, dest: u64) -> (q: LinkQuery)
        requires
            old(self).wf(),
            old(self).expected() matches LinkQuery::ActionDest(_),
        ensures
            final(self).wf(),
            q == final(self).expected(),
            dest != 0 ==> {
                &&& final(self).results() == old(self).results()
                &&& final(self).current() == (LinkInfo { has_dest: true, ..old(self).current() })
                &&& q == LinkQuery::DestPageIndex(dest)
            },
            dest == 0 ==> {
                &&& final(self).results() == old(self).results().push(old(self).current())
                &&& q == LinkQuery::Enumerate
            },
    {
        if dest != 0 {
            self.cur.has_dest = true;
            self.stage = Stage::AwaitPageIndex { dest };
            LinkQuery::DestPageIndex(dest)
        } else {
            let mut done = fresh_link_exec(0);
            core::mem::swap(&mut self.cur, &mut done);
            self.out.push(done);
            self.stage = Stage::AwaitLink;
            LinkQuery::Enumerate
        }
    }

    /// The destination's page index came back; its fit classification is
    /// read next.
    pub fn on_page_index(&mut self, page_index: i32) -> (q: LinkQuery)
        requires
            old(self).wf(),
            old(self).expected() matches LinkQuery::DestPageIndex(_),
        ensures
            final(self).wf(),
            final(self).results() == old(self).results(),
            q == final(self).expected(),
            final(self).current() == (LinkInfo {
                dest_page_index: page_index,
                ..old(self).current()
            }),
            old(self).expected() matches LinkQuery::DestPageIndex(dest) ==> q
                == LinkQuery::DestView(dest),
    {
        let dest = match &self.stage {
            Stage::AwaitPageIndex { dest } => *dest,
            _ => 0,
        };
        self.cur.dest_page_index = page_index;
        self.stage = Stage::AwaitView { dest };
        LinkQuery::DestView(dest)
    }

    /// The destination's fit classification came back; its optional
    /// location parts are read last.
    pub fn on_view(&mut self, fit_type: u32) -> (q: LinkQuery)
        requires
            old(self).wf(),
            old(self).expected() matches LinkQuery::DestView(_),
        ensures
            final(self).wf(),
            final(self).results() == old(self).results(),
            q == final(self).expected(),
            final(self).current() == (LinkInfo { dest_fit_type: fit_type, ..old(self).current() }),
            old(self).expected() matches LinkQuery::DestView(dest) ==> q
                == LinkQuery::DestLocation(dest),
    {
        let dest = match &self.stage {
            Stage::AwaitView { dest } => *dest,
            _ => 0,
        };
        self.cur.dest_fit_type = fit_type;
        self.stage = Stage::AwaitLocation { dest };
        LinkQuery::DestLocation(dest)
    }

    /// The destination's location parts came back: each coordinate is kept
    /// with its presence flag, the descriptor completes, and the cursor
    /// advances to the next link.
    pub fn on_location(
        &mut self,
        has_x: bool,
        has_y: bool,
        has_zoom: bool,
        x: u32,
        y: u32,
        zoom: u32,
    ) -> (q: LinkQuery)
        requires
            old(self).wf(),
            old(self).expected() matches LinkQuery::DestLocation(_),
        ensures
            final(self).wf(),
            q == LinkQuery::Enumerate,
            q == final(self).expected(),
            final(self).results() == old(self).results().push(
                (LinkInfo { has_x, has_y, has_zoom, x, y, zoom, ..old(self).current() }),
            ),
    {
        self.cur.has_x = has_x;
        self.cur.has_y = has_y;
        self.cur.has_zoom = has_zoom;
        self.cur.x = x;
        self.cur.y = y;
        self.cur.zoom = zoom;
        let mut done = fresh_link_exec(0);
        core::mem::swap(&mut self.cur, &mut done);
        self.out.push(done);
        self.stage = Stage::AwaitLink;
        LinkQuery::Enumerate
    }

    /// Collect the finished, index-ordered descriptor list: the descriptor
    /// at each position carries that position as its index.
    pub fn into_results(self) -> (r: Vec<LinkInfo>)
        requires
            self.wf(),
            self.expected() == LinkQuery::Finished,
        ensures
            r@ == self.results(),
            forall|i: int| 0 <= i < r@.len() ==> #[trigger] r@[i].index == i,
    {
        self.out
    }
}

fn fresh_link_exec(index: i32) -> (r: LinkInfo)
    ensures
        r == fresh_link(index as int),
{
    LinkInfo {
        index,
        left: 0,
        bottom: 0,
        right: 0,
        top: 0,
        has_action: false,
        action_type: 0,
        uri: None,
        file_path: None,
        has_dest: false,
        dest_page_index: -1,
        dest_fit_type: 0,
        has_x: false,
        has_y: false,
        has_zoom: false,
        x: 0,
        y: 0,
        zoom: 0,
    }
}

} // verus!
