//! The opaque-handle table: small unsigned integers standing in for native
//! resource references.
//!
//! Handles are issued monotonically starting at 1 (0 is never valid) and are
//! never reused for the lifetime of the table. Each live handle is tagged
//! with a resource kind; a lookup distinguishes a handle that was never
//! issued or was already removed (`NotFound`) from one that names a resource
//! of a different kind (`WrongKind`). A document entry additionally retains
//! the exact byte buffer the document was constructed from, so the native
//! library never reads freed memory.

use vstd::prelude::*;

verus! {

/// The kind tag of a native resource held in the table.
#[derive(Clone, Copy, Debug, PartialEq, Eq, Structural)]
pub enum ResourceKind {
    Document,
    Page,
    TextPage,
}

/// A tagged native resource reference. The `native_ref` is an opaque token
/// chosen by the caller that issued the resource (outside this crate it is
/// the address of the native object); the table never interprets it.
/// A document entry owns the byte buffer its document was loaded from.
#[derive(Debug, PartialEq, Eq)]
pub enum Entry {
    Document { native_ref: u64, data: Vec<u8> },
    Page { native_ref: u64 },
    TextPage { native_ref: u64 },
}

impl Entry {
    /// The kind tag of this entry.
    pub open spec fn kind(self) -> ResourceKind {
        match self {
            Entry::Document { .. } => ResourceKind::Document,
            Entry::Page { .. } => ResourceKind::Page,
            Entry::TextPage { .. } => ResourceKind::TextPage,
        }
    }

    /// The opaque native reference token of this entry.
    pub open spec fn native_ref_spec(self) -> u64 {
        match self {
            Entry::Document { native_ref, .. } => native_ref,
            Entry::Page { native_ref } => native_ref,
            Entry::TextPage { native_ref } => native_ref,
        }
    }

    /// Executable access to the native reference token.
    pub fn native_ref(&self) -> (r: u64)
        ensures
            r == self.native_ref_spec(),
    {
        match self {
            Entry::Document { native_ref, .. } => *native_ref,
            Entry::Page { native_ref } => *native_ref,
            Entry::TextPage { native_ref } => *native_ref,
        }
    }

    /// Executable access to the kind tag.
    pub fn kind_tag(&self) -> (k: ResourceKind)
        ensures
            k == self.kind(),
    {
        match self {
            Entry::Document { .. } => ResourceKind::Document,
            Entry::Page { .. } => ResourceKind::Page,
            Entry::TextPage { .. } => ResourceKind::TextPage,
        }
    }
}

/// Why a handle lookup failed: the handle was never issued or was already
/// removed (`NotFound`), or it names a resource of a different kind
/// (`WrongKind`). Callers rely on the distinction for diagnostics.
#[derive(Clone, Copy, Debug, PartialEq, Eq, Structural)]
pub enum HandleError {
    NotFound,
    WrongKind,
}

/// The handle table. Slot `h - 1` holds the entry for handle `h`; a removed
/// handle leaves a vacant slot behind so the value is never reissued.
pub struct HandleTable {
    slots: Vec<Option<Entry>>,
}

impl HandleTable {
    /// How many handles have ever been issued; the next handle is one more.
    pub closed spec fn issued_count(self) -> nat {
        self.slots@.len()
    }

    /// True of every handle value this table has ever returned.
    pub open spec fn is_issued(self, h: u32) -> bool {
        1 <= h && h <= self.issued_count()
    }

    /// True while `h` names a resource that has not been removed.
    pub closed spec fn is_live(self, h: u32) -> bool {
        self.is_issued(h) && self.slots@[h - 1] is Some
    }

    /// The entry a live handle names.
    pub closed spec fn entry_of(self, h: u32) -> Entry
        recommends
            self.is_live(h),
    {
        self.slots@[h - 1]->0
    }

    /// What a lookup of `h` expecting `kind` reports.
    pub open spec fn resolve_model(self, h: u32, kind: ResourceKind) -> Result<u64, HandleError> {
        if !self.is_live(h) {
            Err(HandleError::NotFound)
        } else if self.entry_of(h).kind() != kind {
            Err(HandleError::WrongKind)
        } else {
            Ok(self.entry_of(h).native_ref_spec())
        }
    }

    /// Relates a table to its state after `allocate` returned `h` for `e`.
    pub open spec fn allocated(pre: HandleTable, post: HandleTable, h: u32, e: Entry) -> bool {
        &&& h == pre.issued_count() + 1
        &&& post.issued_count() == pre.issued_count() + 1
        &&& post.is_live(h)
        &&& post.entry_of(h) == e
        &&& forall|h2: u32|
            h2 != h ==> post.is_live(h2) == pre.is_live(h2) && (pre.is_live(h2)
                ==> post.entry_of(h2) == pre.entry_of(h2))
    }

    /// Relates a table to its state after `remove` succeeded on `h`.
    pub open spec fn removed(pre: HandleTable, post: HandleTable, h: u32) -> bool {
        &&& pre.is_live(h)
        &&& !post.is_live(h)
        &&& post.issued_count() == pre.issued_count()
        &&& forall|h2: u32|
            h2 != h ==> post.is_live(h2) == pre.is_live(h2) && (pre.is_live(h2)
                ==> post.entry_of(h2) == pre.entry_of(h2))
    }

    /// How many handles this table has issued so far.
    pub fn issued_handles(&self) -> (n: usize)
        ensures
            n == self.issued_count(),
    {
        self.slots.len()
    }

    /// An empty table; no handle has been issued yet.
    pub fn new() -> (t: HandleTable)
        ensures
            t.issued_count() == 0,
            forall|h: u32| !t.is_live(h),
    {
        HandleTable { slots: Vec::new() }
    }

    /// Issue the next unused handle for `entry`. Never fails; the bound on
    /// the number of issued handles is forced by the handle width alone.
    pub fn allocate(&mut self, entry: Entry) -> (h: u32)
        requires
            old(self).issued_count() < u32::MAX,
        ensures
            HandleTable::allocated(*old(self), *final(self), h, entry),
            h >= 1,
    {
        let len = self.slots.len();
        self.slots.push(Some(entry));
        let h = (len + 1) as u32;
        assert(self.slots@[h - 1] is Some);
        h
    }

    /// Look up `h`, expecting a resource of `kind`; report the native
    /// reference, or exactly why the lookup failed.
    pub fn resolve(&self, h: u32, kind: ResourceKind) -> (r: Result<u64, HandleError>)
        ensures
            r == self.resolve_model(h, kind),
    {
        if h == 0 || h as usize > self.slots.len() {
            return Err(HandleError::NotFound);
        }
        let idx = (h - 1) as usize;
        match &self.slots[idx] {
            None => Err(HandleError::NotFound),
            Some(entry) => {
                if entry.kind_tag() == kind {
                    Ok(entry.native_ref())
                } else {
                    Err(HandleError::WrongKind)
                }
            },
        }
    }

    /// Remove `h` from the table, expecting a resource of `kind`, and hand
    /// the entry back (for a document: the native reference and the retained
    /// byte buffer, which the caller must release only after the native
    /// close). On failure the table is unchanged.
    pub fn remove(&mut self, h: u32, kind: ResourceKind) -> (r: Result<Entry, HandleError>)
        ensures
            match r {
                Ok(e) => {
                    &&& HandleTable::removed(*old(self), *final(self), h)
                    &&& e == old(self).entry_of(h)
                    &&& e.kind() == kind
                },
                Err(err) => {
                    &&& *final(self) == *old(self)
                    &&& err == HandleError::NotFound <==> !old(self).is_live(h)
                    &&& err == HandleError::WrongKind <==> old(self).is_live(h) && old(
                        self,
                    ).entry_of(h).kind() != kind
                },
            },
    {
        if h == 0 || h as usize > self.slots.len() {
            return Err(HandleError::NotFound);
        }
        let idx = (h - 1) as usize;
        let wrong = match &self.slots[idx] {
            None => {
                return Err(HandleError::NotFound);
            },
            Some(entry) => entry.kind_tag() != kind,
        };
        if wrong {
            return Err(HandleError::WrongKind);
        }
        let slot = &mut self.slots[idx];
        let taken = slot.take();
        assert(self.slots@ =~= old(self).slots@.update(idx as int, None));
        match taken {
            Some(e) => Ok(e),
            None => Err(HandleError::NotFound),
        }
    }
}

/// A handle just issued is distinct from every handle that was live before,
/// however many allocations and removals came earlier: issuance is monotonic,
/// so a value is never reused while the table still references it.
pub proof fn lemma_fresh_handle_never_reused(pre: HandleTable, post: HandleTable, h: u32, e: Entry)
    requires
        HandleTable::allocated(pre, post, h, e),
    ensures
        forall|h2: u32| pre.is_live(h2) ==> h2 != h,
{
}

/// After a handle is removed, every later lookup of that value reports
/// `NotFound`, whatever kind it asks for.
pub proof fn lemma_removed_handle_not_found(pre: HandleTable, post: HandleTable, h: u32)
    requires
        HandleTable::removed(pre, post, h),
    ensures
        forall|kind: ResourceKind| post.resolve_model(h, kind) == Err::<u64, HandleError>(
            HandleError::NotFound,
        ),
{
}

/// While a handle stays live, looking it up with the kind it was issued for
/// succeeds and reports the native reference it was allocated with.
pub proof fn lemma_live_handle_resolves(pre: HandleTable, post: HandleTable, h: u32, e: Entry)
    requires
        HandleTable::allocated(pre, post, h, e),
    ensures
        post.resolve_model(h, e.kind()) == Ok::<u64, HandleError>(e.native_ref_spec()),
{
}

} // verus!
