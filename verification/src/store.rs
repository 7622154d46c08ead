//! The table of live bundles and the counter that names them.

use crate::bundle::distinct_handles;
use crate::bundle::entries_wf;
use crate::bundle::entry_buffers;
use crate::bundle::entry_wf;
use crate::bundle::lemma_restyle_wf;
use crate::bundle::lemma_without_wf;
use crate::bundle::owned_buffers;
use crate::bundle::rebundled;
use crate::bundle::removed;
use crate::bundle::restyle;
use crate::bundle::restyle_all;
use crate::bundle::without;
use crate::bundle::BufferBundle;
use crate::bundle::BufferEntry;
use crate::bundle::BundleEntry;
use crate::bundle::BundleView;
use crate::error::RenderError;
use std::collections::HashMap;
use vstd::prelude::*;

verus! {

broadcast use vstd::std_specs::hash::group_hash_axioms;

/// Owns every live bundle. Handles count up from zero and are never given
/// out twice, whatever was disposed in between.
pub struct BundleStore {
    counter: usize,
    bundles: HashMap<usize, BufferBundle>,
}

impl View for BundleStore {
    type V = Map<usize, BundleView>;

    closed spec fn view(&self) -> Map<usize, BundleView> {
        Map::new(|h: usize| self.bundles@.contains_key(h), |h: usize| self.bundles@[h]@)
    }
}

/// The buffers that disposing `handle` releases from the table `m`.
pub open spec fn released(m: Map<usize, BundleView>, handle: usize) -> Seq<u64> {
    if m.contains_key(handle) {
        owned_buffers(m[handle].entries)
    } else {
        Seq::empty()
    }
}

/// The buffers of all bundles of `m` with a handle below `n`, by handle.
pub open spec fn released_below(m: Map<usize, BundleView>, n: nat) -> Seq<u64>
    decreases n,
{
    if n == 0 {
        Seq::empty()
    } else {
        released_below(m, (n - 1) as nat) + released(m, (n - 1) as usize)
    }
}

impl BundleStore {
    /// The handle that the next bundle gets.
    pub closed spec fn next_handle(&self) -> usize {
        self.counter
    }

    /// Every live handle was given out before, and every bundle is in order.
    pub open spec fn wf(&self) -> bool {
        forall|h: usize| #[trigger]
            self@.contains_key(h) ==> h < self.next_handle() && entries_wf(self@[h].entries)
    }

    /// An empty table.
    pub fn new() -> (store: BundleStore)
        ensures
            store.wf(),
            store@ == Map::<usize, BundleView>::empty(),
            store.next_handle() == 0,
    {
        let store = BundleStore { counter: 0, bundles: HashMap::new() };
        assert(store@ =~= Map::<usize, BundleView>::empty());
        store
    }

    /// The handle that the next bundle gets.
    pub fn upcoming_handle(&self) -> (h: usize)
        ensures
            h == self.next_handle(),
    {
        self.counter
    }

    /// The bundle under `handle`, if it is live.
    pub fn get(&self, handle: usize) -> (res: Option<&BufferBundle>)
        ensures
            match res {
                Some(b) => self@.contains_key(handle) && b@ == self@[handle],
                None => !self@.contains_key(handle),
            },
    {
        self.bundles.get(&handle)
    }

    /// Puts a new bundle into the table and names it.
    ///
    /// Fails only when the handles have run out; the table is then unchanged.
    pub fn create_bundle(&mut self, from: i64, to: i64, entries: Vec<BufferEntry>) -> (res: Result<
        usize,
        RenderError,
    >)
        requires
            old(self).wf(),
            entries_wf(entries@),
        ensures
            final(self).wf(),
            match res {
                Ok(handle) => {
                    &&& old(self).next_handle() < usize::MAX
                    &&& handle == old(self).next_handle()
                    &&& final(self).next_handle() == handle + 1
                    &&& !old(self)@.contains_key(handle)
                    &&& forall|h: usize| old(self)@.contains_key(h) ==> h < handle
                    &&& final(self)@ == old(self)@.insert(
                        handle,
                        (BundleView { from, to, entries: entries@ }),
                    )
                },
                Err(err) => {
                    &&& err == RenderError::ResourceExhausted
                    &&& old(self).next_handle() == usize::MAX
                    &&& final(self)@ == old(self)@
                    &&& final(self).next_handle() == old(self).next_handle()
                },
            },
    {
        if self.counter == usize::MAX {
            return Err(RenderError::ResourceExhausted);
        }
        let handle: usize = self.counter;
        let ghost before = self@;
        assert(!before.contains_key(handle));
        self.counter = self.counter + 1;
        self.bundles.insert(handle, BufferBundle { from, to, buffers: entries });
        assert(self@ =~= before.insert(handle, (BundleView { from, to, entries: entries@ })));
        Ok(handle)
    }

    /// Takes the bundle under `handle` out of the table and returns the
    /// buffers it owned, for the caller to release. An unknown handle changes
    /// nothing and releases nothing.
    pub fn dispose_bundle(&mut self, handle: usize) -> (freed: Vec<u64>)
        requires
            old(self).wf(),
        ensures
            final(self).wf(),
            final(self).next_handle() == old(self).next_handle(),
            final(self)@ == old(self)@.remove(handle),
            freed@ == released(old(self)@, handle),
            !old(self)@.contains_key(handle) ==> final(self)@ == old(self)@,
    {
        let ghost before = self@;
        let taken = self.bundles.remove(&handle);
        assert(self@ =~= before.remove(handle));
        match taken {
            None => {
                assert(before.remove(handle) =~= before);
                Vec::new()
            },
            Some(bundle) => {
                assert(bundle@ == before[handle]);
                collect_buffers(&bundle.buffers)
            },
        }
    }

    /// Updates the bundle under `bundle`: appends `to_add`, then drops every
    /// entry whose trace is in `to_del`, then gives the entries named in
    /// `to_mod` their new style. Returns the buffers of the dropped entries,
    /// for the caller to release.
    pub fn rebundle(
        &mut self,
        bundle: usize,
        to_add: &Vec<BufferEntry>,
        to_del: &Vec<usize>,
        to_mod: &Vec<BundleEntry>,
    ) -> (res: Result<Vec<u64>, RenderError>)
        requires
            old(self).wf(),
            old(self)@.contains_key(bundle) ==> entries_wf(
                old(self)@[bundle].entries + to_add@,
            ),
        ensures
            final(self).wf(),
            final(self).next_handle() == old(self).next_handle(),
            match res {
                Ok(freed) => {
                    &&& old(self)@.contains_key(bundle)
                    &&& final(self)@ == old(self)@.insert(
                        bundle,
                        (BundleView {
                            entries: rebundled(
                                old(self)@[bundle].entries,
                                to_add@,
                                to_del@,
                                to_mod@,
                            ),
                            ..old(self)@[bundle]
                        }),
                    )
                    &&& freed@ == owned_buffers(
                        removed(old(self)@[bundle].entries + to_add@, to_del@),
                    )
                },
                Err(err) => {
                    &&& err == RenderError::UnknownBundle
                    &&& !old(self)@.contains_key(bundle)
                    &&& final(self)@ == old(self)@
                },
            },
    {
        let ghost before = self@;
        let taken = self.bundles.remove(&bundle);
        let current = match taken {
            None => {
                assert(self@ =~= before);
                return Err(RenderError::UnknownBundle);
            },
            Some(b) => b,
        };
        assert(current@ == before[bundle]);
        let ghost all = current.buffers@ + to_add@;
        let joined = join_entries(&current.buffers, to_add);
        let (kept, freed) = split_entries(&joined, to_del);
        let styled = restyle_entries(kept, to_mod);
        proof {
            lemma_without_wf(all, to_del@);
            lemma_restyle_wf(without(all, to_del@), to_mod@);
        }
        let ghost after = BundleView { entries: styled@, ..before[bundle] };
        self.bundles.insert(
            bundle,
            BufferBundle { from: current.from, to: current.to, buffers: styled },
        );
        assert(self@ =~= before.insert(bundle, after));
        Ok(freed)
    }

    /// Whether `to_add` can join the bundle under `bundle`: the bundle is
    /// unknown, or the entries are in order and bring no trace that the
    /// bundle already holds.
    pub fn can_add(&self, bundle: usize, to_add: &Vec<BufferEntry>) -> (ok: bool)
        requires
            self.wf(),
        ensures
            ok == (self@.contains_key(bundle) ==> entries_wf(self@[bundle].entries + to_add@)),
    {
        match self.get(bundle) {
            None => true,
            Some(current) => {
                let joined = join_entries(&current.buffers, to_add);
                entries_ok(&joined)
            },
        }
    }

    /// Empties the table, as at teardown, and returns every buffer it owned,
    /// bundle by bundle in the order of their handles.
    pub fn dispose_all(&mut self) -> (freed: Vec<u64>)
        requires
            old(self).wf(),
        ensures
            final(self).wf(),
            final(self).next_handle() == old(self).next_handle(),
            final(self)@ == Map::<usize, BundleView>::empty(),
            freed@ == released_below(old(self)@, old(self).next_handle() as nat),
    {
        let ghost before = self@;
        let end: usize = self.counter;
        let mut freed: Vec<u64> = Vec::new();
        let mut h: usize = 0;
        while h < end
            invariant
                h <= end,
                end == self.next_handle(),
                self.wf(),
                freed@ == released_below(before, h as nat),
                forall|k: usize| #[trigger]
                    self@.contains_key(k) <==> before.contains_key(k) && k >= h,
                forall|k: usize| #[trigger] self@.contains_key(k) ==> self@[k] == before[k],
            decreases end - h,
        {
            let mut part = self.dispose_bundle(h);
            freed.append(&mut part);
            h = h + 1;
        }
        assert(self@ =~= Map::<usize, BundleView>::empty());
        freed
    }
}

/// The buffers of `entries`, entry by entry.
pub fn collect_buffers(entries: &Vec<BufferEntry>) -> (out: Vec<u64>)
    ensures
        out@ == owned_buffers(entries@),
{
    let mut out: Vec<u64> = Vec::new();
    let mut i: usize = 0;
    while i < entries.len()
        invariant
            i <= entries.len(),
            out@ == owned_buffers(entries@.take(i as int)),
        decreases entries.len() - i,
    {
        let e = entries[i];
        proof {
            assert(entries@.take(i + 1).drop_last() =~= entries@.take(i as int));
        }
        out.push(e.buffer);
        match e.area_buffer {
            Some(a) => {
                out.push(a);
            },
            None => {},
        }
        assert(out@ =~= owned_buffers(entries@.take(i as int)) + entry_buffers(e));
        i = i + 1;
    }
    assert(entries@.take(i as int) =~= entries@);
    out
}

/// `first` followed by `second`.
fn join_entries(first: &Vec<BufferEntry>, second: &Vec<BufferEntry>) -> (out: Vec<BufferEntry>)
    ensures
        out@ == first@ + second@,
{
    let mut out: Vec<BufferEntry> = Vec::new();
    let mut i: usize = 0;
    while i < first.len()
        invariant
            i <= first.len(),
            out@ == first@.take(i as int),
        decreases first.len() - i,
    {
        out.push(first[i]);
        assert(out@ =~= first@.take(i + 1));
        i = i + 1;
    }
    assert(first@.take(i as int) =~= first@);
    let mut j: usize = 0;
    while j < second.len()
        invariant
            j <= second.len(),
            out@ == first@ + second@.take(j as int),
        decreases second.len() - j,
    {
        out.push(second[j]);
        assert(out@ =~= first@ + second@.take(j + 1));
        j = j + 1;
    }
    assert(second@.take(j as int) =~= second@);
    out
}

/// Whether `handle` is among `handles`.
pub fn names_handle(handles: &Vec<usize>, handle: usize) -> (found: bool)
    ensures
        found == handles@.contains(handle),
{
    let mut i: usize = 0;
    while i < handles.len()
        invariant
            i <= handles.len(),
            forall|k: int| 0 <= k < i ==> handles@[k] != handle,
        decreases handles.len() - i,
    {
        if handles[i] == handle {
            return true;
        }
        i = i + 1;
    }
    false
}

/// Parts `entries` into those that stay and the buffers of those that leave.
fn split_entries(entries: &Vec<BufferEntry>, dead: &Vec<usize>) -> (out: (
    Vec<BufferEntry>,
    Vec<u64>,
))
    ensures
        out.0@ == without(entries@, dead@),
        out.1@ == owned_buffers(removed(entries@, dead@)),
{
    let mut kept: Vec<BufferEntry> = Vec::new();
    let mut freed: Vec<u64> = Vec::new();
    let mut i: usize = 0;
    while i < entries.len()
        invariant
            i <= entries.len(),
            kept@ == without(entries@.take(i as int), dead@),
            freed@ == owned_buffers(removed(entries@.take(i as int), dead@)),
        decreases entries.len() - i,
    {
        let e = entries[i];
        let ghost gone = removed(entries@.take(i as int), dead@);
        proof {
            assert(entries@.take(i + 1).drop_last() =~= entries@.take(i as int));
            assert(entries@.take(i + 1).last() == e);
        }
        if names_handle(dead, e.handle) {
            proof {
                assert(gone.push(e).drop_last() =~= gone);
            }
            freed.push(e.buffer);
            match e.area_buffer {
                Some(a) => {
                    freed.push(a);
                },
                None => {},
            }
            assert(freed@ =~= owned_buffers(gone) + entry_buffers(e));
        } else {
            kept.push(e);
        }
        i = i + 1;
    }
    assert(entries@.take(i as int) =~= entries@);
    (kept, freed)
}

/// Applies the rows of `rows` to `entries`, one after the other.
fn restyle_entries(entries: Vec<BufferEntry>, rows: &Vec<BundleEntry>) -> (out: Vec<BufferEntry>)
    ensures
        out@ == restyle_all(entries@, rows@),
{
    let mut out = entries;
    let mut r: usize = 0;
    while r < rows.len()
        invariant
            r <= rows.len(),
            out@ == restyle_all(entries@, rows@.take(r as int)),
        decreases rows.len() - r,
    {
        let row = rows[r];
        let ghost start = out@;
        let mut i: usize = 0;
        while i < out.len()
            invariant
                i <= out.len(),
                out@.len() == start.len(),
                forall|k: int| 0 <= k < i ==> out@[k] == restyle(start, row)[k],
                forall|k: int| i <= k < out@.len() ==> out@[k] == start[k],
            decreases out.len() - i,
        {
            let e = out[i];
            if e.handle == row.handle {
                out.set(
                    i,
                    BufferEntry {
                        handle: e.handle,
                        points: e.points,
                        buffer: e.buffer,
                        area_buffer: e.area_buffer,
                        area_buffer_points: e.area_buffer_points,
                        width: row.width,
                        color: row.color,
                        points_mode: row.points_mode,
                    },
                );
            }
            i = i + 1;
        }
        proof {
            assert(out@ =~= restyle(start, row));
            assert(rows@.take(r + 1).drop_last() =~= rows@.take(r as int));
            assert(rows@.take(r + 1).last() == row);
        }
        r = r + 1;
    }
    assert(rows@.take(r as int) =~= rows@);
    out
}

/// Whether no trace handle occurs twice among `entries`.
pub fn handles_distinct(entries: &Vec<BufferEntry>) -> (ok: bool)
    ensures
        ok == distinct_handles(entries@),
{
    let mut j: usize = 0;
    while j < entries.len()
        invariant
            j <= entries.len(),
            forall|a: int, b: int| 0 <= a < b < j ==> entries@[a].handle != entries@[b].handle,
        decreases entries.len() - j,
    {
        let mut i: usize = 0;
        while i < j
            invariant
                i <= j,
                j < entries.len(),
                forall|a: int| 0 <= a < i ==> entries@[a].handle != entries@[j as int].handle,
            decreases j - i,
        {
            if entries[i].handle == entries[j].handle {
                return false;
            }
            i = i + 1;
        }
        j = j + 1;
    }
    true
}

/// Whether an entry with an area buffer holds the strip of its own curve.
pub fn entry_ok(e: &BufferEntry) -> (ok: bool)
    ensures
        ok == entry_wf(*e),
{
    match e.area_buffer {
        None => true,
        Some(_) => if e.points == 0 {
            e.area_buffer_points == 0
        } else {
            e.area_buffer_points >= 1 && (e.area_buffer_points - 1) % 4 == 0 && (
            e.area_buffer_points - 1) / 4 == e.points - 1
        },
    }
}

/// Whether `entries` can make up a bundle: no trace twice, every entry in
/// order.
pub fn entries_ok(entries: &Vec<BufferEntry>) -> (ok: bool)
    ensures
        ok == entries_wf(entries@),
{
    if !handles_distinct(entries) {
        return false;
    }
    let mut i: usize = 0;
    while i < entries.len()
        invariant
            i <= entries.len(),
            forall|k: int| 0 <= k < i ==> entry_wf(#[trigger] entries@[k]),
        decreases entries.len() - i,
    {
        if !entry_ok(&entries[i]) {
            return false;
        }
        i = i + 1;
    }
    true
}

/// Disposing a handle a second time releases nothing and leaves the table as
/// the first disposal left it.
pub proof fn lemma_dispose_twice(m: Map<usize, BundleView>, handle: usize)
    ensures
        released(m.remove(handle), handle) == Seq::<u64>::empty(),
        m.remove(handle).remove(handle) == m.remove(handle),
{
    assert(m.remove(handle).remove(handle) =~= m.remove(handle));
}

/// The handle that comes next is not in use, so a new bundle never takes the
/// place of a live one.
pub proof fn lemma_next_handle_unused(store: BundleStore)
    requires
        store.wf(),
    ensures
        !store@.contains_key(store.next_handle()),
        forall|h: usize| store@.contains_key(h) ==> h < store.next_handle(),
{
}

} // verus!
