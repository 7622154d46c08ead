//! The bundle table: which GPU buffers belong to which bundle, under which
//! handle, and what an update or a disposal does to them.
//!
//! Buffers are known here by the identifier under which the graphics layer
//! keeps them. The table never touches the GPU: every operation says which
//! buffers it no longer owns, and the caller releases them.

use crate::area::area_vertex_count;
use crate::area::strip_len;
use crate::error::RenderError;
use vstd::prelude::*;

verus! {

/// A colour, one byte per channel.
#[derive(Clone, Copy, Debug, PartialEq, Eq, Structural)]
pub struct Rgb {
    pub r: u8,
    pub g: u8,
    pub b: u8,
}

/// How a caller describes one trace of a bundle. Widths are in hundredths of
/// a pixel.
#[derive(Clone, Copy, Debug)]
pub struct BundleEntry {
    pub handle: usize,
    pub width: u32,
    pub color: Rgb,
    pub points_mode: bool,
}

/// One trace inside a bundle, with the buffers that hold its vertices.
#[derive(Clone, Copy, Debug)]
pub struct BufferEntry {
    pub handle: usize,
    pub points: usize,
    pub buffer: u64,
    pub area_buffer: Option<u64>,
    pub area_buffer_points: usize,
    pub width: u32,
    pub color: Rgb,
    pub points_mode: bool,
}

/// A batch of traces uploaded relative to one origin window.
#[derive(Clone, Debug)]
pub struct BufferBundle {
    pub from: i64,
    pub to: i64,
    pub buffers: Vec<BufferEntry>,
}

/// What a bundle is, as a value.
pub struct BundleView {
    pub from: i64,
    pub to: i64,
    pub entries: Seq<BufferEntry>,
}

impl View for BufferBundle {
    type V = BundleView;

    open spec fn view(&self) -> BundleView {
        BundleView { from: self.from, to: self.to, entries: self.buffers@ }
    }
}

/// An entry with an area buffer holds the strip of its own curve.
pub open spec fn entry_wf(e: BufferEntry) -> bool {
    e.area_buffer.is_some() ==> e.area_buffer_points == strip_len(e.points as nat)
}

/// No trace handle occurs twice.
pub open spec fn distinct_handles(s: Seq<BufferEntry>) -> bool {
    forall|i: int, j: int| 0 <= i < j < s.len() ==> s[i].handle != s[j].handle
}

/// What holds of the entries of every bundle in the table.
pub open spec fn entries_wf(s: Seq<BufferEntry>) -> bool {
    &&& distinct_handles(s)
    &&& forall|i: int| 0 <= i < s.len() ==> entry_wf(#[trigger] s[i])
}

/// The entry made for `entry` once its vertices are uploaded.
pub open spec fn allocated(
    entry: BundleEntry,
    points: usize,
    buffer: u64,
    area_buffer: Option<u64>,
) -> BufferEntry {
    BufferEntry {
        handle: entry.handle,
        points,
        buffer,
        area_buffer,
        area_buffer_points: if area_buffer.is_some() {
            strip_len(points as nat) as usize
        } else {
            0
        },
        width: entry.width,
        color: entry.color,
        points_mode: entry.points_mode,
    }
}

/// Makes the table entry for a trace from what the graphics layer and the
/// trace store came back with: `buffer` for the line, `points` for the
/// number of vertices of the trace, and, where `with_area` holds,
/// `area_buffer` for the fill. A missing buffer is a failed allocation; a
/// missing count is a trace that the store does not know.
pub fn allocate_bundle_entry(
    entry: &BundleEntry,
    buffer: Option<u64>,
    points: Option<usize>,
    with_area: bool,
    area_buffer: Option<u64>,
) -> (res: Result<BufferEntry, RenderError>)
    requires
        with_area && points.is_some() ==> strip_len(points.unwrap() as nat) <= usize::MAX,
    ensures
        match res {
            Ok(e) => {
                &&& buffer.is_some()
                &&& points.is_some()
                &&& with_area ==> area_buffer.is_some()
                &&& e == allocated(
                    *entry,
                    points.unwrap(),
                    buffer.unwrap(),
                    if with_area {
                        area_buffer
                    } else {
                        None
                    },
                )
                &&& entry_wf(e)
            },
            Err(err) => if buffer.is_none() {
                err == RenderError::ResourceExhausted
            } else if points.is_none() {
                err == RenderError::UnknownTrace
            } else {
                err == RenderError::ResourceExhausted && with_area && area_buffer.is_none()
            },
        },
{
    let line_buffer: u64 = match buffer {
        Some(b) => b,
        None => {
            return Err(RenderError::ResourceExhausted);
        },
    };
    let count: usize = match points {
        Some(n) => n,
        None => {
            return Err(RenderError::UnknownTrace);
        },
    };
    let mut fill: Option<u64> = None;
    let mut fill_points: usize = 0;
    if with_area {
        match area_buffer {
            Some(a) => {
                fill = Some(a);
                fill_points = area_vertex_count(count);
            },
            None => {
                return Err(RenderError::ResourceExhausted);
            },
        }
    }
    Ok(
        BufferEntry {
            handle: entry.handle,
            points: count,
            buffer: line_buffer,
            area_buffer: fill,
            area_buffer_points: fill_points,
            width: entry.width,
            color: entry.color,
            points_mode: entry.points_mode,
        },
    )
}

/// The buffers of one entry: the line buffer, then the area buffer if any.
pub open spec fn entry_buffers(e: BufferEntry) -> Seq<u64> {
    match e.area_buffer {
        Some(a) => seq![e.buffer, a],
        None => seq![e.buffer],
    }
}

/// The buffers of a run of entries, entry by entry.
pub open spec fn owned_buffers(s: Seq<BufferEntry>) -> Seq<u64>
    decreases s.len(),
{
    if s.len() == 0 {
        Seq::empty()
    } else {
        owned_buffers(s.drop_last()) + entry_buffers(s.last())
    }
}

/// The entries of `s` whose handle is not among `dead`, in order.
pub open spec fn without(s: Seq<BufferEntry>, dead: Seq<usize>) -> Seq<BufferEntry>
    decreases s.len(),
{
    if s.len() == 0 {
        Seq::empty()
    } else if dead.contains(s.last().handle) {
        without(s.drop_last(), dead)
    } else {
        without(s.drop_last(), dead).push(s.last())
    }
}

/// The entries of `s` whose handle is among `dead`, in order.
pub open spec fn removed(s: Seq<BufferEntry>, dead: Seq<usize>) -> Seq<BufferEntry>
    decreases s.len(),
{
    if s.len() == 0 {
        Seq::empty()
    } else if dead.contains(s.last().handle) {
        removed(s.drop_last(), dead).push(s.last())
    } else {
        removed(s.drop_last(), dead)
    }
}

/// `e` with the style of `row`; its buffers and counts stay.
pub open spec fn restyled(e: BufferEntry, row: BundleEntry) -> BufferEntry {
    BufferEntry { width: row.width, color: row.color, points_mode: row.points_mode, ..e }
}

/// Every entry of `s` that belongs to the trace of `row` takes its style.
pub open spec fn restyle(s: Seq<BufferEntry>, row: BundleEntry) -> Seq<BufferEntry> {
    Seq::new(
        s.len(),
        |i: int|
            if s[i].handle == row.handle {
                restyled(s[i], row)
            } else {
                s[i]
            },
    )
}

/// The rows of `rows` applied to `s` one after the other.
pub open spec fn restyle_all(s: Seq<BufferEntry>, rows: Seq<BundleEntry>) -> Seq<BufferEntry>
    decreases rows.len(),
{
    if rows.len() == 0 {
        s
    } else {
        restyle(restyle_all(s, rows.drop_last()), rows.last())
    }
}

/// The entries of a bundle after an update: the new ones are appended, the
/// deleted ones leave, the rest is restyled.
pub open spec fn rebundled(
    s: Seq<BufferEntry>,
    to_add: Seq<BufferEntry>,
    to_del: Seq<usize>,
    to_mod: Seq<BundleEntry>,
) -> Seq<BufferEntry> {
    restyle_all(without(s + to_add, to_del), to_mod)
}

/// Every entry that survives a deletion was there before.
pub proof fn lemma_without_subset(s: Seq<BufferEntry>, dead: Seq<usize>)
    ensures
        without(s, dead).len() <= s.len(),
        forall|k: int|
            0 <= k < without(s, dead).len() ==> s.contains(#[trigger] without(s, dead)[k])
                && !dead.contains(without(s, dead)[k].handle),
    decreases s.len(),
{
    if s.len() > 0 {
        lemma_without_subset(s.drop_last(), dead);
        let rest = without(s.drop_last(), dead);
        assert forall|k: int| 0 <= k < without(s, dead).len() implies s.contains(
            #[trigger] without(s, dead)[k],
        ) && !dead.contains(without(s, dead)[k].handle) by {
            if k < rest.len() {
                let j = choose|j: int| 0 <= j < s.drop_last().len() && s.drop_last()[j] == rest[k];
                assert(s[j] == rest[k]);
            } else {
                assert(s[s.len() - 1] == s.last());
            }
        }
    }
}

/// A deletion keeps the table's invariant.
pub proof fn lemma_without_wf(s: Seq<BufferEntry>, dead: Seq<usize>)
    requires
        entries_wf(s),
    ensures
        entries_wf(without(s, dead)),
    decreases s.len(),
{
    if s.len() > 0 {
        let front = s.drop_last();
        lemma_without_wf(front, dead);
        lemma_without_subset(front, dead);
        let rest = without(front, dead);
        if !dead.contains(s.last().handle) {
            let out = rest.push(s.last());
            assert forall|i: int, j: int| 0 <= i < j < out.len() implies out[i].handle
                != out[j].handle by {
                if j == rest.len() {
                    assert(front.contains(rest[i]));
                    let k = choose|k: int| 0 <= k < front.len() && front[k] == rest[i];
                    assert(s[k] == rest[i]);
                }
            }
        }
    }
}

/// Without a matching handle a deletion changes nothing.
pub proof fn lemma_without_absent(s: Seq<BufferEntry>, dead: Seq<usize>)
    requires
        forall|i: int| 0 <= i < s.len() ==> !dead.contains(#[trigger] s[i].handle),
    ensures
        without(s, dead) == s,
        removed(s, dead) == Seq::<BufferEntry>::empty(),
    decreases s.len(),
{
    if s.len() > 0 {
        lemma_without_absent(s.drop_last(), dead);
        assert(s.drop_last().push(s.last()) =~= s);
    }
}

/// Deleting the one handle of the entry at `k` removes that entry and leaves
/// every other entry as it was, in place and in order.
pub proof fn lemma_delete_removes_one(s: Seq<BufferEntry>, k: int, dead: Seq<usize>)
    requires
        distinct_handles(s),
        0 <= k < s.len(),
        dead == seq![s[k].handle],
    ensures
        without(s, dead) == s.remove(k),
        removed(s, dead) == seq![s[k]],
    decreases s.len(),
{
    let front = s.drop_last();
    assert(forall|h: usize| dead.contains(h) <==> h == s[k].handle) by {
        assert(dead[0] == s[k].handle);
    }
    if k == s.len() - 1 {
        assert forall|i: int| 0 <= i < front.len() implies !dead.contains(
            #[trigger] front[i].handle,
        ) by {
            assert(front[i] == s[i]);
        }
        lemma_without_absent(front, dead);
        assert(s.remove(k) =~= front);
        assert(Seq::<BufferEntry>::empty().push(s.last()) =~= seq![s[k]]);
    } else {
        assert(front[k] == s[k]);
        lemma_delete_removes_one(front, k, dead);
        assert(s.last() == s[s.len() - 1]);
        assert(!dead.contains(s.last().handle));
        assert(front.remove(k).push(s.last()) =~= s.remove(k));
    }
}

/// Restyling touches neither the buffers nor the vertex counts nor the
/// handles of the entries, and leaves each in its place.
pub proof fn lemma_restyle_keeps_buffers(s: Seq<BufferEntry>, rows: Seq<BundleEntry>)
    ensures
        restyle_all(s, rows).len() == s.len(),
        forall|i: int|
            0 <= i < s.len() ==> {
                let e = #[trigger] restyle_all(s, rows)[i];
                &&& e.handle == s[i].handle
                &&& e.buffer == s[i].buffer
                &&& e.area_buffer == s[i].area_buffer
                &&& e.points == s[i].points
                &&& e.area_buffer_points == s[i].area_buffer_points
            },
    decreases rows.len(),
{
    if rows.len() > 0 {
        lemma_restyle_keeps_buffers(s, rows.drop_last());
    }
}

/// Restyling keeps the table's invariant.
pub proof fn lemma_restyle_wf(s: Seq<BufferEntry>, rows: Seq<BundleEntry>)
    requires
        entries_wf(s),
    ensures
        entries_wf(restyle_all(s, rows)),
{
    lemma_restyle_keeps_buffers(s, rows);
    let out = restyle_all(s, rows);
    assert forall|i: int| 0 <= i < out.len() implies entry_wf(#[trigger] out[i]) by {
        assert(entry_wf(s[i]));
    }
}

/// An update that only deletes the trace of the entry at `k` removes that
/// entry, releases its buffers and no others, and leaves every other entry
/// untouched.
pub proof fn lemma_rebundle_delete_one(s: Seq<BufferEntry>, k: int)
    requires
        distinct_handles(s),
        0 <= k < s.len(),
    ensures
        rebundled(s, Seq::empty(), seq![s[k].handle], Seq::empty()) == s.remove(k),
        owned_buffers(removed(s + Seq::<BufferEntry>::empty(), seq![s[k].handle]))
            == entry_buffers(s[k]),
{
    let dead = seq![s[k].handle];
    assert(s + Seq::<BufferEntry>::empty() =~= s);
    lemma_delete_removes_one(s, k, dead);
    assert(seq![s[k]].drop_last() =~= Seq::<BufferEntry>::empty());
    assert(owned_buffers(seq![s[k]]) =~= entry_buffers(s[k])) by {
        assert(owned_buffers(seq![s[k]].drop_last()) =~= Seq::<u64>::empty());
    }
}

/// An update that only restyles keeps every entry in its place with its
/// buffers, its vertex counts and its trace, and releases nothing.
pub proof fn lemma_rebundle_modify_keeps_buffers(s: Seq<BufferEntry>, rows: Seq<BundleEntry>)
    ensures
        rebundled(s, Seq::empty(), Seq::empty(), rows).len() == s.len(),
        forall|i: int|
            0 <= i < s.len() ==> {
                let e = #[trigger] rebundled(s, Seq::empty(), Seq::empty(), rows)[i];
                &&& e.handle == s[i].handle
                &&& e.buffer == s[i].buffer
                &&& e.area_buffer == s[i].area_buffer
                &&& e.points == s[i].points
                &&& e.area_buffer_points == s[i].area_buffer_points
            },
        removed(s + Seq::<BufferEntry>::empty(), Seq::<usize>::empty()) == Seq::<
            BufferEntry,
        >::empty(),
{
    assert(s + Seq::<BufferEntry>::empty() =~= s);
    lemma_without_absent(s, Seq::<usize>::empty());
    lemma_restyle_keeps_buffers(s, rows);
}

} // verus!
