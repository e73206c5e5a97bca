use vstd::prelude::*;

verus! {

/// How an entity wraps round the play area: once it has entered the area,
/// leaving it on one side brings it back on the other, along the axes it
/// wraps on.
#[derive(Clone, Copy, Debug, PartialEq, Eq, Structural)]
pub struct BoundsWarp {
    pub entered_zone: bool,
    pub warp_vertically: bool,
    pub warp_horizontally: bool,
}

impl Default for BoundsWarp {
    /// Not yet in the area, wrapping on both axes.
    fn default() -> (w: Self)
        ensures
            !w.entered_zone,
            w.warp_vertically,
            w.warp_horizontally,
    {
        BoundsWarp { entered_zone: false, warp_vertically: true, warp_horizontally: true }
    }
}

/// Where an entity stands against the play area's half size.
#[derive(Clone, Copy, Debug, PartialEq, Eq, Structural)]
pub struct AreaPosition {
    /// Its distance from the centre along x is more than the half width.
    pub beyond_x: bool,
    /// Its distance from the centre along z is more than the half depth.
    pub beyond_z: bool,
    /// It is strictly inside the area on both axes.
    pub inside: bool,
}

/// Which axes an entity wraps on this frame.
#[derive(Clone, Copy, Debug, PartialEq, Eq, Structural)]
pub struct WarpAction {
    /// Move it by a full width to the other side along x.
    pub wrap_x: bool,
    /// Move it by a full depth to the other side along z.
    pub wrap_z: bool,
}

/// One frame of wrapping: an entity that has entered the area wraps on each
/// axis it wraps on and has left the area along; one that has not entered
/// yet does not wrap, and counts as entered once inside.
pub open spec fn warp_step(w: BoundsWarp, pos: AreaPosition) -> (BoundsWarp, WarpAction) {
    if w.entered_zone {
        (
            w,
            WarpAction {
                wrap_x: w.warp_horizontally && pos.beyond_x,
                wrap_z: w.warp_vertically && pos.beyond_z,
            },
        )
    } else {
        (BoundsWarp { entered_zone: pos.inside, ..w }, WarpAction { wrap_x: false, wrap_z: false })
    }
}

impl BoundsWarp {
    /// One frame of wrapping, as `warp_step` says.
    pub fn bounds_warp(&mut self, pos: AreaPosition) -> (a: WarpAction)
        ensures
            (*final(self), a) == warp_step(*old(self), pos),
    {
        if self.entered_zone {
            WarpAction {
                wrap_x: self.warp_horizontally && pos.beyond_x,
                wrap_z: self.warp_vertically && pos.beyond_z,
            }
        } else {
            if pos.inside {
                self.entered_zone = true;
            }
            WarpAction { wrap_x: false, wrap_z: false }
        }
    }
}

/// The wrapping state after the first `k` frames, the entity standing at
/// `ps[i]` in frame `i`.
pub open spec fn warp_after(w: BoundsWarp, ps: Seq<AreaPosition>, k: int) -> BoundsWarp
    decreases k,
{
    if k <= 0 {
        w
    } else {
        warp_step(warp_after(w, ps, k - 1), ps[k - 1]).0
    }
}

proof fn lemma_entered_means_was_inside(w: BoundsWarp, ps: Seq<AreaPosition>, k: int)
    requires
        !w.entered_zone,
        0 <= k <= ps.len(),
        warp_after(w, ps, k).entered_zone,
    ensures
        exists|j: int| 0 <= j < k && (#[trigger] ps[j]).inside,
    decreases k,
{
    if k > 0 {
        let prev = warp_after(w, ps, k - 1);
        if prev.entered_zone {
            lemma_entered_means_was_inside(w, ps, k - 1);
            let j = choose|j: int| 0 <= j < k - 1 && (#[trigger] ps[j]).inside;
            assert(ps[j].inside);
        } else {
            assert(ps[k - 1].inside);
        }
    }
}

/// An entity that starts outside the play area never wraps before it has
/// been inside it: a wrap in frame `k` comes after some earlier frame in
/// which it was inside.
pub proof fn law_no_wrap_before_entering(w: BoundsWarp, ps: Seq<AreaPosition>, k: int)
    requires
        !w.entered_zone,
        0 <= k < ps.len(),
        ({
            let a = warp_step(warp_after(w, ps, k), ps[k]).1;
            a.wrap_x || a.wrap_z
        }),
    ensures
        exists|j: int| 0 <= j < k && (#[trigger] ps[j]).inside,
{
    lemma_entered_means_was_inside(w, ps, k);
}

/// Whether an entity that is removed on leaving the area goes: it must be
/// outside the area, and, if it wraps, it must have entered the area once.
pub fn bounds_despawn(warp: Option<BoundsWarp>, outside: bool) -> (gone: bool)
    ensures
        gone == (outside && !(warp matches Some(w) && !w.entered_zone)),
{
    match warp {
        Some(w) => {
            if !w.entered_zone {
                return false;
            }
        },
        None => {},
    }
    outside
}

/// The triangles of the play area's frame, three vertex numbers each: the
/// inner corners are vertices 0 to 3 and the outer corners 4 to 7.
pub fn frame_mesh_indices() -> (ix: Vec<u32>)
    ensures
        ix@ == seq![
            0u32, 5, 4, 0, 1, 5, 1, 2, 6, 1, 6, 5, 2, 7, 6, 2, 3, 7, 3, 0, 4, 3, 4, 7,
        ],
{
    vec![0, 5, 4, 0, 1, 5, 1, 2, 6, 1, 6, 5, 2, 7, 6, 2, 3, 7, 3, 0, 4, 3, 4, 7]
}

/// The frame is made of eight triangles over its eight corners, and every
/// corner is used.
pub proof fn law_frame_uses_its_corners(ix: Seq<u32>)
    requires
        ix == seq![0u32, 5, 4, 0, 1, 5, 1, 2, 6, 1, 6, 5, 2, 7, 6, 2, 3, 7, 3, 0, 4, 3, 4, 7],
    ensures
        ix.len() == 8 * 3,
        forall|i: int| 0 <= i < ix.len() ==> ix[i] < 8,
        forall|v: u32| v < 8 ==> ix.contains(v),
{
    assert forall|v: u32| v < 8 implies ix.contains(v) by {
        if v == 0 {
            assert(ix[0] == v);
        } else if v == 1 {
            assert(ix[4] == v);
        } else if v == 2 {
            assert(ix[7] == v);
        } else if v == 3 {
            assert(ix[16] == v);
        } else if v == 4 {
            assert(ix[2] == v);
        } else if v == 5 {
            assert(ix[1] == v);
        } else if v == 6 {
            assert(ix[8] == v);
        } else {
            assert(ix[13] == v);
        }
    }
}

} // verus!
