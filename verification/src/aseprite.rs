//! Aseprite sheet exports: frames ordered left to right into atlas rects and
//! frame durations. Reading the JSON is the caller's.

use vstd::prelude::*;

verus! {

/// One exported frame: its rectangle on the sheet and its duration.
#[derive(Clone, Copy, Debug, PartialEq, Eq, Structural)]
pub struct AsepriteFrame {
    pub x: u32,
    pub y: u32,
    pub w: u32,
    pub h: u32,
    pub duration: u32,
}

/// An atlas rectangle.
#[derive(Clone, Copy, Debug, PartialEq, Eq, Structural)]
pub struct FrameRect {
    pub min_x: u32,
    pub min_y: u32,
    pub max_x: u32,
    pub max_y: u32,
}

/// A parsed sheet: its size, the frame rects
/// in playback order, and each frame's duration in milliseconds.
#[derive(Clone, Debug)]
pub struct ParsedAsepriteSheet {
    pub sheet_w: u32,
    pub sheet_h: u32,
    pub frame_rects: Vec<FrameRect>,
    pub frame_durations_ms: Vec<u32>,
}

/// Frames whose rectangles fit the `u32` coordinate range.
pub open spec fn frames_fit(frames: Seq<AsepriteFrame>) -> bool {
    forall|i: int| 0 <= i < frames.len() ==> (#[trigger] frames[i]).x + frames[i].w <= u32::MAX && frames[i].y + frames[i].h <= u32::MAX
}

/// Playback order: by the frame's x on the sheet.
pub open spec fn ordered_by_x(frames: Seq<AsepriteFrame>) -> bool {
    forall|i: int, j: int| 0 <= i < j < frames.len() ==> (#[trigger] frames[i]).x <= (#[trigger] frames[j]).x
}

/// The frames at column `x`, in their order.
pub open spec fn at_x(frames: Seq<AsepriteFrame>, x: u32) -> Seq<AsepriteFrame> {
    frames.filter(|f: AsepriteFrame| f.x == x)
}

/// Swapping two neighbouring frames at different columns keeps the frames
/// of every column in their order.
proof fn lemma_swap_keeps_columns(s: Seq<AsepriteFrame>, j: int, x: u32)
    requires
        0 < j < s.len(),
        s[j - 1].x != s[j].x,
    ensures
        at_x(s.update(j - 1, s[j]).update(j, s[j - 1]), x) == at_x(s, x),
{
    let p = |f: AsepriteFrame| f.x == x;
    let t = s.update(j - 1, s[j]).update(j, s[j - 1]);
    let a = s.subrange(0, j - 1);
    let b = s.subrange(j + 1, s.len() as int);
    let pair = seq![s[j - 1], s[j]];
    let swapped = seq![s[j], s[j - 1]];
    assert(s =~= a + pair + b);
    assert(t =~= a + swapped + b);
    Seq::filter_distributes_over_add(a + pair, b, p);
    Seq::filter_distributes_over_add(a, pair, p);
    Seq::filter_distributes_over_add(a + swapped, b, p);
    Seq::filter_distributes_over_add(a, swapped, p);
    assert(pair.filter(p) == swapped.filter(p)) by {
        reveal_with_fuel(Seq::filter, 3);
        assert(pair.drop_last() =~= seq![s[j - 1]]);
        assert(swapped.drop_last() =~= seq![s[j]]);
        assert(seq![s[j - 1]].drop_last() =~= Seq::<AsepriteFrame>::empty());
        assert(seq![s[j]].drop_last() =~= Seq::<AsepriteFrame>::empty());
        if p(s[j - 1]) {
            assert(pair.filter(p) =~= seq![s[j - 1]]);
            assert(swapped.filter(p) =~= seq![s[j - 1]]);
        } else if p(s[j]) {
            assert(pair.filter(p) =~= seq![s[j]]);
            assert(swapped.filter(p) =~= seq![s[j]]);
        } else {
            assert(pair.filter(p) =~= Seq::<AsepriteFrame>::empty());
            assert(swapped.filter(p) =~= Seq::<AsepriteFrame>::empty());
        }
    }
}

/// Sort frames by x, keeping equal-x frames in input order.
fn sort_frames(v: &mut Vec<AsepriteFrame>)
    ensures
        final(v)@.len() == old(v)@.len(),
        final(v)@.to_multiset() == old(v)@.to_multiset(),
        ordered_by_x(final(v)@),
        forall|x: u32| #[trigger] at_x(final(v)@, x) == at_x(old(v)@, x),
{
    broadcast use vstd::seq_lib::to_multiset_update, vstd::multiset::group_multiset_axioms;
    let n = v.len();
    if n < 2 {
        return;
    }
    let mut i: usize = 1;
    while i < n
        invariant
            1 <= i <= n,
            n == v@.len(),
            v@.to_multiset() == old(v)@.to_multiset(),
            forall|x: u32| #[trigger] at_x(v@, x) == at_x(old(v)@, x),
            forall|a: int, b: int| 0 <= a < b < i ==> v@[a].x <= v@[b].x,
        decreases n - i,
    {
        let mut j: usize = i;
        while j > 0 && v[j - 1].x > v[j].x
            invariant
                0 <= j <= i < n,
                n == v@.len(),
                v@.to_multiset() == old(v)@.to_multiset(),
                forall|x: u32| #[trigger] at_x(v@, x) == at_x(old(v)@, x),
                forall|a: int, b: int| 0 <= a < b <= i && a != j && b != j ==> v@[a].x <= v@[b].x,
                forall|b: int| j < b <= i ==> v@[j as int].x < v@[b].x,
                0 < j < i ==> v@[j - 1].x <= v@[j + 1].x,
            decreases j,
        {
            let x = v[j - 1];
            let y = v[j];
            let ghost s0 = v@;
            v.set(j - 1, y);
            v.set(j, x);
            proof {
                let s1 = s0.update(j - 1, y);
                assert(s0[j - 1] == x && s0.contains(x));
                vstd::seq_lib::to_multiset_contains(s0, x);
                vstd::seq_lib::to_multiset_update(s0, j - 1, y);
                vstd::seq_lib::to_multiset_update(s1, j as int, x);
                assert(v@ == s1.update(j as int, x));
                assert(v@.to_multiset() =~= s0.to_multiset());
                assert forall|c: u32| #[trigger] at_x(v@, c) == at_x(old(v)@, c) by {
                    lemma_swap_keeps_columns(s0, j as int, c);
                }
            }
            j = j - 1;
        }
        i = i + 1;
    }
}

impl ParsedAsepriteSheet {
    /// The sheet of the exported `frames` (in any order) on a sheet of
    /// `sheet_w` by `sheet_h`: frames ordered left to right, frames of one
    /// column keeping their export order, with their rects and durations.
    pub fn from_frames(sheet_w: u32, sheet_h: u32, frames: Vec<AsepriteFrame>) -> (r: ParsedAsepriteSheet)
        requires
            frames_fit(frames@),
        ensures
            r.sheet_w == sheet_w && r.sheet_h == sheet_h,
            exists|ordered: Seq<AsepriteFrame>| {
                &&& ordered.to_multiset() == frames@.to_multiset()
                &&& ordered_by_x(ordered)
                &&& forall|x: u32| #[trigger] at_x(ordered, x) == at_x(frames@, x)
                &&& r.frame_rects@.len() == ordered.len()
                &&& r.frame_durations_ms@.len() == ordered.len()
                &&& forall|i: int| 0 <= i < ordered.len() ==> #[trigger] r.frame_rects@[i] == (FrameRect { min_x: ordered[i].x, min_y: ordered[i].y,
                    max_x: (ordered[i].x + ordered[i].w) as u32, max_y: (ordered[i].y + ordered[i].h) as u32 })
                &&& forall|i: int| 0 <= i < ordered.len() ==> #[trigger] r.frame_durations_ms@[i] == ordered[i].duration
            },
    {
        let mut ordered = frames;
        let ghost f0 = ordered@;
        sort_frames(&mut ordered);
        proof {
            assert forall|i: int| 0 <= i < ordered@.len() implies (#[trigger] ordered@[i]).x + ordered@[i].w <= u32::MAX
                && ordered@[i].y + ordered@[i].h <= u32::MAX by {
                assert(ordered@.contains(ordered@[i]));
                vstd::seq_lib::to_multiset_contains(ordered@, ordered@[i]);
                vstd::seq_lib::to_multiset_contains(f0, ordered@[i]);
                let k = choose|k: int| 0 <= k < f0.len() && f0[k] == ordered@[i];
                assert(f0[k].x + f0[k].w <= u32::MAX);
            }
        }
        let mut rects: Vec<FrameRect> = Vec::new();
        let mut durations: Vec<u32> = Vec::new();
        let mut k: usize = 0;
        while k < ordered.len()
            invariant
                k <= ordered@.len(),
                rects@.len() == k,
                durations@.len() == k,
                forall|i: int| 0 <= i < ordered@.len() ==> (#[trigger] ordered@[i]).x + ordered@[i].w <= u32::MAX
                    && ordered@[i].y + ordered@[i].h <= u32::MAX,
                forall|i: int| 0 <= i < k ==> #[trigger] rects@[i] == (FrameRect { min_x: ordered@[i].x, min_y: ordered@[i].y,
                    max_x: (ordered@[i].x + ordered@[i].w) as u32, max_y: (ordered@[i].y + ordered@[i].h) as u32 }),
                forall|i: int| 0 <= i < k ==> #[trigger] durations@[i] == ordered@[i].duration,
            decreases ordered@.len() - k,
        {
            let f = ordered[k];
            rects.push(FrameRect { min_x: f.x, min_y: f.y, max_x: f.x + f.w, max_y: f.y + f.h });
            durations.push(f.duration);
            k = k + 1;
        }
        ParsedAsepriteSheet { sheet_w, sheet_h, frame_rects: rects, frame_durations_ms: durations }
    }

    /// Number of frames.
    pub fn frame_count(&self) -> (r: usize)
        ensures
            r == self.frame_rects@.len(),
    {
        self.frame_rects.len()
    }
}

} // verus!
