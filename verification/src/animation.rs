use vstd::prelude::*;

verus! {

/// Frames of a sprite sheet: each row holds `last` frames, and an animation
/// plays the frames `first .. last` of row `row`.
#[derive(PartialEq, Eq, Structural, Clone, Copy, Debug)]
pub struct AnimationIndices {
    pub first: usize,
    pub last: usize,
    pub row: usize,
}

impl AnimationIndices {
    /// Index of the first frame the animation plays.
    pub open spec fn row_start(self) -> int {
        self.first + self.last * self.row
    }

    /// Index one past the last frame the animation plays.
    pub open spec fn row_end(self) -> int {
        self.last + self.last * self.row
    }
}

/// The frame shown after `index` when the animation timer fires.
pub open spec fn spec_next_frame(index: int, ix: AnimationIndices) -> int {
    if index < ix.row_end() - 1 {
        index + 1
    } else {
        ix.row_start()
    }
}

/// Advances a sprite sheet animation by one frame: the next frame of the row,
/// or back to the row's first frame after its last one.
pub fn next_frame(index: usize, ix: &AnimationIndices) -> (next: usize)
    requires
        1 <= ix.row_end() <= usize::MAX,
        index >= ix.row_end() - 1 ==> ix.row_start() <= usize::MAX,
    ensures
        next == spec_next_frame(index as int, *ix),
{
    let row_base = ix.last * ix.row;
    if index < ix.last + row_base - 1 {
        index + 1
    } else {
        ix.first + row_base
    }
}

/// The frame a freshly selected row starts on: `row * last`.
pub fn row_first_frame(ix: &AnimationIndices) -> (frame: usize)
    requires
        ix.row * ix.last <= usize::MAX,
    ensures
        frame == ix.row * ix.last,
{
    ix.row * ix.last
}

/// A one-shot animation (an explosion, a dying slime) is over once its frame
/// reaches `last - 1`.
pub fn animation_over(index: usize, ix: &AnimationIndices) -> (over: bool)
    requires
        ix.last >= 1,
    ensures
        over == (index >= ix.last - 1),
{
    index >= ix.last - 1
}

/// The frame reached from `index` after `n` steps.
pub open spec fn frame_after(index: int, ix: AnimationIndices, n: nat) -> int
    decreases n,
{
    if n == 0 {
        index
    } else {
        spec_next_frame(frame_after(index, ix, (n - 1) as nat), ix)
    }
}

/// An animation never leaves its row: from a frame of the row, the next frame
/// is again a frame of the row.
pub proof fn lemma_frame_stays_in_row(index: int, ix: AnimationIndices)
    requires
        ix.first < ix.last,
        ix.row_start() <= index < ix.row_end(),
    ensures
        ix.row_start() <= spec_next_frame(index, ix) < ix.row_end(),
{
}

/// An animation is periodic: starting from the row's first frame it shows the
/// frames in order and is back at the first frame after `last - first` steps.
pub proof fn lemma_animation_cycles(ix: AnimationIndices)
    requires
        ix.first < ix.last,
    ensures
        forall|k: nat| k < ix.last - ix.first ==> #[trigger] frame_after(ix.row_start(), ix, k)
            == ix.row_start() + k,
        frame_after(ix.row_start(), ix, (ix.last - ix.first) as nat) == ix.row_start(),
{
    assert forall|k: nat| k < ix.last - ix.first implies #[trigger] frame_after(
        ix.row_start(),
        ix,
        k,
    ) == ix.row_start() + k by {
        lemma_frame_after_prefix(ix, k);
    }
    let p = (ix.last - ix.first) as nat;
    lemma_frame_after_prefix(ix, (p - 1) as nat);
}

proof fn lemma_frame_after_prefix(ix: AnimationIndices, k: nat)
    requires
        ix.first < ix.last,
        k < ix.last - ix.first,
    ensures
        frame_after(ix.row_start(), ix, k) == ix.row_start() + k,
    decreases k,
{
    if k > 0 {
        lemma_frame_after_prefix(ix, (k - 1) as nat);
    }
}

} // verus!
