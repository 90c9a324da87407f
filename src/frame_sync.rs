use vstd::prelude::*;

verus! {

/// The two copies of the camera uniforms: the staging copy that each frame's
/// update recomputes, and the copy resident in GPU-visible memory that shaders
/// and `inv_projection` read.
pub struct Slots<U> {
    pub staged: U,
    pub resident: U,
}

impl<U> Slots<U> {
    /// A frame update: the staging copy is replaced, the resident one is kept.
    pub open spec fn after_stage(self, fresh: U) -> Slots<U> {
        Slots { staged: fresh, resident: self.resident }
    }

    /// A GPU flush: the staging copy is written over the resident one.
    pub open spec fn after_flush(self) -> Slots<U> {
        Slots { staged: self.staged, resident: self.staged }
    }

    /// A resize: the resident copy is re-derived in place, bypassing staging.
    pub open spec fn after_rebuild(self, fresh: U) -> Slots<U> {
        Slots { staged: self.staged, resident: fresh }
    }
}

/// Keeps the staging and GPU-resident copies of one uniform snapshot in step
/// through the renderer's frame lifecycle. There is one resident copy (no
/// double buffering), so a read of it during a frame's update sees what the
/// previous frame flushed.
pub struct UniformSync<U> {
    staged: U,
    resident: U,
}

impl<U> View for UniformSync<U> {
    type V = Slots<U>;

    closed spec fn view(&self) -> Slots<U> {
        Slots { staged: self.staged, resident: self.resident }
    }
}

impl<U: Copy> UniformSync<U> {
    /// Starts with `initial` both staged and resident: the caller writes the
    /// returned snapshot into the freshly allocated buffer once.
    pub fn new(initial: U) -> (r: UniformSync<U>)
        ensures
            r@ == (Slots { staged: initial, resident: initial }),
    {
        UniformSync { staged: initial, resident: initial }
    }

    /// The staging copy, as last recomputed.
    pub fn staged(&self) -> (r: U)
        ensures
            r == self@.staged,
    {
        self.staged
    }

    /// The copy resident in GPU-visible memory.
    pub fn resident(&self) -> (r: U)
        ensures
            r == self@.resident,
    {
        self.resident
    }

    /// Frame update: records the freshly derived snapshot in the staging copy.
    /// The resident copy is left as the previous flush or resize made it.
    pub fn stage(&mut self, fresh: U)
        ensures
            final(self)@ == old(self)@.after_stage(fresh),
    {
        self.staged = fresh;
    }

    /// GPU update: the staging copy becomes resident. Returns the snapshot that
    /// the caller writes over the whole buffer.
    pub fn flush(&mut self) -> (w: U)
        ensures
            final(self)@ == old(self)@.after_flush(),
            w == old(self)@.staged,
    {
        self.resident = self.staged;
        self.resident
    }

    /// Resize: the snapshot re-derived for the new viewport becomes resident at
    /// once, without waiting for the next update and flush; the staging copy is
    /// untouched. Returns the snapshot that the caller writes over the whole
    /// buffer.
    pub fn rebuild(&mut self, fresh: U) -> (w: U)
        ensures
            final(self)@ == old(self)@.after_rebuild(fresh),
            w == fresh,
    {
        self.resident = fresh;
        self.resident
    }
}

/// A read of the resident copy made right after frame N's update, before its
/// flush, sees the snapshot staged in frame N-1, not the one just staged.
pub proof fn lemma_resident_lags_one_frame<U>(s: Slots<U>, previous: U, current: U)
    ensures
        s.after_stage(previous).after_flush().after_stage(current).resident == previous,
        s.after_stage(previous).after_flush().after_stage(current).staged == current,
{
}

/// Once frame N is flushed, the resident copy is the snapshot of frame N.
pub proof fn lemma_flush_commits_stage<U>(s: Slots<U>, fresh: U)
    ensures
        s.after_stage(fresh).after_flush() == (Slots { staged: fresh, resident: fresh }),
{
}

/// Staging the same snapshot twice leaves the same state as staging it once.
pub proof fn lemma_stage_idempotent<U>(s: Slots<U>, fresh: U)
    ensures
        s.after_stage(fresh).after_stage(fresh) == s.after_stage(fresh),
{
}

/// A resize is visible in the resident copy at once, and the next frame's
/// update still reads it: no update is needed in between.
pub proof fn lemma_rebuild_visible_before_update<U>(s: Slots<U>, resized: U, next: U)
    ensures
        s.after_rebuild(resized).resident == resized,
        s.after_rebuild(resized).after_stage(next).resident == resized,
        s.after_rebuild(resized).staged == s.staged,
{
}

/// Flushing twice without an update in between writes the same snapshot.
pub proof fn lemma_flush_idempotent<U>(s: Slots<U>)
    ensures
        s.after_flush().after_flush() == s.after_flush(),
{
}

} // verus!
