//! The sequence an upload job follows: resolve the destination folder once
//! if it is not known, then submit each item in order. The caller performs
//! each step and reports back.

use vstd::prelude::*;

verus! {

/// The next thing an upload job has to do.
#[derive(Clone, Copy, Debug, PartialEq, Eq, Structural)]
pub enum UploadStep {
    /// Look up or create the destination folder.
    ResolveFolder,
    /// Submit item `index` into folder `folder`.
    Submit { index: usize, folder: u64 },
    /// Every item was submitted.
    Finished,
    /// No folder could be had; nothing more is sent.
    Abandoned,
}

/// Progress through one upload.
#[derive(Debug)]
pub struct UploadPlan {
    pub folder: Option<u64>,
    /// Items submitted so far.
    pub submitted: usize,
    pub total: usize,
    pub abandoned: bool,
}

/// The step that follows from a plan's state.
pub open spec fn step_of(p: UploadPlan) -> UploadStep {
    if p.abandoned {
        UploadStep::Abandoned
    } else {
        match p.folder {
            None => UploadStep::ResolveFolder,
            Some(f) => if p.submitted < p.total {
                UploadStep::Submit { index: p.submitted, folder: f }
            } else {
                UploadStep::Finished
            },
        }
    }
}

impl UploadPlan {
    pub open spec fn wf(&self) -> bool {
        self.submitted <= self.total
    }

    /// A plan for `total` items, with the folder if it is already known.
    pub fn new(folder: Option<u64>, total: usize) -> (r: UploadPlan)
        ensures
            r.wf(),
            r.folder == folder,
            r.submitted == 0,
            r.total == total,
            !r.abandoned,
    {
        UploadPlan { folder, submitted: 0, total, abandoned: false }
    }

    pub fn step(&self) -> (r: UploadStep)
        ensures
            r == step_of(*self),
    {
        if self.abandoned {
            UploadStep::Abandoned
        } else {
            match self.folder {
                None => UploadStep::ResolveFolder,
                Some(f) => if self.submitted < self.total {
                    UploadStep::Submit { index: self.submitted, folder: f }
                } else {
                    UploadStep::Finished
                },
            }
        }
    }

    /// Records the folder lookup: its id, or `None` when it failed.
    pub fn folder_resolved(&mut self, folder: Option<u64>)
        requires
            old(self).wf(),
            step_of(*old(self)) == UploadStep::ResolveFolder,
        ensures
            final(self).wf(),
            final(self).folder == folder,
            final(self).abandoned == folder is None,
            final(self).submitted == old(self).submitted,
            final(self).total == old(self).total,
    {
        self.folder = folder;
        self.abandoned = folder.is_none();
    }

    /// Records that the current item was submitted (or failed; a failed
    /// item is not retried).
    pub fn item_done(&mut self)
        requires
            old(self).wf(),
            step_of(*old(self)) is Submit,
        ensures
            final(self).wf(),
            final(self).submitted == old(self).submitted + 1,
            final(self).folder == old(self).folder,
            final(self).total == old(self).total,
            final(self).abandoned == old(self).abandoned,
    {
        self.submitted = self.submitted + 1;
    }
}

} // verus!
