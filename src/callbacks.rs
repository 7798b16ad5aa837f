use vstd::prelude::*;

verus! {

/// Tells the event loop whether the rendering resources must be acquired
/// again, because the screen that owns them was replaced.
pub struct ResumeCallback {
    resume: bool,
}

impl ResumeCallback {
    /// The flag this callback carries.
    pub closed spec fn spec_resume(&self) -> bool {
        self.resume
    }

    pub fn new(resume: bool) -> (r: Self)
        ensures
            r.spec_resume() == resume,
    {
        Self { resume }
    }

    /// Merges another callback into this one: a resume is asked for when
    /// either of them asks for it.
    pub fn or(&mut self, resume_callback: ResumeCallback)
        ensures
            final(self).spec_resume() == (old(self).spec_resume() || resume_callback.spec_resume()),
    {
        if resume_callback.get_resume() {
            self.resume = true;
        }
    }

    pub fn get_resume(&self) -> (r: bool)
        ensures
            r == self.spec_resume(),
    {
        self.resume
    }
}

} // verus!
