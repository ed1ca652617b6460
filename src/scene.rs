use vstd::prelude::*;
use vstd::arithmetic::div_mod::{lemma_mod_add_multiples_vanish, lemma_mod_self_0, lemma_small_mod};

verus! {

/// The index reached by stepping to `i` in a list of `len` scenes: past the
/// last it wraps to the first, before the first to the last.
pub open spec fn wrapped(i: int, len: int) -> int {
    if i < 0 {
        len - 1
    } else if i >= len {
        0
    } else {
        i
    }
}

/// A list of scenes with one of them current.
#[derive(Clone, Debug)]
pub struct SceneList<S> {
    scenes: Vec<S>,
    current_scene: i32,
}

impl<S> SceneList<S> {
    pub closed spec fn spec_scenes(&self) -> Seq<S> {
        self.scenes@
    }

    pub closed spec fn spec_current(&self) -> int {
        self.current_scene as int
    }

    /// The current index names a scene; a list without scenes has none to
    /// name, and its index is 0 or -1.
    pub open spec fn wf(&self) -> bool {
        &&& self.spec_scenes().len() <= i32::MAX
        &&& if self.spec_scenes().len() > 0 {
            0 <= self.spec_current() < self.spec_scenes().len()
        } else {
            self.spec_current() == 0 || self.spec_current() == -1
        }
    }

    /// A list whose first scene is current.
    pub fn new(scenes: Vec<S>) -> (r: Self)
        requires
            scenes@.len() <= i32::MAX,
        ensures
            r.wf(),
            r.spec_scenes() == scenes@,
            r.spec_current() == 0,
    {
        SceneList { scenes, current_scene: 0 }
    }

    pub fn len(&self) -> (r: usize)
        ensures
            r == self.spec_scenes().len(),
    {
        self.scenes.len()
    }

    pub fn current_scene_index(&self) -> (r: u32)
        ensures
            r == self.spec_current() as u32,
    {
        self.current_scene as u32
    }

    pub fn current(&mut self) -> (r: &mut S)
        requires
            old(self).wf(),
            old(self).spec_scenes().len() > 0,
        ensures
            *r == old(self).spec_scenes()[old(self).spec_current()],
            final(self).spec_scenes() == old(self).spec_scenes().update(
                old(self).spec_current(),
                *final(r),
            ),
            final(self).spec_current() == old(self).spec_current(),
    {
        let i = self.current_scene as usize;
        &mut self.scenes[i]
    }

    pub fn current_immut(&self) -> (r: &S)
        requires
            self.wf(),
            self.spec_scenes().len() > 0,
        ensures
            *r == self.spec_scenes()[self.spec_current()],
    {
        &self.scenes[self.current_scene as usize]
    }

    /// The scene at index `i`, to be changed in place.
    pub fn scene_mut(&mut self, i: usize) -> (r: &mut S)
        requires
            i < old(self).spec_scenes().len(),
        ensures
            *r == old(self).spec_scenes()[i as int],
            final(self).spec_scenes() == old(self).spec_scenes().update(i as int, *final(r)),
            final(self).spec_current() == old(self).spec_current(),
    {
        &mut self.scenes[i]
    }

    fn clamp_current_scene(&mut self)
        requires
            old(self).spec_scenes().len() <= i32::MAX,
        ensures
            final(self).wf(),
            final(self).spec_scenes() == old(self).spec_scenes(),
            final(self).spec_current() == wrapped(
                old(self).spec_current(),
                old(self).spec_scenes().len() as int,
            ),
    {
        let len = self.scenes.len() as i32;
        if self.current_scene < 0 {
            self.current_scene = len - 1;
        } else if self.current_scene >= len {
            self.current_scene = 0;
        }
    }

    /// Makes the next scene current, the first after the last.
    pub fn next(&mut self)
        requires
            old(self).wf(),
        ensures
            final(self).wf(),
            final(self).spec_scenes() == old(self).spec_scenes(),
            final(self).spec_current() == wrapped(
                old(self).spec_current() + 1,
                old(self).spec_scenes().len() as int,
            ),
            old(self).spec_scenes().len() > 0 ==> final(self).spec_current() == (
            old(self).spec_current() + 1) % (old(self).spec_scenes().len() as int),
    {
        self.current_scene = self.current_scene + 1;
        self.clamp_current_scene();
        proof {
            let len = self.spec_scenes().len() as int;
            let c = old(self).spec_current() + 1;
            if len > 0 {
                if c < len {
                    lemma_small_mod(c as nat, len as nat);
                } else {
                    lemma_mod_self_0(len);
                }
            }
        }
    }

    /// Makes the previous scene current, the last before the first.
    pub fn prev(&mut self)
        requires
            old(self).wf(),
        ensures
            final(self).wf(),
            final(self).spec_scenes() == old(self).spec_scenes(),
            final(self).spec_current() == wrapped(
                old(self).spec_current() - 1,
                old(self).spec_scenes().len() as int,
            ),
            old(self).spec_scenes().len() > 0 ==> final(self).spec_current() == (
            old(self).spec_current() + old(self).spec_scenes().len() - 1) % (
            old(self).spec_scenes().len() as int),
    {
        self.current_scene = self.current_scene - 1;
        self.clamp_current_scene();
        proof {
            let len = self.spec_scenes().len() as int;
            let c = old(self).spec_current();
            if len > 0 {
                if c > 0 {
                    lemma_mod_add_multiples_vanish(c - 1, len);
                    lemma_small_mod((c - 1) as nat, len as nat);
                } else {
                    lemma_small_mod((len - 1) as nat, len as nat);
                }
            }
        }
    }
}

/// The index of the first object, in list order, that the pointing ray hits.
pub fn first_hit_index(hits: &Vec<bool>) -> (r: Option<usize>)
    ensures
        match r {
            Some(i) => i < hits@.len() && hits@[i as int] && forall|j: int| 0 <= j < i ==> !hits@[j],
            None => forall|j: int| 0 <= j < hits@.len() ==> !hits@[j],
        },
{
    let mut i: usize = 0;
    while i < hits.len()
        invariant
            i <= hits@.len(),
            forall|j: int| 0 <= j < i ==> !hits@[j],
        decreases hits@.len() - i,
    {
        if hits[i] {
            return Some(i);
        }
        i = i + 1;
    }
    None
}

} // verus!
