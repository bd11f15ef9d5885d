//! A structural model of file system paths.
//!
//! A path is a flag saying whether it is absolute plus an ordered list of
//! plain component names. Callers that deal with the real file system are
//! expected to hand in paths already split into components, with no `..` or
//! `.` entries, so that prefix comparison coincides with directory
//! containment.

use vstd::prelude::*;

verus! {

/// Mathematical image of a [`FilePath`]: absolute flag and component names.
#[verifier::ext_equal]
pub struct PathModel {
    pub absolute: bool,
    pub components: Seq<Seq<char>>,
}

/// A file system path, split into components.
#[derive(Debug)]
pub struct FilePath {
    pub absolute: bool,
    pub components: Vec<String>,
}

impl View for FilePath {
    type V = PathModel;

    open spec fn view(&self) -> PathModel {
        PathModel {
            absolute: self.absolute,
            components: Seq::new(self.components.len() as nat, |i: int| self.components[i]@),
        }
    }
}

impl PathModel {
    /// `prefix` names the same or an ancestor directory: same kind of path,
    /// and every component of `prefix` heads this path.
    pub open spec fn starts_with(self, prefix: PathModel) -> bool {
        &&& self.absolute == prefix.absolute
        &&& prefix.components.len() <= self.components.len()
        &&& prefix.components =~= self.components.take(prefix.components.len() as int)
    }

    /// The path that `extra` names when taken relative to `self`.
    pub open spec fn join(self, extra: PathModel) -> PathModel {
        PathModel { absolute: self.absolute, components: self.components + extra.components }
    }
}

impl FilePath {
    pub fn is_absolute(&self) -> (r: bool)
        ensures
            r == self@.absolute,
    {
        self.absolute
    }

    /// Appends one component at the end of the path.
    pub fn push(&mut self, component: String)
        ensures
            final(self)@.absolute == old(self)@.absolute,
            final(self)@.components =~= old(self)@.components.push(component@),
    {
        self.components.push(component);
    }

    /// The last component, if the path has one.
    pub fn file_name(&self) -> (r: Option<&String>)
        ensures
            match r {
                Some(name) => self@.components.len() > 0 && name@ == self@.components.last(),
                None => self@.components.len() == 0,
            },
    {
        if self.components.len() == 0 {
            None
        } else {
            Some(&self.components[self.components.len() - 1])
        }
    }

    /// Structural copy of the path.
    pub fn duplicate(&self) -> (r: FilePath)
        ensures
            r@ =~= self@,
    {
        let mut components: Vec<String> = Vec::new();
        let mut i: usize = 0;
        while i < self.components.len()
            invariant
                i <= self.components.len(),
                components@.len() == i as int,
                forall|j: int| 0 <= j < i as int ==> components@[j]@ == self.components@[j]@,
            decreases self.components.len() - i,
        {
            components.push(self.components[i].clone());
            i = i + 1;
        }
        let r = FilePath { absolute: self.absolute, components };
        proof {
            assert(r@.components =~= self@.components);
        }
        r
    }

    /// The path obtained by resolving the relative path `extra` against
    /// `self`.
    pub fn join(&self, extra: &FilePath) -> (r: FilePath)
        ensures
            r@ =~= self@.join(extra@),
    {
        let mut r = self.duplicate();
        let mut i: usize = 0;
        while i < extra.components.len()
            invariant
                i <= extra.components.len(),
                r@.absolute == self@.absolute,
                r@.components =~= self@.components + extra@.components.take(i as int),
            decreases extra.components.len() - i,
        {
            r.push(extra.components[i].clone());
            proof {
                assert(extra@.components.take(i + 1) =~= extra@.components.take(i as int).push(
                    extra@.components[i as int],
                ));
            }
            i = i + 1;
        }
        proof {
            assert(extra@.components.take(extra@.components.len() as int) =~= extra@.components);
        }
        r
    }

    /// Whether `prefix` names the same or an ancestor directory.
    pub fn starts_with(&self, prefix: &FilePath) -> (r: bool)
        ensures
            r == self@.starts_with(prefix@),
    {
        if self.absolute != prefix.absolute {
            return false;
        }
        if prefix.components.len() > self.components.len() {
            return false;
        }
        let mut i: usize = 0;
        while i < prefix.components.len()
            invariant
                i <= prefix.components.len(),
                prefix.components.len() <= self.components.len(),
                self@.absolute == prefix@.absolute,
                forall|j: int| 0 <= j < i as int ==> self@.components[j] == prefix@.components[j],
            decreases prefix.components.len() - i,
        {
            if !(self.components[i] == prefix.components[i]) {
                assert(self@.components[i as int] != prefix@.components[i as int]);
                assert(!self@.starts_with(prefix@));
                return false;
            }
            i = i + 1;
        }
        proof {
            assert(prefix@.components =~= self@.components.take(
                prefix@.components.len() as int,
            ));
        }
        true
    }

    /// The remainder of `self` after its prefix `prefix`, as a relative path.
    pub fn strip_prefix(&self, prefix: &FilePath) -> (r: FilePath)
        requires
            self@.starts_with(prefix@),
        ensures
            !r@.absolute,
            r@.components =~= self@.components.skip(prefix@.components.len() as int),
    {
        let mut components: Vec<String> = Vec::new();
        let mut i: usize = prefix.components.len();
        while i < self.components.len()
            invariant
                prefix.components.len() <= i <= self.components.len(),
                components@.len() == i - prefix.components.len(),
                forall|j: int|
                    0 <= j < components@.len() ==> components@[j]@ == self@.components[j
                        + prefix@.components.len()],
            decreases self.components.len() - i,
        {
            components.push(self.components[i].clone());
            i = i + 1;
        }
        let r = FilePath { absolute: false, components };
        proof {
            assert(r@.components =~= self@.components.skip(prefix@.components.len() as int));
        }
        r
    }
}

} // verus!
