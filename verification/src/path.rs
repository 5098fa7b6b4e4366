//! Paths in the global namespace, as sequences of name components.

use vstd::prelude::*;

verus! {

/// A path: whether it is anchored at the root, and its name components in
/// order.
#[derive(Debug)]
pub struct Path {
    /// Whether the path is absolute.
    pub absolute: bool,
    /// The name components, outermost first.
    pub parts: Vec<Vec<u8>>,
}

impl Path {
    /// The components as mathematical byte strings.
    pub open spec fn spec_parts(self) -> Seq<Seq<u8>> {
        self.parts@.map(|i: int, p: Vec<u8>| p@)
    }

    /// The absolute path of the filesystem root.
    pub fn root() -> (r: Self)
        ensures
            r.absolute,
            r.spec_parts() == Seq::<Seq<u8>>::empty(),
    {
        let r = Path { absolute: true, parts: Vec::new() };
        proof {
            assert(r.spec_parts() =~= Seq::<Seq<u8>>::empty());
        }
        r
    }

    /// The number of components.
    pub fn len(&self) -> (r: usize)
        ensures
            r == self.spec_parts().len(),
    {
        self.parts.len()
    }

    /// Tells whether the path has no components.
    pub fn is_empty(&self) -> (r: bool)
        ensures
            r == (self.spec_parts().len() == 0),
    {
        self.parts.len() == 0
    }

    /// Appends a component to the path.
    pub fn push(&mut self, name: Vec<u8>)
        ensures
            final(self).absolute == old(self).absolute,
            final(self).spec_parts() == old(self).spec_parts().push(name@),
    {
        self.parts.push(name);
        proof {
            assert(self.spec_parts() =~= old(self).spec_parts().push(name@));
        }
    }

    /// Removes and returns the last component, or `None` on an empty path.
    pub fn pop(&mut self) -> (r: Option<Vec<u8>>)
        ensures
            final(self).absolute == old(self).absolute,
            r is None <==> old(self).spec_parts().len() == 0,
            r is None ==> final(self).spec_parts() == old(self).spec_parts(),
            r is Some ==> ({
                &&& (r->0)@ == old(self).spec_parts().last()
                &&& final(self).spec_parts() == old(self).spec_parts().drop_last()
            }),
    {
        let r = self.parts.pop();
        proof {
            if old(self).parts@.len() > 0 {
                assert(self.spec_parts() =~= old(self).spec_parts().drop_last());
            } else {
                assert(self.spec_parts() =~= old(self).spec_parts());
            }
        }
        r
    }

    /// Returns a copy of the path.
    pub fn duplicate(&self) -> (r: Self)
        ensures
            r.absolute == self.absolute,
            r.spec_parts() == self.spec_parts(),
    {
        let mut parts: Vec<Vec<u8>> = Vec::new();
        let mut i: usize = 0;
        while i < self.parts.len()
            invariant
                i <= self.parts@.len(),
                parts@.len() == i,
                forall|k: int| 0 <= k < i ==> parts@[k]@ == self.parts@[k]@,
            decreases self.parts@.len() - i,
        {
            let part = clone_bytes(&self.parts[i]);
            parts.push(part);
            i += 1;
        }
        let r = Path { absolute: self.absolute, parts };
        proof {
            assert(r.spec_parts() =~= self.spec_parts());
        }
        r
    }
}

/// Returns a copy of a byte string.
pub fn clone_bytes(v: &Vec<u8>) -> (r: Vec<u8>)
    ensures
        r@ == v@,
{
    let r = v.clone();
    proof {
        assert forall|i: int| 0 <= i < v@.len() implies r@[i] == v@[i] by {
            assert(cloned::<u8>(v@[i], r@[i]));
        }
        assert(r@ =~= v@);
    }
    r
}

} // verus!
