//! The image store's model: the set of cover filenames present in the image
//! directory. The real store is a flat directory on disk; this model is the
//! contract its `write`, `remove` and `exists` operations satisfy.

use vstd::prelude::*;

verus! {

/// The filenames present in the image store, each held once.
pub struct ImageStore {
    pub files: Vec<String>,
}

impl ImageStore {
    /// Each filename is held at most once.
    pub open spec fn wf(self) -> bool {
        forall|i: int, j: int|
            0 <= i < j < self.files@.len() ==> self.files@[i]@ != self.files@[j]@
    }

    /// The set of filenames present.
    pub open spec fn names(self) -> Set<Seq<char>> {
        Set::new(
            |n: Seq<char>|
                exists|i: int| 0 <= i < self.files@.len() && self.files@[i]@ == n,
        )
    }

    /// An empty store, as a fresh image directory provides it.
    pub fn new() -> (s: ImageStore)
        ensures
            s.wf(),
            s.names() =~= Set::<Seq<char>>::empty(),
    {
        ImageStore { files: Vec::new() }
    }

    /// Whether a file of this name is present (the store's existence test).
    pub fn contains(&self, name: &String) -> (r: bool)
        ensures
            r == self.names().contains(name@),
    {
        let n = self.files.len();
        let mut i: usize = 0;
        while i < n
            invariant
                n == self.files@.len(),
                0 <= i <= n,
                forall|k: int| 0 <= k < i ==> self.files@[k]@ != name@,
            decreases n - i,
        {
            if self.files[i].eq(name) {
                return true;
            }
            i = i + 1;
        }
        false
    }

    /// Writes a file of this name: afterwards the name is present; every
    /// other name is as it was. Writing over an existing name replaces it.
    pub fn write(&mut self, name: String)
        requires
            old(self).wf(),
        ensures
            final(self).wf(),
            final(self).names() == old(self).names().insert(name@),
    {
        let ghost nv = name@;
        if !self.contains(&name) {
            let ghost pre = self.files@;
            self.files.push(name);
            proof {
                assert forall|x: Seq<char>|
                    final(self).names().contains(x)
                        == old(self).names().insert(nv).contains(x) by {
                    let post = self.files@;
                    assert(post == pre.push(name));
                    if x == nv {
                        assert(post[pre.len() as int]@ == x);
                    } else {
                        if old(self).names().contains(x) {
                            let k = choose|k: int| 0 <= k < pre.len() && pre[k]@ == x;
                            assert(post[k]@ == x);
                        }
                        if final(self).names().contains(x) {
                            let k = choose|k: int|
                                0 <= k < post.len() && post[k]@ == x;
                            assert(pre[k]@ == x);
                        }
                    }
                }
                assert(final(self).names() =~= old(self).names().insert(nv));
            }
        } else {
            proof {
                assert(old(self).names().contains(nv));
                assert(final(self).names() =~= old(self).names().insert(nv));
            }
        }
    }

    /// Removes the file of this name, if present; every other name is as it
    /// was.
    pub fn remove(&mut self, name: &String)
        requires
            old(self).wf(),
        ensures
            final(self).wf(),
            final(self).names() == old(self).names().remove(name@),
    {
        let n = self.files.len();
        let mut i: usize = 0;
        while i < n
            invariant
                old(self).wf(),
                *self == *old(self),
                n == self.files@.len(),
                0 <= i <= n,
                forall|k: int| 0 <= k < i ==> self.files@[k]@ != name@,
            decreases n - i,
        {
            if self.files[i].eq(name) {
                let ghost pre = self.files@;
                self.files.remove(i);
                proof {
                    let post = self.files@;
                    assert(post == pre.remove(i as int));
                    assert forall|x: Seq<char>|
                        final(self).names().contains(x)
                            == old(self).names().remove(name@).contains(x) by {
                        if final(self).names().contains(x) {
                            let k = choose|k: int| 0 <= k < post.len() && post[k]@ == x;
                            if k < i {
                                assert(pre[k]@ == x);
                            } else {
                                assert(pre[k + 1]@ == x);
                            }
                            // distinct views: only index i of `pre` holds `name`
                            assert(x != name@);
                        }
                        if x != name@ && old(self).names().contains(x) {
                            let k = choose|k: int| 0 <= k < pre.len() && pre[k]@ == x;
                            if k < i {
                                assert(post[k]@ == x);
                            } else {
                                assert(k != i);
                                assert(post[k - 1]@ == x);
                            }
                        }
                    }
                    assert(final(self).names() =~= old(self).names().remove(name@));
                }
                return ;
            }
            i = i + 1;
        }
        proof {
            assert(!old(self).names().contains(name@));
            assert(final(self).names() =~= old(self).names().remove(name@));
        }
    }
}

} // verus!
