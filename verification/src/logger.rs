//! The set of sysfs nodes that rejected writes and are no longer written.
use vstd::prelude::*;
use crate::text::{chars_equal, chars_of};

verus! {

/// Sysfs nodes that are not to be written again in this run.
pub struct SysfsBlacklist {
    pub nodes: Vec<String>,
}

impl SysfsBlacklist {
    /// The blacklisted paths.
    pub open spec fn paths(&self) -> Set<Seq<char>> {
        self.nodes.deep_view().to_set()
    }

    pub fn new() -> (r: Self)
        ensures
            r.paths() == Set::<Seq<char>>::empty(),
    {
        let r = SysfsBlacklist { nodes: Vec::new() };
        assert(r.paths() =~= Set::<Seq<char>>::empty());
        r
    }

    /// Whether `path` is blacklisted.
    pub fn is_sysfs_blacklisted(&self, path: &str) -> (r: bool)
        ensures
            r == self.paths().contains(path@),
    {
        let p = chars_of(path);
        let mut i: usize = 0;
        while i < self.nodes.len()
            invariant
                0 <= i <= self.nodes.len(),
                p@ == path@,
                forall|j: int| 0 <= j < i ==> self.nodes@[j]@ != path@,
            decreases self.nodes.len() - i,
        {
            let n = chars_of(self.nodes[i].as_str());
            if chars_equal(&n, &p) {
                assert(self.nodes.deep_view()[i as int] == path@);
                return true;
            }
            i = i + 1;
        }
        proof {
            if self.paths().contains(path@) {
                let k = choose|k: int| 0 <= k < self.nodes.deep_view().len() && self.nodes.deep_view()[k] == path@;
                assert(self.nodes@[k]@ == path@);
            }
        }
        false
    }

    /// Adds `path` to the blacklist.
    pub fn blacklist_sysfs_node(&mut self, path: &str)
        ensures
            final(self).paths() == old(self).paths().insert(path@),
    {
        let ghost before = self.nodes.deep_view();
        self.nodes.push(path.to_owned());
        proof {
            let after = self.nodes.deep_view();
            assert(after =~= before.push(path@)) by {
                assert forall|k: int| 0 <= k < after.len() implies after[k] == before.push(path@)[k] by {
                    if k < before.len() {
                        assert(self.nodes@[k] == old(self).nodes@[k]);
                    }
                }
            }
            assert(after.to_set() =~= before.to_set().insert(path@)) by {
                assert forall|x: Seq<char>| after.to_set().contains(x) implies before.to_set().insert(path@).contains(x) by {
                    let k = choose|k: int| 0 <= k < after.len() && after[k] == x;
                    if k < before.len() {
                        assert(before[k] == x);
                    }
                }
                assert forall|x: Seq<char>| before.to_set().insert(path@).contains(x) implies after.to_set().contains(x) by {
                    if x == path@ {
                        assert(after[before.len() as int] == x);
                    } else {
                        let k = choose|k: int| 0 <= k < before.len() && before[k] == x;
                        assert(after[k] == x);
                    }
                }
            }
        }
    }
}

} // verus!
