use vstd::prelude::*;

use crate::entry::Entry;
use crate::path::{child_path, copy_path};

verus! {

/// The paths of the subdirectories in a listing of `dir`, in listing order.
pub open spec fn subdir_paths(dir: Seq<String>, entries: Seq<Entry>) -> Seq<Seq<String>>
    decreases entries.len(),
{
    if entries.len() == 0 {
        Seq::empty()
    } else {
        let rest = subdir_paths(dir, entries.drop_last());
        if entries.last().is_dir {
            rest.push(dir.push(entries.last().name))
        } else {
            rest
        }
    }
}

/// Depth-first directory walk over an explicit stack of pending paths: the
/// last path pushed is the next one visited.
pub struct DirWalker {
    stack: Vec<Vec<String>>,
}

impl View for DirWalker {
    type V = Seq<Seq<String>>;

    closed spec fn view(&self) -> Seq<Seq<String>> {
        self.stack@.map_values(|p: Vec<String>| p@)
    }
}

impl DirWalker {
    /// A walk from `root`, which holds the root when it is a directory and is
    /// empty otherwise.
    pub fn new(root: Vec<String>, root_is_dir: bool) -> (r: DirWalker)
        ensures
            r@ == if root_is_dir { seq![root@] } else { Seq::<Seq<String>>::empty() },
    {
        let mut stack: Vec<Vec<String>> = Vec::new();
        let ghost root_view = root@;
        if root_is_dir {
            stack.push(root);
        }
        let r = DirWalker { stack };
        assert(r@ =~= if root_is_dir { seq![root_view] } else { Seq::<Seq<String>>::empty() });
        r
    }

    /// Whether no path is pending.
    pub fn is_empty(&self) -> (r: bool)
        ensures
            r == (self@.len() == 0),
    {
        self.stack.len() == 0
    }

    /// Takes the most recently pushed pending path.
    pub fn pop_next(&mut self) -> (r: Option<Vec<String>>)
        ensures
            old(self)@.len() == 0 ==> r is None && final(self)@ == old(self)@,
            old(self)@.len() > 0 ==> (r matches Some(p) && p@ == old(self)@.last()
                && final(self)@ == old(self)@.drop_last()),
    {
        let r = self.stack.pop();
        proof {
            if old(self)@.len() > 0 {
                assert(self@ =~= old(self)@.drop_last());
            }
        }
        r
    }

    /// Pushes the subdirectories of a listing of `dir`, in listing order.
    pub fn push_subdirs(&mut self, dir: &Vec<String>, entries: &Vec<Entry>)
        ensures
            final(self)@ == old(self)@ + subdir_paths(dir@, entries@),
    {
        let mut i: usize = 0;
        while i < entries.len()
            invariant
                i <= entries.len(),
                self@ == old(self)@ + subdir_paths(dir@, entries@.subrange(0, i as int)),
            decreases entries.len() - i,
        {
            assert(entries@.subrange(0, i + 1).drop_last() =~= entries@.subrange(0, i as int));
            if entries[i].is_dir {
                let p = child_path(dir, &entries[i].name);
                let ghost before = self@;
                self.stack.push(p);
                assert(self@ =~= before.push(dir@.push(entries@[i as int].name)));
            }
            i += 1;
        }
        assert(entries@.subrange(0, entries.len() as int) =~= entries@);
    }
}

} // verus!
