use vstd::prelude::*;

verus! {

/// One entry of a directory listing: its own name and whether it is a directory.
pub struct Entry {
    pub name: String,
    pub is_dir: bool,
}

impl Entry {
    pub fn new(name: String, is_dir: bool) -> (r: Entry)
        ensures
            r.name == name,
            r.is_dir == is_dir,
    {
        Entry { name, is_dir }
    }
}

/// The characters of an optional name.
pub open spec fn name_view(n: Option<String>) -> Option<Seq<char>> {
    match n {
        Some(s) => Some(s@),
        None => None,
    }
}

} // verus!
