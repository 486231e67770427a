use vstd::prelude::*;

verus! {

/// What `std::path::Path::file_name` gives for a path written as `s`.
pub uninterp spec fn file_name_of(s: Seq<char>) -> Option<Seq<char>>;

/// Relies on `std::path::Path::file_name`: the last normal component of the
/// path, if any, as text.
#[verifier::external_body]
pub(crate) fn file_name(s: &String) -> (r: Option<String>)
    ensures
        match r {
            Some(n) => file_name_of(s@) == Some(n@),
            None => file_name_of(s@) is None,
        },
{
    std::path::Path::new(s.as_str()).file_name().map(|n| n.to_string_lossy().into_owned())
}

/// A directory path is a sequence of components: the root as the caller wrote
/// it, then one name per level below it. Its own name is the root's file name
/// at the top, and its last component below.
pub open spec fn path_name(root_name: Option<Seq<char>>, p: Seq<String>) -> Option<Seq<char>> {
    if p.len() == 1 {
        root_name
    } else if p.len() > 1 {
        Some(p.last()@)
    } else {
        None
    }
}

/// A copy of the path `p`.
pub fn copy_path(p: &Vec<String>) -> (r: Vec<String>)
    ensures
        r@ == p@,
{
    let mut r: Vec<String> = Vec::new();
    let mut i: usize = 0;
    while i < p.len()
        invariant
            i <= p.len(),
            r@ == p@.subrange(0, i as int),
        decreases p.len() - i,
    {
        r.push(p[i].clone());
        i += 1;
        assert(r@ =~= p@.subrange(0, i as int));
    }
    assert(p@.subrange(0, p.len() as int) =~= p@);
    r
}

/// The path of the entry called `name` inside the directory `p`.
pub fn child_path(p: &Vec<String>, name: &String) -> (r: Vec<String>)
    ensures
        r@ == p@.push(*name),
{
    let mut r = copy_path(p);
    r.push(name.clone());
    r
}

} // verus!
