use vstd::prelude::*;

use crate::entry::{name_view, Entry};
use crate::path::{child_path, copy_path};

verus! {

/// Whether the entry `e`, found in a directory named `parent_name`, is a
/// qualifying nested directory: a directory, and of the parent's own name
/// unless name matching is skipped. A parent without a name matches nothing.
pub open spec fn qualifies(e: Entry, parent_name: Option<Seq<char>>, skip_name_match: bool) -> bool {
    e.is_dir && (skip_name_match || (parent_name matches Some(n) && e.name@ == n))
}

/// How many entries of a listing qualify.
pub open spec fn qualifying_count(
    entries: Seq<Entry>,
    parent_name: Option<Seq<char>>,
    skip_name_match: bool,
) -> nat
    decreases entries.len(),
{
    if entries.len() == 0 {
        0
    } else {
        qualifying_count(entries.drop_last(), parent_name, skip_name_match) + if qualifies(
            entries.last(),
            parent_name,
            skip_name_match,
        ) {
            1nat
        } else {
            0nat
        }
    }
}

fn entry_qualifies(e: &Entry, parent_name: &Option<String>, skip_name_match: bool) -> (r: bool)
    ensures
        r == qualifies(*e, name_view(*parent_name), skip_name_match),
{
    if !e.is_dir {
        false
    } else if skip_name_match {
        true
    } else {
        match parent_name {
            Some(n) => e.name == *n,
            None => false,
        }
    }
}

/// Counts the qualifying nested directories among the entries of a directory
/// named `parent_name`.
pub fn count_nested_dirs(parent_name: &Option<String>, entries: &Vec<Entry>, skip_name_match: bool) -> (n: usize)
    ensures
        n == qualifying_count(entries@, name_view(*parent_name), skip_name_match),
{
    let mut n: usize = 0;
    let mut i: usize = 0;
    while i < entries.len()
        invariant
            i <= entries.len(),
            n <= i,
            n == qualifying_count(entries@.subrange(0, i as int), name_view(*parent_name), skip_name_match),
        decreases entries.len() - i,
    {
        let ghost next = entries@.subrange(0, i + 1);
        assert(next.drop_last() =~= entries@.subrange(0, i as int));
        assert(next.last() == entries@[i as int]);
        if entry_qualifies(&entries[i], parent_name, skip_name_match) {
            n += 1;
        }
        assert(n == qualifying_count(next, name_view(*parent_name), skip_name_match));
        i += 1;
    }
    assert(entries@.subrange(0, entries.len() as int) =~= entries@);
    n
}

/// The index of the one qualifying nested directory, when exactly one entry
/// qualifies; `None` when none or several do.
pub fn find_nested_dir(parent_name: &Option<String>, entries: &Vec<Entry>, skip_name_match: bool) -> (r: Option<usize>)
    ensures
        r is Some <==> qualifying_count(entries@, name_view(*parent_name), skip_name_match) == 1,
        r matches Some(i) ==> i < entries.len() && qualifies(entries@[i as int], name_view(*parent_name), skip_name_match),
{
    let mut n: usize = 0;
    let mut found: usize = 0;
    let mut i: usize = 0;
    while i < entries.len()
        invariant
            i <= entries.len(),
            n <= i,
            n == qualifying_count(entries@.subrange(0, i as int), name_view(*parent_name), skip_name_match),
            n > 0 ==> found < i && qualifies(entries@[found as int], name_view(*parent_name), skip_name_match),
        decreases entries.len() - i,
    {
        let ghost next = entries@.subrange(0, i + 1);
        assert(next.drop_last() =~= entries@.subrange(0, i as int));
        assert(next.last() == entries@[i as int]);
        if entry_qualifies(&entries[i], parent_name, skip_name_match) {
            n += 1;
            found = i;
        }
        assert(n == qualifying_count(next, name_view(*parent_name), skip_name_match));
        i += 1;
    }
    assert(entries@.subrange(0, entries.len() as int) =~= entries@);
    if n == 1 {
        Some(found)
    } else {
        None
    }
}

/// A change to the filesystem, on paths written as components.
pub enum FsOp {
    /// Rename the entry at `from` to `to`.
    Move { from: Vec<String>, to: Vec<String> },
    /// Remove the empty directory `dir`.
    RemoveDir { dir: Vec<String> },
}

/// What an [`FsOp`] does, over the views of its paths.
pub enum OpModel {
    Move { from: Seq<String>, to: Seq<String> },
    RemoveDir { dir: Seq<String> },
}

pub open spec fn op_model(op: FsOp) -> OpModel {
    match op {
        FsOp::Move { from, to } => OpModel::Move { from: from@, to: to@ },
        FsOp::RemoveDir { dir } => OpModel::RemoveDir { dir: dir@ },
    }
}

pub open spec fn ops_model(ops: Seq<FsOp>) -> Seq<OpModel> {
    ops.map_values(|o: FsOp| op_model(o))
}

impl FsOp {
    /// A copy of this operation.
    pub fn duplicate(&self) -> (r: FsOp)
        ensures
            op_model(r) == op_model(*self),
    {
        match self {
            FsOp::Move { from, to } => FsOp::Move { from: copy_path(from), to: copy_path(to) },
            FsOp::RemoveDir { dir } => FsOp::RemoveDir { dir: copy_path(dir) },
        }
    }
}

/// Whether some entry of a listing is called `name`.
pub open spec fn name_taken(entries: Seq<Entry>, name: Seq<char>) -> bool {
    exists|j: int| 0 <= j < entries.len() && #[trigger] entries[j].name@ == name
}

/// `k` is the index of the first nested entry whose name the parent already
/// holds, or the number of nested entries when there is none.
pub open spec fn first_collision_at(parent_entries: Seq<Entry>, nested_entries: Seq<Entry>, k: int) -> bool {
    &&& 0 <= k <= nested_entries.len()
    &&& forall|j: int| 0 <= j < k ==> !name_taken(parent_entries, #[trigger] nested_entries[j].name@)
    &&& k < nested_entries.len() ==> name_taken(parent_entries, nested_entries[k].name@)
}

/// Lifting the entry `e` of `parent/nested` into `parent`.
pub open spec fn lift_op(parent: Seq<String>, nested: String, e: Entry) -> OpModel {
    OpModel::Move { from: parent.push(nested).push(e.name), to: parent.push(e.name) }
}

/// The plan for merging `parent/nested` into `parent`: each entry of the nested
/// directory is lifted in listing order; the first one whose name the parent
/// already holds stops the plan and is reported as a collision; when none
/// collides the emptied nested directory is removed last.
pub open spec fn is_unnest_plan(
    parent: Seq<String>,
    parent_entries: Seq<Entry>,
    nested: String,
    nested_entries: Seq<Entry>,
    ops: Seq<OpModel>,
    collision: Option<Seq<String>>,
) -> bool {
    match collision {
        Some(c) => {
            let k = ops.len() as int;
            &&& first_collision_at(parent_entries, nested_entries, k)
            &&& k < nested_entries.len()
            &&& c == parent.push(nested_entries[k].name)
            &&& forall|i: int| 0 <= i < k ==> #[trigger] ops[i] == lift_op(parent, nested, nested_entries[i])
        },
        None => {
            let k = nested_entries.len() as int;
            &&& first_collision_at(parent_entries, nested_entries, k)
            &&& ops.len() == k + 1
            &&& forall|i: int| 0 <= i < k ==> #[trigger] ops[i] == lift_op(parent, nested, nested_entries[i])
            &&& ops[k] == OpModel::RemoveDir { dir: parent.push(nested) }
        },
    }
}

/// The operations that merge a nested directory into its parent, and the path
/// at which a name collision stops them, if one does.
pub struct UnnestPlan {
    pub ops: Vec<FsOp>,
    pub collision: Option<Vec<String>>,
}

pub open spec fn collision_model(c: Option<Vec<String>>) -> Option<Seq<String>> {
    match c {
        Some(p) => Some(p@),
        None => None,
    }
}

fn holds_name(entries: &Vec<Entry>, name: &String) -> (r: bool)
    ensures
        r == name_taken(entries@, name@),
{
    let mut i: usize = 0;
    while i < entries.len()
        invariant
            i <= entries.len(),
            forall|j: int| 0 <= j < i ==> #[trigger] entries@[j].name@ != name@,
        decreases entries.len() - i,
    {
        if entries[i].name == *name {
            return true;
        }
        i += 1;
    }
    false
}

/// Plans the merge of `parent/nested` into `parent`, given the listings of
/// both directories.
pub fn plan_unnest(
    parent: &Vec<String>,
    parent_entries: &Vec<Entry>,
    nested: &String,
    nested_entries: &Vec<Entry>,
) -> (r: UnnestPlan)
    ensures
        is_unnest_plan(
            parent@,
            parent_entries@,
            *nested,
            nested_entries@,
            ops_model(r.ops@),
            collision_model(r.collision),
        ),
{
    let nested_dir = child_path(parent, nested);
    let mut ops: Vec<FsOp> = Vec::new();
    let mut i: usize = 0;
    while i < nested_entries.len()
        invariant
            i <= nested_entries.len(),
            nested_dir@ == parent@.push(*nested),
            ops@.len() == i,
            forall|j: int| 0 <= j < i ==> !name_taken(parent_entries@, #[trigger] nested_entries@[j].name@),
            forall|j: int| 0 <= j < i ==> #[trigger] ops_model(ops@)[j] == lift_op(parent@, *nested, nested_entries@[j]),
        decreases nested_entries.len() - i,
    {
        let name = &nested_entries[i].name;
        if holds_name(parent_entries, name) {
            return UnnestPlan { ops, collision: Some(child_path(parent, name)) };
        }
        let from = child_path(&nested_dir, name);
        let to = child_path(parent, name);
        let ghost before = ops@;
        ops.push(FsOp::Move { from, to });
        assert(ops_model(ops@) =~= ops_model(before).push(lift_op(parent@, *nested, nested_entries@[i as int])));
        i += 1;
    }
    let ghost before = ops@;
    ops.push(FsOp::RemoveDir { dir: nested_dir });
    assert(ops_model(ops@) =~= ops_model(before).push(OpModel::RemoveDir { dir: parent@.push(*nested) }));
    UnnestPlan { ops, collision: None }
}

} // verus!
