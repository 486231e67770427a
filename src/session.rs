use vstd::prelude::*;

use crate::entry::{name_view, Entry};
use crate::path::{child_path, copy_path, file_name, file_name_of, path_name};
use crate::resolver::{
    collision_model, find_nested_dir, is_unnest_plan, name_taken, op_model, ops_model,
    plan_unnest, qualifies, qualifying_count, FsOp, OpModel,
};
use crate::walker::{subdir_paths, DirWalker};

verus! {

/// What the caller reports back after carrying out an [`Action`].
pub enum Event {
    /// The entries of the directory that was to be read.
    Listing(Vec<Entry>),
    /// The directory that was to be read could not be read.
    Unreadable,
    /// The operation was carried out (or, in preview, reported).
    Done,
    /// The operation failed, with the filesystem's message.
    Failed(String),
}

/// Why a run stopped.
pub enum FixError {
    /// The nested directory chosen for a merge could not be listed.
    Unreadable { dir: Vec<String> },
    /// An entry of the nested directory would land on an entry that its
    /// parent already holds.
    Collision { path: Vec<String> },
    /// The filesystem refused an operation.
    OpFailed { op: FsOp, message: String },
}

/// What the session asks of its caller next.
pub enum Action {
    /// List the directory and answer with [`Event::Listing`] or [`Event::Unreadable`].
    ReadDir(Vec<String>),
    /// Carry out the operation and answer with [`Event::Done`] or [`Event::Failed`].
    Apply(FsOp),
    /// Report the operation without carrying it out, and answer with [`Event::Done`].
    Preview(FsOp),
    /// The run is over and succeeded.
    Finish,
    /// The run is over and failed.
    Fail(FixError),
}

/// Where a session stands between two requests.
pub enum Phase {
    /// Waiting for the listing of a directory under inspection.
    Inspecting { dir: Vec<String> },
    /// `parent` holds exactly one qualifying directory, `nested`: waiting for
    /// the listing of `parent/nested`.
    ListingNested { parent: Vec<String>, parent_entries: Vec<Entry>, nested: String },
    /// Carrying out a merge plan: waiting for the outcome of `ops[next]`.
    Applying { ops: Vec<FsOp>, collision: Option<Vec<String>>, next: usize },
    Finished,
    Failed,
}

/// One run of the repair over a directory tree. Directories are taken from a
/// depth-first walk; each is inspected once, from its listing at that moment,
/// and merged with its nested directory when exactly one qualifies.
pub struct FixSession {
    pub walker: DirWalker,
    /// The file name of the root path, if it has one.
    pub root_name: Option<String>,
    pub skip_name_match: bool,
    pub dry_run: bool,
    pub phase: Phase,
}

/// The entries that an event reports; none when it is not a listing.
pub open spec fn listing(ev: Event) -> Seq<Entry> {
    match ev {
        Event::Listing(es) => es@,
        _ => Seq::empty(),
    }
}

/// `r` asks for the listing of `dir`.
pub open spec fn requests_read(r: Action, dir: Seq<String>) -> bool {
    match r {
        Action::ReadDir(p) => p@ == dir,
        _ => false,
    }
}

/// `r` ends the run on a name collision at `path`.
pub open spec fn fails_with_collision(r: Action, path: Seq<String>) -> bool {
    match r {
        Action::Fail(FixError::Collision { path: p }) => p@ == path,
        _ => false,
    }
}

/// `r` hands out the operation `op`: to be carried out, or in preview only
/// to be reported.
pub open spec fn emits(dry_run: bool, op: OpModel, r: Action) -> bool {
    match r {
        Action::Preview(o) => dry_run && op_model(o) == op,
        Action::Apply(o) => !dry_run && op_model(o) == op,
        _ => false,
    }
}

/// The session `t` and its request `r` come from taking the next directory
/// off the pending paths `pending`, or from finishing when none is left.
pub open spec fn walks_on(pending: Seq<Seq<String>>, t: FixSession, r: Action) -> bool {
    if pending.len() == 0 {
        &&& t.walker@ == pending
        &&& t.phase is Finished
        &&& r is Finish
    } else {
        &&& t.walker@ == pending.drop_last()
        &&& match t.phase {
            Phase::Inspecting { dir } => dir@ == pending.last(),
            _ => false,
        }
        &&& requests_read(r, pending.last())
    }
}

/// The name of a directory of the session's tree.
pub open spec fn dir_name_of(s: FixSession, dir: Seq<String>) -> Option<Seq<char>> {
    path_name(name_view(s.root_name), dir)
}

/// Inspecting `dir` with the listing `es`: its subdirectories join the walk;
/// when exactly one entry qualifies, its listing is asked for next, else the
/// walk moves on.
pub open spec fn inspected(s: FixSession, dir: Seq<String>, es: Seq<Entry>, t: FixSession, r: Action) -> bool {
    let pending = s.walker@ + subdir_paths(dir, es);
    let name = dir_name_of(s, dir);
    if qualifying_count(es, name, s.skip_name_match) == 1 {
        &&& t.walker@ == pending
        &&& match t.phase {
            Phase::ListingNested { parent, parent_entries, nested } => {
                &&& parent@ == dir
                &&& parent_entries@ == es
                &&& exists|i: int|
                    0 <= i < es.len() && qualifies(es[i], name, s.skip_name_match) && #[trigger] es[i].name == nested
                &&& requests_read(r, dir.push(nested))
            },
            _ => false,
        }
    } else {
        walks_on(pending, t, r)
    }
}

/// Receiving `ev` while waiting for the listing of `parent/nested`: a plan is
/// made from both listings and its first operation handed out. A plan that
/// collides at once fails the run, or in preview moves the walk on; an
/// unreadable nested directory fails the run.
pub open spec fn nested_listed(
    s: FixSession,
    parent: Seq<String>,
    parent_entries: Seq<Entry>,
    nested: String,
    ev: Event,
    t: FixSession,
    r: Action,
) -> bool {
    match ev {
        Event::Listing(ne) => {
            if ne@.len() > 0 && name_taken(parent_entries, ne@[0].name@) {
                if s.dry_run {
                    walks_on(s.walker@, t, r)
                } else {
                    &&& t.phase is Failed
                    &&& fails_with_collision(r, parent.push(ne@[0].name))
                }
            } else {
                &&& t.walker@ == s.walker@
                &&& match t.phase {
                    Phase::Applying { ops, collision, next } => {
                        &&& next == 0
                        &&& is_unnest_plan(parent, parent_entries, nested, ne@, ops_model(ops@), collision_model(collision))
                        &&& emits(s.dry_run, op_model(ops@[0]), r)
                    },
                    _ => false,
                }
            }
        },
        _ => {
            &&& t.phase is Failed
            &&& match r {
                Action::Fail(FixError::Unreadable { dir }) => dir@ == parent.push(nested),
                _ => false,
            }
        },
    }
}

/// `ops[next]` went through: the next operation is handed out; after the last
/// one a pending collision fails the run (not in preview), else the walk
/// moves on.
pub open spec fn applied(
    s: FixSession,
    ops: Seq<FsOp>,
    collision: Option<Vec<String>>,
    next: int,
    t: FixSession,
    r: Action,
) -> bool {
    if next + 1 < ops.len() {
        &&& t.walker@ == s.walker@
        &&& match t.phase {
            Phase::Applying { ops: ops2, collision: c2, next: n2 } => {
                &&& ops_model(ops2@) == ops_model(ops)
                &&& collision_model(c2) == collision_model(collision)
                &&& n2 == next + 1
            },
            _ => false,
        }
        &&& emits(s.dry_run, op_model(ops[next + 1]), r)
    } else if collision is Some && !s.dry_run {
        &&& t.phase is Failed
        &&& collision_model(collision) matches Some(c)
        &&& fails_with_collision(r, c)
    } else {
        walks_on(s.walker@, t, r)
    }
}

/// Receiving `ev` while waiting for the outcome of `ops[next]`: a failure ends
/// the run with that operation and message; anything else counts as done.
pub open spec fn outcome_received(
    s: FixSession,
    ops: Seq<FsOp>,
    collision: Option<Vec<String>>,
    next: int,
    ev: Event,
    t: FixSession,
    r: Action,
) -> bool {
    match ev {
        Event::Failed(msg) => if s.dry_run {
            applied(s, ops, collision, next, t, r)
        } else {
            &&& t.phase is Failed
            &&& match r {
                Action::Fail(FixError::OpFailed { op, message }) => op_model(op) == op_model(ops[next]) && message == msg,
                _ => false,
            }
        },
        _ => applied(s, ops, collision, next, t, r),
    }
}

/// A tree, as the listing of each readable directory, in which no directory
/// holds exactly one qualifying nested directory.
pub open spec fn settled(tree: Map<Seq<String>, Seq<Entry>>, root_name: Option<Seq<char>>, skip_name_match: bool) -> bool {
    forall|dir: Seq<String>| #[trigger] tree.contains_key(dir)
        ==> qualifying_count(tree[dir], path_name(root_name, dir), skip_name_match) != 1
}

/// The entries that `tree` lists for `dir`; none where `dir` is no readable
/// directory of it.
pub open spec fn listing_in(tree: Map<Seq<String>, Seq<Entry>>, dir: Seq<String>) -> Seq<Entry> {
    if tree.contains_key(dir) {
        tree[dir]
    } else {
        Seq::empty()
    }
}

/// A run over a tree with nothing left to merge leaves it as it is: while the
/// listings come from a settled tree, inspecting a directory only moves the
/// walk on, so the session asks for listings and finishes without handing
/// out a single operation. A tree that a run has fully settled is therefore
/// left unchanged by running again.
pub proof fn settled_tree_is_left_alone(
    tree: Map<Seq<String>, Seq<Entry>>,
    s: FixSession,
    dir: Seq<String>,
    t: FixSession,
    r: Action,
)
    requires
        settled(tree, name_view(s.root_name), s.skip_name_match),
        inspected(s, dir, listing_in(tree, dir), t, r),
    ensures
        (t.phase is Inspecting && r is ReadDir) || (t.phase is Finished && r is Finish),
{
    if tree.contains_key(dir) {
        assert(qualifying_count(tree[dir], dir_name_of(s, dir), s.skip_name_match) != 1);
    } else {
        assert(qualifying_count(Seq::<Entry>::empty(), dir_name_of(s, dir), s.skip_name_match) == 0);
    }
}

/// The session `s`, on receiving `ev`, became `t` and made the request `r`:
/// the settings stay, and in preview no operation is handed out to be carried
/// out.
pub open spec fn handled(s: FixSession, ev: Event, t: FixSession, r: Action) -> bool {
    &&& s.same_settings(t)
    &&& t.wf()
    &&& s.dry_run ==> !(r is Apply)
    &&& (s.phase matches Phase::Inspecting { dir } ==> inspected(s, dir@, listing(ev), t, r))
    &&& (s.phase matches Phase::ListingNested { parent, parent_entries, nested } ==> nested_listed(
        s,
        parent@,
        parent_entries@,
        nested,
        ev,
        t,
        r,
    ))
    &&& (s.phase matches Phase::Applying { ops, collision, next } ==> outcome_received(
        s,
        ops@,
        collision,
        next as int,
        ev,
        t,
        r,
    ))
}

/// A run in the making: `ss[i]` made the request `rs[i]`, was answered with
/// `evs[i]`, and became `ss[i + 1]`, with `rs[i + 1]` as its next request.
pub open spec fn run_steps(ss: Seq<FixSession>, evs: Seq<Event>, rs: Seq<Action>) -> bool {
    &&& ss.len() == rs.len()
    &&& ss.len() == evs.len() + 1
    &&& forall|i: int| 0 <= i < evs.len() ==> !(#[trigger] ss[i]).is_over() && handled(ss[i], evs[i], ss[i + 1], rs[i + 1])
}

/// A run whose inspections were each answered with a listing from `tree`.
pub open spec fn run_over(tree: Map<Seq<String>, Seq<Entry>>, ss: Seq<FixSession>, evs: Seq<Event>, rs: Seq<Action>) -> bool {
    &&& run_steps(ss, evs, rs)
    &&& forall|i: int| 0 <= i < evs.len() ==> ((#[trigger] ss[i]).phase matches Phase::Inspecting { dir }
        ==> listing(evs[i]) == listing_in(tree, dir@))
}

proof fn preview_run_prefix(ss: Seq<FixSession>, evs: Seq<Event>, rs: Seq<Action>, k: int)
    requires
        run_steps(ss, evs, rs),
        0 <= k < ss.len(),
        ss[0].dry_run,
        !(rs[0] is Apply),
    ensures
        ss[k].dry_run,
        !(rs[k] is Apply),
    decreases k,
{
    if k > 0 {
        preview_run_prefix(ss, evs, rs, k - 1);
        assert(handled(ss[k - 1], evs[k - 1], ss[k], rs[k]));
    }
}

/// A preview changes nothing: however its requests are answered, a run that
/// starts in preview, as [`fix_nested_directories`] starts one, never hands
/// out an operation to be carried out.
pub proof fn preview_run_applies_nothing(ss: Seq<FixSession>, evs: Seq<Event>, rs: Seq<Action>)
    requires
        run_steps(ss, evs, rs),
        ss.len() > 0,
        ss[0].dry_run,
        !(rs[0] is Apply),
    ensures
        forall|i: int| 0 <= i < rs.len() ==> !(#[trigger] rs[i] is Apply),
{
    assert forall|i: int| 0 <= i < rs.len() implies !(#[trigger] rs[i] is Apply) by {
        preview_run_prefix(ss, evs, rs, i);
    }
}

/// Only reading so far: the session is inspecting and has asked for a listing,
/// or has finished.
pub open spec fn only_reading(s: FixSession, r: Action) -> bool {
    (s.phase is Inspecting && r is ReadDir) || (s.phase is Finished && r is Finish)
}

proof fn settled_run_prefix(tree: Map<Seq<String>, Seq<Entry>>, ss: Seq<FixSession>, evs: Seq<Event>, rs: Seq<Action>, k: int)
    requires
        run_over(tree, ss, evs, rs),
        0 <= k < ss.len(),
        only_reading(ss[0], rs[0]),
        settled(tree, name_view(ss[0].root_name), ss[0].skip_name_match),
    ensures
        only_reading(ss[k], rs[k]),
        ss[0].same_settings(ss[k]),
    decreases k,
{
    if k > 0 {
        settled_run_prefix(tree, ss, evs, rs, k - 1);
        let s = ss[k - 1];
        assert(handled(s, evs[k - 1], ss[k], rs[k]));
        if let Phase::Inspecting { dir } = s.phase {
            settled_tree_is_left_alone(tree, s, dir@, ss[k], rs[k]);
        }
    }
}

/// Running again over a tree with nothing left to merge leaves it as it is:
/// in a run that starts as [`fix_nested_directories`] starts one and is
/// answered from a settled tree, every request is a listing or the end of the
/// run, and no operation is ever handed out.
pub proof fn settled_tree_run_only_reads(
    tree: Map<Seq<String>, Seq<Entry>>,
    ss: Seq<FixSession>,
    evs: Seq<Event>,
    rs: Seq<Action>,
)
    requires
        run_over(tree, ss, evs, rs),
        ss.len() > 0,
        only_reading(ss[0], rs[0]),
        settled(tree, name_view(ss[0].root_name), ss[0].skip_name_match),
    ensures
        forall|i: int| 0 <= i < rs.len() ==> #[trigger] rs[i] is ReadDir || rs[i] is Finish,
{
    assert forall|i: int| 0 <= i < rs.len() implies #[trigger] rs[i] is ReadDir || rs[i] is Finish by {
        settled_run_prefix(tree, ss, evs, rs, i);
    }
}

impl FixSession {
    /// The session's state is consistent.
    pub open spec fn wf(&self) -> bool {
        self.phase matches Phase::Applying { ops, next, .. } ==> next < ops.len()
    }

    /// Whether the run is over.
    pub open spec fn is_over(&self) -> bool {
        self.phase is Finished || self.phase is Failed
    }

    /// `t` has the settings of `self`.
    pub open spec fn same_settings(&self, t: FixSession) -> bool {
        &&& t.root_name == self.root_name
        &&& t.skip_name_match == self.skip_name_match
        &&& t.dry_run == self.dry_run
    }

    fn walk_on(&mut self) -> (r: Action)
        ensures
            old(self).same_settings(*final(self)),
            final(self).wf(),
            walks_on(old(self).walker@, *final(self), r),
    {
        match self.walker.pop_next() {
            None => {
                self.phase = Phase::Finished;
                Action::Finish
            },
            Some(dir) => {
                let request = copy_path(&dir);
                self.phase = Phase::Inspecting { dir };
                Action::ReadDir(request)
            },
        }
    }

    fn dir_name(&self, dir: &Vec<String>) -> (r: Option<String>)
        ensures
            name_view(r) == dir_name_of(*self, dir@),
    {
        if dir.len() == 1 {
            match &self.root_name {
                Some(n) => Some(n.clone()),
                None => None,
            }
        } else if dir.len() > 1 {
            Some(dir[dir.len() - 1].clone())
        } else {
            None
        }
    }

    fn emit(&self, op: &FsOp) -> (r: Action)
        ensures
            emits(self.dry_run, op_model(*op), r),
    {
        if self.dry_run {
            Action::Preview(op.duplicate())
        } else {
            Action::Apply(op.duplicate())
        }
    }

    fn inspect(&mut self, dir: Vec<String>, entries: Vec<Entry>) -> (r: Action)
        ensures
            old(self).same_settings(*final(self)),
            final(self).wf(),
            inspected(*old(self), dir@, entries@, *final(self), r),
    {
        self.walker.push_subdirs(&dir, &entries);
        let name = self.dir_name(&dir);
        match find_nested_dir(&name, &entries, self.skip_name_match) {
            Some(i) => {
                let nested = entries[i].name.clone();
                let request = child_path(&dir, &nested);
                self.phase = Phase::ListingNested { parent: dir, parent_entries: entries, nested };
                Action::ReadDir(request)
            },
            None => self.walk_on(),
        }
    }

    fn start_merge(&mut self, parent: Vec<String>, parent_entries: Vec<Entry>, nested: String, nested_entries: Vec<Entry>) -> (r: Action)
        ensures
            old(self).same_settings(*final(self)),
            final(self).wf(),
            nested_listed(*old(self), parent@, parent_entries@, nested, Event::Listing(nested_entries), *final(self), r),
    {
        let plan = plan_unnest(&parent, &parent_entries, &nested, &nested_entries);
        if plan.ops.len() == 0 {
            match plan.collision {
                Some(path) => {
                    if self.dry_run {
                        self.walk_on()
                    } else {
                        self.phase = Phase::Failed;
                        Action::Fail(FixError::Collision { path })
                    }
                },
                None => {
                    // a plan without a collision ends in a removal
                    assert(false);
                    Action::Finish
                },
            }
        } else {
            let r = self.emit(&plan.ops[0]);
            self.phase = Phase::Applying { ops: plan.ops, collision: plan.collision, next: 0 };
            r
        }
    }

    fn advance_plan(&mut self, ops: Vec<FsOp>, collision: Option<Vec<String>>, next: usize) -> (r: Action)
        requires
            next < ops.len(),
        ensures
            old(self).same_settings(*final(self)),
            final(self).wf(),
            applied(*old(self), ops@, collision, next as int, *final(self), r),
    {
        if next + 1 < ops.len() {
            let r = self.emit(&ops[next + 1]);
            self.phase = Phase::Applying { ops, collision, next: next + 1 };
            r
        } else {
            match collision {
                Some(path) => {
                    if self.dry_run {
                        self.walk_on()
                    } else {
                        self.phase = Phase::Failed;
                        Action::Fail(FixError::Collision { path })
                    }
                },
                None => self.walk_on(),
            }
        }
    }

    /// Takes the caller's answer to the last request and returns the next
    /// request. In preview no operation is ever handed out to be carried out.
    pub fn handle(&mut self, event: Event) -> (r: Action)
        requires
            old(self).wf(),
            !old(self).is_over(),
        ensures
            handled(*old(self), event, *final(self), r),
    {
        let mut phase = Phase::Failed;
        std::mem::swap(&mut self.phase, &mut phase);
        match phase {
            Phase::Inspecting { dir } => {
                let entries = match event {
                    Event::Listing(es) => es,
                    _ => Vec::new(),
                };
                self.inspect(dir, entries)
            },
            Phase::ListingNested { parent, parent_entries, nested } => {
                match event {
                    Event::Listing(ne) => self.start_merge(parent, parent_entries, nested, ne),
                    _ => {
                        let dir = child_path(&parent, &nested);
                        Action::Fail(FixError::Unreadable { dir })
                    },
                }
            },
            Phase::Applying { ops, collision, next } => {
                match event {
                    Event::Failed(message) => {
                        if self.dry_run {
                            self.advance_plan(ops, collision, next)
                        } else {
                            let op = ops[next].duplicate();
                            Action::Fail(FixError::OpFailed { op, message })
                        }
                    },
                    _ => self.advance_plan(ops, collision, next),
                }
            },
            _ => Action::Finish,
        }
    }
}

/// Starts a run over the tree at `root`, a directory when `root_is_dir`:
/// returns the session and its first request. Nothing under a root that is
/// not a directory is inspected, and the run finishes at once.
pub fn fix_nested_directories(root: String, root_is_dir: bool, skip_name_match: bool, dry_run: bool) -> (r: (FixSession, Action))
    ensures
        r.0.wf(),
        name_view(r.0.root_name) == file_name_of(root@),
        r.0.skip_name_match == skip_name_match,
        r.0.dry_run == dry_run,
        walks_on(if root_is_dir { seq![seq![root]] } else { Seq::empty() }, r.0, r.1),
        dry_run ==> !(r.1 is Apply),
        only_reading(r.0, r.1),
{
    let root_name = file_name(&root);
    let mut path: Vec<String> = Vec::new();
    path.push(root);
    let walker = DirWalker::new(path, root_is_dir);
    let mut session = FixSession { walker, root_name, skip_name_match, dry_run, phase: Phase::Finished };
    let first = session.walk_on();
    (session, first)
}

} // verus!
