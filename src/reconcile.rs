//! Reconciliation of a module tree with a destination base.
//!
//! The walk of the module tree is handed in as a list of entries, each with
//! its path relative to the module root (as components), its full source
//! path and its file type. From it this module derives the rules that
//! overlay the tree onto the destination, or remove that overlay.
use vstd::prelude::*;

verus! {

/// File type of a walked entry.
#[derive(Clone, Copy, Debug, PartialEq, Eq, Structural)]
pub enum EntryKind {
    File,
    Symlink,
    Directory,
    /// A character device, with its device number.
    CharDevice { rdev: u64 },
    /// Anything else: block devices, sockets, FIFOs, or an entry whose
    /// metadata could not be read.
    Other,
}

/// What an entry asks of the destination.
#[derive(Clone, Copy, Debug, PartialEq, Eq, Structural)]
pub enum EntryClass {
    /// Redirect the destination path to the entry.
    Redirect,
    /// Hide the destination path.
    Hide,
    /// Nothing: directories and other entry types.
    Ignore,
}

/// Regular files and symbolic links are redirected. A character device with
/// device number zero is a placeholder that hides the destination path; this
/// convention belongs to the kernel module.
pub open spec fn class_of(k: EntryKind) -> EntryClass {
    match k {
        EntryKind::File | EntryKind::Symlink => EntryClass::Redirect,
        EntryKind::CharDevice { rdev } => if rdev == 0 {
            EntryClass::Hide
        } else {
            EntryClass::Ignore
        },
        _ => EntryClass::Ignore,
    }
}

/// Whether an entry of this kind carries a rule.
pub open spec fn rule_bearing(k: EntryKind) -> bool {
    class_of(k) != EntryClass::Ignore
}

/// Classifies an entry by its file type.
pub fn classify(k: EntryKind) -> (r: EntryClass)
    ensures
        r == class_of(k),
{
    match k {
        EntryKind::File | EntryKind::Symlink => EntryClass::Redirect,
        EntryKind::CharDevice { rdev } => if rdev == 0 {
            EntryClass::Hide
        } else {
            EntryClass::Ignore
        },
        _ => EntryClass::Ignore,
    }
}

/// `base` with the component `c` appended: a separator goes between them
/// unless `base` is empty or already ends with one.
pub open spec fn join_spec(base: Seq<char>, c: Seq<char>) -> Seq<char> {
    if base.len() == 0 || base.last() == '/' {
        base + c
    } else {
        base + seq!['/'] + c
    }
}

/// `base` with every component of `comps` appended in turn.
pub open spec fn dest_spec(base: Seq<char>, comps: Seq<Seq<char>>) -> Seq<char>
    decreases comps.len(),
{
    if comps.len() == 0 {
        base
    } else {
        join_spec(dest_spec(base, comps.drop_last()), comps.last())
    }
}

/// `base` without trailing separators, but for a lone leading one.
pub open spec fn trim_spec(base: Seq<char>) -> Seq<char>
    decreases base.len(),
{
    if base.len() > 1 && base.last() == '/' {
        trim_spec(base.drop_last())
    } else {
        base
    }
}

/// The directory that holds the destination of `comps`, for at least one
/// component. An entry at the top of the tree lands in `base` itself, named
/// without trailing separators.
pub open spec fn parent_spec(base: Seq<char>, comps: Seq<Seq<char>>) -> Seq<char> {
    if comps.len() <= 1 {
        trim_spec(base)
    } else {
        dest_spec(base, comps.drop_last())
    }
}

/// The components of a relative path, as text.
pub open spec fn comps_view(v: Seq<String>) -> Seq<Seq<char>> {
    v.map_values(|s: String| s@)
}

/// Appends the component `c` to the path `base`.
pub fn join(base: &str, c: &str) -> (r: String)
    ensures
        r@ == join_spec(base@, c@),
{
    let n = base.unicode_len();
    let mut r = String::from_str(base);
    if n != 0 && base.get_char(n - 1) != '/' {
        proof {
            reveal_strlit("/");
        }
        r.append("/");
    }
    r.append(c);
    r
}

/// `base` without trailing separators, but for a lone leading one.
pub fn trim_separators(base: &str) -> (r: &str)
    ensures
        r@ == trim_spec(base@),
{
    let mut n = base.unicode_len();
    proof {
        assert(base@.subrange(0, n as int) =~= base@);
    }
    while n > 1 && base.get_char(n - 1) == '/'
        invariant
            n <= base@.len(),
            trim_spec(base@.subrange(0, n as int)) == trim_spec(base@),
        decreases n,
    {
        proof {
            assert(base@.subrange(0, n as int).drop_last() =~= base@.subrange(0, n - 1));
        }
        n -= 1;
    }
    assert(trim_spec(base@.subrange(0, n as int)) == base@.subrange(0, n as int));
    base.substring_char(0, n)
}

/// The path reached from `base` by the first `n` components of `comps`.
pub fn dest_prefix(base: &str, comps: &Vec<String>, n: usize) -> (r: String)
    requires
        n <= comps@.len(),
    ensures
        r@ == dest_spec(base@, comps_view(comps@).take(n as int)),
{
    let mut r = String::from_str(base);
    let mut i: usize = 0;
    while i < n
        invariant
            n <= comps@.len(),
            i <= n,
            r@ == dest_spec(base@, comps_view(comps@).take(i as int)),
        decreases n - i,
    {
        let next = join(r.as_str(), comps[i].as_str());
        proof {
            let cv = comps_view(comps@);
            assert(cv.take(i + 1).drop_last() =~= cv.take(i as int));
            assert(cv.take(i + 1).last() == comps@[i as int]@);
        }
        r = next;
        i += 1;
    }
    r
}


/// One entry of the walk below the module root.
pub struct WalkEntry {
    /// Path relative to the module root, one string per component.
    pub components: Vec<String>,
    /// Full path of the entry in the module tree.
    pub source: String,
    pub kind: EntryKind,
}

/// A rule operation gathered during the walk.
#[derive(Debug)]
pub enum PendingOp {
    /// Redirect `dest` to `src`.
    AddRedirect { dest: String, src: String },
    /// Hide `dest`.
    HideVirtual { dest: String },
}

/// A pending operation, over paths as text.
pub ghost enum OpModel {
    AddRedirect { dest: Seq<char>, src: Seq<char> },
    HideVirtual { dest: Seq<char> },
}

impl View for PendingOp {
    type V = OpModel;

    open spec fn view(&self) -> OpModel {
        match self {
            PendingOp::AddRedirect { dest, src } => OpModel::AddRedirect { dest: dest@, src: src@ },
            PendingOp::HideVirtual { dest } => OpModel::HideVirtual { dest: dest@ },
        }
    }
}

/// The destination path of an operation.
pub open spec fn op_dest(o: OpModel) -> Seq<char> {
    match o {
        OpModel::AddRedirect { dest, .. } => dest,
        OpModel::HideVirtual { dest } => dest,
    }
}

/// Whether an entry carries a rule. The module root itself, with no
/// components, never does.
pub open spec fn entry_bears_rule(e: WalkEntry) -> bool {
    e.components@.len() > 0 && rule_bearing(e.kind)
}

/// Where an entry lands under `base`.
pub open spec fn entry_dest(base: Seq<char>, e: WalkEntry) -> Seq<char> {
    dest_spec(base, comps_view(e.components@))
}

/// The directory under `base` that holds an entry's destination.
pub open spec fn entry_parent(base: Seq<char>, e: WalkEntry) -> Seq<char> {
    parent_spec(base, comps_view(e.components@))
}

/// The operation an entry asks for, if any.
pub open spec fn entry_op(base: Seq<char>, e: WalkEntry) -> OpModel {
    if class_of(e.kind) == EntryClass::Redirect {
        OpModel::AddRedirect { dest: entry_dest(base, e), src: e.source@ }
    } else {
        OpModel::HideVirtual { dest: entry_dest(base, e) }
    }
}

/// The pending operations of a walk, in the order the entries came.
pub open spec fn pending_spec(base: Seq<char>, es: Seq<WalkEntry>) -> Seq<OpModel>
    decreases es.len(),
{
    if es.len() == 0 {
        seq![]
    } else {
        let prev = pending_spec(base, es.drop_last());
        if entry_bears_rule(es.last()) {
            prev.push(entry_op(base, es.last()))
        } else {
            prev
        }
    }
}

/// The directories that must be marked injectable: the parent of every
/// rule-bearing entry's destination.
pub open spec fn injected_spec(base: Seq<char>, es: Seq<WalkEntry>) -> Set<Seq<char>> {
    Set::new(
        |d: Seq<char>|
            exists|i: int| 0 <= i < es.len() && entry_bears_rule(es[i]) && d == entry_parent(base, es[i]),
    )
}

/// The paths of a list of strings, as text.
pub open spec fn paths_view(v: Seq<String>) -> Seq<Seq<char>> {
    v.map_values(|s: String| s@)
}

/// What an injection does: the directories to mark injectable, each once,
/// and the rule operations to apply after them.
pub struct InjectionPlan {
    pub injected_dirs: Vec<String>,
    pub pending: Vec<PendingOp>,
}

/// Whether `v` holds the path `s`.
pub fn contains_path(v: &Vec<String>, s: &String) -> (r: bool)
    ensures
        r == paths_view(v@).contains(s@),
{
    let mut i: usize = 0;
    while i < v.len()
        invariant
            i <= v@.len(),
            forall|j: int| 0 <= j < i ==> v@[j]@ != s@,
        decreases v@.len() - i,
    {
        if v[i] == *s {
            assert(paths_view(v@)[i as int] == s@);
            return true;
        }
        i += 1;
    }
    assert(!paths_view(v@).contains(s@)) by {
        if paths_view(v@).contains(s@) {
            let j = choose|j: int| 0 <= j < paths_view(v@).len() && paths_view(v@)[j] == s@;
            assert(v@[j]@ == s@);
        }
    }
    false
}

/// Plans the overlay of a walked module tree onto `base`.
///
/// Each rule-bearing entry gives one pending operation, in the order of the
/// walk; the parents of their destinations are gathered once each.
pub fn plan_injection(base: &str, entries: &Vec<WalkEntry>) -> (r: InjectionPlan)
    ensures
        r.pending@.map_values(|o: PendingOp| o@) == pending_spec(base@, entries@),
        paths_view(r.injected_dirs@).no_duplicates(),
        paths_view(r.injected_dirs@).to_set() == injected_spec(base@, entries@),
{
    let mut dirs: Vec<String> = Vec::new();
    let mut pending: Vec<PendingOp> = Vec::new();
    let mut i: usize = 0;
    while i < entries.len()
        invariant
            i <= entries@.len(),
            pending@.map_values(|o: PendingOp| o@) == pending_spec(
                base@,
                entries@.take(i as int),
            ),
            paths_view(dirs@).no_duplicates(),
            paths_view(dirs@).to_set() == injected_spec(base@, entries@.take(i as int)),
        decreases entries@.len() - i,
    {
        let e = &entries[i];
        let class = classify(e.kind);
        let n = e.components.len();
        proof {
            assert(entries@.take(i + 1).drop_last() =~= entries@.take(i as int));
            assert(entries@.take(i + 1).last() == entries@[i as int]);
        }
        let ghost old_dirs = paths_view(dirs@);
        if n > 0 && !matches!(class, EntryClass::Ignore) {
            let dest = dest_prefix(base, &e.components, n);
            let parent = if n == 1 {
                String::from_str(trim_separators(base))
            } else {
                dest_prefix(base, &e.components, n - 1)
            };
            proof {
                let cv = comps_view(e.components@);
                assert(cv.take(n as int) =~= cv);
                assert(cv.take(n - 1) =~= cv.drop_last());
            }
            let op = if matches!(class, EntryClass::Redirect) {
                PendingOp::AddRedirect { dest, src: e.source.clone() }
            } else {
                PendingOp::HideVirtual { dest }
            };
            pending.push(op);
            let ghost pv = parent@;
            if !contains_path(&dirs, &parent) {
                dirs.push(parent);
                proof {
                    assert(paths_view(dirs@) =~= old_dirs.push(pv));
                    assert(paths_view(dirs@)[old_dirs.len() as int] == pv);
                }
            }
            assert(paths_view(dirs@) == old_dirs || paths_view(dirs@) == old_dirs.push(pv));
            assert(paths_view(dirs@).contains(pv));
            proof {
                assert(pending@.map_values(|o: PendingOp| o@) =~= pending_spec(
                    base@,
                    entries@.take(i + 1),
                ));
                assert(paths_view(dirs@).to_set() =~= injected_spec(base@, entries@.take(i + 1))) by {
                    let es = entries@.take(i + 1);
                    assert forall|d: Seq<char>|
                        paths_view(dirs@).to_set().contains(d) implies injected_spec(
                        base@,
                        es,
                    ).contains(d) by {
                        if d != entry_parent(base@, es[i as int]) {
                            let m = choose|m: int|
                                0 <= m < paths_view(dirs@).len() && paths_view(dirs@)[m] == d;
                            if paths_view(dirs@) != old_dirs {
                                assert(m < old_dirs.len());
                                assert(old_dirs[m] == d);
                            }
                            assert(old_dirs.contains(d));
                            assert(old_dirs.to_set().contains(d));
                            let k = choose|k: int|
                                0 <= k < i && entry_bears_rule(entries@.take(i as int)[k]) && d
                                    == entry_parent(base@, entries@.take(i as int)[k]);
                            assert(es[k] == entries@.take(i as int)[k]);
                        }
                    }
                    assert forall|d: Seq<char>|
                        injected_spec(base@, es).contains(d) implies paths_view(
                        dirs@,
                    ).to_set().contains(d) by {
                        let k = choose|k: int|
                            0 <= k < es.len() && entry_bears_rule(es[k]) && d == entry_parent(
                                base@,
                                es[k],
                            );
                        if k < i {
                            assert(es[k] == entries@.take(i as int)[k]);
                            assert(old_dirs.to_set().contains(d));
                            assert(old_dirs.contains(d));
                            let m = choose|m: int| 0 <= m < old_dirs.len() && old_dirs[m] == d;
                            assert(paths_view(dirs@)[m] == d);
                        } else {
                            assert(d == pv);
                        }
                    }
                }
            }
        } else {
            proof {
                assert(pending_spec(base@, entries@.take(i + 1)) == pending_spec(
                    base@,
                    entries@.take(i as int),
                ));
                assert(injected_spec(base@, entries@.take(i + 1)) =~= injected_spec(
                    base@,
                    entries@.take(i as int),
                )) by {
                    let es = entries@.take(i + 1);
                    assert forall|k: int| 0 <= k < i implies es[k] == entries@.take(i as int)[k] by {}
                }
            }
        }
        i += 1;
    }
    proof {
        assert(entries@.take(entries@.len() as int) =~= entries@);
    }
    InjectionPlan { injected_dirs: dirs, pending }
}


/// One call to the control device.
#[derive(Debug)]
pub enum Command {
    /// Mark a directory as injectable.
    MarkDir { dir: String },
    /// Redirect `dest` to `src`.
    AddRule { dest: String, src: String },
    /// Hide a path.
    Hide { path: String },
    /// Delete the rule on a path.
    Delete { path: String },
}

/// A command, over paths as text.
pub ghost enum CommandModel {
    MarkDir { dir: Seq<char> },
    AddRule { dest: Seq<char>, src: Seq<char> },
    Hide { path: Seq<char> },
    Delete { path: Seq<char> },
}

impl View for Command {
    type V = CommandModel;

    open spec fn view(&self) -> CommandModel {
        match self {
            Command::MarkDir { dir } => CommandModel::MarkDir { dir: dir@ },
            Command::AddRule { dest, src } => CommandModel::AddRule { dest: dest@, src: src@ },
            Command::Hide { path } => CommandModel::Hide { path: path@ },
            Command::Delete { path } => CommandModel::Delete { path: path@ },
        }
    }
}

/// The commands of a list, as models.
pub open spec fn commands_view(v: Seq<Command>) -> Seq<CommandModel> {
    v.map_values(|c: Command| c@)
}

/// The command that applies a pending operation.
pub open spec fn op_command(o: OpModel) -> CommandModel {
    match o {
        OpModel::AddRedirect { dest, src } => CommandModel::AddRule { dest, src },
        OpModel::HideVirtual { dest } => CommandModel::Hide { path: dest },
    }
}

/// The commands that apply an injection: first every directory is marked,
/// then the pending operations follow in order.
pub open spec fn injection_commands_spec(dirs: Seq<Seq<char>>, ops: Seq<OpModel>) -> Seq<
    CommandModel,
> {
    dirs.map_values(|d: Seq<char>| CommandModel::MarkDir { dir: d }) + ops.map_values(
        |o: OpModel| op_command(o),
    )
}

/// The destinations whose rules a removal deletes, in the order of the walk.
pub open spec fn removal_spec(base: Seq<char>, es: Seq<WalkEntry>) -> Seq<Seq<char>>
    decreases es.len(),
{
    if es.len() == 0 {
        seq![]
    } else {
        let prev = removal_spec(base, es.drop_last());
        if entry_bears_rule(es.last()) {
            prev.push(entry_dest(base, es.last()))
        } else {
            prev
        }
    }
}

/// Turns a plan into the commands that apply it.
pub fn plan_commands(plan: &InjectionPlan) -> (r: Vec<Command>)
    ensures
        commands_view(r@) == injection_commands_spec(
            paths_view(plan.injected_dirs@),
            plan.pending@.map_values(|o: PendingOp| o@),
        ),
{
    let ghost dirs_v = paths_view(plan.injected_dirs@);
    let ghost ops_v = plan.pending@.map_values(|o: PendingOp| o@);
    let mut r: Vec<Command> = Vec::new();
    let mut k: usize = 0;
    while k < plan.injected_dirs.len()
        invariant
            k <= dirs_v.len(),
            dirs_v == paths_view(plan.injected_dirs@),
            commands_view(r@) =~= dirs_v.subrange(0, k as int).map_values(
                |d: Seq<char>| CommandModel::MarkDir { dir: d },
            ),
        decreases dirs_v.len() - k,
    {
        let ghost before = commands_view(r@);
        r.push(Command::MarkDir { dir: plan.injected_dirs[k].clone() });
        proof {
            assert(commands_view(r@) =~= before.push(CommandModel::MarkDir { dir: dirs_v[k as int] }));
            assert(dirs_v.subrange(0, k + 1) =~= dirs_v.subrange(0, k as int).push(dirs_v[k as int]));
        }
        k += 1;
    }
    let ghost r0 = commands_view(r@);
    let mut j: usize = 0;
    while j < plan.pending.len()
        invariant
            j <= ops_v.len(),
            ops_v == plan.pending@.map_values(|o: PendingOp| o@),
            commands_view(r@) =~= r0 + ops_v.subrange(0, j as int).map_values(
                |o: OpModel| op_command(o),
            ),
        decreases ops_v.len() - j,
    {
        let c = match &plan.pending[j] {
            PendingOp::AddRedirect { dest, src } => Command::AddRule {
                dest: dest.clone(),
                src: src.clone(),
            },
            PendingOp::HideVirtual { dest } => Command::Hide { path: dest.clone() },
        };
        proof {
            assert(c@ == op_command(ops_v[j as int]));
        }
        let ghost before = commands_view(r@);
        r.push(c);
        proof {
            assert(commands_view(r@) =~= before.push(op_command(ops_v[j as int])));
            assert(ops_v.subrange(0, j + 1) =~= ops_v.subrange(0, j as int).push(ops_v[j as int]));
        }
        j += 1;
    }
    proof {
        assert(dirs_v.subrange(0, dirs_v.len() as int) =~= dirs_v);
        assert(ops_v.subrange(0, ops_v.len() as int) =~= ops_v);
    }
    r
}


/// The commands that overlay a walked module tree onto `base`.
///
/// Where the module directory is absent or not a directory, there is nothing
/// to do. Otherwise every injected directory is marked once, in some order,
/// before the pending operations, which keep the order of the walk.
pub fn injection_commands(module_is_dir: bool, base: &str, entries: &Vec<WalkEntry>) -> (r: Vec<
    Command,
>)
    ensures
        !module_is_dir ==> r@.len() == 0,
        module_is_dir ==> exists|dirs: Seq<Seq<char>>|
            {
                &&& dirs.no_duplicates()
                &&& dirs.to_set() == injected_spec(base@, entries@)
                &&& commands_view(r@) == injection_commands_spec(
                    dirs,
                    pending_spec(base@, entries@),
                )
            },
{
    if !module_is_dir {
        return Vec::new();
    }
    let plan = plan_injection(base, entries);
    let r = plan_commands(&plan);
    assert(commands_view(r@) == injection_commands_spec(
        paths_view(plan.injected_dirs@),
        pending_spec(base@, entries@),
    ));
    r
}

/// The commands that remove the overlay of a walked module tree from `base`:
/// one deletion for each rule-bearing entry, in the order of the walk.
/// Where the module directory is absent or not a directory, there are none.
pub fn removal_commands(module_is_dir: bool, base: &str, entries: &Vec<WalkEntry>) -> (r: Vec<
    Command,
>)
    ensures
        !module_is_dir ==> r@.len() == 0,
        module_is_dir ==> commands_view(r@) == removal_spec(base@, entries@).map_values(
            |d: Seq<char>| CommandModel::Delete { path: d },
        ),
{
    let mut r: Vec<Command> = Vec::new();
    if !module_is_dir {
        return r;
    }
    let mut i: usize = 0;
    while i < entries.len()
        invariant
            i <= entries@.len(),
            commands_view(r@) =~= removal_spec(base@, entries@.take(i as int)).map_values(
                |d: Seq<char>| CommandModel::Delete { path: d },
            ),
        decreases entries@.len() - i,
    {
        let e = &entries[i];
        let n = e.components.len();
        proof {
            assert(entries@.take(i + 1).drop_last() =~= entries@.take(i as int));
            assert(entries@.take(i + 1).last() == entries@[i as int]);
        }
        if n > 0 && !matches!(classify(e.kind), EntryClass::Ignore) {
            let dest = dest_prefix(base, &e.components, n);
            proof {
                assert(comps_view(e.components@).take(n as int) =~= comps_view(e.components@));
            }
            let ghost before = commands_view(r@);
            r.push(Command::Delete { path: dest });
            proof {
                assert(commands_view(r@) =~= before.push(CommandModel::Delete { path: dest@ }));
            }
        }
        i += 1;
    }
    proof {
        assert(entries@.take(entries@.len() as int) =~= entries@);
    }
    r
}

/// Injection and removal pick the same entries: the paths whose rules a
/// removal deletes are exactly the destinations of the operations an
/// injection applies, in the same order.
pub proof fn lemma_removal_matches_injection(base: Seq<char>, es: Seq<WalkEntry>)
    ensures
        removal_spec(base, es) == pending_spec(base, es).map_values(|o: OpModel| op_dest(o)),
    decreases es.len(),
{
    if es.len() > 0 {
        lemma_removal_matches_injection(base, es.drop_last());
        let prev = pending_spec(base, es.drop_last());
        if entry_bears_rule(es.last()) {
            assert(prev.push(entry_op(base, es.last())).map_values(|o: OpModel| op_dest(o))
                =~= prev.map_values(|o: OpModel| op_dest(o)).push(entry_dest(base, es.last())));
        }
    } else {
        assert(pending_spec(base, es).map_values(|o: OpModel| op_dest(o)) =~= seq![]);
    }
}

} // verus!
