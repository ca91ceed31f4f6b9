//! The root task of an install operation and the plan it describes.
use vstd::prelude::*;
use crate::task::{
    TaskDependency, TaskMessage, TaskNode, TaskOrdering, TaskParamType, TaskUnit, compose, expand,
};
use crate::version::VersionTarget;
use vstd::utf8::encode_utf8;

verus! {

/// A package to install, with the version to install it at.
pub struct InstallItem {
    pub name: String,
    pub version_target: VersionTarget,
}

/// An install operation: packages to install and to uninstall, and flags.
pub struct InstallTask {
    pub items: Vec<InstallItem>,
    pub uninstall_items: Vec<String>,
    pub fresh_install: bool,
    pub create_desktop_shortcuts: bool,
    /// Remove the target directory before installing.
    pub force_install: bool,
}

/// The bytes of a package name.
#[verifier::opaque]
pub open spec fn name_bytes(s: String) -> Seq<u8> {
    encode_utf8(s@)
}

/// Byte-wise lexicographic order of `a` and `b` from position `i` on.
pub open spec fn bytes_lt_from(a: Seq<u8>, b: Seq<u8>, i: int) -> bool
    decreases a.len() - i,
{
    if i < 0 || i >= a.len() {
        0 <= i < b.len()
    } else if i >= b.len() {
        false
    } else if a[i] != b[i] {
        a[i] < b[i]
    } else {
        bytes_lt_from(a, b, i + 1)
    }
}

/// `a` orders strictly before `b`, byte by byte, as strings order.
pub open spec fn name_lt(a: String, b: String) -> bool {
    bytes_lt_from(name_bytes(a), name_bytes(b), 0)
}

/// The items are in strictly increasing order of name.
pub open spec fn items_sorted(items: Seq<InstallItem>) -> bool {
    forall|i: int, j: int| 0 <= i < j < items.len() ==> name_lt(#[trigger] items[i].name, #[trigger] items[j].name)
}

proof fn lemma_bytes_order(a: Seq<u8>, b: Seq<u8>, c: Seq<u8>, i: int)
    requires
        0 <= i,
    ensures
        !bytes_lt_from(a, a, i),
        bytes_lt_from(a, b, i) && bytes_lt_from(b, c, i) ==> bytes_lt_from(a, c, i),
        bytes_lt_from(a, b, i) ==> !bytes_lt_from(b, a, i),
        i <= a.len() && i <= b.len() && !bytes_lt_from(a, b, i) && !bytes_lt_from(b, a, i) ==> a.subrange(i, a.len() as int) == b.subrange(i, b.len() as int),
    decreases a.len() - i,
{
    if i < a.len() && i < b.len() && a[i] == b[i] {
        lemma_bytes_order(a, b, c, i + 1);
        assert(!bytes_lt_from(a, b, i + 1) && !bytes_lt_from(b, a, i + 1) ==> a.subrange(i, a.len() as int) =~= seq![a[i]] + a.subrange(i + 1, a.len() as int) && b.subrange(i, b.len() as int) =~= seq![b[i]] + b.subrange(i + 1, b.len() as int));
    } else if i < a.len() && i < b.len() {
    } else {
        if i <= a.len() && i <= b.len() && !bytes_lt_from(a, b, i) && !bytes_lt_from(b, a, i) {
            assert(a.subrange(i, a.len() as int) =~= b.subrange(i, b.len() as int));
        }
    }
    if i < a.len() {
        lemma_bytes_order(a, a, c, i + 1);
    }
}

/// Whether `a` orders strictly before `b`.
pub fn name_less(a: &String, b: &String) -> (r: bool)
    ensures
        r == name_lt(*a, *b),
{
    let x = a.as_str().as_bytes();
    let y = b.as_str().as_bytes();
    proof {
        reveal(name_bytes);
    }
    let mut i: usize = 0;
    while i < x.len() && i < y.len() && x[i] == y[i]
        invariant
            i <= x@.len(),
            x@ == name_bytes(*a),
            y@ == name_bytes(*b),
            bytes_lt_from(x@, y@, 0) == bytes_lt_from(x@, y@, i as int),
        decreases x@.len() - i,
    {
        i = i + 1;
    }
    if i < x.len() && i < y.len() {
        x[i] < y[i]
    } else {
        i >= x.len() && i < y.len()
    }
}

/// The dependencies an install operation declares, as (ordering, unit) pairs,
/// in order: the single-instance guard, the target removal when forced, the
/// directory check, one uninstall per uninstall item, one install per item,
/// and on a fresh install saving the executable and the global shortcuts
/// before, and the launch on exit after.
pub open spec fn install_dependencies(t: InstallTask) -> Seq<(TaskOrdering, TaskUnit)> {
    seq![(TaskOrdering::Pre, TaskUnit::EnsureOnlyInstance)] + (if t.force_install {
        seq![(TaskOrdering::Pre, TaskUnit::RemoveTargetDir)]
    } else {
        seq![]
    }) + seq![(TaskOrdering::Pre, TaskUnit::VerifyInstallDir { clean_install: t.fresh_install })]
        + t.uninstall_items@.map_values(
        |n: String| (TaskOrdering::Pre, TaskUnit::UninstallPackage { name: n, optional: false }),
    ) + t.items@.map_values(
        |it: InstallItem|
            (TaskOrdering::Pre, TaskUnit::InstallPackage {
                name: it.name,
                version_target: it.version_target,
                create_desktop_shortcuts: t.create_desktop_shortcuts,
            }),
    ) + (if t.fresh_install {
        seq![
            (TaskOrdering::Pre, TaskUnit::SaveExecutable),
            (TaskOrdering::Pre, TaskUnit::InstallGlobalShortcuts),
            (TaskOrdering::Post, TaskUnit::LaunchOnExit),
        ]
    } else {
        seq![]
    })
}

/// `deps` is exactly the list `spec` of plain tasks.
pub open spec fn plain_dependencies(deps: Seq<TaskDependency>, spec: Seq<(TaskOrdering, TaskUnit)>) -> bool {
    &&& deps.len() == spec.len()
    &&& forall|i: int|
        0 <= i < deps.len() ==> {
            &&& (#[trigger] deps[i]).ordering == spec[i].0
            &&& deps[i].task.unit == spec[i].1
            &&& deps[i].task.dependencies@.len() == 0
        }
}

/// The units of the plain dependencies with ordering `o`, in order.
pub open spec fn units_with(spec: Seq<(TaskOrdering, TaskUnit)>, o: TaskOrdering) -> Seq<TaskUnit>
    decreases spec.len(),
{
    if spec.len() == 0 {
        seq![]
    } else {
        let before = units_with(spec.drop_last(), o);
        if spec.last().0 == o {
            before.push(spec.last().1)
        } else {
            before
        }
    }
}

/// A task whose dependencies are plain tasks expands to the `Pre` units, the
/// task, and the `Post` units, each in declared order.
pub proof fn lemma_expand_plain(n: TaskNode, listed: Seq<(TaskOrdering, TaskUnit)>)
    requires
        plain_dependencies(n.dependencies@, listed),
    ensures
        expand(n) == units_with(listed, TaskOrdering::Pre) + seq![n.unit] + units_with(
            listed,
            TaskOrdering::Post,
        ),
{
    lemma_expand_deps_plain(n, listed, TaskOrdering::Pre, listed.len());
    lemma_expand_deps_plain(n, listed, TaskOrdering::Post, listed.len());
    assert(listed.take(listed.len() as int) =~= listed);
}

proof fn lemma_expand_deps_plain(
    n: TaskNode,
    listed: Seq<(TaskOrdering, TaskUnit)>,
    o: TaskOrdering,
    k: nat,
)
    requires
        plain_dependencies(n.dependencies@, listed),
        k <= listed.len(),
    ensures
        crate::task::expand_deps(n, o, k) == units_with(listed.take(k as int), o),
    decreases k,
{
    if k == 0 {
        assert(listed.take(0) =~= seq![]);
    } else {
        lemma_expand_deps_plain(n, listed, o, (k - 1) as nat);
        let d = n.dependencies@[k - 1];
        assert(d.task.dependencies@.len() == 0);
        crate::task::lemma_expand_leaf(*d.task);
        assert(listed.take(k as int).drop_last() =~= listed.take(k - 1));
    }
}

fn push_plain(
    elements: &mut Vec<TaskDependency>,
    ordering: TaskOrdering,
    unit: TaskUnit,
    Ghost(listed): Ghost<Seq<(TaskOrdering, TaskUnit)>>,
)
    requires
        plain_dependencies(old(elements)@, listed),
    ensures
        plain_dependencies(final(elements)@, listed.push((ordering, unit))),
{
    elements.push(TaskDependency::build(ordering, Box::new(TaskNode::leaf(unit))));
    assert forall|i: int| 0 <= i < elements@.len() implies {
        &&& (#[trigger] elements@[i]).ordering == listed.push((ordering, unit))[i].0
        &&& elements@[i].task.unit == listed.push((ordering, unit))[i].1
        &&& elements@[i].task.dependencies@.len() == 0
    } by {
        if i < listed.len() {
            assert(elements@[i] == old(elements)@[i]);
        }
    }
}

/// Every item of `now` comes from the first `done` requested items, and every
/// one of them has its name in `now`.
pub open spec fn tracks_request(now: Seq<InstallItem>, orig: Seq<InstallItem>, done: int) -> bool {
    &&& forall|k: int| 0 <= k < now.len() ==> exists|j: int| 0 <= j < done && #[trigger] now[k] == orig[j]
    &&& forall|j: int| #![trigger orig[j]] 0 <= j < done ==> exists|k: int| 0 <= k < now.len() && name_bytes(#[trigger] now[k].name) == name_bytes(orig[j].name)
}

proof fn lemma_add_item_tracks(before: Seq<InstallItem>, after: Seq<InstallItem>, orig: Seq<InstallItem>, done: int, p: int)
    requires
        0 <= done < orig.len(),
        tracks_request(before, orig, done),
        0 <= p <= before.len(),
        ({
            ||| after == before.insert(p, orig[done])
            ||| (p < before.len() && name_bytes(before[p].name) == name_bytes(orig[done].name)
                && after == before.update(p, orig[done]))
        }),
    ensures
        tracks_request(after, orig, done + 1),
{
    lemma_add_item_keeps_items(before, after, orig, done, p);
    lemma_add_item_keeps_names(before, after, orig, done, p);
}

#[verifier::rlimit(40)]
proof fn lemma_add_item_keeps_items(before: Seq<InstallItem>, after: Seq<InstallItem>, orig: Seq<InstallItem>, done: int, p: int)
    requires
        0 <= done < orig.len(),
        forall|k: int| 0 <= k < before.len() ==> exists|j: int| 0 <= j < done && #[trigger] before[k] == orig[j],
        0 <= p <= before.len(),
        ({
            ||| after == before.insert(p, orig[done])
            ||| (p < before.len() && after == before.update(p, orig[done]))
        }),
    ensures
        forall|k: int| 0 <= k < after.len() ==> exists|j: int| 0 <= j < done + 1 && #[trigger] after[k] == orig[j],
{
    let item = orig[done];
    assert forall|k: int| 0 <= k < after.len() implies exists|j: int| 0 <= j < done + 1 && #[trigger] after[k] == orig[j] by {
        if k == p {
            assert(after[k] == orig[done]);
        } else if after == before.insert(p, item) && k > p {
            assert(after[k] == before[k - 1]);
            let j = choose|j: int| 0 <= j < done && #[trigger] before[k - 1] == orig[j];
            assert(after[k] == orig[j]);
        } else {
            assert(after[k] == before[k]);
            let j = choose|j: int| 0 <= j < done && #[trigger] before[k] == orig[j];
            assert(after[k] == orig[j]);
        }
    }
}

#[verifier::rlimit(40)]
proof fn lemma_add_item_keeps_names(before: Seq<InstallItem>, after: Seq<InstallItem>, orig: Seq<InstallItem>, done: int, p: int)
    requires
        0 <= done < orig.len(),
        tracks_request(before, orig, done),
        0 <= p <= before.len(),
        ({
            ||| after == before.insert(p, orig[done])
            ||| (p < before.len() && name_bytes(before[p].name) == name_bytes(orig[done].name)
                && after == before.update(p, orig[done]))
        }),
    ensures
        forall|j: int| #![trigger orig[j]] 0 <= j < done + 1 ==> exists|k: int| 0 <= k < after.len() && name_bytes(#[trigger] after[k].name) == name_bytes(orig[j].name),
{
    let item = orig[done];
    assert forall|j: int| #![trigger orig[j]] 0 <= j < done + 1 implies exists|k: int| 0 <= k < after.len() && name_bytes(#[trigger] after[k].name) == name_bytes(orig[j].name) by {
        if j == done {
            assert(after[p] == item);
            assert(name_bytes(after[p].name) == name_bytes(orig[j].name));
        } else {
            assert(orig[j] == orig[j]);
            let k0 = choose|k: int| 0 <= k < before.len() && name_bytes(#[trigger] before[k].name) == name_bytes(orig[j].name);
            if after == before.insert(p, item) {
                if k0 < p {
                    assert(after[k0] == before[k0]);
                    assert(name_bytes(after[k0].name) == name_bytes(orig[j].name));
                } else {
                    assert(after[k0 + 1] == before[k0]);
                    assert(name_bytes(after[k0 + 1].name) == name_bytes(orig[j].name));
                }
            } else if k0 != p {
                assert(after[k0] == before[k0]);
                assert(name_bytes(after[k0].name) == name_bytes(orig[j].name));
            } else {
                assert(after[p] == item);
                assert(name_bytes(after[p].name) == name_bytes(orig[j].name));
            }
        }
    }
}

impl InstallTask {
    /// The items are ordered strictly by name, so each name occurs once and
    /// the plan does not depend on the order in which items were given.
    pub open spec fn wf(&self) -> bool {
        items_sorted(self.items@)
    }

    /// An operation with nothing to install or uninstall yet.
    pub fn new(fresh_install: bool, create_desktop_shortcuts: bool, force_install: bool) -> (r: InstallTask)
        ensures
            r.wf(),
            r.items@.len() == 0,
            r.uninstall_items@.len() == 0,
            r.fresh_install == fresh_install,
            r.create_desktop_shortcuts == create_desktop_shortcuts,
            r.force_install == force_install,
    {
        InstallTask {
            items: Vec::new(),
            uninstall_items: Vec::new(),
            fresh_install,
            create_desktop_shortcuts,
            force_install,
        }
    }

    /// Assembles an install operation from a request: the packages to
    /// install, whatever their order (of two items of equal name one is kept), the
    /// packages to uninstall, and the flags. The items end up ordered by name,
    /// so the plan does not depend on the order of the request.
    pub fn from_request(
        items: Vec<InstallItem>,
        uninstall_items: Vec<String>,
        fresh_install: bool,
        create_desktop_shortcuts: bool,
        force_install: bool,
    ) -> (r: InstallTask)
        ensures
            r.wf(),
            tracks_request(r.items@, items@, items@.len() as int),
            r.uninstall_items == uninstall_items,
            r.fresh_install == fresh_install,
            r.create_desktop_shortcuts == create_desktop_shortcuts,
            r.force_install == force_install,
    {
        let mut task = InstallTask::new(fresh_install, create_desktop_shortcuts, force_install);
        task.uninstall_items = uninstall_items;
        let ghost orig = items@;
        let mut rest = items;
        let ghost total = orig.len();
        while rest.len() > 0
            invariant
                items_sorted(task.items@),
                tracks_request(task.items@, orig, total - rest@.len()),
                rest@.len() <= total == orig.len(),
                rest@ == orig.subrange(total - rest@.len(), total as int),
                task.uninstall_items == uninstall_items,
                task.fresh_install == fresh_install,
                task.create_desktop_shortcuts == create_desktop_shortcuts,
                task.force_install == force_install,
            decreases rest@.len(),
        {
            let ghost done = total - rest@.len();
            let ghost old_items = task.items@;
            let item = rest.remove(0);
            assert(item == orig[done]);
            let p = task.insert_item(item);
            assert(rest@ =~= orig.subrange(total - rest@.len(), total as int));
            proof {
                lemma_add_item_tracks(old_items, task.items@, orig, done, p as int);
            }
        }
        assert(tracks_request(task.items@, orig, total as int));
        task
    }

    /// Adds a package to install, keeping the items ordered by name; an item
    /// of the same name is replaced.
    pub fn add_item(&mut self, item: InstallItem)
        ensures
            old(self).wf() ==> final(self).wf(),
            exists|p: int| 0 <= p <= old(self).items@.len() && {
                ||| final(self).items@ == old(self).items@.insert(p, item)
                ||| (p < old(self).items@.len() && name_bytes(old(self).items@[p].name) == name_bytes(item.name)
                    && final(self).items@ == old(self).items@.update(p, item))
            },
            final(self).uninstall_items == old(self).uninstall_items,
            final(self).fresh_install == old(self).fresh_install,
            final(self).create_desktop_shortcuts == old(self).create_desktop_shortcuts,
            final(self).force_install == old(self).force_install,
    {
        let p = self.insert_item(item);
        assert(0 <= p as int <= old(self).items@.len());
    }

    /// Puts `item` at its place by name and returns that place.
    fn insert_item(&mut self, item: InstallItem) -> (p: usize)
        ensures
            old(self).wf() ==> final(self).wf(),
            p <= old(self).items@.len(),
            ({
                ||| final(self).items@ == old(self).items@.insert(p as int, item)
                ||| (p < old(self).items@.len() && name_bytes(old(self).items@[p as int].name) == name_bytes(item.name)
                    && final(self).items@ == old(self).items@.update(p as int, item))
            }),
            final(self).uninstall_items == old(self).uninstall_items,
            final(self).fresh_install == old(self).fresh_install,
            final(self).create_desktop_shortcuts == old(self).create_desktop_shortcuts,
            final(self).force_install == old(self).force_install,
    {
        let mut p: usize = 0;
        while p < self.items.len() && name_less(&self.items[p].name, &item.name)
            invariant
                p <= self.items@.len(),
                self.items == old(self).items,
                self.uninstall_items == old(self).uninstall_items,
                self.fresh_install == old(self).fresh_install,
                self.create_desktop_shortcuts == old(self).create_desktop_shortcuts,
                self.force_install == old(self).force_install,
                forall|j: int| 0 <= j < p ==> name_lt(#[trigger] self.items@[j].name, item.name),
            decreases self.items@.len() - p,
        {
            p = p + 1;
        }
        let ghost before = self.items@;
        if p < self.items.len() && !name_less(&item.name, &self.items[p].name) {
            proof {
                lemma_bytes_order(name_bytes(before[p as int].name), name_bytes(item.name), name_bytes(item.name), 0);
                let a = name_bytes(before[p as int].name);
                let b = name_bytes(item.name);
                assert(a.subrange(0, a.len() as int) =~= a);
                assert(b.subrange(0, b.len() as int) =~= b);
            }
            self.items.set(p, item);
            proof {
                assert forall|i: int, j: int| items_sorted(before) && 0 <= i < j < self.items@.len() implies name_lt(#[trigger] self.items@[i].name, #[trigger] self.items@[j].name) by {
                    assert(name_bytes(self.items@[p as int].name) == name_bytes(before[p as int].name));
                }
            }
        } else {
            self.items.insert(p, item);
            proof {
                assert forall|i: int, j: int| items_sorted(before) && 0 <= i < j < self.items@.len() implies name_lt(#[trigger] self.items@[i].name, #[trigger] self.items@[j].name) by {
                    if i < p && j == p {
                    } else if i == p && j > p {
                        lemma_bytes_order(name_bytes(item.name), name_bytes(before[p as int].name), name_bytes(before[j - 1].name), 0);
                        lemma_bytes_order(name_bytes(before[p as int].name), name_bytes(item.name), name_bytes(item.name), 0);
                        if j - 1 > p {
                            assert(name_lt(before[p as int].name, before[j - 1].name));
                        }
                    } else if i < p && j > p {
                        assert(name_lt(before[i].name, before[j - 1].name));
                    } else if j < p {
                    } else {
                        assert(name_lt(before[i - 1].name, before[j - 1].name));
                    }
                }
            }
        }
        p
    }

    /// Reports that the operation is wrapping up; the real work is done by
    /// the dependencies.
    pub fn execute(&self) -> (r: (TaskMessage, TaskParamType))
        ensures
            r.0.text@ == "Wrapping up..."@,
            r.0.permille == 0,
            r.1 == TaskParamType::Nothing,
    {
        (TaskMessage { text: "Wrapping up...".to_string(), permille: 0 }, TaskParamType::Nothing)
    }

    /// The operation's diagnostic name.
    pub fn name(&self) -> (r: String)
        ensures
            r@ == "InstallTask"@,
    {
        "InstallTask".to_string()
    }

    /// The operation as a task node, with its dependencies.
    pub fn to_node(&self) -> (r: TaskNode)
        requires
            self.wf(),
        ensures
            r.unit == TaskUnit::Install,
            plain_dependencies(r.dependencies@, install_dependencies(*self)),
    {
        TaskNode { unit: TaskUnit::Install, dependencies: self.dependencies() }
    }

    /// The flat plan of the operation: the `Pre` dependencies in declared
    /// order, the operation itself, then the `Post` dependencies.
    pub fn plan(&self) -> (r: Vec<TaskUnit>)
        requires
            self.wf(),
        ensures
            r@ == units_with(install_dependencies(*self), TaskOrdering::Pre) + seq![TaskUnit::Install]
                + units_with(install_dependencies(*self), TaskOrdering::Post),
    {
        let node = self.to_node();
        proof {
            lemma_expand_plain(node, install_dependencies(*self));
        }
        compose(&node)
    }

    /// The dependencies of the operation, each a plain task; the installs
    /// follow `items`, which a well-formed operation keeps in ascending order
    /// of name.
    pub fn dependencies(&self) -> (r: Vec<TaskDependency>)
        requires
            self.wf(),
        ensures
            plain_dependencies(r@, install_dependencies(*self)),
    {
        let ghost spec = install_dependencies(*self);
        let mut elements: Vec<TaskDependency> = Vec::new();
        let ghost mut listed: Seq<(TaskOrdering, TaskUnit)> = seq![];
        push_plain(&mut elements, TaskOrdering::Pre, TaskUnit::EnsureOnlyInstance, Ghost(listed));
        proof { listed = listed.push((TaskOrdering::Pre, TaskUnit::EnsureOnlyInstance)); }
        if self.force_install {
            push_plain(&mut elements, TaskOrdering::Pre, TaskUnit::RemoveTargetDir, Ghost(listed));
            proof { listed = listed.push((TaskOrdering::Pre, TaskUnit::RemoveTargetDir)); }
        }
        let verify = TaskUnit::VerifyInstallDir { clean_install: self.fresh_install };
        push_plain(&mut elements, TaskOrdering::Pre, verify, Ghost(listed));
        proof { listed = listed.push((TaskOrdering::Pre, verify)); }
        let ghost head = listed;
        assert(head =~= seq![(TaskOrdering::Pre, TaskUnit::EnsureOnlyInstance)] + (if self.force_install {
            seq![(TaskOrdering::Pre, TaskUnit::RemoveTargetDir)]
        } else {
            seq![]
        }) + seq![(TaskOrdering::Pre, TaskUnit::VerifyInstallDir { clean_install: self.fresh_install })]);
        let ghost uninstalls = self.uninstall_items@.map_values(
            |n: String| (TaskOrdering::Pre, TaskUnit::UninstallPackage { name: n, optional: false }),
        );
        let mut i: usize = 0;
        while i < self.uninstall_items.len()
            invariant
                i <= self.uninstall_items@.len(),
                uninstalls == self.uninstall_items@.map_values(
                    |n: String| (TaskOrdering::Pre, TaskUnit::UninstallPackage { name: n, optional: false }),
                ),
                listed == head + uninstalls.take(i as int),
                plain_dependencies(elements@, listed),
            decreases self.uninstall_items@.len() - i,
        {
            let unit = TaskUnit::UninstallPackage { name: self.uninstall_items[i].clone(), optional: false };
            push_plain(&mut elements, TaskOrdering::Pre, unit, Ghost(listed));
            proof {
                assert(head + uninstalls.take(i + 1) =~= listed.push(uninstalls[i as int]));
                listed = listed.push((TaskOrdering::Pre, unit));
            }
            i = i + 1;
        }
        assert(uninstalls.take(i as int) =~= uninstalls);
        let ghost installs = self.items@.map_values(
            |it: InstallItem|
                (TaskOrdering::Pre, TaskUnit::InstallPackage {
                    name: it.name,
                    version_target: it.version_target,
                    create_desktop_shortcuts: self.create_desktop_shortcuts,
                }),
        );
        let mut j: usize = 0;
        while j < self.items.len()
            invariant
                j <= self.items@.len(),
                installs == self.items@.map_values(
                    |it: InstallItem|
                        (TaskOrdering::Pre, TaskUnit::InstallPackage {
                            name: it.name,
                            version_target: it.version_target,
                            create_desktop_shortcuts: self.create_desktop_shortcuts,
                        }),
                ),
                listed == head + uninstalls + installs.take(j as int),
                plain_dependencies(elements@, listed),
            decreases self.items@.len() - j,
        {
            let item = &self.items[j];
            let unit = TaskUnit::InstallPackage {
                name: item.name.clone(),
                version_target: item.version_target,
                create_desktop_shortcuts: self.create_desktop_shortcuts,
            };
            push_plain(&mut elements, TaskOrdering::Pre, unit, Ghost(listed));
            proof {
                assert(head + uninstalls + installs.take(j + 1) =~= listed.push(installs[j as int]));
                listed = listed.push((TaskOrdering::Pre, unit));
            }
            j = j + 1;
        }
        assert(installs.take(j as int) =~= installs);
        let ghost body = listed;
        if self.fresh_install {
            push_plain(&mut elements, TaskOrdering::Pre, TaskUnit::SaveExecutable, Ghost(listed));
            proof { listed = listed.push((TaskOrdering::Pre, TaskUnit::SaveExecutable)); }
            push_plain(&mut elements, TaskOrdering::Pre, TaskUnit::InstallGlobalShortcuts, Ghost(listed));
            proof { listed = listed.push((TaskOrdering::Pre, TaskUnit::InstallGlobalShortcuts)); }
            push_plain(&mut elements, TaskOrdering::Post, TaskUnit::LaunchOnExit, Ghost(listed));
            proof { listed = listed.push((TaskOrdering::Post, TaskUnit::LaunchOnExit)); }
        }
        assert(spec =~= listed);
        elements
    }
}

} // verus!
