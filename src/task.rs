//! Task units, their dependency descriptions, and the composition of a root
//! task into a flat, ordered plan.
use vstd::prelude::*;
use crate::version::VersionTarget;

verus! {

/// Whether a dependency runs before or after the task that owns it.
#[derive(Clone, Copy, Debug, PartialEq, Eq, Structural)]
pub enum TaskOrdering {
    Pre,
    Post,
}

/// The value handed from one executed step to the next.
#[derive(Clone, Debug)]
pub enum TaskParamType {
    Nothing,
    Str(String),
    Bool(bool),
    Path(String),
    Target(VersionTarget),
}

/// A progress event: a text and how far the work has come, in thousandths.
#[derive(Clone, Debug)]
pub struct TaskMessage {
    pub text: String,
    pub permille: u32,
}

/// The kinds of work a plan is made of.
#[derive(Clone, Debug)]
pub enum TaskUnit {
    /// Makes sure that only one installer runs against the installation.
    EnsureOnlyInstance,
    /// Removes the target installation directory.
    RemoveTargetDir,
    /// Verifies or prepares the installation directory.
    VerifyInstallDir { clean_install: bool },
    /// Uninstalls one package.
    UninstallPackage { name: String, optional: bool },
    /// Installs one package at a version target.
    InstallPackage { name: String, version_target: VersionTarget, create_desktop_shortcuts: bool },
    /// Saves the running executable into the installation.
    SaveExecutable,
    /// Installs the operating-system level shortcuts.
    InstallGlobalShortcuts,
    /// Launches the installed application when the installer exits.
    LaunchOnExit,
    /// The root of an install operation: it only reports that work is done.
    Install,
    /// A unit of work of the caller's own, known by its name.
    Named { name: String },
}

/// The diagnostic name of a unit of work.
pub open spec fn unit_name(u: TaskUnit) -> Seq<char> {
    match u {
        TaskUnit::EnsureOnlyInstance => "EnsureOnlyInstanceTask"@,
        TaskUnit::RemoveTargetDir => "RemoveTargetDirTask"@,
        TaskUnit::VerifyInstallDir { .. } => "VerifyInstallDirTask"@,
        TaskUnit::UninstallPackage { .. } => "UninstallPackageTask"@,
        TaskUnit::InstallPackage { .. } => "InstallPackageTask"@,
        TaskUnit::SaveExecutable => "SaveExecutableTask"@,
        TaskUnit::InstallGlobalShortcuts => "InstallGlobalShortcutsTask"@,
        TaskUnit::LaunchOnExit => "LaunchOnExitTask"@,
        TaskUnit::Install => "InstallTask"@,
        TaskUnit::Named { name } => name@,
    }
}

impl TaskUnit {
    /// The unit's diagnostic name.
    pub fn name(&self) -> (r: String)
        ensures
            r@ == unit_name(*self),
    {
        match self {
            TaskUnit::EnsureOnlyInstance => "EnsureOnlyInstanceTask".to_string(),
            TaskUnit::RemoveTargetDir => "RemoveTargetDirTask".to_string(),
            TaskUnit::VerifyInstallDir { .. } => "VerifyInstallDirTask".to_string(),
            TaskUnit::UninstallPackage { .. } => "UninstallPackageTask".to_string(),
            TaskUnit::InstallPackage { .. } => "InstallPackageTask".to_string(),
            TaskUnit::SaveExecutable => "SaveExecutableTask".to_string(),
            TaskUnit::InstallGlobalShortcuts => "InstallGlobalShortcutsTask".to_string(),
            TaskUnit::LaunchOnExit => "LaunchOnExitTask".to_string(),
            TaskUnit::Install => "InstallTask".to_string(),
            TaskUnit::Named { name } => name.clone(),
        }
    }

    /// An exact copy of the unit.
    pub fn duplicate(&self) -> (r: TaskUnit)
        ensures
            r == *self,
    {
        match self {
            TaskUnit::EnsureOnlyInstance => TaskUnit::EnsureOnlyInstance,
            TaskUnit::RemoveTargetDir => TaskUnit::RemoveTargetDir,
            TaskUnit::VerifyInstallDir { clean_install } => TaskUnit::VerifyInstallDir {
                clean_install: *clean_install,
            },
            TaskUnit::UninstallPackage { name, optional } => TaskUnit::UninstallPackage {
                name: name.clone(),
                optional: *optional,
            },
            TaskUnit::InstallPackage { name, version_target, create_desktop_shortcuts } => {
                TaskUnit::InstallPackage {
                    name: name.clone(),
                    version_target: *version_target,
                    create_desktop_shortcuts: *create_desktop_shortcuts,
                }
            },
            TaskUnit::SaveExecutable => TaskUnit::SaveExecutable,
            TaskUnit::InstallGlobalShortcuts => TaskUnit::InstallGlobalShortcuts,
            TaskUnit::LaunchOnExit => TaskUnit::LaunchOnExit,
            TaskUnit::Install => TaskUnit::Install,
            TaskUnit::Named { name } => TaskUnit::Named { name: name.clone() },
        }
    }
}

/// A task together with the description of what must run around it.
pub struct TaskNode {
    pub unit: TaskUnit,
    pub dependencies: Vec<TaskDependency>,
}

/// One dependency: an ordering and the task (with its own dependencies).
pub struct TaskDependency {
    pub ordering: TaskOrdering,
    pub task: Box<TaskNode>,
}

impl TaskDependency {
    /// Pairs an ordering with a task.
    pub fn build(ordering: TaskOrdering, task: Box<TaskNode>) -> (r: TaskDependency)
        ensures
            r.ordering == ordering,
            r.task == task,
    {
        TaskDependency { ordering, task }
    }
}

impl TaskNode {
    /// A task with no dependencies.
    pub fn leaf(unit: TaskUnit) -> (r: TaskNode)
        ensures
            r.unit == unit,
            r.dependencies@.len() == 0,
    {
        TaskNode { unit, dependencies: Vec::new() }
    }
}

/// The full plan of a task: its `Pre` dependencies expanded in declared order,
/// then the task, then its `Post` dependencies expanded in declared order.
pub open spec fn expand(n: TaskNode) -> Seq<TaskUnit>
    decreases n, 1nat, 0nat,
{
    expand_deps(n, TaskOrdering::Pre, n.dependencies@.len()) + seq![n.unit] + expand_deps(
        n,
        TaskOrdering::Post,
        n.dependencies@.len(),
    )
}

/// The expansions, in order, of the first `k` dependencies of `n` that carry
/// ordering `o`.
pub open spec fn expand_deps(n: TaskNode, o: TaskOrdering, k: nat) -> Seq<TaskUnit>
    decreases n, 0nat, k,
{
    if k == 0 || k > n.dependencies@.len() {
        seq![]
    } else {
        let d = n.dependencies@[k - 1];
        let before = expand_deps(n, o, (k - 1) as nat);
        if d.ordering == o {
            before + expand(*d.task)
        } else {
            before
        }
    }
}

/// Appends to `out` the expansions of the dependencies of `node` that carry
/// ordering `o`.
fn append_expanded(out: &mut Vec<TaskUnit>, node: &TaskNode, o: TaskOrdering)
    ensures
        final(out)@ == old(out)@ + expand_deps(*node, o, node.dependencies@.len()),
    decreases *node, 0nat, 1nat,
{
    let mut i: usize = 0;
    while i < node.dependencies.len()
        invariant
            i <= node.dependencies@.len(),
            out@ == old(out)@ + expand_deps(*node, o, i as nat),
        decreases node.dependencies@.len() - i,
    {
        let d = &node.dependencies[i];
        if d.ordering == o {
            let mut sub = compose(&d.task);
            out.append(&mut sub);
        }
        proof {
            assert(expand_deps(*node, o, (i + 1) as nat) =~= expand_deps(*node, o, i as nat) + (
            if node.dependencies@[i as int].ordering == o {
                expand(*node.dependencies@[i as int].task)
            } else {
                seq![]
            }));
        }
        i = i + 1;
    }
}

/// Composes a task into its flat, totally ordered plan.
pub fn compose(node: &TaskNode) -> (r: Vec<TaskUnit>)
    ensures
        r@ == expand(*node),
    decreases *node, 1nat, 0nat,
{
    let mut out: Vec<TaskUnit> = Vec::new();
    append_expanded(&mut out, node, TaskOrdering::Pre);
    out.push(node.unit.duplicate());
    append_expanded(&mut out, node, TaskOrdering::Post);
    proof {
        assert(out@ =~= expand(*node));
    }
    out
}

} // verus!

verus! {

/// How a task with dependencies `[Pre(a), Pre(b), Post(c)]` expands.
proof fn lemma_three_deps(n: TaskNode)
    requires
        n.dependencies@.len() == 3,
        n.dependencies@[0].ordering == TaskOrdering::Pre,
        n.dependencies@[1].ordering == TaskOrdering::Pre,
        n.dependencies@[2].ordering == TaskOrdering::Post,
    ensures
        expand(n) == expand(*n.dependencies@[0].task) + expand(*n.dependencies@[1].task) + seq![
            n.unit,
        ] + expand(*n.dependencies@[2].task),
{
    let pre = TaskOrdering::Pre;
    let post = TaskOrdering::Post;
    assert(expand_deps(n, pre, 0) =~= seq![]);
    assert(expand_deps(n, post, 0) =~= seq![]);
    assert(expand_deps(n, pre, 1) =~= expand(*n.dependencies@[0].task));
    assert(expand_deps(n, post, 1) =~= seq![]);
    assert(expand_deps(n, pre, 2) =~= expand(*n.dependencies@[0].task) + expand(
        *n.dependencies@[1].task,
    ));
    assert(expand_deps(n, post, 2) =~= seq![]);
    assert(expand_deps(n, pre, 3) == expand_deps(n, pre, 2));
    assert(expand_deps(n, post, 3) =~= expand(*n.dependencies@[2].task));
    assert(expand(n) =~= expand(*n.dependencies@[0].task) + expand(*n.dependencies@[1].task)
        + seq![n.unit] + expand(*n.dependencies@[2].task));
}

/// A task without dependencies expands to itself alone.
pub proof fn lemma_expand_leaf(n: TaskNode)
    requires
        n.dependencies@.len() == 0,
    ensures
        expand(n) == seq![n.unit],
{
    assert(expand(n) =~= seq![n.unit]);
}

/// With dependencies `[Pre(a), Pre(b), Post(c)]`, none of which has dependencies
/// of its own, a task expands to `[a, b, task, c]`.
pub proof fn lemma_expand_pre_pre_post(n: TaskNode)
    requires
        n.dependencies@.len() == 3,
        n.dependencies@[0].ordering == TaskOrdering::Pre,
        n.dependencies@[1].ordering == TaskOrdering::Pre,
        n.dependencies@[2].ordering == TaskOrdering::Post,
        n.dependencies@[0].task.dependencies@.len() == 0,
        n.dependencies@[1].task.dependencies@.len() == 0,
        n.dependencies@[2].task.dependencies@.len() == 0,
    ensures
        expand(n) == seq![
            n.dependencies@[0].task.unit,
            n.dependencies@[1].task.unit,
            n.unit,
            n.dependencies@[2].task.unit,
        ],
{
    lemma_expand_leaf(*n.dependencies@[0].task);
    lemma_expand_leaf(*n.dependencies@[1].task);
    lemma_expand_leaf(*n.dependencies@[2].task);
    lemma_three_deps(n);
    assert(expand(n) =~= seq![
        n.dependencies@[0].task.unit,
        n.dependencies@[1].task.unit,
        n.unit,
        n.dependencies@[2].task.unit,
    ]);
}

/// Nested expansion: when the first dependency `a` of the shape above has
/// dependencies `[Pre(x)]` instead, with `x` a plain task, `a` expands to
/// `[x, a]` and the task to `[x, a, b, task, c]`.
pub proof fn lemma_expand_nested(n: TaskNode)
    requires
        n.dependencies@.len() == 3,
        n.dependencies@[0].ordering == TaskOrdering::Pre,
        n.dependencies@[1].ordering == TaskOrdering::Pre,
        n.dependencies@[2].ordering == TaskOrdering::Post,
        n.dependencies@[0].task.dependencies@.len() == 1,
        n.dependencies@[0].task.dependencies@[0].ordering == TaskOrdering::Pre,
        n.dependencies@[0].task.dependencies@[0].task.dependencies@.len() == 0,
        n.dependencies@[1].task.dependencies@.len() == 0,
        n.dependencies@[2].task.dependencies@.len() == 0,
    ensures
        expand(*n.dependencies@[0].task) == seq![
            n.dependencies@[0].task.dependencies@[0].task.unit,
            n.dependencies@[0].task.unit,
        ],
        expand(n) == seq![
            n.dependencies@[0].task.dependencies@[0].task.unit,
            n.dependencies@[0].task.unit,
            n.dependencies@[1].task.unit,
            n.unit,
            n.dependencies@[2].task.unit,
        ],
{
    let a = *n.dependencies@[0].task;
    lemma_expand_leaf(*a.dependencies@[0].task);
    lemma_expand_leaf(*n.dependencies@[1].task);
    lemma_expand_leaf(*n.dependencies@[2].task);
    lemma_three_deps(n);
    assert(expand_deps(a, TaskOrdering::Pre, 0) =~= seq![]);
    assert(expand_deps(a, TaskOrdering::Post, 0) =~= seq![]);
    assert(expand_deps(a, TaskOrdering::Pre, 1) =~= expand(*a.dependencies@[0].task));
    assert(expand_deps(a, TaskOrdering::Post, 1) =~= seq![]);
    assert(expand(a) =~= seq![a.dependencies@[0].task.unit, a.unit]);
    assert(expand(n) =~= seq![
        a.dependencies@[0].task.unit,
        a.unit,
        n.dependencies@[1].task.unit,
        n.unit,
        n.dependencies@[2].task.unit,
    ]);
}

} // verus!
