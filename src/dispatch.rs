use vstd::prelude::*;

use crate::engine::Role;

verus! {

/// How the roots of a run are handed to the workers.
#[derive(Clone, Copy, Debug, PartialEq, Eq, Structural)]
pub enum DispatchMode {
    /// One task per root.
    PerRoot,
    /// The immediate children of the directory roots are dispatched instead, so that
    /// a few huge roots still keep every worker busy.
    Flatten,
}

/// Chooses how to dispatch `n_roots` roots onto `n_workers` workers: one task per
/// root when there are at least as many roots as workers, flattening otherwise.
pub fn dispatch_mode(n_roots: usize, n_workers: usize) -> (r: DispatchMode)
    ensures
        r == DispatchMode::PerRoot <==> n_roots >= n_workers,
        r == DispatchMode::Flatten <==> n_roots < n_workers,
{
    if n_roots >= n_workers {
        DispatchMode::PerRoot
    } else {
        DispatchMode::Flatten
    }
}

/// What the caller learnt about one root before flattening.
#[derive(Clone, Copy, Debug, PartialEq, Eq, Structural)]
pub enum RootListing {
    /// Not a real directory (a file, a symlink, or missing): dispatched as it is.
    NotDir,
    /// A directory whose listing failed: dispatched as a single item.
    Unlisted,
    /// A directory listed with `children` immediate children.
    Listed { children: usize },
}

/// One unit of work: root number `root` itself, or child number `child` of its listing.
#[derive(Clone, Copy, Debug, PartialEq, Eq, Structural)]
pub struct Task {
    pub root: usize,
    pub child: Option<usize>,
}

impl Task {
    pub open spec fn role_of(self) -> Role {
        if self.child is Some {
            Role::Entry
        } else {
            Role::Root
        }
    }

    /// A root dispatched as it is is not counted as an entry; a child is.
    pub fn role(&self) -> (r: Role)
        ensures
            r == self.role_of(),
    {
        match self.child {
            Some(_) => Role::Entry,
            None => Role::Root,
        }
    }
}

/// The tasks root number `i` turns into.
pub open spec fn tasks_of_root(i: int, l: RootListing) -> Seq<Task> {
    match l {
        RootListing::Listed { children } => Seq::new(
            children as nat,
            |j: int| Task { root: i as usize, child: Some(j as usize) },
        ),
        _ => seq![Task { root: i as usize, child: None }],
    }
}

/// The tasks of all roots, root by root, in order.
pub open spec fn flattened(ls: Seq<RootListing>) -> Seq<Task>
    decreases ls.len(),
{
    if ls.len() == 0 {
        seq![]
    } else {
        flattened(ls.drop_last()) + tasks_of_root(ls.len() - 1, ls.last())
    }
}

/// Flattens the roots of a run into one list of tasks: each listed directory root is
/// replaced by its immediate children, every other root stays a single task.
pub fn flatten(listings: &Vec<RootListing>) -> (r: Vec<Task>)
    ensures
        r@ == flattened(listings@),
{
    let mut out: Vec<Task> = Vec::new();
    let n = listings.len();
    for i in 0..n
        invariant
            n == listings@.len(),
            out@ == flattened(listings@.subrange(0, i as int)),
    {
        let ghost before = out@;
        assert(listings@.subrange(0, i + 1).drop_last() =~= listings@.subrange(0, i as int));
        match listings[i] {
            RootListing::Listed { children } => {
                for j in 0..children
                    invariant
                        out@ == before + Seq::new(
                            j as nat,
                            |k: int| Task { root: i, child: Some(k as usize) },
                        ),
                {
                    out.push(Task { root: i, child: Some(j) });
                    assert(out@ =~= before + Seq::new(
                        (j + 1) as nat,
                        |k: int| Task { root: i, child: Some(k as usize) },
                    ));
                }
                assert(out@ =~= flattened(listings@.subrange(0, i + 1)));
            },
            _ => {
                out.push(Task { root: i, child: None });
                assert(out@ =~= flattened(listings@.subrange(0, i + 1)));
            },
        }
    }
    assert(listings@.subrange(0, n as int) =~= listings@);
    out
}

} // verus!
