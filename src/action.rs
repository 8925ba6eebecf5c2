use vstd::prelude::*;
use crate::error::{Error, ErrorKind};

verus! {

/// What a file is to hold.
#[derive(Debug, Clone, PartialEq, Eq)]
pub enum Contents {
    Text(String),
    Bytes(Vec<u8>),
}

/// One filesystem operation. A path is a list of components joined, in
/// order, onto a base directory that the caller supplies (the book's root,
/// or a render destination); an empty list is the base itself.
#[derive(Debug, Clone, PartialEq, Eq)]
pub enum Action {
    /// Create the directory and its missing parents.
    CreateDir { path: Vec<String>, kind: ErrorKind },
    /// Create or overwrite the file.
    WriteFile { path: Vec<String>, contents: Contents, kind: ErrorKind },
    /// Remove everything inside the directory, keeping the directory.
    RemoveContents { path: Vec<String>, kind: ErrorKind },
}

pub open spec fn components(p: Seq<String>) -> Seq<Seq<char>> {
    p.map_values(|s: String| s@)
}

/// A mathematical view of a file's contents.
pub enum ContentsView {
    Text(Seq<char>),
    Bytes(Seq<u8>),
}

impl Contents {
    pub open spec fn view(&self) -> ContentsView {
        match self {
            Contents::Text(s) => ContentsView::Text(s@),
            Contents::Bytes(b) => ContentsView::Bytes(b@),
        }
    }
}

/// A mathematical view of an action.
pub enum ActionView {
    CreateDir { path: Seq<Seq<char>>, kind: ErrorKind },
    WriteFile { path: Seq<Seq<char>>, contents: ContentsView, kind: ErrorKind },
    RemoveContents { path: Seq<Seq<char>>, kind: ErrorKind },
}

impl Action {
    pub open spec fn view(&self) -> ActionView {
        match self {
            Action::CreateDir { path, kind } => ActionView::CreateDir {
                path: components(path@),
                kind: *kind,
            },
            Action::WriteFile { path, contents, kind } => ActionView::WriteFile {
                path: components(path@),
                contents: contents.view(),
                kind: *kind,
            },
            Action::RemoveContents { path, kind } => ActionView::RemoveContents {
                path: components(path@),
                kind: *kind,
            },
        }
    }

    /// The kind of error that a failure of this action is reported as.
    pub fn error_kind(&self) -> (r: ErrorKind)
        ensures
            r == kind_of(self.view()),
    {
        match self {
            Action::CreateDir { kind, .. } => *kind,
            Action::WriteFile { kind, .. } => *kind,
            Action::RemoveContents { kind, .. } => *kind,
        }
    }

    /// The error that reports a failure of this action at `path`, caused by
    /// `cause`.
    pub fn failure(&self, path: String, cause: String) -> (r: Error)
        ensures
            r.kind_spec() == kind_of(self.view()),
            r.source_spec() == cause@,
            kind_of(self.view()) != ErrorKind::SerializeConfig ==> r.path_spec() == path@,
    {
        Error::new(self.error_kind(), path, cause)
    }
}

/// The kind of error that reports a failure of the action.
pub open spec fn kind_of(a: ActionView) -> ErrorKind {
    match a {
        ActionView::CreateDir { kind, .. } => kind,
        ActionView::WriteFile { kind, .. } => kind,
        ActionView::RemoveContents { kind, .. } => kind,
    }
}

/// The views of a list of actions.
pub open spec fn plan_view(p: Seq<Action>) -> Seq<ActionView> {
    p.map_values(|a: Action| a.view())
}

/// An entry of a directory tree.
pub enum Entry {
    Dir,
    File(ContentsView),
}

/// `q` names `p` itself or a directory above it.
pub open spec fn is_prefix(q: Seq<Seq<char>>, p: Seq<Seq<char>>) -> bool {
    q.len() <= p.len() && p.take(q.len() as int) == q
}

/// `q` lies strictly inside the directory `p`.
pub open spec fn strictly_inside(q: Seq<Seq<char>>, p: Seq<Seq<char>>) -> bool {
    is_prefix(p, q) && q.len() > p.len()
}

/// What a successful action does to a directory tree, given as a map from
/// paths relative to the base directory to entries.
pub open spec fn apply(fs: Map<Seq<Seq<char>>, Entry>, a: ActionView) -> Map<Seq<Seq<char>>, Entry> {
    match a {
        ActionView::CreateDir { path, .. } => Map::new(
            |q: Seq<Seq<char>>| fs.dom().contains(q) || is_prefix(q, path),
            |q: Seq<Seq<char>>|
                if fs.dom().contains(q) {
                    fs[q]
                } else {
                    Entry::Dir
                },
        ),
        ActionView::WriteFile { path, contents, .. } => fs.insert(path, Entry::File(contents)),
        ActionView::RemoveContents { path, .. } => fs.restrict(
            fs.dom().filter(|q: Seq<Seq<char>>| !strictly_inside(q, path)),
        ),
    }
}

/// The tree after every action of `steps` succeeded, in order.
pub open spec fn run(fs: Map<Seq<Seq<char>>, Entry>, steps: Seq<ActionView>) -> Map<Seq<Seq<char>>, Entry>
    decreases steps.len(),
{
    if steps.len() == 0 {
        fs
    } else {
        apply(run(fs, steps.drop_last()), steps.last())
    }
}

/// Running a single step is applying it.
pub proof fn lemma_run_one(fs: Map<Seq<Seq<char>>, Entry>, a: ActionView)
    ensures
        run(fs, seq![a]) == apply(fs, a),
{
    reveal_with_fuel(run, 2);
    assert(seq![a].drop_last() =~= Seq::<ActionView>::empty());
}

/// Running two lists of steps one after the other is running their
/// concatenation.
pub proof fn lemma_run_append(fs: Map<Seq<Seq<char>>, Entry>, a: Seq<ActionView>, b: Seq<ActionView>)
    ensures
        run(fs, a + b) == run(run(fs, a), b),
    decreases b.len(),
{
    if b.len() == 0 {
        assert(a + b =~= a);
    } else {
        assert((a + b).drop_last() =~= a + b.drop_last());
        lemma_run_append(fs, a, b.drop_last());
    }
}

/// No step of `steps` writes a file at `p`.
pub open spec fn never_writes(steps: Seq<ActionView>, p: Seq<Seq<char>>) -> bool {
    forall|i: int| 0 <= i < steps.len() && (#[trigger] steps[i]) is WriteFile ==> steps[i]->WriteFile_path != p
}

/// No step of `steps` clears a directory.
pub open spec fn never_clears(steps: Seq<ActionView>) -> bool {
    forall|i: int| 0 <= i < steps.len() ==> !(#[trigger] steps[i] is RemoveContents)
}

/// An entry that no step writes or clears away keeps its value.
pub proof fn lemma_run_keeps(fs: Map<Seq<Seq<char>>, Entry>, steps: Seq<ActionView>, p: Seq<Seq<char>>)
    requires
        fs.dom().contains(p),
        never_clears(steps),
        never_writes(steps, p),
    ensures
        run(fs, steps).dom().contains(p),
        run(fs, steps)[p] == fs[p],
    decreases steps.len(),
{
    if steps.len() > 0 {
        lemma_run_keeps(fs, steps.drop_last(), p);
        assert(steps.last() == steps[steps.len() - 1]);
    }
}

} // verus!
