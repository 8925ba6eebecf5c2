use vstd::prelude::*;
use crate::action::{
    apply, components, is_prefix, lemma_run_append, lemma_run_one, plan_view, run, strictly_inside, Action, ActionView, Contents,
    ContentsView, Entry,
};
use crate::error::ErrorKind;

verus! {

/// A chapter: its title, its text, and the path of its file relative to
/// the output directory.
#[derive(Debug, Clone, PartialEq, Eq)]
pub struct Chapter {
    pub name: String,
    pub content: String,
    pub path: String,
}

/// One entry of a book.
#[derive(Debug, Clone, PartialEq, Eq)]
pub enum BookItem {
    Chapter(Chapter),
    Separator,
    PartTitle(String),
}

/// A loaded book: its items in document order.
#[derive(Debug, Clone, PartialEq, Eq)]
pub struct Book {
    pub sections: Vec<BookItem>,
}

/// What a renderer is handed: the output directory and the book.
#[derive(Debug, Clone, PartialEq, Eq)]
pub struct RenderContext {
    pub destination: String,
    pub book: Book,
}

/// The backend that writes each chapter's markdown unchanged.
#[derive(Debug, Clone, Copy, PartialEq, Eq, Default)]
pub struct MarkdownRenderer;

/// The write of one item: a chapter's file, or nothing for the other items.
pub open spec fn item_writes(item: BookItem) -> Seq<ActionView> {
    match item {
        BookItem::Chapter(c) => seq![
            ActionView::WriteFile {
                path: seq![c.path@],
                contents: ContentsView::Text(c.content@),
                kind: ErrorKind::WriteChapter,
            },
        ],
        _ => Seq::empty(),
    }
}

/// The writes of a sequence of items, in their order.
pub open spec fn chapter_writes(items: Seq<BookItem>) -> Seq<ActionView>
    decreases items.len(),
{
    if items.len() == 0 {
        Seq::empty()
    } else {
        chapter_writes(items.drop_last()) + item_writes(items.last())
    }
}

/// Every step of a render: clearing stale output when the destination
/// exists, one write per chapter in document order, then making sure the
/// destination exists.
pub open spec fn render_steps(ctx: RenderContext, destination_exists: bool) -> Seq<ActionView> {
    (if destination_exists {
        seq![ActionView::RemoveContents { path: seq![], kind: ErrorKind::RemoveStaleOutput }]
    } else {
        Seq::empty()
    }) + chapter_writes(ctx.book.sections@) + seq![
        ActionView::CreateDir { path: seq![], kind: ErrorKind::CreateDestination },
    ]
}

pub open spec fn renderer_name() -> Seq<char> {
    "markdown"@
}

impl MarkdownRenderer {
    pub fn new() -> (r: MarkdownRenderer) {
        MarkdownRenderer
    }

    /// The backend's identifier.
    pub fn name(&self) -> (r: &'static str)
        ensures
            r@ == renderer_name(),
    {
        "markdown"
    }

    /// The steps that render `ctx.book` into `ctx.destination`, a directory
    /// that the steps' paths are relative to.
    pub fn render_plan(&self, ctx: &RenderContext, destination_exists: bool) -> (r: Vec<Action>)
        ensures
            plan_view(r@) == render_steps(*ctx, destination_exists),
    {
        let mut out: Vec<Action> = Vec::new();
        if destination_exists {
            let here: Vec<String> = Vec::new();
            out.push(Action::RemoveContents { path: here, kind: ErrorKind::RemoveStaleOutput });
        }
        let ghost start = plan_view(out@);
        proof {
            assert(components(Seq::<String>::empty()) =~= seq![]);
            assert(start =~= (if destination_exists {
                seq![ActionView::RemoveContents { path: seq![], kind: ErrorKind::RemoveStaleOutput }]
            } else {
                Seq::empty()
            }));
        }
        let items = &ctx.book.sections;
        let mut i: usize = 0;
        while i < items.len()
            invariant
                i <= items@.len(),
                plan_view(out@) == start + chapter_writes(items@.take(i as int)),
            decreases items@.len() - i,
        {
            proof {
                assert(items@.take(i + 1).drop_last() =~= items@.take(i as int));
            }
            match &items[i] {
                BookItem::Chapter(ch) => {
                    let mut path: Vec<String> = Vec::new();
                    path.push(ch.path.clone());
                    proof {
                        assert(components(path@) =~= seq![ch.path@]);
                    }
                    let ghost before = plan_view(out@);
                    out.push(Action::WriteFile {
                        path,
                        contents: Contents::Text(ch.content.clone()),
                        kind: ErrorKind::WriteChapter,
                    });
                    proof {
                        assert(plan_view(out@) =~= before.push(out@.last().view()));
                    }
                },
                _ => {},
            }
            i = i + 1;
            proof {
                assert(plan_view(out@) =~= start + chapter_writes(items@.take(i as int)));
            }
        }
        let here: Vec<String> = Vec::new();
        let ghost before = plan_view(out@);
        out.push(Action::CreateDir { path: here, kind: ErrorKind::CreateDestination });
        proof {
            assert(items@.take(items@.len() as int) =~= items@);
            assert(plan_view(out@) =~= before.push(out@.last().view()));
            assert(plan_view(out@) =~= render_steps(*ctx, destination_exists));
        }
        out
    }
}

/// The chapters among `items`, in document order.
pub open spec fn chapters_of(items: Seq<BookItem>) -> Seq<Chapter>
    decreases items.len(),
{
    if items.len() == 0 {
        Seq::empty()
    } else {
        chapters_of(items.drop_last()) + match items.last() {
            BookItem::Chapter(c) => seq![c],
            _ => Seq::empty(),
        }
    }
}

/// The write of one chapter's file.
pub open spec fn chapter_write(c: Chapter) -> ActionView {
    ActionView::WriteFile {
        path: seq![c.path@],
        contents: ContentsView::Text(c.content@),
        kind: ErrorKind::WriteChapter,
    }
}

/// The paths of the chapters' files among `items`.
pub open spec fn chapter_paths(items: Seq<BookItem>) -> Set<Seq<Seq<char>>> {
    chapters_of(items).map_values(|c: Chapter| seq![c.path@]).to_set()
}

/// A destination tree seen from inside: when it exists its root is a
/// directory, and when it does not, nothing is there.
pub open spec fn destination_state(fs: Map<Seq<Seq<char>>, Entry>, exists: bool) -> bool {
    &&& exists == fs.dom().contains(seq![])
    &&& exists ==> fs[seq![]] is Dir
    &&& !exists ==> fs.dom() == Set::<Seq<Seq<char>>>::empty()
}

proof fn lemma_chapter_writes(items: Seq<BookItem>)
    ensures
        chapter_writes(items) == chapters_of(items).map_values(|c: Chapter| chapter_write(c)),
    decreases items.len(),
{
    if items.len() > 0 {
        lemma_chapter_writes(items.drop_last());
        assert(chapter_writes(items) =~= chapters_of(items).map_values(|c: Chapter| chapter_write(c)));
    }
}

proof fn lemma_run_chapter_writes(g: Map<Seq<Seq<char>>, Entry>, items: Seq<BookItem>)
    ensures
        run(g, chapter_writes(items)).dom() == g.dom() + chapter_paths(items),
        g.dom().contains(seq![]) ==> run(g, chapter_writes(items))[seq![]] == g[seq![]],
    decreases items.len(),
{
    if items.len() > 0 {
        let pre = items.drop_last();
        lemma_run_chapter_writes(g, pre);
        lemma_run_append(g, chapter_writes(pre), item_writes(items.last()));
        let cs = chapters_of(items);
        let ps = cs.map_values(|c: Chapter| seq![c.path@]);
        let pps = chapters_of(pre).map_values(|c: Chapter| seq![c.path@]);
        match items.last() {
            BookItem::Chapter(c) => {
                assert(item_writes(items.last()).drop_last() =~= Seq::<ActionView>::empty());
                assert(ps =~= pps.push(seq![c.path@]));
                assert(ps.to_set() =~= pps.to_set().insert(seq![c.path@])) by {
                    pps.lemma_push_to_set_commute(seq![c.path@]);
                }
                assert(seq![c.path@].len() == 1);
                let x = run(g, chapter_writes(pre));
                assert(item_writes(items.last()) =~= seq![chapter_write(c)]);
                lemma_run_one(x, chapter_write(c));
                assert(run(g, chapter_writes(items)) == apply(x, chapter_write(c)));
            },
            _ => {
                assert(ps =~= pps);
                assert(item_writes(items.last()) =~= Seq::<ActionView>::empty());
                assert(chapter_writes(items) =~= chapter_writes(pre));
                assert(run(g, chapter_writes(items)) == run(g, chapter_writes(pre)));
            },
        }
        assert(run(g, chapter_writes(items)).dom() =~= g.dom() + chapter_paths(items));
    }
}

/// Rendering leaves the destination a directory that holds exactly the
/// current book's chapter files, whatever it held before.
pub proof fn lemma_render_output(ctx: RenderContext, fs: Map<Seq<Seq<char>>, Entry>, exists: bool)
    requires
        destination_state(fs, exists),
    ensures
        run(fs, render_steps(ctx, exists)).dom() == set![Seq::<Seq<char>>::empty()] + chapter_paths(
            ctx.book.sections@,
        ),
        run(fs, render_steps(ctx, exists))[seq![]] is Dir,
{
    let items = ctx.book.sections@;
    let pre: Seq<ActionView> = if exists {
        seq![ActionView::RemoveContents { path: seq![], kind: ErrorKind::RemoveStaleOutput }]
    } else {
        Seq::empty()
    };
    let w = chapter_writes(items);
    let last = seq![ActionView::CreateDir { path: seq![], kind: ErrorKind::CreateDestination }];
    let steps = render_steps(ctx, exists);
    assert(steps =~= (pre + w) + last);
    lemma_run_append(fs, pre + w, last);
    lemma_run_append(fs, pre, w);
    let g = run(fs, pre);
    if exists {
        assert(pre.drop_last() =~= Seq::<ActionView>::empty());
        lemma_run_one(fs, pre[0]);
        assert(pre =~= seq![pre[0]]);
        assert(!strictly_inside(Seq::<Seq<char>>::empty(), seq![]));
        assert forall|q: Seq<Seq<char>>| g.dom().contains(q) <==> q == Seq::<Seq<char>>::empty() by {
            assert(q.take(0) =~= Seq::<Seq<char>>::empty());
            assert(g.dom().contains(q) <==> (fs.dom().contains(q) && !strictly_inside(q, seq![])));
            if q.len() > 0 {
                assert(strictly_inside(q, seq![]));
            } else {
                assert(q =~= Seq::<Seq<char>>::empty());
                assert(fs.dom().contains(q));
            }
            if q == Seq::<Seq<char>>::empty() {
                assert(!strictly_inside(q, seq![]));
            }
        }
        assert(g.dom() =~= set![Seq::<Seq<char>>::empty()]);
    } else {
        assert(g.dom() =~= Set::<Seq<Seq<char>>>::empty());
    }
    lemma_run_chapter_writes(g, items);
    let h = run(g, w);
    lemma_run_one(h, last[0]);
    assert(last =~= seq![last[0]]);
    assert forall|q: Seq<Seq<char>>| is_prefix(q, seq![]) implies q == Seq::<Seq<char>>::empty() by {
        assert(q =~= Seq::<Seq<char>>::empty());
    }
    assert(Seq::<Seq<char>>::empty().take(0) =~= Seq::<Seq<char>>::empty());
    assert(run(fs, steps).dom() =~= set![Seq::<Seq<char>>::empty()] + chapter_paths(items));
}

/// After any render, a second render into the same destination leaves only
/// the second book's chapter files: stale output is gone.
pub proof fn lemma_render_twice(
    first: RenderContext,
    second: RenderContext,
    fs: Map<Seq<Seq<char>>, Entry>,
    exists: bool,
)
    requires
        destination_state(fs, exists),
    ensures
        run(run(fs, render_steps(first, exists)), render_steps(second, true)).dom() == set![
            Seq::<Seq<char>>::empty(),
        ] + chapter_paths(second.book.sections@),
{
    lemma_render_output(first, fs, exists);
    lemma_render_output(second, run(fs, render_steps(first, exists)), true);
}

/// A book without chapters renders to an existing, empty destination.
pub proof fn lemma_render_no_chapters(ctx: RenderContext, fs: Map<Seq<Seq<char>>, Entry>, exists: bool)
    requires
        destination_state(fs, exists),
        chapters_of(ctx.book.sections@).len() == 0,
    ensures
        run(fs, render_steps(ctx, exists)).dom() == set![Seq::<Seq<char>>::empty()],
        run(fs, render_steps(ctx, exists))[seq![]] is Dir,
{
    lemma_render_output(ctx, fs, exists);
    assert(chapters_of(ctx.book.sections@).map_values(|c: Chapter| seq![c.path@]) =~= Seq::<
        Seq<Seq<char>>,
    >::empty());
    assert(chapter_paths(ctx.book.sections@) =~= Set::<Seq<Seq<char>>>::empty());
    assert(set![Seq::<Seq<char>>::empty()] + Set::<Seq<Seq<char>>>::empty() =~= set![
        Seq::<Seq<char>>::empty(),
    ]);
}

/// Between clearing stale output and making sure the destination exists, a
/// render writes one file per chapter, in document order, and nothing for
/// separators or part titles.
pub proof fn lemma_render_writes_chapters_in_order(ctx: RenderContext, exists: bool)
    ensures
        render_steps(ctx, exists) == (if exists {
            seq![ActionView::RemoveContents { path: seq![], kind: ErrorKind::RemoveStaleOutput }]
        } else {
            Seq::empty()
        }) + chapters_of(ctx.book.sections@).map_values(|c: Chapter| chapter_write(c)) + seq![
            ActionView::CreateDir { path: seq![], kind: ErrorKind::CreateDestination },
        ],
{
    lemma_chapter_writes(ctx.book.sections@);
}

/// A failing render step reports the removal of stale output, the write of
/// a chapter, or the creation of the destination, according to the step.
pub proof fn lemma_render_error_kinds(ctx: RenderContext, exists: bool)
    ensures
        forall|i: int|
            0 <= i < render_steps(ctx, exists).len() ==> match #[trigger] render_steps(ctx, exists)[i] {
                ActionView::RemoveContents { kind, .. } => kind == ErrorKind::RemoveStaleOutput,
                ActionView::WriteFile { kind, .. } => kind == ErrorKind::WriteChapter,
                ActionView::CreateDir { kind, .. } => kind == ErrorKind::CreateDestination,
            },
{
    lemma_chapter_writes(ctx.book.sections@);
    let steps = render_steps(ctx, exists);
    let cs = chapters_of(ctx.book.sections@);
    let n: int = if exists { 1 } else { 0 };
    assert forall|i: int| 0 <= i < steps.len() implies match #[trigger] steps[i] {
        ActionView::RemoveContents { kind, .. } => kind == ErrorKind::RemoveStaleOutput,
        ActionView::WriteFile { kind, .. } => kind == ErrorKind::WriteChapter,
        ActionView::CreateDir { kind, .. } => kind == ErrorKind::CreateDestination,
    } by {
        if n <= i < n + cs.len() {
            assert(steps[i] == chapter_write(cs[i - n]));
        }
    }
}

} // verus!
