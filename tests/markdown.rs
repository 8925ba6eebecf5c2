use mdbook::action::{Action, Contents};
use mdbook::error::{Error, ErrorKind};
use mdbook::renderer::{Book, BookItem, Chapter, MarkdownRenderer, RenderContext};

fn chapter(name: &str, path: &str, content: &str) -> BookItem {
    BookItem::Chapter(Chapter {
        name: name.to_string(),
        content: content.to_string(),
        path: path.to_string(),
    })
}

fn ctx(items: Vec<BookItem>) -> RenderContext {
    RenderContext { destination: "out/markdown".to_string(), book: Book { sections: items } }
}

fn write(path: &str, content: &str) -> Action {
    Action::WriteFile {
        path: vec![path.to_string()],
        contents: Contents::Text(content.to_string()),
        kind: ErrorKind::WriteChapter,
    }
}

fn clear() -> Action {
    Action::RemoveContents { path: vec![], kind: ErrorKind::RemoveStaleOutput }
}

fn make_dest() -> Action {
    Action::CreateDir { path: vec![], kind: ErrorKind::CreateDestination }
}

#[test]
fn renderer_name_is_markdown() {
    let r = MarkdownRenderer::new();
    assert_eq!(r.name(), "markdown");
    assert_eq!(r, MarkdownRenderer::default());
}

#[test]
fn chapters_written_in_document_order() {
    let r = MarkdownRenderer::new();
    let c = ctx(vec![
        BookItem::PartTitle("Part I".to_string()),
        chapter("Intro", "intro.md", "# Intro\n"),
        BookItem::Separator,
        chapter("Nested", "guide/nested.md", "# Nested\n"),
        chapter("End", "end.md", "# End\n"),
    ]);
    let plan = r.render_plan(&c, false);
    assert_eq!(
        plan,
        vec![
            write("intro.md", "# Intro\n"),
            write("guide/nested.md", "# Nested\n"),
            write("end.md", "# End\n"),
            make_dest(),
        ]
    );
}

#[test]
fn existing_destination_is_cleared_first() {
    let r = MarkdownRenderer::new();
    let c = ctx(vec![chapter("A", "a.md", "a")]);
    let plan = r.render_plan(&c, true);
    assert_eq!(plan, vec![clear(), write("a.md", "a"), make_dest()]);
}

#[test]
fn empty_book_still_creates_destination() {
    let r = MarkdownRenderer::new();
    assert_eq!(r.render_plan(&ctx(vec![]), false), vec![make_dest()]);
    assert_eq!(r.render_plan(&ctx(vec![]), true), vec![clear(), make_dest()]);
    let only_titles = ctx(vec![BookItem::Separator, BookItem::PartTitle("P".to_string())]);
    assert_eq!(r.render_plan(&only_titles, true), vec![clear(), make_dest()]);
}

#[test]
fn unwritable_destination_reports_write_error() {
    let r = MarkdownRenderer::new();
    let c = ctx(vec![chapter("A", "a.md", "a")]);
    let plan = r.render_plan(&c, true);
    let e = plan[1].failure("out/markdown/a.md".to_string(), "permission denied".to_string());
    assert_eq!(e.kind(), ErrorKind::WriteChapter);
    assert_eq!(
        e,
        Error::WriteChapter { source: "permission denied".to_string(), path: "out/markdown/a.md".to_string() }
    );
    assert_eq!(plan[0].error_kind(), ErrorKind::RemoveStaleOutput);
    assert_eq!(plan[2].error_kind(), ErrorKind::CreateDestination);
}
