use vstd::prelude::*;
use crate::action::{
    apply, components, is_prefix, lemma_run_append, lemma_run_keeps, never_clears, never_writes, plan_view, run, Action, ActionView, Contents, ContentsView, Entry,
};
use crate::config::Config;
use crate::error::ErrorKind;

verus! {

/// The default theme's files, as the caller embeds them.
#[derive(Debug, Clone, PartialEq, Eq)]
pub struct ThemeFiles {
    pub index: Vec<u8>,
    pub favicon: Vec<u8>,
    pub js: Vec<u8>,
    pub highlight_css: Vec<u8>,
    pub highlight_js: Vec<u8>,
    pub general_css: Vec<u8>,
    pub chrome_css: Vec<u8>,
    pub print_css: Vec<u8>,
    pub variables_css: Vec<u8>,
}

/// A helper for setting up a new book and its directory structure.
#[derive(Debug, Clone, PartialEq, Eq)]
pub struct BookBuilder {
    root: String,
    create_gitignore: bool,
    config: Config,
    copy_theme: bool,
}

pub open spec fn summary_text() -> Seq<char> {
    "# Summary\n\n- [Chapter 1](./chapter_1.md)\n"@
}

pub open spec fn chapter_one_text() -> Seq<char> {
    "# Chapter 1\n"@
}

pub open spec fn write_view(path: Seq<Seq<char>>, contents: ContentsView, kind: ErrorKind) -> ActionView {
    ActionView::WriteFile { path, contents, kind }
}

pub open spec fn dir_view(path: Seq<Seq<char>>, kind: ErrorKind) -> ActionView {
    ActionView::CreateDir { path, kind }
}

/// The directories every book needs: the root, the sources and the build output.
pub open spec fn directory_steps(cfg: Config) -> Seq<ActionView> {
    seq![
        dir_view(seq![], ErrorKind::CreateScaffoldDirectory),
        dir_view(seq![cfg.book_src@], ErrorKind::CreateScaffoldDirectory),
        dir_view(seq![cfg.build_dir@], ErrorKind::CreateScaffoldDirectory),
    ]
}

pub open spec fn summary_path(cfg: Config) -> Seq<Seq<char>> {
    seq![cfg.book_src@, "SUMMARY.md"@]
}

pub open spec fn chapter_one_path(cfg: Config) -> Seq<Seq<char>> {
    seq![cfg.book_src@, "chapter_1.md"@]
}

/// A summary with a single chapter, and that chapter.
pub open spec fn stub_steps(cfg: Config) -> Seq<ActionView> {
    seq![
        write_view(summary_path(cfg), ContentsView::Text(summary_text()), ErrorKind::CreateSummary),
        write_view(
            chapter_one_path(cfg),
            ContentsView::Text(chapter_one_text()),
            ErrorKind::CreateChapterOne,
        ),
    ]
}

pub open spec fn gitignore_path() -> Seq<Seq<char>> {
    seq![".gitignore"@]
}

pub open spec fn gitignore_steps(cfg: Config) -> Seq<ActionView> {
    seq![
        write_view(
            gitignore_path(),
            ContentsView::Text(cfg.build_dir@ + "\n"@),
            ErrorKind::CreateGitignore,
        ),
    ]
}

/// The nine theme files: path relative to the theme directory, and contents.
pub open spec fn theme_file_specs(t: ThemeFiles) -> Seq<(Seq<Seq<char>>, Seq<u8>)> {
    seq![
        (seq!["index.hbs"@], t.index@),
        (seq!["favicon.png"@], t.favicon@),
        (seq!["book.js"@], t.js@),
        (seq!["highlight.css"@], t.highlight_css@),
        (seq!["highlight.js"@], t.highlight_js@),
        (seq!["css"@, "general.css"@], t.general_css@),
        (seq!["css"@, "chrome.css"@], t.chrome_css@),
        (seq!["css"@, "print.css"@], t.print_css@),
        (seq!["css"@, "variables.css"@], t.variables_css@),
    ]
}

/// The theme directory, its `css` subdirectory, then the nine files.
pub open spec fn theme_steps(cfg: Config, t: ThemeFiles) -> Seq<ActionView> {
    let dir = cfg.theme_dir_spec();
    seq![
        dir_view(dir, ErrorKind::CreateThemeDir),
        dir_view(dir.push("css"@), ErrorKind::CreateThemeDir),
    ] + theme_file_specs(t).map_values(
        |f: (Seq<Seq<char>>, Seq<u8>)|
            write_view(dir + f.0, ContentsView::Bytes(f.1), ErrorKind::CreateThemeFile),
    )
}

pub open spec fn config_path() -> Seq<Seq<char>> {
    seq!["book.toml"@]
}

pub open spec fn config_steps(toml: Seq<u8>) -> Seq<ActionView> {
    seq![write_view(config_path(), ContentsView::Bytes(toml), ErrorKind::CreateConfig)]
}

impl BookBuilder {
    pub closed spec fn root_spec(&self) -> Seq<char> {
        self.root@
    }

    pub closed spec fn config_spec(&self) -> Config {
        self.config
    }

    pub closed spec fn gitignore_spec(&self) -> bool {
        self.create_gitignore
    }

    pub closed spec fn theme_spec(&self) -> bool {
        self.copy_theme
    }

    /// Every step of a build, in order, given whether the summary already
    /// exists, the serialized configuration and the theme's files.
    pub open spec fn build_steps(
        &self,
        summary_exists: bool,
        toml: Seq<u8>,
        theme: ThemeFiles,
    ) -> Seq<ActionView> {
        let cfg = self.config_spec();
        directory_steps(cfg) + (if summary_exists {
            Seq::empty()
        } else {
            stub_steps(cfg)
        }) + self.gitignore_part() + self.theme_part(theme) + config_steps(toml)
    }
}


fn push_action(out: &mut Vec<Action>, a: Action)
    ensures
        plan_view(final(out)@) == plan_view(old(out)@).push(a.view()),
{
    out.push(a);
    proof {
        assert(plan_view(out@) =~= plan_view(old(out)@).push(a.view()));
    }
}

fn path_one(a: &str) -> (r: Vec<String>)
    ensures
        components(r@) == seq![a@],
{
    let mut r: Vec<String> = Vec::new();
    r.push(String::from_str(a));
    proof {
        assert(components(r@) =~= seq![a@]);
    }
    r
}

fn path_under(base: Vec<String>, name: &str) -> (r: Vec<String>)
    ensures
        components(r@) == components(base@).push(name@),
{
    let mut r = base;
    r.push(String::from_str(name));
    proof {
        assert(components(r@) =~= components(base@).push(name@));
    }
    r
}

fn copy_bytes(b: &Vec<u8>) -> (r: Vec<u8>)
    ensures
        r@ == b@,
{
    let r = b.clone();
    proof {
        assert(r@ =~= b@);
    }
    r
}

impl BookBuilder {
    /// A builder for a book in `root`, with the default configuration, and
    /// neither a `.gitignore` nor a copy of the theme.
    pub fn new(root: String) -> (r: BookBuilder)
        ensures
            r.root_spec() == root@,
            r.config_spec().is_default(),
            !r.gitignore_spec(),
            !r.theme_spec(),
    {
        BookBuilder { root, create_gitignore: false, config: Config::default(), copy_theme: false }
    }

    /// Sets the configuration to be used.
    pub fn with_config(&mut self, cfg: Config) -> (r: &mut BookBuilder)
        ensures
            r.config_spec() == cfg,
            r.root_spec() == old(self).root_spec(),
            r.gitignore_spec() == old(self).gitignore_spec(),
            r.theme_spec() == old(self).theme_spec(),
            *final(self) == *final(r),
    {
        self.config = cfg;
        self
    }

    /// The configuration the builder uses.
    pub fn config(&self) -> (r: &Config)
        ensures
            *r == self.config_spec(),
    {
        &self.config
    }

    /// The root the book is created in.
    pub fn root(&self) -> (r: &String)
        ensures
            r@ == self.root_spec(),
    {
        &self.root
    }

    /// Whether the theme is copied into the book, so that it can be tweaked.
    pub fn copy_theme(&mut self, copy: bool) -> (r: &mut BookBuilder)
        ensures
            r.theme_spec() == copy,
            r.config_spec() == old(self).config_spec(),
            r.root_spec() == old(self).root_spec(),
            r.gitignore_spec() == old(self).gitignore_spec(),
            *final(self) == *final(r),
    {
        self.copy_theme = copy;
        self
    }

    /// Whether a `.gitignore` is created.
    pub fn create_gitignore(&mut self, create: bool) -> (r: &mut BookBuilder)
        ensures
            r.gitignore_spec() == create,
            r.config_spec() == old(self).config_spec(),
            r.root_spec() == old(self).root_spec(),
            r.theme_spec() == old(self).theme_spec(),
            *final(self) == *final(r),
    {
        self.create_gitignore = create;
        self
    }
}

impl BookBuilder {
    /// Where the summary goes, relative to the root. The caller tests whether
    /// it exists before asking for the build's steps.
    pub fn summary_path(&self) -> (r: Vec<String>)
        ensures
            components(r@) == summary_path(self.config_spec()),
    {
        let p = path_one(self.config.book_src.as_str());
        path_under(p, "SUMMARY.md")
    }

    fn create_directory_structure(&self, out: &mut Vec<Action>)
        ensures
            plan_view(final(out)@) == plan_view(old(out)@) + directory_steps(self.config_spec()),
    {
        let root: Vec<String> = Vec::new();
        proof {
            assert(components(root@) =~= seq![]);
        }
        push_action(out, Action::CreateDir { path: root, kind: ErrorKind::CreateScaffoldDirectory });
        let src = path_one(self.config.book_src.as_str());
        push_action(out, Action::CreateDir { path: src, kind: ErrorKind::CreateScaffoldDirectory });
        let build = path_one(self.config.build_dir.as_str());
        push_action(out, Action::CreateDir { path: build, kind: ErrorKind::CreateScaffoldDirectory });
        proof {
            assert(plan_view(out@) =~= plan_view(old(out)@) + directory_steps(self.config_spec()));
        }
    }

    fn create_stub_files(&self, out: &mut Vec<Action>)
        ensures
            plan_view(final(out)@) == plan_view(old(out)@) + stub_steps(self.config_spec()),
    {
        let summary = self.summary_path();
        let text = String::from_str("# Summary\n\n- [Chapter 1](./chapter_1.md)\n");
        push_action(
            out,
            Action::WriteFile { path: summary, contents: Contents::Text(text), kind: ErrorKind::CreateSummary },
        );
        let chapter_1 = path_under(path_one(self.config.book_src.as_str()), "chapter_1.md");
        let text = String::from_str("# Chapter 1\n");
        push_action(
            out,
            Action::WriteFile {
                path: chapter_1,
                contents: Contents::Text(text),
                kind: ErrorKind::CreateChapterOne,
            },
        );
        proof {
            assert(plan_view(out@).len() == old(out)@.len() + 2);
            assert(seq![self.config.book_src@].push("chapter_1.md"@) =~= chapter_one_path(self.config));
            assert(plan_view(out@) =~= plan_view(old(out)@) + stub_steps(self.config_spec()));
        }
    }

    fn build_gitignore(&self, out: &mut Vec<Action>)
        ensures
            plan_view(final(out)@) == plan_view(old(out)@) + gitignore_steps(self.config_spec()),
    {
        let mut text = self.config.build_dir.clone();
        text.append("\n");
        push_action(
            out,
            Action::WriteFile {
                path: path_one(".gitignore"),
                contents: Contents::Text(text),
                kind: ErrorKind::CreateGitignore,
            },
        );
        proof {
            assert(plan_view(out@) =~= plan_view(old(out)@) + gitignore_steps(self.config_spec()));
        }
    }

    fn theme_file(&self, out: &mut Vec<Action>, css: bool, name: &str, contents: &Vec<u8>)
        ensures
            plan_view(final(out)@) == plan_view(old(out)@).push(
                write_view(
                    if css {
                        self.config_spec().theme_dir_spec().push("css"@).push(name@)
                    } else {
                        self.config_spec().theme_dir_spec().push(name@)
                    },
                    ContentsView::Bytes(contents@),
                    ErrorKind::CreateThemeFile,
                ),
            ),
    {
        let dir = self.config.theme_dir();
        let dir = if css {
            path_under(dir, "css")
        } else {
            dir
        };
        let path = path_under(dir, name);
        push_action(
            out,
            Action::WriteFile {
                path,
                contents: Contents::Bytes(copy_bytes(contents)),
                kind: ErrorKind::CreateThemeFile,
            },
        );
    }

    fn copy_across_theme(&self, out: &mut Vec<Action>, theme: &ThemeFiles)
        ensures
            plan_view(final(out)@) == plan_view(old(out)@) + theme_steps(self.config_spec(), *theme),
    {
        let themedir = self.config.theme_dir();
        let cssdir = path_under(self.config.theme_dir(), "css");
        push_action(out, Action::CreateDir { path: themedir, kind: ErrorKind::CreateThemeDir });
        push_action(out, Action::CreateDir { path: cssdir, kind: ErrorKind::CreateThemeDir });
        self.theme_file(out, false, "index.hbs", &theme.index);
        self.theme_file(out, false, "favicon.png", &theme.favicon);
        self.theme_file(out, false, "book.js", &theme.js);
        self.theme_file(out, false, "highlight.css", &theme.highlight_css);
        self.theme_file(out, false, "highlight.js", &theme.highlight_js);
        self.theme_file(out, true, "general.css", &theme.general_css);
        self.theme_file(out, true, "chrome.css", &theme.chrome_css);
        self.theme_file(out, true, "print.css", &theme.print_css);
        self.theme_file(out, true, "variables.css", &theme.variables_css);
        proof {
            let dir = self.config_spec().theme_dir_spec();
            assert(dir.push("css"@) =~= dir + seq!["css"@]);
            assert forall|n: Seq<char>| #![auto] dir.push(n) =~= dir + seq![n] by {}
            assert forall|n: Seq<char>| #![auto] dir.push("css"@).push(n) =~= dir + seq!["css"@, n] by {}
            assert(plan_view(final(out)@) =~= plan_view(old(out)@) + theme_steps(self.config_spec(), *theme));
        }
    }

    fn write_book_toml(&self, out: &mut Vec<Action>, toml: Vec<u8>)
        ensures
            plan_view(final(out)@) == plan_view(old(out)@) + config_steps(toml@),
    {
        push_action(
            out,
            Action::WriteFile {
                path: path_one("book.toml"),
                contents: Contents::Bytes(toml),
                kind: ErrorKind::CreateConfig,
            },
        );
        proof {
            assert(plan_view(out@) =~= plan_view(old(out)@) + config_steps(toml@));
        }
    }

    /// The steps that generate the book, in order: the directory structure;
    /// a stub summary and first chapter unless a summary already exists; the
    /// `.gitignore` and the theme when asked for; then `book.toml` holding
    /// the serialized configuration.
    pub fn build_plan(&self, summary_exists: bool, config_toml: Vec<u8>, theme: &ThemeFiles) -> (r: Vec<Action>)
        ensures
            plan_view(r@) == self.build_steps(summary_exists, config_toml@, *theme),
    {
        let mut out: Vec<Action> = Vec::new();
        self.create_directory_structure(&mut out);
        if !summary_exists {
            self.create_stub_files(&mut out);
        }
        if self.create_gitignore {
            self.build_gitignore(&mut out);
        }
        if self.copy_theme {
            self.copy_across_theme(&mut out, theme);
        }
        self.write_book_toml(&mut out, config_toml);
        proof {
            assert(plan_view(out@) =~= self.build_steps(summary_exists, config_toml@, *theme));
        }
        out
    }
}

/// A directory tree with nothing but its (possibly missing) root.
pub open spec fn is_empty_tree(fs: Map<Seq<Seq<char>>, Entry>) -> bool {
    &&& fs.dom().subset_of(set![seq![]])
    &&& fs.dom().contains(seq![]) ==> fs[seq![]] is Dir
}

proof fn lemma_prefixes_of_one(x: Seq<char>)
    ensures
        forall|q: Seq<Seq<char>>| is_prefix(q, seq![x]) <==> (q == Seq::<Seq<char>>::empty() || q == seq![x]),
        forall|q: Seq<Seq<char>>| is_prefix(q, seq![]) <==> q == Seq::<Seq<char>>::empty(),
{
    assert forall|q: Seq<Seq<char>>| is_prefix(q, seq![x]) implies (q == Seq::<Seq<char>>::empty() || q == seq![x]) by {
        if q.len() == 0 {
            assert(q =~= Seq::<Seq<char>>::empty());
        }
    }
    assert forall|q: Seq<Seq<char>>| q == Seq::<Seq<char>>::empty() || q == seq![x] implies is_prefix(q, seq![x]) by {
        if q.len() == 0 {
            assert(seq![x].take(0) =~= q);
        } else {
            assert(seq![x].take(1) =~= q);
        }
    }
    assert forall|q: Seq<Seq<char>>| is_prefix(q, seq![]) implies q == Seq::<Seq<char>>::empty() by {
        assert(q =~= Seq::<Seq<char>>::empty());
    }
    assert(Seq::<Seq<char>>::empty().take(0) =~= Seq::<Seq<char>>::empty());
}

proof fn lemma_run_six(fs: Map<Seq<Seq<char>>, Entry>, a: Seq<ActionView>)
    requires
        a.len() == 6,
    ensures
        run(fs, a) == apply(apply(apply(apply(apply(apply(fs, a[0]), a[1]), a[2]), a[3]), a[4]), a[5]),
{
    reveal_with_fuel(run, 7);
    assert(a.drop_last().drop_last().drop_last().drop_last().drop_last().drop_last().len() == 0);
}

/// Building with the default options into an empty directory creates
/// exactly the root, the source and build directories, the summary, the
/// first chapter and `book.toml`, with their stub contents and the
/// serialized configuration.
pub proof fn lemma_default_build_scaffold(
    b: BookBuilder,
    fs: Map<Seq<Seq<char>>, Entry>,
    toml: Seq<u8>,
    theme: ThemeFiles,
)
    requires
        b.config_spec().is_default(),
        !b.gitignore_spec(),
        !b.theme_spec(),
        is_empty_tree(fs),
    ensures
        ({
            let out = run(fs, b.build_steps(false, toml, theme));
            &&& out.dom() == set![
                seq![],
                seq!["src"@],
                seq!["book"@],
                seq!["src"@, "SUMMARY.md"@],
                seq!["src"@, "chapter_1.md"@],
                seq!["book.toml"@],
            ]
            &&& out[seq![]] is Dir
            &&& out[seq!["src"@]] is Dir
            &&& out[seq!["book"@]] is Dir
            &&& out[seq!["src"@, "SUMMARY.md"@]] == Entry::File(ContentsView::Text(summary_text()))
            &&& out[seq!["src"@, "chapter_1.md"@]] == Entry::File(ContentsView::Text(chapter_one_text()))
            &&& out[seq!["book.toml"@]] == Entry::File(ContentsView::Bytes(toml))
        }),
{
    let cfg = b.config_spec();
    let steps = b.build_steps(false, toml, theme);
    assert(steps =~= directory_steps(cfg) + stub_steps(cfg) + config_steps(toml));
    lemma_run_six(fs, steps);
    lemma_prefixes_of_one("src"@);
    lemma_prefixes_of_one("book"@);
    reveal_strlit("src");
    reveal_strlit("book");
    reveal_strlit("book.toml");
    reveal_strlit("SUMMARY.md");
    reveal_strlit("chapter_1.md");
    let f1 = apply(fs, steps[0]);
    let f2 = apply(f1, steps[1]);
    let f3 = apply(f2, steps[2]);
    assert(f1.dom() =~= set![seq![]]);
    assert(f2.dom() =~= set![seq![], seq!["src"@]]);
    assert(f3.dom() =~= set![seq![], seq!["src"@], seq!["book"@]]);
    let out = run(fs, steps);
    assert(out.dom() =~= set![
        seq![],
        seq!["src"@],
        seq!["book"@],
        seq!["src"@, "SUMMARY.md"@],
        seq!["src"@, "chapter_1.md"@],
        seq!["book.toml"@],
    ]);
    assert(seq!["src"@, "SUMMARY.md"@] != seq!["src"@, "chapter_1.md"@]) by {
        assert("SUMMARY.md"@.len() != "chapter_1.md"@.len());
        assert(seq!["src"@, "SUMMARY.md"@][1] != seq!["src"@, "chapter_1.md"@][1]);
    }
    assert(seq!["book.toml"@] != seq!["src"@]) by {
        assert("book.toml"@.len() != "src"@.len());
        assert(seq!["book.toml"@][0] != seq!["src"@][0]);
    }
    assert(seq!["book.toml"@] != seq!["book"@]) by {
        assert("book.toml"@.len() != "book"@.len());
        assert(seq!["book.toml"@][0] != seq!["book"@][0]);
    }
    assert(seq!["src"@] != seq!["book"@]) by {
        assert("src"@.len() != "book"@.len());
        assert(seq!["src"@][0] != seq!["book"@][0]);
    }
    assert(out[seq![]] is Dir);
    assert(out[seq!["src"@]] is Dir);
    assert(out[seq!["book"@]] is Dir);
    assert(out[seq!["src"@, "SUMMARY.md"@]] == Entry::File(ContentsView::Text(summary_text())));
    assert(out[seq!["src"@, "chapter_1.md"@]] == Entry::File(ContentsView::Text(chapter_one_text())));
}

/// Where the theme step `k` writes.
pub open spec fn theme_path(cfg: Config, t: ThemeFiles, k: int) -> Seq<Seq<char>> {
    cfg.theme_dir_spec() + theme_file_specs(t)[k].0
}

proof fn lemma_theme_names(t: ThemeFiles)
    ensures
        forall|k: int| 0 <= k < 9 ==> (#[trigger] theme_file_specs(t)[k]).0.len() >= 1,
        forall|k: int|
            0 <= k < 9 ==> (#[trigger] theme_file_specs(t)[k]).0.last() != "SUMMARY.md"@
                && theme_file_specs(t)[k].0.last() != "chapter_1.md"@,
        forall|j: int, k: int|
            0 <= j < 9 && 0 <= k < 9 && j != k ==> (#[trigger] theme_file_specs(t)[j]).0
                != (#[trigger] theme_file_specs(t)[k]).0,
{
    reveal_strlit("SUMMARY.md");
    reveal_strlit("chapter_1.md");
    reveal_strlit("index.hbs");
    reveal_strlit("favicon.png");
    reveal_strlit("book.js");
    reveal_strlit("highlight.css");
    reveal_strlit("highlight.js");
    reveal_strlit("css");
    reveal_strlit("general.css");
    reveal_strlit("chrome.css");
    reveal_strlit("print.css");
    reveal_strlit("variables.css");
    let f = theme_file_specs(t);
    assert forall|j: int, k: int| 0 <= j < 9 && 0 <= k < 9 && j != k implies f[j].0 != f[k].0 by {
        if f[j].0 == f[k].0 {
            assert(f[j].0.last() == f[k].0.last());
            assert(f[j].0.last().len() == f[k].0.last().len());
            assert(f[j].0.last()[0] == f[k].0.last()[0]);
            assert(f[j].0.last()[1] == f[k].0.last()[1]);
        }
    }
    assert forall|k: int| 0 <= k < 9 implies (#[trigger] f[k]).0.last() != "SUMMARY.md"@ && f[k].0.last()
        != "chapter_1.md"@ by {
        assert(f[k].0.last()[0] != "SUMMARY.md"@[0]);
        assert(f[k].0.last().len() != "chapter_1.md"@.len() || f[k].0.last()[0] != "chapter_1.md"@[0]);
    }
}

/// Every theme file lies inside the theme directory, at its own path, and
/// none of them is the summary or the first chapter.
proof fn lemma_theme_paths(cfg: Config, t: ThemeFiles)
    ensures
        never_clears(theme_steps(cfg, t)),
        forall|i: int|
            2 <= i < 11 ==> (#[trigger] theme_steps(cfg, t)[i]) == write_view(
                theme_path(cfg, t, i - 2),
                ContentsView::Bytes(theme_file_specs(t)[i - 2].1),
                ErrorKind::CreateThemeFile,
            ),
        theme_steps(cfg, t).len() == 11,
        !(theme_steps(cfg, t)[0] is WriteFile),
        !(theme_steps(cfg, t)[1] is WriteFile),
        forall|k: int| 0 <= k < 9 ==> (#[trigger] theme_path(cfg, t, k)).len() >= 2,
        forall|k: int|
            0 <= k < 9 ==> #[trigger] theme_path(cfg, t, k) != summary_path(cfg) && theme_path(cfg, t, k)
                != chapter_one_path(cfg),
        forall|j: int, k: int|
            0 <= j < 9 && 0 <= k < 9 && j != k ==> #[trigger] theme_path(cfg, t, j) != #[trigger] theme_path(
                cfg,
                t,
                k,
            ),
{
    lemma_theme_names(t);
    let dir = cfg.theme_dir_spec();
    let f = theme_file_specs(t);
    assert forall|k: int| 0 <= k < 9 implies #[trigger] theme_path(cfg, t, k) != summary_path(cfg)
        && theme_path(cfg, t, k) != chapter_one_path(cfg) by {
        assert(theme_path(cfg, t, k).last() == f[k].0.last());
    }
    assert forall|j: int, k: int| 0 <= j < 9 && 0 <= k < 9 && j != k implies #[trigger] theme_path(cfg, t, j)
        != #[trigger] theme_path(cfg, t, k) by {
        if theme_path(cfg, t, j) == theme_path(cfg, t, k) {
            assert(theme_path(cfg, t, j).len() == dir.len() + f[j].0.len());
            assert(theme_path(cfg, t, k).len() == dir.len() + f[k].0.len());
            assert(f[j].0 =~= theme_path(cfg, t, j).subrange(dir.len() as int, theme_path(cfg, t, j).len() as int));
            assert(f[k].0 =~= theme_path(cfg, t, k).subrange(dir.len() as int, theme_path(cfg, t, k).len() as int));
        }
    }
}

impl BookBuilder {
    pub open spec fn gitignore_part(&self) -> Seq<ActionView> {
        if self.gitignore_spec() {
            gitignore_steps(self.config_spec())
        } else {
            Seq::empty()
        }
    }

    pub open spec fn theme_part(&self, theme: ThemeFiles) -> Seq<ActionView> {
        if self.theme_spec() {
            theme_steps(self.config_spec(), theme)
        } else {
            Seq::empty()
        }
    }
}

/// Building again over a book whose summary exists leaves the summary, and
/// the first chapter if there is one, as they were, and writes `book.toml`
/// afresh with the serialized configuration.
pub proof fn lemma_rebuild_keeps_content(
    b: BookBuilder,
    fs: Map<Seq<Seq<char>>, Entry>,
    toml: Seq<u8>,
    theme: ThemeFiles,
)
    requires
        fs.dom().contains(summary_path(b.config_spec())),
    ensures
        ({
            let cfg = b.config_spec();
            let out = run(fs, b.build_steps(true, toml, theme));
            &&& out.dom().contains(summary_path(cfg))
            &&& out[summary_path(cfg)] == fs[summary_path(cfg)]
            &&& fs.dom().contains(chapter_one_path(cfg)) ==> out.dom().contains(chapter_one_path(cfg))
                && out[chapter_one_path(cfg)] == fs[chapter_one_path(cfg)]
            &&& out.dom().contains(config_path())
            &&& out[config_path()] == Entry::File(ContentsView::Bytes(toml))
        }),
{
    let cfg = b.config_spec();
    let d = directory_steps(cfg);
    let g = b.gitignore_part();
    let t = b.theme_part(theme);
    let c = config_steps(toml);
    let steps = b.build_steps(true, toml, theme);
    assert(steps =~= d + g + t + c);
    lemma_theme_paths(cfg, theme);
    assert(never_clears(steps)) by {
        assert forall|i: int| 0 <= i < steps.len() implies !(#[trigger] steps[i] is RemoveContents) by {
            if d.len() + g.len() <= i < d.len() + g.len() + t.len() {
                assert(steps[i] == t[i - d.len() - g.len()]);
            }
        }
    }
    assert forall|p: Seq<Seq<char>>| p == summary_path(cfg) || p == chapter_one_path(cfg) implies never_writes(
        steps,
        p,
    ) by {
        assert forall|i: int| 0 <= i < steps.len() && (#[trigger] steps[i]) is WriteFile implies steps[i]->WriteFile_path
            != p by {
            if i < d.len() {
                assert(steps[i] == d[i]);
            } else if i < d.len() + g.len() {
                assert(steps[i] == g[i - d.len()]);
                assert(b.gitignore_spec());
                assert(steps[i]->WriteFile_path == gitignore_path());
                assert(p.len() == 2);
            } else if i < d.len() + g.len() + t.len() {
                let k = i - d.len() - g.len();
                assert(steps[i] == t[k]);
                if k >= 2 {
                    assert(theme_path(cfg, theme, k - 2) != p);
                }
            } else {
                assert(steps[i] == c[0]);
                assert(steps[i]->WriteFile_path == config_path());
                assert(p.len() == 2);
            }
        }
    }
    assert(never_writes(steps, summary_path(cfg)));
    lemma_run_keeps(fs, steps, summary_path(cfg));
    if fs.dom().contains(chapter_one_path(cfg)) {
        assert(never_writes(steps, chapter_one_path(cfg)));
        lemma_run_keeps(fs, steps, chapter_one_path(cfg));
    }
    assert(steps.last() == c[0]);
}

/// With a `.gitignore` asked for, the built book's `.gitignore` holds the
/// build directory followed by a newline.
pub proof fn lemma_gitignore_contents(
    b: BookBuilder,
    fs: Map<Seq<Seq<char>>, Entry>,
    summary_exists: bool,
    toml: Seq<u8>,
    theme: ThemeFiles,
)
    requires
        b.gitignore_spec(),
    ensures
        run(fs, b.build_steps(summary_exists, toml, theme)).dom().contains(gitignore_path()),
        run(fs, b.build_steps(summary_exists, toml, theme))[gitignore_path()] == Entry::File(
            ContentsView::Text(b.config_spec().build_dir@ + "\n"@),
        ),
{
    let cfg = b.config_spec();
    let d = directory_steps(cfg);
    let st: Seq<ActionView> = if summary_exists {
        Seq::empty()
    } else {
        stub_steps(cfg)
    };
    let g = gitignore_steps(cfg);
    let t = b.theme_part(theme);
    let c = config_steps(toml);
    let pre = d + st + g;
    let post = t + c;
    assert(b.build_steps(summary_exists, toml, theme) =~= pre + post);
    lemma_run_append(fs, pre, post);
    assert(pre.drop_last() =~= d + st);
    lemma_theme_paths(cfg, theme);
    reveal_strlit("book.toml");
    reveal_strlit(".gitignore");
    assert(never_clears(post)) by {
        assert forall|i: int| 0 <= i < post.len() implies !(#[trigger] post[i] is RemoveContents) by {
            if i < t.len() {
                assert(post[i] == t[i]);
            }
        }
    }
    assert(never_writes(post, gitignore_path())) by {
        assert forall|i: int| 0 <= i < post.len() && (#[trigger] post[i]) is WriteFile implies post[i]->WriteFile_path
            != gitignore_path() by {
            if i < t.len() {
                assert(post[i] == t[i]);
                if i >= 2 {
                    assert(theme_path(cfg, theme, i - 2).len() >= 2);
                }
            } else {
                assert("book.toml"@.len() != ".gitignore"@.len());
                assert(config_path()[0] != gitignore_path()[0]);
            }
        }
    }
    lemma_run_keeps(run(fs, pre), post, gitignore_path());
}

/// With the theme asked for, the nine theme files lie at nine distinct
/// paths under the theme directory, each holding its default contents.
pub proof fn lemma_theme_files(
    b: BookBuilder,
    fs: Map<Seq<Seq<char>>, Entry>,
    summary_exists: bool,
    toml: Seq<u8>,
    theme: ThemeFiles,
)
    requires
        b.theme_spec(),
    ensures
        forall|j: int, k: int|
            0 <= j < 9 && 0 <= k < 9 && j != k ==> #[trigger] theme_path(b.config_spec(), theme, j)
                != #[trigger] theme_path(b.config_spec(), theme, k),
        forall|k: int|
            0 <= k < 9 ==> run(fs, b.build_steps(summary_exists, toml, theme)).dom().contains(
                #[trigger] theme_path(b.config_spec(), theme, k),
            ) && run(fs, b.build_steps(summary_exists, toml, theme))[theme_path(b.config_spec(), theme, k)]
                == Entry::File(ContentsView::Bytes(theme_file_specs(theme)[k].1)),
{
    let cfg = b.config_spec();
    let st: Seq<ActionView> = if summary_exists {
        Seq::empty()
    } else {
        stub_steps(cfg)
    };
    let pre = directory_steps(cfg) + st + b.gitignore_part();
    let t = theme_steps(cfg, theme);
    let c = config_steps(toml);
    let steps = b.build_steps(summary_exists, toml, theme);
    assert(steps =~= pre + t + c);
    lemma_theme_paths(cfg, theme);
    assert forall|k: int| 0 <= k < 9 implies run(fs, steps).dom().contains(#[trigger] theme_path(cfg, theme, k))
        && run(fs, steps)[theme_path(cfg, theme, k)] == Entry::File(
        ContentsView::Bytes(theme_file_specs(theme)[k].1),
    ) by {
        let p = theme_path(cfg, theme, k);
        let first = pre + t.take(3 + k);
        let rest = t.skip(3 + k) + c;
        assert(steps =~= first + rest);
        lemma_run_append(fs, first, rest);
        assert(first.drop_last() =~= pre + t.take(2 + k));
        assert(first.last() == t[2 + k]);
        assert(never_clears(rest)) by {
            assert forall|i: int| 0 <= i < rest.len() implies !(#[trigger] rest[i] is RemoveContents) by {
                if i < t.len() - 3 - k {
                    assert(rest[i] == t[3 + k + i]);
                }
            }
        }
        assert(never_writes(rest, p)) by {
            assert forall|i: int| 0 <= i < rest.len() && (#[trigger] rest[i]) is WriteFile implies rest[i]->WriteFile_path
                != p by {
                if i < t.len() - 3 - k {
                    assert(rest[i] == t[3 + k + i]);
                    assert(theme_path(cfg, theme, 1 + k + i) != p);
                } else {
                    assert(p.len() >= 2);
                }
            }
        }
        lemma_run_keeps(run(fs, first), rest, p);
    }
}

} // verus!
