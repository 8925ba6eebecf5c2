use mdbook::action::{Action, Contents};
use mdbook::config::Config;
use mdbook::error::{Error, ErrorKind};
use mdbook::init::{BookBuilder, ThemeFiles};

fn s(x: &str) -> String {
    x.to_string()
}

fn path(parts: &[&str]) -> Vec<String> {
    parts.iter().map(|p| p.to_string()).collect()
}

fn theme() -> ThemeFiles {
    ThemeFiles {
        index: b"index".to_vec(),
        favicon: vec![0x89, 0x50, 0x4e, 0x47],
        js: b"js".to_vec(),
        highlight_css: b"hl-css".to_vec(),
        highlight_js: b"hl-js".to_vec(),
        general_css: b"general".to_vec(),
        chrome_css: b"chrome".to_vec(),
        print_css: b"print".to_vec(),
        variables_css: b"variables".to_vec(),
    }
}

fn dir(parts: &[&str], kind: ErrorKind) -> Action {
    Action::CreateDir { path: path(parts), kind }
}

fn text(parts: &[&str], t: &str, kind: ErrorKind) -> Action {
    Action::WriteFile { path: path(parts), contents: Contents::Text(s(t)), kind }
}

fn bytes(parts: &[&str], b: &[u8], kind: ErrorKind) -> Action {
    Action::WriteFile { path: path(parts), contents: Contents::Bytes(b.to_vec()), kind }
}

#[test]
fn default_config_values() {
    let c = Config::default();
    assert_eq!(c.book_src, "src");
    assert_eq!(c.build_dir, "book");
    assert_eq!(c.html_theme, None);
}

#[test]
fn new_builder_defaults() {
    let b = BookBuilder::new(s("/tmp/book"));
    assert_eq!(b.root(), "/tmp/book");
    assert_eq!(b.config(), &Config::default());
    let plan = b.build_plan(false, b"toml".to_vec(), &theme());
    assert_eq!(plan.len(), 6);
}

#[test]
fn default_build_creates_scaffold() {
    let b = BookBuilder::new(s("root"));
    let plan = b.build_plan(false, b"[book]\n".to_vec(), &theme());
    assert_eq!(
        plan,
        vec![
            dir(&[], ErrorKind::CreateScaffoldDirectory),
            dir(&["src"], ErrorKind::CreateScaffoldDirectory),
            dir(&["book"], ErrorKind::CreateScaffoldDirectory),
            text(
                &["src", "SUMMARY.md"],
                "# Summary\n\n- [Chapter 1](./chapter_1.md)\n",
                ErrorKind::CreateSummary
            ),
            text(&["src", "chapter_1.md"], "# Chapter 1\n", ErrorKind::CreateChapterOne),
            bytes(&["book.toml"], b"[book]\n", ErrorKind::CreateConfig),
        ]
    );
}

#[test]
fn rebuild_keeps_existing_summary() {
    let b = BookBuilder::new(s("root"));
    let plan = b.build_plan(true, b"cfg".to_vec(), &theme());
    assert_eq!(
        plan,
        vec![
            dir(&[], ErrorKind::CreateScaffoldDirectory),
            dir(&["src"], ErrorKind::CreateScaffoldDirectory),
            dir(&["book"], ErrorKind::CreateScaffoldDirectory),
            bytes(&["book.toml"], b"cfg", ErrorKind::CreateConfig),
        ]
    );
}

#[test]
fn summary_path_follows_source_dir() {
    let mut b = BookBuilder::new(s("root"));
    let cfg = Config { book_src: s("docs"), build_dir: s("out"), html_theme: None };
    b.with_config(cfg);
    assert_eq!(b.summary_path(), path(&["docs", "SUMMARY.md"]));
}

#[test]
fn gitignore_holds_build_dir_and_newline() {
    let mut b = BookBuilder::new(s("root"));
    let cfg = Config { book_src: s("src"), build_dir: s("public/site"), html_theme: None };
    b.with_config(cfg).create_gitignore(true);
    let plan = b.build_plan(true, b"cfg".to_vec(), &theme());
    assert_eq!(plan.len(), 5);
    assert_eq!(plan[3], text(&[".gitignore"], "public/site\n", ErrorKind::CreateGitignore));
    assert_eq!(plan[2], dir(&["public/site"], ErrorKind::CreateScaffoldDirectory));
}

#[test]
fn theme_copies_nine_files_under_source() {
    let mut b = BookBuilder::new(s("root"));
    b.copy_theme(true);
    let t = theme();
    let plan = b.build_plan(true, b"cfg".to_vec(), &t);
    assert_eq!(plan.len(), 3 + 11 + 1);
    let expected = vec![
        dir(&["src", "theme"], ErrorKind::CreateThemeDir),
        dir(&["src", "theme", "css"], ErrorKind::CreateThemeDir),
        bytes(&["src", "theme", "index.hbs"], b"index", ErrorKind::CreateThemeFile),
        bytes(&["src", "theme", "favicon.png"], &[0x89, 0x50, 0x4e, 0x47], ErrorKind::CreateThemeFile),
        bytes(&["src", "theme", "book.js"], b"js", ErrorKind::CreateThemeFile),
        bytes(&["src", "theme", "highlight.css"], b"hl-css", ErrorKind::CreateThemeFile),
        bytes(&["src", "theme", "highlight.js"], b"hl-js", ErrorKind::CreateThemeFile),
        bytes(&["src", "theme", "css", "general.css"], b"general", ErrorKind::CreateThemeFile),
        bytes(&["src", "theme", "css", "chrome.css"], b"chrome", ErrorKind::CreateThemeFile),
        bytes(&["src", "theme", "css", "print.css"], b"print", ErrorKind::CreateThemeFile),
        bytes(&["src", "theme", "css", "variables.css"], b"variables", ErrorKind::CreateThemeFile),
    ];
    assert_eq!(plan[3..14].to_vec(), expected);
    assert_eq!(plan[14], bytes(&["book.toml"], b"cfg", ErrorKind::CreateConfig));
}

#[test]
fn theme_uses_configured_directory() {
    let mut b = BookBuilder::new(s("root"));
    let cfg = Config { book_src: s("src"), build_dir: s("book"), html_theme: Some(s("my-theme")) };
    b.with_config(cfg).copy_theme(true).create_gitignore(true);
    let plan = b.build_plan(false, b"cfg".to_vec(), &theme());
    assert_eq!(plan.len(), 3 + 2 + 1 + 11 + 1);
    assert_eq!(plan[6], dir(&["my-theme"], ErrorKind::CreateThemeDir));
    assert_eq!(plan[7], dir(&["my-theme", "css"], ErrorKind::CreateThemeDir));
    assert_eq!(plan[8], bytes(&["my-theme", "index.hbs"], b"index", ErrorKind::CreateThemeFile));
    assert_eq!(
        plan[16],
        bytes(&["my-theme", "css", "variables.css"], b"variables", ErrorKind::CreateThemeFile)
    );
}

#[test]
fn setters_keep_other_settings() {
    let mut b = BookBuilder::new(s("root"));
    b.create_gitignore(true).copy_theme(true).copy_theme(false);
    let plan = b.build_plan(true, b"c".to_vec(), &theme());
    assert_eq!(plan.len(), 5);
    assert_eq!(b.root(), "root");
}

#[test]
fn error_new_keeps_kind_path_and_cause() {
    let e = Error::new(ErrorKind::CreateSummary, s("root/src/SUMMARY.md"), s("denied"));
    assert_eq!(e.kind(), ErrorKind::CreateSummary);
    assert_eq!(e, Error::CreateSummary { source: s("denied"), path: s("root/src/SUMMARY.md") });
    let e = Error::new(ErrorKind::SerializeConfig, s("ignored"), s("bad value"));
    assert_eq!(e, Error::SerializeConfig { source: s("bad value") });
}

#[test]
fn every_error_kind_round_trips() {
    let kinds = [
        ErrorKind::SerializeConfig,
        ErrorKind::CreateConfig,
        ErrorKind::CreateThemeDir,
        ErrorKind::CreateThemeFile,
        ErrorKind::CreateGitignore,
        ErrorKind::CreateSummary,
        ErrorKind::CreateChapterOne,
        ErrorKind::CreateScaffoldDirectory,
        ErrorKind::RemoveStaleOutput,
        ErrorKind::WriteChapter,
        ErrorKind::CreateDestination,
    ];
    for k in kinds {
        assert_eq!(Error::new(k, s("p"), s("c")).kind(), k);
    }
}

#[test]
fn failed_step_reports_its_kind() {
    let b = BookBuilder::new(s("root"));
    let plan = b.build_plan(false, b"cfg".to_vec(), &theme());
    let e = plan[4].failure(s("root/src/chapter_1.md"), s("disk full"));
    assert_eq!(e, Error::CreateChapterOne { source: s("disk full"), path: s("root/src/chapter_1.md") });
    assert_eq!(plan[5].error_kind(), ErrorKind::CreateConfig);
}
