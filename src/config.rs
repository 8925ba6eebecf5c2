use vstd::prelude::*;

verus! {

/// The settings of a book that scaffolding reads.
#[derive(Debug, Clone, PartialEq, Eq)]
pub struct Config {
    /// Directory of the book's sources, relative to the root.
    pub book_src: String,
    /// Directory the rendered book goes to, relative to the root.
    pub build_dir: String,
    /// Where the HTML theme lives, when it is not `<book_src>/theme`.
    pub html_theme: Option<String>,
}

pub open spec fn default_src() -> Seq<char> {
    "src"@
}

pub open spec fn default_build_dir() -> Seq<char> {
    "book"@
}

impl Config {
    pub open spec fn is_default(&self) -> bool {
        &&& self.book_src@ == default_src()
        &&& self.build_dir@ == default_build_dir()
        &&& self.html_theme is None
    }

    /// The theme directory relative to the root, as path components.
    pub open spec fn theme_dir_spec(&self) -> Seq<Seq<char>> {
        match self.html_theme {
            Some(t) => seq![t@],
            None => seq![self.book_src@, "theme"@],
        }
    }

    /// The theme directory relative to the root: the configured one, else
    /// `theme` under the source directory.
    pub fn theme_dir(&self) -> (r: Vec<String>)
        ensures
            r@.map_values(|s: String| s@) == self.theme_dir_spec(),
    {
        let mut r: Vec<String> = Vec::new();
        match &self.html_theme {
            Some(t) => {
                r.push(t.clone());
            },
            None => {
                r.push(self.book_src.clone());
                r.push(String::from_str("theme"));
            },
        }
        proof {
            reveal_strlit("theme");
            assert(r@.map_values(|s: String| s@) =~= self.theme_dir_spec());
        }
        r
    }
}

impl Default for Config {
    fn default() -> (r: Config)
        ensures
            r.is_default(),
    {
        proof {
            reveal_strlit("src");
            reveal_strlit("book");
        }
        Config {
            book_src: String::from_str("src"),
            build_dir: String::from_str("book"),
            html_theme: None,
        }
    }
}

} // verus!
