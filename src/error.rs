use vstd::prelude::*;

verus! {

/// What went wrong, without the details.
#[derive(PartialEq, Eq, Structural, Clone, Copy, Debug)]
pub enum ErrorKind {
    SerializeConfig,
    CreateConfig,
    CreateThemeDir,
    CreateThemeFile,
    CreateGitignore,
    CreateSummary,
    CreateChapterOne,
    CreateScaffoldDirectory,
    RemoveStaleOutput,
    WriteChapter,
    CreateDestination,
}

/// A failed scaffolding or rendering step: its kind, the path it concerned
/// and a description of the underlying cause.
#[derive(Debug, Clone, PartialEq, Eq)]
pub enum Error {
    SerializeConfig { source: String },
    CreateConfig { source: String, path: String },
    CreateThemeDir { source: String, path: String },
    CreateThemeFile { source: String, path: String },
    CreateGitignore { source: String, path: String },
    CreateSummary { source: String, path: String },
    CreateChapterOne { source: String, path: String },
    CreateScaffoldDirectory { source: String, path: String },
    RemoveStaleOutput { source: String, path: String },
    WriteChapter { source: String, path: String },
    CreateDestination { source: String, path: String },
}

impl Error {
    pub open spec fn kind_spec(&self) -> ErrorKind {
        match self {
            Error::SerializeConfig { .. } => ErrorKind::SerializeConfig,
            Error::CreateConfig { .. } => ErrorKind::CreateConfig,
            Error::CreateThemeDir { .. } => ErrorKind::CreateThemeDir,
            Error::CreateThemeFile { .. } => ErrorKind::CreateThemeFile,
            Error::CreateGitignore { .. } => ErrorKind::CreateGitignore,
            Error::CreateSummary { .. } => ErrorKind::CreateSummary,
            Error::CreateChapterOne { .. } => ErrorKind::CreateChapterOne,
            Error::CreateScaffoldDirectory { .. } => ErrorKind::CreateScaffoldDirectory,
            Error::RemoveStaleOutput { .. } => ErrorKind::RemoveStaleOutput,
            Error::WriteChapter { .. } => ErrorKind::WriteChapter,
            Error::CreateDestination { .. } => ErrorKind::CreateDestination,
        }
    }

    /// The cause carried by the error.
    pub open spec fn source_spec(&self) -> Seq<char> {
        match self {
            Error::SerializeConfig { source } => source@,
            Error::CreateConfig { source, .. } => source@,
            Error::CreateThemeDir { source, .. } => source@,
            Error::CreateThemeFile { source, .. } => source@,
            Error::CreateGitignore { source, .. } => source@,
            Error::CreateSummary { source, .. } => source@,
            Error::CreateChapterOne { source, .. } => source@,
            Error::CreateScaffoldDirectory { source, .. } => source@,
            Error::RemoveStaleOutput { source, .. } => source@,
            Error::WriteChapter { source, .. } => source@,
            Error::CreateDestination { source, .. } => source@,
        }
    }

    /// The path carried by the error; empty for a serialization failure.
    pub open spec fn path_spec(&self) -> Seq<char> {
        match self {
            Error::SerializeConfig { .. } => Seq::empty(),
            Error::CreateConfig { path, .. } => path@,
            Error::CreateThemeDir { path, .. } => path@,
            Error::CreateThemeFile { path, .. } => path@,
            Error::CreateGitignore { path, .. } => path@,
            Error::CreateSummary { path, .. } => path@,
            Error::CreateChapterOne { path, .. } => path@,
            Error::CreateScaffoldDirectory { path, .. } => path@,
            Error::RemoveStaleOutput { path, .. } => path@,
            Error::WriteChapter { path, .. } => path@,
            Error::CreateDestination { path, .. } => path@,
        }
    }

    /// Builds the error of the given kind. The path is dropped for a
    /// serialization failure, which concerns no file.
    pub fn new(kind: ErrorKind, path: String, source: String) -> (r: Error)
        ensures
            r.kind_spec() == kind,
            r.source_spec() == source@,
            kind != ErrorKind::SerializeConfig ==> r.path_spec() == path@,
    {
        match kind {
            ErrorKind::SerializeConfig => Error::SerializeConfig { source },
            ErrorKind::CreateConfig => Error::CreateConfig { source, path },
            ErrorKind::CreateThemeDir => Error::CreateThemeDir { source, path },
            ErrorKind::CreateThemeFile => Error::CreateThemeFile { source, path },
            ErrorKind::CreateGitignore => Error::CreateGitignore { source, path },
            ErrorKind::CreateSummary => Error::CreateSummary { source, path },
            ErrorKind::CreateChapterOne => Error::CreateChapterOne { source, path },
            ErrorKind::CreateScaffoldDirectory => Error::CreateScaffoldDirectory { source, path },
            ErrorKind::RemoveStaleOutput => Error::RemoveStaleOutput { source, path },
            ErrorKind::WriteChapter => Error::WriteChapter { source, path },
            ErrorKind::CreateDestination => Error::CreateDestination { source, path },
        }
    }

    /// The kind of this error.
    pub fn kind(&self) -> (r: ErrorKind)
        ensures
            r == self.kind_spec(),
    {
        match self {
            Error::SerializeConfig { .. } => ErrorKind::SerializeConfig,
            Error::CreateConfig { .. } => ErrorKind::CreateConfig,
            Error::CreateThemeDir { .. } => ErrorKind::CreateThemeDir,
            Error::CreateThemeFile { .. } => ErrorKind::CreateThemeFile,
            Error::CreateGitignore { .. } => ErrorKind::CreateGitignore,
            Error::CreateSummary { .. } => ErrorKind::CreateSummary,
            Error::CreateChapterOne { .. } => ErrorKind::CreateChapterOne,
            Error::CreateScaffoldDirectory { .. } => ErrorKind::CreateScaffoldDirectory,
            Error::RemoveStaleOutput { .. } => ErrorKind::RemoveStaleOutput,
            Error::WriteChapter { .. } => ErrorKind::WriteChapter,
            Error::CreateDestination { .. } => ErrorKind::CreateDestination,
        }
    }
}

} // verus!
