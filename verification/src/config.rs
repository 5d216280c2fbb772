//! Application configuration as the core logic sees it: the journal
//! storage location, the file format of saved entries, and auxiliary
//! fields. Reading and writing the configuration file on disk is a
//! collaborator's job; this module only models the values and the pure
//! rules over them (format tokens, file-path construction).

use vstd::prelude::*;

verus! {

/// The format a journal entry is saved in.
#[derive(Debug, Clone, Copy, PartialEq, Eq, Structural)]
pub enum FileFormat {
    Markdown,
    PlainText,
    Json,
}

impl FileFormat {
    /// The file extension of this format, without the dot.
    pub open spec fn extension_view(self) -> Seq<char> {
        match self {
            FileFormat::Markdown => "md"@,
            FileFormat::PlainText => "txt"@,
            FileFormat::Json => "json"@,
        }
    }

    pub fn extension(&self) -> (r: &'static str)
        ensures
            r@ == self.extension_view(),
    {
        match self {
            FileFormat::Markdown => "md",
            FileFormat::PlainText => "txt",
            FileFormat::Json => "json",
        }
    }

    /// The human-readable name of this format.
    pub open spec fn display_name_view(self) -> Seq<char> {
        match self {
            FileFormat::Markdown => "Markdown (.md)"@,
            FileFormat::PlainText => "Plain Text (.txt)"@,
            FileFormat::Json => "JSON (.json)"@,
        }
    }

    pub fn display_name(&self) -> (r: &'static str)
        ensures
            r@ == self.display_name_view(),
    {
        match self {
            FileFormat::Markdown => "Markdown (.md)",
            FileFormat::PlainText => "Plain Text (.txt)",
            FileFormat::Json => "JSON (.json)",
        }
    }
}

/// What a typed format token commits to: `"txt"` and `"json"` select their
/// formats; every other token, a typo included, falls back to Markdown.
/// The silent fallback is deliberate and mirrors the settings screen's
/// documented behaviour.
pub open spec fn format_of_token(token: Seq<char>) -> FileFormat {
    if token == "txt"@ {
        FileFormat::PlainText
    } else if token == "json"@ {
        FileFormat::Json
    } else {
        FileFormat::Markdown
    }
}

/// Maps a typed format token to the format it selects; unrecognized
/// tokens fall back to Markdown.
pub fn parse_format_token(token: &String) -> (r: FileFormat)
    ensures
        r == format_of_token(token@),
{
    let txt = String::from_str("txt");
    let json = String::from_str("json");
    if token.eq(&txt) {
        FileFormat::PlainText
    } else if token.eq(&json) {
        FileFormat::Json
    } else {
        FileFormat::Markdown
    }
}

/// The application's settings. The journal directory is held as a plain
/// path string; no existence validation happens here — that is deferred
/// to the persistence collaborator on next use.
#[derive(Debug, Clone)]
pub struct Config {
    pub journal_directory: String,
    pub file_format: FileFormat,
    pub date_format: String,
    pub auto_backup: bool,
    pub editor_command: Option<String>,
}

impl Config {
    /// The default settings, rooted under the given home directory.
    pub fn with_home(home: &str) -> (r: Config)
        ensures
            r.journal_directory@ == home@ + "/Documents/RustyDiary"@,
            r.file_format == FileFormat::Markdown,
            r.date_format@ == "%Y-%m-%d"@,
            r.auto_backup == false,
            r.editor_command is None,
    {
        let mut dir = String::from_str(home);
        dir.append("/Documents/RustyDiary");
        Config {
            journal_directory: dir,
            file_format: FileFormat::Markdown,
            date_format: String::from_str("%Y-%m-%d"),
            auto_backup: false,
            editor_command: None,
        }
    }

    /// The path of the journal file for the given date string:
    /// `<journal_directory>/<date>.<extension>`.
    pub open spec fn journal_file_path_view(self, date: Seq<char>) -> Seq<char> {
        self.journal_directory@ + "/"@ + date + "."@ + self.file_format.extension_view()
    }

    pub fn get_journal_file_path(&self, date: &str) -> (r: String)
        ensures
            r@ == self.journal_file_path_view(date@),
    {
        let mut path = self.journal_directory.clone();
        path.append("/");
        path.append(date);
        path.append(".");
        path.append(self.file_format.extension());
        path
    }

    /// The journal directory as a display string.
    pub fn get_journal_directory_display(&self) -> (r: String)
        ensures
            r == self.journal_directory,
    {
        self.journal_directory.clone()
    }
}

impl Default for Config {
    /// Default settings when no home directory is known: rooted under
    /// the current directory, as `with_home(".")` would give.
    fn default() -> (r: Config)
        ensures
            r.journal_directory@ == "./Documents/RustyDiary"@,
            r.file_format == FileFormat::Markdown,
            r.date_format@ == "%Y-%m-%d"@,
            r.auto_backup == false,
            r.editor_command is None,
    {
        let c = Config::with_home(".");
        proof {
            reveal_strlit(".");
            reveal_strlit("/Documents/RustyDiary");
            reveal_strlit("./Documents/RustyDiary");
            assert(c.journal_directory@ =~= "./Documents/RustyDiary"@);
        }
        c
    }
}

} // verus!
