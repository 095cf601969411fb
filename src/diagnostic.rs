//! The diagnostic value and its rendering configuration.
use vstd::prelude::*;

use crate::{ByteIndex, FileId};

verus! {

/// Boundary code of [`Severity::Help`].
pub const SEVERITY_HELP: usize = 0;
/// Boundary code of [`Severity::Note`].
pub const SEVERITY_NOTE: usize = 1;
/// Boundary code of [`Severity::Warning`].
pub const SEVERITY_WARNING: usize = 2;
/// Boundary code of [`Severity::Error`].
pub const SEVERITY_ERROR: usize = 3;
/// Boundary code of [`Severity::Bug`].
pub const SEVERITY_BUG: usize = 4;

/// Boundary code of [`DisplayStyle::Rich`].
pub const DISPLAY_STYLE_RICH: usize = 0;
/// Boundary code of [`DisplayStyle::Medium`].
pub const DISPLAY_STYLE_MEDIUM: usize = 1;
/// Boundary code of [`DisplayStyle::Short`].
pub const DISPLAY_STYLE_SHORT: usize = 2;

/// Boundary code of [`CharStyle::Fancy`].
pub const CHAR_STYLE_FANCY: usize = 0;
/// Boundary code of [`CharStyle::Ascii`].
pub const CHAR_STYLE_ASCII: usize = 1;

/// Spaces a tab expands to unless the configuration says otherwise.
pub const DEFAULT_TAB_WIDTH: usize = 4;

/// How serious a diagnostic is, from least to most severe: the derived
/// order follows the order of the variants.
#[derive(Clone, Copy, Debug, PartialEq, Eq, PartialOrd, Ord, Structural)]
pub enum Severity {
    Help,
    Note,
    Warning,
    Error,
    Bug,
}

impl Severity {
    /// The place of a severity in the order Help < Note < Warning < Error < Bug.
    pub open spec fn spec_rank(self) -> nat {
        match self {
            Severity::Help => 0,
            Severity::Note => 1,
            Severity::Warning => 2,
            Severity::Error => 3,
            Severity::Bug => 4,
        }
    }

    /// The place of this severity in the order from least to most severe.
    pub fn rank(&self) -> (r: u8)
        ensures
            r as nat == self.spec_rank(),
    {
        match self {
            Severity::Help => 0,
            Severity::Note => 1,
            Severity::Warning => 2,
            Severity::Error => 3,
            Severity::Bug => 4,
        }
    }
}

/// How much of a diagnostic is shown.
#[derive(Clone, Copy, Debug, PartialEq, Eq, Structural)]
pub enum DisplayStyle {
    /// Header, annotated source excerpts with gutter art, and notes.
    Rich,
    /// Source excerpts without the connecting gutter art.
    Medium,
    /// One line per label, no source excerpt.
    Short,
}

/// The glyphs used to draw excerpts.
#[derive(Clone, Copy, Debug, PartialEq, Eq, Structural)]
pub enum CharStyle {
    /// Unicode box-drawing characters.
    Fancy,
    /// Plain ASCII characters.
    Ascii,
}

/// Whether a label marks the cause of a diagnostic or supporting context.
#[derive(Clone, Copy, Debug, PartialEq, Eq, Structural)]
pub enum LabelStyle {
    Primary,
    Secondary,
}

/// The severity that a boundary code stands for; unknown codes mean `Error`.
pub open spec fn severity_of(code: usize) -> Severity {
    if code == SEVERITY_HELP {
        Severity::Help
    } else if code == SEVERITY_NOTE {
        Severity::Note
    } else if code == SEVERITY_WARNING {
        Severity::Warning
    } else if code == SEVERITY_BUG {
        Severity::Bug
    } else {
        Severity::Error
    }
}

/// The display style that a boundary code stands for; unknown codes mean `Rich`.
pub open spec fn display_style_of(code: usize) -> DisplayStyle {
    if code == DISPLAY_STYLE_MEDIUM {
        DisplayStyle::Medium
    } else if code == DISPLAY_STYLE_SHORT {
        DisplayStyle::Short
    } else {
        DisplayStyle::Rich
    }
}

/// The glyph set that a boundary code stands for.
///
/// Unknown codes mean `Fancy`, the richer of the two sets.
pub open spec fn char_style_of(code: usize) -> CharStyle {
    if code == CHAR_STYLE_ASCII {
        CharStyle::Ascii
    } else {
        CharStyle::Fancy
    }
}

/// Decodes a severity from its boundary code, falling back to `Error`.
pub fn severity_from_code(code: usize) -> (r: Severity)
    ensures
        r == severity_of(code),
{
    if code == SEVERITY_HELP {
        Severity::Help
    } else if code == SEVERITY_NOTE {
        Severity::Note
    } else if code == SEVERITY_WARNING {
        Severity::Warning
    } else if code == SEVERITY_BUG {
        Severity::Bug
    } else {
        Severity::Error
    }
}

/// Decodes a display style from its boundary code, falling back to `Rich`.
pub fn display_style_from_code(code: usize) -> (r: DisplayStyle)
    ensures
        r == display_style_of(code),
{
    if code == DISPLAY_STYLE_MEDIUM {
        DisplayStyle::Medium
    } else if code == DISPLAY_STYLE_SHORT {
        DisplayStyle::Short
    } else {
        DisplayStyle::Rich
    }
}

/// Decodes a glyph set from its boundary code, falling back to `Fancy`.
pub fn char_style_from_code(code: usize) -> (r: CharStyle)
    ensures
        r == char_style_of(code),
{
    if code == CHAR_STYLE_ASCII {
        CharStyle::Ascii
    } else {
        CharStyle::Fancy
    }
}

/// Codes outside the known ranges never fail: an unknown severity is
/// `Error`, an unknown display style is `Rich`, and an unknown glyph set is
/// `Fancy`.
pub proof fn lemma_unknown_codes_degrade(severity: usize, style: usize, chars: usize)
    requires
        severity > SEVERITY_BUG,
        style > DISPLAY_STYLE_SHORT,
        chars > CHAR_STYLE_ASCII,
    ensures
        severity_of(severity) == Severity::Error,
        display_style_of(style) == DisplayStyle::Rich,
        char_style_of(chars) == CharStyle::Fancy,
        Config::spec_from_codes(style, chars, 0).display_style == DisplayStyle::Rich,
{
}

/// How a diagnostic is laid out when rendered.
#[derive(Clone, Copy, Debug, PartialEq, Eq, Structural)]
pub struct Config {
    pub display_style: DisplayStyle,
    pub chars: CharStyle,
    /// Spaces a tab character expands to.
    pub tab_width: usize,
}

impl Config {
    /// The configuration a fresh diagnostic starts with.
    pub open spec fn spec_default() -> Config {
        Config { display_style: DisplayStyle::Rich, chars: CharStyle::Fancy, tab_width: DEFAULT_TAB_WIDTH }
    }

    /// Rich style, fancy glyphs, and the default tab width.
    pub fn new() -> (r: Config)
        ensures
            r == Config::spec_default(),
    {
        Config { display_style: DisplayStyle::Rich, chars: CharStyle::Fancy, tab_width: DEFAULT_TAB_WIDTH }
    }

    /// The configuration that three boundary values stand for.
    pub open spec fn spec_from_codes(style: usize, chars: usize, tab_width: usize) -> Config {
        Config {
            display_style: display_style_of(style),
            chars: char_style_of(chars),
            tab_width: tab_width,
        }
    }

    /// Decodes a configuration from boundary values; unknown codes degrade.
    pub fn from_codes(style: usize, chars: usize, tab_width: usize) -> (r: Config)
        ensures
            r == Config::spec_from_codes(style, chars, tab_width),
    {
        Config {
            display_style: display_style_from_code(style),
            chars: char_style_from_code(chars),
            tab_width,
        }
    }
}

/// An annotated byte range `[start, end)` of one file.
#[derive(Clone, Debug)]
pub struct Label {
    pub style: LabelStyle,
    pub file_id: FileId,
    pub start: ByteIndex,
    pub end: ByteIndex,
    pub message: String,
}

/// One reportable message: severity, optional code, message, labels in the
/// order they were added, notes in the order they were added, and the
/// configuration it is rendered with.
#[derive(Clone, Debug)]
pub struct CodespanDiagnostic {
    pub severity: Severity,
    pub message: String,
    pub code: Option<String>,
    pub labels: Vec<Label>,
    pub notes: Vec<String>,
    pub config: Config,
}

impl CodespanDiagnostic {
    /// A diagnostic with a severity (decoded from its boundary code) and a
    /// message, no code, no labels, no notes, and the default configuration.
    pub fn codespan_new_diagnostic(severity: usize, message: String) -> (r: CodespanDiagnostic)
        ensures
            r.severity == severity_of(severity),
            r.message@ == message@,
            r.code is None,
            r.labels@.len() == 0,
            r.notes@.len() == 0,
            r.config == Config::spec_default(),
    {
        CodespanDiagnostic {
            severity: severity_from_code(severity),
            message,
            code: None,
            labels: Vec::new(),
            notes: Vec::new(),
            config: Config::new(),
        }
    }

    /// Releases the diagnostic.
    pub fn codespan_delete_diagnostic(self) {
    }

    /// Replaces any code the diagnostic had; the rest is kept.
    pub fn codespan_diagnostic_set_code(&mut self, code: String)
        ensures
            final(self).code == Some(code),
            final(self).severity == old(self).severity,
            final(self).message == old(self).message,
            final(self).labels@ == old(self).labels@,
            final(self).notes@ == old(self).notes@,
            final(self).config == old(self).config,
    {
        self.code = Some(code);
    }

    /// Appends a label; nothing checks the range against the file.
    pub fn push_label(
        &mut self,
        style: LabelStyle,
        file_id: FileId,
        start: ByteIndex,
        end: ByteIndex,
        message: String,
    )
        ensures
            final(self).labels@ == old(self).labels@.push(
                Label { style, file_id, start, end, message },
            ),
            final(self).severity == old(self).severity,
            final(self).message == old(self).message,
            final(self).code == old(self).code,
            final(self).notes@ == old(self).notes@,
            final(self).config == old(self).config,
    {
        self.labels.push(Label { style, file_id, start, end, message });
    }

    /// Appends a primary label over `[start, end)` of `file_id`.
    pub fn codespan_diagnostic_set_primary(
        &mut self,
        file_id: FileId,
        start: ByteIndex,
        end: ByteIndex,
        message: String,
    )
        ensures
            final(self).labels@ == old(self).labels@.push(
                Label { style: LabelStyle::Primary, file_id, start, end, message },
            ),
            final(self).severity == old(self).severity,
            final(self).message == old(self).message,
            final(self).code == old(self).code,
            final(self).notes@ == old(self).notes@,
            final(self).config == old(self).config,
    {
        self.push_label(LabelStyle::Primary, file_id, start, end, message);
    }

    /// Appends a secondary label over `[start, end)` of `file_id`.
    pub fn codespan_diagnostic_add_secondary(
        &mut self,
        file_id: FileId,
        start: ByteIndex,
        end: ByteIndex,
        message: String,
    )
        ensures
            final(self).labels@ == old(self).labels@.push(
                Label { style: LabelStyle::Secondary, file_id, start, end, message },
            ),
            final(self).severity == old(self).severity,
            final(self).message == old(self).message,
            final(self).code == old(self).code,
            final(self).notes@ == old(self).notes@,
            final(self).config == old(self).config,
    {
        self.push_label(LabelStyle::Secondary, file_id, start, end, message);
    }

    /// Appends a note.
    pub fn codespan_diagnostic_add_note(&mut self, message: String)
        ensures
            final(self).notes@ == old(self).notes@.push(message),
            final(self).severity == old(self).severity,
            final(self).message == old(self).message,
            final(self).code == old(self).code,
            final(self).labels@ == old(self).labels@,
            final(self).config == old(self).config,
    {
        self.notes.push(message);
    }

    /// Sets the configuration from boundary values; unknown style codes mean
    /// `Rich` and unknown glyph codes mean `Fancy`.
    pub fn codespan_diagnostic_set_config(&mut self, style: usize, chars: usize, tab_width: usize)
        ensures
            final(self).config == Config::spec_from_codes(style, chars, tab_width),
            final(self).severity == old(self).severity,
            final(self).message == old(self).message,
            final(self).code == old(self).code,
            final(self).labels@ == old(self).labels@,
            final(self).notes@ == old(self).notes@,
    {
        self.config = Config::from_codes(style, chars, tab_width);
    }
}

} // verus!
