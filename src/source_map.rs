//! The pluggable source map: host-supplied file access behind one adapter,
//! with default line and column numbering where the host keeps none.
use vstd::prelude::*;
use vstd::utf8::{encode_utf8, is_char_boundary};

use crate::{ByteIndex, FileId};

verus! {

/// A zero-based line of a file.
pub type LineIndex = usize;

/// The file-access operations a host supplies.
///
/// The spec functions describe the host's file table, and each operation
/// answers from it: the same question gets the same answer while the table
/// stands. `line_number` and `column_number` return `None` where the host
/// keeps no numbering of its own; the adapter then computes it.
pub trait SourceHost {
    spec fn spec_file_name(&self, file: FileId) -> Option<Seq<char>>;

    spec fn spec_source_code(&self, file: FileId) -> Option<Seq<char>>;

    spec fn spec_line_index(&self, file: FileId, byte_index: ByteIndex) -> LineIndex;

    spec fn spec_line_range(&self, file: FileId, line: LineIndex) -> (usize, usize);

    spec fn spec_line_number(&self, file: FileId, line: LineIndex) -> Option<usize>;

    spec fn spec_column_number(&self, file: FileId, line: LineIndex, byte_index: ByteIndex) -> Option<usize>;

    /// The file's name, or `None` for a file the host does not know.
    fn file_name(&self, file: FileId) -> (r: Option<&str>)
        ensures
            r is Some <==> self.spec_file_name(file) is Some,
            r is Some ==> r.unwrap()@ == self.spec_file_name(file).unwrap(),
    ;

    /// The file's full text, or `None` for a file the host does not know.
    fn source_code(&self, file: FileId) -> (r: Option<&str>)
        ensures
            r is Some <==> self.spec_source_code(file) is Some,
            r is Some ==> r.unwrap()@ == self.spec_source_code(file).unwrap(),
    ;

    /// The line that holds `byte_index`.
    fn line_index(&self, file: FileId, byte_index: ByteIndex) -> (r: LineIndex)
        ensures
            r == self.spec_line_index(file, byte_index),
    ;

    /// The byte range `[start, end)` of a line, terminator included.
    fn line_range(&self, file: FileId, line: LineIndex) -> (r: (usize, usize))
        ensures
            r == self.spec_line_range(file, line),
    ;

    /// The host's own number for a line, if it keeps one.
    fn line_number(&self, file: FileId, line: LineIndex) -> (r: Option<usize>)
        ensures
            r == self.spec_line_number(file, line),
    ;

    /// The host's own column for a byte offset, if it keeps one.
    fn column_number(&self, file: FileId, line: LineIndex, byte_index: ByteIndex) -> (r: Option<usize>)
        ensures
            r == self.spec_column_number(file, line, byte_index),
    ;
}

/// Number of positions `p` in `[lo, hi)` such that `p + 1` starts a character
/// (or ends the text) in `bytes`.
pub open spec fn boundary_count(bytes: Seq<u8>, lo: int, hi: int) -> nat
    decreases hi - lo,
{
    if hi <= lo {
        0
    } else {
        boundary_count(bytes, lo, hi - 1) + if is_char_boundary(bytes, hi) {
            1nat
        } else {
            0nat
        }
    }
}

/// Zero-based column of `byte_index` in the line `[line_start, line_end)` of
/// `bytes`: the characters that end between the line's start and the offset,
/// the offset being clamped to the line's end and the text's end.
pub open spec fn column_index_of(bytes: Seq<u8>, line_start: int, line_end: int, byte_index: int) -> nat {
    let stop = if byte_index <= line_end && byte_index <= bytes.len() {
        byte_index
    } else if line_end <= bytes.len() {
        line_end
    } else {
        bytes.len() as int
    };
    boundary_count(bytes, line_start, stop)
}

/// One-based number of a line, as the host gives it or else `line + 1`
/// (`None` only where that does not fit in a `usize`).
pub open spec fn line_number_of(supplied: Option<usize>, line: LineIndex) -> Option<usize> {
    match supplied {
        Some(n) => Some(n),
        None => if line < usize::MAX {
            Some((line + 1) as usize)
        } else {
            None
        },
    }
}

/// One-based column of `byte_index` in the line `range` of `source`.
pub open spec fn default_column_of(source: Seq<char>, range: (usize, usize), byte_index: ByteIndex) -> Option<usize> {
    let c = column_index_of(encode_utf8(source), range.0 as int, range.1 as int, byte_index as int);
    if c < usize::MAX {
        Some((c + 1) as usize)
    } else {
        None
    }
}

/// Relies on codespan_reporting::files::column_index, which counts the
/// positions `p` from the line's start up to `min(byte_index, line end, text
/// length)` for which `p + 1` is a character boundary of `source`.
#[verifier::external_body]
fn column_index(source: &str, line_start: usize, line_end: usize, byte_index: usize) -> (r: usize)
    ensures
        r as int == column_index_of(encode_utf8(source@), line_start as int, line_end as int, byte_index as int),
{
    codespan_reporting::files::column_index(source, line_start..line_end, byte_index)
}

/// The line number shown to readers: the host's, or else `line + 1`.
pub fn resolve_line_number(line: LineIndex, supplied: Option<usize>) -> (r: Option<usize>)
    ensures
        r == line_number_of(supplied, line),
{
    match supplied {
        Some(n) => Some(n),
        None => line.checked_add(1),
    }
}

/// The default one-based column of `byte_index` in the line `range` of `source`.
pub fn default_column_number(source: &str, range: (usize, usize), byte_index: ByteIndex) -> (r: Option<usize>)
    ensures
        r == default_column_of(source@, range, byte_index),
{
    let c = column_index(source, range.0, range.1, byte_index);
    c.checked_add(1)
}

/// The column shown for `byte_index`: the host's own where it keeps one,
/// else the default column in the line `range` of the file's text, and
/// `None` where there is neither a column nor a text.
pub fn resolve_column_number(
    supplied: Option<usize>,
    source: Option<&str>,
    range: (usize, usize),
    byte_index: ByteIndex,
) -> (r: Option<usize>)
    ensures
        r == match supplied {
            Some(c) => Some(c),
            None => match source {
                Some(text) => default_column_of(text@, range, byte_index),
                None => None,
            },
        },
{
    match supplied {
        Some(c) => Some(c),
        None => match source {
            Some(text) => default_column_number(text, range, byte_index),
            None => None,
        },
    }
}

/// Adapts a host's file operations to what the renderer asks of a source map.
pub struct CodespanSourceMap<H: SourceHost> {
    pub host: H,
}

impl<H: SourceHost> CodespanSourceMap<H> {
    /// A source map over `host`'s files; it borrows nothing and copies no text.
    pub fn codespan_new_source_map(host: H) -> (r: Self)
        ensures
            r.host == host,
    {
        CodespanSourceMap { host }
    }

    /// Releases the source map.
    pub fn codespan_delete_source_map(self) {
    }

    /// The file's name, as the host gives it.
    pub fn name(&self, file: FileId) -> (r: Option<&str>)
        ensures
            r is Some <==> self.host.spec_file_name(file) is Some,
            r is Some ==> r.unwrap()@ == self.host.spec_file_name(file).unwrap(),
    {
        self.host.file_name(file)
    }

    /// The file's full text, as the host gives it.
    pub fn source(&self, file: FileId) -> (r: Option<&str>)
        ensures
            r is Some <==> self.host.spec_source_code(file) is Some,
            r is Some ==> r.unwrap()@ == self.host.spec_source_code(file).unwrap(),
    {
        self.host.source_code(file)
    }

    /// The line that holds `byte_index`, as the host gives it.
    pub fn line_index(&self, file: FileId, byte_index: ByteIndex) -> (r: LineIndex)
        ensures
            r == self.host.spec_line_index(file, byte_index),
    {
        self.host.line_index(file, byte_index)
    }

    /// The byte range of a line, as the host gives it.
    pub fn line_range(&self, file: FileId, line: LineIndex) -> (r: (usize, usize))
        ensures
            r == self.host.spec_line_range(file, line),
    {
        self.host.line_range(file, line)
    }

    /// The number shown for a line: the host's own, or else `line + 1`.
    pub fn line_number(&self, file: FileId, line: LineIndex) -> (r: Option<usize>)
        ensures
            r == line_number_of(self.host.spec_line_number(file, line), line),
    {
        let supplied = self.host.line_number(file, line);
        resolve_line_number(line, supplied)
    }

    /// The column shown for a byte offset: the host's own, returned as it
    /// is, or else one more than the characters of the line before the
    /// offset. The text and the line's range are asked for only in the
    /// second case.
    pub fn column_number(&self, file: FileId, line: LineIndex, byte_index: ByteIndex) -> (r: Option<usize>)
        ensures
            r == match self.host.spec_column_number(file, line, byte_index) {
                Some(c) => Some(c),
                None => match self.host.spec_source_code(file) {
                    Some(text) => default_column_of(text, self.host.spec_line_range(file, line), byte_index),
                    None => None,
                },
            },
    {
        let supplied = self.host.column_number(file, line, byte_index);
        let (text, range) = match supplied {
            Some(_) => (None, (0, 0)),
            None => (self.host.source_code(file), self.host.line_range(file, line)),
        };
        resolve_column_number(supplied, text, range, byte_index)
    }
}

/// Where the host keeps no numbering, line `i` is shown as `i + 1`.
pub proof fn lemma_default_line_number(line: LineIndex)
    requires
        line < usize::MAX,
    ensures
        line_number_of(None, line) == Some((line + 1) as usize),
{
}

/// Where the host keeps no columns, the offset at which a line starts is
/// shown as column 1.
pub proof fn lemma_default_column_at_line_start(source: Seq<char>, range: (usize, usize))
    ensures
        default_column_of(source, range, range.0) == Some(1usize),
{
}

} // verus!
