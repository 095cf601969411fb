//! An in-memory file table that implements the host operations, with the
//! line table that codespan computes for each file.
use vstd::prelude::*;
use vstd::utf8::encode_utf8;

use crate::source_map::{LineIndex, SourceHost};
use crate::{ByteIndex, FileId};

verus! {

/// Offsets at which the lines of `bytes[..n]` start: 0, then one past each
/// `\n`, in increasing order.
pub open spec fn starts_upto(bytes: Seq<u8>, n: nat) -> Seq<int>
    decreases n,
{
    if n == 0 {
        seq![0int]
    } else {
        let prev = starts_upto(bytes, (n - 1) as nat);
        if bytes[n - 1] == 10u8 {
            prev.push(n as int)
        } else {
            prev
        }
    }
}

/// Offsets at which the lines of `bytes` start.
pub open spec fn line_starts_of(bytes: Seq<u8>) -> Seq<int> {
    starts_upto(bytes, bytes.len())
}

/// How many entries of `s` are at most `b`.
pub open spec fn le_count(s: Seq<usize>, b: int) -> nat
    decreases s.len(),
{
    if s.len() == 0 {
        0
    } else {
        le_count(s.drop_last(), b) + if s.last() <= b {
            1nat
        } else {
            0nat
        }
    }
}

/// `s` is strictly increasing.
pub open spec fn increasing(s: Seq<usize>) -> bool {
    forall|i: int, j: int| 0 <= i < j < s.len() ==> s[i] < s[j]
}

/// Relies on codespan_reporting::files::line_starts: offset 0, then the
/// offset one past each `\n` of `source`, in increasing order.
#[verifier::external_body]
fn line_starts(source: &str) -> (r: Vec<usize>)
    ensures
        r@.len() == line_starts_of(encode_utf8(source@)).len(),
        forall|i: int| 0 <= i < r@.len() ==> r@[i] as int == line_starts_of(encode_utf8(source@))[i],
{
    codespan_reporting::files::line_starts(source).collect()
}

/// One file: its name, its text, and the offsets at which its lines start.
pub struct SourceFile {
    name: String,
    source: String,
    line_starts: Vec<usize>,
}

impl SourceFile {
    /// The text's bytes.
    pub closed spec fn bytes(&self) -> Seq<u8> {
        encode_utf8(self.source@)
    }

    /// The line table is that of the text.
    pub closed spec fn wf(&self) -> bool {
        &&& self.bytes().len() <= usize::MAX
        &&& self.line_starts@.len() <= usize::MAX
        &&& self.line_starts@.len() == line_starts_of(self.bytes()).len()
        &&& forall|i: int|
            0 <= i < self.line_starts@.len() ==> self.line_starts@[i] as int == line_starts_of(
                self.bytes(),
            )[i]
    }

    /// The line that holds `b`: the last line starting at or before it.
    pub closed spec fn spec_line_index(&self, b: int) -> LineIndex {
        let c = le_count(self.line_starts@, b);
        if c == 0 {
            0
        } else {
            (c - 1) as usize
        }
    }

    /// The byte range of line `i`; past the last line, the empty range at
    /// the text's end.
    pub closed spec fn spec_line_range(&self, i: int) -> (usize, usize) {
        let n = self.line_starts@.len();
        let len = self.bytes().len() as usize;
        if i + 1 < n {
            (self.line_starts@[i], self.line_starts@[i + 1])
        } else if i + 1 == n {
            (self.line_starts@[i], len)
        } else {
            (len, len)
        }
    }

    fn line_index(&self, b: ByteIndex) -> (r: LineIndex)
        ensures
            r == self.spec_line_index(b as int),
    {
        let n = self.line_starts.len();
        let mut count: usize = 0;
        let mut i: usize = 0;
        while i < n
            invariant
                n == self.line_starts@.len(),
                i <= n,
                count <= i,
                count == le_count(self.line_starts@.subrange(0, i as int), b as int),
            decreases n - i,
        {
            assert(self.line_starts@.subrange(0, i as int + 1).drop_last() =~= self.line_starts@.subrange(0, i as int));
            if self.line_starts[i] <= b {
                count = count + 1;
            }
            i = i + 1;
        }
        assert(self.line_starts@.subrange(0, n as int) =~= self.line_starts@);
        if count == 0 {
            0
        } else {
            count - 1
        }
    }

    fn line_range(&self, i: LineIndex) -> (r: (usize, usize))
        ensures
            r == self.spec_line_range(i as int),
    {
        let n = self.line_starts.len();
        let len = self.source.as_str().len();
        if i < n && i + 1 < n {
            (self.line_starts[i], self.line_starts[i + 1])
        } else if i < n {
            (self.line_starts[i], len)
        } else {
            (len, len)
        }
    }
}

/// A table of files, each identified by its position in the order added.
pub struct SourceFiles {
    files: Vec<SourceFile>,
}

impl SourceFiles {
    /// The number of files.
    pub closed spec fn spec_len(&self) -> nat {
        self.files@.len()
    }

    /// The text of file `id` as bytes.
    pub closed spec fn file_bytes(&self, id: int) -> Seq<u8> {
        self.files@[id].bytes()
    }

    /// Every file's line table is that of its text.
    pub closed spec fn wf(&self) -> bool {
        forall|i: int| 0 <= i < self.files@.len() ==> #[trigger] self.files@[i].wf()
    }

    /// The name of file `file`.
    pub fn name(&self, file: FileId) -> (r: Option<&str>)
        ensures
            r is Some <==> self.spec_file_name(file) is Some,
            r is Some ==> r.unwrap()@ == self.spec_file_name(file).unwrap(),
    {
        if file < self.files.len() {
            Some(self.files[file].name.as_str())
        } else {
            None
        }
    }

    /// The text of file `file`.
    pub fn source(&self, file: FileId) -> (r: Option<&str>)
        ensures
            r is Some <==> self.spec_source_code(file) is Some,
            r is Some ==> r.unwrap()@ == self.spec_source_code(file).unwrap(),
    {
        if file < self.files.len() {
            Some(self.files[file].source.as_str())
        } else {
            None
        }
    }

    /// The line of `file` that holds `byte_index`: the last line that starts
    /// at or before it.
    pub fn line_of(&self, file: FileId, byte_index: ByteIndex) -> (r: LineIndex)
        ensures
            r == self.spec_line_index(file, byte_index),
    {
        if file < self.files.len() {
            self.files[file].line_index(byte_index)
        } else {
            0
        }
    }

    /// The byte range of line `line` of `file`, terminator included.
    pub fn range_of_line(&self, file: FileId, line: LineIndex) -> (r: (usize, usize))
        ensures
            r == self.spec_line_range(file, line),
    {
        if file < self.files.len() {
            self.files[file].line_range(line)
        } else {
            (0, 0)
        }
    }

    /// An empty table.
    pub fn new() -> (r: SourceFiles)
        ensures
            r.wf(),
            r.spec_len() == 0,
    {
        SourceFiles { files: Vec::new() }
    }

    /// Adds a file and returns its id, the number of files before it.
    pub fn add(&mut self, name: String, source: String) -> (id: FileId)
        requires
            old(self).wf(),
        ensures
            final(self).wf(),
            id == old(self).spec_len(),
            final(self).spec_len() == old(self).spec_len() + 1,
            final(self).spec_file_name(id) == Some(name@),
            final(self).spec_source_code(id) == Some(source@),
            forall|f: FileId| f < id ==> final(self).spec_file_name(f) == old(self).spec_file_name(f),
            forall|f: FileId| f < id ==> final(self).spec_source_code(f) == old(self).spec_source_code(f),
    {
        let id = self.files.len();
        let starts = line_starts(source.as_str());
        // Asking for the two lengths shows that they fit in a usize.
        source.as_str().as_bytes().len();
        starts.len();
        self.files.push(SourceFile { name, source, line_starts: starts });
        assert(self.files@[id as int].wf());
        id
    }
}

proof fn lemma_starts_upto(bytes: Seq<u8>, n: nat)
    requires
        n <= bytes.len(),
    ensures
        starts_upto(bytes, n).len() >= 1,
        starts_upto(bytes, n)[0] == 0,
        forall|i: int| 0 <= i < starts_upto(bytes, n).len() ==> 0 <= #[trigger] starts_upto(bytes, n)[i] <= n,
        forall|i: int, j: int|
            0 <= i < j < starts_upto(bytes, n).len() ==> starts_upto(bytes, n)[i] < starts_upto(bytes, n)[j],
    decreases n,
{
    if n > 0 {
        lemma_starts_upto(bytes, (n - 1) as nat);
    }
}

proof fn lemma_le_count_split(s: Seq<usize>, b: int)
    requires
        increasing(s),
    ensures
        le_count(s, b) <= s.len(),
        forall|i: int| 0 <= i < le_count(s, b) ==> s[i] <= b,
        forall|i: int| le_count(s, b) <= i < s.len() ==> s[i] > b,
    decreases s.len(),
{
    if s.len() > 0 {
        let t = s.drop_last();
        lemma_le_count_split(t, b);
        assert forall|i: int| 0 <= i < t.len() implies t[i] == s[i] by {}
    }
}

impl SourceFile {
    proof fn lemma_table(&self)
        requires
            self.wf(),
        ensures
            self.line_starts@.len() >= 1,
            self.line_starts@[0] == 0,
            increasing(self.line_starts@),
            forall|i: int| 0 <= i < self.line_starts@.len() ==> #[trigger] self.line_starts@[i] <= self.bytes().len(),
            le_count(self.line_starts@, self.bytes().len() as int) == self.line_starts@.len(),
    {
        let s = self.line_starts@;
        let t = line_starts_of(self.bytes());
        lemma_starts_upto(self.bytes(), self.bytes().len());
        assert forall|i: int| 0 <= i < s.len() implies #[trigger] s[i] <= self.bytes().len() by {
            assert(s[i] as int == t[i]);
        }
        assert forall|i: int, j: int| 0 <= i < j < s.len() implies s[i] < s[j] by {
            assert(s[i] as int == t[i]);
            assert(s[j] as int == t[j]);
        }
        assert(s[0] as int == t[0]);
        lemma_le_count_split(s, self.bytes().len() as int);
    }
}

/// A file's lines are those of its text: line `i` spans from the `i`-th line
/// start to the next one (the last line to the text's end), and an offset
/// lies on the last line that starts at or before it.
pub proof fn lemma_line_table(files: &SourceFiles, file: FileId)
    requires
        files.wf(),
        files.spec_source_code(file) is Some,
    ensures
        ({
            let bytes = encode_utf8(files.spec_source_code(file).unwrap());
            let t = line_starts_of(bytes);
            &&& forall|i: LineIndex| i + 1 < t.len() ==> #[trigger] files.spec_line_range(file, i) == (t[i as int] as usize, t[i + 1] as usize)
            &&& files.spec_line_range(file, (t.len() - 1) as usize) == (t[t.len() - 1] as usize, bytes.len() as usize)
            &&& forall|b: ByteIndex, i: LineIndex|
                #![trigger files.spec_line_index(file, b), t[i as int]]
                i < t.len() && t[i as int] <= b && (i + 1 == t.len() || b < t[i + 1]) ==> files.spec_line_index(file, b) == i
        }),
{
    let f = files.files@[file as int];
    assert(f.wf());
    f.lemma_table();
    let s = f.line_starts@;
    let t = line_starts_of(f.bytes());
    assert(f.bytes() == encode_utf8(files.spec_source_code(file).unwrap()));
    assert forall|i: LineIndex| i + 1 < t.len() implies #[trigger] files.spec_line_range(file, i) == (t[i as int] as usize, t[i + 1] as usize) by {
        assert(s[i as int] as int == t[i as int]);
        assert(s[i + 1] as int == t[i + 1]);
    }
    assert(s[s.len() - 1] as int == t[t.len() - 1]);
    assert forall|b: ByteIndex, i: LineIndex|
        #![trigger files.spec_line_index(file, b), t[i as int]]
        i < t.len() && t[i as int] <= b && (i + 1 == t.len() || b < t[i + 1]) implies files.spec_line_index(file, b) == i by {
        lemma_le_count_split(s, b as int);
        assert(s[i as int] as int == t[i as int]);
        if i + 1 < t.len() {
            assert(s[i + 1] as int == t[i + 1]);
        }
    }
}

/// Every offset up to the end of a file's text lies in the byte range of the
/// line that `line_index` gives for it, and strictly before that range's end
/// when it is before the end of the text.
pub proof fn lemma_line_range_contains(files: &SourceFiles, file: FileId, b: ByteIndex)
    requires
        files.wf(),
        files.spec_source_code(file) is Some,
        b <= encode_utf8(files.spec_source_code(file).unwrap()).len(),
    ensures
        ({
            let r = files.spec_line_range(file, files.spec_line_index(file, b));
            &&& r.0 <= b <= r.1
            &&& b < encode_utf8(files.spec_source_code(file).unwrap()).len() ==> b < r.1
        }),
{
    let f = files.files@[file as int];
    assert(f.wf());
    f.lemma_table();
    let s = f.line_starts@;
    lemma_le_count_split(s, b as int);
    let k = le_count(s, b as int);
    assert(k >= 1);
    assert(f.bytes() == encode_utf8(files.spec_source_code(file).unwrap()));
    assert(files.spec_line_index(file, b) == (k - 1) as usize);
    let r = files.spec_line_range(file, files.spec_line_index(file, b));
    assert(r == f.spec_line_range(k - 1));
    if k < s.len() {
        assert(s[k as int] > b);
    }
}

proof fn lemma_le_count_monotonic(s: Seq<usize>, a: int, b: int)
    requires
        a <= b,
    ensures
        le_count(s, a) <= le_count(s, b),
        le_count(s, b) <= s.len(),
    decreases s.len(),
{
    if s.len() > 0 {
        lemma_le_count_monotonic(s.drop_last(), a, b);
    }
}

/// For a fixed file, `line_index` never decreases as the offset grows.
pub proof fn lemma_line_index_monotonic(files: &SourceFiles, file: FileId, a: ByteIndex, b: ByteIndex)
    requires
        files.wf(),
        a <= b,
    ensures
        files.spec_line_index(file, a) <= files.spec_line_index(file, b),
{
    if file < files.files@.len() {
        assert(files.files@[file as int].wf());
        lemma_le_count_monotonic(files.files@[file as int].line_starts@, a as int, b as int);
    }
}

/// The byte ranges of a file's lines tile its text: line 0 starts at offset
/// 0, no range runs backwards, each line ends where the next one starts, and
/// the last line (the one that holds the text's end) ends at the text's end.
pub proof fn lemma_line_ranges_tile(files: &SourceFiles, file: FileId)
    requires
        files.wf(),
        files.spec_source_code(file) is Some,
    ensures
        ({
            let len = encode_utf8(files.spec_source_code(file).unwrap()).len();
            let last = files.spec_line_index(file, len as usize);
            &&& files.spec_line_range(file, 0).0 == 0
            &&& files.spec_line_range(file, last).1 == len
            &&& forall|i: LineIndex| i <= last ==> #[trigger] files.spec_line_range(file, i).0 <= files.spec_line_range(file, i).1
            &&& forall|i: LineIndex| i < last ==> #[trigger] files.spec_line_range(file, i).1 == files.spec_line_range(file, (i + 1) as usize).0
        }),
{
    let f = files.files@[file as int];
    assert(f.wf());
    f.lemma_table();
    let s = f.line_starts@;
    let len = f.bytes().len();
    assert(f.bytes() == encode_utf8(files.spec_source_code(file).unwrap()));
    assert(files.spec_line_index(file, len as usize) == (s.len() - 1) as usize);
    assert(files.spec_line_range(file, 0) == f.spec_line_range(0));
    assert(files.spec_line_range(file, (s.len() - 1) as usize) == f.spec_line_range(s.len() - 1));
    assert forall|i: LineIndex| i < (s.len() - 1) implies #[trigger] files.spec_line_range(file, i).1 == files.spec_line_range(file, (i + 1) as usize).0 by {
        assert(files.spec_line_range(file, i) == f.spec_line_range(i as int));
        assert(files.spec_line_range(file, (i + 1) as usize) == f.spec_line_range(i + 1));
    }
    assert forall|i: LineIndex| i <= (s.len() - 1) implies #[trigger] files.spec_line_range(file, i).0 <= files.spec_line_range(file, i).1 by {
        if i + 1 < s.len() {
            assert(s[i as int] < s[i + 1]);
        }
    }
}

impl SourceHost for SourceFiles {
    closed spec fn spec_file_name(&self, file: FileId) -> Option<Seq<char>> {
        if file < self.files@.len() {
            Some(self.files@[file as int].name@)
        } else {
            None
        }
    }

    closed spec fn spec_source_code(&self, file: FileId) -> Option<Seq<char>> {
        if file < self.files@.len() {
            Some(self.files@[file as int].source@)
        } else {
            None
        }
    }

    /// The line of `file` that holds `byte_index`; 0 for an unknown file.
    closed spec fn spec_line_index(&self, file: FileId, byte_index: ByteIndex) -> LineIndex {
        if file < self.files@.len() {
            self.files@[file as int].spec_line_index(byte_index as int)
        } else {
            0
        }
    }

    /// The byte range of a line of `file`; empty for an unknown file.
    closed spec fn spec_line_range(&self, file: FileId, line: LineIndex) -> (usize, usize) {
        if file < self.files@.len() {
            self.files@[file as int].spec_line_range(line as int)
        } else {
            (0, 0)
        }
    }

    /// The table keeps no line numbering of its own.
    open spec fn spec_line_number(&self, file: FileId, line: LineIndex) -> Option<usize> {
        None
    }

    /// The table keeps no columns of its own.
    open spec fn spec_column_number(&self, file: FileId, line: LineIndex, byte_index: ByteIndex) -> Option<usize> {
        None
    }

    fn file_name(&self, file: FileId) -> (r: Option<&str>) {
        self.name(file)
    }

    fn source_code(&self, file: FileId) -> (r: Option<&str>) {
        self.source(file)
    }

    fn line_index(&self, file: FileId, byte_index: ByteIndex) -> (r: LineIndex) {
        self.line_of(file, byte_index)
    }

    fn line_range(&self, file: FileId, line: LineIndex) -> (r: (usize, usize)) {
        self.range_of_line(file, line)
    }

    fn line_number(&self, file: FileId, line: LineIndex) -> (r: Option<usize>) {
        None
    }

    fn column_number(&self, file: FileId, line: LineIndex, byte_index: ByteIndex) -> (r: Option<usize>) {
        None
    }
}

} // verus!
