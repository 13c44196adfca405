//! Source files and the text that a span covers.
//!
//! Files sit one after another in the global byte-position space; each
//! starts at `start_pos`.  The file that holds a position is the last one
//! that starts at or before it.
use vstd::prelude::*;
use vstd::string::StringSliceAdditionalSpecFns;
use vstd::utf8::*;

use crate::span::{BytePos, Span};

verus! {

/// Whether `c` has the Unicode `White_Space` property, as
/// `char::is_whitespace` tests it.
pub open spec fn is_white_space(c: char) -> bool {
    let u = c as u32;
    (0x9 <= u && u <= 0xD) || u == 0x20 || u == 0x85 || u == 0xA0 || u == 0x1680
        || (0x2000 <= u && u <= 0x200A) || u == 0x2028 || u == 0x2029 || u == 0x202F
        || u == 0x205F || u == 0x3000
}

pub open spec fn trim_start(s: Seq<char>) -> Seq<char>
    decreases s.len(),
{
    if s.len() > 0 && is_white_space(s[0]) { trim_start(s.drop_first()) } else { s }
}

pub open spec fn trim_end(s: Seq<char>) -> Seq<char>
    decreases s.len(),
{
    if s.len() > 0 && is_white_space(s.last()) { trim_end(s.drop_last()) } else { s }
}

/// The text without its leading and trailing white space.
pub open spec fn trimmed(s: Seq<char>) -> Seq<char> {
    trim_end(trim_start(s))
}

/// The characters whose UTF-8 encoding is the byte range `a..b` of `s`.
pub open spec fn byte_range_text(s: Seq<char>, a: int, b: int) -> Seq<char> {
    decode_utf8(encode_utf8(s).subrange(a, b))
}

/// `str::trim`: the slice without leading and trailing characters that have
/// the `White_Space` property.
#[verifier::external_body]
pub(crate) fn trim_str(s: &str) -> (r: &str)
    ensures
        r@ == trimmed(s@),
{
    s.trim()
}

/// Indexing a `str` by the byte range `a..b`; the bounds must lie on
/// character boundaries, which is when the indexing does not panic.
#[verifier::external_body]
fn str_byte_range(s: &str, a: usize, b: usize) -> (r: &str)
    requires
        a <= b <= s.spec_bytes().len(),
        is_char_boundary(s.spec_bytes(), a as int),
        is_char_boundary(s.spec_bytes(), b as int),
    ensures
        r.spec_bytes() == s.spec_bytes().subrange(a as int, b as int),
{
    &s[a..b]
}

/// One file of source text.
pub struct SourceFile {
    /// The global position of the file's first byte.
    pub start_pos: BytePos,
    /// The text, when it was loaded.
    pub src: Option<String>,
}

/// All source files, ordered by start position.
pub struct SourceMap {
    pub files: Vec<SourceFile>,
}

/// The index of the last file in `files` that starts at or before `pos`,
/// or -1 when none does.
pub open spec fn last_starting_at_or_before(files: Seq<SourceFile>, pos: u32) -> int
    decreases files.len(),
{
    if files.len() == 0 {
        -1
    } else if files.last().start_pos.0 <= pos {
        files.len() - 1
    } else {
        last_starting_at_or_before(files.drop_last(), pos)
    }
}

proof fn lemma_last_starting_range(files: Seq<SourceFile>, pos: u32)
    requires
        files.len() > 0,
        files[0].start_pos.0 <= pos,
    ensures
        0 <= last_starting_at_or_before(files, pos) < files.len(),
        files[last_starting_at_or_before(files, pos)].start_pos.0 <= pos,
    decreases files.len(),
{
    if files.len() > 1 && files.last().start_pos.0 > pos {
        lemma_last_starting_range(files.drop_last(), pos);
    }
}

impl SourceMap {
    /// There is a file, and start positions strictly increase.
    pub open spec fn wf(&self) -> bool {
        &&& self.files@.len() > 0
        &&& forall|i: int, j: int|
            0 <= i < j < self.files@.len() ==> #[trigger] self.files@[i].start_pos.0
                < #[trigger] self.files@[j].start_pos.0
    }

    /// The index of the file holding `pos`.
    pub open spec fn file_index(&self, pos: u32) -> int {
        last_starting_at_or_before(self.files@, pos)
    }

    /// Whether `pos` lies at or after the start of the first file, so that
    /// some file holds it.
    pub open spec fn covers(&self, pos: u32) -> bool {
        self.wf() && self.files@[0].start_pos.0 <= pos
    }

    /// The file that holds `pos`.
    pub fn lookup_source_file(&self, pos: BytePos) -> (r: &SourceFile)
        requires
            self.covers(pos.0),
        ensures
            0 <= self.file_index(pos.0) < self.files@.len(),
            self.files@[self.file_index(pos.0)].start_pos.0 <= pos.0,
            *r == self.files@[self.file_index(pos.0)],
    {
        proof {
            lemma_last_starting_range(self.files@, pos.0);
            assert(self.files@.take(self.files@.len() as int) == self.files@);
        }
        let mut i = self.files.len();
        while i > 1 && self.files[i - 1].start_pos.0 > pos.0
            invariant
                1 <= i <= self.files@.len(),
                self.covers(pos.0),
                last_starting_at_or_before(self.files@.take(i as int), pos.0) == self.file_index(pos.0),
            decreases i,
        {
            proof {
                assert(self.files@.take(i as int).drop_last() == self.files@.take(i - 1));
            }
            i -= 1;
        }
        proof {
            let t = self.files@.take(i as int);
            assert(t.last() == self.files@[i - 1]);
            if i == 1 {
                assert(t.last().start_pos.0 <= pos.0);
            }
        }
        &self.files[i - 1]
    }

    /// Whether the text of `span` can be cut out of its file: the span lies
    /// in a file, and when that file's text is loaded, the span's ends lie
    /// on character boundaries inside it.
    pub open spec fn span_text_ok(&self, span: Span) -> bool {
        &&& self.covers(span.lo)
        &&& {
            let f = self.files@[self.file_index(span.lo)];
            f.src matches Some(c) ==> {
                let bytes = encode_utf8(c@);
                let a = span.lo - f.start_pos.0;
                let b = span.hi - f.start_pos.0;
                &&& span.lo <= span.hi
                &&& b <= bytes.len()
                &&& is_char_boundary(bytes, a)
                &&& is_char_boundary(bytes, b)
            }
        }
    }

    /// The trimmed text of `span`, or `None` when its file has no text.
    pub open spec fn span_text(&self, span: Span) -> Option<Seq<char>> {
        let f = self.files@[self.file_index(span.lo)];
        match f.src {
            Some(c) => Some(
                trimmed(byte_range_text(c@, span.lo - f.start_pos.0, span.hi - f.start_pos.0)),
            ),
            None => None,
        }
    }

    /// The trimmed source text of a span.
    pub fn span_source_text(&self, span: Span) -> (r: Option<String>)
        requires
            self.span_text_ok(span),
        ensures
            match r {
                Some(s) => self.span_text(span) == Some(s@),
                None => self.span_text(span) is None,
            },
    {
        let file = self.lookup_source_file(span.lo());
        match &file.src {
            Some(content) => {
                let byte_start = (span.lo - file.start_pos.0) as usize;
                let byte_end = (span.hi - file.start_pos.0) as usize;
                let s = content.as_str();
                let piece = str_byte_range(s, byte_start, byte_end);
                proof {
                    encode_utf8_decode_utf8(piece@);
                }
                let t = trim_str(piece);
                Some(String::from_str(t))
            },
            None => None,
        }
    }
}

} // verus!
