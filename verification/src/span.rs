//! Byte-offset spans into a document's raw source text, and the conversion
//! from line/column positions (as many parsers report them) to byte offsets.

use vstd::prelude::*;
use vstd::string::StringSliceAdditionalSpecFns;

verus! {

/// A `[start, end)` byte-offset range into a document's source text.
#[derive(Clone, Copy, Debug, PartialEq, Eq, Structural)]
pub struct Span {
    pub start: usize,
    pub end: usize,
}

impl Span {
    /// A span is well formed when its start does not lie past its end.
    pub open spec fn wf(self) -> bool {
        self.start <= self.end
    }

    /// Whether `inner` lies fully inside `self`.
    pub open spec fn holds_within(self, inner: Span) -> bool {
        self.start <= inner.start && inner.end <= self.end
    }

    /// The span of a whole document of `len` bytes.
    pub fn of_document(len: usize) -> (r: Span)
        ensures
            r == (Span { start: 0, end: len }),
    {
        Span { start: 0, end: len }
    }

    /// What `clamped_into` returns: `self` moved, as little as possible, so
    /// that it lies inside `outer`.
    pub open spec fn spec_clamped_into(self, outer: Span) -> Span {
        let s = if self.start < outer.start {
            outer.start
        } else if self.start > outer.end {
            outer.end
        } else {
            self.start
        };
        let e = if self.end < s {
            s
        } else if self.end > outer.end {
            outer.end
        } else {
            self.end
        };
        Span { start: s, end: e }
    }

    /// Clamp `self` into `outer`: the result always lies inside `outer`, and a
    /// well-formed span already inside `outer` comes back unchanged.
    pub fn clamped_into(self, outer: Span) -> (r: Span)
        requires
            outer.wf(),
        ensures
            r == self.spec_clamped_into(outer),
            r.wf(),
            outer.holds_within(r),
            self.wf() && outer.holds_within(self) ==> r == self,
    {
        let s: usize = if self.start < outer.start {
            outer.start
        } else if self.start > outer.end {
            outer.end
        } else {
            self.start
        };
        let e: usize = if self.end < s {
            s
        } else if self.end > outer.end {
            outer.end
        } else {
            self.end
        };
        Span { start: s, end: e }
    }
}

/// The byte offset at which line `line` (1-based) starts: the position just
/// after the `line - 1`-th newline byte, or the end of the text when it has
/// fewer lines. Measured over `i` leading bytes already examined, starting
/// from offset `acc` on line `cur`.
pub open spec fn spec_line_start(bytes: Seq<u8>, line: int, i: int) -> int
    recommends
        1 <= line,
        0 <= i <= bytes.len(),
    decreases bytes.len() - i,
{
    if i >= bytes.len() || line <= 1 {
        i
    } else if bytes[i] == 10u8 {
        spec_line_start(bytes, line - 1, i + 1)
    } else {
        spec_line_start(bytes, line, i + 1)
    }
}

/// What `offset_of_line_col` returns: the byte offset of 1-based position
/// (`line`, `col`), clamped into the text.
pub open spec fn spec_offset_of_line_col(bytes: Seq<u8>, line: int, col: int) -> int {
    let start = spec_line_start(bytes, if line < 1 { 1 } else { line }, 0);
    let c = if col < 1 { 1 } else { col };
    if start + (c - 1) > bytes.len() {
        bytes.len() as int
    } else {
        start + (c - 1)
    }
}

/// Convert a 1-based line/column position, as the underlying parsers report
/// one, to a byte offset into `text`. Offsets are byte offsets, not character
/// offsets: a column past the end of its line, or a line past the end of the
/// text, is clamped to the end of the text.
pub fn offset_of_line_col(text: &str, line: usize, col: usize) -> (r: usize)
    ensures
        r == spec_offset_of_line_col(text.spec_bytes(), line as int, col as int),
        r <= text.spec_bytes().len(),
{
    let bytes = text.as_bytes();
    let line1: usize = if line < 1 {
        1
    } else {
        line
    };
    let col1: usize = if col < 1 {
        1
    } else {
        col
    };
    let mut i: usize = 0;
    let mut remaining: usize = line1;
    while i < bytes.len() && remaining > 1
        invariant
            0 <= i <= bytes.len(),
            1 <= remaining <= line1,
            bytes@ == text.spec_bytes(),
            spec_line_start(text.spec_bytes(), line1 as int, 0) == spec_line_start(
                text.spec_bytes(),
                remaining as int,
                i as int,
            ),
        decreases bytes.len() - i,
    {
        if bytes[i] == 10u8 {
            remaining = remaining - 1;
        }
        i = i + 1;
    }
    assert(spec_line_start(text.spec_bytes(), remaining as int, i as int) == i);
    if col1 - 1 > bytes.len() - i {
        bytes.len()
    } else {
        i + (col1 - 1)
    }
}

} // verus!
