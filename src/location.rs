use vstd::prelude::*;

verus! {

/// How many line feeds a text holds.
pub open spec fn newline_count(s: Seq<u8>) -> nat
    decreases s.len(),
{
    if s.len() == 0 {
        0
    } else {
        newline_count(s.drop_last()) + if s.last() == 10u8 { 1nat } else { 0nat }
    }
}

/// Where the last line of a text begins: just past its last line feed, or 0.
pub open spec fn last_line_start(s: Seq<u8>) -> nat
    decreases s.len(),
{
    if s.len() == 0 {
        0
    } else if s.last() == 10u8 {
        s.len()
    } else {
        last_line_start(s.drop_last())
    }
}

/// A source position with 1-based line and column numbers.
#[derive(Clone, Copy, Debug, PartialEq, Eq, Structural)]
pub struct SourceLocation {
    pub line: usize,
    pub column: usize,
}

/// The 1-based line of the byte at `offset` of `source`.
pub open spec fn line_at(source: Seq<u8>, offset: int) -> int {
    newline_count(source.subrange(0, offset)) as int + 1
}

/// The 1-based column, counted in bytes, of the byte at `offset`.
pub open spec fn column_at(source: Seq<u8>, offset: int) -> int {
    offset - last_line_start(source.subrange(0, offset)) + 1
}

pub proof fn lemma_line_start_bound(s: Seq<u8>)
    ensures
        last_line_start(s) <= s.len(),
        newline_count(s) <= s.len(),
    decreases s.len(),
{
    if s.len() > 0 {
        lemma_line_start_bound(s.drop_last());
    }
}

/// Resolves a byte offset of a source text, at most its length, to its line
/// and column.
pub fn locate(source: &[u8], offset: usize) -> (r: SourceLocation)
    requires
        offset <= source@.len() < usize::MAX,
    ensures
        r.line == line_at(source@, offset as int),
        r.column == column_at(source@, offset as int),
{
    let mut i: usize = 0;
    let mut breaks: usize = 0;
    let mut start: usize = 0;
    while i < offset
        invariant
            i <= offset <= source@.len() < usize::MAX,
            breaks == newline_count(source@.subrange(0, i as int)),
            start == last_line_start(source@.subrange(0, i as int)),
        decreases offset - i,
    {
        assert(source@.subrange(0, i + 1).drop_last() =~= source@.subrange(0, i as int));
        proof { lemma_line_start_bound(source@.subrange(0, i as int)); }
        if source[i] == 10u8 {
            breaks = breaks + 1;
            start = i + 1;
        }
        i = i + 1;
    }
    proof { lemma_line_start_bound(source@.subrange(0, offset as int)); }
    SourceLocation { line: breaks + 1, column: offset - start + 1 }
}

} // verus!
