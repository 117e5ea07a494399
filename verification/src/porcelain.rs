//! The fallback for sparse checkouts: classifying the working tree from the
//! script-friendly status listing of the command-line tool.
//!
//! Each line of the listing is a status code of up to two characters, a
//! space and a path. Only the code of the first line is looked at.

use crate::codes::{CLEAN, FAILED, MODIFIED, UNCLASSIFIED, UNTRACKED};
use vstd::prelude::*;

verus! {

/// What became of the run of the status command.
#[derive(Debug)]
pub enum PorcelainOutcome {
    /// The command could not be executed.
    Unavailable,
    /// The command ran and reported failure.
    Failed,
    /// The command succeeded and wrote these bytes to its standard output.
    Output(Vec<u8>),
}

/// Whether `byte` is ASCII white space.
pub open spec fn is_space(byte: u8) -> bool {
    byte == 0x20 || (0x09 <= byte && byte <= 0x0d)
}

/// Whether `byte` is one of the codes `M`, `A`, `T`, `D`, `R`, `C`, `U`, which
/// all stand for a modification.
pub open spec fn is_modification_code(byte: u8) -> bool {
    byte == 0x4d || byte == 0x41 || byte == 0x54 || byte == 0x44 || byte == 0x52 || byte == 0x43
        || byte == 0x55
}

/// The listing without the white space in front of it.
pub open spec fn trim_start(listing: Seq<u8>) -> Seq<u8>
    decreases listing.len(),
{
    if listing.len() > 0 && is_space(listing[0]) {
        trim_start(listing.drop_first())
    } else {
        listing
    }
}

/// The bytes of `text` up to its first line feed.
pub open spec fn first_line(text: Seq<u8>) -> Seq<u8>
    decreases text.len(),
{
    if text.len() == 0 || text[0] == 0x0a {
        Seq::empty()
    } else {
        seq![text[0]] + first_line(text.drop_first())
    }
}

/// The status code of a line: its first two bytes, or all of it when it is
/// shorter.
pub open spec fn code_prefix(line: Seq<u8>) -> Seq<u8> {
    if line.len() <= 2 {
        line
    } else {
        line.take(2)
    }
}

/// The classification of a status code. No code at all means that nothing
/// was listed; a modification code in either place outranks `??`.
pub open spec fn prefix_code(prefix: Seq<u8>) -> int {
    if prefix.len() == 0 {
        CLEAN as int
    } else if exists|i: int| 0 <= i < prefix.len() && is_modification_code(#[trigger] prefix[i]) {
        MODIFIED as int
    } else if prefix == seq![0x3fu8, 0x3fu8] {
        UNTRACKED as int
    } else {
        UNCLASSIFIED as int
    }
}

/// The classification of a whole listing: that of the status code of its
/// first line.
pub open spec fn listing_code(listing: Seq<u8>) -> int {
    prefix_code(code_prefix(first_line(trim_start(listing))))
}

/// The classification that a run of the status command leads to.
pub open spec fn outcome_code(outcome: PorcelainOutcome) -> int {
    match outcome {
        PorcelainOutcome::Unavailable => FAILED as int,
        PorcelainOutcome::Failed => FAILED as int,
        PorcelainOutcome::Output(listing) => listing_code(listing@),
    }
}

/// Skipping the white space in front of a listing one byte at a time does
/// not change what is left after trimming.
proof fn lemma_trim_start_skip(listing: Seq<u8>, i: int)
    requires
        0 <= i < listing.len(),
        is_space(listing[i]),
    ensures
        trim_start(listing.skip(i)) == trim_start(listing.skip(i + 1)),
{
    assert(listing.skip(i).drop_first() =~= listing.skip(i + 1));
}

/// The status code of a text that begins with a visible byte is that byte,
/// followed by the next one unless the line or the text ends there.
proof fn lemma_code_prefix_of_line(text: Seq<u8>)
    requires
        text.len() > 0,
        text[0] != 0x0a,
    ensures
        code_prefix(first_line(text)) == if text.len() == 1 || text[1] == 0x0a {
            seq![text[0]]
        } else {
            seq![text[0], text[1]]
        },
{
    let rest = text.drop_first();
    let line = first_line(text);
    assert(line == seq![text[0]] + first_line(rest));
    if rest.len() == 0 || rest[0] == 0x0a {
        assert(first_line(rest) =~= Seq::<u8>::empty());
        assert(line =~= seq![text[0]]);
    } else {
        let tail = first_line(rest.drop_first());
        assert(first_line(rest) == seq![rest[0]] + tail);
        assert(line =~= seq![text[0], text[1]] + tail);
        assert(code_prefix(line) =~= seq![text[0], text[1]]);
    }
}

/// The first line of a line that is followed by a line feed and more text
/// is that line.
proof fn lemma_first_line_of_lines(line: Seq<u8>, rest: Seq<u8>)
    requires
        forall|i: int| 0 <= i < line.len() ==> line[i] != 0x0a,
    ensures
        first_line(line + seq![0x0au8] + rest) == line,
        first_line(line) == line,
    decreases line.len(),
{
    let text = line + seq![0x0au8] + rest;
    if line.len() == 0 {
        assert(text[0] == 0x0a);
        assert(first_line(text) =~= line);
        assert(first_line(line) =~= line);
    } else {
        let tail = line.drop_first();
        assert forall|i: int| 0 <= i < tail.len() implies tail[i] != 0x0a by {
            assert(tail[i] == line[i + 1]);
        }
        lemma_first_line_of_lines(tail, rest);
        assert(text[0] == line[0]);
        assert(text.drop_first() =~= tail + seq![0x0au8] + rest);
        assert(seq![line[0]] + tail =~= line);
    }
}

/// Only the first line of a listing counts: what follows its line feed
/// does not change the classification.
pub proof fn lemma_only_first_line_counts(line: Seq<u8>, rest: Seq<u8>)
    requires
        line.len() > 0,
        !is_space(line[0]),
        forall|i: int| 0 <= i < line.len() ==> line[i] != 0x0a,
    ensures
        listing_code(line + seq![0x0au8] + rest) == listing_code(line),
{
    let text = line + seq![0x0au8] + rest;
    assert(text[0] == line[0]);
    assert(trim_start(text) == text);
    assert(trim_start(line) == line);
    lemma_first_line_of_lines(line, rest);
}

/// Tells whether `byte` is ASCII white space.
pub fn is_space_byte(byte: u8) -> (space: bool)
    ensures
        space == is_space(byte),
{
    byte == 0x20 || (0x09 <= byte && byte <= 0x0d)
}

/// Tells whether `byte` is a modification code.
pub fn is_modification_byte(byte: u8) -> (modification: bool)
    ensures
        modification == is_modification_code(byte),
{
    byte == 0x4d || byte == 0x41 || byte == 0x54 || byte == 0x44 || byte == 0x52 || byte == 0x43
        || byte == 0x55
}

/// Classifies the listing that the status command printed.
///
/// Only the status code of the first line decides: 5 when nothing is listed,
/// 6 when the code holds a modification code, 7 when it is `??`, 0 for any
/// other code.
pub fn classify_porcelain(listing: &[u8]) -> (code: i32)
    ensures
        code == listing_code(listing@),
{
    let len = listing.len();
    let mut start: usize = 0;
    assert(listing@.skip(0) =~= listing@);
    while start < len && is_space_byte(listing[start])
        invariant
            start <= len,
            len == listing@.len(),
            trim_start(listing@) == trim_start(listing@.skip(start as int)),
        decreases len - start,
    {
        proof {
            lemma_trim_start_skip(listing@, start as int);
        }
        start = start + 1;
    }
    let ghost text = listing@.skip(start as int);
    assert(trim_start(text) == text);
    if start == len {
        assert(first_line(text) =~= Seq::<u8>::empty());
        return CLEAN;
    }
    let first = listing[start];
    assert(text[0] == first);
    proof {
        lemma_code_prefix_of_line(text);
    }
    let ghost prefix = code_prefix(first_line(text));
    if start + 1 == len || listing[start + 1] == 0x0a {
        assert(prefix == seq![first]);
        if is_modification_byte(first) {
            assert(is_modification_code(prefix[0]));
            MODIFIED
        } else {
            assert(prefix != seq![0x3fu8, 0x3fu8]) by {
                assert(prefix.len() == 1);
                assert(seq![0x3fu8, 0x3fu8].len() == 2);
            }
            UNCLASSIFIED
        }
    } else {
        let second = listing[start + 1];
        assert(text[1] == second);
        assert(prefix == seq![first, second]);
        if is_modification_byte(first) {
            assert(is_modification_code(prefix[0]));
            MODIFIED
        } else if is_modification_byte(second) {
            assert(is_modification_code(prefix[1]));
            MODIFIED
        } else if first == 0x3f && second == 0x3f {
            assert(prefix =~= seq![0x3fu8, 0x3fu8]);
            UNTRACKED
        } else {
            assert(prefix != seq![0x3fu8, 0x3fu8]) by {
                if prefix == seq![0x3fu8, 0x3fu8] {
                    assert(prefix[0] == 0x3f);
                    assert(prefix[1] == 0x3f);
                }
            }
            UNCLASSIFIED
        }
    }
}

/// Classifies the working tree of a sparse checkout from what became of the
/// status command: 8 when it could not be run or reported failure, else the
/// classification of its listing.
pub fn get_status_sparse(outcome: &PorcelainOutcome) -> (code: i32)
    ensures
        code == outcome_code(*outcome),
{
    match outcome {
        PorcelainOutcome::Unavailable => FAILED,
        PorcelainOutcome::Failed => FAILED,
        PorcelainOutcome::Output(listing) => classify_porcelain(listing.as_slice()),
    }
}

} // verus!
