//! The staged diff as text: classified diff lines folded into one patch.

use vstd::prelude::*;
use vstd::string::StringSliceAdditionalSpecFns;
use vstd::utf8::{decode_utf8, encode_utf8_decode_utf8, valid_utf8};
use crate::text::decode;

verus! {

/// What a line of a diff is, as far as the patch text is concerned.
#[derive(Clone, Copy, Debug, PartialEq, Eq, Structural)]
pub enum LineOrigin {
    /// A line that the new side adds.
    Addition,
    /// A line that the new side removes.
    Deletion,
    /// A line that both sides share.
    Context,
    /// The header of a file's changes.
    FileHeader,
    /// The header of a hunk.
    HunkHeader,
    /// Anything else; it leaves no trace in the patch text.
    Other,
}

/// One line of a diff as the engine hands it out: its origin marker and its
/// raw content.
#[derive(Debug)]
pub struct DiffLine {
    /// The engine's one-character origin marker.
    pub origin: char,
    /// The bytes of the line, line ending included.
    pub content: Vec<u8>,
}

impl DiffLine {
    /// The line with the given origin marker and content.
    pub fn new(origin: char, content: Vec<u8>) -> (line: DiffLine)
        ensures
            line.origin == origin,
            line.content == content,
    {
        DiffLine { origin, content }
    }
}

/// The category that an origin marker stands for.
pub open spec fn spec_classify(origin: char) -> LineOrigin {
    if origin == '+' {
        LineOrigin::Addition
    } else if origin == '-' {
        LineOrigin::Deletion
    } else if origin == ' ' {
        LineOrigin::Context
    } else if origin == 'F' {
        LineOrigin::FileHeader
    } else if origin == 'H' {
        LineOrigin::HunkHeader
    } else {
        LineOrigin::Other
    }
}

/// The text that a line of the given category starts with.
pub open spec fn spec_prefix(kind: LineOrigin) -> Seq<char> {
    match kind {
        LineOrigin::Addition => seq!['+'],
        LineOrigin::Deletion => seq!['-'],
        LineOrigin::Context => seq![' '],
        LineOrigin::FileHeader => seq!['-', '-', '-', ' '],
        LineOrigin::HunkHeader => seq!['@', '@', ' '],
        LineOrigin::Other => Seq::empty(),
    }
}

/// What one line contributes to the patch text: its prefix and its content
/// as text, or nothing when its category is dropped or its content is not
/// well-formed UTF-8.
pub open spec fn spec_line_text(origin: char, content: Seq<u8>) -> Seq<char> {
    let kind = spec_classify(origin);
    if kind == LineOrigin::Other || !valid_utf8(content) {
        Seq::empty()
    } else {
        spec_prefix(kind) + decode_utf8(content)
    }
}

/// The patch text of a sequence of lines: the contributions of the lines,
/// one after the other, in the order of the sequence.
pub open spec fn spec_patch_text(lines: Seq<DiffLine>) -> Seq<char>
    decreases lines.len(),
{
    if lines.len() == 0 {
        Seq::empty()
    } else {
        spec_patch_text(lines.drop_last()) + spec_line_text(
            lines.last().origin,
            lines.last().content@,
        )
    }
}

/// The category that an origin marker stands for.
pub fn classify(origin: char) -> (kind: LineOrigin)
    ensures
        kind == spec_classify(origin),
{
    if origin == '+' {
        LineOrigin::Addition
    } else if origin == '-' {
        LineOrigin::Deletion
    } else if origin == ' ' {
        LineOrigin::Context
    } else if origin == 'F' {
        LineOrigin::FileHeader
    } else if origin == 'H' {
        LineOrigin::HunkHeader
    } else {
        LineOrigin::Other
    }
}

/// The text that a line of the given category starts with.
pub fn prefix(kind: LineOrigin) -> (s: &'static str)
    ensures
        s@ == spec_prefix(kind),
{
    proof {
        reveal_strlit("+");
        reveal_strlit("-");
        reveal_strlit(" ");
        reveal_strlit("--- ");
        reveal_strlit("@@ ");
        reveal_strlit("");
    }
    match kind {
        LineOrigin::Addition => "+",
        LineOrigin::Deletion => "-",
        LineOrigin::Context => " ",
        LineOrigin::FileHeader => "--- ",
        LineOrigin::HunkHeader => "@@ ",
        LineOrigin::Other => "",
    }
}

/// Appends to `out` what `line` contributes to the patch text.
pub fn append_line(out: &mut String, line: &DiffLine)
    ensures
        final(out)@ == old(out)@ + spec_line_text(line.origin, line.content@),
{
    let kind = classify(line.origin);
    if kind != LineOrigin::Other {
        if let Some(content) = decode(line.content.as_slice()) {
            proof {
                encode_utf8_decode_utf8(content@);
            }
            out.append(prefix(kind));
            out.append(content);
            assert(out@ == old(out)@ + (spec_prefix(kind) + content@));
        }
    }
}

/// Renders `lines` as patch text.
pub fn render_patch(lines: &Vec<DiffLine>) -> (text: String)
    ensures
        text@ == spec_patch_text(lines@),
{
    let mut text = String::new();
    let mut i: usize = 0;
    while i < lines.len()
        invariant
            i <= lines.len(),
            text@ == spec_patch_text(lines@.take(i as int)),
        decreases lines.len() - i,
    {
        append_line(&mut text, &lines[i]);
        proof {
            assert(lines@.take(i + 1).drop_last() == lines@.take(i as int));
        }
        i += 1;
    }
    proof {
        assert(lines@.take(i as int) == lines@);
    }
    text
}

/// Whether `part` occurs in `text` as one contiguous run.
pub open spec fn spec_occurs_in(part: Seq<char>, text: Seq<char>) -> bool {
    exists|at: int|
        0 <= at && at + part.len() <= text.len() && #[trigger] text.subrange(
            at,
            at + part.len(),
        ) == part
}

/// The patch text follows the order of the lines: the text of two runs of
/// lines, one after the other, is the text of the first followed by the text
/// of the second. Nothing is reordered, merged or dropped across lines.
pub proof fn lemma_patch_text_concat(first: Seq<DiffLine>, second: Seq<DiffLine>)
    ensures
        spec_patch_text(first + second) == spec_patch_text(first) + spec_patch_text(second),
    decreases second.len(),
{
    if second.len() == 0 {
        assert(first + second == first);
        assert(spec_patch_text(second) == Seq::<char>::empty());
        assert(spec_patch_text(first) + Seq::<char>::empty() == spec_patch_text(first));
    } else {
        let whole = first + second;
        assert(whole.drop_last() == first + second.drop_last());
        assert(whole.last() == second.last());
        lemma_patch_text_concat(first, second.drop_last());
        let tail = spec_line_text(second.last().origin, second.last().content@);
        assert(spec_patch_text(whole) == spec_patch_text(first) + spec_patch_text(
            second.drop_last(),
        ) + tail);
        assert(spec_patch_text(first) + spec_patch_text(second.drop_last()) + tail
            == spec_patch_text(first) + (spec_patch_text(second.drop_last()) + tail));
    }
}

/// The patch text depends on nothing but the origin markers and the content
/// bytes of the lines: two runs of lines that agree on both, line by line,
/// have the same text, character for character.
pub proof fn lemma_patch_text_deterministic(a: Seq<DiffLine>, b: Seq<DiffLine>)
    requires
        a.len() == b.len(),
        forall|i: int|
            0 <= i < a.len() ==> (#[trigger] a[i]).origin == b[i].origin && a[i].content@
                == b[i].content@,
    ensures
        spec_patch_text(a) == spec_patch_text(b),
    decreases a.len(),
{
    if a.len() > 0 {
        assert(a.last() == a[a.len() - 1]);
        assert(b.last() == b[b.len() - 1]);
        assert forall|i: int| 0 <= i < a.drop_last().len() implies (#[trigger] a.drop_last()[i]).origin
            == b.drop_last()[i].origin && a.drop_last()[i].content@ == b.drop_last()[i].content@ by {
            assert(a.drop_last()[i] == a[i]);
            assert(b.drop_last()[i] == b[i]);
        }
        lemma_patch_text_deterministic(a.drop_last(), b.drop_last());
    }
}

/// Every line leaves its contribution in the patch text, whole and in one
/// piece: the text of line `i` occurs in the text of the lines.
pub proof fn lemma_line_occurs(lines: Seq<DiffLine>, i: int)
    requires
        0 <= i < lines.len(),
    ensures
        spec_occurs_in(spec_line_text(lines[i].origin, lines[i].content@), spec_patch_text(lines)),
{
    let before = lines.take(i);
    let one = lines.subrange(i, i + 1);
    let after = lines.skip(i + 1);
    let part = spec_line_text(lines[i].origin, lines[i].content@);
    assert(lines == before + one + after);
    lemma_patch_text_concat(before + one, after);
    lemma_patch_text_concat(before, one);
    assert(one.drop_last() == Seq::<DiffLine>::empty());
    assert(one.last() == lines[i]);
    assert(spec_patch_text(one.drop_last()) == Seq::<char>::empty());
    assert(spec_patch_text(one) == Seq::<char>::empty() + part);
    assert(Seq::<char>::empty() + part == part);
    let text = spec_patch_text(lines);
    let at = spec_patch_text(before).len() as int;
    assert(text == spec_patch_text(before) + part + spec_patch_text(after));
    assert(text.subrange(at, at + part.len()) == part);
}

/// A hunk header and an added line show in the patch text: where line `h`
/// is a hunk header and line `p` an addition, both with well-formed content,
/// the text holds `@@ ` followed by the header and `+` followed by the added
/// content.
pub proof fn lemma_hunk_and_addition_occur(lines: Seq<DiffLine>, h: int, p: int)
    requires
        0 <= h < lines.len(),
        0 <= p < lines.len(),
        lines[h].origin == 'H',
        lines[p].origin == '+',
        valid_utf8(lines[h].content@),
        valid_utf8(lines[p].content@),
    ensures
        spec_occurs_in(seq!['@', '@', ' '] + decode_utf8(lines[h].content@), spec_patch_text(lines)),
        spec_occurs_in(seq!['+'] + decode_utf8(lines[p].content@), spec_patch_text(lines)),
{
    lemma_line_occurs(lines, h);
    lemma_line_occurs(lines, p);
}

} // verus!
