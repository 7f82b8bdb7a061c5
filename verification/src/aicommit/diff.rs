//! Rendering the staged changes of a repository as patch text.

use vstd::prelude::*;
use vstd::utf8::*;

verus! {

/// What a line of a diff is, as the repository library reports it for each printed line.
#[derive(Clone, Copy, Debug, PartialEq, Eq)]
pub enum DiffLineKind {
    Context,
    Addition,
    Deletion,
    ContextEofnl,
    AddEofnl,
    DeleteEofnl,
    FileHeader,
    HunkHeader,
    Binary,
}

/// One printed line of a diff: its kind and its raw bytes.
pub struct DiffLine {
    pub kind: DiffLineKind,
    pub content: Vec<u8>,
}

impl DiffLine {
    pub open spec fn spec_bytes(self) -> Seq<u8> {
        line_bytes(self.kind, self.content@)
    }
}

/// The bytes a line contributes to the patch: added lines get a `+` in front, deleted lines a
/// `-`, hunk headers are left out, and every other line is kept as it is.
pub open spec fn line_bytes(kind: DiffLineKind, content: Seq<u8>) -> Seq<u8> {
    match kind {
        DiffLineKind::Addition => seq![43u8] + content,
        DiffLineKind::Deletion => seq![45u8] + content,
        DiffLineKind::HunkHeader => Seq::empty(),
        _ => content,
    }
}

/// The patch that a sequence of lines prints as.
pub open spec fn patch_bytes(lines: Seq<DiffLine>) -> Seq<u8>
    decreases lines.len(),
{
    if lines.len() == 0 {
        Seq::empty()
    } else {
        patch_bytes(lines.drop_last()) + lines.last().spec_bytes()
    }
}

/// Only an added line gets a `+` (byte 43) and only a deleted line a `-` (byte 45), each put in
/// front of the line's content; a hunk header contributes nothing; a line of any other kind
/// (context, the end-of-file markers, file headers, binary notices) contributes exactly its
/// content, unchanged.
pub proof fn law_line_signs(kind: DiffLineKind, content: Seq<u8>)
    ensures
        kind == DiffLineKind::Addition ==> line_bytes(kind, content).len() == content.len() + 1
            && line_bytes(kind, content)[0] == 43u8 && line_bytes(kind, content).drop_first()
            == content,
        kind == DiffLineKind::Deletion ==> line_bytes(kind, content).len() == content.len() + 1
            && line_bytes(kind, content)[0] == 45u8 && line_bytes(kind, content).drop_first()
            == content,
        kind == DiffLineKind::HunkHeader ==> line_bytes(kind, content).len() == 0,
        kind != DiffLineKind::Addition && kind != DiffLineKind::Deletion && kind
            != DiffLineKind::HunkHeader ==> line_bytes(kind, content) == content,
{
    assert((seq![43u8] + content).drop_first() =~= content);
    assert((seq![45u8] + content).drop_first() =~= content);
}

/// Lines that are neither added, deleted nor hunk headers print as their contents, one after
/// the other, with nothing added.
pub proof fn law_unsigned_lines_print_as_is(lines: Seq<DiffLine>)
    requires
        forall|i: int|
            0 <= i < lines.len() ==> #[trigger] lines[i].kind != DiffLineKind::Addition
                && lines[i].kind != DiffLineKind::Deletion && lines[i].kind
                != DiffLineKind::HunkHeader,
    ensures
        patch_bytes(lines) == lines.fold_left(Seq::<u8>::empty(), |acc: Seq<u8>, l: DiffLine| acc + l.content@),
    decreases lines.len(),
{
    if lines.len() > 0 {
        law_unsigned_lines_print_as_is(lines.drop_last());
        law_line_signs(lines.last().kind, lines.last().content@);
    }
}

/// The patch of two runs of lines, one after the other, is the first run's patch followed by the
/// second's: each line contributes its bytes independently of the others.
pub proof fn lemma_patch_concat(a: Seq<DiffLine>, b: Seq<DiffLine>)
    ensures
        patch_bytes(a + b) == patch_bytes(a) + patch_bytes(b),
    decreases b.len(),
{
    if b.len() == 0 {
        assert(a + b == a);
    } else {
        assert((a + b).drop_last() == a + b.drop_last());
        lemma_patch_concat(a, b.drop_last());
    }
}

/// The text that `String::from_utf8_lossy` makes of `bytes`.
pub uninterp spec fn utf8_lossy(bytes: Seq<u8>) -> Seq<char>;

/// `String::from_utf8_lossy`, made an owned string. The result is named by `utf8_lossy`;
/// the documentation promises that valid UTF-8 comes back as the text it encodes. Which
/// replacement characters stand for invalid sequences is left unsaid.
#[verifier::external_body]
fn from_utf8_lossy(bytes: &[u8]) -> (res: String)
    ensures
        res@ == utf8_lossy(bytes@),
        valid_utf8(bytes@) ==> res@ == decode_utf8(bytes@),
{
    String::from_utf8_lossy(bytes).into_owned()
}

fn extend_bytes(buf: &mut Vec<u8>, bytes: &[u8])
    ensures
        final(buf)@ == old(buf)@ + bytes@,
{
    let mut i: usize = 0;
    while i < bytes.len()
        invariant
            i <= bytes@.len(),
            buf@ == old(buf)@ + bytes@.take(i as int),
        decreases bytes.len() - i,
    {
        buf.push(bytes[i]);
        i = i + 1;
        assert(bytes@.take(i as int) == bytes@.take(i - 1) + seq![bytes@[i - 1]]);
    }
    assert(bytes@.take(i as int) == bytes@);
}

/// Appends what one printed line contributes to the patch; always asks for the next line.
pub fn append_diff_line(buf: &mut Vec<u8>, kind: DiffLineKind, content: &[u8]) -> (more: bool)
    ensures
        final(buf)@ == old(buf)@ + line_bytes(kind, content@),
        more,
{
    match kind {
        DiffLineKind::Addition => buf.push(43u8),
        DiffLineKind::Deletion => buf.push(45u8),
        DiffLineKind::HunkHeader => {
            return true;
        },
        _ => {},
    }
    extend_bytes(buf, content);
    true
}

/// The patch bytes of all lines, in order.
pub fn render_patch(lines: &Vec<DiffLine>) -> (res: Vec<u8>)
    ensures
        res@ == patch_bytes(lines@),
{
    let mut buf: Vec<u8> = Vec::new();
    let mut i: usize = 0;
    while i < lines.len()
        invariant
            i <= lines@.len(),
            buf@ == patch_bytes(lines@.take(i as int)),
        decreases lines.len() - i,
    {
        append_diff_line(&mut buf, lines[i].kind, lines[i].content.as_slice());
        i = i + 1;
        assert(lines@.take(i as int).drop_last() == lines@.take(i - 1));
    }
    assert(lines@.take(i as int) == lines@);
    buf
}

/// The staged diff as text: the patch bytes decoded as UTF-8, invalid sequences replaced.
pub fn diff_text(lines: &Vec<DiffLine>) -> (res: String)
    ensures
        res@ == utf8_lossy(patch_bytes(lines@)),
        valid_utf8(patch_bytes(lines@)) ==> res@ == decode_utf8(patch_bytes(lines@)),
{
    let buf = render_patch(lines);
    from_utf8_lossy(buf.as_slice())
}

} // verus!
