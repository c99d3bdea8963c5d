use crate::bytes::push_bytes;
use vstd::prelude::*;

verus! {

/// The byte of a dash, `-`.
pub const DASH: u8 = 45;

/// The byte of `>`.
pub const GREATER: u8 = 62;

/// The byte of `<`.
pub const LESS: u8 = 60;

/// The byte of a space.
pub const SPACE: u8 = 32;

/// The byte of a line feed.
pub const NEWLINE: u8 = 10;

/// Room taken by the fixed frame around a message: `"> "` and `" <"`.
pub const FRAME_OVERHEAD: usize = 4;

/// Dashes on the left of a message of `len` bytes in a frame `width` wide:
/// half the free room, rounded down, or none when the message does not fit.
pub open spec fn left_pad(width: int, len: int) -> int {
    if len + 4 >= width {
        0
    } else {
        (width - 4 - len) / 2
    }
}

/// Dashes on the right: the rest of the free room.
pub open spec fn right_pad(width: int, len: int) -> int {
    if len + 4 >= width {
        0
    } else {
        width - 4 - len - left_pad(width, len)
    }
}

/// `n` dashes.
pub open spec fn dashes(n: nat) -> Seq<u8> {
    Seq::new(n, |_i: int| DASH)
}

/// The banner line that frames `mid` in a frame `width` wide:
/// `----> mid <-----` followed by a newline.
pub open spec fn banner(mid: Seq<u8>, width: nat) -> Seq<u8> {
    dashes(left_pad(width as int, mid.len() as int) as nat) + seq![GREATER, SPACE] + mid + seq![
        SPACE,
        LESS,
    ] + dashes(right_pad(width as int, mid.len() as int) as nat) + seq![NEWLINE]
}

/// The number of dashes on the left and on the right of a message of `len`
/// bytes in a frame `width` wide.
pub fn pad_counts(width: usize, len: usize) -> (r: (usize, usize))
    ensures
        r.0 == left_pad(width as int, len as int),
        r.1 == right_pad(width as int, len as int),
{
    if len >= width || width - len <= FRAME_OVERHEAD {
        (0, 0)
    } else {
        let room: usize = width - FRAME_OVERHEAD - len;
        let left: usize = room / 2;
        (left, room - left)
    }
}

/// Appends `n` dashes to `out`.
pub fn push_dashes(n: usize, out: &mut Vec<u8>)
    ensures
        final(out)@ == old(out)@ + dashes(n as nat),
{
    let mut i: usize = 0;
    while i < n
        invariant
            i <= n,
            out@ == old(out)@ + dashes(i as nat),
        decreases n - i,
    {
        out.push(DASH);
        i = i + 1;
        assert(out@ =~= old(out)@ + dashes(i as nat));
    }
}

/// Appends to `out` the banner line that frames `mid` in a frame `width` wide.
pub fn write_banner(mid: &[u8], width: usize, out: &mut Vec<u8>)
    ensures
        final(out)@ == old(out)@ + banner(mid@, width as nat),
{
    let (left, right) = pad_counts(width, mid.len());
    push_dashes(left, out);
    out.push(GREATER);
    out.push(SPACE);
    push_bytes(mid, out);
    out.push(SPACE);
    out.push(LESS);
    push_dashes(right, out);
    out.push(NEWLINE);
    assert(out@ =~= old(out)@ + banner(mid@, width as nat));
}

/// The pad counts split the free room of the frame exactly: the left share
/// is half of it rounded down, the right share the remainder, and a message
/// too wide for the frame gets no padding on either side.
pub proof fn lemma_centering(width: nat, len: nat)
    ensures
        len + 4 < width ==> left_pad(width as int, len as int) == (width - 4 - len) / 2
            && left_pad(width as int, len as int) + right_pad(width as int, len as int) == width
            - 4 - len && right_pad(width as int, len as int) - left_pad(width as int, len as int)
            <= 1 && 0 <= right_pad(width as int, len as int) - left_pad(width as int, len as int),
        len + 4 >= width ==> left_pad(width as int, len as int) == 0 && right_pad(
            width as int,
            len as int,
        ) == 0,
{
}

/// A banner is exactly as wide as its frame, unless the message does not fit,
/// in which case it is the message and the frame's arrows alone.
pub proof fn lemma_banner_width(mid: Seq<u8>, width: nat)
    ensures
        banner(mid, width).len() == if mid.len() + 4 >= width {
            mid.len() + 5
        } else {
            width + 1
        },
{
}

} // verus!
