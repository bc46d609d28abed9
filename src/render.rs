//! Rendering of payload bytes as operator-facing ASCII text.
use vstd::prelude::*;

verus! {

/// Largest payload length the hex dump accepts.
pub const MAX_DUMP_LEN: usize = 65535;

/// Byte of `.`, shown for bytes that have no visible glyph.
pub const DOT: u8 = 0x2e;

/// Byte of a space.
pub const SPACE: u8 = 0x20;

/// Byte of a newline.
pub const NEWLINE: u8 = 0x0a;

/// True for the visible ASCII characters `!` through `~`.
pub open spec fn is_graphic(c: u8) -> bool {
    0x21 <= c && c <= 0x7e
}

/// The character shown for `c` in the hex dump's gutter: itself when it is
/// visible, `.` otherwise (a space included).
pub open spec fn display_byte(c: u8) -> u8 {
    if is_graphic(c) { c } else { DOT }
}

/// The character shown for `c` in the inline view: like `display_byte`, but
/// a space stays a space.
pub open spec fn plain_byte(c: u8) -> u8 {
    if c == SPACE { SPACE } else { display_byte(c) }
}

/// The inline view of `b`: one character per byte, in order.
pub open spec fn plain_text(b: Seq<u8>) -> Seq<u8> {
    b.map_values(|c: u8| plain_byte(c))
}

/// Lowercase hexadecimal digit of `d`, for `d < 16`.
pub open spec fn hex_digit(d: u8) -> u8 {
    if d < 10 { (0x30 + d) as u8 } else { (0x57 + d) as u8 }
}

/// `c` as two lowercase hex digits followed by a space.
pub open spec fn hex_cell(c: u8) -> Seq<u8> {
    seq![hex_digit(c / 16), hex_digit(c % 16), SPACE]
}

/// Slot `k` of the eight-byte lookback window once byte `i` of `b` has been
/// stored: the latest byte at an index `j <= i` with `j % 8 == k`, or zero
/// where there is none yet.
pub open spec fn window_slot(b: Seq<u8>, i: int, k: int) -> u8 {
    let j = i - (i - k) % 8;
    if j >= 0 { b[j] } else { 0 }
}

/// The gutter shown after byte `i`: the eight window slots in slot order.
pub open spec fn gutter(b: Seq<u8>, i: int) -> Seq<u8> {
    Seq::new(8, |k: int| display_byte(window_slot(b, i, k)))
}

/// True where byte `i` of a dump of `n` bytes ends a row.
pub open spec fn closes_row(i: int, n: int) -> bool {
    i % 16 == 0 || i + 1 == n
}

/// The text emitted for byte `i` of `b`: its hex cell, then either the end of
/// a row (with the gutter where `with_gutter` holds), or the mid-row marker
/// `- `, or nothing.
pub open spec fn dump_piece(b: Seq<u8>, i: int, with_gutter: bool) -> Seq<u8> {
    hex_cell(b[i]) + if closes_row(i, b.len() as int) {
        (if with_gutter { seq![SPACE, 0x7c, SPACE] + gutter(b, i) } else { Seq::empty() })
            + seq![NEWLINE]
    } else if i % 8 == 0 {
        seq![0x2d, SPACE]
    } else {
        Seq::empty()
    }
}

/// The text emitted for the first `m` bytes of `b`.
pub open spec fn dump_prefix(b: Seq<u8>, m: nat, with_gutter: bool) -> Seq<u8>
    decreases m,
{
    if m == 0 {
        Seq::empty()
    } else {
        dump_prefix(b, (m - 1) as nat, with_gutter) + dump_piece(b, m - 1, with_gutter)
    }
}

/// The whole hex dump of `b`.
pub open spec fn hex_dump(b: Seq<u8>, with_gutter: bool) -> Seq<u8> {
    dump_prefix(b, b.len(), with_gutter)
}

/// Errors of the renderer.
#[derive(Clone, Copy, Debug, PartialEq, Eq, Structural)]
pub enum RenderError {
    /// The payload is longer than `MAX_DUMP_LEN` bytes.
    PayloadTooLarge,
}

/// The character shown for a byte in the gutter of the hex dump.
pub fn print_char(c: &u8) -> (r: u8)
    ensures
        r == display_byte(*c),
{
    if 0x21 <= *c && *c <= 0x7e { *c } else { DOT }
}


/// The inline view of the first `n` bytes of `buf`: each visible ASCII byte
/// as itself, a space as a space, any other byte as `.`.
pub fn plain_view(buf: &[u8], n: usize) -> (r: Vec<u8>)
    requires
        n <= buf@.len(),
    ensures
        r@ == plain_text(buf@.subrange(0, n as int)),
        r@.len() == n,
        forall|i: int|
            0 <= i < n ==> (r@[i] == buf@[i] && is_graphic(buf@[i])) || (r@[i] == SPACE
                && buf@[i] == SPACE) || r@[i] == DOT,
{
    let mut out: Vec<u8> = Vec::new();
    let mut i: usize = 0;
    while i < n
        invariant
            i <= n,
            n <= buf@.len(),
            out@ == plain_text(buf@.subrange(0, i as int)),
        decreases n - i,
    {
        let cc = buf[i];
        let shown = if cc == SPACE { SPACE } else { print_char(&cc) };
        out.push(shown);
        proof {
            assert(buf@.subrange(0, i + 1) =~= buf@.subrange(0, i as int).push(cc));
        }
        i += 1;
        assert(out@ =~= plain_text(buf@.subrange(0, i as int)));
    }
    out
}

fn hex_digit_of(d: u8) -> (r: u8)
    requires
        d < 16,
    ensures
        r == hex_digit(d),
{
    if d < 10 { 0x30 + d } else { 0x57 + d }
}

/// Storing byte `i` in slot `i % 8` turns the window after byte `i - 1` into
/// the window after byte `i`.
proof fn lemma_window_step(b: Seq<u8>, i: int, k: int)
    requires
        0 <= i < b.len(),
        0 <= k < 8,
    ensures
        window_slot(b, i, k) == if k == i % 8 { b[i] } else { window_slot(b, i - 1, k) },
{
    let r = (i - k) % 8;
    assert(0 <= r < 8);
    if k == i % 8 {
        assert(r == 0);
    } else {
        assert(r != 0);
        assert((i - 1 - k) % 8 == r - 1);
    }
}

/// Hex dump of the first `validlen` bytes of `hex`, sixteen bytes to a row,
/// with an ASCII gutter of the eight-byte lookback window when `printchar`
/// holds. Lengths over `MAX_DUMP_LEN` are refused.
pub fn hex_print(hex: &[u8], validlen: usize, printchar: bool) -> (r: Result<Vec<u8>, RenderError>)
    requires
        validlen <= hex@.len(),
    ensures
        r is Err <==> validlen > MAX_DUMP_LEN,
        r matches Err(e) ==> e == RenderError::PayloadTooLarge,
        r matches Ok(out) ==> out@ == hex_dump(hex@.subrange(0, validlen as int), printchar),
{
    if validlen > MAX_DUMP_LEN {
        return Err(RenderError::PayloadTooLarge);
    }
    let ghost b = hex@.subrange(0, validlen as int);
    let mut window: Vec<u8> = vec![0u8; 8];
    let mut out: Vec<u8> = Vec::new();
    let mut index: usize = 0;
    while index < validlen
        invariant
            index <= validlen,
            validlen <= hex@.len(),
            b == hex@.subrange(0, validlen as int),
            window@.len() == 8,
            forall|k: int| 0 <= k < 8 ==> window@[k] == window_slot(b, index - 1, k),
            out@ == dump_prefix(b, index as nat, printchar),
        decreases validlen - index,
    {
        let cc = hex[index];
        window[index % 8] = cc;
        proof {
            assert forall|k: int| 0 <= k < 8 implies window@[k] == window_slot(b, index as int, k) by {
                lemma_window_step(b, index as int, k);
            }
        }
        let ghost before = out@;
        out.push(hex_digit_of(cc / 16));
        out.push(hex_digit_of(cc % 16));
        out.push(SPACE);
        assert(out@ =~= before + hex_cell(b[index as int]));
        if index % 16 == 0 || index + 1 == validlen {
            if printchar {
                out.push(SPACE);
                out.push(0x7c);
                out.push(SPACE);
                let ghost head = out@;
                let mut k: usize = 0;
                while k < 8
                    invariant
                        k <= 8,
                        window@.len() == 8,
                        forall|j: int| 0 <= j < 8 ==> window@[j] == window_slot(b, index as int, j),
                        out@ == head + gutter(b, index as int).subrange(0, k as int),
                    decreases 8 - k,
                {
                    out.push(print_char(&window[k]));
                    k += 1;
                    assert(out@ =~= head + gutter(b, index as int).subrange(0, k as int));
                }
                assert(gutter(b, index as int).subrange(0, 8) =~= gutter(b, index as int));
            }
            out.push(NEWLINE);
        } else if index % 8 == 0 {
            out.push(0x2d);
            out.push(SPACE);
        }
        assert(out@ =~= before + dump_piece(b, index as int, printchar));
        index += 1;
    }
    Ok(out)
}

} // verus!
