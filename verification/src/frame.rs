//! Raw frames with row padding, and the packed pixel buffer cut out of them.

use vstd::prelude::*;
use vstd::slice::slice_subrange;
use crate::error::PlayerError;

verus! {

/// A decoded RGB24 frame as the scaler hands it over: `height` rows, each
/// starting `stride` bytes after the one before and holding `width * 3`
/// bytes of pixels followed by padding.
#[derive(Debug, PartialEq, Eq)]
pub struct RawFrame {
    /// The bytes of the first plane.
    pub data: Vec<u8>,
    /// Pixels per row.
    pub width: u32,
    /// Number of rows.
    pub height: u32,
    /// Bytes from the start of one row to the start of the next.
    pub stride: usize,
}

/// The number of leading bytes of a buffer that the rows of a frame reach
/// into: the last row ends with its last pixel, not with its padding.
pub open spec fn bytes_needed(row_bytes: nat, stride: nat, rows: nat) -> nat {
    if rows == 0 {
        0
    } else {
        ((rows - 1) * stride + row_bytes) as nat
    }
}

/// The pixels of row `y` of `data`: its first `row_bytes` bytes.
pub open spec fn raw_row(data: Seq<u8>, row_bytes: nat, stride: nat, y: nat) -> Seq<u8> {
    data.subrange((y * stride) as int, (y * stride + row_bytes) as int)
}

/// Row `y` of a buffer without padding.
pub open spec fn packed_row(pixels: Seq<u8>, row_bytes: nat, y: nat) -> Seq<u8> {
    pixels.subrange((y * row_bytes) as int, ((y + 1) * row_bytes) as int)
}

/// The first `rows` rows of `data`, each cut down to its first `row_bytes`
/// bytes, one after the other.
pub open spec fn packed_rows(data: Seq<u8>, row_bytes: nat, stride: nat, rows: nat) -> Seq<u8>
    decreases rows,
{
    if rows == 0 {
        Seq::<u8>::empty()
    } else {
        packed_rows(data, row_bytes, stride, (rows - 1) as nat) + raw_row(
            data,
            row_bytes,
            stride,
            (rows - 1) as nat,
        )
    }
}

impl RawFrame {
    /// Bytes of pixels in one row.
    pub open spec fn row_bytes(&self) -> nat {
        self.width as nat * 3
    }

    /// The stride covers a whole row of pixels and the buffer holds every row.
    pub open spec fn consistent(&self) -> bool {
        &&& self.row_bytes() <= self.stride
        &&& bytes_needed(self.row_bytes(), self.stride as nat, self.height as nat)
            <= self.data@.len()
    }

    /// The pixels of the frame without any padding, row after row.
    pub open spec fn packed(&self) -> Seq<u8> {
        packed_rows(self.data@, self.row_bytes(), self.stride as nat, self.height as nat)
    }
}

/// A packed buffer of `rows` rows has `rows * row_bytes` bytes.
pub proof fn lemma_packed_len(data: Seq<u8>, row_bytes: nat, stride: nat, rows: nat)
    requires
        row_bytes <= stride,
        bytes_needed(row_bytes, stride, rows) <= data.len(),
    ensures
        packed_rows(data, row_bytes, stride, rows).len() == rows * row_bytes,
    decreases rows,
{
    if rows > 0 {
        let prev = (rows - 1) as nat;
        assert(bytes_needed(row_bytes, stride, prev) <= bytes_needed(row_bytes, stride, rows))
            by (nonlinear_arith)
            requires
                rows > 0,
                prev == rows - 1,
                row_bytes <= stride,
        ;
        lemma_packed_len(data, row_bytes, stride, prev);
        assert(prev * row_bytes + row_bytes == rows * row_bytes) by (nonlinear_arith)
            requires
                prev == rows - 1,
        ;
    } else {
        assert(rows * row_bytes == 0) by (nonlinear_arith)
            requires
                rows == 0,
        ;
    }
}

/// Row `y` of the packed buffer is the first `row_bytes` bytes of row `y` of
/// the raw buffer: the packed buffer is exactly `rows` rows of `row_bytes`
/// bytes each.
pub proof fn lemma_packed_row(data: Seq<u8>, row_bytes: nat, stride: nat, rows: nat, y: nat)
    requires
        row_bytes <= stride,
        bytes_needed(row_bytes, stride, rows) <= data.len(),
        y < rows,
    ensures
        (y + 1) * row_bytes <= packed_rows(data, row_bytes, stride, rows).len(),
        y * stride + row_bytes <= data.len(),
        packed_row(packed_rows(data, row_bytes, stride, rows), row_bytes, y) == raw_row(
            data,
            row_bytes,
            stride,
            y,
        ),
    decreases rows,
{
    let prev = (rows - 1) as nat;
    let all = packed_rows(data, row_bytes, stride, rows);
    let head = packed_rows(data, row_bytes, stride, prev);
    let last = raw_row(data, row_bytes, stride, prev);
    assert(bytes_needed(row_bytes, stride, prev) <= bytes_needed(row_bytes, stride, rows))
        by (nonlinear_arith)
        requires
            rows > 0,
            prev == rows - 1,
            row_bytes <= stride,
    ;
    lemma_packed_len(data, row_bytes, stride, prev);
    lemma_packed_len(data, row_bytes, stride, rows);
    assert(all == head + last);
    assert((y + 1) * row_bytes == y * row_bytes + row_bytes) by (nonlinear_arith);
    if y == prev {
        assert(packed_row(all, row_bytes, y) =~= last);
    } else {
        lemma_packed_row(data, row_bytes, stride, prev, y);
        assert((y + 1) * row_bytes <= prev * row_bytes) by (nonlinear_arith)
            requires
                y + 1 <= prev,
        ;
        assert(packed_row(all, row_bytes, y) =~= packed_row(head, row_bytes, y));
    }
}

/// Byte `i` of the packed buffer is the byte of the raw buffer that lies
/// `i % row_bytes` bytes into row `i / row_bytes`.
pub proof fn lemma_packed_byte(data: Seq<u8>, row_bytes: nat, stride: nat, rows: nat, i: nat)
    requires
        row_bytes <= stride,
        bytes_needed(row_bytes, stride, rows) <= data.len(),
        i < rows * row_bytes,
    ensures
        row_bytes > 0,
        i < packed_rows(data, row_bytes, stride, rows).len(),
        (i / row_bytes) * stride + i % row_bytes < data.len(),
        packed_rows(data, row_bytes, stride, rows)[i as int] == data[((i / row_bytes) * stride + i
            % row_bytes) as int],
{
    assert(row_bytes > 0) by (nonlinear_arith)
        requires
            i < rows * row_bytes,
    ;
    let y = i / row_bytes;
    let x = i % row_bytes;
    vstd::arithmetic::div_mod::lemma_fundamental_div_mod(i as int, row_bytes as int);
    assert(y < rows) by (nonlinear_arith)
        requires
            i == row_bytes * y + x,
            0 <= x,
            i < rows * row_bytes,
            row_bytes > 0,
    ;
    lemma_packed_len(data, row_bytes, stride, rows);
    lemma_packed_row(data, row_bytes, stride, rows, y);
    let all = packed_rows(data, row_bytes, stride, rows);
    let row = packed_row(all, row_bytes, y);
    assert(y * row_bytes == row_bytes * y) by (nonlinear_arith);
    assert((y + 1) * row_bytes == y * row_bytes + row_bytes) by (nonlinear_arith);
    assert(0 <= x < row_bytes);
    assert(row[x as int] == all[(y * row_bytes + x) as int]);
    assert(row[x as int] == data[(y * stride + x) as int]);
}

/// Where the stride equals the row width there is no padding to skip: the
/// packed buffer is the leading `rows * stride` bytes of the raw buffer.
pub proof fn lemma_tight_stride_is_prefix(data: Seq<u8>, stride: nat, rows: nat)
    requires
        rows * stride <= data.len(),
    ensures
        packed_rows(data, stride, stride, rows) == data.subrange(0, (rows * stride) as int),
    decreases rows,
{
    if rows == 0 {
        assert(rows * stride == 0) by (nonlinear_arith)
            requires
                rows == 0,
        ;
        assert(packed_rows(data, stride, stride, rows) =~= data.subrange(0, 0));
    } else {
        let prev = (rows - 1) as nat;
        assert(prev * stride + stride == rows * stride) by (nonlinear_arith)
            requires
                prev == rows - 1,
        ;
        lemma_tight_stride_is_prefix(data, stride, prev);
        assert(packed_rows(data, stride, stride, rows) =~= data.subrange(
            0,
            (rows * stride) as int,
        ));
    }
}

/// Cuts the padding off every row of `frame`.
///
/// Fails with `FrameConversion` where the stride is shorter than a row of
/// pixels or the buffer ends before the last row does.
pub fn strip_padding(frame: &RawFrame) -> (result: Result<Vec<u8>, PlayerError>)
    ensures
        result is Ok <==> frame.consistent(),
        result matches Ok(pixels) ==> pixels@ == frame.packed(),
        result matches Ok(pixels) ==> pixels@.len() == frame.height * frame.row_bytes(),
        result matches Ok(pixels) ==> frame.stride == frame.row_bytes() ==> pixels@
            == frame.data@.subrange(0, frame.height * frame.stride),
        result matches Err(e) ==> e == PlayerError::FrameConversion,
{
    proof {
        if frame.consistent() {
            lemma_packed_len(
                frame.data@,
                frame.row_bytes(),
                frame.stride as nat,
                frame.height as nat,
            );
            if frame.stride == frame.row_bytes() {
                assert(frame.height * frame.stride == bytes_needed(
                    frame.row_bytes(),
                    frame.stride as nat,
                    frame.height as nat,
                )) by (nonlinear_arith)
                    requires
                        frame.stride == frame.row_bytes(),
                ;
                lemma_tight_stride_is_prefix(
                    frame.data@,
                    frame.stride as nat,
                    frame.height as nat,
                );
            }
        }
    }
    let row_wide: u128 = frame.width as u128 * 3;
    let stride_wide: u128 = frame.stride as u128;
    if stride_wide < row_wide {
        return Err(PlayerError::FrameConversion);
    }
    let needed: u128 = if frame.height == 0 {
        0
    } else {
        let above: u128 = (frame.height - 1) as u128;
        assert(above * stride_wide <= 0xffff_ffff * 0xffff_ffff_ffff_ffff) by (nonlinear_arith)
            requires
                above <= 0xffff_ffff,
                stride_wide <= 0xffff_ffff_ffff_ffff,
        ;
        above * stride_wide + row_wide
    };
    if needed > frame.data.len() as u128 {
        return Err(PlayerError::FrameConversion);
    }
    let row_bytes: usize = row_wide as usize;
    let stride: usize = frame.stride;
    let rows: usize = frame.height as usize;
    let data: &[u8] = frame.data.as_slice();
    let ghost total = rows as nat * row_bytes as nat;
    proof {
        assert(total <= needed) by (nonlinear_arith)
            requires
                total == rows as nat * row_bytes as nat,
                row_bytes <= stride,
                needed == bytes_needed(row_bytes as nat, stride as nat, rows as nat),
        ;
    }
    let mut pixels: Vec<u8> = Vec::new();
    if stride == row_bytes {
        assert(rows * row_bytes == total) by (nonlinear_arith)
            requires
                total == rows as nat * row_bytes as nat,
        ;
        let length: usize = rows * row_bytes;
        pixels.extend_from_slice(slice_subrange(data, 0, length));
        proof {
            lemma_tight_stride_is_prefix(data@, stride as nat, rows as nat);
            assert(pixels@ =~= data@.subrange(0, length as int));
        }
        return Ok(pixels);
    }
    let mut y: usize = 0;
    while y < rows
        invariant
            y <= rows,
            row_bytes <= stride,
            data@ == frame.data@,
            data@.len() <= usize::MAX,
            row_bytes == frame.row_bytes(),
            stride == frame.stride,
            rows == frame.height,
            bytes_needed(row_bytes as nat, stride as nat, rows as nat) <= data@.len(),
            pixels@ == packed_rows(data@, row_bytes as nat, stride as nat, y as nat),
        decreases rows - y,
    {
        proof {
            assert(y * stride <= (rows - 1) * stride) by (nonlinear_arith)
                requires
                    y < rows,
            ;
            assert(y * stride + row_bytes <= data@.len());
        }
        let start: usize = y * stride;
        let end: usize = start + row_bytes;
        let ghost before = pixels@;
        pixels.extend_from_slice(slice_subrange(data, start, end));
        y = y + 1;
        proof {
            assert(pixels@ =~= before + data@.subrange(start as int, end as int));
        }
    }
    Ok(pixels)
}

} // verus!
