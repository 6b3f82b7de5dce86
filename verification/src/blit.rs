//! Copying of pixel rows between byte buffers.

use vstd::prelude::*;

verus! {

/// `buf` with the `len` bytes from index `at` on replaced by the bytes of
/// `src` from index `from` on.
pub open spec fn with_run(buf: Seq<u8>, at: int, src: Seq<u8>, from: int, len: int) -> Seq<u8> {
    Seq::new(
        buf.len(),
        |k: int|
            if at <= k < at + len {
                src[from + (k - at)]
            } else {
                buf[k]
            },
    )
}

/// Copies `len` bytes of `src`, starting at `from`, over the bytes of `out`
/// that start at `at`. Nothing else in `out` changes.
pub(crate) fn copy_run(out: &mut Vec<u8>, at: usize, src: &Vec<u8>, from: usize, len: usize)
    requires
        at + len <= old(out)@.len(),
        from + len <= src@.len(),
    ensures
        final(out)@ == with_run(old(out)@, at as int, src@, from as int, len as int),
{
    let out_len: usize = out.len();
    let src_len: usize = src.len();
    let mut j: usize = 0;
    while j < len
        invariant
            j <= len,
            out@.len() == out_len,
            src@.len() == src_len,
            at + len <= out_len,
            from + len <= src_len,
            out@ == with_run(old(out)@, at as int, src@, from as int, j as int),
        decreases len - j,
    {
        out[at + j] = src[from + j];
        j += 1;
        assert(out@ =~= with_run(old(out)@, at as int, src@, from as int, j as int));
    }
}

/// `buf` after `rows` runs of `run` bytes each, taken one after another from
/// `src`, have been written into it, the first at index `origin` and each
/// next one `stride` bytes further on.
pub open spec fn with_block(
    buf: Seq<u8>,
    origin: int,
    stride: int,
    src: Seq<u8>,
    run: int,
    rows: int,
) -> Seq<u8> {
    Seq::new(
        buf.len(),
        |k: int|
            {
                let d = k - origin;
                if d >= 0 && d / stride < rows && 0 <= d % stride < run {
                    src[(d / stride) * run + d % stride]
                } else {
                    buf[k]
                }
            },
    )
}

/// Writing run number `y` of a block turns the buffer that holds the first
/// `y` runs into the one that holds the first `y + 1`.
proof fn lemma_block_grows(
    buf: Seq<u8>,
    origin: int,
    stride: int,
    src: Seq<u8>,
    run: int,
    y: int,
)
    requires
        0 <= origin,
        0 <= run <= stride,
        0 <= y,
        origin + y * stride + run <= buf.len(),
    ensures
        with_run(
            with_block(buf, origin, stride, src, run, y),
            origin + y * stride,
            src,
            y * run,
            run,
        ) =~= with_block(buf, origin, stride, src, run, y + 1),
{
    let at = origin + y * stride;
    let before = with_block(buf, origin, stride, src, run, y);
    let after = with_run(before, at, src, y * run, run);
    let goal = with_block(buf, origin, stride, src, run, y + 1);
    assert forall|k: int| 0 <= k < buf.len() implies after[k] == goal[k] by {
        let d = k - origin;
        if at <= k < at + run {
            let j = k - at;
            assert(d == y * stride + j);
            vstd::arithmetic::div_mod::lemma_fundamental_div_mod_converse(d, stride, y, j);
        } else if d >= 0 && 0 <= d % stride < run {
            vstd::arithmetic::div_mod::lemma_fundamental_div_mod(d, stride);
            if d / stride == y {
                assert(stride * y == y * stride) by (nonlinear_arith);
                assert(false);
            }
        }
    }
}

/// Copies a block of `rows` runs of `run` bytes each out of `src`, where they
/// lie one after another, into `out`, where run `y` starts at index
/// `origin + y * stride`. Nothing else in `out` changes.
pub(crate) fn copy_block(
    out: &mut Vec<u8>,
    origin: usize,
    stride: usize,
    src: &Vec<u8>,
    run: usize,
    rows: usize,
)
    requires
        run <= stride,
        src@.len() == run * rows,
        rows > 0 ==> origin + (rows - 1) * stride + run <= old(out)@.len(),
    ensures
        final(out)@ == with_block(
            old(out)@,
            origin as int,
            stride as int,
            src@,
            run as int,
            rows as int,
        ),
{
    let out_len: usize = out.len();
    let src_len: usize = src.len();
    let mut y: usize = 0;
    assert(out@ =~= with_block(out@, origin as int, stride as int, src@, run as int, 0));
    while y < rows
        invariant
            y <= rows,
            run <= stride,
            src@.len() == run * rows,
            src@.len() == src_len,
            out@.len() == out_len,
            old(out)@.len() == out_len,
            rows > 0 ==> origin + (rows - 1) * stride + run <= out_len,
            out@ == with_block(old(out)@, origin as int, stride as int, src@, run as int, y as int),
        decreases rows - y,
    {
        proof {
            lemma_mul_le(y as int, rows - 1, stride as int);
            lemma_mul_le(y as int, rows - 1, run as int);
            assert((rows - 1) * run + run == run * rows) by (nonlinear_arith);
            lemma_block_grows(old(out)@, origin as int, stride as int, src@, run as int, y as int);
        }
        let at: usize = origin + y * stride;
        let from: usize = y * run;
        copy_run(out, at, src, from, run);
        y += 1;
    }
}

/// Multiplying by a non-negative factor keeps order.
pub(crate) proof fn lemma_mul_le(a: int, b: int, c: int)
    requires
        a <= b,
        0 <= c,
    ensures
        a * c <= b * c,
        c * a <= c * b,
{
    assert(a * c <= b * c) by (nonlinear_arith)
        requires
            a <= b,
            0 <= c,
    ;
    assert(c * a <= c * b) by (nonlinear_arith)
        requires
            a <= b,
            0 <= c,
    ;
}

} // verus!
