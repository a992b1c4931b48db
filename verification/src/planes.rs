//! Copying video frames between strided planes and contiguous buffers.
//!
//! A decoded frame holds each plane in its own buffer whose rows start
//! `stride` bytes apart; the library's frames hold all planes back to back
//! with no padding. The functions here move the bytes between the two.
use vstd::prelude::*;

use crate::error::Error;
use crate::format::PixelFormat;

verus! {

/// One plane of a frame as its buffer holds it: the bytes, and the distance
/// in bytes between the starts of two consecutive rows.
#[derive(Clone, Debug)]
pub struct PlaneData {
    pub data: Vec<u8>,
    pub stride: usize,
}

/// Bytes per row and number of rows of one plane.
#[derive(Clone, Copy, Debug, PartialEq, Eq, Structural)]
pub struct PlaneGeometry {
    pub row_bytes: usize,
    pub rows: usize,
}

/// Bytes per row and rows of each plane of a `width` x `height` frame.
pub open spec fn spec_plane_layout(format: PixelFormat, width: nat, height: nat) -> Seq<(nat, nat)> {
    match format {
        PixelFormat::Bgra | PixelFormat::Rgba => seq![(width * 4, height)],
        PixelFormat::Rgb24 | PixelFormat::Bgr24 => seq![(width * 3, height)],
        PixelFormat::Yuv420p => seq![
            (width, height),
            (width / 2, height / 2),
            (width / 2, height / 2),
        ],
        PixelFormat::Yuv420p10 => seq![
            (width * 2, height),
            ((width / 2) * 2, height / 2),
            ((width / 2) * 2, height / 2),
        ],
        PixelFormat::Yuv422p => seq![(width, height), (width / 2, height), (width / 2, height)],
        PixelFormat::Yuv444p => seq![(width, height), (width, height), (width, height)],
        PixelFormat::Nv12 => seq![(width, height), (width, height / 2)],
        PixelFormat::P010le => seq![(width * 2, height), (width * 2, height / 2)],
    }
}

/// Number of bytes the first `n` planes of `layout` hold without padding.
pub open spec fn spec_layout_prefix_total(layout: Seq<(nat, nat)>, n: nat) -> nat
    decreases n,
{
    if n == 0 || n > layout.len() {
        0
    } else {
        spec_layout_prefix_total(layout, (n - 1) as nat) + layout[n - 1].0 * layout[n - 1].1
    }
}

/// Number of bytes a contiguous frame of the given layout holds.
pub open spec fn spec_layout_total(layout: Seq<(nat, nat)>) -> nat {
    spec_layout_prefix_total(layout, layout.len())
}

/// The first `rows` rows of `row_bytes` bytes of a strided buffer, back to back.
pub open spec fn spec_rows(data: Seq<u8>, stride: nat, row_bytes: nat, rows: nat) -> Seq<u8>
    decreases rows,
{
    if rows == 0 {
        Seq::empty()
    } else {
        let start = ((rows - 1) * stride) as int;
        spec_rows(data, stride, row_bytes, (rows - 1) as nat) + data.subrange(
            start,
            start + row_bytes,
        )
    }
}

/// A strided buffer holds every row of the given geometry.
pub open spec fn spec_plane_fits(data_len: nat, stride: nat, row_bytes: nat, rows: nat) -> bool {
    rows == 0 || (rows - 1) * stride + row_bytes <= data_len
}

/// Every plane of `layout` fits in the corresponding buffer of `planes`.
pub open spec fn spec_planes_fit(planes: Seq<PlaneData>, layout: Seq<(nat, nat)>) -> bool {
    &&& layout.len() <= planes.len()
    &&& forall|i: int|
        0 <= i < layout.len() ==> spec_plane_fits(
            #[trigger] planes[i].data@.len(),
            planes[i].stride as nat,
            layout[i].0,
            layout[i].1,
        )
}

/// The rows of the first `n` planes, plane after plane.
pub open spec fn spec_packed_planes(planes: Seq<PlaneData>, layout: Seq<(nat, nat)>, n: nat) -> Seq<
    u8,
>
    decreases n,
{
    if n == 0 || n > layout.len() || n > planes.len() {
        Seq::empty()
    } else {
        let i = n - 1;
        spec_packed_planes(planes, layout, (n - 1) as nat) + spec_rows(
            planes[i].data@,
            planes[i].stride as nat,
            layout[i].0,
            layout[i].1,
        )
    }
}

/// Contiguous bytes of a frame read from its strided planes.
pub open spec fn spec_pack(planes: Seq<PlaneData>, format: PixelFormat, width: nat, height: nat) -> Seq<u8> {
    let layout = spec_plane_layout(format, width, height);
    spec_packed_planes(planes, layout, layout.len())
}

/// `d` with the bytes from `at` on replaced by `s`.
pub open spec fn spec_splice(d: Seq<u8>, at: int, s: Seq<u8>) -> Seq<u8> {
    d.subrange(0, at) + s + d.subrange(at + s.len(), d.len() as int)
}

/// A strided buffer after rows `0..rows` of `row_bytes` bytes each, taken one
/// after another from `src` starting at `src_off`, were written into it in order.
pub open spec fn spec_write_rows(
    dst: Seq<u8>,
    src: Seq<u8>,
    src_off: nat,
    stride: nat,
    row_bytes: nat,
    rows: nat,
) -> Seq<u8>
    decreases rows,
{
    if rows == 0 {
        dst
    } else {
        let y = (rows - 1) as nat;
        let from = src_off + y * row_bytes;
        spec_splice(
            spec_write_rows(dst, src, src_off, stride, row_bytes, y),
            (y * stride) as int,
            src.subrange(from as int, (from + row_bytes) as int),
        )
    }
}

/// The strided planes after a contiguous frame `src` was written into them.
pub open spec fn spec_unpacked_plane(
    old_planes: Seq<PlaneData>,
    src: Seq<u8>,
    layout: Seq<(nat, nat)>,
    i: int,
) -> Seq<u8> {
    spec_write_rows(
        old_planes[i].data@,
        src,
        spec_layout_prefix_total(layout, i as nat),
        old_planes[i].stride as nat,
        layout[i].0,
        layout[i].1,
    )
}

/// Relation between the planes before and after a contiguous frame was
/// written into the planes of `layout`; planes past the layout are untouched.
pub open spec fn spec_unpacked(
    old_planes: Seq<PlaneData>,
    new_planes: Seq<PlaneData>,
    src: Seq<u8>,
    layout: Seq<(nat, nat)>,
) -> bool {
    &&& new_planes.len() == old_planes.len()
    &&& forall|i: int|
        0 <= i < new_planes.len() ==> (#[trigger] new_planes[i]).stride == old_planes[i].stride
    &&& forall|i: int|
        0 <= i < layout.len() ==> (#[trigger] new_planes[i]).data@ == spec_unpacked_plane(
            old_planes,
            src,
            layout,
            i,
        )
    &&& forall|i: int|
        layout.len() <= i < new_planes.len() ==> (#[trigger] new_planes[i]).data@
            == old_planes[i].data@
}

/// The widest row of any format is four bytes per pixel.
pub open spec fn spec_width_fits(width: u32) -> bool {
    width as nat * 4 <= usize::MAX
}

proof fn lemma_layout_bounds(format: PixelFormat, width: nat, height: nat)
    ensures
        forall|i: int|
            0 <= i < spec_plane_layout(format, width, height).len() ==> {
                &&& (#[trigger] spec_plane_layout(format, width, height)[i]).0 <= width * 4
                &&& spec_plane_layout(format, width, height)[i].1 <= height
            },
        1 <= spec_plane_layout(format, width, height).len() <= 3,
{
}

/// The geometry of each plane of a `width` x `height` frame in `format`.
pub fn plane_layout(format: PixelFormat, width: u32, height: u32) -> (r: Vec<PlaneGeometry>)
    requires
        spec_width_fits(width),
    ensures
        r@.len() == spec_plane_layout(format, width as nat, height as nat).len(),
        forall|i: int|
            0 <= i < r@.len() ==> (#[trigger] r@[i]).row_bytes as nat == spec_plane_layout(
                format,
                width as nat,
                height as nat,
            )[i].0 && r@[i].rows as nat == spec_plane_layout(
                format,
                width as nat,
                height as nat,
            )[i].1,
{
    let w = width as usize;
    let h = height as usize;
    let mut r: Vec<PlaneGeometry> = Vec::new();
    match format {
        PixelFormat::Bgra | PixelFormat::Rgba => {
            r.push(PlaneGeometry { row_bytes: w * 4, rows: h });
        },
        PixelFormat::Rgb24 | PixelFormat::Bgr24 => {
            r.push(PlaneGeometry { row_bytes: w * 3, rows: h });
        },
        PixelFormat::Yuv420p => {
            r.push(PlaneGeometry { row_bytes: w, rows: h });
            r.push(PlaneGeometry { row_bytes: w / 2, rows: h / 2 });
            r.push(PlaneGeometry { row_bytes: w / 2, rows: h / 2 });
        },
        PixelFormat::Yuv420p10 => {
            r.push(PlaneGeometry { row_bytes: w * 2, rows: h });
            r.push(PlaneGeometry { row_bytes: (w / 2) * 2, rows: h / 2 });
            r.push(PlaneGeometry { row_bytes: (w / 2) * 2, rows: h / 2 });
        },
        PixelFormat::Yuv422p => {
            r.push(PlaneGeometry { row_bytes: w, rows: h });
            r.push(PlaneGeometry { row_bytes: w / 2, rows: h });
            r.push(PlaneGeometry { row_bytes: w / 2, rows: h });
        },
        PixelFormat::Yuv444p => {
            r.push(PlaneGeometry { row_bytes: w, rows: h });
            r.push(PlaneGeometry { row_bytes: w, rows: h });
            r.push(PlaneGeometry { row_bytes: w, rows: h });
        },
        PixelFormat::Nv12 => {
            r.push(PlaneGeometry { row_bytes: w, rows: h });
            r.push(PlaneGeometry { row_bytes: w, rows: h / 2 });
        },
        PixelFormat::P010le => {
            r.push(PlaneGeometry { row_bytes: w * 2, rows: h });
            r.push(PlaneGeometry { row_bytes: w * 2, rows: h / 2 });
        },
    }
    r
}

proof fn lemma_row_in_bounds(y: nat, rows: nat, stride: nat, row_bytes: nat, len: nat)
    requires
        y < rows,
        spec_plane_fits(len, stride, row_bytes, rows),
    ensures
        y * stride + row_bytes <= len,
        y * stride <= (rows - 1) * stride,
{
    assert(y * stride <= (rows - 1) * stride) by (nonlinear_arith)
        requires
            y <= rows - 1,
    ;
}

/// Appends rows `0..rows` of a strided plane to `out`.
fn append_plane_rows(out: &mut Vec<u8>, plane: &PlaneData, row_bytes: usize, rows: usize)
    requires
        spec_plane_fits(plane.data@.len(), plane.stride as nat, row_bytes as nat, rows as nat),
    ensures
        final(out)@ == old(out)@ + spec_rows(
            plane.data@,
            plane.stride as nat,
            row_bytes as nat,
            rows as nat,
        ),
{
    let ghost init = out@;
    let stride = plane.stride;
    let dlen = plane.data.len();
    let mut y: usize = 0;
    while y < rows
        invariant
            y <= rows,
            dlen == plane.data@.len(),
            stride == plane.stride,
            spec_plane_fits(plane.data@.len(), stride as nat, row_bytes as nat, rows as nat),
            out@ == init + spec_rows(plane.data@, stride as nat, row_bytes as nat, y as nat),
        decreases rows - y,
    {
        proof {
            lemma_row_in_bounds(
                y as nat,
                rows as nat,
                stride as nat,
                row_bytes as nat,
                plane.data@.len(),
            );
        }
        assert(y * stride + row_bytes <= dlen);
        let start = y * stride;
        let ghost before = out@;
        let mut k: usize = 0;
        while k < row_bytes
            invariant
                k <= row_bytes,
                start == y * stride,
                start + row_bytes <= plane.data@.len(),
                dlen == plane.data@.len(),
                out@ == before + plane.data@.subrange(start as int, start + k),
            decreases row_bytes - k,
        {
            out.push(plane.data[start + k]);
            k = k + 1;
            proof {
                assert(out@ =~= before + plane.data@.subrange(start as int, start + k));
            }
        }
        y = y + 1;
        proof {
            assert(out@ =~= init + spec_rows(
                plane.data@,
                stride as nat,
                row_bytes as nat,
                y as nat,
            ));
        }
    }
}

/// Whether every plane of a `width` x `height` frame in `format` lies within
/// the corresponding buffer of `planes`, as the copies below require.
pub fn planes_fit(planes: &Vec<PlaneData>, format: PixelFormat, width: u32, height: u32) -> (r:
    bool)
    requires
        spec_width_fits(width),
    ensures
        r == spec_planes_fit(planes@, spec_plane_layout(format, width as nat, height as nat)),
{
    let ghost layout = spec_plane_layout(format, width as nat, height as nat);
    let geometry = plane_layout(format, width, height);
    if geometry.len() > planes.len() {
        return false;
    }
    let mut i: usize = 0;
    while i < geometry.len()
        invariant
            i <= geometry@.len(),
            layout == spec_plane_layout(format, width as nat, height as nat),
            geometry@.len() == layout.len(),
            layout.len() <= planes@.len(),
            forall|j: int|
                0 <= j < geometry@.len() ==> (#[trigger] geometry@[j]).row_bytes as nat
                    == layout[j].0 && geometry@[j].rows as nat == layout[j].1,
            forall|j: int|
                0 <= j < i ==> spec_plane_fits(
                    #[trigger] planes@[j].data@.len(),
                    planes@[j].stride as nat,
                    layout[j].0,
                    layout[j].1,
                ),
        decreases geometry@.len() - i,
    {
        let g = geometry[i];
        let p = &planes[i];
        if g.rows > 0 {
            let before: u128 = (g.rows - 1) as u128;
            assert(before * (p.stride as u128) <= 0xffff_ffff_ffff_ffff * 0xffff_ffff_ffff_ffffu128)
                by (nonlinear_arith)
                requires
                    before <= 0xffff_ffff_ffff_ffff,
                    p.stride <= 0xffff_ffff_ffff_ffff,
            ;
            let end: u128 = before * (p.stride as u128) + (g.row_bytes as u128);
            if end > p.data.len() as u128 {
                proof {
                    assert(!spec_plane_fits(
                        planes@[i as int].data@.len(),
                        planes@[i as int].stride as nat,
                        layout[i as int].0,
                        layout[i as int].1,
                    ));
                }
                return false;
            }
        }
        i = i + 1;
    }
    true
}

/// Copies the planes of a decoded frame into a contiguous buffer, plane
/// after plane, leaving out the padding at the end of each row.
pub fn copy_frame_data(planes: &Vec<PlaneData>, format: PixelFormat, width: u32, height: u32) -> (r:
    Vec<u8>)
    requires
        spec_width_fits(width),
        spec_planes_fit(planes@, spec_plane_layout(format, width as nat, height as nat)),
    ensures
        r@ == spec_pack(planes@, format, width as nat, height as nat),
{
    let ghost layout = spec_plane_layout(format, width as nat, height as nat);
    let geometry = plane_layout(format, width, height);
    let mut out: Vec<u8> = Vec::new();
    let mut i: usize = 0;
    while i < geometry.len()
        invariant
            i <= geometry@.len(),
            geometry@.len() == layout.len(),
            forall|j: int|
                0 <= j < geometry@.len() ==> (#[trigger] geometry@[j]).row_bytes as nat
                    == layout[j].0 && geometry@[j].rows as nat == layout[j].1,
            spec_planes_fit(planes@, layout),
            out@ == spec_packed_planes(planes@, layout, i as nat),
        decreases geometry@.len() - i,
    {
        let g = geometry[i];
        proof {
            assert(spec_plane_fits(
                planes@[i as int].data@.len(),
                planes@[i as int].stride as nat,
                layout[i as int].0,
                layout[i as int].1,
            ));
        }
        append_plane_rows(&mut out, &planes[i], g.row_bytes, g.rows);
        i = i + 1;
    }
    out
}

/// Copies the planes of a converted frame into a contiguous buffer; the
/// 10-bit semi-planar format is not offered as a conversion target.
pub fn copy_data_from_frame_planes(
    planes: &Vec<PlaneData>,
    format: PixelFormat,
    width: u32,
    height: u32,
) -> (r: Result<Vec<u8>, Error>)
    requires
        spec_width_fits(width),
        spec_planes_fit(planes@, spec_plane_layout(format, width as nat, height as nat)),
    ensures
        format == PixelFormat::P010le <==> r is Err,
        r matches Err(e) ==> e is UnsupportedFormat,
        r matches Ok(v) ==> v@ == spec_pack(planes@, format, width as nat, height as nat),
{
    match format {
        PixelFormat::P010le => Err(Error::UnsupportedFormat),
        _ => Ok(copy_frame_data(planes, format, width, height)),
    }
}


proof fn lemma_write_rows_len(dst: Seq<u8>, src: Seq<u8>, src_off: nat, stride: nat, row_bytes: nat, rows: nat)
    requires
        spec_plane_fits(dst.len(), stride, row_bytes, rows),
        src_off + rows * row_bytes <= src.len(),
    ensures
        spec_write_rows(dst, src, src_off, stride, row_bytes, rows).len() == dst.len(),
    decreases rows,
{
    if rows > 0 {
        let y = (rows - 1) as nat;
        assert(y * row_bytes + row_bytes == rows * row_bytes) by (nonlinear_arith)
            requires
                y == rows - 1,
        ;
        assert(spec_plane_fits(dst.len(), stride, row_bytes, y)) by {
            if y > 0 {
                assert((y - 1) * stride <= y * stride) by (nonlinear_arith)
                    requires
                        y > 0,
                ;
            }
        }
        assert(y * row_bytes <= rows * row_bytes) by (nonlinear_arith)
            requires
                y <= rows,
        ;
        lemma_write_rows_len(dst, src, src_off, stride, row_bytes, y);
    }
}

/// Writes rows `0..rows` of `row_bytes` bytes, read one after another from
/// `src` starting at `src_off`, into a strided plane.
fn write_plane_rows(
    dst: &mut Vec<u8>,
    stride: usize,
    src: &Vec<u8>,
    src_off: usize,
    row_bytes: usize,
    rows: usize,
)
    requires
        spec_plane_fits(old(dst)@.len(), stride as nat, row_bytes as nat, rows as nat),
        src_off + rows * row_bytes <= src@.len(),
    ensures
        final(dst)@ == spec_write_rows(
            old(dst)@,
            src@,
            src_off as nat,
            stride as nat,
            row_bytes as nat,
            rows as nat,
        ),
{
    let ghost init = dst@;
    let dlen = dst.len();
    let slen = src.len();
    let mut y: usize = 0;
    while y < rows
        invariant
            y <= rows,
            dlen == init.len(),
            slen == src@.len(),
            dst@.len() == init.len(),
            spec_plane_fits(init.len(), stride as nat, row_bytes as nat, rows as nat),
            src_off + rows * row_bytes <= src@.len(),
            dst@ == spec_write_rows(
                init,
                src@,
                src_off as nat,
                stride as nat,
                row_bytes as nat,
                y as nat,
            ),
        decreases rows - y,
    {
        proof {
            lemma_row_in_bounds(y as nat, rows as nat, stride as nat, row_bytes as nat, init.len());
            assert(y * row_bytes + row_bytes <= rows * row_bytes) by (nonlinear_arith)
                requires
                    y < rows,
            ;
        }
        assert(y * stride + row_bytes <= dlen);
        assert(src_off + y * row_bytes + row_bytes <= slen);
        let start = y * stride;
        let from = src_off + y * row_bytes;
        let ghost base = dst@;
        let mut k: usize = 0;
        while k < row_bytes
            invariant
                k <= row_bytes,
                start == y * stride,
                from == src_off + y * row_bytes,
                start + row_bytes <= base.len(),
                from + row_bytes <= src@.len(),
                base.len() == dlen,
                slen == src@.len(),
                dst@ == spec_splice(base, start as int, src@.subrange(from as int, from + k)),
            decreases row_bytes - k,
        {
            let b = src[from + k];
            dst.set(start + k, b);
            k = k + 1;
            proof {
                assert(dst@ =~= spec_splice(base, start as int, src@.subrange(from as int, from + k)));
            }
        }
        y = y + 1;
    }
}

proof fn lemma_prefix_total_step(layout: Seq<(nat, nat)>, n: nat)
    requires
        n < layout.len(),
    ensures
        spec_layout_prefix_total(layout, n + 1) == spec_layout_prefix_total(layout, n)
            + layout[n as int].0 * layout[n as int].1,
{
}

proof fn lemma_prefix_total_mono(layout: Seq<(nat, nat)>, m: nat, n: nat)
    requires
        m <= n <= layout.len(),
    ensures
        spec_layout_prefix_total(layout, m) <= spec_layout_prefix_total(layout, n),
    decreases n - m,
{
    if m < n {
        lemma_prefix_total_mono(layout, m, (n - 1) as nat);
    }
}

/// Writes a contiguous frame into the strided planes of a frame buffer, plane
/// after plane, row after row; bytes past each row are left as they were.
pub fn copy_data_to_frame_planes(
    planes: &mut Vec<PlaneData>,
    frame_data: &Vec<u8>,
    format: PixelFormat,
    width: u32,
    height: u32,
)
    requires
        spec_width_fits(width),
        spec_planes_fit(old(planes)@, spec_plane_layout(format, width as nat, height as nat)),
        spec_layout_total(spec_plane_layout(format, width as nat, height as nat))
            <= frame_data@.len(),
    ensures
        spec_unpacked(
            old(planes)@,
            final(planes)@,
            frame_data@,
            spec_plane_layout(format, width as nat, height as nat),
        ),
        forall|i: int|
            0 <= i < final(planes)@.len() ==> (#[trigger] final(planes)@[i]).data@.len() == old(
                planes,
            )@[i].data@.len(),
        spec_planes_fit(final(planes)@, spec_plane_layout(format, width as nat, height as nat)),
        (forall|i: int|
            0 <= i < spec_plane_layout(format, width as nat, height as nat).len() ==> (
            #[trigger] spec_plane_layout(format, width as nat, height as nat)[i]).0 <= old(
                planes,
            )@[i].stride) ==> spec_pack(final(planes)@, format, width as nat, height as nat)
            == frame_data@.subrange(
            0,
            spec_layout_total(spec_plane_layout(format, width as nat, height as nat)) as int,
        ),
{
    let ghost layout = spec_plane_layout(format, width as nat, height as nat);
    let ghost init = planes@;
    let geometry = plane_layout(format, width, height);
    let flen = frame_data.len();
    let mut off: usize = 0;
    let mut i: usize = 0;
    while i < geometry.len()
        invariant
            i <= geometry@.len(),
            geometry@.len() == layout.len(),
            layout.len() <= init.len(),
            forall|j: int|
                0 <= j < geometry@.len() ==> (#[trigger] geometry@[j]).row_bytes as nat
                    == layout[j].0 && geometry@[j].rows as nat == layout[j].1,
            spec_planes_fit(init, layout),
            spec_layout_total(layout) <= frame_data@.len(),
            flen == frame_data@.len(),
            off as nat == spec_layout_prefix_total(layout, i as nat),
            planes@.len() == init.len(),
            forall|j: int| 0 <= j < planes@.len() ==> (#[trigger] planes@[j]).stride == init[j].stride,
            forall|j: int|
                0 <= j < i ==> (#[trigger] planes@[j]).data@ == spec_unpacked_plane(
                    init,
                    frame_data@,
                    layout,
                    j,
                ),
            forall|j: int| i <= j < planes@.len() ==> (#[trigger] planes@[j]).data@ == init[j].data@,
        decreases geometry@.len() - i,
    {
        let g = geometry[i];
        proof {
            lemma_prefix_total_step(layout, i as nat);
            lemma_prefix_total_mono(layout, (i + 1) as nat, layout.len());
            assert(g.row_bytes * g.rows == g.rows * g.row_bytes) by (nonlinear_arith);
            assert(spec_plane_fits(
                init[i as int].data@.len(),
                init[i as int].stride as nat,
                layout[i as int].0,
                layout[i as int].1,
            ));
        }
        let stride = planes[i].stride;
        write_plane_rows(&mut planes[i].data, stride, frame_data, off, g.row_bytes, g.rows);
        off = off + g.row_bytes * g.rows;
        i = i + 1;
    }
    proof {
        assert forall|j: int| 0 <= j < planes@.len() implies (#[trigger] planes@[j]).data@.len()
            == init[j].data@.len() by {
            if j < layout.len() {
                lemma_prefix_total_step(layout, j as nat);
                lemma_prefix_total_mono(layout, (j + 1) as nat, layout.len());
                assert(layout[j].0 * layout[j].1 == layout[j].1 * layout[j].0) by (nonlinear_arith);
                assert(spec_plane_fits(
                    init[j].data@.len(),
                    init[j].stride as nat,
                    layout[j].0,
                    layout[j].1,
                ));
                lemma_write_rows_len(
                    init[j].data@,
                    frame_data@,
                    spec_layout_prefix_total(layout, j as nat),
                    init[j].stride as nat,
                    layout[j].0,
                    layout[j].1,
                );
            }
        }
        assert forall|j: int| 0 <= j < layout.len() implies spec_plane_fits(
            #[trigger] planes@[j].data@.len(),
            planes@[j].stride as nat,
            layout[j].0,
            layout[j].1,
        ) by {
            assert(spec_plane_fits(
                init[j].data@.len(),
                init[j].stride as nat,
                layout[j].0,
                layout[j].1,
            ));
            assert(planes@[j].data@.len() == init[j].data@.len());
        }
        if forall|j: int| 0 <= j < layout.len() ==> (#[trigger] layout[j]).0 <= init[j].stride {
            assert(spec_unpacked(init, planes@, frame_data@, layout));
            lemma_pack_after_unpack(init, planes@, frame_data@, format, width as nat, height as nat);
        }
    }
}


proof fn lemma_rows_depend_on_prefix(d1: Seq<u8>, d2: Seq<u8>, stride: nat, row_bytes: nat, m: nat, bound: nat)
    requires
        bound <= d1.len(),
        bound <= d2.len(),
        d1.subrange(0, bound as int) == d2.subrange(0, bound as int),
        m == 0 || (m - 1) * stride + row_bytes <= bound,
    ensures
        spec_rows(d1, stride, row_bytes, m) == spec_rows(d2, stride, row_bytes, m),
    decreases m,
{
    if m > 0 {
        let y = (m - 1) as nat;
        if y > 0 {
            assert((y - 1) * stride <= y * stride) by (nonlinear_arith)
                requires
                    y > 0,
            ;
        }
        lemma_rows_depend_on_prefix(d1, d2, stride, row_bytes, y, bound);
        let start = (y * stride) as int;
        let e = start + row_bytes;
        assert forall|k: int| 0 <= k < row_bytes implies #[trigger] d1.subrange(start, e)[k]
            == d2.subrange(start, e)[k] by {
            assert(start + k < bound);
            let a1 = d1.subrange(0, bound as int);
            let a2 = d2.subrange(0, bound as int);
            assert(a1[start + k] == d1[start + k]);
            assert(a2[start + k] == d2[start + k]);
            assert(a1 == a2);
        }
        assert(d1.subrange(start, e) =~= d2.subrange(start, e));
    }
}

proof fn lemma_rows_of_written_rows(
    dst: Seq<u8>,
    src: Seq<u8>,
    src_off: nat,
    stride: nat,
    row_bytes: nat,
    rows: nat,
)
    requires
        row_bytes <= stride,
        spec_plane_fits(dst.len(), stride, row_bytes, rows),
        src_off + rows * row_bytes <= src.len(),
    ensures
        spec_rows(spec_write_rows(dst, src, src_off, stride, row_bytes, rows), stride, row_bytes, rows)
            == src.subrange(src_off as int, (src_off + rows * row_bytes) as int),
    decreases rows,
{
    if rows == 0 {
        assert(src.subrange(src_off as int, src_off as int) =~= Seq::<u8>::empty());
    } else {
        let y = (rows - 1) as nat;
        let at = y * stride;
        let from = src_off + y * row_bytes;
        assert(y * row_bytes + row_bytes == rows * row_bytes) by (nonlinear_arith)
            requires
                y == rows - 1,
        ;
        assert(spec_plane_fits(dst.len(), stride, row_bytes, y)) by {
            if y > 0 {
                assert((y - 1) * stride <= y * stride) by (nonlinear_arith)
                    requires
                        y > 0,
                ;
            }
        }
        let prev = spec_write_rows(dst, src, src_off, stride, row_bytes, y);
        let w = spec_write_rows(dst, src, src_off, stride, row_bytes, rows);
        let piece = src.subrange(from as int, (from + row_bytes) as int);
        lemma_write_rows_len(dst, src, src_off, stride, row_bytes, y);
        assert(w == spec_splice(prev, at as int, piece));
        assert(w.subrange(at as int, (at + row_bytes) as int) =~= piece);
        assert(w.subrange(0, at as int) =~= prev.subrange(0, at as int));
        if y > 0 {
            assert((y - 1) * stride + row_bytes <= y * stride) by (nonlinear_arith)
                requires
                    y > 0,
                    row_bytes <= stride,
            ;
        }
        lemma_rows_depend_on_prefix(w, prev, stride, row_bytes, y, at);
        lemma_rows_of_written_rows(dst, src, src_off, stride, row_bytes, y);
        assert(spec_rows(w, stride, row_bytes, rows) =~= src.subrange(
            src_off as int,
            (src_off + rows * row_bytes) as int,
        ));
    }
}

proof fn lemma_packed_after_unpacked(
    old_planes: Seq<PlaneData>,
    new_planes: Seq<PlaneData>,
    src: Seq<u8>,
    layout: Seq<(nat, nat)>,
    n: nat,
)
    requires
        n <= layout.len(),
        spec_planes_fit(old_planes, layout),
        forall|i: int| 0 <= i < layout.len() ==> (#[trigger] layout[i]).0 <= old_planes[i].stride,
        spec_layout_total(layout) <= src.len(),
        spec_unpacked(old_planes, new_planes, src, layout),
    ensures
        spec_packed_planes(new_planes, layout, n) == src.subrange(
            0,
            spec_layout_prefix_total(layout, n) as int,
        ),
    decreases n,
{
    if n == 0 {
        assert(src.subrange(0, 0) =~= Seq::<u8>::empty());
    } else {
        let i = (n - 1) as nat;
        lemma_packed_after_unpacked(old_planes, new_planes, src, layout, i);
        lemma_prefix_total_step(layout, i);
        lemma_prefix_total_mono(layout, n, layout.len());
        let off = spec_layout_prefix_total(layout, i);
        let rb = layout[i as int].0;
        let rows = layout[i as int].1;
        assert(rb * rows == rows * rb) by (nonlinear_arith);
        assert(spec_plane_fits(
            old_planes[i as int].data@.len(),
            old_planes[i as int].stride as nat,
            rb,
            rows,
        ));
        assert(new_planes[i as int].data@ == spec_unpacked_plane(old_planes, src, layout, i as int));
        lemma_rows_of_written_rows(
            old_planes[i as int].data@,
            src,
            off,
            old_planes[i as int].stride as nat,
            rb,
            rows,
        );
        assert(spec_packed_planes(new_planes, layout, n) =~= src.subrange(
            0,
            spec_layout_prefix_total(layout, n) as int,
        ));
    }
}

/// Writing a contiguous frame into strided planes and reading the planes back
/// gives the frame again, provided no plane's rows overlap (each stride is at
/// least the row length).
pub proof fn lemma_pack_after_unpack(
    old_planes: Seq<PlaneData>,
    new_planes: Seq<PlaneData>,
    frame_data: Seq<u8>,
    format: PixelFormat,
    width: nat,
    height: nat,
)
    requires
        spec_planes_fit(old_planes, spec_plane_layout(format, width, height)),
        forall|i: int|
            0 <= i < spec_plane_layout(format, width, height).len() ==> (#[trigger] spec_plane_layout(
                format,
                width,
                height,
            )[i]).0 <= old_planes[i].stride,
        spec_layout_total(spec_plane_layout(format, width, height)) <= frame_data.len(),
        spec_unpacked(old_planes, new_planes, frame_data, spec_plane_layout(format, width, height)),
    ensures
        spec_pack(new_planes, format, width, height) == frame_data.subrange(
            0,
            spec_layout_total(spec_plane_layout(format, width, height)) as int,
        ),
{
    let layout = spec_plane_layout(format, width, height);
    lemma_packed_after_unpacked(old_planes, new_planes, frame_data, layout, layout.len());
}

/// For a frame of even width and height, the planes of a format hold
/// exactly its bits per pixel for every pixel (10-bit samples stored in two
/// bytes each); packed formats have one plane, semi-planar formats two, and
/// the other planar formats three.
pub proof fn lemma_layout_matches_format(format: PixelFormat, half_width: nat, half_height: nat)
    ensures
        ({
            let w = 2 * half_width;
            let h = 2 * half_height;
            let total = spec_layout_total(spec_plane_layout(format, w, h));
            &&& (format == PixelFormat::Yuv420p10 || format == PixelFormat::P010le) ==> 5 * total
                == format.spec_bits_per_pixel() * w * h
            &&& !(format == PixelFormat::Yuv420p10 || format == PixelFormat::P010le) ==> 8 * total
                == format.spec_bits_per_pixel() * w * h
        }),
        (spec_plane_layout(format, 2 * half_width, 2 * half_height).len() == 1)
            <==> !format.spec_is_planar(),
        (spec_plane_layout(format, 2 * half_width, 2 * half_height).len() == 2) <==> (format
            == PixelFormat::Nv12 || format == PixelFormat::P010le),
{
    let a = half_width;
    let b = half_height;
    let w = 2 * a;
    let h = 2 * b;
    let layout = spec_plane_layout(format, w, h);
    reveal_with_fuel(spec_layout_prefix_total, 4);
    assert(w / 2 == a);
    assert(h / 2 == b);
    assert(8 * (w * h) == 32 * (a * b)) by (nonlinear_arith)
        requires
            w == 2 * a,
            h == 2 * b,
    ;
    match format {
        PixelFormat::Bgra | PixelFormat::Rgba => {
            assert(8 * ((w * 4) * h) == 32 * w * h) by (nonlinear_arith);
        },
        PixelFormat::Rgb24 | PixelFormat::Bgr24 => {
            assert(8 * ((w * 3) * h) == 24 * (w * h)) by (nonlinear_arith);
        },
        PixelFormat::Yuv420p => {
            assert(8 * (w * h + a * b + a * b) == 12 * (w * h)) by (nonlinear_arith)
                requires
                    w == 2 * a,
                    h == 2 * b,
            ;
        },
        PixelFormat::Nv12 => {
            assert(8 * (w * h + w * b) == 12 * (w * h)) by (nonlinear_arith)
                requires
                    w == 2 * a,
                    h == 2 * b,
            ;
        },
        PixelFormat::Yuv422p => {
            assert(8 * (w * h + a * h + a * h) == 16 * (w * h)) by (nonlinear_arith)
                requires
                    w == 2 * a,
            ;
        },
        PixelFormat::Yuv444p => {
            assert(8 * (w * h + w * h + w * h) == 24 * (w * h)) by (nonlinear_arith);
        },
        PixelFormat::Yuv420p10 => {
            assert(5 * ((w * 2) * h + (a * 2) * b + (a * 2) * b) == 15 * (w * h)) by (nonlinear_arith)
                requires
                    w == 2 * a,
                    h == 2 * b,
            ;
        },
        PixelFormat::P010le => {
            assert(5 * ((w * 2) * h + (w * 2) * b) == 15 * (w * h)) by (nonlinear_arith)
                requires
                    w == 2 * a,
                    h == 2 * b,
            ;
        },
    }
    assert(format.spec_bits_per_pixel() * w * h == format.spec_bits_per_pixel() * (w * h))
        by (nonlinear_arith);
}

proof fn lemma_rows_index(data: Seq<u8>, stride: nat, row_bytes: nat, rows: nat)
    requires
        spec_plane_fits(data.len(), stride, row_bytes, rows),
    ensures
        spec_rows(data, stride, row_bytes, rows).len() == rows * row_bytes,
        forall|y: int, x: int|
            0 <= y < rows && 0 <= x < row_bytes ==> #[trigger] spec_rows(
                data,
                stride,
                row_bytes,
                rows,
            )[y * row_bytes + x] == data[y * stride + x],
    decreases rows,
{
    if rows == 0 {
        assert(rows * row_bytes == 0) by (nonlinear_arith)
            requires
                rows == 0,
        ;
    } else {
        let prev = (rows - 1) as nat;
        assert(spec_plane_fits(data.len(), stride, row_bytes, prev)) by {
            if prev > 0 {
                assert((prev - 1) * stride <= prev * stride) by (nonlinear_arith)
                    requires
                        prev > 0,
                ;
            }
        }
        lemma_rows_index(data, stride, row_bytes, prev);
        assert(prev * row_bytes + row_bytes == rows * row_bytes) by (nonlinear_arith)
            requires
                prev == rows - 1,
        ;
        assert forall|y: int, x: int| 0 <= y < rows && 0 <= x < row_bytes implies #[trigger] spec_rows(
            data,
            stride,
            row_bytes,
            rows,
        )[y * row_bytes + x] == data[y * stride + x] by {
            if y < prev {
                assert(y * row_bytes + x < prev * row_bytes) by (nonlinear_arith)
                    requires
                        y < prev,
                        x < row_bytes,
                ;
            } else {
                assert(y * row_bytes + x == prev * row_bytes + x) by (nonlinear_arith)
                    requires
                        y == prev,
                ;
                assert(y * stride + x == prev * stride + x) by (nonlinear_arith)
                    requires
                        y == prev,
                ;
            }
        }
    }
}

proof fn lemma_packed_index(planes: Seq<PlaneData>, layout: Seq<(nat, nat)>, n: nat)
    requires
        n <= layout.len(),
        spec_planes_fit(planes, layout),
    ensures
        spec_packed_planes(planes, layout, n).len() == spec_layout_prefix_total(layout, n),
        forall|i: int, y: int, x: int|
            0 <= i < n && 0 <= y < layout[i].1 && 0 <= x < layout[i].0 ==> #[trigger] spec_packed_planes(
                planes,
                layout,
                n,
            )[spec_layout_prefix_total(layout, i as nat) + y * layout[i].0 + x]
                == planes[i].data@[y * planes[i].stride + x],
    decreases n,
{
    if n > 0 {
        let prev = (n - 1) as nat;
        let i0 = prev as int;
        lemma_packed_index(planes, layout, prev);
        assert(spec_plane_fits(
            planes[i0].data@.len(),
            planes[i0].stride as nat,
            layout[i0].0,
            layout[i0].1,
        ));
        lemma_rows_index(planes[i0].data@, planes[i0].stride as nat, layout[i0].0, layout[i0].1);
        lemma_prefix_total_step(layout, prev);
        assert(layout[i0].1 * layout[i0].0 == layout[i0].0 * layout[i0].1) by (nonlinear_arith);
        assert forall|i: int, y: int, x: int|
            0 <= i < n && 0 <= y < layout[i].1 && 0 <= x < layout[i].0 implies #[trigger] spec_packed_planes(
            planes,
            layout,
            n,
        )[spec_layout_prefix_total(layout, i as nat) + y * layout[i].0 + x]
            == planes[i].data@[y * planes[i].stride + x] by {
            assert(y * layout[i].0 + x < layout[i].1 * layout[i].0) by (nonlinear_arith)
                requires
                    0 <= y < layout[i].1,
                    0 <= x < layout[i].0,
            ;
            let head = spec_packed_planes(planes, layout, prev);
            let tail = spec_rows(planes[i0].data@, planes[i0].stride as nat, layout[i0].0, layout[i0].1);
            assert(spec_packed_planes(planes, layout, n) == head + tail);
            let k = spec_layout_prefix_total(layout, i as nat) + y * layout[i].0 + x;
            if i < prev {
                lemma_prefix_total_step(layout, i as nat);
                lemma_prefix_total_mono(layout, (i + 1) as nat, prev);
                assert(layout[i].1 * layout[i].0 == layout[i].0 * layout[i].1) by (nonlinear_arith);
                assert(k < head.len());
                assert(head[k] == planes[i].data@[y * planes[i].stride + x]);
                assert((head + tail)[k] == head[k]);
            } else {
                assert(i == i0);
                assert(k == head.len() + (y * layout[i0].0 + x));
                assert(tail[y * layout[i0].0 + x] == planes[i0].data@[y * planes[i0].stride + x]);
                assert((head + tail)[k] == tail[y * layout[i0].0 + x]);
            }
        }
    }
}

/// Packing reads byte `x` of row `y` of plane `i` from position
/// `y * stride + x` of that plane, and puts it after the earlier planes, at
/// `y * row_bytes + x` within the plane's part.
pub proof fn lemma_pack_index(
    planes: Seq<PlaneData>,
    format: PixelFormat,
    width: nat,
    height: nat,
    i: int,
    y: int,
    x: int,
)
    requires
        spec_planes_fit(planes, spec_plane_layout(format, width, height)),
        0 <= i < spec_plane_layout(format, width, height).len(),
        0 <= y < spec_plane_layout(format, width, height)[i].1,
        0 <= x < spec_plane_layout(format, width, height)[i].0,
    ensures
        spec_pack(planes, format, width, height).len() == spec_layout_total(
            spec_plane_layout(format, width, height),
        ),
        spec_pack(planes, format, width, height)[spec_layout_prefix_total(
            spec_plane_layout(format, width, height),
            i as nat,
        ) + y * spec_plane_layout(format, width, height)[i].0 + x] == planes[i].data@[y
            * planes[i].stride + x],
{
    let layout = spec_plane_layout(format, width, height);
    lemma_packed_index(planes, layout, layout.len());
}

} // verus!
