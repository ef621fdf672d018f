//! The readback path: the model of an in-flight GPU texture handle, and the
//! copy that turns a staged, CPU-readable texture into a tightly packed
//! pixel buffer.

use crate::error::CaptureError;
use vstd::prelude::*;

verus! {

/// The platform's `D3D11_USAGE` value for a staging resource.
pub const D3D11_USAGE_STAGING: u32 = 3;

/// The bit of the platform's `D3D11_CPU_ACCESS_FLAG` that grants CPU read
/// access to a mapped resource.
pub const D3D11_CPU_ACCESS_READ: u32 = 0x20000;

/// The platform's DXGI format code for 32-bit BGRA, unsigned normalized —
/// the one pixel format this core supports.
pub const DXGI_FORMAT_B8G8R8A8_UNORM: u32 = 87;

/// What a texture descriptor query reports: dimensions, pixel format,
/// usage class, and CPU-access flags.
#[derive(Clone, Copy, Debug, PartialEq, Eq, Structural)]
pub struct TextureDesc {
    pub width: u32,
    pub height: u32,
    pub format: u32,
    pub usage: u32,
    pub cpu_access_flags: u32,
}

/// A texture qualifies for direct readback: staging usage, CPU read access
/// granted, and the one supported pixel format.
pub open spec fn staged_readable(desc: TextureDesc) -> bool {
    &&& desc.usage == D3D11_USAGE_STAGING
    &&& desc.cpu_access_flags & D3D11_CPU_ACCESS_READ != 0
    &&& desc.format == DXGI_FORMAT_B8G8R8A8_UNORM
}

/// One in-flight frame, as the readback path sees it: the queried
/// descriptor, and what mapping the texture for read exposes — a row
/// stride and the mapped bytes.
pub struct FrameTexture {
    desc: TextureDesc,
    row_pitch: u32,
    bytes: Vec<u8>,
}

impl FrameTexture {
    /// The descriptor the platform's query reported.
    pub closed spec fn spec_desc(self) -> TextureDesc {
        self.desc
    }

    /// The stride, in bytes, between the starts of consecutive mapped rows.
    pub closed spec fn spec_pitch(self) -> u32 {
        self.row_pitch
    }

    /// The mapped bytes, row after row, each row `spec_pitch()` bytes long.
    pub closed spec fn mapped(self) -> Seq<u8> {
        self.bytes@
    }

    /// A staged, CPU-readable texture carries a consistent mapping: the
    /// pitch covers one packed row, the bytes cover every row, and the
    /// dimensions fit the signed fields of `RawFrameData`.
    #[verifier::type_invariant]
    spec fn mapping_consistent(self) -> bool {
        staged_readable(self.desc) ==> {
            &&& 4 * self.desc.width <= self.row_pitch
            &&& self.bytes@.len() == self.desc.height * self.row_pitch
            &&& self.desc.width <= i32::MAX
            &&& self.desc.height <= i32::MAX
        }
    }

    /// Wraps what a descriptor query and a map-for-read produced. Returns
    /// `None` when the claimed geometry of a staged, CPU-readable texture
    /// does not cover its mapped bytes; a texture that cannot be read back
    /// anyway is taken as it is.
    pub fn new(desc: TextureDesc, row_pitch: u32, bytes: Vec<u8>) -> (r: Option<FrameTexture>)
        ensures
            r is Some <==> (staged_readable(desc) ==> {
                &&& 4 * desc.width <= row_pitch
                &&& bytes@.len() == desc.height * row_pitch
                &&& desc.width <= i32::MAX
                &&& desc.height <= i32::MAX
            }),
            r matches Some(t) ==> {
                &&& t.spec_desc() == desc
                &&& t.spec_pitch() == row_pitch
                &&& t.mapped() == bytes@
            },
    {
        let staged = desc.usage == D3D11_USAGE_STAGING
            && desc.cpu_access_flags & D3D11_CPU_ACCESS_READ != 0
            && desc.format == DXGI_FORMAT_B8G8R8A8_UNORM;
        if staged {
            if desc.width > 0x7fff_ffff || desc.height > 0x7fff_ffff {
                return None;
            }
            let packed_row: u64 = 4u64 * (desc.width as u64);
            if packed_row > row_pitch as u64 {
                return None;
            }
            proof {
                assert((desc.height as int) * (row_pitch as int) < 0x1_0000_0000_0000_0000)
                    by (nonlinear_arith)
                    requires
                        desc.height <= 0xffff_ffffu32,
                        row_pitch <= 0xffff_ffffu32,
                ;
            }
            let covered: u64 = (desc.height as u64) * (row_pitch as u64);
            if bytes.len() as u64 != covered {
                return None;
            }
        }
        Some(FrameTexture { desc, row_pitch, bytes })
    }

    /// The queried descriptor.
    pub fn descriptor(&self) -> (d: TextureDesc)
        ensures
            d == self.spec_desc(),
    {
        self.desc
    }

    /// The stride between the starts of consecutive mapped rows.
    pub fn pitch(&self) -> (p: u32)
        ensures
            p == self.spec_pitch(),
    {
        self.row_pitch
    }
}

/// A tightly packed 32-bit BGRA frame owned by the consumer: `data` holds
/// `height` rows of exactly `width * 4` bytes each, padding stripped.
#[derive(Clone, Debug, Default)]
pub struct RawFrameData {
    pub width: i32,
    pub height: i32,
    pub data: Vec<u8>,
}

/// Index of column byte `col` of row `row` in a tightly packed image of
/// `width` pixels per row.
pub open spec fn packed_index(width: int, row: int, col: int) -> int {
    row * (4 * width) + col
}

/// Index of column byte `col` of row `row` in mapped bytes whose rows are
/// `pitch` bytes apart.
pub open spec fn mapped_index(pitch: int, row: int, col: int) -> int {
    row * pitch + col
}

/// Row-major flattening stays inside the block of full rows.
proof fn lemma_row_major_bound(row: int, col: int, rows: int, row_len: int)
    by (nonlinear_arith)
    requires
        0 <= row < rows,
        0 <= col < row_len,
    ensures
        0 <= row * row_len + col,
        row * row_len + col < rows * row_len,
{
}

/// Converts one in-flight frame into CPU-resident pixel bytes.
///
/// Only a pre-staged, CPU-readable texture in the supported 32-bit BGRA
/// format may be read back directly; anything else fails with the matching
/// error, checked in this order: usage, CPU access, pixel format. On
/// success every row is copied without its padding, so the result is
/// exactly `width * height * 4` bytes.
#[verifier::loop_isolation(false)]
pub fn read_back(texture: &FrameTexture) -> (r: Result<RawFrameData, CaptureError>)
    ensures
        texture.spec_desc().usage != D3D11_USAGE_STAGING ==> r == Err::<RawFrameData, CaptureError>(
            CaptureError::UnsupportedBufferType,
        ),
        texture.spec_desc().usage == D3D11_USAGE_STAGING && texture.spec_desc().cpu_access_flags
            & D3D11_CPU_ACCESS_READ == 0 ==> r == Err::<RawFrameData, CaptureError>(
            CaptureError::DeniedAccessCpuRead,
        ),
        texture.spec_desc().usage == D3D11_USAGE_STAGING && texture.spec_desc().cpu_access_flags
            & D3D11_CPU_ACCESS_READ != 0 && texture.spec_desc().format
            != DXGI_FORMAT_B8G8R8A8_UNORM ==> r == Err::<RawFrameData, CaptureError>(
            CaptureError::UnsupportedPixelFormat(texture.spec_desc().format),
        ),
        r is Ok <==> staged_readable(texture.spec_desc()),
        r matches Ok(frame) ==> {
            let width = texture.spec_desc().width as int;
            let height = texture.spec_desc().height as int;
            &&& frame.width as int == width
            &&& frame.height as int == height
            &&& frame.data@.len() == width * height * 4
            &&& forall|row: int, col: int|
                0 <= row < height && 0 <= col < 4 * width ==> #[trigger] frame.data@[packed_index(
                    width,
                    row,
                    col,
                )] == texture.mapped()[mapped_index(texture.spec_pitch() as int, row, col)]
        },
{
    let desc = texture.descriptor();
    if desc.usage != D3D11_USAGE_STAGING {
        return Err(CaptureError::UnsupportedBufferType);
    }
    if desc.cpu_access_flags & D3D11_CPU_ACCESS_READ == 0 {
        return Err(CaptureError::DeniedAccessCpuRead);
    }
    if desc.format != DXGI_FORMAT_B8G8R8A8_UNORM {
        return Err(CaptureError::UnsupportedPixelFormat(desc.format));
    }
    proof {
        use_type_invariant(texture);
    }
    let width = desc.width;
    let height = desc.height;
    let pitch = texture.pitch();
    let row_bytes: u32 = 4 * width;
    let total: usize = texture.bytes.len();
    let mut data: Vec<u8> = Vec::new();
    let mut row: u32 = 0;
    while row < height
        invariant
            row <= height,
            data@.len() == row * row_bytes,
            forall|i: int, j: int|
                0 <= i < row && 0 <= j < row_bytes ==> #[trigger] data@[packed_index(
                    width as int,
                    i,
                    j,
                )] == texture.mapped()[mapped_index(pitch as int, i, j)],
        decreases height - row,
    {
        proof {
            if row_bytes > 0 {
                lemma_row_major_bound(row as int, 0, height as int, pitch as int);
            }
            assert((row as int) * (pitch as int) <= (height as int) * (pitch as int))
                by (nonlinear_arith)
                requires
                    row <= height,
                    0 <= pitch,
            ;
        }
        let base: usize = (row as usize) * (pitch as usize);
        let mut col: u32 = 0;
        while col < row_bytes
            invariant
                row < height,
                col <= row_bytes,
                base == row * pitch,
                data@.len() == row * row_bytes + col,
                forall|i: int, j: int|
                    0 <= i < row && 0 <= j < row_bytes ==> #[trigger] data@[packed_index(
                        width as int,
                        i,
                        j,
                    )] == texture.mapped()[mapped_index(pitch as int, i, j)],
                forall|j: int|
                    0 <= j < col ==> #[trigger] data@[packed_index(width as int, row as int, j)]
                        == texture.mapped()[mapped_index(pitch as int, row as int, j)],
            decreases row_bytes - col,
        {
            proof {
                lemma_row_major_bound(row as int, col as int, height as int, pitch as int);
            }
            let byte = texture.bytes[base + col as usize];
            data.push(byte);
            let ghost width_i = width as int;
            let ghost pitch_i = pitch as int;
            proof {
                assert forall|i: int, j: int| 0 <= i < row && 0 <= j < row_bytes implies #[trigger] data@[
                    packed_index(width_i, i, j)
                ] == texture.mapped()[mapped_index(pitch_i, i, j)] by {
                    lemma_row_major_bound(i, j, row as int, row_bytes as int);
                }
            }
            col = col + 1;
        }
        proof {
            assert(((row as int) + 1) * (row_bytes as int) == (row as int) * (row_bytes as int)
                + (row_bytes as int)) by (nonlinear_arith);
        }
        row = row + 1;
    }
    proof {
        assert((height as int) * (row_bytes as int) == (width as int) * (height as int) * 4)
            by (nonlinear_arith)
            requires
                row_bytes == 4 * (width as int),
        ;
    }
    Ok(RawFrameData { width: width as i32, height: height as i32, data })
}

} // verus!
