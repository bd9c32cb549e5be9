//! The bitmap layout of a captured window.
//!
//! A capture is written as a file header of 14 bytes, an info header of 40
//! bytes and the pixel bytes, every field little-endian, in a fixed order and
//! without padding:
//!
//! | offset | field                 | bytes |
//! |--------|-----------------------|-------|
//! | 0      | file type, `BM`       | 2     |
//! | 2      | file size             | 4     |
//! | 6      | reserved              | 2     |
//! | 8      | reserved              | 2     |
//! | 10     | offset of the pixels  | 4     |
//! | 14     | size of this header   | 4     |
//! | 18     | width, signed         | 4     |
//! | 22     | height, signed        | 4     |
//! | 26     | planes                | 2     |
//! | 28     | bits per pixel        | 2     |
//! | 30     | compression           | 4     |
//! | 34     | size of the pixels    | 4     |
//! | 38     | horizontal resolution | 4     |
//! | 42     | vertical resolution   | 4     |
//! | 46     | colours used          | 4     |
//! | 50     | colours important     | 4     |
//! | 54     | pixel bytes           |       |
//!
//! [`combine_bmp`] writes this layout and [`decode_bmp`] reads it back; the
//! two are inverse to each other.

use vstd::prelude::*;

verus! {

/// The file type tag, the letters `BM` read as a little-endian number.
pub const FILE_TYPE: u16 = 0x4D42;

/// The bytes the file header takes.
pub const FILE_HEADER_SIZE: u32 = 14;

/// The bytes the info header takes.
pub const INFO_HEADER_SIZE: u32 = 40;

/// The bytes one pixel takes.
pub const PIXEL_WIDTH: u64 = 4;

/// The bits one pixel takes.
pub const BIT_COUNT: u16 = 32;

/// The compression tag of uncompressed pixels.
pub const UNCOMPRESSED: u32 = 0;

/// The most pixels a capture can hold, so that the file size fits its field.
pub const MAX_PIXELS: u64 = 1073741810;

/// The first 14 bytes of the layout.
#[derive(Clone, Copy, Debug, PartialEq, Eq, Structural)]
pub struct FileHeader {
    pub file_type: u16,
    pub file_size: u32,
    pub reserved1: u16,
    pub reserved2: u16,
    pub pixel_offset: u32,
}

/// The 40 bytes that describe the pixels.
#[derive(Clone, Copy, Debug, PartialEq, Eq, Structural)]
pub struct InfoHeader {
    pub header_size: u32,
    pub width: i32,
    pub height: i32,
    pub planes: u16,
    pub bit_count: u16,
    pub compression: u32,
    pub image_size: u32,
    pub x_pels_per_meter: i32,
    pub y_pels_per_meter: i32,
    pub colors_used: u32,
    pub colors_important: u32,
}

/// A captured window: the two headers and the pixel bytes they describe.
#[derive(Debug)]
pub struct Screenshot {
    pub file_header: FileHeader,
    pub info_header: InfoHeader,
    pub pixels: Vec<u8>,
}

/// The two bytes of a 16-bit field, least significant first. A negative
/// value gives the bytes of its two's complement.
#[verifier::opaque]
pub open spec fn le16(value: int) -> Seq<u8> {
    seq![(value % 256) as u8, ((value / 256) % 256) as u8]
}

/// The four bytes of a 32-bit field, least significant first. A negative
/// value gives the bytes of its two's complement.
#[verifier::opaque]
pub open spec fn le32(value: int) -> Seq<u8> {
    seq![
        (value % 256) as u8,
        ((value / 256) % 256) as u8,
        ((value / 65536) % 256) as u8,
        ((value / 16777216) % 256) as u8,
    ]
}

/// The unsigned 16-bit field that begins at `at`.
pub open spec fn u16_at(bytes: Seq<u8>, at: int) -> int {
    bytes[at] + 256 * bytes[at + 1]
}

/// The unsigned 32-bit field that begins at `at`.
pub open spec fn u32_at(bytes: Seq<u8>, at: int) -> int {
    bytes[at] + 256 * bytes[at + 1] + 65536 * bytes[at + 2] + 16777216 * bytes[at + 3]
}

/// The signed 32-bit field that begins at `at`.
pub open spec fn i32_at(bytes: Seq<u8>, at: int) -> int {
    let unsigned = u32_at(bytes, at);
    if unsigned < 0x8000_0000 {
        unsigned
    } else {
        unsigned - 0x1_0000_0000
    }
}

/// The 14 bytes of a file header.
pub open spec fn file_header_bytes(header: FileHeader) -> Seq<u8> {
    le16(header.file_type as int) + le32(header.file_size as int) + le16(header.reserved1 as int)
        + le16(header.reserved2 as int) + le32(header.pixel_offset as int)
}

/// The 40 bytes of an info header.
pub open spec fn info_header_bytes(header: InfoHeader) -> Seq<u8> {
    le32(header.header_size as int) + le32(header.width as int) + le32(header.height as int)
        + le16(header.planes as int) + le16(header.bit_count as int) + le32(
        header.compression as int,
    ) + le32(header.image_size as int) + le32(header.x_pels_per_meter as int) + le32(
        header.y_pels_per_meter as int,
    ) + le32(header.colors_used as int) + le32(header.colors_important as int)
}

/// The whole layout: file header, info header, pixel bytes.
pub open spec fn bitmap_bytes(file_header: FileHeader, info_header: InfoHeader, pixels: Seq<u8>) -> Seq<u8> {
    file_header_bytes(file_header) + info_header_bytes(info_header) + pixels
}

/// The file header read off the first 14 bytes.
pub open spec fn file_header_at(bytes: Seq<u8>) -> FileHeader {
    FileHeader {
        file_type: u16_at(bytes, 0) as u16,
        file_size: u32_at(bytes, 2) as u32,
        reserved1: u16_at(bytes, 6) as u16,
        reserved2: u16_at(bytes, 8) as u16,
        pixel_offset: u32_at(bytes, 10) as u32,
    }
}

/// The info header read off the bytes 14 to 53.
pub open spec fn info_header_at(bytes: Seq<u8>) -> InfoHeader {
    InfoHeader {
        header_size: u32_at(bytes, 14) as u32,
        width: i32_at(bytes, 18) as i32,
        height: i32_at(bytes, 22) as i32,
        planes: u16_at(bytes, 26) as u16,
        bit_count: u16_at(bytes, 28) as u16,
        compression: u32_at(bytes, 30) as u32,
        image_size: u32_at(bytes, 34) as u32,
        x_pels_per_meter: i32_at(bytes, 38) as i32,
        y_pels_per_meter: i32_at(bytes, 42) as i32,
        colors_used: u32_at(bytes, 46) as u32,
        colors_important: u32_at(bytes, 50) as u32,
    }
}

/// What the layout holds: nothing where the bytes are too few for the two
/// headers, else the headers and the bytes after them.
pub open spec fn decoded(bytes: Seq<u8>) -> Option<(FileHeader, InfoHeader, Seq<u8>)> {
    if bytes.len() < 54 {
        None
    } else {
        Some((file_header_at(bytes), info_header_at(bytes), bytes.subrange(54, bytes.len() as int)))
    }
}

/// A capture of `width` by `height` pixels has headers: neither dimension is
/// negative, and the file size fits its field.
pub open spec fn describable(width: int, height: int) -> bool {
    0 <= width && 0 <= height && width * height <= MAX_PIXELS
}

/// The file header of an uncompressed capture of `width` by `height` pixels
/// of 32 bits.
pub open spec fn file_header_for(width: int, height: int) -> FileHeader {
    FileHeader {
        file_type: FILE_TYPE,
        file_size: (54 + width * height * 4) as u32,
        reserved1: 0,
        reserved2: 0,
        pixel_offset: 54,
    }
}

/// The info header of an uncompressed capture of `width` by `height` pixels
/// of 32 bits.
pub open spec fn info_header_for(width: int, height: int) -> InfoHeader {
    InfoHeader {
        header_size: 40,
        width: width as i32,
        height: height as i32,
        planes: 1,
        bit_count: 32,
        compression: 0,
        image_size: (width * height * 4) as u32,
        x_pels_per_meter: 0,
        y_pels_per_meter: 0,
        colors_used: 0,
        colors_important: 0,
    }
}

impl Screenshot {
    /// The headers are those of an uncompressed 32-bit capture of the
    /// dimensions they name, and the pixel bytes are as many as they say.
    pub open spec fn well_formed(&self) -> bool {
        let width = self.info_header.width as int;
        let height = self.info_header.height as int;
        &&& describable(width, height)
        &&& self.file_header == file_header_for(width, height)
        &&& self.info_header == info_header_for(width, height)
        &&& self.pixels@.len() == width * height * 4
    }

    /// The capture in the bitmap layout.
    pub open spec fn bytes(&self) -> Seq<u8> {
        bitmap_bytes(self.file_header, self.info_header, self.pixels@)
    }
}

/// Whether a capture of `width` by `height` pixels has headers.
pub fn is_describable(width: i32, height: i32) -> (b: bool)
    ensures
        b == describable(width as int, height as int),
{
    if width < 0 || height < 0 {
        return false;
    }
    assert(0 <= (width as int) * (height as int) <= 0x4000_0000_0000_0000) by (nonlinear_arith)
        requires
            0 <= width <= 0x7fff_ffff,
            0 <= height <= 0x7fff_ffff,
    ;
    let pixels: u64 = (width as u64) * (height as u64);
    pixels <= MAX_PIXELS
}

/// The number of pixel bytes of a capture of `width` by `height` pixels.
pub fn pixel_bytes(width: i32, height: i32) -> (size: u32)
    requires
        describable(width as int, height as int),
    ensures
        size == width * height * 4,
{
    let pixels: u64 = (width as u64) * (height as u64);
    (pixels * PIXEL_WIDTH) as u32
}

/// The headers of an uncompressed capture of `width` by `height` pixels of
/// 32 bits: the pixel bytes begin right after the two headers, and the file
/// size is the headers' size plus the pixels'.
pub fn headers_for(width: i32, height: i32) -> (headers: (FileHeader, InfoHeader))
    requires
        describable(width as int, height as int),
    ensures
        headers.0 == file_header_for(width as int, height as int),
        headers.1 == info_header_for(width as int, height as int),
        headers.0.file_size == 14 + 40 + width * height * 4,
        headers.0.pixel_offset == 14 + 40,
        headers.1.image_size == width * height * 4,
{
    let image_size: u32 = pixel_bytes(width, height);
    let file_header = FileHeader {
        file_type: FILE_TYPE,
        file_size: image_size + FILE_HEADER_SIZE + INFO_HEADER_SIZE,
        reserved1: 0,
        reserved2: 0,
        pixel_offset: FILE_HEADER_SIZE + INFO_HEADER_SIZE,
    };
    let info_header = InfoHeader {
        header_size: INFO_HEADER_SIZE,
        width,
        height,
        planes: 1,
        bit_count: BIT_COUNT,
        compression: UNCOMPRESSED,
        image_size,
        x_pels_per_meter: 0,
        y_pels_per_meter: 0,
        colors_used: 0,
        colors_important: 0,
    };
    (file_header, info_header)
}

/// Appends the two bytes of `value`, least significant first.
fn write_u16(buf: &mut Vec<u8>, value: u16)
    ensures
        final(buf)@ == old(buf)@ + le16(value as int),
{
    buf.push((value % 256) as u8);
    buf.push((value / 256) as u8);
    proof {
        reveal(le16);
    }
    assert(buf@ =~= old(buf)@ + le16(value as int));
}

/// Appends the four bytes of `value`, least significant first.
fn write_u32(buf: &mut Vec<u8>, value: u32)
    ensures
        final(buf)@ == old(buf)@ + le32(value as int),
{
    buf.push((value % 256) as u8);
    buf.push(((value / 256) % 256) as u8);
    buf.push(((value / 65536) % 256) as u8);
    buf.push((value / 16777216) as u8);
    proof {
        reveal(le32);
    }
    assert(buf@ =~= old(buf)@ + le32(value as int));
}

/// Appends the four bytes of the two's complement of `value`, least
/// significant first.
fn write_i32(buf: &mut Vec<u8>, value: i32)
    ensures
        final(buf)@ == old(buf)@ + le32(value as int),
{
    let unsigned: u32 = if value >= 0 {
        value as u32
    } else {
        (value as i64 + 0x1_0000_0000) as u32
    };
    proof {
        lemma_same_digits(value as int);
    }
    write_u32(buf, unsigned);
}

/// Appends a capture in the bitmap layout to `buf`: the fields of the file
/// header, the fields of the info header, then the pixel bytes.
pub fn combine_bmp(
    buf: &mut Vec<u8>,
    file_header: &FileHeader,
    info_header: &InfoHeader,
    data: &Vec<u8>,
)
    ensures
        final(buf)@ == old(buf)@ + bitmap_bytes(*file_header, *info_header, data@),
        final(buf)@.len() == old(buf)@.len() + 54 + data@.len(),
{
    write_u16(buf, file_header.file_type);
    write_u32(buf, file_header.file_size);
    write_u16(buf, file_header.reserved1);
    write_u16(buf, file_header.reserved2);
    write_u32(buf, file_header.pixel_offset);
    assert(buf@ =~= old(buf)@ + file_header_bytes(*file_header));
    let ghost after_file_header = buf@;
    write_u32(buf, info_header.header_size);
    write_i32(buf, info_header.width);
    write_i32(buf, info_header.height);
    write_u16(buf, info_header.planes);
    write_u16(buf, info_header.bit_count);
    write_u32(buf, info_header.compression);
    write_u32(buf, info_header.image_size);
    write_i32(buf, info_header.x_pels_per_meter);
    write_i32(buf, info_header.y_pels_per_meter);
    write_u32(buf, info_header.colors_used);
    write_u32(buf, info_header.colors_important);
    assert(buf@ =~= after_file_header + info_header_bytes(*info_header));
    let ghost after_headers = buf@;
    buf.extend_from_slice(data.as_slice());
    assert(buf@ =~= after_headers + data@);
    assert(buf@ =~= old(buf)@ + bitmap_bytes(*file_header, *info_header, data@));
    proof {
        lemma_bitmap_len(*file_header, *info_header, data@);
    }
}

/// The unsigned 16-bit field that begins at `at`.
fn read_u16(bytes: &[u8], at: usize) -> (value: u16)
    requires
        at + 2 <= bytes@.len(),
    ensures
        value == u16_at(bytes@, at as int),
{
    bytes[at] as u16 + 256 * (bytes[at + 1] as u16)
}

/// The unsigned 32-bit field that begins at `at`.
fn read_u32(bytes: &[u8], at: usize) -> (value: u32)
    requires
        at + 4 <= bytes@.len(),
    ensures
        value == u32_at(bytes@, at as int),
{
    bytes[at] as u32 + 256 * (bytes[at + 1] as u32) + 65536 * (bytes[at + 2] as u32) + 16777216 * (
    bytes[at + 3] as u32)
}

/// The signed 32-bit field that begins at `at`.
fn read_i32(bytes: &[u8], at: usize) -> (value: i32)
    requires
        at + 4 <= bytes@.len(),
    ensures
        value == i32_at(bytes@, at as int),
{
    let unsigned: u32 = read_u32(bytes, at);
    if unsigned < 0x8000_0000 {
        unsigned as i32
    } else {
        (unsigned as i64 - 0x1_0000_0000) as i32
    }
}

/// Reads a capture back from the bitmap layout: `None` where the bytes are
/// too few to hold the two headers, else the headers as written and every
/// byte after them as the pixels.
pub fn decode_bmp(bytes: &[u8]) -> (r: Option<Screenshot>)
    ensures
        r is Some <==> bytes@.len() >= 54,
        match r {
            Some(shot) => decoded(bytes@) == Some((shot.file_header, shot.info_header, shot.pixels@)),
            None => decoded(bytes@) is None,
        },
        r is Some ==> r->Some_0.bytes() == bytes@,
{
    if bytes.len() < 54 {
        return None;
    }
    let file_header = FileHeader {
        file_type: read_u16(bytes, 0),
        file_size: read_u32(bytes, 2),
        reserved1: read_u16(bytes, 6),
        reserved2: read_u16(bytes, 8),
        pixel_offset: read_u32(bytes, 10),
    };
    let info_header = InfoHeader {
        header_size: read_u32(bytes, 14),
        width: read_i32(bytes, 18),
        height: read_i32(bytes, 22),
        planes: read_u16(bytes, 26),
        bit_count: read_u16(bytes, 28),
        compression: read_u32(bytes, 30),
        image_size: read_u32(bytes, 34),
        x_pels_per_meter: read_i32(bytes, 38),
        y_pels_per_meter: read_i32(bytes, 42),
        colors_used: read_u32(bytes, 46),
        colors_important: read_u32(bytes, 50),
    };
    let mut pixels: Vec<u8> = Vec::new();
    let mut at: usize = 54;
    while at < bytes.len()
        invariant
            54 <= at <= bytes@.len(),
            pixels@ == bytes@.subrange(54, at as int),
        decreases bytes@.len() - at,
    {
        pixels.push(bytes[at]);
        at = at + 1;
        assert(pixels@ =~= bytes@.subrange(54, at as int));
    }
    proof {
        lemma_encode_decoded(bytes@);
    }
    Some(Screenshot { file_header, info_header, pixels })
}

/// Reading a 16-bit field that was written gives the value written.
pub proof fn lemma_u16_round_trip(value: int, rest: Seq<u8>)
    requires
        0 <= value < 0x1_0000,
    ensures
        u16_at(le16(value) + rest, 0) == value,
{
    reveal(le16);
}

/// Reading an unsigned 32-bit field that was written gives the value written.
pub proof fn lemma_u32_round_trip(value: int, rest: Seq<u8>)
    requires
        0 <= value < 0x1_0000_0000,
    ensures
        u32_at(le32(value) + rest, 0) == value,
{
    reveal(le32);
    lemma_sum_of_digits(value);
}

/// Reading a signed 32-bit field that was written gives the value written.
pub proof fn lemma_i32_round_trip(value: int, rest: Seq<u8>)
    requires
        -0x8000_0000 <= value < 0x8000_0000,
    ensures
        i32_at(le32(value) + rest, 0) == value,
{
    reveal(le32);
    lemma_sum_of_digits(value);
}

/// The layout is as long as the two headers and the pixels together.
pub proof fn lemma_bitmap_len(file_header: FileHeader, info_header: InfoHeader, pixels: Seq<u8>)
    ensures
        file_header_bytes(file_header).len() == 14,
        info_header_bytes(info_header).len() == 40,
        bitmap_bytes(file_header, info_header, pixels).len() == 54 + pixels.len(),
{
    lemma_field_lengths();
}

/// A 16-bit field takes two bytes, a 32-bit field four.
pub proof fn lemma_field_lengths()
    ensures
        forall|value: int| #[trigger] le16(value).len() == 2,
        forall|value: int| #[trigger] le32(value).len() == 4,
{
    reveal(le16);
    reveal(le32);
}

/// Every field stands at its offset: the bytes of the layout, cut at the
/// offsets of the table, are the fields in little-endian form.
pub proof fn lemma_field_offsets(file_header: FileHeader, info_header: InfoHeader, pixels: Seq<u8>)
    ensures
        ({
            let b = bitmap_bytes(file_header, info_header, pixels);
            &&& b.subrange(0, 2) == le16(file_header.file_type as int)
            &&& b.subrange(2, 6) == le32(file_header.file_size as int)
            &&& b.subrange(6, 8) == le16(file_header.reserved1 as int)
            &&& b.subrange(8, 10) == le16(file_header.reserved2 as int)
            &&& b.subrange(10, 14) == le32(file_header.pixel_offset as int)
            &&& b.subrange(14, 18) == le32(info_header.header_size as int)
            &&& b.subrange(18, 22) == le32(info_header.width as int)
            &&& b.subrange(22, 26) == le32(info_header.height as int)
            &&& b.subrange(26, 28) == le16(info_header.planes as int)
            &&& b.subrange(28, 30) == le16(info_header.bit_count as int)
            &&& b.subrange(30, 34) == le32(info_header.compression as int)
            &&& b.subrange(34, 38) == le32(info_header.image_size as int)
            &&& b.subrange(38, 42) == le32(info_header.x_pels_per_meter as int)
            &&& b.subrange(42, 46) == le32(info_header.y_pels_per_meter as int)
            &&& b.subrange(46, 50) == le32(info_header.colors_used as int)
            &&& b.subrange(50, 54) == le32(info_header.colors_important as int)
            &&& b.subrange(54, b.len() as int) == pixels
        }),
{
    let b = bitmap_bytes(file_header, info_header, pixels);
    lemma_field_lengths();
    assert(b.subrange(0, 2) =~= le16(file_header.file_type as int));
    assert(b.subrange(2, 6) =~= le32(file_header.file_size as int));
    assert(b.subrange(6, 8) =~= le16(file_header.reserved1 as int));
    assert(b.subrange(8, 10) =~= le16(file_header.reserved2 as int));
    assert(b.subrange(10, 14) =~= le32(file_header.pixel_offset as int));
    assert(b.subrange(14, 18) =~= le32(info_header.header_size as int));
    assert(b.subrange(18, 22) =~= le32(info_header.width as int));
    assert(b.subrange(22, 26) =~= le32(info_header.height as int));
    assert(b.subrange(26, 28) =~= le16(info_header.planes as int));
    assert(b.subrange(28, 30) =~= le16(info_header.bit_count as int));
    assert(b.subrange(30, 34) =~= le32(info_header.compression as int));
    assert(b.subrange(34, 38) =~= le32(info_header.image_size as int));
    assert(b.subrange(38, 42) =~= le32(info_header.x_pels_per_meter as int));
    assert(b.subrange(42, 46) =~= le32(info_header.y_pels_per_meter as int));
    assert(b.subrange(46, 50) =~= le32(info_header.colors_used as int));
    assert(b.subrange(50, 54) =~= le32(info_header.colors_important as int));
    assert(b.subrange(54, b.len() as int) =~= pixels);
}

/// The headers of a well-formed capture say what its layout is: the file
/// size is the length of the layout, the pixels begin where the headers say,
/// and they are as many as the headers say.
pub proof fn lemma_headers_describe_layout(shot: Screenshot)
    requires
        shot.well_formed(),
    ensures
        shot.bytes().len() == shot.file_header.file_size,
        shot.file_header.file_type == FILE_TYPE,
        shot.file_header.pixel_offset == 54,
        shot.info_header.header_size == 40,
        shot.info_header.bit_count == 32,
        shot.info_header.compression == UNCOMPRESSED,
        shot.info_header.image_size == shot.pixels@.len(),
        shot.bytes().subrange(shot.file_header.pixel_offset as int, shot.bytes().len() as int)
            == shot.pixels@,
{
    lemma_bitmap_len(shot.file_header, shot.info_header, shot.pixels@);
    lemma_field_offsets(shot.file_header, shot.info_header, shot.pixels@);
    let width = shot.info_header.width as int;
    let height = shot.info_header.height as int;
    assert(0 <= width * height * 4 <= 4 * MAX_PIXELS) by (nonlinear_arith)
        requires
            0 <= width,
            0 <= height,
            width * height <= MAX_PIXELS,
    ;
}

/// A capture that is written in the bitmap layout and read back comes out
/// with every header field and every pixel byte as it went in: the width,
/// the height, the bits per pixel and the pixels among them.
pub proof fn lemma_decode_encoded(file_header: FileHeader, info_header: InfoHeader, pixels: Seq<u8>)
    ensures
        decoded(bitmap_bytes(file_header, info_header, pixels)) == Some(
            (file_header, info_header, pixels),
        ),
{
    let b = bitmap_bytes(file_header, info_header, pixels);
    lemma_bitmap_len(file_header, info_header, pixels);
    lemma_field_offsets(file_header, info_header, pixels);
    lemma_field_at_16(b, 0, file_header.file_type as int);
    lemma_field_at_32(b, 2, file_header.file_size as int);
    lemma_field_at_16(b, 6, file_header.reserved1 as int);
    lemma_field_at_16(b, 8, file_header.reserved2 as int);
    lemma_field_at_32(b, 10, file_header.pixel_offset as int);
    lemma_field_at_32(b, 14, info_header.header_size as int);
    lemma_field_at_32(b, 18, info_header.width as int);
    lemma_field_at_32(b, 22, info_header.height as int);
    lemma_field_at_16(b, 26, info_header.planes as int);
    lemma_field_at_16(b, 28, info_header.bit_count as int);
    lemma_field_at_32(b, 30, info_header.compression as int);
    lemma_field_at_32(b, 34, info_header.image_size as int);
    lemma_field_at_32(b, 38, info_header.x_pels_per_meter as int);
    lemma_field_at_32(b, 42, info_header.y_pels_per_meter as int);
    lemma_field_at_32(b, 46, info_header.colors_used as int);
    lemma_field_at_32(b, 50, info_header.colors_important as int);
    assert(file_header_at(b) == file_header);
    assert(info_header_at(b) == info_header);
}

/// The bytes from which a capture was read are the layout of that capture:
/// reading loses nothing.
pub proof fn lemma_encode_decoded(bytes: Seq<u8>)
    requires
        bytes.len() >= 54,
    ensures
        bitmap_bytes(file_header_at(bytes), info_header_at(bytes), bytes.subrange(54, bytes.len() as int))
            == bytes,
{
    let file_header = file_header_at(bytes);
    let info_header = info_header_at(bytes);
    let b = bitmap_bytes(file_header, info_header, bytes.subrange(54, bytes.len() as int));
    lemma_bitmap_len(file_header, info_header, bytes.subrange(54, bytes.len() as int));
    assert(b.len() == bytes.len());
    assert forall|i: int| 0 <= i < bytes.len() implies b[i] == bytes[i] by {
        if i < 54 {
            lemma_bytes_of_field_16(bytes, 0);
            lemma_bytes_of_field_32(bytes, 2);
            lemma_bytes_of_field_16(bytes, 6);
            lemma_bytes_of_field_16(bytes, 8);
            lemma_bytes_of_field_32(bytes, 10);
            lemma_bytes_of_field_32(bytes, 14);
            lemma_bytes_of_field_32(bytes, 18);
            lemma_bytes_of_field_32(bytes, 22);
            lemma_bytes_of_field_16(bytes, 26);
            lemma_bytes_of_field_16(bytes, 28);
            lemma_bytes_of_field_32(bytes, 30);
            lemma_bytes_of_field_32(bytes, 34);
            lemma_bytes_of_field_32(bytes, 38);
            lemma_bytes_of_field_32(bytes, 42);
            lemma_bytes_of_field_32(bytes, 46);
            lemma_bytes_of_field_32(bytes, 50);
        }
    }
    assert(b =~= bytes);
}

/// Two captures that agree in every header field and every pixel byte have
/// the same layout, byte for byte: the layout depends on nothing else.
pub proof fn lemma_encoding_deterministic(
    file_header1: FileHeader,
    info_header1: InfoHeader,
    pixels1: Seq<u8>,
    file_header2: FileHeader,
    info_header2: InfoHeader,
    pixels2: Seq<u8>,
)
    requires
        file_header1 == file_header2,
        info_header1 == info_header2,
        pixels1 =~= pixels2,
    ensures
        bitmap_bytes(file_header1, info_header1, pixels1) == bitmap_bytes(
            file_header2,
            info_header2,
            pixels2,
        ),
{
}

/// No two captures share a layout: equal bytes come from equal headers and
/// equal pixels.
pub proof fn lemma_encoding_injective(
    file_header1: FileHeader,
    info_header1: InfoHeader,
    pixels1: Seq<u8>,
    file_header2: FileHeader,
    info_header2: InfoHeader,
    pixels2: Seq<u8>,
)
    requires
        bitmap_bytes(file_header1, info_header1, pixels1) == bitmap_bytes(
            file_header2,
            info_header2,
            pixels2,
        ),
    ensures
        file_header1 == file_header2,
        info_header1 == info_header2,
        pixels1 == pixels2,
{
    lemma_decode_encoded(file_header1, info_header1, pixels1);
    lemma_decode_encoded(file_header2, info_header2, pixels2);
}

/// A 16-bit field that stands at `at` in little-endian form is read there
/// as the value it holds.
proof fn lemma_field_at_16(bytes: Seq<u8>, at: int, value: int)
    requires
        0 <= at,
        at + 2 <= bytes.len(),
        0 <= value < 0x1_0000,
        bytes.subrange(at, at + 2) == le16(value),
    ensures
        u16_at(bytes, at) == value,
{
    reveal(le16);
    let field = bytes.subrange(at, at + 2);
    assert(field[0] == bytes[at]);
    assert(field[1] == bytes[at + 1]);
}

/// A 32-bit field that stands at `at` in little-endian form is read there
/// as the value it holds, unsigned or signed.
proof fn lemma_field_at_32(bytes: Seq<u8>, at: int, value: int)
    requires
        0 <= at,
        at + 4 <= bytes.len(),
        -0x8000_0000 <= value < 0x1_0000_0000,
        bytes.subrange(at, at + 4) == le32(value),
    ensures
        0 <= value ==> u32_at(bytes, at) == value,
        value < 0x8000_0000 ==> i32_at(bytes, at) == value,
{
    reveal(le32);
    let field = bytes.subrange(at, at + 4);
    assert(field[0] == bytes[at]);
    assert(field[1] == bytes[at + 1]);
    assert(field[2] == bytes[at + 2]);
    assert(field[3] == bytes[at + 3]);
    lemma_sum_of_digits(value);
}

/// The little-endian form of the 16-bit field read at `at` is the two bytes
/// that stand there.
proof fn lemma_bytes_of_field_16(bytes: Seq<u8>, at: int)
    requires
        0 <= at,
        at + 2 <= bytes.len(),
    ensures
        le16(u16_at(bytes, at)) == bytes.subrange(at, at + 2),
        0 <= u16_at(bytes, at) < 0x1_0000,
{
    reveal(le16);
    assert(le16(u16_at(bytes, at)) =~= bytes.subrange(at, at + 2));
}

/// The little-endian form of the 32-bit field read at `at`, unsigned or
/// signed, is the four bytes that stand there.
proof fn lemma_bytes_of_field_32(bytes: Seq<u8>, at: int)
    requires
        0 <= at,
        at + 4 <= bytes.len(),
    ensures
        le32(u32_at(bytes, at)) == bytes.subrange(at, at + 4),
        le32(i32_at(bytes, at)) == bytes.subrange(at, at + 4),
        0 <= u32_at(bytes, at) < 0x1_0000_0000,
        -0x8000_0000 <= i32_at(bytes, at) < 0x8000_0000,
{
    reveal(le32);
    lemma_digits_of_sum(
        bytes[at] as int,
        bytes[at + 1] as int,
        bytes[at + 2] as int,
        bytes[at + 3] as int,
    );
    assert(le32(u32_at(bytes, at)) =~= bytes.subrange(at, at + 4));
    assert(le32(i32_at(bytes, at)) =~= bytes.subrange(at, at + 4));
}

/// A negative number of 32 bits and its two's complement have the same
/// base-256 digits.
proof fn lemma_same_digits(value: int)
    ensures
        le32(value + 0x1_0000_0000) == le32(value),
{
    reveal(le32);
    lemma_shifted_digits(value);
    assert(le32(value + 0x1_0000_0000) =~= le32(value));
}

/// Adding two to the power of 32 changes none of the four lowest base-256
/// digits.
proof fn lemma_shifted_digits(value: int)
    ensures
        (value + 0x1_0000_0000) % 256 == value % 256,
        ((value + 0x1_0000_0000) / 256) % 256 == (value / 256) % 256,
        ((value + 0x1_0000_0000) / 65536) % 256 == (value / 65536) % 256,
        ((value + 0x1_0000_0000) / 16777216) % 256 == (value / 16777216) % 256,
{
    let w = value + 0x1_0000_0000;
    vstd::arithmetic::div_mod::lemma_hoist_over_denominator(value, 16777216, 256);
    vstd::arithmetic::div_mod::lemma_hoist_over_denominator(value, 65536, 65536);
    vstd::arithmetic::div_mod::lemma_hoist_over_denominator(value, 256, 16777216);
    assert(w / 256 == value / 256 + 16777216);
    assert(w / 65536 == value / 65536 + 65536);
    assert(w / 16777216 == value / 16777216 + 256);
    vstd::arithmetic::div_mod::lemma_mod_multiples_vanish(16777216, value, 256);
    vstd::arithmetic::div_mod::lemma_mod_multiples_vanish(65536, value / 256, 256);
    vstd::arithmetic::div_mod::lemma_mod_multiples_vanish(256, value / 65536, 256);
    vstd::arithmetic::div_mod::lemma_mod_multiples_vanish(1, value / 16777216, 256);
}

/// The base-256 digits of a number that is put together from four digits
/// are those digits, also where the number is read as a two's complement.
proof fn lemma_digits_of_sum(b0: int, b1: int, b2: int, b3: int)
    requires
        0 <= b0 < 256,
        0 <= b1 < 256,
        0 <= b2 < 256,
        0 <= b3 < 256,
    ensures
        ({
            let v = b0 + 256 * b1 + 65536 * b2 + 16777216 * b3;
            &&& 0 <= v < 0x1_0000_0000
            &&& v % 256 == b0
            &&& (v / 256) % 256 == b1
            &&& (v / 65536) % 256 == b2
            &&& (v / 16777216) % 256 == b3
            &&& (v - 0x1_0000_0000) % 256 == b0
            &&& ((v - 0x1_0000_0000) / 256) % 256 == b1
            &&& ((v - 0x1_0000_0000) / 65536) % 256 == b2
            &&& ((v - 0x1_0000_0000) / 16777216) % 256 == b3
        }),
{
    let v = b0 + 256 * b1 + 65536 * b2 + 16777216 * b3;
    let w = v - 0x1_0000_0000;
    assert(v / 256 == b1 + 256 * b2 + 65536 * b3);
    assert(v / 65536 == b2 + 256 * b3);
    assert(v / 16777216 == b3);
    assert(w / 256 == b1 + 256 * b2 + 65536 * b3 - 16777216);
    assert(w / 65536 == b2 + 256 * b3 - 65536);
    assert(w / 16777216 == b3 - 256);
}

/// A number of 32 bits, unsigned or signed, is put together from its four
/// base-256 digits.
proof fn lemma_sum_of_digits(value: int)
    requires
        -0x8000_0000 <= value < 0x1_0000_0000,
    ensures
        ({
            let sum = value % 256 + 256 * ((value / 256) % 256) + 65536 * ((value / 65536) % 256)
                + 16777216 * ((value / 16777216) % 256);
            &&& 0 <= value ==> sum == value
            &&& value < 0 ==> sum == value + 0x1_0000_0000
        }),
{
    let q1 = value / 256;
    let q2 = value / 65536;
    let q3 = value / 16777216;
    assert(q2 == q1 / 256);
    assert(q3 == q2 / 256);
    assert(value == 256 * q1 + value % 256);
    assert(q1 == 256 * q2 + q1 % 256);
    assert(q2 == 256 * q3 + q2 % 256);
    assert(-128 <= q3 < 256);
}

} // verus!
