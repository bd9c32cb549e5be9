use master_duel_translayer::bitmap::{
    combine_bmp, decode_bmp, headers_for, is_describable, pixel_bytes, FileHeader, InfoHeader,
    FILE_TYPE, MAX_PIXELS,
};

fn sample_headers() -> (FileHeader, InfoHeader) {
    headers_for(2, 1)
}

fn sample_bytes() -> Vec<u8> {
    let mut expected = vec![
        0x42, 0x4D, // BM
        62, 0, 0, 0, // file size
        0, 0, 0, 0, // reserved
        54, 0, 0, 0, // offset of the pixels
        40, 0, 0, 0, // size of the info header
        2, 0, 0, 0, // width
        1, 0, 0, 0, // height
        1, 0, // planes
        32, 0, // bits per pixel
        0, 0, 0, 0, // compression
        8, 0, 0, 0, // size of the pixels
    ];
    expected.extend_from_slice(&[0u8; 16]);
    expected.extend_from_slice(&[1, 2, 3, 4, 5, 6, 7, 8]);
    expected
}

#[test]
fn headers_describe_an_uncompressed_32_bit_capture() {
    let (file_header, info_header) = headers_for(1920, 1080);
    assert_eq!(
        file_header,
        FileHeader {
            file_type: 0x4D42,
            file_size: 54 + 1920 * 1080 * 4,
            reserved1: 0,
            reserved2: 0,
            pixel_offset: 54,
        }
    );
    assert_eq!(
        info_header,
        InfoHeader {
            header_size: 40,
            width: 1920,
            height: 1080,
            planes: 1,
            bit_count: 32,
            compression: 0,
            image_size: 1920 * 1080 * 4,
            x_pels_per_meter: 0,
            y_pels_per_meter: 0,
            colors_used: 0,
            colors_important: 0,
        }
    );
    assert_eq!(FILE_TYPE, u16::from_le_bytes([b'B', b'M']));
    assert_eq!(pixel_bytes(1920, 1080), 8_294_400);
}

#[test]
fn headers_exist_up_to_the_largest_file_size() {
    assert!(is_describable(0, 0));
    assert!(is_describable(0, i32::MAX));
    assert!(is_describable(MAX_PIXELS as i32, 1));
    assert!(!is_describable(MAX_PIXELS as i32 + 1, 1));
    assert!(!is_describable(-1, 1));
    assert!(!is_describable(1, -1));
    assert!(!is_describable(i32::MAX, i32::MAX));
    let (file_header, info_header) = headers_for(MAX_PIXELS as i32, 1);
    assert_eq!(file_header.file_size, u32::MAX - 1);
    assert_eq!(info_header.image_size, u32::MAX - 55);
}

#[test]
fn layout_is_bit_exact() {
    let (file_header, info_header) = sample_headers();
    let mut buf = Vec::new();
    combine_bmp(&mut buf, &file_header, &info_header, &vec![1, 2, 3, 4, 5, 6, 7, 8]);
    assert_eq!(buf, sample_bytes());
}

#[test]
fn layout_is_appended_to_what_the_buffer_holds() {
    let (file_header, info_header) = sample_headers();
    let mut buf = vec![9, 9];
    combine_bmp(&mut buf, &file_header, &info_header, &vec![1, 2, 3, 4, 5, 6, 7, 8]);
    assert_eq!(&buf[..2], &[9, 9]);
    assert_eq!(&buf[2..], &sample_bytes()[..]);
}

#[test]
fn every_field_is_little_endian() {
    let file_header = FileHeader {
        file_type: 0x0102,
        file_size: 0x0304_0506,
        reserved1: 0x0708,
        reserved2: 0x090A,
        pixel_offset: 0x0B0C_0D0E,
    };
    let info_header = InfoHeader {
        header_size: 0x1112_1314,
        width: -2,
        height: i32::MIN,
        planes: 0x1516,
        bit_count: 0x1718,
        compression: u32::MAX,
        image_size: 0x191A_1B1C,
        x_pels_per_meter: i32::MAX,
        y_pels_per_meter: -1,
        colors_used: 0x2122_2324,
        colors_important: 0x2526_2728,
    };
    let mut buf = Vec::new();
    combine_bmp(&mut buf, &file_header, &info_header, &Vec::new());
    let mut expected = Vec::new();
    expected.extend_from_slice(&file_header.file_type.to_le_bytes());
    expected.extend_from_slice(&file_header.file_size.to_le_bytes());
    expected.extend_from_slice(&file_header.reserved1.to_le_bytes());
    expected.extend_from_slice(&file_header.reserved2.to_le_bytes());
    expected.extend_from_slice(&file_header.pixel_offset.to_le_bytes());
    expected.extend_from_slice(&info_header.header_size.to_le_bytes());
    expected.extend_from_slice(&info_header.width.to_le_bytes());
    expected.extend_from_slice(&info_header.height.to_le_bytes());
    expected.extend_from_slice(&info_header.planes.to_le_bytes());
    expected.extend_from_slice(&info_header.bit_count.to_le_bytes());
    expected.extend_from_slice(&info_header.compression.to_le_bytes());
    expected.extend_from_slice(&info_header.image_size.to_le_bytes());
    expected.extend_from_slice(&info_header.x_pels_per_meter.to_le_bytes());
    expected.extend_from_slice(&info_header.y_pels_per_meter.to_le_bytes());
    expected.extend_from_slice(&info_header.colors_used.to_le_bytes());
    expected.extend_from_slice(&info_header.colors_important.to_le_bytes());
    assert_eq!(buf, expected);
    assert_eq!(&buf[18..22], &[0xFE, 0xFF, 0xFF, 0xFF]);
    assert_eq!(&buf[22..26], &[0x00, 0x00, 0x00, 0x80]);

    let back = decode_bmp(&buf).unwrap();
    assert_eq!(back.file_header, file_header);
    assert_eq!(back.info_header, info_header);
    assert!(back.pixels.is_empty());
}

#[test]
fn encoding_then_decoding_gives_back_the_capture() {
    let (file_header, info_header) = headers_for(3, 2);
    let pixels: Vec<u8> = (0u8..24).collect();
    let mut buf = Vec::new();
    combine_bmp(&mut buf, &file_header, &info_header, &pixels);
    let back = decode_bmp(&buf).unwrap();
    assert_eq!(back.info_header.width, 3);
    assert_eq!(back.info_header.height, 2);
    assert_eq!(back.info_header.bit_count, 32);
    assert_eq!(back.file_header, file_header);
    assert_eq!(back.info_header, info_header);
    assert_eq!(back.pixels, pixels);
}

#[test]
fn decoding_then_encoding_gives_back_the_bytes() {
    let bytes: Vec<u8> = (0..100u32).map(|i| (i * 37 % 251) as u8).collect();
    let shot = decode_bmp(&bytes).unwrap();
    let mut buf = Vec::new();
    combine_bmp(&mut buf, &shot.file_header, &shot.info_header, &shot.pixels);
    assert_eq!(buf, bytes);
}

#[test]
fn encoding_twice_gives_the_same_bytes() {
    let (file_header, info_header) = headers_for(2, 2);
    let pixels: Vec<u8> = (100u8..116).collect();
    let mut first = Vec::new();
    let mut second = Vec::new();
    combine_bmp(&mut first, &file_header, &info_header, &pixels);
    combine_bmp(&mut second, &file_header, &info_header, &pixels.clone());
    assert_eq!(first, second);
}

#[test]
fn bytes_too_few_for_the_headers_decode_to_nothing() {
    assert!(decode_bmp(&[]).is_none());
    assert!(decode_bmp(&sample_bytes()[..53]).is_none());
    let headers_only = decode_bmp(&sample_bytes()[..54]).unwrap();
    assert!(headers_only.pixels.is_empty());
    assert_eq!(headers_only.file_header, sample_headers().0);
}
