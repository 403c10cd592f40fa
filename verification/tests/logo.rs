use match_ticket::error::TicketError;
use match_ticket::logo::{measure_logo, LogoSize};
use std::io::Cursor;

fn png(width: u32, height: u32) -> Vec<u8> {
    let picture = image::DynamicImage::ImageRgba8(image::RgbaImage::new(width, height));
    let mut bytes = Vec::new();
    picture
        .write_to(&mut Cursor::new(&mut bytes), image::ImageOutputFormat::Png)
        .expect("a blank picture can be encoded");
    bytes
}

fn bitmap(width: u32, height: u32) -> Vec<u8> {
    let picture = image::DynamicImage::ImageRgba8(image::RgbaImage::new(width, height));
    let mut bytes = Vec::new();
    picture
        .write_to(&mut Cursor::new(&mut bytes), image::ImageOutputFormat::Bmp)
        .expect("a blank picture can be encoded");
    bytes
}

#[test]
fn measure_logo_reads_width_and_height() {
    assert_eq!(measure_logo(&png(3, 5)), Ok(LogoSize { width: 3, height: 5 }));
    assert_eq!(measure_logo(&png(640, 480)), Ok(LogoSize { width: 640, height: 480 }));
}

#[test]
fn measure_logo_refuses_what_is_no_picture() {
    assert_eq!(measure_logo(b"not a picture"), Err(TicketError::Decode));
    assert_eq!(measure_logo(b""), Err(TicketError::Decode));
}

#[test]
fn measure_logo_refuses_a_picture_cut_short() {
    let whole = png(16, 16);
    assert_eq!(measure_logo(&whole[..whole.len() / 2]), Err(TicketError::Decode));
}

#[test]
fn measure_logo_refuses_another_format() {
    assert_eq!(measure_logo(&bitmap(4, 4)), Err(TicketError::Decode));
}

fn crc32(data: &[u8]) -> u32 {
    let mut crc = 0xffff_ffffu32;
    for &byte in data {
        crc ^= byte as u32;
        for _ in 0..8 {
            crc = if crc & 1 == 1 { (crc >> 1) ^ 0xedb8_8320 } else { crc >> 1 };
        }
    }
    !crc
}

fn adler32(data: &[u8]) -> u32 {
    let (mut low, mut high) = (1u32, 0u32);
    for &byte in data {
        low = (low + byte as u32) % 65521;
        high = (high + low) % 65521;
    }
    (high << 16) | low
}

fn chunk(kind: &[u8; 4], data: &[u8]) -> Vec<u8> {
    let mut out = (data.len() as u32).to_be_bytes().to_vec();
    out.extend_from_slice(kind);
    out.extend_from_slice(data);
    let mut checked = kind.to_vec();
    checked.extend_from_slice(data);
    out.extend_from_slice(&crc32(&checked).to_be_bytes());
    out
}

/// A zlib stream that holds `data` as it is, in one stored block.
fn stored(data: &[u8]) -> Vec<u8> {
    let length = data.len() as u16;
    let mut out = vec![0x78, 0x01, 0x01];
    out.extend_from_slice(&length.to_le_bytes());
    out.extend_from_slice(&(!length).to_le_bytes());
    out.extend_from_slice(data);
    out.extend_from_slice(&adler32(data).to_be_bytes());
    out
}

/// A picture of one pixel, of the given colour type with eight bits a
/// sample, with a palette chunk that holds `palette`.
fn one_pixel(colour_type: u8, samples: usize, palette: &[u8]) -> Vec<u8> {
    let mut out = vec![0x89, b'P', b'N', b'G', 0x0d, 0x0a, 0x1a, 0x0a];
    out.extend(chunk(b"IHDR", &[0, 0, 0, 1, 0, 0, 0, 1, 8, colour_type, 0, 0, 0]));
    out.extend(chunk(b"PLTE", palette));
    out.extend(chunk(b"IDAT", &stored(&vec![0; 1 + samples])));
    out.extend(chunk(b"IEND", b""));
    out
}

#[test]
fn measure_logo_reads_a_picture_with_a_palette() {
    assert_eq!(measure_logo(&one_pixel(3, 1, &[10, 20, 30])), Ok(LogoSize { width: 1, height: 1 }));
}

#[test]
fn measure_logo_reads_a_picture_with_a_full_palette() {
    assert_eq!(measure_logo(&one_pixel(3, 1, &[0; 768])), Ok(LogoSize { width: 1, height: 1 }));
}

#[test]
fn measure_logo_refuses_a_palette_that_ends_within_a_colour() {
    assert_eq!(measure_logo(&one_pixel(3, 1, &[10, 20, 30, 40])), Err(TicketError::Decode));
    assert_eq!(measure_logo(&one_pixel(3, 1, &[10, 20, 30, 40, 50])), Err(TicketError::Decode));
    assert_eq!(measure_logo(&one_pixel(3, 1, &[10])), Err(TicketError::Decode));
}

#[test]
fn measure_logo_refuses_a_palette_of_more_than_256_colours() {
    assert_eq!(measure_logo(&one_pixel(3, 1, &[0; 771])), Err(TicketError::Decode));
    assert_eq!(measure_logo(&one_pixel(3, 1, &[0; 769])), Err(TicketError::Decode));
}

#[test]
fn measure_logo_holds_the_palette_of_a_picture_without_indices_to_the_same_lengths() {
    assert_eq!(measure_logo(&one_pixel(2, 3, &[1, 2, 3])), Ok(LogoSize { width: 1, height: 1 }));
    assert_eq!(measure_logo(&one_pixel(2, 3, &[1, 2, 3, 4])), Err(TicketError::Decode));
}
