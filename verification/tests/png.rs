use match_ticket::png::check_palettes;

const SIGNATURE: [u8; 8] = [0x89, b'P', b'N', b'G', 0x0d, 0x0a, 0x1a, 0x0a];

/// A chunk with the given type and data. The checksum is not a true one:
/// the walk does not read it.
fn chunk(kind: &[u8; 4], data: &[u8]) -> Vec<u8> {
    let mut out = (data.len() as u32).to_be_bytes().to_vec();
    out.extend_from_slice(kind);
    out.extend_from_slice(data);
    out.extend_from_slice(&[0xaa, 0xbb, 0xcc, 0xdd]);
    out
}

fn file(chunks: &[Vec<u8>]) -> Vec<u8> {
    let mut out = SIGNATURE.to_vec();
    for chunk in chunks {
        out.extend_from_slice(chunk);
    }
    out
}

#[test]
fn a_file_without_chunks_has_no_palette_to_object_to() {
    assert!(check_palettes(b""));
    assert!(check_palettes(&SIGNATURE[..5]));
    assert!(check_palettes(&SIGNATURE));
}

#[test]
fn a_file_without_a_palette_passes() {
    assert!(check_palettes(&file(&[chunk(b"IHDR", &[0; 13]), chunk(b"IEND", b"")])));
}

#[test]
fn a_palette_of_whole_colours_passes() {
    assert!(check_palettes(&file(&[chunk(b"PLTE", &[])])));
    assert!(check_palettes(&file(&[chunk(b"PLTE", &[1, 2, 3])])));
    assert!(check_palettes(&file(&[chunk(b"IHDR", &[0; 13]), chunk(b"PLTE", &[7; 30])])));
}

#[test]
fn a_palette_of_256_colours_is_the_largest_that_passes() {
    assert!(check_palettes(&file(&[chunk(b"PLTE", &[0; 768])])));
    assert!(!check_palettes(&file(&[chunk(b"PLTE", &[0; 771])])));
    assert!(!check_palettes(&file(&[chunk(b"PLTE", &[0; 769])])));
}

#[test]
fn a_palette_that_ends_within_a_colour_does_not_pass() {
    assert!(!check_palettes(&file(&[chunk(b"PLTE", &[1])])));
    assert!(!check_palettes(&file(&[chunk(b"PLTE", &[1, 2])])));
    assert!(!check_palettes(&file(&[chunk(b"PLTE", &[1, 2, 3, 4])])));
    assert!(!check_palettes(&file(&[chunk(b"PLTE", &[1, 2, 3, 4, 5])])));
}

#[test]
fn a_palette_is_found_behind_other_chunks() {
    let chunks = [
        chunk(b"IHDR", &[0; 13]),
        chunk(b"gAMA", &[0; 4]),
        chunk(b"PLTE", &[0; 4]),
        chunk(b"IEND", b""),
    ];
    assert!(!check_palettes(&file(&chunks)));
}

#[test]
fn every_palette_is_looked_at() {
    let chunks = [chunk(b"PLTE", &[0; 3]), chunk(b"IDAT", &[0; 9]), chunk(b"PLTE", &[0; 5])];
    assert!(!check_palettes(&file(&chunks)));
}

#[test]
fn a_palette_that_is_cut_short_is_still_held_to_its_length() {
    let mut bytes = file(&[chunk(b"PLTE", &[0; 4])]);
    bytes.truncate(8 + 8 + 2);
    assert!(!check_palettes(&bytes));
    let mut bytes = file(&[chunk(b"PLTE", &[0; 6])]);
    bytes.truncate(8 + 8 + 2);
    assert!(check_palettes(&bytes));
}

#[test]
fn a_chunk_header_that_is_cut_short_is_not_looked_at() {
    let mut bytes = file(&[chunk(b"PLTE", &[0; 4])]);
    bytes.truncate(8 + 7);
    assert!(check_palettes(&bytes));
}

#[test]
fn the_data_of_a_chunk_is_not_taken_for_chunks() {
    let inner = chunk(b"PLTE", &[0; 4]);
    assert!(check_palettes(&file(&[chunk(b"tEXt", &inner), chunk(b"IEND", b"")])));
}

#[test]
fn a_chunk_that_claims_more_than_the_file_holds_ends_the_walk() {
    let mut bytes = SIGNATURE.to_vec();
    bytes.extend_from_slice(&[0xff, 0xff, 0xff, 0xff]);
    bytes.extend_from_slice(b"IDAT");
    bytes.extend_from_slice(&chunk(b"PLTE", &[0; 4]));
    assert!(check_palettes(&bytes));
}

#[test]
fn the_length_is_read_with_the_most_significant_byte_first() {
    let mut bytes = SIGNATURE.to_vec();
    bytes.extend_from_slice(&[0, 0, 3, 0]);
    bytes.extend_from_slice(b"PLTE");
    bytes.extend_from_slice(&[0; 768 + 4]);
    assert!(check_palettes(&bytes));
    let mut bytes = SIGNATURE.to_vec();
    bytes.extend_from_slice(&[0, 3, 0, 0]);
    bytes.extend_from_slice(b"PLTE");
    assert!(!check_palettes(&bytes));
}

#[test]
fn the_type_is_told_by_all_four_letters() {
    assert!(check_palettes(&file(&[chunk(b"PLTF", &[0; 4])])));
    assert!(check_palettes(&file(&[chunk(b"pLTE", &[0; 4])])));
    assert!(check_palettes(&file(&[chunk(b"QLTE", &[0; 4])])));
    assert!(check_palettes(&file(&[chunk(b"PMTE", &[0; 4])])));
}
