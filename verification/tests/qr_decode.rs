use scanner_signature_app::qr_decode::{decode_qr_from_y, first_nonempty_text};

// A version-1 QR code (byte mode, level L, mask 0) holding "ACT-2024".
const MODULES: [&str; 21] = [
    "#######...#.#.#######",
    "#.....#.....#.#.....#",
    "#.###.#.#.#...#.###.#",
    "#.###.#.....#.#.###.#",
    "#.###.#..#.##.#.###.#",
    "#.....#..###..#.....#",
    "#######.#.#.#.#######",
    "........#.#..........",
    "###.#####.#.###...#..",
    ".#.....#..##....##.#.",
    ".####.#.##.#..#.##.##",
    "....#...#..###.##....",
    "##..####.#.#..#.###.#",
    "........#.#...#.#..#.",
    "#######.#...#...#.###",
    "#.....#.###...##.#.#.",
    "#.###.#.#.#.#.#.#....",
    "#.###.#...##.#..#.##.",
    "#.###.#.#..#.##.###.#",
    "#.....#.######.###.#.",
    "#######.#..#.##.##.##",
];

/// The QR code drawn at `scale` pixels per module with a quiet zone of four
/// modules, as a luma image.
fn qr_luma(scale: usize) -> (Vec<u8>, u32) {
    let side = (21 + 8) * scale;
    let mut img = vec![255u8; side * side];
    for (r, row) in MODULES.iter().enumerate() {
        for (c, ch) in row.chars().enumerate() {
            if ch == '#' {
                for dy in 0..scale {
                    for dx in 0..scale {
                        let y = (r + 4) * scale + dy;
                        let x = (c + 4) * scale + dx;
                        img[y * side + x] = 0;
                    }
                }
            }
        }
    }
    (img, side as u32)
}

#[test]
fn decodes_a_qr_code() {
    let (img, side) = qr_luma(4);
    assert_eq!(decode_qr_from_y(&img, side, side), Some("ACT-2024".to_string()));
}

#[test]
fn decodes_a_qr_code_inside_a_wider_frame() {
    let (qr, side) = qr_luma(4);
    let side = side as usize;
    let width = side * 2;
    let mut img = vec![255u8; width * side];
    for y in 0..side {
        for x in 0..side {
            img[y * width + x + side / 2] = qr[y * side + x];
        }
    }
    assert_eq!(decode_qr_from_y(&img, width as u32, side as u32), Some("ACT-2024".to_string()));
}

#[test]
fn blank_frame_has_no_qr_code() {
    let img = vec![200u8; 64 * 48];
    assert_eq!(decode_qr_from_y(&img, 64, 48), None);
}

#[test]
fn empty_frame_has_no_qr_code() {
    assert_eq!(decode_qr_from_y(&[], 0, 0), None);
}

#[test]
fn first_nonempty_text_skips_failures_and_empty_texts() {
    let texts = vec![None, Some(String::new()), Some("SIG-1".to_string()), Some("SIG-2".to_string())];
    assert_eq!(first_nonempty_text(&texts), Some("SIG-1".to_string()));
    assert_eq!(first_nonempty_text(&vec![None, Some(String::new())]), None);
    assert_eq!(first_nonempty_text(&vec![]), None);
}
