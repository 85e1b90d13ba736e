use hover_dict::icon::get_cat_icon;
use hover_dict::palette::check_palettes;

/// A bitmap of a red and a green pixel.
fn bitmap() -> Vec<u8> {
    let mut b: Vec<u8> = Vec::new();
    b.extend(b"BM");
    b.extend(62u32.to_le_bytes());
    b.extend(0u32.to_le_bytes());
    b.extend(54u32.to_le_bytes());
    b.extend(40u32.to_le_bytes());
    b.extend(2i32.to_le_bytes());
    b.extend(1i32.to_le_bytes());
    b.extend(1u16.to_le_bytes());
    b.extend(24u16.to_le_bytes());
    b.extend(0u32.to_le_bytes());
    b.extend(8u32.to_le_bytes());
    b.extend([0u8; 16]);
    b.extend([0, 0, 255, 0, 255, 0, 0, 0]);
    b
}

#[test]
fn pixels_of_a_bitmap() {
    let icon = get_cat_icon(&bitmap()).unwrap();
    assert_eq!((icon.width, icon.height), (2, 1));
    assert_eq!(icon.rgba, [255, 0, 0, 255, 0, 255, 0, 255]);
}

#[test]
fn no_image_no_icon() {
    assert!(get_cat_icon(&[]).is_none());
    assert!(get_cat_icon(b"not an image").is_none());
    assert!(get_cat_icon(&bitmap()[..20]).is_none());
}

/// A chunk of a PNG file: its length, its name, its data and their checksum.
fn chunk(name: &[u8; 4], data: &[u8]) -> Vec<u8> {
    let mut crc = u32::MAX;
    for byte in name.iter().chain(data) {
        crc ^= u32::from(*byte);
        for _ in 0..8 {
            crc = if crc & 1 == 1 { (crc >> 1) ^ 0xedb8_8320 } else { crc >> 1 };
        }
    }
    let mut c = (data.len() as u32).to_be_bytes().to_vec();
    c.extend(name);
    c.extend(data);
    c.extend((!crc).to_be_bytes());
    c
}

const SIGNATURE: &[u8; 8] = b"\x89PNG\r\n\x1a\n";

/// The header of a PNG file of one pixel.
fn header(color_type: u8) -> Vec<u8> {
    chunk(b"IHDR", &[0, 0, 0, 1, 0, 0, 0, 1, 8, color_type, 0, 0, 0])
}

/// The pixel of a PNG file.
fn pixels(pixel: &[u8]) -> Vec<u8> {
    let length = pixel.len() as u16 + 1;
    let mut data = vec![0x78, 0x01, 0x01];
    data.extend(length.to_le_bytes());
    data.extend((!length).to_le_bytes());
    data.push(0);
    data.extend(pixel);
    data.extend([0; 4]);
    chunk(b"IDAT", &data)
}

/// A PNG file of one pixel.
fn png(color_type: u8, palette: Option<&[u8]>, pixel: &[u8]) -> Vec<u8> {
    let mut f = SIGNATURE.to_vec();
    f.extend(header(color_type));
    if let Some(palette) = palette {
        f.extend(chunk(b"PLTE", palette));
    }
    f.extend(pixels(pixel));
    f.extend(chunk(b"IEND", &[]));
    f
}

/// An icon file that holds images of one pixel, each with its depth in bits.
fn icons(images: &[(u8, Vec<u8>)]) -> Vec<u8> {
    let mut f = vec![0, 0, 1, 0, images.len() as u8, 0];
    let mut at = 6 + 16 * images.len();
    for (depth, image) in images {
        f.extend([1, 1, 0, 0, 1, 0, *depth, 0]);
        f.extend((image.len() as u32).to_le_bytes());
        f.extend((at as u32).to_le_bytes());
        at += image.len();
    }
    for (_, image) in images {
        f.extend(image);
    }
    f
}

fn ico(image: &[u8]) -> Vec<u8> {
    icons(&[(32, image.to_vec())])
}

#[test]
fn pixels_of_an_icon_file() {
    let icon = get_cat_icon(&ico(&png(6, None, &[1, 2, 3, 4]))).unwrap();
    assert_eq!((icon.width, icon.height), (1, 1));
    assert_eq!(icon.rgba, [1, 2, 3, 4]);
}

#[test]
fn pixels_by_palette() {
    let one = png(3, Some(&[7, 8, 9]), &[0]);
    assert!(check_palettes(&one));
    assert_eq!(get_cat_icon(&one).unwrap().rgba, [7, 8, 9, 255]);
    let mut colors = vec![0; 765];
    colors.extend([10, 20, 30]);
    let full = png(3, Some(&colors), &[255]);
    assert!(check_palettes(&full));
    assert_eq!(get_cat_icon(&full).unwrap().rgba, [10, 20, 30, 255]);
}

#[test]
fn no_icon_of_a_broken_palette() {
    let part = png(3, Some(&[7, 8, 9, 10]), &[0]);
    assert!(!check_palettes(&part));
    assert!(get_cat_icon(&part).is_none());
    let long = png(3, Some(&[0; 771]), &[0]);
    assert!(!check_palettes(&long));
    assert!(get_cat_icon(&long).is_none());
    assert!(get_cat_icon(&ico(&part)).is_none());
    assert!(get_cat_icon(&png(3, None, &[0])).is_none());
}

/// A PNG file of one pixel with a transparent palette of four bytes.
fn misfit() -> Vec<u8> {
    let mut f = SIGNATURE.to_vec();
    f.extend(header(3));
    f.extend(chunk(b"PLTE", &[7, 8, 9, 10]));
    f.extend(chunk(b"tRNS", &[0]));
    f.extend(pixels(&[0]));
    f.extend(chunk(b"IEND", &[]));
    f
}

#[test]
fn pixels_that_read_like_a_palette() {
    let mut file = bitmap();
    let at = file.len() - 8;
    file[at..].copy_from_slice(b"\x00\x00\x00\x01PLTE");
    assert!(check_palettes(&file));
    let icon = get_cat_icon(&file).unwrap();
    assert_eq!(icon.rgba, [0, 0, 0, 255, 0x4c, 0x50, 1, 255]);
}

#[test]
fn palette_without_use() {
    let colors = png(2, Some(&[7, 8, 9, 10]), &[1, 2, 3]);
    assert!(check_palettes(&colors));
    assert_eq!(get_cat_icon(&colors).unwrap().rgba, [1, 2, 3, 255]);
    let mut late = SIGNATURE.to_vec();
    late.extend(header(3));
    late.extend(chunk(b"PLTE", &[7, 8, 9]));
    late.extend(pixels(&[0]));
    late.extend(chunk(b"PLTE", &[1]));
    late.extend(chunk(b"IEND", &[]));
    assert!(check_palettes(&late));
    assert_eq!(get_cat_icon(&late).unwrap().rgba, [7, 8, 9, 255]);
}

#[test]
fn palette_behind_an_empty_header() {
    let mut file = SIGNATURE.to_vec();
    file.extend(chunk(b"IHDR", &[]));
    file.extend(header(3));
    file.extend(chunk(b"PLTE", &[7, 8, 9, 10]));
    file.extend(pixels(&[0]));
    assert!(!check_palettes(&file));
    assert!(get_cat_icon(&file).is_none());
}

#[test]
fn only_the_best_image_of_an_icon_file_counts() {
    let good = png(6, None, &[1, 2, 3, 4]);
    let other = png(6, None, &[5, 6, 7, 8]);
    let file = icons(&[(32, good.clone()), (8, misfit())]);
    assert!(check_palettes(&file));
    assert_eq!(get_cat_icon(&file).unwrap().rgba, [1, 2, 3, 4]);
    let file = icons(&[(8, misfit()), (32, good.clone())]);
    assert_eq!(get_cat_icon(&file).unwrap().rgba, [1, 2, 3, 4]);
    let file = icons(&[(8, good.clone()), (32, misfit())]);
    assert!(!check_palettes(&file));
    assert!(get_cat_icon(&file).is_none());
    let last = icons(&[(32, misfit()), (32, good.clone())]);
    assert_eq!(get_cat_icon(&last).unwrap().rgba, [1, 2, 3, 4]);
    let last = icons(&[(32, good.clone()), (32, misfit())]);
    assert!(get_cat_icon(&last).is_none());
    let first = icons(&[(32, other), (32, misfit()), (8, good)]);
    assert_eq!(get_cat_icon(&first).unwrap().rgba, [5, 6, 7, 8]);
}

#[test]
fn no_palette_outside_an_image() {
    assert!(check_palettes(&[]));
    assert!(check_palettes(b"\x00\x00\x00\x02PLTE"));
    assert!(check_palettes(SIGNATURE));
    assert!(check_palettes(&misfit()[1..]));
    assert!(!check_palettes(&misfit()));
    assert!(!check_palettes(&misfit()[..41]));
    assert!(check_palettes(&misfit()[..40]));
    assert!(check_palettes(b"\x00\x00\x01\x00\x00\x00PLTEPLTE"));
    assert!(check_palettes(b"\x00\x00\x01\x00\x01\x00PLTEPLTE"));
}
