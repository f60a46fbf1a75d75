use yaffe::atlas::{group_icon, image_for_name, parse_texture_atlas, rating_icon, Images};
use yaffe::state::{GroupType, Rating};

fn i32_bytes(v: i32, out: &mut Vec<u8>) {
    out.extend_from_slice(&v.to_le_bytes());
}

fn icon(name: &str, w: i32, h: i32, x: i32, y: i32, out: &mut Vec<u8>) {
    out.extend_from_slice(name.as_bytes());
    out.push(0);
    i32_bytes(w, out);
    i32_bytes(h, out);
    i32_bytes(x, out);
    i32_bytes(y, out);
}

fn header(w: i32, h: i32, count: i32) -> Vec<u8> {
    let mut out = vec![];
    i32_bytes(w, &mut out);
    i32_bytes(h, &mut out);
    i32_bytes(count, &mut out);
    out
}

#[test]
fn atlas_with_two_icons() {
    let mut file = header(512, 256, 2);
    icon("apps.png", 64, 32, 0, 0, &mut file);
    icon("teen.png", 16, 16, 64, 200, &mut file);
    let atlas = parse_texture_atlas(&file).expect("complete atlas");
    assert_eq!(atlas.width, 512);
    assert_eq!(atlas.height, 256);
    assert_eq!(atlas.images.len(), 2);
    assert_eq!(atlas.images[0].name, "apps.png");
    assert_eq!((atlas.images[0].width, atlas.images[0].height), (64, 32));
    assert_eq!(atlas.images[1].name, "teen.png");
    assert_eq!((atlas.images[1].x, atlas.images[1].y), (64, 200));
}

#[test]
fn atlas_numbers_are_signed_little_endian() {
    let mut file = header(-1, 0x0102_0304, 1);
    icon("", i32::MIN, i32::MAX, -2, 0x7f, &mut file);
    assert_eq!(&file[4..8], &[4, 3, 2, 1]);
    let atlas = parse_texture_atlas(&file).expect("complete atlas");
    assert_eq!(atlas.width, -1);
    assert_eq!(atlas.height, 0x0102_0304);
    assert_eq!(atlas.images[0].name, "");
    assert_eq!(atlas.images[0].width, i32::MIN);
    assert_eq!(atlas.images[0].height, i32::MAX);
    assert_eq!(atlas.images[0].x, -2);
}

#[test]
fn atlas_names_are_read_byte_by_byte() {
    let mut file = header(1, 1, 1);
    file.extend_from_slice(&[b'a', 0xe9, b'b', 0]);
    for _ in 0..16 {
        file.push(0);
    }
    let atlas = parse_texture_atlas(&file).expect("complete atlas");
    assert_eq!(atlas.images[0].name, "a\u{e9}b");
}

#[test]
fn atlas_without_icons() {
    let atlas = parse_texture_atlas(&header(3, 4, 0)).expect("complete atlas");
    assert!(atlas.images.is_empty());
    let atlas = parse_texture_atlas(&header(3, 4, -5)).expect("complete atlas");
    assert!(atlas.images.is_empty());
}

#[test]
fn atlas_trailing_bytes_are_ignored() {
    let mut file = header(8, 8, 1);
    icon("x.png", 1, 2, 3, 4, &mut file);
    file.extend_from_slice(b"more");
    let atlas = parse_texture_atlas(&file).expect("complete atlas");
    assert_eq!(atlas.images.len(), 1);
    assert_eq!(atlas.images[0].y, 4);
}

#[test]
fn atlas_that_ends_early_is_refused() {
    assert!(parse_texture_atlas(&vec![0; 11]).is_none());
    let mut file = header(8, 8, 2);
    icon("x.png", 1, 2, 3, 4, &mut file);
    assert!(parse_texture_atlas(&file).is_none());
    let mut file = header(8, 8, 1);
    icon("x.png", 1, 2, 3, 4, &mut file);
    file.pop();
    assert!(parse_texture_atlas(&file).is_none());
    let mut file = header(8, 8, 1);
    file.extend_from_slice(b"no end to this name");
    assert!(parse_texture_atlas(&file).is_none());
}

#[test]
fn atlas_icon_names() {
    assert_eq!(image_for_name("error.png"), Some(Images::Error));
    assert_eq!(image_for_name("apps.png"), Some(Images::App));
    assert_eq!(image_for_name("emulator.png"), Some(Images::Emulator));
    assert_eq!(image_for_name("adults.png"), Some(Images::ErsbAdultOnly));
    assert_eq!(image_for_name("button_y.png"), Some(Images::ButtonY));
    assert_eq!(image_for_name("placeholder.jpg"), None);
    assert_eq!(image_for_name("Apps.png"), None);
}

#[test]
fn group_icons() {
    assert_eq!(group_icon(GroupType::Emulator), Images::Emulator);
    assert_eq!(group_icon(GroupType::Plugin), Images::App);
    assert_eq!(group_icon(GroupType::Recents), Images::Recent);
}

#[test]
fn rating_icons() {
    assert_eq!(rating_icon(Rating::Everyone), Some(Images::ErsbEveryone));
    assert_eq!(rating_icon(Rating::Everyone10), Some(Images::ErsbEveryone10));
    assert_eq!(rating_icon(Rating::Teen), Some(Images::ErsbTeen));
    assert_eq!(rating_icon(Rating::Mature), Some(Images::ErsbMature));
    assert_eq!(rating_icon(Rating::AdultOnly), Some(Images::ErsbAdultOnly));
    assert_eq!(rating_icon(Rating::NotRated), None);
}
