//! The texture atlas: one packed image holding the launcher's icons, and a
//! file that says where each icon lies in it.
//!
//! The file holds, little-endian: the packed image's width and height and
//! the number of icons, each a 32-bit signed integer; then for each icon
//! its file name, one byte per character ended by a zero byte, and its
//! width, height, left and top in the packed image, each a 32-bit signed
//! integer. Bytes after the last icon are ignored.
use vstd::prelude::*;
use crate::state::{GroupType, Rating};
use crate::text::{str_eq, string_from_chars};

verus! {

/// The launcher's built-in images.
#[derive(Copy, Clone, Debug, PartialEq, Eq, Structural, Hash)]
pub enum Images {
    Placeholder,
    PlaceholderBanner,
    Error,
    Question,
    ArrowUp,
    ArrowDown,
    ButtonA,
    ButtonB,
    ButtonX,
    ButtonY,
    App,
    Emulator,
    Recent,
    Speaker,
    Settings,
    ErsbEveryone,
    ErsbEveryone10,
    ErsbTeen,
    ErsbMature,
    ErsbAdultOnly,
}

/// An icon of the atlas: its name and where it lies in the packed image.
pub struct AtlasImage {
    pub name: String,
    pub width: i32,
    pub height: i32,
    pub x: i32,
    pub y: i32,
}

/// An icon of the atlas as the contracts see it.
pub struct AtlasImageView {
    pub name: Seq<char>,
    pub width: int,
    pub height: int,
    pub x: int,
    pub y: int,
}

impl AtlasImage {
    pub open spec fn view(&self) -> AtlasImageView {
        AtlasImageView {
            name: self.name@,
            width: self.width as int,
            height: self.height as int,
            x: self.x as int,
            y: self.y as int,
        }
    }
}

/// The atlas file: the size of the packed image and its icons.
pub struct TextureAtlas {
    pub width: i32,
    pub height: i32,
    pub images: Vec<AtlasImage>,
}

/// The 32-bit signed integer stored little-endian in the four bytes of `b`
/// from `at`.
pub open spec fn spec_le_i32(b: Seq<u8>, at: int) -> int {
    let u = b[at] as int + 0x100 * b[at + 1] + 0x1_0000 * b[at + 2] + 0x100_0000 * b[at + 3];
    if u < 0x8000_0000 {
        u
    } else {
        u - 0x1_0000_0000
    }
}

/// The first position from `at` that holds a zero byte, or the length of
/// `b` if there is none.
pub open spec fn spec_zero_from(b: Seq<u8>, at: int) -> int
    decreases b.len() - at,
{
    if at >= b.len() {
        b.len() as int
    } else if b[at] == 0 {
        at
    } else {
        spec_zero_from(b, at + 1)
    }
}

/// The bytes of `b` as characters, one each.
pub open spec fn spec_latin1(b: Seq<u8>) -> Seq<char> {
    b.map_values(|c: u8| c as char)
}

/// The icon stored at `at`, with the position after it; `None` if the
/// file ends first.
pub open spec fn spec_atlas_image(b: Seq<u8>, at: int) -> Option<(AtlasImageView, int)> {
    let z = spec_zero_from(b, at);
    if z + 17 <= b.len() {
        Some(
            (
                AtlasImageView {
                    name: spec_latin1(b.subrange(at, z)),
                    width: spec_le_i32(b, z + 1),
                    height: spec_le_i32(b, z + 5),
                    x: spec_le_i32(b, z + 9),
                    y: spec_le_i32(b, z + 13),
                },
                z + 17,
            ),
        )
    } else {
        None
    }
}

/// The `count` icons stored one after the other from `at`; `None` if the
/// file ends first.
pub open spec fn spec_atlas_images(b: Seq<u8>, at: int, count: int) -> Option<Seq<AtlasImageView>>
    decreases count,
{
    if count <= 0 {
        Some(Seq::empty())
    } else {
        match spec_atlas_image(b, at) {
            None => None,
            Some((image, next)) => match spec_atlas_images(b, next, count - 1) {
                None => None,
                Some(rest) => Some(seq![image] + rest),
            },
        }
    }
}

/// The atlas file `b`: the packed image's width and height, and the icons
/// it announces; `None` if the file ends first.
pub open spec fn spec_texture_atlas(b: Seq<u8>) -> Option<(int, int, Seq<AtlasImageView>)> {
    if b.len() < 12 {
        None
    } else {
        match spec_atlas_images(b, 12, spec_le_i32(b, 8)) {
            None => None,
            Some(images) => Some((spec_le_i32(b, 0), spec_le_i32(b, 4), images)),
        }
    }
}

/// The 32-bit signed integer stored little-endian in `file` from `at`.
fn read_i32(file: &Vec<u8>, at: usize) -> (v: i32)
    requires
        at + 4 <= file@.len(),
    ensures
        v == spec_le_i32(file@, at as int),
{
    let _n = file.len();
    let u: u32 = file[at] as u32 + 0x100 * (file[at + 1] as u32) + 0x1_0000 * (file[at + 2] as u32)
        + 0x100_0000 * (file[at + 3] as u32);
    if u < 0x8000_0000 {
        u as i32
    } else {
        let low = (u - 0x8000_0000) as i32;
        i32::MIN + low
    }
}

/// Reads the icon stored at `at`, with the position after it; `None` if
/// the file ends first.
fn read_atlas_image(file: &Vec<u8>, at: usize) -> (r: Option<(AtlasImage, usize)>)
    requires
        at <= file@.len(),
    ensures
        match spec_atlas_image(file@, at as int) {
            None => r is None,
            Some((image, next)) => r matches Some((a, n)) && a.view() == image && n == next,
        },
{
    let mut z = at;
    while z < file.len() && file[z] != 0
        invariant
            at <= z <= file@.len(),
            spec_zero_from(file@, at as int) == spec_zero_from(file@, z as int),
        decreases file@.len() - z,
    {
        z = z + 1;
    }
    if z >= file.len() || file.len() - z < 17 {
        return None;
    }
    let mut chars: Vec<char> = Vec::new();
    let mut k = at;
    while k < z
        invariant
            at <= k <= z,
            z < file@.len(),
            chars@ == spec_latin1(file@.subrange(at as int, k as int)),
        decreases z - k,
    {
        chars.push(file[k] as char);
        assert(spec_latin1(file@.subrange(at as int, k + 1)) =~= spec_latin1(
            file@.subrange(at as int, k as int),
        ).push(file@[k as int] as char));
        k = k + 1;
    }
    let name = string_from_chars(&chars);
    let image = AtlasImage {
        name,
        width: read_i32(file, z + 1),
        height: read_i32(file, z + 5),
        x: read_i32(file, z + 9),
        y: read_i32(file, z + 13),
    };
    Some((image, z + 17))
}

/// Reads an atlas file; `None` if the file ends before the sizes or before
/// the last icon it announces.
pub fn parse_texture_atlas(file: &Vec<u8>) -> (r: Option<TextureAtlas>)
    ensures
        match spec_texture_atlas(file@) {
            None => r is None,
            Some((width, height, images)) => r matches Some(a) && a.width == width && a.height
                == height && a.images@.map_values(|i: AtlasImage| i.view()) == images,
        },
{
    if file.len() < 12 {
        return None;
    }
    let width = read_i32(file, 0);
    let height = read_i32(file, 4);
    let count = read_i32(file, 8);
    let ghost b = file@;
    let mut images: Vec<AtlasImage> = Vec::new();
    let mut index: usize = 12;
    let mut i: i32 = 0;
    while i < count
        invariant
            b == file@,
            0 <= i,
            i <= count || count <= 0,
            index <= b.len(),
            count == spec_le_i32(b, 8),
            spec_atlas_images(b, 12, count as int) == (match spec_atlas_images(
                b,
                index as int,
                count - i,
            ) {
                None => None,
                Some(rest) => Some(images@.map_values(|a: AtlasImage| a.view()) + rest),
            }),
        decreases count - i,
    {
        match read_atlas_image(file, index) {
            None => {
                return None;
            },
            Some((image, next)) => {
                let ghost before = images@.map_values(|a: AtlasImage| a.view());
                let ghost v = image.view();
                images.push(image);
                proof {
                    assert(images@.map_values(|a: AtlasImage| a.view()) =~= before.push(v));
                    match spec_atlas_images(b, next as int, count - i - 1) {
                        None => {},
                        Some(rest) => {
                            assert(before + (seq![v] + rest) =~= before.push(v) + rest);
                        },
                    }
                }
                index = next;
                i = i + 1;
            },
        }
    }
    proof {
        assert(images@.map_values(|a: AtlasImage| a.view()) + Seq::<AtlasImageView>::empty()
            =~= images@.map_values(|a: AtlasImage| a.view()));
    }
    Some(TextureAtlas { width, height, images })
}

/// The image an icon file of the atlas stands for; `None` for a name the
/// launcher does not know.
pub open spec fn spec_image_for_name(name: Seq<char>) -> Option<Images> {
    if name == "error.png"@ {
        Some(Images::Error)
    } else if name == "question.png"@ {
        Some(Images::Question)
    } else if name == "arrow_up.png"@ {
        Some(Images::ArrowUp)
    } else if name == "arrow_down.png"@ {
        Some(Images::ArrowDown)
    } else if name == "button_a.png"@ {
        Some(Images::ButtonA)
    } else if name == "button_b.png"@ {
        Some(Images::ButtonB)
    } else if name == "button_x.png"@ {
        Some(Images::ButtonX)
    } else if name == "button_y.png"@ {
        Some(Images::ButtonY)
    } else if name == "apps.png"@ {
        Some(Images::App)
    } else if name == "emulator.png"@ {
        Some(Images::Emulator)
    } else if name == "recents.png"@ {
        Some(Images::Recent)
    } else if name == "speaker.png"@ {
        Some(Images::Speaker)
    } else if name == "settings.png"@ {
        Some(Images::Settings)
    } else if name == "everyone.png"@ {
        Some(Images::ErsbEveryone)
    } else if name == "everyone10.png"@ {
        Some(Images::ErsbEveryone10)
    } else if name == "teen.png"@ {
        Some(Images::ErsbTeen)
    } else if name == "mature.png"@ {
        Some(Images::ErsbMature)
    } else if name == "adults.png"@ {
        Some(Images::ErsbAdultOnly)
    } else {
        None
    }
}

/// The image an icon file of the atlas stands for; `None` for a name the
/// launcher does not know.
pub fn image_for_name(name: &str) -> (i: Option<Images>)
    ensures
        i == spec_image_for_name(name@),
{
    if str_eq(name, "error.png") {
        Some(Images::Error)
    } else if str_eq(name, "question.png") {
        Some(Images::Question)
    } else if str_eq(name, "arrow_up.png") {
        Some(Images::ArrowUp)
    } else if str_eq(name, "arrow_down.png") {
        Some(Images::ArrowDown)
    } else if str_eq(name, "button_a.png") {
        Some(Images::ButtonA)
    } else if str_eq(name, "button_b.png") {
        Some(Images::ButtonB)
    } else if str_eq(name, "button_x.png") {
        Some(Images::ButtonX)
    } else if str_eq(name, "button_y.png") {
        Some(Images::ButtonY)
    } else if str_eq(name, "apps.png") {
        Some(Images::App)
    } else if str_eq(name, "emulator.png") {
        Some(Images::Emulator)
    } else if str_eq(name, "recents.png") {
        Some(Images::Recent)
    } else if str_eq(name, "speaker.png") {
        Some(Images::Speaker)
    } else if str_eq(name, "settings.png") {
        Some(Images::Settings)
    } else if str_eq(name, "everyone.png") {
        Some(Images::ErsbEveryone)
    } else if str_eq(name, "everyone10.png") {
        Some(Images::ErsbEveryone10)
    } else if str_eq(name, "teen.png") {
        Some(Images::ErsbTeen)
    } else if str_eq(name, "mature.png") {
        Some(Images::ErsbMature)
    } else if str_eq(name, "adults.png") {
        Some(Images::ErsbAdultOnly)
    } else {
        None
    }
}

/// The icon drawn above a group of the platform list.
pub fn group_icon(kind: GroupType) -> (i: Images)
    ensures
        i == (match kind {
            GroupType::Emulator => Images::Emulator,
            GroupType::Plugin => Images::App,
            GroupType::Recents => Images::Recent,
        }),
{
    match kind {
        GroupType::Emulator => Images::Emulator,
        GroupType::Plugin => Images::App,
        GroupType::Recents => Images::Recent,
    }
}

/// The icon of an age rating; a game that is not rated has none.
pub fn rating_icon(rating: Rating) -> (i: Option<Images>)
    ensures
        i == (match rating {
            Rating::Everyone => Some(Images::ErsbEveryone),
            Rating::Everyone10 => Some(Images::ErsbEveryone10),
            Rating::Teen => Some(Images::ErsbTeen),
            Rating::Mature => Some(Images::ErsbMature),
            Rating::AdultOnly => Some(Images::ErsbAdultOnly),
            Rating::NotRated => None,
        }),
{
    match rating {
        Rating::Everyone => Some(Images::ErsbEveryone),
        Rating::Everyone10 => Some(Images::ErsbEveryone10),
        Rating::Teen => Some(Images::ErsbTeen),
        Rating::Mature => Some(Images::ErsbMature),
        Rating::AdultOnly => Some(Images::ErsbAdultOnly),
        Rating::NotRated => None,
    }
}

} // verus!
