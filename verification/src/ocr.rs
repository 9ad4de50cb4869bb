//! Reading item names off a screenshot: where on the screen the names
//! stand, how a picture is reduced to black and white before it is read,
//! and which item of the catalogue a reading most likely means.

use vstd::prelude::*;
use crate::response::ShortItem;

verus! {

/// How far from white a pixel may be to count as white.
pub const IMG_MAX_WHITE_DEV: u16 = 45;

/// The distance from which on a reading is no match at all.
pub const NO_MATCH_DISTANCE: usize = 9999;

/// A rectangle of a picture, in pixels.
#[derive(Clone, Copy, Debug, PartialEq, Eq, Structural)]
pub struct CropRect {
    pub x: u32,
    pub y: u32,
    pub width: u32,
    pub height: u32,
}

/// How many item names a screenshot shows.
pub const ITEM_SLOTS: usize = 4;

/// Where the name of the item in slot `slot` stands on a screenshot, for
/// the slots 0 to 3.
pub open spec fn item_crop_spec(slot: usize) -> Option<CropRect> {
    if slot == 0 {
        Some(CropRect { x: 470, y: 410, width: 250, height: 50 })
    } else if slot == 1 {
        Some(CropRect { x: 720, y: 410, width: 250, height: 50 })
    } else if slot == 2 {
        Some(CropRect { x: 960, y: 410, width: 250, height: 50 })
    } else if slot == 3 {
        Some(CropRect { x: 1200, y: 410, width: 250, height: 50 })
    } else {
        None
    }
}

/// Where the name of the item in slot `slot` stands on a screenshot, or
/// `None` where there is no such slot.
pub fn item_crop(slot: usize) -> (rect: Option<CropRect>)
    ensures
        rect == item_crop_spec(slot),
{
    if slot == 0 {
        Some(CropRect { x: 470, y: 410, width: 250, height: 50 })
    } else if slot == 1 {
        Some(CropRect { x: 720, y: 410, width: 250, height: 50 })
    } else if slot == 2 {
        Some(CropRect { x: 960, y: 410, width: 250, height: 50 })
    } else if slot == 3 {
        Some(CropRect { x: 1200, y: 410, width: 250, height: 50 })
    } else {
        None
    }
}

/// A pixel: red, green, blue and opacity.
#[derive(Clone, Copy, Debug, PartialEq, Eq, Structural)]
pub struct Pixel {
    pub red: u8,
    pub green: u8,
    pub blue: u8,
    pub alpha: u8,
}

/// How far the colour of `pixel` is from white: what its red, green and
/// blue lack of 255, added up.
pub open spec fn pixel_dev_spec(pixel: Pixel) -> nat {
    ((255 - pixel.red) + (255 - pixel.green) + (255 - pixel.blue)) as nat
}

/// Black where `pixel` is further from white than `max_dev`, white where it
/// is not; opaque in both cases.
pub open spec fn black_or_white(pixel: Pixel, max_dev: u16) -> Pixel {
    if pixel_dev_spec(pixel) > max_dev {
        Pixel { red: 0, green: 0, blue: 0, alpha: 255 }
    } else {
        Pixel { red: 255, green: 255, blue: 255, alpha: 255 }
    }
}

/// How far the colour of `pixel` is from white.
pub fn pixel_dev(pixel: Pixel) -> (dev: u16)
    ensures
        dev == pixel_dev_spec(pixel),
        dev <= 765,
{
    (255 - pixel.red as u16) + (255 - pixel.green as u16) + (255 - pixel.blue as u16)
}

/// Reduces a picture to black and white: every pixel that is further from
/// white than `max_dev` becomes black, every other pixel white.
pub fn remove_not_white(pixels: &mut Vec<Pixel>, max_dev: u16)
    ensures
        final(pixels)@.len() == old(pixels)@.len(),
        forall|i: int|
            0 <= i < old(pixels)@.len() ==> #[trigger] final(pixels)@[i] == black_or_white(
                old(pixels)@[i],
                max_dev,
            ),
{
    let mut i: usize = 0;
    while i < pixels.len()
        invariant
            i <= pixels.len(),
            pixels@.len() == old(pixels)@.len(),
            forall|j: int|
                0 <= j < i ==> #[trigger] pixels@[j] == black_or_white(old(pixels)@[j], max_dev),
            forall|j: int| i <= j < pixels@.len() ==> #[trigger] pixels@[j] == old(pixels)@[j],
        decreases pixels.len() - i,
    {
        let shade: u8 = if pixel_dev(pixels[i]) > max_dev {
            0
        } else {
            255
        };
        pixels.set(i, Pixel { red: shade, green: shade, blue: shade, alpha: 255 });
        i += 1;
    }
}

/// The least of three numbers.
pub open spec fn least(x: nat, y: nat, z: nat) -> nat {
    if x <= y && x <= z {
        x
    } else if y <= z {
        y
    } else {
        z
    }
}

/// The Levenshtein distance of `a` and `b`: the least number of characters
/// to insert, to delete or to replace by another that turns `a` into `b`.
pub open spec fn edit_distance(a: Seq<char>, b: Seq<char>) -> nat
    decreases a.len() + b.len(),
{
    if a.len() == 0 {
        b.len()
    } else if b.len() == 0 {
        a.len()
    } else {
        least(
            edit_distance(a.drop_last(), b) + 1,
            edit_distance(a, b.drop_last()) + 1,
            edit_distance(a.drop_last(), b.drop_last()) + if a.last() == b.last() {
                0nat
            } else {
                1nat
            },
        )
    }
}

/// `levenshtein::levenshtein`: the Levenshtein distance of the two texts,
/// counted in characters. The crate computes it row by row; the contract
/// states the distance by its recurrence.
#[verifier::external_body]
fn levenshtein_distance(a: &str, b: &str) -> (distance: usize)
    ensures
        distance == edit_distance(a@, b@),
{
    levenshtein::levenshtein(a, b)
}

/// The distance of the reading `target` from the name of `item`.
pub open spec fn distance_to(target: Seq<char>, item: ShortItem) -> nat {
    edit_distance(target, item.item_name@)
}

/// Whether `items[at]` is the closest match for `target`: its name is
/// nearer to `target` than the names of all items before it, no item after
/// it is nearer, and it is near enough to be a match.
pub open spec fn is_closest(items: Seq<ShortItem>, target: Seq<char>, at: int) -> bool {
    &&& 0 <= at < items.len()
    &&& distance_to(target, items[at]) < NO_MATCH_DISTANCE
    &&& forall|j: int| 0 <= j < at ==> distance_to(target, #[trigger] items[j]) > distance_to(target, items[at])
    &&& forall|j: int|
        at < j < items.len() ==> distance_to(target, #[trigger] items[j]) >= distance_to(
            target,
            items[at],
        )
}

/// The index of the item of `items` whose name is closest to the reading
/// `target`, the first of them where several are equally close. `None`
/// where no name is near enough to be a match, or there are no items.
pub fn closest_match_index(items: &Vec<ShortItem>, target: &str) -> (found: Option<usize>)
    ensures
        found is Some ==> is_closest(items@, target@, found->Some_0 as int),
        found is None ==> forall|j: int|
            0 <= j < items@.len() ==> distance_to(target@, #[trigger] items@[j])
                >= NO_MATCH_DISTANCE,
{
    let mut lowest: usize = NO_MATCH_DISTANCE;
    let mut found: Option<usize> = None;
    let mut i: usize = 0;
    while i < items.len()
        invariant
            i <= items.len(),
            lowest <= NO_MATCH_DISTANCE,
            found is None ==> lowest == NO_MATCH_DISTANCE,
            forall|j: int| 0 <= j < i ==> distance_to(target@, #[trigger] items@[j]) >= lowest,
            found is Some ==> {
                &&& found->Some_0 < i
                &&& distance_to(target@, items@[found->Some_0 as int]) == lowest
                &&& lowest < NO_MATCH_DISTANCE
                &&& forall|j: int|
                    0 <= j < found->Some_0 ==> distance_to(target@, #[trigger] items@[j]) > lowest
            },
        decreases items.len() - i,
    {
        let distance = levenshtein_distance(target, items[i].item_name.as_str());
        if distance < lowest {
            lowest = distance;
            found = Some(i);
        }
        i += 1;
    }
    found
}

/// The item of `items` whose name is closest to the reading `target`, as
/// `closest_match_index` finds it.
pub fn find_closest_levenshtein_match(items: &Vec<ShortItem>, target: &str) -> (found: Option<
    ShortItem,
>)
    ensures
        found is Some ==> exists|at: int|
            is_closest(items@, target@, at) && found->Some_0 == #[trigger] items@[at],
        found is None ==> forall|j: int|
            0 <= j < items@.len() ==> distance_to(target@, #[trigger] items@[j])
                >= NO_MATCH_DISTANCE,
{
    match closest_match_index(items, target) {
        Some(at) => Some(items[at].clone()),
        None => None,
    }
}

} // verus!
