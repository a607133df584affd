//! The text that describes an image: its name, sizes, orientation, file size
//! and format.
use vstd::prelude::*;
use vstd::arithmetic::div_mod::{lemma_div_denominator, lemma_div_is_ordered_by_denominator, lemma_fundamental_div_mod};

use crate::export::{standard_image_format_name, supported_format_name, SupportedImageFormat};
use crate::geometry::{display_orientation, ImageOrientation, ImageRotation, ImageSize};
use crate::loaded::{display_file_name, ImageMetadata, ImageState, LoadedImage};
use crate::settings::StatusUiSettings;

verus! {

broadcast use ImageSize::lemma_spec_new;

/// The character of a decimal digit.
pub open spec fn digit_char(d: int) -> char {
    if d == 0 {
        '0'
    } else if d == 1 {
        '1'
    } else if d == 2 {
        '2'
    } else if d == 3 {
        '3'
    } else if d == 4 {
        '4'
    } else if d == 5 {
        '5'
    } else if d == 6 {
        '6'
    } else if d == 7 {
        '7'
    } else if d == 8 {
        '8'
    } else {
        '9'
    }
}

/// `n` written in decimal, without leading zeros.
pub open spec fn decimal(n: nat) -> Seq<char>
    decreases n,
{
    if n < 10 {
        seq![digit_char(n as int)]
    } else {
        decimal(n / 10).push(digit_char((n % 10) as int))
    }
}

fn digit_text(d: u64) -> (text: &'static str)
    requires
        d < 10,
    ensures
        text@ == seq![digit_char(d as int)],
{
    if d == 0 {
        proof {
            reveal_strlit("0");
        }
        "0"
    } else if d == 1 {
        proof {
            reveal_strlit("1");
        }
        "1"
    } else if d == 2 {
        proof {
            reveal_strlit("2");
        }
        "2"
    } else if d == 3 {
        proof {
            reveal_strlit("3");
        }
        "3"
    } else if d == 4 {
        proof {
            reveal_strlit("4");
        }
        "4"
    } else if d == 5 {
        proof {
            reveal_strlit("5");
        }
        "5"
    } else if d == 6 {
        proof {
            reveal_strlit("6");
        }
        "6"
    } else if d == 7 {
        proof {
            reveal_strlit("7");
        }
        "7"
    } else if d == 8 {
        proof {
            reveal_strlit("8");
        }
        "8"
    } else {
        proof {
            reveal_strlit("9");
        }
        "9"
    }
}

/// `n` written in decimal.
pub fn decimal_text(n: u64) -> (text: String)
    ensures
        text@ == decimal(n as nat),
    decreases n,
{
    if n < 10 {
        digit_text(n).to_owned()
    } else {
        let mut text = decimal_text(n / 10);
        text.append(digit_text(n % 10));
        text
    }
}

/// What the orientation part of the description says: nothing for an image
/// shown as stored, else the EXIF orientation, the user's rotation, or both.
pub open spec fn orientation_text(exif_orientation: ImageOrientation, user_rotation: ImageRotation) -> Option<Seq<char>> {
    let exif = "EXIF "@ + decimal(exif_orientation.exif_value() as nat);
    let rotation = "rotation "@ + decimal(user_rotation.degrees() as nat) + " deg"@;
    if exif_orientation.is_identity() {
        if user_rotation == ImageRotation::Degrees0 {
            None
        } else {
            Some(rotation)
        }
    } else if user_rotation == ImageRotation::Degrees0 {
        Some(exif)
    } else {
        Some(exif + " + "@ + rotation)
    }
}

fn orientation_info_text(exif_orientation: ImageOrientation, user_rotation: ImageRotation) -> (text: Option<String>)
    ensures
        match orientation_text(exif_orientation, user_rotation) {
            Some(t) => text matches Some(s) && s@ == t,
            None => text is None,
        },
{
    match (exif_orientation.is_identity(), user_rotation.is_identity()) {
        (true, true) => None,
        (false, true) => {
            let mut text = "EXIF ".to_owned();
            text.append(decimal_text(exif_orientation.exif_value() as u64).as_str());
            Some(text)
        },
        (true, false) => {
            let mut text = "rotation ".to_owned();
            text.append(decimal_text(user_rotation.degrees() as u64).as_str());
            text.append(" deg");
            Some(text)
        },
        (false, false) => {
            let mut text = "EXIF ".to_owned();
            text.append(decimal_text(exif_orientation.exif_value() as u64).as_str());
            text.append(" + rotation ");
            text.append(decimal_text(user_rotation.degrees() as u64).as_str());
            text.append(" deg");
            proof {
                assert(" + rotation "@ == " + "@ + "rotation "@) by {
                    reveal_strlit(" + rotation ");
                    reveal_strlit(" + ");
                    reveal_strlit("rotation ");
                }
            }
            Some(text)
        },
    }
}

/// `width` and `height` joined by `x`.
pub open spec fn size_text(size: ImageSize) -> Seq<char> {
    decimal(size.width() as nat) + "x"@ + decimal(size.height() as nat)
}

fn size_info_text(size: ImageSize) -> (text: String)
    ensures
        text@ == size_text(size),
{
    let mut text = decimal_text(size.width() as u64);
    text.append("x");
    text.append(decimal_text(size.height() as u64).as_str());
    text
}

/// The description of an image: name, size, file size and format, and for an
/// image not shown as stored, its source and displayed sizes and why they
/// differ.
pub open spec fn info_text(
    name: Seq<char>,
    file_size: u64,
    format: SupportedImageFormat,
    exif_orientation: ImageOrientation,
    source_size: ImageSize,
    user_rotation: ImageRotation,
) -> Seq<char> {
    let tail = " | "@ + file_size_text(file_size) + " | "@ + supported_format_name(format);
    match orientation_text(exif_orientation, user_rotation) {
        Some(orientation) => name + " | source "@ + size_text(source_size) + " | display "@ + size_text(
            source_size.oriented(exif_orientation.then_rotation(user_rotation)),
        ) + " | "@ + orientation + tail,
        None => name + " | "@ + size_text(source_size) + tail,
    }
}

/// The description of the image `metadata` describes, at `source_size` and
/// rotated by the user by `user_rotation`.
pub fn image_metadata_display_info_text(metadata: &ImageMetadata, source_size: ImageSize, user_rotation: ImageRotation) -> (text: String)
    ensures
        text@ == info_text(
            display_file_name(metadata.spec_path()),
            metadata.file_size(),
            metadata.format(),
            metadata.exif_orientation(),
            source_size,
            user_rotation,
        ),
{
    let orientation = display_orientation(metadata.exif_orientation(), user_rotation);
    let display_size = source_size.with_orientation(orientation);
    let mut text = metadata.file_name_for_display();
    match orientation_info_text(metadata.exif_orientation(), user_rotation) {
        Some(orientation_text) => {
            text.append(" | source ");
            text.append(size_info_text(source_size).as_str());
            text.append(" | display ");
            text.append(size_info_text(display_size).as_str());
            text.append(" | ");
            text.append(orientation_text.as_str());
        },
        None => {
            text.append(" | ");
            text.append(size_info_text(source_size).as_str());
        },
    }
    text.append(" | ");
    text.append(format_file_size(metadata.file_size()).as_str());
    text.append(" | ");
    text.append(standard_image_format_name(metadata.format()));
    text
}

/// The description of the image `metadata` describes, as stored.
pub fn image_metadata_info_text(metadata: &ImageMetadata, size: ImageSize) -> (text: String)
    ensures
        text@ == info_text(
            display_file_name(metadata.spec_path()),
            metadata.file_size(),
            metadata.format(),
            metadata.exif_orientation(),
            size,
            ImageRotation::Degrees0,
        ),
{
    image_metadata_display_info_text(metadata, size, ImageRotation::ZERO)
}

/// The description of a loaded image rotated by the user by `user_rotation`.
pub fn image_display_info_text(image: &LoadedImage, user_rotation: ImageRotation) -> (text: String)
    ensures
        text@ == info_text(
            display_file_name(image.spec_metadata().spec_path()),
            image.spec_metadata().file_size(),
            image.spec_metadata().format(),
            image.spec_metadata().exif_orientation(),
            image.spec_source_size(),
            user_rotation,
        ),
{
    image_metadata_display_info_text(image.metadata(), image.source_size(), user_rotation)
}

/// The description of a loaded image without a user rotation.
pub fn image_info_text(image: &LoadedImage) -> (text: String)
    ensures
        text@ == info_text(
            display_file_name(image.spec_metadata().spec_path()),
            image.spec_metadata().file_size(),
            image.spec_metadata().format(),
            image.spec_metadata().exif_orientation(),
            image.spec_source_size(),
            ImageRotation::Degrees0,
        ),
{
    image_display_info_text(image, ImageRotation::ZERO)
}

/// The status line of a loaded image: its description (or only its name
/// when the status is kept short), then the zoom as given.
pub open spec fn status_text(image: LoadedImage, user_rotation: ImageRotation, zoom_text: Seq<char>, detailed: bool) -> Seq<char> {
    let described = if detailed {
        info_text(
            display_file_name(image.spec_metadata().spec_path()),
            image.spec_metadata().file_size(),
            image.spec_metadata().format(),
            image.spec_metadata().exif_orientation(),
            image.spec_source_size(),
            user_rotation,
        )
    } else {
        display_file_name(image.spec_metadata().spec_path())
    };
    described + " | "@ + zoom_text
}

/// The status line of a loaded image, with the zoom already written out.
pub fn image_status_text_with_zoom_text(
    image: &LoadedImage,
    user_rotation: ImageRotation,
    zoom_text: &str,
    detailed: bool,
) -> (text: String)
    ensures
        text@ == status_text(*image, user_rotation, zoom_text@, detailed),
{
    let mut text = if detailed {
        image_display_info_text(image, user_rotation)
    } else {
        image.metadata().file_name_for_display()
    };
    text.append(" | ");
    text.append(zoom_text);
    text
}

/// The distance between neighbouring `f64` values near `n`: 1 below 2^53,
/// doubling with each bit above.
pub open spec fn f64_spacing(n: nat) -> nat
    decreases n,
{
    if n < 0x20_0000_0000_0000 {
        1
    } else {
        2 * f64_spacing(n / 2)
    }
}

/// `num / den` rounded to the nearest integer, halves to the even one.
pub open spec fn rounded_half_even(num: nat, den: nat) -> nat {
    let q = num / den;
    let r = num % den;
    if 2 * r > den || (2 * r == den && q % 2 == 1) {
        q + 1
    } else {
        q
    }
}

/// The `f64` nearest to `n`, as `n as f64` gives it.
pub open spec fn nearest_f64(n: nat) -> nat {
    rounded_half_even(n, f64_spacing(n)) * f64_spacing(n)
}

pub open spec fn pow1024(k: nat) -> nat
    decreases k,
{
    if k == 0 {
        1
    } else {
        1024 * pow1024((k - 1) as nat)
    }
}

/// The unit a value of `r` bytes is shown in, counting from `k`: the largest
/// one up to TB that does not exceed it.
pub open spec fn unit_index_from(r: nat, k: nat) -> nat
    decreases 4 - k,
{
    if k >= 4 || r < pow1024(k + 1) {
        k
    } else {
        unit_index_from(r, k + 1)
    }
}

pub open spec fn unit_name(k: nat) -> Seq<char> {
    if k == 0 {
        "B"@
    } else if k == 1 {
        "KB"@
    } else if k == 2 {
        "MB"@
    } else if k == 3 {
        "GB"@
    } else {
        "TB"@
    }
}

/// A file size in readable binary units: whole bytes below 1 KB; otherwise
/// the size as an `f64`, divided by 1024 while it is at least 1024 (up to
/// TB), with one decimal rounded half to even, as `{:.1}` prints it.
pub open spec fn file_size_text(bytes: u64) -> Seq<char> {
    if bytes < 1024 {
        decimal(bytes as nat) + " B"@
    } else {
        let r = nearest_f64(bytes as nat);
        let k = unit_index_from(r, 0);
        let tenths = rounded_half_even(10 * r, pow1024(k));
        decimal(tenths / 10) + "."@ + seq![digit_char((tenths % 10) as int)] + " "@ + unit_name(k)
    }
}

fn unit_text(k: u64) -> (text: &'static str)
    ensures
        text@ == unit_name(k as nat),
{
    if k == 0 {
        "B"
    } else if k == 1 {
        "KB"
    } else if k == 2 {
        "MB"
    } else if k == 3 {
        "GB"
    } else {
        "TB"
    }
}

fn round_half_even(num: u128, den: u128) -> (rounded: u128)
    requires
        den > 0,
        num < 0x1_0000_0000_0000_0000_0000,
    ensures
        rounded == rounded_half_even(num as nat, den as nat),
        rounded <= num / den + 1,
{
    let q = num / den;
    let r = num % den;
    if r > den - r || (r == den - r && q % 2 == 1) {
        q + 1
    } else {
        q
    }
}

/// The `f64` nearest to `n`, as an integer.
fn nearest_f64_value(n: u64) -> (value: u128)
    ensures
        value == nearest_f64(n as nat),
        value <= 2 * n,
        n < 0x20_0000_0000_0000 ==> value == n,
        n >= 0x20_0000_0000_0000 ==> value >= 0x10_0000_0000_0000,
{
    let mut m: u64 = n;
    let mut unit: u64 = 1;
    while m >= 0x20_0000_0000_0000
        invariant
            f64_spacing(n as nat) == unit * f64_spacing(m as nat),
            m == n / unit,
            1 <= unit,
            unit * m <= n,
            unit <= 0x1000,
            n < 0x20_0000_0000_0000 || m >= 0x10_0000_0000_0000,
            n < 0x20_0000_0000_0000 ==> unit == 1 && m == n,
        decreases m,
    {
        assert(unit * 0x20_0000_0000_0000 <= n) by (nonlinear_arith)
            requires
                unit * m <= n,
                m >= 0x20_0000_0000_0000,
                1 <= unit,
        ;
        assert(unit < 0x800);
        proof {
            lemma_div_denominator(n as int, unit as int, 2);
            assert(f64_spacing(m as nat) == 2 * f64_spacing((m / 2) as nat));
            assert(unit * f64_spacing(m as nat) == (unit * 2) * f64_spacing((m / 2) as nat)) by (nonlinear_arith)
                requires
                    f64_spacing(m as nat) == 2 * f64_spacing((m / 2) as nat),
            ;
            assert((unit * 2) * (m / 2) <= unit * m) by (nonlinear_arith)
                requires
                    1 <= unit,
            ;
        }
        m = m / 2;
        unit = unit * 2;
    }
    assert(f64_spacing(m as nat) == 1);
    assert(f64_spacing(n as nat) == unit) by (nonlinear_arith)
        requires
            f64_spacing(n as nat) == unit * f64_spacing(m as nat),
            f64_spacing(m as nat) == 1,
    ;
    proof {
        lemma_fundamental_div_mod(n as int, unit as int);
    }
    let rem: u64 = n - unit * m;
    assert(rem == n % unit);
    let rounded: u64 = if rem > unit - rem || (rem == unit - rem && m % 2 == 1) {
        m + 1
    } else {
        m
    };
    assert(rounded == rounded_half_even(n as nat, unit as nat));
    assert(rounded * unit <= 2 * n) by (nonlinear_arith)
        requires
            rounded <= m + 1,
            unit * m <= n,
            1 <= unit,
            unit <= n || unit == 1,
            n >= 1 || rounded == 0,
    ;
    assert(rounded * unit >= m) by (nonlinear_arith)
        requires
            rounded >= m,
            1 <= unit,
    ;
    let value = (rounded as u128) * (unit as u128);
    assert(n < 0x20_0000_0000_0000 ==> value == n);
    value
}

proof fn lemma_pow1024_values()
    ensures
        pow1024(0) == 1,
        pow1024(1) == 1024,
        pow1024(2) == 0x10_0000,
        pow1024(3) == 0x4000_0000,
        pow1024(4) == 0x100_0000_0000,
{
    reveal_with_fuel(pow1024, 5);
}

pub fn format_file_size(bytes: u64) -> (text: String)
    ensures
        text@ == file_size_text(bytes),
{
    if bytes < 1024 {
        let mut text = decimal_text(bytes);
        text.append(" B");
        return text;
    }
    let r = nearest_f64_value(bytes);
    proof {
        lemma_pow1024_values();
    }
    assert(r >= 1024);
    let mut d: u128 = 1;
    let mut k: u64 = 0;
    while k < 4 && r >= d * 1024
        invariant
            d == pow1024(k as nat),
            k <= 4,
            d <= 0x100_0000_0000,
            r >= 1024,
            unit_index_from(r as nat, 0) == unit_index_from(r as nat, k as nat),
            pow1024(0) == 1 && pow1024(1) == 1024 && pow1024(2) == 0x10_0000 && pow1024(3) == 0x4000_0000
                && pow1024(4) == 0x100_0000_0000,
        decreases 4 - k,
    {
        d = d * 1024;
        k = k + 1;
    }
    assert(unit_index_from(r as nat, k as nat) == k);
    assert(k >= 1);
    assert(d >= 1024);
    let tenths = round_half_even(10 * r, d);
    proof {
        lemma_div_is_ordered_by_denominator((10 * r) as int, 1024, d as int);
    }
    assert(tenths < 0x1000_0000_0000_0000);
    let mut text = decimal_text((tenths / 10) as u64);
    text.append(".");
    text.append(digit_text((tenths % 10) as u64));
    text.append(" ");
    text.append(unit_text(k));
    text
}

/// The text of the status bar: none while it is hidden; otherwise a pending
/// status message, or the status line of the shown image (with the zoom
/// already written out), or none without an image.
pub fn viewer_status_text(
    status_ui: StatusUiSettings,
    status_message: &Option<String>,
    state: &ImageState,
    user_rotation: ImageRotation,
    zoom_text: &str,
) -> (text: Option<String>)
    ensures
        !status_ui.show_status_bar() ==> text is None,
        status_ui.show_status_bar() ==> match *status_message {
            Some(message) => text matches Some(t) && t@ == message@,
            None => match *state {
                ImageState::Loaded(image) => text matches Some(t) && t@ == status_text(
                    image,
                    user_rotation,
                    zoom_text@,
                    status_ui.detailed_status_text(),
                ),
                ImageState::Empty => text is None,
            },
        },
{
    if !status_ui.show_status_bar() {
        return None;
    }
    match status_message {
        Some(message) => return Some(message.clone()),
        None => {},
    }
    match state {
        ImageState::Loaded(image) => Some(
            image_status_text_with_zoom_text(image, user_rotation, zoom_text, status_ui.detailed_status_text()),
        ),
        ImageState::Empty => None,
    }
}

} // verus!
