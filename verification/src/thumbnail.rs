//! Where the cached renditions of an image are kept.
//!
//! Each rendition of an image is one JPEG file named after the image's
//! identifier, in a directory of its own below the cache directory.

use vstd::prelude::*;
use vstd::string::*;

verus! {

/// Edge, in pixels, of the square that a thumbnail fits in.
pub const THUMBNAIL_SIZE: u32 = 256;

/// The character of the decimal digit `d`.
pub open spec fn digit_char(d: nat) -> char {
    if d == 0 {
        '0'
    } else if d == 1 {
        '1'
    } else if d == 2 {
        '2'
    } else if d == 3 {
        '3'
    } else if d == 4 {
        '4'
    } else if d == 5 {
        '5'
    } else if d == 6 {
        '6'
    } else if d == 7 {
        '7'
    } else if d == 8 {
        '8'
    } else {
        '9'
    }
}

/// The decimal digits of `n`, most significant first, without leading zeros.
pub open spec fn decimal_digits(n: nat) -> Seq<char>
    decreases n,
{
    if n < 10 {
        seq![digit_char(n)]
    } else {
        decimal_digits(n / 10).push(digit_char(n % 10))
    }
}

/// `i` in decimal, with a minus sign when it is negative.
pub open spec fn decimal(i: int) -> Seq<char> {
    if i < 0 {
        seq!['-'] + decimal_digits((-i) as nat)
    } else {
        decimal_digits(i as nat)
    }
}

/// The name of the file that holds a rendition of image `image_id`.
pub open spec fn thumbnail_name(image_id: int) -> Seq<char> {
    decimal(image_id) + seq!['.', 'j', 'p', 'g']
}

/// The decimal digit `d` as a string.
fn digit_str(d: u64) -> (s: &'static str)
    requires
        d < 10,
    ensures
        s@ == seq![digit_char(d as nat)],
{
    proof {
        reveal_strlit("0");
        reveal_strlit("1");
        reveal_strlit("2");
        reveal_strlit("3");
        reveal_strlit("4");
        reveal_strlit("5");
        reveal_strlit("6");
        reveal_strlit("7");
        reveal_strlit("8");
        reveal_strlit("9");
    }
    let s = match d {
        0 => "0",
        1 => "1",
        2 => "2",
        3 => "3",
        4 => "4",
        5 => "5",
        6 => "6",
        7 => "7",
        8 => "8",
        _ => "9",
    };
    assert(s@ =~= seq![digit_char(d as nat)]);
    s
}

/// Appends the decimal digits of `n` to `out`.
fn append_decimal(out: &mut String, n: u64)
    ensures
        final(out)@ == old(out)@ + decimal_digits(n as nat),
    decreases n,
{
    if n >= 10 {
        append_decimal(out, n / 10);
    }
    out.append(digit_str(n % 10));
    assert(final(out)@ =~= old(out)@ + decimal_digits(n as nat));
}

/// The name of the file that holds a rendition of image `image_id`: the
/// identifier in decimal, then `.jpg`.
pub fn thumbnail_file_name(image_id: i64) -> (name: String)
    ensures
        name@ == thumbnail_name(image_id as int),
{
    let mut name = String::new();
    if image_id < 0 {
        proof {
            reveal_strlit("-");
        }
        name.append("-");
        let magnitude: u64 = (-(image_id + 1)) as u64 + 1;
        append_decimal(&mut name, magnitude);
    } else {
        append_decimal(&mut name, image_id as u64);
    }
    proof {
        reveal_strlit(".jpg");
    }
    name.append(".jpg");
    assert(name@ =~= thumbnail_name(image_id as int));
    name
}

/// The path of the thumbnail of image `image_id` below `cache_dir`. The
/// path is only put together; nothing is looked up or created.
pub fn get_thumbnail_path(cache_dir: &str, image_id: i64) -> (path: String)
    ensures
        path@ == cache_dir@ + seq!['/'] + thumbnail_name(image_id as int),
{
    let mut path = String::from_str(cache_dir);
    proof {
        reveal_strlit("/");
    }
    path.append("/");
    let name = thumbnail_file_name(image_id);
    path.append(name.as_str());
    assert(path@ =~= cache_dir@ + seq!['/'] + thumbnail_name(image_id as int));
    path
}

} // verus!
