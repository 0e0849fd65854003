//! Preparing a rendered frame for export.
//!
//! The frame leaves the pipeline as RGBA8. The file format is chosen by
//! the extension of the file name; JPEG has no alpha channel, so the frame
//! is reduced to RGB for it.

use vstd::prelude::*;
use vstd::string::*;
use vstd::arithmetic::div_mod::*;

verus! {

/// The file formats that a frame can be exported to.
#[derive(Clone, Copy, Debug, PartialEq, Eq, Structural)]
pub enum ExportFormat {
    /// PNG, with the alpha channel.
    Png,
    /// JPEG, without it.
    Jpeg,
}

/// The extension is `png`, in any mix of upper and lower case.
pub open spec fn is_png_extension(extension: Seq<char>) -> bool {
    &&& extension.len() == 3
    &&& (extension[0] == 'p' || extension[0] == 'P')
    &&& (extension[1] == 'n' || extension[1] == 'N')
    &&& (extension[2] == 'g' || extension[2] == 'G')
}

/// The format for a file with the given extension: PNG for `png`, JPEG for
/// everything else, which includes no extension at all.
pub fn export_format(extension: &str) -> (format: ExportFormat)
    ensures
        format == if is_png_extension(extension@) {
            ExportFormat::Png
        } else {
            ExportFormat::Jpeg
        },
{
    if extension.unicode_len() != 3 {
        return ExportFormat::Jpeg;
    }
    let p = extension.get_char(0);
    let n = extension.get_char(1);
    let g = extension.get_char(2);
    if (p == 'p' || p == 'P') && (n == 'n' || n == 'N') && (g == 'g' || g == 'G') {
        ExportFormat::Png
    } else {
        ExportFormat::Jpeg
    }
}

/// The red, green and blue bytes of each whole pixel of an RGBA8 buffer.
pub open spec fn rgb_of(rgba: Seq<u8>) -> Seq<u8> {
    Seq::new((3 * (rgba.len() / 4)) as nat, |i: int| rgba[4 * (i / 3) + i % 3])
}

/// The frame without its alpha channel: three bytes for each whole pixel,
/// in the order of the pixels.
pub fn rgba_to_rgb(rgba: &[u8]) -> (rgb: Vec<u8>)
    ensures
        rgb@ == rgb_of(rgba@),
{
    let n: usize = rgba.len() / 4;
    let mut rgb: Vec<u8> = Vec::new();
    let mut i: usize = 0;
    while i < n
        invariant
            i <= n,
            n == rgba@.len() / 4,
            4 * n <= rgba@.len() <= usize::MAX,
            rgb@.len() == 3 * i,
            forall|k: int| 0 <= k < 3 * i ==> #[trigger] rgb@[k] == rgba@[4 * (k / 3) + k % 3],
        decreases n - i,
    {
        rgb.push(rgba[4 * i]);
        rgb.push(rgba[4 * i + 1]);
        rgb.push(rgba[4 * i + 2]);
        proof {
            assert forall|k: int| 0 <= k < 3 * (i + 1) implies #[trigger] rgb@[k] == rgba@[4 * (k
                / 3) + k % 3] by {
                if k >= 3 * i {
                    lemma_fundamental_div_mod_converse(k, 3, i as int, k - 3 * i);
                }
            }
        }
        i = i + 1;
    }
    assert(rgb@ =~= rgb_of(rgba@));
    rgb
}

} // verus!
