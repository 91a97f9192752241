//! Pixel dimensions of image files: SVG documents read their size from their
//! attributes, raster images from their decoded header.

use vstd::prelude::*;
use crate::error::ImageFnError;
use crate::text::{chars_of, tail_string};

verus! {

/// The size of an image, height first.
#[derive(Clone, Copy, Debug, PartialEq, Eq, Structural)]
pub struct ImageDimensions {
    pub height: u32,
    pub width: u32,
}

/// The size information an SVG document declares: its explicit `height` and
/// `width` attributes, and the height and width of its view box.
#[derive(Clone, Copy, Debug, PartialEq, Eq, Structural)]
pub struct SvgSize {
    pub height: Option<u32>,
    pub width: Option<u32>,
    pub view_box: Option<ImageDimensions>,
}

/// The family of an image file, which decides how its size is read.
#[derive(Clone, Copy, Debug, PartialEq, Eq, Structural)]
pub enum FormatFamily {
    Vector,
    Raster,
}

/// What `svg_metadata` reads from an SVG document: its height, width and
/// view box (as height and width), each converted to an integer; or, where
/// the document does not parse, the parser's message.
pub uninterp spec fn svg_parse_of(text: Seq<char>) -> Result<
    (Option<u32>, Option<u32>, Option<(u32, u32)>),
    Seq<char>,
>;

/// What `image` reads from an image file with extension `ext` holding
/// `bytes`: `None` where the extension names no format it knows; else the
/// height and width it decodes in that format, or the decoder's message.
pub uninterp spec fn raster_decode_of(ext: Seq<char>, bytes: Seq<u8>) -> Option<
    Result<(u32, u32), Seq<char>>,
>;

pub open spec fn view_box_pair(b: Option<ImageDimensions>) -> Option<(u32, u32)> {
    match b {
        Some(d) => Some((d.height, d.width)),
        None => None,
    }
}

/// The declared size as the triple that `svg_parse_of` names.
pub open spec fn svg_size_fields(z: SvgSize) -> (Option<u32>, Option<u32>, Option<(u32, u32)>) {
    (z.height, z.width, view_box_pair(z.view_box))
}

/// Relies on `svg_metadata::Metadata::parse` and the metadata's `height`,
/// `width` and `view_box`: the size fields it extracts from the document; on
/// the display of its error where the document does not parse.
#[verifier::external_body]
fn read_svg_size(text: &str) -> (r: Result<SvgSize, String>)
    ensures
        match (r, svg_parse_of(text@)) {
            (Ok(z), Ok(t)) => svg_size_fields(z) == t,
            (Err(m), Err(n)) => m@ == n,
            _ => false,
        },
{
    match svg_metadata::Metadata::parse(text) {
        Ok(m) => Ok(SvgSize {
            height: m.height().map(|h| h as u32),
            width: m.width().map(|w| w as u32),
            view_box: m.view_box().map(
                |b| ImageDimensions { height: b.height as u32, width: b.width as u32 },
            ),
        }),
        Err(e) => Err(e.to_string()),
    }
}

/// Relies on `image::ImageFormat::from_extension`, then on
/// `image::load_from_memory_with_format` in the format found, the decoded
/// image's `height` and `width`, and the display of its error.
#[verifier::external_body]
fn decode_raster_size(ext: &str, bytes: &[u8]) -> (r: Option<Result<(u32, u32), String>>)
    ensures
        match (r, raster_decode_of(ext@, bytes@)) {
            (None, None) => true,
            (Some(Ok(d)), Some(Ok(e))) => d == e,
            (Some(Err(m)), Some(Err(n))) => m@ == n,
            _ => false,
        },
{
    match image::ImageFormat::from_extension(ext) {
        Some(format) => Some(
            image::load_from_memory_with_format(bytes, format).map(
                |img| (img.height(), img.width()),
            ).map_err(|e| e.to_string()),
        ),
        None => None,
    }
}

/// Where the extension of `p` starts: the last `.` of its file name, looking
/// back from position `i`.
pub open spec fn last_dot(p: Seq<char>, i: int) -> Option<int>
    decreases i,
{
    if i <= 0 || i > p.len() {
        None
    } else if p[i - 1] == '/' {
        None
    } else if p[i - 1] == '.' {
        Some(i - 1)
    } else {
        last_dot(p, i - 1)
    }
}

/// The file name of `p` is `..`.
pub open spec fn is_parent_name(p: Seq<char>) -> bool {
    &&& p.len() >= 2
    &&& p[p.len() - 1] == '.'
    &&& p[p.len() - 2] == '.'
    &&& (p.len() == 2 || p[p.len() - 3] == '/')
}

/// The extension of the file `p`: what follows the last `.` of its file
/// name, where that `.` is not the name's first character.
pub open spec fn extension_of(p: Seq<char>) -> Option<Seq<char>> {
    match last_dot(p, p.len() as int) {
        Some(d) => if d > 0 && p[d - 1] != '/' && !is_parent_name(p) {
            Some(p.subrange(d + 1, p.len() as int))
        } else {
            None
        },
        None => None,
    }
}

/// The extension of the file `file`, or the empty string where it has none.
pub fn file_extension(file: &str) -> (r: String)
    ensures
        r@ == match extension_of(file@) {
            Some(e) => e,
            None => Seq::empty(),
        },
{
    let v = chars_of(file);
    let n = v.len();
    let mut i: usize = n;
    while i > 0 && v[i - 1] != '/' && v[i - 1] != '.'
        invariant
            n == v@.len(),
            i <= n,
            last_dot(v@, n as int) == last_dot(v@, i as int),
        decreases i,
    {
        i = i - 1;
    }
    let parent_name = n >= 2 && v[n - 1] == '.' && v[n - 2] == '.' && (n == 2 || v[n - 3] == '/');
    if i > 1 && v[i - 1] == '.' && v[i - 2] != '/' && !parent_name {
        tail_string(&v, i)
    } else {
        String::new()
    }
}

/// `.svg`
pub open spec fn svg_suffix() -> Seq<char> {
    seq!['.', 's', 'v', 'g']
}

/// The file's extension is `svg`: its name ends in `.svg` after at least
/// one other character.
pub open spec fn is_vector_path(p: Seq<char>) -> bool {
    &&& p.len() >= 5
    &&& p.subrange(p.len() - 4, p.len() as int) == svg_suffix()
    &&& p[p.len() - 5] != '/'
}

pub open spec fn family_of(p: Seq<char>) -> FormatFamily {
    if is_vector_path(p) {
        FormatFamily::Vector
    } else {
        FormatFamily::Raster
    }
}

/// The format family of the file at `file`, told by its extension.
pub fn format_family(file: &str) -> (r: FormatFamily)
    ensures
        r == family_of(file@),
{
    let v = chars_of(file);
    let n = v.len();
    if n >= 5 && v[n - 4] == '.' && v[n - 3] == 's' && v[n - 2] == 'v' && v[n - 1] == 'g' && v[n
        - 5] != '/' {
        assert(v@.subrange(n - 4, n as int) =~= svg_suffix());
        FormatFamily::Vector
    } else {
        proof {
            if is_vector_path(file@) {
                assert(v@.subrange(n - 4, n as int)[0] == svg_suffix()[0]);
                assert(v@.subrange(n - 4, n as int)[1] == svg_suffix()[1]);
                assert(v@.subrange(n - 4, n as int)[2] == svg_suffix()[2]);
                assert(v@.subrange(n - 4, n as int)[3] == svg_suffix()[3]);
            }
        }
        FormatFamily::Raster
    }
}

/// The size of an SVG document: its explicit height and width when both are
/// set, else the size of its view box.
pub open spec fn svg_dimensions_of(z: SvgSize) -> Option<ImageDimensions> {
    match (z.height, z.width, z.view_box) {
        (Some(h), Some(w), _) => Some(ImageDimensions { height: h, width: w }),
        (_, _, Some(b)) => Some(b),
        _ => None,
    }
}

/// The size of an SVG document from what it declares; fails with
/// `InvalidVectorDimensions` where it declares neither both explicit sizes
/// nor a view box.
pub fn svg_dimensions(z: &SvgSize) -> (r: Result<ImageDimensions, ImageFnError>)
    ensures
        match svg_dimensions_of(*z) {
            Some(d) => r == Ok::<ImageDimensions, ImageFnError>(d),
            None => r is Err && r->Err_0 is InvalidVectorDimensions,
        },
{
    match (z.height, z.width, z.view_box) {
        (Some(h), Some(w), _) => Ok(ImageDimensions { height: h, width: w }),
        (_, _, Some(b)) => Ok(b),
        _ => Err(ImageFnError::InvalidVectorDimensions),
    }
}

/// The triple that `svg_parse_of` names, as declared sizes.
pub open spec fn svg_size_from_fields(t: (Option<u32>, Option<u32>, Option<(u32, u32)>)) -> SvgSize {
    SvgSize {
        height: t.0,
        width: t.1,
        view_box: match t.2 {
            Some(b) => Some(ImageDimensions { height: b.0, width: b.1 }),
            None => None,
        },
    }
}

/// The error for a file at `file`, read as `family`, that the decoder
/// refused with the message `cause`.
pub open spec fn is_decode_error(
    e: ImageFnError,
    family: FormatFamily,
    file: Seq<char>,
    cause: Seq<char>,
) -> bool {
    e matches ImageFnError::UnsupportedOrCorruptImage(g, f, c) && g == family && f@ == file && c@
        == cause
}

/// The size of the SVG document `text`, read from the file at `file`.
pub fn vector_dimensions(file: &str, text: &str) -> (r: Result<ImageDimensions, ImageFnError>)
    ensures
        match svg_parse_of(text@) {
            Err(m) => r is Err && is_decode_error(r->Err_0, FormatFamily::Vector, file@, m),
            Ok(t) => match svg_dimensions_of(svg_size_from_fields(t)) {
                Some(d) => r == Ok::<ImageDimensions, ImageFnError>(d),
                None => r is Err && r->Err_0 is InvalidVectorDimensions,
            },
        },
{
    match read_svg_size(text) {
        Ok(z) => {
            assert(svg_size_from_fields(svg_size_fields(z)) == z);
            svg_dimensions(&z)
        },
        Err(cause) => Err(
            ImageFnError::UnsupportedOrCorruptImage(FormatFamily::Vector, file.to_owned(), cause),
        ),
    }
}

/// The cause given for a file whose extension names no raster format.
pub open spec fn unknown_format_message() -> Seq<char> {
    seq!['u', 'n', 'k', 'n', 'o', 'w', 'n', ' ', 'i', 'm', 'a', 'g', 'e', ' ', 'f', 'o', 'r', 'm', 'a', 't']
}

/// The size of the raster image whose file at `file` holds `bytes`, decoded
/// in the format that the file's extension names.
pub fn raster_dimensions(file: &str, bytes: &[u8]) -> (r: Result<ImageDimensions, ImageFnError>)
    ensures
        match raster_decode_of(
            match extension_of(file@) {
                Some(e) => e,
                None => Seq::empty(),
            },
            bytes@,
        ) {
            None => r is Err && is_decode_error(
                r->Err_0,
                FormatFamily::Raster,
                file@,
                unknown_format_message(),
            ),
            Some(Err(m)) => r is Err && is_decode_error(r->Err_0, FormatFamily::Raster, file@, m),
            Some(Ok(d)) => r == Ok::<ImageDimensions, ImageFnError>(
                ImageDimensions { height: d.0, width: d.1 },
            ),
        },
{
    let ext = file_extension(file);
    match decode_raster_size(ext.as_str(), bytes) {
        Some(Ok(d)) => Ok(ImageDimensions { height: d.0, width: d.1 }),
        Some(Err(cause)) => Err(
            ImageFnError::UnsupportedOrCorruptImage(FormatFamily::Raster, file.to_owned(), cause),
        ),
        None => {
            let cause = "unknown image format".to_owned();
            proof {
                reveal_strlit("unknown image format");
                assert(cause@ =~= unknown_format_message());
            }
            Err(ImageFnError::UnsupportedOrCorruptImage(FormatFamily::Raster, file.to_owned(), cause))
        },
    }
}

} // verus!
