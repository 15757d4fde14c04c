//! Image facts: which files are probed as images, and the one-line summary
//! of an image's header.
use vstd::prelude::*;

use crate::platform::{file_size_text, format_file_size};
use crate::text::{
    ascii_lower_seq, chars_eq, chars_of, decimal, decimal_string, path_extension,
    spec_path_extension, to_ascii_lower_chars,
};

verus! {

/// Image file formats the preview knows by name.
#[derive(Debug, Clone, Copy, PartialEq, Eq, Structural)]
pub enum ImageFormat {
    Png,
    Jpeg,
    Gif,
    WebP,
    Bmp,
    Ico,
    Tiff,
    Qoi,
    /// Any other format the decoder recognises.
    Other,
}

/// Header-level facts about an image file, known before decoding.
#[derive(Debug, Clone, Copy, PartialEq, Eq, Structural)]
pub struct ImageMeta {
    pub width: u32,
    pub height: u32,
    pub format: ImageFormat,
    pub bytes: u64,
}

pub open spec fn spec_format_label(f: ImageFormat) -> Seq<char> {
    match f {
        ImageFormat::Png => "PNG"@,
        ImageFormat::Jpeg => "JPEG"@,
        ImageFormat::Gif => "GIF"@,
        ImageFormat::WebP => "WebP"@,
        ImageFormat::Bmp => "BMP"@,
        ImageFormat::Ico => "ICO"@,
        ImageFormat::Tiff => "TIFF"@,
        ImageFormat::Qoi => "QOI"@,
        ImageFormat::Other => "image"@,
    }
}

pub fn format_label(f: ImageFormat) -> (r: &'static str)
    ensures
        r@ == spec_format_label(f),
{
    match f {
        ImageFormat::Png => "PNG",
        ImageFormat::Jpeg => "JPEG",
        ImageFormat::Gif => "GIF",
        ImageFormat::WebP => "WebP",
        ImageFormat::Bmp => "BMP",
        ImageFormat::Ico => "ICO",
        ImageFormat::Tiff => "TIFF",
        ImageFormat::Qoi => "QOI",
        ImageFormat::Other => "image",
    }
}

impl ImageMeta {
    pub open spec fn spec_summary(self) -> Seq<char> {
        decimal(self.width as nat) + "\u{d7}"@ + decimal(self.height as nat) + " "@
            + spec_format_label(self.format) + " \u{b7} "@ + file_size_text(self.bytes as nat)
    }

    /// `1920×1080 PNG · 2.3 MB`, for titles and status lines.
    pub fn summary(&self) -> (r: String)
        ensures
            r@ == self.spec_summary(),
    {
        let mut s = decimal_string(self.width as u64);
        s.append("\u{d7}");
        s.append(decimal_string(self.height as u64).as_str());
        s.append(" ");
        s.append(format_label(self.format));
        s.append(" \u{b7} ");
        s.append(format_file_size(self.bytes).as_str());
        s
    }
}

/// Extensions that trigger the header probe (compared in ASCII lower case).
pub open spec fn image_extension(e: Seq<char>) -> bool {
    e == "png"@ || e == "jpg"@ || e == "jpeg"@ || e == "gif"@ || e == "webp"@ || e == "bmp"@
        || e == "ico"@ || e == "tif"@ || e == "tiff"@ || e == "qoi"@
}

fn is_word(v: &Vec<char>, w: &str) -> (r: bool)
    ensures
        r == (v@ == w@),
{
    let wc = chars_of(w);
    chars_eq(v, &wc)
}

/// The path's extension makes it a candidate image (the decoder then goes
/// by the file's magic bytes).
pub fn has_image_extension(path: &str) -> (r: bool)
    ensures
        r == image_extension(ascii_lower_seq(spec_path_extension(path@))),
{
    let ext = path_extension(path);
    let ec = chars_of(ext.as_str());
    let e = to_ascii_lower_chars(&ec);
    is_word(&e, "png") || is_word(&e, "jpg") || is_word(&e, "jpeg") || is_word(&e, "gif")
        || is_word(&e, "webp") || is_word(&e, "bmp") || is_word(&e, "ico") || is_word(&e, "tif")
        || is_word(&e, "tiff") || is_word(&e, "qoi")
}

/// Why an image is not drawn: images are off (no picker), or the file is
/// larger than the configured limit. `None` when it is drawn.
pub fn image_note(has_picker: bool, bytes: u64, max_bytes: u64) -> (r: Option<String>)
    ensures
        !has_picker ==> (r matches Some(m) && m@ == "image preview off ([preview] images)"@),
        has_picker && bytes > max_bytes ==> (r matches Some(m) && m@ == "not decoded: "@
            + file_size_text(bytes as nat) + " exceeds [preview] image_max_bytes ("@
            + file_size_text(max_bytes as nat) + ")"@),
        has_picker && bytes <= max_bytes ==> r is None,
{
    if !has_picker {
        Some(String::from_str("image preview off ([preview] images)"))
    } else if bytes > max_bytes {
        let a = crate::text::concat("not decoded: ", format_file_size(bytes).as_str());
        let b = crate::text::concat(a.as_str(), " exceeds [preview] image_max_bytes (");
        let c = crate::text::concat(b.as_str(), format_file_size(max_bytes).as_str());
        Some(crate::text::concat(c.as_str(), ")"))
    } else {
        None
    }
}

/// The full-screen image view between frames: the last requested encode
/// (its generation and target cell size) while it is pending, the target of
/// the encoded image on hand, and a note shown in place of the image.
pub struct ImageView {
    pub generation: u64,
    pub requested: Option<(u64, (u16, u16))>,
    pub encoded: Option<(u16, u16)>,
    pub note: Option<String>,
}

/// What happens in the image view.
pub enum ImageEvent {
    /// The worker finished the encode of `generation`: the target it was
    /// fitted to, or why it failed.
    Finished { generation: u64, outcome: Result<(u16, u16), String> },
    /// A frame is drawn with the image area `target` cells large; `picker`
    /// tells whether images can be drawn at all.
    Frame { target: (u16, u16), picker: bool },
}

/// What the view asks of the loop.
pub enum ImageAction {
    Nothing,
    /// Show the finished encode.
    Show,
    /// Encode the image anew for `target`, as `generation`.
    Request { generation: u64, target: (u16, u16) },
}

/// A step of the image view: a finished encode counts only when it is the
/// one last requested (older ones are dropped); a frame requests an encode
/// when images are drawn, nothing is noted, none is pending, the area is not
/// empty and the image on hand was fitted to another size (or there is
/// none), each request under the next generation.
pub open spec fn image_step(s: ImageView, ev: ImageEvent) -> (ImageView, ImageAction) {
    match ev {
        ImageEvent::Finished { generation, outcome } => match s.requested {
            Some((g, _)) if g == generation => match outcome {
                Ok(t) => (ImageView { requested: None, encoded: Some(t), ..s }, ImageAction::Show),
                Err(m) => (ImageView { requested: None, note: Some(m), ..s }, ImageAction::Nothing),
            },
            _ => (s, ImageAction::Nothing),
        },
        ImageEvent::Frame { target, picker } => if picker && s.note is None && s.requested is None
            && target.0 > 0 && target.1 > 0 && s.encoded != Some(target) {
            let g = (s.generation + 1) as u64;
            (
                ImageView { generation: g, requested: Some((g, target)), ..s },
                ImageAction::Request { generation: g, target },
            )
        } else {
            (s, ImageAction::Nothing)
        },
    }
}

/// The image view's step (see `image_step`); on a frame the generation
/// count must have room for one more request.
pub fn image_view_step(s: ImageView, ev: ImageEvent) -> (r: (ImageView, ImageAction))
    requires
        ev is Frame ==> s.generation < u64::MAX,
    ensures
        r == image_step(s, ev),
{
    match ev {
        ImageEvent::Finished { generation, outcome } => {
            let current = match s.requested {
                Some((g, _)) => g == generation,
                None => false,
            };
            if current {
                match outcome {
                    Ok(t) => (ImageView { requested: None, encoded: Some(t), ..s }, ImageAction::Show),
                    Err(m) => (ImageView { requested: None, note: Some(m), ..s }, ImageAction::Nothing),
                }
            } else {
                (s, ImageAction::Nothing)
            }
        },
        ImageEvent::Frame { target, picker } => {
            let stale = match s.encoded {
                Some(e) => e.0 != target.0 || e.1 != target.1,
                None => true,
            };
            if picker && s.note.is_none() && s.requested.is_none() && target.0 > 0 && target.1 > 0
                && stale {
                let g = s.generation + 1;
                (
                    ImageView { generation: g, requested: Some((g, target)), ..s },
                    ImageAction::Request { generation: g, target },
                )
            } else {
                (s, ImageAction::Nothing)
            }
        },
    }
}

} // verus!
