//! Which kind of source a media file is.

use vstd::prelude::*;
use vstd::utf8::is_ascii_chars;

use crate::path::extension;
use crate::path::HostPath;
use crate::text::ascii_lowered;
use crate::text::ascii_lowered_bytes;
use crate::text::lowercase;
use crate::text::std_from_utf8;
use crate::text::text_of;
use crate::text::to_lowercase;

verus! {

/// Type of media source file, detected from the file extension.
#[derive(Debug, Clone, Copy, PartialEq, Eq, Structural)]
pub enum SourceKind {
    /// Video streams (e.g. MP4) decoded and looped at native frame rate.
    Video,
    /// Still images (e.g. JPG, PNG) decoded once to a static frame.
    StillImage,
}

/// The lower-case extensions of still images.
pub open spec fn is_image_extension(ext: Seq<char>) -> bool {
    ||| ext == "jpg"@
    ||| ext == "jpeg"@
    ||| ext == "png"@
    ||| ext == "bmp"@
    ||| ext == "webp"@
    ||| ext == "gif"@
}

/// The kind of a file with the lower-case extension `ext`.
pub open spec fn kind_of_extension(ext: Seq<char>) -> SourceKind {
    if is_image_extension(ext) {
        SourceKind::StillImage
    } else {
        SourceKind::Video
    }
}

/// The text of the extension of `path`, if there is one and it is UTF-8.
pub open spec fn extension_text(path: Seq<u8>) -> Option<Seq<char>> {
    match extension(path) {
        Some(ext) => text_of(ext),
        None => None,
    }
}

/// The kind of the file at `path`: a still image where its extension names one, in upper or lower
/// case, and a video otherwise.
pub open spec fn kind_of_path(path: Seq<u8>) -> SourceKind {
    match extension_text(path) {
        Some(ext) => kind_of_extension(lowercase(ext)),
        None => SourceKind::Video,
    }
}

/// The kind of a file with the lower-case extension `ext`.
pub fn classify_extension(ext: String) -> (kind: SourceKind)
    ensures
        kind == kind_of_extension(ext@),
{
    if ext == "jpg".to_owned() || ext == "jpeg".to_owned() || ext == "png".to_owned() || ext
        == "bmp".to_owned() || ext == "webp".to_owned() || ext == "gif".to_owned() {
        SourceKind::StillImage
    } else {
        SourceKind::Video
    }
}

/// Detects whether the file path represents a still image or a video file.
pub fn detect_kind(path: &HostPath) -> (kind: SourceKind)
    ensures
        kind == kind_of_path(path@),
{
    match path.extension() {
        None => SourceKind::Video,
        Some(bytes) => match std_from_utf8(bytes.as_slice()) {
            None => SourceKind::Video,
            Some(ext) => classify_extension(to_lowercase(ext.as_str())),
        },
    }
}

/// The extension decides: a file whose name is a stem, a dot and `ext` is of the kind that the
/// lower-case form of `ext` names.
pub proof fn kind_depends_on_the_extension(stem: Seq<u8>, ext: Seq<char>)
    requires
        stem.len() > 0,
        stem.last() != crate::path::SLASH,
        ext.len() > 0,
        is_ascii_chars(ext),
        !ext.contains('/'),
        !ext.contains('.'),
    ensures
        kind_of_path(stem + seq![crate::path::DOT] + vstd::utf8::encode_utf8(ext))
            == kind_of_extension(ascii_lowered(ext)),
{
    let bytes = vstd::utf8::encode_utf8(ext);
    vstd::utf8::is_ascii_chars_encode_utf8(ext);
    vstd::utf8::encode_utf8_valid_utf8(ext);
    vstd::utf8::encode_utf8_decode_utf8(ext);
    assert forall|i: int| 0 <= i < bytes.len() implies bytes[i] != crate::path::SLASH && bytes[i]
        != crate::path::DOT by {
        assert(ext.contains(ext[i]));
        assert(bytes[i] == ext[i] as u8);
        assert(ext[i] as u32 as u8 == ext[i] as u32);
    }
    crate::path::extension_follows_the_last_dot(stem, bytes);
}

/// The kind depends on the extension alone, and upper and lower case of ASCII letters make no
/// difference: two files anywhere, of any name, are of one kind if their extensions differ in
/// nothing else. The extensions may hold other letters, or bytes that are no UTF-8.
pub proof fn kind_ignores_case(
    one_path: Seq<u8>,
    other_path: Seq<u8>,
    one: Seq<u8>,
    other: Seq<u8>,
)
    requires
        extension(one_path) == Some(one),
        extension(other_path) == Some(other),
        ascii_lowered_bytes(one) == ascii_lowered_bytes(other),
    ensures
        kind_of_path(one_path) == kind_of_path(other_path),
{
    crate::text::lowering_bytes_lowers_text(one);
    crate::text::lowering_bytes_lowers_text(other);
    if let (Some(text), Some(other_text)) = (text_of(one), text_of(other)) {
        crate::text::same_lower_case(text, other_text);
    }
}

/// Nor does the case of any other letter make a difference: extensions whose texts have one
/// lower-case form make files of one kind.
pub proof fn kind_depends_on_the_lower_case(
    one_path: Seq<u8>,
    other_path: Seq<u8>,
    one: Seq<char>,
    other: Seq<char>,
)
    requires
        extension_text(one_path) == Some(one),
        extension_text(other_path) == Some(other),
        lowercase(one) == lowercase(other),
    ensures
        kind_of_path(one_path) == kind_of_path(other_path),
{
}

/// A file whose extension is no UTF-8, in whatever case of its letters, is a video.
pub proof fn unreadable_extension_makes_a_video(path: Seq<u8>, ext: Seq<u8>, in_case: Seq<u8>)
    requires
        extension(path) == Some(in_case),
        !vstd::utf8::valid_utf8(ext),
        ascii_lowered_bytes(in_case) == ascii_lowered_bytes(ext),
    ensures
        kind_of_path(path) == SourceKind::Video,
{
    crate::text::lowering_bytes_lowers_text(ext);
    crate::text::lowering_bytes_lowers_text(in_case);
}

/// Nothing but the extension decides: two files with the same extension, or with none, are of one
/// kind.
pub proof fn kind_depends_on_nothing_else(one_path: Seq<u8>, other_path: Seq<u8>)
    requires
        extension(one_path) == extension(other_path),
    ensures
        kind_of_path(one_path) == kind_of_path(other_path),
{
}

/// A file is a still image exactly if its extension is text and its lower-case form is one of the
/// six extensions of images.
pub proof fn still_images_have_these_extensions(path: Seq<u8>, ext: Seq<char>)
    ensures
        kind_of_extension(ext) == SourceKind::StillImage <==> seq![
            "jpg"@,
            "jpeg"@,
            "png"@,
            "bmp"@,
            "webp"@,
            "gif"@,
        ].contains(ext),
        extension(path) is None ==> kind_of_path(path) == SourceKind::Video,
        extension(path) == Some(vstd::utf8::encode_utf8(ext)) ==> (kind_of_path(path)
            == SourceKind::StillImage <==> seq![
            "jpg"@,
            "jpeg"@,
            "png"@,
            "bmp"@,
            "webp"@,
            "gif"@,
        ].contains(lowercase(ext))),
{
    let images = seq!["jpg"@, "jpeg"@, "png"@, "bmp"@, "webp"@, "gif"@];
    crate::text::text_encodes_back(Seq::empty(), ext);
    assert(images[0] == "jpg"@ && images[1] == "jpeg"@ && images[2] == "png"@);
    assert(images[3] == "bmp"@ && images[4] == "webp"@ && images[5] == "gif"@);
    assert(images.contains(images[0]) && images.contains(images[1]) && images.contains(images[2]));
    assert(images.contains(images[3]) && images.contains(images[4]) && images.contains(images[5]));
}

} // verus!
