use emulated_camera::kind::{classify_extension, detect_kind, SourceKind};
use emulated_camera::path::HostPath;
use emulated_camera::source::MediaSource;
use emulated_camera::text::to_lowercase;

fn host(path: &str) -> HostPath {
    HostPath::new(path.as_bytes().to_vec())
}

fn extension_of(path: &str) -> Option<String> {
    host(path).extension().map(|e| String::from_utf8(e).unwrap())
}

#[test]
fn extension_agrees_with_the_standard_library_on_all_short_paths() {
    let letters = ['a', '.', '/'];
    let mut paths = vec![String::new()];
    let mut longest = vec![String::new()];
    for _ in 0..8 {
        let mut longer = Vec::new();
        for path in &longest {
            for letter in letters {
                longer.push(format!("{}{}", path, letter));
            }
        }
        paths.extend(longer.iter().cloned());
        longest = longer;
    }
    for path in &paths {
        let expected = std::path::Path::new(path)
            .extension()
            .map(|e| e.to_str().unwrap().to_owned());
        assert_eq!(extension_of(path), expected, "path {:?}", path);
    }
}

#[test]
fn extension_edge_cases() {
    assert_eq!(extension_of("/data/clip.mp4"), Some("mp4".to_owned()));
    assert_eq!(extension_of("clip.tar.gz"), Some("gz".to_owned()));
    assert_eq!(extension_of("clip."), Some("".to_owned()));
    assert_eq!(extension_of(".png"), None);
    assert_eq!(extension_of("..png"), Some("png".to_owned()));
    assert_eq!(extension_of("/a.b/clip"), None);
    assert_eq!(extension_of("photo.png/"), Some("png".to_owned()));
    assert_eq!(extension_of("photo.png/."), Some("png".to_owned()));
    assert_eq!(extension_of("photo.png/.."), None);
    assert_eq!(extension_of(""), None);
    assert_eq!(extension_of("/"), None);
    assert_eq!(extension_of("."), None);
}

#[test]
fn still_image_extensions() {
    for ext in ["jpg", "jpeg", "png", "bmp", "webp", "gif"] {
        let path = format!("/media/photo.{}", ext);
        assert_eq!(detect_kind(&host(&path)), SourceKind::StillImage, "{}", path);
        let upper = format!("/media/photo.{}", ext.to_uppercase());
        assert_eq!(detect_kind(&host(&upper)), SourceKind::StillImage, "{}", upper);
    }
    assert_eq!(detect_kind(&host("/media/photo.JpEg")), SourceKind::StillImage);
}

#[test]
fn everything_else_is_a_video() {
    for path in ["clip.mp4", "clip.mkv", "clip", "", "jpg", ".jpg", "photo.jpg.mp4", "photo.jpgx", "photo.jp"] {
        assert_eq!(detect_kind(&host(path)), SourceKind::Video, "{}", path);
    }
}

#[test]
fn the_rest_of_the_path_and_the_case_make_no_difference() {
    for (one, other) in [("a.png", "/x/y.tar.PnG"), ("b.WEBP", "webp/jpg.webp"), ("c.Mp4", "/jpg/d.mP4")] {
        assert_eq!(detect_kind(&host(one)), detect_kind(&host(other)), "{}", one);
    }
    assert_eq!(detect_kind(&host("/jpg/clip")), detect_kind(&host("jpg")));
}

#[test]
fn only_the_extension_has_to_be_text() {
    assert_eq!(
        detect_kind(&HostPath::new(b"/media/\xff\xfe.png".to_vec())),
        SourceKind::StillImage
    );
    assert_eq!(
        detect_kind(&HostPath::new(b"/media/photo.p\xffng".to_vec())),
        SourceKind::Video
    );
}

#[test]
fn lower_case_goes_beyond_ascii() {
    assert_eq!(to_lowercase("JPEG"), "jpeg");
    assert_eq!(to_lowercase("\u{c4}\u{d6}B-1"), "\u{e4}\u{f6}b-1");
    assert_eq!(detect_kind(&host("photo.\u{ff30}\u{ff2e}\u{ff27}")), SourceKind::Video);
    assert_eq!(detect_kind(&host("photo.G\u{130}F")), SourceKind::Video);
}

#[test]
fn lowering_ascii_first_changes_nothing() {
    for c in ['\0'..='\u{d7ff}', '\u{e000}'..='\u{10ffff}'].into_iter().flatten() {
        for text in [format!("A{c}Bz"), format!("{c}"), format!("X\u{3a3}{c}")] {
            assert_eq!(to_lowercase(&text), text.to_lowercase(), "{:?}", text);
        }
    }
    for text in ["\u{39f}\u{3a3}A", "A\u{3a3}", "a\u{3a3}.", "\u{3a3}Z", "I\u{307}\u{130}", ""] {
        assert_eq!(to_lowercase(text), text.to_lowercase());
    }
}

#[test]
fn extensions_that_differ_in_ascii_case_only() {
    for (one, other) in [
        ("a.JP\u{c9}G", "b.jp\u{c9}g"),
        ("a.\u{212a}Png", "b.\u{212a}pNG"),
        ("a.G\u{130}F", "b.g\u{130}f"),
    ] {
        assert_eq!(detect_kind(&host(one)), SourceKind::Video);
        assert_eq!(detect_kind(&host(other)), SourceKind::Video);
    }
    for path in [b"a.P\xffNG".to_vec(), b"b.p\xffng".to_vec()] {
        assert_eq!(detect_kind(&HostPath::new(path)), SourceKind::Video);
    }
}

#[test]
fn classification_expects_lower_case() {
    assert_eq!(classify_extension("gif".to_owned()), SourceKind::StillImage);
    assert_eq!(classify_extension("GIF".to_owned()), SourceKind::Video);
    assert_eq!(classify_extension(String::new()), SourceKind::Video);
}

#[test]
fn a_path_as_text_and_in_messages() {
    assert_eq!(host("/a/\u{e9}").to_text(), Some("/a/\u{e9}".to_owned()));
    assert_eq!(host("/a/\u{e9}").display(), "/a/\u{e9}");
    let broken = HostPath::new(b"/a/\xff.mp4".to_vec());
    assert_eq!(broken.to_text(), None);
    assert_eq!(broken.display(), "/a/\u{fffd}.mp4");
    assert_eq!(broken.as_bytes(), b"/a/\xff.mp4");
    assert_eq!(broken.clone().as_bytes(), broken.as_bytes());
}

#[test]
fn a_source_knows_its_kind() {
    let still: MediaSource<u32, u32> = MediaSource::new(host("/a/b.PNG"), host("ffmpeg"));
    assert_eq!(still.kind(), SourceKind::StillImage);
    let video: MediaSource<u32, u32> = MediaSource::new(host("/a/b.mp4"), host("ffmpeg"));
    assert_eq!(video.kind(), SourceKind::Video);
}
