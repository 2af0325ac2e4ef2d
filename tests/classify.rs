use photos_manager::file::{
    eq_ignore_ascii_case, extension, is_photo, is_video, kind_of_name, AssetKind, Error, File,
};

const PHOTO_EXTENSIONS: [&str; 15] = [
    "rgb", "gif", "pbm", "pgm", "ppm", "tiff", "rast", "xbm", "jpeg", "jpg", "bmp", "png", "webp",
    "exr", "heif",
];

fn mixed_case(s: &str) -> String {
    s.chars()
        .enumerate()
        .map(|(i, c)| if i % 2 == 0 { c.to_ascii_uppercase() } else { c })
        .collect()
}

#[test]
fn every_photo_extension_accepted_in_any_case() {
    for e in PHOTO_EXTENSIONS {
        for variant in [e.to_string(), e.to_uppercase(), mixed_case(e)] {
            let path = format!("/photos/sub/picture.{}", variant);
            let f = File::new(&path, true).unwrap();
            assert_eq!(f.kind(), AssetKind::Photo, "{}", path);
            assert_eq!(f.path(), &path);
            assert_eq!(f.name(), &format!("picture.{}", variant));
            assert!(is_photo(&variant));
            assert!(!is_video(&variant));
        }
    }
}

#[test]
fn video_extension_accepted_in_any_case() {
    for variant in ["mp4", "MP4", "Mp4", "mP4"] {
        let path = format!("/videos/clip.{}", variant);
        let f = File::new(&path, true).unwrap();
        assert_eq!(f.kind(), AssetKind::Video);
        assert_eq!(f.name(), &format!("clip.{}", variant));
        assert!(is_video(variant));
        assert!(!is_photo(variant));
    }
}

#[test]
fn other_extensions_unsupported() {
    for e in ["txt", "mov", "jpgx", "jp", "", "m4v", "raw", "heic", "jpég"] {
        let path = format!("/photos/file.{}", e);
        assert_eq!(File::new(&path, true), Err(Error::UnsupportedExtension), "{}", path);
    }
}

#[test]
fn missing_extension() {
    assert_eq!(File::new(&"/photos/README".to_string(), true), Err(Error::NoExtension));
    assert_eq!(File::new(&"/photos/.jpg".to_string(), true), Err(Error::NoExtension));
    assert_eq!(File::new(&"/".to_string(), false), Err(Error::NoExtension));
    assert_eq!(File::new(&"/photos/sub".to_string(), false), Err(Error::NoExtension));
}

#[test]
fn not_a_regular_file() {
    assert_eq!(File::new(&"/photos/album.jpg".to_string(), false), Err(Error::NotARegularFile));
    assert_eq!(File::new(&"/photos/notes.txt".to_string(), false), Err(Error::NotARegularFile));
}

#[test]
fn extension_follows_last_dot() {
    assert_eq!(extension("a.b.JPG"), Some("JPG".to_string()));
    assert_eq!(extension("archive.tar.gz"), Some("gz".to_string()));
    assert_eq!(extension(".hidden"), None);
    assert_eq!(extension("..jpg"), Some("jpg".to_string()));
    assert_eq!(extension("trailing."), Some("".to_string()));
    assert_eq!(extension("plain"), None);
    assert_eq!(extension(""), None);
}

#[test]
fn case_folding_is_ascii_only() {
    assert!(eq_ignore_ascii_case("JpEg", "jpeg"));
    assert!(!eq_ignore_ascii_case("jpeg", "jpg"));
    assert!(!eq_ignore_ascii_case("ÉXR", "éxr"));
    assert!(eq_ignore_ascii_case("", ""));
}

#[test]
fn name_is_final_component() {
    let f = File::new(&"relative/dir/IMG_0001.PNG".to_string(), true).unwrap();
    assert_eq!(f.name(), "IMG_0001.PNG");
    assert_eq!(f.kind(), AssetKind::Photo);
}

#[test]
fn kind_from_name_alone() {
    assert_eq!(kind_of_name("a.HEIF", true), Ok(AssetKind::Photo));
    assert_eq!(kind_of_name("a.Mp4", true), Ok(AssetKind::Video));
    assert_eq!(kind_of_name("a.mp4", false), Err(Error::NotARegularFile));
    assert_eq!(kind_of_name("a.doc", true), Err(Error::UnsupportedExtension));
    assert_eq!(kind_of_name("noext", true), Err(Error::NoExtension));
}
