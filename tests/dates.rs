use photos_manager::date::{Date, DateTime};
use photos_manager::file::{File, Photo, Video};
use photos_manager::get_created_at::{
    date_from_capture_text, find_date_digits, get_created_at, get_created_at_from_creation_time,
    get_created_at_from_metadata, get_created_at_from_name, get_created_from_exif, resolve_date,
    GetCreatedAtError,
};

fn at(y: i32, mo: u32, d: u32, h: u32, mi: u32, s: u32) -> DateTime {
    DateTime { date: Date { year: y, month: mo, day: d }, hour: h, minute: mi, second: s }
}

fn exif_tiff(capture: &str) -> Vec<u8> {
    let field = exif::Field {
        tag: exif::Tag::DateTimeOriginal,
        ifd_num: exif::In::PRIMARY,
        value: exif::Value::Ascii(vec![capture.as_bytes().to_vec()]),
    };
    let mut writer = exif::experimental::Writer::new();
    writer.push_field(&field);
    let mut buf = std::io::Cursor::new(Vec::new());
    writer.write(&mut buf, false).unwrap();
    buf.into_inner()
}

#[test]
fn name_with_counter_gives_midnight() {
    assert_eq!(get_created_at_from_name("IMG_20230815_001.jpg"), Ok(at(2023, 8, 15, 0, 0, 0)));
}

#[test]
fn each_name_encoding() {
    assert_eq!(get_created_at_from_name("holiday 2021-07-04 beach.png"), Ok(at(2021, 7, 4, 0, 0, 0)));
    assert_eq!(get_created_at_from_name("PXL_20200229_123456789.jpg"), Ok(at(2020, 2, 29, 0, 0, 0)));
    assert_eq!(get_created_at_from_name("scan-19991231-front.tiff"), Ok(at(1999, 12, 31, 0, 0, 0)));
    assert_eq!(get_created_at_from_name("00000IMG_00000_BURST20190102123456.jpg"), Ok(at(2019, 1, 2, 0, 0, 0)));
    assert_eq!(get_created_at_from_name("20180607_123456.mp4"), Ok(at(2018, 6, 7, 0, 0, 0)));
}

#[test]
fn name_without_date() {
    for name in ["DSC01234.JPG", "20230815.jpg", "20230815_12.jpg", "20230815_1234567.jpg", "2023_08_15.jpg", ""] {
        assert_eq!(
            get_created_at_from_name(name),
            Err(GetCreatedAtError::NameHasNoValidDate),
            "{}",
            name
        );
    }
}

#[test]
fn name_with_impossible_date() {
    assert_eq!(get_created_at_from_name("IMG_20231345_001.jpg"), Err(GetCreatedAtError::FailedToParseDate));
    assert_eq!(get_created_at_from_name("x_20230229_y.jpg"), Err(GetCreatedAtError::FailedToParseDate));
}

#[test]
fn leftmost_encoding_wins() {
    assert_eq!(find_date_digits("a_20200101_b-20210202-c.jpg"), Some("20200101".to_string()));
    assert_eq!(find_date_digits("2019-03-04_20200101_.jpg"), Some("20190304".to_string()));
    assert_eq!(find_date_digits("nothing here"), None);
}

/// The file-name pattern as a regular expression, the way the date
/// encodings are usually written down.
fn digits_by_regex(name: &str) -> Option<String> {
    let re = regex::Regex::new(r"\d{4}-\d{2}-\d{2}|_\d{8}_|-\d{8}-|BURST\d{8}|(\d{8})_(\d{3,6})\.").unwrap();
    let caps = re.captures(name)?;
    let m = caps.get(1).or_else(|| caps.get(0)).unwrap().as_str();
    Some(m.replace(['-', '_', '.'], "").replace("BURST", ""))
}

#[test]
fn matcher_agrees_with_regular_expression() {
    let names = [
        "IMG_20230815_001.jpg", "IMG_20230815_0001.jpg", "IMG_20230815_000001.jpg",
        "IMG_20230815_0000001.jpg", "20230815_12.jpg", "x2023-08-15y", "2023-8-15.jpg",
        "_2023081_", "-20230815-", "-20230815_", "BURST2023081", "BURST20230815",
        "burst20230815", "a_20200101_b-20210202-c.jpg", "2019-03-04_20200101_.jpg",
        "1234567890_123.jpg", "12345678_123.", "12345678_123", "__20230815__",
        "--2023-08-15--", "2023-08-15-20230815-", "IMG-20191231-WA0001.jpg",
        "Screenshot_20220101-101010.png", "BURST2023BURST20230102",
    ];
    for n in names {
        assert_eq!(find_date_digits(n), digits_by_regex(n), "{}", n);
    }
}

#[test]
fn capture_text_parses() {
    assert_eq!(date_from_capture_text("2001-02-03 04:05:06"), Ok(at(2001, 2, 3, 4, 5, 6)));
    assert_eq!(date_from_capture_text("2001-02-30 04:05:06"), Err(GetCreatedAtError::FailedToParseDate));
    assert_eq!(date_from_capture_text("2001-02-03 24:05:06"), Err(GetCreatedAtError::FailedToParseDate));
    assert_eq!(date_from_capture_text("unknown"), Err(GetCreatedAtError::FailedToParseDate));
}

#[test]
fn exif_capture_time_read() {
    let data = exif_tiff("2001:02:03 04:05:06");
    assert_eq!(get_created_from_exif(&data), Ok(at(2001, 2, 3, 4, 5, 6)));
}

#[test]
fn exif_missing_or_unreadable() {
    assert_eq!(get_created_from_exif(b"not an image"), Err(GetCreatedAtError::PhotoHasNoExifData));
    let other = exif::Field {
        tag: exif::Tag::ImageDescription,
        ifd_num: exif::In::PRIMARY,
        value: exif::Value::Ascii(vec![b"Sample".to_vec()]),
    };
    let mut writer = exif::experimental::Writer::new();
    writer.push_field(&other);
    let mut buf = std::io::Cursor::new(Vec::new());
    writer.write(&mut buf, true).unwrap();
    assert_eq!(get_created_from_exif(&buf.into_inner()), Err(GetCreatedAtError::NoDateTimeInExif));
}

#[test]
fn exif_wins_over_name() {
    let photo = File::Photo(Photo {
        name: "IMG_20230815_001.jpg".to_string(),
        path: "/p/IMG_20230815_001.jpg".to_string(),
    });
    let data = exif_tiff("2001:02:03 04:05:06");
    assert_eq!(get_created_at(&photo, &data, Ok(0)), Ok(at(2001, 2, 3, 4, 5, 6)));
    assert_eq!(
        resolve_date(Some(at(2001, 2, 3, 4, 5, 6)), "IMG_20230815_001.jpg", Ok(0)),
        Ok(at(2001, 2, 3, 4, 5, 6))
    );
}

#[test]
fn name_used_without_exif() {
    let photo = File::Photo(Photo {
        name: "IMG_20230815_001.jpg".to_string(),
        path: "/p/IMG_20230815_001.jpg".to_string(),
    });
    assert_eq!(get_created_at(&photo, b"", Ok(0)), Ok(at(2023, 8, 15, 0, 0, 0)));
}

#[test]
fn creation_time_last() {
    let photo = File::Photo(Photo { name: "DSC0001.jpg".to_string(), path: "/p/DSC0001.jpg".to_string() });
    assert_eq!(get_created_at(&photo, b"", Ok(981173106)), Ok(at(2001, 2, 3, 4, 5, 6)));
    let video = File::Video(Video { name: "clip.mp4".to_string(), path: "/v/clip.mp4".to_string() });
    assert_eq!(get_created_at(&video, b"", Ok(1692057600)), Ok(at(2023, 8, 15, 0, 0, 0)));
    assert_eq!(get_created_at_from_creation_time(Ok(0)), Ok(at(1970, 1, 1, 0, 0, 0)));
}

#[test]
fn creation_time_errors_surface() {
    let video = File::Video(Video { name: "clip.mp4".to_string(), path: "/v/clip.mp4".to_string() });
    assert_eq!(
        get_created_at(&video, b"", Err(GetCreatedAtError::NoCreatedAt)),
        Err(GetCreatedAtError::NoCreatedAt)
    );
    assert_eq!(
        get_created_at_from_metadata(Err(GetCreatedAtError::PhotoHasNoMetadata), "x.jpg"),
        Err(GetCreatedAtError::PhotoHasNoMetadata)
    );
    assert_eq!(
        get_created_at_from_creation_time(Ok(u64::MAX)),
        Err(GetCreatedAtError::NameHasNoValidDate)
    );
}

#[test]
fn video_skips_exif() {
    let video = File::Video(Video { name: "clip.mp4".to_string(), path: "/v/clip.mp4".to_string() });
    let data = exif_tiff("2001:02:03 04:05:06");
    assert_eq!(get_created_at(&video, &data, Ok(1692057600)), Ok(at(2023, 8, 15, 0, 0, 0)));
}

#[test]
fn creation_time_past_9999() {
    assert_eq!(get_created_at_from_creation_time(Ok(253402300800)), Ok(at(10000, 1, 1, 0, 0, 0)));
    assert_eq!(get_created_at_from_creation_time(Ok(8210266876799)), Ok(at(262142, 12, 31, 23, 59, 59)));
    assert_eq!(
        get_created_at_from_creation_time(Ok(8210266876800)),
        Err(GetCreatedAtError::NameHasNoValidDate)
    );
}

#[test]
fn unparsable_exif_value_falls_through() {
    let photo = File::Photo(Photo {
        name: "IMG_20230815_001.jpg".to_string(),
        path: "/p/IMG_20230815_001.jpg".to_string(),
    });
    let data = exif_tiff("not a date at all");
    assert_eq!(get_created_from_exif(&data), Err(GetCreatedAtError::FailedToParseDate));
    assert_eq!(get_created_at(&photo, &data, Ok(0)), Ok(at(2023, 8, 15, 0, 0, 0)));
    let plain = File::Photo(Photo { name: "DSC0001.jpg".to_string(), path: "/p/DSC0001.jpg".to_string() });
    assert_eq!(get_created_at(&plain, &data, Ok(981173106)), Ok(at(2001, 2, 3, 4, 5, 6)));
}

#[test]
fn same_inputs_same_date() {
    let photo = File::Photo(Photo { name: "DSC0001.jpg".to_string(), path: "/p/DSC0001.jpg".to_string() });
    let data = exif_tiff("2019:07:04 13:45:10");
    let first = get_created_at(&photo, &data, Ok(0));
    assert_eq!(first, Ok(at(2019, 7, 4, 13, 45, 10)));
    assert_eq!(get_created_at(&photo, &data, Ok(0)), first);
}
