use photos_manager::border::{keeps_border, border_plan, cutoff_date, get_border_width, image_format, Error, Format, Thickness};
use photos_manager::date::{Date, DateTime};
use photos_manager::file::{File, Photo};
use photos_manager::get_created_at::GetCreatedAtError;

#[test]
fn portrait_at_exact_floor() {
    assert_eq!(get_border_width(1000, 2000, 2), 20);
}

#[test]
fn small_square_floored() {
    assert_eq!(get_border_width(100, 100, 1), 20);
}

#[test]
fn landscape_uses_height() {
    assert_eq!(get_border_width(6000, 4000, 4), 160);
    assert_eq!(get_border_width(4000, 6000, 4), 160);
    assert_eq!(get_border_width(3000, 3000, 1), 30);
}

#[test]
fn halves_round_up() {
    assert_eq!(get_border_width(2050, 3000, 2), 41);
    assert_eq!(get_border_width(2049, 3000, 2), 41);
    assert_eq!(get_border_width(2024, 3000, 2), 40);
}

#[test]
fn formats() {
    assert_eq!(image_format(10, 10), Format::Square);
    assert_eq!(image_format(10, 20), Format::Portrait);
    assert_eq!(image_format(20, 10), Format::Landscape);
}

#[test]
fn thickness_units() {
    assert_eq!(Thickness::Thin.units(), 1);
    assert_eq!(Thickness::Medium.units(), 2);
    assert_eq!(Thickness::Thick.units(), 4);
}

#[test]
fn cutoff_only_for_directories() {
    let from = Some("2023-08-15".to_string());
    assert_eq!(cutoff_date(&from, true), Ok(Some(Date { year: 2023, month: 8, day: 15 })));
    assert_eq!(cutoff_date(&from, false), Ok(None));
    assert_eq!(cutoff_date(&None, true), Ok(None));
    assert_eq!(cutoff_date(&Some("2023-02-30".to_string()), true), Err(Error::BadDate));
    assert_eq!(cutoff_date(&Some("yesterday".to_string()), true), Err(Error::BadDate));
}

#[test]
fn border_decisions() {
    let f = File::Photo(Photo { name: "IMG_20230815_001.jpg".to_string(), path: "/p/IMG_20230815_001.jpg".to_string() });
    assert_eq!(border_plan(&f, b"", Ok(0), &None), Ok(true));
    assert_eq!(border_plan(&f, b"", Ok(0), &Some(Date { year: 2023, month: 8, day: 16 })), Ok(false));
    assert_eq!(border_plan(&f, b"", Ok(0), &Some(Date { year: 2023, month: 8, day: 15 })), Ok(true));
    let g = File::Photo(Photo { name: "DSC.jpg".to_string(), path: "/p/DSC.jpg".to_string() });
    assert_eq!(
        border_plan(&g, b"", Err(GetCreatedAtError::NoCreatedAt), &Some(Date { year: 2023, month: 8, day: 16 })),
        Err(Error::MissingMetadata(GetCreatedAtError::NoCreatedAt))
    );
}

#[test]
fn border_from_resolved_date() {
    let cutoff = Date { year: 2023, month: 8, day: 15 };
    let at = |y, m, d| DateTime { date: Date { year: y, month: m, day: d }, hour: 23, minute: 59, second: 59 };
    assert_eq!(keeps_border(Ok(at(2023, 8, 14)), &cutoff), Ok(false));
    assert_eq!(keeps_border(Ok(at(2023, 8, 15)), &cutoff), Ok(true));
    assert_eq!(keeps_border(Ok(at(2022, 12, 31)), &cutoff), Ok(false));
    assert_eq!(keeps_border(Ok(at(2024, 1, 1)), &cutoff), Ok(true));
    assert_eq!(
        keeps_border(Err(GetCreatedAtError::CouldNotOpenPhoto), &cutoff),
        Err(Error::MissingMetadata(GetCreatedAtError::CouldNotOpenPhoto))
    );
}

#[test]
fn malformed_cutoff_refused() {
    for text in ["2023/13/01", "2023-13-01", "15-08-2023", "", "2023-08-15x"] {
        assert_eq!(cutoff_date(&Some(text.to_string()), true), Err(Error::BadDate), "{}", text);
    }
}
