//! White borders: how wide a border an image gets, and which photos get one
//! when a cutoff date is given.
use crate::date::{
    date_of, is_iso_date_text, is_valid_ymd, iso_date, parse_iso_date, parsed_iso_date, Date,
    DateTime,
};
use crate::file::File;
use crate::get_created_at::{get_created_at, resolved, GetCreatedAtError};
use crate::move_photos::before_cutoff;
use vstd::prelude::*;

verus! {

/// How thick a border to draw.
#[derive(Clone, Copy, Debug, PartialEq, Eq, Structural)]
pub enum Thickness {
    Thin,
    Medium,
    Thick,
}

impl Thickness {
    pub open spec fn spec_units(self) -> u8 {
        match self {
            Thickness::Thin => 1,
            Thickness::Medium => 2,
            Thickness::Thick => 4,
        }
    }

    /// The border's share of the image, in hundredths.
    pub fn units(&self) -> (r: u8)
        ensures
            r == self.spec_units(),
    {
        match self {
            Thickness::Thin => 1,
            Thickness::Medium => 2,
            Thickness::Thick => 4,
        }
    }
}

/// The shape of an image.
#[derive(Clone, Copy, Debug, PartialEq, Eq, Structural)]
pub enum Format {
    Square,
    Portrait,
    Landscape,
}

pub open spec fn format_of(width: int, height: int) -> Format {
    if width == height {
        Format::Square
    } else if width < height {
        Format::Portrait
    } else {
        Format::Landscape
    }
}

/// The smallest border, in pixels.
pub const MIN_BORDER: usize = 20;

/// `thickness` hundredths of the image's width (square or portrait) or height
/// (landscape), rounded to the nearest pixel, halves up; at least
/// `MIN_BORDER`.
pub open spec fn border_width(width: int, height: int, thickness: int) -> int {
    let side = match format_of(width, height) {
        Format::Landscape => height,
        _ => width,
    };
    let b = (thickness * side + 50) / 100;
    if b < MIN_BORDER {
        MIN_BORDER as int
    } else {
        b
    }
}

/// The shape of an image of this size.
pub fn image_format(width: usize, height: usize) -> (r: Format)
    ensures
        r == format_of(width as int, height as int),
{
    if width == height {
        Format::Square
    } else if width < height {
        Format::Portrait
    } else {
        Format::Landscape
    }
}

/// The width of the border for an image of this size; `thickness` is in
/// hundredths.
pub fn get_border_width(width: usize, height: usize, thickness: u8) -> (r: usize)
    requires
        thickness <= 100,
    ensures
        r == border_width(width as int, height as int, thickness as int),
{
    let side: usize = match image_format(width, height) {
        Format::Landscape => height,
        _ => width,
    };
    let t: u128 = thickness as u128;
    let w: u128 = side as u128;
    assert(t * w <= 100 * 0xffff_ffff_ffff_ffffu128) by (nonlinear_arith)
        requires
            t <= 100,
            w <= 0xffff_ffff_ffff_ffffu128,
    ;
    let scaled: u128 = t * w + 50;
    let b: u128 = scaled / 100;
    assert(b <= side) by (nonlinear_arith)
        requires
            scaled == thickness * side + 50,
            b == scaled / 100,
            thickness <= 100,
    ;
    if b < MIN_BORDER as u128 {
        MIN_BORDER
    } else {
        b as usize
    }
}

/// Why adding borders stopped.
#[derive(Clone, Copy, Debug, PartialEq, Eq, Structural)]
pub enum Error {
    Read,
    Border,
    Write,
    BadDate,
    MissingMetadata(GetCreatedAtError),
}

/// The cutoff that the text `f` sets for a directory: the date that chrono
/// reads from it, else `BadDate`.
pub open spec fn cutoff_result(f: Seq<char>) -> Result<Option<Date>, Error> {
    match parsed_iso_date(f) {
        Some(d) => Ok(Some(d)),
        None => Err(Error::BadDate),
    }
}

/// The cutoff that `from` sets: none unless the source is a directory; there,
/// a `YYYY-MM-DD` date.
pub fn cutoff_date(from: &Option<String>, source_is_dir: bool) -> (r: Result<Option<Date>, Error>)
    ensures
        from is None || !source_is_dir ==> r == Ok::<Option<Date>, Error>(None),
        from is Some && source_is_dir ==> r == cutoff_result(from->Some_0@),
        r is Ok && r->Ok_0 is Some ==> r->Ok_0->Some_0.wf(),
        r is Err ==> r == Err::<Option<Date>, Error>(Error::BadDate),
        from is Some && source_is_dir && is_iso_date_text(from->Some_0@) ==> (r is Ok
            <==> is_valid_ymd(iso_date(from->Some_0@))),
        from is Some && source_is_dir && is_iso_date_text(from->Some_0@) && r is Ok ==> r
            == Ok::<Option<Date>, Error>(Some(date_of(iso_date(from->Some_0@)))),
{
    match from {
        Some(f) => {
            if source_is_dir {
                match parse_iso_date(f.as_str()) {
                    Ok(d) => Ok(Some(d)),
                    Err(_) => Err(Error::BadDate),
                }
            } else {
                Ok(None)
            }
        },
        None => Ok(None),
    }
}

/// What may be decided for a photo whose date resolution gave `date`, with
/// a cutoff: `true` to draw its border.
pub open spec fn border_allows(
    date: Result<DateTime, GetCreatedAtError>,
    cutoff: Date,
    r: Result<bool, Error>,
) -> bool {
    match date {
        Err(e) => r == Err::<bool, Error>(Error::MissingMetadata(e)),
        Ok(d) => r == Ok::<bool, Error>(!before_cutoff(d, Some(cutoff))),
    }
}

/// Whether a photo whose date resolution gave `date` gets a border, with a
/// cutoff: yes unless it is dated before the cutoff day.
pub fn keeps_border(date: Result<DateTime, GetCreatedAtError>, cutoff: &Date) -> (r: Result<
    bool,
    Error,
>)
    ensures
        border_allows(date, *cutoff, r),
{
    match date {
        Err(e) => Err(Error::MissingMetadata(e)),
        Ok(d) => Ok(!d.date.is_before(cutoff)),
    }
}

/// Whether `file` gets a border: always without a cutoff; with one, only if
/// its date, resolved from `contents` and `created`, is not before it.
pub fn border_plan(
    file: &File,
    contents: &[u8],
    created: Result<u64, GetCreatedAtError>,
    cutoff: &Option<Date>,
) -> (r: Result<bool, Error>)
    ensures
        cutoff is None ==> r == Ok::<bool, Error>(true),
        cutoff is Some ==> border_allows(resolved(*file, contents@, created), cutoff->Some_0, r),
{
    match cutoff {
        None => Ok(true),
        Some(c) => {
            let date = get_created_at(file, contents, created);
            keeps_border(date, c)
        },
    }
}

} // verus!
