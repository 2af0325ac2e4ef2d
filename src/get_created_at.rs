//! The capture date of an asset, found by an ordered chain of tiers: the
//! photo's EXIF capture time, then a date written in the file name, then the
//! creation time that the filesystem reports. The first tier that succeeds
//! gives the date; only a failure of the last one is an error.
use crate::date::{
    all_digits, clock_time, compact_date, compact_date_format, date_of, date_time_format,
    date_time_of, from_timestamp, is_ascii_digit, is_date_time_text, is_valid_date_time_text,
    is_valid_ymd, parse_date, parse_date_time, parsed_date_time, utc_date_time, DateTime,
    LAST_TIMESTAMP,
};
use crate::file::{AssetKind, File, Photo, Video};
use exif::Error as ExifError;
use vstd::prelude::*;
use vstd::string::StrSliceExecFns;

verus! {

/// Why no capture date was found.
#[derive(Clone, Copy, Debug, PartialEq, Eq, Structural)]
pub enum GetCreatedAtError {
    CouldNotOpenPhoto,
    PhotoHasNoExifData,
    PhotoHasNoMetadata,
    NoCreatedAt,
    NoDateTimeInExif,
    FailedToParseDate,
    NameHasNoValidDate,
    CouldNotReadFileMetadata,
}

pub open spec fn char_at(s: Seq<char>, i: int, c: char) -> bool {
    0 <= i < s.len() && s[i] == c
}

/// `n` ASCII digits start at `i`.
pub open spec fn digits_at(s: Seq<char>, i: int, n: int) -> bool {
    &&& 0 <= i
    &&& i + n <= s.len()
    &&& forall|j: int| i <= j < i + n ==> is_ascii_digit(#[trigger] s[j])
}

pub open spec fn burst_at(s: Seq<char>, i: int) -> bool {
    &&& char_at(s, i, 'B')
    &&& char_at(s, i + 1, 'U')
    &&& char_at(s, i + 2, 'R')
    &&& char_at(s, i + 3, 'S')
    &&& char_at(s, i + 4, 'T')
}

/// Three to six digits, then a `.`, from `i` on.
pub open spec fn counter_then_dot_at(s: Seq<char>, i: int) -> bool {
    ||| digits_at(s, i, 3) && char_at(s, i + 3, '.')
    ||| digits_at(s, i, 4) && char_at(s, i + 4, '.')
    ||| digits_at(s, i, 5) && char_at(s, i + 5, '.')
    ||| digits_at(s, i, 6) && char_at(s, i + 6, '.')
}

/// The eight date digits `YYYYMMDD` of a date encoding that starts at `i`,
/// if one does. The encodings, in order of preference: `YYYY-MM-DD`,
/// `_YYYYMMDD_`, `-YYYYMMDD-`, `BURSTYYYYMMDD`, and `YYYYMMDD_` followed by a
/// counter of three to six digits and a `.`.
pub open spec fn date_digits_at(s: Seq<char>, i: int) -> Option<Seq<char>> {
    if digits_at(s, i, 4) && char_at(s, i + 4, '-') && digits_at(s, i + 5, 2) && char_at(
        s,
        i + 7,
        '-',
    ) && digits_at(s, i + 8, 2) {
        Some(s.subrange(i, i + 4) + s.subrange(i + 5, i + 7) + s.subrange(i + 8, i + 10))
    } else if char_at(s, i, '_') && digits_at(s, i + 1, 8) && char_at(s, i + 9, '_') {
        Some(s.subrange(i + 1, i + 9))
    } else if char_at(s, i, '-') && digits_at(s, i + 1, 8) && char_at(s, i + 9, '-') {
        Some(s.subrange(i + 1, i + 9))
    } else if burst_at(s, i) && digits_at(s, i + 5, 8) {
        Some(s.subrange(i + 5, i + 13))
    } else if digits_at(s, i, 8) && char_at(s, i + 8, '_') && counter_then_dot_at(s, i + 9) {
        Some(s.subrange(i, i + 8))
    } else {
        None
    }
}

/// The date digits of the leftmost date encoding that starts at `i` or later.
pub open spec fn date_digits_from(s: Seq<char>, i: int) -> Option<Seq<char>>
    decreases s.len() - i,
{
    if i < 0 || i >= s.len() {
        None
    } else if date_digits_at(s, i) is Some {
        date_digits_at(s, i)
    } else {
        date_digits_from(s, i + 1)
    }
}

/// The date digits of the leftmost date encoding in a file name.
pub open spec fn date_digits(s: Seq<char>) -> Option<Seq<char>> {
    date_digits_from(s, 0)
}

/// The name tier: midnight of the date that the file name writes.
pub open spec fn name_tier(name: Seq<char>) -> Result<DateTime, GetCreatedAtError> {
    match date_digits(name) {
        None => Err(GetCreatedAtError::NameHasNoValidDate),
        Some(d) => if is_valid_ymd(compact_date(d)) {
            Ok(DateTime { date: date_of(compact_date(d)), hour: 0, minute: 0, second: 0 })
        } else {
            Err(GetCreatedAtError::FailedToParseDate)
        },
    }
}

/// Found date digits are eight ASCII digits.
pub proof fn lemma_date_digits_shape(s: Seq<char>, i: int)
    ensures
        date_digits_from(s, i) is Some ==> date_digits_from(s, i)->Some_0.len() == 8 && all_digits(
            date_digits_from(s, i)->Some_0,
        ),
    decreases s.len() - i,
{
    if 0 <= i < s.len() {
        if date_digits_at(s, i) is Some {
            let d = date_digits_at(s, i)->Some_0;
            assert(all_digits(d));
        } else {
            lemma_date_digits_shape(s, i + 1);
        }
    }
}

/// Relies on std's `String::push`: appends one character.
#[verifier::external_body]
fn push_char(s: &mut String, c: char)
    ensures
        final(s)@ == old(s)@.push(c),
{
    s.push(c)
}

fn is_digit(c: char) -> (r: bool)
    ensures
        r == is_ascii_digit(c),
{
    '0' <= c && c <= '9'
}

fn char_is(cs: &Vec<char>, i: usize, c: char) -> (r: bool)
    ensures
        r == char_at(cs@, i as int, c),
{
    i < cs.len() && cs[i] == c
}

fn digits_run(cs: &Vec<char>, i: usize, n: usize) -> (r: bool)
    ensures
        r == digits_at(cs@, i as int, n as int),
{
    if i > cs.len() || n > cs.len() - i {
        return false;
    }
    let mut j: usize = 0;
    while j < n
        invariant
            i + n <= cs@.len(),
            i + n <= cs.len(),
            j <= n,
            forall|k: int| i <= k < i + j ==> is_ascii_digit(#[trigger] cs@[k]),
        decreases n - j,
    {
        if !is_digit(cs[i + j]) {
            return false;
        }
        j += 1;
    }
    true
}

/// Appends `cs[from..to]` to `out`.
fn append_range(out: &mut Vec<char>, cs: &Vec<char>, from: usize, to: usize)
    requires
        from <= to <= cs@.len(),
    ensures
        final(out)@ == old(out)@ + cs@.subrange(from as int, to as int),
{
    let mut k: usize = from;
    while k < to
        invariant
            from <= k <= to <= cs@.len(),
            out@ == old(out)@ + cs@.subrange(from as int, k as int),
        decreases to - k,
    {
        out.push(cs[k]);
        assert(cs@.subrange(from as int, k + 1) == cs@.subrange(from as int, k as int).push(cs@[k as int]));
        k += 1;
    }
}

fn date_digits_at_exec(cs: &Vec<char>, i: usize) -> (r: Option<Vec<char>>)
    requires
        i < cs@.len(),
    ensures
        r is None <==> date_digits_at(cs@, i as int) is None,
        r is Some ==> date_digits_at(cs@, i as int) == Some(r->Some_0@),
{
    let n = cs.len();
    let mut out: Vec<char> = Vec::new();
    if digits_run(cs, i, 4) && char_is(cs, i + 4, '-') && digits_run(cs, i + 5, 2) && char_is(
        cs,
        i + 7,
        '-',
    ) && digits_run(cs, i + 8, 2) {
        append_range(&mut out, cs, i, i + 4);
        append_range(&mut out, cs, i + 5, i + 7);
        append_range(&mut out, cs, i + 8, i + 10);
        return Some(out);
    }
    if 9 < n - i && (char_is(cs, i, '_') && digits_run(cs, i + 1, 8) && char_is(cs, i + 9, '_')
        || char_is(cs, i, '-') && digits_run(cs, i + 1, 8) && char_is(cs, i + 9, '-')) {
        append_range(&mut out, cs, i + 1, i + 9);
        return Some(out);
    }
    if char_is(cs, i, 'B') && char_is(cs, i + 1, 'U') && char_is(cs, i + 2, 'R') && char_is(
        cs,
        i + 3,
        'S',
    ) && char_is(cs, i + 4, 'T') && digits_run(cs, i + 5, 8) {
        append_range(&mut out, cs, i + 5, i + 13);
        return Some(out);
    }
    if digits_run(cs, i, 8) && char_is(cs, i + 8, '_') && (digits_run(cs, i + 9, 3) && char_is(
        cs,
        i + 12,
        '.',
    ) || digits_run(cs, i + 9, 4) && char_is(cs, i + 13, '.') || digits_run(cs, i + 9, 5)
        && char_is(cs, i + 14, '.') || digits_run(cs, i + 9, 6) && char_is(cs, i + 15, '.')) {
        append_range(&mut out, cs, i, i + 8);
        return Some(out);
    }
    None
}

/// The characters of `s`, one by one.
fn chars_of(s: &str) -> (r: Vec<char>)
    ensures
        r@ == s@,
{
    let n = s.unicode_len();
    let mut cs: Vec<char> = Vec::new();
    let mut i: usize = 0;
    while i < n
        invariant
            n == s@.len(),
            i <= n,
            cs@ == s@.subrange(0, i as int),
        decreases n - i,
    {
        cs.push(s.get_char(i));
        assert(s@.subrange(0, i + 1) == s@.subrange(0, i as int).push(s@[i as int]));
        i += 1;
    }
    assert(s@.subrange(0, n as int) == s@);
    cs
}

/// The date digits `YYYYMMDD` of the leftmost date encoding in a file name.
pub fn find_date_digits(name: &str) -> (r: Option<String>)
    ensures
        r is None <==> date_digits(name@) is None,
        r is Some ==> date_digits(name@) == Some(r->Some_0@),
{
    let cs = chars_of(name);
    let n = cs.len();
    let mut i: usize = 0;
    while i < n
        invariant
            n == cs@.len(),
            cs@ == name@,
            i <= n,
            date_digits(name@) == date_digits_from(name@, i as int),
        decreases n - i,
    {
        match date_digits_at_exec(&cs, i) {
            Some(d) => {
                let mut text = String::new();
                let mut k: usize = 0;
                while k < d.len()
                    invariant
                        k <= d@.len(),
                        text@ == d@.subrange(0, k as int),
                    decreases d@.len() - k,
                {
                    push_char(&mut text, d[k]);
                    assert(d@.subrange(0, k + 1) == d@.subrange(0, k as int).push(d@[k as int]));
                    k += 1;
                }
                assert(d@.subrange(0, d@.len() as int) == d@);
                return Some(text);
            },
            None => {},
        }
        i += 1;
    }
    None
}

/// The name tier: the date that a file name writes in one of the date
/// encodings, at midnight.
pub fn get_created_at_from_name(name: &str) -> (r: Result<DateTime, GetCreatedAtError>)
    ensures
        r == name_tier(name@),
        r is Ok ==> r->Ok_0.wf(),
{
    let digits = match find_date_digits(name) {
        Some(d) => d,
        None => return Err(GetCreatedAtError::NameHasNoValidDate),
    };
    proof {
        lemma_date_digits_shape(name@, 0);
        reveal_strlit("%Y%m%d");
        assert("%Y%m%d"@ =~= compact_date_format());
    }
    match parse_date(digits.as_str(), "%Y%m%d") {
        Ok(date) => Ok(DateTime::midnight(date)),
        Err(_) => Err(GetCreatedAtError::FailedToParseDate),
    }
}


/// kamadak-exif's error for data that holds no readable EXIF attributes.
#[verifier::external_type_specification]
#[verifier::external_body]
pub struct ExExifError(ExifError);

/// What kamadak-exif finds in an image's bytes: `None` when it reads no EXIF
/// attributes from them; else the primary image's original capture time,
/// shown as `YYYY-MM-DD HH:MM:SS`, if the attributes hold one.
pub uninterp spec fn exif_capture_text(contents: Seq<u8>) -> Option<Option<Seq<char>>>;

pub open spec fn text_view(t: Option<String>) -> Option<Seq<char>> {
    match t {
        Some(s) => Some(s@),
        None => None,
    }
}

/// Relies on kamadak-exif's `Reader::read_from_container`, which reads the
/// EXIF attributes of a TIFF, JPEG, HEIF, PNG or WebP image held in memory,
/// and on `Exif::get_field` with `Value::display_as`, which show the primary
/// image's original capture time.
#[verifier::external_body]
fn read_capture_text(contents: &[u8]) -> (r: Result<Option<String>, ExifError>)
    ensures
        r is Err <==> exif_capture_text(contents@) is None,
        r is Ok ==> exif_capture_text(contents@) == Some(text_view(r->Ok_0)),
{
    exif::Reader::new().read_from_container(&mut std::io::Cursor::new(contents)).map(
        |e|
            e.get_field(exif::Tag::DateTimeOriginal, exif::In::PRIMARY).map(
                |f| f.value.display_as(exif::Tag::DateTime).to_string(),
            ),
    )
}

/// What a capture time text gives: what chrono reads from it with the
/// format `%Y-%m-%d %H:%M:%S`.
pub open spec fn capture_result(text: Seq<char>) -> Result<DateTime, GetCreatedAtError> {
    match parsed_date_time(text, date_time_format()) {
        Some(d) => Ok(d),
        None => Err(GetCreatedAtError::FailedToParseDate),
    }
}

/// What a capture time written `YYYY-MM-DD HH:MM:SS`, seconds under 60, gives.
pub open spec fn capture_text_tier(text: Seq<char>) -> Result<DateTime, GetCreatedAtError> {
    if is_valid_date_time_text(text) {
        Ok(date_time_of(text))
    } else {
        Err(GetCreatedAtError::FailedToParseDate)
    }
}

/// The last step of the EXIF tier: reads the capture time text.
pub fn date_from_capture_text(text: &str) -> (r: Result<DateTime, GetCreatedAtError>)
    ensures
        r == capture_result(text@),
        r is Ok ==> r->Ok_0.wf(),
        is_date_time_text(text@) && clock_time(text@).2 < 60 ==> r == capture_text_tier(text@),
{
    proof {
        reveal_strlit("%Y-%m-%d %H:%M:%S");
        assert("%Y-%m-%d %H:%M:%S"@ =~= date_time_format());
    }
    match parse_date_time(text, "%Y-%m-%d %H:%M:%S") {
        Ok(d) => Ok(d),
        Err(_) => Err(GetCreatedAtError::FailedToParseDate),
    }
}

/// What the EXIF tier gives for a photo's bytes.
pub open spec fn exif_tier(contents: Seq<u8>) -> Result<DateTime, GetCreatedAtError> {
    match exif_capture_text(contents) {
        None => Err(GetCreatedAtError::PhotoHasNoExifData),
        Some(None) => Err(GetCreatedAtError::NoDateTimeInExif),
        Some(Some(t)) => capture_result(t),
    }
}

/// The date that the EXIF tier finds in a photo's bytes, if it finds one.
pub open spec fn exif_date(contents: Seq<u8>) -> Option<DateTime> {
    match exif_tier(contents) {
        Ok(d) => Some(d),
        Err(_) => None,
    }
}

/// The EXIF tier: the original capture time recorded in a photo's contents.
pub fn get_created_from_exif(contents: &[u8]) -> (r: Result<DateTime, GetCreatedAtError>)
    ensures
        r == exif_tier(contents@),
        r is Ok ==> r->Ok_0.wf(),
        forall|t: Seq<char>|
            exif_capture_text(contents@) == Some(Some(t)) && is_date_time_text(t) && clock_time(t).2
                < 60 ==> r == #[trigger] capture_text_tier(t),
{
    match read_capture_text(contents) {
        Err(_) => Err(GetCreatedAtError::PhotoHasNoExifData),
        Ok(None) => Err(GetCreatedAtError::NoDateTimeInExif),
        Ok(Some(text)) => date_from_capture_text(text.as_str()),
    }
}

/// What the creation-time tier gives for the creation time in whole seconds
/// since 1970-01-01T00:00:00, or for the error met while reading it.
pub open spec fn creation_tier(created: Result<u64, GetCreatedAtError>) -> Result<
    DateTime,
    GetCreatedAtError,
> {
    match created {
        Err(e) => Err(e),
        Ok(secs) => match (if secs <= i64::MAX {
            utc_date_time(secs as int)
        } else {
            None
        }) {
            Some(d) => Ok(d),
            None => Err(GetCreatedAtError::NameHasNoValidDate),
        },
    }
}

/// The creation-time tier. `created` is the file's creation time in whole
/// seconds since 1970-01-01T00:00:00, or the error met while reading it.
pub fn get_created_at_from_creation_time(created: Result<u64, GetCreatedAtError>) -> (r: Result<
    DateTime,
    GetCreatedAtError,
>)
    ensures
        r == creation_tier(created),
        r is Ok ==> r->Ok_0.wf() && created is Ok && r->Ok_0.timestamp() == created->Ok_0,
        created is Ok ==> (r is Ok <==> created->Ok_0 <= LAST_TIMESTAMP),
{
    match created {
        Err(e) => Err(e),
        Ok(secs) => {
            if secs > i64::MAX as u64 {
                return Err(GetCreatedAtError::NameHasNoValidDate);
            }
            match from_timestamp(secs as i64) {
                Some(d) => Ok(d),
                None => Err(GetCreatedAtError::NameHasNoValidDate),
            }
        },
    }
}

/// The whole chain, where `exif` is what the EXIF tier found (always `None`
/// for a video): the EXIF date, else the date in the name, else the creation
/// time.
pub open spec fn chain(
    exif: Option<DateTime>,
    name: Seq<char>,
    created: Result<u64, GetCreatedAtError>,
) -> Result<DateTime, GetCreatedAtError> {
    match exif {
        Some(d) => Ok(d),
        None => if name_tier(name) is Ok {
            name_tier(name)
        } else {
            creation_tier(created)
        },
    }
}

/// The EXIF tier's date for an asset: read from a photo's bytes, never for a
/// video.
pub open spec fn exif_part(file: File, contents: Seq<u8>) -> Option<DateTime> {
    match file {
        File::Photo(_) => exif_date(contents),
        File::Video(_) => None,
    }
}

/// An asset's capture date, given its bytes and its creation time.
pub open spec fn resolved(
    file: File,
    contents: Seq<u8>,
    created: Result<u64, GetCreatedAtError>,
) -> Result<DateTime, GetCreatedAtError> {
    chain(exif_part(file, contents), file.spec_name(), created)
}

/// The name tier, then the creation-time tier.
pub fn get_created_at_from_metadata(
    created: Result<u64, GetCreatedAtError>,
    filename: &str,
) -> (r: Result<DateTime, GetCreatedAtError>)
    ensures
        r == chain(None, filename@, created),
        r is Ok ==> r->Ok_0.wf(),
        date_digits(filename@) is None && created is Ok ==> (r is Ok <==> created->Ok_0
            <= LAST_TIMESTAMP),
        date_digits(filename@) is None && r is Ok ==> created is Ok && r->Ok_0.timestamp()
            == created->Ok_0,
{
    match get_created_at_from_name(filename) {
        Ok(d) => Ok(d),
        Err(_) => get_created_at_from_creation_time(created),
    }
}

/// The whole chain, given what the EXIF tier found.
pub fn resolve_date(
    exif: Option<DateTime>,
    name: &str,
    created: Result<u64, GetCreatedAtError>,
) -> (r: Result<DateTime, GetCreatedAtError>)
    ensures
        r == chain(exif, name@, created),
        (exif is Some ==> exif->Some_0.wf()) && r is Ok ==> r->Ok_0.wf(),
{
    match exif {
        Some(d) => Ok(d),
        None => get_created_at_from_metadata(created, name),
    }
}

/// A photo's capture date: its EXIF capture time, else the date in its name,
/// else its creation time. `contents` are the photo's bytes.
pub fn get_created_from_photo(
    photo: &Photo,
    contents: &[u8],
    created: Result<u64, GetCreatedAtError>,
) -> (r: Result<DateTime, GetCreatedAtError>)
    ensures
        r == chain(exif_date(contents@), photo.name@, created),
        r is Ok ==> r->Ok_0.wf(),
        exif_date(contents@) is None && date_digits(photo.name@) is None && created is Ok ==> (r is Ok
            <==> created->Ok_0 <= LAST_TIMESTAMP),
        exif_date(contents@) is None && date_digits(photo.name@) is None && r is Ok ==> created is Ok
            && r->Ok_0.timestamp() == created->Ok_0,
{
    let exif = match get_created_from_exif(contents) {
        Ok(d) => Some(d),
        Err(_) => None,
    };
    match exif {
        Some(d) => Ok(d),
        None => get_created_at_from_metadata(created, photo.name.as_str()),
    }
}

/// A video's capture date: the date in its name, else its creation time.
pub fn get_created_from_video(
    video: &Video,
    created: Result<u64, GetCreatedAtError>,
) -> (r: Result<DateTime, GetCreatedAtError>)
    ensures
        r == chain(None, video.name@, created),
        r is Ok ==> r->Ok_0.wf(),
        date_digits(video.name@) is None && created is Ok ==> (r is Ok <==> created->Ok_0
            <= LAST_TIMESTAMP),
        date_digits(video.name@) is None && r is Ok ==> created is Ok && r->Ok_0.timestamp()
            == created->Ok_0,
{
    get_created_at_from_metadata(created, video.name.as_str())
}

/// An asset's capture date. `contents` are a photo's bytes (not read for a
/// video); `created` is the file's creation time in whole seconds since
/// 1970-01-01T00:00:00, or the error met while reading it.
pub fn get_created_at(
    file: &File,
    contents: &[u8],
    created: Result<u64, GetCreatedAtError>,
) -> (r: Result<DateTime, GetCreatedAtError>)
    ensures
        r == resolved(*file, contents@, created),
        r is Ok ==> r->Ok_0.wf(),
        exif_part(*file, contents@) is None && date_digits(file.spec_name()) is None && created is Ok
            ==> (r is Ok <==> created->Ok_0 <= LAST_TIMESTAMP),
        exif_part(*file, contents@) is None && date_digits(file.spec_name()) is None && r is Ok
            ==> created is Ok && r->Ok_0.timestamp() == created->Ok_0,
{
    match file {
        File::Photo(p) => get_created_from_photo(p, contents, created),
        File::Video(v) => get_created_from_video(v, created),
    }
}

/// The tiers in order: a photo's EXIF date wins over everything, including a
/// date in its name; without one the name's date is used; without that, the
/// creation time. Resolution fails exactly when all three tiers fail, with
/// the creation-time tier's error.
pub proof fn lemma_tier_order(
    file: File,
    contents: Seq<u8>,
    created: Result<u64, GetCreatedAtError>,
)
    ensures
        file.spec_kind() == AssetKind::Photo && exif_date(contents) is Some ==> resolved(
            file,
            contents,
            created,
        ) == Ok::<DateTime, GetCreatedAtError>(exif_date(contents)->Some_0),
        exif_part(file, contents) is None && name_tier(file.spec_name()) is Ok ==> resolved(
            file,
            contents,
            created,
        ) == name_tier(file.spec_name()),
        exif_part(file, contents) is None && name_tier(file.spec_name()) is Err ==> resolved(
            file,
            contents,
            created,
        ) == creation_tier(created),
        resolved(file, contents, created) is Err <==> exif_part(file, contents) is None
            && name_tier(file.spec_name()) is Err && creation_tier(created) is Err,
{
}

} // verus!
