//! What counts as an asset: a regular file whose extension names a photo or a
//! video format, matched without regard to ASCII letter case.
use vstd::prelude::*;
use vstd::string::StrSliceExecFns;

verus! {

/// A photo found on disk.
#[derive(Clone, Debug, PartialEq, Eq)]
pub struct Photo {
    pub name: String,
    pub path: String,
}

/// A video found on disk.
#[derive(Clone, Debug, PartialEq, Eq)]
pub struct Video {
    pub name: String,
    pub path: String,
}

/// An asset: a photo or a video, with its file name and its path.
#[derive(Clone, Debug, PartialEq, Eq)]
pub enum File {
    Photo(Photo),
    Video(Video),
}

/// The two kinds of asset.
#[derive(Clone, Copy, Debug, PartialEq, Eq, Structural)]
pub enum AssetKind {
    Photo,
    Video,
}

/// Why an entry is not an asset.
#[derive(Clone, Copy, Debug, PartialEq, Eq, Structural)]
pub enum Error {
    NoExtension,
    NotARegularFile,
    UnsupportedExtension,
}

/// A character's code with ASCII upper-case letters taken to lower case.
pub open spec fn folded(c: char) -> int {
    if 'A' <= c <= 'Z' {
        c as int + 32
    } else {
        c as int
    }
}

/// Equal up to the case of ASCII letters.
pub open spec fn same_folded(a: Seq<char>, b: Seq<char>) -> bool {
    &&& a.len() == b.len()
    &&& forall|i: int| 0 <= i < a.len() ==> folded(#[trigger] a[i]) == folded(b[i])
}

pub open spec fn is_photo_extension(e: Seq<char>) -> bool {
    ||| same_folded(e, "rgb"@)
    ||| same_folded(e, "gif"@)
    ||| same_folded(e, "pbm"@)
    ||| same_folded(e, "pgm"@)
    ||| same_folded(e, "ppm"@)
    ||| same_folded(e, "tiff"@)
    ||| same_folded(e, "rast"@)
    ||| same_folded(e, "xbm"@)
    ||| same_folded(e, "jpeg"@)
    ||| same_folded(e, "jpg"@)
    ||| same_folded(e, "bmp"@)
    ||| same_folded(e, "png"@)
    ||| same_folded(e, "webp"@)
    ||| same_folded(e, "exr"@)
    ||| same_folded(e, "heif"@)
}

pub open spec fn is_video_extension(e: Seq<char>) -> bool {
    same_folded(e, "mp4"@)
}

/// Index of the last `.` in `s`, if there is one.
pub open spec fn last_dot(s: Seq<char>) -> Option<int>
    decreases s.len(),
{
    if s.len() == 0 {
        None
    } else if s.last() == '.' {
        Some(s.len() - 1)
    } else {
        last_dot(s.drop_last())
    }
}

/// A file name's extension: what follows its last `.`, unless there is no
/// `.` or the only one opens the name.
pub open spec fn extension_of(name: Seq<char>) -> Option<Seq<char>> {
    match last_dot(name) {
        None => None,
        Some(k) => if k == 0 {
            None
        } else {
            Some(name.subrange(k + 1, name.len() as int))
        },
    }
}

/// The final component of a path, as std's `Path::file_name` gives it.
pub uninterp spec fn file_name_of(path: Seq<char>) -> Option<Seq<char>>;

/// What a file name makes of an entry, given whether it is a regular file.
pub open spec fn classify_name(name: Option<Seq<char>>, is_file: bool) -> Result<AssetKind, Error> {
    match name {
        None => Err(Error::NoExtension),
        Some(n) => match extension_of(n) {
            None => Err(Error::NoExtension),
            Some(e) => if !is_file {
                Err(Error::NotARegularFile)
            } else if is_video_extension(e) {
                Ok(AssetKind::Video)
            } else if is_photo_extension(e) {
                Ok(AssetKind::Photo)
            } else {
                Err(Error::UnsupportedExtension)
            },
        },
    }
}

/// What a path makes of an entry, given whether it is a regular file.
pub open spec fn classify(path: Seq<char>, is_file: bool) -> Result<AssetKind, Error> {
    classify_name(file_name_of(path), is_file)
}

/// Relies on std's `Path::file_name`: the final component of the path.
#[verifier::external_body]
fn path_file_name(path: &str) -> (r: Option<String>)
    ensures
        r is None <==> file_name_of(path@) is None,
        r is Some ==> file_name_of(path@) == Some(r->Some_0@),
{
    std::path::Path::new(path).file_name().and_then(|n| n.to_str()).map(String::from)
}

/// Whether `a` and `b` are equal up to the case of ASCII letters.
pub fn eq_ignore_ascii_case(a: &str, b: &str) -> (r: bool)
    ensures
        r == same_folded(a@, b@),
{
    let n = a.unicode_len();
    if n != b.unicode_len() {
        return false;
    }
    let mut i: usize = 0;
    while i < n
        invariant
            n == a@.len(),
            n == b@.len(),
            i <= n,
            forall|j: int| 0 <= j < i ==> folded(#[trigger] a@[j]) == folded(b@[j]),
        decreases n - i,
    {
        let x = a.get_char(i);
        let y = b.get_char(i);
        let fx: u32 = if 'A' <= x && x <= 'Z' {
            x as u32 + 32
        } else {
            x as u32
        };
        let fy: u32 = if 'A' <= y && y <= 'Z' {
            y as u32 + 32
        } else {
            y as u32
        };
        if fx != fy {
            assert(folded(a@[i as int]) != folded(b@[i as int]));
            return false;
        }
        i += 1;
    }
    true
}

/// Whether an extension names a supported photo format.
pub fn is_photo(extension: &str) -> (r: bool)
    ensures
        r == is_photo_extension(extension@),
{
    eq_ignore_ascii_case(extension, "rgb") || eq_ignore_ascii_case(extension, "gif")
        || eq_ignore_ascii_case(extension, "pbm") || eq_ignore_ascii_case(extension, "pgm")
        || eq_ignore_ascii_case(extension, "ppm") || eq_ignore_ascii_case(extension, "tiff")
        || eq_ignore_ascii_case(extension, "rast") || eq_ignore_ascii_case(extension, "xbm")
        || eq_ignore_ascii_case(extension, "jpeg") || eq_ignore_ascii_case(extension, "jpg")
        || eq_ignore_ascii_case(extension, "bmp") || eq_ignore_ascii_case(extension, "png")
        || eq_ignore_ascii_case(extension, "webp") || eq_ignore_ascii_case(extension, "exr")
        || eq_ignore_ascii_case(extension, "heif")
}

/// Whether an extension names a supported video format.
pub fn is_video(extension: &str) -> (r: bool)
    ensures
        r == is_video_extension(extension@),
{
    eq_ignore_ascii_case(extension, "mp4")
}

/// The extension of a file name, as std's `Path::extension` defines it.
pub fn extension(name: &str) -> (r: Option<String>)
    ensures
        r is None <==> extension_of(name@) is None,
        r is Some ==> extension_of(name@) == Some(r->Some_0@),
{
    let n = name.unicode_len();
    let mut k: usize = n;
    assert(name@.subrange(0, n as int) == name@);
    while k > 0
        invariant
            n == name@.len(),
            k <= n,
            last_dot(name@) == last_dot(name@.subrange(0, k as int)),
        decreases k,
    {
        assert(name@.subrange(0, k - 1) == name@.subrange(0, k as int).drop_last());
        if name.get_char(k - 1) == '.' {
            if k == 1 {
                return None;
            }
            let e = name.substring_char(k, n);
            return Some(e.to_owned());
        }
        k -= 1;
    }
    None
}

/// Extensions that differ only in the case of ASCII letters are classified
/// alike.
pub proof fn lemma_letter_case_ignored(e1: Seq<char>, e2: Seq<char>)
    requires
        same_folded(e1, e2),
    ensures
        is_photo_extension(e1) == is_photo_extension(e2),
        is_video_extension(e1) == is_video_extension(e2),
{
    assert forall|w: Seq<char>| same_folded(e1, w) <==> same_folded(e2, w) by {
        if same_folded(e1, w) {
            assert forall|i: int| 0 <= i < e2.len() implies folded(#[trigger] e2[i]) == folded(
                w[i],
            ) by {
                assert(folded(e1[i]) == folded(e2[i]));
            }
        }
        if same_folded(e2, w) {
            assert forall|i: int| 0 <= i < e1.len() implies folded(#[trigger] e1[i]) == folded(
                w[i],
            ) by {
                assert(folded(e1[i]) == folded(e2[i]));
            }
        }
    }
}

/// A regular file whose name has an extension is an asset exactly when the
/// extension, in any letter case, names a supported photo or video format;
/// any other extension is refused as unsupported.
pub proof fn lemma_supported_extensions(path: Seq<char>, name: Seq<char>, e: Seq<char>)
    requires
        file_name_of(path) == Some(name),
        extension_of(name) == Some(e),
    ensures
        classify(path, true) is Ok <==> is_photo_extension(e) || is_video_extension(e),
        is_video_extension(e) ==> classify(path, true) == Ok::<AssetKind, Error>(AssetKind::Video),
        is_photo_extension(e) && !is_video_extension(e) ==> classify(path, true) == Ok::<
            AssetKind,
            Error,
        >(AssetKind::Photo),
        !is_photo_extension(e) && !is_video_extension(e) ==> classify(path, true) == Err::<
            AssetKind,
            Error,
        >(Error::UnsupportedExtension),
        forall|e2: Seq<char>|
            same_folded(e, e2) ==> (is_photo_extension(e) == is_photo_extension(e2)
                && is_video_extension(e) == is_video_extension(e2)),
{
    assert forall|e2: Seq<char>|
        same_folded(e, e2) implies (is_photo_extension(e) == is_photo_extension(e2)
        && is_video_extension(e) == is_video_extension(e2)) by {
        lemma_letter_case_ignored(e, e2);
    }
}

/// What a file name makes of an entry, given whether it is a regular file.
pub fn kind_of_name(name: &str, is_file: bool) -> (r: Result<AssetKind, Error>)
    ensures
        r == classify_name(Some(name@), is_file),
{
    let ext = match extension(name) {
        Some(e) => e,
        None => return Err(Error::NoExtension),
    };
    if !is_file {
        Err(Error::NotARegularFile)
    } else if is_video(ext.as_str()) {
        Ok(AssetKind::Video)
    } else if is_photo(ext.as_str()) {
        Ok(AssetKind::Photo)
    } else {
        Err(Error::UnsupportedExtension)
    }
}

impl File {
    pub open spec fn spec_kind(self) -> AssetKind {
        match self {
            File::Photo(_) => AssetKind::Photo,
            File::Video(_) => AssetKind::Video,
        }
    }

    pub open spec fn spec_path(self) -> Seq<char> {
        match self {
            File::Photo(p) => p.path@,
            File::Video(v) => v.path@,
        }
    }

    pub open spec fn spec_name(self) -> Seq<char> {
        match self {
            File::Photo(p) => p.name@,
            File::Video(v) => v.name@,
        }
    }

    /// Classifies the entry at `path`; `is_file` says whether it is a regular
    /// file. On success the asset's name is the path's final component.
    pub fn new(path: &String, is_file: bool) -> (r: Result<File, Error>)
        ensures
            r is Ok <==> classify(path@, is_file) is Ok,
            r is Err ==> classify(path@, is_file) == Err::<AssetKind, Error>(r->Err_0),
            r is Ok ==> classify(path@, is_file) == Ok::<AssetKind, Error>(r->Ok_0.spec_kind()),
            r is Ok ==> r->Ok_0.spec_path() == path@,
            r is Ok ==> file_name_of(path@) == Some(r->Ok_0.spec_name()),
    {
        let name = match path_file_name(path.as_str()) {
            Some(n) => n,
            None => return Err(Error::NoExtension),
        };
        match kind_of_name(name.as_str(), is_file) {
            Ok(AssetKind::Video) => Ok(File::Video(Video { name, path: path.clone() })),
            Ok(AssetKind::Photo) => Ok(File::Photo(Photo { name, path: path.clone() })),
            Err(e) => Err(e),
        }
    }

    /// The kind of asset.
    pub fn kind(&self) -> (r: AssetKind)
        ensures
            r == self.spec_kind(),
    {
        match self {
            File::Photo(_) => AssetKind::Photo,
            File::Video(_) => AssetKind::Video,
        }
    }

    /// Where the asset lies.
    pub fn path(&self) -> (r: &String)
        ensures
            r@ == self.spec_path(),
    {
        match self {
            File::Photo(p) => &p.path,
            File::Video(v) => &v.path,
        }
    }

    /// The asset's file name.
    pub fn name(&self) -> (r: &String)
        ensures
            r@ == self.spec_name(),
    {
        match self {
            File::Photo(p) => &p.name,
            File::Video(v) => &v.name,
        }
    }
}

} // verus!
