//! Reading the capture date out of an image's embedded metadata.
//!
//! Decoding the metadata block is the work of the `exif` crate; the
//! declarations marked as trusted below say only what that crate's
//! documentation promises.  Everything around them — which date field wins,
//! what a missing field reports, how the link's name is put together — is
//! verified.

use vstd::prelude::*;
use vstd::string::*;
use crate::error::Error;
use crate::links::{compose_target, target_spec};

verus! {

/// Files smaller than this are taken for thumbnails and rejected.
pub const MIN_FILE_LEN: u64 = 102400;

/// A file of `len` bytes is too small to be a full image worth linking.
pub fn too_small(len: u64) -> (r: bool)
    ensures
        r == (len < MIN_FILE_LEN),
{
    len < MIN_FILE_LEN
}

/// The date fields an image may carry, named by the tag each one is stored
/// under.
#[derive(Clone, Copy, PartialEq, Eq, Structural, Debug)]
pub enum DateField {
    /// When the image was digitized (tag `DateTimeDigitized`).
    Digitized,
    /// When the original image data was generated (tag `DateTimeOriginal`).
    Original,
    /// When the file itself was changed (tag `DateTime`).
    Changed,
}

/// The decoded metadata block of one image, as the `exif` crate holds it.
#[verifier::external_type_specification]
#[verifier::external_body]
pub struct ExExif(exif::Exif);

/// What the metadata block shows for a date field of the primary image:
/// the rendered text of the field, or nothing when the field is absent.
/// A function of the decoded block and the field alone.
pub uninterp spec fn field_text(e: exif::Exif, t: DateField) -> Option<Seq<char>>;

/// How decoding a metadata block from the given bytes goes: nothing when
/// it succeeds, the failure's text otherwise.  A function of the bytes
/// alone.
pub uninterp spec fn decode_failure(data: Seq<u8>) -> Option<Seq<char>>;

/// Relies on `exif::Reader::read_from_container`: decodes the metadata
/// block of an image held in memory; on the same bytes it always comes out
/// the same way.
#[verifier::external_body]
fn decode_metadata(data: &[u8]) -> (r: Result<exif::Exif, String>)
    ensures
        r is Ok <==> decode_failure(data@) is None,
        r matches Err(m) ==> decode_failure(data@) == Some(m@),
{
    let mut cursor = std::io::Cursor::new(data);
    match exif::Reader::new().read_from_container(&mut cursor) {
        Ok(e) => Ok(e),
        Err(e) => Err(e.to_string()),
    }
}

/// Relies on `exif::Exif::get_field` and `exif::Field::display_value`: the
/// rendered value of the given date tag in the primary image's directory,
/// a function of the decoded block and the tag alone.
#[verifier::external_body]
fn read_field(e: &exif::Exif, t: DateField) -> (r: Option<String>)
    ensures
        r is Some <==> field_text(*e, t) is Some,
        r matches Some(v) ==> field_text(*e, t) == Some(v@),
{
    let tag = match t {
        DateField::Digitized => exif::Tag::DateTimeDigitized,
        DateField::Original => exif::Tag::DateTimeOriginal,
        DateField::Changed => exif::Tag::DateTime,
    };
    e.get_field(tag, exif::In::PRIMARY).map(|f| f.display_value().to_string())
}

/// What the fields are asked for when the image was taken: digitization
/// time first, then the original capture time, then the file's own change
/// time.
pub open spec fn date_priority_spec() -> Seq<DateField> {
    seq![DateField::Digitized, DateField::Original, DateField::Changed]
}

/// The order in which the date fields are consulted.
pub fn date_priority() -> (r: Vec<DateField>)
    ensures
        r@ == date_priority_spec(),
{
    let mut v: Vec<DateField> = Vec::new();
    v.push(DateField::Digitized);
    v.push(DateField::Original);
    v.push(DateField::Changed);
    proof {
        assert(v@ =~= date_priority_spec());
    }
    v
}

/// What each date field is called when its absence is reported.
pub open spec fn description_spec(t: DateField) -> Seq<char> {
    match t {
        DateField::Digitized => "Date and time of digital data generation"@,
        DateField::Original => "Date and time of original data generation"@,
        DateField::Changed => "File change date and time"@,
    }
}

/// The name a date field is reported under, as `description_spec` states
/// it.
pub fn field_description(t: DateField) -> (r: &'static str)
    ensures
        r@ == description_spec(t),
{
    match t {
        DateField::Digitized => "Date and time of digital data generation",
        DateField::Original => "Date and time of original data generation",
        DateField::Changed => "File change date and time",
    }
}

/// The first of `tags`, in order, that the metadata block shows text for,
/// with that text; nothing when none of them is present.
pub open spec fn first_present(e: exif::Exif, tags: Seq<DateField>) -> Option<Seq<char>>
    decreases tags.len(),
{
    if tags.len() == 0 {
        None
    } else if field_text(e, tags[0]) is Some {
        field_text(e, tags[0])
    } else {
        first_present(e, tags.skip(1))
    }
}

/// Looks through the metadata block for the date fields in `tags`, in that
/// order, and returns the first value found.  When none of the fields is
/// present, the error names the first field of `tags`.
pub fn first_of(path: &str, exif: &exif::Exif, tags: &Vec<DateField>) -> (r: Result<
    String,
    Error,
>)
    requires
        tags@.len() > 0,
    ensures
        first_present(*exif, tags@) matches Some(v) ==> (r matches Ok(s) && s@ == v),
        first_present(*exif, tags@) is None ==> (r matches Err(
            Error::MissingField { path: p, field: f },
        ) && p@ == path@ && f@ == description_spec(tags@[0])),
{
    let mut i: usize = 0;
    proof {
        assert(tags@.skip(0) =~= tags@);
    }
    while i < tags.len()
        invariant
            i <= tags@.len(),
            first_present(*exif, tags@) == first_present(*exif, tags@.skip(i as int)),
        decreases tags@.len() - i,
    {
        if let Some(value) = read_field(exif, tags[i]) {
            proof {
                let rest = tags@.skip(i as int);
                assert(rest[0] == tags@[i as int]);
            }
            return Ok(value);
        }
        proof {
            let rest = tags@.skip(i as int);
            assert(rest[0] == tags@[i as int]);
            assert(rest.skip(1) =~= tags@.skip(i as int + 1));
        }
        i = i + 1;
    }
    proof {
        assert(tags@.skip(tags@.len() as int) =~= Seq::<DateField>::empty());
    }
    Err(
        Error::MissingField {
            path: String::from_str(path),
            field: String::from_str(field_description(tags[0])),
        },
    )
}

/// Decodes the metadata block of the image at `path`, read into `data`,
/// whose size on disk is `len` when it is known.  A file below
/// `MIN_FILE_LEN` is rejected as a thumbnail before any decoding.
pub fn get_exif(path: &str, len: Option<u64>, data: &[u8]) -> (r: Result<exif::Exif, Error>)
    ensures
        (len matches Some(l) && l < MIN_FILE_LEN) ==> (r matches Err(
            Error::TooSmall { path: p, len: l2 },
        ) && p@ == path@ && Some(l2) == len),
        (len is None || (len matches Some(l) && l >= MIN_FILE_LEN)) ==> {
            &&& r is Ok <==> decode_failure(data@) is None
            &&& decode_failure(data@) matches Some(m) ==> (r matches Err(
                Error::Parse { path: p, message: msg },
            ) && p@ == path@ && msg@ == m)
        },
{
    if let Some(l) = len {
        if too_small(l) {
            return Err(Error::TooSmall { path: String::from_str(path), len: l });
        }
    }
    match decode_metadata(data) {
        Ok(e) => Ok(e),
        Err(m) => Err(Error::Parse { path: String::from_str(path), message: m }),
    }
}

/// The name the link for this image should get: the base directory, the
/// image's capture date rewritten into nested date directories, and the
/// image's own file name.  When the metadata shows none of the date
/// fields, the error names the first one looked for.
pub fn link_name(exif: &exif::Exif, path: &str, base: &str) -> (r: Result<String, Error>)
    ensures
        first_present(*exif, date_priority_spec()) matches Some(dt) ==> (r matches Ok(t) && t@
            == target_spec(dt, path@, base@)),
        first_present(*exif, date_priority_spec()) is None ==> (r matches Err(
            Error::MissingField { path: p, field: f },
        ) && p@ == path@ && f@ == description_spec(DateField::Digitized)),
{
    let tags = date_priority();
    let datetime = match first_of(path, exif, &tags) {
        Ok(d) => d,
        Err(e) => {
            return Err(e);
        },
    };
    Ok(compose_target(datetime.as_str(), path, base))
}

} // verus!
