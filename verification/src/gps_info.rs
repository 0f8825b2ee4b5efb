//! The location that a photograph records: degrees, minutes and seconds as
//! three unsigned rationals, and a letter for the hemisphere.
//!
//! The Exif attributes are read from the bytes of the image file by the `exif`
//! crate. The functions here decide whether a location is present and well
//! formed, which sign it has, and what fraction of a degree it is exactly.
//! Rounding that fraction to a binary floating-point number is left to the
//! caller.

use crate::text::chars_of;
use exif::Exif;
use vstd::prelude::*;

verus! {

/// An unsigned rational number: a pair of 32-bit unsigned integers.
#[derive(Clone, Copy, Debug, PartialEq, Eq, Structural)]
pub struct Rational {
    pub num: u32,
    pub denom: u32,
}

/// The value of a metadata field, as far as a location depends on it.
#[derive(Clone, Debug, PartialEq, Eq)]
pub enum FieldValue {
    /// A vector of unsigned rationals.
    Rational(Vec<Rational>),
    /// A value of any other type.
    Other,
}

/// A `FieldValue` as a mathematical value.
pub ghost enum FieldView {
    Rational(Seq<Rational>),
    Other,
}

impl View for FieldValue {
    type V = FieldView;

    open spec fn view(&self) -> FieldView {
        match self {
            FieldValue::Rational(v) => FieldView::Rational(v@),
            FieldValue::Other => FieldView::Other,
        }
    }
}

/// Why a field cannot be read as an angle.
#[derive(Clone, Copy, Debug, PartialEq, Eq, Structural)]
pub enum ConversionError {
    /// The field is not a vector of exactly three unsigned rationals.
    InvalidFormat,
}

/// An angle in degrees, minutes and seconds, with its sign.
#[derive(Clone, Copy, Debug, PartialEq, Eq, Structural)]
pub struct Degrees {
    pub deg: Rational,
    pub min: Rational,
    pub sec: Rational,
    /// Set for southern latitudes and western longitudes.
    pub negative: bool,
}

/// A latitude and a longitude.
#[derive(Clone, Copy, Debug, PartialEq, Eq, Structural)]
pub struct Coordinate {
    pub lat: Degrees,
    pub lng: Degrees,
}

/// The four fields of an image's metadata that make up a location, each as
/// found or absent: the values of the two angles, and the texts of the two
/// hemisphere references.
#[derive(Clone, Debug, PartialEq, Eq)]
pub struct GpsFields {
    pub latitude: Option<FieldValue>,
    pub latitude_ref: Option<String>,
    pub longitude: Option<FieldValue>,
    pub longitude_ref: Option<String>,
}

/// `GpsFields` as mathematical values.
pub ghost struct GpsFieldsView {
    pub latitude: Option<FieldView>,
    pub latitude_ref: Option<Seq<char>>,
    pub longitude: Option<FieldView>,
    pub longitude_ref: Option<Seq<char>>,
}

impl View for GpsFields {
    type V = GpsFieldsView;

    open spec fn view(&self) -> GpsFieldsView {
        GpsFieldsView {
            latitude: match self.latitude {
                Some(v) => Some(v@),
                None => None,
            },
            latitude_ref: match self.latitude_ref {
                Some(t) => Some(t@),
                None => None,
            },
            longitude: match self.longitude {
                Some(v) => Some(v@),
                None => None,
            },
            longitude_ref: match self.longitude_ref {
                Some(t) => Some(t@),
                None => None,
            },
        }
    }
}

/// Whether a hemisphere reference names the south or the west. Any other
/// text, recognised or not, counts as north or east.
pub open spec fn is_south_or_west(reference: Seq<char>) -> bool {
    reference == seq!['S'] || reference == seq!['W']
}

/// What `conv_degree` makes of a field and its hemisphere reference.
pub open spec fn converted(value: FieldView, reference: Seq<char>) -> Result<
    Degrees,
    ConversionError,
> {
    match value {
        FieldView::Rational(v) => if v.len() == 3 {
            Ok(Degrees { deg: v[0], min: v[1], sec: v[2], negative: is_south_or_west(reference) })
        } else {
            Err(ConversionError::InvalidFormat)
        },
        FieldView::Other => Err(ConversionError::InvalidFormat),
    }
}

/// Reads a field as an angle: its three rationals are the degrees, minutes
/// and seconds, and the angle is negative exactly for the references `S` and
/// `W`. A field of any other shape is an error.
pub fn conv_degree(value: &FieldValue, reference: &str) -> (r: Result<Degrees, ConversionError>)
    ensures
        r == converted(value@, reference@),
{
    match value {
        FieldValue::Rational(fractions) => {
            if fractions.len() != 3 {
                return Err(ConversionError::InvalidFormat);
            }
            let letters = chars_of(reference);
            let negative = letters.len() == 1 && (letters[0] == 'S' || letters[0] == 'W');
            proof {
                if letters@.len() == 1 {
                    assert(letters@ == seq![letters@[0]]);
                }
            }
            Ok(Degrees { deg: fractions[0], min: fractions[1], sec: fractions[2], negative })
        },
        FieldValue::Other => Err(ConversionError::InvalidFormat),
    }
}

/// The location that four fields give. Where one of them is absent there is
/// no location, which is no error; where all are present, both angles must
/// be well formed.
pub open spec fn located(fields: GpsFieldsView) -> Result<Option<Coordinate>, ConversionError> {
    if fields.latitude is None || fields.latitude_ref is None || fields.longitude is None
        || fields.longitude_ref is None {
        Ok(None)
    } else {
        match (
            converted(fields.latitude->Some_0, fields.latitude_ref->Some_0),
            converted(fields.longitude->Some_0, fields.longitude_ref->Some_0),
        ) {
            (Ok(lat), Ok(lng)) => Ok(Some(Coordinate { lat, lng })),
            _ => Err(ConversionError::InvalidFormat),
        }
    }
}

/// The location that the four fields give, if any.
pub fn locate(fields: &GpsFields) -> (r: Result<Option<Coordinate>, ConversionError>)
    ensures
        r == located(fields@),
{
    let lat = match &fields.latitude {
        Some(val) => val,
        None => return Ok(None),
    };
    let lat_ref = match &fields.latitude_ref {
        Some(val) => val,
        None => return Ok(None),
    };
    let lng = match &fields.longitude {
        Some(val) => val,
        None => return Ok(None),
    };
    let lng_ref = match &fields.longitude_ref {
        Some(val) => val,
        None => return Ok(None),
    };
    let lat = match conv_degree(lat, lat_ref.as_str()) {
        Ok(d) => d,
        Err(e) => return Err(e),
    };
    let lng = match conv_degree(lng, lng_ref.as_str()) {
        Ok(d) => d,
        Err(e) => return Err(e),
    };
    Ok(Some(Coordinate { lat, lng }))
}

/// The Exif attributes of an image, as the `exif` crate holds them.
#[verifier::external_type_specification]
#[verifier::external_body]
pub struct ExExif(exif::Exif);

/// The error of the `exif` crate.
#[verifier::external_type_specification]
#[verifier::external_body]
pub struct ExExifError(exif::Error);

/// The fields that make up a location.
#[derive(Clone, Copy, Debug, PartialEq, Eq, Structural)]
pub enum GpsTag {
    Latitude,
    LatitudeRef,
    Longitude,
    LongitudeRef,
}

/// A field of the Exif attributes: its value, and the text that it shows.
#[derive(Clone, Debug, PartialEq, Eq)]
pub struct GpsField {
    pub value: FieldValue,
    pub text: String,
}

/// A `GpsField` as mathematical values.
pub ghost struct GpsFieldView {
    pub value: FieldView,
    pub text: Seq<char>,
}

impl View for GpsField {
    type V = GpsFieldView;

    open spec fn view(&self) -> GpsFieldView {
        GpsFieldView { value: self.value@, text: self.text@ }
    }
}

/// The location fields that the Exif attributes hold for the primary image,
/// by tag.
pub uninterp spec fn exif_gps_fields(exif: Exif) -> Map<GpsTag, GpsFieldView>;

/// What `exif::Reader::read_from_container` finds in the bytes of an image
/// file: `None` where it fails, else the location fields of the attributes.
pub uninterp spec fn parsed_exif(data: Seq<u8>) -> Option<Map<GpsTag, GpsFieldView>>;

/// `exif::Reader::read_from_container`, with default options, on the bytes
/// of an image file. Whether it succeeds, and what attributes it gives,
/// depends on the bytes alone.
#[verifier::external_body]
fn parse_exif(data: &[u8]) -> (r: Result<Exif, exif::Error>)
    ensures
        match r {
            Ok(exif) => parsed_exif(data@) == Some(exif_gps_fields(exif)),
            Err(_) => parsed_exif(data@) is None,
        },
{
    exif::Reader::new().read_from_container(&mut std::io::Cursor::new(data))
}

/// `exif::Exif::get_field` for one of the location tags in the primary
/// image, with the field's value and `display_value` copied out.
#[verifier::external_body]
fn gps_field(exif: &Exif, tag: GpsTag) -> (r: Option<GpsField>)
    ensures
        r is Some <==> exif_gps_fields(*exif).contains_key(tag),
        r matches Some(field) ==> field@ == exif_gps_fields(*exif)[tag],
{
    let tag = match tag {
        GpsTag::Latitude => exif::Tag::GPSLatitude,
        GpsTag::LatitudeRef => exif::Tag::GPSLatitudeRef,
        GpsTag::Longitude => exif::Tag::GPSLongitude,
        GpsTag::LongitudeRef => exif::Tag::GPSLongitudeRef,
    };
    let field = exif.get_field(tag, exif::In::PRIMARY)?;
    let value = match field.value {
        exif::Value::Rational(ref v) => FieldValue::Rational(
            v.iter().map(|f| Rational { num: f.num, denom: f.denom }).collect(),
        ),
        _ => FieldValue::Other,
    };
    Some(GpsField { value, text: field.display_value().to_string() })
}

/// The message of an `exif::Error`, as its `Display` writes it. Nothing is
/// claimed of the text.
#[verifier::external_body]
fn error_text(err: &exif::Error) -> (r: String) {
    err.to_string()
}

/// Why no location could be read from an image.
#[derive(Clone, Debug, PartialEq, Eq)]
pub enum ReadError {
    /// The Exif attributes could not be read; with the message of the `exif`
    /// crate.
    Exif(String),
    /// An angle is not well formed.
    Conversion(ConversionError),
}

/// The four fields of a location among the fields by tag: of the angles the
/// value, of the references the text.
pub open spec fn fields_of(by_tag: Map<GpsTag, GpsFieldView>) -> GpsFieldsView {
    GpsFieldsView {
        latitude: if by_tag.contains_key(GpsTag::Latitude) {
            Some(by_tag[GpsTag::Latitude].value)
        } else {
            None
        },
        latitude_ref: if by_tag.contains_key(GpsTag::LatitudeRef) {
            Some(by_tag[GpsTag::LatitudeRef].text)
        } else {
            None
        },
        longitude: if by_tag.contains_key(GpsTag::Longitude) {
            Some(by_tag[GpsTag::Longitude].value)
        } else {
            None
        },
        longitude_ref: if by_tag.contains_key(GpsTag::LongitudeRef) {
            Some(by_tag[GpsTag::LongitudeRef].text)
        } else {
            None
        },
    }
}

/// Takes the four fields of a location out of the Exif attributes.
pub fn gps_fields(exif: &Exif) -> (r: GpsFields)
    ensures
        r@ == fields_of(exif_gps_fields(*exif)),
{
    let latitude = match gps_field(exif, GpsTag::Latitude) {
        Some(field) => Some(field.value),
        None => None,
    };
    let latitude_ref = match gps_field(exif, GpsTag::LatitudeRef) {
        Some(field) => Some(field.text),
        None => None,
    };
    let longitude = match gps_field(exif, GpsTag::Longitude) {
        Some(field) => Some(field.value),
        None => None,
    };
    let longitude_ref = match gps_field(exif, GpsTag::LongitudeRef) {
        Some(field) => Some(field.text),
        None => None,
    };
    GpsFields { latitude, latitude_ref, longitude, longitude_ref }
}

/// The location that an image records, from the bytes of its file: `None`
/// where it records none. An image whose Exif attributes cannot be read, or
/// whose location is not well formed, is an error.
pub fn read(data: &[u8]) -> (r: Result<Option<Coordinate>, ReadError>)
    ensures
        match parsed_exif(data@) {
            None => r matches Err(ReadError::Exif(_)),
            Some(by_tag) => match located(fields_of(by_tag)) {
                Ok(found) => r == Ok::<Option<Coordinate>, ReadError>(found),
                Err(e) => r == Err::<Option<Coordinate>, ReadError>(ReadError::Conversion(e)),
            },
        },
{
    let exif = match parse_exif(data) {
        Ok(exif) => exif,
        Err(err) => return Err(ReadError::Exif(error_text(&err))),
    };
    let fields = gps_fields(&exif);
    match locate(&fields) {
        Ok(found) => Ok(found),
        Err(e) => Err(ReadError::Conversion(e)),
    }
}

impl Degrees {
    /// Whether the angle has a value: none of the three denominators is zero.
    pub open spec fn well_defined(&self) -> bool {
        self.deg.denom > 0 && self.min.denom > 0 && self.sec.denom > 0
    }

    /// The numerator of the angle's magnitude, over `denominator`.
    pub open spec fn numerator(&self) -> nat {
        (3600 * (self.deg.num * self.min.denom * self.sec.denom) + 60 * (self.min.num
            * self.deg.denom * self.sec.denom) + self.sec.num * self.deg.denom
            * self.min.denom) as nat
    }

    /// The common denominator of degrees, minutes over 60 and seconds over
    /// 3600.
    pub open spec fn denominator(&self) -> nat {
        (3600 * (self.deg.denom * self.min.denom * self.sec.denom)) as nat
    }

    /// The magnitude of the angle in degrees as an exact fraction, numerator
    /// first; `None` where a denominator is zero. The fraction is not reduced.
    pub fn fraction(&self) -> (r: Option<(u128, u128)>)
        ensures
            r == if self.well_defined() {
                Some((self.numerator() as u128, self.denominator() as u128))
            } else {
                None::<(u128, u128)>
            },
            self.well_defined() ==> self.numerator() <= u128::MAX && 0 < self.denominator()
                <= u128::MAX,
    {
        if self.deg.denom == 0 || self.min.denom == 0 || self.sec.denom == 0 {
            return None;
        }
        let dn: u128 = self.deg.num as u128;
        let dd: u128 = self.deg.denom as u128;
        let mn: u128 = self.min.num as u128;
        let md: u128 = self.min.denom as u128;
        let sn: u128 = self.sec.num as u128;
        let sd: u128 = self.sec.denom as u128;
        proof {
            lemma_product_bound(dn as int, md as int, sd as int);
            lemma_product_bound(mn as int, dd as int, sd as int);
            lemma_product_bound(sn as int, dd as int, md as int);
            lemma_product_bound(dd as int, md as int, sd as int);
            assert(dd * md * sd > 0) by (nonlinear_arith)
                requires
                    dd > 0,
                    md > 0,
                    sd > 0,
            ;
        }
        let degrees: u128 = 3600 * (dn * md * sd);
        let minutes: u128 = 60 * (mn * dd * sd);
        let seconds: u128 = sn * dd * md;
        let whole: u128 = 3600 * (dd * md * sd);
        Some((degrees + minutes + seconds, whole))
    }
}

/// The product of three 32-bit numbers stays below 2^96, and so does the
/// product of the first two.
proof fn lemma_product_bound(a: int, b: int, c: int)
    requires
        0 <= a <= u32::MAX,
        0 <= b <= u32::MAX,
        0 <= c <= u32::MAX,
    ensures
        0 <= a * b <= 0xFFFF_FFFF * 0xFFFF_FFFF,
        0 <= a * b * c <= 0xFFFF_FFFF * 0xFFFF_FFFF * 0xFFFF_FFFF,
{
    assert(0 <= a * b <= 0xFFFF_FFFF * 0xFFFF_FFFF) by (nonlinear_arith)
        requires
            0 <= a <= 0xFFFF_FFFF,
            0 <= b <= 0xFFFF_FFFF,
    ;
    let ab = a * b;
    assert(0 <= ab * c <= (0xFFFF_FFFF * 0xFFFF_FFFF) * 0xFFFF_FFFF) by (nonlinear_arith)
        requires
            0 <= ab <= 0xFFFF_FFFF * 0xFFFF_FFFF,
            0 <= c <= 0xFFFF_FFFF,
    ;
}

/// Whether `n1 / d1` and `n2 / d2` are the same rational number, for
/// positive denominators.
pub open spec fn same_fraction(n1: int, d1: int, n2: int, d2: int) -> bool {
    n1 * d2 == n2 * d1
}

/// The magnitude of an angle is its degrees, plus its minutes over 60, plus
/// its seconds over 3600: the fraction that `fraction` returns equals the sum
/// of the three fractions `deg`, `min / 60` and `sec / 3600`, added over the
/// product of their denominators.
pub proof fn lemma_fraction_is_sexagesimal_sum(d: Degrees)
    requires
        d.well_defined(),
    ensures
        d.denominator() > 0,
        same_fraction(
            d.numerator() as int,
            d.denominator() as int,
            d.deg.num * (60 * d.min.denom) * (3600 * d.sec.denom) + d.min.num * d.deg.denom * (3600
                * d.sec.denom) + d.sec.num * d.deg.denom * (60 * d.min.denom),
            d.deg.denom * (60 * d.min.denom) * (3600 * d.sec.denom),
        ),
{
    let dn = d.deg.num as int;
    let dd = d.deg.denom as int;
    let mn = d.min.num as int;
    let md = d.min.denom as int;
    let sn = d.sec.num as int;
    let sd = d.sec.denom as int;
    assert(dd * md * sd > 0) by (nonlinear_arith)
        requires
            dd > 0,
            md > 0,
            sd > 0,
    ;
    assert((3600 * (dn * md * sd) + 60 * (mn * dd * sd) + sn * dd * md) * (dd * (60 * md) * (3600
        * sd)) == (dn * (60 * md) * (3600 * sd) + mn * dd * (3600 * sd) + sn * dd * (60 * md)) * (
    3600 * (dd * md * sd))) by (nonlinear_arith);
    assert(0 <= dn * md * sd && 0 <= mn * dd * sd && 0 <= sn * dd * md) by (nonlinear_arith)
        requires
            dn >= 0,
            dd >= 0,
            mn >= 0,
            md >= 0,
            sn >= 0,
            sd >= 0,
    ;
}

/// Of an angle in whole degrees, minutes and seconds, the magnitude is
/// `(3600 * deg + 60 * min + sec) / 3600`.
pub proof fn lemma_fraction_of_whole_parts(d: Degrees)
    requires
        d.deg.denom == 1,
        d.min.denom == 1,
        d.sec.denom == 1,
    ensures
        d.numerator() == 3600 * d.deg.num + 60 * d.min.num + d.sec.num,
        d.denominator() == 3600,
{
}

} // verus!
