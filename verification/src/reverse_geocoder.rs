//! From the reply of the reverse-geocoding service to an address: the
//! municipality is looked up in the table by its code and joined with the
//! name of the area.

use crate::municd::{MuniCdMap, MuniCdRecordView, KEY_WIDTH};
use crate::text::{pad_left, padded};
use vstd::prelude::*;

verus! {

/// The address of the reverse-geocoding service.
pub const REVERSE_GEOCODE_URL: &'static str =
    "https://mreversegeocoder.gsi.go.jp/reverse-geocoder/LonLatToAddress";

/// What stands in for prefecture and municipality where the table does not
/// hold the code.
pub const UNKNOWN_MUNICIPALITY: &'static str = "????? ";

/// The characters of `UNKNOWN_MUNICIPALITY`: five question marks and a blank.
pub open spec fn unknown_municipality() -> Seq<char> {
    seq!['?', '?', '?', '?', '?', ' ']
}

/// The place that the service names: the code of the municipality, as the
/// service writes it, and the name of the area within it.
#[derive(Clone, Debug, PartialEq, Eq)]
pub struct GeometoryInfo {
    pub muni_code: String,
    pub area_name: String,
}

/// A reply of the service.
#[derive(Debug, PartialEq, Eq)]
pub struct ApiResult {
    results: GeometoryInfo,
}

/// What a reply holds, as mathematical values.
pub ghost struct ApiResultView {
    pub muni_code: Seq<char>,
    pub area_name: Seq<char>,
}

impl View for ApiResult {
    type V = ApiResultView;

    closed spec fn view(&self) -> ApiResultView {
        ApiResultView { muni_code: self.results.muni_code@, area_name: self.results.area_name@ }
    }
}

/// The key under which the municipality of a reply is looked up: its code,
/// with zeros in front where it has fewer than `KEY_WIDTH` characters.
pub open spec fn lookup_key(muni_code: Seq<char>) -> Seq<char> {
    padded(muni_code, KEY_WIDTH as nat, '0')
}

impl ApiResult {
    /// The reply that names `results`.
    pub fn new(results: GeometoryInfo) -> (r: Self)
        ensures
            r@ == (ApiResultView { muni_code: results.muni_code@, area_name: results.area_name@ }),
    {
        ApiResult { results }
    }

    /// The code of the municipality, as a key of the table.
    pub fn muni_code(&self) -> (r: String)
        ensures
            r@ == lookup_key(self@.muni_code),
    {
        pad_left(self.results.muni_code.as_str(), KEY_WIDTH, '0')
    }

    /// The name of the area.
    pub fn area_name(&self) -> (r: String)
        ensures
            r@ == self@.area_name,
    {
        self.results.area_name.clone()
    }
}

/// The address for a reply: where the table holds the municipality, the name
/// of the prefecture, the name of the municipality without ideographic
/// spaces, and the name of the area, with nothing between them; where it does
/// not, the marker for an unknown municipality and the name of the area.
pub open spec fn address(table: Map<Seq<char>, MuniCdRecordView>, reply: ApiResultView) -> Seq<
    char,
> {
    let key = lookup_key(reply.muni_code);
    if table.contains_key(key) {
        table[key].display() + reply.area_name
    } else {
        unknown_municipality() + reply.area_name
    }
}

/// Turns replies of the service into addresses, with the table of
/// municipalities that it was made with.
pub struct ReverseGeocoder {
    municd: MuniCdMap,
}

impl View for ReverseGeocoder {
    type V = Map<Seq<char>, MuniCdRecordView>;

    closed spec fn view(&self) -> Map<Seq<char>, MuniCdRecordView> {
        self.municd@
    }
}

impl ReverseGeocoder {
    /// A resolver over the table `municd`.
    pub fn new(municd: MuniCdMap) -> (r: Self)
        ensures
            r@ == municd@,
    {
        ReverseGeocoder { municd }
    }

    /// The address for a reply of the service. A municipality that the table
    /// does not hold is no failure: the address then begins with the marker.
    pub fn resolve(&self, reply: &ApiResult) -> (r: String)
        ensures
            r@ == address(self@, reply@),
    {
        let key = reply.muni_code();
        let area = reply.area_name();
        match self.municd.get(key.as_str()) {
            Some(muni) => {
                let mut out = muni.to_string();
                out.append(area.as_str());
                out
            },
            None => {
                proof {
                    reveal_strlit("????? ");
                }
                let mut out = UNKNOWN_MUNICIPALITY.to_owned();
                out.append(area.as_str());
                out
            },
        }
    }
}

} // verus!
