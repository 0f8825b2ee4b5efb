use exif_geocode::municd::{MuniCdMap, MuniCdRecord};
use exif_geocode::reverse_geocoder::{
    ApiResult, GeometoryInfo, ReverseGeocoder, UNKNOWN_MUNICIPALITY,
};

fn reply(muni_code: &str, area_name: &str) -> ApiResult {
    ApiResult::new(GeometoryInfo {
        muni_code: muni_code.to_string(),
        area_name: area_name.to_string(),
    })
}

fn coder() -> ReverseGeocoder {
    let mut table = MuniCdMap::new();
    table.insert(
        "013101".to_string(),
        MuniCdRecord::new(13101, "東京都".to_string(), "千代田区".to_string()),
    );
    table.insert(
        "001101".to_string(),
        MuniCdRecord::new(1101, "北海道".to_string(), "札幌市\u{3000}中央区".to_string()),
    );
    table.insert(
        "472018".to_string(),
        MuniCdRecord::new(472018, "Okinawa".to_string(), "Naha City".to_string()),
    );
    ReverseGeocoder::new(table)
}

#[test]
fn reply_code_is_padded_to_six() {
    assert_eq!(reply("13101", "a").muni_code(), "013101");
    assert_eq!(reply("1101", "a").muni_code(), "001101");
    assert_eq!(reply("472018", "a").muni_code(), "472018");
    assert_eq!(reply("", "a").muni_code(), "000000");
    assert_eq!(reply("1234567", "a").muni_code(), "1234567");
    assert_eq!(reply("abc", "a").muni_code(), "000abc");
}

#[test]
fn reply_area_name_is_kept() {
    assert_eq!(reply("13101", "千代田").area_name(), "千代田");
    assert_eq!(reply("13101", "").area_name(), "");
}

#[test]
fn known_code_gives_prefecture_municipality_area() {
    assert_eq!(coder().resolve(&reply("13101", "丸の内一丁目")), "東京都千代田区丸の内一丁目");
    assert_eq!(coder().resolve(&reply("472018", " Izumizaki")), "OkinawaNaha City Izumizaki");
}

#[test]
fn known_code_with_separator_in_municipality() {
    assert_eq!(coder().resolve(&reply("1101", "北一条西")), "北海道札幌市中央区北一条西");
}

#[test]
fn known_code_written_with_leading_zero() {
    assert_eq!(coder().resolve(&reply("013101", "丸の内")), "東京都千代田区丸の内");
}

#[test]
fn unknown_code_gives_marker_and_area() {
    assert_eq!(UNKNOWN_MUNICIPALITY, "????? ");
    assert_eq!(coder().resolve(&reply("99999", "どこか")), "????? どこか");
    assert_eq!(coder().resolve(&reply("", "")), "????? ");
    assert_eq!(coder().resolve(&reply("0013101", "x")), "????? x");
}

#[test]
fn empty_table_resolves_nothing() {
    let coder = ReverseGeocoder::new(MuniCdMap::new());
    assert_eq!(coder.resolve(&reply("13101", "丸の内")), "????? 丸の内");
}
