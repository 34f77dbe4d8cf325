use dating::dating::Date;
use dating::views::{get_base_pnq, locate, locate_pnq, this_view, ImageType, SatelliteLayer,
    Scene};
use dating::{these_uris, this_uri};

const BASE_PNQ: &str =
    "/wms/epsg4326/best/wms.cgi?SERVICE=WMS&REQUEST=GetMap&VERSION=1.3.0&CRS=EPSG:4326";

const THIS_VIEW_QUERY: &str = "&LAYERS=MODIS_Terra_correctedReflectance_TrueColor\
&FORMAT=image/JPEG&HEIGHT=536&WIDTH=619\
&BBox=28.582763671876,82.357421875,29.760498046876,83.717529296875";

#[test]
fn date_query_fragment() {
    assert_eq!(Date::new(2020, 1, 2).query(), "&Time=2020-01-02");
    assert_eq!(Date::new(2019, 4, 1).query(), "&Time=2019-04-01");
}

#[test]
fn layer_query_fragments() {
    assert_eq!(
        SatelliteLayer::Terra.query(),
        "&LAYERS=MODIS_Terra_correctedReflectance_TrueColor"
    );
    assert_eq!(
        SatelliteLayer::Aqua.query(),
        "&LAYERS=MODIS_Aqua_correctedReflectance_TrueColor"
    );
    assert_eq!(
        SatelliteLayer::Sat(String::from("VIIRS_SNPP_CorrectedReflectance_TrueColor")).query(),
        "&LAYERS=VIIRS_SNPP_CorrectedReflectance_TrueColor"
    );
}

#[test]
fn image_query_fragments() {
    assert_eq!(ImageType::JPEG.query(), "&FORMAT=image/JPEG");
    assert_eq!(ImageType::PNG.query(), "&FORMAT=image/PNG");
}

#[test]
fn scene_query_fragment() {
    assert_eq!(this_view().query(), THIS_VIEW_QUERY);
}

#[test]
fn scene_new_keeps_fields() {
    let s = Scene::new(
        SatelliteLayer::Aqua,
        String::from("1"),
        String::from("2"),
        String::from("3"),
        String::from("4"),
        String::from("10"),
        String::from("20"),
        ImageType::PNG,
    );
    assert_eq!(
        s.query(),
        "&LAYERS=MODIS_Aqua_correctedReflectance_TrueColor&FORMAT=image/PNG\
&HEIGHT=20&WIDTH=10&BBox=1,3,2,4"
    );
}

#[test]
fn base_path_and_query() {
    assert_eq!(get_base_pnq(), BASE_PNQ);
}

#[test]
fn locate_path_and_query() {
    let expected = format!("{}&Time=2019-04-01{}", BASE_PNQ, THIS_VIEW_QUERY);
    assert_eq!(locate_pnq(&this_view(), &Date::new(2019, 4, 1)), expected);
}

#[test]
fn locate_builds_the_uri() {
    let uri = locate(&this_view(), &Date::new(2019, 4, 1)).expect("valid URI parts");
    assert_eq!(uri.scheme_str(), Some("https"));
    assert_eq!(uri.host(), Some("gibs.earthdata.nasa.gov"));
    let expected = format!("{}&Time=2019-04-01{}", BASE_PNQ, THIS_VIEW_QUERY);
    assert_eq!(uri.path_and_query().map(|p| p.as_str()), Some(expected.as_str()));
}

#[test]
fn this_uri_is_the_sample_location() {
    let uri = this_uri().expect("valid URI parts");
    let expected = format!(
        "https://gibs.earthdata.nasa.gov{}&Time=2019-04-01{}",
        BASE_PNQ, THIS_VIEW_QUERY
    );
    assert_eq!(uri.to_string(), expected);
}

#[test]
fn these_uris_cover_the_sample_sequence() {
    let uris = these_uris().expect("valid URI parts");
    assert_eq!(uris.len(), 11);
    let first = format!("https://gibs.earthdata.nasa.gov{}&Time=2019-04-01{}", BASE_PNQ,
        THIS_VIEW_QUERY);
    let last = format!("https://gibs.earthdata.nasa.gov{}&Time=2020-03-21{}", BASE_PNQ,
        THIS_VIEW_QUERY);
    assert_eq!(uris[0].to_string(), first);
    assert_eq!(uris[10].to_string(), last);
}
