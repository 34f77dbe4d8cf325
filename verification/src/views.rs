//! Scenes — what to look at through which satellite — and the query
//! strings that locate a scene on a given date at the imagery service.

use vstd::prelude::*;
use vstd::string::StringExecFns;

use crate::dating::{date_text, Date, DateV};

verus! {

/// Which satellite layer to request; a free-form layer name is the
/// caller's responsibility to have checked before entry.
pub enum SatelliteLayer {
    Terra,
    Aqua,
    Sat(String),
}

/// The image format to request.
pub enum ImageType {
    JPEG,
    PNG,
}

/// A scene defines what to look at through which satellite, but not the
/// date.
pub struct Scene {
    pub satellite: SatelliteLayer,
    pub lat_min: String,
    pub lat_max: String,
    pub lon_min: String,
    pub lon_max: String,
    pub width: String,
    pub height: String,
    pub image_type: ImageType,
}

impl Scene {
    pub fn new(
        satellite: SatelliteLayer,
        lat_min: String,
        lat_max: String,
        lon_min: String,
        lon_max: String,
        width: String,
        height: String,
        image_type: ImageType,
    ) -> (r: Self)
        ensures
            r.satellite == satellite,
            r.lat_min == lat_min,
            r.lat_max == lat_max,
            r.lon_min == lon_min,
            r.lon_max == lon_max,
            r.width == width,
            r.height == height,
            r.image_type == image_type,
    {
        Scene { satellite, lat_min, lat_max, lon_min, lon_max, width, height, image_type }
    }
}

/// The query fragment naming the requested layer.
pub open spec fn layer_query_text(l: &SatelliteLayer) -> Seq<char> {
    match l {
        SatelliteLayer::Terra => "&LAYERS="@ + "MODIS_Terra_correctedReflectance_TrueColor"@,
        SatelliteLayer::Aqua => "&LAYERS="@ + "MODIS_Aqua_correctedReflectance_TrueColor"@,
        SatelliteLayer::Sat(layer) => "&LAYERS="@ + layer@,
    }
}

/// The query fragment naming the requested image format.
pub open spec fn image_query_text(t: &ImageType) -> Seq<char> {
    match t {
        ImageType::JPEG => "&FORMAT=image/"@ + "JPEG"@,
        ImageType::PNG => "&FORMAT=image/"@ + "PNG"@,
    }
}

/// The query fragment carrying the date, `&Time=YYYY-MM-DD`.
pub open spec fn date_query_text(d: DateV) -> Seq<char> {
    "&Time="@ + date_text(d)
}

/// The query fragment of a whole scene: layer, format, size and bounding
/// box.
pub open spec fn scene_query_text(v: &Scene) -> Seq<char> {
    layer_query_text(&v.satellite) + image_query_text(&v.image_type) + "&HEIGHT="@ + v.height@
        + "&WIDTH="@ + v.width@ + "&BBox="@ + v.lat_min@ + ","@ + v.lon_min@ + ","@ + v.lat_max@
        + ","@ + v.lon_max@
}

/// The fixed path and base query of the map service.
pub open spec fn base_pnq_text() -> Seq<char> {
    "/wms/epsg4326/best/wms.cgi"@ + "?SERVICE=WMS&REQUEST=GetMap&VERSION=1.3.0&CRS=EPSG:4326"@
}

/// The full path-and-query locating a scene on a date.
pub open spec fn locate_text(v: &Scene, d: DateV) -> Seq<char> {
    base_pnq_text() + date_query_text(d) + scene_query_text(v)
}

impl SatelliteLayer {
    pub fn query(&self) -> (r: String)
        ensures
            r@ == layer_query_text(self),
    {
        let mut s = String::from_str("&LAYERS=");
        match self {
            SatelliteLayer::Terra => s.append("MODIS_Terra_correctedReflectance_TrueColor"),
            SatelliteLayer::Aqua => s.append("MODIS_Aqua_correctedReflectance_TrueColor"),
            SatelliteLayer::Sat(layer) => s.append(layer.as_str()),
        }
        s
    }
}

impl ImageType {
    pub fn query(&self) -> (r: String)
        ensures
            r@ == image_query_text(self),
    {
        let mut s = String::from_str("&FORMAT=image/");
        match self {
            ImageType::JPEG => s.append("JPEG"),
            ImageType::PNG => s.append("PNG"),
        }
        s
    }
}

impl Date {
    /// The date as a query fragment.
    pub fn query(&self) -> (r: String)
        ensures
            r@ == date_query_text(self@),
    {
        let mut s = String::from_str("&Time=");
        let rendered = self.render();
        s.append(rendered.as_str());
        s
    }
}

impl Scene {
    /// The scene as a query fragment.
    pub fn query(&self) -> (r: String)
        ensures
            r@ == scene_query_text(self),
    {
        let mut s = self.satellite.query();
        let img = self.image_type.query();
        s.append(img.as_str());
        s.append("&HEIGHT=");
        s.append(self.height.as_str());
        s.append("&WIDTH=");
        s.append(self.width.as_str());
        s.append("&BBox=");
        s.append(self.lat_min.as_str());
        s.append(",");
        s.append(self.lon_min.as_str());
        s.append(",");
        s.append(self.lat_max.as_str());
        s.append(",");
        s.append(self.lon_max.as_str());
        proof {
            assert(s@ =~= scene_query_text(self));
        }
        s
    }
}

/// The basic path and query of the map service, before date and scene.
pub fn get_base_pnq() -> (r: String)
    ensures
        r@ == base_pnq_text(),
{
    let mut pnq = String::from_str("/wms/epsg4326/best/wms.cgi");
    pnq.append("?SERVICE=WMS&REQUEST=GetMap&VERSION=1.3.0&CRS=EPSG:4326");
    pnq
}

/// The full path-and-query for a scene on a date.
pub fn locate_pnq(v: &Scene, d: &Date) -> (r: String)
    ensures
        r@ == locate_text(v, d@),
{
    let mut pnq = get_base_pnq();
    let dq = d.query();
    pnq.append(dq.as_str());
    let vq = v.query();
    pnq.append(vq.as_str());
    proof {
        assert(pnq@ =~= locate_text(v, d@));
    }
    pnq
}

#[verifier::external_type_specification]
#[verifier::external_body]
pub struct ExUri(http::Uri);

#[verifier::external_type_specification]
#[verifier::external_body]
pub struct ExBuilder(http::uri::Builder);

/// Relies on http::uri::Uri::builder: a fresh builder with no parts set.
#[verifier::external_body]
fn uri_builder() -> http::uri::Builder {
    http::Uri::builder()
}

/// Relies on http::uri::Builder::scheme: records the scheme; a malformed
/// scheme surfaces as an error only at build time.
#[verifier::external_body]
fn builder_scheme(b: http::uri::Builder, scheme: &str) -> http::uri::Builder {
    b.scheme(scheme)
}

/// Relies on http::uri::Builder::authority: records the authority; a
/// malformed authority surfaces as an error only at build time.
#[verifier::external_body]
fn builder_authority(b: http::uri::Builder, authority: &str) -> http::uri::Builder {
    b.authority(authority)
}

/// Relies on http::uri::Builder::path_and_query: records the path and
/// query; a malformed one surfaces as an error only at build time.
#[verifier::external_body]
fn builder_path_and_query(b: http::uri::Builder, pnq: &str) -> http::uri::Builder {
    b.path_and_query(pnq)
}

/// Relies on http::uri::Builder::build: assembles the URI from the
/// recorded parts, or fails if any part was malformed or the combination
/// is not a valid URI form.
#[verifier::external_body]
fn builder_build(b: http::uri::Builder) -> Option<http::Uri> {
    b.build().ok()
}

/// The basic URI builder of the map service: scheme and authority set,
/// ready for the addition of a path and query.
fn get_default_uri() -> http::uri::Builder {
    let b = uri_builder();
    let b = builder_scheme(b, "https");
    builder_authority(b, "gibs.earthdata.nasa.gov")
}

/// The service URI for a scene on a date, or nothing if the URI parts are
/// rejected by the URI grammar. The path-and-query handed over is exactly
/// `locate_text(v, d@)`.
pub fn locate(v: &Scene, d: &Date) -> (r: Option<http::Uri>) {
    let pnq = locate_pnq(v, d);
    let b = get_default_uri();
    let b = builder_path_and_query(b, pnq.as_str());
    builder_build(b)
}

/// A sample scene over a Himalayan bounding box, through Terra, as JPEG.
pub fn this_view() -> (r: Scene)
    ensures
        r.satellite is Terra,
        r.lat_min@ == "28.582763671876"@,
        r.lat_max@ == "29.760498046876"@,
        r.lon_min@ == "82.357421875"@,
        r.lon_max@ == "83.717529296875"@,
        r.width@ == "619"@,
        r.height@ == "536"@,
        r.image_type is JPEG,
{
    let sat = SatelliteLayer::Terra;
    let lat_min = String::from_str("28.582763671876");
    let lat_max = String::from_str("29.760498046876");
    let lon_min = String::from_str("82.357421875");
    let lon_max = String::from_str("83.717529296875");
    let width = String::from_str("619");
    let height = String::from_str("536");
    let img = ImageType::JPEG;
    Scene::new(sat, lat_min, lat_max, lon_min, lon_max, width, height, img)
}

} // verus!
