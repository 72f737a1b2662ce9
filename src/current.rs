use vstd::prelude::*;

use crate::decimal::{decimal, int_text};
use crate::hub::{BoundingBox, FormatResponse};
use crate::uri::{set_pair, HasBuilder, UriBuilder};

verus! {

/// The primary term, followed by `,` and the country code when one is given.
pub open spec fn with_country(primary: Seq<char>, country: Option<&str>) -> Seq<char> {
    match country {
        Some(c) => primary + seq![','] + c@,
        None => primary,
    }
}

/// Wire form of the cluster flag.
pub open spec fn yes_no(b: bool) -> Seq<char> {
    if b {
        "yes"@
    } else {
        "no"@
    }
}

/// `<left>,<bottom>,<right>,<top>,<zoom>`.
pub open spec fn bbox_text(bbox: &BoundingBox, zoom: int) -> Seq<char> {
    bbox.left@ + seq![','] + bbox.bottom@ + seq![','] + bbox.right@ + seq![','] + bbox.top@ + seq![
        ',',
    ] + int_text(zoom)
}

fn join_country(primary: String, country: Option<&str>) -> (r: String)
    ensures
        r@ == with_country(primary@, country),
{
    proof {
        reveal_strlit(",");
    }
    match country {
        None => primary,
        Some(c) => {
            let mut s = primary;
            s.append(",");
            s.append(c);
            s
        },
    }
}

fn yes_no_string(b: bool) -> (r: String)
    ensures
        r@ == yes_no(b),
{
    String::from_str(if b { "yes" } else { "no" })
}

/// Query builder for the current-weather API.
pub struct WeatherQuery {
    builder: UriBuilder,
}

impl HasBuilder for WeatherQuery {
    closed spec fn uri(&self) -> UriBuilder {
        self.builder
    }

    fn builder(&mut self) -> (r: &mut UriBuilder) {
        &mut self.builder
    }
}

impl FormatResponse for WeatherQuery {}

impl WeatherQuery {
    /// A query over the given URI builder.
    pub fn new(builder: UriBuilder) -> (r: WeatherQuery)
        ensures
            r.uri() == builder,
    {
        WeatherQuery { builder }
    }

    /// Query current weather by passing a city name and an optional country
    /// code. Returns the request's URI builder, ready to build.
    pub fn by_name(self, city: &str, country: Option<&str>) -> (r: UriBuilder)
        requires
            self.uri().wf(),
        ensures
            r.wf(),
            r.api_ver_text() == self.uri().api_ver_text(),
            r.method_text() == "weather"@,
            r.pairs() == set_pair(self.uri().pairs(), "q"@, with_country(city@, country)),
    {
        let q = join_country(String::from_str(city), country);
        let mut b = self.builder;
        b.method("weather");
        b.param("q", q);
        b
    }

    /// Query current weather by passing a city ID.
    pub fn by_id(self, id: i32) -> (r: UriBuilder)
        requires
            self.uri().wf(),
        ensures
            r.wf(),
            r.api_ver_text() == self.uri().api_ver_text(),
            r.method_text() == "weather"@,
            r.pairs() == set_pair(self.uri().pairs(), "id"@, int_text(id as int)),
    {
        let mut b = self.builder;
        b.method("weather");
        b.param("id", decimal(id));
        b
    }

    /// Query current weather by passing a ZIP code and an optional country
    /// code.
    pub fn by_zip_code(self, zip: i32, country: Option<&str>) -> (r: UriBuilder)
        requires
            self.uri().wf(),
        ensures
            r.wf(),
            r.api_ver_text() == self.uri().api_ver_text(),
            r.method_text() == "weather"@,
            r.pairs() == set_pair(
                self.uri().pairs(),
                "zip"@,
                with_country(int_text(zip as int), country),
            ),
    {
        let q = join_country(decimal(zip), country);
        let mut b = self.builder;
        b.method("weather");
        b.param("zip", q);
        b
    }

    /// Query current weather by passing geographic coordinates, each written
    /// as a decimal number of degrees.
    pub fn by_coords(self, lat: &str, lon: &str) -> (r: UriBuilder)
        requires
            self.uri().wf(),
        ensures
            r.wf(),
            r.api_ver_text() == self.uri().api_ver_text(),
            r.method_text() == "weather"@,
            r.pairs() == set_pair(set_pair(self.uri().pairs(), "lat"@, lat@), "lon"@, lon@),
    {
        let mut b = self.builder;
        b.method("weather");
        b.param("lat", String::from_str(lat));
        b.param("lon", String::from_str(lon));
        b
    }

    /// Query current weather for cities within the rectangle `bbox` at the
    /// given zoom, with or without server-side clustering of points.
    pub fn by_bounds(self, bbox: &BoundingBox, zoom: i32, cluster: bool) -> (r: UriBuilder)
        requires
            self.uri().wf(),
        ensures
            r.wf(),
            r.api_ver_text() == self.uri().api_ver_text(),
            r.method_text() == "box/city"@,
            r.pairs() == set_pair(
                set_pair(self.uri().pairs(), "bbox"@, bbox_text(bbox, zoom as int)),
                "cluster"@,
                yes_no(cluster),
            ),
    {
        proof {
            reveal_strlit(",");
        }
        let mut q = String::new();
        q.append(bbox.left.as_str());
        q.append(",");
        q.append(bbox.bottom.as_str());
        q.append(",");
        q.append(bbox.right.as_str());
        q.append(",");
        q.append(bbox.top.as_str());
        q.append(",");
        let z = decimal(zoom);
        q.append(z.as_str());
        assert(q@ =~= bbox_text(bbox, zoom as int));
        let mut b = self.builder;
        b.method("box/city");
        b.param("bbox", q);
        b.param("cluster", yes_no_string(cluster));
        b
    }

    /// Query current weather for cities inside the circle around the point
    /// (`lat`, `lon`), asking for `count` cities, with or without server-side
    /// clustering of points.
    pub fn by_circle(self, lat: &str, lon: &str, count: i32, cluster: bool) -> (r: UriBuilder)
        requires
            self.uri().wf(),
        ensures
            r.wf(),
            r.api_ver_text() == self.uri().api_ver_text(),
            r.method_text() == "find"@,
            r.pairs() == set_pair(
                set_pair(
                    set_pair(set_pair(self.uri().pairs(), "lat"@, lat@), "lon"@, lon@),
                    "cnt"@,
                    int_text(count as int),
                ),
                "cluster"@,
                yes_no(cluster),
            ),
    {
        let mut b = self.builder;
        b.method("find");
        b.param("lat", String::from_str(lat));
        b.param("lon", String::from_str(lon));
        b.param("cnt", decimal(count));
        b.param("cluster", yes_no_string(cluster));
        b
    }
}

} // verus!
