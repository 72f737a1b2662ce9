use owm::current::WeatherQuery;
use owm::decimal::decimal;
use owm::hub::{BoundingBox, FormatResponse, Units, WeatherHub};
use owm::uri::UriBuilder;

fn hub() -> WeatherHub<()> {
    WeatherHub::new((), "KEY")
}

fn params(url: &str) -> Vec<String> {
    match url.split_once('?') {
        Some((_, q)) => q.split('&').map(|s| s.to_string()).collect(),
        None => Vec::new(),
    }
}

fn path(url: &str) -> String {
    let rest = url.strip_prefix("http://api.openweathermap.org").unwrap();
    match rest.split_once('?') {
        Some((p, _)) => p.to_string(),
        None => rest.to_string(),
    }
}

#[test]
fn by_name_with_country() {
    let url = hub().current().by_name("Pisa", Some("IT")).url();
    let ps = params(&url);
    assert!(ps.contains(&"q=Pisa,IT".to_string()));
    assert!(ps.contains(&"appid=KEY".to_string()));
    assert_eq!(path(&url), "/data/2.5/weather");
    assert_eq!(url, "http://api.openweathermap.org/data/2.5/weather?appid=KEY&q=Pisa,IT");
}

#[test]
fn by_name_without_country() {
    let url = hub().current().by_name("Pisa", None).url();
    assert_eq!(url, "http://api.openweathermap.org/data/2.5/weather?appid=KEY&q=Pisa");
}

#[test]
fn by_id_sets_id() {
    let url = hub().current().by_id(6542122).url();
    let ps = params(&url);
    assert!(ps.contains(&"id=6542122".to_string()));
    assert_eq!(path(&url), "/data/2.5/weather");
}

#[test]
fn by_coords_with_metric_units() {
    let lat: f32 = 43.72;
    let lon: f32 = 10.4;
    let url = hub()
        .current()
        .units(Units::Metric)
        .by_coords(&lat.to_string(), &lon.to_string())
        .url();
    let ps = params(&url);
    assert!(ps.contains(&"lat=43.72".to_string()));
    assert!(ps.contains(&"lon=10.4".to_string()));
    assert!(ps.contains(&"units=metric".to_string()));
    assert_eq!(path(&url), "/data/2.5/weather");
}

#[test]
fn by_bounds_box_and_no_cluster() {
    let (l, b, r, t): (f32, f32, f32, f32) = (10.38, 43.7, 10.42, 43.73);
    let bbox = BoundingBox {
        top: t.to_string(),
        bottom: b.to_string(),
        left: l.to_string(),
        right: r.to_string(),
    };
    let url = hub().current().by_bounds(&bbox, 10, false).url();
    let ps = params(&url);
    assert!(ps.contains(&"bbox=10.38,43.7,10.42,43.73,10".to_string()));
    assert!(ps.contains(&"cluster=no".to_string()));
    assert_eq!(path(&url), "/data/2.5/box/city");
}

#[test]
fn by_circle_with_cluster() {
    let url = hub().current().by_circle("43.71", "10.41", 10, true).url();
    let ps = params(&url);
    assert!(ps.contains(&"lat=43.71".to_string()));
    assert!(ps.contains(&"lon=10.41".to_string()));
    assert!(ps.contains(&"cnt=10".to_string()));
    assert!(ps.contains(&"cluster=yes".to_string()));
    assert_eq!(path(&url), "/data/2.5/find");
}

#[test]
fn by_zip_code_with_language() {
    let url = hub().current().lang("it").by_zip_code(56100, Some("IT")).url();
    let ps = params(&url);
    assert!(ps.contains(&"zip=56100,IT".to_string()));
    assert!(ps.contains(&"lang=it".to_string()));
    assert_eq!(path(&url), "/data/2.5/weather");
}

#[test]
fn by_zip_code_without_country() {
    let url = hub().current().by_zip_code(56100, None).url();
    assert!(params(&url).contains(&"zip=56100".to_string()));
}

#[test]
fn cluster_encoding_never_true_false() {
    for c in [true, false] {
        let url = hub().current().by_circle("1", "2", 3, c).url();
        let ps = params(&url);
        let want = if c { "cluster=yes" } else { "cluster=no" };
        assert!(ps.contains(&want.to_string()));
        assert!(!url.contains("true") && !url.contains("false"));
    }
}

#[test]
fn every_url_has_fixed_shape_and_credential() {
    let urls = vec![
        hub().current().by_name("Pisa", None).url(),
        hub().current().by_id(1).url(),
        hub().current().by_circle("1", "2", 3, false).url(),
        UriBuilder::new().url(),
    ];
    for (i, u) in urls.iter().enumerate() {
        assert!(u.starts_with("http://api.openweathermap.org/data/2.5/"));
        if i < 3 {
            assert!(params(u).contains(&"appid=KEY".to_string()));
        }
    }
    assert_eq!(urls[3], "http://api.openweathermap.org/data/2.5/");
}

#[test]
fn setting_a_parameter_twice_keeps_the_latest() {
    let url = hub().current().units(Units::Metric).units(Units::Imperial).lang("en").lang("it").by_id(7).url();
    let ps = params(&url);
    assert_eq!(ps, vec!["appid=KEY", "units=imperial", "lang=it", "id=7"]);

    let mut b = UriBuilder::new();
    b.param("k", "a".to_string()).param("k", "b".to_string()).method("m").method("n");
    assert_eq!(b.url(), "http://api.openweathermap.org/data/2.5/n?k=b");
}

#[test]
fn modifiers_absent_when_not_called() {
    let url = hub().current().by_name("Pisa", Some("IT")).url();
    assert!(!params(&url).iter().any(|p| p.starts_with("units=") || p.starts_with("lang=")));
}

#[test]
fn units_wire_names() {
    assert_eq!(Units::Metric.to_string(), "metric");
    assert_eq!(Units::Imperial.to_string(), "imperial");
}

#[test]
fn decimal_matches_std() {
    for n in [0, 7, 10, 56100, 6542122, -1, -45, i32::MAX, i32::MIN] {
        assert_eq!(decimal(n), n.to_string());
    }
}

#[test]
fn build_gives_the_url() {
    let b = hub().current().by_name("Pisa", Some("IT"));
    let uri = b.build().ok().unwrap();
    assert_eq!(uri.to_string(), b.url());
    assert_eq!(uri.path(), "/data/2.5/weather");
    assert_eq!(uri.host(), Some("api.openweathermap.org"));
    assert_eq!(uri.scheme_str(), Some("http"));
    assert_eq!(uri.query(), Some("appid=KEY&q=Pisa,IT"));
    // building twice gives the same URL
    assert_eq!(b.build().ok().unwrap(), uri);
}

#[test]
fn build_refuses_a_space() {
    let b = hub().current().by_name("New York", None);
    match b.build() {
        Ok(_) => panic!("a space is not accepted in a URI"),
        Err(e) => assert_eq!(e.path_and_query, "/data/2.5/weather?appid=KEY&q=New York"),
    }
}

#[test]
fn path_and_query_text() {
    let b = hub().current().by_bounds(
        &BoundingBox {
            top: "4".to_string(),
            bottom: "3".to_string(),
            left: "1".to_string(),
            right: "2".to_string(),
        },
        -5,
        true,
    );
    assert_eq!(b.path_and_query(), "/data/2.5/box/city?appid=KEY&bbox=1,3,2,4,-5&cluster=yes");
}

#[test]
fn query_from_builder_and_hub_client() {
    let h = WeatherHub::new(42u32, "K");
    assert_eq!(*h.client(), 42);
    let q = WeatherQuery::new(UriBuilder::new());
    assert_eq!(q.by_id(3).url(), "http://api.openweathermap.org/data/2.5/weather?id=3");
}
