use topbar::json::Json;
use topbar::modules::clock::LocalTime;
use topbar::modules::weather::{
    api_url, eq_ignore_ascii_case, failure, forecast_page_url, label_for_date, location_path, parse_wttr_response,
    relative_date_label, FetchStatus, ReportError, WeatherAction, WeatherCondition, WeatherFetcher,
};
use topbar::search::{IndexBuilder, SearchIndex, WalkedFile, MAX_ENTRIES};

fn file(path: &str) -> WalkedFile {
    let name = path.rsplit(|c| c == '\\' || c == '/').next().unwrap().to_string();
    let ext = name.rsplit_once('.').map(|(_, e)| e.to_string());
    WalkedFile { path: path.to_string(), file_name: name, extension: ext, is_file: true }
}

fn dir(path: &str) -> WalkedFile {
    WalkedFile { path: path.to_string(), file_name: String::new(), extension: None, is_file: false }
}

fn build(files: Vec<WalkedFile>, excludes: &[&str]) -> SearchIndex {
    let ex: Vec<String> = excludes.iter().map(|s| s.to_string()).collect();
    let mut b = IndexBuilder::new(&ex);
    for f in files {
        if b.offer(f) {
            break;
        }
    }
    b.finish()
}

#[test]
fn index_and_search_like_a_walk() {
    let idx = build(
        vec![dir("/tmp/t"), file("/tmp/t/Hello.exe"), file("/tmp/t/hello_world.exe"), file("/tmp/t/Other.exe")],
        &[],
    );
    assert!(idx.count() >= 3);
    let rank = vec![1u32; idx.count()];
    let results = idx.search_prefix("hel", 10, &rank);
    assert!(results.iter().any(|p| p.ends_with("Hello.exe")));
    assert!(results.iter().any(|p| p.ends_with("hello_world.exe")));
    assert_eq!(results.len(), 2);
    let results_contains = idx.search_query("llo", 10, &rank);
    assert!(results_contains.iter().any(|p| p.ends_with("Hello.exe")));
    let idx2 = build(
        vec![file("/tmp/t/Hello.exe"), file("/tmp/t/image.EXE"), file("/tmp/t/notes.txt"), file("/tmp/t/pic.png")],
        &[],
    );
    assert_eq!(idx2.count(), 3);
    let ext_results = idx2.search_by_extension(".exe", 10);
    assert!(ext_results.iter().any(|p| p.ends_with("image.EXE")));
    assert_eq!(ext_results.len(), 2);
    assert_eq!(idx2.search_by_extension("TXT", 10), vec!["/tmp/t/notes.txt".to_string()]);
    assert_eq!(idx2.search_by_extension("exe", 0).len(), 1);
}

#[test]
fn ranking_keeps_the_best() {
    let idx = build(vec![file("a1.exe"), file("a2.exe"), file("a3.exe"), file("a4.exe"), file("b.exe")], &[]);
    let rank = vec![5u32, 9, 1, 9, 100];
    assert_eq!(idx.search_prefix("A", 2, &rank), vec!["a2.exe".to_string(), "a4.exe".to_string()]);
    assert_eq!(
        idx.search_prefix("a", 10, &rank),
        vec!["a2.exe".to_string(), "a4.exe".to_string(), "a1.exe".to_string(), "a3.exe".to_string()]
    );
    assert_eq!(idx.search_query("exe", 1, &rank), vec!["b.exe".to_string()]);
    assert!(idx.search_prefix("zzz", 0, &rank).is_empty());
    assert_eq!(idx.entry_name(0), "a1.exe");
    assert_eq!(idx.entry_path(4), "b.exe");
}

#[test]
fn equal_ranks_come_in_path_order() {
    let idx = build(vec![file("c\\zeta.exe"), file("b\\zed.exe"), file("A\\zoo.exe"), file("a\\zap.exe")], &[]);
    let rank = vec![3u32, 3, 3, 7];
    assert_eq!(
        idx.search_prefix("z", 10, &rank),
        vec!["a\\zap.exe".to_string(), "A\\zoo.exe".to_string(), "b\\zed.exe".to_string(), "c\\zeta.exe".to_string()]
    );
    assert_eq!(
        idx.search_query("ze", 10, &rank),
        vec!["b\\zed.exe".to_string(), "c\\zeta.exe".to_string()]
    );
}

#[test]
fn ties_at_the_cutoff_keep_the_first_path() {
    let idx = build(vec![file("z\\doc.txt"), file("m\\doc.txt"), file("a\\doc.txt")], &[]);
    let rank = vec![1u32, 1, 1];
    assert_eq!(idx.search_prefix("doc", 1, &rank), vec!["a\\doc.txt".to_string()]);
    assert_eq!(idx.search_prefix("doc", 2, &rank), vec!["a\\doc.txt".to_string(), "m\\doc.txt".to_string()]);
    assert_eq!(idx.try_search_prefix("doc", 0, &rank), None);
    assert_eq!(idx.try_search_query("nothing", 0, &rank), Some(vec![]));
}

#[test]
fn application_directories() {
    let idx = build(
        vec![
            file("C:\\Users\\me\\AppData\\Local\\Programs\\Code\\code.exe"),
            file("C:\\Shared\\Common Files\\tool.bat"),
            file("D:\\Portable\\App\\run.exe"),
            file("C:\\Users\\me\\AppData\\Roaming\\Zoom\\zoom.exe"),
            file("C:\\Users\\me\\AppData\\Roaming\\Zoom\\notes.txt"),
            file("C:\\Users\\me\\Documents\\report.pdf"),
            file("C:\\Apps\\tool.exe"),
        ],
        &[],
    );
    assert_eq!(idx.count(), 7);
    let flags: Vec<bool> = (0..idx.count()).map(|i| idx.is_app_entry(i)).collect();
    assert_eq!(flags, vec![true, true, true, true, false, false, false]);
}

#[test]
fn builder_filters_and_stops() {
    let ex = vec!["*\\cache\\*".to_string(), "[".to_string()];
    let mut b = IndexBuilder::new(&ex);
    assert!(!b.offer(file("C:\\Program Files\\App\\app.exe")));
    assert!(!b.offer(file("C:\\cache\\junk.exe")));
    assert!(!b.offer(file("C:\\docs\\readme.md")));
    assert!(!b.offer(dir("C:\\docs")));
    assert_eq!(b.scanned(), 2);
    let idx = b.finish();
    assert_eq!(idx.count(), 1);
    assert!(idx.is_app_entry(0));
    let mut full = IndexBuilder::new(&vec![]);
    let mut stopped_at = 0;
    for i in 0..(MAX_ENTRIES + 5) {
        if full.offer(file(&format!("f{}.txt", i))) {
            stopped_at = i;
            break;
        }
    }
    assert_eq!(stopped_at, MAX_ENTRIES - 1);
    assert_eq!(full.finish().count(), MAX_ENTRIES);
}

#[test]
fn weather_conditions() {
    assert_eq!(WeatherCondition::from_wwo_code(113), WeatherCondition::Clear);
    assert_eq!(WeatherCondition::from_wwo_code(260), WeatherCondition::Fog);
    assert_eq!(WeatherCondition::from_wwo_code(359), WeatherCondition::HeavyRain);
    assert_eq!(WeatherCondition::from_wwo_code(395), WeatherCondition::Thunderstorm);
    assert_eq!(WeatherCondition::from_wwo_code(377), WeatherCondition::Snow);
    assert_eq!(WeatherCondition::from_wwo_code(1), WeatherCondition::Unknown);
    assert_eq!(WeatherCondition::Clear.icon(), "☀");
    assert_eq!(WeatherCondition::Windy.icon(), "☁");
    assert_eq!(WeatherCondition::HeavyRain.icon(), "☂");
    assert_eq!(WeatherCondition::Unknown.icon(), "");
}

#[test]
fn wttr_addresses() {
    assert_eq!(location_path("AUTO"), "");
    assert_eq!(location_path(""), "");
    assert_eq!(location_path("New York"), "New+York");
    assert_eq!(api_url("auto"), "https://wttr.in/?format=j1");
    assert_eq!(api_url("São Paulo"), "https://wttr.in/São+Paulo?format=j1");
    assert_eq!(forecast_page_url("London"), "https://wttr.in/London");
    assert!(eq_ignore_ascii_case("AuTo", "auto"));
    assert!(!eq_ignore_ascii_case("autos", "auto"));
}

#[test]
fn fetch_failures() {
    assert_eq!(failure("Unknown location: \"x\"".to_string()), FetchStatus::LocationNotFound);
    assert_eq!(failure("404 not found".to_string()), FetchStatus::LocationNotFound);
    assert_eq!(failure("HTTP error: timeout".to_string()), FetchStatus::Error("HTTP error: timeout".to_string()));
    assert_eq!(FetchStatus::Fetching.text(), "...");
    assert_eq!(FetchStatus::LocationNotFound.text(), "Set location");
    assert_eq!(FetchStatus::Idle.text(), "");
    assert_eq!(FetchStatus::Error("boom".to_string()).tooltip(), "Error: boom\nClick to retry");
}

fn fetch_url(a: WeatherAction) -> Option<String> {
    match a {
        WeatherAction::Fetch(u) => Some(u),
        WeatherAction::Wait => None,
    }
}

#[test]
fn fetcher_cycle() {
    let (mut f, url) = WeatherFetcher::new();
    assert_eq!(url, "https://wttr.in/?format=j1");
    assert_eq!(f.fetch_status(), FetchStatus::Fetching);
    // a running fetch is not started twice
    assert_eq!(fetch_url(f.tick(0)), None);
    f.fetch_done(Ok(()));
    assert!(f.has_data());
    assert_eq!(f.fetch_status(), FetchStatus::Success);
    assert_eq!(fetch_url(f.tick(100)), Some("https://wttr.in/?format=j1".to_string()));
    f.fetch_done(Err("Unknown location".to_string()));
    assert_eq!(f.fetch_status(), FetchStatus::LocationNotFound);
    assert_eq!(fetch_url(f.tick(100 + 29 * 60)), None);
    assert_eq!(fetch_url(f.tick(100 + 30 * 60)), Some("https://wttr.in/?format=j1".to_string()));
    f.fetch_done(Ok(()));
    assert_eq!(fetch_url(f.set_location("  Tokyo ", 5000)), Some("https://wttr.in/Tokyo?format=j1".to_string()));
    assert!(!f.has_data());
    assert_eq!(f.location(), "Tokyo");
    f.fetch_done(Ok(()));
    assert_eq!(fetch_url(f.set_location("Tokyo", 6000)), None);
    assert_eq!(fetch_url(f.set_enabled(false, 7000)), None);
    assert!(!f.is_enabled());
    assert_eq!(fetch_url(f.set_enabled(true, 7000)), None);
    assert_eq!(fetch_url(f.refresh(8000)), Some("https://wttr.in/Tokyo?format=j1".to_string()));
}

fn s(t: &str) -> Json {
    Json::Str(t.to_string())
}

fn obj(members: Vec<(&str, Json)>) -> Json {
    Json::Object(members.into_iter().map(|(k, v)| (k.to_string(), v)).collect())
}

fn arr(items: Vec<Json>) -> Json {
    Json::Array(items)
}

fn value(t: &str) -> Json {
    arr(vec![obj(vec![("value", s(t))])])
}

#[test]
fn wttr_report() {
    let day = |date: &str, max: &str, min: &str, code: &str| {
        obj(vec![
            ("date", s(date)),
            ("maxtempC", s(max)),
            ("mintempC", s(min)),
            ("hourly", arr(vec![obj(vec![("weatherCode", s(code)), ("weatherDesc", value("Sunny"))])])),
        ])
    };
    let doc = obj(vec![
        (
            "current_condition",
            arr(vec![obj(vec![
                ("temp_C", s("12")),
                ("humidity", s("81")),
                ("weatherCode", s("116")),
                ("weatherDesc", value("Partly cloudy")),
                ("windspeedKmph", s("9")),
                ("winddir16Point", s("NW")),
            ])]),
        ),
        ("nearest_area", arr(vec![obj(vec![("areaName", value("Oslo")), ("country", value("Norway"))])])),
        (
            "weather",
            arr(vec![
                day("2024-05-01", "15", "7", "113"),
                day("2024-05-02", "16", "8", "176"),
                day("2024-05-03", "x", "8", "bad"),
                day("2024-05-04", "16", "8", "113"),
                day("2024-05-05", "16", "8", "113"),
                day("2024-05-06", "16", "8", "113"),
            ]),
        ),
    ]);
    let r = parse_wttr_response(&doc).unwrap();
    assert_eq!(r.temp_c.as_deref(), Some("12"));
    assert_eq!(r.feels_like_c, None);
    assert_eq!(r.humidity, 81);
    assert_eq!(r.condition, WeatherCondition::PartlyCloudy);
    assert_eq!(r.description, "Partly cloudy");
    assert_eq!(r.location, "Oslo, Norway");
    assert_eq!(r.high_c.as_deref(), Some("15"));
    assert_eq!(r.low_c.as_deref(), Some("7"));
    assert_eq!(r.wind_speed.as_deref(), Some("9"));
    assert_eq!(r.wind_dir, "NW");
    assert_eq!(r.forecast.len(), 5);
    assert_eq!(r.forecast[1].condition, WeatherCondition::Rain);
    assert_eq!(r.forecast[2].condition, WeatherCondition::Unknown);
    assert_eq!(r.forecast[2].max_c.as_deref(), Some("x"));
    assert_eq!(r.forecast[0].description, "Sunny");
    assert_eq!(parse_wttr_response(&obj(vec![("error", Json::Null)])).err(), Some(ReportError::UnknownLocation));
    assert_eq!(parse_wttr_response(&obj(vec![])).err(), Some(ReportError::MissingCurrentCondition));
    assert_eq!(
        parse_wttr_response(&obj(vec![("current_condition", arr(vec![obj(vec![])]))])).err(),
        Some(ReportError::MissingNearestArea)
    );
    let bare = obj(vec![
        ("current_condition", arr(vec![obj(vec![])])),
        ("nearest_area", arr(vec![obj(vec![])])),
    ]);
    let r = parse_wttr_response(&bare).unwrap();
    assert_eq!(r.location, "Unknown");
    assert_eq!(r.description, "Unknown");
    assert_eq!(r.humidity, 0);
    assert_eq!(r.condition, WeatherCondition::Unknown);
    assert!(r.forecast.is_empty());
    assert_eq!(ReportError::MissingNearestArea.message(), "Missing nearest_area");
}

#[test]
fn forecast_labels() {
    let today = LocalTime { year: 2024, month: 2, day: 28, hour: 10, minute: 0, second: 0 };
    assert_eq!(label_for_date(Some((2024, 2, 28)), "2024-02-28", &today), "Today");
    assert_eq!(label_for_date(Some((2024, 2, 29)), "2024-02-29", &today), "Tomorrow");
    assert_eq!(label_for_date(Some((2024, 2, 27)), "2024-02-27", &today), "Yesterday");
    assert_eq!(label_for_date(Some((2024, 3, 1)), "2024-03-01", &today), "Friday");
    assert_eq!(label_for_date(Some((2024, 3, 5)), "2024-03-05", &today), "Tuesday");
    assert_eq!(label_for_date(Some((2024, 3, 6)), "2024-03-06", &today), "2024-03-06");
    assert_eq!(label_for_date(Some((2023, 2, 28)), "2023-02-28", &today), "2023-02-28");
    assert_eq!(label_for_date(None, "soon", &today), "soon");
    assert_eq!(relative_date_label("not a date"), "not a date");
    assert!(!relative_date_label("2024-01-01").is_empty());
}
