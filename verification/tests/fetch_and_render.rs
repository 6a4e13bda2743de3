use weather_cli::fetch::{build_request_url, fetch_outcome, fetch_outcomes, FetchInput, FetchOutcome};
use weather_cli::render::{display_weather, failure_notice};
use weather_cli::report::{extract_weather_report, RawWeather, WeatherReport};
use weather_cli::resolver::{favorites_token, resolve};
use weather_cli::units::UnitSelector;

fn fetch_success(city: &str, body: String) -> WeatherReport {
    match fetch_outcome(city, &FetchInput::Response { status: 200, body }) {
        FetchOutcome::Success(rep) => rep,
        FetchOutcome::Failure { reason, .. } => panic!("fetch failed: {}", reason),
    }
}

fn london_body() -> String {
    let mut body = String::new();
    body.push_str("{\"name\":\"London\",\"sys\":{\"country\":\"GB\",\"sunrise\":0,\"sunset\":3661},");
    body.push_str("\"weather\":[{\"main\":\"Clouds\",\"description\":\"overcast clouds\"}],");
    body.push_str("\"main\":{\"temp\":293.15,\"feels_like\":295.0,\"humidity\":81,\"pressure\":1013,");
    body.push_str("\"temp_min\":290.15,\"temp_max\":296.15},");
    body.push_str("\"visibility\":10000,\"wind\":{\"speed\":4.1,\"deg\":80},\"clouds\":{\"all\":90}}");
    body
}

#[test]
fn request_url_carries_city_and_credential() {
    assert_eq!(
        build_request_url("London", "SECRETKEY"),
        "http://api.openweathermap.org/data/2.5/weather?q=London&appid=SECRETKEY"
    );
}

#[test]
fn resolving_tokens_splices_favorites_in_place() {
    let tokens: Vec<String> = vec!["Paris".to_string(), "favorites".to_string()];
    let favs: Vec<String> = vec!["Tokyo".to_string(), "Berlin".to_string()];
    assert_eq!(
        resolve(&tokens, &favs),
        vec!["Paris".to_string(), "Tokyo".to_string(), "Berlin".to_string()]
    );
}

#[test]
fn reserved_token_matches_without_regard_to_case() {
    assert!(favorites_token("favorites"));
    assert!(favorites_token("FAVORITES"));
    assert!(favorites_token("Favorites"));
    assert!(!favorites_token("favorite"));
    assert!(!favorites_token("favorites "));
    let tokens: Vec<String> = vec!["FaVoRiTeS".to_string()];
    let favs: Vec<String> = vec!["Oslo".to_string()];
    assert_eq!(resolve(&tokens, &favs), vec!["Oslo".to_string()]);
}

#[test]
fn resolving_keeps_duplicates_and_order() {
    let tokens: Vec<String> = vec!["Paris".to_string(), "Paris".to_string()];
    let favs: Vec<String> = Vec::new();
    assert_eq!(resolve(&tokens, &favs), vec!["Paris".to_string(), "Paris".to_string()]);
    let no_tokens: Vec<String> = Vec::new();
    assert!(resolve(&no_tokens, &favs).is_empty());
}

#[test]
fn one_failure_does_not_touch_the_next_fetch() {
    // Atlantis is not found; London still succeeds afterwards.
    let first = fetch_outcome(
        "Atlantis",
        &FetchInput::Response { status: 404, body: "{}".to_string() },
    );
    match first {
        FetchOutcome::Failure { city, reason } => {
            assert_eq!(city, "Atlantis");
            assert_eq!(reason, "Failed to fetch weather data for Atlantis: 404");
        },
        FetchOutcome::Success(_) => panic!("a 404 must not succeed"),
    }
    let second = fetch_outcome(
        "London",
        &FetchInput::Response { status: 200, body: london_body() },
    );
    match second {
        FetchOutcome::Success(rep) => {
            assert_eq!(rep.name, "London");
            assert_eq!(rep.temp, 29315);
        },
        FetchOutcome::Failure { .. } => panic!("the next city must still succeed"),
    }
}

#[test]
fn transport_errors_become_failures_verbatim() {
    let out = fetch_outcome(
        "Paris",
        &FetchInput::Transport { message: "connection refused".to_string() },
    );
    match out {
        FetchOutcome::Failure { city, reason } => {
            assert_eq!(city, "Paris");
            assert_eq!(reason, "connection refused");
        },
        FetchOutcome::Success(_) => panic!("no response must not succeed"),
    }
}

#[test]
fn unparseable_body_is_a_parse_failure() {
    let out = fetch_outcome(
        "London",
        &FetchInput::Response { status: 200, body: "not json at all".to_string() },
    );
    match out {
        FetchOutcome::Failure { city, reason } => {
            assert_eq!(city, "London");
            assert_eq!(reason, "Failed to parse weather data for London");
        },
        FetchOutcome::Success(_) => panic!("garbage must not parse"),
    }
}

#[test]
fn whole_batch_yields_one_outcome_per_city_in_order() {
    let items = vec![
        (
            "Atlantis".to_string(),
            FetchInput::Response { status: 404, body: "{}".to_string() },
        ),
        (
            "London".to_string(),
            FetchInput::Response { status: 200, body: london_body() },
        ),
    ];
    let outcomes = fetch_outcomes(&items);
    assert_eq!(outcomes.len(), 2);
    assert!(matches!(outcomes[0], FetchOutcome::Failure { .. }));
    match &outcomes[1] {
        FetchOutcome::Success(rep) => assert_eq!(rep.name, "London"),
        FetchOutcome::Failure { .. } => panic!("the second city must succeed"),
    }
}

#[test]
fn absent_raw_fields_default_to_unknown_and_zero() {
    let raw = RawWeather {
        name: None,
        country: None,
        main: None,
        description: None,
        temp: None,
        feels_like: None,
        humidity: None,
        sunrise: None,
        sunset: None,
        visibility: None,
        wind_speed: None,
        wind_deg: None,
        cloudiness: None,
        pressure: None,
        sea_level: None,
        grnd_level: None,
        temp_min: Some("290.15".to_string()),
        temp_max: Some("not a number".to_string()),
    };
    let rep = extract_weather_report(raw);
    assert_eq!(rep.name, "Unknown");
    assert_eq!(rep.description, "Unknown");
    assert_eq!(rep.temp, 0);
    assert_eq!(rep.humidity, 0);
    assert_eq!(rep.sea_level, 0);
    assert_eq!(rep.temp_min, 29015);
    // a malformed measurement also falls back to zero
    assert_eq!(rep.temp_max, 0);
}

#[test]
fn report_fields_are_extracted_and_converted() {
    let rep = fetch_success("London", london_body());
    assert_eq!(rep.name, "London");
    assert_eq!(rep.country, "GB");
    assert_eq!(rep.main, "Clouds");
    assert_eq!(rep.description, "overcast clouds");
    assert_eq!(rep.temp, 29315);
    assert_eq!(rep.feels_like, 29500);
    assert_eq!(rep.humidity, 81);
    assert_eq!(rep.pressure, 1013);
    assert_eq!(rep.wind_speed, 410);
    assert_eq!(rep.wind_deg, 80);
    assert_eq!(rep.visibility, 10000);
    assert_eq!(rep.cloudiness, 90);
    // absent optional fields default to zero
    assert_eq!(rep.sea_level, 0);
    assert_eq!(rep.grnd_level, 0);
}

#[test]
fn missing_optional_fields_render_as_zero() {
    let rep = fetch_success("London", london_body());
    let block = display_weather(&rep, UnitSelector::Celsius, true, 0);
    assert!(block.contains("  Sea Level: 0 hPa\n"));
    assert!(block.contains("  Ground Level: 0 hPa\n"));
}

#[test]
fn rendered_block_is_exact() {
    let rep = fetch_success("London", london_body());
    let block = display_weather(&rep, UnitSelector::Celsius, false, 0);
    let mut expected = String::new();
    expected.push_str("Weather in London, GB:\n");
    expected.push_str("  Condition: Clouds (overcast clouds)\n");
    expected.push_str("  Temperature: 20.00 °C\n");
    expected.push_str("  Feels like: 21.85 °C\n");
    expected.push_str("  Humidity: 81%\n");
    expected.push_str("  Sunrise: 00:00:00\n");
    expected.push_str("  Sunset: 01:01:01\n");
    assert_eq!(block, expected);
}

#[test]
fn detailed_block_adds_the_extra_lines() {
    let rep = fetch_success("London", london_body());
    let block = display_weather(&rep, UnitSelector::Fahrenheit, true, 0);
    assert!(block.contains("  Temperature: 68.00 °F\n"));
    assert!(block.contains("Detailed Weather Information:\n"));
    assert!(block.contains("  Visibility: 10000 meters\n"));
    assert!(block.contains("  Wind Speed: 4.1 m/s\n"));
    assert!(block.contains("  Wind Direction: 80 degrees\n"));
    assert!(block.contains("  Cloudiness: 90%\n"));
    assert!(block.contains("  Pressure: 1013 hPa\n"));
    assert!(block.contains("  Minimum Temperature: 62.60 °F\n"));
    assert!(block.contains("  Maximum Temperature: 73.40 °F\n"));
}

#[test]
fn failure_notice_names_city_and_reason() {
    assert_eq!(
        failure_notice("Atlantis", "Failed to fetch weather data for Atlantis: 404"),
        "Error fetching weather for Atlantis: Failed to fetch weather data for Atlantis: 404"
    );
}
