use zipweather::fields::Field;
use zipweather::forecast::{forecast_url, read_forecast, WeatherError};
use zipweather::location::{is_decimal, lookup_url, resolve_location, LookupError, Place};
use zipweather::report::{shown, weather_report};

const BEVERLY_HILLS: &str = r#"{"post code": "90210", "country": "United States", "country abbreviation": "US", "places": [{"place name": "Beverly Hills", "longitude": "-118.4065", "state": "California", "state abbreviation": "CA", "latitude": "34.0901"}]}"#;

const FORECAST: &str = r#"{"latitude": 34.09, "longitude": -118.41, "current": {"time": "2024-06-01T12:00", "temperature_2m": 72.0, "precipitation": 0.0, "cloud_cover": 10.0, "wind_gusts_10m": 5.0}, "daily": {"time": ["2024-06-01"], "temperature_2m_max": [85.0]}}"#;

fn beverly_hills() -> Place {
    resolve_location(200, BEVERLY_HILLS).unwrap()
}

#[test]
fn lookup_url_puts_code_in_path() {
    assert_eq!(lookup_url("90210"), "https://api.zippopotam.us/us/90210");
}

#[test]
fn forecast_url_carries_coordinates_as_written() {
    let place = beverly_hills();
    assert_eq!(
        forecast_url(&place),
        "https://api.open-meteo.com/v1/forecast?latitude=34.0901&longitude=-118.4065&daily=temperature_2m_max&forecast_days=1&current=temperature_2m,precipitation,cloud_cover,wind_gusts_10m&temperature_unit=fahrenheit&wind_speed_unit=mph&precipitation_unit=inch"
    );
}

#[test]
fn single_record_is_returned_verbatim() {
    let place = beverly_hills();
    assert_eq!(place.city, "Beverly Hills");
    assert_eq!(place.state, "CA");
    assert_eq!(place.latitude, "34.0901");
    assert_eq!(place.longitude, "-118.4065");
}

#[test]
fn first_of_several_records_is_taken() {
    let body = r#"{"places": [
        {"place name": "First", "state abbreviation": "NY", "latitude": "40.7", "longitude": "-74.0"},
        {"place name": "Second", "state abbreviation": "NJ", "latitude": "40.8", "longitude": "-74.1"}]}"#;
    let place = resolve_location(200, body).unwrap();
    assert_eq!(place.city, "First");
    assert_eq!(place.state, "NY");
}

#[test]
fn empty_places_is_an_error() {
    let r = resolve_location(200, r#"{"places": []}"#);
    assert!(matches!(r, Err(LookupError::NoPlaces)));
}

#[test]
fn lookup_status_is_carried() {
    assert!(matches!(resolve_location(404, "{}"), Err(LookupError::Status(404))));
    assert!(matches!(resolve_location(500, BEVERLY_HILLS), Err(LookupError::Status(500))));
    assert!(matches!(resolve_location(199, BEVERLY_HILLS), Err(LookupError::Status(199))));
    assert!(resolve_location(299, BEVERLY_HILLS).is_ok());
}

#[test]
fn forecast_status_is_carried() {
    assert!(matches!(read_forecast(404, FORECAST), Err(WeatherError::Status(404))));
    assert!(matches!(read_forecast(503, "{}"), Err(WeatherError::Status(503))));
}

#[test]
fn lookup_missing_field_is_an_error() {
    let body = r#"{"places": [{"state abbreviation": "CA", "latitude": "34.0901", "longitude": "-118.4065"}]}"#;
    assert!(matches!(
        resolve_location(200, body),
        Err(LookupError::Missing(Field::PlaceName))
    ));
    assert!(matches!(
        resolve_location(200, r#"{"post code": "90210"}"#),
        Err(LookupError::Missing(Field::Places))
    ));
    let numeric = r#"{"places": [{"place name": "X", "state abbreviation": "CA", "latitude": 34.0, "longitude": "-118.4"}]}"#;
    assert!(matches!(
        resolve_location(200, numeric),
        Err(LookupError::Missing(Field::Latitude))
    ));
}

#[test]
fn lookup_invalid_json_is_an_error() {
    assert!(matches!(resolve_location(200, "not json"), Err(LookupError::InvalidJson(_))));
    assert!(matches!(read_forecast(200, "{\"current\":"), Err(WeatherError::InvalidJson(_))));
}

#[test]
fn lookup_bad_coordinate_is_an_error() {
    let body = r#"{"places": [{"place name": "X", "state abbreviation": "CA", "latitude": "north", "longitude": "-118.4"}]}"#;
    assert!(matches!(
        resolve_location(200, body),
        Err(LookupError::InvalidCoordinate(Field::Latitude))
    ));
    let body = r#"{"places": [{"place name": "X", "state abbreviation": "CA", "latitude": "34.1", "longitude": "1.2.3"}]}"#;
    assert!(matches!(
        resolve_location(200, body),
        Err(LookupError::InvalidCoordinate(Field::Longitude))
    ));
}

#[test]
fn forecast_missing_field_is_an_error() {
    let body = r#"{"current": {"temperature_2m": 72.0, "precipitation": 0.0, "wind_gusts_10m": 5.0}, "daily": {"temperature_2m_max": [85.0]}}"#;
    assert!(matches!(
        read_forecast(200, body),
        Err(WeatherError::Missing(Field::CloudCover))
    ));
    let body = r#"{"daily": {"temperature_2m_max": [85.0]}}"#;
    assert!(matches!(read_forecast(200, body), Err(WeatherError::Missing(Field::Current))));
    let body = r#"{"current": {"temperature_2m": 72.0, "precipitation": 0.0, "cloud_cover": 10.0, "wind_gusts_10m": 5.0}}"#;
    assert!(matches!(read_forecast(200, body), Err(WeatherError::Missing(Field::Daily))));
}

#[test]
fn empty_daily_max_is_an_error() {
    let body = r#"{"current": {"temperature_2m": 72.0, "precipitation": 0.0, "cloud_cover": 10.0, "wind_gusts_10m": 5.0}, "daily": {"temperature_2m_max": []}}"#;
    assert!(matches!(read_forecast(200, body), Err(WeatherError::NoDailyMax)));
}

#[test]
fn daily_high_is_first_maximum() {
    let c = read_forecast(200, FORECAST).unwrap();
    assert_eq!(shown(&c.high), "85");
}

#[test]
fn round_trip_report() {
    let place = beverly_hills();
    let c = read_forecast(200, FORECAST).unwrap();
    assert_eq!(c.temperature, "72.0");
    assert_eq!(
        weather_report(&place, &c),
        "Fetching weather for Beverly Hills, CA...\n\n\
         It is currently 72°F with a high of 85°F.\n\
         Cloud cover is 10%. You can expect 0\" of rain.\n\
         Winds are gusting to 5mph.\n"
    );
}

#[test]
fn integer_numbers_are_kept() {
    let body = r#"{"current": {"temperature_2m": 68, "precipitation": 0.25, "cloud_cover": 100, "wind_gusts_10m": 12.5}, "daily": {"temperature_2m_max": [70.4, 71.0]}}"#;
    let c = read_forecast(200, body).unwrap();
    assert_eq!(c.temperature, "68");
    assert_eq!(c.precipitation, "0.25");
    assert_eq!(c.cloud_cover, "100");
    assert_eq!(c.wind_gusts, "12.5");
    assert_eq!(c.high, "70.4");
}

#[test]
fn identical_runs_give_identical_reports() {
    let first = weather_report(&beverly_hills(), &read_forecast(200, FORECAST).unwrap());
    let second = weather_report(&beverly_hills(), &read_forecast(200, FORECAST).unwrap());
    assert_eq!(first, second);
}

#[test]
fn decimal_texts() {
    assert!(is_decimal("34.0901"));
    assert!(is_decimal("-118.4065"));
    assert!(is_decimal("7"));
    assert!(!is_decimal(""));
    assert!(!is_decimal("-"));
    assert!(!is_decimal(".5"));
    assert!(!is_decimal("5."));
    assert!(!is_decimal("1.2.3"));
    assert!(!is_decimal("1e5"));
}

#[test]
fn whole_numbers_lose_fraction() {
    assert_eq!(shown("72.0"), "72");
    assert_eq!(shown("-0.0"), "-0");
    assert_eq!(shown("0.5"), "0.5");
    assert_eq!(shown("10.05"), "10.05");
    assert_eq!(shown("5"), "5");
}

#[test]
fn field_keys() {
    assert_eq!(Field::PlaceName.key(), "place name");
    assert_eq!(Field::StateAbbreviation.key(), "state abbreviation");
    assert_eq!(Field::WindGusts.key(), "wind_gusts_10m");
    assert_eq!(Field::TemperatureMax.key(), "temperature_2m_max");
}
