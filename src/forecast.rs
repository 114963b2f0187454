use vstd::prelude::*;
use crate::fields::{Field, key_of};
use crate::json::{Json, json_of, field_of, number_of, parse_json, field, number_field};
use crate::location::{Place, is_success};

verus! {

/// Why the forecast for a place could not be read.
#[derive(Debug)]
pub enum WeatherError {
    /// The request did not complete; the transport's description.
    Transport(String),
    /// The service answered with a status outside 200 to 299.
    Status(u16),
    /// The body is not a JSON document; the parser's description.
    InvalidJson(String),
    /// A field is absent or not of the expected kind.
    Missing(Field),
    /// The list of daily maximum temperatures is empty.
    NoDailyMax,
}

/// The current conditions at a place and the day's high, each number as the
/// service wrote it.
#[derive(Debug)]
pub struct Conditions {
    /// Degrees Fahrenheit.
    pub temperature: String,
    /// Inches.
    pub precipitation: String,
    /// Percent.
    pub cloud_cover: String,
    /// Miles per hour.
    pub wind_gusts: String,
    /// The day's maximum temperature, degrees Fahrenheit.
    pub high: String,
}

/// The fields of `Conditions` as character sequences.
pub struct ConditionsView {
    pub temperature: Seq<char>,
    pub precipitation: Seq<char>,
    pub cloud_cover: Seq<char>,
    pub wind_gusts: Seq<char>,
    pub high: Seq<char>,
}

impl View for Conditions {
    type V = ConditionsView;

    open spec fn view(&self) -> ConditionsView {
        ConditionsView {
            temperature: self.temperature@,
            precipitation: self.precipitation@,
            cloud_cover: self.cloud_cover@,
            wind_gusts: self.wind_gusts@,
            high: self.high@,
        }
    }
}

/// The first of the day's maximum temperatures in the `daily` block.
pub open spec fn daily_high_of(daily: Json) -> Result<Seq<char>, WeatherError> {
    match field_of(daily, key_of(Field::TemperatureMax)) {
        Some(Json::Array(items)) => if items@.len() == 0 {
            Err(WeatherError::NoDailyMax)
        } else {
            match number_of(Some(items@[0])) {
                Some(t) => Ok(t),
                None => Err(WeatherError::Missing(Field::TemperatureMax)),
            }
        },
        _ => Err(WeatherError::Missing(Field::TemperatureMax)),
    }
}

/// The conditions that a forecast document gives.
pub open spec fn conditions_of(doc: Json) -> Result<ConditionsView, WeatherError> {
    let cur = field_of(doc, key_of(Field::Current));
    let daily = field_of(doc, key_of(Field::Daily));
    if cur is None {
        Err(WeatherError::Missing(Field::Current))
    } else {
        let c = cur->0;
        let temperature = number_of(field_of(c, key_of(Field::Temperature)));
        let precipitation = number_of(field_of(c, key_of(Field::Precipitation)));
        let cloud_cover = number_of(field_of(c, key_of(Field::CloudCover)));
        let wind_gusts = number_of(field_of(c, key_of(Field::WindGusts)));
        if temperature is None {
            Err(WeatherError::Missing(Field::Temperature))
        } else if precipitation is None {
            Err(WeatherError::Missing(Field::Precipitation))
        } else if cloud_cover is None {
            Err(WeatherError::Missing(Field::CloudCover))
        } else if wind_gusts is None {
            Err(WeatherError::Missing(Field::WindGusts))
        } else if daily is None {
            Err(WeatherError::Missing(Field::Daily))
        } else {
            match daily_high_of(daily->0) {
                Ok(high) => Ok(
                    ConditionsView {
                        temperature: temperature->0,
                        precipitation: precipitation->0,
                        cloud_cover: cloud_cover->0,
                        wind_gusts: wind_gusts->0,
                        high,
                    },
                ),
                Err(e) => Err(e),
            }
        }
    }
}

/// A forecast document without its `current` or its `daily` block gives an
/// error and never conditions.
pub proof fn lemma_block_missing(doc: Json, f: Field)
    requires
        f == Field::Current || f == Field::Daily,
        field_of(doc, key_of(f)) is None,
    ensures
        conditions_of(doc) is Err,
{
}

/// A `current` block that lacks one of its four numbers, or has it in another
/// kind, gives an error and never conditions.
pub proof fn lemma_current_missing_field(doc: Json, f: Field)
    requires
        f == Field::Temperature || f == Field::Precipitation || f == Field::CloudCover || f
            == Field::WindGusts,
        field_of(doc, key_of(Field::Current)) matches Some(c) && number_of(field_of(c, key_of(f)))
            is None,
    ensures
        conditions_of(doc) is Err,
{
}

/// A `daily` block whose list of maximum temperatures is empty gives
/// `NoDailyMax`, so that no high is ever made up.
pub proof fn lemma_empty_daily_max(daily: Json)
    requires
        field_of(daily, key_of(Field::TemperatureMax)) matches Some(Json::Array(items))
            && items@.len() == 0,
    ensures
        daily_high_of(daily) == Err::<Seq<char>, WeatherError>(WeatherError::NoDailyMax),
{
}

/// The address of the forecast for a latitude and a longitude: current
/// temperature, precipitation, cloud cover and wind gusts, and the day's high,
/// in Fahrenheit, miles per hour and inches.
pub open spec fn forecast_url_of(latitude: Seq<char>, longitude: Seq<char>) -> Seq<char> {
    "https://api.open-meteo.com/v1/forecast?latitude="@ + latitude + "&longitude="@ + longitude
        + "&daily=temperature_2m_max&forecast_days=1&current=temperature_2m,precipitation,cloud_cover,wind_gusts_10m&temperature_unit=fahrenheit&wind_speed_unit=mph&precipitation_unit=inch"@
}

/// The address to request the forecast for a place from.
pub fn forecast_url(place: &Place) -> (r: String)
    ensures
        r@ == forecast_url_of(place.latitude@, place.longitude@),
{
    let mut url = String::from_str("https://api.open-meteo.com/v1/forecast?latitude=");
    url.append(place.latitude.as_str());
    url.append("&longitude=");
    url.append(place.longitude.as_str());
    url.append(
        "&daily=temperature_2m_max&forecast_days=1&current=temperature_2m,precipitation,cloud_cover,wind_gusts_10m&temperature_unit=fahrenheit&wind_speed_unit=mph&precipitation_unit=inch",
    );
    url
}

/// Reads the forecast service's answer, its status and body.
///
/// A status outside 200 to 299 is an error that carries it; otherwise the
/// body must be a JSON document with the four current values and a non-empty
/// list of daily maximum temperatures, the first of which is the high.
pub fn read_forecast(status: u16, body: &str) -> (r: Result<Conditions, WeatherError>)
    ensures
        !is_success(status) ==> r == Err::<Conditions, WeatherError>(WeatherError::Status(status)),
        is_success(status) ==> match json_of(body@) {
            None => r matches Err(WeatherError::InvalidJson(_)),
            Some(doc) => match conditions_of(doc) {
                Ok(v) => r matches Ok(c) && c@ == v,
                Err(e) => r == Err::<Conditions, WeatherError>(e),
            },
        },
{
    if !(200 <= status && status <= 299) {
        return Err(WeatherError::Status(status));
    }
    let doc = match parse_json(body) {
        Ok(doc) => doc,
        Err(msg) => return Err(WeatherError::InvalidJson(msg)),
    };
    let cur = match field(&doc, Field::Current.key()) {
        Some(c) => c,
        None => return Err(WeatherError::Missing(Field::Current)),
    };
    let temperature = match number_field(cur, Field::Temperature.key()) {
        Some(s) => s,
        None => return Err(WeatherError::Missing(Field::Temperature)),
    };
    let precipitation = match number_field(cur, Field::Precipitation.key()) {
        Some(s) => s,
        None => return Err(WeatherError::Missing(Field::Precipitation)),
    };
    let cloud_cover = match number_field(cur, Field::CloudCover.key()) {
        Some(s) => s,
        None => return Err(WeatherError::Missing(Field::CloudCover)),
    };
    let wind_gusts = match number_field(cur, Field::WindGusts.key()) {
        Some(s) => s,
        None => return Err(WeatherError::Missing(Field::WindGusts)),
    };
    let daily = match field(&doc, Field::Daily.key()) {
        Some(d) => d,
        None => return Err(WeatherError::Missing(Field::Daily)),
    };
    let high = read_daily_high(daily)?;
    Ok(Conditions { temperature, precipitation, cloud_cover, wind_gusts, high })
}

/// Reads the day's high from the `daily` block: the first entry, by the
/// policy of taking the first result.
fn read_daily_high(daily: &Json) -> (r: Result<String, WeatherError>)
    ensures
        match daily_high_of(*daily) {
            Ok(t) => r matches Ok(s) && s@ == t,
            Err(e) => r == Err::<String, WeatherError>(e),
        },
{
    match field(daily, Field::TemperatureMax.key()) {
        Some(Json::Array(items)) => {
            if items.len() == 0 {
                return Err(WeatherError::NoDailyMax);
            }
            match &items[0] {
                Json::Number(t) => Ok(t.clone()),
                _ => Err(WeatherError::Missing(Field::TemperatureMax)),
            }
        },
        _ => Err(WeatherError::Missing(Field::TemperatureMax)),
    }
}

} // verus!
