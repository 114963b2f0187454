use vstd::prelude::*;
use crate::forecast::{Conditions, ConditionsView, conditions_of};
use crate::json::json_of;
use crate::location::{Place, PlaceView, is_success, place_of};

verus! {

/// How a number is shown in the report: a whole value without its fraction
/// (`72.0` as `72`), any other as it is written.
pub open spec fn shown_of(t: Seq<char>) -> Seq<char> {
    if t.len() >= 2 && t[t.len() - 2] == '.' && t[t.len() - 1] == '0' {
        t.take(t.len() - 2)
    } else {
        t
    }
}

/// A number as the report shows it.
pub fn shown(t: &str) -> (r: String)
    ensures
        r@ == shown_of(t@),
{
    let n = t.unicode_len();
    if n >= 2 && t.get_char(n - 2) == '.' && t.get_char(n - 1) == '0' {
        let head = t.substring_char(0, n - 2);
        String::from_str(head)
    } else {
        String::from_str(t)
    }
}

/// The report for a place and the conditions there.
pub open spec fn report_of(p: PlaceView, c: ConditionsView) -> Seq<char> {
    "Fetching weather for "@ + p.city + ", "@ + p.state + "...\n\n"@
        + "It is currently "@ + shown_of(c.temperature) + "°F with a high of "@
        + shown_of(c.high) + "°F.\n"@
        + "Cloud cover is "@ + shown_of(c.cloud_cover) + "%. You can expect "@
        + shown_of(c.precipitation) + "\" of rain.\n"@
        + "Winds are gusting to "@ + shown_of(c.wind_gusts) + "mph.\n"@
}

/// The report for a place and the conditions there, to be printed as a
/// whole once both services have answered.
pub fn weather_report(place: &Place, conditions: &Conditions) -> (r: String)
    ensures
        r@ == report_of(place@, conditions@),
{
    let mut out = String::from_str("Fetching weather for ");
    out.append(place.city.as_str());
    out.append(", ");
    out.append(place.state.as_str());
    out.append("...\n\n");
    out.append("It is currently ");
    out.append(shown(conditions.temperature.as_str()).as_str());
    out.append("°F with a high of ");
    out.append(shown(conditions.high.as_str()).as_str());
    out.append("°F.\n");
    out.append("Cloud cover is ");
    out.append(shown(conditions.cloud_cover.as_str()).as_str());
    out.append("%. You can expect ");
    out.append(shown(conditions.precipitation.as_str()).as_str());
    out.append("\" of rain.\n");
    out.append("Winds are gusting to ");
    out.append(shown(conditions.wind_gusts.as_str()).as_str());
    out.append("mph.\n");
    out
}

/// What a run prints, given the two services' answers (status and body):
/// the report where both answers are read, nothing otherwise.
pub open spec fn run_output(
    lookup_status: u16,
    lookup_body: Seq<char>,
    forecast_status: u16,
    forecast_body: Seq<char>,
) -> Option<Seq<char>> {
    if is_success(lookup_status) && is_success(forecast_status) && json_of(lookup_body) is Some
        && json_of(forecast_body) is Some && place_of(json_of(lookup_body)->0) is Ok
        && conditions_of(json_of(forecast_body)->0) is Ok {
        Some(
            report_of(
                place_of(json_of(lookup_body)->0)->Ok_0,
                conditions_of(json_of(forecast_body)->0)->Ok_0,
            ),
        )
    } else {
        None
    }
}

/// Two runs that get the same answers from the services print the same
/// thing: nothing is carried from one run to the next.
pub proof fn lemma_runs_agree(
    lookup_status: u16,
    lookup_body: Seq<char>,
    forecast_status: u16,
    forecast_body: Seq<char>,
    lookup_status2: u16,
    lookup_body2: Seq<char>,
    forecast_status2: u16,
    forecast_body2: Seq<char>,
)
    requires
        lookup_status == lookup_status2,
        lookup_body == lookup_body2,
        forecast_status == forecast_status2,
        forecast_body == forecast_body2,
    ensures
        run_output(lookup_status, lookup_body, forecast_status, forecast_body) == run_output(
            lookup_status2,
            lookup_body2,
            forecast_status2,
            forecast_body2,
        ),
{
}

} // verus!
