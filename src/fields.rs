use vstd::prelude::*;

verus! {

/// The members of the two services' responses that the library reads.
#[derive(Clone, Copy, Debug, PartialEq, Eq, Structural)]
pub enum Field {
    Places,
    PlaceName,
    StateAbbreviation,
    Latitude,
    Longitude,
    Current,
    Temperature,
    Precipitation,
    CloudCover,
    WindGusts,
    Daily,
    TemperatureMax,
}

/// The name of a field as it stands in the response.
pub open spec fn key_of(f: Field) -> Seq<char> {
    match f {
        Field::Places => "places"@,
        Field::PlaceName => "place name"@,
        Field::StateAbbreviation => "state abbreviation"@,
        Field::Latitude => "latitude"@,
        Field::Longitude => "longitude"@,
        Field::Current => "current"@,
        Field::Temperature => "temperature_2m"@,
        Field::Precipitation => "precipitation"@,
        Field::CloudCover => "cloud_cover"@,
        Field::WindGusts => "wind_gusts_10m"@,
        Field::Daily => "daily"@,
        Field::TemperatureMax => "temperature_2m_max"@,
    }
}

impl Field {
    /// The name of this field as it stands in the response.
    pub fn key(&self) -> (r: &'static str)
        ensures
            r@ == key_of(*self),
    {
        match self {
            Field::Places => "places",
            Field::PlaceName => "place name",
            Field::StateAbbreviation => "state abbreviation",
            Field::Latitude => "latitude",
            Field::Longitude => "longitude",
            Field::Current => "current",
            Field::Temperature => "temperature_2m",
            Field::Precipitation => "precipitation",
            Field::CloudCover => "cloud_cover",
            Field::WindGusts => "wind_gusts_10m",
            Field::Daily => "daily",
            Field::TemperatureMax => "temperature_2m_max",
        }
    }
}

} // verus!
