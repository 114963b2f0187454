use vstd::prelude::*;
use crate::fields::{Field, key_of};
use crate::json::{Json, json_of, field_of, text_of, parse_json, field, text_field};

verus! {

/// Why a postal code could not be resolved to a place.
#[derive(Debug)]
pub enum LookupError {
    /// The request did not complete; the transport's description.
    Transport(String),
    /// The service answered with a status outside 200 to 299.
    Status(u16),
    /// The body is not a JSON document; the parser's description.
    InvalidJson(String),
    /// A field is absent or not of the expected kind.
    Missing(Field),
    /// The list of places is empty.
    NoPlaces,
    /// A coordinate is not a decimal number.
    InvalidCoordinate(Field),
}

/// The first place that the lookup service gives for a postal code.
#[derive(Debug)]
pub struct Place {
    pub city: String,
    pub state: String,
    pub latitude: String,
    pub longitude: String,
}

/// A place's fields as character sequences.
pub struct PlaceView {
    pub city: Seq<char>,
    pub state: Seq<char>,
    pub latitude: Seq<char>,
    pub longitude: Seq<char>,
}

impl View for Place {
    type V = PlaceView;

    open spec fn view(&self) -> PlaceView {
        PlaceView {
            city: self.city@,
            state: self.state@,
            latitude: self.latitude@,
            longitude: self.longitude@,
        }
    }
}

/// Whether an HTTP status code reports success.
pub open spec fn is_success(status: u16) -> bool {
    200 <= status && status <= 299
}

/// An ASCII decimal digit.
pub open spec fn is_digit(c: char) -> bool {
    '0' <= c && c <= '9'
}

/// The text after an optional leading minus sign.
pub open spec fn unsigned_part(s: Seq<char>) -> Seq<char> {
    if s.len() > 0 && s[0] == '-' {
        s.drop_first()
    } else {
        s
    }
}

/// A decimal number: an optional minus sign, digits, and at most one point
/// with digits on both sides of it.
pub open spec fn is_decimal_text(s: Seq<char>) -> bool {
    let b = unsigned_part(s);
    &&& b.len() > 0
    &&& b[0] != '.'
    &&& b[b.len() - 1] != '.'
    &&& forall|i: int| 0 <= i < b.len() ==> is_digit(#[trigger] b[i]) || b[i] == '.'
    &&& forall|i: int, j: int| 0 <= i < j < b.len() && #[trigger] b[i] == '.' ==> #[trigger] b[j] != '.'
}

/// The place that a record of the lookup response describes.
pub open spec fn place_record(rec: Json) -> Result<PlaceView, LookupError> {
    let city = text_of(field_of(rec, key_of(Field::PlaceName)));
    let state = text_of(field_of(rec, key_of(Field::StateAbbreviation)));
    let lat = text_of(field_of(rec, key_of(Field::Latitude)));
    let lon = text_of(field_of(rec, key_of(Field::Longitude)));
    if city is None {
        Err(LookupError::Missing(Field::PlaceName))
    } else if state is None {
        Err(LookupError::Missing(Field::StateAbbreviation))
    } else if lat is None {
        Err(LookupError::Missing(Field::Latitude))
    } else if lon is None {
        Err(LookupError::Missing(Field::Longitude))
    } else if !is_decimal_text(lat->0) {
        Err(LookupError::InvalidCoordinate(Field::Latitude))
    } else if !is_decimal_text(lon->0) {
        Err(LookupError::InvalidCoordinate(Field::Longitude))
    } else {
        Ok(PlaceView { city: city->0, state: state->0, latitude: lat->0, longitude: lon->0 })
    }
}

/// The place that a lookup document gives: its first record, the others
/// being ignored.
pub open spec fn place_of(doc: Json) -> Result<PlaceView, LookupError> {
    match field_of(doc, key_of(Field::Places)) {
        Some(Json::Array(items)) => if items@.len() == 0 {
            Err(LookupError::NoPlaces)
        } else {
            place_record(items@[0])
        },
        _ => Err(LookupError::Missing(Field::Places)),
    }
}

/// A lookup document whose list holds exactly one record, with a city, a
/// state and two decimal coordinates, resolves to that record's texts, each as
/// it is written.
pub proof fn lemma_single_record(
    doc: Json,
    rec: Json,
    city: Seq<char>,
    state: Seq<char>,
    latitude: Seq<char>,
    longitude: Seq<char>,
)
    requires
        field_of(doc, key_of(Field::Places)) matches Some(Json::Array(items)) && items@ == seq![rec],
        text_of(field_of(rec, key_of(Field::PlaceName))) == Some(city),
        text_of(field_of(rec, key_of(Field::StateAbbreviation))) == Some(state),
        text_of(field_of(rec, key_of(Field::Latitude))) == Some(latitude),
        text_of(field_of(rec, key_of(Field::Longitude))) == Some(longitude),
        is_decimal_text(latitude),
        is_decimal_text(longitude),
    ensures
        place_of(doc) == Ok::<PlaceView, LookupError>(
            PlaceView { city, state, latitude, longitude },
        ),
{
}

/// An empty list of places resolves to `NoPlaces`.
pub proof fn lemma_empty_places(doc: Json)
    requires
        field_of(doc, key_of(Field::Places)) matches Some(Json::Array(items)) && items@.len() == 0,
    ensures
        place_of(doc) == Err::<PlaceView, LookupError>(LookupError::NoPlaces),
{
}

/// A first record that lacks one of its four fields, or has it in another
/// kind than a string, resolves to an error and never to a place.
pub proof fn lemma_record_missing_field(doc: Json, f: Field)
    requires
        f == Field::PlaceName || f == Field::StateAbbreviation || f == Field::Latitude || f
            == Field::Longitude,
        field_of(doc, key_of(Field::Places)) matches Some(Json::Array(items)) && items@.len() > 0
            && text_of(field_of(items@[0], key_of(f))) is None,
    ensures
        place_of(doc) is Err,
{
}

/// Whether `s` is a decimal number in the sense of `is_decimal_text`.
pub fn is_decimal(s: &str) -> (r: bool)
    ensures
        r == is_decimal_text(s@),
{
    let n = s.unicode_len();
    let start: usize = if n > 0 && s.get_char(0) == '-' { 1 } else { 0 };
    let ghost b = unsigned_part(s@);
    assert(b =~= s@.skip(start as int));
    if start >= n {
        return false;
    }
    let mut seen_dot = false;
    let ghost mut dot: int = 0;
    let mut i: usize = start;
    while i < n
        invariant
            start <= i <= n,
            n == s@.len(),
            start < n,
            b == unsigned_part(s@),
            b =~= s@.skip(start as int),
            forall|k: int| 0 <= k < i - start ==> is_digit(#[trigger] b[k]) || b[k] == '.',
            seen_dot ==> 0 <= dot < i - start && b[dot] == '.',
            forall|k: int| 0 <= k < i - start && #[trigger] b[k] == '.' ==> seen_dot && k == dot,
        decreases n - i,
    {
        let c = s.get_char(i);
        assert(c == b[i - start]);
        if c == '.' {
            if seen_dot {
                assert(b[dot] == '.' && b[i - start] == '.');
                return false;
            }
            seen_dot = true;
            proof {
                dot = i - start;
            }
        } else if !('0' <= c && c <= '9') {
            assert(!(is_digit(b[i - start]) || b[i - start] == '.'));
            return false;
        }
        i = i + 1;
    }
    s.get_char(start) != '.' && s.get_char(n - 1) != '.'
}

/// The address of the lookup service's record for a postal code.
pub open spec fn lookup_url_of(zip: Seq<char>) -> Seq<char> {
    "https://api.zippopotam.us/us/"@ + zip
}

/// The address to request the places of a postal code from.
pub fn lookup_url(zip: &str) -> (r: String)
    ensures
        r@ == lookup_url_of(zip@),
{
    let mut url = String::from_str("https://api.zippopotam.us/us/");
    url.append(zip);
    url
}

/// Resolves the lookup service's answer, its status and body, to a place.
///
/// A status outside 200 to 299 is an error that carries it; otherwise the
/// body must be a JSON document whose first place has a city, a state and
/// two decimal coordinates, which are returned as they are written.
pub fn resolve_location(status: u16, body: &str) -> (r: Result<Place, LookupError>)
    ensures
        !is_success(status) ==> r == Err::<Place, LookupError>(LookupError::Status(status)),
        is_success(status) ==> match json_of(body@) {
            None => r matches Err(LookupError::InvalidJson(_)),
            Some(doc) => match place_of(doc) {
                Ok(v) => r matches Ok(p) && p@ == v,
                Err(e) => r == Err::<Place, LookupError>(e),
            },
        },
{
    if !(200 <= status && status <= 299) {
        return Err(LookupError::Status(status));
    }
    let doc = match parse_json(body) {
        Ok(doc) => doc,
        Err(msg) => return Err(LookupError::InvalidJson(msg)),
    };
    match field(&doc, Field::Places.key()) {
        Some(Json::Array(items)) => {
            if items.len() == 0 {
                return Err(LookupError::NoPlaces);
            }
            read_place(&items[0])
        },
        _ => Err(LookupError::Missing(Field::Places)),
    }
}

/// Reads one record of the lookup response.
fn read_place(rec: &Json) -> (r: Result<Place, LookupError>)
    ensures
        match place_record(*rec) {
            Ok(v) => r matches Ok(p) && p@ == v,
            Err(e) => r == Err::<Place, LookupError>(e),
        },
{
    let city = match text_field(rec, Field::PlaceName.key()) {
        Some(s) => s,
        None => return Err(LookupError::Missing(Field::PlaceName)),
    };
    let state = match text_field(rec, Field::StateAbbreviation.key()) {
        Some(s) => s,
        None => return Err(LookupError::Missing(Field::StateAbbreviation)),
    };
    let latitude = match text_field(rec, Field::Latitude.key()) {
        Some(s) => s,
        None => return Err(LookupError::Missing(Field::Latitude)),
    };
    let longitude = match text_field(rec, Field::Longitude.key()) {
        Some(s) => s,
        None => return Err(LookupError::Missing(Field::Longitude)),
    };
    if !is_decimal(latitude.as_str()) {
        return Err(LookupError::InvalidCoordinate(Field::Latitude));
    }
    if !is_decimal(longitude.as_str()) {
        return Err(LookupError::InvalidCoordinate(Field::Longitude));
    }
    Ok(Place { city, state, latitude, longitude })
}

} // verus!
