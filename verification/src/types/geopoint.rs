//! A point on the globe.

use crate::error::DecodeError;
use crate::message::{Response, ResponseModel};
use crate::types::number::{first_three, three_numbers, Number, NumberModel};
use crate::value::{ValueModel, WireValue};
use vstd::prelude::*;

verus! {

/// A latitude, a longitude and an altitude.
#[derive(Debug, Clone, Copy, PartialEq, Eq)]
pub struct GeoPoint<F> {
    pub latitude: F,
    pub longitude: F,
    pub altitude: F,
}

impl<F> GeoPoint<F> {
    /// The point with the given coordinates.
    pub fn new(latitude: F, longitude: F, altitude: F) -> (out: Self)
        ensures
            out == (GeoPoint { latitude, longitude, altitude }),
    {
        GeoPoint { latitude, longitude, altitude }
    }
}

impl View for GeoPoint<Number> {
    type V = GeoPoint<NumberModel>;

    open spec fn view(&self) -> GeoPoint<NumberModel> {
        GeoPoint {
            latitude: self.latitude@,
            longitude: self.longitude@,
            altitude: self.altitude@,
        }
    }
}

/// The point that a value stands for: the first three of the numbers that it
/// lists, as latitude, longitude and altitude.
pub open spec fn geopoint_of(value: ValueModel) -> Option<GeoPoint<NumberModel>> {
    match three_numbers(value) {
        Some((latitude, longitude, altitude)) => Some(GeoPoint { latitude, longitude, altitude }),
        None => None,
    }
}

/// The point that a response carries: its result is a point. A response with
/// an error carries none.
pub open spec fn geopoint_of_response(response: ResponseModel) -> Option<GeoPoint<NumberModel>> {
    match response.result {
        Ok(value) => geopoint_of(value),
        Err(_) => None,
    }
}

impl GeoPoint<Number> {
    /// Reads a point off a value.
    pub fn from_value(msgpack: &WireValue) -> (out: Result<Self, DecodeError>)
        ensures
            match out {
                Ok(point) => geopoint_of(msgpack@) == Some(point@),
                Err(error) => geopoint_of(msgpack@).is_none() && error
                    == DecodeError::UnexpectedShape,
            },
    {
        match first_three(msgpack) {
            Some((latitude, longitude, altitude)) => Ok(GeoPoint { latitude, longitude, altitude }),
            None => Err(DecodeError::UnexpectedShape),
        }
    }

    /// Reads a point off a response.
    pub fn from_response(msgpack: &Response) -> (out: Result<Self, DecodeError>)
        ensures
            match out {
                Ok(point) => geopoint_of_response(msgpack@) == Some(point@),
                Err(error) => geopoint_of_response(msgpack@).is_none() && error
                    == DecodeError::UnexpectedShape,
            },
    {
        match &msgpack.result {
            Ok(res) => GeoPoint::from_value(res),
            Err(_) => Err(DecodeError::UnexpectedShape),
        }
    }
}

} // verus!
