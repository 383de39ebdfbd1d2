//! Camera requests and the images they return.

use crate::error::DecodeError;
use crate::message::{Response, ResponseModel};
use crate::value::{models_of, pair_models_of, ValueModel, WireValue};
use vstd::prelude::*;

verus! {

/// The kind of picture that a camera is asked for.
#[derive(Debug, Clone, Copy, PartialEq, Eq, Structural)]
pub enum ImageType {
    Scene,
    DepthPlanar,
    DepthPerspective,
    DepthVis,
    DisparityNormalized,
    SurfaceNormals,
    Infrared,
    OpticalFlow,
    OpticalFlowVis,
}

impl ImageType {
    /// The number that stands for the kind on the wire.
    pub open spec fn code(self) -> int {
        match self {
            ImageType::Scene => 0,
            ImageType::DepthPlanar => 1,
            ImageType::DepthPerspective => 2,
            ImageType::DepthVis => 3,
            ImageType::DisparityNormalized => 4,
            ImageType::SurfaceNormals => 5,
            ImageType::Infrared => 6,
            ImageType::OpticalFlow => 7,
            ImageType::OpticalFlowVis => 8,
        }
    }

    /// The value that stands for the kind on the wire.
    pub fn as_msgpack(&self) -> (out: WireValue)
        ensures
            out@ == ValueModel::Integer(self.code()),
    {
        let val: i64 = match self {
            ImageType::Scene => 0,
            ImageType::DepthPlanar => 1,
            ImageType::DepthPerspective => 2,
            ImageType::DepthVis => 3,
            ImageType::DisparityNormalized => 4,
            ImageType::SurfaceNormals => 5,
            ImageType::Infrared => 6,
            ImageType::OpticalFlow => 7,
            ImageType::OpticalFlowVis => 8,
        };
        WireValue::from_i64(val)
    }
}

/// The bytes of a compressed PNG image.
#[derive(Debug, Clone)]
pub struct CompressedImage(pub Vec<u8>);

impl View for CompressedImage {
    type V = Seq<u8>;

    /// The bytes of the image.
    open spec fn view(&self) -> Seq<u8> {
        self.0@
    }
}

/// The low eight bits of every item of a sequence of values, if every one of
/// them is an integer that fits a `u64`.
pub open spec fn all_pixels(items: Seq<ValueModel>) -> Option<Seq<u8>> {
    if forall|i: int| 0 <= i < items.len() ==> (#[trigger] items[i]).as_u64().is_some() {
        Some(Seq::new(items.len(), |i: int| (items[i].as_u64().unwrap() % 256) as u8))
    } else {
        None
    }
}

impl CompressedImage {
    /// The image that a response carries: its result is an array of unsigned
    /// integers, whose low eight bits are the image's bytes in turn. A
    /// response with an error, or a result of any other shape, carries none.
    pub open spec fn of_response(response: ResponseModel) -> Result<Seq<u8>, DecodeError> {
        match response.result {
            Ok(ValueModel::Array(items)) => match all_pixels(items) {
                Some(pixels) => Ok(pixels),
                None => Err(DecodeError::UnexpectedShape),
            },
            _ => Err(DecodeError::UnexpectedShape),
        }
    }

    /// Reads the image off a response.
    pub fn from_response(msgpack: &Response) -> (out: Result<CompressedImage, DecodeError>)
        ensures
            match out {
                Ok(image) => CompressedImage::of_response(msgpack@) == Ok::<Seq<u8>, DecodeError>(
                    image@,
                ),
                Err(error) => CompressedImage::of_response(msgpack@) == Err::<
                    Seq<u8>,
                    DecodeError,
                >(error),
            },
    {
        match &msgpack.result {
            Ok(WireValue::Array(payload)) => {
                assert(msgpack@.result == Ok::<ValueModel, ValueModel>(
                    ValueModel::Array(models_of(payload@)),
                ));
                pixels_of(payload)
            },
            _ => Err(DecodeError::UnexpectedShape),
        }
    }
}

/// Reads an image off an array of integers.
fn pixels_of(payload: &Vec<WireValue>) -> (out: Result<CompressedImage, DecodeError>)
    ensures
        match out {
            Ok(image) => all_pixels(models_of(payload@)) == Some(image@),
            Err(error) => all_pixels(models_of(payload@)).is_none() && error
                == DecodeError::UnexpectedShape,
        },
{
    let ghost items = models_of(payload@);
    let mut pixels: Vec<u8> = Vec::new();
    let mut i: usize = 0;
    while i < payload.len()
        invariant
            i <= payload.len(),
            items == models_of(payload@),
            pixels@.len() == i,
            forall|j: int| 0 <= j < i ==> (#[trigger] items[j]).as_u64().is_some(),
            forall|j: int|
                0 <= j < i ==> (#[trigger] pixels@[j]) == (items[j].as_u64().unwrap() % 256) as u8,
        decreases payload.len() - i,
    {
        match payload[i].as_u64() {
            Some(p) => {
                pixels.push((p % 256) as u8);
            },
            None => {
                assert(items[i as int].as_u64().is_none());
                return Err(DecodeError::UnexpectedShape);
            },
        }
        i += 1;
    }
    assert(pixels@ =~= all_pixels(items).unwrap());
    Ok(CompressedImage(pixels))
}

/// One picture asked of one camera.
#[derive(Debug, Clone)]
pub struct ImageRequest {
    /// The camera's name; an id number such as `0` is a name too.
    pub camera_name: String,
    /// The kind of picture.
    pub image_type: ImageType,
    /// Whether pixels are wanted as floating-point numbers.
    pub pixels_as_float: bool,
    /// Whether the picture is to be compressed.
    pub compress: bool,
}

/// The mathematical content of an [`ImageRequest`].
pub struct ImageRequestModel {
    pub camera_name: Seq<char>,
    pub image_type: ImageType,
    pub pixels_as_float: bool,
    pub compress: bool,
}

impl View for ImageRequest {
    type V = ImageRequestModel;

    open spec fn view(&self) -> ImageRequestModel {
        ImageRequestModel {
            camera_name: self.camera_name@,
            image_type: self.image_type,
            pixels_as_float: self.pixels_as_float,
            compress: self.compress,
        }
    }
}

/// The value that stands for an image request on the wire: four named fields,
/// in this order.
pub open spec fn image_request_value(request: ImageRequestModel) -> ValueModel {
    ValueModel::Dict(
        seq![
            (ValueModel::String("camera_name"@), ValueModel::String(request.camera_name)),
            (ValueModel::String("image_type"@), ValueModel::Integer(request.image_type.code())),
            (ValueModel::String("pixels_as_float"@), ValueModel::Boolean(request.pixels_as_float)),
            (ValueModel::String("compress"@), ValueModel::Boolean(request.compress)),
        ],
    )
}

impl ImageRequest {
    /// The value that stands for the request on the wire.
    pub fn as_msgpack(&self) -> (out: WireValue)
        ensures
            out@ == image_request_value(self@),
    {
        let entries = vec![
            (WireValue::from_str("camera_name"), WireValue::String(self.camera_name.clone())),
            (WireValue::from_str("image_type"), self.image_type.as_msgpack()),
            (WireValue::from_str("pixels_as_float"), WireValue::Boolean(self.pixels_as_float)),
            (WireValue::from_str("compress"), WireValue::Boolean(self.compress)),
        ];
        assert(pair_models_of(entries@) =~= image_request_value(self@)->Dict_0);
        WireValue::Dict(entries)
    }
}

/// Several image requests that are sent as one.
#[derive(Debug, Clone)]
pub struct ImageRequests(pub Vec<ImageRequest>);

impl View for ImageRequests {
    type V = Seq<ImageRequestModel>;

    /// The requests, in order.
    open spec fn view(&self) -> Seq<ImageRequestModel> {
        Seq::new(self.0@.len(), |i: int| self.0@[i]@)
    }
}

/// The value that stands for several image requests on the wire: the array of
/// their values, in order.
pub open spec fn image_requests_value(requests: Seq<ImageRequestModel>) -> ValueModel {
    ValueModel::Array(Seq::new(requests.len(), |i: int| image_request_value(requests[i])))
}

impl ImageRequests {
    /// The value that stands for the requests on the wire.
    pub fn as_msgpack(&self) -> (out: WireValue)
        ensures
            out@ == image_requests_value(self@),
    {
        let mut images: Vec<WireValue> = Vec::new();
        let mut i: usize = 0;
        while i < self.0.len()
            invariant
                i <= self.0@.len(),
                images@.len() == i,
                forall|j: int|
                    0 <= j < i ==> (#[trigger] images@[j])@ == image_request_value(self.0@[j]@),
            decreases self.0@.len() - i,
        {
            images.push(self.0[i].as_msgpack());
            i += 1;
        }
        assert(models_of(images@) =~= Seq::new(
            self@.len(),
            |i: int| image_request_value(self@[i]),
        ));
        WireValue::Array(images)
    }
}

} // verus!
