//! The segmentation engine: two network sessions, an encoder that turns an
//! image tensor into reusable embeddings and a decoder that turns a point
//! prompt into masks.
//!
//! The engine never looks at a tensor's numbers. It checks the dimensions of
//! what goes in, names the inputs and outputs of each run, and checks the
//! dimensions of what comes out. Masks come back at the network's own
//! resolution: mapping them onto the source image, with the size kept in
//! `EncodedImage::original_size`, is the caller's step.

use vstd::prelude::*;
use vstd::string::StringExecFns;
use crate::preprocess::{preprocess, ImageTensor, RgbImage};
use crate::preprocess::{normalized_planes, triangle_resized};
use crate::prompt::{coords_dims, has_mask_dims, labels_dims, mask_input_dims, max_points, ValidationError};
use crate::transform::NETWORK_SIDE;

verus! {

/// `ort::session::Session`: a loaded network. Nothing of it is read here.
#[verifier::external_type_specification]
#[verifier::external_body]
pub struct ExSession(ort::session::Session);

/// `ort::session::SessionOutputs`: what one run of a session gave, by name.
#[verifier::external_type_specification]
#[verifier::external_body]
pub struct ExSessionOutputs<'r>(ort::session::SessionOutputs<'r>);

/// `ort::Error`: why a call into the runtime failed.
#[verifier::external_type_specification]
#[verifier::external_body]
pub struct ExRunError(ort::Error);

/// A value that goes into or comes out of a network session, as the runtime
/// holds it: an `ort::value::DynValue`. Its numbers are not visible here, its
/// dimensions are.
#[verifier::external_body]
pub struct NetworkValue {
    pub inner: ort::value::DynValue,
}

/// The dimensions of a value that is a tensor; `None` for any other value.
pub uninterp spec fn tensor_dims(value: NetworkValue) -> Option<Seq<i64>>;

/// `Value::dtype` and `ValueType::tensor_shape`: the dimensions that the
/// runtime recorded for the value when it was made, if it is a tensor.
#[verifier::external_body]
fn dims_of(value: &NetworkValue) -> (r: Option<Vec<i64>>)
    ensures
        r matches Some(d) ==> tensor_dims(*value) == Some(d@),
        r is None ==> tensor_dims(*value) is None,
{
    value.inner.dtype().tensor_shape().map(|shape| shape.to_vec())
}

/// `Session::run` with named inputs. Whether it succeeds and what it returns
/// is the network's matter: nothing is claimed of the outputs.
#[verifier::external_body]
fn run_session<'s>(session: &'s mut ort::session::Session, inputs: Vec<(&str, &NetworkValue)>) -> (r: Result<
    ort::session::SessionOutputs<'s>,
    ort::Error,
>) {
    session.run(inputs.into_iter().map(|(name, value)| (name, &value.inner)).collect::<Vec<_>>())
}

/// `SessionOutputs::remove`: the output of that name, if the run produced one.
/// The outside function panics on an empty name.
#[verifier::external_body]
fn take_output(outputs: &mut ort::session::SessionOutputs<'_>, name: &str) -> (r: Option<NetworkValue>)
    requires
        name@.len() > 0,
{
    outputs.remove(name).map(|inner| NetworkValue { inner })
}

/// `Error::message`: the runtime's own words for a failure.
#[verifier::external_body]
fn failure_text(error: &ort::Error) -> (r: String) {
    error.message().to_string()
}

/// The outputs that the engine reads by name.
#[derive(Clone, Copy, Debug, PartialEq, Eq, Structural)]
pub enum OutputName {
    ImageEmbed,
    HighResFeats0,
    HighResFeats1,
    Masks,
}

/// Why the decoder's output cannot be read as a batch of masks.
#[derive(Clone, Copy, Debug, PartialEq, Eq, Structural)]
pub enum ShapeError {
    /// The output is not a tensor.
    NotATensor,
    /// It has fewer than four dimensions.
    TooFewDimensions,
    /// One of its first four dimensions is negative.
    NegativeDimension,
    /// It holds no mask channel.
    NoMaskChannel,
    /// It is larger than an array in memory can be.
    TooLarge,
    /// It holds more values than its first four dimensions account for.
    ExtraDimensions,
}

/// Why an engine call failed.
#[derive(Debug)]
pub enum EngineError {
    /// An input was refused before any network ran.
    Validation(ValidationError),
    /// The network run itself failed; the runtime's message is kept.
    Run(String),
    /// The network ran but did not produce an output that the engine needs.
    MissingOutput(OutputName),
    /// The decoder's output does not have the shape of a batch of masks.
    Shape(ShapeError),
}

/// Batch, mask channels, height and width of a batch of masks.
#[derive(Clone, Copy, Debug, PartialEq, Eq, Structural)]
pub struct MaskShape {
    pub batch: usize,
    pub channels: usize,
    pub height: usize,
    pub width: usize,
}

/// What one image became in the encoder: the embedding, the two
/// high-resolution feature maps, and height and width of the image itself.
pub struct EncodedImage {
    pub image_embed: NetworkValue,
    pub high_res_feats: Vec<NetworkValue>,
    pub original_size: (u32, u32),
}

impl EncodedImage {
    /// There are exactly two feature maps.
    pub open spec fn well_formed(&self) -> bool {
        self.high_res_feats@.len() == 2
    }
}

/// The four tensors of a prompt, made from `DecoderInputs`.
pub struct PromptTensors {
    pub point_coords: NetworkValue,
    pub point_labels: NetworkValue,
    pub mask_input: NetworkValue,
    pub has_mask_input: NetworkValue,
}

/// The decoder's masks with their checked shape.
pub struct MaskBatch {
    pub masks: NetworkValue,
    pub shape: MaskShape,
}

/// The dimensions of the encoder's input: one image, three channels, the
/// network's square.
pub open spec fn image_dims() -> Seq<i64> {
    seq![1i64, 3i64, 1024i64, 1024i64]
}

/// Why a set of prompt tensors is refused, if it is, by their dimensions: the
/// first of these that applies. Coordinates come as one batch of points with
/// x and y, labels as one batch with a label per point; there is at least one
/// point; the mask hint and its flag have their fixed dimensions.
pub open spec fn prompt_dims_fault(
    coords: Option<Seq<i64>>,
    labels: Option<Seq<i64>>,
    hint: Option<Seq<i64>>,
    flag: Option<Seq<i64>>,
) -> Option<ValidationError> {
    if !(coords matches Some(c) && c.len() == 3 && c[0] == 1 && c[1] >= 0 && c[2] == 2) {
        Some(ValidationError::TensorShape)
    } else if !(labels matches Some(l) && l.len() == 2 && l[0] == 1 && l[1] >= 0) {
        Some(ValidationError::TensorShape)
    } else if coords->0[1] != labels->0[1] {
        Some(ValidationError::CountMismatch)
    } else if coords->0[1] == 0 {
        Some(ValidationError::EmptyPrompt)
    } else if hint != Some(mask_input_dims()) || flag != Some(has_mask_dims()) {
        Some(ValidationError::TensorShape)
    } else {
        None
    }
}

/// Dimensions as the contracts read them.
pub open spec fn dims_view(dims: &Option<Vec<i64>>) -> Option<Seq<i64>> {
    match dims {
        Some(d) => Some(d@),
        None => None,
    }
}

/// Tensors with the dimensions that `DecoderInputs` gives for a prompt of at
/// least one point pass the check of the prompt tensors: what planning
/// accepts, prediction does not refuse.
pub proof fn law_planned_prompt_passes(count: int)
    requires
        1 <= count <= max_points(),
    ensures
        prompt_dims_fault(
            Some(coords_dims(count)),
            Some(labels_dims(count)),
            Some(mask_input_dims()),
            Some(has_mask_dims()),
        ) is None,
{
}

/// A dimension that may be zero counts as one where room is measured.
pub open spec fn room_of(dim: int) -> int {
    if dim == 0 {
        1
    } else {
        dim
    }
}

/// How the dimensions of the decoder's output read as a batch of masks. The
/// first four are batch, mask channels, height and width. They account for
/// every value of the tensor when each further dimension is 1, or when the
/// tensor holds no value at all.
pub open spec fn mask_shape_of(dims: Seq<i64>) -> Result<(int, int, int, int), ShapeError> {
    if dims.len() < 4 {
        Err(ShapeError::TooFewDimensions)
    } else if dims[0] < 0 || dims[1] < 0 || dims[2] < 0 || dims[3] < 0 {
        Err(ShapeError::NegativeDimension)
    } else if dims[1] == 0 {
        Err(ShapeError::NoMaskChannel)
    } else if room_of(dims[0] as int) * room_of(dims[1] as int) * room_of(dims[2] as int) * room_of(dims[3] as int)
        > isize::MAX as int {
        Err(ShapeError::TooLarge)
    } else if dims[0] * dims[1] * dims[2] * dims[3] > 0 && exists|i: int| 4 <= i < dims.len() && #[trigger] dims[i] != 1 {
        Err(ShapeError::ExtraDimensions)
    } else {
        Ok((dims[0] as int, dims[1] as int, dims[2] as int, dims[3] as int))
    }
}

impl MaskShape {
    /// Batch, mask channels, height and width as numbers.
    pub open spec fn extents(self) -> (int, int, int, int) {
        (self.batch as int, self.channels as int, self.height as int, self.width as int)
    }
}

impl OutputName {
    /// The name under which the network gives the output.
    pub open spec fn text(self) -> Seq<char> {
        match self {
            OutputName::ImageEmbed => "image_embed"@,
            OutputName::HighResFeats0 => "high_res_feats_0"@,
            OutputName::HighResFeats1 => "high_res_feats_1"@,
            OutputName::Masks => "masks"@,
        }
    }

    pub fn name(self) -> (r: &'static str)
        ensures
            r@ == self.text(),
            r@.len() > 0,
    {
        proof {
            reveal_strlit("image_embed");
            reveal_strlit("high_res_feats_0");
            reveal_strlit("high_res_feats_1");
            reveal_strlit("masks");
        }
        match self {
            OutputName::ImageEmbed => "image_embed",
            OutputName::HighResFeats0 => "high_res_feats_0",
            OutputName::HighResFeats1 => "high_res_feats_1",
            OutputName::Masks => "masks",
        }
    }
}

/// The file of the encoder beneath the model directory.
pub open spec fn encoder_file() -> Seq<char> {
    "/sam2_hiera_tiny_encoder.onnx"@
}

/// The file of the decoder beneath the model directory.
pub open spec fn decoder_file() -> Seq<char> {
    "/sam2_hiera_tiny_decoder.onnx"@
}

/// Where the two network files lie beneath a model directory: the encoder's,
/// then the decoder's. Both must load before the engine can be made.
pub fn model_paths(model_dir: &str) -> (r: (String, String))
    ensures
        r.0@ == model_dir@ + encoder_file(),
        r.1@ == model_dir@ + decoder_file(),
{
    let mut encoder: String = model_dir.to_owned();
    encoder.append("/sam2_hiera_tiny_encoder.onnx");
    let mut decoder: String = model_dir.to_owned();
    decoder.append("/sam2_hiera_tiny_decoder.onnx");
    (encoder, decoder)
}

/// The name of the encoder's one input.
pub open spec fn encoder_input_name() -> Seq<char> {
    "image"@
}

/// The names of the decoder's seven inputs, in the order in which the engine
/// hands them over: what the encoder gave, then the prompt.
pub open spec fn decoder_input_names() -> Seq<Seq<char>> {
    seq![
        "image_embed"@,
        "high_res_feats_0"@,
        "high_res_feats_1"@,
        "point_coords"@,
        "point_labels"@,
        "mask_input"@,
        "has_mask_input"@,
    ]
}

/// What the encoder is run on: the image tensor under its name.
pub fn encoder_inputs<'a>(tensor: &'a NetworkValue) -> (r: Vec<(&'static str, &'a NetworkValue)>)
    ensures
        r@.len() == 1,
        r@[0].0@ == encoder_input_name(),
        *r@[0].1 == *tensor,
{
    let mut inputs: Vec<(&'static str, &'a NetworkValue)> = Vec::new();
    inputs.push(("image", tensor));
    inputs
}

/// What the decoder is run on: the encoder's three outputs and the four
/// prompt tensors, each under its name.
pub fn decoder_inputs<'a>(encoded: &'a EncodedImage, prompt: &'a PromptTensors) -> (r: Vec<
    (&'static str, &'a NetworkValue),
>)
    requires
        encoded.well_formed(),
    ensures
        r@.len() == 7,
        forall|i: int| 0 <= i < 7 ==> (#[trigger] r@[i]).0@ == decoder_input_names()[i],
        *r@[0].1 == encoded.image_embed,
        *r@[1].1 == encoded.high_res_feats@[0],
        *r@[2].1 == encoded.high_res_feats@[1],
        *r@[3].1 == prompt.point_coords,
        *r@[4].1 == prompt.point_labels,
        *r@[5].1 == prompt.mask_input,
        *r@[6].1 == prompt.has_mask_input,
{
    let mut inputs: Vec<(&'static str, &'a NetworkValue)> = Vec::new();
    inputs.push((OutputName::ImageEmbed.name(), &encoded.image_embed));
    inputs.push((OutputName::HighResFeats0.name(), &encoded.high_res_feats[0]));
    inputs.push((OutputName::HighResFeats1.name(), &encoded.high_res_feats[1]));
    inputs.push(("point_coords", &prompt.point_coords));
    inputs.push(("point_labels", &prompt.point_labels));
    inputs.push(("mask_input", &prompt.mask_input));
    inputs.push(("has_mask_input", &prompt.has_mask_input));
    inputs
}

/// The two sessions of the network. Each is used by one call at a time.
pub struct Sam2Engine {
    pub encoder: ort::session::Session,
    pub decoder: ort::session::Session,
}

/// Packs what the encoder gave under its three names, with the size of the
/// image. An output that is missing means a network of another kind: the
/// first one missing is reported, and nothing is put in its place.
pub fn package_encoding(
    image_embed: Option<NetworkValue>,
    high_res_feats_0: Option<NetworkValue>,
    high_res_feats_1: Option<NetworkValue>,
    original_size: (u32, u32),
) -> (r: Result<EncodedImage, EngineError>)
    ensures
        image_embed is None ==> r matches Err(EngineError::MissingOutput(OutputName::ImageEmbed)),
        image_embed is Some && high_res_feats_0 is None ==> r matches Err(
            EngineError::MissingOutput(OutputName::HighResFeats0),
        ),
        image_embed is Some && high_res_feats_0 is Some && high_res_feats_1 is None ==> r matches Err(
            EngineError::MissingOutput(OutputName::HighResFeats1),
        ),
        image_embed is Some && high_res_feats_0 is Some && high_res_feats_1 is Some ==> (r matches Ok(encoded) && {
            &&& encoded.well_formed()
            &&& encoded.image_embed == image_embed->0
            &&& encoded.high_res_feats@ == seq![high_res_feats_0->0, high_res_feats_1->0]
            &&& encoded.original_size == original_size
        }),
{
    let embed: NetworkValue = match image_embed {
        Some(value) => value,
        None => {
            return Err(EngineError::MissingOutput(OutputName::ImageEmbed));
        },
    };
    let first: NetworkValue = match high_res_feats_0 {
        Some(value) => value,
        None => {
            return Err(EngineError::MissingOutput(OutputName::HighResFeats0));
        },
    };
    let second: NetworkValue = match high_res_feats_1 {
        Some(value) => value,
        None => {
            return Err(EngineError::MissingOutput(OutputName::HighResFeats1));
        },
    };
    let mut feats: Vec<NetworkValue> = Vec::new();
    feats.push(first);
    feats.push(second);
    Ok(EncodedImage { image_embed: embed, high_res_feats: feats, original_size })
}

/// Reads what the decoder gave under the name of the masks: present, a
/// tensor, and with the shape of a batch of masks.
pub fn package_masks(masks: Option<NetworkValue>) -> (r: Result<MaskBatch, EngineError>)
    ensures
        masks is None ==> r matches Err(EngineError::MissingOutput(OutputName::Masks)),
        masks matches Some(value) ==> match tensor_dims(value) {
            None => r matches Err(EngineError::Shape(ShapeError::NotATensor)),
            Some(dims) => match mask_shape_of(dims) {
                Err(e) => r matches Err(EngineError::Shape(found)) && found == e,
                Ok(extents) => r matches Ok(batch) && batch.masks == value && batch.shape.extents() == extents,
            },
        },
{
    let value: NetworkValue = match masks {
        Some(value) => value,
        None => {
            return Err(EngineError::MissingOutput(OutputName::Masks));
        },
    };
    match dims_of(&value) {
        None => Err(EngineError::Shape(ShapeError::NotATensor)),
        Some(dims) => match mask_shape(&dims) {
            Err(e) => Err(EngineError::Shape(e)),
            Ok(shape) => Ok(MaskBatch { masks: value, shape }),
        },
    }
}

impl MaskBatch {
    /// The shape is the one that the tensor's dimensions give: four
    /// dimensions that account for every value, at least one mask channel.
    pub open spec fn well_formed(&self) -> bool {
        &&& tensor_dims(self.masks) matches Some(dims)
        &&& mask_shape_of(dims) == Ok::<(int, int, int, int), ShapeError>(self.shape.extents())
        &&& dims.len() >= 4
        &&& self.shape.channels >= 1
    }
}

impl Sam2Engine {
    /// Prepares an image for `encode_image`.
    pub fn preprocess(&self, img: &RgbImage) -> (r: Result<ImageTensor, EngineError>)
        ensures
            !(img.well_formed() && img.resamplable()) ==> r matches Err(
                EngineError::Validation(ValidationError::ImageSize),
            ),
            img.well_formed() && img.resamplable() ==> (r matches Ok(tensor) && {
                &&& tensor.well_formed()
                &&& tensor.original_size == (img.height, img.width)
                &&& tensor.values@ == normalized_planes(
                    triangle_resized(img.pixels@, img.width, img.height, NETWORK_SIDE, NETWORK_SIDE),
                )
            }),
    {
        match preprocess(img) {
            Ok(tensor) => Ok(tensor),
            Err(e) => Err(EngineError::Validation(e)),
        }
    }

    /// Runs the image tensor through the encoder once and packs the three
    /// outputs that the decoder will need, with the size of the image.
    ///
    /// A tensor of other dimensions than the encoder's input is refused
    /// before the network runs. Whether the run succeeds is the network's
    /// matter; what is made of its outputs is stated by `package_encoding`.
    pub fn encode_image(&mut self, tensor: NetworkValue, original_size: (u32, u32)) -> (r: Result<
        EncodedImage,
        EngineError,
    >)
        ensures
            tensor_dims(tensor) != Some(image_dims()) ==> r matches Err(
                EngineError::Validation(ValidationError::TensorShape),
            ),
            r matches Ok(encoded) ==> {
                &&& tensor_dims(tensor) == Some(image_dims())
                &&& encoded.well_formed()
                &&& encoded.original_size == original_size
            },
            r matches Err(EngineError::Validation(e)) ==> e == ValidationError::TensorShape && tensor_dims(tensor)
                != Some(image_dims()),
            !(r matches Err(EngineError::Shape(_))),
            r matches Err(EngineError::MissingOutput(name)) ==> name != OutputName::Masks,
    {
        let dims: Option<Vec<i64>> = dims_of(&tensor);
        if !is_image_input(&dims) {
            return Err(EngineError::Validation(ValidationError::TensorShape));
        }
        match run_session(&mut self.encoder, encoder_inputs(&tensor)) {
            Err(error) => Err(EngineError::Run(failure_text(&error))),
            Ok(mut outputs) => {
                let image_embed: Option<NetworkValue> = take_output(&mut outputs, OutputName::ImageEmbed.name());
                let first: Option<NetworkValue> = take_output(&mut outputs, OutputName::HighResFeats0.name());
                let second: Option<NetworkValue> = take_output(&mut outputs, OutputName::HighResFeats1.name());
                package_encoding(image_embed, first, second, original_size)
            },
        }
    }

    /// Runs the decoder once on the encoder's three outputs and the four
    /// prompt tensors, and reads the masks that it gives.
    ///
    /// The prompt tensors are checked by their dimensions before the network
    /// runs: one label per point, at least one point, the fixed mask hint
    /// and flag. Whether the run succeeds is the network's matter. Masks that
    /// come back have four dimensions and at least one channel, at the
    /// network's resolution, not the image's.
    pub fn predict(&mut self, encoded: &EncodedImage, prompt: &PromptTensors) -> (r: Result<MaskBatch, EngineError>)
        requires
            encoded.well_formed(),
        ensures
            prompt_dims_fault(
                tensor_dims(prompt.point_coords),
                tensor_dims(prompt.point_labels),
                tensor_dims(prompt.mask_input),
                tensor_dims(prompt.has_mask_input),
            ) matches Some(e) ==> r matches Err(EngineError::Validation(found)) && found == e,
            r matches Err(EngineError::Validation(found)) ==> prompt_dims_fault(
                tensor_dims(prompt.point_coords),
                tensor_dims(prompt.point_labels),
                tensor_dims(prompt.mask_input),
                tensor_dims(prompt.has_mask_input),
            ) == Some(found),
            r matches Ok(batch) ==> batch.well_formed(),
            r matches Err(EngineError::MissingOutput(name)) ==> name == OutputName::Masks,
    {
        let coords: Option<Vec<i64>> = dims_of(&prompt.point_coords);
        let labels: Option<Vec<i64>> = dims_of(&prompt.point_labels);
        let hint: Option<Vec<i64>> = dims_of(&prompt.mask_input);
        let flag: Option<Vec<i64>> = dims_of(&prompt.has_mask_input);
        match check_prompt_dims(&coords, &labels, &hint, &flag) {
            Err(e) => {
                return Err(EngineError::Validation(e));
            },
            Ok(_) => {},
        }
        match run_session(&mut self.decoder, decoder_inputs(encoded, prompt)) {
            Err(error) => Err(EngineError::Run(failure_text(&error))),
            Ok(mut outputs) => {
                let masks: Option<NetworkValue> = take_output(&mut outputs, OutputName::Masks.name());
                package_masks(masks)
            },
        }
    }
}

/// Whether dimensions are those of the encoder's input.
pub fn is_image_input(dims: &Option<Vec<i64>>) -> (r: bool)
    ensures
        r == (dims matches Some(d) && d@ == image_dims()),
{
    match dims {
        Some(d) => {
            let r: bool = d.len() == 4 && d[0] == 1 && d[1] == 3 && d[2] == 1024 && d[3] == 1024;
            assert(r == (d@ =~= image_dims()));
            r
        },
        None => false,
    }
}

fn same_dims(dims: &Option<Vec<i64>>, wanted: &Vec<i64>) -> (r: bool)
    ensures
        r == (dims matches Some(d) && d@ == wanted@),
{
    match dims {
        Some(d) => same_numbers(d, wanted),
        None => false,
    }
}

fn same_numbers(left: &Vec<i64>, right: &Vec<i64>) -> (r: bool)
    ensures
        r == (left@ == right@),
{
    if left.len() != right.len() {
        return false;
    }
    let mut i: usize = 0;
    while i < left.len()
        invariant
            left@.len() == right@.len(),
            i <= left@.len(),
            forall|k: int| 0 <= k < i ==> left@[k] == right@[k],
        decreases left@.len() - i,
    {
        if left[i] != right[i] {
            return false;
        }
        i = i + 1;
    }
    assert(left@ =~= right@);
    true
}

/// Checks the dimensions of the four prompt tensors.
pub fn check_prompt_dims(
    coords: &Option<Vec<i64>>,
    labels: &Option<Vec<i64>>,
    hint: &Option<Vec<i64>>,
    flag: &Option<Vec<i64>>,
) -> (r: Result<(), ValidationError>)
    ensures
        match prompt_dims_fault(
            dims_view(coords),
            dims_view(labels),
            dims_view(hint),
            dims_view(flag),
        ) {
            Some(e) => r == Err::<(), ValidationError>(e),
            None => r == Ok::<(), ValidationError>(()),
        },
{
    let points: i64 = match coords {
        Some(c) => {
            if !(c.len() == 3 && c[0] == 1 && c[1] >= 0 && c[2] == 2) {
                return Err(ValidationError::TensorShape);
            }
            c[1]
        },
        None => {
            return Err(ValidationError::TensorShape);
        },
    };
    let tags: i64 = match labels {
        Some(l) => {
            if !(l.len() == 2 && l[0] == 1 && l[1] >= 0) {
                return Err(ValidationError::TensorShape);
            }
            l[1]
        },
        None => {
            return Err(ValidationError::TensorShape);
        },
    };
    if points != tags {
        return Err(ValidationError::CountMismatch);
    }
    if points == 0 {
        return Err(ValidationError::EmptyPrompt);
    }
    let hint_dims: Vec<i64> = vec![1, 1, 256, 256];
    let flag_dims: Vec<i64> = vec![1];
    assert(flag_dims@ =~= has_mask_dims());
    if !same_dims(hint, &hint_dims) || !same_dims(flag, &flag_dims) {
        return Err(ValidationError::TensorShape);
    }
    Ok(())
}

/// Reads the dimensions of the decoder's output as the shape of a batch of
/// masks, or says why they are none.
#[verifier::loop_isolation(false)]
pub fn mask_shape(dims: &Vec<i64>) -> (r: Result<MaskShape, ShapeError>)
    ensures
        match mask_shape_of(dims@) {
            Err(e) => r == Err::<MaskShape, ShapeError>(e),
            Ok(extents) => r matches Ok(shape) && shape.extents() == extents,
        },
{
    if dims.len() < 4 {
        return Err(ShapeError::TooFewDimensions);
    }
    let batch: i64 = dims[0];
    let channels: i64 = dims[1];
    let height: i64 = dims[2];
    let width: i64 = dims[3];
    if batch < 0 || channels < 0 || height < 0 || width < 0 {
        return Err(ShapeError::NegativeDimension);
    }
    if channels == 0 {
        return Err(ShapeError::NoMaskChannel);
    }
    proof {
        lemma_products(dims@);
    }
    let limit: u128 = isize::MAX as u128;
    let mut room: u128 = 1;
    let mut volume: u128 = 1;
    let mut i: usize = 0;
    while i < 4
        invariant
            i <= 4,
            room == rooms(dims@, i as int),
            volume == volumes(dims@, i as int),
            1 <= room <= limit,
            volume <= room,
        decreases 4 - i,
    {
        let dim: u128 = dims[i] as u128;
        let wide: u128 = if dim == 0 {
            1
        } else {
            dim
        };
        assert(room * wide <= u128::MAX && volume * dim <= room * wide && room * wide >= 1) by (nonlinear_arith)
            requires
                1 <= room <= i64::MAX,
                1 <= wide <= i64::MAX,
                0 <= volume <= room,
                0 <= dim <= wide,
        ;
        if room * wide > limit {
            proof {
                lemma_rooms_grow(dims@, i as int + 1);
            }
            return Err(ShapeError::TooLarge);
        }
        room = room * wide;
        volume = volume * dim;
        i = i + 1;
    }
    proof {
        lemma_each_fits(
            room_of(batch as int),
            room_of(channels as int),
            room_of(height as int),
            room_of(width as int),
            isize::MAX as int,
        );
    }
    if volume > 0 {
        let mut j: usize = 4;
        while j < dims.len()
            invariant
                4 <= j <= dims@.len(),
                forall|k: int| 4 <= k < j ==> dims@[k] == 1,
            decreases dims@.len() - j,
        {
            if dims[j] != 1 {
                return Err(ShapeError::ExtraDimensions);
            }
            j = j + 1;
        }
    }
    Ok(MaskShape { batch: batch as usize, channels: channels as usize, height: height as usize, width: width as usize })
}

proof fn lemma_each_fits(a: int, b: int, c: int, d: int, limit: int)
    requires
        a >= 1,
        b >= 1,
        c >= 1,
        d >= 1,
        a * b * c * d <= limit,
    ensures
        a <= limit,
        b <= limit,
        c <= limit,
        d <= limit,
{
    assert(a * b >= a && a * b >= b && a * b >= 1) by (nonlinear_arith)
        requires
            a >= 1,
            b >= 1,
    ;
    let ab: int = a * b;
    assert(ab * c >= ab && ab * c >= c && ab * c >= 1) by (nonlinear_arith)
        requires
            ab >= 1,
            c >= 1,
    ;
    let abc: int = ab * c;
    assert(abc * d >= abc && abc * d >= d) by (nonlinear_arith)
        requires
            abc >= 1,
            d >= 1,
    ;
}

/// Room taken by the first `n` dimensions.
spec fn rooms(dims: Seq<i64>, n: int) -> int
    decreases n,
{
    if n <= 0 {
        1
    } else {
        rooms(dims, n - 1) * room_of(dims[n - 1] as int)
    }
}

/// Number of values under the first `n` dimensions.
spec fn volumes(dims: Seq<i64>, n: int) -> int
    decreases n,
{
    if n <= 0 {
        1
    } else {
        volumes(dims, n - 1) * dims[n - 1]
    }
}

proof fn lemma_rooms_grow(dims: Seq<i64>, n: int)
    requires
        0 <= n <= 4 <= dims.len(),
        dims[0] >= 0 && dims[1] >= 0 && dims[2] >= 0 && dims[3] >= 0,
    ensures
        1 <= rooms(dims, n) <= rooms(dims, 4),
    decreases 4 - n,
{
    lemma_rooms_positive(dims, n);
    if n < 4 {
        lemma_rooms_grow(dims, n + 1);
        let a: int = rooms(dims, n);
        let b: int = room_of(dims[n] as int);
        assert(a <= a * b) by (nonlinear_arith)
            requires
                a >= 1,
                b >= 1,
        ;
    }
}

proof fn lemma_rooms_positive(dims: Seq<i64>, n: int)
    requires
        0 <= n <= 4 <= dims.len(),
        dims[0] >= 0 && dims[1] >= 0 && dims[2] >= 0 && dims[3] >= 0,
    ensures
        1 <= rooms(dims, n),
    decreases n,
{
    if n > 0 {
        lemma_rooms_positive(dims, n - 1);
        let a: int = rooms(dims, n - 1);
        let b: int = room_of(dims[n - 1] as int);
        assert(1 <= a * b) by (nonlinear_arith)
            requires
                a >= 1,
                b >= 1,
        ;
    }
}

proof fn lemma_products(dims: Seq<i64>)
    requires
        dims.len() >= 4,
    ensures
        rooms(dims, 4) == room_of(dims[0] as int) * room_of(dims[1] as int) * room_of(dims[2] as int) * room_of(
            dims[3] as int,
        ),
        volumes(dims, 4) == dims[0] * dims[1] * dims[2] * dims[3],
{
    reveal_with_fuel(rooms, 5);
    reveal_with_fuel(volumes, 5);
    let a: int = room_of(dims[0] as int);
    let b: int = room_of(dims[1] as int);
    let c: int = room_of(dims[2] as int);
    let d: int = room_of(dims[3] as int);
    assert(((1 * a) * b) * c * d == a * b * c * d) by (nonlinear_arith);
    let e: int = dims[0] as int;
    let f: int = dims[1] as int;
    let g: int = dims[2] as int;
    let h: int = dims[3] as int;
    assert(((1 * e) * f) * g * h == e * f * g * h) by (nonlinear_arith);
}

} // verus!
