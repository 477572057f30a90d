//! Point prompts for the decoder: what a valid prompt is, and the four inputs
//! that the decoder takes for one.

use vstd::prelude::*;
use crate::transform::{network_of, to_network, Scaled};

verus! {

/// Side length of the low-resolution mask hint that the decoder takes.
pub const MASK_HINT_SIDE: usize = 256;

/// Whether a prompted point lies on the object or beside it.
#[derive(Clone, Copy, Debug, PartialEq, Eq, Structural)]
pub enum PointLabel {
    Background,
    Foreground,
}

impl PointLabel {
    /// The number that the decoder reads for the label.
    pub open spec fn code(self) -> u8 {
        match self {
            PointLabel::Background => 0u8,
            PointLabel::Foreground => 1u8,
        }
    }

    pub fn to_code(self) -> (r: u8)
        ensures
            r == self.code(),
    {
        match self {
            PointLabel::Background => 0,
            PointLabel::Foreground => 1,
        }
    }
}

/// A point in network space.
#[derive(Clone, Copy, Debug, PartialEq, Eq, Structural)]
pub struct NetworkPoint {
    pub x: Scaled,
    pub y: Scaled,
}

impl NetworkPoint {
    pub open spec fn well_formed(self) -> bool {
        self.x.well_formed() && self.y.well_formed()
    }

    /// The point of network space under a pixel of the source image, whose
    /// size is given as height and width: x scales by the width, y by the
    /// height.
    pub fn from_source(x: u32, y: u32, original_size: (u32, u32)) -> (r: NetworkPoint)
        ensures
            r == (NetworkPoint { x: network_of(x, original_size.1), y: network_of(y, original_size.0) }),
            r.well_formed(),
    {
        NetworkPoint { x: to_network(x, original_size.1), y: to_network(y, original_size.0) }
    }
}

/// Why a prompt, or a tensor handed to the engine, is refused.
#[derive(Clone, Copy, Debug, PartialEq, Eq, Structural)]
pub enum ValidationError {
    /// There are not as many labels as points.
    CountMismatch,
    /// There is no point at all.
    EmptyPrompt,
    /// More points than a tensor dimension can count.
    TooManyPoints,
    /// A coordinate is a fraction without a denominator.
    InvalidCoordinate,
    /// A tensor does not have the dimensions that the network takes.
    TensorShape,
    /// An image whose pixel count does not match its width and height, or
    /// that is too wide to resample on this machine.
    ImageSize,
}

/// The decoder's four prompt inputs, as whole numbers and exact fractions.
/// `point_coords` holds x and y of each point in turn.
#[derive(Debug)]
pub struct DecoderInputs {
    pub point_coords: Vec<Scaled>,
    pub point_labels: Vec<u8>,
    pub mask_input: Vec<u8>,
    pub has_mask_input: Vec<u8>,
}

/// The points' coordinates in the order the decoder reads them.
pub open spec fn flat_coords(points: Seq<NetworkPoint>) -> Seq<Scaled> {
    Seq::new(
        2 * points.len(),
        |i: int|
            if i % 2 == 0 {
                points[i / 2].x
            } else {
                points[i / 2].y
            },
    )
}

/// The labels as the decoder reads them.
pub open spec fn label_codes(labels: Seq<PointLabel>) -> Seq<u8> {
    Seq::new(labels.len(), |i: int| labels[i].code())
}

/// Dimensions of the coordinate tensor for `count` points.
pub open spec fn coords_dims(count: int) -> Seq<i64> {
    seq![1i64, count as i64, 2i64]
}

/// Dimensions of the label tensor for `count` points.
pub open spec fn labels_dims(count: int) -> Seq<i64> {
    seq![1i64, count as i64]
}

/// Dimensions of the mask hint.
pub open spec fn mask_input_dims() -> Seq<i64> {
    seq![1i64, 1i64, 256i64, 256i64]
}

/// Dimensions of the flag that says whether a mask hint is given.
pub open spec fn has_mask_dims() -> Seq<i64> {
    seq![1i64]
}

/// The most points a prompt can hold: twice as many coordinates must be
/// countable, and the count must fit a tensor dimension.
pub open spec fn max_points() -> int {
    if usize::MAX as int / 2 < i64::MAX as int {
        usize::MAX as int / 2
    } else {
        i64::MAX as int
    }
}

/// Why a prompt is refused, if it is: the first of these that applies.
pub open spec fn prompt_fault(points: Seq<NetworkPoint>, labels: Seq<PointLabel>) -> Option<ValidationError> {
    if points.len() != labels.len() {
        Some(ValidationError::CountMismatch)
    } else if points.len() == 0 {
        Some(ValidationError::EmptyPrompt)
    } else if points.len() > max_points() {
        Some(ValidationError::TooManyPoints)
    } else if exists|i: int| 0 <= i < points.len() && !(#[trigger] points[i]).well_formed() {
        Some(ValidationError::InvalidCoordinate)
    } else {
        None
    }
}

impl DecoderInputs {
    /// The inputs are those for `count` points, with no mask hint given.
    pub open spec fn well_formed(&self) -> bool {
        &&& self.point_labels@.len() >= 1
        &&& self.point_labels@.len() <= max_points()
        &&& self.point_coords@.len() == 2 * self.point_labels@.len()
        &&& forall|i: int| 0 <= i < self.point_coords@.len() ==> (#[trigger] self.point_coords@[i]).well_formed()
        &&& forall|i: int| 0 <= i < self.point_labels@.len() ==> (#[trigger] self.point_labels@[i]) <= 1
        &&& self.mask_input@ == Seq::new((MASK_HINT_SIDE * MASK_HINT_SIDE) as nat, |i: int| 0u8)
        &&& self.has_mask_input@ == seq![0u8]
    }

    /// How many points the inputs hold.
    pub open spec fn count(&self) -> int {
        self.point_labels@.len() as int
    }

    /// Dimensions of the coordinate tensor: one batch, a row per point, x and y.
    pub fn point_coords_dims(&self) -> (r: Vec<i64>)
        requires
            self.well_formed(),
        ensures
            r@ == coords_dims(self.count()),
    {
        let count: usize = self.point_labels.len();
        let r: Vec<i64> = vec![1, count as i64, 2];
        r
    }

    /// Dimensions of the label tensor: one batch, a label per point.
    pub fn point_labels_dims(&self) -> (r: Vec<i64>)
        requires
            self.well_formed(),
        ensures
            r@ == labels_dims(self.count()),
    {
        let count: usize = self.point_labels.len();
        let r: Vec<i64> = vec![1, count as i64];
        r
    }

    /// Dimensions of the mask hint.
    pub fn mask_input_dims(&self) -> (r: Vec<i64>)
        ensures
            r@ == mask_input_dims(),
    {
        let r: Vec<i64> = vec![1, 1, 256, 256];
        r
    }

    /// Dimensions of the flag.
    pub fn has_mask_input_dims(&self) -> (r: Vec<i64>)
        ensures
            r@ == has_mask_dims(),
    {
        let r: Vec<i64> = vec![1];
        r
    }
}

/// Checks a prompt and lays out the decoder's inputs for it: the coordinates
/// point by point, one label code per point, a mask hint of zeros and a flag
/// of zero for "no hint".
pub fn plan_prompt(points: &Vec<NetworkPoint>, labels: &Vec<PointLabel>) -> (r: Result<DecoderInputs, ValidationError>)
    ensures
        match prompt_fault(points@, labels@) {
            Some(e) => r == Err::<DecoderInputs, ValidationError>(e),
            None => r matches Ok(inputs) && {
                &&& inputs.well_formed()
                &&& inputs.count() == points@.len()
                &&& inputs.point_coords@ == flat_coords(points@)
                &&& inputs.point_labels@ == label_codes(labels@)
            },
        },
{
    let count: usize = points.len();
    if count != labels.len() {
        return Err(ValidationError::CountMismatch);
    }
    if count == 0 {
        return Err(ValidationError::EmptyPrompt);
    }
    if count > usize::MAX / 2 || count as u64 > i64::MAX as u64 {
        return Err(ValidationError::TooManyPoints);
    }
    let mut coords: Vec<Scaled> = Vec::new();
    let mut codes: Vec<u8> = Vec::new();
    let mut i: usize = 0;
    while i < count
        invariant
            count == points@.len(),
            count == labels@.len(),
            count <= usize::MAX / 2,
            i <= count,
            coords@.len() == 2 * i,
            codes@.len() == i,
            forall|k: int| 0 <= k < i ==> (#[trigger] points@[k]).well_formed(),
            forall|k: int| 0 <= k < 2 * i ==> #[trigger] coords@[k] == flat_coords(points@)[k],
            forall|k: int| 0 <= k < i ==> #[trigger] codes@[k] == labels@[k].code(),
        decreases count - i,
    {
        let point: NetworkPoint = points[i];
        if point.x.den == 0 || point.y.den == 0 {
            return Err(ValidationError::InvalidCoordinate);
        }
        coords.push(point.x);
        coords.push(point.y);
        codes.push(labels[i].to_code());
        i = i + 1;
    }
    let mut hint: Vec<u8> = Vec::new();
    let cells: usize = MASK_HINT_SIDE * MASK_HINT_SIDE;
    let mut j: usize = 0;
    while j < cells
        invariant
            cells == MASK_HINT_SIDE * MASK_HINT_SIDE,
            j <= cells,
            hint@.len() == j,
            forall|k: int| 0 <= k < j ==> #[trigger] hint@[k] == 0u8,
        decreases cells - j,
    {
        hint.push(0);
        j = j + 1;
    }
    let flag: Vec<u8> = vec![0];
    assert(hint@ =~= Seq::new((MASK_HINT_SIDE * MASK_HINT_SIDE) as nat, |i: int| 0u8));
    assert(flag@ =~= seq![0u8]);
    Ok(DecoderInputs { point_coords: coords, point_labels: codes, mask_input: hint, has_mask_input: flag })
}

} // verus!
