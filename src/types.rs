//! Data model shared by the generic side and the engine's wire schema.
//!
//! The floating scalar type `F` is a parameter: the translations move
//! scalars from one schema to the other and never compute with them.
use vstd::prelude::*;

verus! {

/// A pixel coordinate in an image.
#[derive(Clone, Copy, Debug, PartialEq)]
pub struct ImageCoord<F> {
    pub x: F,
    pub y: F,
}

/// A position on the sky.
#[derive(Clone, Copy, Debug, PartialEq)]
pub struct CelestialCoord<F> {
    pub ra: F,
    pub dec: F,
}

/// A non-negative span of time as whole seconds and a sub-second part.
#[derive(Clone, Copy, Debug, PartialEq, Eq)]
pub struct SolveTimeout {
    pub secs: u64,
    pub nanos: u32,
}

pub const NANOS_PER_SEC: u32 = 1_000_000_000;

impl SolveTimeout {
    pub open spec fn wf(&self) -> bool {
        self.nanos < NANOS_PER_SEC
    }
}

/// The engine's duration: seconds and nanoseconds of the same sign.
#[derive(Clone, Copy, Debug, PartialEq, Eq)]
pub struct WireDuration {
    pub seconds: i64,
    pub nanos: i32,
}

/// Tuning parameters of one solve on the generic side.
#[derive(Clone, Debug)]
pub struct SolveParams<F> {
    /// Field of view estimate and its tolerance.
    pub fov_estimate: Option<(F, F)>,
    pub match_radius: Option<F>,
    pub match_threshold: Option<F>,
    pub solve_timeout: Option<SolveTimeout>,
    pub distortion: Option<F>,
    pub match_max_error: Option<F>,
}

/// Extra inputs and outputs that a caller may ask of one solve.
#[derive(Clone, Debug)]
pub struct SolveExtension<F> {
    pub target_pixel: Option<Vec<ImageCoord<F>>>,
    pub target_sky_coord: Option<Vec<CelestialCoord<F>>>,
    pub return_matches: bool,
    pub return_catalog: bool,
    pub return_rotation_matrix: bool,
}

/// The engine's solve request.
#[derive(Clone, Debug)]
pub struct EngineRequest<F> {
    pub star_centroids: Vec<ImageCoord<F>>,
    pub image_width: i32,
    pub image_height: i32,
    pub fov_estimate: Option<F>,
    pub fov_max_error: Option<F>,
    pub match_radius: Option<F>,
    pub match_threshold: Option<F>,
    pub solve_timeout: Option<WireDuration>,
    pub target_pixels: Vec<ImageCoord<F>>,
    pub target_sky_coords: Vec<CelestialCoord<F>>,
    pub distortion: Option<F>,
    pub return_matches: bool,
    pub return_catalog: bool,
    pub return_rotation_matrix: bool,
    pub match_max_error: Option<F>,
}

/// Status codes of the engine's solve result.
pub const STATUS_UNSPECIFIED: i32 = 0;
pub const STATUS_MATCH_FOUND: i32 = 1;
pub const STATUS_NO_MATCH: i32 = 2;
pub const STATUS_TIMEOUT: i32 = 3;
pub const STATUS_CANCELLED: i32 = 4;
pub const STATUS_TOO_FEW: i32 = 5;

/// A star as the engine reports it.
#[derive(Clone, Copy, Debug, PartialEq)]
pub struct EngineStar<F> {
    pub image_coord: Option<ImageCoord<F>>,
    pub celestial_coord: Option<CelestialCoord<F>>,
    pub magnitude: F,
}

/// The engine's solve result.
#[derive(Clone, Debug)]
pub struct EngineResult<F> {
    pub status: Option<i32>,
    pub image_center_coords: Option<CelestialCoord<F>>,
    pub roll: Option<F>,
    pub fov: Option<F>,
    pub distortion: Option<F>,
    pub rmse: Option<F>,
    pub p90e: Option<F>,
    pub maxe: Option<F>,
    pub matches: Option<i32>,
    pub prob: Option<F>,
    pub epoch_equinox: Option<i32>,
    pub epoch_proper_motion: Option<F>,
    pub solve_time: Option<WireDuration>,
    pub target_coords: Vec<CelestialCoord<F>>,
    pub target_sky_to_image_coords: Vec<ImageCoord<F>>,
    pub matched_stars: Vec<EngineStar<F>>,
    pub pattern_centroids: Vec<ImageCoord<F>>,
    pub catalog_stars: Vec<EngineStar<F>>,
    pub rotation_matrix: Option<Vec<F>>,
}

/// A star of a plate solution, with both of its coordinates.
#[derive(Clone, Copy, Debug, PartialEq)]
pub struct StarInfo<F> {
    pub pixel: ImageCoord<F>,
    pub sky_coord: CelestialCoord<F>,
    pub mag: F,
}

/// The engine-agnostic outcome of a successful solve.
#[derive(Clone, Debug)]
pub struct PlateSolution<F> {
    pub image_sky_coord: CelestialCoord<F>,
    pub roll: F,
    pub fov: F,
    pub distortion: F,
    pub rmse: F,
    pub p90_error: F,
    pub max_error: F,
    pub num_matches: i32,
    pub prob: F,
    pub epoch_equinox: i32,
    pub epoch_proper_motion: F,
    pub solve_time: WireDuration,
    pub target_sky_coord: Vec<CelestialCoord<F>>,
    pub target_pixel: Vec<ImageCoord<F>>,
    pub matched_stars: Vec<StarInfo<F>>,
    pub pattern_centroids: Vec<ImageCoord<F>>,
    pub catalog_stars: Vec<StarInfo<F>>,
    pub rotation_matrix: Vec<F>,
}

/// A field of the engine's result that its contract makes mandatory on a match.
#[derive(Clone, Copy, Debug, PartialEq, Eq)]
pub enum MandatoryField {
    ImageCenter,
    Roll,
    Fov,
    Distortion,
    Rmse,
    P90Error,
    MaxError,
    Matches,
    Prob,
    EpochEquinox,
    EpochProperMotion,
    SolveTime,
    /// A matched star (by index) without a pixel or a sky coordinate.
    MatchedStar(usize),
    /// A catalog star (by index) without a pixel or a sky coordinate.
    CatalogStar(usize),
}

/// Why a solve did not produce a plate solution.
#[derive(Clone, Debug, PartialEq, Eq)]
pub enum SolveError {
    /// The image width or height does not fit the engine's integer type.
    ImageSizeOutOfRange,
    /// The timeout does not fit the engine's duration type.
    TimeoutOutOfRange,
    /// The call to the engine failed at the transport layer; its description.
    Transport(String),
    /// The engine answered with a status other than a match; the raw status.
    EngineStatus(Option<i32>),
    /// The engine reported a match but left out a mandatory field.
    ProtocolViolation(MandatoryField),
}

} // verus!
