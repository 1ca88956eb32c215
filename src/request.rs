//! Translation of a generic solve request into the engine's request schema.
use vstd::prelude::*;
use crate::types::{
    CelestialCoord, EngineRequest, ImageCoord, SolveError, SolveExtension, SolveParams,
    SolveTimeout, WireDuration,
};

verus! {

/// The timeout sent to the engine when the caller gives none: five seconds.
pub open spec fn default_timeout_spec() -> SolveTimeout {
    SolveTimeout { secs: 5, nanos: 0 }
}

/// The timeout that the engine is given for `params`.
pub open spec fn effective_timeout<F>(params: SolveParams<F>) -> SolveTimeout {
    match params.solve_timeout {
        Some(t) => t,
        None => default_timeout_spec(),
    }
}

/// The elements of an optional list, absent meaning empty.
pub open spec fn seq_or_empty<T>(v: Option<Vec<T>>) -> Seq<T> {
    match v {
        Some(v) => v@,
        None => seq![],
    }
}

/// The image size does not fit the engine's integer type.
pub open spec fn size_out_of_range(width: usize, height: usize) -> bool {
    width > i32::MAX || height > i32::MAX
}

/// The request that the engine is given: every generic field has its
/// counterpart, and the timeout is always present.
pub open spec fn is_translation<F>(
    q: EngineRequest<F>,
    centroids: Seq<ImageCoord<F>>,
    width: usize,
    height: usize,
    extension: SolveExtension<F>,
    params: SolveParams<F>,
) -> bool {
    &&& q.star_centroids@ == centroids
    &&& q.image_width as int == width as int
    &&& q.image_height as int == height as int
    &&& match params.fov_estimate {
        Some((est, tol)) => q.fov_estimate == Some(est) && q.fov_max_error == Some(tol),
        None => q.fov_estimate.is_none() && q.fov_max_error.is_none(),
    }
    &&& q.match_radius == params.match_radius
    &&& q.match_threshold == params.match_threshold
    &&& q.match_max_error == params.match_max_error
    &&& q.solve_timeout == Some(
        WireDuration {
            seconds: effective_timeout(params).secs as i64,
            nanos: effective_timeout(params).nanos as i32,
        },
    )
    &&& q.target_pixels@ == seq_or_empty(extension.target_pixel)
    &&& q.target_sky_coords@ == seq_or_empty(extension.target_sky_coord)
    &&& q.distortion == params.distortion
    &&& q.return_matches == extension.return_matches
    &&& q.return_catalog == extension.return_catalog
    &&& q.return_rotation_matrix == extension.return_rotation_matrix
}

/// The timeout used whenever the caller supplies none.
pub fn default_timeout() -> (r: SolveTimeout)
    ensures
        r == default_timeout_spec(),
{
    SolveTimeout { secs: 5, nanos: 0 }
}

/// Relies on prost_types::Duration's `TryFrom<std::time::Duration>`: it fails
/// only when the seconds exceed `i64::MAX`, and otherwise keeps the seconds and
/// the nanoseconds (a duration with nanoseconds below one second is already
/// normalized).
#[verifier::external_body]
fn wire_duration(secs: u64, nanos: u32) -> (r: Option<WireDuration>)
    requires
        nanos < 1_000_000_000,
    ensures
        r.is_some() <==> secs <= i64::MAX,
        r matches Some(d) ==> d.seconds as int == secs as int && d.nanos as int == nanos as int,
{
    match prost_types::Duration::try_from(std::time::Duration::new(secs, nanos)) {
        Ok(d) => Some(WireDuration { seconds: d.seconds, nanos: d.nanos }),
        Err(_) => None,
    }
}

pub(crate) fn copy_image_coords<F: Copy>(v: &Vec<ImageCoord<F>>) -> (r: Vec<ImageCoord<F>>)
    ensures
        r@ == v@,
{
    let mut out: Vec<ImageCoord<F>> = Vec::new();
    let mut i: usize = 0;
    while i < v.len()
        invariant
            i <= v.len(),
            out@ == v@.subrange(0, i as int),
        decreases v.len() - i,
    {
        let c = v[i];
        out.push(ImageCoord { x: c.x, y: c.y });
        i += 1;
    }
    assert(v@.subrange(0, v.len() as int) == v@);
    out
}

pub(crate) fn copy_celestial_coords<F: Copy>(v: &Vec<CelestialCoord<F>>) -> (r: Vec<CelestialCoord<F>>)
    ensures
        r@ == v@,
{
    let mut out: Vec<CelestialCoord<F>> = Vec::new();
    let mut i: usize = 0;
    while i < v.len()
        invariant
            i <= v.len(),
            out@ == v@.subrange(0, i as int),
        decreases v.len() - i,
    {
        let c = v[i];
        out.push(CelestialCoord { ra: c.ra, dec: c.dec });
        i += 1;
    }
    assert(v@.subrange(0, v.len() as int) == v@);
    out
}

/// Maps a generic solve request onto the engine's request schema.
///
/// Fails only where a value cannot be represented on the wire: an image
/// dimension above `i32::MAX`, or a timeout of more than `i64::MAX` seconds.
pub fn translate_request<F: Copy>(
    star_centroids: &Vec<ImageCoord<F>>,
    width: usize,
    height: usize,
    extension: &SolveExtension<F>,
    params: &SolveParams<F>,
) -> (r: Result<EngineRequest<F>, SolveError>)
    requires
        params.solve_timeout matches Some(t) ==> t.wf(),
    ensures
        r.is_ok() <==> !size_out_of_range(width, height) && effective_timeout(*params).secs
            <= i64::MAX,
        size_out_of_range(width, height) ==> r == Err::<EngineRequest<F>, SolveError>(
            SolveError::ImageSizeOutOfRange,
        ),
        !size_out_of_range(width, height) && effective_timeout(*params).secs > i64::MAX ==> r
            == Err::<EngineRequest<F>, SolveError>(SolveError::TimeoutOutOfRange),
        r matches Ok(q) ==> is_translation(q, star_centroids@, width, height, *extension, *params),
{
    if width > i32::MAX as usize || height > i32::MAX as usize {
        return Err(SolveError::ImageSizeOutOfRange);
    }
    let timeout = match params.solve_timeout {
        Some(t) => t,
        None => default_timeout(),
    };
    let solve_timeout = match wire_duration(timeout.secs, timeout.nanos) {
        Some(d) => d,
        None => return Err(SolveError::TimeoutOutOfRange),
    };
    let (fov_estimate, fov_max_error) = match params.fov_estimate {
        Some((est, tol)) => (Some(est), Some(tol)),
        None => (None, None),
    };
    let target_pixels = match &extension.target_pixel {
        Some(v) => copy_image_coords(v),
        None => Vec::new(),
    };
    let target_sky_coords = match &extension.target_sky_coord {
        Some(v) => copy_celestial_coords(v),
        None => Vec::new(),
    };
    Ok(EngineRequest {
        star_centroids: copy_image_coords(star_centroids),
        image_width: width as i32,
        image_height: height as i32,
        fov_estimate,
        fov_max_error,
        match_radius: params.match_radius,
        match_threshold: params.match_threshold,
        solve_timeout: Some(solve_timeout),
        target_pixels,
        target_sky_coords,
        distortion: params.distortion,
        return_matches: extension.return_matches,
        return_catalog: extension.return_catalog,
        return_rotation_matrix: extension.return_rotation_matrix,
        match_max_error: params.match_max_error,
    })
}

} // verus!
