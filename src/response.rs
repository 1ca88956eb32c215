//! Validation and translation of the engine's solve result.
use vstd::prelude::*;
use crate::request::{copy_celestial_coords, copy_image_coords, seq_or_empty};
use crate::types::{
    EngineResult, EngineStar, MandatoryField, PlateSolution, SolveError, StarInfo,
    STATUS_MATCH_FOUND,
};

verus! {

/// The engine reported a match.
pub open spec fn is_match<F>(res: EngineResult<F>) -> bool {
    res.status == Some(STATUS_MATCH_FOUND)
}

/// The first mandatory scalar field that the result leaves out, in the
/// order of the solution's fields.
pub open spec fn first_missing_scalar<F>(res: EngineResult<F>) -> Option<MandatoryField> {
    if res.image_center_coords.is_none() {
        Some(MandatoryField::ImageCenter)
    } else if res.roll.is_none() {
        Some(MandatoryField::Roll)
    } else if res.fov.is_none() {
        Some(MandatoryField::Fov)
    } else if res.distortion.is_none() {
        Some(MandatoryField::Distortion)
    } else if res.rmse.is_none() {
        Some(MandatoryField::Rmse)
    } else if res.p90e.is_none() {
        Some(MandatoryField::P90Error)
    } else if res.maxe.is_none() {
        Some(MandatoryField::MaxError)
    } else if res.matches.is_none() {
        Some(MandatoryField::Matches)
    } else if res.prob.is_none() {
        Some(MandatoryField::Prob)
    } else if res.epoch_equinox.is_none() {
        Some(MandatoryField::EpochEquinox)
    } else if res.epoch_proper_motion.is_none() {
        Some(MandatoryField::EpochProperMotion)
    } else if res.solve_time.is_none() {
        Some(MandatoryField::SolveTime)
    } else {
        None
    }
}

/// A star record carries both its pixel and its sky coordinate.
pub open spec fn star_complete<F>(s: EngineStar<F>) -> bool {
    s.image_coord.is_some() && s.celestial_coord.is_some()
}

/// The stars before index `n` are all complete.
pub open spec fn complete_before<F>(stars: Seq<EngineStar<F>>, n: int) -> bool {
    forall|j: int| 0 <= j < n ==> star_complete(#[trigger] stars[j])
}

/// Index `i` holds the first incomplete star.
pub open spec fn first_incomplete_at<F>(stars: Seq<EngineStar<F>>, i: int) -> bool {
    0 <= i < stars.len() && !star_complete(stars[i]) && complete_before(stars, i)
}

/// The solution's record of a complete star.
pub open spec fn star_info<F>(s: EngineStar<F>) -> StarInfo<F> {
    StarInfo { pixel: s.image_coord->0, sky_coord: s.celestial_coord->0, mag: s.magnitude }
}

/// The result meets the engine's contract for a match.
pub open spec fn acceptable<F>(res: EngineResult<F>) -> bool {
    &&& is_match(res)
    &&& first_missing_scalar(res).is_none()
    &&& complete_before(res.matched_stars@, res.matched_stars@.len() as int)
    &&& complete_before(res.catalog_stars@, res.catalog_stars@.len() as int)
}

/// `sol` is the plate solution that an acceptable result describes.
pub open spec fn is_solution_of<F>(sol: PlateSolution<F>, res: EngineResult<F>) -> bool {
    &&& Some(sol.image_sky_coord) == res.image_center_coords
    &&& Some(sol.roll) == res.roll
    &&& Some(sol.fov) == res.fov
    &&& Some(sol.distortion) == res.distortion
    &&& Some(sol.rmse) == res.rmse
    &&& Some(sol.p90_error) == res.p90e
    &&& Some(sol.max_error) == res.maxe
    &&& Some(sol.num_matches) == res.matches
    &&& Some(sol.prob) == res.prob
    &&& Some(sol.epoch_equinox) == res.epoch_equinox
    &&& Some(sol.epoch_proper_motion) == res.epoch_proper_motion
    &&& Some(sol.solve_time) == res.solve_time
    &&& sol.target_sky_coord@ == res.target_coords@
    &&& sol.target_pixel@ == res.target_sky_to_image_coords@
    &&& sol.matched_stars@ == res.matched_stars@.map_values(|s: EngineStar<F>| star_info(s))
    &&& sol.pattern_centroids@ == res.pattern_centroids@
    &&& sol.catalog_stars@ == res.catalog_stars@.map_values(|s: EngineStar<F>| star_info(s))
    &&& sol.rotation_matrix@ == seq_or_empty(res.rotation_matrix)
}

fn copy_scalars<F: Copy>(v: &Vec<F>) -> (r: Vec<F>)
    ensures
        r@ == v@,
{
    let mut out: Vec<F> = Vec::new();
    let mut i: usize = 0;
    while i < v.len()
        invariant
            i <= v.len(),
            out@ == v@.subrange(0, i as int),
        decreases v.len() - i,
    {
        out.push(v[i]);
        i += 1;
    }
    assert(v@.subrange(0, v.len() as int) == v@);
    out
}

/// Converts star records, or gives the index of the first one that lacks a
/// coordinate.
fn convert_stars<F: Copy>(v: &Vec<EngineStar<F>>) -> (r: Result<Vec<StarInfo<F>>, usize>)
    ensures
        r.is_ok() <==> complete_before(v@, v@.len() as int),
        r matches Ok(out) ==> out@ == v@.map_values(|s: EngineStar<F>| star_info(s)),
        r matches Err(i) ==> first_incomplete_at(v@, i as int),
{
    let mut out: Vec<StarInfo<F>> = Vec::new();
    let mut i: usize = 0;
    while i < v.len()
        invariant
            i <= v.len(),
            complete_before(v@, i as int),
            out@ == v@.subrange(0, i as int).map_values(|s: EngineStar<F>| star_info(s)),
        decreases v.len() - i,
    {
        let s = v[i];
        let pixel = match s.image_coord {
            Some(c) => c,
            None => return Err(i),
        };
        let sky_coord = match s.celestial_coord {
            Some(c) => c,
            None => return Err(i),
        };
        out.push(StarInfo { pixel, sky_coord, mag: s.magnitude });
        proof {
            assert(v@.subrange(0, i + 1) == v@.subrange(0, i as int).push(v@[i as int]));
        }
        i += 1;
    }
    assert(v@.subrange(0, v.len() as int) == v@);
    Ok(out)
}

/// `r` is what translating `res` gives: the error that the first breach of
/// the engine's contract calls for, or the solution that the result describes.
pub open spec fn translates_response<F>(
    res: EngineResult<F>,
    r: Result<PlateSolution<F>, SolveError>,
) -> bool {
    &&& (r.is_ok() <==> acceptable(res))
    &&& (!is_match(res) ==> r == Err::<PlateSolution<F>, SolveError>(
        SolveError::EngineStatus(res.status),
    ))
    &&& (is_match(res) && first_missing_scalar(res).is_some() ==> r == Err::<
        PlateSolution<F>,
        SolveError,
    >(SolveError::ProtocolViolation(first_missing_scalar(res)->0)))
    &&& (is_match(res) && first_missing_scalar(res).is_none() && !complete_before(
        res.matched_stars@,
        res.matched_stars@.len() as int,
    ) ==> (r matches Err(SolveError::ProtocolViolation(MandatoryField::MatchedStar(i)))
        && first_incomplete_at(res.matched_stars@, i as int)))
    &&& (is_match(res) && first_missing_scalar(res).is_none() && complete_before(
        res.matched_stars@,
        res.matched_stars@.len() as int,
    ) && !complete_before(res.catalog_stars@, res.catalog_stars@.len() as int) ==> (r matches Err(
        SolveError::ProtocolViolation(MandatoryField::CatalogStar(i)),
    ) && first_incomplete_at(res.catalog_stars@, i as int)))
    &&& (r matches Ok(sol) ==> is_solution_of(sol, res))
}

/// Maps the engine's result onto a plate solution, enforcing the engine's
/// contract.
///
/// A status other than a match is an error that carries the raw status. A
/// match without one of the mandatory fields, or with a star record lacking a
/// coordinate, is a protocol violation naming the first such field. Otherwise
/// the solution holds the result's values, absent lists read as empty.
pub fn translate_response<F: Copy>(res: &EngineResult<F>) -> (r: Result<PlateSolution<F>, SolveError>)
    ensures
        translates_response(*res, r),
{
    let matched = match res.status {
        Some(s) => s == STATUS_MATCH_FOUND,
        None => false,
    };
    if !matched {
        return Err(SolveError::EngineStatus(res.status));
    }
    let image_sky_coord = match res.image_center_coords {
        Some(v) => v,
        None => return Err(SolveError::ProtocolViolation(MandatoryField::ImageCenter)),
    };
    let roll = match res.roll {
        Some(v) => v,
        None => return Err(SolveError::ProtocolViolation(MandatoryField::Roll)),
    };
    let fov = match res.fov {
        Some(v) => v,
        None => return Err(SolveError::ProtocolViolation(MandatoryField::Fov)),
    };
    let distortion = match res.distortion {
        Some(v) => v,
        None => return Err(SolveError::ProtocolViolation(MandatoryField::Distortion)),
    };
    let rmse = match res.rmse {
        Some(v) => v,
        None => return Err(SolveError::ProtocolViolation(MandatoryField::Rmse)),
    };
    let p90_error = match res.p90e {
        Some(v) => v,
        None => return Err(SolveError::ProtocolViolation(MandatoryField::P90Error)),
    };
    let max_error = match res.maxe {
        Some(v) => v,
        None => return Err(SolveError::ProtocolViolation(MandatoryField::MaxError)),
    };
    let num_matches = match res.matches {
        Some(v) => v,
        None => return Err(SolveError::ProtocolViolation(MandatoryField::Matches)),
    };
    let prob = match res.prob {
        Some(v) => v,
        None => return Err(SolveError::ProtocolViolation(MandatoryField::Prob)),
    };
    let epoch_equinox = match res.epoch_equinox {
        Some(v) => v,
        None => return Err(SolveError::ProtocolViolation(MandatoryField::EpochEquinox)),
    };
    let epoch_proper_motion = match res.epoch_proper_motion {
        Some(v) => v,
        None => return Err(SolveError::ProtocolViolation(MandatoryField::EpochProperMotion)),
    };
    let solve_time = match res.solve_time {
        Some(v) => v,
        None => return Err(SolveError::ProtocolViolation(MandatoryField::SolveTime)),
    };
    let matched_stars = match convert_stars(&res.matched_stars) {
        Ok(v) => v,
        Err(i) => return Err(SolveError::ProtocolViolation(MandatoryField::MatchedStar(i))),
    };
    let catalog_stars = match convert_stars(&res.catalog_stars) {
        Ok(v) => v,
        Err(i) => return Err(SolveError::ProtocolViolation(MandatoryField::CatalogStar(i))),
    };
    let rotation_matrix = match &res.rotation_matrix {
        Some(m) => copy_scalars(m),
        None => Vec::new(),
    };
    Ok(PlateSolution {
        image_sky_coord,
        roll,
        fov,
        distortion,
        rmse,
        p90_error,
        max_error,
        num_matches,
        prob,
        epoch_equinox,
        epoch_proper_motion,
        solve_time,
        target_sky_coord: copy_celestial_coords(&res.target_coords),
        target_pixel: copy_image_coords(&res.target_sky_to_image_coords),
        matched_stars,
        pattern_centroids: copy_image_coords(&res.pattern_centroids),
        catalog_stars,
        rotation_matrix,
    })
}

/// Completes a solve from the outcome of the call to the engine: a transport
/// failure is reported as such, and an answer is translated.
pub fn solve_outcome<F: Copy>(outcome: &Result<EngineResult<F>, String>) -> (r: Result<
    PlateSolution<F>,
    SolveError,
>)
    ensures
        outcome is Err ==> r == Err::<PlateSolution<F>, SolveError>(
            SolveError::Transport(outcome->Err_0),
        ),
        outcome is Ok ==> translates_response(outcome->Ok_0, r),
{
    match outcome {
        Ok(res) => translate_response(res),
        Err(e) => Err(SolveError::Transport(e.clone())),
    }
}

} // verus!
