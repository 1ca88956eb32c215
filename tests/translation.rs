use tetra3_solver::request::{default_timeout, translate_request};
use tetra3_solver::response::{solve_outcome, translate_response};
use tetra3_solver::types::{
    CelestialCoord, EngineResult, EngineStar, ImageCoord, MandatoryField, SolveError,
    SolveExtension, SolveParams, SolveTimeout, WireDuration, STATUS_CANCELLED,
    STATUS_MATCH_FOUND, STATUS_NO_MATCH, STATUS_TIMEOUT, STATUS_TOO_FEW, STATUS_UNSPECIFIED,
};

fn params() -> SolveParams<f64> {
    SolveParams {
        fov_estimate: None,
        match_radius: Some(0.01),
        match_threshold: Some(1e-5),
        solve_timeout: None,
        distortion: Some(0.0),
        match_max_error: None,
    }
}

fn extension() -> SolveExtension<f64> {
    SolveExtension {
        target_pixel: None,
        target_sky_coord: None,
        return_matches: false,
        return_catalog: false,
        return_rotation_matrix: false,
    }
}

fn centroids(n: usize) -> Vec<ImageCoord<f64>> {
    (0..n).map(|i| ImageCoord { x: 10.0 * i as f64, y: 5.0 + i as f64 }).collect()
}

fn full_result() -> EngineResult<f64> {
    EngineResult {
        status: Some(STATUS_MATCH_FOUND),
        image_center_coords: Some(CelestialCoord { ra: 83.8, dec: -5.4 }),
        roll: Some(12.5),
        fov: Some(10.2),
        distortion: Some(-0.01),
        rmse: Some(3.5),
        p90e: Some(5.0),
        maxe: Some(7.5),
        matches: Some(21),
        prob: Some(1e-9),
        epoch_equinox: Some(2000),
        epoch_proper_motion: Some(2025.5),
        solve_time: Some(WireDuration { seconds: 0, nanos: 42_000_000 }),
        target_coords: vec![],
        target_sky_to_image_coords: vec![],
        matched_stars: vec![],
        pattern_centroids: vec![],
        catalog_stars: vec![],
        rotation_matrix: None,
    }
}

fn star(pixel: bool, sky: bool) -> EngineStar<f64> {
    EngineStar {
        image_coord: if pixel { Some(ImageCoord { x: 1.0, y: 2.0 }) } else { None },
        celestial_coord: if sky { Some(CelestialCoord { ra: 3.0, dec: 4.0 }) } else { None },
        magnitude: 5.5,
    }
}

#[test]
fn default_timeout_is_five_seconds() {
    assert_eq!(default_timeout(), SolveTimeout { secs: 5, nanos: 0 });
}

#[test]
fn absent_timeout_becomes_default() {
    let q = translate_request(&centroids(3), 640, 480, &extension(), &params()).unwrap();
    assert_eq!(q.solve_timeout, Some(WireDuration { seconds: 5, nanos: 0 }));
}

#[test]
fn explicit_timeout_is_kept_exactly() {
    let mut p = params();
    p.solve_timeout = Some(SolveTimeout { secs: 7, nanos: 250_000_000 });
    let q = translate_request(&centroids(3), 640, 480, &extension(), &p).unwrap();
    assert_eq!(q.solve_timeout, Some(WireDuration { seconds: 7, nanos: 250_000_000 }));
}

#[test]
fn timeout_beyond_wire_range_is_rejected() {
    let mut p = params();
    p.solve_timeout = Some(SolveTimeout { secs: u64::MAX, nanos: 0 });
    let r = translate_request(&centroids(3), 640, 480, &extension(), &p);
    assert_eq!(r.unwrap_err(), SolveError::TimeoutOutOfRange);
}

#[test]
fn oversized_image_is_rejected() {
    let r = translate_request(&centroids(1), (i32::MAX as usize) + 1, 480, &extension(), &params());
    assert_eq!(r.unwrap_err(), SolveError::ImageSizeOutOfRange);
    let r = translate_request(&centroids(1), 640, (i32::MAX as usize) + 1, &extension(), &params());
    assert_eq!(r.unwrap_err(), SolveError::ImageSizeOutOfRange);
    let r = translate_request(&centroids(1), i32::MAX as usize, 1, &extension(), &params());
    assert_eq!(r.unwrap().image_width, i32::MAX);
}

#[test]
fn target_lists_keep_count_and_order() {
    for (n, m) in [(0usize, 0usize), (0, 2), (3, 0), (4, 5)] {
        let mut e = extension();
        let pixels: Vec<ImageCoord<f64>> =
            (0..n).map(|i| ImageCoord { x: i as f64, y: 100.0 - i as f64 }).collect();
        let skies: Vec<CelestialCoord<f64>> =
            (0..m).map(|i| CelestialCoord { ra: 10.0 * i as f64, dec: -(i as f64) }).collect();
        e.target_pixel = Some(pixels.clone());
        e.target_sky_coord = Some(skies.clone());
        let q = translate_request(&centroids(2), 640, 480, &e, &params()).unwrap();
        assert_eq!(q.target_pixels, pixels);
        assert_eq!(q.target_sky_coords, skies);
    }
    let q = translate_request(&centroids(2), 640, 480, &extension(), &params()).unwrap();
    assert!(q.target_pixels.is_empty());
    assert!(q.target_sky_coords.is_empty());
}

#[test]
fn flags_and_tuning_copy_verbatim() {
    let mut p = params();
    p.match_max_error = Some(0.002);
    p.distortion = None;
    let mut e = extension();
    e.return_matches = true;
    e.return_rotation_matrix = true;
    let q = translate_request(&centroids(1), 640, 480, &e, &p).unwrap();
    assert_eq!(q.match_radius, Some(0.01));
    assert_eq!(q.match_threshold, Some(1e-5));
    assert_eq!(q.match_max_error, Some(0.002));
    assert_eq!(q.distortion, None);
    assert!(q.return_matches);
    assert!(!q.return_catalog);
    assert!(q.return_rotation_matrix);
    assert_eq!(q.fov_estimate, None);
    assert_eq!(q.fov_max_error, None);
}

#[test]
fn end_to_end_match_found() {
    let mut p = params();
    p.fov_estimate = Some((10.0, 1.0));
    let cs = centroids(5);
    let q = translate_request(&cs, 1920, 1080, &extension(), &p).unwrap();
    assert_eq!(q.star_centroids.len(), 5);
    assert_eq!(q.star_centroids, cs);
    assert_eq!(q.image_width, 1920);
    assert_eq!(q.image_height, 1080);
    assert_eq!(q.fov_estimate, Some(10.0));
    assert_eq!(q.fov_max_error, Some(1.0));
    assert_eq!(q.solve_timeout, Some(WireDuration { seconds: 5, nanos: 0 }));

    let sol = translate_response(&full_result()).unwrap();
    assert_eq!(sol.image_sky_coord, CelestialCoord { ra: 83.8, dec: -5.4 });
    assert_eq!(sol.roll, 12.5);
    assert_eq!(sol.fov, 10.2);
    assert_eq!(sol.distortion, -0.01);
    assert_eq!(sol.rmse, 3.5);
    assert_eq!(sol.p90_error, 5.0);
    assert_eq!(sol.max_error, 7.5);
    assert_eq!(sol.num_matches, 21);
    assert_eq!(sol.prob, 1e-9);
    assert_eq!(sol.epoch_equinox, 2000);
    assert_eq!(sol.epoch_proper_motion, 2025.5);
    assert_eq!(sol.solve_time, WireDuration { seconds: 0, nanos: 42_000_000 });
    assert!(sol.target_sky_coord.is_empty());
    assert!(sol.target_pixel.is_empty());
    assert!(sol.matched_stars.is_empty());
    assert!(sol.pattern_centroids.is_empty());
    assert!(sol.catalog_stars.is_empty());
    assert!(sol.rotation_matrix.is_empty());
}

#[test]
fn optional_lists_are_copied_in_order() {
    let mut res = full_result();
    res.target_coords = vec![CelestialCoord { ra: 1.0, dec: 2.0 }, CelestialCoord { ra: 3.0, dec: 4.0 }];
    res.target_sky_to_image_coords = vec![ImageCoord { x: 9.0, y: 8.0 }];
    res.pattern_centroids = vec![ImageCoord { x: 1.5, y: 2.5 }, ImageCoord { x: 3.5, y: 4.5 }];
    res.matched_stars = vec![star(true, true)];
    res.catalog_stars = vec![star(true, true), star(true, true)];
    res.rotation_matrix = Some(vec![1.0, 0.0, 0.0, 0.0, 1.0, 0.0, 0.0, 0.0, 1.0]);
    let sol = translate_response(&res).unwrap();
    assert_eq!(sol.target_sky_coord, res.target_coords);
    assert_eq!(sol.target_pixel, res.target_sky_to_image_coords);
    assert_eq!(sol.pattern_centroids, res.pattern_centroids);
    assert_eq!(sol.matched_stars.len(), 1);
    assert_eq!(sol.matched_stars[0].pixel, ImageCoord { x: 1.0, y: 2.0 });
    assert_eq!(sol.matched_stars[0].sky_coord, CelestialCoord { ra: 3.0, dec: 4.0 });
    assert_eq!(sol.matched_stars[0].mag, 5.5);
    assert_eq!(sol.catalog_stars.len(), 2);
    assert_eq!(sol.rotation_matrix, vec![1.0, 0.0, 0.0, 0.0, 1.0, 0.0, 0.0, 0.0, 1.0]);
}

#[test]
fn non_match_statuses_are_engine_errors() {
    for status in [
        Some(STATUS_NO_MATCH),
        Some(STATUS_TIMEOUT),
        Some(STATUS_CANCELLED),
        Some(STATUS_TOO_FEW),
        Some(STATUS_UNSPECIFIED),
        Some(77),
        None,
    ] {
        let mut res = full_result();
        res.status = status;
        assert_eq!(translate_response(&res).unwrap_err(), SolveError::EngineStatus(status));
    }
}

#[test]
fn no_match_reports_status_even_without_fields() {
    let mut res = full_result();
    res.status = Some(STATUS_NO_MATCH);
    res.roll = None;
    res.image_center_coords = None;
    assert_eq!(translate_response(&res).unwrap_err(), SolveError::EngineStatus(Some(STATUS_NO_MATCH)));
}

fn assert_missing(edit: fn(&mut EngineResult<f64>), field: MandatoryField) {
    let mut res = full_result();
    edit(&mut res);
    assert_eq!(translate_response(&res).unwrap_err(), SolveError::ProtocolViolation(field));
}

#[test]
fn missing_image_center_is_violation() {
    assert_missing(|r| r.image_center_coords = None, MandatoryField::ImageCenter);
}

#[test]
fn missing_roll_is_violation() {
    assert_missing(|r| r.roll = None, MandatoryField::Roll);
}

#[test]
fn missing_fov_is_violation() {
    assert_missing(|r| r.fov = None, MandatoryField::Fov);
}

#[test]
fn missing_distortion_is_violation() {
    assert_missing(|r| r.distortion = None, MandatoryField::Distortion);
}

#[test]
fn missing_rmse_is_violation() {
    assert_missing(|r| r.rmse = None, MandatoryField::Rmse);
}

#[test]
fn missing_p90_error_is_violation() {
    assert_missing(|r| r.p90e = None, MandatoryField::P90Error);
}

#[test]
fn missing_max_error_is_violation() {
    assert_missing(|r| r.maxe = None, MandatoryField::MaxError);
}

#[test]
fn missing_matches_is_violation() {
    assert_missing(|r| r.matches = None, MandatoryField::Matches);
}

#[test]
fn missing_prob_is_violation() {
    assert_missing(|r| r.prob = None, MandatoryField::Prob);
}

#[test]
fn missing_epoch_equinox_is_violation() {
    assert_missing(|r| r.epoch_equinox = None, MandatoryField::EpochEquinox);
}

#[test]
fn missing_epoch_proper_motion_is_violation() {
    assert_missing(|r| r.epoch_proper_motion = None, MandatoryField::EpochProperMotion);
}

#[test]
fn missing_solve_time_is_violation() {
    assert_missing(|r| r.solve_time = None, MandatoryField::SolveTime);
}

#[test]
fn first_missing_field_is_reported() {
    assert_missing(
        |r| {
            r.p90e = None;
            r.prob = None;
        },
        MandatoryField::P90Error,
    );
}

#[test]
fn incomplete_matched_star_is_violation() {
    assert_missing(
        |r| r.matched_stars = vec![star(true, true), star(true, false), star(false, true)],
        MandatoryField::MatchedStar(1),
    );
}

#[test]
fn incomplete_catalog_star_is_violation() {
    assert_missing(
        |r| r.catalog_stars = vec![star(false, true)],
        MandatoryField::CatalogStar(0),
    );
}

#[test]
fn transport_failure_is_reported() {
    let out: Result<EngineResult<f64>, String> = Err("connection reset".to_string());
    assert_eq!(solve_outcome(&out).unwrap_err(), SolveError::Transport("connection reset".to_string()));
}

#[test]
fn outcome_no_match_then_match() {
    let mut res = full_result();
    res.status = Some(STATUS_NO_MATCH);
    let first: Result<EngineResult<f64>, String> = Ok(res);
    assert_eq!(solve_outcome(&first).unwrap_err(), SolveError::EngineStatus(Some(STATUS_NO_MATCH)));
    let second: Result<EngineResult<f64>, String> = Ok(full_result());
    assert_eq!(solve_outcome(&second).unwrap().num_matches, 21);
}
