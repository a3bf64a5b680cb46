//! Adapters around the external marker-detection and pose-estimation
//! capabilities. The detection engine decodes tags from a luminance image;
//! the pose solver recovers a tag's position and orientation from one
//! detection and the camera parameters. Both are consumed as black boxes: their
//! results depend on the image, so the contracts here state only what
//! holds of every outcome, and the verified logic works on the normalized
//! observations.

use vstd::prelude::*;

use crate::geometry::{corners_degenerate, CornerSet, Point, TagObservation};

verus! {

#[verifier::external_type_specification]
#[verifier::external_body]
pub struct ExDetector(apriltag::Detector);

#[verifier::external_type_specification]
#[verifier::external_body]
pub struct ExDetectorBuilder(apriltag::DetectorBuilder);

#[verifier::external_type_specification]
#[verifier::external_body]
pub struct ExFamily(apriltag::Family);

#[verifier::external_type_specification]
#[verifier::external_body]
pub struct ExDetection(apriltag::Detection);

#[verifier::external_type_specification]
#[verifier::external_body]
pub struct ExImage(apriltag::Image);

#[verifier::external_type_specification]
#[verifier::external_body]
pub struct ExPose(apriltag::Pose);

#[verifier::external_type_specification]
#[verifier::external_body]
pub struct ExTagParams(apriltag::TagParams);

/// Relies on apriltag::Family::tag_16h5: the fixed tag family this
/// detector is configured with.
#[verifier::external_body]
fn family_tag_16h5() -> apriltag::Family {
    apriltag::Family::tag_16h5()
}

/// Relies on apriltag::DetectorBuilder::new: an empty detector builder.
#[verifier::external_body]
fn builder_new() -> apriltag::DetectorBuilder {
    apriltag::DetectorBuilder::new()
}

/// Relies on apriltag::DetectorBuilder::add_family_bits: appends a tag
/// family, with the number of bits the decoder may correct.
#[verifier::external_body]
fn builder_add_family(
    builder: apriltag::DetectorBuilder,
    family: apriltag::Family,
    bits_corrected: usize,
) -> apriltag::DetectorBuilder {
    builder.add_family_bits(family, bits_corrected)
}

/// Relies on apriltag::DetectorBuilder::build: creates the detection
/// engine; fails when no family was added or the engine cannot be
/// allocated.
#[verifier::external_body]
fn builder_build(builder: apriltag::DetectorBuilder) -> Option<apriltag::Detector> {
    builder.build().ok()
}

/// Relies on apriltag::Detector::detect: runs the detection engine on one
/// luminance image; which detections come back depends on the image.
#[verifier::external_body]
fn detect_raw(detector: &mut apriltag::Detector, frame: &apriltag::Image) -> Vec<
    apriltag::Detection,
> {
    detector.detect(frame)
}

/// Relies on apriltag::Detection::id: the decoded marker identity.
#[verifier::external_body]
fn detection_id(det: &apriltag::Detection) -> usize {
    det.id()
}

/// Relies on apriltag::Detection::hamming: the Hamming distance between
/// the decoded bits and the matched tag code.
#[verifier::external_body]
fn detection_hamming(det: &apriltag::Detection) -> usize {
    det.hamming()
}

/// Relies on apriltag::Detection::center: the sub-pixel center, cast to
/// integer pixel units.
#[verifier::external_body]
fn detection_center(det: &apriltag::Detection) -> Point {
    let c = det.center();
    Point { x: c[0] as i32, y: c[1] as i32 }
}

/// Relies on apriltag::Detection::corners: the four sub-pixel corners in
/// the detector's winding order, cast to integer pixel units.
#[verifier::external_body]
fn detection_corners(det: &apriltag::Detection) -> CornerSet {
    let p = det.corners();
    CornerSet {
        c0: Point { x: p[0][0] as i32, y: p[0][1] as i32 },
        c1: Point { x: p[1][0] as i32, y: p[1][1] as i32 },
        c2: Point { x: p[2][0] as i32, y: p[2][1] as i32 },
        c3: Point { x: p[3][0] as i32, y: p[3][1] as i32 },
    }
}

/// Relies on apriltag::Detection::estimate_tag_pose: asks the solver for
/// the tag's pose under the given camera parameters; absent when the
/// solver finds no solution.
#[verifier::external_body]
fn solve_pose(det: &apriltag::Detection, params: &apriltag::TagParams) -> Option<apriltag::Pose> {
    det.estimate_tag_pose(params)
}

/// One frame's worth of detector output: the engine's raw detections and,
/// one per raw detection, the normalized observation read out of it.
pub struct DetectionBatch {
    pub raw: Vec<apriltag::Detection>,
    pub observations: Vec<TagObservation>,
}

/// Builds the detection engine for the fixed tag family, with the given
/// number of correctable bits. Absent when the engine cannot be created;
/// the caller treats that as fatal.
pub fn new_detector(bits_corrected: usize) -> Option<apriltag::Detector> {
    let family = family_tag_16h5();
    let builder = builder_new();
    let builder = builder_add_family(builder, family, bits_corrected);
    builder_build(builder)
}

/// Reads one raw detection out into a plain observation: identity,
/// corners, center and Hamming distance. The values come from the opaque
/// detection, so nothing more can be said of them here; all downstream
/// geometry is verified over the observation for every value it may hold.
pub fn make_observation(det: &apriltag::Detection) -> TagObservation {
    TagObservation {
        id: detection_id(det),
        corners: detection_corners(det),
        center: detection_center(det),
        hamming: detection_hamming(det),
    }
}

/// The Detection Adapter: runs the engine on one luminance frame and
/// normalizes its output, one observation per detection, in the engine's
/// order. A frame with no decodable markers yields an empty batch, not a
/// failure.
pub fn detect_tags(detector: &mut apriltag::Detector, frame: &apriltag::Image) -> (batch:
    DetectionBatch)
    ensures
        batch.observations@.len() == batch.raw@.len(),
{
    let raw = detect_raw(detector, frame);
    let mut observations: Vec<TagObservation> = Vec::new();
    let mut i: usize = 0;
    while i < raw.len()
        invariant
            i <= raw@.len(),
            observations@.len() == i,
        decreases raw@.len() - i,
    {
        let obs = make_observation(&raw[i]);
        observations.push(obs);
        i = i + 1;
    }
    DetectionBatch { raw, observations }
}

/// The Pose Adapter: the optional pose of one observation. Degenerate
/// corners (collinear, or enclosing no area) are answered with absence
/// directly, without consulting the solver; otherwise the solver decides,
/// and may itself answer with absence. Absence is a normal outcome, never
/// an error.
pub fn estimate_pose(
    det: &apriltag::Detection,
    obs: &TagObservation,
    params: &apriltag::TagParams,
) -> (pose: Option<apriltag::Pose>)
    ensures
        corners_degenerate(obs.corners) ==> pose is None,
{
    if crate::geometry::pose_admissible(&obs.corners) {
        solve_pose(det, params)
    } else {
        None
    }
}

} // verus!
