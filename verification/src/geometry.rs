//! Positions, orientations and velocities of units, and when two of them count as equal.
//!
//! Every quantity is a fixed-point integer in billionths of its unit (degrees, meters,
//! meters per second), so that the tolerances below are exact integers.
use vstd::prelude::*;

verus! {

/// The tolerance for the components of a direction or velocity vector (10^-6).
pub open spec fn vector_epsilon() -> int {
    1_000
}

/// The tolerance for latitude and longitude in degrees (10^-6).
pub open spec fn lat_lon_epsilon() -> int {
    1_000
}

/// The tolerance for altitudes in meters (10^-3).
pub open spec fn altitude_epsilon() -> int {
    1_000_000
}

/// The tolerance for distances in meters (10^-3).
pub open spec fn meters_epsilon() -> int {
    1_000_000
}

/// The tolerance for angles in degrees (10^-2).
pub open spec fn degrees_epsilon() -> int {
    10_000_000
}

/// The tolerance for speeds in meters per second (10^-3).
pub open spec fn speed_epsilon() -> int {
    1_000_000
}

/// Whether `a` and `b` differ by less than `eps`.
pub open spec fn within(a: int, b: int, eps: int) -> bool {
    -eps < a - b < eps
}

/// Whether `a` and `b` differ by less than `eps`.
fn close(a: i64, b: i64, eps: i64) -> (r: bool)
    requires
        eps > 0,
    ensures
        r == within(a as int, b as int, eps as int),
{
    let d: i128 = (a as i128) - (b as i128);
    -(eps as i128) < d && d < (eps as i128)
}

/// A vector in the DCS coordinate system (+x north, +y up, +z east).
#[derive(Clone, Copy, Debug, PartialEq, Eq, Structural)]
pub struct Vector {
    pub x: i64,
    pub y: i64,
    pub z: i64,
}

/// A position: latitude, longitude, altitude, and the offset from the map's origin.
#[derive(Clone, Copy, Debug, PartialEq, Eq, Structural)]
pub struct Position {
    pub lat: i64,
    pub lon: i64,
    pub alt: i64,
    pub u: i64,
    pub v: i64,
}

/// The orientation of a unit: its angles and its direction vectors.
#[derive(Clone, Copy, Debug, PartialEq, Eq, Structural)]
pub struct Orientation {
    pub heading: i64,
    pub yaw: i64,
    pub pitch: i64,
    pub roll: i64,
    pub forward: Option<Vector>,
    pub right: Option<Vector>,
    pub up: Option<Vector>,
}

/// The velocity of a unit: its heading, its speed and its velocity vector.
#[derive(Clone, Copy, Debug, PartialEq, Eq, Structural)]
pub struct Velocity {
    pub heading: i64,
    pub speed: i64,
    pub velocity: Option<Vector>,
}

/// Two vectors count as equal when each component differs by less than 10^-6.
pub open spec fn vectors_close(a: Vector, b: Vector) -> bool {
    &&& within(a.x as int, b.x as int, vector_epsilon())
    &&& within(a.y as int, b.y as int, vector_epsilon())
    &&& within(a.z as int, b.z as int, vector_epsilon())
}

/// Two optional vectors count as equal unless both are there and they differ.
pub open spec fn optional_vectors_close(a: Option<Vector>, b: Option<Vector>) -> bool {
    match (a, b) {
        (Some(a), Some(b)) => vectors_close(a, b),
        _ => true,
    }
}

/// Two positions count as equal when latitude and longitude differ by less than 10^-6
/// degrees, and altitude and map offsets by less than a millimeter.
pub open spec fn positions_close(l: Position, r: Position) -> bool {
    &&& within(l.lat as int, r.lat as int, lat_lon_epsilon())
    &&& within(l.lon as int, r.lon as int, lat_lon_epsilon())
    &&& within(l.alt as int, r.alt as int, altitude_epsilon())
    &&& within(l.u as int, r.u as int, meters_epsilon())
    &&& within(l.v as int, r.v as int, meters_epsilon())
}

/// Two orientations count as equal when their direction vectors do (where both have
/// them) and their angles differ by less than 0.01 degrees.
pub open spec fn orientations_close(l: Orientation, r: Orientation) -> bool {
    &&& optional_vectors_close(l.forward, r.forward)
    &&& optional_vectors_close(l.right, r.right)
    &&& optional_vectors_close(l.up, r.up)
    &&& within(l.heading as int, r.heading as int, degrees_epsilon())
    &&& within(l.yaw as int, r.yaw as int, degrees_epsilon())
    &&& within(l.pitch as int, r.pitch as int, degrees_epsilon())
    &&& within(l.roll as int, r.roll as int, degrees_epsilon())
}

/// Two velocities count as equal when their vectors do (where both have them), their
/// headings differ by less than 0.01 degrees and their speeds by less than 1 mm/s.
pub open spec fn velocities_close(l: Velocity, r: Velocity) -> bool {
    &&& optional_vectors_close(l.velocity, r.velocity)
    &&& within(l.heading as int, r.heading as int, degrees_epsilon())
    &&& within(l.speed as int, r.speed as int, speed_epsilon())
}

/// Whether two vectors are equal, taking the tolerance into account.
pub fn vector_equalish(a: &Vector, b: &Vector) -> (r: bool)
    ensures
        r == vectors_close(*a, *b),
{
    close(a.x, b.x, 1_000) && close(a.y, b.y, 1_000) && close(a.z, b.z, 1_000)
}

/// Whether two distances in meters are equal, taking the tolerance into account.
pub fn meters_equalish(a: i64, b: i64) -> (r: bool)
    ensures
        r == within(a as int, b as int, meters_epsilon()),
{
    close(a, b, 1_000_000)
}

/// Whether two angles in degrees are equal, taking the tolerance into account.
pub fn degrees_equalish(a: i64, b: i64) -> (r: bool)
    ensures
        r == within(a as int, b as int, degrees_epsilon()),
{
    close(a, b, 10_000_000)
}

/// Whether two speeds are equal, taking the tolerance into account.
pub fn speed_equalish(a: i64, b: i64) -> (r: bool)
    ensures
        r == within(a as int, b as int, speed_epsilon()),
{
    close(a, b, 1_000_000)
}

/// Whether two positions are equal, taking the tolerances into account.
pub fn position_equalish(l: &Position, r: &Position) -> (res: bool)
    ensures
        res == positions_close(*l, *r),
{
    close(l.lat, r.lat, 1_000) && close(l.lon, r.lon, 1_000) && close(l.alt, r.alt, 1_000_000)
        && meters_equalish(l.u, r.u) && meters_equalish(l.v, r.v)
}

fn optional_vector_equalish(a: &Option<Vector>, b: &Option<Vector>) -> (r: bool)
    ensures
        r == optional_vectors_close(*a, *b),
{
    match (a, b) {
        (Some(a), Some(b)) => vector_equalish(a, b),
        _ => true,
    }
}

/// Whether two orientations are equal, taking the tolerances into account.
pub fn orientation_equalish(l: &Orientation, r: &Orientation) -> (res: bool)
    ensures
        res == orientations_close(*l, *r),
{
    if !optional_vector_equalish(&l.forward, &r.forward) {
        return false;
    }
    if !optional_vector_equalish(&l.right, &r.right) {
        return false;
    }
    if !optional_vector_equalish(&l.up, &r.up) {
        return false;
    }
    if !degrees_equalish(l.heading, r.heading) || !degrees_equalish(l.yaw, r.yaw)
        || !degrees_equalish(l.pitch, r.pitch) || !degrees_equalish(l.roll, r.roll) {
        return false;
    }
    true
}

/// Whether two velocities are equal, taking the tolerances into account.
pub fn velocity_equalish(l: &Velocity, r: &Velocity) -> (res: bool)
    ensures
        res == velocities_close(*l, *r),
{
    if !optional_vector_equalish(&l.velocity, &r.velocity) {
        return false;
    }
    if !degrees_equalish(l.heading, r.heading) {
        return false;
    }
    if !speed_equalish(l.speed, r.speed) {
        return false;
    }
    true
}

/// Every position, orientation and velocity counts as equal to itself, and counting as
/// equal does not depend on the order of the two.
pub proof fn lemma_equalish_reflexive_symmetric(
    p: Position,
    q: Position,
    o: Orientation,
    n: Orientation,
    v: Velocity,
    w: Velocity,
)
    ensures
        positions_close(p, p),
        orientations_close(o, o),
        velocities_close(v, v),
        positions_close(p, q) == positions_close(q, p),
        orientations_close(o, n) == orientations_close(n, o),
        velocities_close(v, w) == velocities_close(w, v),
{
}

/// Two vectors count as equal exactly when each component differs by less than 10^-6
/// (1_000 billionths).
pub proof fn lemma_vector_tolerance(a: Vector, b: Vector)
    ensures
        vectors_close(a, b) <==> (-1_000 < a.x - b.x < 1_000 && -1_000 < a.y - b.y < 1_000
            && -1_000 < a.z - b.z < 1_000),
{
}

/// Two positions count as equal exactly when latitude and longitude differ by less than
/// 10^-6 degrees (1_000 billionths), and altitude and the map offsets `u` and `v` by less
/// than a millimeter (1_000_000 billionths of a meter). So a climb of a millimeter or more
/// is a change.
pub proof fn lemma_position_tolerances(l: Position, r: Position)
    ensures
        positions_close(l, r) <==> ({
            &&& -1_000 < l.lat - r.lat < 1_000
            &&& -1_000 < l.lon - r.lon < 1_000
            &&& -1_000_000 < l.alt - r.alt < 1_000_000
            &&& -1_000_000 < l.u - r.u < 1_000_000
            &&& -1_000_000 < l.v - r.v < 1_000_000
        }),
{
}

/// Two orientations count as equal exactly when heading, yaw, pitch and roll differ by less
/// than 0.01 degrees (10_000_000 billionths) and each direction vector that both have
/// differs by less than 10^-6 in each component.
pub proof fn lemma_orientation_tolerances(l: Orientation, r: Orientation)
    ensures
        orientations_close(l, r) <==> ({
            &&& -10_000_000 < l.heading - r.heading < 10_000_000
            &&& -10_000_000 < l.yaw - r.yaw < 10_000_000
            &&& -10_000_000 < l.pitch - r.pitch < 10_000_000
            &&& -10_000_000 < l.roll - r.roll < 10_000_000
            &&& (l.forward is Some && r.forward is Some ==> (-1_000 < l.forward.unwrap().x - r.forward.unwrap().x < 1_000 && -1_000 < l.forward.unwrap().y - r.forward.unwrap().y < 1_000 && -1_000 < l.forward.unwrap().z - r.forward.unwrap().z < 1_000))
            &&& (l.right is Some && r.right is Some ==> (-1_000 < l.right.unwrap().x - r.right.unwrap().x < 1_000 && -1_000 < l.right.unwrap().y - r.right.unwrap().y < 1_000 && -1_000 < l.right.unwrap().z - r.right.unwrap().z < 1_000))
            &&& (l.up is Some && r.up is Some ==> (-1_000 < l.up.unwrap().x - r.up.unwrap().x < 1_000 && -1_000 < l.up.unwrap().y - r.up.unwrap().y < 1_000 && -1_000 < l.up.unwrap().z - r.up.unwrap().z < 1_000))
        }),
{
}

/// Two velocities count as equal exactly when the headings differ by less than 0.01 degrees
/// (10_000_000 billionths), the speeds by less than 1 mm/s (1_000_000 billionths), and
/// the velocity vectors, where both have one, by less than 10^-6 in each component.
pub proof fn lemma_velocity_tolerances(l: Velocity, r: Velocity)
    ensures
        velocities_close(l, r) <==> ({
            &&& -10_000_000 < l.heading - r.heading < 10_000_000
            &&& -1_000_000 < l.speed - r.speed < 1_000_000
            &&& (l.velocity is Some && r.velocity is Some ==> (-1_000 < l.velocity.unwrap().x - r.velocity.unwrap().x < 1_000 && -1_000 < l.velocity.unwrap().y - r.velocity.unwrap().y < 1_000 && -1_000 < l.velocity.unwrap().z - r.velocity.unwrap().z < 1_000))
        }),
{
}

} // verus!
