//! The secure random source, provided by the `rand` crate.
use rand::os::OsRng;
use rand::Rng;
use vstd::prelude::*;

verus! {

/// The operating system's random number generator of `rand`.
#[verifier::external_type_specification]
#[verifier::external_body]
pub struct ExOsRng(OsRng);

/// The error that opening the operating system's random source can report.
#[verifier::external_type_specification]
#[verifier::external_body]
pub struct ExIoError(std::io::Error);

/// Relies on `rand::os::OsRng::new`: opens the operating system's secure
/// random source, or returns the I/O error that prevented it.
#[verifier::external_body]
pub(crate) fn open_os_rng() -> (r: std::io::Result<OsRng>) {
    OsRng::new()
}

/// Relies on `rand::Rng::gen_range` of `OsRng`: a value `v` with
/// `0 <= v < high`, drawn uniformly by rejection sampling. It panics when
/// its bounds are empty, which `requires` leaves out; beyond that only when
/// the operating system fails to deliver random bytes, which no argument
/// can rule out.
#[verifier::external_body]
pub(crate) fn draw_below(rng: &mut OsRng, high: u32) -> (r: u32)
    requires
        0 < high,
    ensures
        r < high,
{
    rng.gen_range(0, high)
}

} // verus!
