//! Verified core of a build-pipeline regression check: it composes the
//! command line for an external contract-build tool, locates the produced
//! WebAssembly artifacts, and scans each artifact for the absolute path of
//! the local package registry, asserting that path-stripping builds do not
//! embed it while non-stripping builds do.

pub mod artifact;
pub mod command;
pub mod scan;
pub mod text;

use vstd::prelude::*;

use crate::artifact::all_match;
use crate::scan::{lossy_decode_of, scan_all};
use crate::text::contains_seq;

verus! {

/// Whether the build toolchain is allowed to strip absolute filesystem
/// paths from the artifact it produces.
#[derive(Clone, Copy, Debug, PartialEq, Eq, Structural)]
pub enum Strip {
    Yes,
    No,
}

/// A stripped build must not embed the registry path; a non-stripped build
/// must embed it.
pub fn expected_path_presence(strip: Strip) -> (b: bool)
    ensures
        b == (strip == Strip::No),
{
    match strip {
        Strip::Yes => false,
        Strip::No => true,
    }
}

/// Whether one artifact's scan result is the one its strip mode owes: the
/// registry path must be absent after a stripping build and present after
/// a non-stripping one.
pub fn scan_matches_mode(found: bool, strip: Strip) -> (r: bool)
    ensures
        r == (found == (strip == Strip::No)),
{
    match strip {
        Strip::Yes => !found,
        Strip::No => found,
    }
}

/// Check one build's artifacts against its strip mode: the run passes
/// exactly when every artifact shows the owed registry-path presence; a
/// single violating artifact fails the whole run.
pub fn check_artifacts(artifacts: &Vec<Vec<u8>>, prefix: &str, strip: Strip) -> (r: bool)
    ensures
        r == (forall|i: int|
            0 <= i < artifacts@.len() ==> contains_seq(lossy_decode_of(artifacts@[i]@), prefix@)
                == (strip == Strip::No)),
{
    let scans = scan_all(artifacts, prefix);
    let expected = expected_path_presence(strip);
    let r = all_match(&scans, expected);
    proof {
        if r {
            assert forall|i: int| 0 <= i < artifacts@.len() implies contains_seq(
                lossy_decode_of(artifacts@[i]@),
                prefix@,
            ) == (strip == Strip::No) by {
                assert(scans@[i] == expected);
            }
        } else {
            assert(exists|i: int|
                0 <= i < scans@.len() && #[trigger] scans@[i] != expected);
            let i = choose|i: int| 0 <= i < scans@.len() && #[trigger] scans@[i] != expected;
            assert(contains_seq(lossy_decode_of(artifacts@[i]@), prefix@) != (strip
                == Strip::No));
        }
    }
    r
}

} // verus!
