//! The absolute-path scanner: decodes an artifact's bytes permissively as
//! text and tests whether the local package registry's path occurs in it.

use vstd::prelude::*;

use crate::text::{contains_seq, contains_substr, ends_with_seq};

verus! {

/// What `String::from_utf8_lossy` returns for a given byte sequence: a
/// function of the bytes alone (invalid sequences become replacement
/// characters, valid UTF-8 passes through unchanged).
pub uninterp spec fn lossy_decode_of(bytes: Seq<u8>) -> Seq<char>;

/// Relies on `String::from_utf8_lossy`: decodes the bytes as UTF-8,
/// replacing invalid sequences rather than failing; the result depends on
/// the bytes alone.
#[verifier::external_body]
fn decode_lossy(bytes: &[u8]) -> (r: String)
    ensures
        r@ == lossy_decode_of(bytes@),
{
    String::from_utf8_lossy(bytes).into_owned()
}

/// Relies on `home::cargo_home`: looks up the local package-registry home
/// directory. The result depends on the environment, so nothing is promised
/// of it; an undiscoverable home directory becomes `None`.
#[verifier::external_body]
fn cargo_home_dir() -> (r: Option<String>)
{
    match home::cargo_home() {
        Ok(p) => Some(p.display().to_string()),
        Err(_) => None,
    }
}

/// The fixed suffix appended to the registry home to form the path whose
/// presence in an artifact indicates a path-embedding leak.
pub fn registry_suffix() -> (r: &'static str)
    ensures
        r@ == "/registry/src/"@,
{
    "/registry/src/"
}

/// The full registry prefix to scan for: the registry home directory
/// followed by `/registry/src/`.
pub fn registry_prefix(cargo_home: &str) -> (r: String)
    ensures
        r@ == cargo_home@ + "/registry/src/"@,
{
    let s = String::from_str(cargo_home);
    s.concat(registry_suffix())
}

/// The registry prefix built from the environment's registry home, or
/// `None` when the home directory cannot be discovered. Whatever home the
/// environment reports, the result ends with `/registry/src/`.
pub fn registry_prefix_from_env() -> (r: Option<String>)
    ensures
        r matches Some(p) ==> ends_with_seq(p@, "/registry/src/"@),
{
    match cargo_home_dir() {
        Some(h) => {
            let p = registry_prefix(h.as_str());
            proof {
                assert(p@.subrange(
                    p@.len() - "/registry/src/"@.len(),
                    p@.len() as int,
                ) =~= "/registry/src/"@);
            }
            Some(p)
        },
        None => None,
    }
}

/// Scan an artifact's bytes: decode them permissively as text and test
/// whether the registry prefix occurs anywhere in the decoded text, as an
/// exact substring.
pub fn scan_artifact(bytes: &[u8], prefix: &str) -> (r: bool)
    ensures
        r == contains_seq(lossy_decode_of(bytes@), prefix@),
{
    let text = decode_lossy(bytes);
    contains_substr(text.as_str(), prefix)
}

/// Scan every artifact of one build in turn, keeping the results in order.
pub fn scan_all(artifacts: &Vec<Vec<u8>>, prefix: &str) -> (r: Vec<bool>)
    ensures
        r@.len() == artifacts@.len(),
        forall|i: int|
            0 <= i < artifacts@.len() ==> r@[i] == contains_seq(
                lossy_decode_of(artifacts@[i]@),
                prefix@,
            ),
{
    let mut r: Vec<bool> = Vec::new();
    let mut i: usize = 0;
    while i < artifacts.len()
        invariant
            0 <= i <= artifacts@.len(),
            r@.len() == i,
            forall|k: int|
                0 <= k < i ==> r@[k] == contains_seq(lossy_decode_of(artifacts@[k]@), prefix@),
        decreases artifacts@.len() - i,
    {
        let b = scan_artifact(artifacts[i].as_slice(), prefix);
        r.push(b);
        i = i + 1;
    }
    r
}

} // verus!
