//! Locating build artifacts: the fixed output path derived from the
//! manifest directory, and the directory-scan strategy that picks every
//! file with the binary-format extension.

use vstd::prelude::*;

use crate::text::{ends_with_seq, ends_with_str};

verus! {

/// The position of the last `/` in `s`, if any.
pub open spec fn last_slash_at(s: Seq<char>) -> Option<int>
    decreases s.len(),
{
    if s.len() == 0 {
        None
    } else if s[s.len() - 1] == '/' {
        Some(s.len() - 1)
    } else {
        last_slash_at(s.drop_last())
    }
}

/// The directory part of a path: everything before the last `/`, or
/// nothing where the path has no separator.
pub open spec fn parent_of(s: Seq<char>) -> Option<Seq<char>> {
    match last_slash_at(s) {
        Some(j) => Some(s.subrange(0, j)),
        None => None,
    }
}

/// The directory holding the file that `path` names.
pub fn parent_dir(path: &str) -> (r: Option<String>)
    ensures
        r.deep_view() == parent_of(path@),
{
    let len = path.unicode_len();
    proof {
        assert(path@.subrange(0, path@.len() as int) =~= path@);
    }
    let mut i: usize = len;
    loop
        invariant
            0 <= i <= len,
            len == path@.len(),
            last_slash_at(path@) == last_slash_at(path@.subrange(0, i as int)),
        decreases i,
    {
        if i == 0 {
            proof {
                assert(path@.subrange(0, 0) =~= Seq::<char>::empty());
            }
            return None;
        }
        let c = path.get_char(i - 1);
        proof {
            assert(path@.subrange(0, i as int).last() == path@[i - 1]);
            assert(path@.subrange(0, i as int).drop_last() =~= path@.subrange(0, i - 1));
        }
        if c == '/' {
            let d = path.substring_char(0, i - 1);
            return Some(String::from_str(d));
        }
        i = i - 1;
    }
}

/// The fixed artifact path: the manifest directory, the target directory
/// for the WebAssembly triple, and the contract's `.wasm` file name.
pub fn artifact_path(manifest_dir: &str, contract_name: &str) -> (r: String)
    ensures
        r@ == manifest_dir@ + "/target/wasm32-unknown-unknown/release/"@ + contract_name@
            + ".wasm"@,
{
    let s = String::from_str(manifest_dir);
    let s = s.concat("/target/wasm32-unknown-unknown/release/");
    let s = s.concat(contract_name);
    s.concat(".wasm")
}

/// A file name in the binary format the build produces: it ends in `.wasm`.
pub open spec fn wasm_named(s: Seq<char>) -> bool {
    ends_with_seq(s, ".wasm"@)
}

/// Whether a file name names a build artifact.
pub fn is_wasm_artifact(name: &str) -> (b: bool)
    ensures
        b == wasm_named(name@),
{
    ends_with_str(name, ".wasm")
}

/// A directory listing narrowed to the names in the binary format.
pub open spec fn wasm_filter(names: Seq<Seq<char>>) -> Seq<Seq<char>> {
    names.filter(|s: Seq<char>| wasm_named(s))
}

/// Pick out of a directory listing every file in the binary format, in
/// order: exactly the names ending in `.wasm`, each of which the run must
/// scan.
pub fn filter_artifacts(names: &Vec<String>) -> (r: Vec<String>)
    ensures
        r.deep_view() == wasm_filter(names.deep_view()),
{
    broadcast use vstd::seq_lib::group_filter_ensures;

    let mut r: Vec<String> = Vec::new();
    let mut i: usize = 0;
    while i < names.len()
        invariant
            0 <= i <= names@.len(),
            r.deep_view() == names.deep_view().subrange(0, i as int).filter(
                |s: Seq<char>| wasm_named(s),
            ),
        decreases names@.len() - i,
    {
        let ghost prev = r.deep_view();
        if is_wasm_artifact(names[i].as_str()) {
            r.push(names[i].clone());
            proof {
                assert(r.deep_view() =~= prev.push(names.deep_view()[i as int]));
            }
        }
        proof {
            assert(names.deep_view().subrange(0, i + 1 as int) =~= names.deep_view().subrange(
                0,
                i as int,
            ).push(names.deep_view()[i as int]));
            names.deep_view().subrange(0, i as int).lemma_filter_push(
                names.deep_view()[i as int],
                |s: Seq<char>| wasm_named(s),
            );
        }
        i = i + 1;
    }
    proof {
        assert(names.deep_view().subrange(0, names@.len() as int) =~= names.deep_view());
    }
    r
}

/// Law: the directory-scan strategy evaluates every file in the binary
/// format — each name in the listing that ends in `.wasm` is picked — and
/// picks nothing else.
pub proof fn lemma_filter_artifacts_complete(names: Seq<Seq<char>>)
    ensures
        forall|i: int|
            0 <= i < names.len() && #[trigger] wasm_named(names[i]) ==> wasm_filter(
                names,
            ).contains(names[i]),
        forall|j: int|
            0 <= j < wasm_filter(names).len() ==> wasm_named(#[trigger] wasm_filter(names)[j]),
{
    let pred = |s: Seq<char>| wasm_named(s);
    assert forall|i: int| 0 <= i < names.len() && #[trigger] wasm_named(names[i]) implies
        wasm_filter(names).contains(names[i]) by {
        names.lemma_filter_contains(pred, i);
    }
    assert forall|j: int| 0 <= j < wasm_filter(names).len() implies wasm_named(
        #[trigger] wasm_filter(names)[j],
    ) by {
        names.lemma_filter_pred(pred, j);
    }
}

/// Whether every scan result agrees with the expected one; a single
/// disagreeing artifact makes it false.
pub fn all_match(results: &Vec<bool>, expected: bool) -> (r: bool)
    ensures
        r == (forall|i: int| 0 <= i < results@.len() ==> results@[i] == expected),
{
    let mut i: usize = 0;
    while i < results.len()
        invariant
            0 <= i <= results@.len(),
            forall|k: int| 0 <= k < i ==> results@[k] == expected,
        decreases results@.len() - i,
    {
        if results[i] != expected {
            return false;
        }
        i = i + 1;
    }
    true
}

} // verus!
