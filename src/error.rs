use vstd::prelude::*;

verus! {

/// walkdir's error for an entry it could not read; carried, never inspected.
#[verifier::external_type_specification]
#[verifier::external_body]
pub struct ExWalkDirError(walkdir::Error);

/// std's I/O error; carried, never inspected.
#[verifier::external_type_specification]
#[verifier::external_body]
pub struct ExIoError(std::io::Error);

/// Why one step of a directory walk produced no entry.
#[derive(Debug)]
pub enum SearchError {
    WalkDir(walkdir::Error),
    IO(std::io::Error),
}

} // verus!
