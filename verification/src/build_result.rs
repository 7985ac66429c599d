use vstd::prelude::*;

use crate::error::{Error, ErrorKind};
use crate::store_path::StorePath;

verus! {

/// One record of the external builder's structured output: a build-recipe
/// identifier and a mapping from output names to artifact paths.
///
/// The mapping is kept as a list of `(name, path)` pairs; the first pair
/// with a given name is the one that counts.
#[derive(Debug)]
pub struct BuildRecord {
    pub drv_path: String,
    pub outputs: Vec<(String, String)>,
}

/// The path mapped to `key` by the first pair of `outputs` that carries it.
pub open spec fn lookup_output(outputs: Seq<(String, String)>, key: Seq<char>) -> Option<
    Seq<char>,
>
    decreases outputs.len(),
{
    if outputs.len() == 0 {
        None
    } else if outputs[0].0@ == key {
        Some(outputs[0].1@)
    } else {
        lookup_output(outputs.drop_first(), key)
    }
}

/// What interpreting a decoded build result yields: the single record's
/// `"out"` path, or the kind of failure.
///
/// Exactly one record is accepted; zero or several records are ambiguous,
/// and a single record without an output named `"out"` lacks the artifact.
pub open spec fn parse_spec(records: Seq<BuildRecord>) -> Result<Seq<char>, ErrorKind> {
    if records.len() != 1 {
        Err(ErrorKind::AmbiguousOutput)
    } else {
        match lookup_output(records[0].outputs@, "out"@) {
            Some(path) => Ok(path),
            None => Err(ErrorKind::MissingOutput),
        }
    }
}

proof fn lemma_lookup_skip_step(outputs: Seq<(String, String)>, key: Seq<char>, i: int)
    requires
        0 <= i < outputs.len(),
        outputs[i].0@ != key,
    ensures
        lookup_output(outputs.skip(i), key) == lookup_output(outputs.skip(i + 1), key),
{
    assert(outputs.skip(i).len() > 0);
    assert(outputs.skip(i)[0] == outputs[i]);
    assert(outputs.skip(i).drop_first() =~= outputs.skip(i + 1));
}

/// Finds the path mapped to `key` by the first matching pair, if any.
fn lookup_output_exec(outputs: &Vec<(String, String)>, key: &String) -> (r: Option<String>)
    ensures
        match r {
            Some(path) => lookup_output(outputs@, key@) == Some(path@),
            None => lookup_output(outputs@, key@) is None,
        },
{
    let ghost full = outputs@;
    proof {
        assert(full.skip(0) =~= full);
    }
    let mut i: usize = 0;
    while i < outputs.len()
        invariant
            0 <= i <= outputs.len(),
            full == outputs@,
            lookup_output(full, key@) == lookup_output(full.skip(i as int), key@),
        decreases outputs.len() - i,
    {
        let pair = &outputs[i];
        if pair.0 == *key {
            assert(full.skip(i as int)[0] == full[i as int]);
            return Some(pair.1.clone());
        }
        proof {
            lemma_lookup_skip_step(full, key@, i as int);
        }
        i = i + 1;
    }
    proof {
        assert(full.skip(i as int) =~= Seq::<(String, String)>::empty());
    }
    None
}

/// Interprets the builder's decoded structured output into exactly one
/// store path.
///
/// `decoded` is the result of decoding the build command's structured
/// output: the records on success, or the decoder's message on failure.
/// A decoding failure is wrapped as a malformed-output error; otherwise
/// the outcome is exactly what [`parse_spec`] says: the single record's
/// `"out"` path, or the ambiguous-output / missing-output failure.
pub fn parse_nix_build_output(decoded: Result<Vec<BuildRecord>, String>) -> (r: Result<
    StorePath,
    Error,
>)
    ensures
        match decoded {
            Ok(records) => match parse_spec(records@) {
                Ok(path) => r matches Ok(sp) && sp@ == path,
                Err(kind) => r matches Err(e) && e.spec_kind() == kind,
            },
            Err(m) => r matches Err(e) && (e matches Error::MalformedOutput { message }
                && message@ == m@),
        },
{
    match decoded {
        Err(message) => Err(Error::MalformedOutput { message }),
        Ok(records) => {
            if records.len() != 1 {
                return Err(Error::AmbiguousOutput);
            }
            let record = &records[0];
            let out_key: String = "out".to_owned();
            match lookup_output_exec(&record.outputs, &out_key) {
                Some(path) => Ok(StorePath::from(path)),
                None => Err(Error::MissingOutput),
            }
        },
    }
}

/// What running the external build command came to, as the driver reports
/// it: on exit code zero the decoded structured output, otherwise the
/// captured error stream.
#[derive(Debug)]
pub enum BuildOutcome {
    Success { decoded: Result<Vec<BuildRecord>, String> },
    Failure { stderr: String },
}

/// What a build outcome yields: the single record's `"out"` path, or the
/// kind of failure.
pub open spec fn store_path_of_outcome(outcome: BuildOutcome) -> Result<Seq<char>, ErrorKind> {
    match outcome {
        BuildOutcome::Failure { .. } => Err(ErrorKind::BuildFailed),
        BuildOutcome::Success { decoded } => match decoded {
            Err(_) => Err(ErrorKind::MalformedOutput),
            Ok(records) => parse_spec(records@),
        },
    }
}

/// Extracts the one store path from the build command's outcome.
///
/// A nonzero exit fails with a build-failure error carrying the captured
/// error stream verbatim; a successful exit is interpreted by
/// [`parse_nix_build_output`].
pub fn get_store_path(nix_build_result: BuildOutcome) -> (r: Result<StorePath, Error>)
    ensures
        match store_path_of_outcome(nix_build_result) {
            Ok(path) => r matches Ok(sp) && sp@ == path,
            Err(kind) => r matches Err(e) && e.spec_kind() == kind,
        },
        (nix_build_result matches BuildOutcome::Failure { stderr } ==> r matches Err(e)
            && (e matches Error::BuildFailed { stderr: s } && s@ == stderr@)),
        (nix_build_result matches BuildOutcome::Success { decoded: Err(m) } ==> r matches Err(e)
            && (e matches Error::MalformedOutput { message } && message@ == m@)),
{
    match nix_build_result {
        BuildOutcome::Failure { stderr } => Err(Error::BuildFailed { stderr }),
        BuildOutcome::Success { decoded } => parse_nix_build_output(decoded),
    }
}

/// A valid single-record build result whose record maps `"out"` to a path
/// parses to exactly that path.
pub proof fn lemma_single_record_with_out(records: Seq<BuildRecord>, path: Seq<char>)
    requires
        records.len() == 1,
        lookup_output(records[0].outputs@, "out"@) == Some(path),
    ensures
        parse_spec(records) == Ok::<Seq<char>, ErrorKind>(path),
{
}

/// A build result with zero or with two or more records always fails as
/// ambiguous, whatever the records hold; no record is silently selected.
pub proof fn lemma_record_count_must_be_one(records: Seq<BuildRecord>)
    requires
        records.len() != 1,
    ensures
        parse_spec(records) == Err::<Seq<char>, ErrorKind>(ErrorKind::AmbiguousOutput),
{
}

/// A single record that lacks an `"out"` output always fails as missing
/// the output, whatever other outputs it carries.
pub proof fn lemma_missing_out_fails(records: Seq<BuildRecord>)
    requires
        records.len() == 1,
        lookup_output(records[0].outputs@, "out"@) is None,
    ensures
        parse_spec(records) == Err::<Seq<char>, ErrorKind>(ErrorKind::MissingOutput),
{
}

} // verus!
