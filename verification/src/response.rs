//! Interpretation of the daemon's reply to a trigger request.
//!
//! The reply is JSON carrying a `processesMatched` array of process ids.
//! Parsing is a function of the reply text alone, so what the reply
//! holds under a key is given a name, `int_array_field_of`, and one
//! trusted wrapper around serde_json ties the name to the real parser.
//! Everything derived from the extracted ids — the predicted output
//! file for each matched process, the one-line outcome — is verified
//! exactly, and success is tied to the named field: the interpreter
//! returns a report exactly when the field is there.

use vstd::prelude::*;
use vstd::string::*;
use crate::numfmt::{dec_i, dec_u, i64_to_string, u64_to_string};
use crate::strtext::{replace_first, replace_first_str};

verus! {

/// What a JSON object reply holds under a key, when that is an array of
/// integers: the integers in array order; nothing when the text is not
/// a JSON object, the key is absent, the value is not an array, or an
/// element is not an integer that fits in a signed 64-bit number.
pub uninterp spec fn int_array_field_of(resp: Seq<char>, key: Seq<char>) -> Option<Seq<i64>>;

/// Relies on serde_json: from_str to parse the text, Value::get to look
/// the key up, Value::as_array and Value::as_i64 to read the elements.
/// The result depends on the text and the key alone, so it carries the
/// name rather than a restatement of JSON's grammar.
#[verifier::external_body]
fn extract_int_array_field(resp: &str, key: &str) -> (r: Option<Vec<i64>>)
    ensures
        match r {
            Some(ids) => int_array_field_of(resp@, key@) == Some(ids@),
            None => int_array_field_of(resp@, key@) is None,
        },
{
    let parsed: serde_json::Value = serde_json::from_str(resp).ok()?;
    let arr = parsed.get(key)?.as_array()?;
    let mut ids = Vec::with_capacity(arr.len());
    for item in arr {
        ids.push(item.as_i64()?);
    }
    Some(ids)
}

/// Why a daemon reply could not be interpreted.
#[derive(Clone, Copy, Debug, PartialEq, Eq, Structural)]
pub enum TraceError {
    /// The reply was not valid JSON, or lacked a `processesMatched`
    /// array whose elements are integers.
    MalformedResponse,
}

/// The interpreted outcome of a trigger exchange.
#[derive(Debug)]
pub struct TriggerReport {
    /// Process ids the daemon matched, in the order of the reply.
    pub matched_pids: Vec<i64>,
    /// For each matched process, the predicted trace output file.
    pub predicted_files: Vec<String>,
}

/// The predicted output file for one matched process: the earliest
/// occurrence of `.json` in the template becomes `_<pid>.json`; a
/// template without `.json` stays as it is.
pub open spec fn predicted_file_text(log_file: Seq<char>, pid: int) -> Seq<char> {
    replace_first(log_file, ".json"@, "_"@ + dec_i(pid) + ".json"@)
}

/// The report lists one predicted file per matched process, each derived
/// from the template by the pid substitution, in matching order.
pub open spec fn report_wf(rep: TriggerReport, log_file: Seq<char>) -> bool {
    &&& rep.predicted_files@.len() == rep.matched_pids@.len()
    &&& forall|k: int|
        0 <= k < rep.matched_pids@.len() ==> rep.predicted_files@[k]@ == predicted_file_text(
            log_file,
            rep.matched_pids@[k] as int,
        )
}

/// Derives the predicted output file for one matched process.
pub fn predicted_file(log_file: &str, pid: i64) -> (r: String)
    ensures
        r@ == predicted_file_text(log_file@, pid as int),
{
    let mut repl = String::from_str("_");
    let digits = i64_to_string(pid);
    repl.append(digits.as_str());
    repl.append(".json");
    replace_first_str(log_file, ".json", repl.as_str())
}

/// Builds the report for a list of matched process ids.
pub fn report_for(matched_pids: Vec<i64>, log_file: &str) -> (rep: TriggerReport)
    ensures
        rep.matched_pids == matched_pids,
        report_wf(rep, log_file@),
{
    let mut files: Vec<String> = Vec::new();
    let mut k: usize = 0;
    while k < matched_pids.len()
        invariant
            0 <= k <= matched_pids.len(),
            files@.len() == k,
            forall|t: int|
                0 <= t < k ==> files@[t]@ == predicted_file_text(
                    log_file@,
                    matched_pids@[t] as int,
                ),
        decreases matched_pids.len() - k,
    {
        let f = predicted_file(log_file, matched_pids[k]);
        files.push(f);
        k += 1;
    }
    TriggerReport { matched_pids, predicted_files: files }
}

/// Extracts the `processesMatched` ids from the daemon's reply, in
/// reply order. The call succeeds exactly when the reply carries an
/// integer array under that key; every other reply — not JSON, key
/// absent, value not an array, a non-integer element — is malformed.
pub fn extract_matched_pids(resp: &str) -> (r: Result<Vec<i64>, TraceError>)
    ensures
        match r {
            Ok(pids) => int_array_field_of(resp@, "processesMatched"@) == Some(pids@),
            Err(e) => {
                &&& e == TraceError::MalformedResponse
                &&& int_array_field_of(resp@, "processesMatched"@) is None
            },
        },
{
    match extract_int_array_field(resp, "processesMatched") {
        Some(pids) => Ok(pids),
        None => Err(TraceError::MalformedResponse),
    }
}

/// Interprets the daemon's reply to a trigger request against the
/// log-file template the request was built with. The call succeeds
/// exactly when the reply carries an integer `processesMatched` array:
/// the report then lists those ids in reply order with one predicted
/// file each; otherwise the malformed-response error is returned and
/// nothing is reported.
pub fn interpret_trigger_response(resp: &str, log_file: &str) -> (r: Result<
    TriggerReport,
    TraceError,
>)
    ensures
        match r {
            Ok(rep) => {
                &&& int_array_field_of(resp@, "processesMatched"@) == Some(rep.matched_pids@)
                &&& report_wf(rep, log_file@)
            },
            Err(e) => {
                &&& e == TraceError::MalformedResponse
                &&& int_array_field_of(resp@, "processesMatched"@) is None
            },
        },
{
    match extract_matched_pids(resp) {
        Ok(pids) => Ok(report_for(pids, log_file)),
        Err(e) => Err(e),
    }
}

impl TriggerReport {
    /// One-line outcome for the caller: guidance to re-check the flags
    /// when nothing was matched, else the match count.
    pub fn summary(&self) -> (r: String)
        ensures
            self.matched_pids@.len() == 0 ==> r@ == "No processes were matched, please check --job-id or --pids flags"@,
            self.matched_pids@.len() > 0 ==> r@ == "Matched "@ + dec_u(self.matched_pids@.len())
                + " processes"@,
    {
        if self.matched_pids.len() == 0 {
            String::from_str("No processes were matched, please check --job-id or --pids flags")
        } else {
            let mut s = String::from_str("Matched ");
            let n = u64_to_string(self.matched_pids.len() as u64);
            s.append(n.as_str());
            s.append(" processes");
            proof {
                assert(s@ =~= "Matched "@ + dec_u(self.matched_pids@.len()) + " processes"@);
            }
            s
        }
    }
}

} // verus!
