//! Construction of the three request bodies the daemon understands.
//!
//! The trigger request embeds a key=value configuration blob as a single
//! JSON string value; its lines are joined by the two-character escape
//! sequence `\n`, not by real line breaks, because the blob itself must
//! survive as one JSON string. The caller's pid list is a pre-formatted
//! comma-joined literal and is spliced verbatim between the brackets of
//! the JSON array, exactly as the daemon's protocol expects.

use vstd::prelude::*;
use vstd::string::*;
use crate::numfmt::{dec_i, dec_u, i64_to_string, u64_to_string};

verus! {

/// How the capture window is bounded: by a number of iterations of the
/// profiled application, or by wall-clock duration from a start time.
/// The two forms are mutually exclusive in the configuration blob.
#[derive(Clone, Copy)]
pub enum TimingPolicy {
    ByIterationCount { count: u64, start_iteration_roundup: u64 },
    ByDuration { start_time: u64, duration_ms: u64 },
}

/// Picks the timing policy from the caller's raw flags: iteration-based
/// exactly when the supplied iteration count is strictly positive.
pub fn select_timing_policy(
    iterations: i64,
    start_iteration_roundup: u64,
    start_time: u64,
    duration_ms: u64,
) -> (p: TimingPolicy)
    ensures
        iterations > 0 ==> p == (TimingPolicy::ByIterationCount {
            count: iterations as u64,
            start_iteration_roundup,
        }),
        iterations <= 0 ==> p == (TimingPolicy::ByDuration { start_time, duration_ms }),
{
    if iterations > 0 {
        TimingPolicy::ByIterationCount { count: iterations as u64, start_iteration_roundup }
    } else {
        TimingPolicy::ByDuration { start_time, duration_ms }
    }
}

/// The timing portion of the configuration blob.
pub open spec fn timing_lines(p: TimingPolicy) -> Seq<char> {
    match p {
        TimingPolicy::ByIterationCount { count, start_iteration_roundup } => (
        "PROFILE_START_ITERATION=0\\nPROFILE_START_ITERATION_ROUNDUP="@
            + dec_u(start_iteration_roundup as nat) + "\\nACTIVITIES_ITERATIONS="@ + dec_u(
            count as nat,
        )),
        TimingPolicy::ByDuration { start_time, duration_ms } => (
        "PROFILE_START_TIME="@ + dec_u(start_time as nat) + "\\nACTIVITIES_DURATION_MSECS="@
            + dec_u(duration_ms as nat)),
    }
}

/// The whole configuration blob: four common lines in fixed order,
/// then the timing lines, joined by the literal escape `\n`.
pub open spec fn kineto_config_text(
    log_file: Seq<char>,
    activities: Seq<char>,
    verbose_log_level: int,
    warmup_secs: nat,
    p: TimingPolicy,
) -> Seq<char> {
    "ACTIVITIES_LOG_FILE="@ + log_file + "\\nACTIVITY_TYPES="@ + activities
        + "\\nVERBOSE_LOG_LEVEL="@ + dec_i(verbose_log_level) + "\\nACTIVITIES_WARMUP_PERIOD_SECS="@
        + dec_u(warmup_secs) + "\\n"@ + timing_lines(p)
}

/// The trigger request body, with fixed key order.
pub open spec fn trigger_request_text(
    job_id: nat,
    pids: Seq<char>,
    p: TimingPolicy,
    log_file: Seq<char>,
    activities: Seq<char>,
    process_limit: nat,
    verbose_log_level: int,
    warmup_secs: nat,
) -> Seq<char> {
    "{\"fn\":\"setKinetOnDemandRequest\",\"config\":\""@
        + kineto_config_text(log_file, activities, verbose_log_level, warmup_secs, p)
        + "\",\"job_id\":"@ + dec_u(job_id) + ",\"pids\":["@ + pids + "],\"process_limit\":"@
        + dec_u(process_limit) + "}"@
}

/// The profiling-state request body.
pub open spec fn state_request_text(job_id: nat, pids: Seq<char>) -> Seq<char> {
    "{\"fn\":\"getKinetOnDemandProfilingStateRequest\",\"job_id\":"@ + dec_u(job_id)
        + ",\"pids\":["@ + pids + "]}"@
}

/// The child-pids request body; it carries the job id and nothing else.
pub open spec fn child_pids_request_text(job_id: nat) -> Seq<char> {
    "{\"fn\":\"getKinetOnDemandProfilingChildPidsRequest\",\"job_id\":"@ + dec_u(job_id) + "}"@
}

/// Renders the configuration blob for the given parameters.
pub fn build_kineto_config(
    log_file: &str,
    activities: &str,
    verbose_log_level: i64,
    warmup_secs: u64,
    policy: TimingPolicy,
) -> (r: String)
    ensures
        r@ == kineto_config_text(
            log_file@,
            activities@,
            verbose_log_level as int,
            warmup_secs as nat,
            policy,
        ),
{
    let mut s = String::from_str("ACTIVITIES_LOG_FILE=");
    s.append(log_file);
    s.append("\\nACTIVITY_TYPES=");
    s.append(activities);
    s.append("\\nVERBOSE_LOG_LEVEL=");
    let verbose = i64_to_string(verbose_log_level);
    s.append(verbose.as_str());
    s.append("\\nACTIVITIES_WARMUP_PERIOD_SECS=");
    let warmup = u64_to_string(warmup_secs);
    s.append(warmup.as_str());
    s.append("\\n");
    match policy {
        TimingPolicy::ByIterationCount { count, start_iteration_roundup } => {
            s.append("PROFILE_START_ITERATION=0\\nPROFILE_START_ITERATION_ROUNDUP=");
            let roundup = u64_to_string(start_iteration_roundup);
            s.append(roundup.as_str());
            s.append("\\nACTIVITIES_ITERATIONS=");
            let count_text = u64_to_string(count);
            s.append(count_text.as_str());
        },
        TimingPolicy::ByDuration { start_time, duration_ms } => {
            s.append("PROFILE_START_TIME=");
            let start = u64_to_string(start_time);
            s.append(start.as_str());
            s.append("\\nACTIVITIES_DURATION_MSECS=");
            let duration = u64_to_string(duration_ms);
            s.append(duration.as_str());
        },
    }
    proof {
        assert(s@ =~= kineto_config_text(
            log_file@,
            activities@,
            verbose_log_level as int,
            warmup_secs as nat,
            policy,
        ));
    }
    s
}

/// Builds the trigger request body. The `pids` argument is a
/// comma-joined sequence of numeric literals and is trusted verbatim.
pub fn build_trigger_request(
    job_id: u64,
    pids: &str,
    policy: TimingPolicy,
    log_file: &str,
    activities: &str,
    process_limit: u32,
    verbose_log_level: i64,
    warmup_secs: u64,
) -> (r: String)
    ensures
        r@ == trigger_request_text(
            job_id as nat,
            pids@,
            policy,
            log_file@,
            activities@,
            process_limit as nat,
            verbose_log_level as int,
            warmup_secs as nat,
        ),
{
    let config = build_kineto_config(log_file, activities, verbose_log_level, warmup_secs, policy);
    let mut s = String::from_str("{\"fn\":\"setKinetOnDemandRequest\",\"config\":\"");
    s.append(config.as_str());
    s.append("\",\"job_id\":");
    let job = u64_to_string(job_id);
    s.append(job.as_str());
    s.append(",\"pids\":[");
    s.append(pids);
    s.append("],\"process_limit\":");
    let limit = u64_to_string(process_limit as u64);
    s.append(limit.as_str());
    s.append("}");
    proof {
        assert(s@ =~= trigger_request_text(
            job_id as nat,
            pids@,
            policy,
            log_file@,
            activities@,
            process_limit as nat,
            verbose_log_level as int,
            warmup_secs as nat,
        ));
    }
    s
}

/// Builds the profiling-state request body.
pub fn build_state_request(job_id: u64, pids: &str) -> (r: String)
    ensures
        r@ == state_request_text(job_id as nat, pids@),
{
    let mut s = String::from_str("{\"fn\":\"getKinetOnDemandProfilingStateRequest\",\"job_id\":");
    let job = u64_to_string(job_id);
    s.append(job.as_str());
    s.append(",\"pids\":[");
    s.append(pids);
    s.append("]}");
    proof {
        assert(s@ =~= state_request_text(job_id as nat, pids@));
    }
    s
}

/// One request to the daemon: trigger trace collection, query the
/// profiling state, or query the child pids of a job. Every variant
/// names the job whose processes are targeted. A request is built per
/// call, rendered once, and discarded.
pub enum TraceRequest {
    Trigger {
        job_id: u64,
        pids: String,
        policy: TimingPolicy,
        log_file: String,
        activities: String,
        process_limit: u32,
        verbose_log_level: i64,
        activities_warmup_period_secs: u64,
    },
    QueryState { job_id: u64, pids: String },
    QueryChildPids { job_id: u64 },
}

/// The JSON body each request renders to.
pub open spec fn request_text(r: TraceRequest) -> Seq<char> {
    match r {
        TraceRequest::Trigger {
            job_id,
            pids,
            policy,
            log_file,
            activities,
            process_limit,
            verbose_log_level,
            activities_warmup_period_secs,
        } => trigger_request_text(
            job_id as nat,
            pids@,
            policy,
            log_file@,
            activities@,
            process_limit as nat,
            verbose_log_level as int,
            activities_warmup_period_secs as nat,
        ),
        TraceRequest::QueryState { job_id, pids } => state_request_text(job_id as nat, pids@),
        TraceRequest::QueryChildPids { job_id } => child_pids_request_text(job_id as nat),
    }
}

impl TraceRequest {
    /// Renders the JSON body of this request.
    pub fn body(&self) -> (r: String)
        ensures
            r@ == request_text(*self),
    {
        match self {
            TraceRequest::Trigger {
                job_id,
                pids,
                policy,
                log_file,
                activities,
                process_limit,
                verbose_log_level,
                activities_warmup_period_secs,
            } => build_trigger_request(
                *job_id,
                pids.as_str(),
                *policy,
                log_file.as_str(),
                activities.as_str(),
                *process_limit,
                *verbose_log_level,
                *activities_warmup_period_secs,
            ),
            TraceRequest::QueryState { job_id, pids } => build_state_request(
                *job_id,
                pids.as_str(),
            ),
            TraceRequest::QueryChildPids { job_id } => build_child_pids_request(*job_id),
        }
    }
}

/// Builds the child-pids request body.
pub fn build_child_pids_request(job_id: u64) -> (r: String)
    ensures
        r@ == child_pids_request_text(job_id as nat),
{
    let mut s = String::from_str(
        "{\"fn\":\"getKinetOnDemandProfilingChildPidsRequest\",\"job_id\":",
    );
    let job = u64_to_string(job_id);
    s.append(job.as_str());
    s.append("}");
    proof {
        assert(s@ =~= child_pids_request_text(job_id as nat));
    }
    s
}

} // verus!
