use gputrace::numfmt::{i64_to_string, u64_to_string};
use gputrace::request::{
    build_child_pids_request, build_kineto_config, build_state_request, build_trigger_request,
    select_timing_policy, TimingPolicy, TraceRequest,
};
use gputrace::response::{
    extract_matched_pids, interpret_trigger_response, predicted_file, report_for, TraceError,
};
use gputrace::strtext::{find_first, replace_first_str};

#[test]
fn trigger_request_iteration_policy_exact() {
    let policy = TimingPolicy::ByIterationCount { count: 1000, start_iteration_roundup: 100 };
    let req = build_trigger_request(
        1234,
        "101,202",
        policy,
        "/tmp/out.json",
        "cuda,cpu",
        3,
        -1,
        5,
    );
    let expected = "{\"fn\":\"setKinetOnDemandRequest\",\"config\":\"ACTIVITIES_LOG_FILE=/tmp/out.json\\nACTIVITY_TYPES=cuda,cpu\\nVERBOSE_LOG_LEVEL=-1\\nACTIVITIES_WARMUP_PERIOD_SECS=5\\nPROFILE_START_ITERATION=0\\nPROFILE_START_ITERATION_ROUNDUP=100\\nACTIVITIES_ITERATIONS=1000\",\"job_id\":1234,\"pids\":[101,202],\"process_limit\":3}";
    assert_eq!(req, expected);
}

#[test]
fn iteration_config_has_iteration_keys_only() {
    let policy = select_timing_policy(1000, 100, 1700000000000, 500);
    assert!(matches!(
        policy,
        TimingPolicy::ByIterationCount { count: 1000, start_iteration_roundup: 100 }
    ));
    let config = build_kineto_config("/tmp/out.json", "cuda", 2, 5, policy);
    assert!(config.contains("ACTIVITIES_ITERATIONS=1000"));
    assert!(config.contains("PROFILE_START_ITERATION_ROUNDUP=100"));
    assert!(config.contains("PROFILE_START_ITERATION=0"));
    assert!(!config.contains("PROFILE_START_TIME="));
    assert!(!config.contains("ACTIVITIES_DURATION_MSECS="));
}

#[test]
fn duration_config_has_duration_keys_only() {
    let policy = select_timing_policy(0, 100, 1700000000000, 500);
    assert!(matches!(
        policy,
        TimingPolicy::ByDuration { start_time: 1700000000000, duration_ms: 500 }
    ));
    let config = build_kineto_config("/tmp/out.json", "cuda", 2, 5, policy);
    assert!(config.contains("PROFILE_START_TIME=1700000000000"));
    assert!(config.contains("ACTIVITIES_DURATION_MSECS=500"));
    assert!(!config.contains("ACTIVITIES_ITERATIONS="));
    assert!(!config.contains("PROFILE_START_ITERATION"));
}

#[test]
fn negative_iterations_select_duration_policy() {
    let policy = select_timing_policy(-7, 4, 99, 1000);
    assert!(matches!(policy, TimingPolicy::ByDuration { start_time: 99, duration_ms: 1000 }));
}

#[test]
fn trigger_request_duration_policy_exact() {
    let policy = TimingPolicy::ByDuration { start_time: 1700000000000, duration_ms: 500 };
    let req = build_trigger_request(7, "", policy, "/tmp/t.json", "cuda", 2, 0, 0);
    let expected = "{\"fn\":\"setKinetOnDemandRequest\",\"config\":\"ACTIVITIES_LOG_FILE=/tmp/t.json\\nACTIVITY_TYPES=cuda\\nVERBOSE_LOG_LEVEL=0\\nACTIVITIES_WARMUP_PERIOD_SECS=0\\nPROFILE_START_TIME=1700000000000\\nACTIVITIES_DURATION_MSECS=500\",\"job_id\":7,\"pids\":[],\"process_limit\":2}";
    assert_eq!(req, expected);
}

#[test]
fn trigger_request_is_deterministic() {
    let policy = TimingPolicy::ByIterationCount { count: 5, start_iteration_roundup: 2 };
    let a = build_trigger_request(1, "9", policy, "/x.json", "cuda", 1, 3, 4);
    let b = build_trigger_request(1, "9", policy, "/x.json", "cuda", 1, 3, 4);
    assert_eq!(a, b);
}

#[test]
fn state_request_exact() {
    let req = build_state_request(7, "1,2");
    assert_eq!(
        req,
        "{\"fn\":\"getKinetOnDemandProfilingStateRequest\",\"job_id\":7,\"pids\":[1,2]}"
    );
}

#[test]
fn state_request_empty_pids() {
    let req = build_state_request(0, "");
    assert_eq!(req, "{\"fn\":\"getKinetOnDemandProfilingStateRequest\",\"job_id\":0,\"pids\":[]}");
}

#[test]
fn child_pids_request_exact() {
    let req = build_child_pids_request(42);
    assert_eq!(req, "{\"fn\":\"getKinetOnDemandProfilingChildPidsRequest\",\"job_id\":42}");
}

#[test]
fn request_union_renders_the_same_bodies() {
    let policy = TimingPolicy::ByIterationCount { count: 2, start_iteration_roundup: 3 };
    let trigger = TraceRequest::Trigger {
        job_id: 1,
        pids: "5".to_string(),
        policy,
        log_file: "/l.json".to_string(),
        activities: "cuda".to_string(),
        process_limit: 4,
        verbose_log_level: 1,
        activities_warmup_period_secs: 6,
    };
    assert_eq!(
        trigger.body(),
        build_trigger_request(1, "5", policy, "/l.json", "cuda", 4, 1, 6)
    );
    let state = TraceRequest::QueryState { job_id: 9, pids: "1".to_string() };
    assert_eq!(
        state.body(),
        "{\"fn\":\"getKinetOnDemandProfilingStateRequest\",\"job_id\":9,\"pids\":[1]}"
    );
    let child = TraceRequest::QueryChildPids { job_id: 42 };
    assert_eq!(
        child.body(),
        "{\"fn\":\"getKinetOnDemandProfilingChildPidsRequest\",\"job_id\":42}"
    );
}

#[test]
fn empty_matched_list_reports_guidance() {
    let report = interpret_trigger_response("{\"processesMatched\":[]}", "/tmp/trace.json")
        .expect("well-formed reply");
    assert_eq!(report.matched_pids.len(), 0);
    assert_eq!(report.predicted_files.len(), 0);
    assert_eq!(
        report.summary(),
        "No processes were matched, please check --job-id or --pids flags"
    );
}

#[test]
fn matched_pids_yield_predicted_paths_in_order() {
    let report = interpret_trigger_response("{\"processesMatched\":[111,222]}", "/tmp/trace.json")
        .expect("well-formed reply");
    assert_eq!(report.matched_pids, vec![111, 222]);
    assert_eq!(
        report.predicted_files,
        vec!["/tmp/trace_111.json".to_string(), "/tmp/trace_222.json".to_string()]
    );
    assert_eq!(report.summary(), "Matched 2 processes");
}

#[test]
fn missing_matched_field_is_malformed() {
    let r = interpret_trigger_response("{\"status\":\"ok\"}", "/tmp/trace.json");
    assert_eq!(r.unwrap_err(), TraceError::MalformedResponse);
}

#[test]
fn invalid_json_is_malformed() {
    let r = interpret_trigger_response("not json at all", "/tmp/trace.json");
    assert_eq!(r.unwrap_err(), TraceError::MalformedResponse);
}

#[test]
fn non_array_matched_field_is_malformed() {
    let r = interpret_trigger_response("{\"processesMatched\":5}", "/tmp/trace.json");
    assert_eq!(r.unwrap_err(), TraceError::MalformedResponse);
}

#[test]
fn non_integer_element_is_malformed() {
    let r = interpret_trigger_response("{\"processesMatched\":[1,2.5]}", "/tmp/trace.json");
    assert_eq!(r.unwrap_err(), TraceError::MalformedResponse);
    let r = interpret_trigger_response("{\"processesMatched\":[1,\"x\"]}", "/tmp/trace.json");
    assert_eq!(r.unwrap_err(), TraceError::MalformedResponse);
}

#[test]
fn extract_returns_reply_order() {
    let pids = extract_matched_pids("{\"processesMatched\":[3,1,2]}").expect("array of ints");
    assert_eq!(pids, vec![3, 1, 2]);
}

#[test]
fn predicted_path_substitutes_before_json_suffix() {
    assert_eq!(predicted_file("/tmp/trace.json", 111), "/tmp/trace_111.json");
    assert_eq!(predicted_file("/t.json", -3), "/t_-3.json");
}

#[test]
fn predicted_path_without_suffix_is_unchanged() {
    assert_eq!(predicted_file("/tmp/trace.txt", 5), "/tmp/trace.txt");
}

#[test]
fn predicted_path_replaces_first_occurrence_only() {
    assert_eq!(predicted_file("/a.json.json", 7), "/a_7.json.json");
}

#[test]
fn report_for_builds_one_path_per_pid() {
    let report = report_for(vec![10, 20, 30], "/out/run.json");
    assert_eq!(report.matched_pids, vec![10, 20, 30]);
    assert_eq!(
        report.predicted_files,
        vec![
            "/out/run_10.json".to_string(),
            "/out/run_20.json".to_string(),
            "/out/run_30.json".to_string(),
        ]
    );
    assert_eq!(report.summary(), "Matched 3 processes");
}

#[test]
fn single_match_summary() {
    let report = report_for(vec![1], "/r.json");
    assert_eq!(report.summary(), "Matched 1 processes");
}

#[test]
fn unsigned_decimal_rendering() {
    assert_eq!(u64_to_string(0), "0");
    assert_eq!(u64_to_string(7), "7");
    assert_eq!(u64_to_string(1234567890), "1234567890");
    assert_eq!(u64_to_string(u64::MAX), "18446744073709551615");
}

#[test]
fn signed_decimal_rendering() {
    assert_eq!(i64_to_string(0), "0");
    assert_eq!(i64_to_string(-1), "-1");
    assert_eq!(i64_to_string(i64::MAX), "9223372036854775807");
    assert_eq!(i64_to_string(i64::MIN), "-9223372036854775808");
}

#[test]
fn find_first_returns_least_position() {
    assert_eq!(find_first("abcabc", "bc"), Some(1));
    assert_eq!(find_first("abcabc", "zz"), None);
    assert_eq!(find_first("abc", ""), Some(0));
    assert_eq!(find_first("ab", "abc"), None);
}

#[test]
fn replace_first_leaves_later_occurrences() {
    assert_eq!(replace_first_str("x.json.json", ".json", "!"), "x!.json");
    assert_eq!(replace_first_str("plain", ".json", "!"), "plain");
}
