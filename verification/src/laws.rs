//! The protocol's stated properties, proved once for all inputs.

use vstd::prelude::*;
use crate::numfmt::{dec_i, dec_u, is_dec_char, lemma_dec_i_chars, lemma_dec_u_chars};
use crate::request::{kineto_config_text, trigger_request_text, TimingPolicy};
use crate::strtext::{
    contains_seq, lemma_concat_free_by_first, lemma_concat_free_by_last, lemma_contains_concat,
    lemma_free_by_first_char, matches_at,
};

verus! {

/// Building a trigger request is deterministic: two request bodies built
/// from the same arguments are the same text.
pub proof fn lemma_trigger_request_deterministic(
    r1: Seq<char>,
    r2: Seq<char>,
    job_id: nat,
    pids: Seq<char>,
    p: TimingPolicy,
    log_file: Seq<char>,
    activities: Seq<char>,
    process_limit: nat,
    verbose_log_level: int,
    warmup_secs: nat,
)
    requires
        r1 == trigger_request_text(
            job_id,
            pids,
            p,
            log_file,
            activities,
            process_limit,
            verbose_log_level,
            warmup_secs,
        ),
        r2 == trigger_request_text(
            job_id,
            pids,
            p,
            log_file,
            activities,
            process_limit,
            verbose_log_level,
            warmup_secs,
        ),
    ensures
        r1 == r2,
{
}

proof fn lemma_dec_u_free(m: nat, n: Seq<char>)
    requires
        n.len() > 0,
        !is_dec_char(n[0]),
    ensures
        !contains_seq(dec_u(m), n),
{
    lemma_dec_u_chars(m);
    lemma_free_by_first_char(dec_u(m), n);
}

proof fn lemma_dec_i_free(m: int, n: Seq<char>)
    requires
        n.len() > 0,
        !is_dec_char(n[0]),
    ensures
        !contains_seq(dec_i(m), n),
{
    lemma_dec_i_chars(m);
    lemma_free_by_first_char(dec_i(m), n);
}

/// The common part of the configuration blob — everything before the
/// timing lines — holds no occurrence of a needle `n` that has no
/// escape character, has an equals sign at most as its last character,
/// does not start like a number, and occurs in none of the pieces.
#[verifier::rlimit(100)]
proof fn lemma_common_prefix_free(
    log_file: Seq<char>,
    activities: Seq<char>,
    verbose_log_level: int,
    warmup_secs: nat,
    n: Seq<char>,
)
    requires
        n.len() > 2,
        !is_dec_char(n[0]),
        !contains_seq(log_file, n),
        !contains_seq(activities, n),
        !contains_seq("ACTIVITIES_LOG_FILE="@, n),
        !contains_seq("\\nACTIVITY_TYPES="@, n),
        !contains_seq("\\nVERBOSE_LOG_LEVEL="@, n),
        !contains_seq("\\nACTIVITIES_WARMUP_PERIOD_SECS="@, n),
        forall|j: int| 0 <= j < n.len() - 1 ==> n[j] != '=',
        forall|j: int| 1 <= j < n.len() ==> n[j] != '\\',
    ensures
        !contains_seq(
            "ACTIVITIES_LOG_FILE="@ + log_file + "\\nACTIVITY_TYPES="@ + activities
                + "\\nVERBOSE_LOG_LEVEL="@ + dec_i(verbose_log_level)
                + "\\nACTIVITIES_WARMUP_PERIOD_SECS="@ + dec_u(warmup_secs) + "\\n"@,
            n,
        ),
{
    let l1 = "ACTIVITIES_LOG_FILE="@;
    let l2 = "\\nACTIVITY_TYPES="@;
    let l3 = "\\nVERBOSE_LOG_LEVEL="@;
    let l4 = "\\nACTIVITIES_WARMUP_PERIOD_SECS="@;
    let l5 = "\\n"@;
    let dv = dec_i(verbose_log_level);
    let dw = dec_u(warmup_secs);

    reveal_strlit("ACTIVITIES_LOG_FILE=");
    reveal_strlit("\\nACTIVITY_TYPES=");
    reveal_strlit("\\nVERBOSE_LOG_LEVEL=");
    reveal_strlit("\\nACTIVITIES_WARMUP_PERIOD_SECS=");
    reveal_strlit("\\n");

    lemma_dec_i_free(verbose_log_level, n);
    lemma_dec_u_free(warmup_secs, n);
    assert(!contains_seq(l5, n));

    let u1 = l1 + log_file;
    let u2 = u1 + l2;
    let u3 = u2 + activities;
    let u4 = u3 + l3;
    let u5 = u4 + dv;
    let u6 = u5 + l4;
    let u7 = u6 + dw;

    lemma_concat_free_by_last(l1, log_file, n);
    lemma_concat_free_by_first(u1, l2, n);
    assert(u2[u2.len() - 1] == l2[l2.len() - 1]);
    lemma_concat_free_by_last(u2, activities, n);
    lemma_concat_free_by_first(u3, l3, n);
    assert(u4[u4.len() - 1] == l3[l3.len() - 1]);
    lemma_concat_free_by_last(u4, dv, n);
    lemma_concat_free_by_first(u5, l4, n);
    assert(u6[u6.len() - 1] == l4[l4.len() - 1]);
    lemma_concat_free_by_last(u6, dw, n);
    lemma_concat_free_by_first(u7, l5, n);
}

/// With an iteration-based policy the configuration blob carries the
/// iteration count and roundup keys with their values, and holds no
/// occurrence of the start-time key nor of the duration key: the two
/// timing forms never mix. The free-text inputs must not themselves
/// hold either absent key, since they pass into the blob verbatim.
#[verifier::rlimit(100)]
pub proof fn lemma_iteration_config_keys(
    log_file: Seq<char>,
    activities: Seq<char>,
    verbose_log_level: int,
    warmup_secs: nat,
    count: u64,
    start_iteration_roundup: u64,
)
    requires
        count > 0,
        !contains_seq(log_file, "PROFILE_START_TIME="@),
        !contains_seq(activities, "PROFILE_START_TIME="@),
        !contains_seq(log_file, "ACTIVITIES_DURATION_MSECS="@),
        !contains_seq(activities, "ACTIVITIES_DURATION_MSECS="@),
    ensures
        ({
            let blob = kineto_config_text(
                log_file,
                activities,
                verbose_log_level,
                warmup_secs,
                (TimingPolicy::ByIterationCount { count, start_iteration_roundup }),
            );
            &&& contains_seq(blob, "ACTIVITIES_ITERATIONS="@ + dec_u(count as nat))
            &&& contains_seq(
                blob,
                "PROFILE_START_ITERATION_ROUNDUP="@ + dec_u(start_iteration_roundup as nat),
            )
            &&& !contains_seq(blob, "PROFILE_START_TIME="@)
            &&& !contains_seq(blob, "ACTIVITIES_DURATION_MSECS="@)
        }),
{
    let n1 = "PROFILE_START_TIME="@;
    let n2 = "ACTIVITIES_DURATION_MSECS="@;
    let l1 = "ACTIVITIES_LOG_FILE="@;
    let l2 = "\\nACTIVITY_TYPES="@;
    let l3 = "\\nVERBOSE_LOG_LEVEL="@;
    let l4 = "\\nACTIVITIES_WARMUP_PERIOD_SECS="@;
    let l5 = "\\n"@;
    let l6 = "PROFILE_START_ITERATION=0\\nPROFILE_START_ITERATION_ROUNDUP="@;
    let l6a = "PROFILE_START_ITERATION=0\\n"@;
    let l7 = "\\nACTIVITIES_ITERATIONS="@;
    let na = "ACTIVITIES_ITERATIONS="@;
    let nb = "PROFILE_START_ITERATION_ROUNDUP="@;
    let dv = dec_i(verbose_log_level);
    let dw = dec_u(warmup_secs);
    let dr = dec_u(start_iteration_roundup as nat);
    let dc = dec_u(count as nat);
    let p = TimingPolicy::ByIterationCount { count, start_iteration_roundup };
    let blob = kineto_config_text(log_file, activities, verbose_log_level, warmup_secs, p);

    reveal_strlit("PROFILE_START_TIME=");
    reveal_strlit("ACTIVITIES_DURATION_MSECS=");
    reveal_strlit("ACTIVITIES_LOG_FILE=");
    reveal_strlit("\\nACTIVITY_TYPES=");
    reveal_strlit("\\nVERBOSE_LOG_LEVEL=");
    reveal_strlit("\\nACTIVITIES_WARMUP_PERIOD_SECS=");
    reveal_strlit("\\n");
    reveal_strlit("PROFILE_START_ITERATION=0\\nPROFILE_START_ITERATION_ROUNDUP=");
    reveal_strlit("PROFILE_START_ITERATION=0\\n");
    reveal_strlit("\\nACTIVITIES_ITERATIONS=");
    reveal_strlit("ACTIVITIES_ITERATIONS=");
    reveal_strlit("PROFILE_START_ITERATION_ROUNDUP=");

    let u8 = l1 + log_file + l2 + activities + l3 + dv + l4 + dw + l5;
    let v1 = l6 + dr;
    let v2 = v1 + l7;
    let v3 = v2 + dc;
    assert(blob == u8 + v3);

    // the two iteration keys stand right after an escape in the blob
    assert(l7 =~= l5 + na);
    assert(blob =~= (u8 + v1 + l5) + (na + dc) + Seq::<char>::empty());
    lemma_contains_concat(u8 + v1 + l5, na + dc, Seq::<char>::empty());

    assert(l6 =~= l6a + nb);
    assert(blob =~= (u8 + l6a) + (nb + dr) + (l7 + dc));
    lemma_contains_concat(u8 + l6a, nb + dr, l7 + dc);

    // neither absent key occurs in any concrete piece of the blob
    assert forall|i: int| !matches_at(l6, n1, i) by {
        if matches_at(l6, n1, i) {
            assert(l6.subrange(i, i + n1.len() as int)[0] == l6[i]);
            assert(l6.subrange(i, i + n1.len() as int)[14] == l6[i + 14]);
        }
    }
    assert forall|i: int| !matches_at(l7, n1, i) by {
        if matches_at(l7, n1, i) {
            assert(l7.subrange(i, i + n1.len() as int)[0] == l7[i]);
        }
    }
    assert forall|i: int| !matches_at(l1, n1, i) by {
        if matches_at(l1, n1, i) {
            assert(l1.subrange(i, i + n1.len() as int)[0] == l1[i]);
        }
    }
    assert forall|i: int| !matches_at(l3, n1, i) by {
        if matches_at(l3, n1, i) {
            assert(l3.subrange(i, i + n1.len() as int)[0] == l3[i]);
        }
    }
    assert forall|i: int| !matches_at(l4, n1, i) by {
        if matches_at(l4, n1, i) {
            assert(l4.subrange(i, i + n1.len() as int)[0] == l4[i]);
        }
    }
    assert forall|i: int| !matches_at(l4, n2, i) by {
        if matches_at(l4, n2, i) {
            assert(l4.subrange(i, i + n2.len() as int)[0] == l4[i]);
            assert(l4.subrange(i, i + n2.len() as int)[11] == l4[i + 11]);
        }
    }
    assert forall|i: int| !matches_at(l6, n2, i) by {
        if matches_at(l6, n2, i) {
            assert(l6.subrange(i, i + n2.len() as int)[0] == l6[i]);
            assert(l6.subrange(i, i + n2.len() as int)[1] == l6[i + 1]);
        }
    }

    // no occurrence of the start-time key anywhere in the blob
    lemma_common_prefix_free(log_file, activities, verbose_log_level, warmup_secs, n1);
    assert(!is_dec_char(n1[0]));
    lemma_dec_u_free(start_iteration_roundup as nat, n1);
    lemma_dec_u_free(count as nat, n1);
    assert(l6[l6.len() - 1] == '=');
    lemma_concat_free_by_last(l6, dr, n1);
    lemma_concat_free_by_first(v1, l7, n1);
    assert(v2[v2.len() - 1] == l7[l7.len() - 1]);
    lemma_concat_free_by_last(v2, dc, n1);
    assert(v1[0] == l6[0]);
    assert(v2[0] == v1[0]);
    assert(v3[0] == v2[0]);
    lemma_concat_free_by_first(u8, v3, n1);

    // and none of the duration key either
    lemma_common_prefix_free(log_file, activities, verbose_log_level, warmup_secs, n2);
    assert(!is_dec_char(n2[0]));
    lemma_dec_u_free(start_iteration_roundup as nat, n2);
    lemma_dec_u_free(count as nat, n2);
    lemma_concat_free_by_last(l6, dr, n2);
    lemma_concat_free_by_first(v1, l7, n2);
    lemma_concat_free_by_last(v2, dc, n2);
    lemma_concat_free_by_first(u8, v3, n2);
}

/// The timing lines of a duration-based policy hold no occurrence of a
/// needle `n` that has no escape character, has an equals sign at most
/// as its last character, does not start like a number, and occurs in
/// neither key literal.
#[verifier::rlimit(100)]
proof fn lemma_duration_tail_free(start_time: u64, duration_ms: u64, n: Seq<char>)
    requires
        n.len() > 2,
        !is_dec_char(n[0]),
        !contains_seq("PROFILE_START_TIME="@, n),
        !contains_seq("\\nACTIVITIES_DURATION_MSECS="@, n),
        forall|j: int| 0 <= j < n.len() - 1 ==> n[j] != '=',
        forall|j: int| 1 <= j < n.len() ==> n[j] != '\\',
    ensures
        !contains_seq(
            "PROFILE_START_TIME="@ + dec_u(start_time as nat) + "\\nACTIVITIES_DURATION_MSECS="@
                + dec_u(duration_ms as nat),
            n,
        ),
{
    let lt1 = "PROFILE_START_TIME="@;
    let lt2 = "\\nACTIVITIES_DURATION_MSECS="@;
    let ds = dec_u(start_time as nat);
    let dd = dec_u(duration_ms as nat);
    reveal_strlit("PROFILE_START_TIME=");
    reveal_strlit("\\nACTIVITIES_DURATION_MSECS=");
    lemma_dec_u_free(start_time as nat, n);
    lemma_dec_u_free(duration_ms as nat, n);
    let v1 = lt1 + ds;
    let v2 = v1 + lt2;
    assert(lt1[lt1.len() - 1] == '=');
    lemma_concat_free_by_last(lt1, ds, n);
    lemma_concat_free_by_first(v1, lt2, n);
    assert(v2[v2.len() - 1] == lt2[lt2.len() - 1]);
    lemma_concat_free_by_last(v2, dd, n);
}

/// The warmup key literal holds neither iteration key.
#[verifier::rlimit(100)]
proof fn lemma_warmup_literal_free_of_iteration_keys()
    ensures
        !contains_seq("\\nACTIVITIES_WARMUP_PERIOD_SECS="@, "ACTIVITIES_ITERATIONS="@),
        !contains_seq("\\nACTIVITIES_WARMUP_PERIOD_SECS="@, "PROFILE_START_ITERATION"@),
{
    let l4 = "\\nACTIVITIES_WARMUP_PERIOD_SECS="@;
    let n1 = "ACTIVITIES_ITERATIONS="@;
    let n2 = "PROFILE_START_ITERATION"@;
    reveal_strlit("\\nACTIVITIES_WARMUP_PERIOD_SECS=");
    reveal_strlit("ACTIVITIES_ITERATIONS=");
    reveal_strlit("PROFILE_START_ITERATION");
    assert forall|i: int| !matches_at(l4, n1, i) by {
        if matches_at(l4, n1, i) {
            assert(l4.subrange(i, i + n1.len() as int)[0] == l4[i]);
            assert(l4.subrange(i, i + n1.len() as int)[11] == l4[i + 11]);
        }
    }
    assert forall|i: int| !matches_at(l4, n2, i) by {
        if matches_at(l4, n2, i) {
            assert(l4.subrange(i, i + n2.len() as int)[0] == l4[i]);
        }
    }
}

/// The duration key literal holds neither iteration key.
#[verifier::rlimit(100)]
proof fn lemma_duration_literal_free_of_iteration_keys()
    ensures
        !contains_seq("\\nACTIVITIES_DURATION_MSECS="@, "ACTIVITIES_ITERATIONS="@),
        !contains_seq("\\nACTIVITIES_DURATION_MSECS="@, "PROFILE_START_ITERATION"@),
{
    let lt2 = "\\nACTIVITIES_DURATION_MSECS="@;
    let n1 = "ACTIVITIES_ITERATIONS="@;
    let n2 = "PROFILE_START_ITERATION"@;
    reveal_strlit("\\nACTIVITIES_DURATION_MSECS=");
    reveal_strlit("ACTIVITIES_ITERATIONS=");
    reveal_strlit("PROFILE_START_ITERATION");
    assert forall|i: int| !matches_at(lt2, n1, i) by {
        if matches_at(lt2, n1, i) {
            assert(lt2.subrange(i, i + n1.len() as int)[0] == lt2[i]);
            assert(lt2.subrange(i, i + n1.len() as int)[11] == lt2[i + 11]);
        }
    }
    assert forall|i: int| !matches_at(lt2, n2, i) by {
        if matches_at(lt2, n2, i) {
            assert(lt2.subrange(i, i + n2.len() as int)[0] == lt2[i]);
        }
    }
}

/// The duration-based blob carries the start-time and duration keys
/// with their values.
#[verifier::rlimit(100)]
proof fn lemma_duration_positive_keys(
    log_file: Seq<char>,
    activities: Seq<char>,
    verbose_log_level: int,
    warmup_secs: nat,
    start_time: u64,
    duration_ms: u64,
)
    ensures
        ({
            let blob = kineto_config_text(
                log_file,
                activities,
                verbose_log_level,
                warmup_secs,
                (TimingPolicy::ByDuration { start_time, duration_ms }),
            );
            &&& contains_seq(blob, "PROFILE_START_TIME="@ + dec_u(start_time as nat))
            &&& contains_seq(blob, "ACTIVITIES_DURATION_MSECS="@ + dec_u(duration_ms as nat))
        }),
{
    let l1 = "ACTIVITIES_LOG_FILE="@;
    let l2 = "\\nACTIVITY_TYPES="@;
    let l3 = "\\nVERBOSE_LOG_LEVEL="@;
    let l4 = "\\nACTIVITIES_WARMUP_PERIOD_SECS="@;
    let l5 = "\\n"@;
    let lt1 = "PROFILE_START_TIME="@;
    let lt2 = "\\nACTIVITIES_DURATION_MSECS="@;
    let nd = "ACTIVITIES_DURATION_MSECS="@;
    let dv = dec_i(verbose_log_level);
    let dw = dec_u(warmup_secs);
    let ds = dec_u(start_time as nat);
    let dd = dec_u(duration_ms as nat);
    let p = TimingPolicy::ByDuration { start_time, duration_ms };
    let blob = kineto_config_text(log_file, activities, verbose_log_level, warmup_secs, p);

    reveal_strlit("\\n");
    reveal_strlit("\\nACTIVITIES_DURATION_MSECS=");
    reveal_strlit("ACTIVITIES_DURATION_MSECS=");

    let u8 = l1 + log_file + l2 + activities + l3 + dv + l4 + dw + l5;
    let v1 = lt1 + ds;
    assert(blob == u8 + (v1 + lt2 + dd));

    assert(blob =~= u8 + (lt1 + ds) + (lt2 + dd));
    lemma_contains_concat(u8, lt1 + ds, lt2 + dd);

    assert(lt2 =~= l5 + nd);
    assert(blob =~= (u8 + v1 + l5) + (nd + dd) + Seq::<char>::empty());
    lemma_contains_concat(u8 + v1 + l5, nd + dd, Seq::<char>::empty());
}

/// With a duration-based policy the configuration blob carries the
/// start-time and duration keys with their values, and holds no
/// occurrence of the iteration-count key nor of `PROFILE_START_ITERATION`
/// (so neither the start-iteration nor the roundup key, both of which
/// begin with it): the two timing forms never mix. The free-text inputs
/// must not themselves hold either absent key, since they pass into the
/// blob verbatim.
#[verifier::rlimit(100)]
pub proof fn lemma_duration_config_keys(
    log_file: Seq<char>,
    activities: Seq<char>,
    verbose_log_level: int,
    warmup_secs: nat,
    start_time: u64,
    duration_ms: u64,
)
    requires
        !contains_seq(log_file, "ACTIVITIES_ITERATIONS="@),
        !contains_seq(activities, "ACTIVITIES_ITERATIONS="@),
        !contains_seq(log_file, "PROFILE_START_ITERATION"@),
        !contains_seq(activities, "PROFILE_START_ITERATION"@),
    ensures
        ({
            let blob = kineto_config_text(
                log_file,
                activities,
                verbose_log_level,
                warmup_secs,
                (TimingPolicy::ByDuration { start_time, duration_ms }),
            );
            &&& contains_seq(blob, "PROFILE_START_TIME="@ + dec_u(start_time as nat))
            &&& contains_seq(blob, "ACTIVITIES_DURATION_MSECS="@ + dec_u(duration_ms as nat))
            &&& !contains_seq(blob, "ACTIVITIES_ITERATIONS="@)
            &&& !contains_seq(blob, "PROFILE_START_ITERATION"@)
        }),
{
    let n1 = "ACTIVITIES_ITERATIONS="@;
    let n2 = "PROFILE_START_ITERATION"@;
    let l1 = "ACTIVITIES_LOG_FILE="@;
    let l2 = "\\nACTIVITY_TYPES="@;
    let l3 = "\\nVERBOSE_LOG_LEVEL="@;
    let l4 = "\\nACTIVITIES_WARMUP_PERIOD_SECS="@;
    let l5 = "\\n"@;
    let lt1 = "PROFILE_START_TIME="@;
    let lt2 = "\\nACTIVITIES_DURATION_MSECS="@;
    let dv = dec_i(verbose_log_level);
    let dw = dec_u(warmup_secs);
    let ds = dec_u(start_time as nat);
    let dd = dec_u(duration_ms as nat);
    let p = TimingPolicy::ByDuration { start_time, duration_ms };
    let blob = kineto_config_text(log_file, activities, verbose_log_level, warmup_secs, p);

    reveal_strlit("ACTIVITIES_ITERATIONS=");
    reveal_strlit("PROFILE_START_ITERATION");
    reveal_strlit("ACTIVITIES_LOG_FILE=");
    reveal_strlit("\\nACTIVITY_TYPES=");
    reveal_strlit("\\nVERBOSE_LOG_LEVEL=");
    reveal_strlit("\\nACTIVITIES_WARMUP_PERIOD_SECS=");
    reveal_strlit("\\n");
    reveal_strlit("PROFILE_START_TIME=");
    reveal_strlit("\\nACTIVITIES_DURATION_MSECS=");
    reveal_strlit("ACTIVITIES_DURATION_MSECS=");

    let u8 = l1 + log_file + l2 + activities + l3 + dv + l4 + dw + l5;
    let v1 = lt1 + ds;
    let v2 = v1 + lt2;
    let v3 = v2 + dd;
    assert(blob == u8 + v3);

    // the start-time and duration keys stand in the blob with their values
    lemma_duration_positive_keys(
        log_file,
        activities,
        verbose_log_level,
        warmup_secs,
        start_time,
        duration_ms,
    );

    // neither absent key occurs in any concrete piece of the blob
    lemma_warmup_literal_free_of_iteration_keys();
    lemma_duration_literal_free_of_iteration_keys();

    // no occurrence of the iteration-count key anywhere in the blob
    assert(!is_dec_char(n1[0]));
    lemma_common_prefix_free(log_file, activities, verbose_log_level, warmup_secs, n1);
    lemma_duration_tail_free(start_time, duration_ms, n1);
    assert(v1[0] == lt1[0]);
    assert(v2[0] == v1[0]);
    assert(v3[0] == v2[0]);
    lemma_concat_free_by_first(u8, v3, n1);

    // and none of the start-iteration key prefix either
    assert(!is_dec_char(n2[0]));
    lemma_common_prefix_free(log_file, activities, verbose_log_level, warmup_secs, n2);
    lemma_duration_tail_free(start_time, duration_ms, n2);
    lemma_concat_free_by_first(u8, v3, n2);
}

} // verus!
