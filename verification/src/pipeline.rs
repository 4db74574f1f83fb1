//! The cleanup pipeline composed: the ignore filter, the Probe phase
//! and the simulated Act phase over one batch of measured candidates,
//! collected into a report.
//!
//! For a live run the stages run separately — the caller deletes and
//! re-measures between Probe and Act — but the same filter and Probe
//! contracts govern both modes.

use vstd::prelude::*;

use crate::aggregate::{total_bytes, Report};
use crate::engine::{
    act_simulate, cap_u64, kept_inputs, kept_total, measured_size, path_to_check_ok, probe_keeps,
    probe_outcome_ok, probe_phase, probe_reports, reported_inputs, safety_excluded,
    simulated_outcome_ok, Candidate, Outcome, PathToCheck, ProbeInput, SafetyConfig,
};
use crate::ignore::{ignored_by_any, is_ignored, views_of};

verus! {

/// Whether a candidate is excluded by the canonical ignore patterns.
pub open spec fn cand_ignored(c: Candidate, pats: Seq<Seq<char>>) -> bool {
    ignored_by_any(c.canonical@, pats)
}

/// The candidates not excluded by the user, in order.
pub open spec fn surviving_candidates(cands: Seq<Candidate>, pats: Seq<Seq<char>>) -> Seq<
    Candidate,
>
    decreases cands.len(),
{
    if cands.len() == 0 {
        Seq::empty()
    } else {
        let rest = surviving_candidates(cands.drop_last(), pats);
        if !cand_ignored(cands.last(), pats) {
            rest.push(cands.last())
        } else {
            rest
        }
    }
}

/// The candidates excluded by the user, in order.
pub open spec fn excluded_candidates(cands: Seq<Candidate>, pats: Seq<Seq<char>>) -> Seq<Candidate>
    decreases cands.len(),
{
    if cands.len() == 0 {
        Seq::empty()
    } else {
        let rest = excluded_candidates(cands.drop_last(), pats);
        if cand_ignored(cands.last(), pats) {
            rest.push(cands.last())
        } else {
            rest
        }
    }
}

/// Splits candidates into those that go on to Probe and those the user
/// excluded, which never reach Probe or Act.
pub fn partition_ignored(cands: &Vec<Candidate>, pats: &Vec<String>) -> (r: (
    Vec<Candidate>,
    Vec<Candidate>,
))
    ensures
        r.0@ == surviving_candidates(cands@, views_of(pats@)),
        r.1@ == excluded_candidates(cands@, views_of(pats@)),
{
    let ghost pviews = views_of(pats@);
    let mut kept: Vec<Candidate> = Vec::new();
    let mut dropped: Vec<Candidate> = Vec::new();
    let mut j: usize = 0;
    while j < cands.len()
        invariant
            0 <= j <= cands@.len(),
            pviews == views_of(pats@),
            kept@ == surviving_candidates(cands@.take(j as int), pviews),
            dropped@ == excluded_candidates(cands@.take(j as int), pviews),
        decreases cands@.len() - j,
    {
        proof {
            assert(cands@.take(j + 1).drop_last() =~= cands@.take(j as int));
            assert(cands@.take(j + 1).last() == cands@[j as int]);
        }
        if is_ignored(cands[j].canonical.as_str(), pats) {
            dropped.push(cands[j].clone());
        } else {
            kept.push(cands[j].clone());
        }
        j += 1;
    }
    proof {
        assert(cands@.take(cands@.len() as int) =~= cands@);
    }
    (kept, dropped)
}

/// Whether an input's candidate is excluded by the canonical patterns.
pub open spec fn input_ignored(inp: ProbeInput, pats: Seq<Seq<char>>) -> bool {
    ignored_by_any(inp.candidate.canonical@, pats)
}

/// The measured inputs not excluded by the user, in order.
pub open spec fn surviving_inputs(inputs: Seq<ProbeInput>, pats: Seq<Seq<char>>) -> Seq<ProbeInput>
    decreases inputs.len(),
{
    if inputs.len() == 0 {
        Seq::empty()
    } else {
        let rest = surviving_inputs(inputs.drop_last(), pats);
        if !input_ignored(inputs.last(), pats) {
            rest.push(inputs.last())
        } else {
            rest
        }
    }
}

/// The measured inputs excluded by the user, in order.
pub open spec fn excluded_inputs(inputs: Seq<ProbeInput>, pats: Seq<Seq<char>>) -> Seq<ProbeInput>
    decreases inputs.len(),
{
    if inputs.len() == 0 {
        Seq::empty()
    } else {
        let rest = excluded_inputs(inputs.drop_last(), pats);
        if input_ignored(inputs.last(), pats) {
            rest.push(inputs.last())
        } else {
            rest
        }
    }
}

/// Probe reports a vanished path as a Failure.
pub open spec fn fails_probe(inp: ProbeInput, cfg: SafetyConfig) -> bool {
    !safety_excluded(inp.candidate.path@, cfg) && inp.measurement is Missing
}

/// Probe reports a safety exclusion or a failed size check as a Skip.
pub open spec fn skips_probe(inp: ProbeInput, cfg: SafetyConfig) -> bool {
    safety_excluded(inp.candidate.path@, cfg) || inp.measurement is Failed
}

/// The inputs Probe reports as Failures, in order.
pub open spec fn failing_inputs(inputs: Seq<ProbeInput>, cfg: SafetyConfig) -> Seq<ProbeInput>
    decreases inputs.len(),
{
    if inputs.len() == 0 {
        Seq::empty()
    } else {
        let rest = failing_inputs(inputs.drop_last(), cfg);
        if fails_probe(inputs.last(), cfg) {
            rest.push(inputs.last())
        } else {
            rest
        }
    }
}

/// The inputs Probe reports as Skips, in order.
pub open spec fn skipping_inputs(inputs: Seq<ProbeInput>, cfg: SafetyConfig) -> Seq<ProbeInput>
    decreases inputs.len(),
{
    if inputs.len() == 0 {
        Seq::empty()
    } else {
        let rest = skipping_inputs(inputs.drop_last(), cfg);
        if skips_probe(inputs.last(), cfg) {
            rest.push(inputs.last())
        } else {
            rest
        }
    }
}

/// The inputs Probe drops silently as empty, in order.
pub open spec fn dropped_inputs(inputs: Seq<ProbeInput>, cfg: SafetyConfig) -> Seq<ProbeInput>
    decreases inputs.len(),
{
    if inputs.len() == 0 {
        Seq::empty()
    } else {
        let rest = dropped_inputs(inputs.drop_last(), cfg);
        if crate::engine::probe_drops(inputs.last(), cfg) {
            rest.push(inputs.last())
        } else {
            rest
        }
    }
}

/// Law: conservation — every candidate that reaches Probe is counted
/// exactly once: kept for Act, dropped as empty, reported as a Failure,
/// or reported as a Skip; none are lost.
pub proof fn lemma_probe_conservation(inputs: Seq<ProbeInput>, cfg: SafetyConfig)
    ensures
        kept_inputs(inputs, cfg).len() + dropped_inputs(inputs, cfg).len() + failing_inputs(
            inputs,
            cfg,
        ).len() + skipping_inputs(inputs, cfg).len() == inputs.len(),
    decreases inputs.len(),
{
    if inputs.len() > 0 {
        lemma_probe_conservation(inputs.drop_last(), cfg);
        crate::engine::lemma_probe_partition(inputs.last(), cfg);
    }
}

/// Every reported input satisfies `probe_reports`, and the reported
/// Failures and Skips of a batch are the Failures and Skips of its
/// reported inputs.
proof fn lemma_reported_structure(inputs: Seq<ProbeInput>, cfg: SafetyConfig)
    ensures
        forall|i: int|
            0 <= i < reported_inputs(inputs, cfg).len() ==> probe_reports(
                #[trigger] reported_inputs(inputs, cfg)[i],
                cfg,
            ),
        failing_inputs(reported_inputs(inputs, cfg), cfg) == failing_inputs(inputs, cfg),
        skipping_inputs(reported_inputs(inputs, cfg), cfg) == skipping_inputs(inputs, cfg),
    decreases inputs.len(),
{
    if inputs.len() > 0 {
        lemma_reported_structure(inputs.drop_last(), cfg);
        let rep = reported_inputs(inputs, cfg);
        let last = inputs.last();
        if probe_reports(last, cfg) {
            assert(rep.drop_last() =~= reported_inputs(inputs.drop_last(), cfg));
        }
    }
}

/// Every input among the reported Failures fails the probe.
proof fn lemma_failing_all_fail(inputs: Seq<ProbeInput>, cfg: SafetyConfig)
    ensures
        forall|i: int|
            0 <= i < failing_inputs(inputs, cfg).len() ==> fails_probe(
                #[trigger] failing_inputs(inputs, cfg)[i],
                cfg,
            ),
    decreases inputs.len(),
{
    if inputs.len() > 0 {
        lemma_failing_all_fail(inputs.drop_last(), cfg);
        let rest = failing_inputs(inputs.drop_last(), cfg);
        let cur = failing_inputs(inputs, cfg);
        assert forall|i: int| 0 <= i < cur.len() implies fails_probe(cur[i], cfg) by {
            if fails_probe(inputs.last(), cfg) {
                assert(cur == rest.push(inputs.last()));
                if i < rest.len() {
                    assert(cur[i] == rest[i]);
                } else {
                    assert(cur[i] == inputs.last());
                }
            } else {
                assert(cur == rest);
            }
        }
    }
}

/// Every input among the reported Skips skips the probe.
proof fn lemma_skipping_all_skip(inputs: Seq<ProbeInput>, cfg: SafetyConfig)
    ensures
        forall|i: int|
            0 <= i < skipping_inputs(inputs, cfg).len() ==> skips_probe(
                #[trigger] skipping_inputs(inputs, cfg)[i],
                cfg,
            ),
    decreases inputs.len(),
{
    if inputs.len() > 0 {
        lemma_skipping_all_skip(inputs.drop_last(), cfg);
        let rest = skipping_inputs(inputs.drop_last(), cfg);
        let cur = skipping_inputs(inputs, cfg);
        assert forall|i: int| 0 <= i < cur.len() implies skips_probe(cur[i], cfg) by {
            if skips_probe(inputs.last(), cfg) {
                assert(cur == rest.push(inputs.last()));
                if i < rest.len() {
                    assert(cur[i] == rest[i]);
                } else {
                    assert(cur[i] == inputs.last());
                }
            } else {
                assert(cur == rest);
            }
        }
    }
}

/// The sum of the measured sizes of a batch of inputs.
pub open spec fn sum_measured(inputs: Seq<ProbeInput>) -> nat
    decreases inputs.len(),
{
    if inputs.len() == 0 {
        0
    } else {
        sum_measured(inputs.drop_last()) + measured_size(inputs.last()) as nat
    }
}

/// The total Probe keeps equals the summed sizes of the kept inputs.
proof fn lemma_kept_total_is_sum(inputs: Seq<ProbeInput>, cfg: SafetyConfig)
    ensures
        kept_total(inputs, cfg) == sum_measured(kept_inputs(inputs, cfg)),
    decreases inputs.len(),
{
    if inputs.len() > 0 {
        lemma_kept_total_is_sum(inputs.drop_last(), cfg);
        if probe_keeps(inputs.last(), cfg) {
            assert(kept_inputs(inputs, cfg).drop_last() =~= kept_inputs(
                inputs.drop_last(),
                cfg,
            ));
        }
    }
}

/// Probe results matching their inputs carry the same sizes in sum.
proof fn lemma_total_initial_is_sum(items: Seq<PathToCheck>, inputs: Seq<ProbeInput>)
    requires
        items.len() == inputs.len(),
        forall|i: int| 0 <= i < items.len() ==> path_to_check_ok(inputs[i], #[trigger] items[i]),
    ensures
        crate::engine::total_initial(items) == sum_measured(inputs),
    decreases items.len(),
{
    if items.len() > 0 {
        lemma_total_initial_is_sum(items.drop_last(), inputs.drop_last());
    }
}

/// Simulated outcomes matching their probe results carry the same
/// bytes in sum.
proof fn lemma_total_bytes_matches(items: Seq<PathToCheck>, outs: Seq<Outcome>)
    requires
        outs.len() == items.len(),
        forall|i: int| 0 <= i < items.len() ==> simulated_outcome_ok(items[i], #[trigger] outs[i]),
    ensures
        total_bytes(outs) == crate::engine::total_initial(items),
    decreases items.len(),
{
    if items.len() > 0 {
        lemma_total_bytes_matches(items.drop_last(), outs.drop_last());
    }
}

/// The total a simulation reports for a batch of measured candidates:
/// the capped sum of the measured sizes of the candidates that survive
/// the ignore filter and are kept by Probe.
pub open spec fn sim_total(
    inputs: Seq<ProbeInput>,
    pats: Seq<Seq<char>>,
    cfg: SafetyConfig,
) -> nat {
    cap_u64(kept_total(surviving_inputs(inputs, pats), cfg))
}

/// How the report of a simulation corresponds to its inputs.
pub open spec fn simulation_report_ok(
    inputs: Seq<ProbeInput>,
    pats: Seq<Seq<char>>,
    cfg: SafetyConfig,
    rep: Report,
) -> bool {
    let surv = surviving_inputs(inputs, pats);
    let kept = kept_inputs(surv, cfg);
    let failing = failing_inputs(surv, cfg);
    let skipping = skipping_inputs(surv, cfg);
    let excl = excluded_inputs(inputs, pats);
    &&& rep.wf()
    &&& rep.successes@.len() == kept.len()
    &&& forall|i: int|
        0 <= i < kept.len() ==> ((#[trigger] rep.successes@[i]) matches Outcome::Success {
            path,
            category,
            bytes_freed,
        } && path@ == kept[i].candidate.path@ && category@ == kept[i].candidate.category@
            && bytes_freed == measured_size(kept[i]))
    &&& rep.failures@.len() == failing.len()
    &&& forall|i: int|
        0 <= i < failing.len() ==> probe_outcome_ok(failing[i], cfg, #[trigger] rep.failures@[i])
    &&& rep.skips@.len() == skipping.len()
    &&& forall|i: int|
        0 <= i < skipping.len() ==> probe_outcome_ok(skipping[i], cfg, #[trigger] rep.skips@[i])
    &&& rep.ignored@.len() == excl.len()
    &&& forall|i: int| 0 <= i < excl.len() ==> (#[trigger] rep.ignored@[i])@ == excl[i].candidate.path@
    &&& rep.total_freed as nat == sim_total(inputs, pats, cfg)
}

/// Runs the whole cleanup pipeline in simulation over one batch of
/// measured candidates: the user's exclusions are set aside and logged,
/// the rest are probed, and every kept probe result becomes a Success
/// for its probed size; nothing is touched.
pub fn cleanup_simulation(inputs: &Vec<ProbeInput>, pats: &Vec<String>, cfg: &SafetyConfig) -> (rep:
    Report)
    ensures
        simulation_report_ok(inputs@, views_of(pats@), *cfg, rep),
{
    let ghost pviews = views_of(pats@);
    let mut survivors: Vec<ProbeInput> = Vec::new();
    let mut ignored_paths: Vec<String> = Vec::new();
    let mut j: usize = 0;
    while j < inputs.len()
        invariant
            0 <= j <= inputs@.len(),
            pviews == views_of(pats@),
            survivors@ == surviving_inputs(inputs@.take(j as int), pviews),
            ignored_paths@.len() == excluded_inputs(inputs@.take(j as int), pviews).len(),
            forall|i: int|
                0 <= i < ignored_paths@.len() ==> (#[trigger] ignored_paths@[i])@
                    == excluded_inputs(inputs@.take(j as int), pviews)[i].candidate.path@,
        decreases inputs@.len() - j,
    {
        proof {
            assert(inputs@.take(j + 1).drop_last() =~= inputs@.take(j as int));
            assert(inputs@.take(j + 1).last() == inputs@[j as int]);
        }
        if is_ignored(inputs[j].candidate.canonical.as_str(), pats) {
            ignored_paths.push(inputs[j].candidate.path.clone());
        } else {
            survivors.push(inputs[j].clone());
        }
        j += 1;
    }
    proof {
        assert(inputs@.take(inputs@.len() as int) =~= inputs@);
    }
    let ghost surv = surviving_inputs(inputs@, pviews);

    let (items, probe_outs) = probe_phase(&survivors, cfg);
    let (succ_outs, total) = act_simulate(&items);

    let ghost rep_in = reported_inputs(surv, *cfg);
    proof {
        lemma_reported_structure(surv, *cfg);
    }
    let mut failures: Vec<Outcome> = Vec::new();
    let mut skips: Vec<Outcome> = Vec::new();
    let mut k: usize = 0;
    while k < probe_outs.len()
        invariant
            0 <= k <= probe_outs@.len(),
            probe_outs@.len() == rep_in.len(),
            forall|i: int|
                0 <= i < rep_in.len() ==> probe_outcome_ok(rep_in[i], *cfg, #[trigger] probe_outs@[i]),
            forall|i: int| 0 <= i < rep_in.len() ==> probe_reports(#[trigger] rep_in[i], *cfg),
            failures@.len() == failing_inputs(rep_in.take(k as int), *cfg).len(),
            forall|i: int|
                0 <= i < failures@.len() ==> probe_outcome_ok(
                    failing_inputs(rep_in.take(k as int), *cfg)[i],
                    *cfg,
                    #[trigger] failures@[i],
                ),
            skips@.len() == skipping_inputs(rep_in.take(k as int), *cfg).len(),
            forall|i: int|
                0 <= i < skips@.len() ==> probe_outcome_ok(
                    skipping_inputs(rep_in.take(k as int), *cfg)[i],
                    *cfg,
                    #[trigger] skips@[i],
                ),
        decreases probe_outs@.len() - k,
    {
        proof {
            assert(rep_in.take(k + 1).drop_last() =~= rep_in.take(k as int));
            assert(rep_in.take(k + 1).last() == rep_in[k as int]);
        }
        match &probe_outs[k] {
            Outcome::Failure { .. } => {
                proof {
                    assert(fails_probe(rep_in[k as int], *cfg));
                }
                failures.push(probe_outs[k].clone());
            },
            Outcome::Skip { .. } => {
                proof {
                    assert(skips_probe(rep_in[k as int], *cfg));
                    assert(!fails_probe(rep_in[k as int], *cfg));
                }
                skips.push(probe_outs[k].clone());
            },
            Outcome::Success { .. } => {
                proof {
                    assert(false);
                }
            },
        }
        k += 1;
    }
    proof {
        assert(rep_in.take(rep_in.len() as int) =~= rep_in);
        lemma_kept_total_is_sum(surv, *cfg);
        lemma_total_initial_is_sum(items@, kept_inputs(surv, *cfg));
        lemma_total_bytes_matches(items@, succ_outs@);
        lemma_failing_all_fail(surv, *cfg);
        lemma_skipping_all_skip(surv, *cfg);
        let kept = kept_inputs(surv, *cfg);
        assert forall|i: int| 0 <= i < kept.len() implies ((#[trigger] succ_outs@[i])
            matches Outcome::Success { path, category, bytes_freed } && path@
            == kept[i].candidate.path@ && category@ == kept[i].candidate.category@ && bytes_freed
            == measured_size(kept[i])) by {
            assert(simulated_outcome_ok(items@[i], succ_outs@[i]));
            assert(path_to_check_ok(kept[i], items@[i]));
        }
        let failing = failing_inputs(surv, *cfg);
        assert forall|i: int| 0 <= i < failures@.len() implies (#[trigger] failures@[i])
            is Failure by {
            assert(probe_outcome_ok(failing[i], *cfg, failures@[i]));
            assert(fails_probe(failing[i], *cfg));
        }
        let skipping = skipping_inputs(surv, *cfg);
        assert forall|i: int| 0 <= i < skips@.len() implies (#[trigger] skips@[i]) is Skip by {
            assert(probe_outcome_ok(skipping[i], *cfg, skips@[i]));
            assert(skips_probe(skipping[i], *cfg));
        }
    }
    Report { successes: succ_outs, failures, skips, ignored: ignored_paths, total_freed: total }
}

/// Law: a candidate excluded by the ignore patterns never survives the
/// filter — it reaches neither Probe nor Act — and, if it was in the
/// batch at all, it appears among the excluded candidates that the
/// ignored-paths log records.
pub proof fn lemma_ignored_never_processed(
    inputs: Seq<ProbeInput>,
    pats: Seq<Seq<char>>,
    inp: ProbeInput,
)
    requires
        ignored_by_any(inp.candidate.canonical@, pats),
    ensures
        !surviving_inputs(inputs, pats).contains(inp),
        inputs.contains(inp) ==> excluded_inputs(inputs, pats).contains(inp),
    decreases inputs.len(),
{
    if inputs.len() > 0 {
        lemma_ignored_never_processed(inputs.drop_last(), pats, inp);
        if inputs.contains(inp) {
            let excl = excluded_inputs(inputs, pats);
            if inp == inputs.last() {
                assert(excl[excl.len() - 1] == inp);
            } else {
                let i = choose|i: int| 0 <= i < inputs.len() && inputs[i] == inp;
                assert(inputs.drop_last()[i] == inp);
                assert(inputs.drop_last().contains(inp));
                let prev = excluded_inputs(inputs.drop_last(), pats);
                let w = choose|w: int| 0 <= w < prev.len() && prev[w] == inp;
                assert(excl[w] == inp);
            }
        }
    }
}

/// Law: invoking the cleanup pipeline twice in simulation mode, with
/// the same candidates, measurements, patterns and configuration — no
/// filesystem change between the runs — yields identical totals.
pub proof fn lemma_simulation_idempotent(
    first: Seq<ProbeInput>,
    second: Seq<ProbeInput>,
    pats: Seq<Seq<char>>,
    cfg: SafetyConfig,
)
    requires
        first == second,
    ensures
        sim_total(first, pats, cfg) == sim_total(second, pats, cfg),
{
}

} // verus!
