//! The clean engine: the two-phase Probe/Act protocol.
//!
//! Probe classifies each candidate, given its observed measurement, into
//! a probe result (kept for Act), a dropped empty path, or a reported
//! outcome (a safety skip, a vanished path, or a failed size check).
//! Act turns each probe result into exactly one outcome: in simulation
//! it records the probed size as freed without touching anything; in a
//! live run it is handed the observed deletion result and re-measured
//! size and computes the bytes actually freed.
//!
//! All filesystem observation happens outside: the engine receives plain
//! values and its contracts pin down every classification.

use vstd::prelude::*;

use crate::format::{bytes_to_human, human_size};

verus! {

/// A filesystem path proposed by a source for possible cleanup, with
/// the category that proposed it. `canonical` is the canonicalized form
/// of `path` where canonicalization succeeded, and `path` itself where
/// it did not.
pub struct Candidate {
    pub path: String,
    pub canonical: String,
    pub category: String,
}

impl Clone for Candidate {
    fn clone(&self) -> (r: Self)
        ensures
            r == *self,
    {
        Candidate {
            path: self.path.clone(),
            canonical: self.canonical.clone(),
            category: self.category.clone(),
        }
    }
}

/// The observed result of measuring a candidate's size.
pub enum Measurement {
    /// The path no longer exists.
    Missing,
    /// The path exists and its total size in bytes was measured.
    Measured(u64),
    /// The size check failed, with the error's description.
    Failed(String),
}

impl Clone for Measurement {
    fn clone(&self) -> (r: Self)
        ensures
            r == *self,
    {
        match self {
            Measurement::Missing => Measurement::Missing,
            Measurement::Measured(s) => Measurement::Measured(*s),
            Measurement::Failed(e) => Measurement::Failed(e.clone()),
        }
    }
}

/// A candidate together with its observed measurement: the input to the
/// Probe phase.
pub struct ProbeInput {
    pub candidate: Candidate,
    pub measurement: Measurement,
}

impl Clone for ProbeInput {
    fn clone(&self) -> (r: Self)
        ensures
            r == *self,
    {
        ProbeInput { candidate: self.candidate.clone(), measurement: self.measurement.clone() }
    }
}

/// A probe result: a candidate confirmed to exist, not excluded, with
/// known non-zero size, ready for the Act phase.
pub struct PathToCheck {
    pub path: String,
    pub initial_size: u64,
    pub formatted_size: String,
    pub cleaner_name: String,
}

/// The terminal classification of a candidate: exactly one outcome per
/// path that reaches Probe and is not dropped as empty.
pub enum Outcome {
    /// The path was (or, in simulation, would be) removed, freeing
    /// `bytes_freed` bytes.
    Success { path: String, category: String, bytes_freed: u64 },
    /// The path vanished before probing, or its deletion failed.
    Failure { path: String, error: String },
    /// The path was set aside: a safety exclusion, a failed size check,
    /// or a deletion that freed no space.
    Skip { path: String, reason: String },
}

impl Clone for Outcome {
    fn clone(&self) -> (r: Self)
        ensures
            r == *self,
    {
        match self {
            Outcome::Success { path, category, bytes_freed } => Outcome::Success {
                path: path.clone(),
                category: category.clone(),
                bytes_freed: *bytes_freed,
            },
            Outcome::Failure { path, error } => Outcome::Failure {
                path: path.clone(),
                error: error.clone(),
            },
            Outcome::Skip { path, reason } => Outcome::Skip {
                path: path.clone(),
                reason: reason.clone(),
            },
        }
    }
}

/// The hard safety exclusions: the root temporary directory and the
/// currently active temporary directory, which are never deleted.
pub struct SafetyConfig {
    pub temp_root: String,
    pub active_tmp: Option<String>,
}

/// Whether `path` is one of the protected temporary locations.
pub open spec fn safety_excluded(path: Seq<char>, cfg: SafetyConfig) -> bool {
    ||| path == cfg.temp_root@
    ||| match cfg.active_tmp {
        Some(t) => path == t@,
        None => false,
    }
}

/// The measured size of an input, zero unless it was measured.
pub open spec fn measured_size(inp: ProbeInput) -> u64 {
    match inp.measurement {
        Measurement::Measured(s) => s,
        _ => 0,
    }
}

/// Probe keeps an input for Act: not safety-excluded, measured, and of
/// non-zero size.
pub open spec fn probe_keeps(inp: ProbeInput, cfg: SafetyConfig) -> bool {
    &&& !safety_excluded(inp.candidate.path@, cfg)
    &&& inp.measurement matches Measurement::Measured(s) && s > 0
}

/// Probe drops an input silently: not safety-excluded, measured, and
/// empty.
pub open spec fn probe_drops(inp: ProbeInput, cfg: SafetyConfig) -> bool {
    &&& !safety_excluded(inp.candidate.path@, cfg)
    &&& inp.measurement matches Measurement::Measured(s) && s == 0
}

/// Probe reports an outcome at once: a safety exclusion, a vanished
/// path, or a failed size check.
pub open spec fn probe_reports(inp: ProbeInput, cfg: SafetyConfig) -> bool {
    ||| safety_excluded(inp.candidate.path@, cfg)
    ||| inp.measurement is Missing
    ||| inp.measurement is Failed
}

/// What the outcome reported by Probe for `inp` must be.
pub open spec fn probe_outcome_ok(inp: ProbeInput, cfg: SafetyConfig, out: Outcome) -> bool {
    if safety_excluded(inp.candidate.path@, cfg) {
        out matches Outcome::Skip { path, reason } && path@ == inp.candidate.path@ && reason@
            == "Active system temporary directory"@
    } else {
        match inp.measurement {
            Measurement::Missing => out matches Outcome::Failure { path, error } && path@
                == inp.candidate.path@ && error@ == "Not found"@,
            Measurement::Failed(e) => out matches Outcome::Skip { path, reason } && path@
                == inp.candidate.path@ && reason@ == "Size check failed: "@ + e@,
            Measurement::Measured(_) => false,
        }
    }
}

/// How a kept probe result corresponds to its input.
pub open spec fn path_to_check_ok(inp: ProbeInput, item: PathToCheck) -> bool {
    &&& item.path@ == inp.candidate.path@
    &&& item.cleaner_name@ == inp.candidate.category@
    &&& item.initial_size == measured_size(inp)
    &&& item.formatted_size@ == human_size(measured_size(inp) as nat)
}

/// What Probe does with one input.
pub enum ProbeStep {
    /// Kept for the Act phase.
    Keep(PathToCheck),
    /// Classified at once.
    Report(Outcome),
    /// Dropped silently: measured size zero.
    Drop,
}

/// Law: Probe classifies every input exactly one way — kept, dropped,
/// or reported.
pub proof fn lemma_probe_partition(inp: ProbeInput, cfg: SafetyConfig)
    ensures
        probe_keeps(inp, cfg) || probe_drops(inp, cfg) || probe_reports(inp, cfg),
        probe_keeps(inp, cfg) ==> !probe_drops(inp, cfg) && !probe_reports(inp, cfg),
        probe_drops(inp, cfg) ==> !probe_keeps(inp, cfg) && !probe_reports(inp, cfg),
        probe_reports(inp, cfg) ==> !probe_keeps(inp, cfg) && !probe_drops(inp, cfg),
{
}

/// Probes one input: applies the safety exclusion, then classifies by
/// the observed measurement.
pub fn probe_one(inp: &ProbeInput, cfg: &SafetyConfig) -> (r: ProbeStep)
    ensures
        probe_keeps(*inp, *cfg) ==> (r matches ProbeStep::Keep(item) && path_to_check_ok(
            *inp,
            item,
        )),
        probe_drops(*inp, *cfg) ==> r is Drop,
        probe_reports(*inp, *cfg) ==> (r matches ProbeStep::Report(out) && probe_outcome_ok(
            *inp,
            *cfg,
            out,
        )),
{
    let is_root = inp.candidate.path == cfg.temp_root;
    let is_active = match &cfg.active_tmp {
        Some(t) => inp.candidate.path == *t,
        None => false,
    };
    if is_root || is_active {
        ProbeStep::Report(
            Outcome::Skip {
                path: inp.candidate.path.clone(),
                reason: String::from_str("Active system temporary directory"),
            },
        )
    } else {
        match &inp.measurement {
            Measurement::Missing => ProbeStep::Report(
                Outcome::Failure {
                    path: inp.candidate.path.clone(),
                    error: String::from_str("Not found"),
                },
            ),
            Measurement::Failed(e) => {
                let mut reason = String::from_str("Size check failed: ");
                reason.append(e.as_str());
                ProbeStep::Report(Outcome::Skip { path: inp.candidate.path.clone(), reason })
            },
            Measurement::Measured(s) => {
                if *s == 0 {
                    ProbeStep::Drop
                } else {
                    ProbeStep::Keep(
                        PathToCheck {
                            path: inp.candidate.path.clone(),
                            initial_size: *s,
                            formatted_size: bytes_to_human(*s),
                            cleaner_name: inp.candidate.category.clone(),
                        },
                    )
                }
            },
        }
    }
}

/// The inputs that Probe keeps for Act, in order.
pub open spec fn kept_inputs(inputs: Seq<ProbeInput>, cfg: SafetyConfig) -> Seq<ProbeInput>
    decreases inputs.len(),
{
    if inputs.len() == 0 {
        Seq::empty()
    } else {
        let rest = kept_inputs(inputs.drop_last(), cfg);
        if probe_keeps(inputs.last(), cfg) {
            rest.push(inputs.last())
        } else {
            rest
        }
    }
}

/// The inputs for which Probe reports an outcome at once, in order.
pub open spec fn reported_inputs(inputs: Seq<ProbeInput>, cfg: SafetyConfig) -> Seq<ProbeInput>
    decreases inputs.len(),
{
    if inputs.len() == 0 {
        Seq::empty()
    } else {
        let rest = reported_inputs(inputs.drop_last(), cfg);
        if probe_reports(inputs.last(), cfg) {
            rest.push(inputs.last())
        } else {
            rest
        }
    }
}

/// The sum of the measured sizes of the inputs Probe keeps.
pub open spec fn kept_total(inputs: Seq<ProbeInput>, cfg: SafetyConfig) -> nat
    decreases inputs.len(),
{
    if inputs.len() == 0 {
        0
    } else {
        kept_total(inputs.drop_last(), cfg) + if probe_keeps(inputs.last(), cfg) {
            measured_size(inputs.last()) as nat
        } else {
            0
        }
    }
}

/// Runs the Probe phase over a batch of inputs. Returns the probe
/// results kept for Act and the outcomes reported at once.
pub fn probe_phase(inputs: &Vec<ProbeInput>, cfg: &SafetyConfig) -> (r: (
    Vec<PathToCheck>,
    Vec<Outcome>,
))
    ensures
        r.0@.len() == kept_inputs(inputs@, *cfg).len(),
        forall|i: int|
            0 <= i < r.0@.len() ==> path_to_check_ok(kept_inputs(inputs@, *cfg)[i], r.0@[i]),
        r.1@.len() == reported_inputs(inputs@, *cfg).len(),
        forall|i: int|
            0 <= i < r.1@.len() ==> probe_outcome_ok(
                reported_inputs(inputs@, *cfg)[i],
                *cfg,
                r.1@[i],
            ),
{
    let mut results: Vec<PathToCheck> = Vec::new();
    let mut outcomes: Vec<Outcome> = Vec::new();
    let mut j: usize = 0;
    while j < inputs.len()
        invariant
            0 <= j <= inputs@.len(),
            results@.len() == kept_inputs(inputs@.take(j as int), *cfg).len(),
            forall|i: int|
                0 <= i < results@.len() ==> path_to_check_ok(
                    kept_inputs(inputs@.take(j as int), *cfg)[i],
                    results@[i],
                ),
            outcomes@.len() == reported_inputs(inputs@.take(j as int), *cfg).len(),
            forall|i: int|
                0 <= i < outcomes@.len() ==> probe_outcome_ok(
                    reported_inputs(inputs@.take(j as int), *cfg)[i],
                    *cfg,
                    outcomes@[i],
                ),
        decreases inputs@.len() - j,
    {
        proof {
            assert(inputs@.take(j + 1).drop_last() =~= inputs@.take(j as int));
            assert(inputs@.take(j + 1).last() == inputs@[j as int]);
            lemma_probe_partition(inputs@[j as int], *cfg);
        }
        match probe_one(&inputs[j], cfg) {
            ProbeStep::Keep(item) => {
                results.push(item);
            },
            ProbeStep::Report(out) => {
                outcomes.push(out);
            },
            ProbeStep::Drop => {},
        }
        j += 1;
    }
    proof {
        assert(inputs@.take(inputs@.len() as int) =~= inputs@);
    }
    (results, outcomes)
}

/// The sum of the initial sizes of a batch of probe results.
pub open spec fn total_initial(items: Seq<PathToCheck>) -> nat
    decreases items.len(),
{
    if items.len() == 0 {
        0
    } else {
        total_initial(items.drop_last()) + items.last().initial_size as nat
    }
}

/// `n` capped at the largest `u64`.
pub open spec fn cap_u64(n: nat) -> nat {
    if n <= u64::MAX as nat {
        n
    } else {
        u64::MAX as nat
    }
}

/// Adds without overflowing, capping at the largest `u64`.
pub fn saturating_add_u64(a: u64, b: u64) -> (r: u64)
    ensures
        r as nat == cap_u64(a as nat + b as nat),
{
    if b > u64::MAX - a {
        u64::MAX
    } else {
        a + b
    }
}

/// How a simulated Act outcome corresponds to its probe result: a
/// Success recording the probed size as freed.
pub open spec fn simulated_outcome_ok(item: PathToCheck, out: Outcome) -> bool {
    out matches Outcome::Success { path, category, bytes_freed } && path@ == item.path@ && category@
        == item.cleaner_name@ && bytes_freed == item.initial_size
}

/// The Act phase of a simulation: every probe result becomes a Success
/// recording its probed size, nothing is touched, and the total is the
/// capped sum of the probed sizes.
pub fn act_simulate(items: &Vec<PathToCheck>) -> (r: (Vec<Outcome>, u64))
    ensures
        r.0@.len() == items@.len(),
        forall|i: int| 0 <= i < items@.len() ==> simulated_outcome_ok(items@[i], #[trigger] r.0@[i]),
        r.1 as nat == cap_u64(total_initial(items@)),
{
    let mut outcomes: Vec<Outcome> = Vec::new();
    let mut total: u64 = 0;
    let mut j: usize = 0;
    while j < items.len()
        invariant
            0 <= j <= items@.len(),
            outcomes@.len() == j,
            forall|i: int| 0 <= i < j ==> simulated_outcome_ok(items@[i], #[trigger] outcomes@[i]),
            total as nat == cap_u64(total_initial(items@.take(j as int))),
        decreases items@.len() - j,
    {
        proof {
            assert(items@.take(j + 1).drop_last() =~= items@.take(j as int));
            assert(items@.take(j + 1).last() == items@[j as int]);
        }
        outcomes.push(
            Outcome::Success {
                path: items[j].path.clone(),
                category: items[j].cleaner_name.clone(),
                bytes_freed: items[j].initial_size,
            },
        );
        total = saturating_add_u64(total, items[j].initial_size);
        j += 1;
    }
    proof {
        assert(items@.take(items@.len() as int) =~= items@);
    }
    (outcomes, total)
}

/// What a live deletion attempt observed: the error if the deletion
/// failed, and the re-measured size afterwards.
pub struct ActObservation {
    pub delete_error: Option<String>,
    pub remeasured: Measurement,
}

/// The size a re-measurement reports: a vanished path counts as zero.
pub open spec fn after_size(m: Measurement) -> u64 {
    match m {
        Measurement::Missing => 0,
        Measurement::Measured(s) => s,
        Measurement::Failed(_) => 0,
    }
}

/// The bytes freed by a deletion: `max(0, before - after)`, never
/// negative.
pub open spec fn freed_bytes(before: u64, after: u64) -> u64 {
    if before > after {
        (before - after) as u64
    } else {
        0
    }
}

/// What the outcome of the live Act step for `item` must be, given the
/// observed deletion result and re-measurement.
pub open spec fn act_outcome_ok(item: PathToCheck, obs: ActObservation, out: Outcome) -> bool {
    match obs.delete_error {
        Some(e) => out matches Outcome::Failure { path, error } && path@ == item.path@ && error@
            == e@,
        None => match obs.remeasured {
            Measurement::Failed(e) => out matches Outcome::Skip { path, reason } && path@
                == item.path@ && reason@ == "Failed to get size after cleanup: "@ + e@,
            _ => {
                let freed = freed_bytes(item.initial_size, after_size(obs.remeasured));
                if freed > 0 {
                    out matches Outcome::Success { path, category, bytes_freed } && path@
                        == item.path@ && category@ == item.cleaner_name@ && bytes_freed == freed
                } else {
                    out matches Outcome::Skip { path, reason } && path@ == item.path@ && reason@
                        == "No space freed"@
                }
            },
        },
    }
}

/// The outcome once a deletion went through and the path re-measured at
/// `after` bytes: the freed difference as a Success, or a Skip when
/// nothing was freed.
fn act_live_freed(item: &PathToCheck, after: u64) -> (out: Outcome)
    ensures
        freed_bytes(item.initial_size, after) > 0 ==> simulated_outcome_ok(
            PathToCheck { initial_size: freed_bytes(item.initial_size, after), ..*item },
            out,
        ),
        freed_bytes(item.initial_size, after) == 0 ==> (out matches Outcome::Skip { path, reason }
            && path@ == item.path@ && reason@ == "No space freed"@),
{
    let freed = if item.initial_size > after {
        item.initial_size - after
    } else {
        0
    };
    if freed > 0 {
        Outcome::Success {
            path: item.path.clone(),
            category: item.cleaner_name.clone(),
            bytes_freed: freed,
        }
    } else {
        Outcome::Skip { path: item.path.clone(), reason: String::from_str("No space freed") }
    }
}

/// The live Act step for one probe result: a failed deletion is a
/// Failure; otherwise the freed bytes are `max(0, before - after)`,
/// with zero freed surfaced as a Skip rather than a Success.
pub fn act_live_one(item: &PathToCheck, obs: &ActObservation) -> (out: Outcome)
    ensures
        act_outcome_ok(*item, *obs, out),
{
    match &obs.delete_error {
        Some(e) => Outcome::Failure { path: item.path.clone(), error: e.clone() },
        None => match &obs.remeasured {
            Measurement::Failed(e) => {
                let mut reason = String::from_str("Failed to get size after cleanup: ");
                reason.append(e.as_str());
                Outcome::Skip { path: item.path.clone(), reason }
            },
            Measurement::Missing => act_live_freed(item, 0),
            Measurement::Measured(after) => act_live_freed(item, *after),
        },
    }
}

/// Runs the live Act phase over a batch of probe results and their
/// observations: exactly one outcome per probe result.
pub fn act_live_phase(items: &Vec<PathToCheck>, obs: &Vec<ActObservation>) -> (outs: Vec<Outcome>)
    requires
        obs@.len() == items@.len(),
    ensures
        outs@.len() == items@.len(),
        forall|i: int| 0 <= i < items@.len() ==> act_outcome_ok(items@[i], obs@[i], outs@[i]),
{
    let mut outcomes: Vec<Outcome> = Vec::new();
    let mut j: usize = 0;
    while j < items.len()
        invariant
            0 <= j <= items@.len(),
            obs@.len() == items@.len(),
            outcomes@.len() == j,
            forall|i: int| 0 <= i < j ==> act_outcome_ok(items@[i], obs@[i], outcomes@[i]),
        decreases items@.len() - j,
    {
        let out = act_live_one(&items[j], &obs[j]);
        outcomes.push(out);
        j += 1;
    }
    outcomes
}

/// Law: a candidate whose measured size is zero (and which is not a
/// safety exclusion) yields no probe result and no outcome: it is
/// neither kept for Act nor reported.
pub proof fn lemma_zero_size_no_outcome(
    inputs: Seq<ProbeInput>,
    cfg: SafetyConfig,
    inp: ProbeInput,
)
    requires
        inp.measurement == Measurement::Measured(0u64),
        !safety_excluded(inp.candidate.path@, cfg),
    ensures
        !kept_inputs(inputs, cfg).contains(inp),
        !reported_inputs(inputs, cfg).contains(inp),
    decreases inputs.len(),
{
    if inputs.len() > 0 {
        lemma_zero_size_no_outcome(inputs.drop_last(), cfg, inp);
    }
}

/// Law: the safety-excluded temporary locations always yield a Skip
/// with the fixed reason, whatever was measured and in either mode;
/// they are never kept for Act and never dropped silently.
pub proof fn lemma_safety_always_skip(inp: ProbeInput, cfg: SafetyConfig, out: Outcome)
    requires
        safety_excluded(inp.candidate.path@, cfg),
        probe_outcome_ok(inp, cfg, out),
    ensures
        !probe_keeps(inp, cfg),
        !probe_drops(inp, cfg),
        probe_reports(inp, cfg),
        out matches Outcome::Skip { path, reason } && path@ == inp.candidate.path@ && reason@
            == "Active system temporary directory"@,
{
}

/// Law: in a live run the bytes freed for a path equal
/// `max(0, size-before - size-after)`; a Success never reports more
/// than the probed size and never a negative amount.
pub proof fn lemma_freed_is_difference(item: PathToCheck, obs: ActObservation, out: Outcome)
    requires
        act_outcome_ok(item, obs, out),
        out is Success,
    ensures
        out matches Outcome::Success { bytes_freed, .. } ==> (bytes_freed == freed_bytes(
            item.initial_size,
            after_size(obs.remeasured),
        ) && bytes_freed <= item.initial_size),
{
}

} // verus!
