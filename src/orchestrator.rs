//! One scan: its phases, and the fold of every probe's outcome into a scan
//! run.
use vstd::prelude::*;
use crate::finding::{severity_sorted, sort_by_severity, ProbeSource, Vulnerability};
use crate::session::SandboxError;

verus! {

/// The phases of a scan, in their fixed order.
#[derive(PartialEq, Eq, Structural, Clone, Copy, Debug)]
pub enum ScanPhase {
    Idle,
    NativePhase,
    PluginPhase,
    Aggregated,
    Done,
}

impl ScanPhase {
    pub open spec fn spec_next(self) -> ScanPhase {
        match self {
            ScanPhase::Idle => ScanPhase::NativePhase,
            ScanPhase::NativePhase => ScanPhase::PluginPhase,
            ScanPhase::PluginPhase => ScanPhase::Aggregated,
            ScanPhase::Aggregated => ScanPhase::Done,
            ScanPhase::Done => ScanPhase::Done,
        }
    }

    /// The phase that follows this one; `Done` is final.
    pub fn next(self) -> (r: ScanPhase)
        ensures
            r == self.spec_next(),
    {
        match self {
            ScanPhase::Idle => ScanPhase::NativePhase,
            ScanPhase::NativePhase => ScanPhase::PluginPhase,
            ScanPhase::PluginPhase => ScanPhase::Aggregated,
            ScanPhase::Aggregated => ScanPhase::Done,
            ScanPhase::Done => ScanPhase::Done,
        }
    }
}

/// Why a probe contributed no findings.
#[derive(PartialEq, Eq, Structural, Clone, Copy, Debug)]
pub enum ProbeError {
    /// The network collaborator failed (timeout, refused connection, TLS).
    Transport,
    /// The module itself failed.
    ProbeLogic,
    /// The plugin's sandbox failed.
    Sandbox(SandboxError),
}

/// What one invoked probe ended with.
pub struct ProbeOutcome {
    pub source: ProbeSource,
    pub result: Result<Vec<Vulnerability>, ProbeError>,
}

/// A probe that failed, and why.
pub struct ProbeFailure {
    pub source: ProbeSource,
    pub error: ProbeError,
}

/// The whole output of one scan, handed to the reporting collaborator.
pub struct ScanRun {
    pub target: String,
    pub findings: Vec<Vulnerability>,
    pub failures: Vec<ProbeFailure>,
    pub started_at: i64,
    pub finished_at: i64,
}

/// The findings of every probe that completed without error, in the order
/// the outcomes are given.
pub open spec fn completed_findings(outs: Seq<ProbeOutcome>) -> Seq<Vulnerability>
    decreases outs.len(),
{
    if outs.len() == 0 {
        Seq::empty()
    } else {
        completed_findings(outs.drop_last()) + match outs.last().result {
            Ok(v) => v@,
            Err(_) => Seq::empty(),
        }
    }
}

/// The sum, over the probes that completed without error, of how many
/// findings each returned.
pub open spec fn completed_count(outs: Seq<ProbeOutcome>) -> nat
    decreases outs.len(),
{
    if outs.len() == 0 {
        0
    } else {
        completed_count(outs.drop_last()) + match outs.last().result {
            Ok(v) => v@.len(),
            Err(_) => 0,
        }
    }
}

/// The failed probes and their errors, in the order the outcomes are given.
pub open spec fn failures_of(outs: Seq<ProbeOutcome>) -> Seq<(ProbeSource, ProbeError)>
    decreases outs.len(),
{
    if outs.len() == 0 {
        Seq::empty()
    } else {
        failures_of(outs.drop_last()) + match outs.last().result {
            Ok(_) => Seq::empty(),
            Err(e) => seq![(outs.last().source, e)],
        }
    }
}

pub open spec fn failure_view(f: ProbeFailure) -> (ProbeSource, ProbeError) {
    (f.source, f.error)
}

/// Folds the outcomes of every probe of a scan into its scan run: the
/// findings of the probes that completed, most severe first, and one failure
/// record for each probe that did not. No probe's failure aborts the fold.
pub fn aggregate(target: String, outcomes: &Vec<ProbeOutcome>, started_at: i64, finished_at: i64) -> (r: ScanRun)
    ensures
        r.target == target,
        r.started_at == started_at,
        r.finished_at == finished_at,
        r.findings@ == severity_sorted(completed_findings(outcomes@)),
        r.failures@.map_values(|f: ProbeFailure| failure_view(f)) == failures_of(outcomes@),
{
    let mut all: Vec<Vulnerability> = Vec::new();
    let mut failures: Vec<ProbeFailure> = Vec::new();
    let mut i: usize = 0;
    while i < outcomes.len()
        invariant
            i <= outcomes@.len(),
            all@ == completed_findings(outcomes@.subrange(0, i as int)),
            failures@.map_values(|f: ProbeFailure| failure_view(f)) == failures_of(
                outcomes@.subrange(0, i as int),
            ),
        decreases outcomes@.len() - i,
    {
        let ghost prefix = outcomes@.subrange(0, i + 1);
        proof {
            assert(prefix.drop_last() =~= outcomes@.subrange(0, i as int));
            assert(prefix.last() == outcomes@[i as int]);
        }
        let ghost before = all@;
        match &outcomes[i].result {
            Ok(found) => {
                let mut j: usize = 0;
                while j < found.len()
                    invariant
                        j <= found@.len(),
                        all@ == before + found@.subrange(0, j as int),
                    decreases found@.len() - j,
                {
                    all.push(found[j].duplicate());
                    j += 1;
                    proof {
                        assert(all@ =~= before + found@.subrange(0, j as int));
                    }
                }
                proof {
                    assert(found@.subrange(0, j as int) =~= found@);
                    assert(failures@.map_values(|f: ProbeFailure| failure_view(f)) =~= failures_of(prefix));
                }
            },
            Err(e) => {
                let ghost fv = failures@.map_values(|f: ProbeFailure| failure_view(f));
                failures.push(ProbeFailure { source: outcomes[i].source.duplicate(), error: *e });
                proof {
                    assert(all@ =~= completed_findings(prefix));
                    assert(failures@.map_values(|f: ProbeFailure| failure_view(f)) =~= fv.push(
                        (outcomes@[i as int].source, *e),
                    ));
                    assert(failures@.map_values(|f: ProbeFailure| failure_view(f)) =~= failures_of(prefix));
                }
            },
        }
        i += 1;
    }
    proof {
        assert(outcomes@.subrange(0, i as int) =~= outcomes@);
    }
    let findings = sort_by_severity(&all);
    ScanRun { target, findings, failures, started_at, finished_at }
}

proof fn lemma_completed_count(outs: Seq<ProbeOutcome>)
    ensures
        completed_findings(outs).len() == completed_count(outs),
    decreases outs.len(),
{
    if outs.len() > 0 {
        lemma_completed_count(outs.drop_last());
    }
}

proof fn lemma_sorted_len(s: Seq<Vulnerability>)
    ensures
        severity_sorted(s).len() == s.len(),
    decreases s.len(),
{
    reveal(Seq::filter);
    if s.len() > 0 {
        lemma_sorted_len(s.drop_last());
    }
}

/// A scan run holds exactly as many findings as the probes that completed
/// without error returned, summed over those probes: none is made up and
/// none is lost outside a probe's failure.
pub proof fn lemma_scan_run_count(outcomes: Seq<ProbeOutcome>)
    ensures
        severity_sorted(completed_findings(outcomes)).len() == completed_count(outcomes),
{
    lemma_completed_count(outcomes);
    lemma_sorted_len(completed_findings(outcomes));
}

} // verus!
