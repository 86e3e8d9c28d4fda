//! Scan job execution: the bounded retry of the external driver, the
//! driver's command line, and the mock driver's choice of sample image.

use vstd::prelude::*;
use crate::allocator::names_view;
use crate::scans::{keys_unique, ScanError, ScanParameters, ScanStatus};
use rand::seq::SliceRandom;

verus! {

/// How many times the driver is run for one job before it is given up.
pub const MAX_ATTEMPTS: u32 = 3;

/// What to do after an attempt of the driver.
#[derive(Debug, Clone, Copy, PartialEq, Eq, Structural)]
pub enum RunStep {
    /// Run the driver again.
    Retry,
    /// Stop, and store this status.
    Finish(ScanStatus),
}

/// The step after an attempt, given how many attempts came before it and
/// whether it succeeded.
pub open spec fn attempt_step(attempts_before: nat, succeeded: bool) -> RunStep {
    if succeeded {
        RunStep::Finish(ScanStatus::Complete)
    } else if attempts_before + 1 >= MAX_ATTEMPTS {
        RunStep::Finish(ScanStatus::Failed)
    } else {
        RunStep::Retry
    }
}

/// The attempts made and the final status of a run whose successive
/// attempts succeed as `results` says, continued from `attempts` attempts.
pub open spec fn run_from(results: Seq<bool>, attempts: nat) -> (nat, ScanStatus)
    decreases MAX_ATTEMPTS - attempts,
{
    if attempts >= MAX_ATTEMPTS || attempts >= results.len() {
        (attempts, ScanStatus::Failed)
    } else {
        match attempt_step(attempts, results[attempts as int]) {
            RunStep::Finish(s) => ((attempts + 1) as nat, s),
            RunStep::Retry => run_from(results, attempts + 1),
        }
    }
}

/// The attempts made and the final status of a whole run.
pub open spec fn run_outcome(results: Seq<bool>) -> (nat, ScanStatus) {
    run_from(results, 0)
}

/// Whether a driver exit counts as success: only an exit code of 0 does; a
/// failure to start or a kill by a signal has no code.
pub open spec fn exit_succeeded(exit_code: Option<i32>) -> bool {
    exit_code == Some(0i32)
}

/// A driver that fails every attempt leaves the job failed, after exactly
/// the full budget of attempts.
pub proof fn lemma_failing_driver_fails_after_budget(results: Seq<bool>)
    requires
        results.len() >= MAX_ATTEMPTS,
        forall|i: int| 0 <= i < MAX_ATTEMPTS ==> !#[trigger] results[i],
    ensures
        run_outcome(results) == (MAX_ATTEMPTS as nat, ScanStatus::Failed),
{
    assert(!results[0]);
    assert(!results[1]);
    assert(!results[2]);
    assert(run_from(results, 2) == (3nat, ScanStatus::Failed));
    assert(run_from(results, 1) == run_from(results, 2));
}

/// A driver whose first success comes at attempt `k + 1`, within the budget,
/// leaves the job complete after exactly `k + 1` attempts.
pub proof fn lemma_first_success_completes(results: Seq<bool>, k: nat)
    requires
        k < MAX_ATTEMPTS,
        k < results.len(),
        results[k as int],
        forall|i: int| 0 <= i < k ==> !#[trigger] results[i],
    ensures
        run_outcome(results) == ((k + 1) as nat, ScanStatus::Complete),
{
    if k == 0 {
    } else if k == 1 {
        assert(!results[0]);
        assert(run_from(results, 0) == run_from(results, 1));
    } else {
        assert(!results[0]);
        assert(!results[1]);
        assert(run_from(results, 1) == run_from(results, 2));
        assert(run_from(results, 0) == run_from(results, 1));
    }
}

/// The attempts of the driver for one job.
#[derive(Debug, Clone, Copy)]
pub struct DriverRun {
    pub attempts: u32,
    pub done: bool,
}

impl DriverRun {
    pub open spec fn wf(&self) -> bool {
        &&& self.attempts <= MAX_ATTEMPTS
        &&& !self.done ==> self.attempts < MAX_ATTEMPTS
    }

    /// A run with no attempt made yet.
    pub fn new() -> (r: Self)
        ensures
            r.wf(),
            r.attempts == 0,
            !r.done,
    {
        DriverRun { attempts: 0, done: false }
    }

    /// Records the exit of one attempt and says what comes next.
    pub fn record_attempt(&mut self, exit_code: Option<i32>) -> (r: RunStep)
        requires
            old(self).wf(),
            !old(self).done,
        ensures
            final(self).wf(),
            final(self).attempts == old(self).attempts + 1,
            r == attempt_step(old(self).attempts as nat, exit_succeeded(exit_code)),
            final(self).done == (r is Finish),
    {
        self.attempts = self.attempts + 1;
        let succeeded = match exit_code {
            Some(c) => c == 0,
            None => false,
        };
        if succeeded {
            self.done = true;
            RunStep::Finish(ScanStatus::Complete)
        } else if self.attempts >= MAX_ATTEMPTS {
            self.done = true;
            RunStep::Finish(ScanStatus::Failed)
        } else {
            RunStep::Retry
        }
    }
}

/// The mock driver's status for a scan whose image could (or could not) be written.
pub fn mock_status(written: bool) -> (r: ScanStatus)
    ensures
        r == (if written {
            ScanStatus::Complete
        } else {
            ScanStatus::Failed
        }),
{
    if written {
        ScanStatus::Complete
    } else {
        ScanStatus::Failed
    }
}

/// How the mock driver produces an image.
#[derive(Debug, Clone)]
pub enum MockAction {
    /// Write an empty placeholder file.
    CreateEmpty,
    /// Copy this sample image.
    CopySample(String),
}

/// Relies on rand's `SliceRandom::choose` with `thread_rng`: `None` for an
/// empty slice, otherwise one of its elements, picked at random.
#[verifier::external_body]
fn choose_sample(samples: &Vec<String>) -> (r: Option<String>)
    ensures
        r is None <==> samples@.len() == 0,
        r matches Some(s) ==> names_view(samples@).contains(s@),
{
    samples.choose(&mut rand::thread_rng()).cloned()
}

/// Chooses the mock driver's image: a random sample from the samples
/// directory, or an empty file when the directory could not be read or
/// holds no sample.
pub fn plan_mock_scan(samples: Option<Vec<String>>) -> (r: MockAction)
    ensures
        match samples {
            None => r is CreateEmpty,
            Some(v) => if v@.len() == 0 {
                r is CreateEmpty
            } else {
                r matches MockAction::CopySample(s) && names_view(v@).contains(s@)
            },
        },
{
    match samples {
        None => MockAction::CreateEmpty,
        Some(v) => match choose_sample(&v) {
            Some(s) => MockAction::CopySample(s),
            None => MockAction::CreateEmpty,
        },
    }
}

/// The scan options flattened into command-line arguments, option name first.
pub open spec fn flat_parameters(p: Seq<(String, String)>) -> Seq<Seq<char>>
    decreases p.len(),
{
    if p.len() == 0 {
        Seq::empty()
    } else {
        flat_parameters(p.drop_last()) + seq![p.last().0@, p.last().1@]
    }
}

/// The arguments of the driver's scan command: PNG output from `device`,
/// with the given options, written to `output`.
pub open spec fn scan_arguments(
    device: Seq<char>,
    p: Seq<(String, String)>,
    output: Seq<char>,
) -> Seq<Seq<char>> {
    seq![seq!['-', '-', 'f', 'o', 'r', 'm', 'a', 't'], seq!['p', 'n', 'g'], seq!['-', 'd'], device]
        + flat_parameters(p) + seq![seq!['-', 'o'], output]
}

/// The arguments with which the driver is run for one scan.
pub fn driver_arguments(device: &str, parameters: &ScanParameters, output: &str) -> (r: Vec<String>)
    ensures
        names_view(r@) == scan_arguments(device@, parameters@, output@),
{
    proof {
        reveal_strlit("--format");
        reveal_strlit("png");
        reveal_strlit("-d");
        reveal_strlit("-o");
        assert("--format"@ =~= seq!['-', '-', 'f', 'o', 'r', 'm', 'a', 't']);
        assert("png"@ =~= seq!['p', 'n', 'g']);
        assert("-d"@ =~= seq!['-', 'd']);
        assert("-o"@ =~= seq!['-', 'o']);
    }
    let mut args: Vec<String> = Vec::new();
    args.push(String::from_str("--format"));
    args.push(String::from_str("png"));
    args.push(String::from_str("-d"));
    args.push(String::from_str(device));
    let ghost head = seq![seq!['-', '-', 'f', 'o', 'r', 'm', 'a', 't'], seq!['p', 'n', 'g'], seq!['-', 'd'], device@];
    assert(names_view(args@) =~= head) by {
        assert(args@.len() == 4);
        assert(names_view(args@)[0] == args@[0]@);
    }
    assert(parameters@.subrange(0, 0) =~= Seq::<(String, String)>::empty());
    assert(head + flat_parameters(Seq::<(String, String)>::empty()) =~= head);
    let mut i: usize = 0;
    while i < parameters.len()
        invariant
            i <= parameters@.len(),
            names_view(args@) == head + flat_parameters(parameters@.subrange(0, i as int)),
        decreases parameters@.len() - i,
    {
        let ghost before = args@;
        let (k, v) = &parameters[i];
        args.push(k.clone());
        args.push(v.clone());
        proof {
            assert(args@ =~= before.push(*k).push(*v));
            assert(names_view(args@) =~= names_view(before) + seq![k@, v@]);
            let sub = parameters@.subrange(0, i + 1);
            assert(sub.drop_last() =~= parameters@.subrange(0, i as int));
            assert(names_view(args@) =~= head + flat_parameters(sub));
        }
        i = i + 1;
    }
    let ghost before = args@;
    args.push(String::from_str("-o"));
    args.push(String::from_str(output));
    proof {
        assert(names_view(args@) =~= names_view(before) + seq![seq!['-', 'o'], output@]);
        assert(parameters@.subrange(0, parameters@.len() as int) =~= parameters@);
        assert(names_view(args@) =~= scan_arguments(device@, parameters@, output@));
    }
    args
}

/// The option map that a JSON text denotes when it is an object whose
/// values are all strings (a later duplicate key replaces an earlier one),
/// `None` for any other text.
pub uninterp spec fn json_string_object(s: Seq<char>) -> Option<Map<Seq<char>, Seq<char>>>;

/// The map from option name to value that a list of pairs holds.
pub open spec fn pairs_map(p: Seq<(String, String)>) -> Map<Seq<char>, Seq<char>>
    decreases p.len(),
{
    if p.len() == 0 {
        Map::empty()
    } else {
        pairs_map(p.drop_last()).insert(p.last().0@, p.last().1@)
    }
}

/// Relies on serde_json's `from_str` into a `HashMap<String, String>`: it
/// succeeds exactly on a JSON object of strings, and the map it builds depends
/// on the text alone; a map holds each key once. Only the order in which the
/// pairs come out depends on the process's hash seed.
#[verifier::external_body]
fn json_string_map(json: &str) -> (r: Option<ScanParameters>)
    ensures
        r is Some <==> json_string_object(json@) is Some,
        r matches Some(p) ==> keys_unique(p@) && pairs_map(p@) == json_string_object(json@)->0,
{
    match serde_json::from_str::<std::collections::HashMap<String, String>>(json) {
        Ok(m) => Some(m.into_iter().collect()),
        Err(_) => None,
    }
}

/// Reads scan options given as a JSON object of strings.
pub fn parse_parameters(json: &str) -> (r: Result<ScanParameters, ScanError>)
    ensures
        r is Ok <==> json_string_object(json@) is Some,
        r matches Ok(p) ==> keys_unique(p@) && pairs_map(p@) == json_string_object(json@)->0,
        r is Err ==> r == Err::<ScanParameters, ScanError>(ScanError::BadParameters),
{
    match json_string_map(json) {
        Some(p) => Ok(p),
        None => Err(ScanError::BadParameters),
    }
}

} // verus!
