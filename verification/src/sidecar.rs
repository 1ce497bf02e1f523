//! The engine's keeper: how the sidecar is launched and how it is warmed
//! until it answers, so the first press of the day speaks as fast as the
//! hundredth.

use crate::synth::SIDECAR_PORT;
use crate::text::{decimal, decimal_string};
use vstd::prelude::*;

verus! {

/// Pullable readiness: whether the engine has answered a warmup probe.
#[derive(Debug)]
pub struct Ready(pub bool);

impl Default for Ready {
    fn default() -> (r: Ready)
        ensures
            !r.0,
    {
        Ready(false)
    }
}

/// The sidecar's command line after the executable: model and voices are
/// global flags and come before the `openai` subcommand, which takes the
/// address and port.
pub open spec fn spec_sidecar_args(model: Seq<char>, voices: Seq<char>) -> Seq<Seq<char>> {
    seq![
        "-m"@,
        model,
        "-d"@,
        voices,
        "openai"@,
        "--ip"@,
        "127.0.0.1"@,
        "--port"@,
        decimal(SIDECAR_PORT as nat),
    ]
}

/// Builds the sidecar's arguments for the given model and voices files.
pub fn sidecar_args(model: &str, voices: &str) -> (args: Vec<String>)
    ensures
        args@.map_values(|a: String| a@) == spec_sidecar_args(model@, voices@),
        args@.len() == 9,
        args@[0]@ == "-m"@,
        args@[1]@ == model@,
        args@[2]@ == "-d"@,
        args@[3]@ == voices@,
        args@[4]@ == "openai"@,
        args@[5]@ == "--ip"@,
        args@[6]@ == "127.0.0.1"@,
        args@[7]@ == "--port"@,
        args@[8]@ == decimal(SIDECAR_PORT as nat),
{
    let mut args: Vec<String> = Vec::new();
    args.push(String::from_str("-m"));
    args.push(String::from_str(model));
    args.push(String::from_str("-d"));
    args.push(String::from_str(voices));
    args.push(String::from_str("openai"));
    args.push(String::from_str("--ip"));
    args.push(String::from_str("127.0.0.1"));
    args.push(String::from_str("--port"));
    args.push(decimal_string(SIDECAR_PORT as u64));
    assert(args@.map_values(|a: String| a@) =~= spec_sidecar_args(model@, voices@));
    args
}

/// The paths reach the engine exactly as given, whatever they hold
/// (spaces, quotes, backslashes): the model path is the argument after
/// `-m`, the voices path the one after `-d`, and the rest of the command
/// line is fixed.
pub proof fn sidecar_args_pass_paths_unchanged(model: Seq<char>, voices: Seq<char>)
    ensures
        spec_sidecar_args(model, voices).len() == 9,
        spec_sidecar_args(model, voices)[0] == "-m"@,
        spec_sidecar_args(model, voices)[1] == model,
        spec_sidecar_args(model, voices)[2] == "-d"@,
        spec_sidecar_args(model, voices)[3] == voices,
        spec_sidecar_args(model, voices)[4] == "openai"@,
        spec_sidecar_args(model, voices)[5] == "--ip"@,
        spec_sidecar_args(model, voices)[6] == "127.0.0.1"@,
        spec_sidecar_args(model, voices)[7] == "--port"@,
        spec_sidecar_args(model, voices)[8] == decimal(SIDECAR_PORT as nat),
        decimal(SIDECAR_PORT as nat) == "8880"@,
{
    reveal_strlit("8880");
    reveal_with_fuel(decimal, 5);
    assert(decimal(SIDECAR_PORT as nat) =~= "8880"@);
}

/// The executable and arguments to spawn, from the three companions'
/// lookups; the first failed lookup (executable, then model, then voices)
/// is the error.
pub fn launch_command(exe: Result<String, String>, model: Result<String, String>, voices: Result<String, String>) -> (cmd: Result<(String, Vec<String>), String>)
    ensures
        exe matches Err(e) ==> cmd == Err::<(String, Vec<String>), String>(e),
        exe is Ok ==> (model matches Err(e) ==> cmd == Err::<(String, Vec<String>), String>(e)),
        exe is Ok && model is Ok ==> (voices matches Err(e) ==> cmd == Err::<(String, Vec<String>), String>(e)),
        cmd matches Ok((x, args)) ==> exe is Ok && model is Ok && voices is Ok && x == exe->Ok_0
            && args@.map_values(|a: String| a@) == spec_sidecar_args(model->Ok_0@, voices->Ok_0@),
        exe is Ok && model is Ok && voices is Ok ==> cmd is Ok,
{
    let exe = match exe {
        Ok(x) => x,
        Err(e) => return Err(e),
    };
    let model = match model {
        Ok(m) => m,
        Err(e) => return Err(e),
    };
    let voices = match voices {
        Ok(v) => v,
        Err(e) => return Err(e),
    };
    let args = sidecar_args(model.as_str(), voices.as_str());
    Ok((exe, args))
}

/// Warmup probes before giving up.
pub const WARMUP_PROBES: u32 = 60;

/// Pause after a failed probe, in milliseconds.
pub const WARMUP_RETRY_MS: u64 = 1000;

/// What the warmup does next.
#[derive(Clone, Copy, Debug, PartialEq, Eq, Structural)]
pub enum WarmStep {
    /// The engine was stopped meanwhile (the app is shutting down): stop.
    Abandon,
    /// Send probe number `n` (counting from 1); on success the engine is
    /// warm, on failure wait `WARMUP_RETRY_MS` and step again.
    Probe(u32),
    /// Every probe failed: the engine never became ready.
    GiveUp,
}

/// The warmup's position: the number of the next probe.
pub struct Warmup {
    next_probe: u32,
}

/// One warmup step from probe number `next`.
pub open spec fn spec_warm_step(next: u32, sidecar_alive: bool) -> (u32, WarmStep) {
    if next > WARMUP_PROBES {
        (next, WarmStep::GiveUp)
    } else if !sidecar_alive {
        (next, WarmStep::Abandon)
    } else {
        ((next + 1) as u32, WarmStep::Probe(next))
    }
}

/// The steps over a run of liveness readings.
pub open spec fn warm_run(next: u32, alive: Seq<bool>) -> Seq<WarmStep>
    decreases alive.len(),
{
    if alive.len() == 0 {
        Seq::empty()
    } else {
        let (n2, s) = spec_warm_step(next, alive[0]);
        seq![s] + warm_run(n2, alive.drop_first())
    }
}

impl Warmup {
    #[verifier::type_invariant]
    spec fn inv(&self) -> bool {
        1 <= self.next_probe <= WARMUP_PROBES + 1
    }

    pub closed spec fn next(&self) -> u32 {
        self.next_probe
    }

    /// A warmup that has sent nothing yet.
    pub fn new() -> (w: Warmup)
        ensures
            w.next() == 1,
    {
        Warmup { next_probe: 1 }
    }

    /// The next step, given whether the engine process is still ours.
    pub fn step(&mut self, sidecar_alive: bool) -> (s: WarmStep)
        ensures
            (final(self).next(), s) == spec_warm_step(old(self).next(), sidecar_alive),
    {
        proof {
            use_type_invariant(&*self);
        }
        if self.next_probe > WARMUP_PROBES {
            WarmStep::GiveUp
        } else if !sidecar_alive {
            WarmStep::Abandon
        } else {
            let n = self.next_probe;
            *self = Warmup { next_probe: n + 1 };
            WarmStep::Probe(n)
        }
    }
}

/// With the engine alive throughout, the warmup sends probes numbered
/// 1 to `WARMUP_PROBES` in order and then gives up for good: never more
/// than `WARMUP_PROBES` probes.
pub proof fn warmup_probes_at_most_sixty(k: nat)
    ensures
        ({
            let steps = warm_run(1, Seq::new(k, |i: int| true));
            &&& steps.len() == k
            &&& forall|i: int| 0 <= i < k ==> #[trigger] steps[i] == (if i < WARMUP_PROBES {
                WarmStep::Probe((i + 1) as u32)
            } else {
                WarmStep::GiveUp
            })
        }),
{
    alive_run(1, k);
}

proof fn alive_run(next: u32, k: nat)
    requires
        1 <= next <= WARMUP_PROBES + 1,
    ensures
        ({
            let steps = warm_run(next, Seq::new(k, |i: int| true));
            &&& steps.len() == k
            &&& forall|i: int| 0 <= i < k ==> #[trigger] steps[i] == (if i + next <= WARMUP_PROBES {
                WarmStep::Probe((i + next) as u32)
            } else {
                WarmStep::GiveUp
            })
        }),
    decreases k,
{
    if k > 0 {
        let alive = Seq::new(k, |i: int| true);
        let (n2, s) = spec_warm_step(next, true);
        assert(alive.drop_first() =~= Seq::new((k - 1) as nat, |i: int| true));
        alive_run(n2, (k - 1) as nat);
        let steps = warm_run(next, alive);
        let rest = warm_run(n2, Seq::new((k - 1) as nat, |i: int| true));
        assert(steps == seq![s] + rest);
        assert forall|i: int| 0 <= i < k implies #[trigger] steps[i] == (if i + next <= WARMUP_PROBES {
            WarmStep::Probe((i + next) as u32)
        } else {
            WarmStep::GiveUp
        }) by {
            if i > 0 {
                assert(steps[i] == rest[i - 1]);
            }
        }
    }
}

} // verus!
