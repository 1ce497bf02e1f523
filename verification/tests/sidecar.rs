use hearit::sidecar::{launch_command, sidecar_args, Ready, WarmStep, Warmup, WARMUP_PROBES};

#[test]
fn sidecar_args_put_global_flags_before_the_subcommand() {
    let args = sidecar_args("m.onnx", "v.bin");
    assert_eq!(
        args,
        vec!["-m", "m.onnx", "-d", "v.bin", "openai", "--ip", "127.0.0.1", "--port", "8880"]
    );
}

#[test]
fn launch_command_reports_the_first_missing_companion() {
    let ok = |s: &str| Ok::<String, String>(s.to_string());
    let err = |s: &str| Err::<String, String>(s.to_string());
    assert_eq!(launch_command(err("no exe"), err("no model"), ok("v")).unwrap_err(), "no exe");
    assert_eq!(launch_command(ok("x"), err("no model"), err("no voices")).unwrap_err(), "no model");
    assert_eq!(launch_command(ok("x"), ok("m"), err("no voices")).unwrap_err(), "no voices");
    let (exe, args) = launch_command(ok("koko.exe"), ok("m"), ok("v")).unwrap();
    assert_eq!(exe, "koko.exe");
    assert_eq!(args[1], "m");
    assert_eq!(args[3], "v");
}

#[test]
fn ready_starts_false() {
    assert!(!Ready::default().0);
}

#[test]
fn warmup_probes_sixty_times_then_gives_up() {
    let mut w = Warmup::new();
    for n in 1..=WARMUP_PROBES {
        assert_eq!(w.step(true), WarmStep::Probe(n));
    }
    assert_eq!(w.step(true), WarmStep::GiveUp);
    assert_eq!(w.step(false), WarmStep::GiveUp);
}

#[test]
fn warmup_abandons_when_the_engine_is_gone() {
    let mut w = Warmup::new();
    assert_eq!(w.step(true), WarmStep::Probe(1));
    assert_eq!(w.step(false), WarmStep::Abandon);
    assert_eq!(w.step(true), WarmStep::Probe(2));
}
