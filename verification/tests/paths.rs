use hearit::paths::{
    find, find_from, model, sidecar_candidates, sidecar_exe, voices, Located, SIDECAR_EXE_REL,
};

#[test]
fn finds_candidate_in_an_ancestor() {
    // ancestors of <root>\target\release: release (0), target (1), root (2);
    // only root holds stuff\thing.bin.
    let probes = std::cell::RefCell::new(Vec::new());
    let found = find_from(3, 1, &|d: usize, c: usize| {
        probes.borrow_mut().push((d, c));
        d == 2 && c == 0
    });
    assert_eq!(found, Some((2, 0)));
    assert_eq!(*probes.borrow(), vec![(0, 0), (1, 0), (2, 0)]);
}

#[test]
fn returns_none_when_nothing_exists() {
    assert_eq!(find_from(4, 1, &|_d: usize, _c: usize| false), None);
}

#[test]
fn nearer_directory_wins_over_earlier_candidate() {
    let found = find_from(3, 2, &|d: usize, c: usize| (d == 1 && c == 1) || (d == 2 && c == 0));
    assert_eq!(found, Some((1, 1)));
}

#[test]
fn override_wins_without_searching() {
    let found = find(Some("C:\\koko.exe".to_string()), Some(3), 2, &|_d: usize, _c: usize| {
        panic!("searched despite an override")
    });
    assert_eq!(found, Some(Located::Override("C:\\koko.exe".to_string())));
}

#[test]
fn unknown_exe_location_finds_nothing() {
    assert_eq!(find(None, None, 2, &|_d: usize, _c: usize| true), None);
    assert_eq!(
        find(None, Some(2), 2, &|_d: usize, c: usize| c == 1),
        Some(Located::Found { dir: 0, cand: 1 })
    );
}

#[test]
fn missing_companions_explain_themselves() {
    assert_eq!(
        sidecar_exe(None).unwrap_err(),
        "koko.exe not found — set HEARIT_SIDECAR or place sidecar\\ next to hearit.exe (docs/sidecar.md)"
    );
    assert_eq!(
        model(None).unwrap_err(),
        "kokoro-v1.0.onnx not found — set HEARIT_MODEL or place sidecar\\checkpoints\\ next to hearit.exe (docs/sidecar.md)"
    );
    assert_eq!(
        voices(None).unwrap_err(),
        "voices-v1.0.bin not found — set HEARIT_VOICES or place sidecar\\data\\ next to hearit.exe (docs/sidecar.md)"
    );
    assert_eq!(sidecar_exe(Some("a".to_string())), Ok("a".to_string()));
}

#[test]
fn sidecar_candidates_in_order() {
    assert_eq!(sidecar_candidates(), vec![SIDECAR_EXE_REL, "sidecar\\kokoros\\koko.exe"]);
}
