use ngfx::install::{detect_install_path, probe_dll_name, ModuleProbe, MODULE_PATH_CAPACITY, PROBE_DLL_COUNT};
use ngfx::loader::{loader_step, LoaderAction, LoaderEvent, LoaderState};

fn probe(written: u32, root: Option<&str>) -> Option<ModuleProbe> {
    Some(ModuleProbe { written, install_root: root.map(|s| s.to_string()) })
}

#[test]
fn probe_dll_names_in_order() {
    let names: Vec<&str> = (0..PROBE_DLL_COUNT).map(|i| probe_dll_name(i).unwrap()).collect();
    assert_eq!(
        names,
        vec![
            "WarpVizTarget.dll",
            "WarpViz.Injection.dll",
            "ngfx-capture-interception.dll",
            "ngfx-capture-injection.dll",
            "ngfx-api-bootstrap.dll",
            "ToolsInjection64.dll",
        ]
    );
    assert_eq!(probe_dll_name(PROBE_DLL_COUNT), None);
}

#[test]
fn no_probes_no_install_path() {
    assert_eq!(detect_install_path(&Vec::new()), None);
}

#[test]
fn nothing_loaded_no_install_path() {
    let probes: Vec<Option<ModuleProbe>> = (0..PROBE_DLL_COUNT).map(|_| None).collect();
    assert_eq!(detect_install_path(&probes), None);
}

#[test]
fn first_loaded_library_gives_the_root() {
    let probes = vec![
        None,
        probe(60, Some("C:\\Nsight Graphics 2026.1")),
        probe(70, Some("C:\\Other")),
    ];
    assert_eq!(detect_install_path(&probes), Some("C:\\Nsight Graphics 2026.1".to_string()));
}

#[test]
fn failed_or_cut_path_queries_are_skipped() {
    let cap = MODULE_PATH_CAPACITY as u32;
    let probes = vec![
        probe(0, Some("/failed")),
        probe(cap, Some("/cut")),
        probe(cap + 5, Some("/cut-too")),
        probe(cap - 1, Some("/whole")),
    ];
    assert_eq!(detect_install_path(&probes), Some("/whole".to_string()));
}

#[test]
fn shallow_paths_are_skipped() {
    let probes = vec![probe(10, None), None, probe(12, Some("/opt/nsight"))];
    assert_eq!(detect_install_path(&probes), Some("/opt/nsight".to_string()));
    let probes = vec![probe(10, None)];
    assert_eq!(detect_install_path(&probes), None);
}

#[test]
fn loader_returns_given_path_handle() {
    let (s, a) = loader_step(LoaderState::Idle, LoaderEvent::Called { name_present: true });
    assert_eq!((s, a), (LoaderState::LoadingGivenPath, LoaderAction::LoadGivenPath));
    let (s, a) = loader_step(s, LoaderEvent::Loaded { loaded: true });
    assert_eq!((s, a), (LoaderState::Finished, LoaderAction::ReturnLoaded));
}

#[test]
fn loader_retries_with_file_name() {
    let (s, _) = loader_step(LoaderState::Idle, LoaderEvent::Called { name_present: true });
    let (s, a) = loader_step(s, LoaderEvent::Loaded { loaded: false });
    assert_eq!((s, a), (LoaderState::TakingFileName, LoaderAction::TakeFileName));
    let (s, a) = loader_step(s, LoaderEvent::FileName { present: true });
    assert_eq!((s, a), (LoaderState::LoadingFileName, LoaderAction::LoadFileName));
    let (s, a) = loader_step(s, LoaderEvent::Loaded { loaded: false });
    assert_eq!((s, a), (LoaderState::Finished, LoaderAction::ReturnLoaded));
}

#[test]
fn loader_null_name_returns_null() {
    let r = loader_step(LoaderState::Idle, LoaderEvent::Called { name_present: false });
    assert_eq!(r, (LoaderState::Finished, LoaderAction::ReturnNull));
}

#[test]
fn loader_without_file_name_returns_null() {
    let r = loader_step(LoaderState::TakingFileName, LoaderEvent::FileName { present: false });
    assert_eq!(r, (LoaderState::Finished, LoaderAction::ReturnNull));
}

#[test]
fn loader_unexpected_event_returns_null() {
    let r = loader_step(LoaderState::Idle, LoaderEvent::Loaded { loaded: true });
    assert_eq!(r, (LoaderState::Finished, LoaderAction::ReturnNull));
    let r = loader_step(LoaderState::Finished, LoaderEvent::Called { name_present: true });
    assert_eq!(r, (LoaderState::Finished, LoaderAction::ReturnNull));
}
