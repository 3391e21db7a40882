use tstauri::locate::{
    bundled_directory, candidate_paths, finish_bytes, finish_text, join_path, roots_for, Found,
    HostPaths, LoadError, ResourceKind, ResourceRequest, Search, Step,
};

fn host(res: Option<&str>, exe: Option<&str>, cwd: Option<&str>, dev: Option<&str>) -> HostPaths {
    HostPaths {
        resource_dir: res.map(|s| s.to_string()),
        exe_dir: exe.map(|s| s.to_string()),
        cwd: cwd.map(|s| s.to_string()),
        dev_dir: dev.map(|s| s.to_string()),
    }
}

fn all_four() -> HostPaths {
    host(Some("/res"), Some("/app"), Some("/work"), Some("/src/dist-tstauri"))
}

fn request(kind: ResourceKind, id: &str) -> ResourceRequest {
    ResourceRequest { kind, identifier: id.to_string() }
}

fn probed(step: &Step) -> String {
    match step {
        Step::Probe(p) => p.clone(),
        _ => panic!("expected a probe"),
    }
}

#[test]
fn join_path_inserts_one_separator() {
    assert_eq!(join_path("/res", "a.wasm"), "/res/a.wasm");
    assert_eq!(join_path("/res/", "a.wasm"), "/res/a.wasm");
    assert_eq!(join_path("", "a.wasm"), "a.wasm");
}

#[test]
fn roots_follow_priority_for_each_kind() {
    let h = all_four();
    assert_eq!(roots_for(ResourceKind::NamedBundledFile, &h), vec!["/res", "/work"]);
    assert_eq!(roots_for(ResourceKind::NamedShader, &h), vec!["/res", "/work"]);
    assert_eq!(
        roots_for(ResourceKind::WellKnownWelcomeDoc, &h),
        vec!["/res", "/app", "/work", "/src/dist-tstauri"]
    );
    assert!(roots_for(ResourceKind::RawPath, &h).is_empty());
}

#[test]
fn unreported_directories_are_skipped() {
    let h = host(None, Some("/app"), Some("/work"), None);
    assert_eq!(roots_for(ResourceKind::WellKnownWelcomeDoc, &h), vec!["/app", "/work"]);
    assert_eq!(roots_for(ResourceKind::NamedBundledFile, &h), vec!["/work"]);
}

#[test]
fn candidate_paths_per_kind() {
    let h = all_four();
    assert_eq!(
        candidate_paths(&request(ResourceKind::NamedShader, "blur"), &h),
        vec!["/res/shaders/blur.js", "/work/shaders/blur.js"]
    );
    assert_eq!(
        candidate_paths(&request(ResourceKind::NamedBundledFile, "app.wasm"), &h),
        vec!["/res/app.wasm", "/work/app.wasm"]
    );
    assert_eq!(
        candidate_paths(&request(ResourceKind::WellKnownWelcomeDoc, ""), &h),
        vec!["/res/index.md", "/app/index.md", "/work/index.md", "/src/dist-tstauri/index.md"]
    );
}

#[test]
fn hit_in_first_root_probes_nothing_else() {
    let h = all_four();
    let mut s = Search::new(&request(ResourceKind::NamedBundledFile, "app.wasm"), &h);
    let mut probes = 0;
    let mut step = s.next_step();
    let found = loop {
        match step {
            Step::Probe(p) => {
                probes += 1;
                step = s.answer(p == "/res/app.wasm" || p == "/work/app.wasm");
            }
            Step::Read(p) => break p,
            Step::NotFound(_) => panic!("expected a hit"),
        }
    };
    assert_eq!(probes, 1);
    assert_eq!(found, "/res/app.wasm");
    assert!(matches!(s.next_step(), Step::Read(p) if p == "/res/app.wasm"));
}

#[test]
fn shader_found_in_working_directory() {
    let h = host(Some("/res"), None, Some("/work"), None);
    let req = request(ResourceKind::NamedShader, "blur");
    let mut s = Search::new(&req, &h);
    assert_eq!(probed(&s.next_step()), "/res/shaders/blur.js");
    let step = s.answer(false);
    assert_eq!(probed(&step), "/work/shaders/blur.js");
    let path = match s.answer(true) {
        Step::Read(p) => p,
        _ => panic!("expected a read"),
    };
    assert_eq!(path, "/work/shaders/blur.js");
    let out = finish_text(path, Ok(b"blur();".to_vec()));
    match out {
        Ok(Found { path, contents }) => {
            assert_eq!(path, "/work/shaders/blur.js");
            assert_eq!(contents, "blur();");
        }
        Err(_) => panic!("expected content"),
    }
}

#[test]
fn welcome_missing_everywhere_lists_four_paths() {
    let h = all_four();
    let mut s = Search::new(&request(ResourceKind::WellKnownWelcomeDoc, ""), &h);
    let mut step = s.next_step();
    let mut asked = Vec::new();
    let attempted = loop {
        match step {
            Step::Probe(p) => {
                asked.push(p);
                step = s.answer(false);
            }
            Step::NotFound(all) => break all,
            Step::Read(_) => panic!("nothing exists"),
        }
    };
    assert_eq!(attempted.len(), 4);
    assert_eq!(
        attempted,
        vec!["/res/index.md", "/app/index.md", "/work/index.md", "/src/dist-tstauri/index.md"]
    );
    assert_eq!(asked, attempted);
}

#[test]
fn not_found_has_one_entry_per_root() {
    let h = host(Some("/res"), None, Some("/work"), None);
    let mut s = Search::new(&request(ResourceKind::NamedBundledFile, "x.wasm"), &h);
    assert!(matches!(s.next_step(), Step::Probe(_)));
    s.answer(false);
    match s.answer(false) {
        Step::NotFound(all) => assert_eq!(all, vec!["/res/x.wasm", "/work/x.wasm"]),
        _ => panic!("expected not found"),
    }
}

#[test]
fn no_roots_is_not_found_at_once() {
    let h = host(None, None, None, None);
    let s = Search::new(&request(ResourceKind::NamedShader, "blur"), &h);
    assert!(matches!(s.next_step(), Step::NotFound(all) if all.is_empty()));
}

#[test]
fn raw_path_is_read_without_search() {
    let h = all_four();
    let s = Search::new(&request(ResourceKind::RawPath, "notes/today.md"), &h);
    assert!(matches!(s.next_step(), Step::Read(p) if p == "notes/today.md"));
}

#[test]
fn from_host_derives_exe_and_dev_directories() {
    let h = HostPaths::from_host(
        Some("/opt/app/target/release".to_string()),
        Some("/opt/app/bin/tstauri".to_string()),
        Some("/home/me".to_string()),
    );
    assert_eq!(h.resource_dir.as_deref(), Some("/opt/app/target/release"));
    assert_eq!(h.exe_dir.as_deref(), Some("/opt/app/bin"));
    assert_eq!(h.cwd.as_deref(), Some("/home/me"));
    assert_eq!(h.dev_dir.as_deref(), Some("/opt/app/dist-tstauri"));
}

#[test]
fn from_host_without_resource_dir() {
    let h = HostPaths::from_host(None, None, Some("/home/me".to_string()));
    assert!(h.resource_dir.is_none());
    assert!(h.exe_dir.is_none());
    assert!(h.dev_dir.is_none());
}

#[test]
fn read_failure_is_io_error() {
    let out = finish_text("/res/index.md".to_string(), Err("permission denied".to_string()));
    assert!(matches!(out, Err(LoadError::Io { path, reason })
        if path == "/res/index.md" && reason == "permission denied"));
}

#[test]
fn invalid_text_is_decode_error() {
    let out = finish_text("/res/index.md".to_string(), Ok(vec![0x66, 0xff, 0xfe]));
    assert!(matches!(out, Err(LoadError::Decode { path }) if path == "/res/index.md"));
}

#[test]
fn bytes_are_passed_through() {
    let out = finish_bytes("/res/a.wasm".to_string(), Ok(vec![0, 97, 115, 109, 0xff]));
    match out {
        Ok(f) => assert_eq!(f.contents, vec![0, 97, 115, 109, 0xff]),
        Err(_) => panic!("expected bytes"),
    }
    let out = finish_bytes("/res/a.wasm".to_string(), Err("gone".to_string()));
    assert!(matches!(out, Err(LoadError::Io { .. })));
}

#[test]
fn bundled_directory_is_cleaned() {
    let out = bundled_directory(Ok(r"\\?\C:\Program Files\App".to_string()));
    assert!(matches!(out, Ok(p) if p == r"C:\Program Files\App"));
    let out = bundled_directory(Err("no resource dir".to_string()));
    assert!(matches!(out, Err(LoadError::HostUnavailable { reason }) if reason == "no resource dir"));
}

#[test]
fn error_messages() {
    let shader = request(ResourceKind::NamedShader, "blur");
    let wasm = request(ResourceKind::NamedBundledFile, "app.wasm");
    let welcome = request(ResourceKind::WellKnownWelcomeDoc, "");
    let raw = request(ResourceKind::RawPath, "a.md");
    let nf = LoadError::NotFound { attempted: vec![] };
    assert_eq!(nf.message(&shader), "Shader 'blur' not found in resources or current directory");
    assert_eq!(nf.message(&wasm), "app.wasm not found in resources or current directory");
    assert_eq!(
        nf.message(&welcome),
        "Welcome screen (index.md) not found. Please ensure it's bundled in the app or in the same folder as the executable."
    );
    let io = LoadError::Io { path: "p".to_string(), reason: "denied".to_string() };
    assert_eq!(io.message(&raw), "Failed to read file: denied");
    assert_eq!(io.message(&wasm), "Failed to read app.wasm: denied");
    assert_eq!(io.message(&welcome), "Failed to read welcome screen: denied");
    assert_eq!(io.message(&shader), "Failed to read shader 'blur': denied");
    let dec = LoadError::Decode { path: "p".to_string() };
    assert_eq!(dec.message(&raw), "Failed to read file: stream did not contain valid UTF-8");
    let host = LoadError::HostUnavailable { reason: "x".to_string() };
    assert_eq!(host.message(&wasm), "Failed to get resource dir: x");
}

#[test]
fn from_host_without_grandparent_has_no_dev_directory() {
    let h = HostPaths::from_host(Some("res".to_string()), Some("tstauri".to_string()), None);
    assert!(h.dev_dir.is_none());
    assert_eq!(h.exe_dir.as_deref(), Some(""));
    assert_eq!(
        roots_for(ResourceKind::WellKnownWelcomeDoc, &h),
        vec!["res".to_string(), String::new()]
    );
}
