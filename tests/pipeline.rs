use embedded_linker::{
    apply_target_overrides, default_probe, host_version_query, llvm_major_version,
    pinned_probe, reserved_symbol, resolve_major, split_whitespace, starts_with,
    version_suffix, Action, Args, Event, InputKind, LinkerError, LtoOptions, Optimization,
    Override, Session, Stage, Target, ToolOutput,
};

fn ok(stdout: &str) -> Event {
    Event::Exited(ToolOutput { status: Some(0), stdout: stdout.to_string(), stderr: String::new() })
}

fn failed(code: i32, stderr: &str) -> Event {
    Event::Exited(ToolOutput {
        status: Some(code),
        stdout: String::from("partial"),
        stderr: stderr.to_string(),
    })
}

fn command(a: Action) -> (String, Vec<String>) {
    match a {
        Action::Run(c) => (c.program, c.args),
        other => panic!("expected a command, got {:?}", other),
    }
}

fn strs(v: &[&str]) -> Vec<String> {
    v.iter().map(|s| s.to_string()).collect()
}

fn session(cpu: Option<&str>) -> Session {
    Session::new(
        Target::Nvptx64NvidiaCuda,
        cpu.map(String::from),
        "/tmp/kernel.ptx",
        String::from("-17"),
    )
}

fn is_done_ok(a: &Action) -> bool {
    matches!(a, Action::Done(Ok(())))
}

fn is_out_of_order(a: &Action) -> bool {
    matches!(a, Action::Done(Err(LinkerError::OutOfOrder)))
}

#[test]
fn words_split_on_any_whitespace() {
    assert_eq!(split_whitespace("  foo\tbar\n\nbaz \u{3000}qux "), strs(&["foo", "bar", "baz", "qux"]));
    assert!(split_whitespace("").is_empty());
    assert!(split_whitespace(" \n\t ").is_empty());
    assert_eq!(split_whitespace("one"), strs(&["one"]));
}

#[test]
fn prefix_test() {
    assert!(starts_with("__rust_alloc", "__rust_"));
    assert!(starts_with("abc", ""));
    assert!(!starts_with("__rus", "__rust_"));
    assert!(!starts_with("x__rust_", "__rust_"));
}

#[test]
fn reserved_symbols_are_recognised() {
    assert!(reserved_symbol("__rg_oom"));
    assert!(reserved_symbol("rust_begin_unwind"));
    assert!(reserved_symbol("__rust_alloc"));
    assert!(reserved_symbol("__rust_"));
    assert!(!reserved_symbol("__rg_oom2"));
    assert!(!reserved_symbol("rust_begin_unwin"));
    assert!(!reserved_symbol("kernel_main"));
    assert!(!reserved_symbol("_rust_x"));
}

#[test]
fn llvm_version_is_read_from_report() {
    let report = "rustc 1.75.0 (82e1608df 2023-12-21)\nbinary: rustc\nhost: x86_64-unknown-linux-gnu\nrelease: 1.75.0\nLLVM version: 17.0.6\n";
    assert_eq!(llvm_major_version(report), Some(String::from("17")));
    assert_eq!(resolve_major(report).unwrap(), "17");
    assert_eq!(llvm_major_version("LLVM version: 18\r\nLLVM version: 19.1.0"), Some(String::from("19")));
    assert_eq!(llvm_major_version("xLLVM version: 16.0\n"), None);
}

#[test]
fn missing_llvm_version_is_an_error() {
    let report = "rustc 1.75.0\nhost: x86_64-unknown-linux-gnu\n";
    assert_eq!(llvm_major_version(report), None);
    match resolve_major(report) {
        Err(LinkerError::ToolchainVersionUnresolved { report: r }) => assert_eq!(r, report),
        other => panic!("unexpected {:?}", other),
    }
}

#[test]
fn suffix_prefers_pinned_tools() {
    assert_eq!(version_suffix("17", true, true).unwrap(), "-17");
    assert_eq!(version_suffix("17", true, false).unwrap(), "-17");
    assert_eq!(version_suffix("17", false, true).unwrap(), "");
    match version_suffix("17", false, false) {
        Err(LinkerError::ToolchainNotFound { major }) => assert_eq!(major, "17"),
        other => panic!("unexpected {:?}", other),
    }
}

#[test]
fn probes() {
    let p = pinned_probe("17");
    assert_eq!(p.program, "llvm-link-17");
    assert_eq!(p.args, strs(&["--version"]));
    let d = default_probe();
    assert_eq!(d.program, "llvm-link");
    assert_eq!(d.args, strs(&["--version"]));
    let h = host_version_query();
    assert_eq!(h.program, "rustc");
    assert_eq!(h.args, strs(&["--version", "--verbose"]));
}

#[test]
fn gpu_target_overrides_requested_options() {
    let requested = LtoOptions { optimization: Optimization::O1, internalize: false, debug: true, inline: false };
    let (effective, applied) = apply_target_overrides(Target::Nvptx64NvidiaCuda, requested);
    assert_eq!(
        effective,
        LtoOptions { optimization: Optimization::O1, internalize: true, debug: false, inline: true }
    );
    assert_eq!(applied, vec![Override::Internalize, Override::StripDebug, Override::InlineAll]);
}

#[test]
fn overrides_are_idempotent() {
    let options = LtoOptions { optimization: Optimization::O3, internalize: true, debug: false, inline: true };
    let (effective, applied) = apply_target_overrides(Target::Nvptx64NvidiaCuda, options);
    assert_eq!(effective, options);
    assert!(applied.is_empty());
    let (again, applied_again) = apply_target_overrides(Target::Nvptx64NvidiaCuda, effective);
    assert_eq!(again, effective);
    assert!(applied_again.is_empty());
}

#[test]
fn optimization_names() {
    assert_eq!(Optimization::O0.name(), "O0");
    assert_eq!(Optimization::O2.name(), "O2");
    assert_eq!(Optimization::Os.name(), "Os");
    assert_eq!(Optimization::Oz.name(), "Oz");
}

#[test]
fn two_archives_one_preserving_symbols() {
    let mut s = session(None);
    let (p, a) = command(s.link_rlib("/libs/liba.rlib", true));
    assert_eq!(p, "llvm-link-17");
    assert_eq!(a, strs(&["/libs/liba.rlib", "-o", "/libs/liba.o", "--ignore-non-bitcode"]));
    let (p, a) = command(s.advance(ok("")));
    assert_eq!(p, "llvm-nm-17");
    assert_eq!(a, strs(&["--extern-only", "--export-symbols", "/libs/liba.o"]));
    assert!(is_done_ok(&s.advance(ok("foo\n__rg_oom\nbar\nrust_begin_unwind\n__rust_alloc\nfoo\n"))));

    let (_, a) = command(s.link_rlib("/libs/libb.rlib", false));
    assert_eq!(a, strs(&["/libs/libb.rlib", "-o", "/libs/libb.o", "--ignore-non-bitcode"]));
    assert!(is_done_ok(&s.advance(ok(""))));

    assert_eq!(*s.symbols(), strs(&["foo", "bar"]));
    assert_eq!(*s.bitcode(), strs(&["/libs/liba.o", "/libs/libb.o"]));

    let (p, a) = command(s.lto(Optimization::O2, true, false, true));
    assert_eq!(p, "llvm-link-17");
    assert_eq!(a, strs(&["/libs/liba.o", "/libs/libb.o", "-o", "/tmp/kernel.o"]));
    match s.advance(ok("")) {
        Action::WriteFile { path, contents } => {
            assert_eq!(path, "/tmp/kernel.symbols.txt");
            assert_eq!(contents, "foo\nbar\n");
        }
        other => panic!("unexpected {:?}", other),
    }
    let (p, a) = command(s.advance(Event::Written(Ok(()))));
    assert_eq!(p, "opt-17");
    assert_eq!(
        a,
        strs(&[
            "/tmp/kernel.o",
            "-o",
            "/tmp/kernel.optimized.o",
            "--internalize-public-api-file=/tmp/kernel.symbols.txt",
            "--passes=default<O2>,internalize,globaldce",
            "--strip-debug",
        ])
    );
}

#[test]
fn full_pipeline_with_inlining_and_cpu() {
    let mut s = session(Some("sm_70"));
    assert!(is_done_ok(&s.add_bitcode("/in/k.bc", false)));
    let (_, a) = command(s.lto(Optimization::O3, false, true, false));
    assert_eq!(a, strs(&["/in/k.bc", "-o", "/tmp/kernel.o"]));
    assert_eq!(*s.overrides(), vec![Override::Internalize, Override::StripDebug, Override::InlineAll]);
    assert!(matches!(s.advance(ok("")), Action::WriteFile { .. }));
    let (_, a) = command(s.advance(Event::Written(Ok(()))));
    assert_eq!(a[4], "--passes=default<O3>,internalize,globaldce");
    assert_eq!(a[5], "--strip-debug");
    let (p, a) = command(s.advance(ok("")));
    assert_eq!(p, "llvm-nm-17");
    assert_eq!(a, strs(&["--format=just-symbols", "--defined-only", "/tmp/kernel.optimized.o"]));
    let (p, a) = command(s.advance(ok("kernel\nhelper\n")));
    assert_eq!(p, "opt-17");
    assert_eq!(
        a,
        strs(&[
            "/tmp/kernel.optimized.o",
            "-o",
            "/tmp/kernel.optimized.o",
            "--passes=default<O3>,forceattrs,always-inline,gvn,globalopt,mem2reg,dse,globalopt",
            "--force-attribute=kernel:alwaysinline",
            "--force-attribute=helper:alwaysinline",
        ])
    );
    let (p, a) = command(s.advance(ok("")));
    assert_eq!(p, "llc-17");
    assert_eq!(a, strs(&["--mcpu", "sm_70", "/tmp/kernel.optimized.o", "-o", "/tmp/kernel.ptx"]));
    assert!(is_done_ok(&s.advance(ok(""))));
}

#[test]
fn compile_without_cpu_and_empty_suffix() {
    let mut s = Session::new(Target::Nvptx64NvidiaCuda, None, "out.ptx", String::new());
    let (p, a) = command(s.lto(Optimization::O0, true, false, true));
    assert_eq!(p, "llvm-link");
    assert_eq!(a, strs(&["-o", "out.o"]));
    match s.advance(ok("")) {
        Action::WriteFile { path, contents } => {
            assert_eq!(path, "out.symbols.txt");
            assert_eq!(contents, "");
        }
        other => panic!("unexpected {:?}", other),
    }
    let _ = s.advance(Event::Written(Ok(())));
    let _ = s.advance(ok(""));
    let (_, a) = command(s.advance(ok("")));
    assert_eq!(a[3], "--passes=default<O0>,forceattrs,always-inline,gvn,globalopt,mem2reg,dse,globalopt");
    assert_eq!(a.len(), 4);
    let (p, a) = command(s.advance(ok("")));
    assert_eq!(p, "llc");
    assert_eq!(a, strs(&["out.optimized.o", "-o", "out.ptx"]));
}

#[test]
fn link_failure_stops_the_pipeline() {
    let mut s = session(None);
    assert!(is_done_ok(&s.add_bitcode("a.bc", false)));
    assert!(is_done_ok(&s.add_bitcode("b.bc", false)));
    let _ = s.lto(Optimization::O2, true, false, true);
    match s.advance(failed(1, "error: a.bc: invalid bitcode")) {
        Action::Done(Err(LinkerError::LinkFailure { modules, status, stdout, stderr })) => {
            assert_eq!(modules, strs(&["a.bc", "b.bc"]));
            assert_eq!(status, Some(1));
            assert_eq!(stdout, "partial");
            assert_eq!(stderr, "error: a.bc: invalid bitcode");
        }
        other => panic!("unexpected {:?}", other),
    }
    assert!(is_out_of_order(&s.advance(ok(""))));
    assert!(is_out_of_order(&s.advance(Event::Written(Ok(())))));
}

#[test]
fn version_must_be_a_number() {
    assert_eq!(llvm_major_version("LLVM version: .5
"), None);
    assert_eq!(llvm_major_version("LLVM version: 17git.0
"), None);
    assert_eq!(llvm_major_version("LLVM version: x1.2
LLVM version: 20.1.1
"), Some(String::from("20")));
    assert!(matches!(
        resolve_major("LLVM version: .0
"),
        Err(LinkerError::ToolchainVersionUnresolved { .. })
    ));
}

#[test]
fn outcomes_without_a_pending_step_are_refused() {
    let mut s = session(None);
    assert!(is_out_of_order(&s.advance(ok(""))));
    let _ = s.link_rlib("x.rlib", true);
    assert!(is_out_of_order(&s.lto(Optimization::O1, true, false, true)));
    assert!(is_out_of_order(&s.add_bitcode("y.bc", false)));
    assert!(is_out_of_order(&s.link_rlib("z.rlib", false)));
    assert!(s.bitcode().is_empty());
    let _ = s.advance(ok(""));
    // a write outcome where a tool's was awaited aborts the ingestion
    assert!(is_out_of_order(&s.advance(Event::Written(Ok(())))));
    assert!(s.bitcode().is_empty());
}

#[test]
fn signal_killed_tool_fails() {
    let mut s = session(None);
    let _ = s.add_bitcode("m.bc", true);
    let e = Event::Exited(ToolOutput { status: None, stdout: String::new(), stderr: String::from("killed") });
    match s.advance(e) {
        Action::Done(Err(LinkerError::ExternalToolFailure { stage, status, .. })) => {
            assert_eq!(stage, Stage::SymbolDump);
            assert_eq!(status, None);
        }
        other => panic!("unexpected {:?}", other),
    }
    assert!(s.bitcode().is_empty());
    assert!(s.symbols().is_empty());
}

#[test]
fn extract_failure_reports_stage() {
    let mut s = session(None);
    let _ = s.link_rlib("x.rlib", false);
    match s.advance(failed(2, "no members")) {
        Action::Done(Err(LinkerError::ExternalToolFailure { stage, .. })) => assert_eq!(stage, Stage::LinkExtract),
        other => panic!("unexpected {:?}", other),
    }
}

#[test]
fn symbol_file_write_failure() {
    let mut s = session(None);
    let _ = s.lto(Optimization::O2, true, false, true);
    let _ = s.advance(ok(""));
    match s.advance(Event::Written(Err(String::from("/tmp/kernel.symbols.txt: permission denied")))) {
        Action::Done(Err(LinkerError::SymbolFileWriteError { reason })) => {
            assert_eq!(reason, "/tmp/kernel.symbols.txt: permission denied")
        }
        other => panic!("unexpected {:?}", other),
    }
}

#[test]
fn later_stage_failures() {
    let mut s = session(None);
    let _ = s.lto(Optimization::O2, true, false, true);
    let _ = s.advance(ok(""));
    let _ = s.advance(Event::Written(Ok(())));
    match s.advance(failed(1, "opt broke")) {
        Action::Done(Err(LinkerError::ExternalToolFailure { stage, .. })) => assert_eq!(stage, Stage::Optimize),
        other => panic!("unexpected {:?}", other),
    }
    let _ = s.lto(Optimization::O2, true, false, true);
    let _ = s.advance(ok(""));
    let _ = s.advance(Event::Written(Ok(())));
    let _ = s.advance(ok(""));
    match s.advance(failed(1, "nm broke")) {
        Action::Done(Err(LinkerError::ExternalToolFailure { stage, .. })) => assert_eq!(stage, Stage::Inline),
        other => panic!("unexpected {:?}", other),
    }
    let _ = s.lto(Optimization::O2, true, false, true);
    let _ = s.advance(ok(""));
    let _ = s.advance(Event::Written(Ok(())));
    let _ = s.advance(ok(""));
    let _ = s.advance(ok("f"));
    let _ = s.advance(ok(""));
    match s.advance(failed(3, "llc broke")) {
        Action::Done(Err(LinkerError::ExternalToolFailure { stage, stderr, .. })) => {
            assert_eq!(stage, Stage::Compile);
            assert_eq!(stderr, "llc broke");
        }
        other => panic!("unexpected {:?}", other),
    }
}

#[test]
fn args_order_inputs() {
    let args = Args {
        bitcode: strs(&["k.bc"]),
        rlib: strs(&["core.rlib", "alloc.rlib"]),
        whole_rlib: strs(&["kernel.rlib"]),
        input_dir: Vec::new(),
        target: Target::Nvptx64NvidiaCuda,
        target_cpu: None,
        fallback_arch: None,
        output: String::from("out.ptx"),
        lto: false,
        debug: true,
        optimization: Optimization::O1,
    };
    let inputs = args.inputs();
    let seen: Vec<(InputKind, String, bool)> =
        inputs.into_iter().map(|i| (i.kind, i.path, i.keep_symbols)).collect();
    assert_eq!(
        seen,
        vec![
            (InputKind::Rlib, String::from("kernel.rlib"), true),
            (InputKind::Rlib, String::from("core.rlib"), false),
            (InputKind::Rlib, String::from("alloc.rlib"), false),
            (InputKind::Bitcode, String::from("k.bc"), true),
        ]
    );
    assert_eq!(
        args.requested_options(),
        LtoOptions { optimization: Optimization::O1, internalize: true, debug: true, inline: true }
    );
}
