use vstd::prelude::*;
use crate::error::{LinkerError, Stage};
use crate::policy::{
    apply_target_overrides, applied_overrides, effective_options, is_reserved_symbol,
    optimization_name, reserved_symbol, LtoOptions, Optimization, Override, Target,
};
use crate::text::{split_whitespace, words};
use crate::toolchain::{succeeded, Command, ToolOutput};

verus! {

/// The path `path` with its extension set to `ext`, as `Path::with_extension`
/// makes it.
pub uninterp spec fn with_extension_of(path: Seq<char>, ext: Seq<char>) -> Seq<char>;

/// Relies on `std::path::Path::with_extension`: the result depends on the two
/// texts alone (a path made from a `&str` stays valid UTF-8). It panics on
/// an extension that holds a path separator, so none is admitted.
#[verifier::external_body]
fn path_with_extension(path: &str, ext: &str) -> (r: String)
    requires
        forall|i: int| 0 <= i < ext@.len() ==> ext@[i] != '/' && ext@[i] != '\\',
    ensures
        r@ == with_extension_of(path@, ext@),
{
    std::path::Path::new(path).with_extension(ext).to_string_lossy().into_owned()
}

fn cat(a: &str, b: &str) -> (r: String)
    ensures
        r@ == a@ + b@,
{
    String::from_str(a).concat(b)
}

/// What the session awaits.
#[derive(Debug)]
pub enum Phase {
    /// Nothing: ingestion and the pipeline may be started.
    Idle,
    /// The bitcode of an rlib being pulled out into `module`.
    Extract { module: String, keep: bool },
    /// The exported symbols of `module`.
    ExportSymbols { module: String },
    /// The whole-program link.
    Link { options: LtoOptions },
    /// The file of required symbols being written.
    WriteSymbols { options: LtoOptions },
    /// The first optimizer run.
    Optimize { options: LtoOptions },
    /// The defined symbols left after the first optimizer run.
    DefinedSymbols { optimization: Optimization },
    /// The forced-inlining optimizer run.
    Inline,
    /// The code generator.
    Compile,
}

/// What the program around the session is to do next.
#[derive(Debug)]
pub enum Action {
    /// Run this command and report its output with `Event::Exited`.
    Run(Command),
    /// Write `contents` to `path` and report the outcome with `Event::Written`.
    WriteFile { path: String, contents: String },
    /// The operation is over, with this outcome.
    Done(Result<(), LinkerError>),
}

/// An outcome of an action that the program around the session performed.
#[derive(Debug)]
pub enum Event {
    Exited(ToolOutput),
    /// `Err` holds the reason the write failed.
    Written(Result<(), String>),
}

/// An action as values: a program with its arguments, a path with the text
/// to write there, or an outcome.
pub enum ActionView {
    Run(Seq<char>, Seq<Seq<char>>),
    WriteFile(Seq<char>, Seq<char>),
    /// The link failed while merging these modules, with this output.
    LinkFailed(Seq<Seq<char>>, ToolOutput),
    Done(Result<(), LinkerError>),
}

impl View for Action {
    type V = ActionView;

    open spec fn view(&self) -> ActionView {
        match self {
            Action::Run(c) => ActionView::Run(c@.0, c@.1),
            Action::WriteFile { path, contents } => ActionView::WriteFile(path@, contents@),
            Action::Done(r) => match r {
                Err(LinkerError::LinkFailure { modules, status, stdout, stderr }) => ActionView::LinkFailed(
                    texts(modules@),
                    ToolOutput { status: *status, stdout: *stdout, stderr: *stderr },
                ),
                _ => ActionView::Done(*r),
            },
        }
    }
}

/// The state of a linking session.
pub struct SessionView {
    pub target: Target,
    pub cpu: Option<Seq<char>>,
    /// Symbols that must survive internalization; no name twice.
    pub symbols: Seq<Seq<char>>,
    /// Ingested modules, in link order.
    pub bitcode: Seq<Seq<char>>,
    /// Suffix of every tool name.
    pub version: Seq<char>,
    pub link_path: Seq<char>,
    pub opt_path: Seq<char>,
    pub sym_path: Seq<char>,
    pub out_path: Seq<char>,
    pub phase: Phase,
    /// The overrides the target forced on the last pipeline run.
    pub overrides: Seq<Override>,
}

fn run(program: String, args: Vec<String>) -> (r: Action)
    ensures
        r@ == ActionView::Run(program@, args@.map_values(|a: String| a@)),
{
    Action::Run(Command { program, args })
}

/// The name of a tool, carrying the session's version suffix.
pub open spec fn tool(base: Seq<char>, version: Seq<char>) -> Seq<char> {
    base + version
}

/// Pulls the bitcode of the rlib `path` into the module `out`.
pub open spec fn extract_action(version: Seq<char>, path: Seq<char>, out: Seq<char>) -> ActionView {
    ActionView::Run(tool("llvm-link"@, version), seq![path, "-o"@, out, "--ignore-non-bitcode"@])
}

/// Lists the exported symbols of `module`.
pub open spec fn export_symbols_action(version: Seq<char>, module: Seq<char>) -> ActionView {
    ActionView::Run(tool("llvm-nm"@, version), seq!["--extern-only"@, "--export-symbols"@, module])
}

/// Links every module into `out`.
pub open spec fn link_action(version: Seq<char>, bitcode: Seq<Seq<char>>, out: Seq<char>) -> ActionView {
    ActionView::Run(tool("llvm-link"@, version), bitcode + seq!["-o"@, out])
}

/// The optimizer's default pipeline at level `o`.
pub open spec fn default_passes(o: Optimization) -> Seq<char> {
    "default<"@ + optimization_name(o) + ">"@
}

/// The passes of the first optimizer run.
pub open spec fn optimize_passes(options: LtoOptions) -> Seq<char> {
    default_passes(options.optimization) + if options.internalize {
        ",internalize,globaldce"@
    } else {
        Seq::empty()
    }
}

/// The passes of the forced-inlining optimizer run.
pub open spec fn inline_passes(o: Optimization) -> Seq<char> {
    default_passes(o) + ",forceattrs,always-inline,gvn,globalopt,mem2reg,dse,globalopt"@
}

/// The first optimizer run, from the linked module to the optimized one.
pub open spec fn optimize_action(s: SessionView, options: LtoOptions) -> ActionView {
    ActionView::Run(
        tool("opt"@, s.version),
        seq![
            s.link_path,
            "-o"@,
            s.opt_path,
            "--internalize-public-api-file="@ + s.sym_path,
            "--passes="@ + optimize_passes(options),
        ] + if options.debug { Seq::empty() } else { seq!["--strip-debug"@] },
    )
}

/// Lists the symbols defined in `module`.
pub open spec fn defined_symbols_action(version: Seq<char>, module: Seq<char>) -> ActionView {
    ActionView::Run(
        tool("llvm-nm"@, version),
        seq!["--format=just-symbols"@, "--defined-only"@, module],
    )
}

/// The argument that forces `symbol` inline.
pub open spec fn force_inline_arg(symbol: Seq<char>) -> Seq<char> {
    "--force-attribute="@ + symbol + ":alwaysinline"@
}

/// The arguments that force each of `symbols` inline.
pub open spec fn force_inline_args(symbols: Seq<Seq<char>>) -> Seq<Seq<char>> {
    symbols.map_values(|x: Seq<char>| force_inline_arg(x))
}

/// The forced-inlining run over `module`, in place, for each of `symbols`.
pub open spec fn inline_action(
    version: Seq<char>,
    module: Seq<char>,
    o: Optimization,
    symbols: Seq<Seq<char>>,
) -> ActionView {
    ActionView::Run(
        tool("opt"@, version),
        seq![module, "-o"@, module, "--passes="@ + inline_passes(o)]
            + force_inline_args(symbols),
    )
}

/// Lowers the optimized module to the output.
pub open spec fn compile_action(s: SessionView) -> ActionView {
    ActionView::Run(
        tool("llc"@, s.version),
        match s.cpu {
            Some(c) => seq!["--mcpu"@, c],
            None => Seq::empty(),
        } + seq![s.opt_path, "-o"@, s.out_path],
    )
}

/// The text of the required-symbol file: one name per line.
pub open spec fn symbol_file_text(symbols: Seq<Seq<char>>) -> Seq<char>
    decreases symbols.len(),
{
    if symbols.len() == 0 {
        Seq::empty()
    } else {
        symbol_file_text(symbols.drop_last()) + symbols.last() + seq!['\n']
    }
}

/// `symbols` with each of `found` that is not reserved and not already there
/// appended, in order.
pub open spec fn add_symbols(symbols: Seq<Seq<char>>, found: Seq<Seq<char>>) -> Seq<Seq<char>>
    decreases found.len(),
{
    if found.len() == 0 {
        symbols
    } else {
        let before = add_symbols(symbols, found.drop_last());
        let w = found.last();
        if is_reserved_symbol(w) || before.contains(w) {
            before
        } else {
            before.push(w)
        }
    }
}

/// The error that reports a failed tool run verbatim.
pub open spec fn tool_failure(stage: Stage, o: ToolOutput) -> LinkerError {
    LinkerError::ExternalToolFailure {
        stage,
        status: o.status,
        stdout: o.stdout,
        stderr: o.stderr,
    }
}

/// `s` awaiting nothing.
pub open spec fn idle(s: SessionView) -> SessionView {
    SessionView { phase: Phase::Idle, ..s }
}

/// The refusal of an outcome or operation that does not fit the phase.
pub open spec fn out_of_order() -> ActionView {
    ActionView::Done(Err(LinkerError::OutOfOrder))
}

/// The successful end of an operation.
pub open spec fn finished() -> ActionView {
    ActionView::Done(Ok(()))
}

/// The state once the pipeline is started from `s` with `requested`: the
/// link awaited, with the options the target allows.
pub open spec fn lto_started(s: SessionView, requested: LtoOptions) -> SessionView {
    SessionView {
        phase: Phase::Link { options: effective_options(s.target, requested) },
        overrides: applied_overrides(s.target, requested),
        ..s
    }
}

/// The move from state `s` on event `e`: the next state and action.
pub open spec fn step(s: SessionView, e: Event) -> (SessionView, ActionView) {
    match (s.phase, e) {
        (Phase::Extract { module, keep }, Event::Exited(o)) => if !succeeded(o) {
            (idle(s), ActionView::Done(Err(tool_failure(Stage::LinkExtract, o))))
        } else if keep {
            (
                SessionView { phase: Phase::ExportSymbols { module }, ..s },
                export_symbols_action(s.version, module@),
            )
        } else {
            (SessionView { bitcode: s.bitcode.push(module@), ..idle(s) }, finished())
        },
        (Phase::ExportSymbols { module }, Event::Exited(o)) => if !succeeded(o) {
            (idle(s), ActionView::Done(Err(tool_failure(Stage::SymbolDump, o))))
        } else {
            (
                SessionView {
                    symbols: add_symbols(s.symbols, words(o.stdout@)),
                    bitcode: s.bitcode.push(module@),
                    ..idle(s)
                },
                finished(),
            )
        },
        (Phase::Link { options }, Event::Exited(o)) => if !succeeded(o) {
            (idle(s), ActionView::LinkFailed(s.bitcode, o))
        } else if options.internalize {
            (
                SessionView { phase: Phase::WriteSymbols { options }, ..s },
                ActionView::WriteFile(s.sym_path, symbol_file_text(s.symbols)),
            )
        } else {
            (SessionView { phase: Phase::Optimize { options }, ..s }, optimize_action(s, options))
        },
        (Phase::WriteSymbols { options }, Event::Written(w)) => match w {
            Ok(_) => (
                SessionView { phase: Phase::Optimize { options }, ..s },
                optimize_action(s, options),
            ),
            Err(reason) => (
                idle(s),
                ActionView::Done(Err(LinkerError::SymbolFileWriteError { reason })),
            ),
        },
        (Phase::Optimize { options }, Event::Exited(o)) => if !succeeded(o) {
            (idle(s), ActionView::Done(Err(tool_failure(Stage::Optimize, o))))
        } else if options.inline {
            (
                SessionView {
                    phase: Phase::DefinedSymbols { optimization: options.optimization },
                    ..s
                },
                defined_symbols_action(s.version, s.opt_path),
            )
        } else {
            (SessionView { phase: Phase::Compile, ..s }, compile_action(s))
        },
        (Phase::DefinedSymbols { optimization }, Event::Exited(o)) => if !succeeded(o) {
            (idle(s), ActionView::Done(Err(tool_failure(Stage::Inline, o))))
        } else {
            (
                SessionView { phase: Phase::Inline, ..s },
                inline_action(s.version, s.opt_path, optimization, words(o.stdout@)),
            )
        },
        (Phase::Inline, Event::Exited(o)) => if !succeeded(o) {
            (idle(s), ActionView::Done(Err(tool_failure(Stage::Inline, o))))
        } else {
            (SessionView { phase: Phase::Compile, ..s }, compile_action(s))
        },
        (Phase::Compile, Event::Exited(o)) => if !succeeded(o) {
            (idle(s), ActionView::Done(Err(tool_failure(Stage::Compile, o))))
        } else {
            (idle(s), finished())
        },
        (Phase::Idle, _) => (s, out_of_order()),
        _ => (idle(s), out_of_order()),
    }
}

/// The invariant every state of a session keeps: no required symbol twice.
pub open spec fn wf(s: SessionView) -> bool {
    s.symbols.no_duplicates()
}

/// A linking session: the inputs gathered so far, the files it derives from
/// the output path, and what it awaits.
pub struct Session {
    target: Target,
    cpu: Option<String>,
    symbols: Vec<String>,
    bitcode: Vec<String>,
    version: String,
    link_path: String,
    opt_path: String,
    sym_path: String,
    out_path: String,
    phase: Phase,
    overrides: Vec<Override>,
}

/// The texts of a sequence of strings.
pub open spec fn texts(v: Seq<String>) -> Seq<Seq<char>> {
    v.map_values(|a: String| a@)
}

impl View for Session {
    type V = SessionView;

    closed spec fn view(&self) -> SessionView {
        SessionView {
            target: self.target,
            cpu: match self.cpu {
                Some(c) => Some(c@),
                None => None,
            },
            symbols: texts(self.symbols@),
            bitcode: texts(self.bitcode@),
            version: self.version@,
            link_path: self.link_path@,
            opt_path: self.opt_path@,
            sym_path: self.sym_path@,
            out_path: self.out_path@,
            phase: self.phase,
            overrides: self.overrides@,
        }
    }
}

fn push_text(v: &mut Vec<String>, s: String)
    ensures
        texts(final(v)@) == texts(old(v)@).push(s@),
{
    v.push(s);
    assert(texts(v@) =~= texts(old(v)@).push(s@));
}

fn copy_texts(v: &Vec<String>) -> (r: Vec<String>)
    ensures
        texts(r@) == texts(v@),
{
    let mut r: Vec<String> = Vec::new();
    let mut i: usize = 0;
    assert(texts(r@) =~= texts(v@).take(0));
    while i < v.len()
        invariant
            i <= v@.len(),
            texts(r@) == texts(v@).take(i as int),
        decreases v@.len() - i,
    {
        push_text(&mut r, v[i].clone());
        assert(texts(v@).take(i + 1) =~= texts(v@).take(i as int).push(v@[i as int]@));
        i = i + 1;
    }
    assert(texts(v@).take(i as int) =~= texts(v@));
    r
}

fn contains_text(v: &Vec<String>, s: &String) -> (r: bool)
    ensures
        r == texts(v@).contains(s@),
{
    let mut i: usize = 0;
    while i < v.len()
        invariant
            i <= v@.len(),
            forall|k: int| 0 <= k < i ==> v@[k]@ != s@,
        decreases v@.len() - i,
    {
        if v[i] == *s {
            assert(texts(v@)[i as int] == s@);
            return true;
        }
        i = i + 1;
    }
    assert(!texts(v@).contains(s@)) by {
        if texts(v@).contains(s@) {
            let k = choose|k: int| 0 <= k < texts(v@).len() && texts(v@)[k] == s@;
            assert(v@[k]@ == s@);
        }
    }
    false
}

fn symbol_file_contents(symbols: &Vec<String>) -> (r: String)
    ensures
        r@ == symbol_file_text(texts(symbols@)),
{
    let mut out = String::new();
    let mut i: usize = 0;
    assert(texts(symbols@).take(0) =~= Seq::<Seq<char>>::empty());
    while i < symbols.len()
        invariant
            i <= symbols@.len(),
            out@ == symbol_file_text(texts(symbols@).take(i as int)),
        decreases symbols@.len() - i,
    {
        let ghost t = texts(symbols@).take(i + 1);
        assert(t.drop_last() =~= texts(symbols@).take(i as int));
        out.append(symbols[i].as_str());
        out.append("\n");
        proof {
            reveal_strlit("\n");
        }
        assert(out@ =~= symbol_file_text(t));
        i = i + 1;
    }
    assert(texts(symbols@).take(symbols@.len() as int) =~= texts(symbols@));
    out
}

proof fn lemma_add_symbols_no_dup(symbols: Seq<Seq<char>>, found: Seq<Seq<char>>)
    requires
        symbols.no_duplicates(),
    ensures
        add_symbols(symbols, found).no_duplicates(),
    decreases found.len(),
{
    if found.len() > 0 {
        lemma_add_symbols_no_dup(symbols, found.drop_last());
    }
}

fn add_found(symbols: &mut Vec<String>, found: Vec<String>)
    ensures
        texts(final(symbols)@) == add_symbols(texts(old(symbols)@), texts(found@)),
{
    let ghost start = texts(symbols@);
    let mut i: usize = 0;
    assert(texts(found@).take(0) =~= Seq::<Seq<char>>::empty());
    while i < found.len()
        invariant
            i <= found@.len(),
            texts(symbols@) == add_symbols(start, texts(found@).take(i as int)),
        decreases found@.len() - i,
    {
        let ghost t = texts(found@).take(i + 1);
        assert(t.drop_last() =~= texts(found@).take(i as int));
        assert(t.last() == found@[i as int]@);
        let w = &found[i];
        if !reserved_symbol(w.as_str()) && !contains_text(symbols, w) {
            push_text(symbols, w.clone());
        }
        i = i + 1;
    }
    assert(texts(found@).take(found@.len() as int) =~= texts(found@));
}

fn failure(stage: Stage, o: ToolOutput) -> (r: Action)
    ensures
        r@ == ActionView::Done(Err(tool_failure(stage, o))),
{
    Action::Done(
        Err(LinkerError::ExternalToolFailure { stage, status: o.status, stdout: o.stdout, stderr: o.stderr }),
    )
}

impl Session {
    /// A session for `target` that writes its native output to `out_path`,
    /// naming every tool with the suffix `version`. The linked module, the
    /// optimized module and the symbol file are kept beside the output.
    pub fn new(target: Target, cpu: Option<String>, out_path: &str, version: String) -> (r: Session)
        ensures
            r@ == (SessionView {
                target,
                cpu: match cpu {
                    Some(c) => Some(c@),
                    None => None,
                },
                symbols: Seq::empty(),
                bitcode: Seq::empty(),
                version: version@,
                link_path: with_extension_of(out_path@, "o"@),
                opt_path: with_extension_of(out_path@, "optimized.o"@),
                sym_path: with_extension_of(out_path@, "symbols.txt"@),
                out_path: out_path@,
                phase: Phase::Idle,
                overrides: Seq::empty(),
            }),
            wf(r@),
    {
        proof {
            reveal_strlit("o");
            reveal_strlit("optimized.o");
            reveal_strlit("symbols.txt");
        }
        let r = Session {
            target,
            cpu,
            symbols: Vec::new(),
            bitcode: Vec::new(),
            version,
            link_path: path_with_extension(out_path, "o"),
            opt_path: path_with_extension(out_path, "optimized.o"),
            sym_path: path_with_extension(out_path, "symbols.txt"),
            out_path: String::from_str(out_path),
            phase: Phase::Idle,
            overrides: Vec::new(),
        };
        assert(texts(r.symbols@) =~= Seq::<Seq<char>>::empty());
        assert(texts(r.bitcode@) =~= Seq::<Seq<char>>::empty());
        r
    }

    /// Pulls the bitcode out of the rlib at `path` into a module beside it
    /// (its extension replaced by `o`), then ingests that module as
    /// `add_bitcode` does, keeping its exported symbols where `keep_symbols`.
    pub fn link_rlib(&mut self, path: &str, keep_symbols: bool) -> (r: Action)
        ensures
            !(old(self)@.phase is Idle) ==> final(self)@ == old(self)@ && r@ == out_of_order(),
            old(self)@.phase is Idle ==> ({
                let module = with_extension_of(path@, "o"@);
                &&& final(self)@.phase matches Phase::Extract { module: m, keep }
                    && m@ == module && keep == keep_symbols
                &&& final(self)@ == (SessionView { phase: final(self)@.phase, ..old(self)@ })
                &&& r@ == extract_action(old(self)@.version, path@, module)
            }),
    {
        if !self.is_idle() {
            return Action::Done(Err(LinkerError::OutOfOrder));
        }
        proof {
            reveal_strlit("o");
        }
        let module = path_with_extension(path, "o");
        let a = self.extract(path, &module);
        self.phase = Phase::Extract { module, keep: keep_symbols };
        a
    }

    /// Adds the bitcode module at `path` to the modules to link. Where
    /// `keep_symbols`, its exported symbols are listed first and every one
    /// that is not reserved joins the required symbols.
    pub fn add_bitcode(&mut self, path: &str, keep_symbols: bool) -> (r: Action)
        ensures
            !(old(self)@.phase is Idle) ==> final(self)@ == old(self)@ && r@ == out_of_order(),
            old(self)@.phase is Idle && keep_symbols ==> {
                &&& final(self)@.phase matches Phase::ExportSymbols { module: m } && m@ == path@
                &&& final(self)@ == (SessionView { phase: final(self)@.phase, ..old(self)@ })
                &&& r@ == export_symbols_action(old(self)@.version, path@)
            },
            old(self)@.phase is Idle && !keep_symbols ==> {
                &&& final(self)@ == (SessionView {
                    bitcode: old(self)@.bitcode.push(path@),
                    ..old(self)@
                })
                &&& r@ == finished()
            },
    {
        if !self.is_idle() {
            return Action::Done(Err(LinkerError::OutOfOrder));
        }
        let module = String::from_str(path);
        if keep_symbols {
            let a = self.export_symbols(&module);
            self.phase = Phase::ExportSymbols { module };
            a
        } else {
            push_text(&mut self.bitcode, module);
            Action::Done(Ok(()))
        }
    }

    /// Starts the pipeline: link, optimize, compile. The target's demands
    /// are applied to the requested options first; the first action links
    /// every ingested module.
    pub fn lto(&mut self, optimization: Optimization, internalize: bool, debug: bool, inline: bool) -> (r: Action)
        ensures
            !(old(self)@.phase is Idle) ==> final(self)@ == old(self)@ && r@ == out_of_order(),
            old(self)@.phase is Idle ==> final(self)@ == lto_started(
                old(self)@,
                LtoOptions { optimization, internalize, debug, inline },
            ) && r@ == link_action(old(self)@.version, old(self)@.bitcode, old(self)@.link_path),
    {
        if !self.is_idle() {
            return Action::Done(Err(LinkerError::OutOfOrder));
        }
        let requested = LtoOptions { optimization, internalize, debug, inline };
        let (options, applied) = apply_target_overrides(self.target, requested);
        self.overrides = applied;
        self.phase = Phase::Link { options };
        self.link_all()
    }

    /// Takes the outcome of the last action and says what to do next.
    pub fn advance(&mut self, event: Event) -> (r: Action)
        ensures
            (final(self)@, r@) == step(old(self)@, event),
            wf(old(self)@) ==> wf(final(self)@),
    {
        let mut phase = Phase::Idle;
        std::mem::swap(&mut self.phase, &mut phase);
        match (phase, event) {
            (Phase::Extract { module, keep }, Event::Exited(o)) => {
                if !o.success() {
                    failure(Stage::LinkExtract, o)
                } else if keep {
                    let a = self.export_symbols(&module);
                    self.phase = Phase::ExportSymbols { module };
                    a
                } else {
                    push_text(&mut self.bitcode, module);
                    Action::Done(Ok(()))
                }
            },
            (Phase::ExportSymbols { module }, Event::Exited(o)) => {
                if !o.success() {
                    failure(Stage::SymbolDump, o)
                } else {
                    let found = split_whitespace(o.stdout.as_str());
                    proof {
                        if wf(old(self)@) {
                            lemma_add_symbols_no_dup(texts(self.symbols@), texts(found@));
                        }
                    }
                    add_found(&mut self.symbols, found);
                    push_text(&mut self.bitcode, module);
                    Action::Done(Ok(()))
                }
            },
            (Phase::Link { options }, Event::Exited(o)) => {
                if !o.success() {
                    let modules = copy_texts(&self.bitcode);
                    Action::Done(
                        Err(LinkerError::LinkFailure {
                            modules,
                            status: o.status,
                            stdout: o.stdout,
                            stderr: o.stderr,
                        }),
                    )
                } else if options.internalize {
                    let contents = symbol_file_contents(&self.symbols);
                    self.phase = Phase::WriteSymbols { options };
                    Action::WriteFile { path: self.sym_path.clone(), contents }
                } else {
                    let a = self.optimize(options);
                    self.phase = Phase::Optimize { options };
                    a
                }
            },
            (Phase::WriteSymbols { options }, Event::Written(w)) => {
                match w {
                    Ok(_) => {
                        let a = self.optimize(options);
                        self.phase = Phase::Optimize { options };
                        a
                    },
                    Err(reason) => Action::Done(Err(LinkerError::SymbolFileWriteError { reason })),
                }
            },
            (Phase::Optimize { options }, Event::Exited(o)) => {
                if !o.success() {
                    failure(Stage::Optimize, o)
                } else if options.inline {
                    let a = self.defined_symbols();
                    self.phase = Phase::DefinedSymbols { optimization: options.optimization };
                    a
                } else {
                    let a = self.compile();
                    self.phase = Phase::Compile;
                    a
                }
            },
            (Phase::DefinedSymbols { optimization }, Event::Exited(o)) => {
                if !o.success() {
                    failure(Stage::Inline, o)
                } else {
                    let a = self.inline_all(optimization, o.stdout.as_str());
                    self.phase = Phase::Inline;
                    a
                }
            },
            (Phase::Inline, Event::Exited(o)) => {
                if !o.success() {
                    failure(Stage::Inline, o)
                } else {
                    let a = self.compile();
                    self.phase = Phase::Compile;
                    a
                }
            },
            (Phase::Compile, Event::Exited(o)) => {
                if !o.success() {
                    failure(Stage::Compile, o)
                } else {
                    Action::Done(Ok(()))
                }
            },
            (Phase::Idle, _) => Action::Done(Err(LinkerError::OutOfOrder)),
            _ => Action::Done(Err(LinkerError::OutOfOrder)),
        }
    }

    /// The symbols that must survive internalization, in the order found.
    pub fn symbols(&self) -> (r: &Vec<String>)
        ensures
            texts(r@) == self@.symbols,
    {
        &self.symbols
    }

    /// The ingested modules, in link order.
    pub fn bitcode(&self) -> (r: &Vec<String>)
        ensures
            texts(r@) == self@.bitcode,
    {
        &self.bitcode
    }

    /// The overrides the target forced on the last pipeline run.
    pub fn overrides(&self) -> (r: &Vec<Override>)
        ensures
            r@ == self@.overrides,
    {
        &self.overrides
    }

    fn is_idle(&self) -> (r: bool)
        ensures
            r == (self@.phase is Idle),
    {
        match self.phase {
            Phase::Idle => true,
            _ => false,
        }
    }

    fn export_symbols(&self, module: &String) -> (r: Action)
        ensures
            r@ == export_symbols_action(self@.version, module@),
    {
        let mut args: Vec<String> = Vec::new();
        push_text(&mut args, String::from_str("--extern-only"));
        push_text(&mut args, String::from_str("--export-symbols"));
        push_text(&mut args, module.clone());
        assert(texts(args@) =~= seq!["--extern-only"@, "--export-symbols"@, module@]);
        run(self.tool_name("llvm-nm"), args)
    }

    fn extract(&self, path: &str, module: &String) -> (r: Action)
        ensures
            r@ == extract_action(self@.version, path@, module@),
    {
        let mut args: Vec<String> = Vec::new();
        push_text(&mut args, String::from_str(path));
        push_text(&mut args, String::from_str("-o"));
        push_text(&mut args, module.clone());
        push_text(&mut args, String::from_str("--ignore-non-bitcode"));
        assert(texts(args@) =~= seq![path@, "-o"@, module@, "--ignore-non-bitcode"@]);
        run(self.tool_name("llvm-link"), args)
    }

    fn link_all(&self) -> (r: Action)
        ensures
            r@ == link_action(self@.version, self@.bitcode, self@.link_path),
    {
        let mut args: Vec<String> = Vec::new();
        let mut i: usize = 0;
        assert(texts(self.bitcode@).take(0) =~= texts(args@));
        while i < self.bitcode.len()
            invariant
                i <= self.bitcode@.len(),
                texts(args@) == texts(self.bitcode@).take(i as int),
            decreases self.bitcode@.len() - i,
        {
            push_text(&mut args, self.bitcode[i].clone());
            assert(texts(self.bitcode@).take(i + 1) =~= texts(self.bitcode@).take(i as int).push(
                self.bitcode@[i as int]@,
            ));
            i = i + 1;
        }
        assert(texts(self.bitcode@).take(i as int) =~= texts(self.bitcode@));
        push_text(&mut args, String::from_str("-o"));
        push_text(&mut args, self.link_path.clone());
        assert(texts(args@) =~= self@.bitcode + seq!["-o"@, self@.link_path]);
        run(self.tool_name("llvm-link"), args)
    }

    fn default_passes(o: Optimization) -> (r: String)
        ensures
            r@ == default_passes(o),
    {
        let name = o.name();
        cat("default<", name.as_str()).concat(">")
    }

    fn optimize(&self, options: LtoOptions) -> (r: Action)
        ensures
            r@ == optimize_action(self@, options),
    {
        let mut passes = Self::default_passes(options.optimization);
        if options.internalize {
            passes.append(",internalize,globaldce");
        }
        let mut args: Vec<String> = Vec::new();
        push_text(&mut args, self.link_path.clone());
        push_text(&mut args, String::from_str("-o"));
        push_text(&mut args, self.opt_path.clone());
        push_text(&mut args, cat("--internalize-public-api-file=", self.sym_path.as_str()));
        push_text(&mut args, cat("--passes=", passes.as_str()));
        if !options.debug {
            push_text(&mut args, String::from_str("--strip-debug"));
        }
        assert(passes@ =~= optimize_passes(options));
        assert(texts(args@) =~= optimize_action(self@, options)->Run_1);
        run(self.tool_name("opt"), args)
    }

    fn defined_symbols(&self) -> (r: Action)
        ensures
            r@ == defined_symbols_action(self@.version, self@.opt_path),
    {
        let mut args: Vec<String> = Vec::new();
        push_text(&mut args, String::from_str("--format=just-symbols"));
        push_text(&mut args, String::from_str("--defined-only"));
        push_text(&mut args, self.opt_path.clone());
        assert(texts(args@) =~= seq!["--format=just-symbols"@, "--defined-only"@, self@.opt_path]);
        run(self.tool_name("llvm-nm"), args)
    }

    fn inline_all(&self, optimization: Optimization, dump: &str) -> (r: Action)
        ensures
            r@ == inline_action(self@.version, self@.opt_path, optimization, words(dump@)),
    {
        let symbols = split_whitespace(dump);
        let passes = Self::default_passes(optimization).concat(
            ",forceattrs,always-inline,gvn,globalopt,mem2reg,dse,globalopt",
        );
        let mut args: Vec<String> = Vec::new();
        push_text(&mut args, self.opt_path.clone());
        push_text(&mut args, String::from_str("-o"));
        push_text(&mut args, self.opt_path.clone());
        push_text(&mut args, cat("--passes=", passes.as_str()));
        let ghost head = texts(args@);
        let mut i: usize = 0;
        assert(texts(args@) =~= head + force_inline_args(texts(symbols@).take(0)));
        while i < symbols.len()
            invariant
                i <= symbols@.len(),
                texts(args@) == head + force_inline_args(texts(symbols@).take(i as int)),
            decreases symbols@.len() - i,
        {
            push_text(&mut args, cat("--force-attribute=", symbols[i].as_str()).concat(":alwaysinline"));
            assert(texts(symbols@).take(i + 1) =~= texts(symbols@).take(i as int).push(
                symbols@[i as int]@,
            ));
            assert(force_inline_args(texts(symbols@).take(i + 1)) =~= force_inline_args(
                texts(symbols@).take(i as int),
            ).push(force_inline_arg(symbols@[i as int]@)));
            i = i + 1;
        }
        assert(texts(symbols@).take(i as int) =~= texts(symbols@));
        assert(passes@ =~= inline_passes(optimization));
        assert(texts(args@) =~= seq![self@.opt_path, "-o"@, self@.opt_path, "--passes="@ + inline_passes(optimization)]
            + force_inline_args(words(dump@)));
        run(self.tool_name("opt"), args)
    }

    fn compile(&self) -> (r: Action)
        ensures
            r@ == compile_action(self@),
    {
        let mut args: Vec<String> = Vec::new();
        match &self.cpu {
            Some(c) => {
                push_text(&mut args, String::from_str("--mcpu"));
                push_text(&mut args, c.clone());
            },
            None => {},
        }
        push_text(&mut args, self.opt_path.clone());
        push_text(&mut args, String::from_str("-o"));
        push_text(&mut args, self.out_path.clone());
        assert(texts(args@) =~= compile_action(self@)->Run_1);
        run(self.tool_name("llc"), args)
    }

    fn tool_name(&self, base: &str) -> (r: String)
        ensures
            r@ == tool(base@, self@.version),
    {
        cat(base, self.version.as_str())
    }
}

} // verus!
