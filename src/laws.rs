use vstd::prelude::*;
use crate::policy::{is_reserved_symbol, LtoOptions};
use crate::toolchain::ToolOutput;
use crate::session::{
    add_symbols, defined_symbols_action, idle, inline_action, optimize_action, out_of_order,
    step, lto_started, ActionView, Event, Phase, SessionView,
};
use crate::text::words;
use crate::toolchain::succeeded;

verus! {

/// Whether `e` reports a tool that exited successfully.
pub open spec fn tool_succeeded(e: Event) -> bool {
    e matches Event::Exited(o) && succeeded(o)
}

/// Stages run in order: the first optimizer run is asked for only right
/// after the linker succeeded in this run (or the symbol file was then
/// written), the symbol listing for inlining only right after that optimizer
/// run succeeded, and the code generator only right after an optimizer run
/// succeeded. The symbol file is written once per run, right after the
/// link. A session that awaits nothing refuses every outcome and stays
/// as it is, so no stage ever works on files of an earlier run.
pub proof fn lemma_stage_order(s: SessionView, e: Event)
    ensures
        ({
            let (t, a) = step(s, e);
            &&& t.phase is Optimize ==> (s.phase is Link && tool_succeeded(e)) || (
            s.phase is WriteSymbols && e matches Event::Written(Ok(_)))
            &&& t.phase is DefinedSymbols ==> s.phase is Optimize && tool_succeeded(e)
            &&& t.phase is Compile ==> (s.phase is Optimize || s.phase is Inline) && tool_succeeded(e)
            &&& a is WriteFile ==> s.phase is Link && tool_succeeded(e) && t.phase is WriteSymbols
            &&& s.phase is Idle ==> t == s && a == out_of_order()
        }),
{
}

/// Ingesting a symbol listing keeps exactly the listed names that are not
/// reserved runtime symbols, each once, beside those already kept.
pub proof fn lemma_symbol_filtering(symbols: Seq<Seq<char>>, found: Seq<Seq<char>>)
    requires
        symbols.no_duplicates(),
    ensures
        add_symbols(symbols, found).no_duplicates(),
        forall|w: Seq<char>|
            #[trigger] add_symbols(symbols, found).contains(w) <==> symbols.contains(w) || (
            found.contains(w) && !is_reserved_symbol(w)),
    decreases found.len(),
{
    if found.len() > 0 {
        let rest = found.drop_last();
        lemma_symbol_filtering(symbols, rest);
        let before = add_symbols(symbols, rest);
        let x = found.last();
        assert forall|w: Seq<char>|
            #[trigger] add_symbols(symbols, found).contains(w) <==> symbols.contains(w) || (
            found.contains(w) && !is_reserved_symbol(w)) by {
            assert(found =~= rest.push(x));
            if found.contains(w) {
                let k = choose|k: int| 0 <= k < found.len() && found[k] == w;
                if k < found.len() - 1 {
                    assert(rest[k] == w);
                }
            }
            if rest.contains(w) {
                let k = choose|k: int| 0 <= k < rest.len() && rest[k] == w;
                assert(found[k] == w);
            }
            if !(is_reserved_symbol(x) || before.contains(x)) {
                let after = before.push(x);
                if after.contains(w) {
                    let k = choose|k: int| 0 <= k < after.len() && after[k] == w;
                    if k < before.len() {
                        assert(before[k] == w);
                    }
                }
                if before.contains(w) {
                    let k = choose|k: int| 0 <= k < before.len() && before[k] == w;
                    assert(after[k] == w);
                }
                assert(after[before.len() as int] == x);
            }
        }
    }
}

/// Forced inlining is asked for exactly the symbols that the listing of the
/// first optimizer run's output named, and that listing is asked for only
/// once that run succeeded: a symbol dropped by dead-code elimination is
/// never forced inline.
pub proof fn lemma_inline_after_elimination(s: SessionView, e: Event)
    ensures
        ({
            let (t, a) = step(s, e);
            &&& t.phase is DefinedSymbols ==> {
                &&& s.phase matches Phase::Optimize { options } && options.inline
                    && optimize_action(s, options)->Run_1[2] == s.opt_path
                &&& tool_succeeded(e)
                &&& a == defined_symbols_action(s.version, s.opt_path)
            }
            &&& t.phase is Inline ==> {
                &&& s.phase matches Phase::DefinedSymbols { optimization }
                    && e matches Event::Exited(o) && succeeded(o)
                    && a == inline_action(s.version, s.opt_path, optimization, words(o.stdout@))
            }
        }),
{
}

/// A failed link ends the run: the error carries the linker's output
/// verbatim and the modules it was merging, in link order; the session awaits nothing, and no later outcome starts the
/// optimizer or the code generator.
pub proof fn lemma_link_failure_stops(s: SessionView, options: LtoOptions, o: ToolOutput, later: Event)
    requires
        s.phase == (Phase::Link { options }),
        !succeeded(o),
    ensures
        step(s, Event::Exited(o)) == (idle(s), ActionView::LinkFailed(s.bitcode, o)),
        step(idle(s), later) == (idle(s), out_of_order()),
{
}

/// From a session that awaits nothing, a pipeline whose link fails stops
/// there: the error carries the modules and the linker's output, no
/// optimizer, symbol listing or code generator is asked for afterwards, and
/// no file is written.
pub proof fn lemma_lto_link_failure(s: SessionView, requested: LtoOptions, o: ToolOutput, later: Event)
    requires
        s.phase is Idle,
        !succeeded(o),
    ensures
        step(lto_started(s, requested), Event::Exited(o)).1 == ActionView::LinkFailed(s.bitcode, o),
        step(lto_started(s, requested), Event::Exited(o)).0.phase is Idle,
        step(step(lto_started(s, requested), Event::Exited(o)).0, later).1 == out_of_order(),
{
    lemma_link_failure_stops(
        lto_started(s, requested),
        crate::policy::effective_options(s.target, requested),
        o,
        later,
    );
}

/// Starting the pipeline with options that already meet the target's
/// demands records no override and keeps the options as asked.
pub proof fn lemma_lto_overrides_no_op(s: SessionView, requested: LtoOptions)
    requires
        requested.internalize,
        !requested.debug,
        requested.inline,
    ensures
        lto_started(s, requested).phase == (Phase::Link { options: requested }),
        lto_started(s, requested).overrides.len() == 0,
{
    crate::policy::lemma_overrides_idempotent(s.target, requested);
}

} // verus!
