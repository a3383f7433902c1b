use vstd::prelude::*;
use crate::text::{has_prefix, starts_with};

verus! {

/// The target triple the code is compiled for.
#[derive(Clone, Copy, Debug, PartialEq, Eq, Structural)]
pub enum Target {
    /// `nvptx64-nvidia-cuda`: a GPU target without call/return support for
    /// ordinary functions and without working debug information.
    Nvptx64NvidiaCuda,
}

/// The optimization level handed to the optimizer's default pipeline.
#[derive(Clone, Copy, Debug, PartialEq, Eq, Structural)]
pub enum Optimization {
    O0,
    O1,
    O2,
    O3,
    Os,
    Oz,
}

/// The name of an optimization level as the optimizer spells it.
pub open spec fn optimization_name(o: Optimization) -> Seq<char> {
    match o {
        Optimization::O0 => "O0"@,
        Optimization::O1 => "O1"@,
        Optimization::O2 => "O2"@,
        Optimization::O3 => "O3"@,
        Optimization::Os => "Os"@,
        Optimization::Oz => "Oz"@,
    }
}

impl Optimization {
    /// The level's name as the optimizer spells it (`O2`, `Oz`, ...).
    pub fn name(self) -> (r: String)
        ensures
            r@ == optimization_name(self),
    {
        match self {
            Optimization::O0 => String::from_str("O0"),
            Optimization::O1 => String::from_str("O1"),
            Optimization::O2 => String::from_str("O2"),
            Optimization::O3 => String::from_str("O3"),
            Optimization::Os => String::from_str("Os"),
            Optimization::Oz => String::from_str("Oz"),
        }
    }
}

/// What the caller asks of the optimization stage.
#[derive(Clone, Copy, Debug, PartialEq, Eq, Structural)]
pub struct LtoOptions {
    pub optimization: Optimization,
    /// Internalize every symbol not in the required set, then drop dead globals.
    pub internalize: bool,
    /// Keep debug information.
    pub debug: bool,
    /// Force every remaining defined function inline.
    pub inline: bool,
}

/// A change that the target forced on the requested options.
#[derive(Clone, Copy, Debug, PartialEq, Eq, Structural)]
pub enum Override {
    /// Internalization was switched on.
    Internalize,
    /// Debug information is stripped.
    StripDebug,
    /// Forced inlining was switched on.
    InlineAll,
}

/// Whether the target cannot cope with the whole standard library, with
/// debug information, or with ordinary calls.
pub open spec fn is_constrained(t: Target) -> bool {
    t == Target::Nvptx64NvidiaCuda
}

/// The options in effect once the target's demands are applied.
pub open spec fn effective_options(t: Target, o: LtoOptions) -> LtoOptions {
    if is_constrained(t) {
        LtoOptions { optimization: o.optimization, internalize: true, debug: false, inline: true }
    } else {
        o
    }
}

/// The overrides that change something, in the order they are applied.
pub open spec fn applied_overrides(t: Target, o: LtoOptions) -> Seq<Override> {
    if is_constrained(t) {
        (if !o.internalize { seq![Override::Internalize] } else { seq![] })
            + (if o.debug { seq![Override::StripDebug] } else { seq![] })
            + (if !o.inline { seq![Override::InlineAll] } else { seq![] })
    } else {
        seq![]
    }
}

/// Applies the target's demands to the requested options; also reports
/// each override that changed something.
pub fn apply_target_overrides(target: Target, requested: LtoOptions) -> (r: (LtoOptions, Vec<Override>))
    ensures
        r.0 == effective_options(target, requested),
        r.1@ == applied_overrides(target, requested),
{
    let mut o = requested;
    let mut applied: Vec<Override> = Vec::new();
    let constrained = match target {
        Target::Nvptx64NvidiaCuda => true,
    };
    if !o.internalize && constrained {
        o.internalize = true;
        applied.push(Override::Internalize);
    }
    if o.debug && constrained {
        o.debug = false;
        applied.push(Override::StripDebug);
    }
    if !o.inline && constrained {
        o.inline = true;
        applied.push(Override::InlineAll);
    }
    assert(applied@ =~= applied_overrides(target, requested));
    (o, applied)
}

/// Applying the overrides to options that already meet them changes nothing
/// and reports nothing; applying them twice is applying them once.
pub proof fn lemma_overrides_idempotent(t: Target, o: LtoOptions)
    ensures
        o.internalize && !o.debug && o.inline ==> effective_options(t, o) == o
            && applied_overrides(t, o) =~= Seq::<Override>::empty(),
        effective_options(t, effective_options(t, o)) == effective_options(t, o),
        applied_overrides(t, effective_options(t, o)) =~= Seq::<Override>::empty(),
{
}

/// Symbols of the runtime that must never count as entry points.
pub open spec fn is_reserved_symbol(s: Seq<char>) -> bool {
    s == "__rg_oom"@ || s == "rust_begin_unwind"@ || has_prefix(s, "__rust_"@)
}

/// Tells whether `s` is a reserved runtime symbol (see `is_reserved_symbol`).
pub fn reserved_symbol(s: &str) -> (r: bool)
    ensures
        r == is_reserved_symbol(s@),
{
    let n = s.unicode_len();
    let oom = "__rg_oom";
    let unwind = "rust_begin_unwind";
    let eq_oom = starts_with(s, oom) && n == oom.unicode_len();
    let eq_unwind = starts_with(s, unwind) && n == unwind.unicode_len();
    proof {
        if n == oom@.len() && has_prefix(s@, oom@) {
            assert(s@.take(n as int) =~= s@);
        }
        if n == unwind@.len() && has_prefix(s@, unwind@) {
            assert(s@.take(n as int) =~= s@);
        }
        if s@ == oom@ {
            assert(s@.take(n as int) =~= s@);
        }
        if s@ == unwind@ {
            assert(s@.take(n as int) =~= s@);
        }
    }
    eq_oom || eq_unwind || starts_with(s, "__rust_")
}

} // verus!
