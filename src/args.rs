use vstd::prelude::*;
use crate::policy::{LtoOptions, Optimization, Target};
use crate::session::texts;

verus! {

/// What the linker is asked to do, as plain values.
pub struct Args {
    /// Bitcode modules; their exported symbols are kept.
    pub bitcode: Vec<String>,
    /// Rlib archives.
    pub rlib: Vec<String>,
    /// Rlib archives whose exported symbols are all kept.
    pub whole_rlib: Vec<String>,
    /// Directories of input files.
    pub input_dir: Vec<String>,
    pub target: Target,
    pub target_cpu: Option<String>,
    pub fallback_arch: Option<String>,
    /// Where the native output goes.
    pub output: String,
    pub lto: bool,
    /// Keep debug information where the target allows it.
    pub debug: bool,
    pub optimization: Optimization,
}

/// The kind of an input file.
#[derive(Clone, Copy, Debug, PartialEq, Eq, Structural)]
pub enum InputKind {
    Rlib,
    Bitcode,
}

/// One input to ingest.
#[derive(Clone, Debug)]
pub struct Input {
    pub kind: InputKind,
    pub path: String,
    pub keep_symbols: bool,
}

impl View for Input {
    type V = (InputKind, Seq<char>, bool);

    open spec fn view(&self) -> (InputKind, Seq<char>, bool) {
        (self.kind, self.path@, self.keep_symbols)
    }
}

/// The inputs of `paths`, all of kind `kind`, each keeping its symbols or not.
pub open spec fn inputs_of(kind: InputKind, paths: Seq<Seq<char>>, keep: bool) -> Seq<(InputKind, Seq<char>, bool)> {
    paths.map_values(|p: Seq<char>| (kind, p, keep))
}

fn push_inputs(out: &mut Vec<Input>, kind: InputKind, paths: &Vec<String>, keep: bool)
    ensures
        final(out)@.map_values(|i: Input| i@) == old(out)@.map_values(|i: Input| i@)
            + inputs_of(kind, texts(paths@), keep),
{
    let ghost start = out@.map_values(|i: Input| i@);
    let mut k: usize = 0;
    assert(out@.map_values(|i: Input| i@) =~= start + inputs_of(kind, texts(paths@).take(0), keep));
    while k < paths.len()
        invariant
            k <= paths@.len(),
            out@.map_values(|i: Input| i@) == start + inputs_of(kind, texts(paths@).take(k as int), keep),
        decreases paths@.len() - k,
    {
        let ghost before = out@.map_values(|i: Input| i@);
        out.push(Input { kind, path: paths[k].clone(), keep_symbols: keep });
        assert(texts(paths@).take(k + 1) =~= texts(paths@).take(k as int).push(paths@[k as int]@));
        assert(inputs_of(kind, texts(paths@).take(k + 1), keep) =~= inputs_of(
            kind,
            texts(paths@).take(k as int),
            keep,
        ).push((kind, paths@[k as int]@, keep)));
        assert(out@.map_values(|i: Input| i@) =~= before.push((kind, paths@[k as int]@, keep)));
        k = k + 1;
    }
    assert(texts(paths@).take(k as int) =~= texts(paths@));
}

impl Args {
    /// The inputs in the order they are ingested: the rlibs whose symbols are
    /// all kept, then the other rlibs, then the bitcode modules (whose
    /// symbols are kept).
    pub fn inputs(&self) -> (r: Vec<Input>)
        ensures
            r@.map_values(|i: Input| i@) == inputs_of(InputKind::Rlib, texts(self.whole_rlib@), true)
                + inputs_of(InputKind::Rlib, texts(self.rlib@), false)
                + inputs_of(InputKind::Bitcode, texts(self.bitcode@), true),
    {
        let mut r: Vec<Input> = Vec::new();
        assert(r@.map_values(|i: Input| i@) =~= Seq::<(InputKind, Seq<char>, bool)>::empty());
        push_inputs(&mut r, InputKind::Rlib, &self.whole_rlib, true);
        push_inputs(&mut r, InputKind::Rlib, &self.rlib, false);
        push_inputs(&mut r, InputKind::Bitcode, &self.bitcode, true);
        assert(Seq::<(InputKind, Seq<char>, bool)>::empty() + inputs_of(InputKind::Rlib, texts(self.whole_rlib@), true)
            =~= inputs_of(InputKind::Rlib, texts(self.whole_rlib@), true));
        r
    }

    /// The options the pipeline is asked for: internalization and forced
    /// inlining on, debug information as requested.
    pub fn requested_options(&self) -> (r: LtoOptions)
        ensures
            r == (LtoOptions {
                optimization: self.optimization,
                internalize: true,
                debug: self.debug,
                inline: true,
            }),
    {
        LtoOptions { optimization: self.optimization, internalize: true, debug: self.debug, inline: true }
    }
}

} // verus!
