//! GPU preference options and their parsing from process arguments.
//!
//! The shell reads the raw process arguments (everything after the program
//! name) and hands them here as plain strings; the selection of the two
//! flags is verified.

use vstd::prelude::*;

verus! {

/// The two independent GPU preference flags, immutable after startup.
#[derive(Clone, Copy, Debug, PartialEq, Eq, Structural)]
pub struct GpuOptions {
    /// Force a software/fallback adapter.
    pub fallback: bool,
    /// Prefer a low-power adapter over a high-performance one.
    pub low_power: bool,
}

/// True when some argument equals the given flag word.
pub open spec fn has_flag(args: Seq<String>, flag: Seq<char>) -> bool {
    exists|i: int| 0 <= i < args.len() && #[trigger] args[i]@ == flag
}

/// Parse the GPU preference flags from the process arguments (after the
/// program name). Unrecognized arguments are ignored; the flags take no
/// values and have no short forms.
pub fn parse_gpu_options(args: &Vec<String>) -> (opts: GpuOptions)
    ensures
        opts.fallback == has_flag(args@, "--fallback-gpu"@),
        opts.low_power == has_flag(args@, "--low-power"@),
{
    let mut fallback = false;
    let mut low_power = false;
    let fallback_flag: String = "--fallback-gpu".to_owned();
    let low_power_flag: String = "--low-power".to_owned();
    let mut k: usize = 0;
    while k < args.len()
        invariant
            k <= args.len(),
            fallback_flag@ == "--fallback-gpu"@,
            low_power_flag@ == "--low-power"@,
            fallback == has_flag(args@.take(k as int), "--fallback-gpu"@),
            low_power == has_flag(args@.take(k as int), "--low-power"@),
        decreases args.len() - k,
    {
        if args[k].eq(&fallback_flag) {
            fallback = true;
        }
        if args[k].eq(&low_power_flag) {
            low_power = true;
        }
        k = k + 1;
        proof {
            assert(args@.take(k as int).drop_last() =~= args@.take(k as int - 1));
            assert(args@.take(k as int).last() == args@[k as int - 1]);
        }
    }
    proof {
        assert(args@.take(args@.len() as int) =~= args@);
    }
    GpuOptions { fallback, low_power }
}

} // verus!
