//! Context-budget-driven compaction: a policy object holding three
//! escalating context-fill thresholds, consulted once per channel turn to
//! decide whether — and how aggressively — to shrink conversation history.
//!
//! Thresholds are fractions of the context window expressed in per-mille,
//! so the whole decision is exact integer arithmetic.

use vstd::prelude::*;

use crate::history::history_chars;
use crate::history::Message;

verus! {

/// Three escalating context-fill thresholds, in per-mille of the context
/// window, strictly increasing.
#[derive(Clone, Copy, Debug, PartialEq, Eq, Structural)]
pub struct CompactionConfig {
    pub background_threshold: u32,
    pub aggressive_threshold: u32,
    pub emergency_threshold: u32,
}

impl CompactionConfig {
    /// Thresholds are ordered and meaningful as per-mille values.
    pub open spec fn wf(self) -> bool {
        0 < self.background_threshold < self.aggressive_threshold < self.emergency_threshold
            <= 1000
    }
}

impl Default for CompactionConfig {
    /// Compact in the background at 80% fill, aggressively at 85%, and as an
    /// emergency at 95%.
    fn default() -> (r: Self)
        ensures
            r == (CompactionConfig {
                background_threshold: 800u32,
                aggressive_threshold: 850u32,
                emergency_threshold: 950u32,
            }),
            r.wf(),
    {
        CompactionConfig {
            background_threshold: 800,
            aggressive_threshold: 850,
            emergency_threshold: 950,
        }
    }
}

/// How hard to compact, escalating with context fill.
#[derive(Clone, Copy, Debug, PartialEq, Eq, Structural)]
pub enum CompactionAction {
    NoCompaction,
    Background,
    Aggressive,
    Emergency,
}

/// The estimated token count of a history: one token per four characters.
pub open spec fn spec_estimated_tokens(h: Seq<Message>) -> nat {
    history_chars(h) / 4
}

/// The action for an estimated token count against a context window:
/// the highest threshold that the fill ratio has crossed.
pub open spec fn spec_compaction_action(
    tokens: nat,
    context_window: nat,
    config: CompactionConfig,
) -> CompactionAction {
    if tokens * 1000 >= config.emergency_threshold * context_window {
        CompactionAction::Emergency
    } else if tokens * 1000 >= config.aggressive_threshold * context_window {
        CompactionAction::Aggressive
    } else if tokens * 1000 >= config.background_threshold * context_window {
        CompactionAction::Background
    } else {
        CompactionAction::NoCompaction
    }
}

/// Estimate the token count of a history.
pub fn estimated_tokens(history: &Vec<Message>) -> (t: u128)
    ensures
        t == spec_estimated_tokens(history@),
{
    let n = history.len();
    let mut chars: u128 = 0;
    let mut i: usize = 0;
    proof {
        assert(history@.subrange(0, 0).len() == 0);
    }
    while i < n
        invariant
            0 <= i <= n,
            n == history@.len(),
            chars == history_chars(history@.subrange(0, i as int)),
            chars <= (i as int) * 0xffff_ffff_ffff_ffff,
        decreases n - i,
    {
        let len = history[i].text.as_str().unicode_len();
        proof {
            let upto = history@.subrange(0, i as int + 1);
            assert(upto.drop_last() =~= history@.subrange(0, i as int));
            assert(upto.last() == history@[i as int]);
            assert(chars + len <= (i as int + 1) * 0xffff_ffff_ffff_ffff) by (nonlinear_arith)
                requires
                    chars <= (i as int) * 0xffff_ffff_ffff_ffff,
                    len <= 0xffff_ffff_ffff_ffff,
                    i >= 0,
            ;
            assert(((i as int) + 1) * 0xffff_ffff_ffff_ffff < u128::MAX) by (nonlinear_arith)
                requires
                    0 <= i + 1 <= 0xffff_ffff_ffff_ffff,
            ;
        }
        chars = chars + (len as u128);
        i = i + 1;
    }
    proof {
        assert(history@.subrange(0, n as int) =~= history@);
    }
    chars / 4
}

/// Decide the compaction action for a history against a context window.
///
/// Consulted once per completed turn; the decision itself cannot fail, so a
/// caller's turn never aborts on account of compaction.
pub fn check_compaction(
    history: &Vec<Message>,
    context_window: usize,
    config: &CompactionConfig,
) -> (a: CompactionAction)
    requires
        config.wf(),
    ensures
        a == spec_compaction_action(
            spec_estimated_tokens(history@),
            context_window as nat,
            *config,
        ),
{
    let tokens = estimated_tokens(history);
    let window = context_window as u128;
    if tokens > u128::MAX / 1000 {
        // The scaled fill exceeds any threshold a real window can express.
        proof {
            assert(tokens * 1000 > (u128::MAX / 1000) * 1000) by (nonlinear_arith)
                requires
                    tokens > u128::MAX / 1000,
            ;
            assert(config.emergency_threshold * window <= 1000 * window) by (nonlinear_arith)
                requires
                    config.emergency_threshold <= 1000,
                    window >= 0,
            ;
            assert(1000 * window < (u128::MAX / 1000) * 1000) by (nonlinear_arith)
                requires
                    window <= 0xffff_ffff_ffff_ffff,
            ;
        }
        return CompactionAction::Emergency;
    }
    proof {
        assert(tokens * 1000 <= (u128::MAX / 1000) * 1000) by (nonlinear_arith)
            requires
                tokens <= u128::MAX / 1000,
        ;
        assert(1000 * (window as int) < u128::MAX) by (nonlinear_arith)
            requires
                window <= 0xffff_ffff_ffff_ffff,
        ;
        assert(forall|t: int|
            0 <= t <= 1000 ==> #[trigger] (t * (window as int)) <= 1000 * (window as int))
            by (nonlinear_arith);
    }
    let scaled = tokens * 1000;
    let emergency = (config.emergency_threshold as u128) * window;
    let aggressive = (config.aggressive_threshold as u128) * window;
    let background = (config.background_threshold as u128) * window;
    if scaled >= emergency {
        CompactionAction::Emergency
    } else if scaled >= aggressive {
        CompactionAction::Aggressive
    } else if scaled >= background {
        CompactionAction::Background
    } else {
        CompactionAction::NoCompaction
    }
}

} // verus!
