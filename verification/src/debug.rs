//! Control of SuperNOVAS's built-in error-reporting verbosity, and the
//! filter that decides which lines of the C error reporter are kept as
//! error descriptions.

use vstd::prelude::*;

use crate::error::{ProviderErrorSlot, set_provider_error};

verus! {

/// Verbosity level for SuperNOVAS's built-in error reporter.
#[derive(Debug, Clone, Copy, PartialEq, Eq, Structural)]
pub enum DebugMode {
    /// Silent - no error output, no captures (default).
    Off,
    /// Capture error descriptions; trace lines still appear on `stderr`.
    On,
    /// Same as `On` but also captures otherwise-acceptable conditions.
    Extra,
}

/// The value of the C enum `novas_debug_mode` for each mode.
pub open spec fn debug_mode_code(m: DebugMode) -> u32 {
    match m {
        DebugMode::Off => 0,
        DebugMode::On => 1,
        DebugMode::Extra => 2,
    }
}

/// The mode of a `novas_debug_mode` value.
pub open spec fn debug_mode_of_code(c: u32) -> DebugMode {
    if c == 0 {
        DebugMode::Off
    } else if c == 1 {
        DebugMode::On
    } else {
        DebugMode::Extra
    }
}

impl DebugMode {
    /// The `novas_debug_mode` value of this mode.
    pub fn to_sys(self) -> (c: u32)
        ensures
            c == debug_mode_code(self),
    {
        match self {
            DebugMode::Off => 0,
            DebugMode::On => 1,
            DebugMode::Extra => 2,
        }
    }

    /// The mode that a `novas_debug_mode` value stands for.
    pub fn from_sys(c: u32) -> (m: DebugMode)
        requires
            c <= 2,
        ensures
            m == debug_mode_of_code(c),
    {
        if c == 0 {
            DebugMode::Off
        } else if c == 1 {
            DebugMode::On
        } else {
            DebugMode::Extra
        }
    }

    /// Whether setting this mode installs the capturing error handler
    /// (every mode but `Off` does).
    pub fn captures_errors(self) -> (b: bool)
        ensures
            b == (self != DebugMode::Off),
    {
        !matches!(self, DebugMode::Off)
    }
}

/// Reading a mode back from its C value gives the same mode.
pub proof fn law_debug_mode_round_trip(m: DebugMode)
    ensures
        debug_mode_code(m) <= 2,
        debug_mode_of_code(debug_mode_code(m)) == m,
{
}

/// Every C value is the value of the mode read from it.
pub proof fn law_debug_mode_code_round_trip(c: u32)
    requires
        c <= 2,
    ensures
        debug_mode_code(debug_mode_of_code(c)) == c,
{
}

/// `s` begins with `p`.
pub open spec fn has_prefix(s: Seq<char>, p: Seq<char>) -> bool {
    p.len() <= s.len() && s.subrange(0, p.len() as int) =~= p
}

/// A line of the C error reporter that holds an error description: not the
/// error prefix (starting with a newline), not the code suffix (starting
/// with `" [=>"`), and not a trace line (starting with seven spaces and `@`).
pub open spec fn is_error_description(s: Seq<char>) -> bool {
    !has_prefix(s, "\n"@) && !has_prefix(s, " [=>"@) && !has_prefix(s, "       @"@)
}

fn starts_with(s: &str, p: &str) -> (b: bool)
    ensures
        b == has_prefix(s@, p@),
{
    let n: usize = s.unicode_len();
    let m: usize = p.unicode_len();
    if m > n {
        return false;
    }
    let mut i: usize = 0;
    while i < m
        invariant
            m == p@.len(),
            n == s@.len(),
            m <= n,
            i <= m,
            forall|j: int| 0 <= j < i ==> s@[j] == p@[j],
        decreases m - i,
    {
        if s.get_char(i) != p.get_char(i) {
            assert(s@.subrange(0, m as int)[i as int] != p@[i as int]);
            return false;
        }
        i = i + 1;
    }
    assert(s@.subrange(0, m as int) =~= p@);
    true
}

/// Whether a line handed to the C error handler is an error description.
pub fn error_description_line(s: &str) -> (b: bool)
    ensures
        b == is_error_description(s@),
{
    !starts_with(s, "\n") && !starts_with(s, " [=>") && !starts_with(s, "       @")
}

/// Keep `s` as the latest error description when it is one; other lines of
/// the C error reporter leave the slot unchanged.
pub fn capture_error_description(slot: &mut ProviderErrorSlot, s: &str)
    ensures
        final(slot)@ == if is_error_description(s@) {
            Some(s@)
        } else {
            old(slot)@
        },
{
    if error_description_line(s) {
        set_provider_error(slot, s);
    }
}

} // verus!
