//! What the runtime does when a multi-block migration fails.
use vstd::prelude::*;
use vstd::string::*;

verus! {

/// How block production proceeds after a migration failed.
#[derive(Clone, Copy, Debug, PartialEq, Eq, Structural)]
pub enum MigrationDirective {
    /// Resume extrinsic processing; the migration stays partly applied.
    ForceUnstuck,
    /// Keep blocking extrinsics.
    KeepStuck,
    /// Leave the cursor to the handler.
    Ignore,
}

/// The category under which a failed migration is logged.
pub const MIGRATION_LOG_TARGET: &'static str = "mbm";

/// What a handler of a failed migration decided: the directive for the
/// upgrade executor, and the one diagnostic to log at error severity.
pub struct MigrationFailureReport {
    pub directive: MigrationDirective,
    pub diagnostic: String,
}

/// The character of a decimal digit.
pub open spec fn digit_char(d: nat) -> char {
    if d == 0 {
        '0'
    } else if d == 1 {
        '1'
    } else if d == 2 {
        '2'
    } else if d == 3 {
        '3'
    } else if d == 4 {
        '4'
    } else if d == 5 {
        '5'
    } else if d == 6 {
        '6'
    } else if d == 7 {
        '7'
    } else if d == 8 {
        '8'
    } else {
        '9'
    }
}

/// `n` in decimal, without leading zeros.
pub open spec fn decimal(n: nat) -> Seq<char>
    decreases n,
{
    if n < 10 {
        seq![digit_char(n)]
    } else {
        decimal(n / 10).push(digit_char(n % 10))
    }
}

/// How the cursor reads in the diagnostic: its value in decimal, or
/// `unknown` where there is none.
pub open spec fn cursor_text(cursor: Option<u32>) -> Seq<char> {
    match cursor {
        Some(c) => decimal(c as nat),
        None => "unknown"@,
    }
}

/// The diagnostic for a migration that failed at `cursor`.
pub open spec fn failure_diagnostic(cursor: Option<u32>) -> Seq<char> {
    "Migration failed at cursor: "@ + cursor_text(cursor)
}

/// The text of the digit `d`.
fn digit_str(d: u32) -> (r: &'static str)
    requires
        d < 10,
    ensures
        r@ == seq![digit_char(d as nat)],
{
    proof {
        reveal_strlit("0");
        reveal_strlit("1");
        reveal_strlit("2");
        reveal_strlit("3");
        reveal_strlit("4");
        reveal_strlit("5");
        reveal_strlit("6");
        reveal_strlit("7");
        reveal_strlit("8");
        reveal_strlit("9");
    }
    let r = if d == 0 {
        "0"
    } else if d == 1 {
        "1"
    } else if d == 2 {
        "2"
    } else if d == 3 {
        "3"
    } else if d == 4 {
        "4"
    } else if d == 5 {
        "5"
    } else if d == 6 {
        "6"
    } else if d == 7 {
        "7"
    } else if d == 8 {
        "8"
    } else {
        "9"
    };
    assert(r@ =~= seq![digit_char(d as nat)]);
    r
}

/// Appends `n` in decimal to `out`.
pub fn push_decimal(out: &mut String, n: u32)
    ensures
        final(out)@ == old(out)@ + decimal(n as nat),
    decreases n,
{
    if n >= 10 {
        push_decimal(out, n / 10);
    }
    out.append(digit_str(n % 10));
    assert(final(out)@ =~= old(out)@ + decimal(n as nat));
}

/// The diagnostic for a migration that failed at `cursor`, or at an unknown
/// step.
pub fn failure_message(cursor: Option<u32>) -> (r: String)
    ensures
        r@ == failure_diagnostic(cursor),
{
    let mut out = String::from_str("Migration failed at cursor: ");
    match cursor {
        Some(c) => push_decimal(&mut out, c),
        None => out.append("unknown"),
    }
    out
}

/// A policy for a multi-block migration that failed: it reports the failure
/// and tells the upgrade executor how to go on. The runtime picks one policy
/// in its configuration.
pub trait FailedMigrationHandler {
    /// Called once by the upgrade executor when the migration failed at step
    /// `migration`, or at an unknown step.
    fn failed(migration: Option<u32>) -> MigrationFailureReport;
}

/// Unfreeze the chain on a failed migration and continue with extrinsic
/// execution. Migrations are tested so that they do not fail; where one does,
/// the chain keeps producing blocks, with the migration partly applied.
pub struct UnfreezeChainOnFailedMigration;

impl FailedMigrationHandler for UnfreezeChainOnFailedMigration {
    /// Always `ForceUnstuck`, with one diagnostic that carries the cursor in
    /// decimal, or `unknown`.
    fn failed(migration: Option<u32>) -> (r: MigrationFailureReport)
        ensures
            r.directive == MigrationDirective::ForceUnstuck,
            r.diagnostic@ == failure_diagnostic(migration),
    {
        MigrationFailureReport {
            directive: MigrationDirective::ForceUnstuck,
            diagnostic: failure_message(migration),
        }
    }
}

} // verus!
