use crate::registry::ProcessRegistry;
use vstd::prelude::*;

verus! {

/// What one forceful kill request reported.
pub struct KillOutcome {
    pub pid: u32,
    pub succeeded: bool,
    /// How the kill command ended (or why it could not run).
    pub detail: String,
}

pub open spec fn digit_char(d: nat) -> char {
    if d == 0 { '0' }
    else if d == 1 { '1' }
    else if d == 2 { '2' }
    else if d == 3 { '3' }
    else if d == 4 { '4' }
    else if d == 5 { '5' }
    else if d == 6 { '6' }
    else if d == 7 { '7' }
    else if d == 8 { '8' }
    else { '9' }
}

/// The decimal digits of `n`, most significant first, without leading zeros.
pub open spec fn decimal(n: nat) -> Seq<char>
    decreases n,
{
    if n < 10 {
        seq![digit_char(n)]
    } else {
        decimal(n / 10).push(digit_char(n % 10))
    }
}

fn digit_str(d: u32) -> (r: &'static str)
    requires
        d < 10,
    ensures
        r@ == seq![digit_char(d as nat)],
{
    proof {
        reveal_strlit("0");
        reveal_strlit("1");
        reveal_strlit("2");
        reveal_strlit("3");
        reveal_strlit("4");
        reveal_strlit("5");
        reveal_strlit("6");
        reveal_strlit("7");
        reveal_strlit("8");
        reveal_strlit("9");
    }
    if d == 0 { "0" }
    else if d == 1 { "1" }
    else if d == 2 { "2" }
    else if d == 3 { "3" }
    else if d == 4 { "4" }
    else if d == 5 { "5" }
    else if d == 6 { "6" }
    else if d == 7 { "7" }
    else if d == 8 { "8" }
    else { "9" }
}

/// Appends the decimal form of `n` to `out`.
pub fn push_decimal(out: &mut String, n: u32)
    ensures
        final(out)@ == old(out)@ + decimal(n as nat),
    decreases n,
{
    if n < 10 {
        out.append(digit_str(n));
    } else {
        push_decimal(out, n / 10);
        out.append(digit_str(n % 10));
        assert(out@ =~= old(out)@ + decimal(n as nat));
    }
}

/// The report line for one failed kill.
pub open spec fn failure_line(pid: u32, detail: Seq<char>) -> Seq<char> {
    "Failed to terminate process with PID "@ + decimal(pid as nat) + ": "@ + detail + "\n"@
}

/// The report for a sequence of kill outcomes: one line per failure, in order.
pub open spec fn failure_report(outcomes: Seq<KillOutcome>) -> Seq<char>
    decreases outcomes.len(),
{
    if outcomes.len() == 0 {
        Seq::empty()
    } else {
        let last = outcomes.last();
        let before = failure_report(outcomes.drop_last());
        if last.succeeded {
            before
        } else {
            before + failure_line(last.pid, last.detail@)
        }
    }
}

pub open spec fn all_succeeded(outcomes: Seq<KillOutcome>) -> bool {
    forall|i: int| 0 <= i < outcomes.len() ==> (#[trigger] outcomes[i]).succeeded
}

proof fn lemma_report_empty_iff_all_succeeded(outcomes: Seq<KillOutcome>)
    ensures
        failure_report(outcomes).len() == 0 <==> all_succeeded(outcomes),
    decreases outcomes.len(),
{
    reveal_strlit("\n");
    if outcomes.len() > 0 {
        let init = outcomes.drop_last();
        lemma_report_empty_iff_all_succeeded(init);
        if all_succeeded(init) && outcomes.last().succeeded {
            assert forall|i: int| 0 <= i < outcomes.len() implies (#[trigger] outcomes[i]).succeeded by {
                if i < init.len() {
                    assert(outcomes[i] == init[i]);
                }
            }
        }
        if all_succeeded(outcomes) {
            assert forall|i: int| 0 <= i < init.len() implies (#[trigger] init[i]).succeeded by {
                assert(outcomes[i] == init[i]);
            }
            assert(outcomes[outcomes.len() - 1].succeeded);
        }
    }
}

/// First half of a termination sweep: adds `requested` to the registry (it
/// may already be there, or never have been tracked) and returns every
/// identifier the registry then holds, each once. The caller issues a
/// forceful kill for each of them.
pub fn begin_termination(registry: &mut ProcessRegistry, requested: u32) -> (targets: Vec<u32>)
    ensures
        final(registry)@ == old(registry)@.insert(requested),
        targets@.to_set() == old(registry)@.insert(requested),
        targets@.no_duplicates(),
        targets@.contains(requested),
        forall|p: u32| old(registry)@.contains(p) ==> targets@.contains(p),
{
    registry.insert(requested);
    let targets = registry.snapshot();
    assert(targets@.to_set().contains(requested));
    assert forall|p: u32| old(registry)@.contains(p) implies targets@.contains(p) by {
        assert(targets@.to_set().contains(p));
    }
    targets
}

/// Second half of a termination sweep: clears the registry whatever the
/// kills reported, and succeeds only if every kill succeeded. Otherwise the
/// error holds one line per failed kill, in the order given.
pub fn finish_termination(registry: &mut ProcessRegistry, outcomes: &Vec<KillOutcome>) -> (r: Result<(), String>)
    ensures
        final(registry)@ == Set::<u32>::empty(),
        r is Ok <==> all_succeeded(outcomes@),
        r matches Err(msg) ==> msg@ == failure_report(outcomes@),
{
    let mut report = String::new();
    let mut i: usize = 0;
    while i < outcomes.len()
        invariant
            i <= outcomes.len(),
            report@ == failure_report(outcomes@.take(i as int)),
        decreases outcomes.len() - i,
    {
        let o = &outcomes[i];
        assert(outcomes@.take(i + 1).drop_last() =~= outcomes@.take(i as int));
        if !o.succeeded {
            report.append("Failed to terminate process with PID ");
            push_decimal(&mut report, o.pid);
            report.append(": ");
            report.append(o.detail.as_str());
            report.append("\n");
            assert(report@ =~= failure_report(outcomes@.take(i as int)) + failure_line(o.pid, o.detail@));
        }
        i = i + 1;
    }
    assert(outcomes@.take(i as int) =~= outcomes@);
    registry.clear();
    proof {
        lemma_report_empty_iff_all_succeeded(outcomes@);
    }
    if report.as_str().is_empty() {
        Ok(())
    } else {
        Err(report)
    }
}

} // verus!
