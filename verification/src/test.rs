//! Test harness and exit protocol.
//!
//! A fixed, order-preserving sequence of named zero-argument operations runs
//! once. For each operation the harness announces the name on the text sink,
//! executes it, and appends a success marker when it returns. One exit signal
//! ends the run: `Success` after the last test returns, or `Failed` from the
//! terminal fault handler's path when a test triggers an uncaught fault — in
//! that case the faulting test's announcement is the last sink output and no
//! later test executes.

use vstd::prelude::*;

use crate::qemu::QemuExitCode;
use crate::sink::Sink;

verus! {

/// The `"... "` separator written after a test's name.
pub open spec fn announce_suffix() -> Seq<u8> {
    seq![0x2eu8, 0x2eu8, 0x2eu8, 0x20u8]
}

/// The `"[ok]\n"` marker written after a test returns normally.
pub open spec fn ok_suffix() -> Seq<u8> {
    seq![0x5bu8, 0x6fu8, 0x6bu8, 0x5du8, 0x0au8]
}

/// The full sink line a completing test produces: `"<name>... [ok]\n"`.
pub open spec fn test_line(name: Seq<u8>) -> Seq<u8> {
    name + announce_suffix() + ok_suffix()
}

/// Sink output of a run in which every test completes, in registration
/// order.
pub open spec fn success_output(names: Seq<Seq<u8>>) -> Seq<u8>
    decreases names.len(),
{
    if names.len() == 0 {
        Seq::empty()
    } else {
        test_line(names[0]) + success_output(names.drop_first())
    }
}

/// A named, zero-argument test operation. The registration list is fixed at
/// build time; the harness never discovers or reorders tests at run time.
pub trait Testable {
    /// The operation's descriptive name.
    spec fn spec_name(&self) -> Seq<u8>;

    /// The name, as the bytes the harness announces.
    fn name(&self) -> (r: Vec<u8>)
        ensures
            r@ == self.spec_name(),
    ;

    /// The operation itself. Nothing is promised of it: a body may mutate
    /// shared state or trigger an uncaught fault and never return.
    fn run(&self);
}

/// A compiled-in registered test operation over the character grid: either
/// the plain write check (`"grid_write"`: one short string onto a fresh
/// grid) or the scroll check (`"grid_scroll"`: more line feeds than the
/// grid has rows).
pub struct GridCheck {
    pub scroll: bool,
}

impl Testable for GridCheck {
    open spec fn spec_name(&self) -> Seq<u8> {
        if self.scroll {
            seq![
                0x67u8, 0x72u8, 0x69u8, 0x64u8, 0x5fu8, 0x73u8, 0x63u8, 0x72u8, 0x6fu8, 0x6cu8,
                0x6cu8,
            ]
        } else {
            seq![0x67u8, 0x72u8, 0x69u8, 0x64u8, 0x5fu8, 0x77u8, 0x72u8, 0x69u8, 0x74u8, 0x65u8]
        }
    }

    fn name(&self) -> (r: Vec<u8>) {
        let mut v: Vec<u8> = Vec::new();
        v.push(0x67);
        v.push(0x72);
        v.push(0x69);
        v.push(0x64);
        v.push(0x5f);
        if self.scroll {
            v.push(0x73);
            v.push(0x63);
            v.push(0x72);
            v.push(0x6f);
            v.push(0x6c);
            v.push(0x6c);
        } else {
            v.push(0x77);
            v.push(0x72);
            v.push(0x69);
            v.push(0x74);
            v.push(0x65);
        }
        proof {
            assert(v@ =~= self.spec_name());
        }
        v
    }

    fn run(&self) {
        let mut writer = crate::vga::Writer::new();
        if self.scroll {
            let mut i: usize = 0;
            while i < 26
                invariant
                    writer.wf(),
                    i <= 26,
                decreases 26 - i,
            {
                writer.write_byte(crate::vga::LINE_FEED);
                i = i + 1;
            }
        } else {
            let mut bytes: Vec<u8> = Vec::new();
            bytes.push(0x74);
            bytes.push(0x65);
            bytes.push(0x73);
            bytes.push(0x74);
            writer.write_string(bytes.as_slice());
        }
    }
}

/// What executing one test body did: it returned normally, or it triggered
/// an uncaught fault and never returned.
#[derive(Clone, Copy, PartialEq, Eq, Structural, Debug)]
pub enum TestOutcome {
    Completed,
    Faulted,
}

/// Sink output of a run whose test bodies behave as `outcomes` records:
/// full lines while tests complete, then — at the first fault — the bare
/// announcement of the faulting test, after which nothing more is written.
pub open spec fn run_output(names: Seq<Seq<u8>>, outcomes: Seq<TestOutcome>) -> Seq<u8>
    decreases names.len(),
{
    if names.len() == 0 {
        Seq::empty()
    } else if outcomes[0] is Completed {
        test_line(names[0]) + run_output(names.drop_first(), outcomes.drop_first())
    } else {
        names[0] + announce_suffix()
    }
}

/// The one exit signal such a run emits: `Failed` as soon as any test
/// faults, `Success` when every test completes.
pub open spec fn run_signal(outcomes: Seq<TestOutcome>) -> QemuExitCode
    decreases outcomes.len(),
{
    if outcomes.len() == 0 {
        QemuExitCode::Success
    } else if outcomes[0] is Completed {
        run_signal(outcomes.drop_first())
    } else {
        QemuExitCode::Failed
    }
}

/// The `"... "` separator as bytes.
fn announce_bytes() -> (r: Vec<u8>)
    ensures
        r@ == announce_suffix(),
{
    let mut v: Vec<u8> = Vec::new();
    v.push(0x2e);
    v.push(0x2e);
    v.push(0x2e);
    v.push(0x20);
    proof {
        assert(v@ =~= announce_suffix());
    }
    v
}

/// The `"[ok]\n"` marker as bytes.
fn ok_bytes() -> (r: Vec<u8>)
    ensures
        r@ == ok_suffix(),
{
    let mut v: Vec<u8> = Vec::new();
    v.push(0x5b);
    v.push(0x6f);
    v.push(0x6b);
    v.push(0x5d);
    v.push(0x0a);
    proof {
        assert(v@ =~= ok_suffix());
    }
    v
}

/// Announces a test: its name followed by the `"... "` separator, with no
/// trailing newline.
pub fn announce_test(name: &[u8], sink: &mut Sink)
    ensures
        final(sink)@ == old(sink)@ + name@ + announce_suffix(),
{
    sink.write_bytes(name);
    let dots = announce_bytes();
    sink.write_bytes(dots.as_slice());
}

/// One more completed test extends the success output by that test's line.
pub proof fn lemma_success_snoc(names: Seq<Seq<u8>>, i: int)
    requires
        0 <= i < names.len(),
    ensures
        success_output(names.take(i + 1)) == success_output(names.take(i)) + test_line(names[i]),
    decreases i,
{
    if i == 0 {
        assert(names.take(1)[0] == names[0]);
        assert(names.take(1).drop_first() =~= names.take(0));
        assert(success_output(names.take(0)) == Seq::<u8>::empty());
        assert(success_output(names.take(1)) =~= Seq::<u8>::empty() + test_line(names[0]));
    } else {
        let names1 = names.drop_first();
        lemma_success_snoc(names1, i - 1);
        assert(names.take(i + 1)[0] == names[0]);
        assert(names.take(i)[0] == names[0]);
        assert(names.take(i + 1).drop_first() =~= names1.take(i));
        assert(names.take(i).drop_first() =~= names1.take(i - 1));
        assert(names1[i - 1] == names[i]);
        assert(success_output(names.take(i + 1)) == test_line(names[0]) + success_output(
            names1.take(i),
        ));
        assert(success_output(names.take(i)) == test_line(names[0]) + success_output(
            names1.take(i - 1),
        ));
        assert(test_line(names[0]) + (success_output(names1.take(i - 1)) + test_line(names[i]))
            =~= (test_line(names[0]) + success_output(names1.take(i - 1))) + test_line(names[i]));
    }
}

/// Law: a run in which every test completes writes exactly the success
/// lines, in registration order, and its one exit signal is `Success`.
pub proof fn lemma_run_all_completed(names: Seq<Seq<u8>>, outcomes: Seq<TestOutcome>)
    requires
        names.len() == outcomes.len(),
        forall|j: int| 0 <= j < outcomes.len() ==> outcomes[j] is Completed,
    ensures
        run_output(names, outcomes) == success_output(names),
        run_signal(outcomes) == QemuExitCode::Success,
    decreases names.len(),
{
    if names.len() > 0 {
        assert(outcomes[0] is Completed);
        lemma_run_all_completed(names.drop_first(), outcomes.drop_first());
    }
}

/// Law: if test `k` (0-indexed) is the first to trigger an uncaught fault,
/// the run's output is the success lines of the first `k` tests followed by
/// the bare announcement of test `k` — no success marker and nothing after
/// it — and the one exit signal is `Failed`. Tests after `k` leave no trace:
/// the output does not depend on their outcomes.
pub proof fn lemma_run_fault_at(names: Seq<Seq<u8>>, outcomes: Seq<TestOutcome>, k: int)
    requires
        names.len() == outcomes.len(),
        0 <= k < outcomes.len(),
        outcomes[k] is Faulted,
        forall|j: int| 0 <= j < k ==> outcomes[j] is Completed,
    ensures
        run_output(names, outcomes) == success_output(names.take(k)) + names[k]
            + announce_suffix(),
        run_signal(outcomes) == QemuExitCode::Failed,
    decreases k,
{
    if k == 0 {
        assert(run_output(names, outcomes) == names[0] + announce_suffix());
        assert(success_output(names.take(0)) == Seq::<u8>::empty());
        assert(Seq::<u8>::empty() + names[0] + announce_suffix() =~= names[0]
            + announce_suffix());
    } else {
        let names1 = names.drop_first();
        let outcomes1 = outcomes.drop_first();
        assert(outcomes[0] is Completed);
        lemma_run_fault_at(names1, outcomes1, k - 1);
        assert(names1[k - 1] == names[k]);
        assert(names.take(k)[0] == names[0]);
        assert(names.take(k).drop_first() =~= names1.take(k - 1));
        assert(success_output(names.take(k)) == test_line(names[0]) + success_output(
            names1.take(k - 1),
        ));
        assert(test_line(names[0]) + (success_output(names1.take(k - 1)) + names[k]
            + announce_suffix()) =~= (test_line(names[0]) + success_output(names1.take(k - 1)))
            + names[k] + announce_suffix());
    }
}

/// Runs every registered test in order: each is announced, executed, and on
/// return its success marker is appended; after the last test the run's one
/// exit signal is `Success`. A body that never returns leaves its
/// announcement as the final output — control then rests with the terminal
/// fault handler, and none of the later writes here happen.
#[verifier::loop_isolation(false)]
pub fn test_runner<T: Testable>(test_functions: &[T], sink: &mut Sink) -> (r: QemuExitCode)
    ensures
        final(sink)@ == old(sink)@ + success_output(
            test_functions@.map_values(|t: T| t.spec_name()),
        ),
        r == QemuExitCode::Success,
{
    let ghost names = test_functions@.map_values(|t: T| t.spec_name());
    let mut i: usize = 0;
    while i < test_functions.len()
        invariant
            i <= names.len(),
            sink@ == old(sink)@ + success_output(names.take(i as int)),
        decreases names.len() - i,
    {
        let test = &test_functions[i];
        let name = test.name();
        announce_test(name.as_slice(), sink);
        test.run();
        let okm = ok_bytes();
        sink.write_bytes(okm.as_slice());
        proof {
            lemma_success_snoc(names, i as int);
            assert(old(sink)@ + success_output(names.take(i as int)) + names[i as int]
                + announce_suffix() + ok_suffix() =~= old(sink)@ + (success_output(
                names.take(i as int),
            ) + test_line(names[i as int])));
        }
        i = i + 1;
    }
    proof {
        assert(names.take(names.len() as int) =~= names);
    }
    QemuExitCode::Success
}

/// One full harness run over tests whose bodies behave as `outcomes`
/// records. While tests complete this writes exactly what `test_runner`
/// writes; at the first fault the faulting test's announcement is the last
/// output, later tests never execute, and the returned signal is the
/// terminal handler's `Failed`.
#[verifier::loop_isolation(false)]
pub fn run_outcomes(names: &Vec<Vec<u8>>, outcomes: &Vec<TestOutcome>, sink: &mut Sink) -> (r:
    QemuExitCode)
    requires
        names@.len() == outcomes@.len(),
    ensures
        final(sink)@ == old(sink)@ + run_output(
            names@.map_values(|n: Vec<u8>| n@),
            outcomes@,
        ),
        r == run_signal(outcomes@),
{
    let ghost ns = names@.map_values(|n: Vec<u8>| n@);
    let mut i: usize = 0;
    while i < names.len()
        invariant
            i <= ns.len(),
            sink@ == old(sink)@ + success_output(ns.take(i as int)),
            forall|j: int| 0 <= j < i ==> outcomes@[j] is Completed,
        decreases ns.len() - i,
    {
        let name = &names[i];
        announce_test(name.as_slice(), sink);
        match outcomes[i] {
            TestOutcome::Faulted => {
                proof {
                    lemma_run_fault_at(ns, outcomes@, i as int);
                    assert(old(sink)@ + success_output(ns.take(i as int)) + ns[i as int]
                        + announce_suffix() =~= old(sink)@ + (success_output(ns.take(i as int))
                        + ns[i as int] + announce_suffix()));
                }
                return QemuExitCode::Failed;
            },
            TestOutcome::Completed => {
                let okm = ok_bytes();
                sink.write_bytes(okm.as_slice());
                proof {
                    lemma_success_snoc(ns, i as int);
                    assert(old(sink)@ + success_output(ns.take(i as int)) + ns[i as int]
                        + announce_suffix() + ok_suffix() =~= old(sink)@ + (success_output(
                        ns.take(i as int),
                    ) + test_line(ns[i as int])));
                }
            },
        }
        i = i + 1;
    }
    proof {
        assert(ns.take(ns.len() as int) =~= ns);
        lemma_run_all_completed(ns, outcomes@);
    }
    QemuExitCode::Success
}

} // verus!
