use vstd::prelude::*;

use crate::language::Language;
use crate::outcome::{build_error_text, compile_error_text, lossy_text, timed_out_text, FailureKind, OutcomeView, ResultView};
use crate::pipeline::{
    finished, initial, input_error_text, path_in, source_name, sql_cmd, transition, ActionView, EventView, ExecView, Phase,
};
use crate::sql::{entry_lines, joined};
use crate::text::blank;

verus! {

/// `p` lies inside the workspace directory `root`.
pub open spec fn inside(p: Seq<char>, root: Seq<char>) -> bool {
    (root + "/"@).is_prefix_of(p)
}

/// An empty or whitespace-only source is refused with an input error at once, in
/// every language: no workspace is asked for and nothing runs.
pub proof fn blank_source_is_refused(l: Language, source: Seq<char>)
    requires
        blank(source),
    ensures
        transition(initial(l, source), EventView::Start) == finished(
            initial(l, source),
            ResultView::Failure(FailureKind::Input, input_error_text()),
        ),
{
}

/// A finished execution never acts again: whatever it is told, it only reports and
/// stays finished.
pub proof fn finished_stays_finished(s: ExecView, e: EventView)
    requires
        s.phase == Phase::Done,
    ensures
        transition(s, e).1 is Finish,
        transition(s, e).0.phase == Phase::Done,
{
}

/// A compile step that fails ends the execution with a compile error carrying the
/// compiler's diagnostics; the program is never started.
pub proof fn failed_compile_does_not_run(s: ExecView, o: OutcomeView)
    requires
        s.phase == Phase::Compiling,
        !o.success,
        !o.timed_out,
    ensures
        transition(s, EventView::Exited(o)) == finished(
            s,
            ResultView::Failure(FailureKind::Compile, compile_error_text(o.stderr)),
        ),
        compile_error_text(o.stderr) == "Compilation Error:\n"@ + lossy_text(o.stderr),
{
}

/// A program that exits cleanly with nothing on its error stream reports exactly its
/// standard output, in every language that runs a program.
pub proof fn clean_run_reports_output(s: ExecView, o: OutcomeView)
    requires
        s.phase == Phase::Running,
        o.success,
        !o.timed_out,
        o.stderr.len() == 0,
    ensures
        transition(s, EventView::Exited(o)) == finished(s, ResultView::Output(lossy_text(o.stdout))),
{
}

/// A program that writes to its error stream reports an error holding that text, in
/// every language that runs a program: the text itself as a runtime error, or, for
/// the build-tool language, the text after the build-or-run failure heading.
pub proof fn error_stream_is_reported(s: ExecView, o: OutcomeView)
    requires
        s.phase == Phase::Running,
        !o.timed_out,
        o.stderr.len() > 0,
    ensures
        s.language != Language::Rust ==> transition(s, EventView::Exited(o)) == finished(
            s,
            ResultView::Failure(FailureKind::Runtime, lossy_text(o.stderr)),
        ),
        s.language == Language::Rust ==> transition(s, EventView::Exited(o)) == finished(
            s,
            ResultView::Failure(
                if o.success {
                    FailureKind::Runtime
                } else {
                    FailureKind::Compile
                },
                build_error_text(o.stderr),
            ),
        ),
        build_error_text(o.stderr) == "Compilation/Runtime Error:\n"@ + lossy_text(o.stderr),
{
}

/// A process killed at its time limit ends the execution with a timeout, whichever
/// process it was.
pub proof fn timeout_is_reported(s: ExecView, o: OutcomeView)
    requires
        s.phase == Phase::Compiling || s.phase == Phase::Running || s.phase == Phase::Querying,
        o.timed_out,
    ensures
        transition(s, EventView::Exited(o)) == finished(
            s,
            ResultView::Failure(FailureKind::TimedOut, timed_out_text()),
        ),
{
}

/// A statement that writes to its error stream ends the script: its error note closes
/// the log, the log is the output, and no further statement runs.
pub proof fn failed_statement_stops_script(s: ExecView, o: OutcomeView)
    requires
        s.phase == Phase::Querying,
        0 <= s.next < s.statements.len(),
        !o.timed_out,
        o.stderr.len() > 0,
    ensures
        ({
            let log = s.log.push("SQL Error: "@ + lossy_text(o.stderr));
            transition(s, EventView::Exited(o)) == finished(
                ExecView { log, ..s },
                ResultView::Output(joined(log)),
            )
        }),
{
    assert(s.log + seq!["SQL Error: "@ + lossy_text(o.stderr)] =~= s.log.push(
        "SQL Error: "@ + lossy_text(o.stderr),
    ));
}

/// The execution after answering each outcome of `os` in turn, with the actions it
/// answered them with.
pub open spec fn run_outcomes(s: ExecView, os: Seq<OutcomeView>) -> (ExecView, Seq<ActionView>)
    decreases os.len(),
{
    if os.len() == 0 {
        (s, seq![])
    } else {
        let (t, a) = transition(s, EventView::Exited(os[0]));
        let (u, rest) = run_outcomes(t, os.drop_first());
        (u, seq![a] + rest)
    }
}

/// The log lines of the statements of `sts` from index `from` on, one for each
/// outcome of `os`.
pub open spec fn sections(sts: Seq<Seq<char>>, from: int, os: Seq<OutcomeView>) -> Seq<
    Seq<char>,
>
    decreases os.len(),
{
    if os.len() == 0 {
        seq![]
    } else {
        entry_lines(sts[from], os[0]) + sections(sts, from + 1, os.drop_first())
    }
}

/// A script runs its statements one after another, in order and against the one
/// database of its workspace, until the first that writes to its error stream. No
/// statement after that one runs, nothing is undone, and the output is the log of
/// every statement that ran, the failing one's error note last.
pub proof fn script_stops_at_first_failure(s: ExecView, os: Seq<OutcomeView>)
    requires
        s.phase == Phase::Querying,
        0 <= s.next,
        os.len() > 0,
        s.next + os.len() <= s.statements.len(),
        forall|j: int| 0 <= j < os.len() ==> !(#[trigger] os[j]).timed_out,
        forall|j: int| 0 <= j < os.len() - 1 ==> (#[trigger] os[j]).stderr.len() == 0,
        os.last().stderr.len() > 0,
    ensures
        ({
            let (u, acts) = run_outcomes(s, os);
            let log = s.log + sections(s.statements, s.next, os);
            &&& acts.len() == os.len()
            &&& forall|j: int|
                0 <= j < os.len() - 1 ==> #[trigger] acts[j] == ActionView::Spawn(
                    sql_cmd(s.root, s.statements[s.next + j + 1]),
                )
            &&& acts.last() == ActionView::Finish(ResultView::Output(joined(log)))
            &&& u.phase == Phase::Done
            &&& u.log == log
        }),
    decreases os.len(),
{
    let (t, a) = transition(s, EventView::Exited(os[0]));
    let rest = os.drop_first();
    assert(sections(s.statements, s.next, os) == entry_lines(s.statements[s.next], os[0])
        + sections(s.statements, s.next + 1, rest));
    if os.len() == 1 {
        assert(rest.len() == 0);
        assert(sections(s.statements, s.next + 1, rest) == Seq::<Seq<char>>::empty());
        assert(entry_lines(s.statements[s.next], os[0]) + Seq::<Seq<char>>::empty()
            =~= entry_lines(s.statements[s.next], os[0]));
        assert(run_outcomes(t, rest) == (t, Seq::<ActionView>::empty()));
        assert(run_outcomes(s, os).1 =~= seq![a]);
    } else {
        assert(os[0].stderr.len() == 0);
        assert(t.next == s.next + 1);
        assert forall|j: int| 0 <= j < rest.len() implies !(#[trigger] rest[j]).timed_out by {
            assert(rest[j] == os[j + 1]);
        }
        assert forall|j: int| 0 <= j < rest.len() - 1 implies (#[trigger] rest[j]).stderr.len()
            == 0 by {
            assert(rest[j] == os[j + 1]);
        }
        script_stops_at_first_failure(t, rest);
        let (u, acts_rest) = run_outcomes(t, rest);
        assert(t.log + sections(s.statements, s.next + 1, rest) =~= s.log + sections(
            s.statements,
            s.next,
            os,
        ));
        let acts = run_outcomes(s, os).1;
        assert(acts == seq![a] + acts_rest);
        assert forall|j: int| 0 <= j < os.len() - 1 implies #[trigger] acts[j]
            == ActionView::Spawn(sql_cmd(s.root, s.statements[s.next + j + 1])) by {
            if j > 0 {
                assert(acts[j] == acts_rest[j - 1]);
            }
        }
    }
}

/// Cancelling an execution, at any point, ends it at once with a system failure, so
/// that its driver releases the workspace.
pub proof fn cancellation_finishes(s: ExecView, m: Seq<char>)
    ensures
        transition(s, EventView::Failed(m)) == finished(
            s,
            ResultView::Failure(FailureKind::System, m),
        ),
{
}

/// An execution keeps to its workspace: the workspace is fixed once acquired, every
/// file it writes lies inside it, and every process it starts runs in it, or in a
/// directory inside it, under a time limit.
pub proof fn execution_keeps_to_workspace(s: ExecView, e: EventView)
    ensures
        ({
            let (t, a) = transition(s, e);
            &&& s.phase != Phase::Acquiring ==> t.root == s.root
            &&& (a matches ActionView::Write { path, .. } ==> inside(path, t.root))
            &&& (a matches ActionView::Spawn(c) ==> (c.dir == t.root || inside(c.dir, t.root))
                && c.limit_secs > 0)
        }),
{
    match e {
        EventView::Acquired(root) => {
            lemma_path_inside(root, "rust_project/Cargo.toml"@);
            lemma_path_inside(root, source_name(s.language, s.class));
        },
        _ => {
            lemma_path_inside(s.root, source_name(s.language, s.class));
            lemma_path_inside(s.root, "rust_project"@);
        },
    }
}

/// Two executions whose workspaces are distinct directories, neither inside the
/// other, never write the same file, whatever names their sources use.
pub proof fn executions_do_not_share_files(s1: ExecView, e1: EventView, s2: ExecView, e2: EventView)
    requires
        !(transition(s1, e1).0.root + "/"@).is_prefix_of(transition(s2, e2).0.root + "/"@),
        !(transition(s2, e2).0.root + "/"@).is_prefix_of(transition(s1, e1).0.root + "/"@),
    ensures
        (transition(s1, e1).1, transition(s2, e2).1) matches (
            ActionView::Write { path: p1, .. },
            ActionView::Write { path: p2, .. },
        ) ==> p1 != p2,
{
    let (t1, a1) = transition(s1, e1);
    let (t2, a2) = transition(s2, e2);
    execution_keeps_to_workspace(s1, e1);
    execution_keeps_to_workspace(s2, e2);
    if let (ActionView::Write { path: p1, .. }, ActionView::Write { path: p2, .. }) = (a1, a2) {
        if p1 == p2 {
            lemma_prefixes_nest(t1.root + "/"@, t2.root + "/"@, p1);
        }
    }
}

proof fn lemma_prefixes_nest(a: Seq<char>, b: Seq<char>, p: Seq<char>)
    requires
        a.is_prefix_of(p),
        b.is_prefix_of(p),
    ensures
        a.is_prefix_of(b) || b.is_prefix_of(a),
{
    if a.len() <= b.len() {
        assert(a =~= b.subrange(0, a.len() as int));
    } else {
        assert(b =~= a.subrange(0, b.len() as int));
    }
}

proof fn lemma_path_inside(root: Seq<char>, rel: Seq<char>)
    ensures
        inside(path_in(root, rel), root),
{
    let p = path_in(root, rel);
    assert((root + "/"@) =~= p.subrange(0, (root + "/"@).len() as int));
}

} // verus!
