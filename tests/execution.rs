use compilar::limiter::Limiter;
use compilar::outcome::{classify_build_run, classify_compile, classify_run, ExecutionResult, FailureKind, ProcessOutcome};
use compilar::pipeline::{dispatch, run_text, Action, Command, Event, Execution, Phase, BUILD_LIMIT_SECS, RUN_LIMIT_SECS};
use compilar::language::Language;

fn outcome(success: bool, stdout: &str, stderr: &str) -> ProcessOutcome {
    ProcessOutcome {
        success,
        timed_out: false,
        stdout: stdout.as_bytes().to_vec(),
        stderr: stderr.as_bytes().to_vec(),
    }
}

fn killed() -> ProcessOutcome {
    ProcessOutcome { success: false, timed_out: true, stdout: vec![], stderr: vec![] }
}

fn expect_write(a: Action) -> (String, String) {
    match a {
        Action::Write { path, contents } => (path, contents),
        other => panic!("expected a write, got {:?}", other),
    }
}

fn expect_spawn(a: Action) -> Command {
    match a {
        Action::Spawn(c) => c,
        other => panic!("expected a spawn, got {:?}", other),
    }
}

fn expect_finish(a: Action) -> ExecutionResult {
    match a {
        Action::Finish(r) => r,
        other => panic!("expected a finish, got {:?}", other),
    }
}

fn output_of(r: ExecutionResult) -> String {
    match r {
        ExecutionResult::Output(s) => s,
        other => panic!("expected output, got {:?}", other),
    }
}

fn failure_of(r: ExecutionResult) -> (FailureKind, String) {
    match r {
        ExecutionResult::Failure(k, m) => (k, m),
        other => panic!("expected a failure, got {:?}", other),
    }
}

/// Starts an execution and brings it to the point where its source is written.
fn to_source_written(tag: &str, src: &str, root: &str) -> Execution {
    let mut ex = dispatch(tag, src);
    assert!(matches!(ex.step(Event::Start), Action::Acquire));
    let (path, contents) = expect_write(ex.step(Event::Acquired(root.to_string())));
    if tag == "rust" {
        assert_eq!(path, format!("{}/rust_project/Cargo.toml", root));
        assert_eq!(
            contents,
            "[package]\nname = \"rust_project\"\nversion = \"0.1.0\"\nedition = \"2021\"\n\n[[bin]]\nname = \"main\"\npath = \"src/main.rs\"\n"
        );
        let (path, contents) = expect_write(ex.step(Event::Written));
        assert_eq!(path, format!("{}/rust_project/src/main.rs", root));
        assert_eq!(contents, src);
    } else {
        assert_eq!(contents, src);
    }
    ex
}

#[test]
fn blank_source_is_refused_in_every_language() {
    for tag in ["python", "c", "cpp", "java", "kotlin", "javascript", "rust", "sql", "text", "other"] {
        for src in ["", "   ", "\n\t \r\n"] {
            let mut ex = dispatch(tag, src);
            let r = expect_finish(ex.step(Event::Start));
            assert!(!r.is_timed());
            let (k, m) = failure_of(r);
            assert_eq!(k, FailureKind::Input);
            assert_eq!(m, "No code provided");
            assert_eq!(ex.phase(), Phase::Done);
        }
    }
}

#[test]
fn text_is_returned_verbatim_without_workspace() {
    let mut ex = dispatch("text", "  some notes\nline two ");
    let r = expect_finish(ex.step(Event::Start));
    assert!(r.is_timed());
    assert_eq!(output_of(r), "  some notes\nline two ");
}

#[test]
fn python_prints_its_output() {
    let mut ex = to_source_written("python", "print('hi')", "/tmp/w1");
    let c = expect_spawn(ex.step(Event::Written));
    assert_eq!(c.program, "python3");
    assert_eq!(c.args, vec!["main.py"]);
    assert_eq!(c.dir, "/tmp/w1");
    assert_eq!(c.limit_secs, RUN_LIMIT_SECS);
    let r = expect_finish(ex.step(Event::Exited(outcome(true, "hi\n", ""))));
    assert_eq!(output_of(r), "hi\n");
}

#[test]
fn python_source_file_is_in_workspace() {
    let mut ex = dispatch("python", "print(1)");
    ex.step(Event::Start);
    let (path, _) = expect_write(ex.step(Event::Acquired("/tmp/abc".to_string())));
    assert_eq!(path, "/tmp/abc/main.py");
}

#[test]
fn javascript_stderr_is_an_error() {
    let mut ex = to_source_written("javascript", "console.error('bad')", "/w");
    let c = expect_spawn(ex.step(Event::Written));
    assert_eq!(c.program, "node");
    assert_eq!(c.args, vec!["main.js"]);
    let r = expect_finish(ex.step(Event::Exited(outcome(true, "partial", "bad\n"))));
    let (k, m) = failure_of(r);
    assert_eq!(k, FailureKind::Runtime);
    assert_eq!(m, "bad\n");
}

#[test]
fn c_compiles_then_runs() {
    let mut ex = to_source_written("c", "int main(){return 0;}", "/w");
    let c = expect_spawn(ex.step(Event::Written));
    assert_eq!(c.program, "gcc");
    assert_eq!(c.args, vec!["main.c", "-o", "main"]);
    assert_eq!(c.limit_secs, BUILD_LIMIT_SECS);
    let run = expect_spawn(ex.step(Event::Exited(outcome(true, "", ""))));
    assert_eq!(run.program, "/w/main");
    assert!(run.args.is_empty());
    let r = expect_finish(ex.step(Event::Exited(outcome(true, "Hello", ""))));
    assert_eq!(output_of(r), "Hello");
}

#[test]
fn cpp_compile_error_stops_before_running() {
    let mut ex = to_source_written("cpp", "int main( {", "/w");
    let c = expect_spawn(ex.step(Event::Written));
    assert_eq!(c.program, "g++");
    assert_eq!(c.args, vec!["main.cpp", "-o", "main"]);
    let r = expect_finish(ex.step(Event::Exited(outcome(false, "", "main.cpp:1: error: expected"))));
    let (k, m) = failure_of(r);
    assert_eq!(k, FailureKind::Compile);
    assert_eq!(m, "Compilation Error:\nmain.cpp:1: error: expected");
    assert_eq!(ex.phase(), Phase::Done);
    // A sentinel: nothing more runs, whatever the driver says next.
    assert!(matches!(ex.step(Event::Exited(outcome(true, "RAN", ""))), Action::Finish(_)));
}

#[test]
fn java_uses_declared_class() {
    let src = "public class Hello {\n public static void main(String[] a){ System.out.println(\"x\"); }\n}";
    let mut ex = dispatch("java", src);
    ex.step(Event::Start);
    let (path, _) = expect_write(ex.step(Event::Acquired("/w".to_string())));
    assert_eq!(path, "/w/Hello.java");
    let c = expect_spawn(ex.step(Event::Written));
    assert_eq!(c.program, "javac");
    assert_eq!(c.args, vec!["Hello.java"]);
    let run = expect_spawn(ex.step(Event::Exited(outcome(true, "", ""))));
    assert_eq!(run.program, "java");
    assert_eq!(run.args, vec!["-cp", ".", "Hello"]);
    let r = expect_finish(ex.step(Event::Exited(outcome(true, "x\n", ""))));
    assert_eq!(output_of(r), "x\n");
}

#[test]
fn kotlin_builds_a_jar() {
    let mut ex = to_source_written("kotlin", "fun main() { println(1) }", "/w");
    let c = expect_spawn(ex.step(Event::Written));
    assert_eq!(c.program, "kotlinc");
    assert_eq!(c.args, vec!["main.kt", "-include-runtime", "-d", "main.jar"]);
    let run = expect_spawn(ex.step(Event::Exited(outcome(true, "", "warning: unused"))));
    assert_eq!(run.program, "java");
    assert_eq!(run.args, vec!["-jar", "main.jar"]);
}

#[test]
fn rust_reports_build_or_run_failures() {
    let mut ex = to_source_written("rust", "fn main() {}", "/w");
    let c = expect_spawn(ex.step(Event::Written));
    assert_eq!(c.program, "cargo");
    assert_eq!(c.dir, "/w/rust_project");
    assert_eq!(c.args, vec!["run", "--quiet"]);
    let r = expect_finish(ex.step(Event::Exited(outcome(true, "out", ""))));
    assert_eq!(output_of(r), "out");

    let mut ex = to_source_written("rust", "fn main() { eprintln!(\"oops\"); }", "/w");
    ex.step(Event::Written);
    let r = expect_finish(ex.step(Event::Exited(outcome(true, "", "oops\n"))));
    let (k, m) = failure_of(r);
    assert_eq!(k, FailureKind::Runtime);
    assert_eq!(m, "Compilation/Runtime Error:\noops\n");

    let mut ex = to_source_written("rust", "fn main() {", "/w");
    ex.step(Event::Written);
    let r = expect_finish(ex.step(Event::Exited(outcome(false, "", "error[E0000]"))));
    let (k, m) = failure_of(r);
    assert_eq!(k, FailureKind::Compile);
    assert_eq!(m, "Compilation/Runtime Error:\nerror[E0000]");
}

#[test]
fn timeout_is_reported_for_a_run() {
    let mut ex = to_source_written("python", "while True: pass", "/w");
    ex.step(Event::Written);
    let (k, _) = failure_of(expect_finish(ex.step(Event::Exited(killed()))));
    assert_eq!(k, FailureKind::TimedOut);
}

#[test]
fn cancellation_finishes_with_system_error() {
    let mut ex = to_source_written("c", "int main(){}", "/w");
    ex.step(Event::Written);
    let r = expect_finish(ex.step(Event::Failed("cancelled".to_string())));
    assert!(!r.is_timed());
    let (k, m) = failure_of(r);
    assert_eq!(k, FailureKind::System);
    assert_eq!(m, "cancelled");
    assert_eq!(ex.phase(), Phase::Done);
}

#[test]
fn unexpected_event_is_a_system_error() {
    let mut ex = dispatch("python", "print(1)");
    let (k, _) = failure_of(expect_finish(ex.step(Event::Written)));
    assert_eq!(k, FailureKind::System);
}

#[test]
fn sql_stops_at_first_failing_statement() {
    let mut ex = dispatch("sql", "SELECT 1; BAD SQL; SELECT 2;");
    assert!(matches!(ex.step(Event::Start), Action::Acquire));
    let c = expect_spawn(ex.step(Event::Acquired("/w".to_string())));
    assert_eq!(c.program, "sqlite3");
    assert_eq!(c.args, vec!["script.db", "SELECT 1;"]);
    assert_eq!(c.dir, "/w");
    let c = expect_spawn(ex.step(Event::Exited(outcome(true, "1\n", ""))));
    assert_eq!(c.args, vec!["script.db", "BAD SQL;"]);
    let r = expect_finish(ex.step(Event::Exited(outcome(true, "", "Error: near \"BAD\": syntax error\n"))));
    assert_eq!(
        output_of(r),
        "Query: SELECT 1;\nResults:\n1\n\n\nSQL Error: Error: near \"BAD\": syntax error\n"
    );
    assert_eq!(ex.phase(), Phase::Done);
}

#[test]
fn sql_labels_statements_and_queries() {
    let mut ex = dispatch("sql", "create table t(x);\ninsert into t values(1);\nselect x from t;");
    ex.step(Event::Start);
    ex.step(Event::Acquired("/w".to_string()));
    ex.step(Event::Exited(outcome(true, "", "")));
    ex.step(Event::Exited(outcome(true, "", "")));
    let r = expect_finish(ex.step(Event::Exited(outcome(true, "1\n", ""))));
    assert_eq!(
        output_of(r),
        "Statement: create table t(x);\nStatement executed successfully.\n\n\
         Statement: insert into t values(1);\nStatement executed successfully.\n\n\
         Query: select x from t;\nResults:\n1\n\n"
    );
}

#[test]
fn sql_pragma_output_is_a_statement_section() {
    let mut ex = dispatch("sql", "PRAGMA user_version;");
    ex.step(Event::Start);
    ex.step(Event::Acquired("/w".to_string()));
    let r = expect_finish(ex.step(Event::Exited(outcome(true, "0\n", ""))));
    assert_eq!(output_of(r), "Statement: PRAGMA user_version;\n0\n\n");
}

#[test]
fn sql_with_only_comments_runs_nothing() {
    let mut ex = dispatch("sql", "-- nothing here\n");
    let r = expect_finish(ex.step(Event::Start));
    assert_eq!(output_of(r), "");
}

#[test]
fn distinct_workspaces_give_distinct_paths() {
    let src = "x = open('data.txt', 'w')";
    let mut a = dispatch("python", src);
    let mut b = dispatch("python", src);
    a.step(Event::Start);
    b.step(Event::Start);
    let (pa, _) = expect_write(a.step(Event::Acquired("/tmp/.tmpAAAAAA".to_string())));
    let (pb, _) = expect_write(b.step(Event::Acquired("/tmp/.tmpBBBBBB".to_string())));
    assert_ne!(pa, pb);
    assert!(pa.starts_with("/tmp/.tmpAAAAAA/"));
    assert!(pb.starts_with("/tmp/.tmpBBBBBB/"));
}

#[test]
fn classify_run_decodes_streams() {
    let r = classify_run(&outcome(true, "h\u{e9}llo", ""));
    assert_eq!(output_of(r), "h\u{e9}llo");
    let bad = ProcessOutcome { success: true, timed_out: false, stdout: vec![b'a', 0xff, b'b'], stderr: vec![] };
    assert_eq!(output_of(classify_run(&bad)), "a\u{fffd}b");
    let (k, m) = failure_of(classify_run(&outcome(false, "", "Traceback")));
    assert_eq!(k, FailureKind::Runtime);
    assert_eq!(m, "Traceback");
}

#[test]
fn classify_compile_lets_success_through() {
    assert!(classify_compile(&outcome(true, "", "warning")).is_none());
    let (k, m) = failure_of(classify_compile(&outcome(false, "", "oops")).unwrap());
    assert_eq!(k, FailureKind::Compile);
    assert_eq!(m, "Compilation Error:\noops");
    let (k, _) = failure_of(classify_compile(&killed()).unwrap());
    assert_eq!(k, FailureKind::TimedOut);
}

#[test]
fn classify_build_run_fails_on_exit_status_or_error_stream() {
    assert_eq!(output_of(classify_build_run(&outcome(true, "ok", ""))), "ok");
    let (k, m) = failure_of(classify_build_run(&outcome(true, "ok", "noise")));
    assert_eq!(k, FailureKind::Runtime);
    assert_eq!(m, "Compilation/Runtime Error:\nnoise");
    let (k, m) = failure_of(classify_build_run(&outcome(false, "", "panicked")));
    assert_eq!(k, FailureKind::Compile);
    assert_eq!(m, "Compilation/Runtime Error:\npanicked");
}

#[test]
fn limiter_bounds_concurrent_executions() {
    let mut l = Limiter::new(2);
    assert!(l.try_enter());
    assert!(l.try_enter());
    assert!(!l.try_enter());
    assert_eq!(l.in_flight(), 2);
    l.leave();
    assert!(l.try_enter());
    l.leave();
    l.leave();
    l.leave();
    assert_eq!(l.in_flight(), 0);
}

#[test]
fn zero_limit_admits_nothing() {
    let mut l = Limiter::new(0);
    assert!(!l.try_enter());
}

#[test]
fn new_execution_is_ready() {
    let ex = Execution::new(Language::C, "int main(){}");
    assert_eq!(ex.phase(), Phase::Ready);
}

#[test]
fn text_pipeline_gives_placeholder_for_blank_input() {
    assert_eq!(output_of(run_text("   \n")), "(Empty text document)");
    assert_eq!(output_of(run_text("")), "(Empty text document)");
    assert_eq!(output_of(run_text(" a ")), " a ");
}

#[test]
fn failed_statement_is_last_even_with_more_pending() {
    let mut ex = dispatch("sql", "BAD;\nSELECT 1;\nSELECT 2;");
    ex.step(Event::Start);
    let c = expect_spawn(ex.step(Event::Acquired("/w".to_string())));
    assert_eq!(c.args, vec!["script.db", "BAD;"]);
    let r = expect_finish(ex.step(Event::Exited(outcome(false, "", "Error: syntax\n"))));
    assert_eq!(output_of(r), "SQL Error: Error: syntax\n");
}

#[test]
fn sql_timeout_is_a_timeout() {
    let mut ex = dispatch("sql", "SELECT 1;");
    ex.step(Event::Start);
    ex.step(Event::Acquired("/w".to_string()));
    let (k, m) = failure_of(expect_finish(ex.step(Event::Exited(killed()))));
    assert_eq!(k, FailureKind::TimedOut);
    assert_eq!(m, "Time limit exceeded");
}
