use vstd::prelude::*;
use vstd::string::StringExecFns;

use crate::java::{class_name, class_name_of};
use crate::language::{is_compiled, language_of, Language};
use crate::outcome::{
    build_run_result, classify_build_run, classify_compile, classify_run, compile_result,
    run_result, timed_out_result, timed_out_text, ExecutionResult, FailureKind, OutcomeView,
    ProcessOutcome, ResultView,
};
use crate::sql::{entry, entry_lines, join_lines, joined, split_script, statements_of, string_views};
use crate::text::{blank, is_blank};

verus! {

/// Seconds a program, or one statement, may run.
pub const RUN_LIMIT_SECS: u64 = 10;

/// Seconds a compile or build step may run.
pub const BUILD_LIMIT_SECS: u64 = 120;

/// One process to start: the program, its arguments, the directory it runs in and
/// how long it may run before it and its children are killed.
#[derive(Debug)]
pub struct Command {
    pub program: String,
    pub args: Vec<String>,
    pub dir: String,
    pub limit_secs: u64,
}

pub struct CommandView {
    pub program: Seq<char>,
    pub args: Seq<Seq<char>>,
    pub dir: Seq<char>,
    pub limit_secs: u64,
}

impl View for Command {
    type V = CommandView;

    open spec fn view(&self) -> CommandView {
        CommandView {
            program: self.program@,
            args: string_views(self.args@),
            dir: self.dir@,
            limit_secs: self.limit_secs,
        }
    }
}

/// What the execution asks its driver to do next.
#[derive(Debug)]
pub enum Action {
    /// Create a fresh private directory; answer with `Event::Acquired` and its path.
    Acquire,
    /// Write `contents` to the file at `path`, creating missing parent directories;
    /// answer with `Event::Written`.
    Write { path: String, contents: String },
    /// Run the command; answer with `Event::Exited`.
    Spawn(Command),
    /// Remove the workspace, if one was acquired, with everything in it, and report
    /// the result. The execution is over.
    Finish(ExecutionResult),
}

pub enum ActionView {
    Acquire,
    Write { path: Seq<char>, contents: Seq<char> },
    Spawn(CommandView),
    Finish(ResultView),
}

impl View for Action {
    type V = ActionView;

    open spec fn view(&self) -> ActionView {
        match self {
            Action::Acquire => ActionView::Acquire,
            Action::Write { path, contents } => ActionView::Write {
                path: path@,
                contents: contents@,
            },
            Action::Spawn(c) => ActionView::Spawn(c@),
            Action::Finish(r) => ActionView::Finish(r@),
        }
    }
}

/// What the driver reports back.
pub enum Event {
    /// Begin the execution.
    Start,
    /// The workspace directory was created at this path.
    Acquired(String),
    /// The file was written.
    Written,
    /// The process finished, or was killed.
    Exited(ProcessOutcome),
    /// The driver could not do what was asked (or the execution was cancelled).
    Failed(String),
}

pub enum EventView {
    Start,
    Acquired(Seq<char>),
    Written,
    Exited(OutcomeView),
    Failed(Seq<char>),
}

impl View for Event {
    type V = EventView;

    open spec fn view(&self) -> EventView {
        match self {
            Event::Start => EventView::Start,
            Event::Acquired(p) => EventView::Acquired(p@),
            Event::Written => EventView::Written,
            Event::Exited(o) => EventView::Exited(o@),
            Event::Failed(m) => EventView::Failed(m@),
        }
    }
}

#[derive(Clone, Copy, Debug, PartialEq, Eq, Structural)]
pub enum Phase {
    Ready,
    Acquiring,
    WritingManifest,
    WritingSource,
    Compiling,
    Running,
    Querying,
    Done,
}

/// One execution of one source in one language.
pub struct Execution {
    language: Language,
    source: String,
    class: String,
    statements: Vec<String>,
    root: String,
    next: usize,
    log: Vec<String>,
    phase: Phase,
}

pub struct ExecView {
    pub language: Language,
    pub source: Seq<char>,
    pub class: Seq<char>,
    pub statements: Seq<Seq<char>>,
    pub root: Seq<char>,
    pub next: int,
    pub log: Seq<Seq<char>>,
    pub phase: Phase,
}

impl View for Execution {
    type V = ExecView;

    closed spec fn view(&self) -> ExecView {
        ExecView {
            language: self.language,
            source: self.source@,
            class: self.class@,
            statements: string_views(self.statements@),
            root: self.root@,
            next: self.next as int,
            log: string_views(self.log@),
            phase: self.phase,
        }
    }
}

/// The path of `rel` inside the workspace directory `root`.
pub open spec fn path_in(root: Seq<char>, rel: Seq<char>) -> Seq<char> {
    root + "/"@ + rel
}

pub open spec fn manifest_text() -> Seq<char> {
    "[package]\nname = \"rust_project\"\nversion = \"0.1.0\"\nedition = \"2021\"\n\n[[bin]]\nname = \"main\"\npath = \"src/main.rs\"\n"@
}

/// The name, relative to the workspace, of the file that holds the source.
pub open spec fn source_name(l: Language, class: Seq<char>) -> Seq<char> {
    match l {
        Language::Python => "main.py"@,
        Language::C => "main.c"@,
        Language::Cpp => "main.cpp"@,
        Language::Java => class + ".java"@,
        Language::Kotlin => "main.kt"@,
        Language::JavaScript => "main.js"@,
        Language::Rust => "rust_project/src/main.rs"@,
        Language::Sql => "script.db"@,
        Language::Text => "main.txt"@,
    }
}

pub open spec fn command(
    program: Seq<char>,
    args: Seq<Seq<char>>,
    dir: Seq<char>,
    limit_secs: u64,
) -> CommandView {
    CommandView { program, args, dir, limit_secs }
}

/// The compile step of a compiled language, run in the workspace.
pub open spec fn compile_cmd(l: Language, class: Seq<char>, root: Seq<char>) -> Option<
    CommandView,
> {
    match l {
        Language::C => Some(
            command("gcc"@, seq!["main.c"@, "-o"@, "main"@], root, BUILD_LIMIT_SECS),
        ),
        Language::Cpp => Some(
            command("g++"@, seq!["main.cpp"@, "-o"@, "main"@], root, BUILD_LIMIT_SECS),
        ),
        Language::Java => Some(command("javac"@, seq![class + ".java"@], root, BUILD_LIMIT_SECS)),
        Language::Kotlin => Some(
            command(
                "kotlinc"@,
                seq!["main.kt"@, "-include-runtime"@, "-d"@, "main.jar"@],
                root,
                BUILD_LIMIT_SECS,
            ),
        ),
        _ => None,
    }
}

/// The step that runs the program, in the workspace.
pub open spec fn run_cmd(l: Language, class: Seq<char>, root: Seq<char>) -> Option<CommandView> {
    match l {
        Language::Python => Some(command("python3"@, seq!["main.py"@], root, RUN_LIMIT_SECS)),
        Language::JavaScript => Some(command("node"@, seq!["main.js"@], root, RUN_LIMIT_SECS)),
        Language::C | Language::Cpp => Some(
            command(path_in(root, "main"@), seq![], root, RUN_LIMIT_SECS),
        ),
        Language::Java => Some(command("java"@, seq!["-cp"@, "."@, class], root, RUN_LIMIT_SECS)),
        Language::Kotlin => Some(
            command("java"@, seq!["-jar"@, "main.jar"@], root, RUN_LIMIT_SECS),
        ),
        Language::Rust => Some(
            command(
                "cargo"@,
                seq!["run"@, "--quiet"@],
                path_in(root, "rust_project"@),
                BUILD_LIMIT_SECS,
            ),
        ),
        _ => None,
    }
}

/// One statement of the statement-sequence language, run against the shared database.
pub open spec fn sql_cmd(root: Seq<char>, st: Seq<char>) -> CommandView {
    command("sqlite3"@, seq!["script.db"@, st], root, RUN_LIMIT_SECS)
}

pub open spec fn input_error_text() -> Seq<char> {
    "No code provided"@
}

pub open spec fn unexpected_text() -> Seq<char> {
    "unexpected event"@
}

pub open spec fn empty_text_note() -> Seq<char> {
    "(Empty text document)"@
}

/// The plain-text pipeline: nothing runs, the input comes back as it is; a blank
/// input gives a placeholder.
pub open spec fn text_result(source: Seq<char>) -> ResultView {
    if blank(source) {
        ResultView::Output(empty_text_note())
    } else {
        ResultView::Output(source)
    }
}

/// Runs the plain-text pipeline.
pub fn run_text(source: &str) -> (r: ExecutionResult)
    ensures
        r@ == text_result(source@),
{
    if is_blank(source) {
        ExecutionResult::Output(text("(Empty text document)"))
    } else {
        ExecutionResult::Output(String::from_str(source))
    }
}

/// The state of a new execution.
pub open spec fn initial(l: Language, source: Seq<char>) -> ExecView {
    ExecView {
        language: l,
        source,
        class: class_name_of(source),
        statements: statements_of(source),
        root: seq![],
        next: 0,
        log: seq![],
        phase: Phase::Ready,
    }
}

pub open spec fn finished(s: ExecView, r: ResultView) -> (ExecView, ActionView) {
    (ExecView { phase: Phase::Done, ..s }, ActionView::Finish(r))
}

pub open spec fn spawn(s: ExecView, phase: Phase, c: Option<CommandView>) -> (
    ExecView,
    ActionView,
) {
    match c {
        Some(c) => (ExecView { phase, ..s }, ActionView::Spawn(c)),
        None => finished(s, ResultView::Failure(FailureKind::System, unexpected_text())),
    }
}

/// How an execution answers each event in each phase.
pub open spec fn transition(s: ExecView, e: EventView) -> (ExecView, ActionView) {
    let unexpected = finished(s, ResultView::Failure(FailureKind::System, unexpected_text()));
    match e {
        EventView::Failed(m) => finished(s, ResultView::Failure(FailureKind::System, m)),
        EventView::Start => if s.phase != Phase::Ready {
            unexpected
        } else if blank(s.source) {
            finished(s, ResultView::Failure(FailureKind::Input, input_error_text()))
        } else if s.language == Language::Text {
            finished(s, text_result(s.source))
        } else if s.language == Language::Sql && s.statements.len() == 0 {
            finished(s, ResultView::Output(seq![]))
        } else {
            (ExecView { phase: Phase::Acquiring, ..s }, ActionView::Acquire)
        },
        EventView::Acquired(root) => if s.phase != Phase::Acquiring {
            unexpected
        } else if s.language == Language::Rust {
            (
                ExecView { phase: Phase::WritingManifest, root, ..s },
                ActionView::Write { path: path_in(root, "rust_project/Cargo.toml"@), contents: manifest_text() },
            )
        } else if s.language == Language::Sql {
            (
                ExecView { phase: Phase::Querying, root, ..s },
                ActionView::Spawn(sql_cmd(root, s.statements[s.next])),
            )
        } else {
            (
                ExecView { phase: Phase::WritingSource, root, ..s },
                ActionView::Write {
                    path: path_in(root, source_name(s.language, s.class)),
                    contents: s.source,
                },
            )
        },
        EventView::Written => if s.phase == Phase::WritingManifest {
            (
                ExecView { phase: Phase::WritingSource, ..s },
                ActionView::Write {
                    path: path_in(s.root, source_name(s.language, s.class)),
                    contents: s.source,
                },
            )
        } else if s.phase != Phase::WritingSource {
            unexpected
        } else if is_compiled(s.language) {
            spawn(s, Phase::Compiling, compile_cmd(s.language, s.class, s.root))
        } else {
            spawn(s, Phase::Running, run_cmd(s.language, s.class, s.root))
        },
        EventView::Exited(o) => if s.phase == Phase::Compiling {
            match compile_result(o) {
                Some(r) => finished(s, r),
                None => spawn(s, Phase::Running, run_cmd(s.language, s.class, s.root)),
            }
        } else if s.phase == Phase::Running {
            if s.language == Language::Rust {
                finished(s, build_run_result(o))
            } else {
                finished(s, run_result(o))
            }
        } else if s.phase != Phase::Querying {
            unexpected
        } else if o.timed_out {
            finished(s, ResultView::Failure(FailureKind::TimedOut, timed_out_text()))
        } else {
            let log = s.log + entry_lines(s.statements[s.next], o);
            if o.stderr.len() > 0 || s.next + 1 >= s.statements.len() {
                finished(ExecView { log, ..s }, ResultView::Output(joined(log)))
            } else {
                (
                    ExecView { next: s.next + 1, log, ..s },
                    ActionView::Spawn(sql_cmd(s.root, s.statements[s.next + 1])),
                )
            }
        },
    }
}

pub open spec fn opt_cmd(c: Option<Command>) -> Option<CommandView> {
    match c {
        Some(c) => Some(c@),
        None => None,
    }
}

fn text(s: &str) -> (r: String)
    ensures
        r@ == s@,
{
    String::from_str(s)
}

fn in_root(root: &String, rel: &str) -> (r: String)
    ensures
        r@ == path_in(root@, rel@),
{
    let mut r = root.clone();
    r.append("/");
    r.append(rel);
    r
}

fn java_file(class: &String) -> (r: String)
    ensures
        r@ == class@ + ".java"@,
{
    let mut r = class.clone();
    r.append(".java");
    r
}

fn make(program: String, args: Vec<String>, dir: &String, limit_secs: u64) -> (r: Command)
    ensures
        r@ == command(program@, string_views(args@), dir@, limit_secs),
{
    Command { program, args, dir: dir.clone(), limit_secs }
}

/// The compile step of `l`, if it has one.
pub fn compile_command(l: Language, class: &String, root: &String) -> (r: Option<Command>)
    ensures
        opt_cmd(r) == compile_cmd(l, class@, root@),
{
    match l {
        Language::C => {
            let a = vec![text("main.c"), text("-o"), text("main")];
            assert(string_views(a@) =~= seq!["main.c"@, "-o"@, "main"@]);
            Some(make(text("gcc"), a, root, BUILD_LIMIT_SECS))
        },
        Language::Cpp => {
            let a = vec![text("main.cpp"), text("-o"), text("main")];
            assert(string_views(a@) =~= seq!["main.cpp"@, "-o"@, "main"@]);
            Some(make(text("g++"), a, root, BUILD_LIMIT_SECS))
        },
        Language::Java => {
            let a = vec![java_file(class)];
            assert(string_views(a@) =~= seq![class@ + ".java"@]);
            Some(make(text("javac"), a, root, BUILD_LIMIT_SECS))
        },
        Language::Kotlin => {
            let a = vec![text("main.kt"), text("-include-runtime"), text("-d"), text("main.jar")];
            assert(string_views(a@) =~= seq!["main.kt"@, "-include-runtime"@, "-d"@, "main.jar"@]);
            Some(make(text("kotlinc"), a, root, BUILD_LIMIT_SECS))
        },
        _ => None,
    }
}

/// The step of `l` that runs the program, if it has one.
pub fn run_command(l: Language, class: &String, root: &String) -> (r: Option<Command>)
    ensures
        opt_cmd(r) == run_cmd(l, class@, root@),
{
    match l {
        Language::Python => {
            let a = vec![text("main.py")];
            assert(string_views(a@) =~= seq!["main.py"@]);
            Some(make(text("python3"), a, root, RUN_LIMIT_SECS))
        },
        Language::JavaScript => {
            let a = vec![text("main.js")];
            assert(string_views(a@) =~= seq!["main.js"@]);
            Some(make(text("node"), a, root, RUN_LIMIT_SECS))
        },
        Language::C | Language::Cpp => {
            let a: Vec<String> = Vec::new();
            assert(string_views(a@) =~= Seq::<Seq<char>>::empty());
            Some(make(in_root(root, "main"), a, root, RUN_LIMIT_SECS))
        },
        Language::Java => {
            let a = vec![text("-cp"), text("."), class.clone()];
            assert(string_views(a@) =~= seq!["-cp"@, "."@, class@]);
            Some(make(text("java"), a, root, RUN_LIMIT_SECS))
        },
        Language::Kotlin => {
            let a = vec![text("-jar"), text("main.jar")];
            assert(string_views(a@) =~= seq!["-jar"@, "main.jar"@]);
            Some(make(text("java"), a, root, RUN_LIMIT_SECS))
        },
        Language::Rust => {
            let a = vec![text("run"), text("--quiet")];
            assert(string_views(a@) =~= seq!["run"@, "--quiet"@]);
            Some(make(text("cargo"), a, &in_root(root, "rust_project"), BUILD_LIMIT_SECS))
        },
        _ => None,
    }
}

/// Runs statement `st` against the workspace's database.
pub fn sql_command(root: &String, st: &String) -> (r: Command)
    ensures
        r@ == sql_cmd(root@, st@),
{
    let a = vec![text("script.db"), st.clone()];
    assert(string_views(a@) =~= seq!["script.db"@, st@]);
    make(text("sqlite3"), a, root, RUN_LIMIT_SECS)
}

/// The file name, relative to the workspace, that holds the source of `l`.
pub fn source_file(l: Language, class: &String) -> (r: String)
    ensures
        r@ == source_name(l, class@),
{
    match l {
        Language::Python => text("main.py"),
        Language::C => text("main.c"),
        Language::Cpp => text("main.cpp"),
        Language::Java => java_file(class),
        Language::Kotlin => text("main.kt"),
        Language::JavaScript => text("main.js"),
        Language::Rust => text("rust_project/src/main.rs"),
        Language::Sql => text("script.db"),
        Language::Text => text("main.txt"),
    }
}

fn append_lines(log: &mut Vec<String>, lines: &Vec<String>)
    ensures
        string_views(final(log)@) == string_views(old(log)@) + string_views(lines@),
{
    let mut k: usize = 0;
    while k < lines.len()
        invariant
            k <= lines@.len(),
            string_views(log@) == string_views(old(log)@) + string_views(lines@).take(k as int),
        decreases lines@.len() - k,
    {
        let ghost before = log@;
        log.push(lines[k].clone());
        assert(string_views(log@) =~= string_views(before).push(lines@[k as int]@));
        assert(string_views(lines@).take(k + 1) =~= string_views(lines@).take(k as int).push(
            lines@[k as int]@,
        ));
        k = k + 1;
    }
    assert(string_views(lines@).take(lines@.len() as int) == string_views(lines@));
}

impl Execution {
    /// The invariant of an execution: what it derived from its source is kept beside
    /// it, and a statement is pending whenever statements are being run.
    pub closed spec fn wf(&self) -> bool {
        let v = self@;
        &&& v.class == class_name_of(v.source)
        &&& v.statements == statements_of(v.source)
        &&& v.phase == Phase::Ready ==> v.next == 0
        &&& (v.phase == Phase::Acquiring && v.language == Language::Sql) ==> 0 <= v.next
            < v.statements.len()
        &&& v.phase == Phase::Querying ==> v.language == Language::Sql && 0 <= v.next
            < v.statements.len()
    }

    /// A new execution of `source` in language `l`; nothing has happened yet.
    pub fn new(l: Language, source: &str) -> (r: Execution)
        ensures
            r.wf(),
            r@ == initial(l, source@),
    {
        let r = Execution {
            language: l,
            source: String::from_str(source),
            class: class_name(source),
            statements: split_script(source),
            root: String::new(),
            next: 0,
            log: Vec::new(),
            phase: Phase::Ready,
        };
        assert(string_views(r.log@) =~= Seq::<Seq<char>>::empty());
        r
    }

    pub fn phase(&self) -> (r: Phase)
        ensures
            r == self@.phase,
    {
        self.phase
    }

    fn finish(&mut self, r: ExecutionResult) -> (a: Action)
        requires
            old(self).wf(),
        ensures
            final(self).wf(),
            (final(self)@, a@) == finished(old(self)@, r@),
    {
        self.phase = Phase::Done;
        Action::Finish(r)
    }

    fn spawn(&mut self, phase: Phase, c: Option<Command>) -> (a: Action)
        requires
            old(self).wf(),
            phase == Phase::Compiling || phase == Phase::Running,
        ensures
            final(self).wf(),
            (final(self)@, a@) == spawn(old(self)@, phase, opt_cmd(c)),
    {
        match c {
            Some(c) => {
                self.phase = phase;
                Action::Spawn(c)
            },
            None => self.finish(ExecutionResult::Failure(FailureKind::System, text("unexpected event"))),
        }
    }

    fn unexpected(&mut self) -> (a: Action)
        requires
            old(self).wf(),
        ensures
            final(self).wf(),
            (final(self)@, a@) == finished(
                old(self)@,
                ResultView::Failure(FailureKind::System, unexpected_text()),
            ),
    {
        self.finish(ExecutionResult::Failure(FailureKind::System, text("unexpected event")))
    }

    /// Answers one event with the next action, as `transition` says.
    pub fn step(&mut self, event: Event) -> (a: Action)
        requires
            old(self).wf(),
        ensures
            final(self).wf(),
            (final(self)@, a@) == transition(old(self)@, event@),
    {
        assert(string_views(self.statements@).len() == self.statements@.len());
        match event {
            Event::Failed(m) => self.finish(ExecutionResult::Failure(FailureKind::System, m)),
            Event::Start => {
                if self.phase != Phase::Ready {
                    self.unexpected()
                } else if is_blank(self.source.as_str()) {
                    self.finish(
                        ExecutionResult::Failure(FailureKind::Input, text("No code provided")),
                    )
                } else if self.language == Language::Text {
                    let r = run_text(self.source.as_str());
                    self.finish(r)
                } else if self.language == Language::Sql && self.statements.len() == 0 {
                    self.finish(ExecutionResult::Output(String::new()))
                } else {
                    self.phase = Phase::Acquiring;
                    Action::Acquire
                }
            },
            Event::Acquired(root) => {
                if self.phase != Phase::Acquiring {
                    self.unexpected()
                } else if self.language == Language::Rust {
                    let path = in_root(&root, "rust_project/Cargo.toml");
                    self.root = root;
                    self.phase = Phase::WritingManifest;
                    Action::Write {
                        path,
                        contents: text(
                            "[package]\nname = \"rust_project\"\nversion = \"0.1.0\"\nedition = \"2021\"\n\n[[bin]]\nname = \"main\"\npath = \"src/main.rs\"\n",
                        ),
                    }
                } else if self.language == Language::Sql {
                    let c = sql_command(&root, &self.statements[self.next]);
                    self.root = root;
                    self.phase = Phase::Querying;
                    Action::Spawn(c)
                } else {
                    let name = source_file(self.language, &self.class);
                    let path = in_root(&root, name.as_str());
                    self.root = root;
                    self.phase = Phase::WritingSource;
                    Action::Write { path, contents: self.source.clone() }
                }
            },
            Event::Written => {
                if self.phase == Phase::WritingManifest {
                    let name = source_file(self.language, &self.class);
                    let path = in_root(&self.root, name.as_str());
                    self.phase = Phase::WritingSource;
                    Action::Write { path, contents: self.source.clone() }
                } else if self.phase != Phase::WritingSource {
                    self.unexpected()
                } else if self.language.is_compiled() {
                    let c = compile_command(self.language, &self.class, &self.root);
                    self.spawn(Phase::Compiling, c)
                } else {
                    let c = run_command(self.language, &self.class, &self.root);
                    self.spawn(Phase::Running, c)
                }
            },
            Event::Exited(o) => {
                if self.phase == Phase::Compiling {
                    match classify_compile(&o) {
                        Some(r) => self.finish(r),
                        None => {
                            let c = run_command(self.language, &self.class, &self.root);
                            self.spawn(Phase::Running, c)
                        },
                    }
                } else if self.phase == Phase::Running {
                    if self.language == Language::Rust {
                        self.finish(classify_build_run(&o))
                    } else {
                        self.finish(classify_run(&o))
                    }
                } else if self.phase != Phase::Querying {
                    self.unexpected()
                } else if o.timed_out {
                    self.finish(timed_out_result())
                } else {
                    assert(self.next < self.statements.len());
                    let lines = entry(&self.statements[self.next], &o);
                    append_lines(&mut self.log, &lines);
                    if o.stderr.len() > 0 || self.next + 1 >= self.statements.len() {
                        let out = join_lines(&self.log);
                        self.finish(ExecutionResult::Output(out))
                    } else {
                        self.next = self.next + 1;
                        Action::Spawn(sql_command(&self.root, &self.statements[self.next]))
                    }
                }
            },
        }
    }
}

} // verus!

verus! {

/// The dispatcher: an execution of `source` in the language that `tag` names.
pub fn dispatch(tag: &str, source: &str) -> (r: Execution)
    ensures
        r.wf(),
        r@ == initial(language_of(tag@), source@),
{
    Execution::new(Language::from_tag(tag), source)
}

} // verus!
