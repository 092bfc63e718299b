//! The command line of `sp`: how its arguments select a command or an
//! error, and the requests it sends to running widgets.
use vstd::prelude::*;
use crate::text::{str_eq, to_chars, trim, trimmed};

verus! {

broadcast use vstd::string::group_string_axioms;

/// Errors of the command line, each with its message.
#[derive(Debug)]
pub enum Cli {
    BadSubCommand(String),
    UndefinedArg(String),
    UnknownVal(String),
    UndeclaredVal(String),
}

/// The plain content of a [`Cli`] error.
pub enum CliView {
    BadSubCommand(Seq<char>),
    UndefinedArg(Seq<char>),
    UnknownVal(Seq<char>),
    UndeclaredVal(Seq<char>),
}

impl View for Cli {
    type V = CliView;

    open spec fn view(&self) -> CliView {
        match self {
            Cli::BadSubCommand(s) => CliView::BadSubCommand(s@),
            Cli::UndefinedArg(s) => CliView::UndefinedArg(s@),
            Cli::UnknownVal(s) => CliView::UnknownVal(s@),
            Cli::UndeclaredVal(s) => CliView::UndeclaredVal(s@),
        }
    }
}

/// The kinds of logs a running widget can stream to the command line.
#[derive(Debug, Clone, Copy, PartialEq, Eq, Structural)]
pub enum LogType {
    Slint,
    Debug,
    Dump,
    Dev,
}

/// The fingerprint operations.
#[derive(Debug, Clone, Copy, PartialEq, Eq, Structural)]
pub enum Fprint {
    Enroll,
    List,
    Verify,
}

/// The help texts.
#[derive(Debug, Clone, Copy, PartialEq, Eq, Structural)]
pub enum HelpTopic {
    Main,
    Log,
    Fprint,
}

/// What the command line was asked to do.
#[derive(Debug)]
pub enum CliCommand {
    /// Print the version.
    Version,
    /// Print a help text.
    Help(HelpTopic),
    /// A sub-command that does nothing yet (`enable`, `test`, `list`).
    Nothing,
    /// Send a request to the IPC socket of a widget, and print the reply
    /// when one is expected.
    Send { socket_path: String, request: String, expect_reply: bool },
    /// Stream the logs of a widget.
    Logs { layer: String, log_type: LogType },
    /// Run a fingerprint operation.
    Fingerprint(Fprint),
    /// Create a new project at the given path.
    NewProject(String),
}

/// The plain content of a [`CliCommand`].
pub enum CliCommandView {
    Version,
    Help(HelpTopic),
    Nothing,
    Send { socket_path: Seq<char>, request: Seq<char>, expect_reply: bool },
    Logs { layer: Seq<char>, log_type: LogType },
    Fingerprint(Fprint),
    NewProject(Seq<char>),
}

impl View for CliCommand {
    type V = CliCommandView;

    open spec fn view(&self) -> CliCommandView {
        match self {
            CliCommand::Version => CliCommandView::Version,
            CliCommand::Help(t) => CliCommandView::Help(*t),
            CliCommand::Nothing => CliCommandView::Nothing,
            CliCommand::Send { socket_path, request, expect_reply } => CliCommandView::Send {
                socket_path: socket_path@,
                request: request@,
                expect_reply: *expect_reply,
            },
            CliCommand::Logs { layer, log_type } => CliCommandView::Logs {
                layer: layer@,
                log_type: *log_type,
            },
            CliCommand::Fingerprint(f) => CliCommandView::Fingerprint(*f),
            CliCommand::NewProject(p) => CliCommandView::NewProject(p@),
        }
    }
}

/// The path of the IPC socket of the widget named `layer`.
pub open spec fn ipc_socket_path(layer: Seq<char>) -> Seq<char> {
    "/tmp/"@ + trimmed(layer) + "_ipc.sock"@
}

/// The message for a sub-command that does not exist.
pub open spec fn no_such_subcommand(name: Seq<char>) -> Seq<char> {
    "The subcommand \""@ + name + "\" doesn't exist, use `spell --help` to view available commands"@
}

/// The message for a flag that does not exist.
pub open spec fn no_such_flag(name: Seq<char>) -> Seq<char> {
    "The flag \""@ + name + "\" doesn't exist, use `spell --help` to view available commands"@
}

/// The result of the `log` arguments given after a layer name.
pub open spec fn logs_outcome(layer: Seq<char>, more: Seq<Seq<char>>) -> Result<
    CliCommandView,
    CliView,
> {
    if more.len() == 0 {
        Ok(CliCommandView::Logs { layer, log_type: LogType::Debug })
    } else {
        let t = trimmed(more[0]);
        if t == "slint_debug"@ {
            Ok(CliCommandView::Logs { layer, log_type: LogType::Slint })
        } else if t == "debug"@ {
            Ok(CliCommandView::Logs { layer, log_type: LogType::Debug })
        } else if t == "dump"@ {
            Ok(CliCommandView::Logs { layer, log_type: LogType::Dump })
        } else if t == "dev"@ {
            Ok(CliCommandView::Logs { layer, log_type: LogType::Dev })
        } else {
            Err(CliView::UnknownVal(t + " is not a debug type."@))
        }
    }
}

/// The result of the arguments that follow `-l LAYER`.
pub open spec fn layer_outcome(rest: Seq<Seq<char>>) -> Result<CliCommandView, CliView> {
    if rest.len() == 0 {
        Err(CliView::UndefinedArg("Provide the value of layer name"@))
    } else if rest.len() == 1 {
        Err(CliView::UndefinedArg("provide a subcommand like 'update', 'look' etc"@))
    } else {
        let layer = rest[0];
        let sub = rest[1];
        let t = trimmed(sub);
        let more = rest.skip(2);
        if t == "update"@ {
            if more.len() < 2 {
                Err(CliView::UndefinedArg("Less arguments given, provide {{key}} and {{Value}}"@))
            } else if more.len() > 2 {
                Err(
                    CliView::UndefinedArg(
                        "More than 2 arg given. Only provide {{key}} and {{Value}}"@,
                    ),
                )
            } else {
                Ok(
                    CliCommandView::Send {
                        socket_path: ipc_socket_path(layer),
                        request: "update "@ + more[0] + " "@ + more[1],
                        expect_reply: false,
                    },
                )
            }
        } else if t == "look"@ {
            if more.len() == 0 {
                Err(CliView::UndefinedArg("No variable name provided"@))
            } else {
                Ok(
                    CliCommandView::Send {
                        socket_path: ipc_socket_path(layer),
                        request: "look "@ + more[0],
                        expect_reply: true,
                    },
                )
            }
        } else if t == "show"@ {
            Ok(
                CliCommandView::Send {
                    socket_path: ipc_socket_path(layer),
                    request: "show"@,
                    expect_reply: false,
                },
            )
        } else if t == "hide"@ {
            Ok(
                CliCommandView::Send {
                    socket_path: ipc_socket_path(layer),
                    request: "hide"@,
                    expect_reply: false,
                },
            )
        } else if t == "log"@ {
            logs_outcome(layer, more)
        } else {
            Err(CliView::BadSubCommand(no_such_subcommand(sub)))
        }
    }
}

/// The result of the arguments that follow `log`.
pub open spec fn log_outcome(rest: Seq<Seq<char>>) -> Result<CliCommandView, CliView> {
    if rest.len() == 0 {
        Err(CliView::UndefinedArg("define a layer name to display user logs"@))
    } else {
        let t = trimmed(rest[0]);
        if t == "-l"@ || t == "--layer"@ {
            if rest.len() < 2 {
                Err(CliView::UndefinedArg("Provide the value of layer name"@))
            } else {
                logs_outcome(rest[1], rest.skip(2))
            }
        } else if t == "--help"@ || t == "-h"@ {
            Ok(CliCommandView::Help(HelpTopic::Log))
        } else {
            Err(CliView::UndefinedArg("define a layer name to display user logs"@))
        }
    }
}

/// The result of the arguments that follow `fprint`.
pub open spec fn fprint_outcome(rest: Seq<Seq<char>>) -> Result<CliCommandView, CliView> {
    if rest.len() == 0 {
        Ok(CliCommandView::Fingerprint(Fprint::List))
    } else {
        let t = trimmed(rest[0]);
        if t == "--help"@ {
            Ok(CliCommandView::Help(HelpTopic::Fprint))
        } else if t == "list"@ {
            Ok(CliCommandView::Fingerprint(Fprint::List))
        } else if t == "enroll"@ {
            Ok(CliCommandView::Fingerprint(Fprint::Enroll))
        } else if t == "verify"@ {
            Ok(CliCommandView::Fingerprint(Fprint::Verify))
        } else {
            Err(CliView::BadSubCommand(no_such_subcommand(t)))
        }
    }
}

/// The command or error that the arguments of `sp` (without the program
/// name) select.
pub open spec fn cli_outcome(args: Seq<Seq<char>>) -> Result<CliCommandView, CliView> {
    if args.len() == 0 {
        Ok(CliCommandView::Help(HelpTopic::Main))
    } else {
        let s = args[0];
        let t = trimmed(s);
        let rest = args.skip(1);
        if t == "--version"@ || t == "-v"@ {
            Ok(CliCommandView::Version)
        } else if t == "update"@ || t == "look"@ || t == "show"@ || t == "hide"@ {
            Err(
                CliView::BadSubCommand(
                    "`-l` is not defined. Call these sub commands after specifying name with spell-cli -l|--layer `name` sub command"@,
                ),
            )
        } else if t == "-l"@ || t == "--layer"@ {
            layer_outcome(rest)
        } else if t == "enable"@ {
            Ok(CliCommandView::Nothing)
        } else if t == "new"@ {
            if rest.len() == 0 {
                Err(CliView::UndefinedArg("Provide a destination for creating the project."@))
            } else {
                Ok(CliCommandView::NewProject(rest[0]))
            }
        } else if t == "log"@ {
            log_outcome(rest)
        } else if t == "test"@ || t == "list"@ {
            Ok(CliCommandView::Nothing)
        } else if t == "--help"@ || t == "-h"@ {
            Ok(CliCommandView::Help(HelpTopic::Main))
        } else if t == "fprint"@ {
            fprint_outcome(rest)
        } else if s.len() > 0 && s[0] == '-' {
            Err(CliView::BadSubCommand(no_such_flag(s)))
        } else {
            Err(CliView::BadSubCommand(no_such_subcommand(s)))
        }
    }
}

/// The views of the results, for comparing with the spec functions.
pub open spec fn outcome_view(r: Result<CliCommand, Cli>) -> Result<CliCommandView, CliView> {
    match r {
        Ok(c) => Ok(c@),
        Err(e) => Err(e@),
    }
}

/// Joins three string slices.
fn concat2(a: &str, b: &str) -> (s: String)
    ensures
        s@ == a@ + b@,
{
    let mut s = a.to_owned();
    s.append(b);
    s
}

fn concat3(a: &str, b: &str, c: &str) -> (s: String)
    ensures
        s@ == a@ + b@ + c@,
{
    let mut s = a.to_owned();
    s.append(b);
    s.append(c);
    s
}

/// The files of a new widget project, under the directory given on the
/// command line.
#[derive(Debug)]
pub struct ProjectPaths {
    pub ui_dir: String,
    pub slint_file: String,
    pub build_file: String,
    pub main_file: String,
    pub cargo_file: String,
}

/// The directory given for a new project, ending with a slash.
pub open spec fn project_dir(path: Seq<char>) -> Seq<char> {
    if path.len() > 0 && path.last() == '/' {
        path
    } else {
        path + "/"@
    }
}

/// Lays out the files of a new widget project under `path`.
pub fn project_paths(path: &str) -> (p: ProjectPaths)
    ensures
        p.ui_dir@ == project_dir(path@) + "ui"@,
        p.slint_file@ == project_dir(path@) + "ui/app-window.slint"@,
        p.build_file@ == project_dir(path@) + "build.rs"@,
        p.main_file@ == project_dir(path@) + "src/main.rs"@,
        p.cargo_file@ == project_dir(path@) + "Cargo.toml"@,
{
    let cs = to_chars(path);
    let sep: &str = if cs.len() > 0 && cs[cs.len() - 1] == '/' {
        ""
    } else {
        "/"
    };
    proof {
        reveal_strlit("");
        assert(path@ + ""@ =~= path@);
    }
    ProjectPaths {
        ui_dir: concat3(path, sep, "ui"),
        slint_file: concat3(path, sep, "ui/app-window.slint"),
        build_file: concat3(path, sep, "build.rs"),
        main_file: concat3(path, sep, "src/main.rs"),
        cargo_file: concat3(path, sep, "Cargo.toml"),
    }
}

/// The manifest of a new widget project: the package header naming the
/// project, then the dependencies and build settings in `body`.
pub fn cargo_manifest(name: &str, body: &str) -> (m: String)
    ensures
        m@ == "[package] \nname = \""@ + name@ + "\" \n "@ + body@,
{
    let mut m = concat3("[package] \nname = \"", name, "\" \n ");
    m.append(body);
    m
}

/// The line printed for an error of the command line: a tag naming its
/// kind, then its message.
pub open spec fn error_line(e: CliView) -> Seq<char> {
    match e {
        CliView::BadSubCommand(m) => "[Bad Sub-command]: "@ + m,
        CliView::UndefinedArg(m) => "[Undefined Arg]: "@ + m,
        CliView::UnknownVal(m) => "[Unknown Value] "@ + m,
        CliView::UndeclaredVal(m) => "[Undeclared Content]: "@ + m,
    }
}

/// The line printed when a bus method fails with the given error text.
pub open spec fn method_error_line(value: Seq<char>) -> Seq<char> {
    if value == "Value is not supported"@ {
        "[Parse Error]: Given Value for key couldn't be parsed."@
    } else if value == "Sender is not authorized to send message"@ {
        "List couldn't currently display devices and fingerprints. Use `fprintd-list` instead if installed"@
    } else {
        "[Method Error]: Seems like the service is not running. \n Invoke `cast_spell` before calling for changes. "@
            + value
    }
}

impl Cli {
    /// The line printed for the error.
    pub fn report(&self) -> (line: String)
        ensures
            line@ == error_line(self@),
    {
        match self {
            Cli::BadSubCommand(m) => concat2("[Bad Sub-command]: ", m.as_str()),
            Cli::UndefinedArg(m) => concat2("[Undefined Arg]: ", m.as_str()),
            Cli::UnknownVal(m) => concat2("[Unknown Value] ", m.as_str()),
            Cli::UndeclaredVal(m) => concat2("[Undeclared Content]: ", m.as_str()),
        }
    }
}

/// The line printed when a bus method fails with the given error text.
pub fn method_error_report(value: &str) -> (line: String)
    ensures
        line@ == method_error_line(value@),
{
    if str_eq(value, "Value is not supported") {
        "[Parse Error]: Given Value for key couldn't be parsed.".to_owned()
    } else if str_eq(value, "Sender is not authorized to send message") {
        "List couldn't currently display devices and fingerprints. Use `fprintd-list` instead if installed".to_owned()
    } else {
        concat2(
            "[Method Error]: Seems like the service is not running. \n Invoke `cast_spell` before calling for changes. ",
            value,
        )
    }
}

/// Builds the path of the IPC socket of a widget.
pub fn ipc_path(layer: &str) -> (path: String)
    ensures
        path@ == ipc_socket_path(layer@),
{
    let t = trim(layer);
    concat3("/tmp/", t.as_str(), "_ipc.sock")
}

fn bad_subcommand(name: &str) -> (e: Cli)
    ensures
        e@ == CliView::BadSubCommand(no_such_subcommand(name@)),
{
    Cli::BadSubCommand(
        concat3(
            "The subcommand \"",
            name,
            "\" doesn't exist, use `spell --help` to view available commands",
        ),
    )
}

fn undefined(msg: &str) -> (e: Cli)
    ensures
        e@ == CliView::UndefinedArg(msg@),
{
    Cli::UndefinedArg(msg.to_owned())
}

fn skip_args(args: &Vec<String>, n: usize) -> (rest: Vec<String>)
    requires
        n <= args@.len(),
    ensures
        rest.deep_view() == args.deep_view().skip(n as int),
{
    let mut rest: Vec<String> = Vec::new();
    let mut i = n;
    while i < args.len()
        invariant
            n <= i <= args@.len(),
            rest.deep_view() == args.deep_view().subrange(n as int, i as int),
        decreases args@.len() - i,
    {
        let ghost before = rest.deep_view();
        let a = args[i].clone();
        assert(a@ == args.deep_view()[i as int]);
        rest.push(a);
        assert(rest.deep_view() =~= before.push(args.deep_view()[i as int]));
        assert(rest.deep_view() =~= args.deep_view().subrange(n as int, i + 1));
        i = i + 1;
    }
    assert(args.deep_view().subrange(n as int, args@.len() as int) =~= args.deep_view().skip(
        n as int,
    ));
    rest
}

fn logs_command(layer: &String, more: &Vec<String>) -> (r: Result<CliCommand, Cli>)
    ensures
        outcome_view(r) == logs_outcome(layer@, more.deep_view()),
{
    if more.len() == 0 {
        return Ok(CliCommand::Logs { layer: layer.clone(), log_type: LogType::Debug });
    }
    assert(more.deep_view()[0] == more[0]@);
    let t = trim(more[0].as_str());
    if str_eq(t.as_str(), "slint_debug") {
        Ok(CliCommand::Logs { layer: layer.clone(), log_type: LogType::Slint })
    } else if str_eq(t.as_str(), "debug") {
        Ok(CliCommand::Logs { layer: layer.clone(), log_type: LogType::Debug })
    } else if str_eq(t.as_str(), "dump") {
        Ok(CliCommand::Logs { layer: layer.clone(), log_type: LogType::Dump })
    } else if str_eq(t.as_str(), "dev") {
        Ok(CliCommand::Logs { layer: layer.clone(), log_type: LogType::Dev })
    } else {
        let mut msg = t.clone();
        msg.append(" is not a debug type.");
        Err(Cli::UnknownVal(msg))
    }
}

fn layer_command(rest: &Vec<String>) -> (r: Result<CliCommand, Cli>)
    ensures
        outcome_view(r) == layer_outcome(rest.deep_view()),
{
    let ghost rv = rest.deep_view();
    if rest.len() == 0 {
        return Err(undefined("Provide the value of layer name"));
    }
    if rest.len() == 1 {
        return Err(undefined("provide a subcommand like 'update', 'look' etc"));
    }
    assert(rv[0] == rest[0]@ && rv[1] == rest[1]@);
    let layer = &rest[0];
    let sub = &rest[1];
    let t = trim(sub.as_str());
    let more = skip_args(rest, 2);
    let ghost mv = more.deep_view();
    if str_eq(t.as_str(), "update") {
        if more.len() < 2 {
            Err(undefined("Less arguments given, provide {{key}} and {{Value}}"))
        } else if more.len() > 2 {
            Err(undefined("More than 2 arg given. Only provide {{key}} and {{Value}}"))
        } else {
            assert(mv[0] == more[0]@ && mv[1] == more[1]@);
            let request = concat3("update ", more[0].as_str(), " ");
            let mut request = request;
            request.append(more[1].as_str());
            Ok(
                CliCommand::Send {
                    socket_path: ipc_path(layer.as_str()),
                    request,
                    expect_reply: false,
                },
            )
        }
    } else if str_eq(t.as_str(), "look") {
        if more.len() == 0 {
            Err(undefined("No variable name provided"))
        } else {
            assert(mv[0] == more[0]@);
            let mut request = "look ".to_owned();
            request.append(more[0].as_str());
            Ok(
                CliCommand::Send {
                    socket_path: ipc_path(layer.as_str()),
                    request,
                    expect_reply: true,
                },
            )
        }
    } else if str_eq(t.as_str(), "show") {
        Ok(
            CliCommand::Send {
                socket_path: ipc_path(layer.as_str()),
                request: "show".to_owned(),
                expect_reply: false,
            },
        )
    } else if str_eq(t.as_str(), "hide") {
        Ok(
            CliCommand::Send {
                socket_path: ipc_path(layer.as_str()),
                request: "hide".to_owned(),
                expect_reply: false,
            },
        )
    } else if str_eq(t.as_str(), "log") {
        logs_command(layer, &more)
    } else {
        Err(bad_subcommand(sub.as_str()))
    }
}

fn log_command(rest: &Vec<String>) -> (r: Result<CliCommand, Cli>)
    ensures
        outcome_view(r) == log_outcome(rest.deep_view()),
{
    let ghost rv = rest.deep_view();
    if rest.len() == 0 {
        return Err(undefined("define a layer name to display user logs"));
    }
    assert(rv[0] == rest[0]@);
    let t = trim(rest[0].as_str());
    if str_eq(t.as_str(), "-l") || str_eq(t.as_str(), "--layer") {
        if rest.len() < 2 {
            Err(undefined("Provide the value of layer name"))
        } else {
            assert(rv[1] == rest[1]@);
            let more = skip_args(rest, 2);
            logs_command(&rest[1], &more)
        }
    } else if str_eq(t.as_str(), "--help") || str_eq(t.as_str(), "-h") {
        Ok(CliCommand::Help(HelpTopic::Log))
    } else {
        Err(undefined("define a layer name to display user logs"))
    }
}

fn fprint_command(rest: &Vec<String>) -> (r: Result<CliCommand, Cli>)
    ensures
        outcome_view(r) == fprint_outcome(rest.deep_view()),
{
    let ghost rv = rest.deep_view();
    if rest.len() == 0 {
        return Ok(CliCommand::Fingerprint(Fprint::List));
    }
    assert(rv[0] == rest[0]@);
    let t = trim(rest[0].as_str());
    if str_eq(t.as_str(), "--help") {
        Ok(CliCommand::Help(HelpTopic::Fprint))
    } else if str_eq(t.as_str(), "list") {
        Ok(CliCommand::Fingerprint(Fprint::List))
    } else if str_eq(t.as_str(), "enroll") {
        Ok(CliCommand::Fingerprint(Fprint::Enroll))
    } else if str_eq(t.as_str(), "verify") {
        Ok(CliCommand::Fingerprint(Fprint::Verify))
    } else {
        Err(bad_subcommand(t.as_str()))
    }
}

/// Reads the arguments of `sp` (without the program name) into the command
/// to run, or the error to report.
pub fn parse_cli_args(args: &Vec<String>) -> (r: Result<CliCommand, Cli>)
    ensures
        outcome_view(r) == cli_outcome(args.deep_view()),
{
    let ghost av = args.deep_view();
    if args.len() == 0 {
        return Ok(CliCommand::Help(HelpTopic::Main));
    }
    assert(av[0] == args[0]@);
    let s = &args[0];
    let t = trim(s.as_str());
    let rest = skip_args(args, 1);
    let ts = t.as_str();
    if str_eq(ts, "--version") || str_eq(ts, "-v") {
        Ok(CliCommand::Version)
    } else if str_eq(ts, "update") || str_eq(ts, "look") || str_eq(ts, "show") || str_eq(
        ts,
        "hide",
    ) {
        Err(
            Cli::BadSubCommand(
                "`-l` is not defined. Call these sub commands after specifying name with spell-cli -l|--layer `name` sub command".to_owned(),
            ),
        )
    } else if str_eq(ts, "-l") || str_eq(ts, "--layer") {
        layer_command(&rest)
    } else if str_eq(ts, "enable") {
        Ok(CliCommand::Nothing)
    } else if str_eq(ts, "new") {
        if rest.len() == 0 {
            Err(undefined("Provide a destination for creating the project."))
        } else {
            assert(rest.deep_view()[0] == rest[0]@);
            Ok(CliCommand::NewProject(rest[0].clone()))
        }
    } else if str_eq(ts, "log") {
        log_command(&rest)
    } else if str_eq(ts, "test") || str_eq(ts, "list") {
        Ok(CliCommand::Nothing)
    } else if str_eq(ts, "--help") || str_eq(ts, "-h") {
        Ok(CliCommand::Help(HelpTopic::Main))
    } else if str_eq(ts, "fprint") {
        fprint_command(&rest)
    } else {
        let cs = crate::text::to_chars(s.as_str());
        if cs.len() > 0 && cs[0] == '-' {
            Err(
                Cli::BadSubCommand(
                    concat3(
                        "The flag \"",
                        s.as_str(),
                        "\" doesn't exist, use `spell --help` to view available commands",
                    ),
                ),
            )
        } else {
            Err(bad_subcommand(s.as_str()))
        }
    }
}

/// `sp -l LAYER log WORD` streams the logs of `LAYER` of the kind the word
/// names: `slint_debug` the toolkit's, `debug` the general ones, `dump` the
/// performance ones, `dev` the development ones; without a word, `debug`.
/// Arguments after the word do not matter.
pub proof fn lemma_log_words_select_types(layer: Seq<char>, extra: Seq<Seq<char>>)
    ensures
        cli_outcome(seq!["-l"@, layer, "log"@, "slint_debug"@] + extra) == Ok::<
            CliCommandView,
            CliView,
        >(CliCommandView::Logs { layer, log_type: LogType::Slint }),
        cli_outcome(seq!["-l"@, layer, "log"@, "debug"@] + extra) == Ok::<CliCommandView, CliView>(
            CliCommandView::Logs { layer, log_type: LogType::Debug },
        ),
        cli_outcome(seq!["-l"@, layer, "log"@, "dump"@] + extra) == Ok::<CliCommandView, CliView>(
            CliCommandView::Logs { layer, log_type: LogType::Dump },
        ),
        cli_outcome(seq!["-l"@, layer, "log"@, "dev"@] + extra) == Ok::<CliCommandView, CliView>(
            CliCommandView::Logs { layer, log_type: LogType::Dev },
        ),
        cli_outcome(seq!["-l"@, layer, "log"@]) == Ok::<CliCommandView, CliView>(
            CliCommandView::Logs { layer, log_type: LogType::Debug },
        ),
{
    reveal_strlit("-l");
    reveal_strlit("--version");
    reveal_strlit("-v");
    reveal_strlit("update");
    reveal_strlit("look");
    reveal_strlit("show");
    reveal_strlit("hide");
    reveal_strlit("log");
    reveal_strlit("slint_debug");
    reveal_strlit("debug");
    reveal_strlit("dump");
    reveal_strlit("dev");
    assert(trimmed("-l"@) == "-l"@);
    assert(trimmed("log"@) == "log"@);
    assert(trimmed("slint_debug"@) == "slint_debug"@);
    assert(trimmed("debug"@) == "debug"@);
    assert(trimmed("dump"@) == "dump"@);
    assert(trimmed("dev"@) == "dev"@);
    assert("-l"@ != "--version"@ && "-l"@ != "-v"@);
    assert("-l"@ != "update"@ && "-l"@ != "look"@ && "-l"@ != "show"@ && "-l"@ != "hide"@);
    assert("log"@ != "update"@ && "log"@ != "look"@ && "log"@ != "show"@ && "log"@ != "hide"@);
    assert("debug"@ != "slint_debug"@);
    assert("dump"@ != "slint_debug"@ && "dump"@ != "debug"@);
    assert("dev"@ != "slint_debug"@ && "dev"@ != "debug"@ && "dev"@ != "dump"@);
    let words = seq!["slint_debug"@, "debug"@, "dump"@, "dev"@];
    assert forall|i: int| 0 <= i < 4 implies {
        let args = seq!["-l"@, layer, "log"@, #[trigger] words[i]] + extra;
        &&& args.skip(1) =~= seq![layer, "log"@, words[i]] + extra
        &&& (seq![layer, "log"@, words[i]] + extra).skip(2) =~= seq![words[i]] + extra
        &&& (seq![words[i]] + extra)[0] == words[i]
        &&& args[0] == "-l"@
    } by {}
    assert(seq!["-l"@, layer, "log"@].skip(1) =~= seq![layer, "log"@]);
    assert(seq![layer, "log"@].skip(2) =~= Seq::<Seq<char>>::empty());
    assert(words[0] == "slint_debug"@);
    assert(words[1] == "debug"@);
    assert(words[2] == "dump"@);
    assert(words[3] == "dev"@);
}

} // verus!
