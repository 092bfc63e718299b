//! The requests a running widget reads: commands from the IPC socket, and the
//! log level the command line asks for.
use vstd::prelude::*;
use crate::cli::{cli_outcome, ipc_socket_path, CliCommandView, LogType};
use crate::window_state::{hidden, hide_requests, show_requests, shown, SurfaceAction, WindowState};
use crate::IpcController;
use crate::text::{
    find_char, find_char_exec, lemma_find_char_some, str_eq, string_from_range, to_chars, trim,
    trimmed,
};

verus! {

broadcast use vstd::string::group_string_axioms;

/// A request read from the IPC socket: the operation, the command and its
/// arguments.
#[derive(Debug)]
pub struct IpcRequest {
    pub operation: String,
    pub command: String,
    pub args: String,
}

/// The split of a request at its first space, and of the rest at its next
/// space; without a second space the command is the trimmed rest and there
/// are no arguments; a request without a space is an operation alone
/// (`hide`, `show`).
pub open spec fn split_request(request: Seq<char>) -> (Seq<char>, Seq<char>, Seq<char>) {
    match find_char(request, ' ') {
        None => (request, Seq::empty(), Seq::empty()),
        Some(k) => {
            let operation = request.subrange(0, k);
            let rest = request.subrange(k + 1, request.len() as int);
            match find_char(rest, ' ') {
                Some(j) => (operation, rest.subrange(0, j), rest.subrange(j + 1, rest.len() as int)),
                None => (operation, trimmed(rest), Seq::empty()),
            }
        },
    }
}

/// Splits a request read from the IPC socket into its operation, command
/// and arguments.
pub fn parse_ipc_request(request: &str) -> (q: IpcRequest)
    ensures
        split_request(request@) == (q.operation@, q.command@, q.args@),
{
    let cs = to_chars(request);
    match find_char_exec(&cs, ' ') {
        None => IpcRequest {
            operation: string_from_range(&cs, 0, cs.len()),
            command: String::new(),
            args: String::new(),
        },
        Some(k) => {
            assert(k < cs@.len());
            let operation = string_from_range(&cs, 0, k);
            let rest_s = string_from_range(&cs, k + 1, cs.len());
            let rest = to_chars(rest_s.as_str());
            match find_char_exec(&rest, ' ') {
                Some(j) => IpcRequest {
                    operation,
                    command: string_from_range(&rest, 0, j),
                    args: string_from_range(&rest, j + 1, rest.len()),
                },
                None => IpcRequest { operation, command: trim(rest_s.as_str()), args: String::new() },
            }
        },
    }
}

/// What a widget does with a request.
#[derive(Debug)]
pub enum IpcAction {
    Hide,
    Show,
    /// Ask the widget's controller for the type of the value of a key.
    GetType(String),
    /// Ask the widget's controller to change the value of a key.
    ChangeVal(String, String),
    Ignore,
}

/// The plain content of an [`IpcAction`].
pub enum IpcActionView {
    Hide,
    Show,
    GetType(Seq<char>),
    ChangeVal(Seq<char>, Seq<char>),
    Ignore,
}

impl View for IpcAction {
    type V = IpcActionView;

    open spec fn view(&self) -> IpcActionView {
        match self {
            IpcAction::Hide => IpcActionView::Hide,
            IpcAction::Show => IpcActionView::Show,
            IpcAction::GetType(k) => IpcActionView::GetType(k@),
            IpcAction::ChangeVal(k, v) => IpcActionView::ChangeVal(k@, v@),
            IpcAction::Ignore => IpcActionView::Ignore,
        }
    }
}

/// The action for a request: `hide` and `show` act on the window; for a
/// widget with a controller, `look` asks for the key's value and `update`
/// changes the key's value; anything else is ignored.
pub open spec fn action_for(operation: Seq<char>, command: Seq<char>, args: Seq<char>, with_controller: bool) -> IpcActionView {
    if operation == "hide"@ {
        IpcActionView::Hide
    } else if operation == "show"@ {
        IpcActionView::Show
    } else if operation == "look"@ && with_controller {
        IpcActionView::GetType(command)
    } else if operation == "update"@ && with_controller {
        IpcActionView::ChangeVal(command, args)
    } else {
        IpcActionView::Ignore
    }
}

/// Decides what a widget does with a request.
pub fn ipc_action(request: &IpcRequest, with_controller: bool) -> (a: IpcAction)
    ensures
        a@ == action_for(request.operation@, request.command@, request.args@, with_controller),
{
    let op = request.operation.as_str();
    if str_eq(op, "hide") {
        IpcAction::Hide
    } else if str_eq(op, "show") {
        IpcAction::Show
    } else if str_eq(op, "look") && with_controller {
        IpcAction::GetType(request.command.clone())
    } else if str_eq(op, "update") && with_controller {
        IpcAction::ChangeVal(request.command.clone(), request.args.clone())
    } else {
        IpcAction::Ignore
    }
}

/// How an action leaves the window and which surface requests it makes.
pub open spec fn window_effect(
    action: IpcActionView,
    before: WindowState,
    after: WindowState,
    requests: Seq<SurfaceAction>,
) -> bool {
    match action {
        IpcActionView::Hide => after == hidden(before) && requests == hide_requests(before),
        IpcActionView::Show => after == shown(before) && requests == show_requests(before),
        _ => after == before && requests == Seq::<SurfaceAction>::empty(),
    }
}

/// Serves a request read from the IPC socket of a widget without a
/// controller: only `hide` and `show` act.
pub fn serve_window_request(window: &mut WindowState, request: &str) -> (requests: Vec<SurfaceAction>)
    ensures
        ({
            let (op, cmd, args) = split_request(request@);
            window_effect(action_for(op, cmd, args, false), *old(window), *final(window), requests@)
        }),
{
    let q = parse_ipc_request(request);
    match ipc_action(&q, false) {
        IpcAction::Hide => window.hide_window(),
        IpcAction::Show => window.show_again(),
        _ => Vec::new(),
    }
}

/// What a widget with a controller still has to do for a request once its
/// window has been handled.
#[derive(Debug)]
pub enum IpcOutcome {
    /// Nothing more.
    Done,
    /// Write this answer back to the command line.
    Reply(String),
    /// Have the controller set the key to the value.
    SetValue(String, String),
}

/// Serves a request read from the IPC socket of a widget with a controller:
/// `hide` and `show` act on the window; `look` asks the controller for the
/// key, and its answer is to be written back to the command line; `update`
/// names the key and value the controller is to set, which the caller does
/// with [`IpcController::change_val`].
pub fn serve_ipc_request<C: IpcController>(ui: &C, window: &mut WindowState, request: &str) -> (r: (Vec<SurfaceAction>, IpcOutcome))
    ensures
        ({
            let (op, cmd, args) = split_request(request@);
            let action = action_for(op, cmd, args, true);
            &&& window_effect(action, *old(window), *final(window), r.0@)
            &&& match action {
                IpcActionView::GetType(k) => r.1 matches IpcOutcome::Reply(s) && exists|key: &str|
                    key@ == k && call_ensures(C::get_type, (ui, key), s),
                IpcActionView::ChangeVal(k, v) => r.1 matches IpcOutcome::SetValue(k2, v2) && k2@
                    == k && v2@ == v,
                _ => r.1 is Done,
            }
        }),
{
    let q = parse_ipc_request(request);
    match ipc_action(&q, true) {
        IpcAction::Hide => (window.hide_window(), IpcOutcome::Done),
        IpcAction::Show => (window.show_again(), IpcOutcome::Done),
        IpcAction::GetType(key) => {
            let k = key.as_str();
            let reply = ui.get_type(k);
            assert(call_ensures(C::get_type, (ui, k), reply));
            (Vec::new(), IpcOutcome::Reply(reply))
        },
        IpcAction::ChangeVal(key, val) => (Vec::new(), IpcOutcome::SetValue(key, val)),
        IpcAction::Ignore => (Vec::new(), IpcOutcome::Done),
    }
}

/// The word the command line writes to ask a widget for a kind of logs.
pub open spec fn log_word(t: LogType) -> Seq<char> {
    match t {
        LogType::Slint => "slint_log"@,
        LogType::Debug => "debug"@,
        LogType::Dump => "dump"@,
        LogType::Dev => "dev"@,
    }
}

/// The log filter a widget sets for a kind of logs.
pub open spec fn log_filter(t: LogType) -> Seq<char> {
    match t {
        LogType::Slint => "spell_framework::slint_adapter=info,warn"@,
        LogType::Debug => "spell_framework=info,warn"@,
        LogType::Dump => "spell_framework=trace,info"@,
        LogType::Dev => "spell_framework=trace,warn"@,
    }
}

/// The kind of logs a word asks for, if any.
pub open spec fn log_type_of_word(word: Seq<char>) -> Option<LogType> {
    if word == "slint_log"@ {
        Some(LogType::Slint)
    } else if word == "debug"@ {
        Some(LogType::Debug)
    } else if word == "dump"@ {
        Some(LogType::Dump)
    } else if word == "dev"@ {
        Some(LogType::Dev)
    } else {
        None
    }
}

/// The word written for a kind of logs.
pub fn log_request_word(t: LogType) -> (w: &'static str)
    ensures
        w@ == log_word(t),
{
    match t {
        LogType::Slint => "slint_log",
        LogType::Debug => "debug",
        LogType::Dump => "dump",
        LogType::Dev => "dev",
    }
}

/// The filter set for a kind of logs.
pub fn log_filter_directive(t: LogType) -> (f: &'static str)
    ensures
        f@ == log_filter(t),
{
    match t {
        LogType::Slint => "spell_framework::slint_adapter=info,warn",
        LogType::Debug => "spell_framework=info,warn",
        LogType::Dump => "spell_framework=trace,info",
        LogType::Dev => "spell_framework=trace,warn",
    }
}

/// Reads the first line of the request file into the kind of logs asked
/// for; `None` for any other word.
pub fn log_type_from_word(line: &str) -> (t: Option<LogType>)
    ensures
        t == log_type_of_word(line@),
{
    if str_eq(line, "slint_log") {
        Some(LogType::Slint)
    } else if str_eq(line, "debug") {
        Some(LogType::Debug)
    } else if str_eq(line, "dump") {
        Some(LogType::Dump)
    } else if str_eq(line, "dev") {
        Some(LogType::Dev)
    } else {
        None
    }
}

/// A widget reads back the kind of logs the command line asked for.
pub proof fn lemma_log_word_round_trip(t: LogType)
    ensures
        log_type_of_word(log_word(t)) == Some(t),
{
    reveal_strlit("slint_log");
    reveal_strlit("debug");
    reveal_strlit("dump");
    reveal_strlit("dev");
    match t {
        LogType::Slint => {},
        LogType::Debug => {
            assert("debug"@.len() != "slint_log"@.len());
        },
        LogType::Dump => {
            assert("dump"@.len() != "slint_log"@.len());
            assert("dump"@.len() != "debug"@.len());
        },
        LogType::Dev => {
            assert("dev"@.len() != "slint_log"@.len());
            assert("dev"@.len() != "debug"@.len());
            assert("dev"@.len() != "dump"@.len());
        },
    }
}

proof fn lemma_find_char_after(a: Seq<char>, b: Seq<char>, c: char)
    requires
        !a.contains(c),
    ensures
        find_char(a + b, c) == match find_char(b, c) {
            Some(k) => Some(a.len() + k),
            None => None,
        },
    decreases a.len(),
{
    if a.len() == 0 {
        assert(a + b =~= b);
    } else {
        assert((a + b)[0] == a[0]);
        assert(a[0] != c);
        assert((a + b).drop_first() =~= a.drop_first() + b);
        assert forall|x: char| a.drop_first().contains(x) implies a.contains(x) by {
            let i = choose|i: int| 0 <= i < a.drop_first().len() && a.drop_first()[i] == x;
            assert(a[i + 1] == x);
        }
        lemma_find_char_after(a.drop_first(), b, c);
    }
}

/// An `update` request the command line builds is read back by the widget
/// as the operation `update` with the key and value that were given, when
/// the key holds no space.
pub proof fn lemma_update_request_round_trip(key: Seq<char>, value: Seq<char>)
    requires
        !key.contains(' '),
    ensures
        split_request("update "@ + key + " "@ + value) == ("update"@, key, value),
{
    reveal_strlit("update ");
    reveal_strlit("update");
    reveal_strlit(" ");
    let op = "update"@;
    let req = "update "@ + key + " "@ + value;
    assert("update "@ =~= op.push(' '));
    assert(!op.contains(' ')) by {
        if op.contains(' ') {
            let i = choose|i: int| 0 <= i < op.len() && op[i] == ' ';
            assert(op[i] != ' ');
        }
    }
    assert(req =~= op + (seq![' '] + key + seq![' '] + value));
    lemma_find_char_after(op, seq![' '] + key + seq![' '] + value, ' ');
    let rest = key + seq![' '] + value;
    assert(req.subrange(0, 6) =~= op);
    assert(req.subrange(7, req.len() as int) =~= rest);
    lemma_find_char_after(key, seq![' '] + value, ' ');
    assert(key + (seq![' '] + value) =~= rest);
    assert(rest.subrange(0, key.len() as int) =~= key);
    assert(rest.subrange(key.len() as int + 1, rest.len() as int) =~= value);
}

/// A request without a space is read as its operation alone.
proof fn lemma_split_without_space(request: Seq<char>)
    requires
        !request.contains(' '),
    ensures
        split_request(request) == (request, Seq::<char>::empty(), Seq::<char>::empty()),
{
    lemma_find_char_after(request, Seq::empty(), ' ');
    assert(request + Seq::<char>::empty() =~= request);
}

/// The requests the command line sends are carried out by a widget with a
/// controller as the command line asked: `hide` hides it, `show` shows it,
/// `look KEY` asks the controller for the value of the key, and
/// `update KEY VALUE` has the controller set the key to the value, for a
/// key without spaces.
pub proof fn lemma_cli_requests_reach_widget(key: Seq<char>, value: Seq<char>)
    requires
        !key.contains(' '),
    ensures
        ({
            let (op, cmd, args) = split_request("hide"@);
            action_for(op, cmd, args, true) == IpcActionView::Hide
        }),
        ({
            let (op, cmd, args) = split_request("show"@);
            action_for(op, cmd, args, true) == IpcActionView::Show
        }),
        ({
            let (op, cmd, args) = split_request("look "@ + key);
            action_for(op, cmd, args, true) == IpcActionView::GetType(trimmed(key))
        }),
        ({
            let (op, cmd, args) = split_request("update "@ + key + " "@ + value);
            action_for(op, cmd, args, true) == IpcActionView::ChangeVal(key, value)
        }),
{
    reveal_strlit("hide");
    reveal_strlit("show");
    reveal_strlit("look");
    reveal_strlit("look ");
    reveal_strlit("update");
    reveal_strlit("update ");
    reveal_strlit(" ");
    let hide = "hide"@;
    let show = "show"@;
    let look = "look"@;
    assert(!hide.contains(' ')) by {
        if hide.contains(' ') {
            let i = choose|i: int| 0 <= i < hide.len() && hide[i] == ' ';
            assert(hide[i] != ' ');
        }
    }
    assert(!show.contains(' ')) by {
        if show.contains(' ') {
            let i = choose|i: int| 0 <= i < show.len() && show[i] == ' ';
            assert(show[i] != ' ');
        }
    }
    assert(!look.contains(' ')) by {
        if look.contains(' ') {
            let i = choose|i: int| 0 <= i < look.len() && look[i] == ' ';
            assert(look[i] != ' ');
        }
    }
    lemma_split_without_space(hide);
    lemma_split_without_space(show);
    assert(show[0] != hide[0]);
    assert(look[0] != hide[0] && look[0] != show[0]);
    assert("update"@[0] != hide[0] && "update"@[0] != show[0]);
    // look KEY
    let req = "look "@ + key;
    assert("look "@ =~= look.push(' '));
    assert(req =~= look + (seq![' '] + key));
    lemma_find_char_after(look, seq![' '] + key, ' ');
    assert(req.subrange(0, 4) =~= look);
    assert(req.subrange(5, req.len() as int) =~= key);
    lemma_find_char_after(key, Seq::empty(), ' ');
    assert(key + Seq::<char>::empty() =~= key);
    // update KEY VALUE
    lemma_update_request_round_trip(key, value);
}

/// What `sp` sends when run with the given arguments, if it sends anything.
pub open spec fn sent_request(args: Seq<Seq<char>>) -> Option<(Seq<char>, Seq<char>)> {
    match cli_outcome(args) {
        Ok(CliCommandView::Send { socket_path, request, .. }) => Some((socket_path, request)),
        _ => None,
    }
}

/// What a widget with a controller does with a request.
pub open spec fn served_action(request: Seq<char>) -> IpcActionView {
    let (op, cmd, args) = split_request(request);
    action_for(op, cmd, args, true)
}

/// `sp -l LAYER hide|show|look KEY|update KEY VALUE` reaches the socket of
/// the widget `LAYER`, and the widget does what was asked: it hides, it
/// shows, it asks its controller for the key, it has its controller set the
/// key to the value; for a key without spaces.
pub proof fn lemma_sp_commands_reach_widget(layer: Seq<char>, key: Seq<char>, value: Seq<char>)
    requires
        !key.contains(' '),
    ensures
        sent_request(seq!["-l"@, layer, "hide"@]) == Some((ipc_socket_path(layer), "hide"@)),
        served_action("hide"@) == IpcActionView::Hide,
        sent_request(seq!["-l"@, layer, "show"@]) == Some((ipc_socket_path(layer), "show"@)),
        served_action("show"@) == IpcActionView::Show,
        sent_request(seq!["-l"@, layer, "look"@, key]) == Some(
            (ipc_socket_path(layer), "look "@ + key),
        ),
        served_action("look "@ + key) == IpcActionView::GetType(trimmed(key)),
        sent_request(seq!["-l"@, layer, "update"@, key, value]) == Some(
            (ipc_socket_path(layer), "update "@ + key + " "@ + value),
        ),
        served_action("update "@ + key + " "@ + value) == IpcActionView::ChangeVal(key, value),
{
    lemma_cli_requests_reach_widget(key, value);
    reveal_strlit("-l");
    reveal_strlit("--version");
    reveal_strlit("-v");
    reveal_strlit("update");
    reveal_strlit("look");
    reveal_strlit("show");
    reveal_strlit("hide");
    reveal_strlit("log");
    assert(trimmed("-l"@) == "-l"@);
    assert(trimmed("hide"@) == "hide"@);
    assert(trimmed("show"@) == "show"@);
    assert(trimmed("look"@) == "look"@);
    assert(trimmed("update"@) == "update"@);
    assert("-l"@ != "--version"@ && "-l"@ != "-v"@);
    assert("-l"@ != "update"@ && "-l"@ != "look"@ && "-l"@ != "show"@ && "-l"@ != "hide"@);
    assert("hide"@ != "update"@ && "hide"@ != "look"@ && "hide"@ != "show"@);
    assert("show"@ != "update"@ && "show"@ != "look"@);
    assert("look"@ != "update"@);
    let a1 = seq!["-l"@, layer, "hide"@];
    assert(a1.skip(1) =~= seq![layer, "hide"@]);
    assert(seq![layer, "hide"@].skip(2) =~= Seq::<Seq<char>>::empty());
    let a2 = seq!["-l"@, layer, "show"@];
    assert(a2.skip(1) =~= seq![layer, "show"@]);
    assert(seq![layer, "show"@].skip(2) =~= Seq::<Seq<char>>::empty());
    let a3 = seq!["-l"@, layer, "look"@, key];
    assert(a3.skip(1) =~= seq![layer, "look"@, key]);
    assert(seq![layer, "look"@, key].skip(2) =~= seq![key]);
    let a4 = seq!["-l"@, layer, "update"@, key, value];
    assert(a4.skip(1) =~= seq![layer, "update"@, key, value]);
    assert(seq![layer, "update"@, key, value].skip(2) =~= seq![key, value]);
}

} // verus!
