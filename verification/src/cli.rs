//! The command line: what the program is asked to do, and whether it can.
use crate::text::{join2, join3, occurs_at, str_eq, strip_prefix};
use vstd::prelude::*;

verus! {

/// What `--help` prints.
pub const HELP: &'static str = "polkit-tui-agent - terminal polkit authentication agent (inline TUI / tmux popup)

USAGE:
    polkit-tui-agent [OPTIONS]            inline TUI mode (default)
    polkit-tui-agent --tmux [OPTIONS]     all-in-one tmux mode (run inside a tmux pane)
    polkit-tui-agent --daemon [OPTIONS]   headless service (systemd user service)
    polkit-tui-agent --controller         tmux bridge (run inside a tmux pane)
    polkit-tui-agent --help

MODES:
    (default)     run the TUI in the current terminal
    --tmux        register and show floating tmux popups from a single process;
                  this is the primary tmux usage
    --daemon      headless background service; forwards authentication requests
                  to a controller over a unix socket (for split deployment)
    --controller  run inside a tmux pane; shows floating popups for requests
                  from the daemon (used together with --daemon)
    --prompt      internal: one-shot auth dialog spawned inside a tmux popup by
                  the controller (not for direct use)

OPTIONS:
    --locale <LOCALE>    locale passed to polkit (default: $LANG)
    --uid-session         register against the uid's graphical (display)
                          session instead of this process's own session;
                          use this when auth requests come from processes
                          outside any logind session (e.g. tmux panes
                          attached over ssh) - same behavior as a desktop
                          polkit agent
    --full-cookie-log     print full polkit cookies in logs instead of their
                          FNV-1a hash (debugging; default is the hash)

    -h, --help           print this help

TMUX MODE:
    1. run `polkit-tui-agent --tmux` inside a tmux pane (or use --daemon as a
       systemd user service plus --controller in a tmux pane)
    2. authentication requests (e.g. `pkexec ...`) then pop up as a floating
       tmux window
";

/// The locale where neither the command line nor the environment gives one.
pub const DEFAULT_LOCALE: &'static str = "en_US.UTF-8";

/// The error where there is no place for the socket.
pub const TEXT_NO_RUNTIME_DIR: &'static str =
    "XDG_RUNTIME_DIR is not set; cannot place the socket securely (run inside a systemd user session or set XDG_RUNTIME_DIR)";

/// The error where there is no terminal for the dialog.
pub const TEXT_NO_TERMINAL: &'static str =
    "no controlling terminal (/dev/tty); run inside a real tty (e.g. tmux/ssh)";

/// The options of the command line.
#[derive(Debug)]
pub struct Options {
    /// The locale for polkit's messages.
    pub locale: String,
    /// Register for the graphical session of the user.
    pub uid_session: bool,
}

/// The texts and flags of `Options`.
#[verifier::ext_equal]
pub struct OptionsView {
    pub locale: Seq<char>,
    pub uid_session: bool,
}

impl View for Options {
    type V = OptionsView;

    open spec fn view(&self) -> OptionsView {
        OptionsView { locale: self.locale@, uid_session: self.uid_session }
    }
}

/// What the command line says.
#[derive(Debug)]
pub enum Parsed {
    Options(Options),
    /// Print the help and do nothing else.
    Help,
}

/// The kind and the contents of what was parsed, or the text of the error.
#[verifier::ext_equal]
pub enum ParseView {
    Options(OptionsView),
    Help,
    Error(Seq<char>),
}

/// The view of the result of `parse_args_from`.
pub open spec fn parse_view(r: Result<Parsed, String>) -> ParseView {
    match r {
        Ok(Parsed::Options(o)) => ParseView::Options(o@),
        Ok(Parsed::Help) => ParseView::Help,
        Err(e) => ParseView::Error(e@),
    }
}

/// The texts of a list.
pub open spec fn texts(list: Seq<String>) -> Seq<Seq<char>> {
    Seq::new(list.len(), |i: int| list[i]@)
}

/// Arguments that ask for the help.
pub open spec fn asks_for_help(arg: Seq<char>) -> bool {
    arg == "-h"@ || arg == "--help"@
}

/// Arguments that are no options: they choose the mode, or how cookies are logged.
pub open spec fn is_mode_flag(arg: Seq<char>) -> bool {
    arg == "--full-cookie-log"@ || arg == "--daemon"@ || arg == "--controller"@ || arg
        == "--prompt"@ || arg == "--tmux"@
}

/// What the arguments say, on top of `opts`, read from left to right.
pub open spec fn parsed(args: Seq<Seq<char>>, opts: OptionsView) -> ParseView
    decreases args.len(),
{
    if args.len() == 0 {
        ParseView::Options(opts)
    } else if occurs_at(args[0], "--locale="@, 0) {
        parsed(
            args.skip(1),
            OptionsView { locale: args[0].skip("--locale="@.len() as int), ..opts },
        )
    } else if args[0] == "--locale"@ {
        if args.len() == 1 {
            ParseView::Error("--locale requires a value"@)
        } else {
            parsed(args.skip(2), OptionsView { locale: args[1], ..opts })
        }
    } else if args[0] == "--uid-session"@ {
        parsed(args.skip(1), OptionsView { uid_session: true, ..opts })
    } else if asks_for_help(args[0]) {
        ParseView::Help
    } else if is_mode_flag(args[0]) {
        parsed(args.skip(1), opts)
    } else {
        ParseView::Error("unknown argument: "@ + args[0])
    }
}

/// The options before any argument was read.
pub open spec fn default_options(lang: Option<&str>) -> OptionsView {
    OptionsView {
        locale: match lang {
            Some(l) => l@,
            None => DEFAULT_LOCALE@,
        },
        uid_session: false,
    }
}

/// Whether `arg` asks for the help.
fn is_help(arg: &str) -> (r: bool)
    ensures
        r == asks_for_help(arg@),
{
    str_eq(arg, "-h") || str_eq(arg, "--help")
}

/// Whether `arg` is no option but chooses a mode.
fn is_ignored(arg: &str) -> (r: bool)
    ensures
        r == is_mode_flag(arg@),
{
    str_eq(arg, "--full-cookie-log") || str_eq(arg, "--daemon") || str_eq(arg, "--controller")
        || str_eq(arg, "--prompt") || str_eq(arg, "--tmux")
}

/// Reads the options; `lang` is the locale of the environment.
pub fn parse_args_from(args: &Vec<String>, lang: Option<&str>) -> (r: Result<Parsed, String>)
    ensures
        parse_view(r) == parsed(texts(args@), default_options(lang)),
{
    let mut opts = Options {
        locale: match lang {
            Some(l) => l.to_owned(),
            None => DEFAULT_LOCALE.to_owned(),
        },
        uid_session: false,
    };
    let n = args.len();
    let mut i: usize = 0;
    assert(texts(args@).skip(0) =~= texts(args@));
    while i < n
        invariant
            i <= n,
            n == args@.len(),
            parsed(texts(args@), default_options(lang)) == parsed(texts(args@).skip(i as int), opts@),
        decreases n - i,
    {
        let arg = args[i].as_str();
        let ghost rest = texts(args@).skip(i as int);
        assert(rest[0] == arg@);
        assert(rest.skip(1) =~= texts(args@).skip(i + 1));
        assert(rest.len() >= 2 ==> rest[1] == args@[i + 1]@ && rest.skip(2) =~= texts(args@).skip(
            i + 2,
        ));
        if let Some(locale) = strip_prefix(arg, "--locale=") {
            assert(locale@ =~= arg@.skip("--locale="@.len() as int));
            opts.locale = locale;
            i = i + 1;
        } else if str_eq(arg, "--locale") {
            if i + 1 == n {
                return Err("--locale requires a value".to_owned());
            }
            opts.locale = args[i + 1].clone();
            i = i + 2;
        } else if str_eq(arg, "--uid-session") {
            opts.uid_session = true;
            i = i + 1;
        } else if is_help(arg) {
            return Ok(Parsed::Help);
        } else if is_ignored(arg) {
            i = i + 1;
        } else {
            return Err(join2("unknown argument: ", arg));
        }
    }
    Ok(Parsed::Options(opts))
}

/// Whether `flag` is one of the arguments.
fn has_flag(args: &Vec<String>, flag: &str) -> (r: bool)
    ensures
        r == texts(args@).contains(flag@),
{
    let n = args.len();
    for i in 0..n
        invariant
            n == args@.len(),
            forall|j: int| 0 <= j < i ==> texts(args@)[j] != flag@,
    {
        if str_eq(args[i].as_str(), flag) {
            assert(texts(args@)[i as int] == flag@);
            return true;
        }
    }
    false
}

/// Whether cookies are logged as they are.
pub fn wants_full_cookie(args: &Vec<String>) -> (r: bool)
    ensures
        r == texts(args@).contains("--full-cookie-log"@),
{
    has_flag(args, "--full-cookie-log")
}

/// What the program can be asked to do.
#[derive(Debug, Clone, Copy, PartialEq, Eq, Structural)]
pub enum Mode {
    /// Print the help.
    Help,
    /// The dialog in a popup.
    Prompt,
    /// The bridge between a daemon and tmux.
    Controller,
    /// The service without a terminal.
    Daemon,
    /// Service and bridge in one.
    Tmux,
    /// The dialog in this terminal.
    Inline,
}

/// What the arguments ask for: the help before anything else, then the first of the modes in this
/// order, whatever the order of the arguments.
pub open spec fn mode_of(args: Seq<Seq<char>>) -> Mode {
    if args.contains("-h"@) || args.contains("--help"@) {
        Mode::Help
    } else if args.contains("--prompt"@) {
        Mode::Prompt
    } else if args.contains("--controller"@) {
        Mode::Controller
    } else if args.contains("--daemon"@) {
        Mode::Daemon
    } else if args.contains("--tmux"@) {
        Mode::Tmux
    } else {
        Mode::Inline
    }
}

/// What the arguments ask for.
pub fn select_mode(args: &Vec<String>) -> (mode: Mode)
    ensures
        mode == mode_of(texts(args@)),
{
    if has_flag(args, "-h") || has_flag(args, "--help") {
        Mode::Help
    } else if has_flag(args, "--prompt") {
        Mode::Prompt
    } else if has_flag(args, "--controller") {
        Mode::Controller
    } else if has_flag(args, "--daemon") {
        Mode::Daemon
    } else if has_flag(args, "--tmux") {
        Mode::Tmux
    } else {
        Mode::Inline
    }
}

/// Where the socket between daemon and controller stands in the directory `dir`.
pub open spec fn socket_path_of(dir: Seq<char>) -> Seq<char> {
    dir + "/polkit-tui-agent.sock"@
}

/// Where the socket between daemon and controller stands; `dir` is the runtime directory of the
/// user. Without one there is no place that is safe.
pub fn default_socket_path(dir: Option<&str>) -> (r: Result<String, String>)
    ensures
        match dir {
            Some(d) => r matches Ok(path) && path@ == socket_path_of(d@),
            None => r matches Err(e) && e@ == TEXT_NO_RUNTIME_DIR@,
        },
{
    match dir {
        Some(d) => Ok(join2(d, "/polkit-tui-agent.sock")),
        None => Err(TEXT_NO_RUNTIME_DIR.to_owned()),
    }
}

/// The error where a mode does not run inside of tmux.
pub open spec fn outside_tmux(flag: Seq<char>) -> Seq<char> {
    "polkit-tui-agent: "@ + flag + " must run inside a tmux session"@
}

/// Makes sure that a mode that needs tmux runs inside of it.
pub fn require_tmux(in_tmux: bool, flag: &str) -> (r: Result<(), String>)
    ensures
        r is Ok <==> in_tmux,
        r matches Err(e) ==> e@ == outside_tmux(flag@),
{
    if in_tmux {
        Ok(())
    } else {
        Err(join3("polkit-tui-agent: ", flag, " must run inside a tmux session"))
    }
}

/// An error that the help may help with.
pub fn with_hint(error: &str) -> (text: String)
    ensures
        text@ == error@ + "\nTry --help"@,
{
    join2(error, "\nTry --help")
}

/// What the program finds where it was started.
#[derive(Debug)]
pub struct Surroundings {
    /// The locale of the environment.
    pub lang: Option<String>,
    /// The runtime directory of the user.
    pub runtime_dir: Option<String>,
    /// Whether this is inside of tmux.
    pub in_tmux: bool,
    /// Whether there is a terminal.
    pub has_tty: bool,
}

/// What the program does.
#[derive(Debug)]
pub enum Start {
    Help,
    Prompt,
    Controller { socket: String },
    Daemon { opts: Options, socket: String },
    Tmux { opts: Options, socket: String },
    Inline { opts: Options },
    /// Nothing, because of this error.
    Refused(String),
}

/// The kind and the contents of a `Start`.
#[verifier::ext_equal]
pub enum StartView {
    Help,
    Prompt,
    Controller { socket: Seq<char> },
    Daemon { opts: OptionsView, socket: Seq<char> },
    Tmux { opts: OptionsView, socket: Seq<char> },
    Inline { opts: OptionsView },
    Refused(Seq<char>),
}

impl View for Start {
    type V = StartView;

    open spec fn view(&self) -> StartView {
        match self {
            Start::Help => StartView::Help,
            Start::Prompt => StartView::Prompt,
            Start::Controller { socket } => StartView::Controller { socket: socket@ },
            Start::Daemon { opts, socket } => StartView::Daemon { opts: opts@, socket: socket@ },
            Start::Tmux { opts, socket } => StartView::Tmux { opts: opts@, socket: socket@ },
            Start::Inline { opts } => StartView::Inline { opts: opts@ },
            Start::Refused(e) => StartView::Refused(e@),
        }
    }
}

/// The options that the arguments give in these surroundings.
pub open spec fn options_in(args: Seq<Seq<char>>, around: Surroundings) -> ParseView {
    parsed(
        args,
        OptionsView {
            locale: match around.lang {
                Some(l) => l@,
                None => DEFAULT_LOCALE@,
            },
            uid_session: false,
        },
    )
}

/// What a service does: it needs its options and a place for its socket, in this order.
pub open spec fn service_start(args: Seq<Seq<char>>, around: Surroundings, tmux: bool) -> StartView {
    match options_in(args, around) {
        ParseView::Help => StartView::Help,
        ParseView::Error(e) => StartView::Refused(e + "\nTry --help"@),
        ParseView::Options(opts) => match around.runtime_dir {
            None => StartView::Refused(TEXT_NO_RUNTIME_DIR@),
            Some(dir) => if tmux {
                StartView::Tmux { opts, socket: socket_path_of(dir@) }
            } else {
                StartView::Daemon { opts, socket: socket_path_of(dir@) }
            },
        },
    }
}

/// What the program does when it is started with `args` in these surroundings.
pub open spec fn start_of(args: Seq<Seq<char>>, around: Surroundings) -> StartView {
    match mode_of(args) {
        Mode::Help => StartView::Help,
        Mode::Prompt => StartView::Prompt,
        Mode::Controller => match around.runtime_dir {
            None => StartView::Refused(TEXT_NO_RUNTIME_DIR@),
            Some(dir) => if around.in_tmux {
                StartView::Controller { socket: socket_path_of(dir@) }
            } else {
                StartView::Refused(outside_tmux("--controller"@))
            },
        },
        Mode::Daemon => service_start(args, around, false),
        Mode::Tmux => if around.in_tmux {
            service_start(args, around, true)
        } else {
            StartView::Refused(outside_tmux("--tmux"@))
        },
        Mode::Inline => match options_in(args, around) {
            ParseView::Help => StartView::Help,
            ParseView::Error(e) => StartView::Refused(e + "\nTry --help"@),
            ParseView::Options(opts) => if around.has_tty {
                StartView::Inline { opts }
            } else {
                StartView::Refused(TEXT_NO_TERMINAL@)
            },
        },
    }
}

/// Reads the options in these surroundings.
fn read_options(args: &Vec<String>, around: &Surroundings) -> (r: Result<Parsed, String>)
    ensures
        match options_in(texts(args@), *around) {
            ParseView::Error(e) => r matches Err(t) && t@ == e + "\nTry --help"@,
            other => r is Ok && parse_view(r) == other,
        },
{
    let lang = match &around.lang {
        Some(l) => Some(l.as_str()),
        None => None,
    };
    match parse_args_from(args, lang) {
        Ok(p) => Ok(p),
        Err(e) => Err(with_hint(e.as_str())),
    }
}

/// Where the socket stands in these surroundings.
fn find_socket(around: &Surroundings) -> (r: Result<String, String>)
    ensures
        match around.runtime_dir {
            Some(d) => r matches Ok(path) && path@ == socket_path_of(d@),
            None => r matches Err(e) && e@ == TEXT_NO_RUNTIME_DIR@,
        },
{
    let dir = match &around.runtime_dir {
        Some(d) => Some(d.as_str()),
        None => None,
    };
    default_socket_path(dir)
}

/// Decides what a service does.
fn start_service(args: &Vec<String>, around: &Surroundings, tmux: bool) -> (start: Start)
    ensures
        start@ == service_start(texts(args@), *around, tmux),
{
    match read_options(args, around) {
        Err(e) => Start::Refused(e),
        Ok(Parsed::Help) => Start::Help,
        Ok(Parsed::Options(opts)) => match find_socket(around) {
            Err(e) => Start::Refused(e),
            Ok(socket) => {
                if tmux {
                    Start::Tmux { opts, socket }
                } else {
                    Start::Daemon { opts, socket }
                }
            },
        },
    }
}

/// Decides what the program does when it is started with `args` in these surroundings.
pub fn start(args: &Vec<String>, around: &Surroundings) -> (start: Start)
    ensures
        start@ == start_of(texts(args@), *around),
{
    match select_mode(args) {
        Mode::Help => Start::Help,
        Mode::Prompt => Start::Prompt,
        Mode::Controller => match find_socket(around) {
            Err(e) => Start::Refused(e),
            Ok(socket) => match require_tmux(around.in_tmux, "--controller") {
                Ok(_) => Start::Controller { socket },
                Err(e) => Start::Refused(e),
            },
        },
        Mode::Daemon => start_service(args, around, false),
        Mode::Tmux => match require_tmux(around.in_tmux, "--tmux") {
            Ok(_) => start_service(args, around, true),
            Err(e) => Start::Refused(e),
        },
        Mode::Inline => match read_options(args, around) {
            Err(e) => Start::Refused(e),
            Ok(Parsed::Help) => Start::Help,
            Ok(Parsed::Options(opts)) => {
                if around.has_tty {
                    Start::Inline { opts }
                } else {
                    Start::Refused(TEXT_NO_TERMINAL.to_owned())
                }
            },
        },
    }
}

/// The help comes before everything else, whatever the other arguments are.
pub proof fn law_help_comes_first(args: Seq<Seq<char>>, around: Surroundings, arg: Seq<char>)
    requires
        args.contains(arg),
        asks_for_help(arg),
    ensures
        start_of(args, around) == StartView::Help,
{
}

/// The order of the arguments does not matter for the mode.
pub proof fn law_mode_ignores_order(a: Seq<Seq<char>>, b: Seq<Seq<char>>)
    requires
        forall|arg: Seq<char>| a.contains(arg) <==> b.contains(arg),
    ensures
        mode_of(a) == mode_of(b),
{
}

/// `--locale=X` and `--locale X` mean the same.
pub proof fn law_locale_forms_agree(
    locale: Seq<char>,
    rest: Seq<Seq<char>>,
    opts: OptionsView,
)
    ensures
        parsed(seq!["--locale="@ + locale] + rest, opts) == parsed(rest, OptionsView { locale, ..opts }),
        parsed(seq!["--locale"@, locale] + rest, opts) == parsed(rest, OptionsView { locale, ..opts }),
{
    reveal_strlit("--locale=");
    reveal_strlit("--locale");
    let joined = seq!["--locale="@ + locale] + rest;
    assert(joined.skip(1) =~= rest);
    assert(joined[0].subrange(0, "--locale="@.len() as int) =~= "--locale="@);
    assert(occurs_at(joined[0], "--locale="@, 0));
    assert(joined[0].skip("--locale="@.len() as int) =~= locale);
    let split = seq!["--locale"@, locale] + rest;
    assert(split.skip(2) =~= rest);
}

/// Of several locales the last one counts.
pub proof fn law_last_locale_counts(
    first: Seq<char>,
    second: Seq<char>,
    rest: Seq<Seq<char>>,
    opts: OptionsView,
)
    ensures
        parsed(seq!["--locale="@ + first, "--locale="@ + second] + rest, opts) == parsed(
            seq!["--locale="@ + second] + rest,
            opts,
        ),
{
    law_locale_forms_agree(first, seq!["--locale="@ + second] + rest, opts);
    law_locale_forms_agree(second, rest, opts);
    law_locale_forms_agree(second, rest, OptionsView { locale: first, ..opts });
    assert(seq!["--locale="@ + first] + (seq!["--locale="@ + second] + rest) =~= seq![
        "--locale="@ + first,
        "--locale="@ + second,
    ] + rest);
}

/// Arguments that choose a mode are no options: the options are the same without them.
pub proof fn law_mode_flags_are_no_options(
    flag: Seq<char>,
    rest: Seq<Seq<char>>,
    opts: OptionsView,
)
    requires
        is_mode_flag(flag),
    ensures
        parsed(seq![flag] + rest, opts) == parsed(rest, opts),
{
    reveal_strlit("--locale=");
    reveal_strlit("--locale");
    reveal_strlit("--uid-session");
    reveal_strlit("-h");
    reveal_strlit("--help");
    reveal_strlit("--full-cookie-log");
    reveal_strlit("--daemon");
    reveal_strlit("--controller");
    reveal_strlit("--prompt");
    reveal_strlit("--tmux");
    let all = seq![flag] + rest;
    assert(all.skip(1) =~= rest);
    assert(flag[2] != 'l');
    assert("--locale="@[2] == 'l');
    assert("--locale"@[2] == 'l');
    assert("--uid-session"@[2] == 'u');
    assert(flag[2] != 'u');
    assert("--help"@[2] == 'h');
    assert(flag[2] != 'h');
}

/// No mode that puts a socket somewhere is started without the runtime directory of the user, and
/// no mode that needs tmux outside of it.
pub proof fn law_services_need_their_surroundings(args: Seq<Seq<char>>, around: Surroundings)
    ensures
        start_of(args, around) matches StartView::Controller { socket } ==> around.in_tmux
            && around.runtime_dir is Some && socket == socket_path_of(around.runtime_dir->Some_0@),
        start_of(args, around) matches StartView::Tmux { socket, .. } ==> around.in_tmux
            && around.runtime_dir is Some && socket == socket_path_of(around.runtime_dir->Some_0@),
        start_of(args, around) matches StartView::Daemon { socket, .. } ==> around.runtime_dir
            is Some && socket == socket_path_of(around.runtime_dir->Some_0@),
        start_of(args, around) is Inline ==> around.has_tty,
{
}

/// Arguments are read one after the other: what the first ones say is the beginning of what all of
/// them say.
pub proof fn law_arguments_are_read_in_order(
    a: Seq<Seq<char>>,
    b: Seq<Seq<char>>,
    opts: OptionsView,
)
    ensures
        parsed(a, opts) matches ParseView::Options(read) ==> parsed(a + b, opts) == parsed(b, read),
        parsed(a, opts) == ParseView::Help ==> parsed(a + b, opts) == ParseView::Help,
        parsed(Seq::empty(), opts) == ParseView::Options(opts),
    decreases a.len(),
{
    let all = a + b;
    if a.len() == 0 {
        assert(all =~= b);
    } else {
        assert(all[0] == a[0]);
        assert(all.skip(1) =~= a.skip(1) + b);
        if occurs_at(a[0], "--locale="@, 0) {
            law_arguments_are_read_in_order(
                a.skip(1),
                b,
                OptionsView { locale: a[0].skip("--locale="@.len() as int), ..opts },
            );
        } else if a[0] == "--locale"@ {
            if a.len() > 1 {
                assert(all[1] == a[1]);
                assert(all.skip(2) =~= a.skip(2) + b);
                law_arguments_are_read_in_order(
                    a.skip(2),
                    b,
                    OptionsView { locale: a[1], ..opts },
                );
            }
        } else if a[0] == "--uid-session"@ {
            law_arguments_are_read_in_order(a.skip(1), b, OptionsView { uid_session: true, ..opts });
        } else {
            law_arguments_are_read_in_order(a.skip(1), b, opts);
        }
    }
}

/// What each argument alone says: a session flag, a locale, the help, a mode; a locale without a
/// value and an argument that is not known are errors that name it.
pub proof fn law_what_each_argument_says(
    rest: Seq<Seq<char>>,
    opts: OptionsView,
    locale: Seq<char>,
    other: Seq<char>,
)
    ensures
        parsed(seq!["--uid-session"@] + rest, opts) == parsed(
            rest,
            OptionsView { uid_session: true, ..opts },
        ),
        parsed(seq!["--locale"@, locale] + rest, opts) == parsed(rest, OptionsView { locale, ..opts }),
        parsed(seq!["--locale="@ + locale] + rest, opts) == parsed(
            rest,
            OptionsView { locale, ..opts },
        ),
        parsed(seq!["--locale"@], opts) == ParseView::Error("--locale requires a value"@),
        parsed(seq!["-h"@] + rest, opts) == ParseView::Help,
        parsed(seq!["--help"@] + rest, opts) == ParseView::Help,
        (!occurs_at(other, "--locale="@, 0) && other != "--locale"@ && other != "--uid-session"@
            && other != "-h"@ && other != "--help"@ && other != "--full-cookie-log"@ && other
            != "--daemon"@ && other != "--controller"@ && other != "--prompt"@ && other != "--tmux"@)
            ==> parsed(seq![other] + rest, opts) == ParseView::Error("unknown argument: "@ + other),
        parsed(seq!["--full-cookie-log"@] + rest, opts) == parsed(rest, opts),
        parsed(seq!["--daemon"@] + rest, opts) == parsed(rest, opts),
        parsed(seq!["--controller"@] + rest, opts) == parsed(rest, opts),
        parsed(seq!["--prompt"@] + rest, opts) == parsed(rest, opts),
        parsed(seq!["--tmux"@] + rest, opts) == parsed(rest, opts),
{
    reveal_strlit("--locale=");
    reveal_strlit("--locale");
    reveal_strlit("--uid-session");
    reveal_strlit("-h");
    reveal_strlit("--help");
    law_locale_forms_agree(locale, rest, opts);
    law_mode_flags_are_no_options("--full-cookie-log"@, rest, opts);
    law_mode_flags_are_no_options("--daemon"@, rest, opts);
    law_mode_flags_are_no_options("--controller"@, rest, opts);
    law_mode_flags_are_no_options("--prompt"@, rest, opts);
    law_mode_flags_are_no_options("--tmux"@, rest, opts);
    assert("--locale="@[2] == 'l' && "--locale"@[2] == 'l');
    assert("--uid-session"@[2] == 'u' && "--help"@[2] == 'h');
    let uid = seq!["--uid-session"@] + rest;
    assert(uid.skip(1) =~= rest);
    assert(!occurs_at(uid[0], "--locale="@, 0)) by {
        if occurs_at(uid[0], "--locale="@, 0) {
            assert(uid[0].subrange(0, 9)[2] == 'u');
        }
    }
    let h = seq!["-h"@] + rest;
    assert(h[0].len() == 2);
    let help = seq!["--help"@] + rest;
    assert(help[0].len() == 6);
    assert("--locale"@.len() == 8 && "--locale="@.len() == 9 && "--uid-session"@.len() == 13);
    let alone = seq!["--locale"@];
    assert(alone[0].len() == 8);
    let unknown = seq![other] + rest;
    assert(unknown[0] == other);
}

/// A session flag is never lost: where it was read, no later argument takes it back, and where
/// neither it nor anything before asked for it, it is not set.
pub proof fn law_session_flag_is_kept(args: Seq<Seq<char>>, opts: OptionsView)
    ensures
        parsed(args, opts) matches ParseView::Options(read) ==> {
            &&& opts.uid_session ==> read.uid_session
            &&& read.uid_session && !opts.uid_session ==> args.contains("--uid-session"@)
        },
    decreases args.len(),
{
    if args.len() > 0 {
        let rest = args.skip(1);
        assert(forall|x: Seq<char>| rest.contains(x) ==> args.contains(x)) by {
            assert forall|x: Seq<char>| rest.contains(x) implies args.contains(x) by {
                let k = rest.index_of(x);
                assert(args[k + 1] == x);
            }
        }
        if occurs_at(args[0], "--locale="@, 0) {
            law_session_flag_is_kept(
                rest,
                OptionsView { locale: args[0].skip("--locale="@.len() as int), ..opts },
            );
        } else if args[0] == "--locale"@ {
            if args.len() > 1 {
                let later = args.skip(2);
                assert forall|x: Seq<char>| later.contains(x) implies args.contains(x) by {
                    let k = later.index_of(x);
                    assert(args[k + 2] == x);
                }
                law_session_flag_is_kept(later, OptionsView { locale: args[1], ..opts });
            }
        } else if args[0] == "--uid-session"@ {
            assert(args.contains(args[0]));
            law_session_flag_is_kept(rest, OptionsView { uid_session: true, ..opts });
        } else {
            law_session_flag_is_kept(rest, opts);
        }
    }
}

/// A flag that stands where an argument is expected counts, whatever follows it that can be read.
pub proof fn law_session_flag_counts(a: Seq<Seq<char>>, b: Seq<Seq<char>>, opts: OptionsView)
    requires
        parsed(a, opts) is Options,
    ensures
        parsed(a + seq!["--uid-session"@] + b, opts) matches ParseView::Options(read)
            ==> read.uid_session,
{
    let tail = seq!["--uid-session"@] + b;
    let read = parsed(a, opts)->Options_0;
    law_arguments_are_read_in_order(a, tail, opts);
    assert(a + tail =~= a + seq!["--uid-session"@] + b);
    law_what_each_argument_says(b, read, Seq::empty(), Seq::empty());
    law_session_flag_is_kept(b, OptionsView { uid_session: true, ..read });
}

/// Whatever mode is started has the options that the arguments give, unchanged, and without a locale
/// among them that of the environment, or else the default.
pub proof fn law_modes_have_their_options(args: Seq<Seq<char>>, around: Surroundings)
    ensures
        start_of(args, around) matches StartView::Tmux { opts, .. } ==> options_in(args, around)
            == ParseView::Options(opts),
        start_of(args, around) matches StartView::Daemon { opts, .. } ==> options_in(args, around)
            == ParseView::Options(opts),
        start_of(args, around) matches StartView::Inline { opts } ==> options_in(args, around)
            == ParseView::Options(opts),
        around.lang matches Some(lang) ==> options_in(args, around) == parsed(
            args,
            OptionsView { locale: lang@, uid_session: false },
        ),
        around.lang is None ==> options_in(args, around) == parsed(
            args,
            OptionsView { locale: "en_US.UTF-8"@, uid_session: false },
        ),
        default_options(None) == (OptionsView { locale: "en_US.UTF-8"@, uid_session: false }),
        forall|l: &str| #[trigger]
            default_options(Some(l)) == (OptionsView { locale: l@, uid_session: false }),
{
}

/// Which mode is started: the one that was asked for, the first of them in this order where several
/// were, and the dialog in this terminal where none was.
pub proof fn law_which_mode(args: Seq<Seq<char>>)
    ensures
        ({
            let help = args.contains("-h"@) || args.contains("--help"@);
            let prompt = args.contains("--prompt"@);
            let controller = args.contains("--controller"@);
            let daemon = args.contains("--daemon"@);
            let tmux = args.contains("--tmux"@);
            &&& mode_of(args) == Mode::Help <==> help
            &&& mode_of(args) == Mode::Prompt <==> !help && prompt
            &&& mode_of(args) == Mode::Controller <==> !help && !prompt && controller
            &&& mode_of(args) == Mode::Daemon <==> !help && !prompt && !controller && daemon
            &&& mode_of(args) == Mode::Tmux <==> !help && !prompt && !controller && !daemon && tmux
            &&& mode_of(args) == Mode::Inline <==> !help && !prompt && !controller && !daemon && !tmux
        }),
{
}

/// Where nothing stands in the way, the mode that was asked for is started.
pub proof fn law_modes_are_started(args: Seq<Seq<char>>, around: Surroundings)
    ensures
        start_of(args, around) is Help <==> mode_of(args) == Mode::Help || (options_in(args, around)
            == ParseView::Help && (mode_of(args) == Mode::Inline || mode_of(args) == Mode::Daemon || (
        mode_of(args) == Mode::Tmux && around.in_tmux))),
        start_of(args, around) is Prompt <==> mode_of(args) == Mode::Prompt,
        start_of(args, around) is Controller <==> mode_of(args) == Mode::Controller && around.in_tmux
            && around.runtime_dir is Some,
        start_of(args, around) is Daemon <==> mode_of(args) == Mode::Daemon && options_in(args, around)
            is Options && around.runtime_dir is Some,
        start_of(args, around) is Tmux <==> mode_of(args) == Mode::Tmux && around.in_tmux
            && options_in(args, around) is Options && around.runtime_dir is Some,
        start_of(args, around) is Inline <==> mode_of(args) == Mode::Inline && options_in(args, around)
            is Options && around.has_tty,
{
}

/// Where something stands in the way, it is said: tmux is missed first where a mode needs it, then
/// come wrong arguments, with a hint at the help, and then the place for the socket or the terminal.
pub proof fn law_why_nothing_is_started(args: Seq<Seq<char>>, around: Surroundings, e: Seq<char>)
    ensures
        ({
            let start = start_of(args, around);
            let mode = mode_of(args);
            let wrong = options_in(args, around) == ParseView::Error(e);
            let options = options_in(args, around) is Options;
            &&& mode == Mode::Tmux && !around.in_tmux ==> start == StartView::Refused(
                "polkit-tui-agent: "@ + "--tmux"@ + " must run inside a tmux session"@,
            )
            &&& wrong && (mode == Mode::Daemon || mode == Mode::Inline || (mode == Mode::Tmux
                && around.in_tmux)) ==> start == StartView::Refused(e + "\nTry --help"@)
            &&& options && around.runtime_dir is None && (mode == Mode::Daemon || (mode == Mode::Tmux
                && around.in_tmux)) ==> start == StartView::Refused(
                "XDG_RUNTIME_DIR is not set; cannot place the socket securely (run inside a systemd user session or set XDG_RUNTIME_DIR)"@,
            )
            &&& mode == Mode::Controller && around.runtime_dir is None ==> start == StartView::Refused(
                "XDG_RUNTIME_DIR is not set; cannot place the socket securely (run inside a systemd user session or set XDG_RUNTIME_DIR)"@,
            )
            &&& mode == Mode::Controller && around.runtime_dir is Some && !around.in_tmux ==> start
                == StartView::Refused(
                "polkit-tui-agent: "@ + "--controller"@ + " must run inside a tmux session"@,
            )
            &&& mode == Mode::Inline && options && !around.has_tty ==> start == StartView::Refused(
                "no controlling terminal (/dev/tty); run inside a real tty (e.g. tmux/ssh)"@,
            )
        }),
        forall|dir: Seq<char>| #[trigger]
            socket_path_of(dir) == dir + "/polkit-tui-agent.sock"@,
        forall|flag: Seq<char>| #[trigger]
            outside_tmux(flag) == "polkit-tui-agent: "@ + flag + " must run inside a tmux session"@,
{
}

/// Nothing of options or of a start is lost in its view.
pub proof fn law_views_hold_everything(o: Options, t: String, list: Seq<String>, i: int)
    ensures
        o@.locale == o.locale@,
        o@.uid_session == o.uid_session,
        parse_view(Ok(Parsed::Options(o))) == ParseView::Options(o@),
        parse_view(Ok(Parsed::Help)) == ParseView::Help,
        parse_view(Err(t)) == ParseView::Error(t@),
        Start::Help@ == StartView::Help,
        Start::Prompt@ == StartView::Prompt,
        (Start::Controller { socket: t })@ == (StartView::Controller { socket: t@ }),
        (Start::Daemon { opts: o, socket: t })@ == (StartView::Daemon { opts: o@, socket: t@ }),
        (Start::Tmux { opts: o, socket: t })@ == (StartView::Tmux { opts: o@, socket: t@ }),
        (Start::Inline { opts: o })@ == (StartView::Inline { opts: o@ }),
        Start::Refused(t)@ == StartView::Refused(t@),
        texts(list).len() == list.len(),
        0 <= i < list.len() ==> texts(list)[i] == list[i]@,
{
}

/// What the calls about the command line give.
pub proof fn law_calls_about_the_command_line()
    ensures
        forall|args: &Vec<String>, lang: Option<&str>, r: Result<Parsed, String>| #[trigger]
            call_ensures(parse_args_from, (args, lang), r) ==> parse_view(r) == parsed(
                texts(args@),
                default_options(lang),
            ),
        forall|args: &Vec<String>, mode: Mode| #[trigger]
            call_ensures(select_mode, (args,), mode) ==> mode == mode_of(texts(args@)),
        forall|args: &Vec<String>, r: bool| #[trigger]
            call_ensures(wants_full_cookie, (args,), r) ==> r == texts(args@).contains(
                "--full-cookie-log"@,
            ),
        forall|dir: Option<&str>, r: Result<String, String>| #[trigger]
            call_ensures(default_socket_path, (dir,), r) ==> {
                &&& dir is Some ==> r is Ok && r->Ok_0@ == socket_path_of(dir->Some_0@)
                &&& dir is None ==> r is Err && r->Err_0@ == TEXT_NO_RUNTIME_DIR@
            },
        forall|inside: bool, flag: &str, r: Result<(), String>| #[trigger]
            call_ensures(require_tmux, (inside, flag), r) ==> {
                &&& r is Ok <==> inside
                &&& r is Err ==> r->Err_0@ == outside_tmux(flag@)
            },
        forall|e: &str, t: String| #[trigger]
            call_ensures(with_hint, (e,), t) ==> t@ == e@ + "\nTry --help"@,
        forall|args: &Vec<String>, around: &Surroundings, s: Start| #[trigger]
            call_ensures(start, (args, around), s) ==> s@ == start_of(texts(args@), *around),
{
}

} // verus!
