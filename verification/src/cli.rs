//! The program's front door: reading the command line, reporting quick-mode
//! failures, and the replies of the window's commands.

use crate::text::{decimal, push_decimal, same_text, strings_view};
use crate::paths::opt_view;
use vstd::prelude::*;

verus! {

/// The JPEG quality used by quick mode.
pub const QUICK_QUALITY: u8 = 85;

/// What the command line asks for.
#[derive(Debug, PartialEq, Eq)]
pub enum CliCommand {
    /// Convert `files` to `format` with JPEG quality `quality`, next to each
    /// input, without opening a window.
    Quick { format: String, files: Vec<String>, quality: u8 },
    /// Add the Explorer right-click menu.
    RegisterContextMenu,
    /// Remove the Explorer right-click menu.
    UnregisterContextMenu,
    /// Nothing the command line handles: open the window.
    StartGui,
}

pub enum CliCommandView {
    Quick { format: Seq<char>, files: Seq<Seq<char>>, quality: u8 },
    RegisterContextMenu,
    UnregisterContextMenu,
    StartGui,
}

impl View for CliCommand {
    type V = CliCommandView;

    open spec fn view(&self) -> CliCommandView {
        match self {
            CliCommand::Quick { format, files, quality } => CliCommandView::Quick {
                format: format@,
                files: strings_view(files@),
                quality: *quality,
            },
            CliCommand::RegisterContextMenu => CliCommandView::RegisterContextMenu,
            CliCommand::UnregisterContextMenu => CliCommandView::UnregisterContextMenu,
            CliCommand::StartGui => CliCommandView::StartGui,
        }
    }
}

/// The meaning of the arguments (without the program name):
/// `--quick <format> <file>...` with at least one file converts quietly;
/// `--register-context-menu` and `--unregister-context-menu` change the menu
/// where the platform has one; anything else opens the window.
pub open spec fn spec_handle_cli(args: Seq<Seq<char>>, context_menu_supported: bool) -> CliCommandView {
    if args.len() >= 3 && args[0] == "--quick"@ {
        CliCommandView::Quick { format: args[1], files: args.skip(2), quality: QUICK_QUALITY }
    } else if args.len() >= 1 && args[0] == "--register-context-menu"@ && context_menu_supported {
        CliCommandView::RegisterContextMenu
    } else if args.len() >= 1 && args[0] == "--unregister-context-menu"@ && context_menu_supported {
        CliCommandView::UnregisterContextMenu
    } else {
        CliCommandView::StartGui
    }
}

/// Reads the command line `args` (without the program name). Only a platform
/// with the right-click menu (`context_menu_supported`) knows its two options.
pub fn handle_cli(args: &[String], context_menu_supported: bool) -> (r: CliCommand)
    ensures
        r@ == spec_handle_cli(strings_view(args@), context_menu_supported),
{
    let ghost a = strings_view(args@);
    if args.len() == 0 {
        return CliCommand::StartGui;
    }
    let first = args[0].as_str();
    if args.len() >= 3 && same_text(first, "--quick") {
        let mut files: Vec<String> = Vec::new();
        let mut i: usize = 2;
        while i < args.len()
            invariant
                2 <= i <= args@.len(),
                a == strings_view(args@),
                strings_view(files@) =~= a.subrange(2, i as int),
            decreases args@.len() - i,
        {
            let ghost before = files@;
            files.push(args[i].clone());
            assert(strings_view(files@) =~= strings_view(before).push(args@[i as int]@));
            assert(a[i as int] == args@[i as int]@);
            assert(a.subrange(2, i + 1) =~= a.subrange(2, i as int).push(a[i as int]));
            i += 1;
        }
        assert(a.skip(2) =~= a.subrange(2, args@.len() as int));
        CliCommand::Quick { format: args[1].clone(), files, quality: QUICK_QUALITY }
    } else if context_menu_supported && same_text(first, "--register-context-menu") {
        CliCommand::RegisterContextMenu
    } else if context_menu_supported && same_text(first, "--unregister-context-menu") {
        CliCommand::UnregisterContextMenu
    } else {
        CliCommand::StartGui
    }
}

/// Texts joined with a separator between each two.
pub open spec fn join_with(parts: Seq<Seq<char>>, sep: Seq<char>) -> Seq<char>
    decreases parts.len(),
{
    if parts.len() == 0 {
        Seq::empty()
    } else if parts.len() == 1 {
        parts[0]
    } else {
        join_with(parts.drop_last(), sep) + sep + parts.last()
    }
}

/// One failure of quick mode: the file, then the error indented on the next line.
pub open spec fn spec_failure_entry(file: Seq<char>, error: Seq<char>) -> Seq<char> {
    file + "\n  "@ + error
}

/// The line for one file that quick mode could not convert.
pub fn quick_failure_entry(file: &str, error: &str) -> (r: String)
    ensures
        r@ == spec_failure_entry(file@, error@),
{
    let mut s = String::from_str(file);
    s.append("\n  ");
    s.append(error);
    s
}

/// The alert after quick mode: none when every file was converted, else the
/// number of failures and each failure, separated by blank lines.
pub open spec fn spec_failure_alert(entries: Seq<Seq<char>>) -> Option<Seq<char>> {
    if entries.len() == 0 {
        None
    } else {
        Some("Failed to convert "@ + decimal(entries.len()) + " file(s):\n\n"@ + join_with(entries, "\n\n"@))
    }
}

/// The alert to show for the failures of quick mode, if there were any.
pub fn quick_failure_alert(entries: &Vec<String>) -> (r: Option<String>)
    ensures
        opt_view(r) == spec_failure_alert(strings_view(entries@)),
{
    let n = entries.len();
    if n == 0 {
        return None;
    }
    let ghost parts = strings_view(entries@);
    let mut body = String::new();
    let mut i: usize = 0;
    while i < n
        invariant
            n == entries@.len(),
            parts == strings_view(entries@),
            i <= n,
            body@ =~= join_with(parts.take(i as int), "\n\n"@),
        decreases n - i,
    {
        if i > 0 {
            body.append("\n\n");
        }
        body.append(entries[i].as_str());
        assert(parts.take(i + 1).drop_last() =~= parts.take(i as int));
        i += 1;
    }
    assert(parts.take(n as int) =~= parts);
    let mut s = String::from_str("Failed to convert ");
    push_decimal(&mut s, n as u64);
    s.append(" file(s):\n\n");
    s.append(body.as_str());
    Some(s)
}

/// The alert when the right-click menu could not be added (`register`) or removed.
pub open spec fn spec_menu_alert(register: bool, error: Seq<char>) -> Seq<char> {
    if register {
        "Could not add the right-click menu: "@ + error
    } else {
        "Could not remove the right-click menu: "@ + error
    }
}

/// The alert when the right-click menu could not be added (`register`) or removed.
pub fn context_menu_failure_alert(register: bool, error: &str) -> (r: String)
    ensures
        r@ == spec_menu_alert(register, error@),
{
    let mut s = if register {
        String::from_str("Could not add the right-click menu: ")
    } else {
        String::from_str("Could not remove the right-click menu: ")
    };
    s.append(error);
    s
}

/// The outcome of one file, as the window is told it.
#[derive(Debug, PartialEq, Eq)]
pub struct FileResult {
    pub input: String,
    pub output: Option<String>,
    pub ok: bool,
    pub error: Option<String>,
}

/// The report for `input` from the outcome of its conversion: the output path
/// on success, the error otherwise.
pub fn file_result(input: &str, outcome: Result<String, String>) -> (r: FileResult)
    ensures
        r.input@ == input@,
        r.ok == (outcome is Ok),
        outcome matches Ok(p) ==> opt_view(r.output) == Some(p@) && r.error is None,
        outcome matches Err(e) ==> r.output is None && opt_view(r.error) == Some(e@),
{
    match outcome {
        Ok(p) => FileResult { input: String::from_str(input), output: Some(p), ok: true, error: None },
        Err(e) => FileResult { input: String::from_str(input), output: None, ok: false, error: Some(e) },
    }
}

/// Whether the right-click menu exists on this platform, and whether it is on.
#[derive(Debug, Clone, Copy, PartialEq, Eq)]
pub struct ContextMenuStatus {
    pub supported: bool,
    pub enabled: bool,
}

/// The menu's status: it can only be on where it is supported; `marker_present`
/// tells whether the key that marks it as on was found.
pub fn context_menu_status(supported: bool, marker_present: bool) -> (r: ContextMenuStatus)
    ensures
        r.supported == supported,
        r.enabled == (supported && marker_present),
{
    ContextMenuStatus { supported, enabled: supported && marker_present }
}

/// A change of the right-click menu.
#[derive(Debug, Clone, Copy, PartialEq, Eq)]
pub enum ContextMenuChange {
    Enable,
    Disable,
}

/// What a request to turn the menu on (`enabled`) or off does: the change to
/// make, or an error where the platform has no such menu.
pub fn context_menu_change(supported: bool, enabled: bool) -> (r: Result<ContextMenuChange, String>)
    ensures
        !supported ==> (r matches Err(e) && e@ == "Not supported on this platform"@),
        supported ==> (r matches Ok(c) && (c is Enable <==> enabled)),
{
    if !supported {
        Err(String::from_str("Not supported on this platform"))
    } else if enabled {
        Ok(ContextMenuChange::Enable)
    } else {
        Ok(ContextMenuChange::Disable)
    }
}

/// The reply to a request to turn the menu on or off once the change was
/// made: the new setting, or the change's error.
pub fn context_menu_reply(enabled: bool, applied: Result<(), String>) -> (r: Result<bool, String>)
    ensures
        applied is Ok ==> r == Ok::<bool, String>(enabled),
        applied matches Err(e) ==> (r matches Err(f) && f@ == e@),
{
    match applied {
        Ok(()) => Ok(enabled),
        Err(e) => Err(e),
    }
}

/// Without arguments, or with arguments the program does not know, the window opens.
pub proof fn lemma_unknown_arguments_open_window(args: Seq<Seq<char>>, supported: bool)
    requires
        args.len() == 0 || (args[0] != "--quick"@ && args[0] != "--register-context-menu"@
            && args[0] != "--unregister-context-menu"@),
    ensures
        spec_handle_cli(args, supported) == CliCommandView::StartGui,
{
}

/// Quick mode converts every file after the format, in order, at quality 85.
pub proof fn lemma_quick_mode_files(args: Seq<Seq<char>>, supported: bool, i: int)
    requires
        args.len() >= 3,
        args[0] == "--quick"@,
        2 <= i < args.len(),
    ensures
        spec_handle_cli(args, supported) matches CliCommandView::Quick { format, files, quality }
            && format == args[1] && files.len() == args.len() - 2 && files[i - 2] == args[i]
            && quality == 85,
{
}

/// The alert names as many failures as there were, and there is one exactly
/// when at least one file failed.
pub proof fn lemma_alert_counts_failures(entries: Seq<Seq<char>>)
    ensures
        spec_failure_alert(entries) is Some <==> entries.len() > 0,
        entries.len() > 0 ==> spec_failure_alert(entries)->0.subrange(
            18,
            (18 + decimal(entries.len()).len()) as int,
        ) == decimal(entries.len()),
{
    reveal_strlit("Failed to convert ");
    if entries.len() > 0 {
        let a = spec_failure_alert(entries)->0;
        assert(a.subrange(18, (18 + decimal(entries.len()).len()) as int) =~= decimal(entries.len()));
    }
}

/// Running what the command line asks for, one outside step at a time:
/// converting each file of quick mode, changing the right-click menu, showing
/// an alert.
#[derive(Debug, PartialEq, Eq)]
pub enum CliRun {
    /// Quick mode; `files[next]` is converted next, `failures` holds the alert
    /// lines of the files that failed so far, in order.
    Converting { format: String, files: Vec<String>, quality: u8, next: usize, failures: Vec<String> },
    /// The menu is to be added (`register`) or removed.
    ChangingMenu { register: bool },
    /// This alert is to be shown; then the run is over.
    Alerting { message: String },
    /// The run is over; `true` when the command line was handled and no window opens.
    Done(bool),
}

pub enum CliRunView {
    Converting { format: Seq<char>, files: Seq<Seq<char>>, quality: u8, next: nat, failures: Seq<Seq<char>> },
    ChangingMenu { register: bool },
    Alerting { message: Seq<char> },
    Done(bool),
}

impl View for CliRun {
    type V = CliRunView;

    open spec fn view(&self) -> CliRunView {
        match self {
            CliRun::Converting { format, files, quality, next, failures } => CliRunView::Converting {
                format: format@,
                files: strings_view(files@),
                quality: *quality,
                next: *next as nat,
                failures: strings_view(failures@),
            },
            CliRun::ChangingMenu { register } => CliRunView::ChangingMenu { register: *register },
            CliRun::Alerting { message } => CliRunView::Alerting { message: message@ },
            CliRun::Done(b) => CliRunView::Done(*b),
        }
    }
}

/// What the run asks of its caller.
#[derive(Debug, PartialEq, Eq)]
pub enum CliAction {
    /// Convert `file` to `format` at quality `quality`, next to the input.
    ConvertFile { file: String, format: String, quality: u8 },
    /// Add the right-click menu.
    EnableMenu,
    /// Remove the right-click menu.
    DisableMenu,
    /// Show this error alert.
    ShowAlert(String),
    /// The run is over; `true` when no window is to open.
    Finish(bool),
}

pub enum CliActionView {
    ConvertFile { file: Seq<char>, format: Seq<char>, quality: u8 },
    EnableMenu,
    DisableMenu,
    ShowAlert(Seq<char>),
    Finish(bool),
}

impl View for CliAction {
    type V = CliActionView;

    open spec fn view(&self) -> CliActionView {
        match self {
            CliAction::ConvertFile { file, format, quality } => CliActionView::ConvertFile {
                file: file@,
                format: format@,
                quality: *quality,
            },
            CliAction::EnableMenu => CliActionView::EnableMenu,
            CliAction::DisableMenu => CliActionView::DisableMenu,
            CliAction::ShowAlert(m) => CliActionView::ShowAlert(m@),
            CliAction::Finish(b) => CliActionView::Finish(*b),
        }
    }
}

/// What the caller reports back.
pub enum CliEvent {
    /// The conversion of the file asked for ended with this result.
    Converted(Result<String, String>),
    /// The menu change asked for ended with this result.
    MenuChanged(Result<(), String>),
    /// The alert was shown.
    AlertShown,
}

/// Quick mode after `next` files: on with the next file, or, when all are
/// done, the alert of the failures if there were any, else the end.
pub open spec fn after_file(
    format: Seq<char>,
    files: Seq<Seq<char>>,
    quality: u8,
    next: nat,
    failures: Seq<Seq<char>>,
) -> CliRunView {
    if next < files.len() {
        CliRunView::Converting { format, files, quality, next, failures }
    } else {
        match spec_failure_alert(failures) {
            Some(m) => CliRunView::Alerting { message: m },
            None => CliRunView::Done(true),
        }
    }
}

/// How a run starts for a command.
pub open spec fn run_start(cmd: CliCommandView) -> CliRunView {
    match cmd {
        CliCommandView::Quick { format, files, quality } => after_file(format, files, quality, 0, Seq::empty()),
        CliCommandView::RegisterContextMenu => CliRunView::ChangingMenu { register: true },
        CliCommandView::UnregisterContextMenu => CliRunView::ChangingMenu { register: false },
        CliCommandView::StartGui => CliRunView::Done(false),
    }
}

/// The failures after one more file: its line is added when it failed.
pub open spec fn failures_after(failures: Seq<Seq<char>>, file: Seq<char>, outcome: Result<String, String>) -> Seq<Seq<char>> {
    match outcome {
        Ok(_) => failures,
        Err(e) => failures.push(spec_failure_entry(file, e@)),
    }
}

/// One step of a run on an event. An event that does not answer what was
/// asked leaves the run as it is.
pub open spec fn run_step(s: CliRunView, ev: CliEvent) -> CliRunView {
    match s {
        CliRunView::Converting { format, files, quality, next, failures } => match ev {
            CliEvent::Converted(outcome) => if next < files.len() {
                after_file(format, files, quality, next + 1, failures_after(failures, files[next as int], outcome))
            } else {
                s
            },
            _ => s,
        },
        CliRunView::ChangingMenu { register } => match ev {
            CliEvent::MenuChanged(Ok(())) => CliRunView::Done(true),
            CliEvent::MenuChanged(Err(e)) => CliRunView::Alerting { message: spec_menu_alert(register, e@) },
            _ => s,
        },
        CliRunView::Alerting { .. } => match ev {
            CliEvent::AlertShown => CliRunView::Done(true),
            _ => s,
        },
        CliRunView::Done(_) => s,
    }
}

/// What a run asks in a given state.
pub open spec fn run_action(s: CliRunView) -> CliActionView {
    match s {
        CliRunView::Converting { format, files, quality, next, .. } => if next < files.len() {
            CliActionView::ConvertFile { file: files[next as int], format, quality }
        } else {
            CliActionView::Finish(true)
        },
        CliRunView::ChangingMenu { register } => if register {
            CliActionView::EnableMenu
        } else {
            CliActionView::DisableMenu
        },
        CliRunView::Alerting { message } => CliActionView::ShowAlert(message),
        CliRunView::Done(b) => CliActionView::Finish(b),
    }
}

fn continue_quick(format: String, files: Vec<String>, quality: u8, next: usize, failures: Vec<String>) -> (r: CliRun)
    requires
        next <= files@.len(),
    ensures
        r@ == after_file(format@, strings_view(files@), quality, next as nat, strings_view(failures@)),
{
    if next < files.len() {
        CliRun::Converting { format, files, quality, next, failures }
    } else {
        match quick_failure_alert(&failures) {
            Some(m) => CliRun::Alerting { message: m },
            None => CliRun::Done(true),
        }
    }
}

/// Starts running the command `cmd` read from the command line.
pub fn run_command(cmd: CliCommand) -> (r: CliRun)
    ensures
        r@ == run_start(cmd@),
{
    match cmd {
        CliCommand::Quick { format, files, quality } => {
            let failures: Vec<String> = Vec::new();
            assert(strings_view(failures@) =~= Seq::<Seq<char>>::empty());
            continue_quick(format, files, quality, 0, failures)
        },
        CliCommand::RegisterContextMenu => CliRun::ChangingMenu { register: true },
        CliCommand::UnregisterContextMenu => CliRun::ChangingMenu { register: false },
        CliCommand::StartGui => CliRun::Done(false),
    }
}

impl CliRun {
    /// What the run asks next.
    pub fn action(&self) -> (a: CliAction)
        ensures
            a@ == run_action(self@),
    {
        match self {
            CliRun::Converting { format, files, quality, next, .. } => {
                if *next < files.len() {
                    CliAction::ConvertFile {
                        file: files[*next].clone(),
                        format: format.clone(),
                        quality: *quality,
                    }
                } else {
                    CliAction::Finish(true)
                }
            },
            CliRun::ChangingMenu { register } => if *register {
                CliAction::EnableMenu
            } else {
                CliAction::DisableMenu
            },
            CliRun::Alerting { message } => CliAction::ShowAlert(message.clone()),
            CliRun::Done(b) => CliAction::Finish(*b),
        }
    }

    /// Goes on with the outcome of what was asked last.
    pub fn resume(&mut self, ev: CliEvent)
        ensures
            final(self)@ == run_step(old(self)@, ev),
    {
        let mut cur = CliRun::Done(false);
        std::mem::swap(&mut cur, self);
        let next_state = match cur {
            CliRun::Converting { format, files, quality, next, failures } => match ev {
                CliEvent::Converted(outcome) => {
                    if next < files.len() {
                        let mut failures = failures;
                        let ghost before = failures@;
                        match outcome {
                            Ok(_) => {},
                            Err(e) => {
                                let line = quick_failure_entry(files[next].as_str(), e.as_str());
                                failures.push(line);
                                assert(strings_view(failures@) =~= strings_view(before).push(
                                    spec_failure_entry(files@[next as int]@, e@),
                                ));
                            },
                        }
                        continue_quick(format, files, quality, next + 1, failures)
                    } else {
                        CliRun::Converting { format, files, quality, next, failures }
                    }
                },
                _ => CliRun::Converting { format, files, quality, next, failures },
            },
            CliRun::ChangingMenu { register } => match ev {
                CliEvent::MenuChanged(Ok(())) => CliRun::Done(true),
                CliEvent::MenuChanged(Err(e)) => CliRun::Alerting {
                    message: context_menu_failure_alert(register, e.as_str()),
                },
                _ => CliRun::ChangingMenu { register },
            },
            CliRun::Alerting { message } => match ev {
                CliEvent::AlertShown => CliRun::Done(true),
                _ => CliRun::Alerting { message },
            },
            CliRun::Done(b) => CliRun::Done(b),
        };
        *self = next_state;
    }
}

/// A run after a sequence of events, one per question.
pub open spec fn cli_run(s: CliRunView, events: Seq<CliEvent>) -> CliRunView
    decreases events.len(),
{
    if events.len() == 0 {
        s
    } else {
        cli_run(run_step(s, events[0]), events.drop_first())
    }
}

/// The failures after one more file, from the event that reported it.
pub open spec fn failures_after_event(failures: Seq<Seq<char>>, file: Seq<char>, ev: CliEvent) -> Seq<Seq<char>> {
    match ev {
        CliEvent::Converted(outcome) => failures_after(failures, file, outcome),
        _ => failures,
    }
}

/// The alert lines of the failed files among the first `k`, in file order:
/// one line per failed file, none for a converted one.
pub open spec fn failures_upto(files: Seq<Seq<char>>, events: Seq<CliEvent>, k: nat) -> Seq<Seq<char>>
    decreases k,
{
    if k == 0 {
        Seq::empty()
    } else {
        failures_after_event(failures_upto(files, events, (k - 1) as nat), files[k - 1], events[k - 1])
    }
}

/// Events given one after the other.
pub proof fn lemma_cli_run_append(s: CliRunView, a: Seq<CliEvent>, b: Seq<CliEvent>)
    ensures
        cli_run(s, a + b) == cli_run(cli_run(s, a), b),
    decreases a.len(),
{
    if a.len() == 0 {
        assert(a + b =~= b);
    } else {
        assert((a + b)[0] == a[0]);
        assert((a + b).drop_first() =~= a.drop_first() + b);
        lemma_cli_run_append(run_step(s, a[0]), a.drop_first(), b);
    }
}

/// One event is one step.
pub proof fn lemma_cli_run_one(s: CliRunView, ev: CliEvent)
    ensures
        cli_run(s, seq![ev]) == run_step(s, ev),
{
    assert(seq![ev].drop_first() =~= Seq::<CliEvent>::empty());
    assert(cli_run(run_step(s, ev), Seq::<CliEvent>::empty()) == run_step(s, ev));
}

/// Quick mode converts the files one by one, in order: after the outcomes of
/// the first `k` files it holds the alert lines of those that failed, in
/// order, and asks for file `k` next (or, after the last, shows the alert).
pub proof fn lemma_quick_run_prefix(
    format: Seq<char>,
    files: Seq<Seq<char>>,
    quality: u8,
    events: Seq<CliEvent>,
    k: nat,
)
    requires
        k <= files.len(),
        k <= events.len(),
        forall|i: int| 0 <= i < k ==> #[trigger] events[i] is Converted,
    ensures
        cli_run(after_file(format, files, quality, 0, Seq::empty()), events.take(k as int))
            == after_file(format, files, quality, k, failures_upto(files, events, k)),
        k < files.len() ==> run_action(after_file(format, files, quality, k, failures_upto(files, events, k)))
            == (CliActionView::ConvertFile { file: files[k as int], format, quality }),
    decreases k,
{
    let s0 = after_file(format, files, quality, 0, Seq::empty());
    if k == 0 {
        assert(events.take(0) =~= Seq::<CliEvent>::empty());
    } else {
        let j = (k - 1) as nat;
        lemma_quick_run_prefix(format, files, quality, events, j);
        assert(events.take(k as int) =~= events.take(j as int) + seq![events[j as int]]);
        lemma_cli_run_append(s0, events.take(j as int), seq![events[j as int]]);
        lemma_cli_run_one(after_file(format, files, quality, j, failures_upto(files, events, j)), events[j as int]);
    }
}

/// Quick mode from the command line: the file after the format that is
/// converted at step `k` is `args[k + 2]`, with the format `args[1]` at quality
/// 85; once every file was reported, the run shows one alert listing the failed
/// files in order ("Failed to convert n file(s): ...") when any failed, and
/// else ends with the command line handled.
pub proof fn lemma_quick_mode_run(args: Seq<Seq<char>>, supported: bool, events: Seq<CliEvent>, k: nat)
    requires
        args.len() >= 3,
        args[0] == "--quick"@,
        events.len() == args.len() - 2,
        forall|i: int| 0 <= i < events.len() ==> #[trigger] events[i] is Converted,
        k < events.len(),
    ensures
        run_action(cli_run(run_start(spec_handle_cli(args, supported)), events.take(k as int)))
            == (CliActionView::ConvertFile { file: args[k + 2 as int], format: args[1], quality: 85 }),
        ({
            let failures = failures_upto(args.skip(2), events, events.len());
            let end = cli_run(run_start(spec_handle_cli(args, supported)), events);
            &&& failures.len() == 0 ==> end == CliRunView::Done(true)
            &&& failures.len() > 0 ==> end == (CliRunView::Alerting { message: spec_failure_alert(failures)->0 })
            &&& failures.len() > 0 ==> run_step(end, CliEvent::AlertShown) == CliRunView::Done(true)
        }),
{
    let files = args.skip(2);
    lemma_quick_run_prefix(args[1], files, 85, events, k);
    lemma_quick_run_prefix(args[1], files, 85, events, events.len());
    assert(events.take(events.len() as int) =~= events);
}

/// Changing the menu from the command line: the run asks for exactly one
/// change (adding it for `--register-context-menu`, removing it for
/// `--unregister-context-menu`); a success ends the run with no alert, a
/// failure shows the matching alert once and then ends it.
pub proof fn lemma_menu_run(register: bool, outcome: Result<(), String>)
    ensures
        run_action(CliRunView::ChangingMenu { register }) == if register {
            CliActionView::EnableMenu
        } else {
            CliActionView::DisableMenu
        },
        outcome is Ok ==> run_step(CliRunView::ChangingMenu { register }, CliEvent::MenuChanged(outcome))
            == CliRunView::Done(true),
        outcome matches Err(e) ==> run_step(
            CliRunView::ChangingMenu { register },
            CliEvent::MenuChanged(outcome),
        ) == (CliRunView::Alerting { message: spec_menu_alert(register, e@) }),
        run_start(CliCommandView::RegisterContextMenu) == (CliRunView::ChangingMenu { register: true }),
        run_start(CliCommandView::UnregisterContextMenu) == (CliRunView::ChangingMenu { register: false }),
{
}

/// An alert is shown once: once it is reported shown, the run is over, and a
/// run that is over asks for nothing more.
pub proof fn lemma_alert_shown_once(message: Seq<char>, ev: CliEvent)
    ensures
        run_step(CliRunView::Alerting { message }, CliEvent::AlertShown) == CliRunView::Done(true),
        run_action(CliRunView::Done(true)) == CliActionView::Finish(true),
        run_step(CliRunView::Done(true), ev) == CliRunView::Done(true),
{
}

/// Without a command the run ends at once and the window opens.
pub proof fn lemma_gui_run()
    ensures
        run_action(run_start(CliCommandView::StartGui)) == CliActionView::Finish(false),
{
}

}
