use heic_convert::cli::{
    context_menu_change, context_menu_failure_alert, context_menu_reply, context_menu_status,
    file_result, handle_cli, quick_failure_alert, quick_failure_entry, CliCommand,
    ContextMenuChange, QUICK_QUALITY,
};
use heic_convert::cli::{run_command, CliAction, CliEvent};

fn args(a: &[&str]) -> Vec<String> {
    a.iter().map(|x| x.to_string()).collect()
}

#[test]
fn quick_mode() {
    let cmd = handle_cli(&args(&["--quick", "jpeg", "a.heic", "b.heic"]), false);
    assert_eq!(
        cmd,
        CliCommand::Quick {
            format: "jpeg".to_string(),
            files: args(&["a.heic", "b.heic"]),
            quality: 85
        }
    );
    assert_eq!(QUICK_QUALITY, 85);
}

#[test]
fn quick_mode_needs_a_file() {
    assert_eq!(handle_cli(&args(&["--quick", "jpeg"]), true), CliCommand::StartGui);
    assert_eq!(handle_cli(&args(&["--quick"]), true), CliCommand::StartGui);
}

#[test]
fn context_menu_options() {
    assert_eq!(
        handle_cli(&args(&["--register-context-menu"]), true),
        CliCommand::RegisterContextMenu
    );
    assert_eq!(
        handle_cli(&args(&["--unregister-context-menu", "extra"]), true),
        CliCommand::UnregisterContextMenu
    );
    assert_eq!(handle_cli(&args(&["--register-context-menu"]), false), CliCommand::StartGui);
    assert_eq!(handle_cli(&args(&["--unregister-context-menu"]), false), CliCommand::StartGui);
}

#[test]
fn other_arguments_open_window() {
    assert_eq!(handle_cli(&args(&[]), true), CliCommand::StartGui);
    assert_eq!(handle_cli(&args(&["photo.heic"]), true), CliCommand::StartGui);
    assert_eq!(handle_cli(&args(&["--QUICK", "png", "a"]), true), CliCommand::StartGui);
}

#[test]
fn failure_alert() {
    assert_eq!(quick_failure_alert(&vec![]), None);
    let e1 = quick_failure_entry("C:\\a.heic", "File not found");
    assert_eq!(e1, "C:\\a.heic\n  File not found");
    let e2 = quick_failure_entry("b.heic", "Unsupported format: gif");
    assert_eq!(
        quick_failure_alert(&vec![e1.clone()]),
        Some(format!("Failed to convert 1 file(s):\n\n{e1}"))
    );
    assert_eq!(
        quick_failure_alert(&vec![e1.clone(), e2.clone()]),
        Some(format!("Failed to convert 2 file(s):\n\n{e1}\n\n{e2}"))
    );
    let many: Vec<String> = (0..12).map(|i| format!("f{i}")).collect();
    let alert = quick_failure_alert(&many).unwrap();
    assert!(alert.starts_with("Failed to convert 12 file(s):\n\nf0\n\nf1"));
    assert!(alert.ends_with("f10\n\nf11"));
}

#[test]
fn context_menu_alerts() {
    assert_eq!(
        context_menu_failure_alert(true, "denied"),
        "Could not add the right-click menu: denied"
    );
    assert_eq!(
        context_menu_failure_alert(false, "denied"),
        "Could not remove the right-click menu: denied"
    );
}

#[test]
fn file_results() {
    let ok = file_result("a.heic", Ok("a.jpg".to_string()));
    assert_eq!(ok.input, "a.heic");
    assert_eq!(ok.output, Some("a.jpg".to_string()));
    assert!(ok.ok);
    assert_eq!(ok.error, None);
    let bad = file_result("b.heic", Err("File not found".to_string()));
    assert_eq!(bad.output, None);
    assert!(!bad.ok);
    assert_eq!(bad.error, Some("File not found".to_string()));
}

#[test]
fn context_menu_requests() {
    let st = context_menu_status(true, true);
    assert!(st.supported && st.enabled);
    let st = context_menu_status(false, true);
    assert!(!st.supported && !st.enabled);
    let st = context_menu_status(true, false);
    assert!(st.supported && !st.enabled);
    assert_eq!(context_menu_change(true, true), Ok(ContextMenuChange::Enable));
    assert_eq!(context_menu_change(true, false), Ok(ContextMenuChange::Disable));
    assert_eq!(
        context_menu_change(false, true),
        Err("Not supported on this platform".to_string())
    );
    assert_eq!(context_menu_reply(true, Ok(())), Ok(true));
    assert_eq!(context_menu_reply(false, Ok(())), Ok(false));
    assert_eq!(context_menu_reply(true, Err("x".to_string())), Err("x".to_string()));
}

#[test]
fn quick_run_converts_in_order_and_alerts_once() {
    let cmd = handle_cli(&args(&["--quick", "png", "a.heic", "b.heic", "c.heic"]), false);
    let mut run = run_command(cmd);
    let conv = |f: &str| CliAction::ConvertFile {
        file: f.to_string(),
        format: "png".to_string(),
        quality: 85,
    };
    assert_eq!(run.action(), conv("a.heic"));
    run.resume(CliEvent::Converted(Err("File not found".to_string())));
    assert_eq!(run.action(), conv("b.heic"));
    run.resume(CliEvent::Converted(Ok("b.png".to_string())));
    assert_eq!(run.action(), conv("c.heic"));
    run.resume(CliEvent::Converted(Err("Unsupported".to_string())));
    assert_eq!(
        run.action(),
        CliAction::ShowAlert(
            "Failed to convert 2 file(s):\n\na.heic\n  File not found\n\nc.heic\n  Unsupported"
                .to_string()
        )
    );
    run.resume(CliEvent::AlertShown);
    assert_eq!(run.action(), CliAction::Finish(true));
    run.resume(CliEvent::AlertShown);
    assert_eq!(run.action(), CliAction::Finish(true));
}

#[test]
fn quick_run_without_failures_has_no_alert() {
    let mut run = run_command(handle_cli(&args(&["--quick", "jpeg", "a.heic"]), true));
    run.resume(CliEvent::Converted(Ok("a.jpg".to_string())));
    assert_eq!(run.action(), CliAction::Finish(true));
}

#[test]
fn menu_runs() {
    let mut run = run_command(handle_cli(&args(&["--register-context-menu", "x"]), true));
    assert_eq!(run.action(), CliAction::EnableMenu);
    run.resume(CliEvent::MenuChanged(Ok(())));
    assert_eq!(run.action(), CliAction::Finish(true));

    let mut run = run_command(handle_cli(&args(&["--unregister-context-menu"]), true));
    assert_eq!(run.action(), CliAction::DisableMenu);
    run.resume(CliEvent::MenuChanged(Err("denied".to_string())));
    assert_eq!(
        run.action(),
        CliAction::ShowAlert("Could not remove the right-click menu: denied".to_string())
    );
    run.resume(CliEvent::AlertShown);
    assert_eq!(run.action(), CliAction::Finish(true));

    let mut run = run_command(handle_cli(&args(&["--register-context-menu"]), true));
    run.resume(CliEvent::MenuChanged(Err("denied".to_string())));
    assert_eq!(
        run.action(),
        CliAction::ShowAlert("Could not add the right-click menu: denied".to_string())
    );
}

#[test]
fn gui_run() {
    let run = run_command(handle_cli(&args(&[]), true));
    assert_eq!(run.action(), CliAction::Finish(false));
}
