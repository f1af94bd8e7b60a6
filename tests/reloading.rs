use ezplug::control::{directive, white_space};
use ezplug::watcher::{is_reload_trigger, FileRead, FsEvent, FsEventKind, KeepReason, ReloadStep, Reloader};

const CONTROL: &str = "log_config.txt";

fn event(kind: FsEventKind, names: &[&str]) -> FsEvent {
    FsEvent { kind, file_names: names.iter().map(|n| Some(n.to_string())).collect() }
}

/// Drives events through the trigger test and, for each wake-up, reads
/// `content` (or finds no file) as the reload task does.
fn deliver(r: &mut Reloader, ev: &FsEvent, content: Option<&str>) -> Option<ReloadStep> {
    if !is_reload_trigger(ev, CONTROL) {
        return None;
    }
    let read = match content {
        Some(t) => FileRead::Text(t.to_string()),
        None => FileRead::Missing,
    };
    Some(r.on_read(read))
}

fn apply(r: &mut Reloader, step: ReloadStep) {
    if let ReloadStep::Install { directive, .. } = step {
        r.installed(directive);
    }
}

#[test]
fn directive_joins_kept_lines_without_separator() {
    assert_eq!(directive("info"), "info");
    assert_eq!(directive("  debug  \n"), "debug");
    assert_eq!(directive("# level\ninfo,\n\n  my_crate=debug\r\n"), "info,my_crate=debug");
    assert_eq!(directive("a\nb\nc"), "abc");
    assert_eq!(directive("  # indented comment\nwarn"), "warn");
    assert_eq!(directive("x # not a comment"), "x # not a comment");
}

#[test]
fn directive_of_blank_or_comment_content_is_empty() {
    assert_eq!(directive(""), "");
    assert_eq!(directive("\n\n"), "");
    assert_eq!(directive("# only\n   \n\t# another\n"), "");
}

#[test]
fn white_space_agrees_with_std() {
    for code in 0u32..=0x10FFFF {
        if let Some(c) = char::from_u32(code) {
            assert_eq!(white_space(c), c.is_whitespace(), "U+{:04X}", code);
        }
    }
}

#[test]
fn trigger_needs_matching_name_and_kind() {
    assert!(is_reload_trigger(&event(FsEventKind::CloseWrite, &["log_config.txt"]), CONTROL));
    assert!(is_reload_trigger(&event(FsEventKind::Create, &["log_config.txt"]), CONTROL));
    assert!(is_reload_trigger(&event(FsEventKind::Remove, &["other", "log_config.txt"]), CONTROL));
    assert!(!is_reload_trigger(&event(FsEventKind::Other, &["log_config.txt"]), CONTROL));
    assert!(!is_reload_trigger(&event(FsEventKind::CloseWrite, &["log_config.txt.swp"]), CONTROL));
    assert!(!is_reload_trigger(&event(FsEventKind::Create, &[]), CONTROL));
    let unnamed = FsEvent { kind: FsEventKind::Create, file_names: vec![None] };
    assert!(!is_reload_trigger(&unnamed, CONTROL));
}

#[test]
fn comments_only_leave_filter_unchanged() {
    let mut r = Reloader::new("info".to_string());
    let step = deliver(&mut r, &event(FsEventKind::CloseWrite, &[CONTROL]), Some("# quiet\n\n")).unwrap();
    assert!(matches!(step, ReloadStep::Keep(KeepReason::Blank)));
    apply(&mut r, step);
    assert_eq!(r.active, "info");
    assert_eq!(r.reads, 1);
}

#[test]
fn close_write_with_debug_switches_from_info() {
    let mut r = Reloader::new("info".to_string());
    let step = deliver(&mut r, &event(FsEventKind::CloseWrite, &[CONTROL]), Some("debug\n")).unwrap();
    match &step {
        ReloadStep::Install { directive, .. } => assert_eq!(directive, "debug"),
        _ => panic!("expected an install"),
    }
    apply(&mut r, step);
    assert_eq!(r.active, "debug");
}

#[test]
fn other_file_never_reads_control_file() {
    let mut r = Reloader::new("info".to_string());
    for kind in [FsEventKind::CloseWrite, FsEventKind::Create, FsEventKind::Remove, FsEventKind::Other] {
        assert!(deliver(&mut r, &event(kind, &["notes.txt"]), Some("debug")).is_none());
    }
    assert_eq!(r.reads, 0);
    assert_eq!(r.active, "info");
}

#[test]
fn remove_then_recreate_reflects_new_content() {
    let mut r = Reloader::new("info".to_string());
    let step = deliver(&mut r, &event(FsEventKind::Remove, &[CONTROL]), None).unwrap();
    assert!(matches!(step, ReloadStep::Keep(KeepReason::NoFile)));
    apply(&mut r, step);
    assert_eq!(r.active, "info");
    let step = deliver(&mut r, &event(FsEventKind::Create, &[CONTROL]), Some("warn")).unwrap();
    apply(&mut r, step);
    assert_eq!(r.active, "warn");
    assert_eq!(r.reads, 2);
}

#[test]
fn unreadable_file_keeps_filter() {
    let mut r = Reloader::new("info".to_string());
    let step = r.on_read(FileRead::Failed("permission denied".to_string()));
    match step {
        ReloadStep::Keep(KeepReason::Unreadable(m)) => assert_eq!(m, "permission denied"),
        _ => panic!("expected a keep"),
    }
    assert_eq!(r.active, "info");
}

#[test]
fn malformed_directive_is_rejected() {
    let mut r = Reloader::new("info".to_string());
    match r.on_read(FileRead::Text("!bad\n".to_string())) {
        ReloadStep::Reject { directive, .. } => assert_eq!(directive, "!bad"),
        _ => panic!("expected a rejection"),
    }
    assert_eq!(r.active, "info");
}

#[test]
fn piece_starting_with_white_space_is_refused_before_compiling() {
    let mut r = Reloader::new("info".to_string());
    match r.on_read(FileRead::Text("warn, \u{e9}=debug\n".to_string())) {
        ReloadStep::Unparsable { directive } => assert_eq!(directive, "warn, \u{e9}=debug"),
        _ => panic!("expected the directive to be refused"),
    }
    assert_eq!(r.active, "info");
    let step = r.on_read(FileRead::Text("warn,my_crate=debug".to_string()));
    assert!(matches!(step, ReloadStep::Install { .. }));
}
