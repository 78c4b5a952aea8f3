use litepack::cli::{check_pack_arguments, display_name, exit_code, phase_str, unpack_overwrite_mode};
use litepack::gui::{
    action_to_route, cancel_operation, compress_options, normalize_path, completion_event, password_route, pending_action_from_args,
    use_extract_window, validate_target, ChannelEvent, OperationRegistry, PendingAction,
    PendingActionType,
};
use litepack::{CancelHandle, Error, OverwriteMode, Phase};

#[test]
fn exit_codes() {
    assert_eq!(exit_code(&Error::Cancelled), 1);
    assert_eq!(exit_code(&Error::ZipBomb), 2);
    assert_eq!(exit_code(&Error::BadPassword), 2);
}

#[test]
fn cli_texts_and_checks() {
    assert_eq!(phase_str(Phase::Extracting), "解压");
    assert_eq!(phase_str(Phase::Compressing), "压缩");
    assert_eq!(unpack_overwrite_mode(true), OverwriteMode::Overwrite);
    assert_eq!(unpack_overwrite_mode(false), OverwriteMode::Skip);
    assert_eq!(check_pack_arguments(Some("zip"), "out.ZIP", 6), None);
    assert_eq!(
        check_pack_arguments(Some("7z"), "out.zip", 6).unwrap(),
        "错误: --format 7z 与输出扩展名 zip 不一致"
    );
    assert_eq!(
        check_pack_arguments(Some("zip"), "out", 6).unwrap(),
        "错误: --format zip 与输出扩展名 (无) 不一致"
    );
    assert_eq!(check_pack_arguments(None, "out.zip", 10).unwrap(), "错误: 压缩级别必须在 0-9 之间");
    assert_eq!(display_name("data/sub/"), "data/sub");
    assert_eq!(display_name("a\\/"), "a");
    assert_eq!(display_name("a.txt"), "a.txt");
}

#[test]
fn gui_target_validation() {
    assert_eq!(validate_target("x.zip", "zip"), Ok(()));
    assert_eq!(validate_target("x.7Z", ""), Ok(()));
    assert_eq!(validate_target("x", "").unwrap_err(), "输出路径缺少扩展名，无法推断格式");
    assert_eq!(validate_target("x.zip", "7z").unwrap_err(), "输出扩展名 zip 与格式 7z 不一致");
    assert_eq!(validate_target("x", "zip").unwrap_err(), "输出扩展名 (无) 与格式 zip 不一致");
    assert_eq!(validate_target("x.rar", "").unwrap_err(), "不支持的格式: rar");
}

#[test]
fn gui_options_and_events() {
    let o = compress_options(12, None, true, false);
    assert_eq!(o.level, 9);
    assert!(o.overwrite && !o.skip_hidden);
    assert_eq!(compress_options(3, None, false, true).level, 3);
    assert!(matches!(completion_event(7, &Ok(())), ChannelEvent::Done { id: 7 }));
    match completion_event(8, &Err(Error::BadPassword)) {
        ChannelEvent::Error { id, message } => {
            assert_eq!(id, 8);
            assert_eq!(message, "密码错误");
        }
        other => panic!("{other:?}"),
    }
}

fn args(v: &[&str]) -> Vec<String> {
    v.iter().map(|s| s.to_string()).collect()
}

#[test]
fn pending_action_parsing() {
    let a = pending_action_from_args(&args(&["litepack", "--extract-here", "C:\\a b.zip"])).unwrap();
    assert_eq!(a.action, PendingActionType::ExtractHere);
    assert_eq!(a.path, "C:\\a b.zip");
    assert!(use_extract_window(&a));
    assert!(pending_action_from_args(&args(&["litepack"])).is_none());
    assert!(pending_action_from_args(&args(&["litepack", "--open"])).is_none());
    // The program name itself is never read as a flag.
    assert!(pending_action_from_args(&args(&["--open", "x.zip"])).is_none());
    let b = pending_action_from_args(&args(&["litepack", "junk", "--open", "--extract-to"])).unwrap();
    assert_eq!(b.action, PendingActionType::Open);
    assert_eq!(b.path, "--extract-to");
    assert!(!use_extract_window(&b));
}

#[test]
fn routes_are_percent_encoded() {
    let a = PendingAction { action: PendingActionType::ExtractTo, path: "C:\\归档 1.zip".to_string() };
    assert_eq!(action_to_route(&a), "/extract-to?path=C%3A%5C%E5%BD%92%E6%A1%A3%201.zip");
    let b = PendingAction { action: PendingActionType::Open, path: "a-b_c.~d".to_string() };
    assert_eq!(action_to_route(&b), "/open?path=a-b_c.~d");
    assert_eq!(password_route("密码错误"), "/extract-password?error=%E5%AF%86%E7%A0%81%E9%94%99%E8%AF%AF");
}

#[test]
fn registry_cancels_registered_operations() {
    let mut reg = OperationRegistry::new();
    let h = CancelHandle::new();
    let id = reg.register(h.clone());
    assert_eq!(id, 1);
    assert!(!h.is_cancelled());
    assert!(reg.cancel(id));
    assert!(h.is_cancelled());
    let id2 = reg.register(CancelHandle::new());
    assert_eq!(id2, 2);
    reg.unregister(id);
    assert!(!reg.cancel(id));
    assert!(reg.cancel(id2));
    assert!(!reg.cancel(99));
}

#[test]
fn cancel_handle_is_shared_by_clones() {
    let h = CancelHandle::default();
    let c = h.clone();
    assert!(!c.is_cancelled());
    h.cancel();
    assert!(c.is_cancelled());
}

#[test]
fn cancelling_an_unknown_operation_is_refused() {
    let mut reg = OperationRegistry::new();
    let h = CancelHandle::new();
    let id = reg.register(h.clone());
    assert_eq!(cancel_operation(&reg, id), Ok(()));
    assert!(h.is_cancelled());
    reg.unregister(id);
    assert_eq!(cancel_operation(&reg, id), Err("操作不存在或已结束".to_string()));
}

#[test]
fn single_component_paths_are_kept() {
    assert_eq!(normalize_path("archive.zip"), "archive.zip");
    assert_eq!(normalize_path("归档 1.7z"), "归档 1.7z");
    assert_eq!(normalize_path(".."), "..");
    assert_eq!(normalize_path(""), "");
}
