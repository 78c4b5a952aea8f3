use litepack::context_menu::{all_target_paths, command_line, is_registered, register, sfa_path, unregister, verb_path, verb_target_paths};
use litepack::shell::{
    can_unload_now, class_object_decision, made_result, clsid_litepackshell, command_canonical_name,
    command_flags, command_title, command_tooltip, create_instance_decision, enum_next, enum_skip,
    get_icon_path, invoke_step, launch_result, iid_iclassfactory, iid_iexplorercommand, iid_iunknown, Action, CommandKind,
    InvokeStep, CLASS_E_NOAGGREGATION, E_FAIL, E_NOINTERFACE, E_NOTIMPL, E_OUTOFMEMORY, E_POINTER, S_FALSE, S_OK,
};

#[test]
fn context_menu_keys() {
    assert_eq!(verb_path(".zip", "LitePackOpen"), "Software\\Classes\\.zip\\shell\\LitePackOpen");
    assert_eq!(
        sfa_path(".7z", "LitePackExtractTo"),
        "Software\\Classes\\SystemFileAssociations\\.7z\\shell\\LitePackExtractTo"
    );
    let v = verb_target_paths("LitePackOpen");
    assert_eq!(v.len(), 4);
    let all = all_target_paths();
    assert_eq!(all.len(), 16);
    assert_eq!(all[0], "Software\\Classes\\SystemFileAssociations\\.zip\\shell\\LitePackOpen");
    assert_eq!(all[1], "Software\\Classes\\.zip\\shell\\LitePackOpen");
    assert_eq!(all[2], "Software\\Classes\\SystemFileAssociations\\.7z\\shell\\LitePackOpen");
    assert_eq!(all[4], "Software\\Classes\\SystemFileAssociations\\.zip\\shell\\LitePackExtractHere");
    assert_eq!(all[15], "Software\\Classes\\.7z\\shell\\LitePackExtractNamed");
    assert_eq!(&all[4..8], &verb_target_paths("LitePackExtractHere")[..]);
    for (i, a) in all.iter().enumerate() {
        for b in &all[i + 1..] {
            assert_ne!(a, b);
        }
    }
    assert!(all.contains(&"Software\\Classes\\SystemFileAssociations\\.zip\\shell\\LitePackExtractNamed".to_string()));
    assert_eq!(command_line("C:\\LitePack.exe", "--open"), "\"C:\\LitePack.exe\" --open \"%1\"");
}

#[test]
fn context_menu_needs_windows() {
    assert_eq!(register().unwrap_err(), "当前平台不支持右键菜单注册");
    assert!(unregister().is_ok());
    assert!(!is_registered());
}

#[test]
fn shell_commands() {
    assert_eq!(Action::ExtractNamed.title(), "解压到同名目录");
    assert_eq!(Action::ExtractHere.cli_flag(), "--extract-here");
    let g = Action::ExtractTo.canonical_guid();
    assert_eq!(g.data4[7], 0xB6);
    assert!(!g.eq(&Action::Open.canonical_guid()));
    assert!(g.eq(&Action::ExtractTo.canonical_guid()));
    assert_eq!(command_title(&CommandKind::Parent), "LitePack");
    assert_eq!(command_tooltip(&CommandKind::Parent), "LitePack 压缩/解压工具");
    assert_eq!(command_tooltip(&CommandKind::Child(Action::Open)), "用 LitePack 打开");
    assert!(command_canonical_name(&CommandKind::Parent).eq(&clsid_litepackshell()));
    assert_eq!(command_flags(&CommandKind::Parent), 1);
    assert_eq!(command_flags(&CommandKind::Child(Action::Open)), 0);
    assert_eq!(get_icon_path(Some("C:\\x.exe")).as_deref(), Some("C:\\x.exe,0"));
    assert_eq!(get_icon_path(None), None);
}

#[test]
fn shell_enumerator_and_factory() {
    assert_eq!(enum_next(0, 2, 4), (2, 2, S_OK));
    assert_eq!(enum_next(3, 2, 4), (1, 4, S_FALSE));
    assert_eq!(enum_next(4, 1, 4), (0, 4, S_FALSE));
    assert_eq!(enum_next(2, 0, 4), (0, 2, S_OK));
    assert_eq!(enum_skip(1, 2, 4), (3, S_OK));
    assert_eq!(enum_skip(3, 5, 4), (4, S_FALSE));
    assert_eq!(can_unload_now(0), S_OK);
    assert_eq!(can_unload_now(2), S_FALSE);
    let ours = clsid_litepackshell();
    assert_eq!(class_object_decision(false, Some(&ours), Some(&iid_iclassfactory())), S_OK);
    assert_eq!(class_object_decision(false, Some(&ours), Some(&iid_iexplorercommand())), E_NOINTERFACE);
    assert_eq!(class_object_decision(false, Some(&iid_iunknown()), Some(&iid_iunknown())), E_FAIL);
    assert_eq!(class_object_decision(false, None, Some(&iid_iunknown())), E_FAIL);
    assert_eq!(create_instance_decision(false, true, Some(&iid_iexplorercommand())), S_OK);
    assert_eq!(create_instance_decision(false, false, Some(&iid_iexplorercommand())), CLASS_E_NOAGGREGATION);
    assert_eq!(create_instance_decision(false, true, None), E_NOINTERFACE);
    assert_eq!(class_object_decision(true, Some(&ours), Some(&iid_iclassfactory())), E_POINTER);
    assert_eq!(create_instance_decision(true, true, Some(&iid_iexplorercommand())), E_POINTER);
    assert_eq!(made_result(true), S_OK);
    assert_eq!(made_result(false), E_OUTOFMEMORY);
}

#[test]
fn shell_invoke_launches_the_action() {
    assert!(matches!(invoke_step(&CommandKind::Parent, Some("C:\\a.zip")), InvokeStep::Answer(h) if h == E_NOTIMPL));
    assert!(matches!(invoke_step(&CommandKind::Child(Action::ExtractTo), None), InvokeStep::Answer(h) if h == E_FAIL));
    match invoke_step(&CommandKind::Child(Action::ExtractNamed), Some("C:\\a.7z")) {
        InvokeStep::Launch { flag, path } => {
            assert_eq!(flag, "--extract-named");
            assert_eq!(path, "C:\\a.7z");
        }
        other => panic!("unexpected {other:?}"),
    }
    assert_eq!(launch_result(true), S_OK);
    assert_eq!(launch_result(false), E_FAIL);
}
