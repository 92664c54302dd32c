use iuv_windows::imm::{ime_inquire, Instances, IMEINFO, UI_CLASS};
use iuv_windows::logs::{clear_logs, panic_line, Place, LOG_FILES};
use iuv_windows::paths::{
    base_dir, config_path, data_path, dict_path, path_below, pref_path, script_path,
    user_dict_path, DICT_FILENAME,
};
use iuv_windows::perf::{perf_probe_emit, perf_record_with, perf_tick, set_perf_probe, PerfProbe};
use iuv_windows::registration::{
    clsid, clsid_registry, dll_get_class_object, dll_register_server, dll_unregister_server,
    language_profile, parse_guid, profile_guid, register_with_tsf, unregister_with_tsf, ClassReply,
    RegisterStep, Registration, ServerResult, TipCategory,
};
use iuv_windows::sprites::{
    decode, default_layout, empty_sprites, load_default_sprites, load_icons, IconFiles, Image,
    PetClip,
};
use iuv_windows::text::nul_ended;
use iuv_windows::tray::{
    on_menu_select, tray_popup, wide, MutexResult, TearDown, TrayCommand, TrayMessage, TrayState,
    MUTEX_NAME, TRAY_CALLBACK_MSG,
};

#[test]
fn wide_ascii_nul_terminated() {
    let exp: Vec<u16> = b"Local\\iuv-tray-host".iter().map(|&b| b as u16).collect();
    let a = wide("Local\\iuv-tray-host");
    assert_eq!(&a[..exp.len()], exp.as_slice());
    assert_eq!(a[exp.len()], 0, "NUL 结尾");
    let exp2: Vec<u16> = b"IuvTrayWindow".iter().map(|&b| b as u16).collect();
    let b = wide("IuvTrayWindow");
    assert_eq!(&b[..exp2.len()], exp2.as_slice());
    assert_eq!(b[exp2.len()], 0, "NUL 结尾");
}

#[test]
fn mutex_name_ends_with_expected() {
    let name: Vec<u16> = "Local\\iuv-tray-host".encode_utf16().collect();
    assert_eq!(&MUTEX_NAME[..name.len()], name.as_slice());
    assert_eq!(MUTEX_NAME[name.len()], 0, "null 结尾");
}

#[test]
fn long_names_are_cut() {
    let w = wide("0123456789012345678901234567890123456789");
    assert_eq!(w[30], b'0' as u16);
    assert_eq!(w[31], 0);
    assert_eq!(wide(""), [0u16; 32]);
}

#[test]
fn one_program_hosts_the_icon() {
    let mut t = TrayState::new();
    assert!(t.may_host());
    let r = t.try_host(MutexResult::Taken(5), Some(6), true);
    assert!(r.host.is_none());
    assert_eq!((r.destroy, r.close), (None, Some(5)));
    let r = t.try_host(MutexResult::Failed, None, false);
    assert_eq!((r.destroy, r.close), (None, None));
    let r = t.try_host(MutexResult::Made(5), Some(6), false);
    assert!(r.host.is_none());
    assert_eq!((r.destroy, r.close), (Some(6), Some(5)), "all is taken back");
    let r = t.try_host(MutexResult::Made(5), Some(6), true);
    assert!(r.host.is_some());
    assert!(!t.may_host());
    assert_eq!(t.tray_wnd_proc(TRAY_CALLBACK_MSG, 0x7B), TrayMessage::Popup);
    assert_eq!(t.tray_wnd_proc(TRAY_CALLBACK_MSG, 0x0400_0000), TrayMessage::Popup);
    assert_eq!(t.tray_wnd_proc(TRAY_CALLBACK_MSG, 0x200), TrayMessage::Nothing);
    assert_eq!(t.tray_wnd_proc(1, 0x7B), TrayMessage::System);
    assert_eq!(
        t.teardown(),
        vec![
            TearDown::RemoveIcon(6),
            TearDown::DestroyWindow(6),
            TearDown::ReleaseMutex(5),
            TearDown::CloseMutex(5),
            TearDown::HideMenu
        ]
    );
    assert!(t.teardown().is_empty());
    assert!(t.may_host());
    t.quit_host();
    assert!(!t.may_host(), "ended for good");
    assert!(t.try_host(MutexResult::Made(5), Some(6), true).host.is_none());
    assert_eq!(t.tray_wnd_proc(TRAY_CALLBACK_MSG, 0x7B), TrayMessage::Nothing);
}

#[test]
fn lines_of_the_host_menu() {
    let items = tray_popup();
    let labels: Vec<&str> = items.iter().map(|e| e.label.as_str()).collect();
    assert_eq!(labels, vec!["设置…", "帮助 / 关于", "", "退出 iuv"]);
    assert_eq!(on_menu_select(items[0].id), TrayCommand::Settings);
    assert_eq!(on_menu_select(items[1].id), TrayCommand::About);
    assert_eq!(on_menu_select(items[2].id), TrayCommand::Nothing);
    assert_eq!(on_menu_select(items[3].id), TrayCommand::Quit);
}

#[test]
fn guids_are_read() {
    assert_eq!(clsid(), 0xC69735F1_BAB1_458B_89FC_099ABA877ECB);
    assert_eq!(profile_guid(), 0x799E00DD_64C2_4280_AC48_D379A9ABC5BE);
    assert_eq!(
        parse_guid("  {00000000-0000-0000-0000-00000000aF10} "),
        0xAF10
    );
    assert_eq!(
        parse_guid("01020304-0506-0708-090a-0b0c0d0e0f10"),
        0x0102030405060708090a0b0c0d0e0f10
    );
}

/// Goes through a registration, or its taking back: its steps, how often COM was released, and
/// its end. `good` tells what comes of a step.
fn run(
    go_on: fn(Registration, bool) -> (Registration, bool),
    good: impl Fn(RegisterStep) -> bool,
) -> (Vec<RegisterStep>, usize, RegisterStep) {
    let mut r = Registration::begin();
    let (mut seen, mut released) = (Vec::new(), 0);
    while r.step != RegisterStep::Done && r.step != RegisterStep::Failed {
        seen.push(r.step);
        let (next, release) = go_on(r, good(r.step));
        released += release as usize;
        r = next;
    }
    assert!(!r.com);
    (seen, released, r.step)
}

#[test]
fn registration_goes_through_all_steps() {
    let (seen, released, end) = run(register_with_tsf, |s| s != RegisterStep::InitCom);
    assert_eq!((seen.len(), released, end), (13, 0, RegisterStep::Done));
    assert_eq!(seen[3], RegisterStep::AddLanguageProfile);
    assert_eq!(seen[5], RegisterStep::Category(TipCategory::Keyboard));
    assert_eq!(seen[12], RegisterStep::Category(TipCategory::CategoryOfTip));
    for (i, bad) in seen.iter().enumerate().skip(1) {
        let (some, released, end) = run(register_with_tsf, |s| s != *bad);
        assert_eq!((some.len(), released, end), (i + 1, 1, RegisterStep::Failed));
    }
    let managers =
        |s| s == RegisterStep::CreateProfiles || s == RegisterStep::CreateCategories;
    let (seen, released, end) = run(unregister_with_tsf, managers);
    assert_eq!((seen.len(), released, end), (13, 0, RegisterStep::Done));
    let (_, released, end) = run(unregister_with_tsf, |_| true);
    assert_eq!((released, end), (1, RegisterStep::Done));
    let (seen, released, end) = run(unregister_with_tsf, |s| s == RegisterStep::InitCom);
    assert_eq!((seen.len(), released, end), (2, 1, RegisterStep::Failed));
}

#[test]
fn system_is_told_of_the_language() {
    let dll = "C:\\字\u{1F600}\\iuv.dll";
    let p = language_profile(dll);
    let wide = |t: &str| t.encode_utf16().chain(Some(0)).collect::<Vec<u16>>();
    assert_eq!((p.class, p.profile, p.language), (clsid(), profile_guid(), 0x0804));
    assert_eq!(p.description, wide("IUV 输入法"));
    assert_eq!(p.icon, wide(dll));
    assert_eq!(p.icon_index, 0);
    for c in (0..=0x10FFFF).step_by(7).filter_map(char::from_u32) {
        let t = c.to_string();
        assert_eq!(nul_ended(&t), wide(&t));
    }
}

#[test]
fn server_entries() {
    assert_eq!(dll_register_server("", true, RegisterStep::Done), ServerResult::NoPath);
    assert_eq!(dll_register_server("x", false, RegisterStep::Done), ServerResult::RegistryFailed);
    assert_eq!(dll_register_server("x", true, RegisterStep::Failed), ServerResult::SystemFailed);
    assert_eq!(dll_register_server("x", true, RegisterStep::Done), ServerResult::Good);
    assert!(dll_unregister_server(RegisterStep::Done));
    assert!(!dll_unregister_server(RegisterStep::Failed));
    let values = clsid_registry("C:\\iuv.dll");
    assert_eq!(values[0].data, "IUV 输入法");
    assert_eq!(values[1].data, "C:\\iuv.dll");
    assert!(values[1].key.ends_with("\\InprocServer32"));
    assert_eq!((values[2].name.as_str(), values[2].data.as_str()), ("ThreadingModel", "Apartment"));
    assert_eq!(dll_get_class_object(None), ClassReply::InvalidArgument);
    assert_eq!(dll_get_class_object(Some(1)), ClassReply::NotAvailable);
    assert_eq!(dll_get_class_object(Some(clsid())), ClassReply::Factory);
}

#[test]
fn times_are_measured_on_demand() {
    let mut p = PerfProbe::new();
    assert_eq!(perf_tick(&p, 100), None);
    set_perf_probe(&mut p, true);
    let t = perf_tick(&p, 100);
    assert_eq!(t, Some(100));
    assert_eq!(
        perf_record_with("render", t, 1848, || "update".to_string()),
        Some("[perf] render 1748us update".to_string())
    );
    assert_eq!(perf_record_with("render", t, 100, String::new), Some("[perf] render 0us".to_string()));
    assert_eq!(perf_record_with("render", t, 50, String::new), Some("[perf] render 0us".to_string()));
    let mut made = 0;
    let detail = || {
        made += 1;
        "x".to_string()
    };
    assert_eq!(perf_record_with("render", None, 50, detail), None);
    assert_eq!(made, 0, "the detail is not made");
    assert_eq!(perf_probe_emit("lookup", 12), "[perf] lookup 12us");
    set_perf_probe(&mut p, false);
    assert_eq!(perf_tick(&p, 100), None);
}

#[test]
fn old_programs_are_told() {
    assert_eq!(ime_inquire(None, true), (0, None, None));
    assert_eq!(ime_inquire(Some(IMEINFO::default()), false), (0, None, None));
    let asked = IMEINFO { fdw_ignore: 9, fdw_scs_caps: 7, ..IMEINFO::default() };
    let (ok, info, class) = ime_inquire(Some(asked), true);
    let info = info.unwrap();
    assert_eq!(ok, 1);
    assert_eq!(info.fdw_property, 0x20080);
    assert_eq!(info.fdw_conversion_caps, 0x102);
    assert_eq!((info.fdw_ui_caps, info.fdw_select_caps), (0x10, 1));
    assert_eq!((info.fdw_scs_caps, info.fdw_ignore), (0, 9));
    let name: Vec<u16> = "IuvUIClass\0".encode_utf16().collect();
    assert_eq!(class.unwrap().to_vec(), name);
    assert_eq!(UI_CLASS.to_vec(), name);
}

#[test]
fn contexts_have_instances() {
    let mut i = Instances::new();
    assert_eq!(i.ime_process_key(50), 0);
    assert_eq!(i.instance_enter(50), 1);
    assert_eq!(i.instance_enter(60), 2);
    assert_eq!(i.ime_select(50, false), 1);
    assert_eq!(i.instance_leave(50), None);
    assert_eq!(i.ime_set_active_context(50), 1);
    assert_eq!(i.instance_enter(50), 3, "a number is not used again");
    assert_eq!(i.instance_leave(60), Some(2));
    assert_eq!(i.ime_select(60, true), 1);
}

#[test]
fn logs_are_emptied() {
    assert_eq!(LOG_FILES.len(), 4);
    assert_eq!(clear_logs(None), (0, 4));
    assert_eq!(clear_logs(Some(&vec![true, false, true, true])), (3, 1));
    let place = Place { file: "main.rs".into(), line: 120 };
    assert_eq!(panic_line(Some("boom"), Some(&place)), "[panic] boom @ main.rs:120");
    assert_eq!(panic_line(None, None), "[panic] 未知 panic @ 未知位置");
}

#[test]
fn files_have_places() {
    assert_eq!(path_below("C:\\x", "y"), "C:\\x\\y");
    assert_eq!(path_below("C:\\x\\", "y"), "C:\\x\\y");
    assert_eq!(path_below("", "y"), "y");
    assert_eq!(base_dir(Some("L"), Some("R"), Some("H")), Some("L".to_string()));
    assert_eq!(base_dir(None, Some("R"), Some("H")), Some("R\\Local".to_string()));
    assert_eq!(base_dir(None, None, Some("H")), Some("H".to_string()));
    assert_eq!(base_dir(None, None, None), None);
    assert_eq!(path_below("C:", "x"), "C:x", "a bare drive takes no separator");
    assert_eq!(path_below("C:\\", "x"), "C:\\x");
    assert_eq!(path_below("1:", "x"), "1:\\x");
    assert_eq!(config_path(Some("L")), Some("L\\iuv\\config.json".to_string()));
    assert_eq!(config_path(None), None);
    assert_eq!(pref_path(None, None, Some("H")), Some("H\\iuv\\toolbar.json".to_string()));
    assert_eq!(data_path(None, None, None, "x"), None);
    assert_eq!(
        dict_path(None, None, DICT_FILENAME),
        "C:\\Users\\Default\\AppData\\Local\\iuv\\iuv.imedic"
    );
    assert_eq!(user_dict_path(None, Some("R")), "R\\Local\\iuv\\iuv.user.imedic");
    assert_eq!(script_path(Some("L"), None), "L\\iuv\\iuv.opencc");
}

/// A picture of one point, red at half its weight.
fn one_point() -> Vec<u8> {
    let mut p = tiny_skia::Pixmap::new(1, 1).unwrap();
    p.fill(tiny_skia::Color::from_rgba8(255, 0, 0, 128));
    p.encode_png().unwrap()
}

#[test]
fn pictures_are_read() {
    let png = one_point();
    let i = decode(&png).unwrap();
    assert_eq!((i.width, i.height), (1, 1));
    assert_eq!(i.data, vec![128, 0, 0, 128]);
    assert!(decode(b"not a picture").is_none());
    assert!(decode(&png[..20]).is_none());
}

#[test]
fn one_broken_icon_does_not_spoil_the_rest() {
    let good = one_point();
    let files = IconFiles {
        logo: good.clone(),
        lang_cn: good.clone(),
        lang_en: vec![],
        width_half: good.clone(),
        width_full: good.clone(),
        punct_cn: good.clone(),
        punct_en: good.clone(),
        script_simplified: good.clone(),
        script_traditional: good.clone(),
        gear: good.clone(),
    };
    let icons = load_icons(&files);
    assert!(icons.lang_en.is_none());
    assert!(icons.logo.is_some() && icons.lang_cn.is_some() && icons.gear.is_some());
    assert!(icons.width_half.is_some() && icons.width_full.is_some());
    assert!(icons.punct_cn.is_some() && icons.punct_en.is_some());
    assert!(icons.script_simplified.is_some() && icons.script_traditional.is_some());
}

fn frames(n: usize) -> Vec<Image> {
    (0..n).map(|_| Image { width: 1, height: 1, data: vec![0; 4] }).collect()
}

#[test]
fn empty_sprites_returns_no_frames() {
    let s = empty_sprites();
    assert!(s.is_empty());
    assert_eq!(s.clip_len(PetClip::Idle), 0);
    assert_eq!(s.clip_len(PetClip::Typing), 0);
}

#[test]
fn layout_total_matches_30() {
    let layout = default_layout();
    assert_eq!(layout.cols, 6);
    assert_eq!(layout.rows, 5);
    assert_eq!(layout.frame_w, 16);
    assert_eq!(layout.frame_h, 16);
    assert_eq!(layout.total(), 30);
}

/// The pet's own picture is drawn by hand and kept elsewhere; this one has its size.
#[test]
fn load_default_sprites_succeeds_with_real_asset() {
    let mut p = tiny_skia::Pixmap::new(96, 80).unwrap();
    p.fill(tiny_skia::Color::from_rgba8(0, 0, 255, 255));
    let sheet = decode(&p.encode_png().unwrap()).unwrap();
    let layout = default_layout();
    assert_eq!(sheet.width, layout.cols * layout.frame_w);
    assert_eq!(sheet.height, layout.rows * layout.frame_h);
    let sprites = load_default_sprites(Some(frames(layout.total() as usize)));
    assert!(sprites.clip_len(PetClip::Idle) >= 1, "Idle 必有");
    assert!(sprites.clip_len(PetClip::Typing) >= 1, "Typing 必有");
    assert!(sprites.clip_len(PetClip::React) >= 1, "React 必有");
    let react_len = sprites.clip_len(PetClip::React);
    assert!(react_len <= 2, "React 一次性 2 帧上限，实际 {react_len}");
}

#[test]
fn sprites_are_put_together() {
    let s = load_default_sprites(Some(frames(30)));
    assert!(!s.is_empty());
    assert_eq!(s.clip(PetClip::Idle), (0, 6));
    assert_eq!(s.clip(PetClip::ModeEn), (0, 6));
    assert_eq!(s.clip(PetClip::Typing), (6, 12));
    assert_eq!(s.clip(PetClip::React), (18, 20));
    assert_eq!(s.clip_len(PetClip::Punct), 2);
    assert!(load_default_sprites(None).is_empty());
    assert!(load_default_sprites(Some(vec![])).is_empty());
}
