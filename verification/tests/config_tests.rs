use mel_dl::config::{
    default_img_alt, default_materials, default_true, default_week_start, find_module, Module,
    Settings, SettingsRead,
};
use mel_dl::login::{login, Login};
use mel_dl::mel;

fn module(name: &str, course_nth: u8) -> Module {
    Module {
        name: name.to_string(),
        course_nth,
        folder_order_ascending: default_true(),
        img_alt: default_img_alt(),
        week_start: default_week_start(),
        materials: default_materials(),
    }
}

#[test]
fn defaults_are_documented_values() {
    assert!(default_true());
    assert_eq!(default_img_alt(), "folder");
    assert_eq!(default_week_start(), 1);
    assert_eq!(default_materials(), "Learning Materials");
}

#[test]
fn settings_from_keeps_every_field() {
    let sr = SettingsRead {
        order_ascending: false,
        path: "/home/x/school".to_string(),
        bin: "/usr/bin/brave".to_string(),
        temp_download_folder: ".mel-dl".to_string(),
    };
    let s = Settings::from(&sr);
    assert!(!s.order_ascending);
    assert_eq!(s.path, "/home/x/school");
    assert_eq!(s.bin, "/usr/bin/brave");
    assert_eq!(s.temp_download_folder, ".mel-dl");
}

#[test]
fn find_module_takes_first_of_a_name() {
    let modules = vec![module("AA", 1), module("WAD", 2), module("AA", 3)];
    let i = find_module(&modules, "AA").unwrap();
    assert_eq!(i, 0);
    assert_eq!(modules[i].course_nth, 1);
    assert_eq!(find_module(&modules, "WAD"), Some(1));
}

#[test]
fn find_module_refuses_unknown_name() {
    let modules = vec![module("AA", 1)];
    assert_eq!(find_module(&modules, "MAD"), None);
    assert_eq!(find_module(&modules, ""), None);
    assert_eq!(find_module(&Vec::new(), "AA"), None);
}

#[test]
fn login_is_empty() {
    let l: Login = login();
    assert_eq!(l.email, "");
    assert_eq!(l.password, "");
}

#[test]
fn mel_module_new_keeps_parts() {
    let m = mel::Module::new(4, 2, "/tmp/x".to_string(), true);
    assert_eq!(m.course_nth, 4);
    assert_eq!(m.max_depth, 2);
    assert_eq!(m.download_path, "/tmp/x");
    assert!(m.folder_order_ascending);
}
