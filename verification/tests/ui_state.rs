use mirage::app::{active_popup, App, Key, KeyAction, Popup, METRICS_WINDOW};
use mirage::config::Config;

fn app() -> App<f32> {
    App::new(Config::default(), vec!["Speakers".to_string(), "Mic".to_string()], 0.0)
}

#[test]
fn new_app_is_idle() {
    let a = app();
    assert_eq!(a.theme.name, "tokyo_night");
    assert_eq!(a.themes.len(), 6);
    assert!(!a.menu.show_help && !a.menu.show_device_select && !a.menu.show_theme_select);
    assert_eq!(a.get_mono_samples(4), vec![0.0; 4]);
    assert_eq!(active_popup(&a.menu), Popup::NoPopup);
}

#[test]
fn theme_menu_select_and_confirm() {
    let mut a = app();
    assert_eq!(a.handle_key(Key::Char('t')), KeyAction::Nothing);
    assert!(a.menu.show_theme_select);
    assert_eq!(a.menu.theme_selected, Some(0));
    assert_eq!(active_popup(&a.menu), Popup::ThemeList);
    a.handle_key(Key::Down);
    assert_eq!(a.menu.theme_selected, Some(1));
    a.handle_key(Key::Up);
    a.handle_key(Key::Up);
    assert_eq!(a.menu.theme_selected, Some(5));
    assert_eq!(a.handle_key(Key::Enter), KeyAction::Save);
    assert_eq!(a.config.theme.name, "everforest");
    assert_eq!(a.theme.name, "everforest");
    assert!(!a.menu.show_theme_select);
    assert_eq!(a.handle_key(Key::Char('T')), KeyAction::Nothing);
    assert_eq!(a.menu.theme_selected, Some(5));
}

#[test]
fn device_menu_wraps_and_restarts() {
    let mut a = app();
    assert_eq!(a.handle_key(Key::Char('d')), KeyAction::ListDevices);
    a.open_device_select(vec!["A".to_string(), "B".to_string(), "C".to_string()], "B");
    assert_eq!(a.menu.device_selected, Some(1));
    a.menu_next();
    a.menu_next();
    assert_eq!(a.menu.device_selected, Some(0));
    a.menu_prev();
    assert_eq!(a.menu.device_selected, Some(2));
    a.push_frame(1.0, 2.0, 1.5);
    assert_eq!(a.get_mono_samples(1), vec![1.5]);
    assert_eq!(a.handle_key(Key::Enter), KeyAction::RestartAudioAndSave);
    assert_eq!(a.config.audio.device, "C");
    assert_eq!(a.get_mono_samples(1), vec![0.0]);
    assert!(!a.menu.show_device_select);
}

#[test]
fn device_menu_unknown_device_selects_first() {
    let mut a = app();
    a.open_device_select(vec!["A".to_string()], "Z");
    assert_eq!(a.menu.device_selected, Some(0));
    assert_eq!(a.handle_key(Key::Esc), KeyAction::Nothing);
    assert!(!a.menu.show_device_select);
}

#[test]
fn confirm_with_empty_device_list_changes_nothing() {
    let mut a = app();
    a.open_device_select(Vec::new(), "X");
    assert_eq!(a.menu_confirm(), KeyAction::Nothing);
    assert_eq!(a.config.audio.device, "default");
}

#[test]
fn global_keys() {
    let mut a = app();
    assert_eq!(a.handle_key(Key::Tab), KeyAction::Save);
    assert_eq!(a.config.visualizer.mode, "waveform");
    assert_eq!(a.handle_key(Key::Char('p')), KeyAction::Save);
    assert!(!a.config.visualizer.show_side_panel);
    assert_eq!(a.handle_key(Key::Char('x')), KeyAction::Nothing);
    assert_eq!(a.handle_key(Key::F(1)), KeyAction::Nothing);
    assert!(a.menu.show_help);
    assert_eq!(active_popup(&a.menu), Popup::Help);
    assert_eq!(a.handle_key(Key::Tab), KeyAction::Nothing);
    assert_eq!(a.config.visualizer.mode, "waveform");
    assert_eq!(a.handle_key(Key::Char('Q')), KeyAction::Quit);
    assert_eq!(a.handle_key(Key::F(1)), KeyAction::Nothing);
    assert!(!a.menu.show_help);
    assert_eq!(a.handle_key(Key::Char('q')), KeyAction::Quit);
}

#[test]
fn popups_never_overlap() {
    let mut a = app();
    let keys = [
        Key::F(1), Key::Char('t'), Key::Esc, Key::Char('t'), Key::F(1), Key::Down, Key::Enter,
        Key::F(1), Key::Char('d'), Key::Esc, Key::Char('t'), Key::Up, Key::Esc,
    ];
    for k in keys {
        a.handle_key(k);
        let open = [a.menu.show_help, a.menu.show_device_select, a.menu.show_theme_select];
        assert!(open.iter().filter(|b| **b).count() <= 1);
    }
}

#[test]
fn apply_new_config_restarts_only_on_device_or_source_change() {
    let mut a = app();
    a.push_frame(1.0, 1.0, 1.0);
    let mut c = Config::default();
    c.theme.name = "Gruvbox".to_string();
    assert!(!a.apply_new_config(c));
    assert_eq!(a.theme.name, "gruvbox");
    assert_eq!(a.get_mono_samples(1), vec![1.0]);
    let mut c2 = Config::default();
    c2.audio.source = "mic".to_string();
    assert!(a.apply_new_config(c2));
    assert_eq!(a.get_mono_samples(1), vec![0.0]);
    assert_eq!(a.theme.name, "tokyo_night");
}

#[test]
fn sample_windows() {
    let mut a = app();
    for i in 0..3000 {
        a.push_frame(i as f32, -(i as f32), 0.5);
    }
    assert_eq!(a.get_left_samples(2), vec![2998.0, 2999.0]);
    assert_eq!(a.get_right_samples(1), vec![-2999.0]);
    assert_eq!(a.get_left_samples(5000).len(), 2048);
    let (l, r) = a.stereo_window();
    assert_eq!(l.len(), METRICS_WINDOW);
    assert_eq!(r.len(), METRICS_WINDOW);
    assert_eq!(l[0], (3000 - METRICS_WINDOW) as f32);
    a.record_spectrum(vec![0.25, 0.5]);
    assert_eq!(a.waterfall_history.len(), 1);
}

#[test]
fn source_keys_switch_and_restart() {
    let mut a = app();
    a.push_frame(1.0, 1.0, 1.0);
    assert_eq!(a.handle_key(Key::Char('1')), KeyAction::Nothing);
    assert_eq!(a.get_mono_samples(1), vec![1.0]);
    assert_eq!(a.handle_key(Key::Char('s')), KeyAction::RestartAudioAndSave);
    assert_eq!(a.config.audio.source, "mic");
    assert_eq!(a.get_mono_samples(1), vec![0.0]);
    assert_eq!(a.handle_key(Key::Char('S')), KeyAction::RestartAudioAndSave);
    assert_eq!(a.config.audio.source, "loopback");
    assert_eq!(a.handle_key(Key::Char('2')), KeyAction::RestartAudioAndSave);
    assert_eq!(a.config.audio.source, "mic");
    assert_eq!(a.handle_key(Key::Char('2')), KeyAction::Nothing);
    a.config.audio.source = "line-in".to_string();
    assert_eq!(a.handle_key(Key::Char('s')), KeyAction::RestartAudioAndSave);
    assert_eq!(a.config.audio.source, "loopback");
}
