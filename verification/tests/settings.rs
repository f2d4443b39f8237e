use mirage::config::Config;
use mirage::mode::{next_mode, parse_mode, VisualMode};
use mirage::text::{contains_str, str_eq};
use mirage::theme::{theme_names, Rgb, Theme, ThemeId};

#[test]
fn default_config_values() {
    let c = Config::default();
    assert_eq!(c.visualizer.mode, "bars");
    assert_eq!(c.visualizer.fps, 60);
    assert_eq!(c.visualizer.bar_count, 0);
    assert_eq!(f32::from_bits(c.visualizer.sensitivity_bits), 1.0);
    assert!(c.visualizer.show_side_panel);
    assert_eq!(c.audio.device, "default");
    assert_eq!(c.audio.source, "loopback");
    assert_eq!(c.theme.name, "tokyo_night");
    assert_eq!(f32::from_bits(c.physics.smoothing_bits), 0.7);
    assert_eq!(f32::from_bits(c.physics.spring_k_bits), 15.0);
    assert_eq!(f32::from_bits(c.physics.spring_damping_bits), 1.8);
    assert_eq!(f32::from_bits(c.physics.gravity_bits), 1.5);
}

#[test]
fn tab_cycles_through_all_modes() {
    assert_eq!(next_mode("bars"), "waveform");
    assert_eq!(next_mode("waveform"), "circle");
    assert_eq!(next_mode("circle"), "spectrogram");
    assert_eq!(next_mode("spectrogram"), "lissajous");
    assert_eq!(next_mode("lissajous"), "vu_meter");
    assert_eq!(next_mode("vu_meter"), "bars");
    assert_eq!(next_mode("nonsense"), "bars");
    let mut m = "circle";
    for _ in 0..6 {
        m = next_mode(m);
    }
    assert_eq!(m, "circle");
}

#[test]
fn parse_mode_names() {
    assert_eq!(parse_mode("vu_meter"), Some(VisualMode::VuMeter));
    assert_eq!(parse_mode("Bars"), None);
}

#[test]
fn theme_lookup_ignores_case() {
    let t = Theme::from_name("Nord");
    assert_eq!(t.name, "nord");
    assert_eq!(t.bg, Rgb { r: 46, g: 52, b: 64 });
    let d = Theme::from_name("DRACULA");
    assert_eq!(d.name, "dracula");
    assert_eq!(d.accents[5], Rgb { r: 255, g: 85, b: 85 });
    assert_eq!(Theme::from_name("unknown").name, "tokyo_night");
    assert_eq!(Theme::from_name("").name, "tokyo_night");
}

#[test]
fn theme_round_trip_by_name() {
    for name in theme_names() {
        let t = Theme::from_name(&name);
        assert_eq!(t.name, name);
        assert_eq!(t.accents.len(), 6);
    }
    assert_eq!(theme_names().len(), 6);
}

#[test]
fn gruvbox_and_everforest_palettes() {
    let g = Theme::new_gruvbox();
    assert_eq!(g.accent4, Rgb { r: 204, g: 36, b: 29 });
    let e = Theme::new_everforest();
    assert_eq!(e.accents[3], Rgb { r: 230, g: 152, b: 117 });
    let c = Theme::new_catppuccin();
    assert_eq!(c.fg, Rgb { r: 205, g: 214, b: 244 });
}

#[test]
fn string_helpers() {
    assert!(str_eq("abc", "abc"));
    assert!(!str_eq("abc", "abd"));
    assert!(contains_str("alsa_output.monitor", "monitor"));
    assert!(!contains_str("mon", "monitor"));
    assert!(contains_str("x", ""));
}

#[test]
fn lookup_of_lowercase_names_and_ids() {
    assert_eq!(Theme::for_lowercase_name("gruvbox").name, "gruvbox");
    assert_eq!(Theme::for_lowercase_name("Gruvbox").name, "tokyo_night");
    assert_eq!(Theme::by_id(ThemeId::Everforest).bg, Rgb { r: 43, g: 51, b: 57 });
    assert_eq!(Theme::new_tokyo_night().accents[4], Rgb { r: 255, g: 158, b: 100 });
}
