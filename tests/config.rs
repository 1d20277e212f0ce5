use keyviewer::config::{
    default_chip_gap, default_chip_pad_h, default_chip_pad_v, default_chip_radius,
    default_color_mode, default_color_mode_str, default_font_color, default_font_family,
    default_font_size, default_font_url, default_font_weight, default_grad_color1,
    default_grad_color2, default_grad_dir, default_shadow, default_text_color, BackgroundConfig,
    FontConfig, GradientConfig, KeyStyleConfig, LauncherSettings, OverlayConfig, StyleGroup,
    TargetConfig,
};

#[test]
fn target_default_is_disabled() {
    let t = TargetConfig::default();
    assert_eq!(t.mode, "disabled");
    assert!(t.value.is_none());
}

#[test]
fn overlay_defaults() {
    let o = OverlayConfig::default();
    assert_eq!((o.fade_in_ms, o.fade_out_ms), (120, 120));
    assert_eq!(o.chip_bg, "#000000");
    assert_eq!(o.chip_fg, "#ffffff");
    assert_eq!((o.chip_gap, o.chip_pad_v, o.chip_pad_h, o.chip_radius), (8, 10, 14, 10));
    assert_eq!((o.chip_font_px, o.chip_font_weight), (24, 700));
    assert_eq!(o.background, "rgba(0,0,0,0)");
    assert_eq!((o.cols, o.rows), (8, 1));
    assert!(!o.single_line);
    assert_eq!(o.single_line_scale, 90);
    assert_eq!(o.align, "left");
    assert_eq!(o.direction, "ltr");
    assert_eq!(o.color_mode, default_color_mode());
    assert_eq!(o.grad_color1, default_grad_color1());
    assert_eq!(o.grad_color2, default_grad_color2());
    assert_eq!(o.grad_dir, default_grad_dir());
}

#[test]
fn style_defaults() {
    let b = BackgroundConfig::default();
    assert!(b.transparent);
    assert_eq!(b.mode, "solid");
    assert_eq!(b.color.as_deref(), Some("#000000"));
    assert!(b.gradient.is_none() && b.image.is_none());
    let g = GradientConfig::default();
    assert_eq!((g.color1.as_str(), g.color2.as_str(), g.direction.as_str()), ("#000000", "#333333", "to bottom"));
    let f = FontConfig::default();
    assert_eq!(f.family, default_font_family());
    assert_eq!(f.url, default_font_url());
    assert_eq!((f.size, f.weight), (default_font_size(), default_font_weight()));
    assert_eq!(f.color_mode, default_color_mode_str());
    assert_eq!(f.color, default_font_color());
    assert!(f.gradient.is_none());
    assert!(!f.transparent);
    assert_eq!(f.shadow, default_shadow());
    let k = KeyStyleConfig::default();
    assert!(k.style_groups.is_empty());
    assert_eq!(k.default_font.family, "system-ui");
    assert_eq!((k.chip_gap, k.chip_pad_v, k.chip_pad_h, k.chip_radius), (8, 10, 14, 10));
}

#[test]
fn default_functions() {
    assert_eq!(default_color_mode(), "solid");
    assert_eq!(default_grad_color1(), "#000000");
    assert_eq!(default_grad_color2(), "#333333");
    assert_eq!(default_grad_dir(), "to bottom");
    assert_eq!(default_font_family(), "system-ui");
    assert_eq!(default_font_url(), None);
    assert_eq!(default_font_size(), 24);
    assert_eq!(default_font_weight(), 700);
    assert_eq!(default_color_mode_str(), "solid");
    assert_eq!(default_font_color(), "#ffffff");
    assert!(default_shadow());
    assert_eq!(default_chip_gap(), 8);
    assert_eq!(default_chip_pad_v(), 10);
    assert_eq!(default_chip_pad_h(), 14);
    assert_eq!(default_chip_radius(), 10);
    assert_eq!(default_text_color().as_deref(), Some("#ffffff"));
}

#[test]
fn launcher_defaults() {
    let l = LauncherSettings::default();
    assert_eq!(l.port, 8000);
    assert_eq!(l.language, "ko");
    assert!(!l.run_on_startup);
}

#[test]
fn style_group_holds_its_parts() {
    let g = StyleGroup {
        id: "g1".to_string(),
        name: "Movement".to_string(),
        group_type: "group".to_string(),
        keys: vec!["W".to_string(), "A".to_string()],
        chip_bg: BackgroundConfig::default(),
        font: FontConfig::default(),
    };
    let c = g.clone();
    assert_eq!(c.keys.len(), 2);
    assert_eq!(c.font.size, 24);
}
