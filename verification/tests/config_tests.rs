use framecast::config::{default_frame_height, default_url, resolve_config, Config};
use framecast::frame::target_width;

#[test]
fn documented_defaults() {
    assert_eq!(default_url(), "127.0.0.1:8082");
    assert_eq!(default_frame_height(), 540);
}

#[test]
fn missing_or_malformed_config_falls_back_to_defaults() {
    let c = resolve_config(None);
    assert_eq!(c.url, "127.0.0.1:8082");
    assert_eq!(c.frame_height, 540);
}

#[test]
fn supplied_config_is_kept() {
    let supplied = Config {
        url: String::from("0.0.0.0:9000"),
        frame_height: 720,
    };
    let c = resolve_config(Some(supplied));
    assert_eq!(c.url, "0.0.0.0:9000");
    assert_eq!(c.frame_height, 720);
}

#[test]
fn default_trait_matches_documented_defaults() {
    let c = Config::default();
    assert_eq!(c.url, "127.0.0.1:8082");
    assert_eq!(c.frame_height, 540);
}

#[test]
fn target_width_preserves_aspect_ratio() {
    // A 1920x1080 source scaled to height 540 keeps its 16:9 ratio.
    assert_eq!(target_width(540, 1920, 1080), 960);
}

#[test]
fn target_width_truncates_toward_zero() {
    // 7 * 100 / 30 = 23.33..., truncated to 23.
    assert_eq!(target_width(7, 100, 30), 23);
    assert_eq!(target_width(540, 1280, 720), 960);
    assert_eq!(target_width(540, 0, 720), 0);
    assert_eq!(target_width(0, 1920, 1080), 0);
}
