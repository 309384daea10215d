use ctrait::config::{RendererConfig, FALLBACK_HEIGHT, FALLBACK_WIDTH};

#[test]
fn renderer_config_set_dimensions() {
    let config = RendererConfig { dimensions: Some((5, 10)), ..RendererConfig::default() };
    assert_eq!(config.dimensions(), (5, 10));
}

#[test]
fn renderer_config_fallback_dimensions() {
    let config = RendererConfig { dimensions: None, ..RendererConfig::default() };
    assert_eq!(config.dimensions(), (FALLBACK_WIDTH, FALLBACK_HEIGHT));
}

#[test]
fn config_renderer_config_set_dimensions() {
    let config = RendererConfig { dimensions: Some((5, 10)), ..RendererConfig::default() };
    assert_eq!(config.dimensions(), (5, 10));
}

#[test]
fn config_renderer_config_fallback_dimensions() {
    let config = RendererConfig { dimensions: None, ..RendererConfig::default() };
    assert_eq!(config.dimensions(), (FALLBACK_WIDTH, FALLBACK_HEIGHT));
}

#[test]
fn renderer_config_defaults() {
    let config = RendererConfig::default();
    assert_eq!(config.title, "ctrait");
    assert!(config.resizable);
    assert!(!config.fullscreen);
    assert!(!config.vulkan);
    assert!(config.position.is_none());
}
