use fulgor::renderer::cpu_reference::{
    CpuReferenceConfig, CpuReferenceRenderer, CpuReferenceRendererFactory,
};
use fulgor::renderer::{DataPrecision, Renderer, RendererError, RendererFactory};

#[test]
fn test_cpu_reference_renderer_new() {
    let renderer: CpuReferenceRenderer<f32> = CpuReferenceRenderer::new();
    assert_eq!(renderer.is_running(), false);
    assert_eq!(renderer.get_frame_count(), 0);
}

#[test]
fn test_cpu_reference_renderer_f64_new() {
    let renderer: CpuReferenceRenderer<f64> = CpuReferenceRenderer::new();
    assert_eq!(renderer.is_running(), false);
    assert_eq!(renderer.get_frame_count(), 0);
}

#[test]
fn test_cpu_reference_config_default() {
    let config = CpuReferenceConfig::default();
    assert_eq!(config.quality, "medium");
    assert_eq!(config.debug, false);
    assert_eq!(config.precision, DataPrecision::F32);
    assert!(config.threads > 0);
}

#[test]
fn test_cpu_reference_config_parsing() {
    let config = CpuReferenceConfig::from_parameters(DataPrecision::F32, "").unwrap();
    assert_eq!(config.precision, DataPrecision::F32);
    assert_eq!(config.quality, "medium");
    assert_eq!(config.debug, false);

    let config =
        CpuReferenceConfig::from_parameters(DataPrecision::F64, "threads=8,quality=high,debug=true")
            .unwrap();
    assert_eq!(config.precision, DataPrecision::F64);
    assert_eq!(config.threads, 8);
    assert_eq!(config.quality, "high");
    assert_eq!(config.debug, true);

    assert!(CpuReferenceConfig::from_parameters(DataPrecision::F32, "threads=0").is_err());
    assert!(CpuReferenceConfig::from_parameters(DataPrecision::F32, "quality=invalid").is_err());
    assert!(CpuReferenceConfig::from_parameters(DataPrecision::F32, "unsupported=value").is_err());
}

#[test]
fn test_renderer_with_config() {
    let config =
        CpuReferenceConfig::from_parameters(DataPrecision::F32, "threads=4,quality=high,debug=true")
            .unwrap();

    let renderer = CpuReferenceRenderer::<f32>::with_config(config.clone());
    assert_eq!(renderer.get_config().threads, 4);
    assert_eq!(renderer.get_config().quality, "high");
    assert_eq!(renderer.get_config().debug, true);
    assert_eq!(renderer.get_frame_count(), 0);
    assert!(!renderer.is_running());
}

#[test]
fn test_renderer_lifecycle() {
    let mut renderer: CpuReferenceRenderer<f32> = CpuReferenceRenderer::new();

    assert!(!renderer.is_running());
    assert_eq!(renderer.get_frame_count(), 0);

    assert!(renderer.start().is_ok());
    assert!(renderer.is_running());

    assert!(renderer.render_frame().is_ok());
    assert_eq!(renderer.get_frame_count(), 1);

    assert!(renderer.render_frame().is_ok());
    assert_eq!(renderer.get_frame_count(), 2);

    renderer.stop();
    assert!(!renderer.is_running());
    assert_eq!(renderer.get_frame_count(), 2);
}

#[test]
fn test_cannot_render_when_not_running() {
    let mut renderer: CpuReferenceRenderer<f32> = CpuReferenceRenderer::new();
    let result = renderer.render_frame();
    assert!(result.is_err());
    assert!(result.unwrap_err().contains("not running"));
}

#[test]
fn test_cannot_start_when_already_running() {
    let mut renderer: CpuReferenceRenderer<f32> = CpuReferenceRenderer::new();
    renderer.start().unwrap();

    let result = renderer.start();
    assert!(result.is_err());
    assert!(result.unwrap_err().contains("already running"));
}

#[test]
fn test_factory_creation() {
    let factory = CpuReferenceRendererFactory::new();
    let info = factory.get_info();

    assert_eq!(info.name, "CpuReferenceRendererFactory");
    assert_eq!(info.timeout_microseconds, 1000);
    assert!(info.has_capability("software"));
    assert!(info.has_capability("reference"));
    assert!(info.has_capability("debugging"));
    assert!(info.has_capability("cpu"));

    assert!(factory.validate_parameters(DataPrecision::F32, "threads=4").is_ok());
    assert!(factory.validate_parameters(DataPrecision::F64, "quality=high").is_ok());
    assert!(factory.validate_parameters(DataPrecision::F16, "").is_err());

    let renderer = factory.create(DataPrecision::F32, "threads=2,debug=true").unwrap();
    assert_eq!(renderer.name(), "CpuReference");
}

#[test]
fn test_frame_count_operations() {
    let mut renderer: CpuReferenceRenderer<f32> = CpuReferenceRenderer::new();
    renderer.start().unwrap();

    for _ in 0..5 {
        renderer.render_frame().unwrap();
    }

    assert_eq!(renderer.get_frame_count(), 5);

    renderer.reset_frame_count();
    assert_eq!(renderer.get_frame_count(), 0);
}

#[test]
fn test_cpu_config_error_messages() {
    match CpuReferenceConfig::from_parameters(DataPrecision::F32, "threads=x") {
        Err(RendererError::InvalidParameters(m)) => assert_eq!(m, "Invalid threads value: x"),
        _ => panic!("expected InvalidParameters"),
    }
    match CpuReferenceConfig::from_parameters(DataPrecision::F32, "debug=maybe") {
        Err(RendererError::InvalidParameters(m)) => assert_eq!(m, "Invalid debug value: maybe"),
        _ => panic!("expected InvalidParameters"),
    }
    match CpuReferenceConfig::from_parameters(DataPrecision::F32, "threads=2,colour=red") {
        Err(RendererError::InvalidParameters(m)) => assert_eq!(m, "Unsupported parameter: colour"),
        _ => panic!("expected InvalidParameters"),
    }
    match CpuReferenceConfig::from_parameters(DataPrecision::F32, "quality=best") {
        Err(RendererError::InvalidParameters(m)) => assert_eq!(
            m,
            "Invalid quality value: best. Must be one of: low, medium, high, ultra"
        ),
        _ => panic!("expected InvalidParameters"),
    }
}

#[test]
fn test_cpu_factory_rejects_half_precisions() {
    let factory = CpuReferenceRendererFactory::new();
    for p in [DataPrecision::F16, DataPrecision::BFloat16] {
        match factory.create(p, "") {
            Err(RendererError::UnsupportedPrecision(q)) => assert_eq!(q, p),
            _ => panic!("expected UnsupportedPrecision"),
        }
    }
    let renderer = factory.create(DataPrecision::F64, "threads=1").unwrap();
    assert_eq!(renderer.get_data_precision(), DataPrecision::F64);
    assert!(!renderer.is_running());
}
