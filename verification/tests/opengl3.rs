use fulgor::renderer::opengl::OpenGLRendererFactory;
use fulgor::renderer::opengl3::{
    OpenGL3Renderer, OpenGL3RendererBuilder, OpenGL3RendererConfig, OpenGL3RendererFactory,
};
use fulgor::renderer::{
    Capability, DataPrecision, ProcessingUnitCapability, Renderer, RendererError, RendererFactory,
};

#[test]
fn test_opengl3_renderer_creation() {
    let renderer = OpenGL3Renderer::default();
    assert_eq!(renderer.name(), "OpenGL3Renderer");
    assert_eq!(renderer.get_data_precision(), DataPrecision::F32);
    assert!(!renderer.is_running());
    assert_eq!(renderer.get_frame_count(), 0);
    assert!(!renderer.is_context_initialized());
}

#[test]
fn test_opengl3_renderer_lifecycle() {
    let mut renderer = OpenGL3Renderer::default();

    let result = renderer.start();
    assert!(result.is_ok());
    assert!(renderer.is_running());
    assert!(renderer.is_context_initialized());

    let result = renderer.render_frame();
    assert!(result.is_ok());
    assert_eq!(renderer.get_frame_count(), 1);

    renderer.stop();
    assert!(!renderer.is_running());
    assert!(!renderer.is_context_initialized());
}

#[test]
fn test_opengl3_renderer_builder() {
    let renderer = OpenGL3RendererBuilder::new()
        .opengl_version(4, 5)
        .unwrap()
        .max_splat_count(500_000)
        .msaa_samples(8)
        .unwrap()
        .viewport_size(2560, 1440)
        .supported_precisions(vec![DataPrecision::F16, DataPrecision::F32])
        .preferred_precision(DataPrecision::F32)
        .depth_testing(true)
        .alpha_blending(true)
        .opengl_parameter("vsync", "1")
        .build();

    assert_eq!(renderer.config().opengl_version, (4, 5));
    assert_eq!(renderer.config().max_splat_count, 500_000);
    assert_eq!(renderer.config().msaa_samples, 8);
    assert_eq!(renderer.config().viewport_size, (2560, 1440));
    assert_eq!(renderer.config().supported_precisions.len(), 2);
    assert_eq!(renderer.config().preferred_precision, DataPrecision::F32);
    assert!(renderer.config().depth_testing);
    assert!(renderer.config().alpha_blending);
    assert_eq!(renderer.config().opengl_parameters.get("vsync"), Some(&"1".to_string()));
}

#[test]
fn test_precision_support() {
    let mut renderer = OpenGL3RendererBuilder::new()
        .supported_precisions(vec![DataPrecision::F16, DataPrecision::F32])
        .preferred_precision(DataPrecision::F32)
        .build();

    assert!(renderer.supports_precision(DataPrecision::F16));
    assert!(renderer.supports_precision(DataPrecision::F32));
    assert!(!renderer.supports_precision(DataPrecision::F64));
    assert!(!renderer.supports_precision(DataPrecision::BFloat16));

    let result = renderer.set_data_precision(DataPrecision::F16);
    assert!(result.is_ok());
    assert_eq!(renderer.get_data_precision(), DataPrecision::F16);

    let result = renderer.set_data_precision(DataPrecision::F64);
    assert!(result.is_err());
    assert!(result.unwrap_err().contains("not supported"));

    let result = renderer.set_data_precision(DataPrecision::BFloat16);
    assert!(result.is_err());
    assert!(result.unwrap_err().contains("not supported"));
}

#[test]
fn test_opengl_version_validation() {
    let result = OpenGL3RendererBuilder::new().opengl_version(2, 1);
    assert!(result.is_err());
    assert!(result.unwrap_err().contains("OpenGL 3.3 or higher required"));

    let result = OpenGL3RendererBuilder::new().opengl_version(3, 2);
    assert!(result.is_err());

    let result = OpenGL3RendererBuilder::new().opengl_version(3, 3);
    assert!(result.is_ok());

    let result = OpenGL3RendererBuilder::new().opengl_version(4, 6);
    assert!(result.is_ok());
}

#[test]
fn test_msaa_validation() {
    let builder = OpenGL3RendererBuilder::new();

    assert!(builder.clone().msaa_samples(0).is_ok());
    assert!(builder.clone().msaa_samples(2).is_ok());
    assert!(builder.clone().msaa_samples(4).is_ok());
    assert!(builder.clone().msaa_samples(8).is_ok());
    assert!(builder.clone().msaa_samples(16).is_ok());

    assert!(builder.clone().msaa_samples(1).is_err());
    assert!(builder.clone().msaa_samples(3).is_err());
    assert!(builder.clone().msaa_samples(32).is_err());
}

#[test]
fn test_viewport_management() {
    let mut renderer = OpenGL3Renderer::default();
    assert_eq!(renderer.viewport_size(), (1920, 1080));

    renderer.set_viewport_size(2560, 1440);
    assert_eq!(renderer.viewport_size(), (2560, 1440));
}

#[test]
fn test_configuration_from_parameters() {
    let config = OpenGL3RendererConfig::from_parameters(
        DataPrecision::F32,
        "opengl_version=4.2,max_splat_count=750000,msaa_samples=8,viewport_size=1920x1080,depth_testing=true",
    )
    .unwrap();

    assert_eq!(config.opengl_version, (4, 2));
    assert_eq!(config.max_splat_count, 750_000);
    assert_eq!(config.msaa_samples, 8);
    assert_eq!(config.viewport_size, (1920, 1080));
    assert!(config.depth_testing);
}

#[test]
fn test_capability_trait_implementation() {
    let renderer = OpenGL3Renderer::default();
    assert_eq!(renderer.capability_name(), "opengl3_renderer");
    assert!(renderer.description().is_some());
    assert!(renderer.description().unwrap().contains("OpenGL 3.x renderer"));
    assert!(renderer.description().unwrap().contains("hardware acceleration"));
}

#[test]
fn test_shader_sources() {
    let vertex_shader = OpenGL3RendererConfig::default_vertex_shader();
    let fragment_shader = OpenGL3RendererConfig::default_fragment_shader();

    assert!(vertex_shader.contains("#version 330 core"));
    assert!(vertex_shader.contains("layout (location = 0) in vec3 position"));
    assert!(vertex_shader.contains("covariance"));

    assert!(fragment_shader.contains("#version 330 core"));
    assert!(fragment_shader.contains("gl_PointCoord"));
    assert!(fragment_shader.contains("gaussian"));
}

#[test]
fn test_opengl_requirements() {
    let mut renderer = OpenGL3RendererBuilder::new()
        .opengl_version(2, 1)
        .unwrap_or_else(|_| OpenGL3RendererBuilder::new())
        .build();

    renderer.config.opengl_version = (2, 1);
    let result = renderer.set_data_precision(DataPrecision::F16);
    assert!(result.is_err());
    assert!(result.unwrap_err().contains("OpenGL 3.0 or higher"));
}

#[test]
fn test_opengl3_factory_checks_parameters() {
    let factory = OpenGL3RendererFactory::new();
    assert!(factory.validate_parameters(DataPrecision::F32, "msaa_samples=4").is_ok());
    match factory.create(DataPrecision::F32, "msaa_samples=3") {
        Err(RendererError::InvalidParameters(_)) => {}
        _ => panic!("expected InvalidParameters"),
    }
    let renderer = factory.create(DataPrecision::F16, "").unwrap();
    assert_eq!(renderer.get_data_precision(), DataPrecision::F16);
    assert_eq!(renderer.name(), "OpenGL3Renderer");
}

#[test]
fn test_opengl_factory_dispatches_on_version() {
    let factory = OpenGLRendererFactory::new();
    let renderer = factory.create(DataPrecision::F32, "opengl_version=3.3").unwrap();
    assert_eq!(renderer.name(), "OpenGL3Renderer");
    match factory.create(DataPrecision::F32, "opengl_version=4.1") {
        Err(RendererError::CreationFailed(m)) => {
            assert_eq!(m, "OpenGL 4.x renderer not yet implemented")
        }
        _ => panic!("expected CreationFailed"),
    }
    match factory.create(DataPrecision::F32, "opengl_version=2.1") {
        Err(RendererError::InvalidParameters(_)) => {}
        _ => panic!("expected InvalidParameters"),
    }
}

#[test]
fn opengl3_listed_but_unrenderable_precisions_are_refused_with_their_messages() {
    let mut config = OpenGL3RendererConfig::default();
    config.supported_precisions = vec![
        DataPrecision::F16,
        DataPrecision::F32,
        DataPrecision::F64,
        DataPrecision::BFloat16,
    ];
    let mut renderer = OpenGL3Renderer::new(config);
    let result = renderer.set_data_precision(DataPrecision::F64);
    assert_eq!(
        result.unwrap_err(),
        "F64 precision not supported by OpenGL vertex attributes"
    );
    let result = renderer.set_data_precision(DataPrecision::BFloat16);
    assert_eq!(
        result.unwrap_err(),
        "BFloat16 precision not supported by standard OpenGL"
    );
    assert_eq!(renderer.get_data_precision(), DataPrecision::F32);
}

#[test]
fn opengl_version_is_parsed_and_removed_from_the_rest() {
    let factory = OpenGLRendererFactory::new();
    let (major, minor, rest) = factory
        .parse_opengl_version("msaa_samples=8,opengl_version=4.1,depth_testing=false")
        .unwrap();
    assert_eq!((major, minor), (4, 1));
    assert_eq!(rest, "msaa_samples=8,depth_testing=false");
    let (major, minor, rest) = factory.parse_opengl_version("").unwrap();
    assert_eq!((major, minor, rest.as_str()), (3, 3, ""));
    assert!(matches!(
        factory.parse_opengl_version("opengl_version=4"),
        Err(RendererError::InvalidParameters(_))
    ));
}

#[test]
fn opengl_remaining_parameters_reparse_without_the_version() {
    let factory = OpenGLRendererFactory::new();
    let (_, _, rest) = factory
        .parse_opengl_version(" alpha = 1 ,opengl_version=3.3,flag, beta=x=y ")
        .unwrap();
    assert_eq!(rest, "alpha=1,flag=true,beta=x=y");
    let reparsed = fulgor::parameters::parse_parameters(&rest);
    assert_eq!(reparsed.len(), 3);
    assert_eq!(reparsed.get("alpha").map(|s| s.as_str()), Some("1"));
    assert_eq!(reparsed.get("flag").map(|s| s.as_str()), Some("true"));
    assert_eq!(reparsed.get("beta").map(|s| s.as_str()), Some("x=y"));
    assert!(reparsed.get("opengl_version").is_none());
}

#[test]
fn opengl3_configurations_stay_in_range() {
    for text in ["", "msaa_samples=16,opengl_version=4.6", "msaa_samples=0", "opengl_version=3.3"] {
        let config = OpenGL3RendererConfig::from_parameters(DataPrecision::F16, text).unwrap();
        assert!([0, 2, 4, 8, 16].contains(&config.msaa_samples));
        assert!(config.opengl_version >= (3, 3));
        assert_eq!(config.preferred_precision, DataPrecision::F16);
        assert_eq!(config.supported_precisions, vec![DataPrecision::F16, DataPrecision::F32]);
        assert!(config.geometry_shader.is_none());
    }
    assert!(OpenGL3RendererConfig::from_parameters(DataPrecision::F32, "msaa_samples=3").is_err());
    assert!(OpenGL3RendererConfig::from_parameters(DataPrecision::F32, "opengl_version=3.2").is_err());
    let config = OpenGL3RendererConfig::from_parameters(DataPrecision::F32, "opengl_version=4").unwrap();
    assert_eq!(config.opengl_version, (3, 3));
}
