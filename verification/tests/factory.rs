use std::any::Any;
use std::any::TypeId;

use fulgor::renderer::factory::{
    parse_parameters, MockRenderer, MockRendererFactory, ParameterMap, ReferenceRendererConfig,
    RendererFactory, RendererInfo,
};
use fulgor::renderer::{DataPrecision, Renderer, RendererError};

fn assert_send_sync<T: Send + Sync>() {}

#[test]
fn test_renderer_info_creation() {
    let mut params = ParameterMap::new();
    params.insert("buffer_size".to_string(), "Size of the rendering buffer".to_string());
    params.insert("quality".to_string(), "Rendering quality level (1-10)".to_string());

    let info = RendererInfo::new(
        "TestRenderer".to_string(),
        "3d_rendering,gaussian_splatting,real_time".to_string(),
        params,
        5000,
    );

    assert_eq!(info.name, "TestRenderer");
    assert_eq!(info.timeout_microseconds, 5000);
    assert_eq!(info.parameters.len(), 2);
}

#[test]
fn test_get_capabilities() {
    let info = RendererInfo::new(
        "TestRenderer".to_string(),
        "3d_rendering, gaussian_splatting,real_time , optimization".to_string(),
        ParameterMap::new(),
        1000,
    );

    let capabilities = info.get_capabilities();
    assert_eq!(capabilities.len(), 4);
    assert!(capabilities.contains(&"3d_rendering"));
    assert!(capabilities.contains(&"gaussian_splatting"));
    assert!(capabilities.contains(&"real_time"));
    assert!(capabilities.contains(&"optimization"));
}

#[test]
fn test_get_capabilities_with_empty_entries() {
    let info = RendererInfo::new(
        "TestRenderer".to_string(),
        "valid_cap, , another_cap,  ".to_string(),
        ParameterMap::new(),
        1000,
    );

    let capabilities = info.get_capabilities();
    assert_eq!(capabilities.len(), 2);
    assert!(capabilities.contains(&"valid_cap"));
    assert!(capabilities.contains(&"another_cap"));
}

#[test]
fn test_has_capability() {
    let info = RendererInfo::new(
        "TestRenderer".to_string(),
        "3d_rendering,gaussian_splatting,real_time".to_string(),
        ParameterMap::new(),
        1000,
    );

    assert!(info.has_capability("3d_rendering"));
    assert!(info.has_capability("gaussian_splatting"));
    assert!(info.has_capability("real_time"));
    assert!(!info.has_capability("invalid_capability"));
    assert!(!info.has_capability("3D_RENDERING"));
}

#[test]
fn test_has_capability_with_whitespace() {
    let info = RendererInfo::new(
        "TestRenderer".to_string(),
        "capability_one, capability_two ".to_string(),
        ParameterMap::new(),
        1000,
    );

    assert!(info.has_capability("capability_one"));
    assert!(info.has_capability("capability_two"));
    assert!(info.has_capability(" capability_one "));
}

#[test]
fn test_parameter_methods() {
    let mut params = ParameterMap::new();
    params.insert("width".to_string(), "Render width in pixels".to_string());
    params.insert("height".to_string(), "Render height in pixels".to_string());

    let info = RendererInfo::new("TestRenderer".to_string(), "rendering".to_string(), params, 1000);

    assert!(info.has_parameter("width"));
    assert!(info.has_parameter("height"));
    assert!(!info.has_parameter("depth"));

    assert_eq!(
        info.get_parameter_description("width"),
        Some(&"Render width in pixels".to_string())
    );
    assert_eq!(info.get_parameter_description("nonexistent"), None);

    let params_ref = info.get_parameters();
    assert_eq!(params_ref.len(), 2);
}

#[test]
fn test_set_id() {
    let mut info = RendererInfo::new(
        "TestRenderer".to_string(),
        "rendering".to_string(),
        ParameterMap::new(),
        1000,
    );

    let original_id = info.id;
    let new_id = TypeId::of::<String>();

    info.set_id(new_id);
    assert_ne!(info.id, original_id);
    assert_eq!(info.id, new_id);
}

#[test]
fn test_debug_and_clone() {
    let info = RendererInfo::new(
        "TestRenderer".to_string(),
        "rendering".to_string(),
        ParameterMap::new(),
        1000,
    );

    let debug_string = format!("{:?}", info);
    assert!(debug_string.contains("RendererInfo"));
    assert!(debug_string.contains("TestRenderer"));

    let cloned_info = info.clone();
    assert_eq!(info.name, cloned_info.name);
    assert_eq!(info.capabilities, cloned_info.capabilities);
    assert_eq!(info.timeout_microseconds, cloned_info.timeout_microseconds);
    assert_eq!(info.id, cloned_info.id);
}

#[test]
fn test_empty_capabilities() {
    let info = RendererInfo::new(
        "MinimalRenderer".to_string(),
        "".to_string(),
        ParameterMap::new(),
        1000,
    );

    let capabilities = info.get_capabilities();
    assert!(capabilities.is_empty());
    assert!(!info.has_capability("anything"));
}

#[test]
fn test_capability_parsing_edge_cases() {
    let info1 = RendererInfo::new(
        "TestRenderer".to_string(),
        " , , , ".to_string(),
        ParameterMap::new(),
        1000,
    );
    assert!(info1.get_capabilities().is_empty());

    let info2 = RendererInfo::new(
        "TestRenderer".to_string(),
        "single_capability".to_string(),
        ParameterMap::new(),
        1000,
    );
    let caps2 = info2.get_capabilities();
    assert_eq!(caps2.len(), 1);
    assert_eq!(caps2[0], "single_capability");

    let info3 = RendererInfo::new(
        "TestRenderer".to_string(),
        "cap1,cap2,".to_string(),
        ParameterMap::new(),
        1000,
    );
    let caps3 = info3.get_capabilities();
    assert_eq!(caps3.len(), 2);
    assert!(caps3.contains(&"cap1"));
    assert!(caps3.contains(&"cap2"));
}

#[test]
fn test_mock_renderer() {
    let mut renderer = MockRenderer::new("TestMock", DataPrecision::F32);

    assert_eq!(renderer.name(), "TestMock");
    assert_eq!(renderer.precision(), DataPrecision::F32);
    assert!(!renderer.is_started());

    assert!(renderer.start().is_ok());
    assert!(renderer.is_started());

    assert!(renderer.start().is_err());

    renderer.stop();
    assert!(!renderer.is_started());
}

#[test]
fn test_mock_factory_creation() {
    let factory = MockRendererFactory::new("TestFactory");
    let info = factory.get_info();

    assert_eq!(info.name, "TestFactory");
    assert_eq!(info.timeout_microseconds, 5000);
    assert!(info.has_capability("testing"));
    assert!(info.has_capability("mock"));
    assert!(info.has_capability("basic_rendering"));
    assert!(!info.has_capability("gpu_acceleration"));
}

#[test]
fn test_factory_create_renderer() {
    let factory = MockRendererFactory::new("TestFactory");

    let renderer = factory.create(DataPrecision::F32, "test_params");
    assert!(renderer.is_ok());
    let renderer = renderer.unwrap();
    assert_eq!(renderer.name(), "Mock");

    let renderer = factory.create(DataPrecision::F64, "custom_name=true");
    assert!(renderer.is_ok());
    let renderer = renderer.unwrap();
    assert_eq!(renderer.name(), "CustomMock");
}

#[test]
fn test_factory_unsupported_precision() {
    let factory = MockRendererFactory::new_with_precisions("LimitedFactory", vec![DataPrecision::F32]);

    let result = factory.create(DataPrecision::F32, "test");
    assert!(result.is_ok());

    let result = factory.create(DataPrecision::F64, "test");
    assert!(result.is_err());
    match result.unwrap_err() {
        RendererError::UnsupportedPrecision(DataPrecision::F64) => {}
        _ => panic!("Expected UnsupportedPrecision error"),
    }

    let advanced_factory = MockRendererFactory::new_with_precisions(
        "AdvancedFactory",
        vec![DataPrecision::F16, DataPrecision::BFloat16],
    );

    assert!(advanced_factory.create(DataPrecision::F16, "").is_ok());
    assert!(advanced_factory.create(DataPrecision::BFloat16, "").is_ok());
    assert!(advanced_factory.create(DataPrecision::F32, "").is_err());
}

#[test]
fn test_parameter_validation() {
    let factory = MockRendererFactory::new("TestFactory");

    assert!(factory.validate_parameters(DataPrecision::F32, "valid_params").is_ok());
    assert!(factory.validate_parameters(DataPrecision::F32, "custom_name=true").is_ok());
    assert!(factory.validate_parameters(DataPrecision::F32, "test_mode=debug").is_ok());

    let result = factory.validate_parameters(DataPrecision::F32, "invalid_params");
    assert!(result.is_err());
    match result.unwrap_err() {
        RendererError::InvalidParameters(_) => {}
        _ => panic!("Expected InvalidParameters error"),
    }

    let long_params = "a".repeat(101);
    let result = factory.validate_parameters(DataPrecision::F32, &long_params);
    assert!(result.is_err());

    let result = factory.validate_parameters(DataPrecision::F32, "custom_name=false");
    assert!(result.is_err());
}

#[test]
fn test_factory_type_id() {
    let factory1 = MockRendererFactory::new("Factory1");
    let factory2 = MockRendererFactory::new("Factory2");

    assert_eq!(factory1.type_id(), factory2.type_id());
    assert_eq!(factory1.type_id(), TypeId::of::<MockRendererFactory>());
}

#[test]
fn test_trait_send_sync() {
    assert_send_sync::<MockRendererFactory>();
    assert_send_sync::<Box<dyn RendererFactory>>();
    assert_send_sync::<Box<dyn Renderer>>();
}

#[test]
fn test_renderer_info_integration() {
    let factory = MockRendererFactory::new_full(
        "AdvancedRenderer",
        vec![DataPrecision::F32, DataPrecision::F64, DataPrecision::F16],
        "3d_rendering,gaussian_splatting,real_time,gpu_accelerated",
        2000,
    );

    let info = factory.get_info();
    assert_eq!(info.name, "AdvancedRenderer");
    assert_eq!(info.timeout_microseconds, 2000);

    assert!(info.has_capability("3d_rendering"));
    assert!(info.has_capability("gaussian_splatting"));
    assert!(info.has_capability("real_time"));
    assert!(info.has_capability("gpu_accelerated"));
    assert!(!info.has_capability("cpu_only"));

    assert!(info.has_parameter("custom_name"));
    assert!(info.has_parameter("test_mode"));
    assert!(!info.has_parameter("nonexistent"));

    assert!(info.get_parameter_description("custom_name").is_some());
    assert!(info.get_parameter_description("nonexistent").is_none());
}

#[test]
fn test_all_data_precision_variants() {
    let factory = MockRendererFactory::new_with_precisions(
        "FullPrecisionFactory",
        vec![DataPrecision::F16, DataPrecision::F32, DataPrecision::F64, DataPrecision::BFloat16],
    );

    assert!(factory.create(DataPrecision::F16, "").is_ok());
    assert!(factory.create(DataPrecision::F32, "").is_ok());
    assert!(factory.create(DataPrecision::F64, "").is_ok());
    assert!(factory.create(DataPrecision::BFloat16, "").is_ok());

    let renderer_f16 = factory.create(DataPrecision::F16, "").unwrap();
    assert_eq!(renderer_f16.get_data_precision(), DataPrecision::F16);
}

#[test]
fn test_error_propagation() {
    let factory = MockRendererFactory::new("TestFactory");

    let result = factory.create(DataPrecision::F32, "invalid_test");
    assert!(result.is_err());

    if let Err(RendererError::InvalidParameters(msg)) = result {
        assert!(msg.contains("invalid"));
    } else {
        panic!("Expected InvalidParameters error with preserved message");
    }
}

#[test]
fn test_parse_parameters() {
    let params = parse_parameters("");
    assert!(params.is_empty());

    let params = parse_parameters("threads=4");
    assert_eq!(params.get("threads"), Some(&"4".to_string()));

    let params = parse_parameters("threads=4,quality=high,debug=true");
    assert_eq!(params.get("threads"), Some(&"4".to_string()));
    assert_eq!(params.get("quality"), Some(&"high".to_string()));
    assert_eq!(params.get("debug"), Some(&"true".to_string()));

    let params = parse_parameters(" threads = 4 , quality = high ");
    assert_eq!(params.get("threads"), Some(&"4".to_string()));
    assert_eq!(params.get("quality"), Some(&"high".to_string()));

    let params = parse_parameters("debug,verbose");
    assert_eq!(params.get("debug"), Some(&"true".to_string()));
    assert_eq!(params.get("verbose"), Some(&"true".to_string()));

    let params = parse_parameters("threads=8,debug,quality=ultra");
    assert_eq!(params.get("threads"), Some(&"8".to_string()));
    assert_eq!(params.get("debug"), Some(&"true".to_string()));
    assert_eq!(params.get("quality"), Some(&"ultra".to_string()));
}

#[test]
fn test_from_parameters_empty() {
    let config = ReferenceRendererConfig::from_parameters(DataPrecision::F32, "").unwrap();
    assert_eq!(config.precision, DataPrecision::F32);
    assert_eq!(config.quality, "medium");
    assert!(config.validate().is_ok());
}

#[test]
fn test_from_parameters_valid() {
    let params = "threads=8,quality=high,debug=true,max_splat_count=2000000,viewport_size=2560x1440";
    let config = ReferenceRendererConfig::from_parameters(DataPrecision::F64, params).unwrap();

    assert_eq!(config.precision, DataPrecision::F64);
    assert_eq!(config.threads, 8);
    assert_eq!(config.quality, "high");
    assert_eq!(config.debug, true);
    assert_eq!(config.max_splat_count, 2_000_000);
    assert_eq!(config.viewport_size, (2560, 1440));
    assert!(config.validate().is_ok());
}

#[test]
fn test_from_parameters_invalid_threads() {
    let result = ReferenceRendererConfig::from_parameters(DataPrecision::F32, "threads=0");
    assert!(result.is_err());
    assert!(result.unwrap_err().contains("threads must be greater than 0"));
}

#[test]
fn test_from_parameters_invalid_quality() {
    let result = ReferenceRendererConfig::from_parameters(DataPrecision::F32, "quality=extreme");
    assert!(result.is_err());
    assert!(result.unwrap_err().contains("Invalid quality value"));
}

#[test]
fn test_from_parameters_invalid_viewport() {
    let result = ReferenceRendererConfig::from_parameters(DataPrecision::F32, "viewport_size=1920");
    assert!(result.is_err());
    assert!(result.unwrap_err().contains("Invalid viewport_size format"));
}

#[test]
fn test_from_parameters_invalid_numeric() {
    let result = ReferenceRendererConfig::from_parameters(DataPrecision::F32, "threads=abc");
    assert!(result.is_err());
    assert!(result.unwrap_err().contains("Invalid threads value"));
}

#[test]
fn test_validate_config() {
    let mut config = ReferenceRendererConfig::default();
    assert!(config.validate().is_ok());

    config.threads = 0;
    assert!(config.validate().is_err());

    config.threads = 4;
    config.viewport_size = (0, 1080);
    assert!(config.validate().is_err());

    config.viewport_size = (1920, 1080);
    config.quality = "invalid".to_string();
    assert!(config.validate().is_err());
}

#[test]
fn test_description() {
    let config = ReferenceRendererConfig::default();
    let desc = config.description();
    assert!(desc.contains("1920x1080"));
    assert!(desc.contains("medium"));
    assert!(desc.contains("F32"));
}

#[test]
fn test_description_exact_text() {
    let config = ReferenceRendererConfig::from_parameters(
        DataPrecision::F64,
        "threads=3,quality=low,debug=true,max_splat_count=7,viewport_size=640x480",
    )
    .unwrap();
    assert_eq!(
        config.description(),
        "ReferenceRenderer Config: 640x480 viewport, 3 threads, low quality, precision: F64, max_splats: 7, debug: true"
    );
}

#[test]
fn test_mock_frames_counted_only_while_running() {
    let mut renderer = MockRenderer::new("Counter", DataPrecision::F32);
    assert!(renderer.render_frame().is_err());
    assert_eq!(renderer.get_frame_count(), 0);
    renderer.start().unwrap();
    renderer.render_frame().unwrap();
    renderer.render_frame().unwrap();
    assert_eq!(renderer.get_frame_count(), 2);
    renderer.stop();
    assert!(renderer.render_frame().is_err());
    assert_eq!(renderer.get_frame_count(), 2);
}

#[test]
fn test_factory_type_id_method_matches_type() {
    let factory = MockRendererFactory::new("Typed");
    assert_eq!(factory.factory_type_id(), TypeId::of::<MockRendererFactory>());
    let boxed: Box<dyn RendererFactory> = Box::new(MockRendererFactory::new("Boxed"));
    assert_eq!(boxed.factory_type_id(), TypeId::of::<MockRendererFactory>());
    let any_value: &dyn Any = &factory;
    assert!(any_value.is::<MockRendererFactory>());
}

#[test]
fn reference_configurations_stay_in_range() {
    for text in ["", "threads=3", "quality=ultra,threads=1", "quality=low,unknown=7"] {
        let config = ReferenceRendererConfig::from_parameters(DataPrecision::F16, text).unwrap();
        assert!(config.threads > 0);
        assert!(["low", "medium", "high", "ultra"].contains(&config.quality.as_str()));
        assert_eq!(config.precision, DataPrecision::F16);
    }
    assert!(ReferenceRendererConfig::from_parameters(DataPrecision::F32, "threads=0").is_err());
    assert!(ReferenceRendererConfig::from_parameters(DataPrecision::F32, "quality=best").is_err());
}
