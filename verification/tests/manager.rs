use std::any::TypeId;

use fulgor::renderer::factory::{MockRendererFactory, RendererFactory, RendererInfo};
use fulgor::renderer::cpu_reference::CpuReferenceRendererFactory;
use fulgor::renderer::manager::RendererManager;
use fulgor::renderer::{DataPrecision, Renderer, RendererError};

#[derive(Debug)]
struct CpuFactory(MockRendererFactory);

impl RendererFactory for CpuFactory {
    fn create(&self, precision: DataPrecision, parameters: &str) -> Result<Box<dyn Renderer>, RendererError> {
        self.0.create(precision, parameters)
    }
    fn get_info(&self) -> RendererInfo {
        self.0.get_info()
    }
    fn validate_parameters(&self, precision: DataPrecision, parameters: &str) -> Result<(), RendererError> {
        self.0.validate_parameters(precision, parameters)
    }
}

#[derive(Debug)]
struct GpuFactory(MockRendererFactory);

impl RendererFactory for GpuFactory {
    fn create(&self, precision: DataPrecision, parameters: &str) -> Result<Box<dyn Renderer>, RendererError> {
        self.0.create(precision, parameters)
    }
    fn get_info(&self) -> RendererInfo {
        self.0.get_info()
    }
    fn validate_parameters(&self, precision: DataPrecision, parameters: &str) -> Result<(), RendererError> {
        self.0.validate_parameters(precision, parameters)
    }
}

#[derive(Debug)]
struct PrecisionFactory(MockRendererFactory);

impl RendererFactory for PrecisionFactory {
    fn create(&self, precision: DataPrecision, parameters: &str) -> Result<Box<dyn Renderer>, RendererError> {
        self.0.create(precision, parameters)
    }
    fn get_info(&self) -> RendererInfo {
        self.0.get_info()
    }
    fn validate_parameters(&self, precision: DataPrecision, parameters: &str) -> Result<(), RendererError> {
        self.0.validate_parameters(precision, parameters)
    }
}

fn assert_send_sync<T: Send + Sync>() {}

fn create_single_test_factory_manager() -> RendererManager {
    let mut manager = RendererManager::new();
    let factory = Box::new(MockRendererFactory::new_full(
        "TestRenderer",
        vec![DataPrecision::F16, DataPrecision::F32, DataPrecision::F64],
        "cpu_rendering,gpu_rendering,basic_3d,real_time",
        5000,
    ));
    manager.register(factory).unwrap();
    manager
}

fn create_multi_factory_manager() -> RendererManager {
    let mut manager = RendererManager::new();
    let cpu_factory = Box::new(CpuFactory(MockRendererFactory::new_full(
        "CpuRenderer",
        vec![DataPrecision::F32, DataPrecision::F64],
        "cpu_rendering,basic_3d,software",
        3000,
    )));
    manager.register(cpu_factory).unwrap();

    let gpu_factory = Box::new(GpuFactory(MockRendererFactory::new_full(
        "GpuRenderer",
        vec![DataPrecision::F16, DataPrecision::F32, DataPrecision::BFloat16],
        "gpu_rendering,advanced_3d,hardware_accelerated,real_time",
        5000,
    )));
    manager.register(gpu_factory).unwrap();

    manager
}

// Three factories of three types, since the manager keeps one factory per type.
fn create_test_manager_with_factories() -> RendererManager {
    let mut manager = RendererManager::new();

    let cpu_factory = Box::new(CpuFactory(MockRendererFactory::new_full(
        "CpuRenderer",
        vec![DataPrecision::F32, DataPrecision::F64],
        "cpu_rendering,basic_3d,software",
        3000,
    )));
    manager.register(cpu_factory).unwrap();

    let gpu_factory = Box::new(GpuFactory(MockRendererFactory::new_full(
        "GpuRenderer",
        vec![DataPrecision::F16, DataPrecision::F32, DataPrecision::BFloat16],
        "gpu_rendering,advanced_3d,hardware_accelerated,real_time",
        5000,
    )));
    manager.register(gpu_factory).unwrap();

    let precision_factory = Box::new(PrecisionFactory(MockRendererFactory::new_full(
        "PrecisionRenderer",
        vec![DataPrecision::F64],
        "high_precision,scientific,cpu_rendering",
        10000,
    )));
    manager.register(precision_factory).unwrap();

    manager
}

#[test]
fn test_new_manager() {
    let manager = RendererManager::new();
    let info_list = manager.get_renderer_info_list();
    assert!(info_list.is_empty());
}

#[test]
fn test_register_factory() {
    let mut manager = RendererManager::new();
    let factory = Box::new(MockRendererFactory::new("TestFactory"));

    let result = manager.register(factory);
    assert!(result.is_ok());
    assert_eq!(result.unwrap(), true);

    let info_list = manager.get_renderer_info_list();
    assert_eq!(info_list.len(), 1);
    assert_eq!(info_list[0].name, "TestFactory");
}

#[test]
fn test_register_duplicate_factory() {
    let mut manager = RendererManager::new();

    let factory1 = Box::new(MockRendererFactory::new("Factory1"));
    let factory2 = Box::new(MockRendererFactory::new("Factory2"));

    assert!(manager.register(factory1).is_ok());

    let result = manager.register(factory2);
    assert!(result.is_err());
    match result.unwrap_err() {
        RendererError::FactoryAlreadyRegistered(_) => {}
        _ => panic!("Expected FactoryAlreadyRegistered error"),
    }
}

#[test]
fn test_create_renderer() {
    let mut manager = RendererManager::new();
    let factory = Box::new(MockRendererFactory::new("TestFactory"));

    manager.register(factory).unwrap();

    let renderer = manager.create(TypeId::of::<MockRendererFactory>(), DataPrecision::F32, "test_params");

    assert!(renderer.is_ok());
    let _renderer = renderer.unwrap();
}

#[test]
fn test_create_renderer_not_found() {
    let mut manager = RendererManager::new();

    let result = manager.create(TypeId::of::<String>(), DataPrecision::F32, "test_params");

    assert!(result.is_err());
    match result.unwrap_err() {
        RendererError::RendererNotFound(_) => {}
        _ => panic!("Expected RendererNotFound error"),
    }
}

#[test]
fn test_create_with_invalid_parameters() {
    let mut manager = RendererManager::new();
    let factory = Box::new(MockRendererFactory::new("TestFactory"));

    manager.register(factory).unwrap();

    let result = manager.create(TypeId::of::<MockRendererFactory>(), DataPrecision::F32, "invalid_params");

    assert!(result.is_err());
    match result.unwrap_err() {
        RendererError::InvalidParameters(_) => {}
        _ => panic!("Expected InvalidParameters error"),
    }
}

#[test]
fn test_create_with_unsupported_precision() {
    let mut manager = RendererManager::new();
    let factory = Box::new(MockRendererFactory::new_with_precisions("TestFactory", vec![DataPrecision::F32]));

    manager.register(factory).unwrap();

    let result = manager.create(TypeId::of::<MockRendererFactory>(), DataPrecision::F64, "test_params");

    assert!(result.is_err());
    match result.unwrap_err() {
        RendererError::UnsupportedPrecision(DataPrecision::F64) => {}
        _ => panic!("Expected UnsupportedPrecision error"),
    }
}

#[test]
fn test_multiple_factories() {
    let mut manager = RendererManager::new();

    let factory = Box::new(MockRendererFactory::new("TestFactory"));
    manager.register(factory).unwrap();

    let info_list = manager.get_renderer_info_list();
    assert_eq!(info_list.len(), 1);
    assert_eq!(info_list[0].name, "TestFactory");
}

#[test]
fn test_timeout_protection() {
    let mut manager = RendererManager::new();

    let factory = Box::new(MockRendererFactory::new_full(
        "TimeoutFactory",
        vec![DataPrecision::F32],
        "timeout_test",
        1,
    ));

    let result = manager.register(factory);

    match result {
        Ok(true) => {
            assert!(true);
        }
        Err(RendererError::CreationFailed(msg)) => {
            assert!(msg.contains("timed out"));
        }
        _ => panic!("Unexpected result from timeout test"),
    }
}

#[test]
fn test_default_trait() {
    let manager: RendererManager = Default::default();
    let info_list = manager.get_renderer_info_list();
    assert!(info_list.is_empty());
}

#[test]
fn test_send_sync_traits() {
    assert_send_sync::<RendererManager>();
}

#[test]
fn test_debug_trait() {
    let manager = RendererManager::new();
    let debug_string = format!("{:?}", manager);
    assert!(debug_string.contains("RendererManager"));
}

#[test]
fn test_single_factory_multiple_renderers() {
    let mut manager = RendererManager::new();

    let factory = Box::new(MockRendererFactory::new_full(
        "OpenGL3Renderer",
        vec![DataPrecision::F16, DataPrecision::F32, DataPrecision::F64],
        "gpu_rendering,hardware_accelerated,real_time",
        5000,
    ));
    manager.register(factory).unwrap();

    let renderer1 = manager.create_by_name("OpenGL3Renderer", DataPrecision::F16, "vsync=true").unwrap();
    let renderer2 = manager.create_by_name("OpenGL3Renderer", DataPrecision::F32, "vsync=false").unwrap();
    let renderer3 = manager.create_by_name("OpenGL3Renderer", DataPrecision::F64, "msaa=4").unwrap();

    assert_ne!(renderer1.0.unique_id(), renderer2.0.unique_id());
    assert_ne!(renderer2.0.unique_id(), renderer3.0.unique_id());

    assert_eq!(renderer1.0.get_data_precision(), DataPrecision::F16);
    assert_eq!(renderer2.0.get_data_precision(), DataPrecision::F32);
    assert_eq!(renderer3.0.get_data_precision(), DataPrecision::F64);
}

#[test]
fn test_factory_type_uniqueness_correctly_enforced() {
    let mut manager = RendererManager::new();

    let factory1 = Box::new(MockRendererFactory::new("FirstMock"));
    let result1 = manager.register(factory1);
    assert!(result1.is_ok());

    let factory2 = Box::new(MockRendererFactory::new("SecondMock"));
    let result2 = manager.register(factory2);
    assert!(result2.is_err());

    match result2.unwrap_err() {
        RendererError::FactoryAlreadyRegistered(_) => {}
        _ => panic!("Wrong error type"),
    }

    assert_eq!(manager.get_factory_count(), 1);
}

#[test]
fn test_create_by_name_success() {
    let mut manager = create_single_test_factory_manager();

    let renderer = manager.create_by_name("TestRenderer", DataPrecision::F32, "test");
    assert!(renderer.is_ok());
}

#[test]
fn test_create_by_name_not_found() {
    let mut manager = create_single_test_factory_manager();

    let result = manager.create_by_name("NonExistentRenderer", DataPrecision::F32, "test");
    assert!(result.is_err());

    match result.unwrap_err() {
        RendererError::RendererNotFoundByName(name) => {
            assert_eq!(name, "NonExistentRenderer");
        }
        _ => panic!("Expected RendererNotFoundByName error"),
    }
}

#[test]
fn test_create_by_name_empty_registry() {
    let mut manager = RendererManager::new();

    let result = manager.create_by_name("AnyRenderer", DataPrecision::F32, "test");
    assert!(result.is_err());

    match result.unwrap_err() {
        RendererError::RendererNotFoundByName(_) => {}
        _ => panic!("Expected RendererNotFoundByName error"),
    }
}

#[test]
fn test_create_by_name_unsupported_precision() {
    let mut manager = RendererManager::new();
    let factory = Box::new(MockRendererFactory::new_with_precisions(
        "LimitedRenderer",
        vec![DataPrecision::F32, DataPrecision::F64],
    ));
    manager.register(factory).unwrap();

    let result = manager.create_by_name("LimitedRenderer", DataPrecision::BFloat16, "test");
    assert!(result.is_err());

    match result.unwrap_err() {
        RendererError::UnsupportedPrecision(DataPrecision::BFloat16) => {}
        _ => panic!("Expected UnsupportedPrecision error"),
    }
}

#[test]
fn test_find_by_capability_success() {
    let manager = create_multi_factory_manager();

    let cpu_renderers = manager.find_by_capability("cpu_rendering");
    assert_eq!(cpu_renderers.len(), 1);
    assert_eq!(cpu_renderers[0].name, "CpuRenderer");

    let gpu_renderers = manager.find_by_capability("gpu_rendering");
    assert_eq!(gpu_renderers.len(), 1);
    assert_eq!(gpu_renderers[0].name, "GpuRenderer");
}

#[test]
fn test_find_by_capability_not_found() {
    let mut manager = RendererManager::new();
    let factory = Box::new(MockRendererFactory::new_full(
        "TestRenderer",
        vec![DataPrecision::F32, DataPrecision::F64],
        "cpu_rendering,basic_3d,software",
        3000,
    ));
    manager.register(factory).unwrap();

    let result = manager.find_by_capability("quantum_rendering");
    assert!(result.is_empty());

    let result = manager.find_by_capability("CPU_RENDERING");
    assert!(result.is_empty());
}

#[test]
fn test_find_by_capability_empty_registry() {
    let manager = RendererManager::new();

    let result = manager.find_by_capability("any_capability");
    assert!(result.is_empty());
}

#[test]
fn test_find_by_capability_whitespace_handling() {
    let mut manager = RendererManager::new();
    let factory = Box::new(MockRendererFactory::new_full(
        "TestRenderer",
        vec![DataPrecision::F32, DataPrecision::F64],
        "cpu_rendering,gpu_rendering,basic_3d",
        3000,
    ));
    manager.register(factory).unwrap();

    let result = manager.find_by_capability(" cpu_rendering ");
    assert!(result.is_empty());

    let result = manager.find_by_capability("cpu_rendering");
    assert_eq!(result.len(), 1);
    assert_eq!(result[0].name, "TestRenderer");

    let result = manager.find_by_capability(" gpu_rendering");
    assert!(result.is_empty());

    let result = manager.find_by_capability("gpu_rendering ");
    assert!(result.is_empty());

    let result = manager.find_by_capability("gpu_rendering");
    assert_eq!(result.len(), 1);
}

#[test]
fn test_find_by_precision_success() {
    let manager = create_multi_factory_manager();

    let f32_renderers = manager.find_by_precision(DataPrecision::F32);
    assert_eq!(f32_renderers.len(), 2);

    let f64_renderers = manager.find_by_precision(DataPrecision::F64);
    assert_eq!(f64_renderers.len(), 1);
    assert_eq!(f64_renderers[0].name, "CpuRenderer");
}

#[test]
fn test_find_by_precision_not_found() {
    let mut manager = RendererManager::new();
    let factory = Box::new(MockRendererFactory::new_with_precisions("LimitedRenderer", vec![DataPrecision::F32]));
    manager.register(factory).unwrap();

    let result = manager.find_by_precision(DataPrecision::F64);
    assert!(result.is_empty());
}

#[test]
fn test_find_by_precision_empty_registry() {
    let manager = RendererManager::new();

    let result = manager.find_by_precision(DataPrecision::F32);
    assert!(result.is_empty());
}

#[test]
fn test_get_factory_count() {
    let manager = RendererManager::new();
    assert_eq!(manager.get_factory_count(), 0);

    let manager = create_test_manager_with_factories();
    assert_eq!(manager.get_factory_count(), 3);

    let mut manager = manager;
    let extra_factory = Box::new(MockRendererFactory::new("ExtraRenderer"));
    manager.register(extra_factory).unwrap();
    assert_eq!(manager.get_factory_count(), 4);
}

#[test]
fn test_validate_parameters_for_success() {
    let manager = create_single_test_factory_manager();

    let result = manager.validate_parameters_for("TestRenderer", DataPrecision::F32, "test");
    assert!(result.is_ok());
}

#[test]
fn test_validate_parameters_for_factory_not_found() {
    let manager = create_test_manager_with_factories();

    let result = manager.validate_parameters_for("NonExistentRenderer", DataPrecision::F32, "test");
    assert!(result.is_err());

    match result.unwrap_err() {
        RendererError::RendererNotFoundByName(name) => {
            assert_eq!(name, "NonExistentRenderer");
        }
        _ => panic!("Expected RendererNotFoundByName error"),
    }
}

#[test]
fn test_validate_parameters_for_unsupported_precision() {
    let manager = create_test_manager_with_factories();

    let result = manager.validate_parameters_for("CpuRenderer", DataPrecision::BFloat16, "test");
    assert!(result.is_err());

    match result.unwrap_err() {
        RendererError::UnsupportedPrecision(DataPrecision::BFloat16) => {}
        _ => panic!("Expected UnsupportedPrecision error"),
    }
}

#[test]
fn test_validate_parameters_for_invalid_parameters() {
    let manager = create_test_manager_with_factories();

    let result = manager.validate_parameters_for("CpuRenderer", DataPrecision::F32, "invalid_params");
    assert!(result.is_err());

    match result.unwrap_err() {
        RendererError::InvalidParameters(_) => {}
        _ => panic!("Expected InvalidParameters error"),
    }
}

#[test]
fn test_find_factory_by_name_success() {
    let manager = create_single_test_factory_manager();

    let info = manager.find_factory_by_name("TestRenderer");
    assert!(info.is_some());
    assert_eq!(info.unwrap().name, "TestRenderer");
}

#[test]
fn test_find_factory_by_name_not_found() {
    let manager = create_test_manager_with_factories();

    let result = manager.find_factory_by_name("NonExistentRenderer");
    assert!(result.is_none());
}

#[test]
fn test_find_factory_by_name_empty_registry() {
    let manager = RendererManager::new();

    let result = manager.find_factory_by_name("AnyRenderer");
    assert!(result.is_none());
}

#[test]
fn test_get_all_capabilities() {
    let manager = create_multi_factory_manager();

    let capabilities = manager.get_all_capabilities();
    let expected_caps = vec![
        "advanced_3d",
        "basic_3d",
        "cpu_rendering",
        "gpu_rendering",
        "hardware_accelerated",
        "real_time",
        "software",
    ];

    for expected in &expected_caps {
        assert!(capabilities.contains(&expected.to_string()), "Missing capability: {}", expected);
    }
}

#[test]
fn test_get_all_capabilities_empty_registry() {
    let manager = RendererManager::new();

    let capabilities = manager.get_all_capabilities();
    assert!(capabilities.is_empty());
}

#[test]
fn test_get_all_capabilities_deduplication() {
    let mut manager = RendererManager::new();

    let factory1 = Box::new(CpuFactory(MockRendererFactory::new_full(
        "Renderer1",
        vec![DataPrecision::F32],
        "capability1,capability2,shared",
        1000,
    )));
    manager.register(factory1).unwrap();

    let factory2 = Box::new(GpuFactory(MockRendererFactory::new_full(
        "Renderer2",
        vec![DataPrecision::F32],
        "capability2,capability3,shared",
        1000,
    )));
    manager.register(factory2).unwrap();

    let capabilities = manager.get_all_capabilities();
    assert_eq!(capabilities.len(), 4);
    assert!(capabilities.contains(&"capability1".to_string()));
    assert!(capabilities.contains(&"capability2".to_string()));
    assert!(capabilities.contains(&"capability3".to_string()));
    assert!(capabilities.contains(&"shared".to_string()));
}

#[test]
fn test_get_supported_precisions() {
    let manager = create_test_manager_with_factories();

    let precisions = manager.get_supported_precisions();

    let expected_precisions = vec![
        DataPrecision::BFloat16,
        DataPrecision::F16,
        DataPrecision::F32,
        DataPrecision::F64,
    ];

    assert_eq!(precisions.len(), expected_precisions.len());
    for expected_precision in &expected_precisions {
        assert!(precisions.contains(expected_precision), "Missing precision: {:?}", expected_precision);
    }
}

#[test]
fn test_get_supported_precisions_empty_registry() {
    let manager = RendererManager::new();

    let precisions = manager.get_supported_precisions();
    assert!(precisions.is_empty());
}

#[test]
fn test_get_supported_precisions_limited() {
    let mut manager = RendererManager::new();

    let factory = Box::new(MockRendererFactory::new_with_precisions("LimitedRenderer", vec![DataPrecision::F32]));
    manager.register(factory).unwrap();

    let precisions = manager.get_supported_precisions();
    assert_eq!(precisions.len(), 1);
    assert!(precisions.contains(&DataPrecision::F32));
}

#[test]
fn test_case_sensitive_name_matching() {
    let mut manager = RendererManager::new();
    let factory = Box::new(MockRendererFactory::new("TestRenderer"));
    manager.register(factory).unwrap();

    let result = manager.create_by_name("TestRenderer", DataPrecision::F32, "test");
    assert!(result.is_ok());

    let result = manager.create_by_name("testrenderer", DataPrecision::F32, "test");
    assert!(result.is_err());

    let result = manager.create_by_name("TESTRENDERER", DataPrecision::F32, "test");
    assert!(result.is_err());
}

#[test]
fn test_error_propagation_through_query_methods() {
    let mut manager = RendererManager::new();
    let factory = Box::new(MockRendererFactory::new_full(
        "TestRenderer",
        vec![DataPrecision::F32, DataPrecision::F64],
        "cpu_rendering,basic_3d",
        5000,
    ));
    manager.register(factory).unwrap();

    let result = manager.validate_parameters_for("TestRenderer", DataPrecision::F32, "invalid_params");
    assert!(result.is_err());

    let result = manager.create_by_name("TestRenderer", DataPrecision::F32, "invalid_params");
    assert!(result.is_err());

    match result.unwrap_err() {
        RendererError::InvalidParameters(_) => {}
        _ => panic!("Expected InvalidParameters error to be propagated"),
    }
}

#[test]
fn test_edge_cases_with_empty_capabilities() {
    let mut manager = RendererManager::new();

    let factory = Box::new(MockRendererFactory::new_full("MinimalRenderer", vec![DataPrecision::F32], "", 1000));
    manager.register(factory).unwrap();

    let result = manager.find_by_capability("any_capability");
    assert!(result.is_empty());

    let capabilities = manager.get_all_capabilities();
    assert!(capabilities.is_empty());

    assert_eq!(manager.get_factory_count(), 1);
    let info = manager.find_factory_by_name("MinimalRenderer");
    assert!(info.is_some());
}

#[test]
fn test_capabilities_come_sorted() {
    let manager = create_multi_factory_manager();
    let capabilities = manager.get_all_capabilities();
    assert_eq!(
        capabilities,
        vec![
            "advanced_3d".to_string(),
            "basic_3d".to_string(),
            "cpu_rendering".to_string(),
            "gpu_rendering".to_string(),
            "hardware_accelerated".to_string(),
            "real_time".to_string(),
            "software".to_string(),
        ]
    );
}

#[test]
fn test_supported_precisions_in_declaration_order() {
    let manager = create_test_manager_with_factories();
    assert_eq!(
        manager.get_supported_precisions(),
        vec![DataPrecision::F16, DataPrecision::F32, DataPrecision::F64, DataPrecision::BFloat16]
    );
}

#[test]
fn test_created_renderers_are_tracked_and_handed_over() {
    let mut manager = create_single_test_factory_manager();
    assert_eq!(manager.active_renderer_count(), 0);
    let first = manager.create_by_name("TestRenderer", DataPrecision::F32, "").unwrap();
    let second = manager.create_by_name("TestRenderer", DataPrecision::F64, "").unwrap();
    assert_eq!(first.0.unique_id(), 1);
    assert_eq!(second.0.unique_id(), 2);
    assert_eq!(manager.active_renderer_count(), 2);
    assert!(manager.create_by_name("TestRenderer", DataPrecision::F32, "invalid").is_err());
    assert_eq!(manager.active_renderer_count(), 2);

    let handles = manager.take_shutdown_handles();
    assert_eq!(handles.len(), 2);
    assert_eq!(handles[0].renderer_id, 1);
    assert_eq!(handles[1].renderer_id, 2);
    assert_eq!(handles[0].timeout_ms, 1000);
    assert_eq!(manager.active_renderer_count(), 0);

    handles[0].shutdown.send(()).unwrap();
    first.1.recv().unwrap();
    first.2.send(()).unwrap();
    handles[0].confirmation.lock().unwrap().recv().unwrap();

    let third = manager.create_by_name("TestRenderer", DataPrecision::F16, "").unwrap();
    assert_eq!(third.0.unique_id(), 3);
}

#[test]
fn test_register_as_refuses_a_known_identifier() {
    let mut manager = RendererManager::new();
    let id = TypeId::of::<u8>();
    assert!(manager.register_as(id, Box::new(MockRendererFactory::new("A"))).unwrap());
    match manager.register_as(id, Box::new(MockRendererFactory::new("B"))) {
        Err(RendererError::FactoryAlreadyRegistered(t)) => assert_eq!(t, id),
        _ => panic!("expected FactoryAlreadyRegistered"),
    }
    assert!(manager.register_as(TypeId::of::<u16>(), Box::new(MockRendererFactory::new("B"))).unwrap());
    assert_eq!(manager.get_factory_count(), 2);
    assert_eq!(manager.find_factory_by_name("B").unwrap().timeout_microseconds, 5000);
}

#[test]
fn test_validation_and_creation_agree_through_manager() {
    let mut manager = create_test_manager_with_factories();
    for name in ["CpuRenderer", "GpuRenderer", "PrecisionRenderer", "Missing"] {
        for p in [DataPrecision::F16, DataPrecision::F32, DataPrecision::F64, DataPrecision::BFloat16] {
            for params in ["", "invalid", "custom_name=false", "custom_name=true"] {
                let v = manager.validate_parameters_for(name, p, params);
                let c = manager.create_by_name(name, p, params);
                assert_eq!(v.is_ok(), c.is_ok());
                assert_eq!(
                    matches!(v, Err(RendererError::UnsupportedPrecision(_))),
                    matches!(c, Err(RendererError::UnsupportedPrecision(_)))
                );
            }
        }
    }
}

#[test]
fn test_created_renderers_carry_their_names_and_shutdown_times() {
    let mut manager = RendererManager::new();
    manager.register(Box::new(CpuReferenceRendererFactory::new())).unwrap();
    manager.register(Box::new(MockRendererFactory::new("MockFactory"))).unwrap();
    let (cpu, _, _) = manager
        .create_by_name("CpuReferenceRendererFactory", DataPrecision::F32, "")
        .unwrap();
    assert_eq!(cpu.name(), "CpuReference");
    let (mock, _, _) = manager.create_by_name("MockFactory", DataPrecision::F32, "custom_name=true").unwrap();
    assert_eq!(mock.name(), "CustomMock");
    let handles = manager.take_shutdown_handles();
    let timeouts: Vec<u64> = handles.iter().map(|h| h.timeout_ms).collect();
    assert_eq!(timeouts, vec![1000, 1000]);
    assert_eq!(manager.active_renderer_count(), 0);
}

#[test]
fn test_registered_factory_is_found_by_its_name() {
    let mut manager = RendererManager::new();
    manager.register(Box::new(MockRendererFactory::new("First"))).unwrap();
    assert!(manager.find_factory_by_name("Second").is_none());
    let info = manager.find_factory_by_name("First").unwrap();
    assert_eq!(info.name, "First");
    assert_eq!(
        info.get_parameter_description("test_mode").map(|s| s.as_str()),
        Some("Enable test mode for debugging")
    );
}

#[test]
fn test_validation_passes_on_the_factorys_own_refusal() {
    let mut manager = RendererManager::new();
    manager.register(Box::new(CpuReferenceRendererFactory::new())).unwrap();
    match manager.validate_parameters_for("CpuReferenceRendererFactory", DataPrecision::F32, "quality=epic") {
        Err(RendererError::InvalidParameters(m)) => {
            assert_eq!(m, "Invalid quality value: epic. Must be one of: low, medium, high, ultra")
        },
        other => panic!("unexpected {:?}", other),
    }
    match manager.validate_parameters_for("CpuReferenceRendererFactory", DataPrecision::F16, "") {
        Err(RendererError::UnsupportedPrecision(p)) => assert_eq!(p, DataPrecision::F16),
        other => panic!("unexpected {:?}", other),
    }
    match manager.create_by_name("CpuReferenceRendererFactory", DataPrecision::F32, "threads=0") {
        Err(RendererError::InvalidParameters(m)) => assert_eq!(m, "threads must be greater than 0"),
        Err(other) => panic!("unexpected {:?}", other),
        Ok(_) => panic!("created"),
    }
}
