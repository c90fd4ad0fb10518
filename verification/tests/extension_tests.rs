use gb26875::error::ExtensionError;
use gb26875::extension::registry::{TypeRegistry, TypeRegistryError};
use gb26875::extension::version::{
    compare_versions, count_module_depth, is_valid_version_format, parse_version,
};
use gb26875::extension::{ExtensionId, MacroExtensionManager, MacroExtensionRegistry, RegisteredExtension};

fn ext(code: u8, module: &str, name: &str, version: &str) -> RegisteredExtension {
    RegisteredExtension {
        code,
        extension_id: ExtensionId::new(module, name, version),
        description: format!("{} extension", name),
    }
}

#[test]
fn version_parsing() {
    assert_eq!(parse_version("1.2.3"), (1, 2, 3));
    assert_eq!(parse_version("10.0"), (10, 0, 0));
    assert_eq!(parse_version("+4.x.7.9"), (4, 0, 7));
    assert_eq!(parse_version(""), (0, 0, 0));
    assert_eq!(parse_version("4294967296.1"), (0, 1, 0));
    assert_eq!(parse_version("4294967295"), (4294967295, 0, 0));
    assert_eq!(parse_version("-1.+.2"), (0, 0, 2));
}

#[test]
fn version_comparison() {
    assert_eq!(compare_versions(&(1, 0, 0), &(0, 9, 9)), 1);
    assert_eq!(compare_versions(&(1, 2, 3), &(1, 2, 4)), -1);
    assert_eq!(compare_versions(&(1, 2, 3), &(1, 2, 3)), 0);
}

#[test]
fn module_depth_and_format() {
    assert_eq!(count_module_depth(""), 0);
    assert_eq!(count_module_depth("app"), 1);
    assert_eq!(count_module_depth("app::units::alarm"), 3);
    assert_eq!(count_module_depth("a:::b"), 2);
    assert!(is_valid_version_format("1.0.0"));
    assert!(is_valid_version_format("12"));
    assert!(!is_valid_version_format("abc"));
    assert!(!is_valid_version_format("1-0"));
}

#[test]
fn namespace_conflicts() {
    let ids = vec![
        ExtensionId::new("app", "A", "1.2.0"),
        ExtensionId::new("app::deep", "A", "1.10.0"),
        ExtensionId::new("app::deep", "A", "1.10.0"),
        ExtensionId::new("app::zz", "A", "0.1"),
    ];
    let by_version = MacroExtensionManager::resolve_namespace_conflict_by_version(&ids).unwrap();
    assert_eq!(by_version.version, "1.10.0");
    assert_eq!(by_version.module, "app::deep");
    let by_priority = MacroExtensionManager::resolve_namespace_conflict_by_priority(&ids).unwrap();
    assert_eq!(by_priority.module, "app::deep");
    assert!(MacroExtensionManager::resolve_namespace_conflict_by_version(&[]).is_none());
    assert!(MacroExtensionManager::get_extension_dependencies(&ids[0]).is_empty());
}

#[test]
fn compatibility_check() {
    assert!(MacroExtensionManager::validate_extension_compatibility(&ExtensionId::new("m", "T", "1.0")).is_ok());
    assert!(matches!(
        MacroExtensionManager::validate_extension_compatibility(&ExtensionId::new("", "T", "1.0")),
        Err(ExtensionError::ValidationError { .. })
    ));
    match MacroExtensionManager::validate_extension_compatibility(&ExtensionId::new("m", "T", "v")) {
        Err(ExtensionError::ValidationError { reason }) => assert_eq!(reason, "无效的版本格式: v"),
        other => panic!("unexpected {:?}", other),
    }
}

#[test]
fn macro_registry_conflicts() {
    let mut registry = MacroExtensionRegistry::new();
    registry.register_data_unit(ext(200, "app", "Alarm", "1.0")).unwrap();
    // same type flag
    assert!(registry.register_data_unit(ext(200, "app", "Other", "1.0")).is_err());
    // same identity, other kind
    assert!(registry.register_command(ext(130, "app", "Alarm", "1.0")).is_err());
    // a command may use the same code as a data unit
    registry.register_command(ext(200, "app", "Cmd", "1.0")).unwrap();
    assert_eq!(registry.find_data_unit(200).unwrap().extension_id.name, "Alarm");
    assert!(registry.find_data_unit(201).is_none());
    assert_eq!(registry.resolve_extension_id_conflict(&ExtensionId::new("app", "Cmd", "1.0")), Some(200));
    assert!(registry.is_extension_id_registered(&ExtensionId::new("app", "Alarm", "1.0")));
    assert!(!registry.is_extension_id_registered(&ExtensionId::new("app", "Alarm", "2.0")));
    assert_eq!(registry.find_extension_by_name("app", "Alarm").len(), 1);
    assert_eq!(registry.find_extension_by_version("app", "Cmd", "1.0"), Some(200));
    assert_eq!(registry.find_extension_by_version("app", "Cmd", "9.0"), None);
    assert_eq!(registry.check_code_conflicts(200).len(), 2);
    assert_eq!(registry.list_extension_ids().len(), 2);
    let info = registry.get_extension_info(&ExtensionId::new("app", "Cmd", "1.0")).unwrap();
    assert_eq!(info.extension_type, "Command");
    assert_eq!(info.code, 200);
    let stats = registry.get_registry_stats();
    assert_eq!(stats.total_extensions, 2);
    assert_eq!(stats.data_unit_extensions, 1);
    assert_eq!(stats.used_codes, 2);
    assert_eq!(stats.available_codes, 125);
    registry.clear_all().unwrap();
    assert!(registry.list_extension_ids().is_empty());
}

#[test]
fn macro_registry_suggestions() {
    let mut registry = MacroExtensionRegistry::new();
    registry.register_system_type(ext(128, "s", "A", "1")).unwrap();
    registry.register_component_type(ext(130, "s", "B", "1")).unwrap();
    registry.register_analog_type(ext(131, "s", "C", "1")).unwrap();
    assert_eq!(registry.suggest_available_codes(3), vec![129, 132, 133]);
    assert_eq!(registry.suggest_available_codes(0), vec![129]);
    assert_eq!(registry.suggest_available_codes(1000).len(), 124);
    assert!(registry.find_system_type(128).is_some());
    assert!(registry.find_component_type(130).is_some());
    assert!(registry.find_analog_type(131).is_some());
    assert!(registry.find_command(128).is_none());
}

#[test]
fn type_registry_rules() {
    let mut registry: TypeRegistry<u32> = TypeRegistry::new();
    assert_eq!(registry.register(100, "Low".to_string(), 1), Err(TypeRegistryError::OutOfRange { type_id: 100 }));
    assert_eq!(registry.register(255, "High".to_string(), 1), Err(TypeRegistryError::OutOfRange { type_id: 255 }));
    registry.register(200, "Sensor".to_string(), 7).unwrap();
    assert_eq!(
        registry.register(200, "Other".to_string(), 8),
        Err(TypeRegistryError::AlreadyRegistered { type_id: 200, existing_name: "Sensor".to_string() })
    );
    assert!(registry.is_registered(200));
    assert_eq!(registry.get(200).unwrap().factory, 7);
    assert_eq!(registry.name_of(200), Some("Sensor".to_string()));
    assert_eq!(registry.registered_types(), vec![(200, "Sensor".to_string())]);
    assert_eq!(registry.len(), 1);
    assert_eq!(registry.unregister(201).unwrap_err(), TypeRegistryError::NotFound { type_id: 201 });
    assert_eq!(registry.unregister(200).unwrap().name, "Sensor");
    assert!(registry.is_empty());
    registry.register(254, "Edge".to_string(), 3).unwrap();
    registry.clear();
    assert_eq!(registry.len(), 0);
}

#[test]
fn macro_registry_lists_all_by_full_name() {
    let mut registry = MacroExtensionRegistry::new();
    registry.register_data_unit(ext(140, "zeta", "Z", "1.0")).unwrap();
    registry.register_command(ext(141, "alpha", "A", "1.0")).unwrap();
    registry.register_system_type(ext(142, "mid", "M", "2.0")).unwrap();
    assert_eq!(ExtensionId::new("alpha", "A", "1.0").full_name(), "alpha::A");
    let all = registry.list_all_extensions();
    let names: Vec<String> = all.iter().map(|i| i.extension_id.full_name()).collect();
    assert_eq!(names, vec!["alpha::A", "mid::M", "zeta::Z"]);
    assert_eq!(all[0].extension_type, "Command");
    assert_eq!(all[0].code, 141);
    assert_eq!(all[1].extension_type, "SystemType");
    assert_eq!(all[2].extension_type, "DataUnit");
    assert_eq!(all[2].description, "Z extension");
    registry.clear_all().unwrap();
    assert!(registry.list_all_extensions().is_empty());
}
