use lavis::modules::{
    commands_for_module, module_by_id, module_by_name, module_definition, modules,
    validate_external_origin, CommandDefinition, ModuleCapability, ModuleId, ModuleOrigin,
    ModuleSpec,
};
use std::collections::HashSet;

fn external_fixture() -> ModuleSpec {
    ModuleSpec {
        id: ModuleId::Core,
        name: "fixture",
        description_ru: "Тестовый внешний модуль.",
        icon: "🧪",
        origin: ModuleOrigin::External {
            author: "Тест",
            version: "1.0.0",
            source: "https://example.invalid/module",
        },
        capabilities: vec![ModuleCapability::Network],
        unloadable: true,
        replaceable: true,
    }
}

#[test]
fn module_registry_metadata_is_complete_and_builtin_only() {
    let module_names = modules()
        .iter()
        .map(|module| module.name)
        .collect::<Vec<_>>();
    assert_eq!(module_names, ["core", "system", "aliases"]);
    assert_eq!(
        modules().iter().map(|module| module.id).collect::<HashSet<_>>().len(),
        modules().len()
    );
    assert_eq!(
        module_names
            .iter()
            .map(|name| name.to_ascii_lowercase())
            .collect::<HashSet<_>>()
            .len(),
        modules().len()
    );
    assert_eq!(
        module_by_name("SyStEm").map(|module| module.id),
        Some(ModuleId::System)
    );
    for module in modules() {
        assert!(!module.description_ru.is_empty());
        assert!(!module.icon.is_empty());
        assert!(matches!(module.origin, ModuleOrigin::Builtin));
        assert!(validate_external_origin(&module.origin));
        assert!(!module.unloadable && !module.replaceable);
        assert_eq!(
            module.capabilities.iter().collect::<HashSet<_>>().len(),
            module.capabilities.len()
        );
        assert!(!module.capabilities.contains(&ModuleCapability::Network));
    }
}

#[test]
fn external_fixture_carries_renderable_provenance_without_joining_production_registry() {
    let fixture = external_fixture();
    let ModuleOrigin::External { author, version, source } = fixture.origin else {
        panic!("expected external fixture");
    };
    assert_eq!(
        (author, version, source),
        ("Тест", "1.0.0", "https://example.invalid/module")
    );
    assert!(validate_external_origin(&fixture.origin));
    assert!(!modules()
        .iter()
        .any(|module| matches!(module.origin, ModuleOrigin::External { .. })));
}

#[test]
fn external_origin_validator_rejects_untrusted_metadata() {
    let external = |author, version, source| ModuleOrigin::External {
        author,
        version,
        source,
    };
    assert!(!validate_external_origin(&external(
        "",
        "1",
        "https://example.invalid"
    )));
    assert!(!validate_external_origin(&external(
        "Автор",
        "",
        "https://example.invalid"
    )));
    assert!(!validate_external_origin(&external(
        "Автор", "1", ""
    )));
    assert!(!validate_external_origin(&external(
        "aaaaaaaaaaaaaaaaaaaaaaaaaaaaaaaaaaaaaaaaaaaaaaaaaaaaaaaaaaaaaaaaa",
        "1",
        "https://example.invalid",
    )));
    assert!(!validate_external_origin(&external(
        "Автор\n",
        "1",
        "https://example.invalid"
    )));
    assert!(!validate_external_origin(&external(
        "Автор",
        "1\u{0001}",
        "https://example.invalid"
    )));
    assert!(!validate_external_origin(&external(
        "Автор\u{202e}",
        "1",
        "https://example.invalid"
    )));
    assert!(!validate_external_origin(&external(
        "Автор",
        "1",
        "https://example.invalid/\u{202e}"
    )));
    assert!(!validate_external_origin(&external(
        "Автор\u{2028}",
        "1",
        "https://example.invalid"
    )));
    assert!(!validate_external_origin(&external(
        "Автор",
        "1\u{2029}",
        "https://example.invalid"
    )));
    assert!(!validate_external_origin(&external(
        "Автор",
        "1",
        "/tmp/module"
    )));
    assert!(!validate_external_origin(&external(
        "Автор",
        "1",
        "C:\\module"
    )));
    assert!(!validate_external_origin(&external(
        "Автор",
        "1",
        "file:///tmp/module"
    )));
    assert!(!validate_external_origin(&external(
        "Автор",
        "1",
        "FILE:///etc/passwd"
    )));
}

#[test]
fn modules_are_found_by_id_and_by_name_in_any_case() {
    for module in modules() {
        assert_eq!(module_by_id(module.id).unwrap().name, module.name);
        assert_eq!(module_definition(module.id).name, module.name);
        let shouted = module.name.to_ascii_uppercase();
        assert_eq!(module_by_name(&shouted).map(|found| found.id), Some(module.id));
    }
    assert!(module_by_name("fixture").is_none());
}

#[test]
fn commands_are_grouped_by_their_module() {
    let command = |name, module| CommandDefinition { name, module };
    let all = vec![
        command("ping", ModuleId::Core),
        command("fastfetch", ModuleId::System),
        command("help", ModuleId::Core),
    ];
    let names: Vec<&str> = commands_for_module(&all, ModuleId::Core)
        .iter()
        .map(|command| command.name)
        .collect();
    assert_eq!(names, ["ping", "help"]);
}
