use quick_picker::accel::{parse, Platform};
use quick_picker::registry::{
    default_accelerator, default_binding_name, plan_rebind, BindError, ShortcutRegistry,
};

fn rebind(reg: &mut ShortcutRegistry, shortcut: &str, enabled: bool) -> Result<(), BindError> {
    // The sequence the shell runs for one rebind command, with the OS
    // hotkey layer assumed to accept every (un)registration.
    let _olds = reg.begin_rebind();
    match plan_rebind(shortcut, enabled, reg.platform_of()) {
        Ok(Some(_parsed)) => {
            if reg.binding_count() == 0 {
                reg.record_registered("quickPicker", shortcut);
            }
            Ok(())
        }
        Ok(None) => Ok(()),
        Err(e) => Err(e),
    }
}

#[test]
fn new_registry_is_empty() {
    let reg = ShortcutRegistry::new(Platform::Other);
    assert_eq!(reg.binding_count(), 0);
    assert_eq!(reg.current_accel("quickPicker"), None);
}

#[test]
fn rebinding_twice_keeps_only_the_second() {
    let mut reg = ShortcutRegistry::new(Platform::Other);
    assert!(rebind(&mut reg, "Ctrl+P", true).is_ok());
    assert_eq!(reg.binding_count(), 1);
    assert_eq!(reg.current_accel("quickPicker"), Some("Ctrl+P".to_string()));

    assert!(rebind(&mut reg, "Ctrl+Shift+P", true).is_ok());
    assert_eq!(reg.binding_count(), 1);
    assert_eq!(
        reg.current_accel("quickPicker"),
        Some("Ctrl+Shift+P".to_string())
    );
}

#[test]
fn begin_rebind_returns_previous_accelerators() {
    let mut reg = ShortcutRegistry::new(Platform::Other);
    assert!(rebind(&mut reg, "Alt+Space", true).is_ok());
    let olds = reg.begin_rebind();
    assert_eq!(olds, vec!["Alt+Space".to_string()]);
    assert_eq!(reg.binding_count(), 0);
}

#[test]
fn invalid_shortcut_fails_and_leaves_zero_bindings() {
    let mut reg = ShortcutRegistry::new(Platform::Other);
    assert!(rebind(&mut reg, "Ctrl+P", true).is_ok());
    assert_eq!(reg.binding_count(), 1);

    let r = rebind(&mut reg, "not a shortcut", true);
    assert!(matches!(r, Err(BindError::InvalidFormat(_))));
    assert_eq!(reg.binding_count(), 0);
    assert_eq!(reg.current_accel("quickPicker"), None);
}

#[test]
fn disabling_clears_the_binding() {
    let mut reg = ShortcutRegistry::new(Platform::Other);
    assert!(rebind(&mut reg, "Ctrl+P", true).is_ok());
    assert!(rebind(&mut reg, "Ctrl+P", false).is_ok());
    assert_eq!(reg.binding_count(), 0);
}

#[test]
fn empty_accelerator_registers_nothing() {
    let mut reg = ShortcutRegistry::new(Platform::Other);
    assert!(rebind(&mut reg, "", true).is_ok());
    assert_eq!(reg.binding_count(), 0);
}

#[test]
fn plan_rebind_surfaces_the_parse_error() {
    let r = plan_rebind("Xyz+A", true, Platform::Other);
    match r {
        Err(BindError::InvalidFormat(e)) => {
            assert_eq!(
                e,
                quick_picker::accel::ParseError::UnknownModifier("Xyz".to_string())
            );
        }
        other => panic!("expected InvalidFormat, got {:?}", other),
    }
}

#[test]
fn default_binding_parses_on_both_platforms() {
    assert_eq!(default_binding_name(), "quickPicker");
    assert_eq!(default_accelerator(), "CommandOrControl+Shift+P");
    assert!(parse(default_accelerator(), Platform::Other).is_ok());
    assert!(parse(default_accelerator(), Platform::MacOs).is_ok());
}

#[test]
fn plan_rebind_when_disabled_is_none() {
    assert!(matches!(plan_rebind("Ctrl+P", false, Platform::Other), Ok(None)));
}
