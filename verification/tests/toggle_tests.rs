use gbemu::infrastructure::toggle::Toggle;

#[test]
fn toggle() {
    let mut toggle = Toggle(false);
    assert_eq!(toggle.toggle(), true);
    assert_eq!(toggle.checked(), true);
    assert_eq!(toggle.toggle(), false);
    assert_eq!(toggle.checked(), false);
}

#[test]
fn inspect_and_toggle() {
    let mut toggle = Toggle(false);
    assert_eq!(toggle.inspect_and_toggle(), false);
    assert_eq!(toggle.checked(), true);
    assert_eq!(toggle.inspect_and_toggle(), true);
    assert_eq!(toggle.checked(), false);
}

#[test]
fn inspect_and_clear() {
    let mut toggle = Toggle(true);
    assert_eq!(toggle.checked(), true);
    assert_eq!(toggle.inspect_and_clear(), true);
    assert_eq!(toggle.checked(), false);
}

#[test]
fn clear() {
    let mut toggle = Toggle(true);
    assert_eq!(toggle.checked(), true);
    toggle.clear();
    assert_eq!(toggle.checked(), false);
}

#[test]
fn check() {
    let mut toggle = Toggle(false);
    assert_eq!(toggle.checked(), false);
    toggle.check();
    assert_eq!(toggle.checked(), true);
}
