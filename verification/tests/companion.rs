use meshcore_firmware::Companion;

#[test]
fn companion_new() {
    let _companion = Companion::new();
}
