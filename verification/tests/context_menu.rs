use tauri_runtime_cef::context_menu::{
    context_menu_items_json, context_menu_script, MenuEntry, MenuItemKind, CONTEXT_MENU_JS,
};

fn entry(kind: MenuItemKind, id: i32, label: &str, enabled: i32, checked: i32) -> MenuEntry {
    MenuEntry { kind, command_id: id, label: label.to_string(), enabled, checked }
}

#[test]
fn empty_menu() {
    assert_eq!(context_menu_items_json(&vec![], false), "[]");
    assert_eq!(
        context_menu_items_json(&vec![], true),
        r#"[{"id":-2,"label":"Inspect","enabled":true,"checked":false,"separator":false}]"#
    );
}

#[test]
fn entries_as_json() {
    let items = vec![
        entry(MenuItemKind::Command, 100, "Back", 1, 0),
        entry(MenuItemKind::Separator, 0, "", 0, 0),
        entry(MenuItemKind::Check, -2147483648, "Say \"hi\"\\\nnow", 2, 1),
    ];
    assert_eq!(
        context_menu_items_json(&items, false),
        "[{\"id\":100,\"label\":\"Back\",\"enabled\":1,\"checked\":0,\"separator\":0},\
         {\"id\":0,\"label\":\"\",\"enabled\":0,\"checked\":0,\"separator\":1},\
         {\"id\":-2147483648,\"label\":\"Say \\\"hi\\\"\\\\\\nnow\",\"enabled\":0,\"checked\":1,\"separator\":0}]"
    );
    let one = vec![entry(MenuItemKind::Command, 2147483647, "é😀", 1, 1)];
    assert_eq!(
        context_menu_items_json(&one, true),
        "[{\"id\":2147483647,\"label\":\"é😀\",\"enabled\":1,\"checked\":1,\"separator\":0},\
         {\"id\":-2,\"label\":\"Inspect\",\"enabled\":true,\"checked\":false,\"separator\":false}]"
    );
}

#[test]
fn script_fills_placeholders() {
    let json = "[{\"id\":1}]";
    let script = context_menu_script(json, 120, -7);
    let expected = CONTEXT_MENU_JS
        .replace("__ITEMS__", json)
        .replace("__X__", "120")
        .replace("__Y__", "-7");
    assert_eq!(script, expected);
    assert!(script.contains("var px = 120 / dpr;"));
    assert!(script.contains("var py = -7 / dpr;"));
    assert!(script.contains("var items = [{\"id\":1}];"));
    assert!(!script.contains("__ITEMS__"));
}

#[test]
fn placeholder_text_in_labels_is_replaced_too() {
    let items = vec![entry(MenuItemKind::Command, 1, "__X__ and __Y__", 1, 0)];
    let json = context_menu_items_json(&items, false);
    let script = context_menu_script(&json, 3, 4);
    let expected = CONTEXT_MENU_JS
        .replace("__ITEMS__", &json)
        .replace("__X__", "3")
        .replace("__Y__", "4");
    assert_eq!(script, expected);
    assert!(script.contains("\"label\":\"3 and 4\""));
}
