use pink::dispatch::EntryPointSet;
use pink::loader::{check_required, initialize, load_all, resolve_entry_points, LoadError, ScriptFile};

fn script(name: &str, contents: &str) -> ScriptFile {
    ScriptFile { name: name.to_owned(), contents: contents.to_owned() }
}

#[test]
fn loading_valid_modules_registers_all_entry_points() {
    let lua = mlua::Lua::new();
    let files = vec![
        script("a.lua", "function on_message(m) end"),
        script("b.lua", "function on_message_delete(m) end"),
    ];
    let loaded = load_all(&lua, &files);
    assert!(matches!(loaded, Ok(2)));
    let eps = resolve_entry_points(&lua).expect("both declared entry points must resolve");
    assert!(eps.has_message);
    assert!(eps.has_message_delete);
    assert!(!eps.has_message_update);
}

#[test]
fn later_module_overrides_earlier_global() {
    let lua = mlua::Lua::new();
    let files = vec![
        script("first.lua", "function on_message(m) end\nfunction on_message_delete(m) end"),
        script("second.lua", "function on_message(m) end"),
    ];
    assert!(matches!(load_all(&lua, &files), Ok(2)));
    let eps = resolve_entry_points(&lua).unwrap();
    assert!(eps.has_message && eps.has_message_delete);
}

#[test]
fn syntax_error_fails_fast_with_the_file_name() {
    let lua = mlua::Lua::new();
    let files = vec![
        script("good.lua", "function on_message(m) end"),
        script("bad.lua", "function ("),
        script("late.lua", "function on_message_delete(m) end"),
    ];
    match load_all(&lua, &files) {
        Err(LoadError::Compile { file, .. }) => assert_eq!(file, "bad.lua"),
        other => panic!("expected a compile failure for bad.lua, got {:?}", other),
    }
    // the module after the failure was never evaluated: nothing it declares
    // is registered
    match resolve_entry_points(&lua) {
        Err(LoadError::MissingEntryPoint { name }) => assert_eq!(name, "on_message_delete"),
        other => panic!("expected on_message_delete to be missing, got {:?}", other),
    }
}

#[test]
fn runtime_error_during_evaluation_fails_fast() {
    let lua = mlua::Lua::new();
    let files = vec![
        script("boom.lua", "error('no')"),
        script("late.lua", "function on_message(m) end"),
    ];
    match load_all(&lua, &files) {
        Err(LoadError::Eval { file, .. }) => assert_eq!(file, "boom.lua"),
        other => panic!("expected an evaluation failure for boom.lua, got {:?}", other),
    }
    match resolve_entry_points(&lua) {
        Err(LoadError::MissingEntryPoint { name }) => assert_eq!(name, "on_message"),
        other => panic!("expected on_message to be missing, got {:?}", other),
    }
}

#[test]
fn empty_directory_is_a_missing_entry_point_before_any_connection() {
    let lua = mlua::Lua::new();
    let files: Vec<ScriptFile> = Vec::new();
    match initialize(&lua, &files) {
        Err(LoadError::MissingEntryPoint { name }) => assert_eq!(name, "on_message"),
        other => panic!("expected startup to fail with a missing entry point, got {:?}", other),
    }
}

#[test]
fn startup_initialization_yields_the_resolved_entry_points() {
    let lua = mlua::Lua::new();
    let files = vec![script(
        "all.lua",
        "function on_message(m) end\nfunction on_message_delete(m) end\nfunction on_message_update(m) end",
    )];
    let eps = initialize(&lua, &files).expect("startup must succeed with all entry points");
    assert!(eps.has_message && eps.has_message_delete && eps.has_message_update);
}

#[test]
fn required_entry_points_are_checked_in_order() {
    let nothing = EntryPointSet {
        has_message: false,
        has_message_delete: false,
        has_message_update: false,
    };
    match check_required(&nothing) {
        Err(LoadError::MissingEntryPoint { name }) => assert_eq!(name, "on_message"),
        other => panic!("unexpected {:?}", other),
    }
    let only_message = EntryPointSet {
        has_message: true,
        has_message_delete: false,
        has_message_update: false,
    };
    match check_required(&only_message) {
        Err(LoadError::MissingEntryPoint { name }) => assert_eq!(name, "on_message_delete"),
        other => panic!("unexpected {:?}", other),
    }
    let both = EntryPointSet {
        has_message: true,
        has_message_delete: true,
        has_message_update: false,
    };
    assert!(check_required(&both).is_ok());
}
