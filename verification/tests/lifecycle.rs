use plugin_lua_cygnixy::logging::Level;
use plugin_lua_cygnixy::PluginLuaCygnixy;

#[test]
fn name_is_fixed() {
    assert_eq!(PluginLuaCygnixy::new().name(), "cygnixy");
}

#[test]
fn load_and_unload_succeed_with_a_trace_record() {
    let mut plugin = PluginLuaCygnixy::new();
    let loaded = plugin.on_load().unwrap();
    assert_eq!(loaded.level, Level::Trace);
    assert_eq!(loaded.caller, None);
    assert_eq!(loaded.message, "PluginLuaCygnixy loaded!");
    let unloaded = plugin.on_unload().unwrap();
    assert_eq!(unloaded.level, Level::Trace);
    assert_eq!(unloaded.caller, None);
    assert_eq!(unloaded.message, "PluginLuaCygnixy unloaded!");
}

#[test]
fn default_is_the_new_plugin() {
    assert_eq!(PluginLuaCygnixy::default(), PluginLuaCygnixy::new());
}

#[test]
fn hooks_can_be_called_again() {
    let mut plugin = PluginLuaCygnixy::new();
    assert!(plugin.on_load().is_ok());
    assert!(plugin.on_load().is_ok());
    assert!(plugin.on_unload().is_ok());
    assert!(plugin.on_unload().is_ok());
    assert_eq!(plugin, PluginLuaCygnixy::new());
}
