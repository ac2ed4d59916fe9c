use plugin_lua_cygnixy::capability::Capability;
use plugin_lua_cygnixy::logging::{Level, LogRecord};
use plugin_lua_cygnixy::registry::{Creation, RegistrationTable};
use plugin_lua_cygnixy::PluginLuaCygnixy;

fn created(capability: Capability) -> Creation<String> {
    Creation { capability, outcome: Ok(format!("native:{}", capability.name())) }
}

fn refused(capability: Capability, cause: &str) -> Creation<String> {
    Creation { capability, outcome: Err(String::from(cause)) }
}

#[test]
fn new_table_is_empty() {
    let table: RegistrationTable<u32> = RegistrationTable::new();
    for capability in Capability::all() {
        assert!(!table.contains(capability));
        assert_eq!(table.get(capability), None);
    }
    assert!(table.into_entries().is_empty());
}

#[test]
fn insert_then_get() {
    let mut table = RegistrationTable::new();
    table.insert(Capability::PressKey, 7u32);
    assert!(table.contains(Capability::PressKey));
    assert_eq!(table.get(Capability::PressKey), Some(&7));
    assert!(!table.contains(Capability::Sleep));
    assert!(!table.contains(Capability::DiscordSend));
    assert_eq!(table.get(Capability::Log(Level::Info)), None);
}

#[test]
fn last_write_wins() {
    let mut table = RegistrationTable::new();
    table.insert(Capability::Sleep, "first");
    table.insert(Capability::MouseMove, "other");
    table.insert(Capability::Sleep, "second");
    assert_eq!(table.get(Capability::Sleep), Some(&"second"));
    assert_eq!(table.get(Capability::MouseMove), Some(&"other"));
    let entries = table.into_entries();
    assert_eq!(entries.len(), 2);
}

#[test]
fn entries_come_out_named_and_in_registration_order() {
    let mut table = RegistrationTable::new();
    table.insert(Capability::DiscordSend, 3u8);
    table.insert(Capability::Log(Level::Trace), 2u8);
    table.insert(Capability::Sleep, 1u8);
    let entries = table.into_entries();
    let seen: Vec<(Capability, &str, u8)> =
        entries.iter().map(|e| (e.capability, e.name.as_str(), e.callable)).collect();
    assert_eq!(
        seen,
        vec![
            (Capability::Sleep, "sleep", 1),
            (Capability::Log(Level::Trace), "trace", 2),
            (Capability::DiscordSend, "discord_send", 3),
        ]
    );
}

#[test]
fn full_registration_installs_every_capability() {
    let attempts: Vec<Creation<String>> = Capability::all().into_iter().map(created).collect();
    let registration = PluginLuaCygnixy::new().get_lua_functions(attempts);
    assert!(registration.diagnostics.is_empty());
    let entries = registration.functions.into_entries();
    assert_eq!(entries.len(), 12);
    for (entry, capability) in entries.iter().zip(Capability::all()) {
        assert_eq!(entry.capability, capability);
        assert_eq!(entry.name, capability.name());
        assert_eq!(entry.callable, format!("native:{}", capability.name()));
    }
}

#[test]
fn one_refused_creation_spares_the_rest() {
    for failing in Capability::all() {
        let attempts: Vec<Creation<String>> = Capability::all()
            .into_iter()
            .map(|c| if c == failing { refused(c, "signature rejected") } else { created(c) })
            .collect();
        let registration = PluginLuaCygnixy::new().get_lua_functions(attempts);
        assert_eq!(
            registration.diagnostics,
            vec![LogRecord {
                level: Level::Error,
                caller: None,
                message: String::from("Failed to register Lua functions: signature rejected"),
            }]
        );
        for capability in Capability::all() {
            if capability == failing {
                assert_eq!(registration.functions.get(capability), None);
            } else {
                assert_eq!(
                    registration.functions.get(capability),
                    Some(&format!("native:{}", capability.name()))
                );
            }
        }
        assert_eq!(registration.functions.into_entries().len(), 11);
    }
}

#[test]
fn every_refusal_is_reported_in_order() {
    let attempts = vec![
        refused(Capability::Sleep, "first cause"),
        created(Capability::MouseMove),
        refused(Capability::DiscordSend, "second cause"),
    ];
    let registration = PluginLuaCygnixy::new().get_lua_functions(attempts);
    let messages: Vec<&str> =
        registration.diagnostics.iter().map(|r| r.message.as_str()).collect();
    assert_eq!(
        messages,
        vec![
            "Failed to register Lua functions: first cause",
            "Failed to register Lua functions: second cause",
        ]
    );
    assert!(registration.diagnostics.iter().all(|r| r.level == Level::Error));
    assert!(registration.diagnostics.iter().all(|r| r.caller.is_none()));
    assert!(registration.functions.contains(Capability::MouseMove));
    assert!(!registration.functions.contains(Capability::Sleep));
    assert!(!registration.functions.contains(Capability::DiscordSend));
}

#[test]
fn nothing_attempted_registers_nothing() {
    let registration = PluginLuaCygnixy::new().get_lua_functions(Vec::<Creation<u8>>::new());
    assert!(registration.diagnostics.is_empty());
    assert!(registration.functions.into_entries().is_empty());
}

#[test]
fn register_functions_adds_to_what_the_table_holds() {
    let mut table = RegistrationTable::new();
    table.insert(Capability::Sleep, String::from("kept"));
    table.insert(Capability::PressKey, String::from("replaced"));
    let failures = PluginLuaCygnixy::new().register_functions(
        vec![
            created(Capability::PressKey),
            refused(Capability::Sleep, "no"),
            created(Capability::MouseClickLeft),
        ],
        &mut table,
    );
    assert_eq!(failures, vec![String::from("no")]);
    assert_eq!(table.get(Capability::Sleep), Some(&String::from("kept")));
    assert_eq!(table.get(Capability::PressKey), Some(&String::from("native:press_key")));
    assert_eq!(
        table.get(Capability::MouseClickLeft),
        Some(&String::from("native:mouse_click_left"))
    );
    assert_eq!(table.into_entries().len(), 3);
}

#[test]
fn a_later_creation_of_the_same_capability_replaces_the_earlier() {
    let attempts = vec![
        Creation { capability: Capability::Sleep, outcome: Ok(1u8) },
        Creation { capability: Capability::Sleep, outcome: Err(String::from("cause")) },
        Creation { capability: Capability::Sleep, outcome: Ok(2u8) },
    ];
    let registration = PluginLuaCygnixy::new().get_lua_functions(attempts);
    assert_eq!(registration.functions.get(Capability::Sleep), Some(&2));
    assert_eq!(registration.diagnostics.len(), 1);
}

#[test]
fn every_capability_is_attempted_once_in_order() {
    let attempted = std::cell::RefCell::new(Vec::new());
    let created = PluginLuaCygnixy::new().create_functions(|capability| {
        attempted.borrow_mut().push(capability);
        Ok(capability.arity())
    });
    assert_eq!(attempted.into_inner(), Capability::all());
    let seen: Vec<(Capability, Result<usize, String>)> =
        created.into_iter().map(|c| (c.capability, c.outcome)).collect();
    let expected: Vec<(Capability, Result<usize, String>)> =
        Capability::all().into_iter().map(|c| (c, Ok(c.arity()))).collect();
    assert_eq!(seen, expected);
}

#[test]
fn a_failing_constructor_does_not_end_the_round() {
    let attempted = std::cell::RefCell::new(Vec::new());
    let plugin = PluginLuaCygnixy::new();
    let created = plugin.create_functions(|capability| {
        attempted.borrow_mut().push(capability);
        if capability == Capability::MouseMove {
            Err(String::from("bad argument"))
        } else {
            Ok(capability.name())
        }
    });
    assert_eq!(attempted.into_inner(), Capability::all());
    let registration = plugin.get_lua_functions(created);
    assert_eq!(registration.diagnostics.len(), 1);
    assert_eq!(registration.diagnostics[0].level, Level::Error);
    assert_eq!(
        registration.diagnostics[0].message,
        "Failed to register Lua functions: bad argument"
    );
    let names: Vec<&str> =
        registration.functions.into_entries().into_iter().map(|e| e.callable).collect();
    assert_eq!(
        names,
        vec![
            "sleep",
            "drag_and_drop",
            "mouse_click_left",
            "mouse_click_right",
            "press_key",
            "info",
            "warn",
            "trace",
            "debug",
            "error",
            "discord_send",
        ]
    );
}

#[test]
fn constructors_that_all_fail_leave_an_empty_table() {
    let plugin = PluginLuaCygnixy::new();
    let created =
        plugin.create_functions(|capability| Err::<u8, String>(format!("no {}", capability.name())));
    let registration = plugin.get_lua_functions(created);
    assert!(registration.functions.into_entries().is_empty());
    let messages: Vec<String> =
        registration.diagnostics.into_iter().map(|r| r.message).collect();
    let expected: Vec<String> = Capability::all()
        .into_iter()
        .map(|c| format!("Failed to register Lua functions: no {}", c.name()))
        .collect();
    assert_eq!(messages, expected);
}
