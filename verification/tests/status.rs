use profile_import::gate::{wait_for_mods, GateStep, POLL_SECONDS};
use profile_import::status::{
    decimal_string, emit_update, progress_message, report_progress, StatusUpdate,
};

#[test]
fn decimal_string_writes_the_numeral() {
    assert_eq!(decimal_string(0), "0");
    assert_eq!(decimal_string(7), "7");
    assert_eq!(decimal_string(9), "9");
    assert_eq!(decimal_string(10), "10");
    assert_eq!(decimal_string(42), "42");
    assert_eq!(decimal_string(100), "100");
    assert_eq!(decimal_string(1_234_567_890), "1234567890");
    assert_eq!(decimal_string(u32::MAX), "4294967295");
}

#[test]
fn decimal_string_agrees_with_the_standard_formatting() {
    for n in 0..2000u32 {
        assert_eq!(decimal_string(n), format!("{}", n));
    }
}

#[test]
fn emit_update_goes_out_under_transfer_update() {
    let update = emit_update("hello".to_string());
    assert_eq!(
        update,
        StatusUpdate { topic: "transfer_update".to_string(), message: "hello".to_string() }
    );
}

#[test]
fn progress_message_names_the_profile_and_the_percentage() {
    assert_eq!(progress_message("Default", 0), "Importing profile 'Default'... 0%");
    assert_eq!(progress_message("Default", 42), "Importing profile 'Default'... 42%");
    assert_eq!(progress_message("My Mods", 100), "Importing profile 'My Mods'... 100%");
    assert_eq!(progress_message("", 5), "Importing profile ''... 5%");
}

#[test]
fn report_progress_publishes_the_progress_message() {
    let update = report_progress("Default", 50);
    assert_eq!(update.topic, "transfer_update");
    assert_eq!(update.message, "Importing profile 'Default'... 50%");
}

#[test]
fn wait_for_mods_proceeds_once_the_registry_is_ready() {
    assert_eq!(wait_for_mods(true), GateStep::Proceed);
}

#[test]
fn wait_for_mods_publishes_and_waits_a_second_while_loading() {
    assert_eq!(POLL_SECONDS, 1);
    match wait_for_mods(false) {
        GateStep::Wait { update, seconds } => {
            assert_eq!(seconds, 1);
            assert_eq!(update.topic, "transfer_update");
            assert_eq!(update.message, "从 Thunderstore 获取模组...");
        }
        GateStep::Proceed => panic!("the registry was not ready"),
    }
}
