use freight::logger::LogEvent;
use freight::logger::Logger;

#[test]
fn progress_lines_match_fixed_texts() {
    let mut logger = Logger::new();
    assert_eq!(logger.compiling_crate("demo"), "   Compiling lib demo\n");
    assert_eq!(logger.compiling_bin("demo"), "   Compiling bin demo\n");
    assert_eq!(logger.done_compiling(), "    Finished dev\n");
    assert_eq!(logger.lib_unit_test(), "     Running unittests src/lib.rs\n");
    assert_eq!(logger.main_unit_test(), "     Running unittests src/main.rs\n");
    assert_eq!(logger.tests("alpha"), "     Running tests alpha\n");
    assert_eq!(logger.doc_test("demo"), "   Doc-tests demo\n");
}

#[test]
fn logger_records_events_in_order() {
    let mut logger = Logger::new();
    assert!(logger.events().is_empty());
    logger.compiling_crate("demo");
    logger.compiling_bin("demo");
    logger.done_compiling();
    let events = logger.events();
    assert_eq!(events.len(), 3);
    assert!(matches!(&events[0], LogEvent::CompilingLib { crate_name } if crate_name == "demo"));
    assert!(matches!(&events[1], LogEvent::CompilingBin { crate_name } if crate_name == "demo"));
    assert!(matches!(&events[2], LogEvent::DoneCompiling));
}

#[test]
fn event_lines_render_directly() {
    let event = LogEvent::DocTest { crate_name: "demo".to_string() };
    assert_eq!(event.line(), "   Doc-tests demo\n");
}
