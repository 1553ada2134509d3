use gstplugins::memory_tracer::{MemoryEvent, MemoryTracer, Params, Settings};
use regex::Regex;

fn no_params() -> Params {
    Params { file: None, include_filter: None, exclude_filter: None }
}

fn text(s: &str) -> Option<String> {
    Some(s.to_string())
}

#[test]
fn settings_have_defaults() {
    let settings = Settings::new();
    assert_eq!(settings.file, "/tmp/memory_tracer.log");
    assert!(settings.include_filter.is_none());
    assert!(settings.exclude_filter.is_none());
}

#[test]
fn params_are_taken_over() {
    let mut settings = Settings::new();
    settings.update_from_params(Params {
        file: text("/tmp/other.log"),
        include_filter: text("^GL.*$"),
        exclude_filter: text("System(Memory)?"),
    });
    assert_eq!(settings.file, "/tmp/other.log");
    let filter = settings.include_filter.as_ref().unwrap();
    assert_eq!(filter.as_str(), "^GL.*$");
    assert!(filter.is_match("GLMemory"));
    assert!(!filter.is_match("SystemMemory"));
    assert_eq!(settings.exclude_filter.as_ref().unwrap().as_str(), "System(Memory)?");

    settings.update_from_params(no_params());
    assert_eq!(settings.file, "/tmp/other.log");
    assert_eq!(settings.include_filter.as_ref().unwrap().as_str(), "^GL.*$");
    assert_eq!(settings.exclude_filter.as_ref().unwrap().as_str(), "System(Memory)?");
}

#[test]
fn unusable_filters_are_dropped() {
    let mut settings = Settings::new();
    settings.update_from_params(Params { include_filter: text("a"), ..no_params() });
    assert!(settings.include_filter.is_some());
    settings.update_from_params(Params { include_filter: text("("), ..no_params() });
    assert!(settings.include_filter.is_none());
    settings.update_from_params(Params { exclude_filter: text("[z-a]"), ..no_params() });
    assert!(settings.exclude_filter.is_none());
}

#[test]
fn compiled_filters_are_taken_over() {
    let mut settings = Settings::new();
    settings.update(None, Some(Regex::new("x")), None);
    assert_eq!(settings.include_filter.as_ref().unwrap().as_str(), "x");
    settings.update(text("f"), Some(Regex::new("*")), Some(Regex::new("y")));
    assert_eq!(settings.file, "f");
    assert!(settings.include_filter.is_none());
    assert_eq!(settings.exclude_filter.as_ref().unwrap().as_str(), "y");
}

fn event(is_alloc: bool) -> MemoryEvent {
    MemoryEvent {
        timestamp: 1234,
        ptr: 140_000,
        parent: 0xbeef,
        size: 4096,
        is_alloc,
        memory_type: b"SystemMemory".to_vec(),
    }
}

#[test]
fn events_have_a_type() {
    assert_eq!(event(true).event_type(), "alloc");
    assert_eq!(event(false).event_type(), "free");
}

#[test]
fn events_are_written_as_lines() {
    assert_eq!(
        event(true).to_line(),
        "1234,alloc,140000,0x0000beef,\"SystemMemory\",4096\n"
    );
    let wide = MemoryEvent { parent: usize::MAX, ..event(false) };
    assert_eq!(
        wide.to_line(),
        format!("1234,free,140000,0x{:08x},{:?},4096\n", usize::MAX, c"SystemMemory")
    );
}

#[test]
fn every_event_is_written_once() {
    let mut tracer = MemoryTracer::new();
    assert!(tracer.dispose());
    tracer.memory_init(1, 10, None, 100, b"A".to_vec());
    tracer.memory_init(2, 20, Some(10), 50, b"B".to_vec());

    // Nothing is lost where the file cannot be created.
    assert!(tracer.write_log(false).is_empty());
    assert!(tracer.dispose());
    assert_eq!(tracer.log.len(), 2);

    assert_eq!(
        tracer.write_log(true),
        ["1,alloc,10,0x00000000,\"A\",100\n", "2,alloc,20,0x0000000a,\"B\",50\n"]
    );
    assert!(!tracer.dispose());
    tracer.memory_free_pre(3, 20, Some(10), 50, b"B".to_vec());
    assert_eq!(tracer.write_log(true), ["3,free,20,0x0000000a,\"B\",50\n"]);
    assert!(tracer.write_log(true).is_empty());
}

#[test]
fn log_goes_to_the_given_file() {
    let tracer = MemoryTracer::new();
    assert_eq!(tracer.log_path(&None), "/tmp/memory_tracer.log");
    assert_eq!(tracer.log_path(&text("/tmp/x")), "/tmp/x");
}

#[test]
fn kinds_of_memory_are_quoted() {
    let quoted = |name: &[u8]| {
        let line = MemoryEvent { memory_type: name.to_vec(), ..event(true) }.to_line();
        assert_eq!(line.matches('\n').count(), 1);
        let start = "1234,alloc,140000,0x0000beef,".len();
        line[start..line.len() - ",4096\n".len()].to_string()
    };
    assert_eq!(quoted(b""), "\"\"");
    assert_eq!(quoted(b" ~GLMemory_2"), "\" ~GLMemory_2\"");
    assert_eq!(quoted(b"a\"b'c\\"), "\"a\\\"b\\'c\\\\\"");
    assert_eq!(quoted(b"\t\r\n"), "\"\\t\\r\\n\"");
    assert_eq!(quoted(b"\x01\x7f"), "\"\\x01\\x7f\"");
    assert_eq!(quoted(b"\xfe"), "\"\\xfe\"");
    // As names are shown for debugging.
    let name = c"\x01\x08\t\n\x0b\r\x1f !\"#&'()/09:?@AZ[\\]^_`az{|}~\x7f";
    assert_eq!(quoted(name.to_bytes()), format!("{name:?}"));
}
