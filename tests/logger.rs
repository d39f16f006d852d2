use wasi_logger::format::{Attribute, Record};
use wasi_logger::level::{Level, SinkLevel};
use wasi_logger::logger::{Logger, Metadata};

fn logger() -> Logger {
    Logger::install(Ok(())).unwrap()
}

#[test]
fn every_level_and_target_is_enabled() {
    let l = logger();
    for level in [Level::Error, Level::Warn, Level::Info, Level::Debug, Level::Trace] {
        for target in ["", "app", "app::net", "other"] {
            assert!(l.enabled(&Metadata { level, target: target.to_string() }));
        }
    }
}

#[test]
fn log_builds_the_sink_entry() {
    let l = logger();
    let r = Record {
        level: Level::Warn,
        target: "app".to_string(),
        module: Some("app::net".to_string()),
        file: Some("net.rs".to_string()),
        line: Some(12),
        message: "dropped".to_string(),
        plain_message: false,
        attributes: Some(vec![Attribute { key: "peer".to_string(), value: "7".to_string() }]),
    };
    let e = l.log(&r);
    assert_eq!(e.level, SinkLevel::Warn);
    assert_eq!(e.scope, "app");
    assert_eq!(e.message, "app::net in net.rs:12: dropped {peer: 7}");
}

#[test]
fn log_never_drops_a_record() {
    let l = logger();
    for level in [Level::Error, Level::Trace] {
        let r = Record {
            level,
            target: "t".to_string(),
            module: None,
            file: None,
            line: None,
            message: "m".to_string(),
            plain_message: true,
            attributes: None,
        };
        let e = l.log(&r);
        assert_eq!(e.scope, "t");
        assert_eq!(e.message, "m");
    }
    l.flush();
}
