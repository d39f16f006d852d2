use wasi_logger::level::{map_level, Level, SinkLevel};

#[test]
fn each_level_maps_to_its_namesake() {
    assert_eq!(map_level(Level::Error), SinkLevel::Error);
    assert_eq!(map_level(Level::Warn), SinkLevel::Warn);
    assert_eq!(map_level(Level::Info), SinkLevel::Info);
    assert_eq!(map_level(Level::Debug), SinkLevel::Debug);
    assert_eq!(map_level(Level::Trace), SinkLevel::Trace);
}

#[test]
fn no_two_levels_share_a_sink_level() {
    let all = [Level::Error, Level::Warn, Level::Info, Level::Debug, Level::Trace];
    for a in all {
        for b in all {
            assert_eq!(map_level(a) == map_level(b), a == b);
        }
    }
}
