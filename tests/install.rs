use wasi_logger::logger::{AlreadyInstalledError, Logger};

struct Quiet;

impl log::Log for Quiet {
    fn enabled(&self, _metadata: &log::Metadata) -> bool {
        true
    }

    fn log(&self, _record: &log::Record) {}

    fn flush(&self) {}
}

static QUIET: Quiet = Quiet;

#[test]
fn second_install_fails() {
    let first = Logger::install(log::set_logger(&QUIET));
    let second = Logger::install(log::set_logger(&QUIET));
    assert!(first.is_ok());
    assert_eq!(second.unwrap_err(), AlreadyInstalledError);
}
