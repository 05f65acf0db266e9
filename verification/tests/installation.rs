use wasm_logger::{
    complete, init, Completion, Config, ConsoleCall, ConsoleMethod, InitError, Level, Record,
    WasmLogger,
};

struct Sink(WasmLogger);

fn level_of(level: log::Level) -> Level {
    match level {
        log::Level::Error => Level::Error,
        log::Level::Warn => Level::Warn,
        log::Level::Info => Level::Info,
        log::Level::Debug => Level::Debug,
        log::Level::Trace => Level::Trace,
    }
}

impl log::Log for Sink {
    fn enabled(&self, metadata: &log::Metadata) -> bool {
        self.0.enabled(metadata.target(), level_of(metadata.level()))
    }

    fn log(&self, _record: &log::Record) {}

    fn flush(&self) {
        self.0.flush()
    }
}

fn offer(logger: WasmLogger) -> Result<(), InitError> {
    log::set_boxed_logger(Box::new(Sink(logger)))
        .map_err(|error| InitError::AlreadyInitialized(error.to_string()))
}

#[test]
fn init_prepares_logger_and_max_level() {
    let installation = init(Config::with_prefix(Level::Warn, "app::"));
    assert_eq!(installation.max_level, Level::Warn);
    assert!(installation.logger.enabled("app::db", Level::Warn));
    assert!(installation.logger.enabled("app::db", Level::Error));
    assert!(!installation.logger.enabled("app::db", Level::Info));
    assert!(!installation.logger.enabled("other", Level::Error));
}

#[test]
fn init_without_prefix_admits_every_target() {
    let installation = init(Config::new(Level::Debug));
    assert_eq!(installation.max_level, Level::Debug);
    assert!(installation.logger.enabled("", Level::Debug));
    assert!(installation.logger.enabled("anything", Level::Error));
    assert!(!installation.logger.enabled("anything", Level::Trace));
    let call = installation.logger.log(&Record::new(Level::Debug, "t", "m")).unwrap();
    assert_eq!(call.method, ConsoleMethod::Debug);
}

#[test]
fn success_sets_the_configured_max_level() {
    for level in [Level::Error, Level::Warn, Level::Info, Level::Debug, Level::Trace] {
        assert_eq!(complete(level, Ok(())), Completion::SetMaxLevel(level));
    }
}

#[test]
fn failure_is_reported_by_one_plain_error_call() {
    let error = InitError::AlreadyInitialized("already set".to_string());
    assert_eq!(error.message(), "already set");
    let completion = complete(Level::Info, Err(error));
    assert_eq!(
        completion,
        Completion::Report(ConsoleCall {
            method: ConsoleMethod::Error,
            message: "already set".to_string(),
            styles: None,
        })
    );
}

#[test]
fn failure_with_empty_description_is_still_reported() {
    let completion = complete(Level::Trace, Err(InitError::AlreadyInitialized(String::new())));
    assert_eq!(
        completion,
        Completion::Report(ConsoleCall {
            method: ConsoleMethod::Error,
            message: String::new(),
            styles: None,
        })
    );
}

#[test]
fn second_init_is_reported_and_leaves_the_first_sink() {
    let first = init(Config::with_prefix(Level::Info, "first::"));
    let max_level = first.max_level;
    let outcome = offer(first.logger);
    assert_eq!(outcome, Ok(()));
    match complete(max_level, outcome) {
        Completion::SetMaxLevel(level) => {
            assert_eq!(level, Level::Info);
            log::set_max_level(log::LevelFilter::Info);
        }
        Completion::Report(_) => panic!("the first installation succeeds"),
    }

    let second = init(Config::with_prefix(Level::Trace, "second::"));
    let max_level = second.max_level;
    let outcome = offer(second.logger);
    assert!(outcome.is_err());
    assert_eq!(
        complete(max_level, outcome),
        Completion::Report(ConsoleCall {
            method: ConsoleMethod::Error,
            message: "attempted to set a logger after the logging system was already initialized"
                .to_string(),
            styles: None,
        })
    );

    assert_eq!(log::max_level(), log::LevelFilter::Info);
    let installed = log::logger();
    let ask = |target: &str, level: log::Level| {
        installed.enabled(&log::Metadata::builder().target(target).level(level).build())
    };
    assert!(ask("first::db", log::Level::Info));
    assert!(!ask("first::db", log::Level::Debug));
    assert!(!ask("second::db", log::Level::Info));
}
