use awasmlib::artifacts::FileName;
use awasmlib::clock::{call_expired, clock_beat, deadline_ticks, TickCounter};
use awasmlib::commands::{
    resolve_call, CallError, CallEvent, Command, CommandQueue, NoAnswerReason,
    ProviderCapabilities, COMMAND_QUEUE_CAPACITY,
};
use awasmlib::config::{Config, DEFAULT_PAGES_TTL_SECS, DEFAULT_SEARCH_TTL_SECS};
use awasmlib::manager::{FanoutOutcome, PluginManager, EPOCH_INTERVAL_MS};
use awasmlib::slot::{InitError, SlotPhase};

fn dir_file(stem: &str, ext: &str) -> FileName {
    FileName { stem: stem.to_string(), ext: ext.to_string() }
}

fn plugin_files(stem: &str) -> Vec<FileName> {
    vec![dir_file(stem, "wasm"), dir_file(stem, "toml")]
}

fn caps(text: &str) -> ProviderCapabilities {
    ProviderCapabilities { payload: text.to_string() }
}

#[test]
fn manager_constructs_with_empty_registry() {
    let m = PluginManager::new().expect("engine construction");
    assert!(m.slots.is_empty());
    assert_eq!(m.epoch_interval_ms, EPOCH_INTERVAL_MS);
    assert!(m.list_plugins().is_empty());
}

#[test]
fn reload_fully_replaces_the_registry() {
    let mut m = PluginManager::new().expect("engine construction");

    let mut first: Vec<FileName> = Vec::new();
    first.extend(plugin_files("alpha"));
    first.extend(plugin_files("beta"));
    m.load_plugins_from_directory(&first, true);
    assert_eq!(m.list_plugins(), vec!["alpha".to_string(), "beta".to_string()]);

    let mut second: Vec<FileName> = Vec::new();
    second.extend(plugin_files("beta"));
    second.extend(plugin_files("gamma"));
    m.load_plugins_from_directory(&second, true);

    // Exactly the second listing's plugins; nothing merged from the first.
    assert_eq!(m.list_plugins(), vec!["beta".to_string(), "gamma".to_string()]);
    // Every slot starts empty, so no worker from before is reachable.
    for slot in &m.slots {
        assert_eq!(slot.phase, SlotPhase::Empty);
    }
}

#[test]
fn missing_directory_loads_nothing() {
    let mut m = PluginManager::new().expect("engine construction");
    m.load_plugins_from_directory(&plugin_files("alpha"), true);
    let empty: Vec<FileName> = Vec::new();
    m.load_plugins_from_directory(&empty, true);
    assert!(m.list_plugins().is_empty());
}

#[test]
fn aggregation_keeps_successes_and_omits_failures() {
    let m = PluginManager::new().expect("engine construction");
    let outcomes = vec![
        ("alpha".to_string(), FanoutOutcome::Produced(caps("search"))),
        (
            "beta".to_string(),
            FanoutOutcome::CallFailed(CallError::NoAnswer(NoAnswerReason::TimedOut)),
        ),
        ("gamma".to_string(), FanoutOutcome::Produced(caps("browse"))),
    ];
    let collected = m.get_all_capabilities(&outcomes);
    assert_eq!(
        collected,
        vec![
            ("alpha".to_string(), caps("search")),
            ("gamma".to_string(), caps("browse")),
        ]
    );
}

#[test]
fn aggregation_of_nothing_is_empty_not_an_error() {
    let m = PluginManager::new().expect("engine construction");
    let outcomes: Vec<(String, FanoutOutcome)> = Vec::new();
    assert!(m.get_all_capabilities(&outcomes).is_empty());
}

#[test]
fn aggregation_omits_init_failures() {
    let m = PluginManager::new().expect("engine construction");
    let outcomes = vec![
        ("alpha".to_string(), FanoutOutcome::InitFailed(InitError::MissingArtifact)),
        ("beta".to_string(), FanoutOutcome::Produced(caps("search"))),
    ];
    let collected = m.get_all_capabilities(&outcomes);
    assert_eq!(collected, vec![("beta".to_string(), caps("search"))]);
}

#[test]
fn clock_beats_advance_engine_and_counter() {
    let m = PluginManager::new().expect("engine construction");
    let mut counter = TickCounter::new();
    assert_eq!(counter.ticks, 0);
    counter.start();
    assert_eq!(counter.ticks, 1);
    clock_beat(&m.engine, &mut counter);
    clock_beat(&m.engine, &mut counter);
    assert_eq!(counter.ticks, 3);
}

#[test]
fn deadlines_and_expiry() {
    assert_eq!(deadline_ticks(5000, 10), 500);
    assert_eq!(deadline_ticks(9, 10), 0);
    assert_eq!(deadline_ticks(10, 10), 1);
    assert!(!call_expired(100, 500, 599));
    assert!(call_expired(100, 500, 600));
    assert!(call_expired(5, 0, 5));
}

#[test]
fn commands_are_answered_in_send_order() {
    let mut q = CommandQueue::new();
    q.push(Command::FetchUnits { media_id: "m1".to_string() }).unwrap();
    q.push(Command::FetchAssets { unit_id: "u1".to_string() }).unwrap();

    // The single consumer loop observes the commands in exactly send order.
    assert_eq!(q.pop(), Some(Command::FetchUnits { media_id: "m1".to_string() }));
    assert_eq!(q.pop(), Some(Command::FetchAssets { unit_id: "u1".to_string() }));
    assert_eq!(q.pop(), None);
}

#[test]
fn queue_is_bounded() {
    let mut q = CommandQueue::new();
    for _ in 0..COMMAND_QUEUE_CAPACITY {
        q.push(Command::GetCapabilities).unwrap();
    }
    assert_eq!(q.len(), COMMAND_QUEUE_CAPACITY);
    // A send into a full queue fails and hands the command back.
    assert_eq!(q.push(Command::GetAllowedHosts), Err(Command::GetAllowedHosts));
    assert_eq!(q.len(), COMMAND_QUEUE_CAPACITY);
}

#[test]
fn drain_empties_in_order() {
    let mut q = CommandQueue::new();
    q.push(Command::FetchUnits { media_id: "m1".to_string() }).unwrap();
    q.push(Command::GetCapabilities).unwrap();
    q.push(Command::GetAllowedHosts).unwrap();
    let drained = q.drain();
    assert_eq!(
        drained,
        vec![
            Command::FetchUnits { media_id: "m1".to_string() },
            Command::GetCapabilities,
            Command::GetAllowedHosts,
        ]
    );
    assert_eq!(q.len(), 0);
}

#[test]
fn timeout_surfaces_a_timeout_shaped_error() {
    let r: Result<Vec<String>, CallError> = resolve_call(CallEvent::TimedOut);
    assert_eq!(r, Err(CallError::NoAnswer(NoAnswerReason::TimedOut)));
}

#[test]
fn no_answer_shapes_collapse_and_plugin_errors_pass_through() {
    let sent: Result<u64, CallError> = resolve_call(CallEvent::SendRejected);
    assert_eq!(sent, Err(CallError::NoAnswer(NoAnswerReason::SendFailed)));
    let dropped: Result<u64, CallError> = resolve_call(CallEvent::ChannelClosed);
    assert_eq!(dropped, Err(CallError::NoAnswer(NoAnswerReason::ReplyDropped)));
    let failed: Result<u64, CallError> = resolve_call(CallEvent::PluginFailed("bad".to_string()));
    assert_eq!(failed, Err(CallError::Plugin("bad".to_string())));
    let answered: Result<u64, CallError> = resolve_call(CallEvent::Answered(5));
    assert_eq!(answered, Ok(5));
}

#[test]
fn config_defaults() {
    let c = Config::new(None, None, None, None, None);
    assert_eq!(c.db_path, None);
    assert_eq!(c.plugins_dir, None);
    assert!(c.run_migrations);
    assert_eq!(c.search_ttl_secs, DEFAULT_SEARCH_TTL_SECS);
    assert_eq!(c.pages_ttl_secs, DEFAULT_PAGES_TTL_SECS);
}

#[test]
fn config_reads_variables() {
    let c = Config::new(
        Some("data/awasm.db".to_string()),
        Some("data/plugins".to_string()),
        Some("false".to_string()),
        Some("123".to_string()),
        Some("86500".to_string()),
    );
    assert_eq!(c.db_path, Some("data/awasm.db".to_string()));
    assert_eq!(c.plugins_dir, Some("data/plugins".to_string()));
    assert!(!c.run_migrations);
    assert_eq!(c.search_ttl_secs, 123);
    assert_eq!(c.pages_ttl_secs, 86500);
}

#[test]
fn config_falls_back_on_unparsable_values() {
    let c = Config::new(
        None,
        None,
        Some("yes".to_string()),
        Some("ten".to_string()),
        Some("".to_string()),
    );
    // Anything other than "true" means migrations are off.
    assert!(!c.run_migrations);
    assert_eq!(c.search_ttl_secs, DEFAULT_SEARCH_TTL_SECS);
    assert_eq!(c.pages_ttl_secs, DEFAULT_PAGES_TTL_SECS);
}

#[test]
fn queue_interleaves_sends_and_receives_in_order() {
    let mut q = CommandQueue::new();
    q.push(Command::GetCapabilities).unwrap();
    q.push(Command::GetAllowedHosts).unwrap();
    assert_eq!(q.pop(), Some(Command::GetCapabilities));
    q.push(Command::FetchUnits { media_id: "m2".to_string() }).unwrap();
    assert_eq!(q.pop(), Some(Command::GetAllowedHosts));
    assert_eq!(q.pop(), Some(Command::FetchUnits { media_id: "m2".to_string() }));
    assert_eq!(q.pop(), None);
}

#[test]
fn config_accepts_plus_signed_ttl() {
    let c = Config::new(None, None, None, Some("+42".to_string()), Some("+86500".to_string()));
    assert_eq!(c.search_ttl_secs, 42);
    assert_eq!(c.pages_ttl_secs, 86500);
}

#[test]
fn config_migrations_on_when_variable_is_true() {
    let c = Config::new(None, None, Some("true".to_string()), None, None);
    assert!(c.run_migrations);
}
