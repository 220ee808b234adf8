use lynx_runner::comlynx_runner_thread::ComlynxRunnerThread;
use lynx_runner::frame_slot::FrameSlot;
use lynx_runner::perframe_runner_thread::PerFrameRunnerThread;
use lynx_runner::runner::{
    initialize_result, input_decision, strategy_for, InputPoll, LoadError, LoadOutcome, Rotation,
    StrategyKind,
};
use lynx_runner::runner_config::RunnerConfig;
use lynx_runner::sound_source::SoundSource;

struct Channels {
    input_tx: kanal::Sender<(u8, u8)>,
    input_rx: kanal::Receiver<(u8, u8)>,
    display_tx: kanal::Sender<Vec<u8>>,
    display_rx: kanal::Receiver<Vec<u8>>,
    rotation_tx: kanal::Sender<Rotation>,
    rotation_rx: kanal::Receiver<Rotation>,
}

fn make_channels() -> Channels {
    let (input_tx, input_rx) = kanal::unbounded();
    let (display_tx, display_rx) = kanal::bounded(1);
    let (rotation_tx, rotation_rx) = kanal::unbounded();
    Channels {
        input_tx,
        input_rx,
        display_tx,
        display_rx,
        rotation_tx,
        rotation_rx,
    }
}

fn comlynx_thread(config: RunnerConfig) -> (ComlynxRunnerThread, Channels) {
    let ch = make_channels();
    let t = ComlynxRunnerThread::new(
        config,
        ch.input_rx.clone(),
        ch.display_tx.clone(),
        ch.display_rx.clone(),
        ch.rotation_tx.clone(),
    );
    (t, ch)
}

#[test]
fn synchronized_flag_alone_selects_the_strategy() {
    let mut config = RunnerConfig::new();
    assert_eq!(strategy_for(&config), StrategyKind::FreeRunning);
    config.set_comlynx(true);
    assert_eq!(strategy_for(&config), StrategyKind::FixedStep);
    // Every other setting leaves the choice alone.
    config.set_mute(true);
    config.set_cartridge("game.lnx".to_string());
    assert_eq!(strategy_for(&config), StrategyKind::FixedStep);
    config.set_comlynx(false);
    assert_eq!(strategy_for(&config), StrategyKind::FreeRunning);
}

#[test]
fn audio_pull_requests_always_get_exactly_one_answer() {
    let (mut t, _ch) = comlynx_thread(RunnerConfig::new());
    let (req_tx, req_rx) = kanal::unbounded::<()>();
    let (rec_tx, rec_rx) = kanal::unbounded::<(i16, i16)>();

    // No request pending: the spin pass serves nothing.
    assert!(!t.service_audio_pull(&req_rx, &rec_tx));
    assert_eq!(rec_rx.try_recv(), Ok(None));

    // A request against an empty queue is answered with silence.
    req_tx.send(()).unwrap();
    assert!(t.service_audio_pull(&req_rx, &rec_tx));
    assert_eq!(rec_rx.try_recv(), Ok(Some((0, 0))));

    // Queued samples are served oldest first, one per request.
    t.push_sample((5, -5));
    t.push_sample((7, -7));
    req_tx.send(()).unwrap();
    req_tx.send(()).unwrap();
    assert!(t.service_audio_pull(&req_rx, &rec_tx));
    assert!(t.service_audio_pull(&req_rx, &rec_tx));
    assert_eq!(rec_rx.try_recv(), Ok(Some((5, -5))));
    assert_eq!(rec_rx.try_recv(), Ok(Some((7, -7))));
    assert_eq!(t.queued_samples(), 0);

    // Each answer consumed exactly one request: none is left pending.
    assert!(!t.service_audio_pull(&req_rx, &rec_tx));
}

#[test]
fn fixed_step_sound_cadence_downsamples_to_the_sample_rate() {
    let (mut t, _ch) = comlynx_thread(RunnerConfig::new());
    // One sample is due every 1000th tick (16 MHz crystal, 16 kHz audio).
    for _ in 0..999 {
        assert!(!t.sound_due());
    }
    assert!(t.sound_due());
    for _ in 0..999 {
        assert!(!t.sound_due());
    }
    assert!(t.sound_due());
}

#[test]
fn muted_run_never_harvests_samples() {
    let mut config = RunnerConfig::new();
    config.set_mute(true);
    let (mut t, _ch) = comlynx_thread(config);
    for _ in 0..3000 {
        assert!(!t.sound_due());
    }
    assert_eq!(t.queued_samples(), 0);
    // Frame publication is unaffected by muting.
    assert!(t.publish_frame(vec![1, 2, 3]));
}

#[test]
fn display_channel_delivers_only_the_newest_frame() {
    let (t, ch) = comlynx_thread(RunnerConfig::new());
    assert!(t.publish_frame(vec![1]));
    assert!(t.publish_frame(vec![2]));
    assert!(t.publish_frame(vec![3]));
    // The host finds the most recent frame, older ones were superseded.
    assert_eq!(ch.display_rx.try_recv(), Ok(Some(vec![3])));
    assert_eq!(ch.display_rx.try_recv(), Ok(None));
}

#[test]
fn rotation_is_delivered_before_any_frame() {
    let (t, ch) = comlynx_thread(RunnerConfig::new());
    assert!(t.announce_rotation(Rotation::Left));
    assert_eq!(ch.rotation_rx.recv(), Ok(Rotation::Left));
}

#[test]
fn closing_the_input_channel_decides_shutdown() {
    let (t, ch) = comlynx_thread(RunnerConfig::new());
    ch.input_tx.send((3, 0)).unwrap();
    assert_eq!(t.poll_inputs(), InputPoll::Apply(3, 0));
    assert_eq!(t.poll_inputs(), InputPoll::Idle);
    ch.input_tx.close().unwrap();
    assert_eq!(t.poll_inputs(), InputPoll::Shutdown);
}

#[test]
fn input_decision_prefers_shutdown_over_pending_input() {
    assert_eq!(input_decision(true, Some((1, 1))), InputPoll::Shutdown);
    assert_eq!(input_decision(false, Some((9, 1))), InputPoll::Apply(9, 1));
    assert_eq!(input_decision(false, None), InputPoll::Idle);
}

#[test]
fn refresh_rate_change_recomputes_the_frame_deadline() {
    let ch = make_channels();
    let mut t = PerFrameRunnerThread::new(
        RunnerConfig::new(),
        ch.input_rx,
        ch.display_tx,
        ch.display_rx,
        ch.rotation_tx,
    );
    t.update_refresh_rate(60_000);
    assert_eq!(t.current_frame_time_micros(), 16_666);
    // 60 -> 75 Hz: the very next deadline uses 1,000,000 / 75 microseconds.
    t.update_refresh_rate(75_000);
    assert_eq!(t.current_frame_time_micros(), 1_000_000 / 75);
    assert_eq!(t.current_refresh_millihertz(), 75_000);
    // Re-reporting the same rate changes nothing.
    t.update_refresh_rate(75_000);
    assert_eq!(t.current_frame_time_micros(), 13_333);
}

#[test]
fn free_running_batch_accumulates_and_leaves_whole() {
    let ch = make_channels();
    let mut t = PerFrameRunnerThread::new(
        RunnerConfig::new(),
        ch.input_rx,
        ch.display_tx,
        ch.display_rx,
        ch.rotation_tx,
    );
    for _ in 0..999 {
        assert!(!t.sound_due());
    }
    assert!(t.sound_due());
    t.push_sample(11, -11);
    t.push_sample(22, -22);
    assert_eq!(t.batch_len(), 4);
    let batch = t.take_sound_batch();
    assert_eq!(batch, vec![11, -11, 22, -22]);
    assert_eq!(t.batch_len(), 0);
}

#[test]
fn initialize_result_follows_the_error_taxonomy() {
    assert_eq!(initialize_result(None, Some(LoadOutcome::Loaded)), Ok(()));
    assert_eq!(initialize_result(Some(LoadOutcome::Loaded), Some(LoadOutcome::Loaded)), Ok(()));
    assert_eq!(
        initialize_result(Some(LoadOutcome::ReadFailed), Some(LoadOutcome::Loaded)),
        Err(LoadError::RomFailed)
    );
    assert_eq!(
        initialize_result(Some(LoadOutcome::Rejected), None),
        Err(LoadError::RomFailed)
    );
    assert_eq!(
        initialize_result(None, None),
        Err(LoadError::CartridgeMissing)
    );
    assert_eq!(
        initialize_result(Some(LoadOutcome::Loaded), Some(LoadOutcome::ReadFailed)),
        Err(LoadError::CartridgeFailed)
    );
    assert_eq!(
        initialize_result(None, Some(LoadOutcome::Rejected)),
        Err(LoadError::CartridgeFailed)
    );
}

#[test]
fn load_error_messages_match_the_diagnostics() {
    assert_eq!(LoadError::RomFailed.message(), "Couldn't not load ROM file.");
    assert_eq!(LoadError::CartridgeMissing.message(), "A cartridge is required.");
    assert_eq!(
        LoadError::CartridgeFailed.message(),
        "Couldn't not load Cartridge file."
    );
}

#[test]
fn frame_slot_always_yields_the_most_recent_frame() {
    let mut slot = FrameSlot::new();
    assert_eq!(slot.take(), None);
    slot.publish(vec![1]);
    slot.publish(vec![2]);
    slot.publish(vec![3]);
    assert_eq!(slot.take(), Some(vec![3]));
    assert_eq!(slot.take(), None);
    slot.publish(vec![4]);
    assert_eq!(slot.take(), Some(vec![4]));
}

#[test]
fn sound_source_requests_one_sample_per_refill() {
    let (req_tx, req_rx) = kanal::unbounded::<()>();
    let (rec_tx, rec_rx) = kanal::unbounded::<(i16, i16)>();
    let mut source = SoundSource::new(req_tx, rec_rx);

    // Pre-queue the core's answer, then pull: one request, two words out,
    // right word first.
    rec_tx.send((3, 4)).unwrap();
    assert_eq!(source.next_sample(), Some(4));
    assert_eq!(req_rx.try_recv(), Ok(Some(())));
    assert_eq!(req_rx.try_recv(), Ok(None));
    assert_eq!(source.next_sample(), Some(3));
    assert_eq!(req_rx.try_recv(), Ok(None));

    // Once the response channel is gone the stream ends.
    drop(rec_tx);
    assert_eq!(source.next_sample(), None);
}
