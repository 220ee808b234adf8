use lynx_runner::debounce::Debouncer;
use lynx_runner::runner_config::{ConfigError, Input, RunnerConfig};

fn mapped_config() -> RunnerConfig {
    let mut config = RunnerConfig::new();
    config.set_button_mapping(42, Input::Up);
    config.set_button_mapping(43, Input::Down);
    config.set_button_mapping(80, Input::Pause);
    config
}

#[test]
fn press_transmits_once_and_decays_after_fifteen_polls() {
    let config = mapped_config();
    let mut d = Debouncer::new();

    // A single Up press at t0: one transmission with the Up bit set.
    assert_eq!(d.poll_tick(&vec![42], &config), Some((1, 0)));

    // Silence through t0+14: the bit stays set, nothing is re-sent.
    for _ in 1..15 {
        assert_eq!(d.poll_tick(&vec![], &config), None);
    }

    // At t0+15 the decay counter runs out: exactly one release transmission.
    assert_eq!(d.poll_tick(&vec![], &config), Some((0, 0)));

    // And nothing flaps afterwards.
    for _ in 0..20 {
        assert_eq!(d.poll_tick(&vec![], &config), None);
    }
}

#[test]
fn repeated_presses_keep_button_pressed_without_retransmission() {
    let config = mapped_config();
    let mut d = Debouncer::new();

    assert_eq!(d.poll_tick(&vec![42], &config), Some((1, 0)));

    // Refresh the press every 10 polls, well within the decay window: the
    // button never releases and the unchanged state is never re-sent.
    for round in 0..5 {
        for _ in 0..9 {
            assert_eq!(d.poll_tick(&vec![], &config), None, "round {}", round);
        }
        assert_eq!(d.poll_tick(&vec![42], &config), None, "round {}", round);
    }

    // Once the presses stop, exactly one release follows.
    for _ in 1..15 {
        assert_eq!(d.poll_tick(&vec![], &config), None);
    }
    assert_eq!(d.poll_tick(&vec![], &config), Some((0, 0)));
}

#[test]
fn pause_uses_the_switches_bit_group() {
    let config = mapped_config();
    let mut d = Debouncer::new();
    assert_eq!(d.poll_tick(&vec![80], &config), Some((0, 1)));
}

#[test]
fn several_buttons_combine_into_one_bitmask() {
    let config = mapped_config();
    let mut d = Debouncer::new();
    assert_eq!(d.poll_tick(&vec![42, 43, 80], &config), Some((3, 1)));
}

#[test]
fn unmapped_keys_change_nothing() {
    let config = mapped_config();
    let mut d = Debouncer::new();
    assert_eq!(d.poll_tick(&vec![7, 8, 9], &config), None);
}

#[test]
fn remapping_a_key_keeps_one_binding_per_key() {
    let mut config = RunnerConfig::new();
    config.set_button_mapping(42, Input::Up);
    config.set_button_mapping(42, Input::Down);
    assert_eq!(config.button_for(42), Some(Input::Down));
    assert_eq!(config.button_for(41), None);
    assert_eq!(config.button_mapping().len(), 1);
}

#[test]
fn complete_assignment_binds_all_nine_buttons() {
    let mut config = RunnerConfig::new();
    let keys: Vec<u64> = vec![10, 11, 12, 13, 14, 15, 16, 17, 18];
    assert_eq!(config.set_button_assignments(&keys), Ok(()));
    assert_eq!(config.button_for(10), Some(Input::Up));
    assert_eq!(config.button_for(13), Some(Input::Right));
    assert_eq!(config.button_for(18), Some(Input::Pause));
}

#[test]
fn wrong_arity_mapping_is_rejected() {
    let mut config = RunnerConfig::new();
    let keys: Vec<u64> = vec![10, 11, 12];
    assert_eq!(
        config.set_button_assignments(&keys),
        Err(ConfigError::WrongArity)
    );
}

#[test]
fn unknown_key_in_mapping_is_rejected() {
    let mut config = RunnerConfig::new();
    let keys: Vec<u64> = vec![10, 11, 0, 13, 14, 15, 16, 17, 18];
    assert_eq!(
        config.set_button_assignments(&keys),
        Err(ConfigError::UnknownKey)
    );
}

#[test]
fn config_flags_round_trip() {
    let mut config = RunnerConfig::new();
    assert!(!config.mute());
    assert!(!config.comlynx());
    assert!(config.rom().is_none());
    assert!(config.cartridge().is_none());
    config.set_mute(true);
    config.set_comlynx(true);
    config.set_rom("boot.img".to_string());
    config.set_cartridge("game.lnx".to_string());
    assert!(config.mute());
    assert!(config.comlynx());
    assert_eq!(config.rom().as_deref(), Some("boot.img"));
    assert_eq!(config.cartridge().as_deref(), Some("game.lnx"));
}
