use synth::combinators::{MixRange, TwoChannelConfig};
use synth::config::{
    ComposeConfig, ComposeConfigClient, Config, ConfigClient, HasConfig, UpdateError, ValidatedConfig,
};
use synth::controllers::{KBCConfig, KBConfigAction, KeyboardReducer};

#[test]
fn latest_update_wins_after_one_poll() {
    let mut holder: Config<i32> = Config::new(1);
    let mut client = holder.get_client().unwrap();
    assert_eq!(client.update(2), Ok(()));
    assert_eq!(client.update(3), Ok(()));
    assert_eq!(client.update(4), Ok(()));
    assert_eq!(*holder.current(), 1);
    assert_eq!(holder.try_update(), 3);
    assert_eq!(*holder.current(), 4);
    assert_eq!(holder.config, 4);
    assert_eq!(client.get(), 4);
}

#[test]
fn poll_of_empty_queue_changes_nothing() {
    let mut holder: Config<i32> = Config::new(7);
    let _client = holder.get_client().unwrap();
    assert_eq!(holder.try_update(), 0);
    assert_eq!(*holder.current(), 7);
}

#[test]
fn producer_is_handed_out_once() {
    let mut holder: Config<i32> = Config::new(0);
    assert!(holder.get_client().is_some());
    assert!(holder.get_client().is_none());
}

#[test]
fn update_after_holder_is_gone_reports_disconnected() {
    let mut holder: Config<i32> = Config::new(0);
    let mut client = holder.get_client().unwrap();
    drop(holder);
    assert_eq!(client.update(5), Err(UpdateError::Disconnected));
    assert_eq!(client.get(), 5);
}

#[test]
fn accept_replaces_held_snapshot() {
    let mut holder: Config<i32> = Config::new(0);
    holder.accept(9);
    assert_eq!(*holder.current(), 9);
}

#[test]
fn reducer_channel_folds_actions_into_local_cache() {
    let mut holder = ComposeConfig::new(KBCConfig::default(), KeyboardReducer);
    let mut client = holder.get_client().unwrap();
    assert!(holder.get_client().is_none());
    assert_eq!(client.update(KBConfigAction::ChangeBase(10)), Ok(()));
    assert_eq!(client.update(KBConfigAction::Play(100)), Ok(()));
    let expected = KBCConfig { base_hz: 10, playing_note: Some(100) };
    assert_eq!(client.get(), expected);
    assert_eq!(holder.try_update(), 2);
    assert_eq!(*holder.current(), expected);
    assert_eq!(client.update(KBConfigAction::Stop), Ok(()));
    assert_eq!(client.get(), KBCConfig { base_hz: 10, playing_note: None });
}

#[test]
fn validated_channel_drops_rejected_snapshot() {
    let half = 32768;
    let start = TwoChannelConfig { a_mix: half, b_mix: half };
    let mut holder = ValidatedConfig::new_validated(start, MixRange);
    let mut client = holder.get_client().unwrap();
    let too_loud = TwoChannelConfig { a_mix: 98304, b_mix: half };
    assert_eq!(client.update(too_loud), Err(UpdateError::Rejected));
    assert_eq!(client.get(), start);
    assert_eq!(holder.try_update(), 0);
    assert_eq!(*holder.current(), start);
    let quieter = TwoChannelConfig { a_mix: 0, b_mix: 65536 };
    assert_eq!(client.update(quieter), Ok(()));
    assert_eq!(holder.try_update(), 1);
    assert_eq!(*holder.current(), quieter);
}

#[test]
fn validated_channel_rejects_negative_ratio() {
    let mut holder = ValidatedConfig::new_validated(TwoChannelConfig { a_mix: 0, b_mix: 0 }, MixRange);
    let mut client = holder.get_client().unwrap();
    assert_eq!(
        client.update(TwoChannelConfig { a_mix: 0, b_mix: -1 }),
        Err(UpdateError::Rejected)
    );
    assert_eq!(client.get(), TwoChannelConfig { a_mix: 0, b_mix: 0 });
}

#[test]
fn producer_sends_each_snapshot_in_order() {
    let (sender, receiver) = std::sync::mpsc::channel();
    let mut client = ConfigClient::new(sender, 1);
    assert_eq!(client.get(), 1);
    client.update(2).unwrap();
    client.update(3).unwrap();
    assert_eq!(receiver.try_recv(), Ok(2));
    assert_eq!(receiver.try_recv(), Ok(3));
    assert!(receiver.try_recv().is_err());
}

#[test]
fn composed_producer_over_plain_producer() {
    let (sender, receiver) = std::sync::mpsc::channel();
    let plain = ConfigClient::new(sender, KBCConfig::default());
    let mut client = ComposeConfigClient::new(KeyboardReducer, plain);
    client.update(KBConfigAction::Play(5)).unwrap();
    assert_eq!(client.get().playing_note, Some(5));
    assert_eq!(receiver.try_recv().unwrap().playing_note, Some(5));
}

#[test]
fn composed_holder_exposes_held_snapshot() {
    let mut holder = ComposeConfig::new(KBCConfig::default(), KeyboardReducer);
    let mut client = holder.get_client().unwrap();
    client.update(KBConfigAction::ChangeBase(3)).unwrap();
    assert_eq!(HasConfig::get(&holder).base_hz, 0);
    holder.try_update();
    assert_eq!(HasConfig::get(&holder).base_hz, 3);
}

#[test]
fn composed_and_validated_holders_keep_no_raw_producer() {
    let mut composed = ComposeConfig::new(KBCConfig::default(), KeyboardReducer);
    assert!(composed.config.get_client().is_none());
    assert!(composed.get_client().is_some());
    let mut validated =
        ValidatedConfig::new_validated(TwoChannelConfig { a_mix: 0, b_mix: 0 }, MixRange);
    assert!(validated.config.get_client().is_none());
    assert!(validated.get_client().is_some());
}
