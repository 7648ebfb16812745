use zcblive::{
    Bot, ClickType, ClickpackTree, Config, DirEntry, LoadError, NoiseCommand, PackDir,
    PlayCommand, PlayLayer, SoundWrapper, Sounds, VolumeSettings,
};

fn sound(id: usize) -> SoundWrapper {
    SoundWrapper { id }
}

fn sounds(ids: &[usize]) -> Vec<SoundWrapper> {
    ids.iter().map(|id| sound(*id)).collect()
}

fn file(name: &str, id: usize) -> DirEntry {
    DirEntry { name: String::from(name), is_file: true, sound: Some(sound(id)) }
}

fn clicks_only(ids: &[usize]) -> PackDir {
    let mut dir = PackDir::unreadable();
    dir.clicks = Some(ids.iter().map(|id| file("click.wav", *id)).collect());
    dir
}

/// Settings without any random part: fixed pitch, no deviation of the volume.
fn steady_config() -> Config {
    let mut conf = Config::default();
    conf.pitch_enabled = false;
    conf.volume_settings = VolumeSettings {
        enabled: true,
        spam_time: 300_000,
        spam_vol_offset_factor: 900_000,
        max_spam_vol_offset: 300_000,
        change_releases_volume: false,
        global_volume: 1_000_000,
        volume_var: 0,
    };
    conf
}

fn one_player() -> PlayLayer {
    PlayLayer { is_two_player: false, is_paused: false, time: 1 }
}

fn two_players() -> PlayLayer {
    PlayLayer { is_two_player: true, is_paused: false, time: 1 }
}

/// An engine in a level, with one click for the first player.
fn playing(conf: Config) -> Bot {
    let mut bot = Bot::new(conf);
    bot.players.0.clicks = sounds(&[1]);
    bot.oninit(0);
    bot
}

fn snapshot(bot: &Bot) -> (bool, u64, u64, ClickType, ClickType, i64, i64, i64) {
    (
        bot.in_level,
        bot.prev_time,
        bot.level_start,
        bot.prev_click_type,
        bot.prev_resolved_click_type,
        bot.prev_pitch,
        bot.prev_volume,
        bot.prev_spam_offset,
    )
}

#[test]
fn new_engine_is_idle_and_empty() {
    let bot = Bot::new(Config::default());
    assert!(!bot.has_sounds());
    assert_eq!(bot.num_sounds(), (0, 0));
    assert_eq!(bot.noise, None);
    assert!(!bot.in_level);
    assert!(!bot.is_loading_clickpack);
    assert_eq!(bot.selected_clickpack, "");
    assert_eq!(bot.prev_click_type, ClickType::NoClick);
    assert_eq!(bot.prev_resolved_click_type, ClickType::NoClick);
    assert_eq!(snapshot(&bot), snapshot(&Bot::default()));
    assert_eq!(Bot::default().conf.buffer_size, 512);
}

#[test]
fn action_without_a_level_plays_nothing() {
    let mut bot = Bot::new(steady_config());
    bot.players.0.clicks = sounds(&[1]);
    let before = snapshot(&bot);
    for push in [true, false] {
        for player2 in [true, false] {
            assert_eq!(bot.on_action(push, player2, two_players(), 5_000_000), None);
        }
    }
    assert_eq!(snapshot(&bot), before);
}

#[test]
fn action_after_the_level_was_left_plays_nothing() {
    let mut bot = playing(steady_config());
    assert!(bot.on_action(true, false, one_player(), 1_000_000).is_some());
    bot.onquit();
    assert!(!bot.in_level);
    let before = snapshot(&bot);
    assert_eq!(bot.on_action(true, false, one_player(), 2_000_000), None);
    assert_eq!(snapshot(&bot), before);
}

#[test]
fn second_player_in_a_level_for_one_plays_nothing() {
    let mut bot = playing(steady_config());
    bot.players.1.clicks = sounds(&[2]);
    let before = snapshot(&bot);
    assert_eq!(bot.on_action(true, true, one_player(), 1_000_000), None);
    assert_eq!(bot.on_action(false, true, one_player(), 1_000_000), None);
    assert_eq!(snapshot(&bot), before);
    assert!(bot.on_action(true, true, two_players(), 1_000_000).is_some());
}

#[test]
fn action_without_sounds_plays_nothing() {
    let mut bot = Bot::new(steady_config());
    bot.oninit(0);
    let before = snapshot(&bot);
    assert_eq!(bot.on_action(true, false, one_player(), 1_000_000), None);
    assert_eq!(snapshot(&bot), before);
}

#[test]
fn action_in_a_paused_level_plays_nothing() {
    let mut bot = playing(steady_config());
    let paused = PlayLayer { is_paused: true, ..one_player() };
    let before = snapshot(&bot);
    assert_eq!(bot.on_action(true, false, paused, 1_000_000), None);
    assert_eq!(snapshot(&bot), before);
}

#[test]
fn release_at_time_zero_plays_nothing() {
    let mut bot = playing(steady_config());
    let start = PlayLayer { time: 0, ..one_player() };
    let before = snapshot(&bot);
    assert_eq!(bot.on_action(false, false, start, 1_000_000), None);
    assert_eq!(snapshot(&bot), before);
    assert!(bot.on_action(true, false, start, 1_000_000).is_some());
}

#[test]
fn action_plays_and_records() {
    let mut bot = playing(steady_config());
    let played = bot.on_action(true, false, one_player(), 3_000_000);
    assert_eq!(played, Some(PlayCommand { sound: sound(1), pitch: 1_000_000, volume: 1_000_000 }));
    assert_eq!(bot.prev_time, 3_000_000);
    assert_eq!(bot.prev_click_type, ClickType::HardClick);
    assert_eq!(bot.prev_resolved_click_type, ClickType::Click);
    assert_eq!(bot.prev_pitch, 1_000_000);
    assert_eq!(bot.prev_volume, 1_000_000);
    assert_eq!(bot.prev_spam_offset, 0);
}

#[test]
fn quick_press_is_ducked() {
    let mut bot = playing(steady_config());
    bot.on_action(true, false, one_player(), 3_000_000);
    let played = bot.on_action(true, false, one_player(), 3_100_000).unwrap();
    assert_eq!(played.volume, 820_000);
    assert_eq!(bot.prev_spam_offset, 180_000);
    assert_eq!(bot.prev_volume, 820_000);
    assert_eq!(bot.prev_click_type, ClickType::SoftClick);
    let slow = bot.on_action(true, false, one_player(), 3_600_000).unwrap();
    assert_eq!(slow.volume, 1_000_000);
    assert_eq!(bot.prev_spam_offset, 0);
    assert_eq!(bot.prev_click_type, ClickType::Click);
}

#[test]
fn quick_release_is_not_ducked() {
    let mut bot = playing(steady_config());
    bot.players.0.releases = sounds(&[2]);
    bot.on_action(true, false, one_player(), 3_000_000);
    let played = bot.on_action(false, false, one_player(), 3_100_000).unwrap();
    assert_eq!(played, PlayCommand { sound: sound(2), pitch: 1_000_000, volume: 1_000_000 });
    assert_eq!(bot.prev_resolved_click_type, ClickType::Release);
    assert_eq!(bot.prev_click_type, ClickType::SoftRelease);
}

#[test]
fn release_that_resolves_to_a_press_is_ducked() {
    let mut bot = playing(steady_config());
    bot.on_action(true, false, one_player(), 3_000_000);
    let played = bot.on_action(false, false, one_player(), 3_100_000).unwrap();
    assert_eq!(bot.prev_click_type, ClickType::SoftRelease);
    assert_eq!(bot.prev_resolved_click_type, ClickType::Click);
    assert_eq!(played.volume, 820_000);
}

#[test]
fn time_that_runs_backwards_counts_by_its_distance() {
    let mut bot = playing(steady_config());
    bot.on_action(true, false, one_player(), 3_000_000);
    let played = bot.on_action(true, false, one_player(), 2_900_000).unwrap();
    assert_eq!(played.volume, 820_000);
    assert_eq!(bot.prev_time, 2_900_000);
    assert_eq!(bot.prev_click_type, ClickType::SoftClick);
}

#[test]
fn action_is_timed_from_the_start_of_the_level() {
    let mut bot = Bot::new(steady_config());
    bot.players.0.clicks = sounds(&[1]);
    bot.oninit(10_000_000);
    bot.on_action(true, false, one_player(), 10_100_000);
    assert_eq!(bot.prev_time, 100_000);
    assert_eq!(bot.prev_click_type, ClickType::SoftClick);
    bot.onreset(20_000_000);
    assert_eq!(bot.level_start, 20_000_000);
    assert_eq!(bot.prev_time, 100_000);
    bot.on_action(true, false, one_player(), 20_000_050);
    assert_eq!(bot.prev_time, 50);
    assert_eq!(bot.prev_click_type, ClickType::SoftClick);
}

#[test]
fn action_is_timed_by_the_game_where_asked() {
    let mut conf = steady_config();
    conf.use_playlayer_time = true;
    let mut bot = playing(conf);
    let level = PlayLayer { is_two_player: false, is_paused: false, time: 2_500_000 };
    bot.on_action(true, false, level, 77);
    assert_eq!(bot.prev_time, 2_500_000);
    assert_eq!(bot.prev_click_type, ClickType::HardClick);
}

#[test]
fn time_of_an_event() {
    let mut bot = Bot::new(steady_config());
    let level = PlayLayer { is_two_player: false, is_paused: false, time: 42 };
    bot.level_start = 1_000;
    assert_eq!(bot.time(&level, 1_500), 500);
    assert_eq!(bot.time(&level, 1_000), 0);
    assert_eq!(bot.time(&level, 999), 0);
    bot.conf.use_playlayer_time = true;
    assert_eq!(bot.time(&level, 1_500), 500);
    bot.in_level = true;
    assert_eq!(bot.time(&level, 1_500), 42);
}

#[test]
fn oninit_forgets_the_previous_event() {
    let mut conf = steady_config();
    conf.volume_settings.global_volume = 750_000;
    let mut bot = playing(conf);
    bot.on_action(true, false, one_player(), 3_000_000);
    bot.oninit(9_000_000);
    assert!(bot.in_level);
    assert_eq!(bot.prev_time, 0);
    assert_eq!(bot.prev_click_type, ClickType::NoClick);
    assert_eq!(bot.prev_resolved_click_type, ClickType::NoClick);
    assert_eq!(bot.prev_pitch, 0);
    assert_eq!(bot.prev_volume, 750_000);
    assert_eq!(bot.prev_spam_offset, 0);
    assert_eq!(bot.level_start, 9_000_000);
    assert!(bot.has_sounds());
}

#[test]
fn onreset_keeps_the_previous_event() {
    let mut bot = playing(steady_config());
    bot.on_action(true, false, one_player(), 3_000_000);
    let before = snapshot(&bot);
    bot.onreset(4_000_000);
    let after = snapshot(&bot);
    assert_eq!(after.2, 4_000_000);
    assert_eq!((after.0, after.1, after.3, after.4, after.5, after.6, after.7),
        (before.0, before.1, before.3, before.4, before.5, before.6, before.7));
}

#[test]
fn play_click_computes_and_records() {
    let mut conf = steady_config();
    conf.volume_settings.volume_var = 200_000;
    let mut bot = playing(conf);
    bot.prev_time = 1_000_000;
    let command = bot.play_click(
        1_100_000,
        ClickType::SoftClick,
        sound(5),
        ClickType::Click,
        1_020_000,
        -100_000,
    );
    assert_eq!(command, PlayCommand { sound: sound(5), pitch: 1_020_000, volume: 720_000 });
    assert_eq!(bot.prev_time, 1_100_000);
    assert_eq!(bot.prev_click_type, ClickType::SoftClick);
    assert_eq!(bot.prev_resolved_click_type, ClickType::Click);
    assert_eq!(bot.prev_pitch, 1_020_000);
    assert_eq!(bot.prev_volume, 720_000);
    assert_eq!(bot.prev_spam_offset, 180_000);
}

#[test]
fn pitch_is_fixed_where_it_is_not_varied() {
    let bot = Bot::new(steady_config());
    for _ in 0..50 {
        assert_eq!(bot.get_pitch(), 1_000_000);
    }
}

#[test]
fn pitch_is_drawn_from_the_range() {
    let bot = Bot::new(Config::default());
    let mut lowest = i64::MAX;
    let mut highest = i64::MIN;
    for _ in 0..2000 {
        let pitch = bot.get_pitch();
        assert!(950_000 <= pitch && pitch <= 1_050_000);
        lowest = lowest.min(pitch);
        highest = highest.max(pitch);
    }
    assert!(lowest < highest);
}

#[test]
fn pitch_of_a_range_of_one_value() {
    let mut conf = Config::default();
    conf.pitch.from = 1_234_567;
    conf.pitch.to = 1_234_567;
    let bot = Bot::new(conf);
    assert_eq!(bot.get_pitch(), 1_234_567);
}

#[test]
fn volume_jitter_is_drawn_from_the_variation() {
    let bot = Bot::new(Config::default());
    let mut lowest = i64::MAX;
    let mut highest = i64::MIN;
    for _ in 0..2000 {
        let jitter = bot.get_volume_jitter();
        assert!(-200_000 <= jitter && jitter <= 200_000);
        lowest = lowest.min(jitter);
        highest = highest.max(jitter);
    }
    assert!(lowest < 0 && 0 < highest);
    assert_eq!(Bot::new(steady_config()).get_volume_jitter(), 0);
}

#[test]
fn action_draws_pitch_and_volume_within_the_settings() {
    let mut bot = playing(Config::default());
    bot.players.0.clicks = sounds(&[1, 2, 3]);
    let mut clock = 0;
    for _ in 0..500 {
        clock += 1_000_000;
        let played = bot.on_action(true, false, one_player(), clock).unwrap();
        assert!(bot.players.0.clicks.contains(&played.sound));
        assert!(950_000 <= played.pitch && played.pitch <= 1_050_000);
        assert!(800_000 <= played.volume && played.volume <= 1_200_000);
        assert_eq!(bot.prev_pitch, played.pitch);
        assert_eq!(bot.prev_volume, played.volume);
        assert_eq!(bot.prev_time, clock);
        assert_eq!(bot.prev_click_type, ClickType::Click);
        assert_eq!(bot.prev_resolved_click_type, ClickType::Click);
    }
}

#[test]
fn random_click_of_the_player() {
    let mut bot = Bot::new(steady_config());
    bot.players.0.clicks = sounds(&[1]);
    bot.players.1.hardclicks = sounds(&[2]);
    assert_eq!(bot.get_random_click(ClickType::Click, false), (sound(1), ClickType::Click));
    assert_eq!(bot.get_random_click(ClickType::Click, true), (sound(2), ClickType::HardClick));
    assert_eq!(bot.get_random_click(ClickType::MicroRelease, true), (sound(2), ClickType::HardClick));
}

#[test]
fn random_click_of_the_other_player_where_the_player_has_none() {
    let mut bot = Bot::new(steady_config());
    bot.players.0.softreleases = sounds(&[1]);
    assert_eq!(bot.get_random_click(ClickType::Click, true), (sound(1), ClickType::SoftRelease));
    let mut other = Bot::new(steady_config());
    other.players.1.microclicks = sounds(&[2]);
    assert_eq!(other.get_random_click(ClickType::Release, false), (sound(2), ClickType::MicroClick));
}

#[test]
fn second_player_plays_with_the_sounds_of_the_first() {
    let mut bot = playing(steady_config());
    let played = bot.on_action(true, true, two_players(), 3_000_000).unwrap();
    assert_eq!(played.sound, sound(1));
}

#[test]
fn has_sounds_of_either_player() {
    let mut bot = Bot::new(steady_config());
    assert!(!bot.has_sounds());
    bot.players.1.microreleases = sounds(&[1, 2]);
    assert!(bot.has_sounds());
    assert_eq!(bot.num_sounds(), (0, 2));
    bot.players.0.clicks = sounds(&[3]);
    assert_eq!(bot.num_sounds(), (1, 2));
}

#[test]
fn load_clickpack_takes_the_sounds_over() {
    let mut tree = ClickpackTree::unreadable();
    tree.players[0].0 = clicks_only(&[1, 2]);
    tree.players[0].1 = clicks_only(&[3]);
    tree.root = Some(vec![file("noise.wav", 9)]);
    let mut bot = Bot::new(steady_config());
    bot.oninit(5);
    assert_eq!(bot.load_clickpack(&tree, "my pack"), Ok(()));
    assert_eq!(bot.players.0.clicks, sounds(&[1, 2]));
    assert_eq!(bot.players.1.clicks, sounds(&[3]));
    assert_eq!(bot.num_sounds(), (2, 1));
    assert_eq!(bot.noise, Some(sound(9)));
    assert_eq!(bot.selected_clickpack, "my pack");
    assert!(bot.in_level);
    assert_eq!(bot.level_start, 5);
}

#[test]
fn load_clickpack_replaces_the_sounds_from_before() {
    let mut bot = Bot::new(steady_config());
    bot.players.0.hardclicks = sounds(&[7]);
    bot.players.1.releases = sounds(&[8]);
    bot.noise = Some(sound(9));
    let mut tree = ClickpackTree::unreadable();
    tree.players[6].0 = clicks_only(&[1]);
    assert_eq!(bot.load_clickpack(&tree, "next"), Ok(()));
    assert!(bot.players.0.hardclicks.is_empty());
    assert_eq!(bot.players.0.clicks, sounds(&[1]));
    assert!(!bot.players.1.has_sounds());
    assert_eq!(bot.noise, None);
}

#[test]
fn failed_load_keeps_the_clickpack_from_before() {
    let mut bot = Bot::new(steady_config());
    let mut tree = ClickpackTree::unreadable();
    tree.players[0].0 = clicks_only(&[1, 2]);
    tree.root = Some(vec![file("noise.wav", 9)]);
    assert_eq!(bot.load_clickpack(&tree, "good"), Ok(()));
    let mut empty = ClickpackTree::unreadable();
    empty.root = Some(Vec::new());
    assert_eq!(bot.load_clickpack(&empty, "bad"), Err(LoadError::NoSounds));
    assert_eq!(bot.players.0.clicks, sounds(&[1, 2]));
    assert_eq!(bot.noise, Some(sound(9)));
    assert_eq!(bot.selected_clickpack, "good");
    assert!(bot.has_sounds());
}

#[test]
fn unload_clickpack_drops_everything_of_it() {
    let mut bot = playing(steady_config());
    bot.players.1.releases = sounds(&[2]);
    bot.noise = Some(sound(3));
    bot.selected_clickpack = String::from("pack");
    bot.unload_clickpack();
    assert!(!bot.has_sounds());
    assert_eq!(bot.num_sounds(), (0, 0));
    assert_eq!(bot.noise, None);
    assert_eq!(bot.selected_clickpack, "");
    assert!(bot.in_level);
    assert_eq!(bot.on_action(true, false, one_player(), 1_000_000), None);
}

#[test]
fn one_load_at_a_time() {
    let mut bot = Bot::new(steady_config());
    assert!(bot.start_loading());
    assert!(bot.is_loading_clickpack);
    assert!(!bot.start_loading());
    assert!(bot.is_loading_clickpack);
    let mut tree = ClickpackTree::unreadable();
    tree.players[0].0 = clicks_only(&[1]);
    assert_eq!(bot.finish_loading(&tree, "pack"), Ok(()));
    assert!(!bot.is_loading_clickpack);
    assert_eq!(bot.selected_clickpack, "pack");
    assert!(bot.start_loading());
}

#[test]
fn failed_load_clears_the_mark() {
    let mut bot = Bot::new(steady_config());
    bot.players.0.clicks = sounds(&[4]);
    assert!(bot.start_loading());
    assert_eq!(
        bot.finish_loading(&ClickpackTree::unreadable(), "none"),
        Err(LoadError::NoSounds)
    );
    assert!(!bot.is_loading_clickpack);
    assert_eq!(bot.players.0.clicks, sounds(&[4]));
    assert_eq!(bot.selected_clickpack, "");
}

#[test]
fn noise_without_a_noise_in_the_clickpack() {
    let mut bot = Bot::new(steady_config());
    bot.conf.play_noise = true;
    for new_mixer in [true, false] {
        for started in [true, false] {
            assert_eq!(bot.play_noise(new_mixer, started), NoiseCommand::Nothing);
        }
    }
}

#[test]
fn noise_is_started_on_a_new_sink() {
    let mut bot = Bot::new(steady_config());
    bot.noise = Some(sound(3));
    bot.conf.noise_volume = 400_000;
    let held = NoiseCommand::Start { sound: sound(3), running: false, volume: 400_000 };
    assert_eq!(bot.play_noise(false, false), held);
    assert_eq!(bot.play_noise(true, false), held);
    assert_eq!(bot.play_noise(true, true), held);
    bot.conf.play_noise = true;
    let running = NoiseCommand::Start { sound: sound(3), running: true, volume: 400_000 };
    assert_eq!(bot.play_noise(false, false), running);
    assert_eq!(bot.play_noise(true, true), running);
}

#[test]
fn noise_that_plays_is_held_or_let_run() {
    let mut bot = Bot::new(steady_config());
    bot.noise = Some(sound(3));
    assert_eq!(bot.play_noise(false, true), NoiseCommand::SetRunning { running: false });
    bot.conf.play_noise = true;
    assert_eq!(bot.play_noise(false, true), NoiseCommand::SetRunning { running: true });
}

#[test]
fn sounds_of_a_loaded_pack_are_played() {
    let mut tree = ClickpackTree::unreadable();
    tree.players[1].0.hardclicks = Some(vec![file("h.wav", 11)]);
    tree.players[1].1.releases = Some(vec![file("r.wav", 12)]);
    let mut bot = Bot::new(steady_config());
    bot.load_clickpack(&tree, "two").unwrap();
    bot.oninit(0);
    let first = bot.on_action(true, false, two_players(), 100).unwrap();
    assert_eq!(first.sound, sound(11));
    assert_eq!(bot.prev_click_type, ClickType::MicroClick);
    assert_eq!(bot.prev_resolved_click_type, ClickType::HardClick);
    let second = bot.on_action(false, true, two_players(), 5_000_000).unwrap();
    assert_eq!(second.sound, sound(12));
    assert_eq!(bot.prev_click_type, ClickType::HardRelease);
    assert_eq!(bot.prev_resolved_click_type, ClickType::Release);
    let _ = Sounds::default();
}
