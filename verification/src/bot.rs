//! The engine: what an event of the game does to the state of a session, and the
//! sound that it plays.

use crate::click_type::ClickType;
use crate::clickpack::{Clickpack, ClickpackTree, LoadError};
use crate::config::Config;
use crate::fixed::{abs_diff, spec_abs_diff, UNIT};
use crate::random::gen_range;
use crate::sounds::{resolved_iff_has_sounds, SoundWrapper, Sounds, SoundsView};
use rand::thread_rng;
use vstd::prelude::*;
use vstd::string::StringExecFns;

verus! {

/// What the engine reads of the level that is being played, at the time of an
/// event.
#[derive(Clone, Copy, Debug, PartialEq, Eq, Structural)]
pub struct PlayLayer {
    /// Whether the level is played by two players.
    pub is_two_player: bool,
    pub is_paused: bool,
    /// The game's own clock, in microseconds since the level started.
    pub time: u64,
}

/// Order to the audio sink: play this sound at this pitch and volume, both in
/// millionths.
#[derive(Clone, Copy, Debug, PartialEq, Eq, Structural)]
pub struct PlayCommand {
    pub sound: SoundWrapper,
    pub pitch: i64,
    pub volume: i64,
}

/// Order to the audio sink about the background noise.
#[derive(Clone, Copy, Debug, PartialEq, Eq, Structural)]
pub enum NoiseCommand {
    /// Leave the sink as it is.
    Nothing,
    /// Start the noise as an endless loop at this volume, in millionths; running,
    /// or held until it is let run.
    Start { sound: SoundWrapper, running: bool, volume: u32 },
    /// Let the noise that was started run, or hold it.
    SetRunning { running: bool },
}

/// The engine and the state of its session.
#[derive(Debug)]
pub struct Bot {
    pub conf: Config,
    /// The sounds of the first and of the second player.
    pub players: (Sounds, Sounds),
    /// Background noise of the loaded clickpack.
    pub noise: Option<SoundWrapper>,
    /// Whether a level is being played.
    pub in_level: bool,
    /// Time of the previous event that played a sound.
    pub prev_time: u64,
    /// Whether a clickpack is being loaded.
    pub is_loading_clickpack: bool,
    /// Name of the loaded clickpack, empty if none is loaded.
    pub selected_clickpack: String,
    /// Category of the previous event by its timing.
    pub prev_click_type: ClickType,
    /// Category that the sound of the previous event came from.
    pub prev_resolved_click_type: ClickType,
    pub prev_pitch: i64,
    pub prev_volume: i64,
    pub prev_spam_offset: i64,
    /// Reading of the host's clock when the level was started or restarted.
    pub level_start: u64,
}

impl Bot {
    pub open spec fn spec_has_sounds(&self) -> bool {
        self.players.0@.has_sounds() || self.players.1@.has_sounds()
    }

    /// The sounds that a player's events are served from: the player's own, or
    /// those of the other player if the player has none at all.
    pub open spec fn source(&self, player2: bool) -> SoundsView {
        if player2 {
            if self.players.1@.has_sounds() {
                self.players.1@
            } else {
                self.players.0@
            }
        } else {
            if self.players.0@.has_sounds() {
                self.players.0@
            } else {
                self.players.1@
            }
        }
    }

    /// Whether an event plays a sound: a clickpack is loaded, a level is being
    /// played and is not paused, the event is not one of a second player in a level
    /// for one, and it is not a release at time zero of the level.
    pub open spec fn accepts(&self, push: bool, player2: bool, level: PlayLayer) -> bool {
        &&& self.spec_has_sounds()
        &&& self.in_level
        &&& !(player2 && !level.is_two_player)
        &&& !level.is_paused
        &&& !(!push && level.time == 0)
    }

    /// Time since the level was started, by the host's clock.
    pub open spec fn elapsed(&self, clock: u64) -> u64 {
        if clock >= self.level_start {
            (clock - self.level_start) as u64
        } else {
            0
        }
    }

    /// The time of an event: the game's clock where the settings ask for it and a
    /// level is being played, else the time since the level was started.
    pub open spec fn spec_time(&self, level: PlayLayer, clock: u64) -> u64 {
        if self.conf.use_playlayer_time && self.in_level {
            level.time
        } else {
            self.elapsed(clock)
        }
    }

    /// The state after the sound of `command` has been played for an event at time
    /// `now`, with `spam_offset` taken off its volume.
    pub open spec fn recorded(
        self,
        now: u64,
        click_type: ClickType,
        resolved: ClickType,
        command: PlayCommand,
        spam_offset: i64,
    ) -> Bot {
        Bot {
            prev_time: now,
            prev_click_type: click_type,
            prev_resolved_click_type: resolved,
            prev_pitch: command.pitch,
            prev_volume: command.volume,
            prev_spam_offset: spam_offset,
            ..self
        }
    }

    /// Time between an event and the previous one.
    pub open spec fn dt_of(&self, level: PlayLayer, clock: u64) -> u64 {
        spec_abs_diff(self.spec_time(level, clock), self.prev_time)
    }

    /// The category of an event by its timing.
    pub open spec fn click_type_of(&self, push: bool, level: PlayLayer, clock: u64) -> ClickType {
        ClickType::spec_from_time(push, self.dt_of(level, clock), self.conf.timings)
    }

    /// The category that the sound of an event comes from.
    pub open spec fn resolved_of(
        &self,
        push: bool,
        player2: bool,
        level: PlayLayer,
        clock: u64,
    ) -> Option<ClickType> {
        self.source(player2).resolved(self.click_type_of(push, level, clock))
    }

    /// The volume that ducking takes off the sound of an event.
    pub open spec fn spam_offset_of(
        &self,
        push: bool,
        player2: bool,
        level: PlayLayer,
        clock: u64,
    ) -> int {
        self.conf.volume_settings.spec_spam_offset(
            self.dt_of(level, clock),
            self.resolved_of(push, player2, level, clock)->0,
        )
    }

    /// The volume of the sound of an event where the random deviation is `jitter`.
    pub open spec fn volume_of(
        &self,
        push: bool,
        player2: bool,
        level: PlayLayer,
        clock: u64,
        jitter: int,
    ) -> int {
        self.conf.volume_settings.spec_volume(
            self.dt_of(level, clock),
            self.resolved_of(push, player2, level, clock)->0,
            jitter,
        )
    }

    /// What is to be done about the background noise, see [`Self::play_noise`].
    pub open spec fn spec_play_noise(&self, new_mixer: bool, started: bool) -> NoiseCommand {
        match self.noise {
            None => NoiseCommand::Nothing,
            Some(sound) => if new_mixer || !started {
                NoiseCommand::Start {
                    sound,
                    running: self.conf.play_noise,
                    volume: self.conf.noise_volume,
                }
            } else {
                NoiseCommand::SetRunning { running: self.conf.play_noise }
            },
        }
    }

    /// Whether `self` differs from `before` in nothing but the clickpack: the
    /// sounds, the noise and the name.
    pub open spec fn same_but_clickpack(&self, before: &Bot) -> bool {
        &&& self.conf == before.conf
        &&& self.in_level == before.in_level
        &&& self.prev_time == before.prev_time
        &&& self.is_loading_clickpack == before.is_loading_clickpack
        &&& self.prev_click_type == before.prev_click_type
        &&& self.prev_resolved_click_type == before.prev_resolved_click_type
        &&& self.prev_pitch == before.prev_pitch
        &&& self.prev_volume == before.prev_volume
        &&& self.prev_spam_offset == before.prev_spam_offset
        &&& self.level_start == before.level_start
    }

    /// An engine with the given settings, without a clickpack and outside any level.
    pub fn new(conf: Config) -> (bot: Bot)
        ensures
            bot.conf == conf,
            !bot.spec_has_sounds(),
            bot.players.0@ == SoundsView::empty(),
            bot.players.1@ == SoundsView::empty(),
            bot.noise is None,
            !bot.in_level,
            !bot.is_loading_clickpack,
            bot.selected_clickpack@.len() == 0,
            bot.prev_time == 0,
            bot.level_start == 0,
            bot.prev_click_type == ClickType::NoClick,
            bot.prev_resolved_click_type == ClickType::NoClick,
            bot.prev_pitch == 0,
            bot.prev_volume == 0,
            bot.prev_spam_offset == 0,
    {
        Bot {
            conf,
            players: (Sounds::default(), Sounds::default()),
            noise: None,
            in_level: false,
            prev_time: 0,
            is_loading_clickpack: false,
            selected_clickpack: String::new(),
            prev_click_type: ClickType::NoClick,
            prev_resolved_click_type: ClickType::NoClick,
            prev_pitch: 0,
            prev_volume: 0,
            prev_spam_offset: 0,
            level_start: 0,
        }
    }

    /// Whether either player has a sound.
    pub fn has_sounds(&self) -> (r: bool)
        ensures
            r == self.spec_has_sounds(),
    {
        self.players.0.has_sounds() || self.players.1.has_sounds()
    }

    /// Number of sounds of the first and of the second player.
    pub fn num_sounds(&self) -> (n: (usize, usize))
        requires
            self.players.0@.num_sounds() <= usize::MAX,
            self.players.1@.num_sounds() <= usize::MAX,
        ensures
            n.0 == self.players.0@.num_sounds(),
            n.1 == self.players.1@.num_sounds(),
    {
        (self.players.0.num_sounds(), self.players.1.num_sounds())
    }

    /// Drops the loaded clickpack.
    pub fn unload_clickpack(&mut self)
        ensures
            final(self).players.0@ == SoundsView::empty(),
            final(self).players.1@ == SoundsView::empty(),
            final(self).noise is None,
            final(self).selected_clickpack@.len() == 0,
            !final(self).spec_has_sounds(),
            final(self).same_but_clickpack(old(self)),
    {
        self.players = (Sounds::default(), Sounds::default());
        self.noise = None;
        self.selected_clickpack = String::new();
    }

    /// Loads the clickpack that the host read into `tree` and calls it `name`. If
    /// the clickpack has no sound for either player the load fails and the engine
    /// keeps what it had.
    pub fn load_clickpack(&mut self, tree: &ClickpackTree, name: &str) -> (loaded: Result<
        (),
        LoadError,
    >)
        ensures
            loaded is Ok <==> tree.loaded().has_sounds(),
            loaded matches Err(error) ==> error == LoadError::NoSounds && *final(self) == *old(
                self,
            ),
            loaded is Ok ==> {
                &&& final(self).players.0@ == tree.loaded().player1
                &&& final(self).players.1@ == tree.loaded().player2
                &&& final(self).noise == tree.loaded().noise
                &&& final(self).selected_clickpack@ == name@
                &&& final(self).spec_has_sounds()
                &&& final(self).same_but_clickpack(old(self))
            },
    {
        match Clickpack::load(tree) {
            Ok(pack) => {
                self.players = (pack.player1, pack.player2);
                self.noise = pack.noise;
                self.selected_clickpack = String::from_str(name);
                Ok(())
            },
            Err(error) => Err(error),
        }
    }

    /// Marks that a clickpack is being loaded. Refused, with `false`, while another
    /// load is under way.
    pub fn start_loading(&mut self) -> (started: bool)
        ensures
            started == !old(self).is_loading_clickpack,
            final(self).is_loading_clickpack,
            *final(self) == (Bot { is_loading_clickpack: true, ..*old(self) }),
    {
        if self.is_loading_clickpack {
            false
        } else {
            self.is_loading_clickpack = true;
            true
        }
    }

    /// Ends a load that `start_loading` began: takes the clickpack over as
    /// `load_clickpack` does and clears the mark, also where the load fails.
    pub fn finish_loading(&mut self, tree: &ClickpackTree, name: &str) -> (loaded: Result<
        (),
        LoadError,
    >)
        ensures
            !final(self).is_loading_clickpack,
            loaded is Ok <==> tree.loaded().has_sounds(),
            loaded matches Err(error) ==> error == LoadError::NoSounds && *final(self) == (Bot {
                is_loading_clickpack: false,
                ..*old(self)
            }),
            loaded is Ok ==> {
                &&& final(self).players.0@ == tree.loaded().player1
                &&& final(self).players.1@ == tree.loaded().player2
                &&& final(self).noise == tree.loaded().noise
                &&& final(self).selected_clickpack@ == name@
                &&& final(self).same_but_clickpack(
                    &(Bot { is_loading_clickpack: false, ..*old(self) }),
                )
            },
    {
        let loaded = self.load_clickpack(tree, name);
        self.is_loading_clickpack = false;
        loaded
    }

    /// A level has been entered: forgets the previous event and takes `clock`, the
    /// host's clock, as the start of the level.
    pub fn oninit(&mut self, clock: u64)
        ensures
            *final(self) == (Bot {
                in_level: true,
                prev_time: 0,
                prev_click_type: ClickType::NoClick,
                prev_resolved_click_type: ClickType::NoClick,
                prev_pitch: 0,
                prev_volume: old(self).conf.volume_settings.global_volume as i64,
                prev_spam_offset: 0,
                level_start: clock,
                ..*old(self)
            }),
    {
        self.in_level = true;
        self.prev_time = 0;
        self.prev_click_type = ClickType::NoClick;
        self.prev_resolved_click_type = ClickType::NoClick;
        self.prev_pitch = 0;
        self.prev_volume = self.conf.volume_settings.global_volume as i64;
        self.prev_spam_offset = 0;
        self.level_start = clock;
    }

    /// The level has been restarted: takes `clock` as its new start and keeps the
    /// previous event.
    pub fn onreset(&mut self, clock: u64)
        ensures
            *final(self) == (Bot { level_start: clock, ..*old(self) }),
    {
        self.level_start = clock;
    }

    /// The level has been left.
    pub fn onquit(&mut self)
        ensures
            *final(self) == (Bot { in_level: false, ..*old(self) }),
    {
        self.in_level = false;
    }

    /// The time of an event, see [`Self::spec_time`].
    pub fn time(&self, level: &PlayLayer, clock: u64) -> (now: u64)
        ensures
            now == self.spec_time(*level, clock),
    {
        if self.conf.use_playlayer_time && self.in_level {
            level.time
        } else if clock >= self.level_start {
            clock - self.level_start
        } else {
            0
        }
    }

    /// What is to be done about the background noise after the settings, the
    /// clickpack or the sink have changed. Without a noise in the clickpack, nothing.
    /// If the sink is new (`new_mixer`) or the noise has not been `started` on it,
    /// the noise is started, running if the settings say so and held otherwise.
    /// Else the noise that plays is let run or held as the settings say.
    pub fn play_noise(&self, new_mixer: bool, started: bool) -> (command: NoiseCommand)
        ensures
            command == self.spec_play_noise(new_mixer, started),
    {
        match self.noise {
            None => NoiseCommand::Nothing,
            Some(sound) => {
                if new_mixer || !started {
                    NoiseCommand::Start {
                        sound,
                        running: self.conf.play_noise,
                        volume: self.conf.noise_volume,
                    }
                } else {
                    NoiseCommand::SetRunning { running: self.conf.play_noise }
                }
            },
        }
    }

    /// A sound for an event of category `typ`, with the category that it comes
    /// from: drawn from the sounds of the player, or from those of the other player
    /// if the player has none at all.
    pub fn get_random_click(&self, typ: ClickType, player2: bool) -> (click: (
        SoundWrapper,
        ClickType,
    ))
        requires
            typ != ClickType::NoClick,
            self.spec_has_sounds(),
        ensures
            self.source(player2).resolved(typ) == Some(click.1),
            self.source(player2).category(click.1).contains(click.0),
    {
        proof {
            resolved_iff_has_sounds(self.players.0@, typ);
            resolved_iff_has_sounds(self.players.1@, typ);
        }
        let (own, other) = if player2 {
            (&self.players.1, &self.players.0)
        } else {
            (&self.players.0, &self.players.1)
        };
        match own.random_sound(typ) {
            Some(click) => click,
            None => other.random_sound(typ).unwrap(),
        }
    }

    /// The pitch of the next sound: drawn from the pitch range, or one whole where
    /// the pitch is not varied.
    pub fn get_pitch(&self) -> (pitch: i64)
        requires
            self.conf.valid(),
        ensures
            self.conf.pitch_enabled ==> self.conf.pitch.from <= pitch <= self.conf.pitch.to,
            !self.conf.pitch_enabled ==> pitch == UNIT,
    {
        if self.conf.pitch_enabled {
            let mut rng = thread_rng();
            gen_range(&mut rng, self.conf.pitch.from, self.conf.pitch.to)
        } else {
            UNIT
        }
    }

    /// The random deviation of the volume of the next sound: within the variation
    /// of the settings in either direction.
    pub fn get_volume_jitter(&self) -> (jitter: i64)
        ensures
            -self.conf.volume_settings.volume_var <= jitter <= self.conf.volume_settings.volume_var,
    {
        let var: i64 = self.conf.volume_settings.volume_var as i64;
        if var != 0 {
            let mut rng = thread_rng();
            gen_range(&mut rng, -var, var)
        } else {
            0
        }
    }

    /// Plays `sound` of category `resolved` for an event at time `now` whose
    /// category by timing is `click_type`: computes the volume for the random
    /// deviation `jitter`, records the event and gives the order for the audio sink.
    pub fn play_click(
        &mut self,
        now: u64,
        click_type: ClickType,
        sound: SoundWrapper,
        resolved: ClickType,
        pitch: i64,
        jitter: i64,
    ) -> (command: PlayCommand)
        requires
            -old(self).conf.volume_settings.volume_var <= jitter <= old(
                self,
            ).conf.volume_settings.volume_var,
        ensures
            command.sound == sound,
            command.pitch == pitch,
            command.volume == old(self).conf.volume_settings.spec_volume(
                spec_abs_diff(now, old(self).prev_time),
                resolved,
                jitter as int,
            ),
            final(self).prev_spam_offset == old(self).conf.volume_settings.spec_spam_offset(
                spec_abs_diff(now, old(self).prev_time),
                resolved,
            ),
            *final(self) == old(self).recorded(
                now,
                click_type,
                resolved,
                command,
                final(self).prev_spam_offset,
            ),
    {
        let dt = abs_diff(now, self.prev_time);
        let volume = self.conf.volume_settings.volume(dt, resolved, jitter);
        self.prev_spam_offset = self.conf.volume_settings.spam_offset(dt, resolved);
        self.prev_volume = volume;
        self.prev_time = now;
        self.prev_click_type = click_type;
        self.prev_resolved_click_type = resolved;
        self.prev_pitch = pitch;
        PlayCommand { sound, pitch, volume }
    }

    /// An event of the game: `push` for a press, else a release, of the second
    /// player if `player2`, with the level as it is now and the host's clock.
    ///
    /// Nothing happens, and nothing is played, unless [`Self::accepts`] holds.
    /// Otherwise the event is classified by the time since the previous one, a sound
    /// is drawn from the category that this resolves to, pitch and volume are drawn
    /// and computed, and the event is recorded. The sound, the pitch and the
    /// deviation of the volume are drawn at random: the contract states the category
    /// and the ranges that they come from, and everything else exactly.
    pub fn on_action(&mut self, push: bool, player2: bool, level: PlayLayer, clock: u64) -> (played:
        Option<PlayCommand>)
        requires
            old(self).conf.valid(),
        ensures
            played is Some <==> old(self).accepts(push, player2, level),
            played is None ==> *final(self) == *old(self),
            !old(self).in_level ==> played is None,
            player2 && !level.is_two_player ==> played is None,
            played matches Some(command) ==> {
                let resolved = old(self).resolved_of(push, player2, level, clock);
                &&& resolved is Some
                &&& old(self).source(player2).category(resolved->0).contains(command.sound)
                &&& old(self).conf.pitch_enabled ==> old(self).conf.pitch.from <= command.pitch
                    <= old(self).conf.pitch.to
                &&& !old(self).conf.pitch_enabled ==> command.pitch == UNIT
                &&& final(self).prev_spam_offset == old(self).spam_offset_of(
                    push,
                    player2,
                    level,
                    clock,
                )
                &&& *final(self) == old(self).recorded(
                    old(self).spec_time(level, clock),
                    old(self).click_type_of(push, level, clock),
                    resolved->0,
                    command,
                    final(self).prev_spam_offset,
                )
            },
            played matches Some(command) ==> exists|jitter: int|
                -old(self).conf.volume_settings.volume_var <= jitter <= old(
                    self,
                ).conf.volume_settings.volume_var && command.volume == #[trigger] old(
                    self,
                ).volume_of(push, player2, level, clock, jitter),
    {
        if !self.has_sounds() || !self.in_level {
            return None;
        }
        if (!level.is_two_player && player2) || level.is_paused || (!push && level.time == 0) {
            return None;
        }
        let now = self.time(&level, clock);
        let dt = abs_diff(now, self.prev_time);
        let click_type = ClickType::from_time(push, dt, &self.conf.timings);
        let (sound, resolved) = self.get_random_click(click_type, player2);
        let pitch = self.get_pitch();
        let jitter = self.get_volume_jitter();
        let command = self.play_click(now, click_type, sound, resolved, pitch, jitter);
        proof {
            let vol = old(self).conf.volume_settings;
            assert(old(self).resolved_of(push, player2, level, clock) == Some(resolved));
            assert(-vol.volume_var <= jitter as int <= vol.volume_var);
            assert(command.volume == old(self).volume_of(
                push,
                player2,
                level,
                clock,
                jitter as int,
            ));
        }
        Some(command)
    }
}

impl Default for Bot {
    fn default() -> (bot: Bot)
        ensures
            bot.conf.is_default(),
            bot.conf.valid(),
            bot.players.0@ == SoundsView::empty(),
            bot.players.1@ == SoundsView::empty(),
            !bot.spec_has_sounds(),
            bot.noise is None,
            !bot.in_level,
            !bot.is_loading_clickpack,
            bot.selected_clickpack@.len() == 0,
            bot.prev_time == 0,
            bot.level_start == 0,
            bot.prev_click_type == ClickType::NoClick,
            bot.prev_resolved_click_type == ClickType::NoClick,
            bot.prev_pitch == 0,
            bot.prev_volume == 0,
            bot.prev_spam_offset == 0,
    {
        Bot::new(Config::default())
    }
}

} // verus!
