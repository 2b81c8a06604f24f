//! Music playback scheduling and sound effect planning.
//!
//! The scheduler replays a recorded log of sound-chip register writes,
//! paced by the elapsed time that the host loop hands it on each frame.
//! It never touches hardware: each call reports the register writes that
//! are due, in order, and the caller forwards them to the device.

use vstd::prelude::*;

verus! {

/// One of the two register banks of the synthesis chip.
#[derive(Debug, Clone, Copy, PartialEq, Eq, Structural)]
pub enum Interface {
    Primary,
    Secondary,
}

/// A single register write, to be applied to the synthesis chip.
#[derive(Debug, Clone, Copy, PartialEq, Eq, Structural)]
pub struct RegisterWrite {
    pub interface: Interface,
    pub address: u8,
    pub data: u8,
}

/// One unit of the recorded command log.
#[derive(Debug, Clone, Copy, PartialEq, Eq, Structural)]
pub enum Command {
    /// Write one register of the chip.
    Write(RegisterWrite),
    /// Wait for an explicit number of samples.
    Wait { samples: u16 },
    /// Wait for `n + 1` samples.
    ShortWait { n: u8 },
    /// Wait for one 60 Hz frame (735 samples).
    Wait735,
    /// Wait for one 50 Hz frame (882 samples).
    Wait882,
}

/// Whether a player is driving the chip.
#[derive(Debug, Clone, Copy, PartialEq, Eq, Structural)]
pub enum PlaybackState {
    Playing,
    Stopped,
}

/// Why a command stream could not be loaded.
#[derive(Debug, Clone, Copy, PartialEq, Eq, Structural)]
pub enum LoadError {
    /// The stream holds no command.
    EmptyStream,
}

/// Which kinds of audio are switched on.
#[derive(Debug, Clone, Copy, PartialEq, Eq, Structural)]
pub struct AudioConfig {
    /// Sound effects (clicks on the PC speaker).
    pub sound: bool,
    /// Music on the synthesis chip.
    pub music: bool,
}

impl AudioConfig {
    /// Everything switched on.
    pub fn new() -> (r: AudioConfig)
        ensures
            r.sound && r.music,
    {
        AudioConfig { sound: true, music: true }
    }
}

/// Switches sound effects off.
pub fn sound_off(config: &mut AudioConfig)
    ensures
        !final(config).sound,
        final(config).music == old(config).music,
{
    config.sound = false;
}

/// Switches music off.
pub fn music_off(config: &mut AudioConfig)
    ensures
        !final(config).music,
        final(config).sound == old(config).sound,
{
    config.music = false;
}

/// The microseconds that `samples` samples last at 44100 Hz, truncated.
pub open spec fn us_of_samples(samples: nat) -> nat {
    samples * 10000 / 441
}

/// Converts a sample count at the 44100 Hz reference rate to microseconds,
/// truncating.
pub fn samples_to_us(samples: u32) -> (r: u32)
    requires
        samples <= 429496,
    ensures
        r == us_of_samples(samples as nat),
{
    assert(samples * 10000 <= u32::MAX) by (nonlinear_arith)
        requires samples <= 429496;
    (samples * 10000) / 441
}

/// The sample count that a wait command stands for.
pub open spec fn wait_samples(c: Command) -> nat {
    match c {
        Command::Write(_) => 0,
        Command::Wait { samples } => samples as nat,
        Command::ShortWait { n } => n as nat + 1,
        Command::Wait735 => 735,
        Command::Wait882 => 882,
    }
}

/// The countdown, in microseconds, that a command leaves behind when it is
/// dispatched: zero for a register write, the converted wait otherwise.
pub open spec fn countdown_after(c: Command) -> u32 {
    us_of_samples(wait_samples(c)) as u32
}

/// Where dispatch stops, and the countdown it leaves, when it starts at
/// index `i` with `timer` microseconds still to wait. Writes are dispatched
/// one after another; the first wait is dispatched too, sets the countdown
/// and ends dispatch, even when it lasts zero microseconds.
pub open spec fn drain_end(cmds: Seq<Command>, i: int, timer: u32) -> (int, u32)
    decreases cmds.len() - i,
{
    if timer != 0 || i < 0 || i >= cmds.len() {
        (i, timer)
    } else if cmds[i] is Write {
        drain_end(cmds, i + 1, 0)
    } else {
        (i + 1, countdown_after(cmds[i]))
    }
}

/// The register writes that dispatch emits, in order, when it starts at
/// index `i` with `timer` microseconds still to wait.
pub open spec fn drain_writes(cmds: Seq<Command>, i: int, timer: u32) -> Seq<RegisterWrite>
    decreases cmds.len() - i,
{
    if timer != 0 || i < 0 || i >= cmds.len() {
        Seq::empty()
    } else {
        match cmds[i] {
            Command::Write(w) => seq![w] + drain_writes(cmds, i + 1, 0),
            _ => Seq::empty(),
        }
    }
}

/// The countdown that `c` leaves behind when it is dispatched.
fn command_countdown(c: &Command) -> (r: u32)
    ensures
        r == countdown_after(*c),
{
    match c {
        Command::Write(_) => 0,
        Command::Wait { samples } => samples_to_us(*samples as u32),
        Command::ShortWait { n } => samples_to_us(*n as u32 + 1),
        Command::Wait735 => samples_to_us(735),
        Command::Wait882 => samples_to_us(882),
    }
}

/// Dispatch moves forward, never past the end of the stream, and emits at
/// most one write per command it passes.
pub proof fn lemma_drain_bounds(cmds: Seq<Command>, i: int, timer: u32)
    requires
        0 <= i <= cmds.len(),
    ensures
        i <= drain_end(cmds, i, timer).0 <= cmds.len(),
        drain_writes(cmds, i, timer).len() <= drain_end(cmds, i, timer).0 - i,
    decreases cmds.len() - i,
{
    if timer != 0 || i >= cmds.len() {
    } else if cmds[i] is Write {
        lemma_drain_bounds(cmds, i + 1, 0);
    }
}

/// What a player holds, as mathematical values.
pub struct PlayerView {
    /// The command stream, or `None` for a disabled player.
    pub stream: Option<Seq<Command>>,
    /// The position of the next command to dispatch.
    pub index: nat,
    /// Microseconds left before the next command may be dispatched.
    pub timer: u32,
}

/// Plays a command log back, a frame at a time.
pub struct AdlibPlayer {
    commands: Option<Vec<Command>>,
    cmd_index: usize,
    timer: u32,
}

impl View for AdlibPlayer {
    type V = PlayerView;

    closed spec fn view(&self) -> PlayerView {
        PlayerView {
            stream: match self.commands {
                Some(v) => Some(v@),
                None => None,
            },
            index: self.cmd_index as nat,
            timer: self.timer,
        }
    }
}

/// The countdown after `delta` microseconds have passed, saturating at zero.
pub open spec fn timer_after(timer: u32, delta: u32) -> u32 {
    if timer > delta {
        (timer - delta) as u32
    } else {
        0
    }
}

/// The player state that one call of `poll` with `delta` leads to.
pub open spec fn advance_view(p: PlayerView, delta: u32) -> PlayerView {
    match p.stream {
        None => p,
        Some(s) => {
            let end = drain_end(s, p.index as int, timer_after(p.timer, delta));
            PlayerView {
                stream: p.stream,
                index: (if end.0 >= s.len() { end.0 - s.len() } else { end.0 }) as nat,
                timer: end.1,
            }
        },
    }
}

/// The register writes that one call of `poll` with `delta` emits.
pub open spec fn advance_writes(p: PlayerView, delta: u32) -> Seq<RegisterWrite> {
    match p.stream {
        None => Seq::empty(),
        Some(s) => drain_writes(s, p.index as int, timer_after(p.timer, delta)),
    }
}

impl PlayerView {
    /// A disabled player holds nothing; an active one holds a non-empty
    /// stream and a position inside it.
    pub open spec fn wf(self) -> bool {
        match self.stream {
            None => self.index == 0 && self.timer == 0,
            Some(s) => 0 < s.len() && self.index < s.len(),
        }
    }
}

impl AdlibPlayer {
    /// A player that plays nothing: music is switched off.
    pub fn disabled() -> (r: AdlibPlayer)
        ensures
            r@.stream is None,
            r@.wf(),
    {
        AdlibPlayer { commands: None, cmd_index: 0, timer: 0 }
    }

    /// Advances playback by `delta_microseconds`, appending to `writes` every
    /// register write that falls due, in stream order.
    ///
    /// The countdown drops by the delta, saturating at zero. While it is zero
    /// and the end of the stream has not been reached, the next command is
    /// dispatched: a write is emitted and dispatch goes on; a wait sets the
    /// countdown anew and ends dispatch for this call, whatever its length.
    /// Either way the position moves past the command. Past the last command
    /// the position wraps to the start of the stream and the countdown is
    /// kept. A disabled player does nothing.
    pub fn poll(&mut self, delta_microseconds: u32, writes: &mut Vec<RegisterWrite>) -> (r:
        PlaybackState)
        requires
            old(self)@.wf(),
        ensures
            final(self)@ == advance_view(old(self)@, delta_microseconds),
            final(writes)@ == old(writes)@ + advance_writes(old(self)@, delta_microseconds),
            final(self)@.wf(),
            r == (if old(self)@.stream is Some {
                PlaybackState::Playing
            } else {
                PlaybackState::Stopped
            }),
            old(self)@.stream is None ==> final(writes)@ == old(writes)@,
            final(writes)@.len() <= old(writes)@.len() + match old(self)@.stream {
                Some(s) => s.len(),
                None => 0,
            },
    {
        let cmds = match &self.commands {
            None => {
                assert(advance_writes(self@, delta_microseconds) =~= Seq::empty());
                return PlaybackState::Stopped;
            },
            Some(cmds) => cmds,
        };
        let ghost s = cmds@;
        let ghost i0 = self.cmd_index as int;
        let ghost w0 = writes@;
        let len = cmds.len();
        let mut timer: u32 = if self.timer > delta_microseconds {
            self.timer - delta_microseconds
        } else {
            0
        };
        let ghost t0 = timer;
        let mut i: usize = self.cmd_index;
        proof {
            lemma_drain_bounds(s, i0, t0);
        }
        let mut stopped = false;
        while !stopped && timer == 0 && i < len
            invariant
                s == cmds@,
                len == s.len(),
                0 <= i0 <= i <= len,
                !stopped ==> drain_end(s, i as int, timer) == drain_end(s, i0, t0),
                !stopped ==> w0 + drain_writes(s, i0, t0) == writes@ + drain_writes(
                    s,
                    i as int,
                    timer,
                ),
                stopped ==> (i as int, timer) == drain_end(s, i0, t0),
                stopped ==> w0 + drain_writes(s, i0, t0) == writes@,
            decreases len - i,
        {
            let c = cmds[i];
            match c {
                Command::Write(w) => {
                    writes.push(w);
                    assert(seq![w] + drain_writes(s, i + 1, 0) =~= drain_writes(s, i as int, 0));
                    assert(w0 + drain_writes(s, i0, t0) =~= writes@ + drain_writes(s, i + 1, 0));
                },
                _ => {
                    // a wait ends dispatch for this call
                    timer = command_countdown(&c);
                    stopped = true;
                    assert(drain_writes(s, i as int, 0) =~= Seq::empty());
                    assert(w0 + drain_writes(s, i0, t0) =~= writes@);
                },
            }
            i = i + 1;
        }
        if !stopped {
            assert(drain_writes(s, i as int, timer) =~= Seq::empty());
            assert(writes@ =~= w0 + drain_writes(s, i0, t0));
        }
        self.timer = timer;
        self.cmd_index = if i >= len {
            i - len
        } else {
            i
        };
        PlaybackState::Playing
    }

    /// Builds a player for `commands`, starting at the first command with
    /// nothing to wait for. With music switched off in `config` the player
    /// is disabled and the stream is dropped; otherwise an empty stream is
    /// refused.
    pub fn load(commands: Vec<Command>, config: &AudioConfig) -> (r: Result<AdlibPlayer, LoadError>)
        ensures
            !config.music ==> r is Ok && r->Ok_0@.stream is None,
            config.music && commands@.len() == 0 ==> r == Err::<AdlibPlayer, LoadError>(
                LoadError::EmptyStream,
            ),
            config.music && commands@.len() > 0 ==> r is Ok && r->Ok_0@ == (PlayerView {
                stream: Some(commands@),
                index: 0,
                timer: 0,
            }),
            r matches Ok(p) ==> p@.wf(),
    {
        if !config.music {
            return Ok(AdlibPlayer::disabled());
        }
        if commands.len() == 0 {
            return Err(LoadError::EmptyStream);
        }
        Ok(AdlibPlayer { commands: Some(commands), cmd_index: 0, timer: 0 })
    }

    /// Appends `padding` to the end of the stream, so that the loop seam
    /// gets extra silence. A disabled player stays as it is.
    pub fn pad_loop(&mut self, padding: &Vec<Command>)
        requires
            old(self)@.wf(),
        ensures
            final(self)@.wf(),
            final(self)@.index == old(self)@.index,
            final(self)@.timer == old(self)@.timer,
            final(self)@.stream == match old(self)@.stream {
                Some(s) => Some(s + padding@),
                None => None,
            },
    {
        match &mut self.commands {
            Some(cmds) => {
                let mut k: usize = 0;
                let ghost s0 = cmds@;
                while k < padding.len()
                    invariant
                        k <= padding@.len(),
                        cmds@ == s0 + padding@.subrange(0, k as int),
                    decreases padding@.len() - k,
                {
                    cmds.push(padding[k]);
                    assert(s0 + padding@.subrange(0, k + 1) =~= (s0 + padding@.subrange(0, k as int)).push(padding@[k as int]));
                    k = k + 1;
                }
                assert(padding@.subrange(0, padding@.len() as int) =~= padding@);
            },
            None => {},
        }
    }

    /// Whether this player holds a stream.
    pub fn is_active(&self) -> (r: bool)
        ensures
            r == (self@.stream is Some),
    {
        self.commands.is_some()
    }

    /// The position of the next command to dispatch.
    pub fn index(&self) -> (r: usize)
        ensures
            r == self@.index,
    {
        self.cmd_index
    }

    /// Microseconds left before the next command may be dispatched.
    pub fn remaining_us(&self) -> (r: u32)
        ensures
            r == self@.timer,
    {
        self.timer
    }
}

/// The silence appended before the loop point of the game's music: two
/// 60 Hz frames and 256 samples.
pub fn default_loop_padding() -> (r: Vec<Command>)
    ensures
        r@ == seq![Command::Wait735, Command::Wait735, Command::ShortWait { n: 255 }],
{
    let mut v: Vec<Command> = Vec::new();
    v.push(Command::Wait735);
    v.push(Command::Wait735);
    v.push(Command::ShortWait { n: 255 });
    assert(v@ =~= seq![Command::Wait735, Command::Wait735, Command::ShortWait { n: 255 }]);
    v
}

/// Loads the game's music from decoded `commands` and pads its loop seam
/// with [`default_loop_padding`]. With music switched off the player is
/// disabled.
pub fn load_player(commands: Vec<Command>, config: &AudioConfig) -> (r: Result<AdlibPlayer, LoadError>)
    ensures
        !config.music ==> r is Ok && r->Ok_0@.stream is None,
        config.music && commands@.len() == 0 ==> r == Err::<AdlibPlayer, LoadError>(
            LoadError::EmptyStream,
        ),
        config.music && commands@.len() > 0 ==> r is Ok && r->Ok_0@ == (PlayerView {
            stream: Some(
                commands@ + seq![Command::Wait735, Command::Wait735, Command::ShortWait { n: 255 }],
            ),
            index: 0,
            timer: 0,
        }),
        r matches Ok(p) ==> p@.wf(),
{
    match AdlibPlayer::load(commands, config) {
        Ok(mut player) => {
            let padding = default_loop_padding();
            player.pad_loop(&padding);
            Ok(player)
        },
        Err(e) => Err(e),
    }
}

/// The register writes that silence every voice of the chip: key-off for
/// channels 0 to 7 (registers `0xB0` to `0xB7`), then their feedback and
/// connection settings (registers `0xC0` to `0xC7`), each set to zero on the
/// primary interface.
pub fn adlib_notes_off() -> (r: Vec<RegisterWrite>)
    ensures
        r@.len() == 16,
        forall|k: int|
            0 <= k < 8 ==> r@[k] == (RegisterWrite {
                interface: Interface::Primary,
                address: (0xB0 + k) as u8,
                data: 0,
            }),
        forall|k: int|
            8 <= k < 16 ==> r@[k] == (RegisterWrite {
                interface: Interface::Primary,
                address: (0xC0 + k - 8) as u8,
                data: 0,
            }),
{
    let mut r: Vec<RegisterWrite> = Vec::new();
    let mut reg: u8 = 0xB0;
    while reg < 0xB8
        invariant
            0xB0 <= reg <= 0xB8,
            r@.len() == reg - 0xB0,
            forall|k: int|
                0 <= k < r@.len() ==> r@[k] == (RegisterWrite {
                    interface: Interface::Primary,
                    address: (0xB0 + k) as u8,
                    data: 0,
                }),
        decreases 0xB8 - reg,
    {
        r.push(RegisterWrite { interface: Interface::Primary, address: reg, data: 0 });
        reg = reg + 1;
    }
    let mut reg: u8 = 0xC0;
    while reg < 0xC8
        invariant
            0xC0 <= reg <= 0xC8,
            r@.len() == reg - 0xC0 + 8,
            forall|k: int|
                0 <= k < 8 ==> r@[k] == (RegisterWrite {
                    interface: Interface::Primary,
                    address: (0xB0 + k) as u8,
                    data: 0,
                }),
            forall|k: int|
                8 <= k < r@.len() ==> r@[k] == (RegisterWrite {
                    interface: Interface::Primary,
                    address: (0xC0 + k - 8) as u8,
                    data: 0,
                }),
        decreases 0xC8 - reg,
    {
        r.push(RegisterWrite { interface: Interface::Primary, address: reg, data: 0 });
        reg = reg + 1;
    }
    r
}

/// A click on the PC speaker: the timer countdown that sets its pitch,
/// and how long it sounds.
#[derive(Debug, Clone, Copy, PartialEq, Eq, Structural)]
pub struct ClickTone {
    pub countdown: u16,
    pub duration_ms: u32,
}

impl ClickTone {
    /// The two bytes sent to the timer's channel 2 data port, low byte first.
    pub fn note_bytes(&self) -> (r: (u8, u8))
        ensures
            r.0 == self.countdown % 256,
            r.1 == self.countdown / 256,
    {
        let c = self.countdown;
        let lo = (c & 0xff) as u8;
        let hi = (c >> 8) as u8;
        assert(c & 0xff == c % 256 && c >> 8 == c / 256) by (bit_vector);
        (lo, hi)
    }
}

/// The value written back to the speaker control port to switch the speaker
/// on: the value read from it with its two low bits set.
pub fn speaker_enable_value(current: u8) -> (r: u8)
    ensures
        r == current | 3,
        r % 4 == 3,
        r / 4 == current / 4,
{
    assert((current | 3) % 4 == 3 && (current | 3) / 4 == current / 4) by (bit_vector);
    current | 3
}

/// The click to play with the given pitch countdown and duration, or
/// `None` when sound effects are switched off.
pub fn play_click_impl(config: &AudioConfig, countdown: u16, duration_ms: u32) -> (r: Option<ClickTone>)
    ensures
        r == (if config.sound {
            Some(ClickTone { countdown, duration_ms })
        } else {
            None
        }),
{
    if !config.sound {
        return None;
    }
    Some(ClickTone { countdown, duration_ms })
}

/// The very short click (countdown 1800, for 2 ms), if sound is on.
pub open spec fn short_click(config: AudioConfig) -> Option<ClickTone> {
    if config.sound {
        Some(ClickTone { countdown: 1800, duration_ms: 2 })
    } else {
        None
    }
}

/// The longer click (countdown 1500, for 4 ms), if sound is on.
pub open spec fn long_click(config: AudioConfig) -> Option<ClickTone> {
    if config.sound {
        Some(ClickTone { countdown: 1500, duration_ms: 4 })
    } else {
        None
    }
}

/// A very short click: countdown 1800, for 2 ms.
pub fn play_click_1(config: &AudioConfig) -> (r: Option<ClickTone>)
    ensures
        r == short_click(*config),
{
    play_click_impl(config, 1800, 2)
}

/// A click: countdown 1500, for 4 ms.
pub fn play_click_2(config: &AudioConfig) -> (r: Option<ClickTone>)
    ensures
        r == long_click(*config),
{
    play_click_impl(config, 1500, 4)
}

} // verus!
