use createac::audio::{
    adlib_notes_off, default_loop_padding, load_player, music_off, play_click_1, play_click_2,
    play_click_impl, samples_to_us, sound_off, speaker_enable_value, AdlibPlayer, AudioConfig,
    ClickTone, Command, Interface, LoadError, PlaybackState, RegisterWrite,
};

fn write(interface: Interface, address: u8, data: u8) -> RegisterWrite {
    RegisterWrite { interface, address, data }
}

fn active(commands: Vec<Command>) -> AdlibPlayer {
    AdlibPlayer::load(commands, &AudioConfig::new()).unwrap()
}

#[test]
fn conversion_exactness() {
    assert_eq!(samples_to_us(441), 10000);
    assert_eq!(samples_to_us(882), 20000);
    assert_eq!(samples_to_us(735), 16666);
    assert_eq!(samples_to_us(0), 0);
    assert_eq!(samples_to_us(1), 22);
    assert_eq!(samples_to_us(65535), 1486054);
}

#[test]
fn single_dispatch_then_stall() {
    let w = write(Interface::Primary, 0x20, 0x01);
    let mut p = active(vec![Command::Write(w), Command::Wait { samples: 100 }]);
    let mut out = Vec::new();
    assert_eq!(p.poll(0, &mut out), PlaybackState::Playing);
    assert_eq!(out, vec![w]);
    let wait = samples_to_us(100);
    assert_eq!(wait, 2267);
    // the wait was the last command: the position is back at the start
    assert_eq!(p.index(), 0);
    assert_eq!(p.remaining_us(), wait);
    let mut elapsed = 0;
    while elapsed + 1000 < wait {
        assert_eq!(p.poll(1000, &mut out), PlaybackState::Playing);
        elapsed += 1000;
        assert_eq!(out.len(), 1);
    }
    assert_eq!(p.poll(wait - elapsed, &mut out), PlaybackState::Playing);
    assert_eq!(out, vec![w, w]);
}

#[test]
fn loop_wraparound_resumes_last_wait() {
    let a = write(Interface::Primary, 1, 1);
    let b = write(Interface::Secondary, 2, 2);
    let mut p = active(vec![Command::Write(a), Command::Write(b), Command::ShortWait { n: 9 }]);
    let mut out = Vec::new();
    p.poll(0, &mut out);
    assert_eq!(out, vec![a, b]);
    assert_eq!(p.index(), 0);
    assert_eq!(p.remaining_us(), samples_to_us(10));
    // the next call counts down that wait from the top, without dispatching
    p.poll(100, &mut out);
    assert_eq!(out, vec![a, b]);
    assert_eq!(p.index(), 0);
    assert_eq!(p.remaining_us(), samples_to_us(10) - 100);
    p.poll(samples_to_us(10), &mut out);
    assert_eq!(out, vec![a, b, a, b]);
    assert_eq!(p.index(), 0);
}

#[test]
fn wait_in_the_middle_stops_dispatch() {
    let a = write(Interface::Primary, 1, 1);
    let b = write(Interface::Primary, 2, 2);
    let mut p = active(vec![Command::Write(a), Command::Wait735, Command::Write(b), Command::Wait882]);
    let mut out = Vec::new();
    p.poll(5, &mut out);
    assert_eq!(out, vec![a]);
    assert_eq!(p.index(), 2);
    assert_eq!(p.remaining_us(), 16666);
    // a huge delta satisfies the pending wait, then stops at the next one
    p.poll(u32::MAX, &mut out);
    assert_eq!(out, vec![a, b]);
    assert_eq!(p.index(), 0);
    assert_eq!(p.remaining_us(), 20000);
}

#[test]
fn zero_sample_wait_ends_dispatch() {
    let a = write(Interface::Primary, 1, 1);
    let b = write(Interface::Primary, 2, 2);
    let mut p = active(vec![Command::Write(a), Command::Wait { samples: 0 }, Command::Write(b), Command::Wait { samples: 441 }]);
    let mut out = Vec::new();
    p.poll(0, &mut out);
    assert_eq!(out, vec![a]);
    assert_eq!(p.index(), 2);
    assert_eq!(p.remaining_us(), 0);
    // the next call, even with no elapsed time, goes on after the wait
    p.poll(0, &mut out);
    assert_eq!(out, vec![a, b]);
    assert_eq!(p.index(), 0);
    assert_eq!(p.remaining_us(), 10000);
}

#[test]
fn zero_wait_first_writes_nothing() {
    let w = write(Interface::Primary, 7, 7);
    let mut p = active(vec![Command::Wait { samples: 0 }, Command::Write(w)]);
    let mut out = Vec::new();
    p.poll(0, &mut out);
    assert!(out.is_empty());
    assert_eq!(p.index(), 1);
    assert_eq!(p.remaining_us(), 0);
}

#[test]
fn disabled_player_is_silent() {
    let mut config = AudioConfig::new();
    music_off(&mut config);
    assert!(config.sound);
    let mut p = AdlibPlayer::load(vec![Command::Write(write(Interface::Primary, 1, 1))], &config).unwrap();
    assert!(!p.is_active());
    let mut out = Vec::new();
    for delta in [0u32, 1, 15_000, u32::MAX] {
        assert_eq!(p.poll(delta, &mut out), PlaybackState::Stopped);
    }
    assert!(out.is_empty());
    let mut d = AdlibPlayer::disabled();
    assert_eq!(d.poll(18_000, &mut out), PlaybackState::Stopped);
    assert!(out.is_empty());
}

#[test]
fn short_waits_only_take_one_pass_per_call() {
    let mut p = active(vec![Command::ShortWait { n: 0 }; 50]);
    let mut out = Vec::new();
    assert_eq!(p.poll(0, &mut out), PlaybackState::Playing);
    assert_eq!(p.index(), 1);
    assert_eq!(p.remaining_us(), 22);
    for _ in 0..200 {
        assert_eq!(p.poll(1_000_000, &mut out), PlaybackState::Playing);
    }
    assert!(out.is_empty());
    assert_eq!(p.index(), (1 + 200) % 50);
}

#[test]
fn writes_only_stream_takes_one_pass_per_call() {
    let cmds: Vec<Command> = (0..10u8).map(|k| Command::Write(write(Interface::Primary, k, k))).collect();
    let mut p = active(cmds);
    let mut out = Vec::new();
    p.poll(0, &mut out);
    assert_eq!(out.len(), 10);
    assert_eq!(p.index(), 0);
    p.poll(0, &mut out);
    assert_eq!(out.len(), 20);
    assert_eq!(out[10], write(Interface::Primary, 0, 0));
}

#[test]
fn split_deltas_give_the_same_writes() {
    let a = write(Interface::Primary, 0xA0, 0x44);
    let b = write(Interface::Primary, 0xB0, 0x32);
    let c = write(Interface::Secondary, 0xB1, 0x12);
    let cmds = vec![
        Command::Wait { samples: 441 },
        Command::Write(a),
        Command::Write(b),
        Command::Write(c),
        Command::Wait { samples: 882 },
    ];
    // start inside the first wait, with 10000 us to go
    let mut whole = active(cmds.clone());
    let mut split = active(cmds);
    let mut out_whole = Vec::new();
    let mut out_split = Vec::new();
    whole.poll(0, &mut out_whole);
    split.poll(0, &mut out_split);
    assert_eq!(whole.remaining_us(), 10000);
    whole.poll(12000, &mut out_whole);
    for delta in [3000u32, 2500, 4499, 2001] {
        split.poll(delta, &mut out_split);
    }
    assert_eq!(out_whole, vec![a, b, c]);
    assert_eq!(out_split, out_whole);
    assert_eq!(split.index(), whole.index());
    assert_eq!(split.remaining_us(), whole.remaining_us());
}

#[test]
fn empty_stream_is_refused() {
    assert_eq!(AdlibPlayer::load(Vec::new(), &AudioConfig::new()).err(), Some(LoadError::EmptyStream));
    assert_eq!(load_player(Vec::new(), &AudioConfig::new()).err(), Some(LoadError::EmptyStream));
    let mut off = AudioConfig::new();
    music_off(&mut off);
    assert!(!load_player(Vec::new(), &off).unwrap().is_active());
}

#[test]
fn loop_padding_appended() {
    assert_eq!(
        default_loop_padding(),
        vec![Command::Wait735, Command::Wait735, Command::ShortWait { n: 255 }]
    );
    let a = write(Interface::Primary, 1, 1);
    let mut p = load_player(vec![Command::Write(a)], &AudioConfig::new()).unwrap();
    let mut out = Vec::new();
    p.poll(0, &mut out);
    assert_eq!(out, vec![a]);
    assert_eq!(p.index(), 2);
    assert_eq!(p.remaining_us(), 16666);
    p.poll(16666, &mut out);
    assert_eq!(p.index(), 3);
    p.poll(16666, &mut out);
    assert_eq!(p.index(), 0);
    assert_eq!(p.remaining_us(), samples_to_us(256));
    assert_eq!(out, vec![a]);
    p.poll(samples_to_us(256), &mut out);
    assert_eq!(out, vec![a, a]);
}

#[test]
fn pad_loop_on_player() {
    let a = write(Interface::Primary, 1, 1);
    let mut p = active(vec![Command::Write(a)]);
    p.pad_loop(&vec![Command::Wait { samples: 441 }]);
    let mut out = Vec::new();
    p.poll(0, &mut out);
    assert_eq!(out, vec![a]);
    assert_eq!(p.index(), 0);
    assert_eq!(p.remaining_us(), 10000);
}

#[test]
fn notes_off_writes() {
    let w = adlib_notes_off();
    assert_eq!(w.len(), 16);
    for k in 0..8u8 {
        assert_eq!(w[k as usize], write(Interface::Primary, 0xB0 + k, 0));
        assert_eq!(w[8 + k as usize], write(Interface::Primary, 0xC0 + k, 0));
    }
}

#[test]
fn clicks_follow_config() {
    let mut config = AudioConfig::new();
    assert_eq!(play_click_1(&config), Some(ClickTone { countdown: 1800, duration_ms: 2 }));
    assert_eq!(play_click_2(&config), Some(ClickTone { countdown: 1500, duration_ms: 4 }));
    assert_eq!(play_click_impl(&config, 7, 9), Some(ClickTone { countdown: 7, duration_ms: 9 }));
    sound_off(&mut config);
    assert!(config.music);
    assert_eq!(play_click_1(&config), None);
    assert_eq!(play_click_2(&config), None);
}

#[test]
fn speaker_bytes() {
    let t = ClickTone { countdown: 1800, duration_ms: 2 };
    assert_eq!(t.note_bytes(), (0x08, 0x07));
    assert_eq!(speaker_enable_value(0x30), 0x33);
    assert_eq!(speaker_enable_value(0xFE), 0xFF);
}

#[test]
fn runs_with_any_deltas_agree() {
    let cmds: Vec<Command> = (0..6u8)
        .flat_map(|k| [Command::Write(write(Interface::Primary, k, k)), Command::ShortWait { n: k * 40 }])
        .collect();
    let splits: [&[u32]; 4] = [&[1_000_000], &[100, 100, 100, 100], &[0, 5000, 0, 3000, 7000, 1, 2], &[2500; 40]];
    let mut outs = Vec::new();
    for deltas in splits {
        let mut p = active(cmds.clone());
        let mut out = Vec::new();
        for &d in deltas {
            p.poll(d, &mut out);
        }
        outs.push(out);
    }
    for a in &outs {
        for b in &outs {
            let n = a.len().min(b.len());
            assert_eq!(a[..n], b[..n]);
        }
    }
    // a long run goes round the stream in order
    let long = &outs[3];
    assert!(long.len() > 6);
    for (k, w) in long.iter().enumerate() {
        assert_eq!(w.address, (k % 6) as u8);
    }
}

#[test]
fn single_call_writes_come_first() {
    let a = write(Interface::Primary, 1, 1);
    let b = write(Interface::Primary, 2, 2);
    let cmds = vec![Command::Write(a), Command::Wait { samples: 1 }, Command::Write(b), Command::Wait { samples: 100 }];
    let mut one = active(cmds.clone());
    let mut split = active(cmds);
    let mut out_one = Vec::new();
    let mut out_split = Vec::new();
    one.poll(100, &mut out_one);
    split.poll(50, &mut out_split);
    split.poll(50, &mut out_split);
    // the single call stops at the first wait; the split run gets past it
    assert_eq!(out_one, vec![a]);
    assert_eq!(out_split, vec![a, b]);
    assert_eq!(out_split[..out_one.len()], out_one[..]);
}

#[test]
fn quiet_split_changes_only_the_countdown() {
    let a = write(Interface::Primary, 1, 1);
    let mut p = active(vec![Command::Wait { samples: 441 }, Command::Write(a)]);
    let mut out = Vec::new();
    p.poll(0, &mut out);
    assert_eq!((p.index(), p.remaining_us()), (1, 10000));
    for d in [1000u32, 2000, 3000, 3999] {
        assert_eq!(p.poll(d, &mut out), PlaybackState::Playing);
    }
    assert!(out.is_empty());
    assert_eq!((p.index(), p.remaining_us()), (1, 1));
}
