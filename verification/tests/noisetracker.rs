use oxdz::player::noisetracker::{ChannelData, ModPlayer};
use oxdz::player::options::Options;
use oxdz::player::{FrameInfo, MixerCmd};
use oxdz::{FormatPlayer, Oxdz};

/// A one-pattern module with instrument 1 (4 words, volume 64, no loop)
/// and the given events (row, channel, bytes).
fn nt_mod(events: &[(usize, usize, [u8; 4])]) -> Vec<u8> {
    let mut b = vec![0u8; 1084 + 1024 + 8];
    b[..9].copy_from_slice(b"test song");
    b[20..24].copy_from_slice(b"sine");
    b[43] = 4;
    b[45] = 64;
    b[49] = 1;
    b[950] = 1;
    b[1080..1084].copy_from_slice(b"M.K.");
    for (row, chn, e) in events {
        let o = 1084 + row * 16 + chn * 4;
        b[o..o + 4].copy_from_slice(e);
    }
    b
}

fn ticks(o: &mut Oxdz, n: usize) {
    for _ in 0..n {
        o.play_frame();
    }
}

#[test]
fn nt_new_replayer_and_channel() {
    let p = ModPlayer::new(Options::from_str(""));
    assert_eq!(p.mt_speed, 6);
    assert_eq!((p.mt_songpos, p.mt_pattpos, p.mt_counter, p.mt_break), (0, 0, 0, false));
    let c = ChannelData::new();
    assert_eq!(c.n_10_period, 0);
    assert_eq!(c.n_12_volume, 0);
}

#[test]
fn nt_starts_with_pans() {
    let b = nt_mod(&[]);
    let o = Oxdz::new(&b, 44100, "nt11").unwrap();
    assert!(matches!(o.player, FormatPlayer::Nt(_)));
    assert_eq!(
        o.commands,
        vec![
            MixerCmd::SetPan(0, -89),
            MixerCmd::SetPan(1, 88),
            MixerCmd::SetPan(2, 88),
            MixerCmd::SetPan(3, -89),
        ]
    );
    assert_eq!((o.data.speed, o.data.tempo), (6, 125));
}

#[test]
fn nt_first_row_on_the_sixth_tick() {
    let b = nt_mod(&[(0, 0, [0x01, 0xac, 0x10, 0x00])]);
    let mut o = Oxdz::new(&b, 44100, "nt11").unwrap();
    o.commands.clear();
    let mut fi = FrameInfo::new();
    for k in 1..6 {
        o.play_frame();
        o.frame_info(&mut fi);
        assert_eq!((fi.frame, fi.row, fi.pos), (k, 0, 0));
    }
    // silent channels play nothing before the first row
    assert!(o.commands.is_empty());
    o.play_frame();
    o.frame_info(&mut fi);
    assert_eq!((fi.frame, fi.row, fi.pos, fi.speed, fi.tempo), (0, 1, 0, 6, 125));
    assert_eq!(
        o.commands,
        vec![
            MixerCmd::EnableLoop(0, false),
            MixerCmd::SetVolume(0, 1024),
            MixerCmd::SetPatch(0, 0, 0),
            MixerCmd::SetLoopStart(0, 0),
            MixerCmd::SetLoopEnd(0, 2),
            MixerCmd::SetVoicePos(0, 0),
            MixerCmd::SetPeriod(0, 428),
        ]
    );
}

#[test]
fn nt_portamento_up_and_volume_slide() {
    let b = nt_mod(&[
        (0, 1, [0x01, 0xac, 0x11, 0x04]),
        (0, 2, [0x01, 0xac, 0x1a, 0x02]),
    ]);
    let mut o = Oxdz::new(&b, 44100, "nt11").unwrap();
    ticks(&mut o, 6);
    o.commands.clear();
    o.play_frame();
    assert!(o.commands.contains(&MixerCmd::SetPeriod(1, 424)));
    assert!(o.commands.contains(&MixerCmd::SetPeriod(2, 428)));
    assert!(o.commands.contains(&MixerCmd::SetVolume(2, 62 * 16)));
    o.commands.clear();
    o.play_frame();
    assert!(o.commands.contains(&MixerCmd::SetPeriod(1, 420)));
    assert!(o.commands.contains(&MixerCmd::SetVolume(2, 60 * 16)));
}

#[test]
fn nt_volume_above_64_plays_64() {
    let b = nt_mod(&[(0, 3, [0x00, 0x00, 0x0c, 0x50]), (0, 2, [0x00, 0x00, 0x0c, 0x20])]);
    let mut o = Oxdz::new(&b, 44100, "nt11").unwrap();
    ticks(&mut o, 5);
    o.commands.clear();
    o.play_frame();
    assert_eq!(o.commands, vec![MixerCmd::SetVolume(2, 0x20 * 16), MixerCmd::SetVolume(3, 64 * 16)]);
}

#[test]
fn nt_speed_command() {
    let b = nt_mod(&[(0, 0, [0x00, 0x00, 0x0f, 0x03])]);
    let mut o = Oxdz::new(&b, 44100, "nt11").unwrap();
    ticks(&mut o, 6);
    assert_eq!((o.data.speed, o.data.row, o.data.frame), (3, 1, 0));
    ticks(&mut o, 2);
    assert_eq!((o.data.row, o.data.frame), (1, 2));
    ticks(&mut o, 1);
    assert_eq!((o.data.row, o.data.frame), (2, 0));
}

#[test]
fn nt_speed_above_31_is_31() {
    let b = nt_mod(&[(0, 0, [0x00, 0x00, 0x0f, 0x40])]);
    let mut o = Oxdz::new(&b, 44100, "nt11").unwrap();
    ticks(&mut o, 6);
    assert_eq!(o.data.speed, 31);
}

#[test]
fn nt_pattern_break_moves_on_the_next_tick() {
    let b = nt_mod(&[(0, 0, [0x00, 0x00, 0x0d, 0x00])]);
    let mut o = Oxdz::new(&b, 44100, "nt11").unwrap();
    ticks(&mut o, 6);
    assert_eq!((o.data.pos, o.data.row), (0, 1));
    o.play_frame();
    // past the single position of the song: the restart position 0
    assert_eq!((o.data.pos, o.data.row, o.data.frame), (0, 0, 1));
}

#[test]
fn nt_arpeggio_steps_through_the_period_table() {
    // 428 is the table's C-2; 0x47 steps four and seven semitones above it
    let b = nt_mod(&[(0, 0, [0x01, 0xac, 0x10, 0x47])]);
    let mut o = Oxdz::new(&b, 44100, "nt11").unwrap();
    ticks(&mut o, 6);
    let mut periods = Vec::new();
    for _ in 0..3 {
        o.commands.clear();
        o.play_frame();
        periods.push(o.commands.clone());
    }
    assert_eq!(periods, vec![
        vec![MixerCmd::SetPeriod(0, 339)],
        vec![MixerCmd::SetPeriod(0, 285)],
        vec![MixerCmd::SetPeriod(0, 428)],
    ]);
}

#[test]
fn nt_rows_last_speed_ticks_law() {
    let b = nt_mod(&[(0, 0, [0x01, 0xac, 0x10, 0x00])]);
    let mut o = Oxdz::new(&b, 44100, "nt11").unwrap();
    for row in 1..64 {
        for k in 1..6 {
            o.play_frame();
            assert_eq!((o.data.frame, o.data.row), (k, row - 1));
        }
        o.play_frame();
        assert_eq!((o.data.frame, o.data.row), (0, row));
    }
}

#[test]
fn nt_mute_commands() {
    let b = nt_mod(&[]);
    let mut o = Oxdz::new(&b, 44100, "nt11").unwrap();
    o.commands.clear();
    o.set_mute(2, true).set_mute_all(false);
    assert_eq!(o.commands, vec![MixerCmd::SetMute(2, true), MixerCmd::SetMuteAll(false)]);
}
