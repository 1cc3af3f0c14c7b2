use oxdz::player::hmn::{ChannelData, HmnPlayer};
use oxdz::player::options::Options;
use oxdz::player::MixerCmd;
use oxdz::{FormatPlayer, Oxdz};

/// A FEST module: instrument 1 a plain sample (4 words, finetune 16,
/// volume 64), instrument 2 a "Mupp" program in pattern 1 looping over
/// steps 1 to 3; one position of pattern 0 with the given events.
fn hmn_mod(events: &[(usize, usize, [u8; 4])]) -> Vec<u8> {
    let mut b = vec![0u8; 1084 + 2048];
    b[..9].copy_from_slice(b"test song");
    b[20..24].copy_from_slice(b"sine");
    b[43] = 4;
    b[44] = 16;
    b[45] = 64;
    b[49] = 1;
    b[50..57].copy_from_slice(&[b'M', b'u', b'p', b'p', 1, 1, 3]);
    b[75] = 64;
    b[950] = 1;
    b[1080..1084].copy_from_slice(b"FEST");
    let prog = 1084 + 1024;
    b[prog + 0x380..prog + 0x384].copy_from_slice(&[2, 3, 4, 5]);
    b[prog + 0x3c0..prog + 0x3c4].copy_from_slice(&[0x20, 0x10, 0x30, 0x08]);
    for (row, chn, e) in events {
        let o = 1084 + row * 16 + chn * 4;
        b[o..o + 4].copy_from_slice(e);
    }
    b
}

fn ticks(o: &mut Oxdz, n: usize) {
    for _ in 0..n {
        o.play_frame();
    }
}

#[test]
fn hmn_new_replayer_and_channel() {
    let p = HmnPlayer::new(Options::from_str(""));
    assert_eq!((p.l642_speed, p.l695_counter, p.l693_songpos, p.l692_pattpos), (6, 0, 0, 0));
    assert!(!p.l681_break);
    let c = ChannelData::new();
    assert!(!c.n_1c_prog_on);
    assert_eq!(c.n_13_volume, 0);
}

#[test]
fn hmn_starts_with_pans_and_paula() {
    let b = hmn_mod(&[]);
    let o = Oxdz::new(&b, 44100, "hmn").unwrap();
    assert_eq!(o.player_id, "hmn");
    assert_eq!(o.module.format_id, "fest");
    assert!(matches!(o.player, FormatPlayer::Hmn(_)));
    assert_eq!(
        o.commands,
        vec![
            MixerCmd::SetPan(0, -89),
            MixerCmd::SetPan(1, 88),
            MixerCmd::SetPan(2, 88),
            MixerCmd::SetPan(3, -89),
            MixerCmd::EnablePaula(true),
        ]
    );
}

#[test]
fn hmn_plain_instrument_with_finetune() {
    let b = hmn_mod(&[(0, 1, [0x01, 0xac, 0x10, 0x00])]);
    let mut o = Oxdz::new(&b, 44100, "hmn").unwrap();
    ticks(&mut o, 5);
    o.commands.clear();
    o.play_frame();
    assert_eq!((o.data.frame, o.data.row), (0, 1));
    // 428 raised by 16/256 of itself
    assert_eq!(
        o.commands,
        vec![
            MixerCmd::SetPeriod(0, 0),
            MixerCmd::SetSamplePtr(1, 2108),
            MixerCmd::SetLoopStart(1, 0),
            MixerCmd::SetLoopEnd(1, 2),
            MixerCmd::EnableLoop(1, false),
            MixerCmd::SetPeriod(1, 454),
            MixerCmd::SetPeriod(1, 454),
            MixerCmd::SetPeriod(2, 0),
            MixerCmd::SetPeriod(3, 0),
            MixerCmd::SetVolume(0, 0),
            MixerCmd::SetLoopStart(0, 0),
            MixerCmd::SetLoopEnd(0, 0),
            MixerCmd::SetVolume(1, 1024),
            MixerCmd::SetLoopStart(1, 0),
            MixerCmd::SetLoopEnd(1, 2),
            MixerCmd::SetVolume(2, 0),
            MixerCmd::SetLoopStart(2, 0),
            MixerCmd::SetLoopEnd(2, 0),
            MixerCmd::SetVolume(3, 0),
            MixerCmd::SetLoopStart(3, 0),
            MixerCmd::SetLoopEnd(3, 0),
        ]
    );
}

#[test]
fn hmn_mupp_program_steps() {
    let b = hmn_mod(&[(0, 0, [0x01, 0xac, 0x20, 0x00])]);
    let mut o = Oxdz::new(&b, 44100, "hmn").unwrap();
    ticks(&mut o, 5);
    o.commands.clear();
    o.play_frame();
    assert_eq!(
        o.commands[..6].to_vec(),
        vec![
            MixerCmd::SetSamplePtr(0, 2108),
            MixerCmd::SetLoopStart(0, 64),
            MixerCmd::SetLoopEnd(0, 96),
            MixerCmd::EnableLoop(0, true),
            MixerCmd::SetPeriod(0, 428),
            MixerCmd::SetPeriod(0, 428),
        ]
    );
    // the first program step: volume 0x20 of 64, loop at 2 * 32
    assert!(o.commands.contains(&MixerCmd::SetVolume(0, 512)));
    let volumes = [256, 768, 128, 256, 768, 128];
    for v in volumes {
        o.commands.clear();
        o.play_frame();
        assert!(o.commands.contains(&MixerCmd::SetVolume(0, v)));
    }
}

#[test]
fn hmn_mega_arpeggio() {
    // arpeggio 0: 0, 3, 7, 12... from the vibrato position
    let b = hmn_mod(&[(0, 1, [0x01, 0xac, 0x17, 0x00])]);
    let mut o = Oxdz::new(&b, 44100, "hmn").unwrap();
    ticks(&mut o, 6);
    let periods = [0x0168, 0x011d, 0x00d6];
    for p in periods {
        o.commands.clear();
        o.play_frame();
        let ft = ((16 * p) >> 8) + p;
        assert!(o.commands.contains(&MixerCmd::SetPeriod(1, ft)));
    }
}

#[test]
fn hmn_pattern_break_on_the_row() {
    let b = hmn_mod(&[(0, 0, [0x00, 0x00, 0x0d, 0x00])]);
    let mut o = Oxdz::new(&b, 44100, "hmn").unwrap();
    ticks(&mut o, 6);
    // the break moves to the next position at once: past the song's end,
    // the restart position
    assert_eq!((o.data.pos, o.data.row, o.data.frame), (0, 0, 0));
}

#[test]
fn hmn_rows_last_speed_ticks_law() {
    let b = hmn_mod(&[(0, 0, [0x00, 0x00, 0x0f, 0x04])]);
    let mut o = Oxdz::new(&b, 44100, "hmn").unwrap();
    ticks(&mut o, 6);
    assert_eq!((o.data.speed, o.data.row), (4, 1));
    for row in 2..10 {
        for k in 1..4 {
            o.play_frame();
            assert_eq!((o.data.frame, o.data.row), (k, row - 1));
        }
        o.play_frame();
        assert_eq!((o.data.frame, o.data.row), (0, row));
    }
}
