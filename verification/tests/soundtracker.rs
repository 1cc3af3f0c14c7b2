use oxdz::player::options::Options;
use oxdz::player::soundtracker::{AudTemp, StPlayer};
use oxdz::player::MixerCmd;
use oxdz::{FormatPlayer, Oxdz};

/// A 15-instrument module: instrument 1 a sample of 4 words at volume 64;
/// one position of pattern 0 with the given events; tempo 120.
fn st_mod(events: &[(usize, usize, [u8; 4])]) -> Vec<u8> {
    let mut b = vec![0u8; 600 + 1024 + 8];
    b[..4].copy_from_slice(b"song");
    b[20..24].copy_from_slice(b"beep");
    b[43] = 4;
    b[45] = 64;
    b[49] = 1;
    b[470] = 1;
    b[471] = 0x78;
    for (row, chn, e) in events {
        let o = 600 + row * 16 + chn * 4;
        b[o..o + 4].copy_from_slice(e);
    }
    b
}

fn ticks(o: &mut Oxdz, n: usize) {
    for _ in 0..n {
        o.play_frame();
    }
}

#[test]
fn dst2_new_replayer_and_channel() {
    let c = AudTemp::new();
    assert_eq!((c.n_0_note, c.n_22_last_note), (0, 0));
    let b = st_mod(&[]);
    let o = Oxdz::new(&b, 44100, "dst2").unwrap();
    assert!(matches!(o.player, FormatPlayer::DocSt2(_)));
    match &o.module.data {
        oxdz::module::ModuleData::St(d) => {
            let p = StPlayer::new(d, Options::from_str(""));
            assert_eq!((p.mt_speed, p.mt_counter, p.mt_partnote, p.mt_partnrplay, p.mt_maxpart), (6, 0, 0, 0, 1));
        }
        _ => panic!("not a 15-instrument module"),
    }
    assert_eq!((o.data.speed, o.data.tempo), (6, 120));
}

#[test]
fn dst2_row_on_the_sixth_tick() {
    let b = st_mod(&[(0, 0, [0x01, 0xac, 0x10, 0x00])]);
    let mut o = Oxdz::new(&b, 44100, "dst2").unwrap();
    o.commands.clear();
    for k in 1..6 {
        o.play_frame();
        assert_eq!((o.data.frame, o.data.row), (k, 0));
    }
    assert!(o.commands.is_empty());
    o.play_frame();
    assert_eq!((o.data.frame, o.data.row, o.data.pos), (0, 1, 0));
    assert_eq!(
        o.commands,
        vec![
            MixerCmd::SetVolume(0, 1024),
            MixerCmd::EnableLoop(0, false),
            MixerCmd::SetLoopStart(0, 0),
            MixerCmd::SetLoopEnd(0, 1626),
            MixerCmd::SetSamplePtr(0, 1624),
            MixerCmd::SetPeriod(0, 428),
            MixerCmd::SetSamplePtr(0, 0),
            MixerCmd::SetPeriod(0, 428),
        ]
    );
}

#[test]
fn dst2_portamento_up_from_the_row_tick() {
    let b = st_mod(&[(0, 1, [0x01, 0xac, 0x11, 0x04])]);
    let mut o = Oxdz::new(&b, 44100, "dst2").unwrap();
    ticks(&mut o, 6);
    assert_eq!(o.commands.last(), Some(&MixerCmd::SetPeriod(1, 424)));
    o.commands.clear();
    o.play_frame();
    assert_eq!(o.commands, vec![MixerCmd::SetPeriod(1, 420)]);
}

#[test]
fn dst2_speed_and_break() {
    let b = st_mod(&[(0, 0, [0x00, 0x00, 0x0f, 0x03]), (1, 1, [0x00, 0x00, 0x0d, 0x00])]);
    let mut o = Oxdz::new(&b, 44100, "dst2").unwrap();
    ticks(&mut o, 6);
    assert_eq!((o.data.speed, o.data.row, o.data.frame), (3, 1, 0));
    ticks(&mut o, 2);
    assert_eq!((o.data.row, o.data.frame), (1, 2));
    o.play_frame();
    // the break of row 1 moves to the first position again
    assert_eq!((o.data.row, o.data.pos, o.data.frame), (0, 0, 0));
}

#[test]
fn dst2_speed_takes_the_low_nibble() {
    let b = st_mod(&[(0, 0, [0x00, 0x00, 0x0f, 0x13])]);
    let mut o = Oxdz::new(&b, 44100, "dst2").unwrap();
    ticks(&mut o, 6);
    assert_eq!((o.data.speed, o.data.row, o.data.frame), (3, 1, 0));
}

#[test]
fn dst2_rows_last_speed_ticks_law() {
    let b = st_mod(&[]);
    let mut o = Oxdz::new(&b, 44100, "dst2").unwrap();
    for row in 1..64 {
        for k in 1..6 {
            o.play_frame();
            assert_eq!((o.data.frame, o.data.row, o.data.speed), (k, row - 1, 6));
        }
        o.play_frame();
        assert_eq!((o.data.frame, o.data.row), (0, row));
    }
}
