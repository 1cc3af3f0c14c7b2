use oxdz::player::options::Options;
use oxdz::player::ust::{DataChnx, USTPlayer};
use oxdz::player::MixerCmd;
use oxdz::{FormatPlayer, Oxdz};

/// A 15-instrument module: instrument 1 a sample of 4 words at volume 64;
/// one position of pattern 0 with the given events; tempo 120.
fn ust_mod(events: &[(usize, usize, [u8; 4])]) -> Vec<u8> {
    let mut b = vec![0u8; 600 + 1024 + 8];
    b[..4].copy_from_slice(b"song");
    b[20..24].copy_from_slice(b"beep");
    b[43] = 4;
    b[45] = 64;
    b[49] = 1;
    b[470] = 1;
    b[471] = 0x78;
    for (row, chn, e) in events {
        let o = 600 + row * 16 + chn * 4;
        b[o..o + 4].copy_from_slice(e);
    }
    b
}

fn ticks(o: &mut Oxdz, n: usize) {
    for _ in 0..n {
        o.play_frame();
    }
}

#[test]
fn ust_new_replayer_and_channel() {
    let c = DataChnx::new();
    assert_eq!((c.n_0_note, c.n_18_volume), (0, 0));
    let b = ust_mod(&[]);
    let o = Oxdz::new(&b, 44100, "ust").unwrap();
    match &o.module.data {
        oxdz::module::ModuleData::St(d) => {
            let p = USTPlayer::new(d, Options::from_str(""));
            assert_eq!((p.trkpos, p.patpos, p.timpos, p.numpat), (0, 0, 0, 1));
        }
        _ => panic!("not a 15-instrument module"),
    }
}

#[test]
fn ust_starts_with_module_tempo() {
    let b = ust_mod(&[]);
    let o = Oxdz::new(&b, 44100, "ust").unwrap();
    assert!(matches!(o.player, FormatPlayer::Ust(_)));
    assert_eq!((o.data.speed, o.data.tempo), (6, 120));
    assert_eq!((o.data.initial_speed, o.data.initial_tempo), (6, 120));
    assert_eq!(
        o.commands,
        vec![
            MixerCmd::SetPan(0, -89),
            MixerCmd::SetPan(1, 88),
            MixerCmd::SetPan(2, 88),
            MixerCmd::SetPan(3, -89),
            MixerCmd::EnablePaula(true),
        ]
    );
}

#[test]
fn ust_row_on_the_sixth_tick() {
    let b = ust_mod(&[(0, 0, [0x01, 0xac, 0x10, 0x00])]);
    let mut o = Oxdz::new(&b, 44100, "ust").unwrap();
    o.commands.clear();
    for k in 1..6 {
        o.play_frame();
        assert_eq!((o.data.frame, o.data.row, o.data.pos), (k, 0, 0));
    }
    assert!(o.commands.is_empty());
    o.play_frame();
    assert_eq!((o.data.frame, o.data.row, o.data.pos), (0, 1, 0));
    assert_eq!(
        o.commands,
        vec![
            MixerCmd::SetVolume(0, 1024),
            MixerCmd::EnableLoop(0, false),
            MixerCmd::SetSamplePtr(0, 1624),
            MixerCmd::SetLoopStart(0, 0),
            MixerCmd::SetLoopEnd(0, 2),
            MixerCmd::SetPeriod(0, 428),
        ]
    );
}

#[test]
fn ust_arpeggio_steps() {
    let b = ust_mod(&[(0, 1, [0x01, 0xac, 0x11, 0x37])]);
    let mut o = Oxdz::new(&b, 44100, "ust").unwrap();
    ticks(&mut o, 6);
    for p in [360, 285, 428, 360, 285] {
        o.commands.clear();
        o.play_frame();
        assert_eq!(o.commands, vec![MixerCmd::SetPeriod(1, p)]);
    }
}

#[test]
fn ust_pitch_bend_up() {
    let b = ust_mod(&[(0, 2, [0x01, 0xac, 0x12, 0x20])]);
    let mut o = Oxdz::new(&b, 44100, "ust").unwrap();
    ticks(&mut o, 6);
    for p in [430, 432, 434] {
        o.commands.clear();
        o.play_frame();
        assert_eq!(o.commands, vec![MixerCmd::SetPeriod(2, p)]);
    }
}

#[test]
fn ust_rows_last_six_ticks_law() {
    let b = ust_mod(&[]);
    let mut o = Oxdz::new(&b, 44100, "ust").unwrap();
    for row in 1..=64 {
        for k in 1..6 {
            o.play_frame();
            assert_eq!((o.data.frame, o.data.row), (k, row - 1));
        }
        o.play_frame();
        assert_eq!(o.data.frame, 0);
        assert_eq!(o.data.row, row % 64);
    }
    // past the last position, back to the first
    assert_eq!(o.data.pos, 0);
}
