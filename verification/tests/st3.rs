use oxdz::format::mk::ModPatterns;
use oxdz::module::ModuleData;
use oxdz::player::st3::import::{convert_cmd, encode_pattern, from_mod};
use oxdz::player::MixerCmd;
use oxdz::{Error, Oxdz};

/// A one-channel S3M module: one instrument at middle-C speed 8363, one
/// pattern whose first row plays C-4 with instrument 1 and speed 3.
fn small_s3m() -> Vec<u8> {
    s3m_with_rows(&[0xa0u8, 0x40, 0x01, 0x01, 0x03, 0x00], 1)
}

/// The module of `small_s3m` whose pattern starts with the `n` packed
/// rows `rows`.
fn s3m_with_rows(rows: &[u8], n: usize) -> Vec<u8> {
    let mut b = vec![0u8; 0x200];
    b[..4].copy_from_slice(b"song");
    b[0x1d] = 16;
    b[0x20] = 2; // orders
    b[0x22] = 1; // instruments
    b[0x24] = 1; // patterns
    b[0x28..0x2a].copy_from_slice(&0x1320u16.to_le_bytes());
    b[0x2a] = 2;
    b[0x2c..0x30].copy_from_slice(b"SCRM");
    b[0x30] = 64;
    b[0x31] = 6;
    b[0x32] = 125;
    b[0x33] = 0xb0;
    for i in 0x41..0x60 {
        b[i] = 0xff;
    }
    b[0x60] = 0;
    b[0x61] = 255;
    b[0x62..0x64].copy_from_slice(&0x09u16.to_le_bytes()); // instrument at 0x90
    b[0x64..0x66].copy_from_slice(&0x10u16.to_le_bytes()); // pattern at 0x100
    b[0x90] = 1;
    b[0x90 + 0x1c] = 64;
    b[0x90 + 0x20..0x90 + 0x24].copy_from_slice(&8363u32.to_le_bytes());
    let len = rows.len() + 64 - n;
    b[0x100..0x102].copy_from_slice(&(len as u16).to_le_bytes());
    b[0x102..0x102 + rows.len()].copy_from_slice(rows);
    b
}

#[test]
fn st3_plays_an_s3m_module() {
    let b = small_s3m();
    let mut o = Oxdz::new(&b, 44100, "").unwrap();
    assert_eq!(o.player_id, "st3");
    assert!(o.commands.is_empty());
    assert_eq!(o.data.speed, 6);
    assert_eq!(o.data.tempo, 125);
    o.play_frame();
    assert_eq!(o.data.speed, 3);
    assert_eq!(o.data.frame, 1);
    assert_eq!(o.data.row, 0);
    assert!(o.commands.contains(&MixerCmd::SetQuarterPeriod(0, 1712)));
    assert!(o.commands.contains(&MixerCmd::SetScaledVolume(0, 63, 64, 64)));
    o.play_frame();
    o.play_frame();
    assert_eq!(o.data.frame, 0);
    assert_eq!(o.data.row, 1);
}

/// A four-channel "M.K." module: one pattern whose first row plays period
/// 428 with instrument 1 on channel 0, and an 8-byte sample.
fn small_mk() -> Vec<u8> {
    let mut b = vec![0u8; 1084 + 1024 + 8];
    b[..9].copy_from_slice(b"test song");
    b[20..24].copy_from_slice(b"sine");
    b[43] = 4;
    b[44] = 3; // finetune 3
    b[45] = 64;
    b[49] = 1;
    b[950] = 1;
    b[951] = 127;
    b[1080..1084].copy_from_slice(b"M.K.");
    b[1084..1088].copy_from_slice(&[0x01, 0xac, 0x10, 0x00]);
    b
}

#[test]
fn mod_commands_convert_to_s3m() {
    assert_eq!(convert_cmd(0, 0), (0, 0));
    assert_eq!(convert_cmd(0, 0x37), (10, 0x37));
    assert_eq!(convert_cmd(1, 0x05), (6, 0x05));
    assert_eq!(convert_cmd(8, 0x05), (0, 0x05));
    assert_eq!(convert_cmd(12, 0x40), (0, 0));
    assert_eq!(convert_cmd(13, 0x25), (3, 25));
    assert_eq!(convert_cmd(14, 0x1a), (6, 0xfa));
    assert_eq!(convert_cmd(14, 0x5f), (19, 0xb0));
    assert_eq!(convert_cmd(14, 0x63), (19, 0xb3));
    assert_eq!(convert_cmd(14, 0x81), (0, 0));
    assert_eq!(convert_cmd(14, 0x92), (15, 0x02));
    assert_eq!(convert_cmd(14, 0xa3), (4, 0x3f));
    assert_eq!(convert_cmd(14, 0xb3), (4, 0xf3));
    assert_eq!(convert_cmd(14, 0xc2), (19, 0xc2));
    assert_eq!(convert_cmd(15, 0x1f), (1, 0x1f));
    assert_eq!(convert_cmd(15, 0x7d), (20, 0x7d));
}

#[test]
fn mod_pattern_packs_as_s3m() {
    let mut b = vec![0u8; 1024];
    // row 0: channel 1 period 428, instrument 1, set volume 0x20
    b[4..8].copy_from_slice(&[0x01, 0xac, 0x1c, 0x20]);
    // row 1: channel 3 break to row 25
    b[16 + 12..16 + 16].copy_from_slice(&[0x00, 0x00, 0x0d, 0x25]);
    let p = ModPatterns::from_slice(1, &b, 4).unwrap();
    let s = encode_pattern(&p, 0, 4);
    let mut want = vec![0x61u8, 0x40, 0x01, 0x20, 0, 0x83, 3, 25, 0];
    want.extend(std::iter::repeat(0).take(62));
    let size = want.len() + 2;
    assert_eq!(s.size, size);
    assert_eq!(s.data[..2], [size as u8, 0]);
    assert_eq!(s.data[2..], want[..]);
}

#[test]
fn mk_module_imports_for_st3() {
    let b = small_mk();
    let m = oxdz::format::load(&b, "").unwrap();
    let s = from_mod(m).unwrap();
    assert_eq!((s.format_id, s.player, s.channels), ("m.k.", "st3", 4));
    assert_eq!(s.description, "Imported M.K. module");
    assert_eq!(s.creator, "Scream Tracker 3");
    match &s.data {
        ModuleData::S3m(d) => {
            assert_eq!((d.ord_num, d.ins_num, d.pat_num, d.cwt_v), (1, 1, 1, 0x1320));
            assert_eq!(d.orders.len(), 128);
            let i = &d.instruments[0];
            assert_eq!((i.typ, i.length, i.loop_beg, i.loop_end, i.vol, i.flags, i.c2spd), (1, 8, 0, 2, 64, 0, 8529));
            assert_eq!(i.name, format!("{:<22}", "sine"));
            assert_eq!(d.patterns[0].data[..6], [69, 0, 0x20, 0x40, 0x01, 0]);
            assert_eq!(d.ch_settings[..9], [0, 9, 10, 3, 4, 14, 15, 7, 255]);
        },
        _ => panic!("not imported"),
    }
}

#[test]
fn six_channel_module_does_not_import() {
    let mut b = vec![0u8; 1084 + 1536];
    b[950] = 1;
    b[1080..1084].copy_from_slice(b"6CHN");
    let m = oxdz::format::load(&b, "").unwrap();
    assert_eq!(m.format_id, "xchn");
    match from_mod(m) {
        Err(Error::Format(s)) => assert_eq!(s, "can't import xchn module"),
        _ => panic!("imported"),
    }
}

#[test]
fn st3_plays_an_mk_module() {
    let b = small_mk();
    let mut o = Oxdz::new(&b, 44100, "st3").unwrap();
    assert_eq!(o.player_id, "st3");
    assert_eq!(o.module.description, "Imported M.K. module");
    assert!(o.commands.is_empty());
    o.play_frame();
    assert_eq!(o.data.row, 0);
    assert!(o.commands.iter().any(|c| matches!(c, MixerCmd::SetQuarterPeriod(0, _))));
}

#[test]
fn st3_pattern_loop_plays_its_body_twice() {
    // row 0: C-4 and speed 3; row 1: SB1, loop once back to row 0
    let b = s3m_with_rows(&[0xa0, 0x40, 0x01, 0x01, 0x03, 0x00, 0x80, 19, 0xb1, 0], 2);
    let mut o = Oxdz::new(&b, 44100, "st3").unwrap();
    let mut rows = Vec::new();
    for _ in 0..5 {
        for _ in 0..3 {
            o.play_frame();
        }
        rows.push(o.data.row);
    }
    assert_eq!(rows, vec![1, 0, 1, 2, 3]);
}

#[test]
fn st3_header_settings_fall_back() {
    let mut b = small_s3m();
    b[0x30] = 100; // global volume above 64
    b[0x31] = 0; // speed 0
    b[0x32] = 20; // tempo 32 or below
    let o = Oxdz::new(&b, 44100, "st3").unwrap();
    assert_eq!((o.data.speed, o.data.tempo), (6, 125));
    match &o.player {
        oxdz::FormatPlayer::St3(p) => {
            assert_eq!((p.musicmax, p.tempo, p.globalvol, p.tracker), (6, 125, 64, 1));
            assert_eq!((p.np_ord, p.np_pat, p.np_row, p.lastachannelused), (1, 0, 0, 1));
        },
        _ => panic!("not the st3 replayer"),
    }
}
