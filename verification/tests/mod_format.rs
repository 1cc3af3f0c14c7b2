use oxdz::format::mk::load::ModLoader;
use oxdz::format::mk::note::period_to_note;
use oxdz::format::mk::{ModEvent, ModPatterns};
use oxdz::format::Format;
use oxdz::module::event;
use oxdz::module::ModuleData;
use oxdz::Error;

/// A four-channel "M.K." module: one pattern whose first row plays note
/// 428 with instrument 1 on channel 0, and an 8-byte sample.
fn small_mod() -> Vec<u8> {
    let mut b = vec![0u8; 1084 + 1024 + 8];
    b[..9].copy_from_slice(b"test song");
    // instrument 1: name, 4 words, finetune 0, volume 64, no repeat, replen 1
    b[20..24].copy_from_slice(b"sine");
    b[42] = 0;
    b[43] = 4;
    b[45] = 64;
    b[49] = 1;
    b[950] = 1; // song length
    b[951] = 127;
    b[1080..1084].copy_from_slice(b"M.K.");
    // pattern 0, row 0, channel 0: period 428, instrument 1
    b[1084..1088].copy_from_slice(&[0x01, 0xac, 0x10, 0x00]);
    for i in 0..8 {
        b[2108 + i] = (i * 16) as u8;
    }
    b
}

fn message(e: Error) -> String {
    match e {
        Error::Format(s) | Error::Player(s) | Error::Load(s) => s,
    }
}

#[test]
fn mod_probe_finds_magic_and_title() {
    let b = small_mod();
    let info = ModLoader.probe(&b, "").unwrap();
    assert!(info.format == Format::Mk);
    assert_eq!(info.title, "test song           ");
}

#[test]
fn mod_probe_too_short() {
    let b = vec![0u8; 100];
    let e = ModLoader.probe(&b, "").err().unwrap();
    assert_eq!(message(e), "file too short (100)");
}

#[test]
fn mod_probe_bad_magic() {
    let mut b = small_mod();
    b[1080..1084].copy_from_slice(b"ABCD");
    let e = ModLoader.probe(&b, "").err().unwrap();
    assert_eq!(message(e), format!("bad magic {}", 0x41424344u32));
}

#[test]
fn mod_probe_rejected_by_player() {
    let b = small_mod();
    let e = ModLoader.probe(&b, "st2").err().unwrap();
    assert_eq!(message(e), "format \"m.k.\" not accepted by player \"st2\"");
}

#[test]
fn mod_load_reads_everything() {
    let b = small_mod();
    let info = ModLoader.probe(&b, "").unwrap();
    let m = ModLoader.load(&b, info).unwrap();
    assert_eq!(m.format_id, "m.k.");
    assert_eq!(m.channels, 4);
    assert_eq!(m.description, "M.K. module ");
    assert_eq!(m.title(), "test song           ");
    assert_eq!(m.patterns(), 1);
    assert_eq!(m.len(), 1);
    assert_eq!(m.pattern_in_position(0), Some(0));
    assert_eq!(m.pattern_in_position(128), None);
    assert_eq!(m.rows(0), 64);
    assert_eq!(m.rows(1), 0);
    let names = m.instruments();
    assert_eq!(names.len(), 31);
    assert_eq!(names[0], format!("{:<22}", "sine"));
    let samples = m.samples();
    assert_eq!(samples.len(), 31);
    assert_eq!(samples[0].size, 8);
    assert_eq!(samples[0].address, 2108);
    // the data and two guard bytes repeating the last
    assert_eq!(samples[0].data.as_slice_u8(), &[0, 16, 32, 48, 64, 80, 96, 112, 112, 112][..]);
    match &m.data {
        ModuleData::Mod(d) => {
            assert_eq!(d.restart, 127);
            assert_eq!(d.magic, "M.K.");
            let e = d.patterns.event(0, 0, 0);
            assert!(*e == ModEvent { note: 0x1ac, cmd: 0x10, cmdlo: 0 });
            assert_eq!(e.ins(), 1);
        }
        _ => panic!("not a MOD module"),
    }
}

#[test]
fn mod_load_short_file_is_a_load_error() {
    let b = small_mod();
    let info = ModLoader.probe(&b, "").unwrap();
    let e = ModLoader.load(&b[..2000], info).err().unwrap();
    assert!(matches!(e, Error::Load(_)));
}

#[test]
fn mod_load_unsupported_format() {
    let b = small_mod();
    let info = oxdz::format::ProbeInfo { format: Format::Flt, title: String::new() };
    let e = ModLoader.load(&b, info).err().unwrap();
    assert_eq!(message(e), "unsupported format");
}

#[test]
fn pattern_rendering() {
    let b = small_mod();
    let m = oxdz::format::load(&b, "").unwrap();
    let mut buffer = vec![0xffu8; 6 * 4 + 1];
    let n = m.pattern_data(0, &mut buffer);
    assert_eq!(n, 4);
    // note 60 (period 428), instrument 1; the effect byte holds the
    // instrument's low nibble, so it counts as an effect
    let flags = event::HAS_NOTE | event::HAS_INS | event::HAS_CMD;
    assert_eq!(&buffer[0..6], &[flags, 60, 1, 0, 0x10, 0][..]);
    assert_eq!(event::format(&buffer[0..6]), "C 5 01 -- 1000");
    // all but the last byte are cleared first
    assert_eq!(buffer[24], 0xff);
}

#[test]
fn period_to_note_values() {
    assert_eq!(period_to_note(0), 0);
    assert_eq!(period_to_note(428), 60);
    assert_eq!(period_to_note(856), 48);
    assert_eq!(period_to_note(214), 72);
    assert_eq!(period_to_note(113), 83);
}

#[test]
fn patterns_short_data() {
    let b = [0u8; 10];
    let e = ModPatterns::from_slice(1, &b, 4).err().unwrap();
    assert_eq!(message(e), "short read (want 12 bytes, have 10)");
}

#[test]
fn format_load_rejects_unknown_data() {
    let b = vec![0u8; 2000];
    let e = oxdz::format::load(&b, "").err().unwrap();
    assert_eq!(message(e), "unsupported module format");
}

#[test]
fn format_list_names() {
    let l = oxdz::format::list();
    assert_eq!(l.len(), 6);
    assert_eq!(l[0].name, "FastTracker II XM");
    assert_eq!(l[3].name, "Amiga Protracker/Compatible");
}

#[test]
fn mod_title_with_invalid_utf8() {
    let mut b = small_mod();
    b[..20].copy_from_slice(&[b'a', 0xff, b'b', 0, 0, 0, 0, 0, 0, 0, 0, 0, 0, 0, 0, 0, 0, 0, 0, 0]);
    let info = ModLoader.probe(&b, "").unwrap();
    assert_eq!(info.title, "a\u{fffd}b                 ");
}

#[test]
fn xm_data_is_probed_but_not_loaded() {
    let mut b = vec![0u8; 256];
    b[..17].copy_from_slice(b"Extended Module: ");
    let e = oxdz::format::load(&b, "").err().unwrap();
    assert_eq!(message(e), "cannot read XM headers");
}

#[test]
fn longer_periods_are_never_higher_notes() {
    let mut last = period_to_note(1);
    for p in 2..=0xfffu16 {
        let n = period_to_note(p);
        assert!(n <= last);
        assert!(n >= 12);
        last = n;
    }
    assert_eq!(period_to_note(1), 165);
}

#[test]
fn loaded_module_names_a_player_that_takes_it() {
    let b = small_mod();
    let m = oxdz::format::load(&b, "").unwrap();
    let info = oxdz::player::list_by_id(m.player).unwrap();
    assert!(info.accepts.contains(&m.format_id));
}
