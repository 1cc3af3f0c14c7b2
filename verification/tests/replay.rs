use oxdz::player::options::Options;
use oxdz::player::protracker::{ChannelData, ModPlayer};
use oxdz::player::{list_by_id, check_accepted, FrameInfo, MixerCmd, PlayerData, ScanData};
use oxdz::{format_list, player_list, Error, ModuleInfo, Oxdz};

fn small_mod() -> Vec<u8> {
    let mut b = vec![0u8; 1084 + 1024 + 8];
    b[..9].copy_from_slice(b"test song");
    b[20..24].copy_from_slice(b"sine");
    b[43] = 4;
    b[45] = 64;
    b[49] = 1;
    b[950] = 1;
    b[1080..1084].copy_from_slice(b"M.K.");
    b[1084..1088].copy_from_slice(&[0x01, 0xac, 0x10, 0x00]);
    b
}

fn message(e: Error) -> String {
    match e {
        Error::Format(s) | Error::Player(s) | Error::Load(s) => s,
    }
}

#[test]
fn replay_starts_with_pans_and_paula() {
    let b = small_mod();
    let o = Oxdz::new(&b, 44100, "pt2").unwrap();
    assert_eq!(o.player_id, "pt2");
    assert_eq!(o.rate, 44100);
    assert_eq!(
        o.commands,
        vec![
            MixerCmd::SetPan(0, -89),
            MixerCmd::SetPan(1, 88),
            MixerCmd::SetPan(2, 88),
            MixerCmd::SetPan(3, -89),
            MixerCmd::EnablePaula(true),
        ]
    );
    assert_eq!(o.data.speed, 6);
    assert_eq!(o.data.tempo, 125);
}

#[test]
fn ticks_advance_within_a_row() {
    let b = small_mod();
    let mut o = Oxdz::new(&b, 44100, "pt2").unwrap();
    let mut fi = FrameInfo::new();
    for k in 1..6 {
        o.play_frame();
        o.frame_info(&mut fi);
        assert_eq!(fi.frame, k);
        assert_eq!(fi.row, 0);
        assert_eq!(fi.pos, 0);
    }
    o.commands.clear();
    o.play_frame();
    o.frame_info(&mut fi);
    assert_eq!(fi.frame, 0);
    assert_eq!(fi.row, 1);
    assert_eq!(fi.speed, 6);
    assert_eq!(fi.tempo, 125);
    // the first row starts instrument 1 at its address with period 428
    assert!(o.commands.contains(&MixerCmd::SetVolume(0, 64 * 16)));
    assert!(o.commands.contains(&MixerCmd::SetSamplePtr(0, 2108)));
    assert!(o.commands.contains(&MixerCmd::SetPeriod(0, 428)));
    assert!(o.commands.contains(&MixerCmd::EnableLoop(0, false)));
}

#[test]
fn song_wraps_after_last_row() {
    let b = small_mod();
    let mut o = Oxdz::new(&b, 44100, "pt2").unwrap();
    for _ in 0..6 * 64 {
        o.play_frame();
    }
    assert_eq!(o.data.row, 0);
    assert_eq!(o.data.pos, 0);
    assert_eq!(o.data.frame, 0);
}

#[test]
fn set_position_moves_the_report() {
    let b = small_mod();
    let mut o = Oxdz::new(&b, 44100, "pt2").unwrap();
    o.play_frame();
    o.set_position(3);
    assert_eq!(o.data.pos, 3);
    assert_eq!(o.data.row, 0);
    assert_eq!(o.data.frame, 0);
}

#[test]
fn module_and_player_info() {
    let b = small_mod();
    let o = Oxdz::new(&b, 44100, "pt2").unwrap();
    let mut mi = ModuleInfo::new();
    o.module_info(&mut mi);
    assert_eq!(mi.title, "test song           ");
    assert_eq!(mi.format_id, "m.k.");
    assert_eq!(mi.channels, 4);
    assert_eq!(mi.total_time, 0);
    let info = o.player_info().unwrap();
    assert_eq!(info.id, "pt2");
    assert_eq!(o.module().format_id, "m.k.");
}

#[test]
fn player_must_take_the_format() {
    // no loader accepts the module for a player that does not play it
    let b = small_mod();
    let e = Oxdz::new(&b, 44100, "st2").err().unwrap();
    assert_eq!(message(e), "unsupported module format");
}

#[test]
fn unknown_player() {
    let e = list_by_id("xyz").err().unwrap();
    assert_eq!(message(e), "player \"xyz\" not found");
}

#[test]
fn empty_player_accepts_all() {
    assert!(!check_accepted("", "anything").unwrap());
    assert!(check_accepted("pt2", "m.k.").unwrap());
}

#[test]
fn registries() {
    let players = player_list();
    assert_eq!(players.len(), 7);
    assert_eq!(players[0].id, "pt2");
    assert_eq!(players[6].id, "hmn");
    assert_eq!(format_list().len(), 6);
}

#[test]
fn options_parse() {
    let mut o = Options::from_str("a=1; b = two ;c;=x");
    assert!(o.has_option("a"));
    assert!(o.has_option("b"));
    assert!(o.has_option("c"));
    assert!(o.has_option(""));
    assert!(!o.has_option("d"));
    assert!(!o.has_option(" b "));
    assert_eq!(o.option_int("a"), None);
}

#[test]
fn player_data_end_of_module() {
    let mut d = PlayerData::new();
    d.scan_data[0] = ScanData { time: 0, ord: 0, row: 0, num: 2 };
    d.check_end_of_module();
    assert_eq!(d.loop_count, 1);
    assert_eq!(d.end_point, 1);
    d.check_end_of_module();
    assert_eq!(d.loop_count, 1);
    assert_eq!(d.end_point, 0);
    d.check_end_of_module();
    assert_eq!(d.loop_count, 2);
    d.row = 5;
    d.check_end_of_module();
    assert_eq!(d.loop_count, 2);
    assert_eq!(d.end_point, 1);
}

#[test]
fn player_data_reset() {
    let mut d = PlayerData::new();
    d.initial_speed = 3;
    d.initial_tempo = 150;
    d.pos = 7;
    d.row = 9;
    d.reset();
    assert_eq!((d.pos, d.row, d.frame, d.song, d.speed, d.tempo), (0, 0, 0, 0, 3, 150));
}

#[test]
fn new_replayer_and_channel() {
    let p = ModPlayer::new(Options::from_str(""));
    assert_eq!(p.mt_speed, 6);
    assert_eq!(p.cia_tempo, 125);
    let c = ChannelData::new();
    assert_eq!(c.n_period, 0);
    assert!(!c.inside_loop);
}

#[test]
fn speed_command_and_volume_slide() {
    let mut b = small_mod();
    // channel 0: note with instrument 1 and speed 3; channel 1: the same
    // note with a volume slide down by 2
    b[1084..1088].copy_from_slice(&[0x01, 0xac, 0x1f, 0x03]);
    b[1088..1092].copy_from_slice(&[0x01, 0xac, 0x1a, 0x02]);
    let mut o = Oxdz::new(&b, 44100, "pt2").unwrap();
    for _ in 0..6 {
        o.play_frame();
    }
    assert_eq!(o.data.speed, 3);
    assert_eq!(o.data.frame, 0);
    assert_eq!(o.data.row, 1);
    o.commands.clear();
    o.play_frame();
    assert_eq!(o.data.frame, 1);
    assert!(o.commands.contains(&MixerCmd::SetVolume(1, 62 * 16)));
    o.commands.clear();
    o.play_frame();
    assert!(o.commands.contains(&MixerCmd::SetVolume(1, 60 * 16)));
    o.play_frame();
    assert_eq!(o.data.frame, 0);
    assert_eq!(o.data.row, 2);
}

#[test]
fn pattern_break_goes_to_its_row() {
    let mut b = small_mod();
    // channel 2: break to row 10 of the next position
    b[1092..1096].copy_from_slice(&[0x00, 0x00, 0x0d, 0x10]);
    let mut o = Oxdz::new(&b, 44100, "pt2").unwrap();
    for _ in 0..6 {
        o.play_frame();
    }
    // the song has one position: the next one is the first again
    assert_eq!(o.data.pos, 0);
    assert_eq!(o.data.row, 10);
    assert_eq!(o.data.frame, 0);
}

#[test]
fn pattern_loop_plays_its_body_three_times() {
    let mut b = small_mod();
    // channel 0: loop start at row 0, loop back twice at row 1
    b[1084..1088].copy_from_slice(&[0x00, 0x00, 0x0e, 0x60]);
    b[1100..1104].copy_from_slice(&[0x00, 0x00, 0x0e, 0x62]);
    let mut o = Oxdz::new(&b, 44100, "pt2").unwrap();
    let mut rows = Vec::new();
    for _ in 0..6 {
        for _ in 0..6 {
            o.play_frame();
        }
        rows.push(o.data.row);
    }
    assert_eq!(rows, vec![1, 0, 1, 0, 1, 2]);
}

#[test]
fn registry_round_trip() {
    let list = player_list();
    for (i, p) in list.iter().enumerate() {
        for q in &list[i + 1..] {
            assert_ne!(p.id, q.id);
        }
        let e = list_by_id(p.id).unwrap();
        assert_eq!((e.id, e.accepts), (p.id, p.accepts));
    }
    assert!(list_by_id("ft").is_err());
}
