use oxdz::player::st2::{ST2Channel, St2Play};
use oxdz::module::ModuleData;
use oxdz::Oxdz;

#[test]
fn st2_channels_at_rest() {
    let mut p = St2Play::new(4);
    assert_eq!(p.state.len(), 4);
    assert!(p.state.iter().all(|c| !c.on && c.volume_current == 0 && c.period_current == 0));
    p.play();
    p.reset();
    assert_eq!(p.state.len(), 4);
    let c = ST2Channel::new();
    assert_eq!((c.row, c.last_note), (0, 0));
}

/// An STM module of version 2.21 with no patterns and no samples.
fn empty_stm() -> Vec<u8> {
    let mut b = vec![0u8; 1168];
    b[..4].copy_from_slice(b"tune");
    b[20..30].copy_from_slice(b"!Scream!\x1a\x02");
    b[30] = 2;
    b[31] = 21;
    b[32] = 0x60;
    b
}

#[test]
fn st2_replays_an_stm_module_idly() {
    let b = empty_stm();
    let mut o = Oxdz::new(&b, 44100, "").unwrap();
    assert_eq!(o.player_id, "st2");
    assert!(o.commands.is_empty());
    assert_eq!((o.data.pos, o.data.row, o.data.frame, o.data.speed, o.data.tempo), (0, 0, 0, 0, 0));
    for _ in 0..3 {
        o.play_frame();
    }
    assert!(o.commands.is_empty());
    assert_eq!((o.data.pos, o.data.row, o.data.frame), (0, 0, 0));
}

#[test]
fn stm_event_in_common_form() {
    let mut b = empty_stm();
    b[33] = 1;
    b.extend(vec![0u8; 1024]);
    b[1168..1172].copy_from_slice(&[0x24, 0x08, 0x41, 0x05]);
    b[1172] = 0xff;
    let m = oxdz::format::load(&b, "").unwrap();
    match &m.data {
        ModuleData::Stm(d) => {
            let e = d.event(0, 0, 0).unwrap();
            assert_eq!((e.note, e.ins, e.vol, e.fxt, e.fxp), (64, 1, 33, 1, 5));
            assert_eq!(d.event(0, 0, 1).unwrap().note, 0);
            assert!(d.event(1, 0, 0).is_none());
            assert!(d.event(0, 64, 0).is_none());
            assert!(d.event(0, 0, 4).is_none());
        },
        _ => panic!("not an STM module"),
    }
}
