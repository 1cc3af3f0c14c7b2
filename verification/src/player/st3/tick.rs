//! What each routine of the Scream Tracker 3 replayer does, as functions
//! from the replayer before it to the replayer after it and the mixer
//! commands it leaves.

use vstd::prelude::*;
use vstd::array::{spec_array_update, spec_array_fill_for_copy_type};
use crate::player::st3::{St3Play, Chn, setspd_chn, setspd_cmds, setvol_cmds, xfinetune_amiga, notespd,
    stnote2herz, scalec2spd, tdiv, st3_doamiga_chn, st3_patloop, st3_rand, st3_zero_channel,
    SCREAM_TRACKER, IMAGO_ORPHEUS, IMPULSE_TRACKER, SCHISM_TRACKER, OPENMPT, BEROTRACKER};
use crate::player::MixerCmd;
use crate::format::s3m::S3mData;

verus! {

/// `p` with channel `i` replaced by `c`.
pub open spec fn chn_set(p: St3Play, i: int, c: Chn) -> St3Play {
    St3Play { chn: spec_array_update(p.chn, i, c), ..p }
}

/// A replayer that differs from `a` in channel `i` at most is `a` with
/// that channel replaced.
pub proof fn lemma_chn_set(a: St3Play, b: St3Play, i: int)
    requires
        0 <= i < 32,
        b == (St3Play { chn: b.chn, ..a }),
        b.chn@ == a.chn@.update(i, b.chn@[i]),
    ensures
        b == chn_set(a, i, b.chn@[i]),
{
    assert(b.chn =~= spec_array_update(a.chn, i, b.chn@[i]));
}

/// S1x: glissando on where `x` is not 0.
pub open spec fn st3_setgliss(p: St3Play, i: int) -> St3Play {
    let c = p.chn@[i];
    chn_set(p, i, Chn { aglis: c.info & 0x0f != 0, ..c })
}

/// Channel `ch` after its speed is set, and the command.
pub open spec fn st3_setspd(p: St3Play, ch: int) -> (St3Play, Seq<MixerCmd>) {
    (chn_set(p, ch, setspd_chn(p, p.chn@[ch])), setspd_cmds(p, p.chn@[ch], ch))
}

/// Channel `ch` marked in use, and the commands of its volume and pan.
pub open spec fn st3_setvol(p: St3Play, ch: int) -> (St3Play, Seq<MixerCmd>) {
    let c = p.chn@[ch];
    (chn_set(p, ch, Chn { achannelused: c.achannelused | 0x80, ..c }), setvol_cmds(p, c, ch))
}

/// A zero parameter becomes the channel's last nonzero one.
pub open spec fn st3_getlastnfo(p: St3Play, i: int) -> St3Play {
    let c = p.chn@[i];
    if c.info == 0 { chn_set(p, i, Chn { info: c.alastnfo, ..c }) } else { p }
}

/// A nonzero speed becomes the ticks per row.
pub open spec fn st3_setspeed(p: St3Play, val: u8) -> St3Play {
    if val != 0 { St3Play { musicmax: val, ..p } } else { p }
}

/// A tempo above 32 becomes the tempo.
pub open spec fn st3_settempo(p: St3Play, val: u16) -> St3Play {
    if val > 32 { St3Play { tempo: val as i16, ..p } } else { p }
}

/// The trackers whose extensions (pan, channel and global volume
/// effects) the replayer plays.
pub open spec fn st3_extended(p: St3Play) -> bool {
    p.tracker != SCREAM_TRACKER && p.tracker != IMAGO_ORPHEUS
}

/// S2x: the Amiga finetune `x` as middle-C speed, for OpenMPT and
/// BeroTracker modules.
pub open spec fn st3_setfinetune(p: St3Play, i: int) -> St3Play {
    let c = p.chn@[i];
    if p.tracker == OPENMPT || p.tracker == BEROTRACKER {
        chn_set(p, i, Chn { ac2spd: xfinetune_amiga()[(c.info & 0x0f) as int] as i32, ..c })
    } else {
        p
    }
}

/// S3x: the vibrato waveform.
pub open spec fn st3_setvibwave(p: St3Play, i: int) -> St3Play {
    let c = p.chn@[i];
    chn_set(p, i, Chn { avibtretype: (c.avibtretype & 0xf0) | ((c.info << 1u8) & 0x0f), ..c })
}

/// S4x: the tremolo waveform.
pub open spec fn st3_settrewave(p: St3Play, i: int) -> St3Play {
    let c = p.chn@[i];
    chn_set(p, i, Chn { avibtretype: ((c.info << 5u8) & 0xf0) | (c.avibtretype & 0x0f), ..c })
}

/// S5x: the panbrello waveform, for the extended trackers.
pub open spec fn st3_setpanwave(p: St3Play, i: int) -> St3Play {
    let c = p.chn@[i];
    if st3_extended(p) { chn_set(p, i, Chn { apantype: c.info & 0x0f, ..c }) } else { p }
}

/// S6x: `x` more ticks in the row, for OpenMPT, BeroTracker, Impulse
/// Tracker and Schism Tracker modules.
pub open spec fn st3_tickdelay(p: St3Play, i: int) -> St3Play {
    if p.tracker == OPENMPT || p.tracker == BEROTRACKER || p.tracker == IMPULSE_TRACKER
        || p.tracker == SCHISM_TRACKER {
        St3Play { tickdelay: p.tickdelay.wrapping_add((p.chn@[i].info & 0x0f) as i8), ..p }
    } else {
        p
    }
}

/// S8x: the pan position `17 x`, surround off.
pub open spec fn st3_setpanpos(p: St3Play, i: int) -> (St3Play, Seq<MixerCmd>) {
    let c = p.chn@[i];
    let c1 = Chn { surround: 0, apanpos: ((c.info & 0x0f) as i16 * 17) as i16, ..c };
    (chn_set(p, i, c1), setvol_cmds(p, c1, i))
}

/// S90 and S91: surround off or on, for the extended trackers.
pub open spec fn st3_sndcntrl(p: St3Play, i: int) -> St3Play {
    let c = p.chn@[i];
    let lo = c.info & 0x0f;
    if st3_extended(p) && lo == 0 {
        chn_set(p, i, Chn { surround: 0, ..c })
    } else if st3_extended(p) && lo == 1 {
        chn_set(p, i, Chn { surround: 1, ..c })
    } else {
        p
    }
}

/// SCx: cut the note after `x` ticks.
pub open spec fn st3_notecut(p: St3Play, i: int) -> St3Play {
    let c = p.chn@[i];
    chn_set(p, i, Chn { anotecutcnt: c.info & 0x0f, ..c })
}

/// The note cut count down by one tick.
pub open spec fn st3_notecutb(p: St3Play, i: int) -> St3Play {
    let c = p.chn@[i];
    if c.anotecutcnt != 0 { chn_set(p, i, Chn { anotecutcnt: (c.anotecutcnt - 1) as u8, ..c }) } else { p }
}

/// SDx: delay the note by `x` ticks.
pub open spec fn st3_notedelay(p: St3Play, i: int) -> St3Play {
    let c = p.chn@[i];
    chn_set(p, i, Chn { anotedelaycnt: c.info & 0x0f, ..c })
}

/// SEx: repeat the row `x` times, unless a delay runs.
pub open spec fn st3_patterdelay(p: St3Play, i: int) -> St3Play {
    if p.patterndelay == 0 { St3Play { patterndelay: (p.chn@[i].info & 0x0f) as i8, ..p } } else { p }
}

/// Axx: the speed.
pub open spec fn st3_s_setspeed(p: St3Play, i: int) -> St3Play {
    st3_setspeed(p, p.chn@[i].info)
}

/// Bxx: jump to order `xx` (255: stop at the end of the row).
pub open spec fn st3_jmpto(p: St3Play, i: int) -> St3Play {
    let info = p.chn@[i].info;
    if info != 0xff { St3Play { breakpat: 1, np_ord: info as i16, ..p } } else { St3Play { breakpat: 255, ..p } }
}

/// Cxy: break to row `10 x + y` of the next order.
pub open spec fn st3_break(p: St3Play, i: int) -> St3Play {
    let info = p.chn@[i].info;
    St3Play { startrow: ((info >> 4) * 10 + (info & 0x0f)) as u8, breakpat: 1, ..p }
}

/// Vxx: the global volume, up to 64.
pub open spec fn st3_setgvol(p: St3Play, i: int) -> St3Play {
    let info = p.chn@[i].info;
    if info <= 64 { St3Play { globalvol: info as i16, ..p } } else { p }
}

/// Xxx: the pan position `2 xx` up to 0x80 (surround off); 0xA4 turns
/// surround on for the extended trackers.
pub open spec fn st3_s_setpan(p: St3Play, i: int) -> (St3Play, Seq<MixerCmd>) {
    let c = p.chn@[i];
    let info = c.info;
    if info <= 0x80 {
        let c1 = Chn { surround: 0, apanpos: (info as i16 * 2) as i16, ..c };
        (chn_set(p, i, c1), setvol_cmds(p, c1, i))
    } else if info == 0xa4 && st3_extended(p) {
        (chn_set(p, i, Chn { surround: 1, ..c }), seq![])
    } else {
        (p, seq![])
    }
}

/// Mxx: the channel volume, up to 0x40, for the extended trackers.
pub open spec fn st3_chanvol(p: St3Play, i: int) -> (St3Play, Seq<MixerCmd>) {
    let c = p.chn@[i];
    if st3_extended(p) {
        let c1 = if c.info <= 0x40 { Chn { chanvol: c.info as i8, ..c } } else { c };
        st3_setvol(chn_set(p, i, c1), i)
    } else {
        (p, seq![])
    }
}

/// The sine wave of the vibrato, tremolo and panbrello.
pub open spec fn vibsin_table() -> Seq<int> {
    seq![0x00, 0x18, 0x31, 0x4A, 0x61, 0x78, 0x8D, 0xA1, 0xB4, 0xC5, 0xD4, 0xE0, 0xEB, 0xF4,
        0xFA, 0xFD, 0xFF, 0xFD, 0xFA, 0xF4, 0xEB, 0xE0, 0xD4, 0xC5, 0xB4, 0xA1, 0x8D, 0x78, 0x61, 0x4A, 0x31,
        0x18, 0x00, -0x18, -0x31, -0x4A, -0x61, -0x78, -0x8D, -0xA1, -0xB4, -0xC5, -0xD4, -0xE0, -0xEB, -0xF4,
        -0xFA, -0xFD, -0xFF, -0xFD, -0xFA, -0xF4, -0xEB, -0xE0, -0xD4, -0xC5, -0xB4, -0xA1, -0x8D, -0x78,
        -0x61, -0x4A, -0x31, -0x18]
}

/// The ramp wave.
pub open spec fn vibramp_table() -> Seq<int> {
    seq![0, -248, -240, -232, -224, -216, -208, -200, -192, -184, -176, -168, -160, -152, -144,
        -136, -128, -120, -112, -104, -96, -88, -80, -72, -64, -56, -48, -40, -32, -24, -16, -8, 0, 8, 16, 24,
        32, 40, 48, 56, 64, 72, 80, 88, 96, 104, 112, 120, 128, 136, 144, 152, 160, 168, 176, 184, 192, 200,
        208, 216, 224, 232, 240, 248]
}

/// The volume changes of the retrigger: added (first 16) or multiplied
/// by sixteenths (last 16, 0 where the first half applies).
pub open spec fn retrig_table() -> Seq<int> {
    seq![0, -1, -2, -4, -8, -16, 0, 0, 0, 1, 2, 4, 8, 16, 0, 0, 0, 0, 0, 0, 0, 0, 10, 8, 0, 0, 0,
        0, 0, 0, 24, 32]
}

/// The wave value at counter `cnt` for wave type `t` (sine, ramp,
/// square, random; types 4 to 7 keep running across notes), and the
/// counter after it.
pub open spec fn st3_wave(p: St3Play, t: u8, cnt: usize) -> (i32, usize) {
    if t > 7 {
        (0, cnt)
    } else {
        let cnt1: usize = if t >= 4 { cnt & 0x7f } else if cnt & 0x80 != 0 { 0 } else { cnt };
        let idx = ((cnt1 & 0x7f) / 2) as int;
        let k = t & 3;
        let dat: i32 = if k == 0 || k == 3 {
            vibsin_table()[idx] as i32
        } else if k == 1 {
            vibramp_table()[idx] as i32
        } else if idx < 32 {
            0xff
        } else {
            0
        };
        let cnt2 = if k == 3 { cnt1.wrapping_add((p.patmusicrand & 0x1e) as usize) } else { cnt1 };
        (dat, cnt2)
    }
}

/// The counter of a wave after a tick: advanced by twice the speed in
/// the parameter's high nibble, kept to 0 to 0x7e.
pub open spec fn wave_count(cnt: usize, info: u8) -> i16 {
    ((cnt.wrapping_add((((info >> 4u8) as usize) * 2) as usize)) & 0x7e) as i16
}

/// The volume slide of a parameter on a tick: `Some` new value (before
/// clamping) where the slide acts on this tick. `x0` slides up and `0y`
/// down on every tick after the first (on every tick where `fast`);
/// `xF` slides up and `Fy` down on the first tick only; `0F` and `F0`
/// slide on every tick.
pub open spec fn vol_slide(v: int, info: u8, first: bool, fast: bool) -> Option<int> {
    let infohi = (info >> 4u8) as int;
    let infolo = (info & 0x0f) as int;
    if infolo == 0x0f {
        if infohi == 0 { Some(v - infolo) } else if first { Some(v + infohi) } else { Some(v) }
    } else if infohi == 0x0f {
        if infolo == 0 { Some(v + infohi) } else if first { Some(v - infolo) } else { Some(v) }
    } else if fast || !first {
        if infolo == 0 { Some(v + infohi) } else { Some(v - infolo) }
    } else {
        None
    }
}

/// A volume slide moves the way its parameter says: on a tick after the
/// first, `Dx0` (`x` not 0) raises the value by `x` and `D0y` (`y` not 0)
/// lowers it by `y`; once kept to 0 to `hi` the value is then never below
/// (above) the old one, for an old value within 0 to `hi`.
pub proof fn lemma_vol_slide_direction(v: int, info: u8, fast: bool, hi: int)
    requires
        0 <= v <= hi,
    ensures
        info & 0x0f == 0 && info >> 4u8 != 0 ==> vol_slide(v, info, false, fast) == Some(v + (info >> 4u8))
            && clamp(v + (info >> 4u8), 0, hi) == (if v + (info >> 4u8) > hi { hi } else { v + (info >> 4u8) })
            && clamp(v + (info >> 4u8), 0, hi) >= v,
        info >> 4u8 == 0 && info & 0x0f != 0 ==> vol_slide(v, info, false, fast) == Some(v - (info & 0x0f))
            && clamp(v - (info & 0x0f), 0, hi) == (if v - (info & 0x0f) < 0 { 0 } else { v - (info & 0x0f) })
            && clamp(v - (info & 0x0f), 0, hi) <= v,
{
    assert(info >> 4u8 <= 15 && info & 0x0f <= 15) by (bit_vector);
}

/// The pan slide of a parameter on a tick (see `vol_slide`): the pan
/// moves left by `4 x` and right by `4 y`.
pub open spec fn pan_slide(v: int, info: u8, first: bool) -> Option<int> {
    let infohi = (info >> 4u8) as int;
    let infolo = (info & 0x0f) as int;
    if infolo == 0x0f {
        if infohi == 0 { Some(v + infolo * 4) } else if first { Some(v - infohi * 4) } else { Some(v) }
    } else if infohi == 0x0f {
        if infolo == 0 { Some(v - infohi * 4) } else if first { Some(v + infolo * 4) } else { Some(v) }
    } else if !first {
        if infolo == 0 { Some(v - infohi * 4) } else { Some(v + infolo * 4) }
    } else {
        None
    }
}

/// `v` kept to `lo` to `hi`.
pub open spec fn clamp(v: int, lo: int, hi: int) -> int {
    if v < lo { lo } else if v > hi { hi } else { v }
}

/// The channel of `p` at `i` after the vibrato (and its volume-slide
/// form) picked its parameter: a zero parameter or speed is the last one.
pub open spec fn vibrato_info(p: St3Play, c: Chn) -> Chn {
    if p.volslidetype == 1 {
        Chn { info: c.alasteff, ..c }
    } else {
        let ca = if c.info == 0 { Chn { info: c.alasteff, ..c } } else { c };
        let cb = if ca.info & 0xf0 == 0 { Chn { info: (ca.alasteff & 0xf0) | (ca.info & 0x0f), ..ca } } else { ca };
        Chn { alasteff: cb.info, ..cb }
    }
}

/// Hxy (and the vibrato of Kxy): the speed swung around the note's by
/// the wave, depth `y`.
pub open spec fn st3_vibrato(p: St3Play, i: int) -> (St3Play, Seq<MixerCmd>) {
    let c1 = vibrato_info(p, p.chn@[i]);
    st3_vib_apply(chn_set(p, i, c1), i, if p.oldstvib { 4 } else { 5 })
}

/// Uxy: the vibrato with a quarter of the depth.
pub open spec fn st3_finevibrato(p: St3Play, i: int) -> (St3Play, Seq<MixerCmd>) {
    let c = p.chn@[i];
    let ca = if c.info == 0 { Chn { info: c.alasteff, ..c } } else { c };
    let cb = if ca.info & 0xf0 == 0 { Chn { info: (ca.alasteff & 0xf0) | (ca.info & 0x0f), ..ca } } else { ca };
    let c1 = Chn { alasteff: cb.info, ..cb };
    st3_vib_apply(chn_set(p, i, c1), i, if p.oldstvib { 6 } else { 7 })
}

/// The vibrato step of channel `i` with the depth shifted right by `sh`.
pub open spec fn st3_vib_apply(p1: St3Play, i: int, sh: i64) -> (St3Play, Seq<MixerCmd>) {
    let c1 = p1.chn@[i];
    if c1.aorgspd == 0 {
        (p1, seq![])
    } else {
        let vtype = (c1.avibtretype & 0x0e) >> 1u8;
        let (dat, cnt) = st3_wave(p1, vtype, c1.avibcnt as usize);
        let d = (dat as i64).wrapping_mul((c1.info & 0x0f) as i64);
        let c2 = Chn { aspd: ((d >> sh) as i32).wrapping_add(c1.aorgspd), ..c1 };
        let (p3, k3) = st3_setspd(chn_set(p1, i, c2), i);
        let c3 = p3.chn@[i];
        (chn_set(p3, i, Chn { avibcnt: wave_count(cnt, c3.info), ..c3 }), k3)
    }
}

/// Rxy: the volume swung around the instrument's by the wave, depth `y`.
pub open spec fn st3_tremolo(p: St3Play, i: int) -> (St3Play, Seq<MixerCmd>) {
    let p0 = st3_getlastnfo(p, i);
    let c = p0.chn@[i];
    let ca = if c.info & 0xf0 == 0 { Chn { info: (c.alastnfo & 0xf0) | (c.info & 0x0f), ..c } } else { c };
    let c1 = Chn { alastnfo: ca.info, ..ca };
    let p1 = chn_set(p0, i, c1);
    if c1.aorgvol == 0 {
        (p1, seq![])
    } else {
        let (dat, cnt) = st3_wave(p1, c1.avibtretype >> 5u8, c1.avibcnt as usize);
        let d = ((dat as i64).wrapping_mul((c1.info & 0x0f) as i64) >> 7i64).wrapping_add(c1.aorgvol as i64);
        let (p3, k3) = st3_setvol(chn_set(p1, i, Chn { avol: clamp(d as int, 0, 63) as i8, ..c1 }), i);
        let c3 = p3.chn@[i];
        (chn_set(p3, i, Chn { avibcnt: wave_count(cnt, c3.info), ..c3 }), k3)
    }
}

/// Ixy: the volume on for `x` ticks and off for `y`.
pub open spec fn st3_tremor(p: St3Play, i: int) -> (St3Play, Seq<MixerCmd>) {
    let p0 = st3_getlastnfo(p, i);
    let c = p0.chn@[i];
    if c.atremor != 0 {
        (chn_set(p0, i, Chn { atremor: (c.atremor - 1) as u8, ..c }), seq![])
    } else if c.atreon {
        let (p2, k2) = st3_setvol(chn_set(p0, i, Chn { atreon: false, avol: 0, ..c }), i);
        let c2 = p2.chn@[i];
        (chn_set(p2, i, Chn { atremor: c2.info & 0x0f, ..c2 }), k2)
    } else {
        let (p2, k2) = st3_setvol(chn_set(p0, i, Chn { atreon: true, avol: c.aorgvol, ..c }), i);
        let c2 = p2.chn@[i];
        (chn_set(p2, i, Chn { atremor: c2.info >> 4u8, ..c2 }), k2)
    }
}

/// A semitone count past 11 carried into octaves.
pub open spec fn arp_carry(note: u8, octa: u8) -> (u8, u8)
    decreases note,
{
    if note >= 12 { arp_carry((note - 12) as u8, octa.wrapping_add(16)) } else { (note, octa) }
}

/// Jxy: the note, then `x` and `y` semitones above it, tick by tick.
pub open spec fn st3_arp(p: St3Play, i: int) -> (St3Play, Seq<MixerCmd>) {
    let p0 = st3_getlastnfo(p, i);
    let c = p0.chn@[i];
    let tick = p0.musiccount % 3;
    let noteadd: u8 = if tick == 1 { c.info >> 4u8 } else if tick == 2 { c.info & 0x0f } else { 0 };
    let (note, octa) = arp_carry(((c.lastnote & 0x0f) + noteadd) as u8, c.lastnote & 0xf0);
    let spd = stnote2herz(p0.tracker, octa | note) as int;
    st3_setspd(chn_set(p0, i, Chn { aspd: scalec2spd(p0.tracker, c.ac2spd, spd), ..c }), i)
}

/// Dxy: the volume slide (see `vol_slide`), then the vibrato of Kxy or
/// the portamento of Lxy.
pub open spec fn st3_volslide(p: St3Play, i: int) -> (St3Play, Seq<MixerCmd>) {
    let p1 = st3_getlastnfo(p, i);
    let c = p1.chn@[i];
    match vol_slide(c.avol as int, c.info, p1.musiccount == 0, p1.fastvolslide) {
        None => (p1, seq![]),
        Some(v) => {
            let (p3, k3) = st3_setvol(chn_set(p1, i, Chn { avol: clamp(v, 0, 63) as i8, ..c }), i);
            let (p4, k4) = if p3.volslidetype == 1 {
                st3_vibrato(p3, i)
            } else if p3.volslidetype == 2 {
                st3_toneslide(p3, i)
            } else {
                (p3, seq![])
            };
            (p4, k3 + k4)
        },
    }
}

/// Kxy: the volume slide with the vibrato.
pub open spec fn st3_vibvol(p: St3Play, i: int) -> (St3Play, Seq<MixerCmd>) {
    st3_volslide(St3Play { volslidetype: 1, ..p }, i)
}

/// Lxy: the volume slide with the tone portamento.
pub open spec fn st3_tonevol(p: St3Play, i: int) -> (St3Play, Seq<MixerCmd>) {
    st3_volslide(St3Play { volslidetype: 2, ..p }, i)
}

/// Exx (`up` false) and Fxx (`up` true): the speed down (period up) or up
/// by `4 xx` on each tick after the first, fine (`EFx`, by `4 x`) or extra
/// fine (`EEx`, by `x`) on the first tick, for a channel with a speed.
pub open spec fn st3_slide(p: St3Play, i: int, up: bool) -> (St3Play, Seq<MixerCmd>) {
    if p.chn@[i].aorgspd == 0 {
        (p, seq![])
    } else {
        let p1 = st3_getlastnfo(p, i);
        let c = p1.chn@[i];
        let step: Option<i32> = if p1.musiccount != 0 {
            if c.info >= 0xe0 { None } else { Some((c.info as i32 * 4) as i32) }
        } else if c.info <= 0xe0 {
            None
        } else if c.info <= 0xf0 {
            Some((c.info & 0x0f) as i32)
        } else {
            Some(((c.info & 0x0f) as i32 * 4) as i32)
        };
        match step {
            None => (p1, seq![]),
            Some(d) => {
                let a = if up {
                    let x = c.aspd.wrapping_sub(d);
                    if x < 0 { 0i32 } else { x }
                } else {
                    let x = c.aspd.wrapping_add(d);
                    if x > 32767 { 32767i32 } else { x }
                };
                st3_setspd(chn_set(p1, i, Chn { aspd: a, aorgspd: a, ..c }), i)
            },
        }
    }
}

/// The pitch slides move the channel's speed value (a period) the way
/// they say: on a tick after the first, without Amiga limits, Exx raises
/// it by `4 xx` to at most 32767 and Fxx lowers it by `4 xx` to at least 0,
/// for a parameter below 0xE0 and a value within 0 to 32767.
pub proof fn lemma_st3_slide_direction(p: St3Play, i: int)
    requires
        0 <= i < 32,
        !p.amigalimits,
        p.musiccount != 0,
        p.chn@[i].aorgspd != 0,
        0 < p.chn@[i].info < 0xe0,
        0 <= p.chn@[i].aspd <= 32767,
    ensures
        ({
            let c = p.chn@[i];
            let d = 4 * c.info as int;
            let down = st3_slide(p, i, false).0.chn@[i].aspd;
            let up = st3_slide(p, i, true).0.chn@[i].aspd;
            &&& down == (if c.aspd + d > 32767 { 32767 } else { c.aspd + d }) && down >= c.aspd
            &&& up == (if c.aspd - d < 0 { 0 } else { c.aspd - d }) && up <= c.aspd
        }),
{
}

/// The number of halvings of `lastspd` (at most 15) until it falls below
/// `newspd` or to zero.
pub open spec fn rs_octa(lastspd: i32, newspd: i32, octa: u8) -> u8
    decreases 15 - octa,
{
    if lastspd >= newspd && lastspd > 0 && octa < 15 { rs_octa((lastspd / 2) as i32, newspd, (octa + 1) as u8) } else { octa }
}

/// The note from `newnote` on (below 11) whose speed in octave `octa` is
/// nearest to `newspd`, or `lastnote` where none is nearer than `lastspd`.
pub open spec fn rs_note(octa: u8, newspd: i32, newnote: int, lastnote: int, lastspd: int) -> int
    decreases 11 - newnote,
{
    if newnote >= 11 || newnote < 0 {
        lastnote
    } else {
        let d = (notespd()[newnote] >> octa) as int - newspd;
        let note = if d < 0 { -d } else { d };
        if note < lastspd {
            rs_note(octa, newspd, newnote + 1, newnote, note)
        } else {
            rs_note(octa, newspd, newnote + 1, lastnote, lastspd)
        }
    }
}

/// The speed of the note nearest to `spd` on channel `ch` (for a
/// glissando slide).
pub open spec fn st3_roundspd(p: St3Play, ch: int, spd: i32) -> i32 {
    let c2 = p.chn@[ch].ac2spd;
    let n0 = spd.wrapping_mul(c2);
    if p.tracker == SCREAM_TRACKER && tdiv(n0 as int, 65536) >= 8363 {
        spd
    } else {
        let newspd = tdiv(n0 as int, 8363) as i32;
        let octa = rs_octa(((1712 * 8 + 907 * 16) / 2) as i32, newspd, 0);
        let lastnote = rs_note(octa, newspd, 0, 0, if p.tracker == SCREAM_TRACKER { 32767int } else { 65534int });
        let n = (((octa as u32) << 4u32) as u8) | (lastnote as u8 & 0x0f);
        let ns = stnote2herz(p.tracker, n) as int * 8363;
        if p.tracker == SCREAM_TRACKER && tdiv(ns, 65536) >= c2 {
            spd
        } else if c2 != 0 {
            tdiv(ns, c2 as int) as i32
        } else {
            ns as i32
        }
    }
}

/// Gxx: the speed slid toward the note's by `4 xx` a tick (a zero
/// parameter is the last one), rounded to a note under glissando.
pub open spec fn st3_toneslide(p: St3Play, i: int) -> (St3Play, Seq<MixerCmd>) {
    let c = p.chn@[i];
    let r: Option<Chn> = if p.volslidetype == 2 {
        Some(Chn { info: c.alasteff1, ..c })
    } else if c.aorgspd == 0 && c.asldspd == 0 {
        None
    } else {
        let c1 = if c.aorgspd == 0 { Chn { aorgspd: c.asldspd, aspd: c.asldspd, ..c } } else { c };
        Some(if c1.info == 0 { Chn { info: c1.alasteff1, ..c1 } } else { Chn { alasteff1: c1.info, ..c1 } })
    };
    match r {
        None => (p, seq![]),
        Some(c2) => {
            let p1 = chn_set(p, i, c2);
            if c2.aorgspd == c2.asldspd {
                (p1, seq![])
            } else {
                let o = if c2.aorgspd < c2.asldspd {
                    let a = c2.aorgspd.wrapping_add((c2.info as i32 * 4) as i32);
                    if a > c2.asldspd { c2.asldspd } else { a }
                } else {
                    let a = c2.aorgspd.wrapping_sub((c2.info as i32 * 4) as i32);
                    if a < c2.asldspd { c2.asldspd } else { a }
                };
                let c3 = Chn { aorgspd: o, ..c2 };
                let p2 = chn_set(p1, i, c3);
                let rs = if c3.aglis { st3_roundspd(p2, i, o) } else { o };
                st3_setspd(chn_set(p2, i, Chn { aspd: rs, ..c3 }), i)
            }
        },
    }
}

/// Nxy: the channel volume slide (see `vol_slide`, never fast), kept to
/// 0 to 64, for the extended trackers; a zero parameter is the last one.
pub open spec fn st3_chanvolslide(p: St3Play, i: int) -> (St3Play, Seq<MixerCmd>) {
    let c = p.chn@[i];
    if !st3_extended(p) {
        (p, seq![])
    } else {
        let c1 = if c.info != 0 { Chn { nxymem: c.info, ..c } } else { Chn { info: c.nxymem, ..c } };
        let p1 = chn_set(p, i, c1);
        match vol_slide(c1.chanvol as int, c1.nxymem, p.musiccount == 0, false) {
            None => (p1, seq![]),
            Some(v) => st3_setvol(chn_set(p1, i, Chn { chanvol: clamp(v, 0, 64) as i8, ..c1 }), i),
        }
    }
}

/// Pxy: the pan slide, `x` left and `y` right in steps of 4, kept to 0
/// to 256, for the extended trackers; a zero parameter is the last one.
pub open spec fn st3_panslide(p: St3Play, i: int) -> (St3Play, Seq<MixerCmd>) {
    let c = p.chn@[i];
    if !st3_extended(p) {
        (p, seq![])
    } else {
        let c1 = if c.info != 0 { Chn { pxymem: c.info, ..c } } else { Chn { info: c.pxymem, ..c } };
        let p1 = chn_set(p, i, c1);
        match pan_slide(c1.apanpos as int, c1.pxymem, p.musiccount == 0) {
            None => (p1, seq![]),
            Some(v) => {
                let c2 = Chn { apanpos: clamp(v, 0, 256) as i16, ..c1 };
                (chn_set(p1, i, c2), setvol_cmds(p1, c2, i))
            },
        }
    }
}

/// Qxy: retrigger the note every `y` ticks with the volume change `x`.
pub open spec fn st3_retrig(p: St3Play, i: int) -> (St3Play, Seq<MixerCmd>) {
    let p0 = st3_getlastnfo(p, i);
    let c = p0.chn@[i];
    if c.info & 0x0f == 0 || c.atrigcnt < (c.info & 0x0f) {
        (chn_set(p0, i, Chn { atrigcnt: c.atrigcnt.wrapping_add(1), ..c }), seq![])
    } else {
        let ih = (c.info >> 4u8) as int;
        let v = c.avol as int;
        let m = retrig_table()[16 + ih] as int;
        let v1 = if m == 0 { v + retrig_table()[ih] as int } else { tdiv(v * m, 16) };
        let (p2, k2) = st3_setvol(chn_set(p0, i, Chn { atrigcnt: 0, avol: clamp(v1, 0, 63) as i8, ..c }), i);
        let c2 = p2.chn@[i];
        (chn_set(p2, i, Chn { atrigcnt: c2.atrigcnt.wrapping_add(1), ..c2 }),
            seq![MixerCmd::SetVoicePos(i as usize, 0)] + k2)
    }
}

/// Txx: a tempo of 0x20 or more on the first tick; for the extended
/// trackers also the last tempo for T00 and tempo slides `T0x` (down)
/// and `T1x` (up) on the later ticks, kept to 32 to 255.
pub open spec fn st3_s_settempo(p: St3Play, i: int) -> St3Play {
    let c = p.chn@[i];
    let p1 = if p.musiccount == 0 && c.info >= 0x20 { St3Play { tempo: c.info as i16, ..p } } else { p };
    let p2 = if !st3_extended(p1) {
        p1
    } else if p1.musiccount == 0 {
        if c.info == 0 { chn_set(p1, i, Chn { info: c.txxmem, ..c }) } else { chn_set(p1, i, Chn { txxmem: c.info, ..c }) }
    } else if c.info <= 0x0f {
        let t = p1.tempo as int - c.info as int;
        St3Play { tempo: (if t < 32 { 32 } else { t }) as i16, ..p1 }
    } else if c.info <= 0x1f {
        let t = p1.tempo as int + c.info as int - 0x10;
        St3Play { tempo: (if t > 255 { 255 } else { t }) as i16, ..p1 }
    } else {
        p1
    };
    st3_settempo(p2, p2.tempo as u16)
}

/// The volumes of channels `k` to `n - 1` set again, in order.
pub open spec fn st3_setvols(p: St3Play, k: int, n: int) -> (St3Play, Seq<MixerCmd>)
    decreases n - k,
{
    if k >= n {
        (p, seq![])
    } else {
        let (p1, k1) = st3_setvol(p, k);
        let (p2, k2) = st3_setvols(p1, k + 1, n);
        (p2, k1 + k2)
    }
}

/// Wxy: the global volume slide (see `vol_slide`, never fast), kept to 0
/// to 64, then every channel in use takes it, for the extended trackers;
/// a zero parameter is the last one.
pub open spec fn st3_globvolslide(p: St3Play, i: int) -> (St3Play, Seq<MixerCmd>) {
    let c = p.chn@[i];
    if !st3_extended(p) {
        (p, seq![])
    } else {
        let c1 = if c.info != 0 { Chn { wxymem: c.info, ..c } } else { Chn { info: c.wxymem, ..c } };
        let p1 = chn_set(p, i, c1);
        match vol_slide(p.globalvol as int, c1.wxymem, p.musiccount == 0, false) {
            None => (p1, seq![]),
            Some(v) => {
                let p2 = St3Play { globalvol: clamp(v, 0, 64) as i16, ..p1 };
                st3_setvols(p2, 0, p2.lastachannelused as int + 1)
            },
        }
    }
}

/// Yxy: the pan swung around the channel's by the wave, depth `y`, for
/// the extended trackers; the parameter's nibbles default to the last
/// ones on the first tick.
pub open spec fn st3_panbrello(p: St3Play, i: int) -> (St3Play, Seq<MixerCmd>) {
    let c = p.chn@[i];
    if !st3_extended(p) {
        (p, seq![])
    } else {
        let c1 = if p.musiccount == 0 {
            let ca = if c.info == 0 { Chn { info: c.alasteff, ..c } } else { Chn { yxymem: c.info, ..c } };
            let cb = if ca.info & 0xf0 == 0 { Chn { info: (ca.yxymem & 0xf0) | (ca.info & 0x0f), ..ca } } else { ca };
            if cb.info & 0x0f == 0 { Chn { info: (cb.info & 0xf0) | (cb.yxymem & 0x0f), ..cb } } else { cb }
        } else {
            c
        };
        let (dat, cnt) = st3_wave(p, c1.apantype, c1.apancnt as usize);
        let d = ((dat as i64).wrapping_mul((c1.info & 0x0f) as i64) >> 4i64).wrapping_add(c1.apanpos as i64);
        let d2 = clamp(d as int, 0, 256);
        let c2 = Chn { apancnt: ((cnt.wrapping_add((((c1.info >> 6u8) as usize) * 2) as usize)) & 0x7e) as i16, ..c1 };
        (chn_set(p, i, c2), seq![MixerCmd::SetPan(i as usize, (d2 - 128) as isize)])
    }
}

/// The new note of channel `ch` carried out (see `st3_doamiga_chn`).
pub open spec fn st3_doamiga(p: St3Play, ch: int, module: S3mData) -> (St3Play, Seq<MixerCmd>) {
    let (c1, k) = st3_doamiga_chn(p, ch, module);
    (chn_set(p, ch, c1), k)
}

/// The event of channel `i` taken up: a delayed note (`flag`) marks the
/// channel in use; else the channel counts toward the last one in use
/// and, unless it delays its note (SDx), the note is carried out.
pub open spec fn st3_donewnote(p: St3Play, i: int, flag: bool, module: S3mData) -> (St3Play, Seq<MixerCmd>) {
    let c = p.chn@[i];
    if flag {
        st3_doamiga(chn_set(p, i, Chn { achannelused: 0x81, ..c }), i, module)
    } else {
        let num = c.channelnum;
        let l = if num > p.lastachannelused {
            let l1 = num.wrapping_add(1);
            if l1 > 31 { 31u8 } else { l1 }
        } else {
            p.lastachannelused
        };
        let p1 = chn_set(St3Play { lastachannelused: l, ..p }, i, Chn { achannelused: 0x01, ..c });
        if c.cmd == 19 && (c.info & 0xf0) == 0xd0 { (p1, seq![]) } else { st3_doamiga(p1, i, module) }
    }
}

/// The note delay counted down by one tick; the note starts when it ends.
pub open spec fn st3_notedelayb(p: St3Play, i: int, module: S3mData) -> (St3Play, Seq<MixerCmd>) {
    let c = p.chn@[i];
    if c.anotedelaycnt == 0 {
        (p, seq![])
    } else {
        let p1 = chn_set(p, i, Chn { anotedelaycnt: (c.anotedelaycnt - 1) as u8, ..c });
        if c.anotedelaycnt == 1 { st3_donewnote(p1, i, true, module) } else { (p1, seq![]) }
    }
}

/// The first tick of an S command, by the parameter's high nibble.
pub open spec fn st3_ssoncejmp(p: St3Play, i: int) -> (St3Play, Seq<MixerCmd>) {
    let k = p.chn@[i].info >> 4u8;
    if k == 0x1 { (st3_setgliss(p, i), seq![]) }
    else if k == 0x2 { (st3_setfinetune(p, i), seq![]) }
    else if k == 0x3 { (st3_setvibwave(p, i), seq![]) }
    else if k == 0x4 { (st3_settrewave(p, i), seq![]) }
    else if k == 0x5 { (st3_setpanwave(p, i), seq![]) }
    else if k == 0x6 { (st3_tickdelay(p, i), seq![]) }
    else if k == 0x8 { st3_setpanpos(p, i) }
    else if k == 0x9 { (st3_sndcntrl(p, i), seq![]) }
    else if k == 0xb { (st3_patloop(p, i), seq![]) }
    else if k == 0xc { (st3_notecut(p, i), seq![]) }
    else if k == 0xd { (st3_notedelay(p, i), seq![]) }
    else if k == 0xe { (st3_patterdelay(p, i), seq![]) }
    else { (p, seq![]) }
}

/// The later ticks of an S command: note cut and note delay count down.
pub open spec fn st3_ssotherjmp(p: St3Play, i: int, module: S3mData) -> (St3Play, Seq<MixerCmd>) {
    let k = p.chn@[i].info >> 4u8;
    if k == 0xc { (st3_notecutb(p, i), seq![]) }
    else if k == 0xd { st3_notedelayb(p, i, module) }
    else { (p, seq![]) }
}

/// The first tick of the command of channel `i` (commands are letters
/// counted from `A` as 1).
#[verifier::opaque]
pub open spec fn st3_soncejmp(p: St3Play, i: int) -> (St3Play, Seq<MixerCmd>) {
    let k = p.chn@[i].cmd;
    if k == 1 { (st3_s_setspeed(p, i), seq![]) }
    else if k == 2 { (st3_jmpto(p, i), seq![]) }
    else if k == 3 { (st3_break(p, i), seq![]) }
    else if k == 4 { st3_volslide(p, i) }
    else if k == 5 { st3_slide(p, i, false) }
    else if k == 6 { st3_slide(p, i, true) }
    else if k == 9 { st3_tremor(p, i) }
    else if k == 10 { st3_arp(p, i) }
    else if k == 13 { st3_chanvol(p, i) }
    else if k == 14 { st3_chanvolslide(p, i) }
    else if k == 16 { st3_panslide(p, i) }
    else if k == 17 { st3_retrig(p, i) }
    else if k == 19 { st3_ssoncejmp(st3_getlastnfo(p, i), i) }
    else if k == 20 { (st3_s_settempo(p, i), seq![]) }
    else if k == 23 { st3_globvolslide(p, i) }
    else if k == 24 { st3_s_setpan(p, i) }
    else if k == 25 { st3_panbrello(p, i) }
    else { (p, seq![]) }
}

/// A later tick of the command of channel `i`.
#[verifier::opaque]
pub open spec fn st3_sotherjmp(p: St3Play, i: int, module: S3mData) -> (St3Play, Seq<MixerCmd>) {
    let k = p.chn@[i].cmd;
    if k == 4 { st3_volslide(p, i) }
    else if k == 5 { st3_slide(p, i, false) }
    else if k == 6 { st3_slide(p, i, true) }
    else if k == 7 { st3_toneslide(p, i) }
    else if k == 8 { st3_vibrato(p, i) }
    else if k == 9 { st3_tremor(p, i) }
    else if k == 10 { st3_arp(p, i) }
    else if k == 11 { st3_vibvol(p, i) }
    else if k == 12 { st3_tonevol(p, i) }
    else if k == 14 { st3_chanvolslide(p, i) }
    else if k == 16 { st3_panslide(p, i) }
    else if k == 17 { st3_retrig(p, i) }
    else if k == 18 { st3_tremolo(p, i) }
    else if k == 19 { st3_ssotherjmp(st3_getlastnfo(p, i), i, module) }
    else if k == 20 { (st3_s_settempo(p, i), seq![]) }
    else if k == 21 { st3_finevibrato(p, i) }
    else if k == 22 { (st3_setgvol(p, i), seq![]) }
    else if k == 23 { st3_globvolslide(p, i) }
    else if k == 25 { st3_panbrello(p, i) }
    else { (p, seq![]) }
}

/// The speed of channel `i` back to its note's, where a vibrato or
/// arpeggio moved it.
pub open spec fn st3_restore_spd(p: St3Play, i: int, c: Chn) -> (St3Play, Seq<MixerCmd>) {
    if c.aspd != c.aorgspd { st3_setspd(chn_set(p, i, Chn { aspd: c.aorgspd, ..c }), i) } else { (chn_set(p, i, c), seq![]) }
}

/// The first tick of a row on channel `i`, where it is in use: the last
/// parameter remembered; with a command, the effect counters that the
/// command does not continue reset and its first tick played; without
/// one, the pan set again (not for Scream Tracker) and the speed back to
/// the note's.
pub open spec fn st3_cmd1_chn(p: St3Play, i: int) -> (St3Play, Seq<MixerCmd>) {
    let c = p.chn@[i];
    if c.achannelused == 0 {
        (p, seq![])
    } else {
        let c1 = if c.info != 0 { Chn { alastnfo: c.info, ..c } } else { c };
        let cmd = c1.cmd;
        if cmd != 0 {
            let c2 = Chn { achannelused: c1.achannelused | 0x80, ..c1 };
            let (pa, ka) = if cmd == 4 {
                st3_restore_spd(p, i, Chn { atrigcnt: 0, ..c2 })
            } else {
                let c3 = if cmd != 9 { Chn { atremor: 0, atreon: true, ..c2 } } else { c2 };
                let c4 = if cmd != 8 && cmd != 21 && cmd != 11 && cmd != 18 {
                    Chn { avibcnt: c3.avibcnt | 0x80, ..c3 }
                } else {
                    c3
                };
                let c5 = if st3_extended(p) && cmd != 25 { Chn { apancnt: c4.apancnt | 0x80, ..c4 } } else { c4 };
                (chn_set(p, i, c5), seq![])
            };
            if cmd < 27 {
                let (pb, kb) = st3_soncejmp(St3Play { volslidetype: 0, ..pa }, i);
                (pb, ka + kb)
            } else {
                (pa, ka)
            }
        } else {
            let k0 = if p.tracker != SCREAM_TRACKER { setvol_cmds(p, c1, i) } else { seq![] };
            let (pb, kb) = st3_restore_spd(p, i, Chn { atrigcnt: 0, ..c1 });
            (pb, k0 + kb)
        }
    }
}

/// The first tick of a row on channels `i` to `n - 1`, in order.
pub open spec fn st3_cmd1_from(p: St3Play, i: int, n: int) -> (St3Play, Seq<MixerCmd>)
    decreases n - i,
{
    if i >= n {
        (p, seq![])
    } else {
        let (p1, k1) = st3_cmd1_chn(p, i);
        let (p2, k2) = st3_cmd1_from(p1, i + 1, n);
        (p2, k1 + k2)
    }
}

/// A later tick on channel `i`, where it is in use and has a command.
pub open spec fn st3_cmd2_chn(p: St3Play, i: int, module: S3mData) -> (St3Play, Seq<MixerCmd>) {
    let c = p.chn@[i];
    if c.achannelused == 0 || c.cmd == 0 {
        (p, seq![])
    } else {
        let p1 = chn_set(p, i, Chn { achannelused: c.achannelused | 0x80, ..c });
        if c.cmd < 27 { st3_sotherjmp(St3Play { volslidetype: 0, ..p1 }, i, module) } else { (p1, seq![]) }
    }
}

/// A later tick on channels `i` to `n - 1`, in order.
pub open spec fn st3_cmd2_from(p: St3Play, i: int, n: int, module: S3mData) -> (St3Play, Seq<MixerCmd>)
    decreases n - i,
{
    if i >= n {
        (p, seq![])
    } else {
        let (p1, k1) = st3_cmd2_chn(p, i, module);
        let (p2, k2) = st3_cmd2_from(p1, i + 1, n, module);
        (p2, k1 + k2)
    }
}

/// The bytes that follow a packed event's flag byte: note and
/// instrument, volume, command and info, as the flags have them.
pub open spec fn flag_len(dat: u8) -> int {
    (if dat & 0x20 != 0 { 2int } else { 0 }) + (if dat & 0x40 != 0 { 1int } else { 0 })
        + (if dat & 0x80 != 0 { 2int } else { 0 })
}

/// The place in the packed pattern `data` after `rows` more row ends from
/// `j` (or the end of the data).
pub open spec fn sp_skip(data: Seq<u8>, rows: int, j: int) -> int
    decreases data.len() + 6 - j,
{
    if rows == 0 || j >= data.len() || j < 0 {
        j
    } else if data[j] == 0 {
        sp_skip(data, rows - 1, j + 1)
    } else {
        sp_skip(data, rows, j + 1 + flag_len(data[j]))
    }
}

/// The current pattern found where it is not yet: its segment, and for a
/// row past the first the place of the row in its packed data.
pub open spec fn st3_seekpat(p: St3Play, module: S3mData) -> St3Play {
    if p.np_patoff != -1 {
        p
    } else {
        let pat = p.np_pat;
        let seg: usize = if pat >= 0 && (pat as usize) < module.pattern_pp@.len() {
            module.pattern_pp@[pat as int].wrapping_mul(16) as usize
        } else {
            0
        };
        let p1 = St3Play { np_patseg: seg, ..p };
        if seg == 0 {
            p1
        } else {
            let j = if p.np_row > 0 && (pat as usize) < module.patterns@.len() {
                sp_skip(module.patterns@[pat as int].data@, p.np_row as int, 2)
            } else {
                2
            };
            St3Play { np_patoff: (if j <= 0x7fff_ffff { j } else { 0x7fff_ffff }) as i32, ..p1 }
        }
    }
}

/// From byte `i` of the packed row: the place after the flag byte of the
/// next event of an enabled channel and that channel, or the place after
/// the row's end (or past the data) and 255.
pub open spec fn gn_scan(data: Seq<u8>, settings: Seq<u8>, i: int) -> (int, int)
    decreases data.len() + 6 - i,
{
    if i < 0 || i >= data.len() {
        (i, 255)
    } else if data[i] == 0 {
        (i + 1, 255)
    } else if settings[(data[i] & 0x1f) as int] & 0x80 == 0 {
        (i + 1, (data[i] & 0x1f) as int)
    } else {
        gn_scan(data, settings, i + 1 + flag_len(data[i]))
    }
}

/// The next event of the current row read into its channel: note and
/// instrument (remembered as the last ones), volume, command and info,
/// where the flag byte has them and the data holds them; the channel, or
/// 255 at the end of the row.
pub open spec fn st3_getnote(p: St3Play, module: S3mData) -> (St3Play, int) {
    if p.np_patseg == 0 || p.np_pat < 0 || p.np_pat as usize >= module.pat_num as usize
        || p.np_pat as usize >= module.patterns@.len() || p.np_patoff < 0 {
        (p, 255)
    } else {
        let data = module.patterns@[p.np_pat as int].data@;
        let (i, ch) = gn_scan(data, module.ch_settings@, p.np_patoff as int);
        if ch == 255 {
            (St3Play { np_patoff: (if i <= 0x7fff_ffff { i } else { 0x7fff_ffff }) as i32, ..p }, 255)
        } else {
            let dat = data[i - 1];
            let c = p.chn@[ch];
            let c1 = if dat & 0x20 != 0 && i + 2 <= data.len() {
                let ca = Chn { note: data[i], ins: data[i + 1], ..c };
                let cb = if ca.note != 255 { Chn { lastnote: ca.note, ..ca } } else { ca };
                if cb.ins != 0 { Chn { lastins: cb.ins, ..cb } } else { cb }
            } else {
                c
            };
            let i1 = if dat & 0x20 != 0 { i + 2 } else { i };
            let c2 = if dat & 0x40 != 0 && i1 < data.len() { Chn { vol: data[i1], ..c1 } } else { c1 };
            let i2 = if dat & 0x40 != 0 { i1 + 1 } else { i1 };
            let c3 = if dat & 0x80 != 0 && i2 + 2 <= data.len() {
                Chn { cmd: data[i2], info: data[i2 + 1], ..c2 }
            } else {
                c2
            };
            let i3 = if dat & 0x80 != 0 { i2 + 2 } else { i2 };
            let p1 = chn_set(p, ch, c3);
            if i3 > 0x7fff_ffff {
                (St3Play { np_patoff: 0x7fff_ffff, ..p1 }, 255)
            } else {
                (St3Play { np_patoff: i3 as i32, ..p1 }, ch)
            }
        }
    }
}

/// A channel before its row: no note, volume, instrument or command.
pub open spec fn cleared(c: Chn) -> Chn {
    Chn { note: 255, vol: 255, ins: 0, cmd: 0, info: 0, ..c }
}

/// Channels `i` to 31 cleared for a new row.
pub open spec fn st3_clear_from(p: St3Play, i: int) -> St3Play
    decreases 32 - i,
{
    if i >= 32 || i < 0 { p } else { st3_clear_from(chn_set(p, i, cleared(p.chn@[i])), i + 1) }
}

/// The rest of the row's events read and carried out on their channels
/// (not on AdLib channels), in order.
pub open spec fn st3_notes_loop(p: St3Play, module: S3mData) -> (St3Play, Seq<MixerCmd>)
    decreases 0x8000_0000 - p.np_patoff,
{
    let (p1, ch) = st3_getnote(p, module);
    if ch == 255 || p1.np_patoff <= p.np_patoff || ch < 0 || ch >= 32 {
        (p1, seq![])
    } else {
        let (p2, k2) = if module.ch_settings@[ch] & 0x7f <= 15 {
            st3_donewnote(p1, ch, false, module)
        } else {
            (p1, seq![])
        };
        if p2.np_patoff != p1.np_patoff {
            (p2, k2)
        } else {
            let (p3, k3) = st3_notes_loop(p2, module);
            (p3, k2 + k3)
        }
    }
}

/// The events of a new row: every channel cleared, the row found, then
/// each event carried out.
pub open spec fn st3_donotes(p: St3Play, module: S3mData) -> (St3Play, Seq<MixerCmd>) {
    st3_notes_loop(st3_seekpat(st3_clear_from(p, 0), module), module)
}

/// One step to the next order: past the list, past the song length or
/// at an end marker back to the first.
pub open spec fn no_step(p: St3Play, module: S3mData) -> St3Play {
    let n = module.orders@.len();
    let o = p.np_ord.wrapping_add(1);
    let o2: i16 = if o < 1 || o as usize > n || module.orders@[o - 1] == 255 || o as usize > module.ord_num as usize {
        1
    } else {
        o
    };
    St3Play { np_ord: o2, ..p }
}

/// Steps to the next order, over skip markers (254), at most once per
/// entry of the list from `guard` on.
pub open spec fn no_loop(p: St3Play, module: S3mData, guard: int) -> St3Play
    decreases module.orders@.len() - guard,
{
    if guard >= module.orders@.len() {
        p
    } else {
        let p1 = no_step(p, module);
        if module.orders@[p1.np_ord - 1] != 254 { p1 } else { no_loop(p1, module, guard + 1) }
    }
}

/// The next order taken: its pattern from the start (the break row), the
/// randomizer, pattern loop and jump cleared.
pub open spec fn st3_neworder(p: St3Play, module: S3mData) -> St3Play {
    let n = module.orders@.len();
    let p1 = no_loop(p, module, 0);
    let o: i16 = if p1.np_ord < 1 || p1.np_ord as usize > n { 1 } else { p1.np_ord };
    St3Play {
        np_ord: o,
        np_pat: module.orders@[o - 1] as i16,
        np_patoff: -1i32,
        np_row: p1.startrow as i16,
        startrow: 0,
        patmusicrand: 0,
        patloopstart: -1i16,
        jumptorow: -1i16,
        ..p1
    }
}

/// One tick of the replay: the randomizer advanced; on a row's first
/// tick its events read and the first tick of every command played (a
/// pattern delay plays the row's commands again without its events); on
/// a later tick the later ticks of the commands; then the tick count
/// advanced, and after the row's last tick the next row, the jump target
/// or the next order (a Bxx with 255 ends the song there).
pub open spec fn st3_dorow(p: St3Play, module: S3mData) -> (St3Play, Seq<MixerCmd>) {
    let p0 = St3Play { patmusicrand: st3_rand(p.patmusicrand), ..p };
    let (p1, k1) = if p0.musiccount == 0 {
        if p0.patterndelay != 0 {
            let q0 = St3Play { np_row: p0.np_row.wrapping_sub(1), ..p0 };
            let (q, k) = st3_cmd1_from(q0, 0, q0.lastachannelused + 1);
            (St3Play { patterndelay: q.patterndelay.wrapping_sub(1), ..q }, k)
        } else {
            let (q1, k1) = st3_donotes(p0, module);
            let (q2, k2) = st3_cmd1_from(q1, 0, q1.lastachannelused + 1);
            (q2, k1 + k2)
        }
    } else {
        st3_cmd2_from(p0, 0, p0.lastachannelused + 1, module)
    };
    let p2 = St3Play { musiccount: p1.musiccount.wrapping_add(1), ..p1 };
    if p2.musiccount >= p2.musicmax.wrapping_add(p2.tickdelay as u8) {
        let p3 = St3Play { tickdelay: 0, np_row: p2.np_row.wrapping_add(1), ..p2 };
        let p4 = if p3.jumptorow != -1 { St3Play { np_row: p3.jumptorow, jumptorow: -1i16, ..p3 } } else { p3 };
        if p4.np_row >= 64 || (p4.patloopcount == 0 && p4.breakpat != 0) {
            if p4.breakpat == 255 {
                (St3Play { breakpat: 0, ..p4 }, k1)
            } else {
                let p5 = st3_neworder(St3Play { breakpat: 0, ..p4 }, module);
                (St3Play { musiccount: 0, ..p5 }, k1)
            }
        } else {
            (St3Play { musiccount: 0, ..p4 }, k1)
        }
    } else {
        (p2, k1)
    }
}

/// The module header's settings: speed (6 where 0 or 255), tempo (125
/// where 32 or below), global volume (at most 64; 64 where 255), the
/// tracker from the creator version, Amiga limits and fast volume
/// slides from the flags (fast slides always for Scream Tracker 3.00),
/// and the old vibrato depth.
pub open spec fn st3_header(p: St3Play, module: S3mData) -> St3Play {
    let p0 = st3_settempo(st3_setspeed(St3Play { oldstvib: false, ..p }, 6), 125);
    let p1 = St3Play {
        aspdmin: 64, aspdmax: 32767, globalvol: 64, amigalimits: false, fastvolslide: false,
        tracker: (module.cwt_v >> 12u16) as u8, ..p0
    };
    let p2 = if module.i_t != 0 { st3_settempo(p1, module.i_t as u16) } else { p1 };
    let p3 = if module.i_s != 255 { st3_setspeed(p2, module.i_s) } else { p2 };
    let p4 = if module.g_v != 255 {
        St3Play { globalvol: if module.g_v > 64 { 64i16 } else { module.g_v as i16 }, ..p3 }
    } else {
        p3
    };
    let p5 = if module.flags & 0xff != 255 {
        let al = module.flags & 0x10 != 0;
        let q = St3Play { amigalimits: al, fastvolslide: module.flags & 0x40 != 0, ..p4 };
        if al { St3Play { aspdmax: 3424i32, aspdmin: 453i32, ..q } } else { q }
    } else {
        p4
    };
    let p6 = if module.cwt_v == 0x1300 { St3Play { fastvolslide: true, ..p5 } } else { p5 };
    St3Play { oldstvib: module.flags & 0x01 != 0, ..p6 }
}

/// Channels `i` to 31 numbered, in use, at full channel volume.
pub open spec fn st3_number_from(p: St3Play, i: int) -> St3Play
    decreases 32 - i,
{
    if i >= 32 || i < 0 {
        p
    } else {
        let c = p.chn@[i];
        st3_number_from(chn_set(p, i, Chn { channelnum: i as u8, achannelused: 0x80, chanvol: 0x40, ..c }), i + 1)
    }
}

/// The replayer `p` prepared for `module`: the header's settings, the
/// channels numbered, the last channel in use 1, and the first order.
pub open spec fn st3_start(p: St3Play, module: S3mData) -> St3Play {
    let p1 = st3_number_from(st3_header(p, module), 0);
    st3_neworder(St3Play { lastachannelused: 1, np_ord: 0, ..p1 }, module)
}

/// Numbering the channels leaves everything but the channels.
pub proof fn lemma_number_from_fields(p: St3Play, i: int)
    ensures
        st3_number_from(p, i) == (St3Play { chn: st3_number_from(p, i).chn, ..p }),
    decreases 32 - i,
{
    if 0 <= i < 32 {
        let c = p.chn@[i];
        lemma_number_from_fields(chn_set(p, i, Chn { channelnum: i as u8, achannelused: 0x80, chanvol: 0x40, ..c }), i + 1);
    }
}

/// The replayer with every value zero.
pub open spec fn st3_zero() -> St3Play {
    St3Play {
        tickdelay: 0, volslidetype: 0, patterndelay: 0, patloopcount: 0, breakpat: 0, startrow: 0,
        musiccount: 0, np_ord: 0, np_row: 0, np_pat: 0, np_patoff: 0, patloopstart: 0, jumptorow: 0,
        patmusicrand: 0, aspdmax: 0, aspdmin: 0, np_patseg: 0,
        chn: spec_array_fill_for_copy_type::<Chn, 32>(st3_zero_channel()), soundcardtype: 0,
        lastachannelused: 0, tracker: 0, oldstvib: false, fastvolslide: false, amigalimits: false,
        musicmax: 0, tempo: 0, globalvol: 0, stereomode: 0, mastervol: 0,
    }
}

/// Stepping through the order list changes the order only.
pub proof fn lemma_no_loop_fields(p: St3Play, module: S3mData, guard: int)
    ensures
        no_loop(p, module, guard) == (St3Play { np_ord: no_loop(p, module, guard).np_ord, ..p }),
    decreases module.orders@.len() - guard,
{
    if guard < module.orders@.len() {
        lemma_no_loop_fields(no_step(p, module), module, guard + 1);
    }
}

} // verus!
