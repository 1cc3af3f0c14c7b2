//! The Scream Tracker 3 replayer (st3play 0.78, a C rendering of Scream
//! Tracker 3.21's replayer). Each tick turns into mixer commands; the
//! speed and the volume product go to the mixer unscaled
//! (`SetQuarterPeriod`, `SetScaledVolume`).

pub mod import;
pub mod tick;

use vstd::prelude::*;
use vstd::array::array_fill_for_copy_types;
use crate::format::s3m::{S3mData, S3mInstrument};
use crate::player::{MixerCmd, PlayerData};
use crate::player::st3::tick::{chn_set, lemma_chn_set, st3_setgliss, st3_setspd, st3_setvol, st3_getlastnfo,
    st3_setspeed, st3_settempo, st3_setfinetune, st3_setvibwave, st3_settrewave, st3_setpanwave, st3_tickdelay,
    st3_setpanpos, st3_sndcntrl, st3_notecut, st3_notecutb, st3_notedelay, st3_patterdelay, st3_s_setspeed,
    st3_jmpto, st3_break, st3_setgvol, st3_s_setpan, st3_chanvol, vibsin_table, vibramp_table, retrig_table,
    st3_wave, st3_vibrato, st3_finevibrato, st3_vib_apply, st3_tremolo, st3_tremor, st3_arp, arp_carry, st3_volslide,
    st3_toneslide, st3_roundspd, rs_octa, rs_note, vol_slide, clamp, pan_slide, st3_slide, st3_vibvol, st3_tonevol,
    st3_chanvolslide, st3_panslide, st3_retrig, st3_s_settempo, st3_globvolslide, st3_setvols, st3_panbrello,
    st3_doamiga, st3_donewnote, st3_notedelayb, st3_ssoncejmp, st3_ssotherjmp, st3_soncejmp, st3_sotherjmp,
    st3_cmd1_chn, st3_cmd1_from, st3_cmd2_chn, st3_cmd2_from, st3_restore_spd, st3_extended, no_loop, no_step,
    st3_neworder, sp_skip, st3_seekpat, gn_scan, st3_getnote, st3_clear_from, st3_notes_loop, st3_donotes, st3_dorow,
    st3_header, st3_number_from, st3_start, lemma_number_from_fields, st3_zero, lemma_no_loop_fields};

verus! {

pub const SOUNDCARD_GUS: u8 = 0;
pub const SOUNDCARD_SB: u8 = 1;

pub const SCREAM_TRACKER: u8 = 1;
pub const IMAGO_ORPHEUS: u8 = 2;
pub const IMPULSE_TRACKER: u8 = 3;
pub const SCHISM_TRACKER: u8 = 4;
pub const OPENMPT: u8 = 5;
pub const BEROTRACKER: u8 = 6;

/// The state of a channel.
#[derive(Clone, Copy, Debug)]
pub struct Chn {
    pub aorgvol: i8,
    pub avol: i8,
    pub channelnum: u8,
    pub achannelused: u8,
    pub aglis: bool,
    pub atremor: u8,
    pub atreon: bool,
    pub atrigcnt: u8,
    pub anotecutcnt: u8,
    pub anotedelaycnt: u8,
    pub avibtretype: u8,
    pub note: u8,
    pub ins: u8,
    pub vol: u8,
    pub cmd: u8,
    pub info: u8,
    pub lastins: u8,
    pub lastnote: u8,
    pub alastnfo: u8,
    pub alasteff: u8,
    pub alasteff1: u8,
    pub apanpos: i16,
    pub avibcnt: i16,
    pub astartoffset: u16,
    pub astartoffset00: u16,
    pub ac2spd: i32,
    pub asldspd: i32,
    pub aorgspd: i32,
    pub aspd: i32,
    pub chanvol: i8,
    pub surround: u8,
    pub apantype: u8,
    pub nxymem: u8,
    pub pxymem: u8,
    pub txxmem: u8,
    pub wxymem: u8,
    pub yxymem: u8,
    pub apancnt: i16,
}

/// A channel with every value zero.
pub open spec fn st3_zero_channel() -> Chn {
    Chn {
        aorgvol: 0, avol: 0, channelnum: 0, achannelused: 0, aglis: false, atremor: 0, atreon: false,
        atrigcnt: 0, anotecutcnt: 0, anotedelaycnt: 0, avibtretype: 0, note: 0, ins: 0, vol: 0, cmd: 0,
        info: 0, lastins: 0, lastnote: 0, alastnfo: 0, alasteff: 0, alasteff1: 0, apanpos: 0, avibcnt: 0,
        astartoffset: 0, astartoffset00: 0, ac2spd: 0, asldspd: 0, aorgspd: 0, aspd: 0, chanvol: 0,
        surround: 0, apantype: 0, nxymem: 0, pxymem: 0, txxmem: 0, wxymem: 0, yxymem: 0, apancnt: 0,
    }
}

impl Chn {
    /// A channel with every value zero.
    pub fn new() -> (r: Self)
        ensures
            r == st3_zero_channel(),
    {
        Chn {
            aorgvol: 0, avol: 0, channelnum: 0, achannelused: 0, aglis: false, atremor: 0, atreon: false,
            atrigcnt: 0, anotecutcnt: 0, anotedelaycnt: 0, avibtretype: 0, note: 0, ins: 0, vol: 0, cmd: 0,
            info: 0, lastins: 0, lastnote: 0, alastnfo: 0, alasteff: 0, alasteff1: 0, apanpos: 0, avibcnt: 0,
            astartoffset: 0, astartoffset00: 0, ac2spd: 0, asldspd: 0, aorgspd: 0, aspd: 0, chanvol: 0,
            surround: 0, apantype: 0, nxymem: 0, pxymem: 0, txxmem: 0, wxymem: 0, yxymem: 0, apancnt: 0,
        }
    }
}

/// The Scream Tracker 3 replayer: the sequencer and the 32 channels.
pub struct St3Play {
    pub tickdelay: i8,
    pub volslidetype: i8,
    pub patterndelay: i8,
    pub patloopcount: i8,
    pub breakpat: u8,
    pub startrow: u8,
    pub musiccount: u8,
    pub np_ord: i16,
    pub np_row: i16,
    pub np_pat: i16,
    pub np_patoff: i32,
    pub patloopstart: i16,
    pub jumptorow: i16,
    pub patmusicrand: u16,
    pub aspdmax: i32,
    pub aspdmin: i32,
    pub np_patseg: usize,
    pub chn: [Chn; 32],
    pub soundcardtype: u8,
    pub lastachannelused: u8,
    pub tracker: u8,
    pub oldstvib: bool,
    pub fastvolslide: bool,
    pub amigalimits: bool,
    pub musicmax: u8,
    pub tempo: i16,
    pub globalvol: i16,
    pub stereomode: i8,
    pub mastervol: u8,
}

/// What the replayer keeps: the last channel in use is one of the 32.
pub open spec fn st3_wf(p: St3Play) -> bool {
    p.lastachannelused <= 31
}

/// The row, order, tick count, speed and tick delay of `a` and `b` are
/// the same.
pub open spec fn st3_seq_same(a: St3Play, b: St3Play) -> bool {
    &&& b.np_row == a.np_row && b.np_ord == a.np_ord && b.musiccount == a.musiccount && b.np_patoff == a.np_patoff
    &&& b.musicmax == a.musicmax && b.tickdelay == a.tickdelay && b.breakpat == a.breakpat
    &&& b.patmusicrand == a.patmusicrand
}

/// `a` and `b` differ in channel `ch` at most.
pub open spec fn st3_others_same(a: St3Play, b: St3Play, ch: int) -> bool {
    &&& b == St3Play { chn: b.chn, ..a }
    &&& b.chn@ == a.chn@.update(ch, b.chn@[ch])
}

/// Middle-C speeds of the 16 Amiga finetunes.
pub open spec fn xfinetune_amiga() -> Seq<i16> {
    seq![7895, 7941, 7985, 8046, 8107, 8169, 8232, 8280, 8363, 8413, 8463, 8529, 8581, 8651, 8723, 8757]
}

fn xfinetune_amiga_at(i: usize) -> (r: i16)
    requires
        i < 16,
    ensures
        r == xfinetune_amiga()[i as int],
{
    let t: [i16; 16] = [7895, 7941, 7985, 8046, 8107, 8169, 8232, 8280, 8363, 8413, 8463, 8529, 8581, 8651,
        8723, 8757];
    assert(t@ =~= xfinetune_amiga());
    t[i]
}

/// Speeds of the twelve notes of octave 0.
pub open spec fn notespd() -> Seq<u16> {
    seq![27392, 25856, 24384, 23040, 21696, 20480, 19328, 18240, 17216, 16256, 15360, 14512]
}

fn notespd_at(i: usize) -> (r: u16)
    requires
        i < 12,
    ensures
        r == notespd()[i as int],
{
    let t: [u16; 12] = [1712 * 16, 1616 * 16, 1524 * 16, 1440 * 16, 1356 * 16, 1280 * 16, 1208 * 16,
        1140 * 16, 1076 * 16, 1016 * 16, 960 * 16, 907 * 16];
    assert(t@ =~= notespd());
    t[i]
}

fn retrigvoladd(i: usize) -> (r: i8)
    requires
        i < 32,
    ensures
        -16 <= r <= 32,
        r == retrig_table()[i as int],
{
    let t: [i8; 32] = [0, -1, -2, -4, -8, -16, 0, 0, 0, 1, 2, 4, 8, 16, 0, 0, 0, 0, 0, 0, 0, 0, 10, 8, 0, 0, 0,
        0, 0, 0, 24, 32];
    assert(t@.map_values(|x: i8| x as int) =~= retrig_table());
    assert(t@[i as int] as int == retrig_table()[i as int]);
    let r = t[i];
    assert(-16 <= r <= 32);
    r
}

fn vibsin(i: usize) -> (r: i16)
    requires
        i < 64,
    ensures
        r == vibsin_table()[i as int],
{
    let t: [i16; 64] = [0x00, 0x18, 0x31, 0x4A, 0x61, 0x78, 0x8D, 0xA1, 0xB4, 0xC5, 0xD4, 0xE0, 0xEB, 0xF4,
        0xFA, 0xFD, 0xFF, 0xFD, 0xFA, 0xF4, 0xEB, 0xE0, 0xD4, 0xC5, 0xB4, 0xA1, 0x8D, 0x78, 0x61, 0x4A, 0x31,
        0x18, 0x00, -0x18, -0x31, -0x4A, -0x61, -0x78, -0x8D, -0xA1, -0xB4, -0xC5, -0xD4, -0xE0, -0xEB, -0xF4,
        -0xFA, -0xFD, -0xFF, -0xFD, -0xFA, -0xF4, -0xEB, -0xE0, -0xD4, -0xC5, -0xB4, -0xA1, -0x8D, -0x78,
        -0x61, -0x4A, -0x31, -0x18];
    assert(t@.map_values(|x: i16| x as int) =~= vibsin_table());
    assert(t@[i as int] as int == vibsin_table()[i as int]);
    t[i]
}

fn vibsqu(i: usize) -> (r: u8)
    requires
        i < 64,
    ensures
        r == (if i < 32 { 0xffu8 } else { 0u8 }),
{
    if i < 32 { 0xff } else { 0 }
}

fn vibramp(i: usize) -> (r: i16)
    requires
        i < 64,
    ensures
        r == vibramp_table()[i as int],
{
    let t: [i16; 64] = [0, -248, -240, -232, -224, -216, -208, -200, -192, -184, -176, -168, -160, -152, -144,
        -136, -128, -120, -112, -104, -96, -88, -80, -72, -64, -56, -48, -40, -32, -24, -16, -8, 0, 8, 16, 24,
        32, 40, 48, 56, 64, 72, 80, 88, 96, 104, 112, 120, 128, 136, 144, 152, 160, 168, 176, 184, 192, 200,
        208, 216, 224, 232, 240, 248];
    assert(t@.map_values(|x: i16| x as int) =~= vibramp_table());
    assert(t@[i as int] as int == vibramp_table()[i as int]);
    t[i]
}

/// The speed of a note (octave in the high nibble, semitone in the low):
/// none for a note cut (254), the note's speed in octave 0 halved per
/// octave, at most octave 7 for Scream Tracker modules.
pub open spec fn stnote2herz(tracker: u8, note: u8) -> u16 {
    if note == 254 {
        0
    } else {
        let n = if note & 0x0f > 11 { 11 } else { note & 0x0f };
        let o = if tracker == SCREAM_TRACKER && note >> 4 > 7 { 7 } else { note >> 4 };
        notespd()[n as int] >> o
    }
}

/// The truncating quotient of `a` by `b`, as the machine divides.
pub open spec fn tdiv(a: int, b: int) -> int {
    if a >= 0 {
        if b > 0 { a / b } else { -(a / (-b)) }
    } else {
        if b > 0 { -((-a) / b) } else { (-a) / (-b) }
    }
}

/// A note speed scaled by the channel's middle-C speed `c2spd`: at most
/// 32767 for Scream Tracker modules.
pub open spec fn scalec2spd(tracker: u8, c2spd: i32, spd: int) -> i32 {
    let s = spd * 8363;
    if tracker == SCREAM_TRACKER && s / 65536 >= c2spd {
        32767
    } else {
        let q = if c2spd != 0 { tdiv(s, c2spd as int) } else { s };
        if tracker == SCREAM_TRACKER && q > 32767 { 32767 } else { q as i32 }
    }
}

/// `p` after the pattern loop command (SBx) of channel `i`: SB0 marks
/// the row as the loop start; SBx with `x` at least 1 starts a count of
/// `x` jumps where none runs (from row 0 where no start was marked), and
/// while jumps are left takes one: back to the loop start; after the last
/// the count ends and the loop start moves past the row.
pub open spec fn st3_patloop(p: St3Play, i: int) -> St3Play {
    let lo = p.chn@[i].info % 16;
    if lo == 0 {
        St3Play { patloopstart: p.np_row, ..p }
    } else {
        let count: int = if p.patloopcount == 0 { lo + 1 } else { p.patloopcount as int };
        let start: i16 = if p.patloopcount == 0 && p.patloopstart == -1 { 0 } else { p.patloopstart };
        if count > 1 {
            St3Play { patloopcount: (count - 1) as i8, patloopstart: start, jumptorow: start, np_patoff: -1i32, ..p }
        } else {
            St3Play { patloopcount: 0, patloopstart: p.np_row.wrapping_add(1), ..p }
        }
    }
}

/// One pass over the row of the loop's end: the row's jump target
/// cleared, then the pattern loop command of channel `i`.
pub open spec fn st3_patloop_pass(p: St3Play, i: int) -> St3Play {
    st3_patloop(St3Play { jumptorow: -1i16, ..p }, i)
}

/// `p` after `k` passes over the row of the loop's end.
pub open spec fn st3_patloop_passes(p: St3Play, i: int, k: nat) -> St3Play
    decreases k,
{
    if k == 0 { p } else { st3_patloop_pass(st3_patloop_passes(p, i, (k - 1) as nat), i) }
}

/// A pattern loop SBx (`x` from 1 to 15) with no count running plays its
/// body `x + 1` times: each of the first `x` passes over its last row
/// jumps back to the loop start (row 0 where none was marked), the count
/// at `x + 1 - k` after pass `k`; pass `x + 1` jumps nowhere, ends the count
/// and moves the loop start past the row.
pub proof fn lemma_st3_pattern_loop_repeats(p: St3Play, i: int)
    requires
        0 <= i < 32,
        1 <= p.chn@[i].info % 16,
        p.patloopcount == 0,
    ensures
        ({
            let x = p.chn@[i].info % 16;
            let start: i16 = if p.patloopstart == -1 { 0 } else { p.patloopstart };
            &&& forall|k: nat| 1 <= k <= x ==> {
                let q = #[trigger] st3_patloop_passes(p, i, k);
                &&& q.jumptorow == start && q.np_patoff == -1
                &&& q.patloopcount == x + 1 - k && q.patloopstart == start
            }
            &&& st3_patloop_passes(p, i, (x + 1) as nat).jumptorow == -1
            &&& st3_patloop_passes(p, i, (x + 1) as nat).patloopcount == 0
            &&& st3_patloop_passes(p, i, (x + 1) as nat).patloopstart == p.np_row.wrapping_add(1)
        }),
{
    let x = p.chn@[i].info % 16;
    let start: i16 = if p.patloopstart == -1 { 0 } else { p.patloopstart };
    assert forall|k: nat| 1 <= k <= x implies {
        let q = #[trigger] st3_patloop_passes(p, i, k);
        &&& q.jumptorow == start && q.np_patoff == -1
        &&& q.patloopcount == x + 1 - k && q.patloopstart == start
        &&& q.np_row == p.np_row && q.chn == p.chn
    } by {
        lemma_st3_patloop_passes(p, i, k);
    }
    lemma_st3_patloop_passes(p, i, x as nat);
}

proof fn lemma_st3_patloop_passes(p: St3Play, i: int, k: nat)
    requires
        0 <= i < 32,
        1 <= p.chn@[i].info % 16,
        p.patloopcount == 0,
        1 <= k <= p.chn@[i].info % 16,
    ensures
        ({
            let x = p.chn@[i].info % 16;
            let start: i16 = if p.patloopstart == -1 { 0 } else { p.patloopstart };
            let q = st3_patloop_passes(p, i, k);
            &&& q.jumptorow == start && q.np_patoff == -1
            &&& q.patloopcount == x + 1 - k && q.patloopstart == start
            &&& q.np_row == p.np_row && q.chn == p.chn
        }),
    decreases k,
{
    let q0 = st3_patloop_passes(p, i, (k - 1) as nat);
    if k > 1 {
        lemma_st3_patloop_passes(p, i, (k - 1) as nat);
    } else {
        assert(q0 == p);
    }
    assert(st3_patloop_passes(p, i, k) == st3_patloop_pass(q0, i));
}

/// The nibbles and low five bits of a byte, and a two-digit decimal
/// parameter, are in range.
pub proof fn lemma_nibbles(x: u8)
    ensures
        x & 0x0f < 16,
        x >> 4 <= 15,
        x & 0x1f < 32,
        (x >> 4) * 10 + (x & 0x0f) <= 165,
{
    assert(x & 0x0f < 16 && x >> 4 <= 15 && x & 0x1f < 32 && (x >> 4) * 10 + (x & 0x0f) <= 165) by (bit_vector);
}

/// The low seven bits of a counter are below 128.
proof fn lemma_low7(x: usize)
    ensures
        x & 0x7f <= 0x7f,
{
    assert(x & 0x7f <= 0x7f) by (bit_vector);
}

/// The truncating quotient of `a` by `b`; see `tdiv`.
fn tdiv32(a: i32, b: i32) -> (r: i32)
    requires
        b != 0,
        a >= 0 || b > 0,
    ensures
        r == tdiv(a as int, b as int),
{
    let ua: u64 = if a < 0 { (-(a as i64)) as u64 } else { a as u64 };
    let ub: u64 = if b < 0 { (-(b as i64)) as u64 } else { b as u64 };
    let q = ua / ub;
    assert(q <= ua) by (nonlinear_arith)
        requires q == ua / ub, ub >= 1;
    if b < 0 || a < 0 { -(q as i64) as i32 } else { q as i32 }
}


/// Channel `c` after its speed is set (see `setspd_cmds`): in use, and its
/// speeds held to the Amiga limits where the module asks them.
pub open spec fn setspd_chn(p: St3Play, c: Chn) -> Chn {
    let c1 = Chn { achannelused: c.achannelused | 0x80, ..c };
    let c2 = if p.amigalimits {
        let o1 = if c1.aorgspd > p.aspdmax { p.aspdmax } else { c1.aorgspd };
        let o2 = if o1 < p.aspdmin { p.aspdmin } else { o1 };
        let s1 = if c1.aspd > p.aspdmax { p.aspdmax } else { c1.aspd };
        Chn { aorgspd: o2, aspd: s1, ..c1 }
    } else {
        c1
    };
    let t = setspd_value(p, c.aspd);
    if t != 0 && t < p.aspdmin && p.amigalimits && c2.aspd < p.aspdmin {
        Chn { aspd: p.aspdmin, ..c2 }
    } else {
        c2
    }
}

/// The speed played for a channel speed `spd`: at most the maximum (a
/// fixed absolute one for trackers other than Scream Tracker without
/// Amiga limits).
pub open spec fn setspd_value(p: St3Play, spd: i32) -> i32 {
    if p.tracker == SCREAM_TRACKER || p.amigalimits {
        if spd > p.aspdmax { p.aspdmax } else { spd }
    } else {
        if spd > 14317056 { 14317056 } else { spd }
    }
}

/// The command of setting channel `c`'s speed: none for speed 0, else the
/// speed, at least the minimum, where it is positive.
pub open spec fn setspd_cmds(p: St3Play, c: Chn, ch: int) -> Seq<MixerCmd> {
    let t = setspd_value(p, c.aspd);
    let t2 = if t < p.aspdmin { p.aspdmin } else { t };
    if t != 0 && t2 > 0 { seq![MixerCmd::SetQuarterPeriod(ch as usize, t2)] } else { seq![] }
}

/// The commands of setting a channel's volume and pan.
pub open spec fn setvol_cmds(p: St3Play, c: Chn, ch: int) -> Seq<MixerCmd> {
    seq![
        MixerCmd::SetScaledVolume(ch as usize, c.avol, c.chanvol, p.globalvol),
        MixerCmd::SetPan(ch as usize, c.apanpos as isize),
    ]
}


/// Channel `c` (number `ch`) after taking its instrument: the last
/// instrument remembered, and for a sample instrument of the module its
/// middle-C speed, volume (0 to 63) and, unless a tone portamento goes on
/// under the GUS driver, its sample and loop.
pub open spec fn amiga_ins(p: St3Play, c: Chn, ch: int, module: S3mData) -> (Chn, Seq<MixerCmd>) {
    let ins = c.ins as int;
    if ins == 0 {
        (c, seq![])
    } else {
        let c1 = Chn { lastins: c.ins, astartoffset: 0, ..c };
        if !(ins <= module.ins_num && ins <= module.instruments@.len()) {
            (c1, seq![])
        } else {
            let insdat = module.instruments@[ins - 1];
            if insdat.typ == 0 {
                (c1, seq![])
            } else if insdat.typ != 1 {
                (Chn { lastins: 0, ..c1 }, seq![])
            } else {
                let c2spd = if (p.tracker == OPENMPT || p.tracker == BEROTRACKER) && c.cmd == 19
                    && c.info & 0xf0 == 0x20 {
                    xfinetune_amiga()[(c.info & 0x0f) as int] as i32
                } else {
                    insdat.c2spd as i32
                };
                let v: i8 = if insdat.vol < 0 { 0 } else if insdat.vol > 63 { 63 } else { insdat.vol };
                let c2 = Chn { ac2spd: c2spd, avol: v, aorgvol: v, ..c1 };
                let c3 = Chn { achannelused: c2.achannelused | 0x80, ..c2 };
                let inslen = insdat.length;
                let rb = if insdat.loop_beg > inslen { inslen } else { insdat.loop_beg };
                let re = if insdat.loop_end > inslen { inslen } else { insdat.loop_end };
                let has_loop = insdat.flags & 1 != 0 && inslen != 0 && re > rb;
                let k2 = if p.soundcardtype == SOUNDCARD_SB || (c.cmd != 7 && c.cmd != 12) {
                    seq![
                        MixerCmd::SetPatch(ch as usize, (ins - 1) as usize, (ins - 1) as usize),
                        MixerCmd::SetLoopStart(ch as usize, rb),
                        MixerCmd::SetLoopEnd(ch as usize, re),
                        MixerCmd::EnableLoop(ch as usize, has_loop),
                    ]
                } else {
                    seq![]
                };
                (c3, setvol_cmds(p, c2, ch) + k2)
            }
        }
    }
}

/// A sample offset command (O): the offset in the parameter, in 256-byte
/// units, or the last one.
pub open spec fn amiga_offset(c: Chn) -> Chn {
    if c.cmd == 15 {
        if c.info == 0 {
            Chn { astartoffset: c.astartoffset00, ..c }
        } else {
            Chn { astartoffset: (256 * c.info) as u16, astartoffset00: (256 * c.info) as u16, ..c }
        }
    } else {
        c
    }
}

/// Channel `c` (number `ch`) after its note: a note cut silences it;
/// another note starts at the sample offset (not under a tone
/// portamento), sets its speed (and resets vibrato and panbrello) unless
/// a tone portamento goes on from a speed, and is the target of a slide.
pub open spec fn amiga_note(p: St3Play, c: Chn, ch: int) -> (Chn, Seq<MixerCmd>) {
    let note = c.note;
    if note == 255 {
        (c, seq![])
    } else if note == 254 {
        let c1 = Chn { aspd: 0, avol: 0, asldspd: 65535, ..c };
        let c2 = setspd_chn(p, c1);
        let c3 = Chn { achannelused: c2.achannelused | 0x80, ..c2 };
        (c3, setspd_cmds(p, c1, ch) + setvol_cmds(p, c2, ch)
            + seq![MixerCmd::SetVolume(ch as usize, 0), MixerCmd::SetVoicePos(ch as usize, 0)])
    } else {
        let porta = c.cmd == 7 || c.cmd == 12;
        let c1 = Chn { lastnote: note, ..c };
        let ka = if !porta { seq![MixerCmd::SetVoicePos(ch as usize, c1.astartoffset as u32)] } else { seq![] };
        let h = stnote2herz(p.tracker, note) as int;
        let (c3, kb) = if c1.aorgspd == 0 || !porta {
            let sp = scalec2spd(p.tracker, c1.ac2spd, h);
            let c2 = Chn { aspd: sp, aorgspd: sp, avibcnt: 0, apancnt: 0, ..c1 };
            (setspd_chn(p, c2), setspd_cmds(p, c2, ch))
        } else {
            (c1, seq![])
        };
        (Chn { asldspd: scalec2spd(p.tracker, c3.ac2spd, h), ..c3 }, ka + kb)
    }
}

/// Channel `c` (number `ch`) after its volume column: a volume up to 64
/// becomes the volume.
pub open spec fn amiga_vol(p: St3Play, c: Chn, ch: int) -> (Chn, Seq<MixerCmd>) {
    if c.vol != 255 && c.vol <= 64 {
        let c1 = Chn { avol: c.vol as i8, aorgvol: c.vol as i8, ..c };
        (Chn { achannelused: c1.achannelused | 0x80, ..c1 }, setvol_cmds(p, c1, ch))
    } else {
        (c, seq![])
    }
}

/// Channel `ch` after its new note is carried out: the instrument, then,
/// with an instrument active, the sample offset, the note and the volume.
pub open spec fn st3_doamiga_chn(p: St3Play, ch: int, module: S3mData) -> (Chn, Seq<MixerCmd>) {
    let (c1, k1) = amiga_ins(p, p.chn@[ch], ch, module);
    if c1.lastins == 0 {
        (c1, k1)
    } else {
        let c2 = amiga_offset(c1);
        let (c3, k3) = amiga_note(p, c2, ch);
        let (c4, k4) = amiga_vol(p, c3, ch);
        (c4, k1 + k3 + k4)
    }
}

/// `p` is a replayer just started: the last channel in use 1, the 32
/// channels numbered, in use, at full channel volume.
pub open spec fn st3_started(p: St3Play) -> bool {
    &&& st3_wf(p)
    &&& p.lastachannelused == 1
    &&& forall|c: int| 0 <= c < 32 ==> {
        &&& (#[trigger] p.chn@[c]).channelnum == c
        &&& p.chn@[c].achannelused == 0x80
        &&& p.chn@[c].chanvol == 0x40
    }
}

/// The pattern randomizer's next value.
pub open spec fn st3_rand(r: u16) -> u16 {
    ((((r as u32 * 0xcdef) as u32 >> 16) as u16).wrapping_add(0x1727)) & 0xffff
}

impl St3Play {
    /// The speed of a note; see `stnote2herz`.
    fn stnote2herz(&self, note: u8) -> (r: u16)
        ensures
            r == stnote2herz(self.tracker, note),
    {
        if note == 254 {
            return 0;
        }
        let mut tmpnote = note & 0x0f;
        let mut tmpocta = note >> 4;
        if tmpnote > 11 {
            tmpnote = 11;
        }
        if self.tracker == SCREAM_TRACKER && tmpocta > 7 {
            tmpocta = 7;
        }
        proof { lemma_nibbles(note); }
        notespd_at(tmpnote as usize) >> tmpocta
    }

    /// A note speed scaled by the middle-C speed of channel `ch`; see
    /// `scalec2spd`.
    fn scalec2spd(&self, ch: usize, spd: i32) -> (r: i32)
        requires
            ch < 32,
            0 <= spd <= 65535,
        ensures
            r == scalec2spd(self.tracker, self.chn@[ch as int].ac2spd, spd as int),
    {
        let c2 = self.chn[ch].ac2spd;
        let mut spd = spd * 8363;
        if self.tracker == SCREAM_TRACKER {
            if spd / 65536 >= c2 {
                return 32767;
            }
        }
        if c2 != 0 {
            spd = tdiv32(spd, c2);
        }
        if self.tracker == SCREAM_TRACKER {
            if spd > 32767 {
                return 32767;
            }
        }
        spd
    }

    /// Sets the speed of channel `c` (number `ch`); see `setspd_chn`.
    fn setspd_c(&self, c: &mut Chn, ch: usize, cmds: &mut Vec<MixerCmd>)
        ensures
            *final(c) == setspd_chn(*self, *old(c)),
            final(cmds)@ == old(cmds)@ + setspd_cmds(*self, *old(c), ch as int),
    {
        c.achannelused = c.achannelused | 0x80;
        let mut tmpspd = c.aspd;
        if self.amigalimits {
            if c.aorgspd > self.aspdmax {
                c.aorgspd = self.aspdmax;
            }
            if c.aorgspd < self.aspdmin {
                c.aorgspd = self.aspdmin;
            }
            if c.aspd > self.aspdmax {
                c.aspd = self.aspdmax;
            }
        }
        if self.tracker == SCREAM_TRACKER || self.amigalimits {
            if tmpspd > self.aspdmax {
                tmpspd = self.aspdmax;
            }
        } else {
            if tmpspd > 14317056 {
                tmpspd = 14317056;
            }
        }
        if tmpspd == 0 {
            assert(cmds@ =~= old(cmds)@ + setspd_cmds(*self, *old(c), ch as int));
            return;
        }
        if tmpspd < self.aspdmin {
            tmpspd = self.aspdmin;
            if self.amigalimits && c.aspd < self.aspdmin {
                c.aspd = self.aspdmin;
            }
        }
        if tmpspd > 0 {
            cmds.push(MixerCmd::SetQuarterPeriod(ch, tmpspd));
        }
        assert(cmds@ =~= old(cmds)@ + setspd_cmds(*self, *old(c), ch as int));
    }

    /// Sets the volume and pan of channel `c` (number `ch`), marking it in
    /// use.
    fn setvol_c(&self, c: &mut Chn, ch: usize, cmds: &mut Vec<MixerCmd>)
        ensures
            *final(c) == (Chn { achannelused: old(c).achannelused | 0x80, ..*old(c) }),
            final(cmds)@ == old(cmds)@ + setvol_cmds(*self, *old(c), ch as int),
    {
        c.achannelused = c.achannelused | 0x80;
        cmds.push(MixerCmd::SetScaledVolume(ch, c.avol, c.chanvol, self.globalvol));
        cmds.push(MixerCmd::SetPan(ch, c.apanpos as isize));
        assert(cmds@ =~= old(cmds)@ + setvol_cmds(*self, *old(c), ch as int));
    }

    /// Sets the volume and pan of channel `c` (number `ch`).
    fn setpan_c(&self, c: &Chn, ch: usize, cmds: &mut Vec<MixerCmd>)
        ensures
            final(cmds)@ == old(cmds)@ + setvol_cmds(*self, *c, ch as int),
    {
        cmds.push(MixerCmd::SetScaledVolume(ch, c.avol, c.chanvol, self.globalvol));
        cmds.push(MixerCmd::SetPan(ch, c.apanpos as isize));
        assert(cmds@ =~= old(cmds)@ + setvol_cmds(*self, *c, ch as int));
    }

    fn setspd(&mut self, ch: usize, cmds: &mut Vec<MixerCmd>)
        requires
            ch < 32,
        ensures
            st3_others_same(*old(self), *final(self), ch as int),
            final(self).chn@[ch as int] == setspd_chn(*old(self), old(self).chn@[ch as int]),
            final(cmds)@ == old(cmds)@ + setspd_cmds(*old(self), old(self).chn@[ch as int], ch as int),
            *final(self) == st3_setspd(*old(self), ch as int).0,
    {
        let mut c = self.chn[ch];
        self.setspd_c(&mut c, ch, cmds);
        self.chn[ch] = c;
        proof { lemma_chn_set(*old(self), *self, ch as int); }
    }

    fn setvol(&mut self, ch: usize, cmds: &mut Vec<MixerCmd>)
        requires
            ch < 32,
        ensures
            st3_others_same(*old(self), *final(self), ch as int),
            final(self).chn@[ch as int] == (Chn { achannelused: old(self).chn@[ch as int].achannelused | 0x80,
                ..old(self).chn@[ch as int] }),
            final(cmds)@ == old(cmds)@ + setvol_cmds(*old(self), old(self).chn@[ch as int], ch as int),
            *final(self) == st3_setvol(*old(self), ch as int).0,
    {
        let mut c = self.chn[ch];
        self.setvol_c(&mut c, ch, cmds);
        self.chn[ch] = c;
        proof { lemma_chn_set(*old(self), *self, ch as int); }
    }

    fn setpan(&self, ch: usize, cmds: &mut Vec<MixerCmd>)
        requires
            ch < 32,
        ensures
            final(cmds)@ == old(cmds)@ + setvol_cmds(*self, self.chn@[ch as int], ch as int),
    {
        let c = self.chn[ch];
        self.setpan_c(&c, ch, cmds);
    }


    /// The instrument step of a new note; see `amiga_ins`.
    fn amiga_ins_c(&self, c: &mut Chn, ch: usize, module: &S3mData, cmds: &mut Vec<MixerCmd>)
        ensures
            (*final(c), final(cmds)@) == ({
                let (c1, k) = amiga_ins(*self, *old(c), ch as int, *module);
                (c1, old(cmds)@ + k)
            }),
    {
        let ins = c.ins as usize;
        if ins == 0 {
            assert(cmds@ =~= old(cmds)@ + seq![]);
            return;
        }
        c.lastins = ins as u8;
        c.astartoffset = 0;
        if !(ins <= module.ins_num as usize && ins <= module.instruments.len()) {
            assert(cmds@ =~= old(cmds)@ + seq![]);
            return;
        }
        let insdat = &module.instruments[ins - 1];
        if insdat.typ == 0 {
            assert(cmds@ =~= old(cmds)@ + seq![]);
            return;
        }
        if insdat.typ != 1 {
            c.lastins = 0;
            assert(cmds@ =~= old(cmds)@ + seq![]);
            return;
        }
        c.ac2spd = insdat.c2spd as i32;
        if self.tracker == OPENMPT || self.tracker == BEROTRACKER {
            if c.cmd == 19 && c.info & 0xf0 == 0x20 {
                let info = c.info;
                proof { lemma_nibbles(info); }
                c.ac2spd = xfinetune_amiga_at((info & 0x0f) as usize) as i32;
            }
        }
        c.avol = insdat.vol;
        if c.avol < 0 {
            c.avol = 0;
        } else if c.avol > 63 {
            c.avol = 63;
        }
        c.aorgvol = c.avol;
        let ghost pre = cmds@;
        self.setvol_c(c, ch, cmds);
        let inslen = insdat.length;
        let mut insrepbeg = insdat.loop_beg;
        let mut insrepend = insdat.loop_end;
        if insrepbeg > inslen {
            insrepbeg = inslen;
        }
        if insrepend > inslen {
            insrepend = inslen;
        }
        let has_loop = insdat.flags & 1 != 0 && inslen != 0 && insrepend > insrepbeg;
        if self.soundcardtype == SOUNDCARD_SB || c.cmd != 7 && c.cmd != 12 {
            cmds.push(MixerCmd::SetPatch(ch, ins - 1, ins - 1));
            cmds.push(MixerCmd::SetLoopStart(ch, insrepbeg));
            cmds.push(MixerCmd::SetLoopEnd(ch, insrepend));
            cmds.push(MixerCmd::EnableLoop(ch, has_loop));
        }
        proof {
            let (c1, k) = amiga_ins(*self, *old(c), ch as int, *module);
            assert(cmds@ =~= old(cmds)@ + k);
        }
    }

    /// The note step of a new note; see `amiga_note`.
    fn amiga_note_c(&self, c: &mut Chn, ch: usize, cmds: &mut Vec<MixerCmd>)
        ensures
            (*final(c), final(cmds)@) == ({
                let (c1, k) = amiga_note(*self, *old(c), ch as int);
                (c1, old(cmds)@ + k)
            }),
    {
        let note = c.note;
        if note == 255 {
            assert(cmds@ =~= old(cmds)@ + seq![]);
            return;
        }
        if note == 254 {
            c.aspd = 0;
            c.avol = 0;
            c.asldspd = 65535;
            self.setspd_c(c, ch, cmds);
            self.setvol_c(c, ch, cmds);
            cmds.push(MixerCmd::SetVolume(ch, 0));
            cmds.push(MixerCmd::SetVoicePos(ch, 0));
            proof {
                let (c1, k) = amiga_note(*self, *old(c), ch as int);
                assert(cmds@ =~= old(cmds)@ + k);
            }
            return;
        }
        let porta = c.cmd == 7 || c.cmd == 12;
        c.lastnote = note;
        if !porta {
            cmds.push(MixerCmd::SetVoicePos(ch, c.astartoffset as u32));
        }
        let ghost mid = cmds@;
        if c.aorgspd == 0 || !porta {
            let h = self.stnote2herz(note) as i32;
            let sp = self.scalec2spd_c(c, h);
            c.aspd = sp;
            c.aorgspd = sp;
            c.avibcnt = 0;
            c.apancnt = 0;
            self.setspd_c(c, ch, cmds);
        }
        let h = self.stnote2herz(note) as i32;
        c.asldspd = self.scalec2spd_c(c, h);
        proof {
            let (c1, k) = amiga_note(*self, *old(c), ch as int);
            assert(cmds@ =~= old(cmds)@ + k);
        }
    }

    /// A note speed scaled by the middle-C speed of channel `c`.
    fn scalec2spd_c(&self, c: &Chn, spd: i32) -> (r: i32)
        requires
            0 <= spd <= 65535,
        ensures
            r == scalec2spd(self.tracker, c.ac2spd, spd as int),
    {
        let c2 = c.ac2spd;
        let mut spd = spd * 8363;
        if self.tracker == SCREAM_TRACKER {
            if spd / 65536 >= c2 {
                return 32767;
            }
        }
        if c2 != 0 {
            spd = tdiv32(spd, c2);
        }
        if self.tracker == SCREAM_TRACKER {
            if spd > 32767 {
                return 32767;
            }
        }
        spd
    }

    /// Carries out the new note of channel `ch`; see `st3_doamiga_chn`.
    fn doamiga(&mut self, ch: usize, module: &S3mData, cmds: &mut Vec<MixerCmd>)
        requires
            ch < 32,
            st3_wf(*old(self)),
        ensures
            st3_wf(*final(self)),
            final(self).musiccount == old(self).musiccount,
            st3_others_same(*old(self), *final(self), ch as int),
            (final(self).chn@[ch as int], final(cmds)@) == ({
                let (c1, k) = st3_doamiga_chn(*old(self), ch as int, *module);
                (c1, old(cmds)@ + k)
            }),
            *final(self) == st3_doamiga(*old(self), ch as int, *module).0,
    {
        let mut c = self.chn[ch];
        self.amiga_ins_c(&mut c, ch, module, cmds);
        if c.lastins != 0 {
            if c.cmd == 15 {
                if c.info == 0 {
                    c.astartoffset = c.astartoffset00;
                } else {
                    c.astartoffset = 256 * c.info as u16;
                    c.astartoffset00 = c.astartoffset;
                }
            }
            self.amiga_note_c(&mut c, ch, cmds);
            if c.vol != 255 && c.vol <= 64 {
                c.avol = c.vol as i8;
                c.aorgvol = c.vol as i8;
                self.setvol_c(&mut c, ch, cmds);
            }
        }
        self.chn[ch] = c;
        proof {
            let (c1, k) = st3_doamiga_chn(*old(self), ch as int, *module);
            assert(cmds@ =~= old(cmds)@ + k);
        }
        proof { lemma_chn_set(*old(self), *self, ch as int); }
    }


    fn getlastnfo(&mut self, i: usize)
        requires
            i < 32,
            st3_wf(*old(self)),
        ensures
            st3_wf(*final(self)),
            final(self).musiccount == old(self).musiccount,
            st3_seq_same(*old(self), *final(self)),
            *final(self) == st3_getlastnfo(*old(self), i as int),
    {
        if self.chn[i].info == 0 {
            self.chn[i].info = self.chn[i].alastnfo;
            proof { lemma_chn_set(*old(self), *self, i as int); }
        }
    }

    /// A nonzero speed becomes the ticks per row.
    fn setspeed(&mut self, val: u8)
        ensures
            *final(self) == (if val != 0 { St3Play { musicmax: val, ..*old(self) } } else { *old(self) }),
    {
        if val != 0 {
            self.musicmax = val;
        }
    }

    /// A tempo above 32 becomes the tempo.
    fn settempo(&mut self, val: u16)
        ensures
            *final(self) == (if val > 32 { St3Play { tempo: val as i16, ..*old(self) } } else { *old(self) }),
    {
        if val > 32 {
            self.tempo = val as i16;
        }
    }

    /// The speed of the note nearest to `spd` (for a glissando slide).
    fn roundspd(&self, ch: usize, spd: i32) -> (r: i32)
        requires
            ch < 32,
        ensures
            r == st3_roundspd(*self, ch as int, spd),
    {
        let c2 = self.chn[ch].ac2spd;
        let n0 = spd.wrapping_mul(c2);
        if self.tracker == SCREAM_TRACKER {
            if tdiv32(n0, 65536) >= 8363 {
                return spd;
            }
        }
        let newspd = tdiv32(n0, 8363);
        let mut octa: u8 = 0;
        let mut lastspd: i32 = (1712 * 8 + 907 * 16) / 2;
        while lastspd >= newspd && lastspd > 0 && octa < 15
            invariant
                0 <= lastspd <= 14104,
                octa <= 15,
                rs_octa(lastspd, newspd, octa) == rs_octa(((1712 * 8 + 907 * 16) / 2) as i32, newspd, 0),
            decreases lastspd,
        {
            octa = octa + 1;
            lastspd = lastspd / 2;
        }
        let mut lastnote: usize = 0;
        let mut newnote: usize = 0;
        let mut best: i32 = if self.tracker == SCREAM_TRACKER { 32767 } else { 32767 * 2 };
        let ghost best0: int = if self.tracker == SCREAM_TRACKER { 32767int } else { 65534int };
        while newnote < 11
            invariant
                newnote <= 11,
                lastnote < 12,
                octa <= 15,
                0 <= best <= 65534,
                -256820 <= newspd <= 256820,
                rs_note(octa, newspd, newnote as int, lastnote as int, best as int) == rs_note(octa, newspd, 0, 0, best0),
            decreases 11 - newnote,
        {
            let mut note = (notespd_at(newnote) >> octa) as i32 - newspd;
            if note < 0 {
                note = -note;
            }
            if note < best {
                best = note;
                lastnote = newnote;
            }
            newnote = newnote + 1;
        }
        let n = ((octa as u32) << 4) as u8 | (lastnote as u8 & 0x0f);
        let ns = (self.stnote2herz(n) as i32) * 8363;
        if self.tracker == SCREAM_TRACKER {
            if tdiv32(ns, 65536) >= c2 {
                return spd;
            }
        }
        if c2 != 0 {
            tdiv32(ns, c2)
        } else {
            ns
        }
    }

    fn s_setgliss(&mut self, i: usize)
        requires
            i < 32,
            st3_wf(*old(self)),
        ensures
            st3_wf(*final(self)),
            final(self).musiccount == old(self).musiccount,
            *final(self) == st3_setgliss(*old(self), i as int),
    {
        self.chn[i].aglis = self.chn[i].info & 0x0f != 0;
        proof { lemma_chn_set(*old(self), *self, i as int); }
    }

    fn s_setfinetune(&mut self, i: usize)
        requires
            i < 32,
            st3_wf(*old(self)),
        ensures
            st3_wf(*final(self)),
            final(self).musiccount == old(self).musiccount,
            *final(self) == st3_setfinetune(*old(self), i as int),
    {
        if self.tracker == OPENMPT || self.tracker == BEROTRACKER {
            let info = self.chn[i].info;
            proof { lemma_nibbles(info); }
            self.chn[i].ac2spd = xfinetune_amiga_at((info & 0x0f) as usize) as i32;
            proof { lemma_chn_set(*old(self), *self, i as int); }
        }
    }

    fn s_setvibwave(&mut self, i: usize)
        requires
            i < 32,
            st3_wf(*old(self)),
        ensures
            st3_wf(*final(self)),
            final(self).musiccount == old(self).musiccount,
            *final(self) == st3_setvibwave(*old(self), i as int),
    {
        let c = self.chn[i];
        self.chn[i].avibtretype = (c.avibtretype & 0xf0) | ((c.info << 1) & 0x0f);
        proof { lemma_chn_set(*old(self), *self, i as int); }
    }

    fn s_settrewave(&mut self, i: usize)
        requires
            i < 32,
            st3_wf(*old(self)),
        ensures
            st3_wf(*final(self)),
            final(self).musiccount == old(self).musiccount,
            *final(self) == st3_settrewave(*old(self), i as int),
    {
        let c = self.chn[i];
        self.chn[i].avibtretype = ((c.info << 5) & 0xf0) | (c.avibtretype & 0x0f);
        proof { lemma_chn_set(*old(self), *self, i as int); }
    }

    fn s_setpanwave(&mut self, i: usize)
        requires
            i < 32,
            st3_wf(*old(self)),
        ensures
            st3_wf(*final(self)),
            final(self).musiccount == old(self).musiccount,
            *final(self) == st3_setpanwave(*old(self), i as int),
    {
        if self.tracker != SCREAM_TRACKER && self.tracker != IMAGO_ORPHEUS {
            self.chn[i].apantype = self.chn[i].info & 0x0f;
            proof { lemma_chn_set(*old(self), *self, i as int); }
        }
    }

    fn s_tickdelay(&mut self, i: usize)
        requires
            i < 32,
            st3_wf(*old(self)),
        ensures
            st3_wf(*final(self)),
            final(self).musiccount == old(self).musiccount,
            *final(self) == st3_tickdelay(*old(self), i as int),
    {
        if self.tracker == OPENMPT || self.tracker == BEROTRACKER || self.tracker == IMPULSE_TRACKER
            || self.tracker == SCHISM_TRACKER {
            self.tickdelay = self.tickdelay.wrapping_add((self.chn[i].info & 0x0f) as i8);
        }
    }

    fn s_setpanpos(&mut self, i: usize, cmds: &mut Vec<MixerCmd>)
        requires
            i < 32,
            st3_wf(*old(self)),
        ensures
            st3_wf(*final(self)),
            final(self).musiccount == old(self).musiccount,
            *final(self) == st3_setpanpos(*old(self), i as int).0,
            final(cmds)@ == old(cmds)@ + st3_setpanpos(*old(self), i as int).1,
    {
        self.chn[i].surround = 0;
        self.chn[i].apanpos = (self.chn[i].info & 0x0f) as i16 * 17;
        proof { assert(self.chn@ =~= old(self).chn@.update(i as int, self.chn@[i as int])); lemma_chn_set(*old(self), *self, i as int); }
        self.setpan(i, cmds);
    }

    fn s_sndcntrl(&mut self, i: usize)
        requires
            i < 32,
            st3_wf(*old(self)),
        ensures
            st3_wf(*final(self)),
            final(self).musiccount == old(self).musiccount,
            *final(self) == st3_sndcntrl(*old(self), i as int),
    {
        let lo = self.chn[i].info & 0x0f;
        if self.tracker != SCREAM_TRACKER && self.tracker != IMAGO_ORPHEUS {
            if lo == 0 {
                self.chn[i].surround = 0;
                proof { lemma_chn_set(*old(self), *self, i as int); }
            } else if lo == 1 {
                self.chn[i].surround = 1;
                proof { lemma_chn_set(*old(self), *self, i as int); }
            }
        }
    }

    fn s_patloop(&mut self, i: usize)
        requires
            i < 32,
            st3_wf(*old(self)),
        ensures
            st3_wf(*final(self)),
            final(self).musiccount == old(self).musiccount,
            *final(self) == st3_patloop(*old(self), i as int),
    {
        let info = self.chn[i].info;
        let lo = info % 16;
        if lo == 0 {
            self.patloopstart = self.np_row;
            return;
        }
        if self.patloopcount == 0 {
            self.patloopcount = lo as i8 + 1;
            if self.patloopstart == -1 {
                self.patloopstart = 0;
            }
        }
        if self.patloopcount > 1 {
            self.patloopcount = self.patloopcount - 1;
            self.jumptorow = self.patloopstart;
            self.np_patoff = -1;
        } else {
            self.patloopcount = 0;
            self.patloopstart = self.np_row.wrapping_add(1);
        }
    }

    fn s_notecut(&mut self, i: usize)
        requires
            i < 32,
            st3_wf(*old(self)),
        ensures
            st3_wf(*final(self)),
            final(self).musiccount == old(self).musiccount,
            *final(self) == st3_notecut(*old(self), i as int),
    {
        self.chn[i].anotecutcnt = self.chn[i].info & 0x0f;
        proof { lemma_chn_set(*old(self), *self, i as int); }
    }

    fn s_notecutb(&mut self, i: usize)
        requires
            i < 32,
            st3_wf(*old(self)),
        ensures
            st3_wf(*final(self)),
            final(self).musiccount == old(self).musiccount,
            st3_seq_same(*old(self), *final(self)),
            *final(self) == st3_notecutb(*old(self), i as int),
    {
        if self.chn[i].anotecutcnt != 0 {
            self.chn[i].anotecutcnt = self.chn[i].anotecutcnt - 1;
            proof { lemma_chn_set(*old(self), *self, i as int); }
        }
    }

    fn s_notedelay(&mut self, i: usize)
        requires
            i < 32,
            st3_wf(*old(self)),
        ensures
            st3_wf(*final(self)),
            final(self).musiccount == old(self).musiccount,
            *final(self) == st3_notedelay(*old(self), i as int),
    {
        self.chn[i].anotedelaycnt = self.chn[i].info & 0x0f;
        proof { lemma_chn_set(*old(self), *self, i as int); }
    }

    fn s_notedelayb(&mut self, i: usize, module: &S3mData, cmds: &mut Vec<MixerCmd>)
        requires
            i < 32,
            st3_wf(*old(self)),
        ensures
            st3_wf(*final(self)),
            final(self).musiccount == old(self).musiccount,
            st3_seq_same(*old(self), *final(self)),
            *final(self) == st3_notedelayb(*old(self), i as int, *module).0,
            final(cmds)@ == old(cmds)@ + st3_notedelayb(*old(self), i as int, *module).1,
    {
        if self.chn[i].anotedelaycnt != 0 {
            self.chn[i].anotedelaycnt = self.chn[i].anotedelaycnt - 1;
            proof { lemma_chn_set(*old(self), *self, i as int); }
            if self.chn[i].anotedelaycnt == 0 {
                self.donewnote(i, true, module, cmds);
            } else {
                assert(cmds@ =~= old(cmds)@ + Seq::<MixerCmd>::empty());
            }
        } else {
            assert(cmds@ =~= old(cmds)@ + Seq::<MixerCmd>::empty());
        }
    }

    fn s_patterdelay(&mut self, i: usize)
        requires
            i < 32,
            st3_wf(*old(self)),
        ensures
            st3_wf(*final(self)),
            final(self).musiccount == old(self).musiccount,
            *final(self) == st3_patterdelay(*old(self), i as int),
    {
        if self.patterndelay == 0 {
            self.patterndelay = (self.chn[i].info & 0x0f) as i8;
        }
    }

    fn s_setspeed(&mut self, i: usize)
        requires
            i < 32,
            st3_wf(*old(self)),
        ensures
            st3_wf(*final(self)),
            final(self).musiccount == old(self).musiccount,
            *final(self) == st3_s_setspeed(*old(self), i as int),
    {
        let info = self.chn[i].info;
        self.setspeed(info);
    }

    fn s_jmpto(&mut self, i: usize)
        requires
            i < 32,
            st3_wf(*old(self)),
        ensures
            st3_wf(*final(self)),
            final(self).musiccount == old(self).musiccount,
            *final(self) == st3_jmpto(*old(self), i as int),
    {
        let info = self.chn[i].info;
        if info != 0xff {
            self.breakpat = 1;
            self.np_ord = info as i16;
        } else {
            self.breakpat = 255;
        }
    }

    fn s_break(&mut self, i: usize)
        requires
            i < 32,
            st3_wf(*old(self)),
        ensures
            st3_wf(*final(self)),
            final(self).musiccount == old(self).musiccount,
            *final(self) == st3_break(*old(self), i as int),
    {
        let info = self.chn[i].info;
        proof { lemma_nibbles(info); }
        self.startrow = ((info >> 4) * 10) + (info & 0x0f);
        self.breakpat = 1;
    }

    /// The volume slide of `v` by `info` (see `vol_slide`), kept to 0 to
    /// `hi`; `None` where the slide does not act on this tick.
    fn vol_slide_exec(v: i32, info: u8, first: bool, fast: bool, hi: i32) -> (r: Option<i32>)
        requires
            -40000 <= v <= 40000,
            0 <= hi <= 256,
        ensures
            vol_slide(v as int, info, first, fast) is None ==> r is None,
            vol_slide(v as int, info, first, fast) matches Some(x) ==> r == Some(clamp(x, 0, hi as int) as i32),
    {
        let infohi = (info >> 4) as i32;
        let infolo = (info & 0x0f) as i32;
        proof { lemma_nibbles(info); }
        let mut v = v;
        if infolo == 0x0f {
            if infohi == 0 {
                v = v - infolo;
            } else if first {
                v = v + infohi;
            }
        } else if infohi == 0x0f {
            if infolo == 0 {
                v = v + infohi;
            } else if first {
                v = v - infolo;
            }
        } else if fast || !first {
            if infolo == 0 {
                v = v + infohi;
            } else {
                v = v - infolo;
            }
        } else {
            return None;
        }
        if v < 0 {
            Some(0)
        } else if v > hi {
            Some(hi)
        } else {
            Some(v)
        }
    }

    /// The pan slide of `v` by `info` (see `pan_slide`), kept to 0 to 256;
    /// `None` where the slide does not act on this tick.
    fn pan_slide_exec(v: i32, info: u8, first: bool) -> (r: Option<i32>)
        requires
            -40000 <= v <= 40000,
        ensures
            pan_slide(v as int, info, first) is None ==> r is None,
            pan_slide(v as int, info, first) matches Some(x) ==> r == Some(clamp(x, 0, 256) as i32),
    {
        let infohi = (info >> 4) as i32;
        let infolo = (info & 0x0f) as i32;
        proof { lemma_nibbles(info); }
        let mut v = v;
        if infolo == 0x0f {
            if infohi == 0 {
                v = v + infolo * 4;
            } else if first {
                v = v - infohi * 4;
            }
        } else if infohi == 0x0f {
            if infolo == 0 {
                v = v - infohi * 4;
            } else if first {
                v = v + infolo * 4;
            }
        } else if !first {
            if infolo == 0 {
                v = v - infohi * 4;
            } else {
                v = v + infolo * 4;
            }
        } else {
            return None;
        }
        if v < 0 {
            Some(0)
        } else if v > 256 {
            Some(256)
        } else {
            Some(v)
        }
    }

    #[verifier::rlimit(40)]
    fn s_volslide(&mut self, i: usize, cmds: &mut Vec<MixerCmd>)
        requires
            i < 32,
            st3_wf(*old(self)),
        ensures
            st3_wf(*final(self)),
            final(self).musiccount == old(self).musiccount,
            st3_seq_same(*old(self), *final(self)),
            *final(self) == st3_volslide(*old(self), i as int).0,
            final(cmds)@ == old(cmds)@ + st3_volslide(*old(self), i as int).1,
    {
        self.getlastnfo(i);
        let ghost p1 = *self;
        let c = self.chn[i];
        let v = match Self::vol_slide_exec(c.avol as i32, c.info, self.musiccount == 0, self.fastvolslide, 63) {
            Some(v) => v,
            None => {
                assert(cmds@ =~= old(cmds)@ + Seq::<MixerCmd>::empty());
                return;
            },
        };
        self.chn[i] = Chn { avol: v as i8, ..c };
        proof { lemma_chn_set(p1, *self, i as int); }
        self.setvol(i, cmds);
        let ghost k3 = cmds@;
        if self.volslidetype == 1 {
            self.s_vibrato(i, cmds);
        } else if self.volslidetype == 2 {
            self.s_toneslide(i, cmds);
        }
        assert(cmds@ =~= old(cmds)@ + st3_volslide(*old(self), i as int).1);
    }

    fn s_slidedown(&mut self, i: usize, cmds: &mut Vec<MixerCmd>)
        requires
            i < 32,
            st3_wf(*old(self)),
        ensures
            st3_wf(*final(self)),
            final(self).musiccount == old(self).musiccount,
            st3_seq_same(*old(self), *final(self)),
            *final(self) == st3_slide(*old(self), i as int, false).0,
            final(cmds)@ == old(cmds)@ + st3_slide(*old(self), i as int, false).1,
    {
        if self.chn[i].aorgspd == 0 {
            assert(cmds@ =~= old(cmds)@ + Seq::<MixerCmd>::empty());
            return;
        }
        self.getlastnfo(i);
        let ghost p1 = *self;
        let c = self.chn[i];
        let d: i32 = if self.musiccount != 0 {
            if c.info >= 0xe0 {
                assert(cmds@ =~= old(cmds)@ + Seq::<MixerCmd>::empty());
                return;
            }
            c.info as i32 * 4
        } else if c.info <= 0xe0 {
            assert(cmds@ =~= old(cmds)@ + Seq::<MixerCmd>::empty());
            return;
        } else if c.info <= 0xf0 {
            (c.info & 0x0f) as i32
        } else {
            (c.info & 0x0f) as i32 * 4
        };
        let a = {
            let x = c.aspd.wrapping_add(d);
            if x > 32767 { 32767 } else { x }
        };
        self.chn[i] = Chn { aspd: a, aorgspd: a, ..c };
        proof { lemma_chn_set(p1, *self, i as int); }
        self.setspd(i, cmds);
    }

    fn s_slideup(&mut self, i: usize, cmds: &mut Vec<MixerCmd>)
        requires
            i < 32,
            st3_wf(*old(self)),
        ensures
            st3_wf(*final(self)),
            final(self).musiccount == old(self).musiccount,
            st3_seq_same(*old(self), *final(self)),
            *final(self) == st3_slide(*old(self), i as int, true).0,
            final(cmds)@ == old(cmds)@ + st3_slide(*old(self), i as int, true).1,
    {
        if self.chn[i].aorgspd == 0 {
            assert(cmds@ =~= old(cmds)@ + Seq::<MixerCmd>::empty());
            return;
        }
        self.getlastnfo(i);
        let ghost p1 = *self;
        let c = self.chn[i];
        let d: i32 = if self.musiccount != 0 {
            if c.info >= 0xe0 {
                assert(cmds@ =~= old(cmds)@ + Seq::<MixerCmd>::empty());
                return;
            }
            c.info as i32 * 4
        } else if c.info <= 0xe0 {
            assert(cmds@ =~= old(cmds)@ + Seq::<MixerCmd>::empty());
            return;
        } else if c.info <= 0xf0 {
            (c.info & 0x0f) as i32
        } else {
            (c.info & 0x0f) as i32 * 4
        };
        let a = {
            let x = c.aspd.wrapping_sub(d);
            if x < 0 { 0 } else { x }
        };
        self.chn[i] = Chn { aspd: a, aorgspd: a, ..c };
        proof { lemma_chn_set(p1, *self, i as int); }
        self.setspd(i, cmds);
    }

    fn s_toneslide(&mut self, i: usize, cmds: &mut Vec<MixerCmd>)
        requires
            i < 32,
            st3_wf(*old(self)),
        ensures
            st3_wf(*final(self)),
            final(self).musiccount == old(self).musiccount,
            st3_seq_same(*old(self), *final(self)),
            *final(self) == st3_toneslide(*old(self), i as int).0,
            final(cmds)@ == old(cmds)@ + st3_toneslide(*old(self), i as int).1,
    {
        let c = self.chn[i];
        let c2 = if self.volslidetype == 2 {
            Chn { info: c.alasteff1, ..c }
        } else {
            if c.aorgspd == 0 && c.asldspd == 0 {
                assert(cmds@ =~= old(cmds)@ + Seq::<MixerCmd>::empty());
                return;
            }
            let c1 = if c.aorgspd == 0 { Chn { aorgspd: c.asldspd, aspd: c.asldspd, ..c } } else { c };
            if c1.info == 0 { Chn { info: c1.alasteff1, ..c1 } } else { Chn { alasteff1: c1.info, ..c1 } }
        };
        self.chn[i] = c2;
        proof { lemma_chn_set(*old(self), *self, i as int); }
        if c2.aorgspd != c2.asldspd {
            let o = if c2.aorgspd < c2.asldspd {
                let a = c2.aorgspd.wrapping_add(c2.info as i32 * 4);
                if a > c2.asldspd { c2.asldspd } else { a }
            } else {
                let a = c2.aorgspd.wrapping_sub(c2.info as i32 * 4);
                if a < c2.asldspd { c2.asldspd } else { a }
            };
            let c3 = Chn { aorgspd: o, ..c2 };
            let ghost p1 = *self;
            self.chn[i] = c3;
            proof { lemma_chn_set(p1, *self, i as int); }
            let rs = if c3.aglis { self.roundspd(i, o) } else { o };
            let ghost p2 = *self;
            self.chn[i] = Chn { aspd: rs, ..c3 };
            proof { lemma_chn_set(p2, *self, i as int); }
            self.setspd(i, cmds);
        } else {
            assert(cmds@ =~= old(cmds)@ + Seq::<MixerCmd>::empty());
        }
    }


    /// The wave value at counter `cnt` for wave type `t` (sine, ramp,
    /// square, random; types 4 to 7 keep running across notes), and the
    /// counter after it.
    fn wave(&self, t: u8, cnt: usize) -> (r: (i32, usize))
        ensures
            r == st3_wave(*self, t, cnt),
    {
        let mut cnt = cnt;
        if t > 7 {
            return (0, cnt);
        }
        if t >= 4 {
            cnt = cnt & 0x7f;
        } else if cnt & 0x80 != 0 {
            cnt = 0;
        }
        let idx = (cnt & 0x7f) / 2;
        proof { lemma_low7(cnt); }
        let k = t & 3;
        let dat: i32 = if k == 0 || k == 3 {
            vibsin(idx) as i32
        } else if k == 1 {
            vibramp(idx) as i32
        } else {
            vibsqu(idx) as i32
        };
        if k == 3 {
            cnt = cnt.wrapping_add((self.patmusicrand & 0x1e) as usize);
        }
        (dat, cnt)
    }

    /// The vibrato step of channel `i`; see `st3_vib_apply`.
    fn vib_apply(&mut self, i: usize, sh: i64, cmds: &mut Vec<MixerCmd>)
        requires
            i < 32,
            4 <= sh <= 7,
            st3_wf(*old(self)),
        ensures
            st3_wf(*final(self)),
            final(self).musiccount == old(self).musiccount,
            st3_seq_same(*old(self), *final(self)),
            *final(self) == st3_vib_apply(*old(self), i as int, sh).0,
            final(cmds)@ == old(cmds)@ + st3_vib_apply(*old(self), i as int, sh).1,
    {
        let c1 = self.chn[i];
        if c1.aorgspd != 0 {
            let vtype = (c1.avibtretype & 0x0e) >> 1;
            let (dat, cnt) = self.wave(vtype, c1.avibcnt as usize);
            let d = (dat as i64).wrapping_mul((c1.info & 0x0f) as i64);
            let c2 = Chn { aspd: ((d >> sh) as i32).wrapping_add(c1.aorgspd), ..c1 };
            self.chn[i] = c2;
            proof { lemma_chn_set(*old(self), *self, i as int); }
            self.setspd(i, cmds);
            let ghost mid = *self;
            let c3 = self.chn[i];
            let info = c3.info;
            self.chn[i] = Chn { avibcnt: ((cnt.wrapping_add(((info >> 4) as usize) * 2)) & 0x7e) as i16, ..c3 };
            proof { lemma_chn_set(mid, *self, i as int); }
        } else {
            assert(cmds@ =~= old(cmds)@ + Seq::<MixerCmd>::empty());
        }
    }

    fn s_vibrato(&mut self, i: usize, cmds: &mut Vec<MixerCmd>)
        requires
            i < 32,
            st3_wf(*old(self)),
        ensures
            st3_wf(*final(self)),
            final(self).musiccount == old(self).musiccount,
            st3_seq_same(*old(self), *final(self)),
            *final(self) == st3_vibrato(*old(self), i as int).0,
            final(cmds)@ == old(cmds)@ + st3_vibrato(*old(self), i as int).1,
    {
        let c = self.chn[i];
        let c1 = if self.volslidetype == 1 {
            Chn { info: c.alasteff, ..c }
        } else {
            let mut ca = c;
            if ca.info == 0 {
                ca.info = ca.alasteff;
            }
            if ca.info & 0xf0 == 0 {
                ca.info = (ca.alasteff & 0xf0) | (ca.info & 0x0f);
            }
            ca.alasteff = ca.info;
            ca
        };
        self.chn[i] = c1;
        proof { lemma_chn_set(*old(self), *self, i as int); }
        let sh: i64 = if self.oldstvib { 4 } else { 5 };
        self.vib_apply(i, sh, cmds);
    }

    fn s_finevibrato(&mut self, i: usize, cmds: &mut Vec<MixerCmd>)
        requires
            i < 32,
            st3_wf(*old(self)),
        ensures
            st3_wf(*final(self)),
            final(self).musiccount == old(self).musiccount,
            st3_seq_same(*old(self), *final(self)),
            *final(self) == st3_finevibrato(*old(self), i as int).0,
            final(cmds)@ == old(cmds)@ + st3_finevibrato(*old(self), i as int).1,
    {
        let mut c = self.chn[i];
        if c.info == 0 {
            c.info = c.alasteff;
        }
        if c.info & 0xf0 == 0 {
            c.info = (c.alasteff & 0xf0) | (c.info & 0x0f);
        }
        c.alasteff = c.info;
        self.chn[i] = c;
        proof { lemma_chn_set(*old(self), *self, i as int); }
        let sh: i64 = if self.oldstvib { 6 } else { 7 };
        self.vib_apply(i, sh, cmds);
    }

    #[verifier::rlimit(40)]
    fn s_tremolo(&mut self, i: usize, cmds: &mut Vec<MixerCmd>)
        requires
            i < 32,
            st3_wf(*old(self)),
        ensures
            st3_wf(*final(self)),
            final(self).musiccount == old(self).musiccount,
            st3_seq_same(*old(self), *final(self)),
            *final(self) == st3_tremolo(*old(self), i as int).0,
            final(cmds)@ == old(cmds)@ + st3_tremolo(*old(self), i as int).1,
    {
        self.getlastnfo(i);
        let ghost p0 = *self;
        let mut c = self.chn[i];
        if c.info & 0xf0 == 0 {
            c.info = (c.alastnfo & 0xf0) | (c.info & 0x0f);
        }
        c.alastnfo = c.info;
        self.chn[i] = c;
        proof { lemma_chn_set(p0, *self, i as int); }
        if c.aorgvol != 0 {
            let ttype = c.avibtretype >> 5;
            let (dat, cnt) = self.wave(ttype, c.avibcnt as usize);
            let d = ((dat as i64).wrapping_mul((c.info & 0x0f) as i64) >> 7).wrapping_add(c.aorgvol as i64);
            let v: i8 = if d > 63 { 63 } else if d < 0 { 0 } else { d as i8 };
            let ghost p1 = *self;
            self.chn[i] = Chn { avol: v, ..c };
            proof { lemma_chn_set(p1, *self, i as int); }
            self.setvol(i, cmds);
            let ghost mid = *self;
            let c3 = self.chn[i];
            let info = c3.info;
            self.chn[i] = Chn { avibcnt: ((cnt.wrapping_add(((info >> 4) as usize) * 2)) & 0x7e) as i16, ..c3 };
            proof { lemma_chn_set(mid, *self, i as int); }
        } else {
            assert(cmds@ =~= old(cmds)@ + Seq::<MixerCmd>::empty());
        }
    }

    fn s_tremor(&mut self, i: usize, cmds: &mut Vec<MixerCmd>)
        requires
            i < 32,
            st3_wf(*old(self)),
        ensures
            st3_wf(*final(self)),
            final(self).musiccount == old(self).musiccount,
            st3_seq_same(*old(self), *final(self)),
            *final(self) == st3_tremor(*old(self), i as int).0,
            final(cmds)@ == old(cmds)@ + st3_tremor(*old(self), i as int).1,
    {
        self.getlastnfo(i);
        let ghost p0 = *self;
        let c = self.chn[i];
        if c.atremor != 0 {
            self.chn[i] = Chn { atremor: c.atremor - 1, ..c };
            proof { lemma_chn_set(p0, *self, i as int); }
            assert(cmds@ =~= old(cmds)@ + Seq::<MixerCmd>::empty());
            return;
        }
        let on = c.atreon;
        if on {
            self.chn[i] = Chn { atreon: false, avol: 0, ..c };
        } else {
            self.chn[i] = Chn { atreon: true, avol: c.aorgvol, ..c };
        }
        proof { lemma_chn_set(p0, *self, i as int); }
        self.setvol(i, cmds);
        let ghost mid = *self;
        let c2 = self.chn[i];
        if on {
            self.chn[i] = Chn { atremor: c2.info & 0x0f, ..c2 };
        } else {
            self.chn[i] = Chn { atremor: c2.info >> 4, ..c2 };
        }
        proof { lemma_chn_set(mid, *self, i as int); }
    }

    fn s_arp(&mut self, i: usize, cmds: &mut Vec<MixerCmd>)
        requires
            i < 32,
            st3_wf(*old(self)),
        ensures
            st3_wf(*final(self)),
            final(self).musiccount == old(self).musiccount,
            st3_seq_same(*old(self), *final(self)),
            *final(self) == st3_arp(*old(self), i as int).0,
            final(cmds)@ == old(cmds)@ + st3_arp(*old(self), i as int).1,
    {
        self.getlastnfo(i);
        let ghost p0 = *self;
        let c = self.chn[i];
        let tick = self.musiccount % 3;
        let noteadd = if tick == 1 { c.info >> 4 } else if tick == 2 { c.info & 0x0f } else { 0 };
        let mut octa: u8 = c.lastnote & 0xf0;
        let ln = c.lastnote;
        let info = c.info;
        proof { lemma_nibbles(info); lemma_nibbles(ln); }
        let mut note: u8 = (c.lastnote & 0x0f) + noteadd;
        let ghost n0 = note;
        while note >= 12
            invariant
                note <= 30,
                arp_carry(note, octa) == arp_carry(n0, c.lastnote & 0xf0),
            decreases note,
        {
            note = note - 12;
            octa = octa.wrapping_add(16);
        }
        let spd = self.stnote2herz(octa | note) as i32;
        let sp = self.scalec2spd_c(&c, spd);
        self.chn[i] = Chn { aspd: sp, ..c };
        proof { lemma_chn_set(p0, *self, i as int); }
        self.setspd(i, cmds);
    }

    fn s_chanvol(&mut self, i: usize, cmds: &mut Vec<MixerCmd>)
        requires
            i < 32,
            st3_wf(*old(self)),
        ensures
            st3_wf(*final(self)),
            final(self).musiccount == old(self).musiccount,
            *final(self) == st3_chanvol(*old(self), i as int).0,
            final(cmds)@ == old(cmds)@ + st3_chanvol(*old(self), i as int).1,
    {
        if self.tracker != SCREAM_TRACKER && self.tracker != IMAGO_ORPHEUS {
            if self.chn[i].info <= 0x40 {
                self.chn[i].chanvol = self.chn[i].info as i8;
            }
            proof { assert(self.chn@ =~= old(self).chn@.update(i as int, self.chn@[i as int])); lemma_chn_set(*old(self), *self, i as int); }
            self.setvol(i, cmds);
        }
    }

    fn s_chanvolslide(&mut self, i: usize, cmds: &mut Vec<MixerCmd>)
        requires
            i < 32,
            st3_wf(*old(self)),
        ensures
            st3_wf(*final(self)),
            final(self).musiccount == old(self).musiccount,
            st3_seq_same(*old(self), *final(self)),
            *final(self) == st3_chanvolslide(*old(self), i as int).0,
            final(cmds)@ == old(cmds)@ + st3_chanvolslide(*old(self), i as int).1,
    {
        if self.tracker != SCREAM_TRACKER && self.tracker != IMAGO_ORPHEUS {
            let c = self.chn[i];
            let c1 = if c.info != 0 { Chn { nxymem: c.info, ..c } } else { Chn { info: c.nxymem, ..c } };
            self.chn[i] = c1;
            proof { lemma_chn_set(*old(self), *self, i as int); }
            let ghost p1 = *self;
            match Self::vol_slide_exec(c1.chanvol as i32, c1.nxymem, self.musiccount == 0, false, 64) {
                Some(v) => {
                    self.chn[i] = Chn { chanvol: v as i8, ..c1 };
                    proof { lemma_chn_set(p1, *self, i as int); }
                    self.setvol(i, cmds);
                },
                None => {
                    assert(cmds@ =~= old(cmds)@ + Seq::<MixerCmd>::empty());
                },
            }
        } else {
            assert(cmds@ =~= old(cmds)@ + Seq::<MixerCmd>::empty());
        }
    }

    fn s_vibvol(&mut self, i: usize, cmds: &mut Vec<MixerCmd>)
        requires
            i < 32,
            st3_wf(*old(self)),
        ensures
            st3_wf(*final(self)),
            final(self).musiccount == old(self).musiccount,
            st3_seq_same(*old(self), *final(self)),
            *final(self) == st3_vibvol(*old(self), i as int).0,
            final(cmds)@ == old(cmds)@ + st3_vibvol(*old(self), i as int).1,
    {
        self.volslidetype = 1;
        self.s_volslide(i, cmds);
    }

    fn s_tonevol(&mut self, i: usize, cmds: &mut Vec<MixerCmd>)
        requires
            i < 32,
            st3_wf(*old(self)),
        ensures
            st3_wf(*final(self)),
            final(self).musiccount == old(self).musiccount,
            st3_seq_same(*old(self), *final(self)),
            *final(self) == st3_tonevol(*old(self), i as int).0,
            final(cmds)@ == old(cmds)@ + st3_tonevol(*old(self), i as int).1,
    {
        self.volslidetype = 2;
        self.s_volslide(i, cmds);
    }

    fn s_panslide(&mut self, i: usize, cmds: &mut Vec<MixerCmd>)
        requires
            i < 32,
            st3_wf(*old(self)),
        ensures
            st3_wf(*final(self)),
            final(self).musiccount == old(self).musiccount,
            st3_seq_same(*old(self), *final(self)),
            *final(self) == st3_panslide(*old(self), i as int).0,
            final(cmds)@ == old(cmds)@ + st3_panslide(*old(self), i as int).1,
    {
        if self.tracker != SCREAM_TRACKER && self.tracker != IMAGO_ORPHEUS {
            let c = self.chn[i];
            let c1 = if c.info != 0 { Chn { pxymem: c.info, ..c } } else { Chn { info: c.pxymem, ..c } };
            self.chn[i] = c1;
            proof { lemma_chn_set(*old(self), *self, i as int); }
            let ghost p1 = *self;
            match Self::pan_slide_exec(c1.apanpos as i32, c1.pxymem, self.musiccount == 0) {
                Some(v) => {
                    self.chn[i] = Chn { apanpos: v as i16, ..c1 };
                    proof { lemma_chn_set(p1, *self, i as int); }
                    self.setpan(i, cmds);
                },
                None => {
                    assert(cmds@ =~= old(cmds)@ + Seq::<MixerCmd>::empty());
                },
            }
        } else {
            assert(cmds@ =~= old(cmds)@ + Seq::<MixerCmd>::empty());
        }
    }

    fn s_retrig(&mut self, i: usize, cmds: &mut Vec<MixerCmd>)
        requires
            i < 32,
            st3_wf(*old(self)),
        ensures
            st3_wf(*final(self)),
            final(self).musiccount == old(self).musiccount,
            st3_seq_same(*old(self), *final(self)),
            *final(self) == st3_retrig(*old(self), i as int).0,
            final(cmds)@ == old(cmds)@ + st3_retrig(*old(self), i as int).1,
    {
        self.getlastnfo(i);
        let ghost p0 = *self;
        let c = self.chn[i];
        if c.info & 0x0f == 0 || c.atrigcnt < (c.info & 0x0f) {
            self.chn[i] = Chn { atrigcnt: c.atrigcnt.wrapping_add(1), ..c };
            proof { lemma_chn_set(p0, *self, i as int); }
            assert(cmds@ =~= old(cmds)@ + Seq::<MixerCmd>::empty());
            return;
        }
        cmds.push(MixerCmd::SetVoicePos(i, 0));
        let ghost k0 = cmds@;
        let info = c.info;
        proof { lemma_nibbles(info); }
        let ih = (info >> 4) as usize;
        let v = c.avol as i32;
        let m = retrigvoladd(16 + ih) as i32;
        let v1: i32 = if m == 0 {
            v + retrigvoladd(ih) as i32
        } else {
            assert(-128 <= v <= 127 && -16 <= m <= 32 ==> -4096 <= v * m <= 4096) by (nonlinear_arith);
            tdiv32(v * m, 16)
        };
        let v2: i8 = if v1 > 63 { 63 } else if v1 < 0 { 0 } else { v1 as i8 };
        self.chn[i] = Chn { atrigcnt: 0, avol: v2, ..c };
        proof { lemma_chn_set(p0, *self, i as int); }
        self.setvol(i, cmds);
        let ghost mid = *self;
        let c2 = self.chn[i];
        self.chn[i] = Chn { atrigcnt: c2.atrigcnt.wrapping_add(1), ..c2 };
        proof { lemma_chn_set(mid, *self, i as int); }
        assert(cmds@ =~= old(cmds)@ + st3_retrig(*old(self), i as int).1);
    }

    fn s_settempo(&mut self, i: usize)
        requires
            i < 32,
            st3_wf(*old(self)),
        ensures
            st3_wf(*final(self)),
            final(self).musiccount == old(self).musiccount,
            st3_seq_same(*old(self), *final(self)),
            *final(self) == st3_s_settempo(*old(self), i as int),
    {
        let c = self.chn[i];
        if self.musiccount == 0 && c.info >= 0x20 {
            self.tempo = c.info as i16;
        }
        let ghost p1 = *self;
        if self.tracker != SCREAM_TRACKER && self.tracker != IMAGO_ORPHEUS {
            if self.musiccount == 0 {
                if c.info == 0 {
                    self.chn[i] = Chn { info: c.txxmem, ..c };
                } else {
                    self.chn[i] = Chn { txxmem: c.info, ..c };
                }
                proof { lemma_chn_set(p1, *self, i as int); }
            } else {
                let t = self.tempo as i32;
                if c.info <= 0x0f {
                    let t2 = t - c.info as i32;
                    self.tempo = (if t2 < 32 { 32 } else { t2 }) as i16;
                } else if c.info <= 0x1f {
                    let t2 = t + c.info as i32 - 0x10;
                    self.tempo = (if t2 > 255 { 255 } else { t2 }) as i16;
                }
            }
        }
        let tempo = self.tempo as u16;
        self.settempo(tempo);
    }

    fn s_setgvol(&mut self, i: usize)
        requires
            i < 32,
            st3_wf(*old(self)),
        ensures
            st3_wf(*final(self)),
            final(self).musiccount == old(self).musiccount,
            st3_seq_same(*old(self), *final(self)),
            *final(self) == st3_setgvol(*old(self), i as int),
    {
        if self.chn[i].info <= 64 {
            self.globalvol = self.chn[i].info as i16;
        }
    }

    fn s_globvolslide(&mut self, i: usize, cmds: &mut Vec<MixerCmd>)
        requires
            i < 32,
            st3_wf(*old(self)),
        ensures
            st3_wf(*final(self)),
            final(self).musiccount == old(self).musiccount,
            st3_seq_same(*old(self), *final(self)),
            *final(self) == st3_globvolslide(*old(self), i as int).0,
            final(cmds)@ == old(cmds)@ + st3_globvolslide(*old(self), i as int).1,
    {
        if self.tracker != SCREAM_TRACKER && self.tracker != IMAGO_ORPHEUS {
            let c = self.chn[i];
            let c1 = if c.info != 0 { Chn { wxymem: c.info, ..c } } else { Chn { info: c.wxymem, ..c } };
            self.chn[i] = c1;
            proof { lemma_chn_set(*old(self), *self, i as int); }
            match Self::vol_slide_exec(self.globalvol as i32, c1.wxymem, self.musiccount == 0, false, 64) {
                Some(v) => {
                    self.globalvol = v as i16;
                    let ghost p2 = *self;
                    let n = self.lastachannelused as usize + 1;
                    let mut k: usize = 0;
                    while k < n
                        invariant
                            n <= 32,
                            k <= n,
                            n == p2.lastachannelused + 1,
                            st3_wf(*self),
                            st3_setvols(*self, k as int, n as int).0 == st3_setvols(p2, 0, n as int).0,
                            cmds@ + st3_setvols(*self, k as int, n as int).1
                                == old(cmds)@ + st3_setvols(p2, 0, n as int).1,
                            self.lastachannelused == p2.lastachannelused,
                            self.musiccount == old(self).musiccount,
                            st3_seq_same(*old(self), *self),
                        decreases n - k,
                    {
                        let ghost before = *self;
                        let ghost kb = cmds@;
                        self.setvol(k, cmds);
                        proof {
                            let (q1, k1) = st3_setvol(before, k as int);
                            assert(st3_setvols(before, k as int, n as int).0 == st3_setvols(q1, k + 1, n as int).0);
                            assert(kb + st3_setvols(before, k as int, n as int).1
                                =~= cmds@ + st3_setvols(*self, k + 1, n as int).1);
                        }
                        k = k + 1;
                    }
                    assert(cmds@ =~= cmds@ + st3_setvols(*self, k as int, n as int).1);
                },
                None => {
                    assert(cmds@ =~= old(cmds)@ + Seq::<MixerCmd>::empty());
                },
            }
        } else {
            assert(cmds@ =~= old(cmds)@ + Seq::<MixerCmd>::empty());
        }
    }

    fn s_setpan(&mut self, i: usize, cmds: &mut Vec<MixerCmd>)
        requires
            i < 32,
            st3_wf(*old(self)),
        ensures
            st3_wf(*final(self)),
            final(self).musiccount == old(self).musiccount,
            *final(self) == st3_s_setpan(*old(self), i as int).0,
            final(cmds)@ == old(cmds)@ + st3_s_setpan(*old(self), i as int).1,
    {
        let info = self.chn[i].info;
        if info <= 0x80 {
            self.chn[i].surround = 0;
            self.chn[i].apanpos = info as i16 * 2;
            proof { assert(self.chn@ =~= old(self).chn@.update(i as int, self.chn@[i as int])); lemma_chn_set(*old(self), *self, i as int); }
            self.setpan(i, cmds);
        } else if info == 0xa4 {
            if self.tracker != SCREAM_TRACKER && self.tracker != IMAGO_ORPHEUS {
                self.chn[i].surround = 1;
                proof { lemma_chn_set(*old(self), *self, i as int); }
            }
        }
    }

    fn s_panbrello(&mut self, i: usize, cmds: &mut Vec<MixerCmd>)
        requires
            i < 32,
            st3_wf(*old(self)),
        ensures
            st3_wf(*final(self)),
            final(self).musiccount == old(self).musiccount,
            st3_seq_same(*old(self), *final(self)),
            *final(self) == st3_panbrello(*old(self), i as int).0,
            final(cmds)@ == old(cmds)@ + st3_panbrello(*old(self), i as int).1,
    {
        if self.tracker != SCREAM_TRACKER && self.tracker != IMAGO_ORPHEUS {
            let mut c = self.chn[i];
            if self.musiccount == 0 {
                if c.info == 0 {
                    c.info = c.alasteff;
                } else {
                    c.yxymem = c.info;
                }
                if c.info & 0xf0 == 0 {
                    c.info = (c.yxymem & 0xf0) | (c.info & 0x0f);
                }
                if c.info & 0x0f == 0 {
                    c.info = (c.info & 0xf0) | (c.yxymem & 0x0f);
                }
            }
            let (dat, cnt) = self.wave(c.apantype, c.apancnt as usize);
            let mut d = ((dat as i64).wrapping_mul((c.info & 0x0f) as i64) >> 4).wrapping_add(c.apanpos as i64);
            if d < 0 {
                d = 0;
            } else if d > 256 {
                d = 256;
            }
            cmds.push(MixerCmd::SetPan(i, d as isize - 128));
            c.apancnt = ((cnt.wrapping_add(((c.info >> 6) as usize) * 2)) & 0x7e) as i16;
            self.chn[i] = c;
            proof { lemma_chn_set(*old(self), *self, i as int); }
            assert(cmds@ =~= old(cmds)@ + st3_panbrello(*old(self), i as int).1);
        } else {
            assert(cmds@ =~= old(cmds)@ + Seq::<MixerCmd>::empty());
        }
    }

    /// The first-tick part of an S command: the subcommand is the high
    /// nibble of the info byte (as the S2x and SDx tests elsewhere read it).
    fn ssoncejmp(&mut self, i: usize, cmds: &mut Vec<MixerCmd>)
        requires
            i < 32,
            st3_wf(*old(self)),
        ensures
            st3_wf(*final(self)),
            final(self).musiccount == old(self).musiccount,
            *final(self) == st3_ssoncejmp(*old(self), i as int).0,
            final(cmds)@ == old(cmds)@ + st3_ssoncejmp(*old(self), i as int).1,
    {
        let k = self.chn[i].info >> 4;
        if k == 0x1 {
            self.s_setgliss(i);
        } else if k == 0x2 {
            self.s_setfinetune(i);
        } else if k == 0x3 {
            self.s_setvibwave(i);
        } else if k == 0x4 {
            self.s_settrewave(i);
        } else if k == 0x5 {
            self.s_setpanwave(i);
        } else if k == 0x6 {
            self.s_tickdelay(i);
        } else if k == 0x8 {
            self.s_setpanpos(i, cmds);
        } else if k == 0x9 {
            self.s_sndcntrl(i);
        } else if k == 0xb {
            self.s_patloop(i);
        } else if k == 0xc {
            self.s_notecut(i);
        } else if k == 0xd {
            self.s_notedelay(i);
        } else if k == 0xe {
            self.s_patterdelay(i);
        }
        assert(cmds@ =~= old(cmds)@ + st3_ssoncejmp(*old(self), i as int).1);
    }

    /// The later-tick part of an S command, by the info byte's high nibble.
    fn ssotherjmp(&mut self, i: usize, module: &S3mData, cmds: &mut Vec<MixerCmd>)
        requires
            i < 32,
            st3_wf(*old(self)),
        ensures
            st3_wf(*final(self)),
            final(self).musiccount == old(self).musiccount,
            st3_seq_same(*old(self), *final(self)),
            *final(self) == st3_ssotherjmp(*old(self), i as int, *module).0,
            final(cmds)@ == old(cmds)@ + st3_ssotherjmp(*old(self), i as int, *module).1,
    {
        let k = self.chn[i].info >> 4;
        if k == 0xc {
            self.s_notecutb(i);
        } else if k == 0xd {
            self.s_notedelayb(i, module, cmds);
        }
        assert(cmds@ =~= old(cmds)@ + st3_ssotherjmp(*old(self), i as int, *module).1);
    }

    fn soncejmp(&mut self, i: usize, cmds: &mut Vec<MixerCmd>)
        requires
            i < 32,
            st3_wf(*old(self)),
        ensures
            st3_wf(*final(self)),
            final(self).musiccount == old(self).musiccount,
            *final(self) == st3_soncejmp(*old(self), i as int).0,
            final(cmds)@ == old(cmds)@ + st3_soncejmp(*old(self), i as int).1,
    {
        proof { reveal(st3_soncejmp); }
        let k = self.chn[i].cmd;
        if k == 1 {
            self.s_setspeed(i);
        } else if k == 2 {
            self.s_jmpto(i);
        } else if k == 3 {
            self.s_break(i);
        } else if k == 4 {
            self.s_volslide(i, cmds);
        } else if k == 5 {
            self.s_slidedown(i, cmds);
        } else if k == 6 {
            self.s_slideup(i, cmds);
        } else if k == 9 {
            self.s_tremor(i, cmds);
        } else if k == 10 {
            self.s_arp(i, cmds);
        } else if k == 13 {
            self.s_chanvol(i, cmds);
        } else if k == 14 {
            self.s_chanvolslide(i, cmds);
        } else if k == 16 {
            self.s_panslide(i, cmds);
        } else if k == 17 {
            self.s_retrig(i, cmds);
        } else if k == 19 {
            self.getlastnfo(i);
            self.ssoncejmp(i, cmds);
        } else if k == 20 {
            self.s_settempo(i);
        } else if k == 23 {
            self.s_globvolslide(i, cmds);
        } else if k == 24 {
            self.s_setpan(i, cmds);
        } else if k == 25 {
            self.s_panbrello(i, cmds);
        }
        assert(cmds@ =~= old(cmds)@ + st3_soncejmp(*old(self), i as int).1);
    }

    fn sotherjmp(&mut self, i: usize, module: &S3mData, cmds: &mut Vec<MixerCmd>)
        requires
            i < 32,
            st3_wf(*old(self)),
        ensures
            st3_wf(*final(self)),
            final(self).musiccount == old(self).musiccount,
            st3_seq_same(*old(self), *final(self)),
            *final(self) == st3_sotherjmp(*old(self), i as int, *module).0,
            final(cmds)@ == old(cmds)@ + st3_sotherjmp(*old(self), i as int, *module).1,
    {
        proof { reveal(st3_sotherjmp); }
        let k = self.chn[i].cmd;
        if k == 4 {
            self.s_volslide(i, cmds);
        } else if k == 5 {
            self.s_slidedown(i, cmds);
        } else if k == 6 {
            self.s_slideup(i, cmds);
        } else if k == 7 {
            self.s_toneslide(i, cmds);
        } else if k == 8 {
            self.s_vibrato(i, cmds);
        } else if k == 9 {
            self.s_tremor(i, cmds);
        } else if k == 10 {
            self.s_arp(i, cmds);
        } else if k == 11 {
            self.s_vibvol(i, cmds);
        } else if k == 12 {
            self.s_tonevol(i, cmds);
        } else if k == 14 {
            self.s_chanvolslide(i, cmds);
        } else if k == 16 {
            self.s_panslide(i, cmds);
        } else if k == 17 {
            self.s_retrig(i, cmds);
        } else if k == 18 {
            self.s_tremolo(i, cmds);
        } else if k == 19 {
            self.getlastnfo(i);
            self.ssotherjmp(i, module, cmds);
        } else if k == 20 {
            self.s_settempo(i);
        } else if k == 21 {
            self.s_finevibrato(i, cmds);
        } else if k == 22 {
            self.s_setgvol(i);
        } else if k == 23 {
            self.s_globvolslide(i, cmds);
        } else if k == 25 {
            self.s_panbrello(i, cmds);
        }
        assert(cmds@ =~= old(cmds)@ + st3_sotherjmp(*old(self), i as int, *module).1);
    }

    fn donewnote(&mut self, i: usize, notedelayflag: bool, module: &S3mData, cmds: &mut Vec<MixerCmd>)
        requires
            i < 32,
            st3_wf(*old(self)),
        ensures
            st3_wf(*final(self)),
            final(self).musiccount == old(self).musiccount,
            st3_seq_same(*old(self), *final(self)),
            *final(self) == st3_donewnote(*old(self), i as int, notedelayflag, *module).0,
            final(cmds)@ == old(cmds)@ + st3_donewnote(*old(self), i as int, notedelayflag, *module).1,
    {
        if notedelayflag {
            self.chn[i].achannelused = 0x81;
            proof { lemma_chn_set(*old(self), *self, i as int); }
        } else {
            let num = self.chn[i].channelnum;
            if num > self.lastachannelused {
                self.lastachannelused = num.wrapping_add(1);
                if self.lastachannelused > 31 {
                    self.lastachannelused = 31;
                }
            }
            let ghost q = *self;
            self.chn[i].achannelused = 0x01;
            proof { lemma_chn_set(q, *self, i as int); }
            if self.chn[i].cmd == 19 && (self.chn[i].info & 0xf0) == 0xd0 {
                assert(cmds@ =~= old(cmds)@ + Seq::<MixerCmd>::empty());
                return;
            }
        }
        self.doamiga(i, module, cmds);
    }


    /// The next order: past the end (or an end marker) back to the first,
    /// skipping marker 254; the row is the break row. An order list that
    /// holds nothing but skip markers is left at its first entry.
    fn neworder(&mut self, module: &S3mData) -> (r: i16)
        requires
            st3_wf(*old(self)),
            module.orders@.len() >= 1,
        ensures
            st3_wf(*final(self)),
            final(self).musiccount == old(self).musiccount,
            final(self).chn == old(self).chn,
            final(self).lastachannelused == old(self).lastachannelused,
            final(self).musicmax == old(self).musicmax && final(self).tempo == old(self).tempo,
            *final(self) == st3_neworder(*old(self), *module),
            r == final(self).np_row,
    {
        let n = module.orders.len();
        let mut guard: usize = 0;
        while guard < n
            invariant_except_break
                no_loop(*self, *module, guard as int) == no_loop(*old(self), *module, 0),
            invariant
                n == module.orders@.len(),
                n >= 1,
                guard <= n,
                *self == (St3Play { np_ord: self.np_ord, ..*old(self) }),
            ensures
                *self == no_loop(*old(self), *module, 0),
            decreases n - guard,
        {
            let ghost before = *self;
            let ghost g = guard as int;
            self.np_ord = self.np_ord.wrapping_add(1);
            if self.np_ord < 1 || self.np_ord as usize > n || module.orders[(self.np_ord - 1) as usize] == 255
                || self.np_ord as usize > module.ord_num as usize {
                self.np_ord = 1;
            }
            assert(*self == no_step(before, *module));
            guard = guard + 1;
            if module.orders[(self.np_ord - 1) as usize] != 254 {
                break;
            }
        }
        if self.np_ord < 1 || self.np_ord as usize > n {
            self.np_ord = 1;
        }
        self.np_pat = module.orders[(self.np_ord - 1) as usize] as i16;
        self.np_patoff = -1;
        self.np_row = self.startrow as i16;
        self.startrow = 0;
        self.patmusicrand = 0;
        self.patloopstart = -1;
        self.jumptorow = -1;
        self.np_row
    }

    /// Finds the current pattern and, for a row other than the first, the
    /// place of the row in its packed data.
    fn seekpat(&mut self, module: &S3mData)
        requires
            module.wf(),
            st3_wf(*old(self)),
        ensures
            st3_wf(*final(self)),
            final(self).musiccount == old(self).musiccount,
            *final(self) == st3_seekpat(*old(self), *module),
    {
        if self.np_patoff == -1 {
            let pat = self.np_pat;
            self.np_patseg = if pat >= 0 && (pat as usize) < module.pattern_pp.len() {
                module.pattern_pp[pat as usize].wrapping_mul(16) as usize
            } else {
                0
            };
            if self.np_patseg != 0 {
                let mut j: usize = 2;
                if self.np_row > 0 && (pat as usize) < module.patterns.len() {
                    let data = &module.patterns[pat as usize].data;
                    let mut i = self.np_row;
                    while i != 0 && j < data.len()
                        invariant
                            i >= 0,
                            data@.len() <= 65537,
                            j <= data@.len() + 5,
                            sp_skip(data@, i as int, j as int) == sp_skip(data@, self.np_row as int, 2),
                        decreases data.len() + 6 - j,
                    {
                        let dat = data[j];
                        j = j + 1;
                        if dat == 0 {
                            i = i - 1;
                        } else {
                            if dat & 0x20 != 0 {
                                j = j + 2;
                            }
                            if dat & 0x40 != 0 {
                                j = j + 1;
                            }
                            if dat & 0x80 != 0 {
                                j = j + 2;
                            }
                        }
                    }
                }
                self.np_patoff = if j <= 0x7fff_ffff { j as i32 } else { 0x7fff_ffff };
            }
        }
    }

    /// Reads the next event of the current row into its channel: the
    /// channel, or 255 at the end of the row (or of the data).
    fn getnote(&mut self, module: &S3mData) -> (r: usize)
        requires
            module.wf(),
            st3_wf(*old(self)),
        ensures
            st3_wf(*final(self)),
            final(self).musiccount == old(self).musiccount,
            r == 255 || r < 32,
            r != 255 ==> final(self).np_patoff > old(self).np_patoff,
            (*final(self), r as int) == st3_getnote(*old(self), *module),
    {
        if self.np_patseg == 0 || self.np_pat < 0 || self.np_pat as usize >= module.pat_num as usize
            || self.np_pat as usize >= module.patterns.len() || self.np_patoff < 0 {
            return 255;
        }
        let data = &module.patterns[self.np_pat as usize].data;
        let mut i = self.np_patoff as usize;
        let ghost start = i;
        let mut ch: usize = 255;
        let mut dat: u8 = 0;
        while i < data.len()
            invariant_except_break
                gn_scan(data@, module.ch_settings@, i as int) == gn_scan(data@, module.ch_settings@, start as int),
                ch == 255,
            invariant
                i >= start,
                start == old(self).np_patoff,
                data@.len() <= 65537,
                i <= data@.len() + 5 || i == start,
            ensures
                (i as int, ch as int) == gn_scan(data@, module.ch_settings@, start as int),
                ch < 32 ==> i > start && i >= 1 && i - 1 < data@.len() && dat == data@[i - 1],
                ch == 255 || ch < 32,
            decreases data.len() + 6 - i,
        {
            dat = data[i];
            i = i + 1;
            if dat == 0 {
                ch = 255;
                break;
            }
            let d = (dat & 0x1f) as usize;
            proof { lemma_nibbles(dat); }
            if module.ch_settings[d] & 0x80 == 0 {
                ch = d;
                break;
            }
            if dat & 0x20 != 0 {
                i = i + 2;
            }
            if dat & 0x40 != 0 {
                i = i + 1;
            }
            if dat & 0x80 != 0 {
                i = i + 2;
            }
        }
        if ch == 255 {
            self.np_patoff = if i <= 0x7fff_ffff { i as i32 } else { 0x7fff_ffff };
            return 255;
        }
        let c = self.chn[ch];
        let c1 = if dat & 0x20 != 0 && i + 2 <= data.len() {
            let ca = Chn { note: data[i], ins: data[i + 1], ..c };
            let cb = if ca.note != 255 { Chn { lastnote: ca.note, ..ca } } else { ca };
            if cb.ins != 0 { Chn { lastins: cb.ins, ..cb } } else { cb }
        } else {
            c
        };
        if dat & 0x20 != 0 {
            i = i + 2;
        }
        let c2 = if dat & 0x40 != 0 && i < data.len() { Chn { vol: data[i], ..c1 } } else { c1 };
        if dat & 0x40 != 0 {
            i = i + 1;
        }
        let c3 = if dat & 0x80 != 0 && i + 2 <= data.len() {
            Chn { cmd: data[i], info: data[i + 1], ..c2 }
        } else {
            c2
        };
        if dat & 0x80 != 0 {
            i = i + 2;
        }
        self.chn[ch] = c3;
        proof { lemma_chn_set(*old(self), *self, ch as int); }
        if i > 0x7fff_ffff {
            self.np_patoff = 0x7fff_ffff;
            return 255;
        }
        self.np_patoff = i as i32;
        ch
    }

    /// The events of a new row: every channel cleared, then each event of
    /// the row carried out on its (non-AdLib) channel.
    fn donotes(&mut self, module: &S3mData, cmds: &mut Vec<MixerCmd>)
        requires
            module.wf(),
            st3_wf(*old(self)),
        ensures
            st3_wf(*final(self)),
            final(self).musiccount == old(self).musiccount,
            *final(self) == st3_donotes(*old(self), *module).0,
            final(cmds)@ == old(cmds)@ + st3_donotes(*old(self), *module).1,
    {
        let mut i: usize = 0;
        while i < 32
            invariant
                i <= 32,
                st3_wf(*self),
                self.musiccount == old(self).musiccount,
                st3_clear_from(*self, i as int) == st3_clear_from(*old(self), 0),
            decreases 32 - i,
        {
            let ghost before = *self;
            let c = self.chn[i];
            self.chn[i] = Chn { note: 255, vol: 255, ins: 0, cmd: 0, info: 0, ..c };
            proof { lemma_chn_set(before, *self, i as int); }
            i = i + 1;
        }
        self.seekpat(module);
        let ghost p2 = *self;
        loop
            invariant_except_break
                st3_notes_loop(*self, *module).0 == st3_notes_loop(p2, *module).0,
                cmds@ + st3_notes_loop(*self, *module).1 == old(cmds)@ + st3_notes_loop(p2, *module).1,
            invariant
                st3_wf(*self),
                module.wf(),
                self.musiccount == old(self).musiccount,
            ensures
                *self == st3_notes_loop(p2, *module).0,
                cmds@ == old(cmds)@ + st3_notes_loop(p2, *module).1,
            decreases 0x7fff_ffffi64 - self.np_patoff as i64,
        {
            let ghost before = *self;
            let ghost kb = cmds@;
            let ch = self.getnote(module);
            if ch == 255 {
                proof {
                    let (q1, c1) = st3_getnote(before, *module);
                    assert(q1 == *self && c1 == 255);
                    assert(st3_notes_loop(before, *module).0 == *self);
                    assert(st3_notes_loop(before, *module).1 =~= Seq::<MixerCmd>::empty());
                    assert(cmds@ =~= kb + Seq::<MixerCmd>::empty());
                }
                break;
            }
            let ghost p1 = *self;
            if module.ch_settings[ch] & 0x7f <= 15 {
                let ghost off = self.np_patoff;
                self.donewnote(ch, false, module, cmds);
                assert(self.np_patoff == off);
            }
            proof {
                let (q1, c1) = st3_getnote(before, *module);
                assert(q1 == p1 && c1 == ch as int);
                assert(p1.np_patoff > before.np_patoff);
                assert(self.np_patoff == p1.np_patoff);
                let (q2, k2) = if module.ch_settings@[ch as int] & 0x7f <= 15 {
                    st3_donewnote(p1, ch as int, false, *module)
                } else {
                    (p1, Seq::<MixerCmd>::empty())
                };
                assert(q2 == *self);
                assert(cmds@ == kb + k2);
                assert(st3_notes_loop(before, *module).0 == st3_notes_loop(*self, *module).0);
                assert(kb + st3_notes_loop(before, *module).1 =~= cmds@ + st3_notes_loop(*self, *module).1);
            }
        }
    }

    /// Channel `i` takes `c` with its speed back to the note's; see
    /// `st3_restore_spd`.
    fn restore_spd(&mut self, i: usize, c: Chn, cmds: &mut Vec<MixerCmd>)
        requires
            i < 32,
            st3_wf(*old(self)),
        ensures
            st3_wf(*final(self)),
            final(self).musiccount == old(self).musiccount,
            *final(self) == st3_restore_spd(*old(self), i as int, c).0,
            final(cmds)@ == old(cmds)@ + st3_restore_spd(*old(self), i as int, c).1,
    {
        if c.aspd != c.aorgspd {
            self.chn[i] = Chn { aspd: c.aorgspd, ..c };
            proof { lemma_chn_set(*old(self), *self, i as int); }
            self.setspd(i, cmds);
        } else {
            self.chn[i] = c;
            proof { lemma_chn_set(*old(self), *self, i as int); }
            assert(cmds@ =~= old(cmds)@ + Seq::<MixerCmd>::empty());
        }
    }

    /// The first tick of a row on channel `i`; see `st3_cmd1_chn`.
    #[verifier::rlimit(60)]
    fn cmd1_chn(&mut self, i: usize, cmds: &mut Vec<MixerCmd>)
        requires
            i < 32,
            st3_wf(*old(self)),
        ensures
            st3_wf(*final(self)),
            final(self).musiccount == old(self).musiccount,
            *final(self) == st3_cmd1_chn(*old(self), i as int).0,
            final(cmds)@ == old(cmds)@ + st3_cmd1_chn(*old(self), i as int).1,
    {
        let c = self.chn[i];
        if c.achannelused == 0 {
            assert(cmds@ =~= old(cmds)@ + Seq::<MixerCmd>::empty());
            return;
        }
        let c1 = if c.info != 0 { Chn { alastnfo: c.info, ..c } } else { c };
        let cmd = c1.cmd;
        if cmd != 0 {
            let c2 = Chn { achannelused: c1.achannelused | 0x80, ..c1 };
            if cmd == 4 {
                self.restore_spd(i, Chn { atrigcnt: 0, ..c2 }, cmds);
            } else {
                let c3 = if cmd != 9 { Chn { atremor: 0, atreon: true, ..c2 } } else { c2 };
                let c4 = if cmd != 8 && cmd != 21 && cmd != 11 && cmd != 18 {
                    Chn { avibcnt: c3.avibcnt | 0x80, ..c3 }
                } else {
                    c3
                };
                let c5 = if self.tracker != SCREAM_TRACKER && self.tracker != IMAGO_ORPHEUS && cmd != 25 {
                    Chn { apancnt: c4.apancnt | 0x80, ..c4 }
                } else {
                    c4
                };
                self.chn[i] = c5;
                proof { lemma_chn_set(*old(self), *self, i as int); }
                assert(cmds@ =~= old(cmds)@ + Seq::<MixerCmd>::empty());
            }
            let ghost ka = cmds@;
            if cmd < 27 {
                self.volslidetype = 0;
                self.soncejmp(i, cmds);
            }
            assert(cmds@ =~= old(cmds)@ + st3_cmd1_chn(*old(self), i as int).1);
        } else {
            if self.tracker != SCREAM_TRACKER {
                self.setpan_c(&c1, i, cmds);
            }
            let ghost k0 = cmds@;
            self.restore_spd(i, Chn { atrigcnt: 0, ..c1 }, cmds);
            assert(cmds@ =~= old(cmds)@ + st3_cmd1_chn(*old(self), i as int).1);
        }
    }

    /// A later tick on channel `i`; see `st3_cmd2_chn`.
    fn cmd2_chn(&mut self, i: usize, module: &S3mData, cmds: &mut Vec<MixerCmd>)
        requires
            i < 32,
            st3_wf(*old(self)),
        ensures
            st3_wf(*final(self)),
            *final(self) == st3_cmd2_chn(*old(self), i as int, *module).0,
            final(cmds)@ == old(cmds)@ + st3_cmd2_chn(*old(self), i as int, *module).1,
    {
        let c = self.chn[i];
        if c.achannelused == 0 || c.cmd == 0 {
            assert(cmds@ =~= old(cmds)@ + Seq::<MixerCmd>::empty());
            return;
        }
        self.chn[i] = Chn { achannelused: c.achannelused | 0x80, ..c };
        proof { lemma_chn_set(*old(self), *self, i as int); }
        if c.cmd < 27 {
            self.volslidetype = 0;
            self.sotherjmp(i, module, cmds);
        } else {
            assert(cmds@ =~= old(cmds)@ + Seq::<MixerCmd>::empty());
        }
    }

    /// The effects of the first tick of a row, for the channels in use.
    fn docmd1(&mut self, cmds: &mut Vec<MixerCmd>)
        requires
            st3_wf(*old(self)),
        ensures
            st3_wf(*final(self)),
            final(self).musiccount == old(self).musiccount,
            *final(self) == st3_cmd1_from(*old(self), 0, old(self).lastachannelused + 1).0,
            final(cmds)@ == old(cmds)@ + st3_cmd1_from(*old(self), 0, old(self).lastachannelused + 1).1,
    {
        let n = self.lastachannelused as usize + 1;
        let mut i: usize = 0;
        while i < n
            invariant
                st3_wf(*self),
                n <= 32,
                i <= n,
                n == old(self).lastachannelused + 1,
                self.musiccount == old(self).musiccount,
                st3_cmd1_from(*self, i as int, n as int).0 == st3_cmd1_from(*old(self), 0, n as int).0,
                cmds@ + st3_cmd1_from(*self, i as int, n as int).1
                    == old(cmds)@ + st3_cmd1_from(*old(self), 0, n as int).1,
            decreases n - i,
        {
            let ghost before = *self;
            let ghost kb = cmds@;
            self.cmd1_chn(i, cmds);
            proof {
                assert(kb + st3_cmd1_from(before, i as int, n as int).1
                    =~= cmds@ + st3_cmd1_from(*self, i + 1, n as int).1);
            }
            i = i + 1;
        }
        assert(cmds@ =~= cmds@ + st3_cmd1_from(*self, i as int, n as int).1);
    }

    /// The effects of a tick after the first, for the channels in use.
    fn docmd2(&mut self, module: &S3mData, cmds: &mut Vec<MixerCmd>)
        requires
            st3_wf(*old(self)),
        ensures
            st3_wf(*final(self)),
            *final(self) == st3_cmd2_from(*old(self), 0, old(self).lastachannelused + 1, *module).0,
            final(cmds)@ == old(cmds)@ + st3_cmd2_from(*old(self), 0, old(self).lastachannelused + 1, *module).1,
    {
        let n = self.lastachannelused as usize + 1;
        let mut i: usize = 0;
        while i < n
            invariant
                st3_wf(*self),
                n <= 32,
                i <= n,
                n == old(self).lastachannelused + 1,
                st3_cmd2_from(*self, i as int, n as int, *module).0 == st3_cmd2_from(*old(self), 0, n as int, *module).0,
                cmds@ + st3_cmd2_from(*self, i as int, n as int, *module).1
                    == old(cmds)@ + st3_cmd2_from(*old(self), 0, n as int, *module).1,
            decreases n - i,
        {
            let ghost before = *self;
            let ghost kb = cmds@;
            self.cmd2_chn(i, module, cmds);
            proof {
                assert(kb + st3_cmd2_from(before, i as int, n as int, *module).1
                    =~= cmds@ + st3_cmd2_from(*self, i + 1, n as int, *module).1);
            }
            i = i + 1;
        }
        assert(cmds@ =~= cmds@ + st3_cmd2_from(*self, i as int, n as int, *module).1);
    }

    /// One tick: see `st3_dorow`.
    #[verifier::rlimit(60)]
    fn dorow(&mut self, module: &S3mData, cmds: &mut Vec<MixerCmd>)
        requires
            module.wf(),
            st3_wf(*old(self)),
            module.orders@.len() >= 1,
        ensures
            st3_wf(*final(self)),
            *final(self) == st3_dorow(*old(self), *module).0,
            final(cmds)@ == old(cmds)@ + st3_dorow(*old(self), *module).1,
    {
        let r = self.patmusicrand;
        self.patmusicrand = ((((r as u32 * 0xcdef) >> 16) as u16).wrapping_add(0x1727)) & 0xffff;
        assert(self.patmusicrand == st3_rand(r));
        let ghost p0 = *self;
        if self.musiccount == 0 {
            if self.patterndelay != 0 {
                self.np_row = self.np_row.wrapping_sub(1);
                self.docmd1(cmds);
                self.patterndelay = self.patterndelay.wrapping_sub(1);
            } else {
                self.donotes(module, cmds);
                let ghost k1 = cmds@;
                self.docmd1(cmds);
                assert(cmds@ =~= old(cmds)@ + (st3_donotes(p0, *module).1
                    + st3_cmd1_from(st3_donotes(p0, *module).0, 0, st3_donotes(p0, *module).0.lastachannelused + 1).1));
            }
        } else {
            self.docmd2(module, cmds);
        }
        let ghost p1 = *self;
        self.musiccount = self.musiccount.wrapping_add(1);
        if self.musiccount >= self.musicmax.wrapping_add(self.tickdelay as u8) {
            self.tickdelay = 0;
            self.np_row = self.np_row.wrapping_add(1);
            if self.jumptorow != -1 {
                self.np_row = self.jumptorow;
                self.jumptorow = -1;
            }
            if self.np_row >= 64 || (self.patloopcount == 0 && self.breakpat != 0) {
                if self.breakpat == 255 {
                    self.breakpat = 0;
                    return;
                }
                self.breakpat = 0;
                self.np_row = self.neworder(module);
            }
            self.musiccount = 0;
        }
    }

    /// The module's header settings: speed, tempo, global volume, Amiga
    /// limits, fast volume slides, the tracker and its vibrato depth.
    fn loadheaderparms(&mut self, module: &S3mData)
        requires
            st3_wf(*old(self)),
        ensures
            st3_wf(*final(self)),
            final(self).musiccount == old(self).musiccount,
            *final(self) == st3_header(*old(self), *module),
    {
        self.oldstvib = false;
        self.setspeed(6);
        self.settempo(125);
        self.aspdmin = 64;
        self.aspdmax = 32767;
        self.globalvol = 64;
        self.amigalimits = false;
        self.fastvolslide = false;
        self.tracker = (module.cwt_v >> 12) as u8;
        if module.i_t != 0 {
            self.settempo(module.i_t as u16);
        }
        if module.i_s != 255 {
            self.setspeed(module.i_s);
        }
        if module.g_v != 255 {
            self.globalvol = if module.g_v > 64 { 64 } else { module.g_v as i16 };
        }
        if module.flags & 0xff != 255 {
            self.amigalimits = module.flags & 0x10 != 0;
            self.fastvolslide = module.flags & 0x40 != 0;
            if self.amigalimits {
                self.aspdmax = 1712 * 2;
                self.aspdmin = 907 / 2;
            }
        }
        if module.cwt_v == 0x1300 {
            self.fastvolslide = true;
        }
        self.oldstvib = module.flags & 0x01 != 0;
    }


    /// A replayer with every value zero.
    pub fn new(module: &S3mData) -> (r: Self)
        ensures
            st3_wf(r),
            r.musiccount == 0 && r.musicmax == 0 && r.tempo == 0 && r.globalvol == 0,
            r.np_ord == 0 && r.np_row == 0 && r.np_pat == 0 && r.np_patoff == 0 && r.lastachannelused == 0,
            forall|c: int| 0 <= c < 32 ==> #[trigger] r.chn@[c] == st3_zero_channel(),
            r == st3_zero(),
    {
        let c = Chn::new();
        St3Play {
            tickdelay: 0, volslidetype: 0, patterndelay: 0, patloopcount: 0, breakpat: 0, startrow: 0,
            musiccount: 0, np_ord: 0, np_row: 0, np_pat: 0, np_patoff: 0, patloopstart: 0, jumptorow: 0,
            patmusicrand: 0, aspdmax: 0, aspdmin: 0, np_patseg: 0, chn: array_fill_for_copy_types(c), soundcardtype: 0,
            lastachannelused: 0, tracker: 0, oldstvib: false, fastvolslide: false, amigalimits: false,
            musicmax: 0, tempo: 0, globalvol: 0, stereomode: 0, mastervol: 0,
        }
    }

    /// Prepares the replay of `module`: the header settings, the 32
    /// channels numbered, in use at full channel volume, the first order
    /// taken; the speed and tempo reported. No command is left.
    pub fn start(&mut self, data: &mut PlayerData, module: &S3mData, cmds: &mut Vec<MixerCmd>)
        requires
            st3_wf(*old(self)),
            module.orders@.len() >= 1,
        ensures
            st3_started(*final(self)),
            final(data).speed == final(self).musicmax as usize,
            final(data).tempo == final(self).tempo as usize,
            final(data).pos == old(data).pos && final(data).row == old(data).row,
            final(data).frame == old(data).frame && final(data).song == old(data).song,
            final(cmds)@ == old(cmds)@,
            *final(self) == st3_start(*old(self), *module),
            final(self).musicmax == (if module.i_s != 255 && module.i_s != 0 { module.i_s } else { 6 }),
            final(self).tempo == (if module.i_t > 32 { module.i_t as i16 } else { 125 }),
            final(self).globalvol == (if module.g_v == 255 || module.g_v > 64 { 64 } else { module.g_v as i16 }),
            final(self).tracker == (module.cwt_v >> 12u16) as u8,
    {
        self.loadheaderparms(module);
        let ghost h = *self;
        let mut i: usize = 0;
        while i < 32
            invariant
                st3_wf(*self),
                i <= 32,
                st3_number_from(*self, i as int) == st3_number_from(h, 0),
                forall|c: int| 0 <= c < i ==> {
                    &&& (#[trigger] self.chn@[c]).channelnum == c
                    &&& self.chn@[c].achannelused == 0x80
                    &&& self.chn@[c].chanvol == 0x40
                },
            decreases 32 - i,
        {
            let ghost before = *self;
            let c = self.chn[i];
            self.chn[i] = Chn { channelnum: i as u8, achannelused: 0x80, chanvol: 0x40, ..c };
            proof { lemma_chn_set(before, *self, i as int); }
            i = i + 1;
        }
        proof { lemma_number_from_fields(h, 0); }
        self.lastachannelused = 1;
        data.speed = self.musicmax as usize;
        data.tempo = self.tempo as usize;
        self.np_ord = 0;
        proof { lemma_no_loop_fields(*self, *module, 0); }
        self.neworder(module);
    }


    /// Plays one tick of `module` (see `st3_dorow`) and reports the tick,
    /// row, order, speed and tempo.
    pub fn play(&mut self, data: &mut PlayerData, module: &S3mData, cmds: &mut Vec<MixerCmd>)
        requires
            st3_wf(*old(self)),
            module.orders@.len() >= 1,
            module.wf(),
        ensures
            st3_wf(*final(self)),
            *final(self) == st3_dorow(*old(self), *module).0,
            final(cmds)@ == old(cmds)@ + st3_dorow(*old(self), *module).1,
            final(data).frame == final(self).musiccount as usize,
            final(data).row == final(self).np_row as usize,
            final(data).pos == (final(self).np_ord as usize).wrapping_sub(1),
            final(data).speed == final(self).musicmax as usize,
            final(data).tempo == final(self).tempo as usize,
            final(data).song == old(data).song,
    {
        self.dorow(module, cmds);
        data.frame = self.musiccount as usize;
        data.row = self.np_row as usize;
        data.pos = (self.np_ord as usize).wrapping_sub(1);
        data.speed = self.musicmax as usize;
        data.tempo = self.tempo as usize;
    }

    /// Resetting leaves the replayer as it is.
    pub fn reset(&mut self)
        ensures
            *final(self) == *old(self),
    {
    }

}

} // verus!
