//! The His Master's Noise replayer, after the music disk replayer of
//! Mahoney (December 1990): Noisetracker with synthetic "Mupp" instruments
//! whose waveform and volume follow a table frame by frame, finetuned
//! periods and mega arpeggios.
//!
//! The replayer works on its sequencer state and on four channels; what it
//! asks of the mixer it appends to a list of commands.

use vstd::prelude::*;
use vstd::string::StringSliceAdditionalSpecFns;
use vstd::utf8::encode_utf8;
use crate::format::mk::{ModData, ModEvent, ModInstrument, event_ins, event_or_empty};
use crate::module::sample::Sample;
use crate::player::{MixerCmd, PlayerData};
use crate::player::options::Options;
use crate::player::noisetracker::{nt_period_at, nt_with_low};
use crate::player::protracker::{vibrato_table, mt_vibrato_value, slide_up_volume, slide_down_volume};

verus! {

/// The mega arpeggio table: 16 arpeggios of 16 steps, in semitones.
pub open spec fn mega_arps() -> Seq<u8> {
    seq![
        0u8, 3, 7, 12, 15, 12, 7, 3, 0, 3, 7, 12, 15, 12, 7, 3,
        0, 4, 7, 12, 16, 12, 7, 4, 0, 4, 7, 12, 16, 12, 7, 4,
        0, 3, 8, 12, 15, 12, 8, 3, 0, 3, 8, 12, 15, 12, 8, 3,
        0, 4, 8, 12, 16, 12, 8, 4, 0, 4, 8, 12, 16, 12, 8, 4,
        0, 5, 8, 12, 17, 12, 8, 5, 0, 5, 8, 12, 17, 12, 8, 5,
        0, 5, 9, 12, 17, 12, 9, 5, 0, 5, 9, 12, 17, 12, 9, 5,
        12, 0, 7, 0, 3, 0, 7, 0, 12, 0, 7, 0, 3, 0, 7, 0,
        12, 0, 7, 0, 4, 0, 7, 0, 12, 0, 7, 0, 4, 0, 7, 0,
        0, 3, 7, 3, 7, 12, 7, 12, 15, 12, 7, 12, 7, 3, 7, 3,
        0, 4, 7, 4, 7, 12, 7, 12, 16, 12, 7, 12, 7, 4, 7, 4,
        31, 27, 24, 19, 15, 12, 7, 3, 0, 3, 7, 12, 15, 19, 24, 27,
        31, 28, 24, 19, 16, 12, 7, 4, 0, 4, 7, 12, 16, 19, 24, 28,
        0, 12, 0, 12, 0, 12, 0, 12, 0, 12, 0, 12, 0, 12, 0, 12,
        0, 12, 24, 12, 0, 12, 24, 12, 0, 12, 24, 12, 0, 12, 24, 12,
        0, 3, 0, 3, 0, 3, 0, 3, 0, 3, 0, 3, 0, 3, 0, 3,
        0, 4, 0, 4, 0, 4, 0, 4, 0, 4, 0, 4, 0, 4, 0, 4,
    ]
}

fn mega_arp(i: u8) -> (r: u8)
    ensures
        r == mega_arps()[i as int],
{
    let t: [u8; 256] = [
        0, 3, 7, 12, 15, 12, 7, 3, 0, 3, 7, 12, 15, 12, 7, 3,
        0, 4, 7, 12, 16, 12, 7, 4, 0, 4, 7, 12, 16, 12, 7, 4,
        0, 3, 8, 12, 15, 12, 8, 3, 0, 3, 8, 12, 15, 12, 8, 3,
        0, 4, 8, 12, 16, 12, 8, 4, 0, 4, 8, 12, 16, 12, 8, 4,
        0, 5, 8, 12, 17, 12, 8, 5, 0, 5, 8, 12, 17, 12, 8, 5,
        0, 5, 9, 12, 17, 12, 9, 5, 0, 5, 9, 12, 17, 12, 9, 5,
        12, 0, 7, 0, 3, 0, 7, 0, 12, 0, 7, 0, 3, 0, 7, 0,
        12, 0, 7, 0, 4, 0, 7, 0, 12, 0, 7, 0, 4, 0, 7, 0,
        0, 3, 7, 3, 7, 12, 7, 12, 15, 12, 7, 12, 7, 3, 7, 3,
        0, 4, 7, 4, 7, 12, 7, 12, 16, 12, 7, 12, 7, 4, 7, 4,
        31, 27, 24, 19, 15, 12, 7, 3, 0, 3, 7, 12, 15, 19, 24, 27,
        31, 28, 24, 19, 16, 12, 7, 4, 0, 4, 7, 12, 16, 19, 24, 28,
        0, 12, 0, 12, 0, 12, 0, 12, 0, 12, 0, 12, 0, 12, 0, 12,
        0, 12, 24, 12, 0, 12, 24, 12, 0, 12, 24, 12, 0, 12, 24, 12,
        0, 3, 0, 3, 0, 3, 0, 3, 0, 3, 0, 3, 0, 3, 0, 3,
        0, 4, 0, 4, 0, 4, 0, 4, 0, 4, 0, 4, 0, 4, 0, 4,
    ];
    assert(t@ =~= mega_arps());
    t[i as usize]
}

/// Entry `i` of the Noisetracker period table, for `i` below 38.
fn hmn_period(i: usize) -> (r: i16)
    requires
        i < 38,
    ensures
        r == nt_period_at(i as int),
{
    let t: [i16; 38] = [
        0x0358, 0x0328, 0x02fa, 0x02d0, 0x02a6, 0x0280, 0x025c, 0x023a, 0x021a, 0x01fc, 0x01e0,
        0x01c5, 0x01ac, 0x0194, 0x017d, 0x0168, 0x0153, 0x0140, 0x012e, 0x011d, 0x010d, 0x00fe,
        0x00f0, 0x00e2, 0x00d6, 0x00ca, 0x00be, 0x00b4, 0x00aa, 0x00a0, 0x0097, 0x008f, 0x0087,
        0x007f, 0x0078, 0x0071, 0x0000, 0x0000,
    ];
    assert(t@ =~= crate::player::noisetracker::nt_period_table());
    t[i]
}

/// The state of a channel, named after its offset in the replayer's
/// channel record; the program fields drive "Mupp" instruments.
#[derive(Clone, Copy, Debug)]
pub struct ChannelData {
    pub n_0_note: u16,
    pub n_2_cmd: u8,
    pub n_3_cmdlo: u8,
    pub n_4_samplestart: u32,
    pub n_8_length: u16,
    pub n_a_loopstart: u32,
    pub n_e_replen: u16,
    pub n_10_period: i16,
    pub n_12_volume: u8,
    pub n_16_portdir: bool,
    pub n_17_toneportspd: u8,
    pub n_18_wantperiod: i16,
    pub n_1a_vibrato: u8,
    pub n_1b_vibpos: u8,
    pub n_1c_prog_on: bool,
    pub n_8_dataloopstart: u8,
    pub n_9_dataloopend: u8,
    pub n_13_volume: u8,
    pub n_1d_prog_datacou: u8,
    pub n_1e_finetune: u8,
    pub prog_ins: usize,
}

/// A silent channel: every value zero.
pub open spec fn hmn_silent_channel() -> ChannelData {
    ChannelData {
        n_0_note: 0,
        n_2_cmd: 0,
        n_3_cmdlo: 0,
        n_4_samplestart: 0,
        n_8_length: 0,
        n_a_loopstart: 0,
        n_e_replen: 0,
        n_10_period: 0,
        n_12_volume: 0,
        n_16_portdir: false,
        n_17_toneportspd: 0,
        n_18_wantperiod: 0,
        n_1a_vibrato: 0,
        n_1b_vibpos: 0,
        n_1c_prog_on: false,
        n_8_dataloopstart: 0,
        n_9_dataloopend: 0,
        n_13_volume: 0,
        n_1d_prog_datacou: 0,
        n_1e_finetune: 0,
        prog_ins: 0,
    }
}

impl ChannelData {
    /// A silent channel: every value zero.
    pub fn new() -> (r: Self)
        ensures
            r == hmn_silent_channel(),
    {
        ChannelData {
            n_0_note: 0,
            n_2_cmd: 0,
            n_3_cmdlo: 0,
            n_4_samplestart: 0,
            n_8_length: 0,
            n_a_loopstart: 0,
            n_e_replen: 0,
            n_10_period: 0,
            n_12_volume: 0,
            n_16_portdir: false,
            n_17_toneportspd: 0,
            n_18_wantperiod: 0,
            n_1a_vibrato: 0,
            n_1b_vibpos: 0,
            n_1c_prog_on: false,
            n_8_dataloopstart: 0,
            n_9_dataloopend: 0,
            n_13_volume: 0,
            n_1d_prog_datacou: 0,
            n_1e_finetune: 0,
            prog_ins: 0,
        }
    }
}

/// The loop start a channel keeps comes from a 16-bit repeat or a program
/// byte.
pub open spec fn hmn_channel_wf(ch: ChannelData) -> bool {
    ch.n_a_loopstart <= 0xffff
}

/// The His Master's Noise replayer: the sequencer, the sample addresses and
/// the four channels.
pub struct HmnPlayer {
    pub options: Options,
    pub l695_counter: u8,
    pub l642_speed: u8,
    pub l693_songpos: u8,
    pub l692_pattpos: u8,
    pub l698_samplestarts: [u32; 31],
    pub l681_break: bool,
    pub voice: [ChannelData; 4],
}

/// What the replayer keeps between ticks: a speed and tick below 32, a row
/// within the pattern, well formed channels.
pub open spec fn hmn_wf(p: HmnPlayer) -> bool {
    &&& p.l642_speed < 32
    &&& p.l695_counter < 32
    &&& p.l692_pattpos < 64
    &&& forall|c: int| 0 <= c < 4 ==> hmn_channel_wf(#[trigger] p.voice@[c])
}

/// Everything but the channels is the same in `a` and `b`.
pub open spec fn hmn_seq_same(a: HmnPlayer, b: HmnPlayer) -> bool {
    &&& a.options == b.options
    &&& a.l695_counter == b.l695_counter
    &&& a.l642_speed == b.l642_speed
    &&& a.l693_songpos == b.l693_songpos
    &&& a.l692_pattpos == b.l692_pattpos
    &&& a.l698_samplestarts == b.l698_samplestarts
    &&& a.l681_break == b.l681_break
}

/// The period played for `val` on a channel of finetune `ft`: `val` moved
/// by `ft / 256` of itself, the finetune a signed byte (16-bit arithmetic
/// that wraps).
pub open spec fn hmn_percalc(ft: u8, val: i16) -> i16 {
    ((((ft as i8) as i16).wrapping_mul(val)) >> 8u32).wrapping_add(val)
}

/// The arpeggio step of tick `counter`: none on ticks 0, 3, 6...; the high
/// nibble on ticks 1, 4...; the low nibble on ticks 2, 5...
pub open spec fn hmn_arp_step(cmdlo: u8, counter: u8) -> int {
    if counter % 3 == 2 {
        (cmdlo & 15) as int
    } else if counter % 3 == 0 {
        0
    } else {
        (cmdlo >> 4) as int
    }
}

/// The first `j` from `i` below 36 whose table entry the period (low
/// twelve bits) reaches and that has an entry `step` further; 36 if there
/// is none.
pub open spec fn hmn_arp_index(period: i16, step: int, j: int) -> int
    decreases 36 - j,
{
    if j >= 36 {
        36
    } else if period & 0xfff >= nt_period_at(j) && j + step < 38 {
        j
    } else {
        hmn_arp_index(period, step, j + 1)
    }
}

/// The first `j` from `i` below 36 whose table entry the period (low
/// twelve bits) reaches; 36 if there is none.
pub open spec fn hmn_first_reached(period: i16, j: int) -> int
    decreases 36 - j,
{
    if j >= 36 {
        36
    } else if period & 0xfff >= nt_period_at(j) {
        j
    } else {
        hmn_first_reached(period, j + 1)
    }
}

/// An index of the period table: down by octaves until it lies within the
/// table.
pub open spec fn hmn_in_table(i: int) -> int
    decreases i,
{
    if i >= 38 { hmn_in_table(i - 12) } else { i }
}

/// The mega arpeggio step at the vibrato position.
pub open spec fn hmn_mega_step(ch: ChannelData) -> int {
    mega_arps()[(((ch.n_3_cmdlo & 0xf) as int) * 16 + (ch.n_1b_vibpos & 0xf) as int)] as int
}

/// The vibrato depth (the sine at the position times the low nibble, over
/// 128) and the period it plays.
pub open spec fn hmn_vib_period(ch: ChannelData) -> i16 {
    let amt = ((vibrato_table()[((ch.n_1b_vibpos >> 2) & 0x1f) as int] as int * (ch.n_1a_vibrato & 0xf) as int) / 128) as i16;
    if ch.n_1b_vibpos & 0x80 == 0 {
        ch.n_10_period.wrapping_add(amt)
    } else {
        ch.n_10_period.wrapping_sub(amt)
    }
}

/// The vibrato position after a tick.
pub open spec fn hmn_vib_next(ch: ChannelData) -> ChannelData {
    ChannelData { n_1b_vibpos: ch.n_1b_vibpos.wrapping_add((ch.n_1a_vibrato >> 2) & 0x3c), ..ch }
}

/// The period after tone portamento toward the wanted period at the
/// channel's speed; reaching it clears the wanted period.
pub open spec fn hmn_myslide(ch: ChannelData) -> ChannelData {
    if ch.n_18_wantperiod == 0 {
        ch
    } else if ch.n_16_portdir {
        let p = ch.n_10_period.wrapping_add(ch.n_17_toneportspd as i16);
        if p > ch.n_18_wantperiod {
            ChannelData { n_10_period: ch.n_18_wantperiod, n_18_wantperiod: 0, ..ch }
        } else {
            ChannelData { n_10_period: p, ..ch }
        }
    } else {
        let p = ch.n_10_period.wrapping_sub(ch.n_17_toneportspd as i16);
        if p < ch.n_18_wantperiod {
            ChannelData { n_10_period: ch.n_18_wantperiod, n_18_wantperiod: 0, ..ch }
        } else {
            ChannelData { n_10_period: p, ..ch }
        }
    }
}

/// The instrument volume after a volume slide: down by the low nibble where
/// the high one is zero, else up by the high nibble.
pub open spec fn hmn_volslide(ch: ChannelData) -> ChannelData {
    let v = if ch.n_3_cmdlo >> 4 == 0 {
        slide_down_volume(ch.n_13_volume, ch.n_3_cmdlo & 0x0f)
    } else {
        slide_up_volume(ch.n_13_volume, ch.n_3_cmdlo >> 4)
    };
    ChannelData { n_13_volume: v, ..ch }
}

/// Portamento up: the period lowered by the parameter down to a low part
/// of 0x71.
pub open spec fn hmn_portup_period(ch: ChannelData) -> i16 {
    let p = ch.n_10_period.wrapping_sub(ch.n_3_cmdlo as i16);
    if p & 0xfff < 0x71 { nt_with_low(p, 0x71) } else { p }
}

/// Portamento down: the period raised by the parameter up to a low part
/// of 0x358.
pub open spec fn hmn_portdown_period(ch: ChannelData) -> i16 {
    let p = ch.n_10_period.wrapping_add(ch.n_3_cmdlo as i16);
    if p & 0xfff >= 0x358 { nt_with_low(p, 0x358) } else { p }
}

/// The channel after the effect of a tick.
pub open spec fn hmn_checkcom(ch: ChannelData) -> ChannelData {
    let cmd = ch.n_2_cmd & 0xf;
    if cmd == 0 {
        ch
    } else if cmd == 0x1 {
        ChannelData { n_10_period: hmn_portup_period(ch), ..ch }
    } else if cmd == 0x2 {
        ChannelData { n_10_period: hmn_portdown_period(ch), ..ch }
    } else if cmd == 0x3 {
        let c = if ch.n_3_cmdlo != 0 { ChannelData { n_17_toneportspd: ch.n_3_cmdlo, n_3_cmdlo: 0, ..ch } } else { ch };
        hmn_myslide(c)
    } else if cmd == 0x4 {
        let c = if ch.n_3_cmdlo != 0 { ChannelData { n_1a_vibrato: ch.n_3_cmdlo, ..ch } } else { ch };
        hmn_vib_next(c)
    } else if cmd == 0x5 {
        hmn_volslide(hmn_myslide(ch))
    } else if cmd == 0x6 {
        hmn_volslide(hmn_vib_next(ch))
    } else if cmd == 0x7 {
        ChannelData { n_1b_vibpos: ch.n_1b_vibpos.wrapping_add(1), ..ch }
    } else if cmd == 0xa {
        hmn_volslide(ch)
    } else {
        ch
    }
}

/// The period the effect of a tick plays, if any, before the finetune.
pub open spec fn hmn_checkcom_period(ch: ChannelData, counter: u8) -> Option<i16> {
    let cmd = ch.n_2_cmd & 0xf;
    if cmd == 0 && ch.n_3_cmdlo == 0 {
        Some(ch.n_10_period)
    } else if cmd == 0 {
        let step = hmn_arp_step(ch.n_3_cmdlo, counter);
        let j = hmn_arp_index(ch.n_10_period, step, 0);
        if j < 36 { Some(nt_period_at(j + step)) } else { None }
    } else if cmd == 0x1 {
        Some(hmn_portup_period(ch))
    } else if cmd == 0x2 {
        Some(hmn_portdown_period(ch))
    } else if cmd == 0x3 || cmd == 0x5 {
        Some(hmn_checkcom(ch).n_10_period)
    } else if cmd == 0x4 {
        let c = if ch.n_3_cmdlo != 0 { ChannelData { n_1a_vibrato: ch.n_3_cmdlo, ..ch } } else { ch };
        Some(hmn_vib_period(c))
    } else if cmd == 0x6 {
        Some(hmn_vib_period(ch))
    } else if cmd == 0x7 {
        let j = hmn_first_reached(ch.n_10_period, 0);
        if j < 36 { Some(nt_period_at(hmn_in_table(j + hmn_mega_step(ch)))) } else { None }
    } else {
        Some(ch.n_10_period)
    }
}

/// The commands of the effect of a tick on channel `chn`.
pub open spec fn hmn_checkcom_cmds(ch: ChannelData, counter: u8, chn: usize) -> Seq<MixerCmd> {
    match hmn_checkcom_period(ch, counter) {
        Some(p) => seq![MixerCmd::SetPeriod(chn, hmn_percalc(ch.n_1e_finetune, p) as i32)],
        None => seq![],
    }
}

/// The channel `chn` of `b` is `ch`, the others and the sequencer as in
/// `a`.
pub open spec fn hmn_voice_set(a: HmnPlayer, b: HmnPlayer, chn: int, ch: ChannelData) -> bool {
    &&& b.voice@ == a.voice@.update(chn, ch)
    &&& hmn_seq_same(a, b)
}

/// The parameter a new row's command leaves: a volume above 64 becomes
/// 64, a speed above 31 becomes 31.
pub open spec fn hmn_row_cmdlo(ch: ChannelData) -> u8 {
    let cmd = ch.n_2_cmd & 0xf;
    if cmd == 0xc && ch.n_3_cmdlo > 0x40 {
        0x40
    } else if cmd == 0xf && ch.n_3_cmdlo > 0x1f {
        0x1f
    } else {
        ch.n_3_cmdlo
    }
}

/// The channel after its new row's command: volume and speed commands keep
/// their parameter (the volume command sets the instrument volume),
/// filter, break and jump leave it, any other runs the effect of a tick.
pub open spec fn hmn_row_channel(ch: ChannelData) -> ChannelData {
    let cmd = ch.n_2_cmd & 0xf;
    if cmd == 0xc {
        ChannelData { n_3_cmdlo: hmn_row_cmdlo(ch), n_13_volume: hmn_row_cmdlo(ch), ..ch }
    } else if cmd == 0xf {
        ChannelData { n_3_cmdlo: hmn_row_cmdlo(ch), ..ch }
    } else if cmd == 0xe || cmd == 0xd || cmd == 0xb {
        ch
    } else {
        hmn_checkcom(ch)
    }
}

/// The commands of a new row's command on channel `chn` at tick `counter`.
pub open spec fn hmn_row_cmds(ch: ChannelData, counter: u8, chn: usize) -> Seq<MixerCmd> {
    let cmd = ch.n_2_cmd & 0xf;
    if cmd == 0xe {
        seq![MixerCmd::EnableFilter(ch.n_3_cmdlo & 0x0f != 0)]
    } else if cmd == 0xc || cmd == 0xf || cmd == 0xd || cmd == 0xb {
        seq![]
    } else {
        hmn_checkcom_cmds(ch, counter, chn)
    }
}

/// `b` is `a` with channel `chn` played as `ch` and its new row's command
/// carried out: a break or jump toggles the break flag, a jump sets the
/// position before its parameter, a nonzero speed sets the speed and
/// restarts the tick count.
pub open spec fn hmn_row_effect(a: HmnPlayer, ch: ChannelData, chn: int, b: HmnPlayer) -> bool {
    let cmd = ch.n_2_cmd & 0xf;
    let speed_set = cmd == 0xf && hmn_row_cmdlo(ch) != 0;
    &&& b.voice@ == a.voice@.update(chn, hmn_row_channel(ch))
    &&& b.l642_speed == (if speed_set { hmn_row_cmdlo(ch) } else { a.l642_speed })
    &&& b.l695_counter == (if speed_set { 0 } else { a.l695_counter })
    &&& b.l693_songpos == (if cmd == 0xb { ch.n_3_cmdlo.wrapping_sub(1) } else { a.l693_songpos })
    &&& b.l681_break == (if cmd == 0xd || cmd == 0xb { !a.l681_break } else { a.l681_break })
    &&& b.l692_pattpos == a.l692_pattpos
    &&& b.l698_samplestarts == a.l698_samplestarts
    &&& b.options == a.options
}

/// Byte `i` of the data of sample `k`; 0 where there is none.
pub open spec fn hmn_byte(samples: Seq<Sample>, k: int, i: int) -> u8 {
    if 0 <= k < samples.len() && 0 <= i < samples[k].data@.len() { samples[k].data@[i] } else { 0 }
}

/// A "Mupp" program step: the volume and loop start from the program
/// table of the instrument's data at the data counter, which advances
/// and wraps from the loop end to the loop start.
pub open spec fn hmn_prog(ch: ChannelData, samples: Seq<Sample>) -> ChannelData {
    if ch.n_1c_prog_on {
        let index = 0x380 + ch.n_1d_prog_datacou;
        let d = ch.n_1d_prog_datacou.wrapping_add(1);
        ChannelData {
            n_12_volume: hmn_byte(samples, ch.prog_ins as int, index + 0x40) & 0x7f,
            n_a_loopstart: (hmn_byte(samples, ch.prog_ins as int, index) * 0x20) as u32,
            n_1d_prog_datacou: if d > ch.n_9_dataloopend { ch.n_8_dataloopstart } else { d },
            ..ch
        }
    } else {
        ch
    }
}

/// The commands that end a channel's tick: the volume (program volume times
/// instrument volume over 64) and the loop.
pub open spec fn hmn_finish_cmds(c: ChannelData, chn: usize) -> Seq<MixerCmd> {
    seq![
        MixerCmd::SetVolume(chn, ((c.n_12_volume * c.n_13_volume) / 64 * 16) as usize),
        MixerCmd::SetLoopStart(chn, c.n_a_loopstart),
        MixerCmd::SetLoopEnd(chn, (c.n_a_loopstart + c.n_e_replen * 2) as u32),
    ]
}

/// The commands of a tick without a new row for the first `n` channels,
/// in channel order.
pub open spec fn hmn_tick_cmds(s: Seq<ChannelData>, counter: u8, samples: Seq<Sample>, n: int) -> Seq<MixerCmd>
    decreases n,
{
    if n <= 0 {
        seq![]
    } else {
        let ch = s[n - 1];
        hmn_tick_cmds(s, counter, samples, n - 1) + hmn_checkcom_cmds(ch, counter, (n - 1) as usize)
            + hmn_finish_cmds(hmn_prog(hmn_checkcom(ch), samples), (n - 1) as usize)
    }
}

/// The bytes of the name of a "Mupp" instrument: "Mupp", the pattern of its
/// data, the program loop start and end.
pub open spec fn hmn_is_mupp(name: Seq<char>) -> bool {
    let nb = encode_utf8(name);
    nb.len() >= 7 && nb[0] == 77 && nb[1] == 117 && nb[2] == 112 && nb[3] == 112
}

/// The instrument an event names, if there is one of the 31.
pub open spec fn hmn_event_instrument(e: ModEvent, module: ModData) -> Option<ModInstrument> {
    let ins = event_ins(e) as int;
    if 0 < ins <= 31 && ins <= module.instruments@.len() { Some(module.instruments@[ins - 1]) } else { None }
}

/// The channel after reading event `e` with its instrument `inst` (number
/// `ins`): a "Mupp" instrument starts its program from its pattern data,
/// another its sample at full program volume.
pub open spec fn hmn_take_event(ch: ChannelData, e: ModEvent, inst: Option<ModInstrument>, ins: int,
    starts: Seq<u32>, samples: Seq<Sample>) -> ChannelData
{
    let c = ChannelData { n_0_note: e.note, n_2_cmd: e.cmd, n_3_cmdlo: e.cmdlo, ..ch };
    match inst {
        None => c,
        Some(i) => {
            let c1 = ChannelData { n_4_samplestart: starts[ins - 1], n_1e_finetune: i.finetune, n_1c_prog_on: false, ..c };
            if hmn_is_mupp(i.name@) {
                let nb = encode_utf8(i.name@);
                ChannelData {
                    n_1c_prog_on: true,
                    n_4_samplestart: (0x43c + 0x400 * nb[4]) as u32,
                    prog_ins: (ins - 1) as usize,
                    n_12_volume: hmn_byte(samples, ins - 1, 0x3c0) & 0x7f,
                    n_a_loopstart: (32 * hmn_byte(samples, ins - 1, 0x380)) as u32,
                    n_13_volume: i.volume,
                    n_8_dataloopstart: nb[5],
                    n_9_dataloopend: nb[6],
                    n_8_length: (nb[5] * 256 + nb[6]) as u16,
                    n_e_replen: 0x10,
                    ..c1
                }
            } else if i.repeat != 0 {
                ChannelData {
                    n_8_length: i.repeat.wrapping_add(i.replen),
                    n_13_volume: i.volume,
                    n_12_volume: 0x40,
                    n_a_loopstart: i.repeat as u32,
                    n_e_replen: i.replen,
                    ..c1
                }
            } else {
                ChannelData { n_8_length: i.size, n_13_volume: i.volume, n_12_volume: 0x40, n_e_replen: i.replen, ..c1 }
            }
        },
    }
}

/// A note with tone portamento aims at the note's period, in the direction
/// it lies; a note at the current period aims nowhere.
pub open spec fn hmn_setmyport(ch: ChannelData) -> ChannelData {
    let want = (ch.n_0_note & 0xfff) as i16;
    if ch.n_10_period == want {
        ChannelData { n_18_wantperiod: 0, n_16_portdir: false, ..ch }
    } else {
        ChannelData { n_18_wantperiod: want, n_16_portdir: ch.n_10_period < want, ..ch }
    }
}

/// Tone portamento moves toward the note, never past it: a note with
/// tone portamento sets the direction up exactly when the period lies
/// below the note's, and a step moves the period by at most the speed
/// toward it, stopping there.
pub proof fn lemma_hmn_tone_portamento_toward(ch: ChannelData)
    requires
        0 <= ch.n_10_period < 0x1000,
    ensures
        ({
            let want = (ch.n_0_note & 0xfff) as i16;
            let c = hmn_setmyport(ch);
            let d = hmn_myslide(c);
            let spd = ch.n_17_toneportspd;
            &&& want != ch.n_10_period ==> c.n_18_wantperiod == want && (c.n_16_portdir <==> ch.n_10_period < want)
            &&& ch.n_10_period < want ==> ch.n_10_period <= d.n_10_period <= want
                && d.n_10_period <= ch.n_10_period + spd
            &&& ch.n_10_period > want ==> want <= d.n_10_period <= ch.n_10_period
                && d.n_10_period >= ch.n_10_period - spd
        }),
{
    crate::player::noisetracker::lemma_low12(ch.n_0_note);
}

/// Portamento up never raises a period of 0x71 to 0xfff (and at least the
/// parameter) and lowers it by
/// the parameter down to 0x71; portamento down never lowers a period
/// below 0x358 and raises it by the parameter up to 0x358.
pub proof fn lemma_hmn_porta_direction(ch: ChannelData)
    ensures
        0x71 <= ch.n_10_period < 0x1000 && ch.n_10_period - ch.n_3_cmdlo >= 0x71
            ==> hmn_portup_period(ch) == ch.n_10_period - ch.n_3_cmdlo,
        0x71 <= ch.n_10_period < 0x1000 && ch.n_10_period >= ch.n_3_cmdlo
            ==> 0x71 <= hmn_portup_period(ch) <= ch.n_10_period,
        0 <= ch.n_10_period < 0x358 && ch.n_10_period + ch.n_3_cmdlo < 0x358
            ==> hmn_portdown_period(ch) == ch.n_10_period + ch.n_3_cmdlo,
        0 <= ch.n_10_period < 0x358 ==> ch.n_10_period <= hmn_portdown_period(ch) <= 0x358,
{
    crate::player::noisetracker::lemma_period_bits((ch.n_10_period - ch.n_3_cmdlo) as i16);
    crate::player::noisetracker::lemma_period_bits((ch.n_10_period + ch.n_3_cmdlo) as i16);
}

/// The volume slide raises the volume by the parameter's high nibble
/// where it is not 0, else lowers it by the low nibble, within 0 to 64.
pub proof fn lemma_hmn_volslide_direction(ch: ChannelData)
    requires
        ch.n_13_volume <= 64,
    ensures
        ({
            let v = ch.n_13_volume;
            let x = ch.n_3_cmdlo;
            let r = hmn_volslide(ch).n_13_volume;
            &&& x >> 4 != 0 ==> v <= r && r == (if v + (x >> 4) > 64 { 64 } else { v + (x >> 4) })
            &&& x >> 4 == 0 ==> r <= v && r == (if v > (x & 0x0f) { v - (x & 0x0f) } else { 0 })
        }),
{
    crate::player::st3::lemma_nibbles(ch.n_3_cmdlo);
}

/// The note of a row sounds: it has a period and the channel a length.
pub open spec fn hmn_note_sounds(ch: ChannelData) -> bool {
    ch.n_0_note & 0xfff != 0 && ch.n_8_length != 0
}

/// The note is aimed at by tone portamento (commands 3 and 5).
pub open spec fn hmn_note_porta(ch: ChannelData) -> bool {
    hmn_note_sounds(ch) && (ch.n_2_cmd & 0xf == 3 || ch.n_2_cmd & 0xf == 5)
}

/// The channel after its note: tone portamento aims at it; otherwise it
/// starts, its period set and the vibrato position and program counter
/// cleared.
pub open spec fn hmn_note_channel(ch: ChannelData) -> ChannelData {
    if !hmn_note_sounds(ch) {
        ch
    } else if hmn_note_porta(ch) {
        hmn_setmyport(ch)
    } else {
        ChannelData { n_10_period: (ch.n_0_note & 0xfff) as i16, n_1b_vibpos: 0, n_1d_prog_datacou: 0, ..ch }
    }
}

/// The commands of a note started (the channel after it): the sample from
/// its start with its loop, then the period.
pub open spec fn hmn_note_cmds(c: ChannelData, chn: usize) -> Seq<MixerCmd> {
    seq![
        MixerCmd::SetSamplePtr(chn, c.n_4_samplestart),
        MixerCmd::SetLoopStart(chn, c.n_a_loopstart),
        MixerCmd::SetLoopEnd(chn, (c.n_a_loopstart + c.n_e_replen * 2) as u32),
        MixerCmd::EnableLoop(chn, c.n_e_replen > 1),
        MixerCmd::SetPeriod(chn, hmn_percalc(c.n_1e_finetune, c.n_10_period & 0xfff) as i32),
    ]
}

/// The position after `songpos`: the next of the 128, or the restart
/// position past the end of the song.
pub open spec fn hmn_next_pos(songpos: u8, module: ModData) -> u8 {
    let p = songpos.wrapping_add(1) & 0x7f;
    if p >= module.song_length { module.restart } else { p }
}

/// The four channels `a` with channel `chn` replaced by `c`.
pub open spec fn hmn_voices_with(a: [ChannelData; 4], chn: int, c: ChannelData) -> [ChannelData; 4] {
    [
        if chn == 0 { c } else { a[0] },
        if chn == 1 { c } else { a[1] },
        if chn == 2 { c } else { a[2] },
        if chn == 3 { c } else { a[3] },
    ]
}

/// `a` with channel `chn` played as `ch` and its new row's command carried
/// out; see `hmn_row_effect`.
pub open spec fn hmn_row_apply(a: HmnPlayer, ch: ChannelData, chn: int) -> HmnPlayer {
    let cmd = ch.n_2_cmd & 0xf;
    let speed_set = cmd == 0xf && hmn_row_cmdlo(ch) != 0;
    HmnPlayer {
        voice: hmn_voices_with(a.voice, chn, hmn_row_channel(ch)),
        l642_speed: if speed_set { hmn_row_cmdlo(ch) } else { a.l642_speed },
        l695_counter: if speed_set { 0 } else { a.l695_counter },
        l693_songpos: if cmd == 0xb { ch.n_3_cmdlo.wrapping_sub(1) } else { a.l693_songpos },
        l681_break: if cmd == 0xd || cmd == 0xb { !a.l681_break } else { a.l681_break },
        ..a
    }
}

/// The event of channel `chn` in row `row` of pattern `pat`.
pub open spec fn hmn_event(module: ModData, pat: int, row: int, chn: int) -> ModEvent {
    event_or_empty(module.patterns.events(), (pat * 64 + row) * module.patterns.spec_chn() + chn)
}

/// The channel `chn` of `p` after reading its event in the current row of
/// pattern `pat`, before its note and command.
pub open spec fn hmn_taken(p: HmnPlayer, pat: int, chn: int, module: ModData) -> ChannelData {
    let e = hmn_event(module, pat, p.l692_pattpos as int, chn);
    hmn_take_event(p.voice@[chn], e, hmn_event_instrument(e, module), event_ins(e) as int,
        p.l698_samplestarts@, module.samples@)
}

/// `p` after the note and command of channel `chn`, its event just read:
/// the command runs twice after a tone portamento note.
pub open spec fn hmn_setregs(p: HmnPlayer, chn: int) -> HmnPlayer {
    let c1 = p.voice@[chn];
    let c2 = hmn_note_channel(c1);
    if hmn_note_porta(c1) {
        hmn_row_apply(hmn_row_apply(p, c2, chn), hmn_row_channel(c2), chn)
    } else {
        hmn_row_apply(p, c2, chn)
    }
}

/// The commands of the note and command of channel `chn`, its event just
/// read.
pub open spec fn hmn_setregs_cmds(p: HmnPlayer, chn: int) -> Seq<MixerCmd> {
    let c1 = p.voice@[chn];
    let c2 = hmn_note_channel(c1);
    if hmn_note_porta(c1) {
        hmn_row_cmds(c2, p.l695_counter, chn as usize) + hmn_row_cmds(hmn_row_channel(c2), p.l695_counter, chn as usize)
    } else {
        (if hmn_note_sounds(c1) { hmn_note_cmds(c2, chn as usize) } else { seq![] })
            + hmn_row_cmds(c2, p.l695_counter, chn as usize)
    }
}

/// `p` with the event of channel `chn` in the current row of pattern `pat`
/// read into the channel.
pub open spec fn hmn_read(p: HmnPlayer, pat: int, chn: int, module: ModData) -> HmnPlayer {
    HmnPlayer { voice: hmn_voices_with(p.voice, chn, hmn_taken(p, pat, chn, module)), ..p }
}

/// `p` after channel `chn` plays its event in the current row of pattern
/// `pat`.
pub open spec fn hmn_voice(p: HmnPlayer, pat: int, chn: int, module: ModData) -> HmnPlayer {
    hmn_setregs(hmn_read(p, pat, chn, module), chn)
}

/// The commands of channel `chn` playing its event in the current row of
/// pattern `pat`.
pub open spec fn hmn_voice_cmds(p: HmnPlayer, pat: int, chn: int, module: ModData) -> Seq<MixerCmd> {
    hmn_setregs_cmds(hmn_read(p, pat, chn, module), chn)
}

/// `p` after the first `n` channels play their events, in channel order.
pub open spec fn hmn_voices(p: HmnPlayer, pat: int, module: ModData, n: int) -> HmnPlayer
    decreases n,
{
    if n <= 0 { p } else { hmn_voice(hmn_voices(p, pat, module, n - 1), pat, n - 1, module) }
}

/// The commands of the first `n` channels playing their events.
pub open spec fn hmn_voices_cmds(p: HmnPlayer, pat: int, module: ModData, n: int) -> Seq<MixerCmd>
    decreases n,
{
    if n <= 0 {
        seq![]
    } else {
        hmn_voices_cmds(p, pat, module, n - 1) + hmn_voice_cmds(hmn_voices(p, pat, module, n - 1), pat, n - 1, module)
    }
}

/// The four channels after their program steps.
pub open spec fn hmn_progs(a: [ChannelData; 4], samples: Seq<Sample>) -> [ChannelData; 4] {
    [hmn_prog(a[0], samples), hmn_prog(a[1], samples), hmn_prog(a[2], samples), hmn_prog(a[3], samples)]
}

/// The commands that end the tick of the first `n` channels `s`, after
/// their program steps.
pub open spec fn hmn_finish_all_cmds(s: Seq<ChannelData>, samples: Seq<Sample>, n: int) -> Seq<MixerCmd>
    decreases n,
{
    if n <= 0 {
        seq![]
    } else {
        hmn_finish_all_cmds(s, samples, n - 1) + hmn_finish_cmds(hmn_prog(s[n - 1], samples), (n - 1) as usize)
    }
}

/// `p` at row 0 of the next position, no break pending.
pub open spec fn hmn_next(p: HmnPlayer, module: ModData) -> HmnPlayer {
    HmnPlayer { l692_pattpos: 0, l681_break: false, l693_songpos: hmn_next_pos(p.l693_songpos, module), ..p }
}

/// `p` after a new row at position `p.l693_songpos` (within the 128): the
/// channels play their events, then their program steps; the row advances,
/// to the next position past row 63 or on a break.
pub open spec fn hmn_getnew(p: HmnPlayer, module: ModData) -> HmnPlayer {
    let q = hmn_voices(p, module.orders@[p.l693_songpos as int] as int, module, 4);
    let r = HmnPlayer { voice: hmn_progs(q.voice, module.samples@), l692_pattpos: (q.l692_pattpos + 1) as u8, ..q };
    let r2 = if r.l692_pattpos == 64 { hmn_next(r, module) } else { r };
    if r2.l681_break { hmn_next(r2, module) } else { r2 }
}

/// The commands of a new row; see `hmn_getnew`.
pub open spec fn hmn_getnew_cmds(p: HmnPlayer, module: ModData) -> Seq<MixerCmd> {
    let q = hmn_voices(p, module.orders@[p.l693_songpos as int] as int, module, 4);
    hmn_voices_cmds(p, module.orders@[p.l693_songpos as int] as int, module, 4)
        + hmn_finish_all_cmds(q.voice@, module.samples@, 4)
}

/// One tick of the replay from `a` to `b`, the commands going from
/// `before` to `after`. Before the last tick of a row the tick count
/// advances and each channel runs its effect and program step. The last
/// tick of a row starts the count again and, within the 128 positions,
/// reads the row and moves on: to the next row, or to row 0 of the next
/// position past row 63 or on a break.
pub open spec fn hmn_tick(a: HmnPlayer, b: HmnPlayer, module: ModData, before: Seq<MixerCmd>, after: Seq<MixerCmd>) -> bool {
    &&& hmn_wf(b)
    &&& b.options == a.options
    &&& b.l698_samplestarts == a.l698_samplestarts
    &&& a.l695_counter + 1 < a.l642_speed ==> {
        &&& b.l695_counter == a.l695_counter + 1
        &&& b.l642_speed == a.l642_speed
        &&& b.l692_pattpos == a.l692_pattpos && b.l693_songpos == a.l693_songpos && b.l681_break == a.l681_break
        &&& forall|c: int| 0 <= c < 4 ==> #[trigger] b.voice@[c] == hmn_prog(hmn_checkcom(a.voice@[c]), module.samples@)
        &&& after == before + hmn_tick_cmds(a.voice@, (a.l695_counter + 1) as u8, module.samples@, 4)
    }
    &&& a.l695_counter + 1 >= a.l642_speed ==> {
        &&& b.l695_counter == 0
        &&& a.l693_songpos >= 128 ==> {
            &&& b.l692_pattpos == a.l692_pattpos && b.l693_songpos == a.l693_songpos && b.l681_break == a.l681_break
            &&& b.l642_speed == a.l642_speed && b.voice == a.voice && after == before
        }
        &&& a.l693_songpos < 128 ==> {
            &&& b == hmn_getnew(HmnPlayer { l695_counter: 0, ..a }, module)
            &&& after == before + hmn_getnew_cmds(HmnPlayer { l695_counter: 0, ..a }, module)
            &&& (b.l692_pattpos == 0 || b.l692_pattpos == a.l692_pattpos + 1) && !b.l681_break
        }
    }
}

/// A row effect as `hmn_row_effect` relates it is `hmn_row_apply`.
proof fn lemma_hmn_row_apply(a: HmnPlayer, ch: ChannelData, chn: int, b: HmnPlayer)
    requires
        0 <= chn < 4,
        hmn_row_effect(a, ch, chn, b),
    ensures
        b == hmn_row_apply(a, ch, chn),
{
    let w = hmn_row_apply(a, ch, chn);
    assert(w.voice@ =~= a.voice@.update(chn, hmn_row_channel(ch)));
    assert(b.voice =~= w.voice);
}

/// Tone portamento's double command, as `hmn_voice_set` relates it, is
/// `hmn_row_apply` twice.
proof fn lemma_hmn_porta_apply(a: HmnPlayer, c2: ChannelData, chn: int, b: HmnPlayer)
    requires
        0 <= chn < 4,
        c2.n_2_cmd & 0xf == 3 || c2.n_2_cmd & 0xf == 5,
        hmn_voice_set(a, b, chn, hmn_row_channel(hmn_row_channel(c2))),
    ensures
        b == hmn_row_apply(hmn_row_apply(a, c2, chn), hmn_row_channel(c2), chn),
{
    let w1 = hmn_row_apply(a, c2, chn);
    let w = hmn_row_apply(w1, hmn_row_channel(c2), chn);
    assert(hmn_row_channel(c2).n_2_cmd == c2.n_2_cmd);
    assert(w.voice@ =~= a.voice@.update(chn, hmn_row_channel(hmn_row_channel(c2))));
    assert(b.voice =~= w.voice);
}

impl HmnPlayer {
    /// Plays `val` with the channel's finetune.
    fn percalc(&self, chn: usize, val: i16, cmds: &mut Vec<MixerCmd>)
        requires
            chn < 4,
        ensures
            final(cmds)@ == old(cmds)@.push(
                MixerCmd::SetPeriod(chn, hmn_percalc(self.voice@[chn as int].n_1e_finetune, val) as i32)),
    {
        let ft = (self.voice[chn].n_1e_finetune as i8) as i16;
        let p = (ft.wrapping_mul(val) >> 8u32).wrapping_add(val);
        cmds.push(MixerCmd::SetPeriod(chn, p as i32));
    }

    /// Arpeggio: the table period a step above the one the channel
    /// reaches, where the table has it.
    fn l505_8_arpeggio(&self, chn: usize, cmds: &mut Vec<MixerCmd>)
        requires
            chn < 4,
            self.voice@[chn as int].n_2_cmd & 0xf == 0,
            self.voice@[chn as int].n_3_cmdlo != 0,
        ensures
            final(cmds)@ == old(cmds)@ + hmn_checkcom_cmds(self.voice@[chn as int], self.l695_counter, chn),
    {
        let ch = self.voice[chn];
        let lo = ch.n_3_cmdlo;
        assert(lo & 15 < 16 && lo >> 4 < 16) by (bit_vector);
        let c = self.l695_counter % 3;
        let val: usize = if c == 2 {
            (lo & 15) as usize
        } else if c == 0 {
            0
        } else {
            (lo >> 4) as usize
        };
        let ghost step = val as int;
        let mut i: usize = 0;
        while i < 36
            invariant
                i <= 36,
                val < 16,
                step == val,
                step == hmn_arp_step(ch.n_3_cmdlo, self.l695_counter),
                chn < 4,
                ch == self.voice@[chn as int],
                ch.n_2_cmd & 0xf == 0,
                ch.n_3_cmdlo != 0,
                hmn_arp_index(ch.n_10_period, step, 0) == hmn_arp_index(ch.n_10_period, step, i as int),
                cmds@ == old(cmds)@,
            decreases 36 - i,
        {
            if ch.n_10_period & 0xfff >= hmn_period(i) && i + val < 38 {
                let p = hmn_period(i + val);
                self.percalc(chn, p, cmds);
                assert(cmds@ =~= old(cmds)@ + hmn_checkcom_cmds(self.voice@[chn as int], self.l695_counter, chn));
                return;
            }
            i = i + 1;
        }
        assert(cmds@ =~= old(cmds)@ + hmn_checkcom_cmds(self.voice@[chn as int], self.l695_counter, chn));
    }

    /// Mega arpeggio: the step of the arpeggio in the parameter at the
    /// vibrato position (which advances) above the table period the
    /// channel reaches, down by octaves into the table.
    fn megaarp(&mut self, chn: usize, cmds: &mut Vec<MixerCmd>)
        requires
            chn < 4,
            old(self).voice@[chn as int].n_2_cmd & 0xf == 7,
        ensures
            hmn_voice_set(*old(self), *final(self), chn as int, hmn_checkcom(old(self).voice@[chn as int])),
            final(cmds)@ == old(cmds)@ + hmn_checkcom_cmds(old(self).voice@[chn as int], old(self).l695_counter, chn),
    {
        let ch0 = self.voice[chn];
        let mut ch = ch0;
        let pos = ch.n_1b_vibpos;
        ch.n_1b_vibpos = ch.n_1b_vibpos.wrapping_add(1);
        self.voice[chn] = ch;
        let lo = ch.n_3_cmdlo;
        assert(((lo & 0xf) << 4u8) + (pos & 0xf) <= 255 && ((lo & 0xf) << 4u8) + (pos & 0xf) == (lo & 0xf) * 16 + (pos & 0xf)) by (bit_vector);
        let index = ((lo & 0xf) << 4u8) + (pos & 0xf);
        let val = mega_arp(index) as usize;
        assert(val <= 31) by {
            assert(forall|k: int| 0 <= k < 256 ==> #[trigger] mega_arps()[k] <= 31);
        }
        let mut i: usize = 0;
        while i < 36
            invariant
                i <= 36,
                val <= 31,
                val == hmn_mega_step(ch0),
                chn < 4,
                ch0 == old(self).voice@[chn as int],
                ch0.n_2_cmd & 0xf == 7,
                hmn_voice_set(*old(self), *self, chn as int, hmn_checkcom(ch0)),
                hmn_first_reached(ch0.n_10_period, 0) == hmn_first_reached(ch0.n_10_period, i as int),
                cmds@ == old(cmds)@,
            decreases 36 - i,
        {
            if ch0.n_10_period & 0xfff >= hmn_period(i) {
                let mut index = i + val;
                while index >= 38
                    invariant
                        index <= 66,
                        hmn_in_table(index as int) == hmn_in_table(i + val),
                    decreases index,
                {
                    index = index - 12;
                }
                let p = hmn_period(index);
                self.percalc(chn, p, cmds);
                assert(cmds@ =~= old(cmds)@ + hmn_checkcom_cmds(ch0, old(self).l695_counter, chn));
                return;
            }
            i = i + 1;
        }
        assert(cmds@ =~= old(cmds)@ + hmn_checkcom_cmds(ch0, old(self).l695_counter, chn));
    }

    /// Tone portamento toward the wanted period; see `hmn_myslide`.
    fn myslide(&mut self, chn: usize, cmds: &mut Vec<MixerCmd>)
        requires
            chn < 4,
        ensures
            hmn_voice_set(*old(self), *final(self), chn as int, hmn_myslide(old(self).voice@[chn as int])),
            final(cmds)@ == old(cmds)@.push(MixerCmd::SetPeriod(chn,
                hmn_percalc(old(self).voice@[chn as int].n_1e_finetune, hmn_myslide(old(self).voice@[chn as int]).n_10_period) as i32)),
    {
        let mut ch = self.voice[chn];
        if ch.n_18_wantperiod != 0 {
            if ch.n_16_portdir {
                ch.n_10_period = ch.n_10_period.wrapping_add(ch.n_17_toneportspd as i16);
                if ch.n_10_period > ch.n_18_wantperiod {
                    ch.n_10_period = ch.n_18_wantperiod;
                    ch.n_18_wantperiod = 0;
                }
            } else {
                ch.n_10_period = ch.n_10_period.wrapping_sub(ch.n_17_toneportspd as i16);
                if ch.n_10_period < ch.n_18_wantperiod {
                    ch.n_10_period = ch.n_18_wantperiod;
                    ch.n_18_wantperiod = 0;
                }
            }
        }
        self.voice[chn] = ch;
        let p = ch.n_10_period;
        self.percalc(chn, p, cmds);
        assert(self.voice@ =~= old(self).voice@.update(chn as int, hmn_myslide(old(self).voice@[chn as int])));
    }

    /// Vibrato at the channel's command: the period moved by the sine at
    /// the position is played, and the position advances.
    fn vibrato(&mut self, chn: usize, cmds: &mut Vec<MixerCmd>)
        requires
            chn < 4,
        ensures
            hmn_voice_set(*old(self), *final(self), chn as int, hmn_vib_next(old(self).voice@[chn as int])),
            final(cmds)@ == old(cmds)@.push(MixerCmd::SetPeriod(chn,
                hmn_percalc(old(self).voice@[chn as int].n_1e_finetune, hmn_vib_period(old(self).voice@[chn as int])) as i32)),
    {
        let mut ch = self.voice[chn];
        let vp = ch.n_1b_vibpos;
        assert((vp >> 2) & 0x1f < 32) by (bit_vector);
        let pos = (vp >> 2) & 0x1f;
        let val = mt_vibrato_value(pos);
        let vib = ch.n_1a_vibrato;
        let depth = vib & 0xf;
        assert(vib & 0xf < 16) by (bit_vector);
        assert(val as usize * depth as usize <= 255 * 15) by (nonlinear_arith)
            requires val <= 255, depth < 16;
        let amt = ((val as usize * depth as usize) / 128) as i16;
        let period = if ch.n_1b_vibpos & 0x80 == 0 {
            ch.n_10_period.wrapping_add(amt)
        } else {
            ch.n_10_period.wrapping_sub(amt)
        };
        self.percalc(chn, period, cmds);
        ch.n_1b_vibpos = ch.n_1b_vibpos.wrapping_add((ch.n_1a_vibrato >> 2) & 0x3c);
        self.voice[chn] = ch;
        assert(self.voice@ =~= old(self).voice@.update(chn as int, hmn_vib_next(old(self).voice@[chn as int])));
    }

    /// Volume slide of the instrument volume; see `hmn_volslide`.
    fn l577_3_volslide(&mut self, chn: usize)
        requires
            chn < 4,
        ensures
            hmn_voice_set(*old(self), *final(self), chn as int, hmn_volslide(old(self).voice@[chn as int])),
    {
        let mut ch = self.voice[chn];
        if ch.n_3_cmdlo >> 4 == 0 {
            let d = ch.n_3_cmdlo & 0x0f;
            if ch.n_13_volume > d {
                ch.n_13_volume = ch.n_13_volume - d;
            } else {
                ch.n_13_volume = 0;
            }
        } else {
            let w = ch.n_13_volume.wrapping_add(ch.n_3_cmdlo >> 4);
            ch.n_13_volume = if w > 0x40 { 0x40 } else { w };
        }
        self.voice[chn] = ch;
        assert(self.voice@ =~= old(self).voice@.update(chn as int, hmn_volslide(old(self).voice@[chn as int])));
    }

    /// Portamento up (see `hmn_portup_period`), the period played.
    fn l577_7_portup(&mut self, chn: usize, cmds: &mut Vec<MixerCmd>)
        requires
            chn < 4,
            old(self).voice@[chn as int].n_2_cmd & 0xf == 1,
        ensures
            hmn_voice_set(*old(self), *final(self), chn as int, hmn_checkcom(old(self).voice@[chn as int])),
            final(cmds)@ == old(cmds)@ + hmn_checkcom_cmds(old(self).voice@[chn as int], old(self).l695_counter, chn),
    {
        let mut c = self.voice[chn];
        let mut p = c.n_10_period.wrapping_sub(c.n_3_cmdlo as i16);
        if p & 0xfff < 0x71 {
            p = (p & -4096i16) | 0x71;
        }
        c.n_10_period = p;
        self.voice[chn] = c;
        self.percalc(chn, p, cmds);
        assert(self.voice@ =~= old(self).voice@.update(chn as int, hmn_checkcom(old(self).voice@[chn as int])));
        assert(cmds@ =~= old(cmds)@ + hmn_checkcom_cmds(old(self).voice@[chn as int], old(self).l695_counter, chn));
    }

    /// Portamento down (see `hmn_portdown_period`), the period played.
    fn l577_9_portdown(&mut self, chn: usize, cmds: &mut Vec<MixerCmd>)
        requires
            chn < 4,
            old(self).voice@[chn as int].n_2_cmd & 0xf == 2,
        ensures
            hmn_voice_set(*old(self), *final(self), chn as int, hmn_checkcom(old(self).voice@[chn as int])),
            final(cmds)@ == old(cmds)@ + hmn_checkcom_cmds(old(self).voice@[chn as int], old(self).l695_counter, chn),
    {
        let mut c = self.voice[chn];
        let mut p = c.n_10_period.wrapping_add(c.n_3_cmdlo as i16);
        if p & 0xfff >= 0x358 {
            p = (p & -4096i16) | 0x358;
        }
        c.n_10_period = p;
        self.voice[chn] = c;
        self.percalc(chn, p, cmds);
        assert(self.voice@ =~= old(self).voice@.update(chn as int, hmn_checkcom(old(self).voice@[chn as int])));
        assert(cmds@ =~= old(cmds)@ + hmn_checkcom_cmds(old(self).voice@[chn as int], old(self).l695_counter, chn));
    }

    /// Tone portamento: a nonzero parameter becomes the speed (and is
    /// cleared), then the slide.
    fn myport(&mut self, chn: usize, cmds: &mut Vec<MixerCmd>)
        requires
            chn < 4,
            old(self).voice@[chn as int].n_2_cmd & 0xf == 3,
        ensures
            hmn_voice_set(*old(self), *final(self), chn as int, hmn_checkcom(old(self).voice@[chn as int])),
            final(cmds)@ == old(cmds)@ + hmn_checkcom_cmds(old(self).voice@[chn as int], old(self).l695_counter, chn),
    {
        let ch = self.voice[chn];
        if ch.n_3_cmdlo != 0 {
            let mut c = ch;
            c.n_17_toneportspd = c.n_3_cmdlo;
            c.n_3_cmdlo = 0;
            self.voice[chn] = c;
        }
        self.myslide(chn, cmds);
        assert(self.voice@ =~= old(self).voice@.update(chn as int, hmn_checkcom(old(self).voice@[chn as int])));
        assert(cmds@ =~= old(cmds)@ + hmn_checkcom_cmds(old(self).voice@[chn as int], old(self).l695_counter, chn));
    }

    /// Vibrato: a nonzero parameter becomes the vibrato command, then the
    /// vibrato.
    fn vib(&mut self, chn: usize, cmds: &mut Vec<MixerCmd>)
        requires
            chn < 4,
            old(self).voice@[chn as int].n_2_cmd & 0xf == 4,
        ensures
            hmn_voice_set(*old(self), *final(self), chn as int, hmn_checkcom(old(self).voice@[chn as int])),
            final(cmds)@ == old(cmds)@ + hmn_checkcom_cmds(old(self).voice@[chn as int], old(self).l695_counter, chn),
    {
        let ch = self.voice[chn];
        if ch.n_3_cmdlo != 0 {
            let mut c = ch;
            c.n_1a_vibrato = c.n_3_cmdlo;
            self.voice[chn] = c;
        }
        self.vibrato(chn, cmds);
        assert(self.voice@ =~= old(self).voice@.update(chn as int, hmn_checkcom(old(self).voice@[chn as int])));
        assert(cmds@ =~= old(cmds)@ + hmn_checkcom_cmds(old(self).voice@[chn as int], old(self).l695_counter, chn));
    }

    /// Tone portamento slide and volume slide.
    fn myportvolslide(&mut self, chn: usize, cmds: &mut Vec<MixerCmd>)
        requires
            chn < 4,
            old(self).voice@[chn as int].n_2_cmd & 0xf == 5,
        ensures
            hmn_voice_set(*old(self), *final(self), chn as int, hmn_checkcom(old(self).voice@[chn as int])),
            final(cmds)@ == old(cmds)@ + hmn_checkcom_cmds(old(self).voice@[chn as int], old(self).l695_counter, chn),
    {
        self.myslide(chn, cmds);
        self.l577_3_volslide(chn);
        assert(self.voice@ =~= old(self).voice@.update(chn as int, hmn_checkcom(old(self).voice@[chn as int])));
        assert(cmds@ =~= old(cmds)@ + hmn_checkcom_cmds(old(self).voice@[chn as int], old(self).l695_counter, chn));
    }

    /// Vibrato and volume slide.
    fn vibvolslide(&mut self, chn: usize, cmds: &mut Vec<MixerCmd>)
        requires
            chn < 4,
            old(self).voice@[chn as int].n_2_cmd & 0xf == 6,
        ensures
            hmn_voice_set(*old(self), *final(self), chn as int, hmn_checkcom(old(self).voice@[chn as int])),
            final(cmds)@ == old(cmds)@ + hmn_checkcom_cmds(old(self).voice@[chn as int], old(self).l695_counter, chn),
    {
        self.vibrato(chn, cmds);
        self.l577_3_volslide(chn);
        assert(self.voice@ =~= old(self).voice@.update(chn as int, hmn_checkcom(old(self).voice@[chn as int])));
        assert(cmds@ =~= old(cmds)@ + hmn_checkcom_cmds(old(self).voice@[chn as int], old(self).l695_counter, chn));
    }

    /// The effect of a tick on channel `chn`: see `hmn_checkcom` and
    /// `hmn_checkcom_period`.
    fn l577_2_checkcom(&mut self, chn: usize, cmds: &mut Vec<MixerCmd>)
        requires
            chn < 4,
        ensures
            hmn_voice_set(*old(self), *final(self), chn as int, hmn_checkcom(old(self).voice@[chn as int])),
            final(cmds)@ == old(cmds)@ + hmn_checkcom_cmds(old(self).voice@[chn as int], old(self).l695_counter, chn),
    {
        let ch = self.voice[chn];
        let cmd = ch.n_2_cmd & 0xf;
        if cmd == 0 && ch.n_3_cmdlo == 0 {
            self.percalc(chn, ch.n_10_period, cmds);
        } else if cmd == 0x0 {
            self.l505_8_arpeggio(chn, cmds);
        } else if cmd == 0x1 {
            self.l577_7_portup(chn, cmds);
        } else if cmd == 0x2 {
            self.l577_9_portdown(chn, cmds);
        } else if cmd == 0x3 {
            self.myport(chn, cmds);
        } else if cmd == 0x4 {
            self.vib(chn, cmds);
        } else if cmd == 0x5 {
            self.myportvolslide(chn, cmds);
        } else if cmd == 0x6 {
            self.vibvolslide(chn, cmds);
        } else if cmd == 0x7 {
            self.megaarp(chn, cmds);
        } else {
            self.percalc(chn, ch.n_10_period, cmds);
            if cmd == 0xa {
                self.l577_3_volslide(chn);
            }
        }
        assert(self.voice@ =~= old(self).voice@.update(chn as int, hmn_checkcom(old(self).voice@[chn as int])));
        assert(cmds@ =~= old(cmds)@ + hmn_checkcom_cmds(old(self).voice@[chn as int], old(self).l695_counter, chn));
    }

    /// The filter command: the Amiga filter on for a nonzero low nibble.
    fn l577_h_setfilt(&self, chn: usize, cmds: &mut Vec<MixerCmd>)
        requires
            chn < 4,
        ensures
            final(cmds)@ == old(cmds)@.push(MixerCmd::EnableFilter(self.voice@[chn as int].n_3_cmdlo & 0x0f != 0)),
    {
        cmds.push(MixerCmd::EnableFilter(self.voice[chn].n_3_cmdlo & 0x0f != 0));
    }

    /// Pattern break: toggles the break flag.
    fn l577_i_pattbreak(&mut self)
        ensures
            *final(self) == (HmnPlayer { l681_break: !old(self).l681_break, ..*old(self) }),
    {
        self.l681_break = !self.l681_break;
    }

    /// Position jump: to the position before the one in the parameter,
    /// the break flag toggled.
    fn l577_j_mt_posjmp(&mut self, chn: usize)
        requires
            chn < 4,
        ensures
            *final(self) == (HmnPlayer {
                l693_songpos: old(self).voice@[chn as int].n_3_cmdlo.wrapping_sub(1),
                l681_break: !old(self).l681_break,
                ..*old(self)
            }),
    {
        self.l693_songpos = self.voice[chn].n_3_cmdlo.wrapping_sub(1);
        self.l681_break = !self.l681_break;
    }

    /// Set volume: the instrument volume from the parameter, 64 where it is
    /// above.
    fn l577_k_setvol(&mut self, chn: usize)
        requires
            chn < 4,
            old(self).voice@[chn as int].n_2_cmd & 0xf == 0xc,
        ensures
            hmn_row_effect(*old(self), old(self).voice@[chn as int], chn as int, *final(self)),
            ({
                let d = old(self).voice@[chn as int].n_3_cmdlo;
                final(self).voice@[chn as int].n_13_volume == if d > 0x40 { 0x40 } else { d }
            }),
    {
        let mut ch = self.voice[chn];
        if ch.n_3_cmdlo > 0x40 {
            ch.n_3_cmdlo = 0x40;
        }
        ch.n_13_volume = ch.n_3_cmdlo;
        self.voice[chn] = ch;
        assert(self.voice@ =~= old(self).voice@.update(chn as int, ch));
    }

    /// Set speed: the parameter, at most 31; a nonzero one sets the speed
    /// and restarts the tick count.
    fn l577_m_setspeed(&mut self, chn: usize)
        requires
            chn < 4,
            old(self).voice@[chn as int].n_2_cmd & 0xf == 0xf,
        ensures
            hmn_row_effect(*old(self), old(self).voice@[chn as int], chn as int, *final(self)),
    {
        let mut ch = self.voice[chn];
        if ch.n_3_cmdlo > 0x1f {
            ch.n_3_cmdlo = 0x1f;
        }
        self.voice[chn] = ch;
        if ch.n_3_cmdlo != 0 {
            self.l642_speed = ch.n_3_cmdlo;
            self.l695_counter = 0;
        }
        assert(self.voice@ =~= old(self).voice@.update(chn as int, ch));
    }

    /// The command of a new row on channel `chn`: filter, pattern break,
    /// position jump, volume, speed, or else the effect of a tick.
    fn l577_2_checkcom2(&mut self, chn: usize, cmds: &mut Vec<MixerCmd>)
        requires
            chn < 4,
        ensures
            hmn_row_effect(*old(self), old(self).voice@[chn as int], chn as int, *final(self)),
            final(cmds)@ == old(cmds)@ + hmn_row_cmds(old(self).voice@[chn as int], old(self).l695_counter, chn),
    {
        let cmd = self.voice[chn].n_2_cmd & 0xf;
        if cmd == 0xe {
            self.l577_h_setfilt(chn, cmds);
        } else if cmd == 0xd {
            self.l577_i_pattbreak();
        } else if cmd == 0xb {
            self.l577_j_mt_posjmp(chn);
        } else if cmd == 0xc {
            self.l577_k_setvol(chn);
        } else if cmd == 0xf {
            self.l577_m_setspeed(chn);
        } else {
            self.l577_2_checkcom(chn, cmds);
        }
        assert(cmds@ =~= old(cmds)@ + hmn_row_cmds(old(self).voice@[chn as int], old(self).l695_counter, chn));
        assert(self.voice@ =~= old(self).voice@.update(chn as int, hmn_row_channel(old(self).voice@[chn as int])));
    }

    /// The program step of a "Mupp" instrument (see `hmn_prog`), then the
    /// channel volume played.
    fn prog_handler(&mut self, chn: usize, module: &ModData, cmds: &mut Vec<MixerCmd>)
        requires
            chn < 4,
        ensures
            hmn_voice_set(*old(self), *final(self), chn as int, hmn_prog(old(self).voice@[chn as int], module.samples@)),
            final(cmds)@ == old(cmds)@.push(hmn_finish_cmds(hmn_prog(old(self).voice@[chn as int], module.samples@), chn)[0]),
    {
        let mut ch = self.voice[chn];
        if ch.n_1c_prog_on {
            let mut datacou = ch.n_1d_prog_datacou;
            let index = 0x380 + datacou as usize;
            ch.n_12_volume = sample_byte(&module.samples, ch.prog_ins, index + 0x40) & 0x7f;
            ch.n_a_loopstart = sample_byte(&module.samples, ch.prog_ins, index) as u32 * 0x20;
            datacou = datacou.wrapping_add(1);
            if datacou > ch.n_9_dataloopend {
                datacou = ch.n_8_dataloopstart;
            }
            ch.n_1d_prog_datacou = datacou;
            self.voice[chn] = ch;
        }
        assert(ch.n_12_volume as u16 * ch.n_13_volume as u16 <= 255 * 255) by (nonlinear_arith)
            requires ch.n_12_volume <= 255, ch.n_13_volume <= 255;
        let volume = (ch.n_12_volume as u16 * ch.n_13_volume as u16) as usize / 64;
        cmds.push(MixerCmd::SetVolume(chn, volume * 16));
        assert(self.voice@ =~= old(self).voice@.update(chn as int, hmn_prog(old(self).voice@[chn as int], module.samples@)));
    }

    /// A note with tone portamento: see `hmn_setmyport`.
    fn setmyport(&mut self, chn: usize)
        requires
            chn < 4,
        ensures
            hmn_voice_set(*old(self), *final(self), chn as int, hmn_setmyport(old(self).voice@[chn as int])),
    {
        let mut ch = self.voice[chn];
        ch.n_18_wantperiod = (ch.n_0_note & 0xfff) as i16;
        ch.n_16_portdir = false;
        if ch.n_10_period == ch.n_18_wantperiod {
            ch.n_18_wantperiod = 0;
        } else if ch.n_10_period < ch.n_18_wantperiod {
            ch.n_16_portdir = true;
        }
        self.voice[chn] = ch;
        assert(self.voice@ =~= old(self).voice@.update(chn as int, hmn_setmyport(old(self).voice@[chn as int])));
    }

    /// The channel `ch0` after reading `event`: see `hmn_take_event`.
    fn take_event(&self, ch0: ChannelData, event: ModEvent, module: &ModData) -> (r: ChannelData)
        ensures
            r == hmn_take_event(ch0, event, hmn_event_instrument(event, *module), event_ins(event) as int,
                self.l698_samplestarts@, module.samples@),
    {
        let mut ch = ch0;
        ch.n_0_note = event.note;
        ch.n_2_cmd = event.cmd;
        ch.n_3_cmdlo = event.cmdlo;
        let ins = event.ins() as usize;
        if ins > 0 && ins <= 31 && ins <= module.instruments.len() {
            let prog_ins = ins - 1;
            let instrument = &module.instruments[prog_ins];
            ch.n_4_samplestart = self.l698_samplestarts[prog_ins];
            ch.n_1e_finetune = instrument.finetune;
            ch.n_1c_prog_on = false;
            let nb = instrument.name.as_str().as_bytes();
            if nb.len() >= 7 && nb[0] == 77 && nb[1] == 117 && nb[2] == 112 && nb[3] == 112 {
                ch.n_1c_prog_on = true;
                ch.n_4_samplestart = 0x43c + 0x400 * nb[4] as u32;
                ch.prog_ins = prog_ins;
                ch.n_12_volume = sample_byte(&module.samples, prog_ins, 0x3c0) & 0x7f;
                ch.n_a_loopstart = 32 * sample_byte(&module.samples, prog_ins, 0x380) as u32;
                ch.n_13_volume = instrument.volume;
                ch.n_8_dataloopstart = nb[5];
                ch.n_9_dataloopend = nb[6];
                ch.n_8_length = nb[5] as u16 * 256 + nb[6] as u16;
                ch.n_e_replen = 0x10;
            } else {
                ch.n_8_length = instrument.size;
                ch.n_13_volume = instrument.volume;
                ch.n_12_volume = 0x40;
                if instrument.repeat != 0 {
                    ch.n_a_loopstart = instrument.repeat as u32;
                    ch.n_8_length = instrument.repeat.wrapping_add(instrument.replen);
                    ch.n_e_replen = instrument.replen;
                } else {
                    ch.n_e_replen = instrument.replen;
                }
            }
        }
        ch
    }

    /// The channel's note and command, its event just read: a note that
    /// sounds starts, or with tone portamento is aimed at (and the row's
    /// command then runs twice); then the row's command.
    #[verifier::rlimit(40)]
    fn l505_l_setregs(&mut self, chn: usize, cmds: &mut Vec<MixerCmd>)
        requires
            chn < 4,
            hmn_wf(*old(self)),
        ensures
            hmn_wf(*final(self)),
            *final(self) == hmn_setregs(*old(self), chn as int),
            final(cmds)@ == old(cmds)@ + hmn_setregs_cmds(*old(self), chn as int),
    {
        let ch = self.voice[chn];
        let ghost c1 = ch;
        let ghost mid_cmds = cmds@;
        if ch.n_0_note & 0xfff != 0 && ch.n_8_length != 0 {
            let cmd = ch.n_2_cmd & 0xf;
            if cmd == 5 || cmd == 3 {
                self.setmyport(chn);
                self.l577_2_checkcom2(chn, cmds);
                let ghost m3 = *self;
                assert(m3.voice@[chn as int] == hmn_row_channel(hmn_note_channel(c1)));
                self.l577_2_checkcom2(chn, cmds);
                assert(self.voice@ =~= old(self).voice@.update(chn as int,
                    hmn_row_channel(hmn_row_channel(hmn_note_channel(c1)))));
                assert(cmds@ =~= old(cmds)@ + hmn_row_cmds(hmn_note_channel(c1), old(self).l695_counter, chn)
                    + hmn_row_cmds(hmn_row_channel(hmn_note_channel(c1)), old(self).l695_counter, chn));
                proof {
                    lemma_hmn_porta_apply(*old(self), hmn_note_channel(c1), chn as int, *self);
                }
                return;
            } else {
                let mut c = self.voice[chn];
                let n = c.n_0_note;
                assert(n & 0xfff <= 0xfff) by (bit_vector);
                c.n_10_period = (n & 0xfff) as i16;
                c.n_1b_vibpos = 0;
                c.n_1d_prog_datacou = 0;
                self.voice[chn] = c;
                cmds.push(MixerCmd::SetSamplePtr(chn, c.n_4_samplestart));
                cmds.push(MixerCmd::SetLoopStart(chn, c.n_a_loopstart));
                cmds.push(MixerCmd::SetLoopEnd(chn, c.n_a_loopstart + c.n_e_replen as u32 * 2));
                cmds.push(MixerCmd::EnableLoop(chn, c.n_e_replen > 1));
                let period = c.n_10_period & 0xfff;
                self.percalc(chn, period, cmds);
                assert(cmds@ =~= mid_cmds + hmn_note_cmds(hmn_note_channel(c1), chn));
                assert(self.voice@ =~= old(self).voice@.update(chn as int, hmn_note_channel(c1)));
            }
        } else {
            assert(cmds@ =~= mid_cmds + Seq::<MixerCmd>::empty());
            assert(self.voice@ =~= old(self).voice@.update(chn as int, hmn_note_channel(c1)));
        }
        self.l577_2_checkcom2(chn, cmds);
        assert(cmds@ =~= old(cmds)@ + (if hmn_note_sounds(c1) { hmn_note_cmds(hmn_note_channel(c1), chn) } else { seq![] })
            + hmn_row_cmds(hmn_note_channel(c1), old(self).l695_counter, chn));
        assert(self.voice@ =~= old(self).voice@.update(chn as int, hmn_row_channel(hmn_note_channel(c1))));
        proof {
            lemma_hmn_row_apply(*old(self), hmn_note_channel(c1), chn as int, *self);
        }
    }

    /// Plays the event of channel `chn` in the current row of pattern
    /// `pat`: its instrument (see `hmn_take_event`), then its note and
    /// command (see `l505_l_setregs`).
    fn s505_j_playvoice(&mut self, pat: usize, chn: usize, module: &ModData, cmds: &mut Vec<MixerCmd>)
        requires
            chn < 4,
            pat < 256,
            hmn_wf(*old(self)),
        ensures
            hmn_wf(*final(self)),
            *final(self) == hmn_voice(*old(self), pat as int, chn as int, *module),
            final(cmds)@ == old(cmds)@ + hmn_voice_cmds(*old(self), pat as int, chn as int, *module),
    {
        let event = module.patterns.event_or_empty(pat, self.l692_pattpos as usize, chn);
        let ch = self.take_event(self.voice[chn], event, module);
        self.voice[chn] = ch;
        proof {
            let p1 = HmnPlayer { voice: hmn_voices_with(old(self).voice, chn as int,
                hmn_taken(*old(self), pat as int, chn as int, *module)), ..*old(self) };
            assert(self.voice =~= p1.voice);
            assert(forall|c: int| 0 <= c < 4 ==> hmn_channel_wf(#[trigger] self.voice@[c]));
        }
        self.l505_l_setregs(chn, cmds);
    }

    /// To row 0 of the next position (see `hmn_next_pos`), no break
    /// pending.
    fn next_position(&mut self, module: &ModData)
        ensures
            *final(self) == (HmnPlayer {
                l692_pattpos: 0,
                l681_break: false,
                l693_songpos: hmn_next_pos(old(self).l693_songpos, *module),
                ..*old(self)
            }),
    {
        self.l692_pattpos = 0;
        self.l681_break = false;
        self.l693_songpos = self.l693_songpos.wrapping_add(1);
        self.l693_songpos = self.l693_songpos & 0x7f;
        if self.l693_songpos >= module.song_length {
            self.l693_songpos = module.restart;
        }
    }

    /// The four channels play their events in the current row of pattern
    /// `pat`, in order.
    fn play_voices(&mut self, pat: usize, module: &ModData, cmds: &mut Vec<MixerCmd>)
        requires
            hmn_wf(*old(self)),
            pat < 256,
        ensures
            hmn_wf(*final(self)),
            *final(self) == hmn_voices(*old(self), pat as int, *module, 4),
            final(cmds)@ == old(cmds)@ + hmn_voices_cmds(*old(self), pat as int, *module, 4),
            final(self).l692_pattpos == old(self).l692_pattpos,
            final(self).options == old(self).options,
            final(self).l698_samplestarts == old(self).l698_samplestarts,
            old(self).l695_counter == 0 ==> final(self).l695_counter == 0,
    {
        let mut chn: usize = 0;
        while chn < 4
            invariant
                chn <= 4,
                pat < 256,
                hmn_wf(*self),
                *self == hmn_voices(*old(self), pat as int, *module, chn as int),
                cmds@ == old(cmds)@ + hmn_voices_cmds(*old(self), pat as int, *module, chn as int),
                self.l692_pattpos == old(self).l692_pattpos,
                self.options == old(self).options,
                self.l698_samplestarts == old(self).l698_samplestarts,
                old(self).l695_counter == 0 ==> self.l695_counter == 0,
            decreases 4 - chn,
        {
            self.s505_j_playvoice(pat, chn, module, cmds);
            assert(cmds@ =~= old(cmds)@ + hmn_voices_cmds(*old(self), pat as int, *module, chn as int + 1));
            chn = chn + 1;
        }
    }

    /// The program steps and loops of the four channels, in order.
    fn finish_voices(&mut self, module: &ModData, cmds: &mut Vec<MixerCmd>)
        requires
            hmn_wf(*old(self)),
        ensures
            hmn_wf(*final(self)),
            hmn_seq_same(*final(self), *old(self)),
            final(self).voice =~= hmn_progs(old(self).voice, module.samples@),
            final(cmds)@ == old(cmds)@ + hmn_finish_all_cmds(old(self).voice@, module.samples@, 4),
            final(self).l692_pattpos == old(self).l692_pattpos,
            final(self).options == old(self).options,
            final(self).l698_samplestarts == old(self).l698_samplestarts,
            old(self).l695_counter == 0 ==> final(self).l695_counter == 0,
    {
        let ghost q = *self;
        let ghost mid_cmds = cmds@;
        let mut chn: usize = 0;
        while chn < 4
            invariant
                chn <= 4,
                hmn_wf(*self),
                hmn_wf(q),
                q == *old(self),
                mid_cmds == old(cmds)@,
                hmn_seq_same(*self, q),
                forall|c: int| 0 <= c < chn ==> #[trigger] self.voice@[c] == hmn_prog(q.voice@[c], module.samples@),
                forall|c: int| chn <= c < 4 ==> #[trigger] self.voice@[c] == q.voice@[c],
                cmds@ == mid_cmds + hmn_finish_all_cmds(q.voice@, module.samples@, chn as int),
                self.l692_pattpos == old(self).l692_pattpos,
                self.options == old(self).options,
                self.l698_samplestarts == old(self).l698_samplestarts,
                old(self).l695_counter == 0 ==> self.l695_counter == 0,
            decreases 4 - chn,
        {
            self.prog_handler(chn, module, cmds);
            let ch = self.voice[chn];
            cmds.push(MixerCmd::SetLoopStart(chn, ch.n_a_loopstart));
            cmds.push(MixerCmd::SetLoopEnd(chn, ch.n_a_loopstart + ch.n_e_replen as u32 * 2));
            assert(cmds@ =~= mid_cmds + hmn_finish_all_cmds(q.voice@, module.samples@, chn as int + 1));
            chn = chn + 1;
        }
        assert(self.voice =~= hmn_progs(q.voice, module.samples@));
    }

    /// A new row: the four channels play their events of the pattern at the
    /// song position, then their program steps and loops; the row advances,
    /// to the next position past row 63 or on a break. Nothing is played
    /// beyond the 128 positions.
    fn l505_f_getnew(&mut self, module: &ModData, cmds: &mut Vec<MixerCmd>)
        requires
            hmn_wf(*old(self)),
        ensures
            old(self).l693_songpos >= 128 ==> *final(self) == *old(self) && final(cmds)@ == old(cmds)@,
            old(self).l693_songpos < 128 ==> {
                &&& hmn_wf(*final(self))
                &&& *final(self) == hmn_getnew(*old(self), *module)
                &&& final(cmds)@ == old(cmds)@ + hmn_getnew_cmds(*old(self), *module)
                &&& final(self).options == old(self).options
                &&& final(self).l698_samplestarts == old(self).l698_samplestarts
                &&& old(self).l695_counter == 0 ==> final(self).l695_counter == 0
                &&& final(self).l692_pattpos == 0 || final(self).l692_pattpos == old(self).l692_pattpos + 1
                &&& !final(self).l681_break
            },
    {
        let pat = match module.pattern_in_position(self.l693_songpos as usize) {
            Some(val) => val,
            None => return,
        };
        self.play_voices(pat, module, cmds);
        self.finish_voices(module, cmds);
        self.l692_pattpos = self.l692_pattpos + 1;
        if self.l692_pattpos == 64 {
            self.next_position(module);
        }
        if self.l681_break {
            self.next_position(module);
        }
    }

    /// One tick: see `hmn_tick`.
    fn l505_2_music(&mut self, module: &ModData, cmds: &mut Vec<MixerCmd>)
        requires
            hmn_wf(*old(self)),
        ensures
            hmn_tick(*old(self), *final(self), *module, old(cmds)@, final(cmds)@),
    {
        self.l695_counter = self.l695_counter + 1;
        if self.l642_speed > self.l695_counter {
            let ghost s0 = self.voice@;
            let mut chn: usize = 0;
            while chn < 4
                invariant
                    chn <= 4,
                    s0 == old(self).voice@,
                    hmn_seq_same(*self, HmnPlayer { l695_counter: (old(self).l695_counter + 1) as u8, ..*old(self) }),
                    self.l695_counter < old(self).l642_speed,
                    forall|c: int| 0 <= c < chn ==> #[trigger] self.voice@[c] == hmn_prog(hmn_checkcom(s0[c]), module.samples@),
                    forall|c: int| chn <= c < 4 ==> #[trigger] self.voice@[c] == s0[c],
                    forall|c: int| 0 <= c < 4 ==> hmn_channel_wf(#[trigger] s0[c]),
                    cmds@ == old(cmds)@ + hmn_tick_cmds(s0, self.l695_counter, module.samples@, chn as int),
                decreases 4 - chn,
            {
                self.l577_2_checkcom(chn, cmds);
                self.prog_handler(chn, module, cmds);
                let ch = self.voice[chn];
                assert(hmn_channel_wf(ch)) by {
                    assert(hmn_channel_wf(s0[chn as int]));
                }
                cmds.push(MixerCmd::SetLoopStart(chn, ch.n_a_loopstart));
                cmds.push(MixerCmd::SetLoopEnd(chn, ch.n_a_loopstart + ch.n_e_replen as u32 * 2));
                assert(cmds@ =~= old(cmds)@ + hmn_tick_cmds(s0, self.l695_counter, module.samples@, chn as int + 1));
                chn = chn + 1;
            }
            return;
        }
        self.l695_counter = 0;
        self.l505_f_getnew(module, cmds);
    }

    /// A replayer at the start of the song: speed 6, silent channels, no
    /// sample addresses yet.
    pub fn new(options: Options) -> (r: Self)
        ensures
            hmn_wf(r),
            r.options == options,
            r.l642_speed == 6 && r.l693_songpos == 0 && r.l692_pattpos == 0 && r.l695_counter == 0,
            !r.l681_break,
            forall|i: int| 0 <= i < 31 ==> r.l698_samplestarts@[i] == 0,
            forall|c: int| 0 <= c < 4 ==> #[trigger] r.voice@[c] == hmn_silent_channel(),
    {
        let c = ChannelData::new();
        HmnPlayer {
            options,
            l695_counter: 0,
            l642_speed: 6,
            l693_songpos: 0,
            l692_pattpos: 0,
            l698_samplestarts: [0; 31],
            l681_break: false,
            voice: [c, c, c, c],
        }
    }

    /// Prepares the replay of `module`: the sample addresses taken, speed 6
    /// and tempo 125 reported, the channels panned left, right, right, left
    /// by 70 percent, and Amiga emulation switched on.
    pub fn start(&mut self, data: &mut PlayerData, module: &ModData, cmds: &mut Vec<MixerCmd>)
        requires
            module.samples@.len() >= 31,
        ensures
            *final(self) == (HmnPlayer { l698_samplestarts: final(self).l698_samplestarts, ..*old(self) }),
            forall|i: int| 0 <= i < 31 ==> #[trigger] final(self).l698_samplestarts@[i] == module.samples@[i].address,
            *final(data) == (PlayerData { speed: 6, tempo: 125, ..*old(data) }),
            final(cmds)@ == old(cmds)@ + seq![
                MixerCmd::SetPan(0, -89isize), MixerCmd::SetPan(1, 88isize), MixerCmd::SetPan(2, 88isize),
                MixerCmd::SetPan(3, -89isize), MixerCmd::EnablePaula(true),
            ],
    {
        let mut i: usize = 0;
        while i < 31
            invariant
                i <= 31,
                module.samples@.len() >= 31,
                *self == (HmnPlayer { l698_samplestarts: self.l698_samplestarts, ..*old(self) }),
                forall|j: int| 0 <= j < i ==> #[trigger] self.l698_samplestarts@[j] == module.samples@[j].address,
            decreases 31 - i,
        {
            self.l698_samplestarts[i] = module.samples[i].address;
            i = i + 1;
        }
        data.speed = 6;
        data.tempo = 125;
        let pan: isize = match self.options.option_int("pan") {
            Some(val) => val,
            None => 70,
        };
        let panl = -128 * pan / 100;
        let panr = 127 * pan / 100;
        let ghost pre = cmds@;
        cmds.push(MixerCmd::SetPan(0, panl));
        cmds.push(MixerCmd::SetPan(1, panr));
        cmds.push(MixerCmd::SetPan(2, panr));
        cmds.push(MixerCmd::SetPan(3, panl));
        cmds.push(MixerCmd::EnablePaula(true));
        assert(cmds@ =~= pre + seq![
            MixerCmd::SetPan(0, -89isize), MixerCmd::SetPan(1, 88isize), MixerCmd::SetPan(2, 88isize),
            MixerCmd::SetPan(3, -89isize), MixerCmd::EnablePaula(true),
        ]);
    }

    /// Plays one tick (see `hmn_tick`) and reports the tick, row, position
    /// and speed.
    pub fn play(&mut self, data: &mut PlayerData, module: &ModData, cmds: &mut Vec<MixerCmd>)
        requires
            hmn_wf(*old(self)),
        ensures
            hmn_tick(*old(self), *final(self), *module, old(cmds)@, final(cmds)@),
            *final(data) == (PlayerData {
                frame: final(self).l695_counter as usize,
                row: final(self).l692_pattpos as usize,
                pos: final(self).l693_songpos as usize,
                speed: final(self).l642_speed as usize,
                ..*old(data)
            }),
    {
        self.l505_2_music(module, cmds);
        data.frame = self.l695_counter as usize;
        data.row = self.l692_pattpos as usize;
        data.pos = self.l693_songpos as usize;
        data.speed = self.l642_speed as usize;
    }

    /// Back to the start of the song at speed 6; the channels stay.
    pub fn reset(&mut self)
        ensures
            *final(self) == (HmnPlayer {
                l642_speed: 6,
                l695_counter: 0,
                l693_songpos: 0,
                l681_break: false,
                l692_pattpos: 0,
                ..*old(self)
            }),
    {
        self.l642_speed = 6;
        self.l695_counter = 0;
        self.l693_songpos = 0;
        self.l681_break = false;
        self.l692_pattpos = 0;
    }
}

/// Byte `i` of the data of sample `k`; 0 where there is none.
fn sample_byte(samples: &Vec<Sample>, k: usize, i: usize) -> (r: u8)
    ensures
        r == hmn_byte(samples@, k as int, i as int),
{
    if k < samples.len() && i < samples[k].data.len() {
        samples[k].data.index(i)
    } else {
        0
    }
}

/// `p` is a replayer just started for `module`: speed 6, at the start of
/// the song, silent channels, the sample addresses taken.
pub open spec fn hmn_started(p: HmnPlayer, module: ModData) -> bool {
    &&& p.l642_speed == 6 && p.l693_songpos == 0 && p.l692_pattpos == 0 && p.l695_counter == 0
    &&& !p.l681_break
    &&& forall|c: int| 0 <= c < 4 ==> #[trigger] p.voice@[c] == hmn_silent_channel()
    &&& forall|i: int| 0 <= i < 31 ==> #[trigger] p.l698_samplestarts@[i] == module.samples@[i].address
}

/// The tick count, speed, row and position of a tick from `a` to `b`.
pub open spec fn hmn_tick_counts(a: HmnPlayer, b: HmnPlayer) -> bool {
    &&& a.l695_counter + 1 < a.l642_speed ==> {
        &&& b.l695_counter == a.l695_counter + 1
        &&& b.l642_speed == a.l642_speed
        &&& b.l692_pattpos == a.l692_pattpos && b.l693_songpos == a.l693_songpos
    }
    &&& a.l695_counter + 1 >= a.l642_speed ==> b.l695_counter == 0
}

/// `s` is at tick `k` of the row, position and speed of `s0`.
pub open spec fn hmn_counts_from(s: HmnPlayer, s0: HmnPlayer, k: int) -> bool {
    &&& s.l695_counter == k
    &&& s.l642_speed == s0.l642_speed
    &&& s.l692_pattpos == s0.l692_pattpos
    &&& s.l693_songpos == s0.l693_songpos
}

proof fn lemma_hmn_tick_counts(a: HmnPlayer, b: HmnPlayer, module: ModData, before: Seq<MixerCmd>, after: Seq<MixerCmd>)
    requires
        hmn_tick(a, b, module, before, after),
    ensures
        hmn_tick_counts(a, b),
{
}

proof fn lemma_hmn_counts(states: Seq<HmnPlayer>)
    requires
        states.len() >= 1,
        states[0].l695_counter == 0,
        states.len() - 1 <= states[0].l642_speed,
        forall|k: int| 0 <= k < states.len() - 1 ==> #[trigger] hmn_tick_counts(states[k], states[k + 1]),
    ensures
        forall|k: int| 0 <= k < states.len() && k < states[0].l642_speed ==> #[trigger] hmn_counts_from(states[k], states[0], k),
        states.len() - 1 == states[0].l642_speed && states[0].l642_speed > 0 ==> states[states.len() - 1].l695_counter == 0,
    decreases states.len(),
{
    if states.len() > 1 {
        let prefix = states.drop_last();
        assert forall|k: int| 0 <= k < prefix.len() - 1 implies #[trigger] hmn_tick_counts(prefix[k], prefix[k + 1]) by {
            assert(hmn_tick_counts(states[k], states[k + 1]));
        }
        lemma_hmn_counts(prefix);
        let k: int = states.len() - 2;
        assert(hmn_tick_counts(states[k], states[k + 1]));
        assert(prefix[k] == states[k] && prefix[0] == states[0]);
        assert(hmn_counts_from(prefix[k], prefix[0], k));
        assert forall|j: int| 0 <= j < states.len() && j < states[0].l642_speed implies
            #[trigger] hmn_counts_from(states[j], states[0], j) by {
            if j < prefix.len() {
                assert(prefix[j] == states[j]);
                assert(hmn_counts_from(prefix[j], prefix[0], j));
            }
        }
    }
}

/// Every row lasts as many ticks as the speed: from the first tick of a
/// row at speed `s`, each of the next `s - 1` ticks advances the tick count
/// and keeps the speed, the row and the position, and the tick after them
/// starts the next row.
pub proof fn lemma_hmn_row_lasts_speed_ticks(states: Seq<HmnPlayer>, cmds: Seq<Seq<MixerCmd>>, module: ModData)
    requires
        states.len() >= 1,
        cmds.len() == states.len(),
        states[0].l695_counter == 0,
        states.len() - 1 <= states[0].l642_speed,
        forall|k: int| 0 <= k < states.len() - 1 ==> #[trigger] hmn_tick(states[k], states[k + 1], module, cmds[k], cmds[k + 1]),
    ensures
        forall|k: int| 0 <= k < states.len() && k < states[0].l642_speed ==> #[trigger] hmn_counts_from(states[k], states[0], k),
        states.len() - 1 == states[0].l642_speed && states[0].l642_speed > 0 ==> states[states.len() - 1].l695_counter == 0,
{
    assert forall|k: int| 0 <= k < states.len() - 1 implies #[trigger] hmn_tick_counts(states[k], states[k + 1]) by {
        lemma_hmn_tick_counts(states[k], states[k + 1], module, cmds[k], cmds[k + 1]);
    }
    lemma_hmn_counts(states);
}

} // verus!
