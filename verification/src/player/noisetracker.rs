//! The Noisetracker 1.1 replayer, after the play routine of Mahoney and
//! Kaktus (1989).
//!
//! The replayer works on its sequencer state and on four channels; what it
//! asks of the mixer it appends to a list of commands.

use vstd::prelude::*;
use crate::format::mk::{ModData, ModEvent, ModInstrument, event_ins, event_or_empty};
use crate::player::{MixerCmd, PlayerData};
use crate::player::options::Options;
use crate::player::protracker::{vibrato_table, mt_vibrato_value, slide_up_volume, slide_down_volume};

verus! {

/// The Noisetracker period table: three octaves and two trailing zeros.
pub open spec fn nt_period_table() -> Seq<i16> {
    seq![
        0x0358i16, 0x0328, 0x02fa, 0x02d0, 0x02a6, 0x0280, 0x025c, 0x023a, 0x021a, 0x01fc, 0x01e0,
        0x01c5, 0x01ac, 0x0194, 0x017d, 0x0168, 0x0153, 0x0140, 0x012e, 0x011d, 0x010d, 0x00fe,
        0x00f0, 0x00e2, 0x00d6, 0x00ca, 0x00be, 0x00b4, 0x00aa, 0x00a0, 0x0097, 0x008f, 0x0087,
        0x007f, 0x0078, 0x0071, 0x0000, 0x0000,
    ]
}

/// Entry `i` of the period table; 0 past its end.
pub open spec fn nt_period_at(i: int) -> i16 {
    if 0 <= i < 38 { nt_period_table()[i] } else { 0 }
}

fn nt_period(i: usize) -> (r: i16)
    ensures
        r == nt_period_at(i as int),
{
    let t: [i16; 38] = [
        0x0358, 0x0328, 0x02fa, 0x02d0, 0x02a6, 0x0280, 0x025c, 0x023a, 0x021a, 0x01fc, 0x01e0,
        0x01c5, 0x01ac, 0x0194, 0x017d, 0x0168, 0x0153, 0x0140, 0x012e, 0x011d, 0x010d, 0x00fe,
        0x00f0, 0x00e2, 0x00d6, 0x00ca, 0x00be, 0x00b4, 0x00aa, 0x00a0, 0x0097, 0x008f, 0x0087,
        0x007f, 0x0078, 0x0071, 0x0000, 0x0000,
    ];
    assert(t@ =~= nt_period_table());
    if i < 38 {
        t[i]
    } else {
        0
    }
}

/// The state of a channel, named after its offset in the replayer's
/// channel record.
#[derive(Clone, Copy, Debug)]
pub struct ChannelData {
    pub n_0_note: u16,
    pub n_2_cmd: u8,
    pub n_3_cmdlo: u8,
    pub n_8_length: u16,
    pub n_a_loopstart: u32,
    pub n_e_replen: u16,
    pub n_10_period: i16,
    pub n_12_volume: u8,
    pub n_16_portdir: bool,
    pub n_17_toneportspd: u8,
    pub n_18_wantperiod: i16,
    pub n_1a_vibrato: u8,
    pub n_1b_vibpos: u8,
}

/// A silent channel: every value zero.
pub open spec fn nt_silent_channel() -> ChannelData {
    ChannelData {
        n_0_note: 0,
        n_2_cmd: 0,
        n_3_cmdlo: 0,
        n_8_length: 0,
        n_a_loopstart: 0,
        n_e_replen: 0,
        n_10_period: 0,
        n_12_volume: 0,
        n_16_portdir: false,
        n_17_toneportspd: 0,
        n_18_wantperiod: 0,
        n_1a_vibrato: 0,
        n_1b_vibpos: 0,
    }
}

impl ChannelData {
    /// A silent channel: every value zero.
    pub fn new() -> (r: Self)
        ensures
            r == nt_silent_channel(),
    {
        ChannelData {
            n_0_note: 0,
            n_2_cmd: 0,
            n_3_cmdlo: 0,
            n_8_length: 0,
            n_a_loopstart: 0,
            n_e_replen: 0,
            n_10_period: 0,
            n_12_volume: 0,
            n_16_portdir: false,
            n_17_toneportspd: 0,
            n_18_wantperiod: 0,
            n_1a_vibrato: 0,
            n_1b_vibpos: 0,
        }
    }
}

/// The loop start a channel keeps comes from a 16-bit repeat.
pub open spec fn nt_channel_wf(ch: ChannelData) -> bool {
    ch.n_a_loopstart <= 0xffff
}

/// The Noisetracker replayer: the sequencer and the four channels.
pub struct ModPlayer {
    pub state: [ChannelData; 4],
    pub options: Options,
    pub mt_speed: u8,
    pub mt_songpos: u8,
    pub mt_pattpos: u8,
    pub mt_counter: u8,
    pub mt_break: bool,
}

/// What the replayer keeps between ticks: a speed below 32 and well formed
/// channels.
pub open spec fn nt_wf(p: ModPlayer) -> bool {
    &&& p.mt_speed < 32
    &&& forall|c: int| 0 <= c < 4 ==> nt_channel_wf(#[trigger] p.state@[c])
}

/// Everything but the channels is the same in `a` and `b`.
pub open spec fn nt_seq_same(a: ModPlayer, b: ModPlayer) -> bool {
    &&& a.options == b.options
    &&& a.mt_speed == b.mt_speed
    &&& a.mt_songpos == b.mt_songpos
    &&& a.mt_pattpos == b.mt_pattpos
    &&& a.mt_counter == b.mt_counter
    &&& a.mt_break == b.mt_break
}

/// The arpeggio step of tick `counter`: none on ticks 0, 3, 6...; the high
/// nibble of the parameter on ticks 1, 4...; the low nibble on ticks 2,
/// 5...
pub open spec fn nt_arp_step(cmdlo: u8, counter: u8) -> int {
    if counter % 3 == 2 {
        (cmdlo & 15) as int
    } else if counter % 3 == 0 {
        0
    } else {
        (cmdlo >> 4) as int
    }
}

/// The first `i` from `j` below 36 at which `period` is at least the table
/// entry `i`; 36 if there is none.
pub open spec fn nt_arp_index(period: i16, j: int) -> int
    decreases 36 - j,
{
    if j >= 36 {
        36
    } else if period >= nt_period_at(j) {
        j
    } else {
        nt_arp_index(period, j + 1)
    }
}

/// The period with its high four bits kept and its low twelve bits set to
/// `low`.
pub open spec fn nt_with_low(p: i16, low: i16) -> i16 {
    (p & -4096i16) | low
}

/// Portamento up: the period lowered by the parameter, its low twelve
/// bits at least 0x71.
pub open spec fn nt_portup_period(ch: ChannelData) -> i16 {
    let p = ch.n_10_period.wrapping_sub(ch.n_3_cmdlo as i16);
    if p & 0xfff < 0x71 { nt_with_low(p, 0x71) } else { p }
}

/// Portamento down: the period raised by the parameter, its low twelve
/// bits below 0x358 or set to 0x358.
pub open spec fn nt_portdown_period(ch: ChannelData) -> i16 {
    let p = ch.n_10_period.wrapping_add(ch.n_3_cmdlo as i16);
    if p & 0xfff >= 0x358 { nt_with_low(p, 0x358) } else { p }
}

/// Tone portamento: a nonzero parameter becomes the speed (and is cleared);
/// the period slides toward the wanted one by the speed and stops there,
/// clearing the wanted period.
pub open spec fn nt_myport(ch: ChannelData) -> ChannelData {
    let spd = if ch.n_3_cmdlo != 0 { ch.n_3_cmdlo } else { ch.n_17_toneportspd };
    let c = ChannelData { n_17_toneportspd: spd, n_3_cmdlo: 0, ..ch };
    if c.n_18_wantperiod == 0 {
        c
    } else if c.n_16_portdir {
        let p = c.n_10_period.wrapping_add(spd as i16);
        if p > c.n_18_wantperiod {
            ChannelData { n_10_period: c.n_18_wantperiod, n_18_wantperiod: 0, ..c }
        } else {
            ChannelData { n_10_period: p, ..c }
        }
    } else {
        let p = c.n_10_period.wrapping_sub(spd as i16);
        if p < c.n_18_wantperiod {
            ChannelData { n_10_period: c.n_18_wantperiod, n_18_wantperiod: 0, ..c }
        } else {
            ChannelData { n_10_period: p, ..c }
        }
    }
}

/// The depth of a vibrato with command `vib` at position `pos`: the sine
/// at the position times the low nibble, over 64.
pub open spec fn nt_vib_amount(vib: u8, pos: u8) -> i16 {
    ((vibrato_table()[((pos >> 2) & 0x1f) as int] as int * (vib & 0xf) as int) / 64) as i16
}

/// The period a vibrato with a nonzero parameter plays: up in the first
/// half of the wave, down in the second.
pub open spec fn nt_vib_period(ch: ChannelData) -> i16 {
    let amt = nt_vib_amount(ch.n_3_cmdlo, ch.n_1b_vibpos);
    if ch.n_1b_vibpos & 0x80 == 0 {
        ch.n_10_period.wrapping_add(amt)
    } else {
        ch.n_10_period.wrapping_sub(amt)
    }
}

/// The channel after a vibrato tick: a nonzero parameter becomes the
/// vibrato command and moves the position by its speed.
pub open spec fn nt_vib(ch: ChannelData) -> ChannelData {
    if ch.n_3_cmdlo != 0 {
        ChannelData {
            n_1a_vibrato: ch.n_3_cmdlo,
            n_1b_vibpos: ch.n_1b_vibpos.wrapping_add((ch.n_3_cmdlo >> 2) & 0x3c),
            ..ch
        }
    } else {
        ch
    }
}

/// The volume after a volume slide: down by the low nibble where the high
/// one is zero, else up by the high nibble.
pub open spec fn nt_volslide_volume(v: u8, cmdlo: u8) -> u8 {
    if cmdlo >> 4 == 0 { slide_down_volume(v, cmdlo & 0x0f) } else { slide_up_volume(v, cmdlo >> 4) }
}

/// The channel after a tick without a new row.
pub open spec fn nt_checkcom(ch: ChannelData) -> ChannelData {
    let cmd = ch.n_2_cmd & 0xf;
    if cmd == 0x1 {
        ChannelData { n_10_period: nt_portup_period(ch), ..ch }
    } else if cmd == 0x2 {
        ChannelData { n_10_period: nt_portdown_period(ch), ..ch }
    } else if cmd == 0x3 {
        nt_myport(ch)
    } else if cmd == 0x4 {
        nt_vib(ch)
    } else if cmd == 0xa {
        ChannelData { n_12_volume: nt_volslide_volume(ch.n_12_volume, ch.n_3_cmdlo), ..ch }
    } else {
        ch
    }
}

/// The commands of a tick without a new row for channel `chn`, at tick
/// `counter`.
pub open spec fn nt_checkcom_cmds(ch: ChannelData, counter: u8, chn: usize) -> Seq<MixerCmd> {
    let cmd = ch.n_2_cmd & 0xf;
    if cmd == 0x0 {
        let i = nt_arp_index(ch.n_10_period, 0);
        if i < 36 {
            seq![MixerCmd::SetPeriod(chn, nt_period_at(i + nt_arp_step(ch.n_3_cmdlo, counter)) as i32)]
        } else {
            seq![]
        }
    } else if cmd == 0x1 {
        seq![MixerCmd::SetPeriod(chn, (nt_portup_period(ch) & 0xfff) as i32)]
    } else if cmd == 0x2 {
        seq![MixerCmd::SetPeriod(chn, (nt_portdown_period(ch) & 0xfff) as i32)]
    } else if cmd == 0x3 {
        seq![MixerCmd::SetPeriod(chn, nt_myport(ch).n_10_period as i32)]
    } else if cmd == 0x4 {
        if ch.n_3_cmdlo != 0 { seq![MixerCmd::SetPeriod(chn, nt_vib_period(ch) as i32)] } else { seq![] }
    } else if cmd == 0xa {
        seq![
            MixerCmd::SetPeriod(chn, ch.n_10_period as i32),
            MixerCmd::SetVolume(chn, (nt_volslide_volume(ch.n_12_volume, ch.n_3_cmdlo) * 16) as usize),
        ]
    } else {
        seq![MixerCmd::SetPeriod(chn, ch.n_10_period as i32)]
    }
}

/// The parameter a new row's command leaves: a volume above 64 becomes
/// 64, a speed above 31 becomes 31.
pub open spec fn nt_row_cmdlo(ch: ChannelData) -> u8 {
    let cmd = ch.n_2_cmd & 0xf;
    if cmd == 0xc && ch.n_3_cmdlo > 0x40 {
        0x40
    } else if cmd == 0xf && ch.n_3_cmdlo > 0x1f {
        0x1f
    } else {
        ch.n_3_cmdlo
    }
}

/// A pattern break or position jump toggles the break flag.
pub open spec fn nt_row_break(ch: ChannelData, brk: bool) -> bool {
    let cmd = ch.n_2_cmd & 0xf;
    if cmd == 0xd || cmd == 0xb { !brk } else { brk }
}

/// A position jump sets the position before the one in the parameter.
pub open spec fn nt_row_songpos(ch: ChannelData, songpos: u8) -> u8 {
    if ch.n_2_cmd & 0xf == 0xb { ch.n_3_cmdlo.wrapping_sub(1) } else { songpos }
}

/// A nonzero speed command sets the speed.
pub open spec fn nt_row_speed(ch: ChannelData, speed: u8) -> u8 {
    if ch.n_2_cmd & 0xf == 0xf && nt_row_cmdlo(ch) != 0 { nt_row_cmdlo(ch) } else { speed }
}

/// A nonzero speed command restarts the tick count.
pub open spec fn nt_row_counter(ch: ChannelData, counter: u8) -> u8 {
    if ch.n_2_cmd & 0xf == 0xf && nt_row_cmdlo(ch) != 0 { 0 } else { counter }
}

/// The commands of a new row's command: a volume command sets the volume.
pub open spec fn nt_row_cmds(ch: ChannelData, chn: usize) -> Seq<MixerCmd> {
    if ch.n_2_cmd & 0xf == 0xc { seq![MixerCmd::SetVolume(chn, (nt_row_cmdlo(ch) * 16) as usize)] } else { seq![] }
}

/// `b` is `a` with channel `chn` played as `ch` and its new row's command
/// carried out.
pub open spec fn nt_row_effect(a: ModPlayer, ch: ChannelData, chn: int, b: ModPlayer) -> bool {
    &&& b.state@ == a.state@.update(chn, ChannelData { n_3_cmdlo: nt_row_cmdlo(ch), ..ch })
    &&& b.mt_speed == nt_row_speed(ch, a.mt_speed)
    &&& b.mt_counter == nt_row_counter(ch, a.mt_counter)
    &&& b.mt_songpos == nt_row_songpos(ch, a.mt_songpos)
    &&& b.mt_break == nt_row_break(ch, a.mt_break)
    &&& b.mt_pattpos == a.mt_pattpos
    &&& b.options == a.options
}

/// The instrument an event names, if the module has it.
pub open spec fn nt_event_instrument(e: ModEvent, module: ModData) -> Option<ModInstrument> {
    let ins = event_ins(e) as int;
    if 0 < ins <= module.instruments@.len() { Some(module.instruments@[ins - 1]) } else { None }
}

/// The channel after reading event `e` with its instrument `inst`: the
/// note and command, then the instrument's volume, length and loop.
pub open spec fn nt_take_event(ch: ChannelData, e: ModEvent, inst: Option<ModInstrument>) -> ChannelData {
    let c = ChannelData { n_0_note: e.note, n_2_cmd: e.cmd, n_3_cmdlo: e.cmdlo, ..ch };
    match inst {
        None => c,
        Some(i) => if i.repeat != 0 {
            ChannelData {
                n_12_volume: i.volume,
                n_a_loopstart: i.repeat as u32,
                n_8_length: i.repeat.wrapping_add(i.replen),
                n_e_replen: i.replen,
                ..c
            }
        } else {
            ChannelData { n_12_volume: i.volume, n_8_length: i.size, n_e_replen: i.replen, ..c }
        },
    }
}

/// The commands of reading an event with instrument number `ins`, the
/// channel `c` as it is after: volume and loop switch, the sample, the loop
/// bounds.
pub open spec fn nt_take_cmds(chn: usize, c: ChannelData, inst: Option<ModInstrument>, ins: int) -> Seq<MixerCmd> {
    match inst {
        None => seq![],
        Some(i) => {
            let v = MixerCmd::SetVolume(chn, (c.n_12_volume * 16) as usize);
            (if i.repeat != 0 {
                seq![v, MixerCmd::EnableLoop(chn, true)]
            } else {
                seq![MixerCmd::EnableLoop(chn, false), v]
            }) + seq![
                MixerCmd::SetPatch(chn, (ins - 1) as usize, (ins - 1) as usize),
                MixerCmd::SetLoopStart(chn, (c.n_a_loopstart * 2) as u32),
                MixerCmd::SetLoopEnd(chn, ((c.n_a_loopstart + c.n_e_replen) * 2) as u32),
            ]
        },
    }
}

/// The low twelve bits of a word are at most 0xfff.
pub proof fn lemma_low12(n: u16)
    ensures
        n & 0xfff <= 0xfff,
{
    assert(n & 0xfff <= 0xfff) by (bit_vector);
}

/// A period of twelve bits is its own low part, and setting the low part
/// of it gives that low part.
pub proof fn lemma_period_bits(p: i16)
    ensures
        0 <= p < 0x1000 ==> p & 0xfff == p && nt_with_low(p, 0x71) == 0x71 && nt_with_low(p, 0x358) == 0x358,
{
    assert(0 <= p < 0x1000 ==> p & 0xfff == p && (p & -4096i16) | 0x71 == 0x71 && (p & -4096i16) | 0x358 == 0x358)
        by (bit_vector);
}

/// Portamento up raises the pitch: from a period of 0x71 to 0xfff and at
/// least the parameter it lowers the period by the parameter, to 0x71 at
/// least, and never raises it.
pub proof fn lemma_nt_portup_lowers(ch: ChannelData)
    requires
        0x71 <= ch.n_10_period < 0x1000,
    ensures
        ch.n_10_period - ch.n_3_cmdlo >= 0x71 ==> nt_portup_period(ch) == ch.n_10_period - ch.n_3_cmdlo,
        ch.n_10_period >= ch.n_3_cmdlo ==> 0x71 <= nt_portup_period(ch) <= ch.n_10_period,
{
    let q = (ch.n_10_period - ch.n_3_cmdlo) as i16;
    lemma_period_bits(q);
}

/// Portamento down lowers the pitch: from a period below 0x358 it raises
/// the period by the parameter, to 0x358 at most, and never lowers it.
pub proof fn lemma_nt_portdown_raises(ch: ChannelData)
    requires
        0 <= ch.n_10_period < 0x358,
    ensures
        ch.n_10_period + ch.n_3_cmdlo < 0x358 ==> nt_portdown_period(ch) == ch.n_10_period + ch.n_3_cmdlo,
        ch.n_10_period <= nt_portdown_period(ch) <= 0x358,
{
    let q = (ch.n_10_period + ch.n_3_cmdlo) as i16;
    lemma_period_bits(q);
}

/// The volume slide raises the volume by the parameter's high nibble
/// where it is not 0, else lowers it by the low nibble, within 0 to 64.
pub proof fn lemma_nt_volslide_direction(v: u8, cmdlo: u8)
    requires
        v <= 64,
    ensures
        cmdlo >> 4 != 0 ==> v <= nt_volslide_volume(v, cmdlo)
            && nt_volslide_volume(v, cmdlo) == (if v + (cmdlo >> 4) > 64 { 64 } else { v + (cmdlo >> 4) }),
        cmdlo >> 4 == 0 ==> nt_volslide_volume(v, cmdlo) <= v
            && nt_volslide_volume(v, cmdlo) == (if v > (cmdlo & 0x0f) { v - (cmdlo & 0x0f) } else { 0 }),
{
    crate::player::st3::lemma_nibbles(cmdlo);
}

/// Tone portamento moves toward the note, never past it: a note with
/// tone portamento sets the direction up exactly when the period lies
/// below the note's, and a tick of the portamento then moves the period
/// by at most the speed, toward the note's period, stopping there.
pub proof fn lemma_nt_tone_portamento_toward(ch: ChannelData)
    requires
        0 <= ch.n_10_period < 0x1000,
    ensures
        ({
            let want = (ch.n_0_note & 0xfff) as i16;
            let c = nt_setmyport(ch);
            let d = nt_myport(c);
            let spd = if ch.n_3_cmdlo != 0 { ch.n_3_cmdlo } else { ch.n_17_toneportspd };
            &&& want != ch.n_10_period ==> c.n_18_wantperiod == want && (c.n_16_portdir <==> ch.n_10_period < want)
            &&& ch.n_10_period < want ==> ch.n_10_period <= d.n_10_period <= want
                && d.n_10_period <= ch.n_10_period + spd
            &&& ch.n_10_period > want ==> want <= d.n_10_period <= ch.n_10_period
                && d.n_10_period >= ch.n_10_period - spd
        }),
{
    lemma_low12(ch.n_0_note);
}

/// A note with tone portamento aims at the note's period, in the direction
/// it lies; a note at the current period aims nowhere.
pub open spec fn nt_setmyport(ch: ChannelData) -> ChannelData {
    let want = (ch.n_0_note & 0xfff) as i16;
    if ch.n_10_period == want {
        ChannelData { n_18_wantperiod: 0, n_16_portdir: false, ..ch }
    } else {
        ChannelData { n_18_wantperiod: want, n_16_portdir: ch.n_10_period < want, ..ch }
    }
}

/// The channel after its note: tone portamento aims at it; any other
/// command starts it, its period set and the vibrato position cleared.
pub open spec fn nt_note_channel(ch: ChannelData) -> ChannelData {
    if ch.n_0_note & 0xfff == 0 {
        ch
    } else if ch.n_2_cmd & 0xf == 3 {
        nt_setmyport(ch)
    } else {
        ChannelData { n_10_period: (ch.n_0_note & 0xfff) as i16, n_1b_vibpos: 0, ..ch }
    }
}

/// The commands of a note started: the sample from its start, the period.
pub open spec fn nt_note_cmds(ch: ChannelData, chn: usize) -> Seq<MixerCmd> {
    if ch.n_0_note & 0xfff != 0 && ch.n_2_cmd & 0xf != 3 {
        seq![MixerCmd::SetVoicePos(chn, 0), MixerCmd::SetPeriod(chn, (ch.n_0_note & 0xfff) as i32)]
    } else {
        seq![]
    }
}

/// The position after `songpos`: the next of the 128, or the restart
/// position past the end of the song.
pub open spec fn nt_next_pos(songpos: u8, module: ModData) -> u8 {
    let p = songpos.wrapping_add(1) & 0x7f;
    if p >= module.song_length { module.restart } else { p }
}

/// The four channels `a` with channel `chn` replaced by `c`.
pub open spec fn nt_state_with(a: [ChannelData; 4], chn: int, c: ChannelData) -> [ChannelData; 4] {
    [
        if chn == 0 { c } else { a[0] },
        if chn == 1 { c } else { a[1] },
        if chn == 2 { c } else { a[2] },
        if chn == 3 { c } else { a[3] },
    ]
}

/// `a` with channel `chn` played as `ch` and its new row's command carried
/// out; see `nt_row_effect`.
pub open spec fn nt_row_apply(a: ModPlayer, ch: ChannelData, chn: int) -> ModPlayer {
    ModPlayer {
        state: nt_state_with(a.state, chn, ChannelData { n_3_cmdlo: nt_row_cmdlo(ch), ..ch }),
        mt_speed: nt_row_speed(ch, a.mt_speed),
        mt_counter: nt_row_counter(ch, a.mt_counter),
        mt_songpos: nt_row_songpos(ch, a.mt_songpos),
        mt_break: nt_row_break(ch, a.mt_break),
        ..a
    }
}

/// The event of channel `chn` in row `row` of pattern `pat`.
pub open spec fn nt_event(module: ModData, pat: int, row: int, chn: int) -> ModEvent {
    event_or_empty(module.patterns.events(), (pat * 64 + row) * module.patterns.spec_chn() + chn)
}

/// `p` after channel `chn` plays its event in the current row of pattern
/// `pat`.
pub open spec fn nt_voice(p: ModPlayer, pat: int, chn: int, module: ModData) -> ModPlayer {
    let e = nt_event(module, pat, p.mt_pattpos as int, chn);
    nt_row_apply(p, nt_note_channel(nt_take_event(p.state@[chn], e, nt_event_instrument(e, module))), chn)
}

/// The commands of channel `chn` playing its event in the current row of
/// pattern `pat`.
pub open spec fn nt_voice_cmds(p: ModPlayer, pat: int, chn: int, module: ModData) -> Seq<MixerCmd> {
    let e = nt_event(module, pat, p.mt_pattpos as int, chn);
    let inst = nt_event_instrument(e, module);
    let c1 = nt_take_event(p.state@[chn], e, inst);
    nt_take_cmds(chn as usize, c1, inst, event_ins(e) as int) + nt_note_cmds(c1, chn as usize)
        + nt_row_cmds(nt_note_channel(c1), chn as usize)
}

/// `p` after the first `n` channels play their events in the current row
/// of pattern `pat`, in channel order.
pub open spec fn nt_voices(p: ModPlayer, pat: int, module: ModData, n: int) -> ModPlayer
    decreases n,
{
    if n <= 0 { p } else { nt_voice(nt_voices(p, pat, module, n - 1), pat, n - 1, module) }
}

/// The commands of the first `n` channels playing their events, in channel
/// order.
pub open spec fn nt_voices_cmds(p: ModPlayer, pat: int, module: ModData, n: int) -> Seq<MixerCmd>
    decreases n,
{
    if n <= 0 {
        seq![]
    } else {
        nt_voices_cmds(p, pat, module, n - 1) + nt_voice_cmds(nt_voices(p, pat, module, n - 1), pat, n - 1, module)
    }
}

/// `p` after a new row at position `p.mt_songpos` (within the 128): the
/// four channels play their events of the pattern there, and the row
/// advances, past row 63 to the next position.
pub open spec fn nt_getnew(p: ModPlayer, module: ModData) -> ModPlayer {
    let q = nt_voices(p, module.orders@[p.mt_songpos as int] as int, module, 4);
    let r = ModPlayer { mt_pattpos: (q.mt_pattpos + 1) as u8, ..q };
    if r.mt_pattpos == 64 {
        ModPlayer { mt_pattpos: 0, mt_break: false, mt_songpos: nt_next_pos(r.mt_songpos, module), ..r }
    } else {
        r
    }
}

/// The commands of a new row; see `nt_getnew`.
pub open spec fn nt_getnew_cmds(p: ModPlayer, module: ModData) -> Seq<MixerCmd> {
    nt_voices_cmds(p, module.orders@[p.mt_songpos as int] as int, module, 4)
}

/// The commands of a tick without a new row for the first `n` channels,
/// in channel order.
pub open spec fn nt_tick_cmds(s: Seq<ChannelData>, counter: u8, n: int) -> Seq<MixerCmd>
    decreases n,
{
    if n <= 0 {
        seq![]
    } else {
        nt_tick_cmds(s, counter, n - 1) + nt_checkcom_cmds(s[n - 1], counter, (n - 1) as usize)
    }
}

/// One tick of the replay from `a` to `b`, the commands going from
/// `before` to `after`. Before the last tick of a row the tick count
/// advances, each channel runs its effect, and a pending break moves to the
/// next position. The last tick of a row starts the count again and, within
/// the 128 positions, reads the row and moves to the next one, past row 63
/// to the next position.
pub open spec fn nt_tick(a: ModPlayer, b: ModPlayer, module: ModData, before: Seq<MixerCmd>, after: Seq<MixerCmd>) -> bool {
    &&& nt_wf(b)
    &&& b.options == a.options
    &&& a.mt_counter + 1 < a.mt_speed ==> {
        &&& b.mt_counter == a.mt_counter + 1
        &&& b.mt_speed == a.mt_speed
        &&& forall|c: int| 0 <= c < 4 ==> #[trigger] b.state@[c] == nt_checkcom(a.state@[c])
        &&& after == before + nt_tick_cmds(a.state@, (a.mt_counter + 1) as u8, 4)
        &&& if a.mt_break {
            b.mt_pattpos == 0 && !b.mt_break && b.mt_songpos == nt_next_pos(a.mt_songpos, module)
        } else {
            b.mt_pattpos == a.mt_pattpos && b.mt_songpos == a.mt_songpos && b.mt_break == a.mt_break
        }
    }
    &&& a.mt_counter + 1 >= a.mt_speed ==> {
        &&& b.mt_counter == 0
        &&& a.mt_songpos >= 128 ==> {
            &&& b.mt_pattpos == a.mt_pattpos && b.mt_songpos == a.mt_songpos && b.mt_break == a.mt_break
            &&& b.mt_speed == a.mt_speed && b.state == a.state && after == before
        }
        &&& a.mt_songpos < 128 ==> {
            &&& b == nt_getnew(ModPlayer { mt_counter: 0, ..a }, module)
            &&& after == before + nt_getnew_cmds(ModPlayer { mt_counter: 0, ..a }, module)
            &&& b.mt_pattpos == (if a.mt_pattpos + 1 == 64 { 0 } else { a.mt_pattpos + 1 })
        }
    }
}

/// A row effect as `nt_row_effect` relates it is `nt_row_apply`.
proof fn lemma_nt_row_apply(a: ModPlayer, ch: ChannelData, chn: int, b: ModPlayer)
    requires
        0 <= chn < 4,
        nt_row_effect(a, ch, chn, b),
    ensures
        b == nt_row_apply(a, ch, chn),
{
    let w = nt_row_apply(a, ch, chn);
    assert(w.state@ =~= a.state@.update(chn, ChannelData { n_3_cmdlo: nt_row_cmdlo(ch), ..ch }));
    assert(b.state =~= w.state);
}

impl ModPlayer {
    /// Arpeggio: the period of the table entry the tick's step above the
    /// channel's place in the table.
    fn mt_arpeggio(&self, chn: usize, cmds: &mut Vec<MixerCmd>)
        requires
            chn < 4,
            self.state@[chn as int].n_2_cmd & 0xf == 0,
        ensures
            ({
                let ch = self.state@[chn as int];
                final(cmds)@ == old(cmds)@ + nt_checkcom_cmds(ch, self.mt_counter, chn)
            }),
    {
        let ch = self.state[chn];
        let lo = ch.n_3_cmdlo;
        assert(lo & 15 < 16 && lo >> 4 < 16) by (bit_vector);
        let c = self.mt_counter % 3;
        let val: usize = if c == 2 {
            (ch.n_3_cmdlo & 15) as usize
        } else if c == 0 {
            0
        } else {
            (ch.n_3_cmdlo >> 4) as usize
        };
        let ghost step = val as int;
        let mut i: usize = 0;
        while i < 36
            invariant
                i <= 36,
                val < 16,
                step == val,
                step == nt_arp_step(ch.n_3_cmdlo, self.mt_counter),
                chn < 4,
                ch == self.state@[chn as int],
                ch.n_2_cmd & 0xf == 0,
                nt_arp_index(ch.n_10_period, 0) == nt_arp_index(ch.n_10_period, i as int),
                cmds@ == old(cmds)@,
            decreases 36 - i,
        {
            if ch.n_10_period >= nt_period(i) {
                let p = nt_period(i + val);
                cmds.push(MixerCmd::SetPeriod(chn, p as i32));
                assert(cmds@ =~= old(cmds)@ + seq![MixerCmd::SetPeriod(chn, p as i32)]);
                return;
            }
            i = i + 1;
        }
        assert(cmds@ =~= old(cmds)@ + Seq::<MixerCmd>::empty());
    }

    /// Portamento up: the period lowered by the parameter down to a low
    /// part of 0x71, played with its high bits masked off.
    fn mt_portup(&mut self, chn: usize, cmds: &mut Vec<MixerCmd>)
        requires
            chn < 4,
            old(self).state@[chn as int].n_2_cmd & 0xf == 1,
        ensures
            final(self).state@ == old(self).state@.update(chn as int, nt_checkcom(old(self).state@[chn as int])),
            nt_seq_same(*final(self), *old(self)),
            final(cmds)@ == old(cmds)@ + nt_checkcom_cmds(old(self).state@[chn as int], old(self).mt_counter, chn),
    {
        let mut ch = self.state[chn];
        let mut p = ch.n_10_period.wrapping_sub(ch.n_3_cmdlo as i16);
        if p & 0xfff < 0x71 {
            p = (p & -4096i16) | 0x71;
        }
        ch.n_10_period = p;
        self.state[chn] = ch;
        cmds.push(MixerCmd::SetPeriod(chn, (p & 0xfff) as i32));
        assert(self.state@ =~= old(self).state@.update(chn as int, nt_checkcom(old(self).state@[chn as int])));
        assert(cmds@ =~= old(cmds)@ + nt_checkcom_cmds(old(self).state@[chn as int], old(self).mt_counter, chn));
    }

    /// Portamento down: the period raised by the parameter up to a low
    /// part of 0x358, played with its high bits masked off.
    fn mt_portdown(&mut self, chn: usize, cmds: &mut Vec<MixerCmd>)
        requires
            chn < 4,
            old(self).state@[chn as int].n_2_cmd & 0xf == 2,
        ensures
            final(self).state@ == old(self).state@.update(chn as int, nt_checkcom(old(self).state@[chn as int])),
            nt_seq_same(*final(self), *old(self)),
            final(cmds)@ == old(cmds)@ + nt_checkcom_cmds(old(self).state@[chn as int], old(self).mt_counter, chn),
    {
        let mut ch = self.state[chn];
        let mut p = ch.n_10_period.wrapping_add(ch.n_3_cmdlo as i16);
        if p & 0xfff >= 0x358 {
            p = (p & -4096i16) | 0x358;
        }
        ch.n_10_period = p;
        self.state[chn] = ch;
        cmds.push(MixerCmd::SetPeriod(chn, (p & 0xfff) as i32));
        assert(self.state@ =~= old(self).state@.update(chn as int, nt_checkcom(old(self).state@[chn as int])));
        assert(cmds@ =~= old(cmds)@ + nt_checkcom_cmds(old(self).state@[chn as int], old(self).mt_counter, chn));
    }

    /// Tone portamento (see `nt_myport`), the period played.
    fn mt_myport(&mut self, chn: usize, cmds: &mut Vec<MixerCmd>)
        requires
            chn < 4,
            old(self).state@[chn as int].n_2_cmd & 0xf == 3,
        ensures
            final(self).state@ == old(self).state@.update(chn as int, nt_checkcom(old(self).state@[chn as int])),
            nt_seq_same(*final(self), *old(self)),
            final(cmds)@ == old(cmds)@ + nt_checkcom_cmds(old(self).state@[chn as int], old(self).mt_counter, chn),
    {
        let mut ch = self.state[chn];
        if ch.n_3_cmdlo != 0 {
            ch.n_17_toneportspd = ch.n_3_cmdlo;
            ch.n_3_cmdlo = 0;
        }
        if ch.n_18_wantperiod != 0 {
            if ch.n_16_portdir {
                ch.n_10_period = ch.n_10_period.wrapping_add(ch.n_17_toneportspd as i16);
                if ch.n_10_period > ch.n_18_wantperiod {
                    ch.n_10_period = ch.n_18_wantperiod;
                    ch.n_18_wantperiod = 0;
                }
            } else {
                ch.n_10_period = ch.n_10_period.wrapping_sub(ch.n_17_toneportspd as i16);
                if ch.n_10_period < ch.n_18_wantperiod {
                    ch.n_10_period = ch.n_18_wantperiod;
                    ch.n_18_wantperiod = 0;
                }
            }
        }
        self.state[chn] = ch;
        cmds.push(MixerCmd::SetPeriod(chn, ch.n_10_period as i32));
        assert(self.state@ =~= old(self).state@.update(chn as int, nt_checkcom(old(self).state@[chn as int])));
        assert(cmds@ =~= old(cmds)@ + nt_checkcom_cmds(old(self).state@[chn as int], old(self).mt_counter, chn));
    }

    /// Vibrato: with a nonzero parameter, the period moved by the sine at
    /// the vibrato position is played and the position advances.
    fn mt_vib(&mut self, chn: usize, cmds: &mut Vec<MixerCmd>)
        requires
            chn < 4,
            old(self).state@[chn as int].n_2_cmd & 0xf == 4,
        ensures
            final(self).state@ == old(self).state@.update(chn as int, nt_checkcom(old(self).state@[chn as int])),
            nt_seq_same(*final(self), *old(self)),
            final(cmds)@ == old(cmds)@ + nt_checkcom_cmds(old(self).state@[chn as int], old(self).mt_counter, chn),
    {
        let mut ch = self.state[chn];
        if ch.n_3_cmdlo != 0 {
            ch.n_1a_vibrato = ch.n_3_cmdlo;
            let vp = ch.n_1b_vibpos;
            assert((vp >> 2) & 0x1f < 32) by (bit_vector);
            let pos = (vp >> 2) & 0x1f;
            let val = mt_vibrato_value(pos);
            let vib = ch.n_1a_vibrato;
            let depth = vib & 0xf;
            assert(vib & 0xf < 16) by (bit_vector);
            assert(val as usize * depth as usize <= 255 * 15) by (nonlinear_arith)
                requires val <= 255, depth < 16;
            let amt = ((val as usize * depth as usize) / 64) as i16;
            let period = if ch.n_1b_vibpos & 0x80 == 0 {
                ch.n_10_period.wrapping_add(amt)
            } else {
                ch.n_10_period.wrapping_sub(amt)
            };
            cmds.push(MixerCmd::SetPeriod(chn, period as i32));
            ch.n_1b_vibpos = ch.n_1b_vibpos.wrapping_add((ch.n_1a_vibrato >> 2) & 0x3c);
            self.state[chn] = ch;
        }
        assert(self.state@ =~= old(self).state@.update(chn as int, nt_checkcom(old(self).state@[chn as int])));
        assert(cmds@ =~= old(cmds)@ + nt_checkcom_cmds(old(self).state@[chn as int], old(self).mt_counter, chn));
    }

    /// Volume slide (see `nt_volslide_volume`), the volume played.
    fn mt_volslide(&mut self, chn: usize, cmds: &mut Vec<MixerCmd>)
        requires
            chn < 4,
        ensures
            ({
                let ch = old(self).state@[chn as int];
                let v = nt_volslide_volume(ch.n_12_volume, ch.n_3_cmdlo);
                &&& final(self).state@ == old(self).state@.update(chn as int, ChannelData { n_12_volume: v, ..ch })
                &&& final(cmds)@ == old(cmds)@.push(MixerCmd::SetVolume(chn, (v * 16) as usize))
            }),
            nt_seq_same(*final(self), *old(self)),
    {
        let mut ch = self.state[chn];
        if ch.n_3_cmdlo >> 4 == 0 {
            let d = ch.n_3_cmdlo & 0x0f;
            if ch.n_12_volume > d {
                ch.n_12_volume = ch.n_12_volume - d;
            } else {
                ch.n_12_volume = 0;
            }
        } else {
            let w = ch.n_12_volume.wrapping_add(ch.n_3_cmdlo >> 4);
            ch.n_12_volume = if w > 0x40 { 0x40 } else { w };
        }
        self.state[chn] = ch;
        cmds.push(MixerCmd::SetVolume(chn, ch.n_12_volume as usize * 16));
        assert(self.state@ =~= old(self).state@.update(chn as int, ch));
    }

    /// A tick without a new row on channel `chn`: arpeggio, portamentos and
    /// vibrato; any other command plays the period, and a volume slide
    /// follows it.
    fn mt_checkcom(&mut self, chn: usize, cmds: &mut Vec<MixerCmd>)
        requires
            chn < 4,
        ensures
            final(self).state@ == old(self).state@.update(chn as int, nt_checkcom(old(self).state@[chn as int])),
            nt_seq_same(*final(self), *old(self)),
            final(cmds)@ == old(cmds)@ + nt_checkcom_cmds(old(self).state@[chn as int], old(self).mt_counter, chn),
    {
        let cmd = self.state[chn].n_2_cmd & 0xf;
        if cmd == 0x0 {
            self.mt_arpeggio(chn, cmds);
            assert(self.state@ =~= old(self).state@.update(chn as int, nt_checkcom(old(self).state@[chn as int])));
        } else if cmd == 0x1 {
            self.mt_portup(chn, cmds);
        } else if cmd == 0x2 {
            self.mt_portdown(chn, cmds);
        } else if cmd == 0x3 {
            self.mt_myport(chn, cmds);
        } else if cmd == 0x4 {
            self.mt_vib(chn, cmds);
        } else {
            let period = self.state[chn].n_10_period;
            cmds.push(MixerCmd::SetPeriod(chn, period as i32));
            if cmd == 0xa {
                self.mt_volslide(chn, cmds);
            } else {
                assert(self.state@ =~= old(self).state@.update(chn as int, nt_checkcom(old(self).state@[chn as int])));
            }
            assert(cmds@ =~= old(cmds)@ + nt_checkcom_cmds(old(self).state@[chn as int], old(self).mt_counter, chn));
        }
    }

    /// The filter command: the Amiga filter is not emulated.
    fn mt_setfilt(&self) {
    }

    /// Pattern break: toggles the break flag.
    fn mt_pattbreak(&mut self)
        ensures
            *final(self) == (ModPlayer { mt_break: !old(self).mt_break, ..*old(self) }),
    {
        self.mt_break = !self.mt_break;
    }

    /// Position jump: to the position before the one in the parameter,
    /// the break flag toggled.
    fn mt_posjmp(&mut self, chn: usize)
        requires
            chn < 4,
        ensures
            *final(self) == (ModPlayer {
                mt_songpos: old(self).state@[chn as int].n_3_cmdlo.wrapping_sub(1),
                mt_break: !old(self).mt_break,
                ..*old(self)
            }),
    {
        self.mt_songpos = self.state[chn].n_3_cmdlo.wrapping_sub(1);
        self.mt_break = !self.mt_break;
    }

    /// Set volume: the parameter, at most 64.
    fn mt_setvol(&mut self, chn: usize, cmds: &mut Vec<MixerCmd>)
        requires
            chn < 4,
            old(self).state@[chn as int].n_2_cmd & 0xf == 0xc,
        ensures
            nt_row_effect(*old(self), old(self).state@[chn as int], chn as int, *final(self)),
            final(cmds)@ == old(cmds)@ + nt_row_cmds(old(self).state@[chn as int], chn),
    {
        let mut ch = self.state[chn];
        if ch.n_3_cmdlo > 0x40 {
            ch.n_3_cmdlo = 0x40;
        }
        self.state[chn] = ch;
        cmds.push(MixerCmd::SetVolume(chn, ch.n_3_cmdlo as usize * 16));
        assert(cmds@ =~= old(cmds)@ + nt_row_cmds(old(self).state@[chn as int], chn));
        assert(self.state@ =~= old(self).state@.update(chn as int, ch));
    }

    /// Set speed: the parameter, at most 31; a nonzero one sets the speed
    /// and restarts the tick count.
    fn mt_setspeed(&mut self, chn: usize)
        requires
            chn < 4,
            old(self).state@[chn as int].n_2_cmd & 0xf == 0xf,
        ensures
            nt_row_effect(*old(self), old(self).state@[chn as int], chn as int, *final(self)),
    {
        let mut ch = self.state[chn];
        if ch.n_3_cmdlo > 0x1f {
            ch.n_3_cmdlo = 0x1f;
        }
        self.state[chn] = ch;
        if ch.n_3_cmdlo != 0 {
            self.mt_speed = ch.n_3_cmdlo;
            self.mt_counter = 0;
        }
        assert(self.state@ =~= old(self).state@.update(chn as int, ch));
    }

    /// The command of a new row on channel `chn`: filter, pattern break,
    /// position jump, volume or speed.
    fn mt_checkcom2(&mut self, chn: usize, cmds: &mut Vec<MixerCmd>)
        requires
            chn < 4,
        ensures
            nt_row_effect(*old(self), old(self).state@[chn as int], chn as int, *final(self)),
            final(cmds)@ == old(cmds)@ + nt_row_cmds(old(self).state@[chn as int], chn),
    {
        let cmd = self.state[chn].n_2_cmd & 0xf;
        if cmd == 0xc {
            self.mt_setvol(chn, cmds);
        } else {
            if cmd == 0xe {
                self.mt_setfilt();
            } else if cmd == 0xd {
                self.mt_pattbreak();
            } else if cmd == 0xb {
                self.mt_posjmp(chn);
            } else if cmd == 0xf {
                self.mt_setspeed(chn);
            }
            assert(cmds@ =~= old(cmds)@ + nt_row_cmds(old(self).state@[chn as int], chn));
            assert(self.state@ =~= old(self).state@.update(chn as int, ChannelData {
                n_3_cmdlo: nt_row_cmdlo(old(self).state@[chn as int]), ..old(self).state@[chn as int] }));
        }
    }

    /// A note with tone portamento: see `nt_setmyport`.
    fn mt_setmyport(&mut self, chn: usize)
        requires
            chn < 4,
        ensures
            final(self).state@ == old(self).state@.update(chn as int, nt_setmyport(old(self).state@[chn as int])),
            nt_seq_same(*final(self), *old(self)),
    {
        let mut ch = self.state[chn];
        ch.n_18_wantperiod = (ch.n_0_note & 0xfff) as i16;
        ch.n_16_portdir = false;
        if ch.n_10_period == ch.n_18_wantperiod {
            ch.n_18_wantperiod = 0;
        } else if ch.n_10_period < ch.n_18_wantperiod {
            ch.n_16_portdir = true;
        }
        self.state[chn] = ch;
        assert(self.state@ =~= old(self).state@.update(chn as int, nt_setmyport(old(self).state@[chn as int])));
    }

    /// A note started: its period set and played from the sample start,
    /// the vibrato position cleared; then the row's command.
    fn mt_setperiod(&mut self, chn: usize, cmds: &mut Vec<MixerCmd>)
        requires
            chn < 4,
        ensures
            ({
                let ch = old(self).state@[chn as int];
                let c = ChannelData { n_10_period: (ch.n_0_note & 0xfff) as i16, n_1b_vibpos: 0, ..ch };
                &&& nt_row_effect(*old(self), c, chn as int, *final(self))
                &&& final(cmds)@ == old(cmds)@ + seq![
                    MixerCmd::SetVoicePos(chn, 0),
                    MixerCmd::SetPeriod(chn, (ch.n_0_note & 0xfff) as i32),
                ] + nt_row_cmds(c, chn)
            }),
    {
        let mut ch = self.state[chn];
        let n = ch.n_0_note;
        proof { lemma_low12(n); }
        ch.n_10_period = (n & 0xfff) as i16;
        ch.n_1b_vibpos = 0;
        self.state[chn] = ch;
        cmds.push(MixerCmd::SetVoicePos(chn, 0));
        cmds.push(MixerCmd::SetPeriod(chn, ch.n_10_period as i32));
        let ghost mid = cmds@;
        assert(mid =~= old(cmds)@ + seq![
            MixerCmd::SetVoicePos(chn, 0),
            MixerCmd::SetPeriod(chn, (old(self).state@[chn as int].n_0_note & 0xfff) as i32),
        ]);
        self.mt_checkcom2(chn, cmds);
        assert(self.state@ =~= old(self).state@.update(chn as int, ChannelData { n_3_cmdlo: nt_row_cmdlo(ch), ..ch }));
    }

    /// Plays the event of channel `chn` in the current row of pattern
    /// `pat`: its instrument sets the volume, sample and loop; its note
    /// starts (or, with tone portamento, is aimed at); then the row's
    /// command.
    #[verifier::rlimit(40)]
    fn mt_playvoice(&mut self, pat: usize, chn: usize, module: &ModData, cmds: &mut Vec<MixerCmd>)
        requires
            chn < 4,
            pat < 256,
            nt_wf(*old(self)),
        ensures
            *final(self) == nt_voice(*old(self), pat as int, chn as int, *module),
            final(cmds)@ == old(cmds)@ + nt_voice_cmds(*old(self), pat as int, chn as int, *module),
            nt_wf(*final(self)),
    {
        let event = module.patterns.event_or_empty(pat, self.mt_pattpos as usize, chn);
        let mut ch = self.state[chn];
        ch.n_0_note = event.note;
        ch.n_2_cmd = event.cmd;
        ch.n_3_cmdlo = event.cmdlo;
        let ins = event.ins() as usize;
        let ghost inst = nt_event_instrument(event, *module);
        let ghost c1 = nt_take_event(old(self).state@[chn as int], event, inst);
        if ins != 0 && ins <= module.instruments.len() {
            let instrument = &module.instruments[ins - 1];
            ch.n_8_length = instrument.size;
            ch.n_12_volume = instrument.volume;
            if instrument.repeat != 0 {
                ch.n_a_loopstart = instrument.repeat as u32;
                ch.n_8_length = instrument.repeat.wrapping_add(instrument.replen);
                ch.n_e_replen = instrument.replen;
                cmds.push(MixerCmd::SetVolume(chn, ch.n_12_volume as usize * 16));
                cmds.push(MixerCmd::EnableLoop(chn, true));
            } else {
                ch.n_8_length = instrument.size;
                ch.n_e_replen = instrument.replen;
                cmds.push(MixerCmd::EnableLoop(chn, false));
                cmds.push(MixerCmd::SetVolume(chn, ch.n_12_volume as usize * 16));
            }
            cmds.push(MixerCmd::SetPatch(chn, ins - 1, ins - 1));
            cmds.push(MixerCmd::SetLoopStart(chn, ch.n_a_loopstart * 2));
            cmds.push(MixerCmd::SetLoopEnd(chn, (ch.n_a_loopstart + ch.n_e_replen as u32) * 2));
        }
        assert(ch == c1);
        assert(cmds@ =~= old(cmds)@ + nt_take_cmds(chn, c1, inst, event_ins(event) as int));
        self.state[chn] = ch;
        let ghost mid_cmds = cmds@;
        if ch.n_0_note & 0xfff != 0 {
            if ch.n_2_cmd & 0xf == 0x3 {
                self.mt_setmyport(chn);
                self.mt_checkcom2(chn, cmds);
                assert(cmds@ =~= mid_cmds + nt_note_cmds(c1, chn) + nt_row_cmds(nt_note_channel(c1), chn));
            } else {
                self.mt_setperiod(chn, cmds);
                assert(cmds@ =~= mid_cmds + nt_note_cmds(c1, chn) + nt_row_cmds(nt_note_channel(c1), chn));
            }
        } else {
            self.mt_checkcom2(chn, cmds);
            assert(cmds@ =~= mid_cmds + nt_note_cmds(c1, chn) + nt_row_cmds(nt_note_channel(c1), chn));
        }
        assert(self.state@ =~= old(self).state@.update(chn as int, ChannelData {
            n_3_cmdlo: nt_row_cmdlo(nt_note_channel(c1)), ..nt_note_channel(c1) }));
        assert forall|c: int| 0 <= c < 4 implies nt_channel_wf(#[trigger] self.state@[c]) by {
            if c != chn {
                assert(self.state@[c] == old(self).state@[c]);
            }
        }
        proof {
            lemma_nt_row_apply(*old(self), nt_note_channel(c1), chn as int, *self);
        }
    }

    /// To the next position (see `nt_next_pos`), row 0, no break pending.
    fn mt_nex(&mut self, module: &ModData)
        ensures
            *final(self) == (ModPlayer {
                mt_pattpos: 0,
                mt_break: false,
                mt_songpos: nt_next_pos(old(self).mt_songpos, *module),
                ..*old(self)
            }),
    {
        self.mt_pattpos = 0;
        self.mt_break = false;
        self.mt_songpos = self.mt_songpos.wrapping_add(1);
        self.mt_songpos = self.mt_songpos & 0x7f;
        if self.mt_songpos as usize >= module.len() {
            self.mt_songpos = module.restart;
        }
    }

    /// A new row: the four channels play their events of the pattern at
    /// the song position, and the row advances, past row 63 to the next
    /// position. Nothing is played beyond the 128 positions.
    fn mt_getnew(&mut self, module: &ModData, cmds: &mut Vec<MixerCmd>)
        requires
            nt_wf(*old(self)),
            old(self).mt_pattpos < 255,
        ensures
            old(self).mt_songpos >= 128 ==> *final(self) == *old(self) && final(cmds)@ == old(cmds)@,
            old(self).mt_songpos < 128 ==> {
                &&& nt_wf(*final(self))
                &&& *final(self) == nt_getnew(*old(self), *module)
                &&& final(cmds)@ == old(cmds)@ + nt_getnew_cmds(*old(self), *module)
                &&& final(self).options == old(self).options
                &&& old(self).mt_counter == 0 ==> final(self).mt_counter == 0
                &&& final(self).mt_pattpos == (if old(self).mt_pattpos + 1 == 64 { 0 } else { old(self).mt_pattpos + 1 })
            },
    {
        let pat = match module.pattern_in_position(self.mt_songpos as usize) {
            Some(val) => val,
            None => return,
        };
        let mut chn: usize = 0;
        while chn < 4
            invariant
                chn <= 4,
                pat < 256,
                nt_wf(*self),
                pat == module.orders@[old(self).mt_songpos as int],
                *self == nt_voices(*old(self), pat as int, *module, chn as int),
                cmds@ == old(cmds)@ + nt_voices_cmds(*old(self), pat as int, *module, chn as int),
                self.mt_pattpos == old(self).mt_pattpos,
                self.options == old(self).options,
                old(self).mt_counter == 0 ==> self.mt_counter == 0,
            decreases 4 - chn,
        {
            self.mt_playvoice(pat, chn, module, cmds);
            assert(cmds@ =~= old(cmds)@ + nt_voices_cmds(*old(self), pat as int, *module, chn as int + 1));
            chn = chn + 1;
        }
        self.mt_pattpos = self.mt_pattpos + 1;
        if self.mt_pattpos == 64 {
            self.mt_nex(module);
        }
    }

    /// One tick: see `nt_tick`.
    fn mt_music(&mut self, module: &ModData, cmds: &mut Vec<MixerCmd>)
        requires
            nt_wf(*old(self)),
            old(self).mt_counter < 255,
            old(self).mt_pattpos < 255,
        ensures
            nt_tick(*old(self), *final(self), *module, old(cmds)@, final(cmds)@),
    {
        self.mt_counter = self.mt_counter + 1;
        if self.mt_speed > self.mt_counter {
            let ghost s0 = self.state@;
            let mut chn: usize = 0;
            while chn < 4
                invariant
                    chn <= 4,
                    s0 == old(self).state@,
                    nt_seq_same(*self, ModPlayer { mt_counter: (old(self).mt_counter + 1) as u8, ..*old(self) }),
                    forall|c: int| 0 <= c < chn ==> #[trigger] self.state@[c] == nt_checkcom(s0[c]),
                    forall|c: int| chn <= c < 4 ==> #[trigger] self.state@[c] == s0[c],
                    cmds@ == old(cmds)@ + nt_tick_cmds(s0, self.mt_counter, chn as int),
                decreases 4 - chn,
            {
                self.mt_checkcom(chn, cmds);
                assert(cmds@ =~= old(cmds)@ + nt_tick_cmds(s0, self.mt_counter, chn as int + 1));
                chn = chn + 1;
            }
            assert forall|c: int| 0 <= c < 4 implies nt_channel_wf(#[trigger] self.state@[c]) by {
                assert(nt_channel_wf(s0[c]));
            }
            if self.mt_break {
                self.mt_nex(module);
            }
            return;
        }
        self.mt_counter = 0;
        self.mt_getnew(module, cmds);
    }

    /// A replayer at the start of the song: speed 6, silent channels.
    pub fn new(options: Options) -> (r: Self)
        ensures
            nt_wf(r),
            r.options == options,
            r.mt_speed == 6 && r.mt_songpos == 0 && r.mt_pattpos == 0 && r.mt_counter == 0 && !r.mt_break,
            forall|c: int| 0 <= c < 4 ==> #[trigger] r.state@[c] == nt_silent_channel(),
    {
        let c = ChannelData::new();
        ModPlayer {
            state: [c, c, c, c],
            options,
            mt_speed: 6,
            mt_songpos: 0,
            mt_pattpos: 0,
            mt_counter: 0,
            mt_break: false,
        }
    }

    /// Prepares the replay: speed 6 and tempo 125 reported, the channels
    /// panned left, right, right, left by 70 percent.
    pub fn start(&mut self, data: &mut PlayerData, module: &ModData, cmds: &mut Vec<MixerCmd>)
        ensures
            *final(self) == *old(self),
            *final(data) == (PlayerData { speed: 6, tempo: 125, ..*old(data) }),
            final(cmds)@ == old(cmds)@ + seq![
                MixerCmd::SetPan(0, -89isize), MixerCmd::SetPan(1, 88isize), MixerCmd::SetPan(2, 88isize),
                MixerCmd::SetPan(3, -89isize),
            ],
    {
        data.speed = 6;
        data.tempo = 125;
        let pan: isize = match self.options.option_int("pan") {
            Some(val) => val,
            None => 70,
        };
        let panl = -128 * pan / 100;
        let panr = 127 * pan / 100;
        let ghost pre = cmds@;
        cmds.push(MixerCmd::SetPan(0, panl));
        cmds.push(MixerCmd::SetPan(1, panr));
        cmds.push(MixerCmd::SetPan(2, panr));
        cmds.push(MixerCmd::SetPan(3, panl));
        assert(cmds@ =~= pre + seq![
            MixerCmd::SetPan(0, -89isize), MixerCmd::SetPan(1, 88isize), MixerCmd::SetPan(2, 88isize),
            MixerCmd::SetPan(3, -89isize),
        ]);
    }

    /// Plays one tick from the position, row and tick of `data` (see
    /// `nt_tick`) and reports the new ones with the speed and tempo 125.
    pub fn play(&mut self, data: &mut PlayerData, module: &ModData, cmds: &mut Vec<MixerCmd>)
        requires
            nt_wf(*old(self)),
            (old(data).frame as u8) < 255,
            (old(data).row as u8) < 255,
        ensures
            nt_tick(ModPlayer {
                mt_songpos: old(data).pos as u8,
                mt_pattpos: old(data).row as u8,
                mt_counter: old(data).frame as u8,
                ..*old(self)
            }, *final(self), *module, old(cmds)@, final(cmds)@),
            *final(data) == (PlayerData {
                frame: final(self).mt_counter as usize,
                row: final(self).mt_pattpos as usize,
                pos: final(self).mt_songpos as usize,
                speed: final(self).mt_speed as usize,
                tempo: 125,
                ..*old(data)
            }),
    {
        self.mt_songpos = data.pos as u8;
        self.mt_pattpos = data.row as u8;
        self.mt_counter = data.frame as u8;
        self.mt_music(module, cmds);
        data.frame = self.mt_counter as usize;
        data.row = self.mt_pattpos as usize;
        data.pos = self.mt_songpos as usize;
        data.speed = self.mt_speed as usize;
        data.tempo = 125;
    }

    /// Back to the start of the song at speed 6; the channels stay.
    pub fn reset(&mut self)
        ensures
            *final(self) == (ModPlayer {
                mt_speed: 6,
                mt_counter: 0,
                mt_songpos: 0,
                mt_break: false,
                mt_pattpos: 0,
                ..*old(self)
            }),
    {
        self.mt_speed = 6;
        self.mt_counter = 0;
        self.mt_songpos = 0;
        self.mt_break = false;
        self.mt_pattpos = 0;
    }
}

/// `p` is a replayer just started: speed 6, at the start of the song,
/// silent channels.
pub open spec fn nt_started(p: ModPlayer) -> bool {
    &&& p.mt_speed == 6 && p.mt_songpos == 0 && p.mt_pattpos == 0 && p.mt_counter == 0 && !p.mt_break
    &&& forall|c: int| 0 <= c < 4 ==> #[trigger] p.state@[c] == nt_silent_channel()
}

/// Every row lasts as many ticks as the speed: from the first tick of a
/// row at speed `s`, each of the next `s - 1` ticks advances the tick count
/// and keeps the speed (and, with no break pending, the row and the
/// position), and the tick after them starts the next row.
#[verifier::spinoff_prover]
pub proof fn lemma_nt_row_lasts_speed_ticks(states: Seq<ModPlayer>, cmds: Seq<Seq<MixerCmd>>, module: ModData)
    requires
        states.len() >= 1,
        cmds.len() == states.len(),
        states[0].mt_counter == 0,
        states.len() - 1 <= states[0].mt_speed,
        forall|k: int| 0 <= k < states.len() - 1 ==> #[trigger] nt_tick(states[k], states[k + 1], module, cmds[k], cmds[k + 1]),
    ensures
        forall|k: int| 0 <= k < states.len() && k < states[0].mt_speed ==> {
            &&& #[trigger] states[k].mt_counter == k
            &&& states[k].mt_speed == states[0].mt_speed
            &&& !states[0].mt_break ==> {
                &&& states[k].mt_pattpos == states[0].mt_pattpos
                &&& states[k].mt_songpos == states[0].mt_songpos
                &&& !states[k].mt_break
            }
        },
        states.len() - 1 == states[0].mt_speed && states[0].mt_speed > 0 ==> states[states.len() - 1].mt_counter == 0,
    decreases states.len(),
{
    if states.len() > 1 {
        let prefix = states.drop_last();
        let cprefix = cmds.drop_last();
        assert forall|k: int| 0 <= k < prefix.len() - 1 implies
            #[trigger] nt_tick(prefix[k], prefix[k + 1], module, cprefix[k], cprefix[k + 1]) by {
            assert(nt_tick(states[k], states[k + 1], module, cmds[k], cmds[k + 1]));
        }
        lemma_nt_row_lasts_speed_ticks(prefix, cprefix, module);
        let k: int = states.len() - 2;
        assert(nt_tick(states[k], states[k + 1], module, cmds[k], cmds[k + 1]));
        assert(prefix[k] == states[k]);
        assert forall|j: int| 0 <= j < prefix.len() implies #[trigger] prefix[j] == states[j] by {}
        assert forall|j: int| 0 <= j < states.len() && j < states[0].mt_speed implies {
            &&& #[trigger] states[j].mt_counter == j
            &&& states[j].mt_speed == states[0].mt_speed
            &&& !states[0].mt_break ==> {
                &&& states[j].mt_pattpos == states[0].mt_pattpos
                &&& states[j].mt_songpos == states[0].mt_songpos
                &&& !states[j].mt_break
            }
        } by {
            assert(prefix[0] == states[0]);
            if j < prefix.len() {
                assert(prefix[j] == states[j]);
                assert(prefix[j].mt_counter == j);
            } else {
                assert(prefix[k].mt_counter == k);
                assert(prefix[0] == states[0]);
                assert(states[k].mt_speed == states[0].mt_speed);
                assert(states[k].mt_counter + 1 < states[k].mt_speed);
                assert(states[j].mt_counter == j);
                assert(!states[0].mt_break ==> !states[k].mt_break);
                assert(!states[0].mt_break ==> states[j].mt_pattpos == states[0].mt_pattpos
                    && states[j].mt_songpos == states[0].mt_songpos && !states[j].mt_break);
            }
        }
    }
}

} // verus!
