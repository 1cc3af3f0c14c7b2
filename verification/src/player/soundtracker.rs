//! The D.O.C Soundtracker V2.0 replayer, after the play routine improved
//! by Unknown of D.O.C from the one of TJC: arpeggio and portamento on every
//! tick, position jump, volume, break, filter and speed on a new row.
//!
//! The replayer works on its sequencer state and on four channels; what it
//! asks of the mixer it appends to a list of commands.

use vstd::prelude::*;
use crate::format::mk::{ModEvent, ModInstrument, event_or_empty};
use crate::format::st::StData;
use crate::player::{MixerCmd, PlayerData};
use crate::player::options::Options;

verus! {

/// The arpeggio table: three octaves of periods and three zeros.
pub open spec fn st_arps() -> Seq<i16> {
    seq![
        0x0358i16, 0x0328, 0x02fa, 0x02d0, 0x02a6, 0x0280, 0x025c,
        0x023a, 0x021a, 0x01fc, 0x01e0, 0x01c5, 0x01ac, 0x0194, 0x017d,
        0x0168, 0x0153, 0x0140, 0x012e, 0x011d, 0x010d, 0x00fe, 0x00f0,
        0x00e2, 0x00d6, 0x00ca, 0x00be, 0x00b4, 0x00aa, 0x00a0, 0x0097,
        0x008f, 0x0087, 0x007f, 0x0078, 0x0071, 0x0000, 0x0000, 0x0000,
    ]
}

fn st_arp(i: usize) -> (r: i16)
    requires
        i < 39,
    ensures
        r == st_arps()[i as int],
{
    let t: [i16; 39] = [
        0x0358, 0x0328, 0x02fa, 0x02d0, 0x02a6, 0x0280, 0x025c,
        0x023a, 0x021a, 0x01fc, 0x01e0, 0x01c5, 0x01ac, 0x0194, 0x017d,
        0x0168, 0x0153, 0x0140, 0x012e, 0x011d, 0x010d, 0x00fe, 0x00f0,
        0x00e2, 0x00d6, 0x00ca, 0x00be, 0x00b4, 0x00aa, 0x00a0, 0x0097,
        0x008f, 0x0087, 0x007f, 0x0078, 0x0071, 0x0000, 0x0000, 0x0000,
    ];
    assert(t@ =~= st_arps());
    t[i]
}

/// The state of a channel, named after its offset in the replayer's
/// channel record.
#[derive(Clone, Copy, Debug)]
pub struct AudTemp {
    pub n_0_note: u16,
    pub n_2_cmd: u8,
    pub n_3_cmdlo: u8,
    pub n_4_samplestart: u32,
    pub n_8_length: u16,
    pub n_10_loopstart: u32,
    pub n_14_replen: u16,
    pub n_16_period: i16,
    pub n_18_volume: u8,
    pub n_22_last_note: i16,
}

/// A silent channel: every value zero.
pub open spec fn st_silent_channel() -> AudTemp {
    AudTemp {
        n_0_note: 0,
        n_2_cmd: 0,
        n_3_cmdlo: 0,
        n_4_samplestart: 0,
        n_8_length: 0,
        n_10_loopstart: 0,
        n_14_replen: 0,
        n_16_period: 0,
        n_18_volume: 0,
        n_22_last_note: 0,
    }
}

impl AudTemp {
    /// A silent channel: every value zero.
    pub fn new() -> (r: Self)
        ensures
            r == st_silent_channel(),
    {
        AudTemp {
            n_0_note: 0,
            n_2_cmd: 0,
            n_3_cmdlo: 0,
            n_4_samplestart: 0,
            n_8_length: 0,
            n_10_loopstart: 0,
            n_14_replen: 0,
            n_16_period: 0,
            n_18_volume: 0,
            n_22_last_note: 0,
        }
    }
}

/// The Soundtracker replayer: the sequencer, the sample addresses and the
/// four channels.
pub struct StPlayer {
    pub options: Options,
    pub mt_speed: u8,
    pub mt_partnote: u8,
    pub mt_partnrplay: u8,
    pub mt_counter: u8,
    pub mt_maxpart: u16,
    pub mt_status: bool,
    pub mt_sample1: [u32; 31],
    pub mt_audtemp: [AudTemp; 4],
}

/// What the replayer keeps between ticks: a nonzero speed above the tick
/// count, a row within the pattern.
pub open spec fn st_wf(p: StPlayer) -> bool {
    &&& 0 < p.mt_speed
    &&& p.mt_counter < p.mt_speed
    &&& p.mt_partnote < 64
}

/// The arpeggio step at tick `counter`: the high nibble on ticks 1 and 4,
/// none on tick 3, the low nibble otherwise.
pub open spec fn st_arp_step(cmdlo: u8, counter: u8) -> int {
    if counter == 1 || counter == 4 {
        (cmdlo >> 4) as int
    } else if counter == 3 {
        0
    } else {
        (cmdlo & 0x0f) as int
    }
}

/// The first `j` from `i` below 36 at which the table holds `period` and
/// has an entry `step` further; 36 if there is none.
pub open spec fn st_arp_index(period: i16, step: int, j: int) -> int
    decreases 36 - j,
{
    if j >= 36 {
        36
    } else if period == st_arps()[j] && j + step < 39 {
        j
    } else {
        st_arp_index(period, step, j + 1)
    }
}

/// The channel after the effect of a tick: portamento up lowers the last
/// note by the parameter down to 0x71, portamento down raises it up to
/// 0x358 (16-bit arithmetic that wraps).
pub open spec fn st_effect(ch: AudTemp) -> AudTemp {
    let cmd = ch.n_2_cmd & 0xf;
    if cmd == 1 {
        let p = ch.n_22_last_note.wrapping_sub(ch.n_3_cmdlo as i16);
        AudTemp { n_22_last_note: if p < 0x71 { 0x71 } else { p }, ..ch }
    } else if cmd == 2 {
        let p = ch.n_22_last_note.wrapping_add(ch.n_3_cmdlo as i16);
        AudTemp { n_22_last_note: if p >= 0x358 { 0x358 } else { p }, ..ch }
    } else {
        ch
    }
}

/// Portamento up (1xx) lowers the note's period by the parameter, to
/// 0x71 at least, and portamento down (2xx) raises it, to 0x358 at most,
/// for a period within that range; neither moves it the other way.
pub proof fn lemma_st_porta_direction(ch: AudTemp)
    requires
        0x71 <= ch.n_22_last_note <= 0x358,
    ensures
        ch.n_2_cmd & 0xf == 1 ==> st_effect(ch).n_22_last_note
            == (if ch.n_22_last_note - ch.n_3_cmdlo < 0x71 { 0x71 } else { ch.n_22_last_note - ch.n_3_cmdlo })
            && 0x71 <= st_effect(ch).n_22_last_note <= ch.n_22_last_note,
        ch.n_2_cmd & 0xf == 2 ==> st_effect(ch).n_22_last_note
            == (if ch.n_22_last_note + ch.n_3_cmdlo >= 0x358 { 0x358 } else { ch.n_22_last_note + ch.n_3_cmdlo })
            && ch.n_22_last_note <= st_effect(ch).n_22_last_note <= 0x358,
{
}

/// The commands of the effect of tick `counter` on channel `chn`: an
/// arpeggio plays the period `step` above the channel's, a portamento the
/// moved note.
pub open spec fn st_effect_cmds(ch: AudTemp, counter: u8, chn: usize) -> Seq<MixerCmd> {
    let cmd = ch.n_2_cmd & 0xf;
    if cmd == 0 {
        let step = st_arp_step(ch.n_3_cmdlo, counter);
        let j = st_arp_index(ch.n_16_period, step, 0);
        if j < 36 { seq![MixerCmd::SetPeriod(chn, st_arps()[j + step] as i32)] } else { seq![] }
    } else if cmd == 1 || cmd == 2 {
        seq![MixerCmd::SetPeriod(chn, st_effect(ch).n_22_last_note as i32)]
    } else {
        seq![]
    }
}

/// The commands of the effects of tick `counter` for the first `n`
/// channels, in channel order.
pub open spec fn st_tick_cmds(s: Seq<AudTemp>, counter: u8, n: int) -> Seq<MixerCmd>
    decreases n,
{
    if n <= 0 { seq![] } else { st_tick_cmds(s, counter, n - 1) + st_effect_cmds(s[n - 1], counter, (n - 1) as usize) }
}

/// The four channels `a` with channel `chn` replaced by `c`.
pub open spec fn st_chans_with(a: [AudTemp; 4], chn: int, c: AudTemp) -> [AudTemp; 4] {
    [
        if chn == 0 { c } else { a[0] },
        if chn == 1 { c } else { a[1] },
        if chn == 2 { c } else { a[2] },
        if chn == 3 { c } else { a[3] },
    ]
}

/// The four channels after the effect of a tick.
pub open spec fn st_effects(a: [AudTemp; 4]) -> [AudTemp; 4] {
    [st_effect(a[0]), st_effect(a[1]), st_effect(a[2]), st_effect(a[3])]
}

/// The event of channel `chn` in row `row` of pattern `pat`.
pub open spec fn st_event(module: StData, pat: int, row: int, chn: int) -> ModEvent {
    event_or_empty(module.patterns.events(), (pat * 64 + row) * module.patterns.spec_chn() + chn)
}

/// The instrument an event names in the high nibble of its command, if the
/// module has it.
pub open spec fn st_event_instrument(e: ModEvent, module: StData) -> Option<ModInstrument> {
    let ins = ((e.cmd & 0xf0) >> 4) as int;
    if 0 < ins <= module.instruments@.len() { Some(module.instruments@[ins - 1]) } else { None }
}

/// The channel after reading event `e` with its instrument `inst` (number
/// `ins`): a repeat moves the start to the loop, which then plays for the
/// repeat length.
pub open spec fn st_take(ch: AudTemp, e: ModEvent, inst: Option<ModInstrument>, ins: int, starts: Seq<u32>) -> AudTemp {
    let c = AudTemp { n_0_note: e.note, n_2_cmd: e.cmd, n_3_cmdlo: e.cmdlo, ..ch };
    match inst {
        None => c,
        Some(i) => {
            let start = starts[ins - 1];
            if i.repeat != 0 {
                let s2 = start.wrapping_add(i.repeat as u32);
                AudTemp {
                    n_4_samplestart: s2,
                    n_8_length: i.replen,
                    n_18_volume: i.volume,
                    n_10_loopstart: s2,
                    n_14_replen: i.replen,
                    ..c
                }
            } else {
                AudTemp {
                    n_4_samplestart: start,
                    n_8_length: i.size,
                    n_18_volume: i.volume,
                    n_10_loopstart: start,
                    n_14_replen: i.replen,
                    ..c
                }
            }
        },
    }
}

/// The commands of reading an instrument, the channel `c` as it is after:
/// volume, loop switch and bounds.
pub open spec fn st_take_cmds(chn: usize, c: AudTemp, inst: Option<ModInstrument>) -> Seq<MixerCmd> {
    match inst {
        None => seq![],
        Some(i) => seq![
            MixerCmd::SetVolume(chn, (c.n_18_volume * 16) as usize),
            MixerCmd::EnableLoop(chn, i.repeat != 0),
            MixerCmd::SetLoopStart(chn, c.n_10_loopstart.wrapping_sub(c.n_4_samplestart)),
            MixerCmd::SetLoopEnd(chn, c.n_10_loopstart.wrapping_add((c.n_14_replen * 2) as u32)),
        ],
    }
}

/// A note sets the period and the last note.
pub open spec fn st_note(c: AudTemp) -> AudTemp {
    if c.n_0_note != 0 {
        AudTemp { n_16_period: c.n_0_note as i16, n_22_last_note: c.n_0_note as i16, ..c }
    } else {
        c
    }
}

/// The commands of a note: the sample from its start, the period.
pub open spec fn st_note_cmds(c: AudTemp, chn: usize) -> Seq<MixerCmd> {
    if c.n_0_note != 0 {
        seq![MixerCmd::SetSamplePtr(chn, c.n_4_samplestart), MixerCmd::SetPeriod(chn, c.n_0_note as i32)]
    } else {
        seq![]
    }
}

/// `p` after the row's command of channel `chn`: a position jump toggles
/// the break flag and sets the position to the parameter, a break toggles
/// the flag, a speed with a nonzero low nibble sets the speed to that nibble and restarts
/// the tick count.
pub open spec fn st_row_cmd(p: StPlayer, chn: int) -> StPlayer {
    let ch = p.mt_audtemp@[chn];
    let cmd = ch.n_2_cmd & 0x0f;
    if cmd == 0xb {
        StPlayer { mt_status: !p.mt_status, mt_partnrplay: ch.n_3_cmdlo, ..p }
    } else if cmd == 0xd {
        StPlayer { mt_status: !p.mt_status, ..p }
    } else if cmd == 0xf && ch.n_3_cmdlo & 0x0f != 0 {
        StPlayer { mt_counter: 0, mt_speed: ch.n_3_cmdlo & 0x0f, ..p }
    } else {
        p
    }
}

/// The commands of the row's command of channel `ch`: volume or filter.
pub open spec fn st_row_cmd_cmds(ch: AudTemp, chn: usize) -> Seq<MixerCmd> {
    let cmd = ch.n_2_cmd & 0x0f;
    if cmd == 0xc {
        seq![MixerCmd::SetVolume(chn, (ch.n_3_cmdlo * 16) as usize)]
    } else if cmd == 0xe {
        seq![MixerCmd::EnableFilter(ch.n_3_cmdlo & 0x0f != 0)]
    } else {
        seq![]
    }
}

/// The channel `chn` of `p` after reading its event in the current row of
/// pattern `pat` and its note.
pub open spec fn st_played(p: StPlayer, pat: int, chn: int, module: StData) -> AudTemp {
    let e = st_event(module, pat, p.mt_partnote as int, chn);
    st_note(st_take(p.mt_audtemp@[chn], e, st_event_instrument(e, module), ((e.cmd & 0xf0) >> 4) as int, p.mt_sample1@))
}

/// `p` after channel `chn` plays its event in the current row of pattern
/// `pat`.
pub open spec fn st_playit(p: StPlayer, pat: int, chn: int, module: StData) -> StPlayer {
    st_row_cmd(StPlayer { mt_audtemp: st_chans_with(p.mt_audtemp, chn, st_played(p, pat, chn, module)), ..p }, chn)
}

/// The commands of channel `chn` playing its event.
pub open spec fn st_playit_cmds(p: StPlayer, pat: int, chn: int, module: StData) -> Seq<MixerCmd> {
    let e = st_event(module, pat, p.mt_partnote as int, chn);
    let inst = st_event_instrument(e, module);
    let c1 = st_take(p.mt_audtemp@[chn], e, inst, ((e.cmd & 0xf0) >> 4) as int, p.mt_sample1@);
    st_take_cmds(chn as usize, c1, inst) + st_note_cmds(c1, chn as usize) + st_row_cmd_cmds(st_note(c1), chn as usize)
}

/// A channel without a loop (a repeat length of 1) restarts at its loop.
pub open spec fn st_restart_cmds(c: AudTemp, chn: usize) -> Seq<MixerCmd> {
    if c.n_14_replen == 1 {
        seq![MixerCmd::SetSamplePtr(chn, c.n_10_loopstart.wrapping_sub(c.n_4_samplestart))]
    } else {
        seq![]
    }
}

/// `p` after the first `n` channels play their events, in channel order.
pub open spec fn st_voices(p: StPlayer, pat: int, module: StData, n: int) -> StPlayer
    decreases n,
{
    if n <= 0 { p } else { st_playit(st_voices(p, pat, module, n - 1), pat, n - 1, module) }
}

/// The commands of the first `n` channels playing their events.
pub open spec fn st_voices_cmds(p: StPlayer, pat: int, module: StData, n: int) -> Seq<MixerCmd>
    decreases n,
{
    if n <= 0 {
        seq![]
    } else {
        let v = st_voices(p, pat, module, n - 1);
        st_voices_cmds(p, pat, module, n - 1) + st_playit_cmds(v, pat, n - 1, module)
            + st_restart_cmds(st_played(v, pat, n - 1, module), (n - 1) as usize)
    }
}

/// `p` at row 0 of the next position, the first past the song's end.
pub open spec fn st_higher(p: StPlayer) -> StPlayer {
    let q = p.mt_partnrplay.wrapping_add(1);
    StPlayer { mt_partnote: 0, mt_partnrplay: if q as u16 >= p.mt_maxpart { 0 } else { q }, ..p }
}

/// `p` after a new row at position `p.mt_partnrplay` (within the 128): the
/// channels play their events, and the row advances, to the next position
/// past row 63 or on a break.
pub open spec fn st_rout2(p: StPlayer, module: StData) -> StPlayer {
    let q = st_voices(p, module.orders@[p.mt_partnrplay as int] as int, module, 4);
    let r = StPlayer { mt_partnote: (q.mt_partnote + 1) as u8, ..q };
    let r2 = if r.mt_partnote == 64 { st_higher(r) } else { r };
    if r2.mt_status { st_higher(StPlayer { mt_status: false, ..r2 }) } else { r2 }
}

/// The commands of a new row; see `st_rout2`.
pub open spec fn st_rout2_cmds(p: StPlayer, module: StData) -> Seq<MixerCmd> {
    st_voices_cmds(p, module.orders@[p.mt_partnrplay as int] as int, module, 4)
}

/// One tick of the replay from `a` to `b`, the commands going from
/// `before` to `after`. A tick that does not reach the speed advances the
/// count and runs the effects. The tick that reaches it starts the count
/// again and, within the 128 positions, reads the row and moves on: to the
/// next row, or to row 0 of the next position past row 63 or on a break;
/// the effects then run (see `mt_music`).
pub open spec fn st_tick(a: StPlayer, b: StPlayer, module: StData, before: Seq<MixerCmd>, after: Seq<MixerCmd>) -> bool {
    &&& st_wf(b)
    &&& b.options == a.options && b.mt_sample1 == a.mt_sample1 && b.mt_maxpart == a.mt_maxpart
    &&& a.mt_counter + 1 != a.mt_speed ==> {
        &&& b.mt_counter == a.mt_counter + 1
        &&& b.mt_speed == a.mt_speed
        &&& b.mt_partnote == a.mt_partnote && b.mt_partnrplay == a.mt_partnrplay && b.mt_status == a.mt_status
        &&& forall|c: int| 0 <= c < 4 ==> #[trigger] b.mt_audtemp@[c] == st_effect(a.mt_audtemp@[c])
        &&& after == before + st_tick_cmds(a.mt_audtemp@, (a.mt_counter + 1) as u8, 4)
    }
    &&& a.mt_counter + 1 == a.mt_speed ==> {
        &&& b.mt_counter == 0
        &&& a.mt_partnrplay >= 128 ==> {
            &&& b.mt_partnote == a.mt_partnote && b.mt_partnrplay == a.mt_partnrplay && b.mt_status == a.mt_status
            &&& b.mt_speed == a.mt_speed
            &&& forall|c: int| 0 <= c < 4 ==> #[trigger] b.mt_audtemp@[c] == st_effect(a.mt_audtemp@[c])
            &&& after == before + st_tick_cmds(a.mt_audtemp@, 0, 4)
        }
        &&& a.mt_partnrplay < 128 ==> {
            let q = st_rout2(StPlayer { mt_counter: 0, ..a }, module);
            &&& b == StPlayer { mt_audtemp: st_effects(q.mt_audtemp), ..q }
            &&& after == before + st_rout2_cmds(StPlayer { mt_counter: 0, ..a }, module)
                + st_tick_cmds(q.mt_audtemp@, 0, 4)
            &&& (b.mt_partnote == 0 || b.mt_partnote == a.mt_partnote + 1) && !b.mt_status
        }
    }
}

/// The channel `chn` of `b` is `ch`, the others and the sequencer as in
/// `a`.
pub open spec fn st_chn_set(a: StPlayer, b: StPlayer, chn: int, ch: AudTemp) -> bool {
    &&& b.mt_audtemp@ == a.mt_audtemp@.update(chn, ch)
    &&& b.options == a.options && b.mt_speed == a.mt_speed && b.mt_partnote == a.mt_partnote
    &&& b.mt_partnrplay == a.mt_partnrplay && b.mt_counter == a.mt_counter && b.mt_maxpart == a.mt_maxpart
    &&& b.mt_status == a.mt_status && b.mt_sample1 == a.mt_sample1
}

/// What a new row's event leaves of the sequencer: the row, the sample
/// addresses and the song length; a speed command restarts the count at a
/// nonzero speed.
pub open spec fn st_row_seq(a: StPlayer, b: StPlayer) -> bool {
    &&& b.options == a.options && b.mt_partnote == a.mt_partnote
    &&& b.mt_sample1 == a.mt_sample1 && b.mt_maxpart == a.mt_maxpart
    &&& (b.mt_speed == a.mt_speed && b.mt_counter == a.mt_counter) || (b.mt_speed > 0 && b.mt_counter == 0)
}

impl StPlayer {
    /// Arpeggio: the period the tick's step above the channel's, where the
    /// table has both.
    fn mt_arpegrt(&self, chn: usize, cmds: &mut Vec<MixerCmd>)
        requires
            chn < 4,
            self.mt_audtemp@[chn as int].n_2_cmd & 0xf == 0,
        ensures
            final(cmds)@ == old(cmds)@ + st_effect_cmds(self.mt_audtemp@[chn as int], self.mt_counter, chn),
    {
        let ch = self.mt_audtemp[chn];
        let e = ch.n_3_cmdlo;
        assert(e >> 4 < 16 && e & 0x0f < 16) by (bit_vector);
        let t = self.mt_counter;
        let val: usize = if t == 1 || t == 4 {
            (e >> 4) as usize
        } else if t == 3 {
            0
        } else {
            (e & 0x0f) as usize
        };
        let ghost step = val as int;
        let mut i: usize = 0;
        while i < 36
            invariant
                i <= 36,
                val < 16,
                step == val,
                step == st_arp_step(e, self.mt_counter),
                chn < 4,
                ch == self.mt_audtemp@[chn as int],
                e == ch.n_3_cmdlo,
                ch.n_2_cmd & 0xf == 0,
                st_arp_index(ch.n_16_period, step, 0) == st_arp_index(ch.n_16_period, step, i as int),
                cmds@ == old(cmds)@,
            decreases 36 - i,
        {
            if ch.n_16_period == st_arp(i) && i + val < 39 {
                let p = st_arp(i + val);
                cmds.push(MixerCmd::SetPeriod(chn, p as i32));
                assert(cmds@ =~= old(cmds)@ + st_effect_cmds(self.mt_audtemp@[chn as int], self.mt_counter, chn));
                return;
            }
            i = i + 1;
        }
        assert(cmds@ =~= old(cmds)@ + st_effect_cmds(self.mt_audtemp@[chn as int], self.mt_counter, chn));
    }

    /// Portamento up: see `st_effect`; the note is played.
    fn mt_portup(&mut self, chn: usize, cmds: &mut Vec<MixerCmd>)
        requires
            chn < 4,
            old(self).mt_audtemp@[chn as int].n_2_cmd & 0xf == 1,
        ensures
            st_chn_set(*old(self), *final(self), chn as int, st_effect(old(self).mt_audtemp@[chn as int])),
            final(cmds)@ == old(cmds)@ + st_effect_cmds(old(self).mt_audtemp@[chn as int], old(self).mt_counter, chn),
    {
        let mut ch = self.mt_audtemp[chn];
        ch.n_22_last_note = ch.n_22_last_note.wrapping_sub(ch.n_3_cmdlo as i16);
        if ch.n_22_last_note < 0x71 {
            ch.n_22_last_note = 0x71;
        }
        self.mt_audtemp[chn] = ch;
        cmds.push(MixerCmd::SetPeriod(chn, ch.n_22_last_note as i32));
        assert(self.mt_audtemp@ =~= old(self).mt_audtemp@.update(chn as int, st_effect(old(self).mt_audtemp@[chn as int])));
        assert(cmds@ =~= old(cmds)@ + st_effect_cmds(old(self).mt_audtemp@[chn as int], old(self).mt_counter, chn));
    }

    /// Portamento down: see `st_effect`; the note is played.
    fn mt_portdown(&mut self, chn: usize, cmds: &mut Vec<MixerCmd>)
        requires
            chn < 4,
            old(self).mt_audtemp@[chn as int].n_2_cmd & 0xf == 2,
        ensures
            st_chn_set(*old(self), *final(self), chn as int, st_effect(old(self).mt_audtemp@[chn as int])),
            final(cmds)@ == old(cmds)@ + st_effect_cmds(old(self).mt_audtemp@[chn as int], old(self).mt_counter, chn),
    {
        let mut ch = self.mt_audtemp[chn];
        ch.n_22_last_note = ch.n_22_last_note.wrapping_add(ch.n_3_cmdlo as i16);
        if ch.n_22_last_note >= 0x358 {
            ch.n_22_last_note = 0x358;
        }
        self.mt_audtemp[chn] = ch;
        cmds.push(MixerCmd::SetPeriod(chn, ch.n_22_last_note as i32));
        assert(self.mt_audtemp@ =~= old(self).mt_audtemp@.update(chn as int, st_effect(old(self).mt_audtemp@[chn as int])));
        assert(cmds@ =~= old(cmds)@ + st_effect_cmds(old(self).mt_audtemp@[chn as int], old(self).mt_counter, chn));
    }

    /// Position jump: the break flag toggled and the position set to the
    /// parameter (the replayer's decrement of it is lost).
    fn mt_posjmp(&mut self, chn: usize)
        requires
            chn < 4,
        ensures
            *final(self) == (StPlayer {
                mt_status: !old(self).mt_status,
                mt_partnrplay: old(self).mt_audtemp@[chn as int].n_3_cmdlo,
                ..*old(self)
            }),
    {
        self.mt_status = !self.mt_status;
        self.mt_partnrplay = self.mt_audtemp[chn].n_3_cmdlo;
    }

    /// Set volume: the parameter.
    fn mt_setvol(&self, chn: usize, cmds: &mut Vec<MixerCmd>)
        requires
            chn < 4,
        ensures
            final(cmds)@ == old(cmds)@.push(MixerCmd::SetVolume(chn, (self.mt_audtemp@[chn as int].n_3_cmdlo * 16) as usize)),
    {
        cmds.push(MixerCmd::SetVolume(chn, self.mt_audtemp[chn].n_3_cmdlo as usize * 16));
    }

    /// Pattern break: toggles the break flag.
    fn mt_break(&mut self)
        ensures
            *final(self) == (StPlayer { mt_status: !old(self).mt_status, ..*old(self) }),
    {
        self.mt_status = !self.mt_status;
    }

    /// Filter: on for a nonzero low nibble.
    fn mt_setfil(&self, chn: usize, cmds: &mut Vec<MixerCmd>)
        requires
            chn < 4,
        ensures
            final(cmds)@ == old(cmds)@.push(MixerCmd::EnableFilter(self.mt_audtemp@[chn as int].n_3_cmdlo & 0x0f != 0)),
    {
        cmds.push(MixerCmd::EnableFilter(self.mt_audtemp[chn].n_3_cmdlo & 0x0f != 0));
    }

    /// Set speed: a parameter with a nonzero low nibble gives that nibble
    /// as the speed and restarts the tick count; the high nibble is masked
    /// off (`and.b #$0f,d0`).
    fn mt_setspeed(&mut self, chn: usize)
        requires
            chn < 4,
        ensures
            ({
                let c = old(self).mt_audtemp@[chn as int].n_3_cmdlo;
                *final(self) == if c & 0x0f != 0 {
                    StPlayer { mt_counter: 0, mt_speed: c & 0x0f, ..*old(self) }
                } else {
                    *old(self)
                }
            }),
    {
        let c = self.mt_audtemp[chn].n_3_cmdlo;
        if c & 0x0f != 0 {
            self.mt_counter = 0;
            self.mt_speed = c & 0x0f;
        }
    }

    /// Plays the event of channel `chn` in the current row of pattern
    /// `pat`: its instrument sets the sample, volume and loop, its note the
    /// period; then the row's command.
    #[verifier::rlimit(40)]
    fn mt_playit(&mut self, pat: usize, chn: usize, module: &StData, cmds: &mut Vec<MixerCmd>)
        requires
            chn < 4,
            pat < 256,
        ensures
            st_row_seq(*old(self), *final(self)),
            *final(self) == st_playit(*old(self), pat as int, chn as int, *module),
            final(cmds)@ == old(cmds)@ + st_playit_cmds(*old(self), pat as int, chn as int, *module),
            final(self).mt_audtemp@[chn as int] == st_played(*old(self), pat as int, chn as int, *module),
    {
        let event = module.patterns.event_or_empty(pat, self.mt_partnote as usize, chn);
        let mut ch = self.mt_audtemp[chn];
        ch.n_0_note = event.note;
        ch.n_2_cmd = event.cmd;
        ch.n_3_cmdlo = event.cmdlo;
        let c = event.cmd;
        assert((c & 0xf0) >> 4 < 16) by (bit_vector);
        let ins = ((c & 0xf0) >> 4) as usize;
        if ins != 0 && ins <= module.instruments.len() {
            let instrument = &module.instruments[ins - 1];
            ch.n_4_samplestart = self.mt_sample1[ins - 1];
            ch.n_8_length = instrument.size;
            ch.n_18_volume = instrument.volume;
            let repeat = instrument.repeat as u32;
            if repeat != 0 {
                ch.n_4_samplestart = ch.n_4_samplestart.wrapping_add(repeat);
                ch.n_10_loopstart = ch.n_4_samplestart;
                ch.n_8_length = instrument.replen;
                ch.n_14_replen = instrument.replen;
            } else {
                ch.n_10_loopstart = ch.n_4_samplestart;
                ch.n_14_replen = instrument.replen;
            }
            cmds.push(MixerCmd::SetVolume(chn, ch.n_18_volume as usize * 16));
            cmds.push(MixerCmd::EnableLoop(chn, instrument.repeat != 0));
            cmds.push(MixerCmd::SetLoopStart(chn, ch.n_10_loopstart.wrapping_sub(ch.n_4_samplestart)));
            cmds.push(MixerCmd::SetLoopEnd(chn, ch.n_10_loopstart.wrapping_add(ch.n_14_replen as u32 * 2)));
        }
        let ghost inst = st_event_instrument(event, *module);
        let ghost c1 = ch;
        assert(c1 == st_take(old(self).mt_audtemp@[chn as int], event, inst, ((event.cmd & 0xf0) >> 4) as int,
            old(self).mt_sample1@));
        assert(cmds@ =~= old(cmds)@ + st_take_cmds(chn, c1, inst));
        let ghost take_cmds = cmds@;
        if ch.n_0_note != 0 {
            ch.n_16_period = ch.n_0_note as i16;
            cmds.push(MixerCmd::SetSamplePtr(chn, ch.n_4_samplestart));
            cmds.push(MixerCmd::SetPeriod(chn, ch.n_0_note as i32));
            ch.n_22_last_note = ch.n_0_note as i16;
        }
        self.mt_audtemp[chn] = ch;
        proof {
            let e = st_event(*module, pat as int, old(self).mt_partnote as int, chn as int);
            assert(event == e);
            assert(ch == st_played(*old(self), pat as int, chn as int, *module));
            assert(self.mt_audtemp =~= st_chans_with(old(self).mt_audtemp, chn as int, ch));
        }
        assert(cmds@ =~= take_cmds + st_note_cmds(c1, chn));
        self.mt_nonewper(chn, cmds);
        assert(cmds@ =~= old(cmds)@ + st_playit_cmds(*old(self), pat as int, chn as int, *module));
    }

    /// The row's command of channel `chn`: position jump, volume, break,
    /// filter or speed (see `st_row_cmd`).
    fn mt_nonewper(&mut self, chn: usize, cmds: &mut Vec<MixerCmd>)
        requires
            chn < 4,
        ensures
            *final(self) == st_row_cmd(*old(self), chn as int),
            final(cmds)@ == old(cmds)@ + st_row_cmd_cmds(old(self).mt_audtemp@[chn as int], chn),
            st_row_seq(*old(self), *final(self)),
    {
        let ch = self.mt_audtemp[chn];
        let cmd = ch.n_2_cmd & 0x0f;
        if cmd == 0xb {
            self.mt_posjmp(chn);
        } else if cmd == 0xc {
            self.mt_setvol(chn, cmds);
        } else if cmd == 0xd {
            self.mt_break();
        } else if cmd == 0xe {
            self.mt_setfil(chn, cmds);
        } else if cmd == 0xf {
            self.mt_setspeed(chn);
            proof {
                let c = ch.n_3_cmdlo;
                assert(c & 0x0f != 0 ==> c > 0) by (bit_vector);
            }
        }
        assert(cmds@ =~= old(cmds)@ + st_row_cmd_cmds(ch, chn));
    }

    /// To row 0 of the next position, the first past the song's end.
    fn mt_higher(&mut self)
        ensures
            ({
                let p = old(self).mt_partnrplay.wrapping_add(1);
                *final(self) == (StPlayer {
                    mt_partnote: 0,
                    mt_partnrplay: if p as u16 >= old(self).mt_maxpart { 0 } else { p },
                    ..*old(self)
                })
            }),
    {
        self.mt_partnote = 0;
        self.mt_partnrplay = self.mt_partnrplay.wrapping_add(1);
        if self.mt_partnrplay as u16 >= self.mt_maxpart {
            self.mt_partnrplay = 0;
        }
    }

    /// A new row within the 128 positions: the four channels read their
    /// events (a channel without a loop restarts at its loop), and the row
    /// advances, to the next position past row 63 or on a break.
    fn mt_rout2(&mut self, module: &StData, cmds: &mut Vec<MixerCmd>)
        requires
            old(self).mt_partnote < 64,
            old(self).mt_counter == 0,
            old(self).mt_speed > 0,
        ensures
            final(self).mt_counter == 0 && final(self).mt_speed > 0 && final(self).mt_partnote < 64,
            final(self).options == old(self).options && final(self).mt_sample1 == old(self).mt_sample1,
            final(self).mt_maxpart == old(self).mt_maxpart,
            old(self).mt_partnrplay >= 128 ==> *final(self) == *old(self) && final(cmds)@ == old(cmds)@,
            old(self).mt_partnrplay < 128 ==> {
                &&& *final(self) == st_rout2(*old(self), *module)
                &&& final(cmds)@ == old(cmds)@ + st_rout2_cmds(*old(self), *module)
                &&& final(self).mt_partnote == 0 || final(self).mt_partnote == old(self).mt_partnote + 1
                &&& !final(self).mt_status
            },
    {
        let pat = match module.pattern_in_position(self.mt_partnrplay as usize) {
            Some(val) => val,
            None => return,
        };
        let mut chn: usize = 0;
        while chn < 4
            invariant
                chn <= 4,
                pat < 256,
                self.mt_counter == 0 && self.mt_speed > 0,
                self.mt_partnote == old(self).mt_partnote,
                self.options == old(self).options && self.mt_sample1 == old(self).mt_sample1,
                self.mt_maxpart == old(self).mt_maxpart,
                pat == module.orders@[old(self).mt_partnrplay as int],
                *self == st_voices(*old(self), pat as int, *module, chn as int),
                cmds@ == old(cmds)@ + st_voices_cmds(*old(self), pat as int, *module, chn as int),
            decreases 4 - chn,
        {
            self.mt_playit(pat, chn, module, cmds);
            let ch = self.mt_audtemp[chn];
            if ch.n_14_replen == 1 {
                cmds.push(MixerCmd::SetSamplePtr(chn, ch.n_10_loopstart.wrapping_sub(ch.n_4_samplestart)));
            }
            assert(cmds@ =~= old(cmds)@ + st_voices_cmds(*old(self), pat as int, *module, chn as int + 1));
            chn = chn + 1;
        }
        self.mt_partnote = self.mt_partnote + 1;
        if self.mt_partnote == 64 {
            self.mt_higher();
        }
        if self.mt_status {
            self.mt_status = false;
            self.mt_higher();
        }
    }

    /// One tick: see `st_tick`.
    fn mt_music(&mut self, module: &StData, cmds: &mut Vec<MixerCmd>)
        requires
            st_wf(*old(self)),
        ensures
            st_tick(*old(self), *final(self), *module, old(cmds)@, final(cmds)@),
    {
        self.mt_counter = self.mt_counter + 1;
        if self.mt_counter == self.mt_speed {
            self.mt_counter = 0;
            self.mt_rout2(module, cmds);
        }
        let ghost s0 = self.mt_audtemp@;
        let ghost mid = *self;
        let ghost mid_cmds = cmds@;
        let mut chn: usize = 0;
        while chn < 4
            invariant
                chn <= 4,
                s0 == mid.mt_audtemp@,
                self.mt_counter == mid.mt_counter && self.mt_speed == mid.mt_speed,
                self.mt_partnote == mid.mt_partnote && self.mt_partnrplay == mid.mt_partnrplay,
                self.mt_status == mid.mt_status && self.options == mid.options,
                self.mt_sample1 == mid.mt_sample1 && self.mt_maxpart == mid.mt_maxpart,
                forall|c: int| 0 <= c < chn ==> #[trigger] self.mt_audtemp@[c] == st_effect(s0[c]),
                forall|c: int| chn <= c < 4 ==> #[trigger] self.mt_audtemp@[c] == s0[c],
                cmds@ == mid_cmds + st_tick_cmds(s0, self.mt_counter, chn as int),
            decreases 4 - chn,
        {
            let cmd = self.mt_audtemp[chn].n_2_cmd & 0xf;
            if cmd == 0 {
                self.mt_arpegrt(chn, cmds);
            } else if cmd == 1 {
                self.mt_portup(chn, cmds);
            } else if cmd == 2 {
                self.mt_portdown(chn, cmds);
            }
            assert(cmds@ =~= mid_cmds + st_tick_cmds(s0, self.mt_counter, chn as int + 1));
            assert(self.mt_audtemp@[chn as int] == st_effect(s0[chn as int]));
            chn = chn + 1;
        }
        assert(self.mt_audtemp =~= st_effects(mid.mt_audtemp));
    }

    /// A replayer at the start of `module`'s song: speed 6, silent
    /// channels, no sample addresses yet, the song length taken.
    pub fn new(module: &StData, options: Options) -> (r: Self)
        ensures
            st_wf(r),
            r.options == options,
            r.mt_speed == 6 && r.mt_partnote == 0 && r.mt_partnrplay == 0 && r.mt_counter == 0,
            r.mt_maxpart == module.song_length && !r.mt_status,
            forall|i: int| 0 <= i < 31 ==> r.mt_sample1@[i] == 0,
            forall|c: int| 0 <= c < 4 ==> #[trigger] r.mt_audtemp@[c] == st_silent_channel(),
    {
        let c = AudTemp::new();
        StPlayer {
            options,
            mt_speed: 6,
            mt_partnote: 0,
            mt_partnrplay: 0,
            mt_counter: 0,
            mt_maxpart: module.song_length as u16,
            mt_status: false,
            mt_sample1: [0; 31],
            mt_audtemp: [c, c, c, c],
        }
    }

    /// Prepares the replay of `module`: the 15 sample addresses taken,
    /// speed 6 and the module's tempo reported (and kept as the initial
    /// ones), the channels panned left, right, right, left by 70 percent,
    /// and Amiga emulation switched on.
    pub fn start(&mut self, data: &mut PlayerData, module: &StData, cmds: &mut Vec<MixerCmd>)
        requires
            module.samples@.len() >= 15,
        ensures
            *final(self) == (StPlayer { mt_sample1: final(self).mt_sample1, ..*old(self) }),
            forall|i: int| 0 <= i < 15 ==> #[trigger] final(self).mt_sample1@[i] == module.samples@[i].address,
            forall|i: int| 15 <= i < 31 ==> #[trigger] final(self).mt_sample1@[i] == old(self).mt_sample1@[i],
            *final(data) == (PlayerData {
                speed: 6,
                tempo: module.tempo as usize,
                initial_speed: 6,
                initial_tempo: module.tempo as usize,
                ..*old(data)
            }),
            final(cmds)@ == old(cmds)@ + seq![
                MixerCmd::SetPan(0, -89isize), MixerCmd::SetPan(1, 88isize), MixerCmd::SetPan(2, 88isize),
                MixerCmd::SetPan(3, -89isize), MixerCmd::EnablePaula(true),
            ],
    {
        let mut i: usize = 0;
        while i < 15
            invariant
                i <= 15,
                module.samples@.len() >= 15,
                *self == (StPlayer { mt_sample1: self.mt_sample1, ..*old(self) }),
                forall|j: int| 0 <= j < i ==> #[trigger] self.mt_sample1@[j] == module.samples@[j].address,
                forall|j: int| i <= j < 31 ==> #[trigger] self.mt_sample1@[j] == old(self).mt_sample1@[j],
            decreases 15 - i,
        {
            self.mt_sample1[i] = module.samples[i].address;
            i = i + 1;
        }
        data.speed = 6;
        data.tempo = module.tempo as usize;
        data.initial_speed = data.speed;
        data.initial_tempo = data.tempo;
        let pan: isize = match self.options.option_int("pan") {
            Some(val) => val,
            None => 70,
        };
        let panl = -128 * pan / 100;
        let panr = 127 * pan / 100;
        let ghost pre = cmds@;
        cmds.push(MixerCmd::SetPan(0, panl));
        cmds.push(MixerCmd::SetPan(1, panr));
        cmds.push(MixerCmd::SetPan(2, panr));
        cmds.push(MixerCmd::SetPan(3, panl));
        cmds.push(MixerCmd::EnablePaula(true));
        assert(cmds@ =~= pre + seq![
            MixerCmd::SetPan(0, -89isize), MixerCmd::SetPan(1, 88isize), MixerCmd::SetPan(2, 88isize),
            MixerCmd::SetPan(3, -89isize), MixerCmd::EnablePaula(true),
        ]);
    }

    /// Plays one tick (see `st_tick`) and reports the tick, row, position
    /// and speed.
    pub fn play(&mut self, data: &mut PlayerData, module: &StData, cmds: &mut Vec<MixerCmd>)
        requires
            st_wf(*old(self)),
        ensures
            st_tick(*old(self), *final(self), *module, old(cmds)@, final(cmds)@),
            *final(data) == (PlayerData {
                frame: final(self).mt_counter as usize,
                row: final(self).mt_partnote as usize,
                pos: final(self).mt_partnrplay as usize,
                speed: final(self).mt_speed as usize,
                ..*old(data)
            }),
    {
        self.mt_music(module, cmds);
        data.frame = self.mt_counter as usize;
        data.row = self.mt_partnote as usize;
        data.pos = self.mt_partnrplay as usize;
        data.speed = self.mt_speed as usize;
    }

    /// Back to the start of the song at speed 6; the channels stay.
    pub fn reset(&mut self)
        ensures
            *final(self) == (StPlayer {
                mt_speed: 6,
                mt_counter: 0,
                mt_partnrplay: 0,
                mt_status: false,
                mt_partnote: 0,
                ..*old(self)
            }),
    {
        self.mt_speed = 6;
        self.mt_counter = 0;
        self.mt_partnrplay = 0;
        self.mt_status = false;
        self.mt_partnote = 0;
    }
}

/// `s` is at tick `k` of the row, position and speed of `s0`.
pub open spec fn st_counts_from(s: StPlayer, s0: StPlayer, k: int) -> bool {
    s.mt_counter == k && s.mt_partnote == s0.mt_partnote && s.mt_partnrplay == s0.mt_partnrplay
        && s.mt_speed == s0.mt_speed
}

/// The tick count, row, position and speed of a tick from `a` to `b`.
pub open spec fn st_tick_counts(a: StPlayer, b: StPlayer) -> bool {
    &&& a.mt_counter + 1 != a.mt_speed ==> b.mt_counter == a.mt_counter + 1 && b.mt_partnote == a.mt_partnote
        && b.mt_partnrplay == a.mt_partnrplay && b.mt_speed == a.mt_speed
    &&& a.mt_counter + 1 == a.mt_speed ==> b.mt_counter == 0
}

/// `p` is a replayer just started for `module`: speed 6, at the start of
/// the song, silent channels, the song length and sample addresses taken.
pub open spec fn st_started(p: StPlayer, module: StData) -> bool {
    &&& p.mt_speed == 6 && p.mt_partnote == 0 && p.mt_partnrplay == 0 && p.mt_counter == 0
    &&& p.mt_maxpart == module.song_length && !p.mt_status
    &&& forall|c: int| 0 <= c < 4 ==> #[trigger] p.mt_audtemp@[c] == st_silent_channel()
    &&& forall|i: int| 0 <= i < 15 ==> #[trigger] p.mt_sample1@[i] == module.samples@[i].address
    &&& forall|i: int| 15 <= i < 31 ==> #[trigger] p.mt_sample1@[i] == 0
}

proof fn lemma_st_counts(states: Seq<StPlayer>)
    requires
        states.len() >= 1,
        states[0].mt_counter == 0,
        states.len() - 1 <= states[0].mt_speed,
        forall|k: int| 0 <= k < states.len() - 1 ==> #[trigger] st_tick_counts(states[k], states[k + 1]),
    ensures
        forall|k: int| 0 <= k < states.len() && k < states[0].mt_speed ==> #[trigger] st_counts_from(states[k], states[0], k),
        states.len() - 1 == states[0].mt_speed ==> states[states.len() - 1].mt_counter == 0,
    decreases states.len(),
{
    if states.len() > 1 {
        let prefix = states.drop_last();
        assert forall|k: int| 0 <= k < prefix.len() - 1 implies #[trigger] st_tick_counts(prefix[k], prefix[k + 1]) by {
            assert(st_tick_counts(states[k], states[k + 1]));
        }
        lemma_st_counts(prefix);
        let k: int = states.len() - 2;
        assert(st_tick_counts(states[k], states[k + 1]));
        assert(prefix[k] == states[k] && prefix[0] == states[0]);
        assert(st_counts_from(prefix[k], prefix[0], k));
        assert forall|j: int| 0 <= j < states.len() && j < states[0].mt_speed implies
            #[trigger] st_counts_from(states[j], states[0], j) by {
            if j < prefix.len() {
                assert(prefix[j] == states[j]);
                assert(st_counts_from(prefix[j], prefix[0], j));
            }
        }
    }
}

/// Every row lasts as many ticks as the speed: from the first tick of a
/// row at speed `s`, each of the next `s - 1` ticks advances the tick count
/// and keeps the row, the position and the speed, and the tick after them
/// starts the next row.
pub proof fn lemma_st_row_lasts_speed_ticks(states: Seq<StPlayer>, cmds: Seq<Seq<MixerCmd>>, module: StData)
    requires
        states.len() >= 1,
        cmds.len() == states.len(),
        states[0].mt_counter == 0,
        states.len() - 1 <= states[0].mt_speed,
        forall|k: int| 0 <= k < states.len() - 1 ==> #[trigger] st_tick(states[k], states[k + 1], module, cmds[k], cmds[k + 1]),
    ensures
        forall|k: int| 0 <= k < states.len() && k < states[0].mt_speed ==> #[trigger] st_counts_from(states[k], states[0], k),
        states.len() - 1 == states[0].mt_speed ==> states[states.len() - 1].mt_counter == 0,
{
    assert forall|k: int| 0 <= k < states.len() - 1 implies #[trigger] st_tick_counts(states[k], states[k + 1]) by {
        assert(st_tick(states[k], states[k + 1], module, cmds[k], cmds[k + 1]));
    }
    lemma_st_counts(states);
}

} // verus!
