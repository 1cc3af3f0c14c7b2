//! The Ultimate Soundtracker V27 replayer, after the replay routine of
//! Karsten Obarski (1987-1988): six ticks a row, arpeggio and pitch bend.
//!
//! The replayer works on its sequencer state and on four channels; what it
//! asks of the mixer it appends to a list of commands.

use vstd::prelude::*;
use crate::format::mk::{ModEvent, ModInstrument, event_or_empty};
use crate::format::st::StData;
use crate::player::{MixerCmd, PlayerData};
use crate::player::options::Options;

verus! {

/// The note table: three octaves of periods and a trailing zero.
pub open spec fn ust_notes() -> Seq<i16> {
    seq![
        856i16, 808, 762, 720, 678, 640, 604, 570,
        538, 508, 480, 453, 428, 404, 381, 360,
        339, 320, 302, 285, 269, 254, 240, 226,
        214, 202, 190, 180, 170, 160, 151, 143,
        135, 127, 120, 113, 0,
    ]
}

fn ust_note(i: usize) -> (r: i16)
    requires
        i < 37,
    ensures
        r == ust_notes()[i as int],
{
    let t: [i16; 37] = [
        856, 808, 762, 720, 678, 640, 604, 570,
        538, 508, 480, 453, 428, 404, 381, 360,
        339, 320, 302, 285, 269, 254, 240, 226,
        214, 202, 190, 180, 170, 160, 151, 143,
        135, 127, 120, 113, 0,
    ];
    assert(t@ =~= ust_notes());
    t[i]
}

/// The state of a channel, named after its offset in the replayer's
/// channel record.
#[derive(Clone, Copy, Debug)]
pub struct DataChnx {
    pub n_0_note: i16,
    pub n_2_sound_number: u8,
    pub n_3_effect_number: u8,
    pub n_4_soundstart: u32,
    pub n_8_soundlength: u16,
    pub n_10_repeatstart: u32,
    pub n_14_repeatlength: u16,
    pub n_16_last_saved_note: i16,
    pub n_18_volume: i16,
    pub n_20_volume_trigger: i16,
}

/// A silent channel: every value zero.
pub open spec fn ust_silent_channel() -> DataChnx {
    DataChnx {
        n_0_note: 0,
        n_2_sound_number: 0,
        n_3_effect_number: 0,
        n_4_soundstart: 0,
        n_8_soundlength: 0,
        n_10_repeatstart: 0,
        n_14_repeatlength: 0,
        n_16_last_saved_note: 0,
        n_18_volume: 0,
        n_20_volume_trigger: 0,
    }
}

impl DataChnx {
    /// A silent channel: every value zero.
    pub fn new() -> (r: Self)
        ensures
            r == ust_silent_channel(),
    {
        DataChnx {
            n_0_note: 0,
            n_2_sound_number: 0,
            n_3_effect_number: 0,
            n_4_soundstart: 0,
            n_8_soundlength: 0,
            n_10_repeatstart: 0,
            n_14_repeatlength: 0,
            n_16_last_saved_note: 0,
            n_18_volume: 0,
            n_20_volume_trigger: 0,
        }
    }
}

/// The volume a channel keeps comes from an instrument byte.
pub open spec fn ust_channel_wf(ch: DataChnx) -> bool {
    0 <= ch.n_18_volume <= 255
}

/// The Ultimate Soundtracker replayer: the sequencer, the sample addresses
/// and the four channels.
pub struct USTPlayer {
    pub options: Options,
    pub datachn: [DataChnx; 4],
    pub pointers: [u32; 15],
    pub trkpos: u16,
    pub patpos: u8,
    pub numpat: u16,
    pub timpos: u16,
}

/// What the replayer keeps between ticks: a tick below 6, a row within the
/// pattern, a position within the 128 (or just past them), well formed
/// channels.
pub open spec fn ust_wf(p: USTPlayer) -> bool {
    &&& p.timpos < 6
    &&& p.patpos < 64
    &&& p.trkpos <= 128
    &&& forall|c: int| 0 <= c < 4 ==> ust_channel_wf(#[trigger] p.datachn@[c])
}

/// The arpeggio step at tick `timpos`: the high nibble on ticks 1 and 4,
/// the low one on ticks 2 and 5, none otherwise.
pub open spec fn ust_arp_step(effect: u8, timpos: u16) -> int {
    if timpos == 1 || timpos == 4 {
        (effect >> 4) as int
    } else if timpos == 2 || timpos == 5 {
        (effect & 0x0f) as int
    } else {
        0
    }
}

/// The first `j` from `i` below 36 at which the table holds `note` and has
/// an entry `step` further; 36 if there is none.
pub open spec fn ust_arp_index(note: i16, step: int, j: int) -> int
    decreases 36 - j,
{
    if j >= 36 {
        36
    } else if note == ust_notes()[j] && j + step < 37 {
        j
    } else {
        ust_arp_index(note, step, j + 1)
    }
}

/// Pitch bend: the note up by the high nibble of the effect, or else down
/// by the low one (16-bit arithmetic that wraps).
pub open spec fn ust_pitchbend_note(ch: DataChnx) -> i16 {
    let hi = (ch.n_3_effect_number >> 4) as i16;
    let lo = (ch.n_3_effect_number & 0x0f) as i16;
    if hi != 0 { ch.n_0_note.wrapping_add(hi) } else if lo != 0 { ch.n_0_note.wrapping_sub(lo) } else { ch.n_0_note }
}

/// A pitch bend moves the note by the effect's high nibble where it is
/// not 0, else back by its low nibble, for a note within the 16-bit range.
pub proof fn lemma_ust_pitchbend_direction(ch: DataChnx)
    requires
        -32000 <= ch.n_0_note <= 32000,
    ensures
        ({
            let x = ch.n_3_effect_number;
            let n = ust_pitchbend_note(ch);
            &&& x >> 4 != 0 ==> n == ch.n_0_note + (x >> 4) && n > ch.n_0_note
            &&& x >> 4 == 0 && x & 0x0f != 0 ==> n == ch.n_0_note - (x & 0x0f) && n < ch.n_0_note
        }),
{
    crate::player::st3::lemma_nibbles(ch.n_3_effect_number);
}

/// The channel after the effect of a tick between rows: a pitch bend moves
/// the note.
pub open spec fn ust_effect(ch: DataChnx) -> DataChnx {
    if ch.n_3_effect_number != 0 && ch.n_2_sound_number & 0x0f == 2 {
        DataChnx { n_0_note: ust_pitchbend_note(ch), ..ch }
    } else {
        ch
    }
}

/// The commands of the effect of tick `timpos` on channel `chn`: an
/// arpeggio plays the note `step` above the last note, a pitch bend the
/// moved note.
pub open spec fn ust_effect_cmds(ch: DataChnx, timpos: u16, chn: usize) -> Seq<MixerCmd> {
    if ch.n_3_effect_number == 0 {
        seq![]
    } else if ch.n_2_sound_number & 0x0f == 1 {
        let step = ust_arp_step(ch.n_3_effect_number, timpos);
        let j = ust_arp_index(ch.n_16_last_saved_note, step, 0);
        if j < 36 { seq![MixerCmd::SetPeriod(chn, ust_notes()[j + step] as i32)] } else { seq![] }
    } else if ch.n_2_sound_number & 0x0f == 2 && ch.n_3_effect_number != 0 {
        seq![MixerCmd::SetPeriod(chn, ust_pitchbend_note(ch) as i32)]
    } else {
        seq![]
    }
}

/// The commands of the effects of tick `timpos` for the first `n`
/// channels, in channel order.
pub open spec fn ust_tick_cmds(s: Seq<DataChnx>, timpos: u16, n: int) -> Seq<MixerCmd>
    decreases n,
{
    if n <= 0 { seq![] } else { ust_tick_cmds(s, timpos, n - 1) + ust_effect_cmds(s[n - 1], timpos, (n - 1) as usize) }
}

/// The instrument an event names in its sound number, if the module has
/// it.
pub open spec fn ust_event_instrument(e: ModEvent, module: StData) -> Option<ModInstrument> {
    let ins = (e.cmd >> 4) as int;
    if 0 < ins <= module.instruments@.len() { Some(module.instruments@[ins - 1]) } else { None }
}

/// The channel after reading event `e` with its instrument `inst` (number
/// `ins`): note and effect, then the instrument's start, length, volume and
/// repeat (a repeat length other than 1 repeats the whole sound).
pub open spec fn ust_take_event(ch: DataChnx, e: ModEvent, inst: Option<ModInstrument>, ins: int, pointers: Seq<u32>) -> DataChnx {
    let c = DataChnx { n_0_note: e.note as i16, n_2_sound_number: e.cmd, n_3_effect_number: e.cmdlo, ..ch };
    match inst {
        None => c,
        Some(i) => {
            let start = pointers[ins - 1];
            if i.replen != 1 {
                DataChnx {
                    n_4_soundstart: start,
                    n_8_soundlength: i.replen,
                    n_18_volume: i.volume as i16,
                    n_10_repeatstart: start,
                    n_14_repeatlength: i.replen,
                    ..c
                }
            } else {
                DataChnx {
                    n_4_soundstart: start,
                    n_8_soundlength: i.size,
                    n_18_volume: i.volume as i16,
                    n_10_repeatstart: start.wrapping_add(i.repeat as u32),
                    n_14_repeatlength: i.replen,
                    ..c
                }
            }
        },
    }
}

/// The commands of reading an instrument: its volume, the loop switch.
pub open spec fn ust_take_cmds(chn: usize, inst: Option<ModInstrument>) -> Seq<MixerCmd> {
    match inst {
        None => seq![],
        Some(i) => seq![MixerCmd::SetVolume(chn, (i.volume * 16) as usize), MixerCmd::EnableLoop(chn, i.replen != 1)],
    }
}

/// The channel after its note: a note is saved for the effects and its
/// volume triggered.
pub open spec fn ust_note_channel(c: DataChnx) -> DataChnx {
    if c.n_0_note != 0 {
        DataChnx { n_16_last_saved_note: c.n_0_note, n_20_volume_trigger: c.n_18_volume, ..c }
    } else {
        c
    }
}

/// The commands of a note: the sound from its start with its repeat, then
/// the period.
pub open spec fn ust_note_cmds(c: DataChnx, chn: usize) -> Seq<MixerCmd> {
    if c.n_0_note != 0 {
        let ls = c.n_10_repeatstart.wrapping_sub(c.n_4_soundstart);
        seq![
            MixerCmd::SetSamplePtr(chn, c.n_4_soundstart),
            MixerCmd::SetLoopStart(chn, ls),
            MixerCmd::SetLoopEnd(chn, ls.wrapping_add((c.n_14_repeatlength * 2) as u32)),
            MixerCmd::SetPeriod(chn, c.n_0_note as i32),
        ]
    } else {
        seq![]
    }
}

/// The event of channel `c` in row `row` of pattern `pat`.
pub open spec fn ust_event(module: StData, pat: int, row: int, c: int) -> ModEvent {
    event_or_empty(module.patterns.events(), (pat * 64 + row) * module.patterns.spec_chn() + c)
}

/// The channel `ch` after its event `e` of a new row.
pub open spec fn ust_row_channel(ch: DataChnx, e: ModEvent, module: StData, pointers: Seq<u32>) -> DataChnx {
    ust_note_channel(ust_take_event(ch, e, ust_event_instrument(e, module), (e.cmd >> 4) as int, pointers))
}

/// The commands of channel `chn` reading its event `e` of a new row.
pub open spec fn ust_row_cmds(ch: DataChnx, e: ModEvent, module: StData, pointers: Seq<u32>, chn: usize) -> Seq<MixerCmd> {
    let inst = ust_event_instrument(e, module);
    ust_take_cmds(chn, inst) + ust_note_cmds(ust_take_event(ch, e, inst, (e.cmd >> 4) as int, pointers), chn)
}

/// The commands of a new row (row `row` of pattern `pat`) for the first
/// `n` channels, in channel order.
pub open spec fn ust_row_all_cmds(s: Seq<DataChnx>, module: StData, pointers: Seq<u32>, pat: int, row: int, n: int) -> Seq<MixerCmd>
    decreases n,
{
    if n <= 0 {
        seq![]
    } else {
        ust_row_all_cmds(s, module, pointers, pat, row, n - 1)
            + ust_row_cmds(s[n - 1], ust_event(module, pat, row, n - 1), module, pointers, (n - 1) as usize)
    }
}

/// One tick of the replay from `a` to `b`, the commands going from
/// `before` to `after`. Ticks 1 to 5 run the effects; the sixth starts the
/// count again and, within the 128 positions, reads the row of every
/// channel and moves to the next row, past row 63 to the next position
/// (the first after the last).
pub open spec fn ust_tick(a: USTPlayer, b: USTPlayer, module: StData, before: Seq<MixerCmd>, after: Seq<MixerCmd>) -> bool {
    &&& ust_wf(b)
    &&& b.options == a.options && b.pointers == a.pointers && b.numpat == a.numpat
    &&& a.timpos + 1 != 6 ==> {
        &&& b.timpos == a.timpos + 1
        &&& b.patpos == a.patpos && b.trkpos == a.trkpos
        &&& forall|c: int| 0 <= c < 4 ==> #[trigger] b.datachn@[c] == ust_effect(a.datachn@[c])
        &&& after == before + ust_tick_cmds(a.datachn@, (a.timpos + 1) as u16, 4)
    }
    &&& a.timpos + 1 == 6 ==> {
        &&& b.timpos == 0
        &&& a.trkpos >= 128 ==> b.patpos == a.patpos && b.trkpos == a.trkpos && b.datachn == a.datachn && after == before
        &&& a.trkpos < 128 ==> {
            let pat = module.orders@[a.trkpos as int] as int;
            &&& forall|c: int| 0 <= c < 4 ==> #[trigger] b.datachn@[c]
                == ust_row_channel(a.datachn@[c], ust_event(module, pat, a.patpos as int, c), module, a.pointers@)
            &&& after == before + ust_row_all_cmds(a.datachn@, module, a.pointers@, pat, a.patpos as int, 4)
            &&& b.patpos == (if a.patpos + 1 == 64 { 0 } else { a.patpos + 1 })
            &&& b.trkpos == (if a.patpos + 1 == 64 {
                if a.trkpos + 1 == a.numpat { 0 } else { a.trkpos + 1 }
            } else {
                a.trkpos as int
            })
        }
    }
}

/// The channel `chn` of `b` is `ch`, the others and the sequencer as in
/// `a`.
pub open spec fn ust_chn_set(a: USTPlayer, b: USTPlayer, chn: int, ch: DataChnx) -> bool {
    &&& b.datachn@ == a.datachn@.update(chn, ch)
    &&& b.options == a.options && b.pointers == a.pointers && b.trkpos == a.trkpos
    &&& b.patpos == a.patpos && b.numpat == a.numpat && b.timpos == a.timpos
}

impl USTPlayer {
    /// Arpeggio: the note the tick's step above the last saved note, where
    /// the table has both.
    fn arpreggiato(&self, chn: usize, cmds: &mut Vec<MixerCmd>)
        requires
            chn < 4,
            self.datachn@[chn as int].n_3_effect_number != 0,
            self.datachn@[chn as int].n_2_sound_number & 0x0f == 1,
        ensures
            final(cmds)@ == old(cmds)@ + ust_effect_cmds(self.datachn@[chn as int], self.timpos, chn),
    {
        let ch = self.datachn[chn];
        let e = ch.n_3_effect_number;
        assert(e >> 4 < 16 && e & 0x0f < 16) by (bit_vector);
        let t = self.timpos;
        let val: usize = if t == 1 || t == 4 {
            (e >> 4) as usize
        } else if t == 2 || t == 5 {
            (e & 0x0f) as usize
        } else {
            0
        };
        let ghost step = val as int;
        let mut i: usize = 0;
        while i < 36
            invariant
                i <= 36,
                val < 16,
                step == val,
                step == ust_arp_step(e, self.timpos),
                chn < 4,
                ch == self.datachn@[chn as int],
                e == ch.n_3_effect_number,
                e != 0,
                ch.n_2_sound_number & 0x0f == 1,
                ust_arp_index(ch.n_16_last_saved_note, step, 0) == ust_arp_index(ch.n_16_last_saved_note, step, i as int),
                cmds@ == old(cmds)@,
            decreases 36 - i,
        {
            if ch.n_16_last_saved_note == ust_note(i) && i + val < 37 {
                let p = ust_note(i + val);
                cmds.push(MixerCmd::SetPeriod(chn, p as i32));
                assert(cmds@ =~= old(cmds)@ + ust_effect_cmds(self.datachn@[chn as int], self.timpos, chn));
                return;
            }
            i = i + 1;
        }
        assert(cmds@ =~= old(cmds)@ + ust_effect_cmds(self.datachn@[chn as int], self.timpos, chn));
    }

    /// Pitch bend: see `ust_pitchbend_note`; a moved note is played.
    fn pitchbend(&mut self, chn: usize, cmds: &mut Vec<MixerCmd>)
        requires
            chn < 4,
            old(self).datachn@[chn as int].n_3_effect_number != 0,
            old(self).datachn@[chn as int].n_2_sound_number & 0x0f == 2,
        ensures
            ust_chn_set(*old(self), *final(self), chn as int, ust_effect(old(self).datachn@[chn as int])),
            final(cmds)@ == old(cmds)@ + ust_effect_cmds(old(self).datachn@[chn as int], old(self).timpos, chn),
    {
        let mut ch = self.datachn[chn];
        let e = ch.n_3_effect_number;
        assert(e != 0 ==> (e >> 4 != 0 || e & 0x0f != 0)) by (bit_vector);
        let val = (e >> 4) as i16;
        if val != 0 {
            ch.n_0_note = ch.n_0_note.wrapping_add(val);
            self.datachn[chn] = ch;
            cmds.push(MixerCmd::SetPeriod(chn, ch.n_0_note as i32));
        } else {
            let val = (e & 0x0f) as i16;
            if val != 0 {
                ch.n_0_note = ch.n_0_note.wrapping_sub(val);
                self.datachn[chn] = ch;
                cmds.push(MixerCmd::SetPeriod(chn, ch.n_0_note as i32));
            }
        }
        assert(self.datachn@ =~= old(self).datachn@.update(chn as int, ust_effect(old(self).datachn@[chn as int])));
        assert(cmds@ =~= old(cmds)@ + ust_effect_cmds(old(self).datachn@[chn as int], old(self).timpos, chn));
    }

    /// The effect of a channel with an effect parameter: arpeggio or pitch
    /// bend.
    fn ceff5(&mut self, chn: usize, cmds: &mut Vec<MixerCmd>)
        requires
            chn < 4,
            old(self).datachn@[chn as int].n_3_effect_number != 0,
        ensures
            ust_chn_set(*old(self), *final(self), chn as int, ust_effect(old(self).datachn@[chn as int])),
            final(cmds)@ == old(cmds)@ + ust_effect_cmds(old(self).datachn@[chn as int], old(self).timpos, chn),
    {
        let s = self.datachn[chn].n_2_sound_number & 0x0f;
        if s == 1 {
            self.arpreggiato(chn, cmds);
        } else if s == 2 {
            self.pitchbend(chn, cmds);
        }
        assert(self.datachn@ =~= old(self).datachn@.update(chn as int, ust_effect(old(self).datachn@[chn as int])));
        assert(cmds@ =~= old(cmds)@ + ust_effect_cmds(old(self).datachn@[chn as int], old(self).timpos, chn));
    }

    /// The event of channel `chn` in the current row of pattern `pat`: its
    /// instrument, then its note (see `ust_row_channel`).
    fn chanelhandler(&mut self, pat: usize, chn: usize, module: &StData, cmds: &mut Vec<MixerCmd>)
        requires
            chn < 4,
            pat < 256,
            ust_wf(*old(self)),
        ensures
            ust_wf(*final(self)),
            ust_chn_set(*old(self), *final(self), chn as int, ust_row_channel(old(self).datachn@[chn as int],
                ust_event(*module, pat as int, old(self).patpos as int, chn as int), *module, old(self).pointers@)),
            final(cmds)@ == old(cmds)@ + ust_row_cmds(old(self).datachn@[chn as int],
                ust_event(*module, pat as int, old(self).patpos as int, chn as int), *module, old(self).pointers@, chn),
    {
        let event = module.patterns.event_or_empty(pat, self.patpos as usize, chn);
        let mut ch = self.datachn[chn];
        ch.n_0_note = event.note as i16;
        ch.n_2_sound_number = event.cmd;
        ch.n_3_effect_number = event.cmdlo;
        let ins = (event.cmd >> 4) as usize;
        if ins != 0 && ins <= module.instruments.len() {
            let instrument = &module.instruments[ins - 1];
            assert(ins - 1 < 15) by {
                let c = event.cmd;
                assert(c >> 4 < 16) by (bit_vector);
            }
            ch.n_4_soundstart = self.pointers[ins - 1];
            ch.n_8_soundlength = instrument.size;
            ch.n_18_volume = instrument.volume as i16;
            cmds.push(MixerCmd::SetVolume(chn, instrument.volume as usize * 16));
            ch.n_10_repeatstart = ch.n_4_soundstart.wrapping_add(instrument.repeat as u32);
            ch.n_14_repeatlength = instrument.replen;
            if instrument.replen != 1 {
                ch.n_10_repeatstart = ch.n_4_soundstart;
                ch.n_8_soundlength = instrument.replen;
            }
            cmds.push(MixerCmd::EnableLoop(chn, instrument.replen != 1));
        }
        if ch.n_0_note != 0 {
            ch.n_16_last_saved_note = ch.n_0_note;
            let ls = ch.n_10_repeatstart.wrapping_sub(ch.n_4_soundstart);
            cmds.push(MixerCmd::SetSamplePtr(chn, ch.n_4_soundstart));
            cmds.push(MixerCmd::SetLoopStart(chn, ls));
            cmds.push(MixerCmd::SetLoopEnd(chn, ls.wrapping_add(ch.n_14_repeatlength as u32 * 2)));
            cmds.push(MixerCmd::SetPeriod(chn, ch.n_0_note as i32));
            ch.n_20_volume_trigger = ch.n_18_volume;
        }
        self.datachn[chn] = ch;
        assert(self.datachn@ =~= old(self).datachn@.update(chn as int, ust_row_channel(old(self).datachn@[chn as int],
            ust_event(*module, pat as int, old(self).patpos as int, chn as int), *module, old(self).pointers@)));
        assert(cmds@ =~= old(cmds)@ + ust_row_cmds(old(self).datachn@[chn as int],
            ust_event(*module, pat as int, old(self).patpos as int, chn as int), *module, old(self).pointers@, chn));
        assert forall|c: int| 0 <= c < 4 implies ust_channel_wf(#[trigger] self.datachn@[c]) by {
            if c != chn {
                assert(self.datachn@[c] == old(self).datachn@[c]);
            }
        }
    }

    /// A new row: the tick count starts again; within the 128 positions
    /// every channel reads its event and the row advances, past row 63 to
    /// the next position (the first after the last).
    fn replaystep(&mut self, module: &StData, cmds: &mut Vec<MixerCmd>)
        requires
            ust_wf(*old(self)) || old(self).timpos == 6,
            old(self).patpos < 64,
            old(self).trkpos <= 128,
            forall|c: int| 0 <= c < 4 ==> ust_channel_wf(#[trigger] old(self).datachn@[c]),
        ensures
            ust_tick(USTPlayer { timpos: 5, ..*old(self) }, *final(self), *module, old(cmds)@, final(cmds)@),
    {
        self.timpos = 0;
        let pat = match module.pattern_in_position(self.trkpos as usize) {
            Some(val) => val,
            None => return,
        };
        let ghost s0 = self.datachn@;
        let ghost row = self.patpos as int;
        let mut chn: usize = 0;
        while chn < 4
            invariant
                chn <= 4,
                pat < 256,
                pat == module.orders@[old(self).trkpos as int],
                old(self).trkpos < 128,
                s0 == old(self).datachn@,
                row == old(self).patpos,
                ust_wf(*self),
                self.patpos == old(self).patpos && self.trkpos == old(self).trkpos && self.timpos == 0,
                self.options == old(self).options && self.pointers == old(self).pointers && self.numpat == old(self).numpat,
                forall|c: int| 0 <= c < chn ==> #[trigger] self.datachn@[c]
                    == ust_row_channel(s0[c], ust_event(*module, pat as int, row, c), *module, old(self).pointers@),
                forall|c: int| chn <= c < 4 ==> #[trigger] self.datachn@[c] == s0[c],
                cmds@ == old(cmds)@ + ust_row_all_cmds(s0, *module, old(self).pointers@, pat as int, row, chn as int),
            decreases 4 - chn,
        {
            self.chanelhandler(pat, chn, module, cmds);
            assert(cmds@ =~= old(cmds)@ + ust_row_all_cmds(s0, *module, old(self).pointers@, pat as int, row, chn as int + 1));
            chn = chn + 1;
        }
        self.patpos = self.patpos + 1;
        if self.patpos == 64 {
            self.patpos = 0;
            self.trkpos = self.trkpos + 1;
            if self.trkpos == self.numpat {
                self.trkpos = 0;
            }
        }
    }

    /// One tick: see `ust_tick`.
    fn replay_muzak(&mut self, module: &StData, cmds: &mut Vec<MixerCmd>)
        requires
            ust_wf(*old(self)),
        ensures
            ust_tick(*old(self), *final(self), *module, old(cmds)@, final(cmds)@),
    {
        self.timpos = self.timpos + 1;
        if self.timpos == 6 {
            self.replaystep(module, cmds);
        } else {
            let ghost s0 = self.datachn@;
            let mut chn: usize = 0;
            while chn < 4
                invariant
                    chn <= 4,
                    s0 == old(self).datachn@,
                    self.timpos == old(self).timpos + 1 && self.timpos < 6,
                    self.patpos == old(self).patpos && self.trkpos == old(self).trkpos,
                    self.options == old(self).options && self.pointers == old(self).pointers && self.numpat == old(self).numpat,
                    forall|c: int| 0 <= c < chn ==> #[trigger] self.datachn@[c] == ust_effect(s0[c]),
                    forall|c: int| chn <= c < 4 ==> #[trigger] self.datachn@[c] == s0[c],
                    forall|c: int| 0 <= c < 4 ==> ust_channel_wf(#[trigger] s0[c]),
                    cmds@ == old(cmds)@ + ust_tick_cmds(s0, self.timpos, chn as int),
                decreases 4 - chn,
            {
                if self.datachn[chn].n_3_effect_number != 0 {
                    self.ceff5(chn, cmds);
                }
                assert(cmds@ =~= old(cmds)@ + ust_tick_cmds(s0, self.timpos, chn as int + 1));
                chn = chn + 1;
            }
            assert forall|c: int| 0 <= c < 4 implies ust_channel_wf(#[trigger] self.datachn@[c]) by {
                assert(ust_channel_wf(s0[c]));
            }
        }
    }

    /// A replayer at the start of `module`'s song: silent channels, no
    /// sample addresses yet, the song length taken.
    pub fn new(module: &StData, options: Options) -> (r: Self)
        ensures
            ust_wf(r),
            r.options == options,
            r.trkpos == 0 && r.patpos == 0 && r.timpos == 0,
            r.numpat == module.song_length,
            forall|i: int| 0 <= i < 15 ==> r.pointers@[i] == 0,
            forall|c: int| 0 <= c < 4 ==> #[trigger] r.datachn@[c] == ust_silent_channel(),
    {
        let c = DataChnx::new();
        USTPlayer {
            options,
            datachn: [c, c, c, c],
            pointers: [0; 15],
            trkpos: 0,
            patpos: 0,
            numpat: module.song_length as u16,
            timpos: 0,
        }
    }

    /// Prepares the replay of `module`: the sample addresses taken, speed
    /// 6 and the module's tempo reported (and kept as the initial ones),
    /// the channels panned left, right, right, left by 70 percent, and
    /// Amiga emulation switched on.
    pub fn start(&mut self, data: &mut PlayerData, module: &StData, cmds: &mut Vec<MixerCmd>)
        requires
            module.samples@.len() >= 15,
        ensures
            *final(self) == (USTPlayer { pointers: final(self).pointers, ..*old(self) }),
            forall|i: int| 0 <= i < 15 ==> #[trigger] final(self).pointers@[i] == module.samples@[i].address,
            *final(data) == (PlayerData {
                speed: 6,
                tempo: module.tempo as usize,
                initial_speed: 6,
                initial_tempo: module.tempo as usize,
                ..*old(data)
            }),
            final(cmds)@ == old(cmds)@ + seq![
                MixerCmd::SetPan(0, -89isize), MixerCmd::SetPan(1, 88isize), MixerCmd::SetPan(2, 88isize),
                MixerCmd::SetPan(3, -89isize), MixerCmd::EnablePaula(true),
            ],
    {
        let mut i: usize = 0;
        while i < 15
            invariant
                i <= 15,
                module.samples@.len() >= 15,
                *self == (USTPlayer { pointers: self.pointers, ..*old(self) }),
                forall|j: int| 0 <= j < i ==> #[trigger] self.pointers@[j] == module.samples@[j].address,
            decreases 15 - i,
        {
            self.pointers[i] = module.samples[i].address;
            i = i + 1;
        }
        data.speed = 6;
        data.tempo = module.tempo as usize;
        data.initial_speed = data.speed;
        data.initial_tempo = data.tempo;
        let pan: isize = match self.options.option_int("pan") {
            Some(val) => val,
            None => 70,
        };
        let panl = -128 * pan / 100;
        let panr = 127 * pan / 100;
        let ghost pre = cmds@;
        cmds.push(MixerCmd::SetPan(0, panl));
        cmds.push(MixerCmd::SetPan(1, panr));
        cmds.push(MixerCmd::SetPan(2, panr));
        cmds.push(MixerCmd::SetPan(3, panl));
        cmds.push(MixerCmd::EnablePaula(true));
        assert(cmds@ =~= pre + seq![
            MixerCmd::SetPan(0, -89isize), MixerCmd::SetPan(1, 88isize), MixerCmd::SetPan(2, 88isize),
            MixerCmd::SetPan(3, -89isize), MixerCmd::EnablePaula(true),
        ]);
    }

    /// Plays one tick (see `ust_tick`) and reports the tick, row and
    /// position.
    pub fn play(&mut self, data: &mut PlayerData, module: &StData, cmds: &mut Vec<MixerCmd>)
        requires
            ust_wf(*old(self)),
        ensures
            ust_tick(*old(self), *final(self), *module, old(cmds)@, final(cmds)@),
            *final(data) == (PlayerData {
                frame: final(self).timpos as usize,
                row: final(self).patpos as usize,
                pos: final(self).trkpos as usize,
                ..*old(data)
            }),
    {
        self.replay_muzak(module, cmds);
        data.frame = self.timpos as usize;
        data.row = self.patpos as usize;
        data.pos = self.trkpos as usize;
    }

    /// Back to the start of the song.
    pub fn reset(&mut self)
        ensures
            *final(self) == (USTPlayer { timpos: 0, trkpos: 0, patpos: 0, ..*old(self) }),
    {
        self.timpos = 0;
        self.trkpos = 0;
        self.patpos = 0;
    }
}

/// `p` is a replayer just started for `module`: at the start of the song,
/// silent channels, the song length and sample addresses taken.
pub open spec fn ust_started(p: USTPlayer, module: StData) -> bool {
    &&& p.trkpos == 0 && p.patpos == 0 && p.timpos == 0 && p.numpat == module.song_length
    &&& forall|c: int| 0 <= c < 4 ==> #[trigger] p.datachn@[c] == ust_silent_channel()
    &&& forall|i: int| 0 <= i < 15 ==> #[trigger] p.pointers@[i] == module.samples@[i].address
}

/// `s` is at tick `k` of the row and position of `s0`.
pub open spec fn ust_counts_from(s: USTPlayer, s0: USTPlayer, k: int) -> bool {
    s.timpos == k && s.patpos == s0.patpos && s.trkpos == s0.trkpos
}

/// The tick count, row and position of a tick from `a` to `b`.
pub open spec fn ust_tick_counts(a: USTPlayer, b: USTPlayer) -> bool {
    &&& a.timpos + 1 != 6 ==> b.timpos == a.timpos + 1 && b.patpos == a.patpos && b.trkpos == a.trkpos
    &&& a.timpos + 1 == 6 ==> b.timpos == 0
}

proof fn lemma_ust_tick_counts(a: USTPlayer, b: USTPlayer, module: StData, before: Seq<MixerCmd>, after: Seq<MixerCmd>)
    requires
        ust_tick(a, b, module, before, after),
    ensures
        ust_tick_counts(a, b),
{
}

proof fn lemma_ust_counts_six(states: Seq<USTPlayer>)
    requires
        1 <= states.len() <= 7,
        states[0].timpos == 0,
        forall|k: int| 0 <= k < states.len() - 1 ==> #[trigger] ust_tick_counts(states[k], states[k + 1]),
    ensures
        forall|k: int| 0 <= k < states.len() && k < 6 ==> #[trigger] ust_counts_from(states[k], states[0], k),
        states.len() == 7 ==> states[6].timpos == 0,
    decreases states.len(),
{
    if states.len() > 1 {
        let prefix = states.drop_last();
        assert forall|k: int| 0 <= k < prefix.len() - 1 implies #[trigger] ust_tick_counts(prefix[k], prefix[k + 1]) by {
            assert(ust_tick_counts(states[k], states[k + 1]));
        }
        lemma_ust_counts_six(prefix);
        let k: int = states.len() - 2;
        assert(ust_tick_counts(states[k], states[k + 1]));
        assert(prefix[k] == states[k] && prefix[0] == states[0]);
        assert(ust_counts_from(prefix[k], prefix[0], k));
        assert forall|j: int| 0 <= j < states.len() && j < 6 implies #[trigger] ust_counts_from(states[j], states[0], j) by {
            if j < prefix.len() {
                assert(prefix[j] == states[j]);
                assert(ust_counts_from(prefix[j], prefix[0], j));
            }
        }
    }
}

/// Every row lasts six ticks: from the first tick of a row, each of the
/// next five ticks advances the tick count and keeps the row and the
/// position, and the tick after them starts the next row.
pub proof fn lemma_ust_row_lasts_six_ticks(states: Seq<USTPlayer>, cmds: Seq<Seq<MixerCmd>>, module: StData)
    requires
        1 <= states.len() <= 7,
        cmds.len() == states.len(),
        states[0].timpos == 0,
        forall|k: int| 0 <= k < states.len() - 1 ==> #[trigger] ust_tick(states[k], states[k + 1], module, cmds[k], cmds[k + 1]),
    ensures
        forall|k: int| 0 <= k < states.len() && k < 6 ==> #[trigger] ust_counts_from(states[k], states[0], k),
        states.len() == 7 ==> states[6].timpos == 0,
{
    assert forall|k: int| 0 <= k < states.len() - 1 implies #[trigger] ust_tick_counts(states[k], states[k + 1]) by {
        lemma_ust_tick_counts(states[k], states[k + 1], module, cmds[k], cmds[k + 1]);
    }
    lemma_ust_counts_six(states);
}

} // verus!
