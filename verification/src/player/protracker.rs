//! The Protracker 2.1A replayer, with the Protracker 2.3D fixes: finetune
//! masked when a voice plays, the note masked in note delays, and zeros
//! after each row of the period table.
//!
//! The replayer works on the state of its sequencer and of four channels;
//! what it asks of the mixer it appends to a list of commands.

use vstd::prelude::*;
use crate::format::mk::{ModData, ModEvent, ModInstrument, event_ins, event_or_empty};
use crate::player::{MixerCmd, PlayerData, voices_below, cmd_voice};
use crate::player::options::Options;

verus! {

/// The period tables for the 16 finetunes (0 to 7, then -8 to -1), 37
/// periods each: three octaves and a trailing zero.
#[verifier::opaque]
pub open spec fn period_table() -> Seq<u16> {
    seq![
        856, 808, 762, 720, 678, 640, 604, 570, 538, 508, 480, 453,
        428, 404, 381, 360, 339, 320, 302, 285, 269, 254, 240, 226,
        214, 202, 190, 180, 170, 160, 151, 143, 135, 127, 120, 113,
        0, 850, 802, 757, 715, 674, 637, 601, 567, 535, 505, 477,
        450, 425, 401, 379, 357, 337, 318, 300, 284, 268, 253, 239,
        225, 213, 201, 189, 179, 169, 159, 150, 142, 134, 126, 119,
        113, 0, 844, 796, 752, 709, 670, 632, 597, 563, 532, 502,
        474, 447, 422, 398, 376, 355, 335, 316, 298, 282, 266, 251,
        237, 224, 211, 199, 188, 177, 167, 158, 149, 141, 133, 125,
        118, 112, 0, 838, 791, 746, 704, 665, 628, 592, 559, 528,
        498, 470, 444, 419, 395, 373, 352, 332, 314, 296, 280, 264,
        249, 235, 222, 209, 198, 187, 176, 166, 157, 148, 140, 132,
        125, 118, 111, 0, 832, 785, 741, 699, 660, 623, 588, 555,
        524, 495, 467, 441, 416, 392, 370, 350, 330, 312, 294, 278,
        262, 247, 233, 220, 208, 196, 185, 175, 165, 156, 147, 139,
        131, 124, 117, 110, 0, 826, 779, 736, 694, 655, 619, 584,
        551, 520, 491, 463, 437, 413, 390, 368, 347, 328, 309, 292,
        276, 260, 245, 232, 219, 206, 195, 184, 174, 164, 155, 146,
        138, 130, 123, 116, 109, 0, 820, 774, 730, 689, 651, 614,
        580, 547, 516, 487, 460, 434, 410, 387, 365, 345, 325, 307,
        290, 274, 258, 244, 230, 217, 205, 193, 183, 172, 163, 154,
        145, 137, 129, 122, 115, 109, 0, 814, 768, 725, 684, 646,
        610, 575, 543, 513, 484, 457, 431, 407, 384, 363, 342, 323,
        305, 288, 272, 256, 242, 228, 216, 204, 192, 181, 171, 161,
        152, 144, 136, 128, 121, 114, 108, 0, 907, 856, 808, 762,
        720, 678, 640, 604, 570, 538, 508, 480, 453, 428, 404, 381,
        360, 339, 320, 302, 285, 269, 254, 240, 226, 214, 202, 190,
        180, 170, 160, 151, 143, 135, 127, 120, 0, 900, 850, 802,
        757, 715, 675, 636, 601, 567, 535, 505, 477, 450, 425, 401,
        379, 357, 337, 318, 300, 284, 268, 253, 238, 225, 212, 200,
        189, 179, 169, 159, 150, 142, 134, 126, 119, 0, 894, 844,
        796, 752, 709, 670, 632, 597, 563, 532, 502, 474, 447, 422,
        398, 376, 355, 335, 316, 298, 282, 266, 251, 237, 223, 211,
        199, 188, 177, 167, 158, 149, 141, 133, 125, 118, 0, 887,
        838, 791, 746, 704, 665, 628, 592, 559, 528, 498, 470, 444,
        419, 395, 373, 352, 332, 314, 296, 280, 264, 249, 235, 222,
        209, 198, 187, 176, 166, 157, 148, 140, 132, 125, 118, 0,
        881, 832, 785, 741, 699, 660, 623, 588, 555, 524, 494, 467,
        441, 416, 392, 370, 350, 330, 312, 294, 278, 262, 247, 233,
        220, 208, 196, 185, 175, 165, 156, 147, 139, 131, 123, 117,
        0, 875, 826, 779, 736, 694, 655, 619, 584, 551, 520, 491,
        463, 437, 413, 390, 368, 347, 328, 309, 292, 276, 260, 245,
        232, 219, 206, 195, 184, 174, 164, 155, 146, 138, 130, 123,
        116, 0, 868, 820, 774, 730, 689, 651, 614, 580, 547, 516,
        487, 460, 434, 410, 387, 365, 345, 325, 307, 290, 274, 258,
        244, 230, 217, 205, 193, 183, 172, 163, 154, 145, 137, 129,
        122, 115, 0, 862, 814, 768, 725, 684, 646, 610, 575, 543,
        513, 484, 457, 431, 407, 384, 363, 342, 323, 305, 288, 272,
        256, 242, 228, 216, 203, 192, 181, 171, 161, 152, 144, 136,
        128, 121, 114, 0,
    ]
}

/// Entry `i` of the period tables; 0 past their end.
pub open spec fn period_at(i: int) -> u16 {
    if 0 <= i < 592 { period_table()[i] } else { 0 }
}

fn mt_period(i: usize) -> (r: u16)
    ensures
        r == period_at(i as int),
{
    let t: [u16; 592] = [
        856, 808, 762, 720, 678, 640, 604, 570, 538, 508, 480, 453,
        428, 404, 381, 360, 339, 320, 302, 285, 269, 254, 240, 226,
        214, 202, 190, 180, 170, 160, 151, 143, 135, 127, 120, 113,
        0, 850, 802, 757, 715, 674, 637, 601, 567, 535, 505, 477,
        450, 425, 401, 379, 357, 337, 318, 300, 284, 268, 253, 239,
        225, 213, 201, 189, 179, 169, 159, 150, 142, 134, 126, 119,
        113, 0, 844, 796, 752, 709, 670, 632, 597, 563, 532, 502,
        474, 447, 422, 398, 376, 355, 335, 316, 298, 282, 266, 251,
        237, 224, 211, 199, 188, 177, 167, 158, 149, 141, 133, 125,
        118, 112, 0, 838, 791, 746, 704, 665, 628, 592, 559, 528,
        498, 470, 444, 419, 395, 373, 352, 332, 314, 296, 280, 264,
        249, 235, 222, 209, 198, 187, 176, 166, 157, 148, 140, 132,
        125, 118, 111, 0, 832, 785, 741, 699, 660, 623, 588, 555,
        524, 495, 467, 441, 416, 392, 370, 350, 330, 312, 294, 278,
        262, 247, 233, 220, 208, 196, 185, 175, 165, 156, 147, 139,
        131, 124, 117, 110, 0, 826, 779, 736, 694, 655, 619, 584,
        551, 520, 491, 463, 437, 413, 390, 368, 347, 328, 309, 292,
        276, 260, 245, 232, 219, 206, 195, 184, 174, 164, 155, 146,
        138, 130, 123, 116, 109, 0, 820, 774, 730, 689, 651, 614,
        580, 547, 516, 487, 460, 434, 410, 387, 365, 345, 325, 307,
        290, 274, 258, 244, 230, 217, 205, 193, 183, 172, 163, 154,
        145, 137, 129, 122, 115, 109, 0, 814, 768, 725, 684, 646,
        610, 575, 543, 513, 484, 457, 431, 407, 384, 363, 342, 323,
        305, 288, 272, 256, 242, 228, 216, 204, 192, 181, 171, 161,
        152, 144, 136, 128, 121, 114, 108, 0, 907, 856, 808, 762,
        720, 678, 640, 604, 570, 538, 508, 480, 453, 428, 404, 381,
        360, 339, 320, 302, 285, 269, 254, 240, 226, 214, 202, 190,
        180, 170, 160, 151, 143, 135, 127, 120, 0, 900, 850, 802,
        757, 715, 675, 636, 601, 567, 535, 505, 477, 450, 425, 401,
        379, 357, 337, 318, 300, 284, 268, 253, 238, 225, 212, 200,
        189, 179, 169, 159, 150, 142, 134, 126, 119, 0, 894, 844,
        796, 752, 709, 670, 632, 597, 563, 532, 502, 474, 447, 422,
        398, 376, 355, 335, 316, 298, 282, 266, 251, 237, 223, 211,
        199, 188, 177, 167, 158, 149, 141, 133, 125, 118, 0, 887,
        838, 791, 746, 704, 665, 628, 592, 559, 528, 498, 470, 444,
        419, 395, 373, 352, 332, 314, 296, 280, 264, 249, 235, 222,
        209, 198, 187, 176, 166, 157, 148, 140, 132, 125, 118, 0,
        881, 832, 785, 741, 699, 660, 623, 588, 555, 524, 494, 467,
        441, 416, 392, 370, 350, 330, 312, 294, 278, 262, 247, 233,
        220, 208, 196, 185, 175, 165, 156, 147, 139, 131, 123, 117,
        0, 875, 826, 779, 736, 694, 655, 619, 584, 551, 520, 491,
        463, 437, 413, 390, 368, 347, 328, 309, 292, 276, 260, 245,
        232, 219, 206, 195, 184, 174, 164, 155, 146, 138, 130, 123,
        116, 0, 868, 820, 774, 730, 689, 651, 614, 580, 547, 516,
        487, 460, 434, 410, 387, 365, 345, 325, 307, 290, 274, 258,
        244, 230, 217, 205, 193, 183, 172, 163, 154, 145, 137, 129,
        122, 115, 0, 862, 814, 768, 725, 684, 646, 610, 575, 543,
        513, 484, 457, 431, 407, 384, 363, 342, 323, 305, 288, 272,
        256, 242, 228, 216, 203, 192, 181, 171, 161, 152, 144, 136,
        128, 121, 114, 0,
    ];
    assert(t@ =~= period_table()) by {
        reveal(period_table);
    }
    if i < 592 {
        t[i]
    } else {
        0
    }
}

/// The vibrato and tremolo sine table: half a period in 32 steps.
pub open spec fn vibrato_table() -> Seq<u8> {
    seq![
        0u8, 24, 49, 74, 97, 120, 141, 161, 180, 197, 212, 224, 235, 244, 250, 253,
        255, 253, 250, 244, 235, 224, 212, 197, 180, 161, 141, 120, 97, 74, 49, 24,
    ]
}

/// Entry `pos` of the sine table.
pub(crate) fn mt_vibrato_value(pos: u8) -> (r: u8)
    requires
        pos < 32,
    ensures
        r == vibrato_table()[pos as int],
{
    let t: [u8; 32] = [
        0, 24, 49, 74, 97, 120, 141, 161, 180, 197, 212, 224, 235, 244, 250, 253,
        255, 253, 250, 244, 235, 224, 212, 197, 180, 161, 141, 120, 97, 74, 49, 24,
    ];
    assert(t@ =~= vibrato_table());
    t[pos as usize]
}

/// The state of a channel.
#[derive(Clone, Copy, Debug)]
pub struct ChannelData {
    pub n_note: u16,
    pub n_cmd: u8,
    pub n_cmdlo: u8,
    pub n_start: u32,
    pub n_length: u16,
    pub n_loopstart: u32,
    pub n_replen: u16,
    pub n_period: u16,
    pub n_finetune: u8,
    pub n_volume: u8,
    pub n_toneportdirec: bool,
    pub n_toneportspeed: u8,
    pub n_wantedperiod: u16,
    pub n_vibratocmd: u8,
    pub n_vibratopos: u8,
    pub n_tremolocmd: u8,
    pub n_tremolopos: u8,
    pub n_wavecontrol: u8,
    pub n_glissfunk: u8,
    pub n_sampleoffset: u8,
    pub n_pattpos: u8,
    pub n_loopcount: u8,
    pub n_wavestart: u32,
    pub inside_loop: bool,
}

impl ChannelData {
    /// A silent channel: every value zero.
    pub fn new() -> (r: Self)
        ensures
            r.n_note == 0 && r.n_cmd == 0 && r.n_cmdlo == 0 && r.n_start == 0 && r.n_length == 0,
            r.n_loopstart == 0 && r.n_replen == 0 && r.n_period == 0 && r.n_finetune == 0,
            r.n_volume == 0 && !r.n_toneportdirec && r.n_toneportspeed == 0 && r.n_wantedperiod == 0,
            r.n_vibratocmd == 0 && r.n_vibratopos == 0 && r.n_tremolocmd == 0 && r.n_tremolopos == 0,
            r.n_wavecontrol == 0 && r.n_glissfunk == 0 && r.n_sampleoffset == 0 && r.n_pattpos == 0,
            r.n_loopcount == 0 && r.n_wavestart == 0 && !r.inside_loop,
            r == pt2_silent_channel(),
    {
        ChannelData {
            n_note: 0,
            n_cmd: 0,
            n_cmdlo: 0,
            n_start: 0,
            n_length: 0,
            n_loopstart: 0,
            n_replen: 0,
            n_period: 0,
            n_finetune: 0,
            n_volume: 0,
            n_toneportdirec: false,
            n_toneportspeed: 0,
            n_wantedperiod: 0,
            n_vibratocmd: 0,
            n_vibratopos: 0,
            n_tremolocmd: 0,
            n_tremolopos: 0,
            n_wavecontrol: 0,
            n_glissfunk: 0,
            n_sampleoffset: 0,
            n_pattpos: 0,
            n_loopcount: 0,
            n_wavestart: 0,
            inside_loop: false,
        }
    }
}

/// A silent channel: every value zero.
pub open spec fn pt2_silent_channel() -> ChannelData {
    ChannelData {
        n_note: 0, n_cmd: 0, n_cmdlo: 0, n_start: 0, n_length: 0, n_loopstart: 0, n_replen: 0,
        n_period: 0, n_finetune: 0, n_volume: 0, n_toneportdirec: false, n_toneportspeed: 0,
        n_wantedperiod: 0, n_vibratocmd: 0, n_vibratopos: 0, n_tremolocmd: 0, n_tremolopos: 0,
        n_wavecontrol: 0, n_glissfunk: 0, n_sampleoffset: 0, n_pattpos: 0, n_loopcount: 0,
        n_wavestart: 0, inside_loop: false,
    }
}

/// What every channel keeps: a finetune of four bits and a loop row
/// within the pattern.
pub open spec fn channel_wf(ch: ChannelData) -> bool {
    ch.n_finetune < 16 && ch.n_pattpos < 64
}

/// The Protracker replayer: the sequencer state and the four channels.
pub struct ModPlayer {
    pub options: Options,
    pub mt_speed: u8,
    pub mt_counter: u8,
    pub mt_song_pos: u8,
    pub mt_pbreak_pos: u8,
    pub mt_pos_jump_flag: bool,
    pub mt_pbreak_flag: bool,
    pub mt_low_mask: u8,
    pub mt_patt_del_time: u8,
    pub mt_patt_del_time_2: u8,
    pub mt_pattern_pos: u8,
    pub cia_tempo: u8,
    pub mt_chantemp: [ChannelData; 4],
    pub mt_samplestarts: [u32; 31],
}

/// Everything but the channels and the low mask is the same in `a` and `b`.
pub open spec fn sequencer_same(a: ModPlayer, b: ModPlayer) -> bool {
    &&& a.options == b.options
    &&& a.mt_speed == b.mt_speed
    &&& a.mt_counter == b.mt_counter
    &&& a.mt_song_pos == b.mt_song_pos
    &&& a.mt_pbreak_pos == b.mt_pbreak_pos
    &&& a.mt_pos_jump_flag == b.mt_pos_jump_flag
    &&& a.mt_pbreak_flag == b.mt_pbreak_flag
    &&& a.mt_patt_del_time == b.mt_patt_del_time
    &&& a.mt_patt_del_time_2 == b.mt_patt_del_time_2
    &&& a.mt_pattern_pos == b.mt_pattern_pos
    &&& a.cia_tempo == b.cia_tempo
    &&& a.mt_samplestarts == b.mt_samplestarts
}

/// The channels other than `chn` are the same in `a` and `b`.
pub open spec fn others_same(a: ModPlayer, b: ModPlayer, chn: int) -> bool {
    forall|c: int| 0 <= c < 4 && c != chn ==> #[trigger] a.mt_chantemp@[c] == b.mt_chantemp@[c]
}

/// What holds while a frame is processed: the bounds of `player_wf`,
/// with a position beyond the orders only while a jump is pending.
pub open spec fn mid_wf(p: ModPlayer) -> bool {
    &&& p.mt_speed < 32
    &&& p.mt_counter < 32
    &&& p.mt_pattern_pos < 64
    &&& p.mt_pbreak_pos < 64
    &&& (!p.mt_pos_jump_flag ==> p.mt_song_pos < 128)
    &&& p.mt_patt_del_time <= 16
    &&& p.mt_patt_del_time_2 <= 16
    &&& forall|c: int| 0 <= c < 4 ==> channel_wf(#[trigger] p.mt_chantemp@[c])
}

/// What the replayer keeps between frames: a speed and tick below 32, a
/// row and a break row within the pattern, a position within the 128
/// orders, pattern delays of at most 16 rows, no jump or break pending, and
/// every channel well formed.
pub open spec fn player_wf(p: ModPlayer) -> bool {
    &&& p.mt_speed < 32
    &&& p.mt_counter < 32
    &&& p.mt_pattern_pos < 64
    &&& p.mt_pbreak_pos < 64
    &&& p.mt_song_pos < 128
    &&& p.mt_patt_del_time <= 16
    &&& p.mt_patt_del_time_2 <= 16
    &&& !p.mt_pos_jump_flag
    &&& !p.mt_pbreak_flag
    &&& forall|c: int| 0 <= c < 4 ==> channel_wf(#[trigger] p.mt_chantemp@[c])
}

/// One tick of the sequencer, as `play` makes it: before the last tick of
/// a row only the tick count advances; the last tick of a row starts the
/// count again.
pub open spec fn sequencer_tick(a: ModPlayer, b: ModPlayer) -> bool {
    &&& player_wf(b)
    &&& a.mt_counter + 1 < a.mt_speed ==> {
        &&& b.mt_counter == a.mt_counter + 1
        &&& sequencer_same(b, ModPlayer { mt_counter: b.mt_counter, ..a })
    }
    &&& a.mt_counter + 1 >= a.mt_speed ==> b.mt_counter == 0
}

/// The first `j` from `i` below 36 whose period in the table at `ofs` is at
/// most `period`, 36 if there is none.
pub open spec fn first_at_or_below(period: u16, ofs: int, i: int) -> int
    decreases 36 - i,
{
    if i >= 36 {
        36
    } else if period >= period_at(ofs + i) {
        i
    } else {
        first_at_or_below(period, ofs, i + 1)
    }
}

/// The first `j` from `i` below 37 whose period in the table at `ofs` is at
/// most `note`: the table position of a note (36, the trailing zero, at
/// the latest).
pub open spec fn note_index(note: u16, ofs: int, i: int) -> int
    decreases 37 - i,
{
    if i >= 36 {
        36
    } else if note >= period_at(ofs + i) {
        i
    } else {
        note_index(note, ofs, i + 1)
    }
}

/// The channel `ch` with its period set to `p`.
pub open spec fn with_period(ch: ChannelData, p: u16) -> ChannelData {
    ChannelData { n_period: p, ..ch }
}

/// The channel `ch` with its volume set to `v`.
pub open spec fn with_volume(ch: ChannelData, v: u8) -> ChannelData {
    ChannelData { n_volume: v, ..ch }
}

/// The arpeggio step of tick `counter`: none, the first note offset, the
/// second, in turn.
pub open spec fn arpeggio_step(cmdlo: u8, counter: u8) -> int {
    if counter % 3 == 2 {
        (cmdlo & 15) as int
    } else if counter % 3 == 0 {
        0
    } else {
        (cmdlo >> 4) as int
    }
}

/// The period of a porta up by `amt`, at least 113.
pub open spec fn porta_up_period(period: u16, amt: u8) -> u16 {
    let p = period.wrapping_sub(amt as u16);
    if p < 113 { 113 } else { p }
}

/// Porta up raises the pitch: it never raises the period. From a period
/// of at least `amt`, the new period is the old one less `amt`, but not
/// below 113; from a period of 113 or more it lies between 113 and the
/// old period.
pub proof fn lemma_porta_up_lowers_period(period: u16, amt: u8)
    ensures
        period >= amt ==> porta_up_period(period, amt) == (if period - amt < 113 { 113 } else { period - amt }),
        period >= 113 + amt ==> porta_up_period(period, amt) == period - amt,
        period >= amt && period >= 113 ==> 113 <= porta_up_period(period, amt) <= period,
{
}

/// The period of a porta down by `amt`, at most 856.
pub open spec fn porta_down_period(period: u16, amt: u8) -> u16 {
    let p = period.wrapping_add(amt as u16);
    if p > 856 { 856 } else { p }
}

/// Porta down lowers the pitch: from a period of at most 856 it never
/// lowers the period; below `856 - amt` the new period is the old one
/// plus `amt`, and it never passes 856.
pub proof fn lemma_porta_down_raises_period(period: u16, amt: u8)
    ensures
        period + amt <= 856 ==> porta_down_period(period, amt) == period + amt,
        period <= 856 ==> period <= porta_down_period(period, amt) <= 856,
{
}

/// The vibrato or tremolo wave value at position `pos` for waveform
/// `wave`: sine, ramp down, or square.
pub open spec fn wave_value(wave: u8, pos: u8) -> u8 {
    let p = (pos >> 2) & 0x1f;
    if wave == 0 {
        vibrato_table()[p as int]
    } else if wave == 1 {
        let q = ((p as int * 8) % 256) as u8;
        if q & 0x80 != 0 { (255 - q) as u8 } else { q }
    } else {
        255
    }
}

/// The volume after a slide up by `val`, at most 64 (the byte sum wraps).
pub open spec fn slide_up_volume(v: u8, val: u8) -> u8 {
    let w = v.wrapping_add(val);
    if w > 0x40 { 0x40 } else { w }
}

/// The volume after a slide down by `val`, at least 0.
pub open spec fn slide_down_volume(v: u8, val: u8) -> u8 {
    if v > val { (v - val) as u8 } else { 0 }
}

/// A volume slide moves the volume the way it says, within 0 to 64: up
/// by `val` (below 192) to at most 64, down by `val` to at least 0; a slide up never
/// lowers a volume of at most 64 and a slide down never raises one.
pub proof fn lemma_volume_slide(v: u8, val: u8)
    ensures
        v <= 64 && val <= 191 ==> slide_up_volume(v, val) == (if v + val > 64 { 64 } else { v + val }),
        v <= 64 && val <= 191 ==> v <= slide_up_volume(v, val) <= 64,
        slide_down_volume(v, val) == (if v > val { v - val } else { 0 }),
        slide_down_volume(v, val) <= v,
{
}

/// The volume slide effect (Axy) raises the volume by `x` where `x` is
/// not 0 and lowers it by `y` otherwise.
pub proof fn lemma_slid_volume_direction(ch: ChannelData)
    requires
        ch.n_volume <= 64,
    ensures
        ch.n_cmdlo >> 4 != 0 ==> ch.n_volume <= slid_volume(ch)
            && slid_volume(ch) == (if ch.n_volume + (ch.n_cmdlo >> 4) > 64 { 64 } else { ch.n_volume + (ch.n_cmdlo >> 4) }),
        ch.n_cmdlo >> 4 == 0 ==> slid_volume(ch) <= ch.n_volume
            && slid_volume(ch) == (if ch.n_volume > (ch.n_cmdlo & 0x0f) { ch.n_volume - (ch.n_cmdlo & 0x0f) } else { 0 }),
{
    crate::player::st3::lemma_nibbles(ch.n_cmdlo);
}

/// The wave value; see `wave_value`.
fn wave(w: u8, pos: u8) -> (r: u8)
    ensures
        r == wave_value(w, pos),
{
    let p = (pos >> 2) & 0x1f;
    assert((pos >> 2) & 0x1f < 32) by (bit_vector);
    if w == 0 {
        mt_vibrato_value(p)
    } else if w == 1 {
        let q = p * 8;
        if q & 0x80 != 0 { 255 - q } else { q }
    } else {
        255
    }
}

/// The vibrato command after a parameter: each nonzero nibble replaces
/// the one it stands for.
pub open spec fn merged_cmd(old_cmd: u8, cmdlo: u8) -> u8 {
    if cmdlo == 0 {
        old_cmd
    } else {
        let a = if cmdlo & 0x0f != 0 { (old_cmd & 0xf0) | (cmdlo & 0x0f) } else { old_cmd };
        if cmdlo & 0xf0 != 0 { (a & 0x0f) | (cmdlo & 0xf0) } else { a }
    }
}

/// The period a vibrato plays: the channel period moved by the wave at the
/// vibrato position, scaled by the depth, up in the first half of the
/// wave and down in the second.
pub open spec fn vibrato_period(ch: ChannelData) -> u16 {
    let amt = ((wave_value(ch.n_wavecontrol & 0x03, ch.n_vibratopos) as int * (ch.n_vibratocmd & 15) as int) / 128) as u16;
    if ch.n_vibratopos & 0x80 == 0 { ch.n_period.wrapping_add(amt) } else { ch.n_period.wrapping_sub(amt) }
}

/// The volume a tremolo plays: the channel volume moved by the wave at the
/// tremolo position, scaled by the depth, kept within 0 to 64.
pub open spec fn tremolo_volume(ch: ChannelData) -> int {
    let amt = (wave_value((ch.n_wavecontrol >> 4) & 0x03, ch.n_tremolopos) as int * (ch.n_tremolocmd & 15) as int) / 64;
    let v = if ch.n_tremolopos & 0x80 == 0 { ch.n_volume + amt } else { ch.n_volume - amt };
    if v < 0 { 0 } else if v > 0x40 { 0x40 } else { v }
}

/// The channel after one step of tone portamento: by the speed towards the
/// wanted period (down to 0 at least), which ends the slide when reached.
pub open spec fn tone_slide(ch: ChannelData) -> ChannelData {
    if ch.n_wantedperiod == 0 {
        ch
    } else {
        let p = if ch.n_toneportdirec {
            ch.n_period.wrapping_add(ch.n_toneportspeed as u16)
        } else if ch.n_period > ch.n_toneportspeed as u16 {
            (ch.n_period - ch.n_toneportspeed) as u16
        } else {
            0u16
        };
        let reached = if ch.n_toneportdirec { p > ch.n_wantedperiod } else { p < ch.n_wantedperiod };
        ChannelData {
            n_period: if reached { ch.n_wantedperiod } else { p },
            n_wantedperiod: if reached { 0 } else { ch.n_wantedperiod },
            ..ch
        }
    }
}

/// Tone portamento moves toward the note, never past it: a note with
/// tone portamento aims at its period, slides up exactly when the channel's
/// period lies below it, and a step then moves the period by at most the
/// speed toward the aim, stopping there.
pub proof fn lemma_tone_portamento_toward(ch: ChannelData)
    requires
        ch.n_period < 0xff00,
    ensures
        ({
            let c = tone_porta_target(ch);
            let w = c.n_wantedperiod;
            let d = tone_slide(c);
            &&& w != 0 ==> (c.n_toneportdirec <==> ch.n_period < w)
            &&& w != 0 && ch.n_period < w ==> ch.n_period <= d.n_period <= w
                && d.n_period <= ch.n_period + ch.n_toneportspeed
            &&& w != 0 && ch.n_period > w ==> w <= d.n_period <= ch.n_period
                && d.n_period + ch.n_toneportspeed >= ch.n_period
        }),
{
}

/// The period a channel plays: with glissando on, the period rounded to the
/// first table entry at or below it.
pub open spec fn gliss_period(ch: ChannelData) -> u16 {
    if ch.n_glissfunk & 0x0f != 0 {
        period_at(37 * ch.n_finetune + note_index(ch.n_period, 37 * ch.n_finetune, 0))
    } else {
        ch.n_period
    }
}

/// The commands of one step of tone portamento: the period played, if a
/// slide is running.
pub open spec fn tone_slide_cmds(ch: ChannelData, chn: usize) -> Seq<MixerCmd> {
    if ch.n_wantedperiod == 0 { seq![] } else { seq![MixerCmd::SetPeriod(chn, gliss_period(tone_slide(ch)) as i32)] }
}

/// A nonzero tone portamento parameter becomes the speed (and is cleared).
pub open spec fn tone_speed(ch: ChannelData) -> ChannelData {
    if ch.n_cmdlo != 0 { ChannelData { n_toneportspeed: ch.n_cmdlo, n_cmdlo: 0, ..ch } } else { ch }
}

/// The vibrato parameter merged into the channel's vibrato command.
pub open spec fn vibrato_set(ch: ChannelData) -> ChannelData {
    ChannelData { n_vibratocmd: merged_cmd(ch.n_vibratocmd, ch.n_cmdlo), ..ch }
}

/// The vibrato position advanced by the speed.
pub open spec fn vibrato_step(ch: ChannelData) -> ChannelData {
    ChannelData { n_vibratopos: ch.n_vibratopos.wrapping_add((ch.n_vibratocmd >> 2) & 0x3c), ..ch }
}

/// The tremolo parameter merged into the channel's tremolo command.
pub open spec fn tremolo_set(ch: ChannelData) -> ChannelData {
    ChannelData { n_tremolocmd: merged_cmd(ch.n_tremolocmd, ch.n_cmdlo), ..ch }
}

/// The tremolo position advanced by the speed.
pub open spec fn tremolo_step(ch: ChannelData) -> ChannelData {
    ChannelData { n_tremolopos: ch.n_tremolopos.wrapping_add((ch.n_tremolocmd >> 2) & 0x3c), ..ch }
}

/// The volume after a volume slide: up by the high nibble of the
/// parameter, or down by the low nibble where the high one is zero.
pub open spec fn slid_volume(ch: ChannelData) -> u8 {
    if ch.n_cmdlo >> 4 == 0 {
        slide_down_volume(ch.n_volume, ch.n_cmdlo & 0x0f)
    } else {
        slide_up_volume(ch.n_volume, ch.n_cmdlo >> 4)
    }
}

/// The channel after an E effect on a tick other than the first: the
/// glissando, wave and finetune settings, and a note cut at its tick.
pub open spec fn e_late_channel(ch: ChannelData, counter: u8) -> ChannelData {
    let c = ch.n_cmdlo >> 4;
    let lo = ch.n_cmdlo & 0x0f;
    if c == 3 {
        ChannelData { n_glissfunk: (ch.n_glissfunk & 0xf0) | lo, ..ch }
    } else if c == 4 {
        ChannelData { n_wavecontrol: (ch.n_wavecontrol & 0xf0) | lo, ..ch }
    } else if c == 5 {
        ChannelData { n_finetune: lo, ..ch }
    } else if c == 7 {
        ChannelData { n_wavecontrol: (ch.n_wavecontrol & 0x0f) | ((lo as int * 16) as u8), ..ch }
    } else if c == 0xc && counter == ch.n_cmdlo {
        with_volume(ch, 0)
    } else {
        ch
    }
}

/// The commands of an E effect on a tick other than the first: the
/// filter, a retrigger every `n` ticks, a note cut or a note delay at its
/// tick.
pub open spec fn e_late_cmds(ch: ChannelData, counter: u8, chn: usize) -> Seq<MixerCmd> {
    let c = ch.n_cmdlo >> 4;
    let lo = ch.n_cmdlo & 0x0f;
    if c == 0 {
        seq![MixerCmd::EnableFilter(lo != 0)]
    } else if c == 9 && lo != 0 && counter % lo == 0 {
        seq![MixerCmd::SetVoicePos(chn, 0)]
    } else if c == 0xc && counter == ch.n_cmdlo {
        seq![MixerCmd::SetVolume(chn, 0)]
    } else if c == 0xd && counter == ch.n_cmdlo && ch.n_note & 0xfff != 0 {
        seq![MixerCmd::SetVoicePos(chn, 0)]
    } else {
        seq![]
    }
}

/// `p` with channel `chn` replaced by `c`.
pub open spec fn with_channel(p: ModPlayer, chn: int, c: ChannelData) -> ModPlayer {
    ModPlayer { mt_chantemp: chantemp_with(p.mt_chantemp, chn, c), ..p }
}

/// The replayer after a pattern loop command (E6) on the first tick.
pub open spec fn jump_loop_state(p: ModPlayer, chn: int) -> ModPlayer {
    let ch = p.mt_chantemp@[chn];
    let n = ch.n_cmdlo & 0x0f;
    if n == 0 {
        with_channel(p, chn, ChannelData { n_pattpos: p.mt_pattern_pos, ..ch })
    } else if ch.n_loopcount == 1 {
        with_channel(p, chn, ChannelData { n_loopcount: 0, inside_loop: false, ..ch })
    } else {
        let nc = if ch.n_loopcount == 0 {
            ChannelData { n_loopcount: n, inside_loop: true, ..ch }
        } else {
            ChannelData { n_loopcount: (ch.n_loopcount - 1) as u8, ..ch }
        };
        ModPlayer { mt_pbreak_pos: ch.n_pattpos, mt_pbreak_flag: true, ..with_channel(p, chn, nc) }
    }
}

/// The replayer after an E effect on the first tick of a row.
pub open spec fn e_first(p: ModPlayer, chn: int) -> ModPlayer {
    let ch = p.mt_chantemp@[chn];
    let c = ch.n_cmdlo >> 4;
    let lo = ch.n_cmdlo & 0x0f;
    if c == 1 {
        ModPlayer { mt_low_mask: 0xff, ..with_channel(p, chn, with_period(ch, porta_up_period(ch.n_period, lo))) }
    } else if c == 2 {
        ModPlayer { mt_low_mask: 0xff, ..with_channel(p, chn, with_period(ch, porta_down_period(ch.n_period, lo))) }
    } else if c == 6 {
        jump_loop_state(p, chn)
    } else if c == 0xa {
        with_channel(p, chn, with_volume(ch, slide_up_volume(ch.n_volume, lo)))
    } else if c == 0xb {
        with_channel(p, chn, with_volume(ch, slide_down_volume(ch.n_volume, lo)))
    } else if c == 0xe {
        if p.mt_patt_del_time_2 == 0 { ModPlayer { mt_patt_del_time: (lo + 1) as u8, ..p } } else { p }
    } else {
        with_channel(p, chn, e_late_channel(ch, 0))
    }
}

/// The commands of an E effect on the first tick of a row.
pub open spec fn e_first_cmds(p: ModPlayer, chn: int) -> Seq<MixerCmd> {
    let ch = p.mt_chantemp@[chn];
    let c = ch.n_cmdlo >> 4;
    let lo = ch.n_cmdlo & 0x0f;
    let chn = chn as usize;
    if c == 1 {
        seq![MixerCmd::SetPeriod(chn, porta_up_period(ch.n_period, lo) as i32)]
    } else if c == 2 {
        seq![MixerCmd::SetPeriod(chn, porta_down_period(ch.n_period, lo) as i32)]
    } else if c == 9 {
        if lo != 0 && ch.n_note & 0xfff == 0 { seq![MixerCmd::SetVoicePos(chn, 0)] } else { seq![] }
    } else if c == 0xa {
        seq![MixerCmd::SetVolume(chn, (slide_up_volume(ch.n_volume, lo) * 16) as usize)]
    } else if c == 0xb {
        seq![MixerCmd::SetVolume(chn, (slide_down_volume(ch.n_volume, lo) * 16) as usize)]
    } else {
        e_late_cmds(ch, 0, chn)
    }
}

/// The replayer after the effect of channel `chn` on the first tick of a
/// row: sample offset, position jump, pattern break, E effect, speed or
/// volume.
pub open spec fn more_efx(p: ModPlayer, chn: int) -> ModPlayer {
    let ch = p.mt_chantemp@[chn];
    let cmd = ch.n_cmd & 0x0f;
    let c = ch.n_cmdlo;
    if cmd == 0x9 {
        let o = if c != 0 { c } else { ch.n_sampleoffset };
        with_channel(p, chn, ChannelData { n_sampleoffset: o, ..ch })
    } else if cmd == 0xb {
        ModPlayer { mt_song_pos: c.wrapping_sub(1), mt_pbreak_pos: 0, mt_pos_jump_flag: true, ..p }
    } else if cmd == 0xd {
        let row = (c >> 4) * 10 + (c & 0x0f);
        ModPlayer { mt_pbreak_pos: if row <= 63 { row as u8 } else { p.mt_pbreak_pos }, mt_pos_jump_flag: true, ..p }
    } else if cmd == 0xe {
        e_first(p, chn)
    } else if cmd == 0xf {
        if c == 0 {
            p
        } else if c < 0x20 {
            ModPlayer { mt_counter: 0, mt_speed: c, ..p }
        } else {
            ModPlayer { mt_counter: 0, cia_tempo: c, ..p }
        }
    } else if cmd == 0xc {
        let v = if c > 0x40 { 0x40u8 } else { c };
        with_channel(p, chn, ChannelData { n_cmdlo: v, n_volume: v, ..ch })
    } else {
        p
    }
}

/// The commands of the effect of channel `chn` on the first tick of a
/// row, then the period played.
pub open spec fn more_efx_cmds(p: ModPlayer, chn: int) -> Seq<MixerCmd> {
    let ch = p.mt_chantemp@[chn];
    let cmd = ch.n_cmd & 0x0f;
    let c = ch.n_cmdlo;
    let body = if cmd == 0x9 {
        let o = if c != 0 { c } else { ch.n_sampleoffset };
        seq![MixerCmd::SetVoicePos(chn as usize, (o * 256) as u32)]
    } else if cmd == 0xe {
        e_first_cmds(p, chn)
    } else if cmd == 0xc {
        let v = if c > 0x40 { 0x40u8 } else { c };
        seq![MixerCmd::SetVolume(chn as usize, (v * 16) as usize)]
    } else {
        seq![]
    };
    body.push(MixerCmd::SetPeriod(chn as usize, more_efx(p, chn).mt_chantemp@[chn].n_period as i32))
}

/// Whether the channel's command is a note delay (ED).
pub open spec fn is_note_delay(ch: ChannelData) -> bool {
    ch.n_cmd & 0x0f == 0x0e && ch.n_cmdlo & 0xf0 == 0xd0
}

/// The channel starting its note: the period of the note's place in the
/// table, at the channel's finetune; the vibrato and tremolo positions
/// cleared where the wave control asks it (not for a note delay).
pub open spec fn note_channel(ch: ChannelData) -> ChannelData {
    let per = period_at(37 * ch.n_finetune + note_index(ch.n_note & 0xfff, 0, 0));
    let reset = !is_note_delay(ch);
    ChannelData {
        n_period: per,
        n_vibratopos: if reset && ch.n_wavecontrol & 0x04 != 0 { 0 } else { ch.n_vibratopos },
        n_tremolopos: if reset && ch.n_wavecontrol & 0x40 != 0 { 0 } else { ch.n_tremolopos },
        ..ch
    }
}

/// The replayer after channel `chn` starts its note and runs its
/// first-tick effect.
pub open spec fn set_period_state(p: ModPlayer, chn: int) -> ModPlayer {
    more_efx(with_channel(p, chn, note_channel(p.mt_chantemp@[chn])), chn)
}

/// The commands of channel `chn` starting its note: the sample and period
/// (not for a note delay), then those of its first-tick effect.
pub open spec fn set_period_cmds(p: ModPlayer, chn: int) -> Seq<MixerCmd> {
    let ch = p.mt_chantemp@[chn];
    let c = note_channel(ch);
    (if is_note_delay(ch) {
        seq![]
    } else {
        seq![MixerCmd::SetSamplePtr(chn as usize, ch.n_start), MixerCmd::SetPeriod(chn as usize, c.n_period as i32)]
    }) + more_efx_cmds(with_channel(p, chn, c), chn)
}

/// The event of channel `chn` in row `row` of pattern `pat`.
pub open spec fn pt2_event(module: ModData, pat: int, row: int, chn: int) -> ModEvent {
    event_or_empty(module.patterns.events(), (pat * 64 + row) * module.patterns.spec_chn() + chn)
}

/// Channel `chn` after reading event `e`: its note and command, and with
/// an instrument number, the instrument's sample, finetune, volume and
/// loop.
pub open spec fn take_event(p: ModPlayer, chn: int, e: ModEvent, module: ModData) -> ChannelData {
    let ch = p.mt_chantemp@[chn];
    let c0 = ChannelData { n_note: e.note, n_cmd: e.cmd, n_cmdlo: e.cmdlo, ..ch };
    let ins = event_ins(e) as int;
    if 0 < ins <= 31 {
        let inst = module.instruments@[ins - 1];
        let start = p.mt_samplestarts@[ins - 1];
        if inst.repeat != 0 {
            let ls = start.wrapping_add((inst.repeat as int * 2) as u32);
            ChannelData {
                n_start: start,
                n_finetune: inst.finetune & 0x0f,
                n_volume: inst.volume,
                n_replen: inst.replen,
                n_loopstart: ls,
                n_wavestart: ls,
                n_length: inst.repeat.wrapping_add(inst.replen).wrapping_mul(2),
                ..c0
            }
        } else {
            ChannelData {
                n_start: start,
                n_length: inst.size,
                n_finetune: inst.finetune & 0x0f,
                n_volume: inst.volume,
                n_replen: inst.replen,
                n_loopstart: start,
                n_wavestart: start,
                ..c0
            }
        }
    } else {
        c0
    }
}

/// The commands of reading event `e`: the period of an idle channel, and
/// the volume of an instrument.
pub open spec fn take_cmds(p: ModPlayer, chn: int, e: ModEvent, module: ModData) -> Seq<MixerCmd> {
    let ch = p.mt_chantemp@[chn];
    let ins = event_ins(e) as int;
    (if ch.n_note == 0 && (ch.n_cmd | ch.n_cmdlo) == 0 {
        seq![MixerCmd::SetPeriod(chn as usize, ch.n_period as i32)]
    } else {
        seq![]
    }) + (if 0 < ins <= 31 {
        seq![MixerCmd::SetVolume(chn as usize, (module.instruments@[ins - 1].volume * 16) as usize)]
    } else {
        seq![]
    })
}

/// The target of a tone portamento: the period of the note in the
/// channel's finetune table, and the direction, or no slide at it.
pub open spec fn tone_porta_target(ch: ChannelData) -> ChannelData {
    let ofs = 37 * ch.n_finetune;
    let w = period_at(ofs + note_index(ch.n_note & 0xfff, ofs, 0));
    ChannelData {
        n_wantedperiod: if ch.n_period == w { 0 } else { w },
        n_toneportdirec: ch.n_period != w && ch.n_period < w,
        ..ch
    }
}

/// The replayer after channel `chn` has read its event: a note started
/// (or aimed at by a tone portamento) and the first-tick effect.
pub open spec fn note_voice(p1: ModPlayer, chn: int) -> ModPlayer {
    let c1 = p1.mt_chantemp@[chn];
    let cmd = c1.n_cmd & 0x0f;
    if c1.n_note & 0xfff == 0 {
        more_efx(p1, chn)
    } else if cmd == 0xe {
        set_period_state(
            if c1.n_cmdlo & 0xf0 == 0x50 {
                with_channel(p1, chn, ChannelData { n_finetune: c1.n_cmdlo & 0x0f, ..c1 })
            } else {
                p1
            },
            chn,
        )
    } else if cmd == 0x3 || cmd == 0x5 {
        more_efx(with_channel(p1, chn, tone_porta_target(c1)), chn)
    } else if cmd == 0x9 {
        set_period_state(more_efx(p1, chn), chn)
    } else {
        set_period_state(p1, chn)
    }
}

/// The commands of `note_voice`.
pub open spec fn note_voice_cmds(p1: ModPlayer, chn: int) -> Seq<MixerCmd> {
    let c1 = p1.mt_chantemp@[chn];
    let cmd = c1.n_cmd & 0x0f;
    if c1.n_note & 0xfff == 0 {
        more_efx_cmds(p1, chn)
    } else if cmd == 0xe {
        set_period_cmds(
            if c1.n_cmdlo & 0xf0 == 0x50 {
                with_channel(p1, chn, ChannelData { n_finetune: c1.n_cmdlo & 0x0f, ..c1 })
            } else {
                p1
            },
            chn,
        )
    } else if cmd == 0x3 || cmd == 0x5 {
        more_efx_cmds(with_channel(p1, chn, tone_porta_target(c1)), chn)
    } else if cmd == 0x9 {
        more_efx_cmds(p1, chn) + set_period_cmds(more_efx(p1, chn), chn)
    } else {
        set_period_cmds(p1, chn)
    }
}

/// The replayer after channel `chn` plays its event in the current row of
/// pattern `pat`: the event read (see `take_event`), then `note_voice`.
#[verifier::opaque]
pub open spec fn voice(p: ModPlayer, pat: int, chn: int, module: ModData) -> ModPlayer {
    let e = pt2_event(module, pat, p.mt_pattern_pos as int, chn);
    note_voice(with_channel(p, chn, take_event(p, chn, e, module)), chn)
}

/// The commands of channel `chn` playing its event; see `voice`.
#[verifier::opaque]
pub open spec fn voice_cmds(p: ModPlayer, pat: int, chn: int, module: ModData) -> Seq<MixerCmd> {
    let e = pt2_event(module, pat, p.mt_pattern_pos as int, chn);
    take_cmds(p, chn, e, module) + note_voice_cmds(with_channel(p, chn, take_event(p, chn, e, module)), chn)
}

/// The replayer after channels `0..n` play their events in the current
/// row of pattern `pat`, in order.
pub open spec fn voices(p: ModPlayer, pat: int, module: ModData, n: nat) -> ModPlayer
    decreases n,
{
    if n == 0 { p } else { voice(voices(p, pat, module, (n - 1) as nat), pat, n - 1, module) }
}

/// The commands of channels `0..n` playing their events, in order.
pub open spec fn voices_cmds(p: ModPlayer, pat: int, module: ModData, n: nat) -> Seq<MixerCmd>
    decreases n,
{
    if n == 0 {
        seq![]
    } else {
        voices_cmds(p, pat, module, (n - 1) as nat) + voice_cmds(voices(p, pat, module, (n - 1) as nat), pat, n - 1, module)
    }
}

/// The loop of channels `0..n`, in order: its start and end within the
/// sample, and whether it is on (a loop longer than one word).
pub open spec fn loop_cmds(q: ModPlayer, n: nat) -> Seq<MixerCmd>
    decreases n,
{
    if n == 0 {
        seq![]
    } else {
        let chn = (n - 1) as usize;
        let ch = q.mt_chantemp@[n - 1];
        let start = ch.n_loopstart.wrapping_sub(ch.n_start);
        loop_cmds(q, (n - 1) as nat) + seq![
            MixerCmd::SetLoopStart(chn, start),
            MixerCmd::SetLoopEnd(chn, start.wrapping_add((ch.n_replen as int * 2) as u32)),
            MixerCmd::EnableLoop(chn, ch.n_replen > 1),
        ]
    }
}

/// The replayer after a new row is read at the song position: the four
/// channels play their events of the pattern there.
pub open spec fn get_new(p: ModPlayer, module: ModData) -> ModPlayer {
    voices(p, module.orders@[p.mt_song_pos as int] as int, module, 4)
}

/// The commands of a new row: those of the four channels, then their
/// loops.
pub open spec fn get_new_cmds(p: ModPlayer, module: ModData) -> Seq<MixerCmd> {
    voices_cmds(p, module.orders@[p.mt_song_pos as int] as int, module, 4) + loop_cmds(get_new(p, module), 4)
}

/// The channel after the effects of a tick other than the first, by the
/// effect number; `low` is the mask of the porta parameter.
pub open spec fn efx_channel(ch: ChannelData, counter: u8, low: u8) -> ChannelData {
    let cmd = ch.n_cmd & 0x0f;
    if cmd == 0 {
        ch
    } else if cmd == 1 {
        with_period(ch, porta_up_period(ch.n_period, ch.n_cmdlo & low))
    } else if cmd == 2 {
        with_period(ch, porta_down_period(ch.n_period, ch.n_cmdlo & low))
    } else if cmd == 3 {
        tone_slide(tone_speed(ch))
    } else if cmd == 4 {
        vibrato_step(vibrato_set(ch))
    } else if cmd == 5 {
        with_volume(tone_slide(ch), slid_volume(tone_slide(ch)))
    } else if cmd == 6 {
        with_volume(vibrato_step(ch), slid_volume(vibrato_step(ch)))
    } else if cmd == 0xe {
        e_late_channel(ch, counter)
    } else if cmd == 7 {
        tremolo_step(tremolo_set(ch))
    } else if cmd == 0xa {
        with_volume(ch, slid_volume(ch))
    } else {
        ch
    }
}

/// The porta mask after the effects of a tick other than the first: a
/// porta restores the full mask.
pub open spec fn efx_low_mask(ch: ChannelData, low: u8) -> u8 {
    let cmd = ch.n_cmd & 0x0f;
    if cmd == 1 || cmd == 2 { 0xff } else { low }
}

/// The period command of an arpeggio at tick `counter`, none where the
/// period is below the table.
pub open spec fn arpeggio_cmds(ch: ChannelData, counter: u8, chn: usize) -> Seq<MixerCmd> {
    let ofs = 37 * ch.n_finetune;
    let j = first_at_or_below(ch.n_period, ofs, 0);
    if j < 36 {
        seq![MixerCmd::SetPeriod(chn, period_at(ofs + j + arpeggio_step(ch.n_cmdlo, counter)) as i32)]
    } else {
        seq![]
    }
}

/// The commands of the effect itself on a tick other than the first.
pub open spec fn efx_body_cmds(ch: ChannelData, counter: u8, low: u8, chn: usize) -> Seq<MixerCmd> {
    let cmd = ch.n_cmd & 0x0f;
    if cmd == 0 {
        arpeggio_cmds(ch, counter, chn)
    } else if cmd == 1 {
        seq![MixerCmd::SetPeriod(chn, porta_up_period(ch.n_period, ch.n_cmdlo & low) as i32)]
    } else if cmd == 2 {
        seq![MixerCmd::SetPeriod(chn, porta_down_period(ch.n_period, ch.n_cmdlo & low) as i32)]
    } else if cmd == 3 {
        tone_slide_cmds(tone_speed(ch), chn)
    } else if cmd == 4 {
        seq![MixerCmd::SetPeriod(chn, vibrato_period(vibrato_set(ch)) as i32)]
    } else if cmd == 5 {
        tone_slide_cmds(ch, chn).push(MixerCmd::SetVolume(chn, (slid_volume(tone_slide(ch)) * 16) as usize))
    } else if cmd == 6 {
        seq![
            MixerCmd::SetPeriod(chn, vibrato_period(ch) as i32),
            MixerCmd::SetVolume(chn, (slid_volume(vibrato_step(ch)) * 16) as usize),
        ]
    } else if cmd == 0xe {
        e_late_cmds(ch, counter, chn)
    } else if cmd == 7 {
        seq![
            MixerCmd::SetPeriod(chn, ch.n_period as i32),
            MixerCmd::SetVolume(chn, (tremolo_volume(tremolo_set(ch)) * 16) as usize),
        ]
    } else if cmd == 0xa {
        seq![
            MixerCmd::SetPeriod(chn, ch.n_period as i32),
            MixerCmd::SetVolume(chn, (slid_volume(ch) * 16) as usize),
        ]
    } else {
        seq![MixerCmd::SetPeriod(chn, ch.n_period as i32)]
    }
}

/// The commands of a channel on a tick other than the first: only the
/// period without an effect; else the effect's commands, then the volume
/// (which a tremolo has played already).
pub open spec fn efx_cmds(ch: ChannelData, counter: u8, low: u8, chn: usize) -> Seq<MixerCmd> {
    let cmd = ch.n_cmd & 0x0f;
    if cmd == 0 && ch.n_cmdlo == 0 {
        seq![MixerCmd::SetPeriod(chn, ch.n_period as i32)]
    } else if cmd == 7 {
        efx_body_cmds(ch, counter, low, chn)
    } else {
        efx_body_cmds(ch, counter, low, chn).push(
            MixerCmd::SetVolume(chn, (efx_channel(ch, counter, low).n_volume * 16) as usize))
    }
}

/// The channels `a` with channel `chn` replaced by `c`.
pub open spec fn chantemp_with(a: [ChannelData; 4], chn: int, c: ChannelData) -> [ChannelData; 4] {
    [
        if chn == 0 { c } else { a[0] },
        if chn == 1 { c } else { a[1] },
        if chn == 2 { c } else { a[2] },
        if chn == 3 { c } else { a[3] },
    ]
}

/// The replayer after channel `chn` runs its effect (see `efx_channel`);
/// on the first tick an E effect acts as on the first tick of a row.
pub open spec fn efx_step(p: ModPlayer, chn: int) -> ModPlayer {
    let ch = p.mt_chantemp@[chn];
    if ch.n_cmd & 0x0f == 0xe && p.mt_counter == 0 {
        e_first(p, chn)
    } else {
        ModPlayer {
            mt_chantemp: chantemp_with(p.mt_chantemp, chn, efx_channel(ch, p.mt_counter, p.mt_low_mask)),
            mt_low_mask: efx_low_mask(ch, p.mt_low_mask),
            ..p
        }
    }
}

/// The commands of channel `chn` running its effect; on the first tick
/// an E effect acts as on the first tick of a row.
pub open spec fn efx_step_cmds(p: ModPlayer, chn: int) -> Seq<MixerCmd> {
    let ch = p.mt_chantemp@[chn];
    if ch.n_cmd & 0x0f == 0xe && p.mt_counter == 0 {
        e_first_cmds(p, chn).push(
            MixerCmd::SetVolume(chn as usize, (e_first(p, chn).mt_chantemp@[chn].n_volume * 16) as usize))
    } else {
        efx_cmds(ch, p.mt_counter, p.mt_low_mask, chn as usize)
    }
}

/// The replayer after channels `0..n` run their effects, in order.
pub open spec fn efx_all(p: ModPlayer, n: nat) -> ModPlayer
    decreases n,
{
    if n == 0 {
        p
    } else {
        efx_step(efx_all(p, (n - 1) as nat), n - 1)
    }
}

/// The commands of channels `0..n` running their effects, in order.
pub open spec fn efx_all_cmds(p: ModPlayer, n: nat) -> Seq<MixerCmd>
    decreases n,
{
    if n == 0 {
        seq![]
    } else {
        efx_all_cmds(p, (n - 1) as nat) + efx_step_cmds(efx_all(p, (n - 1) as nat), n - 1)
    }
}

/// The replayer after a tick that is not the last of its row: the tick
/// count advanced, then the effects of the four channels.
pub open spec fn later_tick(a: ModPlayer) -> ModPlayer {
    efx_all(ModPlayer { mt_counter: (a.mt_counter + 1) as u8, ..a }, 4)
}

/// The commands of a tick that is not the last of its row.
pub open spec fn later_tick_cmds(a: ModPlayer) -> Seq<MixerCmd> {
    efx_all_cmds(ModPlayer { mt_counter: (a.mt_counter + 1) as u8, ..a }, 4)
}

/// The next position: at the break row, the position after the current
/// one (of the 128), or the first past the end of the song.
pub open spec fn next_position(p: ModPlayer, module: ModData) -> ModPlayer {
    let q = p.mt_song_pos.wrapping_add(1) & 0x7f;
    ModPlayer {
        mt_pattern_pos: p.mt_pbreak_pos,
        mt_pbreak_pos: 0,
        mt_pos_jump_flag: false,
        mt_song_pos: if q >= module.song_length { 0 } else { q },
        ..p
    }
}

/// The replayer after the last tick of a row: the tick count restarts; the
/// next row is read, or while a pattern delay runs the effects go on; the
/// row advances, or stays while the delay counts down; a pending loop
/// break goes to its row, the end of the pattern and a pending jump to the
/// next position.
pub open spec fn row_tick(a: ModPlayer, module: ModData) -> ModPlayer {
    let s0 = ModPlayer { mt_counter: 0, ..a };
    let s1 = if a.mt_patt_del_time_2 == 0 { get_new(s0, module) } else { efx_all(s0, 4) };
    let s2 = ModPlayer { mt_pattern_pos: (s1.mt_pattern_pos + 1) as u8, ..s1 };
    let s3 = if s2.mt_patt_del_time != 0 {
        ModPlayer { mt_patt_del_time_2: s2.mt_patt_del_time, mt_patt_del_time: 0, ..s2 }
    } else {
        s2
    };
    let s4 = if s3.mt_patt_del_time_2 != 0 {
        let d = (s3.mt_patt_del_time_2 - 1) as u8;
        ModPlayer {
            mt_patt_del_time_2: d,
            mt_pattern_pos: if d != 0 { (s3.mt_pattern_pos - 1) as u8 } else { s3.mt_pattern_pos },
            ..s3
        }
    } else {
        s3
    };
    let s5 = if s4.mt_pbreak_flag {
        ModPlayer { mt_pbreak_flag: false, mt_pattern_pos: s4.mt_pbreak_pos, mt_pbreak_pos: 0, ..s4 }
    } else {
        s4
    };
    let s6 = if s5.mt_pattern_pos >= 64 { next_position(s5, module) } else { s5 };
    if s6.mt_pos_jump_flag { next_position(s6, module) } else { s6 }
}

/// The commands of the last tick of a row; see `row_tick`.
pub open spec fn row_tick_cmds(a: ModPlayer, module: ModData) -> Seq<MixerCmd> {
    let s0 = ModPlayer { mt_counter: 0, ..a };
    if a.mt_patt_del_time_2 == 0 { get_new_cmds(s0, module) } else { efx_all_cmds(s0, 4) }
}

/// A replayer that differs from `a` in channel `chn` only is `a` with that
/// channel replaced.
proof fn lemma_with_channel(a: ModPlayer, b: ModPlayer, chn: int)
    requires
        0 <= chn < 4,
        sequencer_same(b, a),
        others_same(b, a, chn),
        b.mt_low_mask == a.mt_low_mask,
    ensures
        b == with_channel(a, chn, b.mt_chantemp@[chn]),
{
    let w = with_channel(a, chn, b.mt_chantemp@[chn]);
    assert(b.mt_chantemp@[0] == w.mt_chantemp@[0]);
    assert(b.mt_chantemp@[1] == w.mt_chantemp@[1]);
    assert(b.mt_chantemp@[2] == w.mt_chantemp@[2]);
    assert(b.mt_chantemp@[3] == w.mt_chantemp@[3]);
    assert(b.mt_chantemp =~= w.mt_chantemp);
}

/// A replayer that differs from `a` by channel `chn` running its effect,
/// as the effect functions state it field by field, is `efx_step(a, chn)`.
proof fn lemma_efx_step(a: ModPlayer, b: ModPlayer, chn: int)
    requires
        0 <= chn < 4,
        !(a.mt_chantemp@[chn].n_cmd & 0x0f == 0xe && a.mt_counter == 0),
        sequencer_same(b, a),
        others_same(b, a, chn),
        b.mt_chantemp@[chn] == efx_channel(a.mt_chantemp@[chn], a.mt_counter, a.mt_low_mask),
        b.mt_low_mask == efx_low_mask(a.mt_chantemp@[chn], a.mt_low_mask),
    ensures
        b == efx_step(a, chn),
{
    let w = efx_step(a, chn);
    assert(b.mt_chantemp@[0] == w.mt_chantemp@[0]);
    assert(b.mt_chantemp@[1] == w.mt_chantemp@[1]);
    assert(b.mt_chantemp@[2] == w.mt_chantemp@[2]);
    assert(b.mt_chantemp@[3] == w.mt_chantemp@[3]);
    assert(b.mt_chantemp =~= w.mt_chantemp);
}

impl ModPlayer {
    /// Plays the channel's period unchanged.
    fn per_nop(&self, chn: usize, cmds: &mut Vec<MixerCmd>)
        requires
            chn < 4,
        ensures
            final(cmds)@ == old(cmds)@.push(MixerCmd::SetPeriod(chn, self.mt_chantemp@[chn as int].n_period as i32)),
    {
        let period = self.mt_chantemp[chn].n_period;
        cmds.push(MixerCmd::SetPeriod(chn, period as i32));
    }

    /// Arpeggio: the note, then the note raised by the high nibble of the
    /// parameter, then by the low nibble, tick by tick.
    fn mt_arpeggio(&self, chn: usize, cmds: &mut Vec<MixerCmd>)
        requires
            chn < 4,
            channel_wf(self.mt_chantemp@[chn as int]),
        ensures
            ({
                let ch = self.mt_chantemp@[chn as int];
                let ofs = 37 * ch.n_finetune;
                let j = first_at_or_below(ch.n_period, ofs, 0);
                if j < 36 {
                    final(cmds)@ == old(cmds)@.push(MixerCmd::SetPeriod(chn,
                        period_at(ofs + j + arpeggio_step(ch.n_cmdlo, self.mt_counter)) as i32))
                } else {
                    final(cmds)@ == old(cmds)@
                }
            }),
    {
        let ch = self.mt_chantemp[chn];
        let lo = ch.n_cmdlo;
        assert(lo & 15 <= 15 && lo >> 4 <= 15) by (bit_vector);
        let val: usize = if self.mt_counter % 3 == 2 {
            (lo & 15) as usize
        } else if self.mt_counter % 3 == 0 {
            0
        } else {
            (lo >> 4) as usize
        };
        let ofs = 37 * ch.n_finetune as usize;
        let mut i: usize = 0;
        while i < 36
            invariant
                i <= 36,
                ch == self.mt_chantemp@[chn as int],
                val == arpeggio_step(ch.n_cmdlo, self.mt_counter),
                val <= 15,
                ofs == 37 * ch.n_finetune,
                ch.n_finetune < 16,
                first_at_or_below(ch.n_period, ofs as int, 0) == first_at_or_below(ch.n_period, ofs as int, i as int),
                cmds@ == old(cmds)@,
            decreases 36 - i,
        {
            if ch.n_period >= mt_period(ofs + i) {
                let p = mt_period(ofs + i + val);
                cmds.push(MixerCmd::SetPeriod(chn, p as i32));
                return;
            }
            i = i + 1;
        }
    }

    /// Porta up: lowers the period by the parameter (masked by the low
    /// mask), to 113 at least.
    fn mt_porta_up(&mut self, chn: usize, cmds: &mut Vec<MixerCmd>)
        requires
            chn < 4,
        ensures
            ({
                let ch = old(self).mt_chantemp@[chn as int];
                let p = porta_up_period(ch.n_period, ch.n_cmdlo & old(self).mt_low_mask);
                &&& final(self).mt_chantemp@[chn as int] == with_period(ch, p)
                &&& final(cmds)@ == old(cmds)@.push(MixerCmd::SetPeriod(chn, p as i32))
            }),
            final(self).mt_low_mask == 0xff,
            sequencer_same(*final(self), *old(self)),
            others_same(*final(self), *old(self), chn as int),
    {
        let mut ch = self.mt_chantemp[chn];
        ch.n_period = ch.n_period.wrapping_sub((ch.n_cmdlo & self.mt_low_mask) as u16);
        self.mt_low_mask = 0xff;
        if ch.n_period < 113 {
            ch.n_period = 113;
        }
        self.mt_chantemp[chn] = ch;
        cmds.push(MixerCmd::SetPeriod(chn, ch.n_period as i32));
    }

    /// Porta down: raises the period by the parameter (masked by the low
    /// mask), to 856 at most.
    fn mt_porta_down(&mut self, chn: usize, cmds: &mut Vec<MixerCmd>)
        requires
            chn < 4,
        ensures
            ({
                let ch = old(self).mt_chantemp@[chn as int];
                let p = porta_down_period(ch.n_period, ch.n_cmdlo & old(self).mt_low_mask);
                &&& final(self).mt_chantemp@[chn as int] == with_period(ch, p)
                &&& final(cmds)@ == old(cmds)@.push(MixerCmd::SetPeriod(chn, p as i32))
            }),
            final(self).mt_low_mask == 0xff,
            sequencer_same(*final(self), *old(self)),
            others_same(*final(self), *old(self), chn as int),
    {
        let mut ch = self.mt_chantemp[chn];
        ch.n_period = ch.n_period.wrapping_add((ch.n_cmdlo & self.mt_low_mask) as u16);
        self.mt_low_mask = 0xff;
        if ch.n_period > 856 {
            ch.n_period = 856;
        }
        self.mt_chantemp[chn] = ch;
        cmds.push(MixerCmd::SetPeriod(chn, ch.n_period as i32));
    }

    /// Fine porta up: on the first tick only, by the low nibble.
    fn mt_fine_porta_up(&mut self, chn: usize, cmds: &mut Vec<MixerCmd>)
        requires
            chn < 4,
        ensures
            old(self).mt_counter != 0 ==> *final(self) == *old(self) && final(cmds)@ == old(cmds)@,
            old(self).mt_counter == 0 ==> {
                let ch = old(self).mt_chantemp@[chn as int];
                let p = porta_up_period(ch.n_period, ch.n_cmdlo & 0x0f);
                &&& final(self).mt_chantemp@[chn as int] == with_period(ch, p)
                &&& final(cmds)@ == old(cmds)@.push(MixerCmd::SetPeriod(chn, p as i32))
                &&& final(self).mt_low_mask == 0xff
            },
            sequencer_same(*final(self), *old(self)),
            others_same(*final(self), *old(self), chn as int),
    {
        if self.mt_counter != 0 {
            return;
        }
        self.mt_low_mask = 0x0f;
        self.mt_porta_up(chn, cmds);
    }

    /// Fine porta down: on the first tick only, by the low nibble.
    fn mt_fine_porta_down(&mut self, chn: usize, cmds: &mut Vec<MixerCmd>)
        requires
            chn < 4,
        ensures
            old(self).mt_counter != 0 ==> *final(self) == *old(self) && final(cmds)@ == old(cmds)@,
            old(self).mt_counter == 0 ==> {
                let ch = old(self).mt_chantemp@[chn as int];
                let p = porta_down_period(ch.n_period, ch.n_cmdlo & 0x0f);
                &&& final(self).mt_chantemp@[chn as int] == with_period(ch, p)
                &&& final(cmds)@ == old(cmds)@.push(MixerCmd::SetPeriod(chn, p as i32))
                &&& final(self).mt_low_mask == 0xff
            },
            sequencer_same(*final(self), *old(self)),
            others_same(*final(self), *old(self), chn as int),
    {
        if self.mt_counter != 0 {
            return;
        }
        self.mt_low_mask = 0x0f;
        self.mt_porta_down(chn, cmds);
    }

    /// Tone portamento target: the period of the note in the channel's
    /// finetune table, the slide direction, or no slide when the period is
    /// there already.
    fn mt_set_tone_porta(&mut self, chn: usize)
        requires
            chn < 4,
            channel_wf(old(self).mt_chantemp@[chn as int]),
        ensures
            ({
                let ch = old(self).mt_chantemp@[chn as int];
                let ofs = 37 * ch.n_finetune;
                let w = period_at(ofs + note_index(ch.n_note & 0xfff, ofs, 0));
                let nc = final(self).mt_chantemp@[chn as int];
                &&& nc == ChannelData {
                    n_wantedperiod: if ch.n_period == w { 0 } else { w },
                    n_toneportdirec: ch.n_period != w && ch.n_period < w,
                    ..ch
                }
            }),
            final(self).mt_low_mask == old(self).mt_low_mask,
            sequencer_same(*final(self), *old(self)),
            others_same(*final(self), *old(self), chn as int),
    {
        let mut ch = self.mt_chantemp[chn];
        let note = ch.n_note & 0xfff;
        let ofs = 37 * ch.n_finetune as usize;
        let mut i: usize = 0;
        while i < 36 && note < mt_period(ofs + i)
            invariant
                i <= 36,
                ofs == 37 * ch.n_finetune,
                ch.n_finetune < 16,
                note_index(note, ofs as int, 0) == note_index(note, ofs as int, i as int),
            decreases 36 - i,
        {
            i = i + 1;
        }
        ch.n_wantedperiod = mt_period(ofs + i);
        ch.n_toneportdirec = false;
        if ch.n_period == ch.n_wantedperiod {
            ch.n_wantedperiod = 0;
        } else if ch.n_period < ch.n_wantedperiod {
            ch.n_toneportdirec = true;
        }
        self.mt_chantemp[chn] = ch;
    }

    /// Tone portamento: a new speed from a nonzero parameter, then the slide.
    fn mt_tone_portamento(&mut self, chn: usize, cmds: &mut Vec<MixerCmd>)
        requires
            chn < 4,
            channel_wf(old(self).mt_chantemp@[chn as int]),
        ensures
            channel_wf(final(self).mt_chantemp@[chn as int]),
            final(self).mt_chantemp@[chn as int].n_volume == old(self).mt_chantemp@[chn as int].n_volume,
            final(self).mt_chantemp@[chn as int] == tone_slide(tone_speed(old(self).mt_chantemp@[chn as int])),
            final(cmds)@ == old(cmds)@ + tone_slide_cmds(tone_speed(old(self).mt_chantemp@[chn as int]), chn),
            final(self).mt_low_mask == old(self).mt_low_mask,
            sequencer_same(*final(self), *old(self)),
            others_same(*final(self), *old(self), chn as int),
    {
        let mut ch = self.mt_chantemp[chn];
        if ch.n_cmdlo != 0 {
            ch.n_toneportspeed = ch.n_cmdlo;
            ch.n_cmdlo = 0;
            self.mt_chantemp[chn] = ch;
        }
        self.mt_tone_port_no_change(chn, cmds);
    }

    /// The slide of a tone portamento: by the speed towards the wanted
    /// period, which ends the slide when reached; with glissando on, the
    /// period played is rounded to the table.
    fn mt_tone_port_no_change(&mut self, chn: usize, cmds: &mut Vec<MixerCmd>)
        requires
            chn < 4,
            channel_wf(old(self).mt_chantemp@[chn as int]),
        ensures
            final(self).mt_chantemp@[chn as int] == tone_slide(old(self).mt_chantemp@[chn as int]),
            final(cmds)@ == old(cmds)@ + tone_slide_cmds(old(self).mt_chantemp@[chn as int], chn),
            final(self).mt_low_mask == old(self).mt_low_mask,
            sequencer_same(*final(self), *old(self)),
            others_same(*final(self), *old(self), chn as int),
    {
        let mut ch = self.mt_chantemp[chn];
        if ch.n_wantedperiod == 0 {
            assert(cmds@ =~= old(cmds)@ + tone_slide_cmds(old(self).mt_chantemp@[chn as int], chn));
            return;
        }
        if ch.n_toneportdirec {
            ch.n_period = ch.n_period.wrapping_add(ch.n_toneportspeed as u16);
            if ch.n_period > ch.n_wantedperiod {
                ch.n_period = ch.n_wantedperiod;
                ch.n_wantedperiod = 0;
            }
        } else {
            if ch.n_period > ch.n_toneportspeed as u16 {
                ch.n_period = ch.n_period - ch.n_toneportspeed as u16;
            } else {
                ch.n_period = 0;
            }
            if ch.n_period < ch.n_wantedperiod {
                ch.n_period = ch.n_wantedperiod;
                ch.n_wantedperiod = 0;
            }
        }
        let mut period = ch.n_period;
        if ch.n_glissfunk & 0x0f != 0 {
            let ofs = 37 * ch.n_finetune as usize;
            let mut i: usize = 0;
            while i < 36 && period < mt_period(ofs + i)
                invariant
                    i <= 36,
                    ofs == 37 * ch.n_finetune,
                    ch.n_finetune < 16,
                    period == ch.n_period,
                    note_index(period, ofs as int, 0) == note_index(period, ofs as int, i as int),
                decreases 36 - i,
            {
                i = i + 1;
            }
            period = mt_period(ofs + i);
        }
        self.mt_chantemp[chn] = ch;
        cmds.push(MixerCmd::SetPeriod(chn, period as i32));
        assert(cmds@ =~= old(cmds)@ + tone_slide_cmds(old(self).mt_chantemp@[chn as int], chn));
    }

    /// Vibrato: nonzero parameter nibbles set the speed and depth, then the
    /// vibrato step.
    fn mt_vibrato(&mut self, chn: usize, cmds: &mut Vec<MixerCmd>)
        requires
            chn < 4,
        ensures
            ({
                let ch = old(self).mt_chantemp@[chn as int];
                let c1 = ChannelData { n_vibratocmd: merged_cmd(ch.n_vibratocmd, ch.n_cmdlo), ..ch };
                &&& final(self).mt_chantemp@[chn as int] == ChannelData {
                    n_vibratopos: c1.n_vibratopos.wrapping_add((c1.n_vibratocmd >> 2) & 0x3c),
                    ..c1
                }
                &&& final(cmds)@ == old(cmds)@.push(MixerCmd::SetPeriod(chn, vibrato_period(c1) as i32))
            }),
            final(self).mt_low_mask == old(self).mt_low_mask,
            sequencer_same(*final(self), *old(self)),
            others_same(*final(self), *old(self), chn as int),
    {
        let mut ch = self.mt_chantemp[chn];
        if ch.n_cmdlo != 0 {
            if ch.n_cmdlo & 0x0f != 0 {
                ch.n_vibratocmd = (ch.n_vibratocmd & 0xf0) | (ch.n_cmdlo & 0x0f);
            }
            if ch.n_cmdlo & 0xf0 != 0 {
                ch.n_vibratocmd = (ch.n_vibratocmd & 0x0f) | (ch.n_cmdlo & 0xf0);
            }
            self.mt_chantemp[chn] = ch;
        }
        self.mt_vibrato_2(chn, cmds);
    }

    /// One vibrato step: plays the vibrato period and advances the position
    /// by the speed.
    fn mt_vibrato_2(&mut self, chn: usize, cmds: &mut Vec<MixerCmd>)
        requires
            chn < 4,
        ensures
            ({
                let ch = old(self).mt_chantemp@[chn as int];
                &&& final(self).mt_chantemp@[chn as int] == ChannelData {
                    n_vibratopos: ch.n_vibratopos.wrapping_add((ch.n_vibratocmd >> 2) & 0x3c),
                    ..ch
                }
                &&& final(cmds)@ == old(cmds)@.push(MixerCmd::SetPeriod(chn, vibrato_period(ch) as i32))
            }),
            final(self).mt_low_mask == old(self).mt_low_mask,
            sequencer_same(*final(self), *old(self)),
            others_same(*final(self), *old(self), chn as int),
    {
        let mut ch = self.mt_chantemp[chn];
        let val = wave(ch.n_wavecontrol & 0x03, ch.n_vibratopos);
        let vc = ch.n_vibratocmd;
        let depth = vc & 15;
        assert(vc & 15 <= 15) by (bit_vector);
        assert(val as int * depth as int <= 255 * 15) by (nonlinear_arith)
            requires val <= 255, depth <= 15;
        let prod = val as usize * depth as usize;
        assert(prod >> 7 == prod / 128) by (bit_vector);
        let amt = (prod >> 7) as u16;
        let mut period = ch.n_period;
        if ch.n_vibratopos & 0x80 == 0 {
            period = period.wrapping_add(amt);
        } else {
            period = period.wrapping_sub(amt);
        }
        cmds.push(MixerCmd::SetPeriod(chn, period as i32));
        ch.n_vibratopos = ch.n_vibratopos.wrapping_add((ch.n_vibratocmd >> 2) & 0x3c);
        self.mt_chantemp[chn] = ch;
    }

    /// Tremolo: nonzero parameter nibbles set the speed and depth, then the
    /// tremolo volume is played and the position advanced; the channel
    /// volume itself stays.
    fn mt_tremolo(&mut self, chn: usize, cmds: &mut Vec<MixerCmd>)
        requires
            chn < 4,
        ensures
            ({
                let ch = old(self).mt_chantemp@[chn as int];
                let c1 = ChannelData { n_tremolocmd: merged_cmd(ch.n_tremolocmd, ch.n_cmdlo), ..ch };
                &&& final(self).mt_chantemp@[chn as int] == ChannelData {
                    n_tremolopos: c1.n_tremolopos.wrapping_add((c1.n_tremolocmd >> 2) & 0x3c),
                    ..c1
                }
                &&& final(cmds)@ == old(cmds)@.push(MixerCmd::SetVolume(chn, (tremolo_volume(c1) * 16) as usize))
            }),
            final(self).mt_low_mask == old(self).mt_low_mask,
            sequencer_same(*final(self), *old(self)),
            others_same(*final(self), *old(self), chn as int),
    {
        let mut ch = self.mt_chantemp[chn];
        if ch.n_cmdlo != 0 {
            if ch.n_cmdlo & 0x0f != 0 {
                ch.n_tremolocmd = (ch.n_cmdlo & 0x0f) | (ch.n_tremolocmd & 0xf0);
            }
            if ch.n_cmdlo & 0xf0 != 0 {
                ch.n_tremolocmd = (ch.n_cmdlo & 0xf0) | (ch.n_tremolocmd & 0x0f);
            }
        }
        proof {
            let a = old(self).mt_chantemp@[chn as int].n_tremolocmd;
            let c = ch.n_cmdlo;
            assert((c & 0x0f) | (a & 0xf0) == (a & 0xf0) | (c & 0x0f)) by (bit_vector);
            let b = (a & 0xf0) | (c & 0x0f);
            assert((c & 0xf0) | (b & 0x0f) == (b & 0x0f) | (c & 0xf0)) by (bit_vector);
            assert((c & 0xf0) | (a & 0x0f) == (a & 0x0f) | (c & 0xf0)) by (bit_vector);
        }
        let val = wave((ch.n_wavecontrol >> 4) & 0x03, ch.n_tremolopos);
        let tc = ch.n_tremolocmd;
        let depth = tc & 15;
        assert(tc & 15 <= 15) by (bit_vector);
        assert(val as int * depth as int <= 255 * 15) by (nonlinear_arith)
            requires val <= 255, depth <= 15;
        let prod = val as usize * depth as usize;
        assert(prod >> 6 == prod / 64) by (bit_vector);
        let amt = (prod >> 6) as isize;
        let mut volume = ch.n_volume as isize;
        if ch.n_tremolopos & 0x80 == 0 {
            volume = volume + amt;
        } else {
            volume = volume - amt;
        }
        if volume < 0 {
            volume = 0;
        }
        if volume > 0x40 {
            volume = 0x40;
        }
        cmds.push(MixerCmd::SetVolume(chn, (volume as usize) * 16));
        ch.n_tremolopos = ch.n_tremolopos.wrapping_add((ch.n_tremolocmd >> 2) & 0x3c);
        self.mt_chantemp[chn] = ch;
    }

    /// Sample offset: a nonzero parameter sets the offset in 256-sample
    /// units; the voice moves there.
    fn mt_sample_offset(&mut self, chn: usize, cmds: &mut Vec<MixerCmd>)
        requires
            chn < 4,
        ensures
            ({
                let ch = old(self).mt_chantemp@[chn as int];
                let o = if ch.n_cmdlo != 0 { ch.n_cmdlo } else { ch.n_sampleoffset };
                &&& final(self).mt_chantemp@[chn as int] == ChannelData { n_sampleoffset: o, ..ch }
                &&& final(cmds)@ == old(cmds)@.push(MixerCmd::SetVoicePos(chn, (o * 256) as u32))
            }),
            final(self).mt_low_mask == old(self).mt_low_mask,
            sequencer_same(*final(self), *old(self)),
            others_same(*final(self), *old(self), chn as int),
    {
        let mut ch = self.mt_chantemp[chn];
        if ch.n_cmdlo != 0 {
            ch.n_sampleoffset = ch.n_cmdlo;
        }
        self.mt_chantemp[chn] = ch;
        cmds.push(MixerCmd::SetVoicePos(chn, ch.n_sampleoffset as u32 * 256));
    }

    /// Volume slide: up by the high nibble of the parameter, or down by the
    /// low nibble where the high one is zero.
    fn mt_volume_slide(&mut self, chn: usize, cmds: &mut Vec<MixerCmd>)
        requires
            chn < 4,
        ensures
            ({
                let ch = old(self).mt_chantemp@[chn as int];
                let v = if ch.n_cmdlo >> 4 == 0 {
                    slide_down_volume(ch.n_volume, ch.n_cmdlo & 0x0f)
                } else {
                    slide_up_volume(ch.n_volume, ch.n_cmdlo >> 4)
                };
                &&& final(self).mt_chantemp@[chn as int] == with_volume(ch, v)
                &&& final(cmds)@ == old(cmds)@.push(MixerCmd::SetVolume(chn, (v * 16) as usize))
            }),
            final(self).mt_low_mask == old(self).mt_low_mask,
            sequencer_same(*final(self), *old(self)),
            others_same(*final(self), *old(self), chn as int),
    {
        let val = self.mt_chantemp[chn].n_cmdlo >> 4;
        if val == 0 {
            self.mt_vol_slide_down(chn, cmds);
        } else {
            self.mt_vol_slide_up(chn, val, cmds);
        }
    }

    /// Raises the volume by `val`, to 64 at most.
    fn mt_vol_slide_up(&mut self, chn: usize, val: u8, cmds: &mut Vec<MixerCmd>)
        requires
            chn < 4,
        ensures
            ({
                let ch = old(self).mt_chantemp@[chn as int];
                let v = slide_up_volume(ch.n_volume, val);
                &&& final(self).mt_chantemp@[chn as int] == with_volume(ch, v)
                &&& final(cmds)@ == old(cmds)@.push(MixerCmd::SetVolume(chn, (v * 16) as usize))
            }),
            final(self).mt_low_mask == old(self).mt_low_mask,
            sequencer_same(*final(self), *old(self)),
            others_same(*final(self), *old(self), chn as int),
    {
        let mut ch = self.mt_chantemp[chn];
        ch.n_volume = ch.n_volume.wrapping_add(val);
        if ch.n_volume > 0x40 {
            ch.n_volume = 0x40;
        }
        self.mt_chantemp[chn] = ch;
        cmds.push(MixerCmd::SetVolume(chn, ch.n_volume as usize * 16));
    }

    /// Lowers the volume by the low nibble of the parameter, to 0 at least.
    fn mt_vol_slide_down(&mut self, chn: usize, cmds: &mut Vec<MixerCmd>)
        requires
            chn < 4,
        ensures
            ({
                let ch = old(self).mt_chantemp@[chn as int];
                let v = slide_down_volume(ch.n_volume, ch.n_cmdlo & 0x0f);
                &&& final(self).mt_chantemp@[chn as int] == with_volume(ch, v)
                &&& final(cmds)@ == old(cmds)@.push(MixerCmd::SetVolume(chn, (v * 16) as usize))
            }),
            final(self).mt_low_mask == old(self).mt_low_mask,
            sequencer_same(*final(self), *old(self)),
            others_same(*final(self), *old(self), chn as int),
    {
        let mut ch = self.mt_chantemp[chn];
        let val = ch.n_cmdlo & 0x0f;
        if ch.n_volume > val {
            ch.n_volume = ch.n_volume - val;
        } else {
            ch.n_volume = 0;
        }
        self.mt_chantemp[chn] = ch;
        cmds.push(MixerCmd::SetVolume(chn, ch.n_volume as usize * 16));
    }

    /// Position jump: to the order in the parameter once the row is done.
    fn mt_position_jump(&mut self, chn: usize)
        requires
            chn < 4,
        ensures
            *final(self) == (ModPlayer {
                mt_song_pos: old(self).mt_chantemp@[chn as int].n_cmdlo.wrapping_sub(1),
                mt_pbreak_pos: 0,
                mt_pos_jump_flag: true,
                ..*old(self)
            }),
    {
        let cmdlo = self.mt_chantemp[chn].n_cmdlo;
        self.mt_song_pos = cmdlo.wrapping_sub(1);
        self.mt_pbreak_pos = 0;
        self.mt_pos_jump_flag = true;
    }

    /// Set volume: the parameter, at most 64.
    fn mt_volume_change(&mut self, chn: usize, cmds: &mut Vec<MixerCmd>)
        requires
            chn < 4,
        ensures
            ({
                let ch = old(self).mt_chantemp@[chn as int];
                let v = if ch.n_cmdlo > 0x40 { 0x40u8 } else { ch.n_cmdlo };
                &&& final(self).mt_chantemp@[chn as int] == ChannelData { n_cmdlo: v, n_volume: v, ..ch }
                &&& final(cmds)@ == old(cmds)@.push(MixerCmd::SetVolume(chn, (v * 16) as usize))
            }),
            final(self).mt_low_mask == old(self).mt_low_mask,
            sequencer_same(*final(self), *old(self)),
            others_same(*final(self), *old(self), chn as int),
    {
        let mut ch = self.mt_chantemp[chn];
        if ch.n_cmdlo > 0x40 {
            ch.n_cmdlo = 0x40;
        }
        ch.n_volume = ch.n_cmdlo;
        self.mt_chantemp[chn] = ch;
        cmds.push(MixerCmd::SetVolume(chn, ch.n_volume as usize * 16));
    }

    /// Pattern break: to the row in the parameter (two decimal digits) of
    /// the next pattern, row 0 where it is beyond 63.
    fn mt_pattern_break(&mut self, chn: usize)
        requires
            chn < 4,
        ensures
            ({
                let c = old(self).mt_chantemp@[chn as int].n_cmdlo;
                let row = (c >> 4) * 10 + (c & 0x0f);
                *final(self) == (ModPlayer {
                    mt_pbreak_pos: if row <= 63 { row as u8 } else { old(self).mt_pbreak_pos },
                    mt_pos_jump_flag: true,
                    ..*old(self)
                })
            }),
    {
        let c = self.mt_chantemp[chn].n_cmdlo;
        assert((c >> 4) * 10 + (c & 0x0f) <= 165) by (bit_vector);
        let row = (c >> 4) * 10 + (c & 0x0f);
        if row <= 63 {
            self.mt_pbreak_pos = row;
        }
        self.mt_pos_jump_flag = true;
    }

    /// Set speed: a nonzero parameter below 32 sets the ticks per row, a
    /// larger one the CIA tempo; either restarts the tick count.
    fn mt_set_speed(&mut self, chn: usize)
        requires
            chn < 4,
        ensures
            ({
                let c = old(self).mt_chantemp@[chn as int].n_cmdlo;
                *final(self) == if c == 0 {
                    *old(self)
                } else if c < 0x20 {
                    ModPlayer { mt_counter: 0, mt_speed: c, ..*old(self) }
                } else {
                    ModPlayer { mt_counter: 0, cia_tempo: c, ..*old(self) }
                }
            }),
    {
        let c = self.mt_chantemp[chn].n_cmdlo;
        if c != 0 {
            self.mt_counter = 0;
            if c < 0x20 {
                self.mt_speed = c;
            } else {
                self.cia_tempo = c;
            }
        }
    }

    /// E0: the Amiga filter on for a nonzero low nibble.
    fn mt_filter_on_off(&self, chn: usize, cmds: &mut Vec<MixerCmd>)
        requires
            chn < 4,
        ensures
            final(cmds)@ == old(cmds)@.push(MixerCmd::EnableFilter(self.mt_chantemp@[chn as int].n_cmdlo & 0x0f != 0)),
    {
        cmds.push(MixerCmd::EnableFilter(self.mt_chantemp[chn].n_cmdlo & 0x0f != 0));
    }

    /// E3: glissando control in the low nibble.
    fn mt_set_gliss_control(&mut self, chn: usize)
        requires
            chn < 4,
        ensures
            ({
                let ch = old(self).mt_chantemp@[chn as int];
                final(self).mt_chantemp@[chn as int]
                    == ChannelData { n_glissfunk: (ch.n_glissfunk & 0xf0) | (ch.n_cmdlo & 0x0f), ..ch }
            }),
            final(self).mt_low_mask == old(self).mt_low_mask,
            sequencer_same(*final(self), *old(self)),
            others_same(*final(self), *old(self), chn as int),
    {
        let mut ch = self.mt_chantemp[chn];
        ch.n_glissfunk = (ch.n_glissfunk & 0xf0) | (ch.n_cmdlo & 0x0f);
        self.mt_chantemp[chn] = ch;
    }

    /// E4: the vibrato waveform in the low nibble of the wave control.
    fn mt_set_vibrato_control(&mut self, chn: usize)
        requires
            chn < 4,
        ensures
            ({
                let ch = old(self).mt_chantemp@[chn as int];
                final(self).mt_chantemp@[chn as int]
                    == ChannelData { n_wavecontrol: (ch.n_wavecontrol & 0xf0) | (ch.n_cmdlo & 0x0f), ..ch }
            }),
            final(self).mt_low_mask == old(self).mt_low_mask,
            sequencer_same(*final(self), *old(self)),
            others_same(*final(self), *old(self), chn as int),
    {
        let mut ch = self.mt_chantemp[chn];
        ch.n_wavecontrol = ch.n_wavecontrol & 0xf0;
        ch.n_wavecontrol = ch.n_wavecontrol | (ch.n_cmdlo & 0x0f);
        self.mt_chantemp[chn] = ch;
    }

    /// E5: the finetune in the low nibble.
    fn mt_set_finetune(&mut self, chn: usize)
        requires
            chn < 4,
        ensures
            ({
                let ch = old(self).mt_chantemp@[chn as int];
                final(self).mt_chantemp@[chn as int] == ChannelData { n_finetune: ch.n_cmdlo & 0x0f, ..ch }
            }),
            final(self).mt_chantemp@[chn as int].n_finetune < 16,
            final(self).mt_low_mask == old(self).mt_low_mask,
            sequencer_same(*final(self), *old(self)),
            others_same(*final(self), *old(self), chn as int),
    {
        let mut ch = self.mt_chantemp[chn];
        let c = ch.n_cmdlo;
        assert(c & 0x0f < 16) by (bit_vector);
        ch.n_finetune = c & 0x0f;
        self.mt_chantemp[chn] = ch;
    }

    /// E6: pattern loop, on the first tick. A zero count marks the loop row;
    /// a count sets the loop running, or counts down a running one, and
    /// breaks back to the marked row until the count runs out.
    fn mt_jump_loop(&mut self, chn: usize)
        requires
            chn < 4,
            mid_wf(*old(self)),
        ensures
            mid_wf(*final(self)),
            old(self).mt_counter != 0 ==> *final(self) == *old(self),
            old(self).mt_counter == 0 ==> {
                let ch = old(self).mt_chantemp@[chn as int];
                let n = ch.n_cmdlo & 0x0f;
                let nc = final(self).mt_chantemp@[chn as int];
                &&& n == 0 ==> nc == ChannelData { n_pattpos: old(self).mt_pattern_pos, ..ch }
                    && sequencer_same(*final(self), *old(self))
                &&& n != 0 && ch.n_loopcount == 1 ==> nc == ChannelData { n_loopcount: 0, inside_loop: false, ..ch }
                    && sequencer_same(*final(self), *old(self))
                &&& n != 0 && ch.n_loopcount != 1 ==> {
                    &&& nc == if ch.n_loopcount == 0 {
                        ChannelData { n_loopcount: n, inside_loop: true, ..ch }
                    } else {
                        ChannelData { n_loopcount: (ch.n_loopcount - 1) as u8, ..ch }
                    }
                    &&& final(self).mt_pbreak_pos == ch.n_pattpos
                    &&& final(self).mt_pbreak_flag
                }
            },
            final(self).mt_low_mask == old(self).mt_low_mask,
            final(self).mt_speed == old(self).mt_speed,
            final(self).mt_counter == old(self).mt_counter,
            final(self).mt_song_pos == old(self).mt_song_pos,
            final(self).mt_pos_jump_flag == old(self).mt_pos_jump_flag,
            final(self).mt_pattern_pos == old(self).mt_pattern_pos,
            final(self).cia_tempo == old(self).cia_tempo,
            final(self).mt_patt_del_time == old(self).mt_patt_del_time,
            final(self).mt_patt_del_time_2 == old(self).mt_patt_del_time_2,
            final(self).mt_samplestarts == old(self).mt_samplestarts,
            final(self).options == old(self).options,
            others_same(*final(self), *old(self), chn as int),
    {
        if self.mt_counter != 0 {
            return;
        }
        let mut ch = self.mt_chantemp[chn];
        let n = ch.n_cmdlo & 0x0f;
        if n == 0 {
            ch.n_pattpos = self.mt_pattern_pos;
            self.mt_chantemp[chn] = ch;
            return;
        }
        if ch.n_loopcount == 0 {
            ch.n_loopcount = n;
            ch.inside_loop = true;
        } else {
            ch.n_loopcount = ch.n_loopcount - 1;
            if ch.n_loopcount == 0 {
                ch.inside_loop = false;
                self.mt_chantemp[chn] = ch;
                return;
            }
        }
        self.mt_chantemp[chn] = ch;
        self.mt_pbreak_pos = ch.n_pattpos;
        self.mt_pbreak_flag = true;
    }

    /// E7: the tremolo waveform in the high nibble of the wave control.
    fn mt_set_tremolo_control(&mut self, chn: usize)
        requires
            chn < 4,
        ensures
            ({
                let ch = old(self).mt_chantemp@[chn as int];
                final(self).mt_chantemp@[chn as int]
                    == ChannelData { n_wavecontrol: (ch.n_wavecontrol & 0x0f) | (((ch.n_cmdlo & 0x0f) as int * 16) as u8), ..ch }
            }),
            final(self).mt_low_mask == old(self).mt_low_mask,
            sequencer_same(*final(self), *old(self)),
            others_same(*final(self), *old(self), chn as int),
    {
        let mut ch = self.mt_chantemp[chn];
        let c = ch.n_cmdlo;
        assert((c & 0x0f) << 4 == ((c & 0x0f) as int * 16) as u8) by (bit_vector);
        ch.n_wavecontrol = ch.n_wavecontrol & 0x0f;
        ch.n_wavecontrol = ch.n_wavecontrol | ((c & 0x0f) << 4);
        self.mt_chantemp[chn] = ch;
    }

    /// E9: retrigger the sample every `n` ticks (not on the first tick of a
    /// row with a note).
    fn mt_retrig_note(&self, chn: usize, cmds: &mut Vec<MixerCmd>)
        requires
            chn < 4,
        ensures
            ({
                let ch = self.mt_chantemp@[chn as int];
                let n = ch.n_cmdlo & 0x0f;
                let fire = n != 0 && !(self.mt_counter == 0 && ch.n_note & 0xfff != 0) && self.mt_counter % n == 0;
                final(cmds)@ == if fire { old(cmds)@.push(MixerCmd::SetVoicePos(chn, 0)) } else { old(cmds)@ }
            }),
    {
        let ch = self.mt_chantemp[chn];
        let n = ch.n_cmdlo & 0x0f;
        if n == 0 {
            return;
        }
        if self.mt_counter == 0 {
            if ch.n_note & 0xfff != 0 {
                return;
            }
        }
        if self.mt_counter % n != 0 {
            return;
        }
        cmds.push(MixerCmd::SetVoicePos(chn, 0));
    }

    /// EA: fine volume slide up by the low nibble, on the first tick.
    fn mt_volume_fine_up(&mut self, chn: usize, cmds: &mut Vec<MixerCmd>)
        requires
            chn < 4,
        ensures
            old(self).mt_counter != 0 ==> *final(self) == *old(self) && final(cmds)@ == old(cmds)@,
            old(self).mt_counter == 0 ==> {
                let ch = old(self).mt_chantemp@[chn as int];
                let v = slide_up_volume(ch.n_volume, ch.n_cmdlo & 0x0f);
                &&& final(self).mt_chantemp@[chn as int] == with_volume(ch, v)
                &&& final(cmds)@ == old(cmds)@.push(MixerCmd::SetVolume(chn, (v * 16) as usize))
            },
            final(self).mt_low_mask == old(self).mt_low_mask,
            sequencer_same(*final(self), *old(self)),
            others_same(*final(self), *old(self), chn as int),
    {
        if self.mt_counter != 0 {
            return;
        }
        let val = self.mt_chantemp[chn].n_cmdlo & 0x0f;
        self.mt_vol_slide_up(chn, val, cmds);
    }

    /// EB: fine volume slide down by the low nibble, on the first tick.
    fn mt_volume_fine_down(&mut self, chn: usize, cmds: &mut Vec<MixerCmd>)
        requires
            chn < 4,
        ensures
            old(self).mt_counter != 0 ==> *final(self) == *old(self) && final(cmds)@ == old(cmds)@,
            old(self).mt_counter == 0 ==> {
                let ch = old(self).mt_chantemp@[chn as int];
                let v = slide_down_volume(ch.n_volume, ch.n_cmdlo & 0x0f);
                &&& final(self).mt_chantemp@[chn as int] == with_volume(ch, v)
                &&& final(cmds)@ == old(cmds)@.push(MixerCmd::SetVolume(chn, (v * 16) as usize))
            },
            final(self).mt_low_mask == old(self).mt_low_mask,
            sequencer_same(*final(self), *old(self)),
            others_same(*final(self), *old(self), chn as int),
    {
        if self.mt_counter != 0 {
            return;
        }
        self.mt_vol_slide_down(chn, cmds);
    }

    /// EC: note cut: silence at the tick in the parameter.
    fn mt_note_cut(&mut self, chn: usize, cmds: &mut Vec<MixerCmd>)
        requires
            chn < 4,
        ensures
            ({
                let ch = old(self).mt_chantemp@[chn as int];
                if old(self).mt_counter == ch.n_cmdlo {
                    &&& final(self).mt_chantemp@[chn as int] == with_volume(ch, 0)
                    &&& final(cmds)@ == old(cmds)@.push(MixerCmd::SetVolume(chn, 0))
                } else {
                    *final(self) == *old(self) && final(cmds)@ == old(cmds)@
                }
            }),
            final(self).mt_low_mask == old(self).mt_low_mask,
            sequencer_same(*final(self), *old(self)),
            others_same(*final(self), *old(self), chn as int),
    {
        let mut ch = self.mt_chantemp[chn];
        if self.mt_counter != ch.n_cmdlo {
            return;
        }
        ch.n_volume = 0;
        self.mt_chantemp[chn] = ch;
        cmds.push(MixerCmd::SetVolume(chn, 0));
    }

    /// ED: note delay: retrigger at the tick in the parameter, where the row
    /// has a note.
    fn mt_note_delay(&self, chn: usize, cmds: &mut Vec<MixerCmd>)
        requires
            chn < 4,
        ensures
            ({
                let ch = self.mt_chantemp@[chn as int];
                final(cmds)@ == if self.mt_counter == ch.n_cmdlo && ch.n_note & 0xfff != 0 {
                    old(cmds)@.push(MixerCmd::SetVoicePos(chn, 0))
                } else {
                    old(cmds)@
                }
            }),
    {
        let ch = self.mt_chantemp[chn];
        if self.mt_counter != ch.n_cmdlo {
            return;
        }
        if ch.n_note & 0xfff == 0 {
            return;
        }
        cmds.push(MixerCmd::SetVoicePos(chn, 0));
    }

    /// EE: pattern delay by the low nibble, in rows, on the first tick and
    /// when no delay is running.
    fn mt_pattern_delay(&mut self, chn: usize)
        requires
            chn < 4,
        ensures
            ({
                let c = old(self).mt_chantemp@[chn as int].n_cmdlo;
                *final(self) == if old(self).mt_counter == 0 && old(self).mt_patt_del_time_2 == 0 {
                    ModPlayer { mt_patt_del_time: ((c & 0x0f) + 1) as u8, ..*old(self) }
                } else {
                    *old(self)
                }
            }),
            final(self).mt_patt_del_time <= 16 || final(self).mt_patt_del_time == old(self).mt_patt_del_time,
    {
        if self.mt_counter != 0 {
            return;
        }
        if self.mt_patt_del_time_2 != 0 {
            return;
        }
        let c = self.mt_chantemp[chn].n_cmdlo;
        assert(c & 0x0f <= 15) by (bit_vector);
        self.mt_patt_del_time = (c & 0x0f) + 1;
    }

    /// The E effects, by the high nibble of the parameter.
    fn mt_e_commands(&mut self, chn: usize, cmds: &mut Vec<MixerCmd>)
        requires
            chn < 4,
            mid_wf(*old(self)),
        ensures
            mid_wf(*final(self)),
            old(self).mt_counter != 0 ==> sequencer_same(*final(self), *old(self)),
            old(self).mt_counter != 0 ==> {
                let ch = old(self).mt_chantemp@[chn as int];
                &&& final(self).mt_chantemp@[chn as int] == e_late_channel(ch, old(self).mt_counter)
                &&& final(cmds)@ == old(cmds)@ + e_late_cmds(ch, old(self).mt_counter, chn)
                &&& final(self).mt_low_mask == old(self).mt_low_mask
            },
            others_same(*final(self), *old(self), chn as int),
            old(self).mt_counter == 0 ==> *final(self) == e_first(*old(self), chn as int)
                && final(cmds)@ == old(cmds)@ + e_first_cmds(*old(self), chn as int),
            final(self).mt_speed == old(self).mt_speed,
            final(self).mt_counter == old(self).mt_counter,
            final(self).mt_song_pos == old(self).mt_song_pos,
            final(self).mt_pos_jump_flag == old(self).mt_pos_jump_flag,
            final(self).mt_pattern_pos == old(self).mt_pattern_pos,
            final(self).cia_tempo == old(self).cia_tempo,
            final(self).mt_patt_del_time_2 == old(self).mt_patt_del_time_2,
            final(self).mt_samplestarts == old(self).mt_samplestarts,
            final(self).options == old(self).options,
    {
        let ghost before = *self;
        let c = self.mt_chantemp[chn].n_cmdlo >> 4;
        if c == 0x0 {
            self.mt_filter_on_off(chn, cmds);
        } else if c == 0x1 {
            self.mt_fine_porta_up(chn, cmds);
        } else if c == 0x2 {
            self.mt_fine_porta_down(chn, cmds);
        } else if c == 0x3 {
            self.mt_set_gliss_control(chn);
        } else if c == 0x4 {
            self.mt_set_vibrato_control(chn);
        } else if c == 0x5 {
            self.mt_set_finetune(chn);
        } else if c == 0x6 {
            self.mt_jump_loop(chn);
        } else if c == 0x7 {
            self.mt_set_tremolo_control(chn);
        } else if c == 0x9 {
            self.mt_retrig_note(chn, cmds);
        } else if c == 0xa {
            self.mt_volume_fine_up(chn, cmds);
        } else if c == 0xb {
            self.mt_volume_fine_down(chn, cmds);
        } else if c == 0xc {
            self.mt_note_cut(chn, cmds);
        } else if c == 0xd {
            self.mt_note_delay(chn, cmds);
        } else if c == 0xe {
            self.mt_pattern_delay(chn);
        }
        proof {
            if before.mt_counter == 0 && c != 0x6 && c != 0xe {
                if c == 1 || c == 2 {
                    lemma_with_channel(ModPlayer { mt_low_mask: 0xff, ..before }, *self, chn as int);
                } else {
                    lemma_with_channel(before, *self, chn as int);
                }
            }
            if before.mt_counter == 0 && c == 0x6 {
                let ch = before.mt_chantemp@[chn as int];
                if ch.n_cmdlo & 0x0f != 0 && ch.n_loopcount != 1 {
                    lemma_with_channel(ModPlayer { mt_pbreak_pos: ch.n_pattpos, mt_pbreak_flag: true, ..before },
                        *self, chn as int);
                } else {
                    lemma_with_channel(before, *self, chn as int);
                }
            }
        }
    }

    /// The effects of the first tick: sample offset, position jump, pattern
    /// break, E effects, speed and volume; then the period is played.
    fn mt_check_more_efx(&mut self, chn: usize, cmds: &mut Vec<MixerCmd>)
        requires
            chn < 4,
            mid_wf(*old(self)),
            old(self).mt_counter == 0,
        ensures
            mid_wf(*final(self)),
            *final(self) == more_efx(*old(self), chn as int),
            final(cmds)@ == old(cmds)@ + more_efx_cmds(*old(self), chn as int),
            old(self).mt_counter == 0 ==> final(self).mt_counter == 0,
            final(self).mt_pattern_pos == old(self).mt_pattern_pos,
            final(self).mt_patt_del_time_2 == old(self).mt_patt_del_time_2,
            final(self).mt_samplestarts == old(self).mt_samplestarts,
            final(self).options == old(self).options,
    {
        let ghost before = *self;
        let cmd = self.mt_chantemp[chn].n_cmd & 0x0f;
        if cmd == 0x9 {
            self.mt_sample_offset(chn, cmds);
        } else if cmd == 0xb {
            self.mt_position_jump(chn);
        } else if cmd == 0xd {
            self.mt_pattern_break(chn);
        } else if cmd == 0xe {
            self.mt_e_commands(chn, cmds);
        } else if cmd == 0xf {
            self.mt_set_speed(chn);
        } else if cmd == 0xc {
            self.mt_volume_change(chn, cmds);
        }
        proof {
            if cmd == 0x9 || cmd == 0xc {
                lemma_with_channel(before, *self, chn as int);
            }
        }
        self.per_nop(chn, cmds);
    }

    /// The effect of channel `chn` itself (see `efx_channel`).
    fn mt_efx_body(&mut self, chn: usize, cmds: &mut Vec<MixerCmd>)
        requires
            chn < 4,
            mid_wf(*old(self)),
        ensures
            mid_wf(*final(self)),
            ({
                let ch = old(self).mt_chantemp@[chn as int];
                let (counter, low) = (old(self).mt_counter, old(self).mt_low_mask);
                if ch.n_cmd & 0x0f == 0xe && counter == 0 {
                    &&& *final(self) == e_first(*old(self), chn as int)
                    &&& final(cmds)@ == old(cmds)@ + e_first_cmds(*old(self), chn as int)
                } else {
                    &&& final(self).mt_chantemp@[chn as int] == efx_channel(ch, counter, low)
                    &&& final(self).mt_low_mask == efx_low_mask(ch, low)
                    &&& final(cmds)@ == old(cmds)@ + efx_body_cmds(ch, counter, low, chn)
                    &&& sequencer_same(*final(self), *old(self))
                    &&& others_same(*final(self), *old(self), chn as int)
                }
            }),
    {
        let cmd = self.mt_chantemp[chn].n_cmd & 0x0f;
        if cmd == 0x0 {
            self.mt_arpeggio(chn, cmds);
        } else if cmd == 0x1 {
            self.mt_porta_up(chn, cmds);
        } else if cmd == 0x2 {
            self.mt_porta_down(chn, cmds);
        } else if cmd == 0x3 {
            self.mt_tone_portamento(chn, cmds);
        } else if cmd == 0x4 {
            self.mt_vibrato(chn, cmds);
        } else if cmd == 0x5 {
            self.mt_tone_port_no_change(chn, cmds);
            self.mt_volume_slide(chn, cmds);
        } else if cmd == 0x6 {
            self.mt_vibrato_2(chn, cmds);
            self.mt_volume_slide(chn, cmds);
        } else if cmd == 0xe {
            self.mt_e_commands(chn, cmds);
        } else {
            let period = self.mt_chantemp[chn].n_period;
            cmds.push(MixerCmd::SetPeriod(chn, period as i32));
            if cmd == 0x7 {
                self.mt_tremolo(chn, cmds);
            } else if cmd == 0xa {
                self.mt_volume_slide(chn, cmds);
            }
        }
    }

    /// The effects of a tick without a new row for channel `chn` (see
    /// `efx_step`), and the volume played.
    fn mt_check_efx(&mut self, chn: usize, cmds: &mut Vec<MixerCmd>)
        requires
            chn < 4,
            mid_wf(*old(self)),
        ensures
            mid_wf(*final(self)),
            old(self).mt_counter != 0 ==> sequencer_same(*final(self), *old(self)),
            *final(self) == efx_step(*old(self), chn as int),
            final(cmds)@ == old(cmds)@ + efx_step_cmds(*old(self), chn as int),
            final(self).mt_speed == old(self).mt_speed,
            final(self).mt_counter == old(self).mt_counter,
            final(self).mt_song_pos == old(self).mt_song_pos,
            final(self).mt_pos_jump_flag == old(self).mt_pos_jump_flag,
            final(self).mt_pattern_pos == old(self).mt_pattern_pos,
            final(self).cia_tempo == old(self).cia_tempo,
            final(self).mt_patt_del_time_2 == old(self).mt_patt_del_time_2,
            final(self).mt_samplestarts == old(self).mt_samplestarts,
            final(self).options == old(self).options,
    {
        let ghost before = *self;
        let cmd = self.mt_chantemp[chn].n_cmd & 0x0f;
        if cmd == 0 && self.mt_chantemp[chn].n_cmdlo == 0 {
            self.per_nop(chn, cmds);
            proof {
                lemma_efx_step(before, *self, chn as int);
            }
            return;
        }
        self.mt_efx_body(chn, cmds);
        if cmd != 0x7 {
            let v = self.mt_chantemp[chn].n_volume;
            cmds.push(MixerCmd::SetVolume(chn, v as usize * 16));
        }
        proof {
            if !(cmd == 0xe && before.mt_counter == 0) {
                lemma_efx_step(before, *self, chn as int);
            }
        }
    }

    /// Starts the channel's note: its period from the table of the
    /// channel's finetune, the vibrato and tremolo reset where the wave
    /// control asks it, the sample and period played (not for a note
    /// delay), then the first-tick effects.
    #[verifier::rlimit(30)]
    fn mt_set_period(&mut self, chn: usize, cmds: &mut Vec<MixerCmd>)
        requires
            chn < 4,
            mid_wf(*old(self)),
            old(self).mt_counter == 0,
        ensures
            mid_wf(*final(self)),
            *final(self) == set_period_state(*old(self), chn as int),
            final(cmds)@ == old(cmds)@ + set_period_cmds(*old(self), chn as int),
            old(self).mt_counter == 0 ==> final(self).mt_counter == 0,
            final(self).mt_pattern_pos == old(self).mt_pattern_pos,
            final(self).mt_patt_del_time_2 == old(self).mt_patt_del_time_2,
            final(self).mt_samplestarts == old(self).mt_samplestarts,
            final(self).options == old(self).options,
    {
        let ghost before = *self;
        let ghost before_cmds = cmds@;
        let mut ch = self.mt_chantemp[chn];
        let note = ch.n_note & 0xfff;
        let mut i: usize = 0;
        while i < 36 && note < mt_period(i)
            invariant
                i <= 36,
                note_index(note, 0, 0) == note_index(note, 0, i as int),
            decreases 36 - i,
        {
            i = i + 1;
        }
        ch.n_period = mt_period(37 * ch.n_finetune as usize + i);
        if ch.n_cmd & 0x0f != 0x0e || (ch.n_cmdlo & 0xf0) != 0xd0 {
            if ch.n_wavecontrol & 0x04 != 0x00 {
                ch.n_vibratopos = 0;
            }
            if ch.n_wavecontrol & 0x40 != 0x00 {
                ch.n_tremolopos = 0;
            }
            cmds.push(MixerCmd::SetSamplePtr(chn, ch.n_start));
            cmds.push(MixerCmd::SetPeriod(chn, ch.n_period as i32));
        }
        self.mt_chantemp[chn] = ch;
        proof {
            lemma_with_channel(before, *self, chn as int);
        }
        self.mt_check_more_efx(chn, cmds);
        assert(cmds@ =~= before_cmds + set_period_cmds(before, chn as int));
    }

    /// Reads the event of channel `chn` in the current row of pattern
    /// `pat`; see `take_event`.
    fn mt_take_event(&mut self, pat: usize, chn: usize, module: &ModData, cmds: &mut Vec<MixerCmd>)
        requires
            chn < 4,
            pat < 256,
            mid_wf(*old(self)),
            module.instruments@.len() >= 31,
        ensures
            mid_wf(*final(self)),
            ({
                let e = pt2_event(*module, pat as int, old(self).mt_pattern_pos as int, chn as int);
                &&& *final(self) == with_channel(*old(self), chn as int, take_event(*old(self), chn as int, e, *module))
                &&& final(cmds)@ == old(cmds)@ + take_cmds(*old(self), chn as int, e, *module)
            }),
    {
        let ghost before = *self;
        let ghost before_cmds = cmds@;
        let event = module.patterns.event_or_empty(pat, self.mt_pattern_pos as usize, chn);
        {
            let e = self.mt_chantemp[chn];
            if e.n_note == 0 && (e.n_cmd | e.n_cmdlo) == 0 {
                self.per_nop(chn, cmds);
            }
        }
        let mut ch = self.mt_chantemp[chn];
        ch.n_note = event.note;
        ch.n_cmd = event.cmd;
        ch.n_cmdlo = event.cmdlo;
        let ins = event.ins() as usize;
        if ins > 0 && ins <= 31 {
            let instrument = &module.instruments[ins - 1];
            ch.n_start = self.mt_samplestarts[ins - 1];
            ch.n_length = instrument.size;
            let f = instrument.finetune;
            assert(f & 0x0f < 16) by (bit_vector);
            ch.n_finetune = f & 0x0f;
            ch.n_volume = instrument.volume;
            ch.n_replen = instrument.replen;
            if instrument.repeat != 0 {
                ch.n_loopstart = ch.n_start.wrapping_add((instrument.repeat as u32) * 2);
                ch.n_wavestart = ch.n_loopstart;
                ch.n_length = instrument.repeat.wrapping_add(ch.n_replen).wrapping_mul(2);
            } else {
                ch.n_loopstart = ch.n_start;
                ch.n_wavestart = ch.n_start;
                ch.n_replen = instrument.replen;
            }
            cmds.push(MixerCmd::SetVolume(chn, instrument.volume as usize * 16));
        }
        self.mt_chantemp[chn] = ch;
        proof {
            lemma_with_channel(before, *self, chn as int);
        }
        assert(cmds@ =~= before_cmds + take_cmds(before, chn as int,
            pt2_event(*module, pat as int, before.mt_pattern_pos as int, chn as int), *module));
    }

    /// Starts the note channel `chn` has read, and runs its first-tick
    /// effect (see `note_voice`).
    fn mt_note_voice(&mut self, chn: usize, cmds: &mut Vec<MixerCmd>)
        requires
            chn < 4,
            mid_wf(*old(self)),
            old(self).mt_counter == 0,
        ensures
            mid_wf(*final(self)),
            *final(self) == note_voice(*old(self), chn as int),
            final(cmds)@ == old(cmds)@ + note_voice_cmds(*old(self), chn as int),
            final(self).mt_counter == 0,
            final(self).mt_pattern_pos == old(self).mt_pattern_pos,
            final(self).mt_patt_del_time_2 == old(self).mt_patt_del_time_2,
            final(self).mt_samplestarts == old(self).mt_samplestarts,
            final(self).options == old(self).options,
    {
        let ghost p1 = *self;
        let ghost before_cmds = cmds@;
        let ch = self.mt_chantemp[chn];
        if ch.n_note & 0xfff != 0 {
            let cmd = ch.n_cmd & 0x0f;
            if cmd == 0xe {
                if (ch.n_cmdlo & 0xf0) == 0x50 {
                    self.mt_set_finetune(chn);
                    proof {
                        lemma_with_channel(p1, *self, chn as int);
                    }
                }
                self.mt_set_period(chn, cmds);
            } else if cmd == 0x3 || cmd == 0x5 {
                self.mt_set_tone_porta(chn);
                proof {
                    lemma_with_channel(p1, *self, chn as int);
                }
                self.mt_check_more_efx(chn, cmds);
            } else if cmd == 0x9 {
                self.mt_check_more_efx(chn, cmds);
                self.mt_set_period(chn, cmds);
                assert(cmds@ =~= before_cmds + note_voice_cmds(p1, chn as int));
            } else {
                self.mt_set_period(chn, cmds);
            }
        } else {
            self.mt_check_more_efx(chn, cmds);
        }
    }

    /// Plays the event of channel `chn` in row `mt_pattern_pos` of pattern
    /// `pat` (see `voice`).
    fn mt_play_voice(&mut self, pat: usize, chn: usize, module: &ModData, cmds: &mut Vec<MixerCmd>)
        requires
            chn < 4,
            pat < 256,
            mid_wf(*old(self)),
            old(self).mt_counter == 0,
            module.instruments@.len() >= 31,
        ensures
            mid_wf(*final(self)),
            *final(self) == voice(*old(self), pat as int, chn as int, *module),
            final(cmds)@ == old(cmds)@ + voice_cmds(*old(self), pat as int, chn as int, *module),
            final(self).mt_counter == 0,
            final(self).mt_pattern_pos == old(self).mt_pattern_pos,
            final(self).mt_patt_del_time_2 == old(self).mt_patt_del_time_2,
            final(self).mt_samplestarts == old(self).mt_samplestarts,
            final(self).options == old(self).options,
    {
        let ghost before_cmds = cmds@;
        self.mt_take_event(pat, chn, module, cmds);
        self.mt_note_voice(chn, cmds);
        proof {
            reveal(voice);
            reveal(voice_cmds);
        }
        assert(cmds@ =~= before_cmds + voice_cmds(*old(self), pat as int, chn as int, *module));
    }

    /// A new row: the events of the pattern at the song position for the
    /// four channels, then each channel's loop.
    fn mt_get_new_note(&mut self, module: &ModData, cmds: &mut Vec<MixerCmd>)
        requires
            mid_wf(*old(self)),
            old(self).mt_song_pos < 128,
            old(self).mt_counter == 0,
            module.instruments@.len() >= 31,
        ensures
            mid_wf(*final(self)),
            *final(self) == get_new(*old(self), *module),
            final(cmds)@ == old(cmds)@ + get_new_cmds(*old(self), *module),
            final(self).mt_counter == 0,
            final(self).mt_pattern_pos == old(self).mt_pattern_pos,
            final(self).mt_patt_del_time_2 == old(self).mt_patt_del_time_2,
            final(self).mt_samplestarts == old(self).mt_samplestarts,
            final(self).options == old(self).options,
    {
        let pat = match module.pattern_in_position(self.mt_song_pos as usize) {
            Some(val) => val,
            None => return,
        };
        self.mt_play_voices(pat, module, cmds);
        self.mt_set_loops(cmds);
    }

    /// The four channels play their events in the current row of pattern
    /// `pat`, in order.
    fn mt_play_voices(&mut self, pat: usize, module: &ModData, cmds: &mut Vec<MixerCmd>)
        requires
            pat < 256,
            mid_wf(*old(self)),
            old(self).mt_counter == 0,
            module.instruments@.len() >= 31,
        ensures
            mid_wf(*final(self)),
            *final(self) == voices(*old(self), pat as int, *module, 4),
            final(cmds)@ == old(cmds)@ + voices_cmds(*old(self), pat as int, *module, 4),
            final(self).mt_counter == 0,
            final(self).mt_pattern_pos == old(self).mt_pattern_pos,
            final(self).mt_patt_del_time_2 == old(self).mt_patt_del_time_2,
            final(self).mt_samplestarts == old(self).mt_samplestarts,
            final(self).options == old(self).options,
    {
        let mut chn: usize = 0;
        while chn < 4
            invariant
                chn <= 4,
                pat < 256,
                mid_wf(*self),
                module.instruments@.len() >= 31,
                *self == voices(*old(self), pat as int, *module, chn as nat),
                cmds@ == old(cmds)@ + voices_cmds(*old(self), pat as int, *module, chn as nat),
                self.mt_counter == 0,
                self.mt_pattern_pos == old(self).mt_pattern_pos,
                self.mt_patt_del_time_2 == old(self).mt_patt_del_time_2,
                self.mt_samplestarts == old(self).mt_samplestarts,
                self.options == old(self).options,
            decreases 4 - chn,
        {
            self.mt_play_voice(pat, chn, module, cmds);
            assert(cmds@ =~= old(cmds)@ + voices_cmds(*old(self), pat as int, *module, (chn + 1) as nat));
            chn = chn + 1;
        }
    }

    /// The loops of the four channels; see `loop_cmds`.
    fn mt_set_loops(&self, cmds: &mut Vec<MixerCmd>)
        ensures
            final(cmds)@ == old(cmds)@ + loop_cmds(*self, 4),
    {
        let mut chn: usize = 0;
        while chn < 4
            invariant
                chn <= 4,
                cmds@ == old(cmds)@ + loop_cmds(*self, chn as nat),
            decreases 4 - chn,
        {
            let ch = self.mt_chantemp[chn];
            let start = ch.n_loopstart.wrapping_sub(ch.n_start);
            cmds.push(MixerCmd::SetLoopStart(chn, start));
            cmds.push(MixerCmd::SetLoopEnd(chn, start.wrapping_add(ch.n_replen as u32 * 2)));
            cmds.push(MixerCmd::EnableLoop(chn, ch.n_replen > 1));
            assert(cmds@ =~= old(cmds)@ + loop_cmds(*self, (chn + 1) as nat));
            chn = chn + 1;
        }
    }

    /// To the next position: at the break row, or the first position past
    /// the end of the song.
    fn mt_next_position(&mut self, module: &ModData)
        ensures
            ({
                let p = (old(self).mt_song_pos.wrapping_add(1)) & 0x7f;
                *final(self) == (ModPlayer {
                    mt_pattern_pos: old(self).mt_pbreak_pos,
                    mt_pbreak_pos: 0,
                    mt_pos_jump_flag: false,
                    mt_song_pos: if p >= module.song_length { 0 } else { p },
                    ..*old(self)
                })
            }),
            final(self).mt_song_pos < 128,
    {
        self.mt_pattern_pos = self.mt_pbreak_pos;
        self.mt_pbreak_pos = 0;
        self.mt_pos_jump_flag = false;
        let p = self.mt_song_pos.wrapping_add(1);
        assert(p & 0x7f < 128) by (bit_vector);
        self.mt_song_pos = p & 0x7f;
        if self.mt_song_pos >= module.song_length {
            self.mt_song_pos = 0;
        }
    }

    /// A pending jump moves to the next position.
    fn mt_no_new_pos_yet(&mut self, module: &ModData)
        ensures
            !old(self).mt_pos_jump_flag ==> *final(self) == *old(self),
            old(self).mt_pos_jump_flag ==> {
                let p = (old(self).mt_song_pos.wrapping_add(1)) & 0x7f;
                *final(self) == (ModPlayer {
                    mt_pattern_pos: old(self).mt_pbreak_pos,
                    mt_pbreak_pos: 0,
                    mt_pos_jump_flag: false,
                    mt_song_pos: if p >= module.song_length { 0 } else { p },
                    ..*old(self)
                })
            },
            !final(self).mt_pos_jump_flag,
            old(self).mt_pos_jump_flag ==> final(self).mt_song_pos < 128,
    {
        if self.mt_pos_jump_flag {
            self.mt_next_position(module);
        }
    }

    /// The effects of a tick without a new row, for the four channels.
    fn mt_no_new_all_channels(&mut self, cmds: &mut Vec<MixerCmd>)
        requires
            mid_wf(*old(self)),
        ensures
            mid_wf(*final(self)),
            *final(self) == efx_all(*old(self), 4),
            final(cmds)@ == old(cmds)@ + efx_all_cmds(*old(self), 4),
            old(self).mt_counter != 0 ==> sequencer_same(*final(self), *old(self)),
            final(self).mt_speed == old(self).mt_speed,
            final(self).mt_counter == old(self).mt_counter,
            final(self).mt_song_pos == old(self).mt_song_pos,
            final(self).mt_pos_jump_flag == old(self).mt_pos_jump_flag,
            final(self).mt_pattern_pos == old(self).mt_pattern_pos,
            final(self).cia_tempo == old(self).cia_tempo,
            final(self).mt_patt_del_time_2 == old(self).mt_patt_del_time_2,
            final(self).mt_samplestarts == old(self).mt_samplestarts,
            final(self).options == old(self).options,
    {
        let mut chn: usize = 0;
        while chn < 4
            invariant
                chn <= 4,
                mid_wf(*self),
                old(self).mt_counter != 0 ==> sequencer_same(*self, *old(self)),
                self.mt_speed == old(self).mt_speed,
                self.mt_counter == old(self).mt_counter,
                self.mt_song_pos == old(self).mt_song_pos,
                self.mt_pos_jump_flag == old(self).mt_pos_jump_flag,
                self.mt_pattern_pos == old(self).mt_pattern_pos,
                self.cia_tempo == old(self).cia_tempo,
                self.mt_patt_del_time_2 == old(self).mt_patt_del_time_2,
                self.mt_samplestarts == old(self).mt_samplestarts,
                self.options == old(self).options,
                *self == efx_all(*old(self), chn as nat),
                cmds@ == old(cmds)@ + efx_all_cmds(*old(self), chn as nat),
            decreases 4 - chn,
        {
            let ghost before = *self;
            self.mt_check_efx(chn, cmds);
            assert(cmds@ =~= old(cmds)@ + efx_all_cmds(*old(self), (chn + 1) as nat));
            chn = chn + 1;
        }
    }

    /// One tick of the replay. A tick before the end of the row runs the
    /// effects of the later ticks; the tick that ends a row reads the next
    /// row (unless a pattern delay repeats it) and moves the sequencer on:
    /// a pending break, delay or jump, or the end of the pattern.
    fn mt_music(&mut self, module: &ModData, cmds: &mut Vec<MixerCmd>)
        requires
            player_wf(*old(self)),
            module.instruments@.len() >= 31,
        ensures
            sequencer_tick(*old(self), *final(self)),
            old(self).mt_counter + 1 < old(self).mt_speed ==> *final(self) == later_tick(*old(self))
                && final(cmds)@ == old(cmds)@ + later_tick_cmds(*old(self)),
            old(self).mt_counter + 1 >= old(self).mt_speed ==> *final(self) == row_tick(*old(self), *module)
                && final(cmds)@ == old(cmds)@ + row_tick_cmds(*old(self), *module),
            final(self).mt_samplestarts == old(self).mt_samplestarts,
            final(self).options == old(self).options,
    {
        self.mt_counter = self.mt_counter + 1;
        if self.mt_speed > self.mt_counter {
            self.mt_no_new_all_channels(cmds);
            self.mt_no_new_pos_yet(module);
            return;
        }
        self.mt_counter = 0;
        if self.mt_patt_del_time_2 == 0 {
            self.mt_get_new_note(module, cmds);
        } else {
            self.mt_no_new_all_channels(cmds);
        }
        self.mt_pattern_pos = self.mt_pattern_pos + 1;
        if self.mt_patt_del_time != 0 {
            self.mt_patt_del_time_2 = self.mt_patt_del_time;
            self.mt_patt_del_time = 0;
        }
        if self.mt_patt_del_time_2 != 0 {
            self.mt_patt_del_time_2 = self.mt_patt_del_time_2 - 1;
            if self.mt_patt_del_time_2 != 0 {
                self.mt_pattern_pos = self.mt_pattern_pos - 1;
            }
        }
        if self.mt_pbreak_flag {
            self.mt_pbreak_flag = false;
            self.mt_pattern_pos = self.mt_pbreak_pos;
            self.mt_pbreak_pos = 0;
        }
        if self.mt_pattern_pos >= 64 {
            self.mt_next_position(module);
        }
        self.mt_no_new_pos_yet(module);
    }

    /// A replayer at the start of the song: speed 6, tempo 125, silent
    /// channels.
    pub fn new(options: Options) -> (r: Self)
        ensures
            player_wf(r),
            r.options == options,
            r.mt_speed == 6 && r.mt_counter == 0 && r.mt_song_pos == 0 && r.mt_pattern_pos == 0,
            r.mt_pbreak_pos == 0 && r.mt_low_mask == 0 && r.mt_patt_del_time == 0 && r.mt_patt_del_time_2 == 0,
            r.cia_tempo == 125,
            forall|i: int| 0 <= i < 31 ==> r.mt_samplestarts@[i] == 0,
            forall|c: int| 0 <= c < 4 ==> #[trigger] r.mt_chantemp@[c] == pt2_silent_channel(),
    {
        let c = ChannelData::new();
        ModPlayer {
            options,
            mt_speed: 6,
            mt_counter: 0,
            mt_song_pos: 0,
            mt_pbreak_pos: 0,
            mt_pos_jump_flag: false,
            mt_pbreak_flag: false,
            mt_low_mask: 0,
            mt_patt_del_time: 0,
            mt_patt_del_time_2: 0,
            mt_pattern_pos: 0,
            cia_tempo: 125,
            mt_chantemp: [c, c, c, c],
            mt_samplestarts: [0; 31],
        }
    }

    /// Prepares the replay of `module`: speed 6 and tempo 125 reported, the
    /// sample addresses taken, the channels panned left, right, right, left
    /// by 70 percent, and Amiga emulation switched on.
    pub fn start(&mut self, data: &mut PlayerData, module: &ModData, cmds: &mut Vec<MixerCmd>)
        requires
            player_wf(*old(self)),
            module.samples@.len() >= 31,
        ensures
            player_wf(*final(self)),
            *final(self) == (ModPlayer { mt_samplestarts: final(self).mt_samplestarts, ..*old(self) }),
            final(data).speed == 6,
            final(data).tempo == 125,
            final(data).pos == old(data).pos && final(data).row == old(data).row,
            final(data).frame == old(data).frame && final(data).song == old(data).song,
            final(data).initial_speed == old(data).initial_speed,
            final(data).initial_tempo == old(data).initial_tempo,
            final(data).loop_count == old(data).loop_count,
            final(data).end_point == old(data).end_point,
            final(data).scan_data == old(data).scan_data,
            forall|i: int| 0 <= i < 31 ==> #[trigger] final(self).mt_samplestarts@[i] == module.samples@[i].address,
            final(cmds)@ == old(cmds)@ + seq![
                MixerCmd::SetPan(0, -89isize), MixerCmd::SetPan(1, 88isize), MixerCmd::SetPan(2, 88isize),
                MixerCmd::SetPan(3, -89isize), MixerCmd::EnablePaula(true),
            ],
    {
        data.speed = 6;
        data.tempo = 125;
        let mut i: usize = 0;
        while i < 31
            invariant
                i <= 31,
                module.samples@.len() >= 31,
                player_wf(*self),
                *self == (ModPlayer { mt_samplestarts: self.mt_samplestarts, ..*old(self) }),
                forall|j: int| 0 <= j < i ==> #[trigger] self.mt_samplestarts@[j] == module.samples@[j].address,
            decreases 31 - i,
        {
            self.mt_samplestarts[i] = module.samples[i].address;
            i = i + 1;
        }
        let pan: isize = match self.options.option_int("pan") {
            Some(val) => val,
            None => 70,
        };
        proof {
            assert(pan == 70);
        }
        let panl = -128 * pan / 100;
        let panr = 127 * pan / 100;
        let ghost pre = cmds@;
        cmds.push(MixerCmd::SetPan(0, panl));
        cmds.push(MixerCmd::SetPan(1, panr));
        cmds.push(MixerCmd::SetPan(2, panr));
        cmds.push(MixerCmd::SetPan(3, panl));
        cmds.push(MixerCmd::EnablePaula(true));
        assert(cmds@ =~= pre + seq![
            MixerCmd::SetPan(0, -89isize), MixerCmd::SetPan(1, 88isize), MixerCmd::SetPan(2, 88isize),
            MixerCmd::SetPan(3, -89isize), MixerCmd::EnablePaula(true),
        ]);
    }

    /// Plays one tick of `module` (see `mt_music`) and reports the tick,
    /// row, position, speed and tempo.
    pub fn play(&mut self, data: &mut PlayerData, module: &ModData, cmds: &mut Vec<MixerCmd>)
        requires
            player_wf(*old(self)),
            module.instruments@.len() >= 31,
        ensures
            sequencer_tick(*old(self), *final(self)),
            old(self).mt_counter + 1 < old(self).mt_speed ==> *final(self) == later_tick(*old(self))
                && final(cmds)@ == old(cmds)@ + later_tick_cmds(*old(self)),
            old(self).mt_counter + 1 >= old(self).mt_speed ==> *final(self) == row_tick(*old(self), *module)
                && final(cmds)@ == old(cmds)@ + row_tick_cmds(*old(self), *module),
            final(self).mt_samplestarts == old(self).mt_samplestarts,
            final(self).options == old(self).options,
            final(data).frame == final(self).mt_counter,
            final(data).row == final(self).mt_pattern_pos,
            final(data).pos == final(self).mt_song_pos,
            final(data).speed == final(self).mt_speed,
            final(data).tempo == final(self).cia_tempo,
            final(data).song == old(data).song,
            final(data).initial_speed == old(data).initial_speed,
            final(data).initial_tempo == old(data).initial_tempo,
            final(data).loop_count == old(data).loop_count,
            final(data).end_point == old(data).end_point,
            final(data).scan_data == old(data).scan_data,
    {
        self.mt_music(module, cmds);
        data.frame = self.mt_counter as usize;
        data.row = self.mt_pattern_pos as usize;
        data.pos = self.mt_song_pos as usize;
        data.speed = self.mt_speed as usize;
        data.tempo = self.cia_tempo as usize;
    }

    /// Back to the start of the song at speed 6; the tempo and the channels
    /// stay.
    pub fn reset(&mut self)
        requires
            player_wf(*old(self)),
        ensures
            player_wf(*final(self)),
            *final(self) == (ModPlayer {
                mt_speed: 6,
                mt_counter: 0,
                mt_song_pos: 0,
                mt_pbreak_pos: 0,
                mt_pos_jump_flag: false,
                mt_pbreak_flag: false,
                mt_low_mask: 0,
                mt_patt_del_time: 0,
                mt_patt_del_time_2: 0,
                mt_pattern_pos: 0,
                ..*old(self)
            }),
    {
        self.mt_speed = 6;
        self.mt_counter = 0;
        self.mt_song_pos = 0;
        self.mt_pbreak_pos = 0;
        self.mt_pos_jump_flag = false;
        self.mt_pbreak_flag = false;
        self.mt_low_mask = 0;
        self.mt_patt_del_time = 0;
        self.mt_patt_del_time_2 = 0;
        self.mt_pattern_pos = 0;
    }
}

/// `p` is a replayer just started for `module`: speed 6, tempo 125, at the
/// start of the song, silent channels, the sample addresses taken.
pub open spec fn pt2_started(p: ModPlayer, module: ModData) -> bool {
    &&& p.mt_speed == 6 && p.mt_counter == 0 && p.mt_song_pos == 0 && p.mt_pbreak_pos == 0
    &&& !p.mt_pos_jump_flag && !p.mt_pbreak_flag && p.mt_low_mask == 0
    &&& p.mt_patt_del_time == 0 && p.mt_patt_del_time_2 == 0 && p.mt_pattern_pos == 0 && p.cia_tempo == 125
    &&& forall|c: int| 0 <= c < 4 ==> #[trigger] p.mt_chantemp@[c] == pt2_silent_channel()
    &&& forall|i: int| 0 <= i < 31 ==> #[trigger] p.mt_samplestarts@[i] == module.samples@[i].address
}

/// Every row lasts as many ticks as the speed: from the first tick of a
/// row at speed `s`, each of the next `s - 1` ticks advances the tick count
/// and keeps the row, position and speed, and the tick after them starts
/// the next row.
pub proof fn lemma_row_lasts_speed_ticks(states: Seq<ModPlayer>)
    requires
        states.len() >= 1,
        states[0].mt_counter == 0,
        states.len() - 1 <= states[0].mt_speed,
        forall|k: int| 0 <= k < states.len() - 1 ==> #[trigger] sequencer_tick(states[k], states[k + 1]),
    ensures
        forall|k: int| 0 <= k < states.len() && k < states[0].mt_speed ==> {
            &&& #[trigger] states[k].mt_counter == k
            &&& states[k].mt_pattern_pos == states[0].mt_pattern_pos
            &&& states[k].mt_song_pos == states[0].mt_song_pos
            &&& states[k].mt_speed == states[0].mt_speed
        },
        states.len() - 1 == states[0].mt_speed && states[0].mt_speed > 0 ==> states[states.len() - 1].mt_counter == 0,
    decreases states.len(),
{
    if states.len() > 1 {
        let prefix = states.drop_last();
        assert forall|k: int| 0 <= k < prefix.len() - 1 implies #[trigger] sequencer_tick(prefix[k], prefix[k + 1]) by {
            assert(sequencer_tick(states[k], states[k + 1]));
        }
        lemma_row_lasts_speed_ticks(prefix);
        let k: int = states.len() - 2;
        assert(0 <= k < states.len() - 1);
        assert(sequencer_tick(states[k], states[k + 1]));
        assert(prefix[k] == states[k]);
        assert forall|j: int| 0 <= j < prefix.len() implies #[trigger] prefix[j] == states[j] by {}
        assert(states[k].mt_counter == k && states[k].mt_speed == states[0].mt_speed
            && states[k].mt_pattern_pos == states[0].mt_pattern_pos && states[k].mt_song_pos == states[0].mt_song_pos);
        assert forall|j: int| 0 <= j < states.len() && j < states[0].mt_speed implies {
            &&& #[trigger] states[j].mt_counter == j
            &&& states[j].mt_pattern_pos == states[0].mt_pattern_pos
            &&& states[j].mt_song_pos == states[0].mt_song_pos
            &&& states[j].mt_speed == states[0].mt_speed
        } by {
            if j < prefix.len() {
                assert(prefix[j] == states[j]);
            }
        }
    }
}

/// The replayer after `k` passes over the end row of a pattern loop on
/// channel `chn`, a row break flag cleared before each pass as the row
/// change clears it.
pub open spec fn loop_passes(p: ModPlayer, chn: int, k: nat) -> ModPlayer
    decreases k,
{
    if k == 0 {
        p
    } else {
        jump_loop_state(ModPlayer { mt_pbreak_flag: false, ..loop_passes(p, chn, (k - 1) as nat) }, chn)
    }
}

proof fn lemma_chantemp_with(a: [ChannelData; 4], chn: int, c: ChannelData)
    requires
        0 <= chn < 4,
    ensures
        chantemp_with(a, chn, c)@[chn] == c,
{
}

/// After `k` passes (`1 <= k <= x`) of a loop of `x` repeats the loop
/// count is `x - k + 1` and the break back to the loop row is pending.
proof fn lemma_loop_passes(p: ModPlayer, chn: int, x: u8, k: nat)
    requires
        0 <= chn < 4,
        1 <= x <= 15,
        p.mt_chantemp@[chn].n_cmdlo == 0x60 | x,
        p.mt_chantemp@[chn].n_loopcount == 0,
        1 <= k <= x,
    ensures
        loop_passes(p, chn, k).mt_chantemp@[chn] == (ChannelData {
            n_loopcount: (x - k + 1) as u8,
            inside_loop: true,
            ..p.mt_chantemp@[chn]
        }),
        loop_passes(p, chn, k).mt_pbreak_flag,
        loop_passes(p, chn, k).mt_pbreak_pos == p.mt_chantemp@[chn].n_pattpos,
    decreases k,
{
    let c = p.mt_chantemp@[chn].n_cmdlo;
    assert(c & 0x0f == x) by (bit_vector)
        requires c == 0x60 | x, 1 <= x <= 15;
    if k == 1 {
        let q = ModPlayer { mt_pbreak_flag: false, ..p };
        let ch = q.mt_chantemp@[chn];
        let nc = ChannelData { n_loopcount: x, inside_loop: true, ..ch };
        lemma_chantemp_with(q.mt_chantemp, chn, nc);
    } else {
        lemma_loop_passes(p, chn, x, (k - 1) as nat);
        let q = ModPlayer { mt_pbreak_flag: false, ..loop_passes(p, chn, (k - 1) as nat) };
        let ch = q.mt_chantemp@[chn];
        let nc = ChannelData { n_loopcount: (ch.n_loopcount - 1) as u8, ..ch };
        lemma_chantemp_with(q.mt_chantemp, chn, nc);
    }
}

/// A pattern loop E6x (`1 <= x <= 15`) whose count starts at zero plays its
/// body `x + 1` times: each of the first `x` passes over its end row sets
/// the break back to the loop row, and the pass after them breaks no more
/// and leaves the loop with its count at zero.
pub proof fn lemma_pattern_loop_repeats(p: ModPlayer, chn: int, x: u8)
    requires
        0 <= chn < 4,
        1 <= x <= 15,
        p.mt_chantemp@[chn].n_cmdlo == 0x60 | x,
        p.mt_chantemp@[chn].n_loopcount == 0,
    ensures
        forall|k: nat| 1 <= k <= x ==> {
            &&& (#[trigger] loop_passes(p, chn, k)).mt_pbreak_flag
            &&& loop_passes(p, chn, k).mt_pbreak_pos == p.mt_chantemp@[chn].n_pattpos
        },
        !loop_passes(p, chn, (x + 1) as nat).mt_pbreak_flag,
        loop_passes(p, chn, (x + 1) as nat).mt_chantemp@[chn].n_loopcount == 0,
        !loop_passes(p, chn, (x + 1) as nat).mt_chantemp@[chn].inside_loop,
{
    assert forall|k: nat| 1 <= k <= x implies {
        &&& (#[trigger] loop_passes(p, chn, k)).mt_pbreak_flag
        &&& loop_passes(p, chn, k).mt_pbreak_pos == p.mt_chantemp@[chn].n_pattpos
    } by {
        lemma_loop_passes(p, chn, x, k);
    }
    lemma_loop_passes(p, chn, x, x as nat);
    let c = p.mt_chantemp@[chn].n_cmdlo;
    assert(c & 0x0f == x) by (bit_vector)
        requires c == 0x60 | x, 1 <= x <= 15;
    let q = ModPlayer { mt_pbreak_flag: false, ..loop_passes(p, chn, x as nat) };
    let ch = q.mt_chantemp@[chn];
    let nc = ChannelData { n_loopcount: 0, inside_loop: false, ..ch };
    lemma_chantemp_with(q.mt_chantemp, chn, nc);
}

} // verus!
