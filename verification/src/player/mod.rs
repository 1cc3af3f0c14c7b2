//! The players: their registry, the state they share with the caller, and
//! the format players themselves.

pub mod options;
pub mod protracker;
pub mod noisetracker;
pub mod hmn;
pub mod ust;
pub mod soundtracker;
pub mod st2;
pub mod st3;

use vstd::prelude::*;
use crate::text::{str_eq, push_str, chars_to_string, debug_str, spec_debug_str};
use crate::{Error, format_error};

verus! {

/// Description of a player.
pub struct PlayerInfo {
    pub id: &'static str,
    pub name: &'static str,
    pub description: &'static str,
    pub author: &'static str,
    /// The format identifiers this player plays.
    pub accepts: &'static [&'static str],
}

/// The formats a player accepts, as character sequences.
pub open spec fn accepts_view(info: PlayerInfo) -> Seq<Seq<char>> {
    info.accepts@.map_values(|s: &str| s@)
}

/// Identifiers of the registered players, in registry order.
pub open spec fn player_ids() -> Seq<Seq<char>> {
    seq!["pt2"@, "nt11"@, "st2"@, "st3"@, "dst2"@, "ust"@, "hmn"@]
}

/// The formats accepted by the registered player at `i`.
pub open spec fn player_accepts(i: int) -> Seq<Seq<char>> {
    if i == 0 { seq!["mod"@, "m.k."@] }
    else if i == 1 { seq!["mod"@, "m.k."@] }
    else if i == 2 { seq!["stm"@] }
    else if i == 3 { seq!["s3m"@, "m.k."@, "xxch"@] }
    else if i == 4 { seq!["st"@] }
    else if i == 5 { seq!["m15"@, "st"@] }
    else { seq!["fest"@, "m.k."@] }
}

/// `info` is the registry entry at `i`.
pub open spec fn is_registered(info: PlayerInfo, i: int) -> bool {
    &&& 0 <= i < 7
    &&& info.id@ == player_ids()[i]
    &&& accepts_view(info) == player_accepts(i)
}

/// The index of the first registered player with identifier `id`, if any.
pub open spec fn player_index(id: Seq<char>) -> Option<int> {
    if exists|i: int| 0 <= i < 7 && player_ids()[i] == id {
        Some(choose|i: int| 0 <= i < 7 && player_ids()[i] == id)
    } else {
        None
    }
}

/// Protracker 2.1A player.
pub struct Pt21a;

/// Noisetracker 1.1 player.
pub struct Nt11;

/// Scream Tracker 2.21 player.
pub struct St2;

/// Scream Tracker 3.21 player.
pub struct St3;

/// D.O.C. SoundTracker 2.0 player.
pub struct DocSt2;

/// Ultimate Soundtracker 27 player.
pub struct Ust27;

/// His Master's Noise player.
pub struct Hmn;

impl Pt21a {
    pub fn info(&self) -> (r: PlayerInfo)
        ensures
            is_registered(r, 0),
    {
        let r = PlayerInfo {
            id: "pt2",
            name: "\"Vinterstigen\" PT2.1A replayer + fixes",
            description: "A mod player based on the on the Protracker 2.1A replayer + 2.3D fixes",
            author: "Claudio Matsuoka",
            accepts: &["mod", "m.k."],
        };
        assert(accepts_view(r) =~= player_accepts(0));
        r
    }
}

impl Nt11 {
    pub fn info(&self) -> (r: PlayerInfo)
        ensures
            is_registered(r, 1),
    {
        let r = PlayerInfo {
            id: "nt11",
            name: "Noisetracker v1.1 replayer",
            description: "A mod player based on the on the original Noisetracker V1.1 replayer",
            author: "Claudio Matsuoka",
            accepts: &["mod", "m.k."],
        };
        assert(accepts_view(r) =~= player_accepts(1));
        r
    }
}

impl St2 {
    pub fn info(&self) -> (r: PlayerInfo)
        ensures
            is_registered(r, 2),
    {
        let r = PlayerInfo {
            id: "st2",
            name: "st2play(ox) ST2.21 replayer",
            description: "A port of the Scream Tracker 2.21 replayer",
            author: "Sergei \"x0r\" Kolzun, Claudio Matsuoka",
            accepts: &["stm"],
        };
        assert(accepts_view(r) =~= player_accepts(2));
        r
    }
}

impl St3 {
    pub fn info(&self) -> (r: PlayerInfo)
        ensures
            is_registered(r, 3),
    {
        let r = PlayerInfo {
            id: "st3",
            name: "st3play 0.78",
            description: "A port of the Scream Tracker 3.21 replayer",
            author: "Olav \"8bitbubsy\" Sørensen, Claudio Matsuoka",
            accepts: &["s3m", "m.k.", "xxch"],
        };
        assert(accepts_view(r) =~= player_accepts(3));
        r
    }
}

impl DocSt2 {
    pub fn info(&self) -> (r: PlayerInfo)
        ensures
            is_registered(r, 4),
    {
        let r = PlayerInfo {
            id: "dst2",
            name: "D.O.C SoundTracker V2.0",
            description: "A port of the D.O.C. SoundTracker V2.0 playroutine by Unknown of D.O.C",
            author: "Claudio Matsuoka",
            accepts: &["st"],
        };
        assert(accepts_view(r) =~= player_accepts(4));
        r
    }
}

impl Ust27 {
    pub fn info(&self) -> (r: PlayerInfo)
        ensures
            is_registered(r, 5),
    {
        let r = PlayerInfo {
            id: "ust",
            name: "Ultimate Soundtracker V27 replayer",
            description: "Port of the Ultimate Soundtracker replayer version 27 \"All bugs removed\" (29.03.1988)",
            author: "Claudio Matsuoka",
            accepts: &["m15", "st"],
        };
        assert(accepts_view(r) =~= player_accepts(5));
        r
    }
}

impl Hmn {
    pub fn info(&self) -> (r: PlayerInfo)
        ensures
            is_registered(r, 6),
    {
        let r = PlayerInfo {
            id: "hmn",
            name: "His Master's Noise replayer",
            description: "JAG VILL HELST HA EN GET I JULKLAPP",
            author: "Claudio Matsuoka",
            accepts: &["fest", "m.k."],
        };
        assert(accepts_view(r) =~= player_accepts(6));
        r
    }
}

/// The registered identifiers are pairwise distinct.
pub proof fn lemma_player_ids_distinct()
    ensures
        forall|a: int, b: int| 0 <= a < 7 && 0 <= b < 7 && a != b ==> player_ids()[a] != player_ids()[b],
{
    reveal_strlit("pt2");
    reveal_strlit("nt11");
    reveal_strlit("st2");
    reveal_strlit("st3");
    reveal_strlit("dst2");
    reveal_strlit("ust");
    reveal_strlit("hmn");
    let ids = player_ids();
    assert(ids[0][0] == 'p' && ids[0].len() == 3 && ids[0][2] == '2');
    assert(ids[1].len() == 4 && ids[1][0] == 'n');
    assert(ids[2][0] == 's' && ids[2].len() == 3 && ids[2][2] == '2');
    assert(ids[3][0] == 's' && ids[3].len() == 3 && ids[3][2] == '3');
    assert(ids[4].len() == 4 && ids[4][0] == 'd');
    assert(ids[5][0] == 'u' && ids[5].len() == 3);
    assert(ids[6][0] == 'h' && ids[6].len() == 3);
}

/// The registry round trip: the identifiers of the registered players are
/// pairwise distinct, each one finds its own entry (so `list_by_id` gives
/// back the entry that `list` has at that place), and an identifier that
/// no registered player has finds none.
pub proof fn lemma_registry_round_trip(id: Seq<char>)
    ensures
        forall|a: int, b: int| 0 <= a < 7 && 0 <= b < 7 && a != b ==> player_ids()[a] != player_ids()[b],
        forall|i: int| 0 <= i < 7 ==> player_index(#[trigger] player_ids()[i]) == Some(i),
        player_index(id) is None <==> !player_ids().contains(id),
{
    lemma_player_ids_distinct();
    assert forall|i: int| 0 <= i < 7 implies player_index(#[trigger] player_ids()[i]) == Some(i) by {
        let x = player_ids()[i];
        assert(0 <= i < 7 && player_ids()[i] == x);
        let j = choose|j: int| 0 <= j < 7 && player_ids()[j] == x;
        assert(player_ids()[j] == x);
    }
    if player_ids().contains(id) {
        let i = choose|i: int| 0 <= i < player_ids().len() && player_ids()[i] == id;
        assert(player_ids()[i] == id);
    }
}

/// The registry entry at `i`.
fn entry_info(i: usize) -> (r: PlayerInfo)
    requires
        i < 7,
    ensures
        is_registered(r, i as int),
{
    if i == 0 { Pt21a.info() }
    else if i == 1 { Nt11.info() }
    else if i == 2 { St2.info() }
    else if i == 3 { St3.info() }
    else if i == 4 { DocSt2.info() }
    else if i == 5 { Ust27.info() }
    else { Hmn.info() }
}

/// Descriptions of all registered players, in registry order.
pub fn list() -> (r: Vec<PlayerInfo>)
    ensures
        r@.len() == 7,
        forall|i: int| 0 <= i < 7 ==> is_registered(#[trigger] r@[i], i),
{
    let mut v: Vec<PlayerInfo> = Vec::new();
    let mut i: usize = 0;
    while i < 7
        invariant
            i <= 7,
            v@.len() == i,
            forall|j: int| 0 <= j < i ==> is_registered(#[trigger] v@[j], j),
        decreases 7 - i,
    {
        v.push(entry_info(i));
        i = i + 1;
    }
    v
}

pub open spec fn not_found_msg(id: Seq<char>) -> Seq<char> {
    "player "@ + spec_debug_str(id) + " not found"@
}

/// The registry entry of the player with identifier `player_id`.
pub fn list_by_id(player_id: &str) -> (r: Result<PlayerInfo, Error>)
    ensures
        player_index(player_id@) matches Some(i) ==> (r matches Ok(info) && is_registered(info, i)),
        player_index(player_id@) is None ==> (r matches Err(e) && format_error(e, not_found_msg(player_id@))),
{
    let mut i: usize = 0;
    while i < 7
        invariant
            i <= 7,
            forall|j: int| 0 <= j < i ==> player_ids()[j] != player_id@,
        decreases 7 - i,
    {
        let info = entry_info(i);
        if str_eq(player_id, info.id) {
            proof {
                let k = choose|k: int| 0 <= k < 7 && player_ids()[k] == player_id@;
                assert(player_ids()[i as int] == player_id@);
                assert(k == i) by {
                    if k < i { assert(player_ids()[k] != player_id@); }
                    else if k > i {
                        lemma_player_ids_distinct();
                    }
                }
            }
            return Ok(info);
        }
        i = i + 1;
    }
    let mut v: Vec<char> = Vec::new();
    push_str(&mut v, "player ");
    let d = debug_str(player_id);
    push_str(&mut v, d.as_str());
    push_str(&mut v, " not found");
    Err(Error::Format(chars_to_string(&v)))
}

/// Whether `s` is among `list`.
pub fn contains_str(list: &[&str], s: &str) -> (r: bool)
    ensures
        r == list@.map_values(|x: &str| x@).contains(s@),
{
    let ghost m = list@.map_values(|x: &str| x@);
    let mut i: usize = 0;
    while i < list.len()
        invariant
            i <= list@.len(),
            m == list@.map_values(|x: &str| x@),
            forall|j: int| 0 <= j < i ==> m[j] != s@,
        decreases list.len() - i,
    {
        if str_eq(list[i], s) {
            assert(m[i as int] == s@);
            return true;
        }
        i = i + 1;
    }
    false
}

/// The formats accepted by the player `player_id`; none for an unknown player.
pub open spec fn accepted_formats(player_id: Seq<char>) -> Seq<Seq<char>> {
    match player_index(player_id) {
        Some(i) => player_accepts(i),
        None => Seq::empty(),
    }
}

pub open spec fn not_accepted_msg(fmt: Seq<char>, id: Seq<char>) -> Seq<char> {
    "format "@ + spec_debug_str(fmt) + " not accepted by player "@ + spec_debug_str(id)
}

/// What `check_accepted` gives: whether a known player was found that plays
/// the format, or the error message when it does not play it.
pub open spec fn spec_check_accepted(player_id: Seq<char>, fmt: Seq<char>) -> Result<bool, Seq<char>> {
    if player_id.len() == 0 || player_index(player_id) is None {
        Ok(false)
    } else if accepted_formats(player_id).contains(fmt) {
        Ok(true)
    } else {
        Err(not_accepted_msg(fmt, player_id))
    }
}

/// Checks that the player `player_id` plays the format `my_fmt`. An empty
/// identifier, or that of no registered player, accepts every format
/// (`Ok(false)`); a player that plays it gives `Ok(true)`; one that does not
/// play it gives an error.
pub fn check_accepted(player_id: &str, my_fmt: &str) -> (r: Result<bool, Error>)
    ensures
        (player_id@.len() == 0 || player_index(player_id@) is None) ==> (r matches Ok(b) && !b),
        player_id@.len() != 0 && player_index(player_id@) is Some
            && accepted_formats(player_id@).contains(my_fmt@) ==> (r matches Ok(b) && b),
        player_id@.len() != 0 && player_index(player_id@) is Some
            && !accepted_formats(player_id@).contains(my_fmt@)
            ==> (r matches Err(e) && format_error(e, not_accepted_msg(my_fmt@, player_id@))),
        match spec_check_accepted(player_id@, my_fmt@) {
            Ok(b) => r matches Ok(x) && x == b,
            Err(m) => r matches Err(e) && format_error(e, m),
        },
{
    if player_id.is_empty() {
        return Ok(false);
    }
    let info = match list_by_id(player_id) {
        Ok(info) => info,
        Err(_) => return Ok(false),
    };
    if !contains_str(info.accepts, my_fmt) {
        let mut v: Vec<char> = Vec::new();
        push_str(&mut v, "format ");
        let d1 = debug_str(my_fmt);
        push_str(&mut v, d1.as_str());
        push_str(&mut v, " not accepted by player ");
        let d2 = debug_str(player_id);
        push_str(&mut v, d2.as_str());
        return Err(Error::Format(chars_to_string(&v)));
    }
    Ok(true)
}

/// The maximum number of sequences (songs) of a module.
pub const MAX_SEQUENCES: usize = 16;

/// Where a scan found a sequence to end: its order, row and the number of
/// times the end point is passed before the module counts as looped.
#[derive(Clone, Copy, Debug)]
pub struct ScanData {
    pub time: usize,
    pub ord: usize,
    pub row: usize,
    pub num: usize,
}

impl ScanData {
    /// Scan data with all values zero.
    pub fn new() -> (r: Self)
        ensures
            r.time == 0 && r.ord == 0 && r.row == 0 && r.num == 0,
    {
        ScanData { time: 0, ord: 0, row: 0, num: 0 }
    }
}

/// The replay position and timing that a player shares with its caller.
pub struct PlayerData {
    pub pos: usize,
    pub row: usize,
    pub frame: usize,
    pub song: usize,
    pub speed: usize,
    pub tempo: usize,
    pub initial_speed: usize,
    pub initial_tempo: usize,
    pub loop_count: usize,
    pub end_point: usize,
    pub scan_data: [ScanData; 16],
}

/// The replay is at the end point found for its sequence.
pub open spec fn at_end_point(d: PlayerData) -> bool {
    d.pos == d.scan_data@[d.song as int].ord && d.row == d.scan_data@[d.song as int].row
}

impl PlayerData {
    /// Player data with all values zero.
    pub fn new() -> (r: Self)
        ensures
            r.pos == 0 && r.row == 0 && r.frame == 0 && r.song == 0,
            r.speed == 0 && r.tempo == 0 && r.initial_speed == 0 && r.initial_tempo == 0,
            r.loop_count == 0 && r.end_point == 0,
            forall|i: int| 0 <= i < 16 ==> #[trigger] r.scan_data@[i].ord == 0 && r.scan_data@[i].row == 0
                && r.scan_data@[i].num == 0 && r.scan_data@[i].time == 0,
    {
        let z = ScanData::new();
        PlayerData {
            pos: 0,
            row: 0,
            frame: 0,
            song: 0,
            speed: 0,
            tempo: 0,
            initial_speed: 0,
            initial_tempo: 0,
            loop_count: 0,
            end_point: 0,
            scan_data: [z; 16],
        }
    }

    /// Back to the start of the first sequence, at the initial speed and
    /// tempo.
    pub fn reset(&mut self)
        ensures
            final(self).pos == 0 && final(self).row == 0 && final(self).frame == 0 && final(self).song == 0,
            final(self).speed == old(self).initial_speed,
            final(self).tempo == old(self).initial_tempo,
            final(self).initial_speed == old(self).initial_speed,
            final(self).initial_tempo == old(self).initial_tempo,
            final(self).loop_count == old(self).loop_count,
            final(self).end_point == old(self).end_point,
            final(self).scan_data == old(self).scan_data,
    {
        self.pos = 0;
        self.row = 0;
        self.frame = 0;
        self.song = 0;
        self.speed = self.initial_speed;
        self.tempo = self.initial_tempo;
    }

    /// Counts a pass of the end point of the current sequence: the first of
    /// the passes the scan found counts a loop of the module.
    pub fn check_end_of_module(&mut self)
        requires
            old(self).song < 16,
            at_end_point(*old(self)) && old(self).end_point == 0
                ==> old(self).scan_data@[old(self).song as int].num > 0 && old(self).loop_count < usize::MAX,
        ensures
            !at_end_point(*old(self)) ==> *final(self) == *old(self),
            at_end_point(*old(self)) && old(self).end_point == 0 ==> {
                &&& final(self).loop_count == old(self).loop_count + 1
                &&& final(self).end_point == old(self).scan_data@[old(self).song as int].num - 1
            },
            at_end_point(*old(self)) && old(self).end_point != 0 ==> {
                &&& final(self).loop_count == old(self).loop_count
                &&& final(self).end_point == old(self).end_point - 1
            },
            final(self).pos == old(self).pos && final(self).row == old(self).row,
            final(self).frame == old(self).frame && final(self).song == old(self).song,
            final(self).speed == old(self).speed && final(self).tempo == old(self).tempo,
            final(self).scan_data == old(self).scan_data,
    {
        let song = self.song;
        if self.pos == self.scan_data[song].ord && self.row == self.scan_data[song].row {
            if self.end_point == 0 {
                self.loop_count = self.loop_count + 1;
                self.end_point = self.scan_data[song].num;
            }
            self.end_point = self.end_point - 1;
        }
    }
}

/// The replay position of a frame.
#[derive(Debug)]
pub struct FrameInfo {
    pub pos: usize,
    pub row: usize,
    pub frame: usize,
    pub song: usize,
    pub tempo: usize,
    pub speed: usize,
}

impl FrameInfo {
    /// Frame information with all values zero.
    pub fn new() -> (r: Self)
        ensures
            r.pos == 0 && r.row == 0 && r.frame == 0 && r.song == 0 && r.tempo == 0 && r.speed == 0,
    {
        FrameInfo { pos: 0, row: 0, frame: 0, song: 0, tempo: 0, speed: 0 }
    }
}

/// What a player asks of the mixer on a channel (voice), in order.
#[derive(Clone, Copy, Debug, PartialEq, Eq, Structural)]
pub enum MixerCmd {
    /// Plays the voice at an Amiga period.
    SetPeriod(usize, i32),
    /// Sets the voice volume, 0 to 1024.
    SetVolume(usize, usize),
    /// Sets the voice pan, -128 (left) to 127 (right).
    SetPan(usize, isize),
    /// Moves the voice to a position in its sample.
    SetVoicePos(usize, u32),
    /// Starts the voice on the sample data at an address.
    SetSamplePtr(usize, u32),
    /// Starts the voice on an instrument's sample: voice, instrument,
    /// sample.
    SetPatch(usize, usize, usize),
    SetLoopStart(usize, u32),
    SetLoopEnd(usize, u32),
    EnableLoop(usize, bool),
    /// Switches the Amiga low-pass filter.
    EnableFilter(bool),
    /// Switches Amiga (Paula) emulation.
    EnablePaula(bool),
    /// Mutes or unmutes a voice.
    SetMute(usize, bool),
    /// Mutes or unmutes every voice.
    SetMuteAll(bool),
    /// Plays the voice at a period of a quarter of the value (Scream
    /// Tracker 3 speed units).
    SetQuarterPeriod(usize, i32),
    /// Sets the voice volume to 1024 scaled by the sample volume over 63,
    /// the channel volume over 64 and the global volume over 64.
    SetScaledVolume(usize, i8, i8, i16),
}

/// The voice a command addresses, if any.
pub open spec fn cmd_voice(c: MixerCmd) -> Option<usize> {
    match c {
        MixerCmd::SetPeriod(v, _) => Some(v),
        MixerCmd::SetVolume(v, _) => Some(v),
        MixerCmd::SetPan(v, _) => Some(v),
        MixerCmd::SetVoicePos(v, _) => Some(v),
        MixerCmd::SetSamplePtr(v, _) => Some(v),
        MixerCmd::SetPatch(v, _, _) => Some(v),
        MixerCmd::SetLoopStart(v, _) => Some(v),
        MixerCmd::SetLoopEnd(v, _) => Some(v),
        MixerCmd::EnableLoop(v, _) => Some(v),
        MixerCmd::EnableFilter(_) => None,
        MixerCmd::EnablePaula(_) => None,
        MixerCmd::SetMute(v, _) => Some(v),
        MixerCmd::SetMuteAll(_) => None,
        MixerCmd::SetQuarterPeriod(v, _) => Some(v),
        MixerCmd::SetScaledVolume(v, _, _, _) => Some(v),
    }
}

/// Every command addresses a voice below `n`, or none.
pub open spec fn voices_below(cmds: Seq<MixerCmd>, n: int) -> bool {
    forall|i: int| 0 <= i < cmds.len() ==> (#[trigger] cmd_voice(cmds[i]) matches Some(v) ==> v < n)
}

/// How far the samples of the last mixed frame have been handed out:
/// `consumed` of `in_size`.
pub struct FrameCursor {
    pub consumed: usize,
    pub in_size: usize,
}

impl FrameCursor {
    /// No frame yet.
    pub fn new() -> (r: Self)
        ensures
            r.consumed == 0 && r.in_size == 0,
    {
        FrameCursor { consumed: 0, in_size: 0 }
    }

    /// The last frame is used up: the next one must be played and mixed.
    pub fn needs_frame(&self) -> (r: bool)
        ensures
            r == (self.consumed == self.in_size),
    {
        self.consumed == self.in_size
    }

    /// A frame of `size` samples was mixed.
    pub fn start_frame(&mut self, size: usize)
        ensures
            final(self).consumed == 0 && final(self).in_size == size,
    {
        self.consumed = 0;
        self.in_size = size;
    }

    /// Copies samples of the mixed `frame` into `out` from position
    /// `filled`: as many as both have left. Returns the new fill position.
    pub fn copy_out(&mut self, frame: &[i16], out: &mut [i16], filled: usize) -> (r: usize)
        requires
            filled <= old(out)@.len(),
            old(self).consumed <= old(self).in_size,
            old(self).in_size == frame@.len(),
        ensures
            ({
                let n = if old(out)@.len() - filled < old(self).in_size - old(self).consumed {
                    old(out)@.len() - filled
                } else {
                    old(self).in_size - old(self).consumed
                };
                &&& r == filled + n
                &&& final(self).consumed == old(self).consumed + n
                &&& final(self).in_size == old(self).in_size
                &&& final(out)@ == old(out)@.subrange(0, filled as int)
                    + frame@.subrange(old(self).consumed as int, old(self).consumed + n)
                    + old(out)@.subrange(filled + n, old(out)@.len() as int)
            }),
    {
        let left_out = out.len() - filled;
        let left_in = self.in_size - self.consumed;
        let n = if left_out < left_in { left_out } else { left_in };
        let mut k: usize = 0;
        while k < n
            invariant
                k <= n,
                filled + n <= out.len(),
                self.consumed + n <= self.in_size,
                self.in_size == frame@.len(),
                filled <= old(out)@.len(),
                out@.len() == old(out)@.len(),
                forall|j: int| 0 <= j < filled ==> #[trigger] out@[j] == old(out)@[j],
                forall|j: int| filled <= j < filled + k ==> #[trigger] out@[j] == frame@[self.consumed + (j - filled)],
                forall|j: int| filled + k <= j < out@.len() ==> #[trigger] out@[j] == old(out)@[j],
            decreases n - k,
        {
            out[filled + k] = frame[self.consumed + k];
            k = k + 1;
        }
        let ghost c0 = self.consumed;
        self.consumed = self.consumed + n;
        assert(out@ =~= old(out)@.subrange(0, filled as int)
            + frame@.subrange(c0 as int, c0 + n)
            + old(out)@.subrange(filled + n, old(out)@.len() as int));
        filled + n
    }
}

} // verus!
