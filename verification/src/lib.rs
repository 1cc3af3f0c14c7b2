use vstd::prelude::*;
use crate::module::{Module, ModuleData, module_title};
use crate::player::{PlayerInfo, PlayerData, FrameInfo, MixerCmd, list_by_id, player_index, is_registered,
    not_found_msg, contains_str, accepts_view};
use crate::player::options::Options;
use crate::player::protracker::{ModPlayer, player_wf, later_tick, later_tick_cmds, row_tick, row_tick_cmds, pt2_started};
use crate::player::noisetracker::{nt_wf, nt_tick, nt_started};
use crate::player::hmn::{HmnPlayer, hmn_wf, hmn_tick, hmn_started};
use crate::player::ust::{USTPlayer, ust_wf, ust_tick, ust_started};
use crate::player::soundtracker::{StPlayer, st_wf, st_tick, st_started};
use crate::player::st3::{St3Play, st3_wf, st3_started};
use crate::player::st3::tick::{st3_dorow, st3_start, st3_zero};
use crate::player::st3::import::{from_mod, imported, import_channels};
use crate::player::st2::{St2Play, st2_rest_channel};
use crate::format::{FormatInfo, load_requires, load_ok, format_load_result};
use crate::text::{str_string, str_eq, push_str, chars_to_string, debug_str, spec_debug_str};

pub mod text;
pub mod util;
pub mod module;
pub mod player;
pub mod format;
pub mod mixer;

verus! {

/// Errors of loading and playing a module.
#[derive(Debug)]
pub enum Error {
    Format(String),
    Player(String),
    Load(String),
}

/// `e` is a format error with the message `m`.
pub open spec fn format_error(e: Error, m: Seq<char>) -> bool {
    e matches Error::Format(s) && s@ == m
}

/// `e` is a player error with the message `m`.
pub open spec fn player_error(e: Error, m: Seq<char>) -> bool {
    e matches Error::Player(s) && s@ == m
}

/// `e` is a load error with the message `m`.
pub open spec fn load_error(e: Error, m: Seq<char>) -> bool {
    e matches Error::Load(s) && s@ == m
}

/// The C-0 period.
pub const PERIOD_BASE_INT: i32 = 13696;
pub const MAX_RATE: i32 = 96000;
pub const MIN_RATE: i32 = 4000;
pub const MIN_BPM: i32 = 20;
/// The most samples a frame holds: five times the highest rate over the
/// lowest tempo.
pub const MAX_FRAMESIZE: usize = 24000;
pub const MAX_KEYS: usize = 128;
pub const MAX_CHANNELS: usize = 64;

/// What a module is: title, format, tracker, channels and player.
#[derive(Debug)]
pub struct ModuleInfo {
    pub title: String,
    pub format_id: &'static str,
    pub description: String,
    pub creator: String,
    pub channels: usize,
    pub player: &'static str,
    /// Replay time in milliseconds.
    pub total_time: u32,
}

impl ModuleInfo {
    /// Empty module information.
    pub fn new() -> (r: Self)
        ensures
            r.title@ == Seq::<char>::empty(),
            r.format_id@ == ""@,
            r.description@ == Seq::<char>::empty(),
            r.creator@ == Seq::<char>::empty(),
            r.channels == 0,
            r.player@ == ""@,
            r.total_time == 0,
    {
        ModuleInfo {
            title: String::new(),
            format_id: "",
            description: String::new(),
            creator: String::new(),
            channels: 0,
            player: "",
            total_time: 0,
        }
    }
}

/// The replayers of this library, by the format family they play.
pub enum FormatPlayer {
    Pt2(ModPlayer),
    Nt(crate::player::noisetracker::ModPlayer),
    Hmn(HmnPlayer),
    Ust(USTPlayer),
    DocSt2(StPlayer),
    St3(St3Play),
    St2(St2Play),
}

/// A module and its replay: the player state, the replay position shared
/// with the caller, and the mixer commands not yet carried out.
pub struct Oxdz {
    pub module: Module,
    pub player: FormatPlayer,
    pub data: PlayerData,
    pub rate: u32,
    pub player_id: String,
    pub commands: Vec<MixerCmd>,
}

/// The error for a player that does not take a module's format.
pub open spec fn unsupported_msg(id: Seq<char>, player_id: Seq<char>) -> Seq<char> {
    "player "@ + spec_debug_str(id) + " does not support format "@ + spec_debug_str(player_id)
}

/// The error for a player this library does not provide, or that cannot
/// play the module's data.
pub open spec fn unavailable_msg(id: Seq<char>) -> Seq<char> {
    "player "@ + spec_debug_str(id) + " is not available for this module"@
}

/// The replay of `o` is well formed: the player keeps its invariant and
/// has the module data it plays; the Noisetracker replayer also finds its
/// row and tick in the replay position.
pub open spec fn oxdz_wf(o: Oxdz) -> bool {
    match o.player {
        FormatPlayer::Pt2(p) => player_wf(p) && (o.module.data matches ModuleData::Mod(d)
            && d.instruments@.len() >= 31),
        FormatPlayer::Nt(p) => nt_wf(p) && o.module.data is Mod && o.data.row < 64 && o.data.frame < 32,
        FormatPlayer::Hmn(p) => hmn_wf(p) && o.module.data is Mod,
        FormatPlayer::Ust(p) => ust_wf(p) && o.module.data is St,
        FormatPlayer::DocSt2(p) => st_wf(p) && o.module.data is St,
        FormatPlayer::St3(p) => st3_wf(p) && (o.module.data matches ModuleData::S3m(d)
            && d.orders@.len() >= 1 && d.wf()),
        FormatPlayer::St2(_) => true,
    }
}

/// The player `id` of this library can play `m`: the Protracker replayer
/// a module with the 31 instruments and samples, the His Master's Noise
/// replayer one with the 31 samples, the Noisetracker replayer any module
/// of the family, the Ultimate and D.O.C Soundtracker replayers a
/// 15-instrument module with its 15 samples, the Scream Tracker 3
/// replayer an S3M module with an order list or a MOD module of 31
/// instruments that imports, the Scream Tracker 2 replayer an STM module.
pub open spec fn playable(m: Module, id: Seq<char>) -> bool {
    ||| id == "pt2"@ && m.data is Mod && m.data->Mod_0.instruments@.len() >= 31
        && m.data->Mod_0.samples@.len() >= 31
    ||| id == "nt11"@ && m.data is Mod
    ||| id == "hmn"@ && m.data is Mod && m.data->Mod_0.samples@.len() >= 31
    ||| (id == "ust"@ || id == "dst2"@) && m.data is St && m.data->St_0.samples@.len() >= 15
    ||| id == "st3"@ && m.data is S3m && m.data->S3m_0.orders@.len() >= 1 && m.data->S3m_0.wf()
    ||| id == "st3"@ && m.data is Mod && m.data->Mod_0.instruments@.len() >= 31 && import_channels(m.format_id@) != 0
    ||| id == "st2"@ && m.data is Stm
}

/// The module a replay of `m` by player `id` plays: the Scream Tracker 3
/// replayer plays a MOD module imported as S3M (see `imported`), every
/// other replay the module itself.
pub open spec fn replayed(r: Module, m: Module, id: Seq<char>) -> bool {
    if id == "st3"@ && m.data is Mod { imported(m, r) } else { r == m }
}

/// The commands a player leaves when it starts: the pans of the four
/// channels, and Amiga emulation for all but the Noisetracker replayer;
/// none for the Scream Tracker 2 and 3 replayers.
pub open spec fn start_cmds(id: Seq<char>) -> Seq<MixerCmd> {
    let pans = seq![
        MixerCmd::SetPan(0, -89isize), MixerCmd::SetPan(1, 88isize), MixerCmd::SetPan(2, 88isize),
        MixerCmd::SetPan(3, -89isize),
    ];
    if id == "st3"@ || id == "st2"@ {
        seq![]
    } else if id == "nt11"@ {
        pans
    } else {
        pans.push(MixerCmd::EnablePaula(true))
    }
}

/// `o` is a replay of `m` just started at rate `rate` by player `id`: the
/// module it plays (see `replayed`), the position at the start, speed 6
/// and tempo 125 (the module's tempo for the Soundtracker replayers, the
/// replayer's own for Scream Tracker 3, 0 for the idle Scream Tracker 2
/// replayer), the start commands pending, and the player's own state as
/// its `new` and `start` leave it.
pub open spec fn started(o: Oxdz, m: Module, rate: u32, id: Seq<char>) -> bool {
    &&& oxdz_wf(o)
    &&& replayed(o.module, m, id)
    &&& o.rate == rate
    &&& o.player_id@ == id
    &&& (id == "pt2"@ ==> (o.player matches FormatPlayer::Pt2(p) && pt2_started(p, m.data->Mod_0)))
    &&& (id == "nt11"@ ==> (o.player matches FormatPlayer::Nt(p) && nt_started(p)))
    &&& (id == "hmn"@ ==> (o.player matches FormatPlayer::Hmn(p) && hmn_started(p, m.data->Mod_0)))
    &&& (id == "ust"@ ==> (o.player matches FormatPlayer::Ust(p) && ust_started(p, m.data->St_0)))
    &&& (id == "dst2"@ ==> (o.player matches FormatPlayer::DocSt2(p) && st_started(p, m.data->St_0)))
    &&& (id == "st3"@ ==> (o.player matches FormatPlayer::St3(p) && st3_started(p)
        && p == st3_start(st3_zero(), o.module.data->S3m_0)
        && o.data.speed == p.musicmax as usize && o.data.tempo == p.tempo as usize))
    &&& (id == "st2"@ ==> (o.player matches FormatPlayer::St2(p) && p.state@.len() == m.channels
        && (forall|c: int| 0 <= c < m.channels ==> #[trigger] p.state@[c] == st2_rest_channel())
        && o.data.speed == 0 && o.data.tempo == 0))
    &&& o.data.pos == 0 && o.data.row == 0 && o.data.frame == 0 && o.data.song == 0
    &&& id != "st3"@ && id != "st2"@ ==> o.data.speed == 6
    &&& id != "st3"@ && id != "st2"@ ==> o.data.tempo == (if m.data is St { m.data->St_0.tempo as usize } else { 125 })
    &&& o.commands@ == start_cmds(id)
}

/// What starting the replay of `module` with player `id` gives: an error
/// for a player that is not registered, or does not take the module's
/// format, or that this library does not provide for the module's data;
/// else the replay just started.
pub open spec fn with_module_result(r: Result<Oxdz, Error>, module: Module, rate: u32, id: Seq<char>) -> bool {
    match player_index(id) {
        None => r matches Err(e) && format_error(e, not_found_msg(id)),
        Some(i) => {
            let info_accepts = crate::player::player_accepts(i);
            if !info_accepts.contains(module.format_id@) {
                r matches Err(e) && format_error(e, unsupported_msg(id, id))
            } else if playable(module, id) {
                r matches Ok(o) && started(o, module, rate, id)
            } else {
                r matches Err(e) && player_error(e, unavailable_msg(id))
            }
        },
    }
}

impl Oxdz {
    /// Starts the replay of `module` with the player `id`: the player must
    /// be registered, take the module's format and be one this library
    /// provides for the module's data. The Scream Tracker 3 replayer plays
    /// a MOD module as the S3M module `from_mod` imports from it.
    pub fn with_module(module: Module, rate: u32, id: &str) -> (r: Result<Self, Error>)
        ensures
            with_module_result(r, module, rate, id@),
    {
        let info = list_by_id(id)?;
        if !contains_str(info.accepts, module.format_id) {
            let mut v: Vec<char> = Vec::new();
            push_str(&mut v, "player ");
            let a = debug_str(info.id);
            push_str(&mut v, a.as_str());
            push_str(&mut v, " does not support format ");
            let b = debug_str(id);
            push_str(&mut v, b.as_str());
            proof {
                crate::player::lemma_player_ids_distinct();
            }
            return Err(Error::Format(chars_to_string(&v)));
        }
        let is_pt2 = str_eq(id, "pt2");
        let is_nt = str_eq(id, "nt11");
        let is_hmn = str_eq(id, "hmn");
        let is_ust = str_eq(id, "ust");
        let is_dst2 = str_eq(id, "dst2");
        let is_st3 = str_eq(id, "st3");
        let is_st2 = str_eq(id, "st2");
        let imports = str_eq(module.format_id, "m.k.") || str_eq(module.format_id, "6CHN")
            || str_eq(module.format_id, "8CHN");
        proof {
            reveal_strlit("st2");
            reveal_strlit("m.k.");
            reveal_strlit("6CHN");
            reveal_strlit("8CHN");
            reveal_strlit("dst2");
            reveal_strlit("pt2");
            reveal_strlit("nt11");
            reveal_strlit("hmn");
            reveal_strlit("ust");
            reveal_strlit("st3");
            assert("st3"@[0] != "pt2"@[0] && "st3"@[0] != "hmn"@[0] && "st3"@[0] != "ust"@[0]);
            assert("st3"@.len() != "nt11"@.len() && "st3"@.len() != "dst2"@.len());
            assert("pt2"@.len() != "nt11"@.len());
            assert("hmn"@.len() != "nt11"@.len());
            assert("ust"@.len() != "nt11"@.len());
            assert("pt2"@[0] != "hmn"@[0] && "pt2"@[0] != "ust"@[0] && "ust"@[0] != "hmn"@[0]);
            assert("dst2"@.len() != "ust"@.len() && "dst2"@.len() != "pt2"@.len() && "dst2"@.len() != "hmn"@.len());
            assert("dst2"@[0] != "nt11"@[0]);
            assert(!(is_pt2 && is_nt) && !(is_pt2 && is_hmn) && !(is_nt && is_hmn));
            assert("st2"@[2] != "st3"@[2] && "st2"@[0] != "pt2"@[0] && "st2"@[0] != "hmn"@[0]);
            assert("st2"@[0] != "ust"@[0] && "st2"@.len() != "nt11"@.len() && "st2"@.len() != "dst2"@.len());
            assert(imports == (import_channels(module.format_id@) != 0));
        }
        let ok = match &module.data {
            ModuleData::Mod(d) => (is_pt2 && d.instruments.len() >= 31 && d.samples.len() >= 31) || is_nt
                || (is_hmn && d.samples.len() >= 31) || (is_st3 && d.instruments.len() >= 31 && imports),
            ModuleData::St(d) => (is_ust || is_dst2) && d.samples.len() >= 15,
            ModuleData::S3m(d) => is_st3 && d.orders.len() >= 1 && d.patterns_fit(),
            ModuleData::Stm(_) => is_st2,
        };
        if !ok {
            let mut v: Vec<char> = Vec::new();
            push_str(&mut v, "player ");
            let a = debug_str(id);
            push_str(&mut v, a.as_str());
            push_str(&mut v, " is not available for this module");
            return Err(Error::Player(chars_to_string(&v)));
        }
        let is_mod = match &module.data {
            ModuleData::Mod(_) => true,
            _ => false,
        };
        let module = if is_st3 && is_mod {
            match from_mod(module) {
                Ok(m) => m,
                Err(e) => return Err(e),
            }
        } else {
            module
        };
        let mut data = PlayerData::new();
        data.reset();
        let mut commands: Vec<MixerCmd> = Vec::new();
        let player = match &module.data {
            ModuleData::Mod(d) => {
                if is_pt2 {
                    let mut p = ModPlayer::new(Options::from_str(""));
                    p.start(&mut data, d, &mut commands);
                    FormatPlayer::Pt2(p)
                } else if is_hmn {
                    let mut p = HmnPlayer::new(Options::from_str(""));
                    p.start(&mut data, d, &mut commands);
                    FormatPlayer::Hmn(p)
                } else {
                    let mut p = crate::player::noisetracker::ModPlayer::new(Options::from_str(""));
                    p.start(&mut data, d, &mut commands);
                    FormatPlayer::Nt(p)
                }
            },
            ModuleData::St(d) => {
                if is_ust {
                    let mut p = USTPlayer::new(d, Options::from_str(""));
                    p.start(&mut data, d, &mut commands);
                    FormatPlayer::Ust(p)
                } else {
                    let mut p = StPlayer::new(d, Options::from_str(""));
                    p.start(&mut data, d, &mut commands);
                    FormatPlayer::DocSt2(p)
                }
            },
            ModuleData::S3m(d) => {
                let mut p = St3Play::new(d);
                p.start(&mut data, d, &mut commands);
                FormatPlayer::St3(p)
            },
            ModuleData::Stm(_) => FormatPlayer::St2(St2Play::new(module.channels)),
        };
        assert(commands@ =~= start_cmds(id@));
        Ok(Oxdz {
            module,
            player,
            data,
            rate,
            player_id: str_string(id),
            commands,
        })
    }

    /// Loads a module from `b` for the player `player_id` (the module's own
    /// player where it is empty) and starts its replay at `rate`.
    pub fn new(b: &[u8], rate: u32, player_id: &str) -> (r: Result<Self, Error>)
        requires
            load_requires(b@, player_id@),
        ensures
            !load_ok(b@, player_id@) ==> (r matches Err(e) && format_load_result(Err::<Module, Error>(e), b@, player_id@)),
            load_ok(b@, player_id@) ==> exists|m: Module| {
                &&& #[trigger] format_load_result(Ok::<Module, Error>(m), b@, player_id@)
                &&& with_module_result(r, m, rate, if player_id@.len() == 0 { m.player@ } else { player_id@ })
            },
    {
        let module = match crate::format::load(b, player_id) {
            Ok(m) => m,
            Err(e) => return Err(e),
        };
        let id: &str = if player_id.unicode_len() == 0 { module.player } else { player_id };
        let r = Self::with_module(module, rate, id);
        assert(format_load_result(Ok::<Module, Error>(module), b@, player_id@));
        r
    }

    /// The module being played.
    pub fn module(&self) -> (r: &Module)
        ensures
            *r == self.module,
    {
        &self.module
    }

    /// The description of the player.
    pub fn player_info(&self) -> (r: Result<PlayerInfo, Error>)
        ensures
            player_index(self.player_id@) matches Some(i) ==> (r matches Ok(info) && is_registered(info, i)),
            player_index(self.player_id@) is None
                ==> (r matches Err(e) && format_error(e, not_found_msg(self.player_id@))),
    {
        list_by_id(self.player_id.as_str())
    }

    /// Fills `mi` with the title, format, tracker, channels and player of
    /// the module; the replay time is not computed (0).
    pub fn module_info(&self, mi: &mut ModuleInfo)
        ensures
            final(mi).title@ == module_title(self.module.data),
            final(mi).format_id == self.module.format_id,
            final(mi).description@ == self.module.description@,
            final(mi).creator@ == self.module.creator@,
            final(mi).channels == self.module.channels,
            final(mi).player == self.module.player,
            final(mi).total_time == 0,
    {
        mi.title = str_string(self.module.title());
        mi.format_id = self.module.format_id;
        mi.description = self.module.description.clone();
        mi.creator = self.module.creator.clone();
        mi.channels = self.module.channels;
        mi.player = self.module.player;
        mi.total_time = 0;
    }

    /// Fills `fi` with the replay position.
    pub fn frame_info(&mut self, fi: &mut FrameInfo) -> (r: &mut Self)
        ensures
            final(fi).pos == old(self).data.pos,
            final(fi).row == old(self).data.row,
            final(fi).song == old(self).data.song,
            final(fi).frame == old(self).data.frame,
            final(fi).speed == old(self).data.speed,
            final(fi).tempo == old(self).data.tempo,
            *r == *old(self),
            *final(self) == *final(r),
    {
        fi.pos = self.data.pos;
        fi.row = self.data.row;
        fi.song = self.data.song;
        fi.frame = self.data.frame;
        fi.speed = self.data.speed;
        fi.tempo = self.data.tempo;
        self
    }

    /// Plays one frame (tick): the player's commands for it are appended
    /// to the pending ones, and the replay position reported.
    pub fn play_frame(&mut self) -> (r: &mut Self)
        requires
            oxdz_wf(*old(self)),
        ensures
            oxdz_wf(*r),
            r.module == old(self).module,
            r.rate == old(self).rate,
            r.player_id == old(self).player_id,
            match (old(self).player, r.player) {
                (FormatPlayer::Pt2(a), FormatPlayer::Pt2(b)) => {
                    &&& a.mt_counter + 1 < a.mt_speed ==> b.mt_counter == a.mt_counter + 1
                        && b.mt_pattern_pos == a.mt_pattern_pos && b.mt_song_pos == a.mt_song_pos
                        && b.mt_speed == a.mt_speed && b.cia_tempo == a.cia_tempo
                    &&& a.mt_counter + 1 < a.mt_speed ==> b == later_tick(a)
                        && r.commands@ == old(self).commands@ + later_tick_cmds(a)
                    &&& a.mt_counter + 1 >= a.mt_speed ==> b.mt_counter == 0
                        && b == row_tick(a, r.module.data->Mod_0)
                        && r.commands@ == old(self).commands@ + row_tick_cmds(a, r.module.data->Mod_0)
                    &&& r.data.frame == b.mt_counter && r.data.row == b.mt_pattern_pos
                    &&& r.data.pos == b.mt_song_pos && r.data.speed == b.mt_speed && r.data.tempo == b.cia_tempo
                },
                (FormatPlayer::Nt(a), FormatPlayer::Nt(b)) => {
                    &&& nt_tick(crate::player::noisetracker::ModPlayer {
                            mt_songpos: old(self).data.pos as u8,
                            mt_pattpos: old(self).data.row as u8,
                            mt_counter: old(self).data.frame as u8,
                            ..a
                        }, b, r.module.data->Mod_0, old(self).commands@, r.commands@)
                    &&& r.data.frame == b.mt_counter && r.data.row == b.mt_pattpos
                    &&& r.data.pos == b.mt_songpos && r.data.speed == b.mt_speed && r.data.tempo == 125
                },
                (FormatPlayer::Hmn(a), FormatPlayer::Hmn(b)) => {
                    &&& hmn_tick(a, b, r.module.data->Mod_0, old(self).commands@, r.commands@)
                    &&& r.data.frame == b.l695_counter && r.data.row == b.l692_pattpos
                    &&& r.data.pos == b.l693_songpos && r.data.speed == b.l642_speed
                    &&& r.data.tempo == old(self).data.tempo
                },
                (FormatPlayer::Ust(a), FormatPlayer::Ust(b)) => {
                    &&& ust_tick(a, b, r.module.data->St_0, old(self).commands@, r.commands@)
                    &&& r.data.frame == b.timpos && r.data.row == b.patpos && r.data.pos == b.trkpos
                    &&& r.data.speed == old(self).data.speed && r.data.tempo == old(self).data.tempo
                },
                (FormatPlayer::DocSt2(a), FormatPlayer::DocSt2(b)) => {
                    &&& st_tick(a, b, r.module.data->St_0, old(self).commands@, r.commands@)
                    &&& r.data.frame == b.mt_counter && r.data.row == b.mt_partnote
                    &&& r.data.pos == b.mt_partnrplay && r.data.speed == b.mt_speed
                    &&& r.data.tempo == old(self).data.tempo
                },
                (FormatPlayer::St3(a), FormatPlayer::St3(b)) => {
                    &&& b == st3_dorow(a, r.module.data->S3m_0).0
                    &&& r.commands@ == old(self).commands@ + st3_dorow(a, r.module.data->S3m_0).1
                    &&& r.data.frame == b.musiccount as usize && r.data.row == b.np_row as usize
                    &&& r.data.pos == (b.np_ord as usize).wrapping_sub(1)
                    &&& r.data.speed == b.musicmax as usize && r.data.tempo == b.tempo as usize
                },
                (FormatPlayer::St2(a), FormatPlayer::St2(b)) => {
                    &&& b.state@ == a.state@
                    &&& r.data == old(self).data && r.commands@ == old(self).commands@
                },
                _ => false,
            },
            *final(self) == *final(r),
    {
        match &mut self.player {
            FormatPlayer::Pt2(p) => {
                match &self.module.data {
                    ModuleData::Mod(d) => {
                        p.play(&mut self.data, d, &mut self.commands);
                    },
                    _ => {},
                }
            },
            FormatPlayer::Nt(p) => {
                match &self.module.data {
                    ModuleData::Mod(d) => {
                        p.play(&mut self.data, d, &mut self.commands);
                    },
                    _ => {},
                }
            },
            FormatPlayer::Hmn(p) => {
                match &self.module.data {
                    ModuleData::Mod(d) => {
                        p.play(&mut self.data, d, &mut self.commands);
                    },
                    _ => {},
                }
            },
            FormatPlayer::Ust(p) => {
                match &self.module.data {
                    ModuleData::St(d) => {
                        p.play(&mut self.data, d, &mut self.commands);
                    },
                    _ => {},
                }
            },
            FormatPlayer::DocSt2(p) => {
                match &self.module.data {
                    ModuleData::St(d) => {
                        p.play(&mut self.data, d, &mut self.commands);
                    },
                    _ => {},
                }
            },
            FormatPlayer::St3(p) => {
                match &self.module.data {
                    ModuleData::S3m(d) => {
                        p.play(&mut self.data, d, &mut self.commands);
                    },
                    _ => {},
                }
            },
            FormatPlayer::St2(p) => {
                p.play();
            },
        }
        self
    }

    /// Mutes (or unmutes) channel `chn`: the command is left for the mixer.
    pub fn set_mute(&mut self, chn: usize, val: bool) -> (r: &mut Self)
        ensures
            r.commands@ == old(self).commands@.push(MixerCmd::SetMute(chn, val)),
            r.module == old(self).module && r.player == old(self).player && r.data == old(self).data,
            r.rate == old(self).rate && r.player_id == old(self).player_id,
            *final(self) == *final(r),
    {
        self.commands.push(MixerCmd::SetMute(chn, val));
        self
    }

    /// Mutes (or unmutes) every channel: the command is left for the mixer.
    pub fn set_mute_all(&mut self, val: bool) -> (r: &mut Self)
        ensures
            r.commands@ == old(self).commands@.push(MixerCmd::SetMuteAll(val)),
            r.module == old(self).module && r.player == old(self).player && r.data == old(self).data,
            r.rate == old(self).rate && r.player_id == old(self).player_id,
            *final(self) == *final(r),
    {
        self.commands.push(MixerCmd::SetMuteAll(val));
        self
    }

    /// Moves the replay position to `pos`, row and tick 0.
    pub fn set_position(&mut self, pos: usize) -> (r: &mut Self)
        ensures
            *r == (Oxdz { data: PlayerData { pos, row: 0, frame: 0, ..old(self).data }, ..*old(self) }),
            *final(self) == *final(r),
    {
        self.data.pos = pos;
        self.data.row = 0;
        self.data.frame = 0;
        self
    }
}

/// The descriptions of the registered players.
pub fn player_list() -> (r: Vec<PlayerInfo>)
    ensures
        r@.len() == 7,
        forall|i: int| 0 <= i < 7 ==> is_registered(#[trigger] r@[i], i),
{
    crate::player::list()
}

/// The names of the module loaders.
pub fn format_list() -> (r: Vec<FormatInfo>)
    ensures
        r@.len() == 6,
        r@[0].name@ == "FastTracker II XM"@,
        r@[1].name@ == "Scream Tracker 3"@,
        r@[2].name@ == "Scream Tracker 2 STM"@,
        r@[3].name@ == "Amiga Protracker/Compatible"@,
        r@[4].name@ == "Soundtracker"@,
        r@[5].name@ == "His Master's Noise"@,
{
    crate::format::list()
}

} // verus!
