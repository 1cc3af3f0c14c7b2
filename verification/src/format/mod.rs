//! Module formats: probing and loading.

pub mod mk;
pub mod st;
pub mod stm;
pub mod s3m;
pub mod fest;
pub mod xm;

use vstd::prelude::*;
use crate::{Error, format_error, load_error};
use crate::module::Module;
use crate::format::mk::load::{ModLoader, mod_probe_ok, mod_probe_format, mod_load_result, mod_loadable,
    mod_complete};
use crate::format::st::load::{StLoader, st_probe_outcome, st_load_result, st_complete};
use crate::format::stm::load::{StmLoader, stm_probe_ok, stm_load_result, stm_version_ok, stm_complete};
use crate::format::s3m::load::{S3mLoader, s3m_probe_ok, s3m_load_result, s3m_complete};
use crate::format::fest::load::{FestLoader, fest_probe_ok, fest_load_result, fest_complete};
use crate::format::xm::load::{XmLoader, xm_probe_ok, xm_load_result};
use crate::text::str_string;
use crate::player::{player_index, player_accepts, player_ids, lemma_registry_round_trip};

verus! {

/// Supported formats.
#[derive(PartialEq, Eq, Debug, Clone, Copy, Structural)]
pub enum Format {
    Mk,
    St,
    Ust,
    Xchn,
    Xxch,
    Fest,
    Flt,
    S3m,
    Stm,
    Xm,
}

/// What a successful probe learned: the format and the module title.
pub struct ProbeInfo {
    pub format: Format,
    pub title: String,
}

/// A loader's name.
pub struct FormatInfo {
    pub name: &'static str,
}

/// `r` is the probe result the outcome `o` describes: the format with the
/// title `title`, or an error, a load error where the flag is set and a
/// format error otherwise, with its message.
pub open spec fn probe_result(r: Result<ProbeInfo, Error>, o: Result<Format, (bool, Seq<char>)>, title: Seq<char>) -> bool {
    match o {
        Ok(f) => r matches Ok(info) && info.format == f && info.title@ == title,
        Err((is_load, m)) => r matches Err(e) && if is_load { load_error(e, m) } else { format_error(e, m) },
    }
}

/// What `load` needs of a module it loads as MOD or FEST: a song length
/// within the 128 orders.
pub open spec fn load_requires(b: Seq<u8>, p: Seq<char>) -> bool {
    &&& !xm_probe_ok(b, p) && !s3m_probe_ok(b, p) && !stm_probe_ok(b) && mod_probe_ok(b, p) ==> b[950] <= 128
    &&& !xm_probe_ok(b, p) && !s3m_probe_ok(b, p) && !stm_probe_ok(b) && !mod_probe_ok(b, p)
        && st_probe_outcome(b, p) is Err && fest_probe_ok(b, p) ==> b[950] <= 128
}

/// What `load` gives for `b` and player `p`: the result of the first
/// loader whose probe accepts the data, or an error where none does.
pub open spec fn format_load_result(r: Result<Module, Error>, b: Seq<u8>, p: Seq<char>) -> bool {
    if xm_probe_ok(b, p) {
        xm_load_result(r, Format::Xm)
    } else if s3m_probe_ok(b, p) {
        s3m_load_result(r, b, Format::S3m)
    } else if stm_probe_ok(b) {
        stm_load_result(r, b)
    } else if mod_probe_ok(b, p) {
        mod_load_result(r, b, mod_probe_format(b))
    } else {
        match st_probe_outcome(b, p) {
            Ok(f) => st_load_result(r, b, f),
            Err(_) => if fest_probe_ok(b, p) {
                fest_load_result(r, b, Format::Fest)
            } else {
                r matches Err(e) && format_error(e, "unsupported module format"@)
            },
        }
    }
}

/// `load` succeeds: a loader accepts the data and all of the module is there.
pub open spec fn load_ok(b: Seq<u8>, p: Seq<char>) -> bool {
    if xm_probe_ok(b, p) {
        false
    } else if s3m_probe_ok(b, p) {
        s3m_complete(b)
    } else if stm_probe_ok(b) {
        b.len() >= 32 && stm_version_ok(b) && stm_complete(b)
    } else if mod_probe_ok(b, p) {
        mod_loadable(mod_probe_format(b)) && mod_complete(b)
    } else {
        match st_probe_outcome(b, p) {
            Ok(f) => st_complete(b),
            Err(_) => fest_probe_ok(b, p) && fest_complete(b),
        }
    }
}

/// The names of the loaders, in the order `load` tries them.
pub fn list() -> (r: Vec<FormatInfo>)
    ensures
        r@.len() == 6,
        r@[0].name@ == "FastTracker II XM"@,
        r@[1].name@ == "Scream Tracker 3"@,
        r@[2].name@ == "Scream Tracker 2 STM"@,
        r@[3].name@ == "Amiga Protracker/Compatible"@,
        r@[4].name@ == "Soundtracker"@,
        r@[5].name@ == "His Master's Noise"@,
{
    let mut v: Vec<FormatInfo> = Vec::new();
    v.push(FormatInfo { name: XmLoader.name() });
    v.push(FormatInfo { name: S3mLoader.name() });
    v.push(FormatInfo { name: StmLoader.name() });
    v.push(FormatInfo { name: ModLoader.name() });
    v.push(FormatInfo { name: StLoader.name() });
    v.push(FormatInfo { name: FestLoader.name() });
    v
}

/// Loads a module for the player `player_id` (any player where it is
/// empty): the first loader whose probe accepts the data loads it; the
/// loaders are tried in the order XM, S3M, STM, MOD, Soundtracker, FEST.
/// XM files are probed but not loaded: their header parsers are not part
/// of this library.
pub fn load(b: &[u8], player_id: &str) -> (r: Result<Module, Error>)
    requires
        load_requires(b@, player_id@),
    ensures
        format_load_result(r, b@, player_id@),
        r is Ok <==> load_ok(b@, player_id@),
{
    if let Ok(info) = XmLoader.probe(b, player_id) {
        return XmLoader.load(b, info);
    }
    if let Ok(info) = S3mLoader.probe(b, player_id) {
        return S3mLoader.load(b, info);
    }
    if let Ok(info) = StmLoader.probe(b, player_id) {
        return StmLoader.load(b, info);
    }
    if let Ok(info) = ModLoader.probe(b, player_id) {
        return ModLoader.load(b, info);
    }
    if let Ok(info) = StLoader.probe(b, player_id) {
        return StLoader.load(b, info);
    }
    if let Ok(info) = FestLoader.probe(b, player_id) {
        return FestLoader.load(b, info);
    }
    Err(Error::Format(str_string("unsupported module format")))
}

/// The module `load` gives names as its player a registered player that
/// takes the module's format: its primary player. MOD files of more than
/// four channels name "ft" or "ft2", which the registry does not hold;
/// for all others the law holds.
pub proof fn lemma_loaded_player_accepts(b: Seq<u8>, p: Seq<char>, m: Module)
    requires
        format_load_result(Ok::<Module, Error>(m), b, p),
        m.player@ != "ft"@,
        m.player@ != "ft2"@,
    ensures
        player_index(m.player@) matches Some(i) && player_accepts(i).contains(m.format_id@),
{
    lemma_registry_round_trip(m.player@);
    reveal_strlit("pt2");
    reveal_strlit("nt11");
    reveal_strlit("st2");
    reveal_strlit("st3");
    reveal_strlit("dst2");
    reveal_strlit("ust");
    reveal_strlit("hmn");
    reveal_strlit("ft");
    reveal_strlit("ft2");
    reveal_strlit("m.k.");
    reveal_strlit("xchn");
    let ids = player_ids();
    assert(player_index(ids[0]) == Some(0int) && player_index(ids[1]) == Some(1int));
    assert(player_index(ids[2]) == Some(2int) && player_index(ids[3]) == Some(3int));
    assert(player_index(ids[4]) == Some(4int) && player_index(ids[5]) == Some(5int));
    assert(player_index(ids[6]) == Some(6int));
    assert(player_accepts(0)[1] == "m.k."@ && player_accepts(1)[1] == "m.k."@);
    assert(player_accepts(2)[0] == "stm"@ && player_accepts(3)[0] == "s3m"@ && player_accepts(3)[1] == "m.k."@);
    assert(player_accepts(4)[0] == "st"@ && player_accepts(5)[1] == "st"@ && player_accepts(6)[0] == "fest"@);
}

} // verus!
