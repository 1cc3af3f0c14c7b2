//! The Amiga Protracker MOD loader.

use vstd::prelude::*;
use crate::format::{Format, ProbeInfo};
use crate::format::mk::{ModData, ModInstrument, ModPatterns, mod_instrument_at, mod_event_at,
    read_mod_instrument};
use crate::format::mk::fingerprint::{Fingerprint, TrackerID, spec_fingerprint, magic_channels,
    is_digit};
use crate::module::{Module, ModuleData};
use crate::module::sample::{Sample, SampleType, stored};
use crate::player::{check_accepted, spec_check_accepted};
use crate::text::{dec_chars, push_str, push_dec, chars_to_string, str_eq};
use crate::util::{be16, be32, magic4, field_string, BinaryRead};
use crate::{Error, format_error, load_error};

verus! {

/// Amiga tracker module loader.
pub struct ModLoader;

pub open spec fn too_short_msg(len: nat) -> Seq<char> {
    "file too short ("@ + dec_chars(len) + ")"@
}

pub open spec fn bad_magic_msg(magic: u32) -> Seq<char> {
    "bad magic "@ + dec_chars(magic as nat)
}

/// The MOD magic at offset 1080 and the format it names, if any.
pub open spec fn mod_magic_format(magic: u32) -> Option<(Format, Seq<char>)> {
    if magic == magic4('M', '.', 'K', '.') || magic == magic4('M', '!', 'K', '!')
        || magic == magic4('M', '&', 'K', '!') || magic == magic4('N', 'S', 'M', 'S') {
        Some((Format::Mk, "m.k."@))
    } else if magic == magic4('6', 'C', 'H', 'N') || magic == magic4('8', 'C', 'H', 'N') {
        Some((Format::Xchn, "xchn"@))
    } else if magic % 0x10000 == magic4('\0', '\0', 'C', 'H') % 0x10000
        && is_digit((magic / 0x1000000) as char) && is_digit(((magic / 0x10000) % 0x100) as char) {
        Some((Format::Xxch, "xxch"@))
    } else if magic == magic4('F', 'L', 'T', '4') || magic == magic4('F', 'L', 'T', '8') {
        Some((Format::Flt, "flt"@))
    } else {
        None
    }
}

/// The channel count a MOD magic names: 8 for "FLT8", the digits of
/// "NNCH" and "NCHN", 4 otherwise.
pub open spec fn spec_channels_from_magic(magic: Seq<char>) -> int {
    if magic == "FLT8"@ {
        8
    } else {
        match magic_channels(magic) {
            Some(c) => c,
            None => 4,
        }
    }
}

/// The channel count of a MOD magic.
pub fn channels_from_magic(magic: &str) -> (r: usize)
    ensures
        r == spec_channels_from_magic(magic@),
        r <= 99,
{
    if str_eq(magic, "FLT8") {
        return 8;
    }
    let n = magic.unicode_len();
    if n >= 2 {
        let c0 = magic.get_char(0);
        let c1 = magic.get_char(1);
        if '0' <= c0 && c0 <= '9' && '0' <= c1 && c1 <= '9' && str_eq(magic.substring_char(2, n), "CH") {
            return (((c0 as u8) - 48) * 10 + (c1 as u8) - 48) as usize;
        }
    }
    if n >= 1 {
        let c0 = magic.get_char(0);
        if '0' <= c0 && c0 <= '9' && str_eq(magic.substring_char(1, n), "CHN") {
            return ((c0 as u8) - 48) as usize;
        }
    }
    4
}

/// The largest of the first `n` bytes of `s`, or 0.
pub open spec fn max_prefix(s: Seq<u8>, n: int) -> int
    decreases n,
{
    if n <= 0 {
        0
    } else {
        let m = max_prefix(s, n - 1);
        if s[n - 1] as int > m { s[n - 1] as int } else { m }
    }
}

/// Bytes of sample data of the first `n` of the 31 instruments.
pub open spec fn mod_sample_bytes(b: Seq<u8>, n: int) -> int
    decreases n,
{
    if n <= 0 {
        0
    } else {
        mod_sample_bytes(b, n - 1) + 2 * be16(b, 20 + 30 * (n - 1) + 22)
    }
}

/// The sample loaded from `data` at file offset `ofs` for instrument `i`.
pub open spec fn mod_sample_at(s: Sample, data: Seq<u8>, ofs: int, i: int, ins: ModInstrument) -> bool {
    &&& s.num == i + 1
    &&& s.name@ == ins.name@
    &&& s.address == ofs as u32
    &&& s.size == ins.size as u32 * 2
    &&& s.sample_type == (if ins.size > 0 { SampleType::Sample8 } else { SampleType::Empty })
    &&& s.rate == 1
    &&& s.data@ == stored(Seq::empty(), data)
}

/// A sample of a 31- or 15-instrument module.
pub fn load_sample(b: &[u8], ofs: usize, i: usize, ins: &ModInstrument) -> (r: Sample)
    requires
        b@.len() == 2 * ins.size,
        i < 31,
    ensures
        mod_sample_at(r, b@, ofs as int, i as int, *ins),
{
    let mut smp = Sample::new();
    smp.num = i + 1;
    smp.name = ins.name.clone();
    smp.address = ofs as u32;
    smp.size = ins.size as u32 * 2;
    if smp.size > 0 {
        smp.sample_type = SampleType::Sample8;
    }
    smp.store(b);
    smp
}

/// Which tracker names the module's creator and picks its player.
pub open spec fn tracker_creator(t: TrackerID) -> (Seq<char>, Seq<char>) {
    match t {
        TrackerID::Unknown => ("unknown tracker"@, "pt2"@),
        TrackerID::Protracker => ("Protracker"@, "pt2"@),
        TrackerID::Noisetracker => ("Noisetracker"@, "nt11"@),
        TrackerID::Soundtracker => ("Soundtracker"@, "pt2"@),
        TrackerID::Screamtracker3 => ("Scream Tracker 3"@, "st3"@),
        TrackerID::FastTracker => ("Fast Tracker"@, "ft"@),
        TrackerID::FastTracker2 => ("Fast Tracker"@, "ft2"@),
        TrackerID::TakeTracker => ("TakeTracker"@, "ft2"@),
        TrackerID::Octalyser => ("Octalyser"@, "ft"@),
        TrackerID::DigitalTracker => ("Digital Tracker"@, "pt2"@),
        TrackerID::ModsGrave => ("Mod's Grave"@, "ft"@),
        TrackerID::FlexTrax => ("FlexTrax"@, "pt2"@),
        TrackerID::OpenMPT => ("OpenMPT"@, "pt2"@),
        TrackerID::Converted => ("Converted"@, "pt2"@),
        TrackerID::ConvertedST => ("Converted 15-ins"@, "nt11"@),
        TrackerID::UnknownOrConverted => ("Unknown tracker"@, "pt2"@),
        TrackerID::ProtrackerClone => ("Protracker clone"@, "pt2"@),
    }
}

fn creator_of(t: TrackerID) -> (r: (&'static str, &'static str))
    ensures
        r.0@ == tracker_creator(t).0,
        r.1@ == tracker_creator(t).1,
{
    match t {
        TrackerID::Unknown => ("unknown tracker", "pt2"),
        TrackerID::Protracker => ("Protracker", "pt2"),
        TrackerID::Noisetracker => ("Noisetracker", "nt11"),
        TrackerID::Soundtracker => ("Soundtracker", "pt2"),
        TrackerID::Screamtracker3 => ("Scream Tracker 3", "st3"),
        TrackerID::FastTracker => ("Fast Tracker", "ft"),
        TrackerID::FastTracker2 => ("Fast Tracker", "ft2"),
        TrackerID::TakeTracker => ("TakeTracker", "ft2"),
        TrackerID::Octalyser => ("Octalyser", "ft"),
        TrackerID::DigitalTracker => ("Digital Tracker", "pt2"),
        TrackerID::ModsGrave => ("Mod's Grave", "ft"),
        TrackerID::FlexTrax => ("FlexTrax", "pt2"),
        TrackerID::OpenMPT => ("OpenMPT", "pt2"),
        TrackerID::Converted => ("Converted", "pt2"),
        TrackerID::ConvertedST => ("Converted 15-ins", "nt11"),
        TrackerID::UnknownOrConverted => ("Unknown tracker", "pt2"),
        TrackerID::ProtrackerClone => ("Protracker clone", "pt2"),
    }
}

/// The player for a tracker's player choice and a channel count: a
/// Protracker or Noisetracker choice goes to a FastTracker player beyond
/// four channels (ft2 beyond eight).
pub open spec fn mod_player(choice: Seq<char>, chn: int) -> Seq<char> {
    if (choice == "pt2"@ || choice == "nt11"@) && chn > 8 {
        "ft2"@
    } else if (choice == "pt2"@ || choice == "nt11"@) && chn > 4 {
        "ft"@
    } else {
        choice
    }
}

/// Layout facts of a MOD file `b` whose header reads in full.
pub open spec fn mod_song_length(b: Seq<u8>) -> int { b[950] as int }

pub open spec fn mod_pat(b: Seq<u8>) -> int {
    max_prefix(b.subrange(952, 1080), mod_song_length(b)) + 1
}

pub open spec fn mod_magic(b: Seq<u8>) -> Seq<char> {
    field_string(b, 1080, 4)
}

/// File size a module of `pat` patterns of `chn` channels needs without its
/// samples.
pub open spec fn mod_data_size(b: Seq<u8>, chn: int) -> int {
    1084 + 256 * mod_pat(b) * chn + mod_sample_bytes(b, 31)
}

/// The module is a Mod's Grave WOW module: "M.K." with exactly room for
/// eight channels.
pub open spec fn mod_is_wow(b: Seq<u8>) -> bool {
    let chn = spec_channels_from_magic(mod_magic(b));
    mod_magic(b) == "M.K."@ && mod_data_size(b, chn) + 1024 * mod_pat(b) == b.len()
}

pub open spec fn mod_channels(b: Seq<u8>) -> int {
    if mod_is_wow(b) { 8 } else { spec_channels_from_magic(mod_magic(b)) }
}

/// The module carries a FlexTrax "FLEX" chunk after its data.
pub open spec fn mod_is_flex(b: Seq<u8>) -> bool {
    let ds = mod_data_size(b, spec_channels_from_magic(mod_magic(b)));
    ds + 4 < b.len() && be32(b, ds) == magic4('F', 'L', 'E', 'X')
}

/// Every part of a MOD file, up to its last sample, is present.
pub open spec fn mod_complete(b: Seq<u8>) -> bool {
    &&& b.len() >= 1084
    &&& 1084 + 256 * mod_channels(b) * mod_pat(b) + mod_sample_bytes(b, 31) <= b.len()
}

/// The data of a MOD module loaded from `b`.
pub open spec fn mod_data_loaded(d: ModData, b: Seq<u8>) -> bool {
    let chn = mod_channels(b);
    let pat = mod_pat(b);
    let pbase = 1084 + 256 * chn * pat;
    &&& d.wf()
    &&& d.song_name@ == field_string(b, 0, 20)
    &&& d.instruments@.len() == 31
    &&& forall|i: int| 0 <= i < 31 ==> mod_instrument_at(#[trigger] d.instruments@[i], b, 20 + 30 * i)
    &&& d.song_length == b[950]
    &&& d.restart == b[951]
    &&& d.orders@ == b.subrange(952, 1080)
    &&& d.magic@ == mod_magic(b)
    &&& d.patterns.spec_num() == pat
    &&& d.patterns.spec_chn() == chn
    &&& forall|i: int| 0 <= i < d.patterns.events().len()
        ==> #[trigger] d.patterns.events()[i] == mod_event_at(b, 1084 + 4 * i)
    &&& d.samples@.len() == 31
    &&& forall|i: int| 0 <= i < 31 ==> {
        let ofs = pbase + mod_sample_bytes(b, i);
        let size = 2 * d.instruments@[i].size;
        mod_sample_at(#[trigger] d.samples@[i], b.subrange(ofs, ofs + size), ofs, i, d.instruments@[i])
    }
}

/// The tracker a loaded MOD module is attributed to.
pub open spec fn mod_tracker(d: ModData, b: Seq<u8>) -> TrackerID {
    if mod_is_wow(b) {
        TrackerID::ModsGrave
    } else if mod_is_flex(b) {
        TrackerID::FlexTrax
    } else {
        spec_fingerprint(d)
    }
}

/// The module loaded from MOD file `b`.
pub open spec fn mod_module_loaded(m: Module, b: Seq<u8>) -> bool {
    &&& m.data matches ModuleData::Mod(d)
    &&& mod_data_loaded(d, b)
    &&& {
        let t = mod_tracker(d, b);
        let chn = mod_channels(b);
        &&& m.creator@ == tracker_creator(t).0
        &&& m.player@ == mod_player(tracker_creator(t).1, chn)
        &&& m.format_id@ == (if t == TrackerID::FastTracker && (chn == 6 || chn == 8) { "xchn"@ } else { "m.k."@ })
        &&& m.channels == chn
        &&& m.description@ == mod_magic(b) + " module "@
    }
}

impl ModLoader {
    pub fn name(&self) -> (r: &'static str)
        ensures
            r@ == "Amiga Protracker/Compatible"@,
    {
        "Amiga Protracker/Compatible"
    }

    /// Recognizes a MOD file by the magic at offset 1080 and checks that the
    /// player `player_id` accepts its format.
    pub fn probe(&self, b: &[u8], player_id: &str) -> (r: Result<ProbeInfo, Error>)
        ensures
            b@.len() < 1084 ==> (r matches Err(e) && format_error(e, too_short_msg(b@.len()))),
            b@.len() >= 1084 && mod_magic_format(be32(b@, 1080)) is None
                ==> (r matches Err(e) && format_error(e, bad_magic_msg(be32(b@, 1080)))),
            b@.len() >= 1084 ==> match mod_magic_format(be32(b@, 1080)) {
                Some((f, id)) => match spec_check_accepted(player_id@, id) {
                    Ok(_) => r matches Ok(info) && info.format == f && info.title@ == field_string(b@, 0, 20),
                    Err(m) => r matches Err(e) && format_error(e, m),
                },
                None => true,
            },
    {
        if b.len() < 1084 {
            let mut v: Vec<char> = Vec::new();
            push_str(&mut v, "file too short (");
            push_dec(&mut v, b.len() as u64);
            push_str(&mut v, ")");
            return Err(Error::Format(chars_to_string(&v)));
        }
        let magic = b.read32b(1080)?;
        assert(magic & 0xffff == magic % 0x10000 && (magic >> 24) as u8 == magic / 0x1000000
            && ((magic & 0xff0000) >> 16) as u8 == (magic / 0x10000) % 0x100) by (bit_vector);
        let fmt_id: &str;
        let format: Format;
        if magic == 0x4d2e4b2e || magic == 0x4d214b21 || magic == 0x4d264b21 || magic == 0x4e534d53 {
            fmt_id = "m.k.";
            format = Format::Mk;
        } else if magic == 0x3643484e || magic == 0x3843484e {
            fmt_id = "xchn";
            format = Format::Xchn;
        } else if magic & 0xffff == 0x4348 && is_digit_byte((magic >> 24) as u8)
            && is_digit_byte(((magic & 0xff0000) >> 16) as u8) {
            fmt_id = "xxch";
            format = Format::Xxch;
        } else if magic == 0x464c5434 || magic == 0x464c5438 {
            fmt_id = "flt";
            format = Format::Flt;
        } else {
            let mut v: Vec<char> = Vec::new();
            push_str(&mut v, "bad magic ");
            push_dec(&mut v, magic as u64);
            return Err(Error::Format(chars_to_string(&v)));
        }
        check_accepted(player_id, fmt_id)?;
        Ok(ProbeInfo { format, title: b.read_string(0, 20)? })
    }

    /// Loads a MOD module probed as `info`.
    pub fn load(&self, b: &[u8], info: ProbeInfo) -> (r: Result<Module, Error>)
        requires
            b@.len() >= 1084 ==> b@[950] <= 128,
        ensures
            mod_load_result(r, b@, info.format),
    {
        if info.format != Format::Mk && info.format != Format::Xchn && info.format != Format::Xxch {
            return Err(Error::Format(chars_to_string(&str_chars("unsupported format"))));
        }
        let song_name = b.read_string(0, 20)?;
        let (instruments, smp_size) = read_instruments(b, 31)?;
        let song_length = b.read8(950)?;
        let restart = b.read8(951)?;
        let orders = b.slice(952, 128)?;
        let magic = b.read_string(1080, 4)?;
        let mut chn = channels_from_magic(magic.as_str());
        let pat = highest_pattern(orders, song_length) + 1;
        proof {
            assert(orders@ == b@.subrange(952, 1080));
            assert(256 * pat * chn <= 256 * 256 * 99 && 256 * chn * pat == 256 * pat * chn) by (nonlinear_arith)
                requires pat <= 256, chn <= 99;
            lemma_sample_bytes_bound(b@, 31);
        }

        let mut tracker_id = TrackerID::Unknown;
        let data_size = 1084 + 256 * pat * chn + smp_size;

        // FlexTrax modules carry a FLEX chunk after the module data.
        if data_size + 4 < b.len() {
            if b.read32b(data_size)? == 0x464c4558 {
                tracker_id = TrackerID::FlexTrax;
            }
        }

        // Mod's Grave WOW modules are 8-channel modules with the "M.K." magic.
        if str_eq(magic.as_str(), "M.K.") && data_size + 1024 * pat == b.len() {
            chn = 8;
            tracker_id = TrackerID::ModsGrave;
        }
        proof {
            assert(256 * chn * pat <= 256 * 256 * 99 && 256 * chn * pat == 256 * pat * chn) by (nonlinear_arith)
                requires pat <= 256, chn <= 99;
        }

        let pdata = b.slice(1084, 256 * chn * pat)?;
        let patterns = ModPatterns::from_slice(pat, pdata, chn)?;
        let samples = load_samples(b, 1084 + 256 * chn * pat, &instruments, 31)?;
        let order_table = order_array(orders);

        let mut description: Vec<char> = Vec::new();
        push_str(&mut description, magic.as_str());
        push_str(&mut description, " module ");

        let data = ModData {
            song_name,
            instruments,
            song_length,
            restart,
            orders: order_table,
            magic,
            patterns,
            samples,
        };
        proof {
            assert(data.patterns.events().len() == pat * 64 * chn);
            assert forall|i: int| 0 <= i < data.patterns.events().len()
                implies #[trigger] data.patterns.events()[i] == mod_event_at(b@, 1084 + 4 * i) by {
                assert(data.patterns.events()[i] == mod_event_at(pdata@, 4 * i));
                assert(4 * i + 4 <= pdata@.len()) by (nonlinear_arith)
                    requires i < pat * 64 * chn, pdata@.len() == 256 * chn * pat;
            }
        }

        if tracker_id == TrackerID::Unknown {
            tracker_id = Fingerprint::id(&data);
        }

        let (creator, choice) = creator_of(tracker_id);
        let mut player_id = choice;
        if str_eq(player_id, "pt2") || str_eq(player_id, "nt11") {
            if chn > 8 {
                player_id = "ft2";
            } else if chn > 4 {
                player_id = "ft";
            }
        }

        let mut format_id = "m.k.";
        if tracker_id == TrackerID::FastTracker {
            if chn == 6 || chn == 8 {
                format_id = "xchn";
            }
        }

        Ok(Module {
            format_id,
            description: chars_to_string(&description),
            creator: chars_to_string(&str_chars(creator)),
            channels: chn,
            player: player_id,
            data: ModuleData::Mod(data),
        })
    }
}

/// What loading MOD file `b` probed as format `f` gives: an error for a
/// format the loader does not load, a short-read error for an incomplete
/// file, the module otherwise.
pub open spec fn mod_load_result(r: Result<Module, Error>, b: Seq<u8>, f: Format) -> bool {
    &&& !mod_loadable(f) ==> (r matches Err(e) && format_error(e, "unsupported format"@))
    &&& mod_loadable(f) ==> (r is Ok <==> mod_complete(b))
    &&& mod_loadable(f) && !mod_complete(b) ==> (r matches Err(e) && e is Load)
    &&& r matches Ok(m) ==> mod_module_loaded(m, b)
}

/// The MOD probe succeeds: a known magic, of a format the player accepts.
pub open spec fn mod_probe_ok(b: Seq<u8>, player_id: Seq<char>) -> bool {
    &&& b.len() >= 1084
    &&& match mod_magic_format(be32(b, 1080)) {
        Some((f, id)) => spec_check_accepted(player_id, id) is Ok,
        None => false,
    }
}

/// The format the MOD probe finds.
pub open spec fn mod_probe_format(b: Seq<u8>) -> Format {
    match mod_magic_format(be32(b, 1080)) {
        Some((f, id)) => f,
        None => Format::Mk,
    }
}

/// The formats the MOD loader loads.
pub open spec fn mod_loadable(f: Format) -> bool {
    f == Format::Mk || f == Format::Xchn || f == Format::Xxch
}

/// The sample sizes are words: each instrument holds at most 131070 bytes.
pub proof fn lemma_sample_bytes_bound(b: Seq<u8>, n: int)
    requires
        0 <= n,
    ensures
        0 <= mod_sample_bytes(b, n) <= 131070 * n,
    decreases n,
{
    if n > 0 {
        lemma_sample_bytes_bound(b, n - 1);
    }
}

/// Sample bytes only grow with the number of instruments counted.
pub proof fn lemma_sample_bytes_mono(b: Seq<u8>, m: int, n: int)
    requires
        0 <= m <= n,
    ensures
        mod_sample_bytes(b, m) <= mod_sample_bytes(b, n),
    decreases n - m,
{
    if m < n {
        lemma_sample_bytes_mono(b, m, n - 1);
    }
}

/// Reads the `n` instrument headers after the title, with the bytes of
/// sample data they announce.
pub fn read_instruments(b: &[u8], n: usize) -> (r: Result<(Vec<ModInstrument>, usize), Error>)
    requires
        n <= 31,
    ensures
        r is Ok <==> (n == 0 || b@.len() >= 20 + 30 * n),
        r matches Ok((v, m)) ==> {
            &&& v@.len() == n
            &&& m == mod_sample_bytes(b@, n as int)
            &&& forall|i: int| 0 <= i < n ==> mod_instrument_at(#[trigger] v@[i], b@, 20 + 30 * i)
        },
        r matches Err(e) ==> e is Load,
{
    let mut instruments: Vec<ModInstrument> = Vec::new();
    let mut smp_size: usize = 0;
    let mut i: usize = 0;
    while i < n
        invariant
            n <= 31,
            i <= n,
            i > 0 ==> b@.len() >= 20 + 30 * i,
            instruments@.len() == i,
            smp_size == mod_sample_bytes(b@, i as int),
            smp_size <= i * 131070,
            forall|j: int| 0 <= j < i ==> mod_instrument_at(#[trigger] instruments@[j], b@, 20 + 30 * j),
        decreases n - i,
    {
        let ins = read_mod_instrument(b, 20 + i * 30)?;
        smp_size = smp_size + ins.size as usize * 2;
        instruments.push(ins);
        i = i + 1;
    }
    Ok((instruments, smp_size))
}

/// The highest pattern number among the first `song_length` orders.
pub fn highest_pattern(orders: &[u8], song_length: u8) -> (r: usize)
    requires
        orders@.len() == 128,
        song_length <= 128,
    ensures
        r == max_prefix(orders@, song_length as int),
        r <= 255,
{
    let mut pat: usize = 0;
    let mut k: usize = 0;
    while k < song_length as usize
        invariant
            song_length <= 128,
            orders@.len() == 128,
            k <= song_length,
            pat == max_prefix(orders@, k as int),
            pat <= 255,
        decreases song_length - k,
    {
        if orders[k] as usize > pat {
            pat = orders[k] as usize;
        }
        k = k + 1;
    }
    pat
}

/// Loads the samples of the first `n` instruments, stored one after another
/// from offset `start`.
pub fn load_samples(b: &[u8], start: usize, instruments: &Vec<ModInstrument>, n: usize) -> (r: Result<Vec<Sample>, Error>)
    requires
        n <= 31,
        instruments@.len() == n,
        forall|j: int| 0 <= j < n ==> mod_instrument_at(#[trigger] instruments@[j], b@, 20 + 30 * j),
        start <= 1084 + 256 * 256 * 99,
    ensures
        r is Ok <==> (n == 0 || start + mod_sample_bytes(b@, n as int) <= b@.len()),
        r matches Ok(v) ==> {
            &&& v@.len() == n
            &&& forall|j: int| 0 <= j < n ==> {
                let o = start + mod_sample_bytes(b@, j);
                let size = 2 * instruments@[j].size;
                mod_sample_at(#[trigger] v@[j], b@.subrange(o, o + size), o, j, instruments@[j])
            }
        },
        r matches Err(e) ==> e is Load,
{
    let mut samples: Vec<Sample> = Vec::new();
    let mut ofs: usize = start;
    let mut i: usize = 0;
    while i < n
        invariant
            n <= 31,
            i <= n,
            instruments@.len() == n,
            start <= 1084 + 256 * 256 * 99,
            ofs == start + mod_sample_bytes(b@, i as int),
            ofs <= start + i * 131070,
            i > 0 ==> ofs <= b@.len(),
            samples@.len() == i,
            forall|j: int| 0 <= j < n ==> mod_instrument_at(#[trigger] instruments@[j], b@, 20 + 30 * j),
            forall|j: int| 0 <= j < i ==> {
                let o = start + mod_sample_bytes(b@, j);
                let size = 2 * instruments@[j].size;
                mod_sample_at(#[trigger] samples@[j], b@.subrange(o, o + size), o, j, instruments@[j])
            },
        decreases n - i,
    {
        let size = instruments[i].size as usize * 2;
        proof {
            assert(mod_instrument_at(instruments@[i as int], b@, 20 + 30 * i));
        }
        let s = match b.slice(ofs, size) {
            Ok(s) => s,
            Err(e) => {
                proof {
                    lemma_sample_bytes_mono(b@, i + 1, n as int);
                }
                return Err(e);
            }
        };
        let smp = load_sample(s, ofs, i, &instruments[i]);
        samples.push(smp);
        ofs = ofs + size;
        i = i + 1;
    }
    Ok(samples)
}

/// The 128 orders as an array.
pub fn order_array(orders: &[u8]) -> (r: [u8; 128])
    requires
        orders@.len() == 128,
    ensures
        r@ == orders@,
{
    let mut order_table = [0u8; 128];
    let mut k: usize = 0;
    while k < 128
        invariant
            orders@.len() == 128,
            k <= 128,
            forall|j: int| 0 <= j < k ==> order_table@[j] == orders@[j],
        decreases 128 - k,
    {
        order_table[k] = orders[k];
        k = k + 1;
    }
    order_table
}

/// The characters of `s`.
pub fn str_chars(s: &str) -> (r: Vec<char>)
    ensures
        r@ == s@,
{
    let mut v: Vec<char> = Vec::new();
    push_str(&mut v, s);
    v
}

fn is_digit_byte(c: u8) -> (r: bool)
    ensures
        r == is_digit(c as char),
{
    48 <= c && c <= 57
}

} // verus!
