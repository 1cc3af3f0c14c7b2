//! The His Master's Noise FEST loader.

use vstd::prelude::*;
use vstd::string::StringSliceAdditionalSpecFns;
use vstd::utf8::encode_utf8;
use crate::format::{Format, ProbeInfo};
use crate::format::mk::{ModData, ModInstrument, ModPatterns, mod_instrument_at, mod_event_at};
use crate::format::mk::load::{too_short_msg, mod_pat, mod_sample_at, load_sample, read_instruments,
    highest_pattern, order_array};
use crate::module::{Module, ModuleData};
use crate::module::sample::{Sample, SampleType, stored};
use crate::player::{check_accepted, spec_check_accepted};
use crate::text::{dec_chars, spec_debug_str, debug_str, str_string, num_msg, pre_num, push_str,
    chars_to_string, str_eq};
use crate::util::{be16, field_string, BinaryRead};
use crate::{Error, format_error};

verus! {

/// His Master's Noise module loader.
pub struct FestLoader;

/// The name of instrument `i`.
pub open spec fn fest_name(b: Seq<u8>, i: int) -> Seq<char> {
    field_string(b, 20 + 30 * i, 22)
}

/// A name of the form "Mupp" followed by a byte: the instrument is a
/// synthetic "Mupp" sample taken from a pattern.
pub open spec fn is_mupp_name(name: Seq<char>) -> bool {
    &&& name.len() >= 4
    &&& name.subrange(0, 4) == seq!['M', 'u', 'p', 'p']
    &&& encode_utf8(name).len() >= 5
}

/// The pattern a "Mupp" instrument takes its data from: the fifth byte of
/// its name.
pub open spec fn mupp_pattern(name: Seq<char>) -> int {
    encode_utf8(name)[4] as int
}

/// Bytes of sample data of the first `n` instruments; "Mupp" instruments
/// take none.
pub open spec fn fest_sample_bytes(b: Seq<u8>, n: int) -> int
    decreases n,
{
    if n <= 0 {
        0
    } else if is_mupp_name(fest_name(b, n - 1)) {
        fest_sample_bytes(b, n - 1)
    } else {
        fest_sample_bytes(b, n - 1) + 2 * be16(b, 20 + 30 * (n - 1) + 22)
    }
}

/// The data of instrument `i` is present: its pattern for a "Mupp"
/// instrument, its sample after those before it otherwise.
pub open spec fn fest_sample_present(b: Seq<u8>, start: int, i: int) -> bool {
    if is_mupp_name(fest_name(b, i)) {
        1084 + 1024 * mupp_pattern(fest_name(b, i)) + 1024 <= b.len()
    } else {
        start + fest_sample_bytes(b, i) + 2 * be16(b, 20 + 30 * i + 22) <= b.len()
    }
}

/// Every part of a FEST file is present.
pub open spec fn fest_complete(b: Seq<u8>) -> bool {
    &&& b.len() >= 1084
    &&& 1084 + 1024 * mod_pat(b) <= b.len()
    &&& forall|i: int| 0 <= i < 31 ==> #[trigger] fest_sample_present(b, 1084 + 1024 * mod_pat(b), i)
}

/// The "Mupp" sample of instrument `i` taken from pattern `pat` at `ofs`.
pub open spec fn mupp_sample_at(s: Sample, data: Seq<u8>, ofs: int, i: int, pat: int) -> bool {
    &&& s.num == i + 1
    &&& s.name@ == "Mupp @"@ + dec_chars(pat as nat)
    &&& s.address == ofs as u32
    &&& s.size == 28 * 32
    &&& s.sample_type == SampleType::Sample8
    &&& s.rate == 1
    &&& s.data@ == stored(Seq::empty(), data)
}

/// The sample of instrument `i` of a FEST file.
pub open spec fn fest_sample_at(s: Sample, b: Seq<u8>, start: int, i: int, ins: ModInstrument) -> bool {
    if is_mupp_name(ins.name@) {
        let pat = mupp_pattern(ins.name@);
        let o = 1084 + 1024 * pat;
        mupp_sample_at(s, b.subrange(o, o + 1024), o, i, pat)
    } else {
        let o = start + fest_sample_bytes(b, i);
        mod_sample_at(s, b.subrange(o, o + 2 * ins.size), o, i, ins)
    }
}

/// The data of a FEST module loaded from `b`.
pub open spec fn fest_data_loaded(d: ModData, b: Seq<u8>) -> bool {
    let pat = mod_pat(b);
    &&& d.wf()
    &&& d.song_name@ == field_string(b, 0, 20)
    &&& d.instruments@.len() == 31
    &&& forall|i: int| 0 <= i < 31 ==> mod_instrument_at(#[trigger] d.instruments@[i], b, 20 + 30 * i)
    &&& d.song_length == b[950]
    &&& d.restart == b[951]
    &&& d.orders@ == b.subrange(952, 1080)
    &&& d.magic@ == field_string(b, 1080, 4)
    &&& d.patterns.spec_num() == pat
    &&& d.patterns.spec_chn() == 4
    &&& forall|i: int| 0 <= i < d.patterns.events().len()
        ==> #[trigger] d.patterns.events()[i] == mod_event_at(b, 1084 + 4 * i)
    &&& d.samples@.len() == 31
    &&& forall|i: int| 0 <= i < 31 ==> fest_sample_at(#[trigger] d.samples@[i], b, 1084 + 1024 * pat, i, d.instruments@[i])
}

/// The module loaded from FEST file `b`.
pub open spec fn fest_module_loaded(m: Module, b: Seq<u8>) -> bool {
    &&& m.data matches ModuleData::Mod(d)
    &&& fest_data_loaded(d, b)
    &&& m.format_id@ == "fest"@
    &&& m.description@ == "FEST module"@
    &&& m.creator@ == "His Master's NoiseTracker"@
    &&& m.channels == 4
    &&& m.player@ == "hmn"@
}

/// What loading FEST file `b` probed as format `f` gives.
pub open spec fn fest_load_result(r: Result<Module, Error>, b: Seq<u8>, f: Format) -> bool {
    &&& f != Format::Fest ==> (r matches Err(e) && format_error(e, "unsupported format"@))
    &&& f == Format::Fest ==> (r is Ok <==> fest_complete(b))
    &&& f == Format::Fest && !fest_complete(b) ==> (r matches Err(e) && e is Load)
    &&& r matches Ok(m) ==> fest_module_loaded(m, b)
}

/// The FEST probe succeeds: the "FEST" tag, a player that accepts the format.
pub open spec fn fest_probe_ok(b: Seq<u8>, player_id: Seq<char>) -> bool {
    &&& b.len() >= 1084
    &&& spec_check_accepted(player_id, "fest"@) is Ok
    &&& field_string(b, 1080, 4) == "FEST"@
}

proof fn lemma_fest_sample_bytes(b: Seq<u8>, n: int)
    requires
        0 <= n,
    ensures
        0 <= fest_sample_bytes(b, n) <= 131070 * n,
    decreases n,
{
    if n > 0 {
        lemma_fest_sample_bytes(b, n - 1);
    }
}

/// Tells a "Mupp" instrument name; see `is_mupp_name`.
fn is_mupp(name: &String) -> (r: bool)
    ensures
        r == is_mupp_name(name@),
{
    let s = name.as_str();
    if s.unicode_len() < 4 {
        return false;
    }
    if s.get_char(0) != 'M' || s.get_char(1) != 'u' || s.get_char(2) != 'p' || s.get_char(3) != 'p' {
        proof {
            if s@.subrange(0, 4) == seq!['M', 'u', 'p', 'p'] {
                assert(s@[0] == s@.subrange(0, 4)[0]);
                assert(s@[1] == s@.subrange(0, 4)[1]);
                assert(s@[2] == s@.subrange(0, 4)[2]);
                assert(s@[3] == s@.subrange(0, 4)[3]);
            }
        }
        return false;
    }
    assert(s@.subrange(0, 4) =~= seq!['M', 'u', 'p', 'p']);
    let bytes = s.as_bytes();
    bytes.len() >= 5
}

/// The "Mupp" sample of instrument `i`, taken from the 1024 bytes `b` of
/// pattern `pat_num` at `ofs`.
pub fn load_mupp(b: &[u8], ofs: usize, i: usize, pat_num: usize) -> (r: Sample)
    requires
        i < 31,
        ofs <= u32::MAX,
    ensures
        mupp_sample_at(r, b@, ofs as int, i as int, pat_num as int),
{
    let mut smp = Sample::new();
    smp.num = i + 1;
    smp.name = pre_num("Mupp @", pat_num as u64);
    smp.address = ofs as u32;
    smp.size = 28 * 32;
    smp.sample_type = SampleType::Sample8;
    smp.store(b);
    smp
}

/// Loads the 31 samples: "Mupp" samples from their patterns, the others one
/// after another from `start`.
fn load_fest_samples(b: &[u8], start: usize, instruments: &Vec<ModInstrument>) -> (r: Result<Vec<Sample>, Error>)
    requires
        instruments@.len() == 31,
        forall|j: int| 0 <= j < 31 ==> mod_instrument_at(#[trigger] instruments@[j], b@, 20 + 30 * j),
        start <= 1084 + 1024 * 256,
    ensures
        r is Ok <==> forall|i: int| 0 <= i < 31 ==> #[trigger] fest_sample_present(b@, start as int, i),
        r matches Ok(v) ==> v@.len() == 31
            && forall|i: int| 0 <= i < 31 ==> fest_sample_at(#[trigger] v@[i], b@, start as int, i, instruments@[i]),
        r matches Err(e) ==> e is Load,
{
    let mut samples: Vec<Sample> = Vec::new();
    let mut ofs: usize = start;
    let mut i: usize = 0;
    while i < 31
        invariant
            i <= 31,
            instruments@.len() == 31,
            start <= 1084 + 1024 * 256,
            ofs == start + fest_sample_bytes(b@, i as int),
            ofs <= start + i * 131070,
            samples@.len() == i,
            forall|j: int| 0 <= j < 31 ==> mod_instrument_at(#[trigger] instruments@[j], b@, 20 + 30 * j),
            forall|j: int| 0 <= j < i ==> #[trigger] fest_sample_present(b@, start as int, j),
            forall|j: int| 0 <= j < i ==> fest_sample_at(#[trigger] samples@[j], b@, start as int, j, instruments@[j]),
        decreases 31 - i,
    {
        proof {
            assert(mod_instrument_at(instruments@[i as int], b@, 20 + 30 * i));
        }
        if is_mupp(&instruments[i].name) {
            let pat_num = instruments[i].name.as_str().as_bytes()[4] as usize;
            let pat_ofs = 1084 + 1024 * pat_num;
            let s = match b.slice(pat_ofs, 1024) {
                Ok(s) => s,
                Err(e) => {
                    assert(!fest_sample_present(b@, start as int, i as int));
                    return Err(e);
                },
            };
            samples.push(load_mupp(s, pat_ofs, i, pat_num));
        } else {
            let size = instruments[i].size as usize * 2;
            let s = match b.slice(ofs, size) {
                Ok(s) => s,
                Err(e) => {
                    assert(!fest_sample_present(b@, start as int, i as int));
                    return Err(e);
                },
            };
            samples.push(load_sample(s, ofs, i, &instruments[i]));
            ofs = ofs + size;
        }
        i = i + 1;
    }
    Ok(samples)
}

impl FestLoader {
    pub fn name(&self) -> (r: &'static str)
        ensures
            r@ == "His Master's Noise"@,
    {
        "His Master's Noise"
    }

    /// Recognizes a FEST file by the tag "FEST" at offset 1080, for a player
    /// that accepts the format.
    pub fn probe(&self, b: &[u8], player_id: &str) -> (r: Result<ProbeInfo, Error>)
        ensures
            b@.len() < 1084 ==> (r matches Err(e) && format_error(e, too_short_msg(b@.len()))),
            b@.len() >= 1084 ==> match spec_check_accepted(player_id@, "fest"@) {
                Err(m) => r matches Err(e) && format_error(e, m),
                Ok(_) => if field_string(b@, 1080, 4) == "FEST"@ {
                    r matches Ok(info) && info.format == Format::Fest && info.title@ == field_string(b@, 0, 20)
                } else {
                    r matches Err(e) && format_error(e, "bad magic "@ + spec_debug_str(field_string(b@, 1080, 4)))
                },
            },
    {
        if b.len() < 1084 {
            return Err(Error::Format(num_msg("file too short (", b.len() as u64, ")")));
        }
        check_accepted(player_id, "fest")?;
        let magic = b.read_string(1080, 4).unwrap();
        if str_eq(magic.as_str(), "FEST") {
            Ok(ProbeInfo { format: Format::Fest, title: b.read_string(0, 20).unwrap() })
        } else {
            let mut v: Vec<char> = Vec::new();
            push_str(&mut v, "bad magic ");
            let d = debug_str(magic.as_str());
            push_str(&mut v, d.as_str());
            Err(Error::Format(chars_to_string(&v)))
        }
    }

    /// Loads a FEST module probed as `info`.
    pub fn load(&self, b: &[u8], info: ProbeInfo) -> (r: Result<Module, Error>)
        requires
            b@.len() >= 1084 ==> b@[950] <= 128,
        ensures
            fest_load_result(r, b@, info.format),
    {
        if info.format != Format::Fest {
            return Err(Error::Format(str_string("unsupported format")));
        }
        let song_name = b.read_string(0, 20)?;
        let (instruments, _) = read_instruments(b, 31)?;
        let song_length = b.read8(950)?;
        let restart = b.read8(951)?;
        let orders = b.slice(952, 128)?;
        let magic = b.read_string(1080, 4)?;
        let pat = highest_pattern(orders, song_length) + 1;
        proof {
            assert(orders@ == b@.subrange(952, 1080));
        }
        let pdata = b.slice(1084, 1024 * pat)?;
        let patterns = ModPatterns::from_slice(pat, pdata, 4)?;
        let samples = load_fest_samples(b, 1084 + 1024 * pat, &instruments)?;
        let order_table = order_array(orders);
        let data = ModData {
            song_name,
            instruments,
            song_length,
            restart,
            orders: order_table,
            magic,
            patterns,
            samples,
        };
        proof {
            assert forall|i: int| 0 <= i < data.patterns.events().len()
                implies #[trigger] data.patterns.events()[i] == mod_event_at(b@, 1084 + 4 * i) by {
                assert(data.patterns.events()[i] == mod_event_at(pdata@, 4 * i));
            }
        }
        Ok(Module {
            format_id: "fest",
            description: str_string("FEST module"),
            creator: str_string("His Master's NoiseTracker"),
            channels: 4,
            player: "hmn",
            data: ModuleData::Mod(data),
        })
    }
}

} // verus!
