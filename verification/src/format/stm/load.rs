//! The Scream Tracker 2 STM loader.

use vstd::prelude::*;
use crate::format::{Format, ProbeInfo};
use crate::format::mk::load::order_array;
use crate::format::stm::{StmData, StmInstrument, StmPatterns, stm_event_at};
use crate::module::{Module, ModuleData};
use crate::module::sample::{Sample, SampleType, stored};
use crate::text::{dec_chars, str_string, str_eq, push_str, push_dec, chars_to_string};
use crate::util::{le16, field_string, BinaryRead};
use crate::{Error, format_error};

verus! {

/// Scream Tracker 2 module loader.
pub struct StmLoader;

/// The 32-byte instrument header at `ofs`: a 12-byte name, then at 16 the
/// size, loop start and loop end (little-endian words), the volume at 22 and
/// the C2 frequency at 24.
pub open spec fn stm_instrument_at(ins: StmInstrument, b: Seq<u8>, ofs: int) -> bool {
    &&& ins.name@ == field_string(b, ofs, 12)
    &&& ins.size == le16(b, ofs + 16)
    &&& ins.loop_start == le16(b, ofs + 18)
    &&& ins.loop_end == le16(b, ofs + 20)
    &&& ins.volume == b[ofs + 22]
    &&& ins.c2spd == le16(b, ofs + 24)
    &&& ins.num == 0
}

/// What loading STM file `b` gives: a short-read error before the version,
/// an error for a version other than 2.21 or later, a short-read error for
/// an incomplete file, the module otherwise.
pub open spec fn stm_load_result(r: Result<Module, Error>, b: Seq<u8>) -> bool {
    &&& b.len() < 32 ==> (r matches Err(e) && e is Load)
    &&& b.len() >= 32 && !stm_version_ok(b) ==> (r matches Err(e) && format_error(e, "unsupported version"@))
    &&& b.len() >= 32 && stm_version_ok(b) ==> (r is Ok <==> stm_complete(b))
    &&& b.len() >= 32 && stm_version_ok(b) && !stm_complete(b) ==> (r matches Err(e) && e is Load)
    &&& r matches Ok(m) ==> stm_module_loaded(m, b)
}

/// The STM probe succeeds: a long enough file with a known tracker tag.
pub open spec fn stm_probe_ok(b: Seq<u8>) -> bool {
    let magic = field_string(b, 20, 10);
    b.len() >= 1084 && (magic == "!Scream!\x1a\x02"@ || magic == "BMOD2STM\x1a\x02"@ || magic == "WUZAMOD!\x1a\x02"@)
}

/// Bytes of sample data of the first `n` instruments.
pub open spec fn stm_sample_bytes(b: Seq<u8>, n: int) -> int
    decreases n,
{
    if n <= 0 {
        0
    } else {
        stm_sample_bytes(b, n - 1) + le16(b, 48 + 32 * (n - 1) + 16)
    }
}

/// The sample of instrument `i` loaded from `data`.
pub open spec fn stm_sample_at(s: Sample, data: Seq<u8>, i: int, ins: StmInstrument) -> bool {
    &&& s.num == i + 1
    &&& s.name@ == ins.name@
    &&& s.address == 0
    &&& s.size == ins.size as u32
    &&& s.sample_type == (if ins.size > 0 { SampleType::Sample8 } else { SampleType::Empty })
    &&& s.rate == ins.c2spd as u32
    &&& s.data@ == stored(Seq::empty(), data)
}

/// The file names a version Scream Tracker 2 modules have: 2.21 or later.
pub open spec fn stm_version_ok(b: Seq<u8>) -> bool {
    b[30] == 2 && b[31] >= 21
}

/// Every part of an STM file, up to its last sample, is present.
pub open spec fn stm_complete(b: Seq<u8>) -> bool {
    &&& b.len() >= 1168
    &&& 1168 + 1024 * b[33] + stm_sample_bytes(b, 31) <= b.len()
}

/// The tracker named by the origin field at offset 20.
pub open spec fn stm_creator(b: Seq<u8>) -> Seq<char> {
    let origin = field_string(b, 20, 8);
    if origin == "!Scream!"@ {
        "Scream Tracker "@ + dec_chars(b[30] as nat) + "."@ + dec_chars(b[31] as nat)
    } else if origin == "BMOD2STM"@ {
        "BMOD2STM"@
    } else if origin == "WUZAMOD!"@ {
        "WUZAMOD"@
    } else {
        "unknown"@
    }
}

/// The data of an STM module loaded from `b`.
pub open spec fn stm_data_loaded(d: StmData, b: Seq<u8>) -> bool {
    let num = b[33] as int;
    &&& d.name@ == field_string(b, 0, 20)
    &&& d.speed == b[32]
    &&& d.num_patterns == b[33]
    &&& d.global_vol == b[34]
    &&& d.instruments@.len() == 31
    &&& forall|i: int| 0 <= i < 31 ==> stm_instrument_at(#[trigger] d.instruments@[i], b, 48 + 32 * i)
    &&& d.orders@ == b.subrange(1040, 1168)
    &&& d.patterns.events().len() == num * 256
    &&& forall|i: int| 0 <= i < d.patterns.events().len()
        ==> #[trigger] d.patterns.events()[i] == stm_event_at(b, 1168 + 4 * i)
    &&& d.samples@.len() == 31
    &&& forall|i: int| 0 <= i < 31 ==> {
        let ofs = 1168 + 1024 * num + stm_sample_bytes(b, i);
        stm_sample_at(#[trigger] d.samples@[i], b.subrange(ofs, ofs + d.instruments@[i].size), i, d.instruments@[i])
    }
}

/// The module loaded from STM file `b`.
pub open spec fn stm_module_loaded(m: Module, b: Seq<u8>) -> bool {
    &&& m.data matches ModuleData::Stm(d)
    &&& stm_data_loaded(d, b)
    &&& m.format_id@ == "stm"@
    &&& m.description@ == "Scream Tracker 2 STM"@
    &&& m.creator@ == stm_creator(b)
    &&& m.channels == 4
    &&& m.player@ == "st2"@
}

proof fn lemma_stm_sample_bytes(b: Seq<u8>, m: int, n: int)
    requires
        0 <= m <= n,
    ensures
        0 <= stm_sample_bytes(b, m) <= stm_sample_bytes(b, n),
        stm_sample_bytes(b, n) <= 65535 * n,
    decreases n - m,
{
    if m < n {
        lemma_stm_sample_bytes(b, m, n - 1);
    } else {
        lemma_stm_sample_bytes_bound(b, n);
    }
}

proof fn lemma_stm_sample_bytes_bound(b: Seq<u8>, n: int)
    requires
        0 <= n,
    ensures
        0 <= stm_sample_bytes(b, n) <= 65535 * n,
    decreases n,
{
    if n > 0 {
        lemma_stm_sample_bytes_bound(b, n - 1);
    }
}

/// Reads the instrument header at `ofs`.
fn read_stm_instrument(b: &[u8], ofs: usize) -> (r: Result<StmInstrument, Error>)
    requires
        ofs + 32 <= usize::MAX,
    ensures
        r is Ok <==> ofs + 26 <= b@.len(),
        r matches Ok(ins) ==> stm_instrument_at(ins, b@, ofs as int),
        r matches Err(e) ==> e is Load,
{
    let mut ins = StmInstrument::new();
    ins.name = b.read_string(ofs, 12)?;
    ins.size = b.read16l(ofs + 16)?;
    ins.loop_start = b.read16l(ofs + 18)?;
    ins.loop_end = b.read16l(ofs + 20)?;
    ins.volume = b.read8(ofs + 22)?;
    ins.c2spd = b.read16l(ofs + 24)?;
    Ok(ins)
}

/// Reads the 31 instrument headers.
fn read_stm_instruments(b: &[u8]) -> (r: Result<Vec<StmInstrument>, Error>)
    ensures
        r is Ok <==> b@.len() >= 1034,
        r matches Ok(v) ==> v@.len() == 31
            && forall|i: int| 0 <= i < 31 ==> stm_instrument_at(#[trigger] v@[i], b@, 48 + 32 * i),
        r matches Err(e) ==> e is Load,
{
    let mut v: Vec<StmInstrument> = Vec::new();
    let mut i: usize = 0;
    while i < 31
        invariant
            i <= 31,
            i > 0 ==> b@.len() >= 48 + 32 * (i - 1) + 26,
            v@.len() == i,
            forall|j: int| 0 <= j < i ==> stm_instrument_at(#[trigger] v@[j], b@, 48 + 32 * j),
        decreases 31 - i,
    {
        let ins = read_stm_instrument(b, 48 + 32 * i)?;
        v.push(ins);
        i = i + 1;
    }
    Ok(v)
}

/// Loads the 31 samples, stored one after another from `start`.
fn load_stm_samples(b: &[u8], start: usize, instruments: &Vec<StmInstrument>) -> (r: Result<Vec<Sample>, Error>)
    requires
        instruments@.len() == 31,
        forall|j: int| 0 <= j < 31 ==> stm_instrument_at(#[trigger] instruments@[j], b@, 48 + 32 * j),
        start <= 1168 + 1024 * 255,
    ensures
        r is Ok <==> start + stm_sample_bytes(b@, 31) <= b@.len(),
        r matches Ok(v) ==> v@.len() == 31 && forall|j: int| 0 <= j < 31 ==> {
            let o = start + stm_sample_bytes(b@, j);
            stm_sample_at(#[trigger] v@[j], b@.subrange(o, o + instruments@[j].size), j, instruments@[j])
        },
        r matches Err(e) ==> e is Load,
{
    let mut samples: Vec<Sample> = Vec::new();
    let mut ofs: usize = start;
    let mut i: usize = 0;
    while i < 31
        invariant
            i <= 31,
            instruments@.len() == 31,
            start <= 1168 + 1024 * 255,
            ofs == start + stm_sample_bytes(b@, i as int),
            ofs <= start + i * 65535,
            i > 0 ==> ofs <= b@.len(),
            samples@.len() == i,
            forall|j: int| 0 <= j < 31 ==> stm_instrument_at(#[trigger] instruments@[j], b@, 48 + 32 * j),
            forall|j: int| 0 <= j < i ==> {
                let o = start + stm_sample_bytes(b@, j);
                stm_sample_at(#[trigger] samples@[j], b@.subrange(o, o + instruments@[j].size), j, instruments@[j])
            },
        decreases 31 - i,
    {
        let size = instruments[i].size as usize;
        proof {
            assert(stm_instrument_at(instruments@[i as int], b@, 48 + 32 * i));
        }
        let s = match b.slice(ofs, size) {
            Ok(s) => s,
            Err(e) => {
                proof {
                    lemma_stm_sample_bytes(b@, i + 1, 31);
                }
                return Err(e);
            }
        };
        let mut smp = Sample::new();
        smp.num = i + 1;
        smp.name = instruments[i].name.clone();
        smp.rate = instruments[i].c2spd as u32;
        smp.size = instruments[i].size as u32;
        if smp.size > 0 {
            smp.sample_type = SampleType::Sample8;
        }
        smp.store(s);
        samples.push(smp);
        ofs = ofs + size;
        i = i + 1;
    }
    Ok(samples)
}

/// The tracker the origin field names; see `stm_creator`.
fn creator_name(origin: &str, major: u8, minor: u8) -> (r: String)
    ensures
        r@ == (if origin@ == "!Scream!"@ {
            "Scream Tracker "@ + dec_chars(major as nat) + "."@ + dec_chars(minor as nat)
        } else if origin@ == "BMOD2STM"@ {
            "BMOD2STM"@
        } else if origin@ == "WUZAMOD!"@ {
            "WUZAMOD"@
        } else {
            "unknown"@
        }),
{
    if str_eq(origin, "!Scream!") {
        let mut v: Vec<char> = Vec::new();
        push_str(&mut v, "Scream Tracker ");
        push_dec(&mut v, major as u64);
        push_str(&mut v, ".");
        push_dec(&mut v, minor as u64);
        chars_to_string(&v)
    } else if str_eq(origin, "BMOD2STM") {
        str_string("BMOD2STM")
    } else if str_eq(origin, "WUZAMOD!") {
        str_string("WUZAMOD")
    } else {
        str_string("unknown")
    }
}

impl StmLoader {
    pub fn name(&self) -> (r: &'static str)
        ensures
            r@ == "Scream Tracker 2 STM"@,
    {
        "Scream Tracker 2 STM"
    }

    /// Recognizes an STM file by the tracker tag at offset 20.
    pub fn probe(&self, b: &[u8], player_id: &str) -> (r: Result<ProbeInfo, Error>)
        ensures
            b@.len() < 1084 ==> (r matches Err(e) && format_error(e, "file too short"@)),
            b@.len() >= 1084 ==> {
                let magic = field_string(b@, 20, 10);
                if magic == "!Scream!\x1a\x02"@ || magic == "BMOD2STM\x1a\x02"@ || magic == "WUZAMOD!\x1a\x02"@ {
                    r matches Ok(info) && info.format == Format::Stm && info.title@ == field_string(b@, 0, 20)
                } else {
                    r matches Err(e) && format_error(e, "bad magic"@)
                }
            },
    {
        if b.len() < 1084 {
            return Err(Error::Format(str_string("file too short")));
        }
        let magic = b.read_string(20, 10).unwrap();
        let m = magic.as_str();
        if str_eq(m, "!Scream!\x1a\x02") || str_eq(m, "BMOD2STM\x1a\x02") || str_eq(m, "WUZAMOD!\x1a\x02") {
            Ok(ProbeInfo { format: Format::Stm, title: b.read_string(0, 20).unwrap() })
        } else {
            Err(Error::Format(str_string("bad magic")))
        }
    }

    /// Loads an STM module.
    pub fn load(&self, b: &[u8], info: ProbeInfo) -> (r: Result<Module, Error>)
        ensures
            stm_load_result(r, b@),
    {
        let name = b.read_string(0, 20)?;
        let version_major = b.read8(30)?;
        let version_minor = b.read8(31)?;
        if version_major != 2 || version_minor < 21 {
            return Err(Error::Format(str_string("unsupported version")));
        }
        let speed = b.read8(32)?;
        let num_patterns = b.read8(33)?;
        let global_vol = b.read8(34)?;
        let origin = b.read_string(20, 8)?;
        proof {
            lemma_stm_sample_bytes(b@, 31, 31);
        }
        let instruments = read_stm_instruments(b)?;
        let orders = b.slice(1040, 128)?;
        let pdata = b.slice(1168, 1024 * num_patterns as usize)?;
        let patterns = StmPatterns::from_slice(num_patterns as usize, pdata)?;
        let samples = load_stm_samples(b, 1168 + 1024 * num_patterns as usize, &instruments)?;
        let order_table = order_array(orders);
        proof {
            assert(orders@ == b@.subrange(1040, 1168));
            assert forall|i: int| 0 <= i < patterns.events().len()
                implies #[trigger] patterns.events()[i] == stm_event_at(b@, 1168 + 4 * i) by {
                assert(patterns.events()[i] == stm_event_at(pdata@, 4 * i));
            }
        }
        let creator = creator_name(origin.as_str(), version_major, version_minor);
        let data = StmData {
            name,
            speed,
            num_patterns,
            global_vol,
            instruments,
            orders: order_table,
            patterns,
            samples,
        };
        Ok(Module {
            format_id: "stm",
            description: str_string("Scream Tracker 2 STM"),
            creator,
            channels: 4,
            player: "st2",
            data: ModuleData::Stm(data),
        })
    }
}

} // verus!
