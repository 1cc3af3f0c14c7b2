use oxdz::format::fest::load::FestLoader;
use oxdz::format::s3m::load::S3mLoader;
use oxdz::format::st::load::StLoader;
use oxdz::format::stm::load::StmLoader;
use oxdz::format::xm::load::{diff_decode_16l, diff_decode_8, XmLoader};
use oxdz::format::Format;
use oxdz::module::event;
use oxdz::module::instrument::SampleMap;
use oxdz::text::dec_string;
use oxdz::util::MemOpExt;
use oxdz::Error;

fn message(e: Error) -> String {
    match e {
        Error::Format(s) | Error::Player(s) | Error::Load(s) => s,
    }
}

#[test]
fn st_probe_checks_title() {
    let mut b = vec![0u8; 700];
    b[3] = 5;
    assert_eq!(message(StLoader.probe(&b, "").err().unwrap()), "invalid title");
}

#[test]
fn st_probe_checks_sample_size() {
    let b = vec![0u8; 700];
    assert_eq!(message(StLoader.probe(&b, "").err().unwrap()), "invalid total sample size 0");
}

#[test]
fn st_probe_checks_instrument() {
    let mut b = vec![0u8; 700];
    b[20 + 30 + 24] = 1; // finetune of instrument 1
    assert_eq!(message(StLoader.probe(&b, "").err().unwrap()), "sample 1 has finetune");
}

#[test]
fn st_probe_too_short() {
    let b = vec![0u8; 599];
    assert_eq!(message(StLoader.probe(&b, "").err().unwrap()), "file too short (599)");
}

#[test]
fn stm_probe() {
    let b = vec![0u8; 100];
    assert_eq!(message(StmLoader.probe(&b, "").err().unwrap()), "file too short");
    let mut b = vec![0u8; 1200];
    assert_eq!(message(StmLoader.probe(&b, "").err().unwrap()), "bad magic");
    b[20..30].copy_from_slice(b"!Scream!\x1a\x02");
    let info = StmLoader.probe(&b, "").unwrap();
    assert!(info.format == Format::Stm);
}

#[test]
fn s3m_probe() {
    let b = vec![0u8; 100];
    assert_eq!(message(S3mLoader.probe(&b, "").err().unwrap()), "file too short (100)");
    let mut b = vec![0u8; 300];
    assert_eq!(message(S3mLoader.probe(&b, "").err().unwrap()), "bad magic \"    \"");
    b[0x1d] = 16;
    b[0x2c..0x30].copy_from_slice(b"SCRM");
    b[..4].copy_from_slice(b"song");
    let info = S3mLoader.probe(&b, "").unwrap();
    assert!(info.format == Format::S3m);
    assert_eq!(info.title, format!("{:<28}", "song"));
}

#[test]
fn fest_probe() {
    let mut b = vec![0u8; 1084];
    b[1080..1084].copy_from_slice(b"FEST");
    let info = FestLoader.probe(&b, "").unwrap();
    assert!(info.format == Format::Fest);
    b[1080] = b'X';
    assert_eq!(message(FestLoader.probe(&b, "").err().unwrap()), "bad magic \"XEST\"");
}

#[test]
fn xm_probe() {
    let mut b = vec![0u8; 200];
    assert_eq!(message(XmLoader.probe(&b, "").err().unwrap()), "bad magic");
    b[..17].copy_from_slice(b"Extended Module: ");
    b[17..21].copy_from_slice(b"tune");
    let info = XmLoader.probe(&b, "").unwrap();
    assert!(info.format == Format::Xm);
    assert_eq!(info.title, format!("{:<20}", "tune"));
}

#[test]
fn xm_delta_decoding() {
    assert_eq!(diff_decode_8(&[1, 1, 255, 3]), vec![1, 2, 1, 4]);
    assert_eq!(diff_decode_16l(&[1, 0, 2, 0, 0xff, 0xff, 9]), vec![1, 3, 2, 0, 0, 0, 0]);
}

#[test]
fn event_text() {
    let b = [event::HAS_NOTE | event::HAS_INS | event::HAS_VOL, 25, 0x1f, 0x40, 0x0a, 0xbc];
    assert_eq!(event::format(&b), "C#2 1f 40 0ABC");
    let b = [0, 25, 0x1f, 0x40, 0x0a, 0xbc];
    assert_eq!(event::format(&b), "--- -- -- 0ABC");
}

#[test]
fn fill_writes_one_byte_less() {
    let mut b = [7u8; 5];
    MemOpExt::fill(&mut b[..], 1, 4);
    assert_eq!(b, [1, 1, 1, 7, 7]);
}

#[test]
fn misc_values() {
    assert_eq!(dec_string(1234567), "1234567");
    let m = SampleMap::new();
    assert_eq!(m.sample_num, 0);
    assert_eq!(m.transpose, 0);
}
