use tiliqua_manifest::decode::{payload_len, DecodeError};
use tiliqua_manifest::model::{
    BitstreamHelp, BitstreamManifest, ExternalPLLConfig, MemoryRegion, RegionType,
};
use tiliqua_manifest::{MANIFEST_MAGIC, MANIFEST_SIZE};

fn demo() -> BitstreamManifest {
    BitstreamManifest {
        hw_rev: 1,
        name: "demo".to_string(),
        tag: "v1".to_string(),
        regions: Vec::new(),
        help: None,
        external_pll_config: None,
        magic: 0xFEEDBEEF,
    }
}

fn region(name: &str) -> MemoryRegion {
    MemoryRegion {
        filename: name.to_string(),
        region_type: RegionType::Bitstream,
        spiflash_src: Some(0),
        psram_dst: None,
        size: 0x40000,
        crc: None,
    }
}

fn help() -> BitstreamHelp {
    BitstreamHelp {
        brief: "brief".to_string(),
        video: "video".to_string(),
        io_left: std::array::from_fn(|_| String::new()),
        io_right: std::array::from_fn(|_| String::new()),
    }
}

/// The compact encoding of `demo()`, padded with blanks to 212 bytes.
fn demo_encoding() -> Vec<u8> {
    let mut text = String::from(
        "{\"hw_rev\":1,\"name\":\"demo\",\"tag\":\"v1\",\"regions\":[],\"help\":null,\
         \"external_pll_config\":null,\"magic\":4276993775",
    );
    while text.len() < 211 {
        text.push(' ');
    }
    text.push('}');
    text.into_bytes()
}

fn never_called(_: &[u8]) -> Result<BitstreamManifest, DecodeError> {
    panic!("an erased window must not be decoded")
}

#[test]
fn erased_window_of_size_zero_is_absent() {
    assert_eq!(payload_len(&[]), None);
    assert!(BitstreamManifest::from_window(&[], never_called).is_none());
}

#[test]
fn erased_window_of_size_one_is_absent() {
    assert_eq!(payload_len(&[0xFF]), None);
    assert!(BitstreamManifest::from_window(&[0xFF], never_called).is_none());
}

#[test]
fn erased_full_manifest_region_is_absent() {
    let window = vec![0xFFu8; MANIFEST_SIZE];
    assert_eq!(payload_len(&window), None);
    assert!(BitstreamManifest::from_window(&window, never_called).is_none());
}

#[test]
fn padding_is_cut_off_for_any_amount() {
    let enc = demo_encoding();
    for pad in [0usize, 1, 2, 100, MANIFEST_SIZE - enc.len()] {
        let mut window = enc.clone();
        window.extend(std::iter::repeat(0xFFu8).take(pad));
        assert_eq!(payload_len(&window), Some(enc.len()));
    }
}

#[test]
fn erased_bytes_inside_the_payload_are_kept() {
    let window = [1u8, 0xFF, 0xFF, 2, 0xFF];
    assert_eq!(payload_len(&window), Some(4));
}

#[test]
fn last_byte_not_erased_keeps_the_whole_window() {
    let window = [0xFFu8, 0xFF, 7];
    assert_eq!(payload_len(&window), Some(3));
}

#[test]
fn corrupt_nonempty_window_is_absent() {
    let window = [b'{', b'x', b'y'];
    let seen = std::cell::Cell::new(0usize);
    let r = BitstreamManifest::from_window(&window, |p| {
        seen.set(p.len());
        Err(DecodeError::MalformedEncoding)
    });
    assert!(r.is_none());
    assert_eq!(seen.get(), 3);
}

#[test]
fn end_to_end_window_decodes_to_the_manifest() {
    let enc = demo_encoding();
    assert_eq!(enc.len(), 212);
    let mut window = enc.clone();
    window.resize(4096, 0xFF);
    let r = BitstreamManifest::from_window(&window, |p| {
        assert_eq!(p, &enc[..]);
        Ok(demo())
    });
    let m = r.expect("manifest present");
    assert_eq!(m, demo());
    assert_eq!(m.magic, MANIFEST_MAGIC);
    assert_eq!(m.hw_rev, 1);
    assert_eq!(m.name, "demo");
    assert_eq!(m.tag, "v1");
    assert!(m.regions.is_empty());
}

#[test]
fn decode_error_is_absent() {
    assert!(BitstreamManifest::accept_decoded(Err(DecodeError::MalformedEncoding)).is_none());
}

#[test]
fn fields_at_capacity_are_accepted() {
    let mut m = demo();
    m.name = "n".repeat(32);
    m.tag = "t".repeat(8);
    m.regions = (0..5).map(|_| region(&"f".repeat(16))).collect();
    let mut h = help();
    h.brief = "b".repeat(64);
    h.video = "v".repeat(64);
    h.io_left[7] = "l".repeat(20);
    h.io_right[5] = "r".repeat(20);
    m.help = Some(h);
    m.external_pll_config = Some(ExternalPLLConfig {
        clk0_hz: 60_000_000,
        clk1_hz: None,
        clk1_inherit: true,
        spread_spectrum: Some(0.01f32.to_bits()),
    });
    assert!(m.check_capacity());
    assert_eq!(BitstreamManifest::accept_decoded(Ok(m.clone())), Some(m));
}

#[test]
fn name_over_capacity_is_rejected() {
    let mut m = demo();
    m.name = "n".repeat(33);
    assert!(BitstreamManifest::accept_decoded(Ok(m)).is_none());
}

#[test]
fn tag_over_capacity_is_rejected() {
    let mut m = demo();
    m.tag = "t".repeat(9);
    assert!(BitstreamManifest::accept_decoded(Ok(m)).is_none());
}

#[test]
fn capacity_counts_utf8_bytes() {
    let mut m = demo();
    m.tag = "éééé".to_string();
    assert!(BitstreamManifest::accept_decoded(Ok(m.clone())).is_some());
    m.tag = "ééééa".to_string();
    assert!(BitstreamManifest::accept_decoded(Ok(m)).is_none());
}

#[test]
fn too_many_regions_are_rejected() {
    let mut m = demo();
    m.regions = (0..6).map(|_| region("a.bin")).collect();
    assert!(BitstreamManifest::accept_decoded(Ok(m)).is_none());
}

#[test]
fn region_filename_over_capacity_is_rejected() {
    let mut m = demo();
    m.regions = vec![region("a.bin"), region(&"f".repeat(17))];
    assert!(!m.regions[1].check_capacity());
    assert!(BitstreamManifest::accept_decoded(Ok(m)).is_none());
}

#[test]
fn help_label_over_capacity_is_rejected() {
    let mut m = demo();
    let mut h = help();
    h.io_right[0] = "r".repeat(21);
    m.help = Some(h);
    assert!(BitstreamManifest::accept_decoded(Ok(m)).is_none());
}

#[test]
fn help_brief_over_capacity_is_rejected() {
    let mut h = help();
    h.brief = "b".repeat(65);
    assert!(!h.check_capacity());
    h.brief = "b".repeat(64);
    h.video = "v".repeat(65);
    assert!(!h.check_capacity());
}
