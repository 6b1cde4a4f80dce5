use gpt_toolbox::disk::dispatch_probe;
use gpt_toolbox::disk::dk_minfo;
use gpt_toolbox::disk::GptError;
use gpt_toolbox::disk::LogicalBlockSize;
use gpt_toolbox::disk::DEFAULT_SECTOR_SIZE;
use gpt_toolbox::disk::MAX_SECTOR_SIZE;
use gpt_toolbox::disk::MIN_SECTOR_SIZE;

#[test]
fn construct_512_is_canonical() {
    let r = LogicalBlockSize::try_from(512).unwrap();
    assert!(matches!(r, LogicalBlockSize::Lb512));
    assert_eq!(r.as_u64(), 512);
    assert_eq!(r, DEFAULT_SECTOR_SIZE);
}

#[test]
fn construct_4096_is_canonical() {
    let r = LogicalBlockSize::try_from(4096).unwrap();
    assert!(matches!(r, LogicalBlockSize::Lb4096));
    assert_eq!(r.as_u64(), 4096);
}

#[test]
fn construct_other_keeps_exact_magnitude() {
    let r = LogicalBlockSize::try_from(7000).unwrap();
    assert!(matches!(r, LogicalBlockSize::Other(7000)));
    assert_eq!(r.as_u64(), 7000);
}

#[test]
fn round_trip_magnitudes() {
    let candidates: Vec<u64> = vec![
        MIN_SECTOR_SIZE,
        513,
        1024,
        4095,
        4096,
        4097,
        7000,
        1 << 20,
        MAX_SECTOR_SIZE - 1,
        MAX_SECTOR_SIZE,
    ];
    for u in candidates {
        let lb = LogicalBlockSize::try_from(u).unwrap();
        assert_eq!(lb.as_u64(), u);
        assert_eq!(u64::from(lb), u);
        assert_eq!(lb.as_usize(), u as usize);
        assert_eq!(usize::from(lb), u as usize);
    }
}

#[test]
fn boundary_max_accepted_above_rejected() {
    let max = LogicalBlockSize::try_from(MAX_SECTOR_SIZE).unwrap();
    assert_eq!(max.as_u64(), 1u64 << 32);
    let above = LogicalBlockSize::try_from(MAX_SECTOR_SIZE + 1);
    assert_eq!(above, Err(GptError::InvalidInput(4294967297)));
}

#[test]
fn below_minimum_rejected_with_value_in_message() {
    for u in [0u64, 1, 255, 256, 511] {
        let r = LogicalBlockSize::try_from(u);
        assert_eq!(r, Err(GptError::InvalidInput(u)));
    }
    let err = LogicalBlockSize::try_from(256).unwrap_err();
    let msg = err.message();
    assert!(msg.contains("256"));
    assert!(msg.contains("512B-4GB"));
    assert_eq!(msg, "Logical block size 256 is NOT in the range 512B-4GB");
}

#[test]
fn rejected_value_above_range_appears_in_message() {
    let err = LogicalBlockSize::try_from(4294967297).unwrap_err();
    assert_eq!(
        err.message(),
        "Logical block size 4294967297 is NOT in the range 512B-4GB"
    );
}

#[test]
fn equality_goes_by_magnitude_not_shape() {
    assert_eq!(LogicalBlockSize::Lb512, LogicalBlockSize::Other(512));
    assert_eq!(LogicalBlockSize::Other(4096), LogicalBlockSize::Lb4096);
    assert_ne!(LogicalBlockSize::Lb512, LogicalBlockSize::Lb4096);
    assert_ne!(LogicalBlockSize::Other(513), LogicalBlockSize::Lb512);
    assert_eq!(
        LogicalBlockSize::Lb512.to_display_string(),
        LogicalBlockSize::Other(512).to_display_string()
    );
}

#[test]
fn renders_decimal_magnitude() {
    assert_eq!(LogicalBlockSize::Lb512.to_display_string(), "512");
    assert_eq!(LogicalBlockSize::Lb4096.to_display_string(), "4096");
    assert_eq!(LogicalBlockSize::Other(512).to_display_string(), "512");
    assert_eq!(LogicalBlockSize::Other(7000).to_display_string(), "7000");
    assert_eq!(
        LogicalBlockSize::Other(4294967296).to_display_string(),
        "4294967296"
    );
}

#[test]
fn dispatch_wide64_512_yields_canonical() {
    let r = dispatch_probe(Ok(gpt_toolbox::disk::ProbeReply::Wide64(512)));
    assert_eq!(r, Ok(LogicalBlockSize::Lb512));
    assert_eq!(r.unwrap(), DEFAULT_SECTOR_SIZE);
}

#[test]
fn dispatch_wide64_4096_yields_canonical() {
    let r = dispatch_probe(Ok(gpt_toolbox::disk::ProbeReply::Wide64(4096)));
    assert_eq!(r, Ok(LogicalBlockSize::Lb4096));
}

#[test]
fn dispatch_wide64_8192_yields_other() {
    let r = dispatch_probe(Ok(gpt_toolbox::disk::ProbeReply::Wide64(8192))).unwrap();
    assert!(matches!(r, LogicalBlockSize::Other(8192)));
    assert_eq!(r, LogicalBlockSize::Other(8192));
    assert_eq!(r.as_u64(), 8192);
}

#[test]
fn dispatch_narrow32_widens_before_validation() {
    let r = dispatch_probe(Ok(gpt_toolbox::disk::ProbeReply::Narrow32(512)));
    assert_eq!(r, Ok(LogicalBlockSize::Lb512));
    let r = dispatch_probe(Ok(gpt_toolbox::disk::ProbeReply::Narrow32(4096)));
    assert_eq!(r, Ok(LogicalBlockSize::Lb4096));
}

#[test]
fn dispatch_media_info_consults_block_size_field_only() {
    let info = dk_minfo {
        dki_media_type: 3,
        dki_lbsize: 4096,
        dki_capacity: 999_999,
    };
    let r = dispatch_probe(Ok(gpt_toolbox::disk::ProbeReply::MediaInfo(info)));
    assert_eq!(r, Ok(LogicalBlockSize::Lb4096));
}

#[test]
fn dispatch_failure_yields_io_error_with_code() {
    let r = dispatch_probe(Err(13));
    assert_eq!(r, Err(GptError::Io(13)));
    let msg = r.unwrap_err().message();
    assert!(msg.contains("13"));
    assert_eq!(msg, "I/O error, OS error code 13");
}

#[test]
fn dispatch_zero_byte_count_is_invalid_input() {
    let r = dispatch_probe(Ok(gpt_toolbox::disk::ProbeReply::Wide64(0)));
    assert_eq!(r, Err(GptError::InvalidInput(0)));
}

#[test]
fn io_error_message_renders_negative_codes() {
    assert_eq!(GptError::Io(-5).message(), "I/O error, OS error code -5");
}

#[test]
fn unsupported_platform_is_distinct() {
    let e = GptError::Unsupported;
    assert_ne!(e, GptError::Io(0));
    assert!(e.message().contains("platform"));
}
