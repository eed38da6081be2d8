use bcm283x::mailbox::{
    cache_line_addrs, cache_line_size, property_request, property_succeeded, read_response,
    response_wait, set_clock_rate, write_request, CLK_V3D, MBOX_CH_PROPERTY, TAG_CLOCK_SET_RATE,
};
use bcm283x::regops::RegOp;

#[test]
fn request_word_carries_address_and_channel() {
    assert_eq!(
        write_request(0x0000_1234, MBOX_CH_PROPERTY),
        vec![
            RegOp::WaitClear { reg: 0x18, mask: 0x8000_0000 },
            RegOp::Write { reg: 0x20, value: 0x1238 },
        ]
    );
    assert_eq!(response_wait(), RegOp::WaitClear { reg: 0x18, mask: 0x4000_0000 });
}

#[test]
fn replies_are_matched_by_channel() {
    assert_eq!(read_response(0x1238, 8), Some(0x1230));
    assert_eq!(read_response(0x1239, 8), None);
    assert_eq!(read_response(0xffff_fff8, 8), Some(0xffff_fff0));
}

#[test]
fn request_reply_roundtrip() {
    let ops = write_request(0x0003_c450, 8);
    let word = match ops[1] {
        RegOp::Write { value, .. } => value,
        _ => unreachable!(),
    };
    assert_eq!(read_response(word, 8), Some(0x0003_c450));
}

#[test]
fn clock_rate_request_layout() {
    let req = set_clock_rate(CLK_V3D, 250_000_000);
    assert_eq!(req.total_bytes, 36);
    assert_eq!(req.words.len(), 32);
    assert_eq!(&req.words[..9], &[36, 0, TAG_CLOCK_SET_RATE, 12, 12, 5, 250_000_000, 0, 0]);
    assert!(req.words[9..].iter().all(|&w| w == 0));
}

#[test]
fn end_tag_follows_the_values() {
    let req = property_request(0x0001_0001, &[0xdead, 0xbeef]);
    assert_eq!(req.total_bytes, 32);
    assert_eq!(&req.words[..9], &[32, 0, 0x0001_0001, 8, 8, 0xdead, 0xbeef, 0, 0]);
    let req = property_request(0x0001_0002, &[]);
    assert_eq!(req.total_bytes, 24);
    assert_eq!(&req.words[..7], &[24, 0, 0x0001_0002, 0, 0, 0, 0]);
    let req = property_request(0x0003_0002, &[1, 2, 3, 4, 5, 6, 7, 8, 9, 10, 11, 12, 13, 14, 15, 16, 17, 18, 19, 20, 21, 22, 23, 24, 25, 26]);
    assert_eq!(req.total_bytes, 128);
    assert_eq!(req.words[30], 26);
    assert_eq!(req.words[31], 0);
}

#[test]
fn property_outcome() {
    let mut words = [0u32; 32];
    words[4] = 0x8000_000c;
    assert!(property_succeeded(0x1000, 0x1000, &words));
    assert!(!property_succeeded(0x2000, 0x1000, &words));
    words[4] = 0xc;
    assert!(!property_succeeded(0x1000, 0x1000, &words));
}

#[test]
fn cache_line_sizes() {
    assert_eq!(cache_line_size(0), 4);
    assert_eq!(cache_line_size(4), 64);
    assert_eq!(cache_line_size(0x8444_c004), 64);
    assert_eq!(cache_line_size(0x1f), 4 << 15);
}

#[test]
fn cache_lines_cover_the_range() {
    assert_eq!(cache_line_addrs(0x1005, 0x80, 64), vec![0x1000, 0x1040, 0x1080]);
    assert_eq!(cache_line_addrs(0x1000, 0x80, 64), vec![0x1000, 0x1040]);
    assert_eq!(cache_line_addrs(0x1000, 0, 64), Vec::<usize>::new());
    assert_eq!(cache_line_addrs(0x103f, 1, 64), vec![0x1000]);
}
