use v4l2loopback::descriptor::CARD_LABEL_LEN;
use v4l2loopback::V4l2LoopbackCtl;

#[test]
fn default_descriptor_is_zero_with_label() {
    let d = V4l2LoopbackCtl::default();
    assert_eq!(d.output_nr, 0);
    assert_eq!(d.capture_nr, 0);
    assert_eq!(d.min_width, 0);
    assert_eq!(d.max_width, 0);
    assert_eq!(d.min_height, 0);
    assert_eq!(d.max_height, 0);
    assert_eq!(d.max_buffers, 0);
    assert_eq!(d.max_openers, 0);
    assert_eq!(d.debug, 0);
    assert_eq!(d.announce_all_caps, 0);
}

#[test]
fn default_label_is_inline_and_nul_terminated() {
    let d = V4l2LoopbackCtl::default();
    assert_eq!(d.card_label.len(), CARD_LABEL_LEN);
    assert_eq!(&d.card_label[..12], b"v4l2loopback");
    assert!(d.card_label[12..].iter().all(|b| *b == 0));
}

#[test]
fn for_device_sets_only_output_nr() {
    let d = V4l2LoopbackCtl::for_device(5);
    let mut expected = V4l2LoopbackCtl::default();
    expected.output_nr = 5;
    assert_eq!(d, expected);
}

#[test]
fn for_device_keeps_auto_assign_sentinel() {
    let d = V4l2LoopbackCtl::for_device(-1);
    assert_eq!(d.output_nr, -1);
    assert_eq!(d.capture_nr, 0);
    assert_eq!(&d.card_label[..12], b"v4l2loopback");
}
