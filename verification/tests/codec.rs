use actix_net::codec::framed::{Framed, FramedParts, HW, LW};

#[test]
fn framed_new_has_default_watermarks_and_empty_buffers() {
    let f = Framed::new(1u8, "codec");
    assert!(f.is_write_buf_empty());
    assert!(!f.is_write_buf_full());
    assert_eq!(*f.get_ref(), 1);
    assert_eq!(*f.get_codec(), "codec");
    let parts = f.into_parts();
    assert_eq!(parts.write_buf_lw, LW);
    assert_eq!(parts.write_buf_hw, HW);
    assert_eq!(LW, 1024);
    assert_eq!(HW, 8 * 1024);
    assert!(parts.read_buf.is_empty() && parts.write_buf.is_empty());
}

#[test]
fn framed_write_buffer_is_full_at_high_watermark() {
    let mut f = Framed::new_with_caps((), (), 2, 4);
    f.force_send(b"abc");
    assert!(!f.is_write_buf_empty());
    assert!(!f.is_write_buf_full());
    f.force_send(b"d");
    assert!(f.is_write_buf_full());
    assert_eq!(&f.write_buf()[..], b"abcd");
    f.consume_written(3);
    assert_eq!(&f.write_buf()[..], b"d");
    assert!(!f.is_write_buf_full());
    f.consume_written(1);
    assert!(f.is_write_buf_empty());
}

#[test]
fn framed_swaps_keep_buffers() {
    let mut f = Framed::new_with_caps(10u32, 'a', 1, 2);
    f.force_send(b"xy");
    f.fill_read_buf(b"in");
    *f.get_mut() += 1;
    *f.get_codec_mut() = 'b';
    let g = f.into_framed(5u64);
    assert_eq!(*g.get_codec(), 5);
    assert_eq!(*g.get_ref(), 11);
    assert!(g.is_write_buf_full());
    let g = g.map_codec(|c| c * 2).map_io(|io| io + 1);
    assert_eq!(*g.get_codec(), 10);
    let parts = g.into_parts();
    assert_eq!(parts.io, 12);
    assert_eq!(&parts.read_buf[..], b"in");
    assert_eq!(&parts.write_buf[..], b"xy");
    assert_eq!((parts.write_buf_lw, parts.write_buf_hw), (1, 2));
    let h = Framed::from_parts(parts);
    assert!(h.is_write_buf_full());
    assert_eq!(h.into_inner(), 12);
}

#[test]
fn framed_parts_with_read_buf() {
    let mut buf = bytes::BytesMut::new();
    buf.extend_from_slice(b"pending");
    let parts = FramedParts::with_read_buf((), (), buf);
    let mut f = Framed::from_parts(parts);
    let (codec, rb) = f.codec_and_read_buf_mut();
    let _ = codec;
    assert_eq!(&rb[..], b"pending");
    let _ = rb.split_to(3);
    let parts = f.into_parts();
    assert_eq!(&parts.read_buf[..], b"ding");
    let fresh = FramedParts::new((), ());
    assert!(fresh.read_buf.is_empty());
    assert_eq!(fresh.write_buf_hw, HW);
}
