use video_decode::decode::{
    DecodeEvent, DecodeProgress, Decoder, PullEvent, StreamInfo,
};
use video_decode::error::{BackendError, Error};
use video_decode::frame::{copy_frame_props, Packet, PixelFormat, RawFrame, FRAME_PIXEL_FORMAT};
use video_decode::resize::Resize;
use video_decode::time::Rational;

const NATIVE_FORMAT: PixelFormat = PixelFormat::Other(12);

fn stream_info() -> StreamInfo {
    StreamInfo {
        stream_index: 0,
        frame_rate: Rational::new(25, 1),
        stream_time_base: Rational::new(1, 1000),
        decoder_time_base: Rational::new(1, 90000),
        format: NATIVE_FORMAT,
        width: 1920,
        height: 1080,
    }
}

fn decoder() -> Decoder {
    Decoder::from_stream_info(Some(stream_info()), Some(Resize::Fit(800, 600))).unwrap()
}

fn native_frame(pts: Option<i64>, pkt_dts: Option<i64>) -> RawFrame {
    RawFrame { format: NATIVE_FORMAT, width: 1920, height: 1080, pts, pkt_dts }
}

fn packet(ticks: i64) -> Packet {
    Packet { pts: Some(ticks), dts: Some(ticks) }
}

#[test]
fn construction_without_stream_fails() {
    match Decoder::from_stream_info(None, None) {
        Err(Error::StreamNotFound) => {}
        other => panic!("expected StreamNotFound, got {:?}", other),
    }
}

#[test]
fn construction_with_unknown_format_fails() {
    let info = StreamInfo { format: PixelFormat::Unknown, ..stream_info() };
    match Decoder::from_stream_info(Some(info), None) {
        Err(Error::MissingCodecParameters) => {}
        other => panic!("expected MissingCodecParameters, got {:?}", other),
    }
}

#[test]
fn construction_with_zero_dimension_fails() {
    let no_width = StreamInfo { width: 0, ..stream_info() };
    let no_height = StreamInfo { height: 0, ..stream_info() };
    assert_eq!(
        Decoder::from_stream_info(Some(no_width), None),
        Err(Error::MissingCodecParameters)
    );
    assert_eq!(
        Decoder::from_stream_info(Some(no_height), None),
        Err(Error::MissingCodecParameters)
    );
}

#[test]
fn construction_resolves_fields() {
    let d = decoder();
    assert_eq!(d.size(), (1920, 1080));
    assert_eq!(d.frame_rate(), Rational::new(25, 1));
    assert_eq!(d.stream_time_base(), Rational::new(1, 1000));
    assert_eq!(d.scaler.src_format, NATIVE_FORMAT);
    assert_eq!(d.scaler.dst_format, FRAME_PIXEL_FORMAT);
    // Fit(800, 600) on 1920x1080 resolves to 800x450
    assert_eq!((d.scaler.dst_width, d.scaler.dst_height), (800, 450));
}

#[test]
fn construction_without_resize_keeps_native_dims() {
    let d = Decoder::from_stream_info(Some(stream_info()), None).unwrap();
    assert_eq!((d.scaler.dst_width, d.scaler.dst_height), (1920, 1080));
}

#[test]
fn two_packets_one_frame() {
    // a codec that needs 2 packets for 1 frame: the first pull says
    // "not enough data yet", the loop reads another packet, the second
    // pull succeeds; the call finishes with exactly one frame
    let d = decoder();
    let events = vec![
        DecodeEvent::PacketRead(packet(40)),
        DecodeEvent::PacketAccepted,
        DecodeEvent::Pulled(PullEvent::NotReady),
        DecodeEvent::PacketRead(packet(80)),
        DecodeEvent::PacketAccepted,
        DecodeEvent::Pulled(PullEvent::Frame(native_frame(Some(3600), Some(3600)))),
    ];
    match d.decode_raw(&events) {
        DecodeProgress::Finished(frame) => {
            // scaled to the output layout, carrying the decoded frame's timing
            assert_eq!(frame.format, FRAME_PIXEL_FORMAT);
            assert_eq!((frame.width, frame.height), (800, 450));
            assert_eq!(frame.pts, Some(3600));
            assert_eq!(frame.pkt_dts, Some(3600));
        }
        other => panic!("expected a finished frame, got {:?}", other),
    }
}

#[test]
fn not_ready_never_ends_the_call() {
    // three full read-feed-pull rounds, every pull "not enough data yet":
    // the call is still waiting for a packet, neither finished nor failed
    let d = decoder();
    let mut events = Vec::new();
    for i in 0..3 {
        events.push(DecodeEvent::PacketRead(packet(i * 40)));
        events.push(DecodeEvent::PacketAccepted);
        events.push(DecodeEvent::Pulled(PullEvent::NotReady));
    }
    assert_eq!(d.decode_raw(&events), DecodeProgress::NeedPacket);
}

#[test]
fn reader_exhaustion_ends_the_call() {
    let d = decoder();
    let events = vec![DecodeEvent::ReadExhausted];
    assert_eq!(d.decode_raw(&events), DecodeProgress::Failed(Error::ReadExhausted));
}

#[test]
fn reader_failure_is_propagated() {
    let d = decoder();
    let events = vec![DecodeEvent::ReadFailed(-5)];
    assert_eq!(d.decode_raw(&events), DecodeProgress::Failed(Error::ReadError(-5)));
}

#[test]
fn feed_failure_is_fatal() {
    let d = decoder();
    let events = vec![
        DecodeEvent::PacketRead(packet(0)),
        DecodeEvent::FeedFailed(BackendError::Other(-22)),
    ];
    assert_eq!(
        d.decode_raw(&events),
        DecodeProgress::Failed(Error::BackendError(BackendError::Other(-22)))
    );
}

#[test]
fn pull_failure_is_fatal() {
    let d = decoder();
    let events = vec![
        DecodeEvent::PacketRead(packet(0)),
        DecodeEvent::PacketAccepted,
        DecodeEvent::Pulled(PullEvent::Failed(BackendError::Other(-1))),
    ];
    assert_eq!(
        d.decode_raw(&events),
        DecodeProgress::Failed(Error::BackendError(BackendError::Other(-1)))
    );
}

#[test]
fn changed_frame_is_rejected() {
    // a pulled frame that no longer matches the configured input layout
    let d = decoder();
    let wrong = RawFrame { width: 1280, height: 720, ..native_frame(None, None) };
    let events = vec![
        DecodeEvent::PacketRead(packet(0)),
        DecodeEvent::PacketAccepted,
        DecodeEvent::Pulled(PullEvent::Frame(wrong)),
    ];
    assert_eq!(
        d.decode_raw(&events),
        DecodeProgress::Failed(Error::BackendError(BackendError::InputChanged))
    );
}

#[test]
fn packet_is_rebased_before_the_feed() {
    // stream time base 1/1000, decoder time base 1/90000: 40 ticks -> 3600
    let d = decoder();
    let step = d.decode_step(DecodeProgress::NeedPacket, DecodeEvent::PacketRead(packet(40)));
    match step {
        DecodeProgress::NeedFeed(p) => {
            assert_eq!(p.dts, Some(3600));
            assert_eq!(p.pts, Some(3600));
        }
        other => panic!("expected a packet queued for the feed, got {:?}", other),
    }
}

#[test]
fn decode_pairs_frame_with_packet_dts_timestamp() {
    let d = decoder();
    let events = vec![
        DecodeEvent::PacketRead(packet(40)),
        DecodeEvent::PacketAccepted,
        // presentation and decode timestamps differ: the timestamp must
        // come from the decode timestamp
        DecodeEvent::Pulled(PullEvent::Frame(native_frame(Some(7200), Some(3600)))),
    ];
    match d.decode(&events) {
        Some(Ok((ts, frame))) => {
            assert_eq!(ts.ticks, Some(3600));
            assert_eq!(ts.time_base, Rational::new(1, 90000));
            assert_eq!(frame.pkt_dts, Some(3600));
            assert_eq!(frame.pts, Some(7200));
        }
        other => panic!("expected a timestamped frame, got {:?}", other),
    }
}

#[test]
fn decode_reports_errors() {
    let d = decoder();
    let events = vec![DecodeEvent::ReadExhausted];
    assert_eq!(d.decode(&events), Some(Err(Error::ReadExhausted)));
}

#[test]
fn decode_without_enough_responses_stays_open() {
    let d = decoder();
    let events = vec![DecodeEvent::PacketRead(packet(0))];
    assert_eq!(d.decode(&events), None);
}

#[test]
fn receive_frame_recovers_not_ready() {
    let d = decoder();
    assert_eq!(d.decoder_receive_frame(PullEvent::NotReady), Ok(None));
    let f = native_frame(Some(1), Some(2));
    assert_eq!(d.decoder_receive_frame(PullEvent::Frame(f)), Ok(Some(f)));
    assert_eq!(
        d.decoder_receive_frame(PullEvent::Failed(BackendError::Other(-9))),
        Err(Error::BackendError(BackendError::Other(-9)))
    );
}

#[test]
fn copied_properties_stay_set() {
    // a set timestamp on the source frame is set on the destination
    let src = native_frame(Some(100), Some(200));
    let mut dst = RawFrame::empty();
    dst.format = FRAME_PIXEL_FORMAT;
    dst.width = 800;
    dst.height = 450;
    copy_frame_props(&src, &mut dst);
    assert_eq!(dst.pts, Some(100));
    assert_eq!(dst.pkt_dts, Some(200));
    assert!(dst.pkt_dts.is_some());
    // the pixel layout of the destination is untouched
    assert_eq!(dst.format, FRAME_PIXEL_FORMAT);
    assert_eq!((dst.width, dst.height), (800, 450));
}

#[test]
fn empty_frame_has_nothing_set() {
    let f = RawFrame::empty();
    assert_eq!(f.format, PixelFormat::Unknown);
    assert_eq!((f.width, f.height), (0, 0));
    assert_eq!(f.pts, None);
    assert_eq!(f.pkt_dts, None);
}
