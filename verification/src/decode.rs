//! The decoder: construction from resolved stream parameters, and the
//! feed/pull protocol that turns backend responses into exactly one scaled,
//! property-carrying frame per decode call.
//!
//! The blocking backend work (reading a packet, feeding the codec, pulling a
//! frame) stays with the caller, who owns the reader and codec handles. The
//! caller reports each outcome as a [`DecodeEvent`]; every decision in
//! between is made here.

use vstd::prelude::*;
use crate::error::{BackendError, Error};
use crate::frame::{copy_frame_props, PixelFormat, Packet, RawFrame, FRAME_PIXEL_FORMAT};
use crate::resize::{resolve_target_dims, target_dims_spec, Resize};
use crate::scale::Scaler;
use crate::time::{rescale_ts, rescale_ts_spec, Rational, Timestamp};

verus! {

/// The parameters resolved when a reader is opened and its best video
/// stream is selected: the stream's identity and timing, and the picture
/// parameters its codec reports. Plain values; the reader and codec handles
/// that produced them stay with the caller.
#[derive(Clone, Copy, Debug, PartialEq, Eq)]
pub struct StreamInfo {
    /// Index of the selected video stream.
    pub stream_index: usize,
    /// The stream's frame rate.
    pub frame_rate: Rational,
    /// The time base packet timestamps are expressed in when read.
    pub stream_time_base: Rational,
    /// The codec's own time base, used for all packet and frame timestamps
    /// once decoding has begun.
    pub decoder_time_base: Rational,
    /// The native pixel format the codec reports.
    pub format: PixelFormat,
    /// The native width the codec reports.
    pub width: u32,
    /// The native height the codec reports.
    pub height: u32,
}

impl StreamInfo {
    /// The codec reported usable picture parameters: a known pixel format
    /// and nonzero dimensions. Without them no scaler can be configured.
    pub open spec fn has_codec_parameters(self) -> bool {
        &&& self.format != PixelFormat::Unknown
        &&& self.width > 0
        &&& self.height > 0
    }

    /// Both time bases are usable.
    pub open spec fn has_valid_time_bases(self) -> bool {
        &&& self.stream_time_base.is_time_base()
        &&& self.decoder_time_base.is_time_base()
    }
}

/// What the codec reported for one attempt to pull a decoded frame.
#[derive(Clone, Copy, Debug, PartialEq, Eq)]
pub enum PullEvent {
    /// A decoded frame was produced.
    Frame(RawFrame),
    /// Not enough data yet: the codec needs more input before it can emit a
    /// frame. A well-defined, non-fatal signal, never an error.
    NotReady,
    /// Any other failure of the pull.
    Failed(BackendError),
}

/// One backend response consumed by a decode call.
#[derive(Clone, Copy, Debug, PartialEq, Eq)]
pub enum DecodeEvent {
    /// The reader yielded the next packet of the selected stream, its
    /// timestamps still in the stream's time base.
    PacketRead(Packet),
    /// The reader has no more packets: end of stream.
    ReadExhausted,
    /// The reader failed with an errno-style code.
    ReadFailed(i64),
    /// The codec accepted the packet that was fed to it.
    PacketAccepted,
    /// Feeding the packet to the codec failed.
    FeedFailed(BackendError),
    /// The outcome of one pull attempt on the codec.
    Pulled(PullEvent),
}

/// The progress of one decode call through the feed/pull protocol. The
/// three non-terminal states name the backend call whose outcome the
/// protocol consumes next.
#[derive(Clone, Copy, Debug, PartialEq, Eq)]
pub enum DecodeProgress {
    /// The next compressed packet must be read from the reader.
    NeedPacket,
    /// This packet, already rebased to the decoder's time base, must be fed
    /// to the codec.
    NeedFeed(Packet),
    /// A frame must be pulled from the codec.
    NeedPull,
    /// The call is complete: a frame in the configured output layout,
    /// carrying the timing properties of the decoded frame it came from.
    Finished(RawFrame),
    /// The call failed.
    Failed(Error),
}

/// Whether a decode call in this state is over.
pub open spec fn is_terminal(progress: DecodeProgress) -> bool {
    progress is Finished || progress is Failed
}

/// Whether the protocol, in state `progress`, consumes `event`: each
/// non-terminal state consumes exactly the outcomes of the backend call it
/// waits for.
pub open spec fn expects(progress: DecodeProgress, event: DecodeEvent) -> bool {
    match progress {
        DecodeProgress::NeedPacket => event is PacketRead || event is ReadExhausted
            || event is ReadFailed,
        DecodeProgress::NeedFeed(_) => event is PacketAccepted || event is FeedFailed,
        DecodeProgress::NeedPull => event is Pulled,
        DecodeProgress::Finished(_) => false,
        DecodeProgress::Failed(_) => false,
    }
}

/// An event that never ends a decode call: the reader yielded a packet, the
/// codec accepted one, or the codec asked for more input. A call ends only
/// on frame availability, a feed or pull failure, or the reader failing or
/// running out.
pub open spec fn non_ending_event(event: DecodeEvent) -> bool {
    match event {
        DecodeEvent::PacketRead(_) => true,
        DecodeEvent::PacketAccepted => true,
        DecodeEvent::Pulled(pull) => pull == PullEvent::NotReady,
        _ => false,
    }
}

/// Whether the protocol, in state `progress`, consumes `event`.
pub fn event_fits(progress: &DecodeProgress, event: &DecodeEvent) -> (b: bool)
    ensures
        b == expects(*progress, *event),
{
    match progress {
        DecodeProgress::NeedPacket => matches!(
            event,
            DecodeEvent::PacketRead(_) | DecodeEvent::ReadExhausted | DecodeEvent::ReadFailed(_)
        ),
        DecodeProgress::NeedFeed(_) => matches!(
            event,
            DecodeEvent::PacketAccepted | DecodeEvent::FeedFailed(_)
        ),
        DecodeProgress::NeedPull => matches!(event, DecodeEvent::Pulled(_)),
        DecodeProgress::Finished(_) => false,
        DecodeProgress::Failed(_) => false,
    }
}

/// Decodes a video stream into frames of a fixed pixel format, optionally
/// resized. Holds everything resolved at construction: the selected stream,
/// its timing, the native size and frame rate, and the scaler configured
/// from the native picture parameters to the output layout.
#[derive(Clone, Copy, Debug, PartialEq, Eq)]
pub struct Decoder {
    /// Index of the stream whose packets the decoder consumes.
    pub reader_stream_index: usize,
    /// The time base packets carry when read from the stream.
    pub stream_time_base: Rational,
    /// The codec's time base: every packet is rebased to it before the
    /// feed, and every returned timestamp is expressed in it.
    pub decoder_time_base: Rational,
    /// The scaler, configured once at construction.
    pub scaler: Scaler,
    /// The native dimensions of the stream (width, height).
    pub size: (u32, u32),
    /// The frame rate of the stream.
    pub frame_rate: Rational,
}

impl Decoder {
    /// The invariant construction establishes: usable time bases, and a
    /// scaler configured from the validated native picture parameters to
    /// the fixed output pixel format.
    pub open spec fn wf(self) -> bool {
        &&& self.stream_time_base.is_time_base()
        &&& self.decoder_time_base.is_time_base()
        &&& self.scaler.src_format != PixelFormat::Unknown
        &&& self.scaler.src_width == self.size.0
        &&& self.scaler.src_height == self.size.1
        &&& self.size.0 > 0
        &&& self.size.1 > 0
        &&& self.scaler.dst_format == FRAME_PIXEL_FORMAT
    }

    /// The decoder construction yields for resolved stream parameters and
    /// an optional resize strategy.
    pub open spec fn from_stream_info_spec(
        info: Option<StreamInfo>,
        resize: Option<Resize>,
    ) -> Result<Decoder, Error> {
        match info {
            None => Err(Error::StreamNotFound),
            Some(i) => {
                if !i.has_codec_parameters() {
                    Err(Error::MissingCodecParameters)
                } else {
                    Ok(Decoder {
                        reader_stream_index: i.stream_index,
                        stream_time_base: i.stream_time_base,
                        decoder_time_base: i.decoder_time_base,
                        scaler: Scaler {
                            src_format: i.format,
                            src_width: i.width,
                            src_height: i.height,
                            dst_format: FRAME_PIXEL_FORMAT,
                            dst_width: target_dims_spec(
                                resize,
                                i.width as int,
                                i.height as int,
                            ).0 as u32,
                            dst_height: target_dims_spec(
                                resize,
                                i.width as int,
                                i.height as int,
                            ).1 as u32,
                        },
                        size: (i.width, i.height),
                        frame_rate: i.frame_rate,
                    })
                }
            },
        }
    }

    /// Creates a decoder from the parameters resolved for an opened reader.
    /// `None` means the reader has no video stream. The codec's parameters
    /// are validated before anything is configured from them, and the
    /// target dimensions are resolved from the resize strategy.
    pub fn from_stream_info(info: Option<StreamInfo>, resize: Option<Resize>) -> (r: Result<
        Decoder,
        Error,
    >)
        requires
            (match info {
                Some(i) => i.has_valid_time_bases(),
                None => true,
            }),
        ensures
            r == Self::from_stream_info_spec(info, resize),
            (match r {
                Ok(d) => d.wf(),
                Err(e) => e == Error::StreamNotFound || e == Error::MissingCodecParameters,
            }),
    {
        match info {
            None => Err(Error::StreamNotFound),
            Some(i) => {
                if i.format == PixelFormat::Unknown || i.width == 0 || i.height == 0 {
                    Err(Error::MissingCodecParameters)
                } else {
                    let (dst_width, dst_height) = resolve_target_dims(resize, (i.width, i.height));
                    let scaler = Scaler::get(
                        i.format,
                        i.width,
                        i.height,
                        FRAME_PIXEL_FORMAT,
                        dst_width,
                        dst_height,
                    );
                    Ok(
                        Decoder {
                            reader_stream_index: i.stream_index,
                            stream_time_base: i.stream_time_base,
                            decoder_time_base: i.decoder_time_base,
                            scaler,
                            size: (i.width, i.height),
                            frame_rate: i.frame_rate,
                        },
                    )
                }
            },
        }
    }

    /// The decoder's input size (resolution dimensions): width and height.
    pub fn size(&self) -> (r: (u32, u32))
        ensures
            r == self.size,
    {
        self.size
    }

    /// The decoder's input frame rate, as a rational number of frames per
    /// second.
    pub fn frame_rate(&self) -> (r: Rational)
        ensures
            r == self.frame_rate,
    {
        self.frame_rate
    }

    /// The time base of the input stream.
    pub fn stream_time_base(&self) -> (r: Rational)
        ensures
            r == self.stream_time_base,
    {
        self.stream_time_base
    }

    /// A packet with both timestamps rebased from the stream's time base to
    /// the decoder's time base.
    pub open spec fn rebase_packet_spec(self, packet: Packet) -> Packet {
        Packet {
            pts: rescale_ts_spec(packet.pts, self.stream_time_base, self.decoder_time_base),
            dts: rescale_ts_spec(packet.dts, self.stream_time_base, self.decoder_time_base),
        }
    }

    /// Rebases a packet's timestamps from the stream's time base to the
    /// decoder's time base.
    pub fn rebase_packet(&self, packet: Packet) -> (r: Packet)
        requires
            self.stream_time_base.is_time_base(),
            self.decoder_time_base.is_time_base(),
        ensures
            r == self.rebase_packet_spec(packet),
    {
        Packet {
            pts: rescale_ts(packet.pts, self.stream_time_base, self.decoder_time_base),
            dts: rescale_ts(packet.dts, self.stream_time_base, self.decoder_time_base),
        }
    }

    /// Classifies the outcome of one pull attempt the way the decode loop
    /// consumes it: a frame, no frame yet, or a fatal error. The "not
    /// enough data yet" signal is recovered as `Ok(None)`, never surfaced
    /// as an error.
    pub fn decoder_receive_frame(&self, event: PullEvent) -> (r: Result<Option<RawFrame>, Error>)
        ensures
            (match event {
                PullEvent::Frame(f) => r == Ok::<Option<RawFrame>, Error>(Some(f)),
                PullEvent::NotReady => r == Ok::<Option<RawFrame>, Error>(None),
                PullEvent::Failed(e) => r == Err::<Option<RawFrame>, Error>(
                    Error::BackendError(e),
                ),
            }),
    {
        match event {
            PullEvent::Frame(f) => Ok(Some(f)),
            PullEvent::NotReady => Ok(None),
            PullEvent::Failed(e) => Err(Error::BackendError(e)),
        }
    }

    /// The transition one decode call makes on one backend response: a read
    /// packet is rebased and queued for the feed, an accepted feed moves to
    /// the pull, "not enough data yet" loops back to the next read, a
    /// pulled frame is scaled and finishes the call with the decoded
    /// frame's properties copied onto the result, and every failure ends
    /// the call with its error. A response that does not fit the state
    /// changes nothing.
    pub open spec fn spec_step(self, progress: DecodeProgress, event: DecodeEvent) -> DecodeProgress {
        match (progress, event) {
            (DecodeProgress::NeedPacket, DecodeEvent::PacketRead(packet)) => DecodeProgress::NeedFeed(
                self.rebase_packet_spec(packet),
            ),
            (DecodeProgress::NeedPacket, DecodeEvent::ReadExhausted) => DecodeProgress::Failed(
                Error::ReadExhausted,
            ),
            (DecodeProgress::NeedPacket, DecodeEvent::ReadFailed(code)) => DecodeProgress::Failed(
                Error::ReadError(code),
            ),
            (DecodeProgress::NeedFeed(_), DecodeEvent::PacketAccepted) => DecodeProgress::NeedPull,
            (DecodeProgress::NeedFeed(_), DecodeEvent::FeedFailed(e)) => DecodeProgress::Failed(
                Error::BackendError(e),
            ),
            (DecodeProgress::NeedPull, DecodeEvent::Pulled(pull)) => match pull {
                PullEvent::Frame(f) => if self.scaler.accepts(f) {
                    DecodeProgress::Finished(self.scaler.scaled_with_props_spec(f))
                } else {
                    DecodeProgress::Failed(Error::BackendError(BackendError::InputChanged))
                },
                PullEvent::NotReady => DecodeProgress::NeedPacket,
                PullEvent::Failed(e) => DecodeProgress::Failed(Error::BackendError(e)),
            },
            _ => progress,
        }
    }

    /// Advances one decode call by one backend response. On a pulled frame,
    /// the frame is run through the scaler and its properties are copied
    /// onto the scaled result, so a finished call never returns a frame the
    /// scaler has not processed, and never loses a timestamp that the
    /// decoded frame carried.
    pub fn decode_step(&self, progress: DecodeProgress, event: DecodeEvent) -> (r: DecodeProgress)
        requires
            self.stream_time_base.is_time_base(),
            self.decoder_time_base.is_time_base(),
            !is_terminal(progress),
            expects(progress, event),
        ensures
            r == self.spec_step(progress, event),
    {
        match (progress, event) {
            (DecodeProgress::NeedPacket, DecodeEvent::PacketRead(packet)) => {
                DecodeProgress::NeedFeed(self.rebase_packet(packet))
            },
            (DecodeProgress::NeedPacket, DecodeEvent::ReadExhausted) => {
                DecodeProgress::Failed(Error::ReadExhausted)
            },
            (DecodeProgress::NeedPacket, DecodeEvent::ReadFailed(code)) => {
                DecodeProgress::Failed(Error::ReadError(code))
            },
            (DecodeProgress::NeedFeed(_), DecodeEvent::PacketAccepted) => DecodeProgress::NeedPull,
            (DecodeProgress::NeedFeed(_), DecodeEvent::FeedFailed(e)) => {
                DecodeProgress::Failed(Error::BackendError(e))
            },
            (DecodeProgress::NeedPull, DecodeEvent::Pulled(pull)) => {
                match self.decoder_receive_frame(pull) {
                    Ok(Some(frame)) => {
                        let mut frame_scaled = RawFrame::empty();
                        match self.scaler.run(&frame, &mut frame_scaled) {
                            Ok(()) => {
                                copy_frame_props(&frame, &mut frame_scaled);
                                DecodeProgress::Finished(frame_scaled)
                            },
                            Err(e) => DecodeProgress::Failed(e),
                        }
                    },
                    Ok(None) => DecodeProgress::NeedPacket,
                    Err(e) => DecodeProgress::Failed(e),
                }
            },
            _ => progress,
        }
    }

    /// The state of a decode call after consuming a sequence of backend
    /// responses, starting from `progress`. A response that does not fit
    /// the current state changes nothing, and responses after the call has
    /// ended change nothing.
    pub open spec fn run_steps(
        self,
        progress: DecodeProgress,
        events: Seq<DecodeEvent>,
    ) -> DecodeProgress
        decreases events.len(),
    {
        if events.len() == 0 || is_terminal(progress) {
            progress
        } else if expects(progress, events[0]) {
            self.run_steps(self.spec_step(progress, events[0]), events.drop_first())
        } else {
            self.run_steps(progress, events.drop_first())
        }
    }

    /// Decodes a single frame from the given backend responses: packets are
    /// read, rebased and fed, and pulls are retried, in protocol order,
    /// until a frame is finished or the call fails. The result is the
    /// final progress; it stays non-terminal when the responses run out
    /// before a frame was obtained.
    pub fn decode_raw(&self, events: &Vec<DecodeEvent>) -> (r: DecodeProgress)
        requires
            self.stream_time_base.is_time_base(),
            self.decoder_time_base.is_time_base(),
        ensures
            r == self.run_steps(DecodeProgress::NeedPacket, events@),
    {
        let mut progress = DecodeProgress::NeedPacket;
        let mut idx: usize = 0;
        proof {
            assert(events@.skip(0) =~= events@);
        }
        while idx < events.len()
            invariant
                self.stream_time_base.is_time_base(),
                self.decoder_time_base.is_time_base(),
                idx <= events.len(),
                self.run_steps(progress, events@.skip(idx as int)) == self.run_steps(
                    DecodeProgress::NeedPacket,
                    events@,
                ),
            decreases events.len() - idx,
        {
            if matches!(progress, DecodeProgress::Finished(_) | DecodeProgress::Failed(_)) {
                return progress;
            }
            let event = events[idx];
            proof {
                assert(events@.skip(idx as int).drop_first() =~= events@.skip(idx as int + 1));
                assert(events@.skip(idx as int)[0] == event);
            }
            if event_fits(&progress, &event) {
                progress = self.decode_step(progress, event);
            }
            idx = idx + 1;
        }
        proof {
            assert(events@.skip(events.len() as int) =~= Seq::<DecodeEvent>::empty());
        }
        progress
    }

    /// The timestamp of a decoded frame: the decode timestamp of the packet
    /// that produced it — not the frame's own presentation timestamp, which
    /// downstream re-encoding callers do not expect — in the decoder's time
    /// base.
    pub fn frame_timestamp(&self, frame: &RawFrame) -> (r: Timestamp)
        ensures
            r == (Timestamp { ticks: frame.pkt_dts, time_base: self.decoder_time_base }),
    {
        Timestamp::new(frame.pkt_dts, self.decoder_time_base)
    }

    /// Decodes a single frame from the given backend responses and pairs it
    /// with its timestamp. `None` means the responses ran out before the
    /// call ended.
    pub fn decode(&self, events: &Vec<DecodeEvent>) -> (r: Option<
        Result<(Timestamp, RawFrame), Error>,
    >)
        requires
            self.stream_time_base.is_time_base(),
            self.decoder_time_base.is_time_base(),
        ensures
            (match self.run_steps(DecodeProgress::NeedPacket, events@) {
                DecodeProgress::Finished(f) => r == Some(
                    Ok::<(Timestamp, RawFrame), Error>(
                        (Timestamp { ticks: f.pkt_dts, time_base: self.decoder_time_base }, f),
                    ),
                ),
                DecodeProgress::Failed(e) => r == Some(Err::<(Timestamp, RawFrame), Error>(e)),
                _ => r is None,
            }),
    {
        match self.decode_raw(events) {
            DecodeProgress::Finished(frame) => Some(Ok((self.frame_timestamp(&frame), frame))),
            DecodeProgress::Failed(e) => Some(Err(e)),
            _ => None,
        }
    }
}

/// The event that ends a call with a frame: the codec yielded `src` on a
/// pull.
pub open spec fn yields_frame(event: DecodeEvent, src: RawFrame) -> bool {
    event == DecodeEvent::Pulled(PullEvent::Frame(src))
}

/// A decode call never returns a frame the scaler has not processed, and
/// never loses the decoded frame's timing: a call that finishes does so on
/// a pull that yielded some frame `src`, and its result is exactly the
/// scaler's output layout carrying the timing properties of `src` — in
/// particular, a timestamp that was set on `src` is set on the result.
pub proof fn lemma_finished_frame_keeps_source_props(
    d: Decoder,
    progress: DecodeProgress,
    events: Seq<DecodeEvent>,
)
    requires
        !(progress is Finished),
        d.run_steps(progress, events) is Finished,
    ensures
        exists|i: int, src: RawFrame|
            0 <= i < events.len() && #[trigger] yields_frame(events[i], src)
                && d.run_steps(progress, events) == DecodeProgress::Finished(
                d.scaler.scaled_with_props_spec(src),
            ),
    decreases events.len(),
{
    if events.len() > 0 && !is_terminal(progress) && expects(progress, events[0]) {
        let next = d.spec_step(progress, events[0]);
        if next is Finished {
            match events[0] {
                DecodeEvent::Pulled(PullEvent::Frame(src)) => {
                    assert(yields_frame(events[0], src));
                },
                _ => {
                    assert(false);
                },
            }
        } else {
            lemma_finished_frame_keeps_source_props(d, next, events.drop_first());
            let (i, src) = choose|i: int, src: RawFrame|
                0 <= i < events.drop_first().len() && #[trigger] yields_frame(
                    events.drop_first()[i],
                    src,
                ) && d.run_steps(next, events.drop_first()) == DecodeProgress::Finished(
                    d.scaler.scaled_with_props_spec(src),
                );
            assert(events.drop_first()[i] == events[i + 1]);
            assert(yields_frame(events[i + 1], src));
        }
    } else if events.len() > 0 && !is_terminal(progress) {
        lemma_finished_frame_keeps_source_props(d, progress, events.drop_first());
        let (i, src) = choose|i: int, src: RawFrame|
            0 <= i < events.drop_first().len() && #[trigger] yields_frame(
                events.drop_first()[i],
                src,
            ) && d.run_steps(progress, events.drop_first()) == DecodeProgress::Finished(
                d.scaler.scaled_with_props_spec(src),
            );
        assert(events.drop_first()[i] == events[i + 1]);
        assert(yields_frame(events[i + 1], src));
    }
}

/// The responses on which the protocol, in the state that consumes them,
/// ends the call with error `e`: the reader running out or failing, a feed
/// failure, a pull failure, or a pulled frame the scaler rejects. Each is
/// surfaced as exactly the error it carries.
pub open spec fn fails_with(d: Decoder, event: DecodeEvent, e: Error) -> bool {
    match event {
        DecodeEvent::ReadExhausted => e == Error::ReadExhausted,
        DecodeEvent::ReadFailed(code) => e == Error::ReadError(code),
        DecodeEvent::FeedFailed(be) => e == Error::BackendError(be),
        DecodeEvent::Pulled(PullEvent::Failed(be)) => e == Error::BackendError(be),
        DecodeEvent::Pulled(PullEvent::Frame(src)) => !d.scaler.accepts(src) && e
            == Error::BackendError(BackendError::InputChanged),
        _ => false,
    }
}

/// A decode call fails only on a response that is a failure, and surfaces
/// that response's error unchanged, with no partial result: a call that
/// failed did so on a read, feed or pull failure, or on a pulled frame the
/// scaler rejects, and returns exactly the error that response carries.
pub proof fn lemma_failed_call_names_its_cause(
    d: Decoder,
    progress: DecodeProgress,
    events: Seq<DecodeEvent>,
)
    requires
        !(progress is Failed),
        d.run_steps(progress, events) is Failed,
    ensures
        exists|i: int, e: Error|
            0 <= i < events.len() && #[trigger] fails_with(d, events[i], e)
                && d.run_steps(progress, events) == DecodeProgress::Failed(e),
    decreases events.len(),
{
    if events.len() > 0 && !is_terminal(progress) && expects(progress, events[0]) {
        let next = d.spec_step(progress, events[0]);
        if next is Failed {
            let e = next->Failed_0;
            assert(fails_with(d, events[0], e));
        } else {
            lemma_failed_call_names_its_cause(d, next, events.drop_first());
            let (i, e) = choose|i: int, e: Error|
                0 <= i < events.drop_first().len() && #[trigger] fails_with(
                    d,
                    events.drop_first()[i],
                    e,
                ) && d.run_steps(next, events.drop_first()) == DecodeProgress::Failed(e);
            assert(events.drop_first()[i] == events[i + 1]);
            assert(fails_with(d, events[i + 1], e));
        }
    } else if events.len() > 0 && !is_terminal(progress) {
        lemma_failed_call_names_its_cause(d, progress, events.drop_first());
        let (i, e) = choose|i: int, e: Error|
            0 <= i < events.drop_first().len() && #[trigger] fails_with(
                d,
                events.drop_first()[i],
                e,
            ) && d.run_steps(progress, events.drop_first()) == DecodeProgress::Failed(e);
        assert(events.drop_first()[i] == events[i + 1]);
        assert(fails_with(d, events[i + 1], e));
    }
}

/// However many consecutive times the codec reports "not enough data yet",
/// a decode call neither finishes nor fails while the reader keeps yielding
/// packets and the codec keeps accepting them: the call ends only on frame
/// availability, a feed or pull failure, or the reader failing or running
/// out.
pub proof fn lemma_not_ready_never_ends_call(
    d: Decoder,
    progress: DecodeProgress,
    events: Seq<DecodeEvent>,
)
    requires
        !is_terminal(progress),
        forall|i: int| 0 <= i < events.len() ==> non_ending_event(#[trigger] events[i]),
    ensures
        !is_terminal(d.run_steps(progress, events)),
    decreases events.len(),
{
    if events.len() > 0 {
        let next = if expects(progress, events[0]) {
            d.spec_step(progress, events[0])
        } else {
            progress
        };
        assert(!is_terminal(next));
        assert forall|i: int| 0 <= i < events.drop_first().len() implies non_ending_event(
            #[trigger] events.drop_first()[i],
        ) by {
            assert(events.drop_first()[i] == events[i + 1]);
        }
        lemma_not_ready_never_ends_call(d, next, events.drop_first());
    }
}

} // verus!
