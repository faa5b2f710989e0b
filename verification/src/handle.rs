use crate::dev_dep_msg_in::{DevDepMsgInHeader, RequestDevDepMsgInHeader};
use crate::dev_dep_msg_out::DevDepMsgOutHeader;
use crate::error::ClassError;
use crate::get_capabilities::{USB488Capabilities, USBTMCCapabilities};
use crate::request::ControlRequest;
use crate::status::Status;
use vstd::prelude::*;

verus! {

/// The views of a sequence of byte buffers.
pub open spec fn seq_views(msgs: Seq<Vec<u8>>) -> Seq<Seq<u8>> {
    Seq::new(msgs.len(), |i: int| msgs[i]@)
}

/// The tag allocated after `t`: tags count 1 to 255 and wrap from 255 back
/// to 1, skipping 0, which is not a valid tag.
pub open spec fn next_tag(t: u8) -> u8 {
    if t == 255 {
        1
    } else {
        (t + 1) as u8
    }
}

/// An allocated tag is never 0.
pub proof fn lemma_next_tag_nonzero(t: u8)
    ensures
        next_tag(t) != 0,
{
}

/// The tag counter after writing `len` bytes of payload in chunks of at
/// most `max` bytes: one allocation per chunk, none for an empty payload.
pub open spec fn spec_tag_after_write(tag: u8, len: nat, max: nat) -> u8
    decreases len,
{
    if max == 0 || len == 0 {
        tag
    } else if len <= max {
        next_tag(tag)
    } else {
        spec_tag_after_write(next_tag(tag), (len - max) as nat, max)
    }
}

/// The framed bulk-out messages that writing `data` produces when the tag
/// counter stands at `tag`: the payload split into chunks of at most `max`
/// bytes, each chunk framed under a freshly allocated tag, with the
/// end-of-message flag set only on the chunk that reaches the end.
pub open spec fn spec_write_msgs(tag: u8, data: Seq<u8>, max: nat) -> Seq<Seq<u8>>
    decreases data.len(),
{
    if max == 0 || data.len() == 0 {
        seq![]
    } else if data.len() <= max {
        seq![DevDepMsgOutHeader::spec_encode(next_tag(tag), data, true)]
    } else {
        seq![DevDepMsgOutHeader::spec_encode(next_tag(tag), data.take(max as int), false)]
            + spec_write_msgs(next_tag(tag), data.skip(max as int), max)
    }
}

/// The per-request read size: the requested size when one is given and it
/// is below the session's maximum transfer size, the maximum otherwise.
pub open spec fn spec_effective_size(requested: Option<u32>, max: u32) -> u32 {
    match requested {
        Some(s) => if s < max {
            s
        } else {
            max
        },
        None => max,
    }
}

/// What a sequence of device responses makes of a read: the final tag
/// counter, the request messages sent, and either the assembled payload
/// (with a flag telling whether an end-of-message frame was reached) or
/// the first decode error.
pub struct ReadModel {
    pub tag: u8,
    pub requests: Seq<Seq<u8>>,
    pub result: Result<(Seq<u8>, bool), ClassError>,
}

/// The read loop over a sequence of device responses, starting with the
/// tag counter at `tag`: each round allocates a tag, sends a
/// `RequestDevDepMsgIn` message for `size` bytes (with terminator `term`),
/// and decodes one response, appending its payload; the loop stops at the
/// first end-of-message frame or the first decode error.  If the
/// responses run out first, the result carries what was assembled and the
/// flag stays false.
pub open spec fn spec_read_model(
    tag: u8,
    size: u32,
    term: Option<u8>,
    responses: Seq<Seq<u8>>,
) -> ReadModel
    decreases responses.len(),
{
    if responses.len() == 0 {
        ReadModel { tag, requests: seq![], result: Ok((seq![], false)) }
    } else {
        let t = next_tag(tag);
        let req = RequestDevDepMsgInHeader::spec_encode(t, size, term);
        match DevDepMsgInHeader::spec_decode_transfer(responses[0]) {
            Err(e) => ReadModel { tag: t, requests: seq![req], result: Err(e) },
            Ok(hd) => if hd.0.spec_is_eom() {
                ReadModel { tag: t, requests: seq![req], result: Ok((hd.1, true)) }
            } else {
                let rest = spec_read_model(t, size, term, responses.drop_first());
                ReadModel {
                    tag: rest.tag,
                    requests: seq![req] + rest.requests,
                    result: (match rest.result {
                        Ok(p) => Ok((hd.1 + p.0, p.1)),
                        Err(e) => Err(e),
                    }),
                }
            },
        }
    }
}

/// The protocol state of one open connection to an instrument: the tag
/// counter, the negotiated transfer limits, the optional terminator
/// character, the per-operation timeout, and the capability sets
/// discovered at connect time.  The transport backend that owns the USB
/// device drives this state: every function here either transforms the
/// state into the exact byte buffers to put on the wire, or interprets the
/// bytes the wire returned.
pub struct InstrumentHandle {
    /// The bulk-out tag counter; the next allocated tag is `next_tag` of
    /// this value.
    pub b_tag: u8,
    /// Largest payload carried by one bulk transfer in either direction.
    pub max_transfer_size: u32,
    /// Terminator character for reads, if the device supports one and it
    /// has been configured.
    pub term_char: Option<u8>,
    /// Per-operation transport timeout, in milliseconds.
    pub timeout_ms: u64,
    /// The USBTMC capability block read at connect time.
    pub usbtmc_capabilities: USBTMCCapabilities,
    /// The USB488 capability block, present only on USB488 interfaces
    /// that report one.
    pub usb488_capabilities: Option<USB488Capabilities>,
    /// The trimmed identification string of an SCPI-capable instrument,
    /// once it has been queried.
    pub scpi_id: Option<String>,
}

impl InstrumentHandle {
    /// The state `new` builds: tag counter at 0 (so the first allocated
    /// tag is 1), a one-mebibyte transfer limit, no terminator, a one
    /// second timeout, and placeholder capabilities.
    pub open spec fn spec_new() -> Self {
        InstrumentHandle {
            b_tag: 0,
            max_transfer_size: 1048576,
            term_char: None,
            timeout_ms: 1000,
            usbtmc_capabilities: USBTMCCapabilities::spec_new(),
            usb488_capabilities: None,
            scpi_id: None,
        }
    }

    /// A fresh session state, as it stands before the connection
    /// handshake fills in the capabilities.
    pub fn new() -> (h: Self)
        ensures
            h == Self::spec_new(),
    {
        InstrumentHandle {
            b_tag: 0,
            max_transfer_size: 1024 * 1024,
            term_char: None,
            timeout_ms: 1000,
            usbtmc_capabilities: USBTMCCapabilities::new(),
            usb488_capabilities: None,
            scpi_id: None,
        }
    }

    /// This state with the tag counter replaced.
    pub open spec fn with_tag(self, t: u8) -> Self {
        InstrumentHandle { b_tag: t, ..self }
    }

    /// Advance the tag counter.  Tags must differ between successive
    /// bulk-out transfers and must never be 0.
    pub fn incr_b_tag(&mut self)
        ensures
            *final(self) == old(self).with_tag(next_tag(old(self).b_tag)),
            final(self).b_tag != 0,
    {
        self.b_tag = if self.b_tag == 255 {
            1
        } else {
            self.b_tag + 1
        };
    }

    /// The configured maximum transfer size.
    pub fn get_max_transfer_size(&self) -> (r: u32)
        ensures
            r == self.max_transfer_size,
    {
        self.max_transfer_size
    }

    /// Configure the maximum transfer size.
    pub fn set_max_transfer_size(&mut self, max_transfer_size: u32)
        ensures
            *final(self) == (InstrumentHandle { max_transfer_size, ..*old(self) }),
    {
        self.max_transfer_size = max_transfer_size;
    }

    /// The configured terminator character, if any.
    pub fn get_term_char(&self) -> (r: Option<u8>)
        ensures
            r == self.term_char,
    {
        self.term_char
    }

    /// Configure the terminator character.  The byte 0 is reserved and
    /// always rejected; any other byte is rejected when the device's
    /// capabilities do not advertise terminator support.  Clearing the
    /// terminator always succeeds.
    pub fn set_term_char(&mut self, term_char: Option<u8>) -> (r: Result<(), ClassError>)
        ensures
            term_char == Some(0u8) ==> r == Err::<(), ClassError>(ClassError::InvalidTermChar)
                && *final(self) == *old(self),
            term_char is Some && term_char != Some(0u8)
                && !old(self).usbtmc_capabilities.term_char ==> r == Err::<(), ClassError>(
                ClassError::UnsupportedFeature,
            ) && *final(self) == *old(self),
            term_char is None || (term_char != Some(0u8)
                && old(self).usbtmc_capabilities.term_char) ==> r == Ok::<(), ClassError>(())
                && *final(self) == (InstrumentHandle { term_char, ..*old(self) }),
    {
        if let Some(c) = term_char {
            if c == 0 {
                return Err(ClassError::InvalidTermChar);
            }
            if !self.usbtmc_capabilities.term_char {
                return Err(ClassError::UnsupportedFeature);
            }
        }
        self.term_char = term_char;
        Ok(())
    }

    /// The configured per-operation timeout, in milliseconds.
    pub fn get_timeout(&self) -> (r: u64)
        ensures
            r == self.timeout_ms,
    {
        self.timeout_ms
    }

    /// Configure the per-operation timeout, in milliseconds.
    pub fn set_timeout(&mut self, timeout_ms: u64)
        ensures
            *final(self) == (InstrumentHandle { timeout_ms, ..*old(self) }),
    {
        self.timeout_ms = timeout_ms;
    }

    /// The control request an indicator pulse needs, or
    /// `UnsupportedFeature` - without ever touching the wire - when the
    /// device's capabilities do not advertise the pulse feature.
    pub fn pulse(&self) -> (r: Result<ControlRequest, ClassError>)
        ensures
            self.usbtmc_capabilities.pulse ==> r == Ok::<ControlRequest, ClassError>(
                ControlRequest::IndicatorPulse,
            ),
            !self.usbtmc_capabilities.pulse ==> r == Err::<ControlRequest, ClassError>(
                ClassError::UnsupportedFeature,
            ),
    {
        if !self.usbtmc_capabilities.pulse {
            Err(ClassError::UnsupportedFeature)
        } else {
            Ok(ControlRequest::IndicatorPulse)
        }
    }

    /// Decide one round of the clear handshake from a check-clear-status
    /// control response: success means the clear has finished, pending
    /// means poll again after a delay, and any other status - or an
    /// unreadable response - is a fatal error.
    pub open spec fn spec_clear_status_step(response: Seq<u8>) -> Result<bool, ClassError> {
        match ControlRequest::spec_read_response_status(response) {
            Err(e) => Err(e),
            Ok(s) => if s is Success {
                Ok(true)
            } else if s is Pending {
                Ok(false)
            } else {
                Err(ClassError::UnexpectedStatus(s))
            },
        }
    }

    /// Decide one round of the clear-status poll loop; `Ok(true)` means
    /// the device finished clearing, `Ok(false)` means ask again.
    pub fn clear_status_step(response: &[u8]) -> (r: Result<bool, ClassError>)
        ensures
            r == Self::spec_clear_status_step(response@),
    {
        match ControlRequest::read_response_status(response) {
            Err(e) => Err(e),
            Ok(Status::Success) => Ok(true),
            Ok(Status::Pending) => Ok(false),
            Ok(s) => Err(ClassError::UnexpectedStatus(s)),
        }
    }

    /// Decide whether a bulk-out transfer accepted the whole message: a
    /// short write is a `TruncatedBulkOut` error, after which no further
    /// chunks may be sent.
    pub fn check_bulk_out(n_written: usize, requested: usize) -> (r: Result<(), ClassError>)
        ensures
            n_written >= requested ==> r == Ok::<(), ClassError>(()),
            n_written < requested ==> r == Err::<(), ClassError>(ClassError::TruncatedBulkOut),
    {
        if n_written < requested {
            Err(ClassError::TruncatedBulkOut)
        } else {
            Ok(())
        }
    }

    /// Interpret a get-capabilities response: the USBTMC block is parsed
    /// and stored always; the USB488 block is parsed - and validated
    /// against the USBTMC block - only when the interface's protocol code
    /// (1) signals USB488 support.  A USB488 validation failure leaves the
    /// already-parsed USBTMC block in place.
    pub fn update_capabilities(&mut self, interface_protocol: u8, response: &[u8]) -> (r: Result<
        (),
        ClassError,
    >)
        ensures
            (match USBTMCCapabilities::spec_parse(response@) {
                Err(e) => r == Err::<(), ClassError>(e) && *final(self) == *old(self),
                Ok(c) => if interface_protocol == 1 {
                    match USB488Capabilities::spec_parse(c, response@) {
                        Err(e) => r == Err::<(), ClassError>(e) && *final(self) == (
                        InstrumentHandle { usbtmc_capabilities: c, ..*old(self) }),
                        Ok(o) => r == Ok::<(), ClassError>(()) && *final(self) == (
                        InstrumentHandle {
                            usbtmc_capabilities: c,
                            usb488_capabilities: o,
                            ..*old(self)
                        }),
                    }
                } else {
                    r == Ok::<(), ClassError>(()) && *final(self) == (InstrumentHandle {
                        usbtmc_capabilities: c,
                        ..*old(self)
                    })
                },
            }),
    {
        let tmc = match USBTMCCapabilities::parse(response) {
            Ok(c) => c,
            Err(e) => {
                return Err(e);
            },
        };
        self.usbtmc_capabilities = tmc;
        if interface_protocol == 1 {
            let u488 = match USB488Capabilities::parse(&self.usbtmc_capabilities, response) {
                Ok(o) => o,
                Err(e) => {
                    return Err(e);
                },
            };
            self.usb488_capabilities = u488;
        }
        Ok(())
    }

    /// Split a command message into chunks of at most the configured
    /// maximum transfer size and frame each as a `DevDepMsgOut` bulk-out
    /// message under a fresh tag, with the end-of-message flag only on the
    /// last chunk.  The transport sends the returned buffers in order; a
    /// short write anywhere aborts the remaining chunks
    /// (`check_bulk_out`).
    pub fn write_raw(&mut self, data: &[u8]) -> (msgs: Vec<Vec<u8>>)
        requires
            old(self).max_transfer_size > 0,
            data@.len() + 15 <= usize::MAX,
        ensures
            seq_views(msgs@) == spec_write_msgs(
                old(self).b_tag,
                data@,
                old(self).max_transfer_size as nat,
            ),
            *final(self) == old(self).with_tag(
                spec_tag_after_write(
                    old(self).b_tag,
                    data@.len(),
                    old(self).max_transfer_size as nat,
                ),
            ),
    {
        let max = self.max_transfer_size as usize;
        let ghost gmax = self.max_transfer_size as nat;
        let mut msgs: Vec<Vec<u8>> = Vec::new();
        let mut offset: usize = 0;
        proof {
            assert(data@.skip(0) =~= data@);
            assert(seq_views(msgs@) + spec_write_msgs(self.b_tag, data@, gmax) =~= spec_write_msgs(
                self.b_tag,
                data@,
                gmax,
            ));
        }
        while offset < data.len()
            invariant
                max == old(self).max_transfer_size as usize,
                max > 0,
                gmax == max as nat,
                offset <= data.len(),
                data@.len() + 15 <= usize::MAX,
                *self == old(self).with_tag(self.b_tag),
                spec_write_msgs(old(self).b_tag, data@, gmax) == seq_views(msgs@)
                    + spec_write_msgs(self.b_tag, data@.skip(offset as int), gmax),
                spec_tag_after_write(old(self).b_tag, data@.len(), gmax) == spec_tag_after_write(
                    self.b_tag,
                    (data@.len() - offset) as nat,
                    gmax,
                ),
            decreases data@.len() - offset,
        {
            let ghost prev_tag = self.b_tag;
            let ghost prev_views = seq_views(msgs@);
            let ghost rem = data@.skip(offset as int);
            let remaining = data.len() - offset;
            let chunk_len = if remaining <= max {
                remaining
            } else {
                max
            };
            let eom = remaining <= max;
            self.incr_b_tag();
            let chunk = &data[offset..offset + chunk_len];
            let mut buf: Vec<u8> = Vec::new();
            DevDepMsgOutHeader::encode_message(self.b_tag, chunk, eom, &mut buf);
            msgs.push(buf);
            offset = offset + chunk_len;
            proof {
                assert(seq_views(msgs@) =~= prev_views + seq![msgs@.last()@]);
                if eom {
                    assert(chunk@ =~= rem);
                    assert(data@.skip(offset as int) =~= Seq::<u8>::empty());
                    assert(prev_views + seq![msgs@.last()@] + spec_write_msgs(
                        self.b_tag,
                        data@.skip(offset as int),
                        gmax,
                    ) =~= prev_views + spec_write_msgs(prev_tag, rem, gmax));
                } else {
                    assert(chunk@ =~= rem.take(gmax as int));
                    assert(data@.skip(offset as int) =~= rem.skip(gmax as int));
                    assert(prev_views + seq![msgs@.last()@] + spec_write_msgs(
                        self.b_tag,
                        data@.skip(offset as int),
                        gmax,
                    ) =~= prev_views + spec_write_msgs(prev_tag, rem, gmax));
                }
            }
        }
        proof {
            assert(data@.skip(offset as int) =~= Seq::<u8>::empty());
            assert(seq_views(msgs@) + spec_write_msgs(self.b_tag, Seq::<u8>::empty(), gmax)
                =~= seq_views(msgs@));
        }
        msgs
    }

    /// Allocate a tag and frame one `RequestDevDepMsgIn` message asking
    /// the device for up to `transfer_size` bytes, using the configured
    /// terminator character.  The transport sends this on the bulk-out
    /// endpoint and then reads one framed answer from the bulk-in
    /// endpoint.
    pub fn read_request(&mut self, transfer_size: u32) -> (msg: Vec<u8>)
        ensures
            *final(self) == old(self).with_tag(next_tag(old(self).b_tag)),
            msg@ == RequestDevDepMsgInHeader::spec_encode(
                next_tag(old(self).b_tag),
                transfer_size,
                old(self).term_char,
            ),
    {
        self.incr_b_tag();
        let mut buf: Vec<u8> = Vec::new();
        RequestDevDepMsgInHeader::encode_message(
            self.b_tag,
            transfer_size,
            self.term_char,
            &mut buf,
        );
        buf
    }

    /// Run the read loop over the frames a device answered with,
    /// requesting up to `transfer_size` bytes per round (capped by the
    /// configured maximum): each round allocates a tag and frames a
    /// request message, then decodes one response and appends its
    /// payload, until a frame carries the end-of-message flag.  The
    /// outcome holds the requests that were framed, the assembled
    /// payload, and whether end of message was reached before the given
    /// responses ran out; the first undecodable response fails the whole
    /// read.
    pub fn read_raw(&mut self, transfer_size: Option<u32>, responses: &Vec<Vec<u8>>) -> (r: Result<
        ReadOutcome,
        ClassError,
    >)
        ensures
            ({
                let m = spec_read_model(
                    old(self).b_tag,
                    spec_effective_size(transfer_size, old(self).max_transfer_size),
                    old(self).term_char,
                    seq_views(responses@),
                );
                &&& *final(self) == old(self).with_tag(m.tag)
                &&& (match r {
                    Ok(o) => m.result == Ok::<(Seq<u8>, bool), ClassError>((o.data@, o.complete))
                        && seq_views(o.requests@) == m.requests,
                    Err(e) => m.result == Err::<(Seq<u8>, bool), ClassError>(e),
                })
            }),
    {
        let size = match transfer_size {
            Some(s) => if s < self.max_transfer_size {
                s
            } else {
                self.max_transfer_size
            },
            None => self.max_transfer_size,
        };
        let ghost resps = seq_views(responses@);
        let ghost term = self.term_char;
        let mut requests: Vec<Vec<u8>> = Vec::new();
        let mut data: Vec<u8> = Vec::new();
        let mut complete = false;
        let mut i: usize = 0;
        proof {
            assert(resps.skip(0) =~= resps);
            let rest = spec_read_model(self.b_tag, size, term, resps);
            assert(seq_views(requests@) + rest.requests =~= rest.requests);
            if rest.result is Ok {
                assert(data@ + rest.result->Ok_0.0 =~= rest.result->Ok_0.0);
            }
        }
        while i < responses.len() && !complete
            invariant
                size == spec_effective_size(transfer_size, old(self).max_transfer_size),
                resps == seq_views(responses@),
                term == old(self).term_char,
                i <= responses.len(),
                *self == old(self).with_tag(self.b_tag),
                complete ==> spec_read_model(old(self).b_tag, size, term, resps) == (ReadModel {
                    tag: self.b_tag,
                    requests: seq_views(requests@),
                    result: Ok((data@, true)),
                }),
                !complete ==> ({
                    let rest = spec_read_model(self.b_tag, size, term, resps.skip(i as int));
                    spec_read_model(old(self).b_tag, size, term, resps) == (ReadModel {
                        tag: rest.tag,
                        requests: seq_views(requests@) + rest.requests,
                        result: (match rest.result {
                            Ok(p) => Ok::<(Seq<u8>, bool), ClassError>((data@ + p.0, p.1)),
                            Err(e) => Err::<(Seq<u8>, bool), ClassError>(e),
                        }),
                    })
                }),
            decreases responses@.len() - i,
        {
            let ghost prev_tag = self.b_tag;
            let ghost prev_reqs = seq_views(requests@);
            let ghost prev_data = data@;
            let ghost remm = spec_read_model(prev_tag, size, term, resps.skip(i as int));
            let req = self.read_request(size);
            requests.push(req);
            proof {
                assert(seq_views(requests@) =~= prev_reqs + seq![requests@.last()@]);
                assert(resps.skip(i as int)[0] == resps[i as int]);
                assert(resps.skip(i as int).drop_first() =~= resps.skip(i + 1));
            }
            let resp = &responses[i];
            match DevDepMsgInHeader::decode_transfer(resp.as_slice()) {
                Err(e) => {
                    return Err(e);
                },
                Ok((h, payload)) => {
                    data.extend_from_slice(payload);
                    proof {
                        assert(data@ =~= prev_data + payload@);
                    }
                    let eom = h.is_eom();
                    if eom {
                        complete = true;
                    }
                    proof {
                        if eom {
                            assert(remm == (ReadModel {
                                tag: self.b_tag,
                                requests: seq![requests@.last()@],
                                result: Ok((payload@, true)),
                            }));
                            assert(spec_read_model(old(self).b_tag, size, term, resps) == (
                            ReadModel {
                                tag: self.b_tag,
                                requests: seq_views(requests@),
                                result: Ok((data@, true)),
                            }));
                        } else {
                            let rest = spec_read_model(
                                next_tag(prev_tag),
                                size,
                                term,
                                resps.skip(i + 1),
                            );
                            assert(prev_reqs + (seq![requests@.last()@] + rest.requests)
                                =~= seq_views(requests@) + rest.requests);
                            if rest.result is Ok {
                                assert(prev_data + (payload@ + rest.result->Ok_0.0) =~= data@
                                    + rest.result->Ok_0.0);
                            }
                        }
                    }
                },
            }
            i = i + 1;
        }
        if !complete {
            proof {
                assert(resps.skip(i as int) =~= Seq::<Seq<u8>>::empty());
                let rest = spec_read_model(self.b_tag, size, term, resps.skip(i as int));
                assert(seq_views(requests@) + rest.requests =~= seq_views(requests@));
                assert(data@ + rest.result->Ok_0.0 =~= data@);
            }
        }
        Ok(ReadOutcome { requests, data, complete })
    }

    /// Perform one request/response pair: frame `data` as chunked
    /// bulk-out messages, then run the read loop (with no requested
    /// size) over the device's answering frames.  This is exactly
    /// `write_raw` followed by `read_raw`: the write messages, the read
    /// requests, the assembled payload and the final tag counter are
    /// those of the two calls run in order on this session.
    pub fn ask_raw(&mut self, data: &[u8], responses: &Vec<Vec<u8>>) -> (r: Result<
        (Vec<Vec<u8>>, ReadOutcome),
        ClassError,
    >)
        requires
            old(self).max_transfer_size > 0,
            data@.len() + 15 <= usize::MAX,
        ensures
            ({
                let mid = spec_tag_after_write(
                    old(self).b_tag,
                    data@.len(),
                    old(self).max_transfer_size as nat,
                );
                let m = spec_read_model(
                    mid,
                    old(self).max_transfer_size,
                    old(self).term_char,
                    seq_views(responses@),
                );
                &&& *final(self) == old(self).with_tag(m.tag)
                &&& (match r {
                    Ok(wo) => seq_views(wo.0@) == spec_write_msgs(
                        old(self).b_tag,
                        data@,
                        old(self).max_transfer_size as nat,
                    ) && m.result == Ok::<(Seq<u8>, bool), ClassError>(
                        (wo.1.data@, wo.1.complete),
                    ) && seq_views(wo.1.requests@) == m.requests,
                    Err(e) => m.result == Err::<(Seq<u8>, bool), ClassError>(e),
                })
            }),
    {
        let msgs = self.write_raw(data);
        match self.read_raw(None, responses) {
            Ok(o) => Ok((msgs, o)),
            Err(e) => Err(e),
        }
    }
}

/// What one read produced: the request messages that were framed, the
/// payload assembled across the answering frames, and whether an
/// end-of-message frame was reached.
#[derive(Debug, Clone, PartialEq, Eq)]
pub struct ReadOutcome {
    pub requests: Vec<Vec<u8>>,
    pub data: Vec<u8>,
    pub complete: bool,
}

} // verus!
