//! The decoding session: its lifecycle, the fragment protocol and the
//! single-use result slot.
//!
//! An absent session (`None`) stands for a null handle; every operation
//! accepts it and answers with its failure value.
use vstd::prelude::*;
use raptorq::Decoder;
use crate::engine::{
    bytes_of, decode_fragment, decode_outcome, decoder_params, default_params, default_request_ok, defaults_of,
    header_params, new_decoder,
};
use crate::params::{
    HEADER_LEN, MAX_TRANSFER_LENGTH, TransmissionParams, fragment_fits, header_layout, params_ok,
};

verus! {

/// What a session holds, as the contracts see it.
pub struct SessionView {
    /// The transmission parameters, fixed at construction.
    pub params: TransmissionParams,
    /// The reconstructed object, present from completion until it is taken.
    pub slot: Option<Seq<u8>>,
    /// Whether a fragment has completed the object.
    pub finished: bool,
}

impl SessionView {
    /// A session's own consistency: usable parameters, and a slot that is
    /// filled only after completion, with exactly the object's length.
    pub open spec fn wf(self) -> bool {
        &&& params_ok(self.params)
        &&& self.slot matches Some(b) ==> self.finished && b.len() == self.params.transfer_length
    }
}

/// A session that was just built from `params`.
pub open spec fn fresh(params: TransmissionParams) -> SessionView {
    SessionView { params, slot: None, finished: false }
}

/// The session after one fragment, and the reply, given what the engine
/// returned for it. A finished session and an ill-shaped fragment leave the
/// engine untouched.
pub open spec fn push_step(v: SessionView, frag: Seq<u8>, outcome: Option<Seq<u8>>) -> (
    SessionView,
    bool,
) {
    if v.finished || !fragment_fits(v.params, frag) {
        (v, false)
    } else {
        match outcome {
            Some(b) => (SessionView { slot: Some(b), finished: true, ..v }, true),
            None => (v, false),
        }
    }
}

/// An outcome that the engine can return for a session: none, or an object
/// of the transfer length.
pub open spec fn outcome_ok(v: SessionView, outcome: Option<Seq<u8>>) -> bool {
    outcome matches Some(b) ==> b.len() == v.params.transfer_length
}

/// The session after its result is taken: the slot is emptied.
pub open spec fn after_take(v: SessionView) -> SessionView {
    SessionView { slot: None, ..v }
}

/// A decoding session. It owns its engine and its result slot; nothing else
/// refers to either.
pub struct RQContext {
    params: TransmissionParams,
    decoder: Decoder,
    result: Option<Vec<u8>>,
    finished: bool,
}

impl View for RQContext {
    type V = SessionView;

    closed spec fn view(&self) -> SessionView {
        SessionView { params: self.params, slot: bytes_of(self.result), finished: self.finished }
    }
}

impl RQContext {
    /// The engine was built from the session's parameters.
    pub closed spec fn engine_ok(&self) -> bool {
        decoder_params(self.decoder) == self.params
    }

    /// The session's decoding engine.
    pub closed spec fn engine(&self) -> Decoder {
        self.decoder
    }

    /// A session as its operations leave it.
    pub open spec fn wf(&self) -> bool {
        self.engine_ok() && self@.wf()
    }

    fn with_params(params: TransmissionParams) -> (r: Box<RQContext>)
        requires
            params_ok(params),
        ensures
            r.wf(),
            r@ == fresh(params),
    {
        let decoder = new_decoder(&params);
        Box::new(RQContext { params, decoder, result: None, finished: false })
    }

    /// Records what the engine returned for a fragment of an unfinished
    /// session. Returns whether that completed the object.
    pub fn record_outcome(&mut self, outcome: Option<Vec<u8>>) -> (r: bool)
        requires
            old(self).wf(),
            !old(self)@.finished,
            outcome_ok(old(self)@, bytes_of(outcome)),
        ensures
            final(self).wf(),
            r == outcome is Some,
            final(self)@ == (if r {
                SessionView { slot: bytes_of(outcome), finished: true, ..old(self)@ }
            } else {
                old(self)@
            }),
    {
        match outcome {
            Some(data) => {
                self.result = Some(data);
                self.finished = true;
                true
            },
            None => false,
        }
    }
}

/// A header that is present, 12 bytes long, and holds usable parameters.
pub open spec fn header_accepted(header: Option<&[u8]>) -> bool {
    header matches Some(h) && h@.len() == HEADER_LEN && params_ok(header_layout(h@))
}

/// Builds a session from a serialized 12-byte parameter header. A missing
/// header, one of another length, and parameters that the engine cannot
/// decode with give no session.
pub fn raptorq_ctx_from_oti(header: Option<&[u8]>) -> (r: Option<Box<RQContext>>)
    ensures
        r is Some <==> header_accepted(header),
        r matches Some(c) ==> c.wf() && c@ == fresh(header_layout(header.unwrap()@)),
{
    match header {
        None => None,
        Some(h) => {
            if h.len() != HEADER_LEN {
                return None;
            }
            let params = header_params(h);
            if !params.is_usable() {
                return None;
            }
            Some(RQContext::with_params(params))
        },
    }
}

/// A request for default parameters that the engine can serve and that
/// yields usable parameters.
pub open spec fn request_accepted(transfer_length: u64, max_payload_size: u16) -> bool {
    default_request_ok(transfer_length, max_payload_size) && params_ok(
        defaults_of(transfer_length, max_payload_size),
    )
}

/// Builds a session for an object of `transfer_length` bytes carried in
/// fragments of at most `max_payload_size` bytes, with the engine's default
/// layout. Gives no session where the engine cannot serve the request.
pub fn raptorq_ctx_new(transfer_length: u64, max_payload_size: u16) -> (r: Option<
    Box<RQContext>,
>)
    ensures
        r is Some <==> request_accepted(transfer_length, max_payload_size),
        r matches Some(c) ==> c.wf() && c@ == fresh(defaults_of(transfer_length, max_payload_size)),
{
    if max_payload_size == 0 || transfer_length > MAX_TRANSFER_LENGTH {
        return None;
    }
    let alignment: u16 = if max_payload_size >= 64 {
        8
    } else {
        1
    };
    let symbol_size: u64 = (max_payload_size - max_payload_size % alignment) as u64;
    let symbols: u64 = (transfer_length + symbol_size - 1) / symbol_size;
    if symbols % 0x1_0000_0000 == 0 {
        return None;
    }
    let params = default_params(transfer_length, max_payload_size);
    if !params.is_usable() {
        return None;
    }
    Some(RQContext::with_params(params))
}

/// Feeds one fragment to a session. Returns true exactly when this fragment
/// completed the object, which then waits in the result slot. A finished
/// session and a fragment that the engine cannot take change nothing, the
/// engine included; every other fragment goes to the engine, and its answer
/// decides the reply.
pub fn raptorq_ctx_push_frame(ctx: Option<&mut RQContext>, payload: &[u8]) -> (r: bool)
    requires
        ctx matches Some(c) ==> c.wf(),
    ensures
        ctx is None ==> !r,
        ctx matches Some(c) ==> {
            &&& final(c).wf()
            &&& exists|o: Option<Seq<u8>>|
                outcome_ok(c@, o) && (final(c)@, r) == push_step(c@, payload@, o)
            &&& (c@.finished || !fragment_fits(c@.params, payload@)) ==> *final(c) == *c
            &&& (!c@.finished && fragment_fits(c@.params, payload@)) ==> {
                &&& outcome_ok(c@, decode_outcome(c.engine(), payload@))
                &&& (final(c)@, r) == push_step(c@, payload@, decode_outcome(c.engine(), payload@))
            }
        },
{
    match ctx {
        None => false,
        Some(c) => {
            let ghost before = c@;
            if c.finished || !c.params.accepts_fragment(payload) {
                assert(outcome_ok(before, None));
                assert(push_step(before, payload@, None) == (before, false));
                return false;
            }
            let outcome = decode_fragment(&mut c.decoder, payload);
            let ghost decoded = bytes_of(outcome);
            let r = c.record_outcome(outcome);
            assert(outcome_ok(before, decoded));
            assert(push_step(before, payload@, decoded) == (c@, r));
            r
        },
    }
}

/// Tells whether a session holds a reconstructed object that has not been
/// taken yet. Leaves the session as it is.
pub fn raptorq_ctx_is_complete(ctx: Option<&RQContext>) -> (r: bool)
    ensures
        r == (ctx matches Some(c) && c@.slot is Some),
{
    match ctx {
        None => false,
        Some(c) => c.result.is_some(),
    }
}

/// Moves the reconstructed object out of a session. The caller owns it from
/// then on, and the session keeps no part of it; a second call gives
/// nothing. Only the slot changes. Where a length output is given and an object comes out, its
/// length is written there; otherwise the output is left as it is.
pub fn raptorq_ctx_take_result(ctx: Option<&mut RQContext>, len_out: Option<&mut usize>) -> (r:
    Option<Vec<u8>>)
    requires
        ctx matches Some(c) ==> c.wf(),
    ensures
        ctx is None ==> r is None,
        ctx matches Some(c) ==> {
            &&& final(c).wf()
            &&& final(c)@ == after_take(c@)
            &&& final(c).engine() == c.engine()
            &&& bytes_of(r) == c@.slot
        },
        len_out matches Some(l) ==> *final(l) == (match r {
            Some(v) => v.len(),
            None => *l,
        }),
{
    let taken = match ctx {
        None => None,
        Some(c) => c.result.take(),
    };
    match taken {
        None => None,
        Some(data) => {
            match len_out {
                None => {},
                Some(l) => {
                    *l = data.len();
                },
            }
            Some(data)
        },
    }
}

/// Releases an object taken from a session, together with the length that
/// was reported for it. Taking ownership is the release: the buffer is
/// dropped on return.
pub fn raptorq_free(buf: Option<Vec<u8>>, len: usize)
    requires
        buf matches Some(b) ==> b.len() == len,
{
}

/// Releases a session with everything it still owns, an object not yet
/// taken included. The session is dropped on return.
pub fn raptorq_ctx_free(ctx: Option<Box<RQContext>>) {
}

} // verus!
