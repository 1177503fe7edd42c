//! The request/reply core of an X11 client: wire framing, the extension
//! registry, the pending-request table, the send and receive state machines,
//! the XKB action codec and the request planning of the code generator.

mod action;
mod conn;
mod display;
mod future;
mod generator;
mod laws;
mod registry;
mod request;
mod send;
mod tiny;
mod wait;
mod wire;
mod xproto;

pub use action::{
    action_bytes, action_type, lemma_action_bytes_round_trip, lemma_action_round_trip,
    parse_action, Action, SaActionMessage, SaControlsAction, SaDeviceBtn, SaDeviceValuator,
    SaGroupAction, SaIsoLock, SaLockDeviceBtn, SaLockPtrBtn, SaModAction, SaMovePtr, SaNoAction,
    SaPtrBtn, SaRedirectKey, SaSetPtrDflt, SaSwitchScreen, SaTerminate, ACTION_SIZE,
};
pub use conn::{AsyncConnection, Poll, Transport};
pub use display::{Display, ExtLookup, PendingReply};
pub use future::{RawDisplay, SendRequestRawFuture};
pub use generator::{plan_request, reply_position, RequestPlan};
pub use laws::{
    lemma_cached_extension_needs_no_query, lemma_glx_doubles_extra_bytes, lemma_glx_requests_are_tagged,
    lemma_padding_is_zero, lemma_query_success_caches, lemma_reply_delivered_once,
    lemma_sequences_increase, lemma_step_never_goes_back,
};
pub use registry::ExtensionRegistry;
pub use request::{
    modify_for_opcode, pad_with_length, BreadError, Fd, PendingRequestFlags, RequestInfo,
    RequestWorkaround, MAX_EXTENSION_NAME, MAX_REQUEST_BYTES,
};
pub use send::{InnerSendBuffer, SendBuffer, Step};
pub use tiny::{bytes_from_slice, bytes_to_vec, Bytes};
pub use wait::{WaitBuffer, WaitBufferReturn};
pub use wire::{
    additional_bytes, glx_workaround, string_as_array_bytes, widen_sequence, EXT_KEY_SIZE,
};
pub use xproto::{
    decode_query_extension_reply, query_extension_request, QueryExtensionReply,
    QUERY_EXTENSION_OPCODE,
};
