//! Core of a callback-driven reactor: a deferred-callback scheduler with
//! cancellable handles, a hash-indexed header store over a frozen byte
//! buffer, and the state machine of a TCP stream transport.

pub mod buffer;
pub mod handle;
pub mod headers;
pub mod transport;

pub use buffer::{buf_extend, buf_freeze, buf_len, buf_split_to, frozen_slice};
pub use handle::{TimerRaceOutcome, TokioHandle, TokioTimerHandle, call_later, call_soon, timer_fires};
pub use headers::{Header, Headers, WriteHeaders, hash_name};
pub use transport::{
    EngineState, OutboundItem, ReadAction, ReadEvent, SendOutcome, TcpTransport,
    TcpTransportCodec, TokioTcpTransportMessage,
};
