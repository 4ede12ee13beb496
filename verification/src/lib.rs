//! Verified core of a multicast paging diagnostic tool.
//!
//! The crate covers the packet pipeline: RTP and proprietary paging packet
//! grammars, the G.711 / G.722 / L16 codecs, the audio analyzer's counting
//! pass, per-page network statistics, and the session state machines.
//! Network and file I/O live outside this crate.

pub mod analyzer;
pub mod clock;
pub mod codec;
pub mod config;
pub mod dsp;
pub mod factory;
pub mod filter;
pub mod g711;
pub mod g722;
pub mod membership;
pub mod paging;
pub mod pcm;
pub mod rtp;
pub mod session;
pub mod stats;
pub mod wire;
