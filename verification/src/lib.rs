use vstd::prelude::*;

pub mod text;
pub mod encoding;
pub mod platform;
pub mod devices;
pub mod codecs;
pub mod thumbnail;
pub mod monitors;
pub mod windows;
pub mod props;
pub mod encoder;
pub mod sources;
pub mod pipeline;
pub mod session;
pub mod counters;
pub mod graph;
pub mod presence;
pub mod autopost;

verus! {

} // verus!
