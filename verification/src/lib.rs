use vstd::prelude::*;

pub mod asr;
pub mod audio;
pub mod codec;
pub mod config;
pub mod doubao;
pub mod ffi;
pub mod hotkey;
pub mod json;
pub mod logging;
pub mod proxy;
pub mod qwen;
pub mod shell;
pub mod text;

verus! {

} // verus!
