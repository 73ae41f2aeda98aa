//! The deterministic core of a RabbitChain game client.

#![allow(unused_imports)]

pub mod assembly;
pub mod chain;
pub mod client;
pub mod compute;
pub mod crypto;
pub mod encoding;
pub mod flow;
pub mod frame;
pub mod game;
pub mod json;
pub mod node;
pub mod nonce;
pub mod rpc;
pub mod submit;
pub mod text;
pub mod worker;

pub use client::{ChainConfig, RabbitChainPlugin, Simulator};
pub use frame::{ChainFlowResult, ObjectSynced};
pub use worker::{ChainFlowTask, ChainHandle, PendingRpc};
