//! Picks the fastest servers of a proxy subscription.
//!
//! The heart of the crate is [`pool`]: a pool of workers that, for every
//! server of a feed, lease a local port, start the proxy program on it,
//! measure the latency through it and stop the program again. [`ping`] holds
//! the rule by which samples become a latency, [`v2ray_ctl`] the launch and
//! teardown of the proxy program, [`utils`] the port allocator's retry rule.
//! Around them, [`subscription`] reads a feed, [`v2ray_template`] writes the
//! configuration for one server, [`ranker`] chooses and orders the servers of
//! a target, and [`patcher`] rewrites a target's configuration.
//!
//! Nothing here touches the network, a file or a process: the caller does,
//! and reports what came of it.

pub mod patcher;
pub mod pattern;
pub mod ping;
pub mod pool;
pub mod ranker;
pub mod settings;
pub mod subscription;
pub mod text;
pub mod utils;
pub mod v2ray_ctl;
pub mod v2ray_object;
pub mod v2ray_template;
pub mod vlink;
