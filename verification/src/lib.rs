//! Verified core logic of a Scalar node.
//!
//! - The paranoid type checker of the Move interpreter: `move_types`,
//!   `type_stack`, `resolver`, `bytecode`, `paranoid`, `paranoid_laws`.
//! - The primary: admission and checks of vote requests and the
//!   equivocation protection of votes (`primary`), the parent digests asked
//!   from header proposers (`parent_digests`), certificate fetching and
//!   payload availability (`fetch`), its network setup (`primary_net`), and
//!   the properties spanning calls (`primary_laws`).
//! - External events verified by the primaries: signature collection and
//!   stake (`events`, `event_laws`) and the stores (`stores`).
//! - The TSS party and its messages: `tss`, `tss_verify`, `tss_types`,
//!   `rpc_types`, `peer_types`, `gg20`.
//! - The committee and its stake (`committee`), the ABCI service (`abci`),
//!   the relayer (`relayer`, `ethereum`), block ingestion (`blockchain`,
//!   `firehose`), words (`data`), settings (`env`), service lifecycles
//!   (`node`), snapshot restoring (`snapshot`), transaction scheduling
//!   (`scheduler`) and text encodings (`text`).
#![allow(unused_imports)]

pub mod move_types;
pub mod type_stack;
pub mod resolver;
pub mod bytecode;
pub mod paranoid;
pub mod paranoid_laws;
pub mod text;
pub mod committee;
pub mod peer_types;
pub mod rpc_types;
pub mod tss_types;
pub mod tss;
pub mod tss_session;
pub mod tss_verify;
pub mod gg20;
pub mod primary;
pub mod parent_digests;
pub mod fetch;
pub mod primary_net;
pub mod primary_laws;
pub mod vote_store;
pub mod vote_request;
pub mod events;
pub mod event_laws;
pub mod stores;
pub mod blockchain;
pub mod firehose;
pub mod data;
pub mod env;
pub mod relayer;
pub mod ethereum;
pub mod abci;
pub mod node;
pub mod snapshot;
pub mod scheduler;
