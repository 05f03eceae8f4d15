//! The decoder and encoder families of a local inference server, as far as they can be decided
//! without computing on tensors.
//!
//! Each family module holds its config, the checks on config and checkpoint with their messages,
//! the layout of the model with the order in which it takes its tensors, and the plan of every
//! forward pass: head splits, rotations, key ranges, masks, routing and recurrences. A tensor engine
//! computes what the plans say.
//!
//! - [`afmoe`], [`apertus`], [`baichuan`], [`bailing_moe`], [`bailing_moe_linear`], [`cohere`],
//!   [`cohere2`], [`cohere2_moe`]: decoders.
//! - [`bert`], [`bert_config`], [`bert_heads`]: the encoder, its config and its heads.
//! - [`limits`], [`weights`], [`steps`], [`plan`]: what the families share.
//! - [`text`], [`json`], [`single`]: messages, JSON values and single-precision numbers.
//! - [`attention_laws`], [`checkpoint_laws`], [`config_laws`], [`encoder_laws`], [`load_laws`],
//!   [`message_laws`], [`number_laws`], [`recurrence_laws`], [`routing_laws`], [`storage_laws`]: what
//!   holds of every result, stated of the functions that return it and proved from their contracts.
#![allow(unused_imports)]

pub mod afmoe;
pub mod apertus;
pub mod attention_laws;
pub mod baichuan;
pub mod bailing_moe;
pub mod bailing_moe_linear;
pub mod bert;
pub mod bert_config;
pub mod bert_heads;
pub mod checkpoint_laws;
pub mod cohere;
pub mod cohere2;
pub mod cohere2_moe;
pub mod config_laws;
pub mod encoder_laws;
pub mod json;
pub mod limits;
pub mod load_laws;
pub mod message_laws;
pub mod number_laws;
pub mod plan;
pub mod recurrence_laws;
pub mod routing_laws;
pub mod single;
pub mod steps;
pub mod storage_laws;
pub mod text;
pub mod weights;
