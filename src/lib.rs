#![allow(non_snake_case)]

//! Window and monitor bookkeeping for a game-engine core: the engine state
//! record, and the decisions behind close requests, monitor lookup and
//! fullscreen toggling, over values that the windowing layer reports.

pub mod common;
pub mod desktop;
