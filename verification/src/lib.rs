//! The decision core of a development server: what it serves where, what it
//! tells a browser after a build, and in which order it starts and stops.

pub mod addr;
pub mod config;
pub mod error;
pub mod listen;
pub mod outside;
pub mod proxy;
pub mod relay;
pub mod reload;
pub mod router;
pub mod serve;
pub mod shutdown;
pub mod state;
pub mod text;
