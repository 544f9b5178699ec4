//! Verified core of the FTNet tools: identity encoding (id52), stored secrets,
//! HTTP responses of the control server, request routing, the dotftn directory
//! set-up, the TCP exposer's event handling and the command line dispatch.

pub mod text;
pub mod keys;
pub mod http;
pub mod control;
pub mod dotftn;
pub mod expose;
pub mod cli;
