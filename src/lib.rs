pub mod archive;
pub mod backup;
pub mod config;
pub mod model;
pub mod prober;
pub mod requests;
pub mod retention;
pub mod scheduler;
