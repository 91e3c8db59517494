pub mod anc;
pub mod command;
pub mod device;
pub mod frame;
pub mod link;
pub mod output;
pub mod payload;
pub mod watch;
