//! A verified bidirectional codec for the Art-Net lighting-control wire
//! format: eight fixed-layout packet kinds carrying DMX and RDM traffic,
//! plus a tagged envelope that validates the protocol magic, resolves the
//! opcode and dispatches to the matching per-kind codec.

pub mod command;
pub mod dmx;
pub mod op_error;
pub mod opcode;
pub mod packet;
pub mod poll;
pub mod poll_reply;
pub mod rdm;
pub mod text;
pub mod tod_control;
pub mod tod_data;
pub mod tod_request;
pub mod uid;
pub mod wire;

pub use command::OpCommand;
pub use dmx::OpDmx;
pub use op_error::OpError;
pub use opcode::OpCodeValues;
pub use packet::ArtPkt;
pub use poll::OpPoll;
pub use poll_reply::OpPollReply;
pub use rdm::OpRdm;
pub use tod_control::OpTodControl;
pub use tod_data::OpTodData;
pub use tod_request::OpTodRequest;
pub use uid::Uid;
