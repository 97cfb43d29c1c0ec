//! Protocol engine for an interactive board-farm client.
//!
//! The crate covers the wire codec for the 3-byte-header message format, the
//! gate that serializes outbound sends, the demultiplexer that splits the
//! remote program's two output streams, the cancellable chunked image
//! transfer, the keystroke handler with its escape-prefix convention, and the
//! session state machine that ties them together. I/O, terminal handling and
//! the remote-shell transport live outside the library.

pub mod codec;
pub mod demux;
pub mod flag;
pub mod gate;
pub mod input;
pub mod msgs;
pub mod session;
pub mod transfer;

pub use codec::encode_msg;
pub use codec::parse_recv_msg;
pub use codec::classify_stream_end;
pub use codec::try_decode;
pub use codec::DecodeOutcome;
pub use codec::StreamEnd;
pub use flag::CancelFlag;
pub use gate::select_brd;
pub use gate::send_ack;
pub use gate::send_break;
pub use gate::send_console;
pub use gate::send_msg;
pub use gate::send_vbus_ctrl;
pub use gate::WriteGate;
pub use input::handle_keypress;
pub use msgs::Sk8brdMsg;
pub use msgs::Sk8brdMsgs;
pub use msgs::MAX_PAYLOAD_LEN;
pub use msgs::MSG_HDR_SIZE;
pub use session::list_boards;
pub use session::Session;
pub use session::SessionAction;
pub use session::SessionState;
pub use transfer::send_image;
pub use transfer::TransferOutcome;
pub use transfer::TransferProgress;
pub use transfer::CHUNK_SIZE;
