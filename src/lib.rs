//! Metadata of a message delivered through a publish/subscribe middleware:
//! when it was published and received, its two sequence numbers, and the
//! identity of the publisher that sent it.

pub mod message_info;
pub mod time;

pub use message_info::{
    MessageInfo, MessageInfoView, PublisherGid, PublisherGidView, RmwGid, RmwMessageInfo,
    RMW_GID_STORAGE_SIZE, SEQUENCE_NUMBER_UNSUPPORTED,
};
pub use time::Timestamp;
