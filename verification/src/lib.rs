//! A command and notification broker between a protocol core and a
//! presentation layer.
//!
//! The broker takes commands one at a time, asks the core for the matching
//! operation, and publishes snapshots of the core's state for display. Beside
//! it a relay turns the core's own notifications into small mutations of the
//! state on display. Waiting on the queue, on the core and on the sink is
//! left to the caller: the library decides, step by step, what is done next.

pub mod command;
pub mod command_loop;
pub mod entities;
pub mod laws;
pub mod presentation;
pub mod relay;
pub mod state;
pub mod vector;

pub use command::{BrokerEvent, CoreReply, CoreRequest};
pub use command_loop::{start_broker, step, LoopAction, LoopEvent, LoopState};
pub use entities::{Contact, ConversationEntity, CoreNotification, MessageEntity, UserEntity};
pub use presentation::{AppState, BrokerNotification, StateMutation};
pub use relay::{relay_step, RelayAction};
pub use state::{
    load_config, load_user, ConfigState, ContactState, ConversationState, MessageState, UserState,
};
