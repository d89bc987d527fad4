//! Decision core of a chat-client sample plugin.
//!
//! The host application owns every buffer, nick list, command hook,
//! configuration option and bar item; this library decides what the plugin
//! asks the host to create and what it prints in reaction to each host
//! event.  The thin layer that actually talks to the host consumes the
//! values produced here.

mod digits;
mod events;
mod messages;
mod plan;

pub use digits::dec_rep;
pub use digits::dec_u64;
pub use digits::lemma_dec_rep_injective;
pub use events::bar_text_spec;
pub use events::buffer_lines_spec;
pub use events::core_lines_spec;
pub use events::respond;
pub use events::Event;
pub use events::Response;
pub use messages::elapsed_report;
pub use messages::nick_name;
pub use messages::nick_names;
pub use messages::nick_report;
pub use plan::init_plan;
pub use plan::GroupPlan;
pub use plan::InitPlan;
pub use plan::NickPlan;
pub use plan::GENERATED_NICK_COUNT;
