//! The plugin's registration plan.
//!
//! On load the plugin asks the host for a buffer, a nick list, a command
//! hook, a configuration option and a bar item, and aborts at the first
//! creation the host refuses.  Everything those requests carry is decided
//! here, ahead of any host call, and `init_plan` pins every field down.

use vstd::prelude::*;
use vstd::string::StringExecFns;

use crate::digits::dec_rep;
use crate::messages::nick_names;

verus! {

/// How many nicks the plugin generates beyond the hand-written one.
pub const GENERATED_NICK_COUNT: u64 = 100;

/// A nick's entry for the host's nick list.
pub struct NickPlan {
    pub name: String,
    pub color: String,
    pub prefix: String,
    pub prefix_color: String,
}

/// A nick group's entry for the host's nick list.
pub struct GroupPlan {
    pub name: String,
    pub color: String,
    pub visible: bool,
}

/// Everything the plugin registers with the host on load.
pub struct InitPlan {
    /// The name the plugin registers itself under.
    pub plugin_name: String,
    /// The greeting printed to the host's core display on load.
    pub load_greeting: String,
    /// The name of the buffer the plugin creates.
    pub buffer_name: String,
    /// The greeting printed to that buffer once it exists.
    pub buffer_greeting: String,
    /// The nick group holding the hand-written nick.
    pub op_group: GroupPlan,
    /// The one hand-written nick, with its colors and prefix.
    pub op_nick: NickPlan,
    /// The names of the generated nicks, in the order they are added.
    pub generated_nicks: Vec<String>,
    /// The name of the chat command the plugin hooks.
    pub command_name: String,
    /// The data the command hook carries to its callback.
    pub command_data: String,
    /// The name of the configuration file the plugin creates.
    pub config_name: String,
    /// The name of the configuration section.
    pub section_name: String,
    /// The name of the boolean option in that section.
    pub option_name: String,
    /// The option's default value.
    pub option_default: bool,
    /// The name of the bar item the plugin registers.
    pub bar_item_name: String,
}

/// Builds the registration plan: every name, color and default the
/// plugin hands the host, and the full list of generated nick names.
pub fn init_plan() -> (p: InitPlan)
    ensures
        p.plugin_name@ == "rust_sample"@,
        p.load_greeting@ == "Hello Rust!"@,
        p.buffer_name@ == "Test buffer"@,
        p.buffer_greeting@ == "Hello test buffer"@,
        p.op_group.name@ == "operators"@,
        p.op_group.color@ == "blue"@,
        p.op_group.visible,
        p.op_nick.name@ == "Emma"@,
        p.op_nick.color@ == "magenta"@,
        p.op_nick.prefix@ == "&"@,
        p.op_nick.prefix_color@ == "green"@,
        p.generated_nicks@.len() == GENERATED_NICK_COUNT,
        forall|i: int|
            0 <= i < GENERATED_NICK_COUNT ==> (#[trigger] p.generated_nicks@[i])@ == "nick_"@
                + dec_rep(i as nat),
        forall|i: int, j: int|
            0 <= i < j < GENERATED_NICK_COUNT ==> p.generated_nicks@[i]@ != p.generated_nicks@[j]@,
        p.command_name@ == "rustcommand"@,
        p.command_data@ == "Hello rust command"@,
        p.config_name@ == "rust_sample"@,
        p.section_name@ == "sample_section"@,
        p.option_name@ == "test_option"@,
        !p.option_default,
        p.bar_item_name@ == "buffer_plugin"@,
{
    InitPlan {
        plugin_name: String::from_str("rust_sample"),
        load_greeting: String::from_str("Hello Rust!"),
        buffer_name: String::from_str("Test buffer"),
        buffer_greeting: String::from_str("Hello test buffer"),
        op_group: GroupPlan {
            name: String::from_str("operators"),
            color: String::from_str("blue"),
            visible: true,
        },
        op_nick: NickPlan {
            name: String::from_str("Emma"),
            color: String::from_str("magenta"),
            prefix: String::from_str("&"),
            prefix_color: String::from_str("green"),
        },
        generated_nicks: nick_names(GENERATED_NICK_COUNT),
        command_name: String::from_str("rustcommand"),
        command_data: String::from_str("Hello rust command"),
        config_name: String::from_str("rust_sample"),
        section_name: String::from_str("sample_section"),
        option_name: String::from_str("test_option"),
        option_default: false,
        bar_item_name: String::from_str("buffer_plugin"),
    }
}

} // verus!
