//! Reactions to host events.
//!
//! The host invokes the plugin's callbacks one at a time from its event
//! loop.  Each callback's whole effect is either a few printed lines or a
//! piece of text handed back to the host, so the reaction to an event is
//! a plain value: `respond` maps the event to the lines destined for the
//! event's own buffer, the lines destined for the host's core display,
//! and the text a bar render is answered with.

use vstd::prelude::*;
use vstd::string::StringExecFns;

verus! {

/// A host event the plugin reacts to.
pub enum Event {
    /// A line was entered in the plugin's buffer.
    Input { line: String },
    /// The plugin's buffer was closed.
    BufferClosed,
    /// The plugin's command was invoked, with the data the hook was
    /// registered with and the invocation's arguments.
    Command { data: String, args: Vec<String> },
    /// The plugin's boolean option changed.
    OptionChanged,
    /// The plugin's configuration was reloaded.
    ConfigReloaded,
    /// The host asks for the text of the plugin's bar item.
    BarRender,
    /// The plugin is being unloaded.
    Unloaded,
}

/// What the plugin does in reaction to one event.
pub struct Response {
    /// Lines printed to the buffer the event concerns.
    pub buffer_lines: Vec<String>,
    /// Lines printed to the host's core display.
    pub core_lines: Vec<String>,
    /// The text handed back for a bar render.
    pub bar_text: Option<String>,
}

/// The lines the plugin prints to the event's buffer: an entered line is
/// echoed, and a command invocation prints the hook's data followed by
/// every argument.
pub open spec fn buffer_lines_spec(e: Event) -> Seq<Seq<char>> {
    match e {
        Event::Input { line } => seq![line@],
        Event::Command { data, args } => seq![data@] + args.deep_view(),
        _ => seq![],
    }
}

/// The lines the plugin prints to the host's core display.
pub open spec fn core_lines_spec(e: Event) -> Seq<Seq<char>> {
    match e {
        Event::BufferClosed => seq!["Closing buffer"@],
        Event::OptionChanged => seq!["Changing rust option"@],
        Event::ConfigReloaded => seq!["Reloaded config"@],
        Event::Unloaded => seq!["Bye rust"@],
        _ => seq![],
    }
}

/// The text answering a bar render; no other event yields any.
pub open spec fn bar_text_spec(e: Event) -> Option<Seq<char>> {
    match e {
        Event::BarRender => Some("rust/sample"@),
        _ => None,
    }
}

fn core_line(text: &str) -> (r: Response)
    ensures
        r.buffer_lines.deep_view() == Seq::<Seq<char>>::empty(),
        r.core_lines.deep_view() == seq![text@],
        r.bar_text.deep_view() == Option::<Seq<char>>::None,
{
    let mut core_lines: Vec<String> = Vec::new();
    core_lines.push(String::from_str(text));
    let r = Response { buffer_lines: Vec::new(), core_lines, bar_text: None };
    proof {
        assert(r.buffer_lines.deep_view() =~~= Seq::<Seq<char>>::empty());
        assert(r.core_lines.deep_view() =~~= seq![text@]);
    }
    r
}

/// Maps a host event to everything the plugin does in reaction to it.
pub fn respond(e: Event) -> (r: Response)
    ensures
        r.buffer_lines.deep_view() == buffer_lines_spec(e),
        r.core_lines.deep_view() == core_lines_spec(e),
        r.bar_text.deep_view() == bar_text_spec(e),
{
    match e {
        Event::Input { line } => {
            let mut buffer_lines: Vec<String> = Vec::new();
            buffer_lines.push(line);
            let r = Response { buffer_lines, core_lines: Vec::new(), bar_text: None };
            proof {
                assert(r.buffer_lines.deep_view() =~~= buffer_lines_spec(e));
                assert(r.core_lines.deep_view() =~~= core_lines_spec(e));
            }
            r
        },
        Event::Command { data, args } => {
            let mut buffer_lines: Vec<String> = Vec::new();
            buffer_lines.push(data);
            let mut k: usize = 0;
            while k < args.len()
                invariant
                    k <= args.len(),
                    buffer_lines@.len() == k + 1,
                    buffer_lines@[0] == data,
                    forall|i: int| 0 <= i < k ==> buffer_lines@[i + 1] == args@[i],
                decreases args.len() - k,
            {
                let a = args[k].clone();
                buffer_lines.push(a);
                k = k + 1;
            }
            let r = Response { buffer_lines, core_lines: Vec::new(), bar_text: None };
            proof {
                assert(r.buffer_lines.deep_view() =~~= buffer_lines_spec(e));
                assert(r.core_lines.deep_view() =~~= core_lines_spec(e));
            }
            r
        },
        Event::BufferClosed => core_line("Closing buffer"),
        Event::OptionChanged => core_line("Changing rust option"),
        Event::ConfigReloaded => core_line("Reloaded config"),
        Event::Unloaded => core_line("Bye rust"),
        Event::BarRender => {
            let r = Response {
                buffer_lines: Vec::new(),
                core_lines: Vec::new(),
                bar_text: Some(String::from_str("rust/sample")),
            };
            proof {
                assert(r.buffer_lines.deep_view() =~~= buffer_lines_spec(e));
                assert(r.core_lines.deep_view() =~~= core_lines_spec(e));
            }
            r
        },
    }
}

} // verus!
