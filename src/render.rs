//! The text that a sink shows for an event: the stream sink's record, with
//! its separator line, and the live view's labels. Absent text fields show as
//! `"None"`, an absent parent as `0`, an absent creation time as `N/A`.

use vstd::prelude::*;
use vstd::string::StringExecFns;
use crate::event::ProcessEvent;
use crate::text::{decimal, push_decimal};

verus! {

/// What `<str as Debug>::fmt` writes for a string: the text in double
/// quotes, its characters escaped.
pub uninterp spec fn debug_text(s: Seq<char>) -> Seq<char>;

/// Relies on std's `Debug` for `str`; the result depends on the characters
/// alone.
#[verifier::external_body]
fn quoted(s: &str) -> (r: String)
    ensures
        r@ == debug_text(s@),
{
    format!("{:?}", s)
}

/// The two ways of showing an event.
#[derive(Clone, Copy, Debug, PartialEq, Eq)]
pub enum Layout {
    /// Line-oriented text output, a separator line first.
    Stream,
    /// One label per field in the live view.
    LiveView,
}

/// The characters of the lines, one sequence each.
pub open spec fn views(lines: Seq<String>) -> Seq<Seq<char>> {
    lines.map_values(|l: String| l@)
}

/// An optional text field as shown before quoting: its value, or `None`.
pub open spec fn text_or_none(f: Option<String>) -> Seq<char> {
    match f {
        Some(s) => s@,
        None => "None"@,
    }
}

/// The creation time as shown: its text, or `N/A`.
pub open spec fn created_text(e: ProcessEvent) -> Seq<char> {
    match e.created_at {
        Some(t) => t.text(),
        None => "N/A"@,
    }
}

/// The lines that show `e` in `layout`, given the quoted executable path
/// and command line.
pub open spec fn record_text(
    layout: Layout,
    e: ProcessEvent,
    exe_shown: Seq<char>,
    cmd_shown: Seq<char>,
) -> Seq<Seq<char>> {
    let parent = decimal(
        match e.parent_process_id {
            Some(p) => p as nat,
            None => 0,
        },
    );
    match layout {
        Layout::Stream => seq![
            "============NEW PROCESS============"@,
            "PID:        "@ + decimal(e.process_id as nat),
            "Name:       "@ + e.name@,
            "Executable: "@ + exe_shown,
            "Parent PID: "@ + parent,
            "Command:    "@ + cmd_shown,
            "Created:    "@ + created_text(e),
        ],
        Layout::LiveView => seq![
            "PID: "@ + decimal(e.process_id as nat),
            "Name: "@ + e.name@,
            "Executable: "@ + exe_shown,
            "Parent PID: "@ + parent,
            "Command Line: "@ + cmd_shown,
            "Created: "@ + created_text(e),
        ],
    }
}

/// The lines that show `e` in `layout`: path and command line quoted as
/// `Debug` quotes a string.
pub open spec fn shown(layout: Layout, e: ProcessEvent) -> Seq<Seq<char>> {
    record_text(
        layout,
        e,
        debug_text(text_or_none(e.executable_path)),
        debug_text(text_or_none(e.command_line)),
    )
}

fn labelled(label: &str, value: &str) -> (r: String)
    ensures
        r@ == label@ + value@,
{
    String::from_str(label).concat(value)
}

fn labelled_number(label: &str, n: u32) -> (r: String)
    ensures
        r@ == label@ + decimal(n as nat),
{
    let mut s = String::from_str(label);
    push_decimal(&mut s, n);
    s
}

/// The lines that show `e` in `layout`, given the executable path and the
/// command line already quoted.
pub fn record_lines_with(layout: Layout, e: &ProcessEvent, exe_shown: &str, cmd_shown: &str) -> (r:
    Vec<String>)
    requires
        e.wf(),
    ensures
        views(r@) == record_text(layout, *e, exe_shown@, cmd_shown@),
{
    let parent: u32 = match e.parent_process_id {
        Some(p) => p,
        None => 0,
    };
    let created: String = match &e.created_at {
        Some(t) => t.format(),
        None => String::from_str("N/A"),
    };
    let r = match layout {
        Layout::Stream => vec![
            String::from_str("============NEW PROCESS============"),
            labelled_number("PID:        ", e.process_id),
            labelled("Name:       ", e.name.as_str()),
            labelled("Executable: ", exe_shown),
            labelled_number("Parent PID: ", parent),
            labelled("Command:    ", cmd_shown),
            labelled("Created:    ", created.as_str()),
        ],
        Layout::LiveView => vec![
            labelled_number("PID: ", e.process_id),
            labelled("Name: ", e.name.as_str()),
            labelled("Executable: ", exe_shown),
            labelled_number("Parent PID: ", parent),
            labelled("Command Line: ", cmd_shown),
            labelled("Created: ", created.as_str()),
        ],
    };
    assert(views(r@) =~= record_text(layout, *e, exe_shown@, cmd_shown@));
    r
}

/// The lines that show `e` in `layout`.
pub fn record_lines(layout: Layout, e: &ProcessEvent) -> (r: Vec<String>)
    requires
        e.wf(),
    ensures
        views(r@) == shown(layout, *e),
{
    let exe = match &e.executable_path {
        Some(p) => quoted(p.as_str()),
        None => quoted("None"),
    };
    let cmd = match &e.command_line {
        Some(c) => quoted(c.as_str()),
        None => quoted("None"),
    };
    record_lines_with(layout, e, exe.as_str(), cmd.as_str())
}

} // verus!
