//! The administrative text protocol: commands, responses, and the registry
//! of active sinks.

use vstd::prelude::*;
use crate::sink::{UinputSink, gamepad_sink_name};
use crate::text::{
    decimal, find_char, find_char_from, parsed_unsigned, parse_unsigned, push_decimal, str_equal,
    trim, trimmed,
};

verus! {

/// One administrative command.
#[derive(Clone, Copy, Debug, PartialEq, Eq, Structural)]
pub enum Command {
    /// `list_sink_types`
    ListSinkTypes,
    /// `add_sink <type_index>`
    AddSink(usize),
    /// `del_sink <sink_index>`
    DelSink(usize),
    /// `list_sinks`
    ListSinks,
    /// `help`
    Help,
    /// `add_3ds`: bind the network source to a new sink.
    AddRemote,
    /// A known command whose index is missing or not a number.
    Malformed,
    /// Anything else.
    Invalid,
}

/// The numeric argument after the first space, if there is one and it is a number.
pub open spec fn index_argument(t: Seq<char>) -> Option<nat> {
    let i = find_char(t, ' ', 0);
    if i == t.len() {
        None
    } else {
        let rest = t.subrange(i + 1, t.len() as int);
        parsed_unsigned(rest.subrange(0, find_char(rest, ' ', 0)), usize::MAX as nat)
    }
}

/// The command a trimmed line holds: its first space-separated word, and for
/// `add_sink` and `del_sink` the index in the second.
pub open spec fn words_command(t: Seq<char>) -> Command {
    let w = t.subrange(0, find_char(t, ' ', 0));
    if w == "add_3ds"@ {
        Command::AddRemote
    } else if w == "add_sink"@ {
        match index_argument(t) {
            Some(n) => Command::AddSink(n as usize),
            None => Command::Malformed,
        }
    } else if w == "del_sink"@ {
        match index_argument(t) {
            Some(n) => Command::DelSink(n as usize),
            None => Command::Malformed,
        }
    } else if w == "list_sink_types"@ {
        Command::ListSinkTypes
    } else if w == "list_sinks"@ {
        Command::ListSinks
    } else if w == "help"@ {
        Command::Help
    } else {
        Command::Invalid
    }
}

fn parse_index_argument(t: &str) -> (r: Option<usize>)
    ensures
        match index_argument(t@) {
            Some(n) => r == Some(n as usize),
            None => r is None,
        },
{
    let n = t.unicode_len();
    let i = find_char_from(t, ' ', 0);
    if i == n {
        return None;
    }
    let rest = t.substring_char(i + 1, n);
    let j = find_char_from(rest, ' ', 0);
    match parse_unsigned(rest.substring_char(0, j), usize::MAX as u64) {
        Some(v) => Some(v as usize),
        None => None,
    }
}

/// Reads the command in an already trimmed line.
pub fn parse_command_words(t: &str) -> (r: Command)
    ensures
        r == words_command(t@),
{
    let i = find_char_from(t, ' ', 0);
    let w = t.substring_char(0, i);
    if str_equal(w, "add_3ds") {
        Command::AddRemote
    } else if str_equal(w, "add_sink") {
        match parse_index_argument(t) {
            Some(n) => Command::AddSink(n),
            None => Command::Malformed,
        }
    } else if str_equal(w, "del_sink") {
        match parse_index_argument(t) {
            Some(n) => Command::DelSink(n),
            None => Command::Malformed,
        }
    } else if str_equal(w, "list_sink_types") {
        Command::ListSinkTypes
    } else if str_equal(w, "list_sinks") {
        Command::ListSinks
    } else if str_equal(w, "help") {
        Command::Help
    } else {
        Command::Invalid
    }
}

/// Reads the command in one line as received, surrounding white space ignored.
pub fn parse_command(line: &str) -> (r: Command)
    ensures
        r == words_command(trimmed(line@)),
{
    parse_command_words(trim(line))
}

/// The reply to a command that succeeded.
pub fn ok_response() -> (r: String)
    ensures
        r@ == "OK\n"@,
{
    String::from_str("OK\n")
}

/// The reply to a command that failed.
pub fn err_response() -> (r: String)
    ensures
        r@ == "ERR\n"@,
{
    String::from_str("ERR\n")
}

/// The reply to a line that holds no known command.
pub fn invalid_response() -> (r: String)
    ensures
        r@ == "ERR:Invalid command\n"@,
{
    String::from_str("ERR:Invalid command\n")
}

/// The reply to `help`.
pub fn help_text() -> (r: String)
    ensures
        r@ == "Available commands are:\nlist_sinks: Lists all sinks in use with sources attached to them\nadd_sink: Adds a sink and autobinds a source\ndel_sink: Removes a sink\nlist_sink_types: Lists sink types that can be added with add_sink\nhelp: Displays this message\n"@,
{
    String::from_str(
        "Available commands are:\nlist_sinks: Lists all sinks in use with sources attached to them\nadd_sink: Adds a sink and autobinds a source\ndel_sink: Removes a sink\nlist_sink_types: Lists sink types that can be added with add_sink\nhelp: Displays this message\n",
    )
}

/// The line that ends a multi-line reply.
pub open spec fn end_multiline() -> Seq<char> {
    "END_MULTILINE\n"@
}

/// `OK:<i>:<name>` rows for the first `n` sink types.
pub open spec fn type_rows(names: Seq<String>, n: int) -> Seq<char>
    decreases n,
{
    if n <= 0 {
        Seq::empty()
    } else {
        type_rows(names, n - 1) + "OK:"@ + decimal((n - 1) as nat) + ":"@ + names[n - 1]@ + "\n"@
    }
}

/// The reply to `list_sink_types`: one `OK:<index>:<name>` row per sink type,
/// then the end line.
pub fn list_sink_types_response(names: &Vec<String>) -> (r: String)
    ensures
        r@ == type_rows(names@, names@.len() as int) + end_multiline(),
{
    let mut r = String::new();
    let mut i: usize = 0;
    while i < names.len()
        invariant
            i <= names@.len(),
            r@ == type_rows(names@, i as int),
        decreases names@.len() - i,
    {
        r.append("OK:");
        push_decimal(&mut r, i);
        r.append(":");
        r.append(names[i].as_str());
        r.append("\n");
        assert(r@ =~= type_rows(names@, i + 1));
        i += 1;
    }
    r.append("END_MULTILINE\n");
    r
}

/// `OK:<i>:<sink name>:<source name>` rows for the first `n` sinks.
pub open spec fn sink_rows(sinks: Seq<UinputSink>, n: int) -> Seq<char>
    decreases n,
{
    if n <= 0 {
        Seq::empty()
    } else {
        sink_rows(sinks, n - 1) + "OK:"@ + decimal((n - 1) as nat) + ":"@ + gamepad_sink_name() + ":"@
            + sinks[n - 1]@.0 + "\n"@
    }
}

/// The active sinks, each with what the caller keeps to run it.
pub struct SinkRegistry<H> {
    entries: Vec<(UinputSink, H)>,
}

impl<H> SinkRegistry<H> {
    /// The active sinks, by index.
    pub closed spec fn sinks(&self) -> Seq<UinputSink> {
        self.entries@.map_values(|e: (UinputSink, H)| e.0)
    }

    /// What the caller keeps for each active sink, by index.
    pub closed spec fn handles(&self) -> Seq<H> {
        self.entries@.map_values(|e: (UinputSink, H)| e.1)
    }

    pub open spec fn len_spec(&self) -> nat {
        self.sinks().len()
    }

    /// No sinks.
    pub fn new() -> (r: SinkRegistry<H>)
        ensures
            r.sinks() == Seq::<UinputSink>::empty(),
            r.handles() == Seq::<H>::empty(),
    {
        let r = SinkRegistry { entries: Vec::new() };
        assert(r.sinks() =~= Seq::<UinputSink>::empty());
        assert(r.handles() =~= Seq::<H>::empty());
        r
    }

    /// How many sinks are active.
    pub fn len(&self) -> (r: usize)
        ensures
            r == self.sinks().len(),
            r == self.handles().len(),
    {
        self.entries.len()
    }

    /// Registers a sink at the end.
    pub fn add(&mut self, sink: UinputSink, handle: H)
        ensures
            final(self).sinks() == old(self).sinks().push(sink),
            final(self).handles() == old(self).handles().push(handle),
    {
        self.entries.push((sink, handle));
        assert(final(self).sinks() =~= old(self).sinks().push(sink));
        assert(final(self).handles() =~= old(self).handles().push(handle));
    }

    /// Removes the sink at `index`, handing back what was kept for it; later
    /// sinks move down one index. `None`, and nothing changes, when there is
    /// no sink at `index`.
    pub fn del_sink(&mut self, index: usize) -> (r: Option<H>)
        ensures
            index < old(self).sinks().len() ==> {
                &&& r == Some(old(self).handles()[index as int])
                &&& final(self).sinks() == old(self).sinks().remove(index as int)
                &&& final(self).handles() == old(self).handles().remove(index as int)
            },
            index >= old(self).sinks().len() ==> r is None && final(self).sinks() == old(self).sinks()
                && final(self).handles() == old(self).handles(),
    {
        if index < self.entries.len() {
            let (_, h) = self.entries.remove(index);
            assert(final(self).sinks() =~= old(self).sinks().remove(index as int));
            assert(final(self).handles() =~= old(self).handles().remove(index as int));
            Some(h)
        } else {
            None
        }
    }

    /// The reply to `list_sinks`: one `OK:<index>:<sink name>:<source name>`
    /// row per active sink, then the end line.
    pub fn list_sinks_response(&self) -> (r: String)
        ensures
            r@ == sink_rows(self.sinks(), self.sinks().len() as int) + end_multiline(),
    {
        let mut r = String::new();
        let mut i: usize = 0;
        while i < self.entries.len()
            invariant
                i <= self.entries@.len(),
                self.sinks().len() == self.entries@.len(),
                r@ == sink_rows(self.sinks(), i as int),
            decreases self.entries@.len() - i,
        {
            let sink = &self.entries[i].0;
            assert(*sink == self.sinks()[i as int]);
            r.append("OK:");
            push_decimal(&mut r, i);
            r.append(":");
            r.append(sink.name());
            r.append(":");
            let source = sink.source_name();
            r.append(source.as_str());
            r.append("\n");
            assert(r@ =~= sink_rows(self.sinks(), i + 1));
            i += 1;
        }
        r.append("END_MULTILINE\n");
        r
    }
}

} // verus!
