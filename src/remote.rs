//! The network-delivered source's line protocol: `<TOKEN> <value>` lines.

use vstd::prelude::*;
use crate::event::{
    Event, EV_KEY, EV_ABS, BTN_SOUTH, BTN_NORTH, BTN_WEST, BTN_TL, BTN_TR, BTN_SELECT, BTN_START,
    ABS_HAT0X, ABS_HAT0Y,
};
use crate::text::{
    letter_or_digit, white_space, is_alphanumeric, is_whitespace, find_char, find_char_from,
    parsed_unsigned, parse_unsigned, str_equal,
};

verus! {

/// What a recognised token stands for.
#[derive(Clone, Copy, Debug, PartialEq, Eq, Structural)]
pub enum RemoteTarget {
    /// A key event for this key, carrying the value.
    Key(u16),
    /// A hat-axis event on this axis, carrying the value, negated when the flag is set.
    Hat(u16, bool),
}

/// Why a line stops the source.
#[derive(Clone, Copy, Debug, PartialEq, Eq, Structural)]
pub enum RemoteLineError {
    /// A recognised token came without a value.
    MissingValue,
    /// The value is not a decimal number that fits an event value.
    BadValue,
}

/// The recognised tokens, as they read once non-alphanumeric characters are gone.
pub open spec fn remote_target(tok: Seq<char>) -> Option<RemoteTarget> {
    if tok == "BTNWEST"@ { Some(RemoteTarget::Key(BTN_WEST)) }
    else if tok == "BTNSOUTH"@ { Some(RemoteTarget::Key(BTN_SOUTH)) }
    else if tok == "BTNSELECT"@ { Some(RemoteTarget::Key(BTN_SELECT)) }
    else if tok == "BTNSTART"@ { Some(RemoteTarget::Key(BTN_START)) }
    else if tok == "BTNDPADRIGHT"@ { Some(RemoteTarget::Hat(ABS_HAT0X, false)) }
    else if tok == "BTNDPADLEFT"@ { Some(RemoteTarget::Hat(ABS_HAT0X, true)) }
    else if tok == "BTNDPADDOWN"@ { Some(RemoteTarget::Hat(ABS_HAT0Y, false)) }
    else if tok == "BTNDPADUP"@ { Some(RemoteTarget::Hat(ABS_HAT0Y, true)) }
    else if tok == "BTNTR"@ { Some(RemoteTarget::Key(BTN_TR)) }
    else if tok == "BTNTL"@ { Some(RemoteTarget::Key(BTN_TL)) }
    else if tok == "BTNNORTH"@ { Some(RemoteTarget::Key(BTN_NORTH)) }
    else if tok == "BTNTL2"@ { Some(RemoteTarget::Key(BTN_WEST)) }
    else if tok == "BTNTR2"@ { Some(RemoteTarget::Key(BTN_WEST)) }
    else { None }
}

/// Looks a token up among the recognised ones.
pub fn token_target(tok: &str) -> (r: Option<RemoteTarget>)
    ensures
        r == remote_target(tok@),
{
    if str_equal(tok, "BTNWEST") { Some(RemoteTarget::Key(BTN_WEST)) }
    else if str_equal(tok, "BTNSOUTH") { Some(RemoteTarget::Key(BTN_SOUTH)) }
    else if str_equal(tok, "BTNSELECT") { Some(RemoteTarget::Key(BTN_SELECT)) }
    else if str_equal(tok, "BTNSTART") { Some(RemoteTarget::Key(BTN_START)) }
    else if str_equal(tok, "BTNDPADRIGHT") { Some(RemoteTarget::Hat(ABS_HAT0X, false)) }
    else if str_equal(tok, "BTNDPADLEFT") { Some(RemoteTarget::Hat(ABS_HAT0X, true)) }
    else if str_equal(tok, "BTNDPADDOWN") { Some(RemoteTarget::Hat(ABS_HAT0Y, false)) }
    else if str_equal(tok, "BTNDPADUP") { Some(RemoteTarget::Hat(ABS_HAT0Y, true)) }
    else if str_equal(tok, "BTNTR") { Some(RemoteTarget::Key(BTN_TR)) }
    else if str_equal(tok, "BTNTL") { Some(RemoteTarget::Key(BTN_TL)) }
    else if str_equal(tok, "BTNNORTH") { Some(RemoteTarget::Key(BTN_NORTH)) }
    else if str_equal(tok, "BTNTL2") { Some(RemoteTarget::Key(BTN_WEST)) }
    else if str_equal(tok, "BTNTR2") { Some(RemoteTarget::Key(BTN_WEST)) }
    else { None }
}

/// The event a recognised token makes with value `v`.
pub open spec fn target_event(t: RemoteTarget, v: nat) -> Event {
    match t {
        RemoteTarget::Key(k) => Event { event_type: EV_KEY, code: k, value: v as i32 },
        RemoteTarget::Hat(axis, negate) => Event {
            event_type: EV_ABS,
            code: axis,
            value: if negate { -v } else { v as int } as i32,
        },
    }
}

/// The outcome of a filtered line: its first space-separated token picks the
/// event, its second gives the value; unknown tokens are ignored.
pub open spec fn filtered_line_outcome(s: Seq<char>) -> Result<Option<Event>, RemoteLineError> {
    let i = find_char(s, ' ', 0);
    match remote_target(s.subrange(0, i)) {
        None => Ok(None),
        Some(t) => if i == s.len() {
            Err(RemoteLineError::MissingValue)
        } else {
            let rest = s.subrange(i + 1, s.len() as int);
            match parsed_unsigned(rest.subrange(0, find_char(rest, ' ', 0)), i32::MAX as nat) {
                None => Err(RemoteLineError::BadValue),
                Some(v) => Ok(Some(target_event(t, v))),
            }
        },
    }
}

/// Reads one line whose non-alphanumeric, non-white-space characters are
/// already gone.
pub fn parse_filtered_line(s: &str) -> (r: Result<Option<Event>, RemoteLineError>)
    ensures
        r == filtered_line_outcome(s@),
{
    let n = s.unicode_len();
    let i = find_char_from(s, ' ', 0);
    let target = token_target(s.substring_char(0, i));
    match target {
        None => Ok(None),
        Some(t) => {
            if i == n {
                return Err(RemoteLineError::MissingValue);
            }
            let rest = s.substring_char(i + 1, n);
            let j = find_char_from(rest, ' ', 0);
            match parse_unsigned(rest.substring_char(0, j), 0x7fff_ffff) {
                None => Err(RemoteLineError::BadValue),
                Some(v) => {
                    let v32 = v as i32;
                    match t {
                        RemoteTarget::Key(k) => Ok(Some(Event::key(k, v32))),
                        RemoteTarget::Hat(axis, negate) => {
                            if negate {
                                Ok(Some(Event::abs(axis, -v32)))
                            } else {
                                Ok(Some(Event::abs(axis, v32)))
                            }
                        },
                    }
                },
            }
        },
    }
}

/// A character the line filter keeps.
pub open spec fn kept_char(c: char) -> bool {
    letter_or_digit(c) || white_space(c)
}

/// `s` with only the characters the filter keeps.
pub open spec fn kept_chars(s: Seq<char>) -> Seq<char>
    decreases s.len(),
{
    if s.len() == 0 {
        s
    } else if kept_char(s.last()) {
        kept_chars(s.drop_last()).push(s.last())
    } else {
        kept_chars(s.drop_last())
    }
}

/// Drops every character that is neither alphanumeric nor white space.
pub fn filter_line(s: &str) -> (r: String)
    ensures
        r@ == kept_chars(s@),
{
    let n = s.unicode_len();
    let mut out = String::new();
    let mut i: usize = 0;
    while i < n
        invariant
            n == s@.len(),
            i <= n,
            out@ == kept_chars(s@.subrange(0, i as int)),
        decreases n - i,
    {
        let c = s.get_char(i);
        assert(s@.subrange(0, i + 1).drop_last() =~= s@.subrange(0, i as int));
        if is_alphanumeric(c) || is_whitespace(c) {
            out.append(s.substring_char(i, i + 1));
            assert(out@ =~= kept_chars(s@.subrange(0, i + 1)));
        }
        i += 1;
    }
    assert(s@.subrange(0, n as int) =~= s@);
    out
}

/// A line without its terminating newline.
pub open spec fn line_content(s: Seq<char>) -> Seq<char> {
    if s.len() > 0 && s.last() == '\n' {
        s.drop_last()
    } else {
        s
    }
}

/// The outcome of one line as read from the connection, newline included.
pub open spec fn remote_line_outcome(line: Seq<char>) -> Result<Option<Event>, RemoteLineError> {
    filtered_line_outcome(kept_chars(line_content(line)))
}

/// Reads one line of the network source: the event it sends, `Ok(None)` for
/// a line to ignore, or the protocol error that ends the source.
pub fn parse_remote_line(line: &str) -> (r: Result<Option<Event>, RemoteLineError>)
    ensures
        r == remote_line_outcome(line@),
{
    let n = line.unicode_len();
    let content = if n > 0 && line.get_char(n - 1) == '\n' {
        line.substring_char(0, n - 1)
    } else {
        line.substring_char(0, n)
    };
    assert(line@.subrange(0, n as int) =~= line@);
    let filtered = filter_line(content);
    parse_filtered_line(filtered.as_str())
}

} // verus!
