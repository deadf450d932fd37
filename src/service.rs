//! Methods of the small request/response services that run beside the
//! input pipeline.

use vstd::prelude::*;
use crate::text::{find_char, find_char_from, has_substring, str_contains};

verus! {

/// The request line for calling `method` with `args`: the method and each
/// argument, separated by `:`, then a newline.
pub open spec fn call_line(method: Seq<char>, args: Seq<String>, n: int) -> Seq<char>
    decreases n,
{
    if n <= 0 {
        method
    } else {
        call_line(method, args, n - 1) + ":"@ + args[n - 1]@
    }
}

/// Encodes a call of `method` with `args` as one request line.
pub fn encode_call(method: &str, args: &Vec<String>) -> (r: String)
    ensures
        r@ == call_line(method@, args@, args@.len() as int) + "\n"@,
{
    let mut r = String::from_str(method);
    let mut i: usize = 0;
    while i < args.len()
        invariant
            i <= args@.len(),
            r@ == call_line(method@, args@, i as int),
        decreases args@.len() - i,
    {
        r.append(":");
        r.append(args[i].as_str());
        i += 1;
    }
    r.append("\n");
    r
}

/// The fields of `s` split at `:` with empty ones dropped, as far as they are
/// complete, and the field still being read.
pub open spec fn fields_so_far(s: Seq<char>) -> (Seq<Seq<char>>, Seq<char>)
    decreases s.len(),
{
    if s.len() == 0 {
        (Seq::empty(), Seq::empty())
    } else {
        let (done, cur) = fields_so_far(s.drop_last());
        if s.last() == ':' {
            if cur.len() > 0 {
                (done.push(cur), Seq::empty())
            } else {
                (done, Seq::empty())
            }
        } else {
            (done, cur.push(s.last()))
        }
    }
}

/// The non-empty `:`-separated fields of `s`.
pub open spec fn fields(s: Seq<char>) -> Seq<Seq<char>> {
    let (done, cur) = fields_so_far(s);
    if cur.len() > 0 {
        done.push(cur)
    } else {
        done
    }
}

/// A request line as the server reads it: a line without any `:` loses its
/// last character and gains `:` and a newline, so that it names a method
/// without arguments.
pub open spec fn normalized_request(line: Seq<char>) -> Seq<char> {
    if find_char(line, ':', 0) < line.len() {
        line
    } else if line.len() == 0 {
        ":\n"@
    } else {
        line.drop_last() + ":\n"@
    }
}

/// Splits `s` into its non-empty `:`-separated fields.
pub fn split_fields(s: &str) -> (r: Vec<String>)
    ensures
        r@.map_values(|f: String| f@) == fields(s@),
{
    let n = s.unicode_len();
    let mut done: Vec<String> = Vec::new();
    let mut cur = String::new();
    let mut i: usize = 0;
    while i < n
        invariant
            n == s@.len(),
            i <= n,
            (done@.map_values(|f: String| f@), cur@) == fields_so_far(s@.subrange(0, i as int)),
        decreases n - i,
    {
        let c = s.get_char(i);
        assert(s@.subrange(0, i + 1).drop_last() =~= s@.subrange(0, i as int));
        assert(s@.subrange(0, i + 1).last() == c);
        if c == ':' {
            if cur.unicode_len() > 0 {
                let ghost before = done@;
                done.push(cur);
                assert(done@.map_values(|f: String| f@) =~= before.map_values(|f: String| f@).push(
                    fields_so_far(s@.subrange(0, i as int)).1,
                ));
                cur = String::new();
            }
        } else {
            cur.append(s.substring_char(i, i + 1));
            assert(cur@ =~= fields_so_far(s@.subrange(0, i as int)).1.push(c));
        }
        i += 1;
    }
    assert(s@.subrange(0, n as int) =~= s@);
    if cur.unicode_len() > 0 {
        let ghost before = done@;
        done.push(cur);
        assert(done@.map_values(|f: String| f@) =~= before.map_values(|f: String| f@).push(
            fields_so_far(s@).1,
        ));
    }
    done
}

/// Reads one request line as received: the method and its arguments, or
/// `None` when the line holds no field at all.
pub fn decode_request(line: &str) -> (r: Option<(String, Vec<String>)>)
    ensures
        fields(normalized_request(line@)).len() == 0 ==> r is None,
        fields(normalized_request(line@)).len() > 0 ==> r is Some
            && (r->0).0@ == fields(normalized_request(line@))[0]
            && (r->0).1@.map_values(|f: String| f@) == fields(normalized_request(line@)).drop_first(),
{
    let n = line.unicode_len();
    let mut normalized = String::new();
    if find_char_from(line, ':', 0) < n {
        normalized.append(line);
    } else if n == 0 {
        normalized.append(":\n");
    } else {
        normalized.append(line.substring_char(0, n - 1));
        normalized.append(":\n");
    }
    assert(normalized@ =~= normalized_request(line@));
    let mut argv = split_fields(normalized.as_str());
    if argv.len() == 0 {
        return None;
    }
    let ghost all = argv@;
    let method = argv.remove(0);
    assert(argv@.map_values(|f: String| f@) =~= all.map_values(|f: String| f@).drop_first());
    Some((method, argv))
}

/// A service as it registers itself: its name and the methods it answers.
pub struct ServiceRegistration {
    pub name: String,
    pub methods: Vec<String>,
}

/// The example service's greeting: `hello <first argument>`, or
/// `hello world` when there is none.
pub fn append_hello(args: Vec<String>) -> (r: String)
    ensures
        args@.len() > 0 ==> r@ == "hello "@ + args@[0]@,
        args@.len() == 0 ==> r@ == "hello world"@,
{
    if args.len() > 0 {
        let mut r = String::from_str("hello ");
        r.append(args[0].as_str());
        r
    } else {
        String::from_str("hello world")
    }
}

/// The example service's liveness answer.
pub fn ping() -> (r: String)
    ensures
        r@ == "pong"@,
{
    String::from_str("pong")
}

/// The executable that provides `service`.
pub fn service_executable(service: &str) -> (r: String)
    ensures
        r@ == "/bin/srv/"@ + service@,
{
    let mut r = String::from_str("/bin/srv/");
    r.append(service);
    r
}

/// Whether `service` already runs: some process command line mentions it.
pub fn is_launched(cmdlines: &Vec<String>, service: &str) -> (r: bool)
    ensures
        r == exists|i: int| 0 <= i < cmdlines@.len() && has_substring((#[trigger] cmdlines@[i])@, service@),
{
    let mut i: usize = 0;
    while i < cmdlines.len()
        invariant
            i <= cmdlines@.len(),
            forall|j: int| 0 <= j < i ==> !has_substring((#[trigger] cmdlines@[j])@, service@),
        decreases cmdlines@.len() - i,
    {
        if str_contains(cmdlines[i].as_str(), service) {
            return true;
        }
        i += 1;
    }
    false
}

/// The registration the init system's service starts with: the service
/// `init`, answering `launch_service`.
pub fn start_rservice() -> (r: ServiceRegistration)
    ensures
        r.name@ == "init"@,
        r.methods@.len() == 1,
        r.methods@[0]@ == "launch_service"@,
{
    ServiceRegistration {
        name: String::from_str("init"),
        methods: vec![String::from_str("launch_service")],
    }
}

} // verus!
