//! Wire format of command names.
//!
//! A routable command is one string that encodes both the namespace prefix
//! and the method name: `"TauRPC__<prefix>.<method>"`, or `"TauRPC__<method>"`
//! for the root (unprefixed) namespace. The marker and the separator are
//! implementation constants; client call sites are generated to match them
//! exactly. The prefix itself may contain separators (`"api.ui"`), so the
//! method name is always the segment after the *last* separator.

use vstd::prelude::*;

verus! {

/// The reserved routing marker that every routable command starts with.
pub open spec fn rpc_marker() -> Seq<char> {
    seq!['T', 'a', 'u', 'R', 'P', 'C', '_', '_']
}

/// Whether a raw command string starts with the routing marker.
pub open spec fn has_marker(cmd: Seq<char>) -> bool {
    cmd.len() >= 8 && cmd.take(8) == rpc_marker()
}

/// The command with the routing marker stripped.
pub open spec fn rest_of(cmd: Seq<char>) -> Seq<char> {
    cmd.skip(8)
}

/// The namespace prefix of a marker-stripped command: everything before the
/// last separator, or the empty string when there is no separator.
pub open spec fn command_prefix(rest: Seq<char>) -> Seq<char> {
    match rest.index_of_last('.') {
        Some(i) => rest.take(i),
        None => Seq::empty(),
    }
}

/// The method name of a marker-stripped command: everything after the last
/// separator, or the whole string when there is no separator.
pub open spec fn command_method(rest: Seq<char>) -> Seq<char> {
    match rest.index_of_last('.') {
        Some(i) => rest.skip(i + 1),
        None => rest,
    }
}

/// A namespace-qualified name: `prefix.method`, or just `method` for the
/// root namespace.
pub open spec fn qualified_name(prefix: Seq<char>, method: Seq<char>) -> Seq<char> {
    if prefix.len() == 0 {
        method
    } else {
        prefix + seq!['.'] + method
    }
}

/// A command name split into its namespace prefix and its method name.
pub struct CommandParts {
    pub prefix: String,
    pub method: String,
}

/// Whether `cmd` starts with the reserved routing marker `TauRPC__`.
pub fn starts_with_marker(cmd: &str) -> (r: bool)
    ensures
        r == has_marker(cmd@),
{
    let n = cmd.unicode_len();
    if n < 8 {
        return false;
    }
    let r = cmd.get_char(0) == 'T' && cmd.get_char(1) == 'a' && cmd.get_char(2) == 'u'
        && cmd.get_char(3) == 'R' && cmd.get_char(4) == 'P' && cmd.get_char(5) == 'C'
        && cmd.get_char(6) == '_' && cmd.get_char(7) == '_';
    proof {
        if r {
            assert(cmd@.take(8) =~= rpc_marker());
        } else {
            if cmd@.take(8) == rpc_marker() {
                assert(cmd@[0] == cmd@.take(8)[0]);
                assert(cmd@[1] == cmd@.take(8)[1]);
                assert(cmd@[2] == cmd@.take(8)[2]);
                assert(cmd@[3] == cmd@.take(8)[3]);
                assert(cmd@[4] == cmd@.take(8)[4]);
                assert(cmd@[5] == cmd@.take(8)[5]);
                assert(cmd@[6] == cmd@.take(8)[6]);
                assert(cmd@[7] == cmd@.take(8)[7]);
            }
        }
    }
    r
}

/// Splits a raw command into namespace prefix and method name, or returns
/// `None` when the command does not start with the routing marker and so
/// does not belong to this protocol at all.
pub fn parse_command(cmd: &str) -> (r: Option<CommandParts>)
    ensures
        match r {
            None => !has_marker(cmd@),
            Some(p) => has_marker(cmd@) && p.prefix@ == command_prefix(rest_of(cmd@))
                && p.method@ == command_method(rest_of(cmd@)),
        },
{
    if !starts_with_marker(cmd) {
        return None;
    }
    let n = cmd.unicode_len();
    let ghost rest = rest_of(cmd@);
    let mut i: usize = n;
    let mut dot: Option<usize> = None;
    while i > 8 && dot.is_none()
        invariant
            8 <= i <= n,
            n == cmd@.len(),
            has_marker(cmd@),
            rest == rest_of(cmd@),
            match dot {
                Some(d) => 8 <= d < n && cmd@[d as int] == '.' && forall|j: int|
                    d < j < n ==> cmd@[j] != '.',
                None => forall|j: int| i <= j < n ==> cmd@[j] != '.',
            },
        decreases i,
    {
        i = i - 1;
        if cmd.get_char(i) == '.' {
            dot = Some(i);
        }
    }
    proof {
        assert forall|k: int| 0 <= k < rest.len() implies rest[k] == cmd@[k + 8] by {}
        rest.index_of_last_ensures('.');
        match dot {
            Some(d) => {
                assert(rest[d - 8] == '.');
                assert(rest.contains('.'));
                let idx = rest.index_of_last('.').unwrap();
                assert(rest[idx] == '.');
                if idx > d - 8 {
                    assert(cmd@[idx + 8] == '.');
                } else if idx < d - 8 {
                    assert(rest[d - 8] != '.');
                }
                assert(idx == d - 8);
            },
            None => {
                if rest.contains('.') {
                    let w = choose|w: int| 0 <= w < rest.len() && rest[w] == '.';
                    assert(cmd@[w + 8] == '.');
                }
                assert(rest.index_of_last('.') is None);
            },
        }
    }
    match dot {
        Some(d) => {
            let prefix = cmd.substring_char(8, d).to_owned();
            let method = cmd.substring_char(d + 1, n).to_owned();
            proof {
                assert(prefix@ =~= command_prefix(rest));
                assert(method@ =~= command_method(rest));
            }
            Some(CommandParts { prefix, method })
        },
        None => {
            let prefix = String::new();
            let method = cmd.substring_char(8, n).to_owned();
            proof {
                assert(prefix@ =~= command_prefix(rest));
                assert(method@ =~= command_method(rest));
            }
            Some(CommandParts { prefix, method })
        },
    }
}

/// Builds the namespace-qualified name `prefix.method` (or just `method`
/// when the prefix is empty), as used for event names and, after the
/// routing marker, for command names.
pub fn build_qualified_name(prefix: &str, method: &str) -> (r: String)
    ensures
        r@ == qualified_name(prefix@, method@),
{
    if prefix.unicode_len() == 0 {
        method.to_owned()
    } else {
        let mut s = prefix.to_owned();
        s.append(".");
        s.append(method);
        proof {
            reveal_strlit(".");
            assert("."@ =~= seq!['.']);
            assert(s@ =~= qualified_name(prefix@, method@));
        }
        s
    }
}

/// Builds the full wire-format command name `TauRPC__<prefix>.<method>`,
/// exactly as generated client call sites produce it.
pub fn build_command(prefix: &str, method: &str) -> (r: String)
    ensures
        r@ == rpc_marker() + qualified_name(prefix@, method@),
{
    let mut s = String::from_str("TauRPC__");
    let q = build_qualified_name(prefix, method);
    s.append(q.as_str());
    proof {
        reveal_strlit("TauRPC__");
        assert("TauRPC__"@ =~= rpc_marker());
        assert(s@ =~= rpc_marker() + qualified_name(prefix@, method@));
    }
    s
}

/// Splitting a well-formed command name recovers exactly the prefix and the
/// method it was built from, provided the method name itself contains no
/// separator. This is what lets every worker re-derive the method name from
/// the full original command that the router forwarded unchanged.
pub proof fn lemma_command_roundtrip(prefix: Seq<char>, method: Seq<char>)
    requires
        !method.contains('.'),
    ensures
        has_marker(rpc_marker() + qualified_name(prefix, method)),
        rest_of(rpc_marker() + qualified_name(prefix, method)) == qualified_name(prefix, method),
        command_prefix(qualified_name(prefix, method)) == prefix,
        command_method(qualified_name(prefix, method)) == method,
{
    let q = qualified_name(prefix, method);
    let cmd = rpc_marker() + q;
    assert(cmd.take(8) =~= rpc_marker());
    assert(rest_of(cmd) =~= q);
    q.index_of_last_ensures('.');
    if prefix.len() == 0 {
        if q.contains('.') {
            let w = choose|w: int| 0 <= w < q.len() && q[w] == '.';
            assert(method[w] == '.');
        }
        assert(q.index_of_last('.') is None);
        assert(command_prefix(q) =~= prefix);
    } else {
        let p = prefix.len() as int;
        assert(q[p] == '.');
        assert(q.contains('.'));
        assert forall|j: int| p < j < q.len() implies q[j] != '.' by {
            assert(q[j] == method[j - p - 1]);
            if method[j - p - 1] == '.' {
                assert(method.contains('.'));
            }
        }
        let idx = q.index_of_last('.').unwrap();
        assert(q[idx] == '.');
        assert(idx == p);
        assert(command_prefix(q) =~= prefix);
        assert(command_method(q) =~= method);
    }
}

/// The router's diagnostic for a command whose namespace prefix is not
/// registered. It quotes the full original, unstripped command string.
pub open spec fn not_found_msg(cmd: Seq<char>) -> Seq<char> {
    "`"@ + cmd + "` not found"@
}

/// Builds the router's "not found" rejection message for `cmd`.
pub fn format_not_found(cmd: &str) -> (r: String)
    ensures
        r@ == not_found_msg(cmd@),
{
    let mut s = String::from_str("`");
    s.append(cmd);
    s.append("` not found");
    proof {
        assert(s@ =~= not_found_msg(cmd@));
    }
    s
}

/// A worker's diagnostic for a command whose method name is not in its
/// dispatch table. It quotes the full original command string.
pub open spec fn method_not_found_msg(cmd: Seq<char>) -> Seq<char> {
    "message `"@ + cmd + "` not found"@
}

/// Builds a worker's "method not found" rejection message for `cmd`.
pub fn format_method_not_found(cmd: &str) -> (r: String)
    ensures
        r@ == method_not_found_msg(cmd@),
{
    let mut s = String::from_str("message `");
    s.append(cmd);
    s.append("` not found");
    proof {
        assert(s@ =~= method_not_found_msg(cmd@));
    }
    s
}

/// The diagnostic for an invocation discarded by a lossy queue under
/// backpressure. Distinguishable from both routing errors above, and it
/// quotes the full original command string of the dropped invocation.
pub open spec fn overloaded_msg(cmd: Seq<char>) -> Seq<char> {
    "message `"@ + cmd + "` dropped: worker overloaded"@
}

/// Builds the "dropped under overload" rejection message for `cmd`.
pub fn format_overloaded(cmd: &str) -> (r: String)
    ensures
        r@ == overloaded_msg(cmd@),
{
    let mut s = String::from_str("message `");
    s.append(cmd);
    s.append("` dropped: worker overloaded");
    proof {
        assert(s@ =~= overloaded_msg(cmd@));
    }
    s
}

/// String equality by contents. The result equals view equality, which lets
/// callers reason about lookups by name.
pub fn str_eq(a: &str, b: &str) -> (r: bool)
    ensures
        r == (a@ == b@),
{
    let sa = a.to_owned();
    let sb = b.to_owned();
    sa == sb
}

} // verus!
