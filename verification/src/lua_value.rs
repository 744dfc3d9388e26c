//! Lua values as the debug log prints them.
use vstd::prelude::*;

use crate::decimal::{push_signed_decimal, signed_decimal};

verus! {

/// A Lua value, as far as the debug log shows it.
#[derive(Debug)]
pub enum LuaValue {
    Nil,
    Boolean(bool),
    LightUserData,
    Integer(i64),
    /// A number, with the text Rust's `Display` gives it.
    Number(String),
    /// A string: its text, or `None` where it is not valid UTF-8.
    Str(Option<String>),
    /// A table: its key and value pairs, in the order Lua walks them.
    Table(Vec<(LuaValue, LuaValue)>),
    Function,
    Thread,
    UserData,
    /// An error value, with its message.
    Error(String),
}

/// `n` levels of indentation, two spaces each.
pub open spec fn indentation(n: nat) -> Seq<char>
    decreases n,
{
    if n == 0 {
        Seq::empty()
    } else {
        indentation((n - 1) as nat) + "  "@
    }
}

/// The printout of a value at the indentation level `indent`; `None` where a string in it
/// is not valid UTF-8.
pub open spec fn pretty(v: LuaValue, indent: nat) -> Option<Seq<char>>
    decreases v, 0nat,
{
    match v {
        LuaValue::Nil => Some("nil"@),
        LuaValue::Boolean(b) => Some(
            if b {
                "true"@
            } else {
                "false"@
            },
        ),
        LuaValue::LightUserData => Some(Seq::empty()),
        LuaValue::Integer(i) => Some(signed_decimal(i as int)),
        LuaValue::Number(t) => Some(t@),
        LuaValue::Str(s) => match s {
            Some(t) => Some("\""@ + t@ + "\""@),
            None => None,
        },
        LuaValue::Table(entries) => match pretty_entries(entries, entries@.len(), indent) {
            Some(body) => Some("{\n"@ + body + indentation(indent) + "}"@),
            None => None,
        },
        LuaValue::Function => Some("[function]"@),
        LuaValue::Thread => Some(Seq::empty()),
        LuaValue::UserData => Some(Seq::empty()),
        LuaValue::Error(m) => Some(m@),
    }
}

/// The printout of the first `n` entries of a table, one line each.
pub open spec fn pretty_entries(entries: Vec<(LuaValue, LuaValue)>, n: nat, indent: nat) -> Option<
    Seq<char>,
>
    decreases entries, n,
{
    if n == 0 {
        Some(Seq::empty())
    } else if n > entries@.len() {
        None
    } else {
        let e = entries@[n - 1];
        match (
            pretty_entries(entries, (n - 1) as nat, indent),
            pretty(e.0, indent + 1),
            pretty(e.1, indent + 1),
        ) {
            (Some(before), Some(k), Some(val)) => Some(
                before + indentation(indent + 1) + k + " = "@ + val + ",\n"@,
            ),
            _ => None,
        }
    }
}

/// How deeply tables are nested in a value.
pub open spec fn depth(v: LuaValue) -> nat
    decreases v, 0nat,
{
    match v {
        LuaValue::Table(entries) => 1 + depth_entries(entries, entries@.len()),
        _ => 0,
    }
}

/// How deeply tables are nested in the first `n` entries of a table.
pub open spec fn depth_entries(entries: Vec<(LuaValue, LuaValue)>, n: nat) -> nat
    decreases entries, n,
{
    if n == 0 || n > entries@.len() {
        0
    } else {
        let e = entries@[n - 1];
        let a = depth_entries(entries, (n - 1) as nat);
        let b = depth(e.0);
        let c = depth(e.1);
        if a >= b && a >= c {
            a
        } else if b >= c {
            b
        } else {
            c
        }
    }
}

proof fn lemma_depth_entries(entries: Vec<(LuaValue, LuaValue)>, i: nat, n: nat)
    requires
        i < n <= entries@.len(),
    ensures
        depth(entries@[i as int].0) <= depth_entries(entries, n),
        depth(entries@[i as int].1) <= depth_entries(entries, n),
    decreases n,
{
    if i < n - 1 {
        lemma_depth_entries(entries, i, (n - 1) as nat);
    }
}

proof fn lemma_entries_fail(entries: Vec<(LuaValue, LuaValue)>, m: nat, n: nat, indent: nat)
    requires
        m <= n <= entries@.len(),
        pretty_entries(entries, m, indent) is None,
    ensures
        pretty_entries(entries, n, indent) is None,
    decreases n,
{
    if m < n {
        lemma_entries_fail(entries, m, (n - 1) as nat, indent);
    }
}

fn push_indentation(s: &mut String, n: usize)
    ensures
        final(s)@ == old(s)@ + indentation(n as nat),
{
    let mut i: usize = 0;
    while i < n
        invariant
            i <= n,
            s@ == old(s)@ + indentation(i as nat),
        decreases n - i,
    {
        s.append("  ");
        proof {
            assert(indentation((i + 1) as nat) == indentation(i as nat) + "  "@);
        }
        assert(s@ =~= old(s)@ + indentation((i + 1) as nat));
        i = i + 1;
    }
}

/// The refusal to print a string that is not valid UTF-8.
#[derive(Clone, Copy, Debug, PartialEq, Eq, Structural)]
pub struct InvalidString;

/// Prints a Lua value for the debug log at the indentation level `indent`: tables one
/// entry per line, nested tables indented by two more spaces, strings in quotes, functions
/// as `[function]`.
pub fn pretty_print_value(val: &LuaValue, indent: usize) -> (r: Result<String, InvalidString>)
    requires
        indent + depth(*val) <= usize::MAX,
    ensures
        match pretty(*val, indent as nat) {
            Some(t) => r matches Ok(s) && s@ == t,
            None => r is Err,
        },
    decreases val,
{
    match val {
        LuaValue::Nil => Ok(String::from_str("nil")),
        LuaValue::Boolean(b) => Ok(
            if *b {
                String::from_str("true")
            } else {
                String::from_str("false")
            },
        ),
        LuaValue::LightUserData => Ok(String::new()),
        LuaValue::Integer(i) => {
            let mut s = String::new();
            push_signed_decimal(&mut s, *i);
            assert(s@ =~= signed_decimal(*i as int));
            Ok(s)
        },
        LuaValue::Number(t) => Ok(t.clone()),
        LuaValue::Str(o) => match o {
            Some(t) => {
                let mut s = String::from_str("\"");
                s.append(t.as_str());
                s.append("\"");
                Ok(s)
            },
            None => Err(InvalidString),
        },
        LuaValue::Table(entries) => {
            let mut s = String::from_str("{\n");
            let n = entries.len();
            let mut i: usize = 0;
            while i < n
                invariant
                    n == entries@.len(),
                    i <= n,
                    indent + 1 + depth_entries(*entries, n as nat) <= usize::MAX,
                    *val == LuaValue::Table(*entries),
                    pretty_entries(*entries, i as nat, indent as nat) matches Some(body) && s@
                        == "{\n"@ + body,
                decreases n - i,
            {
                proof {
                    lemma_depth_entries(*entries, i as nat, n as nat);
                    assert(decreases_to!(*val => *entries));
                    assert(decreases_to!(*entries => entries@));
                    assert(decreases_to!(entries@ => entries@[i as int]));
                    assert(decreases_to!(entries@[i as int] => entries@[i as int].0));
                    assert(decreases_to!(entries@[i as int] => entries@[i as int].1));
                    assert(decreases_to!(*val => entries@[i as int].0));
                    assert(decreases_to!(*val => entries@[i as int].1));
                }
                let key = match pretty_print_value(&entries[i].0, indent + 1) {
                    Ok(k) => k,
                    Err(e) => {
                        proof {
                            lemma_entries_fail(*entries, (i + 1) as nat, n as nat, indent as nat);
                        }
                        return Err(e);
                    },
                };
                let value = match pretty_print_value(&entries[i].1, indent + 1) {
                    Ok(v) => v,
                    Err(e) => {
                        proof {
                            lemma_entries_fail(*entries, (i + 1) as nat, n as nat, indent as nat);
                        }
                        return Err(e);
                    },
                };
                push_indentation(&mut s, indent + 1);
                s.append(key.as_str());
                s.append(" = ");
                s.append(value.as_str());
                s.append(",\n");
                proof {
                    let body = pretty_entries(*entries, i as nat, indent as nat)->Some_0;
                    assert(s@ =~= "{\n"@ + (body + indentation((indent + 1) as nat) + key@
                        + " = "@ + value@ + ",\n"@));
                }
                i = i + 1;
            }
            push_indentation(&mut s, indent);
            s.append("}");
            proof {
                let body = pretty_entries(*entries, n as nat, indent as nat)->Some_0;
                assert(s@ =~= "{\n"@ + body + indentation(indent as nat) + "}"@);
            }
            Ok(s)
        },
        LuaValue::Function => Ok(String::from_str("[function]")),
        LuaValue::Thread => Ok(String::new()),
        LuaValue::UserData => Ok(String::new()),
        LuaValue::Error(m) => Ok(m.clone()),
    }
}

} // verus!
