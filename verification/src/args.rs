//! Arguments for the programs that the agent runs.

use crate::text;
use vstd::prelude::*;
use vstd::string::StringExecFns;

verus! {

/// The long form of the flag `name`.
pub open spec fn long(name: Seq<char>) -> Seq<char> {
    "--"@ + name
}

/// The long form of the flag `name`.
pub fn long_flag(name: &str) -> (res: String)
    ensures
        res@ == long(name@),
{
    let mut flag = "--".to_owned();
    flag.append(name);
    flag
}

/// The arguments with `flag` after them if it is set.
pub open spec fn with_switch(args: Seq<String>, flag: String, set: bool) -> Seq<String> {
    if set {
        args.push(flag)
    } else {
        args
    }
}

/// The arguments with `flag` and its value after them if there is one.
pub open spec fn with_option(args: Seq<String>, flag: String, value: Option<String>) -> Seq<
    String,
> {
    match value {
        Some(value) => args.push(flag).push(value),
        None => args,
    }
}

/// Adds `flag` to the arguments if it is set.
pub fn push_switch(args: &mut Vec<String>, flag: String, set: bool)
    ensures
        final(args)@ == with_switch(old(args)@, flag, set),
{
    if set {
        args.push(flag);
    }
}

/// Adds `flag` and its value to the arguments if there is one.
pub fn push_option(args: &mut Vec<String>, flag: String, value: Option<String>)
    ensures
        final(args)@ == with_option(old(args)@, flag, value),
{
    match value {
        Some(value) => {
            args.push(flag);
            args.push(value);
        },
        None => {},
    }
}

/// The certificate and the key of a listener were not given together.
#[derive(Debug, Clone, Copy, PartialEq, Eq, Structural)]
pub struct UnpairedTls;

impl UnpairedTls {
    /// The message that tells an operator of the error.
    pub fn message(&self) -> (res: String)
        ensures
            res@ == "--tls-cert and --tls-key must be supplied together"@,
    {
        "--tls-cert and --tls-key must be supplied together".to_owned()
    }
}

/// The certificate and the key of a listener, which are given together or not at all.
pub fn tls_pair<T>(cert: Option<T>, key: Option<T>) -> (res: Result<Option<(T, T)>, UnpairedTls>)
    ensures
        res == match (cert, key) {
            (Some(cert), Some(key)) => Ok::<Option<(T, T)>, UnpairedTls>(Some((cert, key))),
            (None, None) => Ok(None),
            _ => Err(UnpairedTls),
        },
{
    match (cert, key) {
        (Some(cert), Some(key)) => Ok(Some((cert, key))),
        (None, None) => Ok(None),
        _ => Err(UnpairedTls),
    }
}

/// A long flag is two dashes, then its name.
pub proof fn law_long_flag(name: Seq<char>)
    ensures
        text::is_wrapped(long(name), seq!['-', '-'], name, seq![]),
{
    reveal_strlit("--");
    assert("--"@ =~= seq!['-', '-']);
    text::lemma_wrapped(seq!['-', '-'], name, seq![]);
    assert(long(name) =~= seq!['-', '-'] + name + seq![]);
}

/// Adding flags keeps the arguments that are there, in order, and adds one argument for a switch
/// that is set, two for an option with a value, and none otherwise.
pub proof fn law_flags_are_added(args: Seq<String>, flag: String, set: bool, value: Option<String>)
    ensures
        args.is_prefix_of(with_switch(args, flag, set)),
        set ==> with_switch(args, flag, set).len() == args.len() + 1 && with_switch(
            args,
            flag,
            set,
        ).last() == flag,
        !set ==> with_switch(args, flag, set).len() == args.len(),
        args.is_prefix_of(with_option(args, flag, value)),
        value matches Some(given) ==> with_option(args, flag, value).len() == args.len() + 2
            && with_option(args, flag, value)[args.len() as int] == flag && with_option(
            args,
            flag,
            value,
        ).last() == given,
        value is None ==> with_option(args, flag, value).len() == args.len(),
{
}

} // verus!
