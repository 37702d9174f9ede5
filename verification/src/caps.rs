//! The closed vocabulary of host capabilities a module may request.

use vstd::prelude::*;
use vstd::string::StringExecFns;
use crate::errors::ConfigError;
use crate::strutil::chars_eq;

verus! {

/// One grant of host resource inheritance.  The vocabulary is closed: a
/// token outside it is a hard error during evaluation, never ignored.
#[derive(Debug, Clone, Copy, PartialEq, Eq, Structural)]
pub enum PluginCaps {
    InheritArgs,
    InheritEnv,
    InheritStdin,
    InheritStdio,
    InheritStdout,
    InheritNetwork,
    AllowIpNameLookup,
}

/// The exact, case-sensitive token for a capability.
pub open spec fn spec_cap_token(c: PluginCaps) -> Seq<char> {
    match c {
        PluginCaps::InheritArgs => "InheritArgs"@,
        PluginCaps::InheritEnv => "InheritEnv"@,
        PluginCaps::InheritStdin => "InheritStdin"@,
        PluginCaps::InheritStdio => "InheritStdio"@,
        PluginCaps::InheritStdout => "InheritStdout"@,
        PluginCaps::InheritNetwork => "InheritNetwork"@,
        PluginCaps::AllowIpNameLookup => "AllowIpNameLookup"@,
    }
}

/// Which capability, if any, a token names.
pub open spec fn spec_parse_capability(t: Seq<char>) -> Option<PluginCaps> {
    if t == "InheritArgs"@ {
        Some(PluginCaps::InheritArgs)
    } else if t == "InheritEnv"@ {
        Some(PluginCaps::InheritEnv)
    } else if t == "InheritStdin"@ {
        Some(PluginCaps::InheritStdin)
    } else if t == "InheritStdio"@ {
        Some(PluginCaps::InheritStdio)
    } else if t == "InheritStdout"@ {
        Some(PluginCaps::InheritStdout)
    } else if t == "InheritNetwork"@ {
        Some(PluginCaps::InheritNetwork)
    } else if t == "AllowIpNameLookup"@ {
        Some(PluginCaps::AllowIpNameLookup)
    } else {
        None
    }
}

/// Maps a token to its capability; any token outside the fixed vocabulary
/// is rejected, carrying the offending token.
pub fn parse_capability(token: &str) -> (r: Result<PluginCaps, ConfigError>)
    ensures
        match r {
            Ok(c) => spec_parse_capability(token@) == Some(c),
            Err(e) => spec_parse_capability(token@) is None && (e matches
                ConfigError::UnknownCapability(t) && t@ == token@),
        },
{
    if chars_eq(token, "InheritArgs") {
        Ok(PluginCaps::InheritArgs)
    } else if chars_eq(token, "InheritEnv") {
        Ok(PluginCaps::InheritEnv)
    } else if chars_eq(token, "InheritStdin") {
        Ok(PluginCaps::InheritStdin)
    } else if chars_eq(token, "InheritStdio") {
        Ok(PluginCaps::InheritStdio)
    } else if chars_eq(token, "InheritStdout") {
        Ok(PluginCaps::InheritStdout)
    } else if chars_eq(token, "InheritNetwork") {
        Ok(PluginCaps::InheritNetwork)
    } else if chars_eq(token, "AllowIpNameLookup") {
        Ok(PluginCaps::AllowIpNameLookup)
    } else {
        Err(ConfigError::UnknownCapability(String::from_str(token)))
    }
}

/// The token for a capability, as a fresh string.
pub fn cap_token(c: &PluginCaps) -> (r: String)
    ensures
        r@ == spec_cap_token(*c),
{
    match c {
        PluginCaps::InheritArgs => String::from_str("InheritArgs"),
        PluginCaps::InheritEnv => String::from_str("InheritEnv"),
        PluginCaps::InheritStdin => String::from_str("InheritStdin"),
        PluginCaps::InheritStdio => String::from_str("InheritStdio"),
        PluginCaps::InheritStdout => String::from_str("InheritStdout"),
        PluginCaps::InheritNetwork => String::from_str("InheritNetwork"),
        PluginCaps::AllowIpNameLookup => String::from_str("AllowIpNameLookup"),
    }
}

/// Law: each capability's token parses back to that same capability.
pub proof fn lemma_capability_round_trip(c: PluginCaps)
    ensures
        spec_parse_capability(spec_cap_token(c)) == Some(c),
{
    reveal_strlit("InheritArgs");
    reveal_strlit("InheritEnv");
    reveal_strlit("InheritStdin");
    reveal_strlit("InheritStdio");
    reveal_strlit("InheritStdout");
    reveal_strlit("InheritNetwork");
    reveal_strlit("AllowIpNameLookup");
    assert("InheritArgs"@.len() == 11);
    assert("InheritEnv"@.len() == 10);
    assert("InheritStdin"@.len() == 12);
    assert("InheritStdio"@.len() == 12);
    assert("InheritStdout"@.len() == 13);
    assert("InheritNetwork"@.len() == 14);
    assert("AllowIpNameLookup"@.len() == 17);
    assert("InheritStdin"@[11] == 'n');
    assert("InheritStdio"@[11] == 'o');
    match c {
        PluginCaps::InheritArgs => assert(spec_parse_capability(spec_cap_token(c)) == Some(c)),
        PluginCaps::InheritEnv => assert(spec_parse_capability(spec_cap_token(c)) == Some(c)),
        PluginCaps::InheritStdin => assert(spec_parse_capability(spec_cap_token(c)) == Some(c)),
        PluginCaps::InheritStdio => assert(spec_parse_capability(spec_cap_token(c)) == Some(c)),
        PluginCaps::InheritStdout => assert(spec_parse_capability(spec_cap_token(c)) == Some(c)),
        PluginCaps::InheritNetwork => assert(spec_parse_capability(spec_cap_token(c)) == Some(c)),
        PluginCaps::AllowIpNameLookup => assert(spec_parse_capability(spec_cap_token(c))
            == Some(c)),
    }
}

/// Law: a token that is no capability's token never parses.
pub proof fn lemma_unknown_capability(t: Seq<char>)
    requires
        forall|c: PluginCaps| t != spec_cap_token(c),
    ensures
        spec_parse_capability(t) is None,
{
    assert(t != spec_cap_token(PluginCaps::InheritArgs));
    assert(t != spec_cap_token(PluginCaps::InheritEnv));
    assert(t != spec_cap_token(PluginCaps::InheritStdin));
    assert(t != spec_cap_token(PluginCaps::InheritStdio));
    assert(t != spec_cap_token(PluginCaps::InheritStdout));
    assert(t != spec_cap_token(PluginCaps::InheritNetwork));
    assert(t != spec_cap_token(PluginCaps::AllowIpNameLookup));
}

/// The result of resolving a whole list of tokens: the capabilities in
/// order, or the first token that names none.
pub open spec fn spec_parse_inherits(toks: Seq<Seq<char>>) -> Result<Seq<PluginCaps>, Seq<char>>
    decreases toks.len(),
{
    if toks.len() == 0 {
        Ok(Seq::empty())
    } else {
        match spec_parse_capability(toks[0]) {
            None => Err(toks[0]),
            Some(c) => match spec_parse_inherits(toks.drop_first()) {
                Ok(rest) => Ok(seq![c] + rest),
                Err(t) => Err(t),
            },
        }
    }
}

/// Resolves each token in order; the first token outside the vocabulary
/// aborts the whole list.
pub fn parse_inherits(tokens: &Vec<String>) -> (r: Result<Vec<PluginCaps>, ConfigError>)
    ensures
        match r {
            Ok(v) => spec_parse_inherits(tokens.deep_view()) == Ok::<_, Seq<char>>(v@),
            Err(e) => e matches ConfigError::UnknownCapability(t) && spec_parse_inherits(
                tokens.deep_view(),
            ) == Err::<Seq<PluginCaps>, _>(t@),
        },
{
    let mut out: Vec<PluginCaps> = Vec::new();
    let mut i: usize = 0;
    proof {
        assert(tokens.deep_view().skip(0) =~= tokens.deep_view());
        let full = spec_parse_inherits(tokens.deep_view());
        if full is Ok {
            assert(out@ + full->Ok_0 =~= full->Ok_0);
        }
    }
    while i < tokens.len()
        invariant
            i <= tokens.len(),
            spec_parse_inherits(tokens.deep_view()) == (match spec_parse_inherits(
                tokens.deep_view().skip(i as int),
            ) {
                Ok(rest) => Ok::<_, Seq<char>>(out@ + rest),
                Err(t) => Err::<Seq<PluginCaps>, _>(t),
            }),
        decreases tokens.len() - i,
    {
        proof {
            assert(tokens.deep_view().skip(i as int)[0] == tokens.deep_view()[i as int]);
            assert(tokens.deep_view().skip(i as int).drop_first() =~= tokens.deep_view().skip(
                i + 1,
            ));
        }
        match parse_capability(tokens[i].as_str()) {
            Ok(c) => {
                let ghost old_out = out@;
                out.push(c);
                proof {
                    let tail = spec_parse_inherits(tokens.deep_view().skip(i + 1));
                    if tail is Ok {
                        assert(old_out + (seq![c] + tail->Ok_0) =~= out@ + tail->Ok_0);
                    }
                }
            },
            Err(e) => {
                return Err(e);
            },
        }
        i += 1;
    }
    proof {
        assert(tokens.deep_view().skip(tokens.len() as int) =~= Seq::<Seq<char>>::empty());
        assert(out@ + Seq::<PluginCaps>::empty() =~= out@);
    }
    Ok(out)
}

} // verus!
