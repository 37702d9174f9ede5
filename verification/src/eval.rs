//! Evaluation of the restricted module-description language.  The
//! builtins are fixed — `module`, `capabilities`, `mount`, `file_perms`,
//! `dir_perms`, the capability token constants and the booleans — and the
//! declarations are data, not programs: every call takes positional
//! arguments, then keyword arguments, and evaluation fails fast on the
//! first offence.

use vstd::prelude::*;
use vstd::string::StringExecFns;
use crate::caps::{parse_inherits, spec_parse_inherits};
use crate::descriptor::{dedup_caps, spec_dedup_caps, CapSetV, CloudModule, ModuleV,
    PluginCapabilities};
use crate::errors::{ConfigErrV, ConfigError};
use crate::lex::{lex, spec_lex, Token, TokenV};
use crate::mounts::{spec_mount_of, parse_mount, DirPerms, FilePerms, MountV, PluginMount};
use crate::strutil::chars_eq;

verus! {

/// A permission flag that was never set grants nothing.
pub open spec fn spec_opt_bool(o: Option<bool>) -> bool {
    match o {
        Some(b) => b,
        None => false,
    }
}

/// A boolean literal: one of the builtin truth names.
pub open spec fn spec_parse_bool(toks: Seq<TokenV>, i: int) -> Option<(bool, int)> {
    if 0 <= i < toks.len() && toks[i] is Ident {
        let n = toks[i]->Ident_0;
        if n == "True"@ || n == "true"@ {
            Some((true, i + 1))
        } else if n == "False"@ || n == "false"@ {
            Some((false, i + 1))
        } else {
            None
        }
    } else {
        None
    }
}

fn parse_bool(toks: &Vec<Token>, i: usize) -> (r: Option<(bool, usize)>)
    requires
        i <= toks.len(),
    ensures
        match r {
            Some((b, j)) => spec_parse_bool(toks.deep_view(), i as int) == Some((b, j as int))
                && i < j <= toks.len(),
            None => spec_parse_bool(toks.deep_view(), i as int) is None,
        },
{
    if i < toks.len() {
        match &toks[i] {
            Token::Ident(n) => {
                if chars_eq(n.as_str(), "True") || chars_eq(n.as_str(), "true") {
                    Some((true, i + 1))
                } else if chars_eq(n.as_str(), "False") || chars_eq(n.as_str(), "false") {
                    Some((false, i + 1))
                } else {
                    None
                }
            },
            _ => None,
        }
    } else {
        None
    }
}

/// One argument of a permission call: an optional keyword, then a boolean
/// literal, filling the matching slot exactly once.  Positional arguments
/// may not follow a keyword argument.
pub open spec fn spec_parse_bool_arg_one(
    toks: Seq<TokenV>,
    i: int,
    k0: Seq<char>,
    k1: Seq<char>,
    a0: Option<bool>,
    a1: Option<bool>,
    np: int,
    kw: bool,
) -> Result<((Option<bool>, Option<bool>, int, bool), int), ()> {
    if 0 <= i && i + 1 < toks.len() && toks[i] is Ident && toks[i + 1] is Assign {
        let n = toks[i]->Ident_0;
        match spec_parse_bool(toks, i + 2) {
            None => Err(()),
            Some((b, j)) => if n == k0 {
                if a0 is Some {
                    Err(())
                } else {
                    Ok(((Some(b), a1, np, true), j))
                }
            } else if n == k1 {
                if a1 is Some {
                    Err(())
                } else {
                    Ok(((a0, Some(b), np, true), j))
                }
            } else {
                Err(())
            },
        }
    } else if kw {
        Err(())
    } else {
        match spec_parse_bool(toks, i) {
            None => Err(()),
            Some((b, j)) => if np == 0 {
                if a0 is Some {
                    Err(())
                } else {
                    Ok(((Some(b), a1, 1, false), j))
                }
            } else if np == 1 {
                if a1 is Some {
                    Err(())
                } else {
                    Ok(((a0, Some(b), 2, false), j))
                }
            } else {
                Err(())
            },
        }
    }
}

fn parse_bool_arg_one(
    toks: &Vec<Token>,
    i: usize,
    k0: &str,
    k1: &str,
    a0: Option<bool>,
    a1: Option<bool>,
    np: usize,
    kw: bool,
) -> (r: Result<((Option<bool>, Option<bool>, usize, bool), usize), ConfigError>)
    requires
        i <= toks.len(),
        np <= 2,
    ensures
        match r {
            Ok(((b0, b1, np2, kw2), j)) => spec_parse_bool_arg_one(
                toks.deep_view(),
                i as int,
                k0@,
                k1@,
                a0,
                a1,
                np as int,
                kw,
            ) == Ok::<_, ()>(((b0, b1, np2 as int, kw2), j as int)) && i < j <= toks.len()
                && np2 <= 2,
            Err(e) => e == ConfigError::MountInterpretation && spec_parse_bool_arg_one(
                toks.deep_view(),
                i as int,
                k0@,
                k1@,
                a0,
                a1,
                np as int,
                kw,
            ) is Err,
        },
{
    let kw_arg = i < toks.len() && i + 1 < toks.len() && (match &toks[i] {
        Token::Ident(_) => true,
        _ => false,
    }) && (match &toks[i + 1] {
        Token::Assign => true,
        _ => false,
    });
    if kw_arg {
        match &toks[i] {
            Token::Ident(n) => {
                match parse_bool(toks, i + 2) {
                    None => Err(ConfigError::MountInterpretation),
                    Some((b, j)) => {
                        if chars_eq(n.as_str(), k0) {
                            if a0.is_some() {
                                Err(ConfigError::MountInterpretation)
                            } else {
                                Ok(((Some(b), a1, np, true), j))
                            }
                        } else if chars_eq(n.as_str(), k1) {
                            if a1.is_some() {
                                Err(ConfigError::MountInterpretation)
                            } else {
                                Ok(((a0, Some(b), np, true), j))
                            }
                        } else {
                            Err(ConfigError::MountInterpretation)
                        }
                    },
                }
            },
            _ => Err(ConfigError::MountInterpretation),
        }
    } else if kw {
        Err(ConfigError::MountInterpretation)
    } else {
        match parse_bool(toks, i) {
            None => Err(ConfigError::MountInterpretation),
            Some((b, j)) => {
                if np == 0 {
                    if a0.is_some() {
                        Err(ConfigError::MountInterpretation)
                    } else {
                        Ok(((Some(b), a1, 1, false), j))
                    }
                } else if np == 1 {
                    if a1.is_some() {
                        Err(ConfigError::MountInterpretation)
                    } else {
                        Ok(((a0, Some(b), 2, false), j))
                    }
                } else {
                    Err(ConfigError::MountInterpretation)
                }
            },
        }
    }
}

/// The arguments of a permission call, from `i` to the closing paren:
/// at most two boolean slots, each set at most once.
pub open spec fn spec_parse_bool_args(
    toks: Seq<TokenV>,
    i: int,
    k0: Seq<char>,
    k1: Seq<char>,
    a0: Option<bool>,
    a1: Option<bool>,
    np: int,
    kw: bool,
) -> Result<((Option<bool>, Option<bool>), int), ()>
    decreases toks.len() - i,
    when 0 <= i
{
    if i < toks.len() && toks[i] is RParen {
        Ok(((a0, a1), i + 1))
    } else {
        match spec_parse_bool_arg_one(toks, i, k0, k1, a0, a1, np, kw) {
            Err(e) => Err(e),
            Ok(((b0, b1, np2, kw2), j)) => {
                if j < toks.len() && toks[j] is Comma {
                    spec_parse_bool_args(toks, j + 1, k0, k1, b0, b1, np2, kw2)
                } else if j < toks.len() && toks[j] is RParen {
                    Ok(((b0, b1), j + 1))
                } else {
                    Err(())
                }
            },
        }
    }
}

pub proof fn lemma_parse_bool_args_adv(
    toks: Seq<TokenV>,
    i: int,
    k0: Seq<char>,
    k1: Seq<char>,
    a0: Option<bool>,
    a1: Option<bool>,
    np: int,
    kw: bool,
)
    requires
        0 <= i,
    ensures
        spec_parse_bool_args(toks, i, k0, k1, a0, a1, np, kw) matches Ok((p, j)) ==> i < j
            <= toks.len(),
    decreases toks.len() - i,
{
    if i < toks.len() && toks[i] is RParen {
    } else {
        match spec_parse_bool_arg_one(toks, i, k0, k1, a0, a1, np, kw) {
            Err(_) => {},
            Ok(((b0, b1, np2, kw2), j)) => {
                if j < toks.len() && toks[j] is Comma {
                    lemma_parse_bool_args_adv(toks, j + 1, k0, k1, b0, b1, np2, kw2);
                }
            },
        }
    }
}

fn parse_bool_args(
    toks: &Vec<Token>,
    i: usize,
    k0: &str,
    k1: &str,
    a0: Option<bool>,
    a1: Option<bool>,
    np: usize,
    kw: bool,
) -> (r: Result<((Option<bool>, Option<bool>), usize), ConfigError>)
    requires
        i <= toks.len(),
        np <= 2,
    ensures
        match r {
            Ok(((b0, b1), j)) => spec_parse_bool_args(
                toks.deep_view(),
                i as int,
                k0@,
                k1@,
                a0,
                a1,
                np as int,
                kw,
            ) == Ok::<_, ()>(((b0, b1), j as int)) && i < j <= toks.len(),
            Err(e) => e == ConfigError::MountInterpretation && spec_parse_bool_args(
                toks.deep_view(),
                i as int,
                k0@,
                k1@,
                a0,
                a1,
                np as int,
                kw,
            ) is Err,
        },
    decreases toks.len() - i,
{
    if i < toks.len() {
        if let Token::RParen = &toks[i] {
            return Ok(((a0, a1), i + 1));
        }
    }
    match parse_bool_arg_one(toks, i, k0, k1, a0, a1, np, kw) {
        Err(e) => Err(e),
        Ok(((b0, b1, np2, kw2), j)) => {
            if j < toks.len() {
                match &toks[j] {
                    Token::Comma => parse_bool_args(toks, j + 1, k0, k1, b0, b1, np2, kw2),
                    Token::RParen => Ok(((b0, b1), j + 1)),
                    _ => Err(ConfigError::MountInterpretation),
                }
            } else {
                Err(ConfigError::MountInterpretation)
            }
        },
    }
}

/// A `file_perms(read?, write?)` call: every omitted flag grants nothing.
pub open spec fn spec_parse_file_perms_call(toks: Seq<TokenV>, i: int) -> Result<
    (FilePerms, int),
    (),
> {
    if 0 <= i && i + 1 < toks.len() && toks[i] is Ident && toks[i]->Ident_0 == "file_perms"@
        && toks[i + 1] is LParen {
        match spec_parse_bool_args(toks, i + 2, "read"@, "write"@, None, None, 0, false) {
            Err(e) => Err(e),
            Ok(((a0, a1), j)) => Ok(
                (FilePerms { read: spec_opt_bool(a0), write: spec_opt_bool(a1) }, j),
            ),
        }
    } else {
        Err(())
    }
}

pub proof fn lemma_parse_file_perms_call_adv(toks: Seq<TokenV>, i: int)
    requires
        0 <= i,
    ensures
        spec_parse_file_perms_call(toks, i) matches Ok((p, j)) ==> i < j <= toks.len(),
{
    lemma_parse_bool_args_adv(toks, i + 2, "read"@, "write"@, None, None, 0, false);
}

fn parse_file_perms_call(toks: &Vec<Token>, i: usize) -> (r: Result<(FilePerms, usize), ConfigError>)
    requires
        i <= toks.len(),
    ensures
        match r {
            Ok((p, j)) => spec_parse_file_perms_call(toks.deep_view(), i as int) == Ok::<_, ()>(
                (p, j as int),
            ) && i < j <= toks.len(),
            Err(e) => e == ConfigError::MountInterpretation && spec_parse_file_perms_call(
                toks.deep_view(),
                i as int,
            ) is Err,
        },
{
    let head = i < toks.len() && i + 1 < toks.len() && (match &toks[i] {
        Token::Ident(n) => chars_eq(n.as_str(), "file_perms"),
        _ => false,
    }) && (match &toks[i + 1] {
        Token::LParen => true,
        _ => false,
    });
    if head {
        match parse_bool_args(toks, i + 2, "read", "write", None, None, 0, false) {
            Err(e) => Err(e),
            Ok(((a0, a1), j)) => Ok(
                (
                    FilePerms {
                        read: (match a0 {
                            Some(b) => b,
                            None => false,
                        }),
                        write: (match a1 {
                            Some(b) => b,
                            None => false,
                        }),
                    },
                    j,
                ),
            ),
        }
    } else {
        Err(ConfigError::MountInterpretation)
    }
}

/// A `dir_perms(read?, mutate?)` call: every omitted flag grants nothing.
pub open spec fn spec_parse_dir_perms_call(toks: Seq<TokenV>, i: int) -> Result<
    (DirPerms, int),
    (),
> {
    if 0 <= i && i + 1 < toks.len() && toks[i] is Ident && toks[i]->Ident_0 == "dir_perms"@
        && toks[i + 1] is LParen {
        match spec_parse_bool_args(toks, i + 2, "read"@, "mutate"@, None, None, 0, false) {
            Err(e) => Err(e),
            Ok(((a0, a1), j)) => Ok(
                (DirPerms { read: spec_opt_bool(a0), mutate: spec_opt_bool(a1) }, j),
            ),
        }
    } else {
        Err(())
    }
}

pub proof fn lemma_parse_dir_perms_call_adv(toks: Seq<TokenV>, i: int)
    requires
        0 <= i,
    ensures
        spec_parse_dir_perms_call(toks, i) matches Ok((p, j)) ==> i < j <= toks.len(),
{
    lemma_parse_bool_args_adv(toks, i + 2, "read"@, "mutate"@, None, None, 0, false);
}

fn parse_dir_perms_call(toks: &Vec<Token>, i: usize) -> (r: Result<(DirPerms, usize), ConfigError>)
    requires
        i <= toks.len(),
    ensures
        match r {
            Ok((p, j)) => spec_parse_dir_perms_call(toks.deep_view(), i as int) == Ok::<_, ()>(
                (p, j as int),
            ) && i < j <= toks.len(),
            Err(e) => e == ConfigError::MountInterpretation && spec_parse_dir_perms_call(
                toks.deep_view(),
                i as int,
            ) is Err,
        },
{
    let head = i < toks.len() && i + 1 < toks.len() && (match &toks[i] {
        Token::Ident(n) => chars_eq(n.as_str(), "dir_perms"),
        _ => false,
    }) && (match &toks[i + 1] {
        Token::LParen => true,
        _ => false,
    });
    if head {
        match parse_bool_args(toks, i + 2, "read", "mutate", None, None, 0, false) {
            Err(e) => Err(e),
            Ok(((a0, a1), j)) => Ok(
                (
                    DirPerms {
                        read: (match a0 {
                            Some(b) => b,
                            None => false,
                        }),
                        mutate: (match a1 {
                            Some(b) => b,
                            None => false,
                        }),
                    },
                    j,
                ),
            ),
        }
    } else {
        Err(ConfigError::MountInterpretation)
    }
}

/// The capability token a builtin constant stands for.
pub open spec fn spec_const_token(n: Seq<char>) -> Option<Seq<char>> {
    if n == "INHERIT_ARGS"@ {
        Some("InheritArgs"@)
    } else if n == "INHERIT_ENV"@ {
        Some("InheritEnv"@)
    } else if n == "INHERIT_STDIN"@ {
        Some("InheritStdin"@)
    } else if n == "INHERIT_STDIO"@ {
        Some("InheritStdio"@)
    } else if n == "INHERIT_STDOUT"@ {
        Some("InheritStdout"@)
    } else if n == "INHERIT_NETWORK"@ {
        Some("InheritNetwork"@)
    } else if n == "ALLOW_IP_NAME_LOOKUP"@ {
        Some("AllowIpNameLookup"@)
    } else {
        None
    }
}

fn const_token(n: &str) -> (r: Option<String>)
    ensures
        match r {
            Some(t) => spec_const_token(n@) == Some(t@),
            None => spec_const_token(n@) is None,
        },
{
    if chars_eq(n, "INHERIT_ARGS") {
        Some(String::from_str("InheritArgs"))
    } else if chars_eq(n, "INHERIT_ENV") {
        Some(String::from_str("InheritEnv"))
    } else if chars_eq(n, "INHERIT_STDIN") {
        Some(String::from_str("InheritStdin"))
    } else if chars_eq(n, "INHERIT_STDIO") {
        Some(String::from_str("InheritStdio"))
    } else if chars_eq(n, "INHERIT_STDOUT") {
        Some(String::from_str("InheritStdout"))
    } else if chars_eq(n, "INHERIT_NETWORK") {
        Some(String::from_str("InheritNetwork"))
    } else if chars_eq(n, "ALLOW_IP_NAME_LOOKUP") {
        Some(String::from_str("AllowIpNameLookup"))
    } else {
        None
    }
}

/// A string literal value.
pub open spec fn spec_parse_str_value(toks: Seq<TokenV>, i: int) -> Option<(Seq<char>, int)> {
    if 0 <= i < toks.len() && toks[i] is StrLit {
        Some((toks[i]->StrLit_0, i + 1))
    } else {
        None
    }
}

fn parse_str_value(toks: &Vec<Token>, i: usize) -> (r: Option<(String, usize)>)
    requires
        i <= toks.len(),
    ensures
        match r {
            Some((s, j)) => spec_parse_str_value(toks.deep_view(), i as int) == Some(
                (s@, j as int),
            ) && i < j <= toks.len(),
            None => spec_parse_str_value(toks.deep_view(), i as int) is None,
        },
{
    if i < toks.len() {
        match &toks[i] {
            Token::StrLit(s) => Some((s.clone(), i + 1)),
            _ => None,
        }
    } else {
        None
    }
}

/// One element of a capability list: a token string, or a builtin token
/// constant.
pub open spec fn spec_parse_token_elem(toks: Seq<TokenV>, i: int) -> Result<(Seq<char>, int), ()> {
    if 0 <= i < toks.len() && toks[i] is StrLit {
        Ok((toks[i]->StrLit_0, i + 1))
    } else if 0 <= i < toks.len() && toks[i] is Ident {
        match spec_const_token(toks[i]->Ident_0) {
            Some(t) => Ok((t, i + 1)),
            None => Err(()),
        }
    } else {
        Err(())
    }
}

fn parse_token_elem(toks: &Vec<Token>, i: usize) -> (r: Result<(String, usize), ConfigError>)
    requires
        i <= toks.len(),
    ensures
        match r {
            Ok((s, j)) => spec_parse_token_elem(toks.deep_view(), i as int) == Ok::<_, ()>(
                (s@, j as int),
            ) && i < j <= toks.len(),
            Err(e) => e == ConfigError::Parse && spec_parse_token_elem(
                toks.deep_view(),
                i as int,
            ) is Err,
        },
{
    if i < toks.len() {
        match &toks[i] {
            Token::StrLit(s) => Ok((s.clone(), i + 1)),
            Token::Ident(n) => match const_token(n.as_str()) {
                Some(t) => Ok((t, i + 1)),
                None => Err(ConfigError::Parse),
            },
            _ => Err(ConfigError::Parse),
        }
    } else {
        Err(ConfigError::Parse)
    }
}

/// The elements of a capability list, from `i` to the closing bracket.
pub open spec fn spec_parse_token_list_rest(toks: Seq<TokenV>, i: int, acc: Seq<Seq<char>>) -> Result<
    (Seq<Seq<char>>, int),
    (),
>
    decreases toks.len() - i,
    when 0 <= i
{
    if i < toks.len() && toks[i] is RBracket {
        Ok((acc, i + 1))
    } else {
        match spec_parse_token_elem(toks, i) {
            Err(_) => Err(()),
            Ok((t, j)) => {
                if j < toks.len() && toks[j] is Comma {
                    spec_parse_token_list_rest(toks, j + 1, acc.push(t))
                } else if j < toks.len() && toks[j] is RBracket {
                    Ok((acc.push(t), j + 1))
                } else {
                    Err(())
                }
            },
        }
    }
}

pub proof fn lemma_parse_token_list_rest_adv(toks: Seq<TokenV>, i: int, acc: Seq<Seq<char>>)
    requires
        0 <= i,
    ensures
        spec_parse_token_list_rest(toks, i, acc) matches Ok((v, j)) ==> i < j <= toks.len(),
    decreases toks.len() - i,
{
    if i < toks.len() && toks[i] is RBracket {
    } else {
        match spec_parse_token_elem(toks, i) {
            Err(_) => {},
            Ok((t, j)) => {
                if j < toks.len() && toks[j] is Comma {
                    lemma_parse_token_list_rest_adv(toks, j + 1, acc.push(t));
                }
            },
        }
    }
}

/// A bracketed list of capability tokens.
pub open spec fn spec_parse_token_list(toks: Seq<TokenV>, i: int) -> Result<
    (Seq<Seq<char>>, int),
    (),
> {
    if 0 <= i < toks.len() && toks[i] is LBracket {
        spec_parse_token_list_rest(toks, i + 1, Seq::empty())
    } else {
        Err(())
    }
}

pub proof fn lemma_parse_token_list_adv(toks: Seq<TokenV>, i: int)
    requires
        0 <= i,
    ensures
        spec_parse_token_list(toks, i) matches Ok((v, j)) ==> i < j <= toks.len(),
{
    if 0 <= i < toks.len() && toks[i] is LBracket {
        lemma_parse_token_list_rest_adv(toks, i + 1, Seq::empty());
    }
}

fn parse_token_list_rest(toks: &Vec<Token>, i: usize, acc: Vec<String>) -> (r: Result<
    (Vec<String>, usize),
    ConfigError,
>)
    requires
        i <= toks.len(),
    ensures
        match r {
            Ok((v, j)) => spec_parse_token_list_rest(toks.deep_view(), i as int, acc.deep_view())
                == Ok::<_, ()>((v.deep_view(), j as int)) && i < j <= toks.len(),
            Err(e) => e == ConfigError::Parse && spec_parse_token_list_rest(
                toks.deep_view(),
                i as int,
                acc.deep_view(),
            ) is Err,
        },
    decreases toks.len() - i,
{
    if i < toks.len() {
        if let Token::RBracket = &toks[i] {
            return Ok((acc, i + 1));
        }
    }
    match parse_token_elem(toks, i) {
        Err(e) => Err(e),
        Ok((t, j)) => {
            let ghost acc0 = acc.deep_view();
            let ghost tv = t@;
            let mut acc2 = acc;
            acc2.push(t);
            proof {
                assert(acc2.deep_view() =~= acc0.push(tv));
            }
            if j < toks.len() {
                match &toks[j] {
                    Token::Comma => parse_token_list_rest(toks, j + 1, acc2),
                    Token::RBracket => Ok((acc2, j + 1)),
                    _ => Err(ConfigError::Parse),
                }
            } else {
                Err(ConfigError::Parse)
            }
        },
    }
}

fn parse_token_list(toks: &Vec<Token>, i: usize) -> (r: Result<(Vec<String>, usize), ConfigError>)
    requires
        i <= toks.len(),
    ensures
        match r {
            Ok((v, j)) => spec_parse_token_list(toks.deep_view(), i as int) == Ok::<_, ()>(
                (v.deep_view(), j as int),
            ) && i < j <= toks.len(),
            Err(e) => e == ConfigError::Parse && spec_parse_token_list(
                toks.deep_view(),
                i as int,
            ) is Err,
        },
{
    if i < toks.len() {
        if let Token::LBracket = &toks[i] {
            let acc: Vec<String> = Vec::new();
            proof {
                assert(acc.deep_view() =~= Seq::<Seq<char>>::empty());
            }
            return parse_token_list_rest(toks, i + 1, acc);
        }
    }
    Err(ConfigError::Parse)
}

/// One argument of a `mount(...)` call: the two path slots take string
/// literals, the two permission slots take permission calls.  A
/// permission value of the wrong shape is a mount-interpretation error;
/// everything else malformed is a parse error.
pub open spec fn spec_parse_mount_arg_one(
    toks: Seq<TokenV>,
    i: int,
    h: Option<Seq<char>>,
    g: Option<Seq<char>>,
    fp: Option<FilePerms>,
    dp: Option<DirPerms>,
    np: int,
    kw: bool,
) -> Result<
    ((Option<Seq<char>>, Option<Seq<char>>, Option<FilePerms>, Option<DirPerms>, int, bool), int),
    ConfigErrV,
> {
    if 0 <= i && i + 1 < toks.len() && toks[i] is Ident && toks[i + 1] is Assign {
        let n = toks[i]->Ident_0;
        if n == "host_path"@ {
            match spec_parse_str_value(toks, i + 2) {
                None => Err(ConfigErrV::Parse),
                Some((s, j)) => if h is Some {
                    Err(ConfigErrV::Parse)
                } else {
                    Ok(((Some(s), g, fp, dp, np, true), j))
                },
            }
        } else if n == "guest_path"@ {
            match spec_parse_str_value(toks, i + 2) {
                None => Err(ConfigErrV::Parse),
                Some((s, j)) => if g is Some {
                    Err(ConfigErrV::Parse)
                } else {
                    Ok(((h, Some(s), fp, dp, np, true), j))
                },
            }
        } else if n == "file_perms"@ {
            match spec_parse_file_perms_call(toks, i + 2) {
                Err(_) => Err(ConfigErrV::MountInterpretation),
                Ok((p, j)) => if fp is Some {
                    Err(ConfigErrV::Parse)
                } else {
                    Ok(((h, g, Some(p), dp, np, true), j))
                },
            }
        } else if n == "dir_perms"@ {
            match spec_parse_dir_perms_call(toks, i + 2) {
                Err(_) => Err(ConfigErrV::MountInterpretation),
                Ok((p, j)) => if dp is Some {
                    Err(ConfigErrV::Parse)
                } else {
                    Ok(((h, g, fp, Some(p), np, true), j))
                },
            }
        } else {
            Err(ConfigErrV::Parse)
        }
    } else if kw {
        Err(ConfigErrV::Parse)
    } else if np == 0 {
        match spec_parse_str_value(toks, i) {
            None => Err(ConfigErrV::Parse),
            Some((s, j)) => Ok(((Some(s), g, fp, dp, 1, false), j)),
        }
    } else if np == 1 {
        match spec_parse_str_value(toks, i) {
            None => Err(ConfigErrV::Parse),
            Some((s, j)) => Ok(((h, Some(s), fp, dp, 2, false), j)),
        }
    } else if np == 2 {
        match spec_parse_file_perms_call(toks, i) {
            Err(_) => Err(ConfigErrV::MountInterpretation),
            Ok((p, j)) => Ok(((h, g, Some(p), dp, 3, false), j)),
        }
    } else if np == 3 {
        match spec_parse_dir_perms_call(toks, i) {
            Err(_) => Err(ConfigErrV::MountInterpretation),
            Ok((p, j)) => Ok(((h, g, fp, Some(p), 4, false), j)),
        }
    } else {
        Err(ConfigErrV::Parse)
    }
}

pub proof fn lemma_parse_mount_arg_one_adv(
    toks: Seq<TokenV>,
    i: int,
    h: Option<Seq<char>>,
    g: Option<Seq<char>>,
    fp: Option<FilePerms>,
    dp: Option<DirPerms>,
    np: int,
    kw: bool,
)
    requires
        0 <= i,
    ensures
        spec_parse_mount_arg_one(toks, i, h, g, fp, dp, np, kw) matches Ok((st, j)) ==> i < j
            <= toks.len(),
{
    lemma_parse_file_perms_call_adv(toks, i + 2);
    lemma_parse_dir_perms_call_adv(toks, i + 2);
    lemma_parse_file_perms_call_adv(toks, i);
    lemma_parse_dir_perms_call_adv(toks, i);
}

fn parse_mount_arg_one(
    toks: &Vec<Token>,
    i: usize,
    h: Option<String>,
    g: Option<String>,
    fp: Option<FilePerms>,
    dp: Option<DirPerms>,
    np: usize,
    kw: bool,
) -> (r: Result<
    ((Option<String>, Option<String>, Option<FilePerms>, Option<DirPerms>, usize, bool), usize),
    ConfigError,
>)
    requires
        i <= toks.len(),
        np <= 4,
    ensures
        match r {
            Ok(((h2, g2, fp2, dp2, np2, kw2), j)) => spec_parse_mount_arg_one(
                toks.deep_view(),
                i as int,
                opt_str_view(h),
                opt_str_view(g),
                fp,
                dp,
                np as int,
                kw,
            ) == Ok::<_, ConfigErrV>(
                ((opt_str_view(h2), opt_str_view(g2), fp2, dp2, np2 as int, kw2), j as int),
            ) && i < j <= toks.len() && np2 <= 4,
            Err(e) => spec_parse_mount_arg_one(
                toks.deep_view(),
                i as int,
                opt_str_view(h),
                opt_str_view(g),
                fp,
                dp,
                np as int,
                kw,
            ) == Err::<
                ((Option<Seq<char>>, Option<Seq<char>>, Option<FilePerms>, Option<DirPerms>, int, bool), int),
                _,
            >(e@),
        },
{
    let kw_arg = i < toks.len() && i + 1 < toks.len() && (match &toks[i] {
        Token::Ident(_) => true,
        _ => false,
    }) && (match &toks[i + 1] {
        Token::Assign => true,
        _ => false,
    });
    if kw_arg {
        match &toks[i] {
            Token::Ident(n) => {
                if chars_eq(n.as_str(), "host_path") {
                    match parse_str_value(toks, i + 2) {
                        None => Err(ConfigError::Parse),
                        Some((s, j)) => {
                            if h.is_some() {
                                Err(ConfigError::Parse)
                            } else {
                                Ok(((Some(s), g, fp, dp, np, true), j))
                            }
                        },
                    }
                } else if chars_eq(n.as_str(), "guest_path") {
                    match parse_str_value(toks, i + 2) {
                        None => Err(ConfigError::Parse),
                        Some((s, j)) => {
                            if g.is_some() {
                                Err(ConfigError::Parse)
                            } else {
                                Ok(((h, Some(s), fp, dp, np, true), j))
                            }
                        },
                    }
                } else if chars_eq(n.as_str(), "file_perms") {
                    match parse_file_perms_call(toks, i + 2) {
                        Err(e) => Err(e),
                        Ok((p, j)) => {
                            if fp.is_some() {
                                Err(ConfigError::Parse)
                            } else {
                                Ok(((h, g, Some(p), dp, np, true), j))
                            }
                        },
                    }
                } else if chars_eq(n.as_str(), "dir_perms") {
                    match parse_dir_perms_call(toks, i + 2) {
                        Err(e) => Err(e),
                        Ok((p, j)) => {
                            if dp.is_some() {
                                Err(ConfigError::Parse)
                            } else {
                                Ok(((h, g, fp, Some(p), np, true), j))
                            }
                        },
                    }
                } else {
                    Err(ConfigError::Parse)
                }
            },
            _ => Err(ConfigError::Parse),
        }
    } else if kw {
        Err(ConfigError::Parse)
    } else if np == 0 {
        match parse_str_value(toks, i) {
            None => Err(ConfigError::Parse),
            Some((s, j)) => Ok(((Some(s), g, fp, dp, 1, false), j)),
        }
    } else if np == 1 {
        match parse_str_value(toks, i) {
            None => Err(ConfigError::Parse),
            Some((s, j)) => Ok(((h, Some(s), fp, dp, 2, false), j)),
        }
    } else if np == 2 {
        match parse_file_perms_call(toks, i) {
            Err(e) => Err(e),
            Ok((p, j)) => Ok(((h, g, Some(p), dp, 3, false), j)),
        }
    } else if np == 3 {
        match parse_dir_perms_call(toks, i) {
            Err(e) => Err(e),
            Ok((p, j)) => Ok(((h, g, fp, Some(p), 4, false), j)),
        }
    } else {
        Err(ConfigError::Parse)
    }
}

/// The view of an optional string.
pub open spec fn opt_str_view(o: Option<String>) -> Option<Seq<char>> {
    match o {
        Some(s) => Some(s@),
        None => None,
    }
}

/// The arguments of a `mount(...)` call, from `i` to the closing paren.
pub open spec fn spec_parse_mount_args(
    toks: Seq<TokenV>,
    i: int,
    h: Option<Seq<char>>,
    g: Option<Seq<char>>,
    fp: Option<FilePerms>,
    dp: Option<DirPerms>,
    np: int,
    kw: bool,
) -> Result<((Option<Seq<char>>, Option<Seq<char>>, Option<FilePerms>, Option<DirPerms>), int), ConfigErrV>
    decreases toks.len() - i,
    when 0 <= i
{
    if i < toks.len() && toks[i] is RParen {
        Ok(((h, g, fp, dp), i + 1))
    } else {
        match spec_parse_mount_arg_one(toks, i, h, g, fp, dp, np, kw) {
            Err(e) => Err(e),
            Ok(((h2, g2, fp2, dp2, np2, kw2), j)) => {
                if j < toks.len() && toks[j] is Comma {
                    proof {
                        lemma_parse_mount_arg_one_adv(toks, i, h, g, fp, dp, np, kw);
                    }
                    spec_parse_mount_args(toks, j + 1, h2, g2, fp2, dp2, np2, kw2)
                } else if j < toks.len() && toks[j] is RParen {
                    Ok(((h2, g2, fp2, dp2), j + 1))
                } else {
                    Err(ConfigErrV::Parse)
                }
            },
        }
    }
}

pub proof fn lemma_parse_mount_args_adv(
    toks: Seq<TokenV>,
    i: int,
    h: Option<Seq<char>>,
    g: Option<Seq<char>>,
    fp: Option<FilePerms>,
    dp: Option<DirPerms>,
    np: int,
    kw: bool,
)
    requires
        0 <= i,
    ensures
        spec_parse_mount_args(toks, i, h, g, fp, dp, np, kw) matches Ok((st, j)) ==> i < j
            <= toks.len(),
    decreases toks.len() - i,
{
    if i < toks.len() && toks[i] is RParen {
    } else {
        lemma_parse_mount_arg_one_adv(toks, i, h, g, fp, dp, np, kw);
        match spec_parse_mount_arg_one(toks, i, h, g, fp, dp, np, kw) {
            Err(_) => {},
            Ok(((h2, g2, fp2, dp2, np2, kw2), j)) => {
                if j < toks.len() && toks[j] is Comma {
                    lemma_parse_mount_args_adv(toks, j + 1, h2, g2, fp2, dp2, np2, kw2);
                }
            },
        }
    }
}

fn parse_mount_args(
    toks: &Vec<Token>,
    i: usize,
    h: Option<String>,
    g: Option<String>,
    fp: Option<FilePerms>,
    dp: Option<DirPerms>,
    np: usize,
    kw: bool,
) -> (r: Result<
    ((Option<String>, Option<String>, Option<FilePerms>, Option<DirPerms>), usize),
    ConfigError,
>)
    requires
        i <= toks.len(),
        np <= 4,
    ensures
        match r {
            Ok(((h2, g2, fp2, dp2), j)) => spec_parse_mount_args(
                toks.deep_view(),
                i as int,
                opt_str_view(h),
                opt_str_view(g),
                fp,
                dp,
                np as int,
                kw,
            ) == Ok::<_, ConfigErrV>(
                ((opt_str_view(h2), opt_str_view(g2), fp2, dp2), j as int),
            ) && i < j <= toks.len(),
            Err(e) => spec_parse_mount_args(
                toks.deep_view(),
                i as int,
                opt_str_view(h),
                opt_str_view(g),
                fp,
                dp,
                np as int,
                kw,
            ) == Err::<
                ((Option<Seq<char>>, Option<Seq<char>>, Option<FilePerms>, Option<DirPerms>), int),
                _,
            >(e@),
        },
    decreases toks.len() - i,
{
    if i < toks.len() {
        if let Token::RParen = &toks[i] {
            return Ok(((h, g, fp, dp), i + 1));
        }
    }
    match parse_mount_arg_one(toks, i, h, g, fp, dp, np, kw) {
        Err(e) => Err(e),
        Ok(((h2, g2, fp2, dp2, np2, kw2), j)) => {
            if j < toks.len() {
                match &toks[j] {
                    Token::Comma => parse_mount_args(toks, j + 1, h2, g2, fp2, dp2, np2, kw2),
                    Token::RParen => Ok(((h2, g2, fp2, dp2), j + 1)),
                    _ => Err(ConfigError::Parse),
                }
            } else {
                Err(ConfigError::Parse)
            }
        },
    }
}

/// A whole `mount(...)` call: both paths are required and non-empty, and
/// omitted permissions grant nothing.  Where no mount call stands at `i`
/// at all, the value cannot be interpreted as a mount.
pub open spec fn spec_parse_mount_call(toks: Seq<TokenV>, i: int) -> Result<(MountV, int), ConfigErrV> {
    if 0 <= i && i + 1 < toks.len() && toks[i] is Ident && toks[i]->Ident_0 == "mount"@ && toks[i
        + 1] is LParen {
        match spec_parse_mount_args(toks, i + 2, None, None, None, None, 0, false) {
            Err(e) => Err(e),
            Ok(((h, g, fp, dp), j)) => match (h, g) {
                (Some(hs), Some(gs)) => if hs.len() == 0 || gs.len() == 0 {
                    Err(ConfigErrV::MountInterpretation)
                } else {
                    Ok((spec_mount_of(hs, gs, fp, dp), j))
                },
                _ => Err(ConfigErrV::Parse),
            },
        }
    } else {
        Err(ConfigErrV::MountInterpretation)
    }
}

pub proof fn lemma_parse_mount_call_adv(toks: Seq<TokenV>, i: int)
    requires
        0 <= i,
    ensures
        spec_parse_mount_call(toks, i) matches Ok((m, j)) ==> i < j <= toks.len(),
{
    lemma_parse_mount_args_adv(toks, i + 2, None, None, None, None, 0, false);
}

fn parse_mount_call(toks: &Vec<Token>, i: usize) -> (r: Result<(PluginMount, usize), ConfigError>)
    requires
        i <= toks.len(),
    ensures
        match r {
            Ok((m, j)) => spec_parse_mount_call(toks.deep_view(), i as int) == Ok::<_, ConfigErrV>(
                (m@, j as int),
            ) && i < j <= toks.len(),
            Err(e) => spec_parse_mount_call(toks.deep_view(), i as int) == Err::<
                (MountV, int),
                _,
            >(e@),
        },
{
    let head = i < toks.len() && i + 1 < toks.len() && (match &toks[i] {
        Token::Ident(n) => chars_eq(n.as_str(), "mount"),
        _ => false,
    }) && (match &toks[i + 1] {
        Token::LParen => true,
        _ => false,
    });
    if head {
        match parse_mount_args(toks, i + 2, None, None, None, None, 0, false) {
            Err(e) => Err(e),
            Ok(((h, g, fp, dp), j)) => match (h, g) {
                (Some(hs), Some(gs)) => match parse_mount(hs, gs, fp, dp) {
                    Ok(m) => Ok((m, j)),
                    Err(e) => Err(e),
                },
                _ => Err(ConfigError::Parse),
            },
        }
    } else {
        Err(ConfigError::MountInterpretation)
    }
}

/// The elements of a mount list, from `i` to the closing bracket.
pub open spec fn spec_parse_mount_list_rest(toks: Seq<TokenV>, i: int, acc: Seq<MountV>) -> Result<
    (Seq<MountV>, int),
    ConfigErrV,
>
    decreases toks.len() - i,
    when 0 <= i
{
    if i < toks.len() && toks[i] is RBracket {
        Ok((acc, i + 1))
    } else {
        match spec_parse_mount_call(toks, i) {
            Err(e) => Err(e),
            Ok((m, j)) => {
                if j < toks.len() && toks[j] is Comma {
                    proof {
                        lemma_parse_mount_call_adv(toks, i);
                    }
                    spec_parse_mount_list_rest(toks, j + 1, acc.push(m))
                } else if j < toks.len() && toks[j] is RBracket {
                    Ok((acc.push(m), j + 1))
                } else {
                    Err(ConfigErrV::Parse)
                }
            },
        }
    }
}

pub proof fn lemma_parse_mount_list_rest_adv(toks: Seq<TokenV>, i: int, acc: Seq<MountV>)
    requires
        0 <= i,
    ensures
        spec_parse_mount_list_rest(toks, i, acc) matches Ok((v, j)) ==> i < j <= toks.len(),
    decreases toks.len() - i,
{
    if i < toks.len() && toks[i] is RBracket {
    } else {
        lemma_parse_mount_call_adv(toks, i);
        match spec_parse_mount_call(toks, i) {
            Err(_) => {},
            Ok((m, j)) => {
                if j < toks.len() && toks[j] is Comma {
                    lemma_parse_mount_list_rest_adv(toks, j + 1, acc.push(m));
                }
            },
        }
    }
}

/// A bracketed list of `mount(...)` calls.
pub open spec fn spec_parse_mount_list(toks: Seq<TokenV>, i: int) -> Result<
    (Seq<MountV>, int),
    ConfigErrV,
> {
    if 0 <= i < toks.len() && toks[i] is LBracket {
        spec_parse_mount_list_rest(toks, i + 1, Seq::empty())
    } else {
        Err(ConfigErrV::Parse)
    }
}

pub proof fn lemma_parse_mount_list_adv(toks: Seq<TokenV>, i: int)
    requires
        0 <= i,
    ensures
        spec_parse_mount_list(toks, i) matches Ok((v, j)) ==> i < j <= toks.len(),
{
    if 0 <= i < toks.len() && toks[i] is LBracket {
        lemma_parse_mount_list_rest_adv(toks, i + 1, Seq::empty());
    }
}

fn parse_mount_list_rest(toks: &Vec<Token>, i: usize, acc: Vec<PluginMount>) -> (r: Result<
    (Vec<PluginMount>, usize),
    ConfigError,
>)
    requires
        i <= toks.len(),
    ensures
        match r {
            Ok((v, j)) => spec_parse_mount_list_rest(toks.deep_view(), i as int, acc.deep_view())
                == Ok::<_, ConfigErrV>((v.deep_view(), j as int)) && i < j <= toks.len(),
            Err(e) => spec_parse_mount_list_rest(toks.deep_view(), i as int, acc.deep_view())
                == Err::<(Seq<MountV>, int), _>(e@),
        },
    decreases toks.len() - i,
{
    if i < toks.len() {
        if let Token::RBracket = &toks[i] {
            return Ok((acc, i + 1));
        }
    }
    match parse_mount_call(toks, i) {
        Err(e) => Err(e),
        Ok((m, j)) => {
            let ghost acc0 = acc.deep_view();
            let ghost mv = m@;
            let mut acc2 = acc;
            acc2.push(m);
            proof {
                assert(acc2.deep_view() =~= acc0.push(mv));
            }
            if j < toks.len() {
                match &toks[j] {
                    Token::Comma => parse_mount_list_rest(toks, j + 1, acc2),
                    Token::RBracket => Ok((acc2, j + 1)),
                    _ => Err(ConfigError::Parse),
                }
            } else {
                Err(ConfigError::Parse)
            }
        },
    }
}

fn parse_mount_list(toks: &Vec<Token>, i: usize) -> (r: Result<(Vec<PluginMount>, usize), ConfigError>)
    requires
        i <= toks.len(),
    ensures
        match r {
            Ok((v, j)) => spec_parse_mount_list(toks.deep_view(), i as int) == Ok::<_, ConfigErrV>(
                (v.deep_view(), j as int),
            ) && i < j <= toks.len(),
            Err(e) => spec_parse_mount_list(toks.deep_view(), i as int) == Err::<
                (Seq<MountV>, int),
                _,
            >(e@),
        },
{
    if i < toks.len() {
        if let Token::LBracket = &toks[i] {
            let acc: Vec<PluginMount> = Vec::new();
            proof {
                assert(acc.deep_view() =~= Seq::<MountV>::empty());
            }
            return parse_mount_list_rest(toks, i + 1, acc);
        }
    }
    Err(ConfigError::Parse)
}

/// The view of an optional capability set.
pub open spec fn opt_capset_view(o: Option<PluginCapabilities>) -> Option<CapSetV> {
    match o {
        Some(c) => Some(c@),
        None => None,
    }
}

/// The view of an optional mount vector.
pub open spec fn opt_mounts_view(o: Option<Vec<PluginMount>>) -> Option<Seq<MountV>> {
    match o {
        Some(v) => Some(v.deep_view()),
        None => None,
    }
}

/// The view of an optional module descriptor.
pub open spec fn opt_mod_view(o: Option<CloudModule>) -> Option<ModuleV> {
    match o {
        Some(m) => Some(m@),
        None => None,
    }
}

/// One argument of a `capabilities(...)` call: the `inherits` slot takes
/// a bracketed token list, the `mounts` slot a bracketed mount list.
pub open spec fn spec_parse_capset_arg_one(
    toks: Seq<TokenV>,
    i: int,
    inh: Option<Seq<Seq<char>>>,
    mts: Option<Seq<MountV>>,
    np: int,
    kw: bool,
) -> Result<((Option<Seq<Seq<char>>>, Option<Seq<MountV>>, int, bool), int), ConfigErrV> {
    if 0 <= i && i + 1 < toks.len() && toks[i] is Ident && toks[i + 1] is Assign {
        let n = toks[i]->Ident_0;
        if n == "inherits"@ {
            match spec_parse_token_list(toks, i + 2) {
                Err(_) => Err(ConfigErrV::Parse),
                Ok((ts, j)) => if inh is Some {
                    Err(ConfigErrV::Parse)
                } else {
                    Ok(((Some(ts), mts, np, true), j))
                },
            }
        } else if n == "mounts"@ {
            match spec_parse_mount_list(toks, i + 2) {
                Err(e) => Err(e),
                Ok((ms, j)) => if mts is Some {
                    Err(ConfigErrV::Parse)
                } else {
                    Ok(((inh, Some(ms), np, true), j))
                },
            }
        } else {
            Err(ConfigErrV::Parse)
        }
    } else if kw {
        Err(ConfigErrV::Parse)
    } else if np == 0 {
        match spec_parse_token_list(toks, i) {
            Err(_) => Err(ConfigErrV::Parse),
            Ok((ts, j)) => Ok(((Some(ts), mts, 1, false), j)),
        }
    } else if np == 1 {
        match spec_parse_mount_list(toks, i) {
            Err(e) => Err(e),
            Ok((ms, j)) => Ok(((inh, Some(ms), 2, false), j)),
        }
    } else {
        Err(ConfigErrV::Parse)
    }
}

pub proof fn lemma_parse_capset_arg_one_adv(
    toks: Seq<TokenV>,
    i: int,
    inh: Option<Seq<Seq<char>>>,
    mts: Option<Seq<MountV>>,
    np: int,
    kw: bool,
)
    requires
        0 <= i,
    ensures
        spec_parse_capset_arg_one(toks, i, inh, mts, np, kw) matches Ok((st, j)) ==> i < j
            <= toks.len(),
{
    lemma_parse_token_list_adv(toks, i + 2);
    lemma_parse_mount_list_adv(toks, i + 2);
    lemma_parse_token_list_adv(toks, i);
    lemma_parse_mount_list_adv(toks, i);
}

fn parse_capset_arg_one(
    toks: &Vec<Token>,
    i: usize,
    inh: Option<Vec<String>>,
    mts: Option<Vec<PluginMount>>,
    np: usize,
    kw: bool,
) -> (r: Result<((Option<Vec<String>>, Option<Vec<PluginMount>>, usize, bool), usize), ConfigError>)
    requires
        i <= toks.len(),
        np <= 2,
    ensures
        match r {
            Ok(((inh2, mts2, np2, kw2), j)) => spec_parse_capset_arg_one(
                toks.deep_view(),
                i as int,
                (match inh {
                    Some(v) => Some(v.deep_view()),
                    None => None,
                }),
                opt_mounts_view(mts),
                np as int,
                kw,
            ) == Ok::<_, ConfigErrV>(
                (
                    (
                        (match inh2 {
                            Some(v) => Some(v.deep_view()),
                            None => None,
                        }),
                        opt_mounts_view(mts2),
                        np2 as int,
                        kw2,
                    ),
                    j as int,
                ),
            ) && i < j <= toks.len() && np2 <= 2,
            Err(e) => spec_parse_capset_arg_one(
                toks.deep_view(),
                i as int,
                (match inh {
                    Some(v) => Some(v.deep_view()),
                    None => None,
                }),
                opt_mounts_view(mts),
                np as int,
                kw,
            ) == Err::<
                ((Option<Seq<Seq<char>>>, Option<Seq<MountV>>, int, bool), int),
                _,
            >(e@),
        },
{
    let kw_arg = i < toks.len() && i + 1 < toks.len() && (match &toks[i] {
        Token::Ident(_) => true,
        _ => false,
    }) && (match &toks[i + 1] {
        Token::Assign => true,
        _ => false,
    });
    if kw_arg {
        match &toks[i] {
            Token::Ident(n) => {
                if chars_eq(n.as_str(), "inherits") {
                    match parse_token_list(toks, i + 2) {
                        Err(_) => Err(ConfigError::Parse),
                        Ok((ts, j)) => {
                            if inh.is_some() {
                                Err(ConfigError::Parse)
                            } else {
                                Ok(((Some(ts), mts, np, true), j))
                            }
                        },
                    }
                } else if chars_eq(n.as_str(), "mounts") {
                    match parse_mount_list(toks, i + 2) {
                        Err(e) => Err(e),
                        Ok((ms, j)) => {
                            if mts.is_some() {
                                Err(ConfigError::Parse)
                            } else {
                                Ok(((inh, Some(ms), np, true), j))
                            }
                        },
                    }
                } else {
                    Err(ConfigError::Parse)
                }
            },
            _ => Err(ConfigError::Parse),
        }
    } else if kw {
        Err(ConfigError::Parse)
    } else if np == 0 {
        match parse_token_list(toks, i) {
            Err(_) => Err(ConfigError::Parse),
            Ok((ts, j)) => Ok(((Some(ts), mts, 1, false), j)),
        }
    } else if np == 1 {
        match parse_mount_list(toks, i) {
            Err(e) => Err(e),
            Ok((ms, j)) => Ok(((inh, Some(ms), 2, false), j)),
        }
    } else {
        Err(ConfigError::Parse)
    }
}

/// The arguments of a `capabilities(...)` call.
pub open spec fn spec_parse_capset_args(
    toks: Seq<TokenV>,
    i: int,
    inh: Option<Seq<Seq<char>>>,
    mts: Option<Seq<MountV>>,
    np: int,
    kw: bool,
) -> Result<((Option<Seq<Seq<char>>>, Option<Seq<MountV>>), int), ConfigErrV>
    decreases toks.len() - i,
    when 0 <= i
{
    if i < toks.len() && toks[i] is RParen {
        Ok(((inh, mts), i + 1))
    } else {
        match spec_parse_capset_arg_one(toks, i, inh, mts, np, kw) {
            Err(e) => Err(e),
            Ok(((inh2, mts2, np2, kw2), j)) => {
                if j < toks.len() && toks[j] is Comma {
                    proof {
                        lemma_parse_capset_arg_one_adv(toks, i, inh, mts, np, kw);
                    }
                    spec_parse_capset_args(toks, j + 1, inh2, mts2, np2, kw2)
                } else if j < toks.len() && toks[j] is RParen {
                    Ok(((inh2, mts2), j + 1))
                } else {
                    Err(ConfigErrV::Parse)
                }
            },
        }
    }
}

pub proof fn lemma_parse_capset_args_adv(
    toks: Seq<TokenV>,
    i: int,
    inh: Option<Seq<Seq<char>>>,
    mts: Option<Seq<MountV>>,
    np: int,
    kw: bool,
)
    requires
        0 <= i,
    ensures
        spec_parse_capset_args(toks, i, inh, mts, np, kw) matches Ok((st, j)) ==> i < j
            <= toks.len(),
    decreases toks.len() - i,
{
    if i < toks.len() && toks[i] is RParen {
    } else {
        lemma_parse_capset_arg_one_adv(toks, i, inh, mts, np, kw);
        match spec_parse_capset_arg_one(toks, i, inh, mts, np, kw) {
            Err(_) => {},
            Ok(((inh2, mts2, np2, kw2), j)) => {
                if j < toks.len() && toks[j] is Comma {
                    lemma_parse_capset_args_adv(toks, j + 1, inh2, mts2, np2, kw2);
                }
            },
        }
    }
}

fn parse_capset_args(
    toks: &Vec<Token>,
    i: usize,
    inh: Option<Vec<String>>,
    mts: Option<Vec<PluginMount>>,
    np: usize,
    kw: bool,
) -> (r: Result<((Option<Vec<String>>, Option<Vec<PluginMount>>), usize), ConfigError>)
    requires
        i <= toks.len(),
        np <= 2,
    ensures
        match r {
            Ok(((inh2, mts2), j)) => spec_parse_capset_args(
                toks.deep_view(),
                i as int,
                (match inh {
                    Some(v) => Some(v.deep_view()),
                    None => None,
                }),
                opt_mounts_view(mts),
                np as int,
                kw,
            ) == Ok::<_, ConfigErrV>(
                (
                    (
                        (match inh2 {
                            Some(v) => Some(v.deep_view()),
                            None => None,
                        }),
                        opt_mounts_view(mts2),
                    ),
                    j as int,
                ),
            ) && i < j <= toks.len(),
            Err(e) => spec_parse_capset_args(
                toks.deep_view(),
                i as int,
                (match inh {
                    Some(v) => Some(v.deep_view()),
                    None => None,
                }),
                opt_mounts_view(mts),
                np as int,
                kw,
            ) == Err::<((Option<Seq<Seq<char>>>, Option<Seq<MountV>>), int), _>(e@),
        },
    decreases toks.len() - i,
{
    if i < toks.len() {
        if let Token::RParen = &toks[i] {
            return Ok(((inh, mts), i + 1));
        }
    }
    match parse_capset_arg_one(toks, i, inh, mts, np, kw) {
        Err(e) => Err(e),
        Ok(((inh2, mts2, np2, kw2), j)) => {
            if j < toks.len() {
                match &toks[j] {
                    Token::Comma => parse_capset_args(toks, j + 1, inh2, mts2, np2, kw2),
                    Token::RParen => Ok(((inh2, mts2), j + 1)),
                    _ => Err(ConfigError::Parse),
                }
            } else {
                Err(ConfigError::Parse)
            }
        },
    }
}

/// A whole `capabilities(...)` call.  Both parameters are required; each
/// inherit token must name a capability of the fixed vocabulary, and the
/// first that does not aborts evaluation.
pub open spec fn spec_parse_capset_call(toks: Seq<TokenV>, i: int) -> Result<
    (CapSetV, int),
    ConfigErrV,
> {
    if 0 <= i && i + 1 < toks.len() && toks[i] is Ident && toks[i]->Ident_0 == "capabilities"@
        && toks[i + 1] is LParen {
        match spec_parse_capset_args(toks, i + 2, None, None, 0, false) {
            Err(e) => Err(e),
            Ok(((inh, mts), j)) => match (inh, mts) {
                (Some(ts), Some(ms)) => match spec_parse_inherits(ts) {
                    Ok(cs) => Ok((CapSetV { inherits: cs, mounts: ms }, j)),
                    Err(t) => Err(ConfigErrV::UnknownCapability(t)),
                },
                _ => Err(ConfigErrV::Parse),
            },
        }
    } else {
        Err(ConfigErrV::Parse)
    }
}

pub proof fn lemma_parse_capset_call_adv(toks: Seq<TokenV>, i: int)
    requires
        0 <= i,
    ensures
        spec_parse_capset_call(toks, i) matches Ok((c, j)) ==> i < j <= toks.len(),
{
    lemma_parse_capset_args_adv(toks, i + 2, None, None, 0, false);
}

fn parse_capset_call(toks: &Vec<Token>, i: usize) -> (r: Result<
    (PluginCapabilities, usize),
    ConfigError,
>)
    requires
        i <= toks.len(),
    ensures
        match r {
            Ok((c, j)) => spec_parse_capset_call(toks.deep_view(), i as int) == Ok::<
                _,
                ConfigErrV,
            >((c@, j as int)) && i < j <= toks.len(),
            Err(e) => spec_parse_capset_call(toks.deep_view(), i as int) == Err::<
                (CapSetV, int),
                _,
            >(e@),
        },
{
    let head = i < toks.len() && i + 1 < toks.len() && (match &toks[i] {
        Token::Ident(n) => chars_eq(n.as_str(), "capabilities"),
        _ => false,
    }) && (match &toks[i + 1] {
        Token::LParen => true,
        _ => false,
    });
    if head {
        match parse_capset_args(toks, i + 2, None, None, 0, false) {
            Err(e) => Err(e),
            Ok(((inh, mts), j)) => match (inh, mts) {
                (Some(ts), Some(ms)) => match parse_inherits(&ts) {
                    Ok(cs) => Ok((PluginCapabilities { inherits: cs, mounts: ms }, j)),
                    Err(e) => Err(e),
                },
                _ => Err(ConfigError::Parse),
            },
        }
    } else {
        Err(ConfigError::Parse)
    }
}

/// One argument of a `module(...)` call: name and version take string
/// literals, the capabilities slot takes a `capabilities(...)` call, the
/// mounts slot a bracketed mount list.
pub open spec fn spec_parse_module_arg_one(
    toks: Seq<TokenV>,
    i: int,
    nm: Option<Seq<char>>,
    vr: Option<Seq<char>>,
    cs: Option<CapSetV>,
    ms: Option<Seq<MountV>>,
    np: int,
    kw: bool,
) -> Result<
    ((Option<Seq<char>>, Option<Seq<char>>, Option<CapSetV>, Option<Seq<MountV>>, int, bool), int),
    ConfigErrV,
> {
    if 0 <= i && i + 1 < toks.len() && toks[i] is Ident && toks[i + 1] is Assign {
        let n = toks[i]->Ident_0;
        if n == "name"@ {
            match spec_parse_str_value(toks, i + 2) {
                None => Err(ConfigErrV::Parse),
                Some((s, j)) => if nm is Some {
                    Err(ConfigErrV::Parse)
                } else {
                    Ok(((Some(s), vr, cs, ms, np, true), j))
                },
            }
        } else if n == "version"@ {
            match spec_parse_str_value(toks, i + 2) {
                None => Err(ConfigErrV::Parse),
                Some((s, j)) => if vr is Some {
                    Err(ConfigErrV::Parse)
                } else {
                    Ok(((nm, Some(s), cs, ms, np, true), j))
                },
            }
        } else if n == "capabilities"@ {
            match spec_parse_capset_call(toks, i + 2) {
                Err(e) => Err(e),
                Ok((c, j)) => if cs is Some {
                    Err(ConfigErrV::Parse)
                } else {
                    Ok(((nm, vr, Some(c), ms, np, true), j))
                },
            }
        } else if n == "mounts"@ {
            match spec_parse_mount_list(toks, i + 2) {
                Err(e) => Err(e),
                Ok((mv, j)) => if ms is Some {
                    Err(ConfigErrV::Parse)
                } else {
                    Ok(((nm, vr, cs, Some(mv), np, true), j))
                },
            }
        } else {
            Err(ConfigErrV::Parse)
        }
    } else if kw {
        Err(ConfigErrV::Parse)
    } else if np == 0 {
        match spec_parse_str_value(toks, i) {
            None => Err(ConfigErrV::Parse),
            Some((s, j)) => Ok(((Some(s), vr, cs, ms, 1, false), j)),
        }
    } else if np == 1 {
        match spec_parse_str_value(toks, i) {
            None => Err(ConfigErrV::Parse),
            Some((s, j)) => Ok(((nm, Some(s), cs, ms, 2, false), j)),
        }
    } else if np == 2 {
        match spec_parse_capset_call(toks, i) {
            Err(e) => Err(e),
            Ok((c, j)) => Ok(((nm, vr, Some(c), ms, 3, false), j)),
        }
    } else if np == 3 {
        match spec_parse_mount_list(toks, i) {
            Err(e) => Err(e),
            Ok((mv, j)) => Ok(((nm, vr, cs, Some(mv), 4, false), j)),
        }
    } else {
        Err(ConfigErrV::Parse)
    }
}

pub proof fn lemma_parse_module_arg_one_adv(
    toks: Seq<TokenV>,
    i: int,
    nm: Option<Seq<char>>,
    vr: Option<Seq<char>>,
    cs: Option<CapSetV>,
    ms: Option<Seq<MountV>>,
    np: int,
    kw: bool,
)
    requires
        0 <= i,
    ensures
        spec_parse_module_arg_one(toks, i, nm, vr, cs, ms, np, kw) matches Ok((st, j)) ==> i < j
            <= toks.len(),
{
    lemma_parse_capset_call_adv(toks, i + 2);
    lemma_parse_mount_list_adv(toks, i + 2);
    lemma_parse_capset_call_adv(toks, i);
    lemma_parse_mount_list_adv(toks, i);
}

fn parse_module_arg_one(
    toks: &Vec<Token>,
    i: usize,
    nm: Option<String>,
    vr: Option<String>,
    cs: Option<PluginCapabilities>,
    ms: Option<Vec<PluginMount>>,
    np: usize,
    kw: bool,
) -> (r: Result<
    (
        (
            Option<String>,
            Option<String>,
            Option<PluginCapabilities>,
            Option<Vec<PluginMount>>,
            usize,
            bool,
        ),
        usize,
    ),
    ConfigError,
>)
    requires
        i <= toks.len(),
        np <= 4,
    ensures
        match r {
            Ok(((nm2, vr2, cs2, ms2, np2, kw2), j)) => spec_parse_module_arg_one(
                toks.deep_view(),
                i as int,
                opt_str_view(nm),
                opt_str_view(vr),
                opt_capset_view(cs),
                opt_mounts_view(ms),
                np as int,
                kw,
            ) == Ok::<_, ConfigErrV>(
                (
                    (
                        opt_str_view(nm2),
                        opt_str_view(vr2),
                        opt_capset_view(cs2),
                        opt_mounts_view(ms2),
                        np2 as int,
                        kw2,
                    ),
                    j as int,
                ),
            ) && i < j <= toks.len() && np2 <= 4,
            Err(e) => spec_parse_module_arg_one(
                toks.deep_view(),
                i as int,
                opt_str_view(nm),
                opt_str_view(vr),
                opt_capset_view(cs),
                opt_mounts_view(ms),
                np as int,
                kw,
            ) == Err::<
                (
                    (
                        Option<Seq<char>>,
                        Option<Seq<char>>,
                        Option<CapSetV>,
                        Option<Seq<MountV>>,
                        int,
                        bool,
                    ),
                    int,
                ),
                _,
            >(e@),
        },
{
    let kw_arg = i < toks.len() && i + 1 < toks.len() && (match &toks[i] {
        Token::Ident(_) => true,
        _ => false,
    }) && (match &toks[i + 1] {
        Token::Assign => true,
        _ => false,
    });
    if kw_arg {
        match &toks[i] {
            Token::Ident(n) => {
                if chars_eq(n.as_str(), "name") {
                    match parse_str_value(toks, i + 2) {
                        None => Err(ConfigError::Parse),
                        Some((s, j)) => {
                            if nm.is_some() {
                                Err(ConfigError::Parse)
                            } else {
                                Ok(((Some(s), vr, cs, ms, np, true), j))
                            }
                        },
                    }
                } else if chars_eq(n.as_str(), "version") {
                    match parse_str_value(toks, i + 2) {
                        None => Err(ConfigError::Parse),
                        Some((s, j)) => {
                            if vr.is_some() {
                                Err(ConfigError::Parse)
                            } else {
                                Ok(((nm, Some(s), cs, ms, np, true), j))
                            }
                        },
                    }
                } else if chars_eq(n.as_str(), "capabilities") {
                    match parse_capset_call(toks, i + 2) {
                        Err(e) => Err(e),
                        Ok((c, j)) => {
                            if cs.is_some() {
                                Err(ConfigError::Parse)
                            } else {
                                Ok(((nm, vr, Some(c), ms, np, true), j))
                            }
                        },
                    }
                } else if chars_eq(n.as_str(), "mounts") {
                    match parse_mount_list(toks, i + 2) {
                        Err(e) => Err(e),
                        Ok((mv, j)) => {
                            if ms.is_some() {
                                Err(ConfigError::Parse)
                            } else {
                                Ok(((nm, vr, cs, Some(mv), np, true), j))
                            }
                        },
                    }
                } else {
                    Err(ConfigError::Parse)
                }
            },
            _ => Err(ConfigError::Parse),
        }
    } else if kw {
        Err(ConfigError::Parse)
    } else if np == 0 {
        match parse_str_value(toks, i) {
            None => Err(ConfigError::Parse),
            Some((s, j)) => Ok(((Some(s), vr, cs, ms, 1, false), j)),
        }
    } else if np == 1 {
        match parse_str_value(toks, i) {
            None => Err(ConfigError::Parse),
            Some((s, j)) => Ok(((nm, Some(s), cs, ms, 2, false), j)),
        }
    } else if np == 2 {
        match parse_capset_call(toks, i) {
            Err(e) => Err(e),
            Ok((c, j)) => Ok(((nm, vr, Some(c), ms, 3, false), j)),
        }
    } else if np == 3 {
        match parse_mount_list(toks, i) {
            Err(e) => Err(e),
            Ok((mv, j)) => Ok(((nm, vr, cs, Some(mv), 4, false), j)),
        }
    } else {
        Err(ConfigError::Parse)
    }
}

/// The arguments of a `module(...)` call.
pub open spec fn spec_parse_module_args(
    toks: Seq<TokenV>,
    i: int,
    nm: Option<Seq<char>>,
    vr: Option<Seq<char>>,
    cs: Option<CapSetV>,
    ms: Option<Seq<MountV>>,
    np: int,
    kw: bool,
) -> Result<
    ((Option<Seq<char>>, Option<Seq<char>>, Option<CapSetV>, Option<Seq<MountV>>), int),
    ConfigErrV,
>
    decreases toks.len() - i,
    when 0 <= i
{
    if i < toks.len() && toks[i] is RParen {
        Ok(((nm, vr, cs, ms), i + 1))
    } else {
        match spec_parse_module_arg_one(toks, i, nm, vr, cs, ms, np, kw) {
            Err(e) => Err(e),
            Ok(((nm2, vr2, cs2, ms2, np2, kw2), j)) => {
                if j < toks.len() && toks[j] is Comma {
                    proof {
                        lemma_parse_module_arg_one_adv(toks, i, nm, vr, cs, ms, np, kw);
                    }
                    spec_parse_module_args(toks, j + 1, nm2, vr2, cs2, ms2, np2, kw2)
                } else if j < toks.len() && toks[j] is RParen {
                    Ok(((nm2, vr2, cs2, ms2), j + 1))
                } else {
                    Err(ConfigErrV::Parse)
                }
            },
        }
    }
}

pub proof fn lemma_parse_module_args_adv(
    toks: Seq<TokenV>,
    i: int,
    nm: Option<Seq<char>>,
    vr: Option<Seq<char>>,
    cs: Option<CapSetV>,
    ms: Option<Seq<MountV>>,
    np: int,
    kw: bool,
)
    requires
        0 <= i,
    ensures
        spec_parse_module_args(toks, i, nm, vr, cs, ms, np, kw) matches Ok((st, j)) ==> i < j
            <= toks.len(),
    decreases toks.len() - i,
{
    if i < toks.len() && toks[i] is RParen {
    } else {
        lemma_parse_module_arg_one_adv(toks, i, nm, vr, cs, ms, np, kw);
        match spec_parse_module_arg_one(toks, i, nm, vr, cs, ms, np, kw) {
            Err(_) => {},
            Ok(((nm2, vr2, cs2, ms2, np2, kw2), j)) => {
                if j < toks.len() && toks[j] is Comma {
                    lemma_parse_module_args_adv(toks, j + 1, nm2, vr2, cs2, ms2, np2, kw2);
                }
            },
        }
    }
}

fn parse_module_args(
    toks: &Vec<Token>,
    i: usize,
    nm: Option<String>,
    vr: Option<String>,
    cs: Option<PluginCapabilities>,
    ms: Option<Vec<PluginMount>>,
    np: usize,
    kw: bool,
) -> (r: Result<
    ((Option<String>, Option<String>, Option<PluginCapabilities>, Option<Vec<PluginMount>>), usize),
    ConfigError,
>)
    requires
        i <= toks.len(),
        np <= 4,
    ensures
        match r {
            Ok(((nm2, vr2, cs2, ms2), j)) => spec_parse_module_args(
                toks.deep_view(),
                i as int,
                opt_str_view(nm),
                opt_str_view(vr),
                opt_capset_view(cs),
                opt_mounts_view(ms),
                np as int,
                kw,
            ) == Ok::<_, ConfigErrV>(
                (
                    (
                        opt_str_view(nm2),
                        opt_str_view(vr2),
                        opt_capset_view(cs2),
                        opt_mounts_view(ms2),
                    ),
                    j as int,
                ),
            ) && i < j <= toks.len(),
            Err(e) => spec_parse_module_args(
                toks.deep_view(),
                i as int,
                opt_str_view(nm),
                opt_str_view(vr),
                opt_capset_view(cs),
                opt_mounts_view(ms),
                np as int,
                kw,
            ) == Err::<
                (
                    (Option<Seq<char>>, Option<Seq<char>>, Option<CapSetV>, Option<Seq<MountV>>),
                    int,
                ),
                _,
            >(e@),
        },
    decreases toks.len() - i,
{
    if i < toks.len() {
        if let Token::RParen = &toks[i] {
            return Ok(((nm, vr, cs, ms), i + 1));
        }
    }
    match parse_module_arg_one(toks, i, nm, vr, cs, ms, np, kw) {
        Err(e) => Err(e),
        Ok(((nm2, vr2, cs2, ms2, np2, kw2), j)) => {
            if j < toks.len() {
                match &toks[j] {
                    Token::Comma => parse_module_args(toks, j + 1, nm2, vr2, cs2, ms2, np2, kw2),
                    Token::RParen => Ok(((nm2, vr2, cs2, ms2), j + 1)),
                    _ => Err(ConfigError::Parse),
                }
            } else {
                Err(ConfigError::Parse)
            }
        },
    }
}

/// A whole `module(...)` call: a non-empty name and version are required;
/// the declared capabilities collapse to a set, and the mounts of the
/// capability set come before the module-level mounts, in declaration
/// order.
pub open spec fn spec_parse_module_call(toks: Seq<TokenV>, i: int) -> Result<
    (ModuleV, int),
    ConfigErrV,
> {
    if 0 <= i && i + 1 < toks.len() && toks[i] is Ident && toks[i]->Ident_0 == "module"@ && toks[i
        + 1] is LParen {
        match spec_parse_module_args(toks, i + 2, None, None, None, None, 0, false) {
            Err(e) => Err(e),
            Ok(((nm, vr, cs, ms), j)) => match (nm, vr) {
                (Some(n), Some(v)) => if n.len() == 0 || v.len() == 0 {
                    Err(ConfigErrV::Parse)
                } else {
                    let capset = (match cs {
                        Some(c) => c,
                        None => CapSetV { inherits: Seq::empty(), mounts: Seq::empty() },
                    });
                    let extra = (match ms {
                        Some(m) => m,
                        None => Seq::empty(),
                    });
                    Ok(
                        (
                            ModuleV {
                                name: n,
                                version: v,
                                capabilities: spec_dedup_caps(capset.inherits),
                                mounts: capset.mounts + extra,
                            },
                            j,
                        ),
                    )
                },
                _ => Err(ConfigErrV::Parse),
            },
        }
    } else {
        Err(ConfigErrV::Parse)
    }
}

pub proof fn lemma_parse_module_call_adv(toks: Seq<TokenV>, i: int)
    requires
        0 <= i,
    ensures
        spec_parse_module_call(toks, i) matches Ok((m, j)) ==> i < j <= toks.len(),
{
    lemma_parse_module_args_adv(toks, i + 2, None, None, None, None, 0, false);
}

fn parse_module_call(toks: &Vec<Token>, i: usize) -> (r: Result<(CloudModule, usize), ConfigError>)
    requires
        i <= toks.len(),
    ensures
        match r {
            Ok((m, j)) => spec_parse_module_call(toks.deep_view(), i as int) == Ok::<
                _,
                ConfigErrV,
            >((m@, j as int)) && i < j <= toks.len(),
            Err(e) => spec_parse_module_call(toks.deep_view(), i as int) == Err::<
                (ModuleV, int),
                _,
            >(e@),
        },
{
    let head = i < toks.len() && i + 1 < toks.len() && (match &toks[i] {
        Token::Ident(n) => chars_eq(n.as_str(), "module"),
        _ => false,
    }) && (match &toks[i + 1] {
        Token::LParen => true,
        _ => false,
    });
    if head {
        match parse_module_args(toks, i + 2, None, None, None, None, 0, false) {
            Err(e) => Err(e),
            Ok(((nm, vr, cs, ms), j)) => {
                let ghost csv = opt_capset_view(cs);
                let ghost msv = opt_mounts_view(ms);
                let ghost capv = (match csv {
                    Some(c) => c,
                    None => CapSetV { inherits: Seq::empty(), mounts: Seq::empty() },
                });
                let ghost extrav = (match msv {
                    Some(m) => m,
                    None => Seq::<MountV>::empty(),
                });
                match (nm, vr) {
                    (Some(n), Some(v)) => {
                        if n.as_str().is_empty() || v.as_str().is_empty() {
                            Err(ConfigError::Parse)
                        } else {
                            let capset = (match cs {
                                Some(c) => c,
                                None => PluginCapabilities {
                                    inherits: Vec::new(),
                                    mounts: Vec::new(),
                                },
                            });
                            let mut extra = (match ms {
                                Some(m) => m,
                                None => Vec::new(),
                            });
                            proof {
                                assert(capset@.inherits =~= capv.inherits);
                                assert(capset@.mounts =~= capv.mounts);
                                assert(extra.deep_view() =~= extrav);
                            }
                            let capabilities = dedup_caps(&capset.inherits);
                            let ghost cm0 = capset.mounts.deep_view();
                            let ghost ex0 = extra.deep_view();
                            let mut mounts = capset.mounts;
                            mounts.append(&mut extra);
                            proof {
                                assert(mounts.deep_view() =~= cm0 + ex0);
                            }
                            Ok((CloudModule { name: n, version: v, capabilities, mounts }, j))
                        }
                    },
                    _ => Err(ConfigError::Parse),
                }
            },
        }
    } else {
        Err(ConfigError::Parse)
    }
}

/// Evaluation of the top-level statements from `i` on: each statement is
/// one builtin call; the result of the whole configuration is the value
/// of its last statement, which must be the module descriptor of a
/// `module(...)` call.  A source with no `module(...)` call at all has no
/// module declaration; one whose last statement yields another kind of
/// value fails the final downcast.
pub open spec fn spec_eval_stmts(
    toks: Seq<TokenV>,
    i: int,
    last: Option<ModuleV>,
    last_was_module: bool,
) -> Result<ModuleV, ConfigErrV>
    decreases toks.len() - i,
    when 0 <= i
{
    if i >= toks.len() {
        match last {
            None => Err(ConfigErrV::NoModuleDeclaration),
            Some(m) => if last_was_module {
                Ok(m)
            } else {
                Err(ConfigErrV::Downcast)
            },
        }
    } else if toks[i] is Ident {
        let n = toks[i]->Ident_0;
        if n == "module"@ {
            match spec_parse_module_call(toks, i) {
                Err(e) => Err(e),
                Ok((m, j)) => {
                    proof {
                        lemma_parse_module_call_adv(toks, i);
                    }
                    spec_eval_stmts(toks, j, Some(m), true)
                },
            }
        } else if n == "capabilities"@ {
            match spec_parse_capset_call(toks, i) {
                Err(e) => Err(e),
                Ok((c, j)) => {
                    proof {
                        lemma_parse_capset_call_adv(toks, i);
                    }
                    spec_eval_stmts(toks, j, last, false)
                },
            }
        } else if n == "mount"@ {
            match spec_parse_mount_call(toks, i) {
                Err(e) => Err(e),
                Ok((m, j)) => {
                    proof {
                        lemma_parse_mount_call_adv(toks, i);
                    }
                    spec_eval_stmts(toks, j, last, false)
                },
            }
        } else if n == "file_perms"@ {
            match spec_parse_file_perms_call(toks, i) {
                Err(_) => Err(ConfigErrV::MountInterpretation),
                Ok((p, j)) => {
                    proof {
                        lemma_parse_file_perms_call_adv(toks, i);
                    }
                    spec_eval_stmts(toks, j, last, false)
                },
            }
        } else if n == "dir_perms"@ {
            match spec_parse_dir_perms_call(toks, i) {
                Err(_) => Err(ConfigErrV::MountInterpretation),
                Ok((p, j)) => {
                    proof {
                        lemma_parse_dir_perms_call_adv(toks, i);
                    }
                    spec_eval_stmts(toks, j, last, false)
                },
            }
        } else {
            Err(ConfigErrV::Parse)
        }
    } else {
        Err(ConfigErrV::Parse)
    }
}

fn eval_stmts(toks: &Vec<Token>, i: usize, last: Option<CloudModule>, last_was_module: bool) -> (r:
    Result<CloudModule, ConfigError>)
    requires
        i <= toks.len(),
    ensures
        match r {
            Ok(m) => spec_eval_stmts(toks.deep_view(), i as int, opt_mod_view(last), last_was_module)
                == Ok::<_, ConfigErrV>(m@),
            Err(e) => spec_eval_stmts(
                toks.deep_view(),
                i as int,
                opt_mod_view(last),
                last_was_module,
            ) == Err::<ModuleV, _>(e@),
        },
    decreases toks.len() - i,
{
    if i >= toks.len() {
        return match last {
            None => Err(ConfigError::NoModuleDeclaration),
            Some(m) => {
                if last_was_module {
                    Ok(m)
                } else {
                    Err(ConfigError::Downcast)
                }
            },
        };
    }
    match &toks[i] {
        Token::Ident(n) => {
            if chars_eq(n.as_str(), "module") {
                match parse_module_call(toks, i) {
                    Err(e) => Err(e),
                    Ok((m, j)) => eval_stmts(toks, j, Some(m), true),
                }
            } else if chars_eq(n.as_str(), "capabilities") {
                match parse_capset_call(toks, i) {
                    Err(e) => Err(e),
                    Ok((_c, j)) => eval_stmts(toks, j, last, false),
                }
            } else if chars_eq(n.as_str(), "mount") {
                match parse_mount_call(toks, i) {
                    Err(e) => Err(e),
                    Ok((_m, j)) => eval_stmts(toks, j, last, false),
                }
            } else if chars_eq(n.as_str(), "file_perms") {
                match parse_file_perms_call(toks, i) {
                    Err(e) => Err(e),
                    Ok((_p, j)) => eval_stmts(toks, j, last, false),
                }
            } else if chars_eq(n.as_str(), "dir_perms") {
                match parse_dir_perms_call(toks, i) {
                    Err(e) => Err(e),
                    Ok((_p, j)) => eval_stmts(toks, j, last, false),
                }
            } else {
                Err(ConfigError::Parse)
            }
        },
        _ => Err(ConfigError::Parse),
    }
}

/// The module descriptor a configuration source denotes, or the first
/// error its evaluation meets.
pub open spec fn spec_extract_plugin(s: Seq<char>) -> Result<ModuleV, ConfigErrV> {
    match spec_lex(s) {
        Err(_) => Err(ConfigErrV::Parse),
        Ok(toks) => spec_eval_stmts(toks, 0, None, false),
    }
}

/// Evaluates configuration source text to the one module descriptor it
/// declares.  Exactly the first error aborts evaluation: bad syntax, a
/// capability token outside the vocabulary, an uninterpretable mount, a
/// missing module declaration, or a final value that is no module.
pub fn extract_plugin(config: &str) -> (r: Result<CloudModule, ConfigError>)
    ensures
        match r {
            Ok(m) => spec_extract_plugin(config@) == Ok::<_, ConfigErrV>(m@)
                && crate::descriptor::spec_module_wf(m@),
            Err(e) => spec_extract_plugin(config@) == Err::<ModuleV, _>(e@),
        },
{
    proof {
        lemma_extract_plugin_wf(config@);
    }
    match lex(config) {
        Err(e) => Err(e),
        Ok(toks) => eval_stmts(&toks, 0, None, false),
    }
}

/// A possibly still missing mount list whose present mounts are all
/// well-formed.
pub open spec fn opt_mounts_wf(o: Option<Seq<MountV>>) -> bool {
    match o {
        Some(ms) => crate::mounts::spec_mounts_wf(ms),
        None => true,
    }
}

proof fn lemma_mount_call_wf(toks: Seq<TokenV>, i: int)
    requires
        0 <= i,
    ensures
        spec_parse_mount_call(toks, i) matches Ok((m, j)) ==>
            crate::mounts::spec_mount_wf(m),
{
}

proof fn lemma_mount_list_rest_wf(toks: Seq<TokenV>, i: int, acc: Seq<MountV>)
    requires
        0 <= i,
        crate::mounts::spec_mounts_wf(acc),
    ensures
        spec_parse_mount_list_rest(toks, i, acc) matches Ok((v, j)) ==>
            crate::mounts::spec_mounts_wf(v),
    decreases toks.len() - i,
{
    if i < toks.len() && toks[i] is RBracket {
    } else {
        lemma_mount_call_wf(toks, i);
        lemma_parse_mount_call_adv(toks, i);
        match spec_parse_mount_call(toks, i) {
            Err(_) => {},
            Ok((m, j)) => {
                assert(crate::mounts::spec_mounts_wf(acc.push(m))) by {
                    assert forall|k: int|
                        0 <= k < acc.push(m).len() implies crate::mounts::spec_mount_wf(
                        acc.push(m)[k],
                    ) by {
                        if k < acc.len() {
                            assert(acc.push(m)[k] == acc[k]);
                        } else {
                            assert(acc.push(m)[k] == m);
                        }
                    }
                }
                if j < toks.len() && toks[j] is Comma {
                    lemma_mount_list_rest_wf(toks, j + 1, acc.push(m));
                }
            },
        }
    }
}

proof fn lemma_mount_list_wf(toks: Seq<TokenV>, i: int)
    requires
        0 <= i,
    ensures
        spec_parse_mount_list(toks, i) matches Ok((v, j)) ==>
            crate::mounts::spec_mounts_wf(v),
{
    if 0 <= i < toks.len() && toks[i] is LBracket {
        assert(crate::mounts::spec_mounts_wf(Seq::<MountV>::empty()));
        lemma_mount_list_rest_wf(toks, i + 1, Seq::empty());
    }
}

proof fn lemma_capset_arg_one_wf(
    toks: Seq<TokenV>,
    i: int,
    inh: Option<Seq<Seq<char>>>,
    mts: Option<Seq<MountV>>,
    np: int,
    kw: bool,
)
    requires
        0 <= i,
        opt_mounts_wf(mts),
    ensures
        spec_parse_capset_arg_one(toks, i, inh, mts, np, kw) matches Ok((st, j)) ==>
            opt_mounts_wf(st.1),
{
    lemma_mount_list_wf(toks, i + 2);
    lemma_mount_list_wf(toks, i);
}

proof fn lemma_capset_args_wf(
    toks: Seq<TokenV>,
    i: int,
    inh: Option<Seq<Seq<char>>>,
    mts: Option<Seq<MountV>>,
    np: int,
    kw: bool,
)
    requires
        0 <= i,
        opt_mounts_wf(mts),
    ensures
        spec_parse_capset_args(toks, i, inh, mts, np, kw) matches Ok((st, j)) ==>
            opt_mounts_wf(st.1),
    decreases toks.len() - i,
{
    if i < toks.len() && toks[i] is RParen {
    } else {
        lemma_capset_arg_one_wf(toks, i, inh, mts, np, kw);
        lemma_parse_capset_arg_one_adv(toks, i, inh, mts, np, kw);
        match spec_parse_capset_arg_one(toks, i, inh, mts, np, kw) {
            Err(_) => {},
            Ok(((inh2, mts2, np2, kw2), j)) => {
                if j < toks.len() && toks[j] is Comma {
                    lemma_capset_args_wf(toks, j + 1, inh2, mts2, np2, kw2);
                }
            },
        }
    }
}

proof fn lemma_capset_call_wf(toks: Seq<TokenV>, i: int)
    requires
        0 <= i,
    ensures
        spec_parse_capset_call(toks, i) matches Ok((c, j)) ==>
            crate::mounts::spec_mounts_wf(c.mounts),
{
    lemma_capset_args_wf(toks, i + 2, None, None, 0, false);
}

/// A possibly still missing capability set whose mounts are well-formed.
pub open spec fn opt_capset_wf(o: Option<CapSetV>) -> bool {
    match o {
        Some(c) => crate::mounts::spec_mounts_wf(c.mounts),
        None => true,
    }
}

proof fn lemma_module_arg_one_wf(
    toks: Seq<TokenV>,
    i: int,
    nm: Option<Seq<char>>,
    vr: Option<Seq<char>>,
    cs: Option<CapSetV>,
    ms: Option<Seq<MountV>>,
    np: int,
    kw: bool,
)
    requires
        0 <= i,
        opt_capset_wf(cs),
        opt_mounts_wf(ms),
    ensures
        spec_parse_module_arg_one(toks, i, nm, vr, cs, ms, np, kw) matches Ok((st, j)) ==>
            opt_capset_wf(st.2) && opt_mounts_wf(st.3),
{
    lemma_capset_call_wf(toks, i + 2);
    lemma_mount_list_wf(toks, i + 2);
    lemma_capset_call_wf(toks, i);
    lemma_mount_list_wf(toks, i);
}

proof fn lemma_module_args_wf(
    toks: Seq<TokenV>,
    i: int,
    nm: Option<Seq<char>>,
    vr: Option<Seq<char>>,
    cs: Option<CapSetV>,
    ms: Option<Seq<MountV>>,
    np: int,
    kw: bool,
)
    requires
        0 <= i,
        opt_capset_wf(cs),
        opt_mounts_wf(ms),
    ensures
        spec_parse_module_args(toks, i, nm, vr, cs, ms, np, kw) matches Ok((st, j)) ==>
            opt_capset_wf(st.2) && opt_mounts_wf(st.3),
    decreases toks.len() - i,
{
    if i < toks.len() && toks[i] is RParen {
    } else {
        lemma_module_arg_one_wf(toks, i, nm, vr, cs, ms, np, kw);
        lemma_parse_module_arg_one_adv(toks, i, nm, vr, cs, ms, np, kw);
        match spec_parse_module_arg_one(toks, i, nm, vr, cs, ms, np, kw) {
            Err(_) => {},
            Ok(((nm2, vr2, cs2, ms2, np2, kw2), j)) => {
                if j < toks.len() && toks[j] is Comma {
                    lemma_module_args_wf(toks, j + 1, nm2, vr2, cs2, ms2, np2, kw2);
                }
            },
        }
    }
}

proof fn lemma_module_call_wf(toks: Seq<TokenV>, i: int)
    requires
        0 <= i,
    ensures
        spec_parse_module_call(toks, i) matches Ok((m, j)) ==>
            crate::descriptor::spec_module_wf(m),
{
    if 0 <= i && i + 1 < toks.len() && toks[i] is Ident && toks[i]->Ident_0 == "module"@ && toks[i
        + 1] is LParen {
        lemma_module_args_wf(toks, i + 2, None, None, None, None, 0, false);
        match spec_parse_module_args(toks, i + 2, None, None, None, None, 0, false) {
            Err(_) => {},
            Ok(((nm, vr, cs, ms), j)) => {
                let capset = (match cs {
                    Some(c) => c,
                    None => CapSetV { inherits: Seq::empty(), mounts: Seq::empty() },
                });
                let extra = (match ms {
                    Some(m) => m,
                    None => Seq::<MountV>::empty(),
                });
                crate::descriptor::lemma_dedup_caps_unique(capset.inherits);
                assert(crate::mounts::spec_mounts_wf(capset.mounts));
                assert(crate::mounts::spec_mounts_wf(extra));
                assert(crate::mounts::spec_mounts_wf(capset.mounts + extra)) by {
                    assert forall|k: int|
                        0 <= k < (capset.mounts + extra).len()
                            implies crate::mounts::spec_mount_wf((capset.mounts + extra)[k]) by {
                        if k < capset.mounts.len() {
                            assert((capset.mounts + extra)[k] == capset.mounts[k]);
                        } else {
                            assert((capset.mounts + extra)[k] == extra[k
                                - capset.mounts.len()]);
                        }
                    }
                }
            },
        }
    }
}

proof fn lemma_eval_stmts_wf(toks: Seq<TokenV>, i: int, last: Option<ModuleV>, last_was_module: bool)
    requires
        0 <= i,
        last matches Some(m) ==> crate::descriptor::spec_module_wf(m),
    ensures
        spec_eval_stmts(toks, i, last, last_was_module) matches Ok(m) ==>
            crate::descriptor::spec_module_wf(m),
    decreases toks.len() - i,
{
    if i >= toks.len() {
    } else if toks[i] is Ident {
        let n = toks[i]->Ident_0;
        if n == "module"@ {
            lemma_module_call_wf(toks, i);
            match spec_parse_module_call(toks, i) {
                Err(_) => {},
                Ok((m, j)) => {
                    lemma_parse_module_call_adv(toks, i);
                    lemma_eval_stmts_wf(toks, j, Some(m), true);
                },
            }
        } else if n == "capabilities"@ {
            match spec_parse_capset_call(toks, i) {
                Err(_) => {},
                Ok((c, j)) => {
                    lemma_parse_capset_call_adv(toks, i);
                    lemma_eval_stmts_wf(toks, j, last, false);
                },
            }
        } else if n == "mount"@ {
            match spec_parse_mount_call(toks, i) {
                Err(_) => {},
                Ok((m, j)) => {
                    lemma_parse_mount_call_adv(toks, i);
                    lemma_eval_stmts_wf(toks, j, last, false);
                },
            }
        } else if n == "file_perms"@ {
            match spec_parse_file_perms_call(toks, i) {
                Err(_) => {},
                Ok((p, j)) => {
                    lemma_parse_file_perms_call_adv(toks, i);
                    lemma_eval_stmts_wf(toks, j, last, false);
                },
            }
        } else if n == "dir_perms"@ {
            match spec_parse_dir_perms_call(toks, i) {
                Err(_) => {},
                Ok((p, j)) => {
                    lemma_parse_dir_perms_call_adv(toks, i);
                    lemma_eval_stmts_wf(toks, j, last, false);
                },
            }
        }
    }
}

/// Law: every module descriptor that evaluation returns is well-formed —
/// its name and version are non-empty, it holds no capability twice, and
/// every one of its mounts names both of its paths.
pub proof fn lemma_extract_plugin_wf(s: Seq<char>)
    ensures
        spec_extract_plugin(s) matches Ok(m) ==> crate::descriptor::spec_module_wf(m),
{
    match spec_lex(s) {
        Err(_) => {},
        Ok(toks) => {
            lemma_eval_stmts_wf(toks, 0, None, false);
        },
    }
}

} // verus!
