//! Building the program name and argument list for the selected command.
//!
//! On Windows the command interpreter is invoked with the raw command string
//! as a single argument; elsewhere the command string is split on whitespace
//! into a program name and arguments, with no quoting support (spaces inside
//! quoted segments are not honored).

use crate::filter::chars_to_string;
use crate::filter::string_chars;
use vstd::prelude::*;

verus! {

/// The characters that separate tokens: the Unicode white-space characters,
/// as `char::is_whitespace` classifies them.
pub open spec fn is_ws(c: char) -> bool {
    ||| c == ' '
    ||| c == '\t'
    ||| c == '\n'
    ||| c == '\u{0B}'
    ||| c == '\u{0C}'
    ||| c == '\r'
    ||| c == '\u{85}'
    ||| c == '\u{A0}'
    ||| c == '\u{1680}'
    ||| ('\u{2000}' <= c && c <= '\u{200A}')
    ||| c == '\u{2028}'
    ||| c == '\u{2029}'
    ||| c == '\u{202F}'
    ||| c == '\u{205F}'
    ||| c == '\u{3000}'
}

/// The whitespace-separated tokens of `s[i..]`, given the token read so far
/// (`cur`) and the tokens already complete (`acc`).
pub open spec fn split_ws_from(s: Seq<char>, i: int, cur: Seq<char>, acc: Seq<Seq<char>>) -> Seq<
    Seq<char>,
>
    decreases s.len() - i,
{
    if i < 0 || i >= s.len() {
        if cur.len() == 0 {
            acc
        } else {
            acc.push(cur)
        }
    } else if is_ws(s[i]) {
        if cur.len() == 0 {
            split_ws_from(s, i + 1, cur, acc)
        } else {
            split_ws_from(s, i + 1, Seq::empty(), acc.push(cur))
        }
    } else {
        split_ws_from(s, i + 1, cur.push(s[i]), acc)
    }
}

/// The whitespace-separated tokens of `s`, in order.
pub open spec fn split_ws(s: Seq<char>) -> Seq<Seq<char>> {
    split_ws_from(s, 0, Seq::empty(), Seq::empty())
}

/// The program part of a command string: its first token, or empty when the
/// string holds no token.
pub open spec fn spec_program(cmd: Seq<char>) -> Seq<char> {
    if split_ws(cmd).len() == 0 {
        Seq::empty()
    } else {
        split_ws(cmd)[0]
    }
}

/// The argument part of a command string: every token after the first.
pub open spec fn spec_args(cmd: Seq<char>) -> Seq<Seq<char>> {
    if split_ws(cmd).len() == 0 {
        Seq::empty()
    } else {
        split_ws(cmd).drop_first()
    }
}

fn is_ws_char(c: char) -> (r: bool)
    ensures
        r == is_ws(c),
{
    c == ' ' || c == '\t' || c == '\n' || c == '\u{0B}' || c == '\u{0C}' || c == '\r'
        || c == '\u{85}' || c == '\u{A0}' || c == '\u{1680}' || ('\u{2000}' <= c && c
        <= '\u{200A}') || c == '\u{2028}' || c == '\u{2029}' || c == '\u{202F}' || c == '\u{205F}'
        || c == '\u{3000}'
}

fn split_whitespace_chars(chars: &Vec<char>) -> (tokens: Vec<Vec<char>>)
    ensures
        tokens.deep_view() == split_ws(chars@),
{
    let mut tokens: Vec<Vec<char>> = Vec::new();
    let mut cur: Vec<char> = Vec::new();
    let mut i: usize = 0;
    proof {
        assert(tokens.deep_view() =~~= Seq::<Seq<char>>::empty());
    }
    while i < chars.len()
        invariant
            i <= chars@.len(),
            split_ws(chars@) == split_ws_from(chars@, i as int, cur@, tokens.deep_view()),
        decreases chars@.len() - i,
    {
        let ghost pre_tokens = tokens.deep_view();
        let ghost pre_cur = cur@;
        let c = chars[i];
        if is_ws_char(c) {
            if cur.len() > 0 {
                tokens.push(cur);
                cur = Vec::new();
                proof {
                    assert(tokens.deep_view() =~~= pre_tokens.push(pre_cur));
                }
            }
        } else {
            cur.push(c);
        }
        i += 1;
    }
    if cur.len() > 0 {
        let ghost pre_tokens = tokens.deep_view();
        let ghost pre_cur = cur@;
        tokens.push(cur);
        proof {
            assert(tokens.deep_view() =~~= pre_tokens.push(pre_cur));
        }
    }
    tokens
}

/// The program and arguments that running a command spawns.
#[derive(Debug)]
pub struct Invocation {
    pub program: String,
    pub args: Vec<String>,
}

/// How a command string is run: on Windows, the command interpreter gets the
/// raw string as one argument; elsewhere the string is split on whitespace
/// into a program name and its arguments.
pub fn build_invocation(command: &String, is_windows: bool) -> (inv: Invocation)
    ensures
        is_windows ==> inv.program@ == "cmd"@ && inv.args.deep_view() == seq!["/C"@, command@],
        !is_windows ==> inv.program@ == spec_program(command@) && inv.args.deep_view()
            == spec_args(command@),
{
    if is_windows {
        let mut args: Vec<String> = Vec::new();
        args.push("/C".to_owned());
        args.push(command.clone());
        let inv = Invocation { program: "cmd".to_owned(), args };
        proof {
            assert(inv.args.deep_view() =~~= seq!["/C"@, command@]);
        }
        inv
    } else {
        let chars = string_chars(command);
        let tokens = split_whitespace_chars(&chars);
        let mut program = String::new();
        let mut args: Vec<String> = Vec::new();
        if tokens.len() > 0 {
            program = chars_to_string(&tokens[0]);
            let mut i: usize = 1;
            while i < tokens.len()
                invariant
                    1 <= i <= tokens@.len(),
                    tokens.deep_view() == split_ws(command@),
                    args.deep_view() == tokens.deep_view().subrange(1, i as int),
                decreases tokens@.len() - i,
            {
                let ghost pre_args = args.deep_view();
                args.push(chars_to_string(&tokens[i]));
                proof {
                    assert(args.deep_view() =~~= pre_args.push(tokens.deep_view()[i as int]));
                    assert(args.deep_view() =~~= tokens.deep_view().subrange(1, i + 1));
                }
                i += 1;
            }
            proof {
                assert(args.deep_view() =~~= spec_args(command@));
            }
        } else {
            proof {
                assert(args.deep_view() =~~= spec_args(command@));
            }
        }
        Invocation { program, args }
    }
}

} // verus!
