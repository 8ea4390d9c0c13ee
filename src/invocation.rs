use vstd::prelude::*;
use vstd::string::StringExecFns;

use crate::cue::{ActionModel, CueAction};

verus! {

/// The external program that plays a cue's audio file.
pub const PLAYER: &'static str = "play";

/// The decimal digit character for `d < 10`.
pub open spec fn digit_char(d: nat) -> char {
    if d == 0 {
        '0'
    } else if d == 1 {
        '1'
    } else if d == 2 {
        '2'
    } else if d == 3 {
        '3'
    } else if d == 4 {
        '4'
    } else if d == 5 {
        '5'
    } else if d == 6 {
        '6'
    } else if d == 7 {
        '7'
    } else if d == 8 {
        '8'
    } else {
        '9'
    }
}

/// The decimal representation of `n`, without leading zeros.
pub open spec fn decimal(n: nat) -> Seq<char>
    decreases n,
{
    if n < 10 {
        seq![digit_char(n)]
    } else {
        decimal(n / 10) + seq![digit_char(n % 10)]
    }
}

/// A duration in milliseconds as the player reads it: `250ms`.
pub open spec fn millis_text(ms: u32) -> Seq<char> {
    decimal(ms as nat) + "ms"@
}

/// The arguments for one optional fade: the flag and its duration, or nothing.
pub open spec fn fade_args(flag: Seq<char>, ms: Option<u32>) -> Seq<Seq<char>> {
    match ms {
        Some(n) => seq![flag, millis_text(n)],
        None => Seq::empty(),
    }
}

/// The player's arguments for a `Play` action: the file first, then the fades.
pub open spec fn play_args(file: Seq<char>, fade_in: Option<u32>, fade_out: Option<u32>) -> Seq<Seq<char>> {
    seq![file] + fade_args("--fade-in"@, fade_in) + fade_args("--fade-out"@, fade_out)
}

/// The program and arguments that carry out a cue's action, if it has any.
pub open spec fn invocation_of(id: u32, action: ActionModel) -> Option<InvocationModel> {
    match action {
        ActionModel::Play { file, fade_in, fade_out } => Some(
            InvocationModel { cue_id: id, program: PLAYER@, args: play_args(file, fade_in, fade_out) },
        ),
        ActionModel::Stop { .. } => None,
    }
}

/// An external process to start for a cue: the program and its arguments.
pub struct Invocation {
    pub cue_id: u32,
    pub program: String,
    pub args: Vec<String>,
}

/// Mathematical model of an `Invocation`.
pub struct InvocationModel {
    pub cue_id: u32,
    pub program: Seq<char>,
    pub args: Seq<Seq<char>>,
}

impl View for Invocation {
    type V = InvocationModel;

    open spec fn view(&self) -> InvocationModel {
        InvocationModel {
            cue_id: self.cue_id,
            program: self.program@,
            args: self.args@.map_values(|a: String| a@),
        }
    }
}

fn digit_str(d: u32) -> (r: &'static str)
    requires
        d < 10,
    ensures
        r@ == seq![digit_char(d as nat)],
{
    proof {
        reveal_strlit("0");
        reveal_strlit("1");
        reveal_strlit("2");
        reveal_strlit("3");
        reveal_strlit("4");
        reveal_strlit("5");
        reveal_strlit("6");
        reveal_strlit("7");
        reveal_strlit("8");
        reveal_strlit("9");
    }
    let r = if d == 0 {
        "0"
    } else if d == 1 {
        "1"
    } else if d == 2 {
        "2"
    } else if d == 3 {
        "3"
    } else if d == 4 {
        "4"
    } else if d == 5 {
        "5"
    } else if d == 6 {
        "6"
    } else if d == 7 {
        "7"
    } else if d == 8 {
        "8"
    } else {
        "9"
    };
    assert(r@ =~= seq![digit_char(d as nat)]);
    r
}

/// The decimal text of `n`.
pub fn decimal_text(n: u32) -> (r: String)
    ensures
        r@ == decimal(n as nat),
    decreases n,
{
    if n < 10 {
        String::from_str(digit_str(n))
    } else {
        let mut s = decimal_text(n / 10);
        s.append(digit_str(n % 10));
        s
    }
}

/// A duration in milliseconds as the player reads it.
pub fn millis_arg(ms: u32) -> (r: String)
    ensures
        r@ == millis_text(ms),
{
    let mut s = decimal_text(ms);
    s.append("ms");
    s
}

/// The process that carries out `action` for cue `id`; `None` for an action
/// that starts no process.
pub fn invocation_for(id: u32, action: &CueAction) -> (r: Option<Invocation>)
    ensures
        r matches Some(inv) ==> invocation_of(id, action@) == Some(inv@),
        r is None ==> invocation_of(id, action@) is None,
{
    match action {
        CueAction::Play { file, fade_in, fade_out } => {
            let mut args: Vec<String> = Vec::new();
            args.push(file.clone());
            match fade_in {
                Some(n) => {
                    args.push(String::from_str("--fade-in"));
                    args.push(millis_arg(*n));
                },
                None => {},
            }
            match fade_out {
                Some(n) => {
                    args.push(String::from_str("--fade-out"));
                    args.push(millis_arg(*n));
                },
                None => {},
            }
            let inv = Invocation { cue_id: id, program: String::from_str(PLAYER), args };
            assert(inv@.args =~= play_args(file@, *fade_in, *fade_out));
            Some(inv)
        },
        CueAction::Stop { .. } => None,
    }
}

} // verus!
