//! Token-level and line-level execution semantics of the stack language.
//!
//! Everything here is the mathematical model: total spec functions giving,
//! for any stack and token sequence, the resulting stack and the textual
//! output or first error.

use vstd::prelude::*;

use crate::numbers::{int_dec, is_i32_literal, literal_val};

verus! {

/// A recognized word of the language.
#[derive(Clone, Copy, PartialEq, Eq, Structural, Debug)]
pub enum Word {
    Print,
    Drop,
    Dup,
    Swap,
    Rot,
    Add,
    Subtract,
    Multiply,
    Divide,
    Modulo,
}

/// The mathematical shape of an evaluation error.
pub enum ErrV {
    /// A word needed more stack elements than were present.
    EmptyStack { op: Word, needed: nat },
    /// A token that is neither an integer literal nor a word.
    Unrecognized { token: Seq<char> },
    /// Division or modulo by zero.
    Arithmetic { op: Word },
}

/// An evaluation error, carried as a value.
pub enum EvalError {
    /// A word needed `needed` stack elements and found fewer.
    EmptyStack { op: Word, needed: usize },
    /// A token that is neither an integer literal nor a word.
    UnrecognizedToken { token: String },
    /// Division or modulo by zero.
    Arithmetic { op: Word },
}

impl View for EvalError {
    type V = ErrV;

    open spec fn view(&self) -> ErrV {
        match self {
            EvalError::EmptyStack { op, needed } => ErrV::EmptyStack {
                op: *op,
                needed: *needed as nat,
            },
            EvalError::UnrecognizedToken { token } => ErrV::Unrecognized { token: token@ },
            EvalError::Arithmetic { op } => ErrV::Arithmetic { op: *op },
        }
    }
}

/// The user-visible message of an error.
pub open spec fn err_msg(e: ErrV) -> Seq<char> {
    match e {
        ErrV::EmptyStack { op, .. } => match op {
            Word::Print => "Can't print, empty stack"@,
            Word::Drop => "Can't drop, empty stack"@,
            Word::Dup => "Can't dup, empty stack"@,
            Word::Swap => "Can't swap, less than 2 elements on the stack"@,
            Word::Rot => "Can't rot, less than 3 elements on the stack"@,
            Word::Add => "Can't add, less than two elements on the stack"@,
            Word::Subtract => "Can't subtract, less than two elements on the stack"@,
            Word::Multiply => "Can't multiply, less than two elements on the stack"@,
            Word::Divide => "Can't divide, less than two elements on the stack"@,
            Word::Modulo => "Can't mod, less than two elements on the stack"@,
        },
        ErrV::Unrecognized { token } => "Unrecognized token: "@ + token,
        ErrV::Arithmetic { op } => if op == Word::Modulo {
            "Can't mod, division by zero"@
        } else {
            "Can't divide, division by zero"@
        },
    }
}

impl EvalError {
    /// The user-visible message of this error.
    pub fn message(&self) -> (r: String)
        ensures
            r@ == err_msg(self@),
    {
        match self {
            EvalError::EmptyStack { op, .. } => match op {
                Word::Print => "Can't print, empty stack".to_owned(),
                Word::Drop => "Can't drop, empty stack".to_owned(),
                Word::Dup => "Can't dup, empty stack".to_owned(),
                Word::Swap => "Can't swap, less than 2 elements on the stack".to_owned(),
                Word::Rot => "Can't rot, less than 3 elements on the stack".to_owned(),
                Word::Add => "Can't add, less than two elements on the stack".to_owned(),
                Word::Subtract => "Can't subtract, less than two elements on the stack".to_owned(),
                Word::Multiply => "Can't multiply, less than two elements on the stack".to_owned(),
                Word::Divide => "Can't divide, less than two elements on the stack".to_owned(),
                Word::Modulo => "Can't mod, less than two elements on the stack".to_owned(),
            },
            EvalError::UnrecognizedToken { token } => {
                let mut m = "Unrecognized token: ".to_owned();
                m.append(token.as_str());
                m
            },
            EvalError::Arithmetic { op } => if *op == Word::Modulo {
                "Can't mod, division by zero".to_owned()
            } else {
                "Can't divide, division by zero".to_owned()
            },
        }
    }
}

/// The word a token names, if any.
pub open spec fn word_of(tok: Seq<char>) -> Option<Word> {
    if tok == "."@ {
        Some(Word::Print)
    } else if tok == "drop"@ {
        Some(Word::Drop)
    } else if tok == "dup"@ {
        Some(Word::Dup)
    } else if tok == "swap"@ {
        Some(Word::Swap)
    } else if tok == "rot"@ {
        Some(Word::Rot)
    } else if tok == "+"@ {
        Some(Word::Add)
    } else if tok == "-"@ {
        Some(Word::Subtract)
    } else if tok == "*"@ {
        Some(Word::Multiply)
    } else if tok == "/"@ {
        Some(Word::Divide)
    } else if tok == "mod"@ {
        Some(Word::Modulo)
    } else {
        None
    }
}

/// Whether a word pops two values and pushes one.
pub open spec fn is_binary(w: Word) -> bool {
    w == Word::Add || w == Word::Subtract || w == Word::Multiply || w == Word::Divide || w
        == Word::Modulo
}

/// Truncated division as the machine performs it, wrapping on the one
/// overflowing pair.
pub open spec fn wrap_div(a: i32, b: i32) -> i32
    recommends
        b != 0,
{
    match a.checked_div(b) {
        Some(q) => q,
        None => i32::MIN,
    }
}

/// Truncated remainder as the machine performs it, wrapping on the one
/// overflowing pair.
pub open spec fn wrap_rem(a: i32, b: i32) -> i32
    recommends
        b != 0,
{
    match a.checked_rem(b) {
        Some(r) => r,
        None => 0,
    }
}

/// The value a binary word computes from the first-popped value `a` and the
/// second-popped value `b`, or the arithmetic error it raises.
pub open spec fn binop_val(w: Word, a: i32, b: i32) -> Result<i32, ErrV>
    recommends
        is_binary(w),
{
    match w {
        Word::Add => Ok(vstd::wrapping::i32_specs::wrapping_add(a, b)),
        Word::Subtract => Ok(vstd::wrapping::i32_specs::wrapping_sub(a, b)),
        Word::Multiply => Ok(vstd::wrapping::i32_specs::wrapping_mul(a, b)),
        Word::Divide => if b == 0 {
            Err(ErrV::Arithmetic { op: Word::Divide })
        } else {
            Ok(wrap_div(a, b))
        },
        Word::Modulo => if b == 0 {
            Err(ErrV::Arithmetic { op: Word::Modulo })
        } else {
            Ok(wrap_rem(a, b))
        },
        _ => Ok(0),
    }
}

/// What one word does to a stack: the stack after it, and its output or
/// error.  A word that fails for want of elements still pops what it can,
/// so a failed two- or three-element word leaves the stack empty.
pub open spec fn word_step(stack: Seq<i32>, w: Word) -> (Seq<i32>, Result<Seq<char>, ErrV>) {
    match w {
        Word::Print => if stack.len() >= 1 {
            (stack.drop_last(), Ok(int_dec(stack.last())))
        } else {
            (stack, Err(ErrV::EmptyStack { op: w, needed: 1 }))
        },
        Word::Drop => if stack.len() >= 1 {
            (stack.drop_last(), Ok(Seq::empty()))
        } else {
            (stack, Err(ErrV::EmptyStack { op: w, needed: 1 }))
        },
        Word::Dup => if stack.len() >= 1 {
            (stack.push(stack.last()), Ok(Seq::empty()))
        } else {
            (stack, Err(ErrV::EmptyStack { op: w, needed: 1 }))
        },
        Word::Swap => if stack.len() >= 2 {
            let a = stack.last();
            let b = stack[stack.len() - 2];
            (stack.drop_last().drop_last().push(a).push(b), Ok(Seq::empty()))
        } else {
            (Seq::empty(), Err(ErrV::EmptyStack { op: w, needed: 2 }))
        },
        Word::Rot => if stack.len() >= 3 {
            let a = stack.last();
            let b = stack[stack.len() - 2];
            let c = stack[stack.len() - 3];
            (
                stack.drop_last().drop_last().drop_last().push(b).push(a).push(c),
                Ok(Seq::empty()),
            )
        } else {
            (Seq::empty(), Err(ErrV::EmptyStack { op: w, needed: 3 }))
        },
        _ => if stack.len() >= 2 {
            let a = stack.last();
            let b = stack[stack.len() - 2];
            let base = stack.drop_last().drop_last();
            match binop_val(w, a, b) {
                Ok(v) => (base.push(v), Ok(Seq::empty())),
                Err(e) => (base, Err(e)),
            }
        } else {
            (Seq::empty(), Err(ErrV::EmptyStack { op: w, needed: 2 }))
        },
    }
}

/// What one token does to a stack: an integer literal is pushed; a word acts
/// per `word_step`; anything else is an unrecognized token.
pub open spec fn step(stack: Seq<i32>, tok: Seq<char>) -> (Seq<i32>, Result<Seq<char>, ErrV>) {
    if is_i32_literal(tok) {
        (stack.push(literal_val(tok) as i32), Ok(Seq::empty()))
    } else {
        match word_of(tok) {
            Some(w) => word_step(stack, w),
            None => (stack, Err(ErrV::Unrecognized { token: tok })),
        }
    }
}

/// The stack after every token of `toks` has run, in order and
/// unconditionally: tokens after a failing token still act.
pub open spec fn run_stack(stack: Seq<i32>, toks: Seq<Seq<char>>) -> Seq<i32>
    decreases toks.len(),
{
    if toks.len() == 0 {
        stack
    } else {
        run_stack(step(stack, toks[0]).0, toks.drop_first())
    }
}

/// The aggregate result of a line: the concatenation of every token's output
/// while no token has failed, or the first failing token's error.
pub open spec fn run_res(stack: Seq<i32>, toks: Seq<Seq<char>>) -> Result<Seq<char>, ErrV>
    decreases toks.len(),
{
    if toks.len() == 0 {
        Ok(Seq::empty())
    } else {
        let (stack1, out) = step(stack, toks[0]);
        match out {
            Err(e) => Err(e),
            Ok(text) => match run_res(stack1, toks.drop_first()) {
                Ok(rest) => Ok(text + rest),
                Err(e) => Err(e),
            },
        }
    }
}

/// Whether an executable line result carries exactly the modeled result:
/// the same output text on success, the first error's message on failure.
pub open spec fn res_matches(r: Result<String, String>, m: Result<Seq<char>, ErrV>) -> bool {
    match r {
        Ok(text) => m is Ok && text@ == m->Ok_0,
        Err(e) => m is Err && e@ == err_msg(m->Err_0),
    }
}

} // verus!
