//! The evaluator: a stack of signed integers and the execution of lines
//! against it.

use vstd::prelude::*;

use crate::eval::{
    err_msg, is_binary, res_matches, run_res, run_stack, step, word_step, ErrV, EvalError, Word,
};
use crate::numbers::{int_dec, to_decimal};
use crate::tokens::{char_is_space, lemma_token_end, token_end, tokenize, tokens_from};
use vstd::string::StrSliceExecFns;
use vstd::string::StringExecFns;

verus! {

/// The rendering of a stack, bottom to top, as space-separated decimal
/// integers.
pub open spec fn join_space_spec(parts: Seq<Seq<char>>) -> Seq<char>
    decreases parts.len(),
{
    if parts.len() == 0 {
        Seq::empty()
    } else if parts.len() == 1 {
        parts[0]
    } else {
        parts[0] + seq![' '] + join_space_spec(parts.drop_first())
    }
}

/// The display text of a stack: its values bottom to top, each in decimal,
/// separated by single spaces.
pub open spec fn display_of(stack: Seq<i32>) -> Seq<char> {
    join_space_spec(stack.map_values(|v: i32| int_dec(v)))
}

/// Relies on `itertools::join`: with a `String` item the `Display` rendering
/// is the string itself, so the result is the items joined by the separator,
/// here a single space.
#[verifier::external_body]
fn join_space(parts: &Vec<String>) -> (r: String)
    ensures
        r@ == join_space_spec(parts@.map_values(|t: String| t@)),
{
    itertools::join(parts.iter(), " ")
}

/// Whether two string slices hold the same characters.
pub fn str_eq(a: &str, b: &str) -> (r: bool)
    ensures
        r == (a@ == b@),
{
    let na = a.unicode_len();
    let nb = b.unicode_len();
    if na != nb {
        return false;
    }
    let mut i: usize = 0;
    while i < na
        invariant
            i <= na,
            na == a@.len(),
            na == b@.len(),
            forall|k: int| 0 <= k < i ==> a@[k] == b@[k],
        decreases na - i,
    {
        if a.get_char(i) != b.get_char(i) {
            return false;
        }
        i += 1;
    }
    proof {
        assert(a@ =~= b@);
    }
    true
}

/// Whether a token-level executable result carries exactly the modeled one.
pub open spec fn tok_res_matches(r: Result<String, EvalError>, m: Result<Seq<char>, ErrV>) -> bool {
    match r {
        Ok(text) => m is Ok && text@ == m->Ok_0,
        Err(e) => m is Err && e@ == m->Err_0,
    }
}

/// The evaluator: an ordered stack of signed integers, top at the end.
pub struct Interpreter {
    data_stack: Vec<i32>,
}

impl View for Interpreter {
    type V = Seq<i32>;

    closed spec fn view(&self) -> Seq<i32> {
        self.data_stack@
    }
}

impl Interpreter {
    /// A fresh evaluator with an empty stack.
    pub fn new() -> (r: Interpreter)
        ensures
            r@ == Seq::<i32>::empty(),
    {
        Interpreter { data_stack: Vec::new() }
    }

    /// An independent copy: same stack contents, fresh backing storage, so
    /// mutating either evaluator never affects the other.
    pub fn duplicate(&self) -> (r: Interpreter)
        ensures
            r@ == self@,
    {
        let copy = self.data_stack.clone();
        proof {
            assert(copy@ =~= self.data_stack@);
        }
        Interpreter { data_stack: copy }
    }

    /// The stack, bottom to top, as space-separated decimal integers; empty
    /// string for an empty stack.
    pub fn stack_display(&self) -> (r: String)
        ensures
            r@ == display_of(self@),
    {
        let mut parts: Vec<String> = Vec::new();
        let mut idx: usize = 0;
        while idx < self.data_stack.len()
            invariant
                idx <= self.data_stack.len(),
                parts@.len() == idx,
                forall|k: int| 0 <= k < idx ==> #[trigger] parts@[k]@ == int_dec(self.data_stack@[k]),
            decreases self.data_stack.len() - idx,
        {
            parts.push(to_decimal(self.data_stack[idx]));
            idx += 1;
        }
        let r = join_space(&parts);
        proof {
            assert(parts@.map_values(|t: String| t@) =~= self@.map_values(|v: i32| int_dec(v)));
        }
        r
    }

    /// Pops the two operands of a binary word (first `a`, the old top, then
    /// `b`), pushes the value of the operation applied to `(a, b)`, and
    /// reports division or modulo by zero as an arithmetic error.
    pub fn execute_binary_op(&mut self, w: Word) -> (r: Result<String, EvalError>)
        requires
            is_binary(w),
        ensures
            final(self)@ == word_step(old(self)@, w).0,
            tok_res_matches(r, word_step(old(self)@, w).1),
    {
        let a_opt = self.data_stack.pop();
        let b_opt = self.data_stack.pop();
        match (a_opt, b_opt) {
            (Some(a), Some(b)) => {
                let v = match w {
                    Word::Add => a.wrapping_add(b),
                    Word::Subtract => a.wrapping_sub(b),
                    Word::Multiply => a.wrapping_mul(b),
                    Word::Divide => {
                        if b == 0 {
                            return Err(EvalError::Arithmetic { op: Word::Divide });
                        }
                        match a.checked_div(b) {
                            Some(q) => q,
                            None => i32::MIN,
                        }
                    },
                    Word::Modulo => {
                        if b == 0 {
                            return Err(EvalError::Arithmetic { op: Word::Modulo });
                        }
                        match a.checked_rem(b) {
                            Some(m) => m,
                            None => 0,
                        }
                    },
                    _ => {
                        proof {
                            assert(false);
                        }
                        0
                    },
                };
                self.data_stack.push(v);
                Ok(String::new())
            },
            _ => Err(EvalError::EmptyStack { op: w, needed: 2 }),
        }
    }

    /// Executes one token: pushes an integer literal, performs a recognized
    /// word, and reports anything else as unrecognized.
    pub fn execute_token(&mut self, token: &str) -> (r: Result<String, EvalError>)
        ensures
            final(self)@ == step(old(self)@, token@).0,
            tok_res_matches(r, step(old(self)@, token@).1),
    {
        match crate::numbers::parse_i32(token) {
            Some(v) => {
                self.data_stack.push(v);
                Ok(String::new())
            },
            None => {
                if str_eq(token, ".") {
                    match self.data_stack.pop() {
                        Some(a) => Ok(to_decimal(a)),
                        None => Err(EvalError::EmptyStack { op: Word::Print, needed: 1 }),
                    }
                } else if str_eq(token, "drop") {
                    match self.data_stack.pop() {
                        Some(_) => Ok(String::new()),
                        None => Err(EvalError::EmptyStack { op: Word::Drop, needed: 1 }),
                    }
                } else if str_eq(token, "dup") {
                    match self.data_stack.pop() {
                        Some(a) => {
                            self.data_stack.push(a);
                            self.data_stack.push(a);
                            Ok(String::new())
                        },
                        None => Err(EvalError::EmptyStack { op: Word::Dup, needed: 1 }),
                    }
                } else if str_eq(token, "swap") {
                    let a_opt = self.data_stack.pop();
                    let b_opt = self.data_stack.pop();
                    match (a_opt, b_opt) {
                        (Some(a), Some(b)) => {
                            self.data_stack.push(a);
                            self.data_stack.push(b);
                            Ok(String::new())
                        },
                        _ => Err(EvalError::EmptyStack { op: Word::Swap, needed: 2 }),
                    }
                } else if str_eq(token, "rot") {
                    let a_opt = self.data_stack.pop();
                    let b_opt = self.data_stack.pop();
                    let c_opt = self.data_stack.pop();
                    match (a_opt, b_opt, c_opt) {
                        (Some(a), Some(b), Some(c)) => {
                            self.data_stack.push(b);
                            self.data_stack.push(a);
                            self.data_stack.push(c);
                            Ok(String::new())
                        },
                        _ => Err(EvalError::EmptyStack { op: Word::Rot, needed: 3 }),
                    }
                } else if str_eq(token, "+") {
                    self.execute_binary_op(Word::Add)
                } else if str_eq(token, "-") {
                    self.execute_binary_op(Word::Subtract)
                } else if str_eq(token, "*") {
                    self.execute_binary_op(Word::Multiply)
                } else if str_eq(token, "/") {
                    self.execute_binary_op(Word::Divide)
                } else if str_eq(token, "mod") {
                    self.execute_binary_op(Word::Modulo)
                } else {
                    Err(EvalError::UnrecognizedToken { token: token.to_owned() })
                }
            },
        }
    }

    /// Splits `line` on whitespace and executes every token in order,
    /// unconditionally: tokens after a failing one still act on the stack.
    /// Returns the concatenated outputs of the print word, or the first
    /// token error's message.
    pub fn execute_line(&mut self, line: &str) -> (r: Result<String, String>)
        ensures
            final(self)@ == run_stack(old(self)@, tokenize(line@)),
            res_matches(r, run_res(old(self)@, tokenize(line@))),
    {
        let ghost s = line@;
        let ghost total = run_res(old(self)@, tokenize(s));
        let n = line.unicode_len();
        let mut out = String::new();
        let mut first_err: Option<String> = None;
        let mut i: usize = 0;
        while i < n
            invariant
                i <= n,
                n == s.len(),
                s == line@,
                total == run_res(old(self)@, tokenize(s)),
                run_stack(self@, tokens_from(s, i as int)) == run_stack(old(self)@, tokenize(s)),
                match first_err {
                    None => total == (match run_res(self@, tokens_from(s, i as int)) {
                        Ok(o) => Ok::<Seq<char>, ErrV>(out@ + o),
                        Err(e) => Err::<Seq<char>, ErrV>(e),
                    }),
                    Some(m) => total is Err && m@ == err_msg(total->Err_0),
                },
            decreases n - i,
        {
            let c = line.get_char(i);
            if char_is_space(c) {
                i += 1;
            } else {
                let mut j = i + 1;
                proof {
                    lemma_token_end(s, i as int);
                }
                while j < n && !char_is_space(line.get_char(j))
                    invariant
                        i < j <= n,
                        n == s.len(),
                        s == line@,
                        token_end(s, i as int) == token_end(s, j as int),
                    decreases n - j,
                {
                    j += 1;
                }
                proof {
                    assert(token_end(s, i as int) == j as int);
                }
                let tok = line.substring_char(i, j);
                let ghost toks_i = tokens_from(s, i as int);
                proof {
                    assert(toks_i == seq![tok@] + tokens_from(s, j as int));
                    assert(toks_i[0] == tok@);
                    assert(toks_i.drop_first() =~= tokens_from(s, j as int));
                }
                let ghost before = self@;
                let tr = self.execute_token(tok);
                proof {
                    assert(run_stack(before, toks_i) == run_stack(self@, tokens_from(s, j as int)));
                }
                match tr {
                    Ok(piece) => {
                        if first_err.is_none() {
                            proof {
                                if run_res(self@, tokens_from(s, j as int)) is Ok {
                                    let o2 = run_res(self@, tokens_from(s, j as int))->Ok_0;
                                    assert((out@ + piece@) + o2 =~= out@ + (piece@ + o2));
                                }
                            }
                            out.append(piece.as_str());
                        }
                    },
                    Err(e) => {
                        if first_err.is_none() {
                            first_err = Some(e.message());
                        }
                    },
                }
                i = j;
            }
        }
        proof {
            assert(tokens_from(s, n as int) =~= Seq::<Seq<char>>::empty());
        }
        match first_err {
            None => {
                proof {
                    assert(out@ + Seq::<char>::empty() =~= out@);
                }
                Ok(out)
            },
            Some(m) => Err(m),
        }
    }
}

} // verus!
