//! A one-operation calculator: a lexer that draws digits and signs from a
//! string, a parser for a number optionally followed by one addition or
//! subtraction, an evaluator, and a state machine driving the three.

use vstd::prelude::*;
use vstd::string::{StrSliceExecFns, StringExecFns};

verus! {

/// One lexical unit of an expression.
#[derive(Debug, Clone, Copy, PartialEq, Eq, Structural)]
pub enum Token {
    Number(i64),
    Plus,
    Minus,
    EOF,
}

/// An expression: a number, or one addition or subtraction.
#[derive(Debug, PartialEq)]
pub enum Expr {
    Number(i64),
    Add(Box<Expr>, Box<Expr>),
    Sub(Box<Expr>, Box<Expr>),
}

/// Where the calculator stands: waiting for input, holding input, holding a
/// result, or stopped on an error.
#[derive(Debug, PartialEq)]
pub enum CalcState {
    Idle,
    Ready(String),
    Error(String),
    Finished(i64),
}

/// Whether `c` is a decimal digit.
pub open spec fn is_digit(c: char) -> bool {
    48 <= c as u32 <= 57
}

/// The numeric value of the decimal digit `c`.
pub open spec fn digit_val(c: char) -> i64 {
    (c as u32 - 48) as i64
}

/// The tokens drawn from `s`, before the closing `EOF` marker: one token per
/// plus sign, minus sign or decimal digit, in order; every other character is
/// skipped.
pub open spec fn tokens_of(s: Seq<char>) -> Seq<Token>
    decreases s.len(),
{
    if s.len() == 0 {
        Seq::empty()
    } else {
        let rest = tokens_of(s.drop_last());
        let c = s.last();
        if c == '+' {
            rest.push(Token::Plus)
        } else if c == '-' {
            rest.push(Token::Minus)
        } else if is_digit(c) {
            rest.push(Token::Number(digit_val(c)))
        } else {
            rest
        }
    }
}

/// Every number token drawn from a string carries a single digit's value.
pub proof fn lemma_tokens_of_digits(s: Seq<char>)
    ensures
        forall|j: int| 0 <= j < tokens_of(s).len() ==> (#[trigger] tokens_of(s)[j] matches
            Token::Number(v) ==> 0 <= v <= 9),
    decreases s.len(),
{
    if s.len() > 0 {
        lemma_tokens_of_digits(s.drop_last());
    }
}

/// Split `input` into tokens and close the list with `EOF`.
pub fn tokenize(input: &str) -> (r: Vec<Token>)
    ensures
        r@ == tokens_of(input@).push(Token::EOF),
{
    let mut tokens: Vec<Token> = Vec::new();
    let len = input.unicode_len();
    let mut i: usize = 0;
    while i < len
        invariant
            0 <= i <= len,
            len == input@.len(),
            tokens@ == tokens_of(input@.take(i as int)),
        decreases len - i,
    {
        let ch = input.get_char(i);
        if ch == '+' {
            tokens.push(Token::Plus);
        } else if ch == '-' {
            tokens.push(Token::Minus);
        } else {
            let code = ch as u32;
            if 48 <= code && code <= 57 {
                tokens.push(Token::Number((code - 48) as i64));
            }
        }
        proof {
            assert(input@.take(i as int + 1).drop_last() =~= input@.take(i as int));
        }
        i = i + 1;
    }
    proof {
        assert(input@.take(len as int) =~= input@);
    }
    tokens.push(Token::EOF);
    tokens
}

/// What `parse` makes of a token sequence: a leading number alone or followed
/// by a plus or minus sign and a second number; `Err(())` stands for the
/// rejection of everything else. A sign with no well-formed right operand is
/// rejected; a number followed by anything but a sign parses as the number
/// alone.
pub open spec fn parse_spec(ts: Seq<Token>) -> Result<Expr, ()> {
    if ts.len() > 0 && ts[0] is Number {
        let a = ts[0]->Number_0;
        if ts.len() > 1 && ts[1] is Plus {
            if ts.len() > 2 && ts[2] is Number {
                Ok(Expr::Add(Box::new(Expr::Number(a)), Box::new(Expr::Number(ts[2]->Number_0))))
            } else {
                Err(())
            }
        } else if ts.len() > 1 && ts[1] is Minus {
            if ts.len() > 2 && ts[2] is Number {
                Ok(Expr::Sub(Box::new(Expr::Number(a)), Box::new(Expr::Number(ts[2]->Number_0))))
            } else {
                Err(())
            }
        } else {
            Ok(Expr::Number(a))
        }
    } else {
        Err(())
    }
}

/// Parse a token sequence into an expression, or reject it as invalid.
pub fn parse(tokens: &[Token]) -> (r: Result<Expr, String>)
    ensures
        r is Ok <==> parse_spec(tokens@) is Ok,
        r is Ok ==> r->Ok_0 == parse_spec(tokens@)->Ok_0,
        r matches Err(m) ==> m@ == "Invalid Expression"@,
{
    if tokens.len() > 0 {
        if let Token::Number(a) = tokens[0] {
            if tokens.len() > 1 {
                match tokens[1] {
                    Token::Plus => {
                        if tokens.len() > 2 {
                            if let Token::Number(b) = tokens[2] {
                                return Ok(Expr::Add(
                                    Box::new(Expr::Number(a)),
                                    Box::new(Expr::Number(b)),
                                ));
                            }
                        }
                    },
                    Token::Minus => {
                        if tokens.len() > 2 {
                            if let Token::Number(b) = tokens[2] {
                                return Ok(Expr::Sub(
                                    Box::new(Expr::Number(a)),
                                    Box::new(Expr::Number(b)),
                                ));
                            }
                        }
                    },
                    _ => {
                        return Ok(Expr::Number(a));
                    },
                }
            } else {
                return Ok(Expr::Number(a));
            }
        }
    }

    Err("Invalid Expression".to_owned())
}

/// The mathematical value of `e`.
pub open spec fn eval_spec(e: Expr) -> int
    decreases e,
{
    match e {
        Expr::Number(n) => n as int,
        Expr::Add(a, b) => eval_spec(*a) + eval_spec(*b),
        Expr::Sub(a, b) => eval_spec(*a) - eval_spec(*b),
    }
}

/// Whether every intermediate value of evaluating `e` fits a 64-bit signed
/// machine word.
pub open spec fn eval_in_range(e: Expr) -> bool
    decreases e,
{
    match e {
        Expr::Number(_) => true,
        Expr::Add(a, b) => eval_in_range(*a) && eval_in_range(*b) && i64::MIN <= eval_spec(*a)
            + eval_spec(*b) <= i64::MAX,
        Expr::Sub(a, b) => eval_in_range(*a) && eval_in_range(*b) && i64::MIN <= eval_spec(*a)
            - eval_spec(*b) <= i64::MAX,
    }
}

/// Evaluate `e`.
pub fn eval(expr: &Expr) -> (r: i64)
    requires
        eval_in_range(*expr),
    ensures
        r as int == eval_spec(*expr),
    decreases *expr,
{
    match expr {
        Expr::Number(n) => *n,
        Expr::Add(a, b) => eval(a) + eval(b),
        Expr::Sub(a, b) => eval(a) - eval(b),
    }
}

/// The calculator's driver: feed it a source string, run it, and read the
/// result or the error off its state.
pub struct MiniCalc {
    pub state: CalcState,
}

impl MiniCalc {
    /// A calculator with nothing to do yet.
    pub fn new() -> (r: Self)
        ensures
            r.state is Idle,
    {
        MiniCalc { state: CalcState::Idle }
    }

    /// Hand the calculator a source string to evaluate on the next run.
    pub fn input(&mut self, source: &str)
        ensures
            final(self).state matches CalcState::Ready(s) && s@ == source@,
    {
        self.state = CalcState::Ready(source.to_owned());
    }

    /// Run whatever input is ready: tokenize, parse and evaluate it, landing
    /// in `Finished` with the value or in `Error` with the parser's
    /// rejection. Run in any other state, the calculator lands in `Error`.
    pub fn run(&mut self)
        ensures
            old(self).state matches CalcState::Ready(input) ==> {
                let ts = tokens_of(input@).push(Token::EOF);
                &&& parse_spec(ts) matches Ok(e) ==> (final(self).state matches
                    CalcState::Finished(v) && v == eval_spec(e))
                &&& parse_spec(ts) is Err ==> (final(self).state matches CalcState::Error(m)
                    && m@ == "Invalid Expression"@)
            },
            !(old(self).state is Ready) ==> (final(self).state matches CalcState::Error(m)
                && m@ == "cannot run in this state"@),
    {
        match &self.state {
            CalcState::Ready(input) => {
                let tokens = tokenize(input.as_str());
                match parse(tokens.as_slice()) {
                    Ok(expr) => {
                        proof {
                            lemma_parsed_expr_in_range(input@, expr);
                        }
                        let result = eval(&expr);
                        self.state = CalcState::Finished(result);
                    },
                    Err(e) => {
                        self.state = CalcState::Error(e);
                    },
                }
            },
            _ => {
                self.state = CalcState::Error("cannot run in this state".to_owned());
            },
        }
    }
}

/// An expression parsed out of a tokenized string evaluates within machine
/// range: its leaves are single digits, so no sum or difference leaves
/// `-18..=18`.
proof fn lemma_parsed_expr_in_range(s: Seq<char>, e: Expr)
    requires
        parse_spec(tokens_of(s).push(Token::EOF)) == Ok::<Expr, ()>(e),
    ensures
        eval_in_range(e),
{
    let toks = tokens_of(s);
    let ts = toks.push(Token::EOF);
    lemma_tokens_of_digits(s);
    assert(ts[0] is Number);
    assert(toks.len() > 0);
    assert(ts[0] == toks[0]);
    let a = toks[0]->Number_0;
    assert(0 <= a <= 9);
    if e is Add || e is Sub {
        assert(ts.len() > 2 && ts[2] is Number);
        assert(toks.len() > 2);
        assert(ts[2] == toks[2]);
        let b = toks[2]->Number_0;
        assert(0 <= b <= 9);
        assert(eval_in_range(Expr::Number(a)));
        assert(eval_in_range(Expr::Number(b)));
    }
}

} // verus!
