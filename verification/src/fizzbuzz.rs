use vstd::prelude::*;
use crate::ports::{NodeError, required, require_input};

verus! {

/// The word the fizz operator emits for a value: "Fizz" for an even value,
/// the empty string otherwise.
pub open spec fn fizz_word(value: usize) -> Seq<char> {
    if value % 2 == 0 {
        seq!['F', 'i', 'z', 'z']
    } else {
        Seq::empty()
    }
}

/// The buzzword a buzz operator starts with when none is configured.
pub open spec fn default_buzzword() -> Seq<char> {
    seq!['B', 'u', 'z', 'z']
}

/// The text the buzz operator emits: the incoming text, followed by the
/// buzzword when the value is a multiple of three.
pub open spec fn buzz_text(fizz: Seq<char>, value: usize, buzzword: Seq<char>) -> Seq<char> {
    if value % 3 == 0 {
        fizz + buzzword
    } else {
        fizz
    }
}

/// What the fizz operator sends: the value it received, on its integer
/// port, and its word, on its string port.
pub struct FizzOutputs {
    pub int: usize,
    pub text: String,
}

/// The fizz operator's step. The value comes from its integer input port.
pub fn fizz_run<E>(value: Option<Result<usize, E>>) -> (r: Result<FizzOutputs, NodeError<E>>)
    ensures
        match required(value) {
            Err(e) => r == Err::<FizzOutputs, NodeError<E>>(e),
            Ok(v) => r matches Ok(out) && out.int == v && out.text@ == fizz_word(v),
        },
{
    let v = require_input(value)?;
    let text = if v % 2 == 0 {
        let s = String::from_str("Fizz");
        proof {
            reveal_strlit("Fizz");
        }
        s
    } else {
        String::new()
    };
    Ok(FizzOutputs { int: v, text })
}

/// The state of a buzz operator: the word it appends.
#[derive(Clone, Debug)]
pub struct BuzzState {
    pub buzzword: String,
}

impl BuzzState {
    /// The state for a configured buzzword, if the configuration gave one
    /// as a string, else for "Buzz".
    pub fn from_configured(buzzword: Option<String>) -> (s: BuzzState)
        ensures
            match buzzword {
                Some(b) => s.buzzword@ == b@,
                None => s.buzzword@ == default_buzzword(),
            },
    {
        match buzzword {
            Some(b) => BuzzState { buzzword: b },
            None => {
                let s = String::from_str("Buzz");
                proof {
                    reveal_strlit("Buzz");
                }
                BuzzState { buzzword: s }
            },
        }
    }
}

/// The buzz operator's step. The text comes from its string port, which is
/// read first; the value from its integer port.
pub fn buzz_run<E>(
    state: &BuzzState,
    fizz: Option<Result<String, E>>,
    value: Option<Result<usize, E>>,
) -> (r: Result<String, NodeError<E>>)
    ensures
        match required(fizz) {
            Err(e) => r == Err::<String, NodeError<E>>(e),
            Ok(f) => match required(value) {
                Err(e) => r == Err::<String, NodeError<E>>(e),
                Ok(v) => r matches Ok(out) && out@ == buzz_text(f@, v, state.buzzword@),
            },
        },
{
    let f = require_input(fizz)?;
    let v = require_input(value)?;
    let mut out = f;
    if v % 3 == 0 {
        out.append(state.buzzword.as_str());
    }
    Ok(out)
}

/// The buzz operator only ever appends: its output starts with the text it
/// received, followed by either nothing or its buzzword.
pub proof fn lemma_buzz_extends(fizz: Seq<char>, value: usize, buzzword: Seq<char>)
    ensures
        buzz_text(fizz, value, buzzword).subrange(0, fizz.len() as int) == fizz,
        buzz_text(fizz, value, buzzword).len() == fizz.len() || buzz_text(fizz, value, buzzword)
            == fizz + buzzword,
{
    assert((fizz + buzzword).subrange(0, fizz.len() as int) =~= fizz);
    assert(fizz.subrange(0, fizz.len() as int) =~= fizz);
}

/// The text a value ends up with after the fizz operator and then a buzz
/// operator with the default buzzword.
pub open spec fn fizzbuzz_text(value: usize) -> Seq<char> {
    buzz_text(fizz_word(value), value, default_buzzword())
}

/// Through fizz then buzz with the default buzzword, a value reads
/// "FizzBuzz" exactly when it is a multiple of six, and reads as empty
/// exactly when it is a multiple of neither two nor three.
pub proof fn lemma_fizzbuzz_pipeline(value: usize)
    ensures
        fizzbuzz_text(value) == seq!['F', 'i', 'z', 'z', 'B', 'u', 'z', 'z'] <==> value % 6 == 0,
        fizzbuzz_text(value).len() == 0 <==> (value % 2 != 0 && value % 3 != 0),
{
    assert((value % 6 == 0) <==> (value % 2 == 0 && value % 3 == 0)) by (nonlinear_arith);
    let fb = seq!['F', 'i', 'z', 'z', 'B', 'u', 'z', 'z'];
    if value % 2 == 0 && value % 3 == 0 {
        assert(fizzbuzz_text(value) =~= fb);
    } else {
        assert(fizzbuzz_text(value).len() <= 4);
    }
}

/// The fizz operator's word is "Fizz" for every even value and empty for
/// every odd one.
pub proof fn lemma_fizz_word(value: usize)
    ensures
        value % 2 == 0 ==> fizz_word(value) == seq!['F', 'i', 'z', 'z'],
        value % 2 != 0 ==> fizz_word(value).len() == 0,
        fizz_word(value) == seq!['F', 'i', 'z', 'z'] <==> value % 2 == 0,
{
    if value % 2 != 0 {
        assert(fizz_word(value).len() != seq!['F', 'i', 'z', 'z'].len());
    }
}

/// Whatever the buzzword, a multiple of three gets the whole buzzword
/// appended to the incoming text, and any other value passes the text on
/// unchanged.
pub proof fn lemma_buzz_appends_buzzword(fizz: Seq<char>, value: usize, buzzword: Seq<char>)
    ensures
        value % 3 == 0 ==> buzz_text(fizz, value, buzzword) == fizz + buzzword,
        value % 3 == 0 ==> buzz_text(fizz, value, buzzword).len() == fizz.len() + buzzword.len(),
        value % 3 != 0 ==> buzz_text(fizz, value, buzzword) == fizz,
{
}

} // verus!
