//! A small text-shouting helper: uppercases its input and appends a run of
//! exclamation marks, reporting the byte length of what it built.

use vstd::prelude::*;

verus! {

/// An uppercased, emphasized string together with its byte length.
pub struct HypeOutput {
    pub output: String,
    pub new_len: usize,
}

/// What uppercasing a character sequence yields.  The result depends on
/// the characters alone.
pub uninterp spec fn upper_of(s: Seq<char>) -> Seq<char>;

/// The byte length of a character sequence in its UTF-8 encoding.
pub uninterp spec fn byte_len_of(s: Seq<char>) -> int;

/// Relies on str::to_uppercase: the Unicode uppercase mapping of the
/// string, a function of its characters alone.
#[verifier::external_body]
fn to_uppercase_string(s: &String) -> (r: String)
    ensures
        r@ == upper_of(s@),
        s@.len() == 0 ==> r@.len() == 0,
{
    s.to_uppercase()
}

/// Relies on String::len: the length of the string in bytes.  Every ASCII
/// character encodes as one byte, so for an ASCII string this equals the
/// character count.
#[verifier::external_body]
fn string_byte_len(s: &String) -> (r: usize)
    ensures
        r as int == byte_len_of(s@),
        s.is_ascii() ==> r as int == s@.len(),
{
    s.len()
}

/// A run of `n` exclamation marks (none if `n` is not positive).
pub open spec fn spec_excl_run(n: int) -> Seq<char> {
    if n <= 0 {
        Seq::empty()
    } else {
        Seq::new(n as nat, |i: int| '!')
    }
}

/// Uppercases `input` and appends `num_exclamations` exclamation marks;
/// `new_len` reports the byte length of the result.
pub fn hypeify(input: String, num_exclamations: i32) -> (out: HypeOutput)
    ensures
        out.output@ == upper_of(input@) + spec_excl_run(num_exclamations as int),
        out.new_len as int == byte_len_of(out.output@),
{
    let mut res = to_uppercase_string(&input);
    proof {
        reveal_strlit("!");
        assert(res@ =~= upper_of(input@) + spec_excl_run(0));
    }
    let mut i: i32 = 0;
    while i < num_exclamations
        invariant
            0 <= i,
            num_exclamations > 0 ==> i <= num_exclamations,
            num_exclamations <= 0 ==> i == 0,
            res@ == upper_of(input@) + spec_excl_run(i as int),
        decreases num_exclamations - i,
    {
        res.append("!");
        proof {
            reveal_strlit("!");
            assert(res@ =~= upper_of(input@) + spec_excl_run(i + 1));
        }
        i = i + 1;
    }
    let new_len = string_byte_len(&res);
    HypeOutput { output: res, new_len }
}

} // verus!
