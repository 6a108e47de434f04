use vstd::prelude::*;

verus! {

/// A character of the URL-safe alphabet: `_`, `-`, digits and ASCII letters.
pub open spec fn is_id_char(c: char) -> bool {
    ||| c == '_'
    ||| c == '-'
    ||| ('0' <= c && c <= '9')
    ||| ('a' <= c && c <= 'z')
    ||| ('A' <= c && c <= 'Z')
}

/// The shape of a generated identifier: 21 characters of the URL-safe alphabet.
pub open spec fn is_generated_id(s: Seq<char>) -> bool {
    &&& s.len() == 21
    &&& forall|i: int| 0 <= i < s.len() ==> is_id_char(#[trigger] s[i])
}

/// Calls `nanoid::format` with `nanoid::rngs::default`, `nanoid::alphabet::SAFE`
/// and the size 21, which is what `nanoid!()` expands to. The identifier is
/// random, so the contract states only what holds of every one: it has 21
/// characters, each taken from the `SAFE` alphabet. Left unsaid: which
/// characters come out; `rngs::default` panics if the operating system gives
/// no random bytes, which no input of this function decides.
#[verifier::external_body]
pub(crate) fn random_id() -> (id: String)
    ensures
        is_generated_id(id@),
{
    nanoid::format(nanoid::rngs::default, &nanoid::alphabet::SAFE, 21)
}

} // verus!
