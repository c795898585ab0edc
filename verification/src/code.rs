//! Short codes: what they look like and how fresh ones are drawn.

use vstd::prelude::*;

verus! {

/// The number of characters in a generated short code.
pub const CODE_LENGTH: usize = 6;

/// The characters a generated short code is drawn from: ASCII letters,
/// digits, `_` and `-`, all of which may stand unescaped in a URL path.
pub open spec fn is_code_char(c: char) -> bool {
    ||| c == '_'
    ||| c == '-'
    ||| '0' <= c <= '9'
    ||| 'a' <= c <= 'z'
    ||| 'A' <= c <= 'Z'
}

/// `id` consists of exactly `size` characters of the code alphabet.
pub open spec fn is_id_of_size(id: Seq<char>, size: nat) -> bool {
    &&& id.len() == size
    &&& forall|i: int| 0 <= i < id.len() ==> is_code_char(#[trigger] id[i])
}

/// What every generated short code looks like.
pub open spec fn is_short_code(code: Seq<char>) -> bool {
    is_id_of_size(code, CODE_LENGTH as nat)
}

/// Draws a random identifier of `size` characters with
/// `nanoid::format(nanoid::rngs::default, &nanoid::alphabet::SAFE, size)`.
///
/// Trusted: the identifier has exactly `size` characters, each from nanoid's
/// URL-safe alphabet (`_`, `-`, digits and ASCII letters). Which characters
/// come out is left open: they are random. A `size` of zero is excluded
/// because nanoid would then never finish, and a `size` whose eightfold
/// does not fit in `usize` because nanoid multiplies it by eight.
#[verifier::external_body]
fn random_id(size: usize) -> (id: String)
    requires
        0 < size,
        8 * size <= usize::MAX,
    ensures
        is_id_of_size(id@, size as nat),
{
    nanoid::format(nanoid::rngs::default, &nanoid::alphabet::SAFE, size)
}

/// Generates a fresh short code. Codes are random; two calls may return the
/// same code, and nothing here prevents that.
pub fn generate_code() -> (code: String)
    ensures
        is_short_code(code@),
{
    random_id(CODE_LENGTH)
}

} // verus!
