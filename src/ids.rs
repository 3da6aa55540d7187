use vstd::prelude::*;

verus! {

/// Number of characters in a generated record id.
pub const ID_LEN: usize = 21;

/// A character of the URL-safe id alphabet: ASCII letters, digits, `_` and `-`.
pub open spec fn is_url_safe_char(c: char) -> bool {
    ||| ('a' <= c && c <= 'z')
    ||| ('A' <= c && c <= 'Z')
    ||| ('0' <= c && c <= '9')
    ||| c == '_'
    ||| c == '-'
}

/// A well-formed generated id: `ID_LEN` URL-safe characters.
pub open spec fn is_generated_id(s: Seq<char>) -> bool {
    &&& s.len() == ID_LEN
    &&& forall|i: int| 0 <= i < s.len() ==> is_url_safe_char(#[trigger] s[i])
}

/// Relies on `nanoid::format` with nanoid's default random source and its
/// `alphabet::SAFE` table (exactly what `nanoid!()` expands to): the loop in
/// `format` pushes only characters of the alphabet and returns once the string
/// holds `ID_LEN` of them. Which characters come out is random.
#[verifier::external_body]
pub(crate) fn random_id() -> (r: String)
    ensures
        is_generated_id(r@),
{
    nanoid::format(nanoid::rngs::default, &nanoid::alphabet::SAFE, ID_LEN)
}

} // verus!
