//! The four character classes and the characters each of them offers.
use vstd::prelude::*;

verus! {

/// Decimal digits.
pub const INT: &'static str = "0123456789";

/// Lower case letters.
pub const LC: &'static str = "abcdefghijklmnopqrstuvwxyz";

/// Upper case letters.
pub const UC: &'static str = "ABCDEFGHIJKLMNOPQRSTUVWXYZ";

/// Special characters.
pub const SPEC: &'static str = "!?#$_%&*+,./\\:;^~[]";

/// The characters of the digits class, in order.
pub open spec fn int_pool() -> Seq<char> {
    INT@
}

/// The characters of the lower case class, in order.
pub open spec fn lc_pool() -> Seq<char> {
    LC@
}

/// The characters of the upper case class, in order.
pub open spec fn uc_pool() -> Seq<char> {
    UC@
}

/// The characters of the special class, in order.
pub open spec fn spec_pool() -> Seq<char> {
    SPEC@
}

/// Turns a string into the vector of its characters, in order.
pub fn to_char(string: &str) -> (vector: Vec<char>)
    ensures
        vector@ == string@,
{
    let n: usize = string.unicode_len();
    let mut vector: Vec<char> = Vec::new();
    let mut i: usize = 0;
    while i < n
        invariant
            n == string@.len(),
            i <= n,
            vector@ == string@.subrange(0, i as int),
        decreases n - i,
    {
        vector.push(string.get_char(i));
        i = i + 1;
    }
    assert(vector@ =~= string@);
    vector
}

/// The number of characters each class offers.
pub proof fn lemma_pool_sizes()
    ensures
        int_pool().len() == 10,
        lc_pool().len() == 26,
        uc_pool().len() == 26,
        spec_pool().len() == 19,
{
    reveal_strlit("0123456789");
    reveal_strlit("abcdefghijklmnopqrstuvwxyz");
    reveal_strlit("ABCDEFGHIJKLMNOPQRSTUVWXYZ");
    reveal_strlit("!?#$_%&*+,./\\:;^~[]");
}

} // verus!
