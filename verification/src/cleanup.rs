//! The field-text cleanup: one observed upstream feed bug emits certain
//! string fields double-quoted inside the already-quoted JSON string value.
//! This helper strips the stray quote characters. It is a workaround for
//! that one malformation, to be applied only to the fields known to carry
//! it: applied broadly it would corrupt strings that legitimately contain
//! quotes.

use vstd::prelude::*;
use vstd::string::StrSliceExecFns;

verus! {

/// What the cleanup means: the text's characters with every double quote
/// taken out, order kept.
pub open spec fn strip_quotes(s: Seq<char>) -> Seq<char> {
    s.filter(|c: char| c != '"')
}

/// Relies on String::push: appends exactly the given character.
#[verifier::external_body]
fn push_char(s: &mut String, c: char)
    ensures
        final(s)@ == old(s)@.push(c),
{
    s.push(c);
}

/// Strips stray double-quote characters from one field's text.
pub fn remove_quotes(s: &str) -> (r: String)
    ensures
        r@ == strip_quotes(s@),
{
    let n = s.unicode_len();
    let mut out = String::new();
    proof {
        reveal(Seq::filter);
        assert(s@.subrange(0, 0) =~= Seq::<char>::empty());
        assert(out@ =~= s@.subrange(0, 0).filter(|c: char| c != '"'));
    }
    let mut i: usize = 0;
    while i < n
        invariant
            i <= n,
            n == s@.len(),
            out@ == s@.subrange(0, i as int).filter(|c: char| c != '"'),
        decreases n - i,
    {
        let c = s.get_char(i);
        let ghost pre = s@.subrange(0, i as int);
        let ghost post = s@.subrange(0, i as int + 1);
        if c != '"' {
            push_char(&mut out, c);
        }
        proof {
            reveal(Seq::filter);
            assert(post.drop_last() =~= pre);
            assert(post.last() == s@[i as int]);
        }
        i = i + 1;
    }
    proof {
        assert(s@.subrange(0, n as int) =~= s@);
    }
    out
}

} // verus!
