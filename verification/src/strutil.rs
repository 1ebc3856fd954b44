//! Character-level string building that the label derivation needs.

use vstd::prelude::*;

verus! {

/// Relies on `String::push`: appends the given character to the end of
/// the string.
pub assume_specification[ String::push ](s: &mut String, ch: char)
    ensures
        final(s)@ == old(s)@.push(ch),
;

/// `s` with every `'-'` removed.
pub open spec fn without_dashes(s: Seq<char>) -> Seq<char>
    decreases s.len(),
{
    if s.len() == 0 {
        Seq::empty()
    } else if s.last() == '-' {
        without_dashes(s.drop_last())
    } else {
        without_dashes(s.drop_last()).push(s.last())
    }
}

/// Appends `src` to `dst`, leaving out every `'-'`.
pub fn append_without_dashes(dst: &mut String, src: &String)
    ensures
        final(dst)@ == old(dst)@ + without_dashes(src@),
{
    let text = src.as_str();
    let n = text.unicode_len();
    let mut i: usize = 0;
    proof {
        assert(src@.take(0) =~= Seq::<char>::empty());
        assert(old(dst)@ + without_dashes(src@.take(0)) =~= old(dst)@);
    }
    while i < n
        invariant
            n == text@.len(),
            i <= n,
            text@ == src@,
            dst@ == old(dst)@ + without_dashes(src@.take(i as int)),
        decreases n - i,
    {
        let c = text.get_char(i);
        proof {
            assert(src@.take(i as int + 1).drop_last() =~= src@.take(i as int));
            assert(src@.take(i as int + 1).last() == src@[i as int]);
        }
        if c != '-' {
            dst.push(c);
            proof {
                assert(dst@ =~= old(dst)@ + without_dashes(src@.take(i as int + 1)));
            }
        }
        i += 1;
    }
    proof {
        assert(src@.take(n as int) =~= src@);
    }
}

} // verus!
