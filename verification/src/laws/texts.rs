use vstd::prelude::*;

use crate::text::{decimal, digit, opt_text, text_or, without_prefix};

verus! {

/// The number that a text of decimal digits stands for.
pub open spec fn number(text: Seq<char>) -> int
    decreases text.len(),
{
    if text.len() == 0 {
        0
    } else {
        10 * number(text.drop_last()) + (text.last() as int - '0' as int)
    }
}

/// A number in decimal notation consists of digits, starts with a zero only if it
/// is zero, and reads as that number.
pub proof fn law_decimal_reads_as_the_number(n: nat)
    ensures
        decimal(n).len() > 0,
        forall|i: int| 0 <= i < decimal(n).len() ==> '0' <= #[trigger] decimal(n)[i] <= '9',
        decimal(n)[0] == '0' <==> n == 0,
        n == 0 ==> decimal(n).len() == 1,
        number(decimal(n)) == n,
    decreases n,
{
    if n < 10 {
        assert(digit(n) as int == '0' as int + n);
        assert(decimal(n).drop_last() =~= seq![]);
        assert(number(seq![]) == 0);
        assert(decimal(n).last() == digit(n));
    } else {
        law_decimal_reads_as_the_number(n / 10);
        assert(digit(n % 10) as int == '0' as int + n % 10);
        assert(decimal(n).drop_last() =~= decimal(n / 10));
        assert(decimal(n).last() == digit(n % 10));
        assert(decimal(n)[0] == decimal(n / 10)[0]);
    }
}

/// Different numbers are written differently.
pub proof fn law_decimal_tells_numbers_apart(m: nat, n: nat)
    requires
        decimal(m) == decimal(n),
    ensures
        m == n,
{
    law_decimal_reads_as_the_number(m);
    law_decimal_reads_as_the_number(n);
}

/// A configured text is taken as it is, whatever the default; the default is taken
/// only where there is none.
pub proof fn law_configured_text_wins(text: Option<String>, default: Seq<char>)
    ensures
        text matches Some(t) ==> text_or(text, default) == t@ && opt_text(text) == Some(t@),
        text is None ==> text_or(text, default) == default && opt_text(text) is None,
{
}

/// Taking a prefix off undoes putting it before a text, and can be done to no other
/// text.
pub proof fn law_prefix_comes_off_what_it_was_put_before(prefix: Seq<char>, rest: Seq<char>)
    ensures
        without_prefix(prefix + rest, prefix) == Some(rest),
        forall|text: Seq<char>| #[trigger]
            without_prefix(text, prefix) == Some(rest) ==> text == prefix + rest,
        forall|text: Seq<char>| #[trigger]
            without_prefix(text, prefix) is None <==> !prefix.is_prefix_of(text),
{
    assert((prefix + rest).subrange(0, prefix.len() as int) =~= prefix);
    assert((prefix + rest).skip(prefix.len() as int) =~= rest);
    assert forall|text: Seq<char>| #[trigger] without_prefix(text, prefix) == Some(rest) implies text
        == prefix + rest by {
        assert(text =~= text.subrange(0, prefix.len() as int) + text.skip(prefix.len() as int));
    }
}

} // verus!
