//! The payload text of a record: `"Test "` followed by the id in decimal.

use vstd::prelude::*;

verus! {

/// The decimal digit characters, in order of their value.
pub open spec fn digit_char(d: nat) -> char {
    seq!['0', '1', '2', '3', '4', '5', '6', '7', '8', '9'][d as int]
}

/// The decimal digits of `n`, most significant first, without leading zeros.
pub open spec fn decimal_digits(n: nat) -> Seq<char>
    decreases n,
{
    if n < 10 {
        seq![digit_char(n)]
    } else {
        decimal_digits(n / 10).push(digit_char(n % 10))
    }
}

/// The decimal rendering of `n`: a leading `-` when `n` is negative.
pub open spec fn decimal(n: int) -> Seq<char> {
    if n < 0 {
        seq!['-'] + decimal_digits((-n) as nat)
    } else {
        decimal_digits(n as nat)
    }
}

/// The payload a record derives from its id.
pub open spec fn label_of(id: int) -> Seq<char> {
    seq!['T', 'e', 's', 't', ' '] + decimal(id)
}

/// The payload spec denotes exactly the text the demo prints: for the demo
/// ids the spec text is the literal, and the two payloads are distinct —
/// which is what the defect law asks of two records before relocation.
pub proof fn lemma_label_of_literal()
    ensures
        label_of(1) =~= "Test 1"@,
        label_of(2) =~= "Test 2"@,
        label_of(1) != label_of(2),
{
    reveal_strlit("Test 1");
    reveal_strlit("Test 2");
    assert(label_of(1) =~= "Test 1"@);
    assert(label_of(2) =~= "Test 2"@);
    assert(label_of(1)[5] != label_of(2)[5]);
}

/// Relies on the standard library's `format!`: formatting an `i32` with `{}`
/// renders it in decimal, most significant digit first, without leading
/// zeros, with a leading `-` when the value is negative.
#[verifier::external_body]
pub(crate) fn format_label(id: i32) -> (r: String)
    ensures
        r@ == label_of(id as int),
{
    format!("Test {}", id)
}

} // verus!
