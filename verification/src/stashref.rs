//! Textual references to stash entries and to the placeholder branch.
//!
//! A stash has no stable identity: it is addressed only by its ordinal
//! position in the stack, written `stash@{p}`.

use vstd::prelude::*;

verus! {

/// The decimal digit character for a value below ten.
pub open spec fn spec_digit(d: nat) -> char
    recommends
        d < 10,
{
    if d == 0 { '0' }
    else if d == 1 { '1' }
    else if d == 2 { '2' }
    else if d == 3 { '3' }
    else if d == 4 { '4' }
    else if d == 5 { '5' }
    else if d == 6 { '6' }
    else if d == 7 { '7' }
    else if d == 8 { '8' }
    else { '9' }
}

/// The decimal digits of `n`, most significant first.
pub open spec fn spec_decimal(n: nat) -> Seq<char>
    decreases n,
{
    if n < 10 {
        seq![spec_digit(n)]
    } else {
        spec_decimal(n / 10).push(spec_digit(n % 10))
    }
}

/// The positional reference of the stash at position `id`: `stash@{id}`.
pub open spec fn spec_stash_ref(id: u32) -> Seq<char> {
    "stash@{"@ + spec_decimal(id as nat) + "}"@
}

/// The fixed name of the transient branch created during a promotion,
/// before it is renamed to the slug derived from the commit subject.
pub open spec fn spec_placeholder_branch() -> Seq<char> {
    "stash/__TEMP_STASH__"@
}

fn digit_char(d: u32) -> (c: char)
    requires
        d < 10,
    ensures
        c == spec_digit(d as nat),
{
    if d == 0 { '0' }
    else if d == 1 { '1' }
    else if d == 2 { '2' }
    else if d == 3 { '3' }
    else if d == 4 { '4' }
    else if d == 5 { '5' }
    else if d == 6 { '6' }
    else if d == 7 { '7' }
    else if d == 8 { '8' }
    else { '9' }
}

fn push_decimal(n: u32, out: &mut Vec<char>)
    ensures
        final(out)@ == old(out)@ + spec_decimal(n as nat),
    decreases n,
{
    if n >= 10 {
        push_decimal(n / 10, out);
    }
    out.push(digit_char(n % 10));
    assert(out@ =~= old(out)@ + spec_decimal(n as nat));
}

/// Formats the reference of the stash at position `id`, `stash@{id}`.
pub fn stash_ref(id: u32) -> (r: String)
    ensures
        r@ == spec_stash_ref(id),
{
    let mut digits: Vec<char> = Vec::new();
    push_decimal(id, &mut digits);
    let mut r = String::from_str("stash@{");
    let mut i: usize = 0;
    while i < digits.len()
        invariant
            i <= digits.len(),
            digits@ == spec_decimal(id as nat),
            r@ == "stash@{"@ + digits@.take(i as int),
        decreases digits.len() - i,
    {
        push_char(&mut r, digits[i]);
        i = i + 1;
        assert(r@ =~= "stash@{"@ + digits@.take(i as int));
    }
    assert(digits@.take(digits@.len() as int) =~= digits@);
    r.append("}");
    assert(r@ =~= spec_stash_ref(id));
    r
}

/// The name of the transient placeholder branch, `stash/__TEMP_STASH__`.
pub fn placeholder_branch() -> (r: String)
    ensures
        r@ == spec_placeholder_branch(),
{
    String::from_str("stash/__TEMP_STASH__")
}

/// Relies on `String::push`: appends exactly the given character.
#[verifier::external_body]
pub(crate) fn push_char(s: &mut String, c: char)
    ensures
        final(s)@ == old(s)@.push(c),
{
    s.push(c);
}

} // verus!
