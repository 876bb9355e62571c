//! Cutting the raw arguments into the options and the command.
use vstd::prelude::*;

verus! {

/// The byte of `-`.
pub const DASH: u8 = 45;

/// A token that starts with `-`.
pub open spec fn is_dashed(t: Seq<u8>) -> bool {
    t.len() > 0 && t[0] == DASH
}

/// The token `--`, which ends the options.
pub open spec fn is_terminator(t: Seq<u8>) -> bool {
    t == seq![DASH, DASH]
}

/// Splits the arguments that follow the program name: the options are the
/// tokens before `flag_end`, each of which starts with `-` and is not `--`;
/// the command starts at the first token that does not start with `-`, or
/// right after a `--`, which belongs to neither part.
pub fn split_arguments(args: &Vec<Vec<u8>>) -> (r: (usize, usize))
    ensures
        r.0 <= r.1 <= args.len(),
        forall|i: int| 0 <= i < r.0 ==> is_dashed(#[trigger] args@[i]@) && !is_terminator(args@[i]@),
        r.0 == args.len() ==> r.1 == r.0,
        r.0 < args.len() ==> if is_terminator(args@[r.0 as int]@) {
            r.1 == r.0 + 1
        } else {
            !is_dashed(args@[r.0 as int]@) && r.1 == r.0
        },
{
    let mut i: usize = 0;
    while i < args.len()
        invariant
            i <= args.len(),
            forall|j: int| 0 <= j < i ==> is_dashed(#[trigger] args@[j]@) && !is_terminator(args@[j]@),
        decreases args.len() - i,
    {
        let t = &args[i];
        if t.len() == 2 && t[0] == DASH && t[1] == DASH {
            assert(t@ == seq![DASH, DASH]);
            return (i, i + 1);
        }
        if t.len() == 0 || t[0] != DASH {
            return (i, i);
        }
        i = i + 1;
    }
    (i, i)
}

} // verus!
