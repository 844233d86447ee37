//! Text templates with numbered holes.
//!
//! A template is ordinary text in which `$0` to `$9` mark the places where
//! an argument is put in. Every other character stands for itself, a `$`
//! that no argument answers to as well.

use vstd::prelude::*;
use crate::text::to_chars;

verus! {

/// The views of the arguments, in their order.
pub open spec fn views(args: Seq<&str>) -> Seq<Seq<char>> {
    Seq::new(args.len(), |k: int| args[k]@)
}

/// Whether position `i` of the template starts a hole that one of the
/// arguments fills: a `$` followed by a digit below the number of arguments.
pub open spec fn is_hole(t: Seq<char>, i: int, args: Seq<Seq<char>>) -> bool {
    &&& 0 <= i
    &&& i + 1 < t.len()
    &&& t[i] == '$'
    &&& '0' <= t[i + 1] <= '9'
    &&& hole_index(t, i) < args.len()
}

/// The number of the argument that the hole at position `i` asks for.
pub open spec fn hole_index(t: Seq<char>, i: int) -> int {
    t[i + 1] as u32 - '0' as u32
}

/// The template from position `i` on, with each hole replaced by its
/// argument.
pub open spec fn expand_from(t: Seq<char>, i: int, args: Seq<Seq<char>>) -> Seq<char>
    decreases t.len() - i,
{
    if i < 0 || i >= t.len() {
        Seq::empty()
    } else if is_hole(t, i, args) {
        args[hole_index(t, i)] + expand_from(t, i + 2, args)
    } else {
        seq![t[i]] + expand_from(t, i + 1, args)
    }
}

/// The template with each hole replaced by its argument.
pub open spec fn expand(t: Seq<char>, args: Seq<Seq<char>>) -> Seq<char> {
    expand_from(t, 0, args)
}

/// Fills the holes of `template` with `args`.
pub fn fill(template: &str, args: &[&str]) -> (text: String)
    ensures
        text@ == expand(template@, views(args@)),
{
    let t = to_chars(template);
    let ghost a = views(args@);
    let mut text = String::new();
    let mut i: usize = 0;
    while i < t.len()
        invariant
            i <= t.len(),
            t@ == template@,
            a == views(args@),
            expand(t@, a) == text@ + expand_from(t@, i as int, a),
        decreases t.len() - i,
    {
        let c = t[i];
        let ghost before = text@;
        let mut filled = false;
        if c == '$' && i + 1 < t.len() {
            let d = t[i + 1];
            if '0' <= d && d <= '9' {
                let k: usize = (d as u32 - '0' as u32) as usize;
                if k < args.len() {
                    assert(is_hole(t@, i as int, a));
                    assert(a[k as int] == args@[k as int]@);
                    text.append(args[k]);
                    filled = true;
                }
            }
        }
        if filled {
            assert(text@ + expand_from(t@, i as int + 2, a) =~= before + expand_from(
                t@,
                i as int,
                a,
            ));
            i += 2;
        } else {
            assert(!is_hole(t@, i as int, a));
            text.push(c);
            assert(text@ + expand_from(t@, i as int + 1, a) =~= before + expand_from(
                t@,
                i as int,
                a,
            ));
            i += 1;
        }
    }
    assert(expand_from(t@, t.len() as int, a) =~= Seq::<char>::empty());
    text
}

} // verus!
