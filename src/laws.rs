use vstd::prelude::*;

use crate::kind::{printed, ErrorKind};
use crate::render::{frame_text, render_chain, render_levels, separator, MAX_LEVELS};
use crate::typed::{erased_from, Error};
use crate::wrapped::{chain_below, WrappedError};

verus! {

/// The error reached from `w` by following `k` cause links, if the chain is that long.
pub open spec fn follow(w: WrappedError, k: nat) -> Option<WrappedError>
    decreases k,
{
    if k == 0 {
        Some(w)
    } else {
        match w.spec_cause() {
            Some(c) => follow(c, (k - 1) as nat),
            None => None,
        }
    }
}

/// Erasing an error keeps its description, its place and its whole cause chain, and
/// replaces only its kind by the kind's printed form: the erased error's chain is
/// the original's, level for level, with the printed kind at the top.
pub proof fn lemma_erase_keeps_chain<T: ErrorKind>(e: Error<T>, w: WrappedError)
    requires
        erased_from(w, e),
    ensures
        printed(e.kind, w.kind_repr),
        w.description@ == e.description@,
        w.file@ == e.file@,
        w.line == e.line,
        w.spec_cause() == e.spec_cause(),
        w.chain() == e.chain_with(w.kind_repr@),
{
    assert(w.chain() =~= e.chain_with(w.kind_repr@));
}

/// Rethrowing an error puts a new level in front of its chain: below the new error
/// lies exactly the chain of the error it rethrew, with that error's kind printed.
pub proof fn lemma_propagate_extends_chain<T: ErrorKind>(e: Error<T>, r: Error<T>, t: Seq<char>)
    requires
        r.spec_cause() matches Some(c) && erased_from(c, e),
    ensures
        r.spec_cause() matches Some(c) && {
            &&& r.chain_with(t).len() == e.chain_with(c.kind_repr@).len() + 1
            &&& r.chain_with(t).drop_first() == e.chain_with(c.kind_repr@)
            &&& printed(e.kind, c.kind_repr)
            &&& r.chain_with(t)[1].description == e.description@
        },
{
    let c = r.spec_cause().unwrap();
    lemma_erase_keeps_chain(e, c);
    assert(r.chain_with(t).drop_first() =~= e.chain_with(c.kind_repr@));
}

/// A cause chain is finite and has no cycle: each cause link leads to a chain one
/// level shorter, so following links from `w` ends after exactly as many steps as
/// the chain has levels below `w`.
pub proof fn lemma_chain_ends(w: WrappedError)
    ensures
        w.chain().len() >= 1,
        w.spec_cause() matches Some(c) ==> c.chain().len() + 1 == w.chain().len(),
        follow(w, (w.chain().len() - 1) as nat) matches Some(last) && last.spec_cause() is None,
        follow(w, w.chain().len()) is None,
    decreases w.chain().len(),
{
    match w.spec_cause() {
        Some(c) => {
            lemma_chain_ends(c);
        },
        None => {},
    }
}

/// Rendering keeps the order of the chain: a chain of three levels renders as the
/// first level's own text, then the second's, then the third's, each after a
/// newline, an indent and a dash; the own text of a level is what that level renders
/// as when it stands alone.
pub proof fn lemma_render_three_levels(w: WrappedError)
    requires
        w.chain().len() == 3,
    ensures
        render_chain(w.chain()) == frame_text(w.chain()[0]) + separator() + frame_text(w.chain()[1])
            + separator() + frame_text(w.chain()[2]),
        forall|i: int| 0 <= i < 3 ==> #[trigger] frame_text(w.chain()[i]) == render_chain(seq![w.chain()[i]]),
{
    let c = w.chain();
    let n = MAX_LEVELS as nat;
    assert(c.drop_first().drop_first() =~= seq![c[2]]);
    assert(c.drop_first()[0] == c[1]);
    assert(render_levels(c.drop_first().drop_first(), (n - 2) as nat) == frame_text(c[2]));
    assert(render_levels(c.drop_first(), (n - 1) as nat) == frame_text(c[1]) + separator() + frame_text(c[2]));
    assert forall|i: int| 0 <= i < 3 implies #[trigger] frame_text(c[i]) == render_chain(seq![c[i]]) by {
        assert(seq![c[i]][0] == c[i]);
    }
}

} // verus!
