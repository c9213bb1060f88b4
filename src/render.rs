use std::sync::Arc;
use vstd::prelude::*;

use crate::text::{decimal, decimal_text};
use crate::kind::{printed, ErrorKind};
use crate::typed::Error;
use crate::wrapped::{chain_below, Frame, WrappedError};

verus! {

/// The most levels of a chain that rendering writes out. A longer chain is cut after
/// this many levels and the rest is shown as one ellipsis line.
pub const MAX_LEVELS: usize = 10000;

/// What stands between two levels of a rendered chain: a newline, an indent of two
/// spaces and a dash.
pub open spec fn separator() -> Seq<char> {
    seq!['\n', ' ', ' ', '-', ' ']
}

/// What stands for the levels that rendering left out.
pub open spec fn ellipsis() -> Seq<char> {
    seq!['.', '.', '.']
}

/// The text of one level: `<kind>: <description> (at <file>:<line>)`.
pub open spec fn frame_text(f: Frame) -> Seq<char> {
    f.kind + seq![':', ' '] + f.description + seq![' ', '(', 'a', 't', ' '] + f.file + seq![':']
        + decimal(f.line as nat) + seq![')']
}

/// The text of a chain of which at most `n` levels are written out.
pub open spec fn render_levels(c: Seq<Frame>, n: nat) -> Seq<char>
    decreases c.len(),
{
    if c.len() == 0 {
        seq![]
    } else if n == 0 {
        ellipsis()
    } else if c.len() == 1 {
        frame_text(c[0])
    } else {
        frame_text(c[0]) + separator() + render_levels(c.drop_first(), (n - 1) as nat)
    }
}

/// The text that follows a level's own line: nothing when it has no cause, else the
/// separator and the cause's chain, of which at most `n` levels are written out.
pub open spec fn tail_text(c: Seq<Frame>, n: nat) -> Seq<char> {
    if c.len() == 0 {
        seq![]
    } else {
        separator() + render_levels(c, n)
    }
}

/// The text of a whole chain, as `render` writes it.
pub open spec fn render_chain(c: Seq<Frame>) -> Seq<char> {
    render_levels(c, MAX_LEVELS as nat)
}

/// Appends the text of one level to `out`.
pub(crate) fn write_frame(out: &mut String, kind: &str, description: &str, file: &str, line: u32)
    ensures
        final(out)@ == old(out)@ + frame_text(
            Frame { kind: kind@, description: description@, file: file@, line },
        ),
{
    proof {
        reveal_strlit(": ");
        reveal_strlit(" (at ");
        reveal_strlit(":");
        reveal_strlit(")");
    }
    let ghost start = out@;
    out.append(kind);
    out.append(": ");
    out.append(description);
    out.append(" (at ");
    out.append(file);
    out.append(":");
    let digits = decimal_text(line);
    out.append(digits.as_str());
    out.append(")");
    assert(out@ =~= start + frame_text(
        Frame { kind: kind@, description: description@, file: file@, line },
    ));
}

/// Appends to `out` what follows a level's own line, given the level's cause link;
/// at most `n` levels of the cause's chain are written out.
pub(crate) fn write_tail(out: &mut String, sub: &Option<Arc<WrappedError>>, n: usize)
    ensures
        final(out)@ == old(out)@ + tail_text(chain_below(*sub), n as nat),
{
    let ghost target = old(out)@ + tail_text(chain_below(*sub), n as nat);
    let mut cur: &Option<Arc<WrappedError>> = sub;
    let mut left: usize = n;
    loop
        invariant_except_break
            out@ + tail_text(chain_below(*cur), left as nat) == target,
        ensures
            out@ == target,
        decreases chain_below(*cur).len(),
    {
        match cur {
            None => {
                assert(out@ + seq![] =~= out@);
                break;
            },
            Some(c) => {
                proof {
                    reveal_strlit("\n  - ");
                    reveal_strlit("...");
                }
                let ghost before = out@;
                let ghost rest = c.below();
                assert(c.chain() =~= seq![c.frame()] + rest);
                assert(chain_below(*cur) == c.chain());
                out.append("\n  - ");
                assert(out@ =~= before + separator());
                if left == 0 {
                    out.append("...");
                    assert(out@ =~= before + tail_text(chain_below(*cur), left as nat));
                    break;
                }
                write_frame(out, c.kind_repr.as_str(), c.description.as_str(), c.file, c.line);
                assert(c.chain()[0] == c.frame());
                assert(c.chain().drop_first() =~= rest);
                assert(out@ + tail_text(rest, (left - 1) as nat) =~= before + tail_text(
                    chain_below(*cur),
                    left as nat,
                ));
                cur = &c.sub_error;
                left = left - 1;
                assert(chain_below(*cur) == rest);
            },
        }
    }
}

impl WrappedError {
    /// Renders the whole chain: this error's line, then for each cause a newline, an
    /// indent of two spaces, a dash and the cause's line.
    pub fn render(&self) -> (r: String)
        ensures
            r@ == render_chain(self.chain()),
    {
        let mut out = String::new();
        write_frame(&mut out, self.kind_repr.as_str(), self.description.as_str(), self.file, self.line);
        write_tail(&mut out, &self.sub_error, MAX_LEVELS - 1);
        let ghost rest = self.below();
        assert(chain_below(self.sub_error) == rest);
        assert(self.chain() =~= seq![self.frame()] + rest);
        assert(self.chain()[0] == self.frame());
        assert(self.chain().drop_first() =~= rest);
        assert(out@ =~= render_chain(self.chain()));
        out
    }
}

impl<T: ErrorKind> Error<T> {
    /// Renders the whole chain as `WrappedError::render` does, with this error's kind
    /// printed.
    pub fn render(&self) -> (r: String)
        ensures
            exists|t: String| printed(self.kind, t) && r@ == render_chain(#[trigger] self.chain_with(t@)),
    {
        let mut out = String::new();
        let kind = self.kind.text();
        write_frame(&mut out, kind.as_str(), self.description.as_str(), self.file, self.line);
        write_tail(&mut out, &self.sub_error, MAX_LEVELS - 1);
        let ghost rest = chain_below(self.sub_error);
        let ghost c = self.chain_with(kind@);
        assert(c[0] == self.frame_with(kind@));
        assert(c.drop_first() =~= rest);
        assert(out@ =~= render_chain(c));
        out
    }
}

} // verus!
