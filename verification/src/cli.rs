//! The command line: which address to serve, or the usage text.

use vstd::prelude::*;
use crate::text::chars_of;

verus! {

/// What the command line asks for.
#[derive(Clone, Debug, PartialEq, Eq)]
pub enum Invocation {
    /// Listen at this address.
    Serve(String),
    /// Print the usage text for a program invoked by this path.
    Usage(String),
}

/// An invocation over plain character sequences.
pub enum InvocationView {
    Serve(Seq<char>),
    Usage(Seq<char>),
}

impl View for Invocation {
    type V = InvocationView;

    open spec fn view(&self) -> InvocationView {
        match self {
            Invocation::Serve(address) => InvocationView::Serve(address@),
            Invocation::Usage(program) => InvocationView::Usage(program@),
        }
    }
}

/// The meaning of the arguments, the program's own path first. The path
/// alone serves the default address; one more argument other than `--help`
/// is the address; anything else asks for the usage text, under the name
/// `httprint` where not even the path is known.
pub open spec fn spec_invocation(args: Seq<String>) -> InvocationView {
    if args.len() == 0 {
        InvocationView::Usage("httprint"@)
    } else if args.len() == 1 {
        InvocationView::Serve("127.0.0.1:8000"@)
    } else if args.len() == 2 && args[1]@ != "--help"@ {
        InvocationView::Serve(args[1]@)
    } else {
        InvocationView::Usage(args[0]@)
    }
}

/// The part of a path after its last `/`: the whole path without one, nothing
/// where the path ends in one.
pub open spec fn last_segment(path: Seq<char>) -> Seq<char>
    decreases path.len(),
{
    if path.len() == 0 || path.last() == '/' {
        Seq::empty()
    } else {
        last_segment(path.drop_last()).push(path.last())
    }
}

/// The name under which the program is shown: the final segment of its
/// invocation path, or `httprint` where that segment is empty.
pub open spec fn spec_shown_name(program: Seq<char>) -> Seq<char> {
    if last_segment(program).len() == 0 {
        "httprint"@
    } else {
        last_segment(program)
    }
}

/// The usage text for a program invoked by `program`.
pub open spec fn spec_usage_text(program: Seq<char>) -> Seq<char> {
    "Usage: "@ + spec_shown_name(program) + " [ADDRESS]\n\nParameters:\n  ADDRESS\tAddress to listen (default: 127.0.0.1:8000)"@
}

/// Reads the command line.
pub fn parse_invocation(args: &Vec<String>) -> (r: Invocation)
    ensures
        r@ == spec_invocation(args@),
{
    if args.len() == 0 {
        Invocation::Usage(String::from_str("httprint"))
    } else if args.len() == 1 {
        Invocation::Serve(String::from_str("127.0.0.1:8000"))
    } else {
        let help = String::from_str("--help");
        if args.len() == 2 && args[1] != help {
            Invocation::Serve(args[1].clone())
        } else {
            Invocation::Usage(args[0].clone())
        }
    }
}

/// Takes the final segment of an invocation path.
pub fn program_name(path: &str) -> (r: String)
    ensures
        r@ == last_segment(path@),
{
    let chars = chars_of(path);
    let n: usize = chars.len();
    let mut k: usize = n;
    let mut found: bool = false;
    proof {
        assert(path@.take(n as int) =~= path@);
        assert(last_segment(path@) + path@.subrange(n as int, n as int) =~= last_segment(path@));
    }
    while k > 0 && !found
        invariant
            k <= n,
            n == path@.len(),
            chars@ == path@,
            last_segment(path@) == last_segment(path@.take(k as int)) + path@.subrange(
                k as int,
                n as int,
            ),
            found ==> last_segment(path@.take(k as int)) == Seq::<char>::empty(),
        decreases k + (if found { 0int } else { 1int }),
    {
        let ghost head = path@.take(k as int);
        if chars[k - 1] == '/' {
            found = true;
        } else {
            proof {
                assert(head.drop_last() =~= path@.take(k - 1));
                assert(last_segment(head) + path@.subrange(k as int, n as int) =~= last_segment(
                    path@.take(k - 1),
                ) + path@.subrange(k - 1, n as int));
            }
            k -= 1;
        }
    }
    proof {
        assert(path@.take(0) =~= Seq::<char>::empty());
        assert(last_segment(path@) =~= path@.subrange(k as int, n as int));
    }
    String::from_str(path.substring_char(k, n))
}

/// The name to show for a program invoked by `program`: its final path
/// segment, or `httprint` where the path is empty or ends in `/`.
pub fn shown_name(program: &str) -> (r: String)
    ensures
        r@ == spec_shown_name(program@),
{
    let name = program_name(program);
    if name.as_str().is_empty() {
        String::from_str("httprint")
    } else {
        name
    }
}

/// Renders the usage text.
pub fn usage_text(program: &str) -> (r: String)
    ensures
        r@ == spec_usage_text(program@),
{
    let name = shown_name(program);
    let mut out = String::from_str("Usage: ");
    out.append(name.as_str());
    out.append(
        " [ADDRESS]\n\nParameters:\n  ADDRESS\tAddress to listen (default: 127.0.0.1:8000)",
    );
    out
}

/// Renders the line that announces the bound address.
pub fn listening_banner(address: &str) -> (r: String)
    ensures
        r@ == "Listening at "@ + address@ + "\n"@,
{
    let mut out = String::from_str("Listening at ");
    out.append(address);
    out.append("\n");
    out
}

/// The shown name is never empty.
pub proof fn lemma_shown_name_is_not_empty(program: Seq<char>)
    ensures
        spec_shown_name(program).len() > 0,
{
    reveal_strlit("httprint");
}

/// The program name holds no `/`, and the path is what stands before it
/// followed by it; what stands before it is empty or ends in `/`.
pub proof fn lemma_last_segment_is_suffix(path: Seq<char>)
    ensures
        !last_segment(path).contains('/'),
        last_segment(path).len() <= path.len(),
        path.subrange(path.len() - last_segment(path).len(), path.len() as int) == last_segment(
            path,
        ),
        last_segment(path).len() < path.len() ==> path[path.len() - last_segment(path).len() - 1]
            == '/',
    decreases path.len(),
{
    if path.len() == 0 || path.last() == '/' {
        assert(path.subrange(path.len() as int, path.len() as int) =~= Seq::<char>::empty());
    } else {
        let init = path.drop_last();
        lemma_last_segment_is_suffix(init);
        let seg = last_segment(init);
        assert(path.subrange(path.len() - seg.len() - 1, path.len() as int) =~= init.subrange(
            init.len() - seg.len(),
            init.len() as int,
        ).push(path.last()));
        assert forall|j: int| 0 <= j < seg.push(path.last()).len() implies seg.push(path.last())[j]
            != '/' by {
            if j < seg.len() {
                assert(seg.contains(seg[j]));
            }
        }
    }
}

} // verus!
