//! Presentation of a chain of error causes, root cause first.

use vstd::prelude::*;

verus! {

/// `failure::Error`, an error of any kind with the causes that led to it.
/// Nothing inside it is visible here.
#[verifier::external_type_specification]
#[verifier::external_body]
pub struct ExFailureError(failure::Error);

/// One link of a cause chain: what went wrong and, where it was captured,
/// a trace of the place.
pub struct Cause {
    pub message: String,
    pub trace: Option<String>,
}

/// The mathematical value of a [`Cause`].
pub struct CauseView {
    pub message: Seq<char>,
    pub trace: Option<Seq<char>>,
}

impl View for Cause {
    type V = CauseView;

    open spec fn view(&self) -> CauseView {
        CauseView {
            message: self.message@,
            trace: match self.trace {
                Some(trace) => Some(trace@),
                None => None,
            },
        }
    }
}

/// The views of the links of a chain, in the same order.
pub open spec fn chain_view(chain: Seq<Cause>) -> Seq<CauseView> {
    chain.map_values(|cause: Cause| cause@)
}

/// The line that stands between one cause and the cause it led to.
pub open spec fn consequence_line() -> Seq<char> {
    "     Which caused the following issue:\n"@
}

/// What introduces the trace of a cause.
pub open spec fn location_prefix() -> Seq<char> {
    " This happened at "@
}

pub open spec fn line_end() -> Seq<char> {
    "\n"@
}

/// The text of one link: its message on a line of its own, then either a line
/// with the place where it was captured or, without a trace or with an empty
/// one, an empty line.
pub open spec fn render_cause(cause: CauseView) -> Seq<char> {
    let location = match cause.trace {
        Some(trace) => if trace.len() > 0 {
            location_prefix() + trace
        } else {
            Seq::<char>::empty()
        },
        None => Seq::<char>::empty(),
    };
    cause.message + line_end() + location + line_end()
}

/// The text of a chain that is stored outermost cause first: the links are
/// rendered in reverse, so that the root cause comes first, with a
/// consequence line between neighbours.
pub open spec fn render_chain(chain: Seq<CauseView>) -> Seq<char>
    decreases chain.len(),
{
    if chain.len() == 0 {
        Seq::<char>::empty()
    } else if chain.len() == 1 {
        render_cause(chain[0])
    } else {
        render_chain(chain.drop_first()) + consequence_line() + render_cause(chain[0])
    }
}

fn push_cause(text: &mut String, cause: &Cause)
    ensures
        final(text)@ == old(text)@ + render_cause(cause@),
{
    text.append(cause.message.as_str());
    text.append("\n");
    match &cause.trace {
        Some(trace) => {
            if !trace.as_str().is_empty() {
                text.append(" This happened at ");
                text.append(trace.as_str());
            }
        },
        None => {},
    }
    text.append("\n");
}

/// Renders a chain of causes, given outermost first, as text that starts with
/// the root cause and names each later link as a consequence of the one
/// before it.
pub fn chain_to_string(chain: &[Cause]) -> (text: String)
    ensures
        text@ == render_chain(chain_view(chain@)),
{
    let ghost links = chain_view(chain@);
    let mut text = String::new();
    let mut rest: usize = chain.len();
    while rest > 0
        invariant
            rest <= chain.len(),
            links == chain_view(chain@),
            text@ == render_chain(links.subrange(rest as int, links.len() as int)),
        decreases rest,
    {
        let ghost done = links.subrange(rest as int, links.len() as int);
        if rest < chain.len() {
            text.append("     Which caused the following issue:\n");
        }
        rest = rest - 1;
        push_cause(&mut text, &chain[rest]);
        proof {
            let now = links.subrange(rest as int, links.len() as int);
            assert(now.drop_first() =~= done);
            assert(now[0] == chain@[rest as int]@);
        }
    }
    proof {
        assert(links.subrange(0, links.len() as int) =~= links);
    }
    text
}

/// Collects the causes of `error` with `failure::Error::iter_chain`, the
/// error itself first and its root cause last.
///
/// Trusted: the chain holds at least the error itself. Each message is what
/// the cause displays as, each trace what its backtrace displays as; neither
/// is stated here.
#[verifier::external_body]
fn causes_of(error: &failure::Error) -> (chain: Vec<Cause>)
    ensures
        chain@.len() >= 1,
{
    let mut chain = Vec::new();
    for fail in error.iter_chain() {
        let trace = match fail.backtrace() {
            Some(trace) => Some(format!("{}", trace)),
            None => None,
        };
        chain.push(Cause { message: format!("{}", fail), trace });
    }
    chain
}

/// Renders `error` and everything that led to it, root cause first.
///
/// What the causes display as is decided by the error; whatever it is, the
/// text is the rendering of a chain of at least one link.
pub fn failure_to_string(e: failure::Error) -> (text: String)
    ensures
        exists|chain: Seq<CauseView>| chain.len() >= 1 && text@ == #[trigger] render_chain(chain),
{
    let chain = causes_of(&e);
    chain_to_string(chain.as_slice())
}

} // verus!
