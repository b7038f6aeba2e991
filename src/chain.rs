use vstd::prelude::*;

verus! {

/// A failure's message followed by each of its causes, one per line, each
/// introduced by "caused by: ".
pub open spec fn chain_text(top: Seq<char>, causes: Seq<Seq<char>>) -> Seq<char>
    decreases causes.len(),
{
    if causes.len() == 0 {
        top
    } else {
        chain_text(top, causes.drop_last()) + "\ncaused by: "@ + causes.last()
    }
}

/// Renders a failure and the chain of failures beneath it, outermost first,
/// as one human-readable text.
pub fn format_error_chain(top: &str, causes: &Vec<String>) -> (r: String)
    ensures
        r@ == chain_text(top@, causes.deep_view()),
{
    let mut out = String::from_str(top);
    let n = causes.len();
    let mut i: usize = 0;
    while i < n
        invariant
            n == causes.len(),
            i <= n,
            out@ == chain_text(top@, causes.deep_view().take(i as int)),
        decreases n - i,
    {
        out.append("\ncaused by: ");
        out.append(causes[i].as_str());
        proof {
            let d = causes.deep_view();
            assert(d.take(i + 1).drop_last() =~= d.take(i as int));
        }
        i = i + 1;
    }
    proof {
        assert(causes.deep_view().take(n as int) =~= causes.deep_view());
    }
    out
}

/// The message of a session that could not build its HTTP client.
pub open spec fn client_failure_text(top: Seq<char>, causes: Seq<Seq<char>>) -> Seq<char> {
    "Failed to build HTTP client:\n"@ + chain_text(top, causes)
}

/// Reports that the HTTP client could not be built, with the failure and
/// its causes.
pub fn client_failure_message(top: &str, causes: &Vec<String>) -> (r: String)
    ensures
        r@ == client_failure_text(top@, causes.deep_view()),
{
    let chain = format_error_chain(top, causes);
    let mut message = String::from_str("Failed to build HTTP client:\n");
    message.append(chain.as_str());
    message
}

} // verus!
