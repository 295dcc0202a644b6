use vstd::prelude::*;
use vstd::string::StringExecFns;

verus! {

/// The line logged for entry `i` of an error chain: the error itself first,
/// then each underlying cause behind a `because: ` prefix.
pub open spec fn report_line(chain: Seq<String>, i: int) -> Seq<char> {
    if i == 0 {
        chain[0]@
    } else {
        "because: "@ + chain[i]@
    }
}

/// The lines to log for a failed run, given the messages of its error chain
/// from the outermost error to the innermost cause.
pub fn error_report(chain: &Vec<String>) -> (lines: Vec<String>)
    ensures
        lines@.len() == chain@.len(),
        forall|i: int| 0 <= i < chain@.len() ==> #[trigger] lines@[i]@ == report_line(chain@, i),
{
    let mut lines: Vec<String> = Vec::new();
    let mut i: usize = 0;
    while i < chain.len()
        invariant
            i <= chain@.len(),
            lines@.len() == i,
            forall|j: int| 0 <= j < i ==> #[trigger] lines@[j]@ == report_line(chain@, j),
        decreases chain@.len() - i,
    {
        if i == 0 {
            lines.push(chain[0].clone());
        } else {
            let mut line = "because: ".to_owned();
            line.append(chain[i].as_str());
            lines.push(line);
        }
        i = i + 1;
    }
    lines
}

} // verus!
