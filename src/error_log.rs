use vstd::prelude::*;
use vstd::string::StringExecFns;

verus! {

/// The line recorded when the probe of `url` failed with `reason`.
pub open spec fn failure_line(url: Seq<char>, reason: Seq<char>) -> Seq<char> {
    "Error checking "@ + url + ": "@ + reason
}

/// The lines of an error log as one text, one line after another with a
/// newline between two lines and none at the end.
pub open spec fn join_lines(lines: Seq<Seq<char>>) -> Seq<char>
    decreases lines.len(),
{
    if lines.len() == 0 {
        Seq::empty()
    } else if lines.len() == 1 {
        lines[0]
    } else {
        join_lines(lines.drop_last()) + seq!['\n'] + lines.last()
    }
}

/// The texts of a list of lines.
pub open spec fn lines_model(lines: Seq<String>) -> Seq<Seq<char>> {
    lines.map_values(|s: String| s@)
}

/// Formats the line recorded for a failed probe.
pub fn format_failure(url: &str, reason: &str) -> (r: String)
    ensures
        r@ == failure_line(url@, reason@),
{
    let mut line = String::from_str("Error checking ");
    line.append(url);
    line.append(": ");
    line.append(reason);
    line
}

/// The whole error log as one multi-line text.
pub fn join_error_lines(lines: &Vec<String>) -> (r: String)
    ensures
        r@ == join_lines(lines_model(lines@)),
{
    let ghost all = lines_model(lines@);
    let mut out = String::new();
    let mut i: usize = 0;
    while i < lines.len()
        invariant
            i <= lines@.len(),
            all == lines_model(lines@),
            out@ == join_lines(all.take(i as int)),
        decreases lines@.len() - i,
    {
        let ghost before = out@;
        if i > 0 {
            out.append("\n");
            proof {
                reveal_strlit("\n");
            }
        }
        out.append(lines[i].as_str());
        proof {
            let next = all.take(i + 1);
            assert(next.drop_last() =~= all.take(i as int));
            assert(next.last() == lines@[i as int]@);
            if i == 0 {
                assert(all.take(0) =~= Seq::<Seq<char>>::empty());
                assert(out@ =~= join_lines(next));
            } else {
                assert(out@ =~= before + seq!['\n'] + next.last());
            }
        }
        i = i + 1;
    }
    assert(all.take(lines@.len() as int) =~= all);
    out
}

} // verus!
