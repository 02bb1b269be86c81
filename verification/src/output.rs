//! The exact text the command prints.

use vstd::prelude::*;

verus! {

/// The line printed by the `env` subcommand: an `export` statement that
/// points `KUBECONFIG` at the file `context` inside the directory `dir`.
pub fn env_export_line(dir: &str, context: &str) -> (r: String)
    ensures
        r@ == "export KUBECONFIG="@ + dir@ + "/"@ + context@,
{
    let mut line = String::from_str("export KUBECONFIG=");
    line.append(dir);
    line.append("/");
    line.append(context);
    proof {
        assert(line@ =~= "export KUBECONFIG="@ + dir@ + "/"@ + context@);
    }
    line
}

/// The text the `list` subcommand prints for directory entries `names`:
/// each name followed by a newline, in the given order.
pub open spec fn listing(names: Seq<Seq<char>>) -> Seq<char>
    decreases names.len(),
{
    if names.len() == 0 {
        Seq::empty()
    } else {
        listing(names.drop_last()) + names.last() + seq!['\n']
    }
}

/// Joins directory entry names into the text the `list` subcommand
/// prints, one name per line, keeping their order.
pub fn list_output(names: &Vec<String>) -> (r: String)
    ensures
        r@ == listing(names.deep_view()),
{
    let ghost dv = names.deep_view();
    let mut out = String::new();
    let mut i: usize = 0;
    while i < names.len()
        invariant
            i <= names.len(),
            dv == names.deep_view(),
            out@ == listing(dv.take(i as int)),
        decreases names.len() - i,
    {
        out.append(names[i].as_str());
        out.append("\n");
        proof {
            reveal_strlit("\n");
            assert(dv.take(i + 1).drop_last() =~= dv.take(i as int));
            assert(dv.take(i + 1).last() == dv[i as int]);
            assert("\n"@ =~= seq!['\n']);
            assert(out@ =~= listing(dv.take(i + 1)));
        }
        i = i + 1;
    }
    proof {
        assert(dv.take(names@.len() as int) =~= dv);
    }
    out
}

/// The fixed line the `list` subcommand prints when the configured
/// directory cannot be read.
pub fn list_error_line() -> (r: String)
    ensures
        r@ == "Error: configs path does not found"@,
{
    String::from_str("Error: configs path does not found")
}

/// The whole text the `list` subcommand prints: one directory entry per
/// line when the directory could be read (`Some`), otherwise the fixed
/// error line. Either way the command then finishes normally.
pub fn render_list(entries: Option<&Vec<String>>) -> (r: String)
    ensures
        entries matches Some(names) ==> r@ == listing(names.deep_view()),
        entries is None ==> r@ == "Error: configs path does not found"@ + seq!['\n'],
{
    match entries {
        Some(names) => list_output(names),
        None => {
            let mut line = list_error_line();
            line.append("\n");
            proof {
                reveal_strlit("\n");
                assert(line@ =~= "Error: configs path does not found"@ + seq!['\n']);
            }
            line
        },
    }
}

} // verus!
