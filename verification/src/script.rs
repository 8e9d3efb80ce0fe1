//! Probe script generation: one availability-check snippet per command name,
//! joined by newlines, with a shebang header for the POSIX family.

use vstd::prelude::*;
use crate::dialect::ShellFamily;

verus! {

/// The POSIX-family snippet probing one command: the name is looked up with
/// `command -v` (quoted), and exactly one tagged line is printed.
pub open spec fn posix_snippet_spec(c: Seq<char>) -> Seq<char> {
    "if command -v \""@ + c + "\" >/dev/null 2>&1; then\n  echo \""@ + c
        + " installed\"\nelse\n  echo \""@ + c + " not installed\"\nfi"@
}

/// The nushell snippet probing one command: the name is looked up with
/// `which`, and exactly one tagged line is printed.
pub open spec fn nu_snippet_spec(c: Seq<char>) -> Seq<char> {
    "if (try { which "@ + c + " } catch { null }) != null {\n  print \""@ + c
        + " installed\"\n} else {\n  print \""@ + c + " not installed\"\n}"@
}

/// The snippet for one command in the given template family.
pub open spec fn snippet_spec(family: ShellFamily, c: Seq<char>) -> Seq<char> {
    match family {
        ShellFamily::Posix => posix_snippet_spec(c),
        ShellFamily::Nushell => nu_snippet_spec(c),
    }
}

/// The probe snippets of all commands, in input order.
pub open spec fn snippets_spec(family: ShellFamily, cmds: Seq<Seq<char>>) -> Seq<Seq<char>> {
    cmds.map_values(|c: Seq<char>| snippet_spec(family, c))
}

/// `parts` joined with single newline separators.
pub open spec fn join_lines(parts: Seq<Seq<char>>) -> Seq<char>
    decreases parts.len(),
{
    if parts.len() == 0 {
        Seq::empty()
    } else if parts.len() == 1 {
        parts[0]
    } else {
        join_lines(parts.drop_last()) + "\n"@ + parts.last()
    }
}

/// The script body: the newline-join of the per-command snippets.
pub open spec fn body_spec(family: ShellFamily, cmds: Seq<Seq<char>>) -> Seq<char>
    decreases cmds.len(),
{
    if cmds.len() == 0 {
        Seq::empty()
    } else if cmds.len() == 1 {
        snippet_spec(family, cmds[0])
    } else {
        body_spec(family, cmds.drop_last()) + "\n"@ + snippet_spec(family, cmds.last())
    }
}

/// The full probe script.  POSIX-family scripts get a `#!/bin/sh` header;
/// the nushell body is passed to its interpreter directly, without one.
pub open spec fn script_spec(family: ShellFamily, cmds: Seq<Seq<char>>) -> Seq<char> {
    if family == ShellFamily::Posix {
        "#!/bin/sh\n"@ + body_spec(family, cmds)
    } else {
        body_spec(family, cmds)
    }
}

fn snippet(family: ShellFamily, c: &str) -> (r: String)
    ensures
        r@ == snippet_spec(family, c@),
{
    match family {
        ShellFamily::Posix => {
            let mut s = String::from_str("if command -v \"");
            s.append(c);
            s.append("\" >/dev/null 2>&1; then\n  echo \"");
            s.append(c);
            s.append(" installed\"\nelse\n  echo \"");
            s.append(c);
            s.append(" not installed\"\nfi");
            s
        },
        ShellFamily::Nushell => {
            let mut s = String::from_str("if (try { which ");
            s.append(c);
            s.append(" } catch { null }) != null {\n  print \"");
            s.append(c);
            s.append(" installed\"\n} else {\n  print \"");
            s.append(c);
            s.append(" not installed\"\n}");
            s
        },
    }
}

/// Generate the probe script for an ordered command list: one snippet per
/// command, in input order, joined by newlines, plus the family's header.
pub fn generate_script(family: ShellFamily, commands: &Vec<String>) -> (r: String)
    ensures
        r@ == script_spec(family, commands.deep_view()),
{
    let ghost cmds = commands.deep_view();
    let mut body = String::new();
    let mut i: usize = 0;
    while i < commands.len()
        invariant
            0 <= i <= cmds.len(),
            cmds == commands.deep_view(),
            body@ == body_spec(family, cmds.subrange(0, i as int)),
        decreases cmds.len() - i,
    {
        let ghost pre = cmds.subrange(0, i as int);
        let ghost cur = cmds.subrange(0, i + 1);
        proof {
            assert(cur.drop_last() =~= pre);
            assert(cur.last() == commands[i as int]@);
        }
        if i > 0 {
            body.append("\n");
        }
        let snip = snippet(family, commands[i].as_str());
        body.append(snip.as_str());
        proof {
            if i == 0 {
                assert(cur =~= seq![commands[i as int]@]);
            }
        }
        i += 1;
    }
    proof {
        assert(cmds.subrange(0, cmds.len() as int) =~= cmds);
    }
    if let ShellFamily::Posix = family {
        let mut script = String::from_str("#!/bin/sh\n");
        script.append(body.as_str());
        script
    } else {
        body
    }
}

/// The generated body holds one probe snippet per command: the snippet list
/// has the same length as the command list, its `i`-th entry probes the
/// `i`-th command, and the body is the newline-join of that list in order.
pub proof fn lemma_generate_structure(family: ShellFamily, cmds: Seq<Seq<char>>)
    ensures
        snippets_spec(family, cmds).len() == cmds.len(),
        forall|i: int|
            0 <= i < cmds.len() ==> snippets_spec(family, cmds)[i] == snippet_spec(
                family,
                cmds[i],
            ),
        body_spec(family, cmds) == join_lines(snippets_spec(family, cmds)),
    decreases cmds.len(),
{
    if cmds.len() > 1 {
        lemma_generate_structure(family, cmds.drop_last());
        assert(snippets_spec(family, cmds).drop_last() =~= snippets_spec(
            family,
            cmds.drop_last(),
        ));
        assert(snippets_spec(family, cmds).last() == snippet_spec(family, cmds.last()));
    }
}

} // verus!
