//! The unit definition synthesizer: a pure, total, deterministic function
//! from a fully resolved service description to the text of a unit file.

use vstd::prelude::*;
use vstd::string::StringExecFns;

verus! {

/// A fully resolved, unambiguous description of a service, ready for
/// templating: the final command line (interpreter already prepended when
/// one applies), the working directory, the run-as user, the environment
/// entries in their input order, and the restart-policy flag.
pub struct ResolvedUnitSpec {
    pub command: Vec<String>,
    pub directory: String,
    pub user: String,
    pub env_vars: Vec<String>,
    pub auto_restart: bool,
}

/// Mathematical image of a `ResolvedUnitSpec`: every string as a sequence
/// of characters.
#[verifier::ext_equal]
pub struct ResolvedUnitSpecView {
    pub command: Seq<Seq<char>>,
    pub directory: Seq<char>,
    pub user: Seq<char>,
    pub env_vars: Seq<Seq<char>>,
    pub auto_restart: bool,
}

impl View for ResolvedUnitSpec {
    type V = ResolvedUnitSpecView;

    open spec fn view(&self) -> ResolvedUnitSpecView {
        ResolvedUnitSpecView {
            command: self.command.deep_view(),
            directory: self.directory@,
            user: self.user@,
            env_vars: self.env_vars.deep_view(),
            auto_restart: self.auto_restart,
        }
    }
}

/// Holds when a string value can stand on a single line of a unit file.
pub open spec fn line_clean(s: Seq<char>) -> bool {
    forall|i: int| 0 <= i < s.len() ==> #[trigger] s[i] != '\n'
}

impl ResolvedUnitSpecView {
    /// An empty command list is invalid input: callers reject it before
    /// asking for a definition.
    pub open spec fn wf(self) -> bool {
        self.command.len() > 0
    }

    /// No user-origin value may contain a raw newline: such a value would
    /// corrupt the definition, so callers reject it upstream rather than
    /// have it escaped silently.
    pub open spec fn clean(self) -> bool {
        &&& (forall|i: int| 0 <= i < self.command.len() ==> line_clean(#[trigger] self.command[i]))
        &&& line_clean(self.directory)
        &&& line_clean(self.user)
        &&& (forall|i: int| 0 <= i < self.env_vars.len() ==> line_clean(#[trigger] self.env_vars[i]))
    }
}

/// A single newline character, the line terminator of the unit format.
pub open spec fn nl() -> Seq<char> {
    seq!['\n']
}

/// The command tokens joined with single spaces, exactly as they appear
/// after `ExecStart=`.
pub open spec fn join_spaces(tokens: Seq<Seq<char>>) -> Seq<char>
    decreases tokens.len(),
{
    if tokens.len() == 0 {
        Seq::empty()
    } else if tokens.len() == 1 {
        tokens[0]
    } else {
        join_spaces(tokens.drop_last()) + seq![' '] + tokens.last()
    }
}

/// Every line followed by a newline, in order.
pub open spec fn unlines(lines: Seq<Seq<char>>) -> Seq<char>
    decreases lines.len(),
{
    if lines.len() == 0 {
        Seq::empty()
    } else {
        lines.first() + nl() + unlines(lines.drop_first())
    }
}

/// One environment directive line.
pub open spec fn env_line(v: Seq<char>) -> Seq<char> {
    "Environment="@ + v
}

/// The restart-policy line, present exactly when auto-restart is asked for.
pub open spec fn restart_lines(auto_restart: bool) -> Seq<Seq<char>> {
    if auto_restart {
        seq!["Restart=always"@]
    } else {
        Seq::empty()
    }
}

/// The fixed opening of the definition: the comment naming the tool that
/// owns the file, the unit stanza with its network ordering, and the
/// service stanza down to the user line.
pub open spec fn head_lines(user: Seq<char>) -> Seq<Seq<char>> {
    seq![
        "# Generated with Servicer"@,
        "[Unit]"@,
        "After=network.target"@,
        ""@,
        "[Service]"@,
        "Type=simple"@,
        "User="@ + user,
        ""@,
    ]
}

/// The fixed closing of the definition: the install stanza.
pub open spec fn tail_lines() -> Seq<Seq<char>> {
    seq![""@, "[Install]"@, "WantedBy=multi-user.target"@]
}

/// The lines of the synthesized definition, in order: the fixed head, the
/// working directory and start command, the restart line when asked for,
/// one environment line per input entry in input order, and the fixed tail.
pub open spec fn unit_lines(v: ResolvedUnitSpecView) -> Seq<Seq<char>> {
    head_lines(v.user) + seq![
        "WorkingDirectory="@ + v.directory,
        "ExecStart="@ + join_spaces(v.command),
    ] + restart_lines(v.auto_restart) + v.env_vars.map_values(|e: Seq<char>| env_line(e))
        + tail_lines()
}

/// The complete text of the synthesized definition.
pub open spec fn unit_text(v: ResolvedUnitSpecView) -> Seq<char> {
    unlines(unit_lines(v))
}

/// How many lines the definition has.
pub open spec fn unit_lines_len(v: ResolvedUnitSpecView) -> int {
    13 + restart_lines(v.auto_restart).len() as int + v.env_vars.len() as int
}

pub proof fn lemma_unit_lines_len(v: ResolvedUnitSpecView)
    ensures
        unit_lines(v).len() == unit_lines_len(v),
{
}

/// Appending one line to a line list appends that line and a newline to
/// the flattened text.
pub proof fn lemma_unlines_push(lines: Seq<Seq<char>>, l: Seq<char>)
    ensures
        unlines(lines.push(l)) == unlines(lines) + l + nl(),
    decreases lines.len(),
{
    if lines.len() == 0 {
        assert(lines.push(l).drop_first() =~= Seq::<Seq<char>>::empty());
        assert(lines.push(l).first() == l);
        assert(unlines(Seq::<Seq<char>>::empty()) == Seq::<char>::empty());
        assert(unlines(lines.push(l)) == l + nl() + Seq::<char>::empty());
        assert(unlines(lines.push(l)) =~= unlines(lines) + l + nl());
    } else {
        lemma_unlines_push(lines.drop_first(), l);
        assert(lines.push(l).drop_first() =~= lines.drop_first().push(l));
        assert(lines.push(l).first() == lines.first());
        assert(unlines(lines.push(l)) == lines.first() + nl() + (unlines(lines.drop_first()) + l
            + nl()));
        assert(unlines(lines.push(l)) =~= unlines(lines) + l + nl());
    }
}

/// One step of building the text line by line.
proof fn lemma_build_step(ul: Seq<Seq<char>>, k: int, pre: Seq<char>, line: Seq<char>)
    requires
        0 <= k < ul.len(),
        pre == unlines(ul.take(k)),
        line == ul[k],
    ensures
        pre + line + nl() == unlines(ul.take(k + 1)),
{
    lemma_unlines_push(ul.take(k), line);
    assert(ul.take(k + 1) =~= ul.take(k).push(line));
}

/// Appends one complete line to the text under construction.
fn push_line(out: &mut String, line: &str)
    ensures
        final(out)@ == old(out)@ + line@ + nl(),
{
    out.append(line);
    out.append("\n");
    proof {
        reveal_strlit("\n");
        assert("\n"@ =~= nl());
        assert(out@ =~= old(out)@ + line@ + nl());
    }
}

/// Synthesizes the unit definition for a resolved service description.
///
/// Pure and total on its allowed inputs: the result is a function of the
/// description alone, pinned exactly by `unit_text`, so two calls on equal
/// input give byte-identical text.
pub fn synthesize(spec: &ResolvedUnitSpec) -> (r: String)
    requires
        spec@.wf(),
    ensures
        r@ == unit_text(spec@),
{
    let ghost ul = unit_lines(spec@);
    let mut out = String::new();
    proof {
        reveal_strlit("\n");
        reveal_strlit("");
        assert("\n"@ =~= nl());
        assert(""@ =~= Seq::<char>::empty());
        assert(out@ =~= unlines(ul.take(0)));
    }
    push_line(&mut out, "# Generated with Servicer");
    proof {
        lemma_build_step(ul, 0, unlines(ul.take(0)), "# Generated with Servicer"@);
        assert(out@ == unlines(ul.take(1)));
    }
    push_line(&mut out, "[Unit]");
    proof {
        lemma_build_step(ul, 1, unlines(ul.take(1)), "[Unit]"@);
        assert(out@ == unlines(ul.take(2)));
    }
    push_line(&mut out, "After=network.target");
    proof {
        lemma_build_step(ul, 2, unlines(ul.take(2)), "After=network.target"@);
        assert(out@ == unlines(ul.take(3)));
    }
    push_line(&mut out, "");
    proof {
        lemma_build_step(ul, 3, unlines(ul.take(3)), ""@);
        assert(out@ == unlines(ul.take(4)));
    }
    push_line(&mut out, "[Service]");
    proof {
        lemma_build_step(ul, 4, unlines(ul.take(4)), "[Service]"@);
        assert(out@ == unlines(ul.take(5)));
    }
    push_line(&mut out, "Type=simple");
    proof {
        lemma_build_step(ul, 5, unlines(ul.take(5)), "Type=simple"@);
        assert(out@ == unlines(ul.take(6)));
    }
    out.append("User=");
    out.append(spec.user.as_str());
    push_line(&mut out, "");
    proof {
        assert(ul[6] == "User="@ + spec@.user);
        assert(out@ =~= unlines(ul.take(6)) + ul[6] + nl());
        lemma_build_step(ul, 6, unlines(ul.take(6)), ul[6]);
        assert(out@ == unlines(ul.take(7)));
    }
    push_line(&mut out, "");
    proof {
        lemma_build_step(ul, 7, unlines(ul.take(7)), ""@);
        assert(out@ == unlines(ul.take(8)));
    }
    out.append("WorkingDirectory=");
    out.append(spec.directory.as_str());
    push_line(&mut out, "");
    proof {
        assert(ul[8] == "WorkingDirectory="@ + spec@.directory);
        assert(out@ =~= unlines(ul.take(8)) + ul[8] + nl());
        lemma_build_step(ul, 8, unlines(ul.take(8)), ul[8]);
        assert(out@ == unlines(ul.take(9)));
    }
    out.append("ExecStart=");
    let n = spec.command.len();
    let mut i: usize = 0;
    proof {
        assert(spec@.command.take(0) =~= Seq::<Seq<char>>::empty());
        assert(out@ =~= unlines(ul.take(9)) + "ExecStart="@ + join_spaces(spec@.command.take(0)));
    }
    while i < n
        invariant
            i <= n,
            n == spec.command.len(),
            spec@.wf(),
            ul == unit_lines(spec@),
            out@ == unlines(ul.take(9)) + "ExecStart="@ + join_spaces(spec@.command.take(i as int)),
        decreases n - i,
    {
        if i > 0 {
            out.append(" ");
            proof {
                reveal_strlit(" ");
                assert(" "@ =~= seq![' ']);
            }
        }
        out.append(spec.command[i].as_str());
        proof {
            let c = spec@.command;
            assert(spec.command@[i as int]@ == c[i as int]);
            assert(c.take(i + 1).drop_last() =~= c.take(i as int));
            assert(c.take(i + 1).last() == c[i as int]);
            if i == 0 {
                assert(join_spaces(c.take(1)) == c.take(1)[0]);
                assert(out@ =~= unlines(ul.take(9)) + "ExecStart="@ + join_spaces(c.take(1)));
            } else {
                assert(join_spaces(c.take(i + 1)) == join_spaces(c.take(i as int)) + seq![' ']
                    + c[i as int]);
                assert(out@ =~= unlines(ul.take(9)) + "ExecStart="@ + join_spaces(c.take(i + 1)));
            }
        }
        i = i + 1;
    }
    push_line(&mut out, "");
    proof {
        assert(spec@.command.take(n as int) =~= spec@.command);
        assert(ul[9] == "ExecStart="@ + join_spaces(spec@.command));
        assert(out@ =~= unlines(ul.take(9)) + ul[9] + nl());
        lemma_build_step(ul, 9, unlines(ul.take(9)), ul[9]);
        assert(out@ == unlines(ul.take(10)));
    }
    if spec.auto_restart {
        push_line(&mut out, "Restart=always");
        proof {
            assert(ul[10] == "Restart=always"@);
            lemma_build_step(ul, 10, unlines(ul.take(10)), "Restart=always"@);
            assert(out@ == unlines(ul.take(11)));
        }
    }
    let ghost base: int = 10 + restart_lines(spec@.auto_restart).len() as int;
    proof {
        assert(out@ == unlines(ul.take(base)));
    }
    let m = spec.env_vars.len();
    let mut j: usize = 0;
    while j < m
        invariant
            j <= m,
            m == spec.env_vars.len(),
            spec@.wf(),
            ul == unit_lines(spec@),
            base == 10 + restart_lines(spec@.auto_restart).len(),
            out@ == unlines(ul.take(base + j)),
        decreases m - j,
    {
        out.append("Environment=");
        out.append(spec.env_vars[j].as_str());
        push_line(&mut out, "");
        proof {
            reveal_strlit("");
            assert(""@ =~= Seq::<char>::empty());
            assert(spec.env_vars@[j as int]@ == spec@.env_vars[j as int]);
            assert(spec@.env_vars.map_values(|e: Seq<char>| env_line(e))[j as int] == env_line(
                spec@.env_vars[j as int],
            ));
            assert(ul[base + j] == env_line(spec@.env_vars[j as int]));
            assert(out@ =~= unlines(ul.take(base + j)) + ul[base + j] + nl());
            lemma_build_step(ul, base + j, unlines(ul.take(base + j)), ul[base + j]);
            assert(out@ == unlines(ul.take(base + j + 1)));
        }
        j = j + 1;
    }
    push_line(&mut out, "");
    proof {
        assert(ul[base + m] == ""@);
        assert(out@ =~= unlines(ul.take(base + m)) + ul[base + m] + nl());
        lemma_build_step(ul, base + m, unlines(ul.take(base + m)), ul[base + m]);
    }
    push_line(&mut out, "[Install]");
    proof {
        assert(ul[base + m + 1] == "[Install]"@);
        lemma_build_step(ul, base + m + 1, unlines(ul.take(base + m + 1)), "[Install]"@);
    }
    push_line(&mut out, "WantedBy=multi-user.target");
    proof {
        assert(ul[base + m + 2] == "WantedBy=multi-user.target"@);
        lemma_build_step(
            ul,
            base + m + 2,
            unlines(ul.take(base + m + 2)),
            "WantedBy=multi-user.target"@,
        );
        lemma_unit_lines_len(spec@);
        assert(ul.take(base + m + 3) =~= ul);
        assert(out@ == unit_text(spec@));
    }
    out
}

/// Synthesis is deterministic: the definition text is a function of the
/// resolved description alone, so two calls with equal input produce
/// byte-identical output.
pub proof fn lemma_synthesize_deterministic(a: ResolvedUnitSpecView, b: ResolvedUnitSpecView)
    requires
        a == b,
    ensures
        unit_text(a) == unit_text(b),
{
}

} // verus!
