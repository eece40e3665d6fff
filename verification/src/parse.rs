//! Reading a unit definition back: splitting text into lines, looking up
//! directive values, and the laws tying the reader to the synthesizer.

use vstd::prelude::*;
use crate::synth::{
    env_line, join_spaces, lemma_unit_lines_len, line_clean, nl, restart_lines, unit_lines,
    unit_lines_len, unit_text, unlines, ResolvedUnitSpecView,
};

verus! {

/// Index of the first newline in `s`, or `s.len()` when there is none.
pub open spec fn first_nl(s: Seq<char>) -> int
    decreases s.len(),
{
    if s.len() == 0 {
        0
    } else if s.first() == '\n' {
        0
    } else {
        1 + first_nl(s.drop_first())
    }
}

pub proof fn lemma_first_nl(s: Seq<char>)
    ensures
        0 <= first_nl(s) <= s.len(),
        first_nl(s) < s.len() ==> s[first_nl(s)] == '\n',
        forall|j: int| 0 <= j < first_nl(s) ==> s[j] != '\n',
    decreases s.len(),
{
    if s.len() == 0 {
    } else if s.first() == '\n' {
    } else {
        lemma_first_nl(s.drop_first());
        assert forall|j: int| 0 <= j < first_nl(s) implies s[j] != '\n' by {
            if j > 0 {
                assert(s.drop_first()[j - 1] == s[j]);
            }
        }
    }
}

/// The text split at newlines: each newline ends a line; a final fragment
/// without a terminator is a line of its own.
pub open spec fn split_lines(s: Seq<char>) -> Seq<Seq<char>>
    decreases s.len(),
    via split_lines_decreases
{
    if s.len() == 0 {
        Seq::empty()
    } else {
        let i = first_nl(s);
        if i == s.len() {
            seq![s]
        } else {
            seq![s.take(i)] + split_lines(s.skip(i + 1))
        }
    }
}

#[via_fn]
proof fn split_lines_decreases(s: Seq<char>) {
    lemma_first_nl(s);
}

/// A newline-clean line followed by text that opens with a newline: the
/// first newline of the whole is exactly at the line's end.
proof fn lemma_first_nl_prefix(l: Seq<char>, tail: Seq<char>)
    requires
        line_clean(l),
        tail.len() > 0,
        tail.first() == '\n',
    ensures
        first_nl(l + tail) == l.len(),
    decreases l.len(),
{
    if l.len() == 0 {
        assert(l + tail =~= tail);
    } else {
        assert forall|i: int| 0 <= i < l.drop_first().len() implies #[trigger] l.drop_first()[i]
            != '\n' by {
            assert(l.drop_first()[i] == l[i + 1]);
        }
        lemma_first_nl_prefix(l.drop_first(), tail);
        assert((l + tail).drop_first() =~= l.drop_first() + tail);
        assert((l + tail).first() == l.first());
        assert(first_nl(l + tail) == 1 + first_nl(l.drop_first() + tail));
    }
}

/// Splitting undoes joining: for lines free of raw newlines, the lines of
/// the joined text are exactly the lines that were joined.
pub proof fn lemma_split_unlines(lines: Seq<Seq<char>>)
    requires
        forall|i: int| 0 <= i < lines.len() ==> line_clean(#[trigger] lines[i]),
    ensures
        split_lines(unlines(lines)) == lines,
    decreases lines.len(),
{
    if lines.len() == 0 {
        assert(split_lines(unlines(lines)) =~= lines);
    } else {
        let l = lines.first();
        let rest = lines.drop_first();
        let s = unlines(lines);
        assert(s == l + nl() + unlines(rest));
        assert((l + nl() + unlines(rest)) =~= l + (nl() + unlines(rest)));
        assert((nl() + unlines(rest)).first() == '\n');
        lemma_first_nl_prefix(l, nl() + unlines(rest));
        assert(first_nl(s) == l.len());
        assert(s.len() == l.len() + 1 + unlines(rest).len());
        assert(s.take(l.len() as int) =~= l);
        assert(s.skip(l.len() as int + 1) =~= unlines(rest));
        assert forall|i: int| 0 <= i < rest.len() implies line_clean(#[trigger] rest[i]) by {
            assert(rest[i] == lines[i + 1]);
        }
        lemma_split_unlines(rest);
        assert(split_lines(s) == seq![l] + rest);
        assert(seq![l] + rest =~= lines);
    }
}

/// `p` is a prefix of `s`.
pub open spec fn starts_with(s: Seq<char>, p: Seq<char>) -> bool {
    p.len() <= s.len() && s.take(p.len() as int) == p
}

/// Index of the first line starting with `p`; `lines.len()` when none does.
pub open spec fn first_match(lines: Seq<Seq<char>>, p: Seq<char>) -> int
    decreases lines.len(),
{
    if lines.len() == 0 {
        0
    } else if starts_with(lines.first(), p) {
        0
    } else {
        1 + first_match(lines.drop_first(), p)
    }
}

/// The value of the first directive line beginning with `p`: what follows
/// the prefix on that line; `None` when no line carries the directive.
pub open spec fn field_value(lines: Seq<Seq<char>>, p: Seq<char>) -> Option<Seq<char>> {
    let i = first_match(lines, p);
    if i < lines.len() {
        Some(lines[i].skip(p.len() as int))
    } else {
        None
    }
}

/// A prefix that first occurs on line `k` is looked up at line `k`.
pub proof fn lemma_first_match_at(lines: Seq<Seq<char>>, p: Seq<char>, k: int)
    requires
        0 <= k < lines.len(),
        starts_with(lines[k], p),
        forall|j: int| 0 <= j < k ==> !starts_with(#[trigger] lines[j], p),
    ensures
        first_match(lines, p) == k,
        field_value(lines, p) == Some(lines[k].skip(p.len() as int)),
    decreases k,
{
    if k == 0 {
    } else {
        assert(!starts_with(lines.first(), p));
        assert forall|j: int| 0 <= j < k - 1 implies !starts_with(
            #[trigger] lines.drop_first()[j],
            p,
        ) by {
            assert(lines.drop_first()[j] == lines[j + 1]);
        }
        assert(lines.drop_first()[k - 1] == lines[k]);
        lemma_first_match_at(lines.drop_first(), p, k - 1);
    }
}

/// `p` cannot be a prefix of `s` when their first characters differ.
proof fn lemma_not_prefix_char(s: Seq<char>, p: Seq<char>)
    requires
        p.len() > 0,
        s.len() == 0 || s[0] != p[0],
    ensures
        !starts_with(s, p),
{
    if p.len() <= s.len() && s.take(p.len() as int) == p {
        assert(s.take(p.len() as int)[0] == s[0]);
        assert(false);
    }
}

/// Joining newline-clean tokens with spaces stays newline-clean.
pub proof fn lemma_join_spaces_clean(tokens: Seq<Seq<char>>)
    requires
        forall|i: int| 0 <= i < tokens.len() ==> line_clean(#[trigger] tokens[i]),
    ensures
        line_clean(join_spaces(tokens)),
    decreases tokens.len(),
{
    if tokens.len() == 0 {
    } else if tokens.len() == 1 {
        assert(join_spaces(tokens) == tokens[0]);
    } else {
        assert forall|i: int| 0 <= i < tokens.drop_last().len() implies line_clean(
            #[trigger] tokens.drop_last()[i],
        ) by {
            assert(tokens.drop_last()[i] == tokens[i]);
        }
        lemma_join_spaces_clean(tokens.drop_last());
        assert(line_clean(tokens.last()));
        assert forall|i: int| 0 <= i < join_spaces(tokens).len() implies #[trigger] join_spaces(
            tokens,
        )[i] != '\n' by {
            let a = join_spaces(tokens.drop_last());
            let b = tokens.last();
            assert(join_spaces(tokens) == a + seq![' '] + b);
            if i < a.len() {
                assert(join_spaces(tokens)[i] == a[i]);
            } else if i == a.len() {
                assert(join_spaces(tokens)[i] == ' ');
            } else {
                assert(join_spaces(tokens)[i] == b[i - a.len() - 1]);
            }
        }
    }
}

/// Every line the synthesizer emits for a clean description is itself
/// free of raw newlines.
pub proof fn lemma_unit_lines_clean(v: ResolvedUnitSpecView)
    requires
        v.clean(),
    ensures
        forall|i: int| 0 <= i < unit_lines(v).len() ==> line_clean(#[trigger] unit_lines(v)[i]),
{
    reveal_strlit("# Generated with Servicer");
    reveal_strlit("[Unit]");
    reveal_strlit("After=network.target");
    reveal_strlit("");
    reveal_strlit("[Service]");
    reveal_strlit("Type=simple");
    reveal_strlit("User=");
    reveal_strlit("WorkingDirectory=");
    reveal_strlit("ExecStart=");
    reveal_strlit("Restart=always");
    reveal_strlit("Environment=");
    reveal_strlit("[Install]");
    reveal_strlit("WantedBy=multi-user.target");
    let ul = unit_lines(v);
    lemma_unit_lines_len(v);
    lemma_join_spaces_clean(v.command);
    let r: int = restart_lines(v.auto_restart).len() as int;
    assert forall|i: int| 0 <= i < ul.len() implies line_clean(#[trigger] ul[i]) by {
        let envs = v.env_vars.map_values(|e: Seq<char>| env_line(e));
        if i == 6 {
            assert(ul[6] == "User="@ + v.user);
            lemma_concat_clean("User="@, v.user);
        } else if i == 8 {
            assert(ul[8] == "WorkingDirectory="@ + v.directory);
            lemma_concat_clean("WorkingDirectory="@, v.directory);
        } else if i == 9 {
            assert(ul[9] == "ExecStart="@ + join_spaces(v.command));
            lemma_concat_clean("ExecStart="@, join_spaces(v.command));
        } else if 10 + r <= i < 10 + r + v.env_vars.len() {
            let k = i - 10 - r;
            assert(envs[k] == env_line(v.env_vars[k]));
            assert(ul[i] == "Environment="@ + v.env_vars[k]);
            assert(line_clean(v.env_vars[k]));
            lemma_concat_clean("Environment="@, v.env_vars[k]);
        }
    }
}

/// Two newline-clean pieces concatenate to a newline-clean line.
proof fn lemma_concat_clean(a: Seq<char>, b: Seq<char>)
    requires
        line_clean(a),
        line_clean(b),
    ensures
        line_clean(a + b),
{
    assert forall|i: int| 0 <= i < (a + b).len() implies #[trigger] (a + b)[i] != '\n' by {
        if i < a.len() {
            assert((a + b)[i] == a[i]);
        } else {
            assert((a + b)[i] == b[i - a.len()]);
        }
    }
}

/// Round trip: splitting the synthesized text back into lines recovers the
/// synthesizer's lines exactly, and looking the directives up in them
/// recovers the simple service type, the user, the working directory and
/// the space-joined command.
pub proof fn lemma_round_trip(v: ResolvedUnitSpecView)
    requires
        v.wf(),
        v.clean(),
    ensures
        split_lines(unit_text(v)) == unit_lines(v),
        field_value(unit_lines(v), "Type="@) == Some("simple"@),
        field_value(unit_lines(v), "User="@) == Some(v.user),
        field_value(unit_lines(v), "WorkingDirectory="@) == Some(v.directory),
        field_value(unit_lines(v), "ExecStart="@) == Some(join_spaces(v.command)),
{
    reveal_strlit("# Generated with Servicer");
    reveal_strlit("[Unit]");
    reveal_strlit("After=network.target");
    reveal_strlit("");
    reveal_strlit("[Service]");
    reveal_strlit("Type=simple");
    reveal_strlit("simple");
    reveal_strlit("Type=");
    reveal_strlit("User=");
    reveal_strlit("WorkingDirectory=");
    reveal_strlit("ExecStart=");
    let ul = unit_lines(v);
    lemma_unit_lines_len(v);
    lemma_unit_lines_clean(v);
    lemma_split_unlines(ul);

    assert(ul[0] == "# Generated with Servicer"@);
    assert(ul[1] == "[Unit]"@);
    assert(ul[2] == "After=network.target"@);
    assert(ul[3] == ""@);
    assert(ul[4] == "[Service]"@);
    assert(ul[5] == "Type=simple"@);
    assert(ul[6] == "User="@ + v.user);
    assert(ul[7] == ""@);
    assert(ul[8] == "WorkingDirectory="@ + v.directory);
    assert(ul[9] == "ExecStart="@ + join_spaces(v.command));

    // Type= stands first on line 5.
    lemma_not_prefix_char(ul[0], "Type="@);
    lemma_not_prefix_char(ul[1], "Type="@);
    lemma_not_prefix_char(ul[2], "Type="@);
    lemma_not_prefix_char(ul[3], "Type="@);
    lemma_not_prefix_char(ul[4], "Type="@);
    assert(starts_with(ul[5], "Type="@)) by {
        assert(ul[5].take(5) =~= "Type="@);
    }
    lemma_first_match_at(ul, "Type="@, 5);
    assert("Type=simple"@.skip(5) =~= "simple"@);

    // User= stands first on line 6.
    lemma_not_prefix_char(ul[5], "User="@);
    lemma_not_prefix_char(ul[0], "User="@);
    lemma_not_prefix_char(ul[1], "User="@);
    lemma_not_prefix_char(ul[2], "User="@);
    lemma_not_prefix_char(ul[3], "User="@);
    lemma_not_prefix_char(ul[4], "User="@);
    assert(starts_with(ul[6], "User="@)) by {
        assert(ul[6].take(5) =~= "User="@);
    }
    lemma_first_match_at(ul, "User="@, 6);
    assert(ul[6].skip(5) =~= v.user);

    // WorkingDirectory= stands first on line 8.
    lemma_not_prefix_char(ul[0], "WorkingDirectory="@);
    lemma_not_prefix_char(ul[1], "WorkingDirectory="@);
    lemma_not_prefix_char(ul[2], "WorkingDirectory="@);
    lemma_not_prefix_char(ul[3], "WorkingDirectory="@);
    lemma_not_prefix_char(ul[4], "WorkingDirectory="@);
    lemma_not_prefix_char(ul[5], "WorkingDirectory="@);
    assert(ul[6].len() == 0 || ul[6][0] != "WorkingDirectory="@[0]) by {
        assert(ul[6][0] == 'U');
    }
    lemma_not_prefix_char(ul[6], "WorkingDirectory="@);
    lemma_not_prefix_char(ul[7], "WorkingDirectory="@);
    assert(starts_with(ul[8], "WorkingDirectory="@)) by {
        assert(ul[8].take(17) =~= "WorkingDirectory="@);
    }
    lemma_first_match_at(ul, "WorkingDirectory="@, 8);
    assert(ul[8].skip(17) =~= v.directory);

    // ExecStart= stands first on line 9.
    lemma_not_prefix_char(ul[0], "ExecStart="@);
    lemma_not_prefix_char(ul[1], "ExecStart="@);
    lemma_not_prefix_char(ul[2], "ExecStart="@);
    lemma_not_prefix_char(ul[3], "ExecStart="@);
    lemma_not_prefix_char(ul[4], "ExecStart="@);
    lemma_not_prefix_char(ul[5], "ExecStart="@);
    assert(ul[6][0] == 'U');
    lemma_not_prefix_char(ul[6], "ExecStart="@);
    lemma_not_prefix_char(ul[7], "ExecStart="@);
    assert(ul[8][0] == 'W');
    lemma_not_prefix_char(ul[8], "ExecStart="@);
    assert(starts_with(ul[9], "ExecStart="@)) by {
        assert(ul[9].take(10) =~= "ExecStart="@);
    }
    lemma_first_match_at(ul, "ExecStart="@, 9);
    assert(ul[9].skip(10) =~= join_spaces(v.command));
}

/// The lines around the start command, exactly: the `ExecStart=` line is
/// the space-joined tokens; `Restart=always` follows it exactly when
/// auto-restart is set and appears nowhere otherwise; one `Environment=`
/// line per entry, in input order; the install stanza closes the file.
pub proof fn lemma_service_section_shape(v: ResolvedUnitSpecView)
    requires
        v.wf(),
        v.clean(),
    ensures
        unit_lines(v).len() == unit_lines_len(v),
        unit_lines(v)[9] == "ExecStart="@ + join_spaces(v.command),
        v.auto_restart ==> unit_lines(v)[10] == "Restart=always"@,
        !v.auto_restart ==> forall|i: int|
            0 <= i < unit_lines(v).len() ==> unit_lines(v)[i] != "Restart=always"@,
        forall|k: int|
            0 <= k < v.env_vars.len() ==> unit_lines(v)[10 + restart_lines(v.auto_restart).len()
                + k] == env_line(v.env_vars[k]),
        unit_lines(v)[unit_lines_len(v) - 2] == "[Install]"@,
        unit_lines(v)[unit_lines_len(v) - 1] == "WantedBy=multi-user.target"@,
{
    reveal_strlit("# Generated with Servicer");
    reveal_strlit("[Unit]");
    reveal_strlit("After=network.target");
    reveal_strlit("");
    reveal_strlit("[Service]");
    reveal_strlit("Type=simple");
    reveal_strlit("User=");
    reveal_strlit("WorkingDirectory=");
    reveal_strlit("ExecStart=");
    reveal_strlit("Restart=always");
    reveal_strlit("Environment=");
    reveal_strlit("[Install]");
    reveal_strlit("WantedBy=multi-user.target");
    let ul = unit_lines(v);
    lemma_unit_lines_len(v);
    let r: int = restart_lines(v.auto_restart).len() as int;
    let n: int = v.env_vars.len() as int;
    let envs = v.env_vars.map_values(|e: Seq<char>| env_line(e));
    assert forall|k: int| 0 <= k < n implies ul[10 + r + k] == env_line(v.env_vars[k]) by {
        assert(envs[k] == env_line(v.env_vars[k]));
    }
    if !v.auto_restart {
        assert forall|i: int| 0 <= i < ul.len() implies ul[i] != "Restart=always"@ by {
            if i == 0 {
                assert(ul[i].len() == 25);
            } else if i == 1 {
                assert(ul[i].len() == 6);
            } else if i == 2 {
                assert(ul[i].len() == 20);
            } else if i == 3 || i == 7 || i == 10 + n {
                assert(ul[i].len() == 0);
            } else if i == 4 {
                assert(ul[i].len() == 9);
            } else if i == 5 {
                assert(ul[i].len() == 11);
            } else if i == 6 {
                assert(ul[i][0] == 'U');
                assert("Restart=always"@[0] == 'R');
            } else if i == 8 {
                assert(ul[i][0] == 'W');
                assert("Restart=always"@[0] == 'R');
            } else if i == 9 {
                assert(ul[i][0] == 'E');
                assert("Restart=always"@[0] == 'R');
            } else if 10 <= i < 10 + n {
                assert(envs[i - 10] == env_line(v.env_vars[i - 10]));
                assert(ul[i] == "Environment="@ + v.env_vars[i - 10]);
                assert(ul[i][0] == 'E');
                assert("Restart=always"@[0] == 'R');
            } else if i == 11 + n {
                assert(ul[i].len() == 9);
                assert(ul[i][0] == '[');
                assert("Restart=always"@[0] == 'R');
            } else {
                assert(i == 12 + n);
                assert(ul[i][0] == 'W');
                assert("Restart=always"@[0] == 'R');
            }
        }
    }
}

} // verus!
